//! The verified half of the wiki API client: connection configuration,
//! identity classification, and the exact request payloads for diff
//! computation and publication.
//!
//! The HTTP round trips themselves are collaborators at the edge.  Callers
//! build a request here, perform it, and hand the observed response back in
//! as plain values.

use crate::decimal::dec_rep;
use crate::decimal::u32_to_string;
use crate::models::Edit;
use crate::models::EditView;
use crate::review::ReviewError;
use crate::text::str_eq;
use crate::text::try_decode_text;
use vstd::prelude::*;
use vstd::utf8::decode_utf8;
use vstd::utf8::valid_utf8;

verus! {

/// The API endpoint URL derived from a wiki hostname.
pub open spec fn spec_api_url(wiki: Seq<char>) -> Seq<char> {
    "https://"@ + wiki + "/w/api.php"@
}

/// Builds the endpoint URL for a wiki hostname, making the host selection an
/// explicit value rather than a hidden default.
pub fn api_endpoint_url(wiki: &str) -> (r: String)
    ensures
        r@ == spec_api_url(wiki@),
{
    let mut s = String::from_str("https://");
    s.append(wiki);
    s.append("/w/api.php");
    proof {
        assert(s@ =~= spec_api_url(wiki@));
    }
    s
}

/// Connection settings for one short-lived API client.
pub struct ApiConfig {
    /// Where requests go: the URL derived from the target wiki's hostname.
    pub endpoint: String,
    /// The fixed, versioned client identifier sent with every request.
    pub user_agent: String,
    /// Remote lag threshold; `None` disables the wiki's lag protection.
    pub maxlag: Option<u32>,
    /// Bearer credential, present only for privileged calls.
    pub oauth_token: Option<String>,
}

/// The configuration for this interactive, moderator-paced tool: lag
/// protection is deliberately disabled, and the bearer token is attached
/// only when the caller supplies one.
pub fn interactive_config(wiki: &str, user_agent: String, oauth_token: Option<String>) -> (c:
    ApiConfig)
    ensures
        c.endpoint@ == spec_api_url(wiki@),
        c.user_agent == user_agent,
        c.maxlag is None,
        c.oauth_token == oauth_token,
{
    ApiConfig { endpoint: api_endpoint_url(wiki), user_agent, maxlag: None, oauth_token }
}

/// What an identity lookup established about the bearer token.
#[derive(Debug)]
pub enum IdentityOutcome {
    /// The token resolves to a named, logged-in identity.
    Named(String),
    /// The token resolves to an anonymous, logged-out session.
    Anonymous,
    /// The lookup failed outright or returned no usable identity.
    LookupFailed,
}

/// The identity fields read out of a `userinfo` response.
#[derive(Debug)]
pub struct UserinfoReply {
    /// Whether the response flagged the session as anonymous.
    pub anon: bool,
    /// The account name, when the response carried one.
    pub name: Option<String>,
}

/// Classifies an identity lookup.  A failed call (`None`) and a response
/// without a usable name both count as a failed lookup, kept distinct from
/// the explicit anonymous-session answer.
pub fn classify_userinfo(reply: Option<UserinfoReply>) -> (r: IdentityOutcome)
    ensures
        reply is None ==> r is LookupFailed,
        reply matches Some(u) ==> {
            &&& u.anon ==> r is Anonymous
            &&& !u.anon && u.name is None ==> r is LookupFailed
            &&& !u.anon ==> (u.name matches Some(n) ==> (r matches IdentityOutcome::Named(m) && m
                == n))
        },
{
    match reply {
        None => IdentityOutcome::LookupFailed,
        Some(u) => {
            if u.anon {
                IdentityOutcome::Anonymous
            } else {
                match u.name {
                    Some(n) => IdentityOutcome::Named(n),
                    None => IdentityOutcome::LookupFailed,
                }
            }
        },
    }
}

/// Collapses an identity outcome to the name to display: anonymous sessions
/// and failed lookups alike yield no name.
pub fn username_of(outcome: IdentityOutcome) -> (r: Option<String>)
    ensures
        outcome matches IdentityOutcome::Named(n) ==> (r matches Some(m) && m == n),
        !(outcome matches IdentityOutcome::Named(_)) ==> r is None,
{
    match outcome {
        IdentityOutcome::Named(n) => Some(n),
        _ => None,
    }
}

/// The attribution the publish path prefixes to every summary, so the edit
/// is credited to the anonymous submitter even though the publishing
/// identity is the moderator's.
pub open spec fn spec_attributed_summary(summary: Seq<char>) -> Seq<char> {
    "Edit on behalf of Tor user: "@ + summary
}

/// Prefixes the fixed attribution marker to a submitter's summary.
pub fn attributed_summary(summary: &str) -> (r: String)
    ensures
        r@ == spec_attributed_summary(summary@),
{
    let mut s = String::from_str("Edit on behalf of Tor user: ");
    s.append(summary);
    s
}

/// The sentinel the wiki returns in place of an edit token when the session
/// credential is no longer valid.
pub open spec fn spec_token_expired(t: Seq<char>) -> bool {
    t == "+\\"@
}

/// Whether an edit token is the logged-out sentinel rather than a real token.
pub fn edit_token_expired(t: &str) -> (r: bool)
    ensures
        r == spec_token_expired(t@),
{
    str_eq(t, "+\\")
}

/// The views of a list of request parameters.
pub open spec fn params_view(v: Seq<(String, String)>) -> Seq<(Seq<char>, Seq<char>)> {
    Seq::new(v.len(), |i: int| (v[i].0@, v[i].1@))
}

/// The `compare` request that renders a diff between the edit's base
/// revision and its proposed text.
pub open spec fn spec_diff_params(e: EditView) -> Seq<(Seq<char>, Seq<char>)> {
    seq![
        ("action"@, "compare"@),
        ("formatversion"@, "2"@),
        ("fromrev"@, dec_rep(e.baserevid as nat)),
        ("toslots"@, "main"@),
        ("totext-main"@, decode_utf8(e.text)),
    ]
}

/// Builds the diff request for an edit.  The proposed text is decoded as
/// UTF-8; bytes that fail to decode are an invalid-input error, fatal to the
/// request.
pub fn diff_params(edit: &Edit) -> (r: Result<Vec<(String, String)>, ReviewError>)
    ensures
        valid_utf8(edit.text@) ==> (r matches Ok(v) && params_view(v@) == spec_diff_params(
            edit@,
        )),
        !valid_utf8(edit.text@) ==> (r matches Err(e) && e == ReviewError::InvalidText),
{
    let text = match try_decode_text(edit.text.as_slice()) {
        Some(t) => t,
        None => {
            return Err(ReviewError::InvalidText);
        },
    };
    let mut v: Vec<(String, String)> = Vec::new();
    v.push((String::from_str("action"), String::from_str("compare")));
    v.push((String::from_str("formatversion"), String::from_str("2")));
    v.push((String::from_str("fromrev"), u32_to_string(edit.baserevid)));
    v.push((String::from_str("toslots"), String::from_str("main")));
    v.push((String::from_str("totext-main"), text));
    proof {
        assert(params_view(v@) =~= spec_diff_params(edit@));
    }
    Ok(v)
}

/// The `edit` request that publishes an edit's text: the exact stored page
/// and revision identifiers, the attributed summary, and the freshly
/// obtained edit token.
pub open spec fn spec_publish_params(e: EditView, csrf: Seq<char>) -> Seq<(Seq<char>, Seq<char>)> {
    seq![
        ("action"@, "edit"@),
        ("formatversion"@, "2"@),
        ("assert"@, "user"@),
        ("pageid"@, dec_rep(e.pageid as nat)),
        ("text"@, decode_utf8(e.text)),
        ("summary"@, spec_attributed_summary(e.summary)),
        ("baserevid"@, dec_rep(e.baserevid as nat)),
        ("token"@, csrf),
    ]
}

/// Builds the publish request for an edit, given the edit token obtained for
/// this call.  The logged-out sentinel in place of a token is the explicit
/// credential-expired failure; text that is not valid UTF-8 is an
/// invalid-input error.
pub fn publish_params(edit: &Edit, csrf_token: &str) -> (r: Result<
    Vec<(String, String)>,
    ReviewError,
>)
    ensures
        spec_token_expired(csrf_token@) ==> (r matches Err(e) && e
            == ReviewError::CredentialExpired),
        !spec_token_expired(csrf_token@) && !valid_utf8(edit.text@) ==> (r matches Err(e) && e
            == ReviewError::InvalidText),
        !spec_token_expired(csrf_token@) && valid_utf8(edit.text@) ==> (r matches Ok(v)
            && params_view(v@) == spec_publish_params(edit@, csrf_token@)),
{
    if edit_token_expired(csrf_token) {
        return Err(ReviewError::CredentialExpired);
    }
    let text = match try_decode_text(edit.text.as_slice()) {
        Some(t) => t,
        None => {
            return Err(ReviewError::InvalidText);
        },
    };
    let mut v: Vec<(String, String)> = Vec::new();
    v.push((String::from_str("action"), String::from_str("edit")));
    v.push((String::from_str("formatversion"), String::from_str("2")));
    v.push((String::from_str("assert"), String::from_str("user")));
    v.push((String::from_str("pageid"), u32_to_string(edit.pageid)));
    v.push((String::from_str("text"), text));
    v.push((String::from_str("summary"), attributed_summary(edit.summary.as_str())));
    v.push((String::from_str("baserevid"), u32_to_string(edit.baserevid)));
    v.push((String::from_str("token"), String::from_str(csrf_token)));
    proof {
        assert(params_view(v@) =~= spec_publish_params(edit@, csrf_token@));
    }
    Ok(v)
}

/// The rendered comparison extracted from a diff response.  A response
/// without a rendered body is an upstream failure, reported rather than
/// crashing the request.
pub fn diff_view_of(body: Option<String>) -> (r: Result<String, ReviewError>)
    ensures
        body matches Some(b) ==> (r matches Ok(s) && s == b),
        body is None ==> (r matches Err(e) && e matches ReviewError::Upstream(m) && m@
            == "comparison returned no rendered body"@),
{
    match body {
        Some(b) => Ok(b),
        None => Err(ReviewError::Upstream(String::from_str("comparison returned no rendered body"))),
    }
}

} // verus!

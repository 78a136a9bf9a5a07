//! The session/token gate.
//!
//! The bearer credential lives in the moderator's browser session; this crate
//! only reads it, and only asks whether one is present.  Whether the token is
//! still valid is discovered by the identity-provider round trip alone.

use vstd::prelude::*;

verus! {

/// Pulls the bearer token out of the session cookie value, when one was
/// supplied.  An absent token short-circuits every privileged action before
/// the store or the wiki is touched.
pub fn extract_token(cookie: Option<String>) -> (r: Option<String>)
    ensures
        r == cookie,
{
    match cookie {
        Some(token) => Some(token),
        None => None,
    }
}

} // verus!

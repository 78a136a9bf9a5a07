//! The review state machine and the error taxonomy it reports with.
//!
//! A moderator's approve/reject request passes the token gate, loads the edit,
//! maps the requested action onto a target state, publishes to the wiki when
//! the target is `Published`, and only then persists the new state — so a
//! failed publish never leaves the store claiming success.

use crate::api::api_endpoint_url;
use crate::api::diff_params;
use crate::api::params_view;
use crate::api::spec_api_url;
use crate::api::spec_diff_params;
use crate::models::Edit;
use crate::models::EditForm;
use crate::models::EditState;
use crate::models::EditView;
use crate::models::NewEdit;
use crate::store::contains_id;
use crate::store::edit_views;
use crate::store::edit_with_id;
use crate::store::set_state_view;
use crate::store::with_state;
use crate::store::EditStore;
use crate::text::str_eq;
use vstd::prelude::*;
use vstd::utf8::encode_utf8;
use vstd::utf8::valid_utf8;

verus! {

/// Everything a review or diff request can fail with.
///
/// `InconsistentState` is the one loud special case: a state write failed
/// *after* the wiki publish succeeded, so the wiki and the store disagree
/// and an operator must reconcile them by hand.
#[derive(Debug)]
pub enum ReviewError {
    /// No token accompanied a privileged action; the caller must (re-)authenticate.
    AuthenticationRequired,
    /// No stored edit carries the requested identity.
    NotFound,
    /// The requested action is neither approve nor reject.
    InvalidAction,
    /// The proposed text is not valid UTF-8, so it cannot be sent to the wiki.
    InvalidText,
    /// The session credential is no longer valid; the moderator must log in again.
    CredentialExpired,
    /// The wiki API reported a failure; the reason is passed through verbatim.
    Upstream(String),
    /// The store reported a failure before any side effect took place.
    PersistenceFailed,
    /// The store failed after a successful publish: wiki and store now disagree.
    InconsistentState,
}

/// The outcome a caller observed from the wiki publish operation.
#[derive(Debug)]
pub enum PublishOutcome {
    Success,
    Failure(String),
}

impl ReviewError {
    /// A display string for each failure, suitable for the status page.
    pub fn message(&self) -> (m: String)
        ensures
            *self is AuthenticationRequired ==> m@ == "authentication required, please log in"@,
            *self is NotFound ==> m@ == "invalid edit id provided"@,
            *self is InvalidAction ==> m@ == "invalid state provided"@,
            *self is InvalidText ==> m@ == "proposed text is not valid UTF-8"@,
            *self is CredentialExpired ==> m@
                == "OAuth token no longer valid, please log in again"@,
            *self matches ReviewError::Upstream(reason) ==> m@ == reason@,
            *self is PersistenceFailed ==> m@ == "failed to persist the new edit state"@,
            *self is InconsistentState ==> m@
                == "published, but recording the new state failed; manual reconciliation required"@,
    {
        match self {
            ReviewError::AuthenticationRequired => String::from_str(
                "authentication required, please log in",
            ),
            ReviewError::NotFound => String::from_str("invalid edit id provided"),
            ReviewError::InvalidAction => String::from_str("invalid state provided"),
            ReviewError::InvalidText => String::from_str("proposed text is not valid UTF-8"),
            ReviewError::CredentialExpired => String::from_str(
                "OAuth token no longer valid, please log in again",
            ),
            ReviewError::Upstream(reason) => reason.clone(),
            ReviewError::PersistenceFailed => String::from_str(
                "failed to persist the new edit state",
            ),
            ReviewError::InconsistentState => String::from_str(
                "published, but recording the new state failed; manual reconciliation required",
            ),
        }
    }
}

/// Classifies a store failure during the final state write: after a
/// successful publish it is the distinct inconsistent-state condition, not
/// an ordinary failed-before-any-side-effect persistence error.
pub fn persistence_failure_kind(published: bool) -> (e: ReviewError)
    ensures
        published ==> e == ReviewError::InconsistentState,
        !published ==> e == ReviewError::PersistenceFailed,
{
    if published {
        ReviewError::InconsistentState
    } else {
        ReviewError::PersistenceFailed
    }
}

/// The state a review action asks for: approve publishes, reject only
/// records, and anything else is refused.
pub open spec fn action_target(a: Seq<char>) -> Option<EditState> {
    if a == "approve"@ {
        Some(EditState::Published)
    } else if a == "reject"@ {
        Some(EditState::Rejected)
    } else {
        None
    }
}

/// Every state a review action can write is terminal: no action ever leads
/// back to `Pending`.
pub proof fn lemma_review_targets_terminal(a: Seq<char>)
    ensures
        action_target(a) matches Some(t) ==> t != EditState::Pending,
{
}

/// What a review request resolved to before any side effect: the edit to
/// act on and the state the action asks for.  A `Published` target obliges
/// the caller to publish to the wiki before recording the state.
pub struct ReviewPlan {
    pub edit: Edit,
    pub target: EditState,
}

/// The side-effect-free head of the state machine: the token gate, the edit
/// lookup and the action mapping, in that order.  Refusal here means the
/// request ends before any store mutation or wiki call is reached.
pub fn plan_review(
    store: &EditStore,
    edit_id: u32,
    action: &str,
    token: &Option<String>,
) -> (r: Result<ReviewPlan, ReviewError>)
    requires
        store.wf(),
    ensures
        token is None ==> (r matches Err(e) && e == ReviewError::AuthenticationRequired),
        token is Some && !contains_id(store@, edit_id) ==> (r matches Err(e) && e
            == ReviewError::NotFound),
        token is Some && contains_id(store@, edit_id) && action_target(action@) is None ==> (
        r matches Err(e) && e == ReviewError::InvalidAction),
        token is Some && contains_id(store@, edit_id) ==> (action_target(action@) matches Some(t)
            ==> (r matches Ok(p) && p.edit@ == edit_with_id(store@, edit_id) && p.target == t)),
{
    if token.is_none() {
        return Err(ReviewError::AuthenticationRequired);
    }
    let edit = match store.load_edit(edit_id) {
        None => {
            return Err(ReviewError::NotFound);
        },
        Some(e) => e,
    };
    let target = if str_eq(action, "approve") {
        EditState::Published
    } else if str_eq(action, "reject") {
        EditState::Rejected
    } else {
        return Err(ReviewError::InvalidAction);
    };
    Ok(ReviewPlan { edit, target })
}

/// The store contents after one review action, as a function of what the
/// action found: the token's presence, the edit's existence, the action
/// word, and — only when the action asks for publication — whether the
/// publish succeeded.
pub open spec fn review_outcome_store(
    s: Seq<EditView>,
    edit_id: u32,
    action: Seq<char>,
    token_present: bool,
    publish_ok: bool,
) -> Seq<EditView> {
    if !token_present || !contains_id(s, edit_id) {
        s
    } else if action_target(action) == Some(EditState::Published) {
        if publish_ok {
            set_state_view(s, edit_id, EditState::Published)
        } else {
            s
        }
    } else if action_target(action) == Some(EditState::Rejected) {
        set_state_view(s, edit_id, EditState::Rejected)
    } else {
        s
    }
}

/// Runs one review action to completion, given the publish outcome the
/// caller observed from the wiki (consulted only when the plan's target is
/// `Published`; approval is published *before* the state is persisted, so a
/// failed publish leaves the store exactly as it was).
pub fn review(
    store: &mut EditStore,
    edit_id: u32,
    action: &str,
    token: &Option<String>,
    publish: &PublishOutcome,
) -> (r: Result<(), ReviewError>)
    requires
        old(store).wf(),
    ensures
        final(store).wf(),
        final(store).spec_next_id() == old(store).spec_next_id(),
        final(store)@ == review_outcome_store(
            old(store)@,
            edit_id,
            action@,
            token is Some,
            publish is Success,
        ),
        ({
            let s0 = old(store)@;
            let s1 = final(store)@;
            &&& token is None ==> ((r matches Err(e) && e
                == ReviewError::AuthenticationRequired) && s1 == s0)
            &&& (token is Some && !contains_id(s0, edit_id)) ==> ((r matches Err(e) && e
                == ReviewError::NotFound) && s1 == s0)
            &&& (token is Some && contains_id(s0, edit_id) && action_target(action@) is None)
                ==> ((r matches Err(e) && e == ReviewError::InvalidAction) && s1 == s0)
            &&& (token is Some && contains_id(s0, edit_id) && action_target(action@) == Some(
                EditState::Published,
            )) ==> {
                &&& (publish matches PublishOutcome::Failure(m) ==> ((r matches Err(e) && e
                    matches ReviewError::Upstream(reason) && reason@ == m@) && s1 == s0))
                &&& publish is Success ==> (r is Ok && s1 == set_state_view(
                    s0,
                    edit_id,
                    EditState::Published,
                ))
            }
            &&& (token is Some && contains_id(s0, edit_id) && action_target(action@) == Some(
                EditState::Rejected,
            )) ==> (r is Ok && s1 == set_state_view(s0, edit_id, EditState::Rejected))
        }),
{
    let plan = match plan_review(store, edit_id, action, token) {
        Err(e) => {
            return Err(e);
        },
        Ok(p) => p,
    };
    if plan.target == EditState::Published {
        match publish {
            PublishOutcome::Failure(m) => {
                return Err(ReviewError::Upstream(m.clone()));
            },
            PublishOutcome::Success => {},
        }
    }
    match store.set_state(edit_id, plan.target) {
        Ok(u) => Ok(u),
        Err(_) => unreached(),
    }
}

/// A rejection never consults the publish channel: whatever two outcomes
/// the channel could report, the store ends identically.
pub proof fn lemma_reject_ignores_publish(
    s: Seq<EditView>,
    edit_id: u32,
    token_present: bool,
    o1: bool,
    o2: bool,
)
    ensures
        review_outcome_store(s, edit_id, "reject"@, token_present, o1) == review_outcome_store(
            s,
            edit_id,
            "reject"@,
            token_present,
            o2,
        ),
{
    reveal_strlit("approve");
    reveal_strlit("reject");
    assert("reject"@.len() == 6);
    assert("approve"@.len() == 7);
    assert("reject"@ != "approve"@);
    assert(action_target("reject"@) == Some(EditState::Rejected));
}

/// With no token, a review request mutates nothing, whatever the action
/// asked for and whatever the publish channel would have said.
pub proof fn lemma_no_token_no_mutation(
    s: Seq<EditView>,
    edit_id: u32,
    action: Seq<char>,
    publish_ok: bool,
)
    ensures
        review_outcome_store(s, edit_id, action, false, publish_ok) == s,
{
}

/// A review of an unknown edit mutates nothing.
pub proof fn lemma_unknown_edit_no_mutation(
    s: Seq<EditView>,
    edit_id: u32,
    action: Seq<char>,
    token_present: bool,
    publish_ok: bool,
)
    requires
        !contains_id(s, edit_id),
    ensures
        review_outcome_store(s, edit_id, action, token_present, publish_ok) == s,
{
}

/// A failed publish leaves the store exactly as it was: an approval is
/// never recorded as published when the wiki refused it.
pub proof fn lemma_failed_publish_changes_nothing(
    s: Seq<EditView>,
    edit_id: u32,
    token_present: bool,
)
    ensures
        review_outcome_store(s, edit_id, "approve"@, token_present, false) == s,
{
    reveal_strlit("approve");
    reveal_strlit("reject");
}

/// Records a submitted draft: the store assigns the identity and the edit
/// enters the lifecycle in the `Pending` state, whatever the form said.
pub fn submit(store: &mut EditStore, form: EditForm) -> (r: Result<u32, ReviewError>)
    requires
        old(store).wf(),
    ensures
        final(store).wf(),
        old(store).spec_next_id() == u32::MAX ==> ((r matches Err(e) && e
            == ReviewError::PersistenceFailed) && final(store)@ == old(store)@
            && final(store).spec_next_id() == old(store).spec_next_id()),
        old(store).spec_next_id() < u32::MAX ==> ({
            let row = EditView {
                id: old(store).spec_next_id(),
                wiki: form.wiki@,
                text: encode_utf8(form.text@),
                summary: form.summary@,
                baserevid: form.baserevid,
                pageid: form.pageid,
                pagename: form.pagename@,
                state: EditState::Pending,
            };
            &&& r matches Ok(id) && id == old(store).spec_next_id()
            &&& final(store)@ == old(store)@.push(row)
            &&& final(store).spec_next_id() == old(store).spec_next_id() + 1
        }),
{
    let text = form.text.as_str().as_bytes_vec();
    let draft = NewEdit {
        wiki: form.wiki,
        text,
        summary: form.summary,
        baserevid: form.baserevid,
        pageid: form.pageid,
        pagename: form.pagename,
        state: EditState::Pending,
    };
    match store.insert_edit(draft) {
        Ok(e) => Ok(e.id),
        Err(e) => Err(e),
    }
}

/// All edits still awaiting review, newest first.
pub fn get_pending(store: &EditStore) -> (r: Vec<Edit>)
    requires
        store.wf(),
    ensures
        edit_views(r@) == with_state(store@, EditState::Pending),
{
    store.load_edits_with_state(EditState::Pending)
}

/// A fully prepared diff request: where to send it and what to send.
pub struct DiffRequest {
    pub endpoint: String,
    pub params: Vec<(String, String)>,
}

/// What the diff view of an edit resolves to, as a function of the store
/// contents alone.
pub open spec fn spec_diff_request(s: Seq<EditView>, id: u32) -> Result<
    (Seq<char>, Seq<(Seq<char>, Seq<char>)>),
    ReviewError,
> {
    if !contains_id(s, id) {
        Err(ReviewError::NotFound)
    } else if !valid_utf8(edit_with_id(s, id).text) {
        Err(ReviewError::InvalidText)
    } else {
        Ok((spec_api_url(edit_with_id(s, id).wiki), spec_diff_params(edit_with_id(s, id))))
    }
}

/// The structural content of a planned diff request.
pub open spec fn diff_request_view(r: Result<DiffRequest, ReviewError>) -> Result<
    (Seq<char>, Seq<(Seq<char>, Seq<char>)>),
    ReviewError,
> {
    match r {
        Ok(d) => Ok((d.endpoint@, params_view(d.params@))),
        Err(e) => Err(e),
    }
}

/// Prepares the diff view of an edit: the endpoint for its wiki and the
/// comparison request between its base revision and its proposed text.
/// This is a pure read; nothing in the store changes.
pub fn plan_diff(store: &EditStore, edit_id: u32) -> (r: Result<DiffRequest, ReviewError>)
    requires
        store.wf(),
    ensures
        diff_request_view(r) == spec_diff_request(store@, edit_id),
{
    let edit = match store.load_edit(edit_id) {
        None => {
            return Err(ReviewError::NotFound);
        },
        Some(e) => e,
    };
    let params = match diff_params(&edit) {
        Err(e) => {
            return Err(e);
        },
        Ok(p) => p,
    };
    let endpoint = api_endpoint_url(edit.wiki.as_str());
    Ok(DiffRequest { endpoint, params })
}

/// Planning the diff view is a pure function of the store contents: two
/// plans computed against the same store state are structurally equal, so
/// re-invoking the diff view of an unpublished edit asks the wiki for
/// exactly the same comparison.
pub proof fn lemma_diff_request_deterministic(
    s: Seq<EditView>,
    id: u32,
    r1: Result<DiffRequest, ReviewError>,
    r2: Result<DiffRequest, ReviewError>,
)
    requires
        diff_request_view(r1) == spec_diff_request(s, id),
        diff_request_view(r2) == spec_diff_request(s, id),
    ensures
        diff_request_view(r1) == diff_request_view(r2),
{
}

} // verus!

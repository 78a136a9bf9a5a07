use suggestor::models::EditForm;
use suggestor::models::EditState;
use suggestor::models::NewEdit;
use suggestor::review::get_pending;
use suggestor::review::persistence_failure_kind;
use suggestor::review::plan_diff;
use suggestor::review::plan_review;
use suggestor::review::review;
use suggestor::review::submit;
use suggestor::review::PublishOutcome;
use suggestor::review::ReviewError;
use suggestor::session::extract_token;
use suggestor::store::EditStore;

fn sample_form() -> EditForm {
    EditForm {
        wiki: String::from("en.wikipedia.org"),
        text: String::from("Hello"),
        summary: String::from("fix typo"),
        baserevid: 100,
        pageid: 42,
        pagename: String::from("Sandbox"),
    }
}

fn some_token() -> Option<String> {
    Some(String::from("moderator-session-token"))
}

#[test]
fn submit_assigns_id_and_forces_pending() {
    let mut store = EditStore::new();
    let id = submit(&mut store, sample_form()).unwrap();
    assert_eq!(id, 1);
    let edit = store.load_edit(id).unwrap();
    assert_eq!(edit.id, 1);
    assert_eq!(edit.wiki, "en.wikipedia.org");
    assert_eq!(edit.text, b"Hello".to_vec());
    assert_eq!(edit.summary, "fix typo");
    assert_eq!(edit.baserevid, 100);
    assert_eq!(edit.pageid, 42);
    assert_eq!(edit.pagename, "Sandbox");
    assert_eq!(edit.state, EditState::Pending);
}

#[test]
fn insert_never_trusts_the_drafts_state() {
    let mut store = EditStore::new();
    let draft = NewEdit {
        wiki: String::from("en.wikipedia.org"),
        text: b"Hello".to_vec(),
        summary: String::from("fix typo"),
        baserevid: 100,
        pageid: 42,
        pagename: String::from("Sandbox"),
        state: EditState::Published,
    };
    let row = store.insert_edit(draft).unwrap();
    assert_eq!(row.state, EditState::Pending);
    assert_eq!(store.load_edit(row.id).unwrap().state, EditState::Pending);
}

#[test]
fn approve_with_successful_publish_stores_published() {
    let mut store = EditStore::new();
    let id = submit(&mut store, sample_form()).unwrap();
    let r = review(&mut store, id, "approve", &some_token(), &PublishOutcome::Success);
    assert!(r.is_ok());
    assert_eq!(store.load_edit(id).unwrap().state, EditState::Published);
}

#[test]
fn approve_with_failed_publish_keeps_pending() {
    let mut store = EditStore::new();
    let id = submit(&mut store, sample_form()).unwrap();
    let outcome = PublishOutcome::Failure(String::from("editconflict: page was modified"));
    let r = review(&mut store, id, "approve", &some_token(), &outcome);
    match r {
        Err(ReviewError::Upstream(reason)) => {
            assert_eq!(reason, "editconflict: page was modified");
        }
        other => panic!("expected an upstream failure, got {:?}", other),
    }
    assert_eq!(store.load_edit(id).unwrap().state, EditState::Pending);
}

#[test]
fn reject_stores_rejected_and_ignores_the_publish_channel() {
    let mut store = EditStore::new();
    let id = submit(&mut store, sample_form()).unwrap();
    // Hand a failing publish outcome in: rejection must not consult it.
    let outcome = PublishOutcome::Failure(String::from("would have failed"));
    let r = review(&mut store, id, "reject", &some_token(), &outcome);
    assert!(r.is_ok());
    assert_eq!(store.load_edit(id).unwrap().state, EditState::Rejected);
}

#[test]
fn review_without_token_is_refused_with_no_side_effects() {
    let mut store = EditStore::new();
    let id = submit(&mut store, sample_form()).unwrap();
    let r = review(&mut store, id, "approve", &None, &PublishOutcome::Success);
    assert!(matches!(r, Err(ReviewError::AuthenticationRequired)));
    assert_eq!(store.load_edit(id).unwrap().state, EditState::Pending);
    assert_eq!(get_pending(&store).len(), 1);
    let plan = plan_review(&store, id, "approve", &None);
    assert!(matches!(plan, Err(ReviewError::AuthenticationRequired)));
}

#[test]
fn review_unknown_id_is_not_found() {
    let mut store = EditStore::new();
    let r = review(&mut store, 7, "approve", &some_token(), &PublishOutcome::Success);
    assert!(matches!(r, Err(ReviewError::NotFound)));
    let plan = plan_review(&store, 7, "approve", &some_token());
    assert!(matches!(plan, Err(ReviewError::NotFound)));
}

#[test]
fn review_with_unknown_action_is_refused() {
    let mut store = EditStore::new();
    let id = submit(&mut store, sample_form()).unwrap();
    let r = review(&mut store, id, "defer", &some_token(), &PublishOutcome::Success);
    assert!(matches!(r, Err(ReviewError::InvalidAction)));
    assert_eq!(store.load_edit(id).unwrap().state, EditState::Pending);
}

#[test]
fn diff_requests_for_the_same_edit_are_structurally_equal() {
    let mut store = EditStore::new();
    let id = submit(&mut store, sample_form()).unwrap();
    let first = plan_diff(&store, id).unwrap();
    let second = plan_diff(&store, id).unwrap();
    assert_eq!(first.endpoint, second.endpoint);
    assert_eq!(first.params, second.params);
}

#[test]
fn diff_request_carries_the_stored_revision_and_text() {
    let mut store = EditStore::new();
    let id = submit(&mut store, sample_form()).unwrap();
    let req = plan_diff(&store, id).unwrap();
    assert_eq!(req.endpoint, "https://en.wikipedia.org/w/api.php");
    assert_eq!(
        req.params,
        vec![
            (String::from("action"), String::from("compare")),
            (String::from("formatversion"), String::from("2")),
            (String::from("fromrev"), String::from("100")),
            (String::from("toslots"), String::from("main")),
            (String::from("totext-main"), String::from("Hello")),
        ]
    );
}

#[test]
fn diff_request_for_unknown_edit_is_not_found() {
    let store = EditStore::new();
    assert!(matches!(plan_diff(&store, 3), Err(ReviewError::NotFound)));
}

#[test]
fn scenario_submit_approve_then_reject() {
    let mut store = EditStore::new();
    let id = submit(&mut store, sample_form()).unwrap();
    assert_eq!(store.load_edit(id).unwrap().state, EditState::Pending);

    let approved = review(&mut store, id, "approve", &some_token(), &PublishOutcome::Success);
    assert!(approved.is_ok());
    assert_eq!(store.load_edit(id).unwrap().state, EditState::Published);

    // Re-acting on a terminal edit is lenient by design, but must never
    // bring the edit back to pending.
    let rejected = review(&mut store, id, "reject", &some_token(), &PublishOutcome::Success);
    assert!(rejected.is_ok());
    let end_state = store.load_edit(id).unwrap().state;
    assert_ne!(end_state, EditState::Pending);
    assert_eq!(end_state, EditState::Rejected);
}

#[test]
fn pending_list_is_newest_first() {
    let mut store = EditStore::new();
    let a = submit(&mut store, sample_form()).unwrap();
    let b = submit(&mut store, sample_form()).unwrap();
    let c = submit(&mut store, sample_form()).unwrap();
    let ids: Vec<u32> = get_pending(&store).iter().map(|e| e.id).collect();
    assert_eq!(ids, vec![c, b, a]);

    let r = review(&mut store, b, "reject", &some_token(), &PublishOutcome::Success);
    assert!(r.is_ok());
    let ids: Vec<u32> = get_pending(&store).iter().map(|e| e.id).collect();
    assert_eq!(ids, vec![c, a]);
    let rejected: Vec<u32> = store
        .load_edits_with_state(EditState::Rejected)
        .iter()
        .map(|e| e.id)
        .collect();
    assert_eq!(rejected, vec![b]);
}

#[test]
fn set_state_on_unknown_id_changes_nothing() {
    let mut store = EditStore::new();
    let id = submit(&mut store, sample_form()).unwrap();
    assert!(store.set_state(99, EditState::Rejected).is_ok());
    assert_eq!(store.load_edit(id).unwrap().state, EditState::Pending);
    assert!(store.load_edit(99).is_none());
}

#[test]
fn conditional_write_never_replaces_a_terminal_state() {
    let mut store = EditStore::new();
    let id = submit(&mut store, sample_form()).unwrap();
    assert!(store.set_state_if_pending(id, EditState::Published));
    assert_eq!(store.load_edit(id).unwrap().state, EditState::Published);
    // A second racing approval (or a late reject) finds the edit already
    // terminal and must leave it untouched.
    assert!(!store.set_state_if_pending(id, EditState::Rejected));
    assert_eq!(store.load_edit(id).unwrap().state, EditState::Published);
    assert!(!store.set_state_if_pending(99, EditState::Rejected));
}

#[test]
fn extract_token_passes_the_cookie_value_through() {
    assert_eq!(
        extract_token(Some(String::from("moderator-session-token"))),
        Some(String::from("moderator-session-token"))
    );
    assert_eq!(extract_token(None), None);
}

#[test]
fn persistence_failure_after_publish_is_the_loud_one() {
    assert!(matches!(persistence_failure_kind(true), ReviewError::InconsistentState));
    assert!(matches!(persistence_failure_kind(false), ReviewError::PersistenceFailed));
}

#[test]
fn error_messages_name_each_failure() {
    assert_eq!(
        ReviewError::AuthenticationRequired.message(),
        "authentication required, please log in"
    );
    assert_eq!(ReviewError::NotFound.message(), "invalid edit id provided");
    assert_eq!(ReviewError::InvalidAction.message(), "invalid state provided");
    assert_eq!(ReviewError::InvalidText.message(), "proposed text is not valid UTF-8");
    assert_eq!(
        ReviewError::CredentialExpired.message(),
        "OAuth token no longer valid, please log in again"
    );
    assert_eq!(
        ReviewError::Upstream(String::from("editconflict")).message(),
        "editconflict"
    );
    assert_eq!(
        ReviewError::PersistenceFailed.message(),
        "failed to persist the new edit state"
    );
    assert_eq!(
        ReviewError::InconsistentState.message(),
        "published, but recording the new state failed; manual reconciliation required"
    );
}

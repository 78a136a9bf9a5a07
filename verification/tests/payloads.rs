use suggestor::api::api_endpoint_url;
use suggestor::api::attributed_summary;
use suggestor::api::classify_userinfo;
use suggestor::api::diff_params;
use suggestor::api::diff_view_of;
use suggestor::api::edit_token_expired;
use suggestor::api::interactive_config;
use suggestor::api::publish_params;
use suggestor::api::username_of;
use suggestor::api::IdentityOutcome;
use suggestor::api::UserinfoReply;
use suggestor::decimal::u32_to_string;
use suggestor::models::Edit;
use suggestor::models::EditState;
use suggestor::review::ReviewError;
use suggestor::text::str_eq;

fn sample_edit() -> Edit {
    Edit {
        id: 1,
        wiki: String::from("en.wikipedia.org"),
        text: "Héllo, wörld".as_bytes().to_vec(),
        summary: String::from("fix typo"),
        baserevid: 100,
        pageid: 42,
        pagename: String::from("Sandbox"),
        state: EditState::Pending,
    }
}

#[test]
fn decimal_rendering_is_exact() {
    assert_eq!(u32_to_string(0), "0");
    assert_eq!(u32_to_string(7), "7");
    assert_eq!(u32_to_string(100), "100");
    assert_eq!(u32_to_string(4089), "4089");
    assert_eq!(u32_to_string(u32::MAX), "4294967295");
}

#[test]
fn endpoint_url_is_derived_from_the_hostname() {
    assert_eq!(api_endpoint_url("en.wikipedia.org"), "https://en.wikipedia.org/w/api.php");
    assert_eq!(api_endpoint_url("meta.wikimedia.org"), "https://meta.wikimedia.org/w/api.php");
}

#[test]
fn interactive_config_disables_lag_protection() {
    let c = interactive_config(
        "en.wikipedia.org",
        String::from("suggestor/1.0"),
        Some(String::from("moderator-session-token")),
    );
    assert_eq!(c.endpoint, "https://en.wikipedia.org/w/api.php");
    assert_eq!(c.user_agent, "suggestor/1.0");
    assert!(c.maxlag.is_none());
    assert_eq!(c.oauth_token, Some(String::from("moderator-session-token")));
}

#[test]
fn summaries_carry_the_attribution_prefix() {
    assert_eq!(
        attributed_summary("fix typo"),
        "Edit on behalf of Tor user: fix typo"
    );
    assert_eq!(attributed_summary(""), "Edit on behalf of Tor user: ");
}

#[test]
fn diff_params_list_the_comparison_exactly() {
    let params = diff_params(&sample_edit()).unwrap();
    assert_eq!(
        params,
        vec![
            (String::from("action"), String::from("compare")),
            (String::from("formatversion"), String::from("2")),
            (String::from("fromrev"), String::from("100")),
            (String::from("toslots"), String::from("main")),
            (String::from("totext-main"), String::from("Héllo, wörld")),
        ]
    );
}

#[test]
fn diff_params_refuse_text_that_is_not_utf8() {
    let mut edit = sample_edit();
    edit.text = vec![0xff, 0xfe, 0x00];
    assert!(matches!(diff_params(&edit), Err(ReviewError::InvalidText)));
}

#[test]
fn publish_params_list_the_edit_exactly() {
    let params = publish_params(&sample_edit(), "moderator-session-token").unwrap();
    assert_eq!(
        params,
        vec![
            (String::from("action"), String::from("edit")),
            (String::from("formatversion"), String::from("2")),
            (String::from("assert"), String::from("user")),
            (String::from("pageid"), String::from("42")),
            (String::from("text"), String::from("Héllo, wörld")),
            (
                String::from("summary"),
                String::from("Edit on behalf of Tor user: fix typo")
            ),
            (String::from("baserevid"), String::from("100")),
            (String::from("token"), String::from("moderator-session-token")),
        ]
    );
}

#[test]
fn publish_params_spot_the_logged_out_sentinel() {
    assert!(matches!(
        publish_params(&sample_edit(), "+\\"),
        Err(ReviewError::CredentialExpired)
    ));
}

#[test]
fn publish_params_refuse_text_that_is_not_utf8() {
    let mut edit = sample_edit();
    edit.text = vec![0x80];
    assert!(matches!(
        publish_params(&edit, "moderator-session-token"),
        Err(ReviewError::InvalidText)
    ));
}

#[test]
fn edit_token_sentinel_is_recognised() {
    assert!(edit_token_expired("+\\"));
    assert!(!edit_token_expired("moderator-session-token"));
    assert!(!edit_token_expired(""));
}

#[test]
fn identity_classification_keeps_the_three_outcomes_apart() {
    let named = classify_userinfo(Some(UserinfoReply {
        anon: false,
        name: Some(String::from("Moderator")),
    }));
    match named {
        IdentityOutcome::Named(n) => assert_eq!(n, "Moderator"),
        other => panic!("expected a named identity, got {:?}", other),
    }
    assert!(matches!(
        classify_userinfo(Some(UserinfoReply { anon: true, name: None })),
        IdentityOutcome::Anonymous
    ));
    assert!(matches!(classify_userinfo(None), IdentityOutcome::LookupFailed));
    assert!(matches!(
        classify_userinfo(Some(UserinfoReply { anon: false, name: None })),
        IdentityOutcome::LookupFailed
    ));
}

#[test]
fn username_collapses_everything_but_a_name() {
    assert_eq!(
        username_of(IdentityOutcome::Named(String::from("Moderator"))),
        Some(String::from("Moderator"))
    );
    assert_eq!(username_of(IdentityOutcome::Anonymous), None);
    assert_eq!(username_of(IdentityOutcome::LookupFailed), None);
}

#[test]
fn diff_body_extraction_reports_a_missing_body() {
    assert_eq!(
        diff_view_of(Some(String::from("<table>diff</table>"))).unwrap(),
        "<table>diff</table>"
    );
    match diff_view_of(None) {
        Err(ReviewError::Upstream(reason)) => {
            assert_eq!(reason, "comparison returned no rendered body");
        }
        other => panic!("expected an upstream failure, got {:?}", other),
    }
}

#[test]
fn string_equality_matches_rusts() {
    assert!(str_eq("approve", "approve"));
    assert!(!str_eq("approve", "reject"));
    assert!(!str_eq("approve", "approv"));
    assert!(str_eq("", ""));
    assert!(str_eq("Héllo", "Héllo"));
    assert!(!str_eq("Héllo", "Hallo"));
}

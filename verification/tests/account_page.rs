use gua_auth::account::{account_page_outcome, forced_login_hint, AccountPageOutcome};
use gua_auth::{expected_user, AccountAction, Params};

const HS: &str = "example.com";

#[test]
fn prefers_the_user_carried_in_the_action() {
    let action = AccountAction::OrgMatrixCrossSigningReset {
        gua_return: None,
        gua_user: Some("alice".to_owned()),
    };
    assert_eq!(
        expected_user(Some(&action), Some("mxid:@bob:example.com"), HS).as_deref(),
        Some("alice")
    );
}

#[test]
fn falls_back_to_an_mxid_hint_on_our_homeserver() {
    assert_eq!(
        expected_user(None, Some("mxid:@bob:example.com"), HS).as_deref(),
        Some("bob")
    );
}

#[test]
fn ignores_hints_it_cannot_check() {
    assert_eq!(expected_user(None, Some("mxid:@bob:other.org"), HS), None);
    assert_eq!(expected_user(None, Some("bob@example.com"), HS), None);
    assert_eq!(expected_user(None, Some("mxid:@:example.com"), HS), None);
    assert_eq!(expected_user(None, None, HS), None);
    let empty = AccountAction::OrgMatrixCrossSigningReset {
        gua_return: None,
        gua_user: Some(String::new()),
    };
    assert_eq!(expected_user(Some(&empty), None, HS), None);
}

#[test]
fn hint_shapes_at_the_edges() {
    // The whole homeserver must follow the last colon-free match.
    assert_eq!(expected_user(None, Some("mxid:@bob:sub.example.com"), HS), None);
    assert_eq!(expected_user(None, Some("mxid:@bob:example.com.evil"), HS), None);
    assert_eq!(expected_user(None, Some("mxid:bob:example.com"), HS), None);
    assert_eq!(expected_user(None, Some("mxid:@example.com"), HS), None);
    // A localpart may itself hold a colon; only the final `:{homeserver}` is cut.
    assert_eq!(expected_user(None, Some("mxid:@a:b:example.com"), HS).as_deref(), Some("a:b"));
    // Non-ASCII localparts come back whole.
    assert_eq!(expected_user(None, Some("mxid:@zoë:example.com"), HS).as_deref(), Some("zoë"));
    // An action without a user falls back to the hint.
    let other = AccountAction::Other;
    assert_eq!(expected_user(Some(&other), Some("mxid:@bob:example.com"), HS).as_deref(), Some("bob"));
    let no_user = AccountAction::OrgMatrixCrossSigningReset { gua_return: Some("x".to_owned()), gua_user: None };
    assert_eq!(expected_user(Some(&no_user), Some("mxid:@bob:example.com"), HS).as_deref(), Some("bob"));
}

#[test]
fn forced_login_hint_prefers_the_apps_own() {
    assert_eq!(forced_login_hint(Some("phone:+1".to_owned()), "alice", HS), "phone:+1");
    assert_eq!(forced_login_hint(None, "alice", HS), "mxid:@alice:example.com");
}

#[test]
fn forced_login_hint_names_the_same_user_again() {
    let hint = forced_login_hint(None, "alice", HS);
    assert_eq!(expected_user(None, Some(&hint), HS).as_deref(), Some("alice"));
}

fn params(action: Option<AccountAction>, hint: Option<&str>) -> Params {
    Params { action, unstable_login_hint: hint.map(str::to_owned) }
}

#[test]
fn account_page_without_session_logs_in() {
    match account_page_outcome(&params(None, Some("mxid:@bob:example.com")), HS, None) {
        AccountPageOutcome::Login { login_hint } => {
            assert_eq!(login_hint.as_deref(), Some("mxid:@bob:example.com"))
        }
        other => panic!("unexpected {other:?}"),
    }
    match account_page_outcome(&params(None, None), HS, None) {
        AccountPageOutcome::Login { login_hint } => assert_eq!(login_hint, None),
        other => panic!("unexpected {other:?}"),
    }
}

#[test]
fn account_page_forces_login_for_another_user() {
    let action = AccountAction::OrgMatrixCrossSigningReset {
        gua_return: None,
        gua_user: Some("alice".to_owned()),
    };
    match account_page_outcome(&params(Some(action), None), HS, Some("mallory")) {
        AccountPageOutcome::ForceLogin { expected, login_hint } => {
            assert_eq!(expected, "alice");
            assert_eq!(login_hint, "mxid:@alice:example.com");
        }
        other => panic!("unexpected {other:?}"),
    }
    match account_page_outcome(&params(None, Some("mxid:@bob:example.com")), HS, Some("mallory")) {
        AccountPageOutcome::ForceLogin { expected, login_hint } => {
            assert_eq!(expected, "bob");
            assert_eq!(login_hint, "mxid:@bob:example.com");
        }
        other => panic!("unexpected {other:?}"),
    }
}

#[test]
fn account_page_renders_for_the_named_user_or_when_nobody_is_named() {
    assert!(matches!(
        account_page_outcome(&params(None, Some("mxid:@bob:example.com")), HS, Some("bob")),
        AccountPageOutcome::Render
    ));
    assert!(matches!(
        account_page_outcome(&params(None, Some("mxid:@bob:other.org")), HS, Some("mallory")),
        AccountPageOutcome::Render
    ));
    assert!(matches!(account_page_outcome(&params(None, None), HS, Some("mallory")), AccountPageOutcome::Render));
}

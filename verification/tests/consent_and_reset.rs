use gua_auth::consent::{auto_fulfill_next, auto_fulfill_response, AutoFulfillNext, first_auto_fulfill_step, next_auto_fulfill_step, AutoFulfillStep};
use gua_auth::identity_reset::{
    first_reset_action, next_reset_action, reset_subject, reset_username, ResetAction, ResetEvent, RouteError,
    MATRIX_CLIENT_API_SCOPE,
};
use gua_auth::{should_skip_consent, GUAConfig};
use ulid::Ulid;

#[test]
fn skip_consent_only_for_listed_clients() {
    let listed = Ulid::from_string("01JXTEST000000000000BCDE01").unwrap().0;
    let other = Ulid::from_parts(3, 4).0;
    assert!(should_skip_consent(listed, &[other, listed]));
    assert!(!should_skip_consent(other, &[listed]));
    assert!(!should_skip_consent(listed, &[]));
}

#[test]
fn skip_consent_for_all_clients_covers_every_client() {
    let listed = Ulid::from_parts(1, 1).0;
    let mut config = GUAConfig::default();
    assert!(config.is_default());
    assert!(!config.skips_consent(listed));
    config.skip_consent_client_ids.push(listed);
    assert!(!config.is_default());
    assert!(config.skips_consent(listed));
    assert!(!config.skips_consent(listed + 1));
    let all = GUAConfig { skip_consent_client_ids: vec![], skip_consent_for_all_clients: true };
    assert!(!all.is_default());
    assert!(all.skips_consent(listed + 1));
}

fn run_plan(id_token: bool) -> Vec<AutoFulfillStep> {
    let mut steps = vec![first_auto_fulfill_step()];
    while let Some(next) = next_auto_fulfill_step(*steps.last().unwrap(), id_token) {
        steps.push(next);
    }
    steps
}

#[test]
fn auto_fulfill_signs_an_id_token_only_when_asked() {
    assert_eq!(
        run_plan(true),
        vec![
            AutoFulfillStep::ResolveCallback,
            AutoFulfillStep::AddSession,
            AutoFulfillStep::FulfillGrant,
            AutoFulfillStep::LoadLastAuthentication,
            AutoFulfillStep::GenerateIdToken,
            AutoFulfillStep::Save,
            AutoFulfillStep::RecordActivity,
            AutoFulfillStep::Respond,
        ]
    );
    assert_eq!(run_plan(false), vec![
            AutoFulfillStep::ResolveCallback,
            AutoFulfillStep::AddSession,
            AutoFulfillStep::FulfillGrant,
            AutoFulfillStep::Save,
            AutoFulfillStep::RecordActivity,
            AutoFulfillStep::Respond,
        ]);
}

#[test]
fn reset_is_for_the_sessions_own_user_with_the_api_scope() {
    let user = Ulid::from_parts(9, 9).0;
    let scope = vec!["openid".to_owned(), MATRIX_CLIENT_API_SCOPE.to_owned()];
    assert_eq!(reset_subject(&scope, Some(user)).unwrap(), user);
    assert!(matches!(reset_subject(&scope, None), Err(RouteError::Unauthorized)));
    let no_api = vec!["openid".to_owned(), "urn:matrix:org.matrix.msc2967.client:device:ABC".to_owned()];
    assert!(matches!(reset_subject(&no_api, Some(user)), Err(RouteError::Unauthorized)));
    assert!(matches!(reset_subject(&vec![], Some(user)), Err(RouteError::Unauthorized)));
}

#[test]
fn missing_user_is_no_such_user() {
    let user = Ulid::from_parts(9, 9).0;
    assert_eq!(reset_username(user, Some("alice".to_owned())).unwrap(), "alice");
    match reset_username(user, None) {
        Err(RouteError::NoSuchUser(id)) => assert_eq!(id, user),
        other => panic!("unexpected {other:?}"),
    }
}

#[test]
fn identity_reset_errors_are_answered_by_kind() {
    let user = Ulid::from_string("01D39ZY06FGSCTVN4T2V9PKHFZ").unwrap();
    let r = RouteError::NoSuchUser(user.0).into_response();
    assert_eq!(r.status, 500);
    assert!(r.reported);
    assert_eq!(r.body.as_deref(), Some("failed to load user 01D39ZY06FGSCTVN4T2V9PKHFZ"));

    let r = RouteError::Internal("database is down".to_owned()).into_response();
    assert_eq!((r.status, r.reported, r.body.as_deref()), (500, true, Some("database is down")));

    let r = RouteError::Homeserver("503 from synapse".to_owned()).into_response();
    assert_eq!(
        (r.status, r.reported, r.body.as_deref()),
        (500, true, Some("homeserver refused to open the reset window"))
    );

    let r = RouteError::Unauthorized.into_response();
    assert_eq!((r.status, r.reported, r.body), (401, false, None));
    let r = RouteError::AuthorizationVerificationError.into_response();
    assert_eq!((r.status, r.reported, r.body), (401, false, None));
    assert_eq!(RouteError::Unauthorized.to_string(), "session is not allowed to approve an identity reset");
    assert_eq!(RouteError::AuthorizationVerificationError.to_string(), "failed to authenticate");
}

#[test]
fn auto_fulfill_response_carries_the_code_and_requested_id_token() {
    let r = auto_fulfill_response(true, Some("code123".to_owned()), Some("jwt".to_owned()));
    assert_eq!(r.code.as_deref(), Some("code123"));
    assert_eq!(r.id_token.as_deref(), Some("jwt"));
    let r = auto_fulfill_response(false, Some("code123".to_owned()), Some("jwt".to_owned()));
    assert_eq!(r.code.as_deref(), Some("code123"));
    assert_eq!(r.id_token, None);
    let r = auto_fulfill_response(true, None, Some("jwt".to_owned()));
    assert_eq!(r.code, None);
    assert_eq!(r.id_token.as_deref(), Some("jwt"));
}

#[test]
fn a_failed_auto_fulfill_step_stops_everything() {
    for step in [
        AutoFulfillStep::ResolveCallback,
        AutoFulfillStep::AddSession,
        AutoFulfillStep::FulfillGrant,
        AutoFulfillStep::LoadLastAuthentication,
        AutoFulfillStep::GenerateIdToken,
        AutoFulfillStep::Save,
    ] {
        assert_eq!(auto_fulfill_next(step, true, true), AutoFulfillNext::Stop);
        assert_eq!(auto_fulfill_next(step, true, false), AutoFulfillNext::Stop);
    }
    assert_eq!(
        auto_fulfill_next(AutoFulfillStep::FulfillGrant, false, true),
        AutoFulfillNext::Run(AutoFulfillStep::LoadLastAuthentication)
    );
    assert_eq!(
        auto_fulfill_next(AutoFulfillStep::FulfillGrant, false, false),
        AutoFulfillNext::Run(AutoFulfillStep::Save)
    );
    assert_eq!(auto_fulfill_next(AutoFulfillStep::Respond, false, false), AutoFulfillNext::Done);
}

fn run_reset(events: Vec<ResetEvent>) -> (Vec<String>, ResetAction) {
    let mut action = first_reset_action();
    let mut trace = Vec::new();
    for event in events {
        trace.push(format!("{action:?}"));
        action = next_reset_action(&action, event);
    }
    (trace, action)
}

fn api_session(user: Option<u128>) -> ResetEvent {
    ResetEvent::Authenticated {
        scope: vec!["openid".to_owned(), MATRIX_CLIENT_API_SCOPE.to_owned()],
        user_id: user,
    }
}

#[test]
fn reset_flow_answers_204_after_acceptance_and_save() {
    let (trace, end) = run_reset(vec![
        api_session(Some(7)),
        ResetEvent::ActivityRecorded,
        ResetEvent::UserLoaded(Some("alice".to_owned())),
        ResetEvent::HomeserverAccepted,
        ResetEvent::Saved,
    ]);
    assert_eq!(
        trace,
        vec![
            "Authenticate".to_owned(),
            "RecordActivity { user_id: 7 }".to_owned(),
            "LoadUser { user_id: 7 }".to_owned(),
            "AllowReset { username: \"alice\" }".to_owned(),
            "Save".to_owned(),
        ]
    );
    assert!(matches!(end, ResetAction::Finish(Ok(204))));
}

#[test]
fn reset_flow_maps_each_failure_to_its_error() {
    let (_, end) = run_reset(vec![ResetEvent::AuthenticationFailed]);
    assert!(matches!(end, ResetAction::Finish(Err(RouteError::AuthorizationVerificationError))));

    let (_, end) = run_reset(vec![api_session(None)]);
    assert!(matches!(end, ResetAction::Finish(Err(RouteError::Unauthorized))));

    let no_scope = ResetEvent::Authenticated { scope: vec!["openid".to_owned()], user_id: Some(7) };
    let (_, end) = run_reset(vec![no_scope]);
    assert!(matches!(end, ResetAction::Finish(Err(RouteError::Unauthorized))));

    let (_, end) = run_reset(vec![api_session(Some(7)), ResetEvent::ActivityRecorded, ResetEvent::UserLoaded(None)]);
    assert!(matches!(end, ResetAction::Finish(Err(RouteError::NoSuchUser(7)))));

    let (trace, end) = run_reset(vec![
        api_session(Some(7)),
        ResetEvent::ActivityRecorded,
        ResetEvent::UserLoaded(Some("alice".to_owned())),
        ResetEvent::HomeserverRefused("503".to_owned()),
    ]);
    assert!(!trace.contains(&"Save".to_owned()));
    match end {
        ResetAction::Finish(Err(RouteError::Homeserver(m))) => assert_eq!(m, "503"),
        other => panic!("unexpected {other:?}"),
    }

    let (_, end) = run_reset(vec![
        api_session(Some(7)),
        ResetEvent::ActivityRecorded,
        ResetEvent::UserLoaded(Some("alice".to_owned())),
        ResetEvent::HomeserverAccepted,
        ResetEvent::StorageFailed("disk full".to_owned()),
    ]);
    match end {
        ResetAction::Finish(Err(RouteError::Internal(m))) => assert_eq!(m, "disk full"),
        other => panic!("unexpected {other:?}"),
    }

    let (_, end) = run_reset(vec![ResetEvent::Saved]);
    match end {
        ResetAction::Finish(Err(RouteError::Internal(m))) => {
            assert_eq!(m, "unexpected event in the identity reset flow")
        }
        other => panic!("unexpected {other:?}"),
    }
}

#[test]
fn reset_answer_is_final() {
    let (_, end) = run_reset(vec![ResetEvent::AuthenticationFailed, ResetEvent::Saved]);
    assert!(matches!(end, ResetAction::Finish(Err(RouteError::AuthorizationVerificationError))));
}

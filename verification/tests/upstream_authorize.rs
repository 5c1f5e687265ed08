use gua_auth::authorize::{
    authorization_query_params, downstream_marker, forwarded_login_hint, grant_to_look_up, needs_downstream_client,
    usable_provider, RouteError,
};
use gua_auth::claims::ClaimsImports;
use gua_auth::{
    DiscoveryMode, DownstreamClientGuardConfig, DownstreamClientGuardEntry, OnBackchannelLogout,
    PkceMode, TokenAuthMethod, UpstreamOAuthProvider,
};

fn provider(id: u128, forward_login_hint: bool, disabled_at: Option<i64>) -> UpstreamOAuthProvider {
    UpstreamOAuthProvider {
        id,
        issuer: None,
        human_name: Some("Gua".to_owned()),
        brand_name: None,
        discovery_mode: DiscoveryMode::Oidc,
        pkce_mode: PkceMode::S256,
        jwks_uri_override: None,
        authorization_endpoint_override: None,
        scope: "openid profile".to_owned(),
        token_endpoint_override: None,
        userinfo_endpoint_override: None,
        fetch_userinfo: true,
        userinfo_signed_response_alg: None,
        client_id: "mas".to_owned(),
        encrypted_client_secret: None,
        token_endpoint_signing_alg: None,
        token_endpoint_auth_method: TokenAuthMethod::ClientSecretPost,
        id_token_signed_response_alg: "RS256".to_owned(),
        response_mode: None,
        created_at: 0,
        disabled_at,
        claims_imports: ClaimsImports::default(),
        additional_authorization_parameters: vec![
            ("prompt".to_owned(), "login".to_owned()),
            ("ui_locales".to_owned(), "en".to_owned()),
        ],
        forward_login_hint,
        on_backchannel_logout: OnBackchannelLogout::LogoutAll,
        registration_token_required: false,
    }
}

fn guard(id: u128, forward: bool) -> DownstreamClientGuardConfig {
    DownstreamClientGuardConfig::new(vec![(
        id,
        DownstreamClientGuardEntry { forward_downstream_client: forward, web_origin_host: Some("app.gua.global".to_owned()) },
    )])
}

#[test]
fn only_enabled_providers_are_used() {
    assert_eq!(usable_provider(Some(provider(1, false, None))).unwrap().id, 1);
    let err = usable_provider(Some(provider(1, false, Some(10)))).unwrap_err();
    assert!(matches!(err, RouteError::ProviderNotFound));
    assert_eq!(err.status_code(), 404);
    assert_eq!(err.to_string(), "Provider not found");
    assert!(matches!(usable_provider(None), Err(RouteError::ProviderNotFound)));
    assert_eq!(RouteError::Internal("boom".to_owned()).status_code(), 500);
}

#[test]
fn grant_is_looked_up_only_when_needed() {
    let p = provider(1, false, None);
    assert_eq!(grant_to_look_up(&p, &guard(1, true), Some(42)), Some(42));
    assert_eq!(grant_to_look_up(&p, &guard(1, false), Some(42)), None);
    assert_eq!(grant_to_look_up(&p, &guard(2, true), Some(42)), None);
    assert_eq!(grant_to_look_up(&provider(1, true, None), &guard(2, true), Some(42)), Some(42));
    assert_eq!(grant_to_look_up(&provider(1, true, None), &guard(1, true), None), None);
}

#[test]
fn login_hint_is_forwarded_only_by_providers_that_forward_it() {
    assert_eq!(forwarded_login_hint(&provider(1, true, None), Some("mxid:@bob:example.com".to_owned())).as_deref(), Some("mxid:@bob:example.com"));
    assert_eq!(forwarded_login_hint(&provider(1, false, None), Some("x".to_owned())), None);
    assert_eq!(forwarded_login_hint(&provider(1, true, None), None), None);
}

#[test]
fn downstream_client_is_resolved_only_for_guarded_grants() {
    assert!(needs_downstream_client(&guard(1, true), 1, true));
    assert!(!needs_downstream_client(&guard(1, true), 1, false));
    assert!(!needs_downstream_client(&guard(1, false), 1, true));
    assert!(!needs_downstream_client(&guard(1, true), 2, true));
}

#[test]
fn marker_follows_the_additional_parameters() {
    let p = provider(1, false, None);
    let with_marker = authorization_query_params(&p, Some("web"));
    assert_eq!(
        with_marker,
        vec![
            ("prompt".to_owned(), "login".to_owned()),
            ("ui_locales".to_owned(), "en".to_owned()),
            ("gua_downstream".to_owned(), "web".to_owned()),
        ]
    );
    let without = authorization_query_params(&p, None);
    assert_eq!(without, p.additional_authorization_parameters);
}

#[test]
fn marker_is_computed_only_for_guarded_continued_grants() {
    assert_eq!(downstream_marker(&guard(1, true), 1, true, Some("https://app.gua.global/")), Some("web"));
    assert_eq!(downstream_marker(&guard(1, true), 1, true, None), Some("native"));
    assert_eq!(downstream_marker(&guard(1, true), 1, false, Some("https://app.gua.global/")), None);
    assert_eq!(downstream_marker(&guard(1, false), 1, true, Some("https://app.gua.global/")), None);
    assert_eq!(downstream_marker(&guard(1, true), 2, true, Some("https://app.gua.global/")), None);
}

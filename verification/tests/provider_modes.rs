use gua_auth::claims::{ClaimsImports, ImportAction, OnConflict};
use gua_auth::{
    DiscoveryMode, OnBackchannelLogout, PkceMode, ResponseMode, TokenAuthMethod,
    UpstreamOAuthProvider,
};

#[test]
fn discovery_mode_text_round_trip() {
    for mode in [DiscoveryMode::Oidc, DiscoveryMode::Insecure, DiscoveryMode::Disabled] {
        assert_eq!(DiscoveryMode::from_str(mode.as_str()).unwrap(), mode);
    }
    assert_eq!(DiscoveryMode::Oidc.as_str(), "oidc");
    assert_eq!(DiscoveryMode::Insecure.as_str(), "insecure");
    assert_eq!(DiscoveryMode::Disabled.as_str(), "disabled");
    assert_eq!("insecure".parse::<DiscoveryMode>().unwrap(), DiscoveryMode::Insecure);
}

#[test]
fn discovery_mode_rejects_other_strings() {
    let err = DiscoveryMode::from_str("OIDC").unwrap_err();
    assert_eq!(err.0, "OIDC");
    assert!(DiscoveryMode::from_str("").is_err());
    assert!(DiscoveryMode::from_str("oidc ").is_err());
}

#[test]
fn discovery_mode_is_disabled_only_for_disabled() {
    assert!(DiscoveryMode::Disabled.is_disabled());
    assert!(!DiscoveryMode::Oidc.is_disabled());
    assert!(!DiscoveryMode::Insecure.is_disabled());
    assert_eq!(DiscoveryMode::default(), DiscoveryMode::Oidc);
}

#[test]
fn pkce_mode_text_round_trip() {
    for mode in [PkceMode::Auto, PkceMode::S256, PkceMode::Disabled] {
        assert_eq!(PkceMode::from_str(mode.as_str()).unwrap(), mode);
    }
    assert_eq!(PkceMode::S256.as_str(), "s256");
    assert_eq!(PkceMode::default(), PkceMode::Auto);
    assert_eq!(PkceMode::from_str("S256").unwrap_err().0, "S256");
}

#[test]
fn response_mode_text_round_trip() {
    assert_eq!(ResponseMode::Query.as_str(), "query");
    assert_eq!(ResponseMode::FormPost.as_str(), "form_post");
    assert_eq!(ResponseMode::from_str("form_post").unwrap(), ResponseMode::FormPost);
    assert_eq!(ResponseMode::from_str("query").unwrap(), ResponseMode::Query);
    assert_eq!(ResponseMode::from_str("fragment").unwrap_err().0, "fragment");
    assert_eq!(ResponseMode::default(), ResponseMode::Query);
}

#[test]
fn token_auth_method_text_round_trip() {
    let all = [
        (TokenAuthMethod::NoAuthentication, "none"),
        (TokenAuthMethod::ClientSecretBasic, "client_secret_basic"),
        (TokenAuthMethod::ClientSecretPost, "client_secret_post"),
        (TokenAuthMethod::ClientSecretJwt, "client_secret_jwt"),
        (TokenAuthMethod::PrivateKeyJwt, "private_key_jwt"),
        (TokenAuthMethod::SignInWithApple, "sign_in_with_apple"),
    ];
    for (method, text) in all {
        assert_eq!(method.as_str(), text);
        assert_eq!(TokenAuthMethod::from_str(text).unwrap(), method);
    }
    assert_eq!(TokenAuthMethod::from_str("client_secret").unwrap_err().0, "client_secret");
}

#[test]
fn on_backchannel_logout_text_round_trip() {
    let all = [
        (OnBackchannelLogout::DoNothing, "do_nothing"),
        (OnBackchannelLogout::LogoutBrowserOnly, "logout_browser_only"),
        (OnBackchannelLogout::LogoutAll, "logout_all"),
    ];
    for (action, text) in all {
        assert_eq!(action.as_str(), text);
        assert_eq!(OnBackchannelLogout::from_str(text).unwrap(), action);
    }
    assert_eq!(OnBackchannelLogout::from_str("logout").unwrap_err().0, "logout");
}

#[test]
fn import_action_rules() {
    assert!(!ImportAction::Ignore.should_import(true));
    assert!(!ImportAction::Ignore.should_import(false));
    assert!(ImportAction::Suggest.should_import(true));
    assert!(!ImportAction::Suggest.should_import(false));
    assert!(ImportAction::Force.should_import(false));
    assert!(ImportAction::Require.should_import(false));
    assert!(ImportAction::Require.is_required());
    assert!(!ImportAction::Force.is_required());
    assert!(ImportAction::Force.is_forced_or_required());
    assert!(ImportAction::Require.is_forced_or_required());
    assert!(!ImportAction::Suggest.is_forced_or_required());
    assert!(ImportAction::Ignore.ignore());
    assert!(!ImportAction::Suggest.ignore());
}

#[test]
fn claims_imports_default_ignores_everything() {
    let claims = ClaimsImports::default();
    assert_eq!(claims.localpart.action, ImportAction::Ignore);
    assert_eq!(claims.localpart.on_conflict, OnConflict::Fail);
    assert!(claims.displayname.ignore());
    assert!(claims.localpart.ignore());
    assert!(!claims.email.should_import(true));
    assert!(claims.subject.template.is_none());
    assert!(!claims.skip_confirmation);
}

fn provider(id: u128, disabled_at: Option<i64>) -> UpstreamOAuthProvider {
    UpstreamOAuthProvider {
        id,
        issuer: Some("https://id.example.com/".to_owned()),
        human_name: None,
        brand_name: None,
        discovery_mode: DiscoveryMode::Oidc,
        pkce_mode: PkceMode::Auto,
        jwks_uri_override: None,
        authorization_endpoint_override: None,
        scope: "openid".to_owned(),
        token_endpoint_override: None,
        userinfo_endpoint_override: None,
        fetch_userinfo: false,
        userinfo_signed_response_alg: None,
        client_id: "client".to_owned(),
        encrypted_client_secret: None,
        token_endpoint_signing_alg: None,
        token_endpoint_auth_method: TokenAuthMethod::ClientSecretBasic,
        id_token_signed_response_alg: "RS256".to_owned(),
        response_mode: None,
        created_at: 0,
        disabled_at,
        claims_imports: ClaimsImports::default(),
        additional_authorization_parameters: vec![("prompt".to_owned(), "login".to_owned())],
        forward_login_hint: false,
        on_backchannel_logout: OnBackchannelLogout::DoNothing,
        registration_token_required: false,
    }
}

#[test]
fn providers_are_ordered_by_id_and_enabled_until_disabled() {
    let a = provider(1, None);
    let b = provider(2, Some(1_700_000_000_000));
    assert_eq!(a.cmp(&b), std::cmp::Ordering::Less);
    assert_eq!(b.cmp(&a), std::cmp::Ordering::Greater);
    assert_eq!(a.cmp(&provider(1, Some(5))), std::cmp::Ordering::Equal);
    assert_eq!(a.partial_cmp(&b), Some(std::cmp::Ordering::Less));
    assert!(a.enabled());
    assert!(!b.enabled());
}

#[test]
fn rejected_strings_are_reported_in_the_message() {
    assert_eq!(
        TokenAuthMethod::from_str("Client_Secret_Basic").unwrap_err().to_string(),
        "Invalid upstream OAuth 2.0 token auth method: Client_Secret_Basic"
    );
    assert_eq!(
        OnBackchannelLogout::from_str("logout").unwrap_err().to_string(),
        "Invalid upstream OAuth 2.0 'on backchannel logout': logout"
    );
    assert_eq!(DiscoveryMode::from_str("OIDC").unwrap_err().to_string(), "Invalid discovery mode \"OIDC\"");
    assert_eq!(PkceMode::from_str("plain").unwrap_err().to_string(), "Invalid PKCE mode \"plain\"");
    assert_eq!(
        ResponseMode::from_str("say \"hi\"").unwrap_err().to_string(),
        "Invalid response mode \"say \\\"hi\\\"\""
    );
}

#[test]
fn providers_compare_equal_field_by_field() {
    assert_eq!(provider(1, None), provider(1, None));
    assert_ne!(provider(1, None), provider(1, Some(3)));
}

//! How an upstream OAuth 2.0 provider is reached: discovery, PKCE, response
//! mode, token endpoint authentication and back-channel logout, each with its
//! textual form.
use vstd::prelude::*;
use crate::claims::ClaimsImports;
use crate::text::{debug_quoted, debug_string, str_equals};

verus! {

/// Whether and how the provider metadata is discovered.
#[derive(Debug, Clone, Copy, PartialEq, Eq, Structural)]
pub enum DiscoveryMode {
    /// Use OIDC discovery to fetch and verify the provider metadata
    Oidc,
    /// Use OIDC discovery to fetch the provider metadata, but don't verify it
    Insecure,
    /// Don't fetch the provider metadata
    Disabled,
}

/// A string that names no discovery mode. The string is kept.
#[derive(Debug, Clone)]
pub struct InvalidDiscoveryModeError(pub String);

impl InvalidDiscoveryModeError {
    /// The error's message: `Invalid discovery mode` followed by the rejected string in its quoted `Debug` form.
    pub open spec fn message(self) -> Seq<char> {
        "Invalid discovery mode "@ + debug_quoted(self.0@)
    }

    /// The error's message.
    pub fn to_string(&self) -> (r: String)
        ensures
            r@ == self.message(),
    {
        let mut m = "Invalid discovery mode ".to_owned();
        let quoted = debug_string(self.0.as_str());
        m.append(quoted.as_str());
        m
    }
}

impl DiscoveryMode {
    /// The textual form.
    pub open spec fn text(self) -> Seq<char> {
        match self {
            DiscoveryMode::Oidc => "oidc"@,
            DiscoveryMode::Insecure => "insecure"@,
            DiscoveryMode::Disabled => "disabled"@,
        }
    }

    /// The value whose textual form is `s`, if any.
    pub open spec fn parse(s: Seq<char>) -> Option<DiscoveryMode> {
        if s == "oidc"@ {
            Some(DiscoveryMode::Oidc)
        } else if s == "insecure"@ {
            Some(DiscoveryMode::Insecure)
        } else if s == "disabled"@ {
            Some(DiscoveryMode::Disabled)
        } else {
            None
        }
    }

    /// Returns `true` if discovery is disabled
    pub fn is_disabled(&self) -> (r: bool)
        ensures
            r == (*self == DiscoveryMode::Disabled),
    {
        match self {
            DiscoveryMode::Disabled => true,
            _ => false,
        }
    }

    pub fn as_str(self) -> (r: &'static str)
        ensures
            r@ == self.text(),
    {
        match self {
            DiscoveryMode::Oidc => "oidc",
            DiscoveryMode::Insecure => "insecure",
            DiscoveryMode::Disabled => "disabled",
        }
    }

    /// Reads a value from its textual form; any other string is refused and
    /// handed back in the error.
    pub fn from_str(s: &str) -> (r: Result<DiscoveryMode, InvalidDiscoveryModeError>)
        ensures
            match r {
                Ok(m) => DiscoveryMode::parse(s@) == Some(m),
                Err(e) => DiscoveryMode::parse(s@) is None && e.0@ == s@,
            },
    {
        if str_equals(s, "oidc") {
            Ok(DiscoveryMode::Oidc)
        } else if str_equals(s, "insecure") {
            Ok(DiscoveryMode::Insecure)
        } else if str_equals(s, "disabled") {
            Ok(DiscoveryMode::Disabled)
        } else {
            Err(InvalidDiscoveryModeError(s.to_owned()))
        }
    }
}

impl std::str::FromStr for DiscoveryMode {
    type Err = InvalidDiscoveryModeError;

    fn from_str(s: &str) -> (r: Result<DiscoveryMode, InvalidDiscoveryModeError>)
        ensures
            match r {
                Ok(m) => DiscoveryMode::parse(s@) == Some(m),
                Err(e) => DiscoveryMode::parse(s@) is None && e.0@ == s@,
            },
    {
        DiscoveryMode::from_str(s)
    }
}

impl Default for DiscoveryMode {
    fn default() -> (r: DiscoveryMode)
        ensures
            r == DiscoveryMode::Oidc,
    {
        DiscoveryMode::Oidc
    }
}

/// Reading a discovery mode back from its textual form gives the same value,
/// and only that form reads as that value.
pub proof fn discovery_mode_text_round_trip(m: DiscoveryMode, s: Seq<char>)
    ensures
        DiscoveryMode::parse(m.text()) == Some(m),
        DiscoveryMode::parse(s) == Some(m) ==> s == m.text(),
{
    reveal_strlit("oidc");
    reveal_strlit("insecure");
    reveal_strlit("disabled");
    assert("oidc"@.len() != "insecure"@.len());
    assert("oidc"@.len() != "disabled"@.len());
    assert("insecure"@[0] != "disabled"@[0]);
}

/// The textual forms of the discovery mode values: each value has its own,
/// and a string reads as a value exactly when it is that value's form.
pub proof fn discovery_mode_texts(s: Seq<char>)
    ensures
        DiscoveryMode::Oidc.text() == "oidc"@,
        DiscoveryMode::parse(s) == Some(DiscoveryMode::Oidc) <==> s == "oidc"@,
        DiscoveryMode::Insecure.text() == "insecure"@,
        DiscoveryMode::parse(s) == Some(DiscoveryMode::Insecure) <==> s == "insecure"@,
        DiscoveryMode::Disabled.text() == "disabled"@,
        DiscoveryMode::parse(s) == Some(DiscoveryMode::Disabled) <==> s == "disabled"@,
        DiscoveryMode::parse(s) is None <==> s != "oidc"@ && s != "insecure"@ && s != "disabled"@,
{
    discovery_mode_text_round_trip(DiscoveryMode::Oidc, s);
    discovery_mode_text_round_trip(DiscoveryMode::Insecure, s);
    discovery_mode_text_round_trip(DiscoveryMode::Disabled, s);
}

/// Whether the authorization request uses PKCE.
#[derive(Debug, Clone, Copy, PartialEq, Eq, Structural)]
pub enum PkceMode {
    /// Use PKCE if the provider supports it
    Auto,
    /// Always use PKCE with the S256 method
    S256,
    /// Don't use PKCE
    Disabled,
}

/// A string that names no PKCE mode. The string is kept.
#[derive(Debug, Clone)]
pub struct InvalidPkceModeError(pub String);

impl InvalidPkceModeError {
    /// The error's message: `Invalid PKCE mode` followed by the rejected string in its quoted `Debug` form.
    pub open spec fn message(self) -> Seq<char> {
        "Invalid PKCE mode "@ + debug_quoted(self.0@)
    }

    /// The error's message.
    pub fn to_string(&self) -> (r: String)
        ensures
            r@ == self.message(),
    {
        let mut m = "Invalid PKCE mode ".to_owned();
        let quoted = debug_string(self.0.as_str());
        m.append(quoted.as_str());
        m
    }
}

impl PkceMode {
    /// The textual form.
    pub open spec fn text(self) -> Seq<char> {
        match self {
            PkceMode::Auto => "auto"@,
            PkceMode::S256 => "s256"@,
            PkceMode::Disabled => "disabled"@,
        }
    }

    /// The value whose textual form is `s`, if any.
    pub open spec fn parse(s: Seq<char>) -> Option<PkceMode> {
        if s == "auto"@ {
            Some(PkceMode::Auto)
        } else if s == "s256"@ {
            Some(PkceMode::S256)
        } else if s == "disabled"@ {
            Some(PkceMode::Disabled)
        } else {
            None
        }
    }

    pub fn as_str(self) -> (r: &'static str)
        ensures
            r@ == self.text(),
    {
        match self {
            PkceMode::Auto => "auto",
            PkceMode::S256 => "s256",
            PkceMode::Disabled => "disabled",
        }
    }

    /// Reads a value from its textual form; any other string is refused and
    /// handed back in the error.
    pub fn from_str(s: &str) -> (r: Result<PkceMode, InvalidPkceModeError>)
        ensures
            match r {
                Ok(m) => PkceMode::parse(s@) == Some(m),
                Err(e) => PkceMode::parse(s@) is None && e.0@ == s@,
            },
    {
        if str_equals(s, "auto") {
            Ok(PkceMode::Auto)
        } else if str_equals(s, "s256") {
            Ok(PkceMode::S256)
        } else if str_equals(s, "disabled") {
            Ok(PkceMode::Disabled)
        } else {
            Err(InvalidPkceModeError(s.to_owned()))
        }
    }
}

impl std::str::FromStr for PkceMode {
    type Err = InvalidPkceModeError;

    fn from_str(s: &str) -> (r: Result<PkceMode, InvalidPkceModeError>)
        ensures
            match r {
                Ok(m) => PkceMode::parse(s@) == Some(m),
                Err(e) => PkceMode::parse(s@) is None && e.0@ == s@,
            },
    {
        PkceMode::from_str(s)
    }
}

impl Default for PkceMode {
    fn default() -> (r: PkceMode)
        ensures
            r == PkceMode::Auto,
    {
        PkceMode::Auto
    }
}

/// Reading a pkce mode back from its textual form gives the same value,
/// and only that form reads as that value.
pub proof fn pkce_mode_text_round_trip(m: PkceMode, s: Seq<char>)
    ensures
        PkceMode::parse(m.text()) == Some(m),
        PkceMode::parse(s) == Some(m) ==> s == m.text(),
{
    reveal_strlit("auto");
    reveal_strlit("s256");
    reveal_strlit("disabled");
    assert("auto"@[0] != "s256"@[0]);
    assert("auto"@.len() != "disabled"@.len());
    assert("s256"@.len() != "disabled"@.len());
}

/// The textual forms of the pkce mode values: each value has its own,
/// and a string reads as a value exactly when it is that value's form.
pub proof fn pkce_mode_texts(s: Seq<char>)
    ensures
        PkceMode::Auto.text() == "auto"@,
        PkceMode::parse(s) == Some(PkceMode::Auto) <==> s == "auto"@,
        PkceMode::S256.text() == "s256"@,
        PkceMode::parse(s) == Some(PkceMode::S256) <==> s == "s256"@,
        PkceMode::Disabled.text() == "disabled"@,
        PkceMode::parse(s) == Some(PkceMode::Disabled) <==> s == "disabled"@,
        PkceMode::parse(s) is None <==> s != "auto"@ && s != "s256"@ && s != "disabled"@,
{
    pkce_mode_text_round_trip(PkceMode::Auto, s);
    pkce_mode_text_round_trip(PkceMode::S256, s);
    pkce_mode_text_round_trip(PkceMode::Disabled, s);
}

/// How the provider returns the authorization response.
#[derive(Debug, Clone, Copy, PartialEq, Eq, Structural)]
pub enum ResponseMode {
    Query,
    FormPost,
}

/// A string that names no response mode. The string is kept.
#[derive(Debug, Clone)]
pub struct InvalidResponseModeError(pub String);

impl InvalidResponseModeError {
    /// The error's message: `Invalid response mode` followed by the rejected string in its quoted `Debug` form.
    pub open spec fn message(self) -> Seq<char> {
        "Invalid response mode "@ + debug_quoted(self.0@)
    }

    /// The error's message.
    pub fn to_string(&self) -> (r: String)
        ensures
            r@ == self.message(),
    {
        let mut m = "Invalid response mode ".to_owned();
        let quoted = debug_string(self.0.as_str());
        m.append(quoted.as_str());
        m
    }
}

impl ResponseMode {
    /// The textual form.
    pub open spec fn text(self) -> Seq<char> {
        match self {
            ResponseMode::Query => "query"@,
            ResponseMode::FormPost => "form_post"@,
        }
    }

    /// The value whose textual form is `s`, if any.
    pub open spec fn parse(s: Seq<char>) -> Option<ResponseMode> {
        if s == "query"@ {
            Some(ResponseMode::Query)
        } else if s == "form_post"@ {
            Some(ResponseMode::FormPost)
        } else {
            None
        }
    }

    pub fn as_str(self) -> (r: &'static str)
        ensures
            r@ == self.text(),
    {
        match self {
            ResponseMode::Query => "query",
            ResponseMode::FormPost => "form_post",
        }
    }

    /// Reads a value from its textual form; any other string is refused and
    /// handed back in the error.
    pub fn from_str(s: &str) -> (r: Result<ResponseMode, InvalidResponseModeError>)
        ensures
            match r {
                Ok(m) => ResponseMode::parse(s@) == Some(m),
                Err(e) => ResponseMode::parse(s@) is None && e.0@ == s@,
            },
    {
        if str_equals(s, "query") {
            Ok(ResponseMode::Query)
        } else if str_equals(s, "form_post") {
            Ok(ResponseMode::FormPost)
        } else {
            Err(InvalidResponseModeError(s.to_owned()))
        }
    }
}

impl std::str::FromStr for ResponseMode {
    type Err = InvalidResponseModeError;

    fn from_str(s: &str) -> (r: Result<ResponseMode, InvalidResponseModeError>)
        ensures
            match r {
                Ok(m) => ResponseMode::parse(s@) == Some(m),
                Err(e) => ResponseMode::parse(s@) is None && e.0@ == s@,
            },
    {
        ResponseMode::from_str(s)
    }
}

impl Default for ResponseMode {
    fn default() -> (r: ResponseMode)
        ensures
            r == ResponseMode::Query,
    {
        ResponseMode::Query
    }
}

/// Reading a response mode back from its textual form gives the same value,
/// and only that form reads as that value.
pub proof fn response_mode_text_round_trip(m: ResponseMode, s: Seq<char>)
    ensures
        ResponseMode::parse(m.text()) == Some(m),
        ResponseMode::parse(s) == Some(m) ==> s == m.text(),
{
    reveal_strlit("query");
    reveal_strlit("form_post");
    assert("query"@.len() != "form_post"@.len());
}

/// The textual forms of the response mode values: each value has its own,
/// and a string reads as a value exactly when it is that value's form.
pub proof fn response_mode_texts(s: Seq<char>)
    ensures
        ResponseMode::Query.text() == "query"@,
        ResponseMode::parse(s) == Some(ResponseMode::Query) <==> s == "query"@,
        ResponseMode::FormPost.text() == "form_post"@,
        ResponseMode::parse(s) == Some(ResponseMode::FormPost) <==> s == "form_post"@,
        ResponseMode::parse(s) is None <==> s != "query"@ && s != "form_post"@,
{
    response_mode_text_round_trip(ResponseMode::Query, s);
    response_mode_text_round_trip(ResponseMode::FormPost, s);
}

/// How the client authenticates at the provider's token endpoint.
#[derive(Debug, Clone, Copy, PartialEq, Eq, Structural)]
pub enum TokenAuthMethod {
    /// The client does not authenticate at the token endpoint
    NoAuthentication,
    ClientSecretBasic,
    ClientSecretPost,
    ClientSecretJwt,
    PrivateKeyJwt,
    SignInWithApple,
}

/// A string that names no token endpoint authentication method. The string is kept.
#[derive(Debug, Clone)]
pub struct InvalidUpstreamOAuth2TokenAuthMethod(pub String);

impl InvalidUpstreamOAuth2TokenAuthMethod {
    /// The error's message: `Invalid upstream OAuth 2.0 token auth method:` followed by the rejected string.
    pub open spec fn message(self) -> Seq<char> {
        "Invalid upstream OAuth 2.0 token auth method: "@ + self.0@
    }

    /// The error's message.
    pub fn to_string(&self) -> (r: String)
        ensures
            r@ == self.message(),
    {
        let mut m = "Invalid upstream OAuth 2.0 token auth method: ".to_owned();
        m.append(self.0.as_str());
        m
    }
}

impl TokenAuthMethod {
    /// The textual form.
    pub open spec fn text(self) -> Seq<char> {
        match self {
            TokenAuthMethod::NoAuthentication => "none"@,
            TokenAuthMethod::ClientSecretBasic => "client_secret_basic"@,
            TokenAuthMethod::ClientSecretPost => "client_secret_post"@,
            TokenAuthMethod::ClientSecretJwt => "client_secret_jwt"@,
            TokenAuthMethod::PrivateKeyJwt => "private_key_jwt"@,
            TokenAuthMethod::SignInWithApple => "sign_in_with_apple"@,
        }
    }

    /// The value whose textual form is `s`, if any.
    pub open spec fn parse(s: Seq<char>) -> Option<TokenAuthMethod> {
        if s == "none"@ {
            Some(TokenAuthMethod::NoAuthentication)
        } else if s == "client_secret_basic"@ {
            Some(TokenAuthMethod::ClientSecretBasic)
        } else if s == "client_secret_post"@ {
            Some(TokenAuthMethod::ClientSecretPost)
        } else if s == "client_secret_jwt"@ {
            Some(TokenAuthMethod::ClientSecretJwt)
        } else if s == "private_key_jwt"@ {
            Some(TokenAuthMethod::PrivateKeyJwt)
        } else if s == "sign_in_with_apple"@ {
            Some(TokenAuthMethod::SignInWithApple)
        } else {
            None
        }
    }

    pub fn as_str(self) -> (r: &'static str)
        ensures
            r@ == self.text(),
    {
        match self {
            TokenAuthMethod::NoAuthentication => "none",
            TokenAuthMethod::ClientSecretBasic => "client_secret_basic",
            TokenAuthMethod::ClientSecretPost => "client_secret_post",
            TokenAuthMethod::ClientSecretJwt => "client_secret_jwt",
            TokenAuthMethod::PrivateKeyJwt => "private_key_jwt",
            TokenAuthMethod::SignInWithApple => "sign_in_with_apple",
        }
    }

    /// Reads a value from its textual form; any other string is refused and
    /// handed back in the error.
    pub fn from_str(s: &str) -> (r: Result<TokenAuthMethod, InvalidUpstreamOAuth2TokenAuthMethod>)
        ensures
            match r {
                Ok(m) => TokenAuthMethod::parse(s@) == Some(m),
                Err(e) => TokenAuthMethod::parse(s@) is None && e.0@ == s@,
            },
    {
        if str_equals(s, "none") {
            Ok(TokenAuthMethod::NoAuthentication)
        } else if str_equals(s, "client_secret_basic") {
            Ok(TokenAuthMethod::ClientSecretBasic)
        } else if str_equals(s, "client_secret_post") {
            Ok(TokenAuthMethod::ClientSecretPost)
        } else if str_equals(s, "client_secret_jwt") {
            Ok(TokenAuthMethod::ClientSecretJwt)
        } else if str_equals(s, "private_key_jwt") {
            Ok(TokenAuthMethod::PrivateKeyJwt)
        } else if str_equals(s, "sign_in_with_apple") {
            Ok(TokenAuthMethod::SignInWithApple)
        } else {
            Err(InvalidUpstreamOAuth2TokenAuthMethod(s.to_owned()))
        }
    }
}

impl std::str::FromStr for TokenAuthMethod {
    type Err = InvalidUpstreamOAuth2TokenAuthMethod;

    fn from_str(s: &str) -> (r: Result<TokenAuthMethod, InvalidUpstreamOAuth2TokenAuthMethod>)
        ensures
            match r {
                Ok(m) => TokenAuthMethod::parse(s@) == Some(m),
                Err(e) => TokenAuthMethod::parse(s@) is None && e.0@ == s@,
            },
    {
        TokenAuthMethod::from_str(s)
    }
}

/// Reading a token auth method back from its textual form gives the same value,
/// and only that form reads as that value.
pub proof fn token_auth_method_text_round_trip(m: TokenAuthMethod, s: Seq<char>)
    ensures
        TokenAuthMethod::parse(m.text()) == Some(m),
        TokenAuthMethod::parse(s) == Some(m) ==> s == m.text(),
{
    reveal_strlit("none");
    reveal_strlit("client_secret_basic");
    reveal_strlit("client_secret_post");
    reveal_strlit("client_secret_jwt");
    reveal_strlit("private_key_jwt");
    reveal_strlit("sign_in_with_apple");
    assert("none"@.len() != "client_secret_basic"@.len());
    assert("none"@.len() != "client_secret_post"@.len());
    assert("none"@.len() != "client_secret_jwt"@.len());
    assert("none"@.len() != "private_key_jwt"@.len());
    assert("none"@.len() != "sign_in_with_apple"@.len());
    assert("client_secret_basic"@.len() != "client_secret_post"@.len());
    assert("client_secret_basic"@.len() != "client_secret_jwt"@.len());
    assert("client_secret_basic"@.len() != "private_key_jwt"@.len());
    assert("client_secret_basic"@.len() != "sign_in_with_apple"@.len());
    assert("client_secret_post"@.len() != "client_secret_jwt"@.len());
    assert("client_secret_post"@.len() != "private_key_jwt"@.len());
    assert("client_secret_post"@[0] != "sign_in_with_apple"@[0]);
    assert("client_secret_jwt"@.len() != "private_key_jwt"@.len());
    assert("client_secret_jwt"@.len() != "sign_in_with_apple"@.len());
    assert("private_key_jwt"@.len() != "sign_in_with_apple"@.len());
}

/// The textual forms of the token auth method values: each value has its own,
/// and a string reads as a value exactly when it is that value's form.
pub proof fn token_auth_method_texts(s: Seq<char>)
    ensures
        TokenAuthMethod::NoAuthentication.text() == "none"@,
        TokenAuthMethod::parse(s) == Some(TokenAuthMethod::NoAuthentication) <==> s == "none"@,
        TokenAuthMethod::ClientSecretBasic.text() == "client_secret_basic"@,
        TokenAuthMethod::parse(s) == Some(TokenAuthMethod::ClientSecretBasic) <==> s == "client_secret_basic"@,
        TokenAuthMethod::ClientSecretPost.text() == "client_secret_post"@,
        TokenAuthMethod::parse(s) == Some(TokenAuthMethod::ClientSecretPost) <==> s == "client_secret_post"@,
        TokenAuthMethod::ClientSecretJwt.text() == "client_secret_jwt"@,
        TokenAuthMethod::parse(s) == Some(TokenAuthMethod::ClientSecretJwt) <==> s == "client_secret_jwt"@,
        TokenAuthMethod::PrivateKeyJwt.text() == "private_key_jwt"@,
        TokenAuthMethod::parse(s) == Some(TokenAuthMethod::PrivateKeyJwt) <==> s == "private_key_jwt"@,
        TokenAuthMethod::SignInWithApple.text() == "sign_in_with_apple"@,
        TokenAuthMethod::parse(s) == Some(TokenAuthMethod::SignInWithApple) <==> s == "sign_in_with_apple"@,
        TokenAuthMethod::parse(s) is None <==> s != "none"@ && s != "client_secret_basic"@ && s != "client_secret_post"@ && s != "client_secret_jwt"@ && s != "private_key_jwt"@ && s != "sign_in_with_apple"@,
{
    token_auth_method_text_round_trip(TokenAuthMethod::NoAuthentication, s);
    token_auth_method_text_round_trip(TokenAuthMethod::ClientSecretBasic, s);
    token_auth_method_text_round_trip(TokenAuthMethod::ClientSecretPost, s);
    token_auth_method_text_round_trip(TokenAuthMethod::ClientSecretJwt, s);
    token_auth_method_text_round_trip(TokenAuthMethod::PrivateKeyJwt, s);
    token_auth_method_text_round_trip(TokenAuthMethod::SignInWithApple, s);
}

/// What a back-channel logout from the provider ends.
#[derive(Debug, Clone, Copy, PartialEq, Eq, Structural)]
pub enum OnBackchannelLogout {
    DoNothing,
    LogoutBrowserOnly,
    LogoutAll,
}

/// A string that names no back-channel logout behaviour. The string is kept.
#[derive(Debug, Clone)]
pub struct InvalidUpstreamOAuth2OnBackchannelLogout(pub String);

impl InvalidUpstreamOAuth2OnBackchannelLogout {
    /// The error's message: `Invalid upstream OAuth 2.0 'on backchannel logout':` followed by the rejected string.
    pub open spec fn message(self) -> Seq<char> {
        "Invalid upstream OAuth 2.0 'on backchannel logout': "@ + self.0@
    }

    /// The error's message.
    pub fn to_string(&self) -> (r: String)
        ensures
            r@ == self.message(),
    {
        let mut m = "Invalid upstream OAuth 2.0 'on backchannel logout': ".to_owned();
        m.append(self.0.as_str());
        m
    }
}

impl OnBackchannelLogout {
    /// The textual form.
    pub open spec fn text(self) -> Seq<char> {
        match self {
            OnBackchannelLogout::DoNothing => "do_nothing"@,
            OnBackchannelLogout::LogoutBrowserOnly => "logout_browser_only"@,
            OnBackchannelLogout::LogoutAll => "logout_all"@,
        }
    }

    /// The value whose textual form is `s`, if any.
    pub open spec fn parse(s: Seq<char>) -> Option<OnBackchannelLogout> {
        if s == "do_nothing"@ {
            Some(OnBackchannelLogout::DoNothing)
        } else if s == "logout_browser_only"@ {
            Some(OnBackchannelLogout::LogoutBrowserOnly)
        } else if s == "logout_all"@ {
            Some(OnBackchannelLogout::LogoutAll)
        } else {
            None
        }
    }

    pub fn as_str(self) -> (r: &'static str)
        ensures
            r@ == self.text(),
    {
        match self {
            OnBackchannelLogout::DoNothing => "do_nothing",
            OnBackchannelLogout::LogoutBrowserOnly => "logout_browser_only",
            OnBackchannelLogout::LogoutAll => "logout_all",
        }
    }

    /// Reads a value from its textual form; any other string is refused and
    /// handed back in the error.
    pub fn from_str(s: &str) -> (r: Result<OnBackchannelLogout, InvalidUpstreamOAuth2OnBackchannelLogout>)
        ensures
            match r {
                Ok(m) => OnBackchannelLogout::parse(s@) == Some(m),
                Err(e) => OnBackchannelLogout::parse(s@) is None && e.0@ == s@,
            },
    {
        if str_equals(s, "do_nothing") {
            Ok(OnBackchannelLogout::DoNothing)
        } else if str_equals(s, "logout_browser_only") {
            Ok(OnBackchannelLogout::LogoutBrowserOnly)
        } else if str_equals(s, "logout_all") {
            Ok(OnBackchannelLogout::LogoutAll)
        } else {
            Err(InvalidUpstreamOAuth2OnBackchannelLogout(s.to_owned()))
        }
    }
}

impl std::str::FromStr for OnBackchannelLogout {
    type Err = InvalidUpstreamOAuth2OnBackchannelLogout;

    fn from_str(s: &str) -> (r: Result<OnBackchannelLogout, InvalidUpstreamOAuth2OnBackchannelLogout>)
        ensures
            match r {
                Ok(m) => OnBackchannelLogout::parse(s@) == Some(m),
                Err(e) => OnBackchannelLogout::parse(s@) is None && e.0@ == s@,
            },
    {
        OnBackchannelLogout::from_str(s)
    }
}

/// Reading a on backchannel logout back from its textual form gives the same value,
/// and only that form reads as that value.
pub proof fn on_backchannel_logout_text_round_trip(m: OnBackchannelLogout, s: Seq<char>)
    ensures
        OnBackchannelLogout::parse(m.text()) == Some(m),
        OnBackchannelLogout::parse(s) == Some(m) ==> s == m.text(),
{
    reveal_strlit("do_nothing");
    reveal_strlit("logout_browser_only");
    reveal_strlit("logout_all");
    assert("do_nothing"@.len() != "logout_browser_only"@.len());
    assert("do_nothing"@[0] != "logout_all"@[0]);
    assert("logout_browser_only"@.len() != "logout_all"@.len());
}

/// The textual forms of the on backchannel logout values: each value has its own,
/// and a string reads as a value exactly when it is that value's form.
pub proof fn on_backchannel_logout_texts(s: Seq<char>)
    ensures
        OnBackchannelLogout::DoNothing.text() == "do_nothing"@,
        OnBackchannelLogout::parse(s) == Some(OnBackchannelLogout::DoNothing) <==> s == "do_nothing"@,
        OnBackchannelLogout::LogoutBrowserOnly.text() == "logout_browser_only"@,
        OnBackchannelLogout::parse(s) == Some(OnBackchannelLogout::LogoutBrowserOnly) <==> s == "logout_browser_only"@,
        OnBackchannelLogout::LogoutAll.text() == "logout_all"@,
        OnBackchannelLogout::parse(s) == Some(OnBackchannelLogout::LogoutAll) <==> s == "logout_all"@,
        OnBackchannelLogout::parse(s) is None <==> s != "do_nothing"@ && s != "logout_browser_only"@ && s != "logout_all"@,
{
    on_backchannel_logout_text_round_trip(OnBackchannelLogout::DoNothing, s);
    on_backchannel_logout_text_round_trip(OnBackchannelLogout::LogoutBrowserOnly, s);
    on_backchannel_logout_text_round_trip(OnBackchannelLogout::LogoutAll, s);
}

/// An upstream OAuth 2.0 provider as stored. Identifiers are ULIDs held as
/// their 128-bit value, URLs and signing algorithms as their textual form, the
/// scope as its space-separated form and instants as Unix milliseconds.
#[derive(Debug, Clone, PartialEq, Eq)]
pub struct UpstreamOAuthProvider {
    pub id: u128,
    pub issuer: Option<String>,
    pub human_name: Option<String>,
    pub brand_name: Option<String>,
    pub discovery_mode: DiscoveryMode,
    pub pkce_mode: PkceMode,
    pub jwks_uri_override: Option<String>,
    pub authorization_endpoint_override: Option<String>,
    pub scope: String,
    pub token_endpoint_override: Option<String>,
    pub userinfo_endpoint_override: Option<String>,
    pub fetch_userinfo: bool,
    pub userinfo_signed_response_alg: Option<String>,
    pub client_id: String,
    pub encrypted_client_secret: Option<String>,
    pub token_endpoint_signing_alg: Option<String>,
    pub token_endpoint_auth_method: TokenAuthMethod,
    pub id_token_signed_response_alg: String,
    pub response_mode: Option<ResponseMode>,
    pub created_at: i64,
    pub disabled_at: Option<i64>,
    pub claims_imports: ClaimsImports,
    pub additional_authorization_parameters: Vec<(String, String)>,
    pub forward_login_hint: bool,
    pub on_backchannel_logout: OnBackchannelLogout,
    pub registration_token_required: bool,
}

impl UpstreamOAuthProvider {
    /// Returns `true` if the provider is enabled
    pub fn enabled(&self) -> (r: bool)
        ensures
            r == self.disabled_at is None,
    {
        self.disabled_at.is_none()
    }

    /// Providers are ordered by their ID alone.
    pub fn cmp(&self, other: &Self) -> (r: std::cmp::Ordering)
        ensures
            r == if self.id < other.id {
                std::cmp::Ordering::Less
            } else if self.id == other.id {
                std::cmp::Ordering::Equal
            } else {
                std::cmp::Ordering::Greater
            },
    {
        if self.id < other.id {
            std::cmp::Ordering::Less
        } else if self.id == other.id {
            std::cmp::Ordering::Equal
        } else {
            std::cmp::Ordering::Greater
        }
    }

    /// Providers are ordered by their ID alone, and always comparable.
    pub fn partial_cmp(&self, other: &Self) -> (r: Option<std::cmp::Ordering>)
        ensures
            r == Some(
                if self.id < other.id {
                    std::cmp::Ordering::Less
                } else if self.id == other.id {
                    std::cmp::Ordering::Equal
                } else {
                    std::cmp::Ordering::Greater
                },
            ),
    {
        Some(self.cmp(other))
    }
}


} // verus!

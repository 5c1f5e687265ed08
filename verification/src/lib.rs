//! Gua's customisations of the Matrix Authentication Service: the upstream
//! provider settings, the downstream-client marker, the consent-skip rule,
//! the identity-reset approval and the account-page user check.
use vstd::prelude::*;

pub mod text;
pub mod provider;
pub mod claims;
pub mod guard;
pub mod consent;
pub mod config;
pub mod account;
pub mod identity_reset;
pub mod authorize;

pub use account::{expected_user, AccountAction, Params};
pub use claims::{
    ClaimsImports, ImportAction, ImportPreference, LocalpartPreference, OnConflict,
    SubjectPreference,
};
pub use config::GUAConfig;
pub use consent::should_skip_consent;
pub use guard::{DownstreamClientGuardConfig, DownstreamClientGuardEntry};
pub use provider::{
    DiscoveryMode, InvalidDiscoveryModeError, InvalidPkceModeError, InvalidResponseModeError,
    InvalidUpstreamOAuth2OnBackchannelLogout, InvalidUpstreamOAuth2TokenAuthMethod,
    OnBackchannelLogout, PkceMode, ResponseMode, TokenAuthMethod, UpstreamOAuthProvider,
};

verus! {

} // verus!

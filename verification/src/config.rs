//! The `[gua]` configuration section.
use vstd::prelude::*;
use crate::consent::should_skip_consent;

verus! {

/// Gua-specific configuration extensions: which clients skip the OIDC
/// consent screen ("Continue to {client}?").
///
/// Use this **only** for first-party, fully-trusted clients that you
/// control. The OPA policy is still evaluated; this only suppresses the
/// interactive consent UI.
#[derive(Debug, Clone)]
pub struct GUAConfig {
    /// The ULIDs (as 128-bit values) of the clients for which the consent
    /// screen is skipped and the authorization grant fulfilled automatically.
    pub skip_consent_client_ids: Vec<u128>,
    /// Skip the consent screen for every client, for deployments whose
    /// clients register dynamically and so cannot be listed.
    pub skip_consent_for_all_clients: bool,
}

impl GUAConfig {
    /// Whether the section holds nothing but its defaults.
    pub fn is_default(&self) -> (r: bool)
        ensures
            r == (self.skip_consent_client_ids@.len() == 0 && !self.skip_consent_for_all_clients),
    {
        self.skip_consent_client_ids.len() == 0 && !self.skip_consent_for_all_clients
    }

    /// Whether the consent screen is skipped for the client `client_id`.
    pub open spec fn skips(self, client_id: u128) -> bool {
        self.skip_consent_for_all_clients || self.skip_consent_client_ids@.contains(client_id)
    }

    /// Whether the consent screen is skipped for the client `client_id`: for
    /// every client where all clients skip it, otherwise for the listed ones.
    pub fn skips_consent(&self, client_id: u128) -> (r: bool)
        ensures
            r == self.skips(client_id),
    {
        self.skip_consent_for_all_clients || should_skip_consent(
            client_id,
            self.skip_consent_client_ids.as_slice(),
        )
    }
}

impl Default for GUAConfig {
    fn default() -> (r: GUAConfig)
        ensures
            r.skip_consent_client_ids@.len() == 0,
            !r.skip_consent_for_all_clients,
    {
        GUAConfig { skip_consent_client_ids: Vec::new(), skip_consent_for_all_clients: false }
    }
}

/// With `skip_consent_for_all_clients` every client skips consent; without
/// it exactly the listed clients do, so the default section skips it for
/// nobody.
pub proof fn gua_config_skip_laws(config: GUAConfig, client_id: u128)
    ensures
        config.skip_consent_for_all_clients ==> config.skips(client_id),
        !config.skip_consent_for_all_clients ==> (config.skips(client_id)
            <==> config.skip_consent_client_ids@.contains(client_id)),
        (config.skip_consent_client_ids@.len() == 0 && !config.skip_consent_for_all_clients)
            ==> !config.skips(client_id),
{
}

} // verus!

//! Starting a login at an upstream provider: which provider may be used,
//! which authorization grant to look up, what is forwarded upstream, and
//! which extra query parameters the authorization URL carries.
use vstd::prelude::*;
use crate::guard::{guard_enabled, marker, DownstreamClientGuardConfig};
use crate::text::opt_str_view;
use crate::provider::UpstreamOAuthProvider;

verus! {

/// Why the upstream authorization request could not be started.
#[derive(Debug, Clone)]
pub enum RouteError {
    /// No enabled provider has the requested ID.
    ProviderNotFound,
    /// An internal failure, with its message.
    Internal(String),
}

impl RouteError {
    /// The HTTP status of the answer: `404` for an unknown provider, `500`
    /// otherwise.
    pub fn status_code(&self) -> (r: u16)
        ensures
            r == if self is ProviderNotFound {
                404u16
            } else {
                500u16
            },
    {
        match self {
            RouteError::ProviderNotFound => 404,
            RouteError::Internal(_) => 500,
        }
    }

    /// The error's message.
    pub fn to_string(&self) -> (r: String)
        ensures
            r@ == match self {
                RouteError::ProviderNotFound => "Provider not found"@,
                RouteError::Internal(m) => m@,
            },
    {
        match self {
            RouteError::ProviderNotFound => "Provider not found".to_owned(),
            RouteError::Internal(m) => m.clone(),
        }
    }
}

/// The provider to start the login with, from what the lookup by ID found:
/// only an enabled provider is used; a missing or disabled one is
/// `ProviderNotFound`.
pub fn usable_provider(found: Option<UpstreamOAuthProvider>) -> (r: Result<UpstreamOAuthProvider, RouteError>)
    ensures
        match r {
            Ok(p) => found == Some(p) && p.disabled_at is None,
            Err(e) => e is ProviderNotFound && (found is None || found->0.disabled_at is Some),
        },
{
    match found {
        Some(provider) => if provider.enabled() {
            Ok(provider)
        } else {
            Err(RouteError::ProviderNotFound)
        },
        None => Err(RouteError::ProviderNotFound),
    }
}

/// The authorization grant to look up, if any: the grant that the login
/// continues (`continued_grant`), and only when it is needed, either to
/// forward the login hint or to resolve the downstream client for the marker.
pub fn grant_to_look_up(
    provider: &UpstreamOAuthProvider,
    guard: &DownstreamClientGuardConfig,
    continued_grant: Option<u128>,
) -> (r: Option<u128>)
    ensures
        r == if provider.forward_login_hint || guard_enabled(guard@, provider.id) {
            continued_grant
        } else {
            None::<u128>
        },
{
    if provider.forward_login_hint || guard.is_enabled_for(provider.id) {
        continued_grant
    } else {
        None
    }
}

/// The login hint to forward upstream: the grant's own hint, raw, where the
/// provider forwards hints.
pub fn forwarded_login_hint(provider: &UpstreamOAuthProvider, grant_login_hint: Option<String>) -> (r:
    Option<String>)
    ensures
        r == if provider.forward_login_hint {
            grant_login_hint
        } else {
            None::<String>
        },
{
    if provider.forward_login_hint {
        grant_login_hint
    } else {
        None
    }
}

/// Whether the downstream client must be looked up to compute the marker:
/// only when the guard is on for the provider and the login continues a
/// grant. Logins that continue no grant are never marked.
pub fn needs_downstream_client(
    guard: &DownstreamClientGuardConfig,
    provider_id: u128,
    grant_found: bool,
) -> (r: bool)
    ensures
        r == (guard_enabled(guard@, provider_id) && grant_found),
{
    guard.is_enabled_for(provider_id) && grant_found
}

/// The marker to append for the login: only where the guard is on for the
/// provider and the login continues a grant that was found, and then the
/// marker of the grant's downstream client, whose registered URI is
/// `client_uri`. Logins that continue no grant are never marked.
pub fn downstream_marker(
    guard: &DownstreamClientGuardConfig,
    provider_id: u128,
    grant_found: bool,
    client_uri: Option<&str>,
) -> (r: Option<&'static str>)
    ensures
        !(guard_enabled(guard@, provider_id) && grant_found) ==> r is None,
        guard_enabled(guard@, provider_id) && grant_found ==> match r {
            Some(m) => marker(guard@, provider_id, opt_str_view(client_uri)) == Some(m@),
            None => marker(guard@, provider_id, opt_str_view(client_uri)) is None,
        },
{
    if needs_downstream_client(guard, provider_id, grant_found) {
        guard.marker_for(provider_id, client_uri)
    } else {
        None
    }
}

/// The name of the query parameter that carries the marker.
pub open spec fn marker_param() -> Seq<char> {
    "gua_downstream"@
}

/// The view of a list of query parameters.
pub open spec fn params_view(params: Seq<(String, String)>) -> Seq<(Seq<char>, Seq<char>)> {
    params.map_values(|p: (String, String)| (p.0@, p.1@))
}

/// The extra query parameters of the authorization URL, in order: the
/// provider's additional authorization parameters, then the
/// `gua_downstream` marker where there is one.
pub fn authorization_query_params(provider: &UpstreamOAuthProvider, marker: Option<&str>) -> (r: Vec<
    (String, String),
>)
    ensures
        params_view(r@) == match marker {
            Some(m) => params_view(provider.additional_authorization_parameters@).push(
                (marker_param(), m@),
            ),
            None => params_view(provider.additional_authorization_parameters@),
        },
{
    let mut params: Vec<(String, String)> = Vec::new();
    let extra = &provider.additional_authorization_parameters;
    let mut i: usize = 0;
    while i < extra.len()
        invariant
            i <= extra@.len(),
            params_view(params@) =~= params_view(extra@.take(i as int)),
        decreases extra.len() - i,
    {
        let key = extra[i].0.clone();
        let value = extra[i].1.clone();
        let ghost before = params@;
        params.push((key, value));
        proof {
            assert(extra@.take(i + 1) =~= extra@.take(i as int).push(extra@[i as int]));
            assert(params@ =~= before.push((key, value)));
            assert(params_view(params@) =~= params_view(before).push((key@, value@)));
            assert(params_view(extra@.take(i + 1)) =~= params_view(extra@.take(i as int)).push(
                (extra@[i as int].0@, extra@[i as int].1@),
            ));
        }
        i = i + 1;
    }
    assert(extra@.take(extra@.len() as int) =~= extra@);
    match marker {
        Some(m) => {
            let ghost before = params@;
            let key = "gua_downstream".to_owned();
            let value = m.to_owned();
            params.push((key, value));
            assert(params_view(params@) =~= params_view(before).push((key@, value@)));
        },
        None => {},
    }
    params
}

/// The extra parameters keep the provider's own parameters first, in order
/// and unchanged, and add exactly one more, `gua_downstream` with the marker,
/// when there is a marker, and none otherwise.
pub proof fn query_params_law(
    additional: Seq<(String, String)>,
    marker: Option<Seq<char>>,
    r: Seq<(Seq<char>, Seq<char>)>,
)
    requires
        r == match marker {
            Some(m) => params_view(additional).push((marker_param(), m)),
            None => params_view(additional),
        },
    ensures
        r.len() == additional.len() + if marker is Some {
            1int
        } else {
            0int
        },
        forall|i: int|
            0 <= i < additional.len() ==> #[trigger] r[i] == (additional[i].0@, additional[i].1@),
        marker is Some ==> r[additional.len() as int] == ("gua_downstream"@, marker->0),
{
}

} // verus!

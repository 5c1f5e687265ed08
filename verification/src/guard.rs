//! The Gua downstream-client marker: per upstream provider, whether a
//! `gua_downstream` marker is forwarded on the upstream authorization request,
//! and whether it reads `web` or `native`.
use vstd::prelude::*;
use std::collections::HashMap;
use crate::text::{ascii_fold, eq_ignore_ascii_case, opt_str_view, str_eq_ignore_ascii_case};

verus! {

broadcast use vstd::std_specs::hash::group_hash_axioms;

/// The host of the URI `uri` as the `url` crate parses it, or `None` where the
/// URI does not parse or has no host.
pub uninterp spec fn uri_host(uri: Seq<char>) -> Option<Seq<char>>;

/// Parses `uri` with `url::Url::parse` and takes `url::Url::host_str` of the
/// result. The contract claims only that the outcome depends on the URI
/// alone (it is named `uri_host`): what the host is, the `url` crate decides.
#[verifier::external_body]
fn host_of_uri(uri: &str) -> (r: Option<String>)
    ensures
        match r {
            Some(h) => uri_host(uri@) == Some(h@),
            None => uri_host(uri@) is None,
        },
{
    match url::Url::parse(uri) {
        Ok(parsed) => parsed.host_str().map(|h| h.to_owned()),
        Err(_) => None,
    }
}

/// A single provider's downstream-client marker settings.
#[derive(Debug, Clone)]
pub struct DownstreamClientGuardEntry {
    /// Whether to forward the `gua_downstream` marker for this provider.
    pub forward_downstream_client: bool,
    /// The host that identifies the downstream web client, derived from the
    /// configured web origin. `None` means every client is treated as
    /// `native`.
    pub web_origin_host: Option<String>,
}

/// The marker settings of every provider, keyed by the provider's ULID (its
/// 128-bit value).
#[derive(Debug, Clone)]
pub struct DownstreamClientGuardConfig {
    entries: HashMap<u128, DownstreamClientGuardEntry>,
}

/// The settings that a list of entries builds: a later entry for a provider
/// replaces an earlier one.
pub open spec fn entries_map(entries: Seq<(u128, DownstreamClientGuardEntry)>) -> Map<
    u128,
    DownstreamClientGuardEntry,
>
    decreases entries.len(),
{
    if entries.len() == 0 {
        Map::empty()
    } else {
        entries_map(entries.drop_last()).insert(entries.last().0, entries.last().1)
    }
}

/// The textual form of the marker for a web client.
pub open spec fn web_marker() -> Seq<char> {
    "web"@
}

/// The textual form of the marker for a native client.
pub open spec fn native_marker() -> Seq<char> {
    "native"@
}

/// Whether the marker is forwarded for `provider_id`.
pub open spec fn guard_enabled(m: Map<u128, DownstreamClientGuardEntry>, provider_id: u128) -> bool {
    m.contains_key(provider_id) && m[provider_id].forward_downstream_client
}

/// The marker for a downstream client whose `client_uri` has the host
/// `client_host`: none where the guard is off for the provider; `web` where
/// the host equals the configured web origin host without regard to ASCII
/// case; `native` otherwise, including when the host or the origin is absent.
pub open spec fn marker_from_host(
    m: Map<u128, DownstreamClientGuardEntry>,
    provider_id: u128,
    client_host: Option<Seq<char>>,
) -> Option<Seq<char>> {
    if !guard_enabled(m, provider_id) {
        None
    } else {
        match m[provider_id].web_origin_host {
            None => Some(native_marker()),
            Some(web_host) => match client_host {
                Some(host) => if eq_ignore_ascii_case(host, web_host@) {
                    Some(web_marker())
                } else {
                    Some(native_marker())
                },
                None => Some(native_marker()),
            },
        }
    }
}

/// The host of an optional client URI.
pub open spec fn client_host_of(client_uri: Option<Seq<char>>) -> Option<Seq<char>> {
    match client_uri {
        Some(uri) => uri_host(uri),
        None => None,
    }
}

/// The marker for a downstream client whose registered URI is `client_uri`.
pub open spec fn marker(
    m: Map<u128, DownstreamClientGuardEntry>,
    provider_id: u128,
    client_uri: Option<Seq<char>>,
) -> Option<Seq<char>> {
    marker_from_host(m, provider_id, client_host_of(client_uri))
}

impl View for DownstreamClientGuardConfig {
    type V = Map<u128, DownstreamClientGuardEntry>;

    closed spec fn view(&self) -> Map<u128, DownstreamClientGuardEntry> {
        self.entries@
    }
}

impl DownstreamClientGuardConfig {
    /// Build a guard config from per-provider entries; where a provider has
    /// several, the last one counts.
    pub fn new(entries: Vec<(u128, DownstreamClientGuardEntry)>) -> (r: DownstreamClientGuardConfig)
        ensures
            r@ == entries_map(entries@),
    {
        let mut map: HashMap<u128, DownstreamClientGuardEntry> = HashMap::new();
        let ghost all = entries@;
        for pair in it: entries
            invariant
                it.seq() == all,
                map@ == entries_map(all.take(it.index() as int)),
        {
            let (id, entry) = pair;
            proof {
                assert(all.take(it.index() + 1).drop_last() =~= all.take(it.index() as int));
            }
            map.insert(id, entry);
        }
        assert(all.take(all.len() as int) =~= all);
        DownstreamClientGuardConfig { entries: map }
    }

    /// Look up the entry for a provider, if any.
    pub fn get(&self, provider_id: u128) -> (r: Option<&DownstreamClientGuardEntry>)
        ensures
            match r {
                Some(e) => self@.contains_key(provider_id) && *e == self@[provider_id],
                None => !self@.contains_key(provider_id),
            },
    {
        self.entries.get(&provider_id)
    }

    /// Whether the marker is forwarded for this provider.
    pub fn is_enabled_for(&self, provider_id: u128) -> (r: bool)
        ensures
            r == guard_enabled(self@, provider_id),
    {
        match self.get(provider_id) {
            Some(entry) => entry.forward_downstream_client,
            None => false,
        }
    }

    /// Compute the `gua_downstream` marker value for a downstream client of
    /// the given provider, whose registered `client_uri` is given.
    ///
    /// Returns `None` when the guard is disabled for this provider (the marker
    /// must not be appended at all). When enabled, returns `Some("web")` if the
    /// downstream client's `client_uri` host matches the configured web origin
    /// host, and `Some("native")` otherwise (including when the host or origin
    /// is absent). Comparison is ASCII-case-insensitive on the host only.
    pub fn marker_for(&self, provider_id: u128, client_uri: Option<&str>) -> (r: Option<&'static str>)
        ensures
            match r {
                Some(s) => marker(self@, provider_id, opt_str_view(client_uri)) == Some(s@),
                None => marker(self@, provider_id, opt_str_view(client_uri)) is None,
            },
    {
        let client_host = match client_uri {
            Some(uri) => host_of_uri(uri),
            None => None,
        };
        let host: Option<&str> = match &client_host {
            Some(h) => Some(h.as_str()),
            None => None,
        };
        self.marker_for_host(provider_id, host)
    }

    /// The marker for a downstream client whose `client_uri` has the host
    /// `client_host` (`None` where it has no URI or the URI no host).
    pub fn marker_for_host(&self, provider_id: u128, client_host: Option<&str>) -> (r: Option<&'static str>)
        ensures
            match r {
                Some(s) => marker_from_host(self@, provider_id, opt_str_view(client_host)) == Some(s@),
                None => marker_from_host(self@, provider_id, opt_str_view(client_host)) is None,
            },
    {
        let entry = match self.get(provider_id) {
            Some(entry) => entry,
            None => return None,
        };
        if !entry.forward_downstream_client {
            return None;
        }
        let web_host = match &entry.web_origin_host {
            Some(h) => h,
            None => return Some("native"),
        };
        match client_host {
            Some(host) => if str_eq_ignore_ascii_case(host, web_host.as_str()) {
                Some("web")
            } else {
                Some("native")
            },
            None => Some("native"),
        }
    }
}

impl Default for DownstreamClientGuardConfig {
    fn default() -> (r: DownstreamClientGuardConfig)
        ensures
            r@ == Map::<u128, DownstreamClientGuardEntry>::empty(),
    {
        DownstreamClientGuardConfig { entries: HashMap::new() }
    }
}

/// The settings built from a list of entries hold an entry for exactly the
/// listed providers.
pub proof fn entries_map_domain(entries: Seq<(u128, DownstreamClientGuardEntry)>, provider_id: u128)
    ensures
        entries_map(entries).contains_key(provider_id) <==> exists|i: int|
            0 <= i < entries.len() && (#[trigger] entries[i]).0 == provider_id,
    decreases entries.len(),
{
    if entries.len() > 0 {
        let init = entries.drop_last();
        entries_map_domain(init, provider_id);
        if entries_map(entries).contains_key(provider_id) {
            if entries.last().0 != provider_id {
                let i = choose|i: int| 0 <= i < init.len() && (#[trigger] init[i]).0 == provider_id;
                assert(entries[i] == init[i]);
            } else {
                assert(entries[entries.len() - 1].0 == provider_id);
            }
        }
        if exists|i: int| 0 <= i < entries.len() && (#[trigger] entries[i]).0 == provider_id {
            let i = choose|i: int| 0 <= i < entries.len() && (#[trigger] entries[i]).0 == provider_id;
            if i < entries.len() - 1 {
                assert(init[i] == entries[i]);
            }
        }
    }
}

/// For a provider listed in the entries, the settings built from them hold
/// the last entry listed for it.
pub proof fn entries_map_keeps_last_entry(
    entries: Seq<(u128, DownstreamClientGuardEntry)>,
    provider_id: u128,
    i: int,
)
    requires
        0 <= i < entries.len(),
        entries[i].0 == provider_id,
        forall|j: int| i < j < entries.len() ==> (#[trigger] entries[j]).0 != provider_id,
    ensures
        entries_map(entries).contains_key(provider_id),
        entries_map(entries)[provider_id] == entries[i].1,
    decreases entries.len(),
{
    let init = entries.drop_last();
    if i < entries.len() - 1 {
        assert(entries[entries.len() - 1].0 != provider_id);
        assert forall|j: int| i < j < init.len() implies (#[trigger] init[j]).0 != provider_id by {
            assert(init[j] == entries[j]);
        }
        entries_map_keeps_last_entry(init, provider_id, i);
    }
}

/// The marker is absent exactly when the guard is off for the provider; when
/// on, it is `web` or `native`, and `web` only for a client whose URI has a
/// host equal, without regard to ASCII case, to the configured web origin
/// host. A client without a URI is `native`.
pub proof fn marker_laws(
    m: Map<u128, DownstreamClientGuardEntry>,
    provider_id: u128,
    client_uri: Option<Seq<char>>,
)
    ensures
        marker(m, provider_id, client_uri) is None <==> !guard_enabled(m, provider_id),
        marker(m, provider_id, client_uri) is Some ==> marker(m, provider_id, client_uri)
            == Some(web_marker()) || marker(m, provider_id, client_uri) == Some(native_marker()),
        marker(m, provider_id, client_uri) == Some(web_marker()) ==> {
            &&& m[provider_id].web_origin_host is Some
            &&& client_uri is Some
            &&& uri_host(client_uri->0) is Some
            &&& eq_ignore_ascii_case(uri_host(client_uri->0)->0, m[provider_id].web_origin_host->0@)
        },
        guard_enabled(m, provider_id) && client_uri is None ==> marker(m, provider_id, client_uri)
            == Some(native_marker()),
{
    reveal_strlit("web");
    reveal_strlit("native");
    assert(web_marker().len() != native_marker().len());
}

/// With the guard on for the provider and a web origin host `web_host`, a
/// client URI whose host `host` (as the URL parser reads it, whatever the
/// scheme) equals the web origin host without regard to ASCII case is marked
/// `web`, and one whose host differs, or that has no host, is marked
/// `native`; with no web origin host every client is `native`; with the guard
/// off, or no entry for the provider, there is no marker.
pub proof fn marker_follows_the_host(
    m: Map<u128, DownstreamClientGuardEntry>,
    provider_id: u128,
    uri: Seq<char>,
    client_uri: Option<Seq<char>>,
)
    ensures
        m.contains_key(provider_id) && m[provider_id].forward_downstream_client
            && m[provider_id].web_origin_host is Some && uri_host(uri) is Some && eq_ignore_ascii_case(
            uri_host(uri)->0,
            m[provider_id].web_origin_host->0@,
        ) ==> marker(m, provider_id, Some(uri)) == Some("web"@),
        m.contains_key(provider_id) && m[provider_id].forward_downstream_client
            && m[provider_id].web_origin_host is Some && uri_host(uri) == Some(
            m[provider_id].web_origin_host->0@,
        ) ==> marker(m, provider_id, Some(uri)) == Some("web"@),
        m.contains_key(provider_id) && m[provider_id].forward_downstream_client
            && m[provider_id].web_origin_host is Some && (uri_host(uri) is None || !eq_ignore_ascii_case(
            uri_host(uri)->0,
            m[provider_id].web_origin_host->0@,
        )) ==> marker(m, provider_id, Some(uri)) == Some("native"@),
        m.contains_key(provider_id) && m[provider_id].forward_downstream_client
            && m[provider_id].web_origin_host is None ==> marker(m, provider_id, client_uri) == Some(
            "native"@,
        ),
        m.contains_key(provider_id) && m[provider_id].forward_downstream_client && client_uri is None
            ==> marker(m, provider_id, client_uri) == Some("native"@),
        !(m.contains_key(provider_id) && m[provider_id].forward_downstream_client) ==> marker(
            m,
            provider_id,
            client_uri,
        ) is None,
{
    if m.contains_key(provider_id) && m[provider_id].web_origin_host is Some {
        let w = m[provider_id].web_origin_host->0@;
        assert forall|i: int| 0 <= i < w.len() implies ascii_fold(#[trigger] w[i]) == ascii_fold(w[i]) by {}
    }
}

} // verus!

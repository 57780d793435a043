//! The running state of the server that is not configuration: request and
//! token counters, the cache of health probe results, the status report
//! built from them, and the import of a configuration bundle.

use vstd::prelude::*;
use vstd::string::*;

use crate::config::Config;
use crate::model::{opt_str, views, Provider, ProviderStatus, ProviderStatusView, ProviderView, Route};
use crate::text::owned;

verus! {

// ---------------------------------------------------------------------------
// Counters
// ---------------------------------------------------------------------------

/// `a + b` modulo 2^64, as an atomic `fetch_add` leaves a 64-bit counter.
pub open spec fn wrapped_sum(a: u64, b: u64) -> u64 {
    ((a as int + b as int) % 0x1_0000_0000_0000_0000int) as u64
}

/// The request and token counters of the server.
#[derive(Debug)]
pub struct ServerCounters {
    pub total_requests: u64,
    pub total_tokens: u64,
}

impl ServerCounters {
    /// Both counters at zero.
    pub fn new() -> (r: Self)
        ensures
            r.total_requests == 0,
            r.total_tokens == 0,
    {
        ServerCounters { total_requests: 0, total_tokens: 0 }
    }

    /// Counts one more request, wrapping around at 2^64.
    pub fn inc_requests(&mut self)
        ensures
            final(self).total_requests == wrapped_sum(old(self).total_requests, 1),
            final(self).total_tokens == old(self).total_tokens,
    {
        self.total_requests = self.total_requests.wrapping_add(1);
    }

    /// Adds `count` tokens, wrapping around at 2^64.
    pub fn add_tokens(&mut self, count: u64)
        ensures
            final(self).total_tokens == wrapped_sum(old(self).total_tokens, count),
            final(self).total_requests == old(self).total_requests,
    {
        self.total_tokens = self.total_tokens.wrapping_add(count);
    }
}

// ---------------------------------------------------------------------------
// Health cache
// ---------------------------------------------------------------------------

/// The result of the last health probe of a provider. `last_check` is an
/// RFC 3339 text.
#[derive(Debug)]
pub struct HealthInfo {
    pub healthy: bool,
    pub latency_ms: Option<u64>,
    pub last_check: Option<String>,
}

pub struct HealthInfoView {
    pub healthy: bool,
    pub latency_ms: Option<u64>,
    pub last_check: Option<Seq<char>>,
}

impl View for HealthInfo {
    type V = HealthInfoView;

    open spec fn view(&self) -> HealthInfoView {
        HealthInfoView {
            healthy: self.healthy,
            latency_ms: self.latency_ms,
            last_check: opt_str(self.last_check),
        }
    }
}

impl Clone for HealthInfo {
    fn clone(&self) -> (r: Self)
        ensures
            r@ == self@,
    {
        HealthInfo {
            healthy: self.healthy,
            latency_ms: self.latency_ms,
            last_check: crate::model::clone_opt_string(&self.last_check),
        }
    }
}

/// The map that a list of entries with distinct names stands for.
pub open spec fn entries_map(s: Seq<(Seq<char>, HealthInfoView)>) -> Map<
    Seq<char>,
    HealthInfoView,
>
    decreases s.len(),
{
    if s.len() == 0 {
        Map::empty()
    } else {
        entries_map(s.drop_last()).insert(s.last().0, s.last().1)
    }
}

/// The names of the entries are distinct.
pub open spec fn distinct_names(s: Seq<(Seq<char>, HealthInfoView)>) -> bool {
    forall|i: int, j: int| 0 <= i < j < s.len() ==> #[trigger] s[i].0 != #[trigger] s[j].0
}

/// The last health probe result of each provider, by name.
#[derive(Debug)]
pub struct HealthCache {
    entries: Vec<(String, HealthInfo)>,
}

impl HealthCache {
    /// The entries, as views.
    pub closed spec fn entry_views(&self) -> Seq<(Seq<char>, HealthInfoView)> {
        self.entries@.map_values(|e: (String, HealthInfo)| (e.0@, e.1@))
    }

    /// No name has two entries.
    pub closed spec fn wf(&self) -> bool {
        distinct_names(self.entry_views())
    }

    /// The results, by provider name.
    pub closed spec fn view(&self) -> Map<Seq<char>, HealthInfoView> {
        entries_map(self.entry_views())
    }

    /// A cache with no result.
    pub fn new() -> (r: Self)
        ensures
            r.wf(),
            r.view() == Map::<Seq<char>, HealthInfoView>::empty(),
    {
        let r = HealthCache { entries: Vec::new() };
        assert(r.entry_views() =~= Seq::<(Seq<char>, HealthInfoView)>::empty());
        r
    }

    /// The position of the entry named `name`.
    fn position(&self, name: &str) -> (r: Option<usize>)
        ensures
            r matches Some(k) ==> k < self.entries@.len() && self.entry_views()[k as int].0
                == name@,
            r is None ==> forall|i: int|
                0 <= i < self.entries@.len() ==> #[trigger] self.entry_views()[i].0 != name@,
    {
        let target = owned(name);
        let mut k: usize = 0;
        while k < self.entries.len()
            invariant
                target@ == name@,
                k <= self.entries@.len(),
                forall|i: int| 0 <= i < k ==> #[trigger] self.entry_views()[i].0 != name@,
            decreases self.entries.len() - k,
        {
            if self.entries[k].0 == target {
                return Some(k);
            }
            k = k + 1;
        }
        None
    }

    /// Records the result of a probe of the provider `name`, replacing the
    /// previous one.
    pub fn update(&mut self, name: String, info: HealthInfo)
        requires
            old(self).wf(),
        ensures
            final(self).wf(),
            final(self).view() == old(self).view().insert(name@, info@),
    {
        let ghost s = self.entry_views();
        let ghost e = (name@, info@);
        match self.position(name.as_str()) {
            Some(k) => {
                self.entries.set(k, (name, info));
                proof {
                    assert(self.entry_views() =~= s.update(k as int, e));
                    lemma_entries_map_update(s, k as int, e.1);
                    assert forall|i: int, j: int|
                        0 <= i < j < self.entry_views().len() implies #[trigger] self.entry_views()[i].0
                        != #[trigger] self.entry_views()[j].0 by {
                        assert(s[i].0 != s[j].0);
                    }
                }
            },
            None => {
                self.entries.push((name, info));
                proof {
                    assert(self.entry_views() =~= s.push(e));
                    assert(self.entry_views().drop_last() =~= s);
                    assert forall|i: int, j: int|
                        0 <= i < j < self.entry_views().len() implies #[trigger] self.entry_views()[i].0
                        != #[trigger] self.entry_views()[j].0 by {
                        if j < s.len() {
                            assert(s[i].0 != s[j].0);
                        } else {
                            assert(s[i].0 != name@);
                        }
                    }
                }
            },
        }
    }

    /// The last result recorded for the provider `name`.
    pub fn get(&self, name: &str) -> (r: Option<HealthInfo>)
        requires
            self.wf(),
        ensures
            match r {
                Some(info) => self.view().dom().contains(name@) && self.view()[name@] == info@,
                None => !self.view().dom().contains(name@),
            },
    {
        match self.position(name) {
            Some(k) => {
                proof {
                    lemma_entries_map_lookup(self.entry_views(), k as int);
                }
                Some(self.entries[k].1.clone())
            },
            None => {
                proof {
                    lemma_entries_map_absent(self.entry_views(), name@);
                }
                None
            },
        }
    }
}

/// The value of each entry is what the map gives for its name.
pub proof fn lemma_entries_map_lookup(s: Seq<(Seq<char>, HealthInfoView)>, k: int)
    requires
        distinct_names(s),
        0 <= k < s.len(),
    ensures
        entries_map(s).dom().contains(s[k].0),
        entries_map(s)[s[k].0] == s[k].1,
    decreases s.len(),
{
    if k < s.len() - 1 {
        let rest = s.drop_last();
        assert(distinct_names(rest)) by {
            assert forall|i: int, j: int| 0 <= i < j < rest.len() implies #[trigger] rest[i].0
                != #[trigger] rest[j].0 by {
                assert(s[i].0 != s[j].0);
            }
        }
        assert(rest[k] == s[k]);
        lemma_entries_map_lookup(rest, k);
        assert(s[k].0 != s[s.len() - 1].0);
    }
}

/// A name without an entry is not in the map.
pub proof fn lemma_entries_map_absent(s: Seq<(Seq<char>, HealthInfoView)>, name: Seq<char>)
    requires
        forall|i: int| 0 <= i < s.len() ==> #[trigger] s[i].0 != name,
    ensures
        !entries_map(s).dom().contains(name),
    decreases s.len(),
{
    if s.len() > 0 {
        let rest = s.drop_last();
        assert forall|i: int| 0 <= i < rest.len() implies #[trigger] rest[i].0 != name by {
            assert(s[i].0 != name);
        }
        lemma_entries_map_absent(rest, name);
        assert(s[s.len() - 1].0 != name);
    }
}

/// Replacing the value of an entry replaces it in the map.
pub proof fn lemma_entries_map_update(
    s: Seq<(Seq<char>, HealthInfoView)>,
    k: int,
    v: HealthInfoView,
)
    requires
        distinct_names(s),
        0 <= k < s.len(),
    ensures
        entries_map(s.update(k, (s[k].0, v))) == entries_map(s).insert(s[k].0, v),
    decreases s.len(),
{
    let name = s[k].0;
    let t = s.update(k, (name, v));
    let rest = s.drop_last();
    assert(distinct_names(rest)) by {
        assert forall|i: int, j: int| 0 <= i < j < rest.len() implies #[trigger] rest[i].0
            != #[trigger] rest[j].0 by {
            assert(s[i].0 != s[j].0);
        }
    }
    if k == s.len() - 1 {
        assert(t.drop_last() =~= rest);
        assert(entries_map(t) =~= entries_map(rest).insert(name, v));
        assert(entries_map(s).insert(name, v) =~= entries_map(rest).insert(name, v));
    } else {
        assert(rest[k] == s[k]);
        lemma_entries_map_update(rest, k, v);
        assert(t.drop_last() =~= rest.update(k, (name, v)));
        assert(s.last().0 != name);
        assert(entries_map(t) =~= entries_map(s).insert(name, v));
    }
}

// ---------------------------------------------------------------------------
// Status report
// ---------------------------------------------------------------------------

/// The status of the provider `name` given the cached results: the last
/// probe's result, or healthy with nothing measured when it was never
/// probed.
pub open spec fn status_of(name: Seq<char>, cache: Map<Seq<char>, HealthInfoView>) -> ProviderStatusView {
    if cache.dom().contains(name) {
        ProviderStatusView {
            name: name,
            healthy: cache[name].healthy,
            latency_ms: cache[name].latency_ms,
            last_check: cache[name].last_check,
        }
    } else {
        ProviderStatusView { name: name, healthy: true, latency_ms: None, last_check: None }
    }
}

/// The status of each provider, in the order of the provider list, for
/// `/api/status`.
pub fn provider_statuses(providers: &Vec<Provider>, cache: &HealthCache) -> (r: Vec<ProviderStatus>)
    requires
        cache.wf(),
    ensures
        r@.len() == providers@.len(),
        forall|i: int|
            0 <= i < providers@.len() ==> #[trigger] r@[i]@ == status_of(
                providers@[i]@.name,
                cache.view(),
            ),
{
    let mut out: Vec<ProviderStatus> = Vec::new();
    let mut i: usize = 0;
    while i < providers.len()
        invariant
            cache.wf(),
            i <= providers.len(),
            out@.len() == i,
            forall|j: int|
                0 <= j < i ==> #[trigger] out@[j]@ == status_of(providers@[j]@.name, cache.view()),
        decreases providers.len() - i,
    {
        let name = &providers[i].name;
        let status = match cache.get(name.as_str()) {
            Some(info) => ProviderStatus {
                name: name.clone(),
                healthy: info.healthy,
                latency_ms: info.latency_ms,
                last_check: info.last_check,
            },
            None => ProviderStatus {
                name: name.clone(),
                healthy: true,
                latency_ms: None,
                last_check: None,
            },
        };
        out.push(status);
        i = i + 1;
    }
    out
}

/// What a status report gives for a provider just after a probe result was
/// recorded for it: that result.
pub proof fn law_status_after_update(
    cache: Map<Seq<char>, HealthInfoView>,
    name: Seq<char>,
    info: HealthInfoView,
)
    ensures
        status_of(name, cache.insert(name, info)) == (ProviderStatusView {
            name: name,
            healthy: info.healthy,
            latency_ms: info.latency_ms,
            last_check: info.last_check,
        }),
{
}

/// Recording a probe result for one provider leaves the status of every
/// other provider as it was.
pub proof fn law_status_of_others_unchanged(
    cache: Map<Seq<char>, HealthInfoView>,
    name: Seq<char>,
    info: HealthInfoView,
    other: Seq<char>,
)
    requires
        other != name,
    ensures
        status_of(other, cache.insert(name, info)) == status_of(other, cache),
{
}

// ---------------------------------------------------------------------------
// Configuration bundles
// ---------------------------------------------------------------------------

/// The configuration that the server holds and can export or import.
#[derive(Debug)]
pub struct Settings {
    pub config: Config,
    pub providers: Vec<Provider>,
    pub routes: Vec<Route>,
}

/// The names of the parts of a bundle that are present, in the order
/// config, providers, routes.
pub open spec fn imported_parts(config: bool, providers: bool, routes: bool) -> Seq<Seq<char>> {
    (if config {
        seq!["config"@]
    } else {
        Seq::<Seq<char>>::empty()
    }) + (if providers {
        seq!["providers"@]
    } else {
        Seq::<Seq<char>>::empty()
    }) + (if routes {
        seq!["routes"@]
    } else {
        Seq::<Seq<char>>::empty()
    })
}

/// `POST /api/import`: each part present in the bundle replaces the one
/// held. Answers the names of the parts applied, in the order config,
/// providers, routes, or fails (400) when the bundle has none.
pub fn import_settings(
    settings: &mut Settings,
    config: Option<Config>,
    providers: Option<Vec<Provider>>,
    routes: Option<Vec<Route>>,
) -> (r: Result<Vec<&'static str>, String>)
    ensures
        final(settings).config@ == (match config {
            Some(c) => c@,
            None => old(settings).config@,
        }),
        views(final(settings).providers@) == (match providers {
            Some(p) => views(p@),
            None => views(old(settings).providers@),
        }),
        views(final(settings).routes@) == (match routes {
            Some(x) => views(x@),
            None => views(old(settings).routes@),
        }),
        match r {
            Err(e) => config is None && providers is None && routes is None && e@
                == "No valid configuration found in import data"@,
            Ok(applied) => !(config is None && providers is None && routes is None)
                && applied@.map_values(|s: &'static str| s@) == imported_parts(
                config is Some,
                providers is Some,
                routes is Some,
            ),
        },
{
    let mut applied: Vec<&'static str> = Vec::new();
    let ghost e0 = if config is Some {
        seq!["config"@]
    } else {
        Seq::<Seq<char>>::empty()
    };
    let ghost e1 = if providers is Some {
        seq!["providers"@]
    } else {
        Seq::<Seq<char>>::empty()
    };
    let ghost e2 = if routes is Some {
        seq!["routes"@]
    } else {
        Seq::<Seq<char>>::empty()
    };
    if let Some(c) = config {
        settings.config = c;
        applied.push("config");
    }
    assert(applied@.map_values(|s: &'static str| s@) =~= e0);
    if let Some(p) = providers {
        settings.providers = p;
        applied.push("providers");
    }
    assert(applied@.map_values(|s: &'static str| s@) =~= e0 + e1);
    if let Some(x) = routes {
        settings.routes = x;
        applied.push("routes");
    }
    assert(applied@.map_values(|s: &'static str| s@) =~= e0 + e1 + e2);
    if applied.len() == 0 {
        Err(owned("No valid configuration found in import data"))
    } else {
        Ok(applied)
    }
}

} // verus!

//! The router: which provider a request for a model goes to, and under which
//! model name.
//!
//! A rule's pattern is `*` (any model), `prefix*`, `*suffix`, or an exact
//! name. Of the rules whose pattern matches, the one with the lowest priority
//! number wins, the earliest among equals. Its provider is used if a provider
//! of that name is enabled; otherwise, and when no rule matches, the first
//! enabled provider takes the request under the requested model name.

use vstd::prelude::*;
use vstd::string::*;

use crate::error::TrestleError;
use crate::model::{views, Provider, ProviderView, Route, RouteView};
use crate::text::{
    chars_of, ends_with, owned, replace_all, replace_all_exec, seq_ends_with, seq_starts_with,
    starts_with, string_of,
};

verus! {

// ---------------------------------------------------------------------------
// Patterns
// ---------------------------------------------------------------------------

/// Whether the rule pattern `p` matches the model name `v`.
pub open spec fn pattern_matches(p: Seq<char>, v: Seq<char>) -> bool {
    if p == seq!['*'] {
        true
    } else if p.len() > 0 && p.last() == '*' {
        seq_starts_with(v, p.drop_last())
    } else if p.len() > 0 && p[0] == '*' {
        seq_ends_with(v, p.skip(1))
    } else {
        p == v
    }
}

/// Whether the rule pattern `pattern` matches the model name `value`:
/// `*` matches everything, `prefix*` the names that begin with `prefix`,
/// `*suffix` those that end with `suffix`, any other pattern only itself.
pub fn matches_pattern(pattern: &str, value: &str) -> (r: bool)
    ensures
        r == pattern_matches(pattern@, value@),
{
    let p = chars_of(pattern);
    let v = chars_of(value);
    let n = p.len();
    if n == 1 && p[0] == '*' {
        assert(p@ =~= seq!['*']);
        return true;
    }
    assert(p@ != seq!['*']);
    if n > 0 && p[n - 1] == '*' {
        let mut prefix = p.clone();
        prefix.pop();
        assert(prefix@ =~= p@.drop_last());
        starts_with(&v, &prefix)
    } else if n > 0 && p[0] == '*' {
        let mut suffix: Vec<char> = Vec::new();
        let mut i: usize = 1;
        while i < n
            invariant
                1 <= i <= n,
                n == p@.len(),
                suffix@ == p@.subrange(1, i as int),
            decreases n - i,
        {
            suffix.push(p[i]);
            assert(suffix@ =~= p@.subrange(1, i + 1));
            i = i + 1;
        }
        assert(suffix@ =~= p@.skip(1));
        ends_with(&v, &suffix)
    } else {
        let r = p.len() == v.len() && starts_with(&v, &p);
        proof {
            if p@.len() == v@.len() {
                assert(v@.subrange(0, p@.len() as int) =~= v@);
            }
        }
        r
    }
}

// ---------------------------------------------------------------------------
// Choosing a rule
// ---------------------------------------------------------------------------

/// Rule `r` applies to requests for `model`.
pub open spec fn route_applies(r: RouteView, model: Seq<char>) -> bool {
    pattern_matches(r.pattern, model)
}

/// Rule `i` is the one chosen for `model`: it applies, no applicable rule
/// has a lower priority number, and every applicable rule before it has a
/// higher one.
pub open spec fn is_chosen_route(routes: Seq<RouteView>, model: Seq<char>, i: int) -> bool {
    &&& 0 <= i < routes.len()
    &&& route_applies(routes[i], model)
    &&& forall|j: int|
        0 <= j < routes.len() && #[trigger] route_applies(routes[j], model) ==> routes[i].priority
            <= routes[j].priority
    &&& forall|j: int|
        0 <= j < i && #[trigger] route_applies(routes[j], model) ==> routes[i].priority
            < routes[j].priority
}

/// The index of the rule chosen for `model`, if any rule applies.
pub open spec fn chosen_route(routes: Seq<RouteView>, model: Seq<char>) -> Option<int> {
    if exists|i: int| is_chosen_route(routes, model, i) {
        Some(choose|i: int| is_chosen_route(routes, model, i))
    } else {
        None
    }
}

/// At most one rule is chosen.
pub proof fn lemma_chosen_route_unique(routes: Seq<RouteView>, model: Seq<char>, i: int, j: int)
    requires
        is_chosen_route(routes, model, i),
        is_chosen_route(routes, model, j),
    ensures
        i == j,
{
    if i < j {
        assert(route_applies(routes[i], model));
    } else if j < i {
        assert(route_applies(routes[j], model));
    }
}

/// The index of the rule that decides where a request for `model` goes:
/// among the rules whose pattern matches, the lowest priority number, and
/// the earliest of those; `None` when no pattern matches.
pub fn choose_route(routes: &Vec<Route>, model: &str) -> (r: Option<usize>)
    ensures
        r == (match chosen_route(views(routes@), model@) {
            Some(i) => Some(i as usize),
            None => None::<usize>,
        }),
        r matches Some(i) ==> is_chosen_route(views(routes@), model@, i as int),
        r is None ==> forall|j: int|
            0 <= j < routes@.len() ==> !route_applies(#[trigger] views(routes@)[j], model@),
{
    let ghost rs = views(routes@);
    let mut best: Option<usize> = None;
    let mut k: usize = 0;
    while k < routes.len()
        invariant
            rs == views(routes@),
            k <= routes.len(),
            best matches Some(b) ==> {
                &&& b < k
                &&& route_applies(rs[b as int], model@)
                &&& forall|j: int|
                    0 <= j < k && #[trigger] route_applies(rs[j], model@) ==> rs[b as int].priority
                        <= rs[j].priority
                &&& forall|j: int|
                    0 <= j < b && #[trigger] route_applies(rs[j], model@) ==> rs[b as int].priority
                        < rs[j].priority
            },
            best is None ==> forall|j: int| 0 <= j < k ==> !route_applies(#[trigger] rs[j], model@),
        decreases routes.len() - k,
    {
        let applies = matches_pattern(routes[k].pattern.as_str(), model);
        assert(rs[k as int] == routes@[k as int]@);
        if applies {
            match best {
                Some(b) => {
                    if routes[k].priority < routes[b].priority {
                        best = Some(k);
                    }
                },
                None => {
                    best = Some(k);
                },
            }
        }
        k = k + 1;
    }
    match best {
        Some(b) => {
            assert(is_chosen_route(rs, model@, b as int));
            proof {
                let c = choose|i: int| is_chosen_route(rs, model@, i);
                lemma_chosen_route_unique(rs, model@, c, b as int);
            }
        },
        None => {
            assert(!exists|i: int| is_chosen_route(rs, model@, i));
        },
    }
    best
}

// ---------------------------------------------------------------------------
// Target model names
// ---------------------------------------------------------------------------

/// The model name sent upstream: the rule's template with every `${model}`
/// replaced by the requested name, or the requested name when the rule has
/// no template.
pub open spec fn target_model(template: Option<Seq<char>>, model: Seq<char>) -> Seq<char> {
    match template {
        Some(t) => replace_all(t, "${model}"@, model),
        None => model,
    }
}

/// The model name sent upstream for a request for `model` under a rule with
/// the given template.
pub fn expand_model_template(template: &Option<String>, model: &str) -> (r: String)
    ensures
        r@ == target_model(match template {
            Some(t) => Some(t@),
            None => None,
        }, model@),
{
    match template {
        Some(t) => {
            let tv = chars_of(t.as_str());
            let pat = chars_of("${model}");
            proof {
                reveal_strlit("${model}");
            }
            let rep = chars_of(model);
            let out = replace_all_exec(&tv, &pat, &rep);
            string_of(&out)
        },
        None => owned(model),
    }
}

// ---------------------------------------------------------------------------
// Choosing a provider
// ---------------------------------------------------------------------------

/// Provider `k` is the first enabled one named `name`.
pub open spec fn is_first_enabled_named(ps: Seq<ProviderView>, name: Seq<char>, k: int) -> bool {
    &&& 0 <= k < ps.len()
    &&& ps[k].enabled
    &&& ps[k].name == name
    &&& forall|j: int| 0 <= j < k ==> !(#[trigger] ps[j].enabled && ps[j].name == name)
}

/// Provider `k` is the first enabled one.
pub open spec fn is_first_enabled(ps: Seq<ProviderView>, k: int) -> bool {
    &&& 0 <= k < ps.len()
    &&& ps[k].enabled
    &&& forall|j: int| 0 <= j < k ==> !(#[trigger] ps[j].enabled)
}

/// Where a request for `model` goes: the index of the provider and the
/// model name sent to it, or the reason why it goes nowhere.
pub open spec fn route_decision(
    routes: Seq<RouteView>,
    ps: Seq<ProviderView>,
    model: Seq<char>,
) -> Result<(int, Seq<char>), Seq<char>> {
    if ps.len() == 0 {
        Err("No providers configured"@)
    } else {
        let via_rule: Option<(int, Seq<char>)> = match chosen_route(routes, model) {
            Some(i) => if exists|k: int| is_first_enabled_named(ps, routes[i].provider, k) {
                Some(
                    (
                        choose|k: int| is_first_enabled_named(ps, routes[i].provider, k),
                        target_model(routes[i].model, model),
                    ),
                )
            } else {
                None
            },
            None => None,
        };
        match via_rule {
            Some(d) => Ok(d),
            None => if exists|k: int| is_first_enabled(ps, k) {
                Ok((choose|k: int| is_first_enabled(ps, k), model))
            } else {
                Err("No enabled providers"@)
            },
        }
    }
}

/// The index of the first enabled provider named `name`.
pub fn find_enabled_provider(providers: &Vec<Provider>, name: &String) -> (r: Option<usize>)
    ensures
        r matches Some(k) ==> is_first_enabled_named(views(providers@), name@, k as int),
        r is None ==> !exists|k: int| is_first_enabled_named(views(providers@), name@, k),
{
    let ghost ps = views(providers@);
    let mut k: usize = 0;
    while k < providers.len()
        invariant
            ps == views(providers@),
            k <= providers.len(),
            forall|j: int| 0 <= j < k ==> !(#[trigger] ps[j].enabled && ps[j].name == name@),
        decreases providers.len() - k,
    {
        assert(ps[k as int] == providers@[k as int]@);
        if providers[k].enabled && providers[k].name == *name {
            return Some(k);
        }
        k = k + 1;
    }
    None
}

/// The index of the first enabled provider.
pub fn find_first_enabled(providers: &Vec<Provider>) -> (r: Option<usize>)
    ensures
        r matches Some(k) ==> is_first_enabled(views(providers@), k as int),
        r is None ==> !exists|k: int| is_first_enabled(views(providers@), k),
{
    let ghost ps = views(providers@);
    let mut k: usize = 0;
    while k < providers.len()
        invariant
            ps == views(providers@),
            k <= providers.len(),
            forall|j: int| 0 <= j < k ==> !(#[trigger] ps[j].enabled),
        decreases providers.len() - k,
    {
        assert(ps[k as int] == providers@[k as int]@);
        if providers[k].enabled {
            return Some(k);
        }
        k = k + 1;
    }
    None
}

/// Where a request for `model` goes: the provider, and the model name to
/// send it. Fails when no provider is configured, or none is enabled.
pub fn match_route(routes: &Vec<Route>, providers: &Vec<Provider>, model: &str) -> (r: Result<
    (Provider, String),
    TrestleError,
>)
    ensures
        match r {
            Ok((p, m)) => route_decision(views(routes@), views(providers@), model@) matches Ok(
                (k, tm),
            ) && 0 <= k < providers@.len() && p@ == providers@[k]@ && m@ == tm,
            Err(e) => route_decision(views(routes@), views(providers@), model@) matches Err(msg)
                && e matches TrestleError::Route(s) && s@ == msg,
        },
{
    let ghost rs = views(routes@);
    let ghost ps = views(providers@);
    if providers.len() == 0 {
        return Err(TrestleError::Route(owned("No providers configured")));
    }
    let chosen = choose_route(routes, model);
    if let Some(i) = chosen {
        let found = find_enabled_provider(providers, &routes[i].provider);
        assert(rs[i as int] == routes@[i as int]@);
        if let Some(k) = found {
            proof {
                let c = choose|c: int| is_first_enabled_named(ps, rs[i as int].provider, c);
                assert(is_first_enabled_named(ps, rs[i as int].provider, c));
                if c < k {
                    assert(!(ps[c].enabled && ps[c].name == rs[i as int].provider));
                } else if k < c {
                    assert(!(ps[k as int].enabled && ps[k as int].name == rs[i as int].provider));
                }
            }
            let target = expand_model_template(&routes[i].model, model);
            assert(ps[k as int] == providers@[k as int]@);
            return Ok((providers[k].clone(), target));
        }
    }
    match find_first_enabled(providers) {
        Some(k) => {
            proof {
                let c = choose|c: int| is_first_enabled(ps, c);
                assert(is_first_enabled(ps, c));
                if c < k {
                    assert(!ps[c].enabled);
                } else if k < c {
                    assert(!ps[k as int].enabled);
                }
            }
            assert(ps[k as int] == providers@[k as int]@);
            Ok((providers[k].clone(), owned(model)))
        },
        None => Err(TrestleError::Route(owned("No enabled providers"))),
    }
}


/// Some enabled provider comes first among the enabled ones.
proof fn lemma_first_enabled_exists(ps: Seq<ProviderView>, j: int)
    requires
        0 <= j < ps.len(),
        ps[j].enabled,
    ensures
        exists|k: int| is_first_enabled(ps, k),
    decreases j,
{
    if exists|i: int| 0 <= i < j && #[trigger] ps[i].enabled {
        let i = choose|i: int| 0 <= i < j && #[trigger] ps[i].enabled;
        lemma_first_enabled_exists(ps, i);
    } else {
        assert(is_first_enabled(ps, j));
    }
}

/// A request is forwarded exactly when some provider is enabled; it then
/// always goes to an enabled provider.
pub proof fn law_forwarded_iff_enabled_provider(
    routes: Seq<RouteView>,
    ps: Seq<ProviderView>,
    model: Seq<char>,
)
    ensures
        route_decision(routes, ps, model) is Ok <==> exists|k: int|
            0 <= k < ps.len() && #[trigger] ps[k].enabled,
        route_decision(routes, ps, model) matches Ok((k, _)) ==> 0 <= k < ps.len()
            && ps[k].enabled,
{
    if exists|k: int| 0 <= k < ps.len() && #[trigger] ps[k].enabled {
        let j = choose|k: int| 0 <= k < ps.len() && #[trigger] ps[k].enabled;
        lemma_first_enabled_exists(ps, j);
    }
    match chosen_route(routes, model) {
        Some(i) => {
            if exists|k: int| is_first_enabled_named(ps, routes[i].provider, k) {
                let k = choose|k: int| is_first_enabled_named(ps, routes[i].provider, k);
                assert(ps[k].enabled);
            }
        },
        None => {},
    }
    if exists|k: int| is_first_enabled(ps, k) {
        let k = choose|k: int| is_first_enabled(ps, k);
        assert(ps[k].enabled);
    }
}

/// What each kind of pattern matches, character by character: `*`
/// everything; `prefix*` the names that are at least as long as the prefix
/// and agree with it at its start; `*suffix` the names that are at least as
/// long as the suffix and agree with it at their end (an occurrence
/// elsewhere is no match); any other pattern only the name equal to it.
pub proof fn law_pattern_kinds(p: Seq<char>, v: Seq<char>)
    ensures
        p == seq!['*'] ==> pattern_matches(p, v),
        p.len() >= 2 && p.last() == '*' ==> (pattern_matches(p, v) <==> (p.len() - 1 <= v.len()
            && forall|i: int| 0 <= i < p.len() - 1 ==> #[trigger] v[i] == p[i])),
        p.len() >= 2 && p[0] == '*' && p.last() != '*' ==> (pattern_matches(p, v) <==> (p.len()
            - 1 <= v.len() && forall|i: int|
            1 <= i < p.len() ==> #[trigger] v[v.len() - p.len() + i] == p[i])),
        (p.len() == 0 || (p[0] != '*' && p.last() != '*')) ==> (pattern_matches(p, v) <==> p
            == v),
{
    if p.len() >= 2 && p.last() == '*' {
        let q = p.drop_last();
        if p.len() - 1 <= v.len() && forall|i: int| 0 <= i < p.len() - 1 ==> #[trigger] v[i] == p[i] {
            assert(v.subrange(0, q.len() as int) =~= q);
        }
        if pattern_matches(p, v) {
            assert(p != seq!['*']);
            assert forall|i: int| 0 <= i < p.len() - 1 implies #[trigger] v[i] == p[i] by {
                assert(v.subrange(0, q.len() as int)[i] == q[i]);
            }
        }
    }
    if p.len() >= 2 && p[0] == '*' && p.last() != '*' {
        let q = p.skip(1);
        assert(p != seq!['*']);
        if p.len() - 1 <= v.len() && forall|i: int|
            1 <= i < p.len() ==> #[trigger] v[v.len() - p.len() + i] == p[i] {
            assert forall|j: int| 0 <= j < q.len() implies v.subrange(
                v.len() - q.len(),
                v.len() as int,
            )[j] == q[j] by {
                assert(v[v.len() - p.len() + (j + 1)] == p[j + 1]);
            }
            assert(v.subrange(v.len() - q.len(), v.len() as int) =~= q);
        }
        if pattern_matches(p, v) {
            assert forall|i: int| 1 <= i < p.len() implies #[trigger] v[v.len() - p.len() + i]
                == p[i] by {
                assert(v.subrange(v.len() - q.len(), v.len() as int)[i - 1] == q[i - 1]);
            }
        }
    }
    if p.len() == 1 && p[0] == '*' {
        assert(p =~= seq!['*']);
    }
    if p.len() > 0 && p[0] != '*' && p.last() != '*' {
        assert(p != seq!['*']);
    }
}

/// The rule with the lowest priority number among those whose pattern
/// matches, the earliest among equals, decides, wherever it stands in the
/// list: when an enabled provider bears its provider's name, the request
/// goes to the first such provider, under the rule's template (or under the
/// requested name when the rule has none).
pub proof fn law_lowest_priority_rule_decides(
    routes: Seq<RouteView>,
    ps: Seq<ProviderView>,
    model: Seq<char>,
    i: int,
    k: int,
)
    requires
        0 <= i < routes.len(),
        pattern_matches(routes[i].pattern, model),
        forall|j: int|
            0 <= j < routes.len() && #[trigger] pattern_matches(routes[j].pattern, model)
                ==> routes[i].priority <= routes[j].priority,
        forall|j: int|
            0 <= j < i && #[trigger] pattern_matches(routes[j].pattern, model) ==> routes[i].priority
                < routes[j].priority,
        0 <= k < ps.len(),
        ps[k].enabled,
        ps[k].name == routes[i].provider,
        forall|j: int| 0 <= j < k ==> !(#[trigger] ps[j].enabled && ps[j].name == routes[i].provider),
    ensures
        route_decision(routes, ps, model) == Ok::<(int, Seq<char>), Seq<char>>(
            (
                k,
                match routes[i].model {
                    Some(t) => replace_all(t, "${model}"@, model),
                    None => model,
                },
            ),
        ),
{
    assert(is_chosen_route(routes, model, i));
    let c = choose|c: int| is_chosen_route(routes, model, c);
    lemma_chosen_route_unique(routes, model, c, i);
    assert(is_first_enabled_named(ps, routes[i].provider, k));
    let d = choose|d: int| is_first_enabled_named(ps, routes[i].provider, d);
    if d < k {
        assert(!(ps[d].enabled && ps[d].name == routes[i].provider));
    } else if k < d {
        assert(!(ps[k].enabled && ps[k].name == routes[i].provider));
    }
}

/// When no rule's pattern matches, the request goes to the first enabled
/// provider under the requested name.
pub proof fn law_unmatched_goes_to_first_enabled(
    routes: Seq<RouteView>,
    ps: Seq<ProviderView>,
    model: Seq<char>,
    k: int,
)
    requires
        forall|j: int| 0 <= j < routes.len() ==> !#[trigger] pattern_matches(routes[j].pattern, model),
        0 <= k < ps.len(),
        ps[k].enabled,
        forall|j: int| 0 <= j < k ==> !#[trigger] ps[j].enabled,
    ensures
        route_decision(routes, ps, model) == Ok::<(int, Seq<char>), Seq<char>>((k, model)),
{
    assert(!exists|i: int| is_chosen_route(routes, model, i));
    assert(is_first_enabled(ps, k));
    let d = choose|d: int| is_first_enabled(ps, d);
    if d < k {
        assert(!ps[d].enabled);
    } else if k < d {
        assert(!ps[k].enabled);
    }
}

/// When the deciding rule names a provider that no enabled provider bears,
/// the request goes to the first enabled provider under the requested name.
pub proof fn law_disabled_rule_provider_falls_back(
    routes: Seq<RouteView>,
    ps: Seq<ProviderView>,
    model: Seq<char>,
    i: int,
    k: int,
)
    requires
        0 <= i < routes.len(),
        pattern_matches(routes[i].pattern, model),
        forall|j: int|
            0 <= j < routes.len() && #[trigger] pattern_matches(routes[j].pattern, model)
                ==> routes[i].priority <= routes[j].priority,
        forall|j: int|
            0 <= j < i && #[trigger] pattern_matches(routes[j].pattern, model) ==> routes[i].priority
                < routes[j].priority,
        forall|j: int| 0 <= j < ps.len() ==> !(#[trigger] ps[j].enabled && ps[j].name == routes[i].provider),
        0 <= k < ps.len(),
        ps[k].enabled,
        forall|j: int| 0 <= j < k ==> !#[trigger] ps[j].enabled,
    ensures
        route_decision(routes, ps, model) == Ok::<(int, Seq<char>), Seq<char>>((k, model)),
{
    assert(is_chosen_route(routes, model, i));
    let c = choose|c: int| is_chosen_route(routes, model, c);
    lemma_chosen_route_unique(routes, model, c, i);
    assert(!exists|d: int| is_first_enabled_named(ps, routes[i].provider, d));
    assert(is_first_enabled(ps, k));
    let d = choose|d: int| is_first_enabled(ps, d);
    if d < k {
        assert(!ps[d].enabled);
    } else if k < d {
        assert(!ps[k].enabled);
    }
}

} // verus!

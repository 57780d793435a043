//! Management of the provider list and of the routing rules, as the
//! `/api/providers` and `/api/routes` endpoints perform it: each operation
//! changes the list and gives the status code and body of the answer.
//!
//! Provider names identify providers: a provider can only be added under a
//! name that is not taken, and an update keeps the name. Routing rules are
//! kept ordered by priority, stably: rules of equal priority keep their
//! relative order.

use vstd::prelude::*;
use vstd::seq_lib::*;
use vstd::string::*;

use crate::model::{views, Provider, ProviderView, Route, RouteView};
use crate::text::{concat3, owned};

verus! {

/// The body of an answer of the management API.
#[derive(Debug)]
pub enum ApiResponse<T> {
    Data(T),
    Error { error: String },
    Success { success: bool, message: Option<String> },
}

// ---------------------------------------------------------------------------
// Providers
// ---------------------------------------------------------------------------

/// Some provider in `ps` is named `name`.
pub open spec fn has_provider_named(ps: Seq<ProviderView>, name: Seq<char>) -> bool {
    exists|j: int| 0 <= j < ps.len() && #[trigger] ps[j].name == name
}

/// Provider `k` is the first one named `name`.
pub open spec fn is_first_named(ps: Seq<ProviderView>, name: Seq<char>, k: int) -> bool {
    &&& 0 <= k < ps.len()
    &&& ps[k].name == name
    &&& forall|j: int| 0 <= j < k ==> #[trigger] ps[j].name != name
}

/// `p` under the name `name`.
pub open spec fn renamed(p: ProviderView, name: Seq<char>) -> ProviderView {
    ProviderView { name: name, ..p }
}

/// The providers of `ps` that are not named `name`, in order.
pub open spec fn without_provider(ps: Seq<ProviderView>, name: Seq<char>) -> Seq<ProviderView> {
    ps.filter(|p: ProviderView| p.name != name)
}

/// No two providers of `ps` share a name.
pub open spec fn names_unique(ps: Seq<ProviderView>) -> bool {
    forall|i: int, j: int| 0 <= i < j < ps.len() ==> #[trigger] ps[i].name != #[trigger] ps[j].name
}

/// The index of the first provider named `name`.
pub fn find_provider(providers: &Vec<Provider>, name: &str) -> (r: Option<usize>)
    ensures
        r matches Some(k) ==> is_first_named(views(providers@), name@, k as int),
        r is None ==> !has_provider_named(views(providers@), name@),
{
    let ghost ps = views(providers@);
    let target = owned(name);
    let mut k: usize = 0;
    while k < providers.len()
        invariant
            ps == views(providers@),
            target@ == name@,
            k <= providers.len(),
            forall|j: int| 0 <= j < k ==> #[trigger] ps[j].name != name@,
        decreases providers.len() - k,
    {
        assert(ps[k as int] == providers@[k as int]@);
        if providers[k].name == target {
            return Some(k);
        }
        k = k + 1;
    }
    None
}

/// `POST /api/providers`: adds `provider` at the end of the list, unless a
/// provider of that name exists (409).
pub fn create_provider(providers: &mut Vec<Provider>, provider: Provider) -> (r: (
    u16,
    ApiResponse<Provider>,
))
    ensures
        has_provider_named(views(old(providers)@), provider@.name) ==> {
            &&& final(providers)@ == old(providers)@
            &&& r.0 == 409
            &&& r.1 matches ApiResponse::Error { error } && error@ == "Provider already exists"@
        },
        !has_provider_named(views(old(providers)@), provider@.name) ==> {
            &&& views(final(providers)@) == views(old(providers)@).push(provider@)
            &&& r.0 == 201
            &&& r.1 matches ApiResponse::Data(p) && p@ == provider@
        },
{
    if find_provider(providers, provider.name.as_str()).is_some() {
        return (409, ApiResponse::Error { error: owned("Provider already exists") });
    }
    let answer = provider.clone();
    let ghost before = providers@;
    providers.push(provider);
    assert(views(providers@) =~= views(before).push(answer@));
    (201, ApiResponse::Data(answer))
}

/// The message of a 404 answer about the provider `name`.
pub open spec fn provider_not_found(name: Seq<char>) -> Seq<char> {
    "Provider '"@ + name + "' not found"@
}

/// `PUT /api/providers/{name}`: replaces the first provider named `name` by
/// `provider`, which keeps the name `name`; 404 when there is none.
pub fn update_provider(providers: &mut Vec<Provider>, name: String, provider: Provider) -> (r: (
    u16,
    ApiResponse<Provider>,
))
    ensures
        forall|k: int|
            is_first_named(views(old(providers)@), name@, k) ==> {
                &&& views(final(providers)@) == views(old(providers)@).update(
                    k,
                    renamed(provider@, name@),
                )
                &&& r.0 == 200
                &&& r.1 matches ApiResponse::Data(p) && p@ == renamed(provider@, name@)
            },
        !has_provider_named(views(old(providers)@), name@) ==> {
            &&& final(providers)@ == old(providers)@
            &&& r.0 == 404
            &&& r.1 matches ApiResponse::Error { error } && error@ == provider_not_found(name@)
        },
{
    let ghost ps = views(providers@);
    match find_provider(providers, name.as_str()) {
        Some(k) => {
            let mut updated = provider;
            updated.name = name;
            let answer = updated.clone();
            let ghost before = providers@;
            providers.set(k, updated);
            proof {
                assert(views(providers@) =~= ps.update(k as int, answer@));
                assert forall|c: int| is_first_named(ps, name@, c) implies c == k as int by {
                    if c < k {
                        assert(ps[c].name != name@);
                    } else if k < c {
                        assert(ps[k as int].name != name@);
                    }
                }
            }
            (200, ApiResponse::Data(answer))
        },
        None => {
            let error = concat3("Provider '", name.as_str(), "' not found");
            (404, ApiResponse::Error { error })
        },
    }
}

/// `DELETE /api/providers/{name}`: removes every provider named `name`;
/// 404 when there is none.
pub fn delete_provider(providers: &mut Vec<Provider>, name: &str) -> (r: (u16, ApiResponse<()>))
    ensures
        views(final(providers)@) == without_provider(views(old(providers)@), name@),
        has_provider_named(views(old(providers)@), name@) ==> {
            &&& r.0 == 200
            &&& r.1 matches ApiResponse::Success { success, message } && success && message is None
        },
        !has_provider_named(views(old(providers)@), name@) ==> {
            &&& r.0 == 404
            &&& r.1 matches ApiResponse::Error { error } && error@ == provider_not_found(name@)
        },
{
    let ghost ps = views(providers@);
    let target = owned(name);
    let mut kept: Vec<Provider> = Vec::new();
    let mut removed = false;
    let mut i: usize = 0;
    while i < providers.len()
        invariant
            ps == views(providers@),
            target@ == name@,
            i <= providers.len(),
            views(kept@) == without_provider(ps.take(i as int), name@),
            removed == exists|j: int| 0 <= j < i && #[trigger] ps[j].name == name@,
        decreases providers.len() - i,
    {
        assert(ps[i as int] == providers@[i as int]@);
        assert(ps.take(i + 1) =~= ps.take(i as int).push(ps[i as int]));
        let ghost before = kept@;
        proof {
            ps.take(i as int).lemma_filter_push(ps[i as int], |q: ProviderView| q.name != name@);
        }
        if providers[i].name == target {
            assert(ps[i as int].name == name@);
            removed = true;
        } else {
            kept.push(providers[i].clone());
            assert(views(kept@) =~= views(before).push(ps[i as int]));
        }
        i = i + 1;
    }
    assert(ps.take(providers.len() as int) =~= ps);
    *providers = kept;
    if removed {
        (200, ApiResponse::Success { success: true, message: None })
    } else {
        let error = concat3("Provider '", name, "' not found");
        (404, ApiResponse::Error { error })
    }
}

// ---------------------------------------------------------------------------
// Laws of the provider list
// ---------------------------------------------------------------------------

/// Deleting the provider that was just created gives back the list as it
/// was.
pub proof fn law_delete_undoes_create(ps: Seq<ProviderView>, p: ProviderView)
    requires
        !has_provider_named(ps, p.name),
    ensures
        without_provider(ps.push(p), p.name) == ps,
{
    lemma_without_absent(ps, p.name);
    let pred = |q: ProviderView| q.name != p.name;
    ps.lemma_filter_push(p, pred);
}

/// Removing a name that no provider has changes nothing.
pub proof fn lemma_without_absent(ps: Seq<ProviderView>, name: Seq<char>)
    requires
        !has_provider_named(ps, name),
    ensures
        without_provider(ps, name) == ps,
    decreases ps.len(),
{
    reveal(Seq::filter);
    if ps.len() > 0 {
        let rest = ps.drop_last();
        assert forall|j: int| 0 <= j < rest.len() implies #[trigger] rest[j].name != name by {
            assert(ps[j].name != name);
        }
        lemma_without_absent(rest, name);
        assert(ps.last().name != name);
        assert(rest.push(ps.last()) =~= ps);
    }
}

/// After a deletion no provider has the deleted name, and every provider
/// that remains was there before.
pub proof fn law_delete_removes_name(ps: Seq<ProviderView>, name: Seq<char>)
    ensures
        !has_provider_named(without_provider(ps, name), name),
        forall|j: int|
            0 <= j < without_provider(ps, name).len() ==> ps.contains(
                #[trigger] without_provider(ps, name)[j],
            ),
{
    let pred = |q: ProviderView| q.name != name;
    let w = ps.filter(pred);
    assert forall|j: int| 0 <= j < w.len() implies #[trigger] w[j].name != name by {
        ps.lemma_filter_pred(pred, j);
    }
    assert forall|j: int| 0 <= j < w.len() implies ps.contains(#[trigger] w[j]) by {
        lemma_filter_element_in_source(ps, pred, j);
    }
}

/// Every element of a filtered sequence comes from the source.
pub proof fn lemma_filter_element_in_source<A>(s: Seq<A>, pred: spec_fn(A) -> bool, j: int)
    requires
        0 <= j < s.filter(pred).len(),
    ensures
        s.contains(s.filter(pred)[j]),
    decreases s.len(),
{
    reveal(Seq::filter);
    if s.len() > 0 {
        let rest = s.drop_last();
        if j < rest.filter(pred).len() {
            lemma_filter_element_in_source(rest, pred, j);
            let k = choose|k: int| 0 <= k < rest.len() && rest[k] == rest.filter(pred)[j];
            assert(s[k] == rest[k]);
        } else {
            assert(s[s.len() - 1] == s.filter(pred)[j]);
        }
    }
}

/// Adding a provider under a new name keeps names unique.
pub proof fn law_create_keeps_names_unique(ps: Seq<ProviderView>, p: ProviderView)
    requires
        names_unique(ps),
        !has_provider_named(ps, p.name),
    ensures
        names_unique(ps.push(p)),
{
    let q = ps.push(p);
    assert forall|i: int, j: int| 0 <= i < j < q.len() implies #[trigger] q[i].name
        != #[trigger] q[j].name by {
        if j == ps.len() {
            assert(ps[i].name != p.name);
        }
    }
}

/// Updating a provider keeps names unique.
pub proof fn law_update_keeps_names_unique(
    ps: Seq<ProviderView>,
    name: Seq<char>,
    k: int,
    p: ProviderView,
)
    requires
        names_unique(ps),
        is_first_named(ps, name, k),
    ensures
        names_unique(ps.update(k, renamed(p, name))),
{
    let q = ps.update(k, renamed(p, name));
    assert forall|i: int, j: int| 0 <= i < j < q.len() implies #[trigger] q[i].name
        != #[trigger] q[j].name by {
        if i == k {
            assert(ps[k].name != ps[j].name);
        } else if j == k {
            assert(ps[i].name != ps[k].name);
        } else {
            assert(ps[i].name != ps[j].name);
        }
    }
}

/// Deleting keeps names unique.
pub proof fn law_delete_keeps_names_unique(ps: Seq<ProviderView>, name: Seq<char>)
    requires
        names_unique(ps),
    ensures
        names_unique(without_provider(ps, name)),
    decreases ps.len(),
{
    reveal(Seq::filter);
    if ps.len() > 0 {
        let rest = ps.drop_last();
        assert(names_unique(rest)) by {
            assert forall|i: int, j: int| 0 <= i < j < rest.len() implies #[trigger] rest[i].name
                != #[trigger] rest[j].name by {
                assert(ps[i].name != ps[j].name);
            }
        }
        law_delete_keeps_names_unique(rest, name);
        let w = without_provider(rest, name);
        let x = ps.last();
        if x.name != name {
            assert(without_provider(ps, name) == w.push(x));
            assert forall|j: int| 0 <= j < w.len() implies #[trigger] w[j].name != x.name by {
                lemma_filter_element_in_source(rest, |q: ProviderView| q.name != name, j);
                let m = choose|m: int| 0 <= m < rest.len() && rest[m] == w[j];
                assert(ps[m].name != ps[ps.len() - 1].name);
            }
            let q = w.push(x);
            assert forall|i: int, j: int| 0 <= i < j < q.len() implies #[trigger] q[i].name
                != #[trigger] q[j].name by {
                if j == w.len() {
                    assert(w[i].name != x.name);
                } else {
                    assert(w[i].name != w[j].name);
                }
            }
        }
    }
}

// ---------------------------------------------------------------------------
// Routes
// ---------------------------------------------------------------------------

/// The rules of `s` with priority `p`, in order.
pub open spec fn routes_with_priority(s: Seq<RouteView>, p: u32) -> Seq<RouteView> {
    s.filter(|r: RouteView| r.priority == p)
}

/// The rules of `s` are in ascending order of priority number.
pub open spec fn sorted_by_priority(s: Seq<RouteView>) -> bool {
    forall|i: int, j: int| 0 <= i < j < s.len() ==> #[trigger] s[i].priority <= #[trigger] s[j].priority
}

/// `r` is `s` ordered by priority number, stably: it is sorted, and for each
/// priority the rules of that priority appear in the same order as in `s`.
pub open spec fn is_priority_sorting_of(r: Seq<RouteView>, s: Seq<RouteView>) -> bool {
    &&& sorted_by_priority(r)
    &&& forall|p: u32| #[trigger] routes_with_priority(r, p) == routes_with_priority(s, p)
}

/// No rule of `s` has priority `p`.
proof fn lemma_no_priority(s: Seq<RouteView>, p: u32)
    requires
        forall|j: int| 0 <= j < s.len() ==> #[trigger] s[j].priority != p,
    ensures
        routes_with_priority(s, p) == Seq::<RouteView>::empty(),
    decreases s.len(),
{
    reveal(Seq::filter);
    if s.len() > 0 {
        let rest = s.drop_last();
        assert forall|j: int| 0 <= j < rest.len() implies #[trigger] rest[j].priority != p by {
            assert(s[j].priority != p);
        }
        lemma_no_priority(rest, p);
    }
}

/// Inserting `x` into a sorted sequence between the rules of lower or equal
/// priority number and those of higher keeps it sorted.
proof fn lemma_insert_keeps_sorted(r: Seq<RouteView>, pos: int, x: RouteView)
    requires
        sorted_by_priority(r),
        0 <= pos <= r.len(),
        forall|j: int| 0 <= j < pos ==> #[trigger] r[j].priority <= x.priority,
        forall|j: int| pos <= j < r.len() ==> #[trigger] r[j].priority > x.priority,
    ensures
        sorted_by_priority(r.insert(pos, x)),
{
    let q = r.insert(pos, x);
    assert forall|i: int, j: int| 0 <= i < j < q.len() implies #[trigger] q[i].priority
        <= #[trigger] q[j].priority by {
        if j < pos {
            assert(q[i] == r[i] && q[j] == r[j]);
            assert(r[i].priority <= r[j].priority);
        } else if j == pos {
            assert(q[i] == r[i]);
            assert(r[i].priority <= x.priority);
        } else if i < pos {
            assert(q[i] == r[i] && q[j] == r[j - 1]);
            assert(r[i].priority <= x.priority);
            assert(r[j - 1].priority > x.priority);
        } else if i == pos {
            assert(q[j] == r[j - 1]);
            assert(r[j - 1].priority > x.priority);
        } else {
            assert(q[i] == r[i - 1] && q[j] == r[j - 1]);
            assert(r[i - 1].priority <= r[j - 1].priority);
        }
    }
}

/// The filter of a one-element sequence.
proof fn lemma_filter_single<A>(x: A, pred: spec_fn(A) -> bool)
    ensures
        seq![x].filter(pred) == (if pred(x) {
            seq![x]
        } else {
            Seq::<A>::empty()
        }),
{
    assert(Seq::<A>::empty().push(x) =~= seq![x]);
    Seq::<A>::empty().lemma_filter_push(x, pred);
    assert(Seq::<A>::empty().filter(pred) =~= Seq::<A>::empty()) by {
        reveal(Seq::filter);
    }
}

/// Inserting `x` between the rules of lower or equal priority number and
/// those of higher puts it last among the rules of its priority, and leaves
/// the rules of other priorities as they were.
proof fn lemma_insert_priority_filter(r: Seq<RouteView>, pos: int, x: RouteView, p: u32)
    requires
        0 <= pos <= r.len(),
        forall|j: int| pos <= j < r.len() ==> #[trigger] r[j].priority > x.priority,
    ensures
        routes_with_priority(r.insert(pos, x), p) == if p == x.priority {
            routes_with_priority(r, p).push(x)
        } else {
            routes_with_priority(r, p)
        },
{
    let pred = |t: RouteView| t.priority == p;
    let a = r.take(pos);
    let b = r.skip(pos);
    assert(r.insert(pos, x) =~= a + (seq![x] + b));
    assert(r =~= a + b);
    Seq::filter_distributes_over_add(a, seq![x] + b, pred);
    Seq::filter_distributes_over_add(seq![x], b, pred);
    Seq::filter_distributes_over_add(a, b, pred);
    lemma_filter_single(x, pred);
    if p == x.priority {
        assert forall|j: int| 0 <= j < b.len() implies #[trigger] b[j].priority != p by {
            assert(b[j] == r[pos + j]);
        }
        lemma_no_priority(b, p);
        assert(a.filter(pred) + (seq![x] + Seq::<RouteView>::empty()) =~= (a.filter(pred)
            + Seq::<RouteView>::empty()).push(x));
    } else {
        assert(a.filter(pred) + (Seq::<RouteView>::empty() + b.filter(pred)) =~= a.filter(pred)
            + b.filter(pred));
    }
}

/// Orders `routes` by priority number, stably.
pub fn sort_routes_by_priority(routes: &mut Vec<Route>)
    ensures
        is_priority_sorting_of(views(final(routes)@), views(old(routes)@)),
{
    let ghost input = views(routes@);
    let mut out: Vec<Route> = Vec::new();
    let mut i: usize = 0;
    assert forall|p: u32| #[trigger] routes_with_priority(views(out@), p) == routes_with_priority(
        input.take(0),
        p,
    ) by {
        assert(views(out@) =~= input.take(0));
    }
    while i < routes.len()
        invariant
            input == views(routes@),
            i <= routes.len(),
            sorted_by_priority(views(out@)),
            forall|p: u32| #[trigger]
                routes_with_priority(views(out@), p) == routes_with_priority(input.take(i as int), p),
        decreases routes.len() - i,
    {
        let x = routes[i].clone();
        assert(input[i as int] == x@);
        let ghost cur = views(out@);
        let mut pos: usize = 0;
        while pos < out.len() && out[pos].priority <= x.priority
            invariant
                cur == views(out@),
                pos <= out.len(),
                forall|j: int| 0 <= j < pos ==> #[trigger] cur[j].priority <= x.priority,
            decreases out.len() - pos,
        {
            assert(cur[pos as int] == out@[pos as int]@);
            pos = pos + 1;
        }
        proof {
            if pos < out.len() {
                assert(cur[pos as int] == out@[pos as int]@);
                assert forall|j: int| pos <= j < cur.len() implies #[trigger] cur[j].priority
                    > x.priority by {
                    if j > pos {
                        assert(cur[pos as int].priority <= cur[j].priority);
                    }
                }
            }
            lemma_insert_keeps_sorted(cur, pos as int, x@);
        }
        let ghost xv = x@;
        out.insert(pos, x);
        assert(views(out@) =~= cur.insert(pos as int, xv));
        proof {
            assert(input.take(i + 1) =~= input.take(i as int).push(xv));
            assert forall|p: u32| #[trigger]
                routes_with_priority(views(out@), p) == routes_with_priority(
                    input.take(i + 1),
                    p,
                ) by {
                lemma_insert_priority_filter(cur, pos as int, xv, p);
                input.take(i as int).lemma_filter_push(xv, |t: RouteView| t.priority == p);
            }
        }
        i = i + 1;
    }
    assert(input.take(routes.len() as int) =~= input);
    *routes = out;
}

/// A rule of `s` appears among the rules of its priority.
proof fn lemma_in_own_priority(s: Seq<RouteView>, i: int)
    requires
        0 <= i < s.len(),
    ensures
        routes_with_priority(s, s[i].priority).contains(s[i]),
{
    s.lemma_filter_contains(|r: RouteView| r.priority == s[i].priority, i);
}

/// A rule among the rules of priority `p` of `s` has priority `p` and
/// comes from `s`.
proof fn lemma_from_priority_group(s: Seq<RouteView>, p: u32, j: int)
    requires
        0 <= j < routes_with_priority(s, p).len(),
    ensures
        routes_with_priority(s, p)[j].priority == p,
        s.contains(routes_with_priority(s, p)[j]),
{
    let pred = |r: RouteView| r.priority == p;
    s.lemma_filter_pred(pred, j);
    lemma_filter_element_in_source(s, pred, j);
}

/// Two sorted sequences with the same rules of each priority, in the same
/// order, are equal.
proof fn lemma_sorted_same_groups_equal(a: Seq<RouteView>, b: Seq<RouteView>)
    requires
        sorted_by_priority(a),
        sorted_by_priority(b),
        forall|p: u32| #[trigger] routes_with_priority(a, p) == routes_with_priority(b, p),
    ensures
        a == b,
    decreases a.len(),
{
    if a.len() == 0 || b.len() == 0 {
        if b.len() > 0 {
            lemma_in_own_priority(b, 0);
            assert(routes_with_priority(a, b[0].priority) == routes_with_priority(
                b,
                b[0].priority,
            ));
            reveal(Seq::filter);
            assert(routes_with_priority(a, b[0].priority).len() == 0);
        }
        if a.len() > 0 {
            lemma_in_own_priority(a, 0);
            assert(routes_with_priority(a, a[0].priority) == routes_with_priority(
                b,
                a[0].priority,
            ));
            reveal(Seq::filter);
            assert(routes_with_priority(b, a[0].priority).len() == 0);
        }
        assert(a =~= b);
    } else {
        let x = a.last();
        let y = b.last();
        let a1 = a.drop_last();
        let b1 = b.drop_last();
        // the last rules have the same, highest, priority
        assert(x.priority <= y.priority) by {
            lemma_in_own_priority(a, a.len() - 1);
            assert(routes_with_priority(a, x.priority) == routes_with_priority(b, x.priority));
            let k = choose|k: int|
                0 <= k < routes_with_priority(a, x.priority).len() && routes_with_priority(
                    a,
                    x.priority,
                )[k] == x;
            lemma_from_priority_group(b, x.priority, k);
            let m = choose|m: int| 0 <= m < b.len() && b[m] == routes_with_priority(b, x.priority)[k];
            if m < b.len() - 1 {
                assert(b[m].priority <= b[b.len() - 1].priority);
            }
        }
        assert(y.priority <= x.priority) by {
            lemma_in_own_priority(b, b.len() - 1);
            assert(routes_with_priority(a, y.priority) == routes_with_priority(b, y.priority));
            let k = choose|k: int|
                0 <= k < routes_with_priority(b, y.priority).len() && routes_with_priority(
                    b,
                    y.priority,
                )[k] == y;
            lemma_from_priority_group(a, y.priority, k);
            let m = choose|m: int| 0 <= m < a.len() && a[m] == routes_with_priority(a, y.priority)[k];
            if m < a.len() - 1 {
                assert(a[m].priority <= a[a.len() - 1].priority);
            }
        }
        assert(a1.push(x) =~= a);
        assert(b1.push(y) =~= b);
        assert forall|p: u32| #[trigger] routes_with_priority(a1, p) == routes_with_priority(b1, p) by {
            let pred = |r: RouteView| r.priority == p;
            a1.lemma_filter_push(x, pred);
            b1.lemma_filter_push(y, pred);
            assert(routes_with_priority(a, p) == routes_with_priority(b, p));
            if p == x.priority {
                let ga = routes_with_priority(a, p);
                assert(ga.drop_last() =~= routes_with_priority(a1, p));
                assert(routes_with_priority(b, p).drop_last() =~= routes_with_priority(b1, p));
            }
        }
        assert(x == y) by {
            let p = x.priority;
            let pred = |r: RouteView| r.priority == p;
            a1.lemma_filter_push(x, pred);
            b1.lemma_filter_push(y, pred);
            assert(routes_with_priority(a, p) == routes_with_priority(b, p));
            assert(routes_with_priority(a, p).last() == x);
            assert(routes_with_priority(b, p).last() == y);
        }
        assert(sorted_by_priority(a1)) by {
            assert forall|i: int, j: int| 0 <= i < j < a1.len() implies #[trigger] a1[i].priority
                <= #[trigger] a1[j].priority by {
                assert(a[i].priority <= a[j].priority);
            }
        }
        assert(sorted_by_priority(b1)) by {
            assert forall|i: int, j: int| 0 <= i < j < b1.len() implies #[trigger] b1[i].priority
                <= #[trigger] b1[j].priority by {
                assert(b[i].priority <= b[j].priority);
            }
        }
        lemma_sorted_same_groups_equal(a1, b1);
    }
}

/// The stable ordering by priority is unique: the rule lists that
/// `create_route`, `update_route` and `sort_routes_by_priority` leave are
/// determined by what they were given.
pub proof fn law_priority_sorting_unique(a: Seq<RouteView>, b: Seq<RouteView>, s: Seq<RouteView>)
    requires
        is_priority_sorting_of(a, s),
        is_priority_sorting_of(b, s),
    ensures
        a == b,
{
    assert forall|p: u32| #[trigger] routes_with_priority(a, p) == routes_with_priority(b, p) by {
        assert(routes_with_priority(a, p) == routes_with_priority(s, p));
        assert(routes_with_priority(b, p) == routes_with_priority(s, p));
    }
    lemma_sorted_same_groups_equal(a, b);
}

/// Ordering by priority neither loses nor invents rules: every rule of the
/// input is in the result, and every rule of the result is in the input.
pub proof fn law_priority_sorting_keeps_rules(r: Seq<RouteView>, s: Seq<RouteView>)
    requires
        is_priority_sorting_of(r, s),
    ensures
        forall|i: int| 0 <= i < s.len() ==> r.contains(#[trigger] s[i]),
        forall|i: int| 0 <= i < r.len() ==> s.contains(#[trigger] r[i]),
{
    assert forall|i: int| 0 <= i < s.len() implies r.contains(#[trigger] s[i]) by {
        let p = s[i].priority;
        lemma_in_own_priority(s, i);
        assert(routes_with_priority(r, p) == routes_with_priority(s, p));
        let k = choose|k: int|
            0 <= k < routes_with_priority(s, p).len() && routes_with_priority(s, p)[k] == s[i];
        lemma_from_priority_group(r, p, k);
    }
    assert forall|i: int| 0 <= i < r.len() implies s.contains(#[trigger] r[i]) by {
        let p = r[i].priority;
        lemma_in_own_priority(r, i);
        assert(routes_with_priority(r, p) == routes_with_priority(s, p));
        let k = choose|k: int|
            0 <= k < routes_with_priority(r, p).len() && routes_with_priority(r, p)[k] == r[i];
        lemma_from_priority_group(s, p, k);
    }
}

/// Rule lists that are already in priority order are left as they are.
pub proof fn law_sorted_routes_unchanged(s: Seq<RouteView>)
    requires
        sorted_by_priority(s),
    ensures
        forall|r: Seq<RouteView>| #[trigger] is_priority_sorting_of(r, s) ==> r == s,
{
    assert forall|r: Seq<RouteView>| #[trigger] is_priority_sorting_of(r, s) implies r == s by {
        assert(is_priority_sorting_of(s, s));
        law_priority_sorting_unique(r, s, s);
    }
}

/// Filtering keeps a sequence whose elements all pass.
proof fn lemma_filter_all<A>(s: Seq<A>, pred: spec_fn(A) -> bool)
    requires
        forall|i: int| 0 <= i < s.len() ==> pred(#[trigger] s[i]),
    ensures
        s.filter(pred) == s,
    decreases s.len(),
{
    reveal(Seq::filter);
    if s.len() > 0 {
        let rest = s.drop_last();
        assert forall|i: int| 0 <= i < rest.len() implies pred(#[trigger] rest[i]) by {
            assert(pred(s[i]));
        }
        lemma_filter_all(rest, pred);
        assert(pred(s[s.len() - 1]));
        assert(rest.push(s.last()) =~= s);
    }
}

/// Two filters commute.
proof fn lemma_filter_commute<A>(s: Seq<A>, p1: spec_fn(A) -> bool, p2: spec_fn(A) -> bool)
    ensures
        s.filter(p1).filter(p2) == s.filter(p2).filter(p1),
    decreases s.len(),
{
    if s.len() > 0 {
        let rest = s.drop_last();
        let x = s.last();
        lemma_filter_commute(rest, p1, p2);
        assert(rest.push(x) =~= s);
        rest.lemma_filter_push(x, p1);
        rest.lemma_filter_push(x, p2);
        rest.filter(p1).lemma_filter_push(x, p2);
        rest.filter(p2).lemma_filter_push(x, p1);
    } else {
        reveal(Seq::filter);
    }
}

/// Filtering keeps a sequence in priority order.
proof fn lemma_filter_keeps_sorted(s: Seq<RouteView>, pred: spec_fn(RouteView) -> bool)
    requires
        sorted_by_priority(s),
    ensures
        sorted_by_priority(s.filter(pred)),
    decreases s.len(),
{
    reveal(Seq::filter);
    if s.len() > 0 {
        let rest = s.drop_last();
        let x = s.last();
        assert(sorted_by_priority(rest)) by {
            assert forall|i: int, j: int| 0 <= i < j < rest.len() implies #[trigger] rest[i].priority
                <= #[trigger] rest[j].priority by {
                assert(s[i].priority <= s[j].priority);
            }
        }
        lemma_filter_keeps_sorted(rest, pred);
        if pred(x) {
            let f = rest.filter(pred);
            let g = f.push(x);
            assert forall|i: int, j: int| 0 <= i < j < g.len() implies #[trigger] g[i].priority
                <= #[trigger] g[j].priority by {
                if j == f.len() {
                    lemma_filter_element_in_source(rest, pred, i);
                    let m = choose|m: int| 0 <= m < rest.len() && rest[m] == f[i];
                    assert(s[m].priority <= s[s.len() - 1].priority);
                } else {
                    assert(f[i].priority <= f[j].priority);
                }
            }
        }
    }
}

/// Deleting the rule that was just created gives back the rules as they
/// were, when they were in priority order and no other rule had its
/// pattern.
pub proof fn law_delete_route_undoes_create(s: Seq<RouteView>, r: RouteView, created: Seq<RouteView>)
    requires
        sorted_by_priority(s),
        !has_route_with_pattern(s, r.pattern),
        is_priority_sorting_of(created, s.push(r)),
    ensures
        without_route(created, r.pattern) == s,
{
    let keep = |t: RouteView| t.pattern != r.pattern;
    let w = created.filter(keep);
    lemma_filter_keeps_sorted(created, keep);
    assert forall|p: u32| #[trigger] routes_with_priority(w, p) == routes_with_priority(s, p) by {
        let byp = |t: RouteView| t.priority == p;
        lemma_filter_commute(created, keep, byp);
        assert(routes_with_priority(created, p) == routes_with_priority(s.push(r), p));
        s.lemma_filter_push(r, byp);
        let g = routes_with_priority(s, p);
        assert forall|i: int| 0 <= i < g.len() implies keep(#[trigger] g[i]) by {
            lemma_from_priority_group(s, p, i);
            let m = choose|m: int| 0 <= m < s.len() && s[m] == g[i];
            assert(s[m].pattern != r.pattern);
        }
        lemma_filter_all(g, keep);
        g.lemma_filter_push(r, keep);
    }
    lemma_sorted_same_groups_equal(w, s);
}

/// After a deletion no rule has the deleted pattern, and the rules that
/// remain keep their order, so a list in priority order stays so.
pub proof fn law_delete_route_removes_pattern(s: Seq<RouteView>, pattern: Seq<char>)
    ensures
        !has_route_with_pattern(without_route(s, pattern), pattern),
        sorted_by_priority(s) ==> sorted_by_priority(without_route(s, pattern)),
{
    let keep = |t: RouteView| t.pattern != pattern;
    let w = s.filter(keep);
    assert forall|j: int| 0 <= j < w.len() implies #[trigger] w[j].pattern != pattern by {
        s.lemma_filter_pred(keep, j);
    }
    if sorted_by_priority(s) {
        lemma_filter_keeps_sorted(s, keep);
    }
}

/// `POST /api/routes`: adds `route`, then orders the rules by priority.
pub fn create_route(routes: &mut Vec<Route>, route: Route) -> (r: (u16, ApiResponse<Route>))
    ensures
        is_priority_sorting_of(views(final(routes)@), views(old(routes)@).push(route@)),
        r.0 == 201,
        r.1 matches ApiResponse::Data(x) && x@ == route@,
{
    let answer = route.clone();
    let ghost before = routes@;
    routes.push(route);
    assert(views(routes@) =~= views(before).push(answer@));
    sort_routes_by_priority(routes);
    (201, ApiResponse::Data(answer))
}

/// Rule `k` is the first one with pattern `pattern`.
pub open spec fn is_first_with_pattern(rs: Seq<RouteView>, pattern: Seq<char>, k: int) -> bool {
    &&& 0 <= k < rs.len()
    &&& rs[k].pattern == pattern
    &&& forall|j: int| 0 <= j < k ==> #[trigger] rs[j].pattern != pattern
}

/// Some rule of `rs` has the pattern `pattern`.
pub open spec fn has_route_with_pattern(rs: Seq<RouteView>, pattern: Seq<char>) -> bool {
    exists|j: int| 0 <= j < rs.len() && #[trigger] rs[j].pattern == pattern
}

/// `r` with the pattern `pattern`.
pub open spec fn with_pattern(r: RouteView, pattern: Seq<char>) -> RouteView {
    RouteView { pattern: pattern, ..r }
}

/// The rules of `rs` whose pattern is not `pattern`, in order.
pub open spec fn without_route(rs: Seq<RouteView>, pattern: Seq<char>) -> Seq<RouteView> {
    rs.filter(|r: RouteView| r.pattern != pattern)
}

/// The message of a 404 answer about the rule `pattern`.
pub open spec fn route_not_found(pattern: Seq<char>) -> Seq<char> {
    "Route '"@ + pattern + "' not found"@
}

/// The index of the first rule with pattern `pattern`.
pub fn find_route(routes: &Vec<Route>, pattern: &str) -> (r: Option<usize>)
    ensures
        r matches Some(k) ==> is_first_with_pattern(views(routes@), pattern@, k as int),
        r is None ==> !has_route_with_pattern(views(routes@), pattern@),
{
    let ghost rs = views(routes@);
    let target = owned(pattern);
    let mut k: usize = 0;
    while k < routes.len()
        invariant
            rs == views(routes@),
            target@ == pattern@,
            k <= routes.len(),
            forall|j: int| 0 <= j < k ==> #[trigger] rs[j].pattern != pattern@,
        decreases routes.len() - k,
    {
        assert(rs[k as int] == routes@[k as int]@);
        if routes[k].pattern == target {
            return Some(k);
        }
        k = k + 1;
    }
    None
}

/// `PUT /api/routes/{pattern}`: replaces the first rule with pattern
/// `pattern` by `route`, which keeps the pattern, then orders the rules by
/// priority; 404 when there is none.
pub fn update_route(routes: &mut Vec<Route>, pattern: String, route: Route) -> (r: (
    u16,
    ApiResponse<Route>,
))
    ensures
        forall|k: int|
            is_first_with_pattern(views(old(routes)@), pattern@, k) ==> {
                &&& is_priority_sorting_of(
                    views(final(routes)@),
                    views(old(routes)@).update(k, with_pattern(route@, pattern@)),
                )
                &&& r.0 == 200
                &&& r.1 matches ApiResponse::Data(x) && x@ == with_pattern(route@, pattern@)
            },
        !has_route_with_pattern(views(old(routes)@), pattern@) ==> {
            &&& final(routes)@ == old(routes)@
            &&& r.0 == 404
            &&& r.1 matches ApiResponse::Error { error } && error@ == route_not_found(pattern@)
        },
{
    let ghost rs = views(routes@);
    match find_route(routes, pattern.as_str()) {
        Some(k) => {
            let mut updated = route;
            updated.pattern = pattern;
            let answer = updated.clone();
            routes.set(k, updated);
            proof {
                assert(views(routes@) =~= rs.update(k as int, answer@));
                assert forall|c: int| is_first_with_pattern(rs, pattern@, c) implies c
                    == k as int by {
                    if c < k {
                        assert(rs[c].pattern != pattern@);
                    } else if k < c {
                        assert(rs[k as int].pattern != pattern@);
                    }
                }
            }
            sort_routes_by_priority(routes);
            (200, ApiResponse::Data(answer))
        },
        None => {
            let error = concat3("Route '", pattern.as_str(), "' not found");
            (404, ApiResponse::Error { error })
        },
    }
}

/// `DELETE /api/routes/{pattern}`: removes every rule with pattern
/// `pattern`; 404 when there is none.
pub fn delete_route(routes: &mut Vec<Route>, pattern: &str) -> (r: (u16, ApiResponse<()>))
    ensures
        views(final(routes)@) == without_route(views(old(routes)@), pattern@),
        has_route_with_pattern(views(old(routes)@), pattern@) ==> {
            &&& r.0 == 200
            &&& r.1 matches ApiResponse::Success { success, message } && success && message is None
        },
        !has_route_with_pattern(views(old(routes)@), pattern@) ==> {
            &&& r.0 == 404
            &&& r.1 matches ApiResponse::Error { error } && error@ == route_not_found(pattern@)
        },
{
    let ghost rs = views(routes@);
    let target = owned(pattern);
    let mut kept: Vec<Route> = Vec::new();
    let mut removed = false;
    let mut i: usize = 0;
    while i < routes.len()
        invariant
            rs == views(routes@),
            target@ == pattern@,
            i <= routes.len(),
            views(kept@) == without_route(rs.take(i as int), pattern@),
            removed == exists|j: int| 0 <= j < i && #[trigger] rs[j].pattern == pattern@,
        decreases routes.len() - i,
    {
        assert(rs[i as int] == routes@[i as int]@);
        assert(rs.take(i + 1) =~= rs.take(i as int).push(rs[i as int]));
        let ghost before = kept@;
        proof {
            rs.take(i as int).lemma_filter_push(rs[i as int], |q: RouteView| q.pattern != pattern@);
        }
        if routes[i].pattern == target {
            assert(rs[i as int].pattern == pattern@);
            removed = true;
        } else {
            kept.push(routes[i].clone());
            assert(views(kept@) =~= views(before).push(rs[i as int]));
        }
        i = i + 1;
    }
    assert(rs.take(routes.len() as int) =~= rs);
    *routes = kept;
    if removed {
        (200, ApiResponse::Success { success: true, message: None })
    } else {
        let error = concat3("Route '", pattern, "' not found");
        (404, ApiResponse::Error { error })
    }
}

} // verus!

//! Cycle detection: which vertices can be reached from a start vertex, and
//! whether a cycle lies among them.
use vstd::prelude::*;
use crate::workflows::dependency::graph_model::{
    closed_under, edge_views, has_edge, is_cycle, lemma_closed_holds_cycle, lemma_closed_holds_reach,
    lemma_mod_self, lemma_mod_small, lemma_no_increasing_cycle, lemma_pigeonhole, lemma_reach_step,
    reach_within, reachable, cycle_reachable_from, views, Vertex,
};

verus! {

/// The position of `x` among `vs`, compared by characters.
pub fn position_of(vs: &Vec<String>, x: &String) -> (r: Option<usize>)
    ensures
        r is None ==> !views(vs@).contains(x@),
        r matches Some(i) ==> i < vs@.len() && vs@[i as int]@ == x@,
{
    let mut i: usize = 0;
    while i < vs.len()
        invariant
            i <= vs@.len(),
            forall|k: int| 0 <= k < i ==> vs@[k]@ != x@,
        decreases vs@.len() - i,
    {
        if vs[i] == *x {
            return Some(i);
        }
        i = i + 1;
    }
    proof {
        if views(vs@).contains(x@) {
            let k = choose|k: int| 0 <= k < views(vs@).len() && views(vs@)[k] == x@;
            assert(vs@[k]@ == x@);
        }
    }
    None
}

/// Every member of `rv` is `s` or the end of some edge.
spec fn members_are_targets(ev: Seq<(Vertex, Vertex)>, rv: Seq<Vertex>, s: Vertex) -> bool {
    forall|i: int|
        0 <= i < rv.len() ==> rv[i] == s || exists|j: int|
            0 <= j < ev.len() && #[trigger] ev[j].1 == rv[i]
}

/// A duplicate-free set made of `s` and edge ends has at most one more
/// member than there are edges.
proof fn lemma_targets_bound(ev: Seq<(Vertex, Vertex)>, rv: Seq<Vertex>, s: Vertex)
    requires
        rv.no_duplicates(),
        members_are_targets(ev, rv, s),
    ensures
        rv.len() <= ev.len() + 1,
{
    let targets = Seq::new(ev.len(), |j: int| ev[j].1);
    let big = targets.to_set().insert(s);
    targets.lemma_cardinality_of_set();
    assert(rv.to_set().subset_of(big)) by {
        assert forall|x: Vertex| rv.to_set().contains(x) implies big.contains(x) by {
            let i = choose|i: int| 0 <= i < rv.len() && rv[i] == x;
            if rv[i] != s {
                let j = choose|j: int| 0 <= j < ev.len() && #[trigger] ev[j].1 == rv[i];
                assert(targets[j] == x);
            }
        }
    }
    rv.unique_seq_to_set();
    vstd::set_lib::lemma_len_subset(rv.to_set(), big);
}

/// The vertices reachable from `s`, each once, in the order in which a
/// breadth-first walk meets them.
pub fn reachable_set(edges: &Vec<(String, String)>, s: &String) -> (r: Vec<String>)
    ensures
        views(r@).no_duplicates(),
        views(r@).contains(s@),
        closed_under(edge_views(edges@), views(r@)),
        forall|v: Vertex| #[trigger]
            views(r@).contains(v) <==> reachable(edge_views(edges@), s@, v),
{
    let ghost ev = edge_views(edges@);
    let mut r: Vec<String> = Vec::new();
    r.push(s.clone());
    proof {
        assert(views(r@) =~= seq![s@]);
        assert(reach_within(ev, s@, s@, 0));
        assert(views(r@)[0] == s@);
    }
    let mut p: usize = 0;
    while p < r.len()
        invariant
            ev == edge_views(edges@),
            p <= r@.len(),
            views(r@).no_duplicates(),
            views(r@).contains(s@),
            members_are_targets(ev, views(r@), s@),
            forall|v: Vertex| views(r@).contains(v) ==> #[trigger] reachable(ev, s@, v),
            forall|j: int|
                0 <= j < ev.len() && views(r@).subrange(0, p as int).contains(#[trigger] ev[j].0)
                    ==> views(r@).contains(ev[j].1),
        decreases edges@.len() + 1 - p,
    {
        proof {
            lemma_targets_bound(ev, views(r@), s@);
        }
        let mut j: usize = 0;
        while j < edges.len()
            invariant
                ev == edge_views(edges@),
                p < r@.len(),
                views(r@).no_duplicates(),
                views(r@).contains(s@),
                members_are_targets(ev, views(r@), s@),
                forall|v: Vertex| views(r@).contains(v) ==> #[trigger] reachable(ev, s@, v),
                forall|k: int|
                    0 <= k < ev.len() && views(r@).subrange(0, p as int).contains(
                        #[trigger] ev[k].0,
                    ) ==> views(r@).contains(ev[k].1),
                forall|k: int|
                    0 <= k < j && #[trigger] ev[k].0 == views(r@)[p as int] ==> views(
                        r@,
                    ).contains(ev[k].1),
                j <= edges@.len(),
            decreases edges@.len() - j,
        {
            let ghost old_r = views(r@);
            if edges[j].0 == r[p] {
                match position_of(&r, &edges[j].1) {
                    Some(q) => {
                        proof {
                            assert(views(r@)[q as int] == edges@[j as int].1@);
                        }
                    },
                    None => {
                        let t = edges[j].1.clone();
                        r.push(t);
                        proof {
                            assert(views(r@) =~= old_r.push(ev[j as int].1));
                            let i0 = choose|i: int| 0 <= i < old_r.len() && old_r[i] == s@;
                            assert(views(r@)[i0] == s@);
                            assert(ev[j as int] == (edges@[j as int].0@, edges@[j as int].1@));
                            let src = old_r[p as int];
                            assert(reachable(ev, s@, src));
                            let k = choose|k: nat| #[trigger] reach_within(ev, s@, src, k);
                            lemma_reach_step(ev, s@, j as int, k);
                            assert(reach_within(ev, s@, ev[j as int].1, k + 1));
                            assert forall|v: Vertex| views(r@).contains(v) implies #[trigger] reachable(
                                ev,
                                s@,
                                v,
                            ) by {
                                if v != ev[j as int].1 {
                                    let i = choose|i: int|
                                        0 <= i < views(r@).len() && views(r@)[i] == v;
                                    assert(old_r[i] == v);
                                }
                            }
                            assert forall|i: int|
                                0 <= i < views(r@).len() implies views(r@)[i] == s@ || exists|
                                jj: int,
                            |
                                0 <= jj < ev.len() && #[trigger] ev[jj].1 == views(r@)[i] by {
                                if i < old_r.len() {
                                    assert(views(r@)[i] == old_r[i]);
                                } else {
                                    assert(ev[j as int].1 == views(r@)[i]);
                                }
                            }
                            assert(views(r@).subrange(0, p as int) =~= old_r.subrange(
                                0,
                                p as int,
                            ));
                            assert forall|kk: int|
                                0 <= kk < ev.len() && views(r@).subrange(0, p as int).contains(
                                    #[trigger] ev[kk].0,
                                ) implies views(r@).contains(ev[kk].1) by {
                                assert(old_r.contains(ev[kk].1));
                                let i = choose|i: int| 0 <= i < old_r.len() && old_r[i] == ev[kk].1;
                                assert(views(r@)[i] == ev[kk].1);
                            }
                            assert forall|kk: int|
                                0 <= kk <= j && #[trigger] ev[kk].0 == views(r@)[p as int] implies views(
                                r@,
                            ).contains(ev[kk].1) by {
                                if kk < j {
                                    assert(old_r.contains(ev[kk].1));
                                    let i = choose|i: int|
                                        0 <= i < old_r.len() && old_r[i] == ev[kk].1;
                                    assert(views(r@)[i] == ev[kk].1);
                                } else {
                                    assert(views(r@)[old_r.len() as int] == ev[kk].1);
                                }
                            }
                        }
                    },
                }
            }
            proof {
                assert(ev[j as int] == (edges@[j as int].0@, edges@[j as int].1@));
                assert(views(r@)[p as int] == r@[p as int]@);
                if ev[j as int].0 == views(r@)[p as int] {
                    assert(views(r@).contains(ev[j as int].1));
                }
            }
            j = j + 1;
        }
        proof {
            let rv = views(r@);
            assert forall|k: int|
                0 <= k < ev.len() && rv.subrange(0, p + 1).contains(#[trigger] ev[k].0) implies rv.contains(
                ev[k].1,
            ) by {
                let sub = rv.subrange(0, p + 1);
                let i = choose|i: int| 0 <= i < sub.len() && #[trigger] sub[i] == ev[k].0;
                if i < p {
                    assert(rv.subrange(0, p as int)[i] == ev[k].0);
                } else {
                    assert(ev[k].0 == rv[p as int]);
                }
            }
            lemma_targets_bound(ev, views(r@), s@);
        }
        p = p + 1;
    }
    proof {
        let rv = views(r@);
        assert(rv.subrange(0, rv.len() as int) =~= rv);
        assert forall|v: Vertex| #[trigger] reachable(ev, s@, v) implies rv.contains(v) by {
            let k = choose|k: nat| #[trigger] reach_within(ev, s@, v, k);
            lemma_closed_holds_reach(ev, rv, s@, v, k);
        }
    }
    r
}

/// Some edge into the member at `u` starts at a member still marked in `rem`.
pub open spec fn has_remaining_pred(
    ev: Seq<(Vertex, Vertex)>,
    rv: Seq<Vertex>,
    rem: Seq<bool>,
    u: int,
) -> bool {
    exists|j: int, w: int|
        0 <= j < ev.len() && 0 <= w < rv.len() && rem[w] && #[trigger] ev[j].1 == rv[u] && ev[j].0
            == #[trigger] rv[w]
}

/// Every member that is no longer marked was removed strictly after all
/// members with an edge into it.
spec fn preds_removed_before(
    ev: Seq<(Vertex, Vertex)>,
    rv: Seq<Vertex>,
    rem: Seq<bool>,
    time: Seq<int>,
    u: int,
) -> bool {
    forall|j: int, w: int|
        0 <= j < ev.len() && 0 <= w < rv.len() && #[trigger] ev[j].1 == rv[u] && ev[j].0
            == #[trigger] rv[w] ==> !rem[w] && time[w] < time[u]
}

/// The number of marked entries.
pub open spec fn count_true(s: Seq<bool>) -> nat
    decreases s.len(),
{
    if s.len() == 0 {
        0
    } else {
        count_true(s.drop_last()) + if s.last() {
            1nat
        } else {
            0nat
        }
    }
}

proof fn lemma_count_true_unmark(s: Seq<bool>, i: int)
    requires
        0 <= i < s.len(),
        s[i],
    ensures
        count_true(s.update(i, false)) + 1 == count_true(s),
    decreases s.len(),
{
    let t = s.update(i, false);
    if i == s.len() - 1 {
        assert(t.drop_last() =~= s.drop_last());
    } else {
        lemma_count_true_unmark(s.drop_last(), i);
        assert(t.drop_last() =~= s.drop_last().update(i, false));
    }
}

proof fn lemma_count_true_zero(s: Seq<bool>)
    ensures
        count_true(s) == 0 <==> forall|i: int| 0 <= i < s.len() ==> !s[i],
    decreases s.len(),
{
    if s.len() > 0 {
        lemma_count_true_zero(s.drop_last());
        if count_true(s) == 0 {
            assert forall|i: int| 0 <= i < s.len() implies !s[i] by {
                if i < s.len() - 1 {
                    assert(s.drop_last()[i] == s[i]);
                }
            }
        }
        if forall|i: int| 0 <= i < s.len() ==> !s[i] {
            assert forall|i: int| 0 <= i < s.drop_last().len() implies !s.drop_last()[i] by {
                assert(s.drop_last()[i] == s[i]);
            }
        }
    }
}

/// Whether a member at `u` has an edge into it from a member still marked.
fn remaining_pred_exists(
    edges: &Vec<(String, String)>,
    r: &Vec<String>,
    rem: &Vec<bool>,
    u: usize,
) -> (b: bool)
    requires
        views(r@).no_duplicates(),
        rem@.len() == r@.len(),
        u < r@.len(),
    ensures
        b == has_remaining_pred(edge_views(edges@), views(r@), rem@, u as int),
{
    let ghost ev = edge_views(edges@);
    let ghost rv = views(r@);
    let mut j: usize = 0;
    while j < edges.len()
        invariant
            ev == edge_views(edges@),
            rv == views(r@),
            rv.no_duplicates(),
            rem@.len() == r@.len(),
            u < r@.len(),
            j <= edges@.len(),
            forall|k: int, w: int|
                0 <= k < j && 0 <= w < rv.len() && rem@[w] && #[trigger] ev[k].1 == rv[u as int]
                    ==> ev[k].0 != #[trigger] rv[w],
        decreases edges@.len() - j,
    {
        proof {
            assert(ev[j as int] == (edges@[j as int].0@, edges@[j as int].1@));
        }
        if edges[j].1 == r[u] {
            match position_of(r, &edges[j].0) {
                Some(w) => {
                    if rem[w] {
                        proof {
                            assert(ev[j as int].1 == rv[u as int] && ev[j as int].0 == rv[w as int]);
                        }
                        return true;
                    }
                    proof {
                        assert forall|w2: int|
                            0 <= w2 < rv.len() && rem@[w2] implies ev[j as int].0 != #[trigger] rv[w2] by {
                            if ev[j as int].0 == rv[w2] {
                                assert(rv[w2] == rv[w as int]);
                            }
                        }
                    }
                },
                None => {
                    proof {
                        assert forall|w2: int| 0 <= w2 < rv.len() implies ev[j as int].0 != #[trigger] rv[w2] by {
                            if ev[j as int].0 == rv[w2] {
                                assert(rv.contains(rv[w2]));
                            }
                        }
                    }
                },
            }
        }
        j = j + 1;
    }
    false
}

/// The member reached by stepping back one edge from `u` to a marked member.
spec fn step_back(ev: Seq<(Vertex, Vertex)>, rv: Seq<Vertex>, rem: Seq<bool>, u: int) -> int {
    let (j, w) = choose|j: int, w: int|
        0 <= j < ev.len() && 0 <= w < rv.len() && rem[w] && #[trigger] ev[j].1 == rv[u] && ev[j].0
            == #[trigger] rv[w];
    w
}

/// The member reached after stepping back `k` times from `u0`.
spec fn walk_back(ev: Seq<(Vertex, Vertex)>, rv: Seq<Vertex>, rem: Seq<bool>, u0: int, k: nat) -> int
    decreases k,
{
    if k == 0 {
        u0
    } else {
        step_back(ev, rv, rem, walk_back(ev, rv, rem, u0, (k - 1) as nat))
    }
}

proof fn lemma_walk_back(ev: Seq<(Vertex, Vertex)>, rv: Seq<Vertex>, rem: Seq<bool>, u0: int, k: nat)
    requires
        rem.len() == rv.len(),
        0 <= u0 < rv.len(),
        rem[u0],
        forall|u: int| 0 <= u < rv.len() && rem[u] ==> has_remaining_pred(ev, rv, rem, u),
    ensures
        0 <= walk_back(ev, rv, rem, u0, k) < rv.len(),
        rem[walk_back(ev, rv, rem, u0, k)],
        k > 0 ==> has_edge(
            ev,
            rv[walk_back(ev, rv, rem, u0, k)],
            rv[walk_back(ev, rv, rem, u0, (k - 1) as nat)],
        ),
    decreases k,
{
    if k > 0 {
        lemma_walk_back(ev, rv, rem, u0, (k - 1) as nat);
        let prev = walk_back(ev, rv, rem, u0, (k - 1) as nat);
        assert(has_remaining_pred(ev, rv, rem, prev));
        let (j, w) = choose|j: int, w: int|
            0 <= j < ev.len() && 0 <= w < rv.len() && rem[w] && #[trigger] ev[j].1 == rv[prev]
                && ev[j].0 == #[trigger] rv[w];
        assert(ev[j] == (rv[w], rv[prev]));
    }
}

/// When every marked member has an edge into it from a marked member, the
/// graph has a cycle through marked members.
proof fn lemma_stuck_has_cycle(
    ev: Seq<(Vertex, Vertex)>,
    rv: Seq<Vertex>,
    rem: Seq<bool>,
    u0: int,
) -> (c: Seq<Vertex>)
    requires
        rem.len() == rv.len(),
        0 <= u0 < rv.len(),
        rem[u0],
        forall|u: int| 0 <= u < rv.len() && rem[u] ==> has_remaining_pred(ev, rv, rem, u),
    ensures
        is_cycle(ev, c),
        rv.contains(c[0]),
{
    let n = rv.len() as int;
    let s = Seq::new((n + 1) as nat, |k: int| walk_back(ev, rv, rem, u0, k as nat));
    assert forall|i: int| 0 <= i < s.len() implies 0 <= #[trigger] s[i] < n by {
        lemma_walk_back(ev, rv, rem, u0, i as nat);
    }
    lemma_pigeonhole(s, n);
    let (a, b) = choose|a: int, b: int| 0 <= a < b < s.len() && s[a] == s[b];
    let len = b - a;
    let c = Seq::new(len as nat, |t: int| rv[walk_back(ev, rv, rem, u0, (b - t) as nat)]);
    assert forall|t: int| 0 <= t < c.len() implies #[trigger] has_edge(
        ev,
        c[t],
        c[(t + 1) % (c.len() as int)],
    ) by {
        lemma_walk_back(ev, rv, rem, u0, (b - t) as nat);
        lemma_cycle_edge(ev, rv, rem, u0, a, b, t);
    }
    lemma_walk_back(ev, rv, rem, u0, b as nat);
    assert(rv.contains(c[0]));
    c
}

proof fn lemma_cycle_edge(
    ev: Seq<(Vertex, Vertex)>,
    rv: Seq<Vertex>,
    rem: Seq<bool>,
    u0: int,
    a: int,
    b: int,
    t: int,
)
    requires
        0 <= a < b,
        walk_back(ev, rv, rem, u0, a as nat) == walk_back(ev, rv, rem, u0, b as nat),
        0 <= t < b - a,
        has_edge(
            ev,
            rv[walk_back(ev, rv, rem, u0, (b - t) as nat)],
            rv[walk_back(ev, rv, rem, u0, ((b - t) as nat - 1) as nat)],
        ),
    ensures
        ({
            let c = Seq::new((b - a) as nat, |t: int| rv[walk_back(ev, rv, rem, u0, (b - t) as nat)]);
            has_edge(ev, c[t], c[(t + 1) % (c.len() as int)])
        }),
{
    let len = b - a;
    let c = Seq::new(len as nat, |t: int| rv[walk_back(ev, rv, rem, u0, (b - t) as nat)]);
    let m = (b - t) as nat;
    assert(c[t] == rv[walk_back(ev, rv, rem, u0, m)]);
    if t + 1 < len {
        lemma_mod_small(t + 1, len);
        assert(c[t + 1] == rv[walk_back(ev, rv, rem, u0, (m - 1) as nat)]);
    } else {
        lemma_mod_self(len);
        assert(c[0] == rv[walk_back(ev, rv, rem, u0, b as nat)]);
        assert(m == a + 1);
        assert((m - 1) as nat == a as nat);
    }
}

/// Whether a cycle passes through a member of `r`, a set that is closed
/// under the edges.
pub fn cycle_in_closed_set(edges: &Vec<(String, String)>, r: &Vec<String>) -> (b: bool)
    requires
        views(r@).no_duplicates(),
        closed_under(edge_views(edges@), views(r@)),
    ensures
        b <==> exists|c: Seq<Vertex>| #[trigger] is_cycle(edge_views(edges@), c) && views(r@).contains(c[0]),
{
    let ghost ev = edge_views(edges@);
    let ghost rv = views(r@);
    let n = r.len();
    let mut remaining: Vec<bool> = Vec::new();
    let mut i: usize = 0;
    while i < n
        invariant
            i <= n,
            remaining@.len() == i,
            forall|k: int| 0 <= k < i ==> remaining@[k],
        decreases n - i,
    {
        remaining.push(true);
        i = i + 1;
    }
    proof {
        assert(remaining@ =~= Seq::new(n as nat, |k: int| true));
        lemma_count_all(n as nat);
    }
    let ghost mut time: Seq<int> = Seq::new(n as nat, |k: int| 0);
    let mut step: usize = 0;
    let mut left: usize = n;
    loop
        invariant
            ev == edge_views(edges@),
            rv == views(r@),
            n == r@.len(),
            rv.no_duplicates(),
            remaining@.len() == n,
            time.len() == n,
            left == count_true(remaining@),
            step + left == n,
            forall|u: int| 0 <= u < n && !remaining@[u] ==> 0 <= #[trigger] time[u] < step,
            forall|u: int|
                0 <= u < n && !remaining@[u] ==> #[trigger] preds_removed_before(
                    ev,
                    rv,
                    remaining@,
                    time,
                    u,
                ),
        ensures
            ev == edge_views(edges@),
            rv == views(r@),
            remaining@.len() == n,
            time.len() == n,
            left == count_true(remaining@),
            forall|u: int|
                0 <= u < n && !remaining@[u] ==> #[trigger] preds_removed_before(
                    ev,
                    rv,
                    remaining@,
                    time,
                    u,
                ),
            forall|u: int|
                0 <= u < n && remaining@[u] ==> has_remaining_pred(ev, rv, remaining@, u),
        decreases left,
    {
        let mut found: Option<usize> = None;
        let mut u: usize = 0;
        while u < n
            invariant
                n == r@.len(),
                rv == views(r@),
                ev == edge_views(edges@),
                rv.no_duplicates(),
                remaining@.len() == n,
                u <= n,
                found is None ==> forall|k: int|
                    0 <= k < u && remaining@[k] ==> has_remaining_pred(ev, rv, remaining@, k),
                found matches Some(x) ==> x < n && remaining@[x as int] && !has_remaining_pred(
                    ev,
                    rv,
                    remaining@,
                    x as int,
                ),
            decreases n - u,
        {
            if found.is_none() && remaining[u] {
                if !remaining_pred_exists(edges, r, &remaining, u) {
                    found = Some(u);
                }
            }
            u = u + 1;
        }
        match found {
            None => {
                break ;
            },
            Some(x) => {
                let ghost old_rem = remaining@;
                let ghost old_time = time;
                remaining.set(x, false);
                proof {
                    time = time.update(x as int, step as int);
                    lemma_count_true_unmark(old_rem, x as int);
                    assert forall|u: int|
                        0 <= u < n && !remaining@[u] implies #[trigger] preds_removed_before(
                        ev,
                        rv,
                        remaining@,
                        time,
                        u,
                    ) by {
                        assert forall|j: int, w: int|
                            0 <= j < ev.len() && 0 <= w < rv.len() && #[trigger] ev[j].1 == rv[u]
                                && ev[j].0 == #[trigger] rv[w] implies !remaining@[w] && time[w]
                            < time[u] by {
                            if u == x {
                                if old_rem[w] {
                                    assert(has_remaining_pred(ev, rv, old_rem, x as int));
                                }
                                assert(w != x);
                                assert(time[w] == old_time[w]);
                            } else {
                                assert(!old_rem[u]);
                                assert(preds_removed_before(ev, rv, old_rem, old_time, u));
                                assert(!old_rem[w] && old_time[w] < old_time[u]);
                                assert(w != x);
                            }
                        }
                    }
                }
                step = step + 1;
                left = left - 1;
            },
        }
    }
    proof {
        lemma_count_true_zero(remaining@);
        if left == 0 {
            assert forall|c: Seq<Vertex>| #[trigger] is_cycle(ev, c) implies !rv.contains(c[0]) by {
                if rv.contains(c[0]) {
                    let len = c.len() as int;
                    assert forall|t: int| 0 <= t < len implies rv.contains(#[trigger] c[t]) by {
                        lemma_closed_holds_cycle(ev, rv, c, t);
                    }
                    let f = |t: int| time[rv.index_of(c[t])];
                    assert forall|t: int| 0 <= t < len implies #[trigger] f(t) < f((t + 1) % len) by {
                        let t2 = (t + 1) % len;
                        assert(0 <= t2 < len) by (nonlinear_arith)
                            requires
                                len > 0,
                                t2 == (t + 1) % len,
                        ;
                        assert(has_edge(ev, c[t], c[t2]));
                        let j = choose|j: int| 0 <= j < ev.len() && #[trigger] ev[j] == (c[t], c[t2]);
                        assert(rv.contains(c[t]));
                        assert(rv.contains(c[t2]));
                        let w = rv.index_of(c[t]);
                        let u = rv.index_of(c[t2]);
                        assert(!remaining@[u]);
                        assert(preds_removed_before(ev, rv, remaining@, time, u));
                        assert(ev[j].1 == rv[u] && ev[j].0 == rv[w]);
                    }
                    lemma_no_increasing_cycle(f, len);
                }
            }
        } else {
            let u0 = choose|u: int| 0 <= u < n && remaining@[u];
            let c = lemma_stuck_has_cycle(ev, rv, remaining@, u0);
            assert(is_cycle(ev, c) && rv.contains(c[0]));
        }
    }
    left > 0
}

proof fn lemma_count_all(k: nat)
    ensures
        count_true(Seq::new(k, |q: int| true)) == k,
    decreases k,
{
    if k > 0 {
        lemma_count_all((k - 1) as nat);
        assert(Seq::new(k, |q: int| true).drop_last() =~= Seq::new((k - 1) as nat, |q: int| true));
    }
}

/// Whether a cycle can be reached from `s`.
pub fn cycle_reachable(edges: &Vec<(String, String)>, s: &String) -> (b: bool)
    ensures
        b == cycle_reachable_from(edge_views(edges@), s@),
{
    let r = reachable_set(edges, s);
    let b = cycle_in_closed_set(edges, &r);
    proof {
        let ev = edge_views(edges@);
        if b {
            let c = choose|c: Seq<Vertex>| #[trigger] is_cycle(ev, c) && views(r@).contains(c[0]);
            assert(reachable(ev, s@, c[0]));
        }
        if cycle_reachable_from(ev, s@) {
            let c = choose|c: Seq<Vertex>| #[trigger] is_cycle(ev, c) && reachable(ev, s@, c[0]);
            assert(views(r@).contains(c[0]));
        }
    }
    b
}

} // verus!

//! The mathematical model of a dependency graph: vertices are step ids
//! (by their characters), edges are ordered pairs `(from, to)` meaning
//! "`to` depends on `from`".
use vstd::prelude::*;
use vstd::set_lib::*;
pub use crate::collections::views;

verus! {

/// A vertex of the graph: the characters of a step id.
pub type Vertex = Seq<char>;


/// The edges of a sequence of string pairs, by their characters.
pub open spec fn edge_views(s: Seq<(String, String)>) -> Seq<(Vertex, Vertex)> {
    s.map_values(|e: (String, String)| (e.0@, e.1@))
}

/// There is an edge from `u` to `v`.
pub open spec fn has_edge(edges: Seq<(Vertex, Vertex)>, u: Vertex, v: Vertex) -> bool {
    exists|j: int| 0 <= j < edges.len() && #[trigger] edges[j] == (u, v)
}

/// `v` can be reached from `s` by following at most `k` edges.
pub open spec fn reach_within(edges: Seq<(Vertex, Vertex)>, s: Vertex, v: Vertex, k: nat) -> bool
    decreases k,
{
    if k == 0 {
        v == s
    } else {
        ||| reach_within(edges, s, v, (k - 1) as nat)
        ||| exists|j: int|
            0 <= j < edges.len() && #[trigger] edges[j].1 == v && reach_within(
                edges,
                s,
                edges[j].0,
                (k - 1) as nat,
            )
    }
}

/// `v` can be reached from `s` by following edges.
pub open spec fn reachable(edges: Seq<(Vertex, Vertex)>, s: Vertex, v: Vertex) -> bool {
    exists|k: nat| #[trigger] reach_within(edges, s, v, k)
}

/// `c` lists the vertices of a cycle: each vertex has an edge to the next,
/// and the last one has an edge back to the first.
pub open spec fn is_cycle(edges: Seq<(Vertex, Vertex)>, c: Seq<Vertex>) -> bool {
    &&& c.len() > 0
    &&& forall|i: int|
        0 <= i < c.len() ==> #[trigger] has_edge(edges, c[i], c[(i + 1) % (c.len() as int)])
}

/// Some cycle of the graph can be reached from `s`.
pub open spec fn cycle_reachable_from(edges: Seq<(Vertex, Vertex)>, s: Vertex) -> bool {
    exists|c: Seq<Vertex>| #[trigger] is_cycle(edges, c) && reachable(edges, s, c[0])
}

/// Every edge that leaves a member of `r` ends in a member of `r`.
pub open spec fn closed_under(edges: Seq<(Vertex, Vertex)>, r: Seq<Vertex>) -> bool {
    forall|j: int| 0 <= j < edges.len() && r.contains(#[trigger] edges[j].0) ==> r.contains(edges[j].1)
}

/// Following one more edge from a vertex reached in `k` steps reaches in `k + 1`.
pub proof fn lemma_reach_step(edges: Seq<(Vertex, Vertex)>, s: Vertex, j: int, k: nat)
    requires
        0 <= j < edges.len(),
        reach_within(edges, s, edges[j].0, k),
    ensures
        reach_within(edges, s, edges[j].1, k + 1),
{
    assert(edges[j].1 == edges[j].1);
}

/// A set that contains `s` and is closed under the edges holds every
/// vertex reachable from `s`.
pub proof fn lemma_closed_holds_reach(
    edges: Seq<(Vertex, Vertex)>,
    r: Seq<Vertex>,
    s: Vertex,
    v: Vertex,
    k: nat,
)
    requires
        r.contains(s),
        closed_under(edges, r),
        reach_within(edges, s, v, k),
    ensures
        r.contains(v),
    decreases k,
{
    if k > 0 {
        if reach_within(edges, s, v, (k - 1) as nat) {
            lemma_closed_holds_reach(edges, r, s, v, (k - 1) as nat);
        } else {
            let j = choose|j: int|
                0 <= j < edges.len() && #[trigger] edges[j].1 == v && reach_within(
                    edges,
                    s,
                    edges[j].0,
                    (k - 1) as nat,
                );
            lemma_closed_holds_reach(edges, r, s, edges[j].0, (k - 1) as nat);
        }
    }
}

/// A set closed under the edges that holds one vertex of a cycle holds all of them.
pub proof fn lemma_closed_holds_cycle(edges: Seq<(Vertex, Vertex)>, r: Seq<Vertex>, c: Seq<Vertex>, i: int)
    requires
        is_cycle(edges, c),
        r.contains(c[0]),
        closed_under(edges, r),
        0 <= i < c.len(),
    ensures
        r.contains(c[i]),
    decreases i,
{
    if i > 0 {
        lemma_closed_holds_cycle(edges, r, c, i - 1);
        assert(has_edge(edges, c[i - 1], c[((i - 1) + 1) % (c.len() as int)]));
        lemma_mod_small(i, c.len() as int);
        let j = choose|j: int| 0 <= j < edges.len() && #[trigger] edges[j] == (c[i - 1], c[i]);
        assert(edges[j].0 == c[i - 1]);
    }
}

/// Every edge into `v` starts at a node that is itself leveled within
/// `k - 1`; at `k == 0`, no edge ends in `v` at all. A vertex leveled within
/// `k` can run once the first `k + 1` levels of a topological order are done.
pub open spec fn leveled_within(
    nodes: Seq<Vertex>,
    edges: Seq<(Vertex, Vertex)>,
    v: Vertex,
    k: nat,
) -> bool
    decreases k,
{
    if k == 0 {
        forall|j: int| 0 <= j < edges.len() ==> #[trigger] edges[j].1 != v
    } else {
        forall|j: int|
            0 <= j < edges.len() && #[trigger] edges[j].1 == v ==> nodes.contains(edges[j].0)
                && leveled_within(nodes, edges, edges[j].0, (k - 1) as nat)
    }
}

/// `v` belongs to level `k` of the topological order: leveled within `k`
/// and not within any smaller bound.
pub open spec fn exact_level(nodes: Seq<Vertex>, edges: Seq<(Vertex, Vertex)>, v: Vertex, k: nat) -> bool {
    leveled_within(nodes, edges, v, k) && (k == 0 || !leveled_within(
        nodes,
        edges,
        v,
        (k - 1) as nat,
    ))
}

/// `v` belongs to some level.
pub open spec fn has_level(nodes: Seq<Vertex>, edges: Seq<(Vertex, Vertex)>, v: Vertex) -> bool {
    exists|k: nat| #[trigger] leveled_within(nodes, edges, v, k)
}

/// Leveled within `k` implies leveled within `k + 1`.
pub proof fn lemma_leveled_step(nodes: Seq<Vertex>, edges: Seq<(Vertex, Vertex)>, v: Vertex, k: nat)
    requires
        leveled_within(nodes, edges, v, k),
    ensures
        leveled_within(nodes, edges, v, k + 1),
    decreases k,
{
    if k > 0 {
        assert forall|j: int|
            0 <= j < edges.len() && #[trigger] edges[j].1 == v implies nodes.contains(edges[j].0)
            && leveled_within(nodes, edges, edges[j].0, k) by {
            lemma_leveled_step(nodes, edges, edges[j].0, (k - 1) as nat);
        }
    }
}

/// Leveled within `a` implies leveled within every `b >= a`.
pub proof fn lemma_leveled_monotone(
    nodes: Seq<Vertex>,
    edges: Seq<(Vertex, Vertex)>,
    v: Vertex,
    a: nat,
    b: nat,
)
    requires
        a <= b,
        leveled_within(nodes, edges, v, a),
    ensures
        leveled_within(nodes, edges, v, b),
    decreases b - a,
{
    if a < b {
        lemma_leveled_step(nodes, edges, v, a);
        lemma_leveled_monotone(nodes, edges, v, a + 1, b);
    }
}

/// If no node belongs to level `k`, no node gets a level beyond it: every
/// node leveled within some `m >= k` is leveled within `k - 1` (and at
/// `k == 0`, no node is leveled at all).
pub proof fn lemma_no_level_beyond(
    nodes: Seq<Vertex>,
    edges: Seq<(Vertex, Vertex)>,
    k: nat,
    v: Vertex,
    m: nat,
)
    requires
        forall|u: Vertex| nodes.contains(u) ==> !#[trigger] exact_level(nodes, edges, u, k),
        nodes.contains(v),
        k <= m,
        leveled_within(nodes, edges, v, m),
    ensures
        k > 0 && leveled_within(nodes, edges, v, (k - 1) as nat),
    decreases m,
{
    assert(!exact_level(nodes, edges, v, k));
    if m == k {
    } else {
        if k == 0 {
            if leveled_within(nodes, edges, v, 0) {
                assert(exact_level(nodes, edges, v, 0));
            }
            let j = choose|j: int| 0 <= j < edges.len() && #[trigger] edges[j].1 == v;
            lemma_no_level_beyond(nodes, edges, k, edges[j].0, (m - 1) as nat);
        } else {
            assert forall|j: int|
                0 <= j < edges.len() && #[trigger] edges[j].1 == v implies nodes.contains(
                edges[j].0,
            ) && leveled_within(nodes, edges, edges[j].0, (k - 1) as nat) by {
                lemma_no_level_beyond(nodes, edges, k, edges[j].0, (m - 1) as nat);
            }
            assert(leveled_within(nodes, edges, v, k));
        }
    }
}

/// A vertex leveled within `m` belongs to some level `q <= m`.
pub proof fn lemma_exact_exists(nodes: Seq<Vertex>, edges: Seq<(Vertex, Vertex)>, v: Vertex, m: nat)
    requires
        leveled_within(nodes, edges, v, m),
    ensures
        exists|q: nat| q <= m && #[trigger] exact_level(nodes, edges, v, q),
    decreases m,
{
    if m == 0 {
        assert(exact_level(nodes, edges, v, 0));
    } else if leveled_within(nodes, edges, v, (m - 1) as nat) {
        lemma_exact_exists(nodes, edges, v, (m - 1) as nat);
    } else {
        assert(exact_level(nodes, edges, v, m));
    }
}

/// A sequence of `n + 1` integers drawn from `[0, n)` repeats a value.
pub proof fn lemma_pigeonhole(s: Seq<int>, n: int)
    requires
        n >= 0,
        s.len() == n + 1,
        forall|i: int| 0 <= i < s.len() ==> 0 <= #[trigger] s[i] < n,
    ensures
        exists|a: int, b: int| 0 <= a < b < s.len() && s[a] == s[b],
{
    if !(exists|a: int, b: int| 0 <= a < b < s.len() && s[a] == s[b]) {
        assert forall|a: int, b: int| 0 <= a < s.len() && 0 <= b < s.len() && a != b implies s[a]
            != s[b] by {
            if a < b {
                assert(!(s[a] == s[b]));
            } else {
                assert(!(s[b] == s[a]));
            }
        }
        assert(s.no_duplicates());
        s.unique_seq_to_set();
        lemma_int_range(0, n);
        assert(s.to_set().subset_of(set_int_range(0, n))) by {
            assert forall|x: int| s.to_set().contains(x) implies set_int_range(0, n).contains(x) by {
                let i = choose|i: int| 0 <= i < s.len() && s[i] == x;
                assert(0 <= s[i] < n);
            }
        }
        lemma_len_subset(s.to_set(), set_int_range(0, n));
    }
}

/// A number in `[0, n)` is its own remainder modulo `n`.
pub proof fn lemma_mod_small(i: int, n: int)
    requires
        0 <= i < n,
    ensures
        i % n == i,
{
    assert(i % n == i) by (nonlinear_arith)
        requires
            0 <= i < n,
    ;
}

/// `n` modulo itself is zero.
pub proof fn lemma_mod_self(n: int)
    requires
        n > 0,
    ensures
        n % n == 0,
{
    assert(n % n == 0) by (nonlinear_arith)
        requires
            n > 0,
    ;
}

/// No function can strictly increase along every edge of a cycle.
pub proof fn lemma_no_increasing_cycle(f: spec_fn(int) -> int, n: int)
    requires
        n > 0,
    ensures
        exists|i: int| 0 <= i < n && !(#[trigger] f(i) < f((i + 1) % n)),
{
    if forall|i: int| 0 <= i < n ==> #[trigger] f(i) < f((i + 1) % n) {
        lemma_increasing_prefix(f, n, n - 1);
        assert(f(n - 1) < f(((n - 1) + 1) % n));
        lemma_mod_self(n);
    }
}

proof fn lemma_increasing_prefix(f: spec_fn(int) -> int, n: int, i: int)
    requires
        n > 0,
        0 <= i < n,
        forall|i: int| 0 <= i < n ==> #[trigger] f(i) < f((i + 1) % n),
    ensures
        i > 0 ==> f(0) < f(i),
    decreases i,
{
    if i > 0 {
        lemma_increasing_prefix(f, n, i - 1);
        assert(f(i - 1) < f(((i - 1) + 1) % n));
        lemma_mod_small(i, n);
    }
}

} // verus!

//! Cycle detection and the grouping of a graph's steps into levels that can
//! run one after the other.
use vstd::prelude::*;
use crate::workflows::dependency::cycles::{count_true, cycle_reachable, position_of};
use crate::workflows::dependency::dag::DependencyGraph;
use crate::workflows::dependency::graph_model::{
    cycle_reachable_from, exact_level, has_edge, has_level, is_cycle, lemma_exact_exists,
    lemma_leveled_monotone, lemma_leveled_step, lemma_mod_self, lemma_mod_small,
    lemma_no_level_beyond, lemma_pigeonhole, leveled_within, reach_within, reachable, views, Vertex,
};

verus! {

/// Why a graph could not be ordered.
#[derive(Debug, Clone, PartialEq, Eq)]
pub enum GraphError {
    /// A cycle can be reached from this step.
    CycleDetected(String),
    /// Some step never becomes ready: its dependencies lead outside the
    /// graph's steps, or a step is listed twice.
    Unsortable,
}

impl GraphError {
    /// The message that describes the error.
    pub fn to_string(&self) -> (r: String)
        ensures
            match self {
                GraphError::CycleDetected(n) => r@ == "Graph contains a cycle involving node: "@
                    + n@,
                GraphError::Unsortable => r@ == "Graph has cycles, cannot perform topological sort"@,
            },
    {
        match self {
            GraphError::CycleDetected(n) => {
                let mut s = String::from_str("Graph contains a cycle involving node: ");
                s.append(n.as_str());
                s
            },
            GraphError::Unsortable => String::from_str(
                "Graph has cycles, cannot perform topological sort",
            ),
        }
    }
}

/// `i` is the first step from which a cycle can be reached.
pub open spec fn first_cyclic(nv: Seq<Vertex>, ev: Seq<(Vertex, Vertex)>, i: int) -> bool {
    &&& 0 <= i < nv.len()
    &&& cycle_reachable_from(ev, nv[i])
    &&& forall|h: int| 0 <= h < i ==> !cycle_reachable_from(ev, #[trigger] nv[h])
}

/// No cycle can be reached from any step.
pub open spec fn acyclic_from(nv: Seq<Vertex>, ev: Seq<(Vertex, Vertex)>) -> bool {
    forall|i: int| 0 <= i < nv.len() ==> !cycle_reachable_from(ev, #[trigger] nv[i])
}

/// What cycle detection answers: success exactly when no cycle can be
/// reached from a step, and otherwise the first step from which one can.
pub open spec fn cycle_outcome(
    nv: Seq<Vertex>,
    ev: Seq<(Vertex, Vertex)>,
    r: Result<(), GraphError>,
) -> bool {
    match r {
        Ok(_) => acyclic_from(nv, ev),
        Err(GraphError::CycleDetected(n)) => exists|i: int| first_cyclic(nv, ev, i) && nv[i] == n@,
        Err(GraphError::Unsortable) => false,
    }
}

/// `l` lists, once each, exactly the steps of level `k`.
pub open spec fn is_level(nv: Seq<Vertex>, ev: Seq<(Vertex, Vertex)>, l: Seq<Vertex>, k: nat) -> bool {
    &&& l.len() > 0
    &&& l.no_duplicates()
    &&& forall|x: Vertex| #[trigger] l.contains(x) <==> (nv.contains(x) && exact_level(nv, ev, x, k))
}

/// The levels of an ordering, by their characters.
pub open spec fn level_views(levels: Seq<Vec<String>>) -> Seq<Seq<Vertex>> {
    levels.map_values(|l: Vec<String>| views(l@))
}

/// `lv` is the ordering of the steps into levels: entry `k` is level `k`,
/// and every step is in some entry.
pub open spec fn sorted_into(nv: Seq<Vertex>, ev: Seq<(Vertex, Vertex)>, lv: Seq<Seq<Vertex>>) -> bool {
    &&& forall|k: int| 0 <= k < lv.len() ==> is_level(nv, ev, #[trigger] lv[k], k as nat)
    &&& forall|x: Vertex|
        nv.contains(x) ==> exists|k: int| 0 <= k < lv.len() && #[trigger] lv[k].contains(x)
}

/// Every step is listed once and belongs to some level.
pub open spec fn sortable(nv: Seq<Vertex>, ev: Seq<(Vertex, Vertex)>) -> bool {
    &&& nv.no_duplicates()
    &&& forall|i: int| 0 <= i < nv.len() ==> has_level(nv, ev, #[trigger] nv[i])
}

/// What ordering answers: the levels when no cycle can be reached and every
/// step has a level; the first cyclic step when a cycle can be reached;
/// `Unsortable` otherwise.
pub open spec fn sort_outcome(
    nv: Seq<Vertex>,
    ev: Seq<(Vertex, Vertex)>,
    r: Result<Vec<Vec<String>>, GraphError>,
) -> bool {
    match r {
        Ok(levels) => acyclic_from(nv, ev) && sortable(nv, ev) && sorted_into(
            nv,
            ev,
            level_views(levels@),
        ),
        Err(GraphError::CycleDetected(n)) => exists|i: int| first_cyclic(nv, ev, i) && nv[i] == n@,
        Err(GraphError::Unsortable) => acyclic_from(nv, ev) && !sortable(nv, ev),
    }
}

/// Checks the steps in order and reports the first one from which a cycle
/// can be reached.
pub fn detect_cycles(graph: &DependencyGraph) -> (r: Result<(), GraphError>)
    ensures
        cycle_outcome(graph.node_views(), graph.edge_set(), r),
{
    let ghost nv = graph.node_views();
    let ghost ev = graph.edge_set();
    let mut i: usize = 0;
    while i < graph.nodes.len()
        invariant
            i <= graph.nodes@.len(),
            nv == graph.node_views(),
            ev == graph.edge_set(),
            forall|h: int| 0 <= h < i ==> !cycle_reachable_from(ev, #[trigger] nv[h]),
        decreases graph.nodes@.len() - i,
    {
        if cycle_reachable(&graph.edges, &graph.nodes[i]) {
            let n = graph.nodes[i].clone();
            assert(first_cyclic(nv, ev, i as int));
            return Err(GraphError::CycleDetected(n));
        }
        i = i + 1;
    }
    Ok(())
}

/// Whether no two entries of `vs` have the same characters.
fn all_distinct(vs: &Vec<String>) -> (r: bool)
    ensures
        r == views(vs@).no_duplicates(),
{
    let ghost v = views(vs@);
    let mut i: usize = 0;
    while i < vs.len()
        invariant
            i <= vs@.len(),
            v == views(vs@),
            forall|a: int, b: int| 0 <= a < i && 0 <= b < i && a != b ==> v[a] != v[b],
        decreases vs@.len() - i,
    {
        let mut j: usize = 0;
        while j < i
            invariant
                j <= i < vs@.len(),
                v == views(vs@),
                forall|b: int| 0 <= b < j ==> v[b] != v[i as int],
            decreases i - j,
        {
            if vs[j] == vs[i] {
                assert(v[j as int] == v[i as int]);
                return false;
            }
            j = j + 1;
        }
        i = i + 1;
    }
    true
}

/// Every edge into `v` starts at a step marked in `placed`.
spec fn preds_placed(nv: Seq<Vertex>, ev: Seq<(Vertex, Vertex)>, placed: Seq<bool>, v: Vertex) -> bool {
    forall|j: int|
        0 <= j < ev.len() && #[trigger] ev[j].1 == v ==> exists|p: int|
            0 <= p < nv.len() && #[trigger] nv[p] == ev[j].0 && placed[p]
}

/// `placed` marks exactly the steps leveled within `k - 1` (none, at `k == 0`).
spec fn placed_before(nv: Seq<Vertex>, ev: Seq<(Vertex, Vertex)>, placed: Seq<bool>, k: nat) -> bool {
    &&& placed.len() == nv.len()
    &&& forall|i: int|
        0 <= i < nv.len() ==> (#[trigger] placed[i] <==> (k > 0 && leveled_within(
            nv,
            ev,
            nv[i],
            (k - 1) as nat,
        )))
}

/// With the steps before level `k` marked, a step whose predecessors are
/// all marked is exactly a step leveled within `k`.
proof fn lemma_ready_iff(
    nv: Seq<Vertex>,
    ev: Seq<(Vertex, Vertex)>,
    placed: Seq<bool>,
    k: nat,
    v: Vertex,
)
    requires
        placed_before(nv, ev, placed, k),
    ensures
        preds_placed(nv, ev, placed, v) <==> leveled_within(nv, ev, v, k),
{
    if preds_placed(nv, ev, placed, v) {
        if k == 0 {
            assert forall|j: int| 0 <= j < ev.len() implies #[trigger] ev[j].1 != v by {
                if ev[j].1 == v {
                    let p = choose|p: int| 0 <= p < nv.len() && #[trigger] nv[p] == ev[j].0 && placed[p];
                }
            }
        } else {
            assert forall|j: int| 0 <= j < ev.len() && #[trigger] ev[j].1 == v implies nv.contains(
                ev[j].0,
            ) && leveled_within(nv, ev, ev[j].0, (k - 1) as nat) by {
                let p = choose|p: int| 0 <= p < nv.len() && #[trigger] nv[p] == ev[j].0 && placed[p];
            }
        }
    }
    if leveled_within(nv, ev, v, k) {
        assert forall|j: int| 0 <= j < ev.len() && #[trigger] ev[j].1 == v implies exists|p: int|
            0 <= p < nv.len() && #[trigger] nv[p] == ev[j].0 && placed[p] by {
            let p = choose|p: int| 0 <= p < nv.len() && nv[p] == ev[j].0;
            assert(placed[p]);
        }
    }
}

/// Whether every edge into `nodes[i]` starts at a step marked in `placed`.
fn preds_all_placed(graph: &DependencyGraph, placed: &Vec<bool>, i: usize) -> (r: bool)
    requires
        placed@.len() == graph.nodes@.len(),
        i < graph.nodes@.len(),
        graph.node_views().no_duplicates(),
    ensures
        r == preds_placed(graph.node_views(), graph.edge_set(), placed@, graph.node_views()[i as int]),
{
    let ghost nv = graph.node_views();
    let ghost ev = graph.edge_set();
    let v = &graph.nodes[i];
    let mut j: usize = 0;
    while j < graph.edges.len()
        invariant
            j <= graph.edges@.len(),
            nv == graph.node_views(),
            ev == graph.edge_set(),
            nv.no_duplicates(),
            placed@.len() == nv.len(),
            v@ == nv[i as int],
            forall|q: int|
                0 <= q < j && #[trigger] ev[q].1 == v@ ==> exists|p: int|
                    0 <= p < nv.len() && #[trigger] nv[p] == ev[q].0 && placed@[p],
        decreases graph.edges@.len() - j,
    {
        if graph.edges[j].1 == *v {
            assert(ev[j as int].1 == v@);
            match position_of(&graph.nodes, &graph.edges[j].0) {
                Some(p) => {
                    if !placed[p] {
                        assert forall|p2: int|
                            0 <= p2 < nv.len() && #[trigger] nv[p2] == ev[j as int].0 implies !placed@[p2] by {
                            assert(nv[p as int] == ev[j as int].0);
                        }
                        return false;
                    }
                    assert(nv[p as int] == ev[j as int].0);
                },
                None => {
                    assert forall|p2: int|
                        0 <= p2 < nv.len() && #[trigger] nv[p2] == ev[j as int].0 implies false by {
                        assert(nv.contains(nv[p2]));
                    }
                    return false;
                },
            }
        }
        j = j + 1;
    }
    true
}

/// Appending a mark adds one to the count exactly when the mark is set.
proof fn lemma_count_push(s: Seq<bool>, b: bool)
    ensures
        count_true(s.push(b)) == count_true(s) + if b {
            1nat
        } else {
            0nat
        },
{
    assert(s.push(b).drop_last() =~= s);
}

/// The count is at most the length, and equals it exactly when every
/// entry is marked.
proof fn lemma_count_full(s: Seq<bool>)
    ensures
        count_true(s) <= s.len(),
        count_true(s) == s.len() <==> forall|i: int| 0 <= i < s.len() ==> s[i],
    decreases s.len(),
{
    if s.len() > 0 {
        lemma_count_full(s.drop_last());
        if forall|i: int| 0 <= i < s.len() ==> s[i] {
            assert forall|i: int| 0 <= i < s.drop_last().len() implies s.drop_last()[i] by {
                assert(s[i]);
            }
        }
        if count_true(s) == s.len() {
            assert forall|i: int| 0 <= i < s.len() implies s[i] by {
                if i < s.len() - 1 {
                    assert(s.drop_last()[i] == s[i]);
                }
            }
        }
    }
}

/// One round: the steps of level `k` (those not yet marked whose
/// predecessors are all marked), and the marks extended by them.
fn next_level(graph: &DependencyGraph, placed: &Vec<bool>, Ghost(k): Ghost<nat>) -> (r: (
    Vec<String>,
    Vec<bool>,
))
    requires
        graph.node_views().no_duplicates(),
        placed_before(graph.node_views(), graph.edge_set(), placed@, k),
    ensures
        views(r.0@).no_duplicates(),
        forall|x: Vertex| #[trigger]
            views(r.0@).contains(x) <==> (graph.node_views().contains(x) && exact_level(
                graph.node_views(),
                graph.edge_set(),
                x,
                k,
            )),
        placed_before(graph.node_views(), graph.edge_set(), r.1@, k + 1),
        count_true(r.1@) == count_true(placed@) + r.0@.len(),
{
    let ghost nv = graph.node_views();
    let ghost ev = graph.edge_set();
    let mut level: Vec<String> = Vec::new();
    let mut next: Vec<bool> = Vec::new();
    let mut i: usize = 0;
    while i < graph.nodes.len()
        invariant
            i <= graph.nodes@.len(),
            nv == graph.node_views(),
            ev == graph.edge_set(),
            nv.no_duplicates(),
            placed_before(nv, ev, placed@, k),
            next@.len() == i,
            forall|q: int| 0 <= q < i ==> (#[trigger] next@[q] <==> leveled_within(nv, ev, nv[q], k)),
            views(level@).no_duplicates(),
            forall|x: Vertex| #[trigger]
                views(level@).contains(x) <==> ((exists|q: int| 0 <= q < i && nv[q] == x)
                    && exact_level(nv, ev, x, k)),
            count_true(next@) == count_true(placed@.take(i as int)) + level@.len(),
        decreases graph.nodes@.len() - i,
    {
        let ghost x = nv[i as int];
        let ghost old_level = views(level@);
        let ghost old_next = next@;
        proof {
            assert(placed@.take(i + 1) =~= placed@.take(i as int).push(placed@[i as int]));
            lemma_count_push(placed@.take(i as int), placed@[i as int]);
        }
        if placed[i] {
            proof {
                lemma_leveled_step(nv, ev, x, (k - 1) as nat);
                lemma_count_push(old_next, true);
            }
            next.push(true);
        } else if preds_all_placed(graph, placed, i) {
            proof {
                lemma_ready_iff(nv, ev, placed@, k, x);
                lemma_count_push(old_next, true);
                assert forall|q: int| 0 <= q < i implies nv[q] != x by {
                    assert(nv[q] != nv[i as int]);
                }
            }
            next.push(true);
            level.push(graph.nodes[i].clone());
            proof {
                assert(views(level@) =~= old_level.push(x));
                assert forall|a: int, b: int|
                    0 <= a < views(level@).len() && 0 <= b < views(level@).len() && a != b implies views(
                    level@,
                )[a] != views(level@)[b] by {
                    if a < old_level.len() && b < old_level.len() {
                    } else if a == old_level.len() {
                        assert(old_level.contains(old_level[b]));
                    } else {
                        assert(old_level.contains(old_level[a]));
                    }
                }
            }
        } else {
            proof {
                lemma_ready_iff(nv, ev, placed@, k, x);
                lemma_count_push(old_next, false);
            }
            next.push(false);
        }
        proof {
            assert(views(level@) == old_level || views(level@) == old_level.push(x));
            assert(views(level@).contains(x) <==> exact_level(nv, ev, x, k)) by {
                if old_level.contains(x) {
                    let q = choose|q: int| 0 <= q < i && nv[q] == x;
                    assert(nv[q] != nv[i as int]);
                }
                if views(level@) == old_level.push(x) {
                    assert(views(level@)[old_level.len() as int] == x);
                }
            }
            assert forall|y: Vertex| #[trigger]
                views(level@).contains(y) <==> ((exists|q: int| 0 <= q < i + 1 && nv[q] == y)
                    && exact_level(nv, ev, y, k)) by {
                assert(old_level.contains(y) <==> ((exists|q: int| 0 <= q < i && nv[q] == y)
                    && exact_level(nv, ev, y, k)));
                if y == x {
                    assert(nv[i as int] == y);
                } else {
                    if views(level@) == old_level.push(x) {
                        if views(level@).contains(y) {
                            let a = choose|a: int| 0 <= a < views(level@).len() && views(level@)[a] == y;
                            assert(a < old_level.len());
                            assert(old_level[a] == y);
                        }
                        if old_level.contains(y) {
                            let a = choose|a: int| 0 <= a < old_level.len() && old_level[a] == y;
                            assert(views(level@)[a] == y);
                        }
                    }
                    if exists|q: int| 0 <= q < i + 1 && nv[q] == y {
                        let q = choose|q: int| 0 <= q < i + 1 && nv[q] == y;
                        assert(q < i);
                    }
                }
            }
        }
        i = i + 1;
    }
    proof {
        assert(placed@.take(placed@.len() as int) =~= placed@);
        assert forall|x: Vertex| #[trigger]
            views(level@).contains(x) <==> (nv.contains(x) && exact_level(nv, ev, x, k)) by {
            if nv.contains(x) {
                let q = choose|q: int| 0 <= q < nv.len() && nv[q] == x;
                assert(exists|q: int| 0 <= q < nv.len() && nv[q] == x);
            }
        }
    }
    (level, next)
}

/// Groups the steps into levels: level 0 holds the steps with no
/// dependency; level `k + 1` the steps whose dependencies all lie in levels
/// up to `k`, at least one in level `k`. Fails when a cycle can be reached
/// from a step, when a step is listed twice, and when a step never gets a
/// level.
pub fn topological_sort(graph: &DependencyGraph) -> (r: Result<Vec<Vec<String>>, GraphError>)
    ensures
        sort_outcome(graph.node_views(), graph.edge_set(), r),
{
    match detect_cycles(graph) {
        Err(e) => {
            return Err(e);
        },
        Ok(_) => {},
    }
    let ghost nv = graph.node_views();
    let ghost ev = graph.edge_set();
    if !all_distinct(&graph.nodes) {
        return Err(GraphError::Unsortable);
    }
    let n = graph.nodes.len();
    let mut placed: Vec<bool> = Vec::new();
    let mut j: usize = 0;
    while j < n
        invariant
            j <= n,
            placed@.len() == j,
            forall|q: int| 0 <= q < j ==> !#[trigger] placed@[q],
        decreases n - j,
    {
        placed.push(false);
        j = j + 1;
    }
    proof {
        assert(count_true(placed@) == 0) by {
            lemma_count_full(placed@);
            if count_true(placed@) > 0 {
                lemma_count_zero_marks(placed@);
            }
        }
    }
    let mut count: usize = 0;
    let mut levels: Vec<Vec<String>> = Vec::new();
    loop
        invariant
            n == graph.nodes@.len(),
            nv == graph.node_views(),
            ev == graph.edge_set(),
            nv.no_duplicates(),
            placed_before(nv, ev, placed@, levels@.len() as nat),
            count == count_true(placed@),
            forall|q: int| 0 <= q < levels@.len() ==> is_level(nv, ev, #[trigger] level_views(levels@)[q], q as nat),
        ensures
            placed_before(nv, ev, placed@, levels@.len() as nat),
            count == count_true(placed@),
            forall|q: int| 0 <= q < levels@.len() ==> is_level(nv, ev, #[trigger] level_views(levels@)[q], q as nat),
            forall|x: Vertex| nv.contains(x) ==> !#[trigger] exact_level(nv, ev, x, levels@.len() as nat),
        decreases n - count,
    {
        proof {
            lemma_count_full(placed@);
        }
        let ghost k = levels@.len() as nat;
        let (level, next) = next_level(graph, &placed, Ghost(k));
        if level.len() == 0 {
            assert forall|x: Vertex| nv.contains(x) implies !#[trigger] exact_level(nv, ev, x, k) by {
                assert(!views(level@).contains(x));
            }
            break;
        }
        proof {
            lemma_count_full(next@);
        }
        let ghost old_levels = levels@;
        placed = next;
        count = count + level.len();
        levels.push(level);
        proof {
            assert forall|q: int| 0 <= q < levels@.len() implies is_level(
                nv,
                ev,
                #[trigger] level_views(levels@)[q],
                q as nat,
            ) by {
                if q < old_levels.len() {
                    assert(level_views(levels@)[q] == level_views(old_levels)[q]);
                }
            }
        }
    }
    let ghost k = levels@.len() as nat;
    proof {
        lemma_count_full(placed@);
    }
    if count == n {
        proof {
            assert forall|i: int| 0 <= i < nv.len() implies has_level(nv, ev, #[trigger] nv[i]) by {
                assert(placed@[i]);
                assert(leveled_within(nv, ev, nv[i], (k - 1) as nat));
            }
            assert forall|x: Vertex| nv.contains(x) implies exists|q: int|
                0 <= q < level_views(levels@).len() && #[trigger] level_views(levels@)[q].contains(x) by {
                let i = choose|i: int| 0 <= i < nv.len() && nv[i] == x;
                assert(placed@[i]);
                lemma_exact_exists(nv, ev, x, (k - 1) as nat);
                let q = choose|q: nat| q <= k - 1 && #[trigger] exact_level(nv, ev, x, q);
                assert(is_level(nv, ev, level_views(levels@)[q as int], q));
                assert(level_views(levels@)[q as int].contains(x));
            }
        }
        Ok(levels)
    } else {
        proof {
            let i = choose|i: int| 0 <= i < placed@.len() && !placed@[i];
            if has_level(nv, ev, nv[i]) {
                let m = choose|m: nat| #[trigger] leveled_within(nv, ev, nv[i], m);
                assert(nv.contains(nv[i]));
                if m >= k {
                    lemma_no_level_beyond(nv, ev, k, nv[i], m);
                } else {
                    lemma_leveled_monotone(nv, ev, nv[i], m, (k - 1) as nat);
                }
            }
        }
        Err(GraphError::Unsortable)
    }
}

/// In a topological order, a step comes in a strictly later level than
/// every step it depends on.
pub proof fn lemma_levels_respect_edges(
    nv: Seq<Vertex>,
    ev: Seq<(Vertex, Vertex)>,
    lv: Seq<Seq<Vertex>>,
    j: int,
    a: int,
    b: int,
)
    requires
        sorted_into(nv, ev, lv),
        0 <= j < ev.len(),
        0 <= a < lv.len(),
        0 <= b < lv.len(),
        lv[a].contains(ev[j].0),
        lv[b].contains(ev[j].1),
    ensures
        a < b,
{
    let u = ev[j].0;
    let v = ev[j].1;
    assert(is_level(nv, ev, lv[a], a as nat));
    assert(is_level(nv, ev, lv[b], b as nat));
    assert(exact_level(nv, ev, u, a as nat));
    assert(exact_level(nv, ev, v, b as nat));
    assert(b > 0) by {
        if b == 0 {
            assert(ev[j].1 != v);
        }
    }
    assert(leveled_within(nv, ev, u, (b - 1) as nat));
    if a >= b {
        lemma_leveled_monotone(nv, ev, u, (b - 1) as nat, (a - 1) as nat);
    }
}

/// In a topological order, every step lies in exactly one level.
pub proof fn lemma_level_unique(
    nv: Seq<Vertex>,
    ev: Seq<(Vertex, Vertex)>,
    lv: Seq<Seq<Vertex>>,
    x: Vertex,
    a: int,
    b: int,
)
    requires
        sorted_into(nv, ev, lv),
        0 <= a < lv.len(),
        0 <= b < lv.len(),
        lv[a].contains(x),
        lv[b].contains(x),
    ensures
        a == b,
{
    assert(is_level(nv, ev, lv[a], a as nat));
    assert(is_level(nv, ev, lv[b], b as nat));
    if a < b {
        lemma_leveled_monotone(nv, ev, x, a as nat, (b - 1) as nat);
    } else if b < a {
        lemma_leveled_monotone(nv, ev, x, b as nat, (a - 1) as nat);
    }
}

/// A count above zero means some entry is marked.
proof fn lemma_count_zero_marks(s: Seq<bool>)
    requires
        count_true(s) > 0,
    ensures
        exists|i: int| 0 <= i < s.len() && s[i],
    decreases s.len(),
{
    if s.len() > 0 {
        if s.last() {
            assert(s[s.len() - 1]);
        } else {
            lemma_count_zero_marks(s.drop_last());
            let i = choose|i: int| 0 <= i < s.drop_last().len() && s.drop_last()[i];
            assert(s[i]);
        }
    }
}

/// Every dependency of a step is itself a step.
pub open spec fn deps_are_steps(nv: Seq<Vertex>, ev: Seq<(Vertex, Vertex)>) -> bool {
    forall|j: int| 0 <= j < ev.len() && nv.contains(#[trigger] ev[j].1) ==> nv.contains(ev[j].0)
}

/// Walking backwards along edges from `v`, through steps that satisfy `p`:
/// a chain of `len` steps, each with an edge from the next one.
proof fn lemma_descent_chain(
    nv: Seq<Vertex>,
    ev: Seq<(Vertex, Vertex)>,
    p: spec_fn(Vertex) -> bool,
    v: Vertex,
    len: nat,
) -> (c: Seq<Vertex>)
    requires
        len > 0,
        nv.contains(v),
        p(v),
        forall|u: Vertex|
            nv.contains(u) && #[trigger] p(u) ==> exists|j: int|
                0 <= j < ev.len() && #[trigger] ev[j].1 == u && nv.contains(ev[j].0) && p(ev[j].0),
    ensures
        c.len() == len,
        c[0] == v,
        forall|i: int| 0 <= i < c.len() ==> nv.contains(#[trigger] c[i]) && p(c[i]),
        forall|i: int| 0 <= i < c.len() - 1 ==> has_edge(ev, #[trigger] c[i + 1], c[i]),
    decreases len,
{
    if len == 1 {
        seq![v]
    } else {
        let c0 = lemma_descent_chain(nv, ev, p, v, (len - 1) as nat);
        let last = c0[c0.len() - 1];
        assert(nv.contains(last) && p(last));
        let j = choose|j: int| 0 <= j < ev.len() && #[trigger] ev[j].1 == last && nv.contains(ev[j].0) && p(ev[j].0);
        let c = c0.push(ev[j].0);
        assert(ev[j] == (ev[j].0, last));
        assert(has_edge(ev, ev[j].0, last));
        assert forall|i: int| 0 <= i < c.len() - 1 implies has_edge(ev, #[trigger] c[i + 1], c[i]) by {
            if i < c0.len() - 1 {
                assert(c[i + 1] == c0[i + 1] && c[i] == c0[i]);
            } else {
                assert(c[i + 1] == ev[j].0 && c[i] == last);
            }
        }
        assert forall|i: int| 0 <= i < c.len() implies nv.contains(#[trigger] c[i]) && p(c[i]) by {
            if i < c0.len() {
                assert(c[i] == c0[i]);
            }
        }
        c
    }
}

/// More steps than `nv` lists, all among them, repeat one.
proof fn lemma_chain_repeats(nv: Seq<Vertex>, c: Seq<Vertex>)
    requires
        c.len() == nv.len() + 1,
        forall|i: int| 0 <= i < c.len() ==> nv.contains(#[trigger] c[i]),
    ensures
        exists|a: int, b: int| 0 <= a < b < c.len() && c[a] == c[b],
{
    let n = nv.len() as int;
    let s = Seq::new((n + 1) as nat, |i: int| choose|q: int| 0 <= q < nv.len() && nv[q] == c[i]);
    assert forall|i: int| 0 <= i < s.len() implies 0 <= #[trigger] s[i] < n && nv[s[i]] == c[i] by {
        assert(nv.contains(c[i]));
    }
    lemma_pigeonhole(s, n);
    let (a, b) = choose|a: int, b: int| 0 <= a < b < s.len() && s[a] == s[b];
    assert(nv[s[a]] == c[a] && nv[s[b]] == c[b]);
}

/// A chain of edges that comes back to a step it passed is a cycle that
/// can be reached from that step.
proof fn lemma_chain_cycle(ev: Seq<(Vertex, Vertex)>, c: Seq<Vertex>, a: int, b: int)
    requires
        0 <= a < b < c.len(),
        c[a] == c[b],
        forall|i: int| 0 <= i < c.len() - 1 ==> has_edge(ev, #[trigger] c[i + 1], c[i]),
    ensures
        cycle_reachable_from(ev, c[b]),
{
    let len = b - a;
    let cyc = Seq::new(len as nat, |i: int| c[b - i]);
    assert forall|i: int| 0 <= i < cyc.len() implies #[trigger] has_edge(ev, cyc[i], cyc[(i + 1) % (cyc.len() as int)]) by {
        if i + 1 < len {
            lemma_mod_small(i + 1, len);
            assert(has_edge(ev, c[(b - i - 1) + 1], c[b - i - 1]));
        } else {
            lemma_mod_self(len);
            assert(has_edge(ev, c[a + 1], c[a]));
        }
    }
    assert(is_cycle(ev, cyc));
    assert(reach_within(ev, c[b], cyc[0], 0));
    assert(reachable(ev, c[b], cyc[0]));
}

/// If every step satisfying `p` depends on another step satisfying `p`,
/// and some step satisfies `p`, a cycle can be reached from a step.
pub proof fn lemma_descent_gives_cycle(nv: Seq<Vertex>, ev: Seq<(Vertex, Vertex)>, p: spec_fn(Vertex) -> bool, v: Vertex)
    requires
        nv.contains(v),
        p(v),
        forall|u: Vertex|
            nv.contains(u) && #[trigger] p(u) ==> exists|j: int|
                0 <= j < ev.len() && #[trigger] ev[j].1 == u && nv.contains(ev[j].0) && p(ev[j].0),
    ensures
        !acyclic_from(nv, ev),
{
    let c = lemma_descent_chain(nv, ev, p, v, (nv.len() + 1) as nat);
    lemma_chain_repeats(nv, c);
    let (a, b) = choose|a: int, b: int| 0 <= a < b < c.len() && c[a] == c[b];
    lemma_chain_cycle(ev, c, a, b);
    assert(nv.contains(c[b]));
    let q = choose|q: int| 0 <= q < nv.len() && nv[q] == c[b];
    assert(cycle_reachable_from(ev, nv[q]));
}

/// Among the first `n` edges, all those into `v` come from steps leveled
/// within one bound, when they all come from steps with a level.
proof fn lemma_preds_bound(nv: Seq<Vertex>, ev: Seq<(Vertex, Vertex)>, v: Vertex, n: int) -> (m: nat)
    requires
        0 <= n <= ev.len(),
        forall|j: int| 0 <= j < n && #[trigger] ev[j].1 == v ==> has_level(nv, ev, ev[j].0),
    ensures
        forall|j: int| 0 <= j < n && #[trigger] ev[j].1 == v ==> leveled_within(nv, ev, ev[j].0, m),
    decreases n,
{
    if n == 0 {
        0
    } else {
        let m0 = lemma_preds_bound(nv, ev, v, n - 1);
        if ev[n - 1].1 == v {
            let k = choose|k: nat| #[trigger] leveled_within(nv, ev, ev[n - 1].0, k);
            let m = if k > m0 {
                k
            } else {
                m0
            };
            assert forall|j: int| 0 <= j < n && #[trigger] ev[j].1 == v implies leveled_within(nv, ev, ev[j].0, m) by {
                if j < n - 1 {
                    lemma_leveled_monotone(nv, ev, ev[j].0, m0, m);
                } else {
                    lemma_leveled_monotone(nv, ev, ev[j].0, k, m);
                }
            }
            m
        } else {
            m0
        }
    }
}

/// A step without a level depends on another step without a level, when
/// every dependency of a step is a step.
proof fn lemma_unleveled_pred(nv: Seq<Vertex>, ev: Seq<(Vertex, Vertex)>, v: Vertex)
    requires
        nv.contains(v),
        !has_level(nv, ev, v),
        deps_are_steps(nv, ev),
    ensures
        exists|j: int|
            0 <= j < ev.len() && #[trigger] ev[j].1 == v && nv.contains(ev[j].0) && !has_level(nv, ev, ev[j].0),
{
    if !(exists|j: int|
        0 <= j < ev.len() && #[trigger] ev[j].1 == v && nv.contains(ev[j].0) && !has_level(nv, ev, ev[j].0)) {
        assert forall|j: int| 0 <= j < ev.len() && #[trigger] ev[j].1 == v implies has_level(nv, ev, ev[j].0) by {
            assert(nv.contains(ev[j].0));
        }
        let m = lemma_preds_bound(nv, ev, v, ev.len() as int);
        assert(leveled_within(nv, ev, v, m + 1));
        assert(has_level(nv, ev, v));
    }
}

/// When no cycle can be reached from a step and every dependency of a step
/// is a step, every step gets a level.
pub proof fn lemma_acyclic_steps_have_levels(nv: Seq<Vertex>, ev: Seq<(Vertex, Vertex)>)
    requires
        acyclic_from(nv, ev),
        deps_are_steps(nv, ev),
    ensures
        forall|i: int| 0 <= i < nv.len() ==> has_level(nv, ev, #[trigger] nv[i]),
{
    assert forall|i: int| 0 <= i < nv.len() implies has_level(nv, ev, #[trigger] nv[i]) by {
        if !has_level(nv, ev, nv[i]) {
            let p = |u: Vertex| !has_level(nv, ev, u);
            assert forall|u: Vertex| nv.contains(u) && #[trigger] p(u) implies exists|j: int|
                0 <= j < ev.len() && #[trigger] ev[j].1 == u && nv.contains(ev[j].0) && p(ev[j].0) by {
                lemma_unleveled_pred(nv, ev, u);
            }
            lemma_descent_gives_cycle(nv, ev, p, nv[i]);
        }
    }
}

/// Ordering steps that are listed once each, whose dependencies are all
/// steps and from which no cycle can be reached, succeeds.
pub proof fn lemma_sort_succeeds(nv: Seq<Vertex>, ev: Seq<(Vertex, Vertex)>, r: Result<Vec<Vec<String>>, GraphError>)
    requires
        sort_outcome(nv, ev, r),
        acyclic_from(nv, ev),
        nv.no_duplicates(),
        deps_are_steps(nv, ev),
    ensures
        r is Ok,
{
    lemma_acyclic_steps_have_levels(nv, ev);
    match r {
        Err(GraphError::CycleDetected(n)) => {
            let i = choose|i: int| first_cyclic(nv, ev, i) && nv[i] == n@;
            assert(!cycle_reachable_from(ev, nv[i]));
        },
        _ => {},
    }
}

} // verus!

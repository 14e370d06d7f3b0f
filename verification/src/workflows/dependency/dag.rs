//! The dependency graph of a workflow: its steps, the edges between them,
//! and what each step's execution hinges on.
use vstd::prelude::*;
use crate::collections::OrderedMap;
use crate::workflows::dependency::condition::Condition;
use crate::workflows::dependency::graph_model::{edge_views, views, Vertex};
use crate::workflows::dependency::topological_sort::{self, GraphError};

verus! {

/// The identifier of a step.
pub type StepId = String;

/// What one step of a chain depends on.
#[derive(Debug, Clone)]
pub struct DependencyInfo {
    pub step_id: StepId,
    pub depends_on: Vec<StepId>,
    pub depends_on_any: bool,
    pub condition: Option<Condition>,
}

/// Steps (nodes) and dependencies (edges). An edge `(from, to)` means that
/// `to` depends on `from`.
#[derive(Debug, Clone)]
pub struct DependencyGraph {
    pub nodes: Vec<StepId>,
    pub edges: Vec<(StepId, StepId)>,
    pub conditions: OrderedMap<Condition>,
    pub depends_on_any: OrderedMap<bool>,
}

/// The sources of the edges that end in `v`, in edge order.
pub open spec fn sources_into(ev: Seq<(Vertex, Vertex)>, v: Vertex) -> Seq<Vertex>
    decreases ev.len(),
{
    if ev.len() == 0 {
        Seq::empty()
    } else {
        let rest = sources_into(ev.drop_last(), v);
        if ev.last().1 == v {
            rest.push(ev.last().0)
        } else {
            rest
        }
    }
}

/// The targets of the edges that start in `v`, in edge order.
pub open spec fn targets_from(ev: Seq<(Vertex, Vertex)>, v: Vertex) -> Seq<Vertex>
    decreases ev.len(),
{
    if ev.len() == 0 {
        Seq::empty()
    } else {
        let rest = targets_from(ev.drop_last(), v);
        if ev.last().0 == v {
            rest.push(ev.last().1)
        } else {
            rest
        }
    }
}

/// `a` is among the sources of the edges into `v` exactly when `(a, v)` is
/// an edge.
pub proof fn lemma_sources_are_edges(ev: Seq<(Vertex, Vertex)>, v: Vertex, a: Vertex)
    ensures
        sources_into(ev, v).contains(a) <==> ev.contains((a, v)),
    decreases ev.len(),
{
    if ev.len() > 0 {
        let rest = ev.drop_last();
        lemma_sources_are_edges(rest, v, a);
        if ev.contains((a, v)) {
            let i = choose|i: int| 0 <= i < ev.len() && ev[i] == (a, v);
            if i < ev.len() - 1 {
                assert(rest[i] == (a, v));
            }
        }
        if rest.contains((a, v)) {
            let i = choose|i: int| 0 <= i < rest.len() && rest[i] == (a, v);
            assert(ev[i] == (a, v));
        }
        if ev.last().1 == v {
            let s = sources_into(rest, v).push(ev.last().0);
            if sources_into(rest, v).contains(a) {
                let i = choose|i: int| 0 <= i < sources_into(rest, v).len() && sources_into(rest, v)[i] == a;
                assert(s[i] == a);
            }
            if s.contains(a) && a != ev.last().0 {
                let i = choose|i: int| 0 <= i < s.len() && s[i] == a;
                assert(sources_into(rest, v)[i] == a);
            }
            if a == ev.last().0 {
                assert(s[s.len() - 1] == a);
                assert(ev[ev.len() - 1] == (a, v));
            }
        }
    }
}

/// `b` is among the targets of the edges out of `v` exactly when `(v, b)`
/// is an edge.
pub proof fn lemma_targets_are_edges(ev: Seq<(Vertex, Vertex)>, v: Vertex, b: Vertex)
    ensures
        targets_from(ev, v).contains(b) <==> ev.contains((v, b)),
    decreases ev.len(),
{
    if ev.len() > 0 {
        let rest = ev.drop_last();
        lemma_targets_are_edges(rest, v, b);
        if ev.contains((v, b)) {
            let i = choose|i: int| 0 <= i < ev.len() && ev[i] == (v, b);
            if i < ev.len() - 1 {
                assert(rest[i] == (v, b));
            }
        }
        if rest.contains((v, b)) {
            let i = choose|i: int| 0 <= i < rest.len() && rest[i] == (v, b);
            assert(ev[i] == (v, b));
        }
        if ev.last().0 == v {
            let t = targets_from(rest, v).push(ev.last().1);
            if targets_from(rest, v).contains(b) {
                let i = choose|i: int| 0 <= i < targets_from(rest, v).len() && targets_from(rest, v)[i] == b;
                assert(t[i] == b);
            }
            if t.contains(b) && b != ev.last().1 {
                let i = choose|i: int| 0 <= i < t.len() && t[i] == b;
                assert(targets_from(rest, v)[i] == b);
            }
            if b == ev.last().1 {
                assert(t[t.len() - 1] == b);
                assert(ev[ev.len() - 1] == (v, b));
            }
        }
    }
}

/// Dependencies and dependents mirror each other: `a` is a dependency of
/// `b` exactly when `b` is a dependent of `a`.
pub proof fn lemma_dependencies_mirror_dependents(g: DependencyGraph, a: Vertex, b: Vertex)
    ensures
        sources_into(g.edge_set(), b).contains(a) <==> targets_from(g.edge_set(), a).contains(b),
{
    lemma_sources_are_edges(g.edge_set(), b, a);
    lemma_targets_are_edges(g.edge_set(), a, b);
}

impl DependencyGraph {
    /// The steps, by their characters.
    pub open spec fn node_views(&self) -> Seq<Vertex> {
        views(self.nodes@)
    }

    /// The dependencies, by their characters.
    pub open spec fn edge_set(&self) -> Seq<(Vertex, Vertex)> {
        edge_views(self.edges@)
    }

    /// An empty graph.
    pub fn new() -> (r: Self)
        ensures
            r.nodes@.len() == 0,
            r.edges@.len() == 0,
            r.conditions@ == Map::<Seq<char>, Condition>::empty(),
            r.depends_on_any@ == Map::<Seq<char>, bool>::empty(),
    {
        DependencyGraph {
            nodes: Vec::new(),
            edges: Vec::new(),
            conditions: OrderedMap::new(),
            depends_on_any: OrderedMap::new(),
        }
    }

    /// Adds a step, unless a step with the same id is already there.
    pub fn add_node(&mut self, step_id: StepId)
        ensures
            old(self).node_views().contains(step_id@) ==> final(self).nodes@ == old(self).nodes@,
            !old(self).node_views().contains(step_id@) ==> final(self).nodes@ == old(
                self,
            ).nodes@.push(step_id),
            final(self).edges@ == old(self).edges@,
            final(self).conditions == old(self).conditions,
            final(self).depends_on_any == old(self).depends_on_any,
    {
        let mut i: usize = 0;
        while i < self.nodes.len()
            invariant
                i <= self.nodes@.len(),
                forall|q: int| 0 <= q < i ==> self.nodes@[q]@ != step_id@,
            decreases self.nodes@.len() - i,
        {
            if self.nodes[i] == step_id {
                assert(self.node_views()[i as int] == step_id@);
                return;
            }
            i = i + 1;
        }
        assert(!self.node_views().contains(step_id@)) by {
            if self.node_views().contains(step_id@) {
                let q = choose|q: int| 0 <= q < self.node_views().len() && self.node_views()[q] == step_id@;
                assert(self.nodes@[q]@ == step_id@);
            }
        }
        self.nodes.push(step_id);
    }

    /// Adds the edge `from -> to`, unless the same edge is already there.
    pub fn add_edge(&mut self, from: StepId, to: StepId)
        ensures
            old(self).edge_set().contains((from@, to@)) ==> final(self).edges@ == old(self).edges@,
            !old(self).edge_set().contains((from@, to@)) ==> final(self).edges@ == old(
                self,
            ).edges@.push((from, to)),
            final(self).nodes@ == old(self).nodes@,
            final(self).conditions == old(self).conditions,
            final(self).depends_on_any == old(self).depends_on_any,
    {
        let mut i: usize = 0;
        while i < self.edges.len()
            invariant
                i <= self.edges@.len(),
                forall|q: int| 0 <= q < i ==> self.edge_set()[q] != (from@, to@),
            decreases self.edges@.len() - i,
        {
            if self.edges[i].0 == from && self.edges[i].1 == to {
                assert(self.edge_set()[i as int] == (from@, to@));
                return;
            }
            i = i + 1;
        }
        self.edges.push((from, to));
    }

    /// Attaches a condition to a step, replacing any earlier one.
    pub fn set_condition(&mut self, step_id: StepId, condition: Condition)
        ensures
            final(self).conditions@ == old(self).conditions@.insert(step_id@, condition),
            final(self).nodes@ == old(self).nodes@,
            final(self).edges@ == old(self).edges@,
            final(self).depends_on_any == old(self).depends_on_any,
    {
        self.conditions.insert(step_id, condition);
    }

    /// Records whether a step runs once any (rather than all) of its dependencies are done.
    pub fn set_depends_on_any(&mut self, step_id: StepId, depends_on_any: bool)
        ensures
            final(self).depends_on_any@ == old(self).depends_on_any@.insert(step_id@, depends_on_any),
            final(self).nodes@ == old(self).nodes@,
            final(self).edges@ == old(self).edges@,
            final(self).conditions == old(self).conditions,
    {
        self.depends_on_any.insert(step_id, depends_on_any);
    }

    /// Groups the steps into levels; see [`topological_sort::topological_sort`].
    pub fn topological_sort(&self) -> (r: Result<Vec<Vec<StepId>>, GraphError>)
        ensures
            topological_sort::sort_outcome(self.node_views(), self.edge_set(), r),
    {
        topological_sort::topological_sort(self)
    }

    /// Reports the first step from which a cycle can be reached; see
    /// [`topological_sort::detect_cycles`].
    pub fn detect_cycles(&self) -> (r: Result<(), GraphError>)
        ensures
            topological_sort::cycle_outcome(self.node_views(), self.edge_set(), r),
    {
        topological_sort::detect_cycles(self)
    }

    /// The steps that `step_id` depends on: the sources of the edges into
    /// it, in edge order.
    pub fn get_dependencies(&self, step_id: &str) -> (r: Vec<StepId>)
        ensures
            views(r@) == sources_into(self.edge_set(), step_id@),
    {
        let key = step_id.to_string();
        let mut r: Vec<StepId> = Vec::new();
        let mut i: usize = 0;
        while i < self.edges.len()
            invariant
                i <= self.edges@.len(),
                key@ == step_id@,
                views(r@) == sources_into(self.edge_set().take(i as int), step_id@),
            decreases self.edges@.len() - i,
        {
            if self.edges[i].1 == key {
                r.push(self.edges[i].0.clone());
            }
            proof {
                assert(self.edge_set().take(i + 1).drop_last() =~= self.edge_set().take(i as int));
                assert(views(r@) =~= sources_into(self.edge_set().take(i + 1), step_id@));
            }
            i = i + 1;
        }
        assert(self.edge_set().take(self.edges@.len() as int) =~= self.edge_set());
        r
    }

    /// The steps that depend on `step_id`: the targets of the edges out of
    /// it, in edge order.
    pub fn get_dependents(&self, step_id: &str) -> (r: Vec<StepId>)
        ensures
            views(r@) == targets_from(self.edge_set(), step_id@),
    {
        let key = step_id.to_string();
        let mut r: Vec<StepId> = Vec::new();
        let mut i: usize = 0;
        while i < self.edges.len()
            invariant
                i <= self.edges@.len(),
                key@ == step_id@,
                views(r@) == targets_from(self.edge_set().take(i as int), step_id@),
            decreases self.edges@.len() - i,
        {
            if self.edges[i].0 == key {
                r.push(self.edges[i].1.clone());
            }
            proof {
                assert(self.edge_set().take(i + 1).drop_last() =~= self.edge_set().take(i as int));
                assert(views(r@) =~= targets_from(self.edge_set().take(i + 1), step_id@));
            }
            i = i + 1;
        }
        assert(self.edge_set().take(self.edges@.len() as int) =~= self.edge_set());
        r
    }

    /// The condition attached to `step_id`, if any.
    pub fn get_condition(&self, step_id: &str) -> (r: Option<&Condition>)
        ensures
            r is Some <==> self.conditions@.contains_key(step_id@),
            r matches Some(c) ==> *c == self.conditions@[step_id@],
    {
        self.conditions.get(step_id)
    }

    /// Whether `step_id` was marked to run once any of its dependencies are
    /// done (false when nothing was recorded).
    pub fn is_depends_on_any(&self, step_id: &str) -> (r: bool)
        ensures
            r == (self.depends_on_any@.contains_key(step_id@) && self.depends_on_any@[step_id@]),
    {
        match self.depends_on_any.get(step_id) {
            Some(b) => *b,
            None => false,
        }
    }
}

impl Default for DependencyGraph {
    fn default() -> (r: Self)
        ensures
            r.nodes@.len() == 0,
            r.edges@.len() == 0,
            r.conditions@ == Map::<Seq<char>, Condition>::empty(),
            r.depends_on_any@ == Map::<Seq<char>, bool>::empty(),
    {
        DependencyGraph::new()
    }
}

} // verus!

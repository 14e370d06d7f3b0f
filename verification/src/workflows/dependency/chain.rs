//! A fluent way to declare steps and their dependencies, turned into a
//! [`DependencyGraph`] by [`DependencyChain::build_dag`].
use vstd::prelude::*;
use crate::collections::{str_views, to_strings};
use crate::workflows::dependency::condition::Condition;
use crate::workflows::dependency::dag::{DependencyGraph, DependencyInfo};
use crate::workflows::dependency::graph_model::{edge_views, views, Vertex};
use crate::workflows::dependency::topological_sort::{cycle_outcome, detect_cycles, GraphError};

verus! {

/// A step's declaration by its characters: its id, the ids it depends on,
/// whether any one of them suffices, and its condition.
pub type InfoView = (Seq<char>, Seq<Seq<char>>, bool, Option<Condition>);

impl View for DependencyInfo {
    type V = InfoView;

    open spec fn view(&self) -> InfoView {
        (self.step_id@, views(self.depends_on@), self.depends_on_any, self.condition)
    }
}

/// `s` with `x` appended, unless `x` is already in it.
pub open spec fn add_unique<T>(s: Seq<T>, x: T) -> Seq<T> {
    if s.contains(x) {
        s
    } else {
        s.push(x)
    }
}

/// The steps of a chain, each id once, in order of first declaration.
pub open spec fn chain_nodes(steps: Seq<InfoView>) -> Seq<Vertex>
    decreases steps.len(),
{
    if steps.len() == 0 {
        Seq::empty()
    } else {
        add_unique(chain_nodes(steps.drop_last()), steps.last().0)
    }
}

/// `edges` extended by an edge from each of `deps` to `id`, each edge once.
pub open spec fn add_dep_edges(edges: Seq<(Vertex, Vertex)>, deps: Seq<Vertex>, id: Vertex) -> Seq<
    (Vertex, Vertex),
>
    decreases deps.len(),
{
    if deps.len() == 0 {
        edges
    } else {
        add_unique(add_dep_edges(edges, deps.drop_last(), id), (deps.last(), id))
    }
}

/// The edges of a chain: from each dependency to the step that declares
/// it, each edge once, in order of first declaration.
pub open spec fn chain_edges(steps: Seq<InfoView>) -> Seq<(Vertex, Vertex)>
    decreases steps.len(),
{
    if steps.len() == 0 {
        Seq::empty()
    } else {
        add_dep_edges(chain_edges(steps.drop_last()), steps.last().1, steps.last().0)
    }
}

/// The conditions of a chain, by step id; a later declaration of the same
/// id replaces an earlier one.
pub open spec fn chain_conditions(steps: Seq<InfoView>) -> Map<Seq<char>, Condition>
    decreases steps.len(),
{
    if steps.len() == 0 {
        Map::empty()
    } else {
        let prev = chain_conditions(steps.drop_last());
        match steps.last().3 {
            Some(c) => prev.insert(steps.last().0, c),
            None => prev,
        }
    }
}

/// The ids of the steps of a chain that run once any one of their
/// dependencies is done.
pub open spec fn chain_any(steps: Seq<InfoView>) -> Map<Seq<char>, bool>
    decreases steps.len(),
{
    if steps.len() == 0 {
        Map::empty()
    } else {
        let prev = chain_any(steps.drop_last());
        if steps.last().2 {
            prev.insert(steps.last().0, true)
        } else {
            prev
        }
    }
}

/// An ordered list of step declarations; each `with_*` call applies to the
/// step declared last.
#[derive(Debug, Clone)]
pub struct DependencyChain {
    steps: Vec<DependencyInfo>,
}

impl View for DependencyChain {
    type V = Seq<InfoView>;

    closed spec fn view(&self) -> Seq<InfoView> {
        self.steps@.map_values(|d: DependencyInfo| d@)
    }
}

/// The same declarations with the last one replaced by `last` (unchanged
/// when there is none).
pub open spec fn update_last(s: Seq<InfoView>, last: InfoView) -> Seq<InfoView> {
    if s.len() == 0 {
        s
    } else {
        s.update(s.len() - 1, last)
    }
}

impl DependencyChain {
    /// An empty chain.
    pub fn new() -> (r: Self)
        ensures
            r@ == Seq::<InfoView>::empty(),
    {
        let r = DependencyChain { steps: Vec::new() };
        assert(r@ =~= Seq::<InfoView>::empty());
        r
    }

    /// Declares a step with no dependency and no condition.
    pub fn add_step(&mut self, step_id: &str) -> (r: &mut Self)
        ensures
            r@ == old(self)@.push((step_id@, Seq::<Seq<char>>::empty(), false, None::<Condition>)),
            *final(self) == *final(r),
    {
        let info = DependencyInfo {
            step_id: step_id.to_string(),
            depends_on: Vec::new(),
            depends_on_any: false,
            condition: None,
        };
        assert(views(info.depends_on@) =~= Seq::<Seq<char>>::empty());
        let ghost before = self@;
        self.steps.push(info);
        assert(self@ =~= before.push(info@));
        self
    }

    /// Takes the last declaration out, if there is one.
    fn last_info(&mut self) -> (r: Option<DependencyInfo>)
        ensures
            old(self).steps@.len() == 0 ==> r is None && final(self).steps@ == old(self).steps@,
            old(self).steps@.len() > 0 ==> r == Some(old(self).steps@.last())
                && final(self).steps@ == old(self).steps@.drop_last(),
    {
        self.steps.pop()
    }

    /// Adds `step_depends_on` to the dependencies of the last step.
    pub fn with_dependency(&mut self, step_depends_on: &str) -> (r: &mut Self)
        ensures
            r@ == update_last(
                old(self)@,
                (
                    old(self)@.last().0,
                    old(self)@.last().1.push(step_depends_on@),
                    old(self)@.last().2,
                    old(self)@.last().3,
                ),
            ),
            *final(self) == *final(r),
    {
        let ghost before = self@;
        match self.last_info() {
            Some(info) => {
                let mut info = info;
                let ghost old_info = info;
                info.depends_on.push(step_depends_on.to_string());
                assert(views(info.depends_on@) =~= views(old_info.depends_on@).push(step_depends_on@));
                self.steps.push(info);
                assert(self@ =~= update_last(before, info@));
            },
            None => {},
        }
        self
    }

    /// Adds `step_depends_on` to the dependencies of the last step and sets
    /// its condition.
    pub fn with_conditional_dependency(&mut self, step_depends_on: &str, condition: Condition) -> (r:
        &mut Self)
        ensures
            r@ == update_last(
                old(self)@,
                (
                    old(self)@.last().0,
                    old(self)@.last().1.push(step_depends_on@),
                    old(self)@.last().2,
                    Some(condition),
                ),
            ),
            *final(self) == *final(r),
    {
        let ghost before = self@;
        match self.last_info() {
            Some(info) => {
                let mut info = info;
                let ghost old_info = info;
                info.depends_on.push(step_depends_on.to_string());
                info.condition = Some(condition);
                assert(views(info.depends_on@) =~= views(old_info.depends_on@).push(step_depends_on@));
                self.steps.push(info);
                assert(self@ =~= update_last(before, info@));
            },
            None => {},
        }
        self
    }

    /// Replaces the dependencies of the last step by `steps`, any one of
    /// which suffices.
    pub fn with_dependency_any(&mut self, steps: Vec<&str>) -> (r: &mut Self)
        ensures
            r@ == update_last(
                old(self)@,
                (old(self)@.last().0, str_views(steps@), true, old(self)@.last().3),
            ),
            *final(self) == *final(r),
    {
        let ghost before = self@;
        match self.last_info() {
            Some(info) => {
                let mut info = info;
                info.depends_on = to_strings(&steps);
                info.depends_on_any = true;
                self.steps.push(info);
                assert(self@ =~= update_last(before, info@));
            },
            None => {},
        }
        self
    }

    /// Replaces the dependencies of the last step by `steps`, any one of
    /// which suffices, and sets its condition.
    pub fn with_conditional_dependency_any(&mut self, steps: Vec<&str>, condition: Condition) -> (r:
        &mut Self)
        ensures
            r@ == update_last(old(self)@, (old(self)@.last().0, str_views(steps@), true, Some(condition))),
            *final(self) == *final(r),
    {
        let ghost before = self@;
        match self.last_info() {
            Some(info) => {
                let mut info = info;
                info.depends_on = to_strings(&steps);
                info.depends_on_any = true;
                info.condition = Some(condition);
                self.steps.push(info);
                assert(self@ =~= update_last(before, info@));
            },
            None => {},
        }
        self
    }

    /// Sets the condition of the last step.
    pub fn with_condition(&mut self, condition: Condition) -> (r: &mut Self)
        ensures
            r@ == update_last(
                old(self)@,
                (old(self)@.last().0, old(self)@.last().1, old(self)@.last().2, Some(condition)),
            ),
            *final(self) == *final(r),
    {
        let ghost before = self@;
        match self.last_info() {
            Some(info) => {
                let mut info = info;
                info.condition = Some(condition);
                self.steps.push(info);
                assert(self@ =~= update_last(before, info@));
            },
            None => {},
        }
        self
    }

    /// Sets the condition of the last step to a condition built beforehand.
    pub fn with_prebuilt_condition(&mut self, condition: Condition) -> (r: &mut Self)
        ensures
            r@ == update_last(
                old(self)@,
                (old(self)@.last().0, old(self)@.last().1, old(self)@.last().2, Some(condition)),
            ),
            *final(self) == *final(r),
    {
        self.with_condition(condition)
    }

    /// The number of declared steps.
    pub fn len(&self) -> (r: usize)
        ensures
            r == self@.len(),
    {
        self.steps.len()
    }

    /// Whether no step is declared.
    pub fn is_empty(&self) -> (r: bool)
        ensures
            r == (self@.len() == 0),
    {
        self.steps.len() == 0
    }

    /// The declaration at `index`, if any.
    pub fn get_step(&self, index: usize) -> (r: Option<&DependencyInfo>)
        ensures
            index < self@.len() ==> (r matches Some(d) && d@ == self@[index as int]),
            index >= self@.len() ==> r is None,
    {
        if index < self.steps.len() {
            Some(&self.steps[index])
        } else {
            None
        }
    }

    /// Builds the graph: one node per step id, an edge from each dependency
    /// to its step, the conditions and the any-flags; fails when a cycle can
    /// be reached from a step.
    pub fn build_dag(self) -> (r: Result<DependencyGraph, GraphError>)
        ensures
            r matches Ok(g) ==> {
                &&& g.node_views() == chain_nodes(self@)
                &&& g.edge_set() == chain_edges(self@)
                &&& g.conditions@ == chain_conditions(self@)
                &&& g.depends_on_any@ == chain_any(self@)
            },
            cycle_outcome(
                chain_nodes(self@),
                chain_edges(self@),
                match r {
                    Ok(_) => Ok(()),
                    Err(e) => Err(e),
                },
            ),
    {
        let ghost all = self@;
        let mut steps = self.steps;
        let mut graph = DependencyGraph::new();
        proof {
            assert(graph.node_views() =~= Seq::<Vertex>::empty());
            assert(graph.edge_set() =~= Seq::<(Vertex, Vertex)>::empty());
            assert(all.take(0) =~= Seq::<InfoView>::empty());
            assert(steps@.map_values(|d: DependencyInfo| d@) =~= all.skip(0));
        }
        while steps.len() > 0
            invariant
                steps@.len() <= all.len(),
                steps@.map_values(|d: DependencyInfo| d@) == all.skip(all.len() - steps@.len()),
                graph.node_views() == chain_nodes(all.take(all.len() - steps@.len())),
                graph.edge_set() == chain_edges(all.take(all.len() - steps@.len())),
                graph.conditions@ == chain_conditions(all.take(all.len() - steps@.len())),
                graph.depends_on_any@ == chain_any(all.take(all.len() - steps@.len())),
            decreases steps@.len(),
        {
            let ghost k = all.len() - steps@.len();
            let ghost before_steps = steps@;
            let info = steps.remove(0);
            proof {
                assert(info@ == before_steps.map_values(|d: DependencyInfo| d@)[0]);
                assert(info@ == all[k]);
                let bv = before_steps.map_values(|d: DependencyInfo| d@);
                assert forall|q: int| 0 <= q < steps@.len() implies #[trigger] steps@[q]@ == all.skip(
                    k + 1,
                )[q] by {
                    assert(steps@[q] == before_steps[q + 1]);
                    assert(bv[q + 1] == all.skip(k)[q + 1]);
                }
                assert(steps@.map_values(|d: DependencyInfo| d@) =~= all.skip(k + 1));
                assert(all.take(k + 1).drop_last() =~= all.take(k));
                assert(all.take(k + 1).last() == all[k]);
            }
            let ghost nodes_before = graph.nodes@;
            graph.add_node(info.step_id.clone());
            proof {
                if views(nodes_before).contains(info.step_id@) {
                } else {
                    assert(views(graph.nodes@) =~= views(nodes_before).push(info.step_id@));
                }
                assert(graph.node_views() == chain_nodes(all.take(k + 1)));
            }
            let ghost edges_before = graph.edge_set();
            let mut j: usize = 0;
            while j < info.depends_on.len()
                invariant
                    j <= info.depends_on@.len(),
                    graph.edge_set() == add_dep_edges(
                        edges_before,
                        views(info.depends_on@).take(j as int),
                        info.step_id@,
                    ),
                    graph.node_views() == chain_nodes(all.take(k + 1)),
                    graph.conditions@ == chain_conditions(all.take(k)),
                    graph.depends_on_any@ == chain_any(all.take(k)),
                decreases info.depends_on@.len() - j,
            {
                let ghost eb = graph.edges@;
                graph.add_edge(info.depends_on[j].clone(), info.step_id.clone());
                proof {
                    let d = views(info.depends_on@);
                    assert(d.take(j + 1).drop_last() =~= d.take(j as int));
                    assert(d.take(j + 1).last() == info.depends_on@[j as int]@);
                    if !edge_views(eb).contains((info.depends_on@[j as int]@, info.step_id@)) {
                        assert(edge_views(graph.edges@) =~= edge_views(eb).push(
                            (info.depends_on@[j as int]@, info.step_id@),
                        ));
                    }
                }
                j = j + 1;
            }
            proof {
                assert(views(info.depends_on@).take(info.depends_on@.len() as int) =~= views(
                    info.depends_on@,
                ));
                assert(graph.edge_set() == chain_edges(all.take(k + 1)));
            }
            let DependencyInfo { step_id, depends_on: _, depends_on_any, condition } = info;
            match condition {
                Some(c) => {
                    graph.set_condition(step_id.clone(), c);
                },
                None => {},
            }
            if depends_on_any {
                graph.set_depends_on_any(step_id, true);
            }
            proof {
                assert(graph.conditions@ == chain_conditions(all.take(k + 1)));
                assert(graph.depends_on_any@ == chain_any(all.take(k + 1)));
            }
        }
        proof {
            assert(all.take(all.len() as int) =~= all);
        }
        match detect_cycles(&graph) {
            Ok(_) => Ok(graph),
            Err(e) => Err(e),
        }
    }
}

/// Every id that a chain declares is a node of its graph, once, and the
/// graph has no other node.
pub proof fn lemma_chain_nodes(steps: Seq<InfoView>)
    ensures
        chain_nodes(steps).no_duplicates(),
        forall|x: Seq<char>|
            chain_nodes(steps).contains(x) <==> exists|i: int|
                0 <= i < steps.len() && #[trigger] steps[i].0 == x,
    decreases steps.len(),
{
    if steps.len() > 0 {
        let prev = steps.drop_last();
        lemma_chain_nodes(prev);
        let id = steps.last().0;
        lemma_add_unique(chain_nodes(prev), id);
        assert forall|x: Seq<char>|
            chain_nodes(steps).contains(x) <==> exists|i: int|
                0 <= i < steps.len() && #[trigger] steps[i].0 == x by {
            assert(chain_nodes(steps) == add_unique(chain_nodes(prev), id));
            assert(chain_nodes(steps).contains(x) <==> (chain_nodes(prev).contains(x) || x == id));
            assert(chain_nodes(prev).contains(x) <==> exists|i: int|
                0 <= i < prev.len() && #[trigger] prev[i].0 == x);
            if exists|i: int| 0 <= i < prev.len() && #[trigger] prev[i].0 == x {
                let i = choose|i: int| 0 <= i < prev.len() && #[trigger] prev[i].0 == x;
                assert(steps[i].0 == x);
            }
            if exists|i: int| 0 <= i < steps.len() && #[trigger] steps[i].0 == x {
                let i = choose|i: int| 0 <= i < steps.len() && #[trigger] steps[i].0 == x;
                if i < steps.len() - 1 {
                    assert(prev[i].0 == x);
                }
            }
            if x == id {
                assert(steps[steps.len() - 1].0 == x);
            }
        }
    }
}

/// `add_unique` keeps every member and adds exactly `x`, without creating
/// a duplicate.
proof fn lemma_add_unique<T>(s: Seq<T>, x: T)
    requires
        s.no_duplicates(),
    ensures
        add_unique(s, x).no_duplicates(),
        forall|y: T| add_unique(s, x).contains(y) <==> (s.contains(y) || y == x),
{
    if !s.contains(x) {
        let t = s.push(x);
        assert forall|y: T| t.contains(y) <==> (s.contains(y) || y == x) by {
            if s.contains(y) {
                let a = choose|a: int| 0 <= a < s.len() && s[a] == y;
                assert(t[a] == y);
            }
            if t.contains(y) && y != x {
                let a = choose|a: int| 0 <= a < t.len() && t[a] == y;
                assert(s[a] == y);
            }
            if y == x {
                assert(t[s.len() as int] == y);
            }
        }
        assert forall|a: int, b: int| 0 <= a < t.len() && 0 <= b < t.len() && a != b implies t[a] != t[b] by {
            if a == s.len() {
                assert(s.contains(t[b]));
            } else if b == s.len() {
                assert(s.contains(t[a]));
            }
        }
    }
}

/// The edges added for one step: the edges that were there and one from
/// each dependency to the step, each once.
proof fn lemma_add_dep_edges(edges: Seq<(Vertex, Vertex)>, deps: Seq<Vertex>, id: Vertex)
    requires
        edges.no_duplicates(),
    ensures
        add_dep_edges(edges, deps, id).no_duplicates(),
        forall|e: (Vertex, Vertex)|
            add_dep_edges(edges, deps, id).contains(e) <==> (edges.contains(e) || (e.1 == id
                && deps.contains(e.0))),
    decreases deps.len(),
{
    if deps.len() > 0 {
        let prev = deps.drop_last();
        lemma_add_dep_edges(edges, prev, id);
        lemma_add_unique(add_dep_edges(edges, prev, id), (deps.last(), id));
        assert forall|e: (Vertex, Vertex)|
            add_dep_edges(edges, deps, id).contains(e) <==> (edges.contains(e) || (e.1 == id
                && deps.contains(e.0))) by {
            if prev.contains(e.0) {
                let a = choose|a: int| 0 <= a < prev.len() && prev[a] == e.0;
                assert(deps[a] == e.0);
            }
            if deps.contains(e.0) && e.0 != deps.last() {
                let a = choose|a: int| 0 <= a < deps.len() && deps[a] == e.0;
                assert(prev[a] == e.0);
            }
            if e.0 == deps.last() {
                assert(deps[deps.len() - 1] == e.0);
            }
        }
    }
}

/// The graph of a chain has an edge from `d` to `id` exactly when a
/// declaration of `id` lists `d` among its dependencies; no edge is
/// listed twice.
pub proof fn lemma_chain_edges(steps: Seq<InfoView>)
    ensures
        chain_edges(steps).no_duplicates(),
        forall|e: (Vertex, Vertex)|
            chain_edges(steps).contains(e) <==> exists|i: int|
                0 <= i < steps.len() && #[trigger] steps[i].0 == e.1 && steps[i].1.contains(e.0),
    decreases steps.len(),
{
    if steps.len() > 0 {
        let prev = steps.drop_last();
        lemma_chain_edges(prev);
        let last = steps.last();
        lemma_add_dep_edges(chain_edges(prev), last.1, last.0);
        assert forall|e: (Vertex, Vertex)|
            chain_edges(steps).contains(e) <==> exists|i: int|
                0 <= i < steps.len() && #[trigger] steps[i].0 == e.1 && steps[i].1.contains(e.0) by {
            assert(chain_edges(steps) == add_dep_edges(chain_edges(prev), last.1, last.0));
            assert(chain_edges(steps).contains(e) <==> (chain_edges(prev).contains(e) || (e.1
                == last.0 && last.1.contains(e.0))));
            assert(chain_edges(prev).contains(e) <==> exists|i: int|
                0 <= i < prev.len() && #[trigger] prev[i].0 == e.1 && prev[i].1.contains(e.0));
            if exists|i: int| 0 <= i < prev.len() && #[trigger] prev[i].0 == e.1 && prev[i].1.contains(e.0) {
                let i = choose|i: int|
                    0 <= i < prev.len() && #[trigger] prev[i].0 == e.1 && prev[i].1.contains(e.0);
                assert(steps[i] == prev[i]);
            }
            if exists|i: int|
                0 <= i < steps.len() && #[trigger] steps[i].0 == e.1 && steps[i].1.contains(e.0) {
                let i = choose|i: int|
                    0 <= i < steps.len() && #[trigger] steps[i].0 == e.1 && steps[i].1.contains(e.0);
                if i < steps.len() - 1 {
                    assert(prev[i] == steps[i]);
                }
            }
            if e.1 == last.0 && last.1.contains(e.0) {
                assert(steps[steps.len() - 1] == last);
            }
        }
    }
}

impl Default for DependencyChain {
    fn default() -> (r: Self)
        ensures
            r@ == Seq::<InfoView>::empty(),
    {
        DependencyChain::new()
    }
}

} // verus!

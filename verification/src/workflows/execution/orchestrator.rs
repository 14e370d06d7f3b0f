//! The decisions of a workflow run: which steps can run next, when the run
//! is over or stuck, and whether a single step may run.
use vstd::prelude::*;
use std::sync::Arc;
use crate::workflows::dependency::chain::add_unique;
use crate::workflows::dependency::dag::{lemma_sources_are_edges, sources_into, DependencyGraph};
use crate::workflows::dependency::graph_model::{views, Vertex};
use crate::workflows::execution::scheduler::{contains_string, Scheduler};
use crate::workflows::execution::workflow_execution::ExecutionError;
use crate::workflows::execution::executor::StepExecutor;
use crate::workflows::execution::scheduler::FailureStrategy;
use crate::workflows::dependency::condition::ConditionFn;
use crate::workflows::dependency::topological_sort::GraphError;
use crate::workflows::dependency::topological_sort::{
    acyclic_from, cycle_outcome, deps_are_steps, lemma_descent_gives_cycle,
};
use crate::workflows::workflow::{parallelism_of, workflow_problem, Workflow};
use crate::resources::meta::{fails_with, BuildError};
use crate::steps::result::StepResult;

verus! {

/// Every dependency of `x` in the edges `ev` is among `done`.
pub open spec fn deps_done(ev: Seq<(Vertex, Vertex)>, done: Seq<Vertex>, x: Vertex) -> bool {
    forall|i: int| 0 <= i < sources_into(ev, x).len() ==> done.contains(#[trigger] sources_into(ev, x)[i])
}

/// The ids of `ids` that have not completed and whose dependencies all
/// have, in the order of `ids`.
pub open spec fn executable_ids(ids: Seq<Vertex>, ev: Seq<(Vertex, Vertex)>, done: Seq<Vertex>) -> Seq<
    Vertex,
>
    decreases ids.len(),
{
    if ids.len() == 0 {
        Seq::empty()
    } else {
        let rest = executable_ids(ids.drop_last(), ev, done);
        let x = ids.last();
        if !done.contains(x) && deps_done(ev, done, x) {
            rest.push(x)
        } else {
            rest
        }
    }
}

/// Each id of `ids` once, in order of first occurrence.
pub open spec fn unique_ids(ids: Seq<Vertex>) -> Seq<Vertex>
    decreases ids.len(),
{
    if ids.len() == 0 {
        Seq::empty()
    } else {
        add_unique(unique_ids(ids.drop_last()), ids.last())
    }
}

/// The graph of a workflow's steps: one node per step id, no edge.
pub fn build_dependency_graph(step_ids: &Vec<String>) -> (r: DependencyGraph)
    ensures
        r.node_views() == unique_ids(views(step_ids@)),
        r.edges@.len() == 0,
{
    let mut graph = DependencyGraph::new();
    let mut i: usize = 0;
    assert(graph.node_views() =~= unique_ids(views(step_ids@).take(0)));
    while i < step_ids.len()
        invariant
            i <= step_ids@.len(),
            graph.node_views() == unique_ids(views(step_ids@).take(i as int)),
            graph.edges@.len() == 0,
        decreases step_ids@.len() - i,
    {
        let ghost before = graph.nodes@;
        graph.add_node(step_ids[i].clone());
        proof {
            let v = views(step_ids@);
            assert(v.take(i + 1).drop_last() =~= v.take(i as int));
            assert(v.take(i + 1).last() == step_ids@[i as int]@);
            if !views(before).contains(step_ids@[i as int]@) {
                assert(views(graph.nodes@) =~= views(before).push(step_ids@[i as int]@));
            }
        }
        i = i + 1;
    }
    assert(views(step_ids@).take(step_ids@.len() as int) =~= views(step_ids@));
    graph
}

/// The steps of `step_ids` that can run now: not yet completed, with every
/// dependency in `graph` completed; in the order of `step_ids`.
pub fn get_next_executable_steps(
    graph: &DependencyGraph,
    scheduler: &Scheduler,
    step_ids: &Vec<String>,
    completed_steps: &Vec<String>,
) -> (r: Vec<String>)
    ensures
        views(r@) == executable_ids(views(step_ids@), graph.edge_set(), views(completed_steps@)),
{
    let ghost ev = graph.edge_set();
    let ghost done = views(completed_steps@);
    let mut executable: Vec<String> = Vec::new();
    let mut i: usize = 0;
    while i < step_ids.len()
        invariant
            i <= step_ids@.len(),
            ev == graph.edge_set(),
            done == views(completed_steps@),
            views(executable@) == executable_ids(views(step_ids@).take(i as int), ev, done),
        decreases step_ids@.len() - i,
    {
        let ghost before = views(executable@);
        let step_id = &step_ids[i];
        proof {
            let v = views(step_ids@);
            assert(v.take(i + 1).drop_last() =~= v.take(i as int));
            assert(v.take(i + 1).last() == step_id@);
        }
        if !contains_string(completed_steps, step_id) {
            let dependencies = graph.get_dependencies(step_id.as_str());
            let ready = scheduler.check_dependencies_satisfied(
                step_id.as_str(),
                completed_steps,
                &dependencies,
            );
            proof {
                assert(ready == deps_done(ev, done, step_id@)) by {
                    if ready {
                        assert forall|q: int| 0 <= q < sources_into(ev, step_id@).len() implies done.contains(
                            #[trigger] sources_into(ev, step_id@)[q],
                        ) by {
                            assert(views(dependencies@)[q] == dependencies@[q]@);
                        }
                    } else {
                        let q = choose|q: int|
                            0 <= q < dependencies@.len() && !views(completed_steps@).contains(
                                #[trigger] dependencies@[q]@,
                            );
                        assert(views(dependencies@)[q] == dependencies@[q]@);
                    }
                }
            }
            if ready {
                executable.push(step_id.clone());
                assert(views(executable@) =~= before.push(step_id@));
            }
        }
        i = i + 1;
    }
    assert(views(step_ids@).take(step_ids@.len() as int) =~= views(step_ids@));
    executable
}

/// One round of a run: the steps to run next; `None` once every step has
/// completed (as many completions as steps); an error when nothing can run
/// and steps remain.
pub fn next_round(
    graph: &DependencyGraph,
    scheduler: &Scheduler,
    step_ids: &Vec<String>,
    completed_steps: &Vec<String>,
) -> (r: Result<Option<Vec<String>>, ExecutionError>)
    ensures
        executable_ids(views(step_ids@), graph.edge_set(), views(completed_steps@)).len() > 0
            ==> (r matches Ok(Some(next)) && views(next@) == executable_ids(
            views(step_ids@),
            graph.edge_set(),
            views(completed_steps@),
        )),
        executable_ids(views(step_ids@), graph.edge_set(), views(completed_steps@)).len() == 0
            ==> (completed_steps@.len() == step_ids@.len() ==> r matches Ok(None)) && (
        completed_steps@.len() != step_ids@.len() ==> r matches Err(ExecutionError::Stuck)),
{
    let next = get_next_executable_steps(graph, scheduler, step_ids, completed_steps);
    if next.len() == 0 {
        if completed_steps.len() == step_ids.len() {
            Ok(None)
        } else {
            Err(ExecutionError::Stuck)
        }
    } else {
        Ok(Some(next))
    }
}

/// The first dependency of `step_id` in the edges `ev` that is not among `done`.
pub open spec fn first_missing(ev: Seq<(Vertex, Vertex)>, done: Seq<Vertex>, x: Vertex, i: int) -> bool {
    &&& 0 <= i < sources_into(ev, x).len()
    &&& !done.contains(sources_into(ev, x)[i])
    &&& forall|h: int| 0 <= h < i ==> done.contains(#[trigger] sources_into(ev, x)[h])
}

/// Whether the step `step_id` may run on its own: it must be a step of the
/// workflow, and each of its dependencies must have a result. Fails with
/// the missing step, or with the first dependency that has no result.
pub fn check_step_ready(
    graph: &DependencyGraph,
    step_ids: &Vec<String>,
    step_id: &str,
    results_for: &Vec<String>,
) -> (r: Result<(), ExecutionError>)
    ensures
        !views(step_ids@).contains(step_id@) ==> (r matches Err(ExecutionError::StepNotFound(s))
            && s@ == step_id@),
        views(step_ids@).contains(step_id@) && deps_done(graph.edge_set(), views(results_for@), step_id@)
            ==> r is Ok,
        views(step_ids@).contains(step_id@) && !deps_done(
            graph.edge_set(),
            views(results_for@),
            step_id@,
        ) ==> exists|i: int|
            first_missing(graph.edge_set(), views(results_for@), step_id@, i) && (r matches Err(
                ExecutionError::DependencyNotSatisfied(d),
            ) && d@ == sources_into(graph.edge_set(), step_id@)[i]),
{
    let id = step_id.to_string();
    if !contains_string(step_ids, &id) {
        return Err(ExecutionError::StepNotFound(id));
    }
    let ghost ev = graph.edge_set();
    let ghost done = views(results_for@);
    let dependencies = graph.get_dependencies(step_id);
    let mut i: usize = 0;
    while i < dependencies.len()
        invariant
            i <= dependencies@.len(),
            ev == graph.edge_set(),
            done == views(results_for@),
            views(step_ids@).contains(step_id@),
            views(dependencies@) == sources_into(ev, step_id@),
            forall|h: int| 0 <= h < i ==> done.contains(#[trigger] sources_into(ev, step_id@)[h]),
        decreases dependencies@.len() - i,
    {
        assert(views(dependencies@)[i as int] == dependencies@[i as int]@);
        if !contains_string(results_for, &dependencies[i]) {
            assert(first_missing(ev, done, step_id@, i as int));
            return Err(ExecutionError::DependencyNotSatisfied(dependencies[i].clone()));
        }
        i = i + 1;
    }
    Ok(())
}

/// Runs a workflow: its steps, the executor that runs them, the scheduler
/// that bounds how many run at once, and the graph of their dependencies.
pub struct WorkflowOrchestrator {
    workflow: Arc<Workflow>,
    executor: StepExecutor,
    scheduler: Scheduler,
    dependency_graph: DependencyGraph,
}

impl WorkflowOrchestrator {
    /// The workflow being run.
    pub closed spec fn workflow_view(&self) -> Workflow {
        *self.workflow
    }

    /// The scheduler of the run.
    pub closed spec fn scheduler_view(&self) -> Scheduler {
        self.scheduler
    }

    /// The graph of the steps' dependencies.
    pub closed spec fn graph_view(&self) -> DependencyGraph {
        self.dependency_graph
    }

    /// The client through which steps run.
    pub closed spec fn client_view(&self) -> kube::Client {
        self.executor.client
    }

    /// An orchestrator of `workflow` working through `client`, once the
    /// workflow's settings are valid: it stops at the first failed step,
    /// runs as many steps at once as the workflow allows, and starts from a
    /// graph of the steps without dependencies. An invalid workflow is
    /// refused with its first problem.
    pub fn new(workflow: Workflow, client: kube::Client) -> (r: Result<Self, BuildError>)
        ensures
            match workflow_problem(workflow.name@, workflow.namespace@, workflow.steps@.len(), workflow.parallelism) {
                Some(m) => fails_with(r, m),
                None => r matches Ok(o) && o.workflow_view() == workflow && o.client_view() == client
                    && o.scheduler_view().parallelism == parallelism_of(
                    workflow.execution_mode,
                    workflow.parallelism,
                ) && o.scheduler_view().failure_strategy == FailureStrategy::Stop
                    && o.graph_view().edges@.len() == 0 && o.graph_view().nodes@.len()
                    <= workflow.steps@.len(),
            },
    {
        match workflow.validate() {
            Err(e) => Err(e),
            Ok(()) => {
                let executor = StepExecutor::new(client);
                let parallelism = workflow.actual_parallelism();
                let scheduler = Scheduler::new(parallelism, FailureStrategy::Stop);
                let ids = workflow.step_ids();
                let dependency_graph = build_dependency_graph(&ids);
                proof {
                    lemma_unique_ids_len(views(ids@));
                }
                let workflow = Arc::new(workflow);
                Ok(WorkflowOrchestrator { workflow, executor, scheduler, dependency_graph })
            },
        }
    }

    /// The workflow being run, shared with its runs.
    pub fn workflow(&self) -> (r: &Arc<Workflow>)
        ensures
            **r == self.workflow_view(),
    {
        &self.workflow
    }

    /// The executor that runs the steps.
    pub fn executor(&self) -> (r: &StepExecutor)
        ensures
            r.client == self.client_view(),
    {
        &self.executor
    }

    /// The scheduler of the run.
    pub fn scheduler(&self) -> (r: &Scheduler)
        ensures
            *r == self.scheduler_view(),
    {
        &self.scheduler
    }

    /// Whether the steps' dependencies hold a cycle.
    pub fn detect_cycles(&self) -> (r: Result<(), GraphError>)
        ensures
            cycle_outcome(self.graph_view().node_views(), self.graph_view().edge_set(), r),
    {
        self.dependency_graph.detect_cycles()
    }

    pub fn get_dependency_graph(&self) -> (r: &DependencyGraph)
        ensures
            *r == self.graph_view(),
    {
        &self.dependency_graph
    }

    /// Whether `condition` holds of the results `step_results`.
    pub fn evaluate_condition(&self, condition: &ConditionFn, step_results: &Vec<StepResult>) -> (r: bool)
        ensures
            r == condition.holds(step_results@),
    {
        condition.evaluate(step_results)
    }

    /// The steps of `step_ids` that can run now, given the steps completed
    /// so far: those not completed whose dependencies all are, in order.
    pub fn get_next_executable_steps(&self, step_ids: &Vec<String>, completed_steps: &Vec<String>) -> (r: Vec<
        String,
    >)
        ensures
            views(r@) == executable_ids(views(step_ids@), self.graph_view().edge_set(), views(completed_steps@)),
    {
        get_next_executable_steps(&self.dependency_graph, &self.scheduler, step_ids, completed_steps)
    }
}

/// Keeping each id once never makes a sequence longer.
proof fn lemma_unique_ids_len(ids: Seq<Vertex>)
    ensures
        unique_ids(ids).len() <= ids.len(),
    decreases ids.len(),
{
    if ids.len() > 0 {
        lemma_unique_ids_len(ids.drop_last());
    }
}

/// A step offered to run next is a step of the workflow that has not
/// completed, and every one of its dependencies has; and every such step
/// is offered.
pub proof fn lemma_next_steps_ready(ids: Seq<Vertex>, ev: Seq<(Vertex, Vertex)>, done: Seq<Vertex>, x: Vertex)
    ensures
        executable_ids(ids, ev, done).contains(x) <==> (ids.contains(x) && !done.contains(x) && deps_done(
            ev,
            done,
            x,
        )),
    decreases ids.len(),
{
    if ids.len() > 0 {
        lemma_next_steps_ready(ids.drop_last(), ev, done, x);
        assert(ids =~= ids.drop_last().push(ids.last()));
        assert(ids.contains(x) <==> (ids.drop_last().contains(x) || ids.last() == x)) by {
            if ids.contains(x) {
                let i = choose|i: int| 0 <= i < ids.len() && ids[i] == x;
                if i < ids.len() - 1 {
                    assert(ids.drop_last()[i] == x);
                }
            }
            if ids.drop_last().contains(x) {
                let i = choose|i: int| 0 <= i < ids.drop_last().len() && ids.drop_last()[i] == x;
                assert(ids[i] == x);
            }
            if ids.last() == x {
                assert(ids[ids.len() - 1] == x);
            }
        }
        let rest = executable_ids(ids.drop_last(), ev, done);
        if !done.contains(ids.last()) && deps_done(ev, done, ids.last()) {
            assert(rest.push(ids.last()).contains(x) <==> (rest.contains(x) || ids.last() == x)) by {
                if rest.push(ids.last()).contains(x) {
                    let i = choose|i: int| 0 <= i < rest.push(ids.last()).len() && rest.push(ids.last())[i] == x;
                    if i < rest.len() {
                        assert(rest[i] == x);
                    }
                }
                if rest.contains(x) {
                    let i = choose|i: int| 0 <= i < rest.len() && rest[i] == x;
                    assert(rest.push(ids.last())[i] == x);
                }
                if ids.last() == x {
                    assert(rest.push(ids.last())[rest.len() as int] == x);
                }
            }
        }
    }
}

/// A run whose dependencies form no cycle, and whose steps depend only on
/// steps of the workflow, never gets stuck: while some step has not
/// completed, some step can run.
pub proof fn lemma_acyclic_run_not_stuck(ids: Seq<Vertex>, ev: Seq<(Vertex, Vertex)>, done: Seq<Vertex>, x: Vertex)
    requires
        acyclic_from(ids, ev),
        deps_are_steps(ids, ev),
        ids.contains(x),
        !done.contains(x),
    ensures
        executable_ids(ids, ev, done).len() > 0,
{
    if executable_ids(ids, ev, done).len() == 0 {
        let p = |u: Vertex| !done.contains(u);
        assert forall|u: Vertex| ids.contains(u) && #[trigger] p(u) implies exists|j: int|
            0 <= j < ev.len() && #[trigger] ev[j].1 == u && ids.contains(ev[j].0) && p(ev[j].0) by {
            lemma_next_steps_ready(ids, ev, done, u);
            if deps_done(ev, done, u) {
                assert(executable_ids(ids, ev, done).contains(u));
                let k = choose|k: int| 0 <= k < executable_ids(ids, ev, done).len()
                    && executable_ids(ids, ev, done)[k] == u;
            }
            let i = choose|i: int| 0 <= i < sources_into(ev, u).len() && !done.contains(#[trigger] sources_into(ev, u)[i]);
            let a = sources_into(ev, u)[i];
            lemma_sources_are_edges(ev, u, a);
            assert(sources_into(ev, u).contains(a));
            let j = choose|j: int| 0 <= j < ev.len() && ev[j] == (a, u);
            assert(ev[j].1 == u && ev[j].0 == a);
            assert(ids.contains(ev[j].0));
        }
        lemma_descent_gives_cycle(ids, ev, p, x);
    }
}

} // verus!

use k8s_maestro::workflows::execution::workflow_execution::{
    ExecutionError, WorkflowExecution, WorkflowStatus,
};
use k8s_maestro::steps::result::{StepResult, StepStatus};
use k8s_maestro::workflows::dependency::dag::DependencyGraph;
use k8s_maestro::workflows::execution::orchestrator::{
    build_dependency_graph, check_step_ready, get_next_executable_steps, next_round,
};
use k8s_maestro::workflows::execution::executor::{job_step_result, pod_step_result};
use k8s_maestro::workflows::execution::scheduler::{FailureStrategy, Scheduler};

#[test]
fn test_scheduler_creation() {
    let scheduler = Scheduler::new(4, FailureStrategy::Continue);
    assert_eq!(scheduler.parallelism, 4);
    assert_eq!(scheduler.failure_strategy, FailureStrategy::Continue);
}

#[test]
fn test_scheduler_default() {
    let scheduler = Scheduler::default();
    assert_eq!(scheduler.parallelism, 1);
    assert_eq!(scheduler.failure_strategy, FailureStrategy::Stop);
}

#[test]
fn test_check_dependencies_satisfied() {
    let scheduler = Scheduler::default();
    let completed_steps = vec!["A".to_string(), "B".to_string()];
    let dependencies = vec!["A".to_string()];

    assert!(scheduler.check_dependencies_satisfied("C", &completed_steps, &dependencies));

    let dependencies = vec!["A".to_string(), "D".to_string()];
    assert!(!scheduler.check_dependencies_satisfied("C", &completed_steps, &dependencies));
}

#[test]
fn test_handle_failure_stop() {
    let scheduler = Scheduler::new(1, FailureStrategy::Stop);
    let results = vec![
        StepResult::new("A").with_status(StepStatus::Success),
        StepResult::new("B").with_status(StepStatus::Failure),
    ];

    assert!(scheduler.handle_failure(&results).is_err());
}

#[test]
fn test_handle_failure_continue() {
    let scheduler = Scheduler::new(1, FailureStrategy::Continue);
    let results = vec![
        StepResult::new("A").with_status(StepStatus::Success),
        StepResult::new("B").with_status(StepStatus::Failure),
    ];

    assert!(scheduler.handle_failure(&results).is_ok());
}

#[test]
fn test_step_results_from_status() {
    let failed = job_step_result("job", Some(1), Some(2));
    assert_eq!(failed.status, StepStatus::Failure);
    assert_eq!(failed.exit_code, 1);
    let ok = job_step_result("job", Some(1), None);
    assert!(ok.is_success());
    assert_eq!(ok.exit_code, 0);
    let pod = pod_step_result("pod", "Succeeded");
    assert!(pod.is_success());
    let pending = pod_step_result("pod", "Pending");
    assert_eq!(pending.status, StepStatus::Failure);
    assert_eq!(pending.exit_code, 1);
}

#[derive(Debug, Clone)]
struct RunStep {
    id: String,
}

impl k8s_maestro::steps::traits::WorkFlowStep for RunStep {
    fn step_id(&self) -> &str {
        &self.id
    }
}

fn running_workflow() -> k8s_maestro::workflows::workflow::Workflow {
    k8s_maestro::workflows::builder::WorkflowBuilder::new()
        .with_name("run")
        .with_namespace("jobs")
        .add_step(RunStep { id: "build".to_string() })
        .build()
        .unwrap()
}

#[test]
fn test_execution_starts_pending() {
    let workflow = running_workflow();
    let id = workflow.id.clone();
    let execution = WorkflowExecution::new(std::sync::Arc::new(workflow));
    assert_eq!(execution.workflow_id, id);
    assert_eq!(execution.get_status(), WorkflowStatus::Pending);
    assert!(execution.get_step_result("build").is_none());
    assert!(execution.wait_outcome().is_none());
    assert_eq!(execution.get_namespace(), "jobs");
    assert_eq!(execution.get_steps().len(), 1);
    let checkpoint = execution.get_checkpoint().unwrap();
    assert_eq!(checkpoint.status, WorkflowStatus::Pending);
    assert!(checkpoint.started_at.is_some());
    assert!(checkpoint.completed_at.is_none());
}

#[test]
fn test_execution_records_step_results() {
    let mut execution = WorkflowExecution::new(std::sync::Arc::new(running_workflow()));
    execution.set_step_result("build".to_string(), StepResult::new("build").with_status(StepStatus::Success).with_exit_code(0));
    let r = execution.get_step_result("build").unwrap();
    assert_eq!(r.status, StepStatus::Success);
    assert_eq!(r.exit_code, 0);
    execution.set_step_result("build".to_string(), StepResult::new("build").with_status(StepStatus::Failure));
    assert_eq!(execution.get_step_result("build").unwrap().status, StepStatus::Failure);
    assert_eq!(execution.get_all_step_results().len(), 1);
    assert_eq!(execution.get_checkpoint().unwrap().step_results.len(), 1);
}

#[test]
fn test_execution_status_and_cancel() {
    let mut execution = WorkflowExecution::new(std::sync::Arc::new(running_workflow()));
    assert_eq!(execution.cancel(), Err(ExecutionError::CannotCancel(WorkflowStatus::Pending)));
    execution.set_status(WorkflowStatus::Running);
    assert!(execution.get_checkpoint().unwrap().completed_at.is_none());
    assert_eq!(execution.cancel(), Ok(()));
    assert_eq!(execution.get_status(), WorkflowStatus::Cancelled);
    assert!(execution.get_checkpoint().unwrap().completed_at.is_some());
    assert_eq!(execution.wait_outcome(), Some(Err(ExecutionError::Cancelled)));
}

#[test]
fn test_execution_failure_outcome() {
    let mut execution = WorkflowExecution::new(std::sync::Arc::new(running_workflow()));
    execution.set_status(WorkflowStatus::Failed);
    assert!(execution.get_checkpoint().unwrap().completed_at.is_some());
    assert_eq!(execution.wait_outcome(), Some(Err(ExecutionError::Failed)));
    execution.set_error("Step build failed".to_string());
    let outcome = execution.wait_outcome().unwrap().unwrap_err();
    assert_eq!(outcome, ExecutionError::RunFailed("Step build failed".to_string()));
    assert_eq!(outcome.to_string(), "Step build failed");
    let mut done = WorkflowExecution::new(std::sync::Arc::new(running_workflow()));
    done.set_status(WorkflowStatus::Succeeded);
    assert_eq!(done.wait_outcome(), Some(Ok(())));
}

fn strings(v: &[&str]) -> Vec<String> {
    v.iter().map(|s| s.to_string()).collect()
}

fn diamond() -> DependencyGraph {
    let mut graph = DependencyGraph::new();
    for n in ["A", "B", "C", "D"] {
        graph.add_node(n.to_string());
    }
    graph.add_edge("A".to_string(), "B".to_string());
    graph.add_edge("A".to_string(), "C".to_string());
    graph.add_edge("B".to_string(), "D".to_string());
    graph.add_edge("C".to_string(), "D".to_string());
    graph
}

#[test]
fn test_build_dependency_graph_of_steps() {
    let graph = build_dependency_graph(&strings(&["A", "B", "A"]));
    assert_eq!(graph.nodes, strings(&["A", "B"]));
    assert!(graph.edges.is_empty());
}

#[test]
fn test_next_executable_steps_follow_dependencies() {
    let graph = diamond();
    let scheduler = Scheduler::default();
    let ids = strings(&["A", "B", "C", "D"]);
    assert_eq!(get_next_executable_steps(&graph, &scheduler, &ids, &vec![]), strings(&["A"]));
    assert_eq!(get_next_executable_steps(&graph, &scheduler, &ids, &strings(&["A"])), strings(&["B", "C"]));
    assert_eq!(get_next_executable_steps(&graph, &scheduler, &ids, &strings(&["A", "B"])), strings(&["C"]));
    assert_eq!(get_next_executable_steps(&graph, &scheduler, &ids, &strings(&["A", "B", "C"])), strings(&["D"]));
}

#[test]
fn test_acyclic_run_rounds_until_done() {
    let graph = diamond();
    let scheduler = Scheduler::default();
    let ids = strings(&["A", "B", "C", "D"]);
    let mut done: Vec<String> = Vec::new();
    let mut rounds = 0;
    while let Some(next) = next_round(&graph, &scheduler, &ids, &done).unwrap() {
        assert!(!next.is_empty());
        done.extend(next);
        rounds += 1;
    }
    assert_eq!(rounds, 3);
    assert_eq!(done.len(), 4);
}

#[test]
fn test_next_round_stuck_on_cycle() {
    let mut graph = DependencyGraph::new();
    graph.add_node("A".to_string());
    graph.add_node("B".to_string());
    graph.add_edge("A".to_string(), "B".to_string());
    graph.add_edge("B".to_string(), "A".to_string());
    let result = next_round(&graph, &Scheduler::default(), &strings(&["A", "B"]), &vec![]);
    assert_eq!(result.unwrap_err(), ExecutionError::Stuck);
}

#[test]
fn test_check_step_ready_errors() {
    let graph = diamond();
    let ids = strings(&["A", "B", "C", "D"]);
    assert_eq!(check_step_ready(&graph, &ids, "E", &vec![]), Err(ExecutionError::StepNotFound("E".to_string())));
    assert_eq!(
        check_step_ready(&graph, &ids, "D", &strings(&["B"])),
        Err(ExecutionError::DependencyNotSatisfied("C".to_string()))
    );
    assert_eq!(check_step_ready(&graph, &ids, "D", &strings(&["B", "C"])), Ok(()));
    assert_eq!(check_step_ready(&graph, &ids, "A", &vec![]), Ok(()));
}

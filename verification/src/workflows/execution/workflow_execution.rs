//! A run of a workflow: its status, the results of its steps, when it
//! started and ended, and the errors that end one.
use vstd::prelude::*;
use std::sync::Arc;
use std::time::SystemTime;
use crate::collections::OrderedMap;
use crate::steps::result::{same_result, StepResult};
use crate::steps::traits::WorkFlowStep;
use crate::workflows::workflow::{now, Workflow};

verus! {

/// Where a workflow run stands.
#[derive(Debug, Clone, Copy, PartialEq, Eq, Structural)]
pub enum WorkflowStatus {
    Pending,
    Running,
    Succeeded,
    Failed,
    Cancelled,
}

/// Why a workflow run, or a step of it, could not go on.
#[derive(Debug, Clone, PartialEq, Eq)]
pub enum ExecutionError {
    /// A step ended in failure and the failure strategy stops the run.
    StepFailed(String),
    /// A step was asked to run before one of its dependencies had a result.
    DependencyNotSatisfied(String),
    /// No step of the workflow has this id.
    StepNotFound(String),
    /// No step can run, yet not every step has completed.
    Stuck,
    /// Only a running workflow can be cancelled.
    CannotCancel(WorkflowStatus),
    /// The run failed.
    Failed,
    /// The run was cancelled.
    Cancelled,
    /// The run failed with this error.
    RunFailed(String),
}

/// The name of a status, as the messages write it.
pub open spec fn status_name(s: WorkflowStatus) -> Seq<char> {
    match s {
        WorkflowStatus::Pending => "Pending"@,
        WorkflowStatus::Running => "Running"@,
        WorkflowStatus::Succeeded => "Succeeded"@,
        WorkflowStatus::Failed => "Failed"@,
        WorkflowStatus::Cancelled => "Cancelled"@,
    }
}

impl WorkflowStatus {
    /// The name of the status.
    pub fn name(&self) -> (r: &'static str)
        ensures
            r@ == status_name(*self),
    {
        match self {
            WorkflowStatus::Pending => "Pending",
            WorkflowStatus::Running => "Running",
            WorkflowStatus::Succeeded => "Succeeded",
            WorkflowStatus::Failed => "Failed",
            WorkflowStatus::Cancelled => "Cancelled",
        }
    }

    /// The status after a request to cancel: a running workflow becomes
    /// cancelled; any other status refuses the request.
    pub fn cancel(self) -> (r: Result<WorkflowStatus, ExecutionError>)
        ensures
            self == WorkflowStatus::Running ==> r == Ok::<WorkflowStatus, ExecutionError>(
                WorkflowStatus::Cancelled,
            ),
            self != WorkflowStatus::Running ==> r == Err::<WorkflowStatus, ExecutionError>(
                ExecutionError::CannotCancel(self),
            ),
    {
        if self == WorkflowStatus::Running {
            Ok(WorkflowStatus::Cancelled)
        } else {
            Err(ExecutionError::CannotCancel(self))
        }
    }

    /// Entering success or failure records when a run ended.
    pub open spec fn records_completion_spec(self) -> bool {
        self == WorkflowStatus::Succeeded || self == WorkflowStatus::Failed
    }

    /// Whether entering this status records the completion time.
    pub fn records_completion(&self) -> (r: bool)
        ensures
            r == self.records_completion_spec(),
    {
        *self == WorkflowStatus::Succeeded || *self == WorkflowStatus::Failed
    }

    /// What waiting on a run in this status answers: `None` while it is
    /// still pending or running, success once it succeeded, and the error
    /// once it failed or was cancelled.
    pub fn wait_outcome(&self) -> (r: Option<Result<(), ExecutionError>>)
        ensures
            (*self == WorkflowStatus::Pending || *self == WorkflowStatus::Running) ==> r is None,
            *self == WorkflowStatus::Succeeded ==> r == Some(Ok::<(), ExecutionError>(())),
            *self == WorkflowStatus::Failed ==> r == Some(Err::<(), ExecutionError>(ExecutionError::Failed)),
            *self == WorkflowStatus::Cancelled ==> r == Some(
                Err::<(), ExecutionError>(ExecutionError::Cancelled),
            ),
    {
        match self {
            WorkflowStatus::Succeeded => Some(Ok(())),
            WorkflowStatus::Failed => Some(Err(ExecutionError::Failed)),
            WorkflowStatus::Cancelled => Some(Err(ExecutionError::Cancelled)),
            _ => None,
        }
    }
}

impl ExecutionError {
    /// The message that describes the error.
    pub fn to_string(&self) -> (r: String)
        ensures
            match self {
                ExecutionError::StepFailed(id) => r@ == "Step "@ + id@ + " failed"@,
                ExecutionError::DependencyNotSatisfied(id) => r@ == "Dependency "@ + id@
                    + " not satisfied"@,
                ExecutionError::StepNotFound(id) => r@ == "Step not found: "@ + id@,
                ExecutionError::Stuck => r@ == "Workflow stuck - no executable steps but not all completed"@,
                ExecutionError::CannotCancel(s) => r@ == "Cannot cancel workflow in "@ + status_name(*s)
                    + " state"@,
                ExecutionError::Failed => r@ == "Workflow failed"@,
                ExecutionError::Cancelled => r@ == "Workflow cancelled"@,
                ExecutionError::RunFailed(m) => r@ == m@,
            },
    {
        match self {
            ExecutionError::StepFailed(id) => {
                let mut s = String::from_str("Step ");
                s.append(id.as_str());
                s.append(" failed");
                s
            },
            ExecutionError::DependencyNotSatisfied(id) => {
                let mut s = String::from_str("Dependency ");
                s.append(id.as_str());
                s.append(" not satisfied");
                s
            },
            ExecutionError::StepNotFound(id) => {
                let mut s = String::from_str("Step not found: ");
                s.append(id.as_str());
                s
            },
            ExecutionError::Stuck => String::from_str(
                "Workflow stuck - no executable steps but not all completed",
            ),
            ExecutionError::CannotCancel(st) => {
                let mut s = String::from_str("Cannot cancel workflow in ");
                s.append(st.name());
                s.append(" state");
                s
            },
            ExecutionError::Failed => String::from_str("Workflow failed"),
            ExecutionError::Cancelled => String::from_str("Workflow cancelled"),
            ExecutionError::RunFailed(m) => m.clone(),
        }
    }
}

/// What a run has reached: its status, the results of its steps so far,
/// and when it started and ended.
pub struct Checkpoint {
    pub workflow_id: String,
    pub status: WorkflowStatus,
    pub step_results: OrderedMap<StepResult>,
    pub started_at: Option<SystemTime>,
    pub completed_at: Option<SystemTime>,
}

/// A run of a workflow.
pub struct WorkflowExecution {
    pub workflow_id: String,
    status: WorkflowStatus,
    step_results: OrderedMap<StepResult>,
    started_at: SystemTime,
    completed_at: Option<SystemTime>,
    error: Option<String>,
    workflow: Arc<Workflow>,
}

/// `m` holds, for the same keys, results that report what those of `n` do.
pub open spec fn same_results(m: OrderedMap<StepResult>, n: OrderedMap<StepResult>) -> bool {
    &&& m@.dom() == n@.dom()
    &&& forall|k: Seq<char>| #[trigger] m@.contains_key(k) ==> same_result(m@[k], n@[k])
}

impl WorkflowExecution {
    /// The id of the workflow being run.
    pub closed spec fn id_view(&self) -> Seq<char> {
        self.workflow_id@
    }

    /// Where the run stands.
    pub closed spec fn status_view(&self) -> WorkflowStatus {
        self.status
    }

    /// The results recorded so far, by step id.
    pub closed spec fn results_view(&self) -> OrderedMap<StepResult> {
        self.step_results
    }

    /// When the run started.
    pub closed spec fn started_view(&self) -> SystemTime {
        self.started_at
    }

    /// When the run ended, once it has.
    pub closed spec fn completed_view(&self) -> Option<SystemTime> {
        self.completed_at
    }

    /// The error the run failed with, if one was recorded.
    pub closed spec fn error_view(&self) -> Option<String> {
        self.error
    }

    /// The workflow being run.
    pub closed spec fn workflow_view(&self) -> Workflow {
        *self.workflow
    }

    /// A pending run of `workflow`, started now, with no result yet.
    pub fn new(workflow: Arc<Workflow>) -> (r: Self)
        ensures
            r.id_view() == workflow.id@,
            r.status_view() == WorkflowStatus::Pending,
            r.results_view()@.len() == 0,
            r.completed_view() is None,
            r.error_view() is None,
            r.workflow_view() == *workflow,
    {
        let workflow_id = workflow.id.clone();
        WorkflowExecution {
            workflow_id,
            status: WorkflowStatus::Pending,
            step_results: OrderedMap::new(),
            started_at: now(),
            completed_at: None,
            error: None,
            workflow,
        }
    }

    /// What waiting on the run answers now: `None` while it is pending or
    /// running; success once it succeeded; once it failed, the recorded
    /// error, or a plain failure where none was recorded; once it was
    /// cancelled, the cancellation.
    pub fn wait_outcome(&self) -> (r: Option<Result<(), ExecutionError>>)
        ensures
            match self.status_view() {
                WorkflowStatus::Pending | WorkflowStatus::Running => r is None,
                WorkflowStatus::Succeeded => r == Some(Ok::<(), ExecutionError>(())),
                WorkflowStatus::Cancelled => r == Some(Err::<(), ExecutionError>(ExecutionError::Cancelled)),
                WorkflowStatus::Failed => match self.error_view() {
                    None => r == Some(Err::<(), ExecutionError>(ExecutionError::Failed)),
                    Some(e) => (r matches Some(Err(ExecutionError::RunFailed(m))) && m@ == e@),
                },
            },
    {
        match self.status {
            WorkflowStatus::Failed => match &self.error {
                Some(e) => Some(Err(ExecutionError::RunFailed(e.clone()))),
                None => Some(Err(ExecutionError::Failed)),
            },
            _ => self.status.wait_outcome(),
        }
    }

    /// Cancels a running run, recording when it ended; any other run
    /// refuses and is left as it was.
    pub fn cancel(&mut self) -> (r: Result<(), ExecutionError>)
        ensures
            old(self).status_view() == WorkflowStatus::Running ==> {
                &&& r is Ok
                &&& final(self).status_view() == WorkflowStatus::Cancelled
                &&& final(self).completed_view() is Some
                &&& final(self).results_view() == old(self).results_view()
                &&& final(self).error_view() == old(self).error_view()
                &&& final(self).id_view() == old(self).id_view()
            },
            old(self).status_view() != WorkflowStatus::Running ==> r == Err::<(), ExecutionError>(
                ExecutionError::CannotCancel(old(self).status_view()),
            ) && *final(self) == *old(self),
    {
        match self.status.cancel() {
            Ok(s) => {
                self.status = s;
                self.completed_at = Some(now());
                Ok(())
            },
            Err(e) => Err(e),
        }
    }

    pub fn get_status(&self) -> (r: WorkflowStatus)
        ensures
            r == self.status_view(),
    {
        self.status
    }

    /// A copy of the result of `step_id`, if the run has one.
    pub fn get_step_result(&self, step_id: &str) -> (r: Option<StepResult>)
        ensures
            self.results_view()@.contains_key(step_id@) ==> (r matches Some(s) && same_result(
                s,
                self.results_view()@[step_id@],
            )),
            !self.results_view()@.contains_key(step_id@) ==> r is None,
    {
        match self.step_results.get(step_id) {
            Some(s) => Some(s.duplicate()),
            None => None,
        }
    }

    /// What the run has reached: its id, status, results, start and end.
    pub fn get_checkpoint(&self) -> (r: Option<Checkpoint>)
        ensures
            r matches Some(c) && c.workflow_id@ == self.id_view() && c.status == self.status_view()
                && same_results(c.step_results, self.results_view()) && c.started_at == Some(
                self.started_view(),
            ) && c.completed_at == self.completed_view(),
    {
        Some(
            Checkpoint {
                workflow_id: self.workflow_id.clone(),
                status: self.status,
                step_results: self.step_results.duplicate(),
                started_at: Some(self.started_at),
                completed_at: self.completed_at,
            },
        )
    }

    /// Moves the run to `status`; entering success or failure records when
    /// the run ended.
    pub fn set_status(&mut self, status: WorkflowStatus)
        ensures
            final(self).status_view() == status,
            status.records_completion_spec() ==> final(self).completed_view() is Some,
            !status.records_completion_spec() ==> final(self).completed_view() == old(self).completed_view(),
            final(self).results_view() == old(self).results_view(),
            final(self).error_view() == old(self).error_view(),
            final(self).started_view() == old(self).started_view(),
            final(self).id_view() == old(self).id_view(),
    {
        self.status = status;
        if status.records_completion() {
            self.completed_at = Some(now());
        }
    }

    /// Records the error the run failed with.
    pub fn set_error(&mut self, error: String)
        ensures
            final(self).error_view() == Some(error),
            final(self).status_view() == old(self).status_view(),
            final(self).results_view() == old(self).results_view(),
            final(self).completed_view() == old(self).completed_view(),
            final(self).id_view() == old(self).id_view(),
    {
        self.error = Some(error);
    }

    /// Records the result of `step_id`, replacing any earlier one.
    pub fn set_step_result(&mut self, step_id: String, result: StepResult)
        ensures
            final(self).results_view()@ == old(self).results_view()@.insert(step_id@, result),
            final(self).status_view() == old(self).status_view(),
            final(self).error_view() == old(self).error_view(),
            final(self).completed_view() == old(self).completed_view(),
            final(self).id_view() == old(self).id_view(),
    {
        self.step_results.insert(step_id, result);
    }

    /// A copy of every result recorded so far.
    pub fn get_all_step_results(&self) -> (r: OrderedMap<StepResult>)
        ensures
            same_results(r, self.results_view()),
    {
        self.step_results.duplicate()
    }

    /// The steps of the workflow being run.
    pub fn get_steps(&self) -> (r: &Vec<Box<dyn WorkFlowStep>>)
        ensures
            *r == self.workflow_view().steps,
    {
        &self.workflow.steps
    }

    /// The namespace of the workflow being run.
    pub fn get_namespace(&self) -> (r: &str)
        ensures
            r@ == self.workflow_view().namespace@,
    {
        self.workflow.namespace.as_str()
    }
}

/// A result recorded for a step is what reading that step's result gives
/// back, until another is recorded for it; the results of other steps are
/// left as they were.
pub proof fn lemma_step_result_read_after_write(
    before: WorkflowExecution,
    after: WorkflowExecution,
    step_id: Seq<char>,
    result: StepResult,
    other: Seq<char>,
)
    requires
        after.results_view()@ == before.results_view()@.insert(step_id, result),
    ensures
        after.results_view()@.contains_key(step_id),
        after.results_view()@[step_id] == result,
        other != step_id ==> (after.results_view()@.contains_key(other) == before.results_view()@.contains_key(other)),
        other != step_id && before.results_view()@.contains_key(other) ==> after.results_view()@[other]
            == before.results_view()@[other],
{
}

} // verus!

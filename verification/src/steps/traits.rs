//! What a workflow step offers, and the resources it may use.
use vstd::prelude::*;
use crate::steps::result::{JsonValue, StepResult};
use crate::steps::kubernetes::job::KubeJobStep;
use crate::steps::kubernetes::pod::KubePodStep;

verus! {

/// A step of a workflow, known by its id.
pub trait WorkFlowStep: Send + Sync {
    fn step_id(&self) -> &str;

    /// The step as a Job step, when it is one.
    fn as_kube_job(&self) -> Option<&KubeJobStep> {
        None
    }

    /// The step as a Pod step, when it is one.
    fn as_kube_pod(&self) -> Option<&KubePodStep> {
        None
    }
}

/// A step that runs as a Kubernetes object.
pub trait KubeWorkFlowStep: WorkFlowStep {
    fn namespace(&self) -> &str;

    fn resource_name(&self) -> &str;
}

/// A step whose execution hinges on a condition on the step itself.
pub trait ConditionalStep: WorkFlowStep + Sized {
    fn with_execution_condition<F>(self, condition: F) -> Self where
        F: Fn(&dyn WorkFlowStep) -> bool + Send + Sync + 'static,
    ;

    fn should_execute(&self) -> bool;
}

/// A step whose result, and the outputs in it, can be read.
pub trait StepWithOutputs: WorkFlowStep {
    fn get_step_result(&self) -> StepResult;

    fn get_output(&self, key: &str) -> Option<JsonValue>;
}

/// How the logs of a step are read.
#[derive(Debug, Clone, Copy, PartialEq, Eq)]
pub struct LogStreamOptions {
    pub follow: bool,
    pub tail_lines: Option<i64>,
    pub since_seconds: Option<i64>,
    pub timestamps: bool,
    pub limit_bytes: Option<i64>,
}

impl Default for LogStreamOptions {
    /// The whole log, once, without timestamps.
    fn default() -> (r: Self)
        ensures
            !r.follow,
            r.tail_lines is None,
            r.since_seconds is None,
            !r.timestamps,
            r.limit_bytes is None,
    {
        LogStreamOptions {
            follow: false,
            tail_lines: None,
            since_seconds: None,
            timestamps: false,
            limit_bytes: None,
        }
    }
}

/// The compute resources that a step may use and asks for, as Kubernetes
/// quantities.
#[derive(Debug, Clone, PartialEq, Eq)]
pub struct ResourceLimits {
    pub cpu: Option<String>,
    pub memory: Option<String>,
    pub cpu_request: Option<String>,
    pub memory_request: Option<String>,
    pub ephemeral_storage: Option<String>,
    pub ephemeral_storage_request: Option<String>,
}

/// `o` holds a text equal to `t`.
pub open spec fn holds_text(o: Option<String>, t: Seq<char>) -> bool {
    match o {
        Some(s) => s@ == t,
        None => false,
    }
}

impl ResourceLimits {
    /// No limit and no request.
    pub fn new() -> (r: Self)
        ensures
            r.cpu is None,
            r.memory is None,
            r.cpu_request is None,
            r.memory_request is None,
            r.ephemeral_storage is None,
            r.ephemeral_storage_request is None,
    {
        ResourceLimits {
            cpu: None,
            memory: None,
            cpu_request: None,
            memory_request: None,
            ephemeral_storage: None,
            ephemeral_storage_request: None,
        }
    }

    pub fn with_cpu(self, cpu: &str) -> (r: Self)
        ensures
            holds_text(r.cpu, cpu@),
            r == (ResourceLimits { cpu: r.cpu, ..self }),
    {
        ResourceLimits { cpu: Some(cpu.to_string()), ..self }
    }

    pub fn with_memory(self, memory: &str) -> (r: Self)
        ensures
            holds_text(r.memory, memory@),
            r == (ResourceLimits { memory: r.memory, ..self }),
    {
        ResourceLimits { memory: Some(memory.to_string()), ..self }
    }

    pub fn with_cpu_request(self, cpu_request: &str) -> (r: Self)
        ensures
            holds_text(r.cpu_request, cpu_request@),
            r == (ResourceLimits { cpu_request: r.cpu_request, ..self }),
    {
        ResourceLimits { cpu_request: Some(cpu_request.to_string()), ..self }
    }

    pub fn with_memory_request(self, memory_request: &str) -> (r: Self)
        ensures
            holds_text(r.memory_request, memory_request@),
            r == (ResourceLimits { memory_request: r.memory_request, ..self }),
    {
        ResourceLimits { memory_request: Some(memory_request.to_string()), ..self }
    }

    /// A copy of the limits.
    pub fn duplicate(&self) -> (r: Self)
        ensures
            r == *self,
    {
        ResourceLimits {
            cpu: self.cpu.clone(),
            memory: self.memory.clone(),
            cpu_request: self.cpu_request.clone(),
            memory_request: self.memory_request.clone(),
            ephemeral_storage: self.ephemeral_storage.clone(),
            ephemeral_storage_request: self.ephemeral_storage_request.clone(),
        }
    }
}

impl Default for ResourceLimits {
    fn default() -> (r: Self)
        ensures
            r.cpu is None,
            r.memory is None,
            r.cpu_request is None,
            r.memory_request is None,
            r.ephemeral_storage is None,
            r.ephemeral_storage_request is None,
    {
        ResourceLimits::new()
    }
}

/// A step that can be given resource limits.
pub trait ResourceLimitedStep: WorkFlowStep + Sized {
    fn with_resource_limits(self, limits: ResourceLimits) -> Self;

    fn resource_limits(&self) -> Option<&ResourceLimits>;
}

/// A step whose resource limits can be read.
pub trait HasResourceLimits: WorkFlowStep {
    fn resource_limits(&self) -> Option<&ResourceLimits>;
}

impl<T: ResourceLimitedStep> HasResourceLimits for T {
    fn resource_limits(&self) -> Option<&ResourceLimits> {
        ResourceLimitedStep::resource_limits(self)
    }
}

} // verus!

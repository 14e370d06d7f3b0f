//! A workflow: named steps run in a namespace under shared settings.
use vstd::prelude::*;
use std::time::SystemTime;
use crate::collections::OrderedMap;
use crate::resources::meta::{fails_with, BuildError};
use crate::steps::traits::{ResourceLimits, WorkFlowStep};

verus! {

/// A point in time, read from the system clock.
#[verifier::external_type_specification]
#[verifier::external_body]
pub struct ExSystemTime(SystemTime);

/// `SystemTime` is `Copy`; its `clone` (std) hands back the same time.
pub assume_specification[ <SystemTime as Clone>::clone ](t: &SystemTime) -> (r: SystemTime)
    ensures
        r == *t,
;

/// The current time of the system clock (`SystemTime::now`). What it
/// reads is the clock's business: nothing is stated of it.
#[verifier::external_body]
pub(crate) fn now() -> SystemTime {
    SystemTime::now()
}

/// When a workflow was made and changed, and its labels and annotations.
#[derive(Debug, Clone)]
pub struct WorkflowMetadata {
    pub created_at: SystemTime,
    pub updated_at: SystemTime,
    pub labels: OrderedMap<String>,
    pub annotations: OrderedMap<String>,
}

impl Default for WorkflowMetadata {
    /// Made now, with no label or annotation.
    fn default() -> (r: Self)
        ensures
            r.labels@.len() == 0,
            r.annotations@.len() == 0,
            r.created_at == r.updated_at,
    {
        let t = now();
        WorkflowMetadata {
            created_at: t,
            updated_at: t,
            labels: OrderedMap::new(),
            annotations: OrderedMap::new(),
        }
    }
}

/// Whether steps run one after the other, or up to a number at once.
#[derive(Debug, Clone, Copy, PartialEq, Eq, Structural)]
pub enum ExecutionMode {
    Sequential,
    Parallel(usize),
}

impl Default for ExecutionMode {
    fn default() -> (r: Self)
        ensures
            r == ExecutionMode::Sequential,
    {
        ExecutionMode::Sequential
    }
}

/// When and how a workflow records its progress.
#[derive(Debug, Clone, PartialEq, Eq)]
pub struct CheckpointConfig {
    pub enabled: bool,
    pub checkpoint_interval_secs: u64,
    pub retention_count: usize,
    pub storage_path: Option<String>,
}

/// The name under which workflows know their checkpoint settings.
pub type LegacyCheckpointConfig = CheckpointConfig;

impl Default for CheckpointConfig {
    /// Disabled, every 300 seconds, keeping 10 checkpoints, no storage path.
    fn default() -> (r: Self)
        ensures
            !r.enabled,
            r.checkpoint_interval_secs == 300,
            r.retention_count == 10,
            r.storage_path is None,
    {
        CheckpointConfig {
            enabled: false,
            checkpoint_interval_secs: 300,
            retention_count: 10,
            storage_path: None,
        }
    }
}

impl CheckpointConfig {
    pub fn new() -> (r: Self)
        ensures
            !r.enabled,
            r.checkpoint_interval_secs == 300,
            r.retention_count == 10,
            r.storage_path is None,
    {
        CheckpointConfig::default()
    }

    pub fn enabled(self, enabled: bool) -> (r: Self)
        ensures
            r == (CheckpointConfig { enabled, ..self }),
    {
        CheckpointConfig { enabled, ..self }
    }

    pub fn with_interval_secs(self, secs: u64) -> (r: Self)
        ensures
            r == (CheckpointConfig { checkpoint_interval_secs: secs, ..self }),
    {
        CheckpointConfig { checkpoint_interval_secs: secs, ..self }
    }

    pub fn with_retention_count(self, count: usize) -> (r: Self)
        ensures
            r == (CheckpointConfig { retention_count: count, ..self }),
    {
        CheckpointConfig { retention_count: count, ..self }
    }

    pub fn with_storage_path(self, path: &str) -> (r: Self)
        ensures
            r.storage_path matches Some(p) && p@ == path@,
            r == (CheckpointConfig { storage_path: r.storage_path, ..self }),
    {
        CheckpointConfig { storage_path: Some(path.to_string()), ..self }
    }
}

/// A workflow.
pub struct Workflow {
    pub id: String,
    pub name: String,
    pub namespace: String,
    pub steps: Vec<Box<dyn WorkFlowStep>>,
    pub resource_limits: Option<ResourceLimits>,
    pub checkpoint_config: Option<CheckpointConfig>,
    pub metadata: WorkflowMetadata,
    pub parallelism: usize,
    pub execution_mode: ExecutionMode,
}

/// The first problem of a workflow's settings, in the order in which they
/// are checked.
pub open spec fn workflow_problem(name: Seq<char>, namespace: Seq<char>, steps: nat, parallelism: usize) -> Option<
    Seq<char>,
> {
    if name.len() == 0 {
        Some("Workflow name cannot be empty"@)
    } else if namespace.len() == 0 {
        Some("Workflow namespace cannot be empty"@)
    } else if steps == 0 {
        Some("Workflow must have at least one step"@)
    } else if parallelism == 0 {
        Some("Workflow parallelism must be greater than 0"@)
    } else {
        None
    }
}

/// The limit `w` when it is set, else the default `d`.
pub open spec fn override_with(w: Option<String>, d: Option<String>) -> Option<String> {
    if w is Some {
        w
    } else {
        d
    }
}

/// The limits that apply: each of the workflow's own CPU and memory limits
/// and requests where it sets one, the defaults (or nothing) otherwise.
pub open spec fn resolved_limits(own: Option<ResourceLimits>, defaults: Option<ResourceLimits>) -> ResourceLimits {
    let d = match defaults {
        Some(d) => d,
        None => ResourceLimits {
            cpu: None,
            memory: None,
            cpu_request: None,
            memory_request: None,
            ephemeral_storage: None,
            ephemeral_storage_request: None,
        },
    };
    match own {
        None => d,
        Some(w) => ResourceLimits {
            cpu: override_with(w.cpu, d.cpu),
            memory: override_with(w.memory, d.memory),
            cpu_request: override_with(w.cpu_request, d.cpu_request),
            memory_request: override_with(w.memory_request, d.memory_request),
            ..d
        },
    }
}

/// Resolving limits keeps each CPU and memory limit or request that the
/// workflow sets, and for each that it leaves unset takes the default's value
/// (nothing where there are no defaults); ephemeral storage always comes from
/// the defaults. A workflow with no limits of its own gets the defaults whole.
pub proof fn lemma_resolved_limits(own: Option<ResourceLimits>, defaults: Option<ResourceLimits>)
    ensures
        ({
            let r = resolved_limits(own, defaults);
            &&& (own is Some && own->0.cpu is Some) ==> r.cpu == own->0.cpu
            &&& (own is Some && own->0.memory is Some) ==> r.memory == own->0.memory
            &&& (own is Some && own->0.cpu_request is Some) ==> r.cpu_request == own->0.cpu_request
            &&& (own is Some && own->0.memory_request is Some) ==> r.memory_request == own->0.memory_request
            &&& (own is None || own->0.cpu is None) ==> r.cpu == (match defaults {
                Some(d) => d.cpu,
                None => None,
            })
            &&& (own is None || own->0.memory is None) ==> r.memory == (match defaults {
                Some(d) => d.memory,
                None => None,
            })
            &&& (own is None || own->0.cpu_request is None) ==> r.cpu_request == (match defaults {
                Some(d) => d.cpu_request,
                None => None,
            })
            &&& (own is None || own->0.memory_request is None) ==> r.memory_request == (match defaults {
                Some(d) => d.memory_request,
                None => None,
            })
            &&& r.ephemeral_storage == (match defaults {
                Some(d) => d.ephemeral_storage,
                None => None,
            })
            &&& r.ephemeral_storage_request == (match defaults {
                Some(d) => d.ephemeral_storage_request,
                None => None,
            })
        }),
{
}

/// How many steps run at once under a mode and a parallelism.
pub open spec fn parallelism_of(mode: ExecutionMode, parallelism: usize) -> usize {
    match mode {
        ExecutionMode::Parallel(n) => if n < parallelism {
            n
        } else {
            parallelism
        },
        ExecutionMode::Sequential => 1,
    }
}

/// The first problem of a workflow's settings, if any.
pub fn check_workflow(name: &str, namespace: &str, steps: usize, parallelism: usize) -> (r: Option<
    BuildError,
>)
    ensures
        match workflow_problem(name@, namespace@, steps as nat, parallelism) {
            None => r is None,
            Some(m) => r matches Some(e) && e.message@ == m,
        },
{
    if name.unicode_len() == 0 {
        return Some(BuildError::new("Workflow name cannot be empty"));
    }
    if namespace.unicode_len() == 0 {
        return Some(BuildError::new("Workflow namespace cannot be empty"));
    }
    if steps == 0 {
        return Some(BuildError::new("Workflow must have at least one step"));
    }
    if parallelism == 0 {
        return Some(BuildError::new("Workflow parallelism must be greater than 0"));
    }
    None
}

/// The copy of `w` when it is set, else a copy of `d`.
fn pick(w: &Option<String>, d: Option<String>) -> (r: Option<String>)
    ensures
        r == override_with(*w, d),
{
    match w {
        Some(s) => Some(s.clone()),
        None => d,
    }
}

impl Workflow {
    pub fn builder() -> (r: crate::workflows::builder::WorkflowBuilder)
        ensures
            crate::workflows::builder::builder_is_new(r),
    {
        crate::workflows::builder::WorkflowBuilder::new()
    }

    /// Checks, in order, that the name and the namespace are not empty, that
    /// there is a step, and that the parallelism is positive.
    pub fn validate(&self) -> (r: Result<(), BuildError>)
        ensures
            match workflow_problem(self.name@, self.namespace@, self.steps@.len(), self.parallelism) {
                None => r is Ok,
                Some(m) => fails_with(r, m),
            },
    {
        match check_workflow(self.name.as_str(), self.namespace.as_str(), self.steps.len(), self.parallelism) {
            None => Ok(()),
            Some(e) => Err(e),
        }
    }

    /// The limits that apply to the workflow's steps: its own CPU and memory
    /// limits and requests where set, the given defaults otherwise.
    pub fn resolve_resource_limits(&self, app_defaults: Option<&ResourceLimits>) -> (r: ResourceLimits)
        ensures
            r == resolved_limits(
                self.resource_limits,
                match app_defaults {
                    Some(d) => Some(*d),
                    None => None,
                },
            ),
    {
        let base = match app_defaults {
            Some(d) => d.duplicate(),
            None => ResourceLimits::new(),
        };
        match &self.resource_limits {
            None => base,
            Some(w) => {
                let ResourceLimits {
                    cpu,
                    memory,
                    cpu_request,
                    memory_request,
                    ephemeral_storage,
                    ephemeral_storage_request,
                } = base;
                ResourceLimits {
                    cpu: pick(&w.cpu, cpu),
                    memory: pick(&w.memory, memory),
                    cpu_request: pick(&w.cpu_request, cpu_request),
                    memory_request: pick(&w.memory_request, memory_request),
                    ephemeral_storage,
                    ephemeral_storage_request,
                }
            },
        }
    }

    /// The limits that apply to `_step`: those of the workflow.
    pub fn step_resource_limits(&self, _step: &dyn WorkFlowStep, app_defaults: Option<&ResourceLimits>) -> (r:
        ResourceLimits)
        ensures
            r == resolved_limits(
                self.resource_limits,
                match app_defaults {
                    Some(d) => Some(*d),
                    None => None,
                },
            ),
    {
        self.resolve_resource_limits(app_defaults)
    }

    pub fn step_count(&self) -> (r: usize)
        ensures
            r == self.steps@.len(),
    {
        self.steps.len()
    }

    pub fn is_parallel(&self) -> (r: bool)
        ensures
            r == (self.execution_mode is Parallel),
    {
        match self.execution_mode {
            ExecutionMode::Parallel(_) => true,
            ExecutionMode::Sequential => false,
        }
    }

    /// How many steps run at once: one in sequential mode; the smaller of
    /// the mode's number and the parallelism in parallel mode.
    pub fn actual_parallelism(&self) -> (r: usize)
        ensures
            r == parallelism_of(self.execution_mode, self.parallelism),
    {
        match self.execution_mode {
            ExecutionMode::Parallel(n) => if n < self.parallelism {
                n
            } else {
                self.parallelism
            },
            ExecutionMode::Sequential => 1,
        }
    }

    /// The ids of the steps, in order.
    pub fn step_ids(&self) -> (r: Vec<String>)
        ensures
            r@.len() == self.steps@.len(),
    {
        let mut r: Vec<String> = Vec::new();
        let mut i: usize = 0;
        while i < self.steps.len()
            invariant
                i <= self.steps@.len(),
                r@.len() == i,
            decreases self.steps@.len() - i,
        {
            r.push(self.steps[i].step_id().to_string());
            i = i + 1;
        }
        r
    }
}

/// A workflow never runs more steps at once than its parallelism, and runs
/// at least one at a time when its parallelism and mode allow any.
pub proof fn lemma_parallelism_bounded(mode: ExecutionMode, parallelism: usize)
    requires
        parallelism > 0,
        mode matches ExecutionMode::Parallel(n) ==> n > 0,
    ensures
        1 <= parallelism_of(mode, parallelism) <= parallelism,
{
}

} // verus!

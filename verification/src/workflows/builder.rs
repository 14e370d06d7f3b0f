//! A fluent builder for workflows.
use vstd::prelude::*;
use crate::collections::inserted_text;
use crate::ids::{is_hyphenated_id, new_step_id};
use crate::resources::meta::{fails_with, BuildError};
use crate::steps::traits::{ResourceLimits, WorkFlowStep};
use crate::workflows::workflow::{
    check_workflow, workflow_problem, CheckpointConfig, ExecutionMode, Workflow, WorkflowMetadata,
};

verus! {

/// The settings of a workflow under construction.
pub struct WorkflowBuilder {
    pub name: Option<String>,
    pub namespace: Option<String>,
    pub steps: Vec<Box<dyn WorkFlowStep>>,
    pub resource_limits: Option<ResourceLimits>,
    pub checkpoint_config: Option<CheckpointConfig>,
    pub metadata: WorkflowMetadata,
    pub parallelism: usize,
    pub execution_mode: ExecutionMode,
}

/// `b` has no setting made: the default namespace, one step at a time,
/// sequential, with no label or annotation.
pub open spec fn builder_is_new(b: WorkflowBuilder) -> bool {
    &&& b.name is None
    &&& b.namespace matches Some(n) && n@ == "default"@
    &&& b.steps@.len() == 0
    &&& b.resource_limits is None
    &&& b.checkpoint_config is None
    &&& b.metadata.labels@.len() == 0
    &&& b.metadata.annotations@.len() == 0
    &&& b.parallelism == 1
    &&& b.execution_mode == ExecutionMode::Sequential
}

/// The first problem of a builder's settings: a missing name, then the
/// problems of the workflow it would build.
pub open spec fn builder_problem(b: WorkflowBuilder) -> Option<Seq<char>> {
    match b.name {
        None => Some("Workflow name is required"@),
        Some(name) => {
            let ns = match b.namespace {
                Some(n) => n@,
                None => "default"@,
            };
            if b.steps@.len() == 0 {
                Some("Workflow must have at least one step"@)
            } else if b.parallelism == 0 {
                Some("Workflow parallelism must be greater than 0"@)
            } else {
                workflow_problem(name@, ns, b.steps@.len(), b.parallelism)
            }
        },
    }
}

impl Default for WorkflowBuilder {
    fn default() -> (r: Self)
        ensures
            builder_is_new(r),
    {
        WorkflowBuilder::new()
    }
}

impl WorkflowBuilder {
    /// No setting made yet.
    pub fn new() -> (r: Self)
        ensures
            builder_is_new(r),
    {
        WorkflowBuilder {
            name: None,
            namespace: Some(String::from_str("default")),
            steps: Vec::new(),
            resource_limits: None,
            checkpoint_config: None,
            metadata: WorkflowMetadata::default(),
            parallelism: 1,
            execution_mode: ExecutionMode::default(),
        }
    }

    pub fn with_name(self, name: &str) -> (r: Self)
        ensures
            r.name matches Some(n) && n@ == name@,
            r == (WorkflowBuilder { name: r.name, ..self }),
    {
        WorkflowBuilder { name: Some(name.to_string()), ..self }
    }

    pub fn with_namespace(self, namespace: &str) -> (r: Self)
        ensures
            r.namespace matches Some(n) && n@ == namespace@,
            r == (WorkflowBuilder { namespace: r.namespace, ..self }),
    {
        WorkflowBuilder { namespace: Some(namespace.to_string()), ..self }
    }

    pub fn with_parallelism(self, parallelism: usize) -> (r: Self)
        ensures
            r == (WorkflowBuilder { parallelism, ..self }),
    {
        WorkflowBuilder { parallelism, ..self }
    }

    pub fn with_resource_limits(self, limits: ResourceLimits) -> (r: Self)
        ensures
            r == (WorkflowBuilder { resource_limits: Some(limits), ..self }),
    {
        WorkflowBuilder { resource_limits: Some(limits), ..self }
    }

    /// Appends a step.
    pub fn add_step<S: WorkFlowStep + 'static>(self, step: S) -> (r: Self)
        ensures
            r.steps@.len() == self.steps@.len() + 1,
            r == (WorkflowBuilder { steps: r.steps, ..self }),
    {
        let mut s = self;
        let mut one: Vec<Box<dyn WorkFlowStep>> = vec![Box::new(step)];
        assert(one@.len() == 1);
        s.steps.append(&mut one);
        s
    }

    /// Appends the steps, in order.
    pub fn add_steps<S: WorkFlowStep + 'static>(self, steps: Vec<S>) -> (r: Self)
        ensures
            r.steps@.len() == self.steps@.len() + steps@.len(),
            r == (WorkflowBuilder { steps: r.steps, ..self }),
    {
        let mut s = self;
        let ghost n = steps@.len();
        let mut rest = steps;
        let mut pending: Vec<S> = Vec::new();
        while rest.len() > 0
            invariant
                rest@.len() + pending@.len() == n,
            decreases rest@.len(),
        {
            let x = rest.pop().unwrap();
            pending.push(x);
        }
        while pending.len() > 0
            invariant
                s.steps@.len() == self.steps@.len() + (n - pending@.len()),
                pending@.len() <= n,
                s == (WorkflowBuilder { steps: s.steps, ..self }),
            decreases pending@.len(),
        {
            let x = pending.pop().unwrap();
            let mut one: Vec<Box<dyn WorkFlowStep>> = vec![Box::new(x)];
            assert(one@.len() == 1);
            s.steps.append(&mut one);
        }
        s
    }

    pub fn with_checkpointing(self, config: CheckpointConfig) -> (r: Self)
        ensures
            r == (WorkflowBuilder { checkpoint_config: Some(config), ..self }),
    {
        WorkflowBuilder { checkpoint_config: Some(config), ..self }
    }

    pub fn with_execution_mode(self, mode: ExecutionMode) -> (r: Self)
        ensures
            r == (WorkflowBuilder { execution_mode: mode, ..self }),
    {
        WorkflowBuilder { execution_mode: mode, ..self }
    }

    /// Sets a label of the workflow.
    pub fn with_label(self, key: &str, value: &str) -> (r: Self)
        ensures
            inserted_text(r.metadata.labels, self.metadata.labels, key@, value@),
            r.metadata.annotations == self.metadata.annotations,
            r.metadata.created_at == self.metadata.created_at,
            r.metadata.updated_at == self.metadata.updated_at,
            r == (WorkflowBuilder { metadata: r.metadata, ..self }),
    {
        let mut s = self;
        s.metadata.labels.insert_text(key, value);
        s
    }

    /// Sets an annotation of the workflow.
    pub fn with_annotation(self, key: &str, value: &str) -> (r: Self)
        ensures
            inserted_text(r.metadata.annotations, self.metadata.annotations, key@, value@),
            r.metadata.labels == self.metadata.labels,
            r.metadata.created_at == self.metadata.created_at,
            r.metadata.updated_at == self.metadata.updated_at,
            r == (WorkflowBuilder { metadata: r.metadata, ..self }),
    {
        let mut s = self;
        s.metadata.annotations.insert_text(key, value);
        s
    }

    /// The workflow, under a fresh random id, in the default namespace
    /// unless another is set: the name, a step and a positive parallelism
    /// are required, and the workflow must then validate.
    pub fn build(self) -> (r: Result<Workflow, BuildError>)
        ensures
            match builder_problem(self) {
                Some(m) => fails_with(r, m),
                None => r matches Ok(w) && {
                    &&& is_hyphenated_id(w.id@)
                    &&& Some(w.name) == self.name
                    &&& w.namespace@ == (match self.namespace {
                        Some(n) => n@,
                        None => "default"@,
                    })
                    &&& w.steps == self.steps
                    &&& w.resource_limits == self.resource_limits
                    &&& w.checkpoint_config == self.checkpoint_config
                    &&& w.metadata == self.metadata
                    &&& w.parallelism == self.parallelism
                    &&& w.execution_mode == self.execution_mode
                },
            },
    {
        let WorkflowBuilder {
            name,
            namespace,
            steps,
            resource_limits,
            checkpoint_config,
            metadata,
            parallelism,
            execution_mode,
        } = self;
        let name = match name {
            None => {
                return Err(BuildError::new("Workflow name is required"));
            },
            Some(n) => n,
        };
        let namespace = match namespace {
            Some(n) => n,
            None => String::from_str("default"),
        };
        if steps.len() == 0 {
            return Err(BuildError::new("Workflow must have at least one step"));
        }
        if parallelism == 0 {
            return Err(BuildError::new("Workflow parallelism must be greater than 0"));
        }
        match check_workflow(name.as_str(), namespace.as_str(), steps.len(), parallelism) {
            Some(e) => {
                return Err(e);
            },
            None => {},
        }
        Ok(
            Workflow {
                id: new_step_id(),
                name,
                namespace,
                steps,
                resource_limits,
                checkpoint_config,
                metadata,
                parallelism,
                execution_mode,
            },
        )
    }
}

} // verus!

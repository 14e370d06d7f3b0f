//! What a checkpoint records: the state of each step of a workflow at an
//! instant, and a summary of it.
use vstd::prelude::*;
use crate::collections::{inserted_text, OrderedMap};
use crate::steps::result::JsonValue;
use crate::workflows::checkpointing::time::{utc_now, Timestamp};

verus! {

/// The recorded state of one step.
#[derive(Debug)]
pub struct StepCheckpoint {
    pub status: String,
    pub last_execution: Timestamp,
    pub outputs: OrderedMap<JsonValue>,
    pub execution_count: u32,
}

impl StepCheckpoint {
    /// A step in `status`, last run now, with no output and no run counted.
    pub fn new(status: &str) -> (r: Self)
        ensures
            r.status@ == status@,
            r.outputs@ == Map::<Seq<char>, JsonValue>::empty(),
            r.execution_count == 0,
            r.last_execution.nanos < 2_000_000_000,
    {
        StepCheckpoint {
            status: status.to_string(),
            last_execution: utc_now(),
            outputs: OrderedMap::new(),
            execution_count: 0,
        }
    }

    /// Replaces the outputs.
    pub fn with_outputs(self, outputs: OrderedMap<JsonValue>) -> (r: Self)
        ensures
            r == (StepCheckpoint { outputs, ..self }),
    {
        StepCheckpoint { outputs, ..self }
    }

    /// Sets the number of runs.
    pub fn with_execution_count(self, count: u32) -> (r: Self)
        ensures
            r == (StepCheckpoint { execution_count: count, ..self }),
    {
        StepCheckpoint { execution_count: count, ..self }
    }

    /// Counts one more run.
    pub fn increment_execution_count(&mut self)
        requires
            old(self).execution_count < u32::MAX,
        ensures
            *final(self) == (StepCheckpoint { execution_count: (old(self).execution_count + 1) as u32, ..*old(self) }),
    {
        self.execution_count = self.execution_count + 1;
    }

    /// Records a new status, run now.
    pub fn update_status(&mut self, status: &str)
        ensures
            final(self).status@ == status@,
            final(self).outputs == old(self).outputs,
            final(self).execution_count == old(self).execution_count,
            final(self).last_execution.nanos < 2_000_000_000,
    {
        self.status = status.to_string();
        self.last_execution = utc_now();
    }
}

/// The state of a workflow at an instant.
#[derive(Debug)]
pub struct Checkpoint {
    pub workflow_id: String,
    pub checkpoint_time: Timestamp,
    pub steps: OrderedMap<StepCheckpoint>,
    pub metadata: OrderedMap<String>,
    pub version: u32,
}

impl Checkpoint {
    /// An empty checkpoint of the workflow, taken now, at version 0.
    pub fn new(workflow_id: &str) -> (r: Self)
        ensures
            r.workflow_id@ == workflow_id@,
            r.steps@ == Map::<Seq<char>, StepCheckpoint>::empty(),
            r.metadata@ == Map::<Seq<char>, String>::empty(),
            r.version == 0,
            r.checkpoint_time.nanos < 2_000_000_000,
    {
        Checkpoint {
            workflow_id: workflow_id.to_string(),
            checkpoint_time: utc_now(),
            steps: OrderedMap::new(),
            metadata: OrderedMap::new(),
            version: 0,
        }
    }

    /// Records the state of a step, replacing an earlier one.
    pub fn with_step(self, step_id: &str, step: StepCheckpoint) -> (r: Self)
        ensures
            r.steps@ == self.steps@.insert(step_id@, step),
            r.workflow_id == self.workflow_id,
            r.checkpoint_time == self.checkpoint_time,
            r.metadata == self.metadata,
            r.version == self.version,
    {
        let mut c = self;
        c.steps.insert(step_id.to_string(), step);
        c
    }

    /// Sets a metadata entry.
    pub fn with_metadata(self, key: &str, value: &str) -> (r: Self)
        ensures
            inserted_text(r.metadata, self.metadata, key@, value@),
            r == (Checkpoint { metadata: r.metadata, ..self }),
    {
        let mut c = self;
        c.metadata.insert_text(key, value);
        c
    }

    /// Moves to the next version.
    pub fn increment_version(&mut self)
        requires
            old(self).version < u32::MAX,
        ensures
            *final(self) == (Checkpoint { version: (old(self).version + 1) as u32, ..*old(self) }),
    {
        self.version = self.version + 1;
    }

    /// Marks the checkpoint as taken now.
    pub fn update_checkpoint_time(&mut self)
        ensures
            final(self).workflow_id == old(self).workflow_id,
            final(self).steps == old(self).steps,
            final(self).metadata == old(self).metadata,
            final(self).version == old(self).version,
            final(self).checkpoint_time.nanos < 2_000_000_000,
    {
        self.checkpoint_time = utc_now();
    }
}

/// A summary of a checkpoint.
#[derive(Debug, Clone, PartialEq, Eq)]
pub struct CheckpointMetadata {
    pub workflow_id: String,
    pub checkpoint_time: Timestamp,
    pub version: u32,
    pub step_count: usize,
}

impl CheckpointMetadata {
    /// The summary of `checkpoint`: its workflow, time, version and number
    /// of steps.
    pub fn from_checkpoint(checkpoint: &Checkpoint) -> (r: Self)
        ensures
            r.workflow_id@ == checkpoint.workflow_id@,
            r.checkpoint_time == checkpoint.checkpoint_time,
            r.version == checkpoint.version,
            r.step_count == checkpoint.steps@.len(),
    {
        CheckpointMetadata {
            workflow_id: checkpoint.workflow_id.clone(),
            checkpoint_time: checkpoint.checkpoint_time,
            version: checkpoint.version,
            step_count: checkpoint.steps.len(),
        }
    }
}

} // verus!

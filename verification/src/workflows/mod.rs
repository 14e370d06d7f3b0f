pub mod dependency;
pub mod execution;
pub mod workflow;
pub mod builder;
pub mod checkpointing;

pub use builder::WorkflowBuilder;
pub use checkpointing::config::{
    CheckpointConfig, CheckpointFrequency, CheckpointStorageConfig, RetentionPolicy,
};
pub use checkpointing::models::{CheckpointMetadata, StepCheckpoint};
pub use checkpointing::storage::StorageError;
pub use dependency::{
    ConditionBuilder, ConditionFn, DependencyChain, DependencyGraph, DependencyInfo, StepId,
};
pub use workflow::{ExecutionMode, LegacyCheckpointConfig, Workflow, WorkflowMetadata};

pub mod workflow_execution;
pub mod scheduler;
pub mod executor;
pub mod orchestrator;

pub use executor::StepExecutor;
pub use orchestrator::WorkflowOrchestrator;
pub use scheduler::{FailureStrategy, Scheduler};
pub use workflow_execution::{Checkpoint, WorkflowExecution, WorkflowStatus};

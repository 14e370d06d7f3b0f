//! Workflow steps: their results, traits and kinds.
pub mod result;
pub mod traits;
pub mod kubernetes;
pub mod exec;
pub mod observers;

pub use exec::{PythonStep, PythonStepBuilder};
pub use kubernetes::{
    IngressConfig, JobNameType, KubeJobStep, KubeJobStepBuilder, KubePodStep, KubePodStepBuilder,
    RestartPolicy, ServiceConfig,
};
pub use result::{StepResult, StepStatus};
pub use traits::{
    ConditionalStep, HasResourceLimits, KubeWorkFlowStep, LogStreamOptions, ResourceLimitedStep,
    ResourceLimits, StepWithOutputs, WorkFlowStep,
};

//! Steps that run as Kubernetes jobs and pods, and their settings.
pub mod types;
pub mod sidecar;
pub mod job;
pub mod pod;
pub mod exposure;

pub use job::{KubeJobStep, KubeJobStepBuilder};
pub use pod::{KubePodStep, KubePodStepBuilder};
pub use types::{IngressConfig, JobNameType, RestartPolicy, ServiceConfig};

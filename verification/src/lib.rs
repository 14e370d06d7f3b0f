//! A Kubernetes workflow orchestrator: dependency graphs, scheduling
//! decisions, and builders for the Kubernetes objects that workflows use.
pub mod text;
pub mod collections;
pub mod entities;
pub mod ids;
pub mod resources;
pub mod networking;
pub mod security;
pub mod workflows;
pub mod steps;
pub mod client;
pub mod migration;

pub use client::{MaestroClient, MaestroClientBuilder};
pub use migration::MaestroK8sClient;
pub use networking::{
    headless_service_dns_pattern, pod_dns_name, service_dns_name, IngressBuilder, IngressPath,
    PathType, PluginInfo, PluginRegistry, ServiceBuilder, ServicePort, ServiceType, SidecarPlugin,
    TLSConfig,
};
pub use steps::{StepResult, StepStatus};
pub use workflows::{
    ExecutionMode, LegacyCheckpointConfig, Workflow, WorkflowBuilder, WorkflowMetadata,
};

//! Builders for Services and Ingresses, DNS names for service discovery,
//! and sidecar plugins.
pub mod dns;
pub mod ingress;
pub mod service;
pub mod plugins;

pub use dns::{headless_service_dns_pattern, pod_dns_name, service_dns_name};
pub use ingress::{IngressBuilder, IngressPath, PathType, TLSConfig};
pub use plugins::registry::{PluginInfo, PluginRegistry};
pub use plugins::SidecarPlugin;
pub use service::{ServiceBuilder, ServicePort, ServiceType};

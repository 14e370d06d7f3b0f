//! Services and Ingresses.
use vstd::prelude::*;
use crate::collections::OrderedMap;
use crate::resources::meta::ObjectMeta;

verus! {

/// A port of a Service.
#[derive(Debug, Clone, PartialEq)]
pub struct K8sServicePort {
    pub name: Option<String>,
    pub port: i32,
    pub target_port: Option<i32>,
    pub protocol: Option<String>,
}

/// The desired state of a Service.
#[derive(Debug, Clone, PartialEq)]
pub struct ServiceSpec {
    pub type_: Option<String>,
    pub cluster_ip: Option<String>,
    pub ports: Option<Vec<K8sServicePort>>,
    pub selector: Option<OrderedMap<String>>,
    pub session_affinity: Option<String>,
    pub external_traffic_policy: Option<String>,
}

/// A Service.
#[derive(Debug, Clone, PartialEq)]
pub struct Service {
    pub metadata: ObjectMeta,
    pub spec: Option<ServiceSpec>,
}

/// The port of a Service that an Ingress routes to.
#[derive(Debug, Clone, PartialEq)]
pub struct ServiceBackendPort {
    pub name: Option<String>,
    pub number: Option<i32>,
}

/// The Service that an Ingress path routes to.
#[derive(Debug, Clone, PartialEq)]
pub struct IngressServiceBackend {
    pub name: String,
    pub port: Option<ServiceBackendPort>,
}

/// Where an Ingress path routes to.
#[derive(Debug, Clone, PartialEq)]
pub struct IngressBackend {
    pub service: Option<IngressServiceBackend>,
}

/// One routed path of an Ingress rule.
#[derive(Debug, Clone, PartialEq)]
pub struct HTTPIngressPath {
    pub path: Option<String>,
    pub path_type: String,
    pub backend: IngressBackend,
}

/// The HTTP paths of an Ingress rule.
#[derive(Debug, Clone, PartialEq)]
pub struct HTTPIngressRuleValue {
    pub paths: Vec<HTTPIngressPath>,
}

/// A host and its paths.
#[derive(Debug, Clone, PartialEq)]
pub struct IngressRule {
    pub host: Option<String>,
    pub http: Option<HTTPIngressRuleValue>,
}

/// The TLS setting of an Ingress.
#[derive(Debug, Clone, PartialEq)]
pub struct IngressTLS {
    pub hosts: Option<Vec<String>>,
    pub secret_name: Option<String>,
}

/// The desired state of an Ingress.
#[derive(Debug, Clone, PartialEq)]
pub struct IngressSpec {
    pub ingress_class_name: Option<String>,
    pub rules: Option<Vec<IngressRule>>,
    pub tls: Option<Vec<IngressTLS>>,
}

/// An Ingress.
#[derive(Debug, Clone, PartialEq)]
pub struct Ingress {
    pub metadata: ObjectMeta,
    pub spec: Option<IngressSpec>,
}

} // verus!

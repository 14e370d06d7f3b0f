//! Containers and what they run with.
use vstd::prelude::*;
use crate::collections::OrderedMap;
use crate::resources::meta::ObjectMeta;
use crate::resources::policy::LabelSelector;

verus! {

/// An environment variable of a container.
#[derive(Debug, Clone, PartialEq)]
pub struct EnvVar {
    pub name: String,
    pub value: Option<String>,
}

/// A port that a container exposes.
#[derive(Debug, Clone, PartialEq)]
pub struct K8sContainerPort {
    pub container_port: i32,
    pub host_port: Option<i32>,
    pub protocol: Option<String>,
    pub name: Option<String>,
}

/// The compute resources of a container, by resource name
/// (`cpu`, `memory`, ...) to quantity.
#[derive(Debug, Clone, PartialEq)]
pub struct ResourceRequirements {
    pub limits: Option<OrderedMap<String>>,
    pub requests: Option<OrderedMap<String>>,
}

/// Where a volume is mounted in a container.
#[derive(Debug, Clone, PartialEq)]
pub struct VolumeMount {
    pub name: String,
    pub mount_path: String,
}

/// A container of a pod.
#[derive(Debug, Clone, PartialEq)]
pub struct Container {
    pub name: String,
    pub image: Option<String>,
    pub command: Option<Vec<String>>,
    pub env: Option<Vec<EnvVar>>,
    pub ports: Option<Vec<K8sContainerPort>>,
    pub resources: Option<ResourceRequirements>,
    pub volume_mounts: Option<Vec<VolumeMount>>,
    pub liveness_probe: Option<Probe>,
    pub readiness_probe: Option<Probe>,
}

/// An HTTP request that probes a container: a path on a port.
#[derive(Debug, Clone, PartialEq)]
pub struct HTTPGetAction {
    pub path: Option<String>,
    pub port: i32,
}

/// How a container is checked: the request, the delay before the first
/// check, and the period between checks, in seconds.
#[derive(Debug, Clone, PartialEq)]
pub struct Probe {
    pub http_get: Option<HTTPGetAction>,
    pub initial_delay_seconds: Option<i32>,
    pub period_seconds: Option<i32>,
}

/// A volume that holds the entries of a config map.
#[derive(Debug, Clone, PartialEq)]
pub struct ConfigMapVolumeSource {
    pub name: String,
}

/// A volume backed by a persistent volume claim.
#[derive(Debug, Clone, PartialEq)]
pub struct PersistentVolumeClaimVolumeSource {
    pub claim_name: String,
}

/// A volume of a pod.
#[derive(Debug, Clone, PartialEq)]
pub struct Volume {
    pub name: String,
    pub config_map: Option<ConfigMapVolumeSource>,
    pub persistent_volume_claim: Option<PersistentVolumeClaimVolumeSource>,
}

/// The desired state of a pod.
#[derive(Debug, Clone, PartialEq)]
pub struct PodSpec {
    pub containers: Vec<Container>,
    pub volumes: Option<Vec<Volume>>,
    pub restart_policy: Option<String>,
}

/// The observed state of a pod.
#[derive(Debug, Clone, PartialEq)]
pub struct PodStatus {
    pub phase: Option<String>,
}

/// A pod.
#[derive(Debug, Clone, PartialEq)]
pub struct Pod {
    pub metadata: ObjectMeta,
    pub spec: Option<PodSpec>,
    pub status: Option<PodStatus>,
}

/// The labels and the spec of the pods a controller creates.
#[derive(Debug, Clone, PartialEq)]
pub struct PodTemplateSpec {
    pub metadata: Option<ObjectMeta>,
    pub spec: Option<PodSpec>,
}

/// What a persistent volume claim asks for: access modes, resources and a
/// storage class.
#[derive(Debug, Clone, PartialEq)]
pub struct PersistentVolumeClaimSpec {
    pub access_modes: Option<Vec<String>>,
    pub resources: Option<ResourceRequirements>,
    pub storage_class_name: Option<String>,
}

/// A persistent volume claim.
#[derive(Debug, Clone, PartialEq)]
pub struct PersistentVolumeClaim {
    pub metadata: ObjectMeta,
    pub spec: Option<PersistentVolumeClaimSpec>,
}

/// The desired state of a StatefulSet.
#[derive(Debug, Clone, PartialEq)]
pub struct StatefulSetSpec {
    pub service_name: String,
    pub replicas: Option<i32>,
    pub selector: LabelSelector,
    pub template: PodTemplateSpec,
    pub volume_claim_templates: Option<Vec<PersistentVolumeClaim>>,
    pub pod_management_policy: Option<String>,
}

/// A StatefulSet.
#[derive(Debug, Clone, PartialEq)]
pub struct StatefulSet {
    pub metadata: ObjectMeta,
    pub spec: Option<StatefulSetSpec>,
}

/// A config map: named texts.
#[derive(Debug, Clone, PartialEq)]
pub struct ConfigMap {
    pub metadata: ObjectMeta,
    pub data: Option<OrderedMap<String>>,
}

} // verus!

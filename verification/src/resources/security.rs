//! Security contexts of pods and containers.
use vstd::prelude::*;

verus! {

/// The seccomp profile of a pod or container.
#[derive(Debug, Clone, PartialEq)]
pub struct SeccompProfile {
    pub type_: String,
    pub localhost_profile: Option<String>,
}

/// Linux capabilities added to and dropped from a container.
#[derive(Debug, Clone, PartialEq)]
pub struct Capabilities {
    pub add: Option<Vec<String>>,
    pub drop: Option<Vec<String>>,
}

/// The security settings of a pod.
#[derive(Debug, Clone, PartialEq)]
pub struct PodSecurityContext {
    pub fs_group: Option<i64>,
    pub fs_group_change_policy: Option<String>,
    pub supplemental_groups: Option<Vec<i64>>,
    pub run_as_user: Option<i64>,
    pub run_as_group: Option<i64>,
    pub run_as_non_root: Option<bool>,
    pub seccomp_profile: Option<SeccompProfile>,
}

/// The security settings of a container.
#[derive(Debug, Clone, PartialEq)]
pub struct SecurityContext {
    pub run_as_user: Option<i64>,
    pub run_as_group: Option<i64>,
    pub run_as_non_root: Option<bool>,
    pub read_only_root_filesystem: Option<bool>,
    pub allow_privilege_escalation: Option<bool>,
    pub privileged: Option<bool>,
    pub capabilities: Option<Capabilities>,
    pub seccomp_profile: Option<SeccompProfile>,
}

} // verus!

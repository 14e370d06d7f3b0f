//! Service accounts, roles and role bindings.
use vstd::prelude::*;
use crate::resources::meta::ObjectMeta;

verus! {

/// A rule of a role: which verbs it allows on which resources.
#[derive(Debug, Clone, PartialEq)]
pub struct K8sPolicyRule {
    pub api_groups: Option<Vec<String>>,
    pub resources: Option<Vec<String>>,
    pub verbs: Vec<String>,
    pub resource_names: Option<Vec<String>>,
}

/// A service account.
#[derive(Debug, Clone, PartialEq)]
pub struct ServiceAccount {
    pub metadata: ObjectMeta,
}

/// A namespaced role.
#[derive(Debug, Clone, PartialEq)]
pub struct Role {
    pub metadata: ObjectMeta,
    pub rules: Option<Vec<K8sPolicyRule>>,
}

/// A cluster-wide role.
#[derive(Debug, Clone, PartialEq)]
pub struct ClusterRole {
    pub metadata: ObjectMeta,
    pub rules: Option<Vec<K8sPolicyRule>>,
}

/// Who a binding grants a role to.
#[derive(Debug, Clone, PartialEq)]
pub struct Subject {
    pub kind: String,
    pub name: String,
    pub namespace: Option<String>,
    pub api_group: Option<String>,
}

/// The role that a binding grants.
#[derive(Debug, Clone, PartialEq)]
pub struct RoleRef {
    pub kind: String,
    pub name: String,
    pub api_group: String,
}

/// A namespaced role binding.
#[derive(Debug, Clone, PartialEq)]
pub struct RoleBinding {
    pub metadata: ObjectMeta,
    pub subjects: Option<Vec<Subject>>,
    pub role_ref: RoleRef,
}

/// A cluster-wide role binding.
#[derive(Debug, Clone, PartialEq)]
pub struct ClusterRoleBinding {
    pub metadata: ObjectMeta,
    pub subjects: Option<Vec<Subject>>,
    pub role_ref: RoleRef,
}

} // verus!

//! Security settings: security contexts, role-based access control, limit
//! ranges, resource quotas and network policies.
pub mod security_context;
pub mod rbac;
pub mod limits;
pub mod resource_quota;
pub mod network_policy;

pub use limits::{LimitRangeBuilder, LimitRangeItemBuilder, LimitRangeType};
pub use network_policy::{NetworkPolicyBuilder, NetworkPolicyRule, PolicyType};
pub use rbac::{
    ClusterRoleBindingBuilder, ClusterRoleBuilder, PolicyRule, RoleBindingBuilder, RoleBuilder,
    ServiceAccountBuilder,
};
pub use resource_quota::{QuotaScope, ResourceQuotaBuilder};
pub use security_context::{
    ContainerSecurityContextBuilder, PodSecurityContextBuilder, SecurityContextConfig,
};

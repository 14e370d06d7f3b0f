//! Limit ranges, resource quotas and network policies.
use vstd::prelude::*;
use crate::collections::OrderedMap;
use crate::resources::meta::ObjectMeta;

verus! {

/// The bounds that a limit range sets for one kind of object; each map
/// goes from a resource name to a quantity.
#[derive(Debug, Clone, PartialEq)]
pub struct LimitRangeItem {
    pub type_: String,
    pub max: Option<OrderedMap<String>>,
    pub min: Option<OrderedMap<String>>,
    pub default: Option<OrderedMap<String>>,
    pub default_request: Option<OrderedMap<String>>,
    pub max_limit_request_ratio: Option<OrderedMap<String>>,
}

/// The items of a limit range.
#[derive(Debug, Clone, PartialEq)]
pub struct LimitRangeSpec {
    pub limits: Vec<LimitRangeItem>,
}

/// A limit range object.
#[derive(Debug, Clone, PartialEq)]
pub struct LimitRange {
    pub metadata: ObjectMeta,
    pub spec: Option<LimitRangeSpec>,
}

/// The hard limits and scopes of a resource quota.
#[derive(Debug, Clone, PartialEq)]
pub struct ResourceQuotaSpec {
    pub hard: Option<OrderedMap<String>>,
    pub scopes: Option<Vec<String>>,
}

/// A resource quota object.
#[derive(Debug, Clone, PartialEq)]
pub struct ResourceQuota {
    pub metadata: ObjectMeta,
    pub spec: Option<ResourceQuotaSpec>,
}

/// One requirement of a label selector: `key` stands in relation
/// `operator` to `values`.
#[derive(Debug, Clone, PartialEq)]
pub struct LabelSelectorRequirement {
    pub key: String,
    pub operator: String,
    pub values: Option<Vec<String>>,
}

/// A selector of objects by their labels.
#[derive(Debug, Clone, PartialEq)]
pub struct LabelSelector {
    pub match_labels: Option<OrderedMap<String>>,
    pub match_expressions: Option<Vec<LabelSelectorRequirement>>,
}

impl LabelSelector {
    /// The selector that selects everything.
    pub fn everything() -> (r: Self)
        ensures
            r.match_labels is None,
            r.match_expressions is None,
    {
        LabelSelector { match_labels: None, match_expressions: None }
    }
}

/// A port given by number or by name.
#[derive(Debug, Clone, PartialEq)]
pub enum IntOrString {
    Int(i32),
    String(String),
}

/// A port, or range of ports, that a network policy rule admits.
#[derive(Debug, Clone, PartialEq)]
pub struct NetworkPolicyPort {
    pub port: Option<IntOrString>,
    pub protocol: Option<String>,
    pub end_port: Option<i32>,
}

/// The pods that a network policy rule admits traffic from or to.
#[derive(Debug, Clone, PartialEq)]
pub struct NetworkPolicyPeer {
    pub ip_block: Option<String>,
    pub namespace_selector: Option<LabelSelector>,
    pub pod_selector: Option<LabelSelector>,
}

/// Traffic that a network policy admits into the selected pods.
#[derive(Debug, Clone, PartialEq)]
pub struct NetworkPolicyIngressRule {
    pub from: Option<Vec<NetworkPolicyPeer>>,
    pub ports: Option<Vec<NetworkPolicyPort>>,
}

/// Traffic that a network policy admits out of the selected pods.
#[derive(Debug, Clone, PartialEq)]
pub struct NetworkPolicyEgressRule {
    pub to: Option<Vec<NetworkPolicyPeer>>,
    pub ports: Option<Vec<NetworkPolicyPort>>,
}

/// The pods a network policy applies to, and what it admits.
#[derive(Debug, Clone, PartialEq)]
pub struct NetworkPolicySpec {
    pub pod_selector: LabelSelector,
    pub policy_types: Option<Vec<String>>,
    pub ingress: Option<Vec<NetworkPolicyIngressRule>>,
    pub egress: Option<Vec<NetworkPolicyEgressRule>>,
}

/// A network policy object.
#[derive(Debug, Clone, PartialEq)]
pub struct NetworkPolicy {
    pub metadata: ObjectMeta,
    pub spec: Option<NetworkPolicySpec>,
}

} // verus!

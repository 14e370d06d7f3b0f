//! A builder for network policies, with presets that deny everything, allow
//! everything, or allow traffic within one namespace.
use vstd::prelude::*;
use crate::collections::{inserted_text, views, OrderedMap};
use crate::resources::meta::BuildError;
use crate::resources::policy::{
    LabelSelector, NetworkPolicy, NetworkPolicyEgressRule, NetworkPolicyIngressRule,
    NetworkPolicyPeer, NetworkPolicyPort, NetworkPolicySpec,
};
use crate::security::rbac::{build_meta, meta_built_from};

verus! {

/// The directions of traffic that a policy governs.
#[derive(Debug, Clone, Copy, PartialEq, Eq)]
pub enum PolicyType {
    Ingress,
    Egress,
    Both,
}

impl PolicyType {
    /// The name written into the policy.
    pub open spec fn policy_name(self) -> Seq<char> {
        match self {
            PolicyType::Ingress => "Ingress"@,
            PolicyType::Egress => "Egress"@,
            PolicyType::Both => "Both"@,
        }
    }

    /// The name written into the policy.
    pub fn to_k8s_string(self) -> (r: String)
        ensures
            r@ == self.policy_name(),
    {
        match self {
            PolicyType::Ingress => String::from_str("Ingress"),
            PolicyType::Egress => String::from_str("Egress"),
            PolicyType::Both => String::from_str("Both"),
        }
    }
}

/// The names of the policy types, in order.
pub open spec fn policy_names(s: Seq<PolicyType>) -> Seq<Seq<char>> {
    s.map_values(|t: PolicyType| t.policy_name())
}

/// The names of the policy types, in order.
fn policy_strings(types: &Vec<PolicyType>) -> (r: Vec<String>)
    ensures
        views(r@) == policy_names(types@),
{
    let mut out: Vec<String> = Vec::new();
    let mut i: usize = 0;
    while i < types.len()
        invariant
            i <= types@.len(),
            views(out@) == policy_names(types@).take(i as int),
        decreases types@.len() - i,
    {
        let ghost before = views(out@);
        let name = types[i].to_k8s_string();
        out.push(name);
        assert(views(out@) =~= before.push(name@));
        assert(policy_names(types@).take(i + 1) =~= policy_names(types@).take(i as int).push(
            types@[i as int].policy_name(),
        ));
        i = i + 1;
    }
    assert(policy_names(types@).take(types@.len() as int) =~= policy_names(types@));
    out
}

/// Where traffic may come from or go to, and on which port.
#[derive(Debug, Clone)]
pub struct NetworkPolicyRule {
    pub namespace_selector: Option<LabelSelector>,
    pub pod_selector: Option<LabelSelector>,
    pub port: Option<NetworkPolicyPort>,
}

impl NetworkPolicyRule {
    /// A rule with no selector and no port.
    pub fn new() -> (r: Self)
        ensures
            r.namespace_selector is None,
            r.pod_selector is None,
            r.port is None,
    {
        NetworkPolicyRule { namespace_selector: None, pod_selector: None, port: None }
    }

    pub fn with_namespace_selector(self, selector: LabelSelector) -> (r: Self)
        ensures
            r == (NetworkPolicyRule { namespace_selector: Some(selector), ..self }),
    {
        NetworkPolicyRule { namespace_selector: Some(selector), ..self }
    }

    pub fn with_pod_selector(self, selector: LabelSelector) -> (r: Self)
        ensures
            r == (NetworkPolicyRule { pod_selector: Some(selector), ..self }),
    {
        NetworkPolicyRule { pod_selector: Some(selector), ..self }
    }

    pub fn with_port(self, port: NetworkPolicyPort) -> (r: Self)
        ensures
            r == (NetworkPolicyRule { port: Some(port), ..self }),
    {
        NetworkPolicyRule { port: Some(port), ..self }
    }
}

impl Default for NetworkPolicyRule {
    fn default() -> (r: Self)
        ensures
            r.namespace_selector is None,
            r.pod_selector is None,
            r.port is None,
    {
        NetworkPolicyRule::new()
    }
}

/// The peers of a rule: one peer with its selectors when it has any
/// selector, none otherwise.
pub open spec fn peers_of(peers: Option<Vec<NetworkPolicyPeer>>, rule: NetworkPolicyRule) -> bool {
    if rule.namespace_selector is Some || rule.pod_selector is Some {
        peers matches Some(v) && v@ == seq![
            NetworkPolicyPeer {
                ip_block: None,
                namespace_selector: rule.namespace_selector,
                pod_selector: rule.pod_selector,
            },
        ]
    } else {
        peers is None
    }
}

/// The ports of a rule: its port alone, or none.
pub open spec fn ports_of(ports: Option<Vec<NetworkPolicyPort>>, rule: NetworkPolicyRule) -> bool {
    match rule.port {
        Some(p) => ports matches Some(v) && v@ == seq![p],
        None => ports is None,
    }
}

/// The peers and ports of a rule.
fn split_rule(rule: NetworkPolicyRule) -> (r: (Option<Vec<NetworkPolicyPeer>>, Option<Vec<NetworkPolicyPort>>))
    ensures
        peers_of(r.0, rule),
        ports_of(r.1, rule),
{
    let NetworkPolicyRule { namespace_selector, pod_selector, port } = rule;
    let peers = if namespace_selector.is_some() || pod_selector.is_some() {
        let mut v: Vec<NetworkPolicyPeer> = Vec::new();
        v.push(NetworkPolicyPeer { ip_block: None, namespace_selector, pod_selector });
        Some(v)
    } else {
        None
    };
    let ports = match port {
        Some(p) => {
            let mut v: Vec<NetworkPolicyPort> = Vec::new();
            v.push(p);
            Some(v)
        },
        None => None,
    };
    (peers, ports)
}

/// The label under which Kubernetes records the name of a namespace.
pub open spec fn namespace_name_label() -> Seq<char> {
    "kubernetes.io/metadata.name"@
}

/// `s` selects by the namespace-name label reading `namespace`, and by
/// nothing else.
pub open spec fn selects_namespace(s: LabelSelector, namespace: Seq<char>) -> bool {
    &&& s.match_labels matches Some(m) && m@.dom() == set![namespace_name_label()]
        && m@[namespace_name_label()]@ == namespace
    &&& s.match_expressions is None
}

/// A rule whose pod selector picks out the namespace `namespace`.
fn namespace_rule(namespace: &str) -> (r: NetworkPolicyRule)
    ensures
        r.namespace_selector is None,
        r.port is None,
        r.pod_selector matches Some(s) && selects_namespace(s, namespace@),
{
    let mut labels: OrderedMap<String> = OrderedMap::new();
    labels.insert_text("kubernetes.io/metadata.name", namespace);
    assert(labels@.dom() =~= set![namespace_name_label()]);
    NetworkPolicyRule::new().with_pod_selector(
        LabelSelector { match_labels: Some(labels), match_expressions: None },
    )
}

/// The peer of a rule that lets pods of the namespace `namespace` through.
pub open spec fn namespace_peers(peers: Option<Vec<NetworkPolicyPeer>>, namespace: Seq<char>) -> bool {
    match peers {
        None => false,
        Some(v) => {
            &&& v@.len() == 1
            &&& v@[0].ip_block is None
            &&& v@[0].namespace_selector is None
            &&& match v@[0].pod_selector {
                Some(s) => selects_namespace(s, namespace),
                None => false,
            }
        },
    }
}

/// The settings of a network policy under construction.
#[derive(Debug)]
pub struct NetworkPolicyBuilder {
    pub name: String,
    pub namespace: String,
    pub pod_selector: Option<LabelSelector>,
    pub ingress_rules: Vec<NetworkPolicyIngressRule>,
    pub egress_rules: Vec<NetworkPolicyEgressRule>,
    pub policy_types: Vec<PolicyType>,
    pub labels: OrderedMap<String>,
    pub annotations: OrderedMap<String>,
}

/// `p` is the policy that the settings `b` describe.
pub open spec fn policy_built_from(p: NetworkPolicy, b: NetworkPolicyBuilder) -> bool {
    &&& meta_built_from(p.metadata, b.name, Some(b.namespace), b.labels, b.annotations)
    &&& match p.spec {
        None => false,
        Some(spec) => {
            &&& spec.pod_selector == match b.pod_selector {
                Some(s) => s,
                None => LabelSelector { match_labels: None, match_expressions: None },
            }
            &&& match spec.policy_types {
                Some(t) => views(t@) == policy_names(b.policy_types@),
                None => false,
            }
            &&& if b.ingress_rules@.len() == 0 {
                spec.ingress is None
            } else {
                spec.ingress == Some(b.ingress_rules)
            }
            &&& if b.egress_rules@.len() == 0 {
                spec.egress is None
            } else {
                spec.egress == Some(b.egress_rules)
            }
        },
    }
}

impl NetworkPolicyBuilder {
    /// A policy on every pod, governing both directions, with no rule.
    pub fn new(name: &str, namespace: &str) -> (r: Self)
        ensures
            r.name@ == name@,
            r.namespace@ == namespace@,
            r.pod_selector is None,
            r.ingress_rules@.len() == 0,
            r.egress_rules@.len() == 0,
            r.policy_types@ == seq![PolicyType::Both],
            r.labels@.len() == 0,
            r.annotations@.len() == 0,
    {
        let mut types: Vec<PolicyType> = Vec::new();
        types.push(PolicyType::Both);
        NetworkPolicyBuilder {
            name: name.to_string(),
            namespace: namespace.to_string(),
            pod_selector: None,
            ingress_rules: Vec::new(),
            egress_rules: Vec::new(),
            policy_types: types,
            labels: OrderedMap::new(),
            annotations: OrderedMap::new(),
        }
    }

    /// Chooses the pods the policy applies to.
    pub fn with_pod_selector(self, selector: LabelSelector) -> (r: Self)
        ensures
            r == (NetworkPolicyBuilder { pod_selector: Some(selector), ..self }),
    {
        NetworkPolicyBuilder { pod_selector: Some(selector), ..self }
    }

    /// Appends an ingress rule admitting traffic from the rule's peers on its
    /// port.
    pub fn with_ingress_rule(self, rule: NetworkPolicyRule) -> (r: Self)
        ensures
            r.ingress_rules@.len() == self.ingress_rules@.len() + 1,
            r.ingress_rules@.drop_last() == self.ingress_rules@,
            peers_of(r.ingress_rules@.last().from, rule),
            ports_of(r.ingress_rules@.last().ports, rule),
            r == (NetworkPolicyBuilder { ingress_rules: r.ingress_rules, ..self }),
    {
        let (from, ports) = split_rule(rule);
        let mut s = self;
        s.ingress_rules.push(NetworkPolicyIngressRule { from, ports });
        assert(s.ingress_rules@.drop_last() =~= self.ingress_rules@);
        s
    }

    /// Appends an egress rule admitting traffic to the rule's peers on its
    /// port.
    pub fn with_egress_rule(self, rule: NetworkPolicyRule) -> (r: Self)
        ensures
            r.egress_rules@.len() == self.egress_rules@.len() + 1,
            r.egress_rules@.drop_last() == self.egress_rules@,
            peers_of(r.egress_rules@.last().to, rule),
            ports_of(r.egress_rules@.last().ports, rule),
            r == (NetworkPolicyBuilder { egress_rules: r.egress_rules, ..self }),
    {
        let (to, ports) = split_rule(rule);
        let mut s = self;
        s.egress_rules.push(NetworkPolicyEgressRule { to, ports });
        assert(s.egress_rules@.drop_last() =~= self.egress_rules@);
        s
    }

    /// Replaces the policy types.
    pub fn with_policy_types(self, types: Vec<PolicyType>) -> (r: Self)
        ensures
            r == (NetworkPolicyBuilder { policy_types: types, ..self }),
    {
        NetworkPolicyBuilder { policy_types: types, ..self }
    }

    pub fn with_label(self, key: &str, value: &str) -> (r: Self)
        ensures
            inserted_text(r.labels, self.labels, key@, value@),
            r == (NetworkPolicyBuilder { labels: r.labels, ..self }),
    {
        let mut s = self;
        s.labels.insert_text(key, value);
        s
    }

    pub fn with_annotation(self, key: &str, value: &str) -> (r: Self)
        ensures
            inserted_text(r.annotations, self.annotations, key@, value@),
            r == (NetworkPolicyBuilder { annotations: r.annotations, ..self }),
    {
        let mut s = self;
        s.annotations.insert_text(key, value);
        s
    }

    /// The policy; it always builds. With no pod selector it applies to
    /// every pod; empty rule lists are written as none.
    pub fn build(self) -> (r: Result<NetworkPolicy, BuildError>)
        ensures
            r matches Ok(p) && policy_built_from(p, self),
    {
        let types = policy_strings(&self.policy_types);
        let NetworkPolicyBuilder {
            name,
            namespace,
            pod_selector,
            ingress_rules,
            egress_rules,
            policy_types: _,
            labels,
            annotations,
        } = self;
        let selector = match pod_selector {
            Some(s) => s,
            None => LabelSelector::everything(),
        };
        let ingress = if ingress_rules.len() == 0 {
            None
        } else {
            Some(ingress_rules)
        };
        let egress = if egress_rules.len() == 0 {
            None
        } else {
            Some(egress_rules)
        };
        Ok(
            NetworkPolicy {
                metadata: build_meta(name, Some(namespace), labels, annotations),
                spec: Some(
                    NetworkPolicySpec {
                        pod_selector: selector,
                        policy_types: Some(types),
                        ingress,
                        egress,
                    },
                ),
            },
        )
    }

    /// A policy that selects every pod and admits nothing.
    pub fn deny_all(name: &str, namespace: &str) -> (r: Result<Self, BuildError>)
        ensures
            r matches Ok(b) && b.name@ == name@ && b.namespace@ == namespace@ && b.pod_selector
                == Some(LabelSelector { match_labels: None, match_expressions: None })
                && b.ingress_rules@.len() == 0 && b.egress_rules@.len() == 0 && b.policy_types@
                == seq![PolicyType::Both] && b.labels@.len() == 0 && b.annotations@.len() == 0,
    {
        Ok(Self::new(name, namespace).with_pod_selector(LabelSelector::everything()))
    }

    /// A policy with no selector and no rule.
    pub fn allow_all(name: &str, namespace: &str) -> (r: Result<Self, BuildError>)
        ensures
            r matches Ok(b) && b.name@ == name@ && b.namespace@ == namespace@
                && b.pod_selector is None && b.ingress_rules@.len() == 0 && b.egress_rules@.len()
                == 0 && b.policy_types@ == seq![PolicyType::Both] && b.labels@.len() == 0
                && b.annotations@.len() == 0,
    {
        Ok(Self::new(name, namespace))
    }

    /// A policy on every pod that admits traffic from and to the pods of
    /// its own namespace, on any port.
    pub fn allow_within_namespace(name: &str, namespace: &str) -> (r: Result<Self, BuildError>)
        ensures
            r matches Ok(b) && b.name@ == name@ && b.namespace@ == namespace@ && b.pod_selector
                == Some(LabelSelector { match_labels: None, match_expressions: None })
                && b.ingress_rules@.len() == 1 && namespace_peers(b.ingress_rules@[0].from, namespace@)
                && b.ingress_rules@[0].ports is None && b.egress_rules@.len() == 1 && namespace_peers(
                b.egress_rules@[0].to,
                namespace@,
            ) && b.egress_rules@[0].ports is None && b.policy_types@ == seq![PolicyType::Both]
                && b.labels@.len() == 0 && b.annotations@.len() == 0,
    {
        let ingress = namespace_rule(namespace);
        let egress = namespace_rule(namespace);
        Ok(
            Self::new(name, namespace).with_pod_selector(LabelSelector::everything()).with_ingress_rule(
                ingress,
            ).with_egress_rule(egress),
        )
    }
}

} // verus!

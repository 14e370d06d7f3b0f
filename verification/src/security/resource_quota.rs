//! A builder for resource quotas, with presets for workloads of three sizes.
use vstd::prelude::*;
use crate::collections::{inserted_text, views, OrderedMap};
use crate::resources::meta::BuildError;
use crate::resources::policy::{ResourceQuota, ResourceQuotaSpec};
use crate::security::rbac::{build_meta, meta_built_from, none_if_empty_map};

verus! {

/// The pods that a quota counts.
#[derive(Debug, Clone, Copy, PartialEq, Eq)]
pub enum QuotaScope {
    Terminating,
    NotTerminating,
    BestEffort,
    NotBestEffort,
}

impl QuotaScope {
    /// The name Kubernetes gives the scope.
    pub open spec fn scope_name(self) -> Seq<char> {
        match self {
            QuotaScope::Terminating => "Terminating"@,
            QuotaScope::NotTerminating => "NotTerminating"@,
            QuotaScope::BestEffort => "BestEffort"@,
            QuotaScope::NotBestEffort => "NotBestEffort"@,
        }
    }

    /// The name Kubernetes gives the scope.
    pub fn to_k8s_string(self) -> (r: String)
        ensures
            r@ == self.scope_name(),
    {
        match self {
            QuotaScope::Terminating => String::from_str("Terminating"),
            QuotaScope::NotTerminating => String::from_str("NotTerminating"),
            QuotaScope::BestEffort => String::from_str("BestEffort"),
            QuotaScope::NotBestEffort => String::from_str("NotBestEffort"),
        }
    }
}

/// Each quota scope has its own Kubernetes name: `Terminating` (pods with an
/// active deadline), `NotTerminating` (pods without one), `BestEffort` and
/// `NotBestEffort`; no two scopes share a name, so a quota counts exactly the
/// pods of the scopes it was given.
pub proof fn lemma_scope_names()
    ensures
        QuotaScope::Terminating.scope_name() == "Terminating"@,
        QuotaScope::NotTerminating.scope_name() == "NotTerminating"@,
        QuotaScope::BestEffort.scope_name() == "BestEffort"@,
        QuotaScope::NotBestEffort.scope_name() == "NotBestEffort"@,
        forall|a: QuotaScope, b: QuotaScope| #[trigger] a.scope_name() == #[trigger] b.scope_name() ==> a == b,
{
    reveal_strlit("Terminating");
    reveal_strlit("NotTerminating");
    reveal_strlit("BestEffort");
    reveal_strlit("NotBestEffort");
    assert forall|a: QuotaScope, b: QuotaScope| #[trigger] a.scope_name() == #[trigger] b.scope_name() implies a
        == b by {
        assert(a.scope_name().len() == b.scope_name().len());
    }
}

/// The names of the scopes, in order.
pub open spec fn scope_names(s: Seq<QuotaScope>) -> Seq<Seq<char>> {
    s.map_values(|q: QuotaScope| q.scope_name())
}

/// The names of the scopes, or none when there is none.
fn scope_strings(scopes: &Vec<QuotaScope>) -> (r: Option<Vec<String>>)
    ensures
        match r {
            None => scopes@.len() == 0,
            Some(v) => scopes@.len() > 0 && views(v@) == scope_names(scopes@),
        },
{
    if scopes.len() == 0 {
        return None;
    }
    let mut out: Vec<String> = Vec::new();
    let mut i: usize = 0;
    while i < scopes.len()
        invariant
            i <= scopes@.len(),
            views(out@) == scope_names(scopes@).take(i as int),
        decreases scopes@.len() - i,
    {
        let ghost before = views(out@);
        let name = scopes[i].to_k8s_string();
        out.push(name);
        assert(views(out@) =~= before.push(name@));
        assert(scope_names(scopes@).take(i + 1) =~= scope_names(scopes@).take(i as int).push(
            scopes@[i as int].scope_name(),
        ));
        i = i + 1;
    }
    assert(scope_names(scopes@).take(scopes@.len() as int) =~= scope_names(scopes@));
    Some(out)
}

/// The hard limits of a workload preset: CPU and memory requests, CPU and
/// memory limits, a number of pods and a number of volume claims.
pub open spec fn workload_limits(
    m: Map<Seq<char>, String>,
    cpu_requests: Seq<char>,
    memory_requests: Seq<char>,
    cpu_limits: Seq<char>,
    memory_limits: Seq<char>,
    pods: Seq<char>,
    claims: Seq<char>,
) -> bool {
    &&& m.dom() == set![
        "requests.cpu"@,
        "requests.memory"@,
        "limits.cpu"@,
        "limits.memory"@,
        "count/pods"@,
        "persistentvolumeclaims"@,
    ]
    &&& m["requests.cpu"@]@ == cpu_requests
    &&& m["requests.memory"@]@ == memory_requests
    &&& m["limits.cpu"@]@ == cpu_limits
    &&& m["limits.memory"@]@ == memory_limits
    &&& m["count/pods"@]@ == pods
    &&& m["persistentvolumeclaims"@]@ == claims
}

/// The hard limits of a workload preset.
fn workload_table(
    cpu_requests: &str,
    memory_requests: &str,
    cpu_limits: &str,
    memory_limits: &str,
    pods: &str,
    claims: &str,
) -> (r: OrderedMap<String>)
    ensures
        workload_limits(r@, cpu_requests@, memory_requests@, cpu_limits@, memory_limits@, pods@, claims@),
{
    proof {
        reveal_strlit("requests.cpu");
        reveal_strlit("requests.memory");
        reveal_strlit("limits.cpu");
        reveal_strlit("limits.memory");
        reveal_strlit("count/pods");
        reveal_strlit("persistentvolumeclaims");
    }
    let ghost k1 = "requests.cpu"@;
    let ghost k2 = "requests.memory"@;
    let ghost k3 = "limits.cpu"@;
    let ghost k4 = "limits.memory"@;
    let ghost k5 = "count/pods"@;
    let ghost k6 = "persistentvolumeclaims"@;
    assert(k1.len() == 12 && k2.len() == 15 && k3.len() == 10 && k4.len() == 13 && k5.len() == 10
        && k6.len() == 22);
    assert(k3[0] != k5[0]);
    assert(k3 != k5);
    let mut m: OrderedMap<String> = OrderedMap::new();
    m.insert_text("requests.cpu", cpu_requests);
    m.insert_text("requests.memory", memory_requests);
    m.insert_text("limits.cpu", cpu_limits);
    m.insert_text("limits.memory", memory_limits);
    m.insert_text("count/pods", pods);
    let ghost before_last = m@;
    assert(before_last[k1]@ == cpu_requests@);
    assert(before_last[k5]@ == pods@);
    m.insert_text("persistentvolumeclaims", claims);
    assert(m@.dom() =~= set![k1, k2, k3, k4, k5, k6]);
    m
}

/// `q` is the quota that the settings `b` describe.
pub open spec fn quota_built_from(q: ResourceQuota, b: ResourceQuotaBuilder) -> bool {
    &&& meta_built_from(q.metadata, b.name, Some(b.namespace), b.labels, b.annotations)
    &&& match q.spec {
        None => false,
        Some(spec) => {
            &&& none_if_empty_map(spec.hard, b.hard_limits)
            &&& match spec.scopes {
                None => b.scopes@.len() == 0,
                Some(v) => b.scopes@.len() > 0 && views(v@) == scope_names(b.scopes@),
            }
        },
    }
}

/// The settings of a resource quota under construction.
#[derive(Debug)]
pub struct ResourceQuotaBuilder {
    pub name: String,
    pub namespace: String,
    pub hard_limits: OrderedMap<String>,
    pub scopes: Vec<QuotaScope>,
    pub labels: OrderedMap<String>,
    pub annotations: OrderedMap<String>,
    pub status: Option<String>,
}

impl ResourceQuotaBuilder {
    pub fn new(name: &str, namespace: &str) -> (r: Self)
        ensures
            r.name@ == name@,
            r.namespace@ == namespace@,
            r.hard_limits@.len() == 0,
            r.scopes@.len() == 0,
            r.labels@.len() == 0,
            r.annotations@.len() == 0,
            r.status is None,
    {
        ResourceQuotaBuilder {
            name: name.to_string(),
            namespace: namespace.to_string(),
            hard_limits: OrderedMap::new(),
            scopes: Vec::new(),
            labels: OrderedMap::new(),
            annotations: OrderedMap::new(),
            status: None,
        }
    }

    /// Replaces the hard limits.
    pub fn with_hard_limits(self, limits: OrderedMap<String>) -> (r: Self)
        ensures
            r == (ResourceQuotaBuilder { hard_limits: limits, ..self }),
    {
        ResourceQuotaBuilder { hard_limits: limits, ..self }
    }

    /// Sets the hard limit of one resource.
    pub fn with_hard_limit(self, key: &str, value: &str) -> (r: Self)
        ensures
            inserted_text(r.hard_limits, self.hard_limits, key@, value@),
            r == (ResourceQuotaBuilder { hard_limits: r.hard_limits, ..self }),
    {
        let mut s = self;
        s.hard_limits.insert_text(key, value);
        s
    }

    /// Replaces the scopes.
    pub fn with_scopes(self, scopes: Vec<QuotaScope>) -> (r: Self)
        ensures
            r == (ResourceQuotaBuilder { scopes, ..self }),
    {
        ResourceQuotaBuilder { scopes, ..self }
    }

    /// Appends a scope.
    pub fn with_scope(self, scope: QuotaScope) -> (r: Self)
        ensures
            r.scopes@ == self.scopes@.push(scope),
            r == (ResourceQuotaBuilder { scopes: r.scopes, ..self }),
    {
        let mut s = self;
        s.scopes.push(scope);
        s
    }

    pub fn with_label(self, key: &str, value: &str) -> (r: Self)
        ensures
            inserted_text(r.labels, self.labels, key@, value@),
            r == (ResourceQuotaBuilder { labels: r.labels, ..self }),
    {
        let mut s = self;
        s.labels.insert_text(key, value);
        s
    }

    pub fn with_annotation(self, key: &str, value: &str) -> (r: Self)
        ensures
            inserted_text(r.annotations, self.annotations, key@, value@),
            r == (ResourceQuotaBuilder { annotations: r.annotations, ..self }),
    {
        let mut s = self;
        s.annotations.insert_text(key, value);
        s
    }

    /// The quota; it always builds. Empty hard limits and empty scopes are
    /// written as none.
    pub fn build(self) -> (r: Result<ResourceQuota, BuildError>)
        ensures
            r matches Ok(q) && quota_built_from(q, self),
    {
        let scopes = scope_strings(&self.scopes);
        let ResourceQuotaBuilder { name, namespace, hard_limits, scopes: _, labels, annotations, status: _ } = self;
        let hard = if hard_limits.is_empty() {
            None
        } else {
            Some(hard_limits)
        };
        Ok(
            ResourceQuota {
                metadata: build_meta(name, Some(namespace), labels, annotations),
                spec: Some(ResourceQuotaSpec { hard, scopes }),
            },
        )
    }

    /// A quota for a small workload: 2 CPUs and 4Gi requested, 4 CPUs and
    /// 8Gi at most, 10 pods and 5 volume claims.
    pub fn small_workload(name: &str, namespace: &str) -> (r: Result<Self, BuildError>)
        ensures
            r matches Ok(b) && b.name@ == name@ && b.namespace@ == namespace@ && b.scopes@.len()
                == 0 && b.labels@.len() == 0 && b.annotations@.len() == 0 && workload_limits(
                b.hard_limits@,
                "2"@,
                "4Gi"@,
                "4"@,
                "8Gi"@,
                "10"@,
                "5"@,
            ),
    {
        let limits = workload_table("2", "4Gi", "4", "8Gi", "10", "5");
        Ok(Self::new(name, namespace).with_hard_limits(limits))
    }

    /// A quota for a medium workload: 10 CPUs and 20Gi requested, 20 CPUs
    /// and 40Gi at most, 50 pods and 20 volume claims.
    pub fn medium_workload(name: &str, namespace: &str) -> (r: Result<Self, BuildError>)
        ensures
            r matches Ok(b) && b.name@ == name@ && b.namespace@ == namespace@ && b.scopes@.len()
                == 0 && b.labels@.len() == 0 && b.annotations@.len() == 0 && workload_limits(
                b.hard_limits@,
                "10"@,
                "20Gi"@,
                "20"@,
                "40Gi"@,
                "50"@,
                "20"@,
            ),
    {
        let limits = workload_table("10", "20Gi", "20", "40Gi", "50", "20");
        Ok(Self::new(name, namespace).with_hard_limits(limits))
    }

    /// A quota for a large workload: 50 CPUs and 100Gi requested, 100 CPUs
    /// and 200Gi at most, 200 pods and 100 volume claims.
    pub fn large_workload(name: &str, namespace: &str) -> (r: Result<Self, BuildError>)
        ensures
            r matches Ok(b) && b.name@ == name@ && b.namespace@ == namespace@ && b.scopes@.len()
                == 0 && b.labels@.len() == 0 && b.annotations@.len() == 0 && workload_limits(
                b.hard_limits@,
                "50"@,
                "100Gi"@,
                "100"@,
                "200Gi"@,
                "200"@,
                "100"@,
            ),
    {
        let limits = workload_table("50", "100Gi", "100", "200Gi", "200", "100");
        Ok(Self::new(name, namespace).with_hard_limits(limits))
    }
}

} // verus!

//! Kubernetes DNS names for service discovery.
use vstd::prelude::*;

verus! {

/// The fully qualified name of a service: `<service>.<namespace>.svc.cluster.local`.
pub fn service_dns_name(service: &str, namespace: &str) -> (r: String)
    ensures
        r@ == service@ + "."@ + namespace@ + ".svc.cluster.local"@,
{
    let mut s = String::from_str(service);
    s.append(".");
    s.append(namespace);
    s.append(".svc.cluster.local");
    s
}

/// The fully qualified name of a pod: `<pod>.<namespace>.pod.cluster.local`.
pub fn pod_dns_name(pod: &str, namespace: &str) -> (r: String)
    ensures
        r@ == pod@ + "."@ + namespace@ + ".pod.cluster.local"@,
{
    let mut s = String::from_str(pod);
    s.append(".");
    s.append(namespace);
    s.append(".pod.cluster.local");
    s
}

/// The wildcard name of the pods behind a headless service:
/// `*.<service>.<namespace>.svc.cluster.local`.
pub fn headless_service_dns_pattern(service: &str, namespace: &str) -> (r: String)
    ensures
        r@ == "*."@ + service@ + "."@ + namespace@ + ".svc.cluster.local"@,
{
    let mut s = String::from_str("*.");
    s.append(service);
    s.append(".");
    s.append(namespace);
    s.append(".svc.cluster.local");
    s
}

} // verus!

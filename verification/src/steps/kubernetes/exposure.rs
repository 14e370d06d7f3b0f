//! What a Kubernetes step does around the cluster calls that expose it,
//! delete it or read its logs: the objects it creates, the pods it acts on
//! and the messages it reports.
use vstd::prelude::*;
use crate::collections::{views, OrderedMap};
use crate::resources::meta::BuildError;
use crate::resources::network::{Ingress, Service};
use crate::resources::workload::Pod;
use crate::steps::kubernetes::types::{IngressConfig, ServiceConfig};
use crate::text::{decimal, decimal_text};

verus! {

/// The Service named `service_name` in `namespace` that exposes `port` of
/// the pods labelled `key` = `value`: a cluster-IP service with one TCP
/// port forwarding to the same port.
pub fn selector_service(
    service_name: &str,
    namespace: &str,
    port: u16,
    key: &str,
    value: &str,
) -> (r: Result<Service, BuildError>)
    ensures
        r matches Ok(svc) && exposes(svc, service_name@, namespace@, port, key@, value@),
{
    let mut selector: OrderedMap<String> = OrderedMap::new();
    selector.insert_text(key, value);
    assert(selector@.dom() =~= set![key@]);
    ServiceConfig::new(service_name, port).with_selector(selector).build_service(namespace)
}

/// `svc` is named `name` in `namespace`, and is a cluster-IP service with
/// one TCP port `port` forwarding to itself, selecting the pods labelled
/// `key` = `value`.
pub open spec fn exposes(
    svc: Service,
    name: Seq<char>,
    namespace: Seq<char>,
    port: u16,
    key: Seq<char>,
    value: Seq<char>,
) -> bool {
    &&& svc.metadata.name matches Some(n) && n@ == name
    &&& svc.metadata.namespace matches Some(n) && n@ == namespace
    &&& svc.metadata.labels is None
    &&& svc.metadata.annotations is None
    &&& match svc.spec {
        None => false,
        Some(spec) => {
            &&& spec.type_ matches Some(t) && t@ == "ClusterIP"@
            &&& spec.cluster_ip is None
            &&& crate::steps::kubernetes::types::single_tcp_port(spec.ports, port as i32, port as i32)
            &&& match spec.selector {
                Some(s) => s@.dom() == set![key] && s@[key]@ == value,
                None => false,
            }
            &&& spec.session_affinity is None
            &&& spec.external_traffic_policy is None
        },
    }
}

/// `ing` is named `ingress_name` in `namespace`, has no class, TLS,
/// labels or annotations, and routes every path of `host` to
/// `service_port` of the service `default-service`.
pub open spec fn routes_to_default(
    ing: Ingress,
    ingress_name: Seq<char>,
    namespace: Seq<char>,
    host: Seq<char>,
    service_port: u16,
) -> bool {
    &&& ing.metadata.name matches Some(n) && n@ == ingress_name
    &&& ing.metadata.namespace matches Some(n) && n@ == namespace
    &&& ing.metadata.labels is None
    &&& ing.metadata.annotations is None
    &&& match ing.spec {
        None => false,
        Some(spec) => {
            &&& spec.ingress_class_name is None
            &&& spec.tls is None
            &&& crate::steps::kubernetes::types::single_prefix_route(
                spec.rules,
                host,
                "/"@,
                "default-service"@,
                service_port as i32,
            )
        },
    }
}

/// The Ingress named `ingress_name` in `namespace` that routes every path
/// of `host` to `service_port` of the service `default-service`.
pub fn default_route_ingress(
    ingress_name: &str,
    namespace: &str,
    host: &str,
    service_port: u16,
) -> (r: Result<Ingress, BuildError>)
    ensures
        r matches Ok(ing) && routes_to_default(ing, ingress_name@, namespace@, host@, service_port),
{
    IngressConfig::new(ingress_name, host, "default-service", service_port).build_ingress(namespace)
}

/// The pod carries the label `key` reading `value`.
pub open spec fn labelled(p: Pod, key: Seq<char>, value: Seq<char>) -> bool {
    match p.metadata.labels {
        Some(l) => l@.contains_key(key) && l@[key]@ == value,
        None => false,
    }
}

/// The names of the named pods of `pods` labelled `key` = `value`, in
/// order.
pub open spec fn labelled_names(pods: Seq<Pod>, key: Seq<char>, value: Seq<char>) -> Seq<Seq<char>>
    decreases pods.len(),
{
    if pods.len() == 0 {
        Seq::empty()
    } else {
        let rest = labelled_names(pods.drop_last(), key, value);
        let p = pods.last();
        match p.metadata.name {
            Some(n) => if labelled(p, key, value) {
                rest.push(n@)
            } else {
                rest
            },
            None => rest,
        }
    }
}

/// Whether the pod carries the label `key` reading `value`.
fn has_label(p: &Pod, key: &str, value: &str) -> (r: bool)
    ensures
        r == labelled(*p, key@, value@),
{
    match &p.metadata.labels {
        Some(l) => match l.get(key) {
            Some(v) => {
                let want = value.to_string();
                *v == want
            },
            None => false,
        },
        None => false,
    }
}

/// The names of the named pods of `pods` labelled `key` = `value`, in
/// order: the pods that a job owns, by its `job-name` label.
pub fn pods_labelled(pods: &Vec<Pod>, key: &str, value: &str) -> (r: Vec<String>)
    ensures
        views(r@) == labelled_names(pods@, key@, value@),
{
    let mut out: Vec<String> = Vec::new();
    let mut i: usize = 0;
    while i < pods.len()
        invariant
            i <= pods@.len(),
            views(out@) == labelled_names(pods@.take(i as int), key@, value@),
        decreases pods@.len() - i,
    {
        let ghost before = views(out@);
        let p = &pods[i];
        assert(pods@.take(i + 1).drop_last() =~= pods@.take(i as int));
        assert(pods@.take(i + 1).last() == pods@[i as int]);
        if has_label(p, key, value) {
            match &p.metadata.name {
                Some(n) => {
                    out.push(n.clone());
                    assert(views(out@) =~= before.push(n@));
                },
                None => {},
            }
        }
        i = i + 1;
    }
    assert(pods@.take(pods@.len() as int) =~= pods@);
    out
}

/// The report of a service exposed on a port.
pub fn service_exposed_message(service_name: &str, port: u16) -> (r: String)
    ensures
        r@ == "Service "@ + service_name@ + " exposed on port "@ + decimal(port as nat),
{
    let mut s = String::from_str("Service ");
    s.append(service_name);
    s.append(" exposed on port ");
    s.append(decimal_text(port as u64).as_str());
    s
}

/// The report of an ingress created for a host.
pub fn ingress_exposed_message(ingress_name: &str, host: &str) -> (r: String)
    ensures
        r@ == "Ingress "@ + ingress_name@ + " for host "@ + host@,
{
    let mut s = String::from_str("Ingress ");
    s.append(ingress_name);
    s.append(" for host ");
    s.append(host);
    s
}

/// The report of a service that a dry run would expose.
pub fn dry_run_service_message(service_name: &str) -> (r: String)
    ensures
        r@ == "DRY RUN: Would expose service "@ + service_name@,
{
    let mut s = String::from_str("DRY RUN: Would expose service ");
    s.append(service_name);
    s
}

/// The report of an ingress that a dry run would create.
pub fn dry_run_ingress_message(ingress_name: &str) -> (r: String)
    ensures
        r@ == "DRY RUN: Would expose ingress "@ + ingress_name@,
{
    let mut s = String::from_str("DRY RUN: Would expose ingress ");
    s.append(ingress_name);
    s
}

} // verus!

//! A builder for Services of every type.
use vstd::prelude::*;
use crate::collections::OrderedMap;
use crate::resources::meta::{fails_with, BuildError, ObjectMeta};
use crate::resources::network::{K8sServicePort, Service, ServiceSpec};

verus! {

/// The kind of a Service. A headless service is a cluster-IP service
/// without a cluster IP.
#[derive(Debug, Clone, Copy, PartialEq, Eq, Structural)]
pub enum ServiceType {
    ClusterIP,
    Headless,
    NodePort,
    LoadBalancer,
}

/// The name under which Kubernetes knows a service type.
pub open spec fn service_type_name(t: ServiceType) -> Seq<char> {
    match t {
        ServiceType::ClusterIP => "ClusterIP"@,
        ServiceType::Headless => "ClusterIP"@,
        ServiceType::NodePort => "NodePort"@,
        ServiceType::LoadBalancer => "LoadBalancer"@,
    }
}

impl ServiceType {
    /// The name under which Kubernetes knows the service type.
    pub fn as_str(&self) -> (r: &'static str)
        ensures
            r@ == service_type_name(*self),
    {
        match self {
            ServiceType::ClusterIP => "ClusterIP",
            ServiceType::Headless => "ClusterIP",
            ServiceType::NodePort => "NodePort",
            ServiceType::LoadBalancer => "LoadBalancer",
        }
    }
}

/// A port of a service and the container port it forwards to.
#[derive(Debug, Clone, PartialEq, Eq)]
pub struct ServicePort {
    pub port: i32,
    pub target_port: i32,
    pub protocol: String,
    pub name: Option<String>,
}

impl Default for ServicePort {
    /// Port 80 to 8080 over TCP, unnamed.
    fn default() -> (r: Self)
        ensures
            r.port == 80,
            r.target_port == 8080,
            r.protocol@ == "TCP"@,
            r.name is None,
    {
        ServicePort { port: 80, target_port: 8080, protocol: String::from_str("TCP"), name: None }
    }
}

/// The settings of a Service under construction.
#[derive(Debug)]
pub struct ServiceBuilder {
    pub name: Option<String>,
    pub namespace: Option<String>,
    pub service_type: ServiceType,
    pub cluster_ip: Option<String>,
    pub ports: Vec<ServicePort>,
    pub selector: Option<OrderedMap<String>>,
    pub session_affinity: Option<String>,
    pub external_traffic_policy: Option<String>,
}

/// `k` is the Kubernetes form of the port `p`.
pub open spec fn port_built_from(k: K8sServicePort, p: ServicePort) -> bool {
    k == K8sServicePort {
        name: p.name,
        port: p.port,
        target_port: Some(p.target_port),
        protocol: Some(p.protocol),
    }
}

/// `svc` is the Service that the settings `b` describe; a headless service
/// gets the cluster IP `None`.
pub open spec fn service_built_from(svc: Service, b: ServiceBuilder) -> bool {
    &&& svc.metadata == ObjectMeta { name: b.name, namespace: b.namespace, labels: None, annotations: None }
    &&& svc.spec matches Some(spec) && {
        &&& spec.type_ matches Some(t) && t@ == service_type_name(b.service_type)
        &&& (if b.service_type == ServiceType::Headless {
            spec.cluster_ip matches Some(ip) && ip@ == "None"@
        } else {
            spec.cluster_ip == b.cluster_ip
        })
        &&& spec.ports matches Some(ports) && ports@.len() == b.ports@.len() && forall|i: int|
            0 <= i < b.ports@.len() ==> #[trigger] port_built_from(ports@[i], b.ports@[i])
        &&& spec.selector == b.selector
        &&& spec.session_affinity == b.session_affinity
        &&& spec.external_traffic_policy == b.external_traffic_policy
    }
}

impl ServiceBuilder {
    /// A cluster-IP service with no other setting.
    pub fn new() -> (r: Self)
        ensures
            r.name is None,
            r.namespace is None,
            r.service_type == ServiceType::ClusterIP,
            r.cluster_ip is None,
            r.ports@.len() == 0,
            r.selector is None,
            r.session_affinity is None,
            r.external_traffic_policy is None,
    {
        ServiceBuilder {
            name: None,
            namespace: None,
            service_type: ServiceType::ClusterIP,
            cluster_ip: None,
            ports: Vec::new(),
            selector: None,
            session_affinity: None,
            external_traffic_policy: None,
        }
    }

    pub fn with_name(self, name: &str) -> (r: Self)
        ensures
            r.name matches Some(n) && n@ == name@,
            r == (ServiceBuilder { name: r.name, ..self }),
    {
        ServiceBuilder { name: Some(name.to_string()), ..self }
    }

    pub fn with_namespace(self, namespace: &str) -> (r: Self)
        ensures
            r.namespace matches Some(n) && n@ == namespace@,
            r == (ServiceBuilder { namespace: r.namespace, ..self }),
    {
        ServiceBuilder { namespace: Some(namespace.to_string()), ..self }
    }

    /// Adds an unnamed port.
    pub fn with_port(self, port: i32, target_port: i32, protocol: &str) -> (r: Self)
        ensures
            r.ports@.len() == self.ports@.len() + 1,
            r.ports@.drop_last() == self.ports@,
            r.ports@.last().port == port,
            r.ports@.last().target_port == target_port,
            r.ports@.last().protocol@ == protocol@,
            r.ports@.last().name is None,
            r == (ServiceBuilder { ports: r.ports, ..self }),
    {
        let mut s = self;
        s.ports.push(ServicePort { port, target_port, protocol: protocol.to_string(), name: None });
        assert(s.ports@.drop_last() =~= self.ports@);
        s
    }

    /// Replaces the ports.
    pub fn with_ports(self, ports: Vec<ServicePort>) -> (r: Self)
        ensures
            r == (ServiceBuilder { ports, ..self }),
    {
        ServiceBuilder { ports, ..self }
    }

    pub fn with_type(self, service_type: ServiceType) -> (r: Self)
        ensures
            r == (ServiceBuilder { service_type, ..self }),
    {
        ServiceBuilder { service_type, ..self }
    }

    pub fn with_selector(self, labels: OrderedMap<String>) -> (r: Self)
        ensures
            r == (ServiceBuilder { selector: Some(labels), ..self }),
    {
        ServiceBuilder { selector: Some(labels), ..self }
    }

    pub fn with_cluster_ip(self, ip: &str) -> (r: Self)
        ensures
            r.cluster_ip matches Some(c) && c@ == ip@,
            r == (ServiceBuilder { cluster_ip: r.cluster_ip, ..self }),
    {
        ServiceBuilder { cluster_ip: Some(ip.to_string()), ..self }
    }

    pub fn with_session_affinity(self, affinity: &str) -> (r: Self)
        ensures
            r.session_affinity matches Some(a) && a@ == affinity@,
            r == (ServiceBuilder { session_affinity: r.session_affinity, ..self }),
    {
        ServiceBuilder { session_affinity: Some(affinity.to_string()), ..self }
    }

    pub fn with_external_traffic_policy(self, policy: &str) -> (r: Self)
        ensures
            r.external_traffic_policy matches Some(p) && p@ == policy@,
            r == (ServiceBuilder { external_traffic_policy: r.external_traffic_policy, ..self }),
    {
        ServiceBuilder { external_traffic_policy: Some(policy.to_string()), ..self }
    }

    /// The Service: the name and the namespace are required, in that order.
    pub fn build(self) -> (r: Result<Service, BuildError>)
        ensures
            self.name is None ==> fails_with(r, "Service name is required"@),
            self.name is Some && self.namespace is None ==> fails_with(
                r,
                "Service namespace is required"@,
            ),
            self.name is Some && self.namespace is Some ==> (r matches Ok(svc) && service_built_from(
                svc,
                self,
            )),
    {
        let ghost b = self;
        let ServiceBuilder {
            name,
            namespace,
            service_type,
            cluster_ip,
            ports,
            selector,
            session_affinity,
            external_traffic_policy,
        } = self;
        if name.is_none() {
            return Err(BuildError::new("Service name is required"));
        }
        if namespace.is_none() {
            return Err(BuildError::new("Service namespace is required"));
        }
        let ip = match service_type {
            ServiceType::Headless => Some(String::from_str("None")),
            _ => cluster_ip,
        };
        let ghost all = b.ports@;
        let mut rest = ports;
        let mut reversed: Vec<ServicePort> = Vec::new();
        while rest.len() > 0
            invariant
                rest@.len() <= all.len(),
                rest@ == all.take(rest@.len() as int),
                reversed@.len() == all.len() - rest@.len(),
                forall|i: int|
                    0 <= i < reversed@.len() ==> #[trigger] reversed@[i] == all[all.len() - 1 - i],
            decreases rest@.len(),
        {
            let p = rest.pop().unwrap();
            reversed.push(p);
            assert(rest@ =~= all.take(rest@.len() as int));
        }
        let mut k8s_ports: Vec<K8sServicePort> = Vec::new();
        while reversed.len() > 0
            invariant
                reversed@.len() <= all.len(),
                k8s_ports@.len() == all.len() - reversed@.len(),
                forall|i: int|
                    0 <= i < reversed@.len() ==> #[trigger] reversed@[i] == all[all.len() - 1 - i],
                forall|i: int|
                    0 <= i < k8s_ports@.len() ==> #[trigger] port_built_from(k8s_ports@[i], all[i]),
            decreases reversed@.len(),
        {
            let ghost n = reversed@.len();
            let p = reversed.pop().unwrap();
            assert(p == all[all.len() - n]);
            let ServicePort { port, target_port, protocol, name } = p;
            k8s_ports.push(
                K8sServicePort {
                    name,
                    port,
                    target_port: Some(target_port),
                    protocol: Some(protocol),
                },
            );
        }
        Ok(
            Service {
                metadata: ObjectMeta { name, namespace, labels: None, annotations: None },
                spec: Some(
                    ServiceSpec {
                        type_: Some(service_type.as_str().to_string()),
                        cluster_ip: ip,
                        ports: Some(k8s_ports),
                        selector,
                        session_affinity,
                        external_traffic_policy,
                    },
                ),
            },
        )
    }
}

impl Default for ServiceBuilder {
    fn default() -> (r: Self)
        ensures
            r.name is None,
            r.namespace is None,
            r.service_type == ServiceType::ClusterIP,
            r.cluster_ip is None,
            r.ports@.len() == 0,
            r.selector is None,
            r.session_affinity is None,
            r.external_traffic_policy is None,
    {
        ServiceBuilder::new()
    }
}

} // verus!

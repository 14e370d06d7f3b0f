//! Settings shared by the Kubernetes steps: how a job is named, how its
//! pods restart, and the Service and Ingress that expose it.
use vstd::prelude::*;
use crate::collections::OrderedMap;
use crate::networking::ingress::{routes_as, IngressBuilder};
use crate::networking::service::{port_built_from, service_type_name, ServiceBuilder, ServiceType};
use crate::resources::meta::BuildError;
use crate::resources::network::{
    Ingress, IngressRule, IngressTLS, K8sServicePort, Service, ServiceBackendPort,
};

verus! {

/// How the object of a step is named: exactly, or by a prefix that
/// Kubernetes completes.
#[derive(Debug, Clone)]
pub enum JobNameType {
    DefinedName(String),
    GenerateName(String),
}

impl JobNameType {
    pub fn is_defined(&self) -> (r: bool)
        ensures
            r == (*self is DefinedName),
    {
        match self {
            JobNameType::DefinedName(_) => true,
            JobNameType::GenerateName(_) => false,
        }
    }

    pub fn is_generated(&self) -> (r: bool)
        ensures
            r == (*self is GenerateName),
    {
        match self {
            JobNameType::DefinedName(_) => false,
            JobNameType::GenerateName(_) => true,
        }
    }
}

/// When the pods of a step restart.
#[derive(Debug, Clone, Copy, PartialEq, Eq, Structural)]
pub enum RestartPolicy {
    Never,
    OnFailure,
    Always,
}

/// The name under which Kubernetes knows a restart policy.
pub open spec fn restart_policy_name(p: RestartPolicy) -> Seq<char> {
    match p {
        RestartPolicy::Never => "Never"@,
        RestartPolicy::OnFailure => "OnFailure"@,
        RestartPolicy::Always => "Always"@,
    }
}

impl RestartPolicy {
    /// The name under which Kubernetes knows the restart policy.
    pub fn as_k8s_str(&self) -> (r: &'static str)
        ensures
            r@ == restart_policy_name(*self),
    {
        match self {
            RestartPolicy::Never => "Never",
            RestartPolicy::OnFailure => "OnFailure",
            RestartPolicy::Always => "Always",
        }
    }
}

/// `o` holds a text equal to `t`.
pub open spec fn text_is(o: Option<String>, t: Seq<char>) -> bool {
    match o {
        Some(s) => s@ == t,
        None => false,
    }
}

/// A single unnamed TCP port `port` forwarding to `target`.
pub open spec fn single_tcp_port(ports: Option<Vec<K8sServicePort>>, port: i32, target: i32) -> bool {
    match ports {
        Some(ps) => ps@.len() == 1 && ps@[0].name is None && ps@[0].port == port
            && ps@[0].target_port == Some(target) && text_is(ps@[0].protocol, "TCP"@),
        None => false,
    }
}

/// A single TLS entry from the secret `secret`, with no host listed.
pub open spec fn single_tls_secret(tls: Option<Vec<IngressTLS>>, secret: Seq<char>) -> bool {
    match tls {
        Some(v) => v@.len() == 1 && v@[0].hosts is None && text_is(v@[0].secret_name, secret),
        None => false,
    }
}

/// A single rule for `host` routing the prefix `path` to `port` of `service`.
pub open spec fn single_prefix_route(
    rules: Option<Vec<IngressRule>>,
    host: Seq<char>,
    path: Seq<char>,
    service: Seq<char>,
    port: i32,
) -> bool {
    match rules {
        Some(rs) => rs@.len() == 1 && text_is(rs@[0].host, host) && match rs@[0].http {
            Some(http) => http.paths@.len() == 1 && text_is(http.paths@[0].path, path)
                && http.paths@[0].path_type@ == "Prefix"@ && match http.paths@[0].backend.service {
                Some(s) => s.name@ == service && s.port == Some(
                    ServiceBackendPort { name: None, number: Some(port) },
                ),
                None => false,
            },
            None => false,
        },
        None => false,
    }
}

/// The Service that exposes a step.
#[derive(Debug)]
pub struct ServiceConfig {
    pub service_name: String,
    pub port: u16,
    pub target_port: Option<u16>,
    pub service_type: ServiceType,
    pub selector: OrderedMap<String>,
}

impl ServiceConfig {
    /// A cluster-IP service on `port`, forwarding to the same port, with no selector.
    pub fn new(service_name: &str, port: u16) -> (r: Self)
        ensures
            r.service_name@ == service_name@,
            r.port == port,
            r.target_port is None,
            r.service_type == ServiceType::ClusterIP,
            r.selector@.len() == 0,
    {
        ServiceConfig {
            service_name: service_name.to_string(),
            port,
            target_port: None,
            service_type: ServiceType::ClusterIP,
            selector: OrderedMap::new(),
        }
    }

    pub fn with_target_port(self, target_port: u16) -> (r: Self)
        ensures
            r == (ServiceConfig { target_port: Some(target_port), ..self }),
    {
        ServiceConfig { target_port: Some(target_port), ..self }
    }

    pub fn with_service_type(self, service_type: ServiceType) -> (r: Self)
        ensures
            r == (ServiceConfig { service_type, ..self }),
    {
        ServiceConfig { service_type, ..self }
    }

    pub fn with_selector(self, labels: OrderedMap<String>) -> (r: Self)
        ensures
            r == (ServiceConfig { selector: labels, ..self }),
    {
        ServiceConfig { selector: labels, ..self }
    }

    /// The Service in `namespace`: one TCP port, forwarding to the target
    /// port (the port itself when none is set), selecting by the selector.
    pub fn build_service(&self, namespace: &str) -> (r: Result<Service, BuildError>)
        ensures
            r matches Ok(svc) && {
                &&& svc.metadata.name matches Some(n) && n@ == self.service_name@
                &&& svc.metadata.namespace matches Some(n) && n@ == namespace@
                &&& svc.metadata.labels is None
                &&& svc.metadata.annotations is None
                &&& svc.spec matches Some(spec) && {
                    &&& spec.type_ matches Some(t) && t@ == service_type_name(self.service_type)
                    &&& (if self.service_type == ServiceType::Headless {
                        spec.cluster_ip matches Some(ip) && ip@ == "None"@
                    } else {
                        spec.cluster_ip is None
                    })
                    &&& single_tcp_port(
                        spec.ports,
                        self.port as i32,
                        (match self.target_port {
                            Some(t) => t,
                            None => self.port,
                        }) as i32,
                    )
                    &&& spec.selector matches Some(s) && s@ == self.selector@
                    &&& spec.session_affinity is None
                    &&& spec.external_traffic_policy is None
                }
            },
    {
        let target: u16 = match self.target_port {
            Some(t) => t,
            None => self.port,
        };
        let b = ServiceBuilder::new().with_name(self.service_name.as_str()).with_namespace(
            namespace,
        ).with_port(self.port as i32, target as i32, "TCP").with_selector(self.selector.duplicate()).with_type(
            self.service_type,
        );
        let ghost gb = b;
        let r = b.build();
        let ghost gr = r;
        proof {
            assert(gb.ports@.len() == 1);
            assert(gb.ports@[0] == gb.ports@.last());
            match gr {
                Ok(svc) => match svc.spec {
                    Some(spec) => match spec.ports {
                        Some(ports) => {
                            assert(port_built_from(ports@[0], gb.ports@[0]));
                        },
                        None => {},
                    },
                    None => {},
                },
                Err(_) => {},
            }
        }
        r
    }
}

/// The Ingress that exposes a step.
#[derive(Debug)]
pub struct IngressConfig {
    pub ingress_name: String,
    pub host: String,
    pub path: String,
    pub service_name: String,
    pub service_port: u16,
    pub tls_secret: Option<String>,
    pub annotations: Option<OrderedMap<String>>,
}

impl IngressConfig {
    /// An Ingress of `host` routing `/` to `service_port` of `service_name`,
    /// without TLS or annotations.
    pub fn new(ingress_name: &str, host: &str, service_name: &str, service_port: u16) -> (r: Self)
        ensures
            r.ingress_name@ == ingress_name@,
            r.host@ == host@,
            r.path@ == "/"@,
            r.service_name@ == service_name@,
            r.service_port == service_port,
            r.tls_secret is None,
            r.annotations is None,
    {
        IngressConfig {
            ingress_name: ingress_name.to_string(),
            host: host.to_string(),
            path: String::from_str("/"),
            service_name: service_name.to_string(),
            service_port,
            tls_secret: None,
            annotations: None,
        }
    }

    pub fn with_path(self, path: &str) -> (r: Self)
        ensures
            r.path@ == path@,
            r == (IngressConfig { path: r.path, ..self }),
    {
        IngressConfig { path: path.to_string(), ..self }
    }

    pub fn with_tls_secret(self, secret_name: &str) -> (r: Self)
        ensures
            r.tls_secret matches Some(s) && s@ == secret_name@,
            r == (IngressConfig { tls_secret: r.tls_secret, ..self }),
    {
        IngressConfig { tls_secret: Some(secret_name.to_string()), ..self }
    }

    pub fn with_annotations(self, annotations: OrderedMap<String>) -> (r: Self)
        ensures
            r == (IngressConfig { annotations: Some(annotations), ..self }),
    {
        IngressConfig { annotations: Some(annotations), ..self }
    }

    /// The Ingress in `namespace`: one prefix path to the service, TLS from
    /// the secret when one is set, and the annotations when set.
    pub fn build_ingress(&self, namespace: &str) -> (r: Result<Ingress, BuildError>)
        ensures
            r matches Ok(ing) && {
                &&& ing.metadata.name matches Some(n) && n@ == self.ingress_name@
                &&& ing.metadata.namespace matches Some(n) && n@ == namespace@
                &&& ing.metadata.labels is None
                &&& (match self.annotations {
                    None => ing.metadata.annotations is None,
                    Some(a) => ing.metadata.annotations matches Some(b) && b@ == a@,
                })
                &&& ing.spec matches Some(spec) && {
                    &&& spec.ingress_class_name is None
                    &&& (match self.tls_secret {
                        None => spec.tls is None,
                        Some(s) => single_tls_secret(spec.tls, s@),
                    })
                    &&& single_prefix_route(
                        spec.rules,
                        self.host@,
                        self.path@,
                        self.service_name@,
                        self.service_port as i32,
                    )
                }
            },
    {
        let mut builder = IngressBuilder::new().with_name(self.ingress_name.as_str()).with_namespace(
            namespace,
        ).with_host(self.host.as_str()).with_path(
            self.path.as_str(),
            self.service_name.as_str(),
            self.service_port as i32,
        );
        match &self.tls_secret {
            Some(s) => {
                builder = builder.with_tls_secret(s.as_str());
            },
            None => {},
        }
        match &self.annotations {
            Some(a) => {
                builder = builder.with_annotations(a.duplicate());
            },
            None => {},
        }
        let ghost gb = builder;
        let r = builder.build();
        let ghost gr = r;
        proof {
            assert(gb.paths@.len() == 1);
            assert(gb.paths@[0] == gb.paths@.last());
            match gr {
                Ok(ing) => match ing.spec {
                    Some(spec) => match spec.rules {
                        Some(rules) => match rules@[0].http {
                            Some(http) => {
                                assert(routes_as(http.paths@[0], gb.paths@[0]));
                            },
                            None => {},
                        },
                        None => {},
                    },
                    None => {},
                },
                Err(_) => {},
            }
        }
        r
    }
}

} // verus!

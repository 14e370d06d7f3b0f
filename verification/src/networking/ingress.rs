//! A builder for Ingresses: one host, routed paths, TLS and annotations.
use vstd::prelude::*;
use crate::collections::OrderedMap;
use crate::resources::meta::{fails_with, BuildError, ObjectMeta};
use crate::resources::network::{
    HTTPIngressPath, HTTPIngressRuleValue, Ingress, IngressBackend, IngressRule,
    IngressServiceBackend, IngressSpec, IngressTLS, ServiceBackendPort,
};

verus! {

/// How an Ingress path is matched.
#[derive(Debug, Clone, Copy, PartialEq, Eq, Structural)]
pub enum PathType {
    Exact,
    Prefix,
    ImplementationSpecific,
}

/// The name under which Kubernetes knows a path type.
pub open spec fn path_type_name(t: PathType) -> Seq<char> {
    match t {
        PathType::Exact => "Exact"@,
        PathType::Prefix => "Prefix"@,
        PathType::ImplementationSpecific => "ImplementationSpecific"@,
    }
}

/// Kubernetes knows each path type by its own name: `Exact` (only the path
/// itself is routed), `Prefix` (every path under it is routed) and
/// `ImplementationSpecific`; no two path types share a name, so the type a
/// built Ingress carries is the one that was configured.
pub proof fn lemma_path_type_names()
    ensures
        path_type_name(PathType::Exact) == "Exact"@,
        path_type_name(PathType::Prefix) == "Prefix"@,
        path_type_name(PathType::ImplementationSpecific) == "ImplementationSpecific"@,
        forall|a: PathType, b: PathType| #[trigger] path_type_name(a) == #[trigger] path_type_name(b) ==> a == b,
{
    reveal_strlit("Exact");
    reveal_strlit("Prefix");
    reveal_strlit("ImplementationSpecific");
    assert forall|a: PathType, b: PathType| #[trigger] path_type_name(a) == #[trigger] path_type_name(b) implies a
        == b by {
        assert(path_type_name(a).len() == path_type_name(b).len());
    }
}

impl PathType {
    /// The name under which Kubernetes knows the path type.
    pub fn as_str(&self) -> (r: &'static str)
        ensures
            r@ == path_type_name(*self),
    {
        match self {
            PathType::Exact => "Exact",
            PathType::Prefix => "Prefix",
            PathType::ImplementationSpecific => "ImplementationSpecific",
        }
    }
}

/// A path routed to a port of a service.
#[derive(Debug, Clone, PartialEq, Eq)]
pub struct IngressPath {
    pub path: String,
    pub path_type: PathType,
    pub service_name: String,
    pub service_port: i32,
}

impl Default for IngressPath {
    /// The prefix `/`, to port 80 of a service with an empty name.
    fn default() -> (r: Self)
        ensures
            r.path@ == "/"@,
            r.path_type == PathType::Prefix,
            r.service_name@ == Seq::<char>::empty(),
            r.service_port == 80,
    {
        IngressPath {
            path: String::from_str("/"),
            path_type: PathType::Prefix,
            service_name: String::new(),
            service_port: 80,
        }
    }
}

/// The TLS secret of an Ingress and the hosts it covers.
#[derive(Debug, Clone, PartialEq, Eq)]
pub struct TLSConfig {
    pub hosts: Vec<String>,
    pub secret_name: String,
}

impl Default for TLSConfig {
    fn default() -> (r: Self)
        ensures
            r.hosts@.len() == 0,
            r.secret_name@ == Seq::<char>::empty(),
    {
        TLSConfig { hosts: Vec::new(), secret_name: String::new() }
    }
}

/// The settings of an Ingress under construction.
#[derive(Debug)]
pub struct IngressBuilder {
    pub name: Option<String>,
    pub namespace: Option<String>,
    pub host: Option<String>,
    pub paths: Vec<IngressPath>,
    pub tls: Option<TLSConfig>,
    pub annotations: Option<OrderedMap<String>>,
    pub ingress_class: Option<String>,
}

/// `h` routes as `p` says.
pub open spec fn routes_as(h: HTTPIngressPath, p: IngressPath) -> bool {
    &&& h.path == Some(p.path)
    &&& h.path_type@ == path_type_name(p.path_type)
    &&& h.backend.service matches Some(s) && s.name == p.service_name && s.port == Some(
        ServiceBackendPort { name: None, number: Some(p.service_port) },
    )
}

/// The TLS part of an Ingress built from the setting `tls`: none without a
/// setting; otherwise one entry with the secret, and the hosts unless there
/// are none.
pub open spec fn tls_built_from(built: Option<Vec<IngressTLS>>, tls: Option<TLSConfig>) -> bool {
    match tls {
        None => built is None,
        Some(t) => built matches Some(v) && v@.len() == 1 && v@[0].secret_name == Some(t.secret_name)
            && (if t.hosts@.len() == 0 {
            v@[0].hosts is None
        } else {
            v@[0].hosts == Some(t.hosts)
        }),
    }
}

/// The single rule of an Ingress: the host of `b`, with its paths routed
/// in order.
pub open spec fn rules_built_from(rules: Option<Vec<IngressRule>>, b: IngressBuilder) -> bool {
    match rules {
        None => false,
        Some(rules) => rules@.len() == 1 && rules@[0].host == b.host && match rules@[0].http {
            None => false,
            Some(http) => http.paths@.len() == b.paths@.len() && forall|i: int|
                0 <= i < b.paths@.len() ==> #[trigger] routes_as(http.paths@[i], b.paths@[i]),
        },
    }
}

/// `ing` is the Ingress that the settings `b` describe.
pub open spec fn ingress_built_from(ing: Ingress, b: IngressBuilder) -> bool {
    &&& ing.metadata == ObjectMeta {
        name: b.name,
        namespace: b.namespace,
        labels: None,
        annotations: b.annotations,
    }
    &&& ing.spec matches Some(spec) && {
        &&& spec.ingress_class_name == b.ingress_class
        &&& tls_built_from(spec.tls, b.tls)
        &&& rules_built_from(spec.rules, b)
    }
}

impl IngressBuilder {
    /// No setting made yet.
    pub fn new() -> (r: Self)
        ensures
            r.name is None,
            r.namespace is None,
            r.host is None,
            r.paths@.len() == 0,
            r.tls is None,
            r.annotations is None,
            r.ingress_class is None,
    {
        IngressBuilder {
            name: None,
            namespace: None,
            host: None,
            paths: Vec::new(),
            tls: None,
            annotations: None,
            ingress_class: None,
        }
    }

    pub fn with_name(self, name: &str) -> (r: Self)
        ensures
            r.name matches Some(n) && n@ == name@,
            r == (IngressBuilder { name: r.name, ..self }),
    {
        IngressBuilder { name: Some(name.to_string()), ..self }
    }

    pub fn with_namespace(self, namespace: &str) -> (r: Self)
        ensures
            r.namespace matches Some(n) && n@ == namespace@,
            r == (IngressBuilder { namespace: r.namespace, ..self }),
    {
        IngressBuilder { namespace: Some(namespace.to_string()), ..self }
    }

    pub fn with_host(self, host: &str) -> (r: Self)
        ensures
            r.host matches Some(h) && h@ == host@,
            r == (IngressBuilder { host: r.host, ..self }),
    {
        IngressBuilder { host: Some(host.to_string()), ..self }
    }

    /// Adds a prefix path routed to `service_port` of `service_name`.
    pub fn with_path(self, path: &str, service_name: &str, service_port: i32) -> (r: Self)
        ensures
            r.paths@.len() == self.paths@.len() + 1,
            r.paths@.drop_last() == self.paths@,
            r.paths@.last().path@ == path@,
            r.paths@.last().path_type == PathType::Prefix,
            r.paths@.last().service_name@ == service_name@,
            r.paths@.last().service_port == service_port,
            r == (IngressBuilder { paths: r.paths, ..self }),
    {
        let mut s = self;
        s.paths.push(
            IngressPath {
                path: path.to_string(),
                path_type: PathType::Prefix,
                service_name: service_name.to_string(),
                service_port,
            },
        );
        assert(s.paths@.drop_last() =~= self.paths@);
        s
    }

    /// Replaces the paths.
    pub fn with_paths(self, paths: Vec<IngressPath>) -> (r: Self)
        ensures
            r == (IngressBuilder { paths, ..self }),
    {
        IngressBuilder { paths, ..self }
    }

    /// TLS from the secret `secret_name`, with no host listed.
    pub fn with_tls_secret(self, secret_name: &str) -> (r: Self)
        ensures
            r.tls matches Some(t) && t.hosts@.len() == 0 && t.secret_name@ == secret_name@,
            r == (IngressBuilder { tls: r.tls, ..self }),
    {
        IngressBuilder {
            tls: Some(TLSConfig { hosts: Vec::new(), secret_name: secret_name.to_string() }),
            ..self
        }
    }

    pub fn with_tls_config(self, tls: TLSConfig) -> (r: Self)
        ensures
            r == (IngressBuilder { tls: Some(tls), ..self }),
    {
        IngressBuilder { tls: Some(tls), ..self }
    }

    pub fn with_annotations(self, annotations: OrderedMap<String>) -> (r: Self)
        ensures
            r == (IngressBuilder { annotations: Some(annotations), ..self }),
    {
        IngressBuilder { annotations: Some(annotations), ..self }
    }

    pub fn with_ingress_class(self, class_name: &str) -> (r: Self)
        ensures
            r.ingress_class matches Some(c) && c@ == class_name@,
            r == (IngressBuilder { ingress_class: r.ingress_class, ..self }),
    {
        IngressBuilder { ingress_class: Some(class_name.to_string()), ..self }
    }

    /// The Ingress: the name, the namespace, the host and at least one path
    /// are required, and are checked in that order.
    pub fn build(self) -> (r: Result<Ingress, BuildError>)
        ensures
            self.name is None ==> fails_with(r, "Ingress name is required"@),
            self.name is Some && self.namespace is None ==> fails_with(
                r,
                "Ingress namespace is required"@,
            ),
            self.name is Some && self.namespace is Some && self.paths@.len() == 0 ==> fails_with(
                r,
                "At least one path is required"@,
            ),
            self.name is Some && self.namespace is Some && self.paths@.len() > 0 && self.host is None
                ==> fails_with(r, "Host is required"@),
            self.name is Some && self.namespace is Some && self.paths@.len() > 0 && self.host is Some
                ==> (r matches Ok(ing) && ingress_built_from(ing, self)),
    {
        let ghost b = self;
        let IngressBuilder { name, namespace, host, paths, tls, annotations, ingress_class } = self;
        if name.is_none() {
            return Err(BuildError::new("Ingress name is required"));
        }
        if namespace.is_none() {
            return Err(BuildError::new("Ingress namespace is required"));
        }
        if paths.len() == 0 {
            return Err(BuildError::new("At least one path is required"));
        }
        if host.is_none() {
            return Err(BuildError::new("Host is required"));
        }
        let mut http_paths: Vec<HTTPIngressPath> = Vec::new();
        let mut rest = paths;
        let ghost all = b.paths@;
        let mut reversed: Vec<IngressPath> = Vec::new();
        while rest.len() > 0
            invariant
                rest@.len() <= all.len(),
                rest@ == all.take(rest@.len() as int),
                reversed@.len() == all.len() - rest@.len(),
                forall|i: int|
                    0 <= i < reversed@.len() ==> #[trigger] reversed@[i] == all[all.len() - 1 - i],
            decreases rest@.len(),
        {
            let p = rest.pop().unwrap();
            reversed.push(p);
            assert(rest@ =~= all.take(rest@.len() as int));
        }
        while reversed.len() > 0
            invariant
                reversed@.len() <= all.len(),
                http_paths@.len() == all.len() - reversed@.len(),
                forall|i: int|
                    0 <= i < reversed@.len() ==> #[trigger] reversed@[i] == all[all.len() - 1 - i],
                forall|i: int|
                    0 <= i < http_paths@.len() ==> #[trigger] routes_as(http_paths@[i], all[i]),
            decreases reversed@.len(),
        {
            let ghost n = reversed@.len();
            let p = reversed.pop().unwrap();
            assert(p == all[all.len() - n]);
            let IngressPath { path, path_type, service_name, service_port } = p;
            let h = HTTPIngressPath {
                path: Some(path),
                path_type: path_type.as_str().to_string(),
                backend: IngressBackend {
                    service: Some(
                        IngressServiceBackend {
                            name: service_name,
                            port: Some(ServiceBackendPort { name: None, number: Some(service_port) }),
                        },
                    ),
                },
            };
            http_paths.push(h);
        }
        let mut rules: Vec<IngressRule> = Vec::new();
        rules.push(IngressRule { host, http: Some(HTTPIngressRuleValue { paths: http_paths }) });
        let tls_config = match tls {
            None => None,
            Some(t) => {
                let TLSConfig { hosts, secret_name } = t;
                let mut v: Vec<IngressTLS> = Vec::new();
                let hs = if hosts.len() == 0 {
                    None
                } else {
                    Some(hosts)
                };
                v.push(IngressTLS { hosts: hs, secret_name: Some(secret_name) });
                Some(v)
            },
        };
        Ok(
            Ingress {
                metadata: ObjectMeta { name, namespace, labels: None, annotations },
                spec: Some(
                    IngressSpec { ingress_class_name: ingress_class, rules: Some(rules), tls: tls_config },
                ),
            },
        )
    }
}

impl Default for IngressBuilder {
    fn default() -> (r: Self)
        ensures
            r.name is None,
            r.namespace is None,
            r.host is None,
            r.paths@.len() == 0,
            r.tls is None,
            r.annotations is None,
            r.ingress_class is None,
    {
        IngressBuilder::new()
    }
}

} // verus!

//! Sidecar containers that run beside the main container of a step.
use vstd::prelude::*;
use crate::collections::{inserted_text, OrderedMap};
use crate::entities::ContainerLike;
use crate::resources::meta::{fails_with, BuildError};
use crate::resources::workload::{Container, EnvVar, K8sContainerPort, ResourceRequirements};
use crate::steps::result::JsonValue;
use crate::steps::traits::ResourceLimits;

verus! {

/// Free-form settings of a sidecar.
pub type SidecarConfig = OrderedMap<JsonValue>;

/// A port that a container exposes.
#[derive(Debug, Clone, PartialEq, Eq)]
pub struct ContainerPort {
    pub container_port: u16,
    pub host_port: Option<u16>,
    pub protocol: Option<String>,
    pub name: Option<String>,
}

impl ContainerPort {
    /// The TCP port `container_port`, unnamed and not mapped to the host.
    pub fn new(container_port: u16) -> (r: Self)
        ensures
            r.container_port == container_port,
            r.host_port is None,
            r.protocol matches Some(p) && p@ == "TCP"@,
            r.name is None,
    {
        ContainerPort {
            container_port,
            host_port: None,
            protocol: Some(String::from_str("TCP")),
            name: None,
        }
    }

    pub fn with_host_port(self, port: u16) -> (r: Self)
        ensures
            r == (ContainerPort { host_port: Some(port), ..self }),
    {
        ContainerPort { host_port: Some(port), ..self }
    }

    pub fn with_protocol(self, protocol: &str) -> (r: Self)
        ensures
            r.protocol matches Some(p) && p@ == protocol@,
            r == (ContainerPort { protocol: r.protocol, ..self }),
    {
        ContainerPort { protocol: Some(protocol.to_string()), ..self }
    }

    pub fn with_name(self, name: &str) -> (r: Self)
        ensures
            r.name matches Some(n) && n@ == name@,
            r == (ContainerPort { name: r.name, ..self }),
    {
        ContainerPort { name: Some(name.to_string()), ..self }
    }
}

/// A container that runs beside the main container of a step.
#[derive(Debug)]
pub struct SidecarContainer {
    pub name: String,
    pub image: String,
    pub config: SidecarConfig,
    pub ports: Vec<ContainerPort>,
    pub env: OrderedMap<String>,
    pub volume_mounts: Vec<String>,
    pub resource_limits: Option<ResourceLimits>,
}

/// `m` holds the quantities that are set among `cpu` and `memory`, under
/// those names; none when neither is set.
pub open spec fn quantities_from(m: Option<OrderedMap<String>>, cpu: Option<String>, memory: Option<String>) -> bool {
    if cpu is None && memory is None {
        m is None
    } else {
        match m {
            None => false,
            Some(mm) => {
                &&& mm@.contains_key("cpu"@) == cpu is Some
                &&& mm@.contains_key("memory"@) == memory is Some
                &&& mm@.len() == (if cpu is Some {
                    1int
                } else {
                    0int
                }) + (if memory is Some {
                    1int
                } else {
                    0int
                })
                &&& (cpu matches Some(c) ==> mm@["cpu"@]@ == c@)
                &&& (memory matches Some(x) ==> mm@["memory"@]@ == x@)
            },
        }
    }
}

/// The compute resources of a container with the given limits.
pub open spec fn requirements_from(r: ResourceRequirements, l: ResourceLimits) -> bool {
    &&& quantities_from(r.limits, l.cpu, l.memory)
    &&& quantities_from(r.requests, l.cpu_request, l.memory_request)
}

/// The quantities set among `cpu` and `memory`, or none.
fn quantities(cpu: &Option<String>, memory: &Option<String>) -> (r: Option<OrderedMap<String>>)
    ensures
        quantities_from(r, *cpu, *memory),
{
    let mut m: OrderedMap<String> = OrderedMap::new();
    match cpu {
        Some(c) => {
            m.insert_text("cpu", c.as_str());
        },
        None => {},
    }
    let ghost after_cpu = m;
    match memory {
        Some(x) => {
            m.insert_text("memory", x.as_str());
        },
        None => {},
    }
    proof {
        reveal_strlit("cpu");
        reveal_strlit("memory");
        assert("cpu"@.len() != "memory"@.len());
        assert("cpu"@ != "memory"@);
        if cpu is Some && memory is Some {
            assert(m@.dom() =~= set!["cpu"@, "memory"@]);
        } else if cpu is Some {
            assert(m@.dom() =~= set!["cpu"@]);
        } else if memory is Some {
            assert(m@.dom() =~= set!["memory"@]);
        }
    }
    if m.is_empty() {
        None
    } else {
        Some(m)
    }
}

/// The compute resources of a container with the limits `l`.
pub fn requirements_of(l: &ResourceLimits) -> (r: ResourceRequirements)
    ensures
        requirements_from(r, *l),
{
    ResourceRequirements {
        limits: quantities(&l.cpu, &l.memory),
        requests: quantities(&l.cpu_request, &l.memory_request),
    }
}

/// `e` lists the variables of `env`, in order.
pub open spec fn env_built_from(e: Seq<EnvVar>, env: OrderedMap<String>) -> bool {
    &&& e.len() == env.spec_keys().len()
    &&& forall|i: int|
        0 <= i < e.len() ==> #[trigger] e[i].name@ == env.spec_keys()[i] && e[i].value == Some(
            env.spec_values()[i],
        )
}

/// `k` is the Kubernetes form of the port `p`.
pub open spec fn container_port_built_from(k: K8sContainerPort, p: ContainerPort) -> bool {
    &&& k.container_port == p.container_port as i32
    &&& k.host_port == (match p.host_port {
        Some(h) => Some(h as i32),
        None => None,
    })
    &&& k.protocol == p.protocol
    &&& k.name == p.name
}

/// The environment variables of `env`, in order.
fn env_vars(env: &OrderedMap<String>) -> (r: Vec<EnvVar>)
    ensures
        env_built_from(r@, *env),
{
    let entries = env.entries();
    let mut out: Vec<EnvVar> = Vec::new();
    let mut i: usize = 0;
    while i < entries.len()
        invariant
            i <= entries@.len(),
            crate::collections::entry_keys(entries@) == env.spec_keys(),
            entries@.map_values(|e: (String, String)| e.1) == env.spec_values(),
            out@.len() == i,
            forall|q: int|
                0 <= q < i ==> #[trigger] out@[q].name@ == env.spec_keys()[q] && out@[q].value == Some(
                    env.spec_values()[q],
                ),
        decreases entries@.len() - i,
    {
        let name = entries[i].0.clone();
        let value = entries[i].1.clone();
        assert(crate::collections::entry_keys(entries@)[i as int] == entries@[i as int].0@);
        assert(entries@.map_values(|e: (String, String)| e.1)[i as int] == entries@[i as int].1);
        out.push(EnvVar { name, value: Some(value) });
        i = i + 1;
    }
    out
}

/// The Kubernetes form of each port, in order.
fn container_ports(ports: &Vec<ContainerPort>) -> (r: Vec<K8sContainerPort>)
    ensures
        r@.len() == ports@.len(),
        forall|i: int| 0 <= i < ports@.len() ==> #[trigger] container_port_built_from(r@[i], ports@[i]),
{
    let mut out: Vec<K8sContainerPort> = Vec::new();
    let mut i: usize = 0;
    while i < ports.len()
        invariant
            i <= ports@.len(),
            out@.len() == i,
            forall|q: int| 0 <= q < i ==> #[trigger] container_port_built_from(out@[q], ports@[q]),
        decreases ports@.len() - i,
    {
        let p = &ports[i];
        let host: Option<i32> = match p.host_port {
            Some(h) => Some(h as i32),
            None => None,
        };
        out.push(
            K8sContainerPort {
                container_port: p.container_port as i32,
                host_port: host,
                protocol: p.protocol.clone(),
                name: p.name.clone(),
            },
        );
        i = i + 1;
    }
    out
}

impl SidecarContainer {
    /// A sidecar running `image` under `name`, with nothing else set.
    pub fn new(image: &str, name: &str) -> (r: Self)
        ensures
            r.image@ == image@,
            r.name@ == name@,
            r.config@.len() == 0,
            r.ports@.len() == 0,
            r.env@.len() == 0,
            r.volume_mounts@.len() == 0,
            r.resource_limits is None,
    {
        SidecarContainer {
            image: image.to_string(),
            name: name.to_string(),
            config: OrderedMap::new(),
            ports: Vec::new(),
            env: OrderedMap::new(),
            volume_mounts: Vec::new(),
            resource_limits: None,
        }
    }

    /// Records a setting.
    pub fn with_config(self, key: &str, value: JsonValue) -> (r: Self)
        ensures
            r.config@ == self.config@.insert(key@, value),
            r == (SidecarContainer { config: r.config, ..self }),
    {
        let mut s = self;
        s.config.insert(key.to_string(), value);
        s
    }

    /// Sets an environment variable.
    pub fn with_env(self, key: &str, value: &str) -> (r: Self)
        ensures
            inserted_text(r.env, self.env, key@, value@),
            r == (SidecarContainer { env: r.env, ..self }),
    {
        let mut s = self;
        s.env.insert_text(key, value);
        s
    }

    pub fn with_resource_limits(self, limits: ResourceLimits) -> (r: Self)
        ensures
            r == (SidecarContainer { resource_limits: Some(limits), ..self }),
    {
        SidecarContainer { resource_limits: Some(limits), ..self }
    }

    /// The container: name, image, environment and ports (none when
    /// empty), and the compute resources of the limits.
    pub fn to_container(&self) -> (r: Container)
        ensures
            r.name@ == self.name@,
            r.image matches Some(i) && i@ == self.image@,
            r.command is None,
            r.volume_mounts is None,
            r.liveness_probe is None,
            r.readiness_probe is None,
            match r.env {
                None => self.env@.len() == 0,
                Some(e) => self.env@.len() > 0 && env_built_from(e@, self.env),
            },
            match r.ports {
                None => self.ports@.len() == 0,
                Some(ps) => self.ports@.len() > 0 && ps@.len() == self.ports@.len() && forall|i: int|
                    0 <= i < self.ports@.len() ==> #[trigger] container_port_built_from(
                        ps@[i],
                        self.ports@[i],
                    ),
            },
            match self.resource_limits {
                None => r.resources is None,
                Some(l) => r.resources matches Some(req) && requirements_from(req, l),
            },
    {
        let env = if self.env.is_empty() {
            None
        } else {
            Some(env_vars(&self.env))
        };
        let ports = if self.ports.len() == 0 {
            None
        } else {
            Some(container_ports(&self.ports))
        };
        let resources = match &self.resource_limits {
            None => None,
            Some(l) => Some(requirements_of(l)),
        };
        Container {
            name: self.name.clone(),
            image: Some(self.image.clone()),
            command: None,
            env,
            ports,
            resources,
            volume_mounts: None,
            liveness_probe: None,
            readiness_probe: None,
        }
    }
}

impl ContainerLike for SidecarContainer {
    /// The container of the sidecar, as `to_container` builds it.
    fn as_container(&self) -> (r: Container)
        ensures
            r.name@ == self.name@,
            r.image matches Some(i) && i@ == self.image@,
            r.command is None,
            r.volume_mounts is None,
            r.liveness_probe is None,
            r.readiness_probe is None,
            match r.env {
                None => self.env@.len() == 0,
                Some(e) => self.env@.len() > 0 && env_built_from(e@, self.env),
            },
            match r.ports {
                None => self.ports@.len() == 0,
                Some(ps) => self.ports@.len() > 0 && ps@.len() == self.ports@.len() && forall|i: int|
                    0 <= i < self.ports@.len() ==> #[trigger] container_port_built_from(
                        ps@[i],
                        self.ports@[i],
                    ),
            },
            match self.resource_limits {
                None => r.resources is None,
                Some(l) => r.resources matches Some(req) && requirements_from(req, l),
            },
    {
        self.to_container()
    }
}

/// The settings of a sidecar under construction.
#[derive(Debug)]
pub struct SidecarBuilder {
    pub image: Option<String>,
    pub name: Option<String>,
    pub config: SidecarConfig,
    pub ports: Vec<ContainerPort>,
    pub env: OrderedMap<String>,
    pub resource_limits: Option<ResourceLimits>,
}

impl SidecarBuilder {
    /// A sidecar of `image`, not yet named.
    pub fn new(image: &str) -> (r: Self)
        ensures
            r.image matches Some(i) && i@ == image@,
            r.name is None,
            r.config@.len() == 0,
            r.ports@.len() == 0,
            r.env@.len() == 0,
            r.resource_limits is None,
    {
        SidecarBuilder {
            image: Some(image.to_string()),
            name: None,
            config: OrderedMap::new(),
            ports: Vec::new(),
            env: OrderedMap::new(),
            resource_limits: None,
        }
    }

    pub fn with_name(self, name: &str) -> (r: Self)
        ensures
            r.name matches Some(n) && n@ == name@,
            r == (SidecarBuilder { name: r.name, ..self }),
    {
        SidecarBuilder { name: Some(name.to_string()), ..self }
    }

    /// Exposes the TCP port `port`.
    pub fn with_port(self, port: u16) -> (r: Self)
        ensures
            r.ports@.len() == self.ports@.len() + 1,
            r.ports@.drop_last() == self.ports@,
            r.ports@.last().container_port == port,
            r.ports@.last().host_port is None,
            r.ports@.last().protocol matches Some(p) && p@ == "TCP"@,
            r.ports@.last().name is None,
            r == (SidecarBuilder { ports: r.ports, ..self }),
    {
        let mut s = self;
        s.ports.push(ContainerPort::new(port));
        assert(s.ports@.drop_last() =~= self.ports@);
        s
    }

    /// Records a setting.
    pub fn with_config(self, key: &str, value: JsonValue) -> (r: Self)
        ensures
            r.config@ == self.config@.insert(key@, value),
            r == (SidecarBuilder { config: r.config, ..self }),
    {
        let mut s = self;
        s.config.insert(key.to_string(), value);
        s
    }

    /// Sets an environment variable.
    pub fn with_env(self, key: &str, value: &str) -> (r: Self)
        ensures
            inserted_text(r.env, self.env, key@, value@),
            r == (SidecarBuilder { env: r.env, ..self }),
    {
        let mut s = self;
        s.env.insert_text(key, value);
        s
    }

    pub fn with_resource_limits(self, limits: ResourceLimits) -> (r: Self)
        ensures
            r == (SidecarBuilder { resource_limits: Some(limits), ..self }),
    {
        SidecarBuilder { resource_limits: Some(limits), ..self }
    }

    /// The sidecar: the image and the name are required, in that order.
    pub fn build(self) -> (r: Result<SidecarContainer, BuildError>)
        ensures
            self.image is None ==> fails_with(r, "Image is required"@),
            self.image is Some && self.name is None ==> fails_with(r, "Name is required"@),
            self.image matches Some(i) ==> (self.name matches Some(n) ==> (r matches Ok(s) && s
                == SidecarContainer {
                image: i,
                name: n,
                config: self.config,
                ports: self.ports,
                env: self.env,
                volume_mounts: s.volume_mounts,
                resource_limits: self.resource_limits,
            } && s.volume_mounts@.len() == 0)),
    {
        let SidecarBuilder { image, name, config, ports, env, resource_limits } = self;
        match image {
            None => Err(BuildError::new("Image is required")),
            Some(image) => match name {
                None => Err(BuildError::new("Name is required")),
                Some(name) => Ok(
                    SidecarContainer {
                        image,
                        name,
                        config,
                        ports,
                        env,
                        volume_mounts: Vec::new(),
                        resource_limits,
                    },
                ),
            },
        }
    }
}

} // verus!

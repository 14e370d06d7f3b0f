//! The settings of the StatefulSet that stores checkpoints, the Service in
//! front of it, and when it counts as ready.
use vstd::prelude::*;
use crate::collections::{inserted_text, OrderedMap};
use crate::resources::meta::ObjectMeta;
use crate::resources::network::{K8sServicePort, Service, ServiceSpec};
use crate::steps::kubernetes::types::{single_tcp_port, text_is};
use crate::collections::views;
use crate::resources::policy::LabelSelector;
use crate::resources::workload::{
    Container, HTTPGetAction, K8sContainerPort, PersistentVolumeClaim, PersistentVolumeClaimSpec,
    PodSpec, PodTemplateSpec, Probe, ResourceRequirements, StatefulSet, StatefulSetSpec, VolumeMount,
};
use crate::text::{decimal, decimal_text};

verus! {

/// `o` holds `labels` with `app` set to `name`.
pub open spec fn labelled_for(o: Option<OrderedMap<String>>, labels: OrderedMap<String>, name: Seq<char>) -> bool {
    match o {
        Some(l) => inserted_text(l, labels, "app"@, name),
        None => false,
    }
}

/// Where and how the checkpoint store runs.
#[derive(Debug, Clone)]
pub struct StatefulSetConfig {
    pub name: String,
    pub namespace: String,
    pub service_name: String,
    pub replicas: i32,
    pub pvc_size: String,
    pub http_port: u16,
    pub labels: OrderedMap<String>,
    pub annotations: OrderedMap<String>,
}

impl Default for StatefulSetConfig {
    /// `maestro-checkpoint-storage` in `default`, one replica with a 1Gi
    /// volume, serving on port 8080, labelled `app=maestro-checkpoint`.
    fn default() -> (r: Self)
        ensures
            r.name@ == "maestro-checkpoint-storage"@,
            r.namespace@ == "default"@,
            r.service_name@ == "maestro-checkpoint-storage"@,
            r.replicas == 1,
            r.pvc_size@ == "1Gi"@,
            r.http_port == 8080,
            r.labels@.dom() == set!["app"@],
            r.labels@["app"@]@ == "maestro-checkpoint"@,
            r.annotations@.len() == 0,
    {
        let mut labels: OrderedMap<String> = OrderedMap::new();
        labels.insert_text("app", "maestro-checkpoint");
        proof {
            assert(labels@.dom() =~= set!["app"@]);
        }
        StatefulSetConfig {
            name: String::from_str("maestro-checkpoint-storage"),
            namespace: String::from_str("default"),
            service_name: String::from_str("maestro-checkpoint-storage"),
            replicas: 1,
            pvc_size: String::from_str("1Gi"),
            http_port: 8080,
            labels,
            annotations: OrderedMap::new(),
        }
    }
}

impl StatefulSetConfig {
    pub fn new() -> (r: Self)
        ensures
            r.name@ == "maestro-checkpoint-storage"@,
            r.namespace@ == "default"@,
            r.service_name@ == "maestro-checkpoint-storage"@,
            r.replicas == 1,
            r.pvc_size@ == "1Gi"@,
            r.http_port == 8080,
            r.labels@.dom() == set!["app"@],
            r.labels@["app"@]@ == "maestro-checkpoint"@,
            r.annotations@.len() == 0,
    {
        StatefulSetConfig::default()
    }

    pub fn with_name(self, name: &str) -> (r: Self)
        ensures
            r.name@ == name@,
            r == (StatefulSetConfig { name: r.name, ..self }),
    {
        StatefulSetConfig { name: name.to_string(), ..self }
    }

    pub fn with_namespace(self, namespace: &str) -> (r: Self)
        ensures
            r.namespace@ == namespace@,
            r == (StatefulSetConfig { namespace: r.namespace, ..self }),
    {
        StatefulSetConfig { namespace: namespace.to_string(), ..self }
    }

    pub fn with_service_name(self, service_name: &str) -> (r: Self)
        ensures
            r.service_name@ == service_name@,
            r == (StatefulSetConfig { service_name: r.service_name, ..self }),
    {
        StatefulSetConfig { service_name: service_name.to_string(), ..self }
    }

    pub fn with_replicas(self, replicas: i32) -> (r: Self)
        ensures
            r == (StatefulSetConfig { replicas, ..self }),
    {
        StatefulSetConfig { replicas, ..self }
    }

    pub fn with_pvc_size(self, size: &str) -> (r: Self)
        ensures
            r.pvc_size@ == size@,
            r == (StatefulSetConfig { pvc_size: r.pvc_size, ..self }),
    {
        StatefulSetConfig { pvc_size: size.to_string(), ..self }
    }

    pub fn with_http_port(self, port: u16) -> (r: Self)
        ensures
            r == (StatefulSetConfig { http_port: port, ..self }),
    {
        StatefulSetConfig { http_port: port, ..self }
    }

    pub fn with_label(self, key: &str, value: &str) -> (r: Self)
        ensures
            inserted_text(r.labels, self.labels, key@, value@),
            r == (StatefulSetConfig { labels: r.labels, ..self }),
    {
        let mut s = self;
        s.labels.insert_text(key, value);
        s
    }

    pub fn with_annotation(self, key: &str, value: &str) -> (r: Self)
        ensures
            inserted_text(r.annotations, self.annotations, key@, value@),
            r == (StatefulSetConfig { annotations: r.annotations, ..self }),
    {
        let mut s = self;
        s.annotations.insert_text(key, value);
        s
    }

    /// The labels of the store's objects: the configured labels, with
    /// `app` set to the store's name.
    pub fn object_labels(&self) -> (r: OrderedMap<String>)
        ensures
            inserted_text(r, self.labels, "app"@, self.name@),
    {
        let mut labels = self.labels.duplicate();
        labels.insert_text("app", self.name.as_str());
        labels
    }

    /// The Service in front of the store: named by the service name,
    /// selecting the store's pods by their labels, forwarding its HTTP
    /// port over TCP.
    pub fn service_spec(&self) -> (r: Service)
        ensures
            r.metadata.name matches Some(n) && n@ == self.service_name@,
            r.metadata.namespace matches Some(n) && n@ == self.namespace@,
            labelled_for(r.metadata.labels, self.labels, self.name@),
            match r.metadata.annotations {
                None => self.annotations@.len() == 0,
                Some(a) => self.annotations@.len() > 0 && a@ == self.annotations@,
            },
            r.spec matches Some(spec) && spec.type_ is None && spec.cluster_ip is None
                && labelled_for(spec.selector, self.labels, self.name@) && spec.session_affinity is None
                && spec.external_traffic_policy is None && single_tcp_port(
                spec.ports,
                self.http_port as i32,
                self.http_port as i32,
            ),
    {
        let labels = self.object_labels();
        let selector = labels.duplicate();
        let annotations = if self.annotations.is_empty() {
            None
        } else {
            Some(self.annotations.duplicate())
        };
        let port = K8sServicePort {
            name: None,
            port: self.http_port as i32,
            target_port: Some(self.http_port as i32),
            protocol: Some(String::from_str("TCP")),
        };
        let r = Service {
            metadata: ObjectMeta {
                name: Some(self.service_name.clone()),
                namespace: Some(self.namespace.clone()),
                labels: Some(labels),
                annotations,
            },
            spec: Some(
                ServiceSpec {
                    type_: None,
                    cluster_ip: None,
                    ports: Some(vec![port]),
                    selector: Some(selector),
                    session_affinity: None,
                    external_traffic_policy: None,
                },
            ),
        };
        r
    }

    /// The StatefulSet of the store: its replicas of one SQLite container
    /// on the HTTP port, with health probes, fixed resources and a `data`
    /// volume claimed per replica, labelled and selected by the store's
    /// labels.
    pub fn statefulset_spec(&self) -> (r: StatefulSet)
        ensures
            store_statefulset(r, *self),
    {
        let labels = self.object_labels();
        let selector_labels = labels.duplicate();
        let template_labels = labels.duplicate();
        let annotations = if self.annotations.is_empty() {
            None
        } else {
            Some(self.annotations.duplicate())
        };
        let container = store_container_for(self.http_port);
        let containers = vec![container];
        StatefulSet {
            metadata: ObjectMeta {
                name: Some(self.name.clone()),
                namespace: Some(self.namespace.clone()),
                labels: Some(labels),
                annotations,
            },
            spec: Some(
                StatefulSetSpec {
                    service_name: self.service_name.clone(),
                    replicas: Some(self.replicas),
                    selector: LabelSelector { match_labels: Some(selector_labels), match_expressions: None },
                    template: PodTemplateSpec {
                        metadata: Some(
                            ObjectMeta { name: None, namespace: None, labels: Some(template_labels), annotations: None },
                        ),
                        spec: Some(PodSpec { containers, volumes: None, restart_policy: None }),
                    },
                    volume_claim_templates: Some(store_claim(&self.pvc_size)),
                    pod_management_policy: Some(String::from_str("OrderedReady")),
                },
            ),
        }
    }
}

/// The script that prepares the database and keeps the store's container
/// running, announcing its port.
pub open spec fn store_script(port: u16) -> Seq<char> {
    "mkdir -p /data && sqlite3 /data/checkpoints.db 'CREATE TABLE IF NOT EXISTS checkpoints (workflow_id TEXT PRIMARY KEY, checkpoint_time TEXT, steps TEXT, metadata TEXT, version INTEGER);' && while true; do echo 'HTTP server running on port "@
        + decimal(port as nat) + "'; sleep 300; done"@
}

/// `m` holds exactly the CPU and memory quantities `cpu` and `memory`.
pub open spec fn cpu_and_memory(m: Option<OrderedMap<String>>, cpu: Seq<char>, memory: Seq<char>) -> bool {
    match m {
        Some(m) => m@.dom() == set!["cpu"@, "memory"@] && m@["cpu"@]@ == cpu && m@["memory"@]@ == memory,
        None => false,
    }
}

/// `p` checks the health endpoint of the store on `port`, first after
/// `delay` seconds and then every `period` seconds.
pub open spec fn health_probe(p: Option<Probe>, port: u16, delay: i32, period: i32) -> bool {
    match p {
        Some(p) => {
            &&& p.http_get matches Some(h) && text_is(h.path, "/api/v1/health"@) && h.port == port as i32
            &&& p.initial_delay_seconds == Some(delay)
            &&& p.period_seconds == Some(period)
        },
        None => false,
    }
}

/// `c` is the container of the store serving on `port`.
pub open spec fn store_container(c: Container, port: u16) -> bool {
    &&& c.name@ == "sqlite"@
    &&& text_is(c.image, "alpine:3.19"@)
    &&& c.ports matches Some(ps) && ps@.len() == 1 && ps@[0].container_port == port as i32
        && ps@[0].host_port is None && text_is(ps@[0].protocol, "TCP"@) && ps@[0].name is None
    &&& c.resources matches Some(r) && cpu_and_memory(r.limits, "500m"@, "512Mi"@) && cpu_and_memory(
        r.requests,
        "250m"@,
        "256Mi"@,
    )
    &&& health_probe(c.liveness_probe, port, 10, 10)
    &&& health_probe(c.readiness_probe, port, 5, 5)
    &&& c.command matches Some(cmd) && views(cmd@) == seq!["sh"@, "-c"@, store_script(port)]
    &&& c.volume_mounts matches Some(v) && v@.len() == 1 && v@[0].name@ == "data"@ && v@[0].mount_path@
        == "/data"@
    &&& c.env is None
}

/// `s` asks for `size` of storage, mounted read-write by one node, of the
/// default storage class.
pub open spec fn claim_spec(s: Option<PersistentVolumeClaimSpec>, size: Seq<char>) -> bool {
    match s {
        Some(s) => {
            &&& match s.access_modes {
                Some(m) => views(m@) == seq!["ReadWriteOnce"@],
                None => false,
            }
            &&& s.storage_class_name is None
            &&& match s.resources {
                Some(r) => {
                    &&& r.limits is None
                    &&& match r.requests {
                        Some(q) => q@.dom() == set!["storage"@] && q@["storage"@]@ == size,
                        None => false,
                    }
                },
                None => false,
            }
        },
        None => false,
    }
}

/// `v` is the single claim template of the store: a `data` volume of
/// `size`, mounted read-write by one node.
pub open spec fn store_claims(v: Option<Vec<PersistentVolumeClaim>>, size: Seq<char>) -> bool {
    match v {
        Some(v) => {
            &&& v@.len() == 1
            &&& text_is(v@[0].metadata.name, "data"@)
            &&& v@[0].metadata.namespace is None
            &&& v@[0].metadata.labels is None
            &&& v@[0].metadata.annotations is None
            &&& claim_spec(v@[0].spec, size)
        },
        None => false,
    }
}

/// `st` is the StatefulSet of the store that `c` describes.
pub open spec fn store_statefulset(st: StatefulSet, c: StatefulSetConfig) -> bool {
    &&& text_is(st.metadata.name, c.name@)
    &&& text_is(st.metadata.namespace, c.namespace@)
    &&& labelled_for(st.metadata.labels, c.labels, c.name@)
    &&& match st.metadata.annotations {
        None => c.annotations@.len() == 0,
        Some(a) => c.annotations@.len() > 0 && a@ == c.annotations@,
    }
    &&& match st.spec {
        None => false,
        Some(spec) => {
            &&& spec.service_name@ == c.service_name@
            &&& spec.replicas == Some(c.replicas)
            &&& labelled_for(spec.selector.match_labels, c.labels, c.name@)
            &&& spec.selector.match_expressions is None
            &&& spec.template.metadata matches Some(m) && m.name is None && m.namespace is None
                && m.annotations is None && labelled_for(m.labels, c.labels, c.name@)
            &&& spec.template.spec matches Some(ps) && ps.volumes is None && ps.restart_policy is None
                && ps.containers@.len() == 1 && store_container(ps.containers@[0], c.http_port)
            &&& store_claims(spec.volume_claim_templates, c.pvc_size@)
            &&& text_is(spec.pod_management_policy, "OrderedReady"@)
        },
    }
}

/// The quantities `cpu` and `memory`.
fn cpu_and_memory_map(cpu: &str, memory: &str) -> (r: OrderedMap<String>)
    ensures
        cpu_and_memory(Some(r), cpu@, memory@),
{
    proof {
        reveal_strlit("cpu");
        reveal_strlit("memory");
    }
    let mut m: OrderedMap<String> = OrderedMap::new();
    m.insert_text("cpu", cpu);
    let ghost first = m;
    m.insert_text("memory", memory);
    assert("cpu"@ != "memory"@) by {
        assert("cpu"@.len() != "memory"@.len());
    }
    assert(first@.contains_key("cpu"@));
    assert(m@.dom() =~= set!["cpu"@, "memory"@]);
    m
}

/// A probe of the store's health endpoint on `port`.
fn health_check(port: u16, delay: i32, period: i32) -> (r: Probe)
    ensures
        health_probe(Some(r), port, delay, period),
{
    Probe {
        http_get: Some(HTTPGetAction { path: Some(String::from_str("/api/v1/health")), port: port as i32 }),
        initial_delay_seconds: Some(delay),
        period_seconds: Some(period),
    }
}

/// The script of the store's container.
fn store_script_text(port: u16) -> (r: String)
    ensures
        r@ == store_script(port),
{
    let mut s = String::from_str(
        "mkdir -p /data && sqlite3 /data/checkpoints.db 'CREATE TABLE IF NOT EXISTS checkpoints (workflow_id TEXT PRIMARY KEY, checkpoint_time TEXT, steps TEXT, metadata TEXT, version INTEGER);' && while true; do echo 'HTTP server running on port ",
    );
    s.append(decimal_text(port as u64).as_str());
    s.append("'; sleep 300; done");
    s
}

/// The container of the store serving on `port`.
fn store_container_for(port: u16) -> (r: Container)
    ensures
        store_container(r, port),
{
    let command = vec![String::from_str("sh"), String::from_str("-c"), store_script_text(port)];
    assert(views(command@) =~= seq!["sh"@, "-c"@, store_script(port)]);
    let ports = vec![
        K8sContainerPort {
            container_port: port as i32,
            host_port: None,
            protocol: Some(String::from_str("TCP")),
            name: None,
        },
    ];
    let mounts = vec![VolumeMount { name: String::from_str("data"), mount_path: String::from_str("/data") }];
    Container {
        name: String::from_str("sqlite"),
        image: Some(String::from_str("alpine:3.19")),
        command: Some(command),
        env: None,
        ports: Some(ports),
        resources: Some(
            ResourceRequirements {
                limits: Some(cpu_and_memory_map("500m", "512Mi")),
                requests: Some(cpu_and_memory_map("250m", "256Mi")),
            },
        ),
        volume_mounts: Some(mounts),
        liveness_probe: Some(health_check(port, 10, 10)),
        readiness_probe: Some(health_check(port, 5, 5)),
    }
}

/// The claim template of the store's `data` volume of `size`.
fn store_claim(size: &String) -> (r: Vec<PersistentVolumeClaim>)
    ensures
        store_claims(Some(r), size@),
{
    let mut storage: OrderedMap<String> = OrderedMap::new();
    storage.insert_text("storage", size.as_str());
    assert(storage@.dom() =~= set!["storage"@]);
    let modes = vec![String::from_str("ReadWriteOnce")];
    assert(views(modes@) =~= seq!["ReadWriteOnce"@]);
    vec![
        PersistentVolumeClaim {
            metadata: ObjectMeta { name: Some(String::from_str("data")), namespace: None, labels: None, annotations: None },
            spec: Some(
                PersistentVolumeClaimSpec {
                    access_modes: Some(modes),
                    resources: Some(ResourceRequirements { limits: None, requests: Some(storage) }),
                    storage_class_name: None,
                },
            ),
        },
    ]
}

/// The name of the claim that the first replica of the StatefulSet `name`
/// holds for its `data` volume.
pub fn data_claim_name(name: &str) -> (r: String)
    ensures
        r@ == name@ + "-data-0"@,
{
    let mut s = String::from_str(name);
    s.append("-data-0");
    s
}

/// The replica counts and revisions of a running StatefulSet.
#[derive(Debug, Clone)]
pub struct StatefulSetStatus {
    pub replicas: i32,
    pub ready_replicas: i32,
    pub current_revision: String,
    pub update_revision: String,
}

/// A StatefulSet is ready when it has replicas and all of them are ready
/// (an unreported ready count counts as 0).
pub fn statefulset_ready(ready_replicas: Option<i32>, replicas: i32) -> (r: bool)
    ensures
        r == (ready_replicas.unwrap_or(0) == replicas && replicas > 0),
{
    let ready: i32 = match ready_replicas {
        Some(n) => n,
        None => 0,
    };
    ready == replicas && ready > 0
}

} // verus!

//! A step that runs as a Kubernetes Job.
use vstd::prelude::*;
use crate::entities::{ContainerLike, MaestroContainer};
use crate::ids::{is_hyphenated_id, new_step_id};
use crate::resources::meta::{fails_with, BuildError};
use crate::steps::kubernetes::types::{IngressConfig, JobNameType, RestartPolicy, ServiceConfig};
use crate::steps::traits::{KubeWorkFlowStep, ResourceLimits, WorkFlowStep};
use crate::collections::views;
use crate::resources::network::{Ingress, Service};
use crate::resources::workload::Pod;
use crate::steps::result::{StepResult, StepStatus};
use crate::steps::kubernetes::exposure::{
    default_route_ingress, exposes, labelled_names, pods_labelled, routes_to_default,
    selector_service,
};

verus! {

/// The connection to the cluster that a step runs on.
#[verifier::external_type_specification]
#[verifier::external_body]
pub struct ExClient(kube::Client);

/// The name under which an object is created: the defined name, or the
/// prefix of a generated name.
pub open spec fn name_text(n: JobNameType) -> Seq<char> {
    match n {
        JobNameType::DefinedName(s) => s@,
        JobNameType::GenerateName(s) => s@,
    }
}

/// A copy of the name or prefix of `n`.
pub fn name_of(n: &JobNameType) -> (r: String)
    ensures
        r@ == name_text(*n),
{
    match n {
        JobNameType::DefinedName(s) => s.clone(),
        JobNameType::GenerateName(s) => s.clone(),
    }
}

/// A step that runs as a Job.
pub struct KubeJobStep {
    pub step_id: String,
    pub namespace: String,
    pub name: JobNameType,
    pub containers: Vec<Box<dyn ContainerLike>>,
    pub sidecars: Vec<Box<dyn ContainerLike>>,
    pub backoff_limit: Option<i32>,
    pub restart_policy: RestartPolicy,
    pub ttl_seconds: Option<i32>,
    pub completions: Option<i32>,
    pub parallelism: Option<i32>,
    pub resource_limits: Option<ResourceLimits>,
    pub service_config: Option<ServiceConfig>,
    pub ingress_config: Option<IngressConfig>,
    pub client: kube::Client,
    pub dry_run: bool,
}

impl KubeJobStep {
    /// A Job named `name` in the default namespace, running `image` as its
    /// main container, under a fresh random step id; its pods never restart.
    pub fn new(name: &str, image: &str, client: kube::Client) -> (r: Self)
        ensures
            is_hyphenated_id(r.step_id@),
            r.namespace@ == "default"@,
            r.name matches JobNameType::DefinedName(n) && n@ == name@,
            r.containers@.len() == 1,
            r.sidecars@.len() == 0,
            r.backoff_limit is None,
            r.restart_policy == RestartPolicy::Never,
            r.ttl_seconds is None,
            r.completions is None,
            r.parallelism is None,
            r.resource_limits is None,
            r.service_config is None,
            r.ingress_config is None,
            r.client == client,
            !r.dry_run,
    {
        let container: Box<dyn ContainerLike> = Box::new(MaestroContainer::new(image, "main"));
        let containers: Vec<Box<dyn ContainerLike>> = vec![container];
        assert(containers@.len() == 1);
        KubeJobStep {
            step_id: new_step_id(),
            namespace: String::from_str("default"),
            name: JobNameType::DefinedName(name.to_string()),
            containers,
            sidecars: Vec::new(),
            backoff_limit: None,
            restart_policy: RestartPolicy::Never,
            ttl_seconds: None,
            completions: None,
            parallelism: None,
            resource_limits: None,
            service_config: None,
            ingress_config: None,
            client,
            dry_run: false,
        }
    }

    pub fn builder() -> (r: KubeJobStepBuilder)
        ensures
            job_builder_is_new(r),
    {
        KubeJobStepBuilder::new()
    }

    /// What waiting on the Job reports, from the count of its failed pods
    /// (0 when not reported): a failure with exit code 1 when some pod
    /// failed, a success with exit code 0 otherwise.
    pub fn wait_result(&self, failed: Option<i32>) -> (r: StepResult)
        ensures
            r.step_id@ == self.step_id@,
            r.status == (if failed.unwrap_or(0) > 0 {
                StepStatus::Failure
            } else {
                StepStatus::Success
            }),
            r.exit_code == (if failed.unwrap_or(0) > 0 {
                1i32
            } else {
                0i32
            }),
            r.outputs@.len() == 0,
            r.metadata@.len() == 0,
            r.stdout@.len() == 0,
            r.stderr@.len() == 0,
    {
        let f: i32 = match failed {
            Some(n) => n,
            None => 0,
        };
        if f > 0 {
            StepResult::new(self.step_id.as_str()).with_status(StepStatus::Failure).with_exit_code(1)
        } else {
            StepResult::new(self.step_id.as_str()).with_status(StepStatus::Success).with_exit_code(0)
        }
    }

    /// Whether deleting the step only pretends: when the call asks for a
    /// dry run or the step was built for one.
    pub fn skips_deletion(&self, dry_run: bool) -> (r: bool)
        ensures
            r == (dry_run || self.dry_run),
    {
        dry_run || self.dry_run
    }

    /// The pods of the Job among `pods`: the named ones whose `job-name`
    /// label is the Job's name.
    pub fn owned_pods(&self, pods: &Vec<Pod>) -> (r: Vec<String>)
        ensures
            views(r@) == labelled_names(pods@, "job-name"@, name_text(self.name)),
    {
        let name = name_of(&self.name);
        pods_labelled(pods, "job-name", name.as_str())
    }

    /// The Service that exposes `port` of the Job's pods, selected by their
    /// `job-name` label, in the step's namespace.
    pub fn exposing_service(&self, service_name: &str, port: u16) -> (r: Result<Service, BuildError>)
        ensures
            r matches Ok(svc) && exposes(
                svc,
                service_name@,
                self.namespace@,
                port,
                "job-name"@,
                name_text(self.name),
            ),
    {
        let name = name_of(&self.name);
        selector_service(service_name, self.namespace.as_str(), port, "job-name", name.as_str())
    }

    /// The Ingress that routes every path of `host` to `service_port` of the
    /// service `default-service`, in the step's namespace.
    pub fn exposing_ingress(&self, ingress_name: &str, host: &str, service_port: u16) -> (r: Result<Ingress, BuildError>)
        ensures
            r matches Ok(ing) && routes_to_default(ing, ingress_name@, self.namespace@, host@, service_port),
    {
        default_route_ingress(ingress_name, self.namespace.as_str(), host, service_port)
    }
}

impl WorkFlowStep for KubeJobStep {
    fn step_id(&self) -> (r: &str)
        ensures
            r@ == self.step_id@,
    {
        self.step_id.as_str()
    }

    fn as_kube_job(&self) -> (r: Option<&KubeJobStep>)
        ensures
            r == Some(self),
    {
        Some(self)
    }
}

impl KubeWorkFlowStep for KubeJobStep {
    fn namespace(&self) -> (r: &str)
        ensures
            r@ == self.namespace@,
    {
        self.namespace.as_str()
    }

    /// The name of the object, or the prefix of its generated name.
    fn resource_name(&self) -> (r: &str)
        ensures
            r@ == name_text(self.name),
    {
        match &self.name {
            JobNameType::DefinedName(name) => name.as_str(),
            JobNameType::GenerateName(prefix) => prefix.as_str(),
        }
    }
}

/// The settings of a Job step under construction.
pub struct KubeJobStepBuilder {
    pub namespace: Option<String>,
    pub name: JobNameType,
    pub containers: Vec<Box<dyn ContainerLike>>,
    pub sidecars: Vec<Box<dyn ContainerLike>>,
    pub backoff_limit: Option<i32>,
    pub restart_policy: RestartPolicy,
    pub ttl_seconds: Option<i32>,
    pub completions: Option<i32>,
    pub parallelism: Option<i32>,
    pub resource_limits: Option<ResourceLimits>,
    pub service_config: Option<ServiceConfig>,
    pub ingress_config: Option<IngressConfig>,
    pub client: Option<kube::Client>,
    pub dry_run: bool,
}

/// `b` has no setting made: an empty defined name, pods that never restart.
pub open spec fn job_builder_is_new(b: KubeJobStepBuilder) -> bool {
    &&& b.namespace is None
    &&& b.name matches JobNameType::DefinedName(n) && n@.len() == 0
    &&& b.containers@.len() == 0
    &&& b.sidecars@.len() == 0
    &&& b.backoff_limit is None
    &&& b.restart_policy == RestartPolicy::Never
    &&& b.ttl_seconds is None
    &&& b.completions is None
    &&& b.parallelism is None
    &&& b.resource_limits is None
    &&& b.service_config is None
    &&& b.ingress_config is None
    &&& b.client is None
    &&& !b.dry_run
}

/// The first problem of a step's settings, in the order in which they are
/// checked: the namespace, a container, the name or prefix, the client.
pub open spec fn step_problem(
    namespace: Option<String>,
    containers: nat,
    name: JobNameType,
    has_client: bool,
    kind: Seq<char>,
) -> Option<Seq<char>> {
    if namespace is None {
        Some("Namespace is required"@)
    } else if containers == 0 {
        Some("At least one container is required"@)
    } else if name is DefinedName && name_text(name).len() == 0 {
        Some(kind + " name is required"@)
    } else if name is GenerateName && name_text(name).len() == 0 {
        Some(kind + " name prefix is required"@)
    } else if !has_client {
        Some("Client is required"@)
    } else {
        None
    }
}

/// The first problem of the settings `namespace`, `containers`, `name` and
/// `has_client`, if any, for an object of kind `kind`.
pub fn check_step_settings(
    namespace: &Option<String>,
    containers: usize,
    name: &JobNameType,
    has_client: bool,
    kind: &str,
) -> (r: Option<BuildError>)
    ensures
        match step_problem(*namespace, containers as nat, *name, has_client, kind@) {
            None => r is None,
            Some(m) => r matches Some(e) && e.message@ == m,
        },
{
    if namespace.is_none() {
        return Some(BuildError::new("Namespace is required"));
    }
    if containers == 0 {
        return Some(BuildError::new("At least one container is required"));
    }
    match name {
        JobNameType::DefinedName(s) => {
            if s.as_str().unicode_len() == 0 {
                let mut m = String::from_str(kind);
                m.append(" name is required");
                return Some(BuildError { message: m });
            }
        },
        JobNameType::GenerateName(s) => {
            if s.as_str().unicode_len() == 0 {
                let mut m = String::from_str(kind);
                m.append(" name prefix is required");
                return Some(BuildError { message: m });
            }
        },
    }
    if !has_client {
        return Some(BuildError::new("Client is required"));
    }
    None
}

impl KubeJobStepBuilder {
    /// No setting made yet.
    pub fn new() -> (r: Self)
        ensures
            job_builder_is_new(r),
    {
        KubeJobStepBuilder {
            namespace: None,
            name: JobNameType::DefinedName(String::new()),
            containers: Vec::new(),
            sidecars: Vec::new(),
            backoff_limit: None,
            restart_policy: RestartPolicy::Never,
            ttl_seconds: None,
            completions: None,
            parallelism: None,
            resource_limits: None,
            service_config: None,
            ingress_config: None,
            client: None,
            dry_run: false,
        }
    }

    /// Names the Job exactly.
    pub fn with_name(self, name: &str) -> (r: Self)
        ensures
            r.name matches JobNameType::DefinedName(n) && n@ == name@,
            r == (KubeJobStepBuilder { name: r.name, ..self }),
    {
        KubeJobStepBuilder { name: JobNameType::DefinedName(name.to_string()), ..self }
    }

    pub fn with_name_type(self, name_type: JobNameType) -> (r: Self)
        ensures
            r == (KubeJobStepBuilder { name: name_type, ..self }),
    {
        KubeJobStepBuilder { name: name_type, ..self }
    }

    pub fn with_namespace(self, namespace: &str) -> (r: Self)
        ensures
            r.namespace matches Some(n) && n@ == namespace@,
            r == (KubeJobStepBuilder { namespace: r.namespace, ..self }),
    {
        KubeJobStepBuilder { namespace: Some(namespace.to_string()), ..self }
    }

    pub fn add_container(self, container: Box<dyn ContainerLike>) -> (r: Self)
        ensures
            r.containers@ == self.containers@.push(container),
            r == (KubeJobStepBuilder { containers: r.containers, ..self }),
    {
        let mut s = self;
        s.containers.push(container);
        s
    }

    pub fn add_sidecar(self, sidecar: Box<dyn ContainerLike>) -> (r: Self)
        ensures
            r.sidecars@ == self.sidecars@.push(sidecar),
            r == (KubeJobStepBuilder { sidecars: r.sidecars, ..self }),
    {
        let mut s = self;
        s.sidecars.push(sidecar);
        s
    }

    pub fn with_backoff_limit(self, limit: i32) -> (r: Self)
        ensures
            r == (KubeJobStepBuilder { backoff_limit: Some(limit), ..self }),
    {
        KubeJobStepBuilder { backoff_limit: Some(limit), ..self }
    }

    pub fn with_restart_policy(self, policy: RestartPolicy) -> (r: Self)
        ensures
            r == (KubeJobStepBuilder { restart_policy: policy, ..self }),
    {
        KubeJobStepBuilder { restart_policy: policy, ..self }
    }

    pub fn with_ttl_seconds(self, ttl: i32) -> (r: Self)
        ensures
            r == (KubeJobStepBuilder { ttl_seconds: Some(ttl), ..self }),
    {
        KubeJobStepBuilder { ttl_seconds: Some(ttl), ..self }
    }

    pub fn with_completions(self, completions: i32) -> (r: Self)
        ensures
            r == (KubeJobStepBuilder { completions: Some(completions), ..self }),
    {
        KubeJobStepBuilder { completions: Some(completions), ..self }
    }

    pub fn with_parallelism(self, parallelism: i32) -> (r: Self)
        ensures
            r == (KubeJobStepBuilder { parallelism: Some(parallelism), ..self }),
    {
        KubeJobStepBuilder { parallelism: Some(parallelism), ..self }
    }

    pub fn with_resource_limits(self, limits: ResourceLimits) -> (r: Self)
        ensures
            r == (KubeJobStepBuilder { resource_limits: Some(limits), ..self }),
    {
        KubeJobStepBuilder { resource_limits: Some(limits), ..self }
    }

    pub fn with_service_config(self, config: ServiceConfig) -> (r: Self)
        ensures
            r == (KubeJobStepBuilder { service_config: Some(config), ..self }),
    {
        KubeJobStepBuilder { service_config: Some(config), ..self }
    }

    pub fn with_ingress_config(self, config: IngressConfig) -> (r: Self)
        ensures
            r == (KubeJobStepBuilder { ingress_config: Some(config), ..self }),
    {
        KubeJobStepBuilder { ingress_config: Some(config), ..self }
    }

    pub fn with_client(self, client: kube::Client) -> (r: Self)
        ensures
            r == (KubeJobStepBuilder { client: Some(client), ..self }),
    {
        KubeJobStepBuilder { client: Some(client), ..self }
    }

    pub fn with_dry_run(self, dry_run: bool) -> (r: Self)
        ensures
            r == (KubeJobStepBuilder { dry_run, ..self }),
    {
        KubeJobStepBuilder { dry_run, ..self }
    }

    /// The step, named by its Job name (or prefix): the namespace, a
    /// container, a non-empty name and the client are required, in that
    /// order.
    pub fn build(self) -> (r: Result<KubeJobStep, BuildError>)
        ensures
            match step_problem(
                self.namespace,
                self.containers@.len(),
                self.name,
                self.client is Some,
                "Job"@,
            ) {
                Some(m) => fails_with(r, m),
                None => r matches Ok(step) && {
                    &&& step.step_id@ == name_text(self.name)
                    &&& Some(step.namespace) == self.namespace
                    &&& step.name == self.name
                    &&& step.containers == self.containers
                    &&& step.sidecars == self.sidecars
                    &&& step.backoff_limit == self.backoff_limit
                    &&& step.restart_policy == self.restart_policy
                    &&& step.ttl_seconds == self.ttl_seconds
                    &&& step.completions == self.completions
                    &&& step.parallelism == self.parallelism
                    &&& step.resource_limits == self.resource_limits
                    &&& step.service_config == self.service_config
                    &&& step.ingress_config == self.ingress_config
                    &&& Some(step.client) == self.client
                    &&& step.dry_run == self.dry_run
                },
            },
    {
        match check_step_settings(
            &self.namespace,
            self.containers.len(),
            &self.name,
            self.client.is_some(),
            "Job",
        ) {
            Some(e) => {
                return Err(e);
            },
            None => {},
        }
        let step_id = name_of(&self.name);
        let KubeJobStepBuilder {
            namespace,
            name,
            containers,
            sidecars,
            backoff_limit,
            restart_policy,
            ttl_seconds,
            completions,
            parallelism,
            resource_limits,
            service_config,
            ingress_config,
            client,
            dry_run,
        } = self;
        match (namespace, client) {
            (Some(namespace), Some(client)) => Ok(
                KubeJobStep {
                    step_id,
                    namespace,
                    name,
                    containers,
                    sidecars,
                    backoff_limit,
                    restart_policy,
                    ttl_seconds,
                    completions,
                    parallelism,
                    resource_limits,
                    service_config,
                    ingress_config,
                    client,
                    dry_run,
                },
            ),
            _ => Err(BuildError::new("Client is required")),
        }
    }
}

impl Default for KubeJobStepBuilder {
    fn default() -> (r: Self)
        ensures
            job_builder_is_new(r),
    {
        KubeJobStepBuilder::new()
    }
}

} // verus!

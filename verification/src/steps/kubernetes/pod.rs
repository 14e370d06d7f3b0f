//! A step that runs as a bare Kubernetes Pod.
use vstd::prelude::*;
use crate::entities::ContainerLike;
use crate::resources::meta::{fails_with, BuildError};
use crate::steps::kubernetes::job::{check_step_settings, name_of, name_text, step_problem};
use crate::steps::kubernetes::types::{IngressConfig, JobNameType, RestartPolicy, ServiceConfig};
use crate::steps::traits::{KubeWorkFlowStep, ResourceLimits, WorkFlowStep};
use crate::resources::network::{Ingress, Service};
use crate::steps::result::{StepResult, StepStatus};
use crate::steps::kubernetes::exposure::{
    default_route_ingress, exposes, routes_to_default, selector_service,
};

verus! {

/// A step that runs as a Pod.
pub struct KubePodStep {
    pub step_id: String,
    pub namespace: String,
    pub name: JobNameType,
    pub containers: Vec<Box<dyn ContainerLike>>,
    pub sidecars: Vec<Box<dyn ContainerLike>>,
    pub restart_policy: RestartPolicy,
    pub resource_limits: Option<ResourceLimits>,
    pub service_config: Option<ServiceConfig>,
    pub ingress_config: Option<IngressConfig>,
    pub client: kube::Client,
    pub dry_run: bool,
}

impl KubePodStep {
    pub fn builder() -> (r: KubePodStepBuilder)
        ensures
            pod_builder_is_new(r),
    {
        KubePodStepBuilder::new()
    }

    /// What waiting on the pod reports, from its phase: a success with exit
    /// code 0 when it succeeded, a failure with exit code 1 in any other
    /// phase.
    pub fn wait_result(&self, phase: &str) -> (r: StepResult)
        ensures
            r.step_id@ == self.step_id@,
            r.status == (if phase@ == "Succeeded"@ {
                StepStatus::Success
            } else {
                StepStatus::Failure
            }),
            r.exit_code == (if phase@ == "Succeeded"@ {
                0i32
            } else {
                1i32
            }),
            r.outputs@.len() == 0,
            r.metadata@.len() == 0,
            r.stdout@.len() == 0,
            r.stderr@.len() == 0,
    {
        if phase.to_string() == String::from_str("Succeeded") {
            StepResult::new(self.step_id.as_str()).with_status(StepStatus::Success).with_exit_code(0)
        } else {
            StepResult::new(self.step_id.as_str()).with_status(StepStatus::Failure).with_exit_code(1)
        }
    }

    /// Whether deleting the pod only pretends: when the call asks for a dry
    /// run or the step was built for one.
    pub fn skips_deletion(&self, dry_run: bool) -> (r: bool)
        ensures
            r == (dry_run || self.dry_run),
    {
        dry_run || self.dry_run
    }

    /// The Service that exposes `port` of the pod, selected by its
    /// `pod-name` label, in the step's namespace.
    pub fn exposing_service(&self, service_name: &str, port: u16) -> (r: Result<Service, BuildError>)
        ensures
            r matches Ok(svc) && exposes(
                svc,
                service_name@,
                self.namespace@,
                port,
                "pod-name"@,
                name_text(self.name),
            ),
    {
        let name = name_of(&self.name);
        selector_service(service_name, self.namespace.as_str(), port, "pod-name", name.as_str())
    }

    /// The Ingress that routes every path of `host` to `service_port` of the
    /// service `default-service`, in the step's namespace.
    pub fn exposing_ingress(&self, ingress_name: &str, host: &str, service_port: u16) -> (r: Result<Ingress, BuildError>)
        ensures
            r matches Ok(ing) && routes_to_default(ing, ingress_name@, self.namespace@, host@, service_port),
    {
        default_route_ingress(ingress_name, self.namespace.as_str(), host, service_port)
    }
}

impl WorkFlowStep for KubePodStep {
    fn step_id(&self) -> (r: &str)
        ensures
            r@ == self.step_id@,
    {
        self.step_id.as_str()
    }

    fn as_kube_pod(&self) -> (r: Option<&KubePodStep>)
        ensures
            r == Some(self),
    {
        Some(self)
    }
}

impl KubeWorkFlowStep for KubePodStep {
    fn namespace(&self) -> (r: &str)
        ensures
            r@ == self.namespace@,
    {
        self.namespace.as_str()
    }

    /// The name of the object, or the prefix of its generated name.
    fn resource_name(&self) -> (r: &str)
        ensures
            r@ == name_text(self.name),
    {
        match &self.name {
            JobNameType::DefinedName(name) => name.as_str(),
            JobNameType::GenerateName(prefix) => prefix.as_str(),
        }
    }
}

/// The settings of a Pod step under construction.
pub struct KubePodStepBuilder {
    pub namespace: Option<String>,
    pub name: JobNameType,
    pub containers: Vec<Box<dyn ContainerLike>>,
    pub sidecars: Vec<Box<dyn ContainerLike>>,
    pub restart_policy: RestartPolicy,
    pub resource_limits: Option<ResourceLimits>,
    pub service_config: Option<ServiceConfig>,
    pub ingress_config: Option<IngressConfig>,
    pub client: Option<kube::Client>,
    pub dry_run: bool,
}

/// `b` has no setting made: an empty defined name, pods that never restart.
pub open spec fn pod_builder_is_new(b: KubePodStepBuilder) -> bool {
    &&& b.namespace is None
    &&& b.name matches JobNameType::DefinedName(n) && n@.len() == 0
    &&& b.containers@.len() == 0
    &&& b.sidecars@.len() == 0
    &&& b.restart_policy == RestartPolicy::Never
    &&& b.resource_limits is None
    &&& b.service_config is None
    &&& b.ingress_config is None
    &&& b.client is None
    &&& !b.dry_run
}

impl KubePodStepBuilder {
    /// No setting made yet.
    pub fn new() -> (r: Self)
        ensures
            pod_builder_is_new(r),
    {
        KubePodStepBuilder {
            namespace: None,
            name: JobNameType::DefinedName(String::new()),
            containers: Vec::new(),
            sidecars: Vec::new(),
            restart_policy: RestartPolicy::Never,
            resource_limits: None,
            service_config: None,
            ingress_config: None,
            client: None,
            dry_run: false,
        }
    }

    /// Names the Pod exactly.
    pub fn with_name(self, name: &str) -> (r: Self)
        ensures
            r.name matches JobNameType::DefinedName(n) && n@ == name@,
            r == (KubePodStepBuilder { name: r.name, ..self }),
    {
        KubePodStepBuilder { name: JobNameType::DefinedName(name.to_string()), ..self }
    }

    pub fn with_name_type(self, name_type: JobNameType) -> (r: Self)
        ensures
            r == (KubePodStepBuilder { name: name_type, ..self }),
    {
        KubePodStepBuilder { name: name_type, ..self }
    }

    pub fn with_namespace(self, namespace: &str) -> (r: Self)
        ensures
            r.namespace matches Some(n) && n@ == namespace@,
            r == (KubePodStepBuilder { namespace: r.namespace, ..self }),
    {
        KubePodStepBuilder { namespace: Some(namespace.to_string()), ..self }
    }

    pub fn add_container(self, container: Box<dyn ContainerLike>) -> (r: Self)
        ensures
            r.containers@ == self.containers@.push(container),
            r == (KubePodStepBuilder { containers: r.containers, ..self }),
    {
        let mut s = self;
        s.containers.push(container);
        s
    }

    pub fn add_sidecar(self, sidecar: Box<dyn ContainerLike>) -> (r: Self)
        ensures
            r.sidecars@ == self.sidecars@.push(sidecar),
            r == (KubePodStepBuilder { sidecars: r.sidecars, ..self }),
    {
        let mut s = self;
        s.sidecars.push(sidecar);
        s
    }

    pub fn with_restart_policy(self, policy: RestartPolicy) -> (r: Self)
        ensures
            r == (KubePodStepBuilder { restart_policy: policy, ..self }),
    {
        KubePodStepBuilder { restart_policy: policy, ..self }
    }

    pub fn with_resource_limits(self, limits: ResourceLimits) -> (r: Self)
        ensures
            r == (KubePodStepBuilder { resource_limits: Some(limits), ..self }),
    {
        KubePodStepBuilder { resource_limits: Some(limits), ..self }
    }

    pub fn with_service_config(self, config: ServiceConfig) -> (r: Self)
        ensures
            r == (KubePodStepBuilder { service_config: Some(config), ..self }),
    {
        KubePodStepBuilder { service_config: Some(config), ..self }
    }

    pub fn with_ingress_config(self, config: IngressConfig) -> (r: Self)
        ensures
            r == (KubePodStepBuilder { ingress_config: Some(config), ..self }),
    {
        KubePodStepBuilder { ingress_config: Some(config), ..self }
    }

    pub fn with_client(self, client: kube::Client) -> (r: Self)
        ensures
            r == (KubePodStepBuilder { client: Some(client), ..self }),
    {
        KubePodStepBuilder { client: Some(client), ..self }
    }

    pub fn with_dry_run(self, dry_run: bool) -> (r: Self)
        ensures
            r == (KubePodStepBuilder { dry_run, ..self }),
    {
        KubePodStepBuilder { dry_run, ..self }
    }

    /// The step, named by its Pod name (or prefix): the namespace, a
    /// container, a non-empty name and the client are required, in that
    /// order.
    pub fn build(self) -> (r: Result<KubePodStep, BuildError>)
        ensures
            match step_problem(
                self.namespace,
                self.containers@.len(),
                self.name,
                self.client is Some,
                "Pod"@,
            ) {
                Some(m) => fails_with(r, m),
                None => r matches Ok(step) && {
                    &&& step.step_id@ == name_text(self.name)
                    &&& Some(step.namespace) == self.namespace
                    &&& step.name == self.name
                    &&& step.containers == self.containers
                    &&& step.sidecars == self.sidecars
                    &&& step.restart_policy == self.restart_policy
                    &&& step.resource_limits == self.resource_limits
                    &&& step.service_config == self.service_config
                    &&& step.ingress_config == self.ingress_config
                    &&& Some(step.client) == self.client
                    &&& step.dry_run == self.dry_run
                },
            },
    {
        match check_step_settings(
            &self.namespace,
            self.containers.len(),
            &self.name,
            self.client.is_some(),
            "Pod",
        ) {
            Some(e) => {
                return Err(e);
            },
            None => {},
        }
        let step_id = name_of(&self.name);
        let KubePodStepBuilder {
            namespace,
            name,
            containers,
            sidecars,
            restart_policy,
            resource_limits,
            service_config,
            ingress_config,
            client,
            dry_run,
        } = self;
        match (namespace, client) {
            (Some(namespace), Some(client)) => Ok(
                KubePodStep {
                    step_id,
                    namespace,
                    name,
                    containers,
                    sidecars,
                    restart_policy,
                    resource_limits,
                    service_config,
                    ingress_config,
                    client,
                    dry_run,
                },
            ),
            _ => Err(BuildError::new("Client is required")),
        }
    }
}

impl Default for KubePodStepBuilder {
    fn default() -> (r: Self)
        ensures
            pod_builder_is_new(r),
    {
        KubePodStepBuilder::new()
    }
}

} // verus!

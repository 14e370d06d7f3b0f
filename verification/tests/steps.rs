use k8s_maestro::collections::OrderedMap;
use k8s_maestro::resources::meta::ObjectMeta;
use k8s_maestro::resources::workload::Pod;
use k8s_maestro::steps::exec::package_loader::{PackageCache, PackageSource};
use k8s_maestro::steps::kubernetes::exposure::{pods_labelled, service_exposed_message, ingress_exposed_message};
use k8s_maestro::steps::kubernetes::sidecar::{ContainerPort, SidecarBuilder, SidecarContainer};
use k8s_maestro::steps::kubernetes::types::{IngressConfig, JobNameType, RestartPolicy, ServiceConfig};
use k8s_maestro::steps::result::{JsonValue, StepResult, StepStatus};
use k8s_maestro::steps::traits::{
    ConditionalStep, HasResourceLimits, KubeWorkFlowStep, LogStreamOptions, ResourceLimitedStep,
    ResourceLimits, StepWithOutputs, WorkFlowStep,
};
use k8s_maestro::entities::ContainerLike;

fn text_map(entries: &[(&str, &str)]) -> OrderedMap<String> {
    let mut m = OrderedMap::new();
    for (k, v) in entries {
        m.insert(k.to_string(), v.to_string());
    }
    m
}

#[test]
fn test_package_source_display() {
    let git_source = PackageSource::Git {
        url: "https://github.com/test/repo".to_string(),
        branch: Some("main".to_string()),
        path: Some("packages/core".to_string()),
    };
    assert!(matches!(git_source, PackageSource::Git { .. }));

    let remote_source = PackageSource::RemotePath { url: "https://example.com/package.tar.gz".to_string() };
    assert!(matches!(remote_source, PackageSource::RemotePath { .. }));

    let local_source = PackageSource::LocalPath { path: "/local/packages/core".to_string() };
    assert!(matches!(local_source, PackageSource::LocalPath { .. }));

    let registry_source = PackageSource::Registry {
        registry: "https://registry.io".to_string(),
        package_name: "my-package".to_string(),
        version: "1.0.0".to_string(),
    };
    assert!(matches!(registry_source, PackageSource::Registry { .. }));
}

#[test]
fn test_package_cache_key_generation() {
    let source1 = PackageSource::Git {
        url: "https://github.com/test/repo".to_string(),
        branch: Some("main".to_string()),
        path: Some("packages/core".to_string()),
    };
    let key1 = PackageCache::generate_cache_key(&source1);

    let source2 = PackageSource::Git {
        url: "https://github.com/test/repo".to_string(),
        branch: Some("main".to_string()),
        path: Some("packages/core".to_string()),
    };
    let key2 = PackageCache::generate_cache_key(&source2);

    assert_eq!(key1, key2);

    let source3 = PackageSource::Git {
        url: "https://github.com/test/repo".to_string(),
        branch: Some("develop".to_string()),
        path: None,
    };
    let key3 = PackageCache::generate_cache_key(&source3);

    assert_ne!(key1, key3);
}

#[test]
fn test_package_cache_key_is_sha256_hex() {
    let source = PackageSource::RemotePath { url: "abc".to_string() };
    let key = PackageCache::generate_cache_key(&source);
    assert_eq!(key, "ba7816bf8f01cfea414140de5dae2223b00361a396177a9cb410ff61f20015ad");
}

#[test]
fn test_package_cache_get_path() {
    let cache = PackageCache::in_temp_dir("/tmp");

    let source = PackageSource::RemotePath { url: "https://example.com/package.tar.gz".to_string() };
    let path = cache.get_cache_path(&source);

    assert!(path.starts_with(&cache.cache_dir));
    assert!(path.contains("k8s-maestro"));
}

#[test]
fn test_package_cache_path_ends_in_hex_key() {
    let cache = PackageCache::in_temp_dir("/tmp");
    let source = PackageSource::RemotePath { url: "https://example.com/package.tar.gz".to_string() };
    let path = cache.get_cache_path(&source);
    let key = path.rsplit('/').next().unwrap();
    assert_eq!(key.len(), 64);
    assert!(key.chars().all(|c| c.is_ascii_digit() || ('a'..='f').contains(&c)));
    assert_eq!(key, PackageCache::generate_cache_key(&source));
    assert_eq!(path, format!("/tmp/k8s-maestro/cache/{}", key));
    assert_eq!(cache.get_cache_path(&source.clone()), path);
}

#[test]
fn test_sidecar_container_creation() {
    let sidecar = SidecarContainer::new("nginx:latest", "nginx-sidecar");
    assert_eq!(sidecar.name, "nginx-sidecar");
    assert_eq!(sidecar.image, "nginx:latest");
    assert!(sidecar.config.is_empty());
    assert!(sidecar.ports.is_empty());
    assert!(sidecar.env.is_empty());
    assert!(sidecar.volume_mounts.is_empty());
    assert!(sidecar.resource_limits.is_none());
}

#[test]
fn test_container_port_creation() {
    let port = ContainerPort::new(8080);
    assert_eq!(port.container_port, 8080);
    assert!(port.host_port.is_none());
    assert_eq!(port.protocol, Some("TCP".to_string()));
    assert!(port.name.is_none());
}

#[test]
fn test_container_port_with_options() {
    let port = ContainerPort::new(8080).with_host_port(80).with_protocol("UDP").with_name("http");
    assert_eq!(port.container_port, 8080);
    assert_eq!(port.host_port, Some(80));
    assert_eq!(port.protocol, Some("UDP".to_string()));
    assert_eq!(port.name, Some("http".to_string()));
}

#[test]
fn test_sidecar_container_with_config() {
    let sidecar = SidecarContainer::new("fluentd:v1.14", "log-collector")
        .with_config("buffer_size", JsonValue::Number(1024))
        .with_config("log_level", JsonValue::String("debug".to_string()));
    assert_eq!(sidecar.config.len(), 2);
    assert_eq!(sidecar.config.get("buffer_size"), Some(&JsonValue::Number(1024)));
}

#[test]
fn test_sidecar_builder_creates_valid_sidecar() {
    let builder = SidecarBuilder::new("nginx:latest").with_name("proxy").with_port(8080).with_env("PROXY_MODE", "reverse");
    let sidecar = builder.build().unwrap();
    assert_eq!(sidecar.name, "proxy");
    assert_eq!(sidecar.image, "nginx:latest");
    assert_eq!(sidecar.ports.len(), 1);
    assert_eq!(sidecar.ports[0].container_port, 8080);
    assert_eq!(sidecar.env.get("PROXY_MODE"), Some(&"reverse".to_string()));
}

#[test]
fn test_sidecar_builder_validation_missing_name() {
    let builder = SidecarBuilder::new("nginx:latest").with_port(8080);
    let result = builder.build();
    assert!(result.is_err());
    assert!(result.unwrap_err().to_string().contains("Name is required"));
}

#[test]
fn test_sidecar_builder_validation_missing_image() {
    let sidecar = SidecarContainer::new("nginx:latest", "test");
    assert_eq!(sidecar.name, "test");
    let built = SidecarBuilder::new("").with_name("x").build().unwrap();
    assert_eq!(built.image, "");
}

#[test]
fn test_sidecar_container_like() {
    let sidecar = SidecarContainer::new("nginx:latest", "test-sidecar");
    let k8s_container = sidecar.as_container();
    assert_eq!(k8s_container.name, "test-sidecar");
    assert_eq!(k8s_container.image, Some("nginx:latest".to_string()));
}

#[test]
fn test_sidecar_container_resources() {
    let sidecar = SidecarContainer::new("img", "s")
        .with_env("B", "2")
        .with_env("A", "1")
        .with_resource_limits(ResourceLimits::new().with_cpu("500m").with_memory_request("64Mi"));
    let c = sidecar.to_container();
    let env = c.env.unwrap();
    assert_eq!(env.len(), 2);
    assert_eq!(env[0].name, "A");
    assert_eq!(env[0].value, Some("1".to_string()));
    let resources = c.resources.unwrap();
    assert_eq!(resources.limits.unwrap().get("cpu").unwrap(), "500m");
    assert_eq!(resources.requests.unwrap().get("memory").unwrap(), "64Mi");
}

#[test]
fn test_job_name_type_defined() {
    let name_type = JobNameType::DefinedName("my-job".to_string());
    assert!(name_type.is_defined());
    assert!(!name_type.is_generated());
}

#[test]
fn test_job_name_type_generated() {
    let name_type = JobNameType::GenerateName("job-".to_string());
    assert!(!name_type.is_defined());
    assert!(name_type.is_generated());
}

#[test]
fn test_restart_policy_k8s_str() {
    assert_eq!(RestartPolicy::Never.as_k8s_str(), "Never");
    assert_eq!(RestartPolicy::OnFailure.as_k8s_str(), "OnFailure");
    assert_eq!(RestartPolicy::Always.as_k8s_str(), "Always");
}

#[test]
fn test_service_config_basic() {
    let config = ServiceConfig::new("my-service", 8080);
    assert_eq!(config.service_name, "my-service");
    assert_eq!(config.port, 8080);
    assert!(config.target_port.is_none());
}

#[test]
fn test_service_config_with_target_port() {
    let config = ServiceConfig::new("my-service", 80).with_target_port(8080);
    assert_eq!(config.port, 80);
    assert_eq!(config.target_port, Some(8080));
}

#[test]
fn test_service_config_with_selector() {
    let selector = text_map(&[("app", "myapp")]);
    let config = ServiceConfig::new("my-service", 8080).with_selector(selector.clone());
    assert_eq!(config.selector, selector);
}

#[test]
fn test_service_config_build_service() {
    let config = ServiceConfig::new("svc", 80).with_target_port(8080).with_selector(text_map(&[("app", "x")]));
    let svc = config.build_service("ns").unwrap();
    assert_eq!(svc.metadata.namespace, Some("ns".to_string()));
    let port = &svc.spec.as_ref().unwrap().ports.as_ref().unwrap()[0];
    assert_eq!(port.port, 80);
    assert_eq!(port.target_port, Some(8080));
}

#[test]
fn test_ingress_config_basic() {
    let config = IngressConfig::new("my-ingress", "example.com", "my-service", 80);
    assert_eq!(config.ingress_name, "my-ingress");
    assert_eq!(config.host, "example.com");
    assert_eq!(config.service_name, "my-service");
    assert_eq!(config.service_port, 80);
    assert_eq!(config.path, "/");
    assert!(config.tls_secret.is_none());
}

#[test]
fn test_ingress_config_with_path() {
    let config = IngressConfig::new("my-ingress", "example.com", "my-service", 80).with_path("/api");
    assert_eq!(config.path, "/api");
}

#[test]
fn test_ingress_config_with_tls() {
    let config = IngressConfig::new("my-ingress", "example.com", "my-service", 80).with_tls_secret("tls-secret");
    assert_eq!(config.tls_secret, Some("tls-secret".to_string()));
}

#[test]
fn test_ingress_config_with_annotations() {
    let annotations = text_map(&[("nginx.ingress.kubernetes.io/rewrite-target", "/")]);
    let config = IngressConfig::new("my-ingress", "example.com", "my-service", 80).with_annotations(annotations.clone());
    assert_eq!(config.annotations, Some(annotations));
}

#[test]
fn test_exposure_helpers() {
    let labelled = Pod {
        metadata: ObjectMeta { name: Some("p1".to_string()), namespace: None, labels: Some(text_map(&[("job-name", "j")])), annotations: None },
        spec: None,
        status: None,
    };
    let other = Pod {
        metadata: ObjectMeta { name: Some("p2".to_string()), namespace: None, labels: Some(text_map(&[("job-name", "k")])), annotations: None },
        spec: None,
        status: None,
    };
    let unnamed = Pod {
        metadata: ObjectMeta { name: None, namespace: None, labels: Some(text_map(&[("job-name", "j")])), annotations: None },
        spec: None,
        status: None,
    };
    let names = pods_labelled(&vec![labelled, other, unnamed], "job-name", "j");
    assert_eq!(names, vec!["p1".to_string()]);
    assert_eq!(service_exposed_message("web", 8080), "Service web exposed on port 8080");
    assert_eq!(ingress_exposed_message("ing", "example.com"), "Ingress ing for host example.com");
}

#[derive(Debug, Clone)]
struct MockStep {
    id: String,
}

impl WorkFlowStep for MockStep {
    fn step_id(&self) -> &str {
        &self.id
    }
}

#[derive(Debug, Clone)]
struct MockKubeStep {
    id: String,
    namespace: String,
    resource_name: String,
}

impl WorkFlowStep for MockKubeStep {
    fn step_id(&self) -> &str {
        &self.id
    }
}

impl KubeWorkFlowStep for MockKubeStep {
    fn namespace(&self) -> &str {
        &self.namespace
    }

    fn resource_name(&self) -> &str {
        &self.resource_name
    }
}

struct MockConditionalStep {
    id: String,
    condition: Option<Box<dyn Fn(&dyn WorkFlowStep) -> bool + Send + Sync>>,
}

impl MockConditionalStep {
    fn new(id: impl Into<String>) -> Self {
        Self { id: id.into(), condition: None }
    }
}

impl WorkFlowStep for MockConditionalStep {
    fn step_id(&self) -> &str {
        &self.id
    }
}

impl ConditionalStep for MockConditionalStep {
    fn with_execution_condition<F>(mut self, condition: F) -> Self
    where
        F: Fn(&dyn WorkFlowStep) -> bool + Send + Sync + 'static,
    {
        self.condition = Some(Box::new(condition));
        self
    }

    fn should_execute(&self) -> bool {
        self.condition.as_ref().map(|c| c(self)).unwrap_or(true)
    }
}

#[derive(Debug, Clone)]
struct MockStepWithOutputs {
    id: String,
    result: StepResult,
}

impl MockStepWithOutputs {
    fn new(id: impl Into<String>) -> Self {
        let id_str = id.into();
        Self { id: id_str.clone(), result: StepResult::new(&id_str) }
    }

    fn with_result(mut self, result: StepResult) -> Self {
        self.result = result;
        self
    }
}

impl WorkFlowStep for MockStepWithOutputs {
    fn step_id(&self) -> &str {
        &self.id
    }
}

impl StepWithOutputs for MockStepWithOutputs {
    fn get_step_result(&self) -> StepResult {
        self.result.clone()
    }

    fn get_output(&self, key: &str) -> Option<JsonValue> {
        self.result.outputs.get(key).cloned()
    }
}

#[derive(Debug, Clone)]
struct MockResourceLimitedStep {
    id: String,
    limits: Option<ResourceLimits>,
}

impl MockResourceLimitedStep {
    fn new(id: impl Into<String>) -> Self {
        Self { id: id.into(), limits: None }
    }
}

impl WorkFlowStep for MockResourceLimitedStep {
    fn step_id(&self) -> &str {
        &self.id
    }
}

impl ResourceLimitedStep for MockResourceLimitedStep {
    fn with_resource_limits(mut self, limits: ResourceLimits) -> Self {
        self.limits = Some(limits);
        self
    }

    fn resource_limits(&self) -> Option<&ResourceLimits> {
        self.limits.as_ref()
    }
}

#[derive(Debug, Clone)]
struct CompositeStep {
    id: String,
}

impl WorkFlowStep for CompositeStep {
    fn step_id(&self) -> &str {
        &self.id
    }
}

impl KubeWorkFlowStep for CompositeStep {
    fn namespace(&self) -> &str {
        "default"
    }

    fn resource_name(&self) -> &str {
        &self.id
    }
}

#[test]
fn test_workflow_step() {
    let step = MockStep { id: "test-step".to_string() };
    assert_eq!(step.step_id(), "test-step");
}

#[test]
fn test_kube_workflow_step() {
    let step = MockKubeStep {
        id: "kube-step".to_string(),
        namespace: "staging".to_string(),
        resource_name: "job-123".to_string(),
    };
    assert_eq!(step.step_id(), "kube-step");
    assert_eq!(step.namespace(), "staging");
    assert_eq!(step.resource_name(), "job-123");
}

#[test]
fn test_conditional_step() {
    let step = MockConditionalStep::new("cond-step");
    assert!(step.should_execute());

    let step_with_condition = MockConditionalStep::new("cond-step").with_execution_condition(|s| s.step_id() == "cond-step");
    assert!(step_with_condition.should_execute());

    let step_with_false_condition =
        MockConditionalStep::new("cond-step").with_execution_condition(|s| s.step_id() == "other-step");
    assert!(!step_with_false_condition.should_execute());
}

#[test]
fn test_step_with_outputs() {
    let result = StepResult::new("output-step")
        .with_output("key1", JsonValue::String("value1".to_string()))
        .with_output("key2", JsonValue::Number(42));

    let step = MockStepWithOutputs::new("output-step").with_result(result.clone());

    assert_eq!(step.get_step_result().step_id, "output-step");
    assert_eq!(step.get_output("key1"), Some(JsonValue::String("value1".to_string())));
    assert_eq!(step.get_output("key2"), Some(JsonValue::Number(42)));
    assert_eq!(step.get_output("key3"), None);
}

#[test]
fn test_resource_limited_step() {
    let limits = ResourceLimits::new()
        .with_cpu("500m")
        .with_memory("256Mi")
        .with_cpu_request("100m")
        .with_memory_request("128Mi");

    let step = MockResourceLimitedStep::new("resource-step").with_resource_limits(limits);

    assert!(ResourceLimitedStep::resource_limits(&step).is_some());
    let limits = ResourceLimitedStep::resource_limits(&step).unwrap();
    assert_eq!(limits.cpu, Some("500m".to_string()));
    assert_eq!(limits.memory, Some("256Mi".to_string()));
    assert_eq!(limits.cpu_request, Some("100m".to_string()));
    assert_eq!(limits.memory_request, Some("128Mi".to_string()));
    assert!(HasResourceLimits::resource_limits(&step).is_some());
}

#[test]
fn test_trait_combinations() {
    let step = CompositeStep { id: "composite-step".to_string() };

    assert_eq!(step.step_id(), "composite-step");
    assert_eq!(step.namespace(), "default");
    assert_eq!(step.resource_name(), "composite-step");
}

#[test]
fn test_trait_object_usage() {
    let step: Box<dyn WorkFlowStep> = Box::new(MockStep { id: "boxed-step".to_string() });
    assert_eq!(step.step_id(), "boxed-step");
}

#[test]
fn test_kube_trait_object() {
    let step: Box<dyn KubeWorkFlowStep> = Box::new(MockKubeStep {
        id: "boxed-kube-step".to_string(),
        namespace: "production".to_string(),
        resource_name: "job-456".to_string(),
    });

    assert_eq!(step.step_id(), "boxed-kube-step");
    assert_eq!(step.namespace(), "production");
    assert_eq!(step.resource_name(), "job-456");
}

#[test]
fn test_log_stream_options() {
    let options = LogStreamOptions::default();
    assert!(!options.follow);
    assert!(options.tail_lines.is_none());
    assert!(options.since_seconds.is_none());
    assert!(!options.timestamps);
    assert!(options.limit_bytes.is_none());
}

#[test]
fn test_step_result_defaults() {
    let r = StepResult::new("s");
    assert_eq!(r.status, StepStatus::Skipped);
    assert_eq!(r.exit_code, -1);
    assert!(r.is_skipped());
    assert!(!r.with_status(StepStatus::Failure).is_success());
}

#[test]
fn test_log_stream_options_custom() {
    let options = LogStreamOptions {
        follow: true,
        tail_lines: Some(100),
        since_seconds: Some(60),
        timestamps: true,
        limit_bytes: Some(1024),
    };

    assert!(options.follow);
    assert_eq!(options.tail_lines, Some(100));
    assert_eq!(options.since_seconds, Some(60));
    assert!(options.timestamps);
    assert_eq!(options.limit_bytes, Some(1024));
}

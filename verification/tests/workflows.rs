use k8s_maestro::steps::traits::{ResourceLimitedStep, ResourceLimits, WorkFlowStep};
use k8s_maestro::workflows::builder::WorkflowBuilder;
use k8s_maestro::workflows::workflow::{
    CheckpointConfig, ExecutionMode, LegacyCheckpointConfig, Workflow, WorkflowMetadata,
};

#[derive(Debug, Clone)]
struct MockStep {
    id: String,
    limits: Option<ResourceLimits>,
}

impl MockStep {
    fn new(id: impl Into<String>) -> Self {
        Self { id: id.into(), limits: None }
    }
}

impl WorkFlowStep for MockStep {
    fn step_id(&self) -> &str {
        &self.id
    }
}

impl ResourceLimitedStep for MockStep {
    fn with_resource_limits(mut self, limits: ResourceLimits) -> Self {
        self.limits = Some(limits);
        self
    }

    fn resource_limits(&self) -> Option<&ResourceLimits> {
        self.limits.as_ref()
    }
}

#[test]
fn test_builder_new() {
    let builder = WorkflowBuilder::new();
    assert_eq!(builder.namespace, Some("default".to_string()));
    assert_eq!(builder.parallelism, 1);
}

#[test]
fn test_builder_default() {
    let builder = WorkflowBuilder::default();
    assert_eq!(builder.namespace, Some("default".to_string()));
    assert_eq!(builder.parallelism, 1);
}

#[test]
fn test_builder_with_name() {
    let builder = WorkflowBuilder::new().with_name("test-workflow");
    assert_eq!(builder.name, Some("test-workflow".to_string()));
}

#[test]
fn test_builder_with_namespace() {
    let builder = WorkflowBuilder::new().with_namespace("production");
    assert_eq!(builder.namespace, Some("production".to_string()));
}

#[test]
fn test_builder_with_parallelism() {
    let builder = WorkflowBuilder::new().with_parallelism(4);
    assert_eq!(builder.parallelism, 4);
}

#[test]
fn test_builder_with_resource_limits() {
    let limits = ResourceLimits::new().with_cpu("500m").with_memory("512Mi");

    let builder = WorkflowBuilder::new().with_resource_limits(limits);
    assert!(builder.resource_limits.is_some());
    assert_eq!(builder.resource_limits.as_ref().unwrap().cpu, Some("500m".to_string()));
}

#[test]
fn test_builder_add_step() {
    let step = MockStep::new("step-1");
    let builder = WorkflowBuilder::new().add_step(step);
    assert_eq!(builder.steps.len(), 1);
}

#[test]
fn test_builder_add_steps() {
    let steps = vec![MockStep::new("step-1"), MockStep::new("step-2"), MockStep::new("step-3")];

    let builder = WorkflowBuilder::new().add_steps(steps);
    assert_eq!(builder.steps.len(), 3);
}

#[test]
fn test_builder_with_checkpointing() {
    let config = LegacyCheckpointConfig::new().enabled(true).with_interval_secs(60);

    let builder = WorkflowBuilder::new().with_checkpointing(config);
    assert!(builder.checkpoint_config.is_some());
    assert!(builder.checkpoint_config.unwrap().enabled);
}

#[test]
fn test_builder_with_execution_mode() {
    let builder = WorkflowBuilder::new().with_execution_mode(ExecutionMode::Parallel(3));
    assert_eq!(builder.execution_mode, ExecutionMode::Parallel(3));
}

#[test]
fn test_builder_with_labels() {
    let builder = WorkflowBuilder::new().with_label("env", "production").with_label("team", "platform");

    assert_eq!(builder.metadata.labels.len(), 2);
    assert_eq!(builder.metadata.labels.get("env"), Some(&"production".to_string()));
}

#[test]
fn test_builder_with_annotations() {
    let builder = WorkflowBuilder::new().with_annotation("description", "Test workflow").with_annotation("owner", "devops");

    assert_eq!(builder.metadata.annotations.len(), 2);
    assert_eq!(builder.metadata.annotations.get("description"), Some(&"Test workflow".to_string()));
}

#[test]
fn test_builder_build_success() {
    let step = MockStep::new("step-1");

    let workflow = WorkflowBuilder::new().with_name("test-workflow").with_namespace("default").add_step(step).build().unwrap();

    assert_eq!(workflow.name, "test-workflow");
    assert_eq!(workflow.namespace, "default");
    assert_eq!(workflow.step_count(), 1);
    assert!(!workflow.id.is_empty());
}

#[test]
fn test_builder_build_no_name() {
    let step = MockStep::new("step-1");

    let result = WorkflowBuilder::new().with_namespace("default").add_step(step).build();

    assert!(result.is_err());
    assert!(result.err().unwrap().to_string().contains("name is required"));
}

#[test]
fn test_builder_build_no_steps() {
    let result = WorkflowBuilder::new().with_name("test-workflow").with_namespace("default").build();

    assert!(result.is_err());
    assert!(result.err().unwrap().to_string().contains("must have at least one step"));
}

#[test]
fn test_builder_build_zero_parallelism() {
    let step = MockStep::new("step-1");

    let result = WorkflowBuilder::new()
        .with_name("test-workflow")
        .with_namespace("default")
        .with_parallelism(0)
        .add_step(step)
        .build();

    assert!(result.is_err());
    assert!(result.err().unwrap().to_string().contains("parallelism must be greater than 0"));
}

#[test]
fn test_builder_fluent_api() {
    let limits = ResourceLimits::new().with_cpu("1000m").with_memory("1Gi");

    let checkpoint = LegacyCheckpointConfig::new().enabled(true).with_interval_secs(60);

    let steps = vec![MockStep::new("step-1"), MockStep::new("step-2")];

    let workflow = WorkflowBuilder::new()
        .with_name("fluent-test")
        .with_namespace("production")
        .with_parallelism(2)
        .with_resource_limits(limits)
        .with_checkpointing(checkpoint)
        .with_label("env", "prod")
        .with_annotation("owner", "devops")
        .with_execution_mode(ExecutionMode::Parallel(2))
        .add_steps(steps)
        .build()
        .unwrap();

    assert_eq!(workflow.name, "fluent-test");
    assert_eq!(workflow.parallelism, 2);
    assert!(workflow.resource_limits.is_some());
    assert!(workflow.checkpoint_config.is_some());
    assert_eq!(workflow.metadata.labels.len(), 1);
    assert_eq!(workflow.metadata.annotations.len(), 1);
    assert_eq!(workflow.step_count(), 2);
}

#[test]
fn test_workflow_metadata_default() {
    let metadata = WorkflowMetadata::default();
    assert!(metadata.labels.is_empty());
    assert!(metadata.annotations.is_empty());
}

#[test]
fn workflow_test_checkpoint_config_default() {
    let config = CheckpointConfig::default();
    assert!(!config.enabled);
    assert_eq!(config.checkpoint_interval_secs, 300);
    assert_eq!(config.retention_count, 10);
    assert!(config.storage_path.is_none());
}

#[test]
fn workflow_test_checkpoint_config_builder() {
    let config = CheckpointConfig::new()
        .enabled(true)
        .with_interval_secs(120)
        .with_retention_count(20)
        .with_storage_path("/tmp/checkpoints");

    assert!(config.enabled);
    assert_eq!(config.checkpoint_interval_secs, 120);
    assert_eq!(config.retention_count, 20);
    assert_eq!(config.storage_path, Some("/tmp/checkpoints".to_string()));
}

#[test]
fn test_execution_mode_default() {
    let mode = ExecutionMode::default();
    assert_eq!(mode, ExecutionMode::Sequential);
}

#[test]
fn test_workflow_validate_success() {
    let step = MockStep::new("step-1");

    let workflow = WorkflowBuilder::new().with_name("test-workflow").with_namespace("default").add_step(step).build().unwrap();

    assert!(workflow.validate().is_ok());
}

#[test]
fn test_workflow_validate_empty_name() {
    let step = MockStep::new("step-1");

    let workflow = Workflow {
        id: uuid::Uuid::new_v4().to_string(),
        name: "".to_string(),
        namespace: "default".to_string(),
        steps: vec![Box::new(step)],
        resource_limits: None,
        checkpoint_config: None,
        metadata: WorkflowMetadata::default(),
        parallelism: 1,
        execution_mode: ExecutionMode::default(),
    };

    assert!(workflow.validate().is_err());
}

#[test]
fn test_workflow_validate_empty_namespace() {
    let step = MockStep::new("step-1");

    let workflow = Workflow {
        id: uuid::Uuid::new_v4().to_string(),
        name: "test-workflow".to_string(),
        namespace: "".to_string(),
        steps: vec![Box::new(step)],
        resource_limits: None,
        checkpoint_config: None,
        metadata: WorkflowMetadata::default(),
        parallelism: 1,
        execution_mode: ExecutionMode::default(),
    };

    assert!(workflow.validate().is_err());
}

fn limited_workflow() -> Workflow {
    let workflow_limits = ResourceLimits::new().with_cpu("1000m").with_memory("1Gi");
    WorkflowBuilder::new()
        .with_name("test-workflow")
        .with_namespace("default")
        .with_resource_limits(workflow_limits)
        .add_step(MockStep::new("step-1"))
        .build()
        .unwrap()
}

#[test]
fn test_workflow_resolve_resource_limits_no_defaults() {
    let workflow = limited_workflow();
    let resolved = workflow.resolve_resource_limits(None);
    assert_eq!(resolved.cpu, Some("1000m".to_string()));
    assert_eq!(resolved.memory, Some("1Gi".to_string()));
}

#[test]
fn test_workflow_resolve_resource_limits_with_app_defaults() {
    let app_limits = ResourceLimits::new().with_cpu("500m").with_memory("512Mi");
    let workflow = limited_workflow();
    let resolved = workflow.resolve_resource_limits(Some(&app_limits));
    assert_eq!(resolved.cpu, Some("1000m".to_string()));
    assert_eq!(resolved.memory, Some("1Gi".to_string()));
}

#[test]
fn test_workflow_resolve_resource_limits_falls_back() {
    let app_limits = ResourceLimits::new().with_cpu("500m").with_memory_request("64Mi");
    let workflow = WorkflowBuilder::new()
        .with_name("w")
        .with_namespace("default")
        .with_resource_limits(ResourceLimits::new().with_memory("1Gi"))
        .add_step(MockStep::new("s"))
        .build()
        .unwrap();
    let resolved = workflow.resolve_resource_limits(Some(&app_limits));
    assert_eq!(resolved.cpu, Some("500m".to_string()));
    assert_eq!(resolved.memory, Some("1Gi".to_string()));
    assert_eq!(resolved.memory_request, Some("64Mi".to_string()));
    assert!(resolved.cpu_request.is_none());
}

#[test]
fn test_workflow_step_resource_limits_no_step_limits() {
    let workflow = limited_workflow();
    let step_limits = workflow.step_resource_limits(&*workflow.steps[0], None);
    assert_eq!(step_limits.cpu, Some("1000m".to_string()));
    assert_eq!(step_limits.memory, Some("1Gi".to_string()));
}

#[test]
fn test_workflow_step_resource_limits_with_step_limits() {
    let workflow = limited_workflow();
    let resolved_limits = workflow.step_resource_limits(&*workflow.steps[0], None);
    assert_eq!(resolved_limits.cpu, Some("1000m".to_string()));
    assert_eq!(resolved_limits.memory, Some("1Gi".to_string()));
}

#[test]
fn test_workflow_step_resource_limits_priority() {
    let app_limits = ResourceLimits::new().with_cpu("500m").with_memory("512Mi");
    let workflow = limited_workflow();
    let resolved_limits = workflow.step_resource_limits(&*workflow.steps[0], Some(&app_limits));
    assert_eq!(resolved_limits.cpu, Some("1000m".to_string()));
    assert_eq!(resolved_limits.memory, Some("1Gi".to_string()));
}

fn three_steps() -> Vec<MockStep> {
    vec![MockStep::new("step-1"), MockStep::new("step-2"), MockStep::new("step-3")]
}

#[test]
fn test_workflow_step_count() {
    let workflow = WorkflowBuilder::new().with_name("test-workflow").with_namespace("default").add_steps(three_steps()).build().unwrap();

    assert_eq!(workflow.step_count(), 3);
}

#[test]
fn test_workflow_is_parallel_sequential() {
    let workflow = WorkflowBuilder::new()
        .with_name("test-workflow")
        .with_namespace("default")
        .add_step(MockStep::new("step-1"))
        .build()
        .unwrap();

    assert!(!workflow.is_parallel());
}

#[test]
fn test_workflow_is_parallel() {
    let workflow = WorkflowBuilder::new()
        .with_name("test-workflow")
        .with_namespace("default")
        .with_execution_mode(ExecutionMode::Parallel(3))
        .add_step(MockStep::new("step-1"))
        .build()
        .unwrap();

    assert!(workflow.is_parallel());
}

#[test]
fn test_workflow_actual_parallelism_sequential() {
    let workflow = WorkflowBuilder::new()
        .with_name("test-workflow")
        .with_namespace("default")
        .add_step(MockStep::new("step-1"))
        .build()
        .unwrap();

    assert_eq!(workflow.actual_parallelism(), 1);
}

#[test]
fn test_workflow_actual_parallelism_parallel() {
    let workflow = WorkflowBuilder::new()
        .with_name("test-workflow")
        .with_namespace("default")
        .with_parallelism(4)
        .with_execution_mode(ExecutionMode::Parallel(3))
        .add_steps(three_steps())
        .build()
        .unwrap();

    assert_eq!(workflow.actual_parallelism(), 3);
}

#[test]
fn test_workflow_actual_parallelism_capped() {
    let workflow = WorkflowBuilder::new()
        .with_name("test-workflow")
        .with_namespace("default")
        .with_parallelism(2)
        .with_execution_mode(ExecutionMode::Parallel(5))
        .add_steps(three_steps())
        .build()
        .unwrap();

    assert_eq!(workflow.actual_parallelism(), 2);
}

#[test]
fn test_multi_step_workflow() {
    let steps = vec![MockStep::new("build"), MockStep::new("test"), MockStep::new("deploy")];

    let workflow = WorkflowBuilder::new().with_name("ci-cd").with_namespace("production").add_steps(steps).build().unwrap();

    assert_eq!(workflow.step_count(), 3);
    assert_eq!(workflow.steps[0].step_id(), "build");
    assert_eq!(workflow.steps[1].step_id(), "test");
    assert_eq!(workflow.steps[2].step_id(), "deploy");
    assert_eq!(workflow.step_ids(), vec!["build".to_string(), "test".to_string(), "deploy".to_string()]);
}

#[test]
fn test_workflow_with_all_configurations() {
    let limits = ResourceLimits::new().with_cpu("2000m").with_memory("2Gi");

    let checkpoint = CheckpointConfig::new().enabled(true).with_interval_secs(60).with_retention_count(5);

    let steps = vec![MockStep::new("step-1"), MockStep::new("step-2")];

    let workflow = WorkflowBuilder::new()
        .with_name("full-featured")
        .with_namespace("production")
        .with_parallelism(4)
        .with_resource_limits(limits)
        .with_checkpointing(checkpoint)
        .with_label("env", "prod")
        .with_label("team", "engineering")
        .with_annotation("owner", "devops")
        .with_execution_mode(ExecutionMode::Parallel(2))
        .add_steps(steps)
        .build()
        .unwrap();

    assert_eq!(workflow.name, "full-featured");
    assert_eq!(workflow.namespace, "production");
    assert_eq!(workflow.parallelism, 4);
    assert!(workflow.resource_limits.is_some());
    assert!(workflow.checkpoint_config.is_some());
    assert!(workflow.checkpoint_config.as_ref().unwrap().enabled);
    assert_eq!(workflow.metadata.labels.len(), 2);
    assert_eq!(workflow.metadata.annotations.len(), 1);
    assert_eq!(workflow.actual_parallelism(), 2);
}

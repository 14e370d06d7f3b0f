use k8s_maestro::resources::meta::ObjectMeta;
use k8s_maestro::resources::workload::Pod;
use k8s_maestro::collections::OrderedMap;
use k8s_maestro::steps::exec::python::PythonStepBuilder;
use k8s_maestro::steps::kubernetes::job::KubeJobStep;
use k8s_maestro::steps::kubernetes::pod::KubePodStepBuilder;
use k8s_maestro::entities::MaestroContainer;
use k8s_maestro::steps::result::StepStatus;
use k8s_maestro::steps::traits::{KubeWorkFlowStep, ResourceLimits, WorkFlowStep};
use k8s_maestro::workflows::builder::WorkflowBuilder;
use k8s_maestro::workflows::dependency::condition::ConditionBuilder;
use k8s_maestro::workflows::execution::orchestrator::WorkflowOrchestrator;
use k8s_maestro::workflows::execution::scheduler::FailureStrategy;
use k8s_maestro::workflows::workflow::ExecutionMode;

/// A client for a cluster that is never contacted.
fn offline_client() -> (tokio::runtime::Runtime, kube::Client) {
    let rt = tokio::runtime::Runtime::new().unwrap();
    let client = {
        let _guard = rt.enter();
        let config = kube::Config::new("http://127.0.0.1:9".parse().unwrap());
        kube::Client::try_from(config).unwrap()
    };
    (rt, client)
}

fn labelled_pod(name: &str, key: &str, value: &str) -> Pod {
    let mut labels = OrderedMap::new();
    labels.insert(key.to_string(), value.to_string());
    Pod {
        metadata: ObjectMeta {
            name: Some(name.to_string()),
            namespace: None,
            labels: Some(labels),
            annotations: None,
        },
        spec: None,
        status: None,
    }
}

#[test]
fn test_python_step_builder() {
    let (_rt, client) = offline_client();
    let builder = PythonStepBuilder::new()
        .with_name("test-step")
        .with_code("print('hello')")
        .with_client(client)
        .with_dry_run(true);

    let result = builder.build();
    assert!(result.is_ok());

    let step = result.unwrap();
    assert_eq!(step.step_id(), "test-step");
}

#[test]
fn test_python_step_builder_with_requirements() {
    let (_rt, client) = offline_client();
    let builder = PythonStepBuilder::new()
        .with_name("test-step")
        .with_code("import pandas\ndf = pandas.DataFrame()")
        .with_requirements(&["pandas", "numpy"])
        .with_client(client)
        .with_dry_run(true);

    let result = builder.build();
    assert!(result.is_ok());

    let step = result.unwrap();
    assert_eq!(step.requirements.len(), 2);
}

#[test]
fn test_python_step_builder_with_resource_limits() {
    let (_rt, client) = offline_client();
    let limits = ResourceLimits::new().with_cpu("500m").with_memory("256Mi");

    let builder = PythonStepBuilder::new()
        .with_name("test-step")
        .with_code("print('hello')")
        .with_resource_limits(limits)
        .with_client(client)
        .with_dry_run(true);

    let result = builder.build();
    assert!(result.is_ok());

    let step = result.unwrap();
    assert!(step.resource_limits.is_some());
}

#[test]
fn test_python_step_outcomes() {
    let (_rt, client) = offline_client();
    let step = PythonStepBuilder::new()
        .with_name("calc")
        .with_code("print(1)")
        .with_client(client)
        .build()
        .unwrap();
    assert!(step.dry_run_result().is_none());
    assert_eq!(step.wait_result("Succeeded").status, StepStatus::Success);
    assert_eq!(step.wait_result("Running").status, StepStatus::Failure);
    assert_eq!(step.wait_result("Succeeded").exit_code, -1);
    assert_eq!(step.started_result().status, StepStatus::Success);
    assert_eq!(step.code_config_map_name(), "calc-code");
    assert!(!step.skips_deletion(false));
    assert!(step.skips_deletion(true));
    let pod = step.build_pod_spec().unwrap();
    assert_eq!(pod.metadata.name.as_deref(), Some("calc"));
    let config_map = step.build_config_map().unwrap();
    assert_eq!(config_map.metadata.name.as_deref(), Some("calc-code"));
}

#[test]
fn test_kube_job_step_outcomes() {
    let (_rt, client) = offline_client();
    let step = KubeJobStep::new("etl", "busybox", client);
    assert_eq!(step.namespace(), "default");
    assert_eq!(step.resource_name(), "etl");
    assert!(step.as_kube_job().is_some());
    assert!(step.as_kube_pod().is_none());
    let failed = step.wait_result(Some(2));
    assert_eq!(failed.status, StepStatus::Failure);
    assert_eq!(failed.exit_code, 1);
    let done = step.wait_result(None);
    assert_eq!(done.status, StepStatus::Success);
    assert_eq!(done.exit_code, 0);
    assert!(done.outputs.is_empty());

    let pods = vec![
        labelled_pod("etl-1", "job-name", "etl"),
        labelled_pod("other-1", "job-name", "other"),
        labelled_pod("etl-2", "job-name", "etl"),
    ];
    assert_eq!(step.owned_pods(&pods), vec!["etl-1".to_string(), "etl-2".to_string()]);

    let service = step.exposing_service("etl-svc", 8080).unwrap();
    let spec = service.spec.unwrap();
    assert_eq!(spec.ports.unwrap()[0].port, 8080);
    assert_eq!(spec.selector.unwrap().get("job-name"), Some(&"etl".to_string()));
    let ingress = step.exposing_ingress("etl-ing", "etl.example.com", 80).unwrap();
    assert_eq!(ingress.metadata.name.as_deref(), Some("etl-ing"));
}

#[test]
fn test_kube_pod_step_outcomes() {
    let (_rt, client) = offline_client();
    let step = KubePodStepBuilder::new()
        .with_name("probe")
        .with_namespace("jobs")
        .add_container(Box::new(MaestroContainer::new("busybox", "main")))
        .with_client(client)
        .build()
        .unwrap();
    assert_eq!(step.resource_name(), "probe");
    assert_eq!(step.namespace(), "jobs");
    assert!(step.as_kube_pod().is_some());
    assert!(step.as_kube_job().is_none());
    assert_eq!(step.wait_result("Succeeded").exit_code, 0);
    assert_eq!(step.wait_result("Failed").status, StepStatus::Failure);
    assert_eq!(step.wait_result("Pending").exit_code, 1);
    assert!(step.skips_deletion(true));
    assert!(!step.skips_deletion(false));
}

#[test]
fn test_orchestrator_of_valid_workflow() {
    let (_rt, client) = offline_client();
    let job = KubeJobStep::new("etl", "busybox", client.clone());
    let workflow = WorkflowBuilder::new()
        .with_name("pipeline")
        .with_namespace("default")
        .with_parallelism(4)
        .with_execution_mode(ExecutionMode::Parallel(2))
        .add_step(job)
        .build()
        .unwrap();
    let orchestrator = WorkflowOrchestrator::new(workflow, client).unwrap();
    assert_eq!(orchestrator.scheduler().parallelism, 2);
    assert_eq!(orchestrator.scheduler().failure_strategy, FailureStrategy::Stop);
    assert_eq!(orchestrator.get_dependency_graph().nodes.len(), 1);
    assert!(orchestrator.get_dependency_graph().edges.is_empty());
    assert!(orchestrator.detect_cycles().is_ok());
    let ids = orchestrator.workflow().step_ids();
    assert_eq!(orchestrator.get_next_executable_steps(&ids, &vec![]), ids);
    assert!(orchestrator.get_next_executable_steps(&ids, &ids).is_empty());
    assert!(orchestrator.evaluate_condition(&ConditionBuilder::always_execute(), &vec![]));
    assert!(!orchestrator.evaluate_condition(&ConditionBuilder::never_execute(), &vec![]));
}

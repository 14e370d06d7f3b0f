use k8s_maestro::workflows::checkpointing::cleanup::cleanup_manager::{
    plan_cleanup, CleanupMetrics, RetentionPolicy as CleanupRetention,
};
use k8s_maestro::workflows::checkpointing::env::CheckpointEnv;
use k8s_maestro::workflows::checkpointing::config::{
    duration_in_bounds, parse_duration, try_parse_duration, CheckpointConfig, CheckpointFrequency, CheckpointStorageConfig, RetentionPolicy,
};
use k8s_maestro::workflows::checkpointing::models::{Checkpoint, CheckpointMetadata, StepCheckpoint};
use k8s_maestro::workflows::checkpointing::statefulset::{
    data_claim_name, statefulset_ready, StatefulSetConfig,
};
use k8s_maestro::workflows::checkpointing::storage::{
    should_retry, status_error, storage_endpoint, storage_namespace, version_conflict, StorageError,
};
use k8s_maestro::workflows::checkpointing::time::{TimeDelta, Timestamp};
use k8s_maestro::steps::result::JsonValue;
use k8s_maestro::collections::OrderedMap;

#[test]
fn test_checkpoint_frequency_from_str() {
    assert_eq!(CheckpointFrequency::from_str("on_step_completion").unwrap(), CheckpointFrequency::OnStepCompletion);
    assert_eq!(CheckpointFrequency::from_str("on_success").unwrap(), CheckpointFrequency::OnSuccess);
    assert_eq!(CheckpointFrequency::from_str("30s").unwrap(), CheckpointFrequency::Periodic(TimeDelta::seconds(30)));
    assert_eq!(CheckpointFrequency::from_str("5m").unwrap(), CheckpointFrequency::Periodic(TimeDelta::minutes(5)));
    assert_eq!(CheckpointFrequency::from_str("1h").unwrap(), CheckpointFrequency::Periodic(TimeDelta::hours(1)));
}

#[test]
fn test_checkpoint_frequency_invalid() {
    assert!(CheckpointFrequency::from_str("invalid").is_err());
}

#[test]
fn test_parse_duration_forms() {
    assert_eq!(parse_duration("90s"), Ok(TimeDelta::seconds(90)));
    assert_eq!(parse_duration(" 5M "), Ok(TimeDelta::minutes(5)));
    assert_eq!(parse_duration("\u{3000}\t2h\u{a0}\n"), Ok(TimeDelta::hours(2)));
    assert!(parse_duration("\u{200b}2h").is_err());
    assert!(parse_duration("2d").is_err());
    assert!(parse_duration("45").is_err());
    assert!(parse_duration("").is_err());
    assert!(parse_duration("3x").is_err());
}

#[test]
fn config_test_retention_policy_default() {
    let policy = RetentionPolicy::default();
    assert_eq!(policy.max_age, Some(TimeDelta::days(7)));
    assert_eq!(policy.max_count, Some(10));
}

#[test]
fn test_retention_policy_builder() {
    let policy = RetentionPolicy::new().with_max_age(TimeDelta::days(30)).with_max_count(20);
    assert_eq!(policy.max_age, Some(TimeDelta::days(30)));
    assert_eq!(policy.max_count, Some(20));
}

#[test]
fn test_retention_policy_validate() {
    let policy = RetentionPolicy::new();
    assert!(policy.validate().is_ok());

    let invalid_count = RetentionPolicy::new().with_max_count(0);
    assert!(invalid_count.validate().is_err());

    let invalid_age = RetentionPolicy::new().with_max_age(TimeDelta::seconds(-1));
    assert!(invalid_age.validate().is_err());
}

#[test]
fn config_test_checkpoint_config_default() {
    let config = CheckpointConfig::default();
    assert!(!config.enabled);
    assert_eq!(config.frequency, CheckpointFrequency::OnStepCompletion);
    assert!(matches!(config.storage, CheckpointStorageConfig::Sqlite { .. }));
}

#[test]
fn config_test_checkpoint_config_builder() {
    let config = CheckpointConfig::new()
        .enabled(true)
        .with_frequency(CheckpointFrequency::OnSuccess)
        .with_storage(CheckpointStorageConfig::Redis { url: "redis://localhost".to_string() });
    assert!(config.enabled);
    assert_eq!(config.frequency, CheckpointFrequency::OnSuccess);
    assert!(matches!(config.storage, CheckpointStorageConfig::Redis { .. }));
}

#[test]
fn test_checkpoint_config_validate() {
    let config = CheckpointConfig::new();
    assert!(config.validate().is_ok());

    let invalid_config = CheckpointConfig {
        enabled: true,
        storage: CheckpointStorageConfig::Sqlite { namespace: "".to_string(), pvc_size: "".to_string() },
        ..Default::default()
    };
    assert!(invalid_config.validate().is_err());
}

#[test]
fn test_statefulset_config_default() {
    let config = StatefulSetConfig::default();
    assert_eq!(config.name, "maestro-checkpoint-storage");
    assert_eq!(config.namespace, "default");
    assert_eq!(config.replicas, 1);
    assert_eq!(config.pvc_size, "1Gi");
    assert_eq!(config.http_port, 8080);
}

#[test]
fn test_statefulset_config_builder() {
    let config = StatefulSetConfig::new()
        .with_name("custom-name")
        .with_namespace("production")
        .with_replicas(3)
        .with_pvc_size("5Gi")
        .with_http_port(9090)
        .with_label("env", "prod");

    assert_eq!(config.name, "custom-name");
    assert_eq!(config.namespace, "production");
    assert_eq!(config.replicas, 3);
    assert_eq!(config.pvc_size, "5Gi");
    assert_eq!(config.http_port, 9090);
    assert_eq!(config.labels.get("env"), Some(&"prod".to_string()));
}

#[test]
fn test_statefulset_spec_of_store() {
    let config = StatefulSetConfig::new().with_name("store").with_http_port(9090).with_pvc_size("5Gi");
    let st = config.statefulset_spec();
    assert_eq!(st.metadata.name.as_deref(), Some("store"));
    assert_eq!(st.metadata.labels.as_ref().unwrap().get("app"), Some(&"store".to_string()));
    assert!(st.metadata.annotations.is_none());
    let spec = st.spec.unwrap();
    assert_eq!(spec.service_name, "maestro-checkpoint-storage");
    assert_eq!(spec.replicas, Some(1));
    assert_eq!(spec.pod_management_policy.as_deref(), Some("OrderedReady"));
    let pod = spec.template.spec.unwrap();
    assert_eq!(pod.containers.len(), 1);
    let c = &pod.containers[0];
    assert_eq!(c.name, "sqlite");
    assert_eq!(c.image.as_deref(), Some("alpine:3.19"));
    assert_eq!(c.ports.as_ref().unwrap()[0].container_port, 9090);
    let command = c.command.as_ref().unwrap();
    assert_eq!(command[0], "sh");
    assert!(command[2].contains("HTTP server running on port 9090'"));
    let live = c.liveness_probe.as_ref().unwrap();
    assert_eq!(live.initial_delay_seconds, Some(10));
    assert_eq!(live.http_get.as_ref().unwrap().port, 9090);
    let ready = c.readiness_probe.as_ref().unwrap();
    assert_eq!(ready.period_seconds, Some(5));
    let limits = c.resources.as_ref().unwrap().limits.as_ref().unwrap();
    assert_eq!(limits.get("cpu"), Some(&"500m".to_string()));
    assert_eq!(limits.get("memory"), Some(&"512Mi".to_string()));
    let claims = spec.volume_claim_templates.unwrap();
    assert_eq!(claims.len(), 1);
    assert_eq!(claims[0].metadata.name.as_deref(), Some("data"));
    let claim = claims[0].spec.as_ref().unwrap();
    assert_eq!(claim.access_modes.as_ref().unwrap()[0], "ReadWriteOnce");
    let requests = claim.resources.as_ref().unwrap().requests.as_ref().unwrap();
    assert_eq!(requests.get("storage"), Some(&"5Gi".to_string()));
}

#[test]
fn test_data_claim_name() {
    assert_eq!(data_claim_name("maestro-checkpoint-storage"), "maestro-checkpoint-storage-data-0");
}

#[test]
fn test_statefulset_readiness() {
    assert!(statefulset_ready(Some(3), 3));
    assert!(!statefulset_ready(Some(2), 3));
    assert!(!statefulset_ready(None, 1));
}

#[test]
fn test_step_checkpoint_new() {
    let step = StepCheckpoint::new("completed");
    assert_eq!(step.status, "completed");
    assert_eq!(step.execution_count, 0);
    assert!(step.outputs.is_empty());
}

#[test]
fn test_step_checkpoint_with_outputs() {
    let mut outputs = OrderedMap::new();
    outputs.insert("key".to_string(), JsonValue::String("value".to_string()));

    let step = StepCheckpoint::new("completed").with_outputs(outputs);
    assert_eq!(step.outputs.get("key"), Some(&JsonValue::String("value".to_string())));
}

#[test]
fn test_step_checkpoint_increment_execution_count() {
    let mut step = StepCheckpoint::new("completed");
    assert_eq!(step.execution_count, 0);
    step.increment_execution_count();
    assert_eq!(step.execution_count, 1);
}

#[test]
fn test_step_checkpoint_update_status() {
    let mut step = StepCheckpoint::new("running");
    step.update_status("completed");
    assert_eq!(step.status, "completed");
}

#[test]
fn test_checkpoint_new() {
    let checkpoint = Checkpoint::new("workflow-1");
    assert_eq!(checkpoint.workflow_id, "workflow-1");
    assert_eq!(checkpoint.version, 0);
    assert!(checkpoint.steps.is_empty());
    assert!(checkpoint.metadata.is_empty());
}

#[test]
fn test_checkpoint_with_step() {
    let step = StepCheckpoint::new("completed");
    let checkpoint = Checkpoint::new("workflow-1").with_step("step-1", step);
    assert!(checkpoint.steps.contains_key("step-1"));
}

#[test]
fn test_checkpoint_with_metadata() {
    let checkpoint = Checkpoint::new("workflow-1").with_metadata("key", "value");
    assert_eq!(checkpoint.metadata.get("key"), Some(&"value".to_string()));
}

#[test]
fn test_checkpoint_increment_version() {
    let mut checkpoint = Checkpoint::new("workflow-1");
    assert_eq!(checkpoint.version, 0);
    checkpoint.increment_version();
    assert_eq!(checkpoint.version, 1);
}

#[test]
fn test_checkpoint_metadata_from_checkpoint() {
    let step = StepCheckpoint::new("completed");
    let checkpoint = Checkpoint::new("workflow-1").with_step("step-1", step).with_metadata("key", "value");

    let metadata = CheckpointMetadata::from_checkpoint(&checkpoint);
    assert_eq!(metadata.workflow_id, "workflow-1");
    assert_eq!(metadata.step_count, 1);
    assert_eq!(metadata.version, 0);
}

#[test]
fn cleanup_manager_test_retention_policy_default() {
    let policy = CleanupRetention::default();
    assert_eq!(policy.max_age, Some(TimeDelta::days(7)));
    assert_eq!(policy.max_count, Some(10));
}

fn meta(id: &str, secs: i64) -> CheckpointMetadata {
    CheckpointMetadata {
        workflow_id: id.to_string(),
        checkpoint_time: Timestamp { secs, nanos: 0 },
        version: 0,
        step_count: 0,
    }
}

#[test]
fn test_cleanup_age_policy() {
    let now = Timestamp { secs: 100 * 86400, nanos: 0 };
    let old = meta("workflow-1", now.secs - 10 * 86400);
    let fresh = meta("workflow-2", now.secs - 86400);
    let policy = CleanupRetention { max_age: Some(TimeDelta::days(7)), max_count: None };
    let plan = plan_cleanup(&vec![old, fresh], now, &policy);
    assert_eq!(plan.to_delete, vec!["workflow-1".to_string()]);
    assert_eq!(plan.policy_violations, 1);
}

#[test]
fn test_cleanup_count_policy() {
    let now = Timestamp { secs: 1000, nanos: 0 };
    let entries = vec![meta("b", 1), meta("a", 2), meta("b", 3), meta("b", 4), meta("a", 5)];
    let policy = CleanupRetention { max_age: None, max_count: Some(2) };
    let plan = plan_cleanup(&entries, now, &policy);
    assert_eq!(plan.to_delete, vec!["b".to_string()]);
    assert_eq!(plan.policy_violations, 1);
    let both = CleanupRetention { max_age: Some(TimeDelta::seconds(997)), max_count: Some(1) };
    let plan = plan_cleanup(&entries, now, &both);
    assert_eq!(plan.to_delete, vec!["a".to_string(), "b".to_string()]);
    assert_eq!(plan.policy_violations, 2 + 3);
}

#[test]
fn test_cleanup_nothing_to_do() {
    let now = Timestamp { secs: 10, nanos: 0 };
    let plan = plan_cleanup(&vec![meta("w", 9)], now, &CleanupRetention::default());
    assert!(plan.to_delete.is_empty());
    assert_eq!(plan.policy_violations, 0);
    let mut metrics = CleanupMetrics::default();
    metrics.count_deletion();
    assert_eq!(metrics.deleted_count, 1);
    assert_eq!(metrics.policy_violations, 0);
}

#[test]
fn test_storage_errors_and_decisions() {
    assert_eq!(StorageError::NotFound("w".to_string()).to_string(), "Checkpoint not found: w");
    assert_eq!(version_conflict(5).to_string(), "Version conflict: expected 4, got 5");
    assert_eq!(version_conflict(0), StorageError::VersionConflict { expected: 0, actual: 0 });
    assert_eq!(status_error(404, "404 Not Found", "x".to_string()), StorageError::NotFound("x".to_string()));
    assert_eq!(
        status_error(503, "503 Service Unavailable", "down".to_string()).to_string(),
        "Network error: HTTP 503 Service Unavailable: down"
    );
    assert_eq!(
        storage_endpoint("maestro-checkpoint-storage", "default", ""),
        "http://maestro-checkpoint-storage.default/api/v1"
    );
    assert_eq!(storage_endpoint("checkpoint-service", "production", "/checkpoints"), "http://checkpoint-service.production/api/v1/checkpoints");
    assert!(should_retry(0, 3, &StorageError::NetworkError("x".to_string())));
    assert!(!should_retry(2, 3, &StorageError::NetworkError("x".to_string())));
    assert!(!should_retry(0, 3, &StorageError::NotFound("x".to_string())));
    let redis = CheckpointStorageConfig::Redis { url: "r".to_string() };
    assert_eq!(storage_namespace(&redis).unwrap_err().to_string(), "Internal error: Redis storage not yet implemented");
    assert_eq!(storage_namespace(&CheckpointStorageConfig::default()).unwrap(), "default");
}

#[test]
fn test_config_from_env_vars_defaults() {
    let config = CheckpointConfig::from_env_vars(&CheckpointEnv::default()).unwrap();
    assert!(!config.enabled);
    assert_eq!(config.frequency, CheckpointFrequency::OnStepCompletion);
    assert_eq!(
        config.storage,
        CheckpointStorageConfig::Sqlite { namespace: "default".to_string(), pvc_size: "1Gi".to_string() }
    );
    assert!(config.retention_policy.max_age.is_none());
    assert!(config.retention_policy.max_count.is_none());
}

#[test]
fn test_config_from_env_vars_settings() {
    let env = CheckpointEnv {
        enabled: Some("true".to_string()),
        frequency: Some("5m".to_string()),
        storage_type: Some("ETCD".to_string()),
        etcd_endpoints: Some(" http://a:2379 ,http://b:2379".to_string()),
        retention_max_age: Some("2h".to_string()),
        retention_max_count: Some("+4".to_string()),
        ..CheckpointEnv::default()
    };
    let config = CheckpointConfig::from_env_vars(&env).unwrap();
    assert!(config.enabled);
    assert_eq!(config.frequency, CheckpointFrequency::Periodic(TimeDelta::minutes(5)));
    assert_eq!(
        config.storage,
        CheckpointStorageConfig::Etcd { endpoints: vec!["http://a:2379".to_string(), "http://b:2379".to_string()] }
    );
    assert_eq!(config.retention_policy.max_age.unwrap().num_seconds(), 7200);
    assert_eq!(config.retention_policy.max_count, Some(4));
}

#[test]
fn test_config_from_env_vars_errors() {
    let unsupported = CheckpointEnv { storage_type: Some("Mongo".to_string()), ..CheckpointEnv::default() };
    assert_eq!(CheckpointConfig::from_env_vars(&unsupported).unwrap_err(), "Unsupported storage type: Mongo");
    let bad_frequency = CheckpointEnv { frequency: Some("sometimes".to_string()), ..CheckpointEnv::default() };
    assert_eq!(
        CheckpointConfig::from_env_vars(&bad_frequency).unwrap_err(),
        "Invalid checkpoint frequency: sometimes"
    );
    let zero_count = CheckpointEnv { retention_max_count: Some("0".to_string()), ..CheckpointEnv::default() };
    assert_eq!(CheckpointConfig::from_env_vars(&zero_count).unwrap_err(), "max_count must be greater than 0");
    let ignored = CheckpointEnv {
        enabled: Some("yes".to_string()),
        retention_max_count: Some("many".to_string()),
        retention_max_age: Some("soon".to_string()),
        ..CheckpointEnv::default()
    };
    let config = CheckpointConfig::from_env_vars(&ignored).unwrap();
    assert!(!config.enabled);
    assert!(config.retention_policy.max_count.is_none());
    assert!(config.retention_policy.max_age.is_none());
}

#[test]
fn test_config_try_from_env_vars_bounds() {
    let huge = CheckpointEnv { retention_max_age: Some("9223372036854775807h".to_string()), ..CheckpointEnv::default() };
    assert!(CheckpointConfig::try_from_env_vars(&huge).is_none());
    assert!(CheckpointConfig::try_from_env_vars(&CheckpointEnv::default()).unwrap().is_ok());
    assert!(try_parse_duration("9223372036854775807h").is_none());
    assert_eq!(try_parse_duration("90s").unwrap().unwrap().num_seconds(), 90);
    assert!(!duration_in_bounds("9223372036854775807h"));
    assert!(duration_in_bounds("nonsense"));
}

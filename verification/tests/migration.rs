use k8s_maestro::migration::{
    create_client_for_namespace, create_dry_run_client, create_production_client, migration_complete,
    Job, JobBuilder, JobExecutionMode, MigrationChecklist,
};
use k8s_maestro::workflows::builder::WorkflowBuilder;

#[test]
fn test_type_alias_job_builder_compiles() {
    #[allow(deprecated)]
    let _builder: JobBuilder = WorkflowBuilder::new();
}

#[test]
fn test_type_alias_job_compiles() {
    #[allow(deprecated)]
    let _type_check: std::marker::PhantomData<Job> = std::marker::PhantomData;
}

#[test]
fn test_type_alias_execution_mode_compiles() {
    #[allow(deprecated)]
    let _type_check: std::marker::PhantomData<JobExecutionMode> = std::marker::PhantomData;
}

#[test]
fn test_create_dry_run_client() {
    #[allow(deprecated)]
    let result = create_dry_run_client();
    assert!(result.is_ok());
    let client = result.unwrap();
    assert!(client.dry_run());
}

#[test]
fn test_create_production_client() {
    #[allow(deprecated)]
    let result = create_production_client();
    assert!(result.is_ok());
    let client = result.unwrap();
    assert!(!client.dry_run());
}

#[test]
fn test_create_client_for_namespace() {
    #[allow(deprecated)]
    let result = create_client_for_namespace("test-namespace");
    assert!(result.is_ok());
    let client = result.unwrap();
    assert_eq!(client.namespace(), "test-namespace");
}

#[test]
fn test_allow_deprecated_macro() {
    #[allow(deprecated)]
    {
        #[allow(deprecated)]
        let _builder: JobBuilder = WorkflowBuilder::new();
    }
}

#[test]
fn test_clients_default_namespace() {
    let production = create_production_client().unwrap();
    assert_eq!(production.namespace(), "default");
    let dry = create_dry_run_client().unwrap();
    assert_eq!(dry.namespace(), "default");
    assert!(!create_client_for_namespace("ns").unwrap().dry_run());
}

struct HalfDone;

impl MigrationChecklist for HalfDone {
    fn completed_steps() -> Vec<&'static str> {
        vec!["Step 1", "Step 2", "Step 3"]
    }
}

struct AllDone;

impl MigrationChecklist for AllDone {
    fn completed_steps() -> Vec<&'static str> {
        vec!["Step 1", "Step 2", "Step 3", "Step 4", "Step 5", "Step 6"]
    }
}

#[test]
fn test_migration_checklist_completion() {
    assert_eq!(HalfDone::total_steps(), 6);
    assert!(!HalfDone::is_migration_complete());
    assert!(AllDone::is_migration_complete());
    assert!(migration_complete(&vec!["a", "b"], 2));
    assert!(!migration_complete(&vec!["a"], 2));
}

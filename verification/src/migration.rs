//! Names kept from the job-centred interface of earlier releases, and
//! helpers that make clients the way that interface configured them.
//!
//! Everything here is deprecated: use the workflow types and
//! `MaestroClientBuilder` directly.
use vstd::prelude::*;
use crate::client::{default_namespace, MaestroClient, MaestroClientBuilder};
use crate::resources::meta::BuildError;
use crate::workflows::builder::WorkflowBuilder;
use crate::workflows::workflow::{ExecutionMode, Workflow, WorkflowMetadata};

verus! {

/// Deprecated: the builder of a workflow.
pub type JobBuilder = WorkflowBuilder;

/// Deprecated: a workflow.
pub type Job = Workflow;

/// Deprecated: the connection to the cluster.
pub type MaestroK8sClient = kube::Client;

/// Deprecated: how a workflow runs its steps.
pub type JobExecutionMode = ExecutionMode;

/// Deprecated: the labels and annotations of a workflow.
pub type JobConfig = WorkflowMetadata;

/// Deprecated: a client in the default namespace that only pretends to
/// change the cluster.
pub fn create_dry_run_client() -> (r: Result<MaestroClient, BuildError>)
    ensures
        r matches Ok(c) && c.dry_run && c.namespace@ == default_namespace() && c.client is None,
{
    MaestroClientBuilder::new().with_dry_run(true).build()
}

/// Deprecated: a client in the default namespace that changes the cluster.
pub fn create_production_client() -> (r: Result<MaestroClient, BuildError>)
    ensures
        r matches Ok(c) && !c.dry_run && c.namespace@ == default_namespace() && c.client is None,
{
    MaestroClientBuilder::new().build()
}

/// Deprecated: a client that changes the cluster in `namespace`.
pub fn create_client_for_namespace(namespace: &str) -> (r: Result<MaestroClient, BuildError>)
    ensures
        r matches Ok(c) && !c.dry_run && c.namespace@ == namespace@ && c.client is None,
{
    MaestroClientBuilder::new().with_namespace(namespace).build()
}

/// Whether every step of a migration is done: as many steps are complete
/// as there are steps in all.
pub fn migration_complete(completed_steps: &Vec<&str>, total_steps: usize) -> (r: bool)
    ensures
        r == (completed_steps@.len() == total_steps),
{
    completed_steps.len() == total_steps
}

/// A record of the steps of a migration that are done.
pub trait MigrationChecklist {
    /// The steps that are done.
    fn completed_steps() -> Vec<&'static str>;

    /// The number of steps in all.
    fn total_steps() -> (r: usize)
        default_ensures
            r == 6,
    {
        6
    }

    /// Whether every step is done: as many steps are done as there are
    /// steps in all, as the two methods report them.
    fn is_migration_complete() -> (r: bool)
        default_ensures
            exists|done: Vec<&'static str>, total: usize|
                call_ensures(Self::completed_steps, (), done) && call_ensures(Self::total_steps, (), total)
                    && r == (done@.len() == total),
    {
        let done = Self::completed_steps();
        migration_complete(&done, Self::total_steps())
    }
}

} // verus!

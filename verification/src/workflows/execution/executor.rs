//! The result of a step, read off the status that Kubernetes reports for
//! the job or pod that ran it.
use vstd::prelude::*;
use crate::steps::result::{JsonValue, StepResult, StepStatus};

verus! {

/// Runs steps on a cluster and reads back their results.
pub struct StepExecutor {
    pub client: kube::Client,
}

impl StepExecutor {
    /// An executor working through `client`.
    pub fn new(client: kube::Client) -> (r: Self)
        ensures
            r.client == client,
    {
        StepExecutor { client }
    }
}

/// The result of a job step: it failed when some pod of the job failed.
/// The counts of succeeded and failed pods (0 when not reported) are
/// recorded as the outputs `succeeded` and `failed`.
pub fn job_step_result(step_id: &str, succeeded: Option<i32>, failed: Option<i32>) -> (r: StepResult)
    ensures
        r.step_id@ == step_id@,
        r.status == (if failed.unwrap_or(0) > 0 {
            StepStatus::Failure
        } else {
            StepStatus::Success
        }),
        r.exit_code == (if failed.unwrap_or(0) > 0 {
            1i32
        } else {
            0i32
        }),
        r.outputs@ == Map::<Seq<char>, JsonValue>::empty().insert(
            "succeeded"@,
            JsonValue::Number(succeeded.unwrap_or(0) as i64),
        ).insert("failed"@, JsonValue::Number(failed.unwrap_or(0) as i64)),
{
    let s: i32 = match succeeded {
        Some(n) => n,
        None => 0,
    };
    let f: i32 = match failed {
        Some(n) => n,
        None => 0,
    };
    let failed_run = f > 0;
    StepResult::new(step_id).with_status(
        if failed_run {
            StepStatus::Failure
        } else {
            StepStatus::Success
        },
    ).with_exit_code(
        if failed_run {
            1
        } else {
            0
        },
    ).with_output("succeeded", JsonValue::Number(s as i64)).with_output(
        "failed",
        JsonValue::Number(f as i64),
    )
}

/// The result of a pod step: it succeeded exactly when the pod's phase is
/// `Succeeded`. The phase is recorded as the output `phase`.
pub fn pod_step_result(step_id: &str, phase: &str) -> (r: StepResult)
    ensures
        r.step_id@ == step_id@,
        r.status == (if phase@ == "Succeeded"@ {
            StepStatus::Success
        } else {
            StepStatus::Failure
        }),
        r.exit_code == (if phase@ == "Succeeded"@ {
            0i32
        } else {
            1i32
        }),
        r.outputs@.dom() == set!["phase"@],
        r.outputs@["phase"@] matches JsonValue::String(p) && p@ == phase@,
{
    let p = phase.to_string();
    let succeeded = p == String::from_str("Succeeded");
    let r = StepResult::new(step_id).with_status(
        if succeeded {
            StepStatus::Success
        } else {
            StepStatus::Failure
        },
    ).with_exit_code(
        if succeeded {
            0
        } else {
            1
        },
    ).with_output("phase", JsonValue::String(p));
    assert(r.outputs@.dom() =~= set!["phase"@]);
    r
}

} // verus!

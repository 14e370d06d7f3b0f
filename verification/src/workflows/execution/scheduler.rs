//! How many steps run at once, and what a failed step does to the run.
use vstd::prelude::*;
use crate::steps::result::{StepResult, StepStatus};
use crate::workflows::dependency::graph_model::views;
use crate::workflows::execution::workflow_execution::ExecutionError;

verus! {

/// What a failed step does to the run.
#[derive(Debug, Clone, Copy, PartialEq, Eq, Structural)]
pub enum FailureStrategy {
    /// The run stops at the first failed step.
    Stop,
    /// The run goes on.
    Continue,
}

/// Runs steps with a bounded parallelism under a failure strategy.
#[derive(Debug, Clone, Copy)]
pub struct Scheduler {
    pub parallelism: usize,
    pub failure_strategy: FailureStrategy,
}

/// `i` is the first result that reports a failure.
pub open spec fn first_failure(results: Seq<StepResult>, i: int) -> bool {
    &&& 0 <= i < results.len()
    &&& results[i].status == StepStatus::Failure
    &&& forall|h: int| 0 <= h < i ==> #[trigger] results[h].status != StepStatus::Failure
}

impl Scheduler {
    pub fn new(parallelism: usize, failure_strategy: FailureStrategy) -> (r: Self)
        ensures
            r.parallelism == parallelism,
            r.failure_strategy == failure_strategy,
    {
        Scheduler { parallelism, failure_strategy }
    }

    /// Whether every one of `dependencies` is among `completed_steps`.
    pub fn check_dependencies_satisfied(
        &self,
        step_id: &str,
        completed_steps: &Vec<String>,
        dependencies: &Vec<String>,
    ) -> (r: bool)
        ensures
            r == forall|i: int|
                0 <= i < dependencies@.len() ==> views(completed_steps@).contains(
                    #[trigger] dependencies@[i]@,
                ),
    {
        let mut i: usize = 0;
        while i < dependencies.len()
            invariant
                i <= dependencies@.len(),
                forall|q: int|
                    0 <= q < i ==> views(completed_steps@).contains(#[trigger] dependencies@[q]@),
            decreases dependencies@.len() - i,
        {
            if !contains_string(completed_steps, &dependencies[i]) {
                return false;
            }
            i = i + 1;
        }
        true
    }

    /// Under `Stop`, fails with the first failed step of `results`; under
    /// `Continue`, always succeeds.
    pub fn handle_failure(&self, results: &Vec<StepResult>) -> (r: Result<(), ExecutionError>)
        ensures
            (self.failure_strategy == FailureStrategy::Continue || forall|i: int|
                0 <= i < results@.len() ==> #[trigger] results@[i].status != StepStatus::Failure)
                ==> r is Ok,
            r matches Err(e) ==> self.failure_strategy == FailureStrategy::Stop && exists|i: int|
                first_failure(results@, i) && e == ExecutionError::StepFailed(results@[i].step_id),
            self.failure_strategy == FailureStrategy::Stop && (exists|i: int|
                0 <= i < results@.len() && #[trigger] results@[i].status == StepStatus::Failure)
                ==> exists|i: int|
                first_failure(results@, i) && r == Err::<(), ExecutionError>(
                    ExecutionError::StepFailed(results@[i].step_id),
                ),
    {
        if self.failure_strategy == FailureStrategy::Stop {
            let mut i: usize = 0;
            while i < results.len()
                invariant
                    i <= results@.len(),
                    self.failure_strategy == FailureStrategy::Stop,
                    forall|h: int| 0 <= h < i ==> #[trigger] results@[h].status != StepStatus::Failure,
                decreases results@.len() - i,
            {
                if results[i].is_failure() {
                    assert(first_failure(results@, i as int));
                    return Err(ExecutionError::StepFailed(results[i].step_id.clone()));
                }
                i = i + 1;
            }
        }
        Ok(())
    }
}

impl Default for Scheduler {
    /// One step at a time, stopping at the first failure.
    fn default() -> (r: Self)
        ensures
            r.parallelism == 1,
            r.failure_strategy == FailureStrategy::Stop,
    {
        Scheduler::new(1, FailureStrategy::Stop)
    }
}

/// Whether `x` is among `vs`, compared by characters.
pub fn contains_string(vs: &Vec<String>, x: &String) -> (r: bool)
    ensures
        r == views(vs@).contains(x@),
{
    let mut i: usize = 0;
    while i < vs.len()
        invariant
            i <= vs@.len(),
            forall|k: int| 0 <= k < i ==> vs@[k]@ != x@,
        decreases vs@.len() - i,
    {
        if vs[i] == *x {
            assert(views(vs@)[i as int] == x@);
            return true;
        }
        i = i + 1;
    }
    proof {
        if views(vs@).contains(x@) {
            let k = choose|k: int| 0 <= k < views(vs@).len() && views(vs@)[k] == x@;
            assert(vs@[k]@ == x@);
        }
    }
    false
}

} // verus!

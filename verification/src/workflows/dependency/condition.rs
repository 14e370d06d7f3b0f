//! Conditions on the results of the steps that a step depends on.
//!
//! A condition decides, from the results of a step's dependencies, whether
//! the step runs. Conditions are data: they are built by [`ConditionBuilder`]
//! and combined with `and`, `or` and `not`.
use vstd::prelude::*;
use crate::steps::result::{same_value, spec_as_i64, JsonValue, StepResult, StepStatus};

verus! {

/// A predicate over the results of a step's dependencies.
#[derive(Debug)]
pub enum Condition {
    /// Every dependency succeeded.
    AllSuccess,
    /// Some dependency succeeded.
    AnySuccess,
    /// Every dependency failed.
    AllFailure,
    /// Some dependency failed.
    AnyFailure,
    /// Some dependency reports an integer output under the key that is
    /// greater than the threshold (a missing or non-integer output counts as 0).
    OutputGreaterThan(String, i64),
    /// Some dependency reports exactly this output under the key.
    OutputEquals(String, JsonValue),
    /// Some dependency exited with this code.
    ExitCodeEquals(i32),
    /// Always holds.
    Always,
    /// Never holds.
    Never,
    /// Both conditions hold.
    And(Box<Condition>, Box<Condition>),
    /// At least one of the two conditions holds.
    Or(Box<Condition>, Box<Condition>),
    /// The condition does not hold.
    Not(Box<Condition>),
}

/// The name under which conditions are handed to graphs and chains.
pub type ConditionFn = Condition;

/// The integer output of `r` under `key`, or 0 when there is none.
pub open spec fn output_int_or_zero(r: StepResult, key: Seq<char>) -> int {
    if r.outputs@.contains_key(key) {
        match spec_as_i64(r.outputs@[key]) {
            Some(n) => n as int,
            None => 0,
        }
    } else {
        0
    }
}

/// `r` reports an output under `key` that is the same value as `v`.
pub open spec fn output_is(r: StepResult, key: Seq<char>, v: JsonValue) -> bool {
    r.outputs@.contains_key(key) && same_value(r.outputs@[key], v)
}

impl Condition {
    /// Whether the condition holds of the dependency results `deps`.
    pub open spec fn holds(self, deps: Seq<StepResult>) -> bool
        decreases self,
    {
        match self {
            Condition::AllSuccess => forall|i: int|
                0 <= i < deps.len() ==> #[trigger] deps[i].status == StepStatus::Success,
            Condition::AnySuccess => exists|i: int|
                0 <= i < deps.len() && #[trigger] deps[i].status == StepStatus::Success,
            Condition::AllFailure => forall|i: int|
                0 <= i < deps.len() ==> #[trigger] deps[i].status == StepStatus::Failure,
            Condition::AnyFailure => exists|i: int|
                0 <= i < deps.len() && #[trigger] deps[i].status == StepStatus::Failure,
            Condition::OutputGreaterThan(key, threshold) => exists|i: int|
                0 <= i < deps.len() && output_int_or_zero(#[trigger] deps[i], key@) > threshold,
            Condition::OutputEquals(key, v) => exists|i: int|
                0 <= i < deps.len() && output_is(#[trigger] deps[i], key@, v),
            Condition::ExitCodeEquals(code) => exists|i: int|
                0 <= i < deps.len() && #[trigger] deps[i].exit_code == code,
            Condition::Always => true,
            Condition::Never => false,
            Condition::And(a, b) => a.holds(deps) && b.holds(deps),
            Condition::Or(a, b) => a.holds(deps) || b.holds(deps),
            Condition::Not(c) => !c.holds(deps),
        }
    }

    /// Evaluates the condition on the dependency results `deps`.
    pub fn evaluate(&self, deps: &Vec<StepResult>) -> (r: bool)
        ensures
            r == self.holds(deps@),
        decreases self,
    {
        match self {
            Condition::AllSuccess => {
                let mut i: usize = 0;
                while i < deps.len()
                    invariant
                        *self == Condition::AllSuccess,
                        i <= deps@.len(),
                        forall|q: int| 0 <= q < i ==> #[trigger] deps@[q].status == StepStatus::Success,
                    decreases deps@.len() - i,
                {
                    if !deps[i].is_success() {
                        return false;
                    }
                    i = i + 1;
                }
                true
            },
            Condition::AnySuccess => {
                let mut i: usize = 0;
                while i < deps.len()
                    invariant
                        *self == Condition::AnySuccess,
                        i <= deps@.len(),
                        forall|q: int| 0 <= q < i ==> #[trigger] deps@[q].status != StepStatus::Success,
                    decreases deps@.len() - i,
                {
                    if deps[i].is_success() {
                        return true;
                    }
                    i = i + 1;
                }
                false
            },
            Condition::AllFailure => {
                let mut i: usize = 0;
                while i < deps.len()
                    invariant
                        *self == Condition::AllFailure,
                        i <= deps@.len(),
                        forall|q: int| 0 <= q < i ==> #[trigger] deps@[q].status == StepStatus::Failure,
                    decreases deps@.len() - i,
                {
                    if !deps[i].is_failure() {
                        return false;
                    }
                    i = i + 1;
                }
                true
            },
            Condition::AnyFailure => {
                let mut i: usize = 0;
                while i < deps.len()
                    invariant
                        *self == Condition::AnyFailure,
                        i <= deps@.len(),
                        forall|q: int| 0 <= q < i ==> #[trigger] deps@[q].status != StepStatus::Failure,
                    decreases deps@.len() - i,
                {
                    if deps[i].is_failure() {
                        return true;
                    }
                    i = i + 1;
                }
                false
            },
            Condition::OutputGreaterThan(key, threshold) => {
                let mut i: usize = 0;
                while i < deps.len()
                    invariant
                        *self == Condition::OutputGreaterThan(*key, *threshold),
                        i <= deps@.len(),
                        forall|q: int|
                            0 <= q < i ==> !(output_int_or_zero(#[trigger] deps@[q], key@)
                                > *threshold),
                    decreases deps@.len() - i,
                {
                    let value: i64 = match deps[i].get_output(key.as_str()) {
                        Some(v) => match v.as_i64() {
                            Some(n) => n,
                            None => 0,
                        },
                        None => 0,
                    };
                    if value > *threshold {
                        return true;
                    }
                    i = i + 1;
                }
                false
            },
            Condition::OutputEquals(key, expected) => {
                let mut i: usize = 0;
                while i < deps.len()
                    invariant
                        *self == Condition::OutputEquals(*key, *expected),
                        i <= deps@.len(),
                        forall|q: int| 0 <= q < i ==> !output_is(#[trigger] deps@[q], key@, *expected),
                    decreases deps@.len() - i,
                {
                    match deps[i].get_output(key.as_str()) {
                        Some(v) => {
                            if v.same_as(expected) {
                                return true;
                            }
                        },
                        None => {},
                    }
                    i = i + 1;
                }
                false
            },
            Condition::ExitCodeEquals(code) => {
                let mut i: usize = 0;
                while i < deps.len()
                    invariant
                        *self == Condition::ExitCodeEquals(*code),
                        i <= deps@.len(),
                        forall|q: int| 0 <= q < i ==> #[trigger] deps@[q].exit_code != *code,
                    decreases deps@.len() - i,
                {
                    if deps[i].exit_code == *code {
                        return true;
                    }
                    i = i + 1;
                }
                false
            },
            Condition::Always => true,
            Condition::Never => false,
            Condition::And(a, b) => a.evaluate(deps) && b.evaluate(deps),
            Condition::Or(a, b) => a.evaluate(deps) || b.evaluate(deps),
            Condition::Not(c) => !c.evaluate(deps),
        }
    }

    /// A copy of the condition: it holds of exactly the same results.
    pub fn duplicate(&self) -> (r: Condition)
        ensures
            forall|deps: Seq<StepResult>| #[trigger] r.holds(deps) == self.holds(deps),
        decreases self,
    {
        match self {
            Condition::AllSuccess => Condition::AllSuccess,
            Condition::AnySuccess => Condition::AnySuccess,
            Condition::AllFailure => Condition::AllFailure,
            Condition::AnyFailure => Condition::AnyFailure,
            Condition::OutputGreaterThan(key, threshold) => Condition::OutputGreaterThan(
                key.clone(),
                *threshold,
            ),
            Condition::OutputEquals(key, v) => Condition::OutputEquals(key.clone(), v.duplicate()),
            Condition::ExitCodeEquals(code) => Condition::ExitCodeEquals(*code),
            Condition::Always => Condition::Always,
            Condition::Never => Condition::Never,
            Condition::And(a, b) => {
                let da = (**a).duplicate();
                let db = (**b).duplicate();
                let r = Condition::And(Box::new(da), Box::new(db));
                assert forall|deps: Seq<StepResult>| #[trigger] r.holds(deps) == self.holds(deps) by {
                    assert(r.holds(deps) == (da.holds(deps) && db.holds(deps)));
                    assert(self.holds(deps) == (a.holds(deps) && b.holds(deps)));
                }
                r
            },
            Condition::Or(a, b) => {
                let da = (**a).duplicate();
                let db = (**b).duplicate();
                let r = Condition::Or(Box::new(da), Box::new(db));
                assert forall|deps: Seq<StepResult>| #[trigger] r.holds(deps) == self.holds(deps) by {
                    assert(r.holds(deps) == (da.holds(deps) || db.holds(deps)));
                    assert(self.holds(deps) == (a.holds(deps) || b.holds(deps)));
                }
                r
            },
            Condition::Not(c) => {
                let dc = (**c).duplicate();
                let r = Condition::Not(Box::new(dc));
                assert forall|deps: Seq<StepResult>| #[trigger] r.holds(deps) == self.holds(deps) by {
                    assert(r.holds(deps) == !dc.holds(deps));
                    assert(self.holds(deps) == !c.holds(deps));
                }
                r
            },
        }
    }
}


impl Clone for Condition {
    fn clone(&self) -> (r: Self)
        ensures
            forall|deps: Seq<StepResult>| #[trigger] r.holds(deps) == self.holds(deps),
    {
        self.duplicate()
    }
}

/// Constructors for the common conditions.
pub struct ConditionBuilder;

impl ConditionBuilder {
    /// Holds when every dependency succeeded.
    pub fn all_success() -> (r: Condition)
        ensures
            r == Condition::AllSuccess,
    {
        Condition::AllSuccess
    }

    /// Holds when some dependency succeeded.
    pub fn any_success() -> (r: Condition)
        ensures
            r == Condition::AnySuccess,
    {
        Condition::AnySuccess
    }

    /// Holds when every dependency failed.
    pub fn all_failure() -> (r: Condition)
        ensures
            r == Condition::AllFailure,
    {
        Condition::AllFailure
    }

    /// Holds when some dependency failed.
    pub fn any_failure() -> (r: Condition)
        ensures
            r == Condition::AnyFailure,
    {
        Condition::AnyFailure
    }

    /// Holds when some dependency's integer output under `key` exceeds `threshold`.
    pub fn output_greater_than(key: &str, threshold: i64) -> (r: Condition)
        ensures
            r matches Condition::OutputGreaterThan(k, t) && k@ == key@ && t == threshold,
    {
        Condition::OutputGreaterThan(key.to_string(), threshold)
    }

    /// Holds when some dependency's output under `key` is `value`.
    pub fn output_equals(key: &str, value: JsonValue) -> (r: Condition)
        ensures
            r matches Condition::OutputEquals(k, v) && k@ == key@ && v == value,
    {
        Condition::OutputEquals(key.to_string(), value)
    }

    /// Holds when some dependency exited with `code`.
    pub fn exit_code_equals(code: i32) -> (r: Condition)
        ensures
            r == Condition::ExitCodeEquals(code),
    {
        Condition::ExitCodeEquals(code)
    }

    /// Always holds.
    pub fn always_execute() -> (r: Condition)
        ensures
            r == Condition::Always,
    {
        Condition::Always
    }

    /// Never holds.
    pub fn never_execute() -> (r: Condition)
        ensures
            r == Condition::Never,
    {
        Condition::Never
    }

    /// Holds when every one of `conditions` holds (always, for none).
    pub fn and(conditions: Vec<Condition>) -> (r: Condition)
        ensures
            forall|deps: Seq<StepResult>| #[trigger]
                r.holds(deps) == (forall|i: int|
                    0 <= i < conditions@.len() ==> #[trigger] conditions@[i].holds(deps)),
    {
        let ghost all = conditions@;
        let mut rest = conditions;
        let mut acc = Condition::Always;
        while rest.len() > 0
            invariant
                rest@ == all.take(rest@.len() as int),
                rest@.len() <= all.len(),
                forall|deps: Seq<StepResult>| #[trigger]
                    acc.holds(deps) == (forall|i: int|
                        rest@.len() <= i < all.len() ==> #[trigger] all[i].holds(deps)),
            decreases rest@.len(),
        {
            let ghost n = rest@.len();
            let c = rest.pop().unwrap();
            let ghost prev = acc;
            acc = Condition::And(Box::new(c), Box::new(acc));
            assert(rest@ =~= all.take(rest@.len() as int));
            assert forall|deps: Seq<StepResult>| #[trigger]
                acc.holds(deps) == (forall|i: int|
                    rest@.len() <= i < all.len() ==> #[trigger] all[i].holds(deps)) by {
                assert(acc.holds(deps) == (c.holds(deps) && prev.holds(deps)));
                assert(c == all[n - 1]);
                if forall|i: int| rest@.len() <= i < all.len() ==> #[trigger] all[i].holds(deps) {
                    assert(all[n - 1].holds(deps));
                }
            }
        }
        acc
    }

    /// Holds when some one of `conditions` holds (never, for none).
    pub fn or(conditions: Vec<Condition>) -> (r: Condition)
        ensures
            forall|deps: Seq<StepResult>| #[trigger]
                r.holds(deps) == (exists|i: int|
                    0 <= i < conditions@.len() && #[trigger] conditions@[i].holds(deps)),
    {
        let ghost all = conditions@;
        let mut rest = conditions;
        let mut acc = Condition::Never;
        while rest.len() > 0
            invariant
                rest@ == all.take(rest@.len() as int),
                rest@.len() <= all.len(),
                forall|deps: Seq<StepResult>| #[trigger]
                    acc.holds(deps) == (exists|i: int|
                        rest@.len() <= i < all.len() && #[trigger] all[i].holds(deps)),
            decreases rest@.len(),
        {
            let ghost n = rest@.len();
            let c = rest.pop().unwrap();
            let ghost prev = acc;
            acc = Condition::Or(Box::new(c), Box::new(acc));
            assert(rest@ =~= all.take(rest@.len() as int));
            assert forall|deps: Seq<StepResult>| #[trigger]
                acc.holds(deps) == (exists|i: int|
                    rest@.len() <= i < all.len() && #[trigger] all[i].holds(deps)) by {
                assert(acc.holds(deps) == (c.holds(deps) || prev.holds(deps)));
                assert(c == all[n - 1]);
                if all[n - 1].holds(deps) {
                    assert(rest@.len() <= n - 1 < all.len());
                }
            }
        }
        acc
    }

    /// Holds when `condition` does not.
    pub fn not(condition: Condition) -> (r: Condition)
        ensures
            r == Condition::Not(Box::new(condition)),
            forall|deps: Seq<StepResult>| #[trigger] r.holds(deps) == !condition.holds(deps),
    {
        Condition::Not(Box::new(condition))
    }
}

} // verus!

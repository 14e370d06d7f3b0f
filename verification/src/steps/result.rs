//! The outcome of running one workflow step.
use vstd::prelude::*;
use std::time::Duration;
use crate::collections::OrderedMap;

verus! {

/// How a step ended.
#[derive(Debug, Clone, Copy, PartialEq, Eq, Structural)]
pub enum StepStatus {
    Success,
    Failure,
    Skipped,
}

/// A value that a step reports as one of its outputs: JSON without
/// fractional numbers.
#[derive(Debug, PartialEq, Eq)]
pub enum JsonValue {
    Null,
    Bool(bool),
    Number(i64),
    String(String),
    /// The items, in order.
    Array(Vec<JsonValue>),
    /// The members, each a name and a value, in order.
    Object(Vec<(String, JsonValue)>),
}

/// What an output value is, as plain data: two values are the same value
/// when their data are equal.
pub ghost enum JsonData {
    Null,
    Bool(bool),
    Number(i64),
    Text(Seq<char>),
    List(Seq<JsonData>),
    Members(Seq<(Seq<char>, JsonData)>),
}

/// The data of a value.
pub open spec fn json_data(v: JsonValue) -> JsonData
    decreases v, 0nat,
{
    match v {
        JsonValue::Null => JsonData::Null,
        JsonValue::Bool(b) => JsonData::Bool(b),
        JsonValue::Number(n) => JsonData::Number(n),
        JsonValue::String(s) => JsonData::Text(s@),
        JsonValue::Array(items) => JsonData::List(items_data(items@)),
        JsonValue::Object(members) => JsonData::Members(members_data(members@)),
    }
}

/// The data of each item, in order.
pub open spec fn items_data(items: Seq<JsonValue>) -> Seq<JsonData>
    decreases items, 1nat,
{
    if items.len() == 0 {
        Seq::empty()
    } else {
        items_data(items.drop_last()).push(json_data(items.last()))
    }
}

/// The name and the data of each member, in order.
pub open spec fn members_data(members: Seq<(String, JsonValue)>) -> Seq<(Seq<char>, JsonData)>
    decreases members, 1nat,
{
    if members.len() == 0 {
        Seq::empty()
    } else {
        members_data(members.drop_last()).push((members.last().0@, json_data(members.last().1)))
    }
}

/// Two output values are the same value.
pub open spec fn same_value(a: JsonValue, b: JsonValue) -> bool {
    json_data(a) == json_data(b)
}

/// Two maps of output values hold the same keys, each with the same value.
pub open spec fn same_values(a: Map<Seq<char>, JsonValue>, b: Map<Seq<char>, JsonValue>) -> bool {
    &&& a.dom() == b.dom()
    &&& forall|k: Seq<char>| #[trigger] a.contains_key(k) ==> same_value(a[k], b[k])
}

/// The integer an output value holds, if it is an integer.
pub open spec fn spec_as_i64(v: JsonValue) -> Option<i64> {
    match v {
        JsonValue::Number(n) => Some(n),
        _ => None,
    }
}

impl JsonValue {
    /// The integer this value holds, if it is an integer.
    pub fn as_i64(&self) -> (r: Option<i64>)
        ensures
            r == spec_as_i64(*self),
    {
        match self {
            JsonValue::Number(n) => Some(*n),
            _ => None,
        }
    }

    /// A copy of the value.
    pub fn duplicate(&self) -> (r: JsonValue)
        ensures
            same_value(r, *self),
            spec_as_i64(r) == spec_as_i64(*self),
        decreases self,
    {
        match self {
            JsonValue::Null => JsonValue::Null,
            JsonValue::Bool(b) => JsonValue::Bool(*b),
            JsonValue::Number(n) => JsonValue::Number(*n),
            JsonValue::String(s) => JsonValue::String(s.clone()),
            JsonValue::Array(items) => {
                let mut out: Vec<JsonValue> = Vec::new();
                let mut i: usize = 0;
                while i < items.len()
                    invariant
                        i <= items@.len(),
                        *self == JsonValue::Array(*items),
                        out@.len() == i,
                        items_data(out@) == items_data(items@.take(i as int)),
                    decreases items@.len() - i,
                {
                    proof {
                        assert(decreases_to!(*self => self->Array_0));
                        assert(self->Array_0 == *items);
                        assert(decreases_to!(*items => items@));
                        assert(decreases_to!(items@ => items@[i as int]));
                    }
                    let v = items[i].duplicate();
                    let ghost before = out@;
                    out.push(v);
                    proof {
                        assert(out@.drop_last() =~= before);
                        assert(items@.take(i + 1).drop_last() =~= items@.take(i as int));
                    }
                    i = i + 1;
                }
                assert(items@.take(items@.len() as int) =~= items@);
                JsonValue::Array(out)
            },
            JsonValue::Object(members) => {
                let mut out: Vec<(String, JsonValue)> = Vec::new();
                let mut i: usize = 0;
                while i < members.len()
                    invariant
                        i <= members@.len(),
                        *self == JsonValue::Object(*members),
                        out@.len() == i,
                        members_data(out@) == members_data(members@.take(i as int)),
                    decreases members@.len() - i,
                {
                    proof {
                        assert(decreases_to!(*self => self->Object_0));
                        assert(self->Object_0 == *members);
                        assert(decreases_to!(*members => members@));
                        assert(decreases_to!(members@ => members@[i as int]));
                        assert(decreases_to!(members@[i as int] => members@[i as int].1));
                    }
                    let name = members[i].0.clone();
                    let v = members[i].1.duplicate();
                    let ghost before = out@;
                    out.push((name, v));
                    proof {
                        assert(out@.drop_last() =~= before);
                        assert(members@.take(i + 1).drop_last() =~= members@.take(i as int));
                    }
                    i = i + 1;
                }
                assert(members@.take(members@.len() as int) =~= members@);
                JsonValue::Object(out)
            },
        }
    }

    /// Whether two values are the same value.
    pub fn same_as(&self, other: &JsonValue) -> (r: bool)
        ensures
            r == same_value(*self, *other),
        decreases self,
    {
        match (self, other) {
            (JsonValue::Null, JsonValue::Null) => true,
            (JsonValue::Bool(x), JsonValue::Bool(y)) => *x == *y,
            (JsonValue::Number(x), JsonValue::Number(y)) => *x == *y,
            (JsonValue::String(x), JsonValue::String(y)) => *x == *y,
            (JsonValue::Array(xs), JsonValue::Array(ys)) => {
                if xs.len() != ys.len() {
                    proof {
                        lemma_items_data_len(xs@);
                        lemma_items_data_len(ys@);
                    }
                    return false;
                }
                let mut i: usize = 0;
                while i < xs.len()
                    invariant
                        i <= xs@.len(),
                        xs@.len() == ys@.len(),
                        *self == JsonValue::Array(*xs),
                        *other == JsonValue::Array(*ys),
                        items_data(xs@.take(i as int)) == items_data(ys@.take(i as int)),
                    decreases xs@.len() - i,
                {
                    proof {
                        assert(decreases_to!(*self => *xs));
                        assert(decreases_to!(*xs => xs@));
                        assert(decreases_to!(xs@ => xs@[i as int]));
                        assert(xs@.take(i + 1).drop_last() =~= xs@.take(i as int));
                        assert(ys@.take(i + 1).drop_last() =~= ys@.take(i as int));
                    }
                    if !xs[i].same_as(&ys[i]) {
                        proof {
                            lemma_items_data_at(xs@, i as int);
                            lemma_items_data_at(ys@, i as int);
                            assert(json_data(*self) == JsonData::List(items_data(xs@)));
                            assert(json_data(*other) == JsonData::List(items_data(ys@)));
                        }
                        return false;
                    }
                    i = i + 1;
                }
                assert(xs@.take(xs@.len() as int) =~= xs@);
                assert(ys@.take(ys@.len() as int) =~= ys@);
                true
            },
            (JsonValue::Object(xs), JsonValue::Object(ys)) => {
                if xs.len() != ys.len() {
                    proof {
                        lemma_members_data_len(xs@);
                        lemma_members_data_len(ys@);
                    }
                    return false;
                }
                let mut i: usize = 0;
                while i < xs.len()
                    invariant
                        i <= xs@.len(),
                        xs@.len() == ys@.len(),
                        *self == JsonValue::Object(*xs),
                        *other == JsonValue::Object(*ys),
                        members_data(xs@.take(i as int)) == members_data(ys@.take(i as int)),
                    decreases xs@.len() - i,
                {
                    proof {
                        assert(decreases_to!(*self => *xs));
                        assert(decreases_to!(*xs => xs@));
                        assert(decreases_to!(xs@ => xs@[i as int]));
                        assert(decreases_to!(xs@[i as int] => xs@[i as int].1));
                        assert(xs@.take(i + 1).drop_last() =~= xs@.take(i as int));
                        assert(ys@.take(i + 1).drop_last() =~= ys@.take(i as int));
                    }
                    if xs[i].0 != ys[i].0 || !xs[i].1.same_as(&ys[i].1) {
                        proof {
                            lemma_members_data_at(xs@, i as int);
                            lemma_members_data_at(ys@, i as int);
                            assert(json_data(*self) == JsonData::Members(members_data(xs@)));
                            assert(json_data(*other) == JsonData::Members(members_data(ys@)));
                        }
                        return false;
                    }
                    i = i + 1;
                }
                assert(xs@.take(xs@.len() as int) =~= xs@);
                assert(ys@.take(ys@.len() as int) =~= ys@);
                true
            },
            _ => false,
        }
    }
}

impl Clone for JsonValue {
    /// The same value.
    fn clone(&self) -> (r: Self)
        ensures
            same_value(r, *self),
    {
        self.duplicate()
    }
}

/// The data of the items has one entry per item.
proof fn lemma_items_data_len(items: Seq<JsonValue>)
    ensures
        items_data(items).len() == items.len(),
    decreases items.len(),
{
    if items.len() > 0 {
        lemma_items_data_len(items.drop_last());
    }
}

/// Entry `i` of the data of the items is the data of item `i`.
proof fn lemma_items_data_at(items: Seq<JsonValue>, i: int)
    requires
        0 <= i < items.len(),
    ensures
        items_data(items).len() == items.len(),
        items_data(items)[i] == json_data(items[i]),
    decreases items.len(),
{
    lemma_items_data_len(items);
    if i < items.len() - 1 {
        lemma_items_data_at(items.drop_last(), i);
    }
}

/// The data of the members has one entry per member.
proof fn lemma_members_data_len(members: Seq<(String, JsonValue)>)
    ensures
        members_data(members).len() == members.len(),
    decreases members.len(),
{
    if members.len() > 0 {
        lemma_members_data_len(members.drop_last());
    }
}

/// Entry `i` of the data of the members is the name and the data of member `i`.
proof fn lemma_members_data_at(members: Seq<(String, JsonValue)>, i: int)
    requires
        0 <= i < members.len(),
    ensures
        members_data(members).len() == members.len(),
        members_data(members)[i] == (members[i].0@, json_data(members[i].1)),
    decreases members.len(),
{
    lemma_members_data_len(members);
    if i < members.len() - 1 {
        lemma_members_data_at(members.drop_last(), i);
    }
}

/// `Duration` is `Copy`; its `clone` (std) hands back the same duration.
pub assume_specification[ <Duration as Clone>::clone ](d: &Duration) -> (r: Duration)
    ensures
        r == *d,
;

/// The duration of `secs` whole seconds, as `Duration::from_secs` makes it.
pub uninterp spec fn secs_duration(secs: u64) -> Duration;

/// The duration of `secs` seconds (`Duration::from_secs`): a function of
/// the number of seconds alone.
#[verifier::external_body]
pub(crate) fn duration_from_secs(secs: u64) -> (r: Duration)
    ensures
        r == secs_duration(secs),
{
    Duration::from_secs(secs)
}

/// `a` and `b` report the same: the same step, status, exit code,
/// outputs, streams, metadata and execution time.
pub open spec fn same_result(a: StepResult, b: StepResult) -> bool {
    &&& a.step_id@ == b.step_id@
    &&& a.status == b.status
    &&& a.exit_code == b.exit_code
    &&& same_values(a.outputs@, b.outputs@)
    &&& a.stdout@ == b.stdout@
    &&& a.stderr@ == b.stderr@
    &&& a.metadata@ == b.metadata@
    &&& a.execution_time == b.execution_time
}

/// What a step reports once it has run.
#[derive(Debug, Clone)]
pub struct StepResult {
    pub step_id: String,
    pub status: StepStatus,
    pub exit_code: i32,
    pub outputs: OrderedMap<JsonValue>,
    pub stdout: String,
    pub stderr: String,
    pub metadata: OrderedMap<String>,
    pub execution_time: Duration,
}

impl StepResult {
    /// A skipped result with exit code -1 and nothing recorded.
    pub fn new(step_id: &str) -> (r: Self)
        ensures
            r.step_id@ == step_id@,
            r.status == StepStatus::Skipped,
            r.exit_code == -1,
            r.outputs@ == Map::<Seq<char>, JsonValue>::empty(),
            r.stdout@ == Seq::<char>::empty(),
            r.stderr@ == Seq::<char>::empty(),
            r.metadata@ == Map::<Seq<char>, String>::empty(),
    {
        StepResult {
            step_id: step_id.to_string(),
            status: StepStatus::Skipped,
            exit_code: -1,
            outputs: OrderedMap::new(),
            stdout: String::new(),
            stderr: String::new(),
            metadata: OrderedMap::new(),
            execution_time: duration_from_secs(0),
        }
    }

    /// A copy that reports the same.
    pub fn duplicate(&self) -> (r: Self)
        ensures
            same_result(r, *self),
    {
        StepResult {
            step_id: self.step_id.clone(),
            status: self.status,
            exit_code: self.exit_code,
            outputs: self.outputs.duplicate(),
            stdout: self.stdout.clone(),
            stderr: self.stderr.clone(),
            metadata: self.metadata.duplicate(),
            execution_time: self.execution_time,
        }
    }

    pub fn with_status(self, status: StepStatus) -> (r: Self)
        ensures
            r == (StepResult { status, ..self }),
    {
        StepResult { status, ..self }
    }

    pub fn with_exit_code(self, exit_code: i32) -> (r: Self)
        ensures
            r == (StepResult { exit_code, ..self }),
    {
        StepResult { exit_code, ..self }
    }

    /// Records an output value under `key`.
    pub fn with_output(self, key: &str, value: JsonValue) -> (r: Self)
        ensures
            r.outputs@ == self.outputs@.insert(key@, value),
            r == (StepResult { outputs: r.outputs, ..self }),
    {
        let mut s = self;
        s.outputs.insert(key.to_string(), value);
        s
    }

    pub fn with_stdout(self, stdout: &str) -> (r: Self)
        ensures
            r.stdout@ == stdout@,
            r == (StepResult { stdout: r.stdout, ..self }),
    {
        StepResult { stdout: stdout.to_string(), ..self }
    }

    pub fn with_stderr(self, stderr: &str) -> (r: Self)
        ensures
            r.stderr@ == stderr@,
            r == (StepResult { stderr: r.stderr, ..self }),
    {
        StepResult { stderr: stderr.to_string(), ..self }
    }

    /// Records a metadata entry.
    pub fn with_metadata(self, key: &str, value: &str) -> (r: Self)
        ensures
            r.metadata@.dom() == self.metadata@.dom().insert(key@),
            r.metadata@[key@]@ == value@,
            forall|k: Seq<char>| k != key@ && self.metadata@.contains_key(k) ==> r.metadata@[k]
                == self.metadata@[k],
            r == (StepResult { metadata: r.metadata, ..self }),
    {
        let mut s = self;
        let v = value.to_string();
        let ghost vv = v;
        s.metadata.insert(key.to_string(), v);
        proof {
            assert(s.metadata@ == self.metadata@.insert(key@, vv));
        }
        s
    }

    pub fn with_execution_time(self, execution_time: Duration) -> (r: Self)
        ensures
            r == (StepResult { execution_time, ..self }),
    {
        StepResult { execution_time, ..self }
    }

    pub fn is_success(&self) -> (r: bool)
        ensures
            r == (self.status == StepStatus::Success),
    {
        self.status == StepStatus::Success
    }

    pub fn is_failure(&self) -> (r: bool)
        ensures
            r == (self.status == StepStatus::Failure),
    {
        self.status == StepStatus::Failure
    }

    pub fn is_skipped(&self) -> (r: bool)
        ensures
            r == (self.status == StepStatus::Skipped),
    {
        self.status == StepStatus::Skipped
    }

    /// The output recorded under `key`, if any.
    pub fn get_output_value(&self, key: &str) -> (r: Option<&JsonValue>)
        ensures
            r is Some <==> self.outputs@.contains_key(key@),
            r matches Some(v) ==> *v == self.outputs@[key@],
    {
        self.outputs.get(key)
    }

    /// The output recorded under `key`, if any.
    pub fn get_output(&self, key: &str) -> (r: Option<&JsonValue>)
        ensures
            r is Some <==> self.outputs@.contains_key(key@),
            r matches Some(v) ==> *v == self.outputs@[key@],
    {
        self.get_output_value(key)
    }
}

impl Default for StepResult {
    fn default() -> (r: Self)
        ensures
            r.step_id@ == "default"@,
            r.status == StepStatus::Skipped,
            r.exit_code == -1,
    {
        StepResult::new("default")
    }
}

} // verus!

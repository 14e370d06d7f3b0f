//! Checkpoint settings: how often to record, where to store, how long to
//! keep, and the reading of these settings from text.
use vstd::prelude::*;
use crate::collections::OrderedMap;
use crate::workflows::checkpointing::time::{parse_i64, parse_i64_str, span_in_bounds, TimeDelta};

verus! {

/// Whether `c` has the Unicode White_Space property (`char::is_whitespace`).
pub open spec fn is_white_space(c: char) -> bool {
    let v = c as u32;
    ||| 0x9 <= v <= 0xd
    ||| v == 0x20 || v == 0x85 || v == 0xa0 || v == 0x1680
    ||| 0x2000 <= v <= 0x200a
    ||| v == 0x2028 || v == 0x2029 || v == 0x202f || v == 0x205f || v == 0x3000
}

/// The text without its leading whitespace.
pub open spec fn trim_start(s: Seq<char>) -> Seq<char>
    decreases s.len(),
{
    if s.len() > 0 && is_white_space(s[0]) {
        trim_start(s.drop_first())
    } else {
        s
    }
}

/// The text without its trailing whitespace.
pub open spec fn trim_end(s: Seq<char>) -> Seq<char>
    decreases s.len(),
{
    if s.len() > 0 && is_white_space(s.last()) {
        trim_end(s.drop_last())
    } else {
        s
    }
}

/// The text with leading and trailing whitespace removed, as `str::trim`
/// removes it.
pub open spec fn trimmed(s: Seq<char>) -> Seq<char> {
    trim_end(trim_start(s))
}

/// Whether `c` has the Unicode White_Space property.
fn white_space(c: char) -> (r: bool)
    ensures
        r == is_white_space(c),
{
    let v = c as u32;
    (0x9 <= v && v <= 0xd) || v == 0x20 || v == 0x85 || v == 0xa0 || v == 0x1680 || (0x2000 <= v && v
        <= 0x200a) || v == 0x2028 || v == 0x2029 || v == 0x202f || v == 0x205f || v == 0x3000
}

/// `s` without its leading and trailing whitespace.
pub(crate) fn trim_text(s: &str) -> (r: String)
    ensures
        r@ == trimmed(s@),
{
    let n = s.unicode_len();
    let mut i: usize = 0;
    assert(s@.subrange(0, n as int) =~= s@);
    while i < n && white_space(s.get_char(i))
        invariant
            n == s@.len(),
            i <= n,
            trim_start(s@) == trim_start(s@.subrange(i as int, n as int)),
        decreases n - i,
    {
        assert(s@.subrange(i as int, n as int).drop_first() =~= s@.subrange(i + 1, n as int));
        i = i + 1;
    }
    assert(trim_start(s@) == s@.subrange(i as int, n as int));
    let mut j: usize = n;
    while j > i && white_space(s.get_char(j - 1))
        invariant
            n == s@.len(),
            i <= j <= n,
            trim_end(s@.subrange(i as int, n as int)) == trim_end(s@.subrange(i as int, j as int)),
        decreases j - i,
    {
        assert(s@.subrange(i as int, j as int).drop_last() =~= s@.subrange(i as int, j - 1));
        j = j - 1;
    }
    assert(trim_end(s@.subrange(i as int, j as int)) == s@.subrange(i as int, j as int));
    s.substring_char(i, j).to_string()
}

/// The lowercase form of the text, as `str::to_lowercase` computes it.
pub uninterp spec fn lowercase(s: Seq<char>) -> Seq<char>;

/// The lowercase form of `s` (`str::to_lowercase`).
#[verifier::external_body]
pub(crate) fn lowercase_text(s: &str) -> (r: String)
    ensures
        r@ == lowercase(s@),
{
    s.to_lowercase()
}

/// When a workflow records a checkpoint.
#[derive(Debug, Clone, Copy, PartialEq, Eq, Structural)]
pub enum CheckpointFrequency {
    OnStepCompletion,
    OnSuccess,
    Periodic(TimeDelta),
}

impl Default for CheckpointFrequency {
    fn default() -> (r: Self)
        ensures
            r == CheckpointFrequency::OnStepCompletion,
    {
        CheckpointFrequency::OnStepCompletion
    }
}

/// What reading a span from `s` gives: the number of seconds, or the
/// message of the error. The text is trimmed and lowercased; it ends in
/// `s`, `m` or `h` after a whole number of seconds, minutes or hours.
pub open spec fn duration_outcome(s: Seq<char>) -> Result<int, Seq<char>> {
    let t = lowercase(trimmed(s));
    let n = t.drop_last();
    if t.len() > 0 && t.last() == 's' {
        match parse_i64(n) {
            Some(v) => Ok(v as int),
            None => Err("Invalid seconds format: "@ + t),
        }
    } else if t.len() > 0 && t.last() == 'm' {
        match parse_i64(n) {
            Some(v) => Ok(v * 60),
            None => Err("Invalid minutes format: "@ + t),
        }
    } else if t.len() > 0 && t.last() == 'h' {
        match parse_i64(n) {
            Some(v) => Ok(v * 3600),
            None => Err("Invalid hours format: "@ + t),
        }
    } else {
        Err("Invalid duration format: "@ + t + ". Use format like '30s', '5m', '1h'"@)
    }
}

/// Reading `s` as a span gives one within bounds, or an error.
pub open spec fn duration_fits(s: Seq<char>) -> bool {
    duration_outcome(s) matches Ok(n) ==> span_in_bounds(n)
}

/// The number of seconds that `s` writes, or the message of the error,
/// before any bound on spans is applied.
fn read_span(s: &str) -> (r: Result<i128, String>)
    ensures
        match duration_outcome(s@) {
            Ok(n) => r == Ok::<i128, String>(n as i128),
            Err(m) => r matches Err(e) && e@ == m,
        },
{
    let trimmed_s = trim_text(s);
    let t = lowercase_text(trimmed_s.as_str());
    let len = t.as_str().unicode_len();
    if len == 0 {
        let mut m = String::from_str("Invalid duration format: ");
        m.append(t.as_str());
        m.append(". Use format like '30s', '5m', '1h'");
        return Err(m);
    }
    let last = t.as_str().get_char(len - 1);
    let number = t.as_str().substring_char(0, len - 1);
    assert(number@ == t@.drop_last());
    if last == 's' {
        match parse_i64_str(number) {
            Some(v) => Ok(v as i128),
            None => {
                let mut m = String::from_str("Invalid seconds format: ");
                m.append(t.as_str());
                Err(m)
            },
        }
    } else if last == 'm' {
        match parse_i64_str(number) {
            Some(v) => Ok(v as i128 * 60),
            None => {
                let mut m = String::from_str("Invalid minutes format: ");
                m.append(t.as_str());
                Err(m)
            },
        }
    } else if last == 'h' {
        match parse_i64_str(number) {
            Some(v) => Ok(v as i128 * 3600),
            None => {
                let mut m = String::from_str("Invalid hours format: ");
                m.append(t.as_str());
                Err(m)
            },
        }
    } else {
        let mut m = String::from_str("Invalid duration format: ");
        m.append(t.as_str());
        m.append(". Use format like '30s', '5m', '1h'");
        Err(m)
    }
}

/// Whether reading `s` as a span gives one within bounds, or an error.
pub fn duration_in_bounds(s: &str) -> (r: bool)
    ensures
        r == duration_fits(s@),
{
    match read_span(s) {
        Ok(n) => -9223372036854775 <= n && n <= 9223372036854775,
        Err(_) => true,
    }
}

/// Reads a span written like `30s`, `5m` or `1h`.
pub fn parse_duration(s: &str) -> (r: Result<TimeDelta, String>)
    requires
        duration_fits(s@),
    ensures
        match duration_outcome(s@) {
            Ok(n) => r == Ok::<TimeDelta, String>(TimeDelta::of_seconds(n)),
            Err(m) => r matches Err(e) && e@ == m,
        },
{
    match read_span(s) {
        Ok(n) => Ok(TimeDelta::seconds(n as i64)),
        Err(m) => Err(m),
    }
}

/// Reads a span as `parse_duration` does, when the span it writes is
/// within bounds; `None` when it is not.
pub fn try_parse_duration(s: &str) -> (r: Option<Result<TimeDelta, String>>)
    ensures
        !duration_fits(s@) ==> r is None,
        duration_fits(s@) ==> match duration_outcome(s@) {
            Ok(n) => r == Some(Ok::<TimeDelta, String>(TimeDelta::of_seconds(n))),
            Err(m) => r matches Some(Err(e)) && e@ == m,
        },
{
    if duration_in_bounds(s) {
        Some(parse_duration(s))
    } else {
        None
    }
}

/// What reading a frequency from `s` gives: the named frequencies (in any
/// case), else a period, else an error naming `s`.
pub open spec fn frequency_outcome(s: Seq<char>) -> Result<CheckpointFrequency, Seq<char>> {
    let l = lowercase(s);
    if l == "on_step_completion"@ || l == "onstepcompletion"@ {
        Ok(CheckpointFrequency::OnStepCompletion)
    } else if l == "on_success"@ || l == "onsuccess"@ {
        Ok(CheckpointFrequency::OnSuccess)
    } else {
        match duration_outcome(s) {
            Ok(n) => Ok(CheckpointFrequency::Periodic(TimeDelta::of_seconds(n))),
            Err(_) => Err("Invalid checkpoint frequency: "@ + s),
        }
    }
}

impl CheckpointFrequency {
    /// Reads a frequency: `on_step_completion`, `on_success` (with or
    /// without the underscores, in any case), or a period such as `30s`.
    pub fn from_str(s: &str) -> (r: Result<CheckpointFrequency, String>)
        requires
            duration_fits(s@),
        ensures
            match frequency_outcome(s@) {
                Ok(f) => r == Ok::<CheckpointFrequency, String>(f),
                Err(m) => r matches Err(e) && e@ == m,
            },
    {
        let l = lowercase_text(s);
        if l == String::from_str("on_step_completion") || l == String::from_str("onstepcompletion") {
            return Ok(CheckpointFrequency::OnStepCompletion);
        }
        if l == String::from_str("on_success") || l == String::from_str("onsuccess") {
            return Ok(CheckpointFrequency::OnSuccess);
        }
        match parse_duration(s) {
            Ok(d) => Ok(CheckpointFrequency::Periodic(d)),
            Err(_) => {
                let mut m = String::from_str("Invalid checkpoint frequency: ");
                m.append(s);
                Err(m)
            },
        }
    }
}

/// Where checkpoints are stored.
#[derive(Debug, Clone, PartialEq, Eq)]
pub enum CheckpointStorageConfig {
    Sqlite { namespace: String, pvc_size: String },
    Etcd { endpoints: Vec<String> },
    Redis { url: String },
    Postgres { connection_string: String },
}

impl Default for CheckpointStorageConfig {
    /// SQLite in `default`, on a 1Gi volume.
    fn default() -> (r: Self)
        ensures
            r matches CheckpointStorageConfig::Sqlite { namespace, pvc_size } && namespace@
                == "default"@ && pvc_size@ == "1Gi"@,
    {
        CheckpointStorageConfig::Sqlite {
            namespace: String::from_str("default"),
            pvc_size: String::from_str("1Gi"),
        }
    }
}

/// How long checkpoints are kept, and how many.
#[derive(Debug, Clone, Copy, PartialEq, Eq)]
pub struct RetentionPolicy {
    pub max_age: Option<TimeDelta>,
    pub max_count: Option<usize>,
}

/// What validating a retention policy answers.
pub open spec fn retention_problem(p: RetentionPolicy) -> Option<Seq<char>> {
    if p.max_count == Some(0usize) {
        Some("max_count must be greater than 0"@)
    } else if p.max_age matches Some(d) && d.spec_seconds() <= 0 {
        Some("max_age must be greater than 0"@)
    } else {
        None
    }
}

impl Default for RetentionPolicy {
    /// A week, and ten checkpoints.
    fn default() -> (r: Self)
        ensures
            r.max_age matches Some(d) && d.spec_seconds() == 7 * 86400,
            r.max_count == Some(10usize),
    {
        RetentionPolicy { max_age: Some(TimeDelta::days(7)), max_count: Some(10) }
    }
}

impl RetentionPolicy {
    pub fn new() -> (r: Self)
        ensures
            r.max_age matches Some(d) && d.spec_seconds() == 7 * 86400,
            r.max_count == Some(10usize),
    {
        RetentionPolicy::default()
    }

    pub fn with_max_age(self, duration: TimeDelta) -> (r: Self)
        ensures
            r == (RetentionPolicy { max_age: Some(duration), ..self }),
    {
        RetentionPolicy { max_age: Some(duration), ..self }
    }

    pub fn with_max_count(self, count: usize) -> (r: Self)
        ensures
            r == (RetentionPolicy { max_count: Some(count), ..self }),
    {
        RetentionPolicy { max_count: Some(count), ..self }
    }

    /// A count, when set, must be positive; then an age, when set, must be.
    pub fn validate(&self) -> (r: Result<(), String>)
        ensures
            match retention_problem(*self) {
                None => r is Ok,
                Some(m) => r matches Err(e) && e@ == m,
            },
    {
        match self.max_count {
            Some(c) => {
                if c == 0 {
                    return Err(String::from_str("max_count must be greater than 0"));
                }
            },
            None => {},
        }
        match self.max_age {
            Some(d) => {
                if d.num_seconds() <= 0 {
                    return Err(String::from_str("max_age must be greater than 0"));
                }
            },
            None => {},
        }
        Ok(())
    }
}

/// The checkpoint settings of the system.
#[derive(Debug, Clone)]
pub struct CheckpointConfig {
    pub enabled: bool,
    pub frequency: CheckpointFrequency,
    pub storage: CheckpointStorageConfig,
    pub retention_policy: RetentionPolicy,
}

/// What validating checkpoint settings answers: the retention problem,
/// then, when enabled, an empty setting of the chosen storage.
pub open spec fn config_problem(c: CheckpointConfig) -> Option<Seq<char>> {
    match retention_problem(c.retention_policy) {
        Some(m) => Some(m),
        None => if !c.enabled {
            None
        } else {
            match c.storage {
                CheckpointStorageConfig::Sqlite { namespace, pvc_size } => if namespace@.len() == 0 {
                    Some("namespace cannot be empty for SQLite storage"@)
                } else if pvc_size@.len() == 0 {
                    Some("pvc_size cannot be empty for SQLite storage"@)
                } else {
                    None
                },
                CheckpointStorageConfig::Etcd { endpoints } => if endpoints@.len() == 0 {
                    Some("endpoints cannot be empty for Etcd storage"@)
                } else {
                    None
                },
                CheckpointStorageConfig::Redis { url } => if url@.len() == 0 {
                    Some("url cannot be empty for Redis storage"@)
                } else {
                    None
                },
                CheckpointStorageConfig::Postgres { connection_string } => if connection_string@.len()
                    == 0 {
                    Some("connection_string cannot be empty for Postgres storage"@)
                } else {
                    None
                },
            }
        },
    }
}

impl Default for CheckpointConfig {
    /// Disabled, on each step's completion, SQLite storage, default retention.
    fn default() -> (r: Self)
        ensures
            !r.enabled,
            r.frequency == CheckpointFrequency::OnStepCompletion,
            r.storage matches CheckpointStorageConfig::Sqlite { namespace, pvc_size } && namespace@
                == "default"@ && pvc_size@ == "1Gi"@,
            r.retention_policy.max_age matches Some(d) && d.spec_seconds() == 7 * 86400,
            r.retention_policy.max_count == Some(10usize),
    {
        CheckpointConfig {
            enabled: false,
            frequency: CheckpointFrequency::default(),
            storage: CheckpointStorageConfig::default(),
            retention_policy: RetentionPolicy::default(),
        }
    }
}

impl CheckpointConfig {
    pub fn new() -> (r: Self)
        ensures
            !r.enabled,
            r.frequency == CheckpointFrequency::OnStepCompletion,
            r.storage matches CheckpointStorageConfig::Sqlite { namespace, pvc_size } && namespace@
                == "default"@ && pvc_size@ == "1Gi"@,
            r.retention_policy.max_age matches Some(d) && d.spec_seconds() == 7 * 86400,
            r.retention_policy.max_count == Some(10usize),
    {
        CheckpointConfig::default()
    }

    pub fn enabled(self, enabled: bool) -> (r: Self)
        ensures
            r == (CheckpointConfig { enabled, ..self }),
    {
        CheckpointConfig { enabled, ..self }
    }

    pub fn with_frequency(self, frequency: CheckpointFrequency) -> (r: Self)
        ensures
            r == (CheckpointConfig { frequency, ..self }),
    {
        CheckpointConfig { frequency, ..self }
    }

    pub fn with_storage(self, storage: CheckpointStorageConfig) -> (r: Self)
        ensures
            r == (CheckpointConfig { storage, ..self }),
    {
        CheckpointConfig { storage, ..self }
    }

    pub fn with_retention_policy(self, policy: RetentionPolicy) -> (r: Self)
        ensures
            r == (CheckpointConfig { retention_policy: policy, ..self }),
    {
        CheckpointConfig { retention_policy: policy, ..self }
    }

    /// Checks the retention policy, then, when enabled, that the chosen
    /// storage has its settings.
    pub fn validate(&self) -> (r: Result<(), String>)
        ensures
            match config_problem(*self) {
                None => r is Ok,
                Some(m) => r matches Err(e) && e@ == m,
            },
    {
        match self.retention_policy.validate() {
            Err(e) => {
                return Err(e);
            },
            Ok(_) => {},
        }
        if self.enabled {
            match &self.storage {
                CheckpointStorageConfig::Sqlite { namespace, pvc_size } => {
                    if namespace.as_str().unicode_len() == 0 {
                        return Err(String::from_str("namespace cannot be empty for SQLite storage"));
                    }
                    if pvc_size.as_str().unicode_len() == 0 {
                        return Err(String::from_str("pvc_size cannot be empty for SQLite storage"));
                    }
                },
                CheckpointStorageConfig::Etcd { endpoints } => {
                    if endpoints.len() == 0 {
                        return Err(String::from_str("endpoints cannot be empty for Etcd storage"));
                    }
                },
                CheckpointStorageConfig::Redis { url } => {
                    if url.as_str().unicode_len() == 0 {
                        return Err(String::from_str("url cannot be empty for Redis storage"));
                    }
                },
                CheckpointStorageConfig::Postgres { connection_string } => {
                    if connection_string.as_str().unicode_len() == 0 {
                        return Err(
                            String::from_str("connection_string cannot be empty for Postgres storage"),
                        );
                    }
                },
            }
        }
        Ok(())
    }
}

} // verus!

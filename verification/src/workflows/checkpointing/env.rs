//! Checkpoint settings read from environment variables: what each variable
//! means, and the settings that a set of variables gives.
use vstd::prelude::*;
use crate::collections::views;
use crate::text::char_text;
use crate::workflows::checkpointing::config::{
    config_problem, duration_fits, duration_in_bounds, duration_outcome, frequency_outcome,
    lowercase, lowercase_text, parse_duration, trim_text, trimmed, CheckpointConfig,
    CheckpointFrequency, CheckpointStorageConfig, RetentionPolicy,
};
use crate::workflows::checkpointing::time::{all_digits, digits_up_to, digits_value, TimeDelta};

verus! {

/// The checkpoint variables of an environment, each as set, or `None`
/// where it is not set: `CHECKPOINTING_ENABLED`, `CHECKPOINTING_FREQUENCY`,
/// `CHECKPOINT_STORAGE_TYPE`, `CHECKPOINT_SQLITE_NAMESPACE`,
/// `CHECKPOINT_SQLITE_PVC_SIZE`, `CHECKPOINT_ETCD_ENDPOINTS`,
/// `CHECKPOINT_REDIS_URL`, `CHECKPOINT_POSTGRES_CONNECTION_STRING`,
/// `CHECKPOINT_RETENTION_MAX_AGE` and `CHECKPOINT_RETENTION_MAX_COUNT`.
#[derive(Debug, Clone, Default)]
pub struct CheckpointEnv {
    pub enabled: Option<String>,
    pub frequency: Option<String>,
    pub storage_type: Option<String>,
    pub sqlite_namespace: Option<String>,
    pub sqlite_pvc_size: Option<String>,
    pub etcd_endpoints: Option<String>,
    pub redis_url: Option<String>,
    pub postgres_connection_string: Option<String>,
    pub retention_max_age: Option<String>,
    pub retention_max_count: Option<String>,
}

/// The text of a variable, or `d` where it is not set.
pub open spec fn or_default(v: Option<String>, d: Seq<char>) -> Seq<char> {
    match v {
        Some(s) => s@,
        None => d,
    }
}

/// The parts of `s` between its commas, in order: one more than there are
/// commas, empty parts included.
pub open spec fn split_commas(s: Seq<char>) -> Seq<Seq<char>>
    decreases s.len(),
{
    if s.len() == 0 {
        seq![Seq::<char>::empty()]
    } else {
        let rest = split_commas(s.drop_last());
        if s.last() == ',' {
            rest.push(Seq::<char>::empty())
        } else {
            rest.update(rest.len() - 1, rest.last().push(s.last()))
        }
    }
}

/// Each text without its surrounding whitespace.
pub open spec fn trimmed_parts(parts: Seq<Seq<char>>) -> Seq<Seq<char>> {
    parts.map_values(|p: Seq<char>| trimmed(p))
}

/// The count that `s` writes: an optional `+`, then decimal digits, within
/// the range of `usize`; none otherwise.
pub open spec fn parse_usize(s: Seq<char>) -> Option<usize> {
    let d = if s.len() > 0 && s[0] == '+' {
        s.skip(1)
    } else {
        s
    };
    if all_digits(d) && digits_value(d) <= usize::MAX {
        Some(digits_value(d) as usize)
    } else {
        None
    }
}

/// The storage kind that the environment names, in lowercase (SQLite when
/// unset).
pub open spec fn storage_kind(env: CheckpointEnv) -> Seq<char> {
    lowercase(or_default(env.storage_type, "sqlite"@))
}

/// The environment names one of the four storage kinds.
pub open spec fn storage_known(env: CheckpointEnv) -> bool {
    let k = storage_kind(env);
    k == "sqlite"@ || k == "etcd"@ || k == "redis"@ || k == "postgres"@
}

/// `c` is the storage that the environment selects, with the defaults of
/// the variables that are not set.
pub open spec fn env_storage(env: CheckpointEnv, c: CheckpointStorageConfig) -> bool {
    let k = storage_kind(env);
    if k == "sqlite"@ {
        c matches CheckpointStorageConfig::Sqlite { namespace, pvc_size } && namespace@ == or_default(
            env.sqlite_namespace,
            "default"@,
        ) && pvc_size@ == or_default(env.sqlite_pvc_size, "1Gi"@)
    } else if k == "etcd"@ {
        c matches CheckpointStorageConfig::Etcd { endpoints } && views(endpoints@) == trimmed_parts(
            split_commas(or_default(env.etcd_endpoints, "http://localhost:2379"@)),
        )
    } else if k == "redis"@ {
        c matches CheckpointStorageConfig::Redis { url } && url@ == or_default(
            env.redis_url,
            "redis://localhost:6379"@,
        )
    } else {
        c matches CheckpointStorageConfig::Postgres { connection_string } && connection_string@
            == or_default(env.postgres_connection_string, "postgresql://localhost:5432/checkpoints"@)
    }
}

/// The maximum age that the environment sets: none where it is unset or
/// does not read as a span.
pub open spec fn env_max_age(env: CheckpointEnv) -> Option<TimeDelta> {
    match env.retention_max_age {
        Some(a) => match duration_outcome(a@) {
            Ok(n) => Some(TimeDelta::of_seconds(n)),
            Err(_) => None,
        },
        None => None,
    }
}

/// The maximum count that the environment sets: none where it is unset or
/// does not read as a count.
pub open spec fn env_max_count(env: CheckpointEnv) -> Option<usize> {
    match env.retention_max_count {
        Some(s) => parse_usize(s@),
        None => None,
    }
}

/// `c` holds what the environment sets: enabled exactly when the variable
/// reads `true`, the frequency `f`, the selected storage and the retention
/// limits.
pub open spec fn env_config(env: CheckpointEnv, f: CheckpointFrequency, c: CheckpointConfig) -> bool {
    &&& c.enabled == (or_default(env.enabled, "false"@) == "true"@)
    &&& c.frequency == f
    &&& env_storage(env, c.storage)
    &&& c.retention_policy.max_age == env_max_age(env)
    &&& c.retention_policy.max_count == env_max_count(env)
}

/// Every span that the environment writes is within bounds.
pub open spec fn env_spans_fit(env: CheckpointEnv) -> bool {
    &&& duration_fits(or_default(env.frequency, "on_step_completion"@))
    &&& env.retention_max_age matches Some(a) ==> duration_fits(a@)
}

/// The text of a variable, or `d`.
fn text_or(v: &Option<String>, d: &str) -> (r: String)
    ensures
        r@ == or_default(*v, d@),
{
    match v {
        Some(s) => s.clone(),
        None => d.to_string(),
    }
}

/// The count that `s` writes.
pub fn parse_usize_str(s: &str) -> (r: Option<usize>)
    ensures
        r == parse_usize(s@),
{
    let n = s.unicode_len();
    let start: usize = if n > 0 && s.get_char(0) == '+' {
        1
    } else {
        0
    };
    assert(start == 0 ==> s@.skip(0) =~= s@);
    match digits_up_to(s, start, usize::MAX as u64) {
        Some(v) => Some(v as usize),
        None => None,
    }
}

/// The parts of `s` between its commas, each trimmed.
pub fn split_trimmed(s: &str) -> (r: Vec<String>)
    ensures
        views(r@) == trimmed_parts(split_commas(s@)),
{
    let n = s.unicode_len();
    let mut done: Vec<String> = Vec::new();
    let mut cur = String::new();
    let mut i: usize = 0;
    assert(s@.take(0) =~= Seq::<char>::empty());
    assert(views(done@).push(cur@) =~= split_commas(s@.take(0)));
    while i < n
        invariant
            n == s@.len(),
            i <= n,
            views(done@).push(cur@) == split_commas(s@.take(i as int)),
        decreases n - i,
    {
        let c = s.get_char(i);
        let ghost before = views(done@).push(cur@);
        assert(s@.take(i + 1).drop_last() =~= s@.take(i as int));
        assert(s@.take(i + 1).last() == c);
        if c == ',' {
            let part = cur;
            done.push(part);
            cur = String::new();
            assert(views(done@).push(cur@) =~= before.push(Seq::<char>::empty()));
        } else {
            let ghost old_cur = cur@;
            cur.append(char_text(c).as_str());
            assert(cur@ =~= old_cur.push(c));
            assert(views(done@).push(cur@) =~= before.update(before.len() - 1, old_cur.push(c)));
        }
        i = i + 1;
    }
    assert(s@.take(n as int) =~= s@);
    done.push(cur);
    let ghost raw = views(done@);
    let mut r: Vec<String> = Vec::new();
    let mut j: usize = 0;
    while j < done.len()
        invariant
            j <= done@.len(),
            raw == views(done@),
            views(r@) == trimmed_parts(raw).take(j as int),
        decreases done@.len() - j,
    {
        let t = trim_text(done[j].as_str());
        let ghost prev = views(r@);
        r.push(t);
        assert(views(r@) =~= prev.push(t@));
        assert(trimmed_parts(raw).take(j + 1) =~= trimmed_parts(raw).take(j as int).push(
            trimmed(raw[j as int]),
        ));
        j = j + 1;
    }
    assert(trimmed_parts(raw).take(done@.len() as int) =~= trimmed_parts(raw));
    r
}

/// The storage that the environment selects, or the error naming the
/// unsupported kind as it was set.
fn env_storage_config(env: &CheckpointEnv) -> (r: Result<CheckpointStorageConfig, String>)
    ensures
        storage_known(*env) ==> (r matches Ok(c) && env_storage(*env, c)),
        !storage_known(*env) ==> (r matches Err(e) && e@ == "Unsupported storage type: "@ + or_default(
            env.storage_type,
            "sqlite"@,
        )),
{
    let raw = text_or(&env.storage_type, "sqlite");
    let kind = lowercase_text(raw.as_str());
    if kind == String::from_str("sqlite") {
        Ok(
            CheckpointStorageConfig::Sqlite {
                namespace: text_or(&env.sqlite_namespace, "default"),
                pvc_size: text_or(&env.sqlite_pvc_size, "1Gi"),
            },
        )
    } else if kind == String::from_str("etcd") {
        let all = text_or(&env.etcd_endpoints, "http://localhost:2379");
        Ok(CheckpointStorageConfig::Etcd { endpoints: split_trimmed(all.as_str()) })
    } else if kind == String::from_str("redis") {
        Ok(CheckpointStorageConfig::Redis { url: text_or(&env.redis_url, "redis://localhost:6379") })
    } else if kind == String::from_str("postgres") {
        Ok(
            CheckpointStorageConfig::Postgres {
                connection_string: text_or(
                    &env.postgres_connection_string,
                    "postgresql://localhost:5432/checkpoints",
                ),
            },
        )
    } else {
        let mut m = String::from_str("Unsupported storage type: ");
        m.append(raw.as_str());
        Err(m)
    }
}

impl CheckpointConfig {
    /// The settings that the environment's variables give, checked: the
    /// frequency's error, then an unsupported storage kind, then the first
    /// problem of the settings, in that order.
    pub fn from_env_vars(env: &CheckpointEnv) -> (r: Result<CheckpointConfig, String>)
        requires
            env_spans_fit(*env),
        ensures
            match frequency_outcome(or_default(env.frequency, "on_step_completion"@)) {
                Err(m) => r matches Err(e) && e@ == m,
                Ok(f) => if !storage_known(*env) {
                    r matches Err(e) && e@ == "Unsupported storage type: "@ + or_default(
                        env.storage_type,
                        "sqlite"@,
                    )
                } else {
                    exists|c: CheckpointConfig|
                        #![trigger env_config(*env, f, c)]
                        env_config(*env, f, c) && match config_problem(c) {
                            None => r matches Ok(rc) && rc == c,
                            Some(m) => r matches Err(e) && e@ == m,
                        }
                },
            },
    {
        let enabled_text = text_or(&env.enabled, "false");
        let enabled = enabled_text == String::from_str("true");
        let frequency_text = text_or(&env.frequency, "on_step_completion");
        let frequency = match CheckpointFrequency::from_str(frequency_text.as_str()) {
            Ok(f) => f,
            Err(e) => return Err(e),
        };
        let storage = match env_storage_config(env) {
            Ok(s) => s,
            Err(e) => return Err(e),
        };
        let max_age = match &env.retention_max_age {
            Some(a) => match parse_duration(a.as_str()) {
                Ok(d) => Some(d),
                Err(_) => None,
            },
            None => None,
        };
        let max_count = match &env.retention_max_count {
            Some(s) => parse_usize_str(s.as_str()),
            None => None,
        };
        let config = CheckpointConfig {
            enabled,
            frequency,
            storage,
            retention_policy: RetentionPolicy { max_age, max_count },
        };
        assert(env_config(*env, frequency, config));
        match config.validate() {
            Ok(()) => Ok(config),
            Err(e) => Err(e),
        }
    }

    /// The settings that the environment's variables give, as
    /// `from_env_vars` reads them, when every span they write is within
    /// bounds; `None` when one is not.
    pub fn try_from_env_vars(env: &CheckpointEnv) -> (r: Option<Result<CheckpointConfig, String>>)
        ensures
            !env_spans_fit(*env) ==> r is None,
            env_spans_fit(*env) ==> r is Some,
            r matches Some(x) ==> match frequency_outcome(or_default(env.frequency, "on_step_completion"@)) {
                Err(m) => x matches Err(e) && e@ == m,
                Ok(f) => if !storage_known(*env) {
                    x matches Err(e) && e@ == "Unsupported storage type: "@ + or_default(
                        env.storage_type,
                        "sqlite"@,
                    )
                } else {
                    exists|c: CheckpointConfig|
                        #![trigger env_config(*env, f, c)]
                        env_config(*env, f, c) && match config_problem(c) {
                            None => x matches Ok(rc) && rc == c,
                            Some(m) => x matches Err(e) && e@ == m,
                        }
                },
            },
    {
        let frequency_text = text_or(&env.frequency, "on_step_completion");
        if !duration_in_bounds(frequency_text.as_str()) {
            return None;
        }
        match &env.retention_max_age {
            Some(a) => {
                if !duration_in_bounds(a.as_str()) {
                    return None;
                }
            },
            None => {},
        }
        Some(CheckpointConfig::from_env_vars(env))
    }
}

} // verus!

//! The errors of checkpoint storage, and the decisions its clients make:
//! which backend a configuration selects, where the storage service
//! answers, what an HTTP failure means, and when to try again.
use vstd::prelude::*;
use crate::text::{decimal, decimal_text};
use crate::workflows::checkpointing::config::CheckpointStorageConfig;

verus! {

/// Why a storage operation failed.
#[derive(Debug, Clone, PartialEq, Eq)]
pub enum StorageError {
    ConnectionError(String),
    NotFound(String),
    AlreadyExists(String),
    VersionConflict { expected: u32, actual: u32 },
    SerializationError(String),
    NetworkError(String),
    InternalError(String),
}

impl StorageError {
    /// The description of the error.
    pub open spec fn message(self) -> Seq<char> {
        match self {
            StorageError::ConnectionError(m) => "Connection error: "@ + m@,
            StorageError::NotFound(m) => "Checkpoint not found: "@ + m@,
            StorageError::AlreadyExists(m) => "Checkpoint already exists: "@ + m@,
            StorageError::VersionConflict { expected, actual } => "Version conflict: expected "@
                + decimal(expected as nat) + ", got "@ + decimal(actual as nat),
            StorageError::SerializationError(m) => "Serialization error: "@ + m@,
            StorageError::NetworkError(m) => "Network error: "@ + m@,
            StorageError::InternalError(m) => "Internal error: "@ + m@,
        }
    }

    /// The description of the error.
    pub fn to_string(&self) -> (r: String)
        ensures
            r@ == self.message(),
    {
        match self {
            StorageError::ConnectionError(m) => prefixed("Connection error: ", m),
            StorageError::NotFound(m) => prefixed("Checkpoint not found: ", m),
            StorageError::AlreadyExists(m) => prefixed("Checkpoint already exists: ", m),
            StorageError::VersionConflict { expected, actual } => {
                let mut s = String::from_str("Version conflict: expected ");
                s.append(decimal_text(*expected as u64).as_str());
                s.append(", got ");
                s.append(decimal_text(*actual as u64).as_str());
                s
            },
            StorageError::SerializationError(m) => prefixed("Serialization error: ", m),
            StorageError::NetworkError(m) => prefixed("Network error: ", m),
            StorageError::InternalError(m) => prefixed("Internal error: ", m),
        }
    }

    /// A failure that may pass on a later attempt: a network or connection
    /// error.
    pub open spec fn is_transient(self) -> bool {
        self is NetworkError || self is ConnectionError
    }
}

/// `prefix` followed by `m`.
fn prefixed(prefix: &str, m: &String) -> (r: String)
    ensures
        r@ == prefix@ + m@,
{
    let mut s = String::from_str(prefix);
    s.append(m.as_str());
    s
}

/// The namespace of the SQLite storage service that `config` selects; the
/// other backends are refused, as none of them is available.
pub fn storage_namespace(config: &CheckpointStorageConfig) -> (r: Result<String, StorageError>)
    ensures
        match *config {
            CheckpointStorageConfig::Sqlite { namespace, .. } => r matches Ok(n) && n@ == namespace@,
            CheckpointStorageConfig::Etcd { .. } => r matches Err(StorageError::InternalError(m))
                && m@ == "Etcd storage not yet implemented"@,
            CheckpointStorageConfig::Redis { .. } => r matches Err(StorageError::InternalError(m))
                && m@ == "Redis storage not yet implemented"@,
            CheckpointStorageConfig::Postgres { .. } => r matches Err(StorageError::InternalError(m))
                && m@ == "Postgres storage not yet implemented"@,
        },
{
    match config {
        CheckpointStorageConfig::Sqlite { namespace, .. } => Ok(namespace.clone()),
        CheckpointStorageConfig::Etcd { .. } => Err(
            StorageError::InternalError(String::from_str("Etcd storage not yet implemented")),
        ),
        CheckpointStorageConfig::Redis { .. } => Err(
            StorageError::InternalError(String::from_str("Redis storage not yet implemented")),
        ),
        CheckpointStorageConfig::Postgres { .. } => Err(
            StorageError::InternalError(String::from_str("Postgres storage not yet implemented")),
        ),
    }
}

/// The address of `path` on the storage service `service_name` of
/// `namespace`.
pub open spec fn storage_url(service_name: Seq<char>, namespace: Seq<char>, path: Seq<char>) -> Seq<char> {
    "http://"@ + service_name + "."@ + namespace + "/api/v1"@ + path
}

/// The address of `path` on the storage service `service_name` of
/// `namespace`; an empty path gives the base address.
pub fn storage_endpoint(service_name: &str, namespace: &str, path: &str) -> (r: String)
    ensures
        r@ == storage_url(service_name@, namespace@, path@),
{
    let mut s = String::from_str("http://");
    s.append(service_name);
    s.append(".");
    s.append(namespace);
    s.append("/api/v1");
    s.append(path);
    s
}

/// What an unsuccessful HTTP answer of the storage service means, from its
/// status code, the status as written (code and reason) and its body.
pub fn status_error(code: u16, status_text: &str, body: String) -> (r: StorageError)
    ensures
        code == 404 ==> r == StorageError::NotFound(body),
        code == 409 ==> r == StorageError::AlreadyExists(body),
        code == 500 ==> r == StorageError::InternalError(body),
        code != 404 && code != 409 && code != 500 ==> (r matches StorageError::NetworkError(m) && m@
            == "HTTP "@ + status_text@ + ": "@ + body@),
{
    if code == 404 {
        StorageError::NotFound(body)
    } else if code == 409 {
        StorageError::AlreadyExists(body)
    } else if code == 500 {
        StorageError::InternalError(body)
    } else {
        let mut s = String::from_str("HTTP ");
        s.append(status_text);
        s.append(": ");
        s.append(body.as_str());
        StorageError::NetworkError(s)
    }
}

/// The version a checkpoint update expects to replace: the one before its
/// own, or 0.
pub fn expected_version(version: u32) -> (r: u32)
    ensures
        r == (if version == 0 { 0 } else { version - 1 }),
{
    version.saturating_sub(1)
}

/// The conflict reported when the stored version is not the one an update
/// of a checkpoint at `version` expected.
pub fn version_conflict(version: u32) -> (r: StorageError)
    ensures
        r == (StorageError::VersionConflict {
            expected: if version == 0 { 0 } else { (version - 1) as u32 },
            actual: version,
        }),
{
    StorageError::VersionConflict { expected: expected_version(version), actual: version }
}

/// Whether a failed attempt (counted from 0) is tried again: only a
/// transient failure, and only when another attempt remains.
pub fn should_retry(attempt: u32, max_retries: u32, error: &StorageError) -> (r: bool)
    ensures
        r == (attempt + 1 < max_retries && error.is_transient()),
{
    if attempt >= max_retries || max_retries - attempt <= 1 {
        return false;
    }
    match error {
        StorageError::NetworkError(_) | StorageError::ConnectionError(_) => true,
        _ => false,
    }
}

/// The error when no attempt is allowed at all.
pub fn retries_exhausted() -> (r: StorageError)
    ensures
        r matches StorageError::InternalError(m) && m@ == "Max retries exceeded"@,
{
    StorageError::InternalError(String::from_str("Max retries exceeded"))
}

} // verus!

//! Object metadata and the error that a builder reports.
use vstd::prelude::*;
use crate::collections::OrderedMap;

verus! {

/// The metadata of a Kubernetes object.
#[derive(Debug, Clone, PartialEq)]
pub struct ObjectMeta {
    pub name: Option<String>,
    pub namespace: Option<String>,
    pub labels: Option<OrderedMap<String>>,
    pub annotations: Option<OrderedMap<String>>,
}

impl ObjectMeta {
    /// Metadata with a name and a namespace, and no labels or annotations.
    pub fn named(name: String, namespace: String) -> (r: Self)
        ensures
            r.name == Some(name),
            r.namespace == Some(namespace),
            r.labels is None,
            r.annotations is None,
    {
        ObjectMeta { name: Some(name), namespace: Some(namespace), labels: None, annotations: None }
    }
}

/// Why a builder could not build its object.
#[derive(Debug, Clone, PartialEq, Eq)]
pub struct BuildError {
    pub message: String,
}

impl BuildError {
    /// An error with the given message.
    pub fn new(message: &str) -> (r: Self)
        ensures
            r.message@ == message@,
    {
        BuildError { message: message.to_string() }
    }

    /// The message that describes the error.
    pub fn to_string(&self) -> (r: String)
        ensures
            r@ == self.message@,
    {
        self.message.clone()
    }
}

/// `r` failed with exactly the message `m`.
pub open spec fn fails_with<T>(r: Result<T, BuildError>, m: Seq<char>) -> bool {
    match r {
        Ok(_) => false,
        Err(e) => e.message@ == m,
    }
}

} // verus!

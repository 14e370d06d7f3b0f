//! Plain-data models of the Kubernetes objects that the builders produce,
//! shaped like the API objects they stand for.
pub mod meta;
pub mod network;
pub mod security;
pub mod rbac;
pub mod workload;
pub mod policy;

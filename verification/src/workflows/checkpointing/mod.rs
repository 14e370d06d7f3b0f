//! Recording workflow progress: settings, checkpoints, storage and cleanup.
pub mod time;
pub mod config;
pub mod env;
pub mod statefulset;
pub mod models;
pub mod storage;
pub mod cleanup;

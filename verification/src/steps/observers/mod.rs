//! Observing the files a step writes: what is watched and how, the events
//! and contents of files, and an in-memory cache of recent files.
pub mod observer_config;
pub mod file_event;
pub mod cache;
pub mod file_observer;

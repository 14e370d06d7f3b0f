//! Removing the checkpoints that a retention policy no longer keeps.
pub mod cleanup_manager;

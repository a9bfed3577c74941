//! Persistent configuration and runtime state.
pub mod config;
pub mod state;

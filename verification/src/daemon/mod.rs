//! The daemon's logic: backends, request handling, runtime paths, state.
pub mod backend;
pub mod handlers;
pub mod mock;
pub mod paths;
pub mod protocol;
pub mod scx;
pub mod state;

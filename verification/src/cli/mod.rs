//! The control CLI's logic: command-line parsing, the request it sends,
//! client errors and the rendering of the daemon's answer.
pub mod commands;
pub mod error;
pub mod output;

//! Verified core of the CerynthOS control plane: the IPC protocol types, the
//! daemon's request handling, the adaptation guardrails and policy logic, the
//! scheduler's task ordering and the telemetry parsers.
pub mod text;
pub mod scan;
pub mod ipc;
pub mod policy;
pub mod clock;
pub mod json;
pub mod scx;
pub mod config;
pub mod daemon;
pub mod cli;
pub mod telemetry;

//! System telemetry: CPU time accounting and the parsers of `/proc` files.
pub mod cpu;
pub mod meminfo;
pub mod procstat;
pub mod pidstat;

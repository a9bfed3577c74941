//! The sched_ext scheduler's own logic: profiles, dispatch order, status.
pub mod policy;
pub mod profile;
pub mod status;

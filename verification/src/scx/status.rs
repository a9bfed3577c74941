//! The scheduler's status file, which the daemon reads for its heartbeat.
use vstd::prelude::*;
use crate::clock::{unix_time_millis, unix_time_secs};
use crate::scx::profile::Profile;
use crate::text::owned;

verus! {

/// Directory of the status file.
pub const STATUS_DIR: &'static str = "/run/cerynth";

/// The status file.
pub const STATUS_PATH: &'static str = "/run/cerynth/scheduler.json";

/// The file the status is first written to, then renamed over the status file.
pub const STATUS_TMP_PATH: &'static str = "/run/cerynth/scheduler.json.tmp";

/// Milliseconds since the Unix epoch, truncated to 64 bits; `0` when the
/// clock reads earlier than the epoch.
pub fn now_ms() -> u64 {
    match unix_time_millis() {
        Some(ms) => #[verifier::truncate] (ms as u64),
        None => 0,
    }
}

/// What the scheduler reports of itself.
#[derive(Debug, Clone, PartialEq, Eq)]
pub struct SchedulerStatus {
    pub running: bool,
    pub pid: u32,
    /// The profile's name in lower case ("balanced", ...), empty once stopped.
    pub profile: String,
    pub healthy: bool,
    pub started_at_ms: u64,
    pub sched_ext_state: String,
    /// Whole seconds since the Unix epoch at which the status was made.
    /// The daemon takes the scheduler for unhealthy once this is more than
    /// ten seconds old.
    pub heartbeat: u64,
}

impl SchedulerStatus {
    /// The status of the running scheduler `pid` on `profile`, started at
    /// `started_at_ms`, with the current sched_ext state; the heartbeat is
    /// the time of the call.
    pub fn running(profile: Profile, started_at_ms: u64, pid: u32, sched_ext_state: String) -> (r: SchedulerStatus)
        ensures
            r.running,
            r.healthy,
            r.pid == pid,
            r.profile@ == match profile {
                Profile::Balanced => "balanced"@,
                Profile::Interactive => "interactive"@,
                Profile::Performance => "performance"@,
                Profile::Background => "background"@,
            },
            r.started_at_ms == started_at_ms,
            r.sched_ext_state == sched_ext_state,
    {
        SchedulerStatus {
            running: true,
            pid,
            profile: owned(profile.name()),
            healthy: true,
            started_at_ms,
            sched_ext_state,
            heartbeat: unix_time_secs(),
        }
    }

    /// The status of the scheduler `pid` once stopped, with the current
    /// sched_ext state; the heartbeat is the time of the call.
    pub fn stopped(pid: u32, sched_ext_state: String) -> (r: SchedulerStatus)
        ensures
            !r.running,
            !r.healthy,
            r.pid == pid,
            r.profile@ == Seq::<char>::empty(),
            r.started_at_ms == 0,
            r.sched_ext_state == sched_ext_state,
    {
        SchedulerStatus {
            running: false,
            pid,
            profile: String::new(),
            healthy: false,
            started_at_ms: 0,
            sched_ext_state,
            heartbeat: unix_time_secs(),
        }
    }
}

} // verus!

//! The sched_ext backend's decisions. The process work (spawning the
//! scheduler, signalling and reaping it, reading its state files, sleeping
//! between polls) is done by the caller, which hands each outcome back here.
use vstd::prelude::*;
use crate::daemon::backend::RollbackResult;
use crate::daemon::paths::{resolve, resolved};
use crate::ipc::backend::{AdaptationMode, SchedulerBackend, SchedulerStatus};
use crate::ipc::profile::{profile_debug_name, profile_name, Profile};
use crate::json::{json_u64_member, u64_member};
use crate::scan::trim;
use crate::telemetry::procstat::trimmed;
use crate::text::{decimal, decimal_string, join2, owned, str_equals};

verus! {

broadcast use vstd::string::group_string_axioms;

/// How old a heartbeat may be, in seconds, before the scheduler counts as
/// unhealthy.
pub const HEARTBEAT_TIMEOUT_SECS: u64 = 10;

/// How long a start waits for the scheduler to become healthy, in seconds.
pub const START_TIMEOUT_SECS: u64 = 5;

/// How long a stop waits after `SIGTERM` before `SIGKILL`, in seconds.
pub const STOP_TIMEOUT_SECS: u64 = 5;

/// Pause between two polls of the scheduler process, in milliseconds.
pub const POLL_INTERVAL_MS: u64 = 100;

/// Default sched_ext state file.
pub const DEFAULT_SCX_STATE_PATH: &'static str = "/sys/kernel/sched_ext/state";

/// Default scheduler heartbeat file.
pub const DEFAULT_HEARTBEAT_PATH: &'static str = "/run/cerynth/scheduler.json";

/// Environment variable overriding the sched_ext state file.
pub const SCX_STATE_PATH_VAR: &'static str = "CERYNTH_SCX_STATE_PATH";

/// Environment variable overriding the heartbeat file.
pub const HEARTBEAT_PATH_VAR: &'static str = "CERYNTH_HEARTBEAT_PATH";

/// The sched_ext state file, given the value of `CERYNTH_SCX_STATE_PATH`.
pub fn scx_state_path(env_value: Option<String>) -> (r: String)
    ensures
        r@ == resolved(env_value, DEFAULT_SCX_STATE_PATH@),
{
    resolve(env_value, DEFAULT_SCX_STATE_PATH)
}

/// The heartbeat file, given the value of `CERYNTH_HEARTBEAT_PATH`.
pub fn heartbeat_path(env_value: Option<String>) -> (r: String)
    ensures
        r@ == resolved(env_value, DEFAULT_HEARTBEAT_PATH@),
{
    resolve(env_value, DEFAULT_HEARTBEAT_PATH)
}

/// The scheduler that the sched_ext state file names: its trimmed contents,
/// unless the file could not be read or holds nothing or `none`.
pub open spec fn scx_state_of(contents: Option<Seq<char>>) -> Option<Seq<char>> {
    match contents {
        Some(c) => if trim(c).len() == 0 || trim(c) == "none"@ {
            None
        } else {
            Some(trim(c))
        },
        None => None,
    }
}

/// The sched_ext state from the state file's contents, `None` when the file
/// could not be read.
pub fn read_scx_state_from(contents: Option<&str>) -> (r: Option<String>)
    ensures
        r is Some == scx_state_of(match contents {
            Some(c) => Some(c@),
            None => None,
        }) is Some,
        r matches Some(s) ==> scx_state_of(match contents {
            Some(c) => Some(c@),
            None => None,
        }) == Some(s@),
{
    match contents {
        Some(c) => {
            let t = trimmed(c);
            if t.as_str().unicode_len() == 0 || str_equals(t.as_str(), "none") {
                None
            } else {
                Some(t)
            }
        },
        None => None,
    }
}

/// `a - b`, or zero when `b` is larger.
pub open spec fn saturating_diff(a: u64, b: u64) -> int {
    if a >= b { a - b } else { 0 }
}

/// Whether a heartbeat written at `timestamp` is fresh at `now` (both in
/// seconds since the epoch): there is a timestamp, the clock could be read,
/// and the heartbeat is at most [`HEARTBEAT_TIMEOUT_SECS`] old.
pub open spec fn heartbeat_fresh_at(timestamp: Option<u64>, now: Option<u64>) -> bool {
    match (timestamp, now) {
        (Some(t), Some(n)) => saturating_diff(n, t) <= HEARTBEAT_TIMEOUT_SECS,
        _ => false,
    }
}

/// A heartbeat is fresh exactly while it is at most
/// [`HEARTBEAT_TIMEOUT_SECS`] old (one stamped later than the clock counts
/// as fresh); without a timestamp or a clock reading it is never fresh.
pub proof fn lemma_heartbeat_window(t: u64, n: u64)
    ensures
        n >= t ==> (heartbeat_fresh_at(Some(t), Some(n)) <==> n - t <= HEARTBEAT_TIMEOUT_SECS),
        n < t ==> heartbeat_fresh_at(Some(t), Some(n)),
        !heartbeat_fresh_at(None, Some(n)),
        !heartbeat_fresh_at(Some(t), None),
{
}

/// Whether the heartbeat file's contents (`None` when it could not be read)
/// show a fresh heartbeat at `now`: its `heartbeat` member is a number of
/// seconds at most [`HEARTBEAT_TIMEOUT_SECS`] before `now`.
pub fn heartbeat_is_fresh(contents: Option<&str>, now: Option<u64>) -> (r: bool)
    ensures
        r == match contents {
            Some(c) => heartbeat_fresh_at(json_u64_member(c@, "heartbeat"@), now),
            None => false,
        },
{
    match contents {
        Some(c) => {
            let timestamp = u64_member(c, "heartbeat");
            match (timestamp, now) {
                (Some(t), Some(n)) => n.saturating_sub(t) <= HEARTBEAT_TIMEOUT_SECS,
                _ => false,
            }
        },
        None => false,
    }
}

/// What the backend knows of the scheduler.
pub struct ScxView {
    pub scheduler_binary: Seq<char>,
    pub profile: Profile,
    pub adaptation_enabled: bool,
    pub adaptation_mode: AdaptationMode,
    /// The process id of the running scheduler.
    pub pid: Option<u32>,
}

/// Drives a `cerynth-scx` scheduler process.
pub struct ScxBackend {
    scheduler_binary: String,
    profile: Profile,
    adaptation_enabled: bool,
    adaptation_mode: AdaptationMode,
    pid: Option<u32>,
}

impl View for ScxBackend {
    type V = ScxView;

    closed spec fn view(&self) -> ScxView {
        ScxView {
            scheduler_binary: self.scheduler_binary@,
            profile: self.profile,
            adaptation_enabled: self.adaptation_enabled,
            adaptation_mode: self.adaptation_mode,
            pid: self.pid,
        }
    }
}

/// The next step while waiting for a started scheduler to become healthy.
#[derive(Debug, Clone, PartialEq, Eq)]
pub enum WaitStep {
    /// The scheduler is healthy: the start succeeded.
    Ready,
    /// Sleep [`POLL_INTERVAL_MS`], reconcile the process and ask again.
    Poll,
    /// The start failed with this error; the scheduler is to be stopped.
    Failed(String),
}

/// What happened at a step of stopping the scheduler.
#[derive(Debug, Clone, PartialEq, Eq)]
pub enum StopEvent {
    /// `SIGTERM` was delivered.
    TermSent,
    /// `SIGTERM` failed; `no_such_process` when the error was `ESRCH`.
    TermFailed { no_such_process: bool, error: String },
    /// Polling found that the process has exited.
    Exited,
    /// Polling found the process still running; `timed_out` when the stop
    /// deadline has passed.
    StillRunning { timed_out: bool },
    /// Polling the process failed.
    PollFailed(String),
    /// `SIGKILL` was delivered, or failed because the process was gone.
    KillSent,
    /// `SIGKILL` failed for another reason than `ESRCH`.
    KillFailed(String),
    /// Waiting for the killed process succeeded.
    Reaped,
    /// Waiting for the killed process failed.
    ReapFailed(String),
}

/// What to do next while stopping the scheduler.
#[derive(Debug, Clone, PartialEq, Eq)]
pub enum StopAction {
    /// Poll the process, after a pause of [`POLL_INTERVAL_MS`] when it was
    /// still running.
    Poll,
    /// Send `SIGKILL`.
    Kill,
    /// Wait for the killed process.
    Reap,
    /// The scheduler is stopped.
    Done,
    /// The stop failed with this error.
    Fail(String),
}

/// `prefix`, the decimal pid, `suffix`.
pub open spec fn pid_message(prefix: Seq<char>, pid: u32, suffix: Seq<char>) -> Seq<char> {
    prefix + decimal(pid as nat) + suffix
}

/// Whether `action` is what follows `event` while stopping the scheduler
/// `pid`: a delivered `SIGTERM` is followed by polling, a timed-out poll by
/// `SIGKILL`, a delivered `SIGKILL` by waiting for the process; an exit, a
/// reaped process or a `SIGTERM` that found no such process end the stop;
/// every other failure ends it with an error naming the step.
pub open spec fn stop_action_is(pid: u32, event: StopEvent, action: StopAction) -> bool {
    match event {
        StopEvent::TermSent => action == StopAction::Poll,
        StopEvent::TermFailed { no_such_process, error } => if no_such_process {
            action == StopAction::Done
        } else {
            action matches StopAction::Fail(m) && m@ == pid_message(
                "failed to send SIGTERM to scheduler (pid "@,
                pid,
                "): "@,
            ) + error@
        },
        StopEvent::Exited => action == StopAction::Done,
        StopEvent::StillRunning { timed_out } => action == (if timed_out {
            StopAction::Kill
        } else {
            StopAction::Poll
        }),
        StopEvent::PollFailed(e) => action matches StopAction::Fail(m) && m@
            == "failed to poll scheduler state: "@ + e@,
        StopEvent::KillSent => action == StopAction::Reap,
        StopEvent::KillFailed(e) => action matches StopAction::Fail(m) && m@ == pid_message(
            "failed to send SIGKILL to scheduler (pid "@,
            pid,
            "): "@,
        ) + e@,
        StopEvent::Reaped => action == StopAction::Done,
        StopEvent::ReapFailed(e) => action matches StopAction::Fail(m) && m@
            == "failed to reap scheduler after SIGKILL: "@ + e@,
    }
}

fn pid_text(prefix: &str, pid: u32, suffix: &str, detail: &str) -> (r: String)
    ensures
        r@ == pid_message(prefix@, pid, suffix@) + detail@,
{
    let mut m = owned(prefix);
    let digits = decimal_string(pid as u64);
    m.append(digits.as_str());
    m.append(suffix);
    m.append(detail);
    proof {
        assert(m@ =~= pid_message(prefix@, pid, suffix@) + detail@);
    }
    m
}

/// The message of a failure to inspect the scheduler process.
pub open spec fn reap_error_text(error: Seq<char>) -> Seq<char> {
    "failed to inspect scheduler process: "@ + error
}

impl ScxBackend {
    /// A backend for the scheduler binary at `scheduler_binary`, to run with
    /// `profile`; adaptation enabled, mode off, nothing running.
    pub fn new(scheduler_binary: String, profile: Profile) -> (r: ScxBackend)
        ensures
            r@ == (ScxView {
                scheduler_binary: scheduler_binary@,
                profile,
                adaptation_enabled: true,
                adaptation_mode: AdaptationMode::Off,
                pid: None,
            }),
    {
        ScxBackend {
            scheduler_binary,
            profile,
            adaptation_enabled: true,
            adaptation_mode: AdaptationMode::Off,
            pid: None,
        }
    }

    /// The same backend with adaptation enabled or not.
    pub fn with_adaptation(self, adaptation_enabled: bool) -> (r: ScxBackend)
        ensures
            r@ == (ScxView { adaptation_enabled, ..self@ }),
    {
        ScxBackend { adaptation_enabled, ..self }
    }

    /// The same backend with the given adaptation mode.
    pub fn with_adaptation_mode(self, adaptation_mode: AdaptationMode) -> (r: ScxBackend)
        ensures
            r@ == (ScxView { adaptation_mode, ..self@ }),
    {
        ScxBackend { adaptation_mode, ..self }
    }

    /// The scheduler binary.
    pub fn scheduler_binary(&self) -> (r: &str)
        ensures
            r@ == self@.scheduler_binary,
    {
        self.scheduler_binary.as_str()
    }

    /// The process id of the running scheduler, if any.
    pub fn pid(&self) -> (r: Option<u32>)
        ensures
            r == self@.pid,
    {
        self.pid
    }

    /// Whether a scheduler is running.
    pub fn is_running(&self) -> (r: bool)
        ensures
            r == self@.pid is Some,
    {
        self.pid.is_some()
    }

    /// Records that the scheduler process has exited.
    pub fn record_exit(&mut self)
        ensures
            final(self)@ == (ScxView { pid: None, ..old(self)@ }),
    {
        self.pid = None;
    }

    /// The error of a failed attempt to inspect the scheduler process.
    pub fn reap_error(error: &str) -> (r: String)
        ensures
            r@ == reap_error_text(error@),
    {
        join2("failed to inspect scheduler process: ", error)
    }

    /// The status to report, given the sched_ext state and whether the
    /// heartbeat is fresh: running when a scheduler process is tracked, the
    /// heartbeat counted only while running.
    pub fn status_report(&self, sched_ext_state: Option<String>, heartbeat_fresh: bool) -> (r: SchedulerStatus)
        ensures
            r == (SchedulerStatus {
                profile: self@.profile,
                adaptation_enabled: self@.adaptation_enabled,
                adaptation_mode: self@.adaptation_mode,
                backend: SchedulerBackend::Scx,
                running: self@.pid is Some,
                sched_ext_state,
                heartbeat_ok: self@.pid is Some && heartbeat_fresh,
            }),
    {
        let running = self.pid.is_some();
        SchedulerStatus {
            profile: self.profile,
            adaptation_enabled: self.adaptation_enabled,
            adaptation_mode: self.adaptation_mode,
            backend: SchedulerBackend::Scx,
            running,
            sched_ext_state,
            heartbeat_ok: running && heartbeat_fresh,
        }
    }

    /// Whether the scheduler is healthy: a process is tracked and alive,
    /// sched_ext reports a scheduler and the heartbeat is fresh.
    pub fn is_healthy(&self, process_alive: bool, sched_ext_active: bool, heartbeat_fresh: bool) -> (r: bool)
        ensures
            r == (self@.pid is Some && process_alive && sched_ext_active && heartbeat_fresh),
    {
        self.pid.is_some() && process_alive && sched_ext_active && heartbeat_fresh
    }

    /// The active profile.
    pub fn get_profile(&self) -> (r: Profile)
        ensures
            r == self@.profile,
    {
        self.profile
    }

    /// Sets the profile to run. The caller restarts a running scheduler:
    /// stop before, start after.
    pub fn set_profile_value(&mut self, profile: Profile)
        ensures
            final(self)@ == (ScxView { profile, ..old(self)@ }),
    {
        self.profile = profile;
    }

    /// The adaptation mode.
    pub fn get_adaptation_mode(&self) -> (r: AdaptationMode)
        ensures
            r == self@.adaptation_mode,
    {
        self.adaptation_mode
    }

    /// Sets the adaptation mode.
    pub fn set_adaptation_mode(&mut self, adaptation_mode: AdaptationMode)
        ensures
            final(self)@ == (ScxView { adaptation_mode, ..old(self)@ }),
    {
        self.adaptation_mode = adaptation_mode;
    }

    /// Enables or disables adaptation.
    pub fn set_adaptation_enabled(&mut self, adaptation_enabled: bool)
        ensures
            final(self)@ == (ScxView { adaptation_enabled, ..old(self)@ }),
    {
        self.adaptation_enabled = adaptation_enabled;
    }

    /// Whether a start may proceed: no scheduler may be running, and the
    /// binary must exist.
    pub fn start_check(&self, binary_exists: bool) -> (r: Result<(), String>)
        ensures
            r is Ok <==> (self@.pid is None && binary_exists),
            self@.pid is Some ==> (r matches Err(e) && e@ == "scheduler is already running"@),
            self@.pid is None && !binary_exists ==> (r matches Err(e) && e@
                == "scheduler binary not found: "@ + self@.scheduler_binary),
    {
        if self.pid.is_some() {
            Err(owned("scheduler is already running"))
        } else if !binary_exists {
            Err(join2("scheduler binary not found: ", self.scheduler_binary.as_str()))
        } else {
            Ok(())
        }
    }

    /// The arguments to start the scheduler with: `--profile` and the
    /// profile's name.
    pub fn spawn_args(&self) -> (r: Vec<String>)
        ensures
            r@.len() == 2,
            r@[0]@ == "--profile"@,
            r@[1]@ == profile_name(self@.profile),
    {
        let mut args: Vec<String> = Vec::new();
        args.push(owned("--profile"));
        args.push(self.profile.to_string());
        args
    }

    /// The error of a failed spawn.
    pub fn spawn_error(error: &str) -> (r: String)
        ensures
            r@ == "failed to spawn scheduler: "@ + error@,
    {
        join2("failed to spawn scheduler: ", error)
    }

    /// Records the process id of a spawned scheduler.
    pub fn record_spawn(&mut self, pid: u32)
        ensures
            final(self)@ == (ScxView { pid: Some(pid), ..old(self)@ }),
    {
        self.pid = Some(pid);
    }

    /// The next step while waiting for a started scheduler: past the
    /// deadline the wait fails; otherwise, once the process has been
    /// reconciled, a scheduler that is no longer tracked has exited, a
    /// healthy one is ready, and anything else is polled again.
    pub fn wait_step(&self, timed_out: bool, healthy: bool) -> (r: WaitStep)
        ensures
            timed_out ==> (r matches WaitStep::Failed(e) && e@
                == "scheduler did not become healthy within 5 seconds"@),
            !timed_out && self@.pid is None ==> (r matches WaitStep::Failed(e) && e@
                == "scheduler exited before becoming healthy"@),
            !timed_out && self@.pid is Some && healthy ==> r == WaitStep::Ready,
            !timed_out && self@.pid is Some && !healthy ==> r == WaitStep::Poll,
    {
        if timed_out {
            WaitStep::Failed(owned("scheduler did not become healthy within 5 seconds"))
        } else if self.pid.is_none() {
            WaitStep::Failed(owned("scheduler exited before becoming healthy"))
        } else if healthy {
            WaitStep::Ready
        } else {
            WaitStep::Poll
        }
    }

    /// Whether a stop may proceed: it needs a running scheduler, whose
    /// process id it returns.
    pub fn stop_check(&self) -> (r: Result<u32, String>)
        ensures
            self@.pid matches Some(p) ==> r == Ok::<u32, String>(p),
            self@.pid is None ==> (r matches Err(e) && e@ == "no scheduler is currently running"@),
    {
        match self.pid {
            Some(p) => Ok(p),
            None => Err(owned("no scheduler is currently running")),
        }
    }

    /// The next action of a stop after `event`; when the stop ends without
    /// error the scheduler is no longer tracked.
    pub fn stop_step(&mut self, pid: u32, event: StopEvent) -> (r: StopAction)
        ensures
            stop_action_is(pid, event, r),
            final(self)@ == (if r == StopAction::Done {
                ScxView { pid: None, ..old(self)@ }
            } else {
                old(self)@
            }),
    {
        let action = match event {
            StopEvent::TermSent => StopAction::Poll,
            StopEvent::TermFailed { no_such_process, error } => if no_such_process {
                StopAction::Done
            } else {
                StopAction::Fail(
                    pid_text("failed to send SIGTERM to scheduler (pid ", pid, "): ", error.as_str()),
                )
            },
            StopEvent::Exited => StopAction::Done,
            StopEvent::StillRunning { timed_out } => if timed_out {
                StopAction::Kill
            } else {
                StopAction::Poll
            },
            StopEvent::PollFailed(e) => StopAction::Fail(
                join2("failed to poll scheduler state: ", e.as_str()),
            ),
            StopEvent::KillSent => StopAction::Reap,
            StopEvent::KillFailed(e) => StopAction::Fail(
                pid_text("failed to send SIGKILL to scheduler (pid ", pid, "): ", e.as_str()),
            ),
            StopEvent::Reaped => StopAction::Done,
            StopEvent::ReapFailed(e) => StopAction::Fail(
                join2("failed to reap scheduler after SIGKILL: ", e.as_str()),
            ),
        };
        if let StopAction::Done = action {
            self.pid = None;
        }
        action
    }

    /// The result of a post-switch health check: healthy and running the
    /// expected profile.
    pub fn post_switch_health(&self, expected_profile: Profile, healthy: bool) -> (r: Result<(), String>)
        ensures
            r is Ok <==> (healthy && self@.profile == expected_profile),
            !healthy ==> (r matches Err(e) && e@ == "scheduler is not healthy after switching to "@
                + profile_debug_name(expected_profile)),
            healthy && self@.profile != expected_profile ==> (r matches Err(e) && e@
                == "post-switch health check failed: expected "@ + profile_debug_name(expected_profile)
                + ", got "@ + profile_debug_name(self@.profile)),
    {
        if !healthy {
            Err(join2("scheduler is not healthy after switching to ", expected_profile.debug_name()))
        } else if self.profile != expected_profile {
            let mut message = owned("post-switch health check failed: expected ");
            message.append(expected_profile.debug_name());
            message.append(", got ");
            message.append(self.profile.debug_name());
            Err(message)
        } else {
            Ok(())
        }
    }

    /// The result of a rollback to `previous_good_profile`, given how the
    /// start on that profile went.
    pub fn rollback_result(previous_good_profile: Profile, start: Result<(), String>) -> (r: RollbackResult)
        ensures
            r == match start {
                Ok(()) => RollbackResult::Success { previous_good_profile },
                Err(error) => RollbackResult::Failed { error, previous_good_profile },
            },
    {
        match start {
            Ok(()) => RollbackResult::Success { previous_good_profile },
            Err(error) => RollbackResult::Failed { error, previous_good_profile },
        }
    }
}

} // verus!

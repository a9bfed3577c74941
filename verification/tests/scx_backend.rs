use std::time::{SystemTime, UNIX_EPOCH};

use cerynth::daemon::backend::RollbackResult;
use cerynth::daemon::scx::{
    heartbeat_is_fresh, heartbeat_path, read_scx_state_from, scx_state_path, ScxBackend, StopAction,
    StopEvent, WaitStep, DEFAULT_HEARTBEAT_PATH, DEFAULT_SCX_STATE_PATH, HEARTBEAT_TIMEOUT_SECS,
};
use cerynth::ipc::backend::{AdaptationMode, SchedulerBackend};
use cerynth::ipc::profile::Profile;

fn now_secs() -> u64 {
    SystemTime::now().duration_since(UNIX_EPOCH).unwrap().as_secs()
}

#[test]
fn heartbeat_is_fresh_when_timestamp_recent() {
    let now = now_secs();
    let contents = format!("{{\"pid\":123,\"profile\":\"interactive\",\"heartbeat\":{now}}}");
    assert!(heartbeat_is_fresh(Some(&contents), Some(now)));
}

#[test]
fn heartbeat_is_stale_when_timestamp_old() {
    let now = now_secs();
    let old = now.saturating_sub(HEARTBEAT_TIMEOUT_SECS + 60);
    let contents = format!("{{\"pid\":123,\"profile\":\"interactive\",\"heartbeat\":{old}}}");
    assert!(!heartbeat_is_fresh(Some(&contents), Some(now)));
}

#[test]
fn heartbeat_missing_or_malformed_is_not_fresh() {
    let now = now_secs();
    assert!(!heartbeat_is_fresh(None, Some(now)));
    assert!(!heartbeat_is_fresh(Some("not json"), Some(now)));
}

#[test]
fn heartbeat_freshness_boundaries() {
    let contents = "{\"heartbeat\":1000}";
    assert!(heartbeat_is_fresh(Some(contents), Some(1010)));
    assert!(!heartbeat_is_fresh(Some(contents), Some(1011)));
    assert!(heartbeat_is_fresh(Some(contents), Some(900)));
    assert!(!heartbeat_is_fresh(Some(contents), None));
    assert!(!heartbeat_is_fresh(Some("{\"heartbeat\":\"1000\"}"), Some(1000)));
}

#[test]
fn scx_state_reads_trimmed_contents() {
    assert_eq!(read_scx_state_from(Some("scx_rustland\n")), Some("scx_rustland".to_string()));
}

#[test]
fn scx_state_is_none_when_unavailable() {
    assert_eq!(read_scx_state_from(None), None);
    assert_eq!(read_scx_state_from(Some("none\n")), None);
    assert_eq!(read_scx_state_from(Some("  \n")), None);
}

#[test]
fn state_and_heartbeat_paths_follow_overrides() {
    assert_eq!(scx_state_path(None), DEFAULT_SCX_STATE_PATH);
    assert_eq!(heartbeat_path(None), DEFAULT_HEARTBEAT_PATH);
    assert_eq!(heartbeat_path(Some("/tmp/hb.json".to_string())), "/tmp/hb.json");
}

#[test]
fn start_is_refused_when_running_or_binary_missing() {
    let mut backend = ScxBackend::new("/usr/bin/cerynth-scx".to_string(), Profile::Interactive);
    assert_eq!(backend.start_check(true), Ok(()));
    assert_eq!(
        backend.start_check(false),
        Err("scheduler binary not found: /usr/bin/cerynth-scx".to_string())
    );
    assert_eq!(backend.spawn_args(), vec!["--profile".to_string(), "interactive".to_string()]);
    backend.record_spawn(4242);
    assert!(backend.is_running());
    assert_eq!(backend.start_check(true), Err("scheduler is already running".to_string()));
}

#[test]
fn waiting_for_health_after_spawn() {
    let mut backend = ScxBackend::new("/bin/s".to_string(), Profile::Balanced);
    backend.record_spawn(7);
    assert_eq!(backend.wait_step(false, true), WaitStep::Ready);
    assert_eq!(backend.wait_step(false, false), WaitStep::Poll);
    assert_eq!(
        backend.wait_step(true, false),
        WaitStep::Failed("scheduler did not become healthy within 5 seconds".to_string())
    );
    assert_eq!(
        backend.wait_step(true, true),
        WaitStep::Failed("scheduler did not become healthy within 5 seconds".to_string())
    );
    backend.record_exit();
    assert_eq!(
        backend.wait_step(false, true),
        WaitStep::Failed("scheduler exited before becoming healthy".to_string())
    );
}

#[test]
fn stopping_walks_through_term_poll_kill_and_reap() {
    let mut backend = ScxBackend::new("/bin/s".to_string(), Profile::Balanced);
    assert_eq!(backend.stop_check(), Err("no scheduler is currently running".to_string()));
    backend.record_spawn(99);
    assert_eq!(backend.stop_check(), Ok(99));
    assert_eq!(backend.stop_step(99, StopEvent::TermSent), StopAction::Poll);
    assert_eq!(backend.stop_step(99, StopEvent::StillRunning { timed_out: false }), StopAction::Poll);
    assert_eq!(backend.stop_step(99, StopEvent::StillRunning { timed_out: true }), StopAction::Kill);
    assert_eq!(backend.stop_step(99, StopEvent::KillSent), StopAction::Reap);
    assert!(backend.is_running());
    assert_eq!(backend.stop_step(99, StopEvent::Reaped), StopAction::Done);
    assert!(!backend.is_running());
}

#[test]
fn stop_failures_name_the_step_and_pid() {
    let mut backend = ScxBackend::new("/bin/s".to_string(), Profile::Balanced);
    backend.record_spawn(99);
    assert_eq!(
        backend.stop_step(99, StopEvent::TermFailed { no_such_process: false, error: "EPERM".to_string() }),
        StopAction::Fail("failed to send SIGTERM to scheduler (pid 99): EPERM".to_string())
    );
    assert_eq!(
        backend.stop_step(99, StopEvent::KillFailed("EPERM".to_string())),
        StopAction::Fail("failed to send SIGKILL to scheduler (pid 99): EPERM".to_string())
    );
    assert_eq!(
        backend.stop_step(99, StopEvent::PollFailed("gone".to_string())),
        StopAction::Fail("failed to poll scheduler state: gone".to_string())
    );
    assert_eq!(
        backend.stop_step(99, StopEvent::ReapFailed("gone".to_string())),
        StopAction::Fail("failed to reap scheduler after SIGKILL: gone".to_string())
    );
    assert!(backend.is_running());
    assert_eq!(
        backend.stop_step(99, StopEvent::TermFailed { no_such_process: true, error: "ESRCH".to_string() }),
        StopAction::Done
    );
    assert_eq!(backend.pid(), None);
}

#[test]
fn status_counts_heartbeat_only_while_running() {
    let mut backend = ScxBackend::new("/bin/s".to_string(), Profile::Performance)
        .with_adaptation(false)
        .with_adaptation_mode(AdaptationMode::Shadow);
    let status = backend.status_report(Some("cerynth_scx".to_string()), true);
    assert!(!status.running && !status.heartbeat_ok);
    assert_eq!(status.backend, SchedulerBackend::Scx);
    assert_eq!(status.profile, Profile::Performance);
    assert!(!status.adaptation_enabled);
    assert_eq!(status.adaptation_mode, AdaptationMode::Shadow);
    backend.record_spawn(1);
    let status = backend.status_report(None, true);
    assert!(status.running && status.heartbeat_ok);
    assert!(backend.is_healthy(true, true, true));
    assert!(!backend.is_healthy(true, false, true));
}

#[test]
fn post_switch_health_and_rollback() {
    let backend = ScxBackend::new("/bin/s".to_string(), Profile::Interactive);
    assert_eq!(backend.post_switch_health(Profile::Interactive, true), Ok(()));
    assert_eq!(
        backend.post_switch_health(Profile::Performance, true),
        Err("post-switch health check failed: expected Performance, got Interactive".to_string())
    );
    assert_eq!(
        backend.post_switch_health(Profile::Interactive, false),
        Err("scheduler is not healthy after switching to Interactive".to_string())
    );
    assert_eq!(
        ScxBackend::rollback_result(Profile::Balanced, Ok(())),
        RollbackResult::Success { previous_good_profile: Profile::Balanced }
    );
    assert_eq!(
        ScxBackend::rollback_result(Profile::Balanced, Err("boom".to_string())),
        RollbackResult::Failed { error: "boom".to_string(), previous_good_profile: Profile::Balanced }
    );
    assert_eq!(ScxBackend::reap_error("EINTR"), "failed to inspect scheduler process: EINTR");
    assert_eq!(ScxBackend::spawn_error("ENOENT"), "failed to spawn scheduler: ENOENT");
}

use cerynth::scx::policy::{order_tasks, rescue_starved_tasks, QueuedTask, STARVATION_THRESHOLD_NS};
use cerynth::scx::profile::Profile;
use cerynth::scx::status::{now_ms, SchedulerStatus};

fn fake_task(pid: i32, exec_runtime: u64) -> QueuedTask {
    fake_task_with_stop_ts(pid, exec_runtime, 0)
}

fn fake_task_with_stop_ts(pid: i32, exec_runtime: u64, stop_ts: u64) -> QueuedTask {
    QueuedTask {
        pid,
        cpu: 0,
        nr_cpus_allowed: 1,
        flags: 0,
        start_ts: 0,
        stop_ts,
        exec_runtime,
        weight: 100,
        vtime: 0,
        enq_cnt: 0,
        comm: [0; 16],
    }
}

fn pids(tasks: &[QueuedTask]) -> Vec<i32> {
    tasks.iter().map(|t| t.pid).collect()
}

#[test]
fn balanced_preserves_arrival_order() {
    let tasks = vec![fake_task(1, 500), fake_task(2, 10), fake_task(3, 9999)];
    let ordered = order_tasks(Profile::Balanced, tasks);
    assert_eq!(pids(&ordered), vec![1, 2, 3]);
}

#[test]
fn interactive_sorts_by_exec_runtime_ascending() {
    let tasks = vec![fake_task(1, 500), fake_task(2, 10), fake_task(3, 9999)];
    let ordered = order_tasks(Profile::Interactive, tasks);
    assert_eq!(pids(&ordered), vec![2, 1, 3]);
}

#[test]
fn interactive_rescues_a_long_waiting_task() {
    let tasks = vec![
        fake_task_with_stop_ts(1, 500, 100_000_000),
        fake_task_with_stop_ts(2, 10, 100_000_000),
        fake_task_with_stop_ts(3, 9999, 0),
    ];
    let ordered = order_tasks(Profile::Interactive, tasks);
    assert_eq!(pids(&ordered), vec![3, 2, 1]);
}

#[test]
fn interactive_does_not_rescue_recently_run_tasks() {
    let tasks = vec![
        fake_task_with_stop_ts(1, 500, 100_000_000),
        fake_task_with_stop_ts(2, 10, 99_000_000),
        fake_task_with_stop_ts(3, 9999, 100_000_000),
    ];
    let ordered = order_tasks(Profile::Interactive, tasks);
    assert_eq!(pids(&ordered), vec![2, 1, 3]);
}

#[test]
fn performance_and_background_preserve_arrival_order() {
    let tasks = vec![fake_task(1, 500), fake_task(2, 10)];
    let ordered = order_tasks(Profile::Performance, tasks.clone());
    assert_eq!(ordered.iter().map(|t| t.pid).collect::<Vec<_>>(), vec![1, 2]);
    let ordered = order_tasks(Profile::Background, tasks);
    assert_eq!(ordered.iter().map(|t| t.pid).collect::<Vec<_>>(), vec![1, 2]);
}

#[test]
fn interactive_orders_starved_tasks_by_wait_and_keeps_ties_in_arrival_order() {
    let now = 100_000_000;
    let tasks = vec![
        fake_task_with_stop_ts(1, 7, now),
        fake_task_with_stop_ts(2, 7, now - STARVATION_THRESHOLD_NS),
        fake_task_with_stop_ts(3, 1, now - 3 * STARVATION_THRESHOLD_NS),
        fake_task_with_stop_ts(4, 7, now),
        fake_task_with_stop_ts(5, 2, now - STARVATION_THRESHOLD_NS + 1),
    ];
    let ordered = order_tasks(Profile::Interactive, tasks);
    assert_eq!(pids(&ordered), vec![3, 2, 5, 1, 4]);
}

#[test]
fn empty_batches_stay_empty() {
    assert!(order_tasks(Profile::Interactive, Vec::new()).is_empty());
    assert!(order_tasks(Profile::Balanced, Vec::new()).is_empty());
}

#[test]
fn profiles_have_increasing_slices() {
    assert_eq!(Profile::Interactive.slice_ns(), 2_000_000);
    assert_eq!(Profile::Balanced.slice_ns(), 5_000_000);
    assert_eq!(Profile::Performance.slice_ns(), 10_000_000);
    assert_eq!(Profile::Background.slice_ns(), 20_000_000);
}

#[test]
fn status_records_the_profile_and_start() {
    let before = std::time::SystemTime::now()
        .duration_since(std::time::UNIX_EPOCH)
        .unwrap()
        .as_secs();
    let status = SchedulerStatus::running(Profile::Balanced, 1_000, 42, "cerynth_scx".to_string());
    assert!(status.running && status.healthy);
    assert_eq!(status.pid, 42);
    assert_eq!(status.profile, "balanced");
    let interactive = SchedulerStatus::running(Profile::Interactive, 1_000, 42, "cerynth_scx".to_string());
    assert_eq!(interactive.profile, "interactive");
    assert_eq!(status.started_at_ms, 1_000);
    assert_eq!(status.sched_ext_state, "cerynth_scx");
    assert!(status.heartbeat >= before && status.heartbeat <= before + 2);

    let stopped = SchedulerStatus::stopped(42, "disabled".to_string());
    assert!(!stopped.running && !stopped.healthy);
    assert_eq!(stopped.profile, "");
    assert_eq!(stopped.started_at_ms, 0);
    assert!(now_ms() / 1000 >= before);
}

#[test]
fn rescue_puts_starved_tasks_first_by_wait_then_the_rest_by_runtime() {
    let now = 100_000_000;
    let tasks = vec![
        fake_task_with_stop_ts(1, 500, now),
        fake_task_with_stop_ts(2, 50, now - STARVATION_THRESHOLD_NS),
        fake_task_with_stop_ts(3, 10, now),
        fake_task_with_stop_ts(4, 9999, 0),
        fake_task_with_stop_ts(5, 10, now - 1),
    ];
    assert_eq!(pids(&rescue_starved_tasks(tasks)), vec![4, 2, 3, 5, 1]);
    assert!(rescue_starved_tasks(Vec::new()).is_empty());
}

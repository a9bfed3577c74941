//! Runtime state persisted by the daemon across restarts (a JSON file).
use vstd::prelude::*;
use crate::ipc::backend::SchedulerBackend;
use crate::ipc::profile::Profile;

verus! {

/// Runtime state that survives daemon restarts.
#[derive(Debug, Clone, Copy, PartialEq, Eq, Structural)]
pub struct RuntimeState {
    pub profile: Profile,
    pub adaptation_enabled: bool,
    pub scheduler_backend: SchedulerBackend,
}

/// The state of a fresh installation.
pub open spec fn initial_runtime_state() -> RuntimeState {
    RuntimeState { profile: Profile::Balanced, adaptation_enabled: false, scheduler_backend: SchedulerBackend::Mock }
}

impl RuntimeState {
    /// Balanced profile, adaptation disabled, mock backend.
    pub fn new() -> (r: RuntimeState)
        ensures
            r == initial_runtime_state(),
    {
        RuntimeState { profile: Profile::Balanced, adaptation_enabled: false, scheduler_backend: SchedulerBackend::Mock }
    }
}

impl Default for RuntimeState {
    fn default() -> (r: RuntimeState)
        ensures
            r == initial_runtime_state(),
    {
        RuntimeState::new()
    }
}

} // verus!

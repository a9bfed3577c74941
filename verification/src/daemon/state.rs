//! In-memory state owned by the daemon.
use vstd::prelude::*;
use crate::config::state::RuntimeState;
use crate::ipc::backend::{AdaptationMode, SchedulerBackend};
use crate::ipc::profile::Profile;

verus! {

/// The daemon's live state while it is running.
#[derive(Debug, Clone, Copy, PartialEq, Eq, Structural)]
pub struct DaemonState {
    pub profile: Profile,
    pub adaptation_enabled: bool,
    pub adaptation_mode: AdaptationMode,
    pub scheduler_backend: SchedulerBackend,
}

/// The live state restored from persisted state; the persisted state does
/// not carry the adaptation mode, which starts `Off`.
pub open spec fn daemon_state_of(s: RuntimeState) -> DaemonState {
    DaemonState {
        profile: s.profile,
        adaptation_enabled: s.adaptation_enabled,
        adaptation_mode: AdaptationMode::Off,
        scheduler_backend: s.scheduler_backend,
    }
}

/// The persisted part of the live state.
pub open spec fn runtime_state_of(s: DaemonState) -> RuntimeState {
    RuntimeState { profile: s.profile, adaptation_enabled: s.adaptation_enabled, scheduler_backend: s.scheduler_backend }
}

impl From<RuntimeState> for DaemonState {
    fn from(state: RuntimeState) -> (r: DaemonState)
        ensures
            r == daemon_state_of(state),
    {
        DaemonState {
            profile: state.profile,
            adaptation_enabled: state.adaptation_enabled,
            adaptation_mode: AdaptationMode::Off,
            scheduler_backend: state.scheduler_backend,
        }
    }
}

impl vstd::std_specs::convert::FromSpecImpl<RuntimeState> for DaemonState {
    open spec fn obeys_from_spec() -> bool {
        true
    }

    open spec fn from_spec(v: RuntimeState) -> DaemonState {
        daemon_state_of(v)
    }
}

impl DaemonState {
    /// The persisted part of the state.
    pub fn to_runtime_state(&self) -> (r: RuntimeState)
        ensures
            r == runtime_state_of(*self),
    {
        RuntimeState {
            profile: self.profile,
            adaptation_enabled: self.adaptation_enabled,
            scheduler_backend: self.scheduler_backend,
        }
    }
}

/// Saving the live state and restoring it gives back the live state, up to
/// the adaptation mode (which restarts `Off`).
pub proof fn lemma_persist_restore(s: DaemonState)
    ensures
        daemon_state_of(runtime_state_of(s)) == (DaemonState { adaptation_mode: AdaptationMode::Off, ..s }),
        runtime_state_of(daemon_state_of(runtime_state_of(s))) == runtime_state_of(s),
{
}

} // verus!

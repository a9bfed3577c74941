//! The in-process mock backend.
use vstd::prelude::*;
use crate::daemon::backend::{Backend, RollbackResult};
use crate::daemon::handlers::{respond_mode, respond_profile, respond_status, respond_unit};
use crate::daemon::state::{daemon_state_of, runtime_state_of, DaemonState};
use crate::ipc::request::Request;
use crate::ipc::response::{socket_response_of, Response, SocketResponse};
use crate::ipc::request::request_of;
use crate::ipc::protocol::{version_supported, RequestEnvelope, ResponseEnvelope, VersionError, PROTOCOL_VERSION};
use crate::ipc::backend::{AdaptationMode, SchedulerStatus};
use crate::ipc::profile::{Profile, profile_debug_name};
use crate::text::owned;

verus! {

/// A backend that keeps the daemon state in memory and never fails, except
/// for a post-switch health check on a profile other than its own.
#[derive(Debug)]
pub struct MockBackend {
    state: DaemonState,
}

/// The status the mock reports for a state: running, with no sched_ext or
/// heartbeat signal.
pub open spec fn mock_status(s: DaemonState) -> SchedulerStatus {
    SchedulerStatus {
        profile: s.profile,
        adaptation_enabled: s.adaptation_enabled,
        adaptation_mode: s.adaptation_mode,
        backend: s.scheduler_backend,
        running: true,
        sched_ext_state: None,
        heartbeat_ok: false,
    }
}

impl View for MockBackend {
    type V = DaemonState;

    closed spec fn view(&self) -> DaemonState {
        self.state
    }
}

impl MockBackend {
    /// A mock backend starting in `state`.
    pub fn new(state: DaemonState) -> (r: MockBackend)
        ensures
            r@ == state,
    {
        MockBackend { state }
    }

    /// The current state.
    pub fn state(&self) -> (r: DaemonState)
        ensures
            r == self@,
    {
        self.state
    }
}

impl Backend for MockBackend {
    /// The mock answers exactly as `mock_response` says and moves to
    /// `mock_next`.
    open spec fn handles(&self, after: &Self, request: Request, response: Response) -> bool {
        after@ == mock_next(self@, request) && response == mock_response(self@, request)
    }

    fn status(&mut self) -> (r: Result<SchedulerStatus, String>)
        ensures
            r == Ok::<SchedulerStatus, String>(mock_status(old(self)@)),
            final(self)@ == old(self)@,
    {
        Ok(SchedulerStatus {
            profile: self.state.profile,
            adaptation_enabled: self.state.adaptation_enabled,
            adaptation_mode: self.state.adaptation_mode,
            backend: self.state.scheduler_backend,
            running: true,
            sched_ext_state: None,
            heartbeat_ok: false,
        })
    }

    fn get_profile(&self) -> (r: Result<Profile, String>)
        ensures
            r == Ok::<Profile, String>(self@.profile),
    {
        Ok(self.state.profile)
    }

    fn set_profile(&mut self, profile: Profile) -> (r: Result<(), String>)
        ensures
            r is Ok,
            final(self)@ == (DaemonState { profile, ..old(self)@ }),
    {
        self.state.profile = profile;
        Ok(())
    }

    fn get_adaptation_mode(&self) -> (r: Result<AdaptationMode, String>)
        ensures
            r == Ok::<AdaptationMode, String>(self@.adaptation_mode),
    {
        Ok(self.state.adaptation_mode)
    }

    fn set_adaptation_mode(&mut self, mode: AdaptationMode) -> (r: Result<(), String>)
        ensures
            r is Ok,
            final(self)@ == (DaemonState { adaptation_mode: mode, ..old(self)@ }),
    {
        self.state.adaptation_mode = mode;
        Ok(())
    }

    fn pause_adaptation(&mut self) -> (r: Result<(), String>)
        ensures
            r is Ok,
            final(self)@ == (DaemonState { adaptation_enabled: false, ..old(self)@ }),
    {
        self.state.adaptation_enabled = false;
        Ok(())
    }

    fn resume_adaptation(&mut self) -> (r: Result<(), String>)
        ensures
            r is Ok,
            final(self)@ == (DaemonState { adaptation_enabled: true, ..old(self)@ }),
    {
        self.state.adaptation_enabled = true;
        Ok(())
    }

    fn start(&mut self) -> (r: Result<(), String>)
        ensures
            r is Ok,
            final(self)@ == old(self)@,
    {
        Ok(())
    }

    fn stop(&mut self) -> (r: Result<(), String>)
        ensures
            r is Ok,
            final(self)@ == old(self)@,
    {
        Ok(())
    }

    fn restart(&mut self) -> (r: Result<(), String>)
        ensures
            r is Ok,
            final(self)@ == old(self)@,
    {
        Ok(())
    }

    fn verify_post_switch_health(&mut self, expected_profile: Profile) -> (r: Result<(), String>)
        ensures
            r is Ok <==> old(self)@.profile == expected_profile,
            r matches Err(e) ==> e@ == "post-switch health check failed: expected "@
                + profile_debug_name(expected_profile) + ", got "@ + profile_debug_name(old(self)@.profile),
            final(self)@ == old(self)@,
    {
        if self.state.profile == expected_profile {
            Ok(())
        } else {
            let mut message = owned("post-switch health check failed: expected ");
            message.append(expected_profile.debug_name());
            message.append(", got ");
            message.append(self.state.profile.debug_name());
            Err(message)
        }
    }

    fn rollback(&mut self, previous_good_profile: Profile) -> (r: RollbackResult)
        ensures
            r == (RollbackResult::Success { previous_good_profile }),
            final(self)@ == (DaemonState { profile: previous_good_profile, ..old(self)@ }),
    {
        let _ = self.stop();
        self.state.profile = previous_good_profile;
        RollbackResult::Success { previous_good_profile }
    }
}

/// The mock's state after handling `request`.
pub open spec fn mock_next(s: DaemonState, request: Request) -> DaemonState {
    match request {
        Request::SetProfile(p) => DaemonState { profile: p, ..s },
        Request::SetAdaptationMode(m) => DaemonState { adaptation_mode: m, ..s },
        Request::PauseAdaptation => DaemonState { adaptation_enabled: false, ..s },
        Request::ResumeAdaptation => DaemonState { adaptation_enabled: true, ..s },
        _ => s,
    }
}

/// The mock's answer to `request` in state `s`.
pub open spec fn mock_response(s: DaemonState, request: Request) -> Response {
    match request {
        Request::Status => Response::Status(mock_status(s)),
        Request::GetProfile => Response::Profile(s.profile),
        Request::GetAdaptationMode => Response::AdaptationMode(s.adaptation_mode),
        _ => Response::Success,
    }
}

impl MockBackend {
    /// Handles a request on the mock, as the daemon does: one backend call,
    /// its result turned into a response.
    pub fn handle(&mut self, request: Request) -> (r: Response)
        ensures
            r == mock_response(old(self)@, request),
            final(self)@ == mock_next(old(self)@, request),
    {
        match request {
            Request::Status => respond_status(self.status()),
            Request::GetProfile => respond_profile(self.get_profile()),
            Request::SetProfile(profile) => respond_unit(self.set_profile(profile)),
            Request::GetAdaptationMode => respond_mode(self.get_adaptation_mode()),
            Request::SetAdaptationMode(mode) => respond_unit(self.set_adaptation_mode(mode)),
            Request::PauseAdaptation => respond_unit(self.pause_adaptation()),
            Request::ResumeAdaptation => respond_unit(self.resume_adaptation()),
            Request::Start => respond_unit(self.start()),
            Request::Stop => respond_unit(self.stop()),
            Request::Restart => respond_unit(self.restart()),
        }
    }
}

impl MockBackend {
    /// Answers a request envelope on the mock, as [`answer`] does, with the
    /// mock's exact response.
    pub fn answer(&mut self, envelope: &RequestEnvelope) -> (r: Result<ResponseEnvelope, VersionError>)
        ensures
            r is Err <==> !version_supported(envelope.version),
            r is Err ==> final(self)@ == old(self)@,
            r matches Ok(e) ==> {
                &&& e.version == PROTOCOL_VERSION
                &&& e.correlation_id == envelope.correlation_id
                &&& e.response == socket_response_of(mock_response(old(self)@, request_of(envelope.request)))
                &&& final(self)@ == mock_next(old(self)@, request_of(envelope.request))
            },
    {
        match envelope.validate_version() {
            Err(e) => Err(e),
            Ok(()) => {
                let response = self.handle(Request::from(envelope.request));
                Ok(ResponseEnvelope::for_request(envelope, SocketResponse::from(response)))
            },
        }
    }
}

/// What is read back after a write: after setting a profile, asking for the
/// profile or the status gives that profile, and so does the state that is
/// persisted and restored on the next start; the same holds of the
/// adaptation mode (which is not persisted) and of pausing and resuming.
pub proof fn lemma_read_after_write(s: DaemonState, p: Profile, m: AdaptationMode)
    ensures
        mock_response(mock_next(s, Request::SetProfile(p)), Request::GetProfile) == Response::Profile(p),
        mock_response(mock_next(s, Request::SetProfile(p)), Request::Status) matches Response::Status(st)
            && st.profile == p,
        daemon_state_of(runtime_state_of(mock_next(s, Request::SetProfile(p)))).profile == p,
        mock_response(mock_next(s, Request::SetAdaptationMode(m)), Request::GetAdaptationMode)
            == Response::AdaptationMode(m),
        !mock_status(mock_next(s, Request::PauseAdaptation)).adaptation_enabled,
        mock_status(mock_next(s, Request::ResumeAdaptation)).adaptation_enabled,
        mock_response(s, Request::SetProfile(p)) == Response::Success,
{
}

} // verus!

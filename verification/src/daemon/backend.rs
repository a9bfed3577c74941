//! The interface every scheduler backend of the daemon implements.
use vstd::prelude::*;
use crate::ipc::backend::{AdaptationMode, SchedulerStatus};
use crate::ipc::profile::Profile;
use crate::ipc::request::Request;
use crate::ipc::response::Response;
use crate::daemon::handlers::{mode_response, profile_response, status_response, unit_response};

verus! {

/// Result of a rollback attempt after a failed profile switch.
#[derive(Debug, Clone, PartialEq)]
pub enum RollbackResult {
    /// The scheduler was stopped and the previous good profile started.
    Success { previous_good_profile: Profile },
    /// The previous good profile could not be started; the adaptation
    /// controller then disables adaptation and the Linux scheduler takes over.
    Failed { error: String, previous_good_profile: Profile },
}

/// A scheduler backend (mock, SCX, ...).
///
/// Each method that serves a request of the control socket promises
/// `handles` of its own request: the backend, asked for that request (with
/// the method's argument) in the state before the call, may end in the state
/// after it and give the method's result, turned into a response.
pub trait Backend {
    /// Whether this backend, asked for `request`, may end in state `after`
    /// and answer `response`. A backend that does not describe its answers
    /// keeps this default, which describes nothing.
    open spec fn handles(&self, after: &Self, request: Request, response: Response) -> bool {
        true
    }

    fn status(&mut self) -> (r: Result<SchedulerStatus, String>)
        ensures
            old(self).handles(final(self), Request::Status, status_response(r));

    fn get_profile(&self) -> (r: Result<Profile, String>)
        ensures
            self.handles(self, Request::GetProfile, profile_response(r));

    fn set_profile(&mut self, profile: Profile) -> (r: Result<(), String>)
        ensures
            old(self).handles(final(self), Request::SetProfile(profile), unit_response(r));

    fn get_adaptation_mode(&self) -> (r: Result<AdaptationMode, String>)
        ensures
            self.handles(self, Request::GetAdaptationMode, mode_response(r));

    fn set_adaptation_mode(&mut self, mode: AdaptationMode) -> (r: Result<(), String>)
        ensures
            old(self).handles(final(self), Request::SetAdaptationMode(mode), unit_response(r));

    fn pause_adaptation(&mut self) -> (r: Result<(), String>)
        ensures
            old(self).handles(final(self), Request::PauseAdaptation, unit_response(r));

    fn resume_adaptation(&mut self) -> (r: Result<(), String>)
        ensures
            old(self).handles(final(self), Request::ResumeAdaptation, unit_response(r));

    fn start(&mut self) -> (r: Result<(), String>)
        ensures
            old(self).handles(final(self), Request::Start, unit_response(r));

    fn stop(&mut self) -> (r: Result<(), String>)
        ensures
            old(self).handles(final(self), Request::Stop, unit_response(r));

    fn restart(&mut self) -> (r: Result<(), String>)
        ensures
            old(self).handles(final(self), Request::Restart, unit_response(r));

    /// Checks that the scheduler is healthy after a switch to `expected_profile`.
    fn verify_post_switch_health(&mut self, expected_profile: Profile) -> Result<(), String>;

    /// Stops the scheduler and starts it again on `previous_good_profile`.
    fn rollback(&mut self, previous_good_profile: Profile) -> RollbackResult;
}

} // verus!

//! Request handling: one backend call per request, its result turned into
//! a response.
use vstd::prelude::*;
use crate::daemon::backend::Backend;
use crate::ipc::backend::{AdaptationMode, SchedulerStatus};
use crate::ipc::profile::Profile;
use crate::ipc::request::Request;
use crate::ipc::response::{socket_response_of, Response, SocketResponse};
use crate::ipc::request::request_of;
use crate::ipc::protocol::{version_supported, RequestEnvelope, ResponseEnvelope, VersionError, MIN_PROTOCOL_VERSION, PROTOCOL_VERSION};

verus! {

/// The response to an action that returns nothing but may fail.
pub open spec fn unit_response(r: Result<(), String>) -> Response {
    match r {
        Ok(()) => Response::Success,
        Err(e) => Response::Error(e),
    }
}

/// The response to a successful action, or its error.
pub fn respond_unit(r: Result<(), String>) -> (out: Response)
    ensures
        out == unit_response(r),
{
    match r {
        Ok(()) => Response::Success,
        Err(e) => Response::Error(e),
    }
}

/// The response carrying a status, or the error.
pub open spec fn status_response(r: Result<SchedulerStatus, String>) -> Response {
    match r {
        Ok(s) => Response::Status(s),
        Err(e) => Response::Error(e),
    }
}

/// The response carrying a profile, or the error.
pub open spec fn profile_response(r: Result<Profile, String>) -> Response {
    match r {
        Ok(p) => Response::Profile(p),
        Err(e) => Response::Error(e),
    }
}

/// The response carrying an adaptation mode, or the error.
pub open spec fn mode_response(r: Result<AdaptationMode, String>) -> Response {
    match r {
        Ok(m) => Response::AdaptationMode(m),
        Err(e) => Response::Error(e),
    }
}

/// The response carrying a status, or the error.
pub fn respond_status(r: Result<SchedulerStatus, String>) -> (out: Response)
    ensures
        out == status_response(r),
{
    match r {
        Ok(s) => Response::Status(s),
        Err(e) => Response::Error(e),
    }
}

/// The response carrying a profile, or the error.
pub fn respond_profile(r: Result<Profile, String>) -> (out: Response)
    ensures
        out == profile_response(r),
{
    match r {
        Ok(p) => Response::Profile(p),
        Err(e) => Response::Error(e),
    }
}

/// The response carrying an adaptation mode, or the error.
pub fn respond_mode(r: Result<AdaptationMode, String>) -> (out: Response)
    ensures
        out == mode_response(r),
{
    match r {
        Ok(m) => Response::AdaptationMode(m),
        Err(e) => Response::Error(e),
    }
}

/// The kinds of response a request can get: its own kind, or an error.
pub open spec fn response_fits(request: Request, response: Response) -> bool {
    response is Error || match request {
        Request::Status => response is Status,
        Request::GetProfile => response is Profile,
        Request::GetAdaptationMode => response is AdaptationMode,
        _ => response is Success,
    }
}

/// Handles one request with one call on the backend, the method the
/// request names with the request's argument, and turns the result into a
/// response: the requested value or `Success` when the call succeeds, its
/// error otherwise.
pub fn handle_request<B: Backend + ?Sized>(backend: &mut B, request: Request) -> (r: Response)
    ensures
        old(backend).handles(final(backend), request, r),
        response_fits(request, r),
{
    match request {
        Request::Status => respond_status(backend.status()),
        Request::GetProfile => respond_profile(backend.get_profile()),
        Request::SetProfile(profile) => respond_unit(backend.set_profile(profile)),
        Request::GetAdaptationMode => respond_mode(backend.get_adaptation_mode()),
        Request::SetAdaptationMode(mode) => respond_unit(backend.set_adaptation_mode(mode)),
        Request::PauseAdaptation => respond_unit(backend.pause_adaptation()),
        Request::ResumeAdaptation => respond_unit(backend.resume_adaptation()),
        Request::Start => respond_unit(backend.start()),
        Request::Stop => respond_unit(backend.stop()),
        Request::Restart => respond_unit(backend.restart()),
    }
}

/// Answers a request envelope the daemon received: an envelope of an
/// unsupported protocol version gets no answer (the error is the caller's
/// to report); any other is handled by the backend and answered with the
/// current version and the request's correlation ID.
pub fn answer<B: Backend + ?Sized>(backend: &mut B, envelope: &RequestEnvelope) -> (r: Result<ResponseEnvelope, VersionError>)
    ensures
        r is Err <==> !version_supported(envelope.version),
        r matches Err(e) ==> e == (VersionError {
            requested: envelope.version,
            min_supported: MIN_PROTOCOL_VERSION,
            max_supported: PROTOCOL_VERSION,
        }),
        r matches Ok(e) ==> {
            &&& e.version == PROTOCOL_VERSION
            &&& e.correlation_id == envelope.correlation_id
            &&& exists|resp: Response| #[trigger] old(backend).handles(final(backend), request_of(envelope.request), resp)
                && response_fits(request_of(envelope.request), resp)
                && e.response == socket_response_of(resp)
        },
{
    match envelope.validate_version() {
        Err(e) => Err(e),
        Ok(()) => {
            let request = Request::from(envelope.request);
            let response = handle_request(backend, request);
            Ok(ResponseEnvelope::for_request(envelope, SocketResponse::from(response)))
        },
    }
}

} // verus!

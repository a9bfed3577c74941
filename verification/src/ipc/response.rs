//! Responses returned by the daemon, internal and on the wire.
use vstd::prelude::*;
use crate::ipc::backend::{AdaptationMode, SchedulerStatus};
use crate::ipc::profile::Profile;

verus! {

/// Internal response type used by the daemon, independent of the wire protocol.
#[derive(Debug, Clone, PartialEq, Eq)]
pub enum Response {
    Status(SchedulerStatus),
    Profile(Profile),
    AdaptationMode(AdaptationMode),
    Success,
    Error(String),
}

/// Response messages sent over the IPC socket.
#[derive(Debug, Clone, PartialEq, Eq)]
pub enum SocketResponse {
    Status { status: SchedulerStatus },
    Profile { profile: Profile },
    AdaptationMode { mode: AdaptationMode },
    Success,
    Error { message: String },
    Pong,
}

/// The wire response carrying an internal response.
pub open spec fn socket_response_of(r: Response) -> SocketResponse {
    match r {
        Response::Status(status) => SocketResponse::Status { status },
        Response::Profile(profile) => SocketResponse::Profile { profile },
        Response::AdaptationMode(mode) => SocketResponse::AdaptationMode { mode },
        Response::Success => SocketResponse::Success,
        Response::Error(message) => SocketResponse::Error { message },
    }
}

/// A wire response reports success unless it is an error.
pub open spec fn response_is_success(r: SocketResponse) -> bool {
    !(r is Error)
}

/// Converting a response to the wire keeps whether it is an error.
pub proof fn lemma_conversion_keeps_success(r: Response)
    ensures
        response_is_success(socket_response_of(r)) == !(r is Error),
{
}

impl From<Response> for SocketResponse {
    fn from(response: Response) -> (r: SocketResponse)
        ensures
            r == socket_response_of(response),
    {
        match response {
            Response::Status(status) => SocketResponse::Status { status },
            Response::Profile(profile) => SocketResponse::Profile { profile },
            Response::AdaptationMode(mode) => SocketResponse::AdaptationMode { mode },
            Response::Success => SocketResponse::Success,
            Response::Error(message) => SocketResponse::Error { message },
        }
    }
}

impl vstd::std_specs::convert::FromSpecImpl<Response> for SocketResponse {
    open spec fn obeys_from_spec() -> bool {
        true
    }

    open spec fn from_spec(v: Response) -> SocketResponse {
        socket_response_of(v)
    }
}

impl SocketResponse {
    /// Whether the response reports success (anything but an error).
    pub fn is_success(&self) -> (r: bool)
        ensures
            r == response_is_success(*self),
    {
        match self {
            SocketResponse::Error { .. } => false,
            _ => true,
        }
    }

    /// The error message, for an error response.
    pub fn error_message(&self) -> (r: Option<&str>)
        ensures
            r is Some == (*self is Error),
            r matches Some(m) ==> m@ == self->message@,
    {
        match self {
            SocketResponse::Error { message } => Some(message.as_str()),
            _ => None,
        }
    }
}

} // verus!

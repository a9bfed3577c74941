//! Requests handled by the daemon, internal and on the wire.
use vstd::prelude::*;
use crate::ipc::backend::AdaptationMode;
use crate::ipc::profile::Profile;

verus! {

/// Internal request type used by the daemon, independent of the wire protocol.
#[derive(Debug, Clone, Copy, PartialEq, Eq, Structural)]
pub enum Request {
    Status,
    GetProfile,
    SetProfile(Profile),
    GetAdaptationMode,
    SetAdaptationMode(AdaptationMode),
    PauseAdaptation,
    ResumeAdaptation,
    Start,
    Stop,
    Restart,
}

/// Request messages sent over the IPC socket.
#[derive(Debug, Clone, Copy, PartialEq, Eq, Structural)]
pub enum SocketRequest {
    Status,
    GetProfile,
    SetProfile { profile: Profile },
    GetAdaptationMode,
    SetAdaptationMode { mode: AdaptationMode },
    PauseAdaptation,
    ResumeAdaptation,
    Start,
    Stop,
    Restart,
    Shutdown,
    Ping,
}

/// The internal request a wire request stands for. `Shutdown` and `Ping`
/// are answered with the status.
pub open spec fn request_of(r: SocketRequest) -> Request {
    match r {
        SocketRequest::Status => Request::Status,
        SocketRequest::GetProfile => Request::GetProfile,
        SocketRequest::SetProfile { profile } => Request::SetProfile(profile),
        SocketRequest::GetAdaptationMode => Request::GetAdaptationMode,
        SocketRequest::SetAdaptationMode { mode } => Request::SetAdaptationMode(mode),
        SocketRequest::PauseAdaptation => Request::PauseAdaptation,
        SocketRequest::ResumeAdaptation => Request::ResumeAdaptation,
        SocketRequest::Start => Request::Start,
        SocketRequest::Stop => Request::Stop,
        SocketRequest::Restart => Request::Restart,
        SocketRequest::Shutdown => Request::Status,
        SocketRequest::Ping => Request::Status,
    }
}

/// The wire request that carries an internal request.
pub open spec fn socket_request_of(r: Request) -> SocketRequest {
    match r {
        Request::Status => SocketRequest::Status,
        Request::GetProfile => SocketRequest::GetProfile,
        Request::SetProfile(profile) => SocketRequest::SetProfile { profile },
        Request::GetAdaptationMode => SocketRequest::GetAdaptationMode,
        Request::SetAdaptationMode(mode) => SocketRequest::SetAdaptationMode { mode },
        Request::PauseAdaptation => SocketRequest::PauseAdaptation,
        Request::ResumeAdaptation => SocketRequest::ResumeAdaptation,
        Request::Start => SocketRequest::Start,
        Request::Stop => SocketRequest::Stop,
        Request::Restart => SocketRequest::Restart,
    }
}

/// The kebab-case command name of a wire request.
pub open spec fn command_name_of(r: SocketRequest) -> Seq<char> {
    match r {
        SocketRequest::Status => "status"@,
        SocketRequest::GetProfile => "get-profile"@,
        SocketRequest::SetProfile { .. } => "set-profile"@,
        SocketRequest::GetAdaptationMode => "get-adaptation-mode"@,
        SocketRequest::SetAdaptationMode { .. } => "set-adaptation-mode"@,
        SocketRequest::PauseAdaptation => "pause-adaptation"@,
        SocketRequest::ResumeAdaptation => "resume-adaptation"@,
        SocketRequest::Start => "start"@,
        SocketRequest::Stop => "stop"@,
        SocketRequest::Restart => "restart"@,
        SocketRequest::Shutdown => "shutdown"@,
        SocketRequest::Ping => "ping"@,
    }
}

/// Sending a request over the wire and reading it back on the daemon side
/// gives the same request.
pub proof fn lemma_request_wire_roundtrip(r: Request)
    ensures
        request_of(socket_request_of(r)) == r,
{
}

impl From<SocketRequest> for Request {
    fn from(request: SocketRequest) -> (r: Request)
        ensures
            r == request_of(request),
    {
        match request {
            SocketRequest::Status => Request::Status,
            SocketRequest::GetProfile => Request::GetProfile,
            SocketRequest::SetProfile { profile } => Request::SetProfile(profile),
            SocketRequest::GetAdaptationMode => Request::GetAdaptationMode,
            SocketRequest::SetAdaptationMode { mode } => Request::SetAdaptationMode(mode),
            SocketRequest::PauseAdaptation => Request::PauseAdaptation,
            SocketRequest::ResumeAdaptation => Request::ResumeAdaptation,
            SocketRequest::Start => Request::Start,
            SocketRequest::Stop => Request::Stop,
            SocketRequest::Restart => Request::Restart,
            SocketRequest::Shutdown | SocketRequest::Ping => Request::Status,
        }
    }
}

impl vstd::std_specs::convert::FromSpecImpl<SocketRequest> for Request {
    open spec fn obeys_from_spec() -> bool {
        true
    }

    open spec fn from_spec(v: SocketRequest) -> Request {
        request_of(v)
    }
}

impl SocketRequest {
    /// The wire request carrying `request`.
    pub fn from_request(request: Request) -> (r: SocketRequest)
        ensures
            r == socket_request_of(request),
    {
        match request {
            Request::Status => SocketRequest::Status,
            Request::GetProfile => SocketRequest::GetProfile,
            Request::SetProfile(profile) => SocketRequest::SetProfile { profile },
            Request::GetAdaptationMode => SocketRequest::GetAdaptationMode,
            Request::SetAdaptationMode(mode) => SocketRequest::SetAdaptationMode { mode },
            Request::PauseAdaptation => SocketRequest::PauseAdaptation,
            Request::ResumeAdaptation => SocketRequest::ResumeAdaptation,
            Request::Start => SocketRequest::Start,
            Request::Stop => SocketRequest::Stop,
            Request::Restart => SocketRequest::Restart,
        }
    }

    /// The kebab-case command name of this request.
    pub fn command_name(&self) -> (r: &'static str)
        ensures
            r@ == command_name_of(*self),
    {
        match self {
            SocketRequest::Status => "status",
            SocketRequest::GetProfile => "get-profile",
            SocketRequest::SetProfile { .. } => "set-profile",
            SocketRequest::GetAdaptationMode => "get-adaptation-mode",
            SocketRequest::SetAdaptationMode { .. } => "set-adaptation-mode",
            SocketRequest::PauseAdaptation => "pause-adaptation",
            SocketRequest::ResumeAdaptation => "resume-adaptation",
            SocketRequest::Start => "start",
            SocketRequest::Stop => "stop",
            SocketRequest::Restart => "restart",
            SocketRequest::Shutdown => "shutdown",
            SocketRequest::Ping => "ping",
        }
    }
}

} // verus!

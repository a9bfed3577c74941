//! The versioned wire protocol: envelopes, version checks and line framing.
use vstd::prelude::*;
use crate::ipc::request::SocketRequest;
use crate::ipc::response::SocketResponse;
use crate::text::{decimal, decimal_string, owned};

verus! {

/// Current wire protocol version.
pub const PROTOCOL_VERSION: u32 = 1;

/// Minimum supported protocol version.
pub const MIN_PROTOCOL_VERSION: u32 = 1;

/// Maximum message size in bytes (64 KiB).
pub const MAX_MESSAGE_SIZE: usize = 64 * 1024;

/// Default socket path for the daemon.
pub const DEFAULT_SOCKET_PATH: &'static str = "/tmp/cerynthd.sock";

/// Environment variable that overrides the socket path.
pub const SOCKET_PATH_VAR: &'static str = "CERYNTH_SOCKET";

/// Permissions of the control socket: read and write for its owner and
/// group, nothing for others.
pub const SOCKET_MODE: u32 = 0o660;

/// Whether the daemon accepts messages of protocol version `v`.
pub open spec fn version_supported(v: u32) -> bool {
    MIN_PROTOCOL_VERSION <= v && v <= PROTOCOL_VERSION
}

/// Request envelope: a wire request with protocol metadata.
#[derive(Debug, Clone, PartialEq, Eq)]
pub struct RequestEnvelope {
    /// Protocol version used for this request.
    pub version: u32,
    /// Optional correlation ID for request/response matching.
    pub correlation_id: Option<String>,
    /// The actual request payload.
    pub request: SocketRequest,
}

/// Error indicating an unsupported protocol version.
#[derive(Debug, Clone, Copy, PartialEq, Eq, Structural)]
pub struct VersionError {
    /// The version that was requested.
    pub requested: u32,
    /// Minimum supported version.
    pub min_supported: u32,
    /// Maximum supported version.
    pub max_supported: u32,
}

impl RequestEnvelope {
    /// Creates a request envelope with the current protocol version.
    pub fn new(request: SocketRequest) -> (r: RequestEnvelope)
        ensures
            r.version == PROTOCOL_VERSION,
            r.correlation_id is None,
            r.request == request,
    {
        RequestEnvelope { version: PROTOCOL_VERSION, correlation_id: None, request }
    }

    /// Creates a request envelope carrying a correlation ID.
    pub fn with_correlation_id(request: SocketRequest, correlation_id: String) -> (r: RequestEnvelope)
        ensures
            r.version == PROTOCOL_VERSION,
            r.correlation_id == Some(correlation_id),
            r.request == request,
    {
        RequestEnvelope { version: PROTOCOL_VERSION, correlation_id: Some(correlation_id), request }
    }

    /// Checks that the envelope's version is supported.
    pub fn validate_version(&self) -> (r: Result<(), VersionError>)
        ensures
            r is Ok <==> version_supported(self.version),
            r matches Err(e) ==> e == (VersionError {
                requested: self.version,
                min_supported: MIN_PROTOCOL_VERSION,
                max_supported: PROTOCOL_VERSION,
            }),
    {
        if self.version < MIN_PROTOCOL_VERSION || self.version > PROTOCOL_VERSION {
            Err(VersionError {
                requested: self.version,
                min_supported: MIN_PROTOCOL_VERSION,
                max_supported: PROTOCOL_VERSION,
            })
        } else {
            Ok(())
        }
    }
}

/// Every envelope built by this library carries a supported version.
pub proof fn lemma_current_version_supported()
    ensures
        version_supported(PROTOCOL_VERSION),
{
}

/// Response envelope: a wire response with protocol metadata.
#[derive(Debug, Clone, PartialEq, Eq)]
pub struct ResponseEnvelope {
    /// Protocol version used for this response.
    pub version: u32,
    /// Correlation ID echoed from the request, if provided.
    pub correlation_id: Option<String>,
    /// The actual response payload.
    pub response: SocketResponse,
}

impl ResponseEnvelope {
    /// Creates the response envelope answering `request`, echoing its
    /// correlation ID.
    pub fn for_request(request: &RequestEnvelope, response: SocketResponse) -> (r: ResponseEnvelope)
        ensures
            r.version == PROTOCOL_VERSION,
            r.correlation_id == request.correlation_id,
            r.response == response,
    {
        ResponseEnvelope {
            version: PROTOCOL_VERSION,
            correlation_id: request.correlation_id.clone(),
            response,
        }
    }

    /// Creates a response envelope with an explicit correlation ID.
    pub fn with_correlation_id(response: SocketResponse, correlation_id: String) -> (r: ResponseEnvelope)
        ensures
            r.version == PROTOCOL_VERSION,
            r.correlation_id == Some(correlation_id),
            r.response == response,
    {
        ResponseEnvelope { version: PROTOCOL_VERSION, correlation_id: Some(correlation_id), response }
    }
}

/// The text of a version error.
pub open spec fn version_error_text(e: VersionError) -> Seq<char> {
    "unsupported protocol version "@ + decimal(e.requested as nat) + " (supported: "@
        + decimal(e.min_supported as nat) + "..="@ + decimal(e.max_supported as nat) + ")"@
}

impl VersionError {
    /// A human-readable description of the error.
    pub fn to_string(&self) -> (r: String)
        ensures
            r@ == version_error_text(*self),
    {
        let mut s = owned("unsupported protocol version ");
        let requested = decimal_string(self.requested as u64);
        s.append(requested.as_str());
        s.append(" (supported: ");
        let min = decimal_string(self.min_supported as u64);
        s.append(min.as_str());
        s.append("..=");
        let max = decimal_string(self.max_supported as u64);
        s.append(max.as_str());
        s.append(")");
        s
    }
}

/// The line-delimited frame carrying a JSON payload: the payload followed by `\n`.
pub open spec fn framed_line(payload: Seq<u8>) -> Seq<u8> {
    payload.push(10u8)
}

/// The payload carried by a received line: the line without its trailing
/// `\n`, if it has one. A `\r` before the `\n` stays in the payload.
pub open spec fn line_payload_of(line: Seq<u8>) -> Seq<u8> {
    if line.len() > 0 && line.last() == 10u8 {
        line.drop_last()
    } else {
        line
    }
}

/// Appends the newline delimiter to a serialized payload.
pub fn to_line(payload: Vec<u8>) -> (r: Vec<u8>)
    ensures
        r@ == framed_line(payload@),
{
    let mut bytes = payload;
    bytes.push(10u8);
    bytes
}

/// Strips the trailing newline delimiter from a received line.
pub fn line_payload(line: &[u8]) -> (r: &[u8])
    ensures
        r@ == line_payload_of(line@),
{
    let n = line.len();
    if n > 0 && line[n - 1] == 10u8 {
        let (head, _) = line.split_at(n - 1);
        head
    } else {
        line
    }
}

/// Reading back a framed payload gives the payload.
pub proof fn lemma_frame_roundtrip(payload: Seq<u8>)
    ensures
        line_payload_of(framed_line(payload)) == payload,
{
    assert(framed_line(payload).drop_last() =~= payload);
}

/// The socket path: the value of `CERYNTH_SOCKET` when it is set, the
/// default path otherwise.
pub fn resolve_socket_path(env_value: Option<String>) -> (r: String)
    ensures
        r@ == match env_value {
            Some(v) => v@,
            None => DEFAULT_SOCKET_PATH@,
        },
{
    match env_value {
        Some(v) => v,
        None => owned(DEFAULT_SOCKET_PATH),
    }
}

} // verus!

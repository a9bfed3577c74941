//! The daemon's earlier flat message shapes.
use vstd::prelude::*;

verus! {

/// A flat request: a command name and an optional profile name.
#[derive(Debug, Clone, PartialEq, Eq)]
pub struct SocketRequest {
    pub command: String,
    pub profile: Option<String>,
}

/// A flat response.
#[derive(Debug, Clone, PartialEq, Eq)]
pub struct SocketResponse {
    pub status: String,
    pub scheduler: Option<String>,
    pub profile: Option<String>,
    pub adaptation_enabled: Option<bool>,
    pub message: Option<String>,
}

} // verus!

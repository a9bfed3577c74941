//! Errors of the CLI client.
use vstd::prelude::*;
use crate::text::{owned, join2};

verus! {

/// An I/O error, from `std::io`.
#[verifier::external_type_specification]
#[verifier::external_body]
pub struct ExIoError(std::io::Error);

/// The text `std::io::Error`'s `Display` gives. It depends on the operating
/// system's message for the error code, so nothing is promised of it.
#[verifier::external_body]
fn io_error_text(err: &std::io::Error) -> String {
    err.to_string()
}

/// An error of the CLI client.
#[derive(Debug)]
pub enum ClientError {
    /// The connection to the daemon failed.
    Connection(std::io::Error),
    /// The daemon's answer could not be understood.
    InvalidResponse,
}

impl ClientError {
    /// A human-readable description of the error.
    pub fn to_string(&self) -> (r: String)
        ensures
            match *self {
                ClientError::Connection(_) => r@.len() >= "Connection error: "@.len()
                    && r@.subrange(0, "Connection error: "@.len() as int) == "Connection error: "@,
                ClientError::InvalidResponse => r@ == "Invalid response from daemon"@,
            },
    {
        match self {
            ClientError::Connection(err) => {
                let text = io_error_text(err);
                let r = join2("Connection error: ", text.as_str());
                assert(r@.subrange(0, "Connection error: "@.len() as int) =~= "Connection error: "@);
                r
            },
            ClientError::InvalidResponse => owned("Invalid response from daemon"),
        }
    }
}

impl From<std::io::Error> for ClientError {
    fn from(err: std::io::Error) -> (r: ClientError)
        ensures
            r == ClientError::Connection(err),
    {
        ClientError::Connection(err)
    }
}

impl vstd::std_specs::convert::FromSpecImpl<std::io::Error> for ClientError {
    open spec fn obeys_from_spec() -> bool {
        true
    }

    open spec fn from_spec(v: std::io::Error) -> ClientError {
        ClientError::Connection(v)
    }
}

} // verus!

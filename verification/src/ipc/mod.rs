//! Types shared by the daemon and the CLI over the IPC socket.
pub mod backend;
pub mod profile;
pub mod protocol;
pub mod request;
pub mod response;

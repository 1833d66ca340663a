//! Typed errors of the transport.

use vstd::prelude::*;

verus! {

/// Returned when `connect` fails: the endpoint could not be opened, or the
/// obtained handle could not be adopted by the async I/O driver. Carries the
/// endpoint that was attempted and the OS error code, so the caller can
/// decide on retry policy; nothing is retried here.
#[derive(Debug)]
pub struct ConnectError {
    /// The endpoint path whose open was attempted.
    pub endpoint: String,
    /// The OS error code reported for the failed open or adoption.
    pub os_error: i32,
}

impl ConnectError {
    pub fn new(endpoint: &str, os_error: i32) -> (r: ConnectError)
        ensures
            r.endpoint@ == endpoint@,
            r.os_error == os_error,
    {
        ConnectError { endpoint: endpoint.to_owned(), os_error: os_error }
    }
}

/// An error surfaced by a stream operation after a successful connect.
/// OS errors pass through unmodified; the transport adds no retry or
/// suppression logic.
#[derive(Debug, Clone, Copy, PartialEq, Eq, Structural)]
pub enum StreamIoError {
    /// The write half of this stream was already shut down.
    Closed,
    /// An OS-level I/O error, carried verbatim.
    Os(i32),
}

} // verus!

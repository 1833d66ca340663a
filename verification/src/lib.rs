//! Client-side transport over a named local IPC endpoint.
//!
//! The library models the client end of a named pipe as a duplex byte
//! stream: `connect` turns the outcome of the platform's "open existing
//! endpoint" call into either a connected stream or a typed error, and the
//! stream itself exposes read, write, flush and shutdown with exact
//! contracts over the bytes transferred.

pub mod cursor;
pub mod error;
pub mod transport;
pub mod wide;

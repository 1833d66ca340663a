//! The connected stream and the decisions of `connect`.
//!
//! The platform performs the open, the adoption into the async I/O driver,
//! and the byte transfer itself; each of those steps reports an outcome as a
//! plain value. This module holds the transport's own logic over those
//! outcomes: turning the open and adoption outcomes into a connected stream
//! or a typed error, and accounting exactly for the bytes a connected stream
//! transfers in each direction.

use vstd::prelude::*;

use crate::error::ConnectError;
use crate::error::StreamIoError;

verus! {

/// Outcome of the platform's "open existing endpoint" call.
#[derive(Debug, Clone, Copy, PartialEq, Eq, Structural)]
pub enum OpenOutcome {
    /// A valid handle was obtained; carries the handle's value.
    Opened(u64),
    /// No handle was obtained; carries the OS error code.
    Failed(i32),
}

/// Outcome of adopting an open handle into the async I/O driver.
#[derive(Debug, Clone, Copy, PartialEq, Eq, Structural)]
pub enum AdoptOutcome {
    /// The driver took ownership of the handle.
    Adopted,
    /// Adoption failed; carries the OS error code. The handle must then be
    /// closed by whoever performed the open: no stream comes to exist.
    Failed(i32),
}

/// What one poll of the read side reported.
#[derive(Debug, PartialEq, Eq)]
pub enum ReadEvent {
    /// Bytes arrived from the peer.
    Data(Vec<u8>),
    /// The peer closed its write half: end of stream.
    Eof,
    /// An OS-level read error; carries the code.
    Fail(i32),
}

/// What one poll of the write side reported.
#[derive(Debug, Clone, Copy, PartialEq, Eq, Structural)]
pub enum WriteEvent {
    /// The OS accepted this many bytes from the front of the offered buffer.
    /// Short writes are possible: the count may be less than was offered.
    Accepted(usize),
    /// An OS-level write error; carries the code.
    Fail(i32),
}

/// What one poll of a flush reported.
#[derive(Debug, Clone, Copy, PartialEq, Eq, Structural)]
pub enum FlushEvent {
    /// Previously accepted bytes were handed off to the OS transport layer.
    Flushed,
    /// An OS-level error; carries the code.
    Fail(i32),
}

/// The client end of a named local IPC endpoint, as a duplex byte stream.
///
/// A value of this type exists only in the connected state: it is created by
/// a successful `connect` and owns its handle alone. The stream performs no
/// buffering, framing or interpretation of bytes; its state records which
/// halves are still open, and two ghost sequences account for every byte
/// handed to the endpoint and every byte delivered to the caller.
pub struct NamedPipe {
    handle: u64,
    write_half_open: bool,
    peer_write_closed: bool,
    sent: Ghost<Seq<u8>>,
    delivered: Ghost<Seq<u8>>,
}

impl NamedPipe {
    /// The value of the owned OS handle.
    pub closed spec fn os_handle(self) -> u64 {
        self.handle
    }

    /// Whether this stream's write half is still open (no shutdown yet).
    pub closed spec fn write_open(self) -> bool {
        self.write_half_open
    }

    /// Whether a read has observed end of stream (the peer closed its write
    /// half).
    pub closed spec fn peer_closed(self) -> bool {
        self.peer_write_closed
    }

    /// Every byte the OS has accepted from writes on this stream, in order.
    pub closed spec fn sent_bytes(self) -> Seq<u8> {
        self.sent@
    }

    /// Every byte reads on this stream have delivered to the caller, in
    /// order.
    pub closed spec fn delivered_bytes(self) -> Seq<u8> {
        self.delivered@
    }

    /// A freshly connected stream: both halves open, nothing transferred.
    pub open spec fn fresh(self, handle: u64) -> bool {
        &&& self.os_handle() == handle
        &&& self.write_open()
        &&& !self.peer_closed()
        &&& self.sent_bytes() == Seq::<u8>::empty()
        &&& self.delivered_bytes() == Seq::<u8>::empty()
    }

    /// Decides the result of a connection attempt from the outcomes of the
    /// two platform steps: the open of the endpoint and the adoption of the
    /// obtained handle by the async I/O driver.
    ///
    /// All or nothing: a stream comes to exist exactly when both steps
    /// succeeded, and it is then fresh and owns the opened handle. Any
    /// failure yields a `ConnectError` carrying the attempted endpoint and
    /// the OS error code of the step that failed; no stream, and no other
    /// state, is left behind. Nothing is retried and no timeout is imposed:
    /// retry policy belongs to the caller.
    pub fn connect(endpoint: &str, open: OpenOutcome, adopt: AdoptOutcome) -> (r: Result<
        NamedPipe,
        ConnectError,
    >)
        ensures
            match open {
                OpenOutcome::Failed(e) => r matches Err(ce) && ce.endpoint@ == endpoint@
                    && ce.os_error == e,
                OpenOutcome::Opened(h) => match adopt {
                    AdoptOutcome::Adopted => r matches Ok(p) && p.fresh(h),
                    AdoptOutcome::Failed(e) => r matches Err(ce) && ce.endpoint@ == endpoint@
                        && ce.os_error == e,
                },
            },
    {
        match open {
            OpenOutcome::Failed(e) => Err(ConnectError::new(endpoint, e)),
            OpenOutcome::Opened(h) => match adopt {
                AdoptOutcome::Adopted => Ok(
                    NamedPipe {
                        handle: h,
                        write_half_open: true,
                        peer_write_closed: false,
                        sent: Ghost(Seq::empty()),
                        delivered: Ghost(Seq::empty()),
                    },
                ),
                AdoptOutcome::Failed(e) => Err(ConnectError::new(endpoint, e)),
            },
        }
    }

    /// Applies what one poll of the read side reported.
    ///
    /// Bytes are delivered to the caller exactly as they arrived, in order,
    /// with no buffering or interpretation. A zero-length result means end
    /// of stream and nothing else: it is returned when the peer has closed
    /// its write half, and once end of stream has been observed every later
    /// read returns it again, as a clean result and never as an error. An OS
    /// error passes through verbatim. No event changes the stream's
    /// identity or its write half.
    pub fn read(&mut self, ev: ReadEvent) -> (r: Result<Vec<u8>, StreamIoError>)
        ensures
            final(self).os_handle() == old(self).os_handle(),
            final(self).write_open() == old(self).write_open(),
            final(self).sent_bytes() == old(self).sent_bytes(),
            old(self).peer_closed() ==> {
                &&& r matches Ok(v) && v@ == Seq::<u8>::empty()
                &&& final(self).peer_closed()
                &&& final(self).delivered_bytes() == old(self).delivered_bytes()
            },
            !old(self).peer_closed() ==> match ev {
                ReadEvent::Data(d) => {
                    &&& r matches Ok(v) && v@ == d@
                    &&& !final(self).peer_closed()
                    &&& final(self).delivered_bytes() == old(self).delivered_bytes() + d@
                },
                ReadEvent::Eof => {
                    &&& r matches Ok(v) && v@ == Seq::<u8>::empty()
                    &&& final(self).peer_closed()
                    &&& final(self).delivered_bytes() == old(self).delivered_bytes()
                },
                ReadEvent::Fail(e) => {
                    &&& r == Err::<Vec<u8>, StreamIoError>(StreamIoError::Os(e))
                    &&& !final(self).peer_closed()
                    &&& final(self).delivered_bytes() == old(self).delivered_bytes()
                },
            },
    {
        if self.peer_write_closed {
            return Ok(Vec::new());
        }
        match ev {
            ReadEvent::Data(d) => {
                proof {
                    self.delivered@ = self.delivered@ + d@;
                }
                Ok(d)
            },
            ReadEvent::Eof => {
                self.peer_write_closed = true;
                Ok(Vec::new())
            },
            ReadEvent::Fail(e) => Err(StreamIoError::Os(e)),
        }
    }

    /// Applies what one poll of the write side reported, for an offered
    /// buffer.
    ///
    /// After shutdown no write is attempted: the call reports the stream
    /// closed and nothing reaches the endpoint. Otherwise an accepted count
    /// `n` — possibly short, never more than was offered — means exactly the
    /// first `n` bytes of the buffer were handed to the endpoint, appended
    /// in order to everything handed before: no byte is lost, duplicated or
    /// altered. An OS error passes through verbatim and transfers nothing.
    pub fn write(&mut self, buf: &[u8], ev: WriteEvent) -> (r: Result<usize, StreamIoError>)
        requires
            ev matches WriteEvent::Accepted(n) ==> n <= buf@.len(),
        ensures
            final(self).os_handle() == old(self).os_handle(),
            final(self).peer_closed() == old(self).peer_closed(),
            final(self).delivered_bytes() == old(self).delivered_bytes(),
            final(self).write_open() == old(self).write_open(),
            !old(self).write_open() ==> {
                &&& r == Err::<usize, StreamIoError>(StreamIoError::Closed)
                &&& final(self).sent_bytes() == old(self).sent_bytes()
            },
            old(self).write_open() ==> match ev {
                WriteEvent::Accepted(n) => {
                    &&& r == Ok::<usize, StreamIoError>(n)
                    &&& final(self).sent_bytes() == old(self).sent_bytes() + buf@.take(n as int)
                },
                WriteEvent::Fail(e) => {
                    &&& r == Err::<usize, StreamIoError>(StreamIoError::Os(e))
                    &&& final(self).sent_bytes() == old(self).sent_bytes()
                },
            },
    {
        if !self.write_half_open {
            return Err(StreamIoError::Closed);
        }
        match ev {
            WriteEvent::Accepted(n) => {
                proof {
                    self.sent@ = self.sent@ + buf@.take(n as int);
                }
                Ok(n)
            },
            WriteEvent::Fail(e) => Err(StreamIoError::Os(e)),
        }
    }

    /// Applies what one poll of a flush reported.
    ///
    /// The stream buffers nothing of its own, so a flush only hands the
    /// request through: it transfers no bytes and changes no state, and an
    /// OS error passes through verbatim.
    pub fn flush(&mut self, ev: FlushEvent) -> (r: Result<(), StreamIoError>)
        ensures
            final(self).os_handle() == old(self).os_handle(),
            final(self).write_open() == old(self).write_open(),
            final(self).peer_closed() == old(self).peer_closed(),
            final(self).sent_bytes() == old(self).sent_bytes(),
            final(self).delivered_bytes() == old(self).delivered_bytes(),
            match ev {
                FlushEvent::Flushed => r == Ok::<(), StreamIoError>(()),
                FlushEvent::Fail(e) => r == Err::<(), StreamIoError>(StreamIoError::Os(e)),
            },
    {
        match ev {
            FlushEvent::Flushed => Ok(()),
            FlushEvent::Fail(e) => Err(StreamIoError::Os(e)),
        }
    }

    /// Closes the write half of the stream in an orderly way.
    ///
    /// Always safe to call and always succeeds; calling it again changes
    /// nothing, since the write half stays closed — the closed state is
    /// terminal and irreversible. After shutdown no write is attempted
    /// (`write` then reports the stream closed), while the read half is
    /// unaffected.
    pub fn shutdown(&mut self) -> (r: Result<(), StreamIoError>)
        ensures
            r == Ok::<(), StreamIoError>(()),
            !final(self).write_open(),
            final(self).os_handle() == old(self).os_handle(),
            final(self).peer_closed() == old(self).peer_closed(),
            final(self).sent_bytes() == old(self).sent_bytes(),
            final(self).delivered_bytes() == old(self).delivered_bytes(),
    {
        self.write_half_open = false;
        Ok(())
    }

    /// Whether the write half is still open.
    pub fn is_write_open(&self) -> (r: bool)
        ensures
            r == self.write_open(),
    {
        self.write_half_open
    }

    /// Whether a read has observed end of stream.
    pub fn is_peer_closed(&self) -> (r: bool)
        ensures
            r == self.peer_closed(),
    {
        self.peer_write_closed
    }

    /// The value of the owned OS handle.
    pub fn raw_handle(&self) -> (r: u64)
        ensures
            r == self.os_handle(),
    {
        self.handle
    }
}

} // verus!

//! Looping writes over a payload.
//!
//! The OS may accept fewer bytes than a write offers, so a caller that wants
//! a whole payload transferred loops, each time offering the unsent tail.
//! `WriteCursor` is that loop's state, and its contracts account for every
//! byte: each accepted count extends the transferred prefix exactly, and a
//! loop that reaches the payload's end has handed over the payload in full,
//! in order, with nothing lost or duplicated.

use vstd::prelude::*;

use crate::error::StreamIoError;
use crate::transport::NamedPipe;
use crate::transport::WriteEvent;

verus! {

/// The state of a write loop: a payload and how much of it the OS has
/// accepted so far.
pub struct WriteCursor {
    payload: Vec<u8>,
    offset: usize,
}

impl WriteCursor {
    /// The payload this loop is transferring.
    pub closed spec fn payload_bytes(self) -> Seq<u8> {
        self.payload@
    }

    /// How many bytes of the payload the OS has accepted so far.
    pub closed spec fn progress(self) -> int {
        self.offset as int
    }

    /// The accepted part never exceeds the payload.
    pub open spec fn wf(self) -> bool {
        0 <= self.progress() <= self.payload_bytes().len()
    }

    /// Starts a write loop over the given payload.
    pub fn new(payload: Vec<u8>) -> (r: WriteCursor)
        ensures
            r.wf(),
            r.payload_bytes() == payload@,
            r.progress() == 0,
    {
        WriteCursor { payload: payload, offset: 0 }
    }

    /// Whether the whole payload has been accepted.
    pub fn done(&self) -> (r: bool)
        requires
            self.wf(),
        ensures
            r == (self.progress() == self.payload_bytes().len()),
    {
        self.offset == self.payload.len()
    }

    /// How many bytes of the payload are still unsent.
    pub fn remaining_len(&self) -> (r: usize)
        requires
            self.wf(),
        ensures
            r == self.payload_bytes().len() - self.progress(),
    {
        self.payload.len() - self.offset
    }

    /// One iteration of the write loop: offers the unsent tail of the
    /// payload to the stream and applies what the poll reported.
    ///
    /// An accepted count `n` — short writes allowed — advances the cursor by
    /// exactly `n`, and exactly the payload's bytes from the old position up
    /// to the new one reach the endpoint, in order: no byte is lost,
    /// duplicated or altered, and none beyond the payload is sent. An OS
    /// error passes through verbatim and moves nothing.
    pub fn step(&mut self, pipe: &mut NamedPipe, ev: WriteEvent) -> (r: Result<
        usize,
        StreamIoError,
    >)
        requires
            old(self).wf(),
            old(pipe).write_open(),
            ev matches WriteEvent::Accepted(n) ==> n <= old(self).payload_bytes().len() - old(
                self,
            ).progress(),
        ensures
            final(self).wf(),
            final(self).payload_bytes() == old(self).payload_bytes(),
            final(pipe).os_handle() == old(pipe).os_handle(),
            final(pipe).write_open(),
            final(pipe).peer_closed() == old(pipe).peer_closed(),
            final(pipe).delivered_bytes() == old(pipe).delivered_bytes(),
            match ev {
                WriteEvent::Accepted(n) => {
                    &&& r == Ok::<usize, StreamIoError>(n)
                    &&& final(self).progress() == old(self).progress() + n
                    &&& final(pipe).sent_bytes() == old(pipe).sent_bytes() + old(
                        self,
                    ).payload_bytes().subrange(old(self).progress(), old(self).progress() + n)
                },
                WriteEvent::Fail(e) => {
                    &&& r == Err::<usize, StreamIoError>(StreamIoError::Os(e))
                    &&& final(self).progress() == old(self).progress()
                    &&& final(pipe).sent_bytes() == old(pipe).sent_bytes()
                },
            },
    {
        let tail = vstd::slice::slice_subrange(self.payload.as_slice(), self.offset, self.payload.len());
        let r = pipe.write(tail, ev);
        match r {
            Ok(n) => {
                assert(tail@.take(n as int) =~= self.payload@.subrange(
                    self.offset as int,
                    self.offset + n,
                ));
                self.offset = self.offset + n;
                Ok(n)
            },
            Err(e) => Err(e),
        }
    }
}

/// Law: looping writes lose and duplicate nothing. Each accepted chunk is
/// the payload's bytes from the old position to the new one, so it extends
/// the transferred prefix exactly; and once the position reaches the
/// payload's end, the prefix is the whole payload — the full payload has
/// been transferred, in order.
pub proof fn lemma_write_loop_no_loss(payload: Seq<u8>, i: int, n: int)
    requires
        0 <= i,
        0 <= n,
        i + n <= payload.len(),
    ensures
        payload.take(i) + payload.subrange(i, i + n) == payload.take(i + n),
        i + n == payload.len() ==> payload.take(i + n) == payload,
{
    assert(payload.take(i) + payload.subrange(i, i + n) =~= payload.take(i + n));
    if i + n == payload.len() {
        assert(payload.take(i + n) =~= payload);
    }
}

/// Law: the write side is byte-transparent. A stream whose accepted bytes
/// so far are some prefix of a write loop's payload, once that loop has
/// reached the payload's end, has handed to the endpoint exactly the bytes
/// it had handed before the loop followed by the payload itself — unchanged,
/// in order, with nothing added.
pub proof fn lemma_byte_transparency(before: Seq<u8>, payload: Seq<u8>, sent: Seq<u8>, progress: int)
    requires
        sent == before + payload.take(progress),
        progress == payload.len(),
    ensures
        sent == before + payload,
{
    assert(payload.take(progress) =~= payload);
}

} // verus!

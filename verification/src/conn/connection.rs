use vstd::prelude::*;

use crate::conn::fault::{Fault, IoOutcome};
use crate::conn::stream::{accept_result, Stream, StreamType, TlsAttempt};
use crate::lock::{Lock, Locky};
use crate::token::{Ready, Token};
use crate::workerid::WorkerID;

verus! {

/// Represents a single connection in the slab. Sized at exactly three cache
/// lines (192 bytes): the lock fills the first, the primary token and the
/// stream variant the second, the partner token, error slot and readiness
/// mask the third; explicit pads fill the rest.
pub struct Connection {
    pub lock: Lock,
    // cache line
    pub token: Token,
    pub data: Stream,
    pub pad_data: [u64; 5],
    // cache line
    pub other: Token,
    pub err: Fault,
    pub action: Ready,
    pub pad: [u64; 4],
}

impl Connection {
    /// Constructs a default connection. Nothing inside it is active.
    pub fn new() -> (r: Connection)
        ensures
            r.lock.locky == 0,
            r.token.0 == 0,
            r.data is Uninitialized,
            r.other.0 == 0,
            r.err is Absent,
            r.action.0 == 0,
    {
        Connection {
            lock: Lock::new(),
            token: Token(0),
            data: Stream::Uninitialized,
            pad_data: [0u64; 5],
            other: Token(0),
            err: Fault::Absent,
            action: Ready::none(),
            pad: [0u64; 4],
        }
    }

    /// Set up a stream and stamp the lock's owner word to `w` without a
    /// compare-and-swap — legal only while the slot is visible to a single
    /// thread. If the prior stream was not uninitialized it is handed back
    /// as the error: that indicates a protocol-layer bug upstream.
    pub fn setup(&mut self, x: Stream, w: WorkerID) -> (r: Result<(), Stream>)
        ensures
            final(self).data == x,
            final(self).lock.locky == w.0,
            final(self).token == old(self).token,
            final(self).other == old(self).other,
            final(self).err == old(self).err,
            final(self).action == old(self).action,
            old(self).data is Uninitialized ==> r == Ok::<(), Stream>(()),
            !(old(self).data is Uninitialized) ==> r == Err::<(), Stream>(old(self).data),
    {
        let prev = self.data;
        self.data = x;
        self.lock.manual_set(w);
        if !prev.is_uninitialized() {
            Err(prev)
        } else {
            Ok(())
        }
    }

    /// Replace the stream without touching the lock. As for `setup`, an
    /// actual initialized stream being replaced is handed back as an error;
    /// that should not happen, but the stream sum type makes it possible,
    /// so it is accounted for.
    pub fn replace(&mut self, x: Stream) -> (r: Result<(), Stream>)
        ensures
            final(self).data == x,
            final(self).lock == old(self).lock,
            final(self).token == old(self).token,
            final(self).other == old(self).other,
            final(self).err == old(self).err,
            final(self).action == old(self).action,
            old(self).data is Uninitialized ==> r == Ok::<(), Stream>(()),
            !(old(self).data is Uninitialized) ==> r == Err::<(), Stream>(old(self).data),
    {
        let prev = self.data;
        self.data = x;
        if !prev.is_uninitialized() {
            Err(prev)
        } else {
            Ok(())
        }
    }

    /// Attempt to drive the stream's handshake forward with what the
    /// acceptor reported. Returns whether the stream is now TLS-established
    /// (which is true at once when the value already was a TLS stream).
    /// On a handshake failure the slot is left uninitialized.
    pub fn handshake(&mut self, attempt: TlsAttempt) -> (r: Result<bool, Fault>)
        ensures
            final(self).lock == old(self).lock,
            final(self).token == old(self).token,
            final(self).other == old(self).other,
            final(self).err == old(self).err,
            final(self).action == old(self).action,
            !(old(self).data is TlsHandShake) ==> final(self).data == old(self).data && r == Ok::<
                bool,
                Fault,
            >(old(self).data is Tls),
            old(self).data is TlsHandShake ==> (match accept_result(attempt) {
                Ok(s) => final(self).data == s && r == Ok::<bool, Fault>(s is Tls),
                Err(e) => final(self).data is Uninitialized && r == Err::<bool, Fault>(e),
            }),
    {
        let prev = self.data;
        self.data = Stream::Uninitialized;
        match prev.handshake(attempt) {
            Ok(x) => {
                let flag = x.is_tls();
                self.data = x;
                Ok(flag)
            },
            Err(e) => Err(e),
        }
    }

    /// Checks that the primary token is nonzero.
    pub fn token_valid(&self) -> (r: bool)
        ensures
            r == (self.token.0 != 0),
    {
        self.token.0 != 0
    }

    /// Checks that the connection has a partner.
    pub fn has_partner(&self) -> (r: bool)
        ensures
            r == (self.other.0 != 0),
    {
        self.other.0 != 0
    }

    /// The last observed readiness asks for a read.
    pub fn wants_read(&self) -> (r: bool)
        ensures
            r == (self.action.0 == 1),
    {
        self.action.0 == 1
    }

    /// Forward a read to the stream; an uninitialized stream reports
    /// `usize::MAX` rather than 0, so it cannot pass for end-of-file.
    pub fn read(&self, forwarded: IoOutcome) -> (r: IoOutcome)
        ensures
            self.data is Uninitialized ==> r == IoOutcome::Done(usize::MAX),
            !(self.data is Uninitialized) ==> r == forwarded,
    {
        self.data.read(forwarded)
    }

    /// Forward a write to the stream, as for `read`.
    pub fn write(&self, forwarded: IoOutcome) -> (r: IoOutcome)
        ensures
            self.data is Uninitialized ==> r == IoOutcome::Done(usize::MAX),
            !(self.data is Uninitialized) ==> r == forwarded,
    {
        self.data.write(forwarded)
    }

    /// Forward a flush to the stream.
    pub fn flush(&self, forwarded: Result<(), Fault>) -> (r: Result<(), Fault>)
        ensures
            self.data is Uninitialized ==> r == Ok::<(), Fault>(()),
            !(self.data is Uninitialized) ==> r == forwarded,
    {
        self.data.flush(forwarded)
    }
}

impl Locky for Connection {
    open spec fn lock_word(&self) -> usize {
        self.lock.locky
    }

    open spec fn lock_frame(&self, other: &Self) -> bool {
        &&& self.token == other.token
        &&& self.data == other.data
        &&& self.other == other.other
        &&& self.err == other.err
        &&& self.action == other.action
    }

    fn try_lock(&mut self, me: usize) -> (r: bool) {
        self.lock.try_lock(me)
    }

    fn unlock(&mut self) {
        self.lock.unlock()
    }

    fn spinlock(&mut self, me: usize) {
        self.lock.spinlock(me)
    }

    fn worker(&self) -> (r: Option<WorkerID>) {
        self.lock.worker()
    }
}

impl StreamType for Connection {
    open spec fn stream_of(&self) -> Stream {
        self.data
    }

    fn is_uninitialized(&self) -> (r: bool) {
        self.data.is_uninitialized()
    }

    fn is_handshaking(&self) -> (r: bool) {
        self.data.is_handshaking()
    }

    fn is_tcp(&self) -> (r: bool) {
        self.data.is_tcp()
    }

    fn is_tls(&self) -> (r: bool) {
        self.data.is_tls()
    }

    fn is_unix(&self) -> (r: bool) {
        self.data.is_unix()
    }
}

} // verus!

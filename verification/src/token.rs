use vstd::prelude::*;

verus! {

/// A token names a registered I/O endpoint with the readiness poller.
/// Token 0 is the sentinel "unallocated"; tokens below the slab base are
/// reserved for fixed listeners.
#[derive(Clone, Copy, Debug, PartialEq, Eq, Structural)]
pub struct Token(pub usize);

/// A readiness bitmask as the poller reports it.
#[derive(Clone, Copy, Debug, PartialEq, Eq, Structural)]
pub struct Ready(pub usize);

impl Ready {
    /// The empty readiness set.
    pub fn none() -> (r: Ready)
        ensures
            r.0 == 0,
    {
        Ready(0)
    }

    /// Readiness for reading.
    pub fn readable() -> (r: Ready)
        ensures
            r.0 == 1,
    {
        Ready(1)
    }

    /// Readiness for writing.
    pub fn writable() -> (r: Ready)
        ensures
            r.0 == 2,
    {
        Ready(2)
    }
}

/// One readiness notification: which token, and what kind of readiness.
#[derive(Clone, Copy, Debug, PartialEq, Eq, Structural)]
pub struct Event {
    pub tok: Token,
    pub kind: Ready,
}

impl Event {
    /// The token this notification is about.
    pub fn token(&self) -> (t: Token)
        ensures
            t == self.tok,
    {
        self.tok
    }
}

} // verus!

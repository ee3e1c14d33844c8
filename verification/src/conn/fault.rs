use vstd::prelude::*;

verus! {

/// Unified error handling for I/O errors and TLS errors. The payload carries
/// the raw error code that the outside library reported; `Absent` is the
/// sentinel "no error" kept in the connection record's error slot.
#[derive(Clone, Copy, Debug, PartialEq, Eq, Structural)]
pub enum Fault {
    TLS(u64),
    OS(u64),
    Absent,
}

impl Fault {
    /// Whether the slot records an actual error.
    pub fn is_present(&self) -> (r: bool)
        ensures
            r == !(self is Absent),
    {
        match self {
            Fault::Absent => false,
            _ => true,
        }
    }
}

/// What a read or write against the OS or the TLS layer came back with:
/// some bytes moved, a would-block error with its code, or any other
/// failure with its code.
#[derive(Clone, Copy, Debug, PartialEq, Eq, Structural)]
pub enum IoOutcome {
    Done(usize),
    Blocked(u64),
    Failed(u64),
}

} // verus!

use vstd::prelude::*;

verus! {

/// Process-wide settings, held by whoever drives the event loop.
#[derive(Clone, Copy, Debug, PartialEq, Eq, Structural)]
pub struct Settings {
    pub workers: usize,
}

/// Record the number of worker threads.
pub fn set_workers(s: &mut Settings, x: usize)
    ensures
        final(s).workers == x,
{
    s.workers = x;
}

/// Read the number of worker threads.
pub fn get_workers(s: &Settings) -> (r: usize)
    ensures
        r == s.workers,
{
    s.workers
}

} // verus!

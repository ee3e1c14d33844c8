use vstd::prelude::*;

verus! {

/// Identifies a worker: a positive integer. The value 0 denotes "no owner";
/// it is also the implicit identity of the event-loop thread, which never
/// sets an identity of its own.
#[derive(Clone, Copy, Debug, PartialEq, Eq, Structural)]
pub struct WorkerID(pub usize);

/// The per-thread identity slot. Each worker thread owns one and sets it
/// once at thread start; the event loop leaves its slot at 0.
#[derive(Clone, Copy, Debug, PartialEq, Eq, Structural)]
pub struct Identity {
    pub id: usize,
}

/// Set the worker id of this thread's identity slot.
pub fn set_id(slot: &mut Identity, x: usize)
    ensures
        final(slot).id == x,
{
    slot.id = x;
}

/// Get the worker id stored in this thread's identity slot.
pub fn get_id(slot: &Identity) -> (r: usize)
    ensures
        r == slot.id,
{
    slot.id
}

} // verus!

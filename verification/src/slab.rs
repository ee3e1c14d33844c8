use vstd::prelude::*;
use vstd::std_specs::vec::vec_index_mut;

use crate::conn::connection::Connection;
use crate::conn::stream::Stream;
use crate::lock::{holder_of, Locky};
use crate::token::Token;
use crate::workerid::WorkerID;

verus! {

/// Lowest slab-backed token value; tokens below it are reserved for fixed
/// listeners.
pub const BASE: usize = 10;

/// Number of connection records in the slab.
pub const SLAB_CAPACITY: usize = 10922;

/// One past the highest slab-backed token value.
pub const LIMIT: usize = BASE + SLAB_CAPACITY;

/// The connection slab: a vector of fixed capacity, allocated once at
/// startup, never resized, indexed by token minus the base.
pub struct Slab {
    pub slots: Vec<Connection>,
}

/// A slot as the slab builder leaves it: the primary token pre-seeded to
/// the slot's own slab-index token, everything else inactive.
pub open spec fn fresh_slot(c: Connection, i: int) -> bool {
    &&& c.token.0 == BASE + i
    &&& c.data is Uninitialized
    &&& c.lock.locky == 0
    &&& c.other.0 == 0
    &&& c.err is Absent
    &&& c.action.0 == 0
}

/// The worker a token dispatches to: none for the reserved tokens, else
/// whatever the slot's lock word is stamped with.
pub open spec fn worker_of(s: &Slab, t: Token) -> Option<WorkerID> {
    if t.0 < BASE {
        None
    } else {
        holder_of(s.slots@[t.0 - BASE].lock.locky)
    }
}

impl Slab {
    /// The slab holds its full fixed capacity.
    pub open spec fn wf(&self) -> bool {
        self.slots@.len() == SLAB_CAPACITY
    }
}

/// Allocate the slab and fill it with empty connections, each slot's
/// primary token pre-seeded to its own slab-index token. Afterwards no
/// token has an owner yet: `worker_of` is `None` across the whole range.
pub fn build_connections() -> (r: Slab)
    ensures
        r.wf(),
        forall|i: int| 0 <= i < SLAB_CAPACITY ==> fresh_slot(#[trigger] r.slots@[i], i),
        forall|t: Token| BASE <= t.0 < LIMIT ==> worker_of(&r, t) is None,
{
    let mut slots: Vec<Connection> = Vec::with_capacity(SLAB_CAPACITY);
    let mut t: usize = BASE;
    while t < LIMIT
        invariant
            BASE <= t <= LIMIT,
            slots@.len() == t - BASE,
            forall|i: int| 0 <= i < t - BASE ==> fresh_slot(#[trigger] slots@[i], i),
        decreases LIMIT - t,
    {
        let mut c = Connection::new();
        c.token = Token(t);
        slots.push(c);
        t = t + 1;
    }
    Slab { slots }
}

/// Translate a token to its slab index; done in one place so that it is
/// done consistently. Every slab-backed token lands inside the capacity.
pub fn to_index(t: &Token) -> (r: usize)
    requires
        BASE <= t.0,
    ensures
        r == t.0 - BASE,
        t.0 < LIMIT ==> r < SLAB_CAPACITY,
{
    t.0 - BASE
}

/// Get the worker id associated with a token. If there is no associated
/// worker — the token is one of the reserved ones, or the slot's lock
/// word is 0 — it returns `None`.
pub fn get_workerid(s: &Slab, t: &Token) -> (r: Option<WorkerID>)
    requires
        s.wf(),
        t.0 < LIMIT,
    ensures
        r == worker_of(s, *t),
{
    if t.0 < BASE {
        return None;
    }
    let i = to_index(t);
    s.slots[i].worker()
}

/// What an attempt to access a slot came back with.
#[derive(Clone, Copy, Debug, PartialEq, Eq, Structural)]
pub enum Access {
    UnAllocated,
    Locked,
    Granted,
}

/// Try to take a slot for the caller. A slot whose primary token is the
/// "unallocated" sentinel is refused outright; otherwise the slot's lock
/// is tried, and on success the caller holds it and may work on the slot.
pub fn get_connection(s: &mut Slab, t: &Token, me: usize) -> (r: Access)
    requires
        old(s).wf(),
        BASE <= t.0 < LIMIT,
    ensures
        final(s).wf(),
        ({
            let i = t.0 - BASE;
            let before = old(s).slots@[i];
            let after = final(s).slots@[i];
            &&& final(s).slots@ == old(s).slots@.update(i, after)
            &&& after.lock_frame(&before)
            &&& (before.token.0 == 0 ==> r == Access::UnAllocated && after == before)
            &&& (before.token.0 != 0 && before.lock.locky == 0 ==> r == Access::Granted
                && after.lock.locky == me)
            &&& (before.token.0 != 0 && before.lock.locky != 0 ==> r == Access::Locked
                && after.lock.locky == before.lock.locky)
        }),
{
    let i = to_index(t);
    let valid = s.slots[i].token_valid();
    if !valid {
        proof {
            assert(old(s).slots@.update(i as int, old(s).slots@[i as int]) =~= old(s).slots@);
        }
        return Access::UnAllocated;
    }
    let c = vec_index_mut(&mut s.slots, i);
    let got = c.try_lock(me);
    if got {
        Access::Granted
    } else {
        Access::Locked
    }
}

/// Reach a slot directly, for a caller that already holds its lock.
pub fn slot_mut<'a>(s: &'a mut Slab, t: &Token) -> (c: &'a mut Connection)
    requires
        old(s).wf(),
        BASE <= t.0 < LIMIT,
    ensures
        final(s).wf(),
        *c == old(s).slots@[t.0 - BASE],
        final(s).slots@ == old(s).slots@.update(t.0 - BASE, *final(c)),
{
    let i = to_index(t);
    vec_index_mut(&mut s.slots, i)
}

/// Insert a stream: the event loop's way to hand a fresh connection to a
/// worker. The slot's stream is replaced and its lock word stamped with
/// the worker, so that from this call on the token dispatches to `w`;
/// a slot that already carried an initialized stream reports it back.
pub fn assign_stream(s: &mut Slab, t: &Token, x: Stream, w: WorkerID) -> (r: Result<(), Stream>)
    requires
        old(s).wf(),
        BASE <= t.0 < LIMIT,
        w.0 >= 1,
    ensures
        final(s).wf(),
        ({
            let i = t.0 - BASE;
            let before = old(s).slots@[i];
            let after = final(s).slots@[i];
            &&& final(s).slots@ == old(s).slots@.update(i, after)
            &&& after.data == x
            &&& after.lock.locky == w.0
            &&& after.token == before.token
            &&& after.other == before.other
            &&& after.err == before.err
            &&& after.action == before.action
            &&& (before.data is Uninitialized ==> r == Ok::<(), Stream>(()))
            &&& (!(before.data is Uninitialized) ==> r == Err::<(), Stream>(before.data))
        }),
        worker_of(final(s), *t) == Some(w),
{
    let i = to_index(t);
    let c = vec_index_mut(&mut s.slots, i);
    c.setup(x, w)
}

} // verus!

use vstd::prelude::*;

use crate::workerid::WorkerID;

verus! {

/// Decode a lock word: 0 means unlocked, any other value is the holder's
/// worker id.
pub open spec fn holder_of(word: usize) -> Option<WorkerID> {
    if word == 0 {
        None
    } else {
        Some(WorkerID(word))
    }
}

/// An abstract locking interface, shared by the lock itself and by the
/// connection record that carries one.
///
/// In the running system the lock word is a single atomic and `try_lock`
/// is a compare-and-swap; with the state passed explicitly the same
/// operations are expressed over a plain word, and every step a thread
/// could observe is one of the transitions below.
pub trait Locky {
    /// The raw lock word: 0 when unlocked, otherwise the holder's worker id.
    spec fn lock_word(&self) -> usize;

    /// Everything except the lock word is the same in `self` and `other`.
    spec fn lock_frame(&self, other: &Self) -> bool;

    /// Attempt to lock: compare-and-swap of (0 -> `me`). Succeeds exactly
    /// when the word was 0, and then stamps `me`; otherwise nothing changes.
    fn try_lock(&mut self, me: usize) -> (r: bool)
        ensures
            r == (old(self).lock_word() == 0),
            final(self).lock_word() == if old(self).lock_word() == 0 {
                me
            } else {
                old(self).lock_word()
            },
            final(self).lock_frame(old(self)),
    ;

    /// Unlock, unconditionally: the word becomes 0 whoever held it. Only
    /// the holder is permitted to call this; the protocol, not the machine,
    /// enforces that.
    fn unlock(&mut self)
        ensures
            final(self).lock_word() == 0,
            final(self).lock_frame(old(self)),
    ;

    /// Busy-wait until the lock is taken. Callers reach this only where
    /// contention is impossible by construction, so the word is already 0
    /// and a single compare-and-swap settles it.
    fn spinlock(&mut self, me: usize)
        requires
            old(self).lock_word() == 0,
        ensures
            final(self).lock_word() == me,
            final(self).lock_frame(old(self)),
    ;

    /// The worker currently stamped into the lock word, if any.
    fn worker(&self) -> (r: Option<WorkerID>)
        ensures
            r == holder_of(self.lock_word()),
    ;
}

/// A simple lock primitive. Takes up 64 bytes, a whole cache line on most
/// 64-bit systems, so that neighbouring slots never share a line.
pub struct Lock {
    pub locky: usize,
    pub pad: [u64; 7],
}

impl Lock {
    /// Create a new lock, in an unlocked state.
    pub fn new() -> (r: Lock)
        ensures
            r.locky == 0,
    {
        Lock { locky: 0, pad: [0u64; 7] }
    }

    /// Create a lock already stamped with a worker.
    pub fn give(w: WorkerID) -> (r: Lock)
        ensures
            r.locky == w.0,
    {
        Lock { locky: w.0, pad: [0u64; 7] }
    }

    /// Store a worker id into the lock word without a compare-and-swap.
    /// Used only while the slot is visible to a single thread.
    pub fn manual_set(&mut self, w: WorkerID)
        ensures
            final(self).locky == w.0,
    {
        self.locky = w.0;
    }
}

impl Locky for Lock {
    open spec fn lock_word(&self) -> usize {
        self.locky
    }

    open spec fn lock_frame(&self, other: &Self) -> bool {
        true
    }

    fn try_lock(&mut self, me: usize) -> (r: bool) {
        if self.locky == 0 {
            self.locky = me;
            true
        } else {
            false
        }
    }

    fn unlock(&mut self) {
        self.locky = 0;
    }

    fn spinlock(&mut self, me: usize) {
        let _ = self.try_lock(me);
    }

    fn worker(&self) -> (r: Option<WorkerID>) {
        if self.locky == 0 {
            None
        } else {
            Some(WorkerID(self.locky))
        }
    }
}

/// Law: per-slot critical sections exclude one another. The lock word holds
/// at most one worker, so two workers observed holding the same lock are the
/// same worker; and by the contract of `try_lock`, while the word is nonzero
/// every further `try_lock` fails and leaves the word as it is.
pub proof fn lemma_lock_exclusive<L: Locky>(l: &L, a: WorkerID, b: WorkerID)
    requires
        holder_of(l.lock_word()) == Some(a),
        holder_of(l.lock_word()) == Some(b),
    ensures
        a == b,
{
}

} // verus!

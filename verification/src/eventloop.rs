use vstd::prelude::*;
use vstd::multiset::Multiset;
use vstd::pervasive::VecAdditionalExecFns;

use crate::conn::fault::Fault;
use crate::conn::stream::{Stream, TcpHandle, UnixHandle};
use crate::ipc::{events_of, send_futfillment, Events, WorkerIPC};
use crate::slab::{assign_stream, worker_of, Slab, BASE, LIMIT, SLAB_CAPACITY};
use crate::token::Token;
use crate::workerid::WorkerID;

verus! {

broadcast use vstd::seq_lib::group_to_multiset_ensures;

/// What we forward connections to: a network address or a local-domain
/// socket path, kept as the configured text.
pub enum Forward {
    Unix(String),
    Network(String),
}

/// The stream a forward's connect call leads to, given the outcome of the
/// raw connect and of registering the new handle with the poller.
pub open spec fn connect_result(
    f: &Forward,
    conn: Result<u64, Fault>,
    reg: Result<(), Fault>,
) -> Result<Stream, Fault> {
    match conn {
        Err(e) => Err(e),
        Ok(h) => match reg {
            Err(e) => Err(e),
            Ok(_) => Ok(
                match f {
                    Forward::Network(_) => Stream::Tcp(TcpHandle(h)),
                    Forward::Unix(_) => Stream::Unix(UnixHandle(h)),
                },
            ),
        },
    }
}

impl Forward {
    /// Build a forwarding address from the configured text. The embedding
    /// reports whether the text is a socket-address literal and whether it
    /// exists as a path on the filesystem: an address literal is a network
    /// forward, an existing path a local-domain forward, anything else is
    /// rejected.
    pub fn build(s: String, is_addr: bool, path_exists: bool) -> (r: Option<Forward>)
        ensures
            is_addr ==> r == Some(Forward::Network(s)),
            !is_addr && path_exists ==> r == Some(Forward::Unix(s)),
            !is_addr && !path_exists ==> r is None,
    {
        if is_addr {
            Some(Forward::Network(s))
        } else if path_exists {
            Some(Forward::Unix(s))
        } else {
            None
        }
    }

    /// Set up a new upstream connection from the outcomes of the raw
    /// connect (which hands over the new stream's handle) and of the
    /// poller registration: a network forward yields a TCP stream, a
    /// local-domain forward a Unix stream.
    pub fn connect(&self, conn: Result<u64, Fault>, reg: Result<(), Fault>) -> (r: Result<
        Stream,
        Fault,
    >)
        ensures
            r == connect_result(self, conn, reg),
    {
        let h = match conn {
            Ok(h) => h,
            Err(e) => {
                return Err(e);
            },
        };
        match self {
            Forward::Network(_) => Stream::create_tcp(TcpHandle(h), reg),
            Forward::Unix(_) => Stream::create_unix(UnixHandle(h), reg),
        }
    }
}

/// Find the least-loaded worker: the first index of the smallest entry,
/// plus one, since a worker id is 1-based (0 means unallocated). An empty
/// table yields 1.
pub fn find_smallest_index(v: &[usize]) -> (r: usize)
    ensures
        v@.len() == 0 ==> r == 1,
        v@.len() > 0 ==> {
            &&& 1 <= r <= v@.len()
            &&& forall|j: int| 0 <= j < v@.len() ==> v@[r - 1] <= #[trigger] v@[j]
            &&& forall|j: int| 0 <= j < r - 1 ==> #[trigger] v@[j] > v@[r - 1]
        },
{
    let mut value: usize = usize::MAX;
    let mut index: usize = 0;
    let n = v.len();
    let mut i: usize = 0;
    while i < n
        invariant
            0 <= i <= n,
            n == v@.len(),
            i == 0 ==> index == 0 && value == usize::MAX,
            i > 0 ==> {
                &&& index < i
                &&& value == v@[index as int]
                &&& forall|j: int| 0 <= j < i ==> value <= #[trigger] v@[j]
                &&& forall|j: int| 0 <= j < index ==> #[trigger] v@[j] > value
            },
        decreases n - i,
    {
        let temp = v[i];
        if temp < value {
            index = i;
            value = temp;
        }
        i = i + 1;
    }
    index + 1
}

/// The unused-token heap, owned by the event loop: the tokens currently
/// free, the smallest handed out first.
pub struct TokenHeap {
    pub items: Vec<usize>,
}

impl TokenHeap {
    /// The free tokens, as a multiset.
    pub open spec fn mset(&self) -> Multiset<usize> {
        self.items@.to_multiset()
    }

    /// Whether `t` is currently free.
    pub open spec fn has(&self, t: usize) -> bool {
        self.mset().count(t) > 0
    }

    /// Every free token is slab-backed.
    pub open spec fn wf(&self) -> bool {
        forall|i: int| 0 <= i < self.items@.len() ==> BASE <= #[trigger] self.items@[i] < LIMIT
    }

    /// An empty heap.
    pub fn new() -> (r: TokenHeap)
        ensures
            r.wf(),
            r.items@.len() == 0,
    {
        TokenHeap { items: Vec::new() }
    }

    /// Return a free token to the heap.
    pub fn push(&mut self, t: usize)
        requires
            old(self).wf(),
            BASE <= t < LIMIT,
        ensures
            final(self).wf(),
            final(self).mset() == old(self).mset().insert(t),
            final(self).items@ == old(self).items@.push(t),
            final(self).items@.len() == old(self).items@.len() + 1,
    {
        self.items.push(t);
    }

    /// Take the smallest free token, or nothing when the heap is empty.
    pub fn pop(&mut self) -> (r: Option<usize>)
        requires
            old(self).wf(),
        ensures
            final(self).wf(),
            old(self).items@.len() == 0 ==> r is None && final(self).items@ == old(self).items@,
            old(self).items@.len() > 0 ==> (match r {
                Some(m) => {
                    &&& BASE <= m < LIMIT
                    &&& old(self).has(m)
                    &&& final(self).mset() == old(self).mset().remove(m)
                    &&& final(self).items@.len() == old(self).items@.len() - 1
                    &&& forall|j: int|
                        0 <= j < old(self).items@.len() ==> m <= #[trigger] old(self).items@[j]
                },
                None => false,
            }),
    {
        let n = self.items.len();
        if n == 0 {
            return None;
        }
        let mut best: usize = 0;
        let mut i: usize = 1;
        while i < n
            invariant
                1 <= i <= n,
                best < i,
                n == self.items@.len(),
                forall|j: int| 0 <= j < i ==> self.items@[best as int] <= #[trigger] self.items@[j],
            decreases n - i,
        {
            if self.items[i] < self.items[best] {
                best = i;
            }
            i = i + 1;
        }
        proof {
            assert(old(self).items@.contains(old(self).items@[best as int]));
        }
        let got = self.items.remove(best);
        Some(got)
    }
}

/// Law: every token the heap holds — and so every token it can return —
/// is slab-backed; `pop` moreover promises the range of what it hands out
/// directly.
pub proof fn lemma_heap_tokens_slab_backed(h: &TokenHeap, i: int)
    requires
        h.wf(),
        0 <= i < h.items@.len(),
    ensures
        BASE <= h.items@[i] < LIMIT,
{
}

/// The sum of a workload table.
pub open spec fn sum_of(s: Seq<usize>) -> int
    decreases s.len(),
{
    if s.len() == 0 {
        0
    } else {
        s[0] + sum_of(s.drop_first())
    }
}

proof fn lemma_sum_update(s: Seq<usize>, i: int, v: usize)
    requires
        0 <= i < s.len(),
    ensures
        sum_of(s.update(i, v)) == sum_of(s) - s[i] + v,
    decreases s.len(),
{
    if i == 0 {
        assert(s.update(0, v).drop_first() =~= s.drop_first());
    } else {
        lemma_sum_update(s.drop_first(), i - 1, v);
        assert(s.update(i, v).drop_first() =~= s.drop_first().update(i - 1, v));
    }
}

proof fn lemma_sum_zero(s: Seq<usize>)
    requires
        forall|j: int| 0 <= j < s.len() ==> #[trigger] s[j] == 0,
    ensures
        sum_of(s) == 0,
    decreases s.len(),
{
    if s.len() > 0 {
        lemma_sum_zero(s.drop_first());
    }
}

/// The event loop's private bookkeeping: the configured forwards, the
/// unused-token heap and the per-worker workload table. The readiness
/// poller, the listeners and the OS handles stay with the embedding.
pub struct LoopState {
    pub forwards: Vec<Forward>,
    pub heap: TokenHeap,
    pub workload: Vec<usize>,
}

impl LoopState {
    /// Sound bookkeeping: every free token is slab-backed, and there is at
    /// least one worker to assign connections to.
    pub open spec fn wf(&self) -> bool {
        &&& self.heap.wf()
        &&& self.workload@.len() >= 1
    }
}

/// Set up the event loop's bookkeeping: the token heap pre-populated with
/// every slab-backed token once, and a zeroed workload counter for each of
/// the `worker_count` workers.
pub fn loop_setup(forwards: Vec<Forward>, worker_count: usize) -> (r: LoopState)
    requires
        worker_count >= 1,
    ensures
        r.wf(),
        r.forwards == forwards,
        r.workload@.len() == worker_count,
        forall|j: int| 0 <= j < worker_count ==> #[trigger] r.workload@[j] == 0,
        sum_of(r.workload@) == 0,
        r.heap.items@.len() == SLAB_CAPACITY,
        forall|t: usize| BASE <= t < LIMIT ==> #[trigger] r.heap.has(t),
{
    let mut heap = TokenHeap::new();
    let mut t: usize = BASE;
    while t < LIMIT
        invariant
            BASE <= t <= LIMIT,
            heap.wf(),
            heap.items@.len() == t - BASE,
            forall|k: int| 0 <= k < t - BASE ==> #[trigger] heap.items@[k] == BASE + k,
        decreases LIMIT - t,
    {
        heap.push(t);
        t = t + 1;
    }
    let mut workload: Vec<usize> = Vec::with_capacity(worker_count);
    let mut j: usize = 0;
    while j < worker_count
        invariant
            0 <= j <= worker_count,
            workload@.len() == j,
            forall|k: int| 0 <= k < j ==> #[trigger] workload@[k] == 0,
        decreases worker_count - j,
    {
        workload.push(0);
        j = j + 1;
    }
    proof {
        lemma_sum_zero(workload@);
        assert forall|tok: usize| BASE <= tok < LIMIT implies #[trigger] heap.has(tok) by {
            assert(heap.items@[tok - BASE] == tok);
            assert(heap.items@.contains(tok));
        }
    }
    LoopState { forwards, heap, workload }
}

/// Take a free token for a new connection; with the heap drained the
/// accept is refused and the cycle does nothing more (back-pressure: the
/// kernel backlog keeps the client until a token is free again).
pub fn alloc_token(st: &mut LoopState) -> (r: Option<Token>)
    requires
        old(st).wf(),
    ensures
        final(st).wf(),
        final(st).forwards == old(st).forwards,
        final(st).workload == old(st).workload,
        old(st).heap.items@.len() == 0 ==> r is None && final(st).heap.items@ == old(st).heap.items@,
        old(st).heap.items@.len() > 0 ==> (match r {
            Some(t) => {
                &&& BASE <= t.0 < LIMIT
                &&& old(st).heap.has(t.0)
                &&& final(st).heap.mset() == old(st).heap.mset().remove(t.0)
                &&& final(st).heap.items@.len() == old(st).heap.items@.len() - 1
            },
            None => false,
        }),
{
    match st.heap.pop() {
        Some(t) => Some(Token(t)),
        None => None,
    }
}

/// Give a token back to the heap: the accept or setup it was taken for
/// did not come through.
pub fn return_token(st: &mut LoopState, t: Token)
    requires
        old(st).wf(),
        BASE <= t.0 < LIMIT,
    ensures
        final(st).wf(),
        final(st).forwards == old(st).forwards,
        final(st).workload == old(st).workload,
        final(st).heap.mset() == old(st).heap.mset().insert(t.0),
        final(st).heap.items@.len() == old(st).heap.items@.len() + 1,
{
    st.heap.push(t.0);
}

/// Hand a freshly accepted client stream to the least-loaded worker, ties
/// broken by the lowest index: the slot is stamped with the worker, the
/// worker is told `Open(t)`, and exactly its workload counter rises by
/// one, so the counters' sum keeps counting the open client connections.
/// A slot that already carried a stream gives the token back to the heap
/// instead, with no fulfilment and no workload change.
pub fn finish_accept(
    st: &mut LoopState,
    slab: &mut Slab,
    bus: &mut Vec<WorkerIPC>,
    t: Token,
    stream: Stream,
) -> (r: Option<WorkerID>)
    requires
        old(st).wf(),
        old(slab).wf(),
        BASE <= t.0 < LIMIT,
        old(st).workload@.len() <= old(bus)@.len(),
        forall|j: int| 0 <= j < old(st).workload@.len() ==> #[trigger] old(st).workload@[j]
            < usize::MAX,
    ensures
        final(st).wf(),
        final(slab).wf(),
        final(st).forwards == old(st).forwards,
        final(st).workload@.len() == old(st).workload@.len(),
        final(bus)@.len() == old(bus)@.len(),
        ({
            let i = t.0 - BASE;
            let before = old(slab).slots@[i];
            let after = final(slab).slots@[i];
            &&& final(slab).slots@ == old(slab).slots@.update(i, after)
            &&& after.data == stream
            &&& (match r {
                Some(w) => {
                    &&& before.data is Uninitialized
                    &&& 1 <= w.0 <= old(st).workload@.len()
                    &&& forall|j: int|
                        0 <= j < old(st).workload@.len() ==> old(st).workload@[w.0 - 1]
                            <= #[trigger] old(st).workload@[j]
                    &&& forall|j: int|
                        0 <= j < w.0 - 1 ==> #[trigger] old(st).workload@[j] > old(st).workload@[w.0
                            - 1]
                    &&& worker_of(final(slab), t) == Some(w)
                    &&& final(st).workload@ == old(st).workload@.update(
                        w.0 - 1,
                        (old(st).workload@[w.0 - 1] + 1) as usize,
                    )
                    &&& sum_of(final(st).workload@) == sum_of(old(st).workload@) + 1
                    &&& final(st).heap == old(st).heap
                    &&& events_of(final(bus)@[w.0 - 1].from) == events_of(
                        old(bus)@[w.0 - 1].from,
                    ).push(Events::Open(t))
                    &&& final(bus)@[w.0 - 1].id == old(bus)@[w.0 - 1].id
                    &&& final(bus)@[w.0 - 1].to == old(bus)@[w.0 - 1].to
                    &&& forall|j: int|
                        0 <= j < old(bus)@.len() && j != w.0 - 1 ==> final(bus)@[j] == old(
                            bus,
                        )@[j]
                },
                None => {
                    &&& !(before.data is Uninitialized)
                    &&& final(st).heap.mset() == old(st).heap.mset().insert(t.0)
                    &&& final(st).workload == old(st).workload
                    &&& sum_of(final(st).workload@) == sum_of(old(st).workload@)
                    &&& final(bus)@ == old(bus)@
                },
            })
        }),
{
    let i = find_smallest_index(st.workload.as_slice());
    let w = WorkerID(i);
    match assign_stream(slab, &t, stream, w) {
        Ok(_) => {
            send_futfillment(bus, w, Events::Open(t));
            let cur = st.workload[i - 1];
            st.workload.set(i - 1, cur + 1);
            proof {
                lemma_sum_update(old(st).workload@, i - 1, (cur + 1) as usize);
            }
            Some(w)
        },
        Err(_) => {
            st.heap.push(t.0);
            None
        },
    }
}

/// Validate a worker's request for a new upstream and take a token for
/// it. A forward index out of range is refused — the request is dropped,
/// as the protocol owes no reply to a malformed request — and nothing
/// changes; otherwise a token leaves the heap for the new connection.
pub fn begin_upstream(st: &mut LoopState, i: usize) -> (r: Option<Token>)
    requires
        old(st).wf(),
        i < old(st).forwards@.len() ==> old(st).heap.items@.len() > 0,
    ensures
        final(st).wf(),
        final(st).forwards == old(st).forwards,
        final(st).workload == old(st).workload,
        i >= old(st).forwards@.len() ==> r is None && final(st).heap == old(st).heap,
        i < old(st).forwards@.len() ==> (match r {
            Some(t) => {
                &&& BASE <= t.0 < LIMIT
                &&& old(st).heap.has(t.0)
                &&& final(st).heap.mset() == old(st).heap.mset().remove(t.0)
                &&& final(st).heap.items@.len() == old(st).heap.items@.len() - 1
            },
            None => false,
        }),
{
    if i >= st.forwards.len() {
        return None;
    }
    match st.heap.pop() {
        Some(t) => Some(Token(t)),
        None => None,
    }
}

/// Answer a worker's `NewUpstream` with the connect's outcome: exactly one
/// fulfilment goes onto that worker's down-queue — `Open(t)` when the
/// connect came through and the slot took the stream, `Failure` otherwise,
/// and then the token goes back to the heap. An upstream open never
/// touches the workload table: only client-side connections are counted.
pub fn finish_upstream(
    st: &mut LoopState,
    slab: &mut Slab,
    bus: &mut Vec<WorkerIPC>,
    w: WorkerID,
    t: Token,
    outcome: Result<Stream, Fault>,
)
    requires
        old(st).wf(),
        old(slab).wf(),
        BASE <= t.0 < LIMIT,
        1 <= w.0 <= old(bus)@.len(),
    ensures
        final(st).wf(),
        final(slab).wf(),
        final(st).forwards == old(st).forwards,
        final(st).workload == old(st).workload,
        final(bus)@.len() == old(bus)@.len(),
        final(bus)@[w.0 - 1].id == old(bus)@[w.0 - 1].id,
        final(bus)@[w.0 - 1].to == old(bus)@[w.0 - 1].to,
        forall|j: int|
            0 <= j < old(bus)@.len() && j != w.0 - 1 ==> final(bus)@[j] == old(bus)@[j],
        ({
            let i = t.0 - BASE;
            let before = old(slab).slots@[i];
            let opened = outcome is Ok && before.data is Uninitialized;
            &&& (opened ==> {
                &&& events_of(final(bus)@[w.0 - 1].from) == events_of(
                    old(bus)@[w.0 - 1].from,
                ).push(Events::Open(t))
                &&& final(st).heap == old(st).heap
                &&& worker_of(final(slab), t) == Some(w)
            })
            &&& (!opened ==> {
                &&& events_of(final(bus)@[w.0 - 1].from) == events_of(
                    old(bus)@[w.0 - 1].from,
                ).push(Events::Failure)
                &&& final(st).heap.mset() == old(st).heap.mset().insert(t.0)
                &&& final(st).heap.items@.len() == old(st).heap.items@.len() + 1
            })
            &&& (outcome is Err ==> final(slab).slots@ == old(slab).slots@)
        }),
{
    match outcome {
        Err(_) => {
            st.heap.push(t.0);
            send_futfillment(bus, w, Events::Failure);
        },
        Ok(stream) => {
            match assign_stream(slab, &t, stream, w) {
                Ok(_) => {
                    send_futfillment(bus, w, Events::Open(t));
                },
                Err(_) => {
                    st.heap.push(t.0);
                    send_futfillment(bus, w, Events::Failure);
                },
            }
        },
    }
}

/// Reclaim after a worker's `Close(t)`: the token reappears in the heap
/// and exactly the closing worker's workload counter falls by one, so the
/// counters' sum keeps counting the open client connections. No reply is
/// sent — the signature takes no bus.
pub fn handle_close(st: &mut LoopState, w: WorkerID, t: Token)
    requires
        old(st).wf(),
        BASE <= t.0 < LIMIT,
        1 <= w.0 <= old(st).workload@.len(),
        old(st).workload@[w.0 - 1] >= 1,
    ensures
        final(st).wf(),
        final(st).forwards == old(st).forwards,
        final(st).heap.mset() == old(st).heap.mset().insert(t.0),
        final(st).heap.has(t.0),
        final(st).heap.items@.len() == old(st).heap.items@.len() + 1,
        final(st).workload@ == old(st).workload@.update(
            w.0 - 1,
            (old(st).workload@[w.0 - 1] - 1) as usize,
        ),
        sum_of(final(st).workload@) == sum_of(old(st).workload@) - 1,
{
    st.heap.push(t.0);
    let i = w.0 - 1;
    let cur = st.workload[i];
    st.workload.set(i, cur - 1);
    proof {
        lemma_sum_update(old(st).workload@, i as int, (cur - 1) as usize);
    }
}

} // verus!

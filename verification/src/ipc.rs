use vstd::prelude::*;
use vstd::std_specs::vec::vec_index_mut;

use crate::config::{set_workers, Settings};
use crate::slab::{get_workerid, worker_of, Slab, LIMIT};
use crate::token::{Event, Token};
use crate::workerid::WorkerID;

verus! {

/// The requests a worker can make to the event thread.
///
/// - `New` asks for a new upstream connection to the forward with the given
///   index; the worker must track these requests, as every one is answered.
/// - `Close` signals that the worker has closed a connection and is
///   returning the token to the event loop; it is never answered.
#[derive(Clone, Copy, Debug, PartialEq, Eq, Structural)]
pub enum Requests {
    New(usize),
    Close(Token),
}

/// How the main event loop sees requests: the worker's request bundled
/// with the `WorkerID` it came from, so the loop knows where to reply.
#[derive(Clone, Copy, Debug, PartialEq, Eq, Structural)]
pub struct PresentRequests(pub WorkerID, pub Requests);

/// What the event loop can say to a worker. `Open` reports that a
/// connection the worker asked for (or a fresh client) has been set up;
/// `Failure` that the most recent request failed; `Event` carries a
/// readiness notification for one of the worker's tokens.
#[derive(Clone, Copy, Debug, PartialEq, Eq, Structural)]
pub enum Events {
    Failure,
    Open(Token),
    Event(Event),
}

#[verifier::external_type_specification]
#[verifier::external_body]
#[verifier::reject_recursive_types(T)]
pub struct ExSegQueue<T>(crossbeam::queue::SegQueue<T>);

/// The requests held in a worker-to-loop queue, oldest first.
pub uninterp spec fn requests_of(q: crossbeam::queue::SegQueue<Requests>) -> Seq<Requests>;

/// The events held in a loop-to-worker queue, oldest first.
pub uninterp spec fn events_of(q: crossbeam::queue::SegQueue<Events>) -> Seq<Events>;

/// Relies on crossbeam's SegQueue::new: a new queue is empty.
#[verifier::external_body]
pub(crate) fn new_request_queue() -> (q: crossbeam::queue::SegQueue<Requests>)
    ensures
        requests_of(q) == Seq::<Requests>::empty(),
{
    crossbeam::queue::SegQueue::new()
}

/// Relies on crossbeam's SegQueue::new: a new queue is empty.
#[verifier::external_body]
pub(crate) fn new_event_queue() -> (q: crossbeam::queue::SegQueue<Events>)
    ensures
        events_of(q) == Seq::<Events>::empty(),
{
    crossbeam::queue::SegQueue::new()
}

/// Relies on crossbeam's SegQueue::push_mut: appends the value at the tail.
#[verifier::external_body]
pub(crate) fn push_request(q: &mut crossbeam::queue::SegQueue<Requests>, r: Requests)
    ensures
        requests_of(*final(q)) == requests_of(*old(q)).push(r),
{
    q.push_mut(r);
}

/// Relies on crossbeam's SegQueue::pop_mut: removes and returns the head,
/// or nothing when the queue is empty.
#[verifier::external_body]
pub(crate) fn pop_request(q: &mut crossbeam::queue::SegQueue<Requests>) -> (r: Option<Requests>)
    ensures
        requests_of(*old(q)).len() == 0 ==> r is None && requests_of(*final(q)) == requests_of(
            *old(q),
        ),
        requests_of(*old(q)).len() > 0 ==> r == Some(requests_of(*old(q))[0]) && requests_of(
            *final(q),
        ) == requests_of(*old(q)).drop_first(),
{
    q.pop_mut()
}

/// Relies on crossbeam's SegQueue::push_mut: appends the value at the tail.
#[verifier::external_body]
pub(crate) fn push_event(q: &mut crossbeam::queue::SegQueue<Events>, e: Events)
    ensures
        events_of(*final(q)) == events_of(*old(q)).push(e),
{
    q.push_mut(e);
}

/// Relies on crossbeam's SegQueue::pop_mut: removes and returns the head,
/// or nothing when the queue is empty.
#[verifier::external_body]
pub(crate) fn pop_event(q: &mut crossbeam::queue::SegQueue<Events>) -> (r: Option<Events>)
    ensures
        events_of(*old(q)).len() == 0 ==> r is None && events_of(*final(q)) == events_of(*old(q)),
        events_of(*old(q)).len() > 0 ==> r == Some(events_of(*old(q))[0]) && events_of(*final(q))
            == events_of(*old(q)).drop_first(),
{
    q.pop_mut()
}

/// A single worker's channel pair: requests travel up on `to`, events come
/// down on `from`. Only the loop reads `to`, only the worker reads `from`.
pub struct WorkerIPC {
    pub id: WorkerID,
    pub to: crossbeam::queue::SegQueue<Requests>,
    pub from: crossbeam::queue::SegQueue<Events>,
}

impl WorkerIPC {
    /// Build the channel pair associated with a worker; both queues start
    /// empty.
    pub fn new(id: usize) -> (r: WorkerIPC)
        ensures
            r.id == WorkerID(id),
            requests_of(r.to) == Seq::<Requests>::empty(),
            events_of(r.from) == Seq::<Events>::empty(),
    {
        WorkerIPC { id: WorkerID(id), to: new_request_queue(), from: new_event_queue() }
    }
}

/// A well-formed bus: channel `i` belongs to worker `i + 1`.
pub open spec fn bus_wf(bus: Seq<WorkerIPC>) -> bool {
    forall|i: int| 0 <= i < bus.len() ==> (#[trigger] bus[i].id) == WorkerID((i + 1) as usize)
}

/// Requests tagged with the worker they came from.
pub open spec fn tagged(id: WorkerID, s: Seq<Requests>) -> Seq<PresentRequests> {
    s.map(|i: int, r: Requests| PresentRequests(id, r))
}

/// Every worker's pending requests, channel by channel in bus order, each
/// tagged with its originating worker.
pub open spec fn all_tagged(chs: Seq<WorkerIPC>) -> Seq<PresentRequests>
    decreases chs.len(),
{
    if chs.len() == 0 {
        Seq::empty()
    } else {
        all_tagged(chs.drop_last()) + tagged(chs.last().id, requests_of(chs.last().to))
    }
}

/// Constructs the worker-thread bus: one channel pair for each of the
/// `worker_count` workers, ids 1 up to and including `worker_count`, and
/// records the worker count in the settings.
pub fn build_ipc(s: &mut Settings, worker_count: usize) -> (bus: Vec<WorkerIPC>)
    ensures
        final(s).workers == worker_count,
        bus@.len() == worker_count,
        bus_wf(bus@),
        forall|i: int|
            0 <= i < worker_count ==> requests_of(#[trigger] bus@[i].to) == Seq::<
                Requests,
            >::empty(),
        forall|i: int|
            0 <= i < worker_count ==> events_of(#[trigger] bus@[i].from) == Seq::<Events>::empty(),
{
    set_workers(s, worker_count);
    let mut bus: Vec<WorkerIPC> = Vec::with_capacity(worker_count);
    let mut built: usize = 0;
    while built < worker_count
        invariant
            0 <= built <= worker_count,
            bus@.len() == built,
            bus_wf(bus@),
            forall|i: int|
                0 <= i < bus@.len() ==> requests_of(#[trigger] bus@[i].to) == Seq::<
                    Requests,
                >::empty(),
            forall|i: int|
                0 <= i < bus@.len() ==> events_of(#[trigger] bus@[i].from) == Seq::<
                    Events,
                >::empty(),
        decreases worker_count - built,
    {
        bus.push(WorkerIPC::new(built + 1));
        built = built + 1;
    }
    bus
}

/// Read the events the loop sent to this worker, in the order the loop
/// sent them, appending them to `v` and leaving the down-queue empty. A
/// channel that does not carry this worker's id is left alone.
pub fn my_events(bus: &mut Vec<WorkerIPC>, me: usize, v: &mut Vec<Events>)
    requires
        1 <= me <= old(bus)@.len(),
    ensures
        final(bus)@.len() == old(bus)@.len(),
        forall|j: int|
            0 <= j < old(bus)@.len() && j != me - 1 ==> final(bus)@[j] == old(bus)@[j],
        final(bus)@[me - 1].id == old(bus)@[me - 1].id,
        final(bus)@[me - 1].to == old(bus)@[me - 1].to,
        old(bus)@[me - 1].id == WorkerID(me) ==> events_of(final(bus)@[me - 1].from) == Seq::<
            Events,
        >::empty() && final(v)@ == old(v)@ + events_of(old(bus)@[me - 1].from),
        old(bus)@[me - 1].id != WorkerID(me) ==> final(bus)@ == old(bus)@ && final(v)@ == old(v)@,
{
    let i = me - 1;
    let idv = bus[i].id;
    if idv != WorkerID(me) {
        return ;
    }
    let ghost orig: Seq<Events> = events_of(bus@[i as int].from);
    let ghost mut k: int = 0;
    let mut done = false;
    while !done
        invariant
            0 <= k <= orig.len(),
            done ==> k == orig.len(),
            0 <= i < bus@.len(),
            i == me - 1,
            bus@.len() == old(bus)@.len(),
            forall|j: int| 0 <= j < bus@.len() && j != i ==> bus@[j] == old(bus)@[j],
            bus@[i as int].id == old(bus)@[i as int].id,
            bus@[i as int].to == old(bus)@[i as int].to,
            events_of(bus@[i as int].from) == orig.skip(k),
            orig == events_of(old(bus)@[i as int].from),
            v@ == old(v)@ + orig.take(k),
        decreases orig.len() - k + (if done { 0int } else { 1int }),
    {
        let ch = vec_index_mut(bus, i);
        let e = pop_event(&mut ch.from);
        match e {
            Some(x) => {
                proof {
                    assert(orig.skip(k).drop_first() =~= orig.skip(k + 1));
                    assert((old(v)@ + orig.take(k)).push(orig[k]) =~= old(v)@ + orig.take(k + 1));
                    k = k + 1;
                }
                v.push(x);
            },
            None => {
                proof {
                    assert(orig.skip(k).len() == 0);
                }
                done = true;
            },
        }
    }
    proof {
        assert(orig.skip(orig.len() as int) =~= Seq::<Events>::empty());
        assert(orig.take(orig.len() as int) =~= orig);
    }
}

/// Send a request up to the event loop, onto this worker's own queue. A
/// channel that does not carry this worker's id is left alone.
pub fn send_request(bus: &mut Vec<WorkerIPC>, me: usize, r: Requests)
    requires
        1 <= me <= old(bus)@.len(),
    ensures
        final(bus)@.len() == old(bus)@.len(),
        forall|j: int|
            0 <= j < old(bus)@.len() && j != me - 1 ==> final(bus)@[j] == old(bus)@[j],
        final(bus)@[me - 1].id == old(bus)@[me - 1].id,
        final(bus)@[me - 1].from == old(bus)@[me - 1].from,
        old(bus)@[me - 1].id == WorkerID(me) ==> requests_of(final(bus)@[me - 1].to) == requests_of(
            old(bus)@[me - 1].to,
        ).push(r),
        old(bus)@[me - 1].id != WorkerID(me) ==> final(bus)@ == old(bus)@,
{
    let i = me - 1;
    let idv = bus[i].id;
    if idv != WorkerID(me) {
        return ;
    }
    let ch = vec_index_mut(bus, i);
    push_request(&mut ch.to, r);
}

/// Collect every request currently queued, from every worker, in bus
/// order, tagging each with its originating worker; all up-queues are left
/// empty. Only the event loop calls this.
pub fn get_requests(bus: &mut Vec<WorkerIPC>, v: &mut Vec<PresentRequests>)
    ensures
        final(bus)@.len() == old(bus)@.len(),
        forall|j: int|
            0 <= j < old(bus)@.len() ==> (#[trigger] final(bus)@[j]).id == old(bus)@[j].id,
        forall|j: int|
            0 <= j < old(bus)@.len() ==> (#[trigger] final(bus)@[j]).from == old(bus)@[j].from,
        forall|j: int|
            0 <= j < old(bus)@.len() ==> requests_of((#[trigger] final(bus)@[j]).to) == Seq::<
                Requests,
            >::empty(),
        final(v)@ == old(v)@ + all_tagged(old(bus)@),
{
    let n = bus.len();
    let mut w: usize = 0;
    proof {
        assert(old(v)@ + all_tagged(old(bus)@.take(0)) =~= old(v)@);
    }
    while w < n
        invariant
            0 <= w <= n,
            n == bus@.len(),
            bus@.len() == old(bus)@.len(),
            forall|j: int| w <= j < bus@.len() ==> bus@[j] == old(bus)@[j],
            forall|j: int|
                0 <= j < w ==> (#[trigger] bus@[j]).id == old(bus)@[j].id && bus@[j].from == old(
                    bus,
                )@[j].from && requests_of(bus@[j].to) == Seq::<Requests>::empty(),
            v@ == old(v)@ + all_tagged(old(bus)@.take(w as int)),
        decreases n - w,
    {
        let ghost orig: Seq<Requests> = requests_of(bus@[w as int].to);
        let ghost vw: Seq<PresentRequests> = v@;
        let id = bus[w].id;
        let ghost mut k: int = 0;
        let mut done = false;
        proof {
            assert(vw + tagged(id, orig.take(0)) =~= vw);
        }
        while !done
            invariant
                0 <= k <= orig.len(),
                done ==> k == orig.len(),
                0 <= w < bus@.len(),
                bus@.len() == old(bus)@.len(),
                orig == requests_of(old(bus)@[w as int].to),
                id == old(bus)@[w as int].id,
                forall|j: int| w < j < bus@.len() ==> bus@[j] == old(bus)@[j],
                forall|j: int|
                    0 <= j < w ==> (#[trigger] bus@[j]).id == old(bus)@[j].id && bus@[j].from
                        == old(bus)@[j].from && requests_of(bus@[j].to) == Seq::<
                        Requests,
                    >::empty(),
                bus@[w as int].id == old(bus)@[w as int].id,
                bus@[w as int].from == old(bus)@[w as int].from,
                requests_of(bus@[w as int].to) == orig.skip(k),
                v@ == vw + tagged(id, orig.take(k)),
            decreases orig.len() - k + (if done { 0int } else { 1int }),
        {
            let ch = vec_index_mut(bus, w);
            let item = pop_request(&mut ch.to);
            match item {
                Some(x) => {
                    proof {
                        assert(orig.skip(k).drop_first() =~= orig.skip(k + 1));
                        assert((vw + tagged(id, orig.take(k))).push(PresentRequests(id, orig[k]))
                            =~= vw + tagged(id, orig.take(k + 1)));
                        k = k + 1;
                    }
                    v.push(PresentRequests(id, x));
                },
                None => {
                    done = true;
                },
            }
        }
        proof {
            assert(orig.take(orig.len() as int) =~= orig);
            let s = old(bus)@;
            assert(s.take(w + 1).drop_last() =~= s.take(w as int));
            assert(s.take(w + 1).last() == s[w as int]);
            assert(all_tagged(s.take(w + 1)) == all_tagged(s.take(w as int)) + tagged(
                s[w as int].id,
                requests_of(s[w as int].to),
            ));
            assert(vw + tagged(id, orig) =~= old(v)@ + all_tagged(s.take(w + 1)));
        }
        w = w + 1;
    }
    proof {
        assert(old(bus)@.take(old(bus)@.len() as int) =~= old(bus)@);
    }
}

/// Route a readiness notification: an event whose token has an owning
/// worker is pushed onto that worker's down-queue; one without an owner —
/// a listener token, or an unallocated slot — is handed back to the caller
/// for direct handling.
pub fn send_event(slab: &Slab, bus: &mut Vec<WorkerIPC>, e: Event) -> (r: Option<Event>)
    requires
        slab.wf(),
        e.tok.0 < LIMIT,
        (match worker_of(slab, e.tok) {
            Some(w) => 1 <= w.0 <= old(bus)@.len(),
            None => true,
        }),
    ensures
        final(bus)@.len() == old(bus)@.len(),
        worker_of(slab, e.tok) is None ==> r == Some(e) && final(bus)@ == old(bus)@,
        (match worker_of(slab, e.tok) {
            Some(w) => {
                &&& r is None
                &&& events_of(final(bus)@[w.0 - 1].from) == events_of(old(bus)@[w.0 - 1].from).push(
                    Events::Event(e),
                )
                &&& final(bus)@[w.0 - 1].id == old(bus)@[w.0 - 1].id
                &&& final(bus)@[w.0 - 1].to == old(bus)@[w.0 - 1].to
                &&& forall|j: int|
                    0 <= j < old(bus)@.len() && j != w.0 - 1 ==> final(bus)@[j] == old(bus)@[j]
            },
            None => true,
        }),
{
    let t = e.token();
    match get_workerid(slab, &t) {
        None => Some(e),
        Some(id) => {
            let i = id.0 - 1;
            let ch = vec_index_mut(bus, i);
            push_event(&mut ch.from, Events::Event(e));
            None
        },
    }
}

/// Fulfil what a worker wanted the event loop to do: push the reply onto
/// that worker's down-queue.
pub fn send_futfillment(bus: &mut Vec<WorkerIPC>, w: WorkerID, e: Events)
    requires
        1 <= w.0 <= old(bus)@.len(),
    ensures
        final(bus)@.len() == old(bus)@.len(),
        forall|j: int|
            0 <= j < old(bus)@.len() && j != w.0 - 1 ==> final(bus)@[j] == old(bus)@[j],
        final(bus)@[w.0 - 1].id == old(bus)@[w.0 - 1].id,
        final(bus)@[w.0 - 1].to == old(bus)@[w.0 - 1].to,
        events_of(final(bus)@[w.0 - 1].from) == events_of(old(bus)@[w.0 - 1].from).push(e),
{
    let i = w.0 - 1;
    let ch = vec_index_mut(bus, i);
    push_event(&mut ch.from, e);
}

} // verus!

use tlsproxy::config::{get_workers, Settings};
use tlsproxy::conn::stream::{Stream, StreamType, TlsHandle};
use tlsproxy::ipc::{
    build_ipc, get_requests, my_events, send_event, send_futfillment, send_request, Events,
    PresentRequests, Requests, WorkerIPC,
};
use tlsproxy::lock::Locky;
use tlsproxy::slab::{
    assign_stream, build_connections, get_connection, get_workerid, slot_mut, to_index, Access,
};
use tlsproxy::token::{Event, Ready, Token};
use tlsproxy::workerid::WorkerID;

#[test]
fn test_to_index() {
    for i in 10..10932 {
        assert!(to_index(&Token(i)) < 10922);
    }
}

#[test]
fn test_build_connections() {
    let slab = build_connections();
    assert_eq!(slab.slots.len(), 10922);
    assert_eq!(slab.slots[0].token, Token(10));
    assert_eq!(slab.slots[10921].token, Token(10931));
    assert!(slab.slots[5000].is_uninitialized());
    assert_eq!(get_workerid(&slab, &Token(500)), None);
    // reserved tokens have no owning worker
    assert_eq!(get_workerid(&slab, &Token(0)), None);
    assert_eq!(get_workerid(&slab, &Token(9)), None);
}

#[test]
fn test_assign_stream_stamps_owner() {
    let mut slab = build_connections();
    let t = Token(42);
    // before the assignment the token has no owner
    assert_eq!(get_workerid(&slab, &t), None);
    assert_eq!(assign_stream(&mut slab, &t, Stream::Tls(TlsHandle(1)), WorkerID(2)), Ok(()));
    // after it, the token dispatches to exactly that worker
    assert_eq!(get_workerid(&slab, &t), Some(WorkerID(2)));
    // assigning over a live slot reports the displaced stream
    assert_eq!(
        assign_stream(&mut slab, &t, Stream::Tls(TlsHandle(9)), WorkerID(3)),
        Err(Stream::Tls(TlsHandle(1)))
    );
}

#[test]
fn test_get_connection_locks() {
    let mut slab = build_connections();
    let t = Token(100);
    // the freshly built slot is claimable: its token is pre-seeded
    assert_eq!(get_connection(&mut slab, &t, 1), Access::Granted);
    // now worker 1 holds it, so another worker is told to wait
    assert_eq!(get_connection(&mut slab, &t, 2), Access::Locked);
    {
        let c = slot_mut(&mut slab, &t);
        c.unlock();
    }
    assert_eq!(get_connection(&mut slab, &t, 2), Access::Granted);
    // a slot whose primary token was cleared is unallocated
    {
        let c = slot_mut(&mut slab, &t);
        c.unlock();
        c.token = Token(0);
    }
    assert_eq!(get_connection(&mut slab, &t, 1), Access::UnAllocated);
}

#[test]
fn test_build_ipc_and_workers() {
    let mut settings = Settings { workers: 0 };
    let bus = build_ipc(&mut settings, 3);
    assert_eq!(get_workers(&settings), 3);
    assert_eq!(bus.len(), 3);
    assert_eq!(bus[0].id, WorkerID(1));
    assert_eq!(bus[1].id, WorkerID(2));
    assert_eq!(bus[2].id, WorkerID(3));

    let ch = WorkerIPC::new(7);
    assert_eq!(ch.id, WorkerID(7));
}

#[test]
fn test_request_round_trip_in_order() {
    let mut settings = Settings { workers: 0 };
    let mut bus = build_ipc(&mut settings, 2);
    send_request(&mut bus, 1, Requests::New(0));
    send_request(&mut bus, 1, Requests::Close(Token(11)));
    send_request(&mut bus, 2, Requests::New(4));

    let mut reqs = Vec::new();
    get_requests(&mut bus, &mut reqs);
    assert_eq!(
        reqs,
        vec![
            PresentRequests(WorkerID(1), Requests::New(0)),
            PresentRequests(WorkerID(1), Requests::Close(Token(11))),
            PresentRequests(WorkerID(2), Requests::New(4)),
        ]
    );

    // the queues were drained: nothing more comes out
    let mut again = Vec::new();
    get_requests(&mut bus, &mut again);
    assert!(again.is_empty());
}

#[test]
fn test_my_events_in_order() {
    let mut settings = Settings { workers: 0 };
    let mut bus = build_ipc(&mut settings, 2);
    send_futfillment(&mut bus, WorkerID(2), Events::Open(Token(15)));
    send_futfillment(&mut bus, WorkerID(2), Events::Failure);
    send_futfillment(&mut bus, WorkerID(1), Events::Open(Token(16)));

    let mut evs = Vec::new();
    my_events(&mut bus, 2, &mut evs);
    assert_eq!(evs, vec![Events::Open(Token(15)), Events::Failure]);

    let mut evs1 = Vec::new();
    my_events(&mut bus, 1, &mut evs1);
    assert_eq!(evs1, vec![Events::Open(Token(16))]);

    // drained: a second read finds nothing
    let mut evs2 = Vec::new();
    my_events(&mut bus, 2, &mut evs2);
    assert!(evs2.is_empty());
}

#[test]
fn test_send_event_routing() {
    let mut settings = Settings { workers: 0 };
    let mut bus = build_ipc(&mut settings, 2);
    let mut slab = build_connections();

    // an event for an unowned token is handed back for direct handling
    let listener = Event { tok: Token(0), kind: Ready::readable() };
    assert_eq!(send_event(&slab, &mut bus, listener), Some(listener));

    // an owned token's event lands on the owning worker's queue
    assign_stream(&mut slab, &Token(77), Stream::Tls(TlsHandle(1)), WorkerID(2)).unwrap();
    let ev = Event { tok: Token(77), kind: Ready::readable() };
    assert_eq!(send_event(&slab, &mut bus, ev), None);

    let mut evs = Vec::new();
    my_events(&mut bus, 2, &mut evs);
    assert_eq!(evs, vec![Events::Event(ev)]);
    let mut evs1 = Vec::new();
    my_events(&mut bus, 1, &mut evs1);
    assert!(evs1.is_empty());
}

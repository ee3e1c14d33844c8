use tlsproxy::config::Settings;
use tlsproxy::conn::fault::Fault;
use tlsproxy::conn::stream::{HandshakeHandle, Stream, TcpHandle, TlsHandle, UnixHandle};
use tlsproxy::eventloop::{
    alloc_token, begin_upstream, find_smallest_index, finish_accept, finish_upstream,
    handle_close, loop_setup, return_token, Forward, TokenHeap,
};
use tlsproxy::ipc::{build_ipc, get_requests, my_events, send_request, Events, Requests};
use tlsproxy::lock::Locky;
use tlsproxy::slab::{build_connections, get_workerid, slot_mut};
use tlsproxy::token::Token;
use tlsproxy::workerid::WorkerID;

#[test]
fn test_smallest_index() {
    let x: [usize; 5] = [0, 15, 25, 4, 20];
    assert_eq!(1, find_smallest_index(&x));
    let x: [usize; 5] = [100, 15, 25, 4, 20];
    assert_eq!(4, find_smallest_index(&x));
}

#[test]
fn test_token_heap_pops_smallest() {
    let mut h = TokenHeap::new();
    h.push(500);
    h.push(12);
    h.push(44);
    h.push(12);
    assert_eq!(h.pop(), Some(12));
    assert_eq!(h.pop(), Some(12));
    assert_eq!(h.pop(), Some(44));
    assert_eq!(h.pop(), Some(500));
    assert_eq!(h.pop(), None);
}

#[test]
fn test_loop_setup_fills_heap() {
    let st = loop_setup(Vec::new(), 4);
    assert_eq!(st.heap.items.len(), 10922);
    assert_eq!(st.workload, vec![0, 0, 0, 0]);
    // the heap hands out every slab-backed token, smallest first
    let mut st = st;
    assert_eq!(alloc_token(&mut st), Some(Token(10)));
    assert_eq!(alloc_token(&mut st), Some(Token(11)));
    return_token(&mut st, Token(10));
    assert_eq!(alloc_token(&mut st), Some(Token(10)));
    assert_eq!(alloc_token(&mut st), Some(Token(12)));
}

#[test]
fn test_accept_assigns_least_loaded() {
    // two workers, empty workloads; a client connects
    let mut settings = Settings { workers: 0 };
    let mut bus = build_ipc(&mut settings, 2);
    let mut slab = build_connections();
    let mut st = loop_setup(Vec::new(), 2);

    let t1 = alloc_token(&mut st).expect("a token is free");
    assert!(t1.0 >= 10 && t1.0 < 10932);
    assert_eq!(get_workerid(&slab, &t1), None);
    let w = finish_accept(
        &mut st,
        &mut slab,
        &mut bus,
        t1,
        Stream::TlsHandShake(HandshakeHandle(7)),
    );
    assert_eq!(w, Some(WorkerID(1)));
    assert_eq!(st.workload, vec![1, 0]);
    assert_eq!(get_workerid(&slab, &t1), Some(WorkerID(1)));

    // worker 1's down-queue holds exactly one Open with the slab token
    let mut evs = Vec::new();
    my_events(&mut bus, 1, &mut evs);
    assert_eq!(evs, vec![Events::Open(t1)]);
    let mut evs2 = Vec::new();
    my_events(&mut bus, 2, &mut evs2);
    assert!(evs2.is_empty());
}

#[test]
fn test_least_loaded_tiebreak() {
    // workloads [3,3,3]; three connects in succession, each complete
    // before the next accept, all land on worker 1 (lowest-index tiebreak)
    let mut settings = Settings { workers: 0 };
    let mut bus = build_ipc(&mut settings, 3);
    let mut slab = build_connections();
    let mut st = loop_setup(Vec::new(), 3);
    st.workload = vec![3, 3, 3];

    for _ in 0..3 {
        let t = alloc_token(&mut st).unwrap();
        let w = finish_accept(&mut st, &mut slab, &mut bus, t, Stream::Tls(TlsHandle(1)))
            .expect("slot was free");
        assert_eq!(w, WorkerID(1));
        assert_eq!(st.workload, vec![4, 3, 3]);
        // the worker finishes with the connection: it resets the slot,
        // releases the lock and returns the token
        {
            let c = slot_mut(&mut slab, &t);
            let _ = c.replace(Stream::Uninitialized);
            c.unlock();
        }
        handle_close(&mut st, WorkerID(1), t);
        assert_eq!(st.workload, vec![3, 3, 3]);
    }
}

#[test]
fn test_upstream_request_fulfilled() {
    // worker 1 asks for upstream 0; its down-queue gets Open(t2)
    let mut settings = Settings { workers: 0 };
    let mut bus = build_ipc(&mut settings, 2);
    let mut slab = build_connections();
    let forward = Forward::build(String::from("/tmp/upstream.sock"), false, true)
        .expect("an existing path is a local-domain forward");
    let mut st = loop_setup(vec![forward], 2);

    // a client already occupies the first token
    let t1 = alloc_token(&mut st).unwrap();
    let _ = finish_accept(&mut st, &mut slab, &mut bus, t1, Stream::Tls(TlsHandle(1)));
    let mut sink = Vec::new();
    my_events(&mut bus, 1, &mut sink);

    send_request(&mut bus, 1, Requests::New(0));
    let mut reqs = Vec::new();
    get_requests(&mut bus, &mut reqs);
    assert_eq!(reqs.len(), 1);
    assert_eq!(reqs[0].0, WorkerID(1));
    assert_eq!(reqs[0].1, Requests::New(0));

    let t2 = begin_upstream(&mut st, 0).expect("index 0 is configured");
    assert_ne!(t2, t1);
    let stream = st.forwards[0].connect(Ok(42), Ok(()));
    assert_eq!(stream, Ok(Stream::Unix(UnixHandle(42))));
    finish_upstream(&mut st, &mut slab, &mut bus, WorkerID(1), t2, stream);

    let mut evs = Vec::new();
    my_events(&mut bus, 1, &mut evs);
    assert_eq!(evs, vec![Events::Open(t2)]);
    assert_eq!(get_workerid(&slab, &t2), Some(WorkerID(1)));
    // an upstream open never counts into the workload
    assert_eq!(st.workload, vec![1, 0]);
}

#[test]
fn test_upstream_request_failed() {
    // the forward does not listen; worker 1 gets Failure and the heap
    // keeps its tokens
    let mut settings = Settings { workers: 0 };
    let mut bus = build_ipc(&mut settings, 1);
    let mut slab = build_connections();
    let forward = Forward::build(String::from("203.0.113.9:4444"), true, false).unwrap();
    let mut st = loop_setup(vec![forward], 1);

    let before = st.heap.items.len();
    let t = begin_upstream(&mut st, 0).unwrap();
    let stream = st.forwards[0].connect(Err(Fault::OS(111)), Ok(()));
    assert_eq!(stream, Err(Fault::OS(111)));
    finish_upstream(&mut st, &mut slab, &mut bus, WorkerID(1), t, stream);
    // no token was consumed, net: the popped token went straight back
    assert_eq!(st.heap.items.len(), before);

    let mut evs = Vec::new();
    my_events(&mut bus, 1, &mut evs);
    assert_eq!(evs, vec![Events::Failure]);

    // an out-of-range forward index is dropped without a token moving
    assert_eq!(begin_upstream(&mut st, 5), None);
    assert_eq!(st.heap.items.len(), before);
}

#[test]
fn test_close_reclaims() {
    // after Close(t), t is back in the heap and the workload fell by one
    let mut settings = Settings { workers: 0 };
    let mut bus = build_ipc(&mut settings, 2);
    let mut slab = build_connections();
    let mut st = loop_setup(Vec::new(), 2);

    let t = alloc_token(&mut st).unwrap();
    let w = finish_accept(&mut st, &mut slab, &mut bus, t, Stream::Tls(TlsHandle(3))).unwrap();
    assert_eq!(st.workload, vec![1, 0]);
    assert!(!st.heap.items.contains(&t.0));

    handle_close(&mut st, w, t);
    assert!(st.heap.items.contains(&t.0));
    assert_eq!(st.workload, vec![0, 0]);
    // no reply of any kind reaches the worker
    let mut evs = Vec::new();
    my_events(&mut bus, 1, &mut evs);
    assert_eq!(evs, vec![Events::Open(t)]);  // only the Open from the accept
}

#[test]
fn test_slab_exhaustion_drops_accept() {
    // with the heap drained, an accept cycle does nothing
    let mut st = loop_setup(Vec::new(), 1);
    st.heap.items.clear();
    let before = st.workload.clone();
    assert_eq!(alloc_token(&mut st), None);
    // no token, so no assignment and no workload change
    assert_eq!(st.workload, before);
}

#[test]
fn test_forward_build() {
    // a socket-address literal parses as a network forward
    match Forward::build(String::from("127.0.0.1:8443"), true, false) {
        Some(Forward::Network(s)) => assert_eq!(s, "127.0.0.1:8443"),
        _ => panic!("expected a network forward"),
    }
    // not an address, but an existing path: a local-domain forward
    match Forward::build(String::from("/run/upstream.sock"), false, true) {
        Some(Forward::Unix(s)) => assert_eq!(s, "/run/upstream.sock"),
        _ => panic!("expected a local-domain forward"),
    }
    // neither: rejected
    assert!(Forward::build(String::from("nonsense"), false, false).is_none());
}

#[test]
fn test_forward_connect_outcomes() {
    let net = Forward::build(String::from("10.0.0.1:9000"), true, false).unwrap();
    assert_eq!(net.connect(Ok(5), Ok(())), Ok(Stream::Tcp(TcpHandle(5))));
    assert_eq!(net.connect(Err(Fault::OS(110)), Ok(())), Err(Fault::OS(110)));
    assert_eq!(net.connect(Ok(5), Err(Fault::OS(9))), Err(Fault::OS(9)));

    let unix = Forward::build(String::from("/tmp/x.sock"), false, true).unwrap();
    assert_eq!(unix.connect(Ok(6), Ok(())), Ok(Stream::Unix(UnixHandle(6))));
}

#[test]
fn test_accept_over_live_slot_returns_token() {
    // the one path where finish_accept refuses: the slot still carries a
    // stream; the token goes back and nobody is told anything
    let mut settings = Settings { workers: 0 };
    let mut bus = build_ipc(&mut settings, 1);
    let mut slab = build_connections();
    let mut st = loop_setup(Vec::new(), 1);

    let t = alloc_token(&mut st).unwrap();
    let w = finish_accept(&mut st, &mut slab, &mut bus, t, Stream::Tls(TlsHandle(1)));
    assert_eq!(w, Some(WorkerID(1)));
    let mut sink = Vec::new();
    my_events(&mut bus, 1, &mut sink);

    // the loop pops the same token again without the slot being reset
    return_token(&mut st, t);
    let t_again = alloc_token(&mut st).unwrap();
    assert_eq!(t_again, t);
    let w2 = finish_accept(&mut st, &mut slab, &mut bus, t_again, Stream::Tcp(TcpHandle(2)));
    assert_eq!(w2, None);
    assert_eq!(st.workload, vec![1]);
    assert!(st.heap.items.contains(&t.0));
    let mut evs = Vec::new();
    my_events(&mut bus, 1, &mut evs);
    assert!(evs.is_empty());
}

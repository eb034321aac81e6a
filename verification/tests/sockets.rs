use tmq::poll::{send_flags, FlushProgress, RecvStep, SendPoll};
use tmq::pull_stream;
use tmq::push_sink::{self, PushPoll};
use tmq::{AsZmqSocket, Context, Multipart, SocketKind, TmqError, ZmqSocket};

fn parts(items: &[&[u8]]) -> Vec<Vec<u8>> {
    items.iter().map(|p| p.to_vec()).collect()
}

fn is_zmq_error(r: &tmq::Result<impl Sized>, expected: zmq::Error) -> bool {
    match r {
        Err(TmqError::Zmq(e)) => *e == expected,
        Ok(_) => false,
    }
}

#[test]
fn send_flags_never_block_and_mark_more() {
    assert_eq!(send_flags(false), 1);
    assert_eq!(send_flags(true), 3);
    assert_eq!(send_flags(false), zmq::DONTWAIT);
    assert_eq!(send_flags(true), zmq::DONTWAIT | zmq::SNDMORE);
}

#[test]
fn opened_socket_has_its_kind() {
    let ctx = Context::new();
    let s = ZmqSocket::open(&ctx, SocketKind::Router).unwrap();
    assert_eq!(s.kind(), SocketKind::Router);
    assert_eq!(s.as_raw().get_socket_type().unwrap(), zmq::SocketType::ROUTER);
    let s = ZmqSocket::open(&ctx, SocketKind::Sub).unwrap();
    assert_eq!(s.as_raw().get_socket_type().unwrap(), zmq::SocketType::SUB);
}

#[test]
fn binding_twice_is_refused() {
    let ctx = Context::new();
    let _first = tmq::dealer(&ctx).bind("inproc://twice").unwrap();
    let second = tmq::dealer(&ctx).bind("inproc://twice");
    assert!(is_zmq_error(&second, zmq::Error::EADDRINUSE));
}

#[test]
fn unknown_transport_is_refused() {
    let ctx = Context::new();
    let r = tmq::dealer(&ctx).connect("bogus://nowhere");
    assert!(is_zmq_error(&r, zmq::Error::EPROTONOSUPPORT));
}

#[test]
fn nothing_is_sent_when_not_ready() {
    let ctx = Context::new();
    let mut s = ZmqSocket::open(&ctx, SocketKind::Push).unwrap();
    assert_eq!(s.send_message(b"x", false, false).unwrap(), SendPoll::NotReady);
    assert!(matches!(s.recv_message(false).unwrap(), tmq::poll::RecvPoll::NotReady));
}

#[test]
fn push_sends_one_segment_per_poll_and_pull_puts_them_together() {
    let ctx = Context::new();
    let mut push = push_sink::push(&ctx).bind("inproc://pushpull").unwrap().finish();
    let mut pull = pull_stream::pull(&ctx).connect("inproc://pushpull").unwrap().finish();

    assert_eq!(push.poll_complete(true).unwrap(), PushPoll::Complete);
    push.start_send(Multipart::from_parts(parts(&[b"a", b"bc", b"def"])));
    assert!(push.has_current());
    assert_eq!(push.poll_complete(false).unwrap(), PushPoll::NotReady);
    assert_eq!(push.poll_complete(true).unwrap(), PushPoll::SentNotify);
    assert_eq!(push.poll_complete(true).unwrap(), PushPoll::SentNotify);
    assert_eq!(push.poll_complete(true).unwrap(), PushPoll::Complete);
    assert!(!push.has_current());

    assert!(matches!(pull.poll_part(false).unwrap(), RecvStep::NotReady));
    let mut partials = 0;
    let mut got = None;
    for _ in 0..100000 {
        match pull.poll_part(true).unwrap() {
            RecvStep::Complete(m) => {
                got = Some(m);
                break;
            }
            RecvStep::Partial => partials += 1,
            RecvStep::WouldBlock => {}
            RecvStep::NotReady => panic!("a ready socket was reported not ready"),
        }
    }
    assert_eq!(partials, 2);
    assert_eq!(got.unwrap().into_parts(), parts(&[b"a", b"bc", b"def"]));
}

#[test]
fn empty_pull_would_block() {
    let ctx = Context::new();
    let mut pull = pull_stream::pull(&ctx).bind("inproc://emptypull").unwrap().finish();
    assert!(matches!(pull.poll_part(true).unwrap(), RecvStep::WouldBlock));
}

fn recv_complete(mut poll: impl FnMut() -> tmq::Result<RecvStep>) -> Vec<Vec<u8>> {
    for _ in 0..100000 {
        if let RecvStep::Complete(m) = poll().unwrap() {
            return m.into_parts();
        }
    }
    panic!("no message arrived");
}

#[test]
fn dealer_to_router_carries_the_peer_identity() {
    let ctx = Context::new();
    let mut router = tmq::router(&ctx).bind("inproc://dealerrouter").unwrap().finish().unwrap();
    let mut dealer = tmq::dealer(&ctx).connect("inproc://dealerrouter").unwrap().finish().unwrap();
    assert_eq!(dealer.get_socket().get_socket_type().unwrap(), zmq::SocketType::DEALER);
    assert_eq!(router.get_socket().get_socket_type().unwrap(), zmq::SocketType::ROUTER);

    dealer.start_send(Multipart::from_parts(parts(&[b"hello", b"world"])));
    assert!(dealer.has_queued());
    assert_eq!(dealer.poll_flush(false).unwrap(), FlushProgress::NotReady);
    assert!(dealer.has_queued());
    assert_eq!(dealer.poll_flush(true).unwrap(), FlushProgress::Flushed);
    assert!(!dealer.has_queued());

    let got = recv_complete(|| router.poll_recv(true));
    assert_eq!(got.len(), 3);
    assert_eq!(got[1..].to_vec(), parts(&[b"hello", b"world"]));

    let identity = got[0].clone();
    router.start_send(Multipart::from_parts(vec![identity, b"back".to_vec()]));
    assert_eq!(router.poll_flush(true).unwrap(), FlushProgress::Flushed);
    assert_eq!(recv_complete(|| dealer.poll_recv(true)), parts(&[b"back"]));
}

#[test]
fn router_options_can_be_set() {
    let ctx = Context::new();
    let mut router = tmq::router(&ctx).bind("inproc://routeropts").unwrap().finish().unwrap();
    assert!(router.set_router_mandatory(true).is_ok());
    assert!(router.set_router_handover(true).is_ok());
    assert!(router.set_router_mandatory(false).is_ok());
    // libzmq does not let these options be read back.
    assert!(is_zmq_error(&router.is_router_mandatory(), zmq::Error::EINVAL));
    assert!(is_zmq_error(&router.is_router_handover(), zmq::Error::EINVAL));
}

#[test]
fn request_and_reply_take_turns() {
    let ctx = Context::new();
    let rep = tmq::reply(&ctx).bind("inproc://reqrep").unwrap().finish().unwrap();
    let req = tmq::request(&ctx).connect("inproc://reqrep").unwrap().finish().unwrap();
    assert_eq!(req.get_socket().get_socket_type().unwrap(), zmq::SocketType::REQ);
    assert_eq!(rep.get_socket().get_socket_type().unwrap(), zmq::SocketType::REP);

    let mut sending = req.send(Multipart::from_parts(parts(&[b"ping"])));
    assert!(!sending.is_sent());
    assert_eq!(sending.poll_flush(true).unwrap(), FlushProgress::Flushed);
    assert!(sending.is_sent());
    let req = sending.into_receiver();

    let mut receiving = rep.recv();
    assert!(!receiving.is_done());
    assert_eq!(recv_complete(|| receiving.poll_recv(true)), parts(&[b"ping"]));
    assert!(receiving.is_done());
    let rep = receiving.into_sender();

    let mut answering = rep.send(Multipart::from_parts(parts(&[b"po", b"ng"])));
    assert_eq!(answering.poll_flush(true).unwrap(), FlushProgress::Flushed);
    let mut waiting = req.recv();
    assert_eq!(recv_complete(|| waiting.poll_recv(true)), parts(&[b"po", b"ng"]));
    assert!(waiting.is_done());
}

#[test]
fn subscriber_adds_topics() {
    let ctx = Context::new();
    let mut sub = tmq::subscribe(&ctx).connect("inproc://pubsub").unwrap().subscribe(b"topic").unwrap();
    assert_eq!(sub.get_socket().get_socket_type().unwrap(), zmq::SocketType::SUB);
    assert!(sub.subscribe(b"other").is_ok());
    assert!(matches!(sub.poll_recv(true).unwrap(), RecvStep::WouldBlock));
    assert!(sub.fd() >= 0);
}

#[test]
fn publisher_never_blocks() {
    let ctx = Context::new();
    let mut publish = tmq::publish(&ctx).bind("inproc://publisher").unwrap().finish().unwrap();
    assert_eq!(publish.get_socket().get_socket_type().unwrap(), zmq::SocketType::PUB);
    publish.start_send(Multipart::from_parts(parts(&[b"news", b"today"])));
    assert_eq!(publish.poll_flush(true).unwrap(), FlushProgress::Flushed);
    assert_eq!(publish.poll_flush(true).unwrap(), FlushProgress::Flushed);
}

#[test]
fn pull_socket_type_receives_what_was_pushed() {
    let ctx = Context::new();
    let mut pull = tmq::pull(&ctx).bind("inproc://pulltype").unwrap().finish().unwrap();
    assert_eq!(pull.get_socket().get_socket_type().unwrap(), zmq::SocketType::PULL);
    let mut push = push_sink::push(&ctx).connect("inproc://pulltype").unwrap().finish();
    push.start_send(Multipart::from_parts(parts(&[b"job"])));
    assert_eq!(push.poll_complete(true).unwrap(), PushPoll::Complete);
    assert_eq!(recv_complete(|| pull.poll_recv(true)), parts(&[b"job"]));
}

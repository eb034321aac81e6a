//! A PULL socket whose stream puts received parts together into multipart
//! messages.
use vstd::prelude::*;

use crate::error::Result;
use crate::message::Multipart;
use crate::framing::{
    lemma_receive_concat, lemma_receive_stream, receive_all, receive_part, segments_of_all, MultipartSegment,
};
use crate::poll::{last_recv, recv_outcome, recv_step, RecvStep};
use crate::socket::{has_no_nul, AsZmqSocket, Attach, SocketCall, SocketKind, ZmqSocket};

verus! {

/// Starts building a PULL socket in `context`.
pub fn pull(context: &zmq::Context) -> (b: PullBuilder<'_>)
    ensures
        b.context() == context,
{
    PullBuilder { context }
}

/// A PULL socket that is yet to be bound or connected.
pub struct PullBuilder<'a> {
    context: &'a zmq::Context,
}

/// A PULL socket that is bound or connected.
pub struct PullBuilderBounded {
    socket: ZmqSocket,
}

impl<'a> PullBuilder<'a> {
    pub closed spec fn context(&self) -> &'a zmq::Context {
        self.context
    }

    /// Opens a PULL socket and connects it to `endpoint`.
    pub fn connect(self, endpoint: &str) -> (r: Result<PullBuilderBounded>)
        requires
            has_no_nul(endpoint@),
        ensures
            r matches Ok(b) ==> b.socket().kind_spec() == SocketKind::Pull
                && b.socket().endpoints() == seq![(endpoint@, Attach::Connected)]
                && b.socket().sent_log().len() == 0 && b.socket().recv_log().len() == 0
                && b.socket().calls() == seq![SocketCall::Connect { endpoint: endpoint@, outcome: Ok(()) }],
    {
        let mut socket = ZmqSocket::open(self.context, SocketKind::Pull)?;
        socket.connect(endpoint)?;
        proof {
            let o = socket.calls().last()->Connect_outcome;
            assert(o->Ok_0 == ());
            assert(socket.calls() =~= seq![SocketCall::Connect { endpoint: endpoint@, outcome: Ok(()) }]);
            assert(socket.endpoints() =~= seq![(endpoint@, Attach::Connected)]);
        }
        Ok(PullBuilderBounded { socket })
    }

    /// Opens a PULL socket and binds it to `endpoint`.
    pub fn bind(self, endpoint: &str) -> (r: Result<PullBuilderBounded>)
        requires
            has_no_nul(endpoint@),
        ensures
            r matches Ok(b) ==> b.socket().kind_spec() == SocketKind::Pull
                && b.socket().endpoints() == seq![(endpoint@, Attach::Bound)]
                && b.socket().sent_log().len() == 0 && b.socket().recv_log().len() == 0
                && b.socket().calls() == seq![SocketCall::Bind { endpoint: endpoint@, outcome: Ok(()) }],
    {
        let mut socket = ZmqSocket::open(self.context, SocketKind::Pull)?;
        socket.bind(endpoint)?;
        proof {
            let o = socket.calls().last()->Bind_outcome;
            assert(o->Ok_0 == ());
            assert(socket.calls() =~= seq![SocketCall::Bind { endpoint: endpoint@, outcome: Ok(()) }]);
            assert(socket.endpoints() =~= seq![(endpoint@, Attach::Bound)]);
        }
        Ok(PullBuilderBounded { socket })
    }
}

impl PullBuilderBounded {
    pub closed spec fn socket(&self) -> ZmqSocket {
        self.socket
    }

    /// The stream over the socket, with no part received yet.
    pub fn finish(self) -> (p: Pull)
        ensures
            p.socket() == self.socket(),
            p.messages()@ == Seq::<Vec<u8>>::empty(),
            p.taken() == Seq::<MultipartSegment>::empty(),
            p.delivered() == Seq::<Seq<Vec<u8>>>::empty(),
            p.in_order(),
    {
        Pull { socket: self.socket, messages: Multipart::new(), taken: Ghost(Seq::empty()), delivered: Ghost(Seq::empty()) }
    }
}

/// A stream of multipart messages over a PULL socket, with the parts of the
/// message being received, every part taken so far with whether more
/// followed it, and the messages handed out so far.
pub struct Pull {
    socket: ZmqSocket,
    messages: Multipart,
    taken: Ghost<Seq<MultipartSegment>>,
    delivered: Ghost<Seq<Seq<Vec<u8>>>>,
}

impl Pull {
    pub closed spec fn socket(&self) -> ZmqSocket {
        self.socket
    }

    /// The parts received so far of the message not yet complete.
    pub closed spec fn messages(&self) -> Multipart {
        self.messages
    }

    /// Every part taken from ZeroMQ and settled, in order, each with
    /// ZeroMQ's answer to whether more parts followed it.
    pub closed spec fn taken(&self) -> Seq<MultipartSegment> {
        self.taken@
    }

    /// The messages handed out, in order.
    pub closed spec fn delivered(&self) -> Seq<Seq<Vec<u8>>> {
        self.delivered@
    }

    /// The messages handed out and the message in progress are exactly
    /// what the parts taken make, grouped by their more-flags: no part
    /// lost, repeated, reordered or split between two messages.
    pub open spec fn in_order(&self) -> bool {
        receive_all(Seq::empty(), self.taken()) == (self.messages()@, self.delivered())
    }

    /// One step of the stream's poll: receives one part when the socket is
    /// ready, as `recv_step` does on the parts received so far. A part that
    /// is settled is added to the parts taken, and a message completed to the
    /// messages handed out; while no step fails, they stay in order.
    pub fn poll_part(&mut self, read_ready: bool) -> (r: Result<RecvStep>)
        ensures
            recv_outcome(
                old(self).messages()@,
                final(self).messages()@,
                old(self).socket(),
                final(self).socket(),
                read_ready,
                r,
            ),
            match r {
                Ok(RecvStep::Partial) => final(self).taken() == old(self).taken().push(
                    MultipartSegment { msg: last_recv(final(self).socket())->Received_0, has_more: true },
                ) && final(self).delivered() == old(self).delivered(),
                Ok(RecvStep::Complete(m)) => final(self).taken() == old(self).taken().push(
                    MultipartSegment { msg: last_recv(final(self).socket())->Received_0, has_more: false },
                ) && final(self).delivered() == old(self).delivered().push(m@),
                _ => final(self).taken() == old(self).taken() && final(self).delivered() == old(self).delivered(),
            },
            old(self).in_order() && r is Ok ==> final(self).in_order(),
    {
        let ghost old_messages = self.messages@;
        let r = recv_step(&mut self.socket, &mut self.messages, read_ready);
        proof {
            if let Ok(RecvStep::Partial) = r {
                let seg = MultipartSegment { msg: last_recv(self.socket)->Received_0, has_more: true };
                lemma_receive_one(self.taken@, seg);
                self.taken = Ghost(self.taken@.push(seg));
            } else if let Ok(RecvStep::Complete(m)) = &r {
                let seg = MultipartSegment { msg: last_recv(self.socket)->Received_0, has_more: false };
                lemma_receive_one(self.taken@, seg);
                self.taken = Ghost(self.taken@.push(seg));
                self.delivered = Ghost(self.delivered@.push(m@));
            }
        }
        r
    }
}

/// Taking one more segment moves the received state on by one
/// `receive_part`.
proof fn lemma_receive_one(taken: Seq<MultipartSegment>, seg: MultipartSegment)
    ensures
        receive_all(Seq::empty(), taken.push(seg)) == ({
            let before = receive_all(Seq::empty(), taken);
            let step = receive_part(before.0, seg.msg, seg.has_more);
            (step.0, match step.1 {
                Some(m) => before.1.push(m),
                None => before.1,
            })
        }),
{
    let before = receive_all(Seq::<Vec<u8>>::empty(), taken);
    lemma_receive_concat(Seq::empty(), taken, seq![seg]);
    assert(taken + seq![seg] =~= taken.push(seg));
    assert(seq![seg].drop_first() =~= Seq::<MultipartSegment>::empty());
    let step = receive_part(before.0, seg.msg, seg.has_more);
    assert(receive_all(step.0, Seq::<MultipartSegment>::empty()) == (step.0, Seq::<Seq<Vec<u8>>>::empty()));
    match step.1 {
        Some(m) => {
            assert(seq![m] + Seq::<Seq<Vec<u8>>>::empty() =~= seq![m]);
            assert(before.1 + seq![m] =~= before.1.push(m));
        },
        None => {
            assert(before.1 + Seq::<Seq<Vec<u8>>>::empty() =~= before.1);
        },
    }
}

/// A PULL stream that took, in order, exactly the segments of a stream of
/// messages each with at least one part, and stayed in order, has handed
/// out exactly those messages, in order, with no part left over.
pub proof fn lemma_pull_delivers_stream(p: Pull, msgs: Seq<Seq<Vec<u8>>>)
    requires
        p.in_order(),
        p.taken() == segments_of_all(msgs),
        forall|i: int| 0 <= i < msgs.len() ==> #[trigger] msgs[i].len() > 0,
    ensures
        p.delivered() == msgs,
        p.messages()@.len() == 0,
{
    lemma_receive_stream(msgs);
}

impl AsZmqSocket for Pull {
    fn get_socket(&self) -> (s: &zmq::Socket)
        ensures
            *s == self.socket().raw_spec(),
    {
        self.socket.as_raw()
    }
}

} // verus!

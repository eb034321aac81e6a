//! A PUSH socket that sends one queued segment per poll and asks to be
//! polled again while more are queued.
use vstd::prelude::*;

use std::collections::VecDeque;

use crate::error::{Result, TmqError};
use crate::framing::{lemma_segments_of_all_push, push_segments, segments_of, segments_of_all, MultipartSegment};
use crate::message::Multipart;
use crate::poll::{flags_for, last_send, send_poll_of, sent_one, SendPoll};
use crate::socket::{has_no_nul, AsZmqSocket, Attach, SocketCall, SocketKind, ZmqSocket};

verus! {

/// Starts building a PUSH socket in `context`.
pub fn push(context: &zmq::Context) -> (b: PushBuilder<'_>)
    ensures
        b.context() == context,
{
    PushBuilder { context }
}

/// A PUSH socket that is yet to be bound or connected.
pub struct PushBuilder<'a> {
    context: &'a zmq::Context,
}

/// A PUSH socket that is bound or connected.
pub struct PushBuilderBounded {
    socket: ZmqSocket,
}

impl<'a> PushBuilder<'a> {
    pub closed spec fn context(&self) -> &'a zmq::Context {
        self.context
    }

    /// Opens a PUSH socket and binds it to `endpoint`.
    pub fn bind(self, endpoint: &str) -> (r: Result<PushBuilderBounded>)
        requires
            has_no_nul(endpoint@),
        ensures
            r matches Ok(b) ==> b.socket().kind_spec() == SocketKind::Push
                && b.socket().endpoints() == seq![(endpoint@, Attach::Bound)]
                && b.socket().sent_log().len() == 0 && b.socket().recv_log().len() == 0
                && b.socket().calls() == seq![SocketCall::Bind { endpoint: endpoint@, outcome: Ok(()) }],
    {
        let mut socket = ZmqSocket::open(self.context, SocketKind::Push)?;
        socket.bind(endpoint)?;
        proof {
            let o = socket.calls().last()->Bind_outcome;
            assert(o->Ok_0 == ());
            assert(socket.calls() =~= seq![SocketCall::Bind { endpoint: endpoint@, outcome: Ok(()) }]);
            assert(socket.endpoints() =~= seq![(endpoint@, Attach::Bound)]);
        }
        Ok(PushBuilderBounded { socket })
    }

    /// Opens a PUSH socket and connects it to `endpoint`.
    pub fn connect(self, endpoint: &str) -> (r: Result<PushBuilderBounded>)
        requires
            has_no_nul(endpoint@),
        ensures
            r matches Ok(b) ==> b.socket().kind_spec() == SocketKind::Push
                && b.socket().endpoints() == seq![(endpoint@, Attach::Connected)]
                && b.socket().sent_log().len() == 0 && b.socket().recv_log().len() == 0
                && b.socket().calls() == seq![SocketCall::Connect { endpoint: endpoint@, outcome: Ok(()) }],
    {
        let mut socket = ZmqSocket::open(self.context, SocketKind::Push)?;
        socket.connect(endpoint)?;
        proof {
            let o = socket.calls().last()->Connect_outcome;
            assert(o->Ok_0 == ());
            assert(socket.calls() =~= seq![SocketCall::Connect { endpoint: endpoint@, outcome: Ok(()) }]);
            assert(socket.endpoints() =~= seq![(endpoint@, Attach::Connected)]);
        }
        Ok(PushBuilderBounded { socket })
    }
}

impl PushBuilderBounded {
    pub closed spec fn socket(&self) -> ZmqSocket {
        self.socket
    }

    /// The sink over the socket, with nothing queued.
    pub fn finish(self) -> (p: Push)
        ensures
            p.socket() == self.socket(),
            p.current_spec() is None,
            p.buffer_spec() == Seq::<MultipartSegment>::empty(),
            p.started() == Seq::<Seq<Vec<u8>>>::empty(),
            p.sent_segments() == Seq::<MultipartSegment>::empty(),
            p.in_order(),
            p.well_queued(),
    {
        let p = Push {
            socket: self.socket,
            buffer: VecDeque::new(),
            current: None,
            started: Ghost(Seq::empty()),
            sent: Ghost(Seq::empty()),
        };
        assert(p.sent_segments() + p.pending() =~= segments_of_all(p.started()));
        p
    }
}

/// What a poll to complete the sends came to.
#[derive(Debug, PartialEq, Eq, Structural)]
pub enum PushPoll {
    /// Nothing is left to send.
    Complete,
    /// The socket was not ready for writing.
    NotReady,
    /// ZeroMQ would have blocked: write readiness must be cleared.
    WouldBlock,
    /// One segment was sent and the next is current: the task must be
    /// woken to poll again.
    SentNotify,
}

/// What the sink holds after the send call for `seg`, taken out as current
/// with `buffer` queued behind it, was answered `sent`: once it is sent, the
/// next queued segment becomes current and the task must poll again, or,
/// with none queued, sending is complete; when the socket is not ready or
/// would block, `seg` stays current; on an error `seg` is dropped and the
/// error is the answer.
pub open spec fn after_send(seg: MultipartSegment, buffer: Seq<MultipartSegment>, sent: Result<SendPoll>) -> (
    Option<MultipartSegment>,
    Seq<MultipartSegment>,
    Result<PushPoll>,
) {
    match sent {
        Ok(SendPoll::Sent) => if buffer.len() > 0 {
            (Some(buffer[0]), buffer.drop_first(), Ok(PushPoll::SentNotify))
        } else {
            (None, buffer, Ok(PushPoll::Complete))
        },
        Ok(SendPoll::WouldBlock) => (Some(seg), buffer, Ok(PushPoll::WouldBlock)),
        Ok(SendPoll::NotReady) => (Some(seg), buffer, Ok(PushPoll::NotReady)),
        Err(e) => (None, buffer, Err(e)),
    }
}

/// A sink of multipart messages over a PUSH socket: the segment being sent
/// and the segments queued after it, the messages started, and the segments
/// that ZeroMQ accepted.
pub struct Push {
    socket: ZmqSocket,
    buffer: VecDeque<MultipartSegment>,
    current: Option<MultipartSegment>,
    started: Ghost<Seq<Seq<Vec<u8>>>>,
    sent: Ghost<Seq<MultipartSegment>>,
}

impl Push {
    pub closed spec fn socket(&self) -> ZmqSocket {
        self.socket
    }

    /// The segment being sent, if any.
    pub closed spec fn current_spec(&self) -> Option<MultipartSegment> {
        self.current
    }

    /// The segments queued behind the current one.
    pub closed spec fn buffer_spec(&self) -> Seq<MultipartSegment> {
        self.buffer@
    }

    /// Every segment still to be sent, in order: the current one first.
    pub open spec fn pending(&self) -> Seq<MultipartSegment> {
        match self.current_spec() {
            Some(s) => seq![s] + self.buffer_spec(),
            None => self.buffer_spec(),
        }
    }

    /// The messages started, in order.
    pub closed spec fn started(&self) -> Seq<Seq<Vec<u8>>> {
        self.started@
    }

    /// The segments that ZeroMQ accepted, in order.
    pub closed spec fn sent_segments(&self) -> Seq<MultipartSegment> {
        self.sent@
    }

    /// The segments accepted, followed by those pending, are exactly the
    /// segments of the messages started, in order: none lost, repeated or
    /// reordered.
    pub open spec fn in_order(&self) -> bool {
        self.sent_segments() + self.pending() == segments_of_all(self.started())
    }

    /// No segment waits behind the current one unless one is current.
    pub open spec fn well_queued(&self) -> bool {
        self.current_spec() is None ==> self.buffer_spec().len() == 0
    }

    /// Whether a segment is being sent.
    pub fn has_current(&self) -> (b: bool)
        ensures
            b == self.current_spec() is Some,
    {
        self.current.is_some()
    }

    /// Queues the segments of `parts` after everything pending; when no
    /// segment is current, the first queued one becomes current.
    pub fn start_send(&mut self, parts: Multipart)
        ensures
            final(self).socket() == old(self).socket(),
            final(self).sent_segments() == old(self).sent_segments(),
            final(self).started() == old(self).started().push(parts@),
            old(self).in_order() ==> final(self).in_order(),
            final(self).well_queued(),
            final(self).pending() == old(self).pending() + segments_of(parts@),
            ({
                let all = old(self).buffer_spec() + segments_of(parts@);
                if old(self).current_spec() is Some {
                    final(self).current_spec() == old(self).current_spec() && final(self).buffer_spec() == all
                } else if all.len() > 0 {
                    final(self).current_spec() == Some(all[0]) && final(self).buffer_spec() == all.drop_first()
                } else {
                    final(self).current_spec() is None && final(self).buffer_spec() == all
                }
            }),
    {
        let ghost segs = segments_of(parts@);
        push_segments(&mut self.buffer, parts);
        if self.current.is_none() {
            self.current = self.buffer.pop_front();
            proof {
                if old(self).buffer@.len() + segs.len() > 0 {
                    assert(self.buffer@ =~= (old(self).buffer@ + segs).drop_first());
                }
            }
        }
        assert(self.pending() =~= old(self).pending() + segs);
        proof {
            lemma_segments_of_all_push(self.started@, parts@);
            self.started = Ghost(self.started@.push(parts@));
            assert(self.sent@ + (old(self).pending() + segs) =~= (self.sent@ + old(self).pending()) + segs);
        }
    }

    /// Settles the answer `sent` to the send call for `seg`, which was taken
    /// out as current, as `after_send` says.
    fn settle_send(&mut self, seg: MultipartSegment, sent: Result<SendPoll>) -> (r: Result<PushPoll>)
        requires
            old(self).current_spec() is None,
        ensures
            final(self).socket() == old(self).socket(),
            final(self).started() == old(self).started(),
            final(self).sent_segments() == old(self).sent_segments(),
            (final(self).current_spec(), final(self).buffer_spec(), r) == after_send(seg, old(self).buffer_spec(), sent),
            sent == Ok::<SendPoll, TmqError>(SendPoll::WouldBlock)
                ==> r == Ok::<PushPoll, TmqError>(PushPoll::WouldBlock) && final(self).current_spec() == Some(seg)
                    && final(self).buffer_spec() == old(self).buffer_spec(),
    {
        match sent {
            Err(e) => Err(e),
            Ok(SendPoll::NotReady) => {
                self.current = Some(seg);
                Ok(PushPoll::NotReady)
            },
            Ok(SendPoll::WouldBlock) => {
                self.current = Some(seg);
                Ok(PushPoll::WouldBlock)
            },
            Ok(SendPoll::Sent) => {
                match self.buffer.pop_front() {
                    Some(next) => {
                        self.current = Some(next);
                        Ok(PushPoll::SentNotify)
                    },
                    None => Ok(PushPoll::Complete),
                }
            },
        }
    }

    /// Sends the current segment when the socket is ready: one send call
    /// with its bytes and flags, whose answer `after_send` settles. Nothing
    /// is sent when no segment is current or the socket is not ready. While
    /// no poll fails, the segments accepted and those pending stay in order.
    pub fn poll_complete(&mut self, write_ready: bool) -> (r: Result<PushPoll>)
        ensures
            old(self).current_spec() is None ==> r == Ok::<PushPoll, crate::error::TmqError>(PushPoll::Complete)
                && *final(self) == *old(self),
            old(self).current_spec() is Some && !write_ready
                ==> r == Ok::<PushPoll, crate::error::TmqError>(PushPoll::NotReady) && *final(self) == *old(self),
            match old(self).current_spec() {
                Some(c) => write_ready ==> {
                    &&& sent_one(old(self).socket(), final(self).socket(), c.msg@, flags_for(c.has_more))
                    &&& (final(self).current_spec(), final(self).buffer_spec(), r)
                        == after_send(c, old(self).buffer_spec(), send_poll_of(last_send(final(self).socket())))
                    &&& final(self).started() == old(self).started()
                    &&& final(self).sent_segments() == (if last_send(final(self).socket()) is Sent {
                        old(self).sent_segments().push(c)
                    } else {
                        old(self).sent_segments()
                    })
                },
                None => true,
            },
            old(self).in_order() && r is Ok ==> final(self).in_order(),
            old(self).well_queued() && r is Ok ==> final(self).well_queued(),
            old(self).well_queued() && r == Ok::<PushPoll, crate::error::TmqError>(PushPoll::Complete)
                ==> final(self).pending().len() == 0,
            r == Ok::<PushPoll, TmqError>(PushPoll::NotReady) ==> !write_ready && *final(self) == *old(self),
            old(self).current_spec() is Some && write_ready && last_send(final(self).socket()) is WouldBlock
                ==> r == Ok::<PushPoll, TmqError>(PushPoll::WouldBlock)
                    && final(self).current_spec() == old(self).current_spec()
                    && final(self).buffer_spec() == old(self).buffer_spec()
                    && final(self).sent_segments() == old(self).sent_segments(),
    {
        match self.current.take() {
            None => Ok(PushPoll::Complete),
            Some(seg) => {
                if !write_ready {
                    self.current = Some(seg);
                    return Ok(PushPoll::NotReady);
                }
                let sent = self.socket.send_message(seg.msg.as_slice(), seg.has_more, write_ready);
                let ghost c = seg;
                let ghost pend = old(self).pending();
                proof {
                    if last_send(self.socket) is Sent {
                        self.sent = Ghost(self.sent@.push(c));
                    }
                }
                let r = self.settle_send(seg, sent);
                proof {
                    if r is Ok && old(self).in_order() {
                        if last_send(self.socket) is Sent {
                            assert(pend =~= seq![c] + old(self).buffer@);
                            assert(self.sent@ + self.pending() =~= old(self).sent@ + pend);
                        } else {
                            assert(self.pending() =~= pend);
                        }
                    }
                }
                r
            },
        }
    }
}

/// A send call for the current segment that would block is answered
/// `WouldBlock`, so that write readiness is cleared, and the segment stays
/// current with the queue behind it untouched; the sink answers `NotReady`
/// only when no send call was made, and drops a segment only on an error.
pub proof fn law_push_would_block_keeps_segment(
    seg: MultipartSegment,
    buffer: Seq<MultipartSegment>,
    sent: Result<SendPoll>,
)
    ensures
        after_send(seg, buffer, Ok(SendPoll::WouldBlock)) == (Some(seg), buffer, Ok::<PushPoll, TmqError>(PushPoll::WouldBlock)),
        after_send(seg, buffer, sent).2 == Ok::<PushPoll, TmqError>(PushPoll::NotReady)
            <==> sent == Ok::<SendPoll, TmqError>(SendPoll::NotReady),
        after_send(seg, buffer, sent).2 == Ok::<PushPoll, TmqError>(PushPoll::WouldBlock)
            <==> sent == Ok::<SendPoll, TmqError>(SendPoll::WouldBlock),
        after_send(seg, buffer, sent).0 is None ==> sent is Err || buffer.len() == 0,
{
}

/// A sink that stayed in order, and answered `Complete` with nothing
/// pending, has had every segment of every message started accepted by
/// ZeroMQ, in order.
pub proof fn lemma_push_sent_all(p: Push)
    requires
        p.in_order(),
        p.well_queued(),
        p.current_spec() is None,
    ensures
        p.sent_segments() == segments_of_all(p.started()),
{
    assert(p.sent_segments() + p.pending() =~= p.sent_segments());
}

impl AsZmqSocket for Push {
    fn get_socket(&self) -> (s: &zmq::Socket)
        ensures
            *s == self.socket().raw_spec(),
    {
        self.socket.as_raw()
    }
}

} // verus!

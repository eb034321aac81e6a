//! REQ and REP sockets, which send and receive in turn: a sender becomes a
//! receiver once its request is sent, and a receiver becomes a sender once a
//! message is received.
use vstd::prelude::*;

use std::collections::VecDeque;

use vstd::std_specs::convert::FromSpecImpl;

use crate::error::Result;
use crate::framing::{push_segments, segments_of, MultipartSegment};
use crate::message::Multipart;
use crate::poll::{flush_outcome, flush_segments, recv_outcome, recv_step, FlushProgress, RecvStep, ZmqPoller};
use crate::socket::{AsZmqSocket, SocketCall, SocketKind, ZmqSocket};
use crate::socket_builder::SocketBuilder;

verus! {

/// Creates a builder for a REQ socket.
pub fn request(context: &zmq::Context) -> (b: SocketBuilder<'_, RequestBuilderBound>)
    ensures
        b.context() == context,
        b.socket_type() == SocketKind::Req,
{
    SocketBuilder::new(context, SocketKind::Req)
}

/// A REQ socket that is bound or connected.
pub struct RequestBuilderBound {
    pub socket: ZmqSocket,
}

impl RequestBuilderBound {
    pub open spec fn socket(&self) -> ZmqSocket {
        self.socket
    }

    /// The REQ socket over the bound or connected one, ready to send;
    /// fails when ZeroMQ does not give the socket's descriptor.
    pub fn finish(self) -> (r: Result<RequestSender>)
        ensures
            r matches Ok(s) ==> s.poller().socket().made_call(
                &self.socket(),
                SocketCall::Fd { descriptor: Ok(s.poller().fd_spec()) },
            ),
    {
        Ok(RequestSender { poller: ZmqPoller::from_zmq_socket(self.socket)? })
    }
}

impl std::convert::From<ZmqSocket> for RequestBuilderBound {
    fn from(socket: ZmqSocket) -> (b: Self) {
        RequestBuilderBound { socket }
    }
}

impl FromSpecImpl<ZmqSocket> for RequestBuilderBound {
    open spec fn obeys_from_spec() -> bool {
        true
    }

    /// The bound socket holding `socket`.
    open spec fn from_spec(socket: ZmqSocket) -> Self {
        RequestBuilderBound { socket }
    }
}

/// Creates a builder for a REP socket.
pub fn reply(context: &zmq::Context) -> (b: SocketBuilder<'_, ReplyBuilderBound>)
    ensures
        b.context() == context,
        b.socket_type() == SocketKind::Rep,
{
    SocketBuilder::new(context, SocketKind::Rep)
}

/// A REP socket that is bound or connected.
pub struct ReplyBuilderBound {
    pub socket: ZmqSocket,
}

impl ReplyBuilderBound {
    pub open spec fn socket(&self) -> ZmqSocket {
        self.socket
    }

    /// The REP socket over the bound or connected one, ready to receive;
    /// fails when ZeroMQ does not give the socket's descriptor.
    pub fn finish(self) -> (r: Result<RequestReceiver>)
        ensures
            r matches Ok(s) ==> s.poller().socket().made_call(
                &self.socket(),
                SocketCall::Fd { descriptor: Ok(s.poller().fd_spec()) },
            ),
    {
        Ok(RequestReceiver { poller: ZmqPoller::from_zmq_socket(self.socket)? })
    }
}

impl std::convert::From<ZmqSocket> for ReplyBuilderBound {
    fn from(socket: ZmqSocket) -> (b: Self) {
        ReplyBuilderBound { socket }
    }
}

impl FromSpecImpl<ZmqSocket> for ReplyBuilderBound {
    open spec fn obeys_from_spec() -> bool {
        true
    }

    /// The bound socket holding `socket`.
    open spec fn from_spec(socket: ZmqSocket) -> Self {
        ReplyBuilderBound { socket }
    }
}

/// A socket whose turn it is to send.
pub struct RequestSender {
    poller: ZmqPoller,
}

impl RequestSender {
    pub closed spec fn poller(&self) -> ZmqPoller {
        self.poller
    }

    /// Starts sending `msg`: its segments are queued, to be flushed.
    pub fn send(self, msg: Multipart) -> (s: SendingRequest)
        ensures
            s.poller() == self.poller(),
            s.queued() == segments_of(msg@),
            !s.failed(),
    {
        let mut queue = VecDeque::new();
        push_segments(&mut queue, msg);
        assert(queue@ =~= segments_of(msg@));
        SendingRequest { poller: self.poller, queue, failed: false }
    }
}

impl AsZmqSocket for RequestSender {
    fn get_socket(&self) -> (s: &zmq::Socket)
        ensures
            *s == self.poller().socket().raw_spec(),
    {
        self.poller.get_socket().as_raw()
    }
}

/// A message being sent; once all of it is sent, the socket's turn is to
/// receive. A send that failed ends it: no turn to receive follows.
pub struct SendingRequest {
    poller: ZmqPoller,
    queue: VecDeque<MultipartSegment>,
    failed: bool,
}

impl SendingRequest {
    pub closed spec fn poller(&self) -> ZmqPoller {
        self.poller
    }

    /// The segments of the message not yet sent.
    pub closed spec fn queued(&self) -> Seq<MultipartSegment> {
        self.queue@
    }

    /// Whether a send call for the message failed.
    pub closed spec fn failed(&self) -> bool {
        self.failed
    }

    /// Sends the remaining segments while the socket takes them; a failure
    /// is recorded.
    pub fn poll_flush(&mut self, write_ready: bool) -> (r: Result<FlushProgress>)
        ensures
            final(self).poller().fd_spec() == old(self).poller().fd_spec(),
            flush_outcome(
                old(self).queued(),
                final(self).queued(),
                old(self).poller().socket(),
                final(self).poller().socket(),
                write_ready,
                r,
            ),
            final(self).failed() == (old(self).failed() || r is Err),
    {
        let r = self.poller.flush(&mut self.queue, write_ready);
        if r.is_err() {
            self.failed = true;
        }
        r
    }

    /// Whether the whole message was sent, with no call failing.
    pub fn is_sent(&self) -> (b: bool)
        ensures
            b == (self.queued().len() == 0 && !self.failed()),
    {
        self.queue.len() == 0 && !self.failed
    }

    /// The socket, whose turn is now to receive.
    pub fn into_receiver(self) -> (r: RequestReceiver)
        requires
            self.queued().len() == 0,
            !self.failed(),
        ensures
            r.poller() == self.poller(),
    {
        RequestReceiver { poller: self.poller }
    }

    /// The file descriptor to watch for the socket's events.
    pub fn fd(&self) -> (f: i32)
        ensures
            f == self.poller().fd_spec(),
    {
        self.poller.fd()
    }
}

/// A socket whose turn it is to receive.
pub struct RequestReceiver {
    poller: ZmqPoller,
}

impl RequestReceiver {
    pub closed spec fn poller(&self) -> ZmqPoller {
        self.poller
    }

    /// Starts receiving a message.
    pub fn recv(self) -> (r: ReceivingReply)
        ensures
            r.poller() == self.poller(),
            r.partial() == Seq::<Vec<u8>>::empty(),
            !r.is_done_spec(),
    {
        ReceivingReply { poller: self.poller, partial: Multipart::new(), done: false }
    }
}

impl AsZmqSocket for RequestReceiver {
    fn get_socket(&self) -> (s: &zmq::Socket)
        ensures
            *s == self.poller().socket().raw_spec(),
    {
        self.poller.get_socket().as_raw()
    }
}

/// A message being received; once one is complete, the socket's turn is to
/// send.
pub struct ReceivingReply {
    poller: ZmqPoller,
    partial: Multipart,
    done: bool,
}

impl ReceivingReply {
    pub closed spec fn poller(&self) -> ZmqPoller {
        self.poller
    }

    /// The parts received so far of the message.
    pub closed spec fn partial(&self) -> Seq<Vec<u8>> {
        self.partial@
    }

    /// Whether a whole message was received.
    pub closed spec fn is_done_spec(&self) -> bool {
        self.done
    }

    /// One step of receiving: one part when the socket is ready. The step
    /// that completes the message hands it out and ends the receiving.
    pub fn poll_recv(&mut self, read_ready: bool) -> (r: Result<RecvStep>)
        requires
            !old(self).is_done_spec(),
        ensures
            final(self).poller().fd_spec() == old(self).poller().fd_spec(),
            recv_outcome(
                old(self).partial(),
                final(self).partial(),
                old(self).poller().socket(),
                final(self).poller().socket(),
                read_ready,
                r,
            ),
            final(self).is_done_spec() == (r matches Ok(RecvStep::Complete(_))),
    {
        let r = self.poller.recv(&mut self.partial, read_ready);
        if let Ok(RecvStep::Complete(_)) = &r {
            self.done = true;
        }
        r
    }

    /// Whether a whole message was received.
    pub fn is_done(&self) -> (b: bool)
        ensures
            b == self.is_done_spec(),
    {
        self.done
    }

    /// The socket, whose turn is now to send.
    pub fn into_sender(self) -> (s: RequestSender)
        requires
            self.is_done_spec(),
        ensures
            s.poller() == self.poller(),
    {
        RequestSender { poller: self.poller }
    }

    /// The file descriptor to watch for the socket's events.
    pub fn fd(&self) -> (f: i32)
        ensures
            f == self.poller().fd_spec(),
    {
        self.poller.fd()
    }
}

} // verus!

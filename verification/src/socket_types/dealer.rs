use vstd::prelude::*;

use vstd::std_specs::convert::FromSpecImpl;

use crate::comm::SenderReceiver;
use crate::error::Result;
use crate::framing::segments_of;
use crate::message::Multipart;
use crate::poll::{flush_outcome, recv_outcome, FlushProgress, RecvStep, ZmqPoller};
use crate::socket::{AsZmqSocket, SocketCall, SocketKind, ZmqSocket};
use crate::socket_builder::SocketBuilder;

verus! {

/// Creates a builder for a DEALER socket.
pub fn dealer(context: &zmq::Context) -> (b: SocketBuilder<'_, DealerBuilderBound>)
    ensures
        b.context() == context,
        b.socket_type() == SocketKind::Dealer,
{
    SocketBuilder::new(context, SocketKind::Dealer)
}

/// A DEALER socket that is bound or connected.
pub struct DealerBuilderBound {
    pub socket: ZmqSocket,
}

impl DealerBuilderBound {
    pub open spec fn socket(&self) -> ZmqSocket {
        self.socket
    }
}

impl std::convert::From<ZmqSocket> for DealerBuilderBound {
    fn from(socket: ZmqSocket) -> (b: Self) {
        DealerBuilderBound { socket }
    }
}

impl FromSpecImpl<ZmqSocket> for DealerBuilderBound {
    open spec fn obeys_from_spec() -> bool {
        true
    }

    /// The bound socket holding `socket`.
    open spec fn from_spec(socket: ZmqSocket) -> Self {
        DealerBuilderBound { socket }
    }
}

impl DealerBuilderBound {
    /// The DEALER socket over the bound or connected one, with nothing queued
    /// or received; fails when ZeroMQ does not give the socket's descriptor.
    pub fn finish(self) -> (r: Result<Dealer>)
        ensures
            r matches Ok(s) ==> s.inner().poller().socket().made_call(
                &self.socket(),
                SocketCall::Fd { descriptor: Ok(s.inner().poller().fd_spec()) },
            )
                && s.inner().queued().len() == 0
                && s.inner().partial().len() == 0,
    {
        Ok(Dealer { inner: SenderReceiver::new(ZmqPoller::from_zmq_socket(self.socket)?) })
    }
}

/// An asynchronous DEALER socket: a sink and a stream of multipart messages.
pub struct Dealer {
    inner: SenderReceiver,
}

impl Dealer {
    pub closed spec fn inner(&self) -> SenderReceiver {
        self.inner
    }
}

impl AsZmqSocket for Dealer {
    fn get_socket(&self) -> (s: &zmq::Socket)
        ensures
            *s == self.inner().poller().socket().raw_spec(),
    {
        self.inner.get_poller().get_socket().as_raw()
    }
}

impl Dealer {
    /// Queues the segments of `parts` after those already queued.
    pub fn start_send(&mut self, parts: Multipart)
        ensures
            final(self).inner().poller() == old(self).inner().poller(),
            final(self).inner().queued() == old(self).inner().queued() + segments_of(parts@),
            final(self).inner().partial() == old(self).inner().partial(),
    {
        self.inner.start_send(parts);
    }

    /// Whether segments wait to be sent.
    pub fn has_queued(&self) -> (b: bool)
        ensures
            b == (self.inner().queued().len() > 0),
    {
        self.inner.has_queued()
    }

    /// Sends the queued segments while the socket takes them.
    pub fn poll_flush(&mut self, write_ready: bool) -> (r: Result<FlushProgress>)
        ensures
            final(self).inner().poller().fd_spec() == old(self).inner().poller().fd_spec(),
            final(self).inner().partial() == old(self).inner().partial(),
            flush_outcome(
                old(self).inner().queued(),
                final(self).inner().queued(),
                old(self).inner().poller().socket(),
                final(self).inner().poller().socket(),
                write_ready,
                r,
            ),
    {
        self.inner.poll_flush(write_ready)
    }

    /// One step of receiving: one part when the socket is ready.
    pub fn poll_recv(&mut self, read_ready: bool) -> (r: Result<RecvStep>)
        ensures
            final(self).inner().poller().fd_spec() == old(self).inner().poller().fd_spec(),
            final(self).inner().queued() == old(self).inner().queued(),
            recv_outcome(
                old(self).inner().partial(),
                final(self).inner().partial(),
                old(self).inner().poller().socket(),
                final(self).inner().poller().socket(),
                read_ready,
                r,
            ),
    {
        self.inner.poll_recv(read_ready)
    }

    /// The file descriptor to watch for the socket's events.
    pub fn fd(&self) -> (f: i32)
        ensures
            f == self.inner().poller().fd_spec(),
    {
        self.inner.get_poller().fd()
    }
}

} // verus!

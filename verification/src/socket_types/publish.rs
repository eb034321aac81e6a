use vstd::prelude::*;

use vstd::std_specs::convert::FromSpecImpl;

use crate::comm::Sender;
use crate::error::Result;
use crate::framing::segments_of;
use crate::message::Multipart;
use crate::poll::{flush_outcome, FlushProgress, ZmqPoller};
use crate::socket::{AsZmqSocket, SocketCall, SocketKind, ZmqSocket};
use crate::socket_builder::SocketBuilder;

verus! {

/// Creates a builder for a PUB socket.
pub fn publish(context: &zmq::Context) -> (b: SocketBuilder<'_, PublishBuilderBound>)
    ensures
        b.context() == context,
        b.socket_type() == SocketKind::Pub,
{
    SocketBuilder::new(context, SocketKind::Pub)
}

/// A PUB socket that is bound or connected.
pub struct PublishBuilderBound {
    pub socket: ZmqSocket,
}

impl PublishBuilderBound {
    pub open spec fn socket(&self) -> ZmqSocket {
        self.socket
    }
}

impl std::convert::From<ZmqSocket> for PublishBuilderBound {
    fn from(socket: ZmqSocket) -> (b: Self) {
        PublishBuilderBound { socket }
    }
}

impl FromSpecImpl<ZmqSocket> for PublishBuilderBound {
    open spec fn obeys_from_spec() -> bool {
        true
    }

    /// The bound socket holding `socket`.
    open spec fn from_spec(socket: ZmqSocket) -> Self {
        PublishBuilderBound { socket }
    }
}

impl PublishBuilderBound {
    /// The PUB socket over the bound or connected one, with nothing queued; fails when ZeroMQ does not give the socket's descriptor.
    pub fn finish(self) -> (r: Result<Publish>)
        ensures
            r matches Ok(s) ==> s.inner().poller().socket().made_call(
                &self.socket(),
                SocketCall::Fd { descriptor: Ok(s.inner().poller().fd_spec()) },
            )
                && s.inner().queued().len() == 0,
    {
        Ok(Publish { inner: Sender::new(ZmqPoller::from_zmq_socket(self.socket)?) })
    }
}

/// An asynchronous PUB socket: a sink of multipart messages.
pub struct Publish {
    inner: Sender,
}

impl Publish {
    pub closed spec fn inner(&self) -> Sender {
        self.inner
    }
}

impl AsZmqSocket for Publish {
    fn get_socket(&self) -> (s: &zmq::Socket)
        ensures
            *s == self.inner().poller().socket().raw_spec(),
    {
        self.inner.get_poller().get_socket().as_raw()
    }
}

impl Publish {
    /// Queues the segments of `parts` after those already queued.
    pub fn start_send(&mut self, parts: Multipart)
        ensures
            final(self).inner().poller() == old(self).inner().poller(),
            final(self).inner().queued() == old(self).inner().queued() + segments_of(parts@),
    {
        self.inner.start_send(parts);
    }

    /// Whether segments wait to be sent.
    pub fn has_queued(&self) -> (b: bool)
        ensures
            b == (self.inner().queued().len() > 0),
    {
        self.inner.has_queued()
    }

    /// Sends the queued segments while the socket takes them.
    pub fn poll_flush(&mut self, write_ready: bool) -> (r: Result<FlushProgress>)
        ensures
            final(self).inner().poller().fd_spec() == old(self).inner().poller().fd_spec(),
            flush_outcome(
                old(self).inner().queued(),
                final(self).inner().queued(),
                old(self).inner().poller().socket(),
                final(self).inner().poller().socket(),
                write_ready,
                r,
            ),
    {
        self.inner.poll_flush(write_ready)
    }

    /// The file descriptor to watch for the socket's events.
    pub fn fd(&self) -> (f: i32)
        ensures
            f == self.inner().poller().fd_spec(),
    {
        self.inner.get_poller().fd()
    }
}

} // verus!

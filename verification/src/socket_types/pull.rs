use vstd::prelude::*;

use vstd::std_specs::convert::FromSpecImpl;

use crate::comm::Receiver;
use crate::error::Result;
use crate::poll::{recv_outcome, RecvStep, ZmqPoller};
use crate::socket::{AsZmqSocket, SocketCall, SocketKind, ZmqSocket};
use crate::socket_builder::SocketBuilder;

verus! {

/// Creates a builder for a PULL socket.
pub fn pull(context: &zmq::Context) -> (b: SocketBuilder<'_, PullBuilderBound>)
    ensures
        b.context() == context,
        b.socket_type() == SocketKind::Pull,
{
    SocketBuilder::new(context, SocketKind::Pull)
}

/// A PULL socket that is bound or connected.
pub struct PullBuilderBound {
    pub socket: ZmqSocket,
}

impl PullBuilderBound {
    pub open spec fn socket(&self) -> ZmqSocket {
        self.socket
    }
}

impl std::convert::From<ZmqSocket> for PullBuilderBound {
    fn from(socket: ZmqSocket) -> (b: Self) {
        PullBuilderBound { socket }
    }
}

impl FromSpecImpl<ZmqSocket> for PullBuilderBound {
    open spec fn obeys_from_spec() -> bool {
        true
    }

    /// The bound socket holding `socket`.
    open spec fn from_spec(socket: ZmqSocket) -> Self {
        PullBuilderBound { socket }
    }
}

impl PullBuilderBound {
    /// The PULL socket over the bound or connected one, with nothing
    /// received; fails when ZeroMQ does not give the socket's descriptor.
    pub fn finish(self) -> (r: Result<Pull>)
        ensures
            r matches Ok(s) ==> s.inner().poller().socket().made_call(
                &self.socket(),
                SocketCall::Fd { descriptor: Ok(s.inner().poller().fd_spec()) },
            )
                && s.inner().partial().len() == 0,
    {
        Ok(Pull { inner: Receiver::new(ZmqPoller::from_zmq_socket(self.socket)?) })
    }
}

/// An asynchronous PULL socket: a stream of multipart messages.
pub struct Pull {
    inner: Receiver,
}

impl Pull {
    pub closed spec fn inner(&self) -> Receiver {
        self.inner
    }
}

impl AsZmqSocket for Pull {
    fn get_socket(&self) -> (s: &zmq::Socket)
        ensures
            *s == self.inner().poller().socket().raw_spec(),
    {
        self.inner.get_poller().get_socket().as_raw()
    }
}

impl Pull {
    /// One step of receiving: one part when the socket is ready.
    pub fn poll_recv(&mut self, read_ready: bool) -> (r: Result<RecvStep>)
        ensures
            final(self).inner().poller().fd_spec() == old(self).inner().poller().fd_spec(),
            recv_outcome(
                old(self).inner().partial(),
                final(self).inner().partial(),
                old(self).inner().poller().socket(),
                final(self).inner().poller().socket(),
                read_ready,
                r,
            ),
    {
        self.inner.poll_recv(read_ready)
    }

    /// The file descriptor to watch for the socket's events.
    pub fn fd(&self) -> (f: i32)
        ensures
            f == self.inner().poller().fd_spec(),
    {
        self.inner.get_poller().fd()
    }
}

} // verus!

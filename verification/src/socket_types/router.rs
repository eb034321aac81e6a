use vstd::prelude::*;

use vstd::std_specs::convert::FromSpecImpl;

use crate::comm::SenderReceiver;
use crate::error::{from_zmq, Result, TmqError};
use crate::framing::segments_of;
use crate::message::Multipart;
use crate::poll::{flush_outcome, recv_outcome, FlushProgress, RecvStep, ZmqPoller};
use crate::socket::{AsZmqSocket, SocketCall, SocketKind, ZmqSocket};
use crate::socket_builder::SocketBuilder;
use crate::zmq_api;

verus! {

/// Creates a builder for a ROUTER socket.
pub fn router(context: &zmq::Context) -> (b: SocketBuilder<'_, RouterBuilderBound>)
    ensures
        b.context() == context,
        b.socket_type() == SocketKind::Router,
{
    SocketBuilder::new(context, SocketKind::Router)
}

/// A ROUTER socket that is bound or connected.
pub struct RouterBuilderBound {
    pub socket: ZmqSocket,
}

impl RouterBuilderBound {
    pub open spec fn socket(&self) -> ZmqSocket {
        self.socket
    }
}

impl std::convert::From<ZmqSocket> for RouterBuilderBound {
    fn from(socket: ZmqSocket) -> (b: Self) {
        RouterBuilderBound { socket }
    }
}

impl FromSpecImpl<ZmqSocket> for RouterBuilderBound {
    open spec fn obeys_from_spec() -> bool {
        true
    }

    /// The bound socket holding `socket`.
    open spec fn from_spec(socket: ZmqSocket) -> Self {
        RouterBuilderBound { socket }
    }
}

impl RouterBuilderBound {
    /// The ROUTER socket over the bound or connected one, with nothing queued
    /// or received; fails when ZeroMQ does not give the socket's descriptor.
    pub fn finish(self) -> (r: Result<Router>)
        ensures
            r matches Ok(s) ==> s.inner().poller().socket().made_call(
                &self.socket(),
                SocketCall::Fd { descriptor: Ok(s.inner().poller().fd_spec()) },
            )
                && s.inner().queued().len() == 0
                && s.inner().partial().len() == 0,
    {
        Ok(Router { inner: SenderReceiver::new(ZmqPoller::from_zmq_socket(self.socket)?) })
    }
}

/// An asynchronous ROUTER socket: a sink and a stream of multipart messages.
pub struct Router {
    inner: SenderReceiver,
}

impl Router {
    pub closed spec fn inner(&self) -> SenderReceiver {
        self.inner
    }
}

impl AsZmqSocket for Router {
    fn get_socket(&self) -> (s: &zmq::Socket)
        ensures
            *s == self.inner().poller().socket().raw_spec(),
    {
        self.inner.get_poller().get_socket().as_raw()
    }
}

impl Router {
    /// Queues the segments of `parts` after those already queued.
    pub fn start_send(&mut self, parts: Multipart)
        ensures
            final(self).inner().poller() == old(self).inner().poller(),
            final(self).inner().queued() == old(self).inner().queued() + segments_of(parts@),
            final(self).inner().partial() == old(self).inner().partial(),
    {
        self.inner.start_send(parts);
    }

    /// Whether segments wait to be sent.
    pub fn has_queued(&self) -> (b: bool)
        ensures
            b == (self.inner().queued().len() > 0),
    {
        self.inner.has_queued()
    }

    /// Sends the queued segments while the socket takes them.
    pub fn poll_flush(&mut self, write_ready: bool) -> (r: Result<FlushProgress>)
        ensures
            final(self).inner().poller().fd_spec() == old(self).inner().poller().fd_spec(),
            final(self).inner().partial() == old(self).inner().partial(),
            flush_outcome(
                old(self).inner().queued(),
                final(self).inner().queued(),
                old(self).inner().poller().socket(),
                final(self).inner().poller().socket(),
                write_ready,
                r,
            ),
    {
        self.inner.poll_flush(write_ready)
    }

    /// One step of receiving: one part when the socket is ready.
    pub fn poll_recv(&mut self, read_ready: bool) -> (r: Result<RecvStep>)
        ensures
            final(self).inner().poller().fd_spec() == old(self).inner().poller().fd_spec(),
            final(self).inner().queued() == old(self).inner().queued(),
            recv_outcome(
                old(self).inner().partial(),
                final(self).inner().partial(),
                old(self).inner().poller().socket(),
                final(self).inner().poller().socket(),
                read_ready,
                r,
            ),
    {
        self.inner.poll_recv(read_ready)
    }

    /// The file descriptor to watch for the socket's events.
    pub fn fd(&self) -> (f: i32)
        ensures
            f == self.inner().poller().fd_spec(),
    {
        self.inner.get_poller().fd()
    }

    /// The router's socket.
    pub open spec fn socket(&self) -> ZmqSocket {
        self.inner().poller().socket()
    }

    /// Reads the socket's `ROUTER_MANDATORY` option: one call, whose answer is
    /// the result.
    pub fn is_router_mandatory(&mut self) -> (r: Result<bool>)
        ensures
            final(self).inner().queued() == old(self).inner().queued(),
            final(self).inner().partial() == old(self).inner().partial(),
            final(self).inner().poller().fd_spec() == old(self).inner().poller().fd_spec(),
            final(self).socket().made_call(
                &old(self).socket(),
                SocketCall::GetRouterMandatory { answer: final(self).socket().calls().last()->GetRouterMandatory_answer },
            ),
            r == from_zmq(final(self).socket().calls().last()->GetRouterMandatory_answer),
    {
        match zmq_api::is_router_mandatory_raw(self.inner.poller_mut().socket_mut()) {
            Ok(v) => Ok(v),
            Err(e) => Err(TmqError::Zmq(e)),
        }
    }

    /// Sets the socket's `ROUTER_MANDATORY` option to `value`: one call with
    /// `value`, whose answer is the result.
    pub fn set_router_mandatory(&mut self, value: bool) -> (r: Result<()>)
        ensures
            final(self).inner().queued() == old(self).inner().queued(),
            final(self).inner().partial() == old(self).inner().partial(),
            final(self).inner().poller().fd_spec() == old(self).inner().poller().fd_spec(),
            final(self).socket().made_call(
                &old(self).socket(),
                SocketCall::SetRouterMandatory { value, outcome: final(self).socket().calls().last()->SetRouterMandatory_outcome },
            ),
            r == from_zmq(final(self).socket().calls().last()->SetRouterMandatory_outcome),
    {
        match zmq_api::set_router_mandatory_raw(self.inner.poller_mut().socket_mut(), value) {
            Ok(v) => Ok(v),
            Err(e) => Err(TmqError::Zmq(e)),
        }
    }

    /// Reads the socket's `ROUTER_HANDOVER` option: one call, whose answer is
    /// the result.
    pub fn is_router_handover(&mut self) -> (r: Result<bool>)
        ensures
            final(self).inner().queued() == old(self).inner().queued(),
            final(self).inner().partial() == old(self).inner().partial(),
            final(self).inner().poller().fd_spec() == old(self).inner().poller().fd_spec(),
            final(self).socket().made_call(
                &old(self).socket(),
                SocketCall::GetRouterHandover { answer: final(self).socket().calls().last()->GetRouterHandover_answer },
            ),
            r == from_zmq(final(self).socket().calls().last()->GetRouterHandover_answer),
    {
        match zmq_api::is_router_handover_raw(self.inner.poller_mut().socket_mut()) {
            Ok(v) => Ok(v),
            Err(e) => Err(TmqError::Zmq(e)),
        }
    }

    /// Sets the socket's `ROUTER_HANDOVER` option to `value`: one call with
    /// `value`, whose answer is the result.
    pub fn set_router_handover(&mut self, value: bool) -> (r: Result<()>)
        ensures
            final(self).inner().queued() == old(self).inner().queued(),
            final(self).inner().partial() == old(self).inner().partial(),
            final(self).inner().poller().fd_spec() == old(self).inner().poller().fd_spec(),
            final(self).socket().made_call(
                &old(self).socket(),
                SocketCall::SetRouterHandover { value, outcome: final(self).socket().calls().last()->SetRouterHandover_outcome },
            ),
            r == from_zmq(final(self).socket().calls().last()->SetRouterHandover_outcome),
    {
        match zmq_api::set_router_handover_raw(self.inner.poller_mut().socket_mut(), value) {
            Ok(v) => Ok(v),
            Err(e) => Err(TmqError::Zmq(e)),
        }
    }
}

} // verus!

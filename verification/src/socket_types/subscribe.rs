use vstd::prelude::*;

use vstd::std_specs::convert::FromSpecImpl;

use crate::comm::Receiver;
use crate::error::{from_zmq, Result, TmqError};
use crate::poll::{recv_outcome, RecvStep, ZmqPoller};
use crate::socket::{AsZmqSocket, SocketCall, SocketKind, ZmqSocket};
use crate::socket_builder::SocketBuilder;
use crate::zmq_api;

verus! {

/// Creates a builder for a SUB socket.
pub fn subscribe(context: &zmq::Context) -> (b: SocketBuilder<'_, SubscribeBuilderBound>)
    ensures
        b.context() == context,
        b.socket_type() == SocketKind::Sub,
{
    SocketBuilder::new(context, SocketKind::Sub)
}

/// A SUB socket that is bound or connected.
pub struct SubscribeBuilderBound {
    pub socket: ZmqSocket,
}

impl SubscribeBuilderBound {
    pub open spec fn socket(&self) -> ZmqSocket {
        self.socket
    }
}

impl std::convert::From<ZmqSocket> for SubscribeBuilderBound {
    fn from(socket: ZmqSocket) -> (b: Self) {
        SubscribeBuilderBound { socket }
    }
}

impl FromSpecImpl<ZmqSocket> for SubscribeBuilderBound {
    open spec fn obeys_from_spec() -> bool {
        true
    }

    /// The bound socket holding `socket`.
    open spec fn from_spec(socket: ZmqSocket) -> Self {
        SubscribeBuilderBound { socket }
    }
}

impl SubscribeBuilderBound {
    /// Subscribes the socket to the topic `address` and makes it the SUB
    /// socket over it, with no part received; fails when ZeroMQ refuses the
    /// subscription or does not give the socket's descriptor.
    pub fn subscribe(self, address: &[u8]) -> (r: Result<Subscribe>)
        ensures
            r matches Ok(s) ==> {
                let sock = s.inner().poller().socket();
                &&& sock.same_socket(&self.socket())
                &&& sock.sent_log() == self.socket().sent_log()
                &&& sock.recv_log() == self.socket().recv_log()
                &&& sock.calls() == self.socket().calls()
                    .push(SocketCall::Subscribe { prefix: address@, outcome: Ok(()) })
                    .push(SocketCall::Fd { descriptor: Ok(s.inner().poller().fd_spec()) })
                &&& s.inner().partial().len() == 0
                &&& s.topics() == Seq::<Seq<u8>>::empty().push(address@)
            },
    {
        let mut socket = self.socket;
        let sub = zmq_api::set_subscribe_raw(&mut socket, address);
        if let Err(e) = sub {
            return Err(TmqError::Zmq(e));
        }
        let ghost mid = socket;
        assert(sub->Ok_0 == ());
        assert(sub == Ok::<(), zmq::Error>(()));
        assert(mid.calls() == self.socket.calls().push(SocketCall::Subscribe { prefix: address@, outcome: Ok(()) }));
        let poller = ZmqPoller::from_zmq_socket(socket)?;
        let inner = Receiver::new(poller);
        let topics = Ghost(Seq::empty().push(address@));
        Ok(Subscribe { inner, topics })
    }
}

/// An asynchronous SUB socket: a stream of the multipart messages whose
/// first part starts with one of the topics subscribed to.
pub struct Subscribe {
    inner: Receiver,
    topics: Ghost<Seq<Seq<u8>>>,
}

impl Subscribe {
    pub closed spec fn inner(&self) -> Receiver {
        self.inner
    }

    /// The topics that ZeroMQ accepted for this subscriber, in the order
    /// they were added.
    pub closed spec fn topics(&self) -> Seq<Seq<u8>> {
        self.topics@
    }

    /// Adds another topic to this subscriber. This doesn't remove the
    /// previously added topics.
    /// One call hands `address` to ZeroMQ; the topic is added exactly when it
    /// is accepted, and ZeroMQ's answer is the result.
    pub fn subscribe(&mut self, address: &[u8]) -> (r: Result<()>)
        ensures
            final(self).inner().partial() == old(self).inner().partial(),
            final(self).inner().poller().fd_spec() == old(self).inner().poller().fd_spec(),
            final(self).inner().poller().socket().made_call(
                &old(self).inner().poller().socket(),
                SocketCall::Subscribe {
                    prefix: address@,
                    outcome: final(self).inner().poller().socket().calls().last()->Subscribe_outcome,
                },
            ),
            r == from_zmq(final(self).inner().poller().socket().calls().last()->Subscribe_outcome),
            final(self).topics() == (if r is Ok {
                old(self).topics().push(address@)
            } else {
                old(self).topics()
            }),
    {
        match zmq_api::set_subscribe_raw(self.inner.poller_mut().socket_mut(), address) {
            Ok(()) => {
                self.topics = Ghost(self.topics@.push(address@));
                Ok(())
            },
            Err(e) => Err(TmqError::Zmq(e)),
        }
    }
}

impl AsZmqSocket for Subscribe {
    fn get_socket(&self) -> (s: &zmq::Socket)
        ensures
            *s == self.inner().poller().socket().raw_spec(),
    {
        self.inner.get_poller().get_socket().as_raw()
    }
}

impl Subscribe {
    /// One step of receiving: one part when the socket is ready.
    pub fn poll_recv(&mut self, read_ready: bool) -> (r: Result<RecvStep>)
        ensures
            final(self).inner().poller().fd_spec() == old(self).inner().poller().fd_spec(),
            recv_outcome(
                old(self).inner().partial(),
                final(self).inner().partial(),
                old(self).inner().poller().socket(),
                final(self).inner().poller().socket(),
                read_ready,
                r,
            ),
    {
        self.inner.poll_recv(read_ready)
    }

    /// The file descriptor to watch for the socket's events.
    pub fn fd(&self) -> (f: i32)
        ensures
            f == self.inner().poller().fd_spec(),
    {
        self.inner.get_poller().fd()
    }
}

} // verus!

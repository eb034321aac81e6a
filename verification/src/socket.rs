//! A ZeroMQ socket together with what this crate knows of it: the kind it
//! was opened as and the endpoints it was attached to.
use vstd::prelude::*;

use crate::error::{from_zmq, Result, TmqError};
use crate::poll::{RecvAttempt, SendAttempt};
use crate::zmq_api;

verus! {

/// The kinds of ZeroMQ socket that this crate opens.
#[derive(Clone, Copy, Debug, PartialEq, Eq, Structural)]
pub enum SocketKind {
    Pub,
    Sub,
    Req,
    Rep,
    Dealer,
    Router,
    Pull,
    Push,
}

/// How a socket was attached to an endpoint.
#[derive(Clone, Copy, Debug, PartialEq, Eq, Structural)]
pub enum Attach {
    Connected,
    Bound,
}

/// Whether an endpoint's text holds no NUL character, which ZeroMQ's C
/// interface cannot take.
pub open spec fn has_no_nul(endpoint: Seq<char>) -> bool {
    !endpoint.contains('\0')
}

/// Gives access to the `zmq` socket under a socket of this crate.
pub trait AsZmqSocket {
    fn get_socket(&self) -> &zmq::Socket;
}

/// One call that handed a part to ZeroMQ to send: the part's bytes, the
/// flags, and how the call ended.
pub type SendRecord = (Seq<u8>, i32, SendAttempt);

/// One call that asked ZeroMQ for a part: the flags, and how the call ended
/// (with the part's bytes when one was taken).
pub type RecvRecord = (i32, RecvAttempt);

/// A call on a socket other than sending or receiving a part, with what it
/// was handed and what ZeroMQ answered.
pub ghost enum SocketCall {
    Connect { endpoint: Seq<char>, outcome: std::result::Result<(), zmq::Error> },
    Bind { endpoint: Seq<char>, outcome: std::result::Result<(), zmq::Error> },
    Subscribe { prefix: Seq<u8>, outcome: std::result::Result<(), zmq::Error> },
    SetRouterMandatory { value: bool, outcome: std::result::Result<(), zmq::Error> },
    GetRouterMandatory { answer: std::result::Result<bool, zmq::Error> },
    SetRouterHandover { value: bool, outcome: std::result::Result<(), zmq::Error> },
    GetRouterHandover { answer: std::result::Result<bool, zmq::Error> },
    RcvMore { answer: std::result::Result<bool, zmq::Error> },
    Fd { descriptor: std::result::Result<i32, zmq::Error> },
}

/// A ZeroMQ socket, the kind it was opened as, the endpoints that it was
/// connected or bound to, in order, every call that handed a part to
/// ZeroMQ or asked it for one, in order, and every other call made on it.
pub struct ZmqSocket {
    pub(crate) raw: zmq::Socket,
    kind: SocketKind,
    endpoints: Ghost<Seq<(Seq<char>, Attach)>>,
    sends: Ghost<Seq<SendRecord>>,
    recvs: Ghost<Seq<RecvRecord>>,
    calls: Ghost<Seq<SocketCall>>,
}

impl ZmqSocket {
    /// The kind the socket was opened as.
    pub closed spec fn kind_spec(&self) -> SocketKind {
        self.kind
    }

    /// The endpoints the socket was attached to, in order, each with how.
    pub closed spec fn endpoints(&self) -> Seq<(Seq<char>, Attach)> {
        self.endpoints@
    }

    /// Every call that handed a part to ZeroMQ to send, in order.
    pub closed spec fn sent_log(&self) -> Seq<SendRecord> {
        self.sends@
    }

    /// Every call that asked ZeroMQ for a part, in order.
    pub closed spec fn recv_log(&self) -> Seq<RecvRecord> {
        self.recvs@
    }

    /// Every call on the socket other than sending or receiving a part, in
    /// order.
    pub closed spec fn calls(&self) -> Seq<SocketCall> {
        self.calls@
    }

    /// `self` is `before` with the one call `c` more, and no part sent or
    /// received.
    pub open spec fn made_call(&self, before: &ZmqSocket, c: SocketCall) -> bool {
        &&& self.same_socket(before)
        &&& self.sent_log() == before.sent_log()
        &&& self.recv_log() == before.recv_log()
        &&& self.calls() == before.calls().push(c)
    }

    /// Whether `other` is this socket with the same kind and endpoints,
    /// whatever parts were sent or received since.
    pub open spec fn same_socket(&self, other: &ZmqSocket) -> bool {
        &&& self.raw_spec() == other.raw_spec()
        &&& self.kind_spec() == other.kind_spec()
        &&& self.endpoints() == other.endpoints()
    }

    /// Opens a socket of `kind` in `ctx`; ZeroMQ decides whether it can.
    pub fn open(ctx: &zmq::Context, kind: SocketKind) -> (r: Result<ZmqSocket>)
        ensures
            r matches Ok(s) ==> s.kind_spec() == kind && s.endpoints() == Seq::<(Seq<char>, Attach)>::empty()
                && s.sent_log() == Seq::<SendRecord>::empty() && s.recv_log() == Seq::<RecvRecord>::empty()
                && s.calls() == Seq::<SocketCall>::empty(),
    {
        match zmq_api::open_raw_socket(ctx, kind) {
            Ok(raw) => Ok(ZmqSocket {
                raw,
                kind,
                endpoints: Ghost(Seq::empty()),
                sends: Ghost(Seq::empty()),
                recvs: Ghost(Seq::empty()),
                calls: Ghost(Seq::empty()),
            }),
            Err(e) => Err(TmqError::Zmq(e)),
        }
    }

    /// The kind the socket was opened as.
    pub fn kind(&self) -> (k: SocketKind)
        ensures
            k == self.kind_spec(),
    {
        self.kind
    }

    /// Connects the socket to `endpoint`; on success the endpoint is
    /// recorded as connected.
    pub fn connect(&mut self, endpoint: &str) -> (r: Result<()>)
        requires
            has_no_nul(endpoint@),
        ensures
            final(self).kind_spec() == old(self).kind_spec(),
            final(self).raw_spec() == old(self).raw_spec(),
            final(self).sent_log() == old(self).sent_log(),
            final(self).recv_log() == old(self).recv_log(),
            final(self).calls().len() == old(self).calls().len() + 1,
            final(self).calls() == old(self).calls().push(
                SocketCall::Connect { endpoint: endpoint@, outcome: final(self).calls().last()->Connect_outcome },
            ),
            r == from_zmq(final(self).calls().last()->Connect_outcome),
            final(self).endpoints() == (if r is Ok {
                old(self).endpoints().push((endpoint@, Attach::Connected))
            } else {
                old(self).endpoints()
            }),
    {
        match zmq_api::connect_raw(self, endpoint) {
            Ok(()) => {
                self.endpoints = Ghost(self.endpoints@.push((endpoint@, Attach::Connected)));
                Ok(())
            },
            Err(e) => Err(TmqError::Zmq(e)),
        }
    }

    /// Binds the socket to `endpoint`; on success the endpoint is recorded
    /// as bound.
    pub fn bind(&mut self, endpoint: &str) -> (r: Result<()>)
        requires
            has_no_nul(endpoint@),
        ensures
            final(self).kind_spec() == old(self).kind_spec(),
            final(self).raw_spec() == old(self).raw_spec(),
            final(self).sent_log() == old(self).sent_log(),
            final(self).recv_log() == old(self).recv_log(),
            final(self).calls().len() == old(self).calls().len() + 1,
            final(self).calls() == old(self).calls().push(
                SocketCall::Bind { endpoint: endpoint@, outcome: final(self).calls().last()->Bind_outcome },
            ),
            r == from_zmq(final(self).calls().last()->Bind_outcome),
            final(self).endpoints() == (if r is Ok {
                old(self).endpoints().push((endpoint@, Attach::Bound))
            } else {
                old(self).endpoints()
            }),
    {
        match zmq_api::bind_raw(self, endpoint) {
            Ok(()) => {
                self.endpoints = Ghost(self.endpoints@.push((endpoint@, Attach::Bound)));
                Ok(())
            },
            Err(e) => Err(TmqError::Zmq(e)),
        }
    }

    /// The `zmq` socket itself.
    pub closed spec fn raw_spec(&self) -> zmq::Socket {
        self.raw
    }

    /// The `zmq` socket itself.
    pub fn as_raw(&self) -> (s: &zmq::Socket)
        ensures
            *s == self.raw_spec(),
    {
        &self.raw
    }
}

} // verus!

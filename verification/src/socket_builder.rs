//! The builder shared by the socket types: it opens a socket of its kind and
//! binds or connects it.
use vstd::prelude::*;

use vstd::std_specs::convert::FromSpec;

use crate::error::Result;
use crate::socket::{has_no_nul, Attach, SocketCall, SocketKind, ZmqSocket};

verus! {

/// A socket of a given kind, yet to be bound or connected; `BoundType` is
/// what a bound or connected socket becomes.
pub struct SocketBuilder<'a, BoundType> {
    context: &'a zmq::Context,
    socket_type: SocketKind,
    _phantom: std::marker::PhantomData<BoundType>,
}

impl<'a, BoundType> SocketBuilder<'a, BoundType> where BoundType: std::convert::From<ZmqSocket> {
    pub closed spec fn context(&self) -> &'a zmq::Context {
        self.context
    }

    /// The kind of socket built.
    pub closed spec fn socket_type(&self) -> SocketKind {
        self.socket_type
    }

    /// What a socket `s` opened and attached by `self` becomes.
    pub open spec fn built_from(b: BoundType, s: ZmqSocket) -> bool {
        BoundType::obeys_from_spec() ==> b == BoundType::from_spec(s)
    }

    pub(crate) fn new(context: &'a zmq::Context, socket_type: SocketKind) -> (b: Self)
        ensures
            b.context() == context,
            b.socket_type() == socket_type,
    {
        SocketBuilder { context, socket_type, _phantom: std::marker::PhantomData }
    }

    /// Opens a socket of the builder's kind and connects it to `endpoint`.
    pub fn connect(self, endpoint: &str) -> (r: Result<BoundType>)
        requires
            has_no_nul(endpoint@),
        ensures
            r matches Ok(b) ==> exists|s: ZmqSocket|
                #[trigger] Self::built_from(b, s) && s.kind_spec() == self.socket_type()
                && s.endpoints() == seq![(endpoint@, Attach::Connected)]
                && s.sent_log().len() == 0 && s.recv_log().len() == 0
                && s.calls() == seq![SocketCall::Connect { endpoint: endpoint@, outcome: Ok(()) }],
    {
        let mut socket = ZmqSocket::open(self.context, self.socket_type)?;
        socket.connect(endpoint)?;
        let ghost s = socket;
        assert(s.endpoints() =~= seq![(endpoint@, Attach::Connected)]);
        assert(s.calls().last()->Connect_outcome->Ok_0 == ());
        assert(s.calls() =~= seq![SocketCall::Connect { endpoint: endpoint@, outcome: Ok(()) }]);
        let r: Result<BoundType> = Ok(BoundType::from(socket));
        assert(r matches Ok(b) ==> Self::built_from(b, s));
        r
    }

    /// Opens a socket of the builder's kind and binds it to `endpoint`.
    pub fn bind(self, endpoint: &str) -> (r: Result<BoundType>)
        requires
            has_no_nul(endpoint@),
        ensures
            r matches Ok(b) ==> exists|s: ZmqSocket|
                #[trigger] Self::built_from(b, s) && s.kind_spec() == self.socket_type()
                && s.endpoints() == seq![(endpoint@, Attach::Bound)]
                && s.sent_log().len() == 0 && s.recv_log().len() == 0
                && s.calls() == seq![SocketCall::Bind { endpoint: endpoint@, outcome: Ok(()) }],
    {
        let mut socket = ZmqSocket::open(self.context, self.socket_type)?;
        socket.bind(endpoint)?;
        let ghost s = socket;
        assert(s.endpoints() =~= seq![(endpoint@, Attach::Bound)]);
        assert(s.calls().last()->Bind_outcome->Ok_0 == ());
        assert(s.calls() =~= seq![SocketCall::Bind { endpoint: endpoint@, outcome: Ok(()) }]);
        let r: Result<BoundType> = Ok(BoundType::from(socket));
        assert(r matches Ok(b) ==> Self::built_from(b, s));
        r
    }
}

} // verus!

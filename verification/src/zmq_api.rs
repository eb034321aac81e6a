//! The items through which this crate calls the `zmq` crate. Their contracts
//! are taken as given; each doc comment says what is claimed of the call.
use vstd::prelude::*;

use crate::poll::{RecvAttempt, SendAttempt};
use crate::socket::{SocketCall, SocketKind, ZmqSocket};

verus! {

/// `zmq::Context`, the handle from which sockets are created.
#[verifier::external_type_specification]
#[verifier::external_body]
pub struct ExContext(zmq::Context);

/// `zmq::Socket`, a socket of the ZeroMQ library.
#[verifier::external_type_specification]
#[verifier::external_body]
pub struct ExSocket(zmq::Socket);

/// `zmq::Error`, an error code reported by the ZeroMQ library.
#[verifier::external_type_specification]
#[verifier::external_body]
pub struct ExError(zmq::Error);

/// Calls `zmq::Context::socket` with the `zmq::SocketType` that `kind` names.
/// Whether a socket can be created depends on the context and on the
/// process's resources, so nothing is claimed of the result.
#[verifier::external_body]
pub(crate) fn open_raw_socket(ctx: &zmq::Context, kind: SocketKind) -> (r: std::result::Result<zmq::Socket, zmq::Error>) {
    ctx.socket(match kind {
        SocketKind::Pub => zmq::SocketType::PUB,
        SocketKind::Sub => zmq::SocketType::SUB,
        SocketKind::Req => zmq::SocketType::REQ,
        SocketKind::Rep => zmq::SocketType::REP,
        SocketKind::Dealer => zmq::SocketType::DEALER,
        SocketKind::Router => zmq::SocketType::ROUTER,
        SocketKind::Pull => zmq::SocketType::PULL,
        SocketKind::Push => zmq::SocketType::PUSH,
    })
}

/// Calls `zmq::Socket::connect` on the socket. Its source turns `endpoint`
/// into a C string with `unwrap`, which panics on a NUL character, so
/// `requires` leaves such endpoints out. Whether the connection is accepted
/// depends on the library and the endpoint's transport. Claimed: the call,
/// with its endpoint and ZeroMQ's answer, is added to the socket's calls, and
/// nothing else of the socket changes.
#[verifier::external_body]
pub(crate) fn connect_raw(socket: &mut ZmqSocket, endpoint: &str) -> (r: std::result::Result<(), zmq::Error>)
    requires
        !endpoint@.contains('\0'),
    ensures
        final(socket).made_call(old(socket), SocketCall::Connect { endpoint: endpoint@, outcome: r }),
{
    socket.raw.connect(endpoint)
}

/// Calls `zmq::Socket::bind` on the socket. As for `connect_raw`, an
/// endpoint with a NUL character would panic and is left out. Claimed: the
/// call, with its endpoint and ZeroMQ's answer, is added to the socket's
/// calls, and nothing else of the socket changes.
#[verifier::external_body]
pub(crate) fn bind_raw(socket: &mut ZmqSocket, endpoint: &str) -> (r: std::result::Result<(), zmq::Error>)
    requires
        !endpoint@.contains('\0'),
    ensures
        final(socket).made_call(old(socket), SocketCall::Bind { endpoint: endpoint@, outcome: r }),
{
    socket.raw.bind(endpoint)
}

/// Calls `zmq::Socket::set_subscribe` on the socket with `prefix`. Claimed:
/// the call, with its prefix and ZeroMQ's answer, is added to the socket's
/// calls, and nothing else of the socket changes.
#[verifier::external_body]
pub(crate) fn set_subscribe_raw(socket: &mut ZmqSocket, prefix: &[u8]) -> (r: std::result::Result<(), zmq::Error>)
    ensures
        final(socket).made_call(old(socket), SocketCall::Subscribe { prefix: prefix@, outcome: r }),
{
    socket.raw.set_subscribe(prefix)
}

/// Calls `zmq::Socket::is_router_mandatory` on the socket. Claimed: the call,
/// with ZeroMQ's answer, is added to the socket's calls, and nothing else of
/// the socket changes.
#[verifier::external_body]
pub(crate) fn is_router_mandatory_raw(socket: &mut ZmqSocket) -> (r: std::result::Result<bool, zmq::Error>)
    ensures
        final(socket).made_call(old(socket), SocketCall::GetRouterMandatory { answer: r }),
{
    socket.raw.is_router_mandatory()
}

/// Calls `zmq::Socket::set_router_mandatory` on the socket with `value`.
/// Claimed: the call, with its value and ZeroMQ's answer, is added to the
/// socket's calls, and nothing else of the socket changes.
#[verifier::external_body]
pub(crate) fn set_router_mandatory_raw(socket: &mut ZmqSocket, value: bool) -> (r: std::result::Result<(), zmq::Error>)
    ensures
        final(socket).made_call(old(socket), SocketCall::SetRouterMandatory { value, outcome: r }),
{
    socket.raw.set_router_mandatory(value)
}

/// Calls `zmq::Socket::is_router_handover` on the socket. Claimed: the call,
/// with ZeroMQ's answer, is added to the socket's calls, and nothing else of
/// the socket changes.
#[verifier::external_body]
pub(crate) fn is_router_handover_raw(socket: &mut ZmqSocket) -> (r: std::result::Result<bool, zmq::Error>)
    ensures
        final(socket).made_call(old(socket), SocketCall::GetRouterHandover { answer: r }),
{
    socket.raw.is_router_handover()
}

/// Calls `zmq::Socket::set_router_handover` on the socket with `value`.
/// Claimed: the call, with its value and ZeroMQ's answer, is added to the
/// socket's calls, and nothing else of the socket changes.
#[verifier::external_body]
pub(crate) fn set_router_handover_raw(socket: &mut ZmqSocket, value: bool) -> (r: std::result::Result<(), zmq::Error>)
    ensures
        final(socket).made_call(old(socket), SocketCall::SetRouterHandover { value, outcome: r }),
{
    socket.raw.set_router_handover(value)
}

/// Calls `zmq::Socket::get_rcvmore` on the socket: whether more parts of the
/// message last received follow. ZeroMQ's answer depends on what arrived.
/// Claimed: the call, with that answer, is added to the socket's calls; no
/// part is sent or taken, and nothing else of the socket changes.
#[verifier::external_body]
pub(crate) fn get_rcvmore_raw(socket: &mut ZmqSocket) -> (r: std::result::Result<bool, zmq::Error>)
    ensures
        final(socket).made_call(old(socket), SocketCall::RcvMore { answer: r }),
{
    socket.raw.get_rcvmore()
}

/// Calls `zmq::Socket::get_fd` on the socket, the file descriptor that
/// signals its events. Claimed: the call, with ZeroMQ's answer, is added to
/// the socket's calls, and nothing else of the socket changes.
#[verifier::external_body]
pub(crate) fn get_fd_raw(socket: &mut ZmqSocket) -> (r: std::result::Result<i32, zmq::Error>)
    ensures
        final(socket).made_call(old(socket), SocketCall::Fd { descriptor: r }),
{
    socket.raw.get_fd()
}

/// Reads `zmq::DONTWAIT`, which the `zmq` crate defines as `ZMQ_DONTWAIT`,
/// the flag 1: the call returns `EAGAIN` in place of blocking.
#[verifier::external_body]
pub(crate) fn dontwait_flag() -> (f: i32)
    ensures
        f == 1,
{
    zmq::DONTWAIT
}

/// Reads `zmq::SNDMORE`, which the `zmq` crate defines as `ZMQ_SNDMORE`, the
/// flag 2: more parts of the same message follow.
#[verifier::external_body]
pub(crate) fn sndmore_flag() -> (f: i32)
    ensures
        f == 2,
{
    zmq::SNDMORE
}

/// Calls `zmq::Socket::send` on the socket with the bytes `data` and
/// `flags`, and tells the outcomes apart: `Sent` for `Ok`, `WouldBlock` for
/// the error `EAGAIN`, `Failed` with the error otherwise. Which outcome comes
/// depends on the peers and the queues. Claimed: the call is recorded in the
/// socket's send log with its bytes, flags and outcome, and nothing else of
/// the socket changes. `Failed` never carries `EAGAIN`, by the match in the
/// body; `zmq::Error` is opaque here, so no clause says it.
#[verifier::external_body]
pub(crate) fn send_raw(socket: &mut ZmqSocket, data: &[u8], flags: i32) -> (r: SendAttempt)
    ensures
        final(socket).same_socket(old(socket)),
        final(socket).recv_log() == old(socket).recv_log(),
        final(socket).calls() == old(socket).calls(),
        final(socket).sent_log() == old(socket).sent_log().push((data@, flags, r)),
{
    match socket.raw.send(data, flags) {
        Ok(()) => SendAttempt::Sent,
        Err(zmq::Error::EAGAIN) => SendAttempt::WouldBlock,
        Err(e) => SendAttempt::Failed(e),
    }
}

/// Calls `zmq::Socket::recv_bytes` on the socket with `flags`, and tells the
/// outcomes apart as `send_raw` does: `Received` with the part's bytes,
/// `WouldBlock` for `EAGAIN`, `Failed` otherwise. Which comes, and the bytes,
/// depend on what peers sent. Claimed: the call is recorded in the socket's
/// receive log with its flags and outcome, and nothing else of the socket
/// changes.
#[verifier::external_body]
pub(crate) fn recv_raw(socket: &mut ZmqSocket, flags: i32) -> (r: RecvAttempt)
    ensures
        final(socket).same_socket(old(socket)),
        final(socket).sent_log() == old(socket).sent_log(),
        final(socket).calls() == old(socket).calls(),
        final(socket).recv_log() == old(socket).recv_log().push((flags, r)),
{
    match socket.raw.recv_bytes(flags) {
        Ok(bytes) => RecvAttempt::Received(bytes),
        Err(zmq::Error::EAGAIN) => RecvAttempt::WouldBlock,
        Err(e) => RecvAttempt::Failed(e),
    }
}

} // verus!

//! What is decided when a socket is polled: the flags a part is sent with,
//! what an attempt to send or receive comes to, and the loops that send the
//! queued segments and put received parts together.
use vstd::prelude::*;

use std::collections::VecDeque;

use crate::error::{from_zmq, Result, TmqError};
use crate::framing::{receive_part, receive_part_into, MultipartSegment};
use crate::message::Multipart;
use crate::socket::{SocketCall, ZmqSocket};
use crate::zmq_api;

verus! {

/// How a call to send one part ended, as the `zmq` crate reports it.
pub enum SendAttempt {
    Sent,
    WouldBlock,
    Failed(zmq::Error),
}

/// How a call to receive one part ended, as the `zmq` crate reports it.
pub enum RecvAttempt {
    Received(Vec<u8>),
    WouldBlock,
    Failed(zmq::Error),
}

/// What polling a socket to send one part came to.
#[derive(Debug, PartialEq, Eq, Structural)]
pub enum SendPoll {
    /// The part was handed to ZeroMQ.
    Sent,
    /// ZeroMQ would have blocked: the socket's write readiness must be
    /// cleared, and the part sent again later.
    WouldBlock,
    /// The socket was not ready for writing; nothing was tried.
    NotReady,
}

/// What polling a socket to receive one part came to.
pub enum RecvPoll {
    /// A part arrived.
    Received(Vec<u8>),
    /// ZeroMQ had nothing to give: the socket's read readiness must be
    /// cleared.
    WouldBlock,
    /// The socket was not ready for reading; nothing was tried.
    NotReady,
}

/// The flags a part is sent with: never block, and mark that more parts of
/// the same message follow when `has_more`.
pub fn send_flags(has_more: bool) -> (f: i32)
    ensures
        f == flags_for(has_more),
{
    let dontwait = zmq_api::dontwait_flag();
    if has_more {
        let sndmore = zmq_api::sndmore_flag();
        assert(dontwait | sndmore == 3i32) by (bit_vector)
            requires
                dontwait == 1i32,
                sndmore == 2i32,
        ;
        dontwait | sndmore
    } else {
        dontwait
    }
}

/// The flags that `send_flags` gives for `has_more`.
pub open spec fn flags_for(has_more: bool) -> i32 {
    if has_more { 3i32 } else { 1i32 }
}

/// What a send poll answers for a send call that ended with `a`.
pub open spec fn send_poll_of(a: SendAttempt) -> Result<SendPoll> {
    match a {
        SendAttempt::Sent => Ok(SendPoll::Sent),
        SendAttempt::WouldBlock => Ok(SendPoll::WouldBlock),
        SendAttempt::Failed(e) => Err(TmqError::Zmq(e)),
    }
}

/// What a receive poll answers for a receive call that ended with `a`.
pub open spec fn recv_poll_of(a: RecvAttempt) -> Result<RecvPoll> {
    match a {
        RecvAttempt::Received(bytes) => Ok(RecvPoll::Received(bytes)),
        RecvAttempt::WouldBlock => Ok(RecvPoll::WouldBlock),
        RecvAttempt::Failed(e) => Err(TmqError::Zmq(e)),
    }
}

/// How the last send call on `after` ended.
pub open spec fn last_send(after: ZmqSocket) -> SendAttempt {
    after.sent_log().last().2
}

/// How the last receive call on `after` ended.
pub open spec fn last_recv(after: ZmqSocket) -> RecvAttempt {
    after.recv_log().last().1
}

/// ZeroMQ's answer to the last question on `after` whether more parts
/// follow.
pub open spec fn last_more(after: ZmqSocket) -> std::result::Result<bool, zmq::Error> {
    after.calls().last()->RcvMore_answer
}

/// `after` is `before` with exactly one more send call, which handed
/// `bytes` with `flags`; nothing was received and no other call made.
pub open spec fn sent_one(before: ZmqSocket, after: ZmqSocket, bytes: Seq<u8>, flags: i32) -> bool {
    &&& after.same_socket(&before)
    &&& after.recv_log() == before.recv_log()
    &&& after.calls() == before.calls()
    &&& after.sent_log() == before.sent_log().push((bytes, flags, last_send(after)))
}

/// `after` is `before` with exactly one more receive call, made with
/// `flags`; nothing was sent and no other call made.
pub open spec fn took_one(before: ZmqSocket, after: ZmqSocket, flags: i32) -> bool {
    &&& after.same_socket(&before)
    &&& after.sent_log() == before.sent_log()
    &&& after.calls() == before.calls()
    &&& after.recv_log() == before.recv_log().push((flags, last_recv(after)))
}

impl ZmqSocket {
    /// Tries to send `msg` as one part, without blocking, when the socket is
    /// ready for writing: one send call with `msg` and `send_flags(has_more)`,
    /// whose outcome is the answer. When it is not ready, nothing is sent.
    pub fn send_message(&mut self, msg: &[u8], has_more: bool, write_ready: bool) -> (r: Result<SendPoll>)
        ensures
            !write_ready ==> r == Ok::<SendPoll, TmqError>(SendPoll::NotReady) && *final(self) == *old(self),
            write_ready ==> sent_one(*old(self), *final(self), msg@, flags_for(has_more))
                && r == send_poll_of(last_send(*final(self))),
            r == Ok::<SendPoll, TmqError>(SendPoll::NotReady) <==> !write_ready,
            write_ready && last_send(*final(self)) is WouldBlock
                ==> r == Ok::<SendPoll, TmqError>(SendPoll::WouldBlock),
    {
        if !write_ready {
            return Ok(SendPoll::NotReady);
        }
        let flags = send_flags(has_more);
        let a = zmq_api::send_raw(self, msg, flags);
        match a {
            SendAttempt::Sent => Ok(SendPoll::Sent),
            SendAttempt::WouldBlock => Ok(SendPoll::WouldBlock),
            SendAttempt::Failed(e) => Err(TmqError::Zmq(e)),
        }
    }

    /// Tries to receive one part, without blocking, when the socket is ready
    /// for reading: one receive call with the flag `DONTWAIT` (1), whose
    /// outcome is the answer. When it is not ready, nothing is received.
    pub fn recv_message(&mut self, read_ready: bool) -> (r: Result<RecvPoll>)
        ensures
            !read_ready ==> ((r matches Ok(RecvPoll::NotReady)) && *final(self) == *old(self)),
            read_ready ==> took_one(*old(self), *final(self), 1i32) && r == recv_poll_of(last_recv(*final(self))),
            (r matches Ok(RecvPoll::NotReady)) <==> !read_ready,
            read_ready && last_recv(*final(self)) is WouldBlock ==> (r matches Ok(RecvPoll::WouldBlock)),
    {
        if !read_ready {
            return Ok(RecvPoll::NotReady);
        }
        let flags = zmq_api::dontwait_flag();
        let a = zmq_api::recv_raw(self, flags);
        match a {
            RecvAttempt::Received(bytes) => Ok(RecvPoll::Received(bytes)),
            RecvAttempt::WouldBlock => Ok(RecvPoll::WouldBlock),
            RecvAttempt::Failed(e) => Err(TmqError::Zmq(e)),
        }
    }

    /// Whether more parts of the message last received follow, as ZeroMQ
    /// answers; the question is added to the socket's calls and takes no
    /// part.
    pub fn get_rcvmore(&mut self) -> (r: Result<bool>)
        ensures
            final(self).made_call(old(self), SocketCall::RcvMore { answer: last_more(*final(self)) }),
            r == from_zmq(last_more(*final(self))),
    {
        match zmq_api::get_rcvmore_raw(self) {
            Ok(more) => Ok(more),
            Err(e) => Err(TmqError::Zmq(e)),
        }
    }

    /// The file descriptor through which the socket signals its events, as
    /// ZeroMQ answers; the question is added to the socket's calls.
    pub fn fd(&mut self) -> (r: Result<i32>)
        ensures
            final(self).made_call(old(self), SocketCall::Fd { descriptor: final(self).calls().last()->Fd_descriptor }),
            r == from_zmq(final(self).calls().last()->Fd_descriptor),
    {
        match zmq_api::get_fd_raw(self) {
            Ok(fd) => Ok(fd),
            Err(e) => Err(TmqError::Zmq(e)),
        }
    }
}

/// What one step of receiving a multipart message came to.
pub enum RecvStep {
    /// A part arrived and completed the message, which is handed out.
    Complete(Multipart),
    /// A part arrived and more parts of the same message follow.
    Partial,
    /// ZeroMQ had nothing to give: read readiness must be cleared.
    WouldBlock,
    /// The socket was not ready for reading; nothing was tried.
    NotReady,
}

/// What follows when the part `part` was taken into a message whose parts
/// so far were `before`, leaving `after`, and the step answered `r`: with
/// more parts to come it is appended (`Partial`); as the last part it
/// completes the message, handed out (`Complete`); when asking whether more
/// follow failed, it stays appended and the error is the answer.
pub open spec fn settled(before: Seq<Vec<u8>>, after: Seq<Vec<u8>>, part: Vec<u8>, r: Result<RecvStep>) -> bool {
    match r {
        Ok(RecvStep::Partial) => receive_part(before, part, true) == (after, None::<Seq<Vec<u8>>>),
        Ok(RecvStep::Complete(m)) => receive_part(before, part, false) == (after, Some(m@)),
        Err(_) => after == before.push(part),
        _ => false,
    }
}

/// What one step of receiving on a socket `s0`, leaving `s1`, into a
/// message whose parts so far were `before`, leaving `after`, came to when
/// it answered `r`: nothing is done when the socket is not ready; otherwise
/// exactly one receive call is made, with `DONTWAIT`, and its outcome decides
/// the answer. When a part is taken, ZeroMQ is asked whether more parts
/// follow, and its answer decides: more follow (`Partial`), none follow
/// (`Complete`), or its error is the answer; a part taken is never dropped.
pub open spec fn recv_outcome(
    before: Seq<Vec<u8>>,
    after: Seq<Vec<u8>>,
    s0: ZmqSocket,
    s1: ZmqSocket,
    read_ready: bool,
    r: Result<RecvStep>,
) -> bool {
    &&& !read_ready ==> ((r matches Ok(RecvStep::NotReady)) && after == before && s1 == s0)
    &&& read_ready ==> {
        &&& s1.same_socket(&s0)
        &&& s1.sent_log() == s0.sent_log()
        &&& s1.recv_log() == s0.recv_log().push((1i32, last_recv(s1)))
        &&& match last_recv(s1) {
            RecvAttempt::WouldBlock => (r matches Ok(RecvStep::WouldBlock)) && after == before
                && s1.calls() == s0.calls(),
            RecvAttempt::Failed(e) => r == Err::<RecvStep, TmqError>(TmqError::Zmq(e)) && after == before
                && s1.calls() == s0.calls(),
            RecvAttempt::Received(part) => {
                &&& s1.calls() == s0.calls().push(SocketCall::RcvMore { answer: last_more(s1) })
                &&& match last_more(s1) {
                    Ok(true) => r matches Ok(RecvStep::Partial),
                    Ok(false) => r matches Ok(RecvStep::Complete(_)),
                    Err(e) => r == Err::<RecvStep, TmqError>(TmqError::Zmq(e)),
                }
                &&& settled(before, after, part, r)
            },
        }
    }
}

/// Settles a part taken into `partial`, given the answer `more` to whether
/// more parts follow: `Ok(true)` appends it, `Ok(false)` completes the
/// message and hands it out, an error keeps the part appended and is
/// returned.
pub fn settle_part(partial: &mut Multipart, part: Vec<u8>, more: Result<bool>) -> (r: Result<RecvStep>)
    ensures
        settled(old(partial)@, final(partial)@, part, r),
        match more {
            Ok(true) => r matches Ok(RecvStep::Partial),
            Ok(false) => r matches Ok(RecvStep::Complete(_)),
            Err(e) => r == Err::<RecvStep, TmqError>(e),
        },
{
    match more {
        Ok(more) => {
            match receive_part_into(partial, part, more) {
                Some(m) => Ok(RecvStep::Complete(m)),
                None => Ok(RecvStep::Partial),
            }
        },
        Err(e) => {
            partial.push_back(part);
            Err(e)
        },
    }
}

/// One step of receiving a multipart message into `partial`: when the
/// socket is ready, one part is asked for without blocking; a part taken is
/// settled by `settle_part` with ZeroMQ's answer to whether more follow.
pub fn recv_step(socket: &mut ZmqSocket, partial: &mut Multipart, read_ready: bool) -> (r: Result<RecvStep>)
    ensures
        recv_outcome(old(partial)@, final(partial)@, *old(socket), *final(socket), read_ready, r),
        (r matches Ok(RecvStep::NotReady)) <==> !read_ready,
        read_ready && last_recv(*final(socket)) is WouldBlock
            ==> (r matches Ok(RecvStep::WouldBlock)) && final(partial)@ == old(partial)@,
        read_ready && last_recv(*final(socket)) is Received ==> {
            let part = last_recv(*final(socket))->Received_0;
            &&& last_more(*final(socket)) == Ok::<bool, zmq::Error>(true)
                ==> (r matches Ok(RecvStep::Partial)) && final(partial)@ == old(partial)@.push(part)
            &&& last_more(*final(socket)) == Ok::<bool, zmq::Error>(false)
                ==> (r matches Ok(RecvStep::Complete(m)) && m@ == old(partial)@.push(part))
                    && final(partial)@.len() == 0
        },
{
    match socket.recv_message(read_ready) {
        Err(e) => Err(e),
        Ok(RecvPoll::NotReady) => Ok(RecvStep::NotReady),
        Ok(RecvPoll::WouldBlock) => Ok(RecvStep::WouldBlock),
        Ok(RecvPoll::Received(part)) => {
            let more = socket.get_rcvmore();
            settle_part(partial, part, more)
        },
    }
}

/// What flushing the queued segments came to.
#[derive(Debug, PartialEq, Eq, Structural)]
pub enum FlushProgress {
    /// Every queued segment was handed to ZeroMQ.
    Flushed,
    /// ZeroMQ would have blocked: write readiness must be cleared; the
    /// segments not sent stay queued.
    WouldBlock,
    /// The socket was not ready for writing; nothing was sent.
    NotReady,
}

/// The record of a send call that handed `seg` and ended with `a`.
pub open spec fn send_record(seg: MultipartSegment, a: SendAttempt) -> (Seq<u8>, i32, SendAttempt) {
    (seg.msg@, flags_for(seg.has_more), a)
}

/// The records of send calls that handed `segs` in order, each accepted.
pub open spec fn accepted(segs: Seq<MultipartSegment>) -> Seq<(Seq<u8>, i32, SendAttempt)> {
    Seq::new(segs.len(), |i: int| send_record(segs[i], SendAttempt::Sent))
}

/// What sending from a queue of segments `before`, leaving `after`, on a
/// socket `s0`, leaving `s1`, came to when it answered `r`: the segments are
/// handed to ZeroMQ in order, each once, with its flags; what stays queued is
/// the end of what was queued; nothing is sent when the socket is not
/// ready; sending stops at the first call that would block (that segment
/// stays queued) or fails (that segment is gone, and its error is the
/// answer).
pub open spec fn flush_outcome(
    before: Seq<MultipartSegment>,
    after: Seq<MultipartSegment>,
    s0: ZmqSocket,
    s1: ZmqSocket,
    write_ready: bool,
    r: Result<FlushProgress>,
) -> bool {
    let k = before.len() - after.len();
    &&& after.len() <= before.len()
    &&& after == before.subrange(k, before.len() as int)
    &&& s1.same_socket(&s0)
    &&& s1.recv_log() == s0.recv_log()
    &&& before.len() == 0 ==> r == Ok::<FlushProgress, TmqError>(FlushProgress::Flushed) && s1 == s0
    &&& !write_ready ==> after == before && s1 == s0
        && (before.len() > 0 ==> r == Ok::<FlushProgress, TmqError>(FlushProgress::NotReady))
    &&& write_ready ==> match r {
        Ok(FlushProgress::Flushed) => after.len() == 0 && s1.sent_log() == s0.sent_log() + accepted(before),
        Ok(FlushProgress::WouldBlock) => after.len() > 0
            && s1.sent_log() == s0.sent_log() + accepted(before.subrange(0, k)) + seq![send_record(after[0], SendAttempt::WouldBlock)],
        Ok(FlushProgress::NotReady) => false,
        Err(TmqError::Zmq(e)) => k >= 1
            && s1.sent_log() == s0.sent_log() + accepted(before.subrange(0, k - 1))
                + seq![send_record(before[k - 1], SendAttempt::Failed(e))],
    }
}

/// Sends the queued segments in order, each with its flags, until the queue
/// is empty or ZeroMQ would block. A segment that ZeroMQ refuses with an
/// error is dropped and the error returned.
pub fn flush_segments(socket: &mut ZmqSocket, queue: &mut VecDeque<MultipartSegment>, write_ready: bool) -> (r: Result<FlushProgress>)
    ensures
        flush_outcome(old(queue)@, final(queue)@, *old(socket), *final(socket), write_ready, r),
{
    let ghost q0 = queue@;
    let ghost s0 = *socket;
    while queue.len() > 0
        invariant
            q0 == old(queue)@,
            s0 == *old(socket),
            queue@.len() <= q0.len(),
            queue@ == q0.subrange(q0.len() - queue@.len(), q0.len() as int),
            socket.same_socket(&s0),
            socket.recv_log() == s0.recv_log(),
            socket.sent_log() == s0.sent_log() + accepted(q0.subrange(0, q0.len() - queue@.len())),
            !write_ready ==> queue@ == q0 && *socket == s0,
            queue@.len() == q0.len() ==> *socket == s0,
        decreases queue@.len(),
    {
        let ghost k = q0.len() - queue@.len();
        let ghost before_send = *socket;
        let seg = queue.pop_front().unwrap();
        assert(seg == q0[k]);
        let sent = socket.send_message(seg.msg.as_slice(), seg.has_more, write_ready);
        match sent {
            Ok(SendPoll::Sent) => {
                assert(accepted(q0.subrange(0, k + 1)) =~= accepted(q0.subrange(0, k)).push(send_record(seg, SendAttempt::Sent)));
                assert(queue@ =~= q0.subrange(q0.len() - queue@.len(), q0.len() as int));
            },
            Ok(SendPoll::WouldBlock) => {
                assert(last_send(*socket) is WouldBlock);
                assert(socket.sent_log() =~= s0.sent_log() + accepted(q0.subrange(0, k))
                    + seq![send_record(seg, SendAttempt::WouldBlock)]);
                queue.push_front(seg);
                assert(queue@ =~= q0.subrange(q0.len() - queue@.len(), q0.len() as int));
                assert(queue@[0] == seg);
                return Ok(FlushProgress::WouldBlock);
            },
            Ok(SendPoll::NotReady) => {
                queue.push_front(seg);
                assert(queue@ =~= q0);
                return Ok(FlushProgress::NotReady);
            },
            Err(e) => {
                let ghost a = last_send(*socket);
                assert(a matches SendAttempt::Failed(e2) && e == TmqError::Zmq(e2));
                assert(socket.sent_log() =~= s0.sent_log() + accepted(q0.subrange(0, k))
                    + seq![send_record(seg, a)]);
                assert(queue@ =~= q0.subrange(q0.len() - queue@.len(), q0.len() as int));
                return Err(e);
            },
        }
    }
    assert(q0.subrange(0, q0.len() as int) =~= q0);
    assert(socket.sent_log() == s0.sent_log() + accepted(q0));
    Ok(FlushProgress::Flushed)
}

/// A send poll on a socket that is ready never answers `NotReady`: that
/// answer is kept for a socket on which nothing was tried. A send call that
/// would block is answered `WouldBlock`, and only such a call is.
pub proof fn law_send_poll_answers(a: SendAttempt)
    ensures
        send_poll_of(a) != Ok::<SendPoll, TmqError>(SendPoll::NotReady),
        (a is WouldBlock) <==> send_poll_of(a) == Ok::<SendPoll, TmqError>(SendPoll::WouldBlock),
        (a is Sent) <==> send_poll_of(a) == Ok::<SendPoll, TmqError>(SendPoll::Sent),
        a matches SendAttempt::Failed(e) ==> send_poll_of(a) == Err::<SendPoll, TmqError>(TmqError::Zmq(e)),
{
}

/// A receive poll on a socket that is ready never answers `NotReady`: that
/// answer is kept for a socket on which nothing was tried. A receive call
/// that finds nothing is answered `WouldBlock`, and only such a call is; a
/// part received is handed out as it came.
pub proof fn law_recv_poll_answers(a: RecvAttempt)
    ensures
        !(recv_poll_of(a) matches Ok(RecvPoll::NotReady)),
        (a is WouldBlock) <==> (recv_poll_of(a) matches Ok(RecvPoll::WouldBlock)),
        a matches RecvAttempt::Received(bytes) ==> (recv_poll_of(a) matches Ok(RecvPoll::Received(b)) && b == bytes),
        a matches RecvAttempt::Failed(e) ==> recv_poll_of(a) == Err::<RecvPoll, TmqError>(TmqError::Zmq(e)),
{
}

/// A receive step answers `NotReady` exactly when the socket was not ready.
/// On a ready socket, a receive call that finds nothing answers
/// `WouldBlock` and leaves the message as it was; a part taken completes the
/// message exactly when ZeroMQ answers that no more parts follow, whatever
/// the part holds: with the answer "more" it is appended and the step is
/// `Partial`, with the answer "no more" the message, this part last, is
/// handed out and the next one starts empty.
pub proof fn law_recv_groups_by_more_answer(
    before: Seq<Vec<u8>>,
    after: Seq<Vec<u8>>,
    s0: ZmqSocket,
    s1: ZmqSocket,
    read_ready: bool,
    r: Result<RecvStep>,
)
    requires
        recv_outcome(before, after, s0, s1, read_ready, r),
    ensures
        (r matches Ok(RecvStep::NotReady)) <==> !read_ready,
        read_ready && last_recv(s1) is WouldBlock ==> (r matches Ok(RecvStep::WouldBlock)) && after == before,
        read_ready && last_recv(s1) is Received ==> {
            let part = last_recv(s1)->Received_0;
            &&& last_more(s1) == Ok::<bool, zmq::Error>(true)
                ==> (r matches Ok(RecvStep::Partial)) && after == before.push(part)
            &&& last_more(s1) == Ok::<bool, zmq::Error>(false)
                ==> (r matches Ok(RecvStep::Complete(m)) && m@ == before.push(part)) && after.len() == 0
            &&& last_more(s1) matches Err(e) ==> r == Err::<RecvStep, TmqError>(TmqError::Zmq(e))
                && after == before.push(part)
        },
{
}

/// The send calls that a flush made, in order: what `s1` records beyond
/// what `s0` had.
pub open spec fn sends_since(s0: ZmqSocket, s1: ZmqSocket) -> Seq<(Seq<u8>, i32, SendAttempt)> {
    s1.sent_log().subrange(s0.sent_log().len() as int, s1.sent_log().len() as int)
}

/// A flush only adds send calls, at most one per queued segment, and the
/// i-th call hands the i-th queued segment with the flags of that segment's
/// own more-flag: `DONTWAIT | SNDMORE` (3) when its own message has more
/// parts after it, `DONTWAIT` (1) when it is its message's last part,
/// however many segments wait behind it. Every call but the last was
/// accepted. On a ready socket with something queued, the flush never
/// answers `NotReady`, and it answers `WouldBlock` exactly when its last
/// call would have blocked.
pub proof fn law_flush_sends_each_segment_with_its_own_flag(
    before: Seq<MultipartSegment>,
    after: Seq<MultipartSegment>,
    s0: ZmqSocket,
    s1: ZmqSocket,
    write_ready: bool,
    r: Result<FlushProgress>,
)
    requires
        flush_outcome(before, after, s0, s1, write_ready, r),
    ensures
        s0.sent_log().len() <= s1.sent_log().len(),
        s1.sent_log().subrange(0, s0.sent_log().len() as int) == s0.sent_log(),
        sends_since(s0, s1).len() <= before.len(),
        forall|i: int| 0 <= i < sends_since(s0, s1).len() ==> {
            &&& (#[trigger] sends_since(s0, s1)[i]).0 == before[i].msg@
            &&& sends_since(s0, s1)[i].1 == (if before[i].has_more { 3i32 } else { 1i32 })
            &&& i + 1 < sends_since(s0, s1).len() ==> sends_since(s0, s1)[i].2 is Sent
        },
        write_ready && before.len() > 0 ==> {
            &&& sends_since(s0, s1).len() > 0
            &&& r != Ok::<FlushProgress, TmqError>(FlushProgress::NotReady)
            &&& (last_send(s1) is WouldBlock <==> r == Ok::<FlushProgress, TmqError>(FlushProgress::WouldBlock))
        },
{
    let n0 = s0.sent_log().len() as int;
    let sends = sends_since(s0, s1);
    let k = before.len() - after.len();
    if before.len() == 0 || !write_ready {
        assert(sends =~= Seq::<(Seq<u8>, i32, SendAttempt)>::empty());
        assert(s1.sent_log().subrange(0, n0) =~= s0.sent_log());
    } else {
        match r {
            Ok(FlushProgress::Flushed) => {
                assert(sends =~= accepted(before));
                assert(s1.sent_log().subrange(0, n0) =~= s0.sent_log());
            },
            Ok(FlushProgress::WouldBlock) => {
                assert(sends =~= accepted(before.subrange(0, k)) + seq![send_record(after[0], SendAttempt::WouldBlock)]);
                assert(after[0] == before[k]);
                assert(s1.sent_log().subrange(0, n0) =~= s0.sent_log());
            },
            Ok(FlushProgress::NotReady) => {},
            Err(TmqError::Zmq(e)) => {
                assert(sends =~= accepted(before.subrange(0, k - 1)) + seq![send_record(before[k - 1], SendAttempt::Failed(e))]);
                assert(s1.sent_log().subrange(0, n0) =~= s0.sent_log());
            },
        }
    }
}

/// A socket ready to be polled: the socket and the file descriptor through
/// which it signals its events, which the event loop watches.
pub struct ZmqPoller {
    socket: ZmqSocket,
    fd: i32,
}

impl ZmqPoller {
    pub closed spec fn socket(&self) -> ZmqSocket {
        self.socket
    }

    /// The file descriptor that ZeroMQ gave for the socket.
    pub closed spec fn fd_spec(&self) -> i32 {
        self.fd
    }

    /// Asks ZeroMQ for the socket's file descriptor; fails as that call does.
    pub fn from_zmq_socket(socket: ZmqSocket) -> (r: Result<ZmqPoller>)
        ensures
            r matches Ok(p) ==> p.socket().made_call(&socket, SocketCall::Fd { descriptor: Ok(p.fd_spec()) }),
    {
        let mut socket = socket;
        let fd = socket.fd()?;
        Ok(ZmqPoller { socket, fd })
    }

    /// The file descriptor to watch for the socket's events.
    pub fn fd(&self) -> (f: i32)
        ensures
            f == self.fd_spec(),
    {
        self.fd
    }

    /// The socket polled.
    pub fn get_socket(&self) -> (s: &ZmqSocket)
        ensures
            *s == self.socket(),
    {
        &self.socket
    }

    /// The socket polled, to make a call on it; the descriptor stays.
    pub fn socket_mut(&mut self) -> (s: &mut ZmqSocket)
        ensures
            *s == old(self).socket(),
            final(self).socket() == *final(s),
            final(self).fd_spec() == old(self).fd_spec(),
    {
        &mut self.socket
    }

    /// Sends from `queue` on the socket, as `flush_segments` does.
    pub fn flush(&mut self, queue: &mut VecDeque<MultipartSegment>, write_ready: bool) -> (r: Result<FlushProgress>)
        ensures
            final(self).fd_spec() == old(self).fd_spec(),
            flush_outcome(old(queue)@, final(queue)@, old(self).socket(), final(self).socket(), write_ready, r),
    {
        flush_segments(&mut self.socket, queue, write_ready)
    }

    /// Receives one part into `partial` on the socket, as `recv_step` does.
    pub fn recv(&mut self, partial: &mut Multipart, read_ready: bool) -> (r: Result<RecvStep>)
        ensures
            final(self).fd_spec() == old(self).fd_spec(),
            recv_outcome(old(partial)@, final(partial)@, old(self).socket(), final(self).socket(), read_ready, r),
    {
        recv_step(&mut self.socket, partial, read_ready)
    }
}

} // verus!

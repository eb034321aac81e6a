//! The halves that the socket types are made of: a sender that queues the
//! segments of multipart messages and flushes them, and a receiver that puts
//! received parts together.
use vstd::prelude::*;

use std::collections::VecDeque;

use crate::error::Result;
use crate::framing::{push_segments, segments_of, MultipartSegment};
use crate::message::Multipart;
use crate::poll::{flush_outcome, flush_segments, recv_outcome, recv_step, FlushProgress, RecvStep, ZmqPoller};

verus! {

/// A sink of multipart messages: the segments not yet handed to ZeroMQ.
pub struct Sender {
    poller: ZmqPoller,
    queue: VecDeque<MultipartSegment>,
}

impl Sender {
    pub closed spec fn poller(&self) -> ZmqPoller {
        self.poller
    }

    /// The segments waiting to be sent, in order.
    pub closed spec fn queued(&self) -> Seq<MultipartSegment> {
        self.queue@
    }

    /// A sender over `poller` with nothing queued.
    pub fn new(poller: ZmqPoller) -> (s: Sender)
        ensures
            s.poller() == poller,
            s.queued() == Seq::<MultipartSegment>::empty(),
    {
        Sender { poller, queue: VecDeque::new() }
    }

    /// Queues the segments of `parts` after those already queued.
    pub fn start_send(&mut self, parts: Multipart)
        ensures
            final(self).poller() == old(self).poller(),
            final(self).queued() == old(self).queued() + segments_of(parts@),
    {
        push_segments(&mut self.queue, parts);
    }

    /// Whether segments wait to be sent.
    pub fn has_queued(&self) -> (b: bool)
        ensures
            b == (self.queued().len() > 0),
    {
        self.queue.len() > 0
    }

    /// Sends the queued segments while the socket takes them.
    pub fn poll_flush(&mut self, write_ready: bool) -> (r: Result<FlushProgress>)
        ensures
            final(self).poller().fd_spec() == old(self).poller().fd_spec(),
            flush_outcome(
                old(self).queued(),
                final(self).queued(),
                old(self).poller().socket(),
                final(self).poller().socket(),
                write_ready,
                r,
            ),
    {
        self.poller.flush(&mut self.queue, write_ready)
    }

    /// The socket's poller.
    pub fn get_poller(&self) -> (p: &ZmqPoller)
        ensures
            *p == self.poller(),
    {
        &self.poller
    }
}

/// A stream of multipart messages: the parts received of the message not
/// yet complete.
pub struct Receiver {
    poller: ZmqPoller,
    partial: Multipart,
}

impl Receiver {
    pub closed spec fn poller(&self) -> ZmqPoller {
        self.poller
    }

    /// The parts received so far of the message not yet complete.
    pub closed spec fn partial(&self) -> Seq<Vec<u8>> {
        self.partial@
    }

    /// A receiver over `poller` with no part received.
    pub fn new(poller: ZmqPoller) -> (r: Receiver)
        ensures
            r.poller() == poller,
            r.partial() == Seq::<Vec<u8>>::empty(),
    {
        Receiver { poller, partial: Multipart::new() }
    }

    /// One step of receiving: one part when the socket is ready.
    pub fn poll_recv(&mut self, read_ready: bool) -> (r: Result<RecvStep>)
        ensures
            final(self).poller().fd_spec() == old(self).poller().fd_spec(),
            recv_outcome(
                old(self).partial(),
                final(self).partial(),
                old(self).poller().socket(),
                final(self).poller().socket(),
                read_ready,
                r,
            ),
    {
        self.poller.recv(&mut self.partial, read_ready)
    }

    /// The socket's poller.
    pub fn get_poller(&self) -> (p: &ZmqPoller)
        ensures
            *p == self.poller(),
    {
        &self.poller
    }

    /// The socket's poller, to make a call on its socket; the parts received
    /// stay.
    pub fn poller_mut(&mut self) -> (p: &mut ZmqPoller)
        ensures
            *p == old(self).poller(),
            final(self).poller() == *final(p),
            final(self).partial() == old(self).partial(),
    {
        &mut self.poller
    }
}

/// Both halves over one socket.
pub struct SenderReceiver {
    poller: ZmqPoller,
    queue: VecDeque<MultipartSegment>,
    partial: Multipart,
}

impl SenderReceiver {
    pub closed spec fn poller(&self) -> ZmqPoller {
        self.poller
    }

    /// The segments waiting to be sent, in order.
    pub closed spec fn queued(&self) -> Seq<MultipartSegment> {
        self.queue@
    }

    /// The parts received so far of the message not yet complete.
    pub closed spec fn partial(&self) -> Seq<Vec<u8>> {
        self.partial@
    }

    /// Both halves over `poller`, with nothing queued or received.
    pub fn new(poller: ZmqPoller) -> (s: SenderReceiver)
        ensures
            s.poller() == poller,
            s.queued() == Seq::<MultipartSegment>::empty(),
            s.partial() == Seq::<Vec<u8>>::empty(),
    {
        SenderReceiver { poller, queue: VecDeque::new(), partial: Multipart::new() }
    }

    /// Queues the segments of `parts` after those already queued.
    pub fn start_send(&mut self, parts: Multipart)
        ensures
            final(self).poller() == old(self).poller(),
            final(self).partial() == old(self).partial(),
            final(self).queued() == old(self).queued() + segments_of(parts@),
    {
        push_segments(&mut self.queue, parts);
    }

    /// Whether segments wait to be sent.
    pub fn has_queued(&self) -> (b: bool)
        ensures
            b == (self.queued().len() > 0),
    {
        self.queue.len() > 0
    }

    /// Sends the queued segments while the socket takes them.
    pub fn poll_flush(&mut self, write_ready: bool) -> (r: Result<FlushProgress>)
        ensures
            final(self).poller().fd_spec() == old(self).poller().fd_spec(),
            final(self).partial() == old(self).partial(),
            flush_outcome(
                old(self).queued(),
                final(self).queued(),
                old(self).poller().socket(),
                final(self).poller().socket(),
                write_ready,
                r,
            ),
    {
        self.poller.flush(&mut self.queue, write_ready)
    }

    /// One step of receiving: one part when the socket is ready.
    pub fn poll_recv(&mut self, read_ready: bool) -> (r: Result<RecvStep>)
        ensures
            final(self).poller().fd_spec() == old(self).poller().fd_spec(),
            final(self).queued() == old(self).queued(),
            recv_outcome(
                old(self).partial(),
                final(self).partial(),
                old(self).poller().socket(),
                final(self).poller().socket(),
                read_ready,
                r,
            ),
    {
        self.poller.recv(&mut self.partial, read_ready)
    }

    /// The socket's poller.
    pub fn get_poller(&self) -> (p: &ZmqPoller)
        ensures
            *p == self.poller(),
    {
        &self.poller
    }

    /// The socket's poller, to make a call on its socket; what is queued and
    /// received stays.
    pub fn poller_mut(&mut self) -> (p: &mut ZmqPoller)
        ensures
            *p == old(self).poller(),
            final(self).poller() == *final(p),
            final(self).queued() == old(self).queued(),
            final(self).partial() == old(self).partial(),
    {
        &mut self.poller
    }
}

} // verus!

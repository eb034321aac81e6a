//! How a multipart message is cut into the segments that are handed to a
//! socket one by one, and how received parts are put together again.
use vstd::prelude::*;

use std::collections::VecDeque;

use crate::message::Multipart;

verus! {

/// One part of a multipart message on its way to a socket, with the flag
/// that tells ZeroMQ whether more parts of the same message follow it.
pub struct MultipartSegment {
    pub msg: Vec<u8>,
    pub has_more: bool,
}

/// The segments that a multipart message is sent as: its parts in order,
/// each flagged `has_more` but the last.
pub open spec fn segments_of(parts: Seq<Vec<u8>>) -> Seq<MultipartSegment> {
    Seq::new(parts.len(), |i: int| MultipartSegment { msg: parts[i], has_more: i + 1 < parts.len() })
}

/// The segments that a sequence of multipart messages is sent as, one
/// message after the other.
pub open spec fn segments_of_all(msgs: Seq<Seq<Vec<u8>>>) -> Seq<MultipartSegment>
    decreases msgs.len(),
{
    if msgs.len() == 0 {
        Seq::empty()
    } else {
        segments_of(msgs[0]) + segments_of_all(msgs.drop_first())
    }
}

/// What receiving one part does to the message being received: the part is
/// appended to it, and when no more parts follow, the message is complete
/// and the next one starts empty.
pub open spec fn receive_part(partial: Seq<Vec<u8>>, part: Vec<u8>, more: bool) -> (Seq<Vec<u8>>, Option<Seq<Vec<u8>>>) {
    if more {
        (partial.push(part), None)
    } else {
        (Seq::empty(), Some(partial.push(part)))
    }
}

/// The part of a message left incomplete, and the messages completed, when
/// the parts of `segments` are received in order, starting from `partial`.
pub open spec fn receive_all(partial: Seq<Vec<u8>>, segments: Seq<MultipartSegment>) -> (Seq<Vec<u8>>, Seq<Seq<Vec<u8>>>)
    decreases segments.len(),
{
    if segments.len() == 0 {
        (partial, Seq::empty())
    } else {
        let step = receive_part(partial, segments[0].msg, segments[0].has_more);
        let rest = receive_all(step.0, segments.drop_first());
        match step.1 {
            Some(m) => (rest.0, seq![m] + rest.1),
            None => (rest.0, rest.1),
        }
    }
}

/// Appends the segments of `parts` to `queue`, in order.
pub fn push_segments(queue: &mut VecDeque<MultipartSegment>, parts: Multipart)
    ensures
        final(queue)@ == old(queue)@ + segments_of(parts@),
{
    let ghost ps = parts@;
    let mut v = parts.into_parts();
    let n = v.len();
    let mut tail: VecDeque<MultipartSegment> = VecDeque::new();
    // Walk from the back, so that each part is moved out of `v` as it is.
    while v.len() > 0
        invariant
            n == ps.len(),
            v.len() <= n,
            v@ == ps.subrange(0, v.len() as int),
            tail@ == segments_of(ps).subrange(v.len() as int, n as int),
        decreases v.len(),
    {
        let i = v.len() - 1;
        let msg = v.pop().unwrap();
        tail.push_front(MultipartSegment { msg, has_more: i + 1 < n });
        assert(tail@ =~= segments_of(ps).subrange(i as int, n as int));
    }
    assert(tail@ =~= segments_of(ps));
    queue.append(&mut tail);
}

/// Receives one part into the message `partial`: it returns the completed
/// message when `more` is false, as `receive_part` says.
pub fn receive_part_into(partial: &mut Multipart, part: Vec<u8>, more: bool) -> (done: Option<Multipart>)
    ensures
        final(partial)@ == receive_part(old(partial)@, part, more).0,
        match done {
            Some(m) => receive_part(old(partial)@, part, more).1 == Some(m@),
            None => receive_part(old(partial)@, part, more).1.is_none(),
        },
{
    partial.push_back(part);
    if more {
        None
    } else {
        Some(partial.take())
    }
}

proof fn lemma_receive_suffix(parts: Seq<Vec<u8>>, partial: Seq<Vec<u8>>, k: int)
    requires
        0 <= k < parts.len(),
    ensures
        receive_all(partial, segments_of(parts).subrange(k, parts.len() as int))
            == (Seq::<Vec<u8>>::empty(), seq![partial + parts.subrange(k, parts.len() as int)]),
    decreases parts.len() - k,
{
    let n = parts.len() as int;
    let segs = segments_of(parts).subrange(k, n);
    assert(segs[0].msg == parts[k]);
    assert(segs[0].has_more == (k + 1 < n));
    if k + 1 == n {
        let m = partial.push(parts[k]);
        assert(segs.drop_first() =~= Seq::<MultipartSegment>::empty());
        assert(receive_all(Seq::<Vec<u8>>::empty(), segs.drop_first())
            == (Seq::<Vec<u8>>::empty(), Seq::<Seq<Vec<u8>>>::empty()));
        assert(m =~= partial + parts.subrange(k, n));
        assert(seq![m] + Seq::<Seq<Vec<u8>>>::empty() =~= seq![m]);
    } else {
        lemma_receive_suffix(parts, partial.push(parts[k]), k + 1);
        assert(segs.drop_first() =~= segments_of(parts).subrange(k + 1, n));
        assert(partial.push(parts[k]) + parts.subrange(k + 1, n) =~= partial + parts.subrange(k, n));
    }
}

/// A multipart message with at least one part, cut into segments and
/// received part by part, comes out whole and alone, and nothing is left
/// incomplete after it.
pub proof fn lemma_receive_framed(parts: Seq<Vec<u8>>)
    requires
        parts.len() > 0,
    ensures
        receive_all(Seq::empty(), segments_of(parts)) == (Seq::<Vec<u8>>::empty(), seq![parts]),
{
    lemma_receive_suffix(parts, Seq::empty(), 0);
    assert(segments_of(parts).subrange(0, parts.len() as int) =~= segments_of(parts));
    assert(Seq::<Vec<u8>>::empty() + parts.subrange(0, parts.len() as int) =~= parts);
}

/// Receiving two runs of segments one after the other completes the messages
/// of the first run and then those of the second.
pub proof fn lemma_receive_concat(partial: Seq<Vec<u8>>, a: Seq<MultipartSegment>, b: Seq<MultipartSegment>)
    ensures
        receive_all(partial, a + b) == (
            receive_all(receive_all(partial, a).0, b).0,
            receive_all(partial, a).1 + receive_all(receive_all(partial, a).0, b).1,
        ),
    decreases a.len(),
{
    if a.len() == 0 {
        assert(a + b =~= b);
        assert(receive_all(partial, a).1 + receive_all(partial, b).1 =~= receive_all(partial, b).1);
    } else {
        let step = receive_part(partial, a[0].msg, a[0].has_more);
        assert((a + b).drop_first() =~= a.drop_first() + b);
        lemma_receive_concat(step.0, a.drop_first(), b);
        match step.1 {
            Some(m) => {
                let r1 = receive_all(step.0, a.drop_first());
                let r2 = receive_all(r1.0, b);
                assert(seq![m] + (r1.1 + r2.1) =~= (seq![m] + r1.1) + r2.1);
            },
            None => {},
        }
    }
}

/// Queuing one more message after a sequence of messages queues its
/// segments after theirs.
pub proof fn lemma_segments_of_all_push(msgs: Seq<Seq<Vec<u8>>>, m: Seq<Vec<u8>>)
    ensures
        segments_of_all(msgs.push(m)) == segments_of_all(msgs) + segments_of(m),
    decreases msgs.len(),
{
    if msgs.len() == 0 {
        assert(msgs.push(m).drop_first() =~= Seq::<Seq<Vec<u8>>>::empty());
        assert(segments_of_all(Seq::<Seq<Vec<u8>>>::empty()) =~= Seq::<MultipartSegment>::empty());
        assert(segments_of(m) + Seq::<MultipartSegment>::empty() =~= segments_of(m));
        assert(Seq::<MultipartSegment>::empty() + segments_of(m) =~= segments_of(m));
    } else {
        assert(msgs.push(m).drop_first() =~= msgs.drop_first().push(m));
        lemma_segments_of_all_push(msgs.drop_first(), m);
        assert(segments_of(msgs[0]) + (segments_of_all(msgs.drop_first()) + segments_of(m))
            =~= (segments_of(msgs[0]) + segments_of_all(msgs.drop_first())) + segments_of(m));
    }
}

/// A stream of multipart messages, each with at least one part, sent as
/// segments one message after the other, is received as the same messages in
/// the same order, with nothing left incomplete.
pub proof fn lemma_receive_stream(msgs: Seq<Seq<Vec<u8>>>)
    requires
        forall|i: int| 0 <= i < msgs.len() ==> #[trigger] msgs[i].len() > 0,
    ensures
        receive_all(Seq::empty(), segments_of_all(msgs)) == (Seq::<Vec<u8>>::empty(), msgs),
    decreases msgs.len(),
{
    if msgs.len() == 0 {
        assert(segments_of_all(msgs) =~= Seq::<MultipartSegment>::empty());
    } else {
        assert(msgs[0].len() > 0);
        lemma_receive_framed(msgs[0]);
        let rest = msgs.drop_first();
        assert forall|i: int| 0 <= i < rest.len() implies #[trigger] rest[i].len() > 0 by {
            assert(rest[i] == msgs[i + 1]);
        }
        lemma_receive_stream(rest);
        lemma_receive_concat(Seq::empty(), segments_of(msgs[0]), segments_of_all(rest));
        assert(seq![msgs[0]] + rest =~= msgs);
    }
}

} // verus!

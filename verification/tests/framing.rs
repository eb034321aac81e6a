use std::collections::VecDeque;

use tmq::framing::{push_segments, receive_part_into, MultipartSegment};
use tmq::Multipart;

fn parts(items: &[&[u8]]) -> Vec<Vec<u8>> {
    items.iter().map(|p| p.to_vec()).collect()
}

fn flags(queue: &VecDeque<MultipartSegment>) -> Vec<bool> {
    queue.iter().map(|s| s.has_more).collect()
}

#[test]
fn multipart_keeps_parts_in_order() {
    let mut m = Multipart::from_parts(parts(&[b"a", b"b"]));
    m.push_back(b"c".to_vec());
    assert_eq!(m.len(), 3);
    assert!(!m.is_empty());
    assert_eq!(m.into_parts(), parts(&[b"a", b"b", b"c"]));
}

#[test]
fn multipart_take_leaves_it_empty() {
    let mut m = Multipart::from_parts(parts(&[b"x"]));
    let taken = m.take();
    assert!(m.is_empty());
    assert!(Multipart::new().is_empty());
    assert_eq!(taken.into_parts(), parts(&[b"x"]));
}

#[test]
fn segments_flag_all_but_the_last_part() {
    let mut queue = VecDeque::new();
    push_segments(&mut queue, Multipart::from_parts(parts(&[b"one", b"two", b"three"])));
    assert_eq!(flags(&queue), vec![true, true, false]);
    let msgs: Vec<Vec<u8>> = queue.iter().map(|s| s.msg.clone()).collect();
    assert_eq!(msgs, parts(&[b"one", b"two", b"three"]));
}

#[test]
fn single_part_is_sent_without_more() {
    let mut queue = VecDeque::new();
    push_segments(&mut queue, Multipart::from_parts(parts(&[b"only"])));
    assert_eq!(flags(&queue), vec![false]);
}

#[test]
fn empty_multipart_queues_nothing() {
    let mut queue = VecDeque::new();
    push_segments(&mut queue, Multipart::new());
    assert!(queue.is_empty());
}

#[test]
fn segments_go_after_those_queued() {
    let mut queue = VecDeque::new();
    push_segments(&mut queue, Multipart::from_parts(parts(&[b"a", b"b"])));
    push_segments(&mut queue, Multipart::from_parts(parts(&[b"c"])));
    assert_eq!(flags(&queue), vec![true, false, false]);
    let msgs: Vec<Vec<u8>> = queue.iter().map(|s| s.msg.clone()).collect();
    assert_eq!(msgs, parts(&[b"a", b"b", b"c"]));
}

#[test]
fn receiving_a_part_with_more_keeps_it() {
    let mut partial = Multipart::new();
    assert!(receive_part_into(&mut partial, b"a".to_vec(), true).is_none());
    assert_eq!(partial.len(), 1);
    let done = receive_part_into(&mut partial, b"b".to_vec(), false).unwrap();
    assert!(partial.is_empty());
    assert_eq!(done.into_parts(), parts(&[b"a", b"b"]));
}

fn receive_all(queue: VecDeque<MultipartSegment>) -> (Multipart, Vec<Vec<Vec<u8>>>) {
    let mut partial = Multipart::new();
    let mut done = Vec::new();
    for seg in queue {
        if let Some(m) = receive_part_into(&mut partial, seg.msg, seg.has_more) {
            done.push(m.into_parts());
        }
    }
    (partial, done)
}

#[test]
fn framed_message_is_received_whole() {
    let mut queue = VecDeque::new();
    push_segments(&mut queue, Multipart::from_parts(parts(&[b"h", b"e", b"y"])));
    let (partial, done) = receive_all(queue);
    assert!(partial.is_empty());
    assert_eq!(done, vec![parts(&[b"h", b"e", b"y"])]);
}

#[test]
fn framed_stream_is_received_in_order() {
    let mut queue = VecDeque::new();
    push_segments(&mut queue, Multipart::from_parts(parts(&[b"1", b"2"])));
    push_segments(&mut queue, Multipart::from_parts(parts(&[b"3"])));
    push_segments(&mut queue, Multipart::from_parts(parts(&[b"4", b"5", b"6"])));
    let (partial, done) = receive_all(queue);
    assert!(partial.is_empty());
    assert_eq!(done, vec![parts(&[b"1", b"2"]), parts(&[b"3"]), parts(&[b"4", b"5", b"6"])]);
}

#[test]
fn empty_multipart_is_not_received() {
    let mut queue = VecDeque::new();
    push_segments(&mut queue, Multipart::new());
    push_segments(&mut queue, Multipart::from_parts(parts(&[b"z"])));
    let (_, done) = receive_all(queue);
    assert_eq!(done, vec![parts(&[b"z"])]);
}

//! The frames in which payloads travel between the processes.
//!
//! A frame is the byte of its topic, the length of its payload as four
//! little-endian bytes, and the payload. A topic takes payloads up to a
//! limit; a payload beyond it is not framed.

use vstd::bytes::lemma_auto_spec_u32_to_from_le_bytes;
use vstd::prelude::*;
use crate::common::text::extend_bytes;
use crate::common::wire::{
    group_take_put, put_u32, put_u8, read_u32, read_u8, tail, take_u32, take_u8, write_u32,
    write_u8,
};

verus! {

/// The topic of the signals, in the wire format of signals.
pub const SIGNALS: u8 = 0x53;

/// The topic of the trading events, in the wire format of event messages.
pub const EVENTS: u8 = 0x45;

/// The topic of the signals that ask for an order.
pub const REQUESTS: u8 = 0x51;

/// The topic of the orders that the processor made.
pub const ORDERS: u8 = 0x4F;

/// The topic of the execution reports.
pub const REPORTS: u8 = 0x52;

/// The topic of the commands for the engine.
pub const COMMANDS: u8 = 0x43;

/// The topic of the results of the engine.
pub const RESULTS: u8 = 0x58;

/// The length of the head of a frame.
pub const HEAD_LEN: usize = 5;

/// The largest payload of a signal.
pub const SIGNAL_LIMIT: usize = 1024;

/// The largest payload of anything else.
pub const EVENT_LIMIT: usize = 4096;

/// The largest payload that a topic takes.
pub open spec fn limit_of_spec(topic: u8) -> usize {
    if topic == SIGNALS {
        SIGNAL_LIMIT
    } else {
        EVENT_LIMIT
    }
}

/// The frame of a payload on a topic.
pub open spec fn frame_of(topic: u8, payload: Seq<u8>) -> Seq<u8> {
    put_u8(topic, put_u32(payload.len() as u32, payload))
}

/// What the head of a frame says: the topic, and how many bytes of
/// payload follow. A head is five bytes, no more and no less.
pub open spec fn head_of(head: Seq<u8>) -> Option<(u8, usize)> {
    match take_u8(head) {
        Ok((topic, rest)) => match take_u32(rest) {
            Ok((length, left)) => if left.len() == 0 {
                Some((topic, length as usize))
            } else {
                None
            },
            Err(_) => None,
        },
        Err(_) => None,
    }
}

/// A frame is its head and its payload: the head names the topic and the
/// length of the payload, and the payload follows the head as it is.
pub proof fn lemma_frame_is_head_and_payload(topic: u8, payload: Seq<u8>)
    requires
        payload.len() <= u32::MAX,
    ensures
        frame_of(topic, payload).len() == HEAD_LEN + payload.len(),
        head_of(frame_of(topic, payload).subrange(0, HEAD_LEN as int)) == Some((topic, payload.len() as usize)),
        frame_of(topic, payload).skip(HEAD_LEN as int) == payload,
{
    broadcast use group_take_put;

    let length = payload.len() as u32;
    let head = put_u8(topic, put_u32(length, Seq::empty()));
    assert(head.len() == HEAD_LEN && frame_of(topic, payload) =~= head + payload) by {
        reveal(put_u8);
        reveal(put_u32);
        lemma_auto_spec_u32_to_from_le_bytes();
    }
    assert(frame_of(topic, payload).subrange(0, HEAD_LEN as int) =~= head);
    assert(frame_of(topic, payload).skip(HEAD_LEN as int) =~= payload);
}

/// The largest payload that a topic takes.
pub fn limit_of(topic: u8) -> (r: usize)
    ensures
        r == limit_of_spec(topic),
{
    if topic == SIGNALS {
        SIGNAL_LIMIT
    } else {
        EVENT_LIMIT
    }
}

/// The frame of a payload on a topic; none for a payload beyond the limit
/// of the topic.
pub fn frame(topic: u8, payload: &Vec<u8>) -> (r: Option<Vec<u8>>)
    ensures
        match r {
            Some(bytes) => payload@.len() <= limit_of_spec(topic) && bytes@ == frame_of(topic, payload@),
            None => payload@.len() > limit_of_spec(topic),
        },
{
    if payload.len() > limit_of(topic) {
        return None;
    }
    let length: u32 = payload.len() as u32;
    let mut buf: Vec<u8> = Vec::new();
    write_u8(&mut buf, topic);
    let ghost with_topic = buf@;
    write_u32(&mut buf, length);
    let ghost with_length = buf@;
    extend_bytes(&mut buf, payload);
    proof {
        assert(with_length + payload@ == with_topic + put_u32(length, payload@));
        let tail_of_frame = put_u32(length, payload@);
        assert(with_topic + tail_of_frame == Seq::<u8>::empty() + put_u8(topic, tail_of_frame));
        assert(Seq::<u8>::empty() + put_u8(topic, tail_of_frame) =~= put_u8(topic, tail_of_frame));
    }
    Some(buf)
}

/// What the head of a frame says.
pub fn read_head(head: &[u8]) -> (r: Option<(u8, usize)>)
    ensures
        r == head_of(head@),
{
    proof {
        assert(tail(head@, 0) =~= head@);
    }
    let (topic, at) = match read_u8(head, 0) {
        Ok(x) => x,
        Err(_) => {
            return None;
        },
    };
    let (length, end) = match read_u32(head, at) {
        Ok(x) => x,
        Err(_) => {
            return None;
        },
    };
    if end != head.len() {
        return None;
    }
    Some((topic, length as usize))
}

} // verus!

//! Length-prefixed framing of control messages on a byte stream: a 4-byte
//! big-endian payload length, then the payload.

use crate::codec::{append_bytes, be32, copy_from, lemma_u32_round_trip, push_u32, read_u32, u32_of};
use crate::error::{packet_error, FleetNetError};
use vstd::prelude::*;

verus! {

/// The frame of `payload`: its length in four big-endian bytes, then itself.
pub open spec fn frame_bytes(payload: Seq<u8>) -> Seq<u8> {
    be32(payload.len() as u32) + payload
}

/// The payload of a buffer that holds exactly one frame, if it does.
pub open spec fn unframe(buf: Seq<u8>) -> Option<Seq<u8>> {
    if buf.len() < 4 {
        None
    } else if u32_of(buf[0], buf[1], buf[2], buf[3]) != buf.len() - 4 {
        None
    } else {
        Some(buf.subrange(4, buf.len() as int))
    }
}

/// The payload length announced by a frame's 4-byte prefix.
pub fn frame_length(prefix: &[u8; 4]) -> (r: u32)
    ensures
        r == u32_of(prefix@[0], prefix@[1], prefix@[2], prefix@[3]),
{
    read_u32(prefix, 0)
}

/// Accepts an announced payload length of at most `max_len` bytes, so that a
/// hostile prefix cannot make the reader allocate without bound.
pub fn check_frame_length(length: u32, max_len: u32) -> (r: Result<usize, FleetNetError>)
    ensures
        length <= max_len ==> r == Ok::<usize, FleetNetError>(length as usize),
        length > max_len ==> r is Err && r->Err_0 is PacketError,
{
    if length > max_len {
        return Err(packet_error("Message length exceeds the allowed maximum"));
    }
    Ok(length as usize)
}

/// The frame of `payload`, built as one buffer so that it is written as one
/// unit; a packet error when the payload is longer than a 32-bit length holds.
pub fn encode_frame(payload: &[u8]) -> (r: Result<Vec<u8>, FleetNetError>)
    ensures
        payload@.len() <= u32::MAX ==> r is Ok && r->Ok_0@ == frame_bytes(payload@),
        payload@.len() > u32::MAX ==> r is Err && r->Err_0 is PacketError,
{
    if payload.len() > 0xffff_ffffusize {
        return Err(packet_error("Message too long to frame"));
    }
    let mut buf: Vec<u8> = Vec::new();
    push_u32(&mut buf, payload.len() as u32);
    append_bytes(&mut buf, payload);
    Ok(buf)
}

/// The payload of a buffer that holds exactly one frame; a packet error when
/// it is shorter than the prefix or its length disagrees with the prefix.
pub fn decode_frame(buf: &[u8]) -> (r: Result<Vec<u8>, FleetNetError>)
    ensures
        match unframe(buf@) {
            Some(p) => r is Ok && r->Ok_0@ == p,
            None => r is Err && r->Err_0 is PacketError,
        },
{
    if buf.len() < 4 {
        return Err(packet_error("Frame shorter than its length prefix"));
    }
    let length = read_u32(buf, 0);
    if length as usize != buf.len() - 4 {
        return Err(packet_error("Received message length does not match expected length"));
    }
    Ok(copy_from(buf, 4))
}

/// Framing a payload and then unframing the bytes gives the payload back.
pub proof fn lemma_frame_round_trip(payload: Seq<u8>)
    requires
        payload.len() <= u32::MAX,
    ensures
        unframe(frame_bytes(payload)) == Some(payload),
{
    let b = frame_bytes(payload);
    lemma_u32_round_trip(payload.len() as u32);
    assert(b.subrange(4, b.len() as int) =~= payload);
}

} // verus!

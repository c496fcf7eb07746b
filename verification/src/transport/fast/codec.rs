//! Length-prefixed framing for the fast binary transport.
//!
//! Wire format: `[4 bytes: payload length, big-endian u32][payload]`.
//! Payloads longer than [`MAX_FRAME_SIZE`] are refused in both directions.

use vstd::prelude::*;
use bytes::BytesMut;

use crate::protocol::error::CodecError;
use crate::protocol::types::{TaskRequest, TaskResponse};

use crate::text::{decimal, push_decimal};
use crate::transport::buffer::{
    be_u32_bytes, be_u32_value, buf_advance, buf_byte, buf_contents, buf_extend_from_slice, buf_len,
    buf_put_u32, buf_reserve, buf_split_to, lemma_be_u32_roundtrip,
};

verus! {

/// Largest payload a frame may carry (16 MiB).
pub const MAX_FRAME_SIZE: usize = 16 * 1024 * 1024;

/// Wire message for the fast binary transport.
#[non_exhaustive]
#[derive(Debug, Clone)]
pub enum FastMessage {
    /// A task for the receiving agent.
    TaskRequest(TaskRequest),
    /// The answer to a task.
    TaskResponse(TaskResponse),
    /// Liveness probe.
    Ping,
    /// Answer to a liveness probe.
    Pong,
    /// The agent failed; the text describes why.
    Error(String),
}

/// Length-prefixed frame codec.
pub struct FastCodec;

/// What the front of a receive buffer holds.
pub enum FrameSplit {
    /// Not yet a whole frame: more bytes are needed.
    Incomplete,
    /// The length field announces a payload larger than [`MAX_FRAME_SIZE`].
    TooLarge(nat),
    /// A whole frame, followed by `rest`.
    Complete { payload: Seq<u8>, rest: Seq<u8> },
}

/// The bytes of the frame that carries `payload`.
pub open spec fn frame_bytes(payload: Seq<u8>) -> Seq<u8> {
    be_u32_bytes(payload.len() as u32) + payload
}

/// How the receive buffer `buf` splits into a first frame and the rest.
pub open spec fn split_frame(buf: Seq<u8>) -> FrameSplit {
    if buf.len() < 4 {
        FrameSplit::Incomplete
    } else {
        let n = be_u32_value(buf);
        if n > MAX_FRAME_SIZE {
            FrameSplit::TooLarge(n)
        } else if buf.len() < 4 + n {
            FrameSplit::Incomplete
        } else {
            FrameSplit::Complete { payload: buf.subrange(4, 4 + n as int), rest: buf.skip(4 + n as int) }
        }
    }
}

/// Message of the error for a received length field of `n`.
pub open spec fn frame_too_large_text(n: nat) -> Seq<char> {
    "frame too large: "@ + decimal(n) + " bytes (max "@ + decimal(MAX_FRAME_SIZE as nat) + ")"@
}

/// Message of the error for an outgoing payload of `n` bytes.
pub open spec fn payload_too_large_text(n: nat) -> Seq<char> {
    "payload too large: "@ + decimal(n) + " bytes (max "@ + decimal(MAX_FRAME_SIZE as nat) + ")"@
}

fn size_error_text(lead: &str, n: usize) -> (s: String)
    ensures
        s@ == lead@ + decimal(n as nat) + " bytes (max "@ + decimal(MAX_FRAME_SIZE as nat) + ")"@,
{
    let mut s = String::from_str(lead);
    push_decimal(&mut s, n as u128);
    s.append(" bytes (max ");
    push_decimal(&mut s, MAX_FRAME_SIZE as u128);
    s.append(")");
    s
}

impl FastCodec {
    /// Takes the first whole frame off `src` and returns its payload.
    ///
    /// Returns `Ok(None)` and leaves `src` as it was while the frame is
    /// incomplete, and an `InvalidFrame` error, leaving `src` as it was,
    /// when the length field exceeds [`MAX_FRAME_SIZE`].
    pub fn decode_frame(&mut self, src: &mut BytesMut) -> (res: Result<Option<BytesMut>, CodecError>)
        ensures
            match split_frame(buf_contents(*old(src))) {
                FrameSplit::Incomplete => {
                    &&& res matches Ok(None)
                    &&& buf_contents(*final(src)) == buf_contents(*old(src))
                },
                FrameSplit::TooLarge(n) => {
                    &&& res matches Err(CodecError::InvalidFrame(msg)) && msg@ == frame_too_large_text(n)
                    &&& buf_contents(*final(src)) == buf_contents(*old(src))
                },
                FrameSplit::Complete { payload, rest } => {
                    &&& res matches Ok(Some(frame)) && buf_contents(frame) == payload
                    &&& buf_contents(*final(src)) == rest
                },
            },
    {
        let have = buf_len(src);
        if have < 4 {
            return Ok(None);
        }
        let b0 = buf_byte(src, 0);
        let b1 = buf_byte(src, 1);
        let b2 = buf_byte(src, 2);
        let b3 = buf_byte(src, 3);
        let len: usize = (b0 as usize) * 0x100_0000 + (b1 as usize) * 0x1_0000 + (b2 as usize) * 0x100
            + (b3 as usize);
        assert(len == be_u32_value(buf_contents(*src)));
        if len > MAX_FRAME_SIZE {
            return Err(CodecError::InvalidFrame(size_error_text("frame too large: ", len)));
        }
        if have < 4 + len {
            buf_reserve(src, 4 + len - have);
            return Ok(None);
        }
        let ghost before = buf_contents(*src);
        buf_advance(src, 4);
        let data = buf_split_to(src, len);
        assert(before.skip(4).take(len as int) =~= before.subrange(4, 4 + len as int));
        assert(before.skip(4).skip(len as int) =~= before.skip(4 + len as int));
        Ok(Some(data))
    }

    /// Appends the frame that carries `data` to `dst`.
    ///
    /// Refuses, with an `InvalidFrame` error and `dst` unchanged, a payload
    /// longer than [`MAX_FRAME_SIZE`].
    pub fn encode_frame(&mut self, data: &[u8], dst: &mut BytesMut) -> (res: Result<(), CodecError>)
        requires
            data@.len() <= MAX_FRAME_SIZE ==> buf_contents(*old(dst)).len() + 4 + data@.len() <= isize::MAX,
        ensures
            data@.len() > MAX_FRAME_SIZE ==> {
                &&& res matches Err(CodecError::InvalidFrame(msg)) && msg@ == payload_too_large_text(data@.len())
                &&& buf_contents(*final(dst)) == buf_contents(*old(dst))
            },
            data@.len() <= MAX_FRAME_SIZE ==> {
                &&& res is Ok
                &&& buf_contents(*final(dst)) == buf_contents(*old(dst)) + frame_bytes(data@)
            },
    {
        let n = data.len();
        if n > MAX_FRAME_SIZE {
            return Err(CodecError::InvalidFrame(size_error_text("payload too large: ", n)));
        }
        let len: u32 = n as u32;
        buf_reserve(dst, 4 + n);
        buf_put_u32(dst, len);
        buf_extend_from_slice(dst, data);
        assert(buf_contents(*dst) =~= buf_contents(*old(dst)) + frame_bytes(data@));
        Ok(())
    }
}

/// A frame read back from a buffer that starts with it yields its payload,
/// and what followed the frame stays in the buffer.
pub proof fn lemma_frame_roundtrip(payload: Seq<u8>, rest: Seq<u8>)
    requires
        payload.len() <= MAX_FRAME_SIZE,
    ensures
        split_frame(frame_bytes(payload) + rest) == (FrameSplit::Complete { payload, rest }),
{
    let n = payload.len() as u32;
    lemma_be_u32_roundtrip(n);
    let buf = frame_bytes(payload) + rest;
    assert(buf.subrange(0, 4) =~= be_u32_bytes(n));
    assert(be_u32_value(buf) == be_u32_value(be_u32_bytes(n)));
    assert(buf.subrange(4, 4 + payload.len() as int) =~= payload);
    assert(buf.skip(4 + payload.len() as int) =~= rest);
}

/// Any strict prefix of a frame is an incomplete frame: the decoder waits
/// for more bytes rather than failing or producing a payload.
pub proof fn lemma_frame_prefix_incomplete(payload: Seq<u8>, k: int)
    requires
        payload.len() <= MAX_FRAME_SIZE,
        0 <= k < frame_bytes(payload).len(),
    ensures
        split_frame(frame_bytes(payload).take(k)) == FrameSplit::Incomplete,
{
    let n = payload.len() as u32;
    lemma_be_u32_roundtrip(n);
    let buf = frame_bytes(payload).take(k);
    if k >= 4 {
        assert(buf.subrange(0, 4) =~= be_u32_bytes(n));
        assert(be_u32_value(buf) == be_u32_value(be_u32_bytes(n)));
    }
}

} // verus!

//! Framing: every message travels as a big-endian `u32` length followed by
//! that many bytes of payload, and no payload is longer than 16 MiB.

use vstd::prelude::*;
use bytes::BytesMut;

verus! {

/// The longest payload that a frame may carry, in bytes: 16 MiB.
pub const MAX_FRAME_SIZE: u32 = 16777216;

/// The number of bytes that the length in front of a payload takes.
pub const PREFIX_LEN: usize = 4;

/// The byte buffer of the `bytes` crate. Verus sees nothing inside it.
#[verifier::external_type_specification]
#[verifier::external_body]
pub struct ExBytesMut(BytesMut);

/// The bytes that a buffer holds, first to last.
pub uninterp spec fn buffered(buf: BytesMut) -> Seq<u8>;

/// The number that four bytes spell in big-endian order.
pub open spec fn be_u32(b0: u8, b1: u8, b2: u8, b3: u8) -> int {
    b0 as int * 16777216 + b1 as int * 65536 + b2 as int * 256 + b3 as int
}

/// The four bytes that spell `n` in big-endian order.
pub open spec fn be_bytes(n: u32) -> Seq<u8> {
    seq![
        (n as int / 16777216) as u8,
        (n as int / 65536 % 256) as u8,
        (n as int / 256 % 256) as u8,
        (n as int % 256) as u8,
    ]
}

/// The payload length that a buffer of at least four bytes starts with.
pub open spec fn length_prefix(buf: Seq<u8>) -> int
    recommends
        buf.len() >= 4,
{
    be_u32(buf[0], buf[1], buf[2], buf[3])
}

/// The frame that carries `payload`.
pub open spec fn frame(payload: Seq<u8>) -> Seq<u8>
    recommends
        payload.len() <= MAX_FRAME_SIZE,
{
    be_bytes(payload.len() as u32) + payload
}

/// What the front of a byte stream holds.
pub enum Decoded {
    /// Not yet a whole frame.
    NeedMore,
    /// A length above the limit. The stream is beyond use.
    TooLarge,
    /// A whole frame with this payload, and after it the rest of the stream.
    Frame { payload: Seq<u8>, rest: Seq<u8> },
}

/// Reads the front of `buf`. The length is judged as soon as its four bytes
/// are there, whatever follows them.
pub open spec fn decode_step(buf: Seq<u8>) -> Decoded {
    if buf.len() < 4 {
        Decoded::NeedMore
    } else if length_prefix(buf) > MAX_FRAME_SIZE {
        Decoded::TooLarge
    } else if buf.len() < 4 + length_prefix(buf) {
        Decoded::NeedMore
    } else {
        Decoded::Frame {
            payload: buf.subrange(4, 4 + length_prefix(buf)),
            rest: buf.skip(4 + length_prefix(buf)),
        }
    }
}

/// Why a frame could not be read or written. It ends the connection that
/// it happens on.
#[derive(Debug, Clone, Copy, PartialEq, Eq, Structural)]
pub enum CodecError {
    /// The payload has `len` bytes, more than `MAX_FRAME_SIZE`.
    FrameTooLarge { len: usize },
}

/// `BytesMut::len`: the number of bytes in the buffer.
pub assume_specification[ BytesMut::len ](buf: &BytesMut) -> (n: usize)
    ensures
        n == buffered(*buf).len(),
;

/// `BytesMut::reserve`: makes room for `additional` more bytes and leaves
/// the contents as they are. It panics when the capacity would no longer
/// fit, which the precondition rules out.
pub assume_specification[ BytesMut::reserve ](buf: &mut BytesMut, additional: usize)
    requires
        buffered(*old(buf)).len() + additional <= isize::MAX,
    ensures
        buffered(*final(buf)) == buffered(*old(buf)),
;

/// `BytesMut::split_to`: hands out the first `at` bytes as a buffer of
/// their own and keeps the rest. It panics when `at` is beyond the end.
pub assume_specification[ BytesMut::split_to ](buf: &mut BytesMut, at: usize) -> (head: BytesMut)
    requires
        at <= buffered(*old(buf)).len(),
    ensures
        buffered(head) == buffered(*old(buf)).subrange(0, at as int),
        buffered(*final(buf)) == buffered(*old(buf)).skip(at as int),
;

/// `BytesMut::extend_from_slice`: appends the bytes of `extend`, growing
/// the buffer as needed. It panics when the capacity would no longer fit.
pub assume_specification[ BytesMut::extend_from_slice ](buf: &mut BytesMut, extend: &[u8])
    requires
        buffered(*old(buf)).len() + extend@.len() <= isize::MAX,
    ensures
        buffered(*final(buf)) == buffered(*old(buf)) + extend@,
;

/// Indexing a `BytesMut`, which reads the byte at position `i` of its
/// contents and panics beyond the end.
#[verifier::external_body]
fn byte_at(buf: &BytesMut, i: usize) -> (b: u8)
    requires
        i < buffered(*buf).len(),
    ensures
        b == buffered(*buf)[i as int],
{
    buf[i]
}

/// `Buf::advance` on a `BytesMut`: drops the first `cnt` bytes. It panics
/// when there are fewer.
#[verifier::external_body]
fn advance(buf: &mut BytesMut, cnt: usize)
    requires
        cnt <= buffered(*old(buf)).len(),
    ensures
        buffered(*final(buf)) == buffered(*old(buf)).skip(cnt as int),
{
    bytes::Buf::advance(buf, cnt)
}

/// `BufMut::put_u32` on a `BytesMut`: appends the four bytes of `n` in
/// big-endian order, growing the buffer as needed.
#[verifier::external_body]
fn put_u32(buf: &mut BytesMut, n: u32)
    requires
        buffered(*old(buf)).len() + 4 <= isize::MAX,
    ensures
        buffered(*final(buf)) == buffered(*old(buf)) + be_bytes(n),
{
    bytes::BufMut::put_u32(buf, n)
}

/// Cuts a byte stream into frames and puts frames together. It keeps no
/// state between calls: all that is pending lies in the buffer.
#[derive(Debug, Clone, Copy)]
pub struct MessageCodec;

impl MessageCodec {
    /// Takes the next frame off the front of `src`, if a whole one is
    /// there, and returns its payload. With less than a whole frame it
    /// returns `None` and `src` keeps its bytes. A length above the limit
    /// is an error as soon as the length can be read; `src` keeps its bytes
    /// then too.
    pub fn decode(&mut self, src: &mut BytesMut) -> (out: Result<Option<BytesMut>, CodecError>)
        ensures
            match decode_step(buffered(*old(src))) {
                Decoded::NeedMore => {
                    &&& out matches Ok(None)
                    &&& buffered(*final(src)) == buffered(*old(src))
                },
                Decoded::TooLarge => {
                    &&& out matches Err(CodecError::FrameTooLarge { len })
                    &&& len == length_prefix(buffered(*old(src)))
                    &&& buffered(*final(src)) == buffered(*old(src))
                },
                Decoded::Frame { payload, rest } => {
                    &&& out matches Ok(Some(p))
                    &&& buffered(p) == payload
                    &&& buffered(*final(src)) == rest
                },
            },
    {
        if src.len() < PREFIX_LEN {
            return Ok(None);
        }
        let len: usize = read_be_u32(byte_at(src, 0), byte_at(src, 1), byte_at(src, 2), byte_at(src, 3))
            as usize;
        if len > MAX_FRAME_SIZE as usize {
            return Err(CodecError::FrameTooLarge { len });
        }
        if src.len() < PREFIX_LEN + len {
            src.reserve(PREFIX_LEN + len - src.len());
            return Ok(None);
        }
        advance(src, PREFIX_LEN);
        let payload = src.split_to(len);
        assert(buffered(payload) =~= buffered(*old(src)).subrange(4, 4 + len as int));
        assert(buffered(*src) =~= buffered(*old(src)).skip(4 + len as int));
        Ok(Some(payload))
    }

    /// Appends the frame that carries `payload` to `dst`. A payload above
    /// the limit is an error and leaves `dst` as it is.
    pub fn encode(&mut self, payload: &[u8], dst: &mut BytesMut) -> (out: Result<(), CodecError>)
        requires
            buffered(*old(dst)).len() + 4 + payload@.len() <= isize::MAX,
        ensures
            payload@.len() > MAX_FRAME_SIZE ==> {
                &&& out == Err::<(), CodecError>(CodecError::FrameTooLarge { len: payload@.len() as usize })
                &&& buffered(*final(dst)) == buffered(*old(dst))
            },
            payload@.len() <= MAX_FRAME_SIZE ==> {
                &&& out is Ok
                &&& buffered(*final(dst)) == buffered(*old(dst)) + frame(payload@)
            },
    {
        let len: usize = payload.len();
        if len > MAX_FRAME_SIZE as usize {
            return Err(CodecError::FrameTooLarge { len });
        }
        dst.reserve(PREFIX_LEN + len);
        put_u32(dst, len as u32);
        dst.extend_from_slice(payload);
        assert(buffered(*dst) =~= buffered(*old(dst)) + frame(payload@));
        Ok(())
    }
}

/// The number that four bytes spell in big-endian order.
fn read_be_u32(b0: u8, b1: u8, b2: u8, b3: u8) -> (n: u32)
    ensures
        n == be_u32(b0, b1, b2, b3),
{
    (b0 as u32) * 16777216 + (b1 as u32) * 65536 + (b2 as u32) * 256 + (b3 as u32)
}

} // verus!

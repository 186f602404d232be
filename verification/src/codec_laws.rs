//! What holds of the framing whatever the payloads are.

use vstd::prelude::*;
use crate::codec::{be_bytes, be_u32, decode_step, frame, length_prefix, Decoded, MAX_FRAME_SIZE};

verus! {

/// Every frame that can be taken off the front of `buf`, one after the
/// other, and the bytes that are left when no further one can.
pub open spec fn drain(buf: Seq<u8>) -> (Seq<Seq<u8>>, Seq<u8>)
    decreases buf.len(),
{
    match decode_step(buf) {
        Decoded::Frame { payload, rest } => {
            if rest.len() < buf.len() {
                (seq![payload] + drain(rest).0, drain(rest).1)
            } else {
                (Seq::empty(), buf)
            }
        },
        _ => (Seq::empty(), buf),
    }
}

/// The frames of `payloads`, one after the other.
pub open spec fn frames(payloads: Seq<Seq<u8>>) -> Seq<u8>
    decreases payloads.len(),
{
    if payloads.len() == 0 {
        Seq::empty()
    } else {
        frame(payloads[0]) + frames(payloads.skip(1))
    }
}

/// What a decoder has given out and what it still holds when it gets
/// `bytes` one byte at a time and takes off every whole frame after each.
pub open spec fn bytewise(bytes: Seq<u8>) -> (Seq<Seq<u8>>, Seq<u8>)
    decreases bytes.len(),
{
    if bytes.len() == 0 {
        (Seq::empty(), Seq::empty())
    } else {
        let before = bytewise(bytes.drop_last());
        let now = drain(before.1.push(bytes.last()));
        (before.0 + now.0, now.1)
    }
}

/// The four bytes written for a length spell that length.
pub proof fn lemma_length_round_trip(n: u32)
    ensures
        be_bytes(n).len() == 4,
        be_u32(be_bytes(n)[0], be_bytes(n)[1], be_bytes(n)[2], be_bytes(n)[3]) == n,
{
    let a = n as int / 16777216;
    let b = n as int / 65536 % 256;
    let c = n as int / 256 % 256;
    let d = n as int % 256;
    assert(0 <= a < 256 && a * 16777216 + b * 65536 + c * 256 + d == n) by (nonlinear_arith)
        requires
            0 <= n < 0x1_0000_0000,
            a == n as int / 16777216,
            b == n as int / 65536 % 256,
            c == n as int / 256 % 256,
            d == n as int % 256,
    ;
}

/// Decoding gives back what was encoded: a buffer that starts with the
/// frame of `payload` yields exactly `payload` and keeps exactly what
/// followed the frame.
pub proof fn lemma_round_trip(payload: Seq<u8>, rest: Seq<u8>)
    requires
        payload.len() <= MAX_FRAME_SIZE,
    ensures
        decode_step(frame(payload) + rest) == (Decoded::Frame { payload, rest }),
{
    let n = payload.len() as u32;
    let buf = frame(payload) + rest;
    lemma_length_round_trip(n);
    assert(buf[0] == be_bytes(n)[0]);
    assert(buf[1] == be_bytes(n)[1]);
    assert(buf[2] == be_bytes(n)[2]);
    assert(buf[3] == be_bytes(n)[3]);
    assert(length_prefix(buf) == payload.len());
    assert(buf.subrange(4, 4 + payload.len() as int) =~= payload);
    assert(buf.skip(4 + payload.len() as int) =~= rest);
}

/// A frame that is there stays there, and a length above the limit stays
/// an error, whatever arrives after it.
pub proof fn lemma_more_bytes(buf: Seq<u8>, more: Seq<u8>)
    ensures
        decode_step(buf) matches Decoded::Frame { payload, rest } ==> decode_step(buf + more) == (
        Decoded::Frame { payload, rest: rest + more }),
        decode_step(buf) is TooLarge ==> decode_step(buf + more) is TooLarge,
{
    if buf.len() >= 4 {
        let all = buf + more;
        assert(all[0] == buf[0] && all[1] == buf[1] && all[2] == buf[2] && all[3] == buf[3]);
        if let Decoded::Frame { payload, rest } = decode_step(buf) {
            let n = length_prefix(buf);
            assert(all.subrange(4, 4 + n) =~= payload);
            assert(all.skip(4 + n) =~= rest + more);
        }
    }
}

/// A length above the limit is refused from its four bytes alone: what
/// the buffer holds behind them plays no part.
pub proof fn lemma_too_large_by_prefix(buf: Seq<u8>)
    requires
        buf.len() >= 4,
        length_prefix(buf) > MAX_FRAME_SIZE,
    ensures
        decode_step(buf) is TooLarge,
        decode_step(buf.take(4)) is TooLarge,
{
}

/// Frames put one after the other come out again, each with its payload
/// and in their order, and nothing is left.
pub proof fn lemma_drain_frames(payloads: Seq<Seq<u8>>)
    requires
        forall|i: int| 0 <= i < payloads.len() ==> (#[trigger] payloads[i]).len() <= MAX_FRAME_SIZE,
    ensures
        drain(frames(payloads)) == (payloads, Seq::<u8>::empty()),
    decreases payloads.len(),
{
    if payloads.len() == 0 {
        assert(drain(frames(payloads)).0 =~= payloads);
    } else {
        let tail = payloads.skip(1);
        lemma_round_trip(payloads[0], frames(tail));
        lemma_drain_frames(tail);
        assert(frames(tail).len() < frames(payloads).len());
        assert(seq![payloads[0]] + tail =~= payloads);
    }
}

/// Draining a stream in two parts gives what draining it at once gives:
/// the frames of the first part, then those found once the second part has
/// joined what the first part left.
pub proof fn lemma_drain_append(a: Seq<u8>, b: Seq<u8>)
    ensures
        drain(a + b) == (drain(a).0 + drain(drain(a).1 + b).0, drain(drain(a).1 + b).1),
    decreases a.len(),
{
    match decode_step(a) {
        Decoded::Frame { payload, rest } => {
            lemma_more_bytes(a, b);
            assert(rest.len() < a.len());
            assert((rest + b).len() < (a + b).len());
            lemma_drain_append(rest, b);
            assert(drain(a + b).0 =~= drain(a).0 + drain(drain(a).1 + b).0);
        },
        _ => {
            assert(drain(a).0 + drain(drain(a).1 + b).0 =~= drain(a + b).0);
        },
    }
}

/// Feeding a stream to the decoder one byte at a time yields the frames
/// that decoding the whole stream at once yields, and leaves the same bytes.
pub proof fn lemma_bytewise_is_drain(bytes: Seq<u8>)
    ensures
        bytewise(bytes) == drain(bytes),
    decreases bytes.len(),
{
    if bytes.len() == 0 {
        assert(drain(bytes).0 =~= Seq::<Seq<u8>>::empty());
        assert(drain(bytes).1 =~= Seq::<u8>::empty());
    } else {
        let front = bytes.drop_last();
        let last = seq![bytes.last()];
        lemma_bytewise_is_drain(front);
        lemma_drain_append(front, last);
        assert(front + last =~= bytes);
        assert(drain(front).1.push(bytes.last()) =~= drain(front).1 + last);
    }
}

/// Fed byte by byte, the frames of `payloads` come out as `payloads`.
pub proof fn lemma_bytewise_frames(payloads: Seq<Seq<u8>>)
    requires
        forall|i: int| 0 <= i < payloads.len() ==> (#[trigger] payloads[i]).len() <= MAX_FRAME_SIZE,
    ensures
        bytewise(frames(payloads)) == (payloads, Seq::<u8>::empty()),
{
    lemma_bytewise_is_drain(frames(payloads));
    lemma_drain_frames(payloads);
}

} // verus!

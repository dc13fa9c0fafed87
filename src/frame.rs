//! Framing of the reliable stream: every message travels as a 4-byte
//! big-endian length followed by that many payload bytes.

use vstd::prelude::*;

verus! {

/// Number of bytes in the length prefix of a reliable frame.
pub const PREFIX_LEN: usize = 4;

/// The four big-endian bytes of `n`.
pub open spec fn be32(n: u32) -> Seq<u8> {
    seq![(n >> 24u32) as u8, (n >> 16u32) as u8, (n >> 8u32) as u8, n as u8]
}

/// The 32-bit value that the first four bytes of `b` spell, big-endian.
pub open spec fn be32_value(b: Seq<u8>) -> u32
    recommends
        b.len() >= 4,
{
    ((b[0] as u32) << 24u32) | ((b[1] as u32) << 16u32) | ((b[2] as u32) << 8u32) | (b[3] as u32)
}

/// The bytes that carry `payload` as one reliable frame.
pub open spec fn frame_of(payload: Seq<u8>) -> Seq<u8> {
    be32(payload.len() as u32) + payload
}

/// Why a frame could not be produced.
#[derive(Debug, Clone, Copy, PartialEq, Eq)]
pub enum FrameError {
    /// The payload is longer than a 32-bit length can announce.
    TooLarge,
}

/// What the front of a receive buffer holds.
#[derive(Debug)]
pub enum FrameDecode {
    /// Not yet a whole frame: more bytes must arrive first.
    Incomplete,
    /// One whole frame: its payload and the number of bytes it took.
    Complete { payload: Vec<u8>, consumed: usize },
}

proof fn lemma_be32_round_trip(n: u32)
    ensures
        be32_value(be32(n)) == n,
        be32(n).len() == 4,
{
    let b = be32(n);
    assert(b[0] == (n >> 24u32) as u8);
    assert(b[1] == (n >> 16u32) as u8);
    assert(b[2] == (n >> 8u32) as u8);
    assert(b[3] == n as u8);
    assert((((((n >> 24u32) as u8) as u32) << 24u32) | ((((n >> 16u32) as u8) as u32) << 16u32)
        | ((((n >> 8u32) as u8) as u32) << 8u32) | ((n as u8) as u32)) == n) by (bit_vector);
}

/// The length prefix for a payload of `n` bytes.
pub fn encode_len_prefix(n: u32) -> (r: Vec<u8>)
    ensures
        r@ == be32(n),
{
    let mut r: Vec<u8> = Vec::with_capacity(PREFIX_LEN);
    r.push((n >> 24u32) as u8);
    r.push((n >> 16u32) as u8);
    r.push((n >> 8u32) as u8);
    r.push(n as u8);
    assert(r@ =~= be32(n));
    r
}

/// Reads the payload length announced by the first four bytes of `b`;
/// `None` while fewer than four bytes are there.
pub fn decode_len_prefix(b: &[u8]) -> (r: Option<u32>)
    ensures
        b@.len() < 4 ==> r is None,
        b@.len() >= 4 ==> r == Some(be32_value(b@)),
{
    if b.len() < PREFIX_LEN {
        None
    } else {
        let v: u32 = ((b[0] as u32) << 24u32) | ((b[1] as u32) << 16u32) | ((b[2] as u32) << 8u32)
            | (b[3] as u32);
        Some(v)
    }
}

/// Frames `payload` for the reliable stream: its length, then its bytes.
pub fn encode_frame(payload: &[u8]) -> (r: Result<Vec<u8>, FrameError>)
    ensures
        payload@.len() <= u32::MAX ==> r is Ok && r->Ok_0@ == frame_of(payload@),
        payload@.len() > u32::MAX ==> r == Err::<Vec<u8>, FrameError>(FrameError::TooLarge),
{
    if payload.len() > u32::MAX as usize {
        return Err(FrameError::TooLarge);
    }
    let mut out = encode_len_prefix(payload.len() as u32);
    let mut i: usize = 0;
    while i < payload.len()
        invariant
            i <= payload@.len(),
            out@ == be32(payload@.len() as u32) + payload@.subrange(0, i as int),
        decreases payload@.len() - i,
    {
        out.push(payload[i]);
        i = i + 1;
        assert(out@ =~= be32(payload@.len() as u32) + payload@.subrange(0, i as int));
    }
    assert(payload@.subrange(0, payload@.len() as int) =~= payload@);
    Ok(out)
}

/// Takes one frame off the front of `buf`, if a whole one is there.
pub fn decode_frame(buf: &[u8]) -> (r: FrameDecode)
    ensures
        buf@.len() < 4 ==> r is Incomplete,
        buf@.len() >= 4 && buf@.len() < 4 + be32_value(buf@) ==> r is Incomplete,
        buf@.len() >= 4 && buf@.len() >= 4 + be32_value(buf@) ==> (r matches FrameDecode::Complete {
            payload,
            consumed,
        } && consumed == 4 + be32_value(buf@) && payload@ == buf@.subrange(4, consumed as int)),
{
    match decode_len_prefix(buf) {
        None => FrameDecode::Incomplete,
        Some(n) => {
            let len = n as usize;
            if buf.len() - PREFIX_LEN < len {
                FrameDecode::Incomplete
            } else {
                let end = PREFIX_LEN + len;
                let mut payload: Vec<u8> = Vec::with_capacity(len);
                let mut i: usize = PREFIX_LEN;
                while i < end
                    invariant
                        PREFIX_LEN <= i <= end <= buf@.len(),
                        payload@ == buf@.subrange(4, i as int),
                    decreases end - i,
                {
                    payload.push(buf[i]);
                    i = i + 1;
                    assert(payload@ =~= buf@.subrange(4, i as int));
                }
                FrameDecode::Complete { payload, consumed: end }
            }
        }
    }
}

/// A frame read back from the front of a stream yields the payload that was
/// framed, whatever bytes follow it.
pub proof fn lemma_frame_round_trip(payload: Seq<u8>, rest: Seq<u8>)
    requires
        payload.len() <= u32::MAX,
    ensures
        (frame_of(payload) + rest).len() >= 4,
        be32_value(frame_of(payload) + rest) == payload.len(),
        (frame_of(payload) + rest).subrange(4, 4 + payload.len() as int) == payload,
{
    let n = payload.len() as u32;
    lemma_be32_round_trip(n);
    let all = frame_of(payload) + rest;
    assert(all.subrange(0, 4) =~= be32(n));
    assert(all[0] == be32(n)[0] && all[1] == be32(n)[1] && all[2] == be32(n)[2] && all[3]
        == be32(n)[3]);
    assert(all.subrange(4, 4 + payload.len() as int) =~= payload);
}

} // verus!

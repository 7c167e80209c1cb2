//! Buffer framing shared with the native proving library.
//!
//! Variable-length byte arrays cross the foreign boundary in a single
//! framing: a four-byte big-endian length followed by exactly that many
//! payload bytes. Requests are framed before they are handed to the native
//! side, and buffers the native side returns are decoded and validated here,
//! so the framing assumption lives in one place.

use vstd::prelude::*;

verus! {

/// The four bytes of `n` in big-endian order.
pub open spec fn u32_be_bytes(n: u32) -> Seq<u8> {
    seq![
        ((n >> 24) & 0xFF) as u8,
        ((n >> 16) & 0xFF) as u8,
        ((n >> 8) & 0xFF) as u8,
        (n & 0xFF) as u8,
    ]
}

/// The value of four bytes read in big-endian order.
pub open spec fn be_u32(b: Seq<u8>) -> u32
    recommends
        b.len() == 4,
{
    ((b[0] as u32) << 24) | ((b[1] as u32) << 16) | ((b[2] as u32) << 8) | (b[3] as u32)
}

/// A framed buffer: the payload's length in big-endian, then the payload.
pub open spec fn frame_spec(data: Seq<u8>) -> Seq<u8>
    recommends
        data.len() <= u32::MAX,
{
    u32_be_bytes(data.len() as u32) + data
}

/// A buffer is well framed when it carries a length prefix that matches the
/// number of payload bytes that follow it exactly.
pub open spec fn well_framed(b: Seq<u8>) -> bool {
    &&& b.len() >= 4
    &&& be_u32(b.subrange(0, 4)) == b.len() - 4
}

/// The payload of a framed buffer: everything after the length prefix.
pub open spec fn payload(b: Seq<u8>) -> Seq<u8>
    recommends
        well_framed(b),
{
    b.skip(4)
}

/// Why decoding a buffer failed.
#[derive(Clone, Copy, Debug, PartialEq, Eq, Structural)]
pub enum DecodeError {
    /// The buffer is too short to carry even the length prefix.
    Truncated,
    /// The length prefix disagrees with the number of payload bytes present.
    LengthMismatch,
}

/// Recomposing the big-endian bytes of a value yields the value back.
pub proof fn lemma_be_u32_round_trip(n: u32)
    ensures
        be_u32(u32_be_bytes(n)) == n,
{
    let b = u32_be_bytes(n);
    assert(((((n >> 24) & 0xFF) as u8 as u32) << 24) | ((((n >> 16) & 0xFF) as u8 as u32) << 16)
        | ((((n >> 8) & 0xFF) as u8 as u32) << 8) | (((n & 0xFF) as u8 as u32)) == n)
        by (bit_vector);
    assert(be_u32(b) == n);
}

/// Framing a payload always produces a well-framed buffer that decodes back
/// to the payload itself.
pub proof fn lemma_frame_round_trip(data: Seq<u8>)
    requires
        data.len() <= u32::MAX,
    ensures
        well_framed(frame_spec(data)),
        payload(frame_spec(data)) == data,
{
    let framed = frame_spec(data);
    assert(framed.subrange(0, 4) =~= u32_be_bytes(data.len() as u32));
    lemma_be_u32_round_trip(data.len() as u32);
    assert(payload(framed) =~= data);
}

/// Frames a payload for the native side: its length in four big-endian
/// bytes, then the payload bytes.
pub fn frame(data: &[u8]) -> (r: Vec<u8>)
    requires
        data@.len() <= u32::MAX,
    ensures
        r@ == frame_spec(data@),
{
    let len: u32 = data.len() as u32;
    let mut r: Vec<u8> = Vec::new();
    r.push(((len >> 24) & 0xFF) as u8);
    r.push(((len >> 16) & 0xFF) as u8);
    r.push(((len >> 8) & 0xFF) as u8);
    r.push((len & 0xFF) as u8);
    assert(r@ =~= u32_be_bytes(len));
    let mut i: usize = 0;
    while i < data.len()
        invariant
            i <= data@.len(),
            r@ == u32_be_bytes(len) + data@.subrange(0, i as int),
        decreases data@.len() - i,
    {
        r.push(data[i]);
        i = i + 1;
        assert(r@ =~= u32_be_bytes(len) + data@.subrange(0, i as int));
    }
    assert(r@ =~= frame_spec(data@));
    r
}

/// Decodes a buffer returned by the native side: validates the length
/// prefix and returns the payload. A buffer that cannot carry a prefix, or
/// whose prefix disagrees with the bytes present, is rejected rather than
/// read out of bounds.
pub fn unframe(buf: &[u8]) -> (r: Result<Vec<u8>, DecodeError>)
    ensures
        r is Ok <==> well_framed(buf@),
        r is Ok ==> r->Ok_0@ == payload(buf@),
        buf@.len() < 4 ==> r == Err::<Vec<u8>, DecodeError>(DecodeError::Truncated),
        buf@.len() >= 4 && !well_framed(buf@) ==> r == Err::<Vec<u8>, DecodeError>(
            DecodeError::LengthMismatch,
        ),
{
    if buf.len() < 4 {
        return Err(DecodeError::Truncated);
    }
    let b0: u32 = buf[0] as u32;
    let b1: u32 = buf[1] as u32;
    let b2: u32 = buf[2] as u32;
    let b3: u32 = buf[3] as u32;
    let len: u32 = (b0 << 24) | (b1 << 16) | (b2 << 8) | b3;
    assert(len == be_u32(buf@.subrange(0, 4)));
    if (len as usize) != buf.len() - 4 {
        return Err(DecodeError::LengthMismatch);
    }
    let mut out: Vec<u8> = Vec::new();
    let mut i: usize = 4;
    while i < buf.len()
        invariant
            4 <= i <= buf@.len(),
            out@ == buf@.subrange(4, i as int),
        decreases buf@.len() - i,
    {
        out.push(buf[i]);
        i = i + 1;
        assert(out@ =~= buf@.subrange(4, i as int));
    }
    assert(out@ =~= payload(buf@));
    Ok(out)
}

} // verus!

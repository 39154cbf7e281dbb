//! Field codec: big-endian integers of one, two or four bytes, decoded from
//! and encoded into byte sequences. Every multi-byte field of the protocol
//! goes through these helpers.

use vstd::prelude::*;

use crate::error::ProtocolError;

verus! {

/// The value of two bytes read big-endian.
pub open spec fn be16(b0: u8, b1: u8) -> u16 {
    ((b0 as u16) << 8) | (b1 as u16)
}

/// The value of four bytes read big-endian.
pub open spec fn be32(b0: u8, b1: u8, b2: u8, b3: u8) -> u32 {
    ((b0 as u32) << 24) | ((b1 as u32) << 16) | ((b2 as u32) << 8) | (b3 as u32)
}

/// The two bytes of a 16-bit value, big-endian.
pub open spec fn be16_bytes(v: u16) -> Seq<u8> {
    seq![(v >> 8) as u8, v as u8]
}

/// The four bytes of a 32-bit value, big-endian.
pub open spec fn be32_bytes(v: u32) -> Seq<u8> {
    seq![(v >> 24) as u8, (v >> 16) as u8, (v >> 8) as u8, v as u8]
}

/// Encoding the value of two big-endian bytes gives those bytes back.
pub proof fn lemma_be16_roundtrip(b0: u8, b1: u8)
    ensures
        be16_bytes(be16(b0, b1)) == seq![b0, b1],
{
    let v = be16(b0, b1);
    assert((v >> 8) as u8 == b0 && v as u8 == b1) by (bit_vector)
        requires
            v == ((b0 as u16) << 8) | (b1 as u16),
    ;
    assert(be16_bytes(v) =~= seq![b0, b1]);
}

/// Encoding the value of four big-endian bytes gives those bytes back.
pub proof fn lemma_be32_roundtrip(b0: u8, b1: u8, b2: u8, b3: u8)
    ensures
        be32_bytes(be32(b0, b1, b2, b3)) == seq![b0, b1, b2, b3],
{
    let v = be32(b0, b1, b2, b3);
    assert((v >> 24) as u8 == b0 && (v >> 16) as u8 == b1 && (v >> 8) as u8 == b2 && v as u8 == b3)
        by (bit_vector)
        requires
            v == ((b0 as u32) << 24) | ((b1 as u32) << 16) | ((b2 as u32) << 8) | (b3 as u32),
    ;
    assert(be32_bytes(v) =~= seq![b0, b1, b2, b3]);
}

/// Decoding the bytes of a 32-bit value gives that value back.
pub proof fn lemma_be32_bytes_roundtrip(v: u32)
    ensures
        be32(be32_bytes(v)[0], be32_bytes(v)[1], be32_bytes(v)[2], be32_bytes(v)[3]) == v,
{
    assert(be32((v >> 24) as u8, (v >> 16) as u8, (v >> 8) as u8, v as u8) == v) by (bit_vector);
}

/// The big-endian 16-bit field at `off`, or a width error when fewer than
/// two bytes are available there.
pub fn read_u16_be(buf: &[u8], off: usize) -> (r: Result<u16, ProtocolError>)
    ensures
        off + 2 <= buf@.len() ==> r == Ok::<u16, ProtocolError>(
            be16(buf@[off as int], buf@[off as int + 1]),
        ),
        off + 2 > buf@.len() ==> r == Err::<u16, ProtocolError>(ProtocolError::MalformedFieldWidth),
{
    if off < buf.len() && buf.len() - off >= 2 {
        Ok(((buf[off] as u16) << 8) | (buf[off + 1] as u16))
    } else {
        Err(ProtocolError::MalformedFieldWidth)
    }
}

/// The big-endian 32-bit field at `off`, or a width error when fewer than
/// four bytes are available there.
pub fn read_u32_be(buf: &[u8], off: usize) -> (r: Result<u32, ProtocolError>)
    ensures
        off + 4 <= buf@.len() ==> r == Ok::<u32, ProtocolError>(
            be32(buf@[off as int], buf@[off as int + 1], buf@[off as int + 2], buf@[off as int + 3]),
        ),
        off + 4 > buf@.len() ==> r == Err::<u32, ProtocolError>(ProtocolError::MalformedFieldWidth),
{
    if off < buf.len() && buf.len() - off >= 4 {
        Ok(
            ((buf[off] as u32) << 24) | ((buf[off + 1] as u32) << 16) | ((buf[off + 2] as u32) << 8)
                | (buf[off + 3] as u32),
        )
    } else {
        Err(ProtocolError::MalformedFieldWidth)
    }
}

/// Appends the two big-endian bytes of `v` to `out`.
pub fn push_u16_be(out: &mut Vec<u8>, v: u16)
    ensures
        final(out)@ == old(out)@ + be16_bytes(v),
{
    out.push((v >> 8) as u8);
    out.push(v as u8);
    assert(out@ =~= old(out)@ + be16_bytes(v));
}

/// Appends the four big-endian bytes of `v` to `out`.
pub fn push_u32_be(out: &mut Vec<u8>, v: u32)
    ensures
        final(out)@ == old(out)@ + be32_bytes(v),
{
    out.push((v >> 24) as u8);
    out.push((v >> 16) as u8);
    out.push((v >> 8) as u8);
    out.push(v as u8);
    assert(out@ =~= old(out)@ + be32_bytes(v));
}

} // verus!

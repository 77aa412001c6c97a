//! Big-endian integers on the wire.
use vstd::prelude::*;

verus! {

/// The two bytes of `v`, most significant first.
pub open spec fn be16(v: u16) -> Seq<u8> {
    seq![(v >> 8u16) as u8, (v & 0xff) as u8]
}

/// The four bytes of `v`, most significant first.
pub open spec fn be32(v: u32) -> Seq<u8> {
    seq![(v >> 24u32) as u8, ((v >> 16u32) & 0xff) as u8, ((v >> 8u32) & 0xff) as u8, (v & 0xff) as u8]
}

/// The value of two bytes, most significant first.
pub open spec fn read16(b: Seq<u8>, at: int) -> u16 {
    ((b[at] as u16) << 8u16) | (b[at + 1] as u16)
}

/// The value of four bytes, most significant first.
pub open spec fn read32(b: Seq<u8>, at: int) -> u32 {
    ((b[at] as u32) << 24u32) | ((b[at + 1] as u32) << 16u32) | ((b[at + 2] as u32) << 8u32) | (b[at
        + 3] as u32)
}

pub fn get_u16(b: &[u8], at: usize) -> (r: u16)
    requires
        at + 2 <= b@.len(),
    ensures
        r == read16(b@, at as int),
{
    ((b[at] as u16) << 8u16) | (b[at + 1] as u16)
}

pub fn get_u32(b: &[u8], at: usize) -> (r: u32)
    requires
        at + 4 <= b@.len(),
    ensures
        r == read32(b@, at as int),
{
    ((b[at] as u32) << 24u32) | ((b[at + 1] as u32) << 16u32) | ((b[at + 2] as u32) << 8u32) | (b[at
        + 3] as u32)
}

pub fn put_u16(buf: &mut Vec<u8>, v: u16)
    ensures
        final(buf)@ == old(buf)@ + be16(v),
{
    buf.push((v >> 8u16) as u8);
    buf.push((v & 0xff) as u8);
    assert(final(buf)@ =~= old(buf)@ + be16(v));
}

pub fn put_u32(buf: &mut Vec<u8>, v: u32)
    ensures
        final(buf)@ == old(buf)@ + be32(v),
{
    buf.push((v >> 24u32) as u8);
    buf.push(((v >> 16u32) & 0xff) as u8);
    buf.push(((v >> 8u32) & 0xff) as u8);
    buf.push((v & 0xff) as u8);
    assert(final(buf)@ =~= old(buf)@ + be32(v));
}

/// Reading back two written bytes gives the value.
pub proof fn lemma_be16_round_trip(v: u16, pre: Seq<u8>, post: Seq<u8>)
    ensures
        read16(pre + be16(v) + post, pre.len() as int) == v,
{
    let b = pre + be16(v) + post;
    let hi = b[pre.len() as int];
    let lo = b[pre.len() as int + 1];
    assert(hi == (v >> 8u16) as u8);
    assert(lo == (v & 0xff) as u8);
    assert(((hi as u16) << 8u16) | (lo as u16) == v) by (bit_vector)
        requires
            hi == (v >> 8u16) as u8,
            lo == (v & 0xff) as u8,
    ;
}

/// Reading back four written bytes gives the value.
pub proof fn lemma_be32_round_trip(v: u32, pre: Seq<u8>, post: Seq<u8>)
    ensures
        read32(pre + be32(v) + post, pre.len() as int) == v,
{
    let b = pre + be32(v) + post;
    let n = pre.len() as int;
    let (b0, b1, b2, b3) = (b[n], b[n + 1], b[n + 2], b[n + 3]);
    assert(b0 == (v >> 24u32) as u8);
    assert(b1 == ((v >> 16u32) & 0xff) as u8);
    assert(b2 == ((v >> 8u32) & 0xff) as u8);
    assert(b3 == (v & 0xff) as u8);
    assert(((b0 as u32) << 24u32) | ((b1 as u32) << 16u32) | ((b2 as u32) << 8u32) | (b3 as u32)
        == v) by (bit_vector)
        requires
            b0 == (v >> 24u32) as u8,
            b1 == ((v >> 16u32) & 0xff) as u8,
            b2 == ((v >> 8u32) & 0xff) as u8,
            b3 == (v & 0xff) as u8,
    ;
}

} // verus!

//! Little-endian packing of the fixed-width integers of the wire format.

use vstd::prelude::*;

verus! {

/// The two bytes of `x`, low byte first.
pub open spec fn u16_le(x: u16) -> Seq<u8> {
    seq![(x & 0xff) as u8, (x >> 8) as u8]
}

/// The four bytes of `x`, low byte first.
pub open spec fn u32_le(x: u32) -> Seq<u8> {
    seq![(x & 0xff) as u8, ((x >> 8) & 0xff) as u8, ((x >> 16) & 0xff) as u8, (x >> 24) as u8]
}

/// The integer whose little-endian bytes are `b0, b1`.
pub open spec fn u16_of_le(b0: u8, b1: u8) -> u16 {
    (b0 as u16) | ((b1 as u16) << 8)
}

/// The integer whose little-endian bytes are `b0, b1, b2, b3`.
pub open spec fn u32_of_le(b0: u8, b1: u8, b2: u8, b3: u8) -> u32 {
    (b0 as u32) | ((b1 as u32) << 8) | ((b2 as u32) << 16) | ((b3 as u32) << 24)
}

/// The integer read from the two bytes of `b` that start at `i`.
pub open spec fn u16_at(b: Seq<u8>, i: int) -> u16 {
    u16_of_le(b[i], b[i + 1])
}

/// The integer read from the four bytes of `b` that start at `i`.
pub open spec fn u32_at(b: Seq<u8>, i: int) -> u32 {
    u32_of_le(b[i], b[i + 1], b[i + 2], b[i + 3])
}

/// Reading back the two bytes of `x` gives `x`.
pub proof fn lemma_u16_le_round_trip(x: u16)
    ensures
        u16_at(u16_le(x), 0) == x,
{
    let b0 = (x & 0xff) as u8;
    let b1 = (x >> 8) as u8;
    assert(((b0 as u16) | ((b1 as u16) << 8)) == x) by (bit_vector)
        requires
            b0 == (x & 0xff) as u8,
            b1 == (x >> 8) as u8,
    ;
}

/// Reading back the four bytes of `x` gives `x`.
pub proof fn lemma_u32_le_round_trip(x: u32)
    ensures
        u32_at(u32_le(x), 0) == x,
{
    let b0 = (x & 0xff) as u8;
    let b1 = ((x >> 8) & 0xff) as u8;
    let b2 = ((x >> 16) & 0xff) as u8;
    let b3 = (x >> 24) as u8;
    assert(((b0 as u32) | ((b1 as u32) << 8) | ((b2 as u32) << 16) | ((b3 as u32) << 24)) == x)
        by (bit_vector)
        requires
            b0 == (x & 0xff) as u8,
            b1 == ((x >> 8) & 0xff) as u8,
            b2 == ((x >> 16) & 0xff) as u8,
            b3 == (x >> 24) as u8,
    ;
}

/// Appends the two bytes of `x`, low byte first.
pub fn push_u16_le(out: &mut Vec<u8>, x: u16)
    ensures
        final(out)@ == old(out)@ + u16_le(x),
{
    out.push((x & 0xff) as u8);
    out.push((x >> 8) as u8);
    assert(final(out)@ =~= old(out)@ + u16_le(x));
}

/// Appends the four bytes of `x`, low byte first.
pub fn push_u32_le(out: &mut Vec<u8>, x: u32)
    ensures
        final(out)@ == old(out)@ + u32_le(x),
{
    out.push((x & 0xff) as u8);
    out.push(((x >> 8) & 0xff) as u8);
    out.push(((x >> 16) & 0xff) as u8);
    out.push((x >> 24) as u8);
    assert(final(out)@ =~= old(out)@ + u32_le(x));
}

/// Reads the integer whose little-endian bytes start at `i`.
pub fn read_u16_le(b: &[u8], i: usize) -> (r: u16)
    requires
        i + 2 <= b@.len(),
    ensures
        r == u16_at(b@, i as int),
{
    (b[i] as u16) | ((b[i + 1] as u16) << 8)
}

/// Reads the integer whose little-endian bytes start at `i`.
pub fn read_u32_le(b: &[u8], i: usize) -> (r: u32)
    requires
        i + 4 <= b@.len(),
    ensures
        r == u32_at(b@, i as int),
{
    (b[i] as u32) | ((b[i + 1] as u32) << 8) | ((b[i + 2] as u32) << 16) | ((b[i + 3] as u32) << 24)
}

} // verus!

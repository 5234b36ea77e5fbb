//! Fixed-width big-endian integers in byte sequences.

use vstd::prelude::*;

verus! {

/// The four bytes of `x`, most significant first.
pub open spec fn be32(x: u32) -> Seq<u8> {
    seq![(x >> 24u32) as u8, (x >> 16u32) as u8, (x >> 8u32) as u8, x as u8]
}

/// The eight bytes of `x`, most significant first.
pub open spec fn be64(x: u64) -> Seq<u8> {
    be32((x >> 32u64) as u32) + be32(x as u32)
}

/// The integer whose big-endian bytes are `b[at..at + 4]`.
pub open spec fn read_be32(b: Seq<u8>, at: int) -> u32 {
    ((b[at] as u32) << 24u32) | ((b[at + 1] as u32) << 16u32) | ((b[at + 2] as u32) << 8u32)
        | (b[at + 3] as u32)
}

/// The integer whose big-endian bytes are `b[at..at + 8]`.
pub open spec fn read_be64(b: Seq<u8>, at: int) -> u64 {
    ((read_be32(b, at) as u64) << 32u64) | (read_be32(b, at + 4) as u64)
}

pub proof fn lemma_be32_round_trip(x: u32)
    ensures
        read_be32(be32(x), 0) == x,
{
    let b = be32(x);
    let (b0, b1, b2, b3) = (b[0], b[1], b[2], b[3]);
    assert(b0 == (x >> 24u32) as u8 && b1 == (x >> 16u32) as u8 && b2 == (x >> 8u32) as u8 && b3
        == x as u8);
    assert(((((x >> 24u32) as u8) as u32) << 24u32) | ((((x >> 16u32) as u8) as u32) << 16u32) | ((
    ((x >> 8u32) as u8) as u32) << 8u32) | ((x as u8) as u32) == x) by (bit_vector);
}

pub proof fn lemma_read_be32_round_trip(b: Seq<u8>, at: int)
    requires
        0 <= at,
        at + 4 <= b.len(),
    ensures
        be32(read_be32(b, at)) == b.subrange(at, at + 4),
{
    let (b0, b1, b2, b3) = (b[at], b[at + 1], b[at + 2], b[at + 3]);
    let x = read_be32(b, at);
    assert(x == ((b0 as u32) << 24u32) | ((b1 as u32) << 16u32) | ((b2 as u32) << 8u32) | (
    b3 as u32));
    assert((x >> 24u32) as u8 == b0 && (x >> 16u32) as u8 == b1 && (x >> 8u32) as u8 == b2 && x as u8
        == b3) by (bit_vector)
        requires
            x == ((b0 as u32) << 24u32) | ((b1 as u32) << 16u32) | ((b2 as u32) << 8u32) | (
            b3 as u32),
    ;
    assert(be32(x) =~= b.subrange(at, at + 4));
}

pub proof fn lemma_be64_round_trip(x: u64)
    ensures
        read_be64(be64(x), 0) == x,
{
    let hi = (x >> 32u64) as u32;
    let lo = x as u32;
    lemma_be32_round_trip(hi);
    lemma_be32_round_trip(lo);
    let b = be64(x);
    assert(b.subrange(0, 4) =~= be32(hi));
    assert(b.subrange(4, 8) =~= be32(lo));
    assert(read_be32(b, 0) == read_be32(be32(hi), 0));
    assert(read_be32(b, 4) == read_be32(be32(lo), 0));
    assert((((((x >> 32u64) as u32) as u64) << 32u64) | ((x as u32) as u64)) == x) by (bit_vector);
}

pub proof fn lemma_read_be64_round_trip(b: Seq<u8>, at: int)
    requires
        0 <= at,
        at + 8 <= b.len(),
    ensures
        be64(read_be64(b, at)) == b.subrange(at, at + 8),
{
    let hi = read_be32(b, at);
    let lo = read_be32(b, at + 4);
    let x = read_be64(b, at);
    lemma_read_be32_round_trip(b, at);
    lemma_read_be32_round_trip(b, at + 4);
    assert((x >> 32u64) as u32 == hi && x as u32 == lo) by (bit_vector)
        requires
            x == ((hi as u64) << 32u64) | (lo as u64),
    ;
    assert(be64(x) =~= b.subrange(at, at + 8));
}

/// Appends the four big-endian bytes of `x`.
pub fn push_be32(out: &mut Vec<u8>, x: u32)
    ensures
        final(out)@ == old(out)@ + be32(x),
{
    out.push((x >> 24u32) as u8);
    out.push((x >> 16u32) as u8);
    out.push((x >> 8u32) as u8);
    out.push(x as u8);
    assert(final(out)@ =~= old(out)@ + be32(x));
}

/// Appends the eight big-endian bytes of `x`.
pub fn push_be64(out: &mut Vec<u8>, x: u64)
    ensures
        final(out)@ == old(out)@ + be64(x),
{
    push_be32(out, (x >> 32u64) as u32);
    push_be32(out, x as u32);
    assert(final(out)@ =~= old(out)@ + be64(x));
}

/// Reads the big-endian integer at `b[at..at + 4]`.
pub fn get_be32(b: &[u8], at: usize) -> (r: u32)
    requires
        at + 4 <= b@.len(),
    ensures
        r == read_be32(b@, at as int),
{
    ((b[at] as u32) << 24u32) | ((b[at + 1] as u32) << 16u32) | ((b[at + 2] as u32) << 8u32) | (
    b[at + 3] as u32)
}

/// Reads the big-endian integer at `b[at..at + 8]`.
pub fn get_be64(b: &[u8], at: usize) -> (r: u64)
    requires
        at + 8 <= b@.len(),
    ensures
        r == read_be64(b@, at as int),
{
    let len = b.len();
    assert(at + 4 < len);
    ((get_be32(b, at) as u64) << 32u64) | (get_be32(b, at + 4) as u64)
}

} // verus!

//! Byte-order primitives for the wire format.
//!
//! The frame header is big-endian while every payload field is
//! little-endian; both orders therefore get spec-level readers here,
//! together with executable readers proved against them and the
//! round-trip lemmas the header encoder relies on.

use vstd::prelude::*;

verus! {

/// Value of two bytes read big-endian.
pub open spec fn spec_u16_be(b0: u8, b1: u8) -> u16 {
    (b0 as u16) << 8 | (b1 as u16)
}

/// Value of four bytes read big-endian.
pub open spec fn spec_u32_be(b0: u8, b1: u8, b2: u8, b3: u8) -> u32 {
    (b0 as u32) << 24 | (b1 as u32) << 16 | (b2 as u32) << 8 | (b3 as u32)
}

/// Value of two bytes read little-endian.
pub open spec fn spec_u16_le(b0: u8, b1: u8) -> u16 {
    (b1 as u16) << 8 | (b0 as u16)
}

/// Value of four bytes read little-endian.
pub open spec fn spec_u32_le(b0: u8, b1: u8, b2: u8, b3: u8) -> u32 {
    (b3 as u32) << 24 | (b2 as u32) << 16 | (b1 as u32) << 8 | (b0 as u32)
}

/// Value of two bytes read little-endian as a two's-complement integer.
pub open spec fn spec_i16_le(b0: u8, b1: u8) -> i16 {
    spec_u16_le(b0, b1) as i16
}

/// The four bytes of a value written big-endian.
pub open spec fn spec_u32_be_bytes(x: u32) -> Seq<u8> {
    seq![(x >> 24) as u8, (x >> 16) as u8, (x >> 8) as u8, x as u8]
}

/// The two bytes of a value written big-endian.
pub open spec fn spec_u16_be_bytes(x: u16) -> Seq<u8> {
    seq![(x >> 8) as u8, x as u8]
}

/// The four bytes of a value written little-endian.
pub open spec fn spec_u32_le_bytes(x: u32) -> Seq<u8> {
    seq![x as u8, (x >> 8) as u8, (x >> 16) as u8, (x >> 24) as u8]
}

/// The two bytes of a value written little-endian.
pub open spec fn spec_u16_le_bytes(x: u16) -> Seq<u8> {
    seq![x as u8, (x >> 8) as u8]
}

pub fn read_u16_be(b: &[u8], off: usize) -> (r: u16)
    requires
        off + 2 <= b@.len(),
    ensures
        r == spec_u16_be(b@[off as int], b@[off + 1]),
{
    // Taking the length as a usize teaches the verifier that the
    // offsets below fit in one; so in the readers that follow.
    let _n: usize = b.len();
    (b[off] as u16) << 8u16 | (b[off + 1] as u16)
}

pub fn read_u32_be(b: &[u8], off: usize) -> (r: u32)
    requires
        off + 4 <= b@.len(),
    ensures
        r == spec_u32_be(b@[off as int], b@[off + 1], b@[off + 2], b@[off + 3]),
{
    let _n: usize = b.len();
    (b[off] as u32) << 24u32 | (b[off + 1] as u32) << 16u32 | (b[off + 2] as u32) << 8u32
        | (b[off + 3] as u32)
}

pub fn read_u16_le(b: &[u8], off: usize) -> (r: u16)
    requires
        off + 2 <= b@.len(),
    ensures
        r == spec_u16_le(b@[off as int], b@[off + 1]),
{
    let _n: usize = b.len();
    (b[off + 1] as u16) << 8u16 | (b[off] as u16)
}

pub fn read_u32_le(b: &[u8], off: usize) -> (r: u32)
    requires
        off + 4 <= b@.len(),
    ensures
        r == spec_u32_le(b@[off as int], b@[off + 1], b@[off + 2], b@[off + 3]),
{
    let _n: usize = b.len();
    (b[off + 3] as u32) << 24u32 | (b[off + 2] as u32) << 16u32 | (b[off + 1] as u32) << 8u32
        | (b[off] as u32)
}

pub fn read_i16_le(b: &[u8], off: usize) -> (r: i16)
    requires
        off + 2 <= b@.len(),
    ensures
        r == spec_i16_le(b@[off as int], b@[off + 1]),
{
    let _n: usize = b.len();
    let v: u16 = (b[off + 1] as u16) << 8u16 | (b[off] as u16);
    #[verifier::truncate] (v as i16)
}

pub fn push_u32_be(v: &mut Vec<u8>, x: u32)
    ensures
        final(v)@ == old(v)@ + spec_u32_be_bytes(x),
{
    v.push((x >> 24u32) as u8);
    v.push((x >> 16u32) as u8);
    v.push((x >> 8u32) as u8);
    v.push(x as u8);
    proof {
        assert(final(v)@ =~= old(v)@ + spec_u32_be_bytes(x));
    }
}

pub fn push_u16_be(v: &mut Vec<u8>, x: u16)
    ensures
        final(v)@ == old(v)@ + spec_u16_be_bytes(x),
{
    v.push((x >> 8u16) as u8);
    v.push(x as u8);
    proof {
        assert(final(v)@ =~= old(v)@ + spec_u16_be_bytes(x));
    }
}

pub fn push_u32_le(v: &mut Vec<u8>, x: u32)
    ensures
        final(v)@ == old(v)@ + spec_u32_le_bytes(x),
{
    v.push(x as u8);
    v.push((x >> 8u32) as u8);
    v.push((x >> 16u32) as u8);
    v.push((x >> 24u32) as u8);
    proof {
        assert(final(v)@ =~= old(v)@ + spec_u32_le_bytes(x));
    }
}

pub fn push_u16_le(v: &mut Vec<u8>, x: u16)
    ensures
        final(v)@ == old(v)@ + spec_u16_le_bytes(x),
{
    v.push(x as u8);
    v.push((x >> 8u16) as u8);
    proof {
        assert(final(v)@ =~= old(v)@ + spec_u16_le_bytes(x));
    }
}

/// Reading back the four big-endian bytes of a value gives the value.
pub proof fn lemma_u32_be_round_trip(x: u32)
    ensures
        spec_u32_be((x >> 24) as u8, (x >> 16) as u8, (x >> 8) as u8, x as u8) == x,
{
    assert(((x >> 24) as u8 as u32) << 24 | ((x >> 16) as u8 as u32) << 16
        | ((x >> 8) as u8 as u32) << 8 | (x as u8 as u32) == x) by (bit_vector);
}

/// Reading back the two big-endian bytes of a value gives the value.
pub proof fn lemma_u16_be_round_trip(x: u16)
    ensures
        spec_u16_be((x >> 8) as u8, x as u8) == x,
{
    assert(((x >> 8) as u8 as u16) << 8 | (x as u8 as u16) == x) by (bit_vector);
}

} // verus!

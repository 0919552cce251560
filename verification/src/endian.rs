//! Big-endian encodings of the fixed-width integers used by the wire format.
//!
//! Each width has a spec-level encoding (integer to byte sequence) and
//! reading (byte sequence to integer), executable counterparts proved
//! against them, and a lemma that reading an encoding yields the value
//! back.

use vstd::prelude::*;
use vstd::arithmetic::div_mod::{lemma_fundamental_div_mod, lemma_div_denominator};

verus! {

/// The two-byte big-endian encoding of a 16-bit value.
pub open spec fn spec_u16_to_be_bytes(v: u16) -> Seq<u8> {
    seq![
        (v as int / 0x100) as u8,
        (v as int % 0x100) as u8,
    ]
}

/// The 16-bit value held by two big-endian bytes.
pub open spec fn spec_u16_from_be_bytes(b: Seq<u8>) -> u16
    recommends
        b.len() == 2,
{
    (b[0] as int * 0x100 + b[1] as int) as u16
}

/// Reading the big-endian encoding of a 16-bit value yields the value back.
pub proof fn lemma_u16_be_round_trip(v: u16)
    ensures
        spec_u16_from_be_bytes(spec_u16_to_be_bytes(v)) == v,
{
    lemma_fundamental_div_mod(v as int, 0x100);
}

/// Appends the big-endian encoding of `v` to `out`.
pub fn push_u16_be(out: &mut Vec<u8>, v: u16)
    ensures
        final(out)@ == old(out)@ + spec_u16_to_be_bytes(v),
{
    out.push((v / 0x100) as u8);
    out.push((v % 0x100) as u8);
    assert(out@ =~= old(out)@ + spec_u16_to_be_bytes(v));
}

/// Reads the 16-bit value held big-endian at `bytes[pos .. pos + 2]`.
pub fn read_u16_be(bytes: &[u8], pos: usize) -> (r: u16)
    requires
        pos + 2 <= bytes@.len(),
    ensures
        r == spec_u16_from_be_bytes(bytes@.subrange(pos as int, pos as int + 2)),
{
    let b0 = bytes[pos];
    let b1 = bytes[pos + 1];
    (b0 as u16) * 0x100 + (b1 as u16)
}

/// The four-byte big-endian encoding of a 32-bit value.
pub open spec fn spec_u32_to_be_bytes(v: u32) -> Seq<u8> {
    seq![
        (v as int / 0x100_0000) as u8,
        (v as int / 0x1_0000 % 0x100) as u8,
        (v as int / 0x100 % 0x100) as u8,
        (v as int % 0x100) as u8,
    ]
}

/// The 32-bit value held by four big-endian bytes.
pub open spec fn spec_u32_from_be_bytes(b: Seq<u8>) -> u32
    recommends
        b.len() == 4,
{
    (b[0] as int * 0x100_0000 + b[1] as int * 0x1_0000 + b[2] as int * 0x100 + b[3] as int) as u32
}

/// Reading the big-endian encoding of a 32-bit value yields the value back.
pub proof fn lemma_u32_be_round_trip(v: u32)
    ensures
        spec_u32_from_be_bytes(spec_u32_to_be_bytes(v)) == v,
{
    let x = v as int;
    lemma_fundamental_div_mod(x, 0x100);
    lemma_fundamental_div_mod(x / 0x100, 0x100);
    lemma_fundamental_div_mod(x / 0x1_0000, 0x100);
    lemma_div_denominator(x, 0x100, 0x100);
    lemma_div_denominator(x, 0x1_0000, 0x100);
}

/// Appends the big-endian encoding of `v` to `out`.
pub fn push_u32_be(out: &mut Vec<u8>, v: u32)
    ensures
        final(out)@ == old(out)@ + spec_u32_to_be_bytes(v),
{
    out.push((v / 0x100_0000) as u8);
    out.push((v / 0x1_0000 % 0x100) as u8);
    out.push((v / 0x100 % 0x100) as u8);
    out.push((v % 0x100) as u8);
    assert(out@ =~= old(out)@ + spec_u32_to_be_bytes(v));
}

/// Reads the 32-bit value held big-endian at `bytes[pos .. pos + 4]`.
pub fn read_u32_be(bytes: &[u8], pos: usize) -> (r: u32)
    requires
        pos + 4 <= bytes@.len(),
    ensures
        r == spec_u32_from_be_bytes(bytes@.subrange(pos as int, pos as int + 4)),
{
    let b0 = bytes[pos];
    let b1 = bytes[pos + 1];
    let b2 = bytes[pos + 2];
    let b3 = bytes[pos + 3];
    (b0 as u32) * 0x100_0000 + (b1 as u32) * 0x1_0000 + (b2 as u32) * 0x100 + (b3 as u32)
}

/// The eight-byte big-endian encoding of a 64-bit value.
pub open spec fn spec_u64_to_be_bytes(v: u64) -> Seq<u8> {
    seq![
        (v as int / 0x100_0000_0000_0000) as u8,
        (v as int / 0x1_0000_0000_0000 % 0x100) as u8,
        (v as int / 0x100_0000_0000 % 0x100) as u8,
        (v as int / 0x1_0000_0000 % 0x100) as u8,
        (v as int / 0x100_0000 % 0x100) as u8,
        (v as int / 0x1_0000 % 0x100) as u8,
        (v as int / 0x100 % 0x100) as u8,
        (v as int % 0x100) as u8,
    ]
}

/// The 64-bit value held by eight big-endian bytes.
pub open spec fn spec_u64_from_be_bytes(b: Seq<u8>) -> u64
    recommends
        b.len() == 8,
{
    (b[0] as int * 0x100_0000_0000_0000 + b[1] as int * 0x1_0000_0000_0000
        + b[2] as int * 0x100_0000_0000 + b[3] as int * 0x1_0000_0000
        + b[4] as int * 0x100_0000 + b[5] as int * 0x1_0000
        + b[6] as int * 0x100 + b[7] as int) as u64
}

/// Reading the big-endian encoding of a 64-bit value yields the value back.
pub proof fn lemma_u64_be_round_trip(v: u64)
    ensures
        spec_u64_from_be_bytes(spec_u64_to_be_bytes(v)) == v,
{
    let x = v as int;
    lemma_fundamental_div_mod(x, 0x100);
    lemma_fundamental_div_mod(x / 0x100, 0x100);
    lemma_fundamental_div_mod(x / 0x1_0000, 0x100);
    lemma_fundamental_div_mod(x / 0x100_0000, 0x100);
    lemma_fundamental_div_mod(x / 0x1_0000_0000, 0x100);
    lemma_fundamental_div_mod(x / 0x100_0000_0000, 0x100);
    lemma_fundamental_div_mod(x / 0x1_0000_0000_0000, 0x100);
    lemma_div_denominator(x, 0x100, 0x100);
    lemma_div_denominator(x, 0x1_0000, 0x100);
    lemma_div_denominator(x, 0x100_0000, 0x100);
    lemma_div_denominator(x, 0x1_0000_0000, 0x100);
    lemma_div_denominator(x, 0x100_0000_0000, 0x100);
    lemma_div_denominator(x, 0x1_0000_0000_0000, 0x100);
}

/// Appends the big-endian encoding of `v` to `out`.
pub fn push_u64_be(out: &mut Vec<u8>, v: u64)
    ensures
        final(out)@ == old(out)@ + spec_u64_to_be_bytes(v),
{
    out.push((v / 0x100_0000_0000_0000) as u8);
    out.push((v / 0x1_0000_0000_0000 % 0x100) as u8);
    out.push((v / 0x100_0000_0000 % 0x100) as u8);
    out.push((v / 0x1_0000_0000 % 0x100) as u8);
    out.push((v / 0x100_0000 % 0x100) as u8);
    out.push((v / 0x1_0000 % 0x100) as u8);
    out.push((v / 0x100 % 0x100) as u8);
    out.push((v % 0x100) as u8);
    assert(out@ =~= old(out)@ + spec_u64_to_be_bytes(v));
}

/// Reads the 64-bit value held big-endian at `bytes[pos .. pos + 8]`.
pub fn read_u64_be(bytes: &[u8], pos: usize) -> (r: u64)
    requires
        pos + 8 <= bytes@.len(),
    ensures
        r == spec_u64_from_be_bytes(bytes@.subrange(pos as int, pos as int + 8)),
{
    let b0 = bytes[pos];
    let b1 = bytes[pos + 1];
    let b2 = bytes[pos + 2];
    let b3 = bytes[pos + 3];
    let b4 = bytes[pos + 4];
    let b5 = bytes[pos + 5];
    let b6 = bytes[pos + 6];
    let b7 = bytes[pos + 7];
    (b0 as u64) * 0x100_0000_0000_0000 + (b1 as u64) * 0x1_0000_0000_0000
        + (b2 as u64) * 0x100_0000_0000 + (b3 as u64) * 0x1_0000_0000
        + (b4 as u64) * 0x100_0000 + (b5 as u64) * 0x1_0000
        + (b6 as u64) * 0x100 + (b7 as u64)
}

} // verus!

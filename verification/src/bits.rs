//! Bit-range extraction and insertion on register words.
//!
//! Every register codec in this crate is phrased over the three spec
//! functions `spec_mask*`, `spec_get_bits*` and `spec_set_bits*`; the
//! lemmas here state the algebra the codecs rely on: reading a field
//! back after writing it yields the written value (truncated to the
//! field's width), and writing one field leaves every disjoint field
//! untouched.

use vstd::prelude::*;

verus! {

/// Mask with the `width` least-significant bits set.
pub open spec fn spec_mask8(width: u8) -> u8 {
    if width < 8 {
        ((1u8 << width) - 1) as u8
    } else {
        0xFFu8
    }
}

/// Mask with the `width` least-significant bits set.
pub open spec fn spec_mask16(width: u8) -> u16 {
    if width < 16 {
        ((1u16 << width) - 1) as u16
    } else {
        0xFFFFu16
    }
}

/// Mask with the `width` least-significant bits set.
pub open spec fn spec_mask32(width: u8) -> u32 {
    if width < 32 {
        ((1u32 << width) - 1) as u32
    } else {
        0xFFFF_FFFFu32
    }
}

/// The `width`-bit field of `b` whose least-significant bit is bit `lsb`.
pub open spec fn spec_get_bits8(b: u8, lsb: u8, width: u8) -> u8 {
    (b >> lsb) & spec_mask8(width)
}

/// `b` with the `width`-bit field at `lsb` replaced by the low `width`
/// bits of `v`; every bit outside the field keeps its value.
pub open spec fn spec_set_bits8(b: u8, lsb: u8, width: u8, v: u8) -> u8 {
    (b & !(spec_mask8(width) << lsb)) | ((v & spec_mask8(width)) << lsb)
}

/// The `width`-bit field of `w` whose least-significant bit is bit `lsb`.
pub open spec fn spec_get_bits32(w: u32, lsb: u8, width: u8) -> u32 {
    (w >> lsb) & spec_mask32(width)
}

/// `w` with the `width`-bit field at `lsb` replaced by the low `width`
/// bits of `v`; every bit outside the field keeps its value.
pub open spec fn spec_set_bits32(w: u32, lsb: u8, width: u8, v: u32) -> u32 {
    (w & !(spec_mask32(width) << lsb)) | ((v & spec_mask32(width)) << lsb)
}

pub fn mask8(width: u8) -> (r: u8)
    requires
        width <= 8,
    ensures
        r == spec_mask8(width),
{
    if width < 8 {
        proof {
            assert(width < 8 ==> 1u8 << width >= 1) by (bit_vector);
        }
        (1u8 << width) - 1
    } else {
        0xFF
    }
}

pub fn get_bits8(b: u8, lsb: u8, width: u8) -> (r: u8)
    requires
        1 <= width,
        lsb + width <= 8,
    ensures
        r == spec_get_bits8(b, lsb, width),
        r <= spec_mask8(width),
{
    proof {
        lemma_get_bits8_bound(b, lsb, width);
    }
    (b >> lsb) & mask8(width)
}

pub fn set_bits8(b: u8, lsb: u8, width: u8, v: u8) -> (r: u8)
    requires
        1 <= width,
        lsb + width <= 8,
    ensures
        r == spec_set_bits8(b, lsb, width, v),
{
    let m = mask8(width);
    (b & !(m << lsb)) | ((v & m) << lsb)
}

pub fn get_bits32(w: u32, lsb: u8, width: u8) -> (r: u32)
    requires
        1 <= width,
        lsb + width <= 32,
    ensures
        r == spec_get_bits32(w, lsb, width),
        r <= spec_mask32(width),
{
    proof {
        lemma_get_bits32_bound(w, lsb, width);
        assert(width < 32 ==> 1u32 << width >= 1) by (bit_vector);
    }
    let m: u32 = if width < 32 {
        (1u32 << width) - 1
    } else {
        0xFFFF_FFFF
    };
    (w >> lsb) & m
}

pub fn set_bits32(w: u32, lsb: u8, width: u8, v: u32) -> (r: u32)
    requires
        1 <= width,
        lsb + width <= 32,
    ensures
        r == spec_set_bits32(w, lsb, width, v),
{
    proof {
        assert(width < 32 ==> 1u32 << width >= 1) by (bit_vector);
    }
    let m: u32 = if width < 32 {
        (1u32 << width) - 1
    } else {
        0xFFFF_FFFF
    };
    (w & !(m << lsb)) | ((v & m) << lsb)
}

/// The concrete value of every byte-field mask width.
pub proof fn lemma_mask8_values()
    by (bit_vector)
    ensures
        spec_mask8(0) == 0x00,
        spec_mask8(1) == 0x01,
        spec_mask8(2) == 0x03,
        spec_mask8(3) == 0x07,
        spec_mask8(4) == 0x0F,
        spec_mask8(5) == 0x1F,
        spec_mask8(6) == 0x3F,
        spec_mask8(7) == 0x7F,
        spec_mask8(8) == 0xFF,
{
}

/// The concrete value of each mask width the word-level codecs use.
pub proof fn lemma_mask16_values()
    by (bit_vector)
    ensures
        spec_mask16(0) == 0x0000,
        spec_mask16(1) == 0x0001,
        spec_mask16(2) == 0x0003,
        spec_mask16(3) == 0x0007,
        spec_mask16(7) == 0x007F,
        spec_mask16(8) == 0x00FF,
        spec_mask16(10) == 0x03FF,
        spec_mask16(16) == 0xFFFF,
{
}

/// The concrete value of each mask width the PLL coefficient word uses.
pub proof fn lemma_mask32_values()
    by (bit_vector)
    ensures
        spec_mask32(2) == 0x0000_0003,
        spec_mask32(3) == 0x0000_0007,
        spec_mask32(6) == 0x0000_003F,
        spec_mask32(9) == 0x0000_01FF,
        spec_mask32(12) == 0x0000_0FFF,
        spec_mask32(32) == 0xFFFF_FFFF,
{
}

/// An extracted field never exceeds the mask of its width.
pub proof fn lemma_get_bits8_bound(b: u8, lsb: u8, width: u8)
    by (bit_vector)
    ensures
        spec_get_bits8(b, lsb, width) <= spec_mask8(width),
{
}

/// An extracted field never exceeds the mask of its width.
pub proof fn lemma_get_bits32_bound(w: u32, lsb: u8, width: u8)
    by (bit_vector)
    ensures
        spec_get_bits32(w, lsb, width) <= spec_mask32(width),
{
}

/// Reading a field back after writing it yields the written value,
/// truncated to the field's width.
pub proof fn lemma_get_set_trunc8(b: u8, lsb: u8, width: u8, v: u8)
    by (bit_vector)
    requires
        lsb + width <= 8,
    ensures
        spec_get_bits8(spec_set_bits8(b, lsb, width, v), lsb, width) == v & spec_mask8(width),
{
}

/// Reading a field back after writing an in-range value yields it exactly.
pub proof fn lemma_get_set_same8(b: u8, lsb: u8, width: u8, v: u8)
    by (bit_vector)
    requires
        lsb + width <= 8,
        v <= spec_mask8(width),
    ensures
        spec_get_bits8(spec_set_bits8(b, lsb, width, v), lsb, width) == v,
{
}

/// Writing one field leaves any field disjoint from it unchanged.
pub proof fn lemma_set_preserves_disjoint8(
    b: u8,
    lsb: u8,
    width: u8,
    v: u8,
    lsb2: u8,
    width2: u8,
)
    by (bit_vector)
    requires
        lsb + width <= 8,
        lsb2 + width2 <= 8,
        lsb + width <= lsb2 || lsb2 + width2 <= lsb,
    ensures
        spec_get_bits8(spec_set_bits8(b, lsb, width, v), lsb2, width2) == spec_get_bits8(
            b,
            lsb2,
            width2,
        ),
{
}

/// Reading a field back after writing it yields the written value,
/// truncated to the field's width.
pub proof fn lemma_get_set_trunc32(w: u32, lsb: u8, width: u8, v: u32)
    by (bit_vector)
    requires
        lsb + width <= 32,
    ensures
        spec_get_bits32(spec_set_bits32(w, lsb, width, v), lsb, width) == v & spec_mask32(width),
{
}

/// Reading a field back after writing an in-range value yields it exactly.
pub proof fn lemma_get_set_same32(w: u32, lsb: u8, width: u8, v: u32)
    by (bit_vector)
    requires
        lsb + width <= 32,
        v <= spec_mask32(width),
    ensures
        spec_get_bits32(spec_set_bits32(w, lsb, width, v), lsb, width) == v,
{
}

/// Writing one field leaves any field disjoint from it unchanged.
pub proof fn lemma_set_preserves_disjoint32(
    w: u32,
    lsb: u8,
    width: u8,
    v: u32,
    lsb2: u8,
    width2: u8,
)
    by (bit_vector)
    requires
        lsb + width <= 32,
        lsb2 + width2 <= 32,
        lsb + width <= lsb2 || lsb2 + width2 <= lsb,
    ensures
        spec_get_bits32(spec_set_bits32(w, lsb, width, v), lsb2, width2) == spec_get_bits32(
            w,
            lsb2,
            width2,
        ),
{
}

} // verus!

//! Bit-level vocabulary for 32-bit register values.
//!
//! Register contracts throughout the crate are written with these spec
//! functions: a flag is a mask, a field is a mask placed at a bit position.

use vstd::prelude::*;
use vstd::arithmetic::power2::pow2;
use vstd::bits::{low_bits_mask, lemma_u32_low_bits_mask_is_mod, lemma_u32_pow2_no_overflow};

verus! {

/// Every bit of `m` is set in `v`.
pub open spec fn has_all(v: u32, m: u32) -> bool {
    v & m == m
}

/// No bit of `m` is set in `v`.
pub open spec fn has_none(v: u32, m: u32) -> bool {
    v & m == 0
}

/// `a` and `b` agree on every bit outside `m`.
pub open spec fn same_outside(a: u32, b: u32, m: u32) -> bool {
    a & !m == b & !m
}

/// The field of `v` that starts at bit `lo` and is `mask` wide (`mask` is a low mask).
pub open spec fn field(v: u32, lo: u32, mask: u32) -> u32 {
    (v >> lo) & mask
}

/// `v` with the field at `lo` of width `mask` replaced by `x & mask`.
pub open spec fn with_field(v: u32, lo: u32, mask: u32, x: u32) -> u32 {
    (v & !(mask << lo)) | ((x & mask) << lo)
}

/// A field mask that loses no bit when placed at `lo`.
pub open spec fn fits_at(lo: u32, mask: u32) -> bool {
    lo < 32 && (mask << lo) >> lo == mask
}

/// `v` with the field at `lo` of width `mask` replaced by `x & mask`.
pub fn set_field(v: u32, lo: u32, mask: u32, x: u32) -> (r: u32)
    requires
        fits_at(lo, mask),
    ensures
        r == with_field(v, lo, mask, x),
{
    (v & !(mask << lo)) | ((x & mask) << lo)
}

/// A change confined to the bits of `m` leaves every field outside `m` as it was.
pub proof fn lemma_field_preserved(a: u32, b: u32, m: u32, lo: u32, mask: u32)
    requires
        same_outside(a, b, m),
        fits_at(lo, mask),
        (mask << lo) & m == 0,
    ensures
        field(a, lo, mask) == field(b, lo, mask),
{
    assert((a >> lo) & mask == (b >> lo) & mask) by (bit_vector)
        requires
            a & !m == b & !m,
            lo < 32,
            (mask << lo) >> lo == mask,
            (mask << lo) & m == 0,
    ;
}

/// A field is never wider than its mask.
pub proof fn lemma_field_bound(v: u32, lo: u32, mask: u32)
    ensures
        field(v, lo, mask) <= mask,
{
    assert((v >> lo) & mask <= mask) by (bit_vector);
}

/// Masking a field in place and then shifting it down reads the field.
pub proof fn lemma_mask_shift(v: u32, lo: u32, mask: u32)
    requires
        fits_at(lo, mask),
    ensures
        (v & (mask << lo)) >> lo == field(v, lo, mask),
{
    assert((v & (mask << lo)) >> lo == (v >> lo) & mask) by (bit_vector)
        requires
            lo < 32,
            (mask << lo) >> lo == mask,
    ;
}

/// Masking with the low `n` bits (`m`) is the remainder modulo `2^n`.
pub proof fn lemma_and_low_mask(v: u32, n: nat, m: u32)
    requires
        n < 32,
        m + 1 == pow2(n),
    ensures
        (v & m) as int == v as int % (m as int + 1),
{
    lemma_u32_low_bits_mask_is_mod(v, n);
    lemma_u32_pow2_no_overflow(n);
    assert(low_bits_mask(n) == m);
}

/// The fields of the registers of this crate lose no bit at their positions.
pub proof fn lemma_fits_at_facts()
    ensures
        fits_at(0, 0x1),
        fits_at(0, 0x3),
        fits_at(1, 0x1),
        fits_at(3, 0x1),
        fits_at(3, 0x3FF),
        fits_at(4, 0x1),
        fits_at(5, 0x1FF),
        fits_at(6, 0x7),
        fits_at(8, 0x3),
        fits_at(8, 0x7),
        fits_at(8, 0xFF),
        fits_at(10, 0x3),
        fits_at(13, 0x7FFF),
        fits_at(16, 0xF),
        fits_at(16, 0x7F),
        fits_at(24, 0xFF),
        fits_at(30, 0x3),
        1u32 << 0u32 == 1,
        1u32 << 1u32 == 2,
{
    assert(
        (0x1u32 << 0u32) >> 0u32 == 0x1u32
        && (0x3u32 << 0u32) >> 0u32 == 0x3u32
        && (0x1u32 << 1u32) >> 1u32 == 0x1u32
        && (0x1u32 << 3u32) >> 3u32 == 0x1u32
        && (0x3FFu32 << 3u32) >> 3u32 == 0x3FFu32
        && (0x1u32 << 4u32) >> 4u32 == 0x1u32
        && (0x1FFu32 << 5u32) >> 5u32 == 0x1FFu32
        && (0x7u32 << 6u32) >> 6u32 == 0x7u32
        && (0x3u32 << 8u32) >> 8u32 == 0x3u32
        && (0x7u32 << 8u32) >> 8u32 == 0x7u32
        && (0xFFu32 << 8u32) >> 8u32 == 0xFFu32
        && (0x3u32 << 10u32) >> 10u32 == 0x3u32
        && (0x7FFFu32 << 13u32) >> 13u32 == 0x7FFFu32
        && (0xFu32 << 16u32) >> 16u32 == 0xFu32
        && (0x7Fu32 << 16u32) >> 16u32 == 0x7Fu32
        && (0xFFu32 << 24u32) >> 24u32 == 0xFFu32
        && (0x3u32 << 30u32) >> 30u32 == 0x3u32
        && 1u32 << 0u32 == 1
        && 1u32 << 1u32 == 2
    ) by (bit_vector);
}

/// Replacing the bits of `m` by `b` (a subset of `m`) puts `b` there and leaves every other bit alone.
pub proof fn lemma_replace_mask(v: u32, m: u32, b: u32)
    requires
        b & !m == 0,
    ensures
        ((v & !m) | b) & m == b,
        same_outside((v & !m) | b, v, m),
{
    assert(((v & !m) | b) & m == b && ((v & !m) | b) & !m == v & !m) by (bit_vector)
        requires
            b & !m == 0,
    ;
}

/// Bit `i` of `v` is set.
pub open spec fn bit_is_set(v: u32, i: u32) -> bool {
    v & (1u32 << i) != 0
}

/// Setting or clearing bit `i` changes bit `i` and no other bit.
pub proof fn lemma_bit_update(v: u32, i: u32, j: u32)
    requires
        i < 32,
        j < 32,
    ensures
        bit_is_set(v | (1u32 << i), j) == (i == j || bit_is_set(v, j)),
        bit_is_set(v & !(1u32 << i), j) == (i != j && bit_is_set(v, j)),
{
    assert(((v | (1u32 << i)) & (1u32 << j) != 0) == (i == j || v & (1u32 << j) != 0)
        && ((v & !(1u32 << i)) & (1u32 << j) != 0) == (i != j && v & (1u32 << j) != 0))
        by (bit_vector)
        requires
            i < 32,
            j < 32,
    ;
}

/// For a single-bit mask, "some bit set" and "all bits set" coincide.
pub proof fn lemma_single_bit(v: u32, i: u32)
    requires
        i < 32,
    ensures
        (v & (1u32 << i) != 0) == has_all(v, 1u32 << i),
        has_all(v, 1u32 << i) || has_none(v, 1u32 << i),
{
    assert((v & (1u32 << i) != 0) == (v & (1u32 << i) == (1u32 << i))) by (bit_vector)
        requires
            i < 32,
    ;
}

/// Reading a field back after writing it gives the written value, and no other bit moves.
pub proof fn lemma_with_field(v: u32, lo: u32, mask: u32, x: u32)
    requires
        fits_at(lo, mask),
    ensures
        field(with_field(v, lo, mask, x), lo, mask) == x & mask,
        same_outside(with_field(v, lo, mask, x), v, mask << lo),
{
    assert((((v & !(mask << lo)) | ((x & mask) << lo)) >> lo) & mask == x & mask
        && ((v & !(mask << lo)) | ((x & mask) << lo)) & !(mask << lo) == v & !(mask << lo))
        by (bit_vector)
        requires
            lo < 32,
            (mask << lo) >> lo == mask,
    ;
}

} // verus!

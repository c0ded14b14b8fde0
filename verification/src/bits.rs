//! Bit and bit-range arithmetic on raw 32- and 64-bit register values.
//!
//! Every register field of this crate is a contiguous bit range `lo..=hi`
//! inside a fixed-width value. The spec functions here give such a range its
//! mathematical meaning, the executable helpers compute it, and the public
//! lemmas state the two facts every field accessor rests on: a written field
//! reads back exactly as written, and writing a field leaves every bit
//! outside its own range unchanged.

use vstd::prelude::*;

verus! {

/// True when bit `i` of `v` is set.
pub open spec fn bit32(v: u32, i: u32) -> bool {
    v & (1u32 << i) != 0
}

/// `v` with bit `i` forced to `b` and every other bit unchanged.
pub open spec fn with_bit32(v: u32, i: u32, b: bool) -> u32 {
    if b {
        v | (1u32 << i)
    } else {
        v & !(1u32 << i)
    }
}

/// The mask that covers bits `lo..=hi` of a 32-bit value.
pub open spec fn mask32(lo: u32, hi: u32) -> u32 {
    (((1u64 << ((hi + 1 - lo) as u32)) - 1) as u32) << lo
}

/// Bits `lo..=hi` of `v`, shifted down so the field starts at bit zero.
pub open spec fn field32(v: u32, lo: u32, hi: u32) -> u32 {
    (v & mask32(lo, hi)) >> lo
}

/// `v` with bits `lo..=hi` replaced by the low bits of `f`; all other bits
/// keep their value.
pub open spec fn with_field32(v: u32, lo: u32, hi: u32, f: u32) -> u32 {
    (v & !mask32(lo, hi)) | ((f << lo) & mask32(lo, hi))
}

/// `f` is representable in the field `lo..=hi`.
pub open spec fn fits32(f: u32, lo: u32, hi: u32) -> bool {
    f < (1u64 << ((hi + 1 - lo) as u32))
}

/// The mask that covers bits `lo..=hi` of a 64-bit value.
pub open spec fn mask64(lo: u64, hi: u64) -> u64 {
    if hi - lo == 63 {
        0xFFFF_FFFF_FFFF_FFFFu64
    } else {
        (((1u64 << ((hi + 1 - lo) as u64)) - 1) as u64) << lo
    }
}

/// Bits `lo..=hi` of `v`, shifted down so the field starts at bit zero.
pub open spec fn field64(v: u64, lo: u64, hi: u64) -> u64 {
    (v & mask64(lo, hi)) >> lo
}

/// `v` with bits `lo..=hi` replaced by the low bits of `f`; all other bits
/// keep their value.
pub open spec fn with_field64(v: u64, lo: u64, hi: u64, f: u64) -> u64 {
    (v & !mask64(lo, hi)) | ((f << lo) & mask64(lo, hi))
}

/// Reads bit `i` of `v`.
pub fn read_bit32(v: u32, i: u32) -> (b: bool)
    requires
        i < 32,
    ensures
        b == bit32(v, i),
{
    v & (1u32 << i) != 0
}

/// Returns `v` with bit `i` forced to `b`.
pub fn write_bit32(v: u32, i: u32, b: bool) -> (r: u32)
    requires
        i < 32,
    ensures
        r == with_bit32(v, i, b),
{
    if b {
        v | (1u32 << i)
    } else {
        v & !(1u32 << i)
    }
}

/// Computes the mask covering bits `lo..=hi` of a 32-bit value.
fn compute_mask32(lo: u32, hi: u32) -> (m: u32)
    requires
        lo <= hi < 32,
    ensures
        m == mask32(lo, hi),
{
    let w: u32 = hi + 1 - lo;
    proof {
        assert(1 <= (1u64 << w) && (1u64 << w) - 1 <= 0xFFFF_FFFF) by (bit_vector)
            requires
                w <= 32,
        ;
    }
    let low: u32 = ((1u64 << w) - 1) as u32;
    proof {
        assert(low == (((1u64 << ((hi + 1 - lo) as u32)) - 1) as u32)) by (bit_vector)
            requires
                low == ((1u64 << w) - 1) as u32 && w == hi + 1 - lo && lo <= hi < 32,
        ;
    }
    low << lo
}

/// Extracts bits `lo..=hi` of `v`.
pub fn read_field32(v: u32, lo: u32, hi: u32) -> (f: u32)
    requires
        lo <= hi < 32,
    ensures
        f == field32(v, lo, hi),
{
    (v & compute_mask32(lo, hi)) >> lo
}

/// Returns `v` with bits `lo..=hi` replaced by the low bits of `f`.
pub fn write_field32(v: u32, lo: u32, hi: u32, f: u32) -> (r: u32)
    requires
        lo <= hi < 32,
    ensures
        r == with_field32(v, lo, hi, f),
{
    let m: u32 = compute_mask32(lo, hi);
    (v & !m) | ((f << lo) & m)
}

/// Computes the mask covering bits `lo..=hi` of a 64-bit value.
fn compute_mask64(lo: u64, hi: u64) -> (m: u64)
    requires
        lo <= hi < 64,
    ensures
        m == mask64(lo, hi),
{
    if hi - lo == 63 {
        0xFFFF_FFFF_FFFF_FFFFu64
    } else {
        let w: u64 = hi + 1 - lo;
        proof {
            assert(1 <= (1u64 << w)) by (bit_vector)
                requires
                    w <= 63,
            ;
        }
        let low: u64 = (1u64 << w) - 1;
        proof {
            assert(low == (((1u64 << ((hi + 1 - lo) as u64)) - 1) as u64)) by (bit_vector)
                requires
                    low == ((1u64 << w) - 1) as u64 && w == hi + 1 - lo && lo <= hi < 64 && hi - lo
                        != 63,
            ;
        }
        low << lo
    }
}

/// Extracts bits `lo..=hi` of `v`.
pub fn read_field64(v: u64, lo: u64, hi: u64) -> (f: u64)
    requires
        lo <= hi < 64,
    ensures
        f == field64(v, lo, hi),
{
    (v & compute_mask64(lo, hi)) >> lo
}

/// Returns `v` with bits `lo..=hi` replaced by the low bits of `f`.
pub fn write_field64(v: u64, lo: u64, hi: u64, f: u64) -> (r: u64)
    requires
        lo <= hi < 64,
    ensures
        r == with_field64(v, lo, hi, f),
{
    let m: u64 = compute_mask64(lo, hi);
    (v & !m) | ((f << lo) & m)
}

/// A field value always fits its own range; a range of fewer than 8 or 16
/// bits never yields a value that overflows `u8` or `u16`.
pub proof fn lemma_field32_bound(v: u32, lo: u32, hi: u32)
    by (bit_vector)
    requires
        lo <= hi < 32,
    ensures
        fits32(field32(v, lo, hi), lo, hi),
        hi - lo < 8 ==> field32(v, lo, hi) < 0x100,
        hi - lo < 16 ==> field32(v, lo, hi) < 0x10000,
{
}

/// A value below the range's width bound fits the range.
pub proof fn lemma_fits32(f: u32, lo: u32, hi: u32)
    by (bit_vector)
    requires
        lo <= hi < 32,
    ensures
        f < 0x100 && hi - lo >= 7 ==> fits32(f, lo, hi),
        f < 0x10000 && hi - lo >= 15 ==> fits32(f, lo, hi),
{
}

/// Round trip: for a value that fits the field, writing bits `lo..=hi` and
/// reading the same range back yields exactly the written value.
pub proof fn lemma_field32_round_trip(v: u32, lo: u32, hi: u32, f: u32)
    by (bit_vector)
    requires
        lo <= hi < 32,
        fits32(f, lo, hi),
    ensures
        field32(with_field32(v, lo, hi, f), lo, hi) == f,
{
}

/// Field isolation: writing bits `lo..=hi` leaves every bit range disjoint
/// from it unchanged.
pub proof fn lemma_field32_frame(v: u32, lo: u32, hi: u32, f: u32, lo2: u32, hi2: u32)
    by (bit_vector)
    requires
        lo <= hi < 32,
        lo2 <= hi2 < 32,
        hi2 < lo || hi < lo2,
    ensures
        field32(with_field32(v, lo, hi, f), lo2, hi2) == field32(v, lo2, hi2),
{
}

/// Writing bits `lo..=hi` leaves every single bit outside the range unchanged.
pub proof fn lemma_field32_bit_frame(v: u32, lo: u32, hi: u32, f: u32, j: u32)
    by (bit_vector)
    requires
        lo <= hi < 32,
        j < 32,
        j < lo || j > hi,
    ensures
        bit32(with_field32(v, lo, hi, f), j) == bit32(v, j),
{
}

/// Round trip for a single bit: after forcing bit `i` to `b`, bit `i` reads
/// back as `b`.
pub proof fn lemma_bit32_round_trip(v: u32, i: u32, b: bool)
    by (bit_vector)
    requires
        i < 32,
    ensures
        bit32(with_bit32(v, i, b), i) == b,
{
}

/// Setting one bit leaves every other bit unchanged.
pub proof fn lemma_bit32_frame(v: u32, i: u32, b: bool, j: u32)
    by (bit_vector)
    requires
        i < 32,
        j < 32,
        i != j,
    ensures
        bit32(with_bit32(v, i, b), j) == bit32(v, j),
{
}

/// Setting one bit leaves every bit range that does not contain it unchanged.
pub proof fn lemma_bit32_field_frame(v: u32, i: u32, b: bool, lo: u32, hi: u32)
    by (bit_vector)
    requires
        i < 32,
        lo <= hi < 32,
        i < lo || i > hi,
    ensures
        field32(with_bit32(v, i, b), lo, hi) == field32(v, lo, hi),
{
}

/// A 64-bit field value always fits its own range; a range of fewer than 8
/// bits never yields a value that overflows `u8`.
pub proof fn lemma_field64_bound(v: u64, lo: u64, hi: u64)
    by (bit_vector)
    requires
        lo <= hi < 64,
    ensures
        hi - lo < 8 ==> field64(v, lo, hi) < 0x100,
        hi - lo < 32 ==> field64(v, lo, hi) < 0x1_0000_0000,
{
}

/// Round trip on a 64-bit value: writing bits `lo..=hi` and reading the same
/// range back yields the written value, for a value that fits the range.
pub proof fn lemma_field64_round_trip(v: u64, lo: u64, hi: u64, f: u64)
    by (bit_vector)
    requires
        lo <= hi < 64,
        hi - lo == 63 || f < (1u64 << ((hi + 1 - lo) as u32)),
    ensures
        field64(with_field64(v, lo, hi, f), lo, hi) == f,
{
}

/// Field isolation on a 64-bit value: writing bits `lo..=hi` leaves every bit
/// range disjoint from it unchanged.
pub proof fn lemma_field64_frame(v: u64, lo: u64, hi: u64, f: u64, lo2: u64, hi2: u64)
    by (bit_vector)
    requires
        lo <= hi < 64,
        lo2 <= hi2 < 64,
        hi2 < lo || hi < lo2,
    ensures
        field64(with_field64(v, lo, hi, f), lo2, hi2) == field64(v, lo2, hi2),
{
}

} // verus!

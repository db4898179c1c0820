//! Bits and bit ranges of 32-bit and 64-bit words.
//!
//! The spec functions of this module say what a bit or a range of bits of a word is. The executable
//! functions read and write them with the `bit_field` crate; their contracts are trusted. The proof
//! functions are the facts about the spec functions that the rest of the crate builds on.

use bit_field::BitField;
use vstd::prelude::*;

verus! {

/// Whether bit `i` of `w` is set. Bit 0 is the least significant one.
pub open spec fn bit32(w: u32, i: u32) -> bool {
    w & (1u32 << i) != 0
}

/// The largest value that a range of `hi - lo + 1` bits holds.
pub open spec fn field_max32(lo: u32, hi: u32) -> u32 {
    u32::MAX >> ((31 - hi + lo) as u32)
}

/// The bits `lo..=hi` of `w`, moved down so that bit `lo` of `w` is bit 0 of the result.
pub open spec fn field32(w: u32, lo: u32, hi: u32) -> u32 {
    (w >> lo) & field_max32(lo, hi)
}

/// `w` with bit `i` set to `b` and every other bit kept.
pub open spec fn with_bit32(w: u32, i: u32, b: bool) -> u32 {
    if b {
        w | (1u32 << i)
    } else {
        w & !(1u32 << i)
    }
}

/// `w` with the bits `lo..=hi` replaced by `v` and every other bit kept.
pub open spec fn with_field32(w: u32, lo: u32, hi: u32, v: u32) -> u32 {
    (w & !(field_max32(lo, hi) << lo)) | (v << lo)
}

/// Whether bit `i` of `w` is set. Bit 0 is the least significant one.
pub open spec fn bit64(w: u64, i: u32) -> bool {
    w & (1u64 << i) != 0
}

/// The largest value that a range of `hi - lo + 1` bits holds.
pub open spec fn field_max64(lo: u32, hi: u32) -> u64 {
    u64::MAX >> ((63 - hi + lo) as u32)
}

/// The bits `lo..=hi` of `w`, moved down so that bit `lo` of `w` is bit 0 of the result.
pub open spec fn field64(w: u64, lo: u32, hi: u32) -> u64 {
    (w >> lo) & field_max64(lo, hi)
}

/// `w` with bit `i` set to `b` and every other bit kept.
pub open spec fn with_bit64(w: u64, i: u32, b: bool) -> u64 {
    if b {
        w | (1u64 << i)
    } else {
        w & !(1u64 << i)
    }
}

/// `w` with the bits `lo..=hi` replaced by `v` and every other bit kept.
pub open spec fn with_field64(w: u64, lo: u32, hi: u32, v: u64) -> u64 {
    (w & !(field_max64(lo, hi) << lo)) | (v << lo)
}

/// The 64-bit value whose low half is `lo` and whose high half is `hi`.
pub open spec fn join64(lo: u32, hi: u32) -> u64 {
    ((hi as u64) << 32) | (lo as u64)
}

/// A range of `n` bits holds the values up to `2^n - 1`.
pub proof fn lemma_field_max32(lo: u32, hi: u32)
    by (bit_vector)
    requires
        lo <= hi < 32,
    ensures
        hi - lo == 0 ==> field_max32(lo, hi) == 0x1,
        hi - lo == 1 ==> field_max32(lo, hi) == 0x3,
        hi - lo == 2 ==> field_max32(lo, hi) == 0x7,
        hi - lo == 3 ==> field_max32(lo, hi) == 0xf,
        hi - lo == 4 ==> field_max32(lo, hi) == 0x1f,
        hi - lo == 5 ==> field_max32(lo, hi) == 0x3f,
        hi - lo == 6 ==> field_max32(lo, hi) == 0x7f,
        hi - lo == 7 ==> field_max32(lo, hi) == 0xff,
        hi - lo == 8 ==> field_max32(lo, hi) == 0x1ff,
        hi - lo == 9 ==> field_max32(lo, hi) == 0x3ff,
        hi - lo == 15 ==> field_max32(lo, hi) == 0xffff,
        hi - lo == 23 ==> field_max32(lo, hi) == 0xff_ffff,
        hi - lo == 31 ==> field_max32(lo, hi) == 0xffff_ffff,
{
}

/// A range of bits never reads as more than the range holds.
pub proof fn lemma_field32_bound(w: u32, lo: u32, hi: u32)
    by (bit_vector)
    requires
        lo <= hi < 32,
    ensures
        field32(w, lo, hi) <= field_max32(lo, hi),
{
}

/// Every range and every bit of the zero word reads as zero.
pub proof fn lemma_field32_of_zero(lo: u32, hi: u32)
    by (bit_vector)
    requires
        lo <= hi < 32,
    ensures
        field32(0, lo, hi) == 0,
        !bit32(0, lo),
{
}

/// A range with a set bit in it does not read as zero.
pub proof fn lemma_field32_nonzero(w: u32, lo: u32, hi: u32, i: u32)
    by (bit_vector)
    requires
        lo <= i <= hi < 32,
        bit32(w, i),
    ensures
        field32(w, lo, hi) != 0,
{
}

/// A bit reads as it was written, and writing it leaves the other bits alone.
pub proof fn lemma_with_bit32(w: u32, i: u32, b: bool, j: u32)
    by (bit_vector)
    requires
        i < 32,
        j < 32,
    ensures
        bit32(with_bit32(w, i, b), j) == (if j == i {
            b
        } else {
            bit32(w, j)
        }),
{
}

/// Writing a bit changes that bit and no other.
pub proof fn lemma_with_bit32_only(w: u32, i: u32, b: bool)
    requires
        i < 32,
    ensures
        bit32(with_bit32(w, i, b), i) == b,
        forall|j: u32| j < 32 && j != i ==> #[trigger] bit32(with_bit32(w, i, b), j) == bit32(w, j),
{
    lemma_with_bit32(w, i, b, i);
    assert forall|j: u32| j < 32 && j != i implies #[trigger] bit32(with_bit32(w, i, b), j)
        == bit32(w, j) by {
        lemma_with_bit32(w, i, b, j);
    }
}

/// Writing a bit leaves every range that does not hold it alone.
pub proof fn lemma_with_bit32_field(w: u32, i: u32, b: bool, lo: u32, hi: u32)
    by (bit_vector)
    requires
        i < 32,
        lo <= hi < 32,
        i < lo || hi < i,
    ensures
        field32(with_bit32(w, i, b), lo, hi) == field32(w, lo, hi),
{
}

/// A range reads as it was written.
pub proof fn lemma_with_field32_same(w: u32, lo: u32, hi: u32, v: u32)
    by (bit_vector)
    requires
        lo <= hi < 32,
        v <= field_max32(lo, hi),
    ensures
        field32(with_field32(w, lo, hi, v), lo, hi) == v,
{
}

/// Writing a range leaves every range apart from it alone.
pub proof fn lemma_with_field32_other(w: u32, lo: u32, hi: u32, v: u32, lo2: u32, hi2: u32)
    by (bit_vector)
    requires
        lo <= hi < 32,
        lo2 <= hi2 < 32,
        hi2 < lo || hi < lo2,
        v <= field_max32(lo, hi),
    ensures
        field32(with_field32(w, lo, hi, v), lo2, hi2) == field32(w, lo2, hi2),
{
}

/// Writing a range leaves every bit outside it alone.
pub proof fn lemma_with_field32_bit(w: u32, lo: u32, hi: u32, v: u32, j: u32)
    by (bit_vector)
    requires
        lo <= hi < 32,
        j < 32,
        j < lo || hi < j,
        v <= field_max32(lo, hi),
    ensures
        bit32(with_field32(w, lo, hi, v), j) == bit32(w, j),
{
}

/// A bit reads as it was written, and writing it leaves the other bits alone.
pub proof fn lemma_with_bit64(w: u64, i: u32, b: bool, j: u32)
    by (bit_vector)
    requires
        i < 64,
        j < 64,
    ensures
        bit64(with_bit64(w, i, b), j) == (if j == i {
            b
        } else {
            bit64(w, j)
        }),
{
}

/// Writing a bit changes that bit and no other.
pub proof fn lemma_with_bit64_only(w: u64, i: u32, b: bool)
    requires
        i < 64,
    ensures
        bit64(with_bit64(w, i, b), i) == b,
        forall|j: u32| j < 64 && j != i ==> #[trigger] bit64(with_bit64(w, i, b), j) == bit64(w, j),
{
    lemma_with_bit64(w, i, b, i);
    assert forall|j: u32| j < 64 && j != i implies #[trigger] bit64(with_bit64(w, i, b), j)
        == bit64(w, j) by {
        lemma_with_bit64(w, i, b, j);
    }
}

/// Writing a bit leaves every range that does not hold it alone.
pub proof fn lemma_with_bit64_field(w: u64, i: u32, b: bool, lo: u32, hi: u32)
    by (bit_vector)
    requires
        i < 64,
        lo <= hi < 64,
        i < lo || hi < i,
    ensures
        field64(with_bit64(w, i, b), lo, hi) == field64(w, lo, hi),
{
}

/// A range reads as it was written.
pub proof fn lemma_with_field64_same(w: u64, lo: u32, hi: u32, v: u64)
    by (bit_vector)
    requires
        lo <= hi < 64,
        v <= field_max64(lo, hi),
    ensures
        field64(with_field64(w, lo, hi, v), lo, hi) == v,
{
}

/// Writing a range leaves every bit outside it alone.
pub proof fn lemma_with_field64_bit(w: u64, lo: u32, hi: u32, v: u64, j: u32)
    by (bit_vector)
    requires
        lo <= hi < 64,
        j < 64,
        j < lo || hi < j,
        v <= field_max64(lo, hi),
    ensures
        bit64(with_field64(w, lo, hi, v), j) == bit64(w, j),
{
}

/// The two halves of a 64-bit value, joined again, are that value.
pub proof fn lemma_join64_of_halves(p: u64)
    by (bit_vector)
    ensures
        field64(p, 0, 31) <= 0xffff_ffff,
        field64(p, 32, 63) <= 0xffff_ffff,
        join64(field64(p, 0, 31) as u32, field64(p, 32, 63) as u32) == p,
{
}

/// The high half of a joined value counts 2^32 each.
pub proof fn lemma_join64_value(lo: u32, hi: u32)
    by (bit_vector)
    ensures
        join64(lo, hi) == hi * 0x1_0000_0000 + lo,
{
}

/// Reads bit `i` of `w` by `BitField::get_bit` of the `bit_field` crate. That method returns
/// whether `w & (1 << i)` is not zero, and panics if `i` is not below 32.
#[verifier::external_body]
pub(crate) fn get_bit32(w: u32, i: u32) -> (r: bool)
    requires
        i < 32,
    ensures
        r == bit32(w, i),
{
    w.get_bit(i as usize)
}

/// Reads the bits `lo..=hi` of `w` by `BitField::get_bits` of the `bit_field` crate. That method
/// shifts the bits above `hi` out to the left, shifts back, and shifts right by `lo`, which leaves
/// the bits `lo..=hi` at the bottom of the result. It panics if the range does not lie in the word.
#[verifier::external_body]
pub(crate) fn get_bits32(w: u32, lo: u32, hi: u32) -> (r: u32)
    requires
        lo <= hi < 32,
    ensures
        r == field32(w, lo, hi),
{
    w.get_bits((lo as usize)..=(hi as usize))
}

/// Writes bit `i` of `w` by `BitField::set_bit` of the `bit_field` crate. That method ors `1 << i`
/// into the word for `true`, ands its complement into the word for `false`, and panics if `i` is
/// not below 32.
#[verifier::external_body]
pub(crate) fn set_bit32(w: u32, i: u32, b: bool) -> (r: u32)
    requires
        i < 32,
    ensures
        r == with_bit32(w, i, b),
{
    let mut w = w;
    w.set_bit(i as usize, b);
    w
}

/// Writes the bits `lo..=hi` of `w` by `BitField::set_bits` of the `bit_field` crate. That method
/// clears the range and ors `v << lo` into the word. It panics if the range does not lie in the
/// word or if `v` has a bit set above the width of the range.
#[verifier::external_body]
pub(crate) fn set_bits32(w: u32, lo: u32, hi: u32, v: u32) -> (r: u32)
    requires
        lo <= hi < 32,
        v <= field_max32(lo, hi),
    ensures
        r == with_field32(w, lo, hi, v),
{
    let mut w = w;
    w.set_bits((lo as usize)..=(hi as usize), v);
    w
}

/// Reads bit `i` of `w` by `BitField::get_bit` of the `bit_field` crate. That method returns
/// whether `w & (1 << i)` is not zero, and panics if `i` is not below 64.
#[verifier::external_body]
pub(crate) fn get_bit64(w: u64, i: u32) -> (r: bool)
    requires
        i < 64,
    ensures
        r == bit64(w, i),
{
    w.get_bit(i as usize)
}

/// Reads the bits `lo..=hi` of `w` by `BitField::get_bits` of the `bit_field` crate. That method
/// shifts the bits above `hi` out to the left, shifts back, and shifts right by `lo`, which leaves
/// the bits `lo..=hi` at the bottom of the result. It panics if the range does not lie in the word.
#[verifier::external_body]
pub(crate) fn get_bits64(w: u64, lo: u32, hi: u32) -> (r: u64)
    requires
        lo <= hi < 64,
    ensures
        r == field64(w, lo, hi),
{
    w.get_bits((lo as usize)..=(hi as usize))
}

/// Writes bit `i` of `w` by `BitField::set_bit` of the `bit_field` crate. That method ors `1 << i`
/// into the word for `true`, ands its complement into the word for `false`, and panics if `i` is
/// not below 64.
#[verifier::external_body]
pub(crate) fn set_bit64(w: u64, i: u32, b: bool) -> (r: u64)
    requires
        i < 64,
    ensures
        r == with_bit64(w, i, b),
{
    let mut w = w;
    w.set_bit(i as usize, b);
    w
}

/// Writes the bits `lo..=hi` of `w` by `BitField::set_bits` of the `bit_field` crate. That method
/// clears the range and ors `v << lo` into the word. It panics if the range does not lie in the
/// word or if `v` has a bit set above the width of the range.
#[verifier::external_body]
pub(crate) fn set_bits64(w: u64, lo: u32, hi: u32, v: u64) -> (r: u64)
    requires
        lo <= hi < 64,
        v <= field_max64(lo, hi),
    ensures
        r == with_field64(w, lo, hi, v),
{
    let mut w = w;
    w.set_bits((lo as usize)..=(hi as usize), v);
    w
}

} // verus!

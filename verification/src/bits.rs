//! Bit-level access to register values.
//!
//! The functions here hand a value to the `bit_field` crate and say, each
//! in its contract, what that crate computes from it.

use bit_field::BitField;
use vstd::prelude::*;

verus! {

/// Bit `bit` of `bits` is one.
pub open spec fn bit_set(bits: usize, bit: usize) -> bool {
    bits & (1usize << bit) != 0
}

/// The bits of `bits` from `lo` up to, not including, `hi`, moved down to
/// bit 0: the bits from `hi` on are shifted out at the top, then the rest
/// is shifted down by `lo`.
pub open spec fn bit_range(bits: usize, lo: usize, hi: usize) -> usize {
    if lo == hi {
        0
    } else {
        ((bits << ((usize::BITS - hi) as usize)) >> ((usize::BITS - hi) as usize)) >> lo
    }
}

/// `value` has no bit set from bit `width` on.
pub open spec fn fits(value: usize, width: usize) -> bool {
    if width == 0 {
        value == 0
    } else {
        (value << ((usize::BITS - width) as usize)) >> ((usize::BITS - width) as usize) == value
    }
}

/// `bits` with the bits from `lo` up to, not including, `hi` replaced by
/// the low bits of `value`.
pub open spec fn with_bit_range(bits: usize, lo: usize, hi: usize, value: usize) -> usize {
    if lo == hi {
        bits
    } else {
        (bits & !((((!0usize << ((usize::BITS - hi) as usize)) >> ((usize::BITS - hi) as usize))
            >> lo) << lo)) | (value << lo)
    }
}

/// Bit `bit` of the byte `byte` is one.
pub open spec fn byte_bit_set(byte: u8, bit: usize) -> bool {
    byte & (1u8 << bit) != 0
}

/// The bits of the byte `byte` from `lo` up to, not including, `hi`, moved
/// down to bit 0.
pub open spec fn byte_bit_range(byte: u8, lo: usize, hi: usize) -> u8 {
    if lo == hi {
        0
    } else {
        ((byte << ((8 - hi) as usize)) >> ((8 - hi) as usize)) >> lo
    }
}

/// `value` has no bit set from bit `width` on.
pub open spec fn byte_fits(value: u8, width: usize) -> bool {
    if width == 0 {
        value == 0
    } else {
        (value << ((8 - width) as usize)) >> ((8 - width) as usize) == value
    }
}

/// The byte `byte` with the bits from `lo` up to, not including, `hi`
/// replaced by the low bits of `value`.
pub open spec fn byte_with_bit_range(byte: u8, lo: usize, hi: usize, value: u8) -> u8 {
    if lo == hi {
        byte
    } else {
        (byte & !((((!0u8 << ((8 - hi) as usize)) >> ((8 - hi) as usize)) >> lo) << lo)) | (value
            << lo)
    }
}

/// Calls `bit_field::BitField::get_bit` on a `usize`. The contract claims
/// that the result tells whether `bits & (1 << bit)` is non-zero. The
/// outside function panics for a `bit` that the word does not have, so
/// such a `bit` is left out.
#[verifier::external_body]
pub(crate) fn get_bit(bits: usize, bit: usize) -> (r: bool)
    requires
        bit < usize::BITS,
    ensures
        r == bit_set(bits, bit),
{
    bits.get_bit(bit)
}

/// Calls `bit_field::BitField::get_bits` on a `usize` with the range
/// `lo..hi`. The contract claims that the result is `bits` with the bits
/// from `hi` on shifted out and the rest shifted down by `lo`, and 0 for
/// an empty range. The outside function panics unless `lo <= hi`, `hi` is
/// at most the width of the word and `lo` below it.
#[verifier::external_body]
pub(crate) fn get_bits(bits: usize, lo: usize, hi: usize) -> (r: usize)
    requires
        lo <= hi <= usize::BITS,
        lo < usize::BITS,
    ensures
        r == bit_range(bits, lo, hi),
{
    bits.get_bits(lo..hi)
}

/// Calls `bit_field::BitField::set_bits` on a copy of a `usize` with the
/// range `lo..hi` and returns the copy. The contract claims that the
/// result is `bits` with the bits of the range cleared and `value << lo`
/// joined in, and `bits` itself for an empty range. The outside function
/// panics unless the range lies in the word and `value` fits its width.
#[verifier::external_body]
pub(crate) fn set_bits(bits: usize, lo: usize, hi: usize, value: usize) -> (r: usize)
    requires
        lo <= hi <= usize::BITS,
        lo < usize::BITS,
        fits(value, (hi - lo) as usize),
    ensures
        r == with_bit_range(bits, lo, hi, value),
{
    let mut word = bits;
    word.set_bits(lo..hi, value);
    word
}

/// Calls `bit_field::BitField::get_bit` on a `u8`. The contract claims
/// that the result tells whether `byte & (1 << bit)` is non-zero. The
/// outside function panics for a `bit` of 8 or more.
#[verifier::external_body]
pub(crate) fn byte_get_bit(byte: u8, bit: usize) -> (r: bool)
    requires
        bit < 8,
    ensures
        r == byte_bit_set(byte, bit),
{
    byte.get_bit(bit)
}

/// Calls `bit_field::BitField::get_bits` on a `u8` with the range
/// `lo..hi`. The contract claims that the result is `byte` with the bits
/// from `hi` on shifted out and the rest shifted down by `lo`, and 0 for
/// an empty range. The outside function panics unless `lo <= hi <= 8` and
/// `lo < 8`.
#[verifier::external_body]
pub(crate) fn byte_get_bits(byte: u8, lo: usize, hi: usize) -> (r: u8)
    requires
        lo <= hi <= 8,
        lo < 8,
    ensures
        r == byte_bit_range(byte, lo, hi),
{
    byte.get_bits(lo..hi)
}

/// Calls `bit_field::BitField::set_bit` on a copy of a `u8` and returns
/// the copy. The contract claims that the result is `byte` with bit `bit`
/// set for `true` and cleared for `false`. The outside function panics for
/// a `bit` of 8 or more.
#[verifier::external_body]
pub(crate) fn byte_set_bit(byte: u8, bit: usize, value: bool) -> (r: u8)
    requires
        bit < 8,
    ensures
        value ==> r == byte | (1u8 << bit),
        !value ==> r == byte & !(1u8 << bit),
{
    let mut b = byte;
    b.set_bit(bit, value);
    b
}

/// Calls `bit_field::BitField::set_bits` on a copy of a `u8` with the
/// range `lo..hi` and returns the copy. The contract claims that the
/// result is `byte` with the bits of the range cleared and `value << lo`
/// joined in, and `byte` itself for an empty range. The outside function
/// panics unless the range lies in the byte and `value` fits its width.
#[verifier::external_body]
pub(crate) fn byte_set_bits(byte: u8, lo: usize, hi: usize, value: u8) -> (r: u8)
    requires
        lo <= hi <= 8,
        lo < 8,
        byte_fits(value, (hi - lo) as usize),
    ensures
        r == byte_with_bit_range(byte, lo, hi, value),
{
    let mut b = byte;
    b.set_bits(lo..hi, value);
    b
}

/// The field reads that the registers of this crate make, in plain shifts
/// and masks.
pub proof fn lemma_bit_ranges(bits: usize)
    by (bit_vector)
    ensures
        bit_range(bits, 12, 17) == (bits >> 12) & 0x1f,
        bit_range(bits, 4, 5) == (bits >> 4) & 0x1,
        bit_range(bits, 16, 26) == (bits >> 16) & 0x3ff,
        bit_range(bits, 0, 10) == bits & 0x3ff,
        (bits >> 4) & 0x1 <= 1,
        (bits >> 32) & 0x1 <= 1,
{
}

/// What the field writes that the registers of this crate make ask of a
/// value and do to it, in plain shifts and masks.
pub proof fn lemma_bit_range_writes(bits: usize, value: usize)
    by (bit_vector)
    ensures
        fits(value, 5) <==> value < 32,
        fits(value, 1) <==> value < 2,
        with_bit_range(bits, 12, 17, value) == (bits & !0x1_f000usize) | (value << 12),
        with_bit_range(bits, 4, 5, value) == (bits & !0x10usize) | (value << 4),
        value < 32 ==> ((((bits & !0x1_f000usize) | (value << 12)) >> 12) & 0x1f) == value,
        value < 2 ==> ((((bits & !0x10usize) | (value << 4)) >> 4) & 0x1) == value,
{
}

/// Number of bytes of a machine word: 4 or 8.
pub fn word_bytes() -> (r: usize)
    ensures
        r * 8 == usize::BITS,
        r == 4 || r == 8,
{
    broadcast use vstd::layout::layout_of_primitives;

    core::mem::size_of::<usize>()
}

} // verus!

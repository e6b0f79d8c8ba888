//! Single-bit and bit-range operations on a register byte.

use bit_field::BitField;
use vstd::prelude::*;

verus! {

/// The byte whose only set bit is bit `bit`.
pub open spec fn bit_mask(bit: u8) -> u8 {
    1u8 << bit
}

/// Whether bit `bit` of `byte` is set.
pub open spec fn bit_is_set(byte: u8, bit: u8) -> bool {
    byte & bit_mask(bit) != 0
}

/// `byte` with bit `bit` forced to `value`, every other bit kept.
pub open spec fn with_bit(byte: u8, bit: u8, value: bool) -> u8 {
    if value {
        byte | bit_mask(bit)
    } else {
        byte & !bit_mask(bit)
    }
}

/// The largest value that `width` bits can hold, for a width of 1 to 8.
pub open spec fn field_limit(width: u8) -> u8 {
    0xffu8 >> ((8 - width) as u8)
}

/// The byte with bits `lo..hi` set and all others clear.
pub open spec fn field_mask(lo: u8, hi: u8) -> u8 {
    field_limit((hi - lo) as u8) << lo
}

/// Whether `lo..hi` is a non-empty range of bits of a byte that can hold
/// `value`.
pub open spec fn fits_field(lo: u8, hi: u8, value: u8) -> bool {
    lo < hi <= 8 && value <= field_limit((hi - lo) as u8)
}

/// `byte` with bits `lo..hi` replaced by `value`, every other bit kept.
pub open spec fn with_field(byte: u8, lo: u8, hi: u8, value: u8) -> u8 {
    (byte & !field_mask(lo, hi)) | (value << lo)
}

/// The largest value that `width` bits can hold, for a width of 1 to 32.
pub open spec fn word_field_limit(width: u8) -> u32 {
    0xffff_ffffu32 >> ((32 - width) as u32)
}

/// Whether `lo..hi` is a non-empty range of bits of a 32-bit word that can
/// hold `value`.
pub open spec fn fits_word_field(lo: u8, hi: u8, value: u32) -> bool {
    lo < hi <= 32 && value <= word_field_limit((hi - lo) as u8)
}

/// `word` with bits `lo..hi` replaced by `value`, every other bit kept.
pub open spec fn with_word_field(word: u32, lo: u8, hi: u8, value: u32) -> u32 {
    (word & !(word_field_limit((hi - lo) as u8) << (lo as u32))) | (value << (lo as u32))
}

/// The content of bits `lo..hi` of `byte`, moved down to bit 0.
pub open spec fn field(byte: u8, lo: u8, hi: u8) -> u8 {
    (byte & field_mask(lo, hi)) >> lo
}

/// Writing a bit makes that bit read as written and leaves the reading of
/// every other bit as it was.
pub proof fn lemma_with_bit_reads(byte: u8, bit: u8, value: bool, other: u8)
    by (bit_vector)
    requires
        bit < 8,
        other < 8,
    ensures
        bit_is_set(with_bit(byte, bit, value), other) == (if other == bit {
            value
        } else {
            bit_is_set(byte, other)
        }),
{
}

/// Writing the same value to the same bit twice is the same as writing it
/// once.
pub proof fn lemma_with_bit_idempotent(byte: u8, bit: u8, value: bool)
    by (bit_vector)
    requires
        bit < 8,
    ensures
        with_bit(with_bit(byte, bit, value), bit, value) == with_bit(byte, bit, value),
{
}

/// Writing a bit and then writing back what it held before gives the byte
/// as it was.
pub proof fn lemma_with_bit_restores(byte: u8, bit: u8, value: bool)
    by (bit_vector)
    requires
        bit < 8,
    ensures
        with_bit(with_bit(byte, bit, value), bit, bit_is_set(byte, bit)) == byte,
{
}

/// The field mask and the fit test as `bit_field` computes them for `u8`:
/// the mask by shifting all ones up, down and up again, the test by shifting
/// the value up and down again.
pub proof fn lemma_field_forms(lo: u8, hi: u8, value: u8)
    by (bit_vector)
    requires
        lo < hi <= 8,
    ensures
        field_mask(lo, hi) == (((0xffu8 << ((8 - hi) as u8)) >> ((8 - hi) as u8)) >> lo) << lo,
        fits_field(lo, hi, value) == ((value << ((8 - (hi - lo)) as u8)) >> ((8 - (hi - lo)) as u8)
            == value),
{
}

/// The field mask and the fit test as `bit_field` computes them for `u32`.
pub proof fn lemma_word_field_forms(lo: u8, hi: u8, value: u32)
    by (bit_vector)
    requires
        lo < hi <= 32,
    ensures
        word_field_limit((hi - lo) as u8) << (lo as u32) == (((0xffff_ffffu32 << ((32 - hi) as u32))
            >> ((32 - hi) as u32)) >> (lo as u32)) << (lo as u32),
        fits_word_field(lo, hi, value) == ((value << ((32 - (hi - lo)) as u32)) >> ((32 - (hi
            - lo)) as u32) == value),
{
}

/// The largest value of each field width, as a number.
pub proof fn lemma_field_limits()
    by (bit_vector)
    ensures
        field_limit(1) == 1,
        field_limit(2) == 3,
        field_limit(3) == 7,
        field_limit(4) == 15,
        field_limit(5) == 31,
        field_limit(6) == 63,
        field_limit(7) == 127,
        field_limit(8) == 255,
{
}

/// A field reads back as the value that was written to it.
pub proof fn lemma_with_field_reads(byte: u8, lo: u8, hi: u8, value: u8)
    by (bit_vector)
    requires
        fits_field(lo, hi, value),
    ensures
        field(with_field(byte, lo, hi, value), lo, hi) == value,
{
}

/// Writing a field leaves every bit outside it as it was.
pub proof fn lemma_with_field_keeps_bit(byte: u8, lo: u8, hi: u8, value: u8, bit: u8)
    by (bit_vector)
    requires
        fits_field(lo, hi, value),
        bit < lo || hi <= bit,
        bit < 8,
    ensures
        bit_is_set(with_field(byte, lo, hi, value), bit) == bit_is_set(byte, bit),
{
}

/// Writing a field leaves every field that does not overlap it as it was.
pub proof fn lemma_with_field_keeps_field(byte: u8, lo: u8, hi: u8, value: u8, lo2: u8, hi2: u8)
    by (bit_vector)
    requires
        fits_field(lo, hi, value),
        lo2 < hi2 <= 8,
        hi2 <= lo || hi <= lo2,
    ensures
        field(with_field(byte, lo, hi, value), lo2, hi2) == field(byte, lo2, hi2),
{
}

/// Writing a bit leaves every field that does not hold it as it was.
pub proof fn lemma_with_bit_keeps_field(byte: u8, bit: u8, value: bool, lo: u8, hi: u8)
    by (bit_vector)
    requires
        bit < 8,
        lo < hi <= 8,
        bit < lo || hi <= bit,
    ensures
        field(with_bit(byte, bit, value), lo, hi) == field(byte, lo, hi),
{
}

/// Writes to two fields that do not overlap can be made in either order.
pub proof fn lemma_with_field_commutes(
    byte: u8,
    lo: u8,
    hi: u8,
    value: u8,
    lo2: u8,
    hi2: u8,
    value2: u8,
)
    by (bit_vector)
    requires
        fits_field(lo, hi, value),
        fits_field(lo2, hi2, value2),
        hi2 <= lo || hi <= lo2,
    ensures
        with_field(with_field(byte, lo, hi, value), lo2, hi2, value2) == with_field(
            with_field(byte, lo2, hi2, value2),
            lo,
            hi,
            value,
        ),
{
}

/// A write to a bit and a write to a field that does not hold it can be made
/// in either order.
pub proof fn lemma_with_bit_commutes(byte: u8, bit: u8, set: bool, lo: u8, hi: u8, value: u8)
    by (bit_vector)
    requires
        bit < 8,
        fits_field(lo, hi, value),
        bit < lo || hi <= bit,
    ensures
        with_field(with_bit(byte, bit, set), lo, hi, value) == with_bit(
            with_field(byte, lo, hi, value),
            bit,
            set,
        ),
{
}

/// Writing all eight bits replaces the byte.
pub proof fn lemma_with_whole_byte(byte: u8, value: u8)
    by (bit_vector)
    ensures
        with_field(byte, 0, 8, value) == value,
{
}

/// Reads one bit through `bit_field::BitField::get_bit` for `u8`, which tests
/// `byte & (1 << bit)` against zero and panics for `bit >= 8`.
#[verifier::external_body]
pub(crate) fn get_bit(byte: u8, bit: u8) -> (set: bool)
    requires
        bit < 8,
    ensures
        set == bit_is_set(byte, bit),
{
    byte.get_bit(bit as usize)
}

/// Writes one bit through `bit_field::BitField::set_bit` for `u8`, which ors
/// `1 << bit` into the byte for `true` and masks it out for `false`, and
/// panics for `bit >= 8`.
#[verifier::external_body]
pub(crate) fn set_bit(byte: u8, bit: u8, value: bool) -> (out: u8)
    requires
        bit < 8,
    ensures
        out == with_bit(byte, bit, value),
{
    let mut out = byte;
    out.set_bit(bit as usize, value);
    out
}

/// Writes a bit range through `bit_field::BitField::set_bits` for `u8` with
/// the range `lo..hi`, which clears those bits and ors in `value << lo`. It
/// panics when the range is empty with a non-zero value, leaves the byte, or
/// is too narrow for `value`; the precondition keeps to non-empty ranges.
#[verifier::external_body]
pub(crate) fn set_bits(byte: u8, lo: u8, hi: u8, value: u8) -> (out: u8)
    requires
        fits_field(lo, hi, value),
    ensures
        out == with_field(byte, lo, hi, value),
{
    let mut out = byte;
    out.set_bits((lo as usize)..(hi as usize), value);
    out
}

/// Writes a bit range of a 32-bit word through
/// `bit_field::BitField::set_bits` for `u32` with the range `lo..hi`, which
/// clears those bits and ors in `value << lo`. It panics when the range is
/// empty with a non-zero value, leaves the word, or is too narrow for
/// `value`; the precondition keeps to non-empty ranges.
#[verifier::external_body]
pub(crate) fn set_word_bits(word: u32, lo: u8, hi: u8, value: u32) -> (out: u32)
    requires
        fits_word_field(lo, hi, value),
    ensures
        out == with_word_field(word, lo, hi, value),
{
    let mut out = word;
    out.set_bits((lo as usize)..(hi as usize), value);
    out
}

} // verus!

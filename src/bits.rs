//! Bit ranges of a register byte, read and written through the `bitfield` crate.

use bitfield::{BitRange, BitRangeMut};
use vstd::prelude::*;

verus! {

/// The byte whose low `width` bits are set (`1 <= width <= 8`).
pub open spec fn low_bits(width: usize) -> u8 {
    0xffu8 >> ((8 - width) as usize)
}

/// The bits `lsb..=msb` set, all others clear.
pub open spec fn range_mask(msb: usize, lsb: usize) -> u8 {
    (low_bits((msb - lsb + 1) as usize) << lsb) as u8
}

/// The bits `lsb..=msb` of `v`, moved down to bit 0.
pub open spec fn bit_range_of(v: u8, msb: usize, lsb: usize) -> u8 {
    (v >> lsb) & low_bits((msb - lsb + 1) as usize)
}

/// `v` with its bits `lsb..=msb` replaced by the low bits of `value`.
pub open spec fn with_bit_range(v: u8, msb: usize, lsb: usize, value: u8) -> u8 {
    (v & !range_mask(msb, lsb)) | (((value << lsb) as u8) & range_mask(msb, lsb))
}

/// Relies on bitfield's `BitRange<u8> for u8`: shifts the bits `lsb..=msb`
/// down to bit 0 and clears the rest. Out of this range its shifts overflow.
#[verifier::external_body]
pub(crate) fn get_bit_range(v: u8, msb: usize, lsb: usize) -> (r: u8)
    requires
        lsb <= msb < 8,
    ensures
        r == bit_range_of(v, msb, lsb),
{
    BitRange::<u8>::bit_range(&v, msb, lsb)
}

/// Relies on bitfield's `BitRangeMut<u8> for u8`: clears the bits
/// `lsb..=msb`, then sets them from `value` shifted up to `lsb`, masked to
/// the range. Out of this range its shifts overflow.
#[verifier::external_body]
pub(crate) fn set_bit_range(v: &mut u8, msb: usize, lsb: usize, value: u8)
    requires
        lsb <= msb < 8,
    ensures
        *final(v) == with_bit_range(*old(v), msb, lsb, value),
{
    BitRangeMut::<u8>::set_bit_range(v, msb, lsb, value)
}

/// Writing a bit range and reading it back gives the value written, when it
/// fits in the range.
pub proof fn lemma_read_after_write_same(v: u8, msb: usize, lsb: usize, value: u8)
    requires
        lsb <= msb < 8,
        value <= low_bits((msb - lsb + 1) as usize),
    ensures
        bit_range_of(with_bit_range(v, msb, lsb, value), msb, lsb) == value,
{
    assert(bit_range_of(with_bit_range(v, msb, lsb, value), msb, lsb) == value) by (bit_vector)
        requires
            lsb <= msb < 8,
            value <= low_bits((msb - lsb + 1) as usize),
    ;
}

/// Writing a bit range leaves every range that does not overlap it as it was.
pub proof fn lemma_read_after_write_other(v: u8, msb: usize, lsb: usize, value: u8, msb2: usize, lsb2: usize)
    requires
        lsb <= msb < 8,
        lsb2 <= msb2 < 8,
        msb2 < lsb || msb < lsb2,
    ensures
        bit_range_of(with_bit_range(v, msb, lsb, value), msb2, lsb2) == bit_range_of(v, msb2, lsb2),
{
    assert(bit_range_of(with_bit_range(v, msb, lsb, value), msb2, lsb2) == bit_range_of(v, msb2, lsb2))
        by (bit_vector)
        requires
            lsb <= msb < 8,
            lsb2 <= msb2 < 8,
            msb2 < lsb || msb < lsb2,
    ;
}

/// Masks of the widths in use.
pub proof fn lemma_low_bits_values()
    ensures
        low_bits(1) == 1,
        low_bits(2) == 3,
        low_bits(3) == 7,
        low_bits(4) == 15,
{
    assert(low_bits(1) == 1 && low_bits(2) == 3 && low_bits(3) == 7 && low_bits(4) == 15)
        by (bit_vector);
}

/// What writing a bit range does to each bit range: the range written reads
/// back as the value, every range apart from it reads as before.
pub proof fn lemma_write_bit_range(v: u8, msb: usize, lsb: usize, value: u8)
    requires
        lsb <= msb < 8,
        value <= low_bits((msb - lsb + 1) as usize),
    ensures
        bit_range_of(with_bit_range(v, msb, lsb, value), msb, lsb) == value,
        forall|msb2: usize, lsb2: usize|
            lsb2 <= msb2 < 8 && (msb2 < lsb || msb < lsb2) ==> #[trigger] bit_range_of(
                with_bit_range(v, msb, lsb, value),
                msb2,
                lsb2,
            ) == bit_range_of(v, msb2, lsb2),
{
    lemma_read_after_write_same(v, msb, lsb, value);
    assert forall|msb2: usize, lsb2: usize|
        lsb2 <= msb2 < 8 && (msb2 < lsb || msb < lsb2) implies #[trigger] bit_range_of(
            with_bit_range(v, msb, lsb, value),
            msb2,
            lsb2,
        ) == bit_range_of(v, msb2, lsb2) by {
        lemma_read_after_write_other(v, msb, lsb, value, msb2, lsb2);
    }
}

} // verus!

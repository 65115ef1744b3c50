//! Bit-field arithmetic on single register bytes.
//!
//! Every register field of the hub is a run of `width` bits starting at bit
//! `lo` (bit 0 is the least significant bit) of one byte. The spec functions
//! here say what reading and writing such a field means; the proof functions
//! are the laws that every register type of this crate inherits.
use vstd::prelude::*;

verus! {

/// A field of `width` bits at bit offset `lo` lies inside one byte.
pub open spec fn field_fits(lo: u8, width: u8) -> bool {
    1 <= width && lo < 8 && lo + width <= 8
}

/// The mask of the `width` low bits of a byte.
pub open spec fn low_mask(width: u8) -> u8 {
    if width <= 1 {
        0x01
    } else if width == 2 {
        0x03
    } else if width == 3 {
        0x07
    } else if width == 4 {
        0x0F
    } else if width == 5 {
        0x1F
    } else if width == 6 {
        0x3F
    } else if width == 7 {
        0x7F
    } else {
        0xFF
    }
}

/// The value of the field of `width` bits at offset `lo` in `byte`.
pub open spec fn field_get(byte: u8, lo: u8, width: u8) -> u8 {
    (byte >> lo) & low_mask(width)
}

/// `byte` with the field of `width` bits at offset `lo` replaced by the low
/// `width` bits of `value`; every other bit is kept.
pub open spec fn field_set(byte: u8, lo: u8, width: u8, value: u8) -> u8 {
    (byte & !(low_mask(width) << lo)) | ((value & low_mask(width)) << lo)
}

/// `value` fits in a field of `width` bits.
pub open spec fn fits_width(value: u8, width: u8) -> bool {
    value <= low_mask(width)
}

/// The bit that stores a boolean field.
pub open spec fn bool_bit(b: bool) -> u8 {
    if b {
        1
    } else {
        0
    }
}

/// Reading a field back after writing it gives the written value, cut to
/// the field's width.
pub proof fn lemma_field_get_set_same(byte: u8, lo: u8, width: u8, value: u8)
    requires
        field_fits(lo, width),
    ensures
        field_get(field_set(byte, lo, width, value), lo, width) == value & low_mask(width),
        fits_width(value, width) ==> field_get(field_set(byte, lo, width, value), lo, width)
            == value,
{
    assert(field_fits(lo, width) ==> field_get(field_set(byte, lo, width, value), lo, width)
        == value & low_mask(width)) by (bit_vector);
    assert(field_fits(lo, width) ==> (fits_width(value, width) ==> value & low_mask(width)
        == value)) by (bit_vector);
}

/// Writing one field leaves every field that does not overlap it unchanged.
pub proof fn lemma_field_get_set_other(
    byte: u8,
    lo: u8,
    width: u8,
    value: u8,
    other_lo: u8,
    other_width: u8,
)
    requires
        field_fits(lo, width),
        field_fits(other_lo, other_width),
        lo + width <= other_lo || other_lo + other_width <= lo,
    ensures
        field_get(field_set(byte, lo, width, value), other_lo, other_width) == field_get(
            byte,
            other_lo,
            other_width,
        ),
{
    assert(field_fits(lo, width) && field_fits(other_lo, other_width) && (lo + width <= other_lo
        || other_lo + other_width <= lo) ==> field_get(
        field_set(byte, lo, width, value),
        other_lo,
        other_width,
    ) == field_get(byte, other_lo, other_width)) by (bit_vector);
}

/// Writing back the value just read changes nothing.
pub proof fn lemma_field_set_get(byte: u8, lo: u8, width: u8)
    requires
        field_fits(lo, width),
    ensures
        field_set(byte, lo, width, field_get(byte, lo, width)) == byte,
{
    assert(field_fits(lo, width) ==> field_set(byte, lo, width, field_get(byte, lo, width))
        == byte) by (bit_vector);
}

/// A second write of the same field overrides the first.
pub proof fn lemma_field_set_set(byte: u8, lo: u8, width: u8, first: u8, second: u8)
    requires
        field_fits(lo, width),
    ensures
        field_set(field_set(byte, lo, width, first), lo, width, second) == field_set(
            byte,
            lo,
            width,
            second,
        ),
{
    assert(field_fits(lo, width) ==> field_set(field_set(byte, lo, width, first), lo, width, second)
        == field_set(byte, lo, width, second)) by (bit_vector);
}

/// Writes to two fields that do not overlap can be made in either order.
pub proof fn lemma_field_set_commute(
    byte: u8,
    lo: u8,
    width: u8,
    value: u8,
    other_lo: u8,
    other_width: u8,
    other_value: u8,
)
    requires
        field_fits(lo, width),
        field_fits(other_lo, other_width),
        lo + width <= other_lo || other_lo + other_width <= lo,
    ensures
        field_set(field_set(byte, lo, width, value), other_lo, other_width, other_value)
            == field_set(field_set(byte, other_lo, other_width, other_value), lo, width, value),
{
    assert(field_fits(lo, width) && field_fits(other_lo, other_width) && (lo + width <= other_lo
        || other_lo + other_width <= lo) ==> field_set(
        field_set(byte, lo, width, value),
        other_lo,
        other_width,
        other_value,
    ) == field_set(field_set(byte, other_lo, other_width, other_value), lo, width, value))
        by (bit_vector);
}

/// The mask of the `width` low bits of a byte.
fn mask_of_width(width: u8) -> (r: u8)
    ensures
        r == low_mask(width),
{
    if width <= 1 {
        0x01
    } else if width == 2 {
        0x03
    } else if width == 3 {
        0x07
    } else if width == 4 {
        0x0F
    } else if width == 5 {
        0x1F
    } else if width == 6 {
        0x3F
    } else if width == 7 {
        0x7F
    } else {
        0xFF
    }
}

/// Reads the field of `width` bits at offset `lo` of `byte`.
pub fn read_field(byte: u8, lo: u8, width: u8) -> (r: u8)
    requires
        field_fits(lo, width),
    ensures
        r == field_get(byte, lo, width),
        fits_width(r, width),
{
    let mask: u8 = mask_of_width(width);
    let r = (byte >> lo) & mask;
    assert((byte >> lo) & mask <= mask) by (bit_vector);
    r
}

/// Replaces the field of `width` bits at offset `lo` of `byte` by the low
/// `width` bits of `value`.
pub fn write_field(byte: u8, lo: u8, width: u8, value: u8) -> (r: u8)
    requires
        field_fits(lo, width),
    ensures
        r == field_set(byte, lo, width, value),
{
    let mask: u8 = mask_of_width(width);
    (byte & !(mask << lo)) | ((value & mask) << lo)
}

} // verus!

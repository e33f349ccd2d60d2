//! Bit-field access on register and descriptor words.
//!
//! A field is a mask (unshifted, least significant bit set) together with a
//! shift. Reading and replacing a field is done by `tock_registers`, and the
//! functions here state what those calls compute.

use vstd::prelude::*;

verus! {

/// The value of the field `(mask, shift)` inside the 32-bit word `val`.
pub open spec fn field_of32(val: u32, mask: u32, shift: u32) -> u32 {
    (val & (mask << shift)) >> shift
}

/// The 32-bit word `val` with the field `(mask, shift)` replaced by `value`.
pub open spec fn with_field32(val: u32, mask: u32, shift: u32, value: u32) -> u32 {
    (val & !(mask << shift)) | ((value & mask) << shift)
}

/// The value of the field `(mask, shift)` inside the 64-bit word `val`.
pub open spec fn field_of64(val: u64, mask: u64, shift: u64) -> u64 {
    (val & (mask << shift)) >> shift
}

/// The 64-bit word `val` with the field `(mask, shift)` replaced by `value`.
pub open spec fn with_field64(val: u64, mask: u64, shift: u64, value: u64) -> u64 {
    (val & !(mask << shift)) | ((value & mask) << shift)
}

/// Calls `tock_registers::fields::Field::read` on a 32-bit word. The crate
/// masks the word with the shifted mask and shifts the result down; the shift
/// must stay below the word's width.
#[verifier::external_body]
pub(crate) fn read_field32(val: u32, mask: u32, shift: u32) -> (r: u32)
    requires
        shift < 32,
    ensures
        r == field_of32(val, mask, shift),
{
    tock_registers::fields::Field::<u32, ()>::new(mask, shift as usize).read(val)
}

/// Calls `tock_registers::fields::FieldValue::modify` on a 32-bit word, with
/// the field value built by `Field::val`. The crate clears the bits under the
/// shifted mask and sets them to `value`, cut to the mask.
#[verifier::external_body]
pub(crate) fn write_field32(val: u32, mask: u32, shift: u32, value: u32) -> (r: u32)
    requires
        shift < 32,
    ensures
        r == with_field32(val, mask, shift, value),
{
    tock_registers::fields::Field::<u32, ()>::new(mask, shift as usize).val(value).modify(val)
}

/// Calls `tock_registers::fields::Field::read` on a 64-bit word.
#[verifier::external_body]
pub(crate) fn read_field64(val: u64, mask: u64, shift: u64) -> (r: u64)
    requires
        shift < 64,
    ensures
        r == field_of64(val, mask, shift),
{
    tock_registers::fields::Field::<u64, ()>::new(mask, shift as usize).read(val)
}

/// Calls `tock_registers::fields::FieldValue::modify` on a 64-bit word, with
/// the field value built by `Field::val`.
#[verifier::external_body]
pub(crate) fn write_field64(val: u64, mask: u64, shift: u64, value: u64) -> (r: u64)
    requires
        shift < 64,
    ensures
        r == with_field64(val, mask, shift, value),
{
    tock_registers::fields::Field::<u64, ()>::new(mask, shift as usize).val(value).modify(val)
}

/// Byte `i` of a 32-bit word, byte 0 being the least significant.
pub open spec fn byte_of32(val: u32, i: u32) -> u8 {
    field_of32(val, 0xFF, (8 * i) as u32) as u8
}

/// Byte `i` of a 64-bit word, byte 0 being the least significant.
pub open spec fn byte_of64(val: u64, i: u64) -> u8 {
    field_of64(val, 0xFF, (8 * i) as u64) as u8
}

/// Byte `i` of a 32-bit word.
pub fn get_byte32(val: u32, i: u32) -> (r: u8)
    requires
        i < 4,
    ensures
        r == byte_of32(val, i),
{
    let shift: u32 = 8 * i;
    proof {
        lemma_field_bound32(val, 0xFF, shift);
    }
    read_field32(val, 0xFF, shift) as u8
}

/// Byte `i` of a 64-bit word.
pub fn get_byte64(val: u64, i: u64) -> (r: u8)
    requires
        i < 8,
    ensures
        r == byte_of64(val, i),
{
    let shift: u64 = 8 * i;
    proof {
        lemma_field_bound64(val, 0xFF, shift);
    }
    read_field64(val, 0xFF, shift) as u8
}

/// A field's value is never above its mask.
pub proof fn lemma_field_bound32(val: u32, mask: u32, shift: u32)
    by (bit_vector)
    requires
        shift < 32,
    ensures
        field_of32(val, mask, shift) <= mask,
{
}

/// A field's value is never above its mask.
pub proof fn lemma_field_bound64(val: u64, mask: u64, shift: u64)
    by (bit_vector)
    requires
        shift < 64,
    ensures
        field_of64(val, mask, shift) <= mask,
{
}

/// A field that fits in its word reads back what was written to it, cut to
/// the mask.
pub proof fn lemma_read_after_write32(val: u32, mask: u32, shift: u32, value: u32)
    by (bit_vector)
    requires
        shift < 32,
        (mask << shift) >> shift == mask,
    ensures
        field_of32(with_field32(val, mask, shift, value), mask, shift) == value & mask,
{
}

/// Writing one field leaves every field that shares no bit with it as it was.
pub proof fn lemma_write_keeps_other32(val: u32, mask: u32, shift: u32, value: u32, m2: u32, s2: u32)
    by (bit_vector)
    requires
        shift < 32,
        s2 < 32,
        (mask << shift) & (m2 << s2) == 0,
    ensures
        field_of32(with_field32(val, mask, shift, value), m2, s2) == field_of32(val, m2, s2),
{
}

/// A 64-bit field that fits in its word reads back what was written to it,
/// cut to the mask.
pub proof fn lemma_read_after_write64(val: u64, mask: u64, shift: u64, value: u64)
    by (bit_vector)
    requires
        shift < 64,
        (mask << shift) >> shift == mask,
    ensures
        field_of64(with_field64(val, mask, shift, value), mask, shift) == value & mask,
{
}

/// A pointer that is written into a zeroed field from bit 4 up, with the
/// high word beside it, is read back whole if it is 16-byte aligned.
pub proof fn lemma_pointer_words(a: u64)
    by (bit_vector)
    requires
        a % 16 == 0,
    ensures
        ((with_field32(0, 0x0FFF_FFFF, 4, (a >> 4) as u32) as u64) | ((((a >> 32) as u32) as u64) << 32)) == a,
{
}

} // verus!

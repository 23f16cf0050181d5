//! Bit fields of 32-bit registers.
//!
//! The arithmetic is that of the `tock-registers` crate, reached through the
//! four small trusted functions at the end of this file; the spec functions
//! on [`Field`] and [`FieldValue`] say what it computes.

use vstd::prelude::*;

verus! {

/// A bit field of a 32-bit register: `mask` is the field's mask before it is
/// shifted into place, `shift` the position of its least significant bit.
#[derive(Clone, Copy, Debug, PartialEq, Eq)]
pub struct Field {
    pub mask: u32,
    pub shift: u32,
}

/// A value for one or more fields of a register, already shifted into place:
/// `mask` covers the bits that are written, `value` holds what is written to
/// them.
#[derive(Clone, Copy, Debug, PartialEq, Eq)]
pub struct FieldValue {
    pub mask: u32,
    pub value: u32,
}

impl Field {
    /// The field lies within the register.
    pub open spec fn valid(self) -> bool {
        self.shift < 32
    }

    /// The bits of the register that the field occupies.
    pub open spec fn bits(self) -> u32 {
        self.mask << self.shift
    }

    /// `value`, cut to the field's width and shifted into place.
    pub open spec fn spec_val(self, value: u32) -> FieldValue {
        FieldValue { mask: self.mask << self.shift, value: (value & self.mask) << self.shift }
    }

    /// Whether any bit of the field is set in the register value `reg`.
    pub open spec fn spec_is_set(self, reg: u32) -> bool {
        reg & (self.mask << self.shift) != 0
    }

    /// The value that the field holds in the register value `reg`.
    pub open spec fn spec_read(self, reg: u32) -> u32 {
        (reg & (self.mask << self.shift)) >> self.shift
    }

    pub open spec fn spec_bit(shift: u32) -> Field {
        Field { mask: 1, shift }
    }

    /// The single-bit field at position `shift`.
    #[verifier::when_used_as_spec(spec_bit)]
    pub fn bit(shift: u32) -> (f: Field)
        ensures
            f == Field::spec_bit(shift),
    {
        Field { mask: 1, shift }
    }
}

impl FieldValue {
    /// Both values together: the union of the masks and of the masked values.
    pub open spec fn spec_plus(self, other: FieldValue) -> FieldValue {
        FieldValue {
            mask: self.mask | other.mask,
            value: (self.value & self.mask) | (other.value & other.mask),
        }
    }

    /// The register value `reg` with the covered bits replaced and every other
    /// bit kept.
    pub open spec fn spec_modify(self, reg: u32) -> u32 {
        (reg & !self.mask) | (self.value & self.mask)
    }
}

/// `Field::val` of tock-registers on a `u32` field: the result's mask is the
/// field's mask shifted into place, its value is `value` cut to the mask and
/// shifted likewise. The shift must stay below the register width, or the
/// outside code overflows.
#[verifier::external_body]
pub(crate) fn field_val(field: Field, value: u32) -> (r: FieldValue)
    requires
        field.valid(),
    ensures
        r == field.spec_val(value),
{
    let raw = tock_registers::fields::Field::<u32, ()>::new(field.mask, field.shift as usize)
        .val(value);
    FieldValue { mask: raw.mask(), value: raw.value }
}

/// `Field::is_set` of tock-registers on a `u32` register value: true when the
/// value has a bit in common with the field's shifted mask.
#[verifier::external_body]
pub(crate) fn field_is_set(field: Field, reg: u32) -> (r: bool)
    requires
        field.valid(),
    ensures
        r == field.spec_is_set(reg),
{
    tock_registers::fields::Field::<u32, ()>::new(field.mask, field.shift as usize).is_set(reg)
}

/// The `+` of tock-registers on two field values: masks and values are each
/// combined with a bitwise or.
#[verifier::external_body]
pub(crate) fn field_value_plus(a: FieldValue, b: FieldValue) -> (r: FieldValue)
    ensures
        r == a.spec_plus(b),
{
    let raw = tock_registers::fields::FieldValue::<u32, ()>::new(a.mask, 0, a.value)
        + tock_registers::fields::FieldValue::<u32, ()>::new(b.mask, 0, b.value);
    FieldValue { mask: raw.mask(), value: raw.value }
}

/// `FieldValue::modify` of tock-registers: clears the masked bits of `reg`
/// and ors the value in.
#[verifier::external_body]
pub(crate) fn field_value_modify(fv: FieldValue, reg: u32) -> (r: u32)
    ensures
        r == fv.spec_modify(reg),
{
    tock_registers::fields::FieldValue::<u32, ()>::new(fv.mask, 0, fv.value).modify(reg)
}

} // verus!

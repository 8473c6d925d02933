//! Bit fields of 32-bit device registers, computed by tock-registers.
use vstd::prelude::*;

verus! {

/// Relies on tock_registers::fields::Field::read, which extracts the field
/// `mask` at `shift` from a register value: `(value & (mask << shift)) >> shift`.
#[verifier::external_body]
pub(crate) fn field_read(mask: u32, shift: u32, value: u32) -> (r: u32)
    requires
        shift < 32,
    ensures
        r == (value & (mask << shift)) >> shift,
{
    tock_registers::fields::Field::<u32, ()>::new(mask, shift as usize).read(value)
}

/// Relies on tock_registers::fields::FieldValue::new (through Field::val),
/// whose `value` is the field content placed in the register:
/// `(content & mask) << shift`.
#[verifier::external_body]
pub(crate) fn field_value(mask: u32, shift: u32, content: u32) -> (r: u32)
    requires
        shift < 32,
    ensures
        r == (content & mask) << shift,
{
    tock_registers::fields::Field::<u32, ()>::new(mask, shift as usize).val(content).value
}

} // verus!

//! Register fields given by a mask and a shift.
//!
//! The functions here hand a value to the `tock-registers` crate and say,
//! each in its contract, what that crate computes from it.

use tock_registers::fields::Field;
use tock_registers::LocalRegisterCopy;
use vstd::prelude::*;

verus! {

/// The field of `value` that is `mask` wide and starts at bit `shift`.
pub open spec fn field_of(value: usize, mask: usize, shift: usize) -> usize {
    (value & (mask << shift)) >> shift
}

/// The register value that holds `value` in the field that is `mask` wide
/// and starts at bit `shift`, and zero in every other field.
pub open spec fn field_alone(mask: usize, shift: usize, value: usize) -> usize {
    (value & mask) << shift
}

/// Calls `tock_registers::fields::Field::read` on the field made by
/// `Field::new(mask, shift)`. The contract claims that the result is
/// `value` masked by `mask << shift` and shifted down by `shift`. A shift
/// by the width of the word or more overflows in the outside function, so
/// it is left out.
#[verifier::external_body]
pub(crate) fn read_field(value: usize, mask: usize, shift: usize) -> (r: usize)
    requires
        shift < usize::BITS,
    ensures
        r == field_of(value, mask, shift),
{
    Field::<usize, ()>::new(mask, shift).read(value)
}

/// Calls `tock_registers::LocalRegisterCopy::write` on a local copy of
/// `current` with the field value made by `Field::new(mask, shift)` and
/// `Field::val(value)`, and returns what `LocalRegisterCopy::get` then
/// gives. The contract claims that the write replaces the whole register
/// by `(value & mask) << shift`, whatever `current` was. A shift by the
/// width of the word or more overflows in the outside function, so it is
/// left out.
#[verifier::external_body]
pub(crate) fn write_field(current: usize, mask: usize, shift: usize, value: usize) -> (r: usize)
    requires
        shift < usize::BITS,
    ensures
        r == field_alone(mask, shift, value),
{
    let mut local = LocalRegisterCopy::<usize, ()>::new(current);
    local.write(Field::<usize, ()>::new(mask, shift).val(value));
    local.get()
}

} // verus!

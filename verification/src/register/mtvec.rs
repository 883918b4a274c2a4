//! mtvec register: the machine trap vector.
//!
//! The mode of the vector lies in bits 0 and 1 of the register, its base in
//! the bits above.

use crate::fields::{field_alone, field_of, read_field, write_field};
use vstd::prelude::*;

verus! {

/// Number of the `mtvec` register.
pub const CSR: u16 = 0x305;

/// Mask of the mode field, which starts at bit 0.
pub const MODE_MASK: usize = 0x3;

/// Bit at which the base field starts.
pub const BASE_SHIFT: usize = 2;

/// Code of the mode in which every trap enters at the base.
pub const DIRECT: usize = 0;

/// Code of the mode in which an interrupt enters at the base plus four
/// times its cause.
pub const VECTORED: usize = 1;

/// The mode field of a register value.
pub open spec fn mode_field(value: usize) -> usize {
    value & 0x3
}

/// The fields of this register, in plain shifts and masks.
proof fn lemma_fields(value: usize)
    by (bit_vector)
    ensures
        field_of(value, 0x3, 0) == value & 0x3,
        field_alone(0x3, 0, 0) == 0,
        field_alone(0x3, 0, 1) == 1,
        field_alone(!0usize >> 2, 2, value) == value << 2,
        (value << 2) & 0x3 == 0,
        (value << 2) >> 2 == value & (!0usize >> 2),
{
}

/// Returns true if the trap vector mode in `value` is `Direct`.
#[inline]
pub fn is_direct(value: usize) -> (r: bool)
    ensures
        r == (mode_field(value) == DIRECT),
{
    proof {
        lemma_fields(value);
    }
    read_field(value, MODE_MASK, 0) == DIRECT
}

/// Returns true if the trap vector mode in `value` is `Vectored`.
#[inline]
pub fn is_vectored(value: usize) -> (r: bool)
    ensures
        r == (mode_field(value) == VECTORED),
{
    proof {
        lemma_fields(value);
    }
    read_field(value, MODE_MASK, 0) == VECTORED
}

/// The value to write to set the trap vector mode to `Direct`, given the
/// value `current` of the register. The write covers the whole register:
/// the base is zero afterwards.
#[inline]
pub fn set_direct(current: usize) -> (r: usize)
    ensures
        r == 0,
{
    proof {
        lemma_fields(current);
    }
    write_field(current, MODE_MASK, 0, DIRECT)
}

/// The value to write to set the trap vector mode to `Vectored`, given
/// the value `current` of the register. The write covers the whole
/// register: the base is zero afterwards.
#[inline]
pub fn set_vectored(current: usize) -> (r: usize)
    ensures
        r == 1,
{
    proof {
        lemma_fields(current);
    }
    write_field(current, MODE_MASK, 0, VECTORED)
}

/// The value to write to set the trap vector base to `base_val`, given
/// the value `current` of the register: `base_val` from bit 2 on, its two
/// top bits dropped. The write covers the whole register: the mode is
/// `Direct` afterwards.
#[inline]
pub fn set_base(current: usize, base_val: usize) -> (r: usize)
    ensures
        r == base_val << 2,
        mode_field(r) == DIRECT,
        r >> 2 == base_val & (!0usize >> 2),
{
    proof {
        lemma_fields(base_val);
    }
    write_field(current, !0usize >> 2, BASE_SHIFT, base_val)
}

} // verus!

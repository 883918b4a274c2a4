//! mireg register
//!
//! External interrupts are controlled through an indirect register file.
//! To reach a register of that file, software writes the index of the
//! register to `miselect` and then accesses `mireg`, which stands for the
//! register chosen. The functions here say which index to write and what to
//! do to `mireg` after it, and read what came back.

use crate::bits::{bit_set, get_bit, word_bytes};
use crate::register::csr::CsrOp;
use vstd::prelude::*;

verus! {

/// Number of the `mireg` register.
pub const CSR: u16 = 0x351;

/// Number of the `miselect` register.
pub const SELECT_CSR: u16 = 0x350;

/// Index of the external interrupt delivery enable register.
pub const EIDELIVERY: usize = 0x70;

/// Index of the external interrupt threshold register.
pub const EITHRESHOLD: usize = 0x72;

/// Index of the first external interrupt pending register.
pub const EIP0: usize = 0x80;

/// Index of the first external interrupt enable register.
pub const EIE0: usize = 0xC0;

/// External interrupt delivery enable register
#[derive(Clone, Copy, Debug)]
pub struct Eidelivery {
    bits: usize,
}

impl View for Eidelivery {
    type V = usize;

    /// The raw bits of the register.
    closed spec fn view(&self) -> usize {
        self.bits
    }
}

impl Eidelivery {
    /// Returns the contents of the register as raw bits
    #[inline]
    pub fn bits(&self) -> (r: usize)
        ensures
            r == self@,
    {
        self.bits
    }

    /// Interrupt delivery is enabled
    #[inline]
    pub fn enabled(&self) -> (r: bool)
        ensures
            r == bit_set(self@, 0),
    {
        get_bit(self.bits, 0)
    }

    /// Interrupt delivery from a PLIC or APLIC is enabled
    #[inline]
    pub fn plic_enabled(&self) -> (r: bool)
        ensures
            r == bit_set(self@, 30),
    {
        get_bit(self.bits, 30)
    }
}

/// One access to the indirect register file: the index to write to
/// `miselect`, and what to do to `mireg` after it.
#[derive(Clone, Copy, Debug, PartialEq, Eq, Structural)]
pub struct IndirectOp {
    /// Index of the register in the file.
    pub select: usize,
    /// The access to `mireg`.
    pub op: CsrOp,
}

/// Where the pending and enable bits of an external interrupt lie: how
/// many registers after the first, and at which bit. Each register is as
/// wide as a machine word; with words of 64 bits only the registers of
/// even index exist.
pub open spec fn spec_int_register_bit(interrupt: usize) -> (usize, usize) {
    if usize::BITS == 32 {
        ((interrupt / 32) as usize, (interrupt % 32) as usize)
    } else {
        ((interrupt / 64 * 2) as usize, (interrupt % 64) as usize)
    }
}

/// Determine the register offset and bit position for the external
/// interrupt pending and external interrupt enabled registers
pub fn int_register_bit(interrupt: usize) -> (r: (usize, usize))
    ensures
        r == spec_int_register_bit(interrupt),
        r.1 < usize::BITS,
        EIE0 + r.0 <= usize::MAX,
{
    if word_bytes() == 4 {
        (interrupt / 32, interrupt % 32)
    } else {
        (interrupt / 64 * 2, interrupt % 64)
    }
}

/// The machine external interrupt delivery enable register, from the
/// value read of `mireg` after `miselect` was set to `EIDELIVERY`.
pub fn read_eidelivery(value: usize) -> (r: Eidelivery)
    ensures
        r@ == value,
{
    Eidelivery { bits: value }
}

/// The access that writes `value` to the machine external interrupt
/// delivery enable register.
pub fn write_eidelivery(value: usize) -> (r: IndirectOp)
    ensures
        r == (IndirectOp { select: EIDELIVERY, op: CsrOp::Write(value) }),
{
    IndirectOp { select: EIDELIVERY, op: CsrOp::Write(value) }
}

/// The access that writes `value` to the machine external interrupt
/// threshold register.
pub fn write_eithreshold(value: usize) -> (r: IndirectOp)
    ensures
        r == (IndirectOp { select: EITHRESHOLD, op: CsrOp::Write(value) }),
{
    IndirectOp { select: EITHRESHOLD, op: CsrOp::Write(value) }
}

/// The index to write to `miselect` before the pending bit of the external
/// interrupt `interrupt` is read.
pub fn eip_select(interrupt: usize) -> (r: usize)
    ensures
        r == EIP0 + spec_int_register_bit(interrupt).0,
{
    let (register, _bit) = int_register_bit(interrupt);
    EIP0 + register
}

/// The index to write to `miselect` before the enable bit of the external
/// interrupt `interrupt` is read.
pub fn eie_select(interrupt: usize) -> (r: usize)
    ensures
        r == EIE0 + spec_int_register_bit(interrupt).0,
{
    let (register, _bit) = int_register_bit(interrupt);
    EIE0 + register
}

/// The machine external interrupt pending bit of `interrupt`, from the
/// value read of `mireg` after `miselect` was set to `eip_select(interrupt)`.
pub fn read_eip(value: usize, interrupt: usize) -> (r: bool)
    ensures
        r == ((value >> spec_int_register_bit(interrupt).1) & 1 == 1),
{
    let (_register, bit) = int_register_bit(interrupt);
    (value >> bit) & 1 == 1
}

/// The access that sets the machine external interrupt pending bit of
/// `interrupt`.
pub fn set_eip(interrupt: usize) -> (r: IndirectOp)
    ensures
        r == (IndirectOp {
            select: (EIP0 + spec_int_register_bit(interrupt).0) as usize,
            op: CsrOp::SetBits(1usize << spec_int_register_bit(interrupt).1),
        }),
{
    let (register, bit) = int_register_bit(interrupt);
    IndirectOp { select: EIP0 + register, op: CsrOp::SetBits(1usize << bit) }
}

/// The access that clears the machine external interrupt pending bit of
/// `interrupt`.
pub fn clear_eip(interrupt: usize) -> (r: IndirectOp)
    ensures
        r == (IndirectOp {
            select: (EIP0 + spec_int_register_bit(interrupt).0) as usize,
            op: CsrOp::ClearBits(1usize << spec_int_register_bit(interrupt).1),
        }),
{
    let (register, bit) = int_register_bit(interrupt);
    IndirectOp { select: EIP0 + register, op: CsrOp::ClearBits(1usize << bit) }
}

/// The machine external interrupt enable bit of `interrupt`, from the
/// value read of `mireg` after `miselect` was set to `eie_select(interrupt)`.
pub fn read_eie(value: usize, interrupt: usize) -> (r: bool)
    ensures
        r == ((value >> spec_int_register_bit(interrupt).1) & 1 == 1),
{
    let (_register, bit) = int_register_bit(interrupt);
    (value >> bit) & 1 == 1
}

/// The access that sets the machine external interrupt enable bit of
/// `interrupt`.
pub fn set_eie(interrupt: usize) -> (r: IndirectOp)
    ensures
        r == (IndirectOp {
            select: (EIE0 + spec_int_register_bit(interrupt).0) as usize,
            op: CsrOp::SetBits(1usize << spec_int_register_bit(interrupt).1),
        }),
{
    let (register, bit) = int_register_bit(interrupt);
    IndirectOp { select: EIE0 + register, op: CsrOp::SetBits(1usize << bit) }
}

/// The access that clears the machine external interrupt enable bit of
/// `interrupt`.
pub fn clear_eie(interrupt: usize) -> (r: IndirectOp)
    ensures
        r == (IndirectOp {
            select: (EIE0 + spec_int_register_bit(interrupt).0) as usize,
            op: CsrOp::ClearBits(1usize << spec_int_register_bit(interrupt).1),
        }),
{
    let (register, bit) = int_register_bit(interrupt);
    IndirectOp { select: EIE0 + register, op: CsrOp::ClearBits(1usize << bit) }
}

} // verus!

//! mstateen0 register, of the Smstateen extension

use crate::bits::{bit_set, get_bit};
use vstd::prelude::*;

verus! {

/// Number of the `mstateen0` register.
pub const CSR: u16 = 0x30C;

/// mstateen0 register
#[derive(Clone, Copy, Debug)]
pub struct Mstateen0 {
    bits: usize,
}

impl View for Mstateen0 {
    type V = usize;

    /// The raw bits of the register.
    closed spec fn view(&self) -> usize {
        self.bits
    }
}

impl Mstateen0 {
    /// The value of the register whose raw bits are `bits`.
    #[inline]
    pub fn from_bits(bits: usize) -> (r: Mstateen0)
        ensures
            r@ == bits,
    {
        Mstateen0 { bits }
    }

    /// Returns the contents of the register as raw bits
    #[inline]
    pub fn bits(&self) -> (r: usize)
        ensures
            r == self@,
    {
        self.bits
    }

    /// hstateen0, hstateen0h, and the sstateen0 CSRs. On a 64-bit hart.
    #[inline]
    pub fn se0(&self) -> (r: bool)
        requires
            usize::BITS == 64,
        ensures
            r == bit_set(self@, 63),
    {
        get_bit(self.bits, 63)
    }

    /// henvcfg, henvcfgh, and the senvcfg CSRs. On a 64-bit hart.
    #[inline]
    pub fn envcfg(&self) -> (r: bool)
        requires
            usize::BITS == 64,
        ensures
            r == bit_set(self@, 62),
    {
        get_bit(self.bits, 62)
    }

    /// Sscsrind extension. On a 64-bit hart.
    #[inline]
    pub fn csrind(&self) -> (r: bool)
        requires
            usize::BITS == 64,
        ensures
            r == bit_set(self@, 60),
    {
        get_bit(self.bits, 60)
    }

    /// AIA state. On a 64-bit hart.
    #[inline]
    pub fn aia(&self) -> (r: bool)
        requires
            usize::BITS == 64,
        ensures
            r == bit_set(self@, 59),
    {
        get_bit(self.bits, 59)
    }

    /// IMSIC state. On a 64-bit hart.
    #[inline]
    pub fn imsic(&self) -> (r: bool)
        requires
            usize::BITS == 64,
        ensures
            r == bit_set(self@, 58),
    {
        get_bit(self.bits, 58)
    }

    /// scontext and hcontext, specified by Sdtrig. On a 64-bit hart.
    #[inline]
    pub fn context(&self) -> (r: bool)
        requires
            usize::BITS == 64,
        ensures
            r == bit_set(self@, 57),
    {
        get_bit(self.bits, 57)
    }

    /// Privileged Specification Version 1.13: hedelegh. On a 64-bit hart.
    #[inline]
    pub fn p1p13(&self) -> (r: bool)
        requires
            usize::BITS == 64,
        ensures
            r == bit_set(self@, 56),
    {
        get_bit(self.bits, 56)
    }

    /// jvt, specified by the Zcmt extension
    #[inline]
    pub fn jvt(&self) -> (r: bool)
        ensures
            r == bit_set(self@, 2),
    {
        get_bit(self.bits, 2)
    }

    /// fcsr, specified by Zfinx and related extensions
    #[inline]
    pub fn fcsr(&self) -> (r: bool)
        ensures
            r == bit_set(self@, 1),
    {
        get_bit(self.bits, 1)
    }

    /// Custom state
    #[inline]
    pub fn c(&self) -> (r: bool)
        ensures
            r == bit_set(self@, 0),
    {
        get_bit(self.bits, 0)
    }
}

} // verus!

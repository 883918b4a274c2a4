//! menvcfgh register: the upper half of menvcfg on a 32-bit hart

use crate::bits::{bit_set, get_bit};
use vstd::prelude::*;

verus! {

/// Number of the `menvcfgh` register.
pub const CSR: u16 = 0x31A;

/// menvcfgh register
#[derive(Clone, Copy, Debug)]
pub struct Menvcfgh {
    bits: usize,
}

impl View for Menvcfgh {
    type V = usize;

    /// The raw bits of the register.
    closed spec fn view(&self) -> usize {
        self.bits
    }
}

impl Menvcfgh {
    /// The value of the register whose raw bits are `bits`.
    #[inline]
    pub fn from_bits(bits: usize) -> (r: Menvcfgh)
        ensures
            r@ == bits,
    {
        Menvcfgh { bits }
    }

    /// Returns the contents of the register as raw bits
    #[inline]
    pub fn bits(&self) -> (r: usize)
        ensures
            r == self@,
    {
        self.bits
    }

    /// PBMTE controls whether the Svpbmt extension is available for use in S-mode and
    /// G-stage address translation
    #[inline]
    pub fn pbmte(&self) -> (r: bool)
        ensures
            r == bit_set(self@, 30),
    {
        get_bit(self.bits, 30)
    }

    /// STimeCmp Enable
    #[inline]
    pub fn stce(&self) -> (r: bool)
        ensures
            r == bit_set(self@, 31),
    {
        get_bit(self.bits, 31)
    }
}

} // verus!

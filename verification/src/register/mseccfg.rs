//! mseccfg register

use crate::bits::{bit_set, get_bit};
use vstd::prelude::*;

verus! {

/// Number of the `mseccfg` register.
pub const CSR: u16 = 0x747;

/// mseccfg register
#[derive(Clone, Copy, Debug)]
pub struct Mseccfg {
    bits: usize,
}

impl View for Mseccfg {
    type V = usize;

    /// The raw bits of the register.
    closed spec fn view(&self) -> usize {
        self.bits
    }
}

impl Mseccfg {
    /// The value of the register whose raw bits are `bits`.
    #[inline]
    pub fn from_bits(bits: usize) -> (r: Mseccfg)
        ensures
            r@ == bits,
    {
        Mseccfg { bits }
    }

    /// Returns the contents of the register as raw bits
    #[inline]
    pub fn bits(&self) -> (r: usize)
        ensures
            r == self@,
    {
        self.bits
    }

    /// Rule Locking Bypass
    #[inline]
    pub fn rlb(&self) -> (r: bool)
        ensures
            r == bit_set(self@, 2),
    {
        get_bit(self.bits, 2)
    }

    /// Machine Mode Whitelist Policy
    #[inline]
    pub fn mmwp(&self) -> (r: bool)
        ensures
            r == bit_set(self@, 1),
    {
        get_bit(self.bits, 1)
    }

    /// Machine Mode Lockdown
    #[inline]
    pub fn mml(&self) -> (r: bool)
        ensures
            r == bit_set(self@, 0),
    {
        get_bit(self.bits, 0)
    }
}

} // verus!

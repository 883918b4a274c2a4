//! mtopei register: the external interrupt that is first in line.
//!
//! A read of the register shows that interrupt; a write to it claims the
//! interrupt for the handler.

use crate::bits::{get_bits, lemma_bit_ranges};
use vstd::prelude::*;

verus! {

/// Number of the `mtopei` register.
pub const CSR: u16 = 0x35C;

/// mtopei register
#[derive(Clone, Copy, Debug)]
pub struct Mtopei {
    bits: usize,
}

impl View for Mtopei {
    type V = usize;

    /// The raw bits of the register.
    closed spec fn view(&self) -> usize {
        self.bits
    }
}

impl Mtopei {
    /// The value of the register whose raw bits are `bits`.
    #[inline]
    pub fn from_bits(bits: usize) -> (r: Mtopei)
        ensures
            r@ == bits,
    {
        Mtopei { bits }
    }

    /// Returns the contents of the register as raw bits
    #[inline]
    pub fn bits(&self) -> (r: usize)
        ensures
            r == self@,
    {
        self.bits
    }

    /// Interrupt identity: bits 16 to 25.
    #[inline]
    pub fn identity(&self) -> (r: usize)
        ensures
            r == (self@ >> 16) & 0x3ff,
    {
        proof {
            lemma_bit_ranges(self.bits);
        }
        get_bits(self.bits, 16, 26)
    }

    /// Interrupt priority: bits 0 to 9.
    #[inline]
    pub fn priority(&self) -> (r: usize)
        ensures
            r == self@ & 0x3ff,
    {
        proof {
            lemma_bit_ranges(self.bits);
        }
        get_bits(self.bits, 0, 10)
    }
}

} // verus!

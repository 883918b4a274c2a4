//! menvcfg register

use crate::bits::{
    bit_set, get_bit, get_bits, lemma_bit_range_writes, lemma_bit_ranges, set_bits,
};
use vstd::prelude::*;

verus! {

/// Number of the `menvcfg` register.
pub const CSR: u16 = 0x30A;

/// menvcfg register
#[derive(Clone, Copy, Debug)]
pub struct Menvcfg {
    bits: usize,
}

impl View for Menvcfg {
    type V = usize;

    /// The raw bits of the register.
    closed spec fn view(&self) -> usize {
        self.bits
    }
}

/// Cache Block Invalidate instruction Enable
#[derive(Copy, Clone, Debug, Eq, PartialEq, Structural)]
pub enum CBIE {
    IllegalInstruction,
    ExecutedFlush,
    Reserved,
    ExecutedInvalidate,
}

impl CBIE {
    /// The code of the choice in the register.
    pub open spec fn spec_code(self) -> usize {
        match self {
            CBIE::IllegalInstruction => 0,
            CBIE::ExecutedFlush => 1,
            CBIE::Reserved => 2,
            CBIE::ExecutedInvalidate => 3,
        }
    }

    /// The code of the choice in the register.
    pub fn code(self) -> (r: usize)
        ensures
            r == self.spec_code(),
    {
        match self {
            CBIE::IllegalInstruction => 0,
            CBIE::ExecutedFlush => 1,
            CBIE::Reserved => 2,
            CBIE::ExecutedInvalidate => 3,
        }
    }
}

/// What the CBIE accessor reads of a register value: bit 4.
pub open spec fn cbie_field(bits: usize) -> usize {
    (bits >> 4) & 0x1
}

/// The choice that a code stands for.
pub open spec fn cbie_of(code: usize) -> CBIE {
    if code == 0 {
        CBIE::IllegalInstruction
    } else if code == 1 {
        CBIE::ExecutedFlush
    } else if code == 2 {
        CBIE::Reserved
    } else {
        CBIE::ExecutedInvalidate
    }
}

impl Menvcfg {
    /// The value of the register whose raw bits are `bits`.
    #[inline]
    pub fn from_bits(bits: usize) -> (r: Menvcfg)
        ensures
            r@ == bits,
    {
        Menvcfg { bits }
    }

    /// Returns the contents of the register as raw bits
    #[inline]
    pub fn bits(&self) -> (r: usize)
        ensures
            r == self@,
    {
        self.bits
    }

    /// Fence of I/O implies Memory
    #[inline]
    pub fn fiom(&self) -> (r: bool)
        ensures
            r == bit_set(self@, 0),
    {
        get_bit(self.bits, 0)
    }

    /// Landing Pad Enable
    #[inline]
    pub fn lpe(&self) -> (r: bool)
        ensures
            r == bit_set(self@, 2),
    {
        get_bit(self.bits, 2)
    }

    /// Shadow Stack Enable
    #[inline]
    pub fn sse(&self) -> (r: bool)
        ensures
            r == bit_set(self@, 3),
    {
        get_bit(self.bits, 3)
    }

    /// Cache Block Invalidate instruction Enable, read from bit 4.
    #[inline]
    pub fn cbie(&self) -> (r: CBIE)
        ensures
            r == cbie_of(cbie_field(self@)),
    {
        proof {
            lemma_bit_ranges(self.bits);
        }
        let code = get_bits(self.bits, 4, 5);
        if code == 0 {
            CBIE::IllegalInstruction
        } else if code == 1 {
            CBIE::ExecutedFlush
        } else if code == 2 {
            CBIE::Reserved
        } else {
            CBIE::ExecutedInvalidate
        }
    }

    /// Cache Block Clean and Flush instruction Enable
    #[inline]
    pub fn cbcfe(&self) -> (r: bool)
        ensures
            r == bit_set(self@, 6),
    {
        get_bit(self.bits, 6)
    }

    /// Cache Block Zero instruction Enable
    #[inline]
    pub fn cbze(&self) -> (r: bool)
        ensures
            r == bit_set(self@, 7),
    {
        get_bit(self.bits, 7)
    }

    /// Double Trap Enable. On a 64-bit hart.
    #[inline]
    pub fn dte(&self) -> (r: bool)
        requires
            usize::BITS == 64,
        ensures
            r == bit_set(self@, 59),
    {
        get_bit(self.bits, 59)
    }

    /// PTE A/D Bits Update Enable. On a 64-bit hart.
    #[inline]
    pub fn adue(&self) -> (r: bool)
        requires
            usize::BITS == 64,
        ensures
            r == bit_set(self@, 61),
    {
        get_bit(self.bits, 61)
    }

    /// PBMTE controls whether the Svpbmt extension is available for use in S-mode and
    /// G-stage address translation. On a 64-bit hart.
    #[inline]
    pub fn pbmte(&self) -> (r: bool)
        requires
            usize::BITS == 64,
        ensures
            r == bit_set(self@, 62),
    {
        get_bit(self.bits, 62)
    }

    /// STimeCmp Enable. On a 64-bit hart.
    #[inline]
    pub fn stce(&self) -> (r: bool)
        requires
            usize::BITS == 64,
        ensures
            r == bit_set(self@, 63),
    {
        get_bit(self.bits, 63)
    }
}

/// The value to write for a new Cache Block Invalidate instruction Enable,
/// given the value `current` of the register: `current` with bit 4
/// replaced by the code of `cbie`, which must fit that one bit.
#[inline]
pub fn set_cbie(current: usize, cbie: CBIE) -> (r: usize)
    requires
        cbie.spec_code() < 2,
    ensures
        r == (current & !0x10usize) | (cbie.spec_code() << 4),
        cbie_field(r) == cbie.spec_code(),
{
    proof {
        lemma_bit_range_writes(current, cbie.spec_code());
    }
    set_bits(current, 4, 5, cbie.code())
}

} // verus!

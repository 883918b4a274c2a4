//! hstatus register

use crate::bits::{
    bit_range, bit_set, get_bit, get_bits, lemma_bit_range_writes, lemma_bit_ranges, set_bits,
    with_bit_range,
};
use crate::register::csr::CsrOp;
use crate::register::misa::MXL;
use vstd::prelude::*;

verus! {

/// Number of the `hstatus` register.
pub const CSR: u16 = 0x600;

/// Hypervisor Status Register
#[derive(Clone, Copy, Debug)]
pub struct Hstatus {
    bits: usize,
}

impl View for Hstatus {
    type V = usize;

    /// The raw bits of the register.
    closed spec fn view(&self) -> usize {
        self.bits
    }
}

/// Supervisor Previous Virtual Privilege Mode
#[derive(Copy, Clone, Debug, Eq, PartialEq, Structural)]
pub enum SPVP {
    Supervisor,
    User,
}

/// The VGEIN field of a register value: bits 12 to 16.
pub open spec fn vgein_field(bits: usize) -> usize {
    (bits >> 12) & 0x1f
}

/// What the VSXL accessor reads of a register value: bit 32.
pub open spec fn vsxl_field(bits: usize) -> usize {
    (bits >> 32) & 0x1
}

/// The width that a VSXL code stands for.
pub open spec fn mxl_of(code: usize) -> MXL {
    if code == 1 {
        MXL::XLEN32
    } else if code == 2 {
        MXL::XLEN64
    } else {
        MXL::XLEN128
    }
}

/// The field reads and writes of a 64-bit hart, in plain shifts and masks.
proof fn lemma_wide_fields(bits: usize, value: usize)
    by (bit_vector)
    requires
        usize::BITS == 64,
    ensures
        bit_range(bits, 32, 33) == vsxl_field(bits),
        with_bit_range(bits, 32, 33, value) == (bits & !(1usize << 32)) | (value << 32),
        ((((bits & !(1usize << 32)) | (1usize << 32)) >> 32) & 0x1) == 1,
{
}

impl Hstatus {
    /// The value of the register whose raw bits are `bits`.
    #[inline]
    pub fn from_bits(bits: usize) -> (r: Hstatus)
        ensures
            r@ == bits,
    {
        Hstatus { bits }
    }

    /// Virtual Supervisor Big-endian Enable
    #[inline]
    pub fn vsbe(&self) -> (r: bool)
        ensures
            r == bit_set(self@, 5),
    {
        get_bit(self.bits, 5)
    }

    /// Guest Virtual Address
    #[inline]
    pub fn gva(&self) -> (r: bool)
        ensures
            r == bit_set(self@, 6),
    {
        get_bit(self.bits, 6)
    }

    /// Supervisor Previous Virtualization mode
    #[inline]
    pub fn spv(&self) -> (r: bool)
        ensures
            r == bit_set(self@, 7),
    {
        get_bit(self.bits, 7)
    }

    /// Supervisor Previous Virtual Privilege Mode
    #[inline]
    pub fn spvp(&self) -> (r: SPVP)
        ensures
            r == (if bit_set(self@, 8) {
                SPVP::Supervisor
            } else {
                SPVP::User
            }),
    {
        if get_bit(self.bits, 8) {
            SPVP::Supervisor
        } else {
            SPVP::User
        }
    }

    /// Hypervisor in U-mode, read from bit 7.
    #[inline]
    pub fn hu(&self) -> (r: bool)
        ensures
            r == bit_set(self@, 7),
    {
        get_bit(self.bits, 7)
    }

    /// Virtual Guest External Interrupt Number
    #[inline]
    pub fn vgein(&self) -> (r: usize)
        ensures
            r == vgein_field(self@),
    {
        proof {
            lemma_bit_ranges(self.bits);
        }
        get_bits(self.bits, 12, 17)
    }

    /// Virtual Mode Trap Virtual Memory
    #[inline]
    pub fn vtvm(&self) -> (r: bool)
        ensures
            r == bit_set(self@, 20),
    {
        get_bit(self.bits, 20)
    }

    /// Virtual Mode Timeout Wait
    #[inline]
    pub fn vtw(&self) -> (r: bool)
        ensures
            r == bit_set(self@, 21),
    {
        get_bit(self.bits, 21)
    }

    /// Virtual Mode Trap SRET
    #[inline]
    pub fn vtsr(&self) -> (r: bool)
        ensures
            r == bit_set(self@, 22),
    {
        get_bit(self.bits, 22)
    }

    /// VS-Mode XLEN, on a 64-bit hart. The field read holds a code of a
    /// width, which is never 0.
    #[inline]
    pub fn vsxl(&self) -> (r: MXL)
        requires
            usize::BITS == 64,
            1 <= vsxl_field(self@) <= 3,
        ensures
            r == mxl_of(vsxl_field(self@)),
    {
        proof {
            lemma_wide_fields(self.bits, 0);
        }
        let code = get_bits(self.bits, 32, 33);
        if code == 1 {
            MXL::XLEN32
        } else if code == 2 {
            MXL::XLEN64
        } else {
            MXL::XLEN128
        }
    }
}

/// The access that sets the Supervisor Previous Virtual Privilege Mode:
/// bit 8 is set for the supervisor and cleared for the user.
#[inline]
pub fn set_spvp(spvp: SPVP) -> (r: CsrOp)
    ensures
        r == (match spvp {
            SPVP::Supervisor => CsrOp::SetBits(0x100),
            SPVP::User => CsrOp::ClearBits(0x100),
        }),
{
    match spvp {
        SPVP::Supervisor => CsrOp::SetBits(0x100),
        SPVP::User => CsrOp::ClearBits(0x100),
    }
}

/// The value to write for a new Virtual Guest External Interrupt Number,
/// given the value `current` of the register: `current` with bits 12 to 16
/// replaced by `vgein`, which must fit them.
#[inline]
pub fn set_vgein(current: usize, vgein: usize) -> (r: usize)
    requires
        vgein < 32,
    ensures
        r == (current & !0x1_f000usize) | (vgein << 12),
        vgein_field(r) == vgein,
{
    proof {
        lemma_bit_range_writes(current, vgein);
    }
    set_bits(current, 12, 17, vgein)
}

/// The value to write for a new VS-Mode XLEN on a 64-bit hart, given the
/// value `current` of the register: `current` with bit 32 replaced by the
/// code of `vsxl`, which must fit that one bit.
#[inline]
pub fn set_vsxl(current: usize, vsxl: MXL) -> (r: usize)
    requires
        usize::BITS == 64,
        vsxl == MXL::XLEN32,
    ensures
        r == (current & !(1usize << 32)) | (1usize << 32),
        vsxl_field(r) == 1,
{
    proof {
        lemma_bit_range_writes(current, 1);
        lemma_wide_fields(current, 1);
    }
    set_bits(current, 32, 33, vsxl.code())
}

} // verus!

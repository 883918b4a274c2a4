//! Physical memory protection addresses
//!
//! An address register holds bits 2 and up of a physical address. In the
//! naturally aligned power-of-two mode the low bits of the register hold
//! the size of the region instead: a run of ones, the longer the larger the
//! region.

use crate::bits::{bit_set, get_bit};
use crate::register::csr::CsrWrite;
use crate::register::pmpcfgx::Mode;
use vstd::arithmetic::power2::pow2;
use vstd::prelude::*;

verus! {

/// Number of the first address register, `pmpaddr0`.
pub const PMPADDR0: u16 = 0x3B0;

/// Number of address registers.
pub const REGISTERS: usize = 64;

/// Size of a protected region, in bytes.
pub type Size = u64;

/// Size of a protected region that is not empty, in bytes.
pub type NonZeroSize = u64;

/// A physical address.
pub type Addr = u64;

/// The value of an address register.
#[derive(Copy, Clone, PartialEq, Eq, Debug)]
pub struct PmpAddr {
    bits: usize,
}

impl View for PmpAddr {
    type V = usize;

    /// The raw bits of the register.
    closed spec fn view(&self) -> usize {
        self.bits
    }
}

/// How many ones `bits` ends in, counted from bit 0.
pub open spec fn trailing_ones(bits: usize) -> nat
    decreases bits,
{
    if bits % 2 == 0 {
        0
    } else {
        1 + trailing_ones(bits / 2)
    }
}

/// The size in bytes that a run of `ones` low ones stands for: `2^(ones +
/// 3)`, and 0 where that is beyond 64 bits.
pub open spec fn napot_size(ones: nat) -> u64 {
    if ones <= 60 {
        pow2(ones + 3) as u64
    } else {
        0
    }
}

/// The bits of a register that hold the size where the register ends in
/// `ones` ones: those ones and the zero above them, `ones + 1` low bits in
/// all, as far as the word reaches.
pub open spec fn napot_mask(ones: nat) -> usize {
    if ones + 1 < usize::BITS {
        (pow2(ones + 1) - 1) as usize
    } else {
        usize::MAX
    }
}

/// The address and the size that a register value stands for in the
/// naturally aligned power-of-two mode: the value without the bits that
/// hold the size, times 4 and cut to 64 bits, and the size that the run of
/// low ones stands for.
pub open spec fn spec_decode_napot(bits: usize) -> (u64, u64) {
    (
        ((bits & !napot_mask(trailing_ones(bits))) as u64) << 2,
        napot_size(trailing_ones(bits)),
    )
}

/// The size field that `size` is encoded as: `(size - 1) / 8`.
pub open spec fn encoded_size(size: u64) -> u64 {
    ((size - 1) as u64) >> 3
}

/// Exactly one bit of `size` is set.
pub open spec fn single_bit(size: u64) -> bool {
    size == size & !((size - 1) as u64)
}

/// Whether the naturally aligned power-of-two encoding takes the pair: the
/// size field fits a machine word, the size does not have exactly one bit
/// set, and the address has no bit of the size field set.
pub open spec fn napot_encodable(addr: u64, size: u64) -> bool {
    &&& encoded_size(size) <= usize::MAX
    &&& !single_bit(size)
    &&& addr & encoded_size(size) == 0
}

/// The register value of an encodable pair: the address without its two
/// low bits, cut to a machine word, joined with the size field.
pub open spec fn spec_encode_napot(addr: u64, size: u64) -> usize {
    ((addr >> 2) as usize) | (encoded_size(size) as usize)
}

/// Whether an address register can hold `addr` as it is: the two low bits
/// of the address are zero, and the rest fits a machine word.
pub open spec fn word_aligned(addr: u64) -> bool {
    addr % 4 == 0 && addr / 4 <= usize::MAX
}

/// Shifts of a machine word by one bit, as arithmetic.
proof fn lemma_word_shifts(x: usize)
    by (bit_vector)
    ensures
        bit_set(x, 0) == (x % 2 != 0),
        x >> 1 == x / 2,
        x <= !0usize / 2 ==> (x << 1) | 1 == 2 * x + 1,
        x == !0usize ==> (x << 1) | 1 == x,
{
}

/// Shifts of an address and of a size by one and two bits, as arithmetic.
proof fn lemma_shifts(a: u64, s: u64)
    by (bit_vector)
    ensures
        a >> 2 == a / 4,
        s <= 0x7fff_ffff_ffff_ffff ==> s << 1 == 2 * s,
        s == 0x8000_0000_0000_0000 ==> s << 1 == 0,
        (a >> 2) << 2 == a <==> a % 4 == 0,
{
}

impl PmpAddr {
    /// The value of the register whose raw bits are `bits`.
    pub fn from_bits(bits: usize) -> (r: PmpAddr)
        ensures
            r@ == bits,
    {
        PmpAddr { bits }
    }

    /// The raw bits of the register value.
    pub fn bits(&self) -> (r: usize)
        ensures
            r == self@,
    {
        self.bits
    }

    /// What the register value stands for under the addressing mode
    /// `mode`: an address, where the mode has one, and a size, where the
    /// mode has one. In the naturally aligned power-of-two mode the size
    /// must be one that 64 bits hold.
    #[inline]
    pub fn decode(&self, mode: Mode) -> (r: (Option<Addr>, Option<NonZeroSize>))
        requires
            mode == Mode::NAPOT ==> trailing_ones(self@) <= 60,
        ensures
            mode == Mode::OFF ==> r == (None::<u64>, None::<u64>),
            mode == Mode::TOR ==> r == (Some((self@ as u64) << 2), None::<u64>),
            mode == Mode::NA4 ==> r == (Some((self@ as u64) << 2), Some(4u64)),
            mode == Mode::NAPOT ==> r == (
                Some(spec_decode_napot(self@).0),
                Some(spec_decode_napot(self@).1),
            ),
            r.1.is_some() ==> r.1.unwrap() != 0,
    {
        let big_bits: Addr = self.bits as Addr;
        match mode {
            Mode::OFF => (None, None),
            Mode::TOR => (Some(big_bits << 2), None),
            Mode::NA4 => (Some(big_bits << 2), Some(4)),
            Mode::NAPOT => {
                let (addr, size) = Self::decode_napot(self.bits);
                proof {
                    vstd::bits::lemma_u64_pow2_no_overflow(trailing_ones(self@) + 3);
                }
                (Some(addr), Some(size))
            },
        }
    }

    /// Sets the register value to what stands for `addr`, and for `size`
    /// in the naturally aligned power-of-two mode, under the addressing
    /// mode `mode`. Where the pair cannot be held the value stays as it
    /// is: an address that is not a multiple of 4 or too large for the
    /// register, or a pair that the power-of-two encoding does not take.
    #[inline]
    pub fn encode(&mut self, mode: Mode, addr: Addr, size: Option<NonZeroSize>) -> (r: Result<
        (),
        (),
    >)
        requires
            mode == Mode::NAPOT ==> size.is_some() && size.unwrap() != 0,
        ensures
            mode == Mode::OFF ==> r.is_ok() && final(self)@ == 0,
            mode == Mode::TOR || mode == Mode::NA4 ==> (r.is_ok() <==> word_aligned(addr)),
            (mode == Mode::TOR || mode == Mode::NA4) && r.is_ok() ==> final(self)@ == addr / 4,
            mode == Mode::NAPOT ==> (r.is_ok() <==> napot_encodable(addr, size.unwrap())),
            mode == Mode::NAPOT && r.is_ok() ==> final(self)@ == spec_encode_napot(
                addr,
                size.unwrap(),
            ),
            r.is_err() ==> final(self)@ == old(self)@,
    {
        match mode {
            Mode::OFF => {
                self.bits = 0;
                Ok(())
            },
            Mode::TOR | Mode::NA4 => {
                match Self::aligned_word(addr) {
                    None => Err(()),
                    Some(bits) => {
                        self.bits = bits;
                        Ok(())
                    },
                }
            },
            Mode::NAPOT => {
                match Self::encode_napot(addr, size.unwrap()) {
                    Err(e) => Err(e),
                    Ok(bits) => {
                        self.bits = bits;
                        Ok(())
                    },
                }
            },
        }
    }

    /// `addr` without its two low bits, where those are zero and the rest
    /// fits a machine word.
    fn aligned_word(addr: Addr) -> (r: Option<usize>)
        ensures
            r.is_some() <==> word_aligned(addr),
            r.is_some() ==> r.unwrap() == addr / 4,
    {
        proof {
            lemma_shifts(addr, 0);
        }
        let shifted: u64 = addr >> 2;
        if shifted > usize::MAX as u64 || shifted << 2 != addr {
            None
        } else {
            Some(shifted as usize)
        }
    }

    /// The register value that stands for the region of `size` bytes at
    /// `addr` in the naturally aligned power-of-two mode, or an error
    /// where the encoding does not take the pair.
    #[inline]
    pub fn encode_napot(addr: Addr, size: Size) -> (r: Result<usize, ()>)
        requires
            size != 0,
        ensures
            r.is_ok() <==> napot_encodable(addr, size),
            r.is_ok() ==> r.unwrap() == spec_encode_napot(addr, size),
    {
        let encoded_size: Size = (size - 1) >> 3;
        if (encoded_size > usize::MAX as Size) || (size == (size & !(size - 1))) || (addr
            & encoded_size != 0) {
            return Err(());
        }
        Ok(Self::napot_bits(addr, size))
    }

    /// The register value of a pair that the naturally aligned
    /// power-of-two encoding takes.
    fn napot_bits(addr: Addr, size: Size) -> (r: usize)
        requires
            size != 0,
            napot_encodable(addr, size),
        ensures
            r == spec_encode_napot(addr, size),
    {
        let encoded_size: Size = (size - 1) >> 3;
        let addr: usize = #[verifier::truncate]
        ((addr >> 2) as usize);
        let mut pmpaddr: usize = 0;
        assert(0usize | addr == addr) by (bit_vector);
        pmpaddr |= addr;
        pmpaddr |= encoded_size as usize;
        pmpaddr
    }

    /// The address and the size that the register value `bits` stands for
    /// in the naturally aligned power-of-two mode.
    #[inline]
    pub fn decode_napot(bits: usize) -> (r: (Addr, Size))
        ensures
            r == spec_decode_napot(bits),
    {
        let mut pmpaddr: usize = bits;
        let address = pmpaddr;
        let mut range_mask: usize = 1;
        let mut size: Size = 8;
        let ghost mut ones: nat = 0;
        proof {
            vstd::arithmetic::power2::lemma2_to64();
        }
        while get_bit(pmpaddr, 0)
            invariant
                trailing_ones(bits) == ones + trailing_ones(pmpaddr),
                ones <= usize::BITS,
                pmpaddr != 0 ==> ones < usize::BITS,
                pmpaddr as int * pow2(ones) <= usize::MAX,
                range_mask == napot_mask(ones),
                size == napot_size(ones),
            decreases pmpaddr,
        {
            proof {
                lemma_word_shifts(pmpaddr);
                lemma_word_shifts(range_mask);
                lemma_shifts(0, size);
                lemma_step(pmpaddr, ones);
            }
            pmpaddr = pmpaddr >> 1;
            range_mask = (range_mask << 1) | 0x1;
            size = size << 1;
            proof {
                ones = ones + 1;
            }
        }
        proof {
            lemma_word_shifts(pmpaddr);
        }
        let address = ((address & !range_mask) as Addr) << 2;
        (address, size)
    }
}

/// The register value with the raw bits `bits`.
pub closed spec fn with_bits(bits: usize) -> PmpAddr {
    PmpAddr { bits }
}

/// A register value is its raw bits and nothing more.
pub broadcast proof fn lemma_with_bits(bits: usize)
    ensures
        (#[trigger] with_bits(bits))@ == bits,
{
}

impl From<usize> for PmpAddr {
    fn from(bits: usize) -> (r: PmpAddr) {
        PmpAddr { bits }
    }
}

impl vstd::std_specs::convert::FromSpecImpl<usize> for PmpAddr {
    open spec fn obeys_from_spec() -> bool {
        true
    }

    open spec fn from_spec(bits: usize) -> PmpAddr {
        with_bits(bits)
    }
}

/// One more one at the low end of a register: what it does to the size and
/// to the bits that hold it.
proof fn lemma_step(pmpaddr: usize, ones: nat)
    requires
        pmpaddr % 2 != 0,
        ones <= usize::BITS,
        pmpaddr as int * pow2(ones) <= usize::MAX,
    ensures
        ones < usize::BITS,
        (pmpaddr / 2) * pow2(ones + 1) <= usize::MAX,
        pmpaddr / 2 != 0 ==> ones + 1 < usize::BITS,
        ones <= 59 ==> napot_size(ones) <= 0x7fff_ffff_ffff_ffff && napot_size(ones + 1) == 2
            * napot_size(ones),
        ones == 60 ==> napot_size(ones) == 0x8000_0000_0000_0000 && napot_size(ones + 1) == 0,
        ones > 60 ==> napot_size(ones) == 0 && napot_size(ones + 1) == 0,
        ones + 2 <= usize::BITS ==> napot_mask(ones) <= !0usize / 2 && napot_mask(ones + 1)
            == 2 * napot_mask(ones) + 1,
        ones + 1 == usize::BITS ==> napot_mask(ones) == !0usize && napot_mask(ones + 1)
            == napot_mask(ones),
{
    vstd::arithmetic::power2::lemma2_to64();
    vstd::arithmetic::power2::lemma2_to64_rest();
    vstd::arithmetic::power2::lemma_pow2_unfold(ones + 1);
    vstd::arithmetic::power2::lemma_pow2_unfold(ones + 2);
    vstd::arithmetic::power2::lemma_pow2_unfold(ones + 4);
    vstd::arithmetic::power2::lemma_pow2_pos(ones);
    vstd::layout::unsigned_int_max_values();
    assert(pow2(usize::BITS as nat) == usize::MAX + 1);
    if ones >= usize::BITS {
        assert(pmpaddr as int * pow2(ones) >= pow2(ones)) by (nonlinear_arith)
            requires
                pmpaddr >= 1,
                pow2(ones) > 0,
        ;
    }
    assert((pmpaddr / 2) * pow2(ones + 1) <= pmpaddr as int * pow2(ones)) by (nonlinear_arith)
        requires
            pow2(ones + 1) == 2 * pow2(ones),
            pow2(ones) > 0,
    ;
    if pmpaddr / 2 != 0 {
        assert((pmpaddr / 2) * pow2(ones + 1) >= pow2(ones + 1)) by (nonlinear_arith)
            requires
                pmpaddr / 2 >= 1,
                pow2(ones + 1) > 0,
        ;
        if ones + 1 >= usize::BITS {
            vstd::arithmetic::power2::lemma_pow2_strictly_increases(
                usize::BITS as nat,
                ones + 1,
            );
        }
    }
    assert(!0usize == usize::MAX) by {
        lemma_all_ones();
    }
    if ones <= 59 {
        vstd::arithmetic::power2::lemma_pow2_strictly_increases(ones + 3, 63);
        vstd::arithmetic::power2::lemma_pow2_strictly_increases(ones + 4, 64);
    }
    if ones + 2 <= usize::BITS {
        if ones + 2 < usize::BITS {
            vstd::arithmetic::power2::lemma_pow2_strictly_increases(
                ones + 2,
                usize::BITS as nat,
            );
        }
        vstd::arithmetic::power2::lemma_pow2_strictly_increases(ones + 1, usize::BITS as nat);
    }
}

/// The word of all ones is the largest word.
proof fn lemma_all_ones()
    ensures
        !0usize == usize::MAX,
{
    let y = usize::MAX;
    assert(y <= !0usize) by (bit_vector);
}

/// The write that sets the address register of number `index` to the top
/// of a range at `addr`: the address without its two low bits, which must
/// fit a machine word.
pub fn write_tor_indexed(index: usize, addr: Addr) -> (r: CsrWrite)
    requires
        index < REGISTERS,
        addr / 4 <= usize::MAX,
    ensures
        r == (CsrWrite { csr: (PMPADDR0 + index) as u16, value: (addr / 4) as usize }),
{
    proof {
        lemma_shifts(addr, 0);
    }
    CsrWrite { csr: PMPADDR0 + index as u16, value: (addr >> 2) as usize }
}

/// The write that sets the address register of number `index` to the
/// region of `size` bytes at `addr` in the naturally aligned power-of-two
/// mode. The encoding must take the pair.
pub fn write_napot_indexed(index: usize, addr: Addr, size: Size) -> (r: CsrWrite)
    requires
        index < REGISTERS,
        size != 0,
        napot_encodable(addr, size),
    ensures
        r == (CsrWrite { csr: (PMPADDR0 + index) as u16, value: spec_encode_napot(addr, size) }),
{
    CsrWrite { csr: PMPADDR0 + index as u16, value: PmpAddr::napot_bits(addr, size) }
}

/// The write that sets the address register of number `index` to a region
/// of `size` bytes at `addr`: the same write as in the naturally aligned
/// power-of-two mode.
pub fn write_na4_indexed(index: usize, addr: Addr, size: Size) -> (r: CsrWrite)
    requires
        index < REGISTERS,
        size != 0,
        napot_encodable(addr, size),
    ensures
        r == (CsrWrite { csr: (PMPADDR0 + index) as u16, value: spec_encode_napot(addr, size) }),
{
    write_napot_indexed(index, addr, size)
}

} // verus!

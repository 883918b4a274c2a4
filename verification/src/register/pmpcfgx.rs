//! Physical memory protection configuration

use crate::bits::{
    byte_bit_range, byte_bit_set, byte_fits, byte_get_bit, byte_get_bits, byte_set_bit,
    byte_set_bits, byte_with_bit_range, fits, set_bits, with_bit_range, word_bytes,
};
use crate::register::csr::CsrWrite;
use vstd::prelude::*;

verus! {

/// Number of the first configuration register, `pmpcfg0`.
pub const PMPCFG0: u16 = 0x3A0;

/// Number of protection entries.
pub const ENTRIES: usize = 64;

/// Permission enum contains all possible permission modes for pmp registers
/// NOTE: All encodings where R = 0 and W = 1 are reserved
#[derive(Clone, Copy, Debug, PartialEq, Eq, Structural)]
pub enum Permission {
    NONE,
    R,
    W,
    RW,
    X,
    RX,
    WX,
    RWX,
}

/// Mode enum contains all possible addressing modes for pmp registers
#[derive(Clone, Copy, Debug, PartialEq, Eq, Structural)]
pub enum Mode {
    OFF,
    TOR,
    NA4,
    NAPOT,
}

impl Permission {
    /// The code of the permission: bit 0 for read, bit 1 for write, bit 2
    /// for execute.
    pub open spec fn spec_code(self) -> u8 {
        match self {
            Permission::NONE => 0,
            Permission::R => 1,
            Permission::W => 2,
            Permission::RW => 3,
            Permission::X => 4,
            Permission::RX => 5,
            Permission::WX => 6,
            Permission::RWX => 7,
        }
    }

    /// The permission of a code from 0 to 7.
    pub open spec fn spec_of(code: u8) -> Permission {
        if code == 0 {
            Permission::NONE
        } else if code == 1 {
            Permission::R
        } else if code == 2 {
            Permission::W
        } else if code == 3 {
            Permission::RW
        } else if code == 4 {
            Permission::X
        } else if code == 5 {
            Permission::RX
        } else if code == 6 {
            Permission::WX
        } else {
            Permission::RWX
        }
    }

    /// The code of the permission.
    pub fn code(self) -> (r: u8)
        ensures
            r == self.spec_code(),
    {
        match self {
            Permission::NONE => 0,
            Permission::R => 1,
            Permission::W => 2,
            Permission::RW => 3,
            Permission::X => 4,
            Permission::RX => 5,
            Permission::WX => 6,
            Permission::RWX => 7,
        }
    }
}

impl Mode {
    /// The code of the addressing mode.
    pub open spec fn spec_code(self) -> u8 {
        match self {
            Mode::OFF => 0,
            Mode::TOR => 1,
            Mode::NA4 => 2,
            Mode::NAPOT => 3,
        }
    }

    /// The addressing mode of a code from 0 to 3.
    pub open spec fn spec_of(code: u8) -> Mode {
        if code == 0 {
            Mode::OFF
        } else if code == 1 {
            Mode::TOR
        } else if code == 2 {
            Mode::NA4
        } else {
            Mode::NAPOT
        }
    }

    /// The code of the addressing mode.
    pub fn code(self) -> (r: u8)
        ensures
            r == self.spec_code(),
    {
        match self {
            Mode::OFF => 0,
            Mode::TOR => 1,
            Mode::NA4 => 2,
            Mode::NAPOT => 3,
        }
    }
}

/// PmpCfg struct holds a high-level representation of a single pmp configuration
#[derive(Clone, Copy, Debug)]
pub struct PmpCfg {
    pub byte: u8,
}

/// The fields of a configuration byte, in plain shifts and masks.
proof fn lemma_cfg_fields(byte: u8, value: u8)
    by (bit_vector)
    ensures
        byte_bit_range(byte, 3, 5) == (byte >> 3) & 0x3,
        byte_bit_range(byte, 0, 3) == byte & 0x7,
        (byte >> 3) & 0x3 <= 3,
        byte & 0x7 <= 7,
        byte_bit_set(byte, 7) == (byte & 0x80 != 0),
        (byte | (1u8 << 7usize)) == byte | 0x80,
        byte_fits(value, 3) <==> value < 8,
        byte_fits(value, 2) <==> value < 4,
        value < 8 ==> value & 0x7 == value,
        byte_with_bit_range(byte, 0, 3, value) == (byte & 0xf8) | value,
        byte_with_bit_range(byte, 3, 5, 0) == byte & 0xe7,
        value < 8 ==> ((byte & 0xf8) | value) & 0x7 == value,
        value < 8 ==> ((byte & 0xf8) | value) & 0xf8 == byte & 0xf8,
        ((byte & 0xe7) >> 3) & 0x3 == 0,
{
}

/// A configuration byte put together from its three fields.
proof fn lemma_cfg_new(locked: u8, mode: u8, permission: u8)
    by (bit_vector)
    requires
        locked <= 1,
        mode <= 3,
        permission <= 7,
    ensures
        (locked << 7 | mode << 3 | permission) == locked * 128 + mode * 8 + permission,
        ((locked << 7 | mode << 3 | permission) >> 3) & 0x3 == mode,
        (locked << 7 | mode << 3 | permission) & 0x7 == permission,
        ((locked << 7 | mode << 3 | permission) & 0x80 != 0) == (locked == 1),
{
}

impl PmpCfg {
    /// The addressing mode held in bits 3 and 4 of the byte.
    pub open spec fn spec_mode(self) -> Mode {
        Mode::spec_of((self.byte >> 3) & 0x3)
    }

    /// The permission held in bits 0 to 2 of the byte.
    pub open spec fn spec_permission(self) -> Permission {
        Permission::spec_of(self.byte & 0x7)
    }

    /// Whether the lock bit, bit 7 of the byte, is set.
    pub open spec fn spec_locked(self) -> bool {
        self.byte & 0x80 != 0
    }

    /// The configuration with the given mode, permission and lock: the
    /// lock in bit 7, the mode in bits 3 and 4, the permission in bits 0
    /// to 2.
    pub fn new(mode: Mode, permission: Permission, locked: bool) -> (r: PmpCfg)
        ensures
            r.byte == (if locked {
                128
            } else {
                0int
            }) + mode.spec_code() * 8 + permission.spec_code(),
            r.spec_mode() == mode,
            r.spec_permission() == permission,
            r.spec_locked() == locked,
    {
        let lock: u8 = if locked {
            1
        } else {
            0
        };
        proof {
            lemma_cfg_new(lock, mode.spec_code(), permission.spec_code());
        }
        PmpCfg { byte: lock << 7 | mode.code() << 3 | permission.code() }
    }

    /// The addressing mode of the configuration.
    pub fn get_mode(&self) -> (r: Mode)
        ensures
            r == self.spec_mode(),
    {
        proof {
            lemma_cfg_fields(self.byte, 0);
        }
        let code = byte_get_bits(self.byte, 3, 5);
        if code == 0 {
            Mode::OFF
        } else if code == 1 {
            Mode::TOR
        } else if code == 2 {
            Mode::NA4
        } else {
            Mode::NAPOT
        }
    }

    /// Sets the addressing mode. The code of the mode goes to the field
    /// moved up to the place of the field, and the field takes only what
    /// fits its two bits: of the modes that leaves `OFF`, which clears the
    /// field.
    pub fn set_mode(&mut self, mode: Mode)
        requires
            mode == Mode::OFF,
        ensures
            final(self).byte == old(self).byte & 0xe7,
            final(self).spec_mode() == Mode::OFF,
    {
        proof {
            lemma_cfg_fields(self.byte, 0);
            assert(((0u8 & 0x3) << 3) == 0) by (bit_vector);
        }
        self.byte = byte_set_bits(self.byte, 3, 5, (mode.code() & 0x3) << 3);
    }

    /// The permission of the configuration.
    pub fn get_permission(&self) -> (r: Permission)
        ensures
            r == self.spec_permission(),
    {
        proof {
            lemma_cfg_fields(self.byte, 0);
        }
        let code = byte_get_bits(self.byte, 0, 3);
        if code == 0 {
            Permission::NONE
        } else if code == 1 {
            Permission::R
        } else if code == 2 {
            Permission::W
        } else if code == 3 {
            Permission::RW
        } else if code == 4 {
            Permission::X
        } else if code == 5 {
            Permission::RX
        } else if code == 6 {
            Permission::WX
        } else {
            Permission::RWX
        }
    }

    /// Sets the permission and leaves the other bits of the byte.
    pub fn set_permission(&mut self, permission: Permission)
        ensures
            final(self).byte == (old(self).byte & 0xf8) | permission.spec_code(),
            final(self).spec_permission() == permission,
            final(self).byte & 0xf8 == old(self).byte & 0xf8,
    {
        proof {
            lemma_cfg_fields(self.byte, permission.spec_code());
        }
        self.byte = byte_set_bits(self.byte, 0, 3, permission.code() & 0x7);
    }

    /// Sets the lock bit.
    pub fn set_locked(&mut self)
        ensures
            final(self).byte == old(self).byte | 0x80,
            final(self).spec_locked(),
    {
        proof {
            lemma_cfg_fields(self.byte, 0);
            let b = self.byte;
            assert((b | 0x80) & 0x80 != 0) by (bit_vector);
        }
        self.byte = byte_set_bit(self.byte, 7, true);
    }

    /// Whether the lock bit is set.
    pub fn check_locked(&self) -> (r: bool)
        ensures
            r == self.spec_locked(),
    {
        proof {
            lemma_cfg_fields(self.byte, 0);
        }
        byte_get_bit(self.byte, 7)
    }
}

/// The value of one configuration register: one configuration byte for
/// each byte of a machine word.
#[derive(Clone, Copy, Debug)]
pub struct PmpCfgCsr {
    bits: usize,
}

impl View for PmpCfgCsr {
    type V = usize;

    /// The raw bits of the register.
    closed spec fn view(&self) -> usize {
        self.bits
    }
}

/// Byte `k` of a word, counted from the low end.
pub open spec fn byte_of(bits: usize, k: usize) -> u8 {
    ((bits >> ((8 * k) as usize)) & 0xff) as u8
}

impl PmpCfgCsr {
    /// The value of the register whose raw bits are `bits`.
    pub fn from_bits(bits: usize) -> (r: PmpCfgCsr)
        ensures
            r@ == bits,
    {
        PmpCfgCsr { bits }
    }

    /// The raw bits of the register value.
    pub fn into_bits(self) -> (r: usize)
        ensures
            r == self@,
    {
        self.bits
    }

    /// The configuration at `index`, counted from the top of the
    /// register: index 0 is the byte at the high end of the word.
    pub fn get_cfg(&self, index: usize) -> (r: PmpCfg)
        requires
            index * 8 < usize::BITS,
        ensures
            r.byte == byte_of(self@, (usize::BITS / 8 - 1 - index) as usize),
    {
        let k: usize = word_bytes() - 1 - index;
        let bits = self.bits;
        assert((bits >> ((8 * k) as usize)) & 0xff <= 0xff) by (bit_vector);
        PmpCfg { byte: ((self.bits >> (8 * k)) & 0xff) as u8 }
    }
}

/// The register value with the raw bits `bits`.
pub closed spec fn with_bits(bits: usize) -> PmpCfgCsr {
    PmpCfgCsr { bits }
}

/// A register value is its raw bits and nothing more.
pub broadcast proof fn lemma_with_bits(bits: usize)
    ensures
        (#[trigger] with_bits(bits))@ == bits,
{
}

impl From<usize> for PmpCfgCsr {
    fn from(item: usize) -> (r: PmpCfgCsr) {
        PmpCfgCsr { bits: item }
    }
}

impl vstd::std_specs::convert::FromSpecImpl<usize> for PmpCfgCsr {
    open spec fn obeys_from_spec() -> bool {
        true
    }

    open spec fn from_spec(item: usize) -> PmpCfgCsr {
        with_bits(item)
    }
}

impl From<PmpCfgCsr> for usize {
    fn from(item: PmpCfgCsr) -> (r: usize) {
        item.bits
    }
}

impl vstd::std_specs::convert::FromSpecImpl<PmpCfgCsr> for usize {
    open spec fn obeys_from_spec() -> bool {
        true
    }

    open spec fn from_spec(item: PmpCfgCsr) -> usize {
        item@
    }
}

/// Number of the configuration register that holds entry `index`. With
/// words of 64 bits only the registers of even number exist, eight entries
/// in each; with words of 32 bits each register holds four.
pub open spec fn spec_entry_csr(index: usize) -> int {
    if usize::BITS == 32 {
        PMPCFG0 + index / 4
    } else {
        PMPCFG0 + index / 8 * 2
    }
}

/// Which byte of its configuration register holds entry `index`, counted
/// from the low end.
pub open spec fn spec_entry_byte(index: usize) -> usize {
    (index % (usize::BITS as usize / 8)) as usize
}

/// `bits` with byte `k`, counted from the low end, replaced by `byte`.
pub open spec fn with_byte(bits: usize, k: usize, byte: u8) -> usize {
    (bits & !(0xffusize << ((8 * k) as usize))) | ((byte as usize) << ((8 * k) as usize))
}

/// Number of the configuration register that holds entry `index`.
pub fn entry_csr(index: usize) -> (r: u16)
    requires
        index < ENTRIES,
    ensures
        r == spec_entry_csr(index),
{
    if word_bytes() == 4 {
        PMPCFG0 + (index / 4) as u16
    } else {
        PMPCFG0 + (index / 8 * 2) as u16
    }
}

/// The write that sets entry `index` to `cfg`, given the value `current`
/// of the configuration register that holds the entry: the byte of the
/// entry is replaced and the others stay.
pub fn set_cfg_entry(index: usize, cfg: PmpCfg, current: usize) -> (r: CsrWrite)
    requires
        index < ENTRIES,
    ensures
        r.csr == spec_entry_csr(index),
        r.value == with_byte(current, spec_entry_byte(index), cfg.byte),
        byte_of(r.value, spec_entry_byte(index)) == cfg.byte,
{
    let cfg_idx: usize = index % word_bytes();
    let value: usize = cfg.byte as usize;
    let lo: usize = 8 * cfg_idx;
    proof {
        assert(fits(value, 8) && with_bit_range(current, lo, (lo + 8) as usize, value) == (current
            & !(0xffusize << lo)) | (value << lo) && (((((current & !(0xffusize << lo)) | (value
            << lo)) >> lo) & 0xff) == value)) by (bit_vector)
            requires
                value <= 0xff,
                lo + 8 <= usize::BITS,
        ;
    }
    CsrWrite { csr: entry_csr(index), value: set_bits(current, lo, lo + 8, value) }
}

/// The write that sets the configuration register `pmpcfg` of number
/// `reg` to `val`. With words of 64 bits only the registers of even number
/// exist.
pub fn set_cfg_csr(reg: usize, val: PmpCfgCsr) -> (r: CsrWrite)
    requires
        reg < 16,
        usize::BITS == 64 ==> reg % 2 == 0,
    ensures
        r == (CsrWrite { csr: (PMPCFG0 + reg) as u16, value: val@ }),
{
    CsrWrite { csr: PMPCFG0 + reg as u16, value: val.into_bits() }
}

} // verus!

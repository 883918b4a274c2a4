//! Advanced platform-level interrupt controller: one interrupt domain.
//!
//! A domain configures each of its sources, which it either handles itself
//! in one of the source modes or delegates to a child domain, and delivers
//! interrupts directly or as messages written to a target. [`Aplic`] models
//! the registers of one domain.

use crate::error::Error;
use crate::surface::RegisterBlock;
use vstd::prelude::*;

verus! {

/// Number of source ids of a domain, id 0 included, which names no source.
pub const SOURCES: u32 = 1024;

/// Number of child domains that a source can be delegated to.
pub const CHILDREN: u32 = 1024;

/// Number of hart indices that a message target can name.
pub const HARTS: u32 = 16384;

/// Number of guest indices that a message target can name.
pub const GUESTS: u32 = 32;

/// Number of interrupt identities that a message can carry.
pub const IDENTITIES: u32 = 1024;

/// Byte offset of `domaincfg`.
pub const DOMAINCFG: usize = 0x0000;

/// Byte offset that the `sourcecfg` words are counted from: the word of
/// source `i` lies `4 * i` bytes on, the first at `0x0004`.
pub const SOURCECFG_BASE: usize = 0x0000;

/// Byte offset of `mmsiaddrcfg`.
pub const MMSIADDRCFG: usize = 0x1BC0;

/// Byte offset of `mmsiaddrcfgh`.
pub const MMSIADDRCFGH: usize = 0x1BC4;

/// Byte offset of `smsiaddrcfg`.
pub const SMSIADDRCFG: usize = 0x1BC8;

/// Byte offset of `smsiaddrcfgh`.
pub const SMSIADDRCFGH: usize = 0x1BCC;

/// Byte offset of the `setip` bitmap, 32 words.
pub const SETIP: usize = 0x1C00;

/// Byte offset of `setipnum`.
pub const SETIPNUM: usize = 0x1CDC;

/// Byte offset of the `in_clrip` bitmap, 32 words.
pub const IN_CLRIP: usize = 0x1D00;

/// Byte offset of `clripnum`.
pub const CLRIPNUM: usize = 0x1DDC;

/// Byte offset of the `setie` bitmap, 32 words.
pub const SETIE: usize = 0x1E00;

/// Byte offset of `setienum`.
pub const SETIENUM: usize = 0x1EDC;

/// Byte offset of the `clrie` bitmap, 32 words.
pub const CLRIE: usize = 0x1F00;

/// Byte offset of `clrienum`.
pub const CLRIENUM: usize = 0x1FDC;

/// Byte offset of `setipnum_le`.
pub const SETIPNUM_LE: usize = 0x2000;

/// Byte offset of `setipnum_be`.
pub const SETIPNUM_BE: usize = 0x2004;

/// Byte offset of `genmsi`.
pub const GENMSI: usize = 0x3000;

/// Byte offset that the `target` words are counted from: the word of
/// source `i` lies `4 * i` bytes on, the first at `0x3004`.
pub const TARGET_BASE: usize = 0x3000;

/// Size in bytes of the register block of a domain.
pub const SIZE: usize = 0x4000;

/// Whether the domain delivers interrupts at all.
#[derive(Clone, Copy, Debug, PartialEq, Eq, Structural)]
pub enum InterruptEnable {
    Disabled,
    Enabled,
}

/// How the domain delivers interrupts.
#[derive(Clone, Copy, Debug, PartialEq, Eq, Structural)]
pub enum DeliveryMode {
    /// By wire to the harts.
    DirectDeliveryMode,
    /// As messages written to a target.
    MSIDeliveryMode,
}

/// Byte order of the registers of the domain.
#[derive(Clone, Copy, Debug, PartialEq, Eq, Structural)]
pub enum Endian {
    LittleEndian,
    BigEndian,
}

/// How a domain handles a source that it has not delegated.
#[derive(Clone, Copy, Debug, PartialEq, Eq, Structural)]
pub enum SourceModes {
    Inactive,
    Detached,
    EdgeRising,
    EdgeFalling,
    LevelHigh,
    LevelLow,
}

/// What a domain does with a source: handle it in a mode, or leave it to a
/// child domain. The two exclude each other, and the last one set holds.
#[derive(Clone, Copy, Debug, PartialEq, Eq, Structural)]
pub enum SourceConfig {
    /// The domain handles the source itself.
    Mode(SourceModes),
    /// The source belongs to the child domain of this index.
    DelegatedTo(u32),
}

impl InterruptEnable {
    /// The bit that the choice sets in `domaincfg`: bit 8.
    pub open spec fn spec_bits(self) -> u32 {
        match self {
            InterruptEnable::Disabled => 0,
            InterruptEnable::Enabled => 0x100,
        }
    }

    /// The bit that the choice sets in `domaincfg`.
    pub fn bits(self) -> (r: u32)
        ensures
            r == self.spec_bits(),
    {
        match self {
            InterruptEnable::Disabled => 0,
            InterruptEnable::Enabled => 0x100,
        }
    }
}

impl DeliveryMode {
    /// The bit that the choice sets in `domaincfg`: bit 2.
    pub open spec fn spec_bits(self) -> u32 {
        match self {
            DeliveryMode::DirectDeliveryMode => 0,
            DeliveryMode::MSIDeliveryMode => 0x4,
        }
    }

    /// The bit that the choice sets in `domaincfg`.
    pub fn bits(self) -> (r: u32)
        ensures
            r == self.spec_bits(),
    {
        match self {
            DeliveryMode::DirectDeliveryMode => 0,
            DeliveryMode::MSIDeliveryMode => 0x4,
        }
    }
}

impl Endian {
    /// The bit that the choice sets in `domaincfg`: bit 0.
    pub open spec fn spec_bits(self) -> u32 {
        match self {
            Endian::LittleEndian => 0,
            Endian::BigEndian => 1,
        }
    }

    /// The bit that the choice sets in `domaincfg`.
    pub fn bits(self) -> (r: u32)
        ensures
            r == self.spec_bits(),
    {
        match self {
            Endian::LittleEndian => 0,
            Endian::BigEndian => 1,
        }
    }
}

impl SourceModes {
    /// The code of the mode in `sourcecfg`.
    pub open spec fn spec_bits(self) -> u32 {
        match self {
            SourceModes::Inactive => 0,
            SourceModes::Detached => 1,
            SourceModes::EdgeRising => 4,
            SourceModes::EdgeFalling => 5,
            SourceModes::LevelHigh => 6,
            SourceModes::LevelLow => 7,
        }
    }

    /// The code of the mode in `sourcecfg`.
    pub fn bits(self) -> (r: u32)
        ensures
            r == self.spec_bits(),
    {
        match self {
            SourceModes::Inactive => 0,
            SourceModes::Detached => 1,
            SourceModes::EdgeRising => 4,
            SourceModes::EdgeFalling => 5,
            SourceModes::LevelHigh => 6,
            SourceModes::LevelLow => 7,
        }
    }
}

/// `id` names a source of a domain: id 0 names none.
pub open spec fn valid_source(id: u32) -> bool {
    0 < id < SOURCES
}

/// The `domaincfg` word for the three choices: each sets its own bit.
pub open spec fn spec_domaincfg_word(ie: InterruptEnable, dm: DeliveryMode, be: Endian) -> u32 {
    (ie.spec_bits() + dm.spec_bits() + be.spec_bits()) as u32
}

/// The `sourcecfg` word of a source handled in `mode`.
pub open spec fn spec_mode_word(mode: SourceModes) -> u32 {
    mode.spec_bits()
}

/// The `sourcecfg` word of a source delegated to `child`: the delegate bit,
/// bit 10, above the index of the child.
pub open spec fn spec_delegate_word(child: u32) -> u32 {
    (0x400 + child) as u32
}

/// The `target` word of a message target: the hart index from bit 18, the
/// guest index from bit 12, the interrupt identity from bit 0.
pub open spec fn spec_target_word(hart: u32, guest: u32, eiid: u32) -> u32 {
    (hart * 0x4_0000 + guest * 0x1000 + eiid) as u32
}

/// The three fields are within what a message target can name.
pub open spec fn valid_target(hart: u32, guest: u32, eiid: u32) -> bool {
    hart < HARTS && guest < GUESTS && eiid < IDENTITIES
}

/// What a `sourcecfg` word says of its source.
pub open spec fn spec_source_config(word: u32) -> SourceConfig {
    if word >= 0x400 {
        SourceConfig::DelegatedTo((word - 0x400) as u32)
    } else if word == 1 {
        SourceConfig::Mode(SourceModes::Detached)
    } else if word == 4 {
        SourceConfig::Mode(SourceModes::EdgeRising)
    } else if word == 5 {
        SourceConfig::Mode(SourceModes::EdgeFalling)
    } else if word == 6 {
        SourceConfig::Mode(SourceModes::LevelHigh)
    } else if word == 7 {
        SourceConfig::Mode(SourceModes::LevelLow)
    } else {
        SourceConfig::Mode(SourceModes::Inactive)
    }
}

/// The word is one that configuring a source writes: the code of a mode, or
/// the delegate bit above the index of a child.
pub open spec fn valid_sourcecfg(word: u32) -> bool {
    word == 0 || word == 1 || 4 <= word <= 7 || 0x400 <= word < 0x400 + CHILDREN
}

/// The word is one that setting a message target writes.
pub open spec fn valid_target_word(word: u32) -> bool {
    exists|hart: u32, guest: u32, eiid: u32|
        valid_target(hart, guest, eiid) && word == #[trigger] spec_target_word(hart, guest, eiid)
}

/// The `domaincfg` word for the three choices.
pub fn domaincfg_word(ie: InterruptEnable, dm: DeliveryMode, be: Endian) -> (r: u32)
    ensures
        r == spec_domaincfg_word(ie, dm, be),
{
    let a = ie.bits();
    let b = dm.bits();
    let c = be.bits();
    assert((a | b | c) == a + b + c) by (bit_vector)
        requires
            a == 0 || a == 0x100,
            b == 0 || b == 4,
            c == 0 || c == 1,
    ;
    a | b | c
}

/// The `sourcecfg` word that delegates a source to `child`; `OutOfRange`
/// where there is no child of that index.
pub fn delegate_word(child: u32) -> (r: Result<u32, Error>)
    ensures
        child < CHILDREN ==> r == Ok::<u32, Error>(spec_delegate_word(child)),
        child >= CHILDREN ==> r == Err::<u32, Error>(Error::OutOfRange),
{
    if child >= CHILDREN {
        return Err(Error::OutOfRange);
    }
    assert((1u32 << 10 | child) == 0x400 + child) by (bit_vector)
        requires
            child < 1024,
    ;
    Ok(1u32 << 10 | child)
}

/// The `target` word of a message target; `OutOfRange` where a field is
/// beyond what a target can name.
pub fn target_word(hart: u32, guest: u32, eiid: u32) -> (r: Result<u32, Error>)
    ensures
        valid_target(hart, guest, eiid) ==> r == Ok::<u32, Error>(
            spec_target_word(hart, guest, eiid),
        ),
        !valid_target(hart, guest, eiid) ==> r == Err::<u32, Error>(Error::OutOfRange),
{
    if hart >= HARTS || guest >= GUESTS || eiid >= IDENTITIES {
        return Err(Error::OutOfRange);
    }
    assert(((hart << 18) | (guest << 12) | eiid) == hart * 0x4_0000 + guest * 0x1000 + eiid)
        by (bit_vector)
        requires
            hart < 16384,
            guest < 32,
            eiid < 1024,
    ;
    Ok((hart << 18) | (guest << 12) | eiid)
}

/// The hart index, guest index and interrupt identity of a `target` word.
pub open spec fn spec_target_fields(word: u32) -> (u32, u32, u32) {
    (word / 0x4_0000, (word / 0x1000) % 0x40, word % 0x1000)
}

/// Reads a `target` word: its hart index, guest index and interrupt
/// identity.
pub fn target_fields(word: u32) -> (r: (u32, u32, u32))
    ensures
        r == spec_target_fields(word),
{
    assert(word >> 18 == word / 0x4_0000 && (word >> 12) & 0x3f == (word / 0x1000) % 0x40 && word
        & 0xfff == word % 0x1000) by (bit_vector);
    (word >> 18, (word >> 12) & 0x3f, word & 0xfff)
}

/// The fields of a message target come back from its word as they went in.
pub proof fn lemma_target_round_trip(hart: u32, guest: u32, eiid: u32)
    requires
        valid_target(hart, guest, eiid),
    ensures
        spec_target_fields(spec_target_word(hart, guest, eiid)) == (hart, guest, eiid),
{
    assert(hart * 0x4_0000 + guest * 0x1000 + eiid <= u32::MAX);
    let w = spec_target_word(hart, guest, eiid);
    assert(w / 0x4_0000 == hart && (w / 0x1000) % 0x40 == guest && w % 0x1000 == eiid);
}

/// Reads a `sourcecfg` word: the mode of the source, or the child that it
/// is delegated to.
pub fn source_config(word: u32) -> (r: SourceConfig)
    ensures
        r == spec_source_config(word),
{
    if word >= 0x400 {
        SourceConfig::DelegatedTo(word - 0x400)
    } else if word == 1 {
        SourceConfig::Mode(SourceModes::Detached)
    } else if word == 4 {
        SourceConfig::Mode(SourceModes::EdgeRising)
    } else if word == 5 {
        SourceConfig::Mode(SourceModes::EdgeFalling)
    } else if word == 6 {
        SourceConfig::Mode(SourceModes::LevelHigh)
    } else if word == 7 {
        SourceConfig::Mode(SourceModes::LevelLow)
    } else {
        SourceConfig::Mode(SourceModes::Inactive)
    }
}

/// The low word of a message address configuration: the page number of
/// `msi_addr`, cut to 32 bits.
pub open spec fn spec_msiaddrcfg_low(msi_addr: usize) -> u32 {
    ((msi_addr as u64 / 0x1000) % 0x1_0000_0000) as u32
}

/// The high word of a message address configuration: the bits of the page
/// number of `msi_addr` from bit 32 on, joined with bits 31 to 12 of
/// `high`.
pub open spec fn spec_msiaddrcfg_high(msi_addr: usize, high: u32) -> u32 {
    ((msi_addr as u64 / 0x1000_0000_0000) as u32) | (high & 0xffff_f000)
}

/// The two words of a message address configuration for the physical
/// address `msi_addr` and the high-order configuration bits `high`.
pub fn msiaddrcfg_words(msi_addr: usize, high: u32) -> (r: (u32, u32))
    ensures
        r.0 == spec_msiaddrcfg_low(msi_addr),
        r.1 == spec_msiaddrcfg_high(msi_addr, high),
{
    let addr: u64 = msi_addr as u64;
    assert((addr >> 12) & 0xffff_ffff == (addr / 0x1000) % 0x1_0000_0000 && (addr >> 44)
        == addr / 0x1000_0000_0000 && (addr >> 44) <= 0xf_ffff) by (bit_vector);
    let low: u32 = ((addr >> 12) & 0xffff_ffff) as u32;
    let top: u32 = (addr >> 44) as u32;
    (low, top | (high & 0xffff_f000))
}

/// Bit `bit` of the word `word` is one.
pub open spec fn word_bit(word: u32, bit: u32) -> bool {
    word & (1u32 << bit) != 0
}

/// The flags of the sources after a write of `bits` to word `lane` of a
/// bitmap that sets them (`on`) or clears them: each source of that word
/// whose bit is one in `bits` gets the flag `on`, every other source keeps
/// its flag, and id 0, which names no source, never gets one.
pub open spec fn with_lane(flags: Seq<bool>, lane: int, bits: u32, on: bool) -> Seq<bool> {
    Seq::new(
        flags.len(),
        |i: int|
            if i != 0 && i / 32 == lane && word_bit(bits, (i % 32) as u32) {
                on
            } else {
                flags[i]
            },
    )
}

/// The state of a domain, as the contracts speak of it.
pub struct AplicView {
    /// The `domaincfg` word.
    pub domaincfg: u32,
    /// The `sourcecfg` word of each source id; that of id 0 is 0.
    pub sourcecfg: Seq<u32>,
    /// The `target` word of each source id; that of id 0 is 0.
    pub target: Seq<u32>,
    /// Whether each source id is enabled.
    pub enabled: Seq<bool>,
    /// Whether each source id is pending.
    pub pending: Seq<bool>,
    /// The `mmsiaddrcfg` and `mmsiaddrcfgh` words.
    pub mmsiaddrcfg: (u32, u32),
    /// The `smsiaddrcfg` and `smsiaddrcfgh` words.
    pub smsiaddrcfg: (u32, u32),
    /// The `genmsi` word.
    pub genmsi: u32,
}

impl AplicView {
    /// The state has the shape of a domain: a word and two flags for each
    /// source id, every `sourcecfg` and `target` word one that configuring
    /// writes, and nothing set for id 0.
    pub open spec fn wf(self) -> bool {
        &&& self.sourcecfg.len() == SOURCES
        &&& self.target.len() == SOURCES
        &&& self.enabled.len() == SOURCES
        &&& self.pending.len() == SOURCES
        &&& self.sourcecfg[0] == 0
        &&& self.target[0] == 0
        &&& !self.enabled[0]
        &&& !self.pending[0]
        &&& forall|i: int| 0 <= i < SOURCES ==> valid_sourcecfg(#[trigger] self.sourcecfg[i])
        &&& forall|i: int| 0 <= i < SOURCES ==> valid_target_word(#[trigger] self.target[i])
    }

    /// The state with the `sourcecfg` word of source `id` set to `word`.
    pub open spec fn with_sourcecfg(self, id: int, word: u32) -> AplicView {
        AplicView { sourcecfg: self.sourcecfg.update(id, word), ..self }
    }

    /// The state with the `target` word of source `id` set to `word`.
    pub open spec fn with_target(self, id: int, word: u32) -> AplicView {
        AplicView { target: self.target.update(id, word), ..self }
    }

    /// What the domain does with source `id`.
    pub open spec fn source_config(self, id: int) -> SourceConfig {
        spec_source_config(self.sourcecfg[id])
    }

    /// Source `id` belongs to this domain and not to a child.
    pub open spec fn owns(self, id: int) -> bool {
        0 < id < SOURCES && self.sourcecfg[id] < 0x400
    }
}

/// How the bits of a word change under the writes that a bitmap takes.
proof fn lemma_lane_bits(word: u32, bits: u32, b: u32, c: u32)
    by (bit_vector)
    requires
        b < 32,
        c < 32,
    ensures
        word_bit(word | bits, c) == (word_bit(word, c) || word_bit(bits, c)),
        word_bit(word & !bits, c) == (word_bit(word, c) && !word_bit(bits, c)),
        word_bit(bits & !1u32, c) == (c != 0 && word_bit(bits, c)),
        word_bit(1u32 << b, c) == (b == c),
        !word_bit(0u32, c),
{
}

/// One interrupt domain of an advanced platform-level interrupt controller.
pub struct Aplic {
    regs: RegisterBlock,
}

impl View for Aplic {
    type V = AplicView;

    closed spec fn view(&self) -> AplicView {
        AplicView {
            domaincfg: self.regs@[0],
            sourcecfg: Seq::new(
                SOURCES as nat,
                |i: int|
                    if i == 0 {
                        0u32
                    } else {
                        self.regs@[i]
                    },
            ),
            target: Seq::new(
                SOURCES as nat,
                |i: int|
                    if i == 0 {
                        0u32
                    } else {
                        self.regs@[0xC00 + i]
                    },
            ),
            enabled: Seq::new(
                SOURCES as nat,
                |i: int| word_bit(self.regs@[0x780 + i / 32], (i % 32) as u32),
            ),
            pending: Seq::new(
                SOURCES as nat,
                |i: int| word_bit(self.regs@[0x700 + i / 32], (i % 32) as u32),
            ),
            mmsiaddrcfg: (self.regs@[0x6F0], self.regs@[0x6F1]),
            smsiaddrcfg: (self.regs@[0x6F2], self.regs@[0x6F3]),
            genmsi: self.regs@[0xC00],
        }
    }
}

/// Which of the two flags of a source a write is about.
#[derive(Clone, Copy, Debug, PartialEq, Eq, Structural)]
enum Flag {
    Enabled,
    Pending,
}

impl Aplic {
    /// The domain is sound: its block has the size of a domain, and its
    /// state is well formed.
    pub closed spec fn wf(&self) -> bool {
        &&& self.regs@.len() == 0x1000
        &&& self@.wf()
    }

    /// A sound domain has a well-formed state.
    pub proof fn lemma_wf_view(&self)
        requires
            self.wf(),
        ensures
            self@.wf(),
    {
    }

    /// A domain after reset: every register zero, so that interrupts are
    /// off, every source is inactive and owned by the domain, and nothing
    /// is enabled or pending.
    pub fn new() -> (r: Aplic)
        ensures
            r.wf(),
            r@ == (AplicView {
                domaincfg: 0,
                sourcecfg: Seq::new(SOURCES as nat, |i: int| 0u32),
                target: Seq::new(SOURCES as nat, |i: int| 0u32),
                enabled: Seq::new(SOURCES as nat, |i: int| false),
                pending: Seq::new(SOURCES as nat, |i: int| false),
                mmsiaddrcfg: (0u32, 0u32),
                smsiaddrcfg: (0u32, 0u32),
                genmsi: 0,
            }),
    {
        let r = Aplic { regs: RegisterBlock::new(SIZE) };
        proof {
            let v = AplicView {
                domaincfg: 0,
                sourcecfg: Seq::new(SOURCES as nat, |i: int| 0u32),
                target: Seq::new(SOURCES as nat, |i: int| 0u32),
                enabled: Seq::new(SOURCES as nat, |i: int| false),
                pending: Seq::new(SOURCES as nat, |i: int| false),
                mmsiaddrcfg: (0u32, 0u32),
                smsiaddrcfg: (0u32, 0u32),
                genmsi: 0,
            };
            assert forall|c: u32| c < 32 implies !word_bit(0u32, c) by {
                lemma_lane_bits(0, 0, 0, c);
            }
            assert(r@.sourcecfg =~= v.sourcecfg);
            assert(r@.target =~= v.target);
            assert(r@.enabled =~= v.enabled);
            assert(r@.pending =~= v.pending);
            assert(r@ == v);
            assert(spec_target_word(0, 0, 0) == 0);
        }
        r
    }

    /// Writes `word` to the register at `offset` where neither the
    /// `sourcecfg` and `target` words nor the bitmaps lie.
    fn write_plain(&mut self, offset: usize, word: u32)
        requires
            old(self).wf(),
            offset == DOMAINCFG || offset == MMSIADDRCFG || offset == MMSIADDRCFGH || offset
                == SMSIADDRCFG || offset == SMSIADDRCFGH || offset == GENMSI,
        ensures
            final(self).wf(),
            final(self).regs@ == old(self).regs@.update(offset as int / 4, word),
            final(self)@.sourcecfg == old(self)@.sourcecfg,
            final(self)@.target == old(self)@.target,
            final(self)@.enabled == old(self)@.enabled,
            final(self)@.pending == old(self)@.pending,
    {
        self.regs.write32(offset, word);
        proof {
            assert(self@.sourcecfg =~= old(self)@.sourcecfg);
            assert(self@.target =~= old(self)@.target);
            assert(self@.enabled =~= old(self)@.enabled);
            assert(self@.pending =~= old(self)@.pending);
        }
    }

    /// Sets the configuration of the domain: whether it delivers
    /// interrupts, how, and in which byte order.
    pub fn set_domaincfg(&mut self, ie: InterruptEnable, dm: DeliveryMode, be: Endian)
        requires
            old(self).wf(),
        ensures
            final(self).wf(),
            final(self)@ == (AplicView {
                domaincfg: spec_domaincfg_word(ie, dm, be),
                ..old(self)@
            }),
    {
        self.write_plain(DOMAINCFG, domaincfg_word(ie, dm, be));
    }

    /// Sets the machine-level message address configuration to the
    /// physical address `msi_addr` and the high-order bits `mmsiaddrcfgh`,
    /// which may include the lock bit.
    ///
    /// The address is taken as given. The hardware writes its messages
    /// there, so a wrong address sends them astray: the caller answers for
    /// it.
    pub fn set_mmsiaddrcfg(&mut self, msi_addr: usize, mmsiaddrcfgh: u32)
        requires
            old(self).wf(),
        ensures
            final(self).wf(),
            final(self)@ == (AplicView {
                mmsiaddrcfg: (
                    spec_msiaddrcfg_low(msi_addr),
                    spec_msiaddrcfg_high(msi_addr, mmsiaddrcfgh),
                ),
                ..old(self)@
            }),
    {
        let (low, high) = msiaddrcfg_words(msi_addr, mmsiaddrcfgh);
        self.write_plain(MMSIADDRCFG, low);
        self.write_plain(MMSIADDRCFGH, high);
    }

    /// Sets the supervisor-level message address configuration to the
    /// physical address `msi_addr` and the high-order bits `smsiaddrcfgh`.
    ///
    /// The address is taken as given. The hardware writes its messages
    /// there, so a wrong address sends them astray: the caller answers for
    /// it.
    pub fn set_smsiaddrcfg(&mut self, msi_addr: usize, smsiaddrcfgh: u32)
        requires
            old(self).wf(),
        ensures
            final(self).wf(),
            final(self)@ == (AplicView {
                smsiaddrcfg: (
                    spec_msiaddrcfg_low(msi_addr),
                    spec_msiaddrcfg_high(msi_addr, smsiaddrcfgh),
                ),
                ..old(self)@
            }),
    {
        let (low, high) = msiaddrcfg_words(msi_addr, smsiaddrcfgh);
        self.write_plain(SMSIADDRCFG, low);
        self.write_plain(SMSIADDRCFGH, high);
    }

    /// Writes the `sourcecfg` word of source `id`.
    fn write_sourcecfg(&mut self, id: u32, word: u32)
        requires
            old(self).wf(),
            valid_source(id),
            valid_sourcecfg(word),
        ensures
            final(self).wf(),
            final(self)@ == old(self)@.with_sourcecfg(id as int, word),
    {
        self.regs.write32(SOURCECFG_BASE + 4 * (id as usize), word);
        proof {
            let want = old(self)@.with_sourcecfg(id as int, word);
            assert(self@.sourcecfg =~= want.sourcecfg);
            assert(self@.target =~= want.target);
            assert(self@.enabled =~= want.enabled);
            assert(self@.pending =~= want.pending);
            assert(self@ == want);
        }
    }

    /// Delegates source `id` to the child domain `child`. Whatever the
    /// source was configured as before is overwritten. `OutOfRange` where
    /// `id` names no source or there is no child of that index.
    pub fn sourcecfg_delegate(&mut self, id: u32, child: u32) -> (r: Result<(), Error>)
        requires
            old(self).wf(),
        ensures
            final(self).wf(),
            valid_source(id) && child < CHILDREN ==> r == Ok::<(), Error>(()) && final(self)@
                == old(self)@.with_sourcecfg(id as int, spec_delegate_word(child)),
            !(valid_source(id) && child < CHILDREN) ==> r == Err::<(), Error>(Error::OutOfRange)
                && final(self)@ == old(self)@,
    {
        if id == 0 || id >= SOURCES {
            return Err(Error::OutOfRange);
        }
        match delegate_word(child) {
            Err(e) => Err(e),
            Ok(word) => {
                self.write_sourcecfg(id, word);
                Ok(())
            },
        }
    }

    /// Has the domain handle source `id` itself, in `mode`. Whatever the
    /// source was configured as before, a delegation too, is overwritten.
    /// `OutOfRange` where `id` names no source.
    pub fn set_sourcecfg(&mut self, id: u32, mode: SourceModes) -> (r: Result<(), Error>)
        requires
            old(self).wf(),
        ensures
            final(self).wf(),
            valid_source(id) ==> r == Ok::<(), Error>(()) && final(self)@
                == old(self)@.with_sourcecfg(id as int, spec_mode_word(mode)),
            !valid_source(id) ==> r == Err::<(), Error>(Error::OutOfRange) && final(self)@
                == old(self)@,
    {
        if id == 0 || id >= SOURCES {
            return Err(Error::OutOfRange);
        }
        self.write_sourcecfg(id, mode.bits());
        Ok(())
    }

    /// What the domain does with source `id`: the mode that it handles
    /// the source in, or the child that the source is delegated to.
    pub fn sourcecfg(&self, id: u32) -> (r: Result<SourceConfig, Error>)
        requires
            self.wf(),
        ensures
            valid_source(id) ==> r == Ok::<SourceConfig, Error>(self@.source_config(id as int)),
            !valid_source(id) ==> r == Err::<SourceConfig, Error>(Error::OutOfRange),
    {
        if id == 0 || id >= SOURCES {
            return Err(Error::OutOfRange);
        }
        Ok(self.source_config_of(id))
    }

    /// What the domain does with the source that `id` names.
    pub(crate) fn source_config_of(&self, id: u32) -> (r: SourceConfig)
        requires
            self.wf(),
            valid_source(id),
        ensures
            r == self@.source_config(id as int),
    {
        let word = self.regs.read32(SOURCECFG_BASE + 4 * (id as usize));
        assert(word == self@.sourcecfg[id as int]);
        source_config(word)
    }

    /// Sets the target of the messages of source `id`: the hart and
    /// guest that receive them and the interrupt identity `eiid` that they
    /// carry, by convention the id of the source. `OutOfRange` where `id`
    /// names no source or a field is beyond what a target can name.
    pub fn set_target_msi(&mut self, id: u32, hart: u32, guest: u32, eiid: u32) -> (r: Result<
        (),
        Error,
    >)
        requires
            old(self).wf(),
        ensures
            final(self).wf(),
            valid_source(id) && valid_target(hart, guest, eiid) ==> r == Ok::<(), Error>(())
                && final(self)@ == old(self)@.with_target(
                id as int,
                spec_target_word(hart, guest, eiid),
            ),
            !(valid_source(id) && valid_target(hart, guest, eiid)) ==> r == Err::<(), Error>(
                Error::OutOfRange,
            ) && final(self)@ == old(self)@,
    {
        if id == 0 || id >= SOURCES {
            return Err(Error::OutOfRange);
        }
        match target_word(hart, guest, eiid) {
            Err(e) => Err(e),
            Ok(word) => {
                self.regs.write32(TARGET_BASE + 4 * (id as usize), word);
                proof {
                    let want = old(self)@.with_target(id as int, word);
                    assert(self@.sourcecfg =~= want.sourcecfg);
                    assert(self@.target =~= want.target);
                    assert(self@.enabled =~= want.enabled);
                    assert(self@.pending =~= want.pending);
                    assert(self@ == want);
                }
                Ok(())
            },
        }
    }

    /// The target of the messages of source `id`: hart index, guest index
    /// and interrupt identity.
    pub fn target_msi(&self, id: u32) -> (r: Result<(u32, u32, u32), Error>)
        requires
            self.wf(),
        ensures
            valid_source(id) ==> r == Ok::<(u32, u32, u32), Error>(
                spec_target_fields(self@.target[id as int]),
            ),
            !valid_source(id) ==> r == Err::<(u32, u32, u32), Error>(Error::OutOfRange),
    {
        if id == 0 || id >= SOURCES {
            return Err(Error::OutOfRange);
        }
        let word = self.regs.read32(TARGET_BASE + 4 * (id as usize));
        assert(word == self@.target[id as int]);
        Ok(target_fields(word))
    }

    /// Where the enabled flag of a source is kept in the register block.
    proof fn lemma_flag_words(&self, i: int)
        requires
            0 <= i < SOURCES,
        ensures
            self@.enabled[i] == word_bit(self.regs@[0x780 + i / 32], (i % 32) as u32),
            self@.pending[i] == word_bit(self.regs@[0x700 + i / 32], (i % 32) as u32),
    {
    }

    /// Sets (`on`) or clears, in word `lane` of the bitmap of `flag`, the
    /// bits that are one in `bits`, but for the bit of id 0.
    fn write_lane(&mut self, flag: Flag, lane: usize, bits: u32, on: bool)
        requires
            old(self).wf(),
            lane < 32,
        ensures
            final(self).wf(),
            flag == Flag::Enabled ==> final(self)@ == (AplicView {
                enabled: with_lane(old(self)@.enabled, lane as int, bits, on),
                ..old(self)@
            }),
            flag == Flag::Pending ==> final(self)@ == (AplicView {
                pending: with_lane(old(self)@.pending, lane as int, bits, on),
                ..old(self)@
            }),
    {
        let base = match flag {
            Flag::Enabled => SETIE,
            Flag::Pending => SETIP,
        };
        let offset = base + 4 * lane;
        let word = self.regs.read32(offset);
        let live = if lane == 0 {
            bits & !1u32
        } else {
            bits
        };
        let next = if on {
            word | live
        } else {
            word & !live
        };
        self.regs.write32(offset, next);
        proof {
            let before = old(self)@;
            assert(self@.sourcecfg =~= before.sourcecfg);
            assert(self@.target =~= before.target);
            let after_enabled = if flag == Flag::Enabled {
                with_lane(before.enabled, lane as int, bits, on)
            } else {
                before.enabled
            };
            let after_pending = if flag == Flag::Pending {
                with_lane(before.pending, lane as int, bits, on)
            } else {
                before.pending
            };
            assert forall|i: int| 0 <= i < SOURCES implies #[trigger] self@.enabled[i]
                == after_enabled[i] by {
                self.lemma_flag_words(i);
                old(self).lemma_flag_words(i);
                if i / 32 == lane {
                    lemma_lane_bits(word, live, 0, (i % 32) as u32);
                    lemma_lane_bits(word, bits, 0, (i % 32) as u32);
                }
            }
            assert forall|i: int| 0 <= i < SOURCES implies #[trigger] self@.pending[i]
                == after_pending[i] by {
                self.lemma_flag_words(i);
                old(self).lemma_flag_words(i);
                if i / 32 == lane {
                    lemma_lane_bits(word, live, 0, (i % 32) as u32);
                    lemma_lane_bits(word, bits, 0, (i % 32) as u32);
                }
            }
            assert(self@.enabled =~= after_enabled);
            assert(self@.pending =~= after_pending);
        }
    }

    /// Sets or clears the flag `flag` of source `id` through the word of
    /// its bitmap.
    fn write_num(&mut self, flag: Flag, id: u32, on: bool) -> (r: Result<(), Error>)
        requires
            old(self).wf(),
        ensures
            final(self).wf(),
            !valid_source(id) ==> r == Err::<(), Error>(Error::OutOfRange) && final(self)@
                == old(self)@,
            valid_source(id) ==> r == Ok::<(), Error>(()),
            valid_source(id) && flag == Flag::Enabled ==> final(self)@ == (AplicView {
                enabled: old(self)@.enabled.update(id as int, on),
                ..old(self)@
            }),
            valid_source(id) && flag == Flag::Pending ==> final(self)@ == (AplicView {
                pending: old(self)@.pending.update(id as int, on),
                ..old(self)@
            }),
    {
        if id == 0 || id >= SOURCES {
            return Err(Error::OutOfRange);
        }
        proof {
            lemma_num_is_lane(self@.enabled, id, on);
            lemma_num_is_lane(self@.pending, id, on);
        }
        self.write_lane(flag, (id / 32) as usize, 1u32 << (id % 32), on);
        Ok(())
    }

    /// Writes `bits` to word `lane` of `setie`: enables each source of
    /// that word whose bit is one. `OutOfRange` from lane 32 on.
    pub fn setie(&mut self, lane: usize, bits: u32) -> (r: Result<(), Error>)
        requires
            old(self).wf(),
        ensures
            final(self).wf(),
            lane < 32 ==> r == Ok::<(), Error>(()) && final(self)@ == (AplicView {
                enabled: with_lane(old(self)@.enabled, lane as int, bits, true),
                ..old(self)@
            }),
            lane >= 32 ==> r == Err::<(), Error>(Error::OutOfRange) && final(self)@ == old(self)@,
    {
        if lane >= 32 {
            return Err(Error::OutOfRange);
        }
        self.write_lane(Flag::Enabled, lane, bits, true);
        Ok(())
    }

    /// Writes `bits` to word `lane` of `clrie`: disables each source of
    /// that word whose bit is one. `OutOfRange` from lane 32 on.
    pub fn clrie(&mut self, lane: usize, bits: u32) -> (r: Result<(), Error>)
        requires
            old(self).wf(),
        ensures
            final(self).wf(),
            lane < 32 ==> r == Ok::<(), Error>(()) && final(self)@ == (AplicView {
                enabled: with_lane(old(self)@.enabled, lane as int, bits, false),
                ..old(self)@
            }),
            lane >= 32 ==> r == Err::<(), Error>(Error::OutOfRange) && final(self)@ == old(self)@,
    {
        if lane >= 32 {
            return Err(Error::OutOfRange);
        }
        self.write_lane(Flag::Enabled, lane, bits, false);
        Ok(())
    }

    /// Writes `bits` to word `lane` of `setip`: makes pending each source
    /// of that word whose bit is one. `OutOfRange` from lane 32 on.
    pub fn setip(&mut self, lane: usize, bits: u32) -> (r: Result<(), Error>)
        requires
            old(self).wf(),
        ensures
            final(self).wf(),
            lane < 32 ==> r == Ok::<(), Error>(()) && final(self)@ == (AplicView {
                pending: with_lane(old(self)@.pending, lane as int, bits, true),
                ..old(self)@
            }),
            lane >= 32 ==> r == Err::<(), Error>(Error::OutOfRange) && final(self)@ == old(self)@,
    {
        if lane >= 32 {
            return Err(Error::OutOfRange);
        }
        self.write_lane(Flag::Pending, lane, bits, true);
        Ok(())
    }

    /// Writes `bits` to word `lane` of `in_clrip`: clears the pending flag
    /// of each source of that word whose bit is one. `OutOfRange` from
    /// lane 32 on.
    pub fn in_clrip(&mut self, lane: usize, bits: u32) -> (r: Result<(), Error>)
        requires
            old(self).wf(),
        ensures
            final(self).wf(),
            lane < 32 ==> r == Ok::<(), Error>(()) && final(self)@ == (AplicView {
                pending: with_lane(old(self)@.pending, lane as int, bits, false),
                ..old(self)@
            }),
            lane >= 32 ==> r == Err::<(), Error>(Error::OutOfRange) && final(self)@ == old(self)@,
    {
        if lane >= 32 {
            return Err(Error::OutOfRange);
        }
        self.write_lane(Flag::Pending, lane, bits, false);
        Ok(())
    }

    /// Writes `id` to `setienum`: enables source `id`. `OutOfRange` where
    /// `id` names no source.
    pub fn setienum(&mut self, id: u32) -> (r: Result<(), Error>)
        requires
            old(self).wf(),
        ensures
            final(self).wf(),
            valid_source(id) ==> r == Ok::<(), Error>(()) && final(self)@ == (AplicView {
                enabled: old(self)@.enabled.update(id as int, true),
                ..old(self)@
            }),
            !valid_source(id) ==> r == Err::<(), Error>(Error::OutOfRange) && final(self)@
                == old(self)@,
    {
        self.write_num(Flag::Enabled, id, true)
    }

    /// Writes `id` to `clrienum`: disables source `id`. `OutOfRange` where
    /// `id` names no source.
    pub fn clrienum(&mut self, id: u32) -> (r: Result<(), Error>)
        requires
            old(self).wf(),
        ensures
            final(self).wf(),
            valid_source(id) ==> r == Ok::<(), Error>(()) && final(self)@ == (AplicView {
                enabled: old(self)@.enabled.update(id as int, false),
                ..old(self)@
            }),
            !valid_source(id) ==> r == Err::<(), Error>(Error::OutOfRange) && final(self)@
                == old(self)@,
    {
        self.write_num(Flag::Enabled, id, false)
    }

    /// Writes `id` to `setipnum`: makes source `id` pending. `OutOfRange`
    /// where `id` names no source.
    pub fn setipnum(&mut self, id: u32) -> (r: Result<(), Error>)
        requires
            old(self).wf(),
        ensures
            final(self).wf(),
            valid_source(id) ==> r == Ok::<(), Error>(()) && final(self)@ == (AplicView {
                pending: old(self)@.pending.update(id as int, true),
                ..old(self)@
            }),
            !valid_source(id) ==> r == Err::<(), Error>(Error::OutOfRange) && final(self)@
                == old(self)@,
    {
        self.write_num(Flag::Pending, id, true)
    }

    /// Writes `id` to `clripnum`: clears the pending flag of source `id`.
    /// `OutOfRange` where `id` names no source.
    pub fn clripnum(&mut self, id: u32) -> (r: Result<(), Error>)
        requires
            old(self).wf(),
        ensures
            final(self).wf(),
            valid_source(id) ==> r == Ok::<(), Error>(()) && final(self)@ == (AplicView {
                pending: old(self)@.pending.update(id as int, false),
                ..old(self)@
            }),
            !valid_source(id) ==> r == Err::<(), Error>(Error::OutOfRange) && final(self)@
                == old(self)@,
    {
        self.write_num(Flag::Pending, id, false)
    }

    /// Masks source `id`: disables it, as a write of `id` to `clrienum`
    /// does. `OutOfRange` where `id` names no source.
    pub fn mask(&mut self, id: u32) -> (r: Result<(), Error>)
        requires
            old(self).wf(),
        ensures
            final(self).wf(),
            valid_source(id) ==> r == Ok::<(), Error>(()) && final(self)@ == (AplicView {
                enabled: old(self)@.enabled.update(id as int, false),
                ..old(self)@
            }),
            !valid_source(id) ==> r == Err::<(), Error>(Error::OutOfRange) && final(self)@
                == old(self)@,
    {
        self.clrienum(id)
    }

    /// Unmasks source `id`: enables it, as a write of `id` to `setienum`
    /// does. `OutOfRange` where `id` names no source.
    pub fn unmask(&mut self, id: u32) -> (r: Result<(), Error>)
        requires
            old(self).wf(),
        ensures
            final(self).wf(),
            valid_source(id) ==> r == Ok::<(), Error>(()) && final(self)@ == (AplicView {
                enabled: old(self)@.enabled.update(id as int, true),
                ..old(self)@
            }),
            !valid_source(id) ==> r == Err::<(), Error>(Error::OutOfRange) && final(self)@
                == old(self)@,
    {
        self.setienum(id)
    }

    /// Whether source `id` is enabled.
    pub fn is_enabled(&self, id: u32) -> (r: Result<bool, Error>)
        requires
            self.wf(),
        ensures
            valid_source(id) ==> r == Ok::<bool, Error>(self@.enabled[id as int]),
            !valid_source(id) ==> r == Err::<bool, Error>(Error::OutOfRange),
    {
        if id == 0 || id >= SOURCES {
            return Err(Error::OutOfRange);
        }
        let word = self.regs.read32(SETIE + 4 * ((id / 32) as usize));
        proof {
            self.lemma_flag_words(id as int);
        }
        Ok(word & (1u32 << (id % 32)) != 0)
    }

    /// Whether source `id` is pending.
    pub fn is_pending(&self, id: u32) -> (r: Result<bool, Error>)
        requires
            self.wf(),
        ensures
            valid_source(id) ==> r == Ok::<bool, Error>(self@.pending[id as int]),
            !valid_source(id) ==> r == Err::<bool, Error>(Error::OutOfRange),
    {
        if id == 0 || id >= SOURCES {
            return Err(Error::OutOfRange);
        }
        let word = self.regs.read32(SETIP + 4 * ((id / 32) as usize));
        proof {
            self.lemma_flag_words(id as int);
        }
        Ok(word & (1u32 << (id % 32)) != 0)
    }

    /// Writes to `genmsi`: has the domain send a message with the
    /// interrupt identity `eiid` to hart `hart`, as if a source had
    /// raised it. `OutOfRange` where a field is beyond what a target can
    /// name.
    pub fn genmsi(&mut self, hart: u32, eiid: u32) -> (r: Result<(), Error>)
        requires
            old(self).wf(),
        ensures
            final(self).wf(),
            valid_target(hart, 0, eiid) ==> r == Ok::<(), Error>(()) && final(self)@ == (AplicView {
                genmsi: spec_target_word(hart, 0, eiid),
                ..old(self)@
            }),
            !valid_target(hart, 0, eiid) ==> r == Err::<(), Error>(Error::OutOfRange)
                && final(self)@ == old(self)@,
    {
        match target_word(hart, 0, eiid) {
            Err(e) => Err(e),
            Ok(word) => {
                self.write_plain(GENMSI, word);
                Ok(())
            },
        }
    }

    /// The `domaincfg` word.
    pub fn domaincfg(&self) -> (r: u32)
        requires
            self.wf(),
        ensures
            r == self@.domaincfg,
    {
        self.regs.read32(DOMAINCFG)
    }
}

/// A write of the number of a source to a register that takes numbers does
/// what a write of the one bit of the source to its word of the bitmap
/// does: the two ways of addressing a flag lead to the same state.
pub proof fn lemma_num_is_lane(flags: Seq<bool>, id: u32, on: bool)
    requires
        flags.len() == SOURCES,
        valid_source(id),
    ensures
        with_lane(flags, id as int / 32, 1u32 << (id % 32), on) == flags.update(id as int, on),
{
    let lane = id as int / 32;
    let bits = 1u32 << (id % 32);
    assert forall|i: int| 0 <= i < SOURCES implies with_lane(flags, lane, bits, on)[i]
        == flags.update(id as int, on)[i] by {
        lemma_lane_bits(0, 0, (id % 32) as u32, (i % 32) as u32);
    }
    assert(with_lane(flags, lane, bits, on) =~= flags.update(id as int, on));
}

/// Setting the mode of a source that was delegated leaves nothing of the
/// delegation: the state is the one that setting the mode alone gives, the
/// source is handled in that mode, and the domain owns it.
pub proof fn lemma_mode_overwrites_delegation(v: AplicView, id: u32, child: u32, mode: SourceModes)
    requires
        v.wf(),
        valid_source(id),
        child < CHILDREN,
    ensures
        v.with_sourcecfg(id as int, spec_delegate_word(child)).with_sourcecfg(
            id as int,
            spec_mode_word(mode),
        ) == v.with_sourcecfg(id as int, spec_mode_word(mode)),
        v.with_sourcecfg(id as int, spec_mode_word(mode)).source_config(id as int)
            == SourceConfig::Mode(mode),
        v.with_sourcecfg(id as int, spec_mode_word(mode)).sourcecfg[id as int] == mode.spec_bits(),
        v.with_sourcecfg(id as int, spec_mode_word(mode)).owns(id as int),
        v.with_sourcecfg(id as int, spec_delegate_word(child)).source_config(id as int)
            == SourceConfig::DelegatedTo(child),
        !v.with_sourcecfg(id as int, spec_delegate_word(child)).owns(id as int),
{
    let a = v.with_sourcecfg(id as int, spec_delegate_word(child)).with_sourcecfg(
        id as int,
        spec_mode_word(mode),
    );
    let b = v.with_sourcecfg(id as int, spec_mode_word(mode));
    assert(a.sourcecfg =~= b.sourcecfg);
}

} // verus!

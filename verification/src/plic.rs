//! Platform-level interrupt controller.
//!
//! The controller arbitrates between interrupt sources by priority and
//! hands the winner to a context through a claim, which the context later
//! completes. [`Plic`] models the controller over its register block, so
//! that every step of that protocol has a contract.

use crate::error::Error;
use crate::surface::RegisterBlock;
use vstd::arithmetic::power2::pow2;
use vstd::prelude::*;

verus! {

/// Number of source ids, id 0 included, which names no source.
pub const SOURCES: usize = 1024;

/// Number of contexts that the register block has room for.
pub const MAX_CONTEXTS: usize = 15872;

/// Byte offset of the priority words, one per source id.
pub const PRIORITY_BASE: usize = 0x0000;

/// Byte offset of the pending bitmap, 32 words.
pub const PENDING_BASE: usize = 0x1000;

/// Byte offset of the enable bitmap of context 0.
pub const ENABLE_BASE: usize = 0x2000;

/// Bytes from the enable bitmap of one context to that of the next.
pub const ENABLE_STRIDE: usize = 0x80;

/// Byte offset of the threshold and claim words of context 0.
pub const CONTEXT_BASE: usize = 0x20_0000;

/// Bytes from the threshold of one context to that of the next.
pub const CONTEXT_STRIDE: usize = 0x1000;

/// Byte offset of the claim word from the threshold of its context.
pub const CLAIM_OFFSET: usize = 0x4;

/// Size in bytes of the whole register block.
pub const SIZE: usize = 0x400_0000;

/// `irq` names a source: id 0 names none.
pub open spec fn valid_source(irq: usize) -> bool {
    0 < irq < SOURCES
}

/// Bit `bit` of the word `word` is one.
pub open spec fn word_bit(word: u32, bit: u32) -> bool {
    word & (1u32 << bit) != 0
}

/// The largest raw value of a priority that is `width` bits wide:
/// `2^width - 1`, and the largest word from 32 bits on.
pub open spec fn max_priority(width: usize) -> u32 {
    if width >= 32 {
        u32::MAX
    } else {
        (pow2(width as nat) - 1) as u32
    }
}

/// Priority of an interrupt source, `B` bits wide.
///
/// With `B` of 3 the highest priority is 7 and the lowest is 1. Priority 0
/// never interrupts.
#[derive(Clone, Copy, PartialEq, Eq, Debug, Hash)]
pub struct Priority<const B: usize>(pub(crate) u32);

impl<const B: usize> Priority<B> {
    /// The raw value.
    pub closed spec fn bits(self) -> u32 {
        self.0
    }

    /// The raw value fits the `B` bits of the priority.
    pub open spec fn wf(self) -> bool {
        self.bits() <= max_priority(B)
    }

    /// What `from_bits` makes of `prio`: the priority with that raw value
    /// where it fits the `B` bits, and no priority where it does not.
    pub open spec fn spec_from_bits(prio: u32) -> Option<Priority<B>> {
        if prio <= max_priority(B) {
            Some(Self::with_bits(prio))
        } else {
            None
        }
    }

    /// The priority whose raw value is `prio`.
    pub closed spec fn with_bits(prio: u32) -> Priority<B> {
        Priority(prio)
    }

    /// A priority is its raw value and nothing more.
    pub broadcast proof fn lemma_bits_with_bits(prio: u32)
        ensures
            (#[trigger] Self::with_bits(prio)).bits() == prio,
    {
    }

    /// Two priorities with the same raw value are the same priority.
    pub proof fn lemma_bits_decide(self, other: Priority<B>)
        ensures
            self.bits() == other.bits() <==> self == other,
            Self::with_bits(self.bits()) == self,
    {
    }

    /// Priority 0: never interrupt.
    #[inline(always)]
    pub fn never() -> (r: Priority<B>)
        ensures
            r.bits() == 0,
            r.wf(),
    {
        Priority(0)
    }

    /// The lowest priority that interrupts: 1.
    #[inline(always)]
    pub fn lowest() -> (r: Priority<B>)
        ensures
            r.bits() == 1,
    {
        Priority(1)
    }

    /// The highest priority: `2^B - 1`, all ones where `B` is 32 or more.
    #[inline(always)]
    pub fn highest() -> (r: Priority<B>)
        ensures
            r.bits() == max_priority(B),
            r.wf(),
    {
        if B >= 32 {
            Priority(u32::MAX)
        } else {
            proof {
                lemma_one_shl(B);
            }
            Priority((1u32 << B) - 1)
        }
    }

    /// The raw value of the priority.
    #[inline]
    pub fn into_bits(self) -> (r: u32)
        ensures
            r == self.bits(),
    {
        self.0
    }

    /// The priority with raw value `prio`, or `OutOfRange` where `prio`
    /// does not fit `B` bits. With `B` of 32 or more every value fits.
    #[inline]
    pub fn from_bits(prio: u32) -> (r: Result<Priority<B>, Error>)
        ensures
            r.is_ok() <==> prio <= max_priority(B),
            r.is_ok() ==> r.unwrap().bits() == prio && r.unwrap().wf(),
            r.is_err() ==> r == Err::<Priority<B>, Error>(Error::OutOfRange),
            r.ok() == Self::spec_from_bits(prio),
    {
        if B >= 32 {
            return Ok(Priority(prio));
        }
        proof {
            lemma_one_shl(B);
        }
        if prio < (1u32 << B) {
            Ok(Priority(prio))
        } else {
            Err(Error::OutOfRange)
        }
    }
}

/// Below 32 bits, 1 shifted left by `width` is `2^width`, which a word holds.
pub proof fn lemma_one_shl(width: usize)
    requires
        width < 32,
    ensures
        (1u32 << width) == pow2(width as nat),
        1 <= pow2(width as nat) <= u32::MAX,
        max_priority(width) == pow2(width as nat) - 1,
{
    vstd::bits::lemma_u32_pow2_no_overflow(width as nat);
    vstd::bits::lemma_u32_shl_is_mul(1u32, width as u32);
    assert(1u32 << width == 1u32 << (width as u32)) by (bit_vector)
        requires
            width < 32,
    ;
}

/// Byte offset of the priority word of source `irq`.
pub open spec fn spec_priority_offset(irq: usize) -> int {
    PRIORITY_BASE + 4 * irq
}

/// Byte offset of the pending word that holds the bit of source `irq`.
pub open spec fn spec_pending_offset(irq: usize) -> int {
    PENDING_BASE + 4 * (irq / 32)
}

/// Byte offset of the enable word of `context` that holds the bit of
/// source `irq`.
pub open spec fn spec_enable_offset(context: usize, irq: usize) -> int {
    ENABLE_BASE + ENABLE_STRIDE * context + 4 * (irq / 32)
}

/// Byte offset of the threshold word of `context`.
pub open spec fn spec_threshold_offset(context: usize) -> int {
    CONTEXT_BASE + CONTEXT_STRIDE * context
}

/// Byte offset of the claim and complete word of `context`.
pub open spec fn spec_claim_offset(context: usize) -> int {
    CONTEXT_BASE + CONTEXT_STRIDE * context + CLAIM_OFFSET
}

/// The word with only the bit of source `irq` set: bit `irq % 32`.
pub open spec fn spec_source_mask(irq: usize) -> u32 {
    1u32 << ((irq % 32) as u32)
}

/// Byte offset of the priority word of source `irq`; `OutOfRange` unless
/// `irq` names a source.
pub fn priority_offset(irq: usize) -> (r: Result<usize, Error>)
    ensures
        valid_source(irq) ==> r == Ok::<usize, Error>(spec_priority_offset(irq) as usize),
        !valid_source(irq) ==> r == Err::<usize, Error>(Error::OutOfRange),
{
    if irq == 0 || irq >= SOURCES {
        return Err(Error::OutOfRange);
    }
    Ok(PRIORITY_BASE + 4 * irq)
}

/// Byte offset of the pending word that holds the bit of source `irq`;
/// `OutOfRange` unless `irq` names a source.
pub fn pending_offset(irq: usize) -> (r: Result<usize, Error>)
    ensures
        valid_source(irq) ==> r == Ok::<usize, Error>(spec_pending_offset(irq) as usize),
        !valid_source(irq) ==> r == Err::<usize, Error>(Error::OutOfRange),
{
    if irq == 0 || irq >= SOURCES {
        return Err(Error::OutOfRange);
    }
    Ok(PENDING_BASE + 4 * (irq / 32))
}

/// Byte offset of the enable word of `context` that holds the bit of
/// source `irq`; `OutOfRange` unless `irq` names a source and `context` is
/// one that the register block has room for.
pub fn enable_offset(context: usize, irq: usize) -> (r: Result<usize, Error>)
    ensures
        valid_source(irq) && context < MAX_CONTEXTS ==> r == Ok::<usize, Error>(
            spec_enable_offset(context, irq) as usize,
        ),
        !(valid_source(irq) && context < MAX_CONTEXTS) ==> r == Err::<usize, Error>(
            Error::OutOfRange,
        ),
{
    if irq == 0 || irq >= SOURCES || context >= MAX_CONTEXTS {
        return Err(Error::OutOfRange);
    }
    Ok(ENABLE_BASE + ENABLE_STRIDE * context + 4 * (irq / 32))
}

/// Byte offset of the threshold word of `context`; `OutOfRange` unless the
/// register block has room for `context`.
pub fn threshold_offset(context: usize) -> (r: Result<usize, Error>)
    ensures
        context < MAX_CONTEXTS ==> r == Ok::<usize, Error>(
            spec_threshold_offset(context) as usize,
        ),
        context >= MAX_CONTEXTS ==> r == Err::<usize, Error>(Error::OutOfRange),
{
    if context >= MAX_CONTEXTS {
        return Err(Error::OutOfRange);
    }
    Ok(CONTEXT_BASE + CONTEXT_STRIDE * context)
}

/// Byte offset of the claim and complete word of `context`; `OutOfRange`
/// unless the register block has room for `context`.
pub fn claim_offset(context: usize) -> (r: Result<usize, Error>)
    ensures
        context < MAX_CONTEXTS ==> r == Ok::<usize, Error>(spec_claim_offset(context) as usize),
        context >= MAX_CONTEXTS ==> r == Err::<usize, Error>(Error::OutOfRange),
{
    if context >= MAX_CONTEXTS {
        return Err(Error::OutOfRange);
    }
    Ok(CONTEXT_BASE + CONTEXT_STRIDE * context + CLAIM_OFFSET)
}

/// The word with only the bit of source `irq` set.
pub fn source_mask(irq: usize) -> (r: u32)
    ensures
        r == spec_source_mask(irq),
{
    1u32 << ((irq % 32) as u32)
}

/// Whether the bit of source `irq` is set in `word`, the word of a bitmap
/// that holds it.
pub fn source_bit(word: u32, irq: usize) -> (r: bool)
    ensures
        r == word_bit(word, (irq % 32) as u32),
{
    word & (1u32 << ((irq % 32) as u32)) != 0
}

/// What a claim word stands for: the id in its low 16 bits, and no source
/// where those are zero.
pub open spec fn spec_claimed_source(word: u32) -> Option<u16> {
    if word & 0xffff == 0 {
        None
    } else {
        Some((word & 0xffff) as u16)
    }
}

/// Reads a claim word: the id of the claimed source, never 0, or `None`
/// where the word names no source.
pub fn claimed_source(word: u32) -> (r: Option<u16>)
    ensures
        r == spec_claimed_source(word),
        r != Some(0u16),
{
    let id: u16 = (word & 0xffff) as u16;
    assert(word & 0xffff == 0 <==> (word & 0xffff) as u16 == 0) by (bit_vector);
    if id == 0 {
        None
    } else {
        Some(id)
    }
}

/// The state of a controller, as the contracts speak of it.
pub struct PlicView {
    /// Number of contexts that the controller was built with.
    pub contexts: nat,
    /// Raw priority of each source id.
    pub priority: Seq<u32>,
    /// Whether each source id is latched pending.
    pub pending: Seq<bool>,
    /// For each context, whether each source id is enabled for it.
    pub enabled: Seq<Seq<bool>>,
    /// Raw priority threshold of each context.
    pub threshold: Seq<u32>,
    /// Whether each source id has been claimed and not yet completed.
    pub claimed: Seq<bool>,
}

impl PlicView {
    /// The state has the shape of a controller whose priorities are at most
    /// `max`, and no source is both claimed and pending.
    pub open spec fn wf(self, max: u32) -> bool {
        &&& self.contexts <= MAX_CONTEXTS
        &&& self.priority.len() == SOURCES
        &&& self.pending.len() == SOURCES
        &&& self.claimed.len() == SOURCES
        &&& self.enabled.len() == self.contexts
        &&& self.threshold.len() == self.contexts
        &&& forall|c: int| 0 <= c < self.contexts ==> (#[trigger] self.enabled[c]).len() == SOURCES
        &&& forall|s: int| 0 <= s < SOURCES ==> #[trigger] self.priority[s] <= max
        &&& forall|c: int| 0 <= c < self.contexts ==> #[trigger] self.threshold[c] <= max
        &&& forall|s: int| 0 <= s < SOURCES ==> (#[trigger] self.claimed[s] ==> !self.pending[s])
    }

    /// Source `s` can be claimed by `context`: it is pending, enabled for
    /// the context, of a priority other than 0, and at or above the
    /// threshold of the context.
    pub open spec fn claimable(self, context: int, s: int) -> bool {
        &&& 0 < s < SOURCES
        &&& self.pending[s]
        &&& self.enabled[context][s]
        &&& self.priority[s] != 0
        &&& self.priority[s] >= self.threshold[context]
    }

    /// Source `s` is the one that a claim by `context` yields: it can be
    /// claimed, no source that can be claimed has a higher priority, and
    /// none of the same priority has a lower id.
    pub open spec fn wins(self, context: int, s: int) -> bool {
        &&& self.claimable(context, s)
        &&& forall|t: int| #[trigger]
            self.claimable(context, t) ==> self.priority[t] < self.priority[s] || (
            self.priority[t] == self.priority[s] && s <= t)
    }

    /// The state with source `irq` enabled for `context`, or disabled.
    pub open spec fn with_enabled(self, context: int, irq: int, on: bool) -> PlicView {
        PlicView {
            enabled: self.enabled.update(context, self.enabled[context].update(irq, on)),
            ..self
        }
    }

    /// The state with the priority of source `irq` set to `bits`.
    pub open spec fn with_priority(self, irq: int, bits: u32) -> PlicView {
        PlicView { priority: self.priority.update(irq, bits), ..self }
    }

    /// The state with the threshold of `context` set to `bits`.
    pub open spec fn with_threshold(self, context: int, bits: u32) -> PlicView {
        PlicView { threshold: self.threshold.update(context, bits), ..self }
    }

    /// The state after source `irq` was asserted: latched pending, unless
    /// the source is claimed and waits for its completion.
    pub open spec fn raised(self, irq: int) -> PlicView {
        if self.claimed[irq] {
            self
        } else {
            PlicView { pending: self.pending.update(irq, true), ..self }
        }
    }

    /// The state after source `irq` was claimed: no longer pending, and
    /// held until it is completed.
    pub open spec fn claimed_by(self, irq: int) -> PlicView {
        PlicView {
            pending: self.pending.update(irq, false),
            claimed: self.claimed.update(irq, true),
            ..self
        }
    }

    /// The state after source `irq` was completed: free to be latched
    /// again.
    pub open spec fn completed(self, irq: int) -> PlicView {
        PlicView { claimed: self.claimed.update(irq, false), ..self }
    }
}

/// `word` with the bits of `mask` set.
pub open spec fn with_mask(word: u32, mask: u32) -> u32 {
    word | mask
}

/// `word` with the bits of `mask` cleared.
pub open spec fn without_mask(word: u32, mask: u32) -> u32 {
    word & !mask
}

/// Setting one bit of a word sets that bit and leaves the others.
proof fn lemma_set_bit(word: u32, bit: u32, other: u32)
    by (bit_vector)
    requires
        bit < 32,
        other < 32,
    ensures
        word_bit(word | (1u32 << bit), other) == (word_bit(word, other) || bit == other),
        word_bit(word & !(1u32 << bit), other) == (word_bit(word, other) && bit != other),
{
}

/// Platform-level interrupt controller with priorities of `B` bits.
///
/// The registers live in a block laid out as the hardware lays them out,
/// as far as the contexts that the controller was built with reach. What
/// the hardware keeps to itself, which sources are claimed, is kept beside
/// the block.
pub struct Plic<const B: usize> {
    contexts: usize,
    regs: RegisterBlock,
    claimed: Vec<bool>,
}

impl<const B: usize> View for Plic<B> {
    type V = PlicView;

    closed spec fn view(&self) -> PlicView {
        PlicView {
            contexts: self.contexts as nat,
            priority: Seq::new(SOURCES as nat, |s: int| self.regs@[s]),
            pending: Seq::new(
                SOURCES as nat,
                |s: int| word_bit(self.regs@[0x400 + s / 32], (s % 32) as u32),
            ),
            enabled: Seq::new(
                self.contexts as nat,
                |c: int|
                    Seq::new(
                        SOURCES as nat,
                        |s: int| word_bit(self.regs@[0x800 + 32 * c + s / 32], (s % 32) as u32),
                    ),
            ),
            threshold: Seq::new(self.contexts as nat, |c: int| self.regs@[0x8_0000 + 0x400 * c]),
            claimed: self.claimed@,
        }
    }
}

impl<const B: usize> Plic<B> {
    /// The controller is sound: its block has the size that its contexts
    /// need, and its state is well formed for priorities of `B` bits.
    pub closed spec fn wf(&self) -> bool {
        &&& self.contexts <= MAX_CONTEXTS
        &&& self.regs@.len() == 0x8_0000 + 0x400 * self.contexts
        &&& self.claimed@.len() == SOURCES
        &&& self@.wf(max_priority(B))
    }

    /// A sound controller has a well-formed state.
    pub proof fn lemma_wf_view(&self)
        requires
            self.wf(),
        ensures
            self@.wf(max_priority(B)),
    {
    }

    /// A controller for `contexts` contexts, every register zero and no
    /// source claimed; `OutOfRange` where the register block has no room
    /// for that many contexts.
    pub fn new(contexts: usize) -> (r: Result<Plic<B>, Error>)
        ensures
            contexts > MAX_CONTEXTS ==> r.is_err() && r.err() == Some(Error::OutOfRange),
            contexts <= MAX_CONTEXTS ==> r.is_ok() && r.unwrap().wf() && r.unwrap()@
                == (PlicView {
                contexts: contexts as nat,
                priority: Seq::new(SOURCES as nat, |s: int| 0u32),
                pending: Seq::new(SOURCES as nat, |s: int| false),
                enabled: Seq::new(
                    contexts as nat,
                    |c: int| Seq::new(SOURCES as nat, |s: int| false),
                ),
                threshold: Seq::new(contexts as nat, |c: int| 0u32),
                claimed: Seq::new(SOURCES as nat, |s: int| false),
            }),
    {
        if contexts > MAX_CONTEXTS {
            return Err(Error::OutOfRange);
        }
        let regs = RegisterBlock::new(CONTEXT_BASE + CONTEXT_STRIDE * contexts);
        let mut claimed: Vec<bool> = Vec::new();
        let mut i: usize = 0;
        while i < SOURCES
            invariant
                i <= SOURCES,
                claimed@.len() == i,
                forall|k: int| 0 <= k < i ==> !claimed@[k],
            decreases SOURCES - i,
        {
            claimed.push(false);
            i = i + 1;
        }
        let plic = Plic { contexts, regs, claimed };
        proof {
            assert(0u32 & (1u32 << 0u32) == 0) by (bit_vector);
            assert forall|b: u32| b < 32 implies !word_bit(0u32, b) by {
                assert(0u32 & (1u32 << b) == 0) by (bit_vector);
            }
            let v = PlicView {
                contexts: contexts as nat,
                priority: Seq::new(SOURCES as nat, |s: int| 0u32),
                pending: Seq::new(SOURCES as nat, |s: int| false),
                enabled: Seq::new(
                    contexts as nat,
                    |c: int| Seq::new(SOURCES as nat, |s: int| false),
                ),
                threshold: Seq::new(contexts as nat, |c: int| 0u32),
                claimed: Seq::new(SOURCES as nat, |s: int| false),
            };
            assert(plic@.priority =~= v.priority);
            assert(plic@.pending =~= v.pending);
            assert(plic@.enabled =~~= v.enabled);
            assert(plic@.threshold =~= v.threshold);
            assert(plic@.claimed =~= v.claimed);
        }
        Ok(plic)
    }

    /// Number of contexts that the controller was built with.
    pub fn contexts(&self) -> (r: usize)
        ensures
            r == self@.contexts,
    {
        self.contexts
    }

    /// Where the enabled flag of a source is kept in the register block.
    proof fn lemma_enabled_word(&self, c: int, s: int)
        requires
            0 <= c < self.contexts,
            0 <= s < SOURCES,
        ensures
            self@.enabled[c][s] == word_bit(
                self.regs@[0x800 + 32 * c + s / 32],
                (s % 32) as u32,
            ),
    {
    }

    /// Where the pending flag of a source is kept in the register block.
    proof fn lemma_pending_word(&self, s: int)
        requires
            0 <= s < SOURCES,
        ensures
            self@.pending[s] == word_bit(self.regs@[0x400 + s / 32], (s % 32) as u32),
    {
    }

    /// `context` is one of the controller's and `irq` names a source.
    pub open spec fn in_range(&self, context: usize, irq: usize) -> bool {
        context < self@.contexts && valid_source(irq)
    }

    /// Whether source `irq` is enabled for `context`: bit `irq % 32` of
    /// the enable word that holds it.
    #[inline(always)]
    pub fn is_enabled(&self, context: usize, irq: usize) -> (r: Result<bool, Error>)
        requires
            self.wf(),
        ensures
            self.in_range(context, irq) ==> r == Ok::<bool, Error>(
                self@.enabled[context as int][irq as int],
            ),
            !self.in_range(context, irq) ==> r == Err::<bool, Error>(Error::OutOfRange),
    {
        if context >= self.contexts {
            return Err(Error::OutOfRange);
        }
        match enable_offset(context, irq) {
            Err(e) => Err(e),
            Ok(offset) => {
                assert(offset as int / 4 == 0x800 + 32 * context + irq / 32);
                let word = self.regs.read32(offset);
                proof {
                    self.lemma_enabled_word(context as int, irq as int);
                }
                Ok(source_bit(word, irq))
            },
        }
    }

    /// Enables source `irq` for `context`.
    ///
    /// On hardware this can deliver a pending interrupt at once: a caller
    /// that relies on the source staying masked must not run beside it.
    #[inline(always)]
    pub fn unmask(&mut self, context: usize, irq: usize) -> (r: Result<(), Error>)
        requires
            old(self).wf(),
        ensures
            final(self).wf(),
            old(self).in_range(context, irq) ==> r == Ok::<(), Error>(()) && final(self)@
                == old(self)@.with_enabled(context as int, irq as int, true),
            !old(self).in_range(context, irq) ==> r == Err::<(), Error>(Error::OutOfRange)
                && final(self)@ == old(self)@,
    {
        self.set_enabled(context, irq, true)
    }

    /// Disables source `irq` for `context`. A pending source stays
    /// pending; it is only kept from the context.
    #[inline(always)]
    pub fn mask(&mut self, context: usize, irq: usize) -> (r: Result<(), Error>)
        requires
            old(self).wf(),
        ensures
            final(self).wf(),
            old(self).in_range(context, irq) ==> r == Ok::<(), Error>(()) && final(self)@
                == old(self)@.with_enabled(context as int, irq as int, false),
            !old(self).in_range(context, irq) ==> r == Err::<(), Error>(Error::OutOfRange)
                && final(self)@ == old(self)@,
    {
        self.set_enabled(context, irq, false)
    }

    /// Sets or clears the enable bit of source `irq` for `context` in one
    /// read-modify-write of its word.
    fn set_enabled(&mut self, context: usize, irq: usize, on: bool) -> (r: Result<(), Error>)
        requires
            old(self).wf(),
        ensures
            final(self).wf(),
            old(self).in_range(context, irq) ==> r == Ok::<(), Error>(()) && final(self)@
                == old(self)@.with_enabled(context as int, irq as int, on),
            !old(self).in_range(context, irq) ==> r == Err::<(), Error>(Error::OutOfRange)
                && final(self)@ == old(self)@,
    {
        if context >= self.contexts {
            return Err(Error::OutOfRange);
        }
        match enable_offset(context, irq) {
            Err(e) => Err(e),
            Ok(offset) => {
                let mask = source_mask(irq);
                if on {
                    let set = |v: u32| -> (w: u32)
                        ensures
                            w == with_mask(v, mask),
                        { v | mask };
                    self.regs.modify32(offset, set);
                } else {
                    let clear = |v: u32| -> (w: u32)
                        ensures
                            w == without_mask(v, mask),
                        { v & !mask };
                    self.regs.modify32(offset, clear);
                }
                proof {
                    let before = old(self).regs@[0x800 + 32 * context + irq / 32];
                    let want = old(self)@.with_enabled(context as int, irq as int, on);
                    assert(self@.priority =~= want.priority);
                    assert(self@.pending =~= want.pending);
                    assert(self@.threshold =~= want.threshold);
                    assert forall|c: int| 0 <= c < self.contexts implies #[trigger] self@.enabled[c]
                        =~= want.enabled[c] by {
                        assert forall|s: int| 0 <= s < SOURCES implies self@.enabled[c][s]
                            == want.enabled[c][s] by {
                            if c == context && s / 32 == irq / 32 {
                                lemma_set_bit(before, (irq % 32) as u32, (s % 32) as u32);
                            } else {
                                assert(0x800 + 32 * c + s / 32 != 0x800 + 32 * context + irq / 32);
                            }
                        }
                    }
                    assert(self@.enabled =~= want.enabled);
                    assert(self@ == want);
                }
                Ok(())
            },
        }
    }

    /// The priority of source `irq`.
    #[inline(always)]
    pub fn get_priority(&self, irq: usize) -> (r: Result<Priority<B>, Error>)
        requires
            self.wf(),
        ensures
            valid_source(irq) ==> r.is_ok() && r.unwrap().bits() == self@.priority[irq as int]
                && r.unwrap().wf(),
            !valid_source(irq) ==> r == Err::<Priority<B>, Error>(Error::OutOfRange),
    {
        match priority_offset(irq) {
            Err(e) => Err(e),
            Ok(offset) => {
                assert(offset as int / 4 == irq);
                let bits = self.regs.read32(offset);
                assert(bits == self@.priority[irq as int]);
                Priority::from_bits(bits)
            },
        }
    }

    /// Sets the priority of source `irq`; `OutOfRange` where `irq` names
    /// no source or `prio` does not fit `B` bits.
    #[inline(always)]
    pub fn set_priority(&mut self, irq: usize, prio: Priority<B>) -> (r: Result<(), Error>)
        requires
            old(self).wf(),
        ensures
            final(self).wf(),
            valid_source(irq) && prio.wf() ==> r == Ok::<(), Error>(()) && final(self)@
                == old(self)@.with_priority(irq as int, prio.bits()),
            !(valid_source(irq) && prio.wf()) ==> r == Err::<(), Error>(Error::OutOfRange)
                && final(self)@ == old(self)@,
    {
        let bits = prio.into_bits();
        if Priority::<B>::from_bits(bits).is_err() {
            return Err(Error::OutOfRange);
        }
        match priority_offset(irq) {
            Err(e) => Err(e),
            Ok(offset) => {
                assert(offset as int / 4 == irq);
                self.regs.write32(offset, bits);
                proof {
                    let want = old(self)@.with_priority(irq as int, bits);
                    assert(self@.priority =~= want.priority);
                    assert(self@.pending =~= want.pending);
                    assert(self@.threshold =~= want.threshold);
                    assert(self@.enabled =~~= want.enabled);
                    assert(self@ == want);
                }
                Ok(())
            },
        }
    }

    /// The priority threshold of `context`.
    #[inline(always)]
    pub fn get_threshold(&self, context: usize) -> (r: Result<Priority<B>, Error>)
        requires
            self.wf(),
        ensures
            context < self@.contexts ==> r.is_ok() && r.unwrap().bits()
                == self@.threshold[context as int] && r.unwrap().wf(),
            context >= self@.contexts ==> r == Err::<Priority<B>, Error>(Error::OutOfRange),
    {
        if context >= self.contexts {
            return Err(Error::OutOfRange);
        }
        match threshold_offset(context) {
            Err(e) => Err(e),
            Ok(offset) => {
                assert(offset as int / 4 == 0x8_0000 + 0x400 * context);
                let bits = self.regs.read32(offset);
                assert(bits == self@.threshold[context as int]);
                Priority::from_bits(bits)
            },
        }
    }

    /// Sets the priority threshold of `context`; `OutOfRange` where the
    /// controller has no such context or `threshold` does not fit `B` bits.
    ///
    /// Lowering the threshold can make a pending source claimable at once.
    #[inline(always)]
    pub fn set_threshold(&mut self, context: usize, threshold: Priority<B>) -> (r: Result<
        (),
        Error,
    >)
        requires
            old(self).wf(),
        ensures
            final(self).wf(),
            context < old(self)@.contexts && threshold.wf() ==> r == Ok::<(), Error>(())
                && final(self)@ == old(self)@.with_threshold(context as int, threshold.bits()),
            !(context < old(self)@.contexts && threshold.wf()) ==> r == Err::<(), Error>(
                Error::OutOfRange,
            ) && final(self)@ == old(self)@,
    {
        let bits = threshold.into_bits();
        if context >= self.contexts || Priority::<B>::from_bits(bits).is_err() {
            return Err(Error::OutOfRange);
        }
        match threshold_offset(context) {
            Err(e) => Err(e),
            Ok(offset) => {
                assert(offset as int / 4 == 0x8_0000 + 0x400 * context);
                self.regs.write32(offset, bits);
                proof {
                    let want = old(self)@.with_threshold(context as int, bits);
                    assert(self@.priority =~= want.priority);
                    assert(self@.pending =~= want.pending);
                    assert(self@.threshold =~= want.threshold);
                    assert(self@.enabled =~~= want.enabled);
                    assert(self@ == want);
                }
                Ok(())
            },
        }
    }

    /// Whether source `irq` is latched pending.
    #[inline(always)]
    pub fn is_pending(&self, irq: usize) -> (r: Result<bool, Error>)
        requires
            self.wf(),
        ensures
            valid_source(irq) ==> r == Ok::<bool, Error>(self@.pending[irq as int]),
            !valid_source(irq) ==> r == Err::<bool, Error>(Error::OutOfRange),
    {
        match pending_offset(irq) {
            Err(e) => Err(e),
            Ok(offset) => {
                assert(offset as int / 4 == 0x400 + irq / 32);
                let word = self.regs.read32(offset);
                proof {
                    self.lemma_pending_word(irq as int);
                }
                Ok(source_bit(word, irq))
            },
        }
    }

    /// Sets or clears the pending bit of source `irq`, and records whether
    /// the source is claimed.
    fn set_pending(&mut self, irq: usize, on: bool, held: bool)
        requires
            old(self).wf(),
            valid_source(irq),
            held ==> !on,
        ensures
            final(self).wf(),
            final(self)@ == (PlicView {
                pending: old(self)@.pending.update(irq as int, on),
                claimed: old(self)@.claimed.update(irq as int, held),
                ..old(self)@
            }),
    {
        let offset = PENDING_BASE + 4 * (irq / 32);
        assert(offset as int / 4 == 0x400 + irq / 32);
        let mask = source_mask(irq);
        let ghost word = self.regs@[0x400 + irq / 32];
        if on {
            let set = |v: u32| -> (w: u32)
                ensures
                    w == with_mask(v, mask),
                { v | mask };
            self.regs.modify32(offset, set);
        } else {
            let clear = |v: u32| -> (w: u32)
                ensures
                    w == without_mask(v, mask),
                { v & !mask };
            self.regs.modify32(offset, clear);
        }
        self.claimed.set(irq, held);
        proof {
            let want = PlicView {
                pending: old(self)@.pending.update(irq as int, on),
                claimed: old(self)@.claimed.update(irq as int, held),
                ..old(self)@
            };
            assert(self@.priority =~= want.priority);
            assert(self@.threshold =~= want.threshold);
            assert(self@.enabled =~~= want.enabled);
            assert forall|s: int| 0 <= s < SOURCES implies self@.pending[s] == want.pending[s] by {
                if s / 32 == irq / 32 {
                    lemma_set_bit(word, (irq % 32) as u32, (s % 32) as u32);
                }
            }
            assert(self@.pending =~= want.pending);
            assert(self@.claimed =~= want.claimed);
            assert(self@ == want);
        }
    }

    /// Asserts source `irq`: the source is latched pending, unless it is
    /// claimed and not yet completed, in which case nothing changes.
    pub fn raise(&mut self, irq: usize) -> (r: Result<(), Error>)
        requires
            old(self).wf(),
        ensures
            final(self).wf(),
            valid_source(irq) ==> r == Ok::<(), Error>(()) && final(self)@ == old(self)@.raised(
                irq as int,
            ),
            !valid_source(irq) ==> r == Err::<(), Error>(Error::OutOfRange) && final(self)@
                == old(self)@,
    {
        if irq == 0 || irq >= SOURCES {
            return Err(Error::OutOfRange);
        }
        if !self.claimed[irq] {
            self.set_pending(irq, true, false);
            assert(old(self)@.claimed.update(irq as int, false) =~= old(self)@.claimed);
        }
        Ok(())
    }

    /// Completes source `irq` for `context`: the source is no longer held
    /// and can be latched again. Each claim is to be paired with one
    /// completion; a source that is never completed is never delivered
    /// again.
    #[inline(always)]
    pub fn complete(&mut self, context: usize, irq: usize) -> (r: Result<(), Error>)
        requires
            old(self).wf(),
        ensures
            final(self).wf(),
            old(self).in_range(context, irq) ==> r == Ok::<(), Error>(()) && final(self)@
                == old(self)@.completed(irq as int),
            !old(self).in_range(context, irq) ==> r == Err::<(), Error>(Error::OutOfRange)
                && final(self)@ == old(self)@,
    {
        if context >= self.contexts || irq == 0 || irq >= SOURCES {
            return Err(Error::OutOfRange);
        }
        self.claimed.set(irq, false);
        proof {
            let want = old(self)@.completed(irq as int);
            assert(self@.priority =~= want.priority);
            assert(self@.pending =~= want.pending);
            assert(self@.threshold =~= want.threshold);
            assert(self@.enabled =~~= want.enabled);
            assert(self@.claimed =~= want.claimed);
            assert(self@ == want);
        }
        Ok(())
    }

    /// Claims for `context` the source that wins arbitration: of the
    /// sources that are pending, enabled for the context, of a priority
    /// other than 0 and at or above the threshold of the context, the one
    /// of highest priority, and among equals the one of lowest id. The
    /// claimed source is no longer pending and is held until it is
    /// completed. `None` where no source qualifies; id 0 is never claimed.
    #[inline(always)]
    pub fn claim(&mut self, context: usize) -> (r: Result<Option<u16>, Error>)
        requires
            old(self).wf(),
        ensures
            final(self).wf(),
            context >= old(self)@.contexts ==> r == Err::<Option<u16>, Error>(Error::OutOfRange)
                && final(self)@ == old(self)@,
            context < old(self)@.contexts ==> match r {
                Ok(Some(id)) => id != 0 && old(self)@.wins(context as int, id as int)
                    && final(self)@ == old(self)@.claimed_by(id as int),
                Ok(None) => (forall|s: int| !old(self)@.claimable(context as int, s))
                    && final(self)@ == old(self)@,
                Err(_) => false,
            },
            context < old(self)@.contexts && (forall|s: int|
                !old(self)@.claimable(context as int, s)) ==> r == Ok::<Option<u16>, Error>(None),
    {
        if context >= self.contexts {
            return Err(Error::OutOfRange);
        }
        let ghost v = self@;
        let threshold = self.regs.read32(CONTEXT_BASE + CONTEXT_STRIDE * context);
        assert(threshold == v.threshold[context as int]);
        let mut best: usize = 0;
        let mut best_priority: u32 = 0;
        let mut s: usize = 1;
        while s < SOURCES
            invariant
                self.wf(),
                self@ == v,
                self == old(self),
                context < self.contexts,
                threshold == v.threshold[context as int],
                1 <= s <= SOURCES,
                best < s,
                best == 0 ==> forall|t: int| 0 < t < s ==> !v.claimable(context as int, t),
                best != 0 ==> v.claimable(context as int, best as int) && best_priority
                    == v.priority[best as int],
                best != 0 ==> forall|t: int|
                    0 < t < s && #[trigger] v.claimable(context as int, t) ==> v.priority[t]
                        < best_priority || (v.priority[t] == best_priority && best <= t),
            decreases SOURCES - s,
        {
            let priority = self.regs.read32(PRIORITY_BASE + 4 * s);
            let pending = self.regs.read32(PENDING_BASE + 4 * (s / 32));
            let enables = self.regs.read32(ENABLE_BASE + ENABLE_STRIDE * context + 4 * (s / 32));
            proof {
                self.lemma_pending_word(s as int);
                self.lemma_enabled_word(context as int, s as int);
                assert(priority == v.priority[s as int]);
            }
            let claimable = source_bit(pending, s) && source_bit(enables, s) && priority != 0
                && priority >= threshold;
            assert(claimable == v.claimable(context as int, s as int));
            if claimable && (best == 0 || priority > best_priority) {
                best = s;
                best_priority = priority;
            }
            s = s + 1;
        }
        if best == 0 {
            assert forall|t: int| !v.claimable(context as int, t) by {
                if 0 < t < SOURCES {
                }
            }
            return Ok(None);
        }
        self.set_pending(best, false, true);
        Ok(Some(best as u16))
    }
}

/// At most one source wins the arbitration for a context: what `claim`
/// returns is decided by the state.
pub proof fn lemma_winner_is_unique(v: PlicView, context: int, s: int, t: int)
    requires
        v.wins(context, s),
        v.wins(context, t),
    ensures
        s == t,
{
}

/// A source that wins arbitration is never id 0, and where no source can be
/// claimed none wins.
pub proof fn lemma_winner_is_claimable(v: PlicView, context: int, s: int)
    requires
        v.wins(context, s),
    ensures
        s != 0,
        v.pending[s] && v.enabled[context][s] && v.priority[s] >= v.threshold[context],
{
}

/// Enabling a source for a context and then disabling it again restores
/// the state, and with it the enabled flag of the source, where the source
/// was disabled before.
pub proof fn lemma_unmask_then_mask_restores(v: PlicView, max: u32, context: int, irq: int)
    requires
        v.wf(max),
        0 <= context < v.contexts,
        0 < irq < SOURCES,
        !v.enabled[context][irq],
    ensures
        v.with_enabled(context, irq, true).with_enabled(context, irq, false).enabled[context][irq]
            == v.enabled[context][irq],
        v.with_enabled(context, irq, true).with_enabled(context, irq, false) == v,
{
    let w = v.with_enabled(context, irq, true).with_enabled(context, irq, false);
    assert(w.enabled[context] =~= v.enabled[context]);
    assert(w.enabled =~= v.enabled);
}

/// Enabling a source for a context and then disabling it again leaves the
/// source disabled for that context, whatever it was before, and every
/// other flag as it was.
pub proof fn lemma_unmask_then_mask_disables(v: PlicView, max: u32, context: int, irq: int)
    requires
        v.wf(max),
        0 <= context < v.contexts,
        0 < irq < SOURCES,
    ensures
        !v.with_enabled(context, irq, true).with_enabled(context, irq, false).enabled[context][irq],
        forall|c: int, s: int|
            0 <= c < v.contexts && 0 <= s < SOURCES && !(c == context && s == irq)
                ==> v.with_enabled(context, irq, true).with_enabled(
                context,
                irq,
                false,
            ).enabled[c][s] == v.enabled[c][s],
{
}

/// A raw value that fits `W` bits makes a priority that gives the same raw
/// value back, and below 32 bits a raw value of `2^W` or more makes none.
pub proof fn lemma_priority_round_trip<const W: usize>(v: u32)
    ensures
        v < pow2(W as nat) ==> Priority::<W>::spec_from_bits(v).is_some() && Priority::<
            W,
        >::spec_from_bits(v).unwrap().bits() == v,
        W < 32 && v >= pow2(W as nat) ==> Priority::<W>::spec_from_bits(v).is_none(),
{
    Priority::<W>::lemma_bits_with_bits(v);
    if W < 32 {
        lemma_one_shl(W);
    }
}

/// From two bits of width on, the priority that never interrupts is below
/// the lowest, and the lowest below the highest.
pub proof fn lemma_priority_order(width: usize)
    requires
        width >= 2,
    ensures
        0 < 1 < max_priority(width),
{
    if width < 32 {
        lemma_one_shl(width);
        vstd::arithmetic::power2::lemma2_to64();
        vstd::arithmetic::power2::lemma_pow2_strictly_increases(1, width as nat);
    }
}

/// With one bit of width the lowest priority is the highest.
pub proof fn lemma_priority_order_one_bit()
    ensures
        max_priority(1) == 1,
{
    lemma_one_shl(1);
    vstd::arithmetic::power2::lemma2_to64();
}

} // verus!

//! The register surface: a range of 32-bit words reached by byte offset.

use vstd::prelude::*;

verus! {

/// The index of the word at byte offset `offset`.
pub open spec fn word_of(offset: usize) -> int {
    offset as int / 4
}

/// A block of 32-bit registers, addressed by byte offset from its base.
pub struct RegisterBlock {
    words: Vec<u32>,
}

impl View for RegisterBlock {
    type V = Seq<u32>;

    /// The words of the block, word `i` at byte offset `4 * i`.
    closed spec fn view(&self) -> Seq<u32> {
        self.words@
    }
}

impl RegisterBlock {
    /// `offset` names a word of the block.
    pub open spec fn maps(&self, offset: usize) -> bool {
        offset % 4 == 0 && offset / 4 < self@.len()
    }

    /// A block of `size` bytes, every word zero.
    pub fn new(size: usize) -> (r: RegisterBlock)
        requires
            size % 4 == 0,
        ensures
            r@.len() == size / 4,
            forall|i: int| 0 <= i < r@.len() ==> r@[i] == 0,
    {
        let n: usize = size / 4;
        let mut words: Vec<u32> = Vec::new();
        let mut i: usize = 0;
        while i < n
            invariant
                i <= n,
                words@.len() == i,
                forall|k: int| 0 <= k < i ==> words@[k] == 0,
            decreases n - i,
        {
            words.push(0);
            i = i + 1;
        }
        RegisterBlock { words }
    }

    /// The size of the block in bytes.
    pub fn size(&self) -> (r: usize)
        requires
            self@.len() * 4 <= usize::MAX,
        ensures
            r == self@.len() * 4,
    {
        self.words.len() * 4
    }

    /// Reads the word at `offset`.
    pub fn read32(&self, offset: usize) -> (r: u32)
        requires
            self.maps(offset),
        ensures
            r == self@[word_of(offset)],
    {
        self.words[offset / 4]
    }

    /// Writes `value` to the word at `offset`; no other word changes.
    pub fn write32(&mut self, offset: usize, value: u32)
        requires
            old(self).maps(offset),
        ensures
            final(self)@ == old(self)@.update(word_of(offset), value),
    {
        self.words.set(offset / 4, value);
    }

    /// Replaces the word at `offset` by what `f` makes of it; no other word
    /// changes.
    pub fn modify32<F: FnOnce(u32) -> u32>(&mut self, offset: usize, f: F)
        requires
            old(self).maps(offset),
            f.requires((old(self)@[word_of(offset)],)),
        ensures
            f.ensures((old(self)@[word_of(offset)],), final(self)@[word_of(offset)]),
            final(self)@ == old(self)@.update(word_of(offset), final(self)@[word_of(offset)]),
    {
        let word = self.words[offset / 4];
        self.words.set(offset / 4, f(word));
    }
}

} // verus!

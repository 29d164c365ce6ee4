use vstd::prelude::*;

use crate::supervising::Word;

verus! {

/// A run of bits of a word: `length` bits from bit `start` up.
#[derive(Debug, Clone, Copy, PartialEq, Eq, Structural)]
pub struct BitField {
    pub start: u8,
    pub length: u8,
}

impl BitField {
    /// Whether the field lies within a word and leaves a bit out: the
    /// fields that `get` can read.
    pub open spec fn wf(&self) -> bool {
        self.start < 64 && self.length < 64
    }

    /// The bits of the field in `word`, moved down to bit 0.
    pub open spec fn spec_get(&self, word: Word) -> Word {
        (word >> (self.start as u64)) & (((1u64 << (self.length as u64)) - 1) as u64)
    }

    pub fn new(start: u8, length: u8) -> (r: Self)
        ensures
            r.start == start,
            r.length == length,
    {
        BitField { start, length }
    }

    /// The field of the bits from `start` up to but without `end`.
    pub fn from_range(start: u8, end: u8) -> (r: Self)
        requires
            start <= end,
        ensures
            r.start == start,
            r.length == end - start,
    {
        BitField::new(start, end - start)
    }

    /// The field of the bits from `start` up to and with `end`.
    pub fn from_range_inclusive(start: u8, end: u8) -> (r: Self)
        requires
            start <= end,
            end < 255,
        ensures
            r.start == start,
            r.length == end - start + 1,
    {
        BitField::from_range(start, end + 1)
    }

    /// The field of the one bit `ix`.
    pub fn bit(ix: u8) -> (r: Self)
        ensures
            r.start == ix,
            r.length == 1,
    {
        BitField::new(ix, 1)
    }

    pub fn get(&self, word: Word) -> (r: Word)
        requires
            self.wf(),
        ensures
            r == self.spec_get(word),
    {
        let start = self.start as u64;
        let length = self.length as u64;
        assert((1u64 << length) >= 1) by (bit_vector)
            requires
                length < 64,
        ;
        (word >> start) & ((1u64 << length) - 1)
    }
}

} // verus!

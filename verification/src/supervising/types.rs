use vstd::prelude::*;

use crate::supervising::bytes::in_machine_order;
use crate::supervising::bytes::in_same_machine_order;
use crate::supervising::bytes::u16_as_bytes;
use crate::supervising::bytes::u16_as_bytes_mut;
use crate::supervising::bytes::u32_as_bytes;
use crate::supervising::bytes::u32_as_bytes_mut;
use crate::supervising::bytes::u64_as_bytes;
use crate::supervising::bytes::u64_as_bytes_mut;
use crate::supervising::bytes::u8_as_bytes;
use crate::supervising::bytes::u8_as_bytes_mut;
use crate::supervising::Word;

verus! {

/// The width of a memory access.
#[derive(Debug, Clone, Copy, PartialEq, Eq, PartialOrd, Ord, Structural)]
pub enum MemoryAccessWidth {
    U8,
    U16,
    U32,
    U64,
}

impl MemoryAccessWidth {
    /// The number of bits of the width.
    pub open spec fn bits(self) -> nat {
        match self {
            MemoryAccessWidth::U8 => 8,
            MemoryAccessWidth::U16 => 16,
            MemoryAccessWidth::U32 => 32,
            MemoryAccessWidth::U64 => 64,
        }
    }

    /// The number of values of the width: 2 to the number of its bits.
    pub open spec fn modulus(self) -> int {
        match self {
            MemoryAccessWidth::U8 => 0x100,
            MemoryAccessWidth::U16 => 0x1_0000,
            MemoryAccessWidth::U32 => 0x1_0000_0000,
            MemoryAccessWidth::U64 => 0x1_0000_0000_0000_0000,
        }
    }

    pub open spec fn spec_num_bytes(self) -> nat {
        match self {
            MemoryAccessWidth::U8 => 1,
            MemoryAccessWidth::U16 => 2,
            MemoryAccessWidth::U32 => 4,
            MemoryAccessWidth::U64 => 8,
        }
    }

    pub fn num_bytes(self) -> (r: usize)
        ensures
            r == self.spec_num_bytes(),
            r * 8 == self.bits(),
    {
        match self {
            MemoryAccessWidth::U8 => 1,
            MemoryAccessWidth::U16 => 2,
            MemoryAccessWidth::U32 => 4,
            MemoryAccessWidth::U64 => 8,
        }
    }

    /// The low bits of `val`, as many as the width has.
    pub fn truncate(self, val: Word) -> (r: MemoryAccessData)
        ensures
            r.spec_width() == self,
            r.spec_zero_extend() == (val as int) % self.modulus(),
    {
        match self {
            MemoryAccessWidth::U8 => {
                assert(val & 0xff == val % 0x100) by (bit_vector);
                assert((val & 0xff) < 0x100) by (bit_vector);
                MemoryAccessData::U8((val & 0xff) as u8)
            },
            MemoryAccessWidth::U16 => {
                assert(val & 0xffff == val % 0x1_0000) by (bit_vector);
                assert((val & 0xffff) < 0x1_0000) by (bit_vector);
                MemoryAccessData::U16((val & 0xffff) as u16)
            },
            MemoryAccessWidth::U32 => {
                assert(val & 0xffff_ffff == val % 0x1_0000_0000) by (bit_vector);
                assert((val & 0xffff_ffff) < 0x1_0000_0000) by (bit_vector);
                MemoryAccessData::U32((val & 0xffff_ffff) as u32)
            },
            MemoryAccessWidth::U64 => MemoryAccessData::U64(val),
        }
    }

    /// The word whose low bits, as many as the width has, are set and no
    /// others.
    pub fn mask(self) -> (r: Word)
        ensures
            r == self.modulus() - 1,
    {
        match self {
            MemoryAccessWidth::U8 => 0xff,
            MemoryAccessWidth::U16 => 0xffff,
            MemoryAccessWidth::U32 => 0xffff_ffff,
            MemoryAccessWidth::U64 => 0xffff_ffff_ffff_ffff,
        }
    }
}

/// A value of a memory access, of one of the four widths.
#[derive(Debug, Clone, Copy, PartialEq, Eq, Structural)]
pub enum MemoryAccessData {
    U8(u8),
    U16(u16),
    U32(u32),
    U64(u64),
}

impl MemoryAccessData {
    pub open spec fn spec_width(&self) -> MemoryAccessWidth {
        match self {
            MemoryAccessData::U8(_) => MemoryAccessWidth::U8,
            MemoryAccessData::U16(_) => MemoryAccessWidth::U16,
            MemoryAccessData::U32(_) => MemoryAccessWidth::U32,
            MemoryAccessData::U64(_) => MemoryAccessWidth::U64,
        }
    }

    pub open spec fn spec_zero_extend(&self) -> int {
        match self {
            MemoryAccessData::U8(raw) => *raw as int,
            MemoryAccessData::U16(raw) => *raw as int,
            MemoryAccessData::U32(raw) => *raw as int,
            MemoryAccessData::U64(raw) => *raw as int,
        }
    }

    pub fn width(&self) -> (r: MemoryAccessWidth)
        ensures
            r == self.spec_width(),
    {
        match self {
            MemoryAccessData::U8(_) => MemoryAccessWidth::U8,
            MemoryAccessData::U16(_) => MemoryAccessWidth::U16,
            MemoryAccessData::U32(_) => MemoryAccessWidth::U32,
            MemoryAccessData::U64(_) => MemoryAccessWidth::U64,
        }
    }

    /// The value as a word: the same number, with zeros above its width.
    pub fn zero_extend(&self) -> (r: Word)
        ensures
            r == self.spec_zero_extend(),
            r < self.spec_width().modulus(),
    {
        match self {
            MemoryAccessData::U8(raw) => *raw as Word,
            MemoryAccessData::U16(raw) => *raw as Word,
            MemoryAccessData::U32(raw) => *raw as Word,
            MemoryAccessData::U64(raw) => *raw,
        }
    }

    /// The bytes of the value, least significant first.
    pub open spec fn le_bytes(&self) -> Seq<u8> {
        match self {
            MemoryAccessData::U8(raw) => seq![*raw],
            MemoryAccessData::U16(raw) => vstd::bytes::spec_u16_to_le_bytes(*raw),
            MemoryAccessData::U32(raw) => vstd::bytes::spec_u32_to_le_bytes(*raw),
            MemoryAccessData::U64(raw) => vstd::bytes::spec_u64_to_le_bytes(*raw),
        }
    }

    /// The bytes of the value as the machine holds them: as many as the
    /// width has, least significant first or last.
    pub fn bytes(&self) -> (r: &[u8])
        ensures
            r@.len() == self.spec_width().spec_num_bytes(),
            in_machine_order(r@, self.le_bytes()),
    {
        match self {
            MemoryAccessData::U8(raw) => u8_as_bytes(raw),
            MemoryAccessData::U16(raw) => u16_as_bytes(raw),
            MemoryAccessData::U32(raw) => u32_as_bytes(raw),
            MemoryAccessData::U64(raw) => u64_as_bytes(raw),
        }
    }

    /// The bytes of the value, to write through. The value keeps its width
    /// and ends as the one whose bytes, in the same order, are the bytes
    /// written.
    pub fn bytes_mut(&mut self) -> (r: &mut [u8])
        ensures
            r@.len() == old(self).spec_width().spec_num_bytes(),
            final(r)@.len() == r@.len(),
            final(self).spec_width() == old(self).spec_width(),
            in_same_machine_order(r@, old(self).le_bytes(), final(r)@, final(self).le_bytes()),
    {
        match self {
            MemoryAccessData::U8(raw) => {
                let r = u8_as_bytes_mut(raw);
                proof {
                    assert(final(r)@ =~= seq![final(r)@[0]]);
                }
                r
            },
            MemoryAccessData::U16(raw) => u16_as_bytes_mut(raw),
            MemoryAccessData::U32(raw) => u32_as_bytes_mut(raw),
            MemoryAccessData::U64(raw) => u64_as_bytes_mut(raw),
        }
    }

    /// `old_val` with its low bits, as many as the width has, replaced by
    /// the value. The bits above stay.
    pub fn set(&self, old_val: Word) -> (r: Word)
        ensures
            r == old_val - (old_val as int) % self.spec_width().modulus() + self.spec_zero_extend(),
            (r as int) % self.spec_width().modulus() == self.spec_zero_extend(),
            (r as int) / self.spec_width().modulus() == (old_val as int) / self.spec_width().modulus(),
    {
        let mask = self.width().mask();
        let low = self.zero_extend();
        let r = (old_val & !mask) | low;
        proof {
            match self {
                MemoryAccessData::U8(_) => {
                    assert(low < 0x100 ==> ((old_val & !0xffu64) | low) == old_val - old_val
                        % 0x100 + low && ((old_val & !0xffu64) | low) % 0x100 == low && ((old_val
                        & !0xffu64) | low) / 0x100 == old_val / 0x100) by (bit_vector);
                },
                MemoryAccessData::U16(_) => {
                    assert(low < 0x1_0000 ==> ((old_val & !0xffffu64) | low) == old_val - old_val
                        % 0x1_0000 + low && ((old_val & !0xffffu64) | low) % 0x1_0000 == low && ((
                    old_val & !0xffffu64) | low) / 0x1_0000 == old_val / 0x1_0000)
                        by (bit_vector);
                },
                MemoryAccessData::U32(_) => {
                    assert(low < 0x1_0000_0000 ==> ((old_val & !0xffff_ffffu64) | low) == old_val
                        - old_val % 0x1_0000_0000 + low && ((old_val & !0xffff_ffffu64) | low)
                        % 0x1_0000_0000 == low && ((old_val & !0xffff_ffffu64) | low)
                        / 0x1_0000_0000 == old_val / 0x1_0000_0000) by (bit_vector);
                },
                MemoryAccessData::U64(_) => {
                    assert(((old_val & !0xffff_ffff_ffff_ffffu64) | low) == low) by (bit_vector);
                },
            }
        }
        r
    }
}


} // verus!

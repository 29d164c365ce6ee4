use vstd::prelude::*;

use crate::supervising::types::MemoryAccessData;
use crate::supervising::Word;

verus! {

/// The hexadecimal digit for a number below 16, in lower case.
pub open spec fn hex_digit(n: nat) -> char {
    if n < 10 {
        ('0' as u8 + n) as char
    } else {
        ('a' as u8 + (n - 10)) as char
    }
}

/// The hexadecimal digits of `value`, most significant first, without
/// leading zeros; one digit for 0.
pub open spec fn hex_digits(value: nat) -> Seq<char>
    decreases value,
{
    if value < 16 {
        seq![hex_digit(value)]
    } else {
        hex_digits(value / 16).push(hex_digit(value % 16))
    }
}

/// `digits` with zeros in front, as many as it takes to reach `len`
/// characters.
pub open spec fn zero_padded(digits: Seq<char>, len: nat) -> Seq<char> {
    if digits.len() >= len {
        digits
    } else {
        Seq::new((len - digits.len()) as nat, |i: int| '0') + digits
    }
}

/// `value` in hexadecimal behind `0x`, with zeros behind the `0x` as far as
/// it takes to reach `width` characters in all.
pub open spec fn hex_formatted(value: Word, width: usize) -> Seq<char> {
    seq!['0', 'x'] + zero_padded(hex_digits(value as nat), (width - 2) as nat)
}

/// `format!` of std with `{:#0w$x}`: `value` in hexadecimal behind `0x`,
/// padded with zeros to at least `width` characters in all. The width
/// must be one that the callers here use: at most 18, which `0x` and the
/// sixteen digits of a word take.
#[verifier::external_body]
pub(crate) fn format_hex(value: Word, width: usize) -> (r: String)
    requires
        2 <= width <= 18,
    ensures
        r@ == hex_formatted(value, width),
{
    format!("{:#0width$x}", value, width = width)
}

impl MemoryAccessData {
    /// The number of characters that the value takes in hexadecimal: `0x`
    /// and two digits for each of its bytes.
    pub open spec fn hex_width(&self) -> nat {
        2 + 2 * self.spec_width().spec_num_bytes()
    }

    /// The value in hexadecimal behind `0x`, with all the digits of its
    /// width.
    pub fn to_hex(&self) -> (r: String)
        ensures
            r@ == hex_formatted(self.spec_zero_extend() as Word, self.hex_width() as usize),
    {
        match self {
            MemoryAccessData::U8(raw) => format_hex(*raw as Word, 4),
            MemoryAccessData::U16(raw) => format_hex(*raw as Word, 6),
            MemoryAccessData::U32(raw) => format_hex(*raw as Word, 10),
            MemoryAccessData::U64(raw) => format_hex(*raw, 18),
        }
    }
}

} // verus!

use core::ops::Range;
use vstd::prelude::*;

verus! {

/// An unsigned integer that stands in for a `usize` where one is stored.
pub trait CramUsize: Copy + Sized {
    /// The number that the value is.
    spec fn number(self) -> nat;

    /// The largest number that the type holds.
    spec fn largest() -> nat;

    /// The value as a `usize`. It must be one: a number too large for a
    /// `usize` has no place here.
    fn into_usize(self) -> (r: usize)
        requires
            self.number() <= usize::MAX,
        ensures
            r == self.number(),
    ;

    /// The value of this type that is `x`. There must be one: `x` is at
    /// most the largest number of the type.
    fn from_usize(x: usize) -> (r: Self)
        requires
            x <= Self::largest(),
        ensures
            r.number() == x,
    ;

    /// The range with both ends as `usize`.
    fn into_usize_range(range: &Range<Self>) -> (r: Range<usize>)
        requires
            range.start.number() <= usize::MAX,
            range.end.number() <= usize::MAX,
        ensures
            r.start == range.start.number(),
            r.end == range.end.number(),
    {
        Range { start: range.start.into_usize(), end: range.end.into_usize() }
    }

    /// The range with both ends as values of this type.
    fn from_usize_range(range: &Range<usize>) -> (r: Range<Self>)
        requires
            range.start <= Self::largest(),
            range.end <= Self::largest(),
        ensures
            r.start.number() == range.start,
            r.end.number() == range.end,
    {
        Range { start: Self::from_usize(range.start), end: Self::from_usize(range.end) }
    }
}

impl CramUsize for u8 {
    open spec fn number(self) -> nat {
        self as nat
    }

    open spec fn largest() -> nat {
        u8::MAX as nat
    }

    fn into_usize(self) -> (r: usize) {
        self as usize
    }

    fn from_usize(x: usize) -> (r: Self) {
        x as u8
    }
}

impl CramUsize for u16 {
    open spec fn number(self) -> nat {
        self as nat
    }

    open spec fn largest() -> nat {
        u16::MAX as nat
    }

    fn into_usize(self) -> (r: usize) {
        self as usize
    }

    fn from_usize(x: usize) -> (r: Self) {
        x as u16
    }
}

impl CramUsize for u32 {
    open spec fn number(self) -> nat {
        self as nat
    }

    open spec fn largest() -> nat {
        u32::MAX as nat
    }

    fn into_usize(self) -> (r: usize) {
        self as usize
    }

    fn from_usize(x: usize) -> (r: Self) {
        x as u32
    }
}

impl CramUsize for u64 {
    open spec fn number(self) -> nat {
        self as nat
    }

    open spec fn largest() -> nat {
        u64::MAX as nat
    }

    fn into_usize(self) -> (r: usize) {
        self as usize
    }

    fn from_usize(x: usize) -> (r: Self) {
        x as u64
    }
}

} // verus!

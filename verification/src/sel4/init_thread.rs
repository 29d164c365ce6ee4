use core::marker::PhantomData;
use core::ops::Range;
use vstd::prelude::*;

use crate::sel4::Word;

verus! {

/// The bits of a capability pointer.
pub type CPtrBits = Word;

/// A kind of capability.
pub trait CapType {

}

/// A capability pointer: the address of a slot in the capability space of
/// the thread.
#[derive(Debug, Clone, Copy, PartialEq, Eq, Structural)]
pub struct CPtr {
    bits: CPtrBits,
}

impl CPtr {
    pub closed spec fn spec_bits(&self) -> CPtrBits {
        self.bits
    }

    pub fn from_bits(bits: CPtrBits) -> (r: Self)
        ensures
            r.spec_bits() == bits,
    {
        CPtr { bits }
    }

    pub fn bits(&self) -> (r: CPtrBits)
        ensures
            r == self.spec_bits(),
    {
        self.bits
    }

    /// The pointer as one to a capability of the kind `T`.
    pub fn cast<T: CapType>(self) -> (r: LocalCPtr<T>)
        ensures
            r.spec_cptr() == self,
    {
        LocalCPtr { cptr: self, phantom: PhantomData }
    }
}

/// A capability pointer in the capability space of the current thread, to
/// a capability of the kind `T`.
pub struct LocalCPtr<T: CapType> {
    cptr: CPtr,
    phantom: PhantomData<T>,
}

impl<T: CapType> LocalCPtr<T> {
    pub closed spec fn spec_cptr(&self) -> CPtr {
        self.cptr
    }

    pub fn cptr(&self) -> (r: CPtr)
        ensures
            r == self.spec_cptr(),
    {
        self.cptr
    }

    pub fn bits(&self) -> (r: CPtrBits)
        ensures
            r == self.spec_cptr().spec_bits(),
    {
        self.cptr.bits()
    }
}

/// A slot of the capability space that the initial thread starts with.
pub struct Slot<T: CapType> {
    index: usize,
    phantom: PhantomData<T>,
}

impl<T: CapType> Slot<T> {
    pub closed spec fn spec_index(&self) -> usize {
        self.index
    }

    pub fn from_index(index: usize) -> (r: Self)
        ensures
            r.spec_index() == index,
    {
        Slot { index, phantom: PhantomData }
    }

    pub fn index(&self) -> (r: usize)
        ensures
            r == self.spec_index(),
    {
        self.index
    }

    pub fn cptr_bits(&self) -> (r: CPtrBits)
        ensures
            r == self.spec_index(),
    {
        self.index as CPtrBits
    }

    pub fn cptr(&self) -> (r: CPtr)
        ensures
            r.spec_bits() == self.spec_index(),
    {
        CPtr::from_bits(self.cptr_bits())
    }

    pub fn local_cptr(&self) -> (r: LocalCPtr<T>)
        ensures
            r.spec_cptr().spec_bits() == self.spec_index(),
    {
        self.cptr().cast()
    }
}

/// A run of slots of the capability space that the initial thread starts
/// with.
pub struct SlotRegion<T: CapType> {
    range: Range<usize>,
    phantom: PhantomData<T>,
}

impl<T: CapType> SlotRegion<T> {
    pub closed spec fn spec_range(&self) -> Range<usize> {
        self.range
    }

    /// The number of slots in the region: none if the range is backwards.
    pub open spec fn spec_len(&self) -> nat {
        if self.spec_range().start <= self.spec_range().end {
            (self.spec_range().end - self.spec_range().start) as nat
        } else {
            0
        }
    }

    pub fn from_range(range: Range<usize>) -> (r: Self)
        ensures
            r.spec_range() == range,
    {
        SlotRegion { range, phantom: PhantomData }
    }

    pub fn len(&self) -> (r: usize)
        ensures
            r == self.spec_len(),
    {
        if self.range.start <= self.range.end {
            self.range.end - self.range.start
        } else {
            0
        }
    }

    /// The slot at position `i` of the region.
    pub fn index(&self, i: usize) -> (r: Slot<T>)
        requires
            i < self.spec_len(),
        ensures
            r.spec_index() == self.spec_range().start + i,
    {
        Slot::from_index(self.range.start + i)
    }
}

} // verus!

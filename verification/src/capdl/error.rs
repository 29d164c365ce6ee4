use core::num::TryFromIntError;
use vstd::prelude::*;
use vstd::std_specs::convert::FromSpecImpl;

verus! {

/// An error of the kernel.
#[derive(Debug, Clone, Copy, PartialEq, Eq, Structural)]
pub enum KernelError {
    InvalidArgument,
    InvalidCapability,
    IllegalOperation,
    RangeError,
    AlignmentError,
    FailedLookup,
    TruncatedMessage,
    DeleteFirst,
    RevokeFirst,
    NotEnoughMemory,
}

/// The initializer ran out of capability slots.
#[derive(Debug, Clone, Copy, PartialEq, Eq, Structural)]
pub enum CSlotAllocatorError {
    OutOfSlots,
}

/// What can stop the initializer.
#[derive(Debug)]
pub enum CapDLInitializerError {
    CSlotAllocatorError(CSlotAllocatorError),
    SeL4Error(KernelError),
    TryFromIntError(TryFromIntError),
}

impl From<CSlotAllocatorError> for CapDLInitializerError {
    fn from(err: CSlotAllocatorError) -> (r: Self) {
        CapDLInitializerError::CSlotAllocatorError(err)
    }
}

impl FromSpecImpl<CSlotAllocatorError> for CapDLInitializerError {
    open spec fn obeys_from_spec() -> bool {
        true
    }

    open spec fn from_spec(err: CSlotAllocatorError) -> Self {
        CapDLInitializerError::CSlotAllocatorError(err)
    }
}

impl From<KernelError> for CapDLInitializerError {
    fn from(err: KernelError) -> (r: Self) {
        CapDLInitializerError::SeL4Error(err)
    }
}

impl FromSpecImpl<KernelError> for CapDLInitializerError {
    open spec fn obeys_from_spec() -> bool {
        true
    }

    open spec fn from_spec(err: KernelError) -> Self {
        CapDLInitializerError::SeL4Error(err)
    }
}

impl From<TryFromIntError> for CapDLInitializerError {
    fn from(err: TryFromIntError) -> (r: Self) {
        CapDLInitializerError::TryFromIntError(err)
    }
}

impl FromSpecImpl<TryFromIntError> for CapDLInitializerError {
    open spec fn obeys_from_spec() -> bool {
        true
    }

    open spec fn from_spec(err: TryFromIntError) -> Self {
        CapDLInitializerError::TryFromIntError(err)
    }
}

} // verus!

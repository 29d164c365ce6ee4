//! Adapters between block devices and a FAT file system.

use core::marker::PhantomData;
use vstd::prelude::*;

verus! {

/// Wraps a block device of blocks of `N` bytes, accessed as `A` allows.
pub struct BlockIOWrapper<T, A, const N: usize> {
    inner: T,
    phantom: PhantomData<A>,
}

impl<T, A, const N: usize> BlockIOWrapper<T, A, N> {
    pub closed spec fn spec_inner(&self) -> T {
        self.inner
    }

    pub fn new(inner: T) -> (r: Self)
        ensures
            r.spec_inner() == inner,
    {
        BlockIOWrapper { inner, phantom: PhantomData }
    }

    pub fn inner(&self) -> (r: &T)
        ensures
            *r == self.spec_inner(),
    {
        &self.inner
    }
}

/// Adapts a block device of blocks of `N` bytes, accessed as `A` allows, to
/// what a file system reads and writes.
pub struct BlockIOAdapter<T, A, const N: usize> {
    inner: T,
    phantom: PhantomData<A>,
}

impl<T, A, const N: usize> BlockIOAdapter<T, A, N> {
    pub closed spec fn spec_inner(&self) -> T {
        self.inner
    }

    pub fn new(inner: T) -> (r: Self)
        ensures
            r.spec_inner() == inner,
    {
        BlockIOAdapter { inner, phantom: PhantomData }
    }

    pub fn inner(&self) -> (r: &T)
        ensures
            *r == self.spec_inner(),
    {
        &self.inner
    }

    /// The index on the device of the block `i` of a run of blocks that
    /// starts at `block_address`, if the device can have such a block.
    pub fn block_index(block_address: u32, i: usize) -> (r: Option<u64>)
        ensures
            block_address + i <= u64::MAX ==> r == Some((block_address + i) as u64),
            block_address + i > u64::MAX ==> r.is_none(),
    {
        (block_address as u64).checked_add(i as u64)
    }
}

/// A time provider for a file system that keeps no times.
#[derive(Debug)]
pub struct DummyTimeProvider(());

impl DummyTimeProvider {
    pub fn new() -> (r: Self) {
        DummyTimeProvider(())
    }
}

impl Default for DummyTimeProvider {
    fn default() -> (r: Self) {
        DummyTimeProvider(())
    }
}

/// Swaps the four bytes of `u` end for end.
pub fn __bswapsi2(u: u32) -> (r: u32)
    ensures
        r == ((u & 0xff000000) >> 24) | ((u & 0x00ff0000) >> 8) | ((u & 0x0000ff00) << 8) | ((u
            & 0x000000ff) << 24),
        r & 0xff == u >> 24,
        (r >> 8) & 0xff == (u >> 16) & 0xff,
        (r >> 16) & 0xff == (u >> 8) & 0xff,
        r >> 24 == u & 0xff,
{
    let r = ((u & 0xff000000) >> 24) | ((u & 0x00ff0000) >> 8) | ((u & 0x0000ff00) << 8) | ((u
        & 0x000000ff) << 24);
    assert(r & 0xff == u >> 24 && (r >> 8) & 0xff == (u >> 16) & 0xff && (r >> 16) & 0xff == (u
        >> 8) & 0xff && r >> 24 == u & 0xff) by (bit_vector)
        requires
            r == ((u & 0xff000000) >> 24) | ((u & 0x00ff0000) >> 8) | ((u & 0x0000ff00) << 8) | ((u
                & 0x000000ff) << 24),
    ;
    r
}

/// Swapping the bytes twice gives the word back.
pub proof fn lemma_bswap_twice(u: u32)
    ensures
        ({
            let r = ((u & 0xff000000) >> 24) | ((u & 0x00ff0000) >> 8) | ((u & 0x0000ff00) << 8)
                | ((u & 0x000000ff) << 24);
            ((r & 0xff000000) >> 24) | ((r & 0x00ff0000) >> 8) | ((r & 0x0000ff00) << 8) | ((r
                & 0x000000ff) << 24)
        }) == u,
{
    assert(({
        let r = ((u & 0xff000000) >> 24) | ((u & 0x00ff0000) >> 8) | ((u & 0x0000ff00) << 8) | ((u
            & 0x000000ff) << 24);
        ((r & 0xff000000) >> 24) | ((r & 0x00ff0000) >> 8) | ((r & 0x0000ff00) << 8) | ((r
            & 0x000000ff) << 24)
    }) == u) by (bit_vector);
}

} // verus!

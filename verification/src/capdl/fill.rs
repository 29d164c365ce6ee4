use core::ops::Range;
use vstd::prelude::*;

use crate::capdl::deflate::compress_to_vec;
use crate::capdl::deflate::deflated;
use crate::capdl::deflate::inflated_raw;
use crate::capdl::frame_init::copy_out_deflated;
use crate::capdl::frame_init::inflate_status;
use crate::capdl::frame_init::CopyOutError;
use crate::capdl::frame_init::DEFLATE_LEVEL;

verus! {

/// Content that is read from a file, from `file_offset` on.
#[derive(Debug, Clone, PartialEq, Eq)]
pub struct FileContent {
    pub file: String,
    pub file_offset: usize,
}

/// Content that needs nothing but itself to be written out.
pub trait SelfContainedContent {
    /// What writing the content into a destination that holds `before`
    /// gives: the result, and what the destination holds afterwards.
    spec fn copied_out(&self, before: Seq<u8>) -> (Result<(), CopyOutError>, Seq<u8>);

    /// Writes the content into `dst`, all of which it must cover.
    fn self_contained_copy_out(&self, dst: &mut [u8]) -> (r: Result<(), CopyOutError>)
        ensures
            final(dst)@.len() == old(dst)@.len(),
            r == self.copied_out(old(dst)@).0,
            final(dst)@ == self.copied_out(old(dst)@).1,
    ;
}

/// Content that is held as it is, in bytes that live elsewhere.
#[derive(Clone, Copy, PartialEq, Eq)]
pub struct BytesContent<'a> {
    pub bytes: &'a [u8],
}

impl<'a> BytesContent<'a> {
    /// The bytes to hold for `raw_content`: the same bytes.
    pub fn pack(raw_content: &[u8]) -> (r: Vec<u8>)
        ensures
            r@ == raw_content@,
    {
        let mut bytes: Vec<u8> = Vec::new();
        bytes.extend_from_slice(raw_content);
        bytes
    }
}

impl<'a> SelfContainedContent for BytesContent<'a> {
    open spec fn copied_out(&self, before: Seq<u8>) -> (Result<(), CopyOutError>, Seq<u8>) {
        if before.len() == self.bytes@.len() {
            (Ok(()), self.bytes@)
        } else {
            (Err(CopyOutError::LengthMismatch), before)
        }
    }

    /// Copies the bytes into `dst`, which must have their length; a `dst`
    /// of another length is left alone.
    fn self_contained_copy_out(&self, dst: &mut [u8]) -> (r: Result<(), CopyOutError>)
        ensures
            old(dst)@.len() == self.bytes@.len() ==> r is Ok && final(dst)@ == self.bytes@,
            old(dst)@.len() != self.bytes@.len() ==> r == Err::<(), CopyOutError>(
                CopyOutError::LengthMismatch,
            ) && final(dst)@ == old(dst)@,
    {
        if dst.len() != self.bytes.len() {
            return Err(CopyOutError::LengthMismatch);
        }
        let n = dst.len();
        let mut i: usize = 0;
        while i < n
            invariant
                i <= n,
                n == dst@.len(),
                n == self.bytes@.len(),
                dst@.len() == old(dst)@.len(),
                forall|j: int| 0 <= j < i ==> dst@[j] == self.bytes@[j],
            decreases n - i,
        {
            dst[i] = self.bytes[i];
            i = i + 1;
        }
        assert(dst@ =~= self.bytes@);
        Ok(())
    }
}

/// Content that is held compressed, as a raw DEFLATE stream, in bytes that
/// live elsewhere.
#[derive(Clone, Copy, PartialEq, Eq)]
pub struct DeflatedBytesContent<'a> {
    pub deflated_bytes: &'a [u8],
}

impl<'a> DeflatedBytesContent<'a> {
    /// The bytes to hold for `raw_content`: its DEFLATE stream.
    pub fn pack(raw_content: &[u8]) -> (r: Vec<u8>)
        ensures
            r@ == deflated(raw_content@, DEFLATE_LEVEL),
    {
        compress_to_vec(raw_content, DEFLATE_LEVEL)
    }
}

impl<'a> SelfContainedContent for DeflatedBytesContent<'a> {
    open spec fn copied_out(&self, before: Seq<u8>) -> (Result<(), CopyOutError>, Seq<u8>) {
        (
            inflate_status(inflated_raw(self.deflated_bytes@, before).0, before.len()),
            inflated_raw(self.deflated_bytes@, before).1,
        )
    }

    /// Inflates the stream into `dst`, all of which the content must cover.
    fn self_contained_copy_out(&self, dst: &mut [u8]) -> (r: Result<(), CopyOutError>)
        ensures
            final(dst)@ == inflated_raw(self.deflated_bytes@, old(dst)@).1,
            r is Ok <==> (inflated_raw(self.deflated_bytes@, old(dst)@).0 matches Some(n) && n == old(
                dst,
            )@.len()),
    {
        copy_out_deflated(self.deflated_bytes, dst)
    }
}

/// Marks content as needing nothing but itself.
#[derive(Debug, Clone, Copy, PartialEq, Eq)]
pub struct SelfContained<T>(pub T);

impl<T> SelfContained<T> {
    pub fn new(inner: T) -> (r: Self)
        ensures
            r.0 == inner,
    {
        SelfContained(inner)
    }

    pub fn inner(&self) -> (r: &T)
        ensures
            *r == self.0,
    {
        &self.0
    }
}

/// Content that is written out with the help of a source.
pub trait Content {
    type Source: ?Sized;

    fn copy_out(&self, source: &Self::Source, dst: &mut [u8]) -> (r: Result<(), CopyOutError>)
        ensures
            final(dst)@.len() == old(dst)@.len(),
    ;
}

impl<T: SelfContainedContent> Content for SelfContained<T> {
    type Source = ();

    /// Writes the content out as the content itself does; the source is
    /// not looked at.
    fn copy_out(&self, source: &(), dst: &mut [u8]) -> (r: Result<(), CopyOutError>)
        ensures
            r == self.0.copied_out(old(dst)@).0,
            final(dst)@ == self.0.copied_out(old(dst)@).1,
    {
        self.inner().self_contained_copy_out(dst)
    }
}

/// Content that is a range of the bytes of a source.
#[derive(Debug, Clone, PartialEq, Eq)]
pub struct IndirectBytesContent {
    pub bytes_range: Range<usize>,
}

/// Why content could not be taken from a source.
pub open spec fn range_within(range: Range<usize>, len: nat) -> bool {
    range.start <= range.end && range.end <= len
}

impl Content for IndirectBytesContent {
    type Source = [u8];

    /// Copies the bytes of the range of `source` into `dst`, which must have
    /// their length. The range must lie within `source`.
    fn copy_out(&self, source: &[u8], dst: &mut [u8]) -> (r: Result<(), CopyOutError>)
        ensures
            !range_within(self.bytes_range, source@.len()) ==> r == Err::<(), CopyOutError>(
                CopyOutError::OutOfRange,
            ) && final(dst)@ == old(dst)@,
            range_within(self.bytes_range, source@.len()) && old(dst)@.len()
                == self.bytes_range.end - self.bytes_range.start ==> r is Ok && final(dst)@
                == source@.subrange(self.bytes_range.start as int, self.bytes_range.end as int),
            range_within(self.bytes_range, source@.len()) && old(dst)@.len()
                != self.bytes_range.end - self.bytes_range.start ==> r == Err::<(), CopyOutError>(
                CopyOutError::LengthMismatch,
            ) && final(dst)@ == old(dst)@,
    {
        if self.bytes_range.start > self.bytes_range.end || self.bytes_range.end > source.len() {
            return Err(CopyOutError::OutOfRange);
        }
        let bytes = vstd::slice::slice_subrange(
            source,
            self.bytes_range.start,
            self.bytes_range.end,
        );
        BytesContent { bytes }.self_contained_copy_out(dst)
    }
}

/// Content that is a range of the bytes of a source, compressed as a raw
/// DEFLATE stream.
#[derive(Debug, Clone, PartialEq, Eq)]
pub struct IndirectDeflatedBytesContent {
    pub deflated_bytes_range: Range<usize>,
}

impl Content for IndirectDeflatedBytesContent {
    type Source = [u8];

    fn copy_out(&self, source: &[u8], dst: &mut [u8]) -> (r: Result<(), CopyOutError>)
        ensures
            !range_within(self.deflated_bytes_range, source@.len()) ==> r == Err::<
                (),
                CopyOutError,
            >(CopyOutError::OutOfRange) && final(dst)@ == old(dst)@,
            range_within(self.deflated_bytes_range, source@.len()) ==> {
                let stream = source@.subrange(
                    self.deflated_bytes_range.start as int,
                    self.deflated_bytes_range.end as int,
                );
                &&& final(dst)@ == inflated_raw(stream, old(dst)@).1
                &&& r is Ok <==> (inflated_raw(stream, old(dst)@).0 matches Some(n) && n == old(
                    dst,
                )@.len())
            },
    {
        if self.deflated_bytes_range.start > self.deflated_bytes_range.end
            || self.deflated_bytes_range.end > source.len() {
            return Err(CopyOutError::OutOfRange);
        }
        let deflated_bytes = vstd::slice::slice_subrange(
            source,
            self.deflated_bytes_range.start,
            self.deflated_bytes_range.end,
        );
        DeflatedBytesContent { deflated_bytes }.self_contained_copy_out(dst)
    }
}

} // verus!

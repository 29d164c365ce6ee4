use core::ops::Range;
use vstd::prelude::*;

use crate::capdl::deflate::compress_to_vec;
use crate::capdl::deflate::decompress_to_slice;
use crate::capdl::deflate::deflated;
use crate::capdl::deflate::inflated_raw;
use crate::capdl::object;

verus! {

/// What a frame holds at first: content to fill in, or content that is
/// held apart and stood for by `M`.
#[derive(Debug, Clone, PartialEq, Eq)]
pub enum FrameInit<D, M> {
    Fill(Fill<D>),
    Embedded(M),
}

impl<D, M> FrameInit<D, M> {
    pub fn as_fill(&self) -> (r: Option<&Fill<D>>)
        ensures
            match self {
                FrameInit::Fill(fill) => r == Some(fill),
                FrameInit::Embedded(_) => r.is_none(),
            },
    {
        match self {
            FrameInit::Fill(fill) => Some(fill),
            _ => None,
        }
    }

    pub fn as_embedded(&self) -> (r: Option<&M>)
        ensures
            match self {
                FrameInit::Embedded(embedded) => r == Some(embedded),
                FrameInit::Fill(_) => r.is_none(),
            },
    {
        match self {
            FrameInit::Embedded(embedded) => Some(embedded),
            _ => None,
        }
    }

    pub fn is_fill(&self) -> (r: bool)
        ensures
            r == (self is Fill),
    {
        self.as_fill().is_some()
    }

    pub fn is_embedded(&self) -> (r: bool)
        ensures
            r == (self is Embedded),
    {
        self.as_embedded().is_some()
    }
}

/// The archived form of what a frame holds at first.
#[derive(Debug, Clone, PartialEq, Eq)]
pub enum ArchivedFrameInit<D, M> {
    Fill(ArchivedFill<D>),
    Embedded(M),
}

impl<D, M> ArchivedFrameInit<D, M> {
    pub fn as_fill(&self) -> (r: Option<&ArchivedFill<D>>)
        ensures
            match self {
                ArchivedFrameInit::Fill(fill) => r == Some(fill),
                ArchivedFrameInit::Embedded(_) => r.is_none(),
            },
    {
        match self {
            ArchivedFrameInit::Fill(fill) => Some(fill),
            _ => None,
        }
    }
}

/// The archived form of a fill.
#[derive(Debug, Clone, PartialEq, Eq)]
pub struct ArchivedFill<D> {
    pub entries: Vec<FillEntry<D>>,
}

/// Stands for embedded content where there can be none: no value of it can
/// be made.
#[derive(Debug)]
pub struct NeverEmbedded {
    never: core::convert::Infallible,
}

impl NeverEmbedded {
    #[verifier::type_invariant]
    spec fn uninhabited(self) -> bool {
        false
    }
}

impl Clone for NeverEmbedded {
    fn clone(&self) -> (r: Self) {
        proof {
            use_type_invariant(self);
        }
        vstd::pervasive::unreached()
    }
}

impl PartialEq for NeverEmbedded {
    fn eq(&self, other: &Self) -> (r: bool) {
        true
    }
}

impl vstd::std_specs::cmp::PartialEqSpecImpl for NeverEmbedded {
    open spec fn obeys_eq_spec() -> bool {
        true
    }

    open spec fn eq_spec(&self, other: &Self) -> bool {
        true
    }
}

impl Eq for NeverEmbedded {

}

impl<D> FrameInit<D, NeverEmbedded> {
    /// The fill of a frame that cannot be embedded.
    pub fn as_fill_infallible(&self) -> (r: &Fill<D>)
        ensures
            self matches FrameInit::Fill(fill) && r == fill,
    {
        match self {
            FrameInit::Fill(fill) => fill,
            FrameInit::Embedded(absurdity) => {
                proof {
                    use_type_invariant(absurdity);
                }
                vstd::pervasive::unreached()
            },
        }
    }
}

impl<D> object::Frame<D, NeverEmbedded> {
    /// Whether the frame's content may be held apart from the
    /// specification: only for a root object of granule size that is not
    /// bound to a physical address and whose fill is not empty and needs
    /// nothing from the boot information.
    pub open spec fn spec_can_embed(&self, granule_size_bits: u8, is_root: bool) -> bool {
        &&& is_root
        &&& self.paddr.is_none()
        &&& self.size_bits == granule_size_bits
        &&& self.init matches FrameInit::Fill(fill)
        &&& !fill.spec_is_empty()
        &&& !fill.spec_depends_on_bootinfo()
    }

    pub fn can_embed(&self, granule_size_bits: u8, is_root: bool) -> (r: bool)
        ensures
            r == self.spec_can_embed(granule_size_bits, is_root),
    {
        is_root && self.paddr.is_none() && self.size_bits == granule_size_bits
            && !self.init.as_fill_infallible().is_empty()
            && !self.init.as_fill_infallible().depends_on_bootinfo()
    }
}

/// Where the content of an embedded frame starts in the data that is held
/// apart.
#[derive(Debug, Clone, Copy, PartialEq, Eq, Structural)]
pub struct EmbeddedFrameOffset {
    offset: u64,
}

impl EmbeddedFrameOffset {
    pub closed spec fn spec_offset(&self) -> u64 {
        self.offset
    }

    pub fn new(offset: u64) -> (r: Self)
        ensures
            r.spec_offset() == offset,
    {
        EmbeddedFrameOffset { offset }
    }

    pub fn offset(&self) -> (r: u64)
        ensures
            r == self.spec_offset(),
    {
        self.offset
    }
}

pub trait GetEmbeddedFrameOffset {
    spec fn spec_embedded_frame(&self) -> EmbeddedFrameOffset;

    fn get_embedded_frame(&self) -> (r: EmbeddedFrameOffset)
        ensures
            r == self.spec_embedded_frame(),
    ;
}

impl GetEmbeddedFrameOffset for EmbeddedFrameOffset {
    open spec fn spec_embedded_frame(&self) -> EmbeddedFrameOffset {
        *self
    }

    fn get_embedded_frame(&self) -> (r: EmbeddedFrameOffset) {
        *self
    }
}

/// The content of a frame, given as the pieces to write into it.
#[derive(Debug, Clone, PartialEq, Eq)]
pub struct Fill<D> {
    pub entries: Vec<FillEntry<D>>,
}

impl<D> Fill<D> {
    /// Whether a piece of the fill comes from the boot information.
    pub open spec fn spec_depends_on_bootinfo(&self) -> bool {
        exists|i: int| 0 <= i < self.entries@.len() && (#[trigger] self.entries@[i]).content is BootInfo
    }

    pub open spec fn spec_is_empty(&self) -> bool {
        self.entries@.len() == 0
    }

    pub fn depends_on_bootinfo(&self) -> (r: bool)
        ensures
            r == self.spec_depends_on_bootinfo(),
    {
        let mut i: usize = 0;
        while i < self.entries.len()
            invariant
                i <= self.entries@.len(),
                forall|j: int| 0 <= j < i ==> !((#[trigger] self.entries@[j]).content is BootInfo),
            decreases self.entries@.len() - i,
        {
            if self.entries[i].content.is_bootinfo() {
                return true;
            }
            i = i + 1;
        }
        false
    }

    pub fn is_empty(&self) -> (r: bool)
        ensures
            r == self.spec_is_empty(),
    {
        self.entries.len() == 0
    }
}

/// One piece of a fill: the bytes of the frame that it covers, and where
/// their content comes from.
#[derive(Debug, Clone, PartialEq, Eq)]
pub struct FillEntry<D> {
    pub range: Range<u64>,
    pub content: FillEntryContent<D>,
}

#[derive(Debug, Clone, PartialEq, Eq)]
pub enum FillEntryContent<D> {
    Data(D),
    BootInfo(FillEntryContentBootInfo),
}

impl<D> FillEntryContent<D> {
    pub fn as_data(&self) -> (r: Option<&D>)
        ensures
            match self {
                FillEntryContent::Data(data) => r == Some(data),
                FillEntryContent::BootInfo(_) => r.is_none(),
            },
    {
        match self {
            FillEntryContent::Data(data) => Some(data),
            _ => None,
        }
    }

    pub fn as_bootinfo(&self) -> (r: Option<&FillEntryContentBootInfo>)
        ensures
            match self {
                FillEntryContent::BootInfo(info) => r == Some(info),
                FillEntryContent::Data(_) => r.is_none(),
            },
    {
        match self {
            FillEntryContent::BootInfo(info) => Some(info),
            _ => None,
        }
    }

    pub fn is_data(&self) -> (r: bool)
        ensures
            r == (self is Data),
    {
        self.as_data().is_some()
    }

    pub fn is_bootinfo(&self) -> (r: bool)
        ensures
            r == (self is BootInfo),
    {
        self.as_bootinfo().is_some()
    }
}

/// Content that is taken from the boot information at `offset`.
#[derive(Debug, Clone, Copy, PartialEq, Eq, Structural)]
pub struct FillEntryContentBootInfo {
    pub id: FillEntryContentBootInfoId,
    pub offset: u64,
}

#[derive(Debug, Clone, Copy, PartialEq, Eq, Structural)]
pub enum FillEntryContentBootInfoId {
    Fdt,
}

/// The archived form of the source of content from the boot information.
#[derive(Debug, Clone, Copy, PartialEq, Eq, Structural)]
pub enum ArchivedFillEntryContentBootInfoId {
    Fdt,
}

/// Content that is read from a file, from `file_offset` on.
#[derive(Debug, Clone, PartialEq, Eq, PartialOrd, Ord)]
pub struct FileContent {
    pub file: String,
    pub file_offset: u64,
}

/// Why content could not be copied out.
#[derive(Debug, Clone, Copy, PartialEq, Eq, Structural)]
pub enum CopyOutError {
    /// The destination does not have the length of the content.
    LengthMismatch,
    /// The compressed content is not a DEFLATE stream.
    Corrupt,
    /// The content lies outside the source that it is taken from.
    OutOfRange,
}

/// Content that can write itself into a destination of its own length.
pub trait Content {
    /// Writes the content into `dst`, all of which it must cover.
    fn copy_out(&self, dst: &mut [u8]) -> (r: Result<(), CopyOutError>)
        ensures
            final(dst)@.len() == old(dst)@.len(),
    ;
}

/// Content that is held as it is.
#[derive(Clone, PartialEq, Eq)]
pub struct BytesContent {
    pub bytes: Vec<u8>,
}

impl BytesContent {
    pub fn pack(raw_content: &[u8]) -> (r: Self)
        ensures
            r.bytes@ == raw_content@,
    {
        let mut bytes: Vec<u8> = Vec::new();
        bytes.extend_from_slice(raw_content);
        BytesContent { bytes }
    }
}

impl Content for BytesContent {
    /// Copies the bytes into `dst`, which must have their length; a `dst`
    /// of another length is left alone.
    fn copy_out(&self, dst: &mut [u8]) -> (r: Result<(), CopyOutError>)
        ensures
            old(dst)@.len() == self.bytes@.len() ==> r is Ok && final(dst)@ == self.bytes@,
            old(dst)@.len() != self.bytes@.len() ==> r == Err::<(), CopyOutError>(
                CopyOutError::LengthMismatch,
            ) && final(dst)@ == old(dst)@,
    {
        if dst.len() != self.bytes.len() {
            return Err(CopyOutError::LengthMismatch);
        }
        let n = dst.len();
        let mut i: usize = 0;
        while i < n
            invariant
                i <= n,
                n == dst@.len(),
                n == self.bytes@.len(),
                dst@.len() == old(dst)@.len(),
                forall|j: int| 0 <= j < i ==> dst@[j] == self.bytes@[j],
            decreases n - i,
        {
            dst[i] = self.bytes[i];
            i = i + 1;
        }
        assert(dst@ =~= self.bytes@);
        Ok(())
    }
}

/// Content that is held compressed, as a raw DEFLATE stream.
#[derive(Clone, PartialEq, Eq)]
pub struct DeflatedBytesContent {
    pub deflated_bytes: Vec<u8>,
}

/// The level at which content is compressed.
pub const DEFLATE_LEVEL: u8 = 10;

impl DeflatedBytesContent {
    pub fn pack(raw_content: &[u8]) -> (r: Self)
        ensures
            r.deflated_bytes@ == deflated(raw_content@, DEFLATE_LEVEL),
    {
        DeflatedBytesContent { deflated_bytes: compress_to_vec(raw_content, DEFLATE_LEVEL) }
    }
}

/// Whether inflating gave exactly `len` bytes, and if not, what went wrong.
pub open spec fn inflate_status(written: Option<usize>, len: nat) -> Result<(), CopyOutError> {
    match written {
        Some(n) => if n == len {
            Ok(())
        } else {
            Err(CopyOutError::LengthMismatch)
        },
        None => Err(CopyOutError::Corrupt),
    }
}

/// Whether inflating gave exactly `len` bytes.
pub fn inflated_whole(written: Option<usize>, len: usize) -> (r: Result<(), CopyOutError>)
    ensures
        r == inflate_status(written, len as nat),
{
    match written {
        Some(n) => if n == len {
            Ok(())
        } else {
            Err(CopyOutError::LengthMismatch)
        },
        None => Err(CopyOutError::Corrupt),
    }
}

/// Inflates `deflated_src` into `dst`, all of which the content must cover.
pub fn copy_out_deflated(deflated_src: &[u8], dst: &mut [u8]) -> (r: Result<(), CopyOutError>)
    ensures
        final(dst)@.len() == old(dst)@.len(),
        final(dst)@ == inflated_raw(deflated_src@, old(dst)@).1,
        r == inflate_status(inflated_raw(deflated_src@, old(dst)@).0, old(dst)@.len()),
{
    let len = dst.len();
    let written = decompress_to_slice(deflated_src, dst, false, true);
    inflated_whole(written, len)
}

impl Content for DeflatedBytesContent {
    fn copy_out(&self, dst: &mut [u8]) -> (r: Result<(), CopyOutError>)
        ensures
            final(dst)@ == inflated_raw(self.deflated_bytes@, old(dst)@).1,
            r is Ok <==> (inflated_raw(self.deflated_bytes@, old(dst)@).0 matches Some(n) && n == old(
                dst,
            )@.len()),
    {
        copy_out_deflated(self.deflated_bytes.as_slice(), dst)
    }
}

} // verus!

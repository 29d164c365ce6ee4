use core::ops::Range;
use vstd::prelude::*;

use crate::async_io::buffer::subslice_mut;
use crate::capdl::deflate::deflated;
use crate::capdl::frame_init::BytesContent;
use crate::capdl::frame_init::DeflatedBytesContent;
use crate::capdl::frame_init::Fill;
use crate::capdl::frame_init::FillEntry;
use crate::capdl::frame_init::FillEntryContent;
use crate::capdl::frame_init::FrameInit;
use crate::capdl::frame_init::NeverEmbedded;
use crate::capdl::frame_init::DEFLATE_LEVEL;
use crate::capdl::object;
use crate::capdl::spec::NamedObject;
use crate::capdl::spec::Object;
use crate::capdl::spec::Spec;
use crate::capdl::traverse::carry_over;
use crate::capdl::traverse::copy_covers;
use crate::capdl::traverse::copy_ids;
use crate::capdl::traverse::copy_irqs;
use crate::capdl::traverse::is_root_id;
use crate::capdl::traverse::object_carried;
use crate::capdl::traverse_data::piece_length;

verus! {

/// Which of the frames whose content is held apart a frame is.
#[derive(Debug, Clone, Copy, PartialEq, Eq, Structural)]
pub struct EmbeddedFrameIndex {
    pub index: u32,
}

/// The content of a piece of a frame as the initializer gets it: as it
/// is, or compressed.
#[derive(Clone, PartialEq, Eq)]
pub enum PackedContent {
    Bytes(BytesContent),
    DeflatedBytes(DeflatedBytesContent),
}

/// A run of `n` zero bytes.
pub open spec fn zeros(n: nat) -> Seq<u8> {
    Seq::new(n, |i: int| 0u8)
}

/// Whether every piece covers a range that does not run backwards and ends
/// within `limit`.
pub open spec fn ranges_within<D>(entries: Seq<FillEntry<D>>, limit: int) -> bool {
    forall|i: int|
        0 <= i < entries.len() ==> (#[trigger] entries[i]).range.start <= entries[i].range.end
            && entries[i].range.end <= limit
}

/// The number of frames among the first `upto` objects whose content is
/// held apart when frames of `2^granule_size_bits` bytes are embedded.
pub open spec fn embedded_before<N, D>(
    spec: &Spec<N, D, NeverEmbedded>,
    granule_size_bits: u8,
    upto: int,
) -> nat
    decreases upto,
{
    if upto <= 0 {
        0
    } else {
        embedded_before(spec, granule_size_bits, upto - 1) + if spec.objects@[upto
            - 1].object matches Object::Frame(frame) && frame.spec_can_embed(
            granule_size_bits,
            is_root_id(spec.root_objects, upto - 1),
        ) {
            1nat
        } else {
            0nat
        }
    }
}

/// Whether a frame gets its content held apart.
pub open spec fn embeds<D>(
    embed_frames: bool,
    granule_size_bits: u8,
    frame: object::Frame<D, NeverEmbedded>,
    is_root: bool,
) -> bool {
    embed_frames && frame.spec_can_embed(granule_size_bits, is_root)
}

/// Whether `f` can be given every frame of the specification: every range
/// runs forwards and has a length that a buffer can have, and the ranges
/// of a frame whose content is held apart lie within a granule.
pub open spec fn fillable<N, D>(
    spec: &Spec<N, D, NeverEmbedded>,
    embed_frames: bool,
    granule_size_bits: u8,
    granule_size: int,
) -> bool {
    forall|i: int|
        0 <= i < spec.objects@.len() ==> ((#[trigger] spec.objects@[i]).object matches Object::Frame(
            frame,
        ) ==> (frame.init matches FrameInit::Fill(fill) ==> if embeds(
            embed_frames,
            granule_size_bits,
            frame,
            is_root_id(spec.root_objects, i),
        ) {
            ranges_within(fill.entries@, granule_size)
        } else {
            ranges_within(fill.entries@, usize::MAX as int)
        }))
}

/// Whether none of the first `upto` pieces covers the position `p`.
pub open spec fn outside_all<D>(entries: Seq<FillEntry<D>>, upto: int, p: int) -> bool {
    forall|j: int|
        0 <= j < upto ==> !((#[trigger] entries[j]).range.start <= p && p < entries[j].range.end)
}

/// Whether `bytes` holds zero wherever none of the first `upto` pieces
/// covers.
pub open spec fn zero_outside<D>(entries: Seq<FillEntry<D>>, upto: int, bytes: Seq<u8>) -> bool {
    forall|p: int| 0 <= p < bytes.len() && outside_all(entries, upto, p) ==> #[trigger] bytes[p] == 0
}

/// `whole` with the bytes that the range of `entry` covers replaced by
/// `mid`.
pub open spec fn spliced<D>(whole: Seq<u8>, entry: FillEntry<D>, mid: Seq<u8>) -> Seq<u8> {
    whole.subrange(0, entry.range.start as int) + mid + whole.subrange(
        entry.range.end as int,
        whole.len() as int,
    )
}

/// The bytes of `whole` that the range of `entry` covers.
pub open spec fn covered<D>(whole: Seq<u8>, entry: FillEntry<D>) -> Seq<u8> {
    whole.subrange(entry.range.start as int, entry.range.end as int)
}

/// Whether `content` is `bytes` packed: compressed if `deflate` says so.
pub open spec fn packed_as(bytes: Seq<u8>, deflate: bool, content: PackedContent) -> bool {
    if deflate {
        content matches PackedContent::DeflatedBytes(c) && c.deflated_bytes@ == deflated(
            bytes,
            DEFLATE_LEVEL,
        )
    } else {
        content matches PackedContent::Bytes(c) && c.bytes@ == bytes
    }
}

/// Whether `states` has one state of a buffer of `size` bytes before each
/// of `n` writes and one after the last: the first holds zeros, the last
/// is `bytes`.
pub open spec fn runs_from_zeros(states: Seq<Seq<u8>>, n: nat, size: nat, bytes: Seq<u8>) -> bool {
    &&& starts_from_zeros(states, n as int, size)
    &&& states[n as int] == bytes
}

/// Whether `states` has one state of a buffer of `size` bytes before each
/// of `n` writes and one after the last, the first of zeros.
pub open spec fn starts_from_zeros(states: Seq<Seq<u8>>, n: int, size: nat) -> bool {
    &&& states.len() == n + 1
    &&& states[0] == zeros(size)
}

/// Packs the bytes of a piece: compressed if `deflate` says so.
pub fn pack(bytes: &[u8], deflate: bool) -> (r: PackedContent)
    ensures
        packed_as(bytes@, deflate, r),
{
    if deflate {
        PackedContent::DeflatedBytes(DeflatedBytesContent::pack(bytes))
    } else {
        PackedContent::Bytes(BytesContent::pack(bytes))
    }
}

/// A buffer of `n` zero bytes.
pub fn zeroed(n: usize) -> (r: Vec<u8>)
    ensures
        r@ == zeros(n as nat),
{
    let mut out: Vec<u8> = Vec::new();
    out.resize(n, 0u8);
    assert(out@ =~= zeros(n as nat));
    out
}

/// Something that writes the bytes of pieces of data.
pub trait PieceWriter<D, E> {
    /// Whether the writer can be given any piece and any buffer.
    spec fn ready(&self) -> bool;

    /// Whether the writer can answer `r` when it is given the piece `data`
    /// and the buffer `buf`.
    spec fn may_give(&self, data: D, buf: &mut [u8], r: Result<bool, E>) -> bool;

    /// Writes the bytes of the piece `data` into `buf`, which is as long as
    /// the piece, and says whether the bytes are to be compressed.
    fn write(&mut self, data: &D, buf: &mut [u8]) -> (r: Result<bool, E>)
        requires
            old(self).ready(),
        ensures
            final(self).ready(),
            exists|given: &mut [u8]|
                #[trigger] old(self).may_give(*data, given, r) && given@ == old(buf)@
                    && final(given)@ == final(buf)@,
            forall|d: D, b: &mut [u8], o: Result<bool, E>|
                final(self).may_give(d, b, o) == old(self).may_give(d, b, o),
    ;
}

/// Whether the writer cannot fail, whatever it is given.
pub open spec fn never_fails<D, E, W: PieceWriter<D, E>>(writer: &W) -> bool {
    forall|d: D, b: &mut [u8], o: Result<bool, E>| #[trigger] writer.may_give(d, b, o) ==> o is Ok
}

/// Writes pieces with a function that can fail.
pub struct FallibleWriter<F> {
    pub f: F,
}

impl<D, E, F: FnMut(&D, &mut [u8]) -> Result<bool, E>> PieceWriter<D, E> for FallibleWriter<F> {
    open spec fn ready(&self) -> bool {
        forall|d: &D, buf: &mut [u8]| self.f.requires((d, buf))
    }

    open spec fn may_give(&self, data: D, buf: &mut [u8], r: Result<bool, E>) -> bool {
        self.f.ensures((&data, buf), r)
    }

    /// Calls the function once with `data` and `buf` and returns what it
    /// returns; `buf` is left as the function leaves it.
    fn write(&mut self, data: &D, buf: &mut [u8]) -> (r: Result<bool, E>)
        ensures
            *final(self) == *old(self),
            exists|given: &mut [u8]|
                #[trigger] old(self).f.ensures((data, given), r) && given@ == old(buf)@
                    && final(given)@ == final(buf)@,
    {
        let r = (self.f)(data, buf);
        assert(exists|given: &mut [u8]|
            #[trigger] old(self).f.ensures((data, given), r) && given@ == old(buf)@
                && final(given)@ == buf@);
        proof {
            let given = choose|given: &mut [u8]|
                #[trigger] old(self).f.ensures((data, given), r) && given@ == old(buf)@
                    && final(given)@ == buf@;
            assert(old(self).may_give(*data, given, r));
        }
        r
    }
}

/// Writes pieces with a function that cannot fail.
pub struct TotalWriter<F> {
    pub f: F,
}

impl<D, F: FnMut(&D, &mut [u8]) -> bool> PieceWriter<D, ()> for TotalWriter<F> {
    open spec fn ready(&self) -> bool {
        forall|d: &D, buf: &mut [u8]| self.f.requires((d, buf))
    }

    open spec fn may_give(&self, data: D, buf: &mut [u8], r: Result<bool, ()>) -> bool {
        r matches Ok(deflate) && self.f.ensures((&data, buf), deflate)
    }

    /// Calls the function once with `data` and `buf` and returns `Ok` of
    /// what it returns; `buf` is left as the function leaves it.
    fn write(&mut self, data: &D, buf: &mut [u8]) -> (r: Result<bool, ()>)
        ensures
            *final(self) == *old(self),
            r is Ok,
            exists|given: &mut [u8]|
                #[trigger] old(self).f.ensures((data, given), r->Ok_0) && given@ == old(buf)@
                    && final(given)@ == final(buf)@,
    {
        let deflate = (self.f)(data, buf);
        let r: Result<bool, ()> = Ok(deflate);
        assert(exists|given: &mut [u8]|
            #[trigger] old(self).f.ensures((data, given), deflate) && given@ == old(buf)@
                && final(given)@ == buf@);
        assert(r->Ok_0 == deflate);
        assert(exists|given: &mut [u8]|
            #[trigger] old(self).f.ensures((data, given), r->Ok_0) && given@ == old(buf)@
                && final(given)@ == buf@);
        proof {
            let given = choose|given: &mut [u8]|
                #[trigger] old(self).f.ensures((data, given), r->Ok_0) && given@ == old(buf)@
                    && final(given)@ == buf@;
            assert(old(self).may_give(*data, given, r));
        }
        r
    }
}

/// Packs the pieces of a fill one by one: each piece of data is written
/// into a buffer of zeros as long as the piece, and packed as the writer
/// says. It stops at the first failure of the writer.
fn pack_pieces<D, E, W: PieceWriter<D, E>>(writer: &mut W, fill: &Fill<D>) -> (r: Result<
    Vec<FillEntry<PackedContent>>,
    E,
>)
    requires
        old(writer).ready(),
        ranges_within(fill.entries@, usize::MAX as int),
    ensures
        final(writer).ready(),
        forall|d: D, b: &mut [u8], o: Result<bool, E>|
            final(writer).may_give(d, b, o) == old(writer).may_give(d, b, o),
        r matches Ok(out) ==> out@.len() == fill.entries@.len() && forall|k: int|
            0 <= k < fill.entries@.len() ==> {
                &&& out@[k].range == (#[trigger] fill.entries@[k]).range
                &&& match fill.entries@[k].content {
                    FillEntryContent::BootInfo(info) => out@[k].content
                        == FillEntryContent::<PackedContent>::BootInfo(info),
                    FillEntryContent::Data(d) => out@[k].content matches FillEntryContent::Data(c)
                        && exists|b: &mut [u8], deflate: bool|
                        b@ == zeros(piece_length(fill.entries@[k]) as nat)
                            && #[trigger] old(writer).may_give(d, b, Ok::<bool, E>(deflate))
                            && packed_as(final(b)@, deflate, c),
                }
            },
        r is Err ==> exists|k: int|
            0 <= k < fill.entries@.len()
                && (#[trigger] fill.entries@[k]).content is Data
                && (exists|b: &mut [u8]|
                b@ == zeros(piece_length(fill.entries@[k]) as nat)
                    && #[trigger] old(writer).may_give(
                        fill.entries@[k].content->Data_0,
                        b,
                        Err::<bool, E>(r->Err_0),
                    ))
                && forall|j: int|
                    0 <= j < k ==> ((
                    #[trigger] fill.entries@[j]).content matches FillEntryContent::Data(d)
                        ==> exists|b: &mut [u8], deflate: bool|
                        b@ == zeros(piece_length(fill.entries@[j]) as nat)
                            && #[trigger] old(writer).may_give(d, b, Ok::<bool, E>(deflate))),
{
    let mut out: Vec<FillEntry<PackedContent>> = Vec::new();
    let mut j: usize = 0;
    while j < fill.entries.len()
        invariant
            j <= fill.entries@.len(),
            out@.len() == j,
            writer.ready(),
            forall|d: D, b: &mut [u8], o: Result<bool, E>|
                writer.may_give(d, b, o) == old(writer).may_give(d, b, o),
            ranges_within(fill.entries@, usize::MAX as int),
            forall|k: int|
                0 <= k < j ==> {
                    &&& out@[k].range == (#[trigger] fill.entries@[k]).range
                    &&& match fill.entries@[k].content {
                        FillEntryContent::BootInfo(info) => out@[k].content
                            == FillEntryContent::<PackedContent>::BootInfo(info),
                        FillEntryContent::Data(d) => out@[k].content matches FillEntryContent::Data(c)
                            && exists|b: &mut [u8], deflate: bool|
                            b@ == zeros(piece_length(fill.entries@[k]) as nat)
                                && #[trigger] old(writer).may_give(d, b, Ok::<bool, E>(deflate))
                                && packed_as(final(b)@, deflate, c),
                    }
                },
        decreases fill.entries@.len() - j,
    {
        let entry = &fill.entries[j];
        let content = match &entry.content {
            FillEntryContent::BootInfo(info) => FillEntryContent::BootInfo(*info),
            FillEntryContent::Data(data) => {
                let length = (entry.range.end - entry.range.start) as usize;
                let mut buf = zeroed(length);
                let answer = writer.write(data, buf.as_mut_slice());
                match answer {
                    Ok(deflate) => {
                        let packed = pack(buf.as_slice(), deflate);
                        proof {
                            assert(answer->Ok_0 == deflate);
                            assert(exists|b: &mut [u8], flag: bool|
                                b@ == zeros(piece_length(fill.entries@[j as int]) as nat)
                                    && #[trigger] old(writer).may_give(
                                    fill.entries@[j as int].content->Data_0,
                                    b,
                                    Ok::<bool, E>(flag),
                                ) && packed_as(final(b)@, flag, packed));
                        }
                        FillEntryContent::Data(packed)
                    },
                    Err(e) => {
                        let failed: Result<Vec<FillEntry<PackedContent>>, E> = Err(e);
                        proof {
                            assert(failed->Err_0 == answer->Err_0);
                            assert(answer == Err::<bool, E>(failed->Err_0));
                            assert(fill.entries@[j as int].content is Data);
                            assert(exists|b: &mut [u8]|
                                b@ == zeros(piece_length(fill.entries@[j as int]) as nat)
                                    && #[trigger] old(writer).may_give(
                                    fill.entries@[j as int].content->Data_0,
                                    b,
                                    Err::<bool, E>(failed->Err_0),
                                ));
                            assert(forall|j: int|
                                0 <= j < j ==> ((
                                #[trigger] fill.entries@[j]).content matches FillEntryContent::Data(d)
                                    ==> exists|b: &mut [u8], deflate: bool|
                                    b@ == zeros(piece_length(fill.entries@[j]) as nat)
                                        && #[trigger] old(writer).may_give(d, b, Ok::<bool, E>(deflate))));
                        }
                        return failed;
                    },
                }
            },
        };
        out.push(
            FillEntry { range: Range { start: entry.range.start, end: entry.range.end }, content },
        );
        j = j + 1;
    }
    Ok(out)
}

/// Writes the pieces of a fill, one after the other, into one buffer of
/// `granule_size` bytes that holds zeros at first, and gives the buffer
/// with its state before and after each write. It stops at the first
/// failure of the writer.
fn write_granule<D, E, W: PieceWriter<D, E>>(
    writer: &mut W,
    fill: &Fill<D>,
    granule_size: usize,
) -> (r: Result<(Vec<u8>, Ghost<Seq<Seq<u8>>>), E>)
    requires
        old(writer).ready(),
        ranges_within(fill.entries@, granule_size as int),
        !fill.spec_depends_on_bootinfo(),
    ensures
        final(writer).ready(),
        forall|d: D, b: &mut [u8], o: Result<bool, E>|
            final(writer).may_give(d, b, o) == old(writer).may_give(d, b, o),
        r matches Ok((bytes, states)) ==> {
            &&& bytes@.len() == granule_size
            &&& zero_outside(fill.entries@, fill.entries@.len() as int, bytes@)
            &&& runs_from_zeros(states@, fill.entries@.len(), granule_size as nat, bytes@)
            &&& forall|k: int|
                0 <= k < fill.entries@.len() ==> ((
                #[trigger] fill.entries@[k]).content matches FillEntryContent::Data(d)
                    && exists|b: &mut [u8], deflate: bool|
                        b@ == covered(states@[k], fill.entries@[k])
                            && #[trigger] old(writer).may_give(d, b, Ok::<bool, E>(deflate))
                            && states@[k + 1] == spliced(
                            states@[k],
                            fill.entries@[k],
                            final(b)@,
                        ))
        },
        r is Err ==> exists|states: Seq<Seq<u8>>, k: int|
            0 <= k < fill.entries@.len()
                && #[trigger] starts_from_zeros(states, k, granule_size as nat)
                && fill.entries@[k].content is Data
                && (exists|b: &mut [u8]|
                b@ == covered(states[k], fill.entries@[k])
                    && #[trigger] old(writer).may_give(
                        fill.entries@[k].content->Data_0,
                        b,
                        Err::<bool, E>(r->Err_0),
                    ))
                && forall|j: int|
                    0 <= j < k ==> ((
                    #[trigger] fill.entries@[j]).content matches FillEntryContent::Data(d)
                        && exists|b: &mut [u8], deflate: bool|
                            b@ == covered(states[j], fill.entries@[j])
                                && #[trigger] old(writer).may_give(d, b, Ok::<bool, E>(deflate))
                                && states[j + 1] == spliced(
                                states[j],
                                fill.entries@[j],
                                final(b)@,
                            )),
{
    let mut frame_buf = zeroed(granule_size);
    let ghost mut states: Seq<Seq<u8>> = seq![frame_buf@];
    let mut j: usize = 0;
    while j < fill.entries.len()
        invariant
            j <= fill.entries@.len(),
            writer.ready(),
            forall|d: D, b: &mut [u8], o: Result<bool, E>|
                writer.may_give(d, b, o) == old(writer).may_give(d, b, o),
            frame_buf@.len() == granule_size,
            ranges_within(fill.entries@, granule_size as int),
            !fill.spec_depends_on_bootinfo(),
            zero_outside(fill.entries@, j as int, frame_buf@),
            runs_from_zeros(states, j as nat, granule_size as nat, frame_buf@),
            forall|k: int|
                0 <= k < j ==> ((
                #[trigger] fill.entries@[k]).content matches FillEntryContent::Data(d)
                    && exists|b: &mut [u8], deflate: bool|
                        b@ == covered(states[k], fill.entries@[k])
                            && #[trigger] old(writer).may_give(d, b, Ok::<bool, E>(deflate))
                            && states[k + 1] == spliced(
                            states[k],
                            fill.entries@[k],
                            final(b)@,
                        )),
        decreases fill.entries@.len() - j,
    {
        let entry = &fill.entries[j];
        match &entry.content {
            FillEntryContent::Data(data) => {
                let ghost before = frame_buf@;
                let part = subslice_mut(
                    frame_buf.as_mut_slice(),
                    entry.range.start as usize,
                    entry.range.end as usize,
                );
                let answer = writer.write(data, part);
                proof {
                    assert(frame_buf@.len() == before.len());
                    assert forall|p: int|
                        0 <= p < frame_buf@.len() && outside_all(
                            fill.entries@,
                            j + 1,
                            p,
                        ) implies #[trigger] frame_buf@[p] == 0 by {
                        assert(!(fill.entries@[j as int].range.start <= p && p
                            < fill.entries@[j as int].range.end));
                        assert(outside_all(fill.entries@, j as int, p));
                        assert(before[p] == 0);
                    }
                }
                match answer {
                    Ok(deflate) => {
                        proof {
                            let ghost earlier = states;
                            states = states.push(frame_buf@);
                            assert(answer->Ok_0 == deflate);
                            assert(states[j as int] == before);
                            assert(exists|b: &mut [u8], flag: bool|
                                b@ == covered(states[j as int], fill.entries@[j as int])
                                    && #[trigger] old(writer).may_give(
                                    fill.entries@[j as int].content->Data_0,
                                    b,
                                    Ok::<bool, E>(flag),
                                ) && states[j + 1] == spliced(
                                    states[j as int],
                                    fill.entries@[j as int],
                                    final(b)@,
                                ));
                            assert forall|k: int| 0 <= k < j implies ((
                            #[trigger] fill.entries@[k]).content matches FillEntryContent::Data(d)
                                && exists|b: &mut [u8], deflate: bool|
                                    b@ == covered(states[k], fill.entries@[k])
                                        && #[trigger] old(writer).may_give(d, b, Ok::<bool, E>(deflate))
                                        && states[k + 1] == spliced(
                                        states[k],
                                        fill.entries@[k],
                                        final(b)@,
                                    )) by {
                                assert(states[k] == earlier[k]);
                                assert(states[k + 1] == earlier[k + 1]);
                            }
                        }
                    },
                    Err(e) => {
                        let failed: Result<(Vec<u8>, Ghost<Seq<Seq<u8>>>), E> = Err(e);
                        proof {
                            assert(failed->Err_0 == answer->Err_0);
                            assert(answer == Err::<bool, E>(failed->Err_0));
                            assert(states[j as int] == before);
                            assert(starts_from_zeros(states, j as int, granule_size as nat));
                            assert(exists|b: &mut [u8]|
                                b@ == covered(states[j as int], fill.entries@[j as int])
                                    && #[trigger] old(writer).may_give(
                                    fill.entries@[j as int].content->Data_0,
                                    b,
                                    Err::<bool, E>(failed->Err_0),
                                ));
                        }
                        return failed;
                    },
                }
            },
            FillEntryContent::BootInfo(_) => {
                assert(fill.entries@[j as int].content is BootInfo);
                assert(false);
            },
        }
        j = j + 1;
    }
    Ok((frame_buf, Ghost(states)))
}

/// Whether `after` is what embedding makes of the frame `before`, the
/// object `i` of `spec`.
pub open spec fn frame_embedded<N, D>(
    spec: &Spec<N, D, NeverEmbedded>,
    embed_frames: bool,
    granule_size_bits: u8,
    i: int,
    before: object::Frame<D, NeverEmbedded>,
    after: Object<PackedContent, EmbeddedFrameIndex>,
) -> bool {
    &&& before.init matches FrameInit::Fill(fill)
    &&& after matches Object::Frame(frame1)
    &&& frame1.size_bits == before.size_bits
    &&& frame1.paddr == before.paddr
    &&& if embeds(embed_frames, granule_size_bits, before, is_root_id(spec.root_objects, i)) {
        frame1.init matches FrameInit::Embedded(ix) && ix.index == embedded_before(
            spec,
            granule_size_bits,
            i,
        )
    } else {
        frame1.init matches FrameInit::Fill(fill1) && fill1.entries@.len() == fill.entries@.len()
            && forall|j: int|
            0 <= j < fill.entries@.len() ==> {
                &&& (#[trigger] fill1.entries@[j]).range == fill.entries@[j].range
                &&& match fill.entries@[j].content {
                    FillEntryContent::BootInfo(info) => fill1.entries@[j].content
                        == FillEntryContent::<PackedContent>::BootInfo(info),
                    FillEntryContent::Data(_) => fill1.entries@[j].content is Data,
                }
            }
    }
}

/// Whether `after` and `frame_data` are what embedding makes of `spec`:
/// the same objects under clones of their names, each frame embedded or
/// filled as `frame_embedded` says, everything else as it was, and one
/// buffer of the size of a granule for each embedded frame.
pub open spec fn embedded<N: Clone, D>(
    spec: &Spec<N, D, NeverEmbedded>,
    embed_frames: bool,
    granule_size_bits: u8,
    after: Spec<N, PackedContent, EmbeddedFrameIndex>,
    frame_data: Vec<Vec<u8>>,
) -> bool {
    &&& after.objects@.len() == spec.objects@.len()
    &&& forall|i: int|
        0 <= i < spec.objects@.len() ==> {
            &&& cloned::<N>(spec.objects@[i].name, (#[trigger] after.objects@[i]).name)
            &&& match spec.objects@[i].object {
                Object::Frame(frame) => frame_embedded(
                    spec,
                    embed_frames,
                    granule_size_bits,
                    i,
                    frame,
                    after.objects@[i].object,
                ),
                other => object_carried(other, after.objects@[i].object),
            }
        }
    &&& after.irqs@ == spec.irqs@
    &&& after.asid_slots@ == spec.asid_slots@
    &&& after.root_objects == spec.root_objects
    &&& after.untyped_covers@ == spec.untyped_covers@
    &&& frame_data@.len() == if embed_frames {
        embedded_before(spec, granule_size_bits, spec.objects@.len() as int)
    } else {
        0
    }
    &&& forall|k: int|
        0 <= k < frame_data@.len() ==> (#[trigger] frame_data@[k])@.len()
            == vstd::arithmetic::power2::pow2(granule_size_bits as nat)
    &&& forall|i: int|
        0 <= i < spec.objects@.len() ==> ((#[trigger] spec.objects@[i]).object matches Object::Frame(
            frame,
        ) ==> (embeds(embed_frames, granule_size_bits, frame, is_root_id(spec.root_objects, i))
            ==> held_apart_zeroed(frame, frame_data, embedded_before(spec, granule_size_bits, i))))
}

/// Whether the buffer with the index `ix` of `frame_data` holds zero
/// wherever no piece of `frame` covers.
pub open spec fn held_apart_zeroed<D>(
    frame: object::Frame<D, NeverEmbedded>,
    frame_data: Vec<Vec<u8>>,
    ix: nat,
) -> bool {
    &&& frame.init matches FrameInit::Fill(fill)
    &&& ix < frame_data@.len()
    &&& zero_outside(fill.entries@, fill.entries@.len() as int, frame_data@[ix as int]@)
}


impl<N: Clone, D> Spec<N, D, NeverEmbedded> {
    /// Makes the specification that the initializer gets, and the content
    /// of the frames that are held apart from it.
    ///
    /// `writer` writes the bytes of a piece of data into the buffer that it is
    /// given, which is as long as the piece, and says whether the bytes are
    /// to be compressed. A frame that can be embedded is, if frames are to
    /// be embedded at all: its pieces are written one after the other into
    /// one buffer of the size of a granule, which holds zeros at first; the
    /// buffer is added to the content held apart, and the frame refers to
    /// it by its index there. The pieces of every other frame are each
    /// written into a buffer of zeros and packed. It stops at the first
    /// failure of the writer and returns it.
    #[verifier::rlimit(60)]
    pub fn embed_fill_with<E, W: PieceWriter<D, E>>(
        &self,
        embed_frames: bool,
        granule_size_bits: u8,
        writer: &mut W,
    ) -> (r: Result<(Spec<N, PackedContent, EmbeddedFrameIndex>, Vec<Vec<u8>>), E>)
        requires
            granule_size_bits < 32,
            self.objects@.len() <= u32::MAX,
            old(writer).ready(),
            fillable(
                self,
                embed_frames,
                granule_size_bits,
                vstd::arithmetic::power2::pow2(granule_size_bits as nat) as int,
            ),
        ensures
            final(writer).ready(),
            forall|d: D, b: &mut [u8], o: Result<bool, E>|
                final(writer).may_give(d, b, o) == old(writer).may_give(d, b, o),
            never_fails::<D, E, W>(old(writer)) ==> r is Ok,
            r is Err ==> exists|i: int|
                0 <= i < self.objects@.len() && ((
                #[trigger] self.objects@[i]).object matches Object::Frame(frame)
                    && frame.init matches FrameInit::Fill(fill) && if embeds(
                    embed_frames,
                    granule_size_bits,
                    frame,
                    is_root_id(self.root_objects, i),
                ) {
                    exists|states: Seq<Seq<u8>>, k: int|
                        0 <= k < fill.entries@.len()
                            && #[trigger] starts_from_zeros(states, k, vstd::arithmetic::power2::pow2(granule_size_bits as nat))
                            && fill.entries@[k].content is Data
                            && (exists|b: &mut [u8]|
                            b@ == covered(states[k], fill.entries@[k])
                                && #[trigger] old(writer).may_give(
                                    fill.entries@[k].content->Data_0,
                                    b,
                                    Err::<bool, E>(r->Err_0),
                                ))
                            && forall|j: int|
                                0 <= j < k ==> ((
                                #[trigger] fill.entries@[j]).content matches FillEntryContent::Data(d)
                                    && exists|b: &mut [u8], deflate: bool|
                                        b@ == covered(states[j], fill.entries@[j])
                                            && #[trigger] old(writer).may_give(d, b, Ok::<bool, E>(deflate))
                                            && states[j + 1] == spliced(
                                            states[j],
                                            fill.entries@[j],
                                            final(b)@,
                                        ))
                } else {
                    exists|k: int|
                        0 <= k < fill.entries@.len()
                            && (#[trigger] fill.entries@[k]).content is Data
                            && (exists|b: &mut [u8]|
                            b@ == zeros(piece_length(fill.entries@[k]) as nat)
                                && #[trigger] old(writer).may_give(
                                    fill.entries@[k].content->Data_0,
                                    b,
                                    Err::<bool, E>(r->Err_0),
                                ))
                            && forall|j: int|
                                0 <= j < k ==> ((
                                #[trigger] fill.entries@[j]).content matches FillEntryContent::Data(d)
                                    ==> exists|b: &mut [u8], deflate: bool|
                                    b@ == zeros(piece_length(fill.entries@[j]) as nat)
                                        && #[trigger] old(writer).may_give(d, b, Ok::<bool, E>(deflate)))
                }) && forall|x: int|
                    0 <= x < i ==> ((
                    #[trigger] self.objects@[x]).object matches Object::Frame(earlier)
                        ==> earlier.init matches FrameInit::Fill(done) && if embeds(
                        embed_frames,
                        granule_size_bits,
                        earlier,
                        is_root_id(self.root_objects, x),
                    ) {
                        exists|states: Seq<Seq<u8>>|
                            #[trigger] starts_from_zeros(
                                states,
                                done.entries@.len() as int,
                                vstd::arithmetic::power2::pow2(granule_size_bits as nat),
                            ) && forall|k: int|
                                0 <= k < done.entries@.len() ==> ((
                                #[trigger] done.entries@[k]).content matches FillEntryContent::Data(d)
                                    && exists|b: &mut [u8], deflate: bool|
                                        b@ == covered(states[k], done.entries@[k])
                                            && #[trigger] old(writer).may_give(d, b, Ok::<bool, E>(deflate))
                                            && states[k + 1] == spliced(
                                            states[k],
                                            done.entries@[k],
                                            final(b)@,
                                        ))
                    } else {
                        forall|j: int|
                            0 <= j < done.entries@.len() ==> ((
                            #[trigger] done.entries@[j]).content matches FillEntryContent::Data(d)
                                ==> exists|b: &mut [u8], deflate: bool|
                                b@ == zeros(piece_length(done.entries@[j]) as nat)
                                    && #[trigger] old(writer).may_give(d, b, Ok::<bool, E>(deflate)))
                    }),
            r matches Ok((after, frame_data)) ==> embedded(
                self,
                embed_frames,
                granule_size_bits,
                after,
                frame_data,
            ),
            r matches Ok((after, frame_data)) ==> forall|i: int|
                0 <= i < self.objects@.len() ==> ((
                #[trigger] self.objects@[i]).object matches Object::Frame(frame)
                    ==> frame.init matches FrameInit::Fill(fill) && if embeds(
                    embed_frames,
                    granule_size_bits,
                    frame,
                    is_root_id(self.root_objects, i),
                ) {
                    exists|states: Seq<Seq<u8>>|
                        #[trigger] runs_from_zeros(
                            states,
                            fill.entries@.len(),
                            vstd::arithmetic::power2::pow2(granule_size_bits as nat),
                            frame_data@[embedded_before(self, granule_size_bits, i) as int]@,
                        ) && forall|k: int|
                            0 <= k < fill.entries@.len() ==> ((
                            #[trigger] fill.entries@[k]).content matches FillEntryContent::Data(d)
                                && exists|b: &mut [u8], deflate: bool|
                                    b@ == covered(states[k], fill.entries@[k])
                                        && #[trigger] old(writer).may_give(d, b, Ok::<bool, E>(deflate))
                                        && states[k + 1] == spliced(
                                        states[k],
                                        fill.entries@[k],
                                        final(b)@,
                                    ))
                } else {
                    after.objects@[i].object matches Object::Frame(frame1)
                        && frame1.init matches FrameInit::Fill(fill1) && forall|k: int|
                        0 <= k < fill.entries@.len() ==> ((
                        #[trigger] fill.entries@[k]).content matches FillEntryContent::Data(d)
                            ==> fill1.entries@[k].content matches FillEntryContent::Data(c)
                                && exists|b: &mut [u8], deflate: bool|
                                b@ == zeros(piece_length(fill.entries@[k]) as nat)
                                    && #[trigger] old(writer).may_give(d, b, Ok::<bool, E>(deflate))
                                    && packed_as(final(b)@, deflate, c))
                }),
    {
        let granule_size: usize = 1usize << (granule_size_bits as usize);
        proof {
            vstd::arithmetic::power2::lemma_pow2_strictly_increases(granule_size_bits as nat, 32);
            vstd::arithmetic::power2::lemma2_to64();
            vstd::bits::lemma_usize_shl_is_mul(1usize, granule_size_bits as usize);
        }
        let mut frame_data: Vec<Vec<u8>> = Vec::new();
        let ghost mut states_of: Seq<Seq<Seq<u8>>> = Seq::empty();
        let mut objects: Vec<NamedObject<N, PackedContent, EmbeddedFrameIndex>> = Vec::new();
        let mut i: usize = 0;
        while i < self.objects.len()
            invariant
                i <= self.objects@.len(),
                self.objects@.len() <= u32::MAX,
                objects@.len() == i,
                writer.ready(),
                forall|d: D, b: &mut [u8], o: Result<bool, E>|
                    writer.may_give(d, b, o) == old(writer).may_give(d, b, o),
                granule_size == vstd::arithmetic::power2::pow2(granule_size_bits as nat),
                fillable(self, embed_frames, granule_size_bits, granule_size as int),
                frame_data@.len() == if embed_frames {
                    embedded_before(self, granule_size_bits, i as int)
                } else {
                    0
                },
                frame_data@.len() <= i,
                states_of.len() == i,
                forall|k: int|
                    0 <= k < frame_data@.len() ==> (#[trigger] frame_data@[k])@.len()
                        == granule_size,
                forall|k: int|
                    0 <= k < i ==> ((#[trigger] self.objects@[k]).object matches Object::Frame(
                        frame,
                    ) ==> (embeds(
                        embed_frames,
                        granule_size_bits,
                        frame,
                        is_root_id(self.root_objects, k),
                    ) ==> held_apart_zeroed(
                        frame,
                        frame_data,
                        embedded_before(self, granule_size_bits, k),
                    ))),
                forall|k: int|
                    0 <= k < i ==> {
                        &&& cloned::<N>(self.objects@[k].name, (#[trigger] objects@[k]).name)
                        &&& match self.objects@[k].object {
                            Object::Frame(frame) => frame_embedded(
                                self,
                                embed_frames,
                                granule_size_bits,
                                k,
                                frame,
                                objects@[k].object,
                            ),
                            other => object_carried(other, objects@[k].object),
                        }
                    },
                forall|x: int|
                    0 <= x < i ==> ((
                    #[trigger] self.objects@[x]).object matches Object::Frame(frame)
                        ==> frame.init matches FrameInit::Fill(fill) && if embeds(
                        embed_frames,
                        granule_size_bits,
                        frame,
                        is_root_id(self.root_objects, x),
                    ) {
                        embedded_before(self, granule_size_bits, x) < frame_data@.len()
                            && runs_from_zeros(
                            states_of[x],
                            fill.entries@.len(),
                            granule_size as nat,
                            frame_data@[embedded_before(self, granule_size_bits, x) as int]@,
                        ) && forall|k: int|
                            0 <= k < fill.entries@.len() ==> ((
                            #[trigger] fill.entries@[k]).content matches FillEntryContent::Data(d)
                                && exists|b: &mut [u8], deflate: bool|
                                    b@ == covered(states_of[x][k], fill.entries@[k])
                                        && #[trigger] old(writer).may_give(d, b, Ok::<bool, E>(deflate))
                                        && states_of[x][k + 1] == spliced(
                                        states_of[x][k],
                                        fill.entries@[k],
                                        final(b)@,
                                    ))
                    } else {
                        objects@[x].object matches Object::Frame(frame1)
                            && frame1.init matches FrameInit::Fill(fill1) && forall|k: int|
                            0 <= k < fill.entries@.len() ==> ((
                            #[trigger] fill.entries@[k]).content matches FillEntryContent::Data(d)
                                ==> fill1.entries@[k].content matches FillEntryContent::Data(c)
                                    && exists|b: &mut [u8], deflate: bool|
                                    b@ == zeros(piece_length(fill.entries@[k]) as nat)
                                        && #[trigger] old(writer).may_give(d, b, Ok::<bool, E>(deflate))
                                        && packed_as(final(b)@, deflate, c))
                    }),
            decreases self.objects@.len() - i,
        {
            let named = &self.objects[i];
            let ghost mut written: Seq<Seq<u8>> = Seq::empty();
            let object = match carry_over::<D, NeverEmbedded, PackedContent, EmbeddedFrameIndex>(
                &named.object,
            ) {
                Some(object) => object,
                None => match &named.object {
                    Object::Frame(frame) => {
                        let root = self.is_root(i);
                        let fill = frame.init.as_fill_infallible();
                        assert(self.objects@[i as int].object matches Object::Frame(fr) && fr
                            == *frame);
                        let init = if embed_frames && frame.can_embed(granule_size_bits, root) {
                            let made = write_granule(writer, fill, granule_size);
                            match made {
                                Ok((frame_buf, states)) => {
                                    let ix = frame_data.len();
                                    frame_data.push(frame_buf);
                                    proof {
                                        written = states@;
                                    }
                                    FrameInit::Embedded(EmbeddedFrameIndex { index: ix as u32 })
                                },
                                Err(e) => {
                                    let failed: Result<
                                        (Spec<N, PackedContent, EmbeddedFrameIndex>, Vec<Vec<u8>>),
                                        E,
                                    > = Err(e);
                                    proof {
                                        assert(failed->Err_0 == made->Err_0);
                                    }
                                    return failed;
                                },
                            }
                        } else {
                            let made = pack_pieces(writer, fill);
                            match made {
                                Ok(out) => FrameInit::Fill(Fill { entries: out }),
                                Err(e) => {
                                    let failed: Result<
                                        (Spec<N, PackedContent, EmbeddedFrameIndex>, Vec<Vec<u8>>),
                                        E,
                                    > = Err(e);
                                    proof {
                                        assert(failed->Err_0 == made->Err_0);
                                    }
                                    return failed;
                                },
                            }
                        };
                        Object::Frame(
                            object::Frame { size_bits: frame.size_bits, paddr: frame.paddr, init },
                        )
                    },
                    _ => vstd::pervasive::unreached(),
                },
            };
            objects.push(NamedObject { name: named.name.clone(), object });
            proof {
                states_of = states_of.push(written);
            }
            i = i + 1;
        }
        Ok(
            (
                Spec {
                    objects,
                    irqs: copy_irqs(&self.irqs),
                    asid_slots: copy_ids(&self.asid_slots),
                    root_objects: Range {
                        start: self.root_objects.start,
                        end: self.root_objects.end,
                    },
                    untyped_covers: copy_covers(&self.untyped_covers),
                },
                frame_data,
            ),
        )
    }

    /// As `embed_fill_with`, with a function `f` as the writer.
    ///
    /// On success every buffer held apart is what the calls of `f` on the
    /// pieces of its frame, in their order, have left in a granule of zeros:
    /// each call gets the bytes that the range of its piece covers, as the
    /// calls before it left them. The content of a piece of any other frame
    /// is what `f` wrote into as many zeros as the piece is long, packed as
    /// `f` said. On failure the error is that of `f` on one piece, after
    /// `f` has succeeded on every piece before it, frame by frame. If `f`
    /// cannot fail, neither can this function.
    pub fn embed_fill_fallible<E, F: FnMut(&D, &mut [u8]) -> Result<bool, E>>(
        &self,
        embed_frames: bool,
        granule_size_bits: u8,
        f: F,
    ) -> (r: Result<(Spec<N, PackedContent, EmbeddedFrameIndex>, Vec<Vec<u8>>), E>)
        requires
            granule_size_bits < 32,
            self.objects@.len() <= u32::MAX,
            forall|d: &D, buf: &mut [u8]| f.requires((d, buf)),
            fillable(
                self,
                embed_frames,
                granule_size_bits,
                vstd::arithmetic::power2::pow2(granule_size_bits as nat) as int,
            ),
        ensures
            r matches Ok((after, frame_data)) ==> embedded(
                self,
                embed_frames,
                granule_size_bits,
                after,
                frame_data,
            ),
            r matches Ok((after, frame_data)) ==> forall|i: int|
                0 <= i < self.objects@.len() ==> ((
                #[trigger] self.objects@[i]).object matches Object::Frame(frame)
                    ==> frame.init matches FrameInit::Fill(fill) && if embeds(
                    embed_frames,
                    granule_size_bits,
                    frame,
                    is_root_id(self.root_objects, i),
                ) {
                    exists|states: Seq<Seq<u8>>|
                        #[trigger] runs_from_zeros(
                            states,
                            fill.entries@.len(),
                            vstd::arithmetic::power2::pow2(granule_size_bits as nat),
                            frame_data@[embedded_before(self, granule_size_bits, i) as int]@,
                        ) && forall|k: int|
                            0 <= k < fill.entries@.len() ==> ((
                            #[trigger] fill.entries@[k]).content matches FillEntryContent::Data(d)
                                && exists|b: &mut [u8], deflate: bool|
                                    b@ == covered(states[k], fill.entries@[k])
                                        && #[trigger] f.ensures((&d, b), Ok::<bool, E>(deflate))
                                        && states[k + 1] == spliced(
                                        states[k],
                                        fill.entries@[k],
                                        final(b)@,
                                    ))
                } else {
                    after.objects@[i].object matches Object::Frame(frame1)
                        && frame1.init matches FrameInit::Fill(fill1) && forall|k: int|
                        0 <= k < fill.entries@.len() ==> ((
                        #[trigger] fill.entries@[k]).content matches FillEntryContent::Data(d)
                            ==> fill1.entries@[k].content matches FillEntryContent::Data(c)
                                && exists|b: &mut [u8], deflate: bool|
                                b@ == zeros(piece_length(fill.entries@[k]) as nat)
                                    && #[trigger] f.ensures((&d, b), Ok::<bool, E>(deflate))
                                    && packed_as(final(b)@, deflate, c))
                }),
            r is Err ==> exists|i: int|
                0 <= i < self.objects@.len() && ((
                #[trigger] self.objects@[i]).object matches Object::Frame(frame)
                    && frame.init matches FrameInit::Fill(fill) && if embeds(
                    embed_frames,
                    granule_size_bits,
                    frame,
                    is_root_id(self.root_objects, i),
                ) {
                    exists|states: Seq<Seq<u8>>, k: int|
                        0 <= k < fill.entries@.len()
                            && #[trigger] starts_from_zeros(states, k, vstd::arithmetic::power2::pow2(granule_size_bits as nat))
                            && fill.entries@[k].content is Data
                            && (exists|b: &mut [u8]|
                            b@ == covered(states[k], fill.entries@[k])
                                && #[trigger] f.ensures(
                                    (&fill.entries@[k].content->Data_0, b),
                                    Err::<bool, E>(r->Err_0),
                                ))
                            && forall|j: int|
                                0 <= j < k ==> ((
                                #[trigger] fill.entries@[j]).content matches FillEntryContent::Data(d)
                                    && exists|b: &mut [u8], deflate: bool|
                                        b@ == covered(states[j], fill.entries@[j])
                                            && #[trigger] f.ensures((&d, b), Ok::<bool, E>(deflate))
                                            && states[j + 1] == spliced(
                                            states[j],
                                            fill.entries@[j],
                                            final(b)@,
                                        ))
                } else {
                    exists|k: int|
                        0 <= k < fill.entries@.len()
                            && (#[trigger] fill.entries@[k]).content is Data
                            && (exists|b: &mut [u8]|
                            b@ == zeros(piece_length(fill.entries@[k]) as nat)
                                && #[trigger] f.ensures(
                                    (&fill.entries@[k].content->Data_0, b),
                                    Err::<bool, E>(r->Err_0),
                                ))
                            && forall|j: int|
                                0 <= j < k ==> ((
                                #[trigger] fill.entries@[j]).content matches FillEntryContent::Data(d)
                                    ==> exists|b: &mut [u8], deflate: bool|
                                    b@ == zeros(piece_length(fill.entries@[j]) as nat)
                                        && #[trigger] f.ensures((&d, b), Ok::<bool, E>(deflate)))
                }) && forall|x: int|
                    0 <= x < i ==> ((
                    #[trigger] self.objects@[x]).object matches Object::Frame(earlier)
                        ==> earlier.init matches FrameInit::Fill(done) && if embeds(
                        embed_frames,
                        granule_size_bits,
                        earlier,
                        is_root_id(self.root_objects, x),
                    ) {
                        exists|states: Seq<Seq<u8>>|
                            #[trigger] starts_from_zeros(
                                states,
                                done.entries@.len() as int,
                                vstd::arithmetic::power2::pow2(granule_size_bits as nat),
                            ) && forall|k: int|
                                0 <= k < done.entries@.len() ==> ((
                                #[trigger] done.entries@[k]).content matches FillEntryContent::Data(d)
                                    && exists|b: &mut [u8], deflate: bool|
                                        b@ == covered(states[k], done.entries@[k])
                                            && #[trigger] f.ensures((&d, b), Ok::<bool, E>(deflate))
                                            && states[k + 1] == spliced(
                                            states[k],
                                            done.entries@[k],
                                            final(b)@,
                                        ))
                    } else {
                        forall|j: int|
                            0 <= j < done.entries@.len() ==> ((
                            #[trigger] done.entries@[j]).content matches FillEntryContent::Data(d)
                                ==> exists|b: &mut [u8], deflate: bool|
                                b@ == zeros(piece_length(done.entries@[j]) as nat)
                                    && #[trigger] f.ensures((&d, b), Ok::<bool, E>(deflate)))
                    }),
            (forall|d: &D, buf: &mut [u8], o: Result<bool, E>| f.ensures((d, buf), o) ==> o is Ok)
                ==> r is Ok,
    {
        let mut writer = FallibleWriter { f };
        let r = self.embed_fill_with(embed_frames, granule_size_bits, &mut writer);
        r
    }

    /// As `embed_fill_with`, with a function `f` that cannot fail as the
    /// writer: every buffer held apart is what the calls of `f` on the
    /// pieces of its frame, in their order, have left in a granule of
    /// zeros, and the content of a piece of any other frame is what `f`
    /// wrote into as many zeros as the piece is long, packed as `f` said.
    pub fn embed_fill<F: FnMut(&D, &mut [u8]) -> bool>(
        &self,
        embed_frames: bool,
        granule_size_bits: u8,
        f: F,
    ) -> (r: (Spec<N, PackedContent, EmbeddedFrameIndex>, Vec<Vec<u8>>))
        requires
            granule_size_bits < 32,
            self.objects@.len() <= u32::MAX,
            forall|d: &D, buf: &mut [u8]| f.requires((d, buf)),
            fillable(
                self,
                embed_frames,
                granule_size_bits,
                vstd::arithmetic::power2::pow2(granule_size_bits as nat) as int,
            ),
        ensures
            embedded(self, embed_frames, granule_size_bits, r.0, r.1),
            forall|i: int|
                0 <= i < self.objects@.len() ==> ((
                #[trigger] self.objects@[i]).object matches Object::Frame(frame)
                    ==> frame.init matches FrameInit::Fill(fill) && if embeds(
                    embed_frames,
                    granule_size_bits,
                    frame,
                    is_root_id(self.root_objects, i),
                ) {
                    exists|states: Seq<Seq<u8>>|
                        #[trigger] runs_from_zeros(
                            states,
                            fill.entries@.len(),
                            vstd::arithmetic::power2::pow2(granule_size_bits as nat),
                            r.1@[embedded_before(self, granule_size_bits, i) as int]@,
                        ) && forall|k: int|
                            0 <= k < fill.entries@.len() ==> ((
                            #[trigger] fill.entries@[k]).content matches FillEntryContent::Data(d)
                                && exists|b: &mut [u8], deflate: bool|
                                    b@ == covered(states[k], fill.entries@[k])
                                        && #[trigger] f.ensures((&d, b), deflate)
                                        && states[k + 1] == spliced(
                                        states[k],
                                        fill.entries@[k],
                                        final(b)@,
                                    ))
                } else {
                    r.0.objects@[i].object matches Object::Frame(frame1)
                        && frame1.init matches FrameInit::Fill(fill1) && forall|k: int|
                        0 <= k < fill.entries@.len() ==> ((
                        #[trigger] fill.entries@[k]).content matches FillEntryContent::Data(d)
                            ==> fill1.entries@[k].content matches FillEntryContent::Data(c)
                                && exists|b: &mut [u8], deflate: bool|
                                b@ == zeros(piece_length(fill.entries@[k]) as nat)
                                    && #[trigger] f.ensures((&d, b), deflate)
                                    && packed_as(final(b)@, deflate, c))
                }),
    {
        let mut writer = TotalWriter { f };
        match self.embed_fill_with(embed_frames, granule_size_bits, &mut writer) {
            Ok(made) => made,
            Err(_) => vstd::pervasive::unreached(),
        }
    }
}

} // verus!

use core::ops::Range;
use vstd::prelude::*;

use crate::capdl::frame_init::Fill;
use crate::capdl::frame_init::FillEntry;
use crate::capdl::frame_init::FillEntryContent;
use crate::capdl::frame_init::FrameInit;
use crate::capdl::frame_init::NeverEmbedded;
use crate::capdl::object;
use crate::capdl::spec::Spec;
use crate::capdl::traverse::entries_related;
use crate::capdl::traverse::ranges_forward;
use crate::capdl::traverse::spec_ranges_forward;
use crate::capdl::traverse::stopped_at;
use crate::capdl::traverse::traversed;
use crate::capdl::traverse::FrameVisitor;

verus! {

/// A copy of the pieces of a fill, with clones of their data.
pub fn clone_entries<D: Clone>(entries: &Vec<FillEntry<D>>) -> (r: Vec<FillEntry<D>>)
    ensures
        entries_related(entries@, r@, |range: Range<u64>, d: D, d1: D| cloned::<D>(d, d1)),
{
    let mut out: Vec<FillEntry<D>> = Vec::new();
    let mut i: usize = 0;
    while i < entries.len()
        invariant
            i <= entries@.len(),
            out@.len() == i,
            entries_related(
                entries@.take(i as int),
                out@,
                |range: Range<u64>, d: D, d1: D| cloned::<D>(d, d1),
            ),
        decreases entries@.len() - i,
    {
        let entry = &entries[i];
        let content = match &entry.content {
            FillEntryContent::BootInfo(info) => FillEntryContent::BootInfo(*info),
            FillEntryContent::Data(data) => FillEntryContent::Data(data.clone()),
        };
        out.push(
            FillEntry { range: Range { start: entry.range.start, end: entry.range.end }, content },
        );
        i = i + 1;
    }
    proof {
        assert(entries@.take(entries@.len() as int) =~= entries@);
    }
    out
}

/// What `f`, given the range and the data of each piece, can make of the
/// pieces `before`.
pub open spec fn entries_outcome<D, D1, E, F: FnMut(&Range<u64>, &D) -> Result<D1, E>>(
    f: F,
    before: Seq<FillEntry<D>>,
    r: Result<Seq<FillEntry<D1>>, E>,
) -> bool {
    match r {
        Ok(after) => entries_related(
            before,
            after,
            |range: Range<u64>, d: D, d1: D1| f.ensures((&range, &d), Ok::<D1, E>(d1)),
        ),
        Err(e) => exists|i: int| #[trigger] fails_on_piece(f, before, e, i),
    }
}

/// Whether `f` fails with `e` on the data of the piece with the index `i`,
/// after it has succeeded on the data of every piece before that one.
pub open spec fn fails_on_piece<D, D1, E, F: FnMut(&Range<u64>, &D) -> Result<D1, E>>(
    f: F,
    before: Seq<FillEntry<D>>,
    e: E,
    i: int,
) -> bool {
    &&& 0 <= i < before.len()
    &&& before[i].content matches FillEntryContent::Data(d) && f.ensures(
        (&before[i].range, &d),
        Err::<D1, E>(e),
    )
    &&& forall|j: int|
        0 <= j < i ==> ((#[trigger] before[j]).content matches FillEntryContent::Data(earlier)
            ==> exists|v: D1| #[trigger] f.ensures((&before[j].range, &earlier), Ok::<D1, E>(v)))
}

/// Maps the data of the pieces one by one, in order, and stops at the first
/// failure.
pub fn map_entries<D, D1, E, F: FnMut(&Range<u64>, &D) -> Result<D1, E>>(
    entries: &Vec<FillEntry<D>>,
    f: &mut F,
) -> (r: Result<Vec<FillEntry<D1>>, E>)
    requires
        forall|range: &Range<u64>, d: &D| (*old(f)).requires((range, d)),
    ensures
        *final(f) == *old(f),
        entries_outcome(
            *old(f),
            entries@,
            match r {
                Ok(after) => Ok(after@),
                Err(e) => Err(e),
            },
        ),
{
    let mut out: Vec<FillEntry<D1>> = Vec::new();
    let mut i: usize = 0;
    while i < entries.len()
        invariant
            i <= entries@.len(),
            out@.len() == i,
            *f == *old(f),
            forall|range: &Range<u64>, d: &D| (*f).requires((range, d)),
            entries_related(
                entries@.take(i as int),
                out@,
                |range: Range<u64>, d: D, d1: D1| (*old(f)).ensures((&range, &d), Ok::<D1, E>(d1)),
            ),
        decreases entries@.len() - i,
    {
        let entry = &entries[i];
        let content = match &entry.content {
            FillEntryContent::BootInfo(info) => FillEntryContent::BootInfo(*info),
            FillEntryContent::Data(data) => match f(&entry.range, data) {
                Ok(data1) => FillEntryContent::Data(data1),
                Err(e) => {
                    proof {
                        assert forall|j: int| 0 <= j < i implies ((#[trigger] entries@[j]).content matches FillEntryContent::Data(
                            earlier,
                        ) ==> exists|v: D1| #[trigger]
                            (*old(f)).ensures((&entries@[j].range, &earlier), Ok::<D1, E>(v))) by {
                            assert(entries@.take(i as int)[j] == entries@[j]);
                            if entries@[j].content is Data {
                                let v = out@[j].content->Data_0;
                                assert((*old(f)).ensures(
                                    (&entries@[j].range, &entries@[j].content->Data_0),
                                    Ok::<D1, E>(v),
                                ));
                            }
                        }
                        assert(fails_on_piece(*old(f), entries@, e, i as int));
                    }
                    let failed: Result<Vec<FillEntry<D1>>, E> = Err(e);
                    proof {
                        let seen = Err::<Seq<FillEntry<D1>>, E>(failed->Err_0);
                        assert(seen->Err_0 == e);
                        assert(fails_on_piece(*old(f), entries@, seen->Err_0, i as int));
                        assert(exists|k: int| #[trigger]
                            fails_on_piece(*old(f), entries@, seen->Err_0, k));
                        assert(entries_outcome(*old(f), entries@, seen));
                    }
                    return failed;
                },
            },
        };
        out.push(
            FillEntry { range: Range { start: entry.range.start, end: entry.range.end }, content },
        );
        i = i + 1;
    }
    proof {
        assert(entries@.take(entries@.len() as int) =~= entries@);
    }
    Ok(out)
}

/// Whether `after` has the pieces of `before` with, for each piece with
/// data, data that `f` can make of the range and the data of the piece.
pub open spec fn entries_made<D, D1, F: FnMut(&Range<u64>, &D) -> D1>(
    f: F,
    before: Seq<FillEntry<D>>,
    after: Seq<FillEntry<D1>>,
) -> bool {
    entries_related(before, after, |range: Range<u64>, d: D, d1: D1| f.ensures((&range, &d), d1))
}

impl<D> Fill<D> {
    /// Makes a fill with the same pieces and, for each piece with data, the
    /// data that `f` makes of it. It stops at the first failure of `f` and
    /// returns it.
    pub fn traverse_fallible<D1, E, F: FnMut(&Range<u64>, &D) -> Result<D1, E>>(
        &self,
        f: F,
    ) -> (r: Result<Fill<D1>, E>)
        requires
            forall|range: &Range<u64>, d: &D| f.requires((range, d)),
        ensures
            entries_outcome(
                f,
                self.entries@,
                match r {
                    Ok(after) => Ok(after.entries@),
                    Err(e) => Err(e),
                },
            ),
    {
        let mut g = f;
        match map_entries(&self.entries, &mut g) {
            Ok(entries) => Ok(Fill { entries }),
            Err(e) => Err(e),
        }
    }

    /// Makes a fill with the same pieces and, for each piece with data, the
    /// data that `f` makes of it.
    pub fn traverse<D1, F: FnMut(&Range<u64>, &D) -> D1>(&self, f: F) -> (r: Fill<D1>)
        requires
            forall|range: &Range<u64>, d: &D| f.requires((range, d)),
        ensures
            entries_made(f, self.entries@, r.entries@),
    {
        let mut g = f;
        Fill { entries: map_entries_total(&self.entries, &mut g) }
    }
}

/// Maps the data of the pieces one by one, in order.
pub fn map_entries_total<D, D1, F: FnMut(&Range<u64>, &D) -> D1>(
    entries: &Vec<FillEntry<D>>,
    f: &mut F,
) -> (r: Vec<FillEntry<D1>>)
    requires
        forall|range: &Range<u64>, d: &D| (*old(f)).requires((range, d)),
    ensures
        *final(f) == *old(f),
        entries_made(*old(f), entries@, r@),
{
    let mut out: Vec<FillEntry<D1>> = Vec::new();
    let mut i: usize = 0;
    while i < entries.len()
        invariant
            i <= entries@.len(),
            out@.len() == i,
            *f == *old(f),
            forall|range: &Range<u64>, d: &D| (*f).requires((range, d)),
            entries_made(*old(f), entries@.take(i as int), out@),
        decreases entries@.len() - i,
    {
        let entry = &entries[i];
        let content = match &entry.content {
            FillEntryContent::BootInfo(info) => FillEntryContent::BootInfo(*info),
            FillEntryContent::Data(data) => FillEntryContent::Data(f(&entry.range, data)),
        };
        out.push(
            FillEntry { range: Range { start: entry.range.start, end: entry.range.end }, content },
        );
        i = i + 1;
    }
    proof {
        assert(entries@.take(entries@.len() as int) =~= entries@);
    }
    out
}

/// What `f`, given each frame and whether it is a root object, can make of
/// the content of `frame`.
pub open spec fn frame_fn_outcome<D, M, D1, M1, E, F: FnMut(&object::Frame<D, M>, bool) -> Result<
    FrameInit<D1, M1>,
    E,
>>(f: F, frame: object::Frame<D, M>, is_root: bool, r: Result<FrameInit<D1, M1>, E>) -> bool {
    f.ensures((&frame, is_root), r)
}

/// Gives each frame to a function.
pub struct ByFrame<F> {
    pub f: F,
}

impl<D, M, D1, M1, E, F: FnMut(&object::Frame<D, M>, bool) -> Result<
    FrameInit<D1, M1>,
    E,
>> FrameVisitor<D, M, D1, M1, E> for ByFrame<F> {
    open spec fn outcome(
        &self,
        frame: object::Frame<D, M>,
        is_root: bool,
        r: Result<FrameInit<D1, M1>, E>,
    ) -> bool {
        frame_fn_outcome(self.f, frame, is_root, r)
    }

    open spec fn accepts(&self, frame: object::Frame<D, M>) -> bool {
        forall|fr: &object::Frame<D, M>, b: bool| self.f.requires((fr, b))
    }

    fn visit(&mut self, frame: &object::Frame<D, M>, is_root: bool) -> (r: Result<
        FrameInit<D1, M1>,
        E,
    >) {
        (self.f)(frame, is_root)
    }
}

/// What `f`, given the data and the length of each piece, can make of the
/// content of `frame`: of a fill, the same pieces with the data that `f`
/// makes; embedded content is cloned.
pub open spec fn data_outcome<D, M: Clone, D1, E, F: FnMut(&D, u64) -> Result<D1, E>>(
    f: F,
    frame: object::Frame<D, M>,
    r: Result<FrameInit<D1, M>, E>,
) -> bool {
    match frame.init {
        FrameInit::Fill(fill) => match r {
            Ok(init) => init matches FrameInit::Fill(fill1) && entries_related(
                fill.entries@,
                fill1.entries@,
                |range: Range<u64>, d: D, d1: D1|
                    f.ensures((&d, (range.end - range.start) as u64), Ok::<D1, E>(d1)),
            ),
            Err(e) => exists|i: int| #[trigger] fails_on_length(f, fill.entries@, e, i),
        },
        FrameInit::Embedded(m) => r matches Ok(FrameInit::Embedded(m1)) && cloned::<M>(m, m1),
    }
}

/// The length of the range of a piece.
pub open spec fn piece_length<D>(entry: FillEntry<D>) -> u64 {
    (entry.range.end - entry.range.start) as u64
}

/// Whether `f` fails with `e` on the data and the length of the piece with
/// the index `i`, after it has succeeded on every piece with data before
/// that one.
pub open spec fn fails_on_length<D, D1, E, F: FnMut(&D, u64) -> Result<D1, E>>(
    f: F,
    before: Seq<FillEntry<D>>,
    e: E,
    i: int,
) -> bool {
    &&& 0 <= i < before.len()
    &&& before[i].content matches FillEntryContent::Data(d) && f.ensures(
        (&d, piece_length(before[i])),
        Err::<D1, E>(e),
    )
    &&& forall|j: int|
        0 <= j < i ==> ((#[trigger] before[j]).content matches FillEntryContent::Data(earlier)
            ==> exists|v: D1| #[trigger]
            f.ensures((&earlier, piece_length(before[j])), Ok::<D1, E>(v)))
}

/// Gives the data of each piece of each frame, with the length of the
/// piece, to a function.
pub struct ByDataWithLength<F> {
    pub f: F,
}

impl<D, M: Clone, D1, E, F: FnMut(&D, u64) -> Result<D1, E>> FrameVisitor<
    D,
    M,
    D1,
    M,
    E,
> for ByDataWithLength<F> {
    open spec fn outcome(
        &self,
        frame: object::Frame<D, M>,
        is_root: bool,
        r: Result<FrameInit<D1, M>, E>,
    ) -> bool {
        data_outcome(self.f, frame, r)
    }

    open spec fn accepts(&self, frame: object::Frame<D, M>) -> bool {
        &&& forall|d: &D, n: u64| self.f.requires((d, n))
        &&& frame.init matches FrameInit::Fill(fill) ==> ranges_forward(fill.entries@)
    }

    fn visit(&mut self, frame: &object::Frame<D, M>, is_root: bool) -> (r: Result<
        FrameInit<D1, M>,
        E,
    >) {
        match &frame.init {
            FrameInit::Embedded(embedded) => Ok(FrameInit::Embedded(embedded.clone())),
            FrameInit::Fill(fill) => {
                let mut out: Vec<FillEntry<D1>> = Vec::new();
                let mut i: usize = 0;
                while i < fill.entries.len()
                    invariant
                        i <= fill.entries@.len(),
                        out@.len() == i,
                        *self == *old(self),
                        frame.init matches FrameInit::Fill(fl) && fl == *fill,
                        forall|d: &D, n: u64| self.f.requires((d, n)),
                        ranges_forward(fill.entries@),
                        entries_related(
                            fill.entries@.take(i as int),
                            out@,
                            |range: Range<u64>, d: D, d1: D1|
                                old(self).f.ensures(
                                    (&d, (range.end - range.start) as u64),
                                    Ok::<D1, E>(d1),
                                ),
                        ),
                    decreases fill.entries@.len() - i,
                {
                    let entry = &fill.entries[i];
                    let content = match &entry.content {
                        FillEntryContent::BootInfo(info) => FillEntryContent::BootInfo(*info),
                        FillEntryContent::Data(data) => match (self.f)(
                            data,
                            entry.range.end - entry.range.start,
                        ) {
                            Ok(data1) => FillEntryContent::Data(data1),
                            Err(e) => {
                                proof {
                                    assert forall|j: int| 0 <= j < i implies ((
                                    #[trigger] fill.entries@[j]).content matches FillEntryContent::Data(
                                        earlier,
                                    ) ==> exists|v: D1| #[trigger]
                                        old(self).f.ensures(
                                            (&earlier, piece_length(fill.entries@[j])),
                                            Ok::<D1, E>(v),
                                        )) by {
                                        assert(fill.entries@.take(i as int)[j] == fill.entries@[j]);
                                        if fill.entries@[j].content is Data {
                                            let v = out@[j].content->Data_0;
                                            assert(old(self).f.ensures(
                                                (
                                                    &fill.entries@[j].content->Data_0,
                                                    piece_length(fill.entries@[j]),
                                                ),
                                                Ok::<D1, E>(v),
                                            ));
                                        }
                                    }
                                    assert(fails_on_length(
                                        old(self).f,
                                        fill.entries@,
                                        e,
                                        i as int,
                                    ));
                                }
                                let failed: Result<FrameInit<D1, M>, E> = Err(e);
                                proof {
                                    assert(failed->Err_0 == e);
                                    assert(fails_on_length(
                                        old(self).f,
                                        fill.entries@,
                                        failed->Err_0,
                                        i as int,
                                    ));
                                    assert(exists|k: int| #[trigger]
                                        fails_on_length(
                                            old(self).f,
                                            fill.entries@,
                                            failed->Err_0,
                                            k,
                                        ));
                                    assert(frame.init matches FrameInit::Fill(fl) && fl == *fill);
                                    assert(data_outcome(old(self).f, *frame, failed));
                                }
                                return failed;
                            },
                        },
                    };
                    out.push(
                        FillEntry {
                            range: Range { start: entry.range.start, end: entry.range.end },
                            content,
                        },
                    );
                    i = i + 1;
                }
                proof {
                    assert(fill.entries@.take(fill.entries@.len() as int) =~= fill.entries@);
                }
                Ok(FrameInit::Fill(Fill { entries: out }))
            },
        }
    }
}

impl<N: Clone, D, M> Spec<N, D, M> {
    /// Makes a specification with the same objects and, for each frame, the
    /// content that `f` makes of the frame. It stops at the first failure
    /// of `f` and returns it.
    pub fn traverse_frame_init<D1, M1, E, F: FnMut(&object::Frame<D, M>, bool) -> Result<
        FrameInit<D1, M1>,
        E,
    >>(&self, f: F) -> (r: Result<Spec<N, D1, M1>, E>)
        requires
            forall|frame: &object::Frame<D, M>, is_root: bool| f.requires((frame, is_root)),
        ensures
            r matches Ok(after) ==> traversed(
                self,
                &after,
                |frame: object::Frame<D, M>, is_root: bool, init: FrameInit<D1, M1>|
                    f.ensures((&frame, is_root), Ok::<FrameInit<D1, M1>, E>(init)),
            ),
            r matches Err(e) ==> exists|i: int| #[trigger] stopped_at(self, &(ByFrame { f }), e, i),
    {
        let mut visitor = ByFrame { f };
        let r = self.traverse_with(&mut visitor);
        proof {
            match &r {
                Ok(after) => {
                    assert(traversed(
                        self,
                        after,
                        |frame: object::Frame<D, M>, is_root: bool, init: FrameInit<D1, M1>|
                            f.ensures((&frame, is_root), Ok::<FrameInit<D1, M1>, E>(init)),
                    ));
                },
                Err(e) => {},
            }
        }
        r
    }
}

impl<N: Clone, D, M: Clone> Spec<N, D, M> {
    /// Makes a specification with the same objects and, for each piece of
    /// data of each frame, the data that `f` makes of the data and the
    /// length of the piece. Embedded content is cloned. It stops at the
    /// first failure of `f` and returns it.
    pub fn traverse_data_with_length_fallible<D1, E, F: FnMut(&D, u64) -> Result<D1, E>>(
        &self,
        f: F,
    ) -> (r: Result<Spec<N, D1, M>, E>)
        requires
            forall|d: &D, n: u64| f.requires((d, n)),
            spec_ranges_forward(self),
        ensures
            r matches Ok(after) ==> traversed(
                self,
                &after,
                |frame: object::Frame<D, M>, is_root: bool, init: FrameInit<D1, M>|
                    data_outcome(f, frame, Ok::<FrameInit<D1, M>, E>(init)),
            ),
            r matches Err(e) ==> exists|i: int|
                #[trigger] stopped_at(self, &(ByDataWithLength { f }), e, i),
    {
        let mut visitor = ByDataWithLength { f };
        let r = self.traverse_with(&mut visitor);
        proof {
            match &r {
                Ok(after) => {
                    assert(traversed(
                        self,
                        after,
                        |frame: object::Frame<D, M>, is_root: bool, init: FrameInit<D1, M>|
                            data_outcome(f, frame, Ok::<FrameInit<D1, M>, E>(init)),
                    ));
                },
                Err(e) => {},
            }
        }
        r
    }
}

} // verus!

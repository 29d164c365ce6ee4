use core::ops::Range;
use vstd::prelude::*;

use crate::capdl::frame_init::Fill;
use crate::capdl::frame_init::FillEntry;
use crate::capdl::frame_init::FillEntryContent;
use crate::capdl::frame_init::FrameInit;
use crate::capdl::object;
use crate::capdl::spec::Spec;
use crate::capdl::traverse::entries_related;
use crate::capdl::traverse::ranges_forward;
use crate::capdl::traverse::spec_ranges_forward;
use crate::capdl::traverse::stopped_at;
use crate::capdl::traverse::traversed;
use crate::capdl::traverse::FrameVisitor;

verus! {

/// What `f`, given the data and the length of each piece, makes of the
/// content of `frame`: of a fill, the same pieces with the data that `f`
/// makes; embedded content is cloned.
pub open spec fn total_data_with_length_outcome<D, M: Clone, D1, F: FnMut(&D, u64) -> D1>(
    f: F,
    frame: object::Frame<D, M>,
    r: Result<FrameInit<D1, M>, ()>,
) -> bool {
    match frame.init {
        FrameInit::Fill(fill) => match r {
            Ok(init) => init matches FrameInit::Fill(fill1) && entries_related(
                fill.entries@,
                fill1.entries@,
                |range: Range<u64>, d: D, d1: D1| f.ensures((&d, (range.end - range.start) as u64), d1),
            ),
            Err(_) => false,
        },
        FrameInit::Embedded(m) => r matches Ok(FrameInit::Embedded(m1)) && cloned::<M>(m, m1),
    }
}

/// Gives the data of each piece of each frame, with the length of the
/// piece, to a function that cannot fail.
pub struct ByDataWithLengthTotal<F> {
    pub f: F,
}

impl<D, M: Clone, D1, F: FnMut(&D, u64) -> D1> FrameVisitor<D, M, D1, M, ()> for ByDataWithLengthTotal<F> {
    open spec fn outcome(
        &self,
        frame: object::Frame<D, M>,
        is_root: bool,
        r: Result<FrameInit<D1, M>, ()>,
    ) -> bool {
        total_data_with_length_outcome(self.f, frame, r)
    }

    open spec fn accepts(&self, frame: object::Frame<D, M>) -> bool {
        &&& forall|d: &D, n: u64| self.f.requires((d, n))
        &&& frame.init matches FrameInit::Fill(fill) ==> ranges_forward(fill.entries@)
    }

    fn visit(&mut self, frame: &object::Frame<D, M>, is_root: bool) -> (r: Result<
        FrameInit<D1, M>,
        (),
    >) {
        match &frame.init {
            FrameInit::Embedded(embedded) => Ok(FrameInit::Embedded(embedded.clone())),
            FrameInit::Fill(fill) => {
                let mut out: Vec<FillEntry<D1>> = Vec::new();
                let mut i: usize = 0;
                while i < fill.entries.len()
                    invariant
                        i <= fill.entries@.len(),
                        out@.len() == i,
                        *self == *old(self),
                        frame.init matches FrameInit::Fill(fl) && fl == *fill,
                        forall|d: &D, n: u64| self.f.requires((d, n)),
                        ranges_forward(fill.entries@),
                        entries_related(
                            fill.entries@.take(i as int),
                            out@,
                            |range: Range<u64>, d: D, d1: D1|
                                old(self).f.ensures((&d, (range.end - range.start) as u64), d1),
                        ),
                    decreases fill.entries@.len() - i,
                {
                    let entry = &fill.entries[i];
                    let content = match &entry.content {
                        FillEntryContent::BootInfo(info) => FillEntryContent::BootInfo(*info),
                        FillEntryContent::Data(data) => FillEntryContent::Data((self.f)(data, entry.range.end - entry.range.start)),
                    };
                    out.push(
                        FillEntry {
                            range: Range { start: entry.range.start, end: entry.range.end },
                            content,
                        },
                    );
                    i = i + 1;
                }
                proof {
                    assert(fill.entries@.take(fill.entries@.len() as int) =~= fill.entries@);
                }
                Ok(FrameInit::Fill(Fill { entries: out }))
            },
        }
    }
}

/// What `f`, given the data of each piece, can make of the content of
/// `frame`: of a fill, the same pieces with the data that `f` makes;
/// embedded content is cloned.
pub open spec fn data_only_outcome<D, M: Clone, D1, E, F: FnMut(&D) -> Result<D1, E>>(
    f: F,
    frame: object::Frame<D, M>,
    r: Result<FrameInit<D1, M>, E>,
) -> bool {
    match frame.init {
        FrameInit::Fill(fill) => match r {
            Ok(init) => init matches FrameInit::Fill(fill1) && entries_related(
                fill.entries@,
                fill1.entries@,
                |range: Range<u64>, d: D, d1: D1| f.ensures((&d,), Ok::<D1, E>(d1)),
            ),
            Err(e) => exists|i: int| #[trigger] fails_on_data(f, fill.entries@, e, i),
        },
        FrameInit::Embedded(m) => r matches Ok(FrameInit::Embedded(m1)) && cloned::<M>(m, m1),
    }
}

/// Whether `f` fails with `e` on the data of the piece with the index `i`,
/// after it has succeeded on the data of every piece before that one.
pub open spec fn fails_on_data<D, D1, E, F: FnMut(&D) -> Result<D1, E>>(
    f: F,
    before: Seq<FillEntry<D>>,
    e: E,
    i: int,
) -> bool {
    &&& 0 <= i < before.len()
    &&& before[i].content matches FillEntryContent::Data(d) && f.ensures((&d,), Err::<D1, E>(e))
    &&& forall|j: int|
        0 <= j < i ==> ((#[trigger] before[j]).content matches FillEntryContent::Data(earlier)
            ==> exists|v: D1| #[trigger] f.ensures((&earlier,), Ok::<D1, E>(v)))
}

/// Gives the data of each piece of each frame to a function.
pub struct ByData<F> {
    pub f: F,
}

impl<D, M: Clone, D1, E, F: FnMut(&D) -> Result<D1, E>> FrameVisitor<D, M, D1, M, E> for ByData<F> {
    open spec fn outcome(
        &self,
        frame: object::Frame<D, M>,
        is_root: bool,
        r: Result<FrameInit<D1, M>, E>,
    ) -> bool {
        data_only_outcome(self.f, frame, r)
    }

    open spec fn accepts(&self, frame: object::Frame<D, M>) -> bool {
        &&& forall|d: &D| self.f.requires((d,))
    }

    fn visit(&mut self, frame: &object::Frame<D, M>, is_root: bool) -> (r: Result<
        FrameInit<D1, M>,
        E,
    >) {
        match &frame.init {
            FrameInit::Embedded(embedded) => Ok(FrameInit::Embedded(embedded.clone())),
            FrameInit::Fill(fill) => {
                let mut out: Vec<FillEntry<D1>> = Vec::new();
                let mut i: usize = 0;
                while i < fill.entries.len()
                    invariant
                        i <= fill.entries@.len(),
                        out@.len() == i,
                        *self == *old(self),
                        frame.init matches FrameInit::Fill(fl) && fl == *fill,
                        forall|d: &D| self.f.requires((d,)),
                        entries_related(
                            fill.entries@.take(i as int),
                            out@,
                            |range: Range<u64>, d: D, d1: D1|
                                old(self).f.ensures((&d,), Ok::<D1, E>(d1)),
                        ),
                    decreases fill.entries@.len() - i,
                {
                    let entry = &fill.entries[i];
                    let content = match &entry.content {
                        FillEntryContent::BootInfo(info) => FillEntryContent::BootInfo(*info),
                        FillEntryContent::Data(data) => match (self.f)(data) {
                            Ok(data1) => FillEntryContent::Data(data1),
                            Err(e) => {
                                proof {
                                    assert forall|j: int| 0 <= j < i implies ((
                                    #[trigger] fill.entries@[j]).content matches FillEntryContent::Data(
                                        earlier,
                                    ) ==> exists|v: D1| #[trigger]
                                        old(self).f.ensures((&earlier,), Ok::<D1, E>(v))) by {
                                        assert(fill.entries@.take(i as int)[j] == fill.entries@[j]);
                                        if fill.entries@[j].content is Data {
                                            let v = out@[j].content->Data_0;
                                            assert(old(self).f.ensures(
                                                (&fill.entries@[j].content->Data_0,),
                                                Ok::<D1, E>(v),
                                            ));
                                        }
                                    }
                                }
                                let failed: Result<FrameInit<D1, M>, E> = Err(e);
                                proof {
                                    assert(failed->Err_0 == e);
                                    assert(fails_on_data(
                                        old(self).f,
                                        fill.entries@,
                                        failed->Err_0,
                                        i as int,
                                    ));
                                    assert(exists|k: int| #[trigger]
                                        fails_on_data(
                                            old(self).f,
                                            fill.entries@,
                                            failed->Err_0,
                                            k,
                                        ));
                                    assert(frame.init matches FrameInit::Fill(fl) && fl == *fill);
                                    assert(data_only_outcome(old(self).f, *frame, failed));
                                }
                                return failed;
                            },
                        },
                    };
                    out.push(
                        FillEntry {
                            range: Range { start: entry.range.start, end: entry.range.end },
                            content,
                        },
                    );
                    i = i + 1;
                }
                proof {
                    assert(fill.entries@.take(fill.entries@.len() as int) =~= fill.entries@);
                }
                Ok(FrameInit::Fill(Fill { entries: out }))
            },
        }
    }
}

/// What `f`, given the data of each piece, makes of the content of `frame`:
/// of a fill, the same pieces with the data that `f` makes; embedded
/// content is cloned.
pub open spec fn total_data_only_outcome<D, M: Clone, D1, F: FnMut(&D) -> D1>(
    f: F,
    frame: object::Frame<D, M>,
    r: Result<FrameInit<D1, M>, ()>,
) -> bool {
    match frame.init {
        FrameInit::Fill(fill) => match r {
            Ok(init) => init matches FrameInit::Fill(fill1) && entries_related(
                fill.entries@,
                fill1.entries@,
                |range: Range<u64>, d: D, d1: D1| f.ensures((&d,), d1),
            ),
            Err(_) => false,
        },
        FrameInit::Embedded(m) => r matches Ok(FrameInit::Embedded(m1)) && cloned::<M>(m, m1),
    }
}

/// Gives the data of each piece of each frame to a function that cannot
/// fail.
pub struct ByDataTotal<F> {
    pub f: F,
}

impl<D, M: Clone, D1, F: FnMut(&D) -> D1> FrameVisitor<D, M, D1, M, ()> for ByDataTotal<F> {
    open spec fn outcome(
        &self,
        frame: object::Frame<D, M>,
        is_root: bool,
        r: Result<FrameInit<D1, M>, ()>,
    ) -> bool {
        total_data_only_outcome(self.f, frame, r)
    }

    open spec fn accepts(&self, frame: object::Frame<D, M>) -> bool {
        &&& forall|d: &D| self.f.requires((d,))
    }

    fn visit(&mut self, frame: &object::Frame<D, M>, is_root: bool) -> (r: Result<
        FrameInit<D1, M>,
        (),
    >) {
        match &frame.init {
            FrameInit::Embedded(embedded) => Ok(FrameInit::Embedded(embedded.clone())),
            FrameInit::Fill(fill) => {
                let mut out: Vec<FillEntry<D1>> = Vec::new();
                let mut i: usize = 0;
                while i < fill.entries.len()
                    invariant
                        i <= fill.entries@.len(),
                        out@.len() == i,
                        *self == *old(self),
                        frame.init matches FrameInit::Fill(fl) && fl == *fill,
                        forall|d: &D| self.f.requires((d,)),
                        entries_related(
                            fill.entries@.take(i as int),
                            out@,
                            |range: Range<u64>, d: D, d1: D1|
                                old(self).f.ensures((&d,), d1),
                        ),
                    decreases fill.entries@.len() - i,
                {
                    let entry = &fill.entries[i];
                    let content = match &entry.content {
                        FillEntryContent::BootInfo(info) => FillEntryContent::BootInfo(*info),
                        FillEntryContent::Data(data) => FillEntryContent::Data((self.f)(data)),
                    };
                    out.push(
                        FillEntry {
                            range: Range { start: entry.range.start, end: entry.range.end },
                            content,
                        },
                    );
                    i = i + 1;
                }
                proof {
                    assert(fill.entries@.take(fill.entries@.len() as int) =~= fill.entries@);
                }
                Ok(FrameInit::Fill(Fill { entries: out }))
            },
        }
    }
}

impl<N: Clone, D, M: Clone> Spec<N, D, M> {
    /// Makes a specification with the same objects and, for each piece of
    /// data of each frame, the data that `f` makes of the data and the
    /// length of the piece. Embedded content is cloned.
    pub fn traverse_data_with_length<D1, F: FnMut(&D, u64) -> D1>(&self, f: F) -> (r: Spec<N, D1, M>)
        requires
            forall|d: &D, n: u64| f.requires((d, n)),
            spec_ranges_forward(self),
        ensures
            traversed(
                self,
                &r,
                |frame: object::Frame<D, M>, is_root: bool, init: FrameInit<D1, M>|
                    total_data_with_length_outcome(f, frame, Ok::<FrameInit<D1, M>, ()>(init)),
            ),
    {
        let mut visitor = ByDataWithLengthTotal { f };
        match self.traverse_with(&mut visitor) {
            Ok(after) => {
                proof {
                    assert(traversed(
                        self,
                        &after,
                        |frame: object::Frame<D, M>, is_root: bool, init: FrameInit<D1, M>|
                            total_data_with_length_outcome(f, frame, Ok::<FrameInit<D1, M>, ()>(init)),
                    ));
                }
                after
            },
            Err(_) => vstd::pervasive::unreached(),
        }
    }

    /// Makes a specification with the same objects and, for each piece of
    /// data of each frame, the data that `f` makes of it. Embedded content
    /// is cloned. It stops at the first failure of `f` and returns it.
    pub fn traverse_data_fallible<D1, E, F: FnMut(&D) -> Result<D1, E>>(&self, f: F) -> (r: Result<Spec<N, D1, M>, E>)
        requires
            forall|d: &D| f.requires((d,)),
        ensures
            r matches Ok(after) ==> traversed(
                self,
                &after,
                |frame: object::Frame<D, M>, is_root: bool, init: FrameInit<D1, M>|
                    data_only_outcome(f, frame, Ok::<FrameInit<D1, M>, E>(init)),
            ),
            r matches Err(e) ==> exists|i: int| #[trigger] stopped_at(self, &(ByData { f }), e, i),
    {
        let mut visitor = ByData { f };
        let r = self.traverse_with(&mut visitor);
        proof {
            match &r {
                Ok(after) => {
                    assert(traversed(
                        self,
                        after,
                        |frame: object::Frame<D, M>, is_root: bool, init: FrameInit<D1, M>|
                            data_only_outcome(f, frame, Ok::<FrameInit<D1, M>, E>(init)),
                    ));
                },
                Err(e) => {},
            }
        }
        r
    }

    /// Makes a specification with the same objects and, for each piece of
    /// data of each frame, the data that `f` makes of it. Embedded content
    /// is cloned.
    pub fn traverse_data<D1, F: FnMut(&D) -> D1>(&self, f: F) -> (r: Spec<N, D1, M>)
        requires
            forall|d: &D| f.requires((d,)),
        ensures
            traversed(
                self,
                &r,
                |frame: object::Frame<D, M>, is_root: bool, init: FrameInit<D1, M>|
                    total_data_only_outcome(f, frame, Ok::<FrameInit<D1, M>, ()>(init)),
            ),
    {
        let mut visitor = ByDataTotal { f };
        match self.traverse_with(&mut visitor) {
            Ok(after) => {
                proof {
                    assert(traversed(
                        self,
                        &after,
                        |frame: object::Frame<D, M>, is_root: bool, init: FrameInit<D1, M>|
                            total_data_only_outcome(f, frame, Ok::<FrameInit<D1, M>, ()>(init)),
                    ));
                }
                after
            },
            Err(_) => vstd::pervasive::unreached(),
        }
    }
}

} // verus!

use core::ops::Range;
use vstd::prelude::*;

use crate::capdl::frame_init::Fill;
use crate::capdl::frame_init::FillEntry;
use crate::capdl::frame_init::FrameInit;
use crate::capdl::frame_init::NeverEmbedded;
use crate::capdl::object;
use crate::capdl::object_name::ObjectNamesLevel;
use crate::capdl::spec::Spec;
use crate::capdl::traverse::entries_related;
use crate::capdl::traverse::stopped_at;
use crate::capdl::traverse::traversed;
use crate::capdl::traverse::FrameVisitor;
use crate::capdl::traverse_data::clone_entries;

verus! {

/// Whether `after` has the pieces of `before` with clones of their data.
pub open spec fn entries_cloned<D: Clone>(before: Seq<FillEntry<D>>, after: Seq<FillEntry<D>>) -> bool {
    entries_related(before, after, |range: Range<u64>, d: D, d1: D| cloned::<D>(d, d1))
}

/// What `f`, given the embedded content of each frame, can make of the
/// content of `frame`: a fill is cloned, embedded content is what `f`
/// makes of it.
pub open spec fn embedded_outcome<D: Clone, M, M1, E, F: FnMut(&M) -> Result<M1, E>>(
    f: F,
    frame: object::Frame<D, M>,
    r: Result<FrameInit<D, M1>, E>,
) -> bool {
    match frame.init {
        FrameInit::Fill(fill) => r matches Ok(FrameInit::Fill(fill1)) && entries_cloned(
            fill.entries@,
            fill1.entries@,
        ),
        FrameInit::Embedded(m) => match r {
            Ok(init) => init matches FrameInit::Embedded(m1) && f.ensures((&m,), Ok::<M1, E>(m1)),
            Err(e) => f.ensures((&m,), Err::<M1, E>(e)),
        },
    }
}

/// Gives the embedded content of each frame to a function.
pub struct ByEmbedded<F> {
    pub f: F,
}

impl<D: Clone, M, M1, E, F: FnMut(&M) -> Result<M1, E>> FrameVisitor<
    D,
    M,
    D,
    M1,
    E,
> for ByEmbedded<F> {
    open spec fn outcome(
        &self,
        frame: object::Frame<D, M>,
        is_root: bool,
        r: Result<FrameInit<D, M1>, E>,
    ) -> bool {
        embedded_outcome(self.f, frame, r)
    }

    open spec fn accepts(&self, frame: object::Frame<D, M>) -> bool {
        forall|m: &M| self.f.requires((m,))
    }

    fn visit(&mut self, frame: &object::Frame<D, M>, is_root: bool) -> (r: Result<
        FrameInit<D, M1>,
        E,
    >) {
        match &frame.init {
            FrameInit::Fill(fill) => Ok(FrameInit::Fill(Fill { entries: clone_entries(&fill.entries) })),
            FrameInit::Embedded(embedded) => match (self.f)(embedded) {
                Ok(embedded1) => Ok(FrameInit::Embedded(embedded1)),
                Err(e) => Err(e),
            },
        }
    }
}

/// What `f`, given the embedded content of each frame, makes of the
/// content of `frame`: a fill is cloned, embedded content is what `f`
/// makes of it.
pub open spec fn total_embedded_outcome<D: Clone, M, M1, F: FnMut(&M) -> M1>(
    f: F,
    frame: object::Frame<D, M>,
    r: Result<FrameInit<D, M1>, ()>,
) -> bool {
    match frame.init {
        FrameInit::Fill(fill) => r matches Ok(FrameInit::Fill(fill1)) && entries_cloned(
            fill.entries@,
            fill1.entries@,
        ),
        FrameInit::Embedded(m) => r matches Ok(FrameInit::Embedded(m1)) && f.ensures((&m,), m1),
    }
}

/// Gives the embedded content of each frame to a function that cannot
/// fail.
pub struct ByEmbeddedTotal<F> {
    pub f: F,
}

impl<D: Clone, M, M1, F: FnMut(&M) -> M1> FrameVisitor<D, M, D, M1, ()> for ByEmbeddedTotal<F> {
    open spec fn outcome(
        &self,
        frame: object::Frame<D, M>,
        is_root: bool,
        r: Result<FrameInit<D, M1>, ()>,
    ) -> bool {
        total_embedded_outcome(self.f, frame, r)
    }

    open spec fn accepts(&self, frame: object::Frame<D, M>) -> bool {
        forall|m: &M| self.f.requires((m,))
    }

    fn visit(&mut self, frame: &object::Frame<D, M>, is_root: bool) -> (r: Result<
        FrameInit<D, M1>,
        (),
    >) {
        match &frame.init {
            FrameInit::Fill(fill) => Ok(FrameInit::Fill(Fill { entries: clone_entries(&fill.entries) })),
            FrameInit::Embedded(embedded) => Ok(FrameInit::Embedded((self.f)(embedded))),
        }
    }
}

/// What splitting makes of the content of `frame`: a clone of its fill,
/// held apart if frames are to be embedded and this one can be, and left
/// in place otherwise.
pub open spec fn split_outcome<D: Clone>(
    embed_frames: bool,
    granule_size_bits: u8,
    frame: object::Frame<D, NeverEmbedded>,
    is_root: bool,
    r: Result<FrameInit<D, Fill<D>>, ()>,
) -> bool {
    &&& frame.init matches FrameInit::Fill(fill)
    &&& r matches Ok(init)
    &&& if embed_frames && frame.spec_can_embed(granule_size_bits, is_root) {
        init matches FrameInit::Embedded(apart) && entries_cloned(fill.entries@, apart.entries@)
    } else {
        init matches FrameInit::Fill(kept) && entries_cloned(fill.entries@, kept.entries@)
    }
}

/// Decides for each frame whether its content is held apart.
pub struct Splitter {
    pub embed_frames: bool,
    pub granule_size_bits: u8,
}

impl<D: Clone> FrameVisitor<D, NeverEmbedded, D, Fill<D>, ()> for Splitter {
    open spec fn outcome(
        &self,
        frame: object::Frame<D, NeverEmbedded>,
        is_root: bool,
        r: Result<FrameInit<D, Fill<D>>, ()>,
    ) -> bool {
        split_outcome(self.embed_frames, self.granule_size_bits, frame, is_root, r)
    }

    open spec fn accepts(&self, frame: object::Frame<D, NeverEmbedded>) -> bool {
        true
    }

    fn visit(&mut self, frame: &object::Frame<D, NeverEmbedded>, is_root: bool) -> (r: Result<
        FrameInit<D, Fill<D>>,
        (),
    >) {
        let fill = frame.init.as_fill_infallible();
        let copy = Fill { entries: clone_entries(&fill.entries) };
        if self.embed_frames && frame.can_embed(self.granule_size_bits, is_root) {
            Ok(FrameInit::Embedded(copy))
        } else {
            Ok(FrameInit::Fill(copy))
        }
    }
}

impl<N: Clone, D: Clone, M> Spec<N, D, M> {
    /// Makes a specification with the same objects and, for each frame
    /// with embedded content, the embedded content that `f` makes of it.
    /// Fills are cloned. It stops at the first failure of `f` and returns
    /// it.
    pub fn traverse_embedded_frames_fallible<M1, E, F: FnMut(&M) -> Result<M1, E>>(
        &self,
        f: F,
    ) -> (r: Result<Spec<N, D, M1>, E>)
        requires
            forall|m: &M| f.requires((m,)),
        ensures
            r matches Ok(after) ==> traversed(
                self,
                &after,
                |frame: object::Frame<D, M>, is_root: bool, init: FrameInit<D, M1>|
                    embedded_outcome(f, frame, Ok::<FrameInit<D, M1>, E>(init)),
            ),
            r matches Err(e) ==> exists|i: int|
                #[trigger] stopped_at(self, &(ByEmbedded { f }), e, i),
    {
        let mut visitor = ByEmbedded { f };
        let r = self.traverse_with(&mut visitor);
        proof {
            match &r {
                Ok(after) => {
                    assert(traversed(
                        self,
                        after,
                        |frame: object::Frame<D, M>, is_root: bool, init: FrameInit<D, M1>|
                            embedded_outcome(f, frame, Ok::<FrameInit<D, M1>, E>(init)),
                    ));
                },
                Err(e) => {},
            }
        }
        r
    }

    /// Makes a specification with the same objects and, for each frame
    /// with embedded content, the embedded content that `f` makes of it.
    /// Fills are cloned.
    pub fn traverse_embedded_frames<M1, F: FnMut(&M) -> M1>(&self, f: F) -> (r: Spec<N, D, M1>)
        requires
            forall|m: &M| f.requires((m,)),
        ensures
            traversed(
                self,
                &r,
                |frame: object::Frame<D, M>, is_root: bool, init: FrameInit<D, M1>|
                    total_embedded_outcome(f, frame, Ok::<FrameInit<D, M1>, ()>(init)),
            ),
    {
        let mut visitor = ByEmbeddedTotal { f };
        match self.traverse_with(&mut visitor) {
            Ok(after) => {
                proof {
                    assert(traversed(
                        self,
                        &after,
                        |frame: object::Frame<D, M>, is_root: bool, init: FrameInit<D, M1>|
                            total_embedded_outcome(f, frame, Ok::<FrameInit<D, M1>, ()>(init)),
                    ));
                }
                after
            },
            Err(_) => vstd::pervasive::unreached(),
        }
    }
}

impl<N: Clone, D: Clone> Spec<N, D, NeverEmbedded> {
    /// Makes a specification with the same objects in which the content of
    /// each frame that can be embedded is held apart, if frames are to be
    /// embedded at all, and every other frame keeps its fill.
    pub fn split_embedded_frames(&self, embed_frames: bool, granule_size_bits: u8) -> (r: Spec<
        N,
        D,
        Fill<D>,
    >)
        ensures
            traversed(
                self,
                &r,
                |frame: object::Frame<D, NeverEmbedded>, is_root: bool, init: FrameInit<D, Fill<D>>|
                    split_outcome(
                        embed_frames,
                        granule_size_bits,
                        frame,
                        is_root,
                        Ok::<FrameInit<D, Fill<D>>, ()>(init),
                    ),
            ),
    {
        let mut visitor = Splitter { embed_frames, granule_size_bits };
        match self.traverse_with(&mut visitor) {
            Ok(after) => {
                proof {
                    assert(traversed(
                        self,
                        &after,
                        |
                            frame: object::Frame<D, NeverEmbedded>,
                            is_root: bool,
                            init: FrameInit<D, Fill<D>>,
                        |
                            split_outcome(
                                embed_frames,
                                granule_size_bits,
                                frame,
                                is_root,
                                Ok::<FrameInit<D, Fill<D>>, ()>(init),
                            ),
                    ));
                }
                after
            },
            Err(_) => vstd::pervasive::unreached(),
        }
    }
}

impl<D, M> Spec<Option<String>, D, M> {
    /// Takes the names away from the objects that do not keep them at
    /// `level`. Everything else stays as it is.
    pub fn apply_names_level(&mut self, level: &ObjectNamesLevel)
        ensures
            final(self).objects@.len() == old(self).objects@.len(),
            forall|i: int|
                0 <= i < old(self).objects@.len() ==> {
                    &&& (#[trigger] final(self).objects@[i]).object == old(self).objects@[i].object
                    &&& final(self).objects@[i].name == if level.keeps(old(self).objects@[i].object) {
                        old(self).objects@[i].name
                    } else {
                        None
                    }
                },
            final(self).irqs == old(self).irqs,
            final(self).asid_slots == old(self).asid_slots,
            final(self).root_objects == old(self).root_objects,
            final(self).untyped_covers == old(self).untyped_covers,
    {
        let mut i: usize = 0;
        while i < self.objects.len()
            invariant
                i <= self.objects@.len(),
                self.objects@.len() == old(self).objects@.len(),
                self.irqs == old(self).irqs,
                self.asid_slots == old(self).asid_slots,
                self.root_objects == old(self).root_objects,
                self.untyped_covers == old(self).untyped_covers,
                forall|k: int|
                    0 <= k < i ==> {
                        &&& (#[trigger] self.objects@[k]).object == old(self).objects@[k].object
                        &&& self.objects@[k].name == if level.keeps(old(self).objects@[k].object) {
                            old(self).objects@[k].name
                        } else {
                            None
                        }
                    },
                forall|k: int|
                    i <= k < self.objects@.len() ==> (#[trigger] self.objects@[k]) == old(
                        self,
                    ).objects@[k],
            decreases self.objects@.len() - i,
        {
            let keep = level.apply(&self.objects[i]).is_some();
            if !keep {
                self.objects[i].name = None;
            }
            i = i + 1;
        }
    }
}

} // verus!

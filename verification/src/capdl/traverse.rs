use core::ops::Range;
use vstd::prelude::*;

use crate::capdl::frame_init::Fill;
use crate::capdl::frame_init::FillEntry;
use crate::capdl::frame_init::FillEntryContent;
use crate::capdl::frame_init::FrameInit;
use crate::capdl::frame_init::NeverEmbedded;
use crate::capdl::object;
use crate::capdl::spec::CapTableEntry;
use crate::capdl::spec::IrqEntry;
use crate::capdl::spec::NamedObject;
use crate::capdl::spec::Object;
use crate::capdl::spec::ObjectId;
use crate::capdl::spec::Spec;
use crate::capdl::spec::UntypedCover;

verus! {

/// Whether the object with the index `i` is one of the root objects.
pub open spec fn is_root_id(root: Range<ObjectId>, i: int) -> bool {
    root.start <= i < root.end
}

/// Whether two records of a thread say the same.
pub open spec fn tcb_extra_agrees(a: object::TcbExtraInfo, b: object::TcbExtraInfo) -> bool {
    &&& a.ipc_buffer_addr == b.ipc_buffer_addr
    &&& a.affinity == b.affinity
    &&& a.prio == b.prio
    &&& a.max_prio == b.max_prio
    &&& a.resume == b.resume
    &&& a.ip == b.ip
    &&& a.sp == b.sp
    &&& a.gprs@ == b.gprs@
    &&& a.master_fault_ep == b.master_fault_ep
}

/// Whether `after` is the object `before`, which is no frame, carried over
/// as it is to a specification with other frame content.
pub open spec fn object_carried<D, M, D1, M1>(before: Object<D, M>, after: Object<D1, M1>) -> bool {
    match before {
        Object::Untyped(o) => after == Object::<D1, M1>::Untyped(o),
        Object::Endpoint => after is Endpoint,
        Object::Notification => after is Notification,
        Object::CNode(o) => after matches Object::CNode(o1) && o1.size_bits == o.size_bits
            && o1.slots@ == o.slots@,
        Object::Tcb(o) => after matches Object::Tcb(o1) && o1.slots@ == o.slots@
            && tcb_extra_agrees(*o.extra, *o1.extra),
        Object::Irq(o) => after matches Object::Irq(o1) && o1.slots@ == o.slots@,
        Object::VCpu => after is VCpu,
        Object::Frame(_) => false,
        Object::PageTable(o) => after matches Object::PageTable(o1) && o1.is_root == o.is_root
            && o1.level == o.level && o1.slots@ == o.slots@,
        Object::AsidPool(o) => after == Object::<D1, M1>::AsidPool(o),
        Object::ArmIrq(o) => after matches Object::ArmIrq(o1) && o1.slots@ == o.slots@ && *o1.extra
            == *o.extra,
        Object::IrqMsi(o) => after matches Object::IrqMsi(o1) && o1.slots@ == o.slots@ && *o1.extra
            == *o.extra,
        Object::IrqIOApic(o) => after matches Object::IrqIOApic(o1) && o1.slots@ == o.slots@
            && *o1.extra == *o.extra,
        Object::RiscvIrq(o) => after matches Object::RiscvIrq(o1) && o1.slots@ == o.slots@
            && o1.extra == o.extra,
        Object::IOPorts(o) => after == Object::<D1, M1>::IOPorts(o),
        Object::SchedContext(o) => after == Object::<D1, M1>::SchedContext(o),
        Object::Reply => after is Reply,
        Object::ArmSmc => after is ArmSmc,
    }
}

/// Whether `after` is what a traversal makes of `before`: the same objects
/// under clones of their names, the frames with the content that `init_rel`
/// relates to them, everything else as it was.
pub open spec fn traversed<N: Clone, D, M, D1, M1>(
    before: &Spec<N, D, M>,
    after: &Spec<N, D1, M1>,
    init_rel: spec_fn(object::Frame<D, M>, bool, FrameInit<D1, M1>) -> bool,
) -> bool {
    &&& after.objects@.len() == before.objects@.len()
    &&& forall|i: int|
        0 <= i < before.objects@.len() ==> {
            &&& cloned::<N>(before.objects@[i].name, (#[trigger] after.objects@[i]).name)
            &&& match before.objects@[i].object {
                Object::Frame(frame) => after.objects@[i].object matches Object::Frame(frame1)
                    && frame1.size_bits == frame.size_bits && frame1.paddr == frame.paddr
                    && init_rel(frame, is_root_id(before.root_objects, i), frame1.init),
                other => object_carried(other, after.objects@[i].object),
            }
        }
    &&& after.irqs@ == before.irqs@
    &&& after.asid_slots@ == before.asid_slots@
    &&& after.root_objects == before.root_objects
    &&& after.untyped_covers@ == before.untyped_covers@
}

/// Whether `after` has the pieces of `before`, over the same ranges, with
/// the data that `data_rel` relates to the data of each piece.
pub open spec fn entries_related<D, D1>(
    before: Seq<FillEntry<D>>,
    after: Seq<FillEntry<D1>>,
    data_rel: spec_fn(Range<u64>, D, D1) -> bool,
) -> bool {
    &&& after.len() == before.len()
    &&& forall|i: int|
        0 <= i < before.len() ==> {
            &&& (#[trigger] after[i]).range == before[i].range
            &&& match before[i].content {
                FillEntryContent::BootInfo(info) => after[i].content
                    == FillEntryContent::<D1>::BootInfo(info),
                FillEntryContent::Data(data) => after[i].content matches FillEntryContent::Data(
                    data1,
                ) && data_rel(before[i].range, data, data1),
            }
        }
}

/// Whether every piece with data covers a range that does not run
/// backwards.
pub open spec fn ranges_forward<D>(entries: Seq<FillEntry<D>>) -> bool {
    forall|i: int|
        0 <= i < entries.len() ==> (#[trigger] entries[i]).range.start <= entries[i].range.end
}

/// Whether the fill of every frame of the specification has ranges that do
/// not run backwards.
pub open spec fn spec_ranges_forward<N, D, M>(spec: &Spec<N, D, M>) -> bool {
    forall|i: int|
        0 <= i < spec.objects@.len() ==> ((#[trigger] spec.objects@[i]).object matches Object::Frame(
            frame,
        ) ==> (frame.init matches FrameInit::Fill(fill) ==> ranges_forward(fill.entries@)))
}

/// A copy of a table of capabilities.
pub fn copy_slots(slots: &Vec<CapTableEntry>) -> (r: Vec<CapTableEntry>)
    ensures
        r@ == slots@,
{
    let mut out: Vec<CapTableEntry> = Vec::new();
    let mut i: usize = 0;
    while i < slots.len()
        invariant
            i <= slots@.len(),
            out@ == slots@.take(i as int),
        decreases slots@.len() - i,
    {
        let entry = slots[i];
        out.push(entry);
        proof {
            assert(slots@.take(i as int).push(slots@[i as int]) =~= slots@.take(i + 1));
        }
        i = i + 1;
    }
    proof {
        assert(slots@.take(slots@.len() as int) =~= slots@);
    }
    out
}

/// A copy of a list of words.
pub fn copy_words(words: &Vec<u64>) -> (r: Vec<u64>)
    ensures
        r@ == words@,
{
    let mut out: Vec<u64> = Vec::new();
    out.extend_from_slice(words.as_slice());
    out
}

/// A copy of a list of object ids.
pub fn copy_ids(ids: &Vec<ObjectId>) -> (r: Vec<ObjectId>)
    ensures
        r@ == ids@,
{
    let mut out: Vec<ObjectId> = Vec::new();
    out.extend_from_slice(ids.as_slice());
    out
}

/// A copy of a list of interrupts.
pub fn copy_irqs(irqs: &Vec<IrqEntry>) -> (r: Vec<IrqEntry>)
    ensures
        r@ == irqs@,
{
    let mut out: Vec<IrqEntry> = Vec::new();
    let mut i: usize = 0;
    while i < irqs.len()
        invariant
            i <= irqs@.len(),
            out@ == irqs@.take(i as int),
        decreases irqs@.len() - i,
    {
        let entry = irqs[i];
        out.push(entry);
        proof {
            assert(irqs@.take(i as int).push(irqs@[i as int]) =~= irqs@.take(i + 1));
        }
        i = i + 1;
    }
    proof {
        assert(irqs@.take(irqs@.len() as int) =~= irqs@);
    }
    out
}

/// A copy of a list of covers.
pub fn copy_covers(covers: &Vec<UntypedCover>) -> (r: Vec<UntypedCover>)
    ensures
        r@ == covers@,
{
    let mut out: Vec<UntypedCover> = Vec::new();
    let mut i: usize = 0;
    while i < covers.len()
        invariant
            i <= covers@.len(),
            out@ == covers@.take(i as int),
        decreases covers@.len() - i,
    {
        let cover = &covers[i];
        out.push(
            UntypedCover {
                parent: cover.parent,
                children: Range { start: cover.children.start, end: cover.children.end },
            },
        );
        proof {
            assert(covers@.take(i as int).push(covers@[i as int]) =~= covers@.take(i + 1));
        }
        i = i + 1;
    }
    proof {
        assert(covers@.take(covers@.len() as int) =~= covers@);
    }
    out
}

/// A copy of the record of a thread.
pub fn copy_tcb_extra(extra: &object::TcbExtraInfo) -> (r: object::TcbExtraInfo)
    ensures
        tcb_extra_agrees(*extra, r),
{
    object::TcbExtraInfo {
        ipc_buffer_addr: extra.ipc_buffer_addr,
        affinity: extra.affinity,
        prio: extra.prio,
        max_prio: extra.max_prio,
        resume: extra.resume,
        ip: extra.ip,
        sp: extra.sp,
        gprs: copy_words(&extra.gprs),
        master_fault_ep: extra.master_fault_ep,
    }
}

/// The object carried over to a specification with other frame content, if
/// it is no frame; `None` for a frame.
pub fn carry_over<D, M, D1, M1>(object: &Object<D, M>) -> (r: Option<Object<D1, M1>>)
    ensures
        r.is_none() == (object is Frame),
        r matches Some(o) ==> object_carried(*object, o),
{
    match object {
        Object::Untyped(obj) => Some(Object::Untyped(*obj)),
        Object::Endpoint => Some(Object::Endpoint),
        Object::Notification => Some(Object::Notification),
        Object::CNode(obj) => Some(
            Object::CNode(object::CNode { size_bits: obj.size_bits, slots: copy_slots(&obj.slots) }),
        ),
        Object::Tcb(obj) => Some(
            Object::Tcb(
                object::Tcb {
                    slots: copy_slots(&obj.slots),
                    extra: Box::new(copy_tcb_extra(&*obj.extra)),
                },
            ),
        ),
        Object::Irq(obj) => Some(Object::Irq(object::Irq { slots: copy_slots(&obj.slots) })),
        Object::VCpu => Some(Object::VCpu),
        Object::Frame(_) => None,
        Object::PageTable(obj) => Some(
            Object::PageTable(
                object::PageTable {
                    is_root: obj.is_root,
                    level: obj.level,
                    slots: copy_slots(&obj.slots),
                },
            ),
        ),
        Object::AsidPool(obj) => Some(Object::AsidPool(*obj)),
        Object::ArmIrq(obj) => Some(
            Object::ArmIrq(
                object::ArmIrq { slots: copy_slots(&obj.slots), extra: Box::new(*obj.extra) },
            ),
        ),
        Object::IrqMsi(obj) => Some(
            Object::IrqMsi(
                object::IrqMsi { slots: copy_slots(&obj.slots), extra: Box::new(*obj.extra) },
            ),
        ),
        Object::IrqIOApic(obj) => Some(
            Object::IrqIOApic(
                object::IrqIOApic { slots: copy_slots(&obj.slots), extra: Box::new(*obj.extra) },
            ),
        ),
        Object::RiscvIrq(obj) => Some(
            Object::RiscvIrq(object::RiscvIrq { slots: copy_slots(&obj.slots), extra: obj.extra }),
        ),
        Object::IOPorts(obj) => Some(Object::IOPorts(*obj)),
        Object::SchedContext(obj) => Some(Object::SchedContext(*obj)),
        Object::Reply => Some(Object::Reply),
        Object::ArmSmc => Some(Object::ArmSmc),
    }
}

/// What a traversal does with the content of a frame.
pub trait FrameVisitor<D, M, D1, M1, E> {
    /// Whether `r` can be what the visitor makes of `frame`.
    spec fn outcome(
        &self,
        frame: object::Frame<D, M>,
        is_root: bool,
        r: Result<FrameInit<D1, M1>, E>,
    ) -> bool;

    /// Whether the visitor can be given `frame`.
    spec fn accepts(&self, frame: object::Frame<D, M>) -> bool;

    fn visit(&mut self, frame: &object::Frame<D, M>, is_root: bool) -> (r: Result<
        FrameInit<D1, M1>,
        E,
    >)
        requires
            old(self).accepts(*frame),
        ensures
            old(self).outcome(*frame, is_root, r),
            forall|f: object::Frame<D, M>, b: bool, o: Result<FrameInit<D1, M1>, E>|
                final(self).outcome(f, b, o) == old(self).outcome(f, b, o),
            forall|f: object::Frame<D, M>| final(self).accepts(f) == old(self).accepts(f),
    ;
}

/// Whether the visitor can be given every frame of the specification.
pub open spec fn accepts_all<N, D, M, D1, M1, E, V: FrameVisitor<D, M, D1, M1, E>>(
    spec: &Spec<N, D, M>,
    visitor: &V,
) -> bool {
    forall|i: int|
        0 <= i < spec.objects@.len() ==> ((#[trigger] spec.objects@[i]).object matches Object::Frame(
            frame,
        ) ==> visitor.accepts(frame))
}

/// Whether the visitor fails with `e` on the frame that is the object with
/// the index `i`, after it has succeeded on every frame before that one.
pub open spec fn stopped_at<N, D, M, D1, M1, E, V: FrameVisitor<D, M, D1, M1, E>>(
    spec: &Spec<N, D, M>,
    visitor: &V,
    e: E,
    i: int,
) -> bool {
    &&& 0 <= i < spec.objects@.len()
    &&& spec.objects@[i].object matches Object::Frame(frame) && visitor.outcome(
        frame,
        is_root_id(spec.root_objects, i),
        Err::<FrameInit<D1, M1>, E>(e),
    )
    &&& forall|k: int|
        0 <= k < i ==> ((#[trigger] spec.objects@[k]).object matches Object::Frame(earlier)
            ==> exists|init: FrameInit<D1, M1>| #[trigger]
            visitor.outcome(earlier, is_root_id(spec.root_objects, k), Ok::<FrameInit<D1, M1>, E>(init)))
}

impl<N: Clone, D, M> Spec<N, D, M> {
    /// Whether the object with the index `i` is one of the root objects.
    pub fn is_root(&self, i: usize) -> (r: bool)
        ensures
            r == is_root_id(self.root_objects, i as int),
    {
        self.root_objects.start as usize <= i && i < self.root_objects.end as usize
    }

    /// Makes a specification with the same objects and, for each frame, the
    /// content that `visitor` makes of the frame's content. It stops at the
    /// first frame that the visitor fails on and returns that failure.
    pub fn traverse_with<D1, M1, E, V: FrameVisitor<D, M, D1, M1, E>>(
        &self,
        visitor: &mut V,
    ) -> (r: Result<Spec<N, D1, M1>, E>)
        requires
            accepts_all::<N, D, M, D1, M1, E, V>(self, old(visitor)),
        ensures
            forall|f: object::Frame<D, M>, b: bool, o: Result<FrameInit<D1, M1>, E>|
                final(visitor).outcome(f, b, o) == old(visitor).outcome(f, b, o),
            forall|f: object::Frame<D, M>| final(visitor).accepts(f) == old(visitor).accepts(f),
            match r {
                Ok(after) => traversed(
                    self,
                    &after,
                    |frame: object::Frame<D, M>, is_root: bool, init: FrameInit<D1, M1>|
                        old(visitor).outcome(frame, is_root, Ok(init)),
                ),
                Err(e) => exists|i: int| #[trigger] stopped_at(self, old(visitor), e, i),
            },
    {
        let mut objects: Vec<NamedObject<N, D1, M1>> = Vec::new();
        let mut i: usize = 0;
        while i < self.objects.len()
            invariant
                i <= self.objects@.len(),
                objects@.len() == i,
                accepts_all::<N, D, M, D1, M1, E, V>(self, old(visitor)),
                forall|f: object::Frame<D, M>, b: bool, o: Result<FrameInit<D1, M1>, E>|
                    visitor.outcome(f, b, o) == old(visitor).outcome(f, b, o),
                forall|f: object::Frame<D, M>| visitor.accepts(f) == old(visitor).accepts(f),
                forall|k: int|
                    0 <= k < i ==> {
                        &&& cloned::<N>(self.objects@[k].name, (#[trigger] objects@[k]).name)
                        &&& match self.objects@[k].object {
                            Object::Frame(frame) => objects@[k].object matches Object::Frame(
                                frame1,
                            ) && frame1.size_bits == frame.size_bits && frame1.paddr
                                == frame.paddr && old(visitor).outcome(
                                frame,
                                is_root_id(self.root_objects, k),
                                Ok(frame1.init),
                            ),
                            other => object_carried(other, objects@[k].object),
                        }
                    },
            decreases self.objects@.len() - i,
        {
            let named = &self.objects[i];
            let object = match carry_over::<D, M, D1, M1>(&named.object) {
                Some(object) => object,
                None => match &named.object {
                    Object::Frame(frame) => {
                        assert(self.objects@[i as int].object matches Object::Frame(f)
                            && old(visitor).accepts(f));
                        match visitor.visit(frame, self.is_root(i)) {
                            Ok(init) => Object::Frame(
                                object::Frame { size_bits: frame.size_bits, paddr: frame.paddr, init },
                            ),
                            Err(e) => {
                                proof {
                                    assert forall|k: int| 0 <= k < i implies ((
                                    #[trigger] self.objects@[k]).object matches Object::Frame(
                                        earlier,
                                    ) ==> exists|init: FrameInit<D1, M1>| #[trigger]
                                        old(visitor).outcome(
                                            earlier,
                                            is_root_id(self.root_objects, k),
                                            Ok::<FrameInit<D1, M1>, E>(init),
                                        )) by {
                                        if self.objects@[k].object is Frame {
                                            let init = objects@[k].object->Frame_0.init;
                                            assert(old(visitor).outcome(
                                                self.objects@[k].object->Frame_0,
                                                is_root_id(self.root_objects, k),
                                                Ok::<FrameInit<D1, M1>, E>(init),
                                            ));
                                        }
                                    }
                                    assert(stopped_at(self, old(visitor), e, i as int));
                                }
                                let failed: Result<Spec<N, D1, M1>, E> = Err(e);
                                proof {
                                    assert(failed->Err_0 == e);
                                    assert(stopped_at(self, old(visitor), failed->Err_0, i as int));
                                    assert(exists|k: int| #[trigger]
                                        stopped_at(self, old(visitor), failed->Err_0, k));
                                }
                                return failed;
                            },
                        }
                    },
                    _ => vstd::pervasive::unreached(),
                },
            };
            objects.push(NamedObject { name: named.name.clone(), object });
            i = i + 1;
        }
        Ok(
            Spec {
                objects,
                irqs: copy_irqs(&self.irqs),
                asid_slots: copy_ids(&self.asid_slots),
                root_objects: Range { start: self.root_objects.start, end: self.root_objects.end },
                untyped_covers: copy_covers(&self.untyped_covers),
            },
        )
    }
}

} // verus!

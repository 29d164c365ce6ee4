use vstd::prelude::*;

use crate::capdl::object;
use crate::capdl::spec::ArchivedNamedObject;
use crate::capdl::spec::ArchivedObject;
use crate::capdl::spec::ArchivedObjectId;
use crate::capdl::spec::ArchivedSpec;
use crate::capdl::spec::TryFromObjectError;

verus! {

/// A kind of archived object, which an object may or may not be of.
pub trait IsArchivedObject<D, M>: Sized {
    /// The object as this kind, if it is of this kind.
    spec fn of_object(obj: &ArchivedObject<D, M>) -> Option<&Self>;

    fn from_object(obj: &ArchivedObject<D, M>) -> (r: Option<&Self>)
        ensures
            r == Self::of_object(obj),
    ;
}

/// The objects among the first `upto` of `objects` that are of the kind
/// `O`, each with its id, in the order of their ids.
pub open spec fn objects_of_kind<N, D, M, O: IsArchivedObject<D, M>>(
    objects: Seq<ArchivedNamedObject<N, D, M>>,
    upto: int,
) -> Seq<(ArchivedObjectId, O)>
    decreases upto,
{
    if upto <= 0 {
        Seq::empty()
    } else {
        let before = objects_of_kind::<N, D, M, O>(objects, upto - 1);
        match O::of_object(&objects[upto - 1].object) {
            Some(o) => before.push(((upto - 1) as u32, *o)),
            None => before,
        }
    }
}

/// Whether `picked` holds, with their ids and in the order of their ids,
/// exactly those objects of kind `O` among the first `upto` of `objects`
/// of which `f` says yes.
pub open spec fn picked_by<N, D, M, O: IsArchivedObject<D, M>, F: Fn(&O) -> bool>(
    objects: Seq<ArchivedNamedObject<N, D, M>>,
    upto: int,
    f: F,
    picked: Seq<(ArchivedObjectId, O)>,
) -> bool {
    &&& forall|k: int|
        0 <= k < picked.len() ==> {
            &&& 0 <= (#[trigger] picked[k]).0 < upto
            &&& O::of_object(&objects[picked[k].0 as int].object) == Some(&picked[k].1)
            &&& f.ensures((&picked[k].1,), true)
        }
    &&& forall|j: int, k: int| 0 <= j < k < picked.len() ==> picked[j].0 < picked[k].0
    &&& forall|i: int|
        0 <= i < upto ==> (match O::of_object(&(#[trigger] objects[i]).object) {
            Some(o) => f.ensures((o,), false) || exists|k: int|
                0 <= k < picked.len() && picked[k].0 == i,
            None => true,
        })
}

/// The values behind the references of `picked`.
pub open spec fn deref_all<O>(picked: Seq<(ArchivedObjectId, &O)>) -> Seq<(ArchivedObjectId, O)> {
    Seq::new(picked.len(), |i: int| (picked[i].0, *picked[i].1))
}

impl<N, D, M> ArchivedSpec<N, D, M> {
    /// Whether every object has an id and the root objects are among the
    /// objects.
    pub open spec fn wf(&self) -> bool {
        &&& self.objects@.len() <= u32::MAX
        &&& self.root_objects.start <= self.root_objects.end
        &&& self.root_objects.end <= self.objects@.len()
    }

    pub fn num_objects(&self) -> (r: usize)
        ensures
            r == self.objects@.len(),
    {
        self.objects.len()
    }

    pub fn named_object(&self, obj_id: ArchivedObjectId) -> (r: &ArchivedNamedObject<N, D, M>)
        requires
            obj_id < self.objects@.len(),
        ensures
            *r == self.objects@[obj_id as int],
    {
        &self.objects[obj_id as usize]
    }

    pub fn name(&self, obj_id: ArchivedObjectId) -> (r: &N)
        requires
            obj_id < self.objects@.len(),
        ensures
            *r == self.objects@[obj_id as int].name,
    {
        &self.named_object(obj_id).name
    }

    pub fn object(&self, obj_id: ArchivedObjectId) -> (r: &ArchivedObject<D, M>)
        requires
            obj_id < self.objects@.len(),
        ensures
            *r == self.objects@[obj_id as int].object,
    {
        &self.named_object(obj_id).object
    }

    /// The objects that are made directly from the untyped memory that the
    /// initializer is given.
    pub fn root_objects(&self) -> (r: &[ArchivedNamedObject<N, D, M>])
        requires
            self.wf(),
        ensures
            r@ == self.objects@.subrange(
                self.root_objects.start as int,
                self.root_objects.end as int,
            ),
    {
        vstd::slice::slice_subrange(
            self.objects.as_slice(),
            self.root_objects.start as usize,
            self.root_objects.end as usize,
        )
    }

    /// All objects with their names, in the order of their ids.
    pub fn named_objects(&self) -> (r: &[ArchivedNamedObject<N, D, M>])
        ensures
            r@ == self.objects@,
    {
        self.objects.as_slice()
    }

    /// All objects, in the order of their ids.
    pub fn objects(&self) -> (r: Vec<&ArchivedObject<D, M>>)
        ensures
            r@.len() == self.objects@.len(),
            forall|i: int| 0 <= i < r@.len() ==> *(#[trigger] r@[i]) == self.objects@[i].object,
    {
        let mut out: Vec<&ArchivedObject<D, M>> = Vec::new();
        let mut i: usize = 0;
        while i < self.objects.len()
            invariant
                i <= self.objects@.len(),
                out@.len() == i,
                forall|k: int| 0 <= k < i ==> *(#[trigger] out@[k]) == self.objects@[k].object,
            decreases self.objects@.len() - i,
        {
            out.push(&self.objects[i].object);
            i = i + 1;
        }
        out
    }

    /// The objects of the kind `O`, each with its id, in the order of their
    /// ids.
    pub fn filter_objects<'a, O: IsArchivedObject<D, M> + 'a>(&'a self) -> (r: Vec<
        (ArchivedObjectId, &'a O),
    >)
        requires
            self.wf(),
        ensures
            deref_all(r@) == objects_of_kind::<N, D, M, O>(self.objects@, self.objects@.len() as int),
    {
        let mut out: Vec<(ArchivedObjectId, &'a O)> = Vec::new();
        let mut i: usize = 0;
        while i < self.objects.len()
            invariant
                self.wf(),
                i <= self.objects@.len(),
                deref_all(out@) == objects_of_kind::<N, D, M, O>(self.objects@, i as int),
            decreases self.objects@.len() - i,
        {
            let ghost before = out@;
            match O::from_object(&self.objects[i].object) {
                Some(o) => {
                    out.push((i as u32, o));
                    proof {
                        assert(deref_all(out@) =~= deref_all(before).push((i as u32, *o)));
                    }
                },
                None => {},
            }
            i = i + 1;
        }
        out
    }

    /// The objects of the kind `O` of which `f` says yes, each with its
    /// id, in the order of their ids.
    pub fn filter_objects_with<'a, O: IsArchivedObject<D, M> + 'a, F: Fn(&O) -> bool>(
        &'a self,
        f: F,
    ) -> (r: Vec<(ArchivedObjectId, &'a O)>)
        requires
            self.wf(),
            forall|o: &O| f.requires((o,)),
        ensures
            picked_by::<N, D, M, O, F>(self.objects@, self.objects@.len() as int, f, deref_all(r@)),
    {
        let mut out: Vec<(ArchivedObjectId, &'a O)> = Vec::new();
        let mut i: usize = 0;
        while i < self.objects.len()
            invariant
                self.wf(),
                forall|o: &O| f.requires((o,)),
                i <= self.objects@.len(),
                picked_by::<N, D, M, O, F>(self.objects@, i as int, f, deref_all(out@)),
            decreases self.objects@.len() - i,
        {
            let ghost before = deref_all(out@);
            match O::from_object(&self.objects[i].object) {
                Some(o) => {
                    if f(o) {
                        out.push((i as u32, o));
                        proof {
                            let after = deref_all(out@);
                            assert(after =~= before.push((i as u32, *o)));
                            assert(after[after.len() - 1].0 == i);
                            assert forall|j: int| 0 <= j < i + 1 implies (match O::of_object(
                                &(#[trigger] self.objects@[j]).object,
                            ) {
                                Some(x) => f.ensures((x,), false) || exists|k: int|
                                    0 <= k < after.len() && after[k].0 == j,
                                None => true,
                            }) by {
                                if j < i {
                                    match O::of_object(&self.objects@[j].object) {
                                        Some(x) => {
                                            if !f.ensures((x,), false) {
                                                let k = choose|k: int|
                                                    0 <= k < before.len() && before[k].0 == j;
                                                assert(after[k].0 == j);
                                            }
                                        },
                                        None => {},
                                    }
                                } else {
                                    assert(after[after.len() - 1].0 == j);
                                }
                            }
                        }
                    }
                },
                None => {},
            }
            i = i + 1;
        }
        out
    }

    /// The object with the id `obj_id` as the kind `O`, if it is of that
    /// kind.
    pub fn lookup_object<'a, O: IsArchivedObject<D, M> + 'a>(
        &'a self,
        obj_id: ArchivedObjectId,
    ) -> (r: Result<&'a O, TryFromObjectError>)
        requires
            obj_id < self.objects@.len(),
        ensures
            match O::of_object(&self.objects@[obj_id as int].object) {
                Some(o) => r == Ok::<&'a O, TryFromObjectError>(o),
                None => r is Err,
            },
    {
        match O::from_object(self.object(obj_id)) {
            Some(o) => Ok(o),
            None => Err(TryFromObjectError),
        }
    }
}

impl<D, M> IsArchivedObject<D, M> for object::ArchivedUntyped {
    open spec fn of_object(obj: &ArchivedObject<D, M>) -> Option<&Self> {
        match obj {
            ArchivedObject::Untyped(o) => Some(o),
            _ => None,
        }
    }

    fn from_object(obj: &ArchivedObject<D, M>) -> (r: Option<&Self>) {
        match obj {
            ArchivedObject::Untyped(o) => Some(o),
            _ => None,
        }
    }
}

impl<D, M> IsArchivedObject<D, M> for object::ArchivedCNode {
    open spec fn of_object(obj: &ArchivedObject<D, M>) -> Option<&Self> {
        match obj {
            ArchivedObject::CNode(o) => Some(o),
            _ => None,
        }
    }

    fn from_object(obj: &ArchivedObject<D, M>) -> (r: Option<&Self>) {
        match obj {
            ArchivedObject::CNode(o) => Some(o),
            _ => None,
        }
    }
}

impl<D, M> IsArchivedObject<D, M> for object::ArchivedTcb {
    open spec fn of_object(obj: &ArchivedObject<D, M>) -> Option<&Self> {
        match obj {
            ArchivedObject::Tcb(o) => Some(o),
            _ => None,
        }
    }

    fn from_object(obj: &ArchivedObject<D, M>) -> (r: Option<&Self>) {
        match obj {
            ArchivedObject::Tcb(o) => Some(o),
            _ => None,
        }
    }
}

impl<D, M> IsArchivedObject<D, M> for object::ArchivedIrq {
    open spec fn of_object(obj: &ArchivedObject<D, M>) -> Option<&Self> {
        match obj {
            ArchivedObject::Irq(o) => Some(o),
            _ => None,
        }
    }

    fn from_object(obj: &ArchivedObject<D, M>) -> (r: Option<&Self>) {
        match obj {
            ArchivedObject::Irq(o) => Some(o),
            _ => None,
        }
    }
}

impl<D, M> IsArchivedObject<D, M> for object::ArchivedFrame<D, M> {
    open spec fn of_object(obj: &ArchivedObject<D, M>) -> Option<&Self> {
        match obj {
            ArchivedObject::Frame(o) => Some(o),
            _ => None,
        }
    }

    fn from_object(obj: &ArchivedObject<D, M>) -> (r: Option<&Self>) {
        match obj {
            ArchivedObject::Frame(o) => Some(o),
            _ => None,
        }
    }
}

impl<D, M> IsArchivedObject<D, M> for object::ArchivedPageTable {
    open spec fn of_object(obj: &ArchivedObject<D, M>) -> Option<&Self> {
        match obj {
            ArchivedObject::PageTable(o) => Some(o),
            _ => None,
        }
    }

    fn from_object(obj: &ArchivedObject<D, M>) -> (r: Option<&Self>) {
        match obj {
            ArchivedObject::PageTable(o) => Some(o),
            _ => None,
        }
    }
}

impl<D, M> IsArchivedObject<D, M> for object::ArchivedAsidPool {
    open spec fn of_object(obj: &ArchivedObject<D, M>) -> Option<&Self> {
        match obj {
            ArchivedObject::AsidPool(o) => Some(o),
            _ => None,
        }
    }

    fn from_object(obj: &ArchivedObject<D, M>) -> (r: Option<&Self>) {
        match obj {
            ArchivedObject::AsidPool(o) => Some(o),
            _ => None,
        }
    }
}

impl<D, M> IsArchivedObject<D, M> for object::ArchivedArmIrq {
    open spec fn of_object(obj: &ArchivedObject<D, M>) -> Option<&Self> {
        match obj {
            ArchivedObject::ArmIrq(o) => Some(o),
            _ => None,
        }
    }

    fn from_object(obj: &ArchivedObject<D, M>) -> (r: Option<&Self>) {
        match obj {
            ArchivedObject::ArmIrq(o) => Some(o),
            _ => None,
        }
    }
}

impl<D, M> IsArchivedObject<D, M> for object::ArchivedIrqMsi {
    open spec fn of_object(obj: &ArchivedObject<D, M>) -> Option<&Self> {
        match obj {
            ArchivedObject::IrqMsi(o) => Some(o),
            _ => None,
        }
    }

    fn from_object(obj: &ArchivedObject<D, M>) -> (r: Option<&Self>) {
        match obj {
            ArchivedObject::IrqMsi(o) => Some(o),
            _ => None,
        }
    }
}

impl<D, M> IsArchivedObject<D, M> for object::ArchivedIrqIOApic {
    open spec fn of_object(obj: &ArchivedObject<D, M>) -> Option<&Self> {
        match obj {
            ArchivedObject::IrqIOApic(o) => Some(o),
            _ => None,
        }
    }

    fn from_object(obj: &ArchivedObject<D, M>) -> (r: Option<&Self>) {
        match obj {
            ArchivedObject::IrqIOApic(o) => Some(o),
            _ => None,
        }
    }
}

impl<D, M> IsArchivedObject<D, M> for object::ArchivedRiscvIrq {
    open spec fn of_object(obj: &ArchivedObject<D, M>) -> Option<&Self> {
        match obj {
            ArchivedObject::RiscvIrq(o) => Some(o),
            _ => None,
        }
    }

    fn from_object(obj: &ArchivedObject<D, M>) -> (r: Option<&Self>) {
        match obj {
            ArchivedObject::RiscvIrq(o) => Some(o),
            _ => None,
        }
    }
}

impl<D, M> IsArchivedObject<D, M> for object::ArchivedIOPorts {
    open spec fn of_object(obj: &ArchivedObject<D, M>) -> Option<&Self> {
        match obj {
            ArchivedObject::IOPorts(o) => Some(o),
            _ => None,
        }
    }

    fn from_object(obj: &ArchivedObject<D, M>) -> (r: Option<&Self>) {
        match obj {
            ArchivedObject::IOPorts(o) => Some(o),
            _ => None,
        }
    }
}

impl<D, M> IsArchivedObject<D, M> for object::ArchivedSchedContext {
    open spec fn of_object(obj: &ArchivedObject<D, M>) -> Option<&Self> {
        match obj {
            ArchivedObject::SchedContext(o) => Some(o),
            _ => None,
        }
    }

    fn from_object(obj: &ArchivedObject<D, M>) -> (r: Option<&Self>) {
        match obj {
            ArchivedObject::SchedContext(o) => Some(o),
            _ => None,
        }
    }
}

} // verus!

use vstd::prelude::*;

use crate::capdl::cap;
use crate::capdl::object;
use crate::capdl::spec::ArchivedCap;
use crate::capdl::spec::ArchivedCapSlot;
use crate::capdl::spec::ArchivedCapTableEntry;
use crate::capdl::spec::Cap;
use crate::capdl::spec::CapSlot;
use crate::capdl::spec::CapTableEntry;
use crate::capdl::spec::TryFromCapError;

verus! {

/// The capability of the first entry of `slots` that is for `slot`, if
/// there is such an entry.
pub open spec fn find_slot<C>(slots: Seq<(u32, C)>, slot: u32) -> Option<C>
    decreases slots.len(),
{
    if slots.len() == 0 {
        None
    } else if slots[0].0 == slot {
        Some(slots[0].1)
    } else {
        find_slot(slots.skip(1), slot)
    }
}

/// Looking from entry `i` on finds what looking from the start finds, if no
/// entry before `i` is for `slot`.
pub proof fn lemma_find_slot_from<C>(slots: Seq<(u32, C)>, slot: u32, i: int)
    requires
        0 <= i <= slots.len(),
        forall|j: int| 0 <= j < i ==> (#[trigger] slots[j]).0 != slot,
    ensures
        find_slot(slots, slot) == find_slot(slots.skip(i), slot),
    decreases i,
{
    if i == 0 {
        assert(slots.skip(0) =~= slots);
    } else {
        lemma_find_slot_from(slots, slot, i - 1);
        let before = slots.skip(i - 1);
        assert(before[0] == slots[i - 1]);
        assert(before.skip(1) =~= slots.skip(i));
    }
}

/// Looks `slot` up in a table of capabilities.
pub fn lookup_slot<'a, C>(slots: &'a [(u32, C)], slot: u32) -> (r: Option<&'a C>)
    ensures
        match find_slot(slots@, slot) {
            Some(c) => r == Some(&c),
            None => r.is_none(),
        },
{
    let mut i: usize = 0;
    while i < slots.len()
        invariant
            i <= slots@.len(),
            forall|j: int| 0 <= j < i ==> (#[trigger] slots@[j]).0 != slot,
        decreases slots@.len() - i,
    {
        if slots[i].0 == slot {
            proof {
                lemma_find_slot_from(slots@, slot, i as int);
                assert(slots@.skip(i as int)[0] == slots@[i as int]);
            }
            return Some(&slots[i].1);
        }
        i = i + 1;
    }
    proof {
        lemma_find_slot_from(slots@, slot, slots@.len() as int);
    }
    None
}

/// An object that has a table of capabilities.
pub trait HasCapTable {
    spec fn spec_slots(&self) -> Seq<CapTableEntry>;

    fn slots(&self) -> (r: &[CapTableEntry])
        ensures
            r@ == self.spec_slots(),
    ;

    /// The capability in `slot`, if the slot is filled.
    fn maybe_slot(&self, slot: CapSlot) -> (r: Option<&Cap>)
        ensures
            match find_slot(self.spec_slots(), slot) {
                Some(c) => r == Some(&c),
                None => r.is_none(),
            },
    {
        lookup_slot(self.slots(), slot)
    }
}

/// An archived object that has a table of capabilities.
pub trait HasArchivedCapTable {
    spec fn spec_slots(&self) -> Seq<ArchivedCapTableEntry>;

    fn slots(&self) -> (r: &[ArchivedCapTableEntry])
        ensures
            r@ == self.spec_slots(),
    ;

    /// The capability in `slot`, if the slot is filled.
    fn maybe_slot(&self, slot: ArchivedCapSlot) -> (r: Option<&ArchivedCap>)
        ensures
            match find_slot(self.spec_slots(), slot) {
                Some(c) => r == Some(&c),
                None => r.is_none(),
            },
    {
        lookup_slot(self.slots(), slot)
    }
}

impl HasCapTable for object::CNode {
    open spec fn spec_slots(&self) -> Seq<CapTableEntry> {
        self.slots@
    }

    fn slots(&self) -> (r: &[CapTableEntry]) {
        self.slots.as_slice()
    }
}

impl HasCapTable for object::Tcb {
    open spec fn spec_slots(&self) -> Seq<CapTableEntry> {
        self.slots@
    }

    fn slots(&self) -> (r: &[CapTableEntry]) {
        self.slots.as_slice()
    }
}

impl HasCapTable for object::Irq {
    open spec fn spec_slots(&self) -> Seq<CapTableEntry> {
        self.slots@
    }

    fn slots(&self) -> (r: &[CapTableEntry]) {
        self.slots.as_slice()
    }
}

impl HasCapTable for object::PageTable {
    open spec fn spec_slots(&self) -> Seq<CapTableEntry> {
        self.slots@
    }

    fn slots(&self) -> (r: &[CapTableEntry]) {
        self.slots.as_slice()
    }
}

impl HasCapTable for object::ArmIrq {
    open spec fn spec_slots(&self) -> Seq<CapTableEntry> {
        self.slots@
    }

    fn slots(&self) -> (r: &[CapTableEntry]) {
        self.slots.as_slice()
    }
}

impl HasCapTable for object::IrqMsi {
    open spec fn spec_slots(&self) -> Seq<CapTableEntry> {
        self.slots@
    }

    fn slots(&self) -> (r: &[CapTableEntry]) {
        self.slots.as_slice()
    }
}

impl HasCapTable for object::IrqIOApic {
    open spec fn spec_slots(&self) -> Seq<CapTableEntry> {
        self.slots@
    }

    fn slots(&self) -> (r: &[CapTableEntry]) {
        self.slots.as_slice()
    }
}

impl HasCapTable for object::RiscvIrq {
    open spec fn spec_slots(&self) -> Seq<CapTableEntry> {
        self.slots@
    }

    fn slots(&self) -> (r: &[CapTableEntry]) {
        self.slots.as_slice()
    }
}

impl HasArchivedCapTable for object::ArchivedCNode {
    open spec fn spec_slots(&self) -> Seq<ArchivedCapTableEntry> {
        self.slots@
    }

    fn slots(&self) -> (r: &[ArchivedCapTableEntry]) {
        self.slots.as_slice()
    }
}

impl HasArchivedCapTable for object::ArchivedTcb {
    open spec fn spec_slots(&self) -> Seq<ArchivedCapTableEntry> {
        self.slots@
    }

    fn slots(&self) -> (r: &[ArchivedCapTableEntry]) {
        self.slots.as_slice()
    }
}

impl HasArchivedCapTable for object::ArchivedIrq {
    open spec fn spec_slots(&self) -> Seq<ArchivedCapTableEntry> {
        self.slots@
    }

    fn slots(&self) -> (r: &[ArchivedCapTableEntry]) {
        self.slots.as_slice()
    }
}

impl HasArchivedCapTable for object::ArchivedPageTable {
    open spec fn spec_slots(&self) -> Seq<ArchivedCapTableEntry> {
        self.slots@
    }

    fn slots(&self) -> (r: &[ArchivedCapTableEntry]) {
        self.slots.as_slice()
    }
}

impl HasArchivedCapTable for object::ArchivedArmIrq {
    open spec fn spec_slots(&self) -> Seq<ArchivedCapTableEntry> {
        self.slots@
    }

    fn slots(&self) -> (r: &[ArchivedCapTableEntry]) {
        self.slots.as_slice()
    }
}

impl HasArchivedCapTable for object::ArchivedIrqMsi {
    open spec fn spec_slots(&self) -> Seq<ArchivedCapTableEntry> {
        self.slots@
    }

    fn slots(&self) -> (r: &[ArchivedCapTableEntry]) {
        self.slots.as_slice()
    }
}

impl HasArchivedCapTable for object::ArchivedIrqIOApic {
    open spec fn spec_slots(&self) -> Seq<ArchivedCapTableEntry> {
        self.slots@
    }

    fn slots(&self) -> (r: &[ArchivedCapTableEntry]) {
        self.slots.as_slice()
    }
}

impl HasArchivedCapTable for object::ArchivedRiscvIrq {
    open spec fn spec_slots(&self) -> Seq<ArchivedCapTableEntry> {
        self.slots@
    }

    fn slots(&self) -> (r: &[ArchivedCapTableEntry]) {
        self.slots.as_slice()
    }
}

/// The slot of a thread's capability space.
pub const TCB_SLOT_CSPACE: u32 = 0;

/// The slot of a thread's address space.
pub const TCB_SLOT_VSPACE: u32 = 1;

/// The slot of the frame of a thread's IPC buffer.
pub const TCB_SLOT_IPC_BUFFER: u32 = 4;

/// The slot of a thread's fault endpoint on a kernel with scheduling
/// contexts.
pub const TCB_SLOT_FAULT_EP: u32 = 5;

/// The slot of a thread's scheduling context.
pub const TCB_SLOT_SC: u32 = 6;

/// The slot of a thread's temporary fault endpoint.
pub const TCB_SLOT_TEMP_FAULT_EP: u32 = 7;

/// The slot of the notification that a thread is bound to.
pub const TCB_SLOT_BOUND_NOTIFICATION: u32 = 8;

/// The slot of a thread's virtual CPU.
pub const TCB_SLOT_VCPU: u32 = 9;

/// The slot of the notification that an interrupt signals.
pub const IRQ_SLOT_NOTIFICATION: u32 = 0;

impl object::Tcb {
    /// The root of the thread's capability space.
    ///
    /// The slot must hold a capability of that kind.
    pub fn cspace(&self) -> (r: &cap::CNode)
        requires
            find_slot(self.slots@, TCB_SLOT_CSPACE) matches Some(Cap::CNode(_)),
        ensures
            find_slot(self.slots@, TCB_SLOT_CSPACE) == Some(Cap::CNode(*r)),
    {
        match self.maybe_slot(TCB_SLOT_CSPACE) {
            Some(Cap::CNode(cap)) => cap,
            _ => vstd::pervasive::unreached(),
        }
    }

    /// The root of the thread's address space.
    ///
    /// The slot must hold a capability of that kind.
    pub fn vspace(&self) -> (r: &cap::PageTable)
        requires
            find_slot(self.slots@, TCB_SLOT_VSPACE) matches Some(Cap::PageTable(_)),
        ensures
            find_slot(self.slots@, TCB_SLOT_VSPACE) == Some(Cap::PageTable(*r)),
    {
        match self.maybe_slot(TCB_SLOT_VSPACE) {
            Some(Cap::PageTable(cap)) => cap,
            _ => vstd::pervasive::unreached(),
        }
    }

    /// The frame of the thread's IPC buffer.
    ///
    /// The slot must hold a capability of that kind.
    pub fn ipc_buffer(&self) -> (r: &cap::Frame)
        requires
            find_slot(self.slots@, TCB_SLOT_IPC_BUFFER) matches Some(Cap::Frame(_)),
        ensures
            find_slot(self.slots@, TCB_SLOT_IPC_BUFFER) == Some(Cap::Frame(*r)),
    {
        match self.maybe_slot(TCB_SLOT_IPC_BUFFER) {
            Some(Cap::Frame(cap)) => cap,
            _ => vstd::pervasive::unreached(),
        }
    }

    /// The thread's fault endpoint on a kernel with scheduling contexts.
    ///
    /// The slot must be empty or hold a capability of that kind.
    pub fn mcs_fault_ep(&self) -> (r: Option<&cap::Endpoint>)
        requires
            find_slot(self.slots@, TCB_SLOT_FAULT_EP) matches Some(c) ==> c is Endpoint,
        ensures
            match find_slot(self.slots@, TCB_SLOT_FAULT_EP) {
                Some(Cap::Endpoint(cap)) => r == Some(&cap),
                _ => r.is_none(),
            },
    {
        match self.maybe_slot(TCB_SLOT_FAULT_EP) {
            Some(Cap::Endpoint(cap)) => Some(cap),
            Some(_) => vstd::pervasive::unreached(),
            None => None,
        }
    }

    /// The thread's scheduling context.
    ///
    /// The slot must be empty or hold a capability of that kind.
    pub fn sc(&self) -> (r: Option<&cap::SchedContext>)
        requires
            find_slot(self.slots@, TCB_SLOT_SC) matches Some(c) ==> c is SchedContext,
        ensures
            match find_slot(self.slots@, TCB_SLOT_SC) {
                Some(Cap::SchedContext(cap)) => r == Some(&cap),
                _ => r.is_none(),
            },
    {
        match self.maybe_slot(TCB_SLOT_SC) {
            Some(Cap::SchedContext(cap)) => Some(cap),
            Some(_) => vstd::pervasive::unreached(),
            None => None,
        }
    }

    /// The thread's temporary fault endpoint.
    ///
    /// The slot must be empty or hold a capability of that kind.
    pub fn temp_fault_ep(&self) -> (r: Option<&cap::Endpoint>)
        requires
            find_slot(self.slots@, TCB_SLOT_TEMP_FAULT_EP) matches Some(c) ==> c is Endpoint,
        ensures
            match find_slot(self.slots@, TCB_SLOT_TEMP_FAULT_EP) {
                Some(Cap::Endpoint(cap)) => r == Some(&cap),
                _ => r.is_none(),
            },
    {
        match self.maybe_slot(TCB_SLOT_TEMP_FAULT_EP) {
            Some(Cap::Endpoint(cap)) => Some(cap),
            Some(_) => vstd::pervasive::unreached(),
            None => None,
        }
    }

    /// The notification that the thread is bound to.
    ///
    /// The slot must be empty or hold a capability of that kind.
    pub fn bound_notification(&self) -> (r: Option<&cap::Notification>)
        requires
            find_slot(self.slots@, TCB_SLOT_BOUND_NOTIFICATION) matches Some(c) ==> c is Notification,
        ensures
            match find_slot(self.slots@, TCB_SLOT_BOUND_NOTIFICATION) {
                Some(Cap::Notification(cap)) => r == Some(&cap),
                _ => r.is_none(),
            },
    {
        match self.maybe_slot(TCB_SLOT_BOUND_NOTIFICATION) {
            Some(Cap::Notification(cap)) => Some(cap),
            Some(_) => vstd::pervasive::unreached(),
            None => None,
        }
    }

    /// The thread's virtual CPU.
    ///
    /// The slot must be empty or hold a capability of that kind.
    pub fn vcpu(&self) -> (r: Option<&cap::VCpu>)
        requires
            find_slot(self.slots@, TCB_SLOT_VCPU) matches Some(c) ==> c is VCpu,
        ensures
            match find_slot(self.slots@, TCB_SLOT_VCPU) {
                Some(Cap::VCpu(cap)) => r == Some(&cap),
                _ => r.is_none(),
            },
    {
        match self.maybe_slot(TCB_SLOT_VCPU) {
            Some(Cap::VCpu(cap)) => Some(cap),
            Some(_) => vstd::pervasive::unreached(),
            None => None,
        }
    }
}

impl object::Irq {
    /// The notification that the interrupt signals.
    ///
    /// The slot must be empty or hold a capability of that kind.
    pub fn notification(&self) -> (r: Option<&cap::Notification>)
        requires
            find_slot(self.slots@, IRQ_SLOT_NOTIFICATION) matches Some(c) ==> c is Notification,
        ensures
            match find_slot(self.slots@, IRQ_SLOT_NOTIFICATION) {
                Some(Cap::Notification(cap)) => r == Some(&cap),
                _ => r.is_none(),
            },
    {
        match self.maybe_slot(IRQ_SLOT_NOTIFICATION) {
            Some(Cap::Notification(cap)) => Some(cap),
            Some(_) => vstd::pervasive::unreached(),
            None => None,
        }
    }
}

impl object::ArmIrq {
    /// The notification that the interrupt signals.
    ///
    /// The slot must be empty or hold a capability of that kind.
    pub fn notification(&self) -> (r: Option<&cap::Notification>)
        requires
            find_slot(self.slots@, IRQ_SLOT_NOTIFICATION) matches Some(c) ==> c is Notification,
        ensures
            match find_slot(self.slots@, IRQ_SLOT_NOTIFICATION) {
                Some(Cap::Notification(cap)) => r == Some(&cap),
                _ => r.is_none(),
            },
    {
        match self.maybe_slot(IRQ_SLOT_NOTIFICATION) {
            Some(Cap::Notification(cap)) => Some(cap),
            Some(_) => vstd::pervasive::unreached(),
            None => None,
        }
    }
}

impl object::IrqMsi {
    /// The notification that the interrupt signals.
    ///
    /// The slot must be empty or hold a capability of that kind.
    pub fn notification(&self) -> (r: Option<&cap::Notification>)
        requires
            find_slot(self.slots@, IRQ_SLOT_NOTIFICATION) matches Some(c) ==> c is Notification,
        ensures
            match find_slot(self.slots@, IRQ_SLOT_NOTIFICATION) {
                Some(Cap::Notification(cap)) => r == Some(&cap),
                _ => r.is_none(),
            },
    {
        match self.maybe_slot(IRQ_SLOT_NOTIFICATION) {
            Some(Cap::Notification(cap)) => Some(cap),
            Some(_) => vstd::pervasive::unreached(),
            None => None,
        }
    }
}

impl object::IrqIOApic {
    /// The notification that the interrupt signals.
    ///
    /// The slot must be empty or hold a capability of that kind.
    pub fn notification(&self) -> (r: Option<&cap::Notification>)
        requires
            find_slot(self.slots@, IRQ_SLOT_NOTIFICATION) matches Some(c) ==> c is Notification,
        ensures
            match find_slot(self.slots@, IRQ_SLOT_NOTIFICATION) {
                Some(Cap::Notification(cap)) => r == Some(&cap),
                _ => r.is_none(),
            },
    {
        match self.maybe_slot(IRQ_SLOT_NOTIFICATION) {
            Some(Cap::Notification(cap)) => Some(cap),
            Some(_) => vstd::pervasive::unreached(),
            None => None,
        }
    }
}

impl object::RiscvIrq {
    /// The notification that the interrupt signals.
    ///
    /// The slot must be empty or hold a capability of that kind.
    pub fn notification(&self) -> (r: Option<&cap::Notification>)
        requires
            find_slot(self.slots@, IRQ_SLOT_NOTIFICATION) matches Some(c) ==> c is Notification,
        ensures
            match find_slot(self.slots@, IRQ_SLOT_NOTIFICATION) {
                Some(Cap::Notification(cap)) => r == Some(&cap),
                _ => r.is_none(),
            },
    {
        match self.maybe_slot(IRQ_SLOT_NOTIFICATION) {
            Some(Cap::Notification(cap)) => Some(cap),
            Some(_) => vstd::pervasive::unreached(),
            None => None,
        }
    }
}

impl object::ArchivedTcb {
    /// The root of the thread's capability space.
    ///
    /// The slot must hold a capability of that kind.
    pub fn cspace(&self) -> (r: &cap::ArchivedCNode)
        requires
            find_slot(self.slots@, TCB_SLOT_CSPACE) matches Some(ArchivedCap::CNode(_)),
        ensures
            find_slot(self.slots@, TCB_SLOT_CSPACE) == Some(ArchivedCap::CNode(*r)),
    {
        match self.maybe_slot(TCB_SLOT_CSPACE) {
            Some(ArchivedCap::CNode(cap)) => cap,
            _ => vstd::pervasive::unreached(),
        }
    }

    /// The root of the thread's address space.
    ///
    /// The slot must hold a capability of that kind.
    pub fn vspace(&self) -> (r: &cap::ArchivedPageTable)
        requires
            find_slot(self.slots@, TCB_SLOT_VSPACE) matches Some(ArchivedCap::PageTable(_)),
        ensures
            find_slot(self.slots@, TCB_SLOT_VSPACE) == Some(ArchivedCap::PageTable(*r)),
    {
        match self.maybe_slot(TCB_SLOT_VSPACE) {
            Some(ArchivedCap::PageTable(cap)) => cap,
            _ => vstd::pervasive::unreached(),
        }
    }

    /// The frame of the thread's IPC buffer.
    ///
    /// The slot must hold a capability of that kind.
    pub fn ipc_buffer(&self) -> (r: &cap::ArchivedFrame)
        requires
            find_slot(self.slots@, TCB_SLOT_IPC_BUFFER) matches Some(ArchivedCap::Frame(_)),
        ensures
            find_slot(self.slots@, TCB_SLOT_IPC_BUFFER) == Some(ArchivedCap::Frame(*r)),
    {
        match self.maybe_slot(TCB_SLOT_IPC_BUFFER) {
            Some(ArchivedCap::Frame(cap)) => cap,
            _ => vstd::pervasive::unreached(),
        }
    }

    /// The thread's fault endpoint on a kernel with scheduling contexts.
    ///
    /// The slot must be empty or hold a capability of that kind.
    pub fn mcs_fault_ep(&self) -> (r: Option<&cap::ArchivedEndpoint>)
        requires
            find_slot(self.slots@, TCB_SLOT_FAULT_EP) matches Some(c) ==> c is Endpoint,
        ensures
            match find_slot(self.slots@, TCB_SLOT_FAULT_EP) {
                Some(ArchivedCap::Endpoint(cap)) => r == Some(&cap),
                _ => r.is_none(),
            },
    {
        match self.maybe_slot(TCB_SLOT_FAULT_EP) {
            Some(ArchivedCap::Endpoint(cap)) => Some(cap),
            Some(_) => vstd::pervasive::unreached(),
            None => None,
        }
    }

    /// The thread's scheduling context.
    ///
    /// The slot must be empty or hold a capability of that kind.
    pub fn sc(&self) -> (r: Option<&cap::ArchivedSchedContext>)
        requires
            find_slot(self.slots@, TCB_SLOT_SC) matches Some(c) ==> c is SchedContext,
        ensures
            match find_slot(self.slots@, TCB_SLOT_SC) {
                Some(ArchivedCap::SchedContext(cap)) => r == Some(&cap),
                _ => r.is_none(),
            },
    {
        match self.maybe_slot(TCB_SLOT_SC) {
            Some(ArchivedCap::SchedContext(cap)) => Some(cap),
            Some(_) => vstd::pervasive::unreached(),
            None => None,
        }
    }

    /// The thread's temporary fault endpoint.
    ///
    /// The slot must be empty or hold a capability of that kind.
    pub fn temp_fault_ep(&self) -> (r: Option<&cap::ArchivedEndpoint>)
        requires
            find_slot(self.slots@, TCB_SLOT_TEMP_FAULT_EP) matches Some(c) ==> c is Endpoint,
        ensures
            match find_slot(self.slots@, TCB_SLOT_TEMP_FAULT_EP) {
                Some(ArchivedCap::Endpoint(cap)) => r == Some(&cap),
                _ => r.is_none(),
            },
    {
        match self.maybe_slot(TCB_SLOT_TEMP_FAULT_EP) {
            Some(ArchivedCap::Endpoint(cap)) => Some(cap),
            Some(_) => vstd::pervasive::unreached(),
            None => None,
        }
    }

    /// The notification that the thread is bound to.
    ///
    /// The slot must be empty or hold a capability of that kind.
    pub fn bound_notification(&self) -> (r: Option<&cap::ArchivedNotification>)
        requires
            find_slot(self.slots@, TCB_SLOT_BOUND_NOTIFICATION) matches Some(c) ==> c is Notification,
        ensures
            match find_slot(self.slots@, TCB_SLOT_BOUND_NOTIFICATION) {
                Some(ArchivedCap::Notification(cap)) => r == Some(&cap),
                _ => r.is_none(),
            },
    {
        match self.maybe_slot(TCB_SLOT_BOUND_NOTIFICATION) {
            Some(ArchivedCap::Notification(cap)) => Some(cap),
            Some(_) => vstd::pervasive::unreached(),
            None => None,
        }
    }

    /// The thread's virtual CPU.
    ///
    /// The slot must be empty or hold a capability of that kind.
    pub fn vcpu(&self) -> (r: Option<&cap::ArchivedVCpu>)
        requires
            find_slot(self.slots@, TCB_SLOT_VCPU) matches Some(c) ==> c is VCpu,
        ensures
            match find_slot(self.slots@, TCB_SLOT_VCPU) {
                Some(ArchivedCap::VCpu(cap)) => r == Some(&cap),
                _ => r.is_none(),
            },
    {
        match self.maybe_slot(TCB_SLOT_VCPU) {
            Some(ArchivedCap::VCpu(cap)) => Some(cap),
            Some(_) => vstd::pervasive::unreached(),
            None => None,
        }
    }
}

impl object::ArchivedIrq {
    /// The notification that the interrupt signals.
    ///
    /// The slot must be empty or hold a capability of that kind.
    pub fn notification(&self) -> (r: Option<&cap::ArchivedNotification>)
        requires
            find_slot(self.slots@, IRQ_SLOT_NOTIFICATION) matches Some(c) ==> c is Notification,
        ensures
            match find_slot(self.slots@, IRQ_SLOT_NOTIFICATION) {
                Some(ArchivedCap::Notification(cap)) => r == Some(&cap),
                _ => r.is_none(),
            },
    {
        match self.maybe_slot(IRQ_SLOT_NOTIFICATION) {
            Some(ArchivedCap::Notification(cap)) => Some(cap),
            Some(_) => vstd::pervasive::unreached(),
            None => None,
        }
    }
}

impl object::ArchivedArmIrq {
    /// The notification that the interrupt signals.
    ///
    /// The slot must be empty or hold a capability of that kind.
    pub fn notification(&self) -> (r: Option<&cap::ArchivedNotification>)
        requires
            find_slot(self.slots@, IRQ_SLOT_NOTIFICATION) matches Some(c) ==> c is Notification,
        ensures
            match find_slot(self.slots@, IRQ_SLOT_NOTIFICATION) {
                Some(ArchivedCap::Notification(cap)) => r == Some(&cap),
                _ => r.is_none(),
            },
    {
        match self.maybe_slot(IRQ_SLOT_NOTIFICATION) {
            Some(ArchivedCap::Notification(cap)) => Some(cap),
            Some(_) => vstd::pervasive::unreached(),
            None => None,
        }
    }
}

impl object::ArchivedIrqMsi {
    /// The notification that the interrupt signals.
    ///
    /// The slot must be empty or hold a capability of that kind.
    pub fn notification(&self) -> (r: Option<&cap::ArchivedNotification>)
        requires
            find_slot(self.slots@, IRQ_SLOT_NOTIFICATION) matches Some(c) ==> c is Notification,
        ensures
            match find_slot(self.slots@, IRQ_SLOT_NOTIFICATION) {
                Some(ArchivedCap::Notification(cap)) => r == Some(&cap),
                _ => r.is_none(),
            },
    {
        match self.maybe_slot(IRQ_SLOT_NOTIFICATION) {
            Some(ArchivedCap::Notification(cap)) => Some(cap),
            Some(_) => vstd::pervasive::unreached(),
            None => None,
        }
    }
}

impl object::ArchivedIrqIOApic {
    /// The notification that the interrupt signals.
    ///
    /// The slot must be empty or hold a capability of that kind.
    pub fn notification(&self) -> (r: Option<&cap::ArchivedNotification>)
        requires
            find_slot(self.slots@, IRQ_SLOT_NOTIFICATION) matches Some(c) ==> c is Notification,
        ensures
            match find_slot(self.slots@, IRQ_SLOT_NOTIFICATION) {
                Some(ArchivedCap::Notification(cap)) => r == Some(&cap),
                _ => r.is_none(),
            },
    {
        match self.maybe_slot(IRQ_SLOT_NOTIFICATION) {
            Some(ArchivedCap::Notification(cap)) => Some(cap),
            Some(_) => vstd::pervasive::unreached(),
            None => None,
        }
    }
}

impl object::ArchivedRiscvIrq {
    /// The notification that the interrupt signals.
    ///
    /// The slot must be empty or hold a capability of that kind.
    pub fn notification(&self) -> (r: Option<&cap::ArchivedNotification>)
        requires
            find_slot(self.slots@, IRQ_SLOT_NOTIFICATION) matches Some(c) ==> c is Notification,
        ensures
            match find_slot(self.slots@, IRQ_SLOT_NOTIFICATION) {
                Some(ArchivedCap::Notification(cap)) => r == Some(&cap),
                _ => r.is_none(),
            },
    {
        match self.maybe_slot(IRQ_SLOT_NOTIFICATION) {
            Some(ArchivedCap::Notification(cap)) => Some(cap),
            Some(_) => vstd::pervasive::unreached(),
            None => None,
        }
    }
}

/// An entry of an archived page table: a page table of the next level, or a
/// frame.
#[derive(Debug, Clone, Copy, PartialEq, Eq)]
pub enum ArchivedPageTableEntry<'a> {
    PageTable(&'a cap::ArchivedPageTable),
    Frame(&'a cap::ArchivedFrame),
}

impl<'a> ArchivedPageTableEntry<'a> {
    pub fn page_table(&self) -> (r: Option<&'a cap::ArchivedPageTable>)
        ensures
            match self {
                ArchivedPageTableEntry::PageTable(cap) => r == Some(*cap),
                ArchivedPageTableEntry::Frame(_) => r.is_none(),
            },
    {
        match self {
            ArchivedPageTableEntry::PageTable(cap) => Some(*cap),
            _ => None,
        }
    }

    pub fn frame(&self) -> (r: Option<&'a cap::ArchivedFrame>)
        ensures
            match self {
                ArchivedPageTableEntry::Frame(cap) => r == Some(*cap),
                ArchivedPageTableEntry::PageTable(_) => r.is_none(),
            },
    {
        match self {
            ArchivedPageTableEntry::Frame(cap) => Some(*cap),
            _ => None,
        }
    }

    /// The capability as a page table entry, if it can be one.
    pub fn try_from(cap: &'a ArchivedCap) -> (r: Result<Self, TryFromCapError>)
        ensures
            match cap {
                ArchivedCap::PageTable(c) => r == Ok::<Self, TryFromCapError>(
                    ArchivedPageTableEntry::PageTable(c),
                ),
                ArchivedCap::Frame(c) => r == Ok::<Self, TryFromCapError>(
                    ArchivedPageTableEntry::Frame(c),
                ),
                _ => r is Err,
            },
    {
        match cap {
            ArchivedCap::PageTable(c) => Ok(ArchivedPageTableEntry::PageTable(c)),
            ArchivedCap::Frame(c) => Ok(ArchivedPageTableEntry::Frame(c)),
            _ => Err(TryFromCapError),
        }
    }
}

impl object::ArchivedPageTable {
    /// The entries of the table, in the order of the table. Every
    /// capability in the table must be a page table or a frame.
    pub fn entries(&self) -> (r: Vec<(ArchivedCapSlot, ArchivedPageTableEntry<'_>)>)
        requires
            forall|i: int|
                0 <= i < self.slots@.len() ==> ((#[trigger] self.slots@[i]).1 is PageTable
                    || self.slots@[i].1 is Frame),
        ensures
            r@.len() == self.slots@.len(),
            forall|i: int|
                0 <= i < r@.len() ==> (#[trigger] r@[i]).0 == self.slots@[i].0 && match self.slots@[i].1 {
                    ArchivedCap::PageTable(c) => r@[i].1 == ArchivedPageTableEntry::PageTable(&c),
                    ArchivedCap::Frame(c) => r@[i].1 == ArchivedPageTableEntry::Frame(&c),
                    _ => false,
                },
    {
        let mut out: Vec<(ArchivedCapSlot, ArchivedPageTableEntry<'_>)> = Vec::new();
        let mut i: usize = 0;
        while i < self.slots.len()
            invariant
                i <= self.slots@.len(),
                out@.len() == i,
                forall|k: int|
                    0 <= k < self.slots@.len() ==> ((#[trigger] self.slots@[k]).1 is PageTable
                        || self.slots@[k].1 is Frame),
                forall|k: int|
                    0 <= k < i ==> (#[trigger] out@[k]).0 == self.slots@[k].0 && match self.slots@[k].1 {
                        ArchivedCap::PageTable(c) => out@[k].1 == ArchivedPageTableEntry::PageTable(
                            &c,
                        ),
                        ArchivedCap::Frame(c) => out@[k].1 == ArchivedPageTableEntry::Frame(&c),
                        _ => false,
                    },
            decreases self.slots@.len() - i,
        {
            let entry = &self.slots[i];
            match ArchivedPageTableEntry::try_from(&entry.1) {
                Ok(e) => {
                    out.push((entry.0, e));
                },
                Err(_) => {
                    assert(false);
                },
            }
            i = i + 1;
        }
        out
    }

    /// The frames of the table, in the order of the table. Every capability
    /// in the table must be a frame.
    pub fn frames(&self) -> (r: Vec<(ArchivedCapSlot, &cap::ArchivedFrame)>)
        requires
            forall|i: int| 0 <= i < self.slots@.len() ==> (#[trigger] self.slots@[i]).1 is Frame,
        ensures
            r@.len() == self.slots@.len(),
            forall|i: int|
                0 <= i < r@.len() ==> (#[trigger] r@[i]).0 == self.slots@[i].0 && self.slots@[i].1
                    == ArchivedCap::Frame(*r@[i].1),
    {
        let mut out: Vec<(ArchivedCapSlot, &cap::ArchivedFrame)> = Vec::new();
        let mut i: usize = 0;
        while i < self.slots.len()
            invariant
                i <= self.slots@.len(),
                out@.len() == i,
                forall|k: int|
                    0 <= k < self.slots@.len() ==> (#[trigger] self.slots@[k]).1 is Frame,
                forall|k: int|
                    0 <= k < i ==> (#[trigger] out@[k]).0 == self.slots@[k].0 && self.slots@[k].1
                        == ArchivedCap::Frame(*out@[k].1),
            decreases self.slots@.len() - i,
        {
            let entry = &self.slots[i];
            match &entry.1 {
                ArchivedCap::Frame(c) => {
                    out.push((entry.0, c));
                },
                _ => {
                    assert(false);
                },
            }
            i = i + 1;
        }
        out
    }

    /// The page tables of the next level, in the order of the table. Every
    /// capability in the table must be a page table.
    pub fn page_tables(&self) -> (r: Vec<(ArchivedCapSlot, &cap::ArchivedPageTable)>)
        requires
            forall|i: int|
                0 <= i < self.slots@.len() ==> (#[trigger] self.slots@[i]).1 is PageTable,
        ensures
            r@.len() == self.slots@.len(),
            forall|i: int|
                0 <= i < r@.len() ==> (#[trigger] r@[i]).0 == self.slots@[i].0 && self.slots@[i].1
                    == ArchivedCap::PageTable(*r@[i].1),
    {
        let mut out: Vec<(ArchivedCapSlot, &cap::ArchivedPageTable)> = Vec::new();
        let mut i: usize = 0;
        while i < self.slots.len()
            invariant
                i <= self.slots@.len(),
                out@.len() == i,
                forall|k: int|
                    0 <= k < self.slots@.len() ==> (#[trigger] self.slots@[k]).1 is PageTable,
                forall|k: int|
                    0 <= k < i ==> (#[trigger] out@[k]).0 == self.slots@[k].0 && self.slots@[k].1
                        == ArchivedCap::PageTable(*out@[k].1),
            decreases self.slots@.len() - i,
        {
            let entry = &self.slots[i];
            match &entry.1 {
                ArchivedCap::PageTable(c) => {
                    out.push((entry.0, c));
                },
                _ => {
                    assert(false);
                },
            }
            i = i + 1;
        }
        out
    }
}

} // verus!

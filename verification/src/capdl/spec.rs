use core::ops::Range;
use vstd::prelude::*;

use crate::capdl::cap;
use crate::capdl::object;

verus! {

pub type PortableWord = u64;

pub type PortableBadge = PortableWord;

pub type PortableCPtr = PortableWord;

pub type ObjectId = u32;

pub type CapSlot = u32;

pub type CapTableEntry = (CapSlot, Cap);

pub type AsidSlotEntry = ObjectId;

pub type ArchivedObjectId = u32;

pub type ArchivedCapSlot = u32;

pub type ArchivedCapTableEntry = (ArchivedCapSlot, ArchivedCap);

/// `Clone` of a `core::ops::Range`: the clone's bounds are clones of the
/// range's bounds.
pub assume_specification<Idx>[ <Range<Idx> as Clone>::clone ](range: &Range<Idx>) -> (r: Range<
    Idx,
>) where Idx: Clone
    ensures
        cloned::<Idx>(range.start, r.start),
        cloned::<Idx>(range.end, r.end),
;

/// A system of kernel objects and the capabilities among them.
///
/// `N` names the objects, `D` is the data that fills frames, and `M` stands
/// for a frame whose content is held apart.
#[derive(Debug, Clone, PartialEq, Eq)]
pub struct Spec<N, D, M> {
    pub objects: Vec<NamedObject<N, D, M>>,
    pub irqs: Vec<IrqEntry>,
    pub asid_slots: Vec<AsidSlotEntry>,
    pub root_objects: Range<ObjectId>,
    pub untyped_covers: Vec<UntypedCover>,
}

/// The archived form of a specification, as the initializer reads it.
#[derive(Debug, Clone, PartialEq, Eq)]
pub struct ArchivedSpec<N, D, M> {
    pub objects: Vec<ArchivedNamedObject<N, D, M>>,
    pub irqs: Vec<IrqEntry>,
    pub asid_slots: Vec<AsidSlotEntry>,
    pub root_objects: Range<ArchivedObjectId>,
    pub untyped_covers: Vec<UntypedCover>,
}

/// The handler object of an interrupt.
#[derive(Debug, Clone, Copy, PartialEq, Eq, Structural)]
pub struct IrqEntry {
    pub irq: PortableWord,
    pub handler: ObjectId,
}

/// The objects that are made from one untyped object.
#[derive(Debug, Clone, PartialEq, Eq)]
pub struct UntypedCover {
    pub parent: ObjectId,
    pub children: Range<ObjectId>,
}

#[derive(Debug, Clone, PartialEq, Eq)]
pub struct NamedObject<N, D, M> {
    pub name: N,
    pub object: Object<D, M>,
}

#[derive(Debug, Clone, PartialEq, Eq)]
pub struct ArchivedNamedObject<N, D, M> {
    pub name: N,
    pub object: ArchivedObject<D, M>,
}

/// A machine word as the archive holds it.
#[derive(Debug, Clone, Copy, PartialEq, Eq, Structural)]
pub struct ArchivedWord(pub u64);

/// The rights that a capability grants.
#[derive(Debug, Clone, Copy, PartialEq, Eq, Structural)]
pub struct Rights {
    pub read: bool,
    pub write: bool,
    pub grant: bool,
    pub grant_reply: bool,
}

/// The archived form of the rights that a capability grants.
#[derive(Debug, Clone, Copy, PartialEq, Eq, Structural)]
pub struct ArchivedRights {
    pub read: bool,
    pub write: bool,
    pub grant: bool,
    pub grant_reply: bool,
}

/// A capability: its kind, the object it refers to, and what goes with
/// that kind.
#[derive(Debug, Clone, Copy, PartialEq, Eq, Structural)]
pub enum Cap {
    Untyped(cap::Untyped),
    Endpoint(cap::Endpoint),
    Notification(cap::Notification),
    CNode(cap::CNode),
    Tcb(cap::Tcb),
    IrqHandler(cap::IrqHandler),
    VCpu(cap::VCpu),
    Frame(cap::Frame),
    PageTable(cap::PageTable),
    AsidPool(cap::AsidPool),
    ArmIrqHandler(cap::ArmIrqHandler),
    IrqMsiHandler(cap::IrqMsiHandler),
    IrqIOApicHandler(cap::IrqIOApicHandler),
    RiscvIrqHandler(cap::RiscvIrqHandler),
    IOPorts(cap::IOPorts),
    SchedContext(cap::SchedContext),
    Reply(cap::Reply),
    ArmSmc(cap::ArmSmc),
}

impl Cap {
    /// The object that the capability refers to.
    pub open spec fn spec_obj(&self) -> ObjectId {
        match self {
            Cap::Untyped(cap) => cap.object,
            Cap::Endpoint(cap) => cap.object,
            Cap::Notification(cap) => cap.object,
            Cap::CNode(cap) => cap.object,
            Cap::Tcb(cap) => cap.object,
            Cap::IrqHandler(cap) => cap.object,
            Cap::VCpu(cap) => cap.object,
            Cap::Frame(cap) => cap.object,
            Cap::PageTable(cap) => cap.object,
            Cap::AsidPool(cap) => cap.object,
            Cap::ArmIrqHandler(cap) => cap.object,
            Cap::IrqMsiHandler(cap) => cap.object,
            Cap::IrqIOApicHandler(cap) => cap.object,
            Cap::RiscvIrqHandler(cap) => cap.object,
            Cap::IOPorts(cap) => cap.object,
            Cap::SchedContext(cap) => cap.object,
            Cap::Reply(cap) => cap.object,
            Cap::ArmSmc(cap) => cap.object,
        }
    }

    pub fn obj(&self) -> (r: ObjectId)
        ensures
            r == self.spec_obj(),
    {
        match self {
            Cap::Untyped(cap) => cap.object,
            Cap::Endpoint(cap) => cap.object,
            Cap::Notification(cap) => cap.object,
            Cap::CNode(cap) => cap.object,
            Cap::Tcb(cap) => cap.object,
            Cap::IrqHandler(cap) => cap.object,
            Cap::VCpu(cap) => cap.object,
            Cap::Frame(cap) => cap.object,
            Cap::PageTable(cap) => cap.object,
            Cap::AsidPool(cap) => cap.object,
            Cap::ArmIrqHandler(cap) => cap.object,
            Cap::IrqMsiHandler(cap) => cap.object,
            Cap::IrqIOApicHandler(cap) => cap.object,
            Cap::RiscvIrqHandler(cap) => cap.object,
            Cap::IOPorts(cap) => cap.object,
            Cap::SchedContext(cap) => cap.object,
            Cap::Reply(cap) => cap.object,
            Cap::ArmSmc(cap) => cap.object,
        }
    }

    /// The capability as a `cap::Untyped`, if it is one.
    pub fn as_untyped(&self) -> (r: Result<&cap::Untyped, TryFromCapError>)
        ensures
            match self {
                Cap::Untyped(cap) => r == Ok::<&cap::Untyped, TryFromCapError>(cap),
                _ => r is Err,
            },
    {
        match self {
            Cap::Untyped(cap) => Ok(cap),
            _ => Err(TryFromCapError),
        }
    }

    /// The capability as a `cap::Endpoint`, if it is one.
    pub fn as_endpoint(&self) -> (r: Result<&cap::Endpoint, TryFromCapError>)
        ensures
            match self {
                Cap::Endpoint(cap) => r == Ok::<&cap::Endpoint, TryFromCapError>(cap),
                _ => r is Err,
            },
    {
        match self {
            Cap::Endpoint(cap) => Ok(cap),
            _ => Err(TryFromCapError),
        }
    }

    /// The capability as a `cap::Notification`, if it is one.
    pub fn as_notification(&self) -> (r: Result<&cap::Notification, TryFromCapError>)
        ensures
            match self {
                Cap::Notification(cap) => r == Ok::<&cap::Notification, TryFromCapError>(cap),
                _ => r is Err,
            },
    {
        match self {
            Cap::Notification(cap) => Ok(cap),
            _ => Err(TryFromCapError),
        }
    }

    /// The capability as a `cap::CNode`, if it is one.
    pub fn as_cnode(&self) -> (r: Result<&cap::CNode, TryFromCapError>)
        ensures
            match self {
                Cap::CNode(cap) => r == Ok::<&cap::CNode, TryFromCapError>(cap),
                _ => r is Err,
            },
    {
        match self {
            Cap::CNode(cap) => Ok(cap),
            _ => Err(TryFromCapError),
        }
    }

    /// The capability as a `cap::Tcb`, if it is one.
    pub fn as_tcb(&self) -> (r: Result<&cap::Tcb, TryFromCapError>)
        ensures
            match self {
                Cap::Tcb(cap) => r == Ok::<&cap::Tcb, TryFromCapError>(cap),
                _ => r is Err,
            },
    {
        match self {
            Cap::Tcb(cap) => Ok(cap),
            _ => Err(TryFromCapError),
        }
    }

    /// The capability as a `cap::IrqHandler`, if it is one.
    pub fn as_irq_handler(&self) -> (r: Result<&cap::IrqHandler, TryFromCapError>)
        ensures
            match self {
                Cap::IrqHandler(cap) => r == Ok::<&cap::IrqHandler, TryFromCapError>(cap),
                _ => r is Err,
            },
    {
        match self {
            Cap::IrqHandler(cap) => Ok(cap),
            _ => Err(TryFromCapError),
        }
    }

    /// The capability as a `cap::VCpu`, if it is one.
    pub fn as_vcpu(&self) -> (r: Result<&cap::VCpu, TryFromCapError>)
        ensures
            match self {
                Cap::VCpu(cap) => r == Ok::<&cap::VCpu, TryFromCapError>(cap),
                _ => r is Err,
            },
    {
        match self {
            Cap::VCpu(cap) => Ok(cap),
            _ => Err(TryFromCapError),
        }
    }

    /// The capability as a `cap::Frame`, if it is one.
    pub fn as_frame(&self) -> (r: Result<&cap::Frame, TryFromCapError>)
        ensures
            match self {
                Cap::Frame(cap) => r == Ok::<&cap::Frame, TryFromCapError>(cap),
                _ => r is Err,
            },
    {
        match self {
            Cap::Frame(cap) => Ok(cap),
            _ => Err(TryFromCapError),
        }
    }

    /// The capability as a `cap::PageTable`, if it is one.
    pub fn as_page_table(&self) -> (r: Result<&cap::PageTable, TryFromCapError>)
        ensures
            match self {
                Cap::PageTable(cap) => r == Ok::<&cap::PageTable, TryFromCapError>(cap),
                _ => r is Err,
            },
    {
        match self {
            Cap::PageTable(cap) => Ok(cap),
            _ => Err(TryFromCapError),
        }
    }

    /// The capability as a `cap::AsidPool`, if it is one.
    pub fn as_asid_pool(&self) -> (r: Result<&cap::AsidPool, TryFromCapError>)
        ensures
            match self {
                Cap::AsidPool(cap) => r == Ok::<&cap::AsidPool, TryFromCapError>(cap),
                _ => r is Err,
            },
    {
        match self {
            Cap::AsidPool(cap) => Ok(cap),
            _ => Err(TryFromCapError),
        }
    }

    /// The capability as a `cap::ArmIrqHandler`, if it is one.
    pub fn as_arm_irq_handler(&self) -> (r: Result<&cap::ArmIrqHandler, TryFromCapError>)
        ensures
            match self {
                Cap::ArmIrqHandler(cap) => r == Ok::<&cap::ArmIrqHandler, TryFromCapError>(cap),
                _ => r is Err,
            },
    {
        match self {
            Cap::ArmIrqHandler(cap) => Ok(cap),
            _ => Err(TryFromCapError),
        }
    }

    /// The capability as a `cap::IrqMsiHandler`, if it is one.
    pub fn as_irq_msi_handler(&self) -> (r: Result<&cap::IrqMsiHandler, TryFromCapError>)
        ensures
            match self {
                Cap::IrqMsiHandler(cap) => r == Ok::<&cap::IrqMsiHandler, TryFromCapError>(cap),
                _ => r is Err,
            },
    {
        match self {
            Cap::IrqMsiHandler(cap) => Ok(cap),
            _ => Err(TryFromCapError),
        }
    }

    /// The capability as a `cap::IrqIOApicHandler`, if it is one.
    pub fn as_irq_ioapic_handler(&self) -> (r: Result<&cap::IrqIOApicHandler, TryFromCapError>)
        ensures
            match self {
                Cap::IrqIOApicHandler(cap) => r == Ok::<&cap::IrqIOApicHandler, TryFromCapError>(cap),
                _ => r is Err,
            },
    {
        match self {
            Cap::IrqIOApicHandler(cap) => Ok(cap),
            _ => Err(TryFromCapError),
        }
    }

    /// The capability as a `cap::RiscvIrqHandler`, if it is one.
    pub fn as_riscv_irq_handler(&self) -> (r: Result<&cap::RiscvIrqHandler, TryFromCapError>)
        ensures
            match self {
                Cap::RiscvIrqHandler(cap) => r == Ok::<&cap::RiscvIrqHandler, TryFromCapError>(cap),
                _ => r is Err,
            },
    {
        match self {
            Cap::RiscvIrqHandler(cap) => Ok(cap),
            _ => Err(TryFromCapError),
        }
    }

    /// The capability as a `cap::IOPorts`, if it is one.
    pub fn as_ioports(&self) -> (r: Result<&cap::IOPorts, TryFromCapError>)
        ensures
            match self {
                Cap::IOPorts(cap) => r == Ok::<&cap::IOPorts, TryFromCapError>(cap),
                _ => r is Err,
            },
    {
        match self {
            Cap::IOPorts(cap) => Ok(cap),
            _ => Err(TryFromCapError),
        }
    }

    /// The capability as a `cap::SchedContext`, if it is one.
    pub fn as_sched_context(&self) -> (r: Result<&cap::SchedContext, TryFromCapError>)
        ensures
            match self {
                Cap::SchedContext(cap) => r == Ok::<&cap::SchedContext, TryFromCapError>(cap),
                _ => r is Err,
            },
    {
        match self {
            Cap::SchedContext(cap) => Ok(cap),
            _ => Err(TryFromCapError),
        }
    }

    /// The capability as a `cap::Reply`, if it is one.
    pub fn as_reply(&self) -> (r: Result<&cap::Reply, TryFromCapError>)
        ensures
            match self {
                Cap::Reply(cap) => r == Ok::<&cap::Reply, TryFromCapError>(cap),
                _ => r is Err,
            },
    {
        match self {
            Cap::Reply(cap) => Ok(cap),
            _ => Err(TryFromCapError),
        }
    }

    /// The capability as a `cap::ArmSmc`, if it is one.
    pub fn as_arm_smc(&self) -> (r: Result<&cap::ArmSmc, TryFromCapError>)
        ensures
            match self {
                Cap::ArmSmc(cap) => r == Ok::<&cap::ArmSmc, TryFromCapError>(cap),
                _ => r is Err,
            },
    {
        match self {
            Cap::ArmSmc(cap) => Ok(cap),
            _ => Err(TryFromCapError),
        }
    }
}

/// The archived form of a capability.
#[derive(Debug, Clone, Copy, PartialEq, Eq, Structural)]
pub enum ArchivedCap {
    Untyped(cap::ArchivedUntyped),
    Endpoint(cap::ArchivedEndpoint),
    Notification(cap::ArchivedNotification),
    CNode(cap::ArchivedCNode),
    Tcb(cap::ArchivedTcb),
    IrqHandler(cap::ArchivedIrqHandler),
    VCpu(cap::ArchivedVCpu),
    Frame(cap::ArchivedFrame),
    PageTable(cap::ArchivedPageTable),
    AsidPool(cap::ArchivedAsidPool),
    ArmIrqHandler(cap::ArchivedArmIrqHandler),
    IrqMsiHandler(cap::ArchivedIrqMsiHandler),
    IrqIOApicHandler(cap::ArchivedIrqIOApicHandler),
    RiscvIrqHandler(cap::ArchivedRiscvIrqHandler),
    IOPorts(cap::ArchivedIOPorts),
    SchedContext(cap::ArchivedSchedContext),
    Reply(cap::ArchivedReply),
    ArmSmc(cap::ArchivedArmSmc),
}

impl ArchivedCap {
    /// The object that the capability refers to.
    pub open spec fn spec_obj(&self) -> ArchivedObjectId {
        match self {
            ArchivedCap::Untyped(cap) => cap.object,
            ArchivedCap::Endpoint(cap) => cap.object,
            ArchivedCap::Notification(cap) => cap.object,
            ArchivedCap::CNode(cap) => cap.object,
            ArchivedCap::Tcb(cap) => cap.object,
            ArchivedCap::IrqHandler(cap) => cap.object,
            ArchivedCap::VCpu(cap) => cap.object,
            ArchivedCap::Frame(cap) => cap.object,
            ArchivedCap::PageTable(cap) => cap.object,
            ArchivedCap::AsidPool(cap) => cap.object,
            ArchivedCap::ArmIrqHandler(cap) => cap.object,
            ArchivedCap::IrqMsiHandler(cap) => cap.object,
            ArchivedCap::IrqIOApicHandler(cap) => cap.object,
            ArchivedCap::RiscvIrqHandler(cap) => cap.object,
            ArchivedCap::IOPorts(cap) => cap.object,
            ArchivedCap::SchedContext(cap) => cap.object,
            ArchivedCap::Reply(cap) => cap.object,
            ArchivedCap::ArmSmc(cap) => cap.object,
        }
    }

    pub fn obj(&self) -> (r: ArchivedObjectId)
        ensures
            r == self.spec_obj(),
    {
        match self {
            ArchivedCap::Untyped(cap) => cap.object,
            ArchivedCap::Endpoint(cap) => cap.object,
            ArchivedCap::Notification(cap) => cap.object,
            ArchivedCap::CNode(cap) => cap.object,
            ArchivedCap::Tcb(cap) => cap.object,
            ArchivedCap::IrqHandler(cap) => cap.object,
            ArchivedCap::VCpu(cap) => cap.object,
            ArchivedCap::Frame(cap) => cap.object,
            ArchivedCap::PageTable(cap) => cap.object,
            ArchivedCap::AsidPool(cap) => cap.object,
            ArchivedCap::ArmIrqHandler(cap) => cap.object,
            ArchivedCap::IrqMsiHandler(cap) => cap.object,
            ArchivedCap::IrqIOApicHandler(cap) => cap.object,
            ArchivedCap::RiscvIrqHandler(cap) => cap.object,
            ArchivedCap::IOPorts(cap) => cap.object,
            ArchivedCap::SchedContext(cap) => cap.object,
            ArchivedCap::Reply(cap) => cap.object,
            ArchivedCap::ArmSmc(cap) => cap.object,
        }
    }

    /// The capability as a `cap::ArchivedUntyped`, if it is one.
    pub fn as_untyped(&self) -> (r: Result<&cap::ArchivedUntyped, TryFromCapError>)
        ensures
            match self {
                ArchivedCap::Untyped(cap) => r == Ok::<&cap::ArchivedUntyped, TryFromCapError>(cap),
                _ => r is Err,
            },
    {
        match self {
            ArchivedCap::Untyped(cap) => Ok(cap),
            _ => Err(TryFromCapError),
        }
    }

    /// The capability as a `cap::ArchivedEndpoint`, if it is one.
    pub fn as_endpoint(&self) -> (r: Result<&cap::ArchivedEndpoint, TryFromCapError>)
        ensures
            match self {
                ArchivedCap::Endpoint(cap) => r == Ok::<&cap::ArchivedEndpoint, TryFromCapError>(cap),
                _ => r is Err,
            },
    {
        match self {
            ArchivedCap::Endpoint(cap) => Ok(cap),
            _ => Err(TryFromCapError),
        }
    }

    /// The capability as a `cap::ArchivedNotification`, if it is one.
    pub fn as_notification(&self) -> (r: Result<&cap::ArchivedNotification, TryFromCapError>)
        ensures
            match self {
                ArchivedCap::Notification(cap) => r == Ok::<&cap::ArchivedNotification, TryFromCapError>(cap),
                _ => r is Err,
            },
    {
        match self {
            ArchivedCap::Notification(cap) => Ok(cap),
            _ => Err(TryFromCapError),
        }
    }

    /// The capability as a `cap::ArchivedCNode`, if it is one.
    pub fn as_cnode(&self) -> (r: Result<&cap::ArchivedCNode, TryFromCapError>)
        ensures
            match self {
                ArchivedCap::CNode(cap) => r == Ok::<&cap::ArchivedCNode, TryFromCapError>(cap),
                _ => r is Err,
            },
    {
        match self {
            ArchivedCap::CNode(cap) => Ok(cap),
            _ => Err(TryFromCapError),
        }
    }

    /// The capability as a `cap::ArchivedTcb`, if it is one.
    pub fn as_tcb(&self) -> (r: Result<&cap::ArchivedTcb, TryFromCapError>)
        ensures
            match self {
                ArchivedCap::Tcb(cap) => r == Ok::<&cap::ArchivedTcb, TryFromCapError>(cap),
                _ => r is Err,
            },
    {
        match self {
            ArchivedCap::Tcb(cap) => Ok(cap),
            _ => Err(TryFromCapError),
        }
    }

    /// The capability as a `cap::ArchivedIrqHandler`, if it is one.
    pub fn as_irq_handler(&self) -> (r: Result<&cap::ArchivedIrqHandler, TryFromCapError>)
        ensures
            match self {
                ArchivedCap::IrqHandler(cap) => r == Ok::<&cap::ArchivedIrqHandler, TryFromCapError>(cap),
                _ => r is Err,
            },
    {
        match self {
            ArchivedCap::IrqHandler(cap) => Ok(cap),
            _ => Err(TryFromCapError),
        }
    }

    /// The capability as a `cap::ArchivedVCpu`, if it is one.
    pub fn as_vcpu(&self) -> (r: Result<&cap::ArchivedVCpu, TryFromCapError>)
        ensures
            match self {
                ArchivedCap::VCpu(cap) => r == Ok::<&cap::ArchivedVCpu, TryFromCapError>(cap),
                _ => r is Err,
            },
    {
        match self {
            ArchivedCap::VCpu(cap) => Ok(cap),
            _ => Err(TryFromCapError),
        }
    }

    /// The capability as a `cap::ArchivedFrame`, if it is one.
    pub fn as_frame(&self) -> (r: Result<&cap::ArchivedFrame, TryFromCapError>)
        ensures
            match self {
                ArchivedCap::Frame(cap) => r == Ok::<&cap::ArchivedFrame, TryFromCapError>(cap),
                _ => r is Err,
            },
    {
        match self {
            ArchivedCap::Frame(cap) => Ok(cap),
            _ => Err(TryFromCapError),
        }
    }

    /// The capability as a `cap::ArchivedPageTable`, if it is one.
    pub fn as_page_table(&self) -> (r: Result<&cap::ArchivedPageTable, TryFromCapError>)
        ensures
            match self {
                ArchivedCap::PageTable(cap) => r == Ok::<&cap::ArchivedPageTable, TryFromCapError>(cap),
                _ => r is Err,
            },
    {
        match self {
            ArchivedCap::PageTable(cap) => Ok(cap),
            _ => Err(TryFromCapError),
        }
    }

    /// The capability as a `cap::ArchivedAsidPool`, if it is one.
    pub fn as_asid_pool(&self) -> (r: Result<&cap::ArchivedAsidPool, TryFromCapError>)
        ensures
            match self {
                ArchivedCap::AsidPool(cap) => r == Ok::<&cap::ArchivedAsidPool, TryFromCapError>(cap),
                _ => r is Err,
            },
    {
        match self {
            ArchivedCap::AsidPool(cap) => Ok(cap),
            _ => Err(TryFromCapError),
        }
    }

    /// The capability as a `cap::ArchivedArmIrqHandler`, if it is one.
    pub fn as_arm_irq_handler(&self) -> (r: Result<&cap::ArchivedArmIrqHandler, TryFromCapError>)
        ensures
            match self {
                ArchivedCap::ArmIrqHandler(cap) => r == Ok::<&cap::ArchivedArmIrqHandler, TryFromCapError>(cap),
                _ => r is Err,
            },
    {
        match self {
            ArchivedCap::ArmIrqHandler(cap) => Ok(cap),
            _ => Err(TryFromCapError),
        }
    }

    /// The capability as a `cap::ArchivedIrqMsiHandler`, if it is one.
    pub fn as_irq_msi_handler(&self) -> (r: Result<&cap::ArchivedIrqMsiHandler, TryFromCapError>)
        ensures
            match self {
                ArchivedCap::IrqMsiHandler(cap) => r == Ok::<&cap::ArchivedIrqMsiHandler, TryFromCapError>(cap),
                _ => r is Err,
            },
    {
        match self {
            ArchivedCap::IrqMsiHandler(cap) => Ok(cap),
            _ => Err(TryFromCapError),
        }
    }

    /// The capability as a `cap::ArchivedIrqIOApicHandler`, if it is one.
    pub fn as_irq_ioapic_handler(&self) -> (r: Result<&cap::ArchivedIrqIOApicHandler, TryFromCapError>)
        ensures
            match self {
                ArchivedCap::IrqIOApicHandler(cap) => r == Ok::<&cap::ArchivedIrqIOApicHandler, TryFromCapError>(cap),
                _ => r is Err,
            },
    {
        match self {
            ArchivedCap::IrqIOApicHandler(cap) => Ok(cap),
            _ => Err(TryFromCapError),
        }
    }

    /// The capability as a `cap::ArchivedRiscvIrqHandler`, if it is one.
    pub fn as_riscv_irq_handler(&self) -> (r: Result<&cap::ArchivedRiscvIrqHandler, TryFromCapError>)
        ensures
            match self {
                ArchivedCap::RiscvIrqHandler(cap) => r == Ok::<&cap::ArchivedRiscvIrqHandler, TryFromCapError>(cap),
                _ => r is Err,
            },
    {
        match self {
            ArchivedCap::RiscvIrqHandler(cap) => Ok(cap),
            _ => Err(TryFromCapError),
        }
    }

    /// The capability as a `cap::ArchivedIOPorts`, if it is one.
    pub fn as_ioports(&self) -> (r: Result<&cap::ArchivedIOPorts, TryFromCapError>)
        ensures
            match self {
                ArchivedCap::IOPorts(cap) => r == Ok::<&cap::ArchivedIOPorts, TryFromCapError>(cap),
                _ => r is Err,
            },
    {
        match self {
            ArchivedCap::IOPorts(cap) => Ok(cap),
            _ => Err(TryFromCapError),
        }
    }

    /// The capability as a `cap::ArchivedSchedContext`, if it is one.
    pub fn as_sched_context(&self) -> (r: Result<&cap::ArchivedSchedContext, TryFromCapError>)
        ensures
            match self {
                ArchivedCap::SchedContext(cap) => r == Ok::<&cap::ArchivedSchedContext, TryFromCapError>(cap),
                _ => r is Err,
            },
    {
        match self {
            ArchivedCap::SchedContext(cap) => Ok(cap),
            _ => Err(TryFromCapError),
        }
    }

    /// The capability as a `cap::ArchivedReply`, if it is one.
    pub fn as_reply(&self) -> (r: Result<&cap::ArchivedReply, TryFromCapError>)
        ensures
            match self {
                ArchivedCap::Reply(cap) => r == Ok::<&cap::ArchivedReply, TryFromCapError>(cap),
                _ => r is Err,
            },
    {
        match self {
            ArchivedCap::Reply(cap) => Ok(cap),
            _ => Err(TryFromCapError),
        }
    }

    /// The capability as a `cap::ArchivedArmSmc`, if it is one.
    pub fn as_arm_smc(&self) -> (r: Result<&cap::ArchivedArmSmc, TryFromCapError>)
        ensures
            match self {
                ArchivedCap::ArmSmc(cap) => r == Ok::<&cap::ArchivedArmSmc, TryFromCapError>(cap),
                _ => r is Err,
            },
    {
        match self {
            ArchivedCap::ArmSmc(cap) => Ok(cap),
            _ => Err(TryFromCapError),
        }
    }
}

/// A kernel object: its kind and what goes with that kind.
#[derive(Debug, Clone, PartialEq, Eq)]
pub enum Object<D, M> {
    Untyped(object::Untyped),
    Endpoint,
    Notification,
    CNode(object::CNode),
    Tcb(object::Tcb),
    Irq(object::Irq),
    VCpu,
    Frame(object::Frame<D, M>),
    PageTable(object::PageTable),
    AsidPool(object::AsidPool),
    ArmIrq(object::ArmIrq),
    IrqMsi(object::IrqMsi),
    IrqIOApic(object::IrqIOApic),
    RiscvIrq(object::RiscvIrq),
    IOPorts(object::IOPorts),
    SchedContext(object::SchedContext),
    Reply,
    ArmSmc,
}

impl<D, M> Object<D, M> {
    /// The physical address that the object is bound to, if it is bound to
    /// one. Only untyped objects and frames can be.
    pub open spec fn spec_paddr(&self) -> Option<u64> {
        match self {
            Object::Untyped(obj) => obj.paddr,
            Object::Frame(obj) => obj.paddr,
            _ => None,
        }
    }

    pub fn paddr(&self) -> (r: Option<u64>)
        ensures
            r == self.spec_paddr(),
    {
        match self {
            Object::Untyped(obj) => obj.paddr,
            Object::Frame(obj) => obj.paddr,
            _ => None,
        }
    }

    /// The object as an `object::Untyped`, if it is one.
    pub fn as_untyped(&self) -> (r: Result<&object::Untyped, TryFromObjectError>)
        ensures
            match self {
                Object::Untyped(obj) => r == Ok::<&object::Untyped, TryFromObjectError>(obj),
                _ => r is Err,
            },
    {
        match self {
            Object::Untyped(obj) => Ok(obj),
            _ => Err(TryFromObjectError),
        }
    }

    /// The object as an `object::CNode`, if it is one.
    pub fn as_cnode(&self) -> (r: Result<&object::CNode, TryFromObjectError>)
        ensures
            match self {
                Object::CNode(obj) => r == Ok::<&object::CNode, TryFromObjectError>(obj),
                _ => r is Err,
            },
    {
        match self {
            Object::CNode(obj) => Ok(obj),
            _ => Err(TryFromObjectError),
        }
    }

    /// The object as an `object::Tcb`, if it is one.
    pub fn as_tcb(&self) -> (r: Result<&object::Tcb, TryFromObjectError>)
        ensures
            match self {
                Object::Tcb(obj) => r == Ok::<&object::Tcb, TryFromObjectError>(obj),
                _ => r is Err,
            },
    {
        match self {
            Object::Tcb(obj) => Ok(obj),
            _ => Err(TryFromObjectError),
        }
    }

    /// The object as an `object::Irq`, if it is one.
    pub fn as_irq(&self) -> (r: Result<&object::Irq, TryFromObjectError>)
        ensures
            match self {
                Object::Irq(obj) => r == Ok::<&object::Irq, TryFromObjectError>(obj),
                _ => r is Err,
            },
    {
        match self {
            Object::Irq(obj) => Ok(obj),
            _ => Err(TryFromObjectError),
        }
    }

    /// The object as an `object::Frame`, if it is one.
    pub fn as_frame(&self) -> (r: Result<&object::Frame<D, M>, TryFromObjectError>)
        ensures
            match self {
                Object::Frame(obj) => r == Ok::<&object::Frame<D, M>, TryFromObjectError>(obj),
                _ => r is Err,
            },
    {
        match self {
            Object::Frame(obj) => Ok(obj),
            _ => Err(TryFromObjectError),
        }
    }

    /// The object as an `object::PageTable`, if it is one.
    pub fn as_page_table(&self) -> (r: Result<&object::PageTable, TryFromObjectError>)
        ensures
            match self {
                Object::PageTable(obj) => r == Ok::<&object::PageTable, TryFromObjectError>(obj),
                _ => r is Err,
            },
    {
        match self {
            Object::PageTable(obj) => Ok(obj),
            _ => Err(TryFromObjectError),
        }
    }

    /// The object as an `object::AsidPool`, if it is one.
    pub fn as_asid_pool(&self) -> (r: Result<&object::AsidPool, TryFromObjectError>)
        ensures
            match self {
                Object::AsidPool(obj) => r == Ok::<&object::AsidPool, TryFromObjectError>(obj),
                _ => r is Err,
            },
    {
        match self {
            Object::AsidPool(obj) => Ok(obj),
            _ => Err(TryFromObjectError),
        }
    }

    /// The object as an `object::ArmIrq`, if it is one.
    pub fn as_arm_irq(&self) -> (r: Result<&object::ArmIrq, TryFromObjectError>)
        ensures
            match self {
                Object::ArmIrq(obj) => r == Ok::<&object::ArmIrq, TryFromObjectError>(obj),
                _ => r is Err,
            },
    {
        match self {
            Object::ArmIrq(obj) => Ok(obj),
            _ => Err(TryFromObjectError),
        }
    }

    /// The object as an `object::IrqMsi`, if it is one.
    pub fn as_irq_msi(&self) -> (r: Result<&object::IrqMsi, TryFromObjectError>)
        ensures
            match self {
                Object::IrqMsi(obj) => r == Ok::<&object::IrqMsi, TryFromObjectError>(obj),
                _ => r is Err,
            },
    {
        match self {
            Object::IrqMsi(obj) => Ok(obj),
            _ => Err(TryFromObjectError),
        }
    }

    /// The object as an `object::IrqIOApic`, if it is one.
    pub fn as_irq_ioapic(&self) -> (r: Result<&object::IrqIOApic, TryFromObjectError>)
        ensures
            match self {
                Object::IrqIOApic(obj) => r == Ok::<&object::IrqIOApic, TryFromObjectError>(obj),
                _ => r is Err,
            },
    {
        match self {
            Object::IrqIOApic(obj) => Ok(obj),
            _ => Err(TryFromObjectError),
        }
    }

    /// The object as an `object::RiscvIrq`, if it is one.
    pub fn as_riscv_irq(&self) -> (r: Result<&object::RiscvIrq, TryFromObjectError>)
        ensures
            match self {
                Object::RiscvIrq(obj) => r == Ok::<&object::RiscvIrq, TryFromObjectError>(obj),
                _ => r is Err,
            },
    {
        match self {
            Object::RiscvIrq(obj) => Ok(obj),
            _ => Err(TryFromObjectError),
        }
    }

    /// The object as an `object::IOPorts`, if it is one.
    pub fn as_ioports(&self) -> (r: Result<&object::IOPorts, TryFromObjectError>)
        ensures
            match self {
                Object::IOPorts(obj) => r == Ok::<&object::IOPorts, TryFromObjectError>(obj),
                _ => r is Err,
            },
    {
        match self {
            Object::IOPorts(obj) => Ok(obj),
            _ => Err(TryFromObjectError),
        }
    }

    /// The object as an `object::SchedContext`, if it is one.
    pub fn as_sched_context(&self) -> (r: Result<&object::SchedContext, TryFromObjectError>)
        ensures
            match self {
                Object::SchedContext(obj) => r == Ok::<&object::SchedContext, TryFromObjectError>(obj),
                _ => r is Err,
            },
    {
        match self {
            Object::SchedContext(obj) => Ok(obj),
            _ => Err(TryFromObjectError),
        }
    }
}

/// The archived form of a kernel object.
#[derive(Debug, Clone, PartialEq, Eq)]
pub enum ArchivedObject<D, M> {
    Untyped(object::ArchivedUntyped),
    Endpoint,
    Notification,
    CNode(object::ArchivedCNode),
    Tcb(object::ArchivedTcb),
    Irq(object::ArchivedIrq),
    VCpu,
    Frame(object::ArchivedFrame<D, M>),
    PageTable(object::ArchivedPageTable),
    AsidPool(object::ArchivedAsidPool),
    ArmIrq(object::ArchivedArmIrq),
    IrqMsi(object::ArchivedIrqMsi),
    IrqIOApic(object::ArchivedIrqIOApic),
    RiscvIrq(object::ArchivedRiscvIrq),
    IOPorts(object::ArchivedIOPorts),
    SchedContext(object::ArchivedSchedContext),
    Reply,
    ArmSmc,
}

impl<D, M> ArchivedObject<D, M> {
    /// The physical address that the object is bound to, if it is bound to
    /// one. Only untyped objects and frames can be.
    pub open spec fn spec_paddr(&self) -> Option<u64> {
        match self {
            ArchivedObject::Untyped(obj) => obj.paddr,
            ArchivedObject::Frame(obj) => obj.paddr,
            _ => None,
        }
    }

    pub fn paddr(&self) -> (r: Option<u64>)
        ensures
            r == self.spec_paddr(),
    {
        match self {
            ArchivedObject::Untyped(obj) => obj.paddr,
            ArchivedObject::Frame(obj) => obj.paddr,
            _ => None,
        }
    }

    /// The object as an `object::ArchivedUntyped`, if it is one.
    pub fn as_untyped(&self) -> (r: Result<&object::ArchivedUntyped, TryFromObjectError>)
        ensures
            match self {
                ArchivedObject::Untyped(obj) => r == Ok::<&object::ArchivedUntyped, TryFromObjectError>(obj),
                _ => r is Err,
            },
    {
        match self {
            ArchivedObject::Untyped(obj) => Ok(obj),
            _ => Err(TryFromObjectError),
        }
    }

    /// The object as an `object::ArchivedCNode`, if it is one.
    pub fn as_cnode(&self) -> (r: Result<&object::ArchivedCNode, TryFromObjectError>)
        ensures
            match self {
                ArchivedObject::CNode(obj) => r == Ok::<&object::ArchivedCNode, TryFromObjectError>(obj),
                _ => r is Err,
            },
    {
        match self {
            ArchivedObject::CNode(obj) => Ok(obj),
            _ => Err(TryFromObjectError),
        }
    }

    /// The object as an `object::ArchivedTcb`, if it is one.
    pub fn as_tcb(&self) -> (r: Result<&object::ArchivedTcb, TryFromObjectError>)
        ensures
            match self {
                ArchivedObject::Tcb(obj) => r == Ok::<&object::ArchivedTcb, TryFromObjectError>(obj),
                _ => r is Err,
            },
    {
        match self {
            ArchivedObject::Tcb(obj) => Ok(obj),
            _ => Err(TryFromObjectError),
        }
    }

    /// The object as an `object::ArchivedIrq`, if it is one.
    pub fn as_irq(&self) -> (r: Result<&object::ArchivedIrq, TryFromObjectError>)
        ensures
            match self {
                ArchivedObject::Irq(obj) => r == Ok::<&object::ArchivedIrq, TryFromObjectError>(obj),
                _ => r is Err,
            },
    {
        match self {
            ArchivedObject::Irq(obj) => Ok(obj),
            _ => Err(TryFromObjectError),
        }
    }

    /// The object as an `object::ArchivedFrame`, if it is one.
    pub fn as_frame(&self) -> (r: Result<&object::ArchivedFrame<D, M>, TryFromObjectError>)
        ensures
            match self {
                ArchivedObject::Frame(obj) => r == Ok::<&object::ArchivedFrame<D, M>, TryFromObjectError>(obj),
                _ => r is Err,
            },
    {
        match self {
            ArchivedObject::Frame(obj) => Ok(obj),
            _ => Err(TryFromObjectError),
        }
    }

    /// The object as an `object::ArchivedPageTable`, if it is one.
    pub fn as_page_table(&self) -> (r: Result<&object::ArchivedPageTable, TryFromObjectError>)
        ensures
            match self {
                ArchivedObject::PageTable(obj) => r == Ok::<&object::ArchivedPageTable, TryFromObjectError>(obj),
                _ => r is Err,
            },
    {
        match self {
            ArchivedObject::PageTable(obj) => Ok(obj),
            _ => Err(TryFromObjectError),
        }
    }

    /// The object as an `object::ArchivedAsidPool`, if it is one.
    pub fn as_asid_pool(&self) -> (r: Result<&object::ArchivedAsidPool, TryFromObjectError>)
        ensures
            match self {
                ArchivedObject::AsidPool(obj) => r == Ok::<&object::ArchivedAsidPool, TryFromObjectError>(obj),
                _ => r is Err,
            },
    {
        match self {
            ArchivedObject::AsidPool(obj) => Ok(obj),
            _ => Err(TryFromObjectError),
        }
    }

    /// The object as an `object::ArchivedArmIrq`, if it is one.
    pub fn as_arm_irq(&self) -> (r: Result<&object::ArchivedArmIrq, TryFromObjectError>)
        ensures
            match self {
                ArchivedObject::ArmIrq(obj) => r == Ok::<&object::ArchivedArmIrq, TryFromObjectError>(obj),
                _ => r is Err,
            },
    {
        match self {
            ArchivedObject::ArmIrq(obj) => Ok(obj),
            _ => Err(TryFromObjectError),
        }
    }

    /// The object as an `object::ArchivedIrqMsi`, if it is one.
    pub fn as_irq_msi(&self) -> (r: Result<&object::ArchivedIrqMsi, TryFromObjectError>)
        ensures
            match self {
                ArchivedObject::IrqMsi(obj) => r == Ok::<&object::ArchivedIrqMsi, TryFromObjectError>(obj),
                _ => r is Err,
            },
    {
        match self {
            ArchivedObject::IrqMsi(obj) => Ok(obj),
            _ => Err(TryFromObjectError),
        }
    }

    /// The object as an `object::ArchivedIrqIOApic`, if it is one.
    pub fn as_irq_ioapic(&self) -> (r: Result<&object::ArchivedIrqIOApic, TryFromObjectError>)
        ensures
            match self {
                ArchivedObject::IrqIOApic(obj) => r == Ok::<&object::ArchivedIrqIOApic, TryFromObjectError>(obj),
                _ => r is Err,
            },
    {
        match self {
            ArchivedObject::IrqIOApic(obj) => Ok(obj),
            _ => Err(TryFromObjectError),
        }
    }

    /// The object as an `object::ArchivedRiscvIrq`, if it is one.
    pub fn as_riscv_irq(&self) -> (r: Result<&object::ArchivedRiscvIrq, TryFromObjectError>)
        ensures
            match self {
                ArchivedObject::RiscvIrq(obj) => r == Ok::<&object::ArchivedRiscvIrq, TryFromObjectError>(obj),
                _ => r is Err,
            },
    {
        match self {
            ArchivedObject::RiscvIrq(obj) => Ok(obj),
            _ => Err(TryFromObjectError),
        }
    }

    /// The object as an `object::ArchivedIOPorts`, if it is one.
    pub fn as_ioports(&self) -> (r: Result<&object::ArchivedIOPorts, TryFromObjectError>)
        ensures
            match self {
                ArchivedObject::IOPorts(obj) => r == Ok::<&object::ArchivedIOPorts, TryFromObjectError>(obj),
                _ => r is Err,
            },
    {
        match self {
            ArchivedObject::IOPorts(obj) => Ok(obj),
            _ => Err(TryFromObjectError),
        }
    }

    /// The object as an `object::ArchivedSchedContext`, if it is one.
    pub fn as_sched_context(&self) -> (r: Result<&object::ArchivedSchedContext, TryFromObjectError>)
        ensures
            match self {
                ArchivedObject::SchedContext(obj) => r == Ok::<&object::ArchivedSchedContext, TryFromObjectError>(obj),
                _ => r is Err,
            },
    {
        match self {
            ArchivedObject::SchedContext(obj) => Ok(obj),
            _ => Err(TryFromObjectError),
        }
    }
}

/// An object is not of the type that was asked for.
#[derive(Debug, Clone, Copy, PartialEq, Eq, Structural)]
pub struct TryFromObjectError;

/// A capability is not of the type that was asked for.
#[derive(Debug, Clone, Copy, PartialEq, Eq, Structural)]
pub struct TryFromCapError;

impl TryFromObjectError {
    /// The message of the error.
    pub fn message(&self) -> (r: &'static str)
        ensures
            r@ == "object type mismatch"@,
    {
        "object type mismatch"
    }
}

impl TryFromCapError {
    /// The message of the error.
    pub fn message(&self) -> (r: &'static str)
        ensures
            r@ == "object type mismatch"@,
    {
        "object type mismatch"
    }
}

} // verus!

use vstd::prelude::*;

use crate::capdl::spec::ArchivedObjectId;
use crate::capdl::spec::ArchivedRights;
use crate::capdl::spec::ArchivedWord;
use crate::capdl::spec::ObjectId;
use crate::capdl::spec::PortableWord;
use crate::capdl::spec::Rights;

verus! {

/// An untyped-memory capability.
#[derive(Debug, Clone, Copy, PartialEq, Eq, Structural)]
pub struct Untyped {
    pub object: ObjectId,
}

/// An endpoint capability. A badge of 0 means no badge.
#[derive(Debug, Clone, Copy, PartialEq, Eq, Structural)]
pub struct Endpoint {
    pub object: ObjectId,
    pub badge: PortableWord,
    pub rights: Rights,
}

/// A notification capability. A badge of 0 means no badge.
#[derive(Debug, Clone, Copy, PartialEq, Eq, Structural)]
pub struct Notification {
    pub object: ObjectId,
    pub badge: PortableWord,
    pub rights: Rights,
}

/// A capability to a CNode, with the guard that addressing through it applies.
#[derive(Debug, Clone, Copy, PartialEq, Eq, Structural)]
pub struct CNode {
    pub object: ObjectId,
    pub guard: PortableWord,
    pub guard_size: PortableWord,
}

/// A capability to a thread control block.
#[derive(Debug, Clone, Copy, PartialEq, Eq, Structural)]
pub struct Tcb {
    pub object: ObjectId,
}

/// A capability to handle an interrupt.
#[derive(Debug, Clone, Copy, PartialEq, Eq, Structural)]
pub struct IrqHandler {
    pub object: ObjectId,
}

/// A capability to a virtual CPU.
#[derive(Debug, Clone, Copy, PartialEq, Eq, Structural)]
pub struct VCpu {
    pub object: ObjectId,
}

/// A capability to map a frame, with the rights and caching of the mapping.
#[derive(Debug, Clone, Copy, PartialEq, Eq, Structural)]
pub struct Frame {
    pub object: ObjectId,
    pub rights: Rights,
    pub cached: bool,
}

/// A capability to a page table.
#[derive(Debug, Clone, Copy, PartialEq, Eq, Structural)]
pub struct PageTable {
    pub object: ObjectId,
}

/// A capability to an ASID pool.
#[derive(Debug, Clone, Copy, PartialEq, Eq, Structural)]
pub struct AsidPool {
    pub object: ObjectId,
}

/// A capability to handle an Arm interrupt.
#[derive(Debug, Clone, Copy, PartialEq, Eq, Structural)]
pub struct ArmIrqHandler {
    pub object: ObjectId,
}

/// A capability to handle a message-signalled interrupt.
#[derive(Debug, Clone, Copy, PartialEq, Eq, Structural)]
pub struct IrqMsiHandler {
    pub object: ObjectId,
}

/// A capability to handle an I/O APIC interrupt.
#[derive(Debug, Clone, Copy, PartialEq, Eq, Structural)]
pub struct IrqIOApicHandler {
    pub object: ObjectId,
}

/// A capability to handle a RISC-V interrupt.
#[derive(Debug, Clone, Copy, PartialEq, Eq, Structural)]
pub struct RiscvIrqHandler {
    pub object: ObjectId,
}

/// A capability to a range of I/O ports.
#[derive(Debug, Clone, Copy, PartialEq, Eq, Structural)]
pub struct IOPorts {
    pub object: ObjectId,
}

/// A capability to a scheduling context.
#[derive(Debug, Clone, Copy, PartialEq, Eq, Structural)]
pub struct SchedContext {
    pub object: ObjectId,
}

/// A capability to a reply object.
#[derive(Debug, Clone, Copy, PartialEq, Eq, Structural)]
pub struct Reply {
    pub object: ObjectId,
}

/// A capability to make secure monitor calls.
#[derive(Debug, Clone, Copy, PartialEq, Eq, Structural)]
pub struct ArmSmc {
    pub object: ObjectId,
}

/// The archived form of an untyped-memory capability.
#[derive(Debug, Clone, Copy, PartialEq, Eq, Structural)]
pub struct ArchivedUntyped {
    pub object: ArchivedObjectId,
}

/// The archived form of an endpoint capability. The archived form of a badge of 0 means no badge.
#[derive(Debug, Clone, Copy, PartialEq, Eq, Structural)]
pub struct ArchivedEndpoint {
    pub object: ArchivedObjectId,
    pub badge: ArchivedWord,
    pub rights: ArchivedRights,
}

/// The archived form of a notification capability. A badge of 0 means no badge.
#[derive(Debug, Clone, Copy, PartialEq, Eq, Structural)]
pub struct ArchivedNotification {
    pub object: ArchivedObjectId,
    pub badge: ArchivedWord,
    pub rights: ArchivedRights,
}

/// The archived form of a capability to a CNode, with the guard that addressing through it applies.
#[derive(Debug, Clone, Copy, PartialEq, Eq, Structural)]
pub struct ArchivedCNode {
    pub object: ArchivedObjectId,
    pub guard: ArchivedWord,
    pub guard_size: ArchivedWord,
}

/// The archived form of a capability to a thread control block.
#[derive(Debug, Clone, Copy, PartialEq, Eq, Structural)]
pub struct ArchivedTcb {
    pub object: ArchivedObjectId,
}

/// The archived form of a capability to handle an interrupt.
#[derive(Debug, Clone, Copy, PartialEq, Eq, Structural)]
pub struct ArchivedIrqHandler {
    pub object: ArchivedObjectId,
}

/// The archived form of a capability to a virtual CPU.
#[derive(Debug, Clone, Copy, PartialEq, Eq, Structural)]
pub struct ArchivedVCpu {
    pub object: ArchivedObjectId,
}

/// The archived form of a capability to map a frame, with the rights and caching of the mapping.
#[derive(Debug, Clone, Copy, PartialEq, Eq, Structural)]
pub struct ArchivedFrame {
    pub object: ArchivedObjectId,
    pub rights: ArchivedRights,
    pub cached: bool,
}

/// The archived form of a capability to a page table.
#[derive(Debug, Clone, Copy, PartialEq, Eq, Structural)]
pub struct ArchivedPageTable {
    pub object: ArchivedObjectId,
}

/// The archived form of a capability to an ASID pool.
#[derive(Debug, Clone, Copy, PartialEq, Eq, Structural)]
pub struct ArchivedAsidPool {
    pub object: ArchivedObjectId,
}

/// The archived form of a capability to handle an Arm interrupt.
#[derive(Debug, Clone, Copy, PartialEq, Eq, Structural)]
pub struct ArchivedArmIrqHandler {
    pub object: ArchivedObjectId,
}

/// The archived form of a capability to handle a message-signalled interrupt.
#[derive(Debug, Clone, Copy, PartialEq, Eq, Structural)]
pub struct ArchivedIrqMsiHandler {
    pub object: ArchivedObjectId,
}

/// The archived form of a capability to handle an I/O APIC interrupt.
#[derive(Debug, Clone, Copy, PartialEq, Eq, Structural)]
pub struct ArchivedIrqIOApicHandler {
    pub object: ArchivedObjectId,
}

/// The archived form of a capability to handle a RISC-V interrupt.
#[derive(Debug, Clone, Copy, PartialEq, Eq, Structural)]
pub struct ArchivedRiscvIrqHandler {
    pub object: ArchivedObjectId,
}

/// The archived form of a capability to a range of I/O ports.
#[derive(Debug, Clone, Copy, PartialEq, Eq, Structural)]
pub struct ArchivedIOPorts {
    pub object: ArchivedObjectId,
}

/// The archived form of a capability to a scheduling context.
#[derive(Debug, Clone, Copy, PartialEq, Eq, Structural)]
pub struct ArchivedSchedContext {
    pub object: ArchivedObjectId,
}

/// The archived form of a capability to a reply object.
#[derive(Debug, Clone, Copy, PartialEq, Eq, Structural)]
pub struct ArchivedReply {
    pub object: ArchivedObjectId,
}

/// The archived form of a capability to make secure monitor calls.
#[derive(Debug, Clone, Copy, PartialEq, Eq, Structural)]
pub struct ArchivedArmSmc {
    pub object: ArchivedObjectId,
}

} // verus!

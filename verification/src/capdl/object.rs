use vstd::prelude::*;

use crate::capdl::frame_init::ArchivedFrameInit;
use crate::capdl::frame_init::FrameInit;
use crate::capdl::spec::ArchivedCapTableEntry;
use crate::capdl::spec::ArchivedWord;
use crate::capdl::spec::CapTableEntry;
use crate::capdl::spec::PortableBadge;
use crate::capdl::spec::PortableCPtr;
use crate::capdl::spec::PortableWord;

verus! {


/// Untyped memory of `2^size_bits` bytes.
#[derive(Debug, Clone, Copy, PartialEq, Eq, Structural)]
pub struct Untyped {
    pub size_bits: u8,
    pub paddr: Option<u64>,
}

/// A table of `2^size_bits` capability slots.
#[derive(Debug, Clone, PartialEq, Eq)]
pub struct CNode {
    pub size_bits: u8,
    pub slots: Vec<CapTableEntry>,
}

/// A thread control block.
#[derive(Debug, Clone, PartialEq, Eq)]
pub struct Tcb {
    pub slots: Vec<CapTableEntry>,
    pub extra: Box<TcbExtraInfo>,
}

#[derive(Debug, Clone, PartialEq, Eq)]
pub struct TcbExtraInfo {
    pub ipc_buffer_addr: PortableWord,
    pub affinity: PortableWord,
    pub prio: u8,
    pub max_prio: u8,
    pub resume: bool,
    pub ip: PortableWord,
    pub sp: PortableWord,
    pub gprs: Vec<PortableWord>,
    pub master_fault_ep: Option<PortableCPtr>,
}

/// An interrupt.
#[derive(Debug, Clone, PartialEq, Eq)]
pub struct Irq {
    pub slots: Vec<CapTableEntry>,
}

/// A frame of `2^size_bits` bytes and what it holds at first.
#[derive(Debug, Clone, PartialEq, Eq)]
pub struct Frame<D, M> {
    pub size_bits: u8,
    pub paddr: Option<u64>,
    pub init: FrameInit<D, M>,
}

#[derive(Debug, Clone, PartialEq, Eq)]
pub struct PageTable {
    pub is_root: bool,
    pub level: Option<u8>,
    pub slots: Vec<CapTableEntry>,
}

#[derive(Debug, Clone, Copy, PartialEq, Eq, Structural)]
pub struct AsidPool {
    pub high: PortableWord,
}

#[derive(Debug, Clone, PartialEq, Eq)]
pub struct ArmIrq {
    pub slots: Vec<CapTableEntry>,
    pub extra: Box<ArmIrqExtraInfo>,
}

#[derive(Debug, Clone, Copy, PartialEq, Eq, Structural)]
pub struct ArmIrqExtraInfo {
    pub trigger: PortableWord,
    pub target: PortableWord,
}

#[derive(Debug, Clone, PartialEq, Eq)]
pub struct IrqMsi {
    pub slots: Vec<CapTableEntry>,
    pub extra: Box<IrqMsiExtraInfo>,
}

#[derive(Debug, Clone, Copy, PartialEq, Eq, Structural)]
pub struct IrqMsiExtraInfo {
    pub handle: PortableWord,
    pub pci_bus: PortableWord,
    pub pci_dev: PortableWord,
    pub pci_func: PortableWord,
}

#[derive(Debug, Clone, PartialEq, Eq)]
pub struct IrqIOApic {
    pub slots: Vec<CapTableEntry>,
    pub extra: Box<IrqIOApicExtraInfo>,
}

#[derive(Debug, Clone, Copy, PartialEq, Eq, Structural)]
pub struct IrqIOApicExtraInfo {
    pub ioapic: PortableWord,
    pub pin: PortableWord,
    pub level: PortableWord,
    pub polarity: PortableWord,
}

#[derive(Debug, Clone, PartialEq, Eq)]
pub struct RiscvIrq {
    pub slots: Vec<CapTableEntry>,
    pub extra: RiscvIrqExtraInfo,
}

#[derive(Debug, Clone, Copy, PartialEq, Eq, Structural)]
pub struct RiscvIrqExtraInfo {
    pub trigger: PortableWord,
}

#[derive(Debug, Clone, Copy, PartialEq, Eq, Structural)]
pub struct IOPorts {
    pub start_port: PortableWord,
    pub end_port: PortableWord,
}

#[derive(Debug, Clone, Copy, PartialEq, Eq, Structural)]
pub struct SchedContext {
    pub size_bits: u8,
    pub extra: SchedContextExtraInfo,
}

#[derive(Debug, Clone, Copy, PartialEq, Eq, Structural)]
pub struct SchedContextExtraInfo {
    pub period: u64,
    pub budget: u64,
    pub badge: PortableBadge,
}



/// Archived: archivedUntyped memory of `2^size_bits` bytes.
#[derive(Debug, Clone, Copy, PartialEq, Eq, Structural)]
pub struct ArchivedUntyped {
    pub size_bits: u8,
    pub paddr: Option<u64>,
}

/// Archived: a table of `2^size_bits` capability slots.
#[derive(Debug, Clone, PartialEq, Eq)]
pub struct ArchivedCNode {
    pub size_bits: u8,
    pub slots: Vec<ArchivedCapTableEntry>,
}

/// Archived: a thread control block.
#[derive(Debug, Clone, PartialEq, Eq)]
pub struct ArchivedTcb {
    pub slots: Vec<ArchivedCapTableEntry>,
    pub extra: Box<ArchivedTcbExtraInfo>,
}

#[derive(Debug, Clone, PartialEq, Eq)]
pub struct ArchivedTcbExtraInfo {
    pub ipc_buffer_addr: ArchivedWord,
    pub affinity: ArchivedWord,
    pub prio: u8,
    pub max_prio: u8,
    pub resume: bool,
    pub ip: ArchivedWord,
    pub sp: ArchivedWord,
    pub gprs: Vec<ArchivedWord>,
    pub master_fault_ep: Option<ArchivedWord>,
}

/// Archived: an interrupt.
#[derive(Debug, Clone, PartialEq, Eq)]
pub struct ArchivedIrq {
    pub slots: Vec<ArchivedCapTableEntry>,
}

/// Archived: a frame of `2^size_bits` bytes and what it holds at first.
#[derive(Debug, Clone, PartialEq, Eq)]
pub struct ArchivedFrame<D, M> {
    pub size_bits: u8,
    pub paddr: Option<u64>,
    pub init: ArchivedFrameInit<D, M>,
}

#[derive(Debug, Clone, PartialEq, Eq)]
pub struct ArchivedPageTable {
    pub is_root: bool,
    pub level: Option<u8>,
    pub slots: Vec<ArchivedCapTableEntry>,
}

#[derive(Debug, Clone, Copy, PartialEq, Eq, Structural)]
pub struct ArchivedAsidPool {
    pub high: ArchivedWord,
}

#[derive(Debug, Clone, PartialEq, Eq)]
pub struct ArchivedArmIrq {
    pub slots: Vec<ArchivedCapTableEntry>,
    pub extra: Box<ArchivedArmIrqExtraInfo>,
}

#[derive(Debug, Clone, Copy, PartialEq, Eq, Structural)]
pub struct ArchivedArmIrqExtraInfo {
    pub trigger: ArchivedWord,
    pub target: ArchivedWord,
}

#[derive(Debug, Clone, PartialEq, Eq)]
pub struct ArchivedIrqMsi {
    pub slots: Vec<ArchivedCapTableEntry>,
    pub extra: Box<ArchivedIrqMsiExtraInfo>,
}

#[derive(Debug, Clone, Copy, PartialEq, Eq, Structural)]
pub struct ArchivedIrqMsiExtraInfo {
    pub handle: ArchivedWord,
    pub pci_bus: ArchivedWord,
    pub pci_dev: ArchivedWord,
    pub pci_func: ArchivedWord,
}

#[derive(Debug, Clone, PartialEq, Eq)]
pub struct ArchivedIrqIOApic {
    pub slots: Vec<ArchivedCapTableEntry>,
    pub extra: Box<ArchivedIrqIOApicExtraInfo>,
}

#[derive(Debug, Clone, Copy, PartialEq, Eq, Structural)]
pub struct ArchivedIrqIOApicExtraInfo {
    pub ioapic: ArchivedWord,
    pub pin: ArchivedWord,
    pub level: ArchivedWord,
    pub polarity: ArchivedWord,
}

#[derive(Debug, Clone, PartialEq, Eq)]
pub struct ArchivedRiscvIrq {
    pub slots: Vec<ArchivedCapTableEntry>,
    pub extra: ArchivedRiscvIrqExtraInfo,
}

#[derive(Debug, Clone, Copy, PartialEq, Eq, Structural)]
pub struct ArchivedRiscvIrqExtraInfo {
    pub trigger: ArchivedWord,
}

#[derive(Debug, Clone, Copy, PartialEq, Eq, Structural)]
pub struct ArchivedIOPorts {
    pub start_port: ArchivedWord,
    pub end_port: ArchivedWord,
}

#[derive(Debug, Clone, Copy, PartialEq, Eq, Structural)]
pub struct ArchivedSchedContext {
    pub size_bits: u8,
    pub extra: ArchivedSchedContextExtraInfo,
}

#[derive(Debug, Clone, Copy, PartialEq, Eq, Structural)]
pub struct ArchivedSchedContextExtraInfo {
    pub period: u64,
    pub budget: u64,
    pub badge: ArchivedWord,
}

} // verus!

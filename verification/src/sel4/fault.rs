use vstd::prelude::*;

use crate::sel4::arch::aarch64::UnknownSyscall;
use crate::sel4::Word;

verus! {

/// No fault.
#[derive(Debug, Clone, Copy, PartialEq, Eq, Structural)]
pub struct NullFault;

/// A fault in the lookup of a capability.
#[derive(Debug, Clone, Copy, PartialEq, Eq, Structural)]
pub struct CapFault;

/// An exception that the thread raised.
#[derive(Debug, Clone, Copy, PartialEq, Eq, Structural)]
pub struct UserException;

/// A thread ran out of budget.
#[derive(Debug, Clone, Copy, PartialEq, Eq, Structural)]
pub struct Timeout;

/// A fault of the virtual memory: the instruction and the address of the
/// access, and the fault status that the hardware gave.
#[derive(Debug, Clone, Copy, PartialEq, Eq, Structural)]
pub struct VmFault {
    pub ip: Word,
    pub addr: Word,
    pub prefetch_fault: Word,
    pub fsr: Word,
}

impl VmFault {
    pub fn ip(&self) -> (r: Word)
        ensures
            r == self.ip,
    {
        self.ip
    }

    pub fn addr(&self) -> (r: Word)
        ensures
            r == self.addr,
    {
        self.addr
    }

    pub fn fsr(&self) -> (r: Word)
        ensures
            r == self.fsr,
    {
        self.fsr
    }

    /// Whether the fault came from fetching an instruction.
    pub fn is_prefetch(&self) -> (r: bool)
        ensures
            r == (self.prefetch_fault != 0),
    {
        self.prefetch_fault != 0
    }
}

/// The virtual interrupt controller needs maintenance.
#[derive(Debug, Clone, Copy, PartialEq, Eq, Structural)]
pub struct VGicMaintenance {
    pub idx: Word,
}

impl VGicMaintenance {
    /// The index of the list register concerned, if there is one: the
    /// kernel gives the greatest word where there is none.
    pub fn idx(&self) -> (r: Option<Word>)
        ensures
            self.idx == Word::MAX ==> r.is_none(),
            self.idx != Word::MAX ==> r == Some(self.idx),
    {
        if self.idx == Word::MAX {
            None
        } else {
            Some(self.idx)
        }
    }
}

/// A fault of a virtual CPU, with the syndrome that the hardware gave.
#[derive(Debug, Clone, Copy, PartialEq, Eq, Structural)]
pub struct VCpuFault {
    pub hsr: Word,
}

impl VCpuFault {
    pub fn hsr(&self) -> (r: Word)
        ensures
            r == self.hsr,
    {
        self.hsr
    }
}

/// A private peripheral interrupt of a virtual CPU.
#[derive(Debug, Clone, Copy, PartialEq, Eq, Structural)]
pub struct VPpiEvent {
    pub irq: Word,
}

impl VPpiEvent {
    pub fn irq(&self) -> (r: Word)
        ensures
            r == self.irq,
    {
        self.irq
    }
}

/// What made a thread fault.
#[derive(Debug, Clone, Copy, PartialEq, Eq, Structural)]
pub enum Fault {
    NullFault(NullFault),
    CapFault(CapFault),
    UnknownSyscall(UnknownSyscall),
    UserException(UserException),
    VmFault(VmFault),
    Timeout(Timeout),
    VGicMaintenance(VGicMaintenance),
    VCpuFault(VCpuFault),
    VPpiEvent(VPpiEvent),
}

} // verus!

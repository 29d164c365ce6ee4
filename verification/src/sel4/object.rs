use vstd::prelude::*;

use crate::sel4::Word;

verus! {

/// The rights of a capability in the kernel's terms.
#[derive(Debug, Clone, Copy, PartialEq, Eq, Structural)]
pub struct CapRights {
    pub grant_reply: bool,
    pub grant: bool,
    pub read: bool,
    pub write: bool,
}

impl CapRights {
    pub fn new(grant_reply: bool, grant: bool, read: bool, write: bool) -> (r: Self)
        ensures
            r == (CapRights { grant_reply, grant, read, write }),
    {
        CapRights { grant_reply, grant, read, write }
    }
}

/// The guard of a capability to a CNode, as the kernel takes it in one
/// word: the guard in the upper 58 bits, the number of its bits in the
/// lower 6.
#[derive(Debug, Clone, Copy, PartialEq, Eq, Structural)]
pub struct CNodeCapData {
    pub guard: Word,
    pub guard_size: Word,
}

impl CNodeCapData {
    /// The word for a guard and its size: the low 58 bits of the guard
    /// above the low 6 bits of the size.
    pub open spec fn word_of(guard: Word, guard_size: Word) -> Word {
        ((guard & 0x03ff_ffff_ffff_ffff) << 6) | (guard_size & 0x3f)
    }

    pub fn new(guard: Word, guard_size: Word) -> (r: Self)
        ensures
            r == (CNodeCapData { guard, guard_size }),
    {
        CNodeCapData { guard, guard_size }
    }

    pub fn into_word(self) -> (r: Word)
        ensures
            r == CNodeCapData::word_of(self.guard, self.guard_size),
            self.guard < 0x0400_0000_0000_0000 && self.guard_size < 64 ==> r == self.guard * 64
                + self.guard_size,
    {
        let guard = self.guard;
        let size = self.guard_size;
        assert(guard < 0x0400_0000_0000_0000 && size < 64 ==> ((guard & 0x03ff_ffff_ffff_ffff) << 6)
            | (size & 0x3f) == guard * 64 + size) by (bit_vector);
        ((guard & 0x03ff_ffff_ffff_ffff) << 6) | (size & 0x3f)
    }
}

/// What the kernel is configured with, as far as it decides which objects
/// can be made.
#[derive(Debug, Clone, Copy, PartialEq, Eq, Structural)]
pub struct KernelFeatures {
    pub arch: Arch,
    /// Threads can run as virtual CPUs: hypervisor support on Arm, VT-x on
    /// x86.
    pub virtualization: bool,
    /// The kernel schedules by scheduling contexts.
    pub mcs: bool,
}

/// What it takes to make an object out of untyped memory: its type and,
/// where the type comes in sizes, the size.
#[derive(Debug, Clone, Copy, PartialEq, Eq, Structural)]
pub enum ObjectBlueprint {
    Untyped { size_bits: usize },
    Endpoint,
    Notification,
    CNode { size_bits: usize },
    Tcb,
    VCpu,
    /// A frame of `2^size_bits` bytes.
    Frame { size_bits: usize },
    /// The root of an address space on AArch64.
    VSpace,
    /// The root of an address space on AArch32: a page directory.
    PD,
    /// A page table on Arm below the root.
    PT,
    /// A page table on RISC-V, at any level.
    PageTable,
    /// A paging structure on x86-64 at a level, the root being at level 0.
    PagingStructure { level: u8 },
    AsidPool,
    SchedContext { size_bits: usize },
    Reply,
}

/// What a chunk of extra boot information holds.
#[derive(Debug, Clone, Copy, PartialEq, Eq, Structural)]
pub enum BootInfoExtraId {
    /// The flattened device tree.
    Fdt,
}

/// An architecture that the kernel runs on.
#[derive(Debug, Clone, Copy, PartialEq, Eq, Structural)]
pub enum Arch {
    AArch64,
    AArch32,
    Riscv64,
    Riscv32,
    X86_64,
}

/// The attributes of a mapping, by their names in the kernel's interface.
#[derive(Debug, Clone, Copy, PartialEq, Eq, Structural)]
pub enum VmAttributes {
    /// The default attributes of the architecture: a cached mapping.
    DefaultAttributes,
    /// No attribute at all.
    NoAttributes,
    /// The cache is disabled for the mapping.
    CacheDisabled,
}

impl Default for VmAttributes {
    fn default() -> (r: Self)
        ensures
            r == VmAttributes::DefaultAttributes,
    {
        VmAttributes::DefaultAttributes
    }
}

} // verus!

use vstd::prelude::*;

use crate::capdl::cap;
use crate::capdl::frame_init::ArchivedFillEntryContentBootInfoId;
use crate::capdl::spec::ArchivedCap;
use crate::capdl::spec::ArchivedObject;
use crate::capdl::spec::ArchivedRights;
use crate::capdl::spec::ArchivedWord;
use crate::sel4::object::Arch;
use crate::sel4::object::BootInfoExtraId;
use crate::sel4::object::CNodeCapData;
use crate::sel4::object::CapRights;
use crate::sel4::object::KernelFeatures;
use crate::sel4::object::ObjectBlueprint;
use crate::sel4::object::VmAttributes;
use crate::sel4::Word;

verus! {

impl ArchivedCap {
    /// The rights that the capability is given, if it is of a kind that
    /// has rights: an endpoint, a notification or a frame.
    pub open spec fn spec_rights(&self) -> Option<ArchivedRights> {
        match self {
            ArchivedCap::Endpoint(cap) => Some(cap.rights),
            ArchivedCap::Notification(cap) => Some(cap.rights),
            ArchivedCap::Frame(cap) => Some(cap.rights),
            _ => None,
        }
    }

    pub fn rights(&self) -> (r: Option<CapRights>)
        ensures
            match self.spec_rights() {
                Some(rights) => r == Some(rights.spec_to_sel4()),
                None => r.is_none(),
            },
    {
        match self {
            ArchivedCap::Endpoint(cap) => Some(cap.rights.to_sel4()),
            ArchivedCap::Notification(cap) => Some(cap.rights.to_sel4()),
            ArchivedCap::Frame(cap) => Some(cap.rights.to_sel4()),
            _ => None,
        }
    }
}

impl ArchivedCap {
    /// The badge that the capability is minted with, if it is of a kind
    /// that is minted with one: the badge of an endpoint or a notification,
    /// and for a CNode the word that holds its guard.
    pub open spec fn spec_badge(&self) -> Option<Word> {
        match self {
            ArchivedCap::Endpoint(cap) => Some(cap.badge.0),
            ArchivedCap::Notification(cap) => Some(cap.badge.0),
            ArchivedCap::CNode(cap) => Some(CNodeCapData::word_of(cap.guard.0, cap.guard_size.0)),
            _ => None,
        }
    }

    pub fn badge(&self) -> (r: Option<Word>)
        ensures
            r == self.spec_badge(),
    {
        match self {
            ArchivedCap::Endpoint(cap) => Some(cap.badge.to_sel4()),
            ArchivedCap::Notification(cap) => Some(cap.badge.to_sel4()),
            ArchivedCap::CNode(cap) => Some(
                CNodeCapData::new(cap.guard.to_sel4(), cap.guard_size.to_sel4()).into_word(),
            ),
            _ => None,
        }
    }
}

impl<D, M> ArchivedObject<D, M> {
    /// The blueprint of the object under a kernel with the given features,
    /// or `None` for an object that is not made out of untyped memory
    /// there: an interrupt, a set of I/O ports, a virtual CPU without
    /// virtualization, a scheduling context or a reply object without
    /// scheduling contexts.
    pub open spec fn spec_blueprint(&self, features: KernelFeatures) -> Option<ObjectBlueprint> {
        match self {
            ArchivedObject::Untyped(obj) => Some(
                ObjectBlueprint::Untyped { size_bits: obj.size_bits as usize },
            ),
            ArchivedObject::Endpoint => Some(ObjectBlueprint::Endpoint),
            ArchivedObject::Notification => Some(ObjectBlueprint::Notification),
            ArchivedObject::CNode(obj) => Some(
                ObjectBlueprint::CNode { size_bits: obj.size_bits as usize },
            ),
            ArchivedObject::Tcb(_) => Some(ObjectBlueprint::Tcb),
            ArchivedObject::VCpu => if features.virtualization && (features.arch is AArch64
                || features.arch is X86_64) {
                Some(ObjectBlueprint::VCpu)
            } else {
                None
            },
            ArchivedObject::Frame(obj) => Some(
                ObjectBlueprint::Frame { size_bits: obj.size_bits as usize },
            ),
            ArchivedObject::PageTable(obj) => Some(
                match features.arch {
                    Arch::AArch64 => if obj.is_root {
                        ObjectBlueprint::VSpace
                    } else {
                        ObjectBlueprint::PT
                    },
                    Arch::AArch32 => if obj.is_root {
                        ObjectBlueprint::PD
                    } else {
                        ObjectBlueprint::PT
                    },
                    Arch::Riscv64 | Arch::Riscv32 => ObjectBlueprint::PageTable,
                    Arch::X86_64 => ObjectBlueprint::PagingStructure { level: obj.level.unwrap() },
                },
            ),
            ArchivedObject::AsidPool(_) => Some(ObjectBlueprint::AsidPool),
            ArchivedObject::SchedContext(obj) => if features.mcs {
                Some(ObjectBlueprint::SchedContext { size_bits: obj.size_bits as usize })
            } else {
                None
            },
            ArchivedObject::Reply => if features.mcs {
                Some(ObjectBlueprint::Reply)
            } else {
                None
            },
            _ => None,
        }
    }

    /// Whether the object has what its blueprint takes: on x86-64 a page
    /// table has a level, and it is the root exactly at level 0.
    pub open spec fn blueprint_defined(&self, features: KernelFeatures) -> bool {
        features.arch is X86_64 ==> (self matches ArchivedObject::PageTable(obj)
            ==> (obj.level matches Some(level) && obj.is_root == (level == 0)))
    }

    /// The blueprint of the object under a kernel with the given features.
    /// The blueprint of a frame or of a paging structure carries the size
    /// or the level as the object gives it: whether the architecture has
    /// frames of that size, or structures at that level, is found out where
    /// the object is made.
    pub fn blueprint(&self, features: &KernelFeatures) -> (r: Option<ObjectBlueprint>)
        requires
            self.blueprint_defined(*features),
        ensures
            r == self.spec_blueprint(*features),
    {
        match self {
            ArchivedObject::Untyped(obj) => Some(
                ObjectBlueprint::Untyped { size_bits: obj.size_bits as usize },
            ),
            ArchivedObject::Endpoint => Some(ObjectBlueprint::Endpoint),
            ArchivedObject::Notification => Some(ObjectBlueprint::Notification),
            ArchivedObject::CNode(obj) => Some(
                ObjectBlueprint::CNode { size_bits: obj.size_bits as usize },
            ),
            ArchivedObject::Tcb(_) => Some(ObjectBlueprint::Tcb),
            ArchivedObject::VCpu => {
                let can = match features.arch {
                    Arch::AArch64 => features.virtualization,
                    Arch::X86_64 => features.virtualization,
                    _ => false,
                };
                if can {
                    Some(ObjectBlueprint::VCpu)
                } else {
                    None
                }
            },
            ArchivedObject::Frame(obj) => Some(
                ObjectBlueprint::Frame { size_bits: obj.size_bits as usize },
            ),
            ArchivedObject::PageTable(obj) => Some(
                match features.arch {
                    Arch::AArch64 => if obj.is_root {
                        ObjectBlueprint::VSpace
                    } else {
                        ObjectBlueprint::PT
                    },
                    Arch::AArch32 => if obj.is_root {
                        ObjectBlueprint::PD
                    } else {
                        ObjectBlueprint::PT
                    },
                    Arch::Riscv64 => ObjectBlueprint::PageTable,
                    Arch::Riscv32 => ObjectBlueprint::PageTable,
                    Arch::X86_64 => match obj.level {
                        Some(level) => ObjectBlueprint::PagingStructure { level },
                        None => vstd::pervasive::unreached(),
                    },
                },
            ),
            ArchivedObject::AsidPool(_) => Some(ObjectBlueprint::AsidPool),
            ArchivedObject::SchedContext(obj) => if features.mcs {
                Some(ObjectBlueprint::SchedContext { size_bits: obj.size_bits as usize })
            } else {
                None
            },
            ArchivedObject::Reply => if features.mcs {
                Some(ObjectBlueprint::Reply)
            } else {
                None
            },
            _ => None,
        }
    }
}

impl ArchivedWord {
    pub fn to_sel4(&self) -> (r: Word)
        ensures
            r == self.0,
    {
        self.0
    }
}

impl ArchivedRights {
    pub open spec fn spec_to_sel4(&self) -> CapRights {
        CapRights {
            grant_reply: self.grant_reply,
            grant: self.grant,
            read: self.read,
            write: self.write,
        }
    }

    pub fn to_sel4(&self) -> (r: CapRights)
        ensures
            r == self.spec_to_sel4(),
    {
        CapRights::new(self.grant_reply, self.grant, self.read, self.write)
    }
}

impl ArchivedFillEntryContentBootInfoId {
    pub fn to_sel4(&self) -> (r: BootInfoExtraId)
        ensures
            r == BootInfoExtraId::Fdt,
    {
        match self {
            ArchivedFillEntryContentBootInfoId::Fdt => BootInfoExtraId::Fdt,
        }
    }
}

/// The attributes of a cached mapping: the default ones, on every
/// architecture.
pub open spec fn cached_attributes(arch: Arch) -> VmAttributes {
    VmAttributes::DefaultAttributes
}

/// The attributes of an uncached mapping: no attribute on Arm and RISC-V,
/// a disabled cache on x86.
pub open spec fn uncached_attributes(arch: Arch) -> VmAttributes {
    match arch {
        Arch::X86_64 => VmAttributes::CacheDisabled,
        _ => VmAttributes::NoAttributes,
    }
}

/// The attributes of a mapping on `arch` that is cached or not.
pub fn vm_attributes_from_whether_cached(arch: Arch, cached: bool) -> (r: VmAttributes)
    ensures
        cached ==> r == cached_attributes(arch),
        !cached ==> r == uncached_attributes(arch),
{
    if cached {
        VmAttributes::DefaultAttributes
    } else {
        match arch {
            Arch::X86_64 => VmAttributes::CacheDisabled,
            _ => VmAttributes::NoAttributes,
        }
    }
}

/// A capability that is mapped with attributes.
pub trait HasVmAttributes {
    spec fn spec_vm_attributes(&self, arch: Arch) -> VmAttributes;

    fn vm_attributes(&self, arch: Arch) -> (r: VmAttributes)
        ensures
            r == self.spec_vm_attributes(arch),
    ;
}

impl HasVmAttributes for cap::ArchivedFrame {
    open spec fn spec_vm_attributes(&self, arch: Arch) -> VmAttributes {
        if self.cached {
            cached_attributes(arch)
        } else {
            uncached_attributes(arch)
        }
    }

    fn vm_attributes(&self, arch: Arch) -> (r: VmAttributes) {
        vm_attributes_from_whether_cached(arch, self.cached)
    }
}

impl HasVmAttributes for cap::ArchivedPageTable {
    open spec fn spec_vm_attributes(&self, arch: Arch) -> VmAttributes {
        VmAttributes::DefaultAttributes
    }

    fn vm_attributes(&self, arch: Arch) -> (r: VmAttributes) {
        VmAttributes::default()
    }
}

} // verus!

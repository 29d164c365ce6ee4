use vstd::prelude::*;

verus! {

pub const PSCI_VERSION: u32 = 0x8400_0000;

pub const CPU_ON: u32 = 0xc400_0003;

pub const MIGRATE_INFO_TYPE: u32 = 0x8400_0006;

pub const PSCI_FEATURES: u32 = 0x8400_000a;

} // verus!

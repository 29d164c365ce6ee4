//! The calls of the Power State Coordination Interface that a virtual
//! machine monitor answers.

use vstd::prelude::*;

pub mod fid;
pub mod ret;

verus! {

/// The version of the interface that is implemented: 1.1.
pub const VERSION: i32 = 0x0001_0001;

/// The function id of the native bit width, 64, for the 32-bit id
/// `fid_32`.
pub fn fid_for_native_bit_width(fid_32: u32) -> (r: u32)
    ensures
        r == fid_32 | 0x4000_0000,
{
    fid_32 | 0x4000_0000
}

/// `CPU_ON` is the id of the native bit width for its 32-bit id.
pub proof fn lemma_cpu_on_is_native()
    ensures
        fid::CPU_ON == 0x8400_0003u32 | 0x4000_0000u32,
{
    assert(0xc400_0003u32 == 0x8400_0003u32 | 0x4000_0000u32) by (bit_vector);
}

/// A call of the interface with its arguments.
#[derive(Debug, Clone, Copy, PartialEq, Eq, Structural)]
pub enum Call {
    Version,
    Features { qfid: u32 },
    CpuOn { target_cpu: usize, entry_point_address: usize, context_id: usize },
    MigrateInfoType,
}

/// Why registers could not be read as a call.
#[derive(Debug, Clone, Copy, PartialEq, Eq, Structural)]
pub enum CallParseError {
    UnrecognizedFid { fid: u32 },
}

/// The number of registers that carry a call.
pub const MAX_NUM_ARGS: usize = 5;

/// The low 32 bits of a register.
pub open spec fn low_word(arg: usize) -> u32 {
    (arg as int % 0x1_0000_0000) as u32
}

/// The call that the registers `args` carry, if their function id is known.
pub open spec fn parsed(args: [usize; 5]) -> Result<Call, CallParseError> {
    let fid = low_word(args[0]);
    if fid == fid::PSCI_VERSION {
        Ok(Call::Version)
    } else if fid == fid::PSCI_FEATURES {
        Ok(Call::Features { qfid: low_word(args[1]) })
    } else if fid == fid::CPU_ON {
        Ok(Call::CpuOn { target_cpu: args[1], entry_point_address: args[2], context_id: args[3] })
    } else if fid == fid::MIGRATE_INFO_TYPE {
        Ok(Call::MigrateInfoType)
    } else {
        Err(CallParseError::UnrecognizedFid { fid })
    }
}

/// The low 32 bits of `arg`.
pub fn truncate_to_u32(arg: usize) -> (r: u32)
    ensures
        r == low_word(arg),
{
    let wide = arg as u64;
    assert((wide & 0xffff_ffff) == wide % 0x1_0000_0000) by (bit_vector);
    assert((wide & 0xffff_ffff) < 0x1_0000_0000) by (bit_vector);
    (wide & 0xffff_ffff) as u32
}

impl Call {
    /// Reads the registers of a call: the function id in the low half of
    /// the first, the arguments in the ones that follow.
    pub fn parse(args: &[usize; 5]) -> (r: Result<Self, CallParseError>)
        ensures
            r == parsed(*args),
    {
        let fid = truncate_to_u32(args[0]);
        if fid == fid::PSCI_VERSION {
            Ok(Call::Version)
        } else if fid == fid::PSCI_FEATURES {
            Ok(Call::Features { qfid: truncate_to_u32(args[1]) })
        } else if fid == fid::CPU_ON {
            Ok(Call::CpuOn { target_cpu: args[1], entry_point_address: args[2], context_id: args[3] })
        } else if fid == fid::MIGRATE_INFO_TYPE {
            Ok(Call::MigrateInfoType)
        } else {
            Err(CallParseError::UnrecognizedFid { fid })
        }
    }
}

} // verus!

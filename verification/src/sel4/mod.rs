//! The kernel's data as user level sees it: faults, register contexts and
//! the capability slots of the initial thread.

use vstd::prelude::*;

pub mod arch;
pub mod fault;
pub mod init_thread;
pub mod invocation_context;
pub mod object;

verus! {

/// A machine word.
pub type Word = u64;

/// The badge of a capability.
pub type Badge = Word;

/// The size of a machine word in bits.
pub const WORD_SIZE: usize = 64;

} // verus!

//! Helpers for a supervisor that handles the faults of its threads: the
//! data of faulting memory accesses and the decoding of fault registers.

use vstd::prelude::*;

pub mod aarch64;
pub mod bitfield;
pub mod bytes;
pub mod fault_data;
pub mod hex;
pub mod types;

verus! {

/// A machine word.
pub type Word = u64;

/// What a supervisor reads and writes in the registers of a thread,
/// whatever the architecture.
pub trait UserContextExt: Sized {
    /// The number of parameters that a call in C passes in registers.
    spec fn num_c_params() -> usize;

    spec fn spec_c_param(&self, ix: usize) -> Word;

    spec fn with_c_param(&self, ix: usize, val: Word) -> Self;

    spec fn spec_pc(&self) -> Word;

    spec fn with_pc(&self, val: Word) -> Self;

    spec fn spec_sp(&self) -> Word;

    spec fn with_sp(&self, val: Word) -> Self;

    /// The register that carries the parameter `ix` of a call in C.
    fn c_param(&self, ix: usize) -> (r: &Word)
        requires
            ix < Self::num_c_params(),
        ensures
            *r == self.spec_c_param(ix),
    ;

    fn c_param_mut(&mut self, ix: usize) -> (r: &mut Word)
        requires
            ix < Self::num_c_params(),
        ensures
            *r == old(self).spec_c_param(ix),
            *final(self) == old(self).with_c_param(ix, *final(r)),
    ;

    /// The program counter.
    fn generic_pc(&self) -> (r: &Word)
        ensures
            *r == self.spec_pc(),
    ;

    fn generic_pc_mut(&mut self) -> (r: &mut Word)
        ensures
            *r == old(self).spec_pc(),
            *final(self) == old(self).with_pc(*final(r)),
    ;

    /// The stack pointer.
    fn generic_sp(&self) -> (r: &Word)
        ensures
            *r == self.spec_sp(),
    ;

    fn generic_sp_mut(&mut self) -> (r: &mut Word)
        ensures
            *r == old(self).spec_sp(),
            *final(self) == old(self).with_sp(*final(r)),
    ;

    /// Moves the program counter past one instruction of four bytes. At the
    /// end of the address space it wraps around.
    fn advance_pc(&mut self)
        ensures
            *final(self) == old(self).with_pc(
                if old(self).spec_pc() <= 0xffff_ffff_ffff_fffb {
                    (old(self).spec_pc() + 4) as Word
                } else {
                    (old(self).spec_pc() - 0xffff_ffff_ffff_fffc) as Word
                },
            ),
    {
        let pc = self.generic_pc_mut();
        *pc = if *pc <= 0xffff_ffff_ffff_fffb {
            *pc + 4
        } else {
            *pc - 0xffff_ffff_ffff_fffc
        };
    }
}

/// What a supervisor reads of an unknown system call, whatever the
/// architecture.
pub trait UnknownSyscallExt {
    /// The number of parameters that a call in C passes in registers and
    /// that the kernel reports.
    spec fn num_c_params() -> usize;

    spec fn spec_c_param(&self, ix: usize) -> Word;

    /// The parameter `ix` of the call, as C passes it.
    fn c_param(&self, ix: usize) -> (r: Word)
        requires
            ix < Self::num_c_params(),
        ensures
            r == self.spec_c_param(ix),
    ;
}

/// What a supervisor reads and writes of an unknown system call while its
/// registers still lie in the IPC buffer.
pub trait UnknownSyscallInIpcBufferExt: Sized {
    /// The number of parameters that a call in C passes in registers and
    /// that the kernel reports.
    spec fn num_c_params() -> usize;

    spec fn spec_c_param(&self, ix: usize) -> Word;

    spec fn with_c_param(&self, ix: usize, val: Word) -> Self;

    spec fn spec_pc(&self) -> Word;

    spec fn with_pc(&self, val: Word) -> Self;

    /// The address of the instruction that made the call.
    fn generic_pc(&self) -> (r: &Word)
        ensures
            *r == self.spec_pc(),
    ;

    fn generic_pc_mut(&mut self) -> (r: &mut Word)
        ensures
            *r == old(self).spec_pc(),
            *final(self) == old(self).with_pc(*final(r)),
    ;

    /// Moves the program counter past the instruction of four bytes that
    /// made the call. At the end of the address space it wraps around.
    fn advance_pc(&mut self)
        ensures
            *final(self) == old(self).with_pc(
                if old(self).spec_pc() <= 0xffff_ffff_ffff_fffb {
                    (old(self).spec_pc() + 4) as Word
                } else {
                    (old(self).spec_pc() - 0xffff_ffff_ffff_fffc) as Word
                },
            ),
    {
        let pc = self.generic_pc_mut();
        *pc = if *pc <= 0xffff_ffff_ffff_fffb {
            *pc + 4
        } else {
            *pc - 0xffff_ffff_ffff_fffc
        };
    }

    /// The parameter `ix` of the call, as C passes it.
    fn c_param(&self, ix: usize) -> (r: &Word)
        requires
            ix < Self::num_c_params(),
        ensures
            *r == self.spec_c_param(ix),
    ;

    fn c_param_mut(&mut self, ix: usize) -> (r: &mut Word)
        requires
            ix < Self::num_c_params(),
        ensures
            *r == old(self).spec_c_param(ix),
            *final(self) == old(self).with_c_param(ix, *final(r)),
    ;
}

} // verus!

use vstd::prelude::*;

use crate::sel4::Word;
use crate::supervising::UnknownSyscallExt;
use crate::supervising::UserContextExt;

verus! {

/// The registers of a thread on x86-64.
#[derive(Debug, Clone, Copy, PartialEq, Eq, Structural)]
pub struct UserContext {
    pub rip: Word,
    pub rsp: Word,
    pub rflags: Word,
    pub fs_base: Word,
    pub gs_base: Word,
    pub rax: Word,
    pub rbx: Word,
    pub rcx: Word,
    pub rdx: Word,
    pub rsi: Word,
    pub rdi: Word,
    pub rbp: Word,
    pub r8: Word,
    pub r9: Word,
    pub r10: Word,
    pub r11: Word,
    pub r12: Word,
    pub r13: Word,
    pub r14: Word,
    pub r15: Word,
}

impl Default for UserContext {
    fn default() -> (r: Self)
        ensures
            r == UserContext::zeroed(),
    {
        UserContext {
            rip: 0,
            rsp: 0,
            rflags: 0,
            fs_base: 0,
            gs_base: 0,
            rax: 0,
            rbx: 0,
            rcx: 0,
            rdx: 0,
            rsi: 0,
            rdi: 0,
            rbp: 0,
            r8: 0,
            r9: 0,
            r10: 0,
            r11: 0,
            r12: 0,
            r13: 0,
            r14: 0,
            r15: 0,
        }
    }
}

impl UserContext {
    /// The context with every register 0.
    pub open spec fn zeroed() -> Self {
        UserContext {
            rip: 0,
            rsp: 0,
            rflags: 0,
            fs_base: 0,
            gs_base: 0,
            rax: 0,
            rbx: 0,
            rcx: 0,
            rdx: 0,
            rsi: 0,
            rdi: 0,
            rbp: 0,
            r8: 0,
            r9: 0,
            r10: 0,
            r11: 0,
            r12: 0,
            r13: 0,
            r14: 0,
            r15: 0,
        }
    }

    /// The register that carries the parameter `ix` of a call in C.
    pub open spec fn spec_c_param(&self, ix: usize) -> Word {
        if ix == 0 {
            self.rdi
        } else if ix == 1 {
            self.rsi
        } else if ix == 2 {
            self.rdx
        } else if ix == 3 {
            self.rcx
        } else if ix == 4 {
            self.r8
        } else {
            self.r9
        }
    }

    /// The context with the register of the parameter `ix` set to `val`.
    pub open spec fn with_c_param(&self, ix: usize, val: Word) -> Self {
        if ix == 0 {
            UserContext { rdi: val, ..*self }
        } else if ix == 1 {
            UserContext { rsi: val, ..*self }
        } else if ix == 2 {
            UserContext { rdx: val, ..*self }
        } else if ix == 3 {
            UserContext { rcx: val, ..*self }
        } else if ix == 4 {
            UserContext { r8: val, ..*self }
        } else {
            UserContext { r9: val, ..*self }
        }
    }
}

impl UserContextExt for UserContext {
    open spec fn num_c_params() -> usize {
        6
    }

    open spec fn spec_c_param(&self, ix: usize) -> Word {
        UserContext::spec_c_param(self, ix)
    }

    open spec fn with_c_param(&self, ix: usize, val: Word) -> Self {
        UserContext::with_c_param(self, ix, val)
    }

    open spec fn spec_pc(&self) -> Word {
        self.rip
    }

    open spec fn with_pc(&self, val: Word) -> Self {
        UserContext { rip: val, ..*self }
    }

    open spec fn spec_sp(&self) -> Word {
        self.rsp
    }

    open spec fn with_sp(&self, val: Word) -> Self {
        UserContext { rsp: val, ..*self }
    }

    fn c_param(&self, ix: usize) -> (r: &Word) {
        match ix {
            0 => &self.rdi,
            1 => &self.rsi,
            2 => &self.rdx,
            3 => &self.rcx,
            4 => &self.r8,
            _ => &self.r9,
        }
    }

    fn c_param_mut(&mut self, ix: usize) -> (r: &mut Word) {
        match ix {
            0 => &mut self.rdi,
            1 => &mut self.rsi,
            2 => &mut self.rdx,
            3 => &mut self.rcx,
            4 => &mut self.r8,
            _ => &mut self.r9,
        }
    }

    fn generic_pc(&self) -> (r: &Word) {
        &self.rip
    }

    fn generic_pc_mut(&mut self) -> (r: &mut Word) {
        &mut self.rip
    }

    fn generic_sp(&self) -> (r: &Word) {
        &self.rsp
    }

    fn generic_sp_mut(&mut self) -> (r: &mut Word) {
        &mut self.rsp
    }
}

/// What the kernel reports of a system call that it does not know.
#[derive(Debug, Clone, Copy, PartialEq, Eq, Structural)]
pub struct UnknownSyscall {
    pub fault_ip: Word,
    pub rsp: Word,
    pub flags: Word,
    pub syscall: Word,
    pub rax: Word,
    pub rbx: Word,
    pub rcx: Word,
    pub rdx: Word,
    pub rsi: Word,
    pub rdi: Word,
    pub rbp: Word,
    pub r8: Word,
    pub r9: Word,
    pub r10: Word,
    pub r11: Word,
    pub r12: Word,
    pub r13: Word,
    pub r14: Word,
    pub r15: Word,
}

impl UnknownSyscallExt for UnknownSyscall {
    open spec fn num_c_params() -> usize {
        6
    }

    open spec fn spec_c_param(&self, ix: usize) -> Word {
        if ix == 0 {
            self.rdi
        } else if ix == 1 {
            self.rsi
        } else if ix == 2 {
            self.rdx
        } else if ix == 3 {
            self.rcx
        } else if ix == 4 {
            self.r8
        } else {
            self.r9
        }
    }

    fn c_param(&self, ix: usize) -> (r: Word) {
        match ix {
            0 => self.rdi,
            1 => self.rsi,
            2 => self.rdx,
            3 => self.rcx,
            4 => self.r8,
            _ => self.r9,
        }
    }
}

} // verus!

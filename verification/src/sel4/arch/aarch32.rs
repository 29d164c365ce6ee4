use vstd::prelude::*;

use crate::sel4::Word;
use crate::supervising::UnknownSyscallExt;
use crate::supervising::UserContextExt;

verus! {

/// The registers of a thread on AArch32.
#[derive(Debug, Clone, Copy, PartialEq, Eq, Structural)]
pub struct UserContext {
    pub pc: Word,
    pub sp: Word,
    pub cpsr: Word,
    pub tpidrurw: Word,
    pub tpidruro: Word,
    pub r0: Word,
    pub r1: Word,
    pub r2: Word,
    pub r3: Word,
    pub r4: Word,
    pub r5: Word,
    pub r6: Word,
    pub r7: Word,
    pub r8: Word,
    pub r9: Word,
    pub r10: Word,
    pub r11: Word,
    pub r12: Word,
    pub r14: Word,
}

impl Default for UserContext {
    fn default() -> (r: Self)
        ensures
            r == UserContext::zeroed(),
    {
        UserContext {
            pc: 0,
            sp: 0,
            cpsr: 0,
            tpidrurw: 0,
            tpidruro: 0,
            r0: 0,
            r1: 0,
            r2: 0,
            r3: 0,
            r4: 0,
            r5: 0,
            r6: 0,
            r7: 0,
            r8: 0,
            r9: 0,
            r10: 0,
            r11: 0,
            r12: 0,
            r14: 0,
        }
    }
}

impl UserContext {
    /// The context with every register 0.
    pub open spec fn zeroed() -> Self {
        UserContext {
            pc: 0,
            sp: 0,
            cpsr: 0,
            tpidrurw: 0,
            tpidruro: 0,
            r0: 0,
            r1: 0,
            r2: 0,
            r3: 0,
            r4: 0,
            r5: 0,
            r6: 0,
            r7: 0,
            r8: 0,
            r9: 0,
            r10: 0,
            r11: 0,
            r12: 0,
            r14: 0,
        }
    }

    /// The register that carries the parameter `ix` of a call in C.
    pub open spec fn spec_c_param(&self, ix: usize) -> Word {
        if ix == 0 {
            self.r0
        } else if ix == 1 {
            self.r1
        } else if ix == 2 {
            self.r2
        } else if ix == 3 {
            self.r3
        } else if ix == 4 {
            self.r4
        } else if ix == 5 {
            self.r5
        } else if ix == 6 {
            self.r6
        } else {
            self.r7
        }
    }

    /// The context with the register of the parameter `ix` set to `val`.
    pub open spec fn with_c_param(&self, ix: usize, val: Word) -> Self {
        if ix == 0 {
            UserContext { r0: val, ..*self }
        } else if ix == 1 {
            UserContext { r1: val, ..*self }
        } else if ix == 2 {
            UserContext { r2: val, ..*self }
        } else if ix == 3 {
            UserContext { r3: val, ..*self }
        } else if ix == 4 {
            UserContext { r4: val, ..*self }
        } else if ix == 5 {
            UserContext { r5: val, ..*self }
        } else if ix == 6 {
            UserContext { r6: val, ..*self }
        } else {
            UserContext { r7: val, ..*self }
        }
    }
}

impl UserContextExt for UserContext {
    open spec fn num_c_params() -> usize {
        8
    }

    open spec fn spec_c_param(&self, ix: usize) -> Word {
        UserContext::spec_c_param(self, ix)
    }

    open spec fn with_c_param(&self, ix: usize, val: Word) -> Self {
        UserContext::with_c_param(self, ix, val)
    }

    open spec fn spec_pc(&self) -> Word {
        self.pc
    }

    open spec fn with_pc(&self, val: Word) -> Self {
        UserContext { pc: val, ..*self }
    }

    open spec fn spec_sp(&self) -> Word {
        self.sp
    }

    open spec fn with_sp(&self, val: Word) -> Self {
        UserContext { sp: val, ..*self }
    }

    fn c_param(&self, ix: usize) -> (r: &Word) {
        match ix {
            0 => &self.r0,
            1 => &self.r1,
            2 => &self.r2,
            3 => &self.r3,
            4 => &self.r4,
            5 => &self.r5,
            6 => &self.r6,
            _ => &self.r7,
        }
    }

    fn c_param_mut(&mut self, ix: usize) -> (r: &mut Word) {
        match ix {
            0 => &mut self.r0,
            1 => &mut self.r1,
            2 => &mut self.r2,
            3 => &mut self.r3,
            4 => &mut self.r4,
            5 => &mut self.r5,
            6 => &mut self.r6,
            _ => &mut self.r7,
        }
    }

    fn generic_pc(&self) -> (r: &Word) {
        &self.pc
    }

    fn generic_pc_mut(&mut self) -> (r: &mut Word) {
        &mut self.pc
    }

    fn generic_sp(&self) -> (r: &Word) {
        &self.sp
    }

    fn generic_sp_mut(&mut self) -> (r: &mut Word) {
        &mut self.sp
    }
}

/// What the kernel reports of a system call that it does not know.
#[derive(Debug, Clone, Copy, PartialEq, Eq, Structural)]
pub struct UnknownSyscall {
    pub fault_ip: Word,
    pub sp: Word,
    pub lr: Word,
    pub syscall: Word,
    pub cpsr: Word,
    pub r0: Word,
    pub r1: Word,
    pub r2: Word,
    pub r3: Word,
    pub r4: Word,
    pub r5: Word,
    pub r6: Word,
    pub r7: Word,
}

impl UnknownSyscallExt for UnknownSyscall {
    open spec fn num_c_params() -> usize {
        8
    }

    open spec fn spec_c_param(&self, ix: usize) -> Word {
        if ix == 0 {
            self.r0
        } else if ix == 1 {
            self.r1
        } else if ix == 2 {
            self.r2
        } else if ix == 3 {
            self.r3
        } else if ix == 4 {
            self.r4
        } else if ix == 5 {
            self.r5
        } else if ix == 6 {
            self.r6
        } else {
            self.r7
        }
    }

    fn c_param(&self, ix: usize) -> (r: Word) {
        match ix {
            0 => self.r0,
            1 => self.r1,
            2 => self.r2,
            3 => self.r3,
            4 => self.r4,
            5 => self.r5,
            6 => self.r6,
            _ => self.r7,
        }
    }
}

} // verus!

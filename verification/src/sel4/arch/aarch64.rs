use vstd::prelude::*;

use crate::sel4::Word;
use crate::supervising::UnknownSyscallExt;
use crate::supervising::UnknownSyscallInIpcBufferExt;
use crate::supervising::UserContextExt;

verus! {

/// The registers of a thread on AArch64.
#[derive(Debug, Clone, Copy, PartialEq, Eq, Structural)]
pub struct UserContext {
    pub pc: Word,
    pub sp: Word,
    pub spsr: Word,
    pub tpidr_el0: Word,
    pub tpidrro_el0: Word,
    pub x0: Word,
    pub x1: Word,
    pub x2: Word,
    pub x3: Word,
    pub x4: Word,
    pub x5: Word,
    pub x6: Word,
    pub x7: Word,
    pub x8: Word,
    pub x9: Word,
    pub x10: Word,
    pub x11: Word,
    pub x12: Word,
    pub x13: Word,
    pub x14: Word,
    pub x15: Word,
    pub x16: Word,
    pub x17: Word,
    pub x18: Word,
    pub x19: Word,
    pub x20: Word,
    pub x21: Word,
    pub x22: Word,
    pub x23: Word,
    pub x24: Word,
    pub x25: Word,
    pub x26: Word,
    pub x27: Word,
    pub x28: Word,
    pub x29: Word,
    pub x30: Word,
}

impl Default for UserContext {
    fn default() -> (r: Self)
        ensures
            r == UserContext::zeroed(),
    {
        UserContext {
            pc: 0,
            sp: 0,
            spsr: 0,
            tpidr_el0: 0,
            tpidrro_el0: 0,
            x0: 0,
            x1: 0,
            x2: 0,
            x3: 0,
            x4: 0,
            x5: 0,
            x6: 0,
            x7: 0,
            x8: 0,
            x9: 0,
            x10: 0,
            x11: 0,
            x12: 0,
            x13: 0,
            x14: 0,
            x15: 0,
            x16: 0,
            x17: 0,
            x18: 0,
            x19: 0,
            x20: 0,
            x21: 0,
            x22: 0,
            x23: 0,
            x24: 0,
            x25: 0,
            x26: 0,
            x27: 0,
            x28: 0,
            x29: 0,
            x30: 0,
        }
    }
}

impl UserContext {
    /// The context with every register 0.
    pub open spec fn zeroed() -> Self {
        UserContext {
            pc: 0,
            sp: 0,
            spsr: 0,
            tpidr_el0: 0,
            tpidrro_el0: 0,
            x0: 0,
            x1: 0,
            x2: 0,
            x3: 0,
            x4: 0,
            x5: 0,
            x6: 0,
            x7: 0,
            x8: 0,
            x9: 0,
            x10: 0,
            x11: 0,
            x12: 0,
            x13: 0,
            x14: 0,
            x15: 0,
            x16: 0,
            x17: 0,
            x18: 0,
            x19: 0,
            x20: 0,
            x21: 0,
            x22: 0,
            x23: 0,
            x24: 0,
            x25: 0,
            x26: 0,
            x27: 0,
            x28: 0,
            x29: 0,
            x30: 0,
        }
    }

    /// The register that carries the parameter `ix` of a call in C.
    pub open spec fn spec_c_param(&self, ix: usize) -> Word {
        if ix == 0 {
            self.x0
        } else if ix == 1 {
            self.x1
        } else if ix == 2 {
            self.x2
        } else if ix == 3 {
            self.x3
        } else if ix == 4 {
            self.x4
        } else if ix == 5 {
            self.x5
        } else if ix == 6 {
            self.x6
        } else {
            self.x7
        }
    }

    /// The context with the register of the parameter `ix` set to `val`.
    pub open spec fn with_c_param(&self, ix: usize, val: Word) -> Self {
        if ix == 0 {
            UserContext { x0: val, ..*self }
        } else if ix == 1 {
            UserContext { x1: val, ..*self }
        } else if ix == 2 {
            UserContext { x2: val, ..*self }
        } else if ix == 3 {
            UserContext { x3: val, ..*self }
        } else if ix == 4 {
            UserContext { x4: val, ..*self }
        } else if ix == 5 {
            UserContext { x5: val, ..*self }
        } else if ix == 6 {
            UserContext { x6: val, ..*self }
        } else {
            UserContext { x7: val, ..*self }
        }
    }
}

impl UserContextExt for UserContext {
    open spec fn num_c_params() -> usize {
        8
    }

    open spec fn spec_c_param(&self, ix: usize) -> Word {
        UserContext::spec_c_param(self, ix)
    }

    open spec fn with_c_param(&self, ix: usize, val: Word) -> Self {
        UserContext::with_c_param(self, ix, val)
    }

    open spec fn spec_pc(&self) -> Word {
        self.pc
    }

    open spec fn with_pc(&self, val: Word) -> Self {
        UserContext { pc: val, ..*self }
    }

    open spec fn spec_sp(&self) -> Word {
        self.sp
    }

    open spec fn with_sp(&self, val: Word) -> Self {
        UserContext { sp: val, ..*self }
    }

    fn c_param(&self, ix: usize) -> (r: &Word) {
        match ix {
            0 => &self.x0,
            1 => &self.x1,
            2 => &self.x2,
            3 => &self.x3,
            4 => &self.x4,
            5 => &self.x5,
            6 => &self.x6,
            _ => &self.x7,
        }
    }

    fn c_param_mut(&mut self, ix: usize) -> (r: &mut Word) {
        match ix {
            0 => &mut self.x0,
            1 => &mut self.x1,
            2 => &mut self.x2,
            3 => &mut self.x3,
            4 => &mut self.x4,
            5 => &mut self.x5,
            6 => &mut self.x6,
            _ => &mut self.x7,
        }
    }

    fn generic_pc(&self) -> (r: &Word) {
        &self.pc
    }

    fn generic_pc_mut(&mut self) -> (r: &mut Word) {
        &mut self.pc
    }

    fn generic_sp(&self) -> (r: &Word) {
        &self.sp
    }

    fn generic_sp_mut(&mut self) -> (r: &mut Word) {
        &mut self.sp
    }
}

/// What the kernel reports of a system call that it does not know.
#[derive(Debug, Clone, Copy, PartialEq, Eq, Structural)]
pub struct UnknownSyscall {
    pub fault_ip: Word,
    pub sp: Word,
    pub lr: Word,
    pub syscall: Word,
    pub spsr: Word,
    pub x0: Word,
    pub x1: Word,
    pub x2: Word,
    pub x3: Word,
    pub x4: Word,
    pub x5: Word,
    pub x6: Word,
    pub x7: Word,
}

impl UnknownSyscallExt for UnknownSyscall {
    open spec fn num_c_params() -> usize {
        8
    }

    open spec fn spec_c_param(&self, ix: usize) -> Word {
        if ix == 0 {
            self.x0
        } else if ix == 1 {
            self.x1
        } else if ix == 2 {
            self.x2
        } else if ix == 3 {
            self.x3
        } else if ix == 4 {
            self.x4
        } else if ix == 5 {
            self.x5
        } else if ix == 6 {
            self.x6
        } else {
            self.x7
        }
    }

    fn c_param(&self, ix: usize) -> (r: Word) {
        match ix {
            0 => self.x0,
            1 => self.x1,
            2 => self.x2,
            3 => self.x3,
            4 => self.x4,
            5 => self.x5,
            6 => self.x6,
            _ => self.x7,
        }
    }
}

/// The registers of an unknown system call as they lie in the IPC buffer
/// of the thread that handles it, where they can be changed before the
/// reply.
#[derive(Debug, Clone, Copy, PartialEq, Eq, Structural)]
pub struct UnknownSyscallInIpcBuffer {
    pub fault_ip: Word,
    pub x0: Word,
    pub x1: Word,
    pub x2: Word,
    pub x3: Word,
    pub x4: Word,
    pub x5: Word,
    pub x6: Word,
    pub x7: Word,
}

impl UnknownSyscallInIpcBufferExt for UnknownSyscallInIpcBuffer {
    open spec fn num_c_params() -> usize {
        8
    }

    open spec fn spec_c_param(&self, ix: usize) -> Word {
        if ix == 0 {
            self.x0
        } else if ix == 1 {
            self.x1
        } else if ix == 2 {
            self.x2
        } else if ix == 3 {
            self.x3
        } else if ix == 4 {
            self.x4
        } else if ix == 5 {
            self.x5
        } else if ix == 6 {
            self.x6
        } else {
            self.x7
        }
    }

    open spec fn with_c_param(&self, ix: usize, val: Word) -> Self {
        if ix == 0 {
            UnknownSyscallInIpcBuffer { x0: val, ..*self }
        } else if ix == 1 {
            UnknownSyscallInIpcBuffer { x1: val, ..*self }
        } else if ix == 2 {
            UnknownSyscallInIpcBuffer { x2: val, ..*self }
        } else if ix == 3 {
            UnknownSyscallInIpcBuffer { x3: val, ..*self }
        } else if ix == 4 {
            UnknownSyscallInIpcBuffer { x4: val, ..*self }
        } else if ix == 5 {
            UnknownSyscallInIpcBuffer { x5: val, ..*self }
        } else if ix == 6 {
            UnknownSyscallInIpcBuffer { x6: val, ..*self }
        } else {
            UnknownSyscallInIpcBuffer { x7: val, ..*self }
        }
    }

    open spec fn spec_pc(&self) -> Word {
        self.fault_ip
    }

    open spec fn with_pc(&self, val: Word) -> Self {
        UnknownSyscallInIpcBuffer { fault_ip: val, ..*self }
    }

    fn generic_pc(&self) -> (r: &Word) {
        &self.fault_ip
    }

    fn generic_pc_mut(&mut self) -> (r: &mut Word) {
        &mut self.fault_ip
    }

    fn c_param(&self, ix: usize) -> (r: &Word) {
        match ix {
            0 => &self.x0,
            1 => &self.x1,
            2 => &self.x2,
            3 => &self.x3,
            4 => &self.x4,
            5 => &self.x5,
            6 => &self.x6,
            _ => &self.x7,
        }
    }

    fn c_param_mut(&mut self, ix: usize) -> (r: &mut Word) {
        match ix {
            0 => &mut self.x0,
            1 => &mut self.x1,
            2 => &mut self.x2,
            3 => &mut self.x3,
            4 => &mut self.x4,
            5 => &mut self.x5,
            6 => &mut self.x6,
            _ => &mut self.x7,
        }
    }
}

} // verus!

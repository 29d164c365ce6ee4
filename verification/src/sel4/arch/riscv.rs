use vstd::prelude::*;

use crate::sel4::Word;
use crate::supervising::UnknownSyscallExt;
use crate::supervising::UserContextExt;

verus! {

/// The registers of a thread on RISC-V.
#[derive(Debug, Clone, Copy, PartialEq, Eq, Structural)]
pub struct UserContext {
    pub pc: Word,
    pub ra: Word,
    pub sp: Word,
    pub gp: Word,
    pub tp: Word,
    pub s0: Word,
    pub s1: Word,
    pub s2: Word,
    pub s3: Word,
    pub s4: Word,
    pub s5: Word,
    pub s6: Word,
    pub s7: Word,
    pub s8: Word,
    pub s9: Word,
    pub s10: Word,
    pub s11: Word,
    pub a0: Word,
    pub a1: Word,
    pub a2: Word,
    pub a3: Word,
    pub a4: Word,
    pub a5: Word,
    pub a6: Word,
    pub a7: Word,
    pub t0: Word,
    pub t1: Word,
    pub t2: Word,
    pub t3: Word,
    pub t4: Word,
    pub t5: Word,
    pub t6: Word,
}

impl Default for UserContext {
    fn default() -> (r: Self)
        ensures
            r == UserContext::zeroed(),
    {
        UserContext {
            pc: 0,
            ra: 0,
            sp: 0,
            gp: 0,
            tp: 0,
            s0: 0,
            s1: 0,
            s2: 0,
            s3: 0,
            s4: 0,
            s5: 0,
            s6: 0,
            s7: 0,
            s8: 0,
            s9: 0,
            s10: 0,
            s11: 0,
            a0: 0,
            a1: 0,
            a2: 0,
            a3: 0,
            a4: 0,
            a5: 0,
            a6: 0,
            a7: 0,
            t0: 0,
            t1: 0,
            t2: 0,
            t3: 0,
            t4: 0,
            t5: 0,
            t6: 0,
        }
    }
}

impl UserContext {
    /// The context with every register 0.
    pub open spec fn zeroed() -> Self {
        UserContext {
            pc: 0,
            ra: 0,
            sp: 0,
            gp: 0,
            tp: 0,
            s0: 0,
            s1: 0,
            s2: 0,
            s3: 0,
            s4: 0,
            s5: 0,
            s6: 0,
            s7: 0,
            s8: 0,
            s9: 0,
            s10: 0,
            s11: 0,
            a0: 0,
            a1: 0,
            a2: 0,
            a3: 0,
            a4: 0,
            a5: 0,
            a6: 0,
            a7: 0,
            t0: 0,
            t1: 0,
            t2: 0,
            t3: 0,
            t4: 0,
            t5: 0,
            t6: 0,
        }
    }

    /// The register that carries the parameter `ix` of a call in C.
    pub open spec fn spec_c_param(&self, ix: usize) -> Word {
        if ix == 0 {
            self.a0
        } else if ix == 1 {
            self.a1
        } else if ix == 2 {
            self.a2
        } else if ix == 3 {
            self.a3
        } else if ix == 4 {
            self.a4
        } else if ix == 5 {
            self.a5
        } else if ix == 6 {
            self.a6
        } else {
            self.a7
        }
    }

    /// The context with the register of the parameter `ix` set to `val`.
    pub open spec fn with_c_param(&self, ix: usize, val: Word) -> Self {
        if ix == 0 {
            UserContext { a0: val, ..*self }
        } else if ix == 1 {
            UserContext { a1: val, ..*self }
        } else if ix == 2 {
            UserContext { a2: val, ..*self }
        } else if ix == 3 {
            UserContext { a3: val, ..*self }
        } else if ix == 4 {
            UserContext { a4: val, ..*self }
        } else if ix == 5 {
            UserContext { a5: val, ..*self }
        } else if ix == 6 {
            UserContext { a6: val, ..*self }
        } else {
            UserContext { a7: val, ..*self }
        }
    }
}

impl UserContextExt for UserContext {
    open spec fn num_c_params() -> usize {
        8
    }

    open spec fn spec_c_param(&self, ix: usize) -> Word {
        UserContext::spec_c_param(self, ix)
    }

    open spec fn with_c_param(&self, ix: usize, val: Word) -> Self {
        UserContext::with_c_param(self, ix, val)
    }

    open spec fn spec_pc(&self) -> Word {
        self.pc
    }

    open spec fn with_pc(&self, val: Word) -> Self {
        UserContext { pc: val, ..*self }
    }

    open spec fn spec_sp(&self) -> Word {
        self.sp
    }

    open spec fn with_sp(&self, val: Word) -> Self {
        UserContext { sp: val, ..*self }
    }

    fn c_param(&self, ix: usize) -> (r: &Word) {
        match ix {
            0 => &self.a0,
            1 => &self.a1,
            2 => &self.a2,
            3 => &self.a3,
            4 => &self.a4,
            5 => &self.a5,
            6 => &self.a6,
            _ => &self.a7,
        }
    }

    fn c_param_mut(&mut self, ix: usize) -> (r: &mut Word) {
        match ix {
            0 => &mut self.a0,
            1 => &mut self.a1,
            2 => &mut self.a2,
            3 => &mut self.a3,
            4 => &mut self.a4,
            5 => &mut self.a5,
            6 => &mut self.a6,
            _ => &mut self.a7,
        }
    }

    fn generic_pc(&self) -> (r: &Word) {
        &self.pc
    }

    fn generic_pc_mut(&mut self) -> (r: &mut Word) {
        &mut self.pc
    }

    fn generic_sp(&self) -> (r: &Word) {
        &self.sp
    }

    fn generic_sp_mut(&mut self) -> (r: &mut Word) {
        &mut self.sp
    }
}

/// What the kernel reports of a system call that it does not know.
#[derive(Debug, Clone, Copy, PartialEq, Eq, Structural)]
pub struct UnknownSyscall {
    pub fault_ip: Word,
    pub sp: Word,
    pub ra: Word,
    pub syscall: Word,
    pub a0: Word,
    pub a1: Word,
    pub a2: Word,
    pub a3: Word,
    pub a4: Word,
    pub a5: Word,
    pub a6: Word,
}

impl UnknownSyscallExt for UnknownSyscall {
    open spec fn num_c_params() -> usize {
        7
    }

    open spec fn spec_c_param(&self, ix: usize) -> Word {
        if ix == 0 {
            self.a0
        } else if ix == 1 {
            self.a1
        } else if ix == 2 {
            self.a2
        } else if ix == 3 {
            self.a3
        } else if ix == 4 {
            self.a4
        } else if ix == 5 {
            self.a5
        } else {
            self.a6
        }
    }

    fn c_param(&self, ix: usize) -> (r: Word) {
        match ix {
            0 => self.a0,
            1 => self.a1,
            2 => self.a2,
            3 => self.a3,
            4 => self.a4,
            5 => self.a5,
            _ => self.a6,
        }
    }
}

} // verus!

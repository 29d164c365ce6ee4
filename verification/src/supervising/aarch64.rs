use vstd::prelude::*;

use crate::sel4::arch::aarch64::UserContext;
use crate::sel4::fault::VCpuFault;
use crate::sel4::fault::VmFault;
use crate::supervising::bitfield::BitField;
use crate::supervising::fault_data::VmFaultData;
use crate::supervising::fault_data::VmFaultWidth;
use crate::supervising::Word;

verus! {

/// The exception class of a syndrome: bits 26 to 31.
pub open spec fn esr_ec(esr: Word) -> Word {
    (esr >> 26) & 0x3f
}

/// Whether the syndrome describes the faulting instruction: bit 24.
pub open spec fn esr_isv(esr: Word) -> bool {
    (esr >> 24) & 1 == 1
}

/// The size of the access: bits 22 and 23.
pub open spec fn esr_sas(esr: Word) -> Word {
    (esr >> 22) & 3
}

/// The number of the register of the access: bits 16 to 20.
pub open spec fn esr_srt(esr: Word) -> Word {
    (esr >> 16) & 0x1f
}

/// Whether the access was a write: bit 6.
pub open spec fn esr_wnr(esr: Word) -> bool {
    (esr >> 6) & 1 == 1
}

/// The width that a size of access stands for.
pub open spec fn width_of_sas(sas: Word) -> VmFaultWidth {
    if sas == 0 {
        VmFaultWidth::U8
    } else if sas == 1 {
        VmFaultWidth::U16
    } else if sas == 2 {
        VmFaultWidth::U32
    } else {
        VmFaultWidth::U64
    }
}

/// The value of the general-purpose register `index`; register 31 reads as
/// zero.
pub open spec fn register_of(ctx: UserContext, index: Word) -> Word {
    if index == 0 { ctx.x0 }
    else if index == 1 { ctx.x1 }
    else if index == 2 { ctx.x2 }
    else if index == 3 { ctx.x3 }
    else if index == 4 { ctx.x4 }
    else if index == 5 { ctx.x5 }
    else if index == 6 { ctx.x6 }
    else if index == 7 { ctx.x7 }
    else if index == 8 { ctx.x8 }
    else if index == 9 { ctx.x9 }
    else if index == 10 { ctx.x10 }
    else if index == 11 { ctx.x11 }
    else if index == 12 { ctx.x12 }
    else if index == 13 { ctx.x13 }
    else if index == 14 { ctx.x14 }
    else if index == 15 { ctx.x15 }
    else if index == 16 { ctx.x16 }
    else if index == 17 { ctx.x17 }
    else if index == 18 { ctx.x18 }
    else if index == 19 { ctx.x19 }
    else if index == 20 { ctx.x20 }
    else if index == 21 { ctx.x21 }
    else if index == 22 { ctx.x22 }
    else if index == 23 { ctx.x23 }
    else if index == 24 { ctx.x24 }
    else if index == 25 { ctx.x25 }
    else if index == 26 { ctx.x26 }
    else if index == 27 { ctx.x27 }
    else if index == 28 { ctx.x28 }
    else if index == 29 { ctx.x29 }
    else if index == 30 { ctx.x30 }
    else { 0 }
}

/// The context with the general-purpose register `index` set to `val`.
pub open spec fn with_register(ctx: UserContext, index: Word, val: Word) -> UserContext {
    if index == 0 { UserContext { x0: val, ..ctx } }
    else if index == 1 { UserContext { x1: val, ..ctx } }
    else if index == 2 { UserContext { x2: val, ..ctx } }
    else if index == 3 { UserContext { x3: val, ..ctx } }
    else if index == 4 { UserContext { x4: val, ..ctx } }
    else if index == 5 { UserContext { x5: val, ..ctx } }
    else if index == 6 { UserContext { x6: val, ..ctx } }
    else if index == 7 { UserContext { x7: val, ..ctx } }
    else if index == 8 { UserContext { x8: val, ..ctx } }
    else if index == 9 { UserContext { x9: val, ..ctx } }
    else if index == 10 { UserContext { x10: val, ..ctx } }
    else if index == 11 { UserContext { x11: val, ..ctx } }
    else if index == 12 { UserContext { x12: val, ..ctx } }
    else if index == 13 { UserContext { x13: val, ..ctx } }
    else if index == 14 { UserContext { x14: val, ..ctx } }
    else if index == 15 { UserContext { x15: val, ..ctx } }
    else if index == 16 { UserContext { x16: val, ..ctx } }
    else if index == 17 { UserContext { x17: val, ..ctx } }
    else if index == 18 { UserContext { x18: val, ..ctx } }
    else if index == 19 { UserContext { x19: val, ..ctx } }
    else if index == 20 { UserContext { x20: val, ..ctx } }
    else if index == 21 { UserContext { x21: val, ..ctx } }
    else if index == 22 { UserContext { x22: val, ..ctx } }
    else if index == 23 { UserContext { x23: val, ..ctx } }
    else if index == 24 { UserContext { x24: val, ..ctx } }
    else if index == 25 { UserContext { x25: val, ..ctx } }
    else if index == 26 { UserContext { x26: val, ..ctx } }
    else if index == 27 { UserContext { x27: val, ..ctx } }
    else if index == 28 { UserContext { x28: val, ..ctx } }
    else if index == 29 { UserContext { x29: val, ..ctx } }
    else { UserContext { x30: val, ..ctx } }
}

/// The number of the register that a valid syndrome names.
pub fn register_index(vm_fault: &VmFault) -> (r: Word)
    requires
        esr_isv(vm_fault.fsr),
    ensures
        r == esr_srt(vm_fault.fsr),
        r < 32,
{
    let esr = vm_fault.fsr();
    assert((esr >> 16) & 0x1f < 32) by (bit_vector);
    assert(1u64 << 5u64 == 32u64) by (bit_vector);
    BitField::from_range_inclusive(16, 20).get(esr)
}

/// What a supervisor reads from a fault of the virtual memory in order to
/// emulate the access.
pub trait VmFaultExt {
    spec fn spec_inner(&self) -> VmFault;

    fn inner(&self) -> (r: &VmFault)
        ensures
            *r == self.spec_inner(),
    ;

    /// Whether the syndrome describes the faulting instruction.
    fn esr_is_valid(&self) -> (r: bool)
        ensures
            r == esr_isv(self.spec_inner().fsr),
    {
        assert(1u64 << 1u64 == 2u64) by (bit_vector);
        BitField::bit(24).get(self.inner().fsr()) == 1
    }

    /// The syndrome, which must describe the faulting instruction.
    fn valid_esr(&self) -> (r: Word)
        requires
            esr_isv(self.spec_inner().fsr),
        ensures
            r == self.spec_inner().fsr,
    {
        self.inner().fsr()
    }

    fn is_write(&self) -> (r: bool)
        requires
            esr_isv(self.spec_inner().fsr),
        ensures
            r == esr_wnr(self.spec_inner().fsr),
    {
        assert(1u64 << 1u64 == 2u64) by (bit_vector);
        BitField::bit(6).get(self.valid_esr()) == 1
    }

    fn is_read(&self) -> (r: bool)
        requires
            esr_isv(self.spec_inner().fsr),
        ensures
            r == !esr_wnr(self.spec_inner().fsr),
    {
        !self.is_write()
    }

    /// The width of the access.
    fn width(&self) -> (r: VmFaultWidth)
        requires
            esr_isv(self.spec_inner().fsr),
        ensures
            r == width_of_sas(esr_sas(self.spec_inner().fsr)),
    {
        let esr = self.valid_esr();
        assert((esr >> 22) & 3 < 4) by (bit_vector);
        assert(1u64 << 2u64 == 4u64) by (bit_vector);
        let sas = BitField::from_range_inclusive(22, 23).get(esr);
        if sas == 0 {
            VmFaultWidth::U8
        } else if sas == 1 {
            VmFaultWidth::U16
        } else if sas == 2 {
            VmFaultWidth::U32
        } else {
            VmFaultWidth::U64
        }
    }

    /// Whether the address of the access is a multiple of its width.
    fn is_aligned(&self) -> (r: bool)
        requires
            esr_isv(self.spec_inner().fsr),
        ensures
            r == (self.spec_inner().addr as int % width_of_sas(
                esr_sas(self.spec_inner().fsr),
            ).spec_num_bytes() as int == 0),
    {
        let bytes = self.width().num_bytes() as Word;
        self.inner().addr() % bytes == 0
    }

    /// The data that a faulting write was about to store.
    fn data(&self, ctx: &UserContext) -> (r: VmFaultData)
        requires
            esr_isv(self.spec_inner().fsr),
            esr_wnr(self.spec_inner().fsr),
        ensures
            r.spec_width() == width_of_sas(esr_sas(self.spec_inner().fsr)),
            r.spec_zero_extend() == register_of(*ctx, esr_srt(self.spec_inner().fsr)) as int
                % r.spec_width().modulus(),
    {
        self.width().truncate(self.register_value(ctx))
    }

    /// Completes a faulting read with `val`: puts it in the low bits of the
    /// register that the read was to load, and leaves the bits above.
    fn emulate_read(&self, ctx: &mut UserContext, val: VmFaultData)
        requires
            esr_isv(self.spec_inner().fsr),
            !esr_wnr(self.spec_inner().fsr),
            val.spec_width() == width_of_sas(esr_sas(self.spec_inner().fsr)),
            esr_srt(self.spec_inner().fsr) != 31,
        ensures
            *final(ctx) == with_register(
                *old(ctx),
                esr_srt(self.spec_inner().fsr),
                (register_of(*old(ctx), esr_srt(self.spec_inner().fsr)) - register_of(
                    *old(ctx),
                    esr_srt(self.spec_inner().fsr),
                ) as int % val.spec_width().modulus() + val.spec_zero_extend()) as Word,
            ),
    {
        let reg = self.register_mut(ctx);
        *reg = val.set(*reg);
    }

    /// The value of the register that the access names.
    fn register_value(&self, ctx: &UserContext) -> (r: Word)
        requires
            esr_isv(self.spec_inner().fsr),
        ensures
            r == register_of(*ctx, esr_srt(self.spec_inner().fsr)),
    {
        match register_index(self.inner()) {
            0 => ctx.x0,
            1 => ctx.x1,
            2 => ctx.x2,
            3 => ctx.x3,
            4 => ctx.x4,
            5 => ctx.x5,
            6 => ctx.x6,
            7 => ctx.x7,
            8 => ctx.x8,
            9 => ctx.x9,
            10 => ctx.x10,
            11 => ctx.x11,
            12 => ctx.x12,
            13 => ctx.x13,
            14 => ctx.x14,
            15 => ctx.x15,
            16 => ctx.x16,
            17 => ctx.x17,
            18 => ctx.x18,
            19 => ctx.x19,
            20 => ctx.x20,
            21 => ctx.x21,
            22 => ctx.x22,
            23 => ctx.x23,
            24 => ctx.x24,
            25 => ctx.x25,
            26 => ctx.x26,
            27 => ctx.x27,
            28 => ctx.x28,
            29 => ctx.x29,
            30 => ctx.x30,
            _ => 0,
        }
    }

    /// The register that the access names, to write to. Register 31 is no
    /// register to write to.
    fn register_mut<'a>(&self, ctx: &'a mut UserContext) -> (r: &'a mut Word)
        requires
            esr_isv(self.spec_inner().fsr),
            esr_srt(self.spec_inner().fsr) != 31,
        ensures
            *r == register_of(*old(ctx), esr_srt(self.spec_inner().fsr)),
            *final(ctx) == with_register(*old(ctx), esr_srt(self.spec_inner().fsr), *final(r)),
    {
        match register_index(self.inner()) {
            0 => &mut ctx.x0,
            1 => &mut ctx.x1,
            2 => &mut ctx.x2,
            3 => &mut ctx.x3,
            4 => &mut ctx.x4,
            5 => &mut ctx.x5,
            6 => &mut ctx.x6,
            7 => &mut ctx.x7,
            8 => &mut ctx.x8,
            9 => &mut ctx.x9,
            10 => &mut ctx.x10,
            11 => &mut ctx.x11,
            12 => &mut ctx.x12,
            13 => &mut ctx.x13,
            14 => &mut ctx.x14,
            15 => &mut ctx.x15,
            16 => &mut ctx.x16,
            17 => &mut ctx.x17,
            18 => &mut ctx.x18,
            19 => &mut ctx.x19,
            20 => &mut ctx.x20,
            21 => &mut ctx.x21,
            22 => &mut ctx.x22,
            23 => &mut ctx.x23,
            24 => &mut ctx.x24,
            25 => &mut ctx.x25,
            26 => &mut ctx.x26,
            27 => &mut ctx.x27,
            28 => &mut ctx.x28,
            29 => &mut ctx.x29,
            _ => &mut ctx.x30,
        }
    }
}

impl VmFaultExt for VmFault {
    open spec fn spec_inner(&self) -> VmFault {
        *self
    }

    fn inner(&self) -> (r: &VmFault) {
        self
    }
}

/// What a supervisor reads from a fault of a virtual CPU.
pub trait VCpuFaultExt {
    spec fn spec_inner(&self) -> VCpuFault;

    fn inner(&self) -> (r: &VCpuFault)
        ensures
            *r == self.spec_inner(),
    ;

    /// Whether the virtual CPU waits for an interrupt or an event.
    fn is_wfx(&self) -> (r: bool)
        ensures
            r == (esr_ec(self.spec_inner().hsr) == 1),
    {
        assert(1u64 << 6u64 == 64u64) by (bit_vector);
        BitField::from_range_inclusive(26, 31).get(self.inner().hsr()) == 1
    }
}

impl VCpuFaultExt for VCpuFault {
    open spec fn spec_inner(&self) -> VCpuFault {
        *self
    }

    fn inner(&self) -> (r: &VCpuFault) {
        self
    }
}

} // verus!

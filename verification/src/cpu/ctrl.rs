use vstd::prelude::*;

use crate::bus::{Bus};
use crate::cpu::enums::{Condition, Mode, Operand};
use crate::cpu::{sxt8, wadd16, wsub16, CPU, SR};

verus! {

impl CPU {
    /// The CPU with PC replaced.
    pub open spec fn with_pc(self, pc: u16) -> CPU {
        CPU { sr: SR { pc, ..self.sr }, ..self }
    }

    /// `JP src` / `JP cc, src`: load the destination, then jump when the
    /// condition holds.
    pub fn jp(&mut self, bus: &mut Bus, src: Operand, condition: Option<Condition>)
        requires
            old(bus)@.wf(),
        ensures
            final(bus)@ == old(bus)@,
            *final(self) == (if old(self).is_condition_spec(condition) {
                old(self).lo_cpu(src).with_pc(old(self).lo_val(old(bus)@, src))
            } else {
                old(self).lo_cpu(src)
            }),
    {
        let dest = self.load_operand(bus, src);
        if self.is_condition(condition) {
            self.sr.pc = dest;
        }
    }

    /// `JR e` / `JR cc, e`: consume the displacement byte, then add it
    /// (sign-extended, wrapping modulo 2^16) to PC when the condition holds.
    pub fn jr(&mut self, bus: &mut Bus, src: Operand, condition: Option<Condition>)
        requires
            old(bus)@.wf(),
        ensures
            final(bus)@ == old(bus)@,
            *final(self) == (if old(self).is_condition_spec(condition) {
                old(self).lo_cpu(src).with_pc(
                    wadd16(
                        old(self).lo_cpu(src).sr.pc,
                        sxt8((old(self).lo_val(old(bus)@, src) % 256) as u8),
                    ),
                )
            } else {
                old(self).lo_cpu(src)
            }),
    {
        let j = self.load_operand(bus, src);
        if self.is_condition(condition) {
            self.sr.pc = crate::cpu::wrap_add16(
                self.sr.pc,
                crate::cpu::sign_extend8((j % 256) as u8),
            );
        }
    }

    /// `DJNZ e`: consume the displacement, decrement B (8-bit wrap), and jump
    /// relative when the decremented B is nonzero.
    pub fn djnz(&mut self, bus: &mut Bus)
        requires
            old(bus)@.wf(),
        ensures
            final(bus)@ == old(bus)@,
            *final(self) == (if CPU::djnz_b(*old(self)) != 0 {
                old(self).lo_cpu(Operand::Immediate).write_reg_spec(
                    crate::cpu::enums::Register::B,
                    CPU::djnz_b(*old(self)) as u16,
                ).with_pc(
                    wadd16(
                        wadd16(old(self).sr.pc, 1),
                        sxt8((old(self).lo_val(old(bus)@, Operand::Immediate) % 256) as u8),
                    ),
                )
            } else {
                old(self).lo_cpu(Operand::Immediate).write_reg_spec(
                    crate::cpu::enums::Register::B,
                    CPU::djnz_b(*old(self)) as u16,
                )
            }),
    {
        let j = self.load_operand(bus, Operand::Immediate);
        let b: u8 = (crate::cpu::wrap_sub16(self.reg(crate::cpu::enums::Register::B), 1)
            % 256) as u8;
        self.write_reg(crate::cpu::enums::Register::B, b as u16);
        if b != 0 {
            self.sr.pc = crate::cpu::wrap_add16(
                self.sr.pc,
                crate::cpu::sign_extend8((j % 256) as u8),
            );
        }
    }

    /// B decremented with 8-bit wrap.
    pub open spec fn djnz_b(c: CPU) -> u8 {
        (wsub16(c.reg_spec(crate::cpu::enums::Register::B), 1) % 256) as u8
    }

    /// `CALL addr` / `CALL cc, addr`: when the condition holds, push the
    /// return address (high byte at SP-1, low at SP-2), drop SP by two and
    /// jump.
    pub fn call(&mut self, bus: &mut Bus, src: Operand, condition: Option<Condition>)
        requires
            old(bus)@.wf(),
        ensures
            *final(self) == (if old(self).is_condition_spec(condition) {
                old(self).lo_cpu(src).push_cpu().with_pc(old(self).lo_val(old(bus)@, src))
            } else {
                old(self).lo_cpu(src)
            }),
            final(bus)@ == (if old(self).is_condition_spec(condition) {
                old(self).lo_cpu(src).push_bus(old(bus)@, old(self).lo_cpu(src).sr.pc)
            } else {
                old(bus)@
            }),
            final(bus)@.wf(),
    {
        let dest = self.load_operand(bus, src);
        if self.is_condition(condition) {
            let sp = self.sr.sp;
            let pc = self.sr.pc;
            self.mem_store(bus, crate::cpu::wrap_sub16(sp, 1), (pc / 256) as u8);
            self.mem_store(bus, crate::cpu::wrap_sub16(sp, 2), (pc % 256) as u8);
            self.sr.sp = crate::cpu::wrap_sub16(sp, 2);
            self.sr.pc = dest;
        }
    }

    /// `RET` / `RET cc`: when the condition holds, pop PC (low byte at SP,
    /// high at SP+1) and raise SP by two.
    pub fn ret(&mut self, bus: &mut Bus, condition: Option<Condition>)
        requires
            old(bus)@.wf(),
        ensures
            final(bus)@ == old(bus)@,
            *final(self) == (if old(self).is_condition_spec(condition) {
                (CPU {
                    sr: SR {
                        sp: wadd16(old(self).sr.sp, 2),
                        pc: old(self).pop_val(old(bus)@),
                        ..old(self).sr
                    },
                    ..*old(self)
                })
            } else {
                *old(self)
            }),
    {
        if self.is_condition(condition) {
            let sp = self.sr.sp;
            let lo = self.mem_fetch(bus, sp);
            let hi = self.mem_fetch(bus, crate::cpu::wrap_add16(sp, 1));
            self.sr.sp = crate::cpu::wrap_add16(sp, 2);
            self.sr.pc = crate::cpu::word16(hi, lo);
        }
    }

    /// `RST v`: push the return address and jump to the fixed vector.
    /// Pushing is what the real CPU does, so a `RET` from the restart routine
    /// resumes after the `RST` opcode.
    pub fn rst(&mut self, bus: &mut Bus, vec: u16)
        requires
            old(bus)@.wf(),
        ensures
            *final(self) == old(self).push_cpu().with_pc(vec),
            final(bus)@ == old(self).push_bus(old(bus)@, old(self).sr.pc),
            final(bus)@.wf(),
    {
        let sp = self.sr.sp;
        let pc = self.sr.pc;
        self.mem_store(bus, crate::cpu::wrap_sub16(sp, 1), (pc / 256) as u8);
        self.mem_store(bus, crate::cpu::wrap_sub16(sp, 2), (pc % 256) as u8);
        self.sr.sp = crate::cpu::wrap_sub16(sp, 2);
        self.sr.pc = vec;
    }

    /// `HALT`: enter Halt mode and leave PC pointing at the halt opcode, so
    /// further ticks are no-ops until an external wake (not modelled).
    pub fn halt(&mut self)
        ensures
            *final(self) == (CPU {
                mode: Mode::Halt,
                sr: SR { pc: wsub16(old(self).sr.pc, 1), ..old(self).sr },
                ..*old(self)
            }),
    {
        self.mode = Mode::Halt;
        self.sr.pc = crate::cpu::wrap_sub16(self.sr.pc, 1);
    }
}

} // verus!

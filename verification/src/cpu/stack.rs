use vstd::prelude::*;

use crate::bus::{Bus, BusV};
use crate::cpu::enums::{Exchange, Operand};
use crate::cpu::{make16, wadd16, wsub16, CPU, GR, SR};

verus! {

impl CPU {
    /// The CPU after a 16-bit push: SP drops by two.
    pub open spec fn push_cpu(self) -> CPU {
        CPU { sr: SR { sp: wsub16(self.sr.sp, 2), ..self.sr }, ..self }
    }

    /// The bus after pushing a word: the high byte lands at SP-1, the low
    /// byte at SP-2.
    pub open spec fn push_bus(self, bus: BusV, val: u16) -> BusV {
        bus.mem_write_spec(self.phys(wsub16(self.sr.sp, 1)), (val / 256) as u8).mem_write_spec(
            self.phys(wsub16(self.sr.sp, 2)),
            (val % 256) as u8,
        )
    }

    /// `PUSH src`: write the 16-bit value below SP (high byte first) and drop
    /// SP by two.
    pub fn push(&mut self, bus: &mut Bus, src: Operand)
        requires
            old(bus)@.wf(),
        ensures
            *final(self) == old(self).lo_cpu(src).push_cpu(),
            final(bus)@ == old(self).lo_cpu(src).push_bus(
                old(bus)@,
                old(self).lo_val(old(bus)@, src),
            ),
            final(bus)@.wf(),
    {
        let val = self.load_operand(bus, src);
        let sp = self.sr.sp;
        self.mem_store(bus, crate::cpu::wrap_sub16(sp, 1), (val / 256) as u8);
        self.mem_store(bus, crate::cpu::wrap_sub16(sp, 2), (val % 256) as u8);
        self.sr.sp = crate::cpu::wrap_sub16(sp, 2);
    }

    /// The word a pop reads: low byte at SP, high byte at SP+1.
    pub open spec fn pop_val(self, bus: BusV) -> u16 {
        make16(self.mem_at(bus, wadd16(self.sr.sp, 1)), self.mem_at(bus, self.sr.sp))
    }

    /// `POP dst`: read the 16-bit value at SP (low byte first) and raise SP
    /// by two.
    pub fn pop(&mut self, bus: &mut Bus, dst: Operand)
        requires
            old(bus)@.wf(),
        ensures
            *final(self) == (CPU {
                sr: SR {
                    sp: wadd16(old(self).sr.sp, 2),
                    ..old(self).so_cpu(dst, old(self).pop_val(old(bus)@)).sr
                },
                ..old(self).so_cpu(dst, old(self).pop_val(old(bus)@))
            }),
            final(bus)@ == old(self).so_bus(old(bus)@, dst, old(self).pop_val(old(bus)@)),
            final(bus)@.wf(),
    {
        let sp = self.sr.sp;
        let lo = self.mem_fetch(bus, sp);
        let hi = self.mem_fetch(bus, crate::cpu::wrap_add16(sp, 1));
        let v = crate::cpu::word16(hi, lo);
        self.store_operand(bus, dst, v);
        self.sr.sp = crate::cpu::wrap_add16(sp, 2);
    }

    /// The CPU after a register exchange (the pure part; `EX (SP),..` also
    /// touches memory, see `ex_sp_cpu`).
    pub open spec fn exchange_spec(self, exchange: Exchange) -> CPU {
        match exchange {
            Exchange::AfAfs => CPU {
                gr: GR { a: self.gr_.a, f: self.gr_.f, ..self.gr },
                gr_: GR { a: self.gr.a, f: self.gr.f, ..self.gr_ },
                ..self
            },
            Exchange::DeHl => CPU {
                gr: GR { de: self.gr.hl, hl: self.gr.de, ..self.gr },
                ..self
            },
            Exchange::X => CPU {
                gr: GR { bc: self.gr_.bc, de: self.gr_.de, hl: self.gr_.hl, ..self.gr },
                gr_: GR { bc: self.gr.bc, de: self.gr.de, hl: self.gr.hl, ..self.gr_ },
                ..self
            },
            _ => self,
        }
    }

    /// The CPU after `EX (SP), rr`: the register takes the word at SP.
    pub open spec fn ex_sp_cpu(self, bus: BusV, exchange: Exchange) -> CPU {
        match exchange {
            Exchange::SpHl => CPU { gr: GR { hl: self.word_at_sp(bus), ..self.gr }, ..self },
            Exchange::SpIx => CPU { sr: SR { ix: self.word_at_sp(bus), ..self.sr }, ..self },
            Exchange::SpIy => CPU { sr: SR { iy: self.word_at_sp(bus), ..self.sr }, ..self },
            _ => self.exchange_spec(exchange),
        }
    }

    /// The little-endian word at SP.
    pub open spec fn word_at_sp(self, bus: BusV) -> u16 {
        make16(self.mem_at(bus, wadd16(self.sr.sp, 1)), self.mem_at(bus, self.sr.sp))
    }

    /// The bus after `EX (SP), rr`: the word at SP takes the register.
    pub open spec fn ex_sp_bus(self, bus: BusV, val: u16) -> BusV {
        bus.mem_write_spec(self.phys(self.sr.sp), (val % 256) as u8).mem_write_spec(
            self.phys(wadd16(self.sr.sp, 1)),
            (val / 256) as u8,
        )
    }

    /// The exchanges: `EX AF,AF'` and `EXX` swap with the shadow bank,
    /// `EX DE,HL` swaps the two pairs, and the `EX (SP),..` forms swap a
    /// 16-bit register with the word at SP.
    pub fn exchange(&mut self, bus: &mut Bus, exchange: Exchange)
        requires
            old(bus)@.wf(),
        ensures
            *final(self) == old(self).ex_sp_cpu(old(bus)@, exchange),
            final(bus)@ == (match exchange {
                Exchange::SpHl => old(self).ex_sp_bus(old(bus)@, old(self).gr.hl),
                Exchange::SpIx => old(self).ex_sp_bus(old(bus)@, old(self).sr.ix),
                Exchange::SpIy => old(self).ex_sp_bus(old(bus)@, old(self).sr.iy),
                _ => old(bus)@,
            }),
            final(bus)@.wf(),
    {
        match exchange {
            Exchange::AfAfs => {
                let a = self.gr.a;
                let f = self.gr.f;
                self.gr.a = self.gr_.a;
                self.gr.f = self.gr_.f;
                self.gr_.a = a;
                self.gr_.f = f;
            },
            Exchange::DeHl => {
                let de = self.gr.de;
                self.gr.de = self.gr.hl;
                self.gr.hl = de;
            },
            Exchange::X => {
                let bc = self.gr.bc;
                let de = self.gr.de;
                let hl = self.gr.hl;
                self.gr.bc = self.gr_.bc;
                self.gr.de = self.gr_.de;
                self.gr.hl = self.gr_.hl;
                self.gr_.bc = bc;
                self.gr_.de = de;
                self.gr_.hl = hl;
            },
            Exchange::SpHl => {
                let v = self.swap_sp_word(bus, self.gr.hl);
                self.gr.hl = v;
            },
            Exchange::SpIx => {
                let v = self.swap_sp_word(bus, self.sr.ix);
                self.sr.ix = v;
            },
            Exchange::SpIy => {
                let v = self.swap_sp_word(bus, self.sr.iy);
                self.sr.iy = v;
            },
        }
    }

    /// Swap a 16-bit value with the little-endian word at SP; returns the
    /// word previously in memory.
    fn swap_sp_word(&self, bus: &mut Bus, val: u16) -> (r: u16)
        requires
            old(bus)@.wf(),
        ensures
            r == self.word_at_sp(old(bus)@),
            final(bus)@ == self.ex_sp_bus(old(bus)@, val),
            final(bus)@.wf(),
    {
        let sp = self.sr.sp;
        let lo = self.mem_fetch(bus, sp);
        let hi = self.mem_fetch(bus, crate::cpu::wrap_add16(sp, 1));
        self.mem_store(bus, sp, (val % 256) as u8);
        self.mem_store(bus, crate::cpu::wrap_add16(sp, 1), (val / 256) as u8);
        crate::cpu::word16(hi, lo)
    }
}

/// Exchanging twice restores the exchanged state: `EX AF,AF'`, `EXX` and
/// `EX DE,HL` are involutions on the register file.
pub proof fn lemma_exchange_involution(c: CPU)
    ensures
        c.exchange_spec(Exchange::AfAfs).exchange_spec(Exchange::AfAfs) == c,
        c.exchange_spec(Exchange::X).exchange_spec(Exchange::X) == c,
        c.exchange_spec(Exchange::DeHl).exchange_spec(Exchange::DeHl) == c,
{
}

} // verus!

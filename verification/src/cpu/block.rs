use vstd::prelude::*;

use crate::bus::{Bus, BusV};
use crate::cpu::alu::{sub8_flags};
use crate::cpu::enums::{Direction, FLAG_C, FLAG_P, FLAG_Z};
use crate::cpu::{wadd16, wsub16, CPU, GR, SR};

verus! {

/// The step a block instruction applies to HL and DE: up for `LDI`/`CPI`,
/// down for `LDD`/`CPD`.
pub open spec fn dir_step(direction: Direction) -> u16 {
    match direction {
        Direction::Increment => 1,
        Direction::Decrement => 0xffff,
    }
}

impl CPU {
    /// The CPU after one `LDI`/`LDD`/`LDIR`/`LDDR` step: HL and DE move by
    /// the direction, BC drops by one, H and N reset, P/V set while BC is
    /// nonzero, S, Z and C preserved. A repeating form whose BC is still
    /// nonzero backs PC up over the two instruction bytes so the instruction
    /// re-executes on the next tick.
    pub open spec fn ldi_cpu(self, direction: Direction, repeating: bool) -> CPU {
        CPU {
            gr: GR {
                hl: wadd16(self.gr.hl, dir_step(direction)),
                de: wadd16(self.gr.de, dir_step(direction)),
                bc: wsub16(self.gr.bc, 1),
                f: (self.gr.f & 0xc1) | (if wsub16(self.gr.bc, 1) != 0 {
                    FLAG_P
                } else {
                    0
                }),
                ..self.gr
            },
            sr: SR {
                pc: if repeating && wsub16(self.gr.bc, 1) != 0 {
                    wsub16(self.sr.pc, 2)
                } else {
                    self.sr.pc
                },
                ..self.sr
            },
            ..self
        }
    }

    /// The bus after one `LDI`-family step: the byte at (HL) lands at (DE).
    pub open spec fn ldi_bus(self, bus: BusV) -> BusV {
        bus.mem_write_spec(self.phys(self.gr.de), self.mem_at(bus, self.gr.hl))
    }

    /// One step of the `LDI`/`LDD`/`LDIR`/`LDDR` block transfers.
    pub fn ldi(&mut self, bus: &mut Bus, direction: Direction, repeating: bool)
        requires
            old(bus)@.wf(),
        ensures
            *final(self) == old(self).ldi_cpu(direction, repeating),
            final(bus)@ == old(self).ldi_bus(old(bus)@),
            final(bus)@.wf(),
    {
        let byte = self.mem_fetch(bus, self.gr.hl);
        self.mem_store(bus, self.gr.de, byte);
        let change: u16 = match direction {
            Direction::Increment => 1,
            Direction::Decrement => 0xffff,
        };
        self.gr.hl = crate::cpu::wrap_add16(self.gr.hl, change);
        self.gr.de = crate::cpu::wrap_add16(self.gr.de, change);
        self.gr.bc = crate::cpu::wrap_sub16(self.gr.bc, 1);
        self.gr.f = (self.gr.f & 0xc1) | (if self.gr.bc != 0 {
            FLAG_P
        } else {
            0
        });
        if repeating && self.gr.bc != 0 {
            self.sr.pc = crate::cpu::wrap_sub16(self.sr.pc, 2);
        }
    }

    /// The flag byte after one `CPI`-family step: Z and the subtract flags
    /// from comparing A with (HL), P/V set while BC is nonzero after the
    /// decrement, N set, C preserved.
    pub open spec fn cpi_flags(self, bus: BusV) -> u8 {
        (sub8_flags(self.gr.a, self.mem_at(bus, self.gr.hl), 0) & 0xd2) | (self.gr.f & FLAG_C) | (
        if wsub16(self.gr.bc, 1) != 0 {
            FLAG_P
        } else {
            0
        })
    }

    /// The CPU after one `CPI`/`CPD`/`CPIR`/`CPDR` step: compare A with (HL)
    /// without storing, step HL by the direction, decrement BC. A repeating
    /// form re-executes (PC backs up two bytes) while BC is nonzero and the
    /// compare did not hit.
    pub open spec fn cpi_cpu(self, bus: BusV, direction: Direction, repeating: bool) -> CPU {
        CPU {
            gr: GR {
                hl: wadd16(self.gr.hl, dir_step(direction)),
                bc: wsub16(self.gr.bc, 1),
                f: self.cpi_flags(bus),
                ..self.gr
            },
            sr: SR {
                pc: if repeating && wsub16(self.gr.bc, 1) != 0 && self.cpi_flags(bus) & FLAG_Z == 0 {
                    wsub16(self.sr.pc, 2)
                } else {
                    self.sr.pc
                },
                ..self.sr
            },
            ..self
        }
    }

    /// One step of the `CPI`/`CPD`/`CPIR`/`CPDR` block compares.
    pub fn cpi(&mut self, bus: &mut Bus, direction: Direction, repeating: bool)
        requires
            old(bus)@.wf(),
        ensures
            final(bus)@ == old(bus)@,
            *final(self) == old(self).cpi_cpu(old(bus)@, direction, repeating),
    {
        let change: u16 = match direction {
            Direction::Increment => 1,
            Direction::Decrement => 0xffff,
        };
        let m = self.mem_fetch(bus, self.gr.hl);
        let (_, sub_f) = crate::cpu::alu::alu_sub8(self.gr.a, m, 0);
        self.gr.hl = crate::cpu::wrap_add16(self.gr.hl, change);
        self.gr.bc = crate::cpu::wrap_sub16(self.gr.bc, 1);
        let f: u8 = (sub_f & 0xd2) | (self.gr.f & FLAG_C) | (if self.gr.bc != 0 {
            FLAG_P
        } else {
            0
        });
        self.gr.f = f;
        if repeating && self.gr.bc != 0 && f & FLAG_Z == 0 {
            self.sr.pc = crate::cpu::wrap_sub16(self.sr.pc, 2);
        }
    }
}

} // verus!

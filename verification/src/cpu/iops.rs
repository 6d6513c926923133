use vstd::prelude::*;

use crate::bus::{Bus, BusV};
use crate::cpu::enums::{Operand};
use crate::cpu::mmu::{MMU_BBR, MMU_CBAR, MMU_CBR, MMU_DCNTL};
use crate::cpu::{make16, CPU, GR};

verus! {

impl CPU {
    /// Whether an IO port belongs to the on-chip MMU.
    pub open spec fn mmu_claims_io(address: u16) -> bool {
        address == MMU_CBR || address == MMU_BBR || address == MMU_CBAR || address == MMU_DCNTL
    }

    /// The byte an IO read returns: the on-chip MMU answers for its own
    /// ports, everything else polls the bus (open ports read as 0xFF).
    pub open spec fn io_at(self, bus: BusV, address: u16) -> u8 {
        match self.mmu.io_read_spec(address) {
            Some(v) => v,
            None => bus.io_val(address),
        }
    }

    /// The CPU after an IO write: only the MMU ports change it.
    pub open spec fn io_write_cpu(self, address: u16, data: u8) -> CPU {
        CPU { mmu: self.mmu.io_write_spec(address, data), ..self }
    }

    /// IO read through the CPU: the on-chip MMU is polled first, then the
    /// bus.
    pub fn io_fetch(&self, bus: &Bus, address: u16) -> (r: u8)
        ensures
            r == self.io_at(bus@, address),
    {
        match self.mmu.io_read(address) {
            Some(v) => v,
            None => bus.io_read(address),
        }
    }

    /// IO write through the CPU: the on-chip MMU sees its own ports and the
    /// write is broadcast on the bus as well.
    pub fn io_store(&mut self, bus: &mut Bus, address: u16, data: u8)
        requires
            old(bus)@.wf(),
        ensures
            *final(self) == old(self).io_write_cpu(address, data),
            final(bus)@ == old(bus)@.io_write_spec(address, data),
            final(bus)@.wf(),
    {
        self.mmu.io_write(address, data);
        bus.io_write(address, data);
    }

    /// `IN0 g, (m)`: read the port named by the immediate and store it in the
    /// destination operand.
    pub fn in0(&mut self, bus: &mut Bus, dst: Operand, port: Operand)
        requires
            old(bus)@.wf(),
        ensures
            *final(self) == old(self).lo_cpu(port).so_cpu(
                dst,
                old(self).io_at(
                    old(bus)@,
                    old(self).lo_val(old(bus)@, port),
                ) as u16,
            ),
            final(bus)@ == old(self).lo_cpu(port).so_bus(
                old(bus)@,
                dst,
                old(self).io_at(old(bus)@, old(self).lo_val(old(bus)@, port)) as u16,
            ),
            final(bus)@.wf(),
    {
        let addr = self.load_operand(bus, port);
        let data = self.io_fetch(bus, addr);
        self.store_operand(bus, dst, data as u16);
    }

    /// `OUT0 (m), g`: read the source operand and write it to the port named
    /// by the immediate.
    pub fn out0(&mut self, bus: &mut Bus, src: Operand, port: Operand)
        requires
            old(bus)@.wf(),
        ensures
            *final(self) == old(self).lo_cpu(port).lo_cpu(src).io_write_cpu(
                old(self).lo_val(old(bus)@, port),
                (old(self).lo_cpu(port).lo_val(old(bus)@, src) % 256) as u8,
            ),
            final(bus)@ == old(bus)@.io_write_spec(
                old(self).lo_val(old(bus)@, port),
                (old(self).lo_cpu(port).lo_val(old(bus)@, src) % 256) as u8,
            ),
            final(bus)@.wf(),
    {
        let addr = self.load_operand(bus, port);
        let data = self.load_operand(bus, src);
        self.io_store(bus, addr, (data % 256) as u8);
    }

    /// The full 16-bit port of the `IN A,(m)` / `OUT (m),A` forms: the
    /// immediate in the low byte, A in the high byte.
    pub open spec fn ma_port(self, bus: BusV) -> u16 {
        make16(self.gr.a, (self.lo_val(bus, Operand::Immediate) % 256) as u8)
    }

    /// `OUT (m), A`: write A to the port made of the immediate (low byte) and
    /// A (high byte).
    pub fn out_m(&mut self, bus: &mut Bus, port: Operand)
        requires
            old(bus)@.wf(),
            port == Operand::Immediate,
        ensures
            *final(self) == old(self).lo_cpu(port).io_write_cpu(
                old(self).ma_port(old(bus)@),
                old(self).gr.a,
            ),
            final(bus)@ == old(bus)@.io_write_spec(old(self).ma_port(old(bus)@), old(self).gr.a),
            final(bus)@.wf(),
    {
        let m = self.load_operand(bus, port);
        let addr = crate::cpu::word16(self.gr.a, (m % 256) as u8);
        let a = self.gr.a;
        self.io_store(bus, addr, a);
    }

    /// `IN A, (m)`: read the port made of the immediate (low byte) and A
    /// (high byte) into A.
    pub fn in_m(&mut self, bus: &mut Bus, port: Operand)
        requires
            old(bus)@.wf(),
            port == Operand::Immediate,
        ensures
            final(bus)@ == old(bus)@,
            *final(self) == (CPU {
                gr: GR {
                    a: old(self).io_at(old(bus)@, old(self).ma_port(old(bus)@)),
                    ..old(self).gr
                },
                ..old(self).lo_cpu(port)
            }),
    {
        let m = self.load_operand(bus, port);
        let addr = crate::cpu::word16(self.gr.a, (m % 256) as u8);
        let data = self.io_fetch(bus, addr);
        self.gr.a = data;
    }
}

} // verus!

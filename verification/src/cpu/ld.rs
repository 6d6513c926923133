use vstd::prelude::*;

use crate::bus::Bus;
use crate::cpu::enums::Operand;
use crate::cpu::CPU;

verus! {

impl CPU {
    /// `LD dst, src`, 8-bit forms: evaluate the source, store its low byte
    /// into the destination.
    pub fn ld_8(&mut self, bus: &mut Bus, src: Operand, dst: Operand)
        requires
            old(bus)@.wf(),
        ensures
            *final(self) == old(self).lo_cpu(src).so_cpu(dst, old(self).lo_val(old(bus)@, src)),
            final(bus)@ == old(self).lo_cpu(src).so_bus(
                old(bus)@,
                dst,
                old(self).lo_val(old(bus)@, src),
            ),
            final(bus)@.wf(),
    {
        let val = self.load_operand(bus, src);
        self.store_operand(bus, dst, val);
    }

    /// `LD dst, src`, 16-bit forms: evaluate the source word, store it into
    /// the destination.
    pub fn ld_16(&mut self, bus: &mut Bus, src: Operand, dst: Operand)
        requires
            old(bus)@.wf(),
        ensures
            *final(self) == old(self).lo_cpu(src).so_cpu(dst, old(self).lo_val(old(bus)@, src)),
            final(bus)@ == old(self).lo_cpu(src).so_bus(
                old(bus)@,
                dst,
                old(self).lo_val(old(bus)@, src),
            ),
            final(bus)@.wf(),
    {
        let val = self.load_operand(bus, src);
        self.store_operand(bus, dst, val);
    }
}

} // verus!

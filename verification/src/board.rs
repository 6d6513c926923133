use vstd::prelude::*;

use crate::bus::{Bus, Peripheral};
use crate::cpu::CPU;

verus! {

/// The single-board machine: one CPU and the bus it drives. The board owns
/// both; a driver loop calls `cycle` once per machine tick.
pub struct Board {
    pub cpu: CPU,
    pub bus: Bus,
}

impl Board {
    pub fn new(cpu: CPU, bus: Bus) -> (r: Board)
        ensures
            r.cpu == cpu,
            r.bus@ == bus@,
    {
        Board { cpu, bus }
    }

    /// Attach a peripheral to the board's bus.
    pub fn add(&mut self, peripheral: Peripheral)
        ensures
            final(self).cpu == old(self).cpu,
            final(self).bus@.peripherals == old(self).bus@.peripherals.push(peripheral@),
            final(self).bus@.ints == old(self).bus@.ints,
    {
        self.bus.add(peripheral);
    }

    /// Reset the CPU and every peripheral.
    pub fn reset(&mut self)
        requires
            old(self).bus@.wf(),
        ensures
            final(self).cpu == old(self).cpu.reset_spec(),
            final(self).bus@ == old(self).bus@.reset_spec(),
            final(self).bus@.wf(),
    {
        self.cpu.reset();
        self.bus.reset();
    }

    /// Run one machine cycle of the CPU against the bus, exactly as the
    /// CPU's `cycle_spec` gives it.
    pub fn cycle(&mut self)
        requires
            old(self).bus@.wf(),
        ensures
            final(self).bus@.wf(),
            (final(self).cpu, final(self).bus@) == CPU::cycle_spec(
                old(self).cpu,
                old(self).bus@,
            ),
    {
        self.cpu.cycle(&mut self.bus);
    }
}

} // verus!

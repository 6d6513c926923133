use vstd::prelude::*;

use crate::ram::{RAM, RamV};
use crate::reg::Reg;
use crate::rom::{ROM, RomV};

verus! {

/// The interrupt sources of the part, in priority order (highest first).
/// Only the plumbing is modelled: interrupt delivery is outside this core.
#[allow(non_camel_case_types)]
#[derive(Debug, PartialEq, Eq, Structural, Copy, Clone)]
pub enum Interrupt {
    TRAP,
    NMI,
    INT0,
    INT1,
    INT2,
    PTR0,
    PTR1,
    DMA0,
    DMA1,
    CSIO,
    ASCI0,
    ASCI1,
}

/// Bit assigned to an interrupt in the pending mask, highest priority in the
/// lowest bit.
pub open spec fn interrupt_bit(intr: Interrupt) -> u16 {
    match intr {
        Interrupt::TRAP => 0x0001,
        Interrupt::NMI => 0x0002,
        Interrupt::INT0 => 0x0004,
        Interrupt::INT1 => 0x0008,
        Interrupt::INT2 => 0x0010,
        Interrupt::PTR0 => 0x0020,
        Interrupt::PTR1 => 0x0040,
        Interrupt::DMA0 => 0x0080,
        Interrupt::DMA1 => 0x0100,
        Interrupt::CSIO => 0x0200,
        Interrupt::ASCI0 => 0x0400,
        Interrupt::ASCI1 => 0x0800,
    }
}

/// The highest-priority interrupt pending in the mask, if any.
pub open spec fn highest_pending(ints: u16) -> Option<Interrupt> {
    if ints & 0x0001 != 0 {
        Some(Interrupt::TRAP)
    } else if ints & 0x0002 != 0 {
        Some(Interrupt::NMI)
    } else if ints & 0x0004 != 0 {
        Some(Interrupt::INT0)
    } else if ints & 0x0008 != 0 {
        Some(Interrupt::INT1)
    } else if ints & 0x0010 != 0 {
        Some(Interrupt::INT2)
    } else if ints & 0x0020 != 0 {
        Some(Interrupt::PTR0)
    } else if ints & 0x0040 != 0 {
        Some(Interrupt::PTR1)
    } else if ints & 0x0080 != 0 {
        Some(Interrupt::DMA0)
    } else if ints & 0x0100 != 0 {
        Some(Interrupt::DMA1)
    } else if ints & 0x0200 != 0 {
        Some(Interrupt::CSIO)
    } else if ints & 0x0400 != 0 {
        Some(Interrupt::ASCI0)
    } else if ints & 0x0800 != 0 {
        Some(Interrupt::ASCI1)
    } else {
        None
    }
}

/// A device attached to the bus. The bus owns the canonical collection;
/// peripherals whose internals are outside this core (DMA, timers, serial,
/// SD card) are not modelled.
pub enum Peripheral {
    Ram(RAM),
    Rom(ROM),
    Reg(Reg),
}

/// Mathematical model of a [`Peripheral`].
#[verifier::ext_equal]
pub ghost enum PeripheralV {
    Ram(RamV),
    Rom(RomV),
    Reg(Reg),
}

impl View for Peripheral {
    type V = PeripheralV;

    open spec fn view(&self) -> PeripheralV {
        match self {
            Peripheral::Ram(ram) => PeripheralV::Ram(ram@),
            Peripheral::Rom(rom) => PeripheralV::Rom(rom@),
            Peripheral::Reg(reg) => PeripheralV::Reg(*reg),
        }
    }
}

impl PeripheralV {
    pub open spec fn wf(self) -> bool {
        match self {
            PeripheralV::Ram(ram) => ram.wf(),
            PeripheralV::Rom(rom) => rom.wf(),
            PeripheralV::Reg(_) => true,
        }
    }

    /// Whether the peripheral decodes this physical memory address.
    pub open spec fn claims_mem(self, address: u32) -> bool {
        match self {
            PeripheralV::Ram(ram) => ram.claims(address),
            PeripheralV::Rom(rom) => rom.claims(address),
            PeripheralV::Reg(_) => false,
        }
    }

    /// The byte the peripheral returns for a claimed memory address.
    pub open spec fn mem_at(self, address: u32) -> u8 {
        match self {
            PeripheralV::Ram(ram) => ram.byte_at(address),
            PeripheralV::Rom(rom) => rom.byte_at(address),
            PeripheralV::Reg(_) => 0xff,
        }
    }

    /// The peripheral after a broadcast memory write.
    pub open spec fn mem_write_spec(self, address: u32, data: u8) -> PeripheralV {
        match self {
            PeripheralV::Ram(ram) => PeripheralV::Ram(ram.mem_write_spec(address, data)),
            PeripheralV::Rom(_) => self,
            PeripheralV::Reg(_) => self,
        }
    }

    /// The peripheral after it has seen an opcode fetch at this address.
    pub open spec fn observe_m1_spec(self, address: u32) -> PeripheralV {
        match self {
            PeripheralV::Rom(rom) => PeripheralV::Rom(rom.observe_m1_spec(address)),
            _ => self,
        }
    }

    /// Whether the peripheral decodes this IO port.
    pub open spec fn claims_io(self, address: u16) -> bool {
        match self {
            PeripheralV::Reg(reg) => address == reg.addr,
            _ => false,
        }
    }

    /// The byte the peripheral returns for a claimed IO port.
    pub open spec fn io_at(self, address: u16) -> u8 {
        match self {
            PeripheralV::Reg(reg) => reg.val,
            _ => 0xff,
        }
    }

    /// The peripheral after a broadcast IO write.
    pub open spec fn io_write_spec(self, address: u16, data: u8) -> PeripheralV {
        match self {
            PeripheralV::Reg(reg) => PeripheralV::Reg(reg.io_write_spec(address, data)),
            _ => self,
        }
    }

    /// The peripheral after a bus reset.
    pub open spec fn reset_spec(self) -> PeripheralV {
        match self {
            PeripheralV::Rom(rom) => PeripheralV::Rom(RomV { is_masking: true, ..rom }),
            _ => self,
        }
    }
}

impl Peripheral {
    pub fn reset(&mut self)
        ensures
            final(self)@ == old(self)@.reset_spec(),
    {
        match self {
            Peripheral::Rom(rom) => rom.reset(),
            _ => (),
        }
    }

    /// Background work for one machine cycle. None of the peripherals
    /// modelled here does any, and none raises an interrupt.
    pub fn cycle(&mut self) -> (r: Option<Interrupt>)
        ensures
            *final(self) == *old(self),
            r == None::<Interrupt>,
    {
        None
    }

    pub fn mem_read(&self, address: u32) -> (r: Option<u8>)
        requires
            self@.wf(),
        ensures
            r == (if self@.claims_mem(address) {
                Some(self@.mem_at(address))
            } else {
                None::<u8>
            }),
    {
        match self {
            Peripheral::Ram(ram) => ram.mem_read(address),
            Peripheral::Rom(rom) => rom.mem_read(address),
            Peripheral::Reg(_) => None,
        }
    }

    pub fn mem_write(&mut self, address: u32, data: u8)
        requires
            old(self)@.wf(),
        ensures
            final(self)@ == old(self)@.mem_write_spec(address, data),
            final(self)@.wf(),
    {
        match self {
            Peripheral::Ram(ram) => ram.mem_write(address, data),
            _ => (),
        }
    }

    pub fn observe_m1(&mut self, address: u32)
        ensures
            final(self)@ == old(self)@.observe_m1_spec(address),
    {
        match self {
            Peripheral::Rom(rom) => rom.observe_m1(address),
            _ => (),
        }
    }

    pub fn io_read(&self, address: u16) -> (r: Option<u8>)
        ensures
            r == (if self@.claims_io(address) {
                Some(self@.io_at(address))
            } else {
                None::<u8>
            }),
    {
        match self {
            Peripheral::Reg(reg) => reg.io_read(address),
            _ => None,
        }
    }

    pub fn io_write(&mut self, address: u16, data: u8)
        ensures
            final(self)@ == old(self)@.io_write_spec(address, data),
    {
        match self {
            Peripheral::Reg(reg) => reg.io_write(address, data),
            _ => (),
        }
    }
}

/// The memory and IO bus: an ordered collection of peripherals and the
/// pending-interrupt mask. Reads poll peripherals in registration order and
/// the first one claiming the address wins; an address claimed by nobody
/// reads as 0xFF (open bus). Writes are broadcast to every peripheral.
pub struct Bus {
    pub peripherals: Vec<Peripheral>,
    pub ints: u16,
}

/// Mathematical model of a [`Bus`].
#[verifier::ext_equal]
pub ghost struct BusV {
    pub peripherals: Seq<PeripheralV>,
    pub ints: u16,
}

impl View for Bus {
    type V = BusV;

    open spec fn view(&self) -> BusV {
        BusV {
            peripherals: Seq::new(self.peripherals@.len(), |i: int| self.peripherals@[i]@),
            ints: self.ints,
        }
    }
}

/// The value a memory read returns, scanning peripherals from index `i` on:
/// the first claimant's byte, or 0xFF when nobody claims the address.
pub open spec fn bus_mem_val_from(s: Seq<PeripheralV>, address: u32, i: int) -> u8
    decreases s.len() - i,
{
    if i < 0 || i >= s.len() {
        0xff
    } else if s[i].claims_mem(address) {
        s[i].mem_at(address)
    } else {
        bus_mem_val_from(s, address, i + 1)
    }
}

/// The value an IO read returns, scanning peripherals from index `i` on.
pub open spec fn bus_io_val_from(s: Seq<PeripheralV>, address: u16, i: int) -> u8
    decreases s.len() - i,
{
    if i < 0 || i >= s.len() {
        0xff
    } else if s[i].claims_io(address) {
        s[i].io_at(address)
    } else {
        bus_io_val_from(s, address, i + 1)
    }
}

impl BusV {
    pub open spec fn wf(self) -> bool {
        forall|i: int| 0 <= i < self.peripherals.len() ==> self.peripherals[i].wf()
    }

    /// Whether any peripheral claims the physical memory address.
    pub open spec fn claims_mem(self, address: u32) -> bool {
        exists|i: int| 0 <= i < self.peripherals.len() && self.peripherals[i].claims_mem(address)
    }

    /// The byte a memory read of the address returns.
    pub open spec fn mem_val(self, address: u32) -> u8 {
        bus_mem_val_from(self.peripherals, address, 0)
    }

    /// The byte an IO read of the port returns.
    pub open spec fn io_val(self, address: u16) -> u8 {
        bus_io_val_from(self.peripherals, address, 0)
    }

    /// The bus after a broadcast memory write.
    pub open spec fn mem_write_spec(self, address: u32, data: u8) -> BusV {
        BusV {
            peripherals: Seq::new(
                self.peripherals.len(),
                |i: int| self.peripherals[i].mem_write_spec(address, data),
            ),
            ..self
        }
    }

    /// The bus after a broadcast IO write.
    pub open spec fn io_write_spec(self, address: u16, data: u8) -> BusV {
        BusV {
            peripherals: Seq::new(
                self.peripherals.len(),
                |i: int| self.peripherals[i].io_write_spec(address, data),
            ),
            ..self
        }
    }

    /// The bus after every peripheral has seen an opcode fetch.
    pub open spec fn observe_m1_spec(self, address: u32) -> BusV {
        BusV {
            peripherals: Seq::new(
                self.peripherals.len(),
                |i: int| self.peripherals[i].observe_m1_spec(address),
            ),
            ..self
        }
    }

    /// The bus after every peripheral has been reset.
    pub open spec fn reset_spec(self) -> BusV {
        BusV {
            peripherals: Seq::new(self.peripherals.len(), |i: int| self.peripherals[i].reset_spec()),
            ..self
        }
    }

    /// The bus after the peripherals seen by a memory read: an opcode fetch
    /// lets the ROMs observe A19, a data read changes nothing.
    pub open spec fn mem_read_bus_spec(self, address: u32, m1: bool) -> BusV {
        if m1 {
            self.observe_m1_spec(address)
        } else {
            self
        }
    }
}

/// Open-bus behaviour: a memory address claimed by no peripheral reads as
/// 0xFF, whatever the peripherals hold.
pub proof fn lemma_open_bus_mem(s: Seq<PeripheralV>, address: u32, i: int)
    requires
        0 <= i <= s.len(),
        forall|j: int| 0 <= j < s.len() ==> !s[j].claims_mem(address),
    ensures
        bus_mem_val_from(s, address, i) == 0xff,
    decreases s.len() - i,
{
    if i < s.len() {
        lemma_open_bus_mem(s, address, i + 1);
    }
}

/// Open-bus behaviour for IO ports.
pub proof fn lemma_open_bus_io(s: Seq<PeripheralV>, address: u16, i: int)
    requires
        0 <= i <= s.len(),
        forall|j: int| 0 <= j < s.len() ==> !s[j].claims_io(address),
    ensures
        bus_io_val_from(s, address, i) == 0xff,
    decreases s.len() - i,
{
    if i < s.len() {
        lemma_open_bus_io(s, address, i + 1);
    }
}


/// Open-bus behaviour at the bus level: a memory address no peripheral
/// claims reads as 0xFF, and so does an IO port no peripheral claims.
pub proof fn lemma_open_bus(bus: BusV, address: u32, port: u16)
    requires
        !bus.claims_mem(address),
        forall|i: int|
            0 <= i < bus.peripherals.len() ==> !(#[trigger] bus.peripherals[i].claims_io(port)),
    ensures
        bus.mem_val(address) == 0xff,
        bus.io_val(port) == 0xff,
{
    assert forall|j: int| 0 <= j < bus.peripherals.len() implies !bus.peripherals[j].claims_mem(
        address,
    ) by {}
    lemma_open_bus_mem(bus.peripherals, address, 0);
    lemma_open_bus_io(bus.peripherals, port, 0);
}

impl Bus {
    pub fn new() -> (r: Bus)
        ensures
            r@.peripherals.len() == 0,
            r@.ints == 0,
    {
        Bus { peripherals: Vec::new(), ints: 0 }
    }

    /// Attach a peripheral; later peripherals lose read arbitration to
    /// earlier ones.
    pub fn add(&mut self, peripheral: Peripheral)
        ensures
            final(self)@.peripherals == old(self)@.peripherals.push(peripheral@),
            final(self)@.ints == old(self)@.ints,
    {
        self.peripherals.push(peripheral);
        proof {
            assert(self@.peripherals =~= old(self)@.peripherals.push(peripheral@));
        }
    }

    /// Reset every peripheral.
    pub fn reset(&mut self)
        requires
            old(self)@.wf(),
        ensures
            final(self)@ == old(self)@.reset_spec(),
            final(self)@.wf(),
    {
        let ghost orig = self@.peripherals;
        let n = self.peripherals.len();
        let mut i: usize = 0;
        while i < n
            invariant
                i <= n,
                n == self.peripherals@.len(),
                orig.len() == n,
                forall|j: int| 0 <= j < i ==> self@.peripherals[j] == orig[j].reset_spec(),
                forall|j: int| i <= j < n ==> self@.peripherals[j] == orig[j],
                self.ints == old(self).ints,
                forall|j: int| 0 <= j < n ==> orig[j].wf(),
            decreases n - i,
        {
            let ghost pre = self@.peripherals;
            let mut p = Peripheral::Reg(Reg { val: 0, addr: 0 });
            self.peripherals.set_and_swap(i, &mut p);
            p.reset();
            self.peripherals.set_and_swap(i, &mut p);
            proof {
                assert(self@.peripherals =~= pre.update(i as int, pre[i as int].reset_spec()));
            }
            i = i + 1;
        }
        proof {
            assert(self@ =~= old(self)@.reset_spec());
            assert forall|j: int| 0 <= j < self@.peripherals.len() implies self@.peripherals[j].wf()
                by {
                assert(self@.peripherals[j] == orig[j].reset_spec());
            }
        }
    }

    /// Give every peripheral one cycle of background work and return the
    /// highest-priority pending interrupt. The peripherals modelled here do
    /// no background work and raise no interrupts.
    pub fn cycle(&mut self) -> (r: Option<Interrupt>)
        ensures
            final(self)@ == old(self)@,
            r == highest_pending(old(self).ints),
    {
        let n = self.peripherals.len();
        let mut i: usize = 0;
        while i < n
            invariant
                self@ == old(self)@,
                n == self.peripherals@.len(),
            decreases n - i,
        {
            let mut p = Peripheral::Reg(Reg { val: 0, addr: 0 });
            self.peripherals.set_and_swap(i, &mut p);
            let pending = p.cycle();
            match pending {
                Some(intr) => {
                    self.ints = self.ints | self.interrupt_bit_of(intr);
                },
                None => (),
            }
            self.peripherals.set_and_swap(i, &mut p);
            proof {
                assert(self@ =~= old(self)@);
            }
            i = i + 1;
        }
        self.next_pending()
    }

    fn interrupt_bit_of(&self, intr: Interrupt) -> (r: u16)
        ensures
            r == interrupt_bit(intr),
    {
        match intr {
            Interrupt::TRAP => 0x0001,
            Interrupt::NMI => 0x0002,
            Interrupt::INT0 => 0x0004,
            Interrupt::INT1 => 0x0008,
            Interrupt::INT2 => 0x0010,
            Interrupt::PTR0 => 0x0020,
            Interrupt::PTR1 => 0x0040,
            Interrupt::DMA0 => 0x0080,
            Interrupt::DMA1 => 0x0100,
            Interrupt::CSIO => 0x0200,
            Interrupt::ASCI0 => 0x0400,
            Interrupt::ASCI1 => 0x0800,
        }
    }

    fn next_pending(&self) -> (r: Option<Interrupt>)
        ensures
            r == highest_pending(self.ints),
    {
        if self.ints & 0x0001 != 0 {
            Some(Interrupt::TRAP)
        } else if self.ints & 0x0002 != 0 {
            Some(Interrupt::NMI)
        } else if self.ints & 0x0004 != 0 {
            Some(Interrupt::INT0)
        } else if self.ints & 0x0008 != 0 {
            Some(Interrupt::INT1)
        } else if self.ints & 0x0010 != 0 {
            Some(Interrupt::INT2)
        } else if self.ints & 0x0020 != 0 {
            Some(Interrupt::PTR0)
        } else if self.ints & 0x0040 != 0 {
            Some(Interrupt::PTR1)
        } else if self.ints & 0x0080 != 0 {
            Some(Interrupt::DMA0)
        } else if self.ints & 0x0100 != 0 {
            Some(Interrupt::DMA1)
        } else if self.ints & 0x0200 != 0 {
            Some(Interrupt::CSIO)
        } else if self.ints & 0x0400 != 0 {
            Some(Interrupt::ASCI0)
        } else if self.ints & 0x0800 != 0 {
            Some(Interrupt::ASCI1)
        } else {
            None
        }
    }

    /// Acknowledge (clear) a pending interrupt.
    pub fn intack(&mut self, intr: Interrupt)
        ensures
            final(self).ints == old(self).ints & !interrupt_bit(intr),
            final(self).peripherals@ == old(self).peripherals@,
    {
        let bit = self.interrupt_bit_of(intr);
        self.ints = self.ints & !bit;
    }

    /// Memory-space read. The first peripheral claiming the address answers;
    /// an unclaimed address reads as 0xFF. On an opcode fetch (`m1`) every
    /// peripheral first observes the fetch address, which lets the boot ROM
    /// end its A19 masking.
    pub fn mem_read(&mut self, address: u32, m1: bool) -> (r: u8)
        requires
            old(self)@.wf(),
        ensures
            final(self)@ == old(self)@.mem_read_bus_spec(address, m1),
            final(self)@.wf(),
            r == final(self)@.mem_val(address),
    {
        let ghost orig = self@.peripherals;
        if m1 {
            let n = self.peripherals.len();
            let mut i: usize = 0;
            while i < n
                invariant
                    i <= n,
                    n == self.peripherals@.len(),
                    orig.len() == n,
                    forall|j: int| 0 <= j < i ==> self@.peripherals[j] == orig[j].observe_m1_spec(
                        address,
                    ),
                    forall|j: int| i <= j < n ==> self@.peripherals[j] == orig[j],
                    self.ints == old(self).ints,
                    forall|j: int| 0 <= j < n ==> orig[j].wf(),
                decreases n - i,
            {
                let ghost pre = self@.peripherals;
                let mut p = Peripheral::Reg(Reg { val: 0, addr: 0 });
                self.peripherals.set_and_swap(i, &mut p);
                p.observe_m1(address);
                self.peripherals.set_and_swap(i, &mut p);
                proof {
                    assert(self@.peripherals =~= pre.update(
                        i as int,
                        pre[i as int].observe_m1_spec(address),
                    ));
                }
                i = i + 1;
            }
            proof {
                assert(self@ =~= old(self)@.observe_m1_spec(address));
                assert forall|j: int| 0 <= j < self@.peripherals.len() implies
                    self@.peripherals[j].wf() by {
                    assert(self@.peripherals[j] == orig[j].observe_m1_spec(address));
                    assert(orig[j].wf());
                }
            }
        }
        let ghost target = old(self)@.mem_read_bus_spec(address, m1);
        proof {
            assert(self@ =~= target);
            assert forall|j: int| 0 <= j < target.peripherals.len() implies
                target.peripherals[j].wf() by {
                if m1 {
                    assert(target.peripherals[j] == orig[j].observe_m1_spec(address));
                }
            }
        }
        let ghost cur = self@.peripherals;
        let n = self.peripherals.len();
        let mut i: usize = 0;
        while i < n
            invariant
                i <= n,
                n == self.peripherals@.len(),
                target == old(self)@.mem_read_bus_spec(address, m1),
                self@ == target,
                cur == target.peripherals,
                forall|j: int| 0 <= j < n ==> cur[j].wf(),
                bus_mem_val_from(cur, address, 0) == bus_mem_val_from(cur, address, i as int),
            decreases n - i,
        {
            let r = match &self.peripherals[i] {
                Peripheral::Ram(ram) => ram.mem_read(address),
                Peripheral::Rom(rom) => rom.mem_read(address),
                Peripheral::Reg(_) => None,
            };
            match r {
                Some(data) => {
                    return data;
                },
                None => (),
            }
            i = i + 1;
        }
        0xff
    }

    /// Memory-space write, broadcast to every peripheral; each decides
    /// whether it matches. Unclaimed writes are silently absorbed.
    pub fn mem_write(&mut self, address: u32, data: u8)
        requires
            old(self)@.wf(),
        ensures
            final(self)@ == old(self)@.mem_write_spec(address, data),
            final(self)@.wf(),
    {
        let ghost orig = self@.peripherals;
        let n = self.peripherals.len();
        let mut i: usize = 0;
        while i < n
            invariant
                i <= n,
                n == self.peripherals@.len(),
                orig.len() == n,
                forall|j: int| 0 <= j < i ==> self@.peripherals[j] == orig[j].mem_write_spec(
                    address,
                    data,
                ) && self@.peripherals[j].wf(),
                forall|j: int| i <= j < n ==> self@.peripherals[j] == orig[j],
                self.ints == old(self).ints,
                forall|j: int| 0 <= j < n ==> orig[j].wf(),
            decreases n - i,
        {
            let ghost pre = self@.peripherals;
            let mut p = Peripheral::Reg(Reg { val: 0, addr: 0 });
            self.peripherals.set_and_swap(i, &mut p);
            p.mem_write(address, data);
            self.peripherals.set_and_swap(i, &mut p);
            proof {
                assert(self@.peripherals =~= pre.update(
                    i as int,
                    pre[i as int].mem_write_spec(address, data),
                ));
            }
            i = i + 1;
        }
        proof {
            assert(self@ =~= old(self)@.mem_write_spec(address, data));
        }
    }

    /// IO-space read. The first peripheral claiming the port answers; an
    /// unclaimed port reads as 0xFF.
    pub fn io_read(&self, address: u16) -> (r: u8)
        ensures
            r == self@.io_val(address),
    {
        let ghost cur = self@.peripherals;
        let n = self.peripherals.len();
        let mut i: usize = 0;
        while i < n
            invariant
                i <= n,
                n == self.peripherals@.len(),
                self@.peripherals == cur,
                bus_io_val_from(cur, address, 0) == bus_io_val_from(cur, address, i as int),
            decreases n - i,
        {
            let r = match &self.peripherals[i] {
                Peripheral::Reg(reg) => reg.io_read(address),
                _ => None,
            };
            match r {
                Some(data) => {
                    return data;
                },
                None => (),
            }
            i = i + 1;
        }
        0xff
    }

    /// IO-space write, broadcast to every peripheral.
    pub fn io_write(&mut self, address: u16, data: u8)
        requires
            old(self)@.wf(),
        ensures
            final(self)@ == old(self)@.io_write_spec(address, data),
            final(self)@.wf(),
    {
        let ghost orig = self@.peripherals;
        let n = self.peripherals.len();
        let mut i: usize = 0;
        while i < n
            invariant
                i <= n,
                n == self.peripherals@.len(),
                orig.len() == n,
                forall|j: int| 0 <= j < i ==> self@.peripherals[j] == orig[j].io_write_spec(
                    address,
                    data,
                ) && self@.peripherals[j].wf(),
                forall|j: int| i <= j < n ==> self@.peripherals[j] == orig[j],
                self.ints == old(self).ints,
                forall|j: int| 0 <= j < n ==> orig[j].wf(),
            decreases n - i,
        {
            let ghost pre = self@.peripherals;
            let mut p = Peripheral::Reg(Reg { val: 0, addr: 0 });
            self.peripherals.set_and_swap(i, &mut p);
            p.io_write(address, data);
            self.peripherals.set_and_swap(i, &mut p);
            proof {
                assert(self@.peripherals =~= pre.update(
                    i as int,
                    pre[i as int].io_write_spec(address, data),
                ));
            }
            i = i + 1;
        }
        proof {
            assert(self@ =~= old(self)@.io_write_spec(address, data));
        }
    }
}

} // verus!

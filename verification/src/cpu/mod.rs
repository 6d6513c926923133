pub mod alu;
pub mod alu16;
pub mod block;
pub mod ctrl;
pub mod dispatch;
pub mod enums;
pub mod iops;
pub mod ld;
pub mod mmu;
pub mod rot;
pub mod special;
pub mod stack;
pub mod step;

use vstd::prelude::*;

use crate::bus::{Bus, BusV};
use crate::cpu::enums::{Condition, Mode, Operand, Register, FLAG_C, FLAG_MASK, FLAG_P, FLAG_S, FLAG_Z};
use crate::cpu::mmu::{MMU};

verus! {

/// General registers: accumulator, flags and the three 16-bit pairs.
#[derive(Debug, PartialEq, Eq, Structural, Copy, Clone)]
pub struct GR {
    pub a: u8,
    pub f: u8,
    pub bc: u16,
    pub de: u16,
    pub hl: u16,
}

/// Special registers: interrupt vector, refresh, index registers, stack
/// pointer and program counter.
#[derive(Debug, PartialEq, Eq, Structural, Copy, Clone)]
pub struct SR {
    pub i: u8,
    pub r: u8,
    pub ix: u16,
    pub iy: u16,
    pub sp: u16,
    pub pc: u16,
}

/// The processor: execution mode, the memory management unit it owns, the
/// main (`gr`) and shadow (`gr_`) register banks, the special registers, and
/// the two interrupt-enable flip-flops.
#[derive(Debug, PartialEq, Eq, Structural, Copy, Clone)]
pub struct CPU {
    pub mode: Mode,
    pub mmu: MMU,
    pub gr: GR,
    pub gr_: GR,
    pub sr: SR,
    pub iff1: bool,
    pub iff2: bool,
}

/// Sign extension of a byte to 16 bits.
pub open spec fn sxt8(e: u8) -> u16 {
    if e >= 0x80 {
        (e + 0xff00) as u16
    } else {
        e as u16
    }
}

/// 16-bit addition wrapping modulo 2^16.
pub open spec fn wadd16(a: u16, b: u16) -> u16 {
    ((a + b) % 0x10000) as u16
}

/// 16-bit subtraction wrapping modulo 2^16.
pub open spec fn wsub16(a: u16, b: u16) -> u16 {
    ((a + 0x10000 - b) % 0x10000) as u16
}

/// The 16-bit word with the given high and low bytes.
pub open spec fn make16(hi: u8, lo: u8) -> u16 {
    (hi * 256 + lo) as u16
}

/// Sign extension of a byte to 16 bits.
pub fn sign_extend8(e: u8) -> (r: u16)
    ensures
        r == sxt8(e),
{
    if e >= 0x80 {
        e as u16 + 0xff00
    } else {
        e as u16
    }
}

/// 16-bit addition wrapping modulo 2^16.
pub fn wrap_add16(a: u16, b: u16) -> (r: u16)
    ensures
        r == wadd16(a, b),
{
    ((a as u32 + b as u32) % 0x10000) as u16
}

/// 16-bit subtraction wrapping modulo 2^16.
pub fn wrap_sub16(a: u16, b: u16) -> (r: u16)
    ensures
        r == wsub16(a, b),
{
    ((a as u32 + 0x10000 - b as u32) % 0x10000) as u16
}

/// The 16-bit word with the given high and low bytes.
pub fn word16(hi: u8, lo: u8) -> (r: u16)
    ensures
        r == make16(hi, lo),
{
    hi as u16 * 256 + lo as u16
}

impl CPU {
    /// The value of a register name, widened to 16 bits. Eight-bit halves of
    /// the pairs read as their byte value; AF reads as A in the high byte and
    /// F in the low byte.
    pub open spec fn reg_spec(self, r: Register) -> u16 {
        match r {
            Register::A => self.gr.a as u16,
            Register::F => self.gr.f as u16,
            Register::B => (self.gr.bc / 256) as u16,
            Register::C => (self.gr.bc % 256) as u16,
            Register::D => (self.gr.de / 256) as u16,
            Register::E => (self.gr.de % 256) as u16,
            Register::H => (self.gr.hl / 256) as u16,
            Register::L => (self.gr.hl % 256) as u16,
            Register::AF => make16(self.gr.a, self.gr.f),
            Register::BC => self.gr.bc,
            Register::DE => self.gr.de,
            Register::HL => self.gr.hl,
            Register::I => self.sr.i as u16,
            Register::R => self.sr.r as u16,
            Register::IX => self.sr.ix,
            Register::IY => self.sr.iy,
            Register::SP => self.sr.sp,
            Register::PC => self.sr.pc,
        }
    }

    /// The CPU after a register write. Writes to 8-bit names store the low
    /// byte of the value; 16-bit writes are atomic.
    pub open spec fn write_reg_spec(self, r: Register, v: u16) -> CPU {
        match r {
            Register::A => CPU { gr: GR { a: (v % 256) as u8, ..self.gr }, ..self },
            Register::F => CPU { gr: GR { f: (v % 256) as u8, ..self.gr }, ..self },
            Register::B => CPU {
                gr: GR { bc: ((self.gr.bc % 256) + (v % 256) * 256) as u16, ..self.gr },
                ..self
            },
            Register::C => CPU {
                gr: GR { bc: ((self.gr.bc / 256) * 256 + (v % 256)) as u16, ..self.gr },
                ..self
            },
            Register::D => CPU {
                gr: GR { de: ((self.gr.de % 256) + (v % 256) * 256) as u16, ..self.gr },
                ..self
            },
            Register::E => CPU {
                gr: GR { de: ((self.gr.de / 256) * 256 + (v % 256)) as u16, ..self.gr },
                ..self
            },
            Register::H => CPU {
                gr: GR { hl: ((self.gr.hl % 256) + (v % 256) * 256) as u16, ..self.gr },
                ..self
            },
            Register::L => CPU {
                gr: GR { hl: ((self.gr.hl / 256) * 256 + (v % 256)) as u16, ..self.gr },
                ..self
            },
            Register::AF => CPU {
                gr: GR { a: (v / 256) as u8, f: (v % 256) as u8, ..self.gr },
                ..self
            },
            Register::BC => CPU { gr: GR { bc: v, ..self.gr }, ..self },
            Register::DE => CPU { gr: GR { de: v, ..self.gr }, ..self },
            Register::HL => CPU { gr: GR { hl: v, ..self.gr }, ..self },
            Register::I => CPU { sr: SR { i: (v % 256) as u8, ..self.sr }, ..self },
            Register::R => CPU { sr: SR { r: (v % 256) as u8, ..self.sr }, ..self },
            Register::IX => CPU { sr: SR { ix: v, ..self.sr }, ..self },
            Register::IY => CPU { sr: SR { iy: v, ..self.sr }, ..self },
            Register::SP => CPU { sr: SR { sp: v, ..self.sr }, ..self },
            Register::PC => CPU { sr: SR { pc: v, ..self.sr }, ..self },
        }
    }

    /// The state a reset leaves: PC and SP zero, fetching opcodes, interrupts
    /// disabled, the MMU at its defaults, all other registers untouched.
    pub open spec fn reset_spec(self) -> CPU {
        CPU {
            mode: Mode::OpCodeFetch,
            mmu: MMU::reset_spec(),
            sr: SR { pc: 0, sp: 0, ..self.sr },
            iff1: false,
            iff2: false,
            ..self
        }
    }

    /// Whether a condition code holds of the flag byte; `None` is the
    /// unconditional case.
    pub open spec fn is_condition_spec(self, condition: Option<Condition>) -> bool {
        match condition {
            Some(Condition::NonZero) => self.gr.f & FLAG_Z == 0,
            Some(Condition::Zero) => self.gr.f & FLAG_Z != 0,
            Some(Condition::NonCarry) => self.gr.f & FLAG_C == 0,
            Some(Condition::Carry) => self.gr.f & FLAG_C != 0,
            Some(Condition::ParityOdd) => self.gr.f & FLAG_P == 0,
            Some(Condition::ParityEven) => self.gr.f & FLAG_P != 0,
            Some(Condition::SignPlus) => self.gr.f & FLAG_S == 0,
            Some(Condition::SignMinus) => self.gr.f & FLAG_S != 0,
            None => true,
        }
    }

    /// The physical address the MMU maps a logical address to.
    pub open spec fn phys(self, addr: u16) -> u32 {
        self.mmu.translate(addr) as u32
    }

    /// The byte a data read of a logical address returns.
    pub open spec fn mem_at(self, bus: BusV, addr: u16) -> u8 {
        bus.mem_val(self.phys(addr))
    }

    /// How many bytes of encoding an operand consumes at PC.
    pub open spec fn operand_bytes(op: Operand) -> u16 {
        match op {
            Operand::Indexed(_) => 1,
            Operand::Extended => 2,
            Operand::Extended16 => 2,
            Operand::Immediate => 1,
            Operand::Immediate16 => 2,
            Operand::Relative => 1,
            _ => 0,
        }
    }

    /// The CPU after evaluating an operand: PC has advanced over the
    /// operand's encoding.
    pub open spec fn lo_cpu(self, op: Operand) -> CPU {
        CPU {
            sr: SR { pc: wadd16(self.sr.pc, CPU::operand_bytes(op)), ..self.sr },
            ..self
        }
    }

    /// The value an operand evaluates to. Byte-width operands return the byte
    /// in the low half; `Extended16` and `Immediate16` return a full word.
    pub open spec fn lo_val(self, bus: BusV, op: Operand) -> u16 {
        match op {
            Operand::Absolute(v) => v as u16,
            Operand::Memory(addr) => self.mem_at(bus, addr) as u16,
            Operand::Direct(r) => self.reg_spec(r),
            Operand::Indirect(ri) => self.mem_at(bus, self.reg_spec(ri.to_register_spec())) as u16,
            Operand::Indexed(ix) => self.mem_at(
                bus,
                wadd16(self.reg_spec(ix.to_register_spec()), sxt8(self.mem_at(bus, self.sr.pc))),
            ) as u16,
            Operand::Extended => self.mem_at(bus, self.ext_addr(bus)) as u16,
            Operand::Extended16 => make16(
                self.mem_at(bus, wadd16(self.ext_addr(bus), 1)),
                self.mem_at(bus, self.ext_addr(bus)),
            ),
            Operand::Immediate => self.mem_at(bus, self.sr.pc) as u16,
            Operand::Immediate16 => make16(
                self.mem_at(bus, wadd16(self.sr.pc, 1)),
                self.mem_at(bus, self.sr.pc),
            ),
            Operand::Relative => wadd16(wadd16(self.sr.pc, 1), sxt8(self.mem_at(bus, self.sr.pc))),
            Operand::Discard => 0,
        }
    }

    /// The little-endian address encoded at PC (used by `Extended` and
    /// `Extended16`).
    pub open spec fn ext_addr(self, bus: BusV) -> u16 {
        make16(self.mem_at(bus, wadd16(self.sr.pc, 1)), self.mem_at(bus, self.sr.pc))
    }

    /// The CPU after storing to an operand: PC advance, a register write for
    /// `Direct`, and the halt that a store to a value operand provokes.
    pub open spec fn so_cpu(self, op: Operand, value: u16) -> CPU {
        match op {
            Operand::Absolute(_) => CPU { mode: Mode::Halt, ..self },
            Operand::Direct(r) => self.write_reg_spec(r, value),
            Operand::Immediate => CPU { mode: Mode::Halt, ..self },
            Operand::Immediate16 => CPU { mode: Mode::Halt, ..self },
            Operand::Relative => CPU { mode: Mode::Halt, ..self },
            _ => self.lo_cpu(op),
        }
    }

    /// The bus after storing a value to an operand: byte stores write the low
    /// byte, `Extended16` stores a full little-endian word.
    pub open spec fn so_bus(self, bus: BusV, op: Operand, value: u16) -> BusV {
        match op {
            Operand::Memory(addr) => bus.mem_write_spec(self.phys(addr), (value % 256) as u8),
            Operand::Indirect(ri) => bus.mem_write_spec(
                self.phys(self.reg_spec(ri.to_register_spec())),
                (value % 256) as u8,
            ),
            Operand::Indexed(ix) => bus.mem_write_spec(
                self.phys(
                    wadd16(self.reg_spec(ix.to_register_spec()), sxt8(self.mem_at(bus, self.sr.pc))),
                ),
                (value % 256) as u8,
            ),
            Operand::Extended => bus.mem_write_spec(
                self.phys(self.ext_addr(bus)),
                (value % 256) as u8,
            ),
            Operand::Extended16 => bus.mem_write_spec(
                self.phys(self.ext_addr(bus)),
                (value % 256) as u8,
            ).mem_write_spec(self.phys(wadd16(self.ext_addr(bus), 1)), (value / 256) as u8),
            _ => bus,
        }
    }
}

/// The MMU registers stay inside the translation bounds.
pub proof fn lemma_mmu_bases(cbar: u8)
    ensures
        crate::cpu::mmu::mmu_bank_base(cbar) <= 0xf000,
        crate::cpu::mmu::mmu_common_base(cbar) <= 0xf000,
{
    assert((cbar & 0x0f) < 16 && (cbar & 0xf0) <= 0xf0) by (bit_vector);
}

/// Translation never leaves the bus address space.
pub proof fn lemma_translate_range(m: MMU, addr: u16)
    ensures
        0 <= m.translate(addr) <= 0x10efff,
{
    lemma_mmu_bases(m.cbar);
}

impl CPU {
    /// A CPU held in reset, with zeroed registers and a defaulted MMU.
    pub fn new() -> (r: CPU)
        ensures
            r == (CPU {
                mode: Mode::Reset,
                mmu: MMU::reset_spec(),
                gr: GR { a: 0, f: 0, bc: 0, de: 0, hl: 0 },
                gr_: GR { a: 0, f: 0, bc: 0, de: 0, hl: 0 },
                sr: SR { i: 0, r: 0, ix: 0, iy: 0, sp: 0, pc: 0 },
                iff1: false,
                iff2: false,
            }),
    {
        CPU {
            mode: Mode::Reset,
            mmu: MMU::new(),
            gr: GR { a: 0, f: 0, bc: 0, de: 0, hl: 0 },
            gr_: GR { a: 0, f: 0, bc: 0, de: 0, hl: 0 },
            sr: SR { i: 0, r: 0, ix: 0, iy: 0, sp: 0, pc: 0 },
            iff1: false,
            iff2: false,
        }
    }

    /// Reset: PC and SP to zero, opcode fetching resumes, interrupts are
    /// disabled and the MMU returns to its defaults.
    pub fn reset(&mut self)
        ensures
            *final(self) == old(self).reset_spec(),
    {
        self.mode = Mode::OpCodeFetch;
        self.sr.pc = 0;
        self.sr.sp = 0;
        self.iff1 = false;
        self.iff2 = false;
        self.mmu.reset();
    }

    /// The defined flag bits of F (bits 3 and 5 are undefined and masked).
    pub fn flags(&self) -> (r: u8)
        ensures
            r == self.gr.f & FLAG_MASK,
    {
        self.gr.f & FLAG_MASK
    }

    /// Read a register, widened to 16 bits.
    pub fn reg(&self, r: Register) -> (v: u16)
        ensures
            v == self.reg_spec(r),
    {
        match r {
            Register::A => self.gr.a as u16,
            Register::F => self.gr.f as u16,
            Register::B => self.gr.bc / 256,
            Register::C => self.gr.bc % 256,
            Register::D => self.gr.de / 256,
            Register::E => self.gr.de % 256,
            Register::H => self.gr.hl / 256,
            Register::L => self.gr.hl % 256,
            Register::AF => word16(self.gr.a, self.gr.f),
            Register::BC => self.gr.bc,
            Register::DE => self.gr.de,
            Register::HL => self.gr.hl,
            Register::I => self.sr.i as u16,
            Register::R => self.sr.r as u16,
            Register::IX => self.sr.ix,
            Register::IY => self.sr.iy,
            Register::SP => self.sr.sp,
            Register::PC => self.sr.pc,
        }
    }

    /// Write a register; 8-bit names take the low byte of the value.
    pub fn write_reg(&mut self, r: Register, v: u16)
        ensures
            *final(self) == old(self).write_reg_spec(r, v),
    {
        match r {
            Register::A => self.gr.a = (v % 256) as u8,
            Register::F => self.gr.f = (v % 256) as u8,
            Register::B => self.gr.bc = (self.gr.bc % 256) + (v % 256) * 256,
            Register::C => self.gr.bc = (self.gr.bc / 256) * 256 + (v % 256),
            Register::D => self.gr.de = (self.gr.de % 256) + (v % 256) * 256,
            Register::E => self.gr.de = (self.gr.de / 256) * 256 + (v % 256),
            Register::H => self.gr.hl = (self.gr.hl % 256) + (v % 256) * 256,
            Register::L => self.gr.hl = (self.gr.hl / 256) * 256 + (v % 256),
            Register::AF => {
                self.gr.a = (v / 256) as u8;
                self.gr.f = (v % 256) as u8;
            },
            Register::BC => self.gr.bc = v,
            Register::DE => self.gr.de = v,
            Register::HL => self.gr.hl = v,
            Register::I => self.sr.i = (v % 256) as u8,
            Register::R => self.sr.r = (v % 256) as u8,
            Register::IX => self.sr.ix = v,
            Register::IY => self.sr.iy = v,
            Register::SP => self.sr.sp = v,
            Register::PC => self.sr.pc = v,
        }
    }

    /// Whether a condition code holds; `None` is unconditional.
    pub fn is_condition(&self, condition: Option<Condition>) -> (r: bool)
        ensures
            r == self.is_condition_spec(condition),
    {
        match condition {
            Some(Condition::NonZero) => self.gr.f & FLAG_Z == 0,
            Some(Condition::Zero) => self.gr.f & FLAG_Z != 0,
            Some(Condition::NonCarry) => self.gr.f & FLAG_C == 0,
            Some(Condition::Carry) => self.gr.f & FLAG_C != 0,
            Some(Condition::ParityOdd) => self.gr.f & FLAG_P == 0,
            Some(Condition::ParityEven) => self.gr.f & FLAG_P != 0,
            Some(Condition::SignPlus) => self.gr.f & FLAG_S == 0,
            Some(Condition::SignMinus) => self.gr.f & FLAG_S != 0,
            None => true,
        }
    }

    /// Enter the error state: an illegal opcode or a decoder bug halts the
    /// CPU and leaves PC advanced past the consumed bytes.
    pub fn error(&mut self)
        ensures
            *final(self) == (CPU { mode: Mode::Halt, ..*old(self) }),
    {
        self.mode = Mode::Halt;
    }

    /// Translate a logical address through the MMU.
    pub fn to_phys(&self, addr: u16) -> (r: u32)
        ensures
            r == self.phys(addr),
    {
        proof {
            lemma_translate_range(self.mmu, addr);
        }
        self.mmu.to_physical(addr)
    }

    /// Data read of a logical address through MMU and bus.
    pub fn mem_fetch(&self, bus: &mut Bus, addr: u16) -> (r: u8)
        requires
            old(bus)@.wf(),
        ensures
            final(bus)@ == old(bus)@,
            r == self.mem_at(old(bus)@, addr),
    {
        let p = self.to_phys(addr);
        bus.mem_read(p, false)
    }

    /// Data write of a logical address through MMU and bus.
    pub fn mem_store(&self, bus: &mut Bus, addr: u16, data: u8)
        requires
            old(bus)@.wf(),
        ensures
            final(bus)@ == old(bus)@.mem_write_spec(self.phys(addr), data),
            final(bus)@.wf(),
    {
        let p = self.to_phys(addr);
        bus.mem_write(p, data);
    }


    /// One machine cycle: in `OpCodeFetch` mode fetch, decode and execute one
    /// instruction, exactly as `cycle_spec` gives it; in `Reset` and `Halt`
    /// the tick is a no-op.
    pub fn cycle(&mut self, bus: &mut Bus)
        requires
            old(bus)@.wf(),
        ensures
            final(bus)@.wf(),
            (*final(self), final(bus)@) == CPU::cycle_spec(*old(self), old(bus)@),
    {
        proof {
            reveal(CPU::cycle_spec);
        }
        match self.mode {
            Mode::Reset => (),
            Mode::OpCodeFetch => self.dispatch(bus),
            Mode::Halt => (),
        }
    }

    /// Resolve an operand to a value: registers and literals directly, memory
    /// operands through MMU and bus. Operand encodings (displacement,
    /// address, immediate) are consumed at PC, which advances over them.
    pub fn load_operand(&mut self, bus: &mut Bus, operand: Operand) -> (r: u16)
        requires
            old(bus)@.wf(),
        ensures
            final(bus)@ == old(bus)@,
            *final(self) == old(self).lo_cpu(operand),
            r == old(self).lo_val(old(bus)@, operand),
    {
        match operand {
            Operand::Absolute(v) => v as u16,
            Operand::Memory(addr) => self.mem_fetch(bus, addr) as u16,
            Operand::Direct(r) => self.reg(r),
            Operand::Indirect(ri) => {
                let addr = self.reg(ri.to_register());
                self.mem_fetch(bus, addr) as u16
            },
            Operand::Indexed(ix) => {
                let d = self.mem_fetch(bus, self.sr.pc);
                let base = self.reg(ix.to_register());
                let addr = wrap_add16(base, sign_extend8(d));
                self.sr.pc = wrap_add16(self.sr.pc, 1);
                self.mem_fetch(bus, addr) as u16
            },
            Operand::Extended => {
                let lo = self.mem_fetch(bus, self.sr.pc);
                let hi = self.mem_fetch(bus, wrap_add16(self.sr.pc, 1));
                let addr = word16(hi, lo);
                self.sr.pc = wrap_add16(self.sr.pc, 2);
                self.mem_fetch(bus, addr) as u16
            },
            Operand::Extended16 => {
                let lo = self.mem_fetch(bus, self.sr.pc);
                let hi = self.mem_fetch(bus, wrap_add16(self.sr.pc, 1));
                let addr = word16(hi, lo);
                self.sr.pc = wrap_add16(self.sr.pc, 2);
                let vlo = self.mem_fetch(bus, addr);
                let vhi = self.mem_fetch(bus, wrap_add16(addr, 1));
                word16(vhi, vlo)
            },
            Operand::Immediate => {
                let m = self.mem_fetch(bus, self.sr.pc);
                self.sr.pc = wrap_add16(self.sr.pc, 1);
                m as u16
            },
            Operand::Immediate16 => {
                let lo = self.mem_fetch(bus, self.sr.pc);
                let hi = self.mem_fetch(bus, wrap_add16(self.sr.pc, 1));
                self.sr.pc = wrap_add16(self.sr.pc, 2);
                word16(hi, lo)
            },
            Operand::Relative => {
                let d = self.mem_fetch(bus, self.sr.pc);
                self.sr.pc = wrap_add16(self.sr.pc, 1);
                wrap_add16(self.sr.pc, sign_extend8(d))
            },
            Operand::Discard => 0,
        }
    }

    /// Store a value into an operand. Byte-width destinations take the low
    /// byte. Storing to a literal, immediate or relative operand is a decoder
    /// bug and halts the CPU.
    pub fn store_operand(&mut self, bus: &mut Bus, operand: Operand, value: u16)
        requires
            old(bus)@.wf(),
        ensures
            *final(self) == old(self).so_cpu(operand, value),
            final(bus)@ == old(self).so_bus(old(bus)@, operand, value),
            final(bus)@.wf(),
    {
        match operand {
            Operand::Absolute(_) => self.error(),
            Operand::Memory(addr) => self.mem_store(bus, addr, (value % 256) as u8),
            Operand::Direct(r) => self.write_reg(r, value),
            Operand::Indirect(ri) => {
                let addr = self.reg(ri.to_register());
                self.mem_store(bus, addr, (value % 256) as u8);
            },
            Operand::Indexed(ix) => {
                let d = self.mem_fetch(bus, self.sr.pc);
                let base = self.reg(ix.to_register());
                let addr = wrap_add16(base, sign_extend8(d));
                self.sr.pc = wrap_add16(self.sr.pc, 1);
                self.mem_store(bus, addr, (value % 256) as u8);
            },
            Operand::Extended => {
                let lo = self.mem_fetch(bus, self.sr.pc);
                let hi = self.mem_fetch(bus, wrap_add16(self.sr.pc, 1));
                let addr = word16(hi, lo);
                self.sr.pc = wrap_add16(self.sr.pc, 2);
                self.mem_store(bus, addr, (value % 256) as u8);
            },
            Operand::Extended16 => {
                let lo = self.mem_fetch(bus, self.sr.pc);
                let hi = self.mem_fetch(bus, wrap_add16(self.sr.pc, 1));
                let addr = word16(hi, lo);
                self.sr.pc = wrap_add16(self.sr.pc, 2);
                self.mem_store(bus, addr, (value % 256) as u8);
                let addr2 = wrap_add16(addr, 1);
                self.mem_store(bus, addr2, (value / 256) as u8);
            },
            Operand::Immediate => self.error(),
            Operand::Immediate16 => self.error(),
            Operand::Relative => self.error(),
            Operand::Discard => (),
        }
    }
}

} // verus!

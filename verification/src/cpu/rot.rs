use vstd::prelude::*;

use crate::bus::{Bus};
use crate::cpu::alu::szp8;
use crate::cpu::enums::{Operand, ShiftMode, ShiftOp, FLAG_C, FLAG_H, FLAG_Z};
use crate::cpu::{CPU, GR};

verus! {

/// The 9-bit result of a left rotate or shift: the operand doubled, with the
/// inserted bit chosen by the operation (the old carry for `RL`, the bit
/// rotated out for `RLC`, nothing for `SLA`, a one for the illegal `SLL`).
/// Bit 8 is the carry out.
pub open spec fn rot_left_val(v: u8, op: ShiftOp, f: u8) -> u16 {
    (2 * v + rot_left_in(v, op, f)) as u16
}

/// The bit a left rotate or shift inserts at bit 0.
pub open spec fn rot_left_in(v: u8, op: ShiftOp, f: u8) -> u8 {
    match op {
        ShiftOp::Rot => if f & FLAG_C != 0 {
            1
        } else {
            0
        },
        ShiftOp::RotC => (v / 128) as u8,
        ShiftOp::ShiftA => 0,
        ShiftOp::ShiftL => 1,
    }
}

/// The byte result of a right rotate or shift: the operand halved, with the
/// inserted top bit chosen by the operation (the old carry for `RR`, the bit
/// rotated out for `RRC`, the sign bit for `SRA`, nothing for `SRL`).
pub open spec fn rot_right_val(v: u8, op: ShiftOp, f: u8) -> u8 {
    ((v / 2) as u8) | rot_right_in(v, op, f)
}

/// The bit a right rotate or shift inserts at bit 7.
pub open spec fn rot_right_in(v: u8, op: ShiftOp, f: u8) -> u8 {
    match op {
        ShiftOp::Rot => if f & FLAG_C != 0 {
            0x80
        } else {
            0
        },
        ShiftOp::RotC => ((v % 2) * 128) as u8,
        ShiftOp::ShiftA => v & 0x80,
        ShiftOp::ShiftL => 0,
    }
}

/// The flag byte after a rotate or shift. The 8080-style accumulator forms
/// preserve S, Z and P/V, reset H and N and set C from the bit shifted out;
/// the Z80-style forms also compute S, Z and P from the result.
pub open spec fn rot_flags(f: u8, result: u8, carry_out: u8, mode: ShiftMode) -> u8 {
    match mode {
        ShiftMode::R8080 => (f & 0xc4) | carry_out,
        ShiftMode::RZ80 => szp8(result) | carry_out,
    }
}

impl CPU {
    /// The CPU after a left rotate/shift of an operand value (before the
    /// result is stored back).
    pub open spec fn rot_left_flags_cpu(self, v: u8, op: ShiftOp, mode: ShiftMode) -> CPU {
        self.with_f(
            rot_flags(
                self.gr.f,
                (rot_left_val(v, op, self.gr.f) % 256) as u8,
                (rot_left_val(v, op, self.gr.f) / 256) as u8,
                mode,
            ),
        )
    }

    /// Rotate or shift an operand left. `RLC`/`RL`/`SLA`/`SLL` per the
    /// operation; the illegal `SLL` is executed like the hardware does, since
    /// the conformance suite exercises it.
    pub fn rot_left(&mut self, bus: &mut Bus, operand: Operand, op: ShiftOp, mode: ShiftMode)
        requires
            old(bus)@.wf(),
        ensures
            *final(self) == old(self).lo_cpu(operand).rot_left_flags_cpu(
                (old(self).lo_val(old(bus)@, operand) % 256) as u8,
                op,
                mode,
            ).so_cpu(
                operand,
                (rot_left_val(
                    (old(self).lo_val(old(bus)@, operand) % 256) as u8,
                    op,
                    old(self).gr.f,
                ) % 256) as u16,
            ),
            final(bus)@ == old(self).lo_cpu(operand).so_bus(
                old(bus)@,
                operand,
                (rot_left_val(
                    (old(self).lo_val(old(bus)@, operand) % 256) as u8,
                    op,
                    old(self).gr.f,
                ) % 256) as u16,
            ),
            final(bus)@.wf(),
    {
        let loaded = self.load_operand(bus, operand);
        let v: u8 = (loaded % 256) as u8;
        let bit_in: u8 = match op {
            ShiftOp::Rot => if self.gr.f & FLAG_C != 0 {
                1
            } else {
                0
            },
            ShiftOp::RotC => v / 128,
            ShiftOp::ShiftA => 0,
            ShiftOp::ShiftL => 1,
        };
        let wide: u16 = 2 * (v as u16) + bit_in as u16;
        let result: u8 = (wide % 256) as u8;
        let carry_out: u8 = (wide / 256) as u8;
        let f: u8 = match mode {
            ShiftMode::R8080 => (self.gr.f & 0xc4) | carry_out,
            ShiftMode::RZ80 => crate::cpu::alu::szp_flags(result) | carry_out,
        };
        self.gr.f = f;
        self.store_operand(bus, operand, result as u16);
    }

    /// The CPU after a right rotate/shift of an operand value (before the
    /// result is stored back).
    pub open spec fn rot_right_flags_cpu(self, v: u8, op: ShiftOp, mode: ShiftMode) -> CPU {
        self.with_f(rot_flags(self.gr.f, rot_right_val(v, op, self.gr.f), (v % 2) as u8, mode))
    }

    /// Rotate or shift an operand right. `RRC`/`RR`/`SRA`/`SRL` per the
    /// operation; the carry takes the bit shifted out at bit 0.
    pub fn rot_right(&mut self, bus: &mut Bus, operand: Operand, op: ShiftOp, mode: ShiftMode)
        requires
            old(bus)@.wf(),
        ensures
            *final(self) == old(self).lo_cpu(operand).rot_right_flags_cpu(
                (old(self).lo_val(old(bus)@, operand) % 256) as u8,
                op,
                mode,
            ).so_cpu(
                operand,
                rot_right_val(
                    (old(self).lo_val(old(bus)@, operand) % 256) as u8,
                    op,
                    old(self).gr.f,
                ) as u16,
            ),
            final(bus)@ == old(self).lo_cpu(operand).so_bus(
                old(bus)@,
                operand,
                rot_right_val(
                    (old(self).lo_val(old(bus)@, operand) % 256) as u8,
                    op,
                    old(self).gr.f,
                ) as u16,
            ),
            final(bus)@.wf(),
    {
        let loaded = self.load_operand(bus, operand);
        let v: u8 = (loaded % 256) as u8;
        let bit_in: u8 = match op {
            ShiftOp::Rot => if self.gr.f & FLAG_C != 0 {
                0x80
            } else {
                0
            },
            ShiftOp::RotC => (v % 2) * 128,
            ShiftOp::ShiftA => v & 0x80,
            ShiftOp::ShiftL => 0,
        };
        let result: u8 = (v / 2) | bit_in;
        let carry_out: u8 = v % 2;
        let f: u8 = match mode {
            ShiftMode::R8080 => (self.gr.f & 0xc4) | carry_out,
            ShiftMode::RZ80 => crate::cpu::alu::szp_flags(result) | carry_out,
        };
        self.gr.f = f;
        self.store_operand(bus, operand, result as u16);
    }

    /// The accumulator after `RLD`: its low nibble takes the high nibble of
    /// (HL).
    pub open spec fn rld_a(a: u8, m: u8) -> u8 {
        (a & 0xf0) | ((m / 16) as u8)
    }

    /// The byte written back to (HL) by `RLD`: its low nibble moves up and
    /// the low nibble of A moves in below.
    pub open spec fn rld_m(a: u8, m: u8) -> u8 {
        (((m % 16) * 16) as u8) | (a % 16) as u8
    }

    /// The accumulator after `RRD`: its low nibble takes the low nibble of
    /// (HL).
    pub open spec fn rrd_a(a: u8, m: u8) -> u8 {
        (a & 0xf0) | (m % 16) as u8
    }

    /// The byte written back to (HL) by `RRD`: its high nibble moves down and
    /// the low nibble of A moves in above.
    pub open spec fn rrd_m(a: u8, m: u8) -> u8 {
        ((m / 16) as u8) | (((a % 16) * 16) as u8)
    }

    /// Flags after `RLD`/`RRD`: S, Z and P from the new accumulator, H and N
    /// reset, C preserved.
    pub open spec fn rxd_flags(f: u8, a: u8) -> u8 {
        szp8(a) | (f & FLAG_C)
    }

    /// `RLD`: rotate the three nibbles A.low, (HL).high, (HL).low left.
    pub fn rld(&mut self, bus: &mut Bus)
        requires
            old(bus)@.wf(),
        ensures
            *final(self) == (CPU {
                gr: GR {
                    a: CPU::rld_a(old(self).gr.a, old(self).mem_at(old(bus)@, old(self).gr.hl)),
                    f: CPU::rxd_flags(
                        old(self).gr.f,
                        CPU::rld_a(old(self).gr.a, old(self).mem_at(old(bus)@, old(self).gr.hl)),
                    ),
                    ..old(self).gr
                },
                ..*old(self)
            }),
            final(bus)@ == old(bus)@.mem_write_spec(
                old(self).phys(old(self).gr.hl),
                CPU::rld_m(old(self).gr.a, old(self).mem_at(old(bus)@, old(self).gr.hl)),
            ),
            final(bus)@.wf(),
    {
        let m = self.mem_fetch(bus, self.gr.hl);
        let a: u8 = (self.gr.a & 0xf0) | (m / 16);
        let w: u8 = ((m % 16) * 16) | (self.gr.a % 16);
        self.mem_store(bus, self.gr.hl, w);
        self.gr.a = a;
        self.gr.f = crate::cpu::alu::szp_flags(a) | (self.gr.f & FLAG_C);
    }

    /// `RRD`: rotate the three nibbles A.low, (HL).high, (HL).low right.
    pub fn rrd(&mut self, bus: &mut Bus)
        requires
            old(bus)@.wf(),
        ensures
            *final(self) == (CPU {
                gr: GR {
                    a: CPU::rrd_a(old(self).gr.a, old(self).mem_at(old(bus)@, old(self).gr.hl)),
                    f: CPU::rxd_flags(
                        old(self).gr.f,
                        CPU::rrd_a(old(self).gr.a, old(self).mem_at(old(bus)@, old(self).gr.hl)),
                    ),
                    ..old(self).gr
                },
                ..*old(self)
            }),
            final(bus)@ == old(bus)@.mem_write_spec(
                old(self).phys(old(self).gr.hl),
                CPU::rrd_m(old(self).gr.a, old(self).mem_at(old(bus)@, old(self).gr.hl)),
            ),
            final(bus)@.wf(),
    {
        let m = self.mem_fetch(bus, self.gr.hl);
        let a: u8 = (self.gr.a & 0xf0) | (m % 16);
        let w: u8 = (m / 16) | ((self.gr.a % 16) * 16);
        self.mem_store(bus, self.gr.hl, w);
        self.gr.a = a;
        self.gr.f = crate::cpu::alu::szp_flags(a) | (self.gr.f & FLAG_C);
    }

    /// The flag byte after `BIT n, src`: Z is the complement of the tested
    /// bit, H set, N reset, the rest preserved.
    pub open spec fn bit_flags(f: u8, n: u8, v: u8) -> u8 {
        ((f | FLAG_H) & 0xbd) | (if (v / crate::cpu::special::pow2u(n)) % 2 == 0 {
            FLAG_Z
        } else {
            0
        })
    }

    /// `BIT n, src`: test bit n; Z set when the bit is clear, H set, N reset.
    pub fn bit(&mut self, bus: &mut Bus, n: u8, src: Operand)
        requires
            old(bus)@.wf(),
            n < 8,
        ensures
            final(bus)@ == old(bus)@,
            *final(self) == old(self).lo_cpu(src).with_f(
                CPU::bit_flags(
                    old(self).gr.f,
                    n,
                    (old(self).lo_val(old(bus)@, src) % 256) as u8,
                ),
            ),
    {
        let loaded = self.load_operand(bus, src);
        let v: u8 = (loaded % 256) as u8;
        let z: u8 = if (v / crate::cpu::special::bit_of(n)) % 2 == 0 {
            FLAG_Z
        } else {
            0
        };
        self.gr.f = ((self.gr.f | FLAG_H) & 0xbd) | z;
    }

    /// `SET n, src`: set bit n of the operand; no flags change.
    pub fn set(&mut self, bus: &mut Bus, n: u8, src: Operand)
        requires
            old(bus)@.wf(),
            n < 8,
        ensures
            *final(self) == old(self).lo_cpu(src).so_cpu(
                src,
                (old(self).lo_val(old(bus)@, src) % 256) as u16 | (
                crate::cpu::special::pow2u(n) as u16),
            ),
            final(bus)@ == old(self).lo_cpu(src).so_bus(
                old(bus)@,
                src,
                (old(self).lo_val(old(bus)@, src) % 256) as u16 | (
                crate::cpu::special::pow2u(n) as u16),
            ),
            final(bus)@.wf(),
    {
        let loaded = self.load_operand(bus, src);
        let v: u16 = (loaded % 256) | (crate::cpu::special::bit_of(n) as u16);
        self.store_operand(bus, src, v);
    }

    /// `RES n, src`: clear bit n of the operand; no flags change.
    pub fn res(&mut self, bus: &mut Bus, n: u8, src: Operand)
        requires
            old(bus)@.wf(),
            n < 8,
        ensures
            *final(self) == old(self).lo_cpu(src).so_cpu(
                src,
                (old(self).lo_val(old(bus)@, src) % 256) as u16 & !(
                crate::cpu::special::pow2u(n) as u16),
            ),
            final(bus)@ == old(self).lo_cpu(src).so_bus(
                old(bus)@,
                src,
                (old(self).lo_val(old(bus)@, src) % 256) as u16 & !(
                crate::cpu::special::pow2u(n) as u16),
            ),
            final(bus)@.wf(),
    {
        let loaded = self.load_operand(bus, src);
        let v: u16 = (loaded % 256) & !(crate::cpu::special::bit_of(n) as u16);
        self.store_operand(bus, src, v);
    }
}

} // verus!

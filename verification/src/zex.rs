use vstd::prelude::*;

use crate::bus::{Bus, BusV, Peripheral, PeripheralV};
use crate::cpu::enums::{Mode, Register, FLAG_C, FLAG_H, FLAG_N, FLAG_P, FLAG_S, FLAG_Z};
use crate::cpu::mmu::MMU;
use crate::cpu::{CPU, GR, SR};
use crate::ram::{RAM, RamV};

verus! {

/// The 20-byte machine state a conformance case sweeps: the instruction
/// under test (up to four bytes), a 16-bit memory operand placed at 0x103,
/// and the registers. The layout and byte order follow the published
/// `zexdoc` test-state record.
#[derive(Debug, PartialEq, Eq, Structural, Copy, Clone)]
pub struct ZexState {
    pub instruction: u32,
    pub operand: u16,
    pub iy: u16,
    pub ix: u16,
    pub hl: u16,
    pub de: u16,
    pub bc: u16,
    pub f: u8,
    pub a: u8,
    pub sp: u16,
}

/// Byte `i` of the 20-byte record: the instruction high byte first, then the
/// operand, IY, IX, HL, DE, BC low byte first, then F, A and SP.
pub open spec fn zs_get(s: ZexState, i: int) -> u8 {
    if i == 0 {
        (s.instruction >> 24) as u8
    } else if i == 1 {
        (s.instruction >> 16) as u8
    } else if i == 2 {
        (s.instruction >> 8) as u8
    } else if i == 3 {
        s.instruction as u8
    } else if i == 4 {
        s.operand as u8
    } else if i == 5 {
        (s.operand >> 8) as u8
    } else if i == 6 {
        s.iy as u8
    } else if i == 7 {
        (s.iy >> 8) as u8
    } else if i == 8 {
        s.ix as u8
    } else if i == 9 {
        (s.ix >> 8) as u8
    } else if i == 10 {
        s.hl as u8
    } else if i == 11 {
        (s.hl >> 8) as u8
    } else if i == 12 {
        s.de as u8
    } else if i == 13 {
        (s.de >> 8) as u8
    } else if i == 14 {
        s.bc as u8
    } else if i == 15 {
        (s.bc >> 8) as u8
    } else if i == 16 {
        s.f
    } else if i == 17 {
        s.a
    } else if i == 18 {
        s.sp as u8
    } else if i == 19 {
        (s.sp >> 8) as u8
    } else {
        0
    }
}

/// The record with byte `i` replaced.
pub open spec fn zs_set(s: ZexState, i: int, v: u8) -> ZexState {
    if i == 0 {
        ZexState { instruction: (s.instruction & 0x00ffffff) | ((v as u32) << 24), ..s }
    } else if i == 1 {
        ZexState { instruction: (s.instruction & 0xff00ffff) | ((v as u32) << 16), ..s }
    } else if i == 2 {
        ZexState { instruction: (s.instruction & 0xffff00ff) | ((v as u32) << 8), ..s }
    } else if i == 3 {
        ZexState { instruction: (s.instruction & 0xffffff00) | (v as u32), ..s }
    } else if i == 4 {
        ZexState { operand: (s.operand & 0xff00) | (v as u16), ..s }
    } else if i == 5 {
        ZexState { operand: (s.operand & 0x00ff) | ((v as u16) << 8), ..s }
    } else if i == 6 {
        ZexState { iy: (s.iy & 0xff00) | (v as u16), ..s }
    } else if i == 7 {
        ZexState { iy: (s.iy & 0x00ff) | ((v as u16) << 8), ..s }
    } else if i == 8 {
        ZexState { ix: (s.ix & 0xff00) | (v as u16), ..s }
    } else if i == 9 {
        ZexState { ix: (s.ix & 0x00ff) | ((v as u16) << 8), ..s }
    } else if i == 10 {
        ZexState { hl: (s.hl & 0xff00) | (v as u16), ..s }
    } else if i == 11 {
        ZexState { hl: (s.hl & 0x00ff) | ((v as u16) << 8), ..s }
    } else if i == 12 {
        ZexState { de: (s.de & 0xff00) | (v as u16), ..s }
    } else if i == 13 {
        ZexState { de: (s.de & 0x00ff) | ((v as u16) << 8), ..s }
    } else if i == 14 {
        ZexState { bc: (s.bc & 0xff00) | (v as u16), ..s }
    } else if i == 15 {
        ZexState { bc: (s.bc & 0x00ff) | ((v as u16) << 8), ..s }
    } else if i == 16 {
        ZexState { f: v, ..s }
    } else if i == 17 {
        ZexState { a: v, ..s }
    } else if i == 18 {
        ZexState { sp: (s.sp & 0xff00) | (v as u16), ..s }
    } else if i == 19 {
        ZexState { sp: (s.sp & 0x00ff) | ((v as u16) << 8), ..s }
    } else {
        s
    }
}

impl ZexState {
    /// Byte `i` of the record.
    pub fn get(&self, i: usize) -> (r: u8)
        ensures
            r == zs_get(*self, i as int),
    {
        match i {
            0 => (self.instruction >> 24) as u8,
            1 => (self.instruction >> 16) as u8,
            2 => (self.instruction >> 8) as u8,
            3 => self.instruction as u8,
            4 => self.operand as u8,
            5 => (self.operand >> 8) as u8,
            6 => self.iy as u8,
            7 => (self.iy >> 8) as u8,
            8 => self.ix as u8,
            9 => (self.ix >> 8) as u8,
            10 => self.hl as u8,
            11 => (self.hl >> 8) as u8,
            12 => self.de as u8,
            13 => (self.de >> 8) as u8,
            14 => self.bc as u8,
            15 => (self.bc >> 8) as u8,
            16 => self.f,
            17 => self.a,
            18 => self.sp as u8,
            19 => (self.sp >> 8) as u8,
            _ => 0,
        }
    }

    /// Replace byte `i` of the record.
    pub fn set(&mut self, i: usize, v: u8)
        ensures
            *final(self) == zs_set(*old(self), i as int, v),
    {
        match i {
            0 => self.instruction = (self.instruction & 0x00ffffff) | ((v as u32) << 24),
            1 => self.instruction = (self.instruction & 0xff00ffff) | ((v as u32) << 16),
            2 => self.instruction = (self.instruction & 0xffff00ff) | ((v as u32) << 8),
            3 => self.instruction = (self.instruction & 0xffffff00) | (v as u32),
            4 => self.operand = (self.operand & 0xff00) | (v as u16),
            5 => self.operand = (self.operand & 0x00ff) | ((v as u16) << 8),
            6 => self.iy = (self.iy & 0xff00) | (v as u16),
            7 => self.iy = (self.iy & 0x00ff) | ((v as u16) << 8),
            8 => self.ix = (self.ix & 0xff00) | (v as u16),
            9 => self.ix = (self.ix & 0x00ff) | ((v as u16) << 8),
            10 => self.hl = (self.hl & 0xff00) | (v as u16),
            11 => self.hl = (self.hl & 0x00ff) | ((v as u16) << 8),
            12 => self.de = (self.de & 0xff00) | (v as u16),
            13 => self.de = (self.de & 0x00ff) | ((v as u16) << 8),
            14 => self.bc = (self.bc & 0xff00) | (v as u16),
            15 => self.bc = (self.bc & 0x00ff) | ((v as u16) << 8),
            16 => self.f = v,
            17 => self.a = v,
            18 => self.sp = (self.sp & 0xff00) | (v as u16),
            19 => self.sp = (self.sp & 0x00ff) | ((v as u16) << 8),
            _ => (),
        }
    }
}

/// Bit `pos` of the 160-bit record, byte `pos / 8`, bit `pos % 8`.
pub open spec fn zs_bit(s: ZexState, pos: int) -> bool {
    (zs_get(s, pos / 8) / crate::cpu::special::pow2u((pos % 8) as u8)) % 2 == 1
}

/// The record with bit `pos` flipped.
pub open spec fn zs_flip(s: ZexState, pos: int) -> ZexState {
    zs_set(s, pos / 8, zs_get(s, pos / 8) ^ crate::cpu::special::pow2u((pos % 8) as u8))
}

/// The number of set bits among record positions `[pos, 160)`.
pub open spec fn zs_bits_from(s: ZexState, pos: int) -> int
    decreases 160 - pos,
{
    if pos < 0 || pos >= 160 {
        0
    } else {
        (if zs_bit(s, pos) {
            1int
        } else {
            0int
        }) + zs_bits_from(s, pos + 1)
    }
}

/// How many bits a sweep mask enables.
pub fn count_bits(state: &ZexState) -> (r: u32)
    ensures
        r == zs_bits_from(*state, 0),
        r <= 160,
{
    let mut pos: usize = 160;
    let mut n: u32 = 0;
    while pos > 0
        invariant
            pos <= 160,
            n == zs_bits_from(*state, pos as int),
            n <= 160 - pos,
        decreases pos,
    {
        pos = pos - 1;
        let byte = state.get(pos / 8);
        let bit = crate::cpu::special::bit_of((pos % 8) as u8);
        if (byte / bit) % 2 == 1 {
            n = n + 1;
        }
    }
    n
}

/// A 192-bit little-endian bit source, wide enough to cover every bit of a
/// 20-byte sweep record. It stands in for the arbitrary-precision counters
/// the sweeps are driven by; the state is only 160 bits wide, so nothing
/// wider can ever be consumed.
#[derive(Debug, PartialEq, Eq, Structural, Copy, Clone)]
pub struct SweepBits {
    pub lo: u64,
    pub mid: u64,
    pub hi: u64,
}

/// Bit `j` of a bit source.
pub open spec fn sw_bit(w: SweepBits, j: int) -> bool {
    if 0 <= j < 64 {
        (w.lo >> (j as u64)) & 1 == 1
    } else if 64 <= j < 128 {
        (w.mid >> ((j - 64) as u64)) & 1 == 1
    } else if 128 <= j < 192 {
        (w.hi >> ((j - 128) as u64)) & 1 == 1
    } else {
        false
    }
}

impl SweepBits {
    /// The bit source holding a 64-bit counter value.
    pub fn from_u64(v: u64) -> (r: SweepBits)
        ensures
            r == (SweepBits { lo: v, mid: 0, hi: 0 }),
    {
        SweepBits { lo: v, mid: 0, hi: 0 }
    }

    /// The bit source with exactly bit `k` set (the sweep shifter).
    pub fn one_hot(k: usize) -> (r: SweepBits)
        requires
            k < 192,
        ensures
            r == (SweepBits {
                lo: if k < 64 {
                    (1u64 << (k as u64))
                } else {
                    0
                },
                mid: if 64 <= k < 128 {
                    (1u64 << ((k - 64) as u64))
                } else {
                    0
                },
                hi: if 128 <= k {
                    (1u64 << ((k - 128) as u64))
                } else {
                    0
                },
            }),
    {
        if k < 64 {
            SweepBits { lo: 1u64 << (k as u64), mid: 0, hi: 0 }
        } else if k < 128 {
            SweepBits { lo: 0, mid: 1u64 << ((k - 64) as u64), hi: 0 }
        } else {
            SweepBits { lo: 0, mid: 0, hi: 1u64 << ((k - 128) as u64) }
        }
    }

    /// Bit `j` of the source.
    pub fn bit(&self, j: usize) -> (r: bool)
        requires
            j < 192,
        ensures
            r == sw_bit(*self, j as int),
    {
        if j < 64 {
            (self.lo >> (j as u64)) & 1 == 1
        } else if j < 128 {
            (self.mid >> ((j - 64) as u64)) & 1 == 1
        } else {
            (self.hi >> ((j - 128) as u64)) & 1 == 1
        }
    }
}

/// The sweep record after flipping: walking record positions in order, every
/// position enabled by the mask consumes the next bit of the source and is
/// flipped when that bit is set. `j` counts the mask bits already consumed.
pub open spec fn flip_from(s: ZexState, mask: ZexState, v: SweepBits, pos: int, j: int) -> ZexState
    decreases 160 - pos,
{
    if pos < 0 || pos >= 160 {
        s
    } else if zs_bit(mask, pos) {
        flip_from(
            if sw_bit(v, j) {
                zs_flip(s, pos)
            } else {
                s
            },
            mask,
            v,
            pos + 1,
            j + 1,
        )
    } else {
        flip_from(s, mask, v, pos + 1, j)
    }
}

/// Flip the state bits the mask enables, consuming one bit of the source per
/// enabled position (lowest record position first).
pub fn flip_state(state: &mut ZexState, mask: &ZexState, v: &SweepBits)
    ensures
        *final(state) == flip_from(*old(state), *mask, *v, 0, 0),
{
    let mut pos: usize = 0;
    let mut j: usize = 0;
    while pos < 160
        invariant
            pos <= 160,
            j <= pos,
            flip_from(*old(state), *mask, *v, 0, 0) == flip_from(
                *state,
                *mask,
                *v,
                pos as int,
                j as int,
            ),
        decreases 160 - pos,
    {
        let mbyte = mask.get(pos / 8);
        let bit = crate::cpu::special::bit_of((pos % 8) as u8);
        if (mbyte / bit) % 2 == 1 {
            if j < 192 && v.bit(j) {
                let sbyte = state.get(pos / 8);
                state.set(pos / 8, sbyte ^ bit);
            }
            j = j + 1;
        }
        pos = pos + 1;
    }
}

/// One step of the table-driven CRC-32 round: shift right, folding in the
/// reflected polynomial when the low bit is set.
pub open spec fn crc_round(x: u32) -> u32 {
    if x & 1 == 1 {
        0xedb88320u32 ^ (x >> 1)
    } else {
        x >> 1
    }
}

/// `k` CRC rounds applied to a byte value: the table entry construction.
pub open spec fn crc_rounds(x: u32, k: nat) -> u32
    decreases k,
{
    if k == 0 {
        x
    } else {
        crc_round(crc_rounds(x, (k - 1) as nat))
    }
}

/// One byte folded into a CRC-32: the classic byte-oriented update with
/// initial value kept by the caller and no final inversion.
pub open spec fn crc_step(crc: u32, byte: u8) -> u32 {
    (crc >> 8) ^ crc_rounds(((((crc % 256) as u8) ^ byte) as u32), 8)
}

/// Fold one byte into the CRC-32 (table-equivalent, computed by eight
/// polynomial rounds).
pub fn updcrc(crcval: u32, byte: u8) -> (r: u32)
    ensures
        r == crc_step(crcval, byte),
{
    let idx: u8 = ((crcval % 256) as u8) ^ byte;
    let mut x: u32 = idx as u32;
    let mut k: usize = 0;
    while k < 8
        invariant
            k <= 8,
            x == crc_rounds(((((crcval % 256) as u8) ^ byte) as u32), k as nat),
        decreases 8 - k,
    {
        x = if x & 1 == 1 {
            0xedb88320u32 ^ (x >> 1)
        } else {
            x >> 1
        };
        k = k + 1;
    }
    (crcval >> 8) ^ x
}

/// Whether a sweep case is skipped: `HALT` and its indexed forms would stop
/// the machine instead of falling through to the next address.
pub open spec fn zex_skip(s: ZexState) -> bool {
    s.instruction & 0xff000000 == 0x76000000 || s.instruction & 0xdfff0000 == 0xdd760000
}

/// The CRC over a post-execution machine state: the two operand bytes at
/// 0x103 and 0x104 first (some instructions write back there), then IY, IX,
/// HL, DE and BC low byte first, F masked by the case's flag mask, A, and SP.
pub open spec fn zex_crc(c: CPU, bus: BusV, mask: u8, crc: u32) -> u32 {
    crc_step(
        crc_step(
            crc_step(
                crc_step(
                    crc_step(
                        crc_step(
                            crc_step(
                                crc_step(
                                    crc_step(
                                        crc_step(
                                            crc_step(
                                                crc_step(
                                                    crc_step(
                                                        crc_step(
                                                            crc_step(
                                                                crc_step(crc, bus.mem_val(0x103)),
                                                                bus.mem_val(0x104),
                                                            ),
                                                            (c.sr.iy % 256) as u8,
                                                        ),
                                                        (c.sr.iy / 256) as u8,
                                                    ),
                                                    (c.sr.ix % 256) as u8,
                                                ),
                                                (c.sr.ix / 256) as u8,
                                            ),
                                            (c.gr.hl % 256) as u8,
                                        ),
                                        (c.gr.hl / 256) as u8,
                                    ),
                                    (c.gr.de % 256) as u8,
                                ),
                                (c.gr.de / 256) as u8,
                            ),
                            (c.gr.bc % 256) as u8,
                        ),
                        (c.gr.bc / 256) as u8,
                    ),
                    c.gr.f & mask,
                ),
                c.gr.a,
            ),
            (c.sr.sp % 256) as u8,
        ),
        (c.sr.sp / 256) as u8,
    )
}

/// Ceiling on how many machine cycles one swept instruction may take: a full
/// block transfer re-executes once per byte, so 2^16 iterations bound it.
pub const ZEX_STEP_LIMIT: u32 = 70000;

/// Byte `k` of the memory image a case plants at 0x103: the operand, the
/// register values, then the instruction bytes at 0x113.
pub open spec fn setup_byte(s: ZexState, k: int) -> u8 {
    if k == 0 {
        (s.operand % 256) as u8
    } else if k == 1 {
        (s.operand / 256) as u8
    } else if k == 2 {
        (s.iy % 256) as u8
    } else if k == 3 {
        (s.iy / 256) as u8
    } else if k == 4 {
        (s.ix % 256) as u8
    } else if k == 5 {
        (s.ix / 256) as u8
    } else if k == 6 {
        (s.hl % 256) as u8
    } else if k == 7 {
        (s.hl / 256) as u8
    } else if k == 8 {
        (s.de % 256) as u8
    } else if k == 9 {
        (s.de / 256) as u8
    } else if k == 10 {
        (s.bc % 256) as u8
    } else if k == 11 {
        (s.bc / 256) as u8
    } else if k == 12 {
        s.a
    } else if k == 13 {
        s.f
    } else if k == 14 {
        (s.sp % 256) as u8
    } else if k == 15 {
        (s.sp / 256) as u8
    } else if k == 16 {
        (s.instruction >> 24) as u8
    } else if k == 17 {
        (s.instruction >> 16) as u8
    } else if k == 18 {
        (s.instruction >> 8) as u8
    } else {
        s.instruction as u8
    }
}

/// The bus after the first `k` bytes of a case's record have been planted
/// from 0x103 up.
pub open spec fn plant_upto(b: BusV, s: ZexState, k: int) -> BusV
    decreases k,
{
    if k <= 0 {
        b
    } else {
        plant_upto(b, s, k - 1).mem_write_spec((0x103 + (k - 1)) as u32, setup_byte(s, k - 1))
    }
}

/// The CPU a case starts from: reset, the record's registers loaded, PC on
/// the instruction bytes at 0x113.
pub open spec fn setup_cpu(c: CPU, s: ZexState) -> CPU {
    c.reset_spec().write_reg_spec(Register::SP, s.sp).write_reg_spec(
        Register::A,
        s.a as u16,
    ).write_reg_spec(Register::F, s.f as u16).write_reg_spec(Register::BC, s.bc).write_reg_spec(
        Register::DE,
        s.de,
    ).write_reg_spec(Register::HL, s.hl).write_reg_spec(Register::IX, s.ix).write_reg_spec(
        Register::IY,
        s.iy,
    ).write_reg_spec(Register::PC, 0x113)
}

/// The machine run cycle by cycle until PC leaves 0x113 (block instructions
/// re-fetch from there until done), with the step ceiling as fuel.
pub open spec fn zex_run(c: CPU, b: BusV, fuel: nat) -> (CPU, BusV)
    decreases fuel,
{
    if c.sr.pc != 0x113 || fuel == 0 {
        (c, b)
    } else {
        let stepped = CPU::cycle_spec(c, b);
        zex_run(stepped.0, stepped.1, (fuel - 1) as nat)
    }
}

/// One conformance case on a given machine: a halt instruction is skipped;
/// otherwise the record is planted, the registers are loaded, the machine
/// runs, and the final state is folded into the CRC.
pub open spec fn zex_on_spec(c: CPU, b: BusV, s: ZexState, mask: u8, crc: u32) -> (CPU, BusV, u32) {
    if zex_skip(s) {
        (c, b, crc)
    } else {
        let run = zex_run(setup_cpu(c, s), plant_upto(b, s, 20), ZEX_STEP_LIMIT as nat);
        (run.0, run.1, zex_crc(run.0, run.1, mask, crc))
    }
}

/// Execute one swept instruction on the given machine and fold the resulting
/// state into the CRC, exactly as `zex_on_spec` gives it: the 20-byte record
/// lands at 0x103, the instruction at 0x113, the registers are loaded, and
/// the machine runs until PC leaves 0x113.
#[verifier::rlimit(100)]
#[verifier::spinoff_prover]
pub fn zex_execute_on(cpu: &mut CPU, bus: &mut Bus, state: &ZexState, mask: u8, crc: u32) -> (r:
    u32)
    requires
        old(bus)@.wf(),
    ensures
        final(bus)@.wf(),
        (*final(cpu), final(bus)@, r) == zex_on_spec(*old(cpu), old(bus)@, *state, mask, crc),
{
    if state.instruction & 0xff000000 == 0x76000000 || state.instruction & 0xdfff0000
        == 0xdd760000 {
        return crc;
    }
    let mut k: usize = 0;
    while k < 20
        invariant
            k <= 20,
            bus@.wf(),
            bus@ == plant_upto(old(bus)@, *state, k as int),
        decreases 20 - k,
    {
        let b = zex_setup_byte(state, k);
        bus.mem_write(0x103 + k as u32, b);
        k = k + 1;
    }

    cpu.reset();
    cpu.write_reg(Register::SP, state.sp);
    cpu.write_reg(Register::A, state.a as u16);
    cpu.write_reg(Register::F, state.f as u16);
    cpu.write_reg(Register::BC, state.bc);
    cpu.write_reg(Register::DE, state.de);
    cpu.write_reg(Register::HL, state.hl);
    cpu.write_reg(Register::IX, state.ix);
    cpu.write_reg(Register::IY, state.iy);
    cpu.write_reg(Register::PC, 0x113);

    let mut fuel: u32 = ZEX_STEP_LIMIT;
    while cpu.reg(Register::PC) == 0x113 && fuel > 0
        invariant
            bus@.wf(),
            zex_run(
                setup_cpu(*old(cpu), *state),
                plant_upto(old(bus)@, *state, 20),
                ZEX_STEP_LIMIT as nat,
            ) == zex_run(*cpu, bus@, fuel as nat),
        decreases fuel,
    {
        cpu.cycle(bus);
        fuel = fuel - 1;
    }

    let mut result = crc;
    result = updcrc(result, bus.mem_read(0x103, false));
    result = updcrc(result, bus.mem_read(0x104, false));
    result = updcrc(result, (cpu.reg(Register::IY) % 256) as u8);
    result = updcrc(result, (cpu.reg(Register::IY) / 256) as u8);
    result = updcrc(result, (cpu.reg(Register::IX) % 256) as u8);
    result = updcrc(result, (cpu.reg(Register::IX) / 256) as u8);
    result = updcrc(result, (cpu.reg(Register::HL) % 256) as u8);
    result = updcrc(result, (cpu.reg(Register::HL) / 256) as u8);
    result = updcrc(result, (cpu.reg(Register::DE) % 256) as u8);
    result = updcrc(result, (cpu.reg(Register::DE) / 256) as u8);
    result = updcrc(result, (cpu.reg(Register::BC) % 256) as u8);
    result = updcrc(result, (cpu.reg(Register::BC) / 256) as u8);
    result = updcrc(result, (cpu.reg(Register::F) % 256) as u8 & mask);
    result = updcrc(result, (cpu.reg(Register::A) % 256) as u8);
    result = updcrc(result, (cpu.reg(Register::SP) % 256) as u8);
    result = updcrc(result, (cpu.reg(Register::SP) / 256) as u8);
    result
}

/// Byte `k` of the memory image a case plants at 0x103.
fn zex_setup_byte(state: &ZexState, k: usize) -> (r: u8)
    ensures
        r == setup_byte(*state, k as int),
{
    match k {
        0 => (state.operand % 256) as u8,
        1 => (state.operand / 256) as u8,
        2 => (state.iy % 256) as u8,
        3 => (state.iy / 256) as u8,
        4 => (state.ix % 256) as u8,
        5 => (state.ix / 256) as u8,
        6 => (state.hl % 256) as u8,
        7 => (state.hl / 256) as u8,
        8 => (state.de % 256) as u8,
        9 => (state.de / 256) as u8,
        10 => (state.bc % 256) as u8,
        11 => (state.bc / 256) as u8,
        12 => state.a,
        13 => state.f,
        14 => (state.sp % 256) as u8,
        15 => (state.sp / 256) as u8,
        16 => (state.instruction >> 24) as u8,
        17 => (state.instruction >> 16) as u8,
        18 => (state.instruction >> 8) as u8,
        _ => state.instruction as u8,
    }
}

/// The CPU a standalone case starts from: held in reset with zeroed
/// registers and a defaulted MMU.
pub open spec fn fresh_cpu() -> CPU {
    CPU {
        mode: Mode::Reset,
        mmu: MMU::reset_spec(),
        gr: GR { a: 0, f: 0, bc: 0, de: 0, hl: 0 },
        gr_: GR { a: 0, f: 0, bc: 0, de: 0, hl: 0 },
        sr: SR { i: 0, r: 0, ix: 0, iy: 0, sp: 0, pc: 0 },
        iff1: false,
        iff2: false,
    }
}

/// The bus a standalone case starts from: 64K of zeroed RAM at physical
/// zero and nothing else.
pub open spec fn fresh_bus() -> BusV {
    BusV {
        peripherals: seq![
            PeripheralV::Ram(
                RamV { start: 0, size: 0x10000, bytes: Seq::new(0x10000, |i: int| 0u8) },
            ),
        ],
        ints: 0,
    }
}

/// Execute one swept instruction on a fresh machine and fold the
/// post-execution state into the CRC.
pub fn zex_execute(state: &ZexState, mask: u8, crc: u32) -> (r: u32)
    ensures
        r == zex_on_spec(fresh_cpu(), fresh_bus(), *state, mask, crc).2,
{
    let mut bus = Bus::new();
    let mut cpu = CPU::new();
    let ram = RAM::new(0x0000, 0x10000);
    proof {
        assert(ram@.bytes =~= Seq::new(0x10000, |i: int| 0u8));
    }
    bus.add(Peripheral::Ram(ram));
    proof {
        assert(bus@ =~= fresh_bus());
    }
    zex_execute_on(&mut cpu, &mut bus, state, mask, crc)
}

/// The bit source a 64-bit increment counter provides to a sweep.
pub open spec fn counter_bits(counter: u64) -> SweepBits {
    SweepBits { lo: counter, mid: 0, hi: 0 }
}

/// The one-hot bit source of the shift sweep: only bit `k` set.
pub open spec fn one_hot_bits(k: int) -> SweepBits {
    SweepBits {
        lo: if 0 <= k < 64 {
            (1u64 << (k as u64))
        } else {
            0
        },
        mid: if 64 <= k < 128 {
            (1u64 << ((k - 64) as u64))
        } else {
            0
        },
        hi: if 128 <= k < 192 {
            (1u64 << ((k - 128) as u64))
        } else {
            0
        },
    }
}

/// The record a sweep position tests: the base record with the increment
/// counter's bits and the k-th shift bit applied. The very first position
/// runs the base record unswept, as the published harness does.
pub open spec fn sweep_state(
    init: ZexState,
    incr: ZexState,
    flip: ZexState,
    k: int,
    counter: u64,
) -> ZexState {
    if k == 0 && counter == 0 {
        init
    } else {
        flip_from(flip_from(init, incr, counter_bits(counter), 0, 0), flip, one_hot_bits(k), 0, 0)
    }
}

/// The CRC a sweep yields from position (k, counter) on: every remaining
/// case executed in order on the threaded machine, each folding the machine
/// state it leaves into the accumulator.
pub open spec fn sweep_from(
    init: ZexState,
    incr: ZexState,
    flip: ZexState,
    mask: u8,
    fb: int,
    icount: u64,
    k: int,
    counter: u64,
    c: CPU,
    b: BusV,
    crc: u32,
) -> u32
    decreases fb + 1 - k, icount - counter,
{
    if k < 0 || k > fb {
        crc
    } else if counter >= icount {
        sweep_from(init, incr, flip, mask, fb, icount, k + 1, 0, c, b, crc)
    } else {
        let case = zex_on_spec(c, b, sweep_state(init, incr, flip, k, counter), mask, crc);
        sweep_from(init, incr, flip, mask, fb, icount, k, (counter + 1) as u64, case.0, case.1, case.2)
    }
}

/// Run one published conformance case: sweep the base record by every
/// combination of the increment mask and, one bit at a time, the shift mask,
/// execute each resulting instruction and accumulate the CRC-32 of the
/// post-execution states, exactly as `sweep_from` gives it from a fresh
/// machine. The expected value of each published case was computed on
/// authentic hardware.
///
/// The increment sweep is enumerated by a 64-bit counter; a mask enabling 64
/// or more increment bits would demand 2^64 executions and is excluded.
#[verifier::rlimit(100)]
#[verifier::spinoff_prover]
pub fn zex_run_test(init: &ZexState, incr: &ZexState, flip: &ZexState, mask: u8) -> (r: u32)
    requires
        zs_bits_from(*incr, 0) < 64,
    ensures
        r == sweep_from(
            *init,
            *incr,
            *flip,
            mask,
            zs_bits_from(*flip, 0),
            (1u64 << (zs_bits_from(*incr, 0) as u64)),
            0,
            0,
            fresh_cpu(),
            fresh_bus(),
            0xffffffff,
        ),
{
    let incr_bits = count_bits(incr);
    let flip_bits = count_bits(flip);
    let incr_count: u64 = 1u64 << (incr_bits as u64);
    proof {
        let n = incr_bits as u64;
        assert(n < 64 ==> 1u64 << n >= 1) by (bit_vector);
    }

    let mut bus = Bus::new();
    let mut cpu = CPU::new();
    let ram = RAM::new(0x0000, 0x10000);
    proof {
        assert(ram@.bytes =~= Seq::new(0x10000, |i: int| 0u8));
    }
    bus.add(Peripheral::Ram(ram));
    proof {
        assert(bus@ =~= fresh_bus());
    }

    let mut crc: u32 = 0xffffffff;
    let mut first_test = true;
    let mut k: u32 = 0;
    while k <= flip_bits
        invariant
            bus@.wf(),
            flip_bits == zs_bits_from(*flip, 0),
            flip_bits <= 160,
            incr_bits == zs_bits_from(*incr, 0),
            incr_bits < 64,
            incr_count == (1u64 << (incr_bits as u64)),
            incr_count >= 1,
            k <= flip_bits + 1,
            first_test == (k == 0),
            sweep_from(
                *init,
                *incr,
                *flip,
                mask,
                flip_bits as int,
                incr_count,
                0,
                0,
                fresh_cpu(),
                fresh_bus(),
                0xffffffff,
            ) == sweep_from(
                *init,
                *incr,
                *flip,
                mask,
                flip_bits as int,
                incr_count,
                k as int,
                0,
                cpu,
                bus@,
                crc,
            ),
        decreases flip_bits + 1 - k,
    {
        let shifter = SweepBits::one_hot(k as usize);
        let mut counter: u64 = 0;
        while counter < incr_count
            invariant
                bus@.wf(),
                flip_bits == zs_bits_from(*flip, 0),
                flip_bits <= 160,
                incr_bits == zs_bits_from(*incr, 0),
                incr_bits < 64,
                incr_count == (1u64 << (incr_bits as u64)),
                incr_count >= 1,
                k <= flip_bits,
                counter <= incr_count,
                first_test == (k == 0 && counter == 0),
                shifter == one_hot_bits(k as int),
                sweep_from(
                    *init,
                    *incr,
                    *flip,
                    mask,
                    flip_bits as int,
                    incr_count,
                    0,
                    0,
                    fresh_cpu(),
                    fresh_bus(),
                    0xffffffff,
                ) == sweep_from(
                    *init,
                    *incr,
                    *flip,
                    mask,
                    flip_bits as int,
                    incr_count,
                    k as int,
                    counter,
                    cpu,
                    bus@,
                    crc,
                ),
            decreases incr_count - counter,
        {
            let mut test_state = *init;
            if !first_test {
                flip_state(&mut test_state, incr, &SweepBits::from_u64(counter));
                flip_state(&mut test_state, flip, &shifter);
            } else {
                first_test = false;
            }
            proof {
                assert(test_state == sweep_state(*init, *incr, *flip, k as int, counter));
            }
            crc = zex_execute_on(&mut cpu, &mut bus, &test_state, mask, crc);
            counter = counter + 1;
        }
        k = k + 1;
    }
    crc
}

/// The letter shown for one flag: the upper-case ASCII code when the bit is
/// set, its lower-case form (32 higher) when clear.
pub open spec fn flag_letter(flags: u8, bit: u8, upper: u8) -> u8 {
    if flags & bit != 0 {
        upper
    } else {
        (upper + 32) as u8
    }
}

/// A readable snapshot of the six defined flag bits.
#[derive(Debug, PartialEq, Eq, Structural, Copy, Clone)]
pub struct DebugFlags {
    pub flags: u8,
}

impl DebugFlags {
    pub fn new(flags: u8) -> (r: DebugFlags)
        ensures
            r == (DebugFlags { flags }),
    {
        DebugFlags { flags }
    }

    /// The classic flag letters, upper case for a set bit: S, Z, H, V, N, C
    /// (ASCII, lower case when clear).
    pub fn letters(&self) -> (r: [u8; 6])
        ensures
            r@ == seq![
                flag_letter(self.flags, FLAG_S, 83),
                flag_letter(self.flags, FLAG_Z, 90),
                flag_letter(self.flags, FLAG_H, 72),
                flag_letter(self.flags, FLAG_P, 86),
                flag_letter(self.flags, FLAG_N, 78),
                flag_letter(self.flags, FLAG_C, 67),
            ],
    {
        [
            if self.flags & FLAG_S != 0 {
                83
            } else {
                115
            },
            if self.flags & FLAG_Z != 0 {
                90
            } else {
                122
            },
            if self.flags & FLAG_H != 0 {
                72
            } else {
                104
            },
            if self.flags & FLAG_P != 0 {
                86
            } else {
                118
            },
            if self.flags & FLAG_N != 0 {
                78
            } else {
                110
            },
            if self.flags & FLAG_C != 0 {
                67
            } else {
                99
            },
        ]
    }
}

} // verus!

use vstd::prelude::*;

use crate::bus::BusV;
use crate::cpu::alu::{add8_flags, add8_val, sub8_flags, sub8_val};
use crate::cpu::enums::{Condition, Direction, Exchange, Mode, Operand, RegIndex, RegIndirect, RegW, Register, ShiftMode, ShiftOp};
use crate::cpu::rot::{rot_left_val, rot_right_val};
use crate::cpu::special::pow2u;
use crate::cpu::{sxt8, wadd16, wsub16, CPU, GR, SR};

verus! {

// What one instruction does to the machine, as a function from the state
// just after its opcode bytes were fetched to the state after it retires.
// Each function here restates the ensures of the executable routine of the
// same name, so the decoder's contract can compose them per opcode.
impl CPU {
    /// `NOP`.
    pub open spec fn nop_step(c: CPU, b: BusV) -> (CPU, BusV) {
        (c, b)
    }

    /// The error state an illegal opcode or decoder bug leaves: mode Halt,
    /// PC already past the consumed bytes, nothing else touched.
    pub open spec fn error_step(c: CPU, b: BusV) -> (CPU, BusV) {
        (CPU { mode: Mode::Halt, ..c }, b)
    }

    /// `SCF`.
    pub open spec fn scf_step(c: CPU, b: BusV) -> (CPU, BusV) {
        (c.scf_spec(), b)
    }

    /// `CCF`.
    pub open spec fn ccf_step(c: CPU, b: BusV) -> (CPU, BusV) {
        (c.ccf_spec(), b)
    }

    /// `DAA`.
    pub open spec fn daa_step(c: CPU, b: BusV) -> (CPU, BusV) {
        (c.daa_spec(), b)
    }

    /// `CPL`.
    pub open spec fn cpl_step(c: CPU, b: BusV) -> (CPU, BusV) {
        (c.cpl_spec(), b)
    }

    /// `NEG`.
    pub open spec fn neg_step(c: CPU, b: BusV) -> (CPU, BusV) {
        (c.neg_spec(), b)
    }

    /// `DI`.
    pub open spec fn di_step(c: CPU, b: BusV) -> (CPU, BusV) {
        (CPU { iff1: false, iff2: false, ..c }, b)
    }

    /// `EI`.
    pub open spec fn ei_step(c: CPU, b: BusV) -> (CPU, BusV) {
        (CPU { iff1: true, iff2: true, ..c }, b)
    }

    /// `HALT`: PC moves back onto the halt opcode.
    pub open spec fn halt_step(c: CPU, b: BusV) -> (CPU, BusV) {
        (CPU { mode: Mode::Halt, sr: SR { pc: wsub16(c.sr.pc, 1), ..c.sr }, ..c }, b)
    }

    /// `ADD xx, ww` / `ADC xx, ww`.
    pub open spec fn add16_step(c: CPU, b: BusV, xx: Register, ww: Register, with_carry: bool) -> (
        CPU,
        BusV,
    ) {
        (c.add16_spec(xx, ww, with_carry), b)
    }

    /// `SBC HL, ww`.
    pub open spec fn sub_hl_ww_step(c: CPU, b: BusV, ww: RegW, borrow: bool) -> (CPU, BusV) {
        (c.sub_hl_ww_spec(ww, borrow), b)
    }

    /// `ADD A, src` / `ADC A, src`.
    pub open spec fn add_a_step(c: CPU, b: BusV, src: Operand, with_carry: bool) -> (CPU, BusV) {
        (c.lo_cpu(src).add_a_spec((c.lo_val(b, src) % 256) as u8, with_carry), b)
    }

    /// `SUB/SBC/CP A, src`.
    pub open spec fn sub_a_step(c: CPU, b: BusV, src: Operand, with_borrow: bool, store: bool) -> (
        CPU,
        BusV,
    ) {
        (c.lo_cpu(src).sub_a_spec((c.lo_val(b, src) % 256) as u8, with_borrow, store), b)
    }

    /// `AND A, src`.
    pub open spec fn and_a_step(c: CPU, b: BusV, src: Operand) -> (CPU, BusV) {
        (c.lo_cpu(src).and_a_spec((c.lo_val(b, src) % 256) as u8), b)
    }

    /// `OR A, src`.
    pub open spec fn or_a_step(c: CPU, b: BusV, src: Operand) -> (CPU, BusV) {
        (c.lo_cpu(src).or_a_spec((c.lo_val(b, src) % 256) as u8), b)
    }

    /// `XOR A, src`.
    pub open spec fn xor_a_step(c: CPU, b: BusV, src: Operand) -> (CPU, BusV) {
        (c.lo_cpu(src).xor_a_spec((c.lo_val(b, src) % 256) as u8), b)
    }

    /// `TST A, src`.
    pub open spec fn tst_a_step(c: CPU, b: BusV, src: Operand) -> (CPU, BusV) {
        (c.lo_cpu(src).tst_a_spec((c.lo_val(b, src) % 256) as u8), b)
    }

    /// `INC dst` (8-bit).
    pub open spec fn inc_step(c: CPU, b: BusV, dst: Operand) -> (CPU, BusV) {
        let v = (c.lo_val(b, dst) % 256) as u8;
        let stored = c.lo_cpu(dst).so_cpu(dst, add8_val(v, 1, 0) as u16);
        (
            CPU {
                gr: GR { f: CPU::incdec_flags(c.gr.f, add8_flags(v, 1, 0)), ..stored.gr },
                ..stored
            },
            c.lo_cpu(dst).so_bus(b, dst, add8_val(v, 1, 0) as u16),
        )
    }

    /// `DEC dst` (8-bit).
    pub open spec fn dec_step(c: CPU, b: BusV, dst: Operand) -> (CPU, BusV) {
        let v = (c.lo_val(b, dst) % 256) as u8;
        let stored = c.lo_cpu(dst).so_cpu(dst, sub8_val(v, 1, 0) as u16);
        (
            CPU {
                gr: GR { f: CPU::incdec_flags(c.gr.f, sub8_flags(v, 1, 0)), ..stored.gr },
                ..stored
            },
            c.lo_cpu(dst).so_bus(b, dst, sub8_val(v, 1, 0) as u16),
        )
    }

    /// `INC reg16`.
    pub open spec fn inc16_step(c: CPU, b: BusV, reg: Operand) -> (CPU, BusV) {
        (
            c.lo_cpu(reg).so_cpu(reg, wadd16(c.lo_val(b, reg), 1)),
            c.lo_cpu(reg).so_bus(b, reg, wadd16(c.lo_val(b, reg), 1)),
        )
    }

    /// `DEC reg16`.
    pub open spec fn dec16_step(c: CPU, b: BusV, reg: Operand) -> (CPU, BusV) {
        (
            c.lo_cpu(reg).so_cpu(reg, wsub16(c.lo_val(b, reg), 1)),
            c.lo_cpu(reg).so_bus(b, reg, wsub16(c.lo_val(b, reg), 1)),
        )
    }

    /// `LD dst, src` (either width).
    pub open spec fn ld_step(c: CPU, b: BusV, src: Operand, dst: Operand) -> (CPU, BusV) {
        (
            c.lo_cpu(src).so_cpu(dst, c.lo_val(b, src)),
            c.lo_cpu(src).so_bus(b, dst, c.lo_val(b, src)),
        )
    }

    /// Left rotates and shifts.
    pub open spec fn rot_left_step(
        c: CPU,
        b: BusV,
        operand: Operand,
        op: ShiftOp,
        mode: ShiftMode,
    ) -> (CPU, BusV) {
        let v = (c.lo_val(b, operand) % 256) as u8;
        (
            c.lo_cpu(operand).rot_left_flags_cpu(v, op, mode).so_cpu(
                operand,
                (rot_left_val(v, op, c.gr.f) % 256) as u16,
            ),
            c.lo_cpu(operand).so_bus(b, operand, (rot_left_val(v, op, c.gr.f) % 256) as u16),
        )
    }

    /// Right rotates and shifts.
    pub open spec fn rot_right_step(
        c: CPU,
        b: BusV,
        operand: Operand,
        op: ShiftOp,
        mode: ShiftMode,
    ) -> (CPU, BusV) {
        let v = (c.lo_val(b, operand) % 256) as u8;
        (
            c.lo_cpu(operand).rot_right_flags_cpu(v, op, mode).so_cpu(
                operand,
                rot_right_val(v, op, c.gr.f) as u16,
            ),
            c.lo_cpu(operand).so_bus(b, operand, rot_right_val(v, op, c.gr.f) as u16),
        )
    }

    /// `RLD`.
    pub open spec fn rld_step(c: CPU, b: BusV) -> (CPU, BusV) {
        let m = c.mem_at(b, c.gr.hl);
        (
            CPU {
                gr: GR {
                    a: CPU::rld_a(c.gr.a, m),
                    f: CPU::rxd_flags(c.gr.f, CPU::rld_a(c.gr.a, m)),
                    ..c.gr
                },
                ..c
            },
            b.mem_write_spec(c.phys(c.gr.hl), CPU::rld_m(c.gr.a, m)),
        )
    }

    /// `RRD`.
    pub open spec fn rrd_step(c: CPU, b: BusV) -> (CPU, BusV) {
        let m = c.mem_at(b, c.gr.hl);
        (
            CPU {
                gr: GR {
                    a: CPU::rrd_a(c.gr.a, m),
                    f: CPU::rxd_flags(c.gr.f, CPU::rrd_a(c.gr.a, m)),
                    ..c.gr
                },
                ..c
            },
            b.mem_write_spec(c.phys(c.gr.hl), CPU::rrd_m(c.gr.a, m)),
        )
    }

    /// `BIT n, src`.
    pub open spec fn bit_step(c: CPU, b: BusV, n: u8, src: Operand) -> (CPU, BusV) {
        (c.lo_cpu(src).with_f(CPU::bit_flags(c.gr.f, n, (c.lo_val(b, src) % 256) as u8)), b)
    }

    /// `SET n, src`.
    pub open spec fn set_step(c: CPU, b: BusV, n: u8, src: Operand) -> (CPU, BusV) {
        let v = (c.lo_val(b, src) % 256) as u16 | (pow2u(n) as u16);
        (c.lo_cpu(src).so_cpu(src, v), c.lo_cpu(src).so_bus(b, src, v))
    }

    /// `RES n, src`.
    pub open spec fn res_step(c: CPU, b: BusV, n: u8, src: Operand) -> (CPU, BusV) {
        let v = (c.lo_val(b, src) % 256) as u16 & !(pow2u(n) as u16);
        (c.lo_cpu(src).so_cpu(src, v), c.lo_cpu(src).so_bus(b, src, v))
    }

    /// `PUSH src`.
    pub open spec fn push_step(c: CPU, b: BusV, src: Operand) -> (CPU, BusV) {
        (c.lo_cpu(src).push_cpu(), c.lo_cpu(src).push_bus(b, c.lo_val(b, src)))
    }

    /// `POP dst`.
    pub open spec fn pop_step(c: CPU, b: BusV, dst: Operand) -> (CPU, BusV) {
        let stored = c.so_cpu(dst, c.pop_val(b));
        (
            CPU { sr: SR { sp: wadd16(c.sr.sp, 2), ..stored.sr }, ..stored },
            c.so_bus(b, dst, c.pop_val(b)),
        )
    }

    /// The exchange family.
    pub open spec fn exchange_step(c: CPU, b: BusV, e: Exchange) -> (CPU, BusV) {
        (
            c.ex_sp_cpu(b, e),
            match e {
                Exchange::SpHl => c.ex_sp_bus(b, c.gr.hl),
                Exchange::SpIx => c.ex_sp_bus(b, c.sr.ix),
                Exchange::SpIy => c.ex_sp_bus(b, c.sr.iy),
                _ => b,
            },
        )
    }

    /// `JP src` / `JP cc, src`.
    pub open spec fn jp_step(c: CPU, b: BusV, src: Operand, cond: Option<Condition>) -> (
        CPU,
        BusV,
    ) {
        (
            if c.is_condition_spec(cond) {
                c.lo_cpu(src).with_pc(c.lo_val(b, src))
            } else {
                c.lo_cpu(src)
            },
            b,
        )
    }

    /// `JR e` / `JR cc, e`.
    pub open spec fn jr_step(c: CPU, b: BusV, src: Operand, cond: Option<Condition>) -> (
        CPU,
        BusV,
    ) {
        (
            if c.is_condition_spec(cond) {
                c.lo_cpu(src).with_pc(
                    wadd16(c.lo_cpu(src).sr.pc, sxt8((c.lo_val(b, src) % 256) as u8)),
                )
            } else {
                c.lo_cpu(src)
            },
            b,
        )
    }

    /// `DJNZ e`.
    pub open spec fn djnz_step(c: CPU, b: BusV) -> (CPU, BusV) {
        let after = c.lo_cpu(Operand::Immediate).write_reg_spec(
            Register::B,
            CPU::djnz_b(c) as u16,
        );
        (
            if CPU::djnz_b(c) != 0 {
                after.with_pc(
                    wadd16(
                        wadd16(c.sr.pc, 1),
                        sxt8((c.lo_val(b, Operand::Immediate) % 256) as u8),
                    ),
                )
            } else {
                after
            },
            b,
        )
    }

    /// `CALL addr` / `CALL cc, addr`.
    pub open spec fn call_step(c: CPU, b: BusV, src: Operand, cond: Option<Condition>) -> (
        CPU,
        BusV,
    ) {
        if c.is_condition_spec(cond) {
            (
                c.lo_cpu(src).push_cpu().with_pc(c.lo_val(b, src)),
                c.lo_cpu(src).push_bus(b, c.lo_cpu(src).sr.pc),
            )
        } else {
            (c.lo_cpu(src), b)
        }
    }

    /// `RET` / `RET cc`.
    pub open spec fn ret_step(c: CPU, b: BusV, cond: Option<Condition>) -> (CPU, BusV) {
        (
            if c.is_condition_spec(cond) {
                CPU { sr: SR { sp: wadd16(c.sr.sp, 2), pc: c.pop_val(b), ..c.sr }, ..c }
            } else {
                c
            },
            b,
        )
    }

    /// `RST v`.
    pub open spec fn rst_step(c: CPU, b: BusV, vec: u16) -> (CPU, BusV) {
        (c.push_cpu().with_pc(vec), c.push_bus(b, c.sr.pc))
    }

    /// One `LDI`/`LDD`/`LDIR`/`LDDR` step.
    pub open spec fn ldi_step(c: CPU, b: BusV, direction: Direction, repeating: bool) -> (
        CPU,
        BusV,
    ) {
        (c.ldi_cpu(direction, repeating), c.ldi_bus(b))
    }

    /// One `CPI`/`CPD`/`CPIR`/`CPDR` step.
    pub open spec fn cpi_step(c: CPU, b: BusV, direction: Direction, repeating: bool) -> (
        CPU,
        BusV,
    ) {
        (c.cpi_cpu(b, direction, repeating), b)
    }

    /// `IN0 g, (m)`.
    pub open spec fn in0_step(c: CPU, b: BusV, dst: Operand, port: Operand) -> (CPU, BusV) {
        (
            c.lo_cpu(port).so_cpu(dst, c.io_at(b, c.lo_val(b, port)) as u16),
            c.lo_cpu(port).so_bus(b, dst, c.io_at(b, c.lo_val(b, port)) as u16),
        )
    }

    /// `OUT0 (m), g`.
    pub open spec fn out0_step(c: CPU, b: BusV, src: Operand, port: Operand) -> (CPU, BusV) {
        (
            c.lo_cpu(port).lo_cpu(src).io_write_cpu(
                c.lo_val(b, port),
                (c.lo_cpu(port).lo_val(b, src) % 256) as u8,
            ),
            b.io_write_spec(c.lo_val(b, port), (c.lo_cpu(port).lo_val(b, src) % 256) as u8),
        )
    }

    /// `OUT (m), A`.
    pub open spec fn out_m_step(c: CPU, b: BusV, port: Operand) -> (CPU, BusV) {
        (
            c.lo_cpu(port).io_write_cpu(c.ma_port(b), c.gr.a),
            b.io_write_spec(c.ma_port(b), c.gr.a),
        )
    }

    /// `IN A, (m)`.
    pub open spec fn in_m_step(c: CPU, b: BusV, port: Operand) -> (CPU, BusV) {
        (CPU { gr: GR { a: c.io_at(b, c.ma_port(b)), ..c.gr }, ..c.lo_cpu(port) }, b)
    }

    /// The operand a `DD CB`-style displacement resolves to, and the CPU with
    /// the displacement byte consumed.
    pub open spec fn resolved_index(c: CPU, b: BusV, index: RegIndex) -> Operand {
        Operand::Memory(wadd16(c.reg_spec(index.to_register_spec()), sxt8(c.mem_at(b, c.sr.pc))))
    }

    /// One machine cycle: a fetch-and-execute in `OpCodeFetch` mode, a no-op
    /// in `Reset` and `Halt`. Opaque so that reasoning about runs does not
    /// drag the whole decoder in; `CPU::cycle` proves it per opcode.
    #[verifier::opaque]
    pub open spec fn cycle_spec(c: CPU, b: BusV) -> (CPU, BusV) {
        match c.mode {
            Mode::OpCodeFetch => CPU::step_spec(c, b),
            _ => (c, b),
        }
    }

    /// One instruction: the opcode fetch (every ROM observes the M1 cycle),
    /// PC advanced past the opcode byte, then the base-plane decode. Opaque
    /// for the same reason as `cycle_spec`.
    #[verifier::opaque]
    pub open spec fn step_spec(c: CPU, b: BusV) -> (CPU, BusV) {
        let pa = c.phys(c.sr.pc);
        let b1 = b.observe_m1_spec(pa);
        CPU::base_step(c.with_pc(wadd16(c.sr.pc, 1)), b1, b1.mem_val(pa))
    }

    /// The `CB` plane: fetch the operation byte, advance PC, decode.
    pub open spec fn cb_plane(c: CPU, b: BusV) -> (CPU, BusV) {
        CPU::cb_step(c.with_pc(wadd16(c.sr.pc, 1)), b, c.mem_at(b, c.sr.pc))
    }

    /// The `ED` plane: fetch the operation byte, advance PC, decode.
    pub open spec fn ext_plane(c: CPU, b: BusV) -> (CPU, BusV) {
        CPU::ext_step(c.with_pc(wadd16(c.sr.pc, 1)), b, c.mem_at(b, c.sr.pc))
    }

    /// The `DD`/`FD` planes: fetch the operation byte, advance PC, decode
    /// with HL replaced by the index register.
    pub open spec fn index_plane(c: CPU, b: BusV, index: RegIndex) -> (CPU, BusV) {
        CPU::index_step(c.with_pc(wadd16(c.sr.pc, 1)), b, c.mem_at(b, c.sr.pc), index)
    }

    /// The `DD CB`/`FD CB` planes: the displacement comes first, then the
    /// operation byte; the operation works on (IX+d)/(IY+d).
    pub open spec fn index_bits_plane(c: CPU, b: BusV, index: RegIndex) -> (CPU, BusV) {
        let arg = CPU::resolved_index(c, b, index);
        let c1 = c.with_pc(wadd16(c.sr.pc, 1));
        CPU::index_bits_step(c1.with_pc(wadd16(c1.sr.pc, 1)), b, c1.mem_at(b, c1.sr.pc), arg)
    }
}

impl CPU {
    /// The base plane, opcodes 0x00-0x3F: 16-bit loads and arithmetic, 8-bit
    /// immediates, increments, accumulator rotates, relative jumps and the
    /// special controls.
    /// Opcodes outside this quarter never reach it.
    pub open spec fn base_step_00(c: CPU, b: BusV, opcode: u8) -> (CPU, BusV) {
        match opcode {
            0b00_000_000 => CPU::nop_step(c, b),
            0b00_000_001 => CPU::ld_step(c, b, Operand::Immediate16, Operand::Direct(Register::BC)),
            0b00_000_010 => CPU::ld_step(c, b, Operand::Direct(Register::A), Operand::Indirect(RegIndirect::BC)),
            0b00_000_011 => CPU::inc16_step(c, b, Operand::Direct(Register::BC)),
            0b00_000_100 => CPU::inc_step(c, b, Operand::Direct(Register::B)),
            0b00_000_101 => CPU::dec_step(c, b, Operand::Direct(Register::B)),
            0b00_000_110 => CPU::ld_step(c, b, Operand::Immediate, Operand::Direct(Register::B)),
            0b00_000_111 => CPU::rot_left_step(c, b, Operand::Direct(Register::A), ShiftOp::RotC, ShiftMode::R8080),
            0b00_001_000 => CPU::exchange_step(c, b, Exchange::AfAfs),
            0b00_001_001 => CPU::add16_step(c, b, Register::HL, Register::BC, false),
            0b00_001_010 => CPU::ld_step(c, b, Operand::Indirect(RegIndirect::BC), Operand::Direct(Register::A)),
            0b00_001_011 => CPU::dec16_step(c, b, Operand::Direct(Register::BC)),
            0b00_001_100 => CPU::inc_step(c, b, Operand::Direct(Register::C)),
            0b00_001_101 => CPU::dec_step(c, b, Operand::Direct(Register::C)),
            0b00_001_110 => CPU::ld_step(c, b, Operand::Immediate, Operand::Direct(Register::C)),
            0b00_001_111 => CPU::rot_right_step(c, b, Operand::Direct(Register::A), ShiftOp::RotC, ShiftMode::R8080),
            0b00_010_000 => CPU::djnz_step(c, b),
            0b00_010_001 => CPU::ld_step(c, b, Operand::Immediate16, Operand::Direct(Register::DE)),
            0b00_010_010 => CPU::ld_step(c, b, Operand::Direct(Register::A), Operand::Indirect(RegIndirect::DE)),
            0b00_010_011 => CPU::inc16_step(c, b, Operand::Direct(Register::DE)),
            0b00_010_100 => CPU::inc_step(c, b, Operand::Direct(Register::D)),
            0b00_010_101 => CPU::dec_step(c, b, Operand::Direct(Register::D)),
            0b00_010_110 => CPU::ld_step(c, b, Operand::Immediate, Operand::Direct(Register::D)),
            0b00_010_111 => CPU::rot_left_step(c, b, Operand::Direct(Register::A), ShiftOp::Rot, ShiftMode::R8080),
            0b00_011_000 => CPU::jr_step(c, b, Operand::Immediate, None),
            0b00_011_001 => CPU::add16_step(c, b, Register::HL, Register::DE, false),
            0b00_011_010 => CPU::ld_step(c, b, Operand::Indirect(RegIndirect::DE), Operand::Direct(Register::A)),
            0b00_011_011 => CPU::dec16_step(c, b, Operand::Direct(Register::DE)),
            0b00_011_100 => CPU::inc_step(c, b, Operand::Direct(Register::E)),
            0b00_011_101 => CPU::dec_step(c, b, Operand::Direct(Register::E)),
            0b00_011_110 => CPU::ld_step(c, b, Operand::Immediate, Operand::Direct(Register::E)),
            0b00_011_111 => CPU::rot_right_step(c, b, Operand::Direct(Register::A), ShiftOp::Rot, ShiftMode::R8080),
            0b00_100_000 => CPU::jr_step(c, b, Operand::Immediate, Some(Condition::NonZero)),
            0b00_100_001 => CPU::ld_step(c, b, Operand::Immediate16, Operand::Direct(Register::HL)),
            0b00_100_010 => CPU::ld_step(c, b, Operand::Direct(Register::HL), Operand::Extended16),
            0b00_100_011 => CPU::inc16_step(c, b, Operand::Direct(Register::HL)),
            0b00_100_100 => CPU::inc_step(c, b, Operand::Direct(Register::H)),
            0b00_100_101 => CPU::dec_step(c, b, Operand::Direct(Register::H)),
            0b00_100_110 => CPU::ld_step(c, b, Operand::Immediate, Operand::Direct(Register::H)),
            0b00_100_111 => CPU::daa_step(c, b),
            0b00_101_000 => CPU::jr_step(c, b, Operand::Immediate, Some(Condition::Zero)),
            0b00_101_001 => CPU::add16_step(c, b, Register::HL, Register::HL, false),
            0b00_101_010 => CPU::ld_step(c, b, Operand::Extended16, Operand::Direct(Register::HL)),
            0b00_101_011 => CPU::dec16_step(c, b, Operand::Direct(Register::HL)),
            0b00_101_100 => CPU::inc_step(c, b, Operand::Direct(Register::L)),
            0b00_101_101 => CPU::dec_step(c, b, Operand::Direct(Register::L)),
            0b00_101_110 => CPU::ld_step(c, b, Operand::Immediate, Operand::Direct(Register::L)),
            0b00_101_111 => CPU::cpl_step(c, b),
            0b00_110_000 => CPU::jr_step(c, b, Operand::Immediate, Some(Condition::NonCarry)),
            0b00_110_001 => CPU::ld_step(c, b, Operand::Immediate16, Operand::Direct(Register::SP)),
            0b00_110_010 => CPU::ld_step(c, b, Operand::Direct(Register::A), Operand::Extended),
            0b00_110_011 => CPU::inc16_step(c, b, Operand::Direct(Register::SP)),
            0b00_110_100 => CPU::inc_step(c, b, Operand::Indirect(RegIndirect::HL)),
            0b00_110_101 => CPU::dec_step(c, b, Operand::Indirect(RegIndirect::HL)),
            0b00_110_110 => CPU::ld_step(c, b, Operand::Immediate, Operand::Indirect(RegIndirect::HL)),
            0b00_110_111 => CPU::scf_step(c, b),
            0b00_111_000 => CPU::jr_step(c, b, Operand::Immediate, Some(Condition::Carry)),
            0b00_111_001 => CPU::add16_step(c, b, Register::HL, Register::SP, false),
            0b00_111_010 => CPU::ld_step(c, b, Operand::Extended, Operand::Direct(Register::A)),
            0b00_111_011 => CPU::dec16_step(c, b, Operand::Direct(Register::SP)),
            0b00_111_100 => CPU::inc_step(c, b, Operand::Direct(Register::A)),
            0b00_111_101 => CPU::dec_step(c, b, Operand::Direct(Register::A)),
            0b00_111_110 => CPU::ld_step(c, b, Operand::Immediate, Operand::Direct(Register::A)),
            0b00_111_111 => CPU::ccf_step(c, b),
            _ => CPU::error_step(c, b),
        }
    }

    /// The base plane, opcodes 0x40-0x7F: the 8-bit register-to-register loads
    /// and `HALT`.
    /// Opcodes outside this quarter never reach it.
    pub open spec fn base_step_40(c: CPU, b: BusV, opcode: u8) -> (CPU, BusV) {
        match opcode {
            0b01_000_000 => CPU::ld_step(c, b, Operand::Direct(Register::B), Operand::Direct(Register::B)),
            0b01_000_001 => CPU::ld_step(c, b, Operand::Direct(Register::C), Operand::Direct(Register::B)),
            0b01_000_010 => CPU::ld_step(c, b, Operand::Direct(Register::D), Operand::Direct(Register::B)),
            0b01_000_011 => CPU::ld_step(c, b, Operand::Direct(Register::E), Operand::Direct(Register::B)),
            0b01_000_100 => CPU::ld_step(c, b, Operand::Direct(Register::H), Operand::Direct(Register::B)),
            0b01_000_101 => CPU::ld_step(c, b, Operand::Direct(Register::L), Operand::Direct(Register::B)),
            0b01_000_110 => CPU::ld_step(c, b, Operand::Indirect(RegIndirect::HL), Operand::Direct(Register::B)),
            0b01_000_111 => CPU::ld_step(c, b, Operand::Direct(Register::A), Operand::Direct(Register::B)),
            0b01_001_000 => CPU::ld_step(c, b, Operand::Direct(Register::B), Operand::Direct(Register::C)),
            0b01_001_001 => CPU::ld_step(c, b, Operand::Direct(Register::C), Operand::Direct(Register::C)),
            0b01_001_010 => CPU::ld_step(c, b, Operand::Direct(Register::D), Operand::Direct(Register::C)),
            0b01_001_011 => CPU::ld_step(c, b, Operand::Direct(Register::E), Operand::Direct(Register::C)),
            0b01_001_100 => CPU::ld_step(c, b, Operand::Direct(Register::H), Operand::Direct(Register::C)),
            0b01_001_101 => CPU::ld_step(c, b, Operand::Direct(Register::L), Operand::Direct(Register::C)),
            0b01_001_110 => CPU::ld_step(c, b, Operand::Indirect(RegIndirect::HL), Operand::Direct(Register::C)),
            0b01_001_111 => CPU::ld_step(c, b, Operand::Direct(Register::A), Operand::Direct(Register::C)),
            0b01_010_000 => CPU::ld_step(c, b, Operand::Direct(Register::B), Operand::Direct(Register::D)),
            0b01_010_001 => CPU::ld_step(c, b, Operand::Direct(Register::C), Operand::Direct(Register::D)),
            0b01_010_010 => CPU::ld_step(c, b, Operand::Direct(Register::D), Operand::Direct(Register::D)),
            0b01_010_011 => CPU::ld_step(c, b, Operand::Direct(Register::E), Operand::Direct(Register::D)),
            0b01_010_100 => CPU::ld_step(c, b, Operand::Direct(Register::H), Operand::Direct(Register::D)),
            0b01_010_101 => CPU::ld_step(c, b, Operand::Direct(Register::L), Operand::Direct(Register::D)),
            0b01_010_110 => CPU::ld_step(c, b, Operand::Indirect(RegIndirect::HL), Operand::Direct(Register::D)),
            0b01_010_111 => CPU::ld_step(c, b, Operand::Direct(Register::A), Operand::Direct(Register::D)),
            0b01_011_000 => CPU::ld_step(c, b, Operand::Direct(Register::B), Operand::Direct(Register::E)),
            0b01_011_001 => CPU::ld_step(c, b, Operand::Direct(Register::C), Operand::Direct(Register::E)),
            0b01_011_010 => CPU::ld_step(c, b, Operand::Direct(Register::D), Operand::Direct(Register::E)),
            0b01_011_011 => CPU::ld_step(c, b, Operand::Direct(Register::E), Operand::Direct(Register::E)),
            0b01_011_100 => CPU::ld_step(c, b, Operand::Direct(Register::H), Operand::Direct(Register::E)),
            0b01_011_101 => CPU::ld_step(c, b, Operand::Direct(Register::L), Operand::Direct(Register::E)),
            0b01_011_110 => CPU::ld_step(c, b, Operand::Indirect(RegIndirect::HL), Operand::Direct(Register::E)),
            0b01_011_111 => CPU::ld_step(c, b, Operand::Direct(Register::A), Operand::Direct(Register::E)),
            0b01_100_000 => CPU::ld_step(c, b, Operand::Direct(Register::B), Operand::Direct(Register::H)),
            0b01_100_001 => CPU::ld_step(c, b, Operand::Direct(Register::C), Operand::Direct(Register::H)),
            0b01_100_010 => CPU::ld_step(c, b, Operand::Direct(Register::D), Operand::Direct(Register::H)),
            0b01_100_011 => CPU::ld_step(c, b, Operand::Direct(Register::E), Operand::Direct(Register::H)),
            0b01_100_100 => CPU::ld_step(c, b, Operand::Direct(Register::H), Operand::Direct(Register::H)),
            0b01_100_101 => CPU::ld_step(c, b, Operand::Direct(Register::L), Operand::Direct(Register::H)),
            0b01_100_110 => CPU::ld_step(c, b, Operand::Indirect(RegIndirect::HL), Operand::Direct(Register::H)),
            0b01_100_111 => CPU::ld_step(c, b, Operand::Direct(Register::A), Operand::Direct(Register::H)),
            0b01_101_000 => CPU::ld_step(c, b, Operand::Direct(Register::B), Operand::Direct(Register::L)),
            0b01_101_001 => CPU::ld_step(c, b, Operand::Direct(Register::C), Operand::Direct(Register::L)),
            0b01_101_010 => CPU::ld_step(c, b, Operand::Direct(Register::D), Operand::Direct(Register::L)),
            0b01_101_011 => CPU::ld_step(c, b, Operand::Direct(Register::E), Operand::Direct(Register::L)),
            0b01_101_100 => CPU::ld_step(c, b, Operand::Direct(Register::H), Operand::Direct(Register::L)),
            0b01_101_101 => CPU::ld_step(c, b, Operand::Direct(Register::L), Operand::Direct(Register::L)),
            0b01_101_110 => CPU::ld_step(c, b, Operand::Indirect(RegIndirect::HL), Operand::Direct(Register::L)),
            0b01_101_111 => CPU::ld_step(c, b, Operand::Direct(Register::A), Operand::Direct(Register::L)),
            0b01_110_000 => CPU::ld_step(c, b, Operand::Direct(Register::B), Operand::Indirect(RegIndirect::HL)),
            0b01_110_001 => CPU::ld_step(c, b, Operand::Direct(Register::C), Operand::Indirect(RegIndirect::HL)),
            0b01_110_010 => CPU::ld_step(c, b, Operand::Direct(Register::D), Operand::Indirect(RegIndirect::HL)),
            0b01_110_011 => CPU::ld_step(c, b, Operand::Direct(Register::E), Operand::Indirect(RegIndirect::HL)),
            0b01_110_100 => CPU::ld_step(c, b, Operand::Direct(Register::H), Operand::Indirect(RegIndirect::HL)),
            0b01_110_101 => CPU::ld_step(c, b, Operand::Direct(Register::L), Operand::Indirect(RegIndirect::HL)),
            0b01_110_110 => CPU::halt_step(c, b),
            0b01_110_111 => CPU::ld_step(c, b, Operand::Direct(Register::A), Operand::Indirect(RegIndirect::HL)),
            0b01_111_000 => CPU::ld_step(c, b, Operand::Direct(Register::B), Operand::Direct(Register::A)),
            0b01_111_001 => CPU::ld_step(c, b, Operand::Direct(Register::C), Operand::Direct(Register::A)),
            0b01_111_010 => CPU::ld_step(c, b, Operand::Direct(Register::D), Operand::Direct(Register::A)),
            0b01_111_011 => CPU::ld_step(c, b, Operand::Direct(Register::E), Operand::Direct(Register::A)),
            0b01_111_100 => CPU::ld_step(c, b, Operand::Direct(Register::H), Operand::Direct(Register::A)),
            0b01_111_101 => CPU::ld_step(c, b, Operand::Direct(Register::L), Operand::Direct(Register::A)),
            0b01_111_110 => CPU::ld_step(c, b, Operand::Indirect(RegIndirect::HL), Operand::Direct(Register::A)),
            0b01_111_111 => CPU::ld_step(c, b, Operand::Direct(Register::A), Operand::Direct(Register::A)),
            _ => CPU::error_step(c, b),
        }
    }

    /// The base plane, opcodes 0x80-0xBF: the 8-bit arithmetic and logic on A.
    /// Opcodes outside this quarter never reach it.
    pub open spec fn base_step_80(c: CPU, b: BusV, opcode: u8) -> (CPU, BusV) {
        match opcode {
            0b10_000_000 => CPU::add_a_step(c, b, Operand::Direct(Register::B), false),
            0b10_000_001 => CPU::add_a_step(c, b, Operand::Direct(Register::C), false),
            0b10_000_010 => CPU::add_a_step(c, b, Operand::Direct(Register::D), false),
            0b10_000_011 => CPU::add_a_step(c, b, Operand::Direct(Register::E), false),
            0b10_000_100 => CPU::add_a_step(c, b, Operand::Direct(Register::H), false),
            0b10_000_101 => CPU::add_a_step(c, b, Operand::Direct(Register::L), false),
            0b10_000_110 => CPU::add_a_step(c, b, Operand::Indirect(RegIndirect::HL), false),
            0b10_000_111 => CPU::add_a_step(c, b, Operand::Direct(Register::A), false),
            0b10_001_000 => CPU::add_a_step(c, b, Operand::Direct(Register::B), true),
            0b10_001_001 => CPU::add_a_step(c, b, Operand::Direct(Register::C), true),
            0b10_001_010 => CPU::add_a_step(c, b, Operand::Direct(Register::D), true),
            0b10_001_011 => CPU::add_a_step(c, b, Operand::Direct(Register::E), true),
            0b10_001_100 => CPU::add_a_step(c, b, Operand::Direct(Register::H), true),
            0b10_001_101 => CPU::add_a_step(c, b, Operand::Direct(Register::L), true),
            0b10_001_110 => CPU::add_a_step(c, b, Operand::Indirect(RegIndirect::HL), true),
            0b10_001_111 => CPU::add_a_step(c, b, Operand::Direct(Register::A), true),
            0b10_010_000 => CPU::sub_a_step(c, b, Operand::Direct(Register::B), false, true),
            0b10_010_001 => CPU::sub_a_step(c, b, Operand::Direct(Register::C), false, true),
            0b10_010_010 => CPU::sub_a_step(c, b, Operand::Direct(Register::D), false, true),
            0b10_010_011 => CPU::sub_a_step(c, b, Operand::Direct(Register::E), false, true),
            0b10_010_100 => CPU::sub_a_step(c, b, Operand::Direct(Register::H), false, true),
            0b10_010_101 => CPU::sub_a_step(c, b, Operand::Direct(Register::L), false, true),
            0b10_010_110 => CPU::sub_a_step(c, b, Operand::Indirect(RegIndirect::HL), false, true),
            0b10_010_111 => CPU::sub_a_step(c, b, Operand::Direct(Register::A), false, true),
            0b10_011_000 => CPU::sub_a_step(c, b, Operand::Direct(Register::B), true, true),
            0b10_011_001 => CPU::sub_a_step(c, b, Operand::Direct(Register::C), true, true),
            0b10_011_010 => CPU::sub_a_step(c, b, Operand::Direct(Register::D), true, true),
            0b10_011_011 => CPU::sub_a_step(c, b, Operand::Direct(Register::E), true, true),
            0b10_011_100 => CPU::sub_a_step(c, b, Operand::Direct(Register::H), true, true),
            0b10_011_101 => CPU::sub_a_step(c, b, Operand::Direct(Register::L), true, true),
            0b10_011_110 => CPU::sub_a_step(c, b, Operand::Indirect(RegIndirect::HL), true, true),
            0b10_011_111 => CPU::sub_a_step(c, b, Operand::Direct(Register::A), true, true),
            0b10_100_000 => CPU::and_a_step(c, b, Operand::Direct(Register::B)),
            0b10_100_001 => CPU::and_a_step(c, b, Operand::Direct(Register::C)),
            0b10_100_010 => CPU::and_a_step(c, b, Operand::Direct(Register::D)),
            0b10_100_011 => CPU::and_a_step(c, b, Operand::Direct(Register::E)),
            0b10_100_100 => CPU::and_a_step(c, b, Operand::Direct(Register::H)),
            0b10_100_101 => CPU::and_a_step(c, b, Operand::Direct(Register::L)),
            0b10_100_110 => CPU::and_a_step(c, b, Operand::Indirect(RegIndirect::HL)),
            0b10_100_111 => CPU::and_a_step(c, b, Operand::Direct(Register::A)),
            0b10_101_000 => CPU::xor_a_step(c, b, Operand::Direct(Register::B)),
            0b10_101_001 => CPU::xor_a_step(c, b, Operand::Direct(Register::C)),
            0b10_101_010 => CPU::xor_a_step(c, b, Operand::Direct(Register::D)),
            0b10_101_011 => CPU::xor_a_step(c, b, Operand::Direct(Register::E)),
            0b10_101_100 => CPU::xor_a_step(c, b, Operand::Direct(Register::H)),
            0b10_101_101 => CPU::xor_a_step(c, b, Operand::Direct(Register::L)),
            0b10_101_110 => CPU::xor_a_step(c, b, Operand::Indirect(RegIndirect::HL)),
            0b10_101_111 => CPU::xor_a_step(c, b, Operand::Direct(Register::A)),
            0b10_110_000 => CPU::or_a_step(c, b, Operand::Direct(Register::B)),
            0b10_110_001 => CPU::or_a_step(c, b, Operand::Direct(Register::C)),
            0b10_110_010 => CPU::or_a_step(c, b, Operand::Direct(Register::D)),
            0b10_110_011 => CPU::or_a_step(c, b, Operand::Direct(Register::E)),
            0b10_110_100 => CPU::or_a_step(c, b, Operand::Direct(Register::H)),
            0b10_110_101 => CPU::or_a_step(c, b, Operand::Direct(Register::L)),
            0b10_110_110 => CPU::or_a_step(c, b, Operand::Indirect(RegIndirect::HL)),
            0b10_110_111 => CPU::or_a_step(c, b, Operand::Direct(Register::A)),
            0b10_111_000 => CPU::sub_a_step(c, b, Operand::Direct(Register::B), false, false),
            0b10_111_001 => CPU::sub_a_step(c, b, Operand::Direct(Register::C), false, false),
            0b10_111_010 => CPU::sub_a_step(c, b, Operand::Direct(Register::D), false, false),
            0b10_111_011 => CPU::sub_a_step(c, b, Operand::Direct(Register::E), false, false),
            0b10_111_100 => CPU::sub_a_step(c, b, Operand::Direct(Register::H), false, false),
            0b10_111_101 => CPU::sub_a_step(c, b, Operand::Direct(Register::L), false, false),
            0b10_111_110 => CPU::sub_a_step(c, b, Operand::Indirect(RegIndirect::HL), false, false),
            0b10_111_111 => CPU::sub_a_step(c, b, Operand::Direct(Register::A), false, false),
            _ => CPU::error_step(c, b),
        }
    }

    /// The base plane, opcodes 0xC0-0xFF: calls, returns, jumps, stack
    /// operations, IO, restarts and the prefix planes.
    /// Opcodes outside this quarter never reach it.
    pub open spec fn base_step_c0(c: CPU, b: BusV, opcode: u8) -> (CPU, BusV) {
        match opcode {
            0b11_000_000 => CPU::ret_step(c, b, Some(Condition::NonZero)),
            0b11_000_001 => CPU::pop_step(c, b, Operand::Direct(Register::BC)),
            0b11_000_010 => CPU::jp_step(c, b, Operand::Immediate16, Some(Condition::NonZero)),
            0b11_000_011 => CPU::jp_step(c, b, Operand::Immediate16, None),
            0b11_000_100 => CPU::call_step(c, b, Operand::Immediate16, Some(Condition::NonZero)),
            0b11_000_101 => CPU::push_step(c, b, Operand::Direct(Register::BC)),
            0b11_000_110 => CPU::add_a_step(c, b, Operand::Immediate, false),
            0b11_000_111 => CPU::rst_step(c, b, 0x00),
            0b11_001_000 => CPU::ret_step(c, b, Some(Condition::Zero)),
            0b11_001_001 => CPU::ret_step(c, b, None),
            0b11_001_010 => CPU::jp_step(c, b, Operand::Immediate16, Some(Condition::Zero)),
            0b11_001_011 => CPU::cb_plane(c, b),
            0b11_001_100 => CPU::call_step(c, b, Operand::Immediate16, Some(Condition::Zero)),
            0b11_001_101 => CPU::call_step(c, b, Operand::Immediate16, None),
            0b11_001_110 => CPU::add_a_step(c, b, Operand::Immediate, true),
            0b11_001_111 => CPU::rst_step(c, b, 0x08),
            0b11_010_000 => CPU::ret_step(c, b, Some(Condition::NonCarry)),
            0b11_010_001 => CPU::pop_step(c, b, Operand::Direct(Register::DE)),
            0b11_010_010 => CPU::jp_step(c, b, Operand::Immediate16, Some(Condition::NonCarry)),
            0b11_010_011 => CPU::out_m_step(c, b, Operand::Immediate),
            0b11_010_100 => CPU::call_step(c, b, Operand::Immediate16, Some(Condition::NonCarry)),
            0b11_010_101 => CPU::push_step(c, b, Operand::Direct(Register::DE)),
            0b11_010_110 => CPU::sub_a_step(c, b, Operand::Immediate, false, true),
            0b11_010_111 => CPU::rst_step(c, b, 0x10),
            0b11_011_000 => CPU::ret_step(c, b, Some(Condition::Carry)),
            0b11_011_001 => CPU::exchange_step(c, b, Exchange::X),
            0b11_011_010 => CPU::jp_step(c, b, Operand::Immediate16, Some(Condition::Carry)),
            0b11_011_011 => CPU::in_m_step(c, b, Operand::Immediate),
            0b11_011_100 => CPU::call_step(c, b, Operand::Immediate16, Some(Condition::Carry)),
            0b11_011_101 => CPU::index_plane(c, b, RegIndex::IX),
            0b11_011_110 => CPU::sub_a_step(c, b, Operand::Immediate, true, true),
            0b11_011_111 => CPU::rst_step(c, b, 0x18),
            0b11_100_000 => CPU::ret_step(c, b, Some(Condition::ParityOdd)),
            0b11_100_001 => CPU::pop_step(c, b, Operand::Direct(Register::HL)),
            0b11_100_010 => CPU::jp_step(c, b, Operand::Immediate16, Some(Condition::ParityOdd)),
            0b11_100_011 => CPU::exchange_step(c, b, Exchange::SpHl),
            0b11_100_100 => CPU::call_step(c, b, Operand::Immediate16, Some(Condition::ParityOdd)),
            0b11_100_101 => CPU::push_step(c, b, Operand::Direct(Register::HL)),
            0b11_100_110 => CPU::and_a_step(c, b, Operand::Immediate),
            0b11_100_111 => CPU::rst_step(c, b, 0x20),
            0b11_101_000 => CPU::ret_step(c, b, Some(Condition::ParityEven)),
            0b11_101_001 => CPU::jp_step(c, b, Operand::Direct(Register::HL), None),
            0b11_101_010 => CPU::jp_step(c, b, Operand::Immediate16, Some(Condition::ParityEven)),
            0b11_101_011 => CPU::exchange_step(c, b, Exchange::DeHl),
            0b11_101_100 => CPU::call_step(c, b, Operand::Immediate16, Some(Condition::ParityEven)),
            0b11_101_101 => CPU::ext_plane(c, b),
            0b11_101_110 => CPU::xor_a_step(c, b, Operand::Immediate),
            0b11_101_111 => CPU::rst_step(c, b, 0x28),
            0b11_110_000 => CPU::ret_step(c, b, Some(Condition::SignPlus)),
            0b11_110_001 => CPU::pop_step(c, b, Operand::Direct(Register::AF)),
            0b11_110_010 => CPU::jp_step(c, b, Operand::Immediate16, Some(Condition::SignPlus)),
            0b11_110_011 => CPU::di_step(c, b),
            0b11_110_100 => CPU::call_step(c, b, Operand::Immediate16, Some(Condition::SignPlus)),
            0b11_110_101 => CPU::push_step(c, b, Operand::Direct(Register::AF)),
            0b11_110_110 => CPU::or_a_step(c, b, Operand::Immediate),
            0b11_110_111 => CPU::rst_step(c, b, 0x30),
            0b11_111_000 => CPU::ret_step(c, b, Some(Condition::SignMinus)),
            0b11_111_001 => CPU::ld_step(c, b, Operand::Direct(Register::HL), Operand::Direct(Register::SP)),
            0b11_111_010 => CPU::jp_step(c, b, Operand::Immediate16, Some(Condition::SignMinus)),
            0b11_111_011 => CPU::ei_step(c, b),
            0b11_111_100 => CPU::call_step(c, b, Operand::Immediate16, Some(Condition::SignMinus)),
            0b11_111_101 => CPU::index_plane(c, b, RegIndex::IY),
            0b11_111_110 => CPU::sub_a_step(c, b, Operand::Immediate, false, false),
            0b11_111_111 => CPU::rst_step(c, b, 0x38),
            _ => CPU::error_step(c, b),
        }
    }

    /// The base plane, decoded: every one of the 256 opcode values is named
    /// explicitly in its quarter, as in the dispatcher.
    pub open spec fn base_step(c: CPU, b: BusV, opcode: u8) -> (CPU, BusV) {
        if opcode < 0x40 {
            CPU::base_step_00(c, b, opcode)
        } else if opcode < 0x80 {
            CPU::base_step_40(c, b, opcode)
        } else if opcode < 0xc0 {
            CPU::base_step_80(c, b, opcode)
        } else {
            CPU::base_step_c0(c, b, opcode)
        }
    }

    /// The `ED` plane, decoded; unlisted opcodes are illegal and halt with
    /// PC already past the consumed bytes.
    pub open spec fn ext_step(c: CPU, b: BusV, opcode: u8) -> (CPU, BusV) {
        match opcode {
            0b00_000_000 => CPU::in0_step(c, b, Operand::Direct(Register::B), Operand::Immediate),
            0b00_001_000 => CPU::in0_step(c, b, Operand::Direct(Register::C), Operand::Immediate),
            0b00_010_000 => CPU::in0_step(c, b, Operand::Direct(Register::D), Operand::Immediate),
            0b00_011_000 => CPU::in0_step(c, b, Operand::Direct(Register::E), Operand::Immediate),
            0b00_100_000 => CPU::in0_step(c, b, Operand::Direct(Register::H), Operand::Immediate),
            0b00_101_000 => CPU::in0_step(c, b, Operand::Direct(Register::L), Operand::Immediate),
            0b00_111_000 => CPU::in0_step(c, b, Operand::Direct(Register::A), Operand::Immediate),
            0b00_000_001 => CPU::out0_step(c, b, Operand::Direct(Register::B), Operand::Immediate),
            0b00_001_001 => CPU::out0_step(c, b, Operand::Direct(Register::C), Operand::Immediate),
            0b00_010_001 => CPU::out0_step(c, b, Operand::Direct(Register::D), Operand::Immediate),
            0b00_011_001 => CPU::out0_step(c, b, Operand::Direct(Register::E), Operand::Immediate),
            0b00_100_001 => CPU::out0_step(c, b, Operand::Direct(Register::H), Operand::Immediate),
            0b00_101_001 => CPU::out0_step(c, b, Operand::Direct(Register::L), Operand::Immediate),
            0b00_111_001 => CPU::out0_step(c, b, Operand::Direct(Register::A), Operand::Immediate),
            0b00_000_100 => CPU::tst_a_step(c, b, Operand::Direct(Register::B)),
            0b00_001_100 => CPU::tst_a_step(c, b, Operand::Direct(Register::C)),
            0b00_010_100 => CPU::tst_a_step(c, b, Operand::Direct(Register::D)),
            0b00_011_100 => CPU::tst_a_step(c, b, Operand::Direct(Register::E)),
            0b00_100_100 => CPU::tst_a_step(c, b, Operand::Direct(Register::H)),
            0b00_101_100 => CPU::tst_a_step(c, b, Operand::Direct(Register::L)),
            0b00_110_100 => CPU::tst_a_step(c, b, Operand::Indirect(RegIndirect::HL)),
            0b00_111_100 => CPU::tst_a_step(c, b, Operand::Direct(Register::A)),
            0b01_100_100 => CPU::tst_a_step(c, b, Operand::Immediate),
            0b01_000_100 => CPU::neg_step(c, b),
            0b01_000_111 => CPU::ld_step(c, b, Operand::Direct(Register::A), Operand::Direct(Register::I)),
            0b01_001_111 => CPU::ld_step(c, b, Operand::Direct(Register::A), Operand::Direct(Register::R)),
            0b01_000_010 => CPU::sub_hl_ww_step(c, b, RegW::BC, true),
            0b01_010_010 => CPU::sub_hl_ww_step(c, b, RegW::DE, true),
            0b01_100_010 => CPU::sub_hl_ww_step(c, b, RegW::HL, true),
            0b01_110_010 => CPU::sub_hl_ww_step(c, b, RegW::SP, true),
            0b01_001_010 => CPU::add16_step(c, b, Register::HL, Register::BC, true),
            0b01_011_010 => CPU::add16_step(c, b, Register::HL, Register::DE, true),
            0b01_101_010 => CPU::add16_step(c, b, Register::HL, Register::HL, true),
            0b01_111_010 => CPU::add16_step(c, b, Register::HL, Register::SP, true),
            0b01_000_011 => CPU::ld_step(c, b, Operand::Direct(Register::BC), Operand::Extended16),
            0b01_010_011 => CPU::ld_step(c, b, Operand::Direct(Register::DE), Operand::Extended16),
            0b01_110_011 => CPU::ld_step(c, b, Operand::Direct(Register::SP), Operand::Extended16),
            0b01_001_011 => CPU::ld_step(c, b, Operand::Extended16, Operand::Direct(Register::BC)),
            0b01_011_011 => CPU::ld_step(c, b, Operand::Extended16, Operand::Direct(Register::DE)),
            0b01_111_011 => CPU::ld_step(c, b, Operand::Extended16, Operand::Direct(Register::SP)),
            0b10_100_000 => CPU::ldi_step(c, b, Direction::Increment, false),
            0b10_110_000 => CPU::ldi_step(c, b, Direction::Increment, true),
            0b01_100_111 => CPU::rrd_step(c, b),
            0b01_101_111 => CPU::rld_step(c, b),
            0b10_101_000 => CPU::ldi_step(c, b, Direction::Decrement, false),
            0b10_111_000 => CPU::ldi_step(c, b, Direction::Decrement, true),
            0b10_100_001 => CPU::cpi_step(c, b, Direction::Increment, false),
            0b10_110_001 => CPU::cpi_step(c, b, Direction::Increment, true),
            0b10_101_001 => CPU::cpi_step(c, b, Direction::Decrement, false),
            0b10_111_001 => CPU::cpi_step(c, b, Direction::Decrement, true),
            _ => CPU::error_step(c, b),
        }
    }

    /// The `CB` plane's rotates and shifts (opcodes 0x00-0x3F).
    /// Opcodes outside this quarter never reach it.
    pub open spec fn cb_step_00(c: CPU, b: BusV, opcode: u8) -> (CPU, BusV) {
        match opcode {
            0b00_000_000 => CPU::rot_left_step(c, b, Operand::Direct(Register::B), ShiftOp::RotC, ShiftMode::RZ80),
            0b00_000_001 => CPU::rot_left_step(c, b, Operand::Direct(Register::C), ShiftOp::RotC, ShiftMode::RZ80),
            0b00_000_010 => CPU::rot_left_step(c, b, Operand::Direct(Register::D), ShiftOp::RotC, ShiftMode::RZ80),
            0b00_000_011 => CPU::rot_left_step(c, b, Operand::Direct(Register::E), ShiftOp::RotC, ShiftMode::RZ80),
            0b00_000_100 => CPU::rot_left_step(c, b, Operand::Direct(Register::H), ShiftOp::RotC, ShiftMode::RZ80),
            0b00_000_101 => CPU::rot_left_step(c, b, Operand::Direct(Register::L), ShiftOp::RotC, ShiftMode::RZ80),
            0b00_000_110 => CPU::rot_left_step(c, b, Operand::Indirect(RegIndirect::HL), ShiftOp::RotC, ShiftMode::RZ80),
            0b00_000_111 => CPU::rot_left_step(c, b, Operand::Direct(Register::A), ShiftOp::RotC, ShiftMode::RZ80),
            0b00_001_000 => CPU::rot_right_step(c, b, Operand::Direct(Register::B), ShiftOp::RotC, ShiftMode::RZ80),
            0b00_001_001 => CPU::rot_right_step(c, b, Operand::Direct(Register::C), ShiftOp::RotC, ShiftMode::RZ80),
            0b00_001_010 => CPU::rot_right_step(c, b, Operand::Direct(Register::D), ShiftOp::RotC, ShiftMode::RZ80),
            0b00_001_011 => CPU::rot_right_step(c, b, Operand::Direct(Register::E), ShiftOp::RotC, ShiftMode::RZ80),
            0b00_001_100 => CPU::rot_right_step(c, b, Operand::Direct(Register::H), ShiftOp::RotC, ShiftMode::RZ80),
            0b00_001_101 => CPU::rot_right_step(c, b, Operand::Direct(Register::L), ShiftOp::RotC, ShiftMode::RZ80),
            0b00_001_110 => CPU::rot_right_step(c, b, Operand::Indirect(RegIndirect::HL), ShiftOp::RotC, ShiftMode::RZ80),
            0b00_001_111 => CPU::rot_right_step(c, b, Operand::Direct(Register::A), ShiftOp::RotC, ShiftMode::RZ80),
            0b00_010_000 => CPU::rot_left_step(c, b, Operand::Direct(Register::B), ShiftOp::Rot, ShiftMode::RZ80),
            0b00_010_001 => CPU::rot_left_step(c, b, Operand::Direct(Register::C), ShiftOp::Rot, ShiftMode::RZ80),
            0b00_010_010 => CPU::rot_left_step(c, b, Operand::Direct(Register::D), ShiftOp::Rot, ShiftMode::RZ80),
            0b00_010_011 => CPU::rot_left_step(c, b, Operand::Direct(Register::E), ShiftOp::Rot, ShiftMode::RZ80),
            0b00_010_100 => CPU::rot_left_step(c, b, Operand::Direct(Register::H), ShiftOp::Rot, ShiftMode::RZ80),
            0b00_010_101 => CPU::rot_left_step(c, b, Operand::Direct(Register::L), ShiftOp::Rot, ShiftMode::RZ80),
            0b00_010_110 => CPU::rot_left_step(c, b, Operand::Indirect(RegIndirect::HL), ShiftOp::Rot, ShiftMode::RZ80),
            0b00_010_111 => CPU::rot_left_step(c, b, Operand::Direct(Register::A), ShiftOp::Rot, ShiftMode::RZ80),
            0b00_011_000 => CPU::rot_right_step(c, b, Operand::Direct(Register::B), ShiftOp::Rot, ShiftMode::RZ80),
            0b00_011_001 => CPU::rot_right_step(c, b, Operand::Direct(Register::C), ShiftOp::Rot, ShiftMode::RZ80),
            0b00_011_010 => CPU::rot_right_step(c, b, Operand::Direct(Register::D), ShiftOp::Rot, ShiftMode::RZ80),
            0b00_011_011 => CPU::rot_right_step(c, b, Operand::Direct(Register::E), ShiftOp::Rot, ShiftMode::RZ80),
            0b00_011_100 => CPU::rot_right_step(c, b, Operand::Direct(Register::H), ShiftOp::Rot, ShiftMode::RZ80),
            0b00_011_101 => CPU::rot_right_step(c, b, Operand::Direct(Register::L), ShiftOp::Rot, ShiftMode::RZ80),
            0b00_011_110 => CPU::rot_right_step(c, b, Operand::Indirect(RegIndirect::HL), ShiftOp::Rot, ShiftMode::RZ80),
            0b00_011_111 => CPU::rot_right_step(c, b, Operand::Direct(Register::A), ShiftOp::Rot, ShiftMode::RZ80),
            0b00_100_000 => CPU::rot_left_step(c, b, Operand::Direct(Register::B), ShiftOp::ShiftA, ShiftMode::RZ80),
            0b00_100_001 => CPU::rot_left_step(c, b, Operand::Direct(Register::C), ShiftOp::ShiftA, ShiftMode::RZ80),
            0b00_100_010 => CPU::rot_left_step(c, b, Operand::Direct(Register::D), ShiftOp::ShiftA, ShiftMode::RZ80),
            0b00_100_011 => CPU::rot_left_step(c, b, Operand::Direct(Register::E), ShiftOp::ShiftA, ShiftMode::RZ80),
            0b00_100_100 => CPU::rot_left_step(c, b, Operand::Direct(Register::H), ShiftOp::ShiftA, ShiftMode::RZ80),
            0b00_100_101 => CPU::rot_left_step(c, b, Operand::Direct(Register::L), ShiftOp::ShiftA, ShiftMode::RZ80),
            0b00_100_110 => CPU::rot_left_step(c, b, Operand::Indirect(RegIndirect::HL), ShiftOp::ShiftA, ShiftMode::RZ80),
            0b00_100_111 => CPU::rot_left_step(c, b, Operand::Direct(Register::A), ShiftOp::ShiftA, ShiftMode::RZ80),
            0b00_101_000 => CPU::rot_right_step(c, b, Operand::Direct(Register::B), ShiftOp::ShiftA, ShiftMode::RZ80),
            0b00_101_001 => CPU::rot_right_step(c, b, Operand::Direct(Register::C), ShiftOp::ShiftA, ShiftMode::RZ80),
            0b00_101_010 => CPU::rot_right_step(c, b, Operand::Direct(Register::D), ShiftOp::ShiftA, ShiftMode::RZ80),
            0b00_101_011 => CPU::rot_right_step(c, b, Operand::Direct(Register::E), ShiftOp::ShiftA, ShiftMode::RZ80),
            0b00_101_100 => CPU::rot_right_step(c, b, Operand::Direct(Register::H), ShiftOp::ShiftA, ShiftMode::RZ80),
            0b00_101_101 => CPU::rot_right_step(c, b, Operand::Direct(Register::L), ShiftOp::ShiftA, ShiftMode::RZ80),
            0b00_101_110 => CPU::rot_right_step(c, b, Operand::Indirect(RegIndirect::HL), ShiftOp::ShiftA, ShiftMode::RZ80),
            0b00_101_111 => CPU::rot_right_step(c, b, Operand::Direct(Register::A), ShiftOp::ShiftA, ShiftMode::RZ80),
            0b00_110_000 => CPU::rot_left_step(c, b, Operand::Direct(Register::B), ShiftOp::ShiftL, ShiftMode::RZ80),
            0b00_110_001 => CPU::rot_left_step(c, b, Operand::Direct(Register::C), ShiftOp::ShiftL, ShiftMode::RZ80),
            0b00_110_010 => CPU::rot_left_step(c, b, Operand::Direct(Register::D), ShiftOp::ShiftL, ShiftMode::RZ80),
            0b00_110_011 => CPU::rot_left_step(c, b, Operand::Direct(Register::E), ShiftOp::ShiftL, ShiftMode::RZ80),
            0b00_110_100 => CPU::rot_left_step(c, b, Operand::Direct(Register::H), ShiftOp::ShiftL, ShiftMode::RZ80),
            0b00_110_101 => CPU::rot_left_step(c, b, Operand::Direct(Register::L), ShiftOp::ShiftL, ShiftMode::RZ80),
            0b00_110_110 => CPU::rot_left_step(c, b, Operand::Indirect(RegIndirect::HL), ShiftOp::ShiftL, ShiftMode::RZ80),
            0b00_110_111 => CPU::rot_left_step(c, b, Operand::Direct(Register::A), ShiftOp::ShiftL, ShiftMode::RZ80),
            0b00_111_000 => CPU::rot_right_step(c, b, Operand::Direct(Register::B), ShiftOp::ShiftL, ShiftMode::RZ80),
            0b00_111_001 => CPU::rot_right_step(c, b, Operand::Direct(Register::C), ShiftOp::ShiftL, ShiftMode::RZ80),
            0b00_111_010 => CPU::rot_right_step(c, b, Operand::Direct(Register::D), ShiftOp::ShiftL, ShiftMode::RZ80),
            0b00_111_011 => CPU::rot_right_step(c, b, Operand::Direct(Register::E), ShiftOp::ShiftL, ShiftMode::RZ80),
            0b00_111_100 => CPU::rot_right_step(c, b, Operand::Direct(Register::H), ShiftOp::ShiftL, ShiftMode::RZ80),
            0b00_111_101 => CPU::rot_right_step(c, b, Operand::Direct(Register::L), ShiftOp::ShiftL, ShiftMode::RZ80),
            0b00_111_110 => CPU::rot_right_step(c, b, Operand::Indirect(RegIndirect::HL), ShiftOp::ShiftL, ShiftMode::RZ80),
            0b00_111_111 => CPU::rot_right_step(c, b, Operand::Direct(Register::A), ShiftOp::ShiftL, ShiftMode::RZ80),
            _ => CPU::error_step(c, b),
        }
    }

    /// The `CB` plane's `BIT n, src` tests (opcodes 0x40-0x7F).
    /// Opcodes outside this quarter never reach it.
    pub open spec fn cb_step_40(c: CPU, b: BusV, opcode: u8) -> (CPU, BusV) {
        match opcode {
            0b01_000_000 => CPU::bit_step(c, b, 0, Operand::Direct(Register::B)),
            0b01_000_001 => CPU::bit_step(c, b, 0, Operand::Direct(Register::C)),
            0b01_000_010 => CPU::bit_step(c, b, 0, Operand::Direct(Register::D)),
            0b01_000_011 => CPU::bit_step(c, b, 0, Operand::Direct(Register::E)),
            0b01_000_100 => CPU::bit_step(c, b, 0, Operand::Direct(Register::H)),
            0b01_000_101 => CPU::bit_step(c, b, 0, Operand::Direct(Register::L)),
            0b01_000_110 => CPU::bit_step(c, b, 0, Operand::Indirect(RegIndirect::HL)),
            0b01_000_111 => CPU::bit_step(c, b, 0, Operand::Direct(Register::A)),
            0b01_001_000 => CPU::bit_step(c, b, 1, Operand::Direct(Register::B)),
            0b01_001_001 => CPU::bit_step(c, b, 1, Operand::Direct(Register::C)),
            0b01_001_010 => CPU::bit_step(c, b, 1, Operand::Direct(Register::D)),
            0b01_001_011 => CPU::bit_step(c, b, 1, Operand::Direct(Register::E)),
            0b01_001_100 => CPU::bit_step(c, b, 1, Operand::Direct(Register::H)),
            0b01_001_101 => CPU::bit_step(c, b, 1, Operand::Direct(Register::L)),
            0b01_001_110 => CPU::bit_step(c, b, 1, Operand::Indirect(RegIndirect::HL)),
            0b01_001_111 => CPU::bit_step(c, b, 1, Operand::Direct(Register::A)),
            0b01_010_000 => CPU::bit_step(c, b, 2, Operand::Direct(Register::B)),
            0b01_010_001 => CPU::bit_step(c, b, 2, Operand::Direct(Register::C)),
            0b01_010_010 => CPU::bit_step(c, b, 2, Operand::Direct(Register::D)),
            0b01_010_011 => CPU::bit_step(c, b, 2, Operand::Direct(Register::E)),
            0b01_010_100 => CPU::bit_step(c, b, 2, Operand::Direct(Register::H)),
            0b01_010_101 => CPU::bit_step(c, b, 2, Operand::Direct(Register::L)),
            0b01_010_110 => CPU::bit_step(c, b, 2, Operand::Indirect(RegIndirect::HL)),
            0b01_010_111 => CPU::bit_step(c, b, 2, Operand::Direct(Register::A)),
            0b01_011_000 => CPU::bit_step(c, b, 3, Operand::Direct(Register::B)),
            0b01_011_001 => CPU::bit_step(c, b, 3, Operand::Direct(Register::C)),
            0b01_011_010 => CPU::bit_step(c, b, 3, Operand::Direct(Register::D)),
            0b01_011_011 => CPU::bit_step(c, b, 3, Operand::Direct(Register::E)),
            0b01_011_100 => CPU::bit_step(c, b, 3, Operand::Direct(Register::H)),
            0b01_011_101 => CPU::bit_step(c, b, 3, Operand::Direct(Register::L)),
            0b01_011_110 => CPU::bit_step(c, b, 3, Operand::Indirect(RegIndirect::HL)),
            0b01_011_111 => CPU::bit_step(c, b, 3, Operand::Direct(Register::A)),
            0b01_100_000 => CPU::bit_step(c, b, 4, Operand::Direct(Register::B)),
            0b01_100_001 => CPU::bit_step(c, b, 4, Operand::Direct(Register::C)),
            0b01_100_010 => CPU::bit_step(c, b, 4, Operand::Direct(Register::D)),
            0b01_100_011 => CPU::bit_step(c, b, 4, Operand::Direct(Register::E)),
            0b01_100_100 => CPU::bit_step(c, b, 4, Operand::Direct(Register::H)),
            0b01_100_101 => CPU::bit_step(c, b, 4, Operand::Direct(Register::L)),
            0b01_100_110 => CPU::bit_step(c, b, 4, Operand::Indirect(RegIndirect::HL)),
            0b01_100_111 => CPU::bit_step(c, b, 4, Operand::Direct(Register::A)),
            0b01_101_000 => CPU::bit_step(c, b, 5, Operand::Direct(Register::B)),
            0b01_101_001 => CPU::bit_step(c, b, 5, Operand::Direct(Register::C)),
            0b01_101_010 => CPU::bit_step(c, b, 5, Operand::Direct(Register::D)),
            0b01_101_011 => CPU::bit_step(c, b, 5, Operand::Direct(Register::E)),
            0b01_101_100 => CPU::bit_step(c, b, 5, Operand::Direct(Register::H)),
            0b01_101_101 => CPU::bit_step(c, b, 5, Operand::Direct(Register::L)),
            0b01_101_110 => CPU::bit_step(c, b, 5, Operand::Indirect(RegIndirect::HL)),
            0b01_101_111 => CPU::bit_step(c, b, 5, Operand::Direct(Register::A)),
            0b01_110_000 => CPU::bit_step(c, b, 6, Operand::Direct(Register::B)),
            0b01_110_001 => CPU::bit_step(c, b, 6, Operand::Direct(Register::C)),
            0b01_110_010 => CPU::bit_step(c, b, 6, Operand::Direct(Register::D)),
            0b01_110_011 => CPU::bit_step(c, b, 6, Operand::Direct(Register::E)),
            0b01_110_100 => CPU::bit_step(c, b, 6, Operand::Direct(Register::H)),
            0b01_110_101 => CPU::bit_step(c, b, 6, Operand::Direct(Register::L)),
            0b01_110_110 => CPU::bit_step(c, b, 6, Operand::Indirect(RegIndirect::HL)),
            0b01_110_111 => CPU::bit_step(c, b, 6, Operand::Direct(Register::A)),
            0b01_111_000 => CPU::bit_step(c, b, 7, Operand::Direct(Register::B)),
            0b01_111_001 => CPU::bit_step(c, b, 7, Operand::Direct(Register::C)),
            0b01_111_010 => CPU::bit_step(c, b, 7, Operand::Direct(Register::D)),
            0b01_111_011 => CPU::bit_step(c, b, 7, Operand::Direct(Register::E)),
            0b01_111_100 => CPU::bit_step(c, b, 7, Operand::Direct(Register::H)),
            0b01_111_101 => CPU::bit_step(c, b, 7, Operand::Direct(Register::L)),
            0b01_111_110 => CPU::bit_step(c, b, 7, Operand::Indirect(RegIndirect::HL)),
            0b01_111_111 => CPU::bit_step(c, b, 7, Operand::Direct(Register::A)),
            _ => CPU::error_step(c, b),
        }
    }

    /// The `CB` plane's `RES n, src` bit clears (opcodes 0x80-0xBF).
    /// Opcodes outside this quarter never reach it.
    pub open spec fn cb_step_80(c: CPU, b: BusV, opcode: u8) -> (CPU, BusV) {
        match opcode {
            0b10_000_000 => CPU::res_step(c, b, 0, Operand::Direct(Register::B)),
            0b10_000_001 => CPU::res_step(c, b, 0, Operand::Direct(Register::C)),
            0b10_000_010 => CPU::res_step(c, b, 0, Operand::Direct(Register::D)),
            0b10_000_011 => CPU::res_step(c, b, 0, Operand::Direct(Register::E)),
            0b10_000_100 => CPU::res_step(c, b, 0, Operand::Direct(Register::H)),
            0b10_000_101 => CPU::res_step(c, b, 0, Operand::Direct(Register::L)),
            0b10_000_110 => CPU::res_step(c, b, 0, Operand::Indirect(RegIndirect::HL)),
            0b10_000_111 => CPU::res_step(c, b, 0, Operand::Direct(Register::A)),
            0b10_001_000 => CPU::res_step(c, b, 1, Operand::Direct(Register::B)),
            0b10_001_001 => CPU::res_step(c, b, 1, Operand::Direct(Register::C)),
            0b10_001_010 => CPU::res_step(c, b, 1, Operand::Direct(Register::D)),
            0b10_001_011 => CPU::res_step(c, b, 1, Operand::Direct(Register::E)),
            0b10_001_100 => CPU::res_step(c, b, 1, Operand::Direct(Register::H)),
            0b10_001_101 => CPU::res_step(c, b, 1, Operand::Direct(Register::L)),
            0b10_001_110 => CPU::res_step(c, b, 1, Operand::Indirect(RegIndirect::HL)),
            0b10_001_111 => CPU::res_step(c, b, 1, Operand::Direct(Register::A)),
            0b10_010_000 => CPU::res_step(c, b, 2, Operand::Direct(Register::B)),
            0b10_010_001 => CPU::res_step(c, b, 2, Operand::Direct(Register::C)),
            0b10_010_010 => CPU::res_step(c, b, 2, Operand::Direct(Register::D)),
            0b10_010_011 => CPU::res_step(c, b, 2, Operand::Direct(Register::E)),
            0b10_010_100 => CPU::res_step(c, b, 2, Operand::Direct(Register::H)),
            0b10_010_101 => CPU::res_step(c, b, 2, Operand::Direct(Register::L)),
            0b10_010_110 => CPU::res_step(c, b, 2, Operand::Indirect(RegIndirect::HL)),
            0b10_010_111 => CPU::res_step(c, b, 2, Operand::Direct(Register::A)),
            0b10_011_000 => CPU::res_step(c, b, 3, Operand::Direct(Register::B)),
            0b10_011_001 => CPU::res_step(c, b, 3, Operand::Direct(Register::C)),
            0b10_011_010 => CPU::res_step(c, b, 3, Operand::Direct(Register::D)),
            0b10_011_011 => CPU::res_step(c, b, 3, Operand::Direct(Register::E)),
            0b10_011_100 => CPU::res_step(c, b, 3, Operand::Direct(Register::H)),
            0b10_011_101 => CPU::res_step(c, b, 3, Operand::Direct(Register::L)),
            0b10_011_110 => CPU::res_step(c, b, 3, Operand::Indirect(RegIndirect::HL)),
            0b10_011_111 => CPU::res_step(c, b, 3, Operand::Direct(Register::A)),
            0b10_100_000 => CPU::res_step(c, b, 4, Operand::Direct(Register::B)),
            0b10_100_001 => CPU::res_step(c, b, 4, Operand::Direct(Register::C)),
            0b10_100_010 => CPU::res_step(c, b, 4, Operand::Direct(Register::D)),
            0b10_100_011 => CPU::res_step(c, b, 4, Operand::Direct(Register::E)),
            0b10_100_100 => CPU::res_step(c, b, 4, Operand::Direct(Register::H)),
            0b10_100_101 => CPU::res_step(c, b, 4, Operand::Direct(Register::L)),
            0b10_100_110 => CPU::res_step(c, b, 4, Operand::Indirect(RegIndirect::HL)),
            0b10_100_111 => CPU::res_step(c, b, 4, Operand::Direct(Register::A)),
            0b10_101_000 => CPU::res_step(c, b, 5, Operand::Direct(Register::B)),
            0b10_101_001 => CPU::res_step(c, b, 5, Operand::Direct(Register::C)),
            0b10_101_010 => CPU::res_step(c, b, 5, Operand::Direct(Register::D)),
            0b10_101_011 => CPU::res_step(c, b, 5, Operand::Direct(Register::E)),
            0b10_101_100 => CPU::res_step(c, b, 5, Operand::Direct(Register::H)),
            0b10_101_101 => CPU::res_step(c, b, 5, Operand::Direct(Register::L)),
            0b10_101_110 => CPU::res_step(c, b, 5, Operand::Indirect(RegIndirect::HL)),
            0b10_101_111 => CPU::res_step(c, b, 5, Operand::Direct(Register::A)),
            0b10_110_000 => CPU::res_step(c, b, 6, Operand::Direct(Register::B)),
            0b10_110_001 => CPU::res_step(c, b, 6, Operand::Direct(Register::C)),
            0b10_110_010 => CPU::res_step(c, b, 6, Operand::Direct(Register::D)),
            0b10_110_011 => CPU::res_step(c, b, 6, Operand::Direct(Register::E)),
            0b10_110_100 => CPU::res_step(c, b, 6, Operand::Direct(Register::H)),
            0b10_110_101 => CPU::res_step(c, b, 6, Operand::Direct(Register::L)),
            0b10_110_110 => CPU::res_step(c, b, 6, Operand::Indirect(RegIndirect::HL)),
            0b10_110_111 => CPU::res_step(c, b, 6, Operand::Direct(Register::A)),
            0b10_111_000 => CPU::res_step(c, b, 7, Operand::Direct(Register::B)),
            0b10_111_001 => CPU::res_step(c, b, 7, Operand::Direct(Register::C)),
            0b10_111_010 => CPU::res_step(c, b, 7, Operand::Direct(Register::D)),
            0b10_111_011 => CPU::res_step(c, b, 7, Operand::Direct(Register::E)),
            0b10_111_100 => CPU::res_step(c, b, 7, Operand::Direct(Register::H)),
            0b10_111_101 => CPU::res_step(c, b, 7, Operand::Direct(Register::L)),
            0b10_111_110 => CPU::res_step(c, b, 7, Operand::Indirect(RegIndirect::HL)),
            0b10_111_111 => CPU::res_step(c, b, 7, Operand::Direct(Register::A)),
            _ => CPU::error_step(c, b),
        }
    }

    /// The `CB` plane's `SET n, src` bit sets (opcodes 0xC0-0xFF).
    /// Opcodes outside this quarter never reach it.
    pub open spec fn cb_step_c0(c: CPU, b: BusV, opcode: u8) -> (CPU, BusV) {
        match opcode {
            0b11_000_000 => CPU::set_step(c, b, 0, Operand::Direct(Register::B)),
            0b11_000_001 => CPU::set_step(c, b, 0, Operand::Direct(Register::C)),
            0b11_000_010 => CPU::set_step(c, b, 0, Operand::Direct(Register::D)),
            0b11_000_011 => CPU::set_step(c, b, 0, Operand::Direct(Register::E)),
            0b11_000_100 => CPU::set_step(c, b, 0, Operand::Direct(Register::H)),
            0b11_000_101 => CPU::set_step(c, b, 0, Operand::Direct(Register::L)),
            0b11_000_110 => CPU::set_step(c, b, 0, Operand::Indirect(RegIndirect::HL)),
            0b11_000_111 => CPU::set_step(c, b, 0, Operand::Direct(Register::A)),
            0b11_001_000 => CPU::set_step(c, b, 1, Operand::Direct(Register::B)),
            0b11_001_001 => CPU::set_step(c, b, 1, Operand::Direct(Register::C)),
            0b11_001_010 => CPU::set_step(c, b, 1, Operand::Direct(Register::D)),
            0b11_001_011 => CPU::set_step(c, b, 1, Operand::Direct(Register::E)),
            0b11_001_100 => CPU::set_step(c, b, 1, Operand::Direct(Register::H)),
            0b11_001_101 => CPU::set_step(c, b, 1, Operand::Direct(Register::L)),
            0b11_001_110 => CPU::set_step(c, b, 1, Operand::Indirect(RegIndirect::HL)),
            0b11_001_111 => CPU::set_step(c, b, 1, Operand::Direct(Register::A)),
            0b11_010_000 => CPU::set_step(c, b, 2, Operand::Direct(Register::B)),
            0b11_010_001 => CPU::set_step(c, b, 2, Operand::Direct(Register::C)),
            0b11_010_010 => CPU::set_step(c, b, 2, Operand::Direct(Register::D)),
            0b11_010_011 => CPU::set_step(c, b, 2, Operand::Direct(Register::E)),
            0b11_010_100 => CPU::set_step(c, b, 2, Operand::Direct(Register::H)),
            0b11_010_101 => CPU::set_step(c, b, 2, Operand::Direct(Register::L)),
            0b11_010_110 => CPU::set_step(c, b, 2, Operand::Indirect(RegIndirect::HL)),
            0b11_010_111 => CPU::set_step(c, b, 2, Operand::Direct(Register::A)),
            0b11_011_000 => CPU::set_step(c, b, 3, Operand::Direct(Register::B)),
            0b11_011_001 => CPU::set_step(c, b, 3, Operand::Direct(Register::C)),
            0b11_011_010 => CPU::set_step(c, b, 3, Operand::Direct(Register::D)),
            0b11_011_011 => CPU::set_step(c, b, 3, Operand::Direct(Register::E)),
            0b11_011_100 => CPU::set_step(c, b, 3, Operand::Direct(Register::H)),
            0b11_011_101 => CPU::set_step(c, b, 3, Operand::Direct(Register::L)),
            0b11_011_110 => CPU::set_step(c, b, 3, Operand::Indirect(RegIndirect::HL)),
            0b11_011_111 => CPU::set_step(c, b, 3, Operand::Direct(Register::A)),
            0b11_100_000 => CPU::set_step(c, b, 4, Operand::Direct(Register::B)),
            0b11_100_001 => CPU::set_step(c, b, 4, Operand::Direct(Register::C)),
            0b11_100_010 => CPU::set_step(c, b, 4, Operand::Direct(Register::D)),
            0b11_100_011 => CPU::set_step(c, b, 4, Operand::Direct(Register::E)),
            0b11_100_100 => CPU::set_step(c, b, 4, Operand::Direct(Register::H)),
            0b11_100_101 => CPU::set_step(c, b, 4, Operand::Direct(Register::L)),
            0b11_100_110 => CPU::set_step(c, b, 4, Operand::Indirect(RegIndirect::HL)),
            0b11_100_111 => CPU::set_step(c, b, 4, Operand::Direct(Register::A)),
            0b11_101_000 => CPU::set_step(c, b, 5, Operand::Direct(Register::B)),
            0b11_101_001 => CPU::set_step(c, b, 5, Operand::Direct(Register::C)),
            0b11_101_010 => CPU::set_step(c, b, 5, Operand::Direct(Register::D)),
            0b11_101_011 => CPU::set_step(c, b, 5, Operand::Direct(Register::E)),
            0b11_101_100 => CPU::set_step(c, b, 5, Operand::Direct(Register::H)),
            0b11_101_101 => CPU::set_step(c, b, 5, Operand::Direct(Register::L)),
            0b11_101_110 => CPU::set_step(c, b, 5, Operand::Indirect(RegIndirect::HL)),
            0b11_101_111 => CPU::set_step(c, b, 5, Operand::Direct(Register::A)),
            0b11_110_000 => CPU::set_step(c, b, 6, Operand::Direct(Register::B)),
            0b11_110_001 => CPU::set_step(c, b, 6, Operand::Direct(Register::C)),
            0b11_110_010 => CPU::set_step(c, b, 6, Operand::Direct(Register::D)),
            0b11_110_011 => CPU::set_step(c, b, 6, Operand::Direct(Register::E)),
            0b11_110_100 => CPU::set_step(c, b, 6, Operand::Direct(Register::H)),
            0b11_110_101 => CPU::set_step(c, b, 6, Operand::Direct(Register::L)),
            0b11_110_110 => CPU::set_step(c, b, 6, Operand::Indirect(RegIndirect::HL)),
            0b11_110_111 => CPU::set_step(c, b, 6, Operand::Direct(Register::A)),
            0b11_111_000 => CPU::set_step(c, b, 7, Operand::Direct(Register::B)),
            0b11_111_001 => CPU::set_step(c, b, 7, Operand::Direct(Register::C)),
            0b11_111_010 => CPU::set_step(c, b, 7, Operand::Direct(Register::D)),
            0b11_111_011 => CPU::set_step(c, b, 7, Operand::Direct(Register::E)),
            0b11_111_100 => CPU::set_step(c, b, 7, Operand::Direct(Register::H)),
            0b11_111_101 => CPU::set_step(c, b, 7, Operand::Direct(Register::L)),
            0b11_111_110 => CPU::set_step(c, b, 7, Operand::Indirect(RegIndirect::HL)),
            0b11_111_111 => CPU::set_step(c, b, 7, Operand::Direct(Register::A)),
            _ => CPU::error_step(c, b),
        }
    }

    /// The `CB` plane, decoded; exhaustive by construction.
    pub open spec fn cb_step(c: CPU, b: BusV, opcode: u8) -> (CPU, BusV) {
        if opcode < 0x40 {
            CPU::cb_step_00(c, b, opcode)
        } else if opcode < 0x80 {
            CPU::cb_step_40(c, b, opcode)
        } else if opcode < 0xc0 {
            CPU::cb_step_80(c, b, opcode)
        } else {
            CPU::cb_step_c0(c, b, opcode)
        }
    }

    /// The `DD`/`FD` planes, decoded with HL replaced by the index register;
    /// unlisted opcodes are illegal and halt.
    pub open spec fn index_step(c: CPU, b: BusV, opcode: u8, index: RegIndex) -> (CPU, BusV) {
        match opcode {
            0b00_001_001 => CPU::add16_step(c, b, index.to_register_spec(), Register::BC, false),
            0b00_011_001 => CPU::add16_step(c, b, index.to_register_spec(), Register::DE, false),
            0b00_101_001 => CPU::add16_step(c, b, index.to_register_spec(), index.to_register_spec(), false),
            0b00_111_001 => CPU::add16_step(c, b, index.to_register_spec(), Register::SP, false),
            0b00_100_011 => CPU::inc16_step(c, b, Operand::Direct(index.to_register_spec())),
            0b00_101_011 => CPU::dec16_step(c, b, Operand::Direct(index.to_register_spec())),
            0b00_100_001 => CPU::ld_step(c, b, Operand::Immediate16, Operand::Direct(index.to_register_spec())),
            0b00_100_010 => CPU::ld_step(c, b, Operand::Direct(index.to_register_spec()), Operand::Extended16),
            0b00_101_010 => CPU::ld_step(c, b, Operand::Extended16, Operand::Direct(index.to_register_spec())),
            0b00_110_100 => CPU::inc_step(
                c.with_pc(wadd16(c.sr.pc, 1)),
                b,
                CPU::resolved_index(c, b, index),
            ),
            0b00_110_101 => CPU::dec_step(
                c.with_pc(wadd16(c.sr.pc, 1)),
                b,
                CPU::resolved_index(c, b, index),
            ),
            0b00_110_110 => CPU::ld_step(
                c.with_pc(wadd16(c.sr.pc, 1)),
                b,
                Operand::Immediate,
                CPU::resolved_index(c, b, index),
            ),
            0b01_000_110 => CPU::ld_step(c, b, Operand::Indexed(index), Operand::Direct(Register::B)),
            0b01_001_110 => CPU::ld_step(c, b, Operand::Indexed(index), Operand::Direct(Register::C)),
            0b01_010_110 => CPU::ld_step(c, b, Operand::Indexed(index), Operand::Direct(Register::D)),
            0b01_011_110 => CPU::ld_step(c, b, Operand::Indexed(index), Operand::Direct(Register::E)),
            0b01_100_110 => CPU::ld_step(c, b, Operand::Indexed(index), Operand::Direct(Register::H)),
            0b01_101_110 => CPU::ld_step(c, b, Operand::Indexed(index), Operand::Direct(Register::L)),
            0b01_111_110 => CPU::ld_step(c, b, Operand::Indexed(index), Operand::Direct(Register::A)),
            0b01_110_000 => CPU::ld_step(c, b, Operand::Direct(Register::B), Operand::Indexed(index)),
            0b01_110_001 => CPU::ld_step(c, b, Operand::Direct(Register::C), Operand::Indexed(index)),
            0b01_110_010 => CPU::ld_step(c, b, Operand::Direct(Register::D), Operand::Indexed(index)),
            0b01_110_011 => CPU::ld_step(c, b, Operand::Direct(Register::E), Operand::Indexed(index)),
            0b01_110_100 => CPU::ld_step(c, b, Operand::Direct(Register::H), Operand::Indexed(index)),
            0b01_110_101 => CPU::ld_step(c, b, Operand::Direct(Register::L), Operand::Indexed(index)),
            0b01_110_111 => CPU::ld_step(c, b, Operand::Direct(Register::A), Operand::Indexed(index)),
            0b10_000_110 => CPU::add_a_step(c, b, Operand::Indexed(index), false),
            0b10_001_110 => CPU::add_a_step(c, b, Operand::Indexed(index), true),
            0b10_010_110 => CPU::sub_a_step(c, b, Operand::Indexed(index), false, true),
            0b10_011_110 => CPU::sub_a_step(c, b, Operand::Indexed(index), true, true),
            0b10_100_110 => CPU::and_a_step(c, b, Operand::Indexed(index)),
            0b10_101_110 => CPU::xor_a_step(c, b, Operand::Indexed(index)),
            0b10_110_110 => CPU::or_a_step(c, b, Operand::Indexed(index)),
            0b10_111_110 => CPU::sub_a_step(c, b, Operand::Indexed(index), false, false),
            0b11_100_001 => CPU::pop_step(c, b, Operand::Direct(index.to_register_spec())),
            0b11_100_101 => CPU::push_step(c, b, Operand::Direct(index.to_register_spec())),
            0b11_101_001 => CPU::jp_step(c, b, Operand::Direct(index.to_register_spec()), None),
            0b11_001_011 => CPU::index_bits_plane(c, b, index),
            _ => CPU::error_step(c, b),
        }
    }

    /// The `DD CB`/`FD CB` planes, decoded against the resolved indexed
    /// operand; unlisted opcodes are illegal and halt.
    pub open spec fn index_bits_step(c: CPU, b: BusV, opcode: u8, arg: Operand) -> (CPU, BusV) {
        match opcode {
            0b00_000_110 => CPU::rot_left_step(c, b, arg, ShiftOp::RotC, ShiftMode::RZ80),
            0b00_001_110 => CPU::rot_right_step(c, b, arg, ShiftOp::RotC, ShiftMode::RZ80),
            0b00_010_110 => CPU::rot_left_step(c, b, arg, ShiftOp::Rot, ShiftMode::RZ80),
            0b00_011_110 => CPU::rot_right_step(c, b, arg, ShiftOp::Rot, ShiftMode::RZ80),
            0b00_100_110 => CPU::rot_left_step(c, b, arg, ShiftOp::ShiftA, ShiftMode::RZ80),
            0b00_101_110 => CPU::rot_right_step(c, b, arg, ShiftOp::ShiftA, ShiftMode::RZ80),
            0b00_110_110 => CPU::rot_left_step(c, b, arg, ShiftOp::ShiftL, ShiftMode::RZ80),
            0b00_111_110 => CPU::rot_right_step(c, b, arg, ShiftOp::ShiftL, ShiftMode::RZ80),
            0b01_000_110 => CPU::bit_step(c, b, 0, arg),
            0b01_001_110 => CPU::bit_step(c, b, 1, arg),
            0b01_010_110 => CPU::bit_step(c, b, 2, arg),
            0b01_011_110 => CPU::bit_step(c, b, 3, arg),
            0b01_100_110 => CPU::bit_step(c, b, 4, arg),
            0b01_101_110 => CPU::bit_step(c, b, 5, arg),
            0b01_110_110 => CPU::bit_step(c, b, 6, arg),
            0b01_111_110 => CPU::bit_step(c, b, 7, arg),
            0b10_000_110 => CPU::res_step(c, b, 0, arg),
            0b10_001_110 => CPU::res_step(c, b, 1, arg),
            0b10_010_110 => CPU::res_step(c, b, 2, arg),
            0b10_011_110 => CPU::res_step(c, b, 3, arg),
            0b10_100_110 => CPU::res_step(c, b, 4, arg),
            0b10_101_110 => CPU::res_step(c, b, 5, arg),
            0b10_110_110 => CPU::res_step(c, b, 6, arg),
            0b10_111_110 => CPU::res_step(c, b, 7, arg),
            0b11_000_110 => CPU::set_step(c, b, 0, arg),
            0b11_001_110 => CPU::set_step(c, b, 1, arg),
            0b11_010_110 => CPU::set_step(c, b, 2, arg),
            0b11_011_110 => CPU::set_step(c, b, 3, arg),
            0b11_100_110 => CPU::set_step(c, b, 4, arg),
            0b11_101_110 => CPU::set_step(c, b, 5, arg),
            0b11_110_110 => CPU::set_step(c, b, 6, arg),
            0b11_111_110 => CPU::set_step(c, b, 7, arg),
            _ => CPU::error_step(c, b),
        }
    }
}

} // verus!

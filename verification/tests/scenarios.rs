use z180emu::bus::{Bus, Interrupt, Peripheral};
use z180emu::cpu::enums::{Mode, Register, FLAG_C, FLAG_H, FLAG_N, FLAG_P, FLAG_S, FLAG_Z};
use z180emu::cpu::CPU;
use z180emu::ram::RAM;
use z180emu::reg::Reg;

fn machine(program: &[u8]) -> (CPU, Bus) {
    let mut bus = Bus::new();
    let mut cpu = CPU::new();
    let mut ram = RAM::new(0x0000, 0x10000);
    ram.write(0x0000, program);
    bus.add(Peripheral::Ram(ram));
    cpu.reset();
    (cpu, bus)
}

// Load `3E 70 / 06 30 / 80`, reset, step three instructions: A then B load,
// and the add overflows into the sign bit.
#[test]
fn scenario_immediate_add() {
    let (mut cpu, mut bus) = machine(&[0x3e, 0x70, 0x06, 0x30, 0x80]);
    cpu.cycle(&mut bus);
    assert_eq!(cpu.reg(Register::A), 0x70);
    cpu.cycle(&mut bus);
    assert_eq!(cpu.reg(Register::B), 0x30);
    cpu.cycle(&mut bus);
    assert_eq!(cpu.reg(Register::A), 0xa0);
    assert_eq!(cpu.flags() & FLAG_S, FLAG_S);
    assert_eq!(cpu.flags() & FLAG_P, FLAG_P);
}

// Seven ticks of 16-bit loads and increments; DE wraps through zero and the
// uninitialised SP wraps to one.
#[test]
fn scenario_inc16_wrap() {
    let (mut cpu, mut bus) = machine(&[
        0x01, 0x99, 0x14, // ld bc, $1499
        0x11, 0xff, 0xff, // ld de, $ffff
        0x21, 0xff, 0x7f, // ld hl, $7fff
        0x03, // inc bc
        0x13, // inc de
        0x23, // inc hl
        0x33, // inc sp
    ]);
    for _ in 0..7 {
        cpu.cycle(&mut bus);
    }
    assert_eq!(cpu.reg(Register::BC), 0x149a);
    assert_eq!(cpu.reg(Register::DE), 0x0000);
    assert_eq!(cpu.reg(Register::HL), 0x8000);
    assert_eq!(cpu.reg(Register::SP), 0x0001);
}

// One `LDI` tick moves a byte from (HL) to (DE) and steps the pointers.
#[test]
fn scenario_ldi() {
    let (mut cpu, mut bus) = machine(&[0xed, 0xa0]);
    bus.mem_write(0x0100, 0xab);
    cpu.write_reg(Register::HL, 0x0100);
    cpu.write_reg(Register::DE, 0x0200);
    cpu.write_reg(Register::BC, 0x0005);
    cpu.cycle(&mut bus);
    assert_eq!(cpu.reg(Register::HL), 0x0101);
    assert_eq!(cpu.reg(Register::DE), 0x0201);
    assert_eq!(cpu.reg(Register::BC), 0x0004);
    assert_eq!(bus.mem_read(0x0200, false), 0xab);
}

// `BIT 0, B` with B = 1: the tested bit is set, so Z is reset; H set, N
// reset.
#[test]
fn scenario_bit() {
    let (mut cpu, mut bus) = machine(&[0xcb, 0x40]);
    cpu.write_reg(Register::B, 0x01);
    cpu.cycle(&mut bus);
    assert_eq!(cpu.flags() & FLAG_Z, 0);
    assert_eq!(cpu.flags() & FLAG_H, FLAG_H);
    assert_eq!(cpu.flags() & FLAG_N, 0);
}

// The boundary case of the adder: 0x7F + 0x01 overflows into the sign.
#[test]
fn add_boundary_overflow() {
    let (mut cpu, mut bus) = machine(&[0x80]);
    cpu.write_reg(Register::A, 0x7f);
    cpu.write_reg(Register::B, 0x01);
    cpu.cycle(&mut bus);
    assert_eq!(cpu.reg(Register::A), 0x80);
    assert_eq!(cpu.flags(), FLAG_S | FLAG_H | FLAG_P);
}

// The boundary case of the subtractor: 0x00 - 0x01 borrows everywhere but
// does not overflow.
#[test]
fn sub_boundary_borrow() {
    let (mut cpu, mut bus) = machine(&[0x90]);
    cpu.write_reg(Register::A, 0x00);
    cpu.write_reg(Register::B, 0x01);
    cpu.cycle(&mut bus);
    assert_eq!(cpu.reg(Register::A), 0xff);
    assert_eq!(cpu.flags(), FLAG_S | FLAG_H | FLAG_N | FLAG_C);
}

// Open bus: an address claimed by no peripheral reads as 0xFF, in memory
// space and IO space alike.
#[test]
fn open_bus_reads_ff() {
    let mut bus = Bus::new();
    assert_eq!(bus.mem_read(0x1234, false), 0xff);
    assert_eq!(bus.io_read(0x56), 0xff);

    let mut small = Bus::new();
    small.add(Peripheral::Ram(RAM::new(0x0000, 0x100)));
    assert_eq!(small.mem_read(0x0100, false), 0xff, "just past the end of the memory");
    small.mem_write(0x0050, 0x42);
    assert_eq!(small.mem_read(0x0050, false), 0x42);
}

// A plain IO register peripheral answers its own port and nothing else.
#[test]
fn io_register_peripheral() {
    let mut bus = Bus::new();
    bus.add(Peripheral::Reg(Reg::new(0x5a, 0x00c0)));
    assert_eq!(bus.io_read(0x00c0), 0x5a);
    assert_eq!(bus.io_read(0x00c1), 0xff);
    bus.io_write(0x00c0, 0x99);
    assert_eq!(bus.io_read(0x00c0), 0x99);
    assert_eq!(bus.cycle(), None::<Interrupt>);
}

// `PUSH BC; POP DE` round-trips the value through the stack and restores SP.
#[test]
fn push_pop_round_trip() {
    let (mut cpu, mut bus) = machine(&[0xc5, 0xd1]);
    cpu.write_reg(Register::SP, 0x8000);
    cpu.write_reg(Register::BC, 0xbeef);
    cpu.cycle(&mut bus);
    assert_eq!(cpu.reg(Register::SP), 0x7ffe);
    cpu.cycle(&mut bus);
    assert_eq!(cpu.reg(Register::DE), 0xbeef);
    assert_eq!(cpu.reg(Register::SP), 0x8000);
}

// `EXX` twice and `EX AF,AF'` twice restore the main bank; `EX DE,HL` twice
// restores the pairs.
#[test]
fn exchange_twice_restores() {
    let (mut cpu, mut bus) = machine(&[0xd9, 0xd9, 0x08, 0x08, 0xeb, 0xeb]);
    cpu.write_reg(Register::AF, 0x1234);
    cpu.write_reg(Register::BC, 0x5678);
    cpu.write_reg(Register::DE, 0x9abc);
    cpu.write_reg(Register::HL, 0xdef0);
    for _ in 0..6 {
        cpu.cycle(&mut bus);
    }
    assert_eq!(cpu.reg(Register::AF), 0x1234);
    assert_eq!(cpu.reg(Register::BC), 0x5678);
    assert_eq!(cpu.reg(Register::DE), 0x9abc);
    assert_eq!(cpu.reg(Register::HL), 0xdef0);
}

// `EX (SP),HL` twice restores HL and the stack word.
#[test]
fn exchange_sp_twice_restores() {
    let (mut cpu, mut bus) = machine(&[0xe3, 0xe3]);
    cpu.write_reg(Register::SP, 0x4000);
    cpu.write_reg(Register::HL, 0x55aa);
    bus.mem_write(0x4000, 0x11);
    bus.mem_write(0x4001, 0x22);
    cpu.cycle(&mut bus);
    assert_eq!(cpu.reg(Register::HL), 0x2211);
    assert_eq!(bus.mem_read(0x4000, false), 0xaa);
    assert_eq!(bus.mem_read(0x4001, false), 0x55);
    cpu.cycle(&mut bus);
    assert_eq!(cpu.reg(Register::HL), 0x55aa);
    assert_eq!(bus.mem_read(0x4000, false), 0x11);
    assert_eq!(bus.mem_read(0x4001, false), 0x22);
}

// `CPL; CPL` is the identity on A.
#[test]
fn cpl_twice_is_identity() {
    let (mut cpu, mut bus) = machine(&[0x2f, 0x2f]);
    cpu.write_reg(Register::A, 0x5c);
    cpu.cycle(&mut bus);
    assert_eq!(cpu.reg(Register::A), 0xa3);
    assert_eq!(cpu.flags() & (FLAG_H | FLAG_N), FLAG_H | FLAG_N);
    cpu.cycle(&mut bus);
    assert_eq!(cpu.reg(Register::A), 0x5c);
}

// Register writes followed by reads return the written value for every
// register name, including the 8-bit halves.
#[test]
fn register_write_read_round_trip() {
    let mut cpu = CPU::new();
    let wide = [
        Register::AF,
        Register::BC,
        Register::DE,
        Register::HL,
        Register::IX,
        Register::IY,
        Register::SP,
        Register::PC,
    ];
    for r in &wide {
        cpu.write_reg(*r, 0xa55a);
        assert_eq!(cpu.reg(*r), 0xa55a, "{:?}", r);
    }
    let narrow = [
        Register::A,
        Register::F,
        Register::B,
        Register::C,
        Register::D,
        Register::E,
        Register::H,
        Register::L,
        Register::I,
        Register::R,
    ];
    for r in &narrow {
        cpu.write_reg(*r, 0x7b);
        assert_eq!(cpu.reg(*r), 0x7b, "{:?}", r);
    }
    // writing one half must not tear the other
    cpu.write_reg(Register::BC, 0x1234);
    cpu.write_reg(Register::B, 0x56);
    assert_eq!(cpu.reg(Register::BC), 0x5634);
    cpu.write_reg(Register::C, 0x78);
    assert_eq!(cpu.reg(Register::BC), 0x5678);
}

// The MMU maps the default common area down to physical zero and relocates
// it by CBR once written; translation is stable between identical reads.
#[test]
fn mmu_translation() {
    let (mut cpu, mut bus) = machine(&[
        0x3e, 0x01, //          ld a, 1
        0xed, 0x39, 0x38, //    out0 ($38), a   ; CBR = 1
    ]);
    assert_eq!(cpu.to_phys(0x0100), 0x0100, "banked area is identity with BBR=0");
    assert_eq!(cpu.to_phys(0xf800), 0x0800, "common area maps down by its base");
    assert_eq!(cpu.to_phys(0xf800), cpu.to_phys(0xf800), "translation is stable");
    cpu.cycle(&mut bus);
    cpu.cycle(&mut bus);
    assert_eq!(cpu.to_phys(0xf800), 0x1800, "CBR relocates the common area");
    assert_eq!(cpu.reg(Register::PC), 0x0005);
}

// An opcode outside the sparse `ED` plane is illegal: the CPU halts and
// reports it through its mode.
#[test]
fn illegal_opcode_halts() {
    let (mut cpu, mut bus) = machine(&[0xed, 0x77]);
    assert_eq!(cpu.mode, Mode::OpCodeFetch);
    cpu.cycle(&mut bus);
    assert_eq!(cpu.mode, Mode::Halt);
    assert_eq!(cpu.reg(Register::PC), 0x0002, "PC is left past the consumed bytes");
    let pc = cpu.reg(Register::PC);
    cpu.cycle(&mut bus);
    assert_eq!(cpu.reg(Register::PC), pc, "halted ticks are no-ops");
}

// The sparse index planes halt on unlisted opcodes too.
#[test]
fn illegal_index_opcode_halts() {
    let (mut cpu, mut bus) = machine(&[0xdd, 0x00]);
    cpu.cycle(&mut bus);
    assert_eq!(cpu.mode, Mode::Halt);
    assert_eq!(cpu.reg(Register::PC), 0x0002);

    let (mut cpu2, mut bus2) = machine(&[0xfd, 0xcb, 0x01, 0x00]);
    cpu2.cycle(&mut bus2);
    assert_eq!(cpu2.mode, Mode::Halt);
    assert_eq!(cpu2.reg(Register::PC), 0x0004, "displacement and op byte are consumed");
}

// `LDIR` copies a block one byte per tick by rewinding PC, and finishes with
// BC = 0 and the destination identical to the source.
#[test]
fn ldir_copies_block() {
    let (mut cpu, mut bus) = machine(&[0xed, 0xb0]);
    let src = [0xde, 0xad, 0xbe, 0xef, 0x42];
    let mut k = 0u32;
    for b in &src {
        bus.mem_write(0x0100 + k, *b);
        k += 1;
    }
    cpu.write_reg(Register::HL, 0x0100);
    cpu.write_reg(Register::DE, 0x0200);
    cpu.write_reg(Register::BC, 0x0005);
    let mut steps = 0;
    while cpu.reg(Register::PC) == 0x0000 && steps < 100 {
        cpu.cycle(&mut bus);
        steps += 1;
    }
    assert_eq!(cpu.reg(Register::BC), 0x0000);
    assert_eq!(cpu.reg(Register::HL), 0x0105);
    assert_eq!(cpu.reg(Register::DE), 0x0205);
    for (i, b) in src.iter().enumerate() {
        assert_eq!(bus.mem_read(0x0200 + i as u32, false), *b);
    }
    assert_eq!(cpu.flags() & FLAG_P, 0, "P/V reset once BC is exhausted");
}

// `CPIR` stops on a match, with Z set and P/V showing the remaining count.
#[test]
fn cpir_finds_byte() {
    let (mut cpu, mut bus) = machine(&[0xed, 0xb1]);
    bus.mem_write(0x0100, 0x10);
    bus.mem_write(0x0101, 0x20);
    bus.mem_write(0x0102, 0x30);
    cpu.write_reg(Register::HL, 0x0100);
    cpu.write_reg(Register::BC, 0x0008);
    cpu.write_reg(Register::A, 0x20);
    let mut steps = 0;
    while cpu.reg(Register::PC) == 0x0000 && steps < 20 {
        cpu.cycle(&mut bus);
        steps += 1;
    }
    assert_eq!(cpu.reg(Register::HL), 0x0102, "HL stepped past the match");
    assert_eq!(cpu.reg(Register::BC), 0x0006);
    assert_eq!(cpu.flags() & FLAG_Z, FLAG_Z);
    assert_eq!(cpu.flags() & FLAG_P, FLAG_P, "BC still nonzero");
}

// `RST` pushes the return address and jumps to its vector, so `RET` resumes
// after the restart.
#[test]
fn rst_pushes_return_address() {
    let (mut cpu, mut bus) = machine(&[0x00, 0xdf]);
    bus.mem_write(0x0018, 0xc9); // the restart routine: ret
    cpu.write_reg(Register::SP, 0x8000);
    cpu.cycle(&mut bus);
    cpu.cycle(&mut bus); // rst $18
    assert_eq!(cpu.reg(Register::PC), 0x0018);
    assert_eq!(cpu.reg(Register::SP), 0x7ffe);
    cpu.cycle(&mut bus); // ret
    assert_eq!(cpu.reg(Register::PC), 0x0002);
    assert_eq!(cpu.reg(Register::SP), 0x8000);
}

// `DJNZ` loops until B runs out.
#[test]
fn djnz_loops() {
    let (mut cpu, mut bus) = machine(&[
        0x06, 0x03, //          ld b, 3
        0x3c, //                inc a
        0x10, 0xfd, //          djnz -3
    ]);
    for _ in 0..7 {
        cpu.cycle(&mut bus);
    }
    assert_eq!(cpu.reg(Register::B), 0);
    assert_eq!(cpu.reg(Register::A), 3, "the loop body ran once per count");
    assert_eq!(cpu.reg(Register::PC), 0x0005);
}

// The indexed plane reaches memory through IX plus a signed displacement.
#[test]
fn indexed_displacement() {
    let (mut cpu, mut bus) = machine(&[
        0xdd, 0x86, 0x05, //    add a, (ix+5)
        0xdd, 0x86, 0xfe, //    add a, (ix-2)
    ]);
    bus.mem_write(0x0205, 0x11);
    bus.mem_write(0x01fe, 0x22);
    cpu.write_reg(Register::IX, 0x0200);
    cpu.cycle(&mut bus);
    assert_eq!(cpu.reg(Register::A), 0x11);
    cpu.cycle(&mut bus);
    assert_eq!(cpu.reg(Register::A), 0x33, "negative displacements reach below IX");
}

// `HALT` leaves PC pointing at the halt opcode.
#[test]
fn halt_keeps_pc() {
    let (mut cpu, mut bus) = machine(&[0x00, 0x76]);
    cpu.cycle(&mut bus);
    cpu.cycle(&mut bus);
    assert_eq!(cpu.mode, Mode::Halt);
    assert_eq!(cpu.reg(Register::PC), 0x0001, "PC points at the halt opcode");
}

// `SRL`, `SRA` and the illegal `SLL` behave per the shifter table.
#[test]
fn shifter_table() {
    let (mut cpu, mut bus) = machine(&[
        0xcb, 0x38, //          srl b
        0xcb, 0x29, //          sra c
        0xcb, 0x32, //          sll d
    ]);
    cpu.write_reg(Register::B, 0x81);
    cpu.write_reg(Register::C, 0x81);
    cpu.write_reg(Register::D, 0x81);
    cpu.cycle(&mut bus);
    assert_eq!(cpu.reg(Register::B), 0x40);
    assert_eq!(cpu.flags() & FLAG_C, FLAG_C);
    cpu.cycle(&mut bus);
    assert_eq!(cpu.reg(Register::C), 0xc0, "SRA keeps the sign bit");
    cpu.cycle(&mut bus);
    assert_eq!(cpu.reg(Register::D), 0x03, "SLL shifts a one in");
}

// `RLD` rotates the three low nibbles left between A and (HL).
#[test]
fn rld_nibbles() {
    let (mut cpu, mut bus) = machine(&[0xed, 0x6f]);
    bus.mem_write(0x0100, 0x31);
    cpu.write_reg(Register::HL, 0x0100);
    cpu.write_reg(Register::A, 0x7a);
    cpu.cycle(&mut bus);
    assert_eq!(cpu.reg(Register::A), 0x73);
    assert_eq!(bus.mem_read(0x0100, false), 0x1a);
}

use z180emu::bus::{Bus, Peripheral};
use z180emu::cpu::enums::{Register, FLAG_C, FLAG_H, FLAG_N, FLAG_P, FLAG_S};
use z180emu::cpu::CPU;
use z180emu::ram::RAM;

fn boot16(program: &[u8]) -> (CPU, Bus) {
    let mut bus = Bus::new();
    let mut cpu = CPU::new();
    let mut ram = RAM::new(0x0000, 0x10000);
    ram.write(0x0000, program);
    bus.add(Peripheral::Ram(ram));
    cpu.reset();
    (cpu, bus)
}

#[test]
fn alu16_inc() {
    let (mut cpu, mut bus) = boot16(&[
        0x01, 0x99, 0x14, //    0x0000  ld bc, $1499
        0x11, 0xff, 0xff, //    0x0003  ld de, $ffff
        0x21, 0xff, 0x7f, //    0x0006  ld hl, $7fff
        0x03, //                        inc bc
        0x13, //                        inc de
        0x23, //                        inc hl
        0x33, //                        inc sp
    ]);
    for _ in 0..3 {
        cpu.cycle(&mut bus);
    }

    let expected = [
        (Register::BC, 0x149a),
        (Register::DE, 0x0000),
        (Register::HL, 0x8000),
        (Register::SP, 0x0001),
    ];

    for (reg, val) in &expected {
        cpu.cycle(&mut bus);
        assert_eq!(cpu.reg(*reg), *val);
    }
}

// The plain `ADD HL, ww` sets H from the carry out of bit 11, as the real
// CPU does; the flag expectations account for it.
#[test]
fn alu16_add_hl_ww() {
    let (mut cpu, mut bus) = boot16(&[
        0x01, 0x99, 0x14, //    ld bc, $1499
        0x11, 0xff, 0x3f, //    ld de, $3fff
        0x21, 0xff, 0x7f, //    ld hl, $7fff
        0x31, 0x11, 0x11, //    ld sp, $1111
        0x09, //                add hl, bc
        0x19, //                add hl, de
        0x29, //                add hl, hl
        0x39, //                add hl, sp
        0xed, 0x4a, //          adc hl, bc
        0xed, 0x5a, //          adc hl, de
        0xed, 0x6a, //          adc hl, hl
        0xed, 0x7a, //          adc hl, sp
        0xed, 0x5a, //          adc hl, de
        0xed, 0x5a, //          adc hl, de
    ]);
    for _ in 0..4 {
        cpu.cycle(&mut bus);
    }

    let expected = [
        ("ADD", Register::BC, 0x9498, FLAG_H),
        ("ADD", Register::DE, 0xd497, FLAG_H),
        ("ADD", Register::HL, 0xa92e, FLAG_C),
        ("ADD", Register::SP, 0xba3f, 0),
        ("ADC", Register::BC, 0xced8, FLAG_S),
        ("ADC", Register::DE, 0x0ed7, FLAG_H | FLAG_C),
        ("ADC", Register::HL, 0x1daf, FLAG_H),
        ("ADC", Register::SP, 0x2ec0, 0),
        ("ADC", Register::DE, 0x6ebf, FLAG_H),
        ("ADC", Register::DE, 0xaebe, FLAG_S | FLAG_P | FLAG_H),
    ];

    for (op, reg, val, flags) in &expected {
        cpu.cycle(&mut bus);
        assert_eq!(cpu.reg(Register::HL), *val, "{} HL, {:?}", *op, *reg);
        assert_eq!(cpu.flags(), *flags, "{} HL, {:?}", *op, *reg);
    }
}

// `SBC HL, ww` sets H from the borrow out of bit 12, as the real CPU does;
// the flag expectations account for it.
#[test]
fn sbc_hl_ww() {
    let (mut cpu, mut bus) = boot16(&[
        0x3e, 0x01, //          ld a, 1
        0xc6, 0xff, //          add a, $ff
        0x01, 0x1f, 0x7e, //    ld bc, $7e1f
        0x11, 0xff, 0x3f, //    ld de, $3fff
        0x21, 0x38, 0xb3, //    ld hl, $b338
        0x31, 0x5e, 0x46, //    ld sp, $465e
        0xed, 0x42, //          sbc hl, bc
        0xed, 0x52, //          sbc hl, de
        0xed, 0x62, //          sbc hl, hl
        0xed, 0x72, //          sbc hl, sp
        0xed, 0x72, //          sbc hl, sp
    ]);
    for _ in 0..6 {
        cpu.cycle(&mut bus);
    }

    let expected = [
        (Register::BC, 0x3518, FLAG_N | FLAG_P | FLAG_H),
        (Register::DE, 0xf519, FLAG_N | FLAG_C | FLAG_S | FLAG_H),
        (Register::HL, 0xffff, FLAG_N | FLAG_C | FLAG_S | FLAG_H),
        (Register::SP, 0xb9a0, FLAG_N | FLAG_S),
        (Register::SP, 0x7342, FLAG_N | FLAG_P),
    ];

    for (reg, val, flags) in &expected {
        cpu.cycle(&mut bus);
        assert_eq!(cpu.reg(Register::HL), *val, "SBC HL, {:?}", *reg);
        assert_eq!(cpu.flags(), *flags, "SBC HL, {:?}", *reg);
    }
}

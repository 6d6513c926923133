use z180emu::bus::{Bus, Peripheral};
use z180emu::cpu::enums::{Register, FLAG_C, FLAG_H, FLAG_N, FLAG_P, FLAG_S, FLAG_Z};
use z180emu::cpu::CPU;
use z180emu::ram::RAM;
use z180emu::rom::ROM;

fn boot_ram(program: &[u8]) -> (CPU, Bus) {
    let mut bus = Bus::new();
    let mut cpu = CPU::new();
    let mut ram = RAM::new(0x0000, 0x10000);
    ram.write(0x0000, program);
    bus.add(Peripheral::Ram(ram));
    cpu.reset();
    (cpu, bus)
}

#[test]
fn adder_flags() {
    let mut bus = Bus::new();
    let mut cpu = CPU::new();
    let rom = ROM::new(
        0x80000,
        vec![
            0x3e, 0x70, //         0x0000   ld a, 112
            0x06, 0x30, //         0x0002   ld b, 48
            0x80, //               0x0004   add a, b
            0x0e, 0x08, //         0x0005   ld c, 8
            0x81, //               0x0007   add a, c
            0x81, //               0x0008   add a, c
            0x81, //               0x0009   add a, c
            0x21, 0x0f, 0x00, //   0x000a   ld hl, 0x000f
            0x86, //               0x000d   add a, (hl)
            0x06, 0x48, //         0x0010   ld b, 0x48
        ],
    );
    bus.add(Peripheral::Rom(rom));
    cpu.reset();

    // Register to test, value to expect, optional flags to check
    let expected = [
        (Register::A, 112, None),
        (Register::B, 48, None),
        (Register::A, 160, Some(FLAG_S | FLAG_P)),
        (Register::C, 8, None),
        (Register::A, 168, Some(FLAG_S)),
        (Register::A, 176, Some(FLAG_S | FLAG_H)),
        (Register::A, 184, Some(FLAG_S)),
        (Register::HL, 15, None),
        (Register::A, 0, Some(FLAG_Z | FLAG_H | FLAG_C)),
    ];

    for (reg, val, flags) in &expected {
        cpu.cycle(&mut bus);
        assert_eq!(cpu.reg(*reg), *val);
        match *flags {
            Some(f) => assert_eq!(cpu.flags(), f),
            None => (),
        }
    }
}

#[test]
fn add_from_g() {
    let (mut cpu, mut bus) = boot_ram(&[
        0x06, 0x14, //          0x0000  ld b, $14
        0x0e, 0x22, //          0x0002  ld c, $22
        0x16, 0x3f, //          0x0004  ld d, $3f
        0x1e, 0x4a, //          0x0006  ld e, $4a
        0x26, 0x89, //          0x0008  ld h, $89
        0x2e, 0x74, //          0x000a  ld l, $74
        0x36, 0xf2, //          0x000c  ld (hl), $f2
        0x3e, 0xbe, //          0x000e  ld a, $be
        0x80, //                0x0010  add a, b
        0x81, //                0x0011  add a, c
        0x82, //                0x0012  add a, d
        0x83, //                0x0013  add a, e
        0x84, //                0x0014  add a, h
        0x85, //                0x0015  add a, l
        0x86, //                0x0016  add a, (hl)
        0x87, //                0x0017  add a, a
        0x88, //                0x0018  adc a, b
        0x89, //                0x0019  adc a, c
        0x8a, //                        adc a, d
        0x8b, //                        adc a, e
        0x8c, //                        adc a, h
        0x8d, //                        adc a, l
        0x8e, //                        adc a, (hl)
        0x8f, //                        adc a, a
    ]);
    for _ in 0..8 {
        cpu.cycle(&mut bus);
    }

    let expected = [
        // add
        (0xd2, FLAG_S | FLAG_H),
        (0xf4, FLAG_S),
        (0x33, FLAG_C | FLAG_H),
        (0x7d, 0),
        (0x06, FLAG_C | FLAG_H),
        (0x7a, 0),
        (0x6c, FLAG_C),
        (0xd8, FLAG_H | FLAG_P | FLAG_S),
        // adc
        (0xec, FLAG_S),
        (0x0e, FLAG_C),
        (0x4e, FLAG_H), // has +1 from carry
        (0x98, FLAG_S | FLAG_H | FLAG_P),
        (0x21, FLAG_H | FLAG_P | FLAG_C),
        (0x96, FLAG_S | FLAG_P), // has +1 from carry
        (0x88, FLAG_S | FLAG_C),
        (0x11, FLAG_H | FLAG_P | FLAG_C), // has +1 from carry
    ];

    for (val, flags) in &expected {
        cpu.cycle(&mut bus);
        assert_eq!(cpu.reg(Register::A), *val, "Testing value ${:02x}", *val);
        assert_eq!(cpu.flags(), *flags, "Testing value ${:02x}", *val);
    }
}

#[test]
fn add_from_m() {
    let (mut cpu, mut bus) = boot_ram(&[
        0x3e, 0xbe, //          0x0000  ld a, $be
        // add
        0xc6, 0x00, //          0x0002  add a, m
        0xc6, 0x08, //          0x0004  add a, m
        0xc6, 0x3a, //          0x0006  add a, m
        0xc6, 0x20, //          0x0008  add a, m
        0xc6, 0x70, //          0x000a  add a, m
        // adc
        0xce, 0x00, //          0x000c  add a, $00 ; just sign flag
        0xce, 0x70, //          0x000e  add a, $70 ; test 0x90+0x70 -> 0x00
        0xce, 0x00, //          0x0011  add a, $00 ; ensure carry is added
        0xce, 0x7f, //          0x0013  add a, $7f ; half-carry set without carry
        0xce, 0x8e, //          0x0015  add a, $8e ; set up 0x0e and carry
        0xce, 0x01, //          0x0017  add a, $01 ; half-carry set with carry
    ]);

    // load a known value into A
    cpu.cycle(&mut bus);

    let expected = [
        // add
        (0xbe, FLAG_S),
        (0xc6, FLAG_S | FLAG_H),
        (0x00, FLAG_Z | FLAG_H | FLAG_C),
        (0x20, 0),
        (0x90, FLAG_S | FLAG_P),
        // adc
        (0x90, FLAG_S),
        (0x00, FLAG_Z | FLAG_C),
        (0x01, 0),
        (0x80, FLAG_S | FLAG_H | FLAG_P),
        (0x0e, FLAG_P | FLAG_C),
        (0x10, FLAG_H),
    ];

    for (val, flags) in &expected {
        cpu.cycle(&mut bus);
        assert_eq!(cpu.reg(Register::A), *val, "Comparing A to ${:02x}", *val);
        assert_eq!(cpu.flags(), *flags, "Comparing A to ${:02x}", *val);
    }
}

#[test]
fn alu_inc() {
    let (mut cpu, mut bus) = boot_ram(&[
        0x06, 0x14, //          0x0000  ld b, $14
        0x0e, 0x99, //          0x0002  ld c, $99
        0x16, 0x3f, //          0x0004  ld d, $3f
        0x1e, 0x4a, //          0x0006  ld e, $4a
        0x26, 0x7f, //          0x0008  ld h, $7f
        0x2e, 0xff, //          0x000a  ld l, $ff
        0x36, 0xf2, //          0x000c  ld (hl), $f2
        0x3e, 0xbf, //          0x000e  ld a, $bf
        0x34, //                0x0010  inc (hl)
        0x04, //                0x0011  inc b
        0x0c, //                0x0012  inc c
        0x14, //                0x0013  inc d
        0x1c, //                0x0014  inc e
        0x24, //                0x0015  inc h
        0x2c, //                0x0016  inc l
        0x3c, //                0x0017  inc a
    ]);
    for _ in 0..8 {
        cpu.cycle(&mut bus);
    }

    // Hit up (HL) first so H, L don't get changed
    cpu.cycle(&mut bus);
    assert_eq!(bus.mem_read(0x7fff, false), 0xf3);
    assert_eq!(cpu.flags(), FLAG_S);

    let expected = [
        (Register::B, 0x15, 0),
        (Register::C, 0x9a, FLAG_S),
        (Register::D, 0x40, FLAG_H),
        (Register::E, 0x4b, 0),
        (Register::H, 0x80, FLAG_P | FLAG_S | FLAG_H),
        (Register::L, 0x00, FLAG_Z | FLAG_H),
        (Register::A, 0xc0, FLAG_H | FLAG_S),
    ];

    for (reg, val, flags) in &expected {
        cpu.cycle(&mut bus);
        assert_eq!(cpu.reg(*reg), *val);
        assert_eq!(cpu.flags(), *flags);
    }
}

#[test]
pub fn and() {
    let mut bus = Bus::new();
    let mut cpu = CPU::new();
    let mut ram = RAM::new(0x0000, 0x10000);
    ram.write(
        0x0000,
        &[
            0xa0, //                and b
            0xa1, //                and c
            0xa2, //                and d
            0xa3, //                and e
            0xa4, //                and h
            0xa5, //                and l
            0xa6, //                and (hl)
            0xa7, //                and a
            0xe6, 0x55, //          and $55
        ],
    );
    ram.write(0x00ff, &[0b10101010]);
    bus.add(Peripheral::Ram(ram));
    cpu.reset();

    cpu.write_reg(Register::B, 0b1111_0000);
    cpu.write_reg(Register::C, 0b0000_1111);
    cpu.write_reg(Register::D, 0b0100_0001);
    cpu.write_reg(Register::E, 0b1000_0000);
    cpu.write_reg(Register::H, 0b0000_0000);
    cpu.write_reg(Register::L, 0b1111_1111);

    let expected = [
        ("B", 0b1011_0000, FLAG_S | FLAG_H),
        ("C", 0b0000_1110, FLAG_H),
        ("D", 0b0000_0000, FLAG_Z | FLAG_H | FLAG_P),
        ("E", 0b1000_0000, FLAG_S | FLAG_H),
        ("H", 0b0000_0000, FLAG_Z | FLAG_H | FLAG_P),
        ("L", 0b1011_1110, FLAG_S | FLAG_H | FLAG_P),
        ("(HL)", 0b1010_1010, FLAG_S | FLAG_H | FLAG_P),
        ("A", 0b1011_1110, FLAG_S | FLAG_H | FLAG_P),
        ("m", 0b0001_0100, FLAG_H | FLAG_P),
    ];

    for (desc, val, flags) in &expected {
        cpu.write_reg(Register::A, 0b1011_1110);
        cpu.cycle(&mut bus);
        assert_eq!(cpu.reg(Register::A), *val, "{}", desc);
        assert_eq!(cpu.flags(), *flags, "{}", desc);
    }
}

#[test]
fn sub() {
    let mut bus = Bus::new();
    let mut cpu = CPU::new();
    let mut ram = RAM::new(0x0000, 0x10000);
    ram.write(
        0x0000,
        &[
            0xd6, 0x10, //          sub a, $10
            0xd6, 0x10, //          sub a, $10
            0xd6, 0xc0, //          sub a, $c0
            0xde, 0x10, //          sbc a, $10
            0xde, 0x10, //          sbc a, $10
            0x98, //                sbc a, b
            0x99, //                sbc a, c
            0x9a, //                sbc a, d
            0x9b, //                sbc a, e
            0x9c, //                sbc a, h
            0x9d, //                sbc a, l
            0x9e, //                sbc a, (hl)
            0x9f, //                sbc a, a
        ],
    );
    ram.write(0xbeef, &[0xc0]);
    bus.add(Peripheral::Ram(ram));
    cpu.reset();

    // Load up some register values
    cpu.write_reg(Register::B, 0x25);
    cpu.write_reg(Register::C, 0x73);
    cpu.write_reg(Register::D, 0x62);
    cpu.write_reg(Register::E, 0x44);
    cpu.write_reg(Register::H, 0xbe);
    cpu.write_reg(Register::L, 0xef);

    let expected = [
        // sub m
        ("sub m 1", 0x20, 0x10, FLAG_N),
        ("sub m 2", 0xbe, 0xae, FLAG_S | FLAG_N),
        ("sub m 3", 0xbe, 0xfe, FLAG_S | FLAG_N | FLAG_C),
        // sbc m
        ("sbc m 2", 0x20, 0x0f, FLAG_H | FLAG_N),
        ("sbc m 2", 0x20, 0x10, FLAG_N),
        // sbc g
        ("sbc g 2", 0x25, 0x00, FLAG_Z | FLAG_N),
    ];

    for (desc, a, val, flags) in &expected {
        cpu.write_reg(Register::A, *a);
        cpu.cycle(&mut bus);
        assert_eq!(cpu.reg(Register::A), *val, "{}", *desc);
        assert_eq!(cpu.flags(), *flags, "{}", *desc);
    }
}

use z180emu::bus::{Bus, Peripheral};
use z180emu::cpu::alu::szp_flags;
use z180emu::cpu::enums::{Register, FLAG_P};
use z180emu::cpu::CPU;
use z180emu::ram::RAM;

#[test]
fn test_flags() {
    let val: u8 = 0x78;

    assert_eq!(szp_flags(val) & FLAG_P, FLAG_P, "parity is SET for even number of bits");
}

#[test]
fn load_immediate() {
    let mut bus = Bus::new();
    let mut cpu = CPU::new();
    let mut ram = RAM::new(0x0000, 0x10000);
    ram.write(
        0x0000,
        &[
            0x06, 0x14, //          ld b, $14
            0x0e, 0x22, //          ld c, $22
            0x16, 0x3f, //          ld d, $3f
            0x1e, 0x4a, //          ld e, $4a
            0x26, 0x89, //          ld h, $89
            0x2e, 0x74, //          ld l, $74
            0x36, 0xf2, //          ld (hl), $f2
            0x3e, 0xbe, //          ld a, $be
        ],
    );
    bus.add(Peripheral::Ram(ram));
    cpu.reset();
    for _ in 0..8 {
        cpu.cycle(&mut bus);
    }
    assert_eq!(cpu.reg(Register::A), 0xbe);
    assert_eq!(cpu.reg(Register::BC), 0x1422);
    assert_eq!(cpu.reg(Register::DE), 0x3f4a);
    assert_eq!(cpu.reg(Register::HL), 0x8974);
    assert_eq!(bus.mem_read(0x8974, false), 0xf2);
}

#[test]
fn load_indirect() {
    let mut bus = Bus::new();
    let mut cpu = CPU::new();
    let mut ram = RAM::new(0x0000, 0x10000);
    ram.write(
        0x0000,
        &[
            0x06, 0x7e, //          ld b, $7e
            0x0e, 0xaf, //          ld c, $af
            0x3e, 0xbe, //          ld a, $be
            0x02, //                ld (bc), a
            0x16, 0x3f, //          ld d, $3f
            0x1e, 0x4a, //          ld e, $4a
            0x12, //                ld (de), a
        ],
    );
    bus.add(Peripheral::Ram(ram));
    cpu.reset();

    cpu.cycle(&mut bus);
    cpu.cycle(&mut bus);
    cpu.cycle(&mut bus);
    cpu.cycle(&mut bus);
    assert_eq!(bus.mem_read(0x7eaf, false), 0xbe);

    cpu.cycle(&mut bus);
    cpu.cycle(&mut bus);
    cpu.cycle(&mut bus);
    assert_eq!(bus.mem_read(0x3f4a, false), 0xbe);
}

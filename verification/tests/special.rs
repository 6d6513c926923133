use z180emu::bus::{Bus, Peripheral};
use z180emu::cpu::enums::Register;
use z180emu::cpu::CPU;
use z180emu::ram::RAM;

#[test]
fn nop_incrs_pc() {
    let mut bus = Bus::new();
    let mut cpu = CPU::new();
    let mut ram = RAM::new(0x0000, 0x10000);
    ram.write(0x0000, &[0x00]);
    bus.add(Peripheral::Ram(ram));
    cpu.reset();

    let pc_prev = cpu.reg(Register::PC);
    cpu.cycle(&mut bus);
    assert_eq!(cpu.reg(Register::PC), pc_prev + 1, "PC increments");
}

// `XOR A; DEC A; DAA` leaves 0xFF to adjust with N and H set: both nibble
// corrections apply (0xFF - 0x66 = 0x99), the high one because the high
// nibble exceeds 9.
#[test]
fn daa() {
    let mut bus = Bus::new();
    let mut cpu = CPU::new();
    let mut ram = RAM::new(0x0000, 0x10000);
    ram.write(0x0000, &[0xaf, 0x3d, 0x27]);
    bus.add(Peripheral::Ram(ram));
    cpu.reset();

    cpu.cycle(&mut bus);
    cpu.cycle(&mut bus);
    cpu.cycle(&mut bus);
    assert_eq!(cpu.reg(Register::A), 0x99);
}

// The example of the specification: 0x3D after an add adjusts to 0x43.
#[test]
fn daa_after_add() {
    let mut bus = Bus::new();
    let mut cpu = CPU::new();
    let mut ram = RAM::new(0x0000, 0x10000);
    ram.write(0x0000, &[0x3e, 0x3d, 0x27]);
    bus.add(Peripheral::Ram(ram));
    cpu.reset();

    cpu.cycle(&mut bus);
    cpu.cycle(&mut bus);
    assert_eq!(cpu.reg(Register::A), 0x43);
}

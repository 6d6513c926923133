use z180emu::zex::{zex_run_test, ZexState};

// Further published conformance sweeps over the instruction planes: loads,
// increments, block steps, rotates, shifts, bit set/reset and negation. The
// expected CRC of every case is the value computed on authentic hardware.

#[test]
fn zex_add16() {
    let init = ZexState { instruction: 0x09000000, operand: 0xc4a5, iy: 0xc4c7, ix: 0xd226, hl: 0xa050, de: 0x58ea, bc: 0x8566, f: 0xc6, a: 0xde, sp: 0x9bc9 };
    let incr = ZexState { instruction: 0x30000000, operand: 0x0000, iy: 0x0000, ix: 0x0000, hl: 0xf821, de: 0x0000, bc: 0x0000, f: 0x00, a: 0x00, sp: 0x0000 };
    let flip = ZexState { instruction: 0x00000000, operand: 0x0000, iy: 0x0000, ix: 0x0000, hl: 0xffff, de: 0xffff, bc: 0xffff, f: 0xd7, a: 0x00, sp: 0xffff };
    assert_eq!(zex_run_test(&init, &incr, &flip, 0xc7), 0x89fdb635);
}

#[test]
fn zex_add16x() {
    let init = ZexState { instruction: 0xdd090000, operand: 0xddac, iy: 0xc294, ix: 0x635b, hl: 0x33d3, de: 0x6a76, bc: 0xfa20, f: 0x94, a: 0x68, sp: 0x36f5 };
    let incr = ZexState { instruction: 0x00300000, operand: 0x0000, iy: 0x0000, ix: 0xf821, hl: 0x0000, de: 0x0000, bc: 0x0000, f: 0x00, a: 0x00, sp: 0x0000 };
    let flip = ZexState { instruction: 0x00000000, operand: 0x0000, iy: 0x0000, ix: 0xffff, hl: 0x0000, de: 0xffff, bc: 0xffff, f: 0xd7, a: 0x00, sp: 0xffff };
    assert_eq!(zex_run_test(&init, &incr, &flip, 0xc7), 0xc133790b);
}

#[test]
fn zex_add16y() {
    let init = ZexState { instruction: 0xfd090000, operand: 0xc7c2, iy: 0xf407, ix: 0x51c1, hl: 0x3e96, de: 0x0bf4, bc: 0x510f, f: 0x92, a: 0x1e, sp: 0x71ea };
    let incr = ZexState { instruction: 0x00300000, operand: 0x0000, iy: 0xf821, ix: 0x0000, hl: 0x0000, de: 0x0000, bc: 0x0000, f: 0x00, a: 0x00, sp: 0x0000 };
    let flip = ZexState { instruction: 0x00000000, operand: 0x0000, iy: 0xffff, ix: 0x0000, hl: 0x0000, de: 0xffff, bc: 0xffff, f: 0xd7, a: 0x00, sp: 0xffff };
    assert_eq!(zex_run_test(&init, &incr, &flip, 0xc7), 0xe8817b9e);
}

#[test]
fn zex_alu8i() {
    let init = ZexState { instruction: 0xc6000000, operand: 0x9140, iy: 0x7e3c, ix: 0x7a67, hl: 0xdf6d, de: 0x5b61, bc: 0x0b29, f: 0x10, a: 0x66, sp: 0x85b2 };
    let incr = ZexState { instruction: 0x38000000, operand: 0x0000, iy: 0x0000, ix: 0x0000, hl: 0x0000, de: 0x0000, bc: 0x0000, f: 0x00, a: 0xff, sp: 0x0000 };
    let flip = ZexState { instruction: 0x00ff0000, operand: 0x0000, iy: 0x0000, ix: 0x0000, hl: 0x0000, de: 0x0000, bc: 0x0000, f: 0xd7, a: 0x00, sp: 0x0000 };
    assert_eq!(zex_run_test(&init, &incr, &flip, 0xd7), 0x48799360);
}

#[test]
fn zex_bitx() {
    let init = ZexState { instruction: 0xddcb0146, operand: 0x2075, iy: 0x0102, ix: 0x0102, hl: 0x3cfc, de: 0xa79a, bc: 0x3d74, f: 0x51, a: 0x27, sp: 0xca14 };
    let incr = ZexState { instruction: 0x20000038, operand: 0x0000, iy: 0x0000, ix: 0x0000, hl: 0x0000, de: 0x0000, bc: 0x0000, f: 0x53, a: 0x00, sp: 0x0000 };
    let flip = ZexState { instruction: 0x00000000, operand: 0x00ff, iy: 0x0000, ix: 0x0000, hl: 0x0000, de: 0x0000, bc: 0x0000, f: 0x00, a: 0x00, sp: 0x0000 };
    assert_eq!(zex_run_test(&init, &incr, &flip, 0x53), 0xa8ee0867);
}

#[test]
fn zex_bitz80() {
    let init = ZexState { instruction: 0xcb400000, operand: 0x3ef1, iy: 0x9dfc, ix: 0x7acc, hl: 0x0103, de: 0xbe61, bc: 0x7a86, f: 0x50, a: 0x24, sp: 0x1998 };
    let incr = ZexState { instruction: 0x003f0000, operand: 0x0000, iy: 0x0000, ix: 0x0000, hl: 0x0000, de: 0x0000, bc: 0x0000, f: 0x53, a: 0x00, sp: 0x0000 };
    let flip = ZexState { instruction: 0x00000000, operand: 0x00ff, iy: 0x0000, ix: 0x0000, hl: 0x0000, de: 0xffff, bc: 0xffff, f: 0x00, a: 0xff, sp: 0x0000 };
    assert_eq!(zex_run_test(&init, &incr, &flip, 0x53), 0x7b55e6c8);
}

#[test]
fn zex_cpi1() {
    let init = ZexState { instruction: 0xeda10000, operand: 0x4d48, iy: 0xaf4a, ix: 0x906b, hl: 0x0103, de: 0x4e71, bc: 0x0001, f: 0x93, a: 0x6a, sp: 0x907c };
    let incr = ZexState { instruction: 0x00100000, operand: 0x0000, iy: 0x0000, ix: 0x0000, hl: 0x0000, de: 0x0000, bc: 0x000a, f: 0x00, a: 0xff, sp: 0x0000 };
    let flip = ZexState { instruction: 0x00000000, operand: 0x0000, iy: 0x0000, ix: 0x0000, hl: 0x0000, de: 0x0000, bc: 0x0000, f: 0xd7, a: 0x00, sp: 0x0000 };
    assert_eq!(zex_run_test(&init, &incr, &flip, 0xd7), 0x06deb356);
}

#[test]
fn zex_inca() {
    let init = ZexState { instruction: 0x3c000000, operand: 0x4adf, iy: 0xd5d8, ix: 0xe598, hl: 0x8a2b, de: 0xa7b0, bc: 0x431b, f: 0x44, a: 0x5a, sp: 0xd030 };
    let incr = ZexState { instruction: 0x01000000, operand: 0x0000, iy: 0x0000, ix: 0x0000, hl: 0x0000, de: 0x0000, bc: 0x0000, f: 0x00, a: 0xff, sp: 0x0000 };
    let flip = ZexState { instruction: 0x00000000, operand: 0x0000, iy: 0x0000, ix: 0x0000, hl: 0x0000, de: 0x0000, bc: 0x0000, f: 0xd7, a: 0x00, sp: 0x0000 };
    assert_eq!(zex_run_test(&init, &incr, &flip, 0xd7), 0xd18815a4);
}

#[test]
fn zex_incb() {
    let init = ZexState { instruction: 0x04000000, operand: 0xd623, iy: 0x432d, ix: 0x7a61, hl: 0x8180, de: 0x5a86, bc: 0x1e85, f: 0x86, a: 0x58, sp: 0x9bbb };
    let incr = ZexState { instruction: 0x01000000, operand: 0x0000, iy: 0x0000, ix: 0x0000, hl: 0x0000, de: 0x0000, bc: 0xff00, f: 0x00, a: 0x00, sp: 0x0000 };
    let flip = ZexState { instruction: 0x00000000, operand: 0x0000, iy: 0x0000, ix: 0x0000, hl: 0x0000, de: 0x0000, bc: 0x0000, f: 0xd7, a: 0x00, sp: 0x0000 };
    assert_eq!(zex_run_test(&init, &incr, &flip, 0xd7), 0x5f682264);
}

#[test]
fn zex_incbc() {
    let init = ZexState { instruction: 0x03000000, operand: 0xcd97, iy: 0x44ab, ix: 0x8dc9, hl: 0xe3e3, de: 0x11cc, bc: 0xe8a4, f: 0x02, a: 0x49, sp: 0x2a4d };
    let incr = ZexState { instruction: 0x08000000, operand: 0x0000, iy: 0x0000, ix: 0x0000, hl: 0x0000, de: 0x0000, bc: 0xf821, f: 0x00, a: 0x00, sp: 0x0000 };
    let flip = ZexState { instruction: 0x00000000, operand: 0x0000, iy: 0x0000, ix: 0x0000, hl: 0x0000, de: 0x0000, bc: 0x0000, f: 0xd7, a: 0x00, sp: 0x0000 };
    assert_eq!(zex_run_test(&init, &incr, &flip, 0xd7), 0xd2ae3bec);
}

#[test]
fn zex_incc() {
    let init = ZexState { instruction: 0x0c000000, operand: 0xd789, iy: 0x0935, ix: 0x055b, hl: 0x9f85, de: 0x8b27, bc: 0xd208, f: 0x95, a: 0x05, sp: 0x0660 };
    let incr = ZexState { instruction: 0x01000000, operand: 0x0000, iy: 0x0000, ix: 0x0000, hl: 0x0000, de: 0x0000, bc: 0x00ff, f: 0x00, a: 0x00, sp: 0x0000 };
    let flip = ZexState { instruction: 0x00000000, operand: 0x0000, iy: 0x0000, ix: 0x0000, hl: 0x0000, de: 0x0000, bc: 0x0000, f: 0xd7, a: 0x00, sp: 0x0000 };
    assert_eq!(zex_run_test(&init, &incr, &flip, 0xd7), 0xc284554c);
}

#[test]
fn zex_incd() {
    let init = ZexState { instruction: 0x14000000, operand: 0xa0ea, iy: 0x5fba, ix: 0x65fb, hl: 0x981c, de: 0x38cc, bc: 0xdebc, f: 0x43, a: 0x5c, sp: 0x03bd };
    let incr = ZexState { instruction: 0x01000000, operand: 0x0000, iy: 0x0000, ix: 0x0000, hl: 0x0000, de: 0xff00, bc: 0x0000, f: 0x00, a: 0x00, sp: 0x0000 };
    let flip = ZexState { instruction: 0x00000000, operand: 0x0000, iy: 0x0000, ix: 0x0000, hl: 0x0000, de: 0x0000, bc: 0x0000, f: 0xd7, a: 0x00, sp: 0x0000 };
    assert_eq!(zex_run_test(&init, &incr, &flip, 0xd7), 0x4523de10);
}

#[test]
fn zex_incde() {
    let init = ZexState { instruction: 0x13000000, operand: 0x342e, iy: 0x131d, ix: 0x28c9, hl: 0x0aca, de: 0x9967, bc: 0x3a2e, f: 0x92, a: 0xf6, sp: 0x9d54 };
    let incr = ZexState { instruction: 0x08000000, operand: 0x0000, iy: 0x0000, ix: 0x0000, hl: 0x0000, de: 0xf821, bc: 0x0000, f: 0x00, a: 0x00, sp: 0x0000 };
    let flip = ZexState { instruction: 0x00000000, operand: 0x0000, iy: 0x0000, ix: 0x0000, hl: 0x0000, de: 0x0000, bc: 0x0000, f: 0xd7, a: 0x00, sp: 0x0000 };
    assert_eq!(zex_run_test(&init, &incr, &flip, 0xd7), 0xaec6d42c);
}

#[test]
fn zex_ince() {
    let init = ZexState { instruction: 0x1c000000, operand: 0x602f, iy: 0x4c0d, ix: 0x2402, hl: 0xe2f5, de: 0xa0f4, bc: 0xa10a, f: 0x13, a: 0x32, sp: 0x5925 };
    let incr = ZexState { instruction: 0x01000000, operand: 0x0000, iy: 0x0000, ix: 0x0000, hl: 0x0000, de: 0x00ff, bc: 0x0000, f: 0x00, a: 0x00, sp: 0x0000 };
    let flip = ZexState { instruction: 0x00000000, operand: 0x0000, iy: 0x0000, ix: 0x0000, hl: 0x0000, de: 0x0000, bc: 0x0000, f: 0xd7, a: 0x00, sp: 0x0000 };
    assert_eq!(zex_run_test(&init, &incr, &flip, 0xd7), 0xe175afcc);
}

#[test]
fn zex_inch() {
    let init = ZexState { instruction: 0x24000000, operand: 0x1506, iy: 0xf2eb, ix: 0xe8dd, hl: 0x262b, de: 0x11a6, bc: 0xbc1a, f: 0x17, a: 0x06, sp: 0x2818 };
    let incr = ZexState { instruction: 0x01000000, operand: 0x0000, iy: 0x0000, ix: 0x0000, hl: 0xff00, de: 0x0000, bc: 0x0000, f: 0x00, a: 0x00, sp: 0x0000 };
    let flip = ZexState { instruction: 0x00000000, operand: 0x0000, iy: 0x0000, ix: 0x0000, hl: 0x0000, de: 0x0000, bc: 0x0000, f: 0xd7, a: 0x00, sp: 0x0000 };
    assert_eq!(zex_run_test(&init, &incr, &flip, 0xd7), 0x1ced847d);
}

#[test]
fn zex_inchl() {
    let init = ZexState { instruction: 0x23000000, operand: 0xc3f4, iy: 0x07a5, ix: 0x1b6d, hl: 0x4f04, de: 0xe2c2, bc: 0x822a, f: 0x57, a: 0xe0, sp: 0xc3e1 };
    let incr = ZexState { instruction: 0x08000000, operand: 0x0000, iy: 0x0000, ix: 0x0000, hl: 0xf821, de: 0x0000, bc: 0x0000, f: 0x00, a: 0x00, sp: 0x0000 };
    let flip = ZexState { instruction: 0x00000000, operand: 0x0000, iy: 0x0000, ix: 0x0000, hl: 0x0000, de: 0x0000, bc: 0x0000, f: 0xd7, a: 0x00, sp: 0x0000 };
    assert_eq!(zex_run_test(&init, &incr, &flip, 0xd7), 0xfc0d6d4a);
}

#[test]
fn zex_incix() {
    let init = ZexState { instruction: 0xdd230000, operand: 0xbc3c, iy: 0x0d9b, ix: 0xe081, hl: 0xadfd, de: 0x9a7f, bc: 0x96e5, f: 0x13, a: 0x85, sp: 0x0be2 };
    let incr = ZexState { instruction: 0x00080000, operand: 0x0000, iy: 0x0000, ix: 0xf821, hl: 0x0000, de: 0x0000, bc: 0x0000, f: 0x00, a: 0x00, sp: 0x0000 };
    let flip = ZexState { instruction: 0x00000000, operand: 0x0000, iy: 0x0000, ix: 0x0000, hl: 0x0000, de: 0x0000, bc: 0x0000, f: 0xd7, a: 0x00, sp: 0x0000 };
    assert_eq!(zex_run_test(&init, &incr, &flip, 0xd7), 0xa54dbe31);
}

#[test]
fn zex_inciy() {
    let init = ZexState { instruction: 0xfd230000, operand: 0x9402, iy: 0x637a, ix: 0x3182, hl: 0xc65a, de: 0xb2e9, bc: 0xabb4, f: 0x16, a: 0xf2, sp: 0x6d05 };
    let incr = ZexState { instruction: 0x00080000, operand: 0x0000, iy: 0xf821, ix: 0x0000, hl: 0x0000, de: 0x0000, bc: 0x0000, f: 0x00, a: 0x00, sp: 0x0000 };
    let flip = ZexState { instruction: 0x00000000, operand: 0x0000, iy: 0x0000, ix: 0x0000, hl: 0x0000, de: 0x0000, bc: 0x0000, f: 0xd7, a: 0x00, sp: 0x0000 };
    assert_eq!(zex_run_test(&init, &incr, &flip, 0xd7), 0x505d51a3);
}

#[test]
fn zex_incl() {
    let init = ZexState { instruction: 0x2c000000, operand: 0x8031, iy: 0xa520, ix: 0x4356, hl: 0xb409, de: 0xf4c1, bc: 0xdfa2, f: 0xd1, a: 0x3c, sp: 0x3ea2 };
    let incr = ZexState { instruction: 0x01000000, operand: 0x0000, iy: 0x0000, ix: 0x0000, hl: 0x00ff, de: 0x0000, bc: 0x0000, f: 0x00, a: 0x00, sp: 0x0000 };
    let flip = ZexState { instruction: 0x00000000, operand: 0x0000, iy: 0x0000, ix: 0x0000, hl: 0x0000, de: 0x0000, bc: 0x0000, f: 0xd7, a: 0x00, sp: 0x0000 };
    assert_eq!(zex_run_test(&init, &incr, &flip, 0xd7), 0x56cd06f3);
}

#[test]
fn zex_incm() {
    let init = ZexState { instruction: 0x34000000, operand: 0xb856, iy: 0x0c7c, ix: 0xe53e, hl: 0x0103, de: 0x877e, bc: 0xda58, f: 0x15, a: 0x5c, sp: 0x1f37 };
    let incr = ZexState { instruction: 0x01000000, operand: 0x00ff, iy: 0x0000, ix: 0x0000, hl: 0x0000, de: 0x0000, bc: 0x0000, f: 0x00, a: 0x00, sp: 0x0000 };
    let flip = ZexState { instruction: 0x00000000, operand: 0x0000, iy: 0x0000, ix: 0x0000, hl: 0x0000, de: 0x0000, bc: 0x0000, f: 0xd7, a: 0x00, sp: 0x0000 };
    assert_eq!(zex_run_test(&init, &incr, &flip, 0xd7), 0xb83adcef);
}

#[test]
fn zex_incsp() {
    let init = ZexState { instruction: 0x33000000, operand: 0x346f, iy: 0xd482, ix: 0xd169, hl: 0xdeb6, de: 0xa494, bc: 0xf476, f: 0x53, a: 0x02, sp: 0x855b };
    let incr = ZexState { instruction: 0x08000000, operand: 0x0000, iy: 0x0000, ix: 0x0000, hl: 0x0000, de: 0x0000, bc: 0x0000, f: 0x00, a: 0x00, sp: 0xf821 };
    let flip = ZexState { instruction: 0x00000000, operand: 0x0000, iy: 0x0000, ix: 0x0000, hl: 0x0000, de: 0x0000, bc: 0x0000, f: 0xd7, a: 0x00, sp: 0x0000 };
    assert_eq!(zex_run_test(&init, &incr, &flip, 0xd7), 0x5dacd527);
}

#[test]
fn zex_ld161() {
    let init = ZexState { instruction: 0xed4b0301, operand: 0xf9a8, iy: 0xf559, ix: 0x93a4, hl: 0xf5ed, de: 0x6f96, bc: 0xd968, f: 0x86, a: 0xe6, sp: 0x4bd8 };
    let incr = ZexState { instruction: 0x00100000, operand: 0x0000, iy: 0x0000, ix: 0x0000, hl: 0x0000, de: 0x0000, bc: 0x0000, f: 0x00, a: 0x00, sp: 0x0000 };
    let flip = ZexState { instruction: 0x00000000, operand: 0xffff, iy: 0x0000, ix: 0x0000, hl: 0x0000, de: 0x0000, bc: 0x0000, f: 0x00, a: 0x00, sp: 0x0000 };
    assert_eq!(zex_run_test(&init, &incr, &flip, 0xd7), 0x4d45a9ac);
}

#[test]
fn zex_ld16im() {
    let init = ZexState { instruction: 0x01000000, operand: 0x5c1c, iy: 0x2d46, ix: 0x8eb9, hl: 0x6078, de: 0x74b1, bc: 0xb30e, f: 0x46, a: 0xd1, sp: 0x30cc };
    let incr = ZexState { instruction: 0x30000000, operand: 0x0000, iy: 0x0000, ix: 0x0000, hl: 0x0000, de: 0x0000, bc: 0x0000, f: 0x00, a: 0x00, sp: 0x0000 };
    let flip = ZexState { instruction: 0x00ffff00, operand: 0x0000, iy: 0x0000, ix: 0x0000, hl: 0x0000, de: 0x0000, bc: 0x0000, f: 0x00, a: 0x00, sp: 0x0000 };
    assert_eq!(zex_run_test(&init, &incr, &flip, 0xd7), 0xde391969);
}

#[test]
fn zex_ld16ix() {
    let init = ZexState { instruction: 0xdd210000, operand: 0x87e8, iy: 0x2006, ix: 0xbd12, hl: 0xb69b, de: 0x7253, bc: 0xa1e5, f: 0x51, a: 0x13, sp: 0xf1bd };
    let incr = ZexState { instruction: 0x20000000, operand: 0x0000, iy: 0x0000, ix: 0x0000, hl: 0x0000, de: 0x0000, bc: 0x0000, f: 0x00, a: 0x00, sp: 0x0000 };
    let flip = ZexState { instruction: 0x0000ffff, operand: 0x0000, iy: 0x0000, ix: 0x0000, hl: 0x0000, de: 0x0000, bc: 0x0000, f: 0x00, a: 0x00, sp: 0x0000 };
    assert_eq!(zex_run_test(&init, &incr, &flip, 0xd7), 0x227dd525);
}

#[test]
fn zex_ld8bd() {
    let init = ZexState { instruction: 0x0a000000, operand: 0xb3a8, iy: 0x1d2a, ix: 0x7f8e, hl: 0x42ac, de: 0x0103, bc: 0x0103, f: 0xc6, a: 0xb1, sp: 0xef8e };
    let incr = ZexState { instruction: 0x10000000, operand: 0x0000, iy: 0x0000, ix: 0x0000, hl: 0x0000, de: 0x0000, bc: 0x0000, f: 0x00, a: 0x00, sp: 0x0000 };
    let flip = ZexState { instruction: 0x00000000, operand: 0x00ff, iy: 0x0000, ix: 0x0000, hl: 0x0000, de: 0x0000, bc: 0x0000, f: 0xd7, a: 0xff, sp: 0x0000 };
    assert_eq!(zex_run_test(&init, &incr, &flip, 0xd7), 0xb0818935);
}

#[test]
fn zex_ld8im() {
    let init = ZexState { instruction: 0x06000000, operand: 0xc407, iy: 0xf49d, ix: 0xd13d, hl: 0x0339, de: 0xde89, bc: 0x7455, f: 0x53, a: 0xc0, sp: 0x5509 };
    let incr = ZexState { instruction: 0x38000000, operand: 0x0000, iy: 0x0000, ix: 0x0000, hl: 0x0000, de: 0x0000, bc: 0x0000, f: 0x00, a: 0x00, sp: 0x0000 };
    let flip = ZexState { instruction: 0x00000000, operand: 0x0000, iy: 0x0000, ix: 0x0000, hl: 0x0000, de: 0x0000, bc: 0x0000, f: 0x00, a: 0xff, sp: 0x0000 };
    assert_eq!(zex_run_test(&init, &incr, &flip, 0xd7), 0xf1dab556);
}

#[test]
fn zex_ld8imx() {
    let init = ZexState { instruction: 0xdd360100, operand: 0x1b45, iy: 0x0102, ix: 0x0102, hl: 0xd5c1, de: 0x61c7, bc: 0xbdc4, f: 0xc0, a: 0x85, sp: 0xcd16 };
    let incr = ZexState { instruction: 0x20000000, operand: 0x0000, iy: 0x0000, ix: 0x0000, hl: 0x0000, de: 0x0000, bc: 0x0000, f: 0x00, a: 0x00, sp: 0x0000 };
    let flip = ZexState { instruction: 0x000000ff, operand: 0x0000, iy: 0x0000, ix: 0x0000, hl: 0x0000, de: 0x0000, bc: 0x0000, f: 0x00, a: 0xff, sp: 0x0000 };
    assert_eq!(zex_run_test(&init, &incr, &flip, 0xd7), 0x26db477e);
}

#[test]
fn zex_ld8ix1() {
    let init = ZexState { instruction: 0xdd460100, operand: 0xd016, iy: 0x0102, ix: 0x0102, hl: 0x4260, de: 0x7f39, bc: 0x0404, f: 0x97, a: 0x4a, sp: 0xd085 };
    let incr = ZexState { instruction: 0x20180000, operand: 0x0000, iy: 0x0001, ix: 0x0001, hl: 0x0000, de: 0x0000, bc: 0x0000, f: 0x00, a: 0x00, sp: 0x0000 };
    let flip = ZexState { instruction: 0x00000000, operand: 0xffff, iy: 0x0000, ix: 0x0000, hl: 0x0000, de: 0x0000, bc: 0x0000, f: 0x00, a: 0x00, sp: 0x0000 };
    assert_eq!(zex_run_test(&init, &incr, &flip, 0xd7), 0xcc1106a8);
}

#[test]
fn zex_ld8ix2() {
    let init = ZexState { instruction: 0xdd660100, operand: 0x84e0, iy: 0x0102, ix: 0x0102, hl: 0x9c52, de: 0xa799, bc: 0x49b6, f: 0x93, a: 0x00, sp: 0xeead };
    let incr = ZexState { instruction: 0x20080000, operand: 0x0000, iy: 0x0001, ix: 0x0001, hl: 0x0000, de: 0x0000, bc: 0x0000, f: 0x00, a: 0x00, sp: 0x0000 };
    let flip = ZexState { instruction: 0x00000000, operand: 0xffff, iy: 0x0000, ix: 0x0000, hl: 0x0000, de: 0x0000, bc: 0x0000, f: 0x00, a: 0x00, sp: 0x0000 };
    assert_eq!(zex_run_test(&init, &incr, &flip, 0xd7), 0xfa2a4d03);
}

#[test]
fn zex_ld8ix3() {
    let init = ZexState { instruction: 0xdd7e0100, operand: 0xd8b6, iy: 0x0102, ix: 0x0102, hl: 0xc612, de: 0xdf07, bc: 0x9cd0, f: 0x43, a: 0xa6, sp: 0xa0e5 };
    let incr = ZexState { instruction: 0x20000000, operand: 0x0000, iy: 0x0001, ix: 0x0001, hl: 0x0000, de: 0x0000, bc: 0x0000, f: 0x00, a: 0x00, sp: 0x0000 };
    let flip = ZexState { instruction: 0x00000000, operand: 0xffff, iy: 0x0000, ix: 0x0000, hl: 0x0000, de: 0x0000, bc: 0x0000, f: 0x00, a: 0x00, sp: 0x0000 };
    assert_eq!(zex_run_test(&init, &incr, &flip, 0xd7), 0xa5e9ac64);
}

#[test]
fn zex_ld8rr() {
    let init = ZexState { instruction: 0x40000000, operand: 0x72a4, iy: 0xa024, ix: 0x61ac, hl: 0x0103, de: 0x82c7, bc: 0x718f, f: 0x97, a: 0x8f, sp: 0xef8e };
    let incr = ZexState { instruction: 0x3f000000, operand: 0x0000, iy: 0x0000, ix: 0x0000, hl: 0x0000, de: 0x0000, bc: 0x0000, f: 0x00, a: 0x00, sp: 0x0000 };
    let flip = ZexState { instruction: 0x00000000, operand: 0x00ff, iy: 0x0000, ix: 0x0000, hl: 0x0000, de: 0xffff, bc: 0xffff, f: 0xd7, a: 0xff, sp: 0x0000 };
    assert_eq!(zex_run_test(&init, &incr, &flip, 0xd7), 0x744b0118);
}

#[test]
fn zex_lda() {
    let init = ZexState { instruction: 0x32030100, operand: 0xfd68, iy: 0xf4ec, ix: 0x44a0, hl: 0xb543, de: 0x0653, bc: 0xcdba, f: 0xd2, a: 0x4f, sp: 0x1fd8 };
    let incr = ZexState { instruction: 0x08000000, operand: 0x0000, iy: 0x0000, ix: 0x0000, hl: 0x0000, de: 0x0000, bc: 0x0000, f: 0x00, a: 0x00, sp: 0x0000 };
    let flip = ZexState { instruction: 0x00000000, operand: 0x00ff, iy: 0x0000, ix: 0x0000, hl: 0x0000, de: 0x0000, bc: 0x0000, f: 0xd7, a: 0xff, sp: 0x0000 };
    assert_eq!(zex_run_test(&init, &incr, &flip, 0xd7), 0xc9262de5);
}

#[test]
fn zex_ldd1() {
    let init = ZexState { instruction: 0xeda80000, operand: 0x9852, iy: 0x68fa, ix: 0x66a1, hl: 0x0106, de: 0x0104, bc: 0x0001, f: 0xc1, a: 0x68, sp: 0x20b7 };
    let incr = ZexState { instruction: 0x00100000, operand: 0x0000, iy: 0x0000, ix: 0x0000, hl: 0x0000, de: 0x0000, bc: 0x0000, f: 0x00, a: 0x00, sp: 0x0000 };
    let flip = ZexState { instruction: 0x00000000, operand: 0xffff, iy: 0x0000, ix: 0x0000, hl: 0x0000, de: 0x0000, bc: 0x0000, f: 0xd7, a: 0x00, sp: 0x0000 };
    assert_eq!(zex_run_test(&init, &incr, &flip, 0xd7), 0x94f42769);
}

#[test]
fn zex_ldd2() {
    let init = ZexState { instruction: 0xeda80000, operand: 0xf12e, iy: 0xeb2a, ix: 0xd5ba, hl: 0x0106, de: 0x0104, bc: 0x0002, f: 0x47, a: 0xff, sp: 0xfbe4 };
    let incr = ZexState { instruction: 0x00100000, operand: 0x0000, iy: 0x0000, ix: 0x0000, hl: 0x0000, de: 0x0000, bc: 0x0000, f: 0x00, a: 0x00, sp: 0x0000 };
    let flip = ZexState { instruction: 0x00000000, operand: 0xffff, iy: 0x0000, ix: 0x0000, hl: 0x0000, de: 0x0000, bc: 0x0000, f: 0xd7, a: 0x00, sp: 0x0000 };
    assert_eq!(zex_run_test(&init, &incr, &flip, 0xd7), 0x5a907ed4);
}

#[test]
fn zex_ldi1() {
    let init = ZexState { instruction: 0xeda00000, operand: 0xfe30, iy: 0x03cd, ix: 0x6058, hl: 0x0105, de: 0x0103, bc: 0x0001, f: 0x04, a: 0x60, sp: 0x2688 };
    let incr = ZexState { instruction: 0x00100000, operand: 0x0000, iy: 0x0000, ix: 0x0000, hl: 0x0000, de: 0x0000, bc: 0x0000, f: 0x00, a: 0x00, sp: 0x0000 };
    let flip = ZexState { instruction: 0x00000000, operand: 0xffff, iy: 0x0000, ix: 0x0000, hl: 0x0000, de: 0x0000, bc: 0x0000, f: 0xd7, a: 0x00, sp: 0x0000 };
    assert_eq!(zex_run_test(&init, &incr, &flip, 0xd7), 0x9abdf6b5);
}

#[test]
fn zex_ldi2() {
    let init = ZexState { instruction: 0xeda00000, operand: 0x4ace, iy: 0xc26e, ix: 0xb188, hl: 0x0105, de: 0x0103, bc: 0x0002, f: 0x14, a: 0x2d, sp: 0xa39f };
    let incr = ZexState { instruction: 0x00100000, operand: 0x0000, iy: 0x0000, ix: 0x0000, hl: 0x0000, de: 0x0000, bc: 0x0000, f: 0x00, a: 0x00, sp: 0x0000 };
    let flip = ZexState { instruction: 0x00000000, operand: 0xffff, iy: 0x0000, ix: 0x0000, hl: 0x0000, de: 0x0000, bc: 0x0000, f: 0xd7, a: 0x00, sp: 0x0000 };
    assert_eq!(zex_run_test(&init, &incr, &flip, 0xd7), 0xeb59891b);
}

#[test]
fn zex_negop() {
    let init = ZexState { instruction: 0xed440000, operand: 0x38a2, iy: 0x5f6b, ix: 0xd934, hl: 0x57e4, de: 0xd2d6, bc: 0x4642, f: 0x43, a: 0x5a, sp: 0x09cc };
    let incr = ZexState { instruction: 0x00000000, operand: 0x0000, iy: 0x0000, ix: 0x0000, hl: 0x0000, de: 0x0000, bc: 0x0000, f: 0xd7, a: 0xff, sp: 0x0000 };
    let flip = ZexState { instruction: 0x00000000, operand: 0x0000, iy: 0x0000, ix: 0x0000, hl: 0x0000, de: 0x0000, bc: 0x0000, f: 0x00, a: 0x00, sp: 0x0000 };
    assert_eq!(zex_run_test(&init, &incr, &flip, 0xd7), 0x6a3c3bbd);
}

#[test]
fn zex_rldop() {
    let init = ZexState { instruction: 0xed670000, operand: 0x91cb, iy: 0xc48b, ix: 0xfa62, hl: 0x0103, de: 0xe720, bc: 0xb479, f: 0x40, a: 0x06, sp: 0x8ae2 };
    let incr = ZexState { instruction: 0x00080000, operand: 0x00ff, iy: 0x0000, ix: 0x0000, hl: 0x0000, de: 0x0000, bc: 0x0000, f: 0x00, a: 0x00, sp: 0x0000 };
    let flip = ZexState { instruction: 0x00000000, operand: 0x0000, iy: 0x0000, ix: 0x0000, hl: 0x0000, de: 0x0000, bc: 0x0000, f: 0xd7, a: 0xff, sp: 0x0000 };
    assert_eq!(zex_run_test(&init, &incr, &flip, 0xd7), 0x955ba326);
}

#[test]
fn zex_rot8080() {
    let init = ZexState { instruction: 0x07000000, operand: 0xcb92, iy: 0x6d43, ix: 0x0a90, hl: 0xc284, de: 0x0c53, bc: 0xf50e, f: 0x91, a: 0xeb, sp: 0x40fc };
    let incr = ZexState { instruction: 0x18000000, operand: 0x0000, iy: 0x0000, ix: 0x0000, hl: 0x0000, de: 0x0000, bc: 0x0000, f: 0x00, a: 0xff, sp: 0x0000 };
    let flip = ZexState { instruction: 0x00000000, operand: 0x0000, iy: 0x0000, ix: 0x0000, hl: 0x0000, de: 0x0000, bc: 0x0000, f: 0xd7, a: 0x00, sp: 0x0000 };
    assert_eq!(zex_run_test(&init, &incr, &flip, 0xd7), 0x251330ae);
}

#[test]
fn zex_rotxy() {
    let init = ZexState { instruction: 0xddcb0106, operand: 0xddaf, iy: 0x0102, ix: 0x0102, hl: 0xff3c, de: 0xdbf6, bc: 0x94f4, f: 0x82, a: 0x80, sp: 0x61d9 };
    let incr = ZexState { instruction: 0x20000038, operand: 0x0000, iy: 0x0000, ix: 0x0000, hl: 0x0000, de: 0x0000, bc: 0x0000, f: 0x80, a: 0x00, sp: 0x0000 };
    let flip = ZexState { instruction: 0x00000000, operand: 0x00ff, iy: 0x0000, ix: 0x0000, hl: 0x0000, de: 0x0000, bc: 0x0000, f: 0x57, a: 0x00, sp: 0x0000 };
    assert_eq!(zex_run_test(&init, &incr, &flip, 0xd7), 0x713acd81);
}

#[test]
fn zex_rotz80() {
    let init = ZexState { instruction: 0xcb000000, operand: 0xcceb, iy: 0x5d4a, ix: 0xe007, hl: 0x0103, de: 0x1395, bc: 0x30ee, f: 0x43, a: 0x78, sp: 0x3dad };
    let incr = ZexState { instruction: 0x003f0000, operand: 0x0000, iy: 0x0000, ix: 0x0000, hl: 0x0000, de: 0x0000, bc: 0x0000, f: 0x80, a: 0x00, sp: 0x0000 };
    let flip = ZexState { instruction: 0x00000000, operand: 0x00ff, iy: 0x0000, ix: 0x0000, hl: 0x0000, de: 0xffff, bc: 0xffff, f: 0x57, a: 0xff, sp: 0x0000 };
    assert_eq!(zex_run_test(&init, &incr, &flip, 0xd7), 0xeb604d58);
}

#[test]
fn zex_srz80() {
    let init = ZexState { instruction: 0xcb800000, operand: 0x2cd5, iy: 0x97ab, ix: 0x39ff, hl: 0x0103, de: 0xd14b, bc: 0x6ab2, f: 0x53, a: 0x27, sp: 0xb538 };
    let incr = ZexState { instruction: 0x007f0000, operand: 0x0000, iy: 0x0000, ix: 0x0000, hl: 0x0000, de: 0x0000, bc: 0x0000, f: 0x00, a: 0x00, sp: 0x0000 };
    let flip = ZexState { instruction: 0x00000000, operand: 0x00ff, iy: 0x0000, ix: 0x0000, hl: 0x0000, de: 0xffff, bc: 0xffff, f: 0xd7, a: 0xff, sp: 0x0000 };
    assert_eq!(zex_run_test(&init, &incr, &flip, 0xd7), 0x8b57f008);
}

#[test]
fn zex_srzx() {
    let init = ZexState { instruction: 0xddcb0186, operand: 0xfb44, iy: 0x0102, ix: 0x0102, hl: 0xba09, de: 0x68be, bc: 0x32d8, f: 0x10, a: 0x5e, sp: 0xa867 };
    let incr = ZexState { instruction: 0x20000078, operand: 0x0000, iy: 0x0000, ix: 0x0000, hl: 0x0000, de: 0x0000, bc: 0x0000, f: 0x00, a: 0x00, sp: 0x0000 };
    let flip = ZexState { instruction: 0x00000000, operand: 0x00ff, iy: 0x0000, ix: 0x0000, hl: 0x0000, de: 0x0000, bc: 0x0000, f: 0xd7, a: 0x00, sp: 0x0000 };
    assert_eq!(zex_run_test(&init, &incr, &flip, 0xd7), 0xcc63f98a);
}

#[test]
fn zex_st8ix1() {
    let init = ZexState { instruction: 0xdd700100, operand: 0x270d, iy: 0x0102, ix: 0x0102, hl: 0xb73a, de: 0x887b, bc: 0x99ee, f: 0x86, a: 0x70, sp: 0xca07 };
    let incr = ZexState { instruction: 0x20030000, operand: 0x0000, iy: 0x0001, ix: 0x0001, hl: 0x0000, de: 0x0000, bc: 0x0000, f: 0x00, a: 0x00, sp: 0x0000 };
    let flip = ZexState { instruction: 0x00000000, operand: 0x0000, iy: 0x0000, ix: 0x0000, hl: 0x0000, de: 0xffff, bc: 0xffff, f: 0x00, a: 0x00, sp: 0x0000 };
    assert_eq!(zex_run_test(&init, &incr, &flip, 0xd7), 0x04626abf);
}

#[test]
fn zex_st8ix2() {
    let init = ZexState { instruction: 0xdd740100, operand: 0xb664, iy: 0x0102, ix: 0x0102, hl: 0xe8ac, de: 0xb5f5, bc: 0xaafe, f: 0x12, a: 0x10, sp: 0x9566 };
    let incr = ZexState { instruction: 0x20010000, operand: 0x0000, iy: 0x0001, ix: 0x0001, hl: 0x0000, de: 0x0000, bc: 0x0000, f: 0x00, a: 0x00, sp: 0x0000 };
    let flip = ZexState { instruction: 0x00000000, operand: 0x0000, iy: 0x0000, ix: 0x0000, hl: 0xffff, de: 0x0000, bc: 0x0000, f: 0x00, a: 0x00, sp: 0x0000 };
    assert_eq!(zex_run_test(&init, &incr, &flip, 0xd7), 0x6a1a8831);
}

#[test]
fn zex_st8ix3() {
    let init = ZexState { instruction: 0xdd770100, operand: 0x67af, iy: 0x0102, ix: 0x0102, hl: 0x4f13, de: 0x0644, bc: 0xbcd7, f: 0x50, a: 0xac, sp: 0x5faf };
    let incr = ZexState { instruction: 0x20000000, operand: 0x0000, iy: 0x0001, ix: 0x0001, hl: 0x0000, de: 0x0000, bc: 0x0000, f: 0x00, a: 0x00, sp: 0x0000 };
    let flip = ZexState { instruction: 0x00000000, operand: 0x0000, iy: 0x0000, ix: 0x0000, hl: 0x0000, de: 0x0000, bc: 0x0000, f: 0x00, a: 0xff, sp: 0x0000 };
    assert_eq!(zex_run_test(&init, &incr, &flip, 0xd7), 0xccbe5a96);
}

#[test]
fn zex_stabd() {
    let init = ZexState { instruction: 0x02000000, operand: 0x0c3b, iy: 0xb592, ix: 0x6cff, hl: 0x959e, de: 0x0103, bc: 0x0104, f: 0xc1, a: 0x21, sp: 0xbde7 };
    let incr = ZexState { instruction: 0x18000000, operand: 0x0000, iy: 0x0000, ix: 0x0000, hl: 0x0000, de: 0x0000, bc: 0x0000, f: 0x00, a: 0x00, sp: 0x0000 };
    let flip = ZexState { instruction: 0x00000000, operand: 0xffff, iy: 0x0000, ix: 0x0000, hl: 0x0000, de: 0x0000, bc: 0x0000, f: 0x00, a: 0xff, sp: 0x0000 };
    assert_eq!(zex_run_test(&init, &incr, &flip, 0xd7), 0x7a4c114f);
}

#[test]
fn zex_ld162() {
    let init = ZexState { instruction: 0x2a030100, operand: 0x9863, iy: 0x7830, ix: 0x2077, hl: 0xb1fe, de: 0xb9fa, bc: 0xabb8, f: 0x04, a: 0x06, sp: 0x6015 };
    let incr = ZexState { instruction: 0x00000000, operand: 0x0000, iy: 0x0000, ix: 0x0000, hl: 0x0000, de: 0x0000, bc: 0x0000, f: 0x00, a: 0x00, sp: 0x0000 };
    let flip = ZexState { instruction: 0x00000000, operand: 0xffff, iy: 0x0000, ix: 0x0000, hl: 0x0000, de: 0x0000, bc: 0x0000, f: 0x00, a: 0x00, sp: 0x0000 };
    assert_eq!(zex_run_test(&init, &incr, &flip, 0xd7), 0x5f972487);
}

#[test]
fn zex_ld166() {
    let init = ZexState { instruction: 0x22030100, operand: 0xd003, iy: 0x7772, ix: 0x7f53, hl: 0x3f72, de: 0x64ea, bc: 0xe180, f: 0x10, a: 0x2d, sp: 0x35e9 };
    let incr = ZexState { instruction: 0x00000000, operand: 0x0000, iy: 0x0000, ix: 0x0000, hl: 0x0000, de: 0x0000, bc: 0x0000, f: 0x00, a: 0x00, sp: 0x0000 };
    let flip = ZexState { instruction: 0x00000000, operand: 0x0000, iy: 0x0000, ix: 0x0000, hl: 0xffff, de: 0x0000, bc: 0x0000, f: 0x00, a: 0x00, sp: 0x0000 };
    assert_eq!(zex_run_test(&init, &incr, &flip, 0xd7), 0xa3608b47);
}

#[test]
fn zex_ld167() {
    let init = ZexState { instruction: 0xed730301, operand: 0xc0dc, iy: 0xd1d6, ix: 0xed5a, hl: 0xf356, de: 0xafda, bc: 0x6ca7, f: 0x44, a: 0x9f, sp: 0x3f0a };
    let incr = ZexState { instruction: 0x00000000, operand: 0x0000, iy: 0x0000, ix: 0x0000, hl: 0x0000, de: 0x0000, bc: 0x0000, f: 0x00, a: 0x00, sp: 0x0000 };
    let flip = ZexState { instruction: 0x00000000, operand: 0x0000, iy: 0x0000, ix: 0x0000, hl: 0x0000, de: 0x0000, bc: 0x0000, f: 0x00, a: 0x00, sp: 0xffff };
    assert_eq!(zex_run_test(&init, &incr, &flip, 0xd7), 0x16585fd7);
}
#[test]
fn zex_alu8x() {
    let init = ZexState { instruction: 0xdd860100, operand: 0x90b7, iy: 0x0102, ix: 0x0102, hl: 0x32fd, de: 0x406e, bc: 0xc1dc, f: 0x45, a: 0x6e, sp: 0xe5fa };
    let incr = ZexState { instruction: 0x20380000, operand: 0x0000, iy: 0x0001, ix: 0x0001, hl: 0x0000, de: 0x0000, bc: 0x0000, f: 0x00, a: 0xff, sp: 0x0000 };
    let flip = ZexState { instruction: 0x00000000, operand: 0x00ff, iy: 0x0000, ix: 0x0000, hl: 0x0000, de: 0x0000, bc: 0x0000, f: 0xd7, a: 0x00, sp: 0x0000 };
    assert_eq!(zex_run_test(&init, &incr, &flip, 0xd7), 0xe849676e);
}

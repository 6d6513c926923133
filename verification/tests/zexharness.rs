use z180emu::zex::{count_bits, flip_state, updcrc, zex_execute, zex_run_test, SweepBits, ZexState};

#[test]
fn test_zex_state() {
    let mut state = ZexState {
        instruction: 0xdd_66_01_00,
        operand: 0x84e0,
        iy: 0x102,
        ix: 0x102,
        hl: 0x9c52,
        de: 0xa799,
        bc: 0x49b6,
        f: 0x93,
        a: 0x00,
        sp: 0xeead,
    };
    // 02 01 02 01 52 9c 99 a7 b6 49 93 00 ad ee

    assert_eq!(state.get(0), 0xdd, "instruction.0 access is correct");
    assert_eq!(state.get(1), 0x66, "instruction.1 access is correct");
    assert_eq!(state.get(2), 0x01, "instruction.2 access is correct");
    assert_eq!(state.get(3), 0x00, "instruction.3 access is correct");
    assert_eq!(state.get(4), 0xe0, "operand.0 access is correct");
    assert_eq!(state.get(5), 0x84, "operand.0 access is correct");
    assert_eq!(state.get(6), 0x02, "iy.0 access is correct");
    assert_eq!(state.get(7), 0x01, "iy.1 access is correct");
    assert_eq!(state.get(8), 0x02, "ix.0 access is correct");
    assert_eq!(state.get(9), 0x01, "ix.1 access is correct");
    assert_eq!(state.get(10), 0x52, "hl.0 access is correct");
    assert_eq!(state.get(11), 0x9c, "hl.1 access is correct");
    assert_eq!(state.get(12), 0x99, "de.0 access is correct");
    assert_eq!(state.get(13), 0xa7, "de.1 access is correct");
    assert_eq!(state.get(14), 0xb6, "bc.0 access is correct");
    assert_eq!(state.get(15), 0x49, "bc.1 access is correct");
    assert_eq!(state.get(16), 0x93, "f access is correct");
    assert_eq!(state.get(17), 0x00, "a access is correct");
    assert_eq!(state.get(18), 0xad, "sp.0 access is correct");
    assert_eq!(state.get(19), 0xee, "sp.1 access is correct");

    state.set(5, state.get(5) ^ (1 << 0));
    assert_eq!(state.operand, 0x85e0, "operand is good");
    state.set(4, state.get(4) ^ (1 << 3));
    assert_eq!(state.operand, 0x85e8, "operand low byte good");
}

#[test]
fn test_flip_state() {
    let mut state = ZexState {
        instruction: 0xdd_66_01_00,
        operand: 0x84e0,
        iy: 0x102,
        ix: 0x102,
        hl: 0x9c52,
        de: 0xa799,
        bc: 0x49b6,
        f: 0x93,
        a: 0x00,
        sp: 0xeead,
    };
    let mask = ZexState {
        instruction: 0x20_08_00_00,
        operand: 0,
        iy: 1,
        ix: 1,
        hl: 0,
        de: 0,
        bc: 0,
        f: 0,
        a: 0,
        sp: 0,
    };
    let shift = ZexState {
        instruction: 0,
        operand: 0xffff,
        iy: 0,
        ix: 0,
        hl: 0,
        de: 0,
        bc: 0,
        f: 0,
        a: 0,
        sp: 0,
    };

    flip_state(&mut state, &mask, &SweepBits::from_u64(1));

    assert_eq!(state.instruction, 0xfd_66_01_00, "flip bit 6 of byte 1 first");

    flip_state(&mut state, &mask, &SweepBits::from_u64(2));

    assert_eq!(state.instruction, 0xfd_6e_01_00, "flip bit 3 of byte 2 next");

    let operands: [u16; 8] = [0x84e1, 0x84e2, 0x84e4, 0x84e8, 0x84f0, 0x84c0, 0x84a0, 0x8460];
    for b in 0..8 {
        state.operand = 0x84e0;
        flip_state(&mut state, &shift, &SweepBits::one_hot(b));
        assert_eq!(state.operand, operands[b], "shifted safely");
    }
}

#[test]
fn count_bits_sums_the_masks() {
    let mask = ZexState {
        instruction: 0x00380000,
        operand: 0,
        iy: 0,
        ix: 0,
        hl: 0xf821,
        de: 0,
        bc: 0,
        f: 0,
        a: 0,
        sp: 0,
    };
    assert_eq!(count_bits(&mask), 10);
    let zero = ZexState {
        instruction: 0,
        operand: 0,
        iy: 0,
        ix: 0,
        hl: 0,
        de: 0,
        bc: 0,
        f: 0,
        a: 0,
        sp: 0,
    };
    assert_eq!(count_bits(&zero), 0);
}

// One `SBC HL, BC` case folded into a fresh CRC. The borrow out of bit 12
// sets H here, which the specification requires of `SBC HL`; the expected
// value is computed with that flag in the folded F byte.
#[test]
fn exec_tests() {
    let state = ZexState {
        instruction: 0xed420000,
        operand: 0x2c83,
        iy: 0x4f88,
        ix: 0xf22b,
        hl: 0xb339,
        de: 0x7e1f,
        bc: 0x1563,
        f: 0xd3,
        a: 0x89,
        sp: 0x465e,
    };

    assert_eq!(zex_execute(&state, 0xff, 0xffffffff), 0xc6feff0b, "CRC is correct");
}

#[test]
fn crctest() {
    assert_eq!(updcrc(0xffffffff, 0x2c), 0x1f257c91);
    assert_eq!(updcrc(0x1f257c91, 0x83), 0xf3a65434);
    assert_eq!(updcrc(0xf3a65434, 0x88), 0xc22459f3);
}

// The published `<adc,sbc> hl,<bc,de,hl,sp>` conformance sweep: the 32-bit
// CRC over the post-execution states of every generated combination matches
// the value computed on authentic hardware.
#[test]
fn zex_adc16() {
    let init = ZexState {
        instruction: 0xed420000,
        operand: 0x832c,
        iy: 0x4f88,
        ix: 0xf22b,
        hl: 0xb339,
        de: 0x7e1f,
        bc: 0x1563,
        f: 0xd3,
        a: 0x89,
        sp: 0x465e,
    };
    let incr = ZexState {
        instruction: 0x00380000,
        operand: 0,
        iy: 0,
        ix: 0,
        hl: 0xf821,
        de: 0,
        bc: 0,
        f: 0,
        a: 0,
        sp: 0,
    };
    let flip = ZexState {
        instruction: 0,
        operand: 0,
        iy: 0,
        ix: 0,
        hl: 0xffff,
        de: 0xffff,
        bc: 0xffff,
        f: 0xd7,
        a: 0,
        sp: 0xffff,
    };
    assert_eq!(zex_run_test(&init, &incr, &flip, 0xc7), 0xf8b4eaa9, "<adc,sbc> hl,<bc,de,hl,sp>");
}

// The published `<daa,cpl,scf,ccf>` conformance sweep.
#[test]
fn zex_daaop() {
    let init = ZexState {
        instruction: 0x27000000,
        operand: 0x2141,
        iy: 0x09fa,
        ix: 0x1d60,
        hl: 0xa559,
        de: 0x8d5b,
        bc: 0x9079,
        f: 0x04,
        a: 0x8e,
        sp: 0x299d,
    };
    let incr = ZexState {
        instruction: 0x18000000,
        operand: 0,
        iy: 0,
        ix: 0,
        hl: 0,
        de: 0,
        bc: 0,
        f: 0xd7,
        a: 0xff,
        sp: 0,
    };
    let flip = ZexState {
        instruction: 0,
        operand: 0,
        iy: 0,
        ix: 0,
        hl: 0,
        de: 0,
        bc: 0,
        f: 0,
        a: 0,
        sp: 0,
    };
    assert_eq!(zex_run_test(&init, &incr, &flip, 0xd7), 0x9b4ba675, "<daa,cpl,scf,ccf>");
}

use vstd::prelude::*;

use crate::bus::{Bus};
use crate::cpu::enums::{Operand, FLAG_C, FLAG_H, FLAG_N, FLAG_P, FLAG_S, FLAG_Z};
use crate::cpu::{CPU, GR};

verus! {

/// Sign flag of an 8-bit result: bit 7.
pub open spec fn sign8(v: u8) -> u8 {
    v & 0x80
}

/// Zero flag of an 8-bit result.
pub open spec fn zero8(v: u8) -> u8 {
    if v == 0 {
        0x40
    } else {
        0
    }
}

/// The number of set bits in a byte.
pub open spec fn bit_count8(v: u8) -> int {
    (v as int) % 2 + (v / 2) % 2 + (v / 4) % 2 + (v / 8) % 2 + (v / 16) % 2 + (v / 32) % 2 + (v
        / 64) % 2 + (v / 128) % 2
}

/// Parity flag of an 8-bit result: set when the number of set bits is even.
pub open spec fn parity8(v: u8) -> u8 {
    if bit_count8(v) % 2 == 0 {
        FLAG_P
    } else {
        0
    }
}

/// Flags S, Z and P computed from an 8-bit result.
pub open spec fn szp8(v: u8) -> u8 {
    sign8(v) | zero8(v) | parity8(v)
}

/// The 8-bit adder: `a + b + cin` truncated to a byte.
pub open spec fn add8_val(a: u8, b: u8, cin: u8) -> u8 {
    ((a + b + cin) % 256) as u8
}

/// Flags of an 8-bit addition: S from bit 7, Z from the byte result, H from
/// the carry into bit 4, P/V from two's-complement overflow, N reset, C from
/// the carry out of bit 7.
pub open spec fn add8_flags(a: u8, b: u8, cin: u8) -> u8 {
    sign8(add8_val(a, b, cin)) | zero8(add8_val(a, b, cin)) | ((a ^ b ^ add8_val(a, b, cin))
        & FLAG_H) | ((((a ^ b ^ 0x80) & (a ^ add8_val(a, b, cin)) & 0x80) / 32) as u8) | (if a + b
        + cin > 255 {
        FLAG_C
    } else {
        0
    })
}

/// The 8-bit subtractor: `a - b - cin` wrapped to a byte.
pub open spec fn sub8_val(a: u8, b: u8, cin: u8) -> u8 {
    ((a + 512 - b - cin) % 256) as u8
}

/// Flags of an 8-bit subtraction: S from bit 7, Z from the byte result, H
/// from the borrow into bit 4, P/V from two's-complement overflow, N set, C
/// from the borrow.
pub open spec fn sub8_flags(a: u8, b: u8, cin: u8) -> u8 {
    sign8(sub8_val(a, b, cin)) | zero8(sub8_val(a, b, cin)) | ((a ^ b ^ sub8_val(a, b, cin))
        & FLAG_H) | ((((a ^ b) & (a ^ sub8_val(a, b, cin)) & 0x80) / 32) as u8) | FLAG_N | (if (
    a as int) < b + cin {
        FLAG_C
    } else {
        0
    })
}

/// Flags of the logical operations: S, Z and P from the result, H set for
/// AND and reset for OR/XOR, N and C reset.
pub open spec fn logic_flags(v: u8, half: u8) -> u8 {
    szp8(v) | half
}

/// The carry-in the instruction uses: the C flag for the with-carry forms,
/// zero otherwise.
pub open spec fn carry_in(f: u8, with_carry: bool) -> u8 {
    if with_carry && f & FLAG_C != 0 {
        1
    } else {
        0
    }
}

/// The number of set bits in a byte.
pub fn popcount8(v: u8) -> (r: u8)
    ensures
        r == bit_count8(v),
{
    v % 2 + (v / 2) % 2 + (v / 4) % 2 + (v / 8) % 2 + (v / 16) % 2 + (v / 32) % 2 + (v / 64) % 2 + (
    v / 128) % 2
}

/// Flags S, Z and P computed from an 8-bit result.
pub fn szp_flags(v: u8) -> (r: u8)
    ensures
        r == szp8(v),
{
    let s: u8 = v & 0x80;
    let z: u8 = if v == 0 {
        0x40
    } else {
        0
    };
    let p: u8 = if popcount8(v) % 2 == 0 {
        FLAG_P
    } else {
        0
    };
    s | z | p
}

/// The 8-bit adder with flag synthesis.
pub fn alu_add8(a: u8, b: u8, cin: u8) -> (r: (u8, u8))
    requires
        cin <= 1,
    ensures
        r.0 == add8_val(a, b, cin),
        r.1 == add8_flags(a, b, cin),
{
    let sum: u16 = a as u16 + b as u16 + cin as u16;
    let v: u8 = (sum % 256) as u8;
    let h: u8 = (a ^ b ^ v) & FLAG_H;
    let overflow: u8 = ((a ^ b ^ 0x80) & (a ^ v) & 0x80) / 32;
    let c: u8 = if sum > 255 {
        FLAG_C
    } else {
        0
    };
    let s: u8 = v & 0x80;
    let z: u8 = if v == 0 {
        0x40
    } else {
        0
    };
    (v, s | z | h | overflow | c)
}

/// The 8-bit subtractor with flag synthesis.
pub fn alu_sub8(a: u8, b: u8, cin: u8) -> (r: (u8, u8))
    requires
        cin <= 1,
    ensures
        r.0 == sub8_val(a, b, cin),
        r.1 == sub8_flags(a, b, cin),
{
    let diff: u16 = (a as u16 + 512 - b as u16 - cin as u16) % 256;
    let v: u8 = diff as u8;
    let h: u8 = (a ^ b ^ v) & FLAG_H;
    let overflow: u8 = ((a ^ b) & (a ^ v) & 0x80) / 32;
    let c: u8 = if (a as u16) < b as u16 + cin as u16 {
        FLAG_C
    } else {
        0
    };
    let s: u8 = v & 0x80;
    let z: u8 = if v == 0 {
        0x40
    } else {
        0
    };
    (v, s | z | h | overflow | FLAG_N | c)
}

impl CPU {
    /// The CPU after `ADD A, src` / `ADC A, src` on an operand value.
    pub open spec fn add_a_spec(self, operand: u8, with_carry: bool) -> CPU {
        CPU {
            gr: GR {
                a: add8_val(self.gr.a, operand, carry_in(self.gr.f, with_carry)),
                f: add8_flags(self.gr.a, operand, carry_in(self.gr.f, with_carry)),
                ..self.gr
            },
            ..self
        }
    }

    /// The CPU after `SUB/SBC/CP A, src` on an operand value: compares leave
    /// A untouched and only set the flags.
    pub open spec fn sub_a_spec(self, operand: u8, with_borrow: bool, store: bool) -> CPU {
        CPU {
            gr: GR {
                a: if store {
                    sub8_val(self.gr.a, operand, carry_in(self.gr.f, with_borrow))
                } else {
                    self.gr.a
                },
                f: sub8_flags(self.gr.a, operand, carry_in(self.gr.f, with_borrow)),
                ..self.gr
            },
            ..self
        }
    }

    /// `ADD A, src` and `ADC A, src`: the 8-bit adder on A and the operand,
    /// with the full flag set of the specification.
    pub fn add_a(&mut self, bus: &mut Bus, src: Operand, with_carry: bool)
        requires
            old(bus)@.wf(),
        ensures
            final(bus)@ == old(bus)@,
            *final(self) == old(self).lo_cpu(src).add_a_spec(
                (old(self).lo_val(old(bus)@, src) % 256) as u8,
                with_carry,
            ),
    {
        let cin: u8 = if with_carry && self.gr.f & FLAG_C != 0 {
            1
        } else {
            0
        };
        let operand = self.load_operand(bus, src);
        let (v, f) = alu_add8(self.gr.a, (operand % 256) as u8, cin);
        self.gr.a = v;
        self.gr.f = f;
    }

    /// `SUB A, src`, `SBC A, src` and `CP A, src`: the 8-bit subtractor on A
    /// and the operand. `CP` (store = false) discards the result byte.
    pub fn sub_a(&mut self, bus: &mut Bus, src: Operand, with_borrow: bool, store: bool)
        requires
            old(bus)@.wf(),
        ensures
            final(bus)@ == old(bus)@,
            *final(self) == old(self).lo_cpu(src).sub_a_spec(
                (old(self).lo_val(old(bus)@, src) % 256) as u8,
                with_borrow,
                store,
            ),
    {
        let cin: u8 = if with_borrow && self.gr.f & FLAG_C != 0 {
            1
        } else {
            0
        };
        let operand = self.load_operand(bus, src);
        let (v, f) = alu_sub8(self.gr.a, (operand % 256) as u8, cin);
        if store {
            self.gr.a = v;
        }
        self.gr.f = f;
    }

    /// The CPU after `AND A, src` on an operand value.
    pub open spec fn and_a_spec(self, operand: u8) -> CPU {
        CPU {
            gr: GR {
                a: self.gr.a & operand,
                f: logic_flags(self.gr.a & operand, FLAG_H),
                ..self.gr
            },
            ..self
        }
    }

    /// `AND A, src`: S, Z and P from the result, H set, N and C reset.
    pub fn and_a(&mut self, bus: &mut Bus, src: Operand)
        requires
            old(bus)@.wf(),
        ensures
            final(bus)@ == old(bus)@,
            *final(self) == old(self).lo_cpu(src).and_a_spec(
                (old(self).lo_val(old(bus)@, src) % 256) as u8,
            ),
    {
        let operand = self.load_operand(bus, src);
        let v: u8 = self.gr.a & (operand % 256) as u8;
        self.gr.a = v;
        self.gr.f = szp_flags(v) | FLAG_H;
    }

    /// The CPU after `OR A, src` on an operand value.
    pub open spec fn or_a_spec(self, operand: u8) -> CPU {
        CPU {
            gr: GR { a: self.gr.a | operand, f: szp8(self.gr.a | operand), ..self.gr },
            ..self
        }
    }

    /// `OR A, src`: S, Z and P from the result, H, N and C reset.
    pub fn or_a(&mut self, bus: &mut Bus, src: Operand)
        requires
            old(bus)@.wf(),
        ensures
            final(bus)@ == old(bus)@,
            *final(self) == old(self).lo_cpu(src).or_a_spec(
                (old(self).lo_val(old(bus)@, src) % 256) as u8,
            ),
    {
        let operand = self.load_operand(bus, src);
        let v: u8 = self.gr.a | (operand % 256) as u8;
        self.gr.a = v;
        self.gr.f = szp_flags(v);
    }

    /// The CPU after `XOR A, src` on an operand value.
    pub open spec fn xor_a_spec(self, operand: u8) -> CPU {
        CPU {
            gr: GR { a: self.gr.a ^ operand, f: szp8(self.gr.a ^ operand), ..self.gr },
            ..self
        }
    }

    /// `XOR A, src`: S, Z and P from the result, H, N and C reset.
    pub fn xor_a(&mut self, bus: &mut Bus, src: Operand)
        requires
            old(bus)@.wf(),
        ensures
            final(bus)@ == old(bus)@,
            *final(self) == old(self).lo_cpu(src).xor_a_spec(
                (old(self).lo_val(old(bus)@, src) % 256) as u8,
            ),
    {
        let operand = self.load_operand(bus, src);
        let v: u8 = self.gr.a ^ (operand % 256) as u8;
        self.gr.a = v;
        self.gr.f = szp_flags(v);
    }

    /// The CPU after `TST A, src` (Z180 extension): flags of `A AND operand`,
    /// A untouched, C reset.
    pub open spec fn tst_a_spec(self, operand: u8) -> CPU {
        CPU { gr: GR { f: logic_flags(self.gr.a & operand, FLAG_H), ..self.gr }, ..self }
    }

    /// `TST A, src`: AND flags without storing the result.
    pub fn tst_a(&mut self, bus: &mut Bus, src: Operand)
        requires
            old(bus)@.wf(),
        ensures
            final(bus)@ == old(bus)@,
            *final(self) == old(self).lo_cpu(src).tst_a_spec(
                (old(self).lo_val(old(bus)@, src) % 256) as u8,
            ),
    {
        let operand = self.load_operand(bus, src);
        let v: u8 = self.gr.a & (operand % 256) as u8;
        self.gr.f = szp_flags(v) | FLAG_H;
    }

    /// Flags of an 8-bit increment or decrement: add/sub flags with C
    /// preserved.
    pub open spec fn incdec_flags(f: u8, alu_f: u8) -> u8 {
        (alu_f & 0xfe) | (f & FLAG_C)
    }

    /// `INC dst`: add 1 with full add flags except C, which is preserved.
    pub fn inc(&mut self, bus: &mut Bus, dst: Operand)
        requires
            old(bus)@.wf(),
        ensures
            *final(self) == (CPU {
                gr: GR {
                    f: CPU::incdec_flags(
                        old(self).gr.f,
                        add8_flags((old(self).lo_val(old(bus)@, dst) % 256) as u8, 1, 0),
                    ),
                    ..old(self).lo_cpu(dst).so_cpu(
                        dst,
                        add8_val((old(self).lo_val(old(bus)@, dst) % 256) as u8, 1, 0) as u16,
                    ).gr
                },
                ..old(self).lo_cpu(dst).so_cpu(
                    dst,
                    add8_val((old(self).lo_val(old(bus)@, dst) % 256) as u8, 1, 0) as u16,
                )
            }),
            final(bus)@ == old(self).lo_cpu(dst).so_bus(
                old(bus)@,
                dst,
                add8_val((old(self).lo_val(old(bus)@, dst) % 256) as u8, 1, 0) as u16,
            ),
            final(bus)@.wf(),
    {
        let operand = self.load_operand(bus, dst);
        let (v, alu_f) = alu_add8((operand % 256) as u8, 1, 0);
        let f: u8 = (alu_f & 0xfe) | (self.gr.f & FLAG_C);
        self.store_operand(bus, dst, v as u16);
        self.gr.f = f;
    }

    /// `DEC dst`: subtract 1 with full subtract flags except C, which is
    /// preserved.
    pub fn dec(&mut self, bus: &mut Bus, dst: Operand)
        requires
            old(bus)@.wf(),
        ensures
            *final(self) == (CPU {
                gr: GR {
                    f: CPU::incdec_flags(
                        old(self).gr.f,
                        sub8_flags((old(self).lo_val(old(bus)@, dst) % 256) as u8, 1, 0),
                    ),
                    ..old(self).lo_cpu(dst).so_cpu(
                        dst,
                        sub8_val((old(self).lo_val(old(bus)@, dst) % 256) as u8, 1, 0) as u16,
                    ).gr
                },
                ..old(self).lo_cpu(dst).so_cpu(
                    dst,
                    sub8_val((old(self).lo_val(old(bus)@, dst) % 256) as u8, 1, 0) as u16,
                )
            }),
            final(bus)@ == old(self).lo_cpu(dst).so_bus(
                old(bus)@,
                dst,
                sub8_val((old(self).lo_val(old(bus)@, dst) % 256) as u8, 1, 0) as u16,
            ),
            final(bus)@.wf(),
    {
        let operand = self.load_operand(bus, dst);
        let (v, alu_f) = alu_sub8((operand % 256) as u8, 1, 0);
        let f: u8 = (alu_f & 0xfe) | (self.gr.f & FLAG_C);
        self.store_operand(bus, dst, v as u16);
        self.gr.f = f;
    }

    /// The CPU after `NEG`: A is subtracted from zero with full subtract
    /// flags.
    pub open spec fn neg_spec(self) -> CPU {
        CPU {
            gr: GR { a: sub8_val(0, self.gr.a, 0), f: sub8_flags(0, self.gr.a, 0), ..self.gr },
            ..self
        }
    }

    /// `NEG`: A becomes 0 - A with full subtract-style flags.
    pub fn neg(&mut self)
        ensures
            *final(self) == old(self).neg_spec(),
    {
        let (v, f) = alu_sub8(0, self.gr.a, 0);
        self.gr.a = v;
        self.gr.f = f;
    }
}


/// Each flag lands in its own bit of the composed byte, so the composition
/// can be read back bit by bit.
pub proof fn lemma_flag_bits(s: u8, z: u8, h: u8, v: u8, n: u8, c: u8)
    requires
        s == 0 || s == 0x80,
        z == 0 || z == 0x40,
        h == 0 || h == 0x10,
        v == 0 || v == 0x04,
        n == 0 || n == 0x02,
        c == 0 || c == 0x01,
    ensures
        (s | z | h | v | n | c) & 0x80 == s,
        (s | z | h | v | n | c) & 0x40 == z,
        (s | z | h | v | n | c) & 0x10 == h,
        (s | z | h | v | n | c) & 0x04 == v,
        (s | z | h | v | n | c) & 0x02 == n,
        (s | z | h | v | n | c) & 0x01 == c,
{
    assert((s == 0 || s == 0x80) && (z == 0 || z == 0x40) && (h == 0 || h == 0x10) && (v == 0 || v
        == 0x04) && (n == 0 || n == 0x02) && (c == 0 || c == 0x01) ==> (s | z | h | v | n | c)
        & 0x80 == s && (s | z | h | v | n | c) & 0x40 == z && (s | z | h | v | n | c) & 0x10 == h
        && (s | z | h | v | n | c) & 0x04 == v && (s | z | h | v | n | c) & 0x02 == n && (s | z | h
        | v | n | c) & 0x01 == c) by (bit_vector);
}

/// The flag components of the 8-bit adder and subtractor each fit their own
/// bit.
pub proof fn lemma_alu8_components(a: u8, b: u8, r: u8)
    ensures
        sign8(r) == 0 || sign8(r) == 0x80,
        (a ^ b ^ r) & FLAG_H == 0 || (a ^ b ^ r) & FLAG_H == 0x10,
        (((a ^ b ^ 0x80) & (a ^ r) & 0x80) / 32) as u8 == 0 || (((a ^ b ^ 0x80) & (a ^ r) & 0x80)
            / 32) as u8 == 0x04,
        (((a ^ b) & (a ^ r) & 0x80) / 32) as u8 == 0 || (((a ^ b) & (a ^ r) & 0x80) / 32) as u8
            == 0x04,
{
    assert((r & 0x80 == 0 || r & 0x80 == 0x80) && ((a ^ b ^ r) & 0x10 == 0 || (a ^ b ^ r) & 0x10
        == 0x10) && ((((a ^ b ^ 0x80) & (a ^ r) & 0x80) / 32) as u8 == 0 || (((a ^ b ^ 0x80) & (a
        ^ r) & 0x80) / 32) as u8 == 0x04) && ((((a ^ b) & (a ^ r) & 0x80) / 32) as u8 == 0 || (((a
        ^ b) & (a ^ r) & 0x80) / 32) as u8 == 0x04)) by (bit_vector);
}

/// The 8-bit arithmetic flag law: for every pair of operands and carry-in,
/// each flag of the adder and subtractor reads back as its own rule says:
/// S is bit 7 of the result, Z marks a zero result, H the nibble
/// carry/borrow, P/V two's-complement overflow, N tells add from subtract,
/// and C the carry/borrow out.
pub proof fn lemma_alu8_flag_semantics(a: u8, b: u8, cin: u8)
    requires
        cin <= 1,
    ensures
        add8_flags(a, b, cin) & FLAG_S == sign8(add8_val(a, b, cin)),
        add8_flags(a, b, cin) & FLAG_Z == zero8(add8_val(a, b, cin)),
        add8_flags(a, b, cin) & FLAG_H == (a ^ b ^ add8_val(a, b, cin)) & FLAG_H,
        add8_flags(a, b, cin) & FLAG_P == (((a ^ b ^ 0x80) & (a ^ add8_val(a, b, cin)) & 0x80)
            / 32) as u8,
        add8_flags(a, b, cin) & FLAG_N == 0,
        add8_flags(a, b, cin) & FLAG_C == (if a + b + cin > 255 {
            FLAG_C
        } else {
            0
        }),
        sub8_flags(a, b, cin) & FLAG_S == sign8(sub8_val(a, b, cin)),
        sub8_flags(a, b, cin) & FLAG_Z == zero8(sub8_val(a, b, cin)),
        sub8_flags(a, b, cin) & FLAG_H == (a ^ b ^ sub8_val(a, b, cin)) & FLAG_H,
        sub8_flags(a, b, cin) & FLAG_P == (((a ^ b) & (a ^ sub8_val(a, b, cin)) & 0x80) / 32) as u8,
        sub8_flags(a, b, cin) & FLAG_N == FLAG_N,
        sub8_flags(a, b, cin) & FLAG_C == (if (a as int) < b + cin {
            FLAG_C
        } else {
            0
        }),
{
    let ra = add8_val(a, b, cin);
    let rs = sub8_val(a, b, cin);
    lemma_alu8_components(a, b, ra);
    lemma_alu8_components(a, b, rs);
    let ca: u8 = if a + b + cin > 255 {
        FLAG_C
    } else {
        0
    };
    let cs: u8 = if (a as int) < b + cin {
        FLAG_C
    } else {
        0
    };
    lemma_flag_bits(
        sign8(ra),
        zero8(ra),
        (a ^ b ^ ra) & FLAG_H,
        (((a ^ b ^ 0x80) & (a ^ ra) & 0x80) / 32) as u8,
        0,
        ca,
    );
    lemma_flag_bits(
        sign8(rs),
        zero8(rs),
        (a ^ b ^ rs) & FLAG_H,
        (((a ^ b) & (a ^ rs) & 0x80) / 32) as u8,
        FLAG_N,
        cs,
    );
    assert(add8_flags(a, b, cin) == sign8(ra) | zero8(ra) | ((a ^ b ^ ra) & FLAG_H) | ((((a ^ b
        ^ 0x80) & (a ^ ra) & 0x80) / 32) as u8) | 0 | ca) by {
        assert(forall|x: u8| #![auto] x | 0 == x && (x | 0) | ca == x | ca) by (bit_vector);
    }
}

} // verus!

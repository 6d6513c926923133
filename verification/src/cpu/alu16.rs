use vstd::prelude::*;

use crate::bus::Bus;
use crate::cpu::alu::{carry_in};
use crate::cpu::enums::{Operand, RegW, Register, FLAG_C, FLAG_N, FLAG_P, FLAG_S, FLAG_Z};
use crate::cpu::{wadd16, CPU, GR};

verus! {

/// Sign flag of a 16-bit result: bit 15.
pub open spec fn sign16(v: u16) -> u8 {
    ((v & 0x8000) / 256) as u8
}

/// Zero flag of a full 16-bit result.
pub open spec fn zero16(v: u16) -> u8 {
    if v == 0 {
        FLAG_Z
    } else {
        0
    }
}

/// The 16-bit adder: `a + b + cin` truncated to a word.
pub open spec fn add16_val(a: u16, b: u16, cin: u8) -> u16 {
    ((a + b + cin) % 0x10000) as u16
}

/// Flags of `ADC HL, ww`: S from bit 15, Z over the whole 16-bit result, H
/// from the carry into bit 12, P/V from 16-bit overflow at bit 15, N reset,
/// C from the carry out of bit 15.
pub open spec fn adc16_flags(a: u16, b: u16, cin: u8) -> u8 {
    sign16(add16_val(a, b, cin)) | zero16(add16_val(a, b, cin)) | (((a ^ b ^ add16_val(a, b, cin))
        & 0x1000) / 256) as u8 | ((((a ^ b ^ 0x8000) & (a ^ add16_val(a, b, cin)) & 0x8000)
        / 0x2000) as u8) | (if a + b + cin > 0xffff {
        FLAG_C
    } else {
        0
    })
}

/// Flags of `ADD HL, ww`: only H (carry into bit 12) and C (carry out of bit
/// 15) are computed; N is reset and S, Z and P/V are preserved.
pub open spec fn add16_flags(f: u8, a: u16, b: u16) -> u8 {
    (f & 0xc4) | (((a ^ b ^ add16_val(a, b, 0)) & 0x1000) / 256) as u8 | (if a + b > 0xffff {
        FLAG_C
    } else {
        0
    })
}

/// The 16-bit subtractor: `a - b - cin` wrapped to a word.
pub open spec fn sub16_val(a: u16, b: u16, cin: u8) -> u16 {
    ((a + 0x20000 - b - cin) % 0x10000) as u16
}

/// Flags of `SBC HL, ww`: S from bit 15, Z over the whole 16-bit result, H
/// from the borrow into bit 12, P/V from 16-bit overflow at bit 15, N set,
/// C from the borrow.
pub open spec fn sbc16_flags(a: u16, b: u16, cin: u8) -> u8 {
    sign16(sub16_val(a, b, cin)) | zero16(sub16_val(a, b, cin)) | (((a ^ b ^ sub16_val(a, b, cin))
        & 0x1000) / 256) as u8 | ((((a ^ b) & (a ^ sub16_val(a, b, cin)) & 0x8000)
        / 0x2000) as u8) | FLAG_N | (if (a as int) < b + cin {
        FLAG_C
    } else {
        0
    })
}

impl CPU {
    /// The CPU after `ADD xx, ww` / `ADC xx, ww` (xx one of HL, IX, IY).
    pub open spec fn add16_spec(self, xx: Register, ww: Register, with_carry: bool) -> CPU {
        if with_carry {
            self.write_reg_spec(
                xx,
                add16_val(self.reg_spec(xx), self.reg_spec(ww), carry_in(self.gr.f, true)),
            ).with_f(
                adc16_flags(self.reg_spec(xx), self.reg_spec(ww), carry_in(self.gr.f, true)),
            )
        } else {
            self.write_reg_spec(xx, add16_val(self.reg_spec(xx), self.reg_spec(ww), 0)).with_f(
                add16_flags(self.gr.f, self.reg_spec(xx), self.reg_spec(ww)),
            )
        }
    }

    /// The CPU with the flag byte replaced.
    pub open spec fn with_f(self, f: u8) -> CPU {
        CPU { gr: GR { f, ..self.gr }, ..self }
    }

    /// `ADD xx, ww` and `ADC xx, ww`. The plain add affects only H, N and C;
    /// the with-carry form computes the full 16-bit flag set (Z over all 16
    /// bits, overflow at bit 15).
    pub fn add16(&mut self, xx: Register, ww: Register, with_carry: bool)
        ensures
            *final(self) == old(self).add16_spec(xx, ww, with_carry),
    {
        let carry: u8 = if with_carry && self.gr.f & FLAG_C != 0 {
            1
        } else {
            0
        };
        let value = self.reg(ww);
        let src = self.reg(xx);
        let sum: u32 = src as u32 + value as u32 + carry as u32;
        let result: u16 = (sum % 0x10000) as u16;

        if with_carry {
            let s: u8 = ((result & 0x8000) / 256) as u8;
            let z: u8 = if result == 0 {
                FLAG_Z
            } else {
                0
            };
            let h: u8 = (((src ^ value ^ result) & 0x1000) / 256) as u8;
            let overflow: u8 = (((src ^ value ^ 0x8000) & (src ^ result) & 0x8000) / 0x2000) as u8;
            let c: u8 = if sum > 0xffff {
                FLAG_C
            } else {
                0
            };
            self.write_reg(xx, result);
            self.gr.f = s | z | h | overflow | c;
        } else {
            let h: u8 = (((src ^ value ^ result) & 0x1000) / 256) as u8;
            let c: u8 = if sum > 0xffff {
                FLAG_C
            } else {
                0
            };
            let f: u8 = (self.gr.f & 0xc4) | h | c;
            self.write_reg(xx, result);
            self.gr.f = f;
        }
    }

    /// The CPU after `SBC HL, ww`.
    pub open spec fn sub_hl_ww_spec(self, ww: RegW, borrow: bool) -> CPU {
        CPU {
            gr: GR {
                hl: sub16_val(
                    self.gr.hl,
                    self.reg_spec(ww.to_register_spec()),
                    carry_in(self.gr.f, borrow),
                ),
                f: sbc16_flags(
                    self.gr.hl,
                    self.reg_spec(ww.to_register_spec()),
                    carry_in(self.gr.f, borrow),
                ),
                ..self.gr
            },
            ..self
        }
    }

    /// `SBC HL, ww`: the 16-bit subtractor with the full flag set (Z over all
    /// 16 bits, overflow at bit 15, N set).
    pub fn sub_hl_ww(&mut self, ww: RegW, borrow: bool)
        ensures
            *final(self) == old(self).sub_hl_ww_spec(ww, borrow),
    {
        let carry: u8 = if borrow && self.gr.f & FLAG_C != 0 {
            1
        } else {
            0
        };
        let operand = self.reg(ww.to_register());
        let hl = self.gr.hl;
        let result: u16 = ((hl as u32 + 0x20000 - operand as u32 - carry as u32) % 0x10000) as u16;

        let s: u8 = ((result & 0x8000) / 256) as u8;
        let z: u8 = if result == 0 {
            FLAG_Z
        } else {
            0
        };
        let h: u8 = (((hl ^ operand ^ result) & 0x1000) / 256) as u8;
        let overflow: u8 = (((hl ^ operand) & (hl ^ result) & 0x8000) / 0x2000) as u8;
        let c: u8 = if (hl as u32) < operand as u32 + carry as u32 {
            FLAG_C
        } else {
            0
        };
        self.gr.hl = result;
        self.gr.f = s | z | h | overflow | FLAG_N | c;
    }

    /// `INC reg16` (through an operand): wraps modulo 2^16, no flags change.
    pub fn inc16(&mut self, bus: &mut Bus, reg: Operand)
        requires
            old(bus)@.wf(),
        ensures
            *final(self) == old(self).lo_cpu(reg).so_cpu(
                reg,
                wadd16(old(self).lo_val(old(bus)@, reg), 1),
            ),
            final(bus)@ == old(self).lo_cpu(reg).so_bus(
                old(bus)@,
                reg,
                wadd16(old(self).lo_val(old(bus)@, reg), 1),
            ),
            final(bus)@.wf(),
    {
        let src = self.load_operand(bus, reg);
        let v = super::wrap_add16(src, 1);
        self.store_operand(bus, reg, v);
    }

    /// `DEC reg16` (through an operand): wraps modulo 2^16, no flags change.
    pub fn dec16(&mut self, bus: &mut Bus, reg: Operand)
        requires
            old(bus)@.wf(),
        ensures
            *final(self) == old(self).lo_cpu(reg).so_cpu(
                reg,
                super::wsub16(old(self).lo_val(old(bus)@, reg), 1),
            ),
            final(bus)@ == old(self).lo_cpu(reg).so_bus(
                old(bus)@,
                reg,
                super::wsub16(old(self).lo_val(old(bus)@, reg), 1),
            ),
            final(bus)@.wf(),
    {
        let src = self.load_operand(bus, reg);
        let v = super::wrap_sub16(src, 1);
        self.store_operand(bus, reg, v);
    }
}


/// The flag components of the 16-bit adder and subtractor each fit their own
/// bit.
proof fn lemma_alu16_components(a: u16, b: u16, r: u16)
    ensures
        sign16(r) == 0 || sign16(r) == 0x80,
        (((a ^ b ^ r) & 0x1000) / 256) as u8 == 0 || (((a ^ b ^ r) & 0x1000) / 256) as u8 == 0x10,
        ((((a ^ b ^ 0x8000) & (a ^ r) & 0x8000) / 0x2000) as u8) == 0 || ((((a ^ b ^ 0x8000) & (a
            ^ r) & 0x8000) / 0x2000) as u8) == 0x04,
        ((((a ^ b) & (a ^ r) & 0x8000) / 0x2000) as u8) == 0 || ((((a ^ b) & (a ^ r) & 0x8000)
            / 0x2000) as u8) == 0x04,
{
    assert((((r & 0x8000) / 256) as u8 == 0 || ((r & 0x8000) / 256) as u8 == 0x80) && ((((a ^ b
        ^ r) & 0x1000) / 256) as u8 == 0 || (((a ^ b ^ r) & 0x1000) / 256) as u8 == 0x10) && (((((
    a ^ b ^ 0x8000) & (a ^ r) & 0x8000) / 0x2000) as u8) == 0 || ((((a ^ b ^ 0x8000) & (a ^ r)
        & 0x8000) / 0x2000) as u8) == 0x04) && (((((a ^ b) & (a ^ r) & 0x8000) / 0x2000) as u8)
        == 0 || ((((a ^ b) & (a ^ r) & 0x8000) / 0x2000) as u8) == 0x04)) by (bit_vector);
}

/// The 16-bit with-carry arithmetic flag law: `ADC`/`SBC HL, ww` compute
/// their flags from the full 16-bit result. Z reads back set exactly when
/// all sixteen result bits are zero, P/V exactly when the signed result
/// overflowed at bit 15, S from bit 15, and C from the carry or borrow out
/// of bit 15.
pub proof fn lemma_alu16_flag_semantics(a: u16, b: u16, cin: u8)
    requires
        cin <= 1,
    ensures
        adc16_flags(a, b, cin) & FLAG_Z == zero16(add16_val(a, b, cin)),
        adc16_flags(a, b, cin) & FLAG_S == sign16(add16_val(a, b, cin)),
        adc16_flags(a, b, cin) & FLAG_P == ((((a ^ b ^ 0x8000) & (a ^ add16_val(a, b, cin))
            & 0x8000) / 0x2000) as u8),
        adc16_flags(a, b, cin) & FLAG_N == 0,
        adc16_flags(a, b, cin) & FLAG_C == (if a + b + cin > 0xffff {
            FLAG_C
        } else {
            0
        }),
        sbc16_flags(a, b, cin) & FLAG_Z == zero16(sub16_val(a, b, cin)),
        sbc16_flags(a, b, cin) & FLAG_S == sign16(sub16_val(a, b, cin)),
        sbc16_flags(a, b, cin) & FLAG_P == ((((a ^ b) & (a ^ sub16_val(a, b, cin)) & 0x8000)
            / 0x2000) as u8),
        sbc16_flags(a, b, cin) & FLAG_N == FLAG_N,
        sbc16_flags(a, b, cin) & FLAG_C == (if (a as int) < b + cin {
            FLAG_C
        } else {
            0
        }),
{
    let ra = add16_val(a, b, cin);
    let rs = sub16_val(a, b, cin);
    lemma_alu16_components(a, b, ra);
    lemma_alu16_components(a, b, rs);
    let ca: u8 = if a + b + cin > 0xffff {
        FLAG_C
    } else {
        0
    };
    let cs: u8 = if (a as int) < b + cin {
        FLAG_C
    } else {
        0
    };
    crate::cpu::alu::lemma_flag_bits(
        sign16(ra),
        zero16(ra),
        (((a ^ b ^ ra) & 0x1000) / 256) as u8,
        ((((a ^ b ^ 0x8000) & (a ^ ra) & 0x8000) / 0x2000) as u8),
        0,
        ca,
    );
    crate::cpu::alu::lemma_flag_bits(
        sign16(rs),
        zero16(rs),
        (((a ^ b ^ rs) & 0x1000) / 256) as u8,
        ((((a ^ b) & (a ^ rs) & 0x8000) / 0x2000) as u8),
        FLAG_N,
        cs,
    );
    assert(forall|x: u8| #![auto] x | 0 == x && (x | 0) | ca == x | ca) by (bit_vector);
}

} // verus!

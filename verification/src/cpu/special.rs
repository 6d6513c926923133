use vstd::prelude::*;

use crate::cpu::alu::{szp8};
use crate::cpu::enums::{FLAG_C, FLAG_H, FLAG_N};
use crate::cpu::{CPU, GR};

verus! {

/// The accumulator after `DAA`, adjusting a packed-BCD add or subtract
/// result. The low nibble is corrected by 6 when it exceeds 9 or H is set,
/// the high nibble by 0x60 when it exceeds 9 (or equals 9 with a low-nibble
/// overflow) or C is set; after a subtract (N set) the corrections are
/// subtracted instead.
pub open spec fn daa_val(a: u8, f: u8) -> u8 {
    (((a as int) + daa_low_adjust(a, f) + daa_high_adjust(a, f)) % 256) as u8
}

/// The low-nibble DAA correction, as an addend modulo 256.
pub open spec fn daa_low_adjust(a: u8, f: u8) -> int {
    if a % 16 > 9 || f & FLAG_H != 0 {
        if f & FLAG_N == 0 {
            6
        } else {
            0xfa
        }
    } else {
        0
    }
}

/// Whether DAA corrects the high nibble (and therefore sets carry).
pub open spec fn daa_high(a: u8, f: u8) -> bool {
    f & FLAG_C != 0 || a / 16 > 9 || (a / 16 == 9 && a % 16 > 9)
}

/// The high-nibble DAA correction, as an addend modulo 256.
pub open spec fn daa_high_adjust(a: u8, f: u8) -> int {
    if daa_high(a, f) {
        if f & FLAG_N == 0 {
            0x60
        } else {
            0xa0
        }
    } else {
        0
    }
}

/// The flag byte after `DAA`: S, Z and P from the corrected accumulator, H
/// per the Z80 table, N preserved, C set when the high nibble was corrected.
pub open spec fn daa_flags(a: u8, f: u8) -> u8 {
    (f & FLAG_N) | daa_h_flag(a, f) | (if daa_high(a, f) {
        FLAG_C
    } else {
        0
    }) | szp8(daa_val(a, f))
}

/// The H flag after `DAA`: after an add, set when the low nibble overflowed;
/// after a subtract, kept only when the low nibble borrows below 6.
pub open spec fn daa_h_flag(a: u8, f: u8) -> u8 {
    if a % 16 > 9 || f & FLAG_H != 0 {
        if f & FLAG_N == 0 {
            if a % 16 > 9 {
                FLAG_H
            } else {
                0
            }
        } else {
            if a % 16 < 6 && f & FLAG_H != 0 {
                FLAG_H
            } else {
                0
            }
        }
    } else {
        0
    }
}

/// The bit mask with only bit `n` set.
pub open spec fn pow2u(n: u8) -> u8 {
    if n == 0 {
        1
    } else if n == 1 {
        2
    } else if n == 2 {
        4
    } else if n == 3 {
        8
    } else if n == 4 {
        16
    } else if n == 5 {
        32
    } else if n == 6 {
        64
    } else {
        128
    }
}

/// The bit mask with only bit `n` set.
pub fn bit_of(n: u8) -> (r: u8)
    requires
        n < 8,
    ensures
        r == pow2u(n),
        r >= 1,
{
    if n == 0 {
        1
    } else if n == 1 {
        2
    } else if n == 2 {
        4
    } else if n == 3 {
        8
    } else if n == 4 {
        16
    } else if n == 5 {
        32
    } else if n == 6 {
        64
    } else {
        128
    }
}

impl CPU {

    /// `NOP`: no state changes.
    pub fn nop(&mut self)
        ensures
            *final(self) == *old(self),
    {
    }

    /// The CPU after `SCF`: C set, H and N reset, S, Z and P preserved.
    pub open spec fn scf_spec(self) -> CPU {
        CPU { gr: GR { f: (self.gr.f & 0xc4) | FLAG_C, ..self.gr }, ..self }
    }

    /// `SCF`: set the carry flag; H and N reset, S, Z, P/V preserved.
    pub fn scf(&mut self)
        ensures
            *final(self) == old(self).scf_spec(),
    {
        self.gr.f = (self.gr.f & 0xc4) | FLAG_C;
    }

    /// The CPU after `CCF`: C complemented, the old C copied into H (Z80
    /// behaviour), N reset, S, Z and P preserved.
    pub open spec fn ccf_spec(self) -> CPU {
        CPU {
            gr: GR {
                f: ((self.gr.f & 0xc5) ^ FLAG_C) | (if self.gr.f & FLAG_C != 0 {
                    FLAG_H
                } else {
                    0
                }),
                ..self.gr
            },
            ..self
        }
    }

    /// `CCF`: complement the carry flag. The previous carry moves into H as
    /// on the Z80 (the Z180 resets H instead; the Z80 rule is what the
    /// conformance suite checks).
    pub fn ccf(&mut self)
        ensures
            *final(self) == old(self).ccf_spec(),
    {
        let h: u8 = if self.gr.f & FLAG_C != 0 {
            FLAG_H
        } else {
            0
        };
        self.gr.f = ((self.gr.f & 0xc5) ^ FLAG_C) | h;
    }

    /// The CPU after `DAA`.
    pub open spec fn daa_spec(self) -> CPU {
        CPU {
            gr: GR {
                a: daa_val(self.gr.a, self.gr.f),
                f: daa_flags(self.gr.a, self.gr.f),
                ..self.gr
            },
            ..self
        }
    }

    /// `DAA`: decimal-adjust the accumulator after a packed-BCD add or
    /// subtract, per the Z80 adjustment table.
    pub fn daa(&mut self)
        ensures
            *final(self) == old(self).daa_spec(),
    {
        let a = self.gr.a;
        let f = self.gr.f;
        let adj_low: u16 = if a % 16 > 9 || f & FLAG_H != 0 {
            if f & FLAG_N == 0 {
                6
            } else {
                0xfa
            }
        } else {
            0
        };
        let h: u8 = if a % 16 > 9 || f & FLAG_H != 0 {
            if f & FLAG_N == 0 {
                if a % 16 > 9 {
                    FLAG_H
                } else {
                    0
                }
            } else {
                if a % 16 < 6 && f & FLAG_H != 0 {
                    FLAG_H
                } else {
                    0
                }
            }
        } else {
            0
        };
        let high: bool = f & FLAG_C != 0 || a / 16 > 9 || (a / 16 == 9 && a % 16 > 9);
        let adj_high: u16 = if high {
            if f & FLAG_N == 0 {
                0x60
            } else {
                0xa0
            }
        } else {
            0
        };
        let c: u8 = if high {
            FLAG_C
        } else {
            0
        };
        let v: u8 = ((a as u16 + adj_low + adj_high) % 256) as u8;
        self.gr.a = v;
        self.gr.f = (f & FLAG_N) | h | c | crate::cpu::alu::szp_flags(v);
    }

    /// The CPU after `CPL`: A complemented, H and N set, other flags
    /// preserved.
    pub open spec fn cpl_spec(self) -> CPU {
        CPU {
            gr: GR { a: !self.gr.a, f: self.gr.f | FLAG_H | FLAG_N, ..self.gr },
            ..self
        }
    }

    /// `CPL`: complement the accumulator; H and N set, other flags preserved.
    pub fn cpl(&mut self)
        ensures
            *final(self) == old(self).cpl_spec(),
    {
        self.gr.a = !self.gr.a;
        self.gr.f = self.gr.f | FLAG_H | FLAG_N;
    }

    /// `DI`: clear both interrupt-enable flip-flops.
    pub fn di(&mut self)
        ensures
            *final(self) == (CPU { iff1: false, iff2: false, ..*old(self) }),
    {
        self.iff1 = false;
        self.iff2 = false;
    }

    /// `EI`: set both interrupt-enable flip-flops.
    pub fn ei(&mut self)
        ensures
            *final(self) == (CPU { iff1: true, iff2: true, ..*old(self) }),
    {
        self.iff1 = true;
        self.iff2 = true;
    }
}

/// Complementing the accumulator twice restores it: `CPL; CPL` is the
/// identity on A, and leaves the flags with H and N set.
pub proof fn lemma_cpl_involution(c: CPU)
    ensures
        c.cpl_spec().cpl_spec().gr.a == c.gr.a,
        c.cpl_spec().cpl_spec().gr.f == c.gr.f | FLAG_H | FLAG_N,
{
    let a = c.gr.a;
    let f = c.gr.f;
    assert(!!a == a) by (bit_vector);
    assert((f | FLAG_H | FLAG_N) | FLAG_H | FLAG_N == f | FLAG_H | FLAG_N) by (bit_vector);
}

} // verus!

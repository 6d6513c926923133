use vstd::prelude::*;

verus! {

/// Flag bit positions in the F register. Bits 3 and 5 are undefined on the
/// Z8018x and never set by this core.
pub const FLAG_C: u8 = 0x01;
pub const FLAG_N: u8 = 0x02;
pub const FLAG_P: u8 = 0x04;
pub const FLAG_H: u8 = 0x10;
pub const FLAG_Z: u8 = 0x40;
pub const FLAG_S: u8 = 0x80;

/// Mask of the six defined flag bits (S, Z, H, P/V, N, C).
pub const FLAG_MASK: u8 = 0xd7;

/// Every addressable register name. The 8-bit halves of BC/DE/HL and of AF
/// are addressable alongside the full pairs; reads widen to 16 bits.
#[derive(Debug, PartialEq, Eq, Structural, Copy, Clone)]
pub enum Register {
    A,
    F,
    B,
    C,
    D,
    E,
    H,
    L,
    AF,
    BC,
    DE,
    HL,
    I,
    R,
    IX,
    IY,
    SP,
    PC,
}

/// `ww` bitfield register decode (16-bit pair selected by two opcode bits).
#[derive(Debug, PartialEq, Eq, Structural, Copy, Clone)]
pub enum RegW {
    BC,
    DE,
    HL,
    SP,
}

impl RegW {
    pub open spec fn to_register_spec(self) -> Register {
        match self {
            RegW::BC => Register::BC,
            RegW::DE => Register::DE,
            RegW::HL => Register::HL,
            RegW::SP => Register::SP,
        }
    }

    pub fn to_register(self) -> (r: Register)
        ensures
            r == self.to_register_spec(),
    {
        match self {
            RegW::BC => Register::BC,
            RegW::DE => Register::DE,
            RegW::HL => Register::HL,
            RegW::SP => Register::SP,
        }
    }
}

/// Register pairs usable for register-indirect addressing.
#[derive(Debug, PartialEq, Eq, Structural, Copy, Clone)]
pub enum RegIndirect {
    BC,
    DE,
    HL,
}

impl RegIndirect {
    pub open spec fn to_register_spec(self) -> Register {
        match self {
            RegIndirect::BC => Register::BC,
            RegIndirect::DE => Register::DE,
            RegIndirect::HL => Register::HL,
        }
    }

    pub fn to_register(self) -> (r: Register)
        ensures
            r == self.to_register_spec(),
    {
        match self {
            RegIndirect::BC => Register::BC,
            RegIndirect::DE => Register::DE,
            RegIndirect::HL => Register::HL,
        }
    }
}

/// The two index registers selected by the `DD` / `FD` prefixes.
#[derive(Debug, PartialEq, Eq, Structural, Copy, Clone)]
pub enum RegIndex {
    IX,
    IY,
}

impl RegIndex {
    pub open spec fn to_register_spec(self) -> Register {
        match self {
            RegIndex::IX => Register::IX,
            RegIndex::IY => Register::IY,
        }
    }

    pub fn to_register(self) -> (r: Register)
        ensures
            r == self.to_register_spec(),
    {
        match self {
            RegIndex::IX => Register::IX,
            RegIndex::IY => Register::IY,
        }
    }
}

/// A source or destination operand resolved by the decoder.
///
/// `Absolute` carries a literal byte; `Memory` a precomputed logical address;
/// `Indexed` consumes a signed displacement byte at PC; `Extended` and
/// `Extended16` consume a two-byte little-endian address; `Immediate`,
/// `Immediate16` and `Relative` consume their encoding at PC. Storing to
/// `Absolute`, `Immediate*` or `Relative` is a decoder bug and halts the CPU.
#[derive(Debug, PartialEq, Eq, Structural, Copy, Clone)]
pub enum Operand {
    Absolute(u8),
    Memory(u16),
    Direct(Register),
    Indirect(RegIndirect),
    Indexed(RegIndex),
    Extended,
    Extended16,
    Immediate,
    Immediate16,
    Relative,
    Discard,
}

/// Condition codes enumerated by the 3-bit field of conditional jumps,
/// returns and calls.
#[derive(Debug, PartialEq, Eq, Structural, Copy, Clone)]
pub enum Condition {
    NonZero,
    Zero,
    NonCarry,
    Carry,
    ParityOdd,
    ParityEven,
    SignPlus,
    SignMinus,
}

/// The exchange instruction family.
#[derive(Debug, PartialEq, Eq, Structural, Copy, Clone)]
pub enum Exchange {
    AfAfs,
    DeHl,
    X,
    SpHl,
    SpIx,
    SpIy,
}

/// Bit shifter operation: rotate through carry, rotate with carry copy,
/// arithmetic shift, or logical shift (`SLL`/`SRL`).
#[derive(Debug, PartialEq, Eq, Structural, Copy, Clone)]
pub enum ShiftOp {
    Rot,
    RotC,
    ShiftA,
    ShiftL,
}

/// Rotate/shift flag mode. The 8080-style accumulator rotates of the base
/// plane (`RLCA`/`RRCA`/`RLA`/`RRA`) preserve S, Z and P/V and only modify C,
/// H and N; the Z80-style `CB`-plane operations also set S, Z and P from the
/// result.
#[derive(Debug, PartialEq, Eq, Structural, Copy, Clone)]
pub enum ShiftMode {
    R8080,
    RZ80,
}

/// Block transfer direction (`LDI`/`CPI` step up, `LDD`/`CPD` step down).
#[derive(Debug, PartialEq, Eq, Structural, Copy, Clone)]
pub enum Direction {
    Increment,
    Decrement,
}

/// CPU execution mode. Reset and Halt make `cycle` a no-op.
#[derive(Debug, PartialEq, Eq, Structural, Copy, Clone)]
pub enum Mode {
    Reset,
    OpCodeFetch,
    Halt,
}

} // verus!

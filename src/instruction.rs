//! Decoding of opcode bytes through the `x`/`y`/`z`/`p`/`q` opcode matrix.

use vstd::prelude::*;

use crate::bits::{get_bit, get_value};

verus! {

/// A two-bit field of an opcode.
#[derive(Debug, Clone, Copy, Default, PartialEq, Eq, Structural, PartialOrd, Ord, Hash)]
pub enum U2 {
    #[default]
    _0,
    _1,
    _2,
    _3,
}

impl U2 {
    /// The field whose value is `v`.
    pub open spec fn at(v: u8) -> U2 {
        if v == 0 {
            U2::_0
        } else if v == 1 {
            U2::_1
        } else if v == 2 {
            U2::_2
        } else {
            U2::_3
        }
    }

    /// The two bits of `byte` starting at bit `base`.
    pub fn new_from_byte(base: u32, byte: u8) -> (r: Self)
        requires
            base < 7,
        ensures
            r as u8 == (byte >> base) & 3,
    {
        let value = get_value(base, base + 1, byte);
        assert(value < 4 && value == (byte >> base) & 3) by (bit_vector)
            requires
                value == (byte >> base) & (0xFFu8 >> 6u32),
        ;
        if value == 0 {
            Self::_0
        } else if value == 1 {
            Self::_1
        } else if value == 2 {
            Self::_2
        } else {
            Self::_3
        }
    }
}

/// A three-bit field of an opcode.
#[derive(Debug, Clone, Copy, Default, PartialEq, Eq, Structural, PartialOrd, Ord, Hash)]
pub enum U3 {
    #[default]
    _0,
    _1,
    _2,
    _3,
    _4,
    _5,
    _6,
    _7,
}

impl U3 {
    /// The field whose value is `v`.
    pub open spec fn at(v: u8) -> U3 {
        if v == 0 {
            U3::_0
        } else if v == 1 {
            U3::_1
        } else if v == 2 {
            U3::_2
        } else if v == 3 {
            U3::_3
        } else if v == 4 {
            U3::_4
        } else if v == 5 {
            U3::_5
        } else if v == 6 {
            U3::_6
        } else {
            U3::_7
        }
    }

    /// The three bits of `byte` starting at bit `base`.
    pub fn new_from_byte(base: u32, byte: u8) -> (r: Self)
        requires
            base < 6,
        ensures
            r as u8 == (byte >> base) & 7,
    {
        let value = get_value(base, base + 2, byte);
        assert(value < 8 && value == (byte >> base) & 7) by (bit_vector)
            requires
                value == (byte >> base) & (0xFFu8 >> 5u32),
        ;
        if value == 0 {
            Self::_0
        } else if value == 1 {
            Self::_1
        } else if value == 2 {
            Self::_2
        } else if value == 3 {
            Self::_3
        } else if value == 4 {
            Self::_4
        } else if value == 5 {
            Self::_5
        } else if value == 6 {
            Self::_6
        } else {
            Self::_7
        }
    }
}

/// An 8-bit operand: a register, or the byte in memory at `HL`.
#[derive(Debug, Clone, Copy, Default, PartialEq, Eq, Structural, PartialOrd, Ord, Hash)]
pub enum R8m {
    #[default]
    B,
    C,
    D,
    E,
    H,
    L,
    HLm,
    A,
}

impl R8m {
    /// The operand that the three-bit code `i` selects.
    pub open spec fn at(i: u8) -> R8m {
        if i == 0 {
            R8m::B
        } else if i == 1 {
            R8m::C
        } else if i == 2 {
            R8m::D
        } else if i == 3 {
            R8m::E
        } else if i == 4 {
            R8m::H
        } else if i == 5 {
            R8m::L
        } else if i == 6 {
            R8m::HLm
        } else {
            R8m::A
        }
    }

    pub fn new(u: U3) -> (r: Self)
        ensures
            r == R8m::at(u as u8),
    {
        match u {
            U3::_0 => Self::B,
            U3::_1 => Self::C,
            U3::_2 => Self::D,
            U3::_3 => Self::E,
            U3::_4 => Self::H,
            U3::_5 => Self::L,
            U3::_6 => Self::HLm,
            U3::_7 => Self::A,
        }
    }
}

/// A 16-bit register pair operand, with `SP` as the fourth.
#[derive(Debug, Clone, Copy, Default, PartialEq, Eq, Structural, PartialOrd, Ord, Hash)]
pub enum R16p {
    #[default]
    BC,
    DE,
    HL,
    SP,
}

impl R16p {
    /// The pair that the two-bit code `i` selects.
    pub open spec fn at(i: u8) -> R16p {
        if i == 0 {
            R16p::BC
        } else if i == 1 {
            R16p::DE
        } else if i == 2 {
            R16p::HL
        } else {
            R16p::SP
        }
    }

    pub fn new(u: U2) -> (r: Self)
        ensures
            r == R16p::at(u as u8),
    {
        match u {
            U2::_0 => Self::BC,
            U2::_1 => Self::DE,
            U2::_2 => Self::HL,
            U2::_3 => Self::SP,
        }
    }
}

/// A 16-bit register pair operand of `push` and `pop`, with `AF` as the fourth.
#[derive(Debug, Clone, Copy, Default, PartialEq, Eq, Structural, PartialOrd, Ord, Hash)]
pub enum R16f {
    #[default]
    BC,
    DE,
    HL,
    AF,
}

impl R16f {
    /// The pair that the two-bit code `i` selects.
    pub open spec fn at(i: u8) -> R16f {
        if i == 0 {
            R16f::BC
        } else if i == 1 {
            R16f::DE
        } else if i == 2 {
            R16f::HL
        } else {
            R16f::AF
        }
    }

    pub fn new(u: U2) -> (r: Self)
        ensures
            r == R16f::at(u as u8),
    {
        match u {
            U2::_0 => Self::BC,
            U2::_1 => Self::DE,
            U2::_2 => Self::HL,
            U2::_3 => Self::AF,
        }
    }
}

/// An indirect 16-bit address operand; `HLi` and `HLd` step `HL` up or down
/// after the access.
#[derive(Debug, Clone, Copy, Default, PartialEq, Eq, Structural, PartialOrd, Ord, Hash)]
pub enum R16id {
    #[default]
    BC,
    DE,
    HLi,
    HLd,
}

impl R16id {
    /// The operand that the two-bit code `i` selects.
    pub open spec fn at(i: u8) -> R16id {
        if i == 0 {
            R16id::BC
        } else if i == 1 {
            R16id::DE
        } else if i == 2 {
            R16id::HLi
        } else {
            R16id::HLd
        }
    }

    pub fn new(u: U2) -> (r: Self)
        ensures
            r == R16id::at(u as u8),
    {
        match u {
            U2::_0 => Self::BC,
            U2::_1 => Self::DE,
            U2::_2 => Self::HLi,
            U2::_3 => Self::HLd,
        }
    }
}

/// A branch condition.
#[derive(Debug, Clone, Copy, Default, PartialEq, Eq, Structural, PartialOrd, Ord, Hash)]
pub enum Cond {
    #[default]
    NZ,
    Z,
    NC,
    C,
}

impl Cond {
    /// The condition that the two-bit code `i` selects.
    pub open spec fn at(i: u8) -> Cond {
        if i == 0 {
            Cond::NZ
        } else if i == 1 {
            Cond::Z
        } else if i == 2 {
            Cond::NC
        } else {
            Cond::C
        }
    }

    pub fn new(u: u8) -> (r: Self)
        requires
            u < 4,
        ensures
            r == Cond::at(u),
    {
        if u == 0 {
            Self::NZ
        } else if u == 1 {
            Self::Z
        } else if u == 2 {
            Self::NC
        } else {
            Self::C
        }
    }
}

/// An arithmetic or logic operation on the accumulator.
#[derive(Debug, Clone, Copy, Default, PartialEq, Eq, Structural, PartialOrd, Ord, Hash)]
pub enum Alu {
    #[default]
    Add,
    Adc,
    Sub,
    Sbc,
    And,
    Xor,
    Or,
    Cp,
}

impl Alu {
    /// The operation that the three-bit code `i` selects.
    pub open spec fn at(i: u8) -> Alu {
        if i == 0 {
            Alu::Add
        } else if i == 1 {
            Alu::Adc
        } else if i == 2 {
            Alu::Sub
        } else if i == 3 {
            Alu::Sbc
        } else if i == 4 {
            Alu::And
        } else if i == 5 {
            Alu::Xor
        } else if i == 6 {
            Alu::Or
        } else {
            Alu::Cp
        }
    }

    pub fn new(u: U3) -> (r: Self)
        ensures
            r == Alu::at(u as u8),
    {
        match u {
            U3::_0 => Self::Add,
            U3::_1 => Self::Adc,
            U3::_2 => Self::Sub,
            U3::_3 => Self::Sbc,
            U3::_4 => Self::And,
            U3::_5 => Self::Xor,
            U3::_6 => Self::Or,
            U3::_7 => Self::Cp,
        }
    }
}

/// The eleven opcode bytes that no operation is defined for.
#[derive(Debug, Clone, Copy, Default, PartialEq, Eq, Structural, PartialOrd, Ord, Hash)]
pub enum IllegalOpByte {
    #[default]
    D3,
    DB,
    DD,
    E3,
    E4,
    EB,
    EC,
    ED,
    F4,
    FC,
    FD,
}

/// Whether no operation is defined for the opcode byte `op`.
pub open spec fn is_illegal_byte(op: u8) -> bool {
    op == 0xD3 || op == 0xDB || op == 0xDD || op == 0xE3 || op == 0xE4 || op == 0xEB || op == 0xEC
        || op == 0xED || op == 0xF4 || op == 0xFC || op == 0xFD
}

impl IllegalOpByte {
    /// The opcode byte that this stands for.
    pub open spec fn spec_byte(self) -> u8 {
        match self {
            IllegalOpByte::D3 => 0xD3,
            IllegalOpByte::DB => 0xDB,
            IllegalOpByte::DD => 0xDD,
            IllegalOpByte::E3 => 0xE3,
            IllegalOpByte::E4 => 0xE4,
            IllegalOpByte::EB => 0xEB,
            IllegalOpByte::EC => 0xEC,
            IllegalOpByte::ED => 0xED,
            IllegalOpByte::F4 => 0xF4,
            IllegalOpByte::FC => 0xFC,
            IllegalOpByte::FD => 0xFD,
        }
    }

    /// The value that stands for the illegal byte `op`.
    pub open spec fn at(op: u8) -> IllegalOpByte {
        if op == 0xD3 {
            IllegalOpByte::D3
        } else if op == 0xDB {
            IllegalOpByte::DB
        } else if op == 0xDD {
            IllegalOpByte::DD
        } else if op == 0xE3 {
            IllegalOpByte::E3
        } else if op == 0xE4 {
            IllegalOpByte::E4
        } else if op == 0xEB {
            IllegalOpByte::EB
        } else if op == 0xEC {
            IllegalOpByte::EC
        } else if op == 0xED {
            IllegalOpByte::ED
        } else if op == 0xF4 {
            IllegalOpByte::F4
        } else if op == 0xFC {
            IllegalOpByte::FC
        } else {
            IllegalOpByte::FD
        }
    }

    /// The opcode byte that this stands for.
    #[verifier::when_used_as_spec(spec_byte)]
    pub fn byte(self) -> (r: u8)
        ensures
            r == self.spec_byte(),
    {
        match self {
            IllegalOpByte::D3 => 0xD3,
            IllegalOpByte::DB => 0xDB,
            IllegalOpByte::DD => 0xDD,
            IllegalOpByte::E3 => 0xE3,
            IllegalOpByte::E4 => 0xE4,
            IllegalOpByte::EB => 0xEB,
            IllegalOpByte::EC => 0xEC,
            IllegalOpByte::ED => 0xED,
            IllegalOpByte::F4 => 0xF4,
            IllegalOpByte::FC => 0xFC,
            IllegalOpByte::FD => 0xFD,
        }
    }
}

/// A decoded instruction. Immediate operands are zero placeholders: the
/// bytes that follow the opcode are fetched while the instruction runs.
#[derive(Debug, Clone, Copy, Default, PartialEq, Eq, Structural, PartialOrd, Ord, Hash)]
pub enum Instruction {
    /// `nop`
    #[default]
    Nop,
    /// `ld [<u16>], sp`
    LdImm16SP(u16),
    /// `stop`
    Stop,
    /// `jr <i8>`
    JumpRelative(i8),
    /// `jr cond, <i8>`
    JumpRelativeCond(Cond, i8),
    /// `add hl, <r16p>`
    AddHLR16p(R16p),
    /// `ld <r16p>, <u16>`
    LdR16pImm16(R16p, u16),
    /// `ld a, [<r16id>]` (true) or `ld [<r16id>], a` (false)
    LdR16idToA(R16id, bool),
    /// `dec <r16p>` (true) or `inc <r16p>` (false)
    DecIncR16p(R16p, bool),
    /// `dec <r8m>` (true) or `inc <r8m>` (false)
    DecIncR8m(R8m, bool),
    /// `ld <r8m>, <u8>`
    LdR8mImm8(R8m, u8),
    /// `rlca`
    Rlca,
    /// `rrca`
    Rrca,
    /// `rla`
    Rla,
    /// `rra`
    Rra,
    /// `daa`
    Daa,
    /// `cpl`
    Cpl,
    /// `scf`
    Scf,
    /// `ccf`
    Ccf,
    /// `halt`
    Halt,
    /// `ld <r8m>, <r8m>`
    LdR8mR8m(R8m, R8m),
    /// `<op> a, <r8m>`
    AluR8m(Alu, R8m),
    /// `ret <cond>`
    ReturnCond(Cond),
    /// `ldh a, [<u8>]` (true) or `ldh [<u8>], a` (false)
    LdhImm8ToA(u8, bool),
    /// `add sp, <i8>`
    AddSPImm8(i8),
    /// `ld hl, sp+<i8>`
    LdHLSPImm8(i8),
    /// `pop <r16f>`
    Pop(R16f),
    /// `ret`
    Return,
    /// `reti`
    ReturnIrq,
    /// `jp hl`
    JumpHL,
    /// `ld sp, hl`
    LdSPHL,
    /// `jp <cond>, <u16>`
    JumpCond(Cond, u16),
    /// `ldh a, [c]` (true) or `ldh [c], a` (false)
    LdhCToA(bool),
    /// `ld a, [<u16>]` (true) or `ld [<u16>], a` (false)
    LdImm16ToA(bool),
    /// `jp <u16>`
    JumpImm16(u16),
    /// `rlc`, `bit`, `res`, `set` and the rest of the `0xCB`-prefixed space
    Cb(PrefixedOp),
    /// `di`
    DI,
    /// `ei`
    EI,
    /// `call <cond>, <u16>`
    CallCond(Cond, u16),
    /// `push <r16p>`
    Push(R16p),
    /// `call <u16>`
    Call(u16),
    /// `<op> a, <u8>`
    AluImm8(Alu, u8),
    /// `rst <u8>` (only multiples of 8 can be restarted to).
    Restart(U3),
    /// A byte that no operation is defined for.
    Illegal(IllegalOpByte),
}

/// Bits 6–7 of an opcode.
pub open spec fn op_x(op: u8) -> u8 {
    op / 64
}

/// Bits 3–5 of an opcode.
pub open spec fn op_y(op: u8) -> u8 {
    (op / 8 % 8) as u8
}

/// Bits 0–2 of an opcode.
pub open spec fn op_z(op: u8) -> u8 {
    op % 8
}

/// Bits 4–5 of an opcode: the upper two bits of `y`.
pub open spec fn op_p(op: u8) -> u8 {
    op_y(op) / 2
}

/// Bit 3 of an opcode: the lowest bit of `y`.
pub open spec fn op_q(op: u8) -> bool {
    op_y(op) % 2 == 1
}

/// The instruction that the opcode byte `op` encodes, by the opcode matrix.
pub open spec fn decoded(op: u8) -> Instruction {
    let (x, y, z, p, q) = (op_x(op), op_y(op), op_z(op), op_p(op), op_q(op));
    if x == 0 {
        if z == 0 {
            if y == 0 {
                Instruction::Nop
            } else if y == 1 {
                Instruction::LdImm16SP(0)
            } else if y == 2 {
                Instruction::Stop
            } else if y == 3 {
                Instruction::JumpRelative(0)
            } else {
                Instruction::JumpRelativeCond(Cond::at((y - 4) as u8), 0)
            }
        } else if z == 1 {
            if q {
                Instruction::AddHLR16p(R16p::at(p))
            } else {
                Instruction::LdR16pImm16(R16p::at(p), 0)
            }
        } else if z == 2 {
            Instruction::LdR16idToA(R16id::at(p), q)
        } else if z == 3 {
            Instruction::DecIncR16p(R16p::at(p), q)
        } else if z == 4 {
            Instruction::DecIncR8m(R8m::at(y), false)
        } else if z == 5 {
            Instruction::DecIncR8m(R8m::at(y), true)
        } else if z == 6 {
            Instruction::LdR8mImm8(R8m::at(y), 0)
        } else {
            if y == 0 {
                Instruction::Rlca
            } else if y == 1 {
                Instruction::Rrca
            } else if y == 2 {
                Instruction::Rla
            } else if y == 3 {
                Instruction::Rra
            } else if y == 4 {
                Instruction::Daa
            } else if y == 5 {
                Instruction::Cpl
            } else if y == 6 {
                Instruction::Scf
            } else {
                Instruction::Ccf
            }
        }
    } else if x == 1 {
        if y == 6 && z == 6 {
            Instruction::Halt
        } else {
            Instruction::LdR8mR8m(R8m::at(y), R8m::at(z))
        }
    } else if x == 2 {
        Instruction::AluR8m(Alu::at(y), R8m::at(z))
    } else if is_illegal_byte(op) {
        Instruction::Illegal(IllegalOpByte::at(op))
    } else if z == 0 {
        if y < 4 {
            Instruction::ReturnCond(Cond::at(y))
        } else if y == 4 {
            Instruction::LdhImm8ToA(0, false)
        } else if y == 5 {
            Instruction::AddSPImm8(0)
        } else if y == 6 {
            Instruction::LdhImm8ToA(0, true)
        } else {
            Instruction::LdHLSPImm8(0)
        }
    } else if z == 1 {
        if !q {
            Instruction::Pop(R16f::at(p))
        } else if p == 0 {
            Instruction::Return
        } else if p == 1 {
            Instruction::ReturnIrq
        } else if p == 2 {
            Instruction::JumpHL
        } else {
            Instruction::LdSPHL
        }
    } else if z == 2 {
        if y < 4 {
            Instruction::JumpCond(Cond::at(y), 0)
        } else if y == 4 {
            Instruction::LdhCToA(false)
        } else if y == 5 {
            Instruction::LdImm16ToA(false)
        } else if y == 6 {
            Instruction::LdhCToA(true)
        } else {
            Instruction::LdImm16ToA(true)
        }
    } else if z == 3 {
        if y == 0 {
            Instruction::JumpImm16(0)
        } else if y == 1 {
            Instruction::Cb(PrefixedOp::RotR8m(Rot::Rlc, R8m::B))
        } else if y == 6 {
            Instruction::DI
        } else {
            Instruction::EI
        }
    } else if z == 4 {
        Instruction::CallCond(Cond::at(y), 0)
    } else if z == 5 {
        if q {
            Instruction::Call(0)
        } else {
            Instruction::Push(R16p::at(p))
        }
    } else if z == 6 {
        Instruction::AluImm8(Alu::at(y), 0)
    } else {
        Instruction::Restart(U3::at(y))
    }
}

/// The matrix fields as the decoder reads them agree with `op_x` .. `op_q`.
proof fn lemma_matrix_fields(op: u8)
    ensures
        (op >> 6u32) & 3 == op_x(op),
        (op >> 3u32) & 7 == op_y(op),
        (op >> 0u32) & 7 == op_z(op),
        (op >> 4u32) & 3 == op_p(op),
        (op & (1u8 << 3u32) != 0) == op_q(op),
{
    assert((op >> 6u32) & 3 == op / 64) by (bit_vector);
    assert((op >> 3u32) & 7 == op / 8 % 8) by (bit_vector);
    assert((op >> 0u32) & 7 == op % 8) by (bit_vector);
    assert((op >> 4u32) & 3 == (op / 8 % 8) / 2) by (bit_vector);
    assert((op & (1u8 << 3u32) != 0) == ((op / 8 % 8) % 2 == 1)) by (bit_vector);
}

impl Instruction {
    /// Decodes the opcode byte `op`. Every byte decodes, the eleven bytes
    /// with no defined operation to `Illegal`.
    pub fn new(op_code: u8) -> (r: Self)
        ensures
            r == decoded(op_code),
    {
        proof {
            lemma_matrix_fields(op_code);
        }
        let x = U2::new_from_byte(6, op_code);
        let y = U3::new_from_byte(3, op_code);
        let z = U3::new_from_byte(0, op_code);
        let p = U2::new_from_byte(4, op_code);
        let q = get_bit(3, op_code);
        match x {
            U2::_0 => match z {
                U3::_0 => match y {
                    U3::_0 => Self::Nop,
                    U3::_1 => Self::LdImm16SP(0),
                    U3::_2 => Self::Stop,
                    U3::_3 => Self::JumpRelative(0),
                    U3::_4 | U3::_5 | U3::_6 | U3::_7 => {
                        Self::JumpRelativeCond(Cond::new((y as u8) - 4), 0)
                    },
                },
                U3::_1 => {
                    if q {
                        Self::AddHLR16p(R16p::new(p))
                    } else {
                        Self::LdR16pImm16(R16p::new(p), 0)
                    }
                },
                U3::_2 => Self::LdR16idToA(R16id::new(p), q),
                U3::_3 => Self::DecIncR16p(R16p::new(p), q),
                U3::_4 => Self::DecIncR8m(R8m::new(y), false),
                U3::_5 => Self::DecIncR8m(R8m::new(y), true),
                U3::_6 => Self::LdR8mImm8(R8m::new(y), 0),
                U3::_7 => match y {
                    U3::_0 => Self::Rlca,
                    U3::_1 => Self::Rrca,
                    U3::_2 => Self::Rla,
                    U3::_3 => Self::Rra,
                    U3::_4 => Self::Daa,
                    U3::_5 => Self::Cpl,
                    U3::_6 => Self::Scf,
                    U3::_7 => Self::Ccf,
                },
            },
            U2::_1 => match (y, z) {
                (U3::_6, U3::_6) => Self::Halt,
                _ => Self::LdR8mR8m(R8m::new(y), R8m::new(z)),
            },
            U2::_2 => Self::AluR8m(Alu::new(y), R8m::new(z)),
            U2::_3 => match z {
                U3::_0 => match y {
                    U3::_0 | U3::_1 | U3::_2 | U3::_3 => Self::ReturnCond(Cond::new(y as u8)),
                    U3::_4 => Self::LdhImm8ToA(0, false),
                    U3::_5 => Self::AddSPImm8(0),
                    U3::_6 => Self::LdhImm8ToA(0, true),
                    U3::_7 => Self::LdHLSPImm8(0),
                },
                U3::_1 => {
                    if q {
                        match p {
                            U2::_0 => Self::Return,
                            U2::_1 => Self::ReturnIrq,
                            U2::_2 => Self::JumpHL,
                            U2::_3 => Self::LdSPHL,
                        }
                    } else {
                        Self::Pop(R16f::new(p))
                    }
                },
                U3::_2 => match y {
                    U3::_0 | U3::_1 | U3::_2 | U3::_3 => Self::JumpCond(Cond::new(y as u8), 0),
                    U3::_4 => Self::LdhCToA(false),
                    U3::_5 => Self::LdImm16ToA(false),
                    U3::_6 => Self::LdhCToA(true),
                    U3::_7 => Self::LdImm16ToA(true),
                },
                U3::_3 => match y {
                    U3::_0 => Self::JumpImm16(0),
                    U3::_1 => Self::Cb(PrefixedOp::default()),
                    U3::_2 => Self::Illegal(IllegalOpByte::D3),
                    U3::_3 => Self::Illegal(IllegalOpByte::DB),
                    U3::_4 => Self::Illegal(IllegalOpByte::E3),
                    U3::_5 => Self::Illegal(IllegalOpByte::EB),
                    U3::_6 => Self::DI,
                    U3::_7 => Self::EI,
                },
                U3::_4 => match y {
                    U3::_0 | U3::_1 | U3::_2 | U3::_3 => Self::CallCond(Cond::new(y as u8), 0),
                    U3::_4 => Self::Illegal(IllegalOpByte::E4),
                    U3::_5 => Self::Illegal(IllegalOpByte::EC),
                    U3::_6 => Self::Illegal(IllegalOpByte::F4),
                    U3::_7 => Self::Illegal(IllegalOpByte::FC),
                },
                U3::_5 => {
                    if q {
                        match p {
                            U2::_0 => Self::Call(0),
                            U2::_1 => Self::Illegal(IllegalOpByte::DD),
                            U2::_2 => Self::Illegal(IllegalOpByte::ED),
                            U2::_3 => Self::Illegal(IllegalOpByte::FD),
                        }
                    } else {
                        Self::Push(R16p::new(p))
                    }
                },
                U3::_6 => Self::AluImm8(Alu::new(y), 0),
                U3::_7 => Self::Restart(y),
            },
        }
    }
}

impl Instruction {
    /// How many bytes follow the opcode in this instruction's encoding.
    pub open spec fn operand_len(self) -> nat {
        match self {
            Instruction::LdImm16SP(_)
            | Instruction::LdR16pImm16(_, _)
            | Instruction::JumpCond(_, _)
            | Instruction::LdImm16ToA(_)
            | Instruction::JumpImm16(_)
            | Instruction::CallCond(_, _)
            | Instruction::Call(_) => 2,
            Instruction::JumpRelative(_)
            | Instruction::JumpRelativeCond(_, _)
            | Instruction::LdR8mImm8(_, _)
            | Instruction::LdhImm8ToA(_, _)
            | Instruction::AddSPImm8(_)
            | Instruction::LdHLSPImm8(_)
            | Instruction::Cb(_)
            | Instruction::AluImm8(_, _) => 1,
            _ => 0,
        }
    }
}

/// The encoded length in bytes, opcode included, of the instruction that
/// starts with `op`.
pub open spec fn encoded_length(op: u8) -> nat {
    1 + decoded(op).operand_len()
}

/// The number of bytes, opcode included, of the instruction that starts with
/// the opcode byte `op_code`: one, two or three.
pub fn instruction_length(op_code: u8) -> (r: usize)
    ensures
        r == encoded_length(op_code),
        1 <= r <= 3,
{
    proof {
        lemma_matrix_fields(op_code);
    }
    let x = U2::new_from_byte(6, op_code);
    let y = U3::new_from_byte(3, op_code);
    let z = U3::new_from_byte(0, op_code);
    let p = U2::new_from_byte(4, op_code);
    let q = get_bit(3, op_code);
    match x {
        U2::_0 => match z {
            U3::_0 => match y {
                U3::_0 => 1,
                U3::_1 => 3,
                U3::_2 => 1,
                U3::_3 => 2,
                U3::_4 | U3::_5 | U3::_6 | U3::_7 => 2,
            },
            U3::_1 => {
                if q {
                    1
                } else {
                    3
                }
            },
            U3::_2 => 1,
            U3::_3 => 1,
            U3::_4 => 1,
            U3::_5 => 1,
            U3::_6 => 2,
            U3::_7 => 1,
        },
        U2::_1 => 1,
        U2::_2 => 1,
        U2::_3 => match z {
            U3::_0 => match y {
                U3::_0 | U3::_1 | U3::_2 | U3::_3 => 1,
                U3::_4 => 2,
                U3::_5 => 2,
                U3::_6 => 2,
                U3::_7 => 2,
            },
            U3::_1 => 1,
            U3::_2 => match y {
                U3::_0 | U3::_1 | U3::_2 | U3::_3 => 3,
                U3::_4 => 1,
                U3::_5 => 3,
                U3::_6 => 1,
                U3::_7 => 3,
            },
            U3::_3 => match y {
                U3::_0 => 3,
                U3::_1 => 2,
                _ => 1,
            },
            U3::_4 => match y {
                U3::_0 | U3::_1 | U3::_2 | U3::_3 => 3,
                _ => 1,
            },
            U3::_5 => {
                if q {
                    match p {
                        U2::_0 => 3,
                        _ => 1,
                    }
                } else {
                    1
                }
            },
            U3::_6 => 2,
            U3::_7 => 1,
        },
    }
}

/// The eleven undefined bytes are exactly the ones that decode to `Illegal`,
/// each carrying its own byte value.
pub proof fn lemma_illegal_bytes(op: u8)
    ensures
        decoded(op) is Illegal <==> is_illegal_byte(op),
        decoded(op) matches Instruction::Illegal(b) ==> b.byte() == op,
{
    lemma_matrix_fields(op);
}

/// An operation of the `0xCB`-prefixed space.
#[derive(Debug, Clone, Copy, PartialEq, Eq, Structural, PartialOrd, Ord, Hash)]
pub enum PrefixedOp {
    RotR8m(Rot, R8m),
    Bit(U3, R8m),
    Res(U3, R8m),
    SetBit(U3, R8m),
}

impl Default for PrefixedOp {
    fn default() -> (r: Self)
        ensures
            r == PrefixedOp::RotR8m(Rot::Rlc, R8m::B),
    {
        PrefixedOp::RotR8m(Rot::Rlc, R8m::B)
    }
}

/// A rotate or shift operation of the `0xCB`-prefixed space.
#[derive(Debug, Clone, Copy, Default, PartialEq, Eq, Structural, PartialOrd, Ord, Hash)]
pub enum Rot {
    #[default]
    Rlc,
    Rrc,
    Rl,
    RR,
    Sla,
    Sra,
    Swap,
    Srl,
}

impl Rot {
    /// The operation that the three-bit code `i` selects.
    pub open spec fn at(i: u8) -> Rot {
        if i == 0 {
            Rot::Rlc
        } else if i == 1 {
            Rot::Rrc
        } else if i == 2 {
            Rot::Rl
        } else if i == 3 {
            Rot::RR
        } else if i == 4 {
            Rot::Sla
        } else if i == 5 {
            Rot::Sra
        } else if i == 6 {
            Rot::Swap
        } else {
            Rot::Srl
        }
    }

    pub fn new(u: U3) -> (r: Self)
        ensures
            r == Rot::at(u as u8),
    {
        match u {
            U3::_0 => Self::Rlc,
            U3::_1 => Self::Rrc,
            U3::_2 => Self::Rl,
            U3::_3 => Self::RR,
            U3::_4 => Self::Sla,
            U3::_5 => Self::Sra,
            U3::_6 => Self::Swap,
            U3::_7 => Self::Srl,
        }
    }
}

} // verus!

//! Decoded instructions and the primary and CB-prefixed opcode tables.

use vstd::prelude::*;

use crate::alu::{AluOp, ShiftOp};
use crate::cpu::{FlagConds, RegisterU16, RegisterU8};

verus! {

/// An 8-bit operand that is read: a register, the byte at address HL, or the
/// immediate byte after the opcode.
#[derive(Clone, Copy, PartialEq, Eq, Structural, Debug)]
pub enum Source8 {
    Reg(RegisterU8),
    AtHl,
    Imm,
}

/// An 8-bit operand that is read and written back: a register or the byte
/// at address HL.
#[derive(Clone, Copy, PartialEq, Eq, Structural, Debug)]
pub enum Target8 {
    Reg(RegisterU8),
    AtHl,
}

/// One decoded instruction, with its register, condition and bit selectors.
///
/// `Prefix` is the escape to the CB-prefixed table; `Illegal` marks an
/// opcode with no valid encoding and `Unimplemented` a valid instruction that
/// this core does not execute.
#[derive(Clone, Copy, PartialEq, Eq, Structural, Debug)]
pub enum Instruction {
    Nop,
    LdRR(RegisterU8, RegisterU8),
    LdRN(RegisterU8),
    LdRHl(RegisterU8),
    LdHlR(RegisterU8),
    LdHlN,
    LdARr(RegisterU16),
    LdRrA(RegisterU16),
    LdANn,
    LdNnA,
    LdhAC,
    LdhCA,
    LdhAN,
    LdhNA,
    LdAHlMinus,
    LdHlMinusA,
    LdAHlPlus,
    LdHlPlusA,
    LdRrNn(RegisterU16),
    LdNnSp,
    LdSpHl,
    Push(RegisterU16),
    Pop(RegisterU16),
    Alu(AluOp, Source8),
    Inc8(Target8),
    Dec8(Target8),
    Ccf,
    Scf,
    Daa,
    Cpl,
    AddHlRr(RegisterU16),
    IncRr(RegisterU16),
    DecRr(RegisterU16),
    AddSpE,
    LdHlSpE,
    JpNn,
    JpHl,
    JpCcNn(FlagConds),
    JrE,
    JrCcE(FlagConds),
    CallNn,
    CallCcNn(FlagConds),
    Ret,
    RetCc(FlagConds),
    Reti,
    RstN(u8),
    Di,
    Ei,
    Rlca,
    Rla,
    Rrca,
    Rra,
    Shift(ShiftOp, Target8),
    BitTest(u8, Target8),
    ResetBit(u8, Target8),
    SetBit(u8, Target8),
    Prefix,
    Illegal,
    Unimplemented,
}

impl Instruction {
    /// Bit indices are below 8.
    pub open spec fn wf(self) -> bool {
        match self {
            Instruction::BitTest(b, _) => b < 8,
            Instruction::ResetBit(b, _) => b < 8,
            Instruction::SetBit(b, _) => b < 8,
            _ => true,
        }
    }

    /// One of the CB-prefixed families.
    pub open spec fn is_prefixed(self) -> bool {
        self is Shift || self is BitTest || self is ResetBit || self is SetBit
    }
}

/// The register that a 3-bit register field names (6 stands for (HL)).
pub open spec fn reg_field(k: int) -> RegisterU8 {
    if k == 0 {
        RegisterU8::B
    } else if k == 1 {
        RegisterU8::C
    } else if k == 2 {
        RegisterU8::D
    } else if k == 3 {
        RegisterU8::E
    } else if k == 4 {
        RegisterU8::H
    } else if k == 5 {
        RegisterU8::L
    } else {
        RegisterU8::A
    }
}

/// The operand a 3-bit register field names when read.
pub open spec fn source_field(k: int) -> Source8 {
    if k == 6 {
        Source8::AtHl
    } else {
        Source8::Reg(reg_field(k))
    }
}

/// The operand a 3-bit register field names when read and written.
pub open spec fn target_field(k: int) -> Target8 {
    if k == 6 {
        Target8::AtHl
    } else {
        Target8::Reg(reg_field(k))
    }
}

/// The pair a 2-bit field names in loads and 16-bit arithmetic.
pub open spec fn pair_field(p: int) -> RegisterU16 {
    if p == 0 {
        RegisterU16::BC
    } else if p == 1 {
        RegisterU16::DE
    } else if p == 2 {
        RegisterU16::HL
    } else {
        RegisterU16::SP
    }
}

/// The pair a 2-bit field names in PUSH and POP.
pub open spec fn stack_pair_field(p: int) -> RegisterU16 {
    if p == 3 {
        RegisterU16::AF
    } else {
        pair_field(p)
    }
}

/// The condition a 2-bit field names.
pub open spec fn cond_field(k: int) -> FlagConds {
    if k == 0 {
        FlagConds::NZ
    } else if k == 1 {
        FlagConds::Z
    } else if k == 2 {
        FlagConds::NC
    } else {
        FlagConds::C
    }
}

/// The ALU operation a 3-bit field names.
pub open spec fn alu_field(k: int) -> AluOp {
    if k == 0 {
        AluOp::Add
    } else if k == 1 {
        AluOp::Adc
    } else if k == 2 {
        AluOp::Sub
    } else if k == 3 {
        AluOp::Sbc
    } else if k == 4 {
        AluOp::And
    } else if k == 5 {
        AluOp::Xor
    } else if k == 6 {
        AluOp::Or
    } else {
        AluOp::Cp
    }
}

/// The rotate/shift a 3-bit field names.
pub open spec fn shift_field(k: int) -> ShiftOp {
    if k == 0 {
        ShiftOp::Rlc
    } else if k == 1 {
        ShiftOp::Rrc
    } else if k == 2 {
        ShiftOp::Rl
    } else if k == 3 {
        ShiftOp::Rr
    } else if k == 4 {
        ShiftOp::Sla
    } else if k == 5 {
        ShiftOp::Sra
    } else if k == 6 {
        ShiftOp::Swap
    } else {
        ShiftOp::Srl
    }
}

/// The primary opcode table, by the fields of the opcode byte: `x` is bits
/// 6-7, `y` bits 3-5 (split into `p`, bits 4-5, and `q`, bit 3) and `z` bits
/// 0-2.
pub open spec fn primary_table(op: u8) -> Instruction {
    let x = op as int / 64;
    let y = (op as int / 8) % 8;
    let z = op as int % 8;
    let p = y / 2;
    let q = y % 2;
    if x == 0 {
        if z == 0 {
            if y == 0 {
                Instruction::Nop
            } else if y == 1 {
                Instruction::LdNnSp
            } else if y == 2 {
                Instruction::Unimplemented
            } else if y == 3 {
                Instruction::JrE
            } else {
                Instruction::JrCcE(cond_field(y - 4))
            }
        } else if z == 1 {
            if q == 0 {
                Instruction::LdRrNn(pair_field(p))
            } else {
                Instruction::AddHlRr(pair_field(p))
            }
        } else if z == 2 {
            if y == 0 {
                Instruction::LdRrA(RegisterU16::BC)
            } else if y == 1 {
                Instruction::LdARr(RegisterU16::BC)
            } else if y == 2 {
                Instruction::LdRrA(RegisterU16::DE)
            } else if y == 3 {
                Instruction::LdARr(RegisterU16::DE)
            } else if y == 4 {
                Instruction::LdHlPlusA
            } else if y == 5 {
                Instruction::LdAHlPlus
            } else if y == 6 {
                Instruction::LdHlMinusA
            } else {
                Instruction::LdAHlMinus
            }
        } else if z == 3 {
            if q == 0 {
                Instruction::IncRr(pair_field(p))
            } else {
                Instruction::DecRr(pair_field(p))
            }
        } else if z == 4 {
            Instruction::Inc8(target_field(y))
        } else if z == 5 {
            Instruction::Dec8(target_field(y))
        } else if z == 6 {
            if y == 6 {
                Instruction::LdHlN
            } else {
                Instruction::LdRN(reg_field(y))
            }
        } else {
            if y == 0 {
                Instruction::Rlca
            } else if y == 1 {
                Instruction::Rrca
            } else if y == 2 {
                Instruction::Rla
            } else if y == 3 {
                Instruction::Rra
            } else if y == 4 {
                Instruction::Daa
            } else if y == 5 {
                Instruction::Cpl
            } else if y == 6 {
                Instruction::Scf
            } else {
                Instruction::Ccf
            }
        }
    } else if x == 1 {
        if y == 6 && z == 6 {
            Instruction::Unimplemented
        } else if z == 6 {
            Instruction::LdRHl(reg_field(y))
        } else if y == 6 {
            Instruction::LdHlR(reg_field(z))
        } else {
            Instruction::LdRR(reg_field(y), reg_field(z))
        }
    } else if x == 2 {
        Instruction::Alu(alu_field(y), source_field(z))
    } else {
        if z == 0 {
            if y < 4 {
                Instruction::RetCc(cond_field(y))
            } else if y == 4 {
                Instruction::LdhNA
            } else if y == 5 {
                Instruction::AddSpE
            } else if y == 6 {
                Instruction::LdhAN
            } else {
                Instruction::LdHlSpE
            }
        } else if z == 1 {
            if q == 0 {
                Instruction::Pop(stack_pair_field(p))
            } else if p == 0 {
                Instruction::Ret
            } else if p == 1 {
                Instruction::Reti
            } else if p == 2 {
                Instruction::JpHl
            } else {
                Instruction::LdSpHl
            }
        } else if z == 2 {
            if y < 4 {
                Instruction::JpCcNn(cond_field(y))
            } else if y == 4 {
                Instruction::LdhCA
            } else if y == 5 {
                Instruction::LdNnA
            } else if y == 6 {
                Instruction::LdhAC
            } else {
                Instruction::LdANn
            }
        } else if z == 3 {
            if y == 0 {
                Instruction::JpNn
            } else if y == 1 {
                Instruction::Prefix
            } else if y == 6 {
                Instruction::Di
            } else if y == 7 {
                Instruction::Ei
            } else {
                Instruction::Illegal
            }
        } else if z == 4 {
            if y < 4 {
                Instruction::CallCcNn(cond_field(y))
            } else {
                Instruction::Illegal
            }
        } else if z == 5 {
            if q == 0 {
                Instruction::Push(stack_pair_field(p))
            } else if p == 0 {
                Instruction::CallNn
            } else {
                Instruction::Illegal
            }
        } else if z == 6 {
            Instruction::Alu(alu_field(y), Source8::Imm)
        } else {
            Instruction::RstN((y * 8) as u8)
        }
    }
}

/// The CB-prefixed table: bits 6-7 pick the family (rotate/shift, BIT, RES,
/// SET), bits 3-5 the operation or bit index, bits 0-2 the operand.
pub open spec fn cb_table(op: u8) -> Instruction {
    let x = op as int / 64;
    let y = (op as int / 8) % 8;
    let t = target_field(op as int % 8);
    if x == 0 {
        Instruction::Shift(shift_field(y), t)
    } else if x == 1 {
        Instruction::BitTest(y as u8, t)
    } else if x == 2 {
        Instruction::ResetBit(y as u8, t)
    } else {
        Instruction::SetBit(y as u8, t)
    }
}

/// Looks up a primary opcode.
#[verifier::rlimit(40)]
pub fn decode(opcode: u8) -> (r: Instruction)
    ensures
        r == primary_table(opcode),
{
    match opcode {
        0x00 => Instruction::Nop,
        0x01 => Instruction::LdRrNn(RegisterU16::BC),
        0x02 => Instruction::LdRrA(RegisterU16::BC),
        0x03 => Instruction::IncRr(RegisterU16::BC),
        0x04 => Instruction::Inc8(Target8::Reg(RegisterU8::B)),
        0x05 => Instruction::Dec8(Target8::Reg(RegisterU8::B)),
        0x06 => Instruction::LdRN(RegisterU8::B),
        0x07 => Instruction::Rlca,
        0x08 => Instruction::LdNnSp,
        0x09 => Instruction::AddHlRr(RegisterU16::BC),
        0x0A => Instruction::LdARr(RegisterU16::BC),
        0x0B => Instruction::DecRr(RegisterU16::BC),
        0x0C => Instruction::Inc8(Target8::Reg(RegisterU8::C)),
        0x0D => Instruction::Dec8(Target8::Reg(RegisterU8::C)),
        0x0E => Instruction::LdRN(RegisterU8::C),
        0x0F => Instruction::Rrca,

        0x10 => Instruction::Unimplemented,
        0x11 => Instruction::LdRrNn(RegisterU16::DE),
        0x12 => Instruction::LdRrA(RegisterU16::DE),
        0x13 => Instruction::IncRr(RegisterU16::DE),
        0x14 => Instruction::Inc8(Target8::Reg(RegisterU8::D)),
        0x15 => Instruction::Dec8(Target8::Reg(RegisterU8::D)),
        0x16 => Instruction::LdRN(RegisterU8::D),
        0x17 => Instruction::Rla,
        0x18 => Instruction::JrE,
        0x19 => Instruction::AddHlRr(RegisterU16::DE),
        0x1A => Instruction::LdARr(RegisterU16::DE),
        0x1B => Instruction::DecRr(RegisterU16::DE),
        0x1C => Instruction::Inc8(Target8::Reg(RegisterU8::E)),
        0x1D => Instruction::Dec8(Target8::Reg(RegisterU8::E)),
        0x1E => Instruction::LdRN(RegisterU8::E),
        0x1F => Instruction::Rra,

        0x20 => Instruction::JrCcE(FlagConds::NZ),
        0x21 => Instruction::LdRrNn(RegisterU16::HL),
        0x22 => Instruction::LdHlPlusA,
        0x23 => Instruction::IncRr(RegisterU16::HL),
        0x24 => Instruction::Inc8(Target8::Reg(RegisterU8::H)),
        0x25 => Instruction::Dec8(Target8::Reg(RegisterU8::H)),
        0x26 => Instruction::LdRN(RegisterU8::H),
        0x27 => Instruction::Daa,
        0x28 => Instruction::JrCcE(FlagConds::Z),
        0x29 => Instruction::AddHlRr(RegisterU16::HL),
        0x2A => Instruction::LdAHlPlus,
        0x2B => Instruction::DecRr(RegisterU16::HL),
        0x2C => Instruction::Inc8(Target8::Reg(RegisterU8::L)),
        0x2D => Instruction::Dec8(Target8::Reg(RegisterU8::L)),
        0x2E => Instruction::LdRN(RegisterU8::L),
        0x2F => Instruction::Cpl,

        0x30 => Instruction::JrCcE(FlagConds::NC),
        0x31 => Instruction::LdRrNn(RegisterU16::SP),
        0x32 => Instruction::LdHlMinusA,
        0x33 => Instruction::IncRr(RegisterU16::SP),
        0x34 => Instruction::Inc8(Target8::AtHl),
        0x35 => Instruction::Dec8(Target8::AtHl),
        0x36 => Instruction::LdHlN,
        0x37 => Instruction::Scf,
        0x38 => Instruction::JrCcE(FlagConds::C),
        0x39 => Instruction::AddHlRr(RegisterU16::SP),
        0x3A => Instruction::LdAHlMinus,
        0x3B => Instruction::DecRr(RegisterU16::SP),
        0x3C => Instruction::Inc8(Target8::Reg(RegisterU8::A)),
        0x3D => Instruction::Dec8(Target8::Reg(RegisterU8::A)),
        0x3E => Instruction::LdRN(RegisterU8::A),
        0x3F => Instruction::Ccf,

        0x40 => Instruction::LdRR(RegisterU8::B, RegisterU8::B),
        0x41 => Instruction::LdRR(RegisterU8::B, RegisterU8::C),
        0x42 => Instruction::LdRR(RegisterU8::B, RegisterU8::D),
        0x43 => Instruction::LdRR(RegisterU8::B, RegisterU8::E),
        0x44 => Instruction::LdRR(RegisterU8::B, RegisterU8::H),
        0x45 => Instruction::LdRR(RegisterU8::B, RegisterU8::L),
        0x46 => Instruction::LdRHl(RegisterU8::B),
        0x47 => Instruction::LdRR(RegisterU8::B, RegisterU8::A),
        0x48 => Instruction::LdRR(RegisterU8::C, RegisterU8::B),
        0x49 => Instruction::LdRR(RegisterU8::C, RegisterU8::C),
        0x4A => Instruction::LdRR(RegisterU8::C, RegisterU8::D),
        0x4B => Instruction::LdRR(RegisterU8::C, RegisterU8::E),
        0x4C => Instruction::LdRR(RegisterU8::C, RegisterU8::H),
        0x4D => Instruction::LdRR(RegisterU8::C, RegisterU8::L),
        0x4E => Instruction::LdRHl(RegisterU8::C),
        0x4F => Instruction::LdRR(RegisterU8::C, RegisterU8::A),

        0x50 => Instruction::LdRR(RegisterU8::D, RegisterU8::B),
        0x51 => Instruction::LdRR(RegisterU8::D, RegisterU8::C),
        0x52 => Instruction::LdRR(RegisterU8::D, RegisterU8::D),
        0x53 => Instruction::LdRR(RegisterU8::D, RegisterU8::E),
        0x54 => Instruction::LdRR(RegisterU8::D, RegisterU8::H),
        0x55 => Instruction::LdRR(RegisterU8::D, RegisterU8::L),
        0x56 => Instruction::LdRHl(RegisterU8::D),
        0x57 => Instruction::LdRR(RegisterU8::D, RegisterU8::A),
        0x58 => Instruction::LdRR(RegisterU8::E, RegisterU8::B),
        0x59 => Instruction::LdRR(RegisterU8::E, RegisterU8::C),
        0x5A => Instruction::LdRR(RegisterU8::E, RegisterU8::D),
        0x5B => Instruction::LdRR(RegisterU8::E, RegisterU8::E),
        0x5C => Instruction::LdRR(RegisterU8::E, RegisterU8::H),
        0x5D => Instruction::LdRR(RegisterU8::E, RegisterU8::L),
        0x5E => Instruction::LdRHl(RegisterU8::E),
        0x5F => Instruction::LdRR(RegisterU8::E, RegisterU8::A),

        0x60 => Instruction::LdRR(RegisterU8::H, RegisterU8::B),
        0x61 => Instruction::LdRR(RegisterU8::H, RegisterU8::C),
        0x62 => Instruction::LdRR(RegisterU8::H, RegisterU8::D),
        0x63 => Instruction::LdRR(RegisterU8::H, RegisterU8::E),
        0x64 => Instruction::LdRR(RegisterU8::H, RegisterU8::H),
        0x65 => Instruction::LdRR(RegisterU8::H, RegisterU8::L),
        0x66 => Instruction::LdRHl(RegisterU8::H),
        0x67 => Instruction::LdRR(RegisterU8::H, RegisterU8::A),
        0x68 => Instruction::LdRR(RegisterU8::L, RegisterU8::B),
        0x69 => Instruction::LdRR(RegisterU8::L, RegisterU8::C),
        0x6A => Instruction::LdRR(RegisterU8::L, RegisterU8::D),
        0x6B => Instruction::LdRR(RegisterU8::L, RegisterU8::E),
        0x6C => Instruction::LdRR(RegisterU8::L, RegisterU8::H),
        0x6D => Instruction::LdRR(RegisterU8::L, RegisterU8::L),
        0x6E => Instruction::LdRHl(RegisterU8::L),
        0x6F => Instruction::LdRR(RegisterU8::L, RegisterU8::A),

        0x70 => Instruction::LdHlR(RegisterU8::B),
        0x71 => Instruction::LdHlR(RegisterU8::C),
        0x72 => Instruction::LdHlR(RegisterU8::D),
        0x73 => Instruction::LdHlR(RegisterU8::E),
        0x74 => Instruction::LdHlR(RegisterU8::H),
        0x75 => Instruction::LdHlR(RegisterU8::L),
        0x76 => Instruction::Unimplemented,
        0x77 => Instruction::LdHlR(RegisterU8::A),
        0x78 => Instruction::LdRR(RegisterU8::A, RegisterU8::B),
        0x79 => Instruction::LdRR(RegisterU8::A, RegisterU8::C),
        0x7A => Instruction::LdRR(RegisterU8::A, RegisterU8::D),
        0x7B => Instruction::LdRR(RegisterU8::A, RegisterU8::E),
        0x7C => Instruction::LdRR(RegisterU8::A, RegisterU8::H),
        0x7D => Instruction::LdRR(RegisterU8::A, RegisterU8::L),
        0x7E => Instruction::LdRHl(RegisterU8::A),
        0x7F => Instruction::LdRR(RegisterU8::A, RegisterU8::A),

        0x80 => Instruction::Alu(AluOp::Add, Source8::Reg(RegisterU8::B)),
        0x81 => Instruction::Alu(AluOp::Add, Source8::Reg(RegisterU8::C)),
        0x82 => Instruction::Alu(AluOp::Add, Source8::Reg(RegisterU8::D)),
        0x83 => Instruction::Alu(AluOp::Add, Source8::Reg(RegisterU8::E)),
        0x84 => Instruction::Alu(AluOp::Add, Source8::Reg(RegisterU8::H)),
        0x85 => Instruction::Alu(AluOp::Add, Source8::Reg(RegisterU8::L)),
        0x86 => Instruction::Alu(AluOp::Add, Source8::AtHl),
        0x87 => Instruction::Alu(AluOp::Add, Source8::Reg(RegisterU8::A)),
        0x88 => Instruction::Alu(AluOp::Adc, Source8::Reg(RegisterU8::B)),
        0x89 => Instruction::Alu(AluOp::Adc, Source8::Reg(RegisterU8::C)),
        0x8A => Instruction::Alu(AluOp::Adc, Source8::Reg(RegisterU8::D)),
        0x8B => Instruction::Alu(AluOp::Adc, Source8::Reg(RegisterU8::E)),
        0x8C => Instruction::Alu(AluOp::Adc, Source8::Reg(RegisterU8::H)),
        0x8D => Instruction::Alu(AluOp::Adc, Source8::Reg(RegisterU8::L)),
        0x8E => Instruction::Alu(AluOp::Adc, Source8::AtHl),
        0x8F => Instruction::Alu(AluOp::Adc, Source8::Reg(RegisterU8::A)),

        0x90 => Instruction::Alu(AluOp::Sub, Source8::Reg(RegisterU8::B)),
        0x91 => Instruction::Alu(AluOp::Sub, Source8::Reg(RegisterU8::C)),
        0x92 => Instruction::Alu(AluOp::Sub, Source8::Reg(RegisterU8::D)),
        0x93 => Instruction::Alu(AluOp::Sub, Source8::Reg(RegisterU8::E)),
        0x94 => Instruction::Alu(AluOp::Sub, Source8::Reg(RegisterU8::H)),
        0x95 => Instruction::Alu(AluOp::Sub, Source8::Reg(RegisterU8::L)),
        0x96 => Instruction::Alu(AluOp::Sub, Source8::AtHl),
        0x97 => Instruction::Alu(AluOp::Sub, Source8::Reg(RegisterU8::A)),
        0x98 => Instruction::Alu(AluOp::Sbc, Source8::Reg(RegisterU8::B)),
        0x99 => Instruction::Alu(AluOp::Sbc, Source8::Reg(RegisterU8::C)),
        0x9A => Instruction::Alu(AluOp::Sbc, Source8::Reg(RegisterU8::D)),
        0x9B => Instruction::Alu(AluOp::Sbc, Source8::Reg(RegisterU8::E)),
        0x9C => Instruction::Alu(AluOp::Sbc, Source8::Reg(RegisterU8::H)),
        0x9D => Instruction::Alu(AluOp::Sbc, Source8::Reg(RegisterU8::L)),
        0x9E => Instruction::Alu(AluOp::Sbc, Source8::AtHl),
        0x9F => Instruction::Alu(AluOp::Sbc, Source8::Reg(RegisterU8::A)),

        0xA0 => Instruction::Alu(AluOp::And, Source8::Reg(RegisterU8::B)),
        0xA1 => Instruction::Alu(AluOp::And, Source8::Reg(RegisterU8::C)),
        0xA2 => Instruction::Alu(AluOp::And, Source8::Reg(RegisterU8::D)),
        0xA3 => Instruction::Alu(AluOp::And, Source8::Reg(RegisterU8::E)),
        0xA4 => Instruction::Alu(AluOp::And, Source8::Reg(RegisterU8::H)),
        0xA5 => Instruction::Alu(AluOp::And, Source8::Reg(RegisterU8::L)),
        0xA6 => Instruction::Alu(AluOp::And, Source8::AtHl),
        0xA7 => Instruction::Alu(AluOp::And, Source8::Reg(RegisterU8::A)),
        0xA8 => Instruction::Alu(AluOp::Xor, Source8::Reg(RegisterU8::B)),
        0xA9 => Instruction::Alu(AluOp::Xor, Source8::Reg(RegisterU8::C)),
        0xAA => Instruction::Alu(AluOp::Xor, Source8::Reg(RegisterU8::D)),
        0xAB => Instruction::Alu(AluOp::Xor, Source8::Reg(RegisterU8::E)),
        0xAC => Instruction::Alu(AluOp::Xor, Source8::Reg(RegisterU8::H)),
        0xAD => Instruction::Alu(AluOp::Xor, Source8::Reg(RegisterU8::L)),
        0xAE => Instruction::Alu(AluOp::Xor, Source8::AtHl),
        0xAF => Instruction::Alu(AluOp::Xor, Source8::Reg(RegisterU8::A)),

        0xB0 => Instruction::Alu(AluOp::Or, Source8::Reg(RegisterU8::B)),
        0xB1 => Instruction::Alu(AluOp::Or, Source8::Reg(RegisterU8::C)),
        0xB2 => Instruction::Alu(AluOp::Or, Source8::Reg(RegisterU8::D)),
        0xB3 => Instruction::Alu(AluOp::Or, Source8::Reg(RegisterU8::E)),
        0xB4 => Instruction::Alu(AluOp::Or, Source8::Reg(RegisterU8::H)),
        0xB5 => Instruction::Alu(AluOp::Or, Source8::Reg(RegisterU8::L)),
        0xB6 => Instruction::Alu(AluOp::Or, Source8::AtHl),
        0xB7 => Instruction::Alu(AluOp::Or, Source8::Reg(RegisterU8::A)),
        0xB8 => Instruction::Alu(AluOp::Cp, Source8::Reg(RegisterU8::B)),
        0xB9 => Instruction::Alu(AluOp::Cp, Source8::Reg(RegisterU8::C)),
        0xBA => Instruction::Alu(AluOp::Cp, Source8::Reg(RegisterU8::D)),
        0xBB => Instruction::Alu(AluOp::Cp, Source8::Reg(RegisterU8::E)),
        0xBC => Instruction::Alu(AluOp::Cp, Source8::Reg(RegisterU8::H)),
        0xBD => Instruction::Alu(AluOp::Cp, Source8::Reg(RegisterU8::L)),
        0xBE => Instruction::Alu(AluOp::Cp, Source8::AtHl),
        0xBF => Instruction::Alu(AluOp::Cp, Source8::Reg(RegisterU8::A)),

        0xC0 => Instruction::RetCc(FlagConds::NZ),
        0xC1 => Instruction::Pop(RegisterU16::BC),
        0xC2 => Instruction::JpCcNn(FlagConds::NZ),
        0xC3 => Instruction::JpNn,
        0xC4 => Instruction::CallCcNn(FlagConds::NZ),
        0xC5 => Instruction::Push(RegisterU16::BC),
        0xC6 => Instruction::Alu(AluOp::Add, Source8::Imm),
        0xC7 => Instruction::RstN(0x00),
        0xC8 => Instruction::RetCc(FlagConds::Z),
        0xC9 => Instruction::Ret,
        0xCA => Instruction::JpCcNn(FlagConds::Z),
        0xCB => Instruction::Prefix,
        0xCC => Instruction::CallCcNn(FlagConds::Z),
        0xCD => Instruction::CallNn,
        0xCE => Instruction::Alu(AluOp::Adc, Source8::Imm),
        0xCF => Instruction::RstN(0x08),

        0xD0 => Instruction::RetCc(FlagConds::NC),
        0xD1 => Instruction::Pop(RegisterU16::DE),
        0xD2 => Instruction::JpCcNn(FlagConds::NC),
        0xD3 => Instruction::Illegal,
        0xD4 => Instruction::CallCcNn(FlagConds::NC),
        0xD5 => Instruction::Push(RegisterU16::DE),
        0xD6 => Instruction::Alu(AluOp::Sub, Source8::Imm),
        0xD7 => Instruction::RstN(0x10),
        0xD8 => Instruction::RetCc(FlagConds::C),
        0xD9 => Instruction::Reti,
        0xDA => Instruction::JpCcNn(FlagConds::C),
        0xDB => Instruction::Illegal,
        0xDC => Instruction::CallCcNn(FlagConds::C),
        0xDD => Instruction::Illegal,
        0xDE => Instruction::Alu(AluOp::Sbc, Source8::Imm),
        0xDF => Instruction::RstN(0x18),

        0xE0 => Instruction::LdhNA,
        0xE1 => Instruction::Pop(RegisterU16::HL),
        0xE2 => Instruction::LdhCA,
        0xE3 => Instruction::Illegal,
        0xE4 => Instruction::Illegal,
        0xE5 => Instruction::Push(RegisterU16::HL),
        0xE6 => Instruction::Alu(AluOp::And, Source8::Imm),
        0xE7 => Instruction::RstN(0x20),
        0xE8 => Instruction::AddSpE,
        0xE9 => Instruction::JpHl,
        0xEA => Instruction::LdNnA,
        0xEB => Instruction::Illegal,
        0xEC => Instruction::Illegal,
        0xED => Instruction::Illegal,
        0xEE => Instruction::Alu(AluOp::Xor, Source8::Imm),
        0xEF => Instruction::RstN(0x28),

        0xF0 => Instruction::LdhAN,
        0xF1 => Instruction::Pop(RegisterU16::AF),
        0xF2 => Instruction::LdhAC,
        0xF3 => Instruction::Di,
        0xF4 => Instruction::Illegal,
        0xF5 => Instruction::Push(RegisterU16::AF),
        0xF6 => Instruction::Alu(AluOp::Or, Source8::Imm),
        0xF7 => Instruction::RstN(0x30),
        0xF8 => Instruction::LdHlSpE,
        0xF9 => Instruction::LdSpHl,
        0xFA => Instruction::LdANn,
        0xFB => Instruction::Ei,
        0xFC => Instruction::Illegal,
        0xFD => Instruction::Illegal,
        0xFE => Instruction::Alu(AluOp::Cp, Source8::Imm),
        0xFF => Instruction::RstN(0x38),
    }
}

fn reg_code(k: u8) -> (r: Target8)
    requires
        k < 8,
    ensures
        r == target_field(k as int),
{
    match k {
        0 => Target8::Reg(RegisterU8::B),
        1 => Target8::Reg(RegisterU8::C),
        2 => Target8::Reg(RegisterU8::D),
        3 => Target8::Reg(RegisterU8::E),
        4 => Target8::Reg(RegisterU8::H),
        5 => Target8::Reg(RegisterU8::L),
        6 => Target8::AtHl,
        _ => Target8::Reg(RegisterU8::A),
    }
}

fn shift_code(k: u8) -> (r: ShiftOp)
    requires
        k < 8,
    ensures
        r == shift_field(k as int),
{
    match k {
        0 => ShiftOp::Rlc,
        1 => ShiftOp::Rrc,
        2 => ShiftOp::Rl,
        3 => ShiftOp::Rr,
        4 => ShiftOp::Sla,
        5 => ShiftOp::Sra,
        6 => ShiftOp::Swap,
        _ => ShiftOp::Srl,
    }
}

/// Looks up the byte that follows the CB prefix.
pub fn decode_cb(code: u8) -> (r: Instruction)
    ensures
        r == cb_table(code),
        r.wf(),
        r.is_prefixed(),
{
    let t = reg_code(code % 8);
    let y = (code / 8) % 8;
    if code < 0x40 {
        Instruction::Shift(shift_code(y), t)
    } else if code < 0x80 {
        Instruction::BitTest(y, t)
    } else if code < 0xC0 {
        Instruction::ResetBit(y, t)
    } else {
        Instruction::SetBit(y, t)
    }
}

/// The primary opcodes that have no valid encoding.
pub open spec fn is_illegal_opcode(op: u8) -> bool {
    op == 0xD3 || op == 0xDB || op == 0xDD || op == 0xE3 || op == 0xE4 || op == 0xEB || op == 0xEC
        || op == 0xED || op == 0xF4 || op == 0xFC || op == 0xFD
}

/// Every byte resolves to exactly one entry of each table. In the primary
/// table the illegal entries are exactly the opcodes without an encoding,
/// the unimplemented ones exactly STOP (0x10) and HALT (0x76), and only 0xCB
/// escapes to the prefixed table; every entry of the prefixed table is a
/// handled rotate/shift, BIT, RES or SET.
pub proof fn lemma_dispatch_complete(op: u8)
    ensures
        primary_table(op) is Illegal <==> is_illegal_opcode(op),
        primary_table(op) is Unimplemented <==> (op == 0x10 || op == 0x76),
        primary_table(op) is Prefix <==> op == 0xCB,
        !primary_table(op).is_prefixed(),
        primary_table(op).wf(),
        cb_table(op).is_prefixed(),
        cb_table(op).wf(),
{
    let v = op as int;
    assert(v == 64 * (v / 64) + 8 * ((v / 8) % 8) + v % 8);
    assert(0 <= v / 64 < 4);
}

} // verus!

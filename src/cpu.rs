//! Register file, status flags and the CPU aggregate.

use vstd::prelude::*;

verus! {

/// Weight of the zero flag (Z) inside the packed F byte.
pub const ZERO_FLAG_MASK: u8 = 0x80;

/// Weight of the subtract flag (N) inside the packed F byte.
pub const SUBTRACT_FLAG_MASK: u8 = 0x40;

/// Weight of the half-carry flag (H) inside the packed F byte.
pub const HALF_CARRY_FLAG_MASK: u8 = 0x20;

/// Weight of the carry flag (C) inside the packed F byte.
pub const CARRY_FLAG_MASK: u8 = 0x10;

/// The 16-bit value whose high byte is `hi` and low byte is `lo`.
pub open spec fn word(hi: u8, lo: u8) -> u16 {
    (hi as int * 256 + lo as int) as u16
}

/// Bits 8-15 of `v`.
pub open spec fn high_byte(v: u16) -> u8 {
    (v / 256) as u8
}

/// Bits 0-7 of `v`.
pub open spec fn low_byte(v: u16) -> u8 {
    (v % 256) as u8
}

/// The 8-bit storage cells of the register file.
#[derive(Clone, Copy, PartialEq, Eq, Structural, Debug)]
pub enum RegisterU8 {
    A,
    B,
    C,
    D,
    E,
    F,
    H,
    L,
}

/// The 16-bit registers: four byte pairs composed on access, and the two
/// true 16-bit cells PC and SP.
#[derive(Clone, Copy, PartialEq, Eq, Structural, Debug)]
pub enum RegisterU16 {
    AF,
    BC,
    DE,
    HL,
    PC,
    SP,
}

/// The four status flags.
#[derive(Clone, Copy, PartialEq, Eq, Structural, Debug)]
pub enum Flag {
    Z,
    N,
    H,
    C,
}

/// Condition codes of the conditional jumps, calls and returns.
#[derive(Clone, Copy, PartialEq, Eq, Structural, Debug)]
pub enum FlagConds {
    NZ,
    Z,
    NC,
    C,
}

/// The two states of the interrupt master enable.
#[derive(Clone, Copy, PartialEq, Eq, Structural, Debug)]
pub enum InterruptConds {
    Enabled,
    Disabled,
}

/// The boolean view of the status flags.
#[derive(Clone, Copy, PartialEq, Eq, Structural, Debug)]
pub struct FlagsRegister {
    /// Zero flag.
    pub z: bool,
    /// Add/subtract flag.
    pub n: bool,
    /// Half-carry flag.
    pub h: bool,
    /// Carry flag.
    pub c: bool,
}

/// `mask` when `on` holds, else zero.
pub open spec fn flag_weight(on: bool, mask: u8) -> int {
    if on {
        mask as int
    } else {
        0
    }
}

impl FlagsRegister {
    /// The value of one flag.
    pub open spec fn flag(self, flag: Flag) -> bool {
        match flag {
            Flag::Z => self.z,
            Flag::N => self.n,
            Flag::H => self.h,
            Flag::C => self.c,
        }
    }

    /// The flags with `flag` set to `val`.
    pub open spec fn with_flag(self, flag: Flag, val: bool) -> FlagsRegister {
        match flag {
            Flag::Z => FlagsRegister { z: val, ..self },
            Flag::N => FlagsRegister { n: val, ..self },
            Flag::H => FlagsRegister { h: val, ..self },
            Flag::C => FlagsRegister { c: val, ..self },
        }
    }

    /// The packed byte: Z in bit 7, N in bit 6, H in bit 5, C in bit 4, and
    /// the low nibble zero.
    pub open spec fn spec_byte(self) -> u8 {
        (flag_weight(self.z, ZERO_FLAG_MASK) + flag_weight(self.n, SUBTRACT_FLAG_MASK)
            + flag_weight(self.h, HALF_CARRY_FLAG_MASK) + flag_weight(
            self.c,
            CARRY_FLAG_MASK,
        )) as u8
    }

    /// The flags that the top nibble of `b` holds.
    pub open spec fn spec_from_byte(b: u8) -> FlagsRegister {
        FlagsRegister {
            z: b & ZERO_FLAG_MASK != 0,
            n: b & SUBTRACT_FLAG_MASK != 0,
            h: b & HALF_CARRY_FLAG_MASK != 0,
            c: b & CARRY_FLAG_MASK != 0,
        }
    }

    /// All four flags clear.
    pub fn cleared() -> (r: FlagsRegister)
        ensures
            r == (FlagsRegister { z: false, n: false, h: false, c: false }),
    {
        FlagsRegister { z: false, n: false, h: false, c: false }
    }

    pub fn get_flag(&self, flag: Flag) -> (r: bool)
        ensures
            r == self.flag(flag),
    {
        match flag {
            Flag::Z => self.z,
            Flag::N => self.n,
            Flag::H => self.h,
            Flag::C => self.c,
        }
    }

    pub fn set_flag(&mut self, flag: Flag, val: bool)
        ensures
            *final(self) == old(self).with_flag(flag, val),
    {
        match flag {
            Flag::Z => self.z = val,
            Flag::N => self.n = val,
            Flag::H => self.h = val,
            Flag::C => self.c = val,
        }
    }

    /// Packs the flags into the top nibble of a byte.
    pub fn to_byte(self) -> (r: u8)
        ensures
            r == self.spec_byte(),
    {
        let mut r: u8 = 0;
        if self.z {
            r = r + ZERO_FLAG_MASK;
        }
        if self.n {
            r = r + SUBTRACT_FLAG_MASK;
        }
        if self.h {
            r = r + HALF_CARRY_FLAG_MASK;
        }
        if self.c {
            r = r + CARRY_FLAG_MASK;
        }
        r
    }

    /// Reads the flags out of the top nibble of `b`; the low nibble is ignored.
    pub fn from_byte(b: u8) -> (r: FlagsRegister)
        ensures
            r == FlagsRegister::spec_from_byte(b),
    {
        FlagsRegister {
            z: b & ZERO_FLAG_MASK != 0,
            n: b & SUBTRACT_FLAG_MASK != 0,
            h: b & HALF_CARRY_FLAG_MASK != 0,
            c: b & CARRY_FLAG_MASK != 0,
        }
    }
}

impl From<FlagsRegister> for u8 {
    fn from(flag: FlagsRegister) -> (r: u8)
        ensures
            r == flag.spec_byte(),
    {
        flag.to_byte()
    }
}

impl vstd::std_specs::convert::FromSpecImpl<FlagsRegister> for u8 {
    open spec fn obeys_from_spec() -> bool {
        true
    }

    open spec fn from_spec(v: FlagsRegister) -> u8 {
        v.spec_byte()
    }
}

/// Unpacking a packed flag byte gives back the flags, and a packed byte has
/// a zero low nibble.
pub proof fn lemma_flags_byte_round_trip(f: FlagsRegister)
    ensures
        FlagsRegister::spec_from_byte(f.spec_byte()) == f,
        f.spec_byte() & 0x0F == 0,
{
    let b = f.spec_byte();
    let (z, n, h, c) = (f.z, f.n, f.h, f.c);
    assert((b & 0x80 != 0 <==> z) && (b & 0x40 != 0 <==> n) && (b & 0x20 != 0 <==> h) && (b
        & 0x10 != 0 <==> c) && b & 0x0F == 0) by (bit_vector)
        requires
            b == (if z {
                0x80u8
            } else {
                0u8
            }) + (if n {
                0x40u8
            } else {
                0u8
            }) + (if h {
                0x20u8
            } else {
                0u8
            }) + (if c {
                0x10u8
            } else {
                0u8
            }),
    ;
}

/// Packing the flags read out of a byte gives back its top nibble.
pub proof fn lemma_byte_flags_round_trip(b: u8)
    ensures
        FlagsRegister::spec_from_byte(b).spec_byte() == b & 0xF0,
{
    let f = FlagsRegister::spec_from_byte(b);
    let p = f.spec_byte();
    assert(p == b & 0xF0) by (bit_vector)
        requires
            p == (if b & 0x80 != 0 {
                0x80u8
            } else {
                0u8
            }) + (if b & 0x40 != 0 {
                0x40u8
            } else {
                0u8
            }) + (if b & 0x20 != 0 {
                0x20u8
            } else {
                0u8
            }) + (if b & 0x10 != 0 {
                0x10u8
            } else {
                0u8
            }),
    ;
}

/// The eight 8-bit cells and the two 16-bit cells of the register file.
#[derive(Clone, Copy, PartialEq, Eq, Structural, Debug)]
pub struct Registers {
    pub a: u8,
    pub b: u8,
    pub c: u8,
    pub d: u8,
    pub e: u8,
    pub f: u8,
    pub h: u8,
    pub l: u8,
    pub pc: u16,
    pub sp: u16,
}

impl Registers {
    /// The value of an 8-bit register.
    pub open spec fn reg8(self, reg: RegisterU8) -> u8 {
        match reg {
            RegisterU8::A => self.a,
            RegisterU8::B => self.b,
            RegisterU8::C => self.c,
            RegisterU8::D => self.d,
            RegisterU8::E => self.e,
            RegisterU8::F => self.f,
            RegisterU8::H => self.h,
            RegisterU8::L => self.l,
        }
    }

    /// The value of a 16-bit register; a pair reads as `(high << 8) | low`.
    pub open spec fn reg16(self, reg: RegisterU16) -> u16 {
        match reg {
            RegisterU16::AF => word(self.a, self.f),
            RegisterU16::BC => word(self.b, self.c),
            RegisterU16::DE => word(self.d, self.e),
            RegisterU16::HL => word(self.h, self.l),
            RegisterU16::PC => self.pc,
            RegisterU16::SP => self.sp,
        }
    }

    /// The registers after an 8-bit write; F keeps only the top nibble.
    pub open spec fn with8(self, reg: RegisterU8, val: u8) -> Registers {
        match reg {
            RegisterU8::A => Registers { a: val, ..self },
            RegisterU8::B => Registers { b: val, ..self },
            RegisterU8::C => Registers { c: val, ..self },
            RegisterU8::D => Registers { d: val, ..self },
            RegisterU8::E => Registers { e: val, ..self },
            RegisterU8::F => Registers { f: val & 0xF0, ..self },
            RegisterU8::H => Registers { h: val, ..self },
            RegisterU8::L => Registers { l: val, ..self },
        }
    }

    /// The registers after a 16-bit write: a pair is split into its high and
    /// low byte, written through the two 8-bit cells.
    pub open spec fn with16(self, reg: RegisterU16, val: u16) -> Registers {
        match reg {
            RegisterU16::AF => self.with8(RegisterU8::A, high_byte(val)).with8(
                RegisterU8::F,
                low_byte(val),
            ),
            RegisterU16::BC => self.with8(RegisterU8::B, high_byte(val)).with8(
                RegisterU8::C,
                low_byte(val),
            ),
            RegisterU16::DE => self.with8(RegisterU8::D, high_byte(val)).with8(
                RegisterU8::E,
                low_byte(val),
            ),
            RegisterU16::HL => self.with8(RegisterU8::H, high_byte(val)).with8(
                RegisterU8::L,
                low_byte(val),
            ),
            RegisterU16::PC => Registers { pc: val, ..self },
            RegisterU16::SP => Registers { sp: val, ..self },
        }
    }

    /// All registers zero.
    pub open spec fn spec_zeroed() -> Registers {
        Registers { a: 0, b: 0, c: 0, d: 0, e: 0, f: 0, h: 0, l: 0, pc: 0, sp: 0 }
    }

    /// All registers zero, as at power-on.
    pub fn zeroed() -> (r: Registers)
        ensures
            r == Registers::spec_zeroed(),
    {
        Registers { a: 0, b: 0, c: 0, d: 0, e: 0, f: 0, h: 0, l: 0, pc: 0, sp: 0 }
    }

    pub fn read_u8(&self, reg: RegisterU8) -> (r: u8)
        ensures
            r == self.reg8(reg),
    {
        match reg {
            RegisterU8::A => self.a,
            RegisterU8::B => self.b,
            RegisterU8::C => self.c,
            RegisterU8::D => self.d,
            RegisterU8::E => self.e,
            RegisterU8::F => self.f,
            RegisterU8::H => self.h,
            RegisterU8::L => self.l,
        }
    }

    /// The packed byte of `reg`.
    pub fn get_f_reg(&self, reg: FlagsRegister) -> (r: u8)
        ensures
            r == reg.spec_byte(),
    {
        reg.to_byte()
    }

    /// Stores the packed byte of `val` in F.
    pub fn update_f_reg(&mut self, val: FlagsRegister)
        ensures
            *final(self) == old(self).with8(RegisterU8::F, val.spec_byte()),
            final(self).f == val.spec_byte(),
    {
        proof {
            lemma_flags_byte_round_trip(val);
            lemma_byte_flags_round_trip(val.spec_byte());
        }
        let b = val.to_byte();
        self.write_u8(RegisterU8::F, b);
    }

    /// Writes an 8-bit register; a write to F clears its low nibble.
    pub fn write_u8(&mut self, reg: RegisterU8, val: u8)
        ensures
            *final(self) == old(self).with8(reg, val),
    {
        match reg {
            RegisterU8::A => self.a = val,
            RegisterU8::B => self.b = val,
            RegisterU8::C => self.c = val,
            RegisterU8::D => self.d = val,
            RegisterU8::E => self.e = val,
            RegisterU8::F => self.f = val & 0xF0,
            RegisterU8::H => self.h = val,
            RegisterU8::L => self.l = val,
        }
    }

    pub fn read_u16(&self, reg: RegisterU16) -> (r: u16)
        ensures
            r == self.reg16(reg),
    {
        match reg {
            RegisterU16::AF => (self.a as u16) * 256 + self.f as u16,
            RegisterU16::BC => (self.b as u16) * 256 + self.c as u16,
            RegisterU16::DE => (self.d as u16) * 256 + self.e as u16,
            RegisterU16::HL => (self.h as u16) * 256 + self.l as u16,
            RegisterU16::PC => self.pc,
            RegisterU16::SP => self.sp,
        }
    }

    /// Writes a 16-bit register; a pair takes the high byte in its first
    /// register and the low byte in its second.
    pub fn write_u16(&mut self, reg: RegisterU16, val: u16)
        ensures
            *final(self) == old(self).with16(reg, val),
    {
        let msb = (val / 256) as u8;
        let lsb = (val % 256) as u8;
        match reg {
            RegisterU16::AF => {
                self.write_u8(RegisterU8::A, msb);
                self.write_u8(RegisterU8::F, lsb);
            },
            RegisterU16::BC => {
                self.write_u8(RegisterU8::B, msb);
                self.write_u8(RegisterU8::C, lsb);
            },
            RegisterU16::DE => {
                self.write_u8(RegisterU8::D, msb);
                self.write_u8(RegisterU8::E, lsb);
            },
            RegisterU16::HL => {
                self.write_u8(RegisterU8::H, msb);
                self.write_u8(RegisterU8::L, lsb);
            },
            RegisterU16::PC => self.pc = val,
            RegisterU16::SP => self.sp = val,
        }
    }
}

/// Writing a 16-bit value to a register pair and reading it back gives the
/// value, with bits 8-15 in the pair's first register and bits 0-7 in its
/// second; for AF the low byte keeps only its top nibble.
pub proof fn lemma_pair_round_trip(regs: Registers, v: u16)
    ensures
        regs.with16(RegisterU16::HL, v).reg8(RegisterU8::H) == v >> 8,
        regs.with16(RegisterU16::HL, v).reg8(RegisterU8::L) == v & 0xFF,
        regs.with16(RegisterU16::HL, v).reg16(RegisterU16::HL) == v,
        regs.with16(RegisterU16::BC, v).reg8(RegisterU8::B) == v >> 8,
        regs.with16(RegisterU16::BC, v).reg8(RegisterU8::C) == v & 0xFF,
        regs.with16(RegisterU16::BC, v).reg16(RegisterU16::BC) == v,
        regs.with16(RegisterU16::DE, v).reg8(RegisterU8::D) == v >> 8,
        regs.with16(RegisterU16::DE, v).reg8(RegisterU8::E) == v & 0xFF,
        regs.with16(RegisterU16::DE, v).reg16(RegisterU16::DE) == v,
        regs.with16(RegisterU16::AF, v).reg8(RegisterU8::A) == v >> 8,
        regs.with16(RegisterU16::AF, v).reg8(RegisterU8::F) == v & 0xF0,
        regs.with16(RegisterU16::AF, v).reg16(RegisterU16::AF) == v & 0xFFF0,
{
    let hi = high_byte(v);
    let lo = low_byte(v);
    let lo_masked = lo & 0xF0;
    assert(hi == v >> 8 && lo == v & 0xFF) by (bit_vector)
        requires
            hi == (v / 256) as u8,
            lo == (v % 256) as u8,
    ;
    assert(lo_masked == v & 0xF0 && (hi as int * 256 + lo_masked as int) as u16 == v & 0xFFF0)
        by (bit_vector)
        requires
            hi == (v / 256) as u8,
            lo == (v % 256) as u8,
            lo_masked == lo & 0xF0,
    ;
}

/// The CPU aggregate: registers, the boolean flag view, and the interrupt
/// master enable.
pub struct CPU {
    pub register: Registers,
    pub flags: FlagsRegister,
    pub ime: bool,
}

impl CPU {
    /// The packed F byte and the boolean flag view agree.
    pub open spec fn synced(self) -> bool {
        self.register.f == self.flags.spec_byte()
    }

    /// A CPU at power-on: every register zero, every flag clear, interrupts
    /// disabled.
    pub fn new() -> (r: CPU)
        ensures
            r.register == Registers::spec_zeroed(),
            r.flags == (FlagsRegister { z: false, n: false, h: false, c: false }),
            !r.ime,
            r.synced(),
    {
        CPU { register: Registers::zeroed(), flags: FlagsRegister::cleared(), ime: false }
    }

    pub fn get_ime_state(&self) -> (r: bool)
        ensures
            r == self.ime,
    {
        self.ime
    }

    pub fn set_ime_state(&mut self, interrupt_condition: InterruptConds)
        ensures
            final(self).ime == (interrupt_condition == InterruptConds::Enabled),
            final(self).register == old(self).register,
            final(self).flags == old(self).flags,
    {
        match interrupt_condition {
            InterruptConds::Enabled => self.ime = true,
            InterruptConds::Disabled => self.ime = false,
        }
    }
}

} // verus!

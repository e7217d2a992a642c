//! Stateless arithmetic, logic, rotate/shift and bit operations, each giving
//! its result together with the flags it leaves.

use vstd::prelude::*;

use crate::cpu::FlagsRegister;

verus! {

/// An 8-bit result and the flags that go with it.
#[derive(Clone, Copy, PartialEq, Eq, Structural, Debug)]
pub struct AluResult {
    pub value: u8,
    pub flags: FlagsRegister,
}

/// A 16-bit result and the flags that go with it.
#[derive(Clone, Copy, PartialEq, Eq, Structural, Debug)]
pub struct WordResult {
    pub value: u16,
    pub flags: FlagsRegister,
}

proof fn lemma_low_nibble(x: u8)
    by (bit_vector)
    ensures
        x & 0x0F == x % 16,
        x & 0x0F < 16,
{
}

proof fn lemma_low_twelve_bits(x: u16)
    by (bit_vector)
    ensures
        x & 0x0FFF == x % 4096,
        x & 0x0FFF < 4096,
{
}

/// A carry out of bit 3 when adding `a` and `b`.
pub open spec fn spec_half_carry_add_u8(a: u8, b: u8) -> bool {
    a % 16 + b % 16 > 15
}

/// A borrow from bit 4 when subtracting `b` from `a`.
pub open spec fn spec_half_carry_sub_u8(a: u8, b: u8) -> bool {
    a % 16 < b % 16
}

/// A carry out of bit 11 when adding `a` and `b`.
pub open spec fn spec_half_carry_add_u16(a: u16, b: u16) -> bool {
    a % 4096 + b % 4096 > 4095
}

/// `((a & 0xF) + (b & 0xF)) & 0x10 != 0`
pub fn half_carry_add_u8(a: u8, b: u8) -> (r: bool)
    ensures
        r == spec_half_carry_add_u8(a, b),
{
    proof {
        lemma_low_nibble(a);
        lemma_low_nibble(b);
    }
    let sum = (a & 0x0F) + (b & 0x0F);
    proof {
        assert(sum & 0x10 == 0x10 <==> sum >= 16) by (bit_vector)
            requires
                sum < 32,
        ;
    }
    sum & 0x10 == 0x10
}

/// `(a & 0xF) < (b & 0xF)`
pub fn half_carry_sub_u8(a: u8, b: u8) -> (r: bool)
    ensures
        r == spec_half_carry_sub_u8(a, b),
{
    proof {
        lemma_low_nibble(a);
        lemma_low_nibble(b);
    }
    (a & 0x0F) < (b & 0x0F)
}

/// `((a & 0xFFF) + (b & 0xFFF)) & 0x1000 != 0`
pub fn half_carry_add_u16(a: u16, b: u16) -> (r: bool)
    ensures
        r == spec_half_carry_add_u16(a, b),
{
    proof {
        lemma_low_twelve_bits(a);
        lemma_low_twelve_bits(b);
    }
    let sum = (a & 0x0FFF) + (b & 0x0FFF);
    proof {
        assert(sum & 0x1000 == 0x1000 <==> sum >= 4096) by (bit_vector)
            requires
                sum < 8192,
        ;
    }
    sum & 0x1000 == 0x1000
}

/// 0 or 1, as a carry-in.
pub open spec fn carry_value(carry: bool) -> u8 {
    if carry {
        1
    } else {
        0
    }
}

/// 8-bit addition.
pub open spec fn spec_add8(a: u8, b: u8) -> AluResult {
    let value = ((a + b) % 256) as u8;
    AluResult {
        value,
        flags: FlagsRegister {
            z: value == 0,
            n: false,
            h: spec_half_carry_add_u8(a, b),
            c: a + b > 0xFF,
        },
    }
}

/// Addition with carry, in two steps: the carry-in is added first and the
/// operand second; each step may set H and C.
pub open spec fn spec_adc8(a: u8, b: u8, carry: bool) -> AluResult {
    let first = spec_add8(a, carry_value(carry));
    let second = spec_add8(first.value, b);
    AluResult {
        value: second.value,
        flags: FlagsRegister {
            z: second.value == 0,
            n: false,
            h: first.flags.h || second.flags.h,
            c: first.flags.c || second.flags.c,
        },
    }
}

/// 8-bit subtraction; C is the borrow.
pub open spec fn spec_sub8(a: u8, b: u8) -> AluResult {
    let value = ((a - b) % 256) as u8;
    AluResult {
        value,
        flags: FlagsRegister {
            z: value == 0,
            n: true,
            h: spec_half_carry_sub_u8(a, b),
            c: a < b,
        },
    }
}

/// Subtraction with carry, in two steps: the carry-in is subtracted first and
/// the operand second; each step may set H and C.
pub open spec fn spec_sbc8(a: u8, b: u8, carry: bool) -> AluResult {
    let first = spec_sub8(a, carry_value(carry));
    let second = spec_sub8(first.value, b);
    AluResult {
        value: second.value,
        flags: FlagsRegister {
            z: second.value == 0,
            n: true,
            h: first.flags.h || second.flags.h,
            c: first.flags.c || second.flags.c,
        },
    }
}

/// Bitwise and: H set, N and C clear.
pub open spec fn spec_and8(a: u8, b: u8) -> AluResult {
    let value = a & b;
    AluResult { value, flags: FlagsRegister { z: value == 0, n: false, h: true, c: false } }
}

/// Bitwise or: N, H and C clear.
pub open spec fn spec_or8(a: u8, b: u8) -> AluResult {
    let value = a | b;
    AluResult { value, flags: FlagsRegister { z: value == 0, n: false, h: false, c: false } }
}

/// Bitwise exclusive or: N, H and C clear.
pub open spec fn spec_xor8(a: u8, b: u8) -> AluResult {
    let value = a ^ b;
    AluResult { value, flags: FlagsRegister { z: value == 0, n: false, h: false, c: false } }
}

/// 8-bit increment; C is left as it was.
pub open spec fn spec_inc8(v: u8, carry: bool) -> AluResult {
    let value = ((v + 1) % 256) as u8;
    AluResult {
        value,
        flags: FlagsRegister {
            z: value == 0,
            n: false,
            h: spec_half_carry_add_u8(v, 1),
            c: carry,
        },
    }
}

/// 8-bit decrement; C is left as it was.
pub open spec fn spec_dec8(v: u8, carry: bool) -> AluResult {
    let value = ((v - 1) % 256) as u8;
    AluResult {
        value,
        flags: FlagsRegister {
            z: value == 0,
            n: true,
            h: spec_half_carry_sub_u8(v, 1),
            c: carry,
        },
    }
}

/// Decimal adjust of A after a BCD addition (N clear) or subtraction (N set).
pub open spec fn spec_daa8(a: u8, f: FlagsRegister) -> AluResult {
    if !f.n {
        let high_fix = f.c || a > 0x99;
        let a1 = if high_fix {
            ((a + 0x60) % 256) as u8
        } else {
            a
        };
        let a2 = if f.h || a1 % 16 > 9 {
            ((a1 + 0x06) % 256) as u8
        } else {
            a1
        };
        AluResult { value: a2, flags: FlagsRegister { z: a2 == 0, n: false, h: false, c: high_fix } }
    } else {
        let a1 = if f.c {
            ((a - 0x60) % 256) as u8
        } else {
            a
        };
        let a2 = if f.h {
            ((a1 - 0x06) % 256) as u8
        } else {
            a1
        };
        AluResult { value: a2, flags: FlagsRegister { z: a2 == 0, n: true, h: false, c: f.c } }
    }
}

/// Complement of A: N and H set, Z and C unchanged.
pub open spec fn spec_cpl8(a: u8, f: FlagsRegister) -> AluResult {
    AluResult { value: a ^ 0xFF, flags: FlagsRegister { n: true, h: true, ..f } }
}

/// 16-bit addition for `ADD HL,rr`: Z unchanged, N clear.
pub open spec fn spec_add16(a: u16, b: u16, f: FlagsRegister) -> WordResult {
    WordResult {
        value: ((a + b) % 65536) as u16,
        flags: FlagsRegister {
            z: f.z,
            n: false,
            h: spec_half_carry_add_u16(a, b),
            c: a + b > 0xFFFF,
        },
    }
}

/// The byte `e` read as a two's-complement displacement.
pub open spec fn signed_offset(e: u8) -> int {
    if e < 128 {
        e as int
    } else {
        e - 256
    }
}

/// `base` moved by the signed displacement `e`, wrapping modulo 0x10000.
pub open spec fn spec_offset_address(base: u16, e: u8) -> u16 {
    ((base + signed_offset(e)) % 65536) as u16
}

/// SP plus a signed displacement: the value moves by the signed `e`, while H
/// and C follow the unsigned 16-bit rule against the zero-extended byte; Z
/// and N are cleared.
pub open spec fn spec_add_sp_offset(sp: u16, e: u8) -> WordResult {
    WordResult {
        value: spec_offset_address(sp, e),
        flags: FlagsRegister {
            z: false,
            n: false,
            h: spec_half_carry_add_u16(sp, e as u16),
            c: sp + e > 0xFFFF,
        },
    }
}

/// The result of a rotate or shift: Z from the value, N and H clear.
pub open spec fn shifted(value: u8, carry: bool) -> AluResult {
    AluResult { value, flags: FlagsRegister { z: value == 0, n: false, h: false, c: carry } }
}

/// Rotate left; bit 7 goes to C and to bit 0.
pub open spec fn spec_rlc8(v: u8) -> AluResult {
    shifted(((v * 2) % 256 + v / 128) as u8, v >= 128)
}

/// Rotate left through carry; bit 7 goes to C, the old C to bit 0.
pub open spec fn spec_rl8(v: u8, carry: bool) -> AluResult {
    shifted(((v * 2) % 256 + carry_value(carry)) as u8, v >= 128)
}

/// Rotate right; bit 0 goes to C and to bit 7.
pub open spec fn spec_rrc8(v: u8) -> AluResult {
    shifted((v / 2 + (v % 2) * 128) as u8, v % 2 == 1)
}

/// Rotate right through carry; bit 0 goes to C, the old C to bit 7.
pub open spec fn spec_rr8(v: u8, carry: bool) -> AluResult {
    shifted((v / 2 + carry_value(carry) * 128) as u8, v % 2 == 1)
}

/// Arithmetic shift left; bit 7 goes to C, bit 0 becomes 0.
pub open spec fn spec_sla8(v: u8) -> AluResult {
    shifted(((v * 2) % 256) as u8, v >= 128)
}

/// Arithmetic shift right; bit 0 goes to C, bit 7 is kept.
pub open spec fn spec_sra8(v: u8) -> AluResult {
    shifted((v / 2 + (v / 128) * 128) as u8, v % 2 == 1)
}

/// Logical shift right; bit 0 goes to C, bit 7 becomes 0.
pub open spec fn spec_srl8(v: u8) -> AluResult {
    shifted((v / 2) as u8, v % 2 == 1)
}

/// Exchange of the two nibbles; C clear.
pub open spec fn spec_swap8(v: u8) -> AluResult {
    shifted(((v % 16) * 16 + v / 16) as u8, false)
}

/// The accumulator form of a rotate: as the generic form, but Z cleared.
pub open spec fn accumulator_form(r: AluResult) -> AluResult {
    AluResult { value: r.value, flags: FlagsRegister { z: false, ..r.flags } }
}

/// Bit `bit` of `v`.
pub open spec fn bit_of(v: u8, bit: u8) -> bool {
    (v >> bit) & 1 == 1
}

/// The flags after testing bit `bit` of `v`: Z is the bit inverted, N clear,
/// H set, C unchanged.
pub open spec fn spec_bit_test(v: u8, bit: u8, f: FlagsRegister) -> FlagsRegister {
    FlagsRegister { z: !bit_of(v, bit), n: false, h: true, c: f.c }
}

/// `v` with bit `bit` set.
pub open spec fn spec_set_bit(v: u8, bit: u8) -> u8 {
    v | (1u8 << bit)
}

/// `v` with bit `bit` cleared.
pub open spec fn spec_reset_bit(v: u8, bit: u8) -> u8 {
    v & !(1u8 << bit)
}

pub fn add8(a: u8, b: u8) -> (r: AluResult)
    ensures
        r == spec_add8(a, b),
{
    let value = a.wrapping_add(b);
    let carry = (a as u16) + (b as u16) > 0xFF;
    AluResult {
        value,
        flags: FlagsRegister { z: value == 0, n: false, h: half_carry_add_u8(a, b), c: carry },
    }
}

pub fn adc8(a: u8, b: u8, carry: bool) -> (r: AluResult)
    ensures
        r == spec_adc8(a, b, carry),
{
    let carry_in: u8 = if carry {
        1
    } else {
        0
    };
    let first = add8(a, carry_in);
    let second = add8(first.value, b);
    AluResult {
        value: second.value,
        flags: FlagsRegister {
            z: second.value == 0,
            n: false,
            h: first.flags.h || second.flags.h,
            c: first.flags.c || second.flags.c,
        },
    }
}

pub fn sub8(a: u8, b: u8) -> (r: AluResult)
    ensures
        r == spec_sub8(a, b),
{
    let value = a.wrapping_sub(b);
    AluResult {
        value,
        flags: FlagsRegister { z: value == 0, n: true, h: half_carry_sub_u8(a, b), c: a < b },
    }
}

pub fn sbc8(a: u8, b: u8, carry: bool) -> (r: AluResult)
    ensures
        r == spec_sbc8(a, b, carry),
{
    let carry_in: u8 = if carry {
        1
    } else {
        0
    };
    let first = sub8(a, carry_in);
    let second = sub8(first.value, b);
    AluResult {
        value: second.value,
        flags: FlagsRegister {
            z: second.value == 0,
            n: true,
            h: first.flags.h || second.flags.h,
            c: first.flags.c || second.flags.c,
        },
    }
}

pub fn and8(a: u8, b: u8) -> (r: AluResult)
    ensures
        r == spec_and8(a, b),
{
    let value = a & b;
    AluResult { value, flags: FlagsRegister { z: value == 0, n: false, h: true, c: false } }
}

pub fn or8(a: u8, b: u8) -> (r: AluResult)
    ensures
        r == spec_or8(a, b),
{
    let value = a | b;
    AluResult { value, flags: FlagsRegister { z: value == 0, n: false, h: false, c: false } }
}

pub fn xor8(a: u8, b: u8) -> (r: AluResult)
    ensures
        r == spec_xor8(a, b),
{
    let value = a ^ b;
    AluResult { value, flags: FlagsRegister { z: value == 0, n: false, h: false, c: false } }
}

pub fn inc8(v: u8, carry: bool) -> (r: AluResult)
    ensures
        r == spec_inc8(v, carry),
{
    let value = v.wrapping_add(1);
    AluResult {
        value,
        flags: FlagsRegister { z: value == 0, n: false, h: half_carry_add_u8(v, 1), c: carry },
    }
}

pub fn dec8(v: u8, carry: bool) -> (r: AluResult)
    ensures
        r == spec_dec8(v, carry),
{
    let value = v.wrapping_sub(1);
    AluResult {
        value,
        flags: FlagsRegister { z: value == 0, n: true, h: half_carry_sub_u8(v, 1), c: carry },
    }
}

pub fn daa8(a: u8, f: FlagsRegister) -> (r: AluResult)
    ensures
        r == spec_daa8(a, f),
{
    if !f.n {
        let high_fix = f.c || a > 0x99;
        let a1 = if high_fix {
            a.wrapping_add(0x60)
        } else {
            a
        };
        proof {
            lemma_low_nibble(a1);
        }
        let a2 = if f.h || (a1 & 0x0F) > 0x09 {
            a1.wrapping_add(0x06)
        } else {
            a1
        };
        AluResult { value: a2, flags: FlagsRegister { z: a2 == 0, n: false, h: false, c: high_fix } }
    } else {
        let a1 = if f.c {
            a.wrapping_sub(0x60)
        } else {
            a
        };
        let a2 = if f.h {
            a1.wrapping_sub(0x06)
        } else {
            a1
        };
        AluResult { value: a2, flags: FlagsRegister { z: a2 == 0, n: true, h: false, c: f.c } }
    }
}

pub fn cpl8(a: u8, f: FlagsRegister) -> (r: AluResult)
    ensures
        r == spec_cpl8(a, f),
{
    AluResult { value: a ^ 0xFF, flags: FlagsRegister { n: true, h: true, ..f } }
}

pub fn add16(a: u16, b: u16, f: FlagsRegister) -> (r: WordResult)
    ensures
        r == spec_add16(a, b, f),
{
    let carry = (a as u32) + (b as u32) > 0xFFFF;
    WordResult {
        value: a.wrapping_add(b),
        flags: FlagsRegister { z: f.z, n: false, h: half_carry_add_u16(a, b), c: carry },
    }
}

/// `base` moved by the signed displacement `e`.
pub fn offset_address(base: u16, e: u8) -> (r: u16)
    ensures
        r == spec_offset_address(base, e),
{
    if e < 128 {
        base.wrapping_add(e as u16)
    } else {
        base.wrapping_sub(256 - e as u16)
    }
}

pub fn add_sp_offset(sp: u16, e: u8) -> (r: WordResult)
    ensures
        r == spec_add_sp_offset(sp, e),
{
    let carry = (sp as u32) + (e as u32) > 0xFFFF;
    WordResult {
        value: offset_address(sp, e),
        flags: FlagsRegister {
            z: false,
            n: false,
            h: half_carry_add_u16(sp, e as u16),
            c: carry,
        },
    }
}

pub fn rlc8(v: u8) -> (r: AluResult)
    ensures
        r == spec_rlc8(v),
{
    let value = (v << 1) | (v >> 7);
    let carry = v & 0x80 != 0;
    proof {
        assert(value == ((v * 2) % 256 + v / 128) as u8 && (carry <==> v >= 128)) by (bit_vector)
            requires
                value == (v << 1) | (v >> 7),
                carry == (v & 0x80 != 0),
        ;
    }
    AluResult { value, flags: FlagsRegister { z: value == 0, n: false, h: false, c: carry } }
}

pub fn rl8(v: u8, carry: bool) -> (r: AluResult)
    ensures
        r == spec_rl8(v, carry),
{
    let carry_in: u8 = if carry {
        1
    } else {
        0
    };
    let value = (v << 1) | carry_in;
    let carry_out = v & 0x80 != 0;
    proof {
        assert(value == ((v * 2) % 256 + carry_in) as u8 && (carry_out <==> v >= 128))
            by (bit_vector)
            requires
                value == (v << 1) | carry_in,
                carry_in <= 1,
                carry_out == (v & 0x80 != 0),
        ;
    }
    AluResult { value, flags: FlagsRegister { z: value == 0, n: false, h: false, c: carry_out } }
}

pub fn rrc8(v: u8) -> (r: AluResult)
    ensures
        r == spec_rrc8(v),
{
    let value = (v >> 1) | (v << 7);
    let carry = v & 0x01 != 0;
    proof {
        assert(value == (v / 2 + (v % 2) * 128) as u8 && (carry <==> v % 2 == 1)) by (bit_vector)
            requires
                value == (v >> 1) | (v << 7),
                carry == (v & 0x01 != 0),
        ;
    }
    AluResult { value, flags: FlagsRegister { z: value == 0, n: false, h: false, c: carry } }
}

pub fn rr8(v: u8, carry: bool) -> (r: AluResult)
    ensures
        r == spec_rr8(v, carry),
{
    let carry_in: u8 = if carry {
        0x80
    } else {
        0
    };
    let value = (v >> 1) | carry_in;
    let carry_out = v & 0x01 != 0;
    proof {
        assert(value == (v / 2 + carry_in) as u8 && (carry_out <==> v % 2 == 1)) by (bit_vector)
            requires
                value == (v >> 1) | carry_in,
                carry_in == 0 || carry_in == 0x80,
                carry_out == (v & 0x01 != 0),
        ;
    }
    AluResult { value, flags: FlagsRegister { z: value == 0, n: false, h: false, c: carry_out } }
}

pub fn sla8(v: u8) -> (r: AluResult)
    ensures
        r == spec_sla8(v),
{
    let value = v << 1;
    let carry = v & 0x80 != 0;
    proof {
        assert(value == ((v * 2) % 256) as u8 && (carry <==> v >= 128)) by (bit_vector)
            requires
                value == v << 1,
                carry == (v & 0x80 != 0),
        ;
    }
    AluResult { value, flags: FlagsRegister { z: value == 0, n: false, h: false, c: carry } }
}

pub fn sra8(v: u8) -> (r: AluResult)
    ensures
        r == spec_sra8(v),
{
    let value = (v >> 1) | (v & 0x80);
    let carry = v & 0x01 != 0;
    proof {
        assert(value == (v / 2 + (v / 128) * 128) as u8 && (carry <==> v % 2 == 1))
            by (bit_vector)
            requires
                value == (v >> 1) | (v & 0x80),
                carry == (v & 0x01 != 0),
        ;
    }
    AluResult { value, flags: FlagsRegister { z: value == 0, n: false, h: false, c: carry } }
}

pub fn srl8(v: u8) -> (r: AluResult)
    ensures
        r == spec_srl8(v),
{
    let value = v >> 1;
    let carry = v & 0x01 != 0;
    proof {
        assert(value == (v / 2) as u8 && (carry <==> v % 2 == 1)) by (bit_vector)
            requires
                value == v >> 1,
                carry == (v & 0x01 != 0),
        ;
    }
    AluResult { value, flags: FlagsRegister { z: value == 0, n: false, h: false, c: carry } }
}

pub fn swap8(v: u8) -> (r: AluResult)
    ensures
        r == spec_swap8(v),
{
    let value = (v << 4) | (v >> 4);
    proof {
        assert(value == ((v % 16) * 16 + v / 16) as u8) by (bit_vector)
            requires
                value == (v << 4) | (v >> 4),
        ;
    }
    AluResult { value, flags: FlagsRegister { z: value == 0, n: false, h: false, c: false } }
}

/// The flags after `BIT bit` on `v`.
pub fn bit_test(v: u8, bit: u8, f: FlagsRegister) -> (r: FlagsRegister)
    requires
        bit < 8,
    ensures
        r == spec_bit_test(v, bit, f),
{
    FlagsRegister { z: !((v >> bit) & 1 == 1), n: false, h: true, c: f.c }
}

pub fn set_bit(v: u8, bit: u8) -> (r: u8)
    requires
        bit < 8,
    ensures
        r == spec_set_bit(v, bit),
{
    v | (1u8 << bit)
}

pub fn reset_bit(v: u8, bit: u8) -> (r: u8)
    requires
        bit < 8,
    ensures
        r == spec_reset_bit(v, bit),
{
    v & !(1u8 << bit)
}

/// Each nibble of `v` is a decimal digit.
pub open spec fn is_bcd(v: u8) -> bool {
    v % 16 <= 9 && v / 16 <= 9
}

/// Two valid packed-BCD bytes whose addition gives a valid packed-BCD byte
/// with neither half-carry nor carry: DAA leaves that sum as it is and does
/// not set C.
pub proof fn lemma_daa_keeps_bcd_sum(x: u8, y: u8)
    requires
        is_bcd(x),
        is_bcd(y),
        is_bcd(spec_add8(x, y).value),
        !spec_add8(x, y).flags.h,
        !spec_add8(x, y).flags.c,
    ensures
        spec_daa8(spec_add8(x, y).value, spec_add8(x, y).flags).value == spec_add8(x, y).value,
        !spec_daa8(spec_add8(x, y).value, spec_add8(x, y).flags).flags.c,
{
}

/// The eight accumulator operations of the ALU block.
#[derive(Clone, Copy, PartialEq, Eq, Structural, Debug)]
pub enum AluOp {
    Add,
    Adc,
    Sub,
    Sbc,
    And,
    Xor,
    Or,
    Cp,
}

/// The eight rotate/shift operations of the CB-prefixed block.
#[derive(Clone, Copy, PartialEq, Eq, Structural, Debug)]
pub enum ShiftOp {
    Rlc,
    Rrc,
    Rl,
    Rr,
    Sla,
    Sra,
    Swap,
    Srl,
}

/// The result of `op` on `a` and `b` with carry-in `carry`; for `Cp` it is
/// the subtraction whose flags the comparison keeps.
pub open spec fn spec_alu8(op: AluOp, a: u8, b: u8, carry: bool) -> AluResult {
    match op {
        AluOp::Add => spec_add8(a, b),
        AluOp::Adc => spec_adc8(a, b, carry),
        AluOp::Sub => spec_sub8(a, b),
        AluOp::Sbc => spec_sbc8(a, b, carry),
        AluOp::And => spec_and8(a, b),
        AluOp::Xor => spec_xor8(a, b),
        AluOp::Or => spec_or8(a, b),
        AluOp::Cp => spec_sub8(a, b),
    }
}

/// The result of the rotate/shift `op` on `v` with carry-in `carry`.
pub open spec fn spec_shift8(op: ShiftOp, v: u8, carry: bool) -> AluResult {
    match op {
        ShiftOp::Rlc => spec_rlc8(v),
        ShiftOp::Rrc => spec_rrc8(v),
        ShiftOp::Rl => spec_rl8(v, carry),
        ShiftOp::Rr => spec_rr8(v, carry),
        ShiftOp::Sla => spec_sla8(v),
        ShiftOp::Sra => spec_sra8(v),
        ShiftOp::Swap => spec_swap8(v),
        ShiftOp::Srl => spec_srl8(v),
    }
}

pub fn alu8(op: AluOp, a: u8, b: u8, carry: bool) -> (r: AluResult)
    ensures
        r == spec_alu8(op, a, b, carry),
{
    match op {
        AluOp::Add => add8(a, b),
        AluOp::Adc => adc8(a, b, carry),
        AluOp::Sub => sub8(a, b),
        AluOp::Sbc => sbc8(a, b, carry),
        AluOp::And => and8(a, b),
        AluOp::Xor => xor8(a, b),
        AluOp::Or => or8(a, b),
        AluOp::Cp => sub8(a, b),
    }
}

pub fn shift8(op: ShiftOp, v: u8, carry: bool) -> (r: AluResult)
    ensures
        r == spec_shift8(op, v, carry),
{
    match op {
        ShiftOp::Rlc => rlc8(v),
        ShiftOp::Rrc => rrc8(v),
        ShiftOp::Rl => rl8(v, carry),
        ShiftOp::Rr => rr8(v, carry),
        ShiftOp::Sla => sla8(v),
        ShiftOp::Sra => sra8(v),
        ShiftOp::Swap => swap8(v),
        ShiftOp::Srl => srl8(v),
    }
}

/// The accumulator form of a rotate: Z cleared.
pub fn accumulator_rotate(r: AluResult) -> (out: AluResult)
    ensures
        out == accumulator_form(r),
{
    AluResult { value: r.value, flags: FlagsRegister { z: false, ..r.flags } }
}

} // verus!

use gbcore::alu::{
    adc8, add16, add8, add_sp_offset, daa8, half_carry_add_u16, half_carry_add_u8,
    half_carry_sub_u8, offset_address, rlc8, sbc8, sub8, AluResult,
};
use gbcore::cpu::{Flag, FlagsRegister, RegisterU16, RegisterU8, Registers, CPU};
use gbcore::gameboy::Gameboy;

fn flags(z: bool, n: bool, h: bool, c: bool) -> FlagsRegister {
    FlagsRegister { z, n, h, c }
}

#[test]
fn pair_round_trip_hl_bc_de() {
    let mut regs = Registers::zeroed();
    for (pair, hi, lo) in [
        (RegisterU16::HL, RegisterU8::H, RegisterU8::L),
        (RegisterU16::BC, RegisterU8::B, RegisterU8::C),
        (RegisterU16::DE, RegisterU8::D, RegisterU8::E),
    ] {
        for v in [0x0000u16, 0x00FF, 0xFF00, 0xABCD, 0xFFFF] {
            regs.write_u16(pair, v);
            assert_eq!(regs.read_u8(hi), (v >> 8) as u8);
            assert_eq!(regs.read_u8(lo), (v & 0xFF) as u8);
            assert_eq!(regs.read_u16(pair), v);
        }
    }
}

#[test]
fn pair_round_trip_af_masks_f() {
    let mut regs = Registers::zeroed();
    regs.write_u16(RegisterU16::AF, 0x12FF);
    assert_eq!(regs.read_u8(RegisterU8::A), 0x12);
    assert_eq!(regs.read_u8(RegisterU8::F), 0xF0);
    assert_eq!(regs.read_u16(RegisterU16::AF), 0x12F0);
}

#[test]
fn write_f_masks_low_nibble() {
    let mut regs = Registers::zeroed();
    regs.write_u8(RegisterU8::F, 0xAB);
    assert_eq!(regs.read_u8(RegisterU8::F), 0xA0);
}

#[test]
fn pc_and_sp_are_plain_words() {
    let mut regs = Registers::zeroed();
    regs.write_u16(RegisterU16::PC, 0x1234);
    regs.write_u16(RegisterU16::SP, 0xFFFE);
    assert_eq!(regs.pc, 0x1234);
    assert_eq!(regs.read_u16(RegisterU16::SP), 0xFFFE);
}

#[test]
fn push_then_pop_restores_value_and_sp() {
    for sp in [0xFFFEu16, 0x0000, 0x0001, 0x8000] {
        let mut gameboy = Gameboy::new();
        gameboy.cpu.register.sp = sp;
        gameboy.push16(0xBEEF);
        assert_eq!(gameboy.cpu.register.sp, sp.wrapping_sub(2));
        assert_eq!(gameboy.read_instruction(sp.wrapping_sub(1)), 0xBE);
        assert_eq!(gameboy.read_instruction(sp.wrapping_sub(2)), 0xEF);
        assert_eq!(gameboy.pop16(), 0xBEEF);
        assert_eq!(gameboy.cpu.register.sp, sp);
    }
}

#[test]
fn push_bc_pop_de() {
    let mut gameboy = Gameboy::new();
    gameboy.cpu.register.sp = 0xD000;
    gameboy.cpu.register.write_u16(RegisterU16::BC, 0x1357);
    gameboy.push(RegisterU16::BC);
    gameboy.pop(RegisterU16::DE);
    assert_eq!(gameboy.cpu.register.read_u16(RegisterU16::DE), 0x1357);
    assert_eq!(gameboy.cpu.register.sp, 0xD000);
}

#[test]
fn pop_af_masks_f_and_reloads_flags() {
    let mut gameboy = Gameboy::new();
    gameboy.cpu.register.sp = 0xC000;
    gameboy.write_instruction(0xC000, 0x9F);
    gameboy.write_instruction(0xC001, 0x42);
    gameboy.pop(RegisterU16::AF);
    assert_eq!(gameboy.cpu.register.a, 0x42);
    assert_eq!(gameboy.cpu.register.f, 0x90);
    assert_eq!(gameboy.cpu.flags, flags(true, false, false, true));
}

#[test]
fn add_flag_vectors() {
    assert_eq!(add8(0xFF, 0x01), AluResult { value: 0x00, flags: flags(true, false, true, true) });
    assert_eq!(add8(0xFF, 0xFF), AluResult { value: 0xFE, flags: flags(false, false, true, true) });
    assert_eq!(add8(0x0F, 0x01), AluResult { value: 0x10, flags: flags(false, false, true, false) });
    assert_eq!(add8(0x12, 0x34), AluResult { value: 0x46, flags: flags(false, false, false, false) });
}

#[test]
fn add_a_a_handler() {
    let mut gameboy = Gameboy::new();
    gameboy.cpu.register.a = 0xFF;
    gameboy.add_r(RegisterU8::A);
    assert_eq!(gameboy.cpu.register.a, 0xFE);
    assert_eq!(gameboy.cpu.flags, flags(false, false, true, true));
    assert_eq!(gameboy.cpu.register.f, 0x30);
}

#[test]
fn adc_with_carry_in() {
    assert_eq!(adc8(0xFF, 0x01, true), AluResult { value: 0x01, flags: flags(false, false, true, true) });
    assert_eq!(adc8(0x0E, 0x01, true), AluResult { value: 0x10, flags: flags(false, false, true, false) });
    assert_eq!(adc8(0x01, 0x01, false), AluResult { value: 0x02, flags: flags(false, false, false, false) });
}

#[test]
fn adc_reads_carry_from_previous_instruction() {
    let mut gameboy = Gameboy::new();
    gameboy.cpu.register.a = 0xFF;
    gameboy.cpu.register.b = 0x01;
    gameboy.add_r(RegisterU8::B);
    assert!(gameboy.cpu.flags.get_flag(Flag::C));
    gameboy.cpu.register.b = 0x05;
    gameboy.adc_r(RegisterU8::B);
    assert_eq!(gameboy.cpu.register.a, 0x06);
    assert!(!gameboy.cpu.flags.get_flag(Flag::C));
}

#[test]
fn sub_and_cp_flag_vectors() {
    assert_eq!(sub8(0x00, 0x01), AluResult { value: 0xFF, flags: flags(false, true, true, true) });
    assert_eq!(sub8(0x10, 0x10), AluResult { value: 0x00, flags: flags(true, true, false, false) });
    let mut gameboy = Gameboy::new();
    gameboy.cpu.register.b = 0x01;
    gameboy.cp_r(RegisterU8::B);
    assert_eq!(gameboy.cpu.register.a, 0x00);
    assert_eq!(gameboy.cpu.flags, flags(false, true, true, true));
}

#[test]
fn sbc_with_borrow_in() {
    assert_eq!(sbc8(0x00, 0x01, true), AluResult { value: 0xFE, flags: flags(false, true, true, true) });
    assert_eq!(sbc8(0x10, 0x0F, true), AluResult { value: 0x00, flags: flags(true, true, true, false) });
}

#[test]
fn daa_leaves_valid_bcd_sum() {
    for (x, y) in [(0x12u8, 0x34u8), (0x40, 0x59), (0x00, 0x00), (0x45, 0x54)] {
        let sum = add8(x, y);
        let adjusted = daa8(sum.value, sum.flags);
        assert_eq!(adjusted.value, sum.value);
        assert!(!adjusted.flags.c);
    }
}

#[test]
fn daa_corrects_half_carry_and_carry() {
    let sum = add8(0x08, 0x08);
    assert_eq!(sum.value, 0x10);
    assert_eq!(daa8(sum.value, sum.flags).value, 0x16);
    let sum = add8(0x99, 0x01);
    assert_eq!(daa8(sum.value, sum.flags), AluResult { value: 0x00, flags: flags(true, false, false, true) });
    let diff = sub8(0x10, 0x01);
    assert_eq!(daa8(diff.value, diff.flags).value, 0x09);
}

#[test]
fn bit_six_of_a() {
    let mut gameboy = Gameboy::new();
    gameboy.cpu.register.a = 0x9F;
    gameboy.bit_r(RegisterU8::A, 6);
    assert!(gameboy.cpu.flags.get_flag(Flag::Z));
    assert!(gameboy.cpu.flags.get_flag(Flag::H));
    assert!(!gameboy.cpu.flags.get_flag(Flag::N));
    gameboy.bit_r(RegisterU8::A, 7);
    assert!(!gameboy.cpu.flags.get_flag(Flag::Z));
}

#[test]
fn rlca_carry_out() {
    assert_eq!(rlc8(0b1101_0010).value, 0b1010_0101);
    let mut gameboy = Gameboy::new();
    gameboy.cpu.register.a = 0b1101_0010;
    gameboy.rlca();
    assert_eq!(gameboy.cpu.register.a, 0b1010_0101);
    assert!(gameboy.cpu.flags.get_flag(Flag::C));
    assert!(!gameboy.cpu.flags.get_flag(Flag::Z));
}

#[test]
fn accumulator_rotate_clears_z_generic_sets_it() {
    let mut gameboy = Gameboy::new();
    gameboy.rlca();
    assert!(!gameboy.cpu.flags.get_flag(Flag::Z));
    gameboy.rlc_r(RegisterU8::A);
    assert!(gameboy.cpu.flags.get_flag(Flag::Z));
}

#[test]
fn half_carry_helpers() {
    assert!(half_carry_add_u8(0x0F, 0x01));
    assert!(!half_carry_add_u8(0x0E, 0x01));
    assert!(half_carry_sub_u8(0x10, 0x01));
    assert!(!half_carry_sub_u8(0x11, 0x01));
    assert!(half_carry_add_u16(0x0FFF, 0x0001));
    assert!(!half_carry_add_u16(0x0FFE, 0x0001));
}

#[test]
fn sixteen_bit_add_keeps_z() {
    let r = add16(0x8000, 0x8000, flags(true, true, false, false));
    assert_eq!(r.value, 0x0000);
    assert_eq!(r.flags, flags(true, false, false, true));
}

#[test]
fn sp_plus_negative_offset() {
    assert_eq!(offset_address(0x1000, 0xFF), 0x0FFF);
    assert_eq!(offset_address(0x0000, 0x80), 0xFF80);
    let r = add_sp_offset(0x00FF, 0xFF);
    assert_eq!(r.value, 0x00FE);
    assert_eq!(r.flags, flags(false, false, false, false));
    let r = add_sp_offset(0x0FFF, 0x01);
    assert_eq!(r.flags, flags(false, false, true, false));
}

#[test]
fn flags_byte_conversions() {
    let f = flags(true, false, true, false);
    assert_eq!(f.to_byte(), 0xA0);
    assert_eq!(u8::from(f), 0xA0);
    assert_eq!(FlagsRegister::from_byte(0x5F), flags(false, true, false, true));
    let regs = Registers::zeroed();
    assert_eq!(regs.get_f_reg(flags(true, true, true, true)), 0xF0);
    let mut regs = Registers::zeroed();
    regs.update_f_reg(flags(false, false, false, true));
    assert_eq!(regs.f, 0x10);
}

#[test]
fn cpu_power_on_state() {
    let mut cpu = CPU::new();
    assert_eq!(cpu.register, Registers::zeroed());
    assert_eq!(cpu.flags, FlagsRegister::cleared());
    assert!(!cpu.get_ime_state());
    cpu.set_ime_state(gbcore::cpu::InterruptConds::Enabled);
    assert!(cpu.get_ime_state());
}

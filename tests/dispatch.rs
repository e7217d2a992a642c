use gbcore::alu::{AluOp, ShiftOp};
use gbcore::cpu::{Flag, FlagConds, RegisterU16, RegisterU8};
use gbcore::gameboy::{Fault, Gameboy};
use gbcore::instructions::{decode, decode_cb, Instruction, Source8, Target8};
use gbcore::mmu::MemoryBus;
use gbcore::timer::Timer;

fn load(program: &[u8]) -> Gameboy {
    let mut gameboy = Gameboy::new();
    gameboy.memory.copy_to_ram(0, program);
    gameboy
}

#[test]
fn every_opcode_resolves_once() {
    let illegal: Vec<u8> = (0..=255u8).filter(|&op| decode(op) == Instruction::Illegal).collect();
    assert_eq!(illegal, vec![0xD3, 0xDB, 0xDD, 0xE3, 0xE4, 0xEB, 0xEC, 0xED, 0xF4, 0xFC, 0xFD]);
    let unimplemented: Vec<u8> =
        (0..=255u8).filter(|&op| decode(op) == Instruction::Unimplemented).collect();
    assert_eq!(unimplemented, vec![0x10, 0x76]);
    let prefix: Vec<u8> = (0..=255u8).filter(|&op| decode(op) == Instruction::Prefix).collect();
    assert_eq!(prefix, vec![0xCB]);
    for code in 0..=255u8 {
        let instr = decode_cb(code);
        assert!(matches!(
            instr,
            Instruction::Shift(..) | Instruction::BitTest(..) | Instruction::ResetBit(..) | Instruction::SetBit(..)
        ));
    }
}

#[test]
fn table_spot_checks() {
    assert_eq!(decode(0x41), Instruction::LdRR(RegisterU8::B, RegisterU8::C));
    assert_eq!(decode(0x86), Instruction::Alu(AluOp::Add, Source8::AtHl));
    assert_eq!(decode(0xFE), Instruction::Alu(AluOp::Cp, Source8::Imm));
    assert_eq!(decode(0xCC), Instruction::CallCcNn(FlagConds::Z));
    assert_eq!(decode(0xF1), Instruction::Pop(RegisterU16::AF));
    assert_eq!(decode(0xFF), Instruction::RstN(0x38));
    assert_eq!(decode_cb(0x67), Instruction::BitTest(4, Target8::Reg(RegisterU8::A)));
    assert_eq!(decode_cb(0x6E), Instruction::BitTest(5, Target8::AtHl));
    assert_eq!(decode_cb(0x1E), Instruction::Shift(ShiftOp::Rr, Target8::AtHl));
    assert_eq!(decode_cb(0x37), Instruction::Shift(ShiftOp::Swap, Target8::Reg(RegisterU8::A)));
    assert_eq!(decode_cb(0x80), Instruction::ResetBit(0, Target8::Reg(RegisterU8::B)));
    assert_eq!(decode_cb(0xFF), Instruction::SetBit(7, Target8::Reg(RegisterU8::A)));
}

#[test]
fn illegal_opcode_is_reported_and_changes_nothing() {
    let mut gameboy = load(&[0x00, 0xD3]);
    assert_eq!(gameboy.fetch(), Ok(()));
    assert_eq!(gameboy.fetch(), Err(Fault::IllegalOpcode { opcode: 0xD3, address: 0x0001 }));
    assert_eq!(gameboy.cpu.register.pc, 0x0001);
}

#[test]
fn unimplemented_opcode_is_reported() {
    let mut gameboy = load(&[0x76]);
    assert_eq!(gameboy.fetch(), Err(Fault::UnimplementedOpcode { opcode: 0x76, address: 0x0000 }));
    assert_eq!(gameboy.cpu.register.pc, 0x0000);
    gameboy.cpu.register.pc = 0x0101;
    assert_eq!(gameboy.execute(0x10), Err(Fault::UnimplementedOpcode { opcode: 0x10, address: 0x0100 }));
}

#[test]
fn jr_cc_not_taken_skips_operand() {
    // JR NZ,-2 with Z set
    let mut gameboy = load(&[0x20, 0xFE]);
    gameboy.cpu.flags.set_flag(Flag::Z, true);
    assert_eq!(gameboy.fetch(), Ok(()));
    assert_eq!(gameboy.cpu.register.pc, 0x0002);
}

#[test]
fn jr_cc_taken_jumps_back() {
    let mut gameboy = load(&[0x20, 0xFE]);
    assert_eq!(gameboy.fetch(), Ok(()));
    assert_eq!(gameboy.cpu.register.pc, 0x0000);
}

#[test]
fn call_cc_not_taken_skips_operands_and_keeps_stack() {
    // CALL C,0x1234 with C clear
    let mut gameboy = load(&[0xDC, 0x34, 0x12]);
    gameboy.cpu.register.sp = 0xFFFE;
    assert_eq!(gameboy.fetch(), Ok(()));
    assert_eq!(gameboy.cpu.register.pc, 0x0003);
    assert_eq!(gameboy.cpu.register.sp, 0xFFFE);
    assert_eq!(gameboy.read_instruction(0xFFFD), 0xFF);
    assert_eq!(gameboy.read_instruction(0xFFFC), 0xFF);
}

#[test]
fn call_cc_taken_pushes_return_address() {
    let mut gameboy = load(&[0xDC, 0x34, 0x12]);
    gameboy.cpu.register.sp = 0xFFFE;
    gameboy.cpu.flags.set_flag(Flag::C, true);
    assert_eq!(gameboy.fetch(), Ok(()));
    assert_eq!(gameboy.cpu.register.pc, 0x1234);
    assert_eq!(gameboy.cpu.register.sp, 0xFFFC);
    assert_eq!(gameboy.pop16(), 0x0003);
}

#[test]
fn call_then_ret_round_trip() {
    // CALL 0x0010; at 0x0010: RET
    let mut program = vec![0u8; 0x11];
    program[0] = 0xCD;
    program[1] = 0x10;
    program[2] = 0x00;
    program[0x10] = 0xC9;
    let mut gameboy = load(&program);
    gameboy.cpu.register.sp = 0xFFFE;
    assert_eq!(gameboy.fetch(), Ok(()));
    assert_eq!(gameboy.cpu.register.pc, 0x0010);
    assert_eq!(gameboy.fetch(), Ok(()));
    assert_eq!(gameboy.cpu.register.pc, 0x0003);
    assert_eq!(gameboy.cpu.register.sp, 0xFFFE);
}

#[test]
fn cb_prefixed_bit_through_fetch() {
    // LD A,0x9F; BIT 6,A
    let mut gameboy = load(&[0x3E, 0x9F, 0xCB, 0x77]);
    assert_eq!(gameboy.fetch(), Ok(()));
    assert_eq!(gameboy.fetch(), Ok(()));
    assert_eq!(gameboy.cpu.register.pc, 0x0004);
    assert!(gameboy.cpu.flags.get_flag(Flag::Z));
    assert!(gameboy.cpu.flags.get_flag(Flag::H));
    assert!(!gameboy.cpu.flags.get_flag(Flag::N));
    assert_eq!(gameboy.cpu.register.f, 0xA0);
}

#[test]
fn set_and_res_bits() {
    let mut gameboy = Gameboy::new();
    gameboy.cpu.register.c = 0x00;
    gameboy.set_r(RegisterU8::C, 3);
    assert_eq!(gameboy.cpu.register.c, 0x08);
    gameboy.res_r(RegisterU8::C, 3);
    assert_eq!(gameboy.cpu.register.c, 0x00);
    gameboy.cpu.register.write_u16(RegisterU16::HL, 0xC000);
    gameboy.res_hl(7);
    assert_eq!(gameboy.read_instruction(0xC000), 0x7F);
    gameboy.set_hl(7);
    assert_eq!(gameboy.read_instruction(0xC000), 0xFF);
}

#[test]
fn shifts_and_swap() {
    let mut gameboy = Gameboy::new();
    gameboy.cpu.register.b = 0b1000_0001;
    gameboy.sla_r(RegisterU8::B);
    assert_eq!(gameboy.cpu.register.b, 0b0000_0010);
    assert!(gameboy.cpu.flags.get_flag(Flag::C));
    gameboy.cpu.register.b = 0b1000_0001;
    gameboy.sra_r(RegisterU8::B);
    assert_eq!(gameboy.cpu.register.b, 0b1100_0000);
    assert!(gameboy.cpu.flags.get_flag(Flag::C));
    gameboy.cpu.register.b = 0b1000_0001;
    gameboy.srl_r(RegisterU8::B);
    assert_eq!(gameboy.cpu.register.b, 0b0100_0000);
    gameboy.cpu.register.b = 0xA5;
    gameboy.swap_r(RegisterU8::B);
    assert_eq!(gameboy.cpu.register.b, 0x5A);
    assert!(!gameboy.cpu.flags.get_flag(Flag::C));
    gameboy.write_instruction(0x0000, 0x00);
    gameboy.swap_hl();
    assert!(gameboy.cpu.flags.get_flag(Flag::Z));
}

#[test]
fn inc_dec_keep_carry() {
    let mut gameboy = Gameboy::new();
    gameboy.cpu.flags.set_flag(Flag::C, true);
    gameboy.cpu.register.d = 0x0F;
    gameboy.inc_r(RegisterU8::D);
    assert_eq!(gameboy.cpu.register.d, 0x10);
    assert!(gameboy.cpu.flags.get_flag(Flag::H));
    assert!(gameboy.cpu.flags.get_flag(Flag::C));
    gameboy.dec_r(RegisterU8::D);
    assert_eq!(gameboy.cpu.register.d, 0x0F);
    assert!(gameboy.cpu.flags.get_flag(Flag::H));
    assert!(gameboy.cpu.flags.get_flag(Flag::C));
}

#[test]
fn interrupt_enable_instructions() {
    let mut gameboy = load(&[0xFB, 0xF3]);
    assert_eq!(gameboy.fetch(), Ok(()));
    assert!(gameboy.cpu.get_ime_state());
    assert_eq!(gameboy.fetch(), Ok(()));
    assert!(!gameboy.cpu.get_ime_state());
    gameboy.cpu.register.sp = 0xC000;
    gameboy.push16(0x4321);
    gameboy.reti();
    assert_eq!(gameboy.cpu.register.pc, 0x4321);
    assert!(gameboy.cpu.get_ime_state());
}

#[test]
fn daa_after_bcd_add_program() {
    // LD A,0x19; ADD A,0x28; DAA
    let mut gameboy = load(&[0x3E, 0x19, 0xC6, 0x28, 0x27]);
    for _ in 0..3 {
        assert_eq!(gameboy.fetch(), Ok(()));
    }
    assert_eq!(gameboy.cpu.register.a, 0x47);
}

#[test]
fn wrapping_pc_and_hl() {
    let mut gameboy = Gameboy::new();
    gameboy.cpu.register.pc = 0xFFFF;
    gameboy.write_instruction(0xFFFF, 0x00);
    assert_eq!(gameboy.fetch(), Ok(()));
    assert_eq!(gameboy.cpu.register.pc, 0x0000);
    gameboy.cpu.register.write_u16(RegisterU16::HL, 0x0000);
    gameboy.ld_hl_minus_a();
    assert_eq!(gameboy.cpu.register.read_u16(RegisterU16::HL), 0xFFFF);
}

#[test]
fn memory_bus_and_timer() {
    let mut bus = MemoryBus::new();
    assert_eq!(bus.read_byte(0x1234), 0xFF);
    bus.copy_to_ram(0xFFFE, &[1, 2]);
    assert_eq!(bus.read_byte(0xFFFE), 1);
    assert_eq!(bus.read_byte(0xFFFF), 2);
    bus.write_byte(0x0000, 9);
    assert_eq!(bus.read_byte(0x0000), 9);
    let timer = Timer::new();
    assert_eq!((timer.div_clocksum, timer.timer_clocksum, timer.div_reg, timer.tac_reg), (0, 0, 0, 0));
}

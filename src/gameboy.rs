//! The machine: CPU and memory bus, the meaning of every instruction as a
//! transition of the abstract machine state, and the handlers and
//! fetch-decode-execute engine that carry it out.

use vstd::prelude::*;

use crate::alu::{
    accumulator_form, accumulator_rotate, add16, add_sp_offset, alu8, bit_test, cpl8, daa8, dec8,
    inc8, offset_address, reset_bit, set_bit, shift8, spec_add16, spec_add_sp_offset, spec_alu8,
    spec_bit_test, spec_cpl8, spec_daa8, spec_dec8, spec_inc8, spec_offset_address,
    spec_reset_bit, spec_rl8, spec_rlc8, spec_rr8, spec_rrc8, spec_set_bit, spec_shift8, AluOp,
    AluResult, ShiftOp,
};
use crate::cpu::{
    lemma_byte_flags_round_trip, high_byte, low_byte, word, Flag, FlagConds, FlagsRegister, InterruptConds, RegisterU16,
    RegisterU8, Registers, CPU,
};
use crate::instructions::{
    cb_table, decode, decode_cb, lemma_dispatch_complete, primary_table, Instruction, Source8,
    Target8,
};
use crate::mmu::{MemoryBus, MEMORY_SIZE};

verus! {

/// `v` wrapped into 16 bits.
pub open spec fn wrap16(v: int) -> u16 {
    (v % 65536) as u16
}

/// Why execution stopped; both kinds are fatal.
#[derive(Clone, Copy, PartialEq, Eq, Structural, Debug)]
pub enum Fault {
    /// A primary opcode with no valid encoding, and its address.
    IllegalOpcode { opcode: u8, address: u16 },
    /// A valid instruction that this core does not execute, and its address.
    UnimplementedOpcode { opcode: u8, address: u16 },
}

/// The abstract machine state: the CPU and the contents of memory.
pub struct Machine {
    pub cpu: CPU,
    pub mem: Seq<u8>,
}

impl Machine {
    pub open spec fn regs(self) -> Registers {
        self.cpu.register
    }

    pub open spec fn flags(self) -> FlagsRegister {
        self.cpu.flags
    }

    pub open spec fn reg8(self, r: RegisterU8) -> u8 {
        self.cpu.register.reg8(r)
    }

    pub open spec fn reg16(self, r: RegisterU16) -> u16 {
        self.cpu.register.reg16(r)
    }

    pub open spec fn a(self) -> u8 {
        self.cpu.register.a
    }

    pub open spec fn pc(self) -> u16 {
        self.cpu.register.pc
    }

    pub open spec fn sp(self) -> u16 {
        self.cpu.register.sp
    }

    pub open spec fn hl(self) -> u16 {
        self.reg16(RegisterU16::HL)
    }

    /// The byte at `addr`.
    pub open spec fn read(self, addr: u16) -> u8 {
        self.mem[addr as int]
    }

    /// The byte at PC.
    pub open spec fn imm8(self) -> u8 {
        self.read(self.pc())
    }

    /// The little-endian word at PC.
    pub open spec fn imm16(self) -> u16 {
        word(self.read(wrap16(self.pc() + 1)), self.read(self.pc()))
    }

    /// Whether condition `cc` holds.
    pub open spec fn cond(self, cc: FlagConds) -> bool {
        match cc {
            FlagConds::NZ => !self.flags().z,
            FlagConds::Z => self.flags().z,
            FlagConds::NC => !self.flags().c,
            FlagConds::C => self.flags().c,
        }
    }

    /// The value of a read operand.
    pub open spec fn operand(self, src: Source8) -> u8 {
        match src {
            Source8::Reg(r) => self.reg8(r),
            Source8::AtHl => self.read(self.hl()),
            Source8::Imm => self.imm8(),
        }
    }

    /// The value of a read-modify-write operand.
    pub open spec fn target(self, t: Target8) -> u8 {
        match t {
            Target8::Reg(r) => self.reg8(r),
            Target8::AtHl => self.read(self.hl()),
        }
    }

    /// The word on top of the stack: low byte at SP, high byte above it.
    pub open spec fn pop_value(self) -> u16 {
        word(self.read(wrap16(self.sp() + 1)), self.read(self.sp()))
    }

    pub open spec fn with_regs(self, regs: Registers) -> Machine {
        Machine { cpu: CPU { register: regs, ..self.cpu }, ..self }
    }

    /// An 8-bit register write; a write to F also reloads the flag view.
    pub open spec fn set8(self, r: RegisterU8, v: u8) -> Machine {
        Machine {
            cpu: CPU {
                register: self.regs().with8(r, v),
                flags: if r == RegisterU8::F {
                    FlagsRegister::spec_from_byte(v)
                } else {
                    self.flags()
                },
                ..self.cpu
            },
            ..self
        }
    }

    /// A 16-bit register write; a write to AF also reloads the flag view.
    pub open spec fn set16(self, r: RegisterU16, v: u16) -> Machine {
        Machine {
            cpu: CPU {
                register: self.regs().with16(r, v),
                flags: if r == RegisterU16::AF {
                    FlagsRegister::spec_from_byte(low_byte(v))
                } else {
                    self.flags()
                },
                ..self.cpu
            },
            ..self
        }
    }

    /// New flags, written to both the flag view and F.
    pub open spec fn set_flags(self, f: FlagsRegister) -> Machine {
        Machine {
            cpu: CPU {
                register: Registers { f: f.spec_byte(), ..self.regs() },
                flags: f,
                ..self.cpu
            },
            ..self
        }
    }

    /// An accumulator result: A and the flags.
    pub open spec fn apply(self, res: AluResult) -> Machine {
        self.set8(RegisterU8::A, res.value).set_flags(res.flags)
    }

    /// A write to a read-modify-write operand.
    pub open spec fn store(self, t: Target8, v: u8) -> Machine {
        match t {
            Target8::Reg(r) => self.set8(r, v),
            Target8::AtHl => self.write(self.hl(), v),
        }
    }

    /// A result written to an operand, then its flags.
    pub open spec fn store_result(self, t: Target8, res: AluResult) -> Machine {
        self.store(t, res.value).set_flags(res.flags)
    }

    /// A memory write.
    pub open spec fn write(self, addr: u16, v: u8) -> Machine {
        Machine { mem: self.mem.update(addr as int, v), ..self }
    }

    pub open spec fn jump(self, target: u16) -> Machine {
        self.with_regs(Registers { pc: target, ..self.regs() })
    }

    /// PC moved past `n` operand bytes.
    pub open spec fn advance(self, n: int) -> Machine {
        self.jump(wrap16(self.pc() + n))
    }

    pub open spec fn set_sp(self, v: u16) -> Machine {
        self.with_regs(Registers { sp: v, ..self.regs() })
    }

    pub open spec fn set_ime(self, on: bool) -> Machine {
        Machine { cpu: CPU { ime: on, ..self.cpu }, ..self }
    }

    /// Push: the high byte goes to SP-1, the low byte to SP-2, and SP drops
    /// by two.
    pub open spec fn push16(self, v: u16) -> Machine {
        let hi_addr = wrap16(self.sp() - 1);
        let lo_addr = wrap16(self.sp() - 2);
        self.write(hi_addr, high_byte(v)).write(lo_addr, low_byte(v)).set_sp(lo_addr)
    }

    /// SP after a pop.
    pub open spec fn popped(self) -> Machine {
        self.set_sp(wrap16(self.sp() + 2))
    }

    /// The state after one instruction, with PC already past its opcode.
    pub open spec fn perform(self, instr: Instruction) -> Machine {
        match instr {
            Instruction::Nop => self,
            Instruction::LdRR(r1, r2) => self.set8(r1, self.reg8(r2)),
            Instruction::LdRN(r) => self.advance(1).set8(r, self.imm8()),
            Instruction::LdRHl(r) => self.set8(r, self.read(self.hl())),
            Instruction::LdHlR(r) => self.write(self.hl(), self.reg8(r)),
            Instruction::LdHlN => self.advance(1).write(self.hl(), self.imm8()),
            Instruction::LdARr(rr) => self.set8(RegisterU8::A, self.read(self.reg16(rr))),
            Instruction::LdRrA(rr) => self.write(self.reg16(rr), self.a()),
            Instruction::LdANn => self.advance(2).set8(RegisterU8::A, self.read(self.imm16())),
            Instruction::LdNnA => self.advance(2).write(self.imm16(), self.a()),
            Instruction::LdhAC => self.set8(
                RegisterU8::A,
                self.read(word(0xFF, self.reg8(RegisterU8::C))),
            ),
            Instruction::LdhCA => self.write(word(0xFF, self.reg8(RegisterU8::C)), self.a()),
            Instruction::LdhAN => self.advance(1).set8(
                RegisterU8::A,
                self.read(word(0xFF, self.imm8())),
            ),
            Instruction::LdhNA => self.advance(1).write(word(0xFF, self.imm8()), self.a()),
            Instruction::LdAHlMinus => self.set16(RegisterU16::HL, wrap16(self.hl() - 1)).set8(
                RegisterU8::A,
                self.read(self.hl()),
            ),
            Instruction::LdHlMinusA => self.write(self.hl(), self.a()).set16(
                RegisterU16::HL,
                wrap16(self.hl() - 1),
            ),
            Instruction::LdAHlPlus => self.set8(RegisterU8::A, self.read(self.hl())).set16(
                RegisterU16::HL,
                wrap16(self.hl() + 1),
            ),
            Instruction::LdHlPlusA => self.write(self.hl(), self.a()).set16(
                RegisterU16::HL,
                wrap16(self.hl() + 1),
            ),
            Instruction::LdRrNn(rr) => self.advance(2).set16(rr, self.imm16()),
            Instruction::LdNnSp => self.advance(2).write(self.imm16(), low_byte(self.sp())).write(
                wrap16(self.imm16() + 1),
                high_byte(self.sp()),
            ),
            Instruction::LdSpHl => self.set16(RegisterU16::SP, self.hl()),
            Instruction::Push(rr) => self.push16(self.reg16(rr)),
            Instruction::Pop(rr) => self.popped().set16(rr, self.pop_value()),
            Instruction::Alu(op, src) => {
                let m = if src is Imm {
                    self.advance(1)
                } else {
                    self
                };
                let res = spec_alu8(op, self.a(), self.operand(src), self.flags().c);
                if op == AluOp::Cp {
                    m.set_flags(res.flags)
                } else {
                    m.apply(res)
                }
            },
            Instruction::Inc8(t) => self.store_result(
                t,
                spec_inc8(self.target(t), self.flags().c),
            ),
            Instruction::Dec8(t) => self.store_result(
                t,
                spec_dec8(self.target(t), self.flags().c),
            ),
            Instruction::Ccf => self.set_flags(
                FlagsRegister { n: false, h: false, c: !self.flags().c, ..self.flags() },
            ),
            Instruction::Scf => self.set_flags(
                FlagsRegister { n: false, h: false, c: true, ..self.flags() },
            ),
            Instruction::Daa => self.apply(spec_daa8(self.a(), self.flags())),
            Instruction::Cpl => self.apply(spec_cpl8(self.a(), self.flags())),
            Instruction::AddHlRr(rr) => {
                let res = spec_add16(self.hl(), self.reg16(rr), self.flags());
                self.set16(RegisterU16::HL, res.value).set_flags(res.flags)
            },
            Instruction::IncRr(rr) => self.set16(rr, wrap16(self.reg16(rr) + 1)),
            Instruction::DecRr(rr) => self.set16(rr, wrap16(self.reg16(rr) - 1)),
            Instruction::AddSpE => {
                let res = spec_add_sp_offset(self.sp(), self.imm8());
                self.advance(1).set16(RegisterU16::SP, res.value).set_flags(res.flags)
            },
            Instruction::LdHlSpE => {
                let res = spec_add_sp_offset(self.sp(), self.imm8());
                self.advance(1).set16(RegisterU16::HL, res.value).set_flags(res.flags)
            },
            Instruction::JpNn => self.advance(2).jump(self.imm16()),
            Instruction::JpHl => self.jump(self.hl()),
            Instruction::JpCcNn(cc) => if self.cond(cc) {
                self.advance(2).jump(self.imm16())
            } else {
                self.advance(2)
            },
            Instruction::JrE => {
                let m = self.advance(1);
                m.jump(spec_offset_address(m.pc(), self.imm8()))
            },
            Instruction::JrCcE(cc) => {
                let m = self.advance(1);
                if self.cond(cc) {
                    m.jump(spec_offset_address(m.pc(), self.imm8()))
                } else {
                    m
                }
            },
            Instruction::CallNn => {
                let m = self.advance(2);
                m.push16(m.pc()).jump(self.imm16())
            },
            Instruction::CallCcNn(cc) => {
                let m = self.advance(2);
                if self.cond(cc) {
                    m.push16(m.pc()).jump(self.imm16())
                } else {
                    m
                }
            },
            Instruction::Ret => self.popped().jump(self.pop_value()),
            Instruction::RetCc(cc) => if self.cond(cc) {
                self.popped().jump(self.pop_value())
            } else {
                self
            },
            Instruction::Reti => self.popped().jump(self.pop_value()).set_ime(true),
            Instruction::RstN(n) => self.push16(self.pc()).jump(n as u16),
            Instruction::Di => self.set_ime(false),
            Instruction::Ei => self.set_ime(true),
            Instruction::Rlca => self.apply(accumulator_form(spec_rlc8(self.a()))),
            Instruction::Rla => self.apply(accumulator_form(spec_rl8(self.a(), self.flags().c))),
            Instruction::Rrca => self.apply(accumulator_form(spec_rrc8(self.a()))),
            Instruction::Rra => self.apply(accumulator_form(spec_rr8(self.a(), self.flags().c))),
            Instruction::Prefix => self.advance(1).perform_prefixed(cb_table(self.imm8())),
            Instruction::Illegal => self,
            Instruction::Unimplemented => self,
            _ => self.perform_prefixed(instr),
        }
    }

    /// The state after one of the CB-prefixed instructions.
    pub open spec fn perform_prefixed(self, instr: Instruction) -> Machine {
        match instr {
            Instruction::Shift(op, t) => self.store_result(
                t,
                spec_shift8(op, self.target(t), self.flags().c),
            ),
            Instruction::BitTest(b, t) => self.set_flags(
                spec_bit_test(self.target(t), b, self.flags()),
            ),
            Instruction::ResetBit(b, t) => self.store(t, spec_reset_bit(self.target(t), b)),
            Instruction::SetBit(b, t) => self.store(t, spec_set_bit(self.target(t), b)),
            _ => self,
        }
    }

    /// Execution of `opcode`, with PC already past it; `address` is where it
    /// was fetched. A fault leaves the machine as it was.
    pub open spec fn dispatch(self, opcode: u8, address: u16) -> Result<Machine, Fault> {
        let instr = primary_table(opcode);
        if instr is Illegal {
            Err(Fault::IllegalOpcode { opcode, address })
        } else if instr is Unimplemented {
            Err(Fault::UnimplementedOpcode { opcode, address })
        } else {
            Ok(self.perform(instr))
        }
    }

    /// One fetch-decode-execute cycle: the opcode at PC is consumed and
    /// executed. A fault leaves the machine as it was.
    pub open spec fn step(self) -> Result<Machine, Fault> {
        self.advance(1).dispatch(self.imm8(), self.pc())
    }
}

/// The CPU wired to its memory bus.
pub struct Gameboy {
    pub cpu: CPU,
    pub memory: MemoryBus,
}

impl View for Gameboy {
    type V = Machine;

    open spec fn view(&self) -> Machine {
        Machine { cpu: self.cpu, mem: self.memory.ram@ }
    }
}

impl Gameboy {
    /// A machine at power-on: registers zero, flags clear, interrupts
    /// disabled, every memory byte 0xFF.
    pub fn new() -> (r: Gameboy)
        ensures
            r.cpu.register == Registers::spec_zeroed(),
            r.cpu.flags == (FlagsRegister { z: false, n: false, h: false, c: false }),
            !r.cpu.ime,
            r@.mem.len() == MEMORY_SIZE,
            forall|i: int| 0 <= i < MEMORY_SIZE ==> r@.mem[i] == 0xFF,
    {
        Gameboy { cpu: CPU::new(), memory: MemoryBus::new() }
    }

    pub fn read_instruction(&self, address: u16) -> (r: u8)
        ensures
            r == self@.read(address),
    {
        self.memory.read_byte(address)
    }

    pub fn write_instruction(&mut self, address: u16, data: u8)
        ensures
            final(self)@ == old(self)@.write(address, data),
    {
        self.memory.write_byte(address, data);
    }

    /// Reads the byte at PC and moves PC past it.
    fn next_byte(&mut self) -> (r: u8)
        ensures
            r == old(self)@.imm8(),
            final(self)@ == old(self)@.advance(1),
    {
        let r = self.memory.read_byte(self.cpu.register.pc);
        self.cpu.register.pc = self.cpu.register.pc.wrapping_add(1);
        r
    }

    /// Reads the little-endian word at PC and moves PC past it.
    fn next_word(&mut self) -> (r: u16)
        ensures
            r == old(self)@.imm16(),
            final(self)@ == old(self)@.advance(2),
    {
        let lsb = self.next_byte();
        let msb = self.next_byte();
        (msb as u16) * 256 + lsb as u16
    }

    fn set_reg8(&mut self, r: RegisterU8, v: u8)
        ensures
            final(self)@ == old(self)@.set8(r, v),
    {
        self.cpu.register.write_u8(r, v);
        match r {
            RegisterU8::F => self.cpu.flags = FlagsRegister::from_byte(v),
            _ => {},
        }
    }

    fn set_reg16(&mut self, r: RegisterU16, v: u16)
        ensures
            final(self)@ == old(self)@.set16(r, v),
    {
        self.cpu.register.write_u16(r, v);
        match r {
            RegisterU16::AF => self.cpu.flags = FlagsRegister::from_byte((v % 256) as u8),
            _ => {},
        }
    }

    /// Commits new flags to the flag view and to F together.
    fn set_flags(&mut self, f: FlagsRegister)
        ensures
            final(self)@ == old(self)@.set_flags(f),
    {
        self.cpu.flags = f;
        self.cpu.register.update_f_reg(f);
    }

    fn apply(&mut self, res: AluResult)
        ensures
            final(self)@ == old(self)@.apply(res),
    {
        self.set_reg8(RegisterU8::A, res.value);
        self.set_flags(res.flags);
    }

    fn condition(&self, cc: FlagConds) -> (r: bool)
        ensures
            r == self@.cond(cc),
    {
        match cc {
            FlagConds::NZ => !self.cpu.flags.get_flag(Flag::Z),
            FlagConds::Z => self.cpu.flags.get_flag(Flag::Z),
            FlagConds::NC => !self.cpu.flags.get_flag(Flag::C),
            FlagConds::C => self.cpu.flags.get_flag(Flag::C),
        }
    }

    /// Reads an operand; an immediate operand moves PC past it.
    fn read_source(&mut self, src: Source8) -> (r: u8)
        ensures
            r == old(self)@.operand(src),
            final(self)@ == if src is Imm {
                old(self)@.advance(1)
            } else {
                old(self)@
            },
    {
        match src {
            Source8::Reg(r) => self.cpu.register.read_u8(r),
            Source8::AtHl => {
                let address = self.cpu.register.read_u16(RegisterU16::HL);
                self.memory.read_byte(address)
            },
            Source8::Imm => self.next_byte(),
        }
    }

    fn read_target(&self, t: Target8) -> (r: u8)
        ensures
            r == self@.target(t),
    {
        match t {
            Target8::Reg(r) => self.cpu.register.read_u8(r),
            Target8::AtHl => {
                let address = self.cpu.register.read_u16(RegisterU16::HL);
                self.memory.read_byte(address)
            },
        }
    }

    fn write_target(&mut self, t: Target8, v: u8)
        ensures
            final(self)@ == old(self)@.store(t, v),
    {
        match t {
            Target8::Reg(r) => self.set_reg8(r, v),
            Target8::AtHl => {
                let address = self.cpu.register.read_u16(RegisterU16::HL);
                self.memory.write_byte(address, v);
            },
        }
    }

    fn store_result(&mut self, t: Target8, res: AluResult)
        ensures
            final(self)@ == old(self)@.store_result(t, res),
    {
        self.write_target(t, res.value);
        self.set_flags(res.flags);
    }

    /// Pushes a word: high byte at SP-1, low byte at SP-2.
    pub fn push16(&mut self, v: u16)
        ensures
            final(self)@ == old(self)@.push16(v),
    {
        let msb = (v / 256) as u8;
        let lsb = (v % 256) as u8;
        self.cpu.register.sp = self.cpu.register.sp.wrapping_sub(1);
        self.memory.write_byte(self.cpu.register.sp, msb);
        self.cpu.register.sp = self.cpu.register.sp.wrapping_sub(1);
        self.memory.write_byte(self.cpu.register.sp, lsb);
    }

    /// Pops a word: low byte at SP, high byte at SP+1.
    pub fn pop16(&mut self) -> (r: u16)
        ensures
            r == old(self)@.pop_value(),
            final(self)@ == old(self)@.popped(),
    {
        let lsb = self.memory.read_byte(self.cpu.register.sp);
        self.cpu.register.sp = self.cpu.register.sp.wrapping_add(1);
        let msb = self.memory.read_byte(self.cpu.register.sp);
        self.cpu.register.sp = self.cpu.register.sp.wrapping_add(1);
        (msb as u16) * 256 + lsb as u16
    }
}

impl Gameboy {
    /// An accumulator ALU operation on A and `src`; CP keeps only the flags.
    fn run_alu(&mut self, op: AluOp, src: Source8)
        ensures
            final(self)@ == old(self)@.perform(Instruction::Alu(op, src)),
    {
        let a = self.cpu.register.a;
        let carry = self.cpu.flags.c;
        let v = self.read_source(src);
        let res = alu8(op, a, v, carry);
        match op {
            AluOp::Cp => self.set_flags(res.flags),
            _ => self.apply(res),
        }
    }

    fn run_inc(&mut self, t: Target8)
        ensures
            final(self)@ == old(self)@.perform(Instruction::Inc8(t)),
    {
        let v = self.read_target(t);
        let res = inc8(v, self.cpu.flags.c);
        self.store_result(t, res);
    }

    fn run_dec(&mut self, t: Target8)
        ensures
            final(self)@ == old(self)@.perform(Instruction::Dec8(t)),
    {
        let v = self.read_target(t);
        let res = dec8(v, self.cpu.flags.c);
        self.store_result(t, res);
    }

    fn run_shift(&mut self, op: ShiftOp, t: Target8)
        ensures
            final(self)@ == old(self)@.perform(Instruction::Shift(op, t)),
    {
        let v = self.read_target(t);
        let res = shift8(op, v, self.cpu.flags.c);
        self.store_result(t, res);
    }

    fn run_bit(&mut self, bit: u8, t: Target8)
        requires
            bit < 8,
        ensures
            final(self)@ == old(self)@.perform(Instruction::BitTest(bit, t)),
    {
        let v = self.read_target(t);
        let f = bit_test(v, bit, self.cpu.flags);
        self.set_flags(f);
    }

    fn run_res(&mut self, bit: u8, t: Target8)
        requires
            bit < 8,
        ensures
            final(self)@ == old(self)@.perform(Instruction::ResetBit(bit, t)),
    {
        let v = self.read_target(t);
        self.write_target(t, reset_bit(v, bit));
    }

    fn run_set(&mut self, bit: u8, t: Target8)
        requires
            bit < 8,
        ensures
            final(self)@ == old(self)@.perform(Instruction::SetBit(bit, t)),
    {
        let v = self.read_target(t);
        self.write_target(t, set_bit(v, bit));
    }

    fn rotate_a(&mut self, op: ShiftOp)
        ensures
            final(self)@ == old(self)@.apply(
                accumulator_form(spec_shift8(op, old(self)@.a(), old(self)@.flags().c)),
            ),
    {
        let res = shift8(op, self.cpu.register.a, self.cpu.flags.c);
        self.apply(accumulator_rotate(res));
    }

    /// No operation.
    pub fn nop(&self) {
    }

    /// `LD r1,r2`: copies `r2` into `r1`.
    pub fn ld_r_r(&mut self, r1: RegisterU8, r2: RegisterU8)
        ensures
            final(self)@ == old(self)@.perform(Instruction::LdRR(r1, r2)),
    {
        let reg2 = self.cpu.register.read_u8(r2);
        self.set_reg8(r1, reg2);
    }

    /// `LD r,n`: loads the immediate byte into `r1`.
    pub fn ld_r_n(&mut self, r1: RegisterU8)
        ensures
            final(self)@ == old(self)@.perform(Instruction::LdRN(r1)),
    {
        let n = self.next_byte();
        self.set_reg8(r1, n);
    }

    /// `LD r,(HL)`: loads the byte at HL into `r1`.
    pub fn ld_r_hl(&mut self, r1: RegisterU8)
        ensures
            final(self)@ == old(self)@.perform(Instruction::LdRHl(r1)),
    {
        let address = self.cpu.register.read_u16(RegisterU16::HL);
        let data = self.read_instruction(address);
        self.set_reg8(r1, data);
    }

    /// `LD (HL),r`: stores `r1` at HL.
    pub fn ld_hl_r(&mut self, r1: RegisterU8)
        ensures
            final(self)@ == old(self)@.perform(Instruction::LdHlR(r1)),
    {
        let address = self.cpu.register.read_u16(RegisterU16::HL);
        let data = self.cpu.register.read_u8(r1);
        self.write_instruction(address, data);
    }

    /// `LD (HL),n`: stores the immediate byte at HL.
    pub fn ld_hl_n(&mut self)
        ensures
            final(self)@ == old(self)@.perform(Instruction::LdHlN),
    {
        let address = self.cpu.register.read_u16(RegisterU16::HL);
        let data = self.next_byte();
        self.write_instruction(address, data);
    }

    /// `LD A,(rr)`: loads the byte at the address in `r1` into A.
    pub fn ld_a_rr(&mut self, r1: RegisterU16)
        ensures
            final(self)@ == old(self)@.perform(Instruction::LdARr(r1)),
    {
        let address = self.cpu.register.read_u16(r1);
        let data = self.read_instruction(address);
        self.set_reg8(RegisterU8::A, data);
    }

    /// `LD (rr),A`: stores A at the address in `r1`.
    pub fn ld_rr_a(&mut self, r1: RegisterU16)
        ensures
            final(self)@ == old(self)@.perform(Instruction::LdRrA(r1)),
    {
        let address = self.cpu.register.read_u16(r1);
        let data = self.cpu.register.a;
        self.write_instruction(address, data);
    }

    /// `LD A,(nn)`: loads the byte at the immediate address into A.
    pub fn ld_a_nn(&mut self)
        ensures
            final(self)@ == old(self)@.perform(Instruction::LdANn),
    {
        let nn = self.next_word();
        let data = self.read_instruction(nn);
        self.set_reg8(RegisterU8::A, data);
    }

    /// `LD (nn),A`: stores A at the immediate address.
    pub fn ld_nn_a(&mut self)
        ensures
            final(self)@ == old(self)@.perform(Instruction::LdNnA),
    {
        let nn = self.next_word();
        let data = self.cpu.register.a;
        self.write_instruction(nn, data);
    }

    /// `LDH A,(C)`: loads the byte at 0xFF00 + C into A.
    pub fn ldh_a_c(&mut self)
        ensures
            final(self)@ == old(self)@.perform(Instruction::LdhAC),
    {
        let address = 0xFF00 + self.cpu.register.c as u16;
        let data = self.read_instruction(address);
        self.set_reg8(RegisterU8::A, data);
    }

    /// `LDH (C),A`: stores A at 0xFF00 + C.
    pub fn ldh_c_a(&mut self)
        ensures
            final(self)@ == old(self)@.perform(Instruction::LdhCA),
    {
        let address = 0xFF00 + self.cpu.register.c as u16;
        let data = self.cpu.register.a;
        self.write_instruction(address, data);
    }

    /// `LDH A,(n)`: loads the byte at 0xFF00 + n into A.
    pub fn ldh_a_n(&mut self)
        ensures
            final(self)@ == old(self)@.perform(Instruction::LdhAN),
    {
        let n = self.next_byte();
        let data = self.read_instruction(0xFF00 + n as u16);
        self.set_reg8(RegisterU8::A, data);
    }

    /// `LDH (n),A`: stores A at 0xFF00 + n.
    pub fn ldh_n_a(&mut self)
        ensures
            final(self)@ == old(self)@.perform(Instruction::LdhNA),
    {
        let n = self.next_byte();
        let data = self.cpu.register.a;
        self.write_instruction(0xFF00 + n as u16, data);
    }

    /// `LD A,(HL-)`: loads the byte at HL into A, then decrements HL.
    pub fn ld_a_hl_minus(&mut self)
        ensures
            final(self)@ == old(self)@.perform(Instruction::LdAHlMinus),
    {
        let address = self.cpu.register.read_u16(RegisterU16::HL);
        let data = self.read_instruction(address);
        self.set_reg16(RegisterU16::HL, address.wrapping_sub(1));
        self.set_reg8(RegisterU8::A, data);
    }

    /// `LD (HL-),A`: stores A at HL, then decrements HL.
    pub fn ld_hl_minus_a(&mut self)
        ensures
            final(self)@ == old(self)@.perform(Instruction::LdHlMinusA),
    {
        let address = self.cpu.register.read_u16(RegisterU16::HL);
        let data = self.cpu.register.a;
        self.write_instruction(address, data);
        self.set_reg16(RegisterU16::HL, address.wrapping_sub(1));
    }

    /// `LD A,(HL+)`: loads the byte at HL into A, then increments HL.
    pub fn ld_a_hl_plus(&mut self)
        ensures
            final(self)@ == old(self)@.perform(Instruction::LdAHlPlus),
    {
        let address = self.cpu.register.read_u16(RegisterU16::HL);
        let data = self.read_instruction(address);
        self.set_reg8(RegisterU8::A, data);
        self.set_reg16(RegisterU16::HL, address.wrapping_add(1));
    }

    /// `LD (HL+),A`: stores A at HL, then increments HL.
    pub fn ld_hl_plus_a(&mut self)
        ensures
            final(self)@ == old(self)@.perform(Instruction::LdHlPlusA),
    {
        let address = self.cpu.register.read_u16(RegisterU16::HL);
        let data = self.cpu.register.a;
        self.write_instruction(address, data);
        self.set_reg16(RegisterU16::HL, address.wrapping_add(1));
    }

    /// `LD rr,nn`: loads the immediate word into `r1`.
    pub fn ld_rr_nn(&mut self, r1: RegisterU16)
        ensures
            final(self)@ == old(self)@.perform(Instruction::LdRrNn(r1)),
    {
        let nn = self.next_word();
        self.set_reg16(r1, nn);
    }

    /// `LD (nn),SP`: stores SP at the immediate address, low byte first.
    pub fn ld_nn_sp(&mut self)
        ensures
            final(self)@ == old(self)@.perform(Instruction::LdNnSp),
    {
        let nn = self.next_word();
        let sp = self.cpu.register.sp;
        self.write_instruction(nn, (sp % 256) as u8);
        self.write_instruction(nn.wrapping_add(1), (sp / 256) as u8);
    }

    /// `LD SP,HL`.
    pub fn ld_sp_hl(&mut self)
        ensures
            final(self)@ == old(self)@.perform(Instruction::LdSpHl),
    {
        let hl = self.cpu.register.read_u16(RegisterU16::HL);
        self.set_reg16(RegisterU16::SP, hl);
    }

    /// `PUSH rr`.
    pub fn push(&mut self, r1: RegisterU16)
        ensures
            final(self)@ == old(self)@.perform(Instruction::Push(r1)),
    {
        let data = self.cpu.register.read_u16(r1);
        self.push16(data);
    }

    /// `POP rr`; popping AF reloads the flags.
    pub fn pop(&mut self, r1: RegisterU16)
        ensures
            final(self)@ == old(self)@.perform(Instruction::Pop(r1)),
    {
        let data = self.pop16();
        self.set_reg16(r1, data);
    }

    /// `ADD A,r`: ADD of A and `r1`.
    pub fn add_r(&mut self, r1: RegisterU8)
        ensures
            final(self)@ == old(self)@.perform(Instruction::Alu(AluOp::Add, Source8::Reg(r1))),
    {
        self.run_alu(AluOp::Add, Source8::Reg(r1));
    }

    /// `ADD A,(HL)`: ADD of A and the byte at HL.
    pub fn add_hl(&mut self)
        ensures
            final(self)@ == old(self)@.perform(Instruction::Alu(AluOp::Add, Source8::AtHl)),
    {
        self.run_alu(AluOp::Add, Source8::AtHl);
    }

    /// `ADD A,n`: ADD of A and the immediate byte.
    pub fn add_n(&mut self)
        ensures
            final(self)@ == old(self)@.perform(Instruction::Alu(AluOp::Add, Source8::Imm)),
    {
        self.run_alu(AluOp::Add, Source8::Imm);
    }

    /// `ADC A,r`: ADC of A and `r1` with the carry flag as carry-in.
    pub fn adc_r(&mut self, r1: RegisterU8)
        ensures
            final(self)@ == old(self)@.perform(Instruction::Alu(AluOp::Adc, Source8::Reg(r1))),
    {
        self.run_alu(AluOp::Adc, Source8::Reg(r1));
    }

    /// `ADC A,(HL)`: ADC of A and the byte at HL with the carry flag as carry-in.
    pub fn adc_hl(&mut self)
        ensures
            final(self)@ == old(self)@.perform(Instruction::Alu(AluOp::Adc, Source8::AtHl)),
    {
        self.run_alu(AluOp::Adc, Source8::AtHl);
    }

    /// `ADC A,n`: ADC of A and the immediate byte with the carry flag as carry-in.
    pub fn adc_n(&mut self)
        ensures
            final(self)@ == old(self)@.perform(Instruction::Alu(AluOp::Adc, Source8::Imm)),
    {
        self.run_alu(AluOp::Adc, Source8::Imm);
    }

    /// `SUB A,r`: SUB of A and `r1`.
    pub fn sub_r(&mut self, r1: RegisterU8)
        ensures
            final(self)@ == old(self)@.perform(Instruction::Alu(AluOp::Sub, Source8::Reg(r1))),
    {
        self.run_alu(AluOp::Sub, Source8::Reg(r1));
    }

    /// `SUB A,(HL)`: SUB of A and the byte at HL.
    pub fn sub_hl(&mut self)
        ensures
            final(self)@ == old(self)@.perform(Instruction::Alu(AluOp::Sub, Source8::AtHl)),
    {
        self.run_alu(AluOp::Sub, Source8::AtHl);
    }

    /// `SUB A,n`: SUB of A and the immediate byte.
    pub fn sub_n(&mut self)
        ensures
            final(self)@ == old(self)@.perform(Instruction::Alu(AluOp::Sub, Source8::Imm)),
    {
        self.run_alu(AluOp::Sub, Source8::Imm);
    }

    /// `SBC A,r`: SBC of A and `r1` with the carry flag as borrow-in.
    pub fn sbc_r(&mut self, r1: RegisterU8)
        ensures
            final(self)@ == old(self)@.perform(Instruction::Alu(AluOp::Sbc, Source8::Reg(r1))),
    {
        self.run_alu(AluOp::Sbc, Source8::Reg(r1));
    }

    /// `SBC A,(HL)`: SBC of A and the byte at HL with the carry flag as borrow-in.
    pub fn sbc_hl(&mut self)
        ensures
            final(self)@ == old(self)@.perform(Instruction::Alu(AluOp::Sbc, Source8::AtHl)),
    {
        self.run_alu(AluOp::Sbc, Source8::AtHl);
    }

    /// `SBC A,n`: SBC of A and the immediate byte with the carry flag as borrow-in.
    pub fn sbc_n(&mut self)
        ensures
            final(self)@ == old(self)@.perform(Instruction::Alu(AluOp::Sbc, Source8::Imm)),
    {
        self.run_alu(AluOp::Sbc, Source8::Imm);
    }

    /// `CP A,r`: CP of A and `r1`, keeping only the flags.
    pub fn cp_r(&mut self, r1: RegisterU8)
        ensures
            final(self)@ == old(self)@.perform(Instruction::Alu(AluOp::Cp, Source8::Reg(r1))),
    {
        self.run_alu(AluOp::Cp, Source8::Reg(r1));
    }

    /// `CP A,(HL)`: CP of A and the byte at HL, keeping only the flags.
    pub fn cp_hl(&mut self)
        ensures
            final(self)@ == old(self)@.perform(Instruction::Alu(AluOp::Cp, Source8::AtHl)),
    {
        self.run_alu(AluOp::Cp, Source8::AtHl);
    }

    /// `CP A,n`: CP of A and the immediate byte, keeping only the flags.
    pub fn cp_n(&mut self)
        ensures
            final(self)@ == old(self)@.perform(Instruction::Alu(AluOp::Cp, Source8::Imm)),
    {
        self.run_alu(AluOp::Cp, Source8::Imm);
    }

    /// `AND A,r`: AND of A and `r1`.
    pub fn and_r(&mut self, r1: RegisterU8)
        ensures
            final(self)@ == old(self)@.perform(Instruction::Alu(AluOp::And, Source8::Reg(r1))),
    {
        self.run_alu(AluOp::And, Source8::Reg(r1));
    }

    /// `AND A,(HL)`: AND of A and the byte at HL.
    pub fn and_hl(&mut self)
        ensures
            final(self)@ == old(self)@.perform(Instruction::Alu(AluOp::And, Source8::AtHl)),
    {
        self.run_alu(AluOp::And, Source8::AtHl);
    }

    /// `AND A,n`: AND of A and the immediate byte.
    pub fn and_n(&mut self)
        ensures
            final(self)@ == old(self)@.perform(Instruction::Alu(AluOp::And, Source8::Imm)),
    {
        self.run_alu(AluOp::And, Source8::Imm);
    }

    /// `OR A,r`: OR of A and `r1`.
    pub fn or_r(&mut self, r1: RegisterU8)
        ensures
            final(self)@ == old(self)@.perform(Instruction::Alu(AluOp::Or, Source8::Reg(r1))),
    {
        self.run_alu(AluOp::Or, Source8::Reg(r1));
    }

    /// `OR A,(HL)`: OR of A and the byte at HL.
    pub fn or_hl(&mut self)
        ensures
            final(self)@ == old(self)@.perform(Instruction::Alu(AluOp::Or, Source8::AtHl)),
    {
        self.run_alu(AluOp::Or, Source8::AtHl);
    }

    /// `OR A,n`: OR of A and the immediate byte.
    pub fn or_n(&mut self)
        ensures
            final(self)@ == old(self)@.perform(Instruction::Alu(AluOp::Or, Source8::Imm)),
    {
        self.run_alu(AluOp::Or, Source8::Imm);
    }

    /// `XOR A,r`: XOR of A and `r1`.
    pub fn xor_r(&mut self, r1: RegisterU8)
        ensures
            final(self)@ == old(self)@.perform(Instruction::Alu(AluOp::Xor, Source8::Reg(r1))),
    {
        self.run_alu(AluOp::Xor, Source8::Reg(r1));
    }

    /// `XOR A,(HL)`: XOR of A and the byte at HL.
    pub fn xor_hl(&mut self)
        ensures
            final(self)@ == old(self)@.perform(Instruction::Alu(AluOp::Xor, Source8::AtHl)),
    {
        self.run_alu(AluOp::Xor, Source8::AtHl);
    }

    /// `XOR A,n`: XOR of A and the immediate byte.
    pub fn xor_n(&mut self)
        ensures
            final(self)@ == old(self)@.perform(Instruction::Alu(AluOp::Xor, Source8::Imm)),
    {
        self.run_alu(AluOp::Xor, Source8::Imm);
    }

    /// `INC r`; C unchanged.
    pub fn inc_r(&mut self, r1: RegisterU8)
        ensures
            final(self)@ == old(self)@.perform(Instruction::Inc8(Target8::Reg(r1))),
    {
        self.run_inc(Target8::Reg(r1));
    }

    /// `INC (HL)`; C unchanged.
    pub fn inc_hl(&mut self)
        ensures
            final(self)@ == old(self)@.perform(Instruction::Inc8(Target8::AtHl)),
    {
        self.run_inc(Target8::AtHl);
    }

    /// `DEC r`; C unchanged.
    pub fn dec_r(&mut self, r1: RegisterU8)
        ensures
            final(self)@ == old(self)@.perform(Instruction::Dec8(Target8::Reg(r1))),
    {
        self.run_dec(Target8::Reg(r1));
    }

    /// `DEC (HL)`; C unchanged.
    pub fn dec_hl(&mut self)
        ensures
            final(self)@ == old(self)@.perform(Instruction::Dec8(Target8::AtHl)),
    {
        self.run_dec(Target8::AtHl);
    }

    /// `CCF`: complements C, clears N and H.
    pub fn ccf(&mut self)
        ensures
            final(self)@ == old(self)@.perform(Instruction::Ccf),
    {
        let c = self.cpu.flags.get_flag(Flag::C);
        let mut f = self.cpu.flags;
        f.set_flag(Flag::N, false);
        f.set_flag(Flag::H, false);
        f.set_flag(Flag::C, !c);
        self.set_flags(f);
    }

    /// `SCF`: sets C, clears N and H.
    pub fn scf(&mut self)
        ensures
            final(self)@ == old(self)@.perform(Instruction::Scf),
    {
        let mut f = self.cpu.flags;
        f.set_flag(Flag::N, false);
        f.set_flag(Flag::H, false);
        f.set_flag(Flag::C, true);
        self.set_flags(f);
    }

    /// `DAA`: decimal adjust of A.
    pub fn daa(&mut self)
        ensures
            final(self)@ == old(self)@.perform(Instruction::Daa),
    {
        let res = daa8(self.cpu.register.a, self.cpu.flags);
        self.apply(res);
    }

    /// `CPL`: complements A, sets N and H.
    pub fn cpl(&mut self)
        ensures
            final(self)@ == old(self)@.perform(Instruction::Cpl),
    {
        let res = cpl8(self.cpu.register.a, self.cpu.flags);
        self.apply(res);
    }

    /// `ADD HL,rr`: 16-bit addition; Z unchanged.
    pub fn add_hl_rr(&mut self, r1: RegisterU16)
        ensures
            final(self)@ == old(self)@.perform(Instruction::AddHlRr(r1)),
    {
        let hl = self.cpu.register.read_u16(RegisterU16::HL);
        let v = self.cpu.register.read_u16(r1);
        let res = add16(hl, v, self.cpu.flags);
        self.set_reg16(RegisterU16::HL, res.value);
        self.set_flags(res.flags);
    }

    /// `INC rr`; no flag changes.
    pub fn inc_rr(&mut self, r1: RegisterU16)
        ensures
            final(self)@ == old(self)@.perform(Instruction::IncRr(r1)),
    {
        let v = self.cpu.register.read_u16(r1);
        self.set_reg16(r1, v.wrapping_add(1));
    }

    /// `DEC rr`; no flag changes.
    pub fn dec_rr(&mut self, r1: RegisterU16)
        ensures
            final(self)@ == old(self)@.perform(Instruction::DecRr(r1)),
    {
        let v = self.cpu.register.read_u16(r1);
        self.set_reg16(r1, v.wrapping_sub(1));
    }

    /// `ADD SP,e`: adds the signed immediate byte to SP.
    pub fn add_sp_e(&mut self)
        ensures
            final(self)@ == old(self)@.perform(Instruction::AddSpE),
    {
        let e = self.next_byte();
        let res = add_sp_offset(self.cpu.register.sp, e);
        self.set_reg16(RegisterU16::SP, res.value);
        self.set_flags(res.flags);
    }

    /// `LD HL,SP+e`: SP plus the signed immediate byte, into HL.
    pub fn ld_hl_sp_e(&mut self)
        ensures
            final(self)@ == old(self)@.perform(Instruction::LdHlSpE),
    {
        let e = self.next_byte();
        let res = add_sp_offset(self.cpu.register.sp, e);
        self.set_reg16(RegisterU16::HL, res.value);
        self.set_flags(res.flags);
    }

    /// `JP nn`.
    pub fn jp_nn(&mut self)
        ensures
            final(self)@ == old(self)@.perform(Instruction::JpNn),
    {
        let nn = self.next_word();
        self.cpu.register.pc = nn;
    }

    /// `JP HL`.
    pub fn jp_hl(&mut self)
        ensures
            final(self)@ == old(self)@.perform(Instruction::JpHl),
    {
        self.cpu.register.pc = self.cpu.register.read_u16(RegisterU16::HL);
    }

    /// `JP cc,nn`: the operand is consumed whether or not the jump is taken.
    pub fn jp_cc_nn(&mut self, jp_cond: FlagConds)
        ensures
            final(self)@ == old(self)@.perform(Instruction::JpCcNn(jp_cond)),
    {
        let nn = self.next_word();
        if self.condition(jp_cond) {
            self.cpu.register.pc = nn;
        }
    }

    /// `JR e`: relative to the PC after the displacement byte.
    pub fn jr_e(&mut self)
        ensures
            final(self)@ == old(self)@.perform(Instruction::JrE),
    {
        let e = self.next_byte();
        self.cpu.register.pc = offset_address(self.cpu.register.pc, e);
    }

    /// `JR cc,e`: the displacement is consumed whether or not the jump is taken.
    pub fn jr_cc_e(&mut self, jp_cond: FlagConds)
        ensures
            final(self)@ == old(self)@.perform(Instruction::JrCcE(jp_cond)),
    {
        let e = self.next_byte();
        if self.condition(jp_cond) {
            self.cpu.register.pc = offset_address(self.cpu.register.pc, e);
        }
    }

    /// `CALL nn`: pushes the address after the operand and jumps.
    pub fn call_nn(&mut self)
        ensures
            final(self)@ == old(self)@.perform(Instruction::CallNn),
    {
        let nn = self.next_word();
        let return_address = self.cpu.register.pc;
        self.push16(return_address);
        self.cpu.register.pc = nn;
    }

    /// `CALL cc,nn`: the operand is consumed whether or not the call is made.
    pub fn call_cc_nn(&mut self, jp_cond: FlagConds)
        ensures
            final(self)@ == old(self)@.perform(Instruction::CallCcNn(jp_cond)),
    {
        let nn = self.next_word();
        if self.condition(jp_cond) {
            let return_address = self.cpu.register.pc;
            self.push16(return_address);
            self.cpu.register.pc = nn;
        }
    }

    /// `RET`.
    pub fn ret(&mut self)
        ensures
            final(self)@ == old(self)@.perform(Instruction::Ret),
    {
        let target = self.pop16();
        self.cpu.register.pc = target;
    }

    /// `RET cc`.
    pub fn ret_cc(&mut self, jp_cond: FlagConds)
        ensures
            final(self)@ == old(self)@.perform(Instruction::RetCc(jp_cond)),
    {
        if self.condition(jp_cond) {
            let target = self.pop16();
            self.cpu.register.pc = target;
        }
    }

    /// `RETI`: returns and enables interrupts.
    pub fn reti(&mut self)
        ensures
            final(self)@ == old(self)@.perform(Instruction::Reti),
    {
        let target = self.pop16();
        self.cpu.register.pc = target;
        self.cpu.set_ime_state(InterruptConds::Enabled);
    }

    /// `RST n`: a call to the page-zero vector `jp_addr`.
    pub fn rst_n(&mut self, jp_addr: u8)
        ensures
            final(self)@ == old(self)@.perform(Instruction::RstN(jp_addr)),
    {
        let return_address = self.cpu.register.pc;
        self.push16(return_address);
        self.cpu.register.pc = jp_addr as u16;
    }

    /// `DI`.
    pub fn di(&mut self)
        ensures
            final(self)@ == old(self)@.perform(Instruction::Di),
    {
        self.cpu.set_ime_state(InterruptConds::Disabled);
    }

    /// `EI`.
    pub fn ei(&mut self)
        ensures
            final(self)@ == old(self)@.perform(Instruction::Ei),
    {
        self.cpu.set_ime_state(InterruptConds::Enabled);
    }

    /// `RLCA`: rotate A left; Z cleared.
    pub fn rlca(&mut self)
        ensures
            final(self)@ == old(self)@.perform(Instruction::Rlca),
    {
        self.rotate_a(ShiftOp::Rlc);
    }

    /// `RLA`: rotate A left through carry; Z cleared.
    pub fn rla(&mut self)
        ensures
            final(self)@ == old(self)@.perform(Instruction::Rla),
    {
        self.rotate_a(ShiftOp::Rl);
    }

    /// `RRCA`: rotate A right; Z cleared.
    pub fn rrca(&mut self)
        ensures
            final(self)@ == old(self)@.perform(Instruction::Rrca),
    {
        self.rotate_a(ShiftOp::Rrc);
    }

    /// `RRA`: rotate A right through carry; Z cleared.
    pub fn rra(&mut self)
        ensures
            final(self)@ == old(self)@.perform(Instruction::Rra),
    {
        self.rotate_a(ShiftOp::Rr);
    }

    /// `RLC r`: rotate left of `r1`.
    pub fn rlc_r(&mut self, r1: RegisterU8)
        ensures
            final(self)@ == old(self)@.perform(Instruction::Shift(ShiftOp::Rlc, Target8::Reg(r1))),
    {
        self.run_shift(ShiftOp::Rlc, Target8::Reg(r1));
    }

    /// `RLC (HL)`: rotate left of the byte at HL.
    pub fn rlc_hl(&mut self)
        ensures
            final(self)@ == old(self)@.perform(Instruction::Shift(ShiftOp::Rlc, Target8::AtHl)),
    {
        self.run_shift(ShiftOp::Rlc, Target8::AtHl);
    }

    /// `RRC r`: rotate right of `r1`.
    pub fn rrc_r(&mut self, r1: RegisterU8)
        ensures
            final(self)@ == old(self)@.perform(Instruction::Shift(ShiftOp::Rrc, Target8::Reg(r1))),
    {
        self.run_shift(ShiftOp::Rrc, Target8::Reg(r1));
    }

    /// `RRC (HL)`: rotate right of the byte at HL.
    pub fn rrc_hl(&mut self)
        ensures
            final(self)@ == old(self)@.perform(Instruction::Shift(ShiftOp::Rrc, Target8::AtHl)),
    {
        self.run_shift(ShiftOp::Rrc, Target8::AtHl);
    }

    /// `RL r`: rotate left through carry of `r1`.
    pub fn rl_r(&mut self, r1: RegisterU8)
        ensures
            final(self)@ == old(self)@.perform(Instruction::Shift(ShiftOp::Rl, Target8::Reg(r1))),
    {
        self.run_shift(ShiftOp::Rl, Target8::Reg(r1));
    }

    /// `RL (HL)`: rotate left through carry of the byte at HL.
    pub fn rl_hl(&mut self)
        ensures
            final(self)@ == old(self)@.perform(Instruction::Shift(ShiftOp::Rl, Target8::AtHl)),
    {
        self.run_shift(ShiftOp::Rl, Target8::AtHl);
    }

    /// `RR r`: rotate right through carry of `r1`.
    pub fn rr_r(&mut self, r1: RegisterU8)
        ensures
            final(self)@ == old(self)@.perform(Instruction::Shift(ShiftOp::Rr, Target8::Reg(r1))),
    {
        self.run_shift(ShiftOp::Rr, Target8::Reg(r1));
    }

    /// `RR (HL)`: rotate right through carry of the byte at HL.
    pub fn rr_hl(&mut self)
        ensures
            final(self)@ == old(self)@.perform(Instruction::Shift(ShiftOp::Rr, Target8::AtHl)),
    {
        self.run_shift(ShiftOp::Rr, Target8::AtHl);
    }

    /// `SLA r`: arithmetic shift left of `r1`.
    pub fn sla_r(&mut self, r1: RegisterU8)
        ensures
            final(self)@ == old(self)@.perform(Instruction::Shift(ShiftOp::Sla, Target8::Reg(r1))),
    {
        self.run_shift(ShiftOp::Sla, Target8::Reg(r1));
    }

    /// `SLA (HL)`: arithmetic shift left of the byte at HL.
    pub fn sla_hl(&mut self)
        ensures
            final(self)@ == old(self)@.perform(Instruction::Shift(ShiftOp::Sla, Target8::AtHl)),
    {
        self.run_shift(ShiftOp::Sla, Target8::AtHl);
    }

    /// `SRA r`: arithmetic shift right of `r1`.
    pub fn sra_r(&mut self, r1: RegisterU8)
        ensures
            final(self)@ == old(self)@.perform(Instruction::Shift(ShiftOp::Sra, Target8::Reg(r1))),
    {
        self.run_shift(ShiftOp::Sra, Target8::Reg(r1));
    }

    /// `SRA (HL)`: arithmetic shift right of the byte at HL.
    pub fn sra_hl(&mut self)
        ensures
            final(self)@ == old(self)@.perform(Instruction::Shift(ShiftOp::Sra, Target8::AtHl)),
    {
        self.run_shift(ShiftOp::Sra, Target8::AtHl);
    }

    /// `SWAP r`: nibble swap of `r1`.
    pub fn swap_r(&mut self, r1: RegisterU8)
        ensures
            final(self)@ == old(self)@.perform(Instruction::Shift(ShiftOp::Swap, Target8::Reg(r1))),
    {
        self.run_shift(ShiftOp::Swap, Target8::Reg(r1));
    }

    /// `SWAP (HL)`: nibble swap of the byte at HL.
    pub fn swap_hl(&mut self)
        ensures
            final(self)@ == old(self)@.perform(Instruction::Shift(ShiftOp::Swap, Target8::AtHl)),
    {
        self.run_shift(ShiftOp::Swap, Target8::AtHl);
    }

    /// `SRL r`: logical shift right of `r1`.
    pub fn srl_r(&mut self, r1: RegisterU8)
        ensures
            final(self)@ == old(self)@.perform(Instruction::Shift(ShiftOp::Srl, Target8::Reg(r1))),
    {
        self.run_shift(ShiftOp::Srl, Target8::Reg(r1));
    }

    /// `SRL (HL)`: logical shift right of the byte at HL.
    pub fn srl_hl(&mut self)
        ensures
            final(self)@ == old(self)@.perform(Instruction::Shift(ShiftOp::Srl, Target8::AtHl)),
    {
        self.run_shift(ShiftOp::Srl, Target8::AtHl);
    }

    /// `BIT b,r`: tests bit `check_bit` of `r1`.
    pub fn bit_r(&mut self, r1: RegisterU8, check_bit: u8)
        requires
            check_bit < 8,
        ensures
            final(self)@ == old(self)@.perform(Instruction::BitTest(check_bit, Target8::Reg(r1))),
    {
        self.run_bit(check_bit, Target8::Reg(r1));
    }

    /// `BIT b,(HL)`: tests bit `check_bit` of the byte at HL.
    pub fn bit_hl(&mut self, check_bit: u8)
        requires
            check_bit < 8,
        ensures
            final(self)@ == old(self)@.perform(Instruction::BitTest(check_bit, Target8::AtHl)),
    {
        self.run_bit(check_bit, Target8::AtHl);
    }

    /// `RES b,r`: clears bit `check_bit` of `r1`.
    pub fn res_r(&mut self, r1: RegisterU8, check_bit: u8)
        requires
            check_bit < 8,
        ensures
            final(self)@ == old(self)@.perform(Instruction::ResetBit(check_bit, Target8::Reg(r1))),
    {
        self.run_res(check_bit, Target8::Reg(r1));
    }

    /// `RES b,(HL)`: clears bit `check_bit` of the byte at HL.
    pub fn res_hl(&mut self, check_bit: u8)
        requires
            check_bit < 8,
        ensures
            final(self)@ == old(self)@.perform(Instruction::ResetBit(check_bit, Target8::AtHl)),
    {
        self.run_res(check_bit, Target8::AtHl);
    }

    /// `SET b,r`: sets bit `check_bit` of `r1`.
    pub fn set_r(&mut self, r1: RegisterU8, check_bit: u8)
        requires
            check_bit < 8,
        ensures
            final(self)@ == old(self)@.perform(Instruction::SetBit(check_bit, Target8::Reg(r1))),
    {
        self.run_set(check_bit, Target8::Reg(r1));
    }

    /// `SET b,(HL)`: sets bit `check_bit` of the byte at HL.
    pub fn set_hl(&mut self, check_bit: u8)
        requires
            check_bit < 8,
        ensures
            final(self)@ == old(self)@.perform(Instruction::SetBit(check_bit, Target8::AtHl)),
    {
        self.run_set(check_bit, Target8::AtHl);
    }
}

impl Gameboy {
    /// Executes one of the CB-prefixed families.
    fn run_prefixed(&mut self, instr: Instruction)
        requires
            instr.wf(),
        ensures
            final(self)@ == old(self)@.perform_prefixed(instr),
    {
        match instr {
            Instruction::Shift(op, t) => self.run_shift(op, t),
            Instruction::BitTest(b, t) => self.run_bit(b, t),
            Instruction::ResetBit(b, t) => self.run_res(b, t),
            Instruction::SetBit(b, t) => self.run_set(b, t),
            _ => {},
        }
    }

    /// Reads the byte after the CB prefix, moves PC past it, and executes
    /// its entry of the prefixed table.
    pub fn cb_prefix(&mut self)
        ensures
            final(self)@ == old(self)@.perform(Instruction::Prefix),
    {
        let cb_code = self.next_byte();
        let instr = decode_cb(cb_code);
        self.run_prefixed(instr);
    }

    /// Executes a decoded instruction; PC is already past its opcode.
    pub fn run_instruction(&mut self, instr: Instruction)
        requires
            instr.wf(),
        ensures
            final(self)@ == old(self)@.perform(instr),
    {
        match instr {
            Instruction::Nop => self.nop(),
            Instruction::LdRR(r1, r2) => self.ld_r_r(r1, r2),
            Instruction::LdRN(r1) => self.ld_r_n(r1),
            Instruction::LdRHl(r1) => self.ld_r_hl(r1),
            Instruction::LdHlR(r1) => self.ld_hl_r(r1),
            Instruction::LdHlN => self.ld_hl_n(),
            Instruction::LdARr(r1) => self.ld_a_rr(r1),
            Instruction::LdRrA(r1) => self.ld_rr_a(r1),
            Instruction::LdANn => self.ld_a_nn(),
            Instruction::LdNnA => self.ld_nn_a(),
            Instruction::LdhAC => self.ldh_a_c(),
            Instruction::LdhCA => self.ldh_c_a(),
            Instruction::LdhAN => self.ldh_a_n(),
            Instruction::LdhNA => self.ldh_n_a(),
            Instruction::LdAHlMinus => self.ld_a_hl_minus(),
            Instruction::LdHlMinusA => self.ld_hl_minus_a(),
            Instruction::LdAHlPlus => self.ld_a_hl_plus(),
            Instruction::LdHlPlusA => self.ld_hl_plus_a(),
            Instruction::LdRrNn(r1) => self.ld_rr_nn(r1),
            Instruction::LdNnSp => self.ld_nn_sp(),
            Instruction::LdSpHl => self.ld_sp_hl(),
            Instruction::Push(r1) => self.push(r1),
            Instruction::Pop(r1) => self.pop(r1),
            Instruction::Alu(op, src) => self.run_alu(op, src),
            Instruction::Inc8(t) => self.run_inc(t),
            Instruction::Dec8(t) => self.run_dec(t),
            Instruction::Ccf => self.ccf(),
            Instruction::Scf => self.scf(),
            Instruction::Daa => self.daa(),
            Instruction::Cpl => self.cpl(),
            Instruction::AddHlRr(r1) => self.add_hl_rr(r1),
            Instruction::IncRr(r1) => self.inc_rr(r1),
            Instruction::DecRr(r1) => self.dec_rr(r1),
            Instruction::AddSpE => self.add_sp_e(),
            Instruction::LdHlSpE => self.ld_hl_sp_e(),
            Instruction::JpNn => self.jp_nn(),
            Instruction::JpHl => self.jp_hl(),
            Instruction::JpCcNn(cc) => self.jp_cc_nn(cc),
            Instruction::JrE => self.jr_e(),
            Instruction::JrCcE(cc) => self.jr_cc_e(cc),
            Instruction::CallNn => self.call_nn(),
            Instruction::CallCcNn(cc) => self.call_cc_nn(cc),
            Instruction::Ret => self.ret(),
            Instruction::RetCc(cc) => self.ret_cc(cc),
            Instruction::Reti => self.reti(),
            Instruction::RstN(n) => self.rst_n(n),
            Instruction::Di => self.di(),
            Instruction::Ei => self.ei(),
            Instruction::Rlca => self.rlca(),
            Instruction::Rla => self.rla(),
            Instruction::Rrca => self.rrca(),
            Instruction::Rra => self.rra(),
            Instruction::Prefix => self.cb_prefix(),
            Instruction::Illegal => {},
            Instruction::Unimplemented => {},
            _ => self.run_prefixed(instr),
        }
    }

    /// Executes `opcode`, with PC already past it. An illegal or
    /// unimplemented opcode is reported with its address and changes
    /// nothing.
    pub fn execute(&mut self, opcode: u8) -> (r: Result<(), Fault>)
        ensures
            match old(self)@.dispatch(opcode, wrap16(old(self)@.pc() - 1)) {
                Ok(next) => r == Ok::<(), Fault>(()) && final(self)@ == next,
                Err(fault) => r == Err::<(), Fault>(fault) && final(self)@ == old(self)@,
            },
            old(self).cpu.synced() ==> final(self).cpu.synced(),
    {
        proof {
            lemma_dispatch_complete(opcode);
        }
        let instr = decode(opcode);
        let address = self.cpu.register.pc.wrapping_sub(1);
        match instr {
            Instruction::Illegal => Err(Fault::IllegalOpcode { opcode, address }),
            Instruction::Unimplemented => Err(Fault::UnimplementedOpcode { opcode, address }),
            _ => {
                proof {
                    if self.cpu.synced() {
                        lemma_perform_keeps_flags_synced(self@, instr);
                    }
                }
                self.run_instruction(instr);
                Ok(())
            },
        }
    }

    /// One fetch-decode-execute cycle: reads the opcode at PC, moves PC past
    /// it and executes it. An illegal or unimplemented opcode is reported
    /// with its address and changes nothing.
    pub fn fetch(&mut self) -> (r: Result<(), Fault>)
        ensures
            match old(self)@.step() {
                Ok(next) => r == Ok::<(), Fault>(()) && final(self)@ == next,
                Err(fault) => r == Err::<(), Fault>(fault) && final(self)@ == old(self)@,
            },
            old(self).cpu.synced() ==> final(self).cpu.synced(),
    {
        let address = self.cpu.register.pc;
        let opcode = self.memory.read_byte(address);
        proof {
            lemma_dispatch_complete(opcode);
        }
        let instr = decode(opcode);
        match instr {
            Instruction::Illegal => Err(Fault::IllegalOpcode { opcode, address }),
            Instruction::Unimplemented => Err(Fault::UnimplementedOpcode { opcode, address }),
            _ => {
                self.cpu.register.pc = address.wrapping_add(1);
                proof {
                    if self.cpu.synced() {
                        lemma_perform_keeps_flags_synced(self@, instr);
                    }
                }
                self.run_instruction(instr);
                Ok(())
            },
        }
    }
}

/// A powered-on machine with B = 1, for instruction tests.
pub fn init_gameboy() -> (r: Gameboy)
    ensures
        r.cpu.register == (Registers { b: 1, ..Registers::spec_zeroed() }),
        r.cpu.flags == (FlagsRegister { z: false, n: false, h: false, c: false }),
        !r.cpu.ime,
        forall|i: int| 0 <= i < MEMORY_SIZE ==> r@.mem[i] == 0xFF,
{
    let mut gameboy = Gameboy::new();
    gameboy.cpu.register.b = 1;
    gameboy
}

/// Pushing a word and popping it back gives the word, and leaves the CPU,
/// SP included, as it was before the push.
pub proof fn lemma_push_pop_inverse(m: Machine, v: u16)
    requires
        m.mem.len() == MEMORY_SIZE,
    ensures
        m.push16(v).pop_value() == v,
        m.push16(v).popped().cpu == m.cpu,
{
}

/// `JR cc,e` and `CALL cc,nn` always move PC past their operand bytes. When
/// the condition fails nothing else changes; when it holds, JR jumps
/// relative to the PC after its operand, and CALL pushes the address after
/// its operands and jumps to the immediate address.
pub proof fn lemma_conditional_control_flow(m: Machine, cc: FlagConds)
    requires
        m.mem.len() == MEMORY_SIZE,
    ensures
        !m.cond(cc) ==> m.perform(Instruction::JrCcE(cc)) == m.advance(1),
        m.cond(cc) ==> m.perform(Instruction::JrCcE(cc)) == m.advance(1).jump(
            spec_offset_address(wrap16(m.pc() + 1), m.imm8()),
        ),
        !m.cond(cc) ==> m.perform(Instruction::CallCcNn(cc)) == m.advance(2),
        m.cond(cc) ==> m.perform(Instruction::CallCcNn(cc)).pc() == m.imm16(),
        m.cond(cc) ==> m.perform(Instruction::CallCcNn(cc)).sp() == wrap16(m.sp() - 2),
        m.cond(cc) ==> m.perform(Instruction::CallCcNn(cc)).pop_value() == wrap16(m.pc() + 2),
{
    lemma_push_pop_inverse(m.advance(2), wrap16(m.pc() + 2));
}

/// Each elementary update of the machine keeps the packed F byte and the
/// flag view in agreement; a flag update makes them agree.
proof fn lemma_updates_keep_flags_synced()
    ensures
        forall|m: Machine, r: RegisterU8, v: u8|
            m.cpu.synced() ==> (#[trigger] m.set8(r, v)).cpu.synced(),
        forall|m: Machine, r: RegisterU16, v: u16|
            m.cpu.synced() ==> (#[trigger] m.set16(r, v)).cpu.synced(),
        forall|m: Machine, f: FlagsRegister| (#[trigger] m.set_flags(f)).cpu.synced(),
        forall|m: Machine, a: u16, v: u8|
            m.cpu.synced() ==> (#[trigger] m.write(a, v)).cpu.synced(),
        forall|m: Machine, t: u16| m.cpu.synced() ==> (#[trigger] m.jump(t)).cpu.synced(),
        forall|m: Machine, v: u16| m.cpu.synced() ==> (#[trigger] m.set_sp(v)).cpu.synced(),
        forall|m: Machine, on: bool| m.cpu.synced() ==> (#[trigger] m.set_ime(on)).cpu.synced(),
{
    assert forall|b: u8| #[trigger]
        FlagsRegister::spec_from_byte(b).spec_byte() == b & 0xF0 by {
        lemma_byte_flags_round_trip(b);
    }
    assert forall|m: Machine, r: RegisterU16, v: u16|
        m.cpu.synced() implies (#[trigger] m.set16(r, v)).cpu.synced() by {
        let lo = low_byte(v);
        assert(FlagsRegister::spec_from_byte(lo).spec_byte() == lo & 0xF0);
    }
}

/// Every instruction leaves the packed F byte and the boolean flag view in
/// agreement if they agreed before it.
#[verifier::rlimit(60)]
pub proof fn lemma_perform_keeps_flags_synced(m: Machine, instr: Instruction)
    requires
        m.cpu.synced(),
    ensures
        m.perform(instr).cpu.synced(),
{
    lemma_updates_keep_flags_synced();
    match instr {
        Instruction::Prefix => {
            let m1 = m.advance(1);
            let cb = cb_table(m.imm8());
            assert(m1.cpu.synced());
            match cb {
                Instruction::Shift(op, t) => {},
                Instruction::BitTest(b, t) => {},
                Instruction::ResetBit(b, t) => {},
                Instruction::SetBit(b, t) => {},
                _ => {},
            }
        },
        Instruction::Alu(op, src) => {},
        Instruction::Inc8(t) => {},
        Instruction::Dec8(t) => {},
        Instruction::Shift(op, t) => {},
        Instruction::BitTest(b, t) => {},
        Instruction::ResetBit(b, t) => {},
        Instruction::SetBit(b, t) => {},
        _ => {},
    }
}
} // verus!

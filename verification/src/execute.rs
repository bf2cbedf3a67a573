//! Execution of decoded instructions: the effect of each instruction on
//! registers, flags, memory, the timer and the program counter.

use vstd::prelude::*;
use crate::alu::{
    add16_hl, add8, add_offset, dec8, daa8, inc8, lemma_add16_bits, lemma_add8_bits, lemma_sub8_bits,
    logic_flags, rl8, rlc8, rr8, rrc8, shift_flags, signed8, sla8, sra8, srl8, sub8, swap8,
};
use crate::cpu::{add16, MemoryBus, CPU};
use crate::instruction::{
    ArithmeticTarget, IncDecTarget, Instruction, JumpTarget, JumpTest, LoadByteSource, LoadByteTarget,
    LoadType, PrefixTarget, RestartTarget, StackTarget,
};
use crate::register::{FlagsRegister, Registers};

verus! {

broadcast use crate::cpu::MemoryBus::lemma_write_frame;

/// The 8-bit register named by an operand; `HL` names memory, not a register.
pub open spec fn get_r(r: Registers, t: PrefixTarget) -> u8 {
    match t {
        PrefixTarget::A => r.a,
        PrefixTarget::B => r.b,
        PrefixTarget::C => r.c,
        PrefixTarget::D => r.d,
        PrefixTarget::E => r.e,
        PrefixTarget::H => r.h,
        PrefixTarget::L => r.l,
        PrefixTarget::HL => 0,
    }
}

pub open spec fn set_r(r: Registers, t: PrefixTarget, v: u8) -> Registers {
    match t {
        PrefixTarget::A => Registers { a: v, ..r },
        PrefixTarget::B => Registers { b: v, ..r },
        PrefixTarget::C => Registers { c: v, ..r },
        PrefixTarget::D => Registers { d: v, ..r },
        PrefixTarget::E => Registers { e: v, ..r },
        PrefixTarget::H => Registers { h: v, ..r },
        PrefixTarget::L => Registers { l: v, ..r },
        PrefixTarget::HL => r,
    }
}

/// The register operand of an 8-bit ALU instruction, if it names one.
pub open spec fn arith_reg(t: ArithmeticTarget) -> Option<PrefixTarget> {
    match t {
        ArithmeticTarget::A => Some(PrefixTarget::A),
        ArithmeticTarget::B => Some(PrefixTarget::B),
        ArithmeticTarget::C => Some(PrefixTarget::C),
        ArithmeticTarget::D => Some(PrefixTarget::D),
        ArithmeticTarget::E => Some(PrefixTarget::E),
        ArithmeticTarget::H => Some(PrefixTarget::H),
        ArithmeticTarget::L => Some(PrefixTarget::L),
        _ => None,
    }
}

/// Operands that an 8-bit ALU instruction can take: a register, (HL) or an
/// immediate byte.
pub open spec fn alu8_operand(t: ArithmeticTarget) -> bool {
    arith_reg(t) is Some || t == ArithmeticTarget::HL || t == ArithmeticTarget::D8
}

/// Whether a jump condition holds for the flags.
pub open spec fn test_holds(f: FlagsRegister, test: JumpTest) -> bool {
    match test {
        JumpTest::NotZero => !f.zero,
        JumpTest::NotCarry => !f.carry,
        JumpTest::Zero => f.zero,
        JumpTest::Carry => f.carry,
        JumpTest::Always => true,
    }
}

impl CPU {
    /// The program counter plus `n`, wrapping.
    pub open spec fn pc_plus(&self, n: int) -> u16 {
        add16(self.program_counter as int, n)
    }

    /// The value of an 8-bit ALU operand.
    pub open spec fn alu_value(&self, t: ArithmeticTarget) -> u8 {
        match arith_reg(t) {
            Some(r) => get_r(self.registers, r),
            None => if t == ArithmeticTarget::HL {
                self.read(self.registers.hl() as int)
            } else {
                self.imm8()
            },
        }
    }

    pub open spec fn alu_value_ok(&self, t: ArithmeticTarget) -> bool {
        &&& alu8_operand(t)
        &&& t == ArithmeticTarget::HL ==> self.can_read(self.registers.hl() as int)
        &&& t == ArithmeticTarget::D8 ==> self.imm8_ok()
    }

    /// The CPU with A and the flags replaced, after `cycles` cycles.
    pub open spec fn with_a(self, a: u8, f: FlagsRegister) -> CPU {
        self.with_regs(Registers { a: a, f: f, ..self.registers })
    }
}

/// Cycles and length of an 8-bit ALU instruction on a register (4, 1),
/// (HL) (8, 1) or an immediate (8, 2).
pub open spec fn alu_timing(t: ArithmeticTarget) -> (u32, int) {
    if t == ArithmeticTarget::HL {
        (8, 1)
    } else if t == ArithmeticTarget::D8 {
        (8, 2)
    } else {
        (4, 1)
    }
}

/// The effect of an arithmetic or logic instruction: the new state and the
/// address of the next instruction. AND on an operand it does not take
/// leaves everything as it is (the next instruction is itself); XOR on one
/// skips a byte.
pub open spec fn alu_spec(s: CPU, i: Instruction) -> (CPU, u16) {
    let a = s.registers.a;
    let f = s.registers.f;
    match i {
        Instruction::ADD(t) => if t == ArithmeticTarget::SP {
            let (sp, f2) = add_offset(s.program_counter, s.imm8());
            (CPU { stack_pointer: sp, ..s.with_flags(f2) }.ticked(8), s.pc_plus(1))
        } else {
            let (r, f2) = add8(a, s.alu_value(t), false);
            (s.with_a(r, f2).ticked(alu_timing(t).0), s.pc_plus(alu_timing(t).1))
        },
        Instruction::ADC(t) => {
            let (r, f2) = add8(a, s.alu_value(t), f.carry);
            let len = if t == ArithmeticTarget::HL { 2 } else { alu_timing(t).1 };
            (s.with_a(r, f2).ticked(alu_timing(t).0), s.pc_plus(len))
        },
        Instruction::SUB(t) => {
            let (r, f2) = sub8(a, s.alu_value(t), false);
            (s.with_a(r, f2).ticked(alu_timing(t).0), s.pc_plus(alu_timing(t).1))
        },
        Instruction::SBC(t) => {
            let (r, f2) = sub8(a, s.alu_value(t), f.carry);
            (s.with_a(r, f2).ticked(alu_timing(t).0), s.pc_plus(alu_timing(t).1))
        },
        Instruction::AND(t) => if alu8_operand(t) {
            let r = a & s.alu_value(t);
            (s.with_a(r, logic_flags(r, true)).ticked(alu_timing(t).0), s.pc_plus(alu_timing(t).1))
        } else {
            (s, s.program_counter)
        },
        Instruction::OR(t) => {
            let r = a | s.alu_value(t);
            let cycles: u32 = if t == ArithmeticTarget::D8 { 4 } else { alu_timing(t).0 };
            (s.with_a(r, logic_flags(r, false)).ticked(cycles), s.pc_plus(alu_timing(t).1))
        },
        Instruction::XOR(t) => if alu8_operand(t) {
            let r = a ^ s.alu_value(t);
            (s.with_a(r, logic_flags(r, false)).ticked(alu_timing(t).0), s.pc_plus(alu_timing(t).1))
        } else {
            (s, s.pc_plus(1))
        },
        Instruction::CP(t) => {
            let (r, f2) = sub8(a, s.alu_value(t), false);
            (s.with_flags(f2).ticked(alu_timing(t).0), s.pc_plus(alu_timing(t).1))
        },
        Instruction::ADDHL(t) => {
            let v: u16 = match t {
                ArithmeticTarget::BC => s.registers.bc(),
                ArithmeticTarget::DE => s.registers.de(),
                ArithmeticTarget::HL => s.registers.hl(),
                _ => s.stack_pointer,
            };
            let (r, f2) = add16_hl(s.registers.hl(), v, f);
            (s.with_regs(Registers { f: f2, ..s.registers }.with_hl(r)).ticked(8), s.pc_plus(1))
        },
        _ => (s, s.program_counter),
    }
}

/// When an arithmetic or logic instruction can run: its operand is one it
/// takes (ADD also takes SP + r8, ADD HL the register pairs; AND and XOR
/// take any), its reads can be served and the timer has room.
pub open spec fn alu_ok(s: CPU, i: Instruction) -> bool {
    match i {
        Instruction::ADD(t) => if t == ArithmeticTarget::SP {
            s.imm8_ok() && s.can_tick(8)
        } else {
            s.alu_value_ok(t) && s.can_tick(alu_timing(t).0)
        },
        Instruction::ADC(t) | Instruction::SUB(t) | Instruction::SBC(t) | Instruction::CP(t) => s.alu_value_ok(t)
            && s.can_tick(alu_timing(t).0),
        Instruction::AND(t) | Instruction::XOR(t) => alu8_operand(t) ==> (s.alu_value_ok(t) && s.can_tick(
            alu_timing(t).0,
        )),
        Instruction::OR(t) => s.alu_value_ok(t) && s.can_tick(alu_timing(t).0),
        Instruction::ADDHL(t) => (t == ArithmeticTarget::BC || t == ArithmeticTarget::DE || t
            == ArithmeticTarget::HL || t == ArithmeticTarget::SP) && s.can_tick(8),
        _ => false,
    }
}

pub open spec fn is_alu(i: Instruction) -> bool {
    match i {
        Instruction::ADD(_) | Instruction::ADC(_) | Instruction::SUB(_) | Instruction::SBC(_)
        | Instruction::AND(_) | Instruction::OR(_) | Instruction::XOR(_) | Instruction::CP(_)
        | Instruction::ADDHL(_) => true,
        _ => false,
    }
}

impl CPU {
    #[verifier::spinoff_prover]
    fn get_reg(&self, t: PrefixTarget) -> (r: u8)
        requires
            t != PrefixTarget::HL,
        ensures
            r == get_r(self.registers, t),
    {
        match t {
            PrefixTarget::A => self.registers.a,
            PrefixTarget::B => self.registers.b,
            PrefixTarget::C => self.registers.c,
            PrefixTarget::D => self.registers.d,
            PrefixTarget::E => self.registers.e,
            PrefixTarget::H => self.registers.h,
            _ => self.registers.l,
        }
    }

    #[verifier::spinoff_prover]
    fn set_reg(&mut self, t: PrefixTarget, v: u8)
        requires
            t != PrefixTarget::HL,
        ensures
            *final(self) == old(self).with_regs(set_r(old(self).registers, t, v)),
    {
        match t {
            PrefixTarget::A => self.registers.a = v,
            PrefixTarget::B => self.registers.b = v,
            PrefixTarget::C => self.registers.c = v,
            PrefixTarget::D => self.registers.d = v,
            PrefixTarget::E => self.registers.e = v,
            PrefixTarget::H => self.registers.h = v,
            _ => self.registers.l = v,
        }
    }

    /// Fetches the operand of an 8-bit ALU instruction.
    #[verifier::spinoff_prover]
    fn alu_operand(&self, target: ArithmeticTarget) -> (r: u8)
        requires
            self.alu_value_ok(target),
        ensures
            r == self.alu_value(target),
    {
        match target {
            ArithmeticTarget::A => self.registers.a,
            ArithmeticTarget::B => self.registers.b,
            ArithmeticTarget::C => self.registers.c,
            ArithmeticTarget::D => self.registers.d,
            ArithmeticTarget::E => self.registers.e,
            ArithmeticTarget::H => self.registers.h,
            ArithmeticTarget::L => self.registers.l,
            ArithmeticTarget::HL => {
                let address = self.registers.get_hl();
                self.bus.bus_read(address)
            },
            _ => self.read_next_byte(),
        }
    }

    #[verifier::spinoff_prover]
    fn add(&mut self, value: u8) -> (result: u8)
        ensures
            (result, final(self).registers.f) == add8(old(self).registers.a, value, false),
            *final(self) == old(self).with_flags(final(self).registers.f),
    {
        let a = self.registers.a as u32;
        let val = value as u32;
        let r = a + val;
        proof {
            lemma_add8_bits(a, val, 0, r);
        }
        let result = (r % 256) as u8;
        self.registers.f.zero = result == 0;
        self.registers.f.subtract = false;
        self.registers.f.carry = r & 0x100 != 0;
        self.registers.f.half_carry = (a ^ val ^ r) & 0x10 != 0;
        result
    }

    #[verifier::spinoff_prover]
    fn adc(&mut self, value: u8)
        ensures
            (final(self).registers.a, final(self).registers.f) == add8(
                old(self).registers.a,
                value,
                old(self).registers.f.carry,
            ),
            *final(self) == old(self).with_a(final(self).registers.a, final(self).registers.f),
    {
        let a = self.registers.a as u32;
        let val = value as u32;
        let carry: u32 = if self.registers.f.carry { 1 } else { 0 };
        let r = a + val + carry;
        proof {
            lemma_add8_bits(a, val, carry, r);
        }
        let result = (r % 256) as u8;
        self.registers.f.zero = result == 0;
        self.registers.f.subtract = false;
        self.registers.f.carry = r & 0x100 != 0;
        self.registers.f.half_carry = (a ^ val ^ r) & 0x10 != 0;
        self.registers.a = result;
    }

    #[verifier::spinoff_prover]
    fn addhl(&mut self, value: u16) -> (result: u16)
        ensures
            (result, final(self).registers.f) == add16_hl(
                old(self).registers.hl(),
                value,
                old(self).registers.f,
            ),
            *final(self) == old(self).with_flags(final(self).registers.f),
    {
        let hl = self.registers.get_hl() as u32;
        let val = value as u32;
        let r = hl + val;
        proof {
            lemma_add16_bits(hl, val, r);
        }
        self.registers.f.subtract = false;
        self.registers.f.carry = r & 0x10000 != 0;
        self.registers.f.half_carry = (hl ^ val ^ r) & 0x1000 != 0;
        (r % 65536) as u16
    }

    /// SP + r8 as the add to SP computes it: the offset is added to the
    /// program counter.
    #[verifier::spinoff_prover]
    fn add_sp(&mut self) -> (result: u16)
        requires
            old(self).imm8_ok(),
        ensures
            (result, final(self).registers.f) == add_offset(old(self).program_counter, old(self).imm8()),
            *final(self) == old(self).with_flags(final(self).registers.f),
    {
        let n = self.read_next_byte();
        let (result, half, carry) = offset_add(self.program_counter, n);
        self.registers.f.zero = false;
        self.registers.f.subtract = false;
        self.registers.f.carry = carry;
        self.registers.f.half_carry = half;
        result
    }

    #[verifier::spinoff_prover]
    fn and(&mut self, value: u8)
        ensures
            final(self).registers.a == old(self).registers.a & value,
            *final(self) == old(self).with_a(
                final(self).registers.a,
                logic_flags(final(self).registers.a, true),
            ),
    {
        self.registers.a &= value;
        self.registers.f.zero = self.registers.a == 0;
        self.registers.f.subtract = false;
        self.registers.f.half_carry = true;
        self.registers.f.carry = false;
    }

    #[verifier::spinoff_prover]
    fn sbc(&mut self, value: u8) -> (result: u8)
        ensures
            (result, final(self).registers.f) == sub8(
                old(self).registers.a,
                value,
                old(self).registers.f.carry,
            ),
            *final(self) == old(self).with_flags(final(self).registers.f),
    {
        let a = self.registers.a as u32;
        let val = value as u32;
        let carry: u32 = if self.registers.f.carry { 1 } else { 0 };
        let r = a.wrapping_sub(val).wrapping_sub(carry);
        proof {
            lemma_sub8_bits(a, val, carry, r);
        }
        let result = (r % 256) as u8;
        proof {
            assert(result == (a - val - carry) % 256);
        }
        self.registers.f.zero = result == 0;
        self.registers.f.subtract = true;
        self.registers.f.half_carry = (a ^ val ^ r) & 0x10 != 0;
        self.registers.f.carry = r & 0x100 != 0;
        result
    }

    #[verifier::spinoff_prover]
    fn or(&mut self, value: &u8)
        ensures
            final(self).registers.a == old(self).registers.a | *value,
            *final(self) == old(self).with_a(
                final(self).registers.a,
                logic_flags(final(self).registers.a, false),
            ),
    {
        self.registers.a |= *value;
        self.registers.f.zero = self.registers.a == 0;
        self.registers.f.subtract = false;
        self.registers.f.half_carry = false;
        self.registers.f.carry = false;
    }

    #[verifier::spinoff_prover]
    fn xor(&mut self, value: &u8)
        ensures
            final(self).registers.a == old(self).registers.a ^ *value,
            *final(self) == old(self).with_a(
                final(self).registers.a,
                logic_flags(final(self).registers.a, false),
            ),
    {
        self.registers.a ^= *value;
        self.registers.f.zero = self.registers.a == 0;
        self.registers.f.subtract = false;
        self.registers.f.half_carry = false;
        self.registers.f.carry = false;
    }

    /// Subtraction of `value` from A for its flags; the difference is
    /// returned (SUB stores it, CP drops it).
    #[verifier::spinoff_prover]
    fn cp(&mut self, value: &u8) -> (result: u8)
        ensures
            (result, final(self).registers.f) == sub8(old(self).registers.a, *value, false),
            *final(self) == old(self).with_flags(final(self).registers.f),
    {
        let a = self.registers.a as u32;
        let val = *value as u32;
        let r = a.wrapping_sub(val);
        proof {
            lemma_sub8_bits(a, val, 0, r);
        }
        let result = (r % 256) as u8;
        self.registers.f.zero = result == 0;
        self.registers.f.subtract = true;
        self.registers.f.half_carry = (a ^ val ^ r) & 0x10 != 0;
        self.registers.f.carry = r & 0x100 != 0;
        result
    }

    /// Runs an arithmetic or logic instruction.
    #[verifier::spinoff_prover]
    fn execute_alu(&mut self, instruction: Instruction) -> (next_pc: u16)
        requires
            is_alu(instruction),
            alu_ok(*old(self), instruction),
        ensures
            (*final(self), next_pc) == alu_spec(*old(self), instruction),
    {
        match instruction {
            Instruction::ADD(target) => self.execute_add(target),
            Instruction::ADC(target) => self.execute_adc(target),
            Instruction::SUB(target) => self.execute_sub(target),
            Instruction::SBC(target) => self.execute_sbc(target),
            Instruction::AND(target) => self.execute_and(target),
            Instruction::OR(target) => self.execute_or(target),
            Instruction::XOR(target) => self.execute_xor(target),
            Instruction::CP(target) => self.execute_cp(target),
            Instruction::ADDHL(target) => self.execute_addhl(target),
            _ => self.program_counter,
        }
    }

    #[verifier::spinoff_prover]
    fn execute_add(&mut self, target: ArithmeticTarget) -> (next_pc: u16)
        requires
            alu_ok(*old(self), Instruction::ADD(target)),
        ensures
            (*final(self), next_pc) == alu_spec(*old(self), Instruction::ADD(target)),
    {
        match target {
            ArithmeticTarget::SP => {
                self.stack_pointer = self.add_sp();
                self.bus.timer.timer_tick(8);
                self.program_counter.wrapping_add(1)
            },
            _ => {
                let value = self.alu_operand(target);
                self.registers.a = self.add(value);
                let (cycles, len) = alu_cycles(target);
                self.bus.timer.timer_tick(cycles);
                self.program_counter.wrapping_add(len)
            },
        }
    }

    #[verifier::spinoff_prover]
    fn execute_adc(&mut self, target: ArithmeticTarget) -> (next_pc: u16)
        requires
            alu_ok(*old(self), Instruction::ADC(target)),
        ensures
            (*final(self), next_pc) == alu_spec(*old(self), Instruction::ADC(target)),
    {
        let value = self.alu_operand(target);
        self.adc(value);
        let (cycles, len) = alu_cycles(target);
        self.bus.timer.timer_tick(cycles);
        match target {
            ArithmeticTarget::HL => self.program_counter.wrapping_add(2),
            _ => self.program_counter.wrapping_add(len),
        }
    }

    #[verifier::spinoff_prover]
    fn execute_sub(&mut self, target: ArithmeticTarget) -> (next_pc: u16)
        requires
            alu_ok(*old(self), Instruction::SUB(target)),
        ensures
            (*final(self), next_pc) == alu_spec(*old(self), Instruction::SUB(target)),
    {
        let value = self.alu_operand(target);
        self.registers.a = self.cp(&value);
        let (cycles, len) = alu_cycles(target);
        self.bus.timer.timer_tick(cycles);
        self.program_counter.wrapping_add(len)
    }

    #[verifier::spinoff_prover]
    fn execute_sbc(&mut self, target: ArithmeticTarget) -> (next_pc: u16)
        requires
            alu_ok(*old(self), Instruction::SBC(target)),
        ensures
            (*final(self), next_pc) == alu_spec(*old(self), Instruction::SBC(target)),
    {
        let value = self.alu_operand(target);
        self.registers.a = self.sbc(value);
        let (cycles, len) = alu_cycles(target);
        self.bus.timer.timer_tick(cycles);
        self.program_counter.wrapping_add(len)
    }

    #[verifier::spinoff_prover]
    fn execute_and(&mut self, target: ArithmeticTarget) -> (next_pc: u16)
        requires
            alu_ok(*old(self), Instruction::AND(target)),
        ensures
            (*final(self), next_pc) == alu_spec(*old(self), Instruction::AND(target)),
    {
        match target {
            ArithmeticTarget::DE | ArithmeticTarget::BC | ArithmeticTarget::SP => self.program_counter,
            _ => {
                let value = self.alu_operand(target);
                self.and(value);
                let (cycles, len) = alu_cycles(target);
                self.bus.timer.timer_tick(cycles);
                self.program_counter.wrapping_add(len)
            },
        }
    }

    #[verifier::spinoff_prover]
    fn execute_or(&mut self, target: ArithmeticTarget) -> (next_pc: u16)
        requires
            alu_ok(*old(self), Instruction::OR(target)),
        ensures
            (*final(self), next_pc) == alu_spec(*old(self), Instruction::OR(target)),
    {
        let value = self.alu_operand(target);
        self.or(&value);
        let (cycles, len) = alu_cycles(target);
        match target {
            ArithmeticTarget::D8 => self.bus.timer.timer_tick(4),
            _ => self.bus.timer.timer_tick(cycles),
        }
        self.program_counter.wrapping_add(len)
    }

    #[verifier::spinoff_prover]
    fn execute_xor(&mut self, target: ArithmeticTarget) -> (next_pc: u16)
        requires
            alu_ok(*old(self), Instruction::XOR(target)),
        ensures
            (*final(self), next_pc) == alu_spec(*old(self), Instruction::XOR(target)),
    {
        match target {
            ArithmeticTarget::DE | ArithmeticTarget::BC | ArithmeticTarget::SP => self.program_counter.wrapping_add(1),
            _ => {
                let value = self.alu_operand(target);
                self.xor(&value);
                let (cycles, len) = alu_cycles(target);
                self.bus.timer.timer_tick(cycles);
                self.program_counter.wrapping_add(len)
            },
        }
    }

    #[verifier::spinoff_prover]
    fn execute_cp(&mut self, target: ArithmeticTarget) -> (next_pc: u16)
        requires
            alu_ok(*old(self), Instruction::CP(target)),
        ensures
            (*final(self), next_pc) == alu_spec(*old(self), Instruction::CP(target)),
    {
        let value = self.alu_operand(target);
        self.cp(&value);
        let (cycles, len) = alu_cycles(target);
        self.bus.timer.timer_tick(cycles);
        self.program_counter.wrapping_add(len)
    }

    #[verifier::spinoff_prover]
    fn execute_addhl(&mut self, target: ArithmeticTarget) -> (next_pc: u16)
        requires
            alu_ok(*old(self), Instruction::ADDHL(target)),
        ensures
            (*final(self), next_pc) == alu_spec(*old(self), Instruction::ADDHL(target)),
    {
        let value = match target {
            ArithmeticTarget::BC => self.registers.get_bc(),
            ArithmeticTarget::DE => self.registers.get_de(),
            ArithmeticTarget::HL => self.registers.get_hl(),
            _ => self.stack_pointer,
        };
        let add = self.addhl(value);
        self.registers.set_hl(add);
        self.bus.timer.timer_tick(8);
        self.program_counter.wrapping_add(1)
    }
}


/// The 8-bit register operand of INC or DEC, if it names one.
pub open spec fn incdec_reg(t: IncDecTarget) -> Option<PrefixTarget> {
    match t {
        IncDecTarget::A => Some(PrefixTarget::A),
        IncDecTarget::B => Some(PrefixTarget::B),
        IncDecTarget::C => Some(PrefixTarget::C),
        IncDecTarget::D => Some(PrefixTarget::D),
        IncDecTarget::E => Some(PrefixTarget::E),
        IncDecTarget::H => Some(PrefixTarget::H),
        IncDecTarget::L => Some(PrefixTarget::L),
        _ => None,
    }
}

/// INC (`up`) or DEC of an operand: 8-bit operands (registers in 4 cycles,
/// the byte at (HL) in 12) set the flags; register pairs and SP change by
/// one in 8 cycles and leave the flags alone. All are one byte long.
pub open spec fn incdec_result(s: CPU, t: IncDecTarget, up: bool) -> (CPU, u16) {
    let f = s.registers.f;
    let delta: int = if up { 1 } else { -1 };
    let next = s.pc_plus(1);
    match incdec_reg(t) {
        Some(r) => {
            let (v, f2) = if up { inc8(get_r(s.registers, r), f) } else { dec8(get_r(s.registers, r), f) };
            (s.with_regs(Registers { f: f2, ..set_r(s.registers, r, v) }).ticked(4), next)
        },
        None => match t {
            IncDecTarget::HLP => {
                let hl = s.registers.hl();
                let (v, f2) = if up { inc8(s.read(hl as int), f) } else { dec8(s.read(hl as int), f) };
                (s.with_flags(f2).write(hl as int, v).ticked(12), next)
            },
            _ => (incdec_pair_result(s, t, delta).ticked(8), next),
        },
    }
}

/// The 16-bit value of a register pair or SP.
pub open spec fn pair16(s: CPU, t: IncDecTarget) -> u16 {
    match t {
        IncDecTarget::BC => s.registers.bc(),
        IncDecTarget::DE => s.registers.de(),
        IncDecTarget::HL => s.registers.hl(),
        _ => s.stack_pointer,
    }
}

/// The CPU with a register pair or SP replaced.
pub open spec fn with_pair16(s: CPU, t: IncDecTarget, v: u16) -> CPU {
    match t {
        IncDecTarget::BC => s.with_regs(s.registers.with_bc(v)),
        IncDecTarget::DE => s.with_regs(s.registers.with_de(v)),
        IncDecTarget::HL => s.with_regs(s.registers.with_hl(v)),
        _ => CPU { stack_pointer: v, ..s },
    }
}

/// A register pair or SP changed by `delta`, wrapping.
pub open spec fn incdec_pair_result(s: CPU, t: IncDecTarget, delta: int) -> CPU {
    with_pair16(s, t, add16(pair16(s, t) as int, delta))
}

pub open spec fn incdec_result_ok(s: CPU, t: IncDecTarget, up: bool) -> bool {
    match incdec_reg(t) {
        Some(r) => s.can_tick(4),
        None => if t == IncDecTarget::HLP {
            let hl = s.registers.hl();
            let v = if up { inc8(s.read(hl as int), s.registers.f).0 } else { dec8(s.read(hl as int), s.registers.f).0 };
            s.can_read(hl as int) && s.can_write(hl as int, v) && s.can_tick(12)
        } else {
            s.can_tick(8)
        },
    }
}

/// The one-byte instructions on A, the flags and the CPU state; STOP is two
/// bytes long. EI and DI start a countdown of 3.
pub open spec fn misc_spec(s: CPU, i: Instruction) -> (CPU, u16) {
    let a = s.registers.a;
    let f = s.registers.f;
    let s1 = match i {
        Instruction::CCF() => s.with_flags(
            FlagsRegister { subtract: false, half_carry: false, carry: !f.carry, ..f },
        ),
        Instruction::SCF() => s.with_flags(FlagsRegister { subtract: false, half_carry: false, carry: true, ..f }),
        Instruction::RRA() => s.with_a(rr8(a, f.carry), shift_flags(false, a % 2 == 1)),
        Instruction::RLA() => s.with_a(rl8(a, f.carry), shift_flags(false, a >= 128)),
        Instruction::RRCA() => s.with_a(rrc8(a), shift_flags(false, a % 2 == 1)),
        Instruction::RLCA() => s.with_a(rlc8(a), shift_flags(false, a >= 128)),
        Instruction::CPL() => s.with_a(
            (255 - a) as u8,
            FlagsRegister { subtract: true, half_carry: true, ..f },
        ),
        Instruction::DAA() => s.with_a(daa8(a, f).0, daa8(a, f).1),
        Instruction::HALT() | Instruction::STOP() => CPU { is_halted: true, ..s },
        Instruction::EI() => CPU { ei: (s.ei + 3) as u8, ..s },
        Instruction::DI() => CPU { di: (s.di + 3) as u8, ..s },
        _ => s,
    };
    (s1.ticked(4), s.pc_plus(if i == Instruction::STOP() { 2 } else { 1 }))
}

pub open spec fn misc_ok(s: CPU, i: Instruction) -> bool {
    &&& s.can_tick(4)
    &&& i == Instruction::EI() ==> s.ei + 3 <= 255
    &&& i == Instruction::DI() ==> s.di + 3 <= 255
}

pub open spec fn is_misc(i: Instruction) -> bool {
    match i {
        Instruction::CCF() | Instruction::SCF() | Instruction::RRA() | Instruction::RLA()
        | Instruction::RRCA() | Instruction::RLCA() | Instruction::CPL() | Instruction::DAA()
        | Instruction::NOP() | Instruction::HALT() | Instruction::STOP() | Instruction::EI()
        | Instruction::DI() | Instruction::PREFIX() => true,
        _ => false,
    }
}

proof fn lemma_daa_bits(adj: u8, lo: u8, hi: u8, a: u8)
    by (bit_vector)
    requires
        lo < 2,
        hi < 2,
        adj == 6 * lo + 0x60 * hi,
    ensures
        adj | 0x06 == 6 + 0x60 * hi,
        adj | 0x60 == 6 * lo + 0x60,
        (adj & 0x60 != 0) == (hi == 1),
        a & 0x0F == a % 16,
        !a == 255 - a,
{
}


impl CPU {
    #[verifier::spinoff_prover]
    fn inc(&mut self, value: u8) -> (r: u8)
        ensures
            (r, final(self).registers.f) == inc8(value, old(self).registers.f),
            *final(self) == old(self).with_flags(final(self).registers.f),
    {
        let add = value.wrapping_add(1);
        proof {
            crate::alu::lemma_swap_bits(value, value as u32);
        }
        self.registers.f.zero = add == 0;
        self.registers.f.subtract = false;
        self.registers.f.half_carry = (value & 0xF) == 0xf;
        // Carry flag remains unchanged
        add
    }

    #[verifier::spinoff_prover]
    fn dec(&mut self, value: u8) -> (r: u8)
        ensures
            (r, final(self).registers.f) == dec8(value, old(self).registers.f),
            *final(self) == old(self).with_flags(final(self).registers.f),
    {
        proof {
            crate::alu::lemma_swap_bits(value, value as u32);
        }
        self.registers.f.half_carry = (value & 0xf) == 0;
        let val = value.wrapping_sub(1);
        self.registers.f.zero = val == 0;
        self.registers.f.subtract = true;
        // Carry flag remains unchanged
        val
    }

    /// Runs INC (`up`) or DEC.
    #[verifier::spinoff_prover]
    fn execute_incdec(&mut self, target: IncDecTarget, up: bool) -> (next_pc: u16)
        requires
            incdec_result_ok(*old(self), target, up),
        ensures
            (*final(self), next_pc) == incdec_result(*old(self), target, up),
    {
        match target {
            IncDecTarget::HLP => self.incdec_memory(up),
            IncDecTarget::HL | IncDecTarget::BC | IncDecTarget::DE | IncDecTarget::SP => self.incdec_pair(target, up),
            _ => {
                let r = match target {
                    IncDecTarget::A => PrefixTarget::A,
                    IncDecTarget::B => PrefixTarget::B,
                    IncDecTarget::C => PrefixTarget::C,
                    IncDecTarget::D => PrefixTarget::D,
                    IncDecTarget::E => PrefixTarget::E,
                    IncDecTarget::H => PrefixTarget::H,
                    _ => PrefixTarget::L,
                };
                self.incdec_register(Ghost(target), r, up)
            },
        }
    }

    /// INC or DEC of the byte at (HL).
    #[verifier::spinoff_prover]
    fn incdec_memory(&mut self, up: bool) -> (next_pc: u16)
        requires
            incdec_result_ok(*old(self), IncDecTarget::HLP, up),
        ensures
            (*final(self), next_pc) == incdec_result(*old(self), IncDecTarget::HLP, up),
    {
        // Read the value at the address in HL
        let address = self.registers.get_hl();
        let mut value = self.bus.bus_read(address);
        value = if up { self.inc(value) } else { self.dec(value) };
        // Write the modified value back to memory
        self.bus.bus_write(address, value);
        self.bus.timer.timer_tick(12);
        self.program_counter.wrapping_add(1)
    }

    #[verifier::spinoff_prover]
    fn get_pair16(&self, t: IncDecTarget) -> (r: u16)
        ensures
            r == pair16(*self, t),
    {
        match t {
            IncDecTarget::BC => self.registers.get_bc(),
            IncDecTarget::DE => self.registers.get_de(),
            IncDecTarget::HL => self.registers.get_hl(),
            _ => self.stack_pointer,
        }
    }

    #[verifier::spinoff_prover]
    fn set_pair16(&mut self, t: IncDecTarget, v: u16)
        ensures
            *final(self) == with_pair16(*old(self), t, v),
    {
        match t {
            IncDecTarget::BC => self.registers.set_bc(v),
            IncDecTarget::DE => self.registers.set_de(v),
            IncDecTarget::HL => self.registers.set_hl(v),
            _ => self.stack_pointer = v,
        }
    }

    /// INC or DEC of a register pair or SP.
    #[verifier::spinoff_prover]
    fn incdec_pair(&mut self, target: IncDecTarget, up: bool) -> (next_pc: u16)
        requires
            old(self).can_tick(8),
        ensures
            (*final(self), next_pc) == (
                incdec_pair_result(*old(self), target, if up { 1 } else { -1 }).ticked(8),
                old(self).pc_plus(1),
            ),
    {
        let v = self.get_pair16(target);
        self.set_pair16(target, if up { v.wrapping_add(1) } else { v.wrapping_sub(1) });
        self.bus.timer.timer_tick(8);
        self.program_counter.wrapping_add(1)
    }

    /// INC or DEC of an 8-bit register.
    #[verifier::spinoff_prover]
    fn incdec_register(&mut self, Ghost(t): Ghost<IncDecTarget>, r: PrefixTarget, up: bool) -> (next_pc: u16)
        requires
            r != PrefixTarget::HL,
            incdec_reg(t) == Some(r),
            incdec_result_ok(*old(self), t, up),
        ensures
            (*final(self), next_pc) == incdec_result(*old(self), t, up),
    {
        let value = self.get_reg(r);
        let v = if up { self.inc(value) } else { self.dec(value) };
        self.set_reg(r, v);
        self.bus.timer.timer_tick(4);
        self.program_counter.wrapping_add(1)
    }

    #[verifier::spinoff_prover]
    fn ccf(&mut self)
        ensures
            *final(self) == old(self).with_flags(
                FlagsRegister {
                    subtract: false,
                    half_carry: false,
                    carry: !old(self).registers.f.carry,
                    ..old(self).registers.f
                },
            ),
    {
        self.registers.f.subtract = false;
        self.registers.f.half_carry = false;
        self.registers.f.carry = !self.registers.f.carry;
    }

    #[verifier::spinoff_prover]
    fn scf(&mut self)
        ensures
            *final(self) == old(self).with_flags(
                FlagsRegister { subtract: false, half_carry: false, carry: true, ..old(self).registers.f },
            ),
    {
        self.registers.f.subtract = false;
        self.registers.f.half_carry = false;
        self.registers.f.carry = true;
    }

    #[verifier::spinoff_prover]
    fn rra(&mut self)
        ensures
            *final(self) == old(self).with_a(
                rr8(old(self).registers.a, old(self).registers.f.carry),
                shift_flags(false, old(self).registers.a % 2 == 1),
            ),
    {
        let a = self.registers.a;
        let new_carry = (a & 1) != 0;
        let old_carry = self.registers.f.carry as u8;
        proof {
            crate::alu::lemma_rr_bits(a, a as u32, old_carry, old_carry as u32);
        }
        self.registers.a = (a >> 1) | (old_carry << 7);
        self.registers.f.zero = false;
        self.registers.f.subtract = false;
        self.registers.f.half_carry = false;
        self.registers.f.carry = new_carry;
    }

    #[verifier::spinoff_prover]
    fn rla(&mut self)
        ensures
            *final(self) == old(self).with_a(
                rl8(old(self).registers.a, old(self).registers.f.carry),
                shift_flags(false, old(self).registers.a >= 128),
            ),
    {
        let a = self.registers.a;
        let old_carry = self.registers.f.carry as u8;
        proof {
            crate::alu::lemma_rl_bits(a, a as u32, old_carry, old_carry as u32);
        }
        let new_carry = (a >> 7) != 0;
        self.registers.a = (a << 1) | old_carry;
        self.registers.f.zero = false;
        self.registers.f.subtract = false;
        self.registers.f.half_carry = false;
        self.registers.f.carry = new_carry;
    }

    #[verifier::spinoff_prover]
    fn rrca(&mut self)
        ensures
            *final(self) == old(self).with_a(
                rrc8(old(self).registers.a),
                shift_flags(false, old(self).registers.a % 2 == 1),
            ),
    {
        let a = self.registers.a;
        proof {
            crate::alu::lemma_rrc_bits(a, a as u32);
        }
        let x = a & 1;
        self.registers.a = (a >> 1) | (x << 7);
        proof {
            assert((a >> 1) | ((a & 1) << 7) == (a >> 1) | (a << 7)) by (bit_vector);
        }
        self.registers.f.zero = false;
        self.registers.f.subtract = false;
        self.registers.f.half_carry = false;
        self.registers.f.carry = x != 0;
    }

    #[verifier::spinoff_prover]
    fn rlca(&mut self)
        ensures
            *final(self) == old(self).with_a(
                rlc8(old(self).registers.a),
                shift_flags(false, old(self).registers.a >= 128),
            ),
    {
        let a = self.registers.a;
        proof {
            crate::alu::lemma_rlc_bits(a, a as u32);
            crate::alu::lemma_rl_bits(a, a as u32, 0, 0);
        }
        let x = a >> 7;
        self.registers.a = (a << 1) | x;
        self.registers.f.zero = false;
        self.registers.f.subtract = false;
        self.registers.f.half_carry = false;
        self.registers.f.carry = x != 0;
    }

    #[verifier::spinoff_prover]
    fn daa(&mut self) -> (next_pc: u16)
        requires
            old(self).can_tick(4),
        ensures
            *final(self) == old(self).with_a(
                daa8(old(self).registers.a, old(self).registers.f).0,
                daa8(old(self).registers.a, old(self).registers.f).1,
            ).ticked(4),
            next_pc == old(self).pc_plus(1),
    {
        let (x, carry) = daa_adjust(self.registers.a, self.registers.f);
        self.registers.a = x;
        self.registers.f.zero = x == 0;
        self.registers.f.carry = carry;
        self.registers.f.half_carry = false;
        self.bus.timer.timer_tick(4);
        self.program_counter.wrapping_add(1)
    }

    /// Runs one of the instructions on A, the flags and the CPU state.
    #[verifier::spinoff_prover]
    fn execute_misc(&mut self, instruction: Instruction) -> (next_pc: u16)
        requires
            is_misc(instruction),
            misc_ok(*old(self), instruction),
        ensures
            (*final(self), next_pc) == misc_spec(*old(self), instruction),
    {
        match instruction {
            Instruction::CCF() => self.ccf(),
            Instruction::SCF() => self.scf(),
            Instruction::RRA() => self.rra(),
            Instruction::RLA() => self.rla(),
            Instruction::RRCA() => self.rrca(),
            Instruction::RLCA() => self.rlca(),
            Instruction::CPL() => {
                // Complement A
                proof {
                    lemma_daa_bits(0, 0, 0, self.registers.a);
                }
                self.registers.a = !self.registers.a;
                self.registers.f.subtract = true;
                self.registers.f.half_carry = true;
            },
            Instruction::DAA() => {
                return self.daa();
            },
            Instruction::STOP() => {
                self.is_halted = true;
                // Halt display until button pressed
                self.bus.timer.timer_tick(4);
                return self.program_counter.wrapping_add(2);
            },
            Instruction::HALT() => {
                self.is_halted = true;
            },
            Instruction::EI() => {
                self.ei += 3;
            },
            Instruction::DI() => {
                self.di += 3;
            },
            _ => {},  // NOP and PREFIX
        }
        self.bus.timer.timer_tick(4);
        self.program_counter.wrapping_add(1)
    }
}


/// The decimal adjust of A: the adjusted value and whether the high
/// correction (0x60) applied.
#[verifier::spinoff_prover]
fn daa_adjust(a: u8, f: FlagsRegister) -> (r: (u8, bool))
    ensures
        r.0 == daa8(a, f).0,
        r.1 == daa8(a, f).1.carry,
{
    let mut adjust: u8 = 0;
    let ghost lo: u8 = if f.subtract { if f.half_carry { 1 } else { 0 } } else if f.half_carry || a % 16 > 9 {
        1
    } else {
        0
    };
    let ghost hi: u8 = if f.subtract { if f.carry { 1 } else { 0 } } else if f.carry || a > 0x99 {
        1
    } else {
        0
    };
    proof {
        lemma_daa_bits(0, 0, 0, a);
        lemma_daa_bits(6, 1, 0, a);
        lemma_daa_bits(0x60, 0, 1, a);
        lemma_daa_bits(0x66, 1, 1, a);
    }
    if f.half_carry {
        adjust |= 0x06;
    }
    if f.carry {
        adjust |= 0x60;
    }
    let x = if f.subtract {
        a.wrapping_sub(adjust)
    } else {
        if a & 0x0F > 0x09 {
            adjust |= 0x06;
        }
        if a > 0x99 {
            adjust |= 0x60;
        }
        a.wrapping_add(adjust)
    };
    assert(adjust == 6 * lo + 0x60 * hi);
    (x, adjust & 0x60 != 0)
}


/// The operand of a 0xCB-prefixed instruction.
pub open spec fn cb_target(i: Instruction) -> PrefixTarget {
    match i {
        Instruction::RLC(t) | Instruction::RRC(t) | Instruction::RL(t) | Instruction::RR(t)
        | Instruction::SLA(t) | Instruction::SRA(t) | Instruction::SWAP(t) | Instruction::SRL(t)
        | Instruction::BIT(_, t) | Instruction::RES(_, t) | Instruction::SET(_, t) => t,
        _ => PrefixTarget::A,
    }
}

pub open spec fn is_cb(i: Instruction) -> bool {
    match i {
        Instruction::RLC(_) | Instruction::RRC(_) | Instruction::RL(_) | Instruction::RR(_)
        | Instruction::SLA(_) | Instruction::SRA(_) | Instruction::SWAP(_) | Instruction::SRL(_)
        | Instruction::BIT(_, _) | Instruction::RES(_, _) | Instruction::SET(_, _) => true,
        _ => false,
    }
}

impl CPU {
    /// The value of a CB operand: a register, or the byte at (HL).
    pub open spec fn cb_value(&self, t: PrefixTarget) -> u8 {
        if t == PrefixTarget::HL {
            self.read(self.registers.hl() as int)
        } else {
            get_r(self.registers, t)
        }
    }

    /// The CPU with a CB operand replaced.
    pub open spec fn cb_store(self, t: PrefixTarget, v: u8) -> CPU {
        if t == PrefixTarget::HL {
            self.write(self.registers.hl() as int, v)
        } else {
            self.with_regs(set_r(self.registers, t, v))
        }
    }
}

/// The result and flags of a rotate, shift, RES or SET on `v`. The rotates
/// and shifts clear N and H and set C from the bit shifted out; Z follows the
/// result, except for SRA and SWAP where it follows the operand. RES and SET
/// leave the flags alone.
pub open spec fn cb_op(i: Instruction, v: u8, f: FlagsRegister) -> (u8, FlagsRegister) {
    match i {
        Instruction::RLC(_) => (rlc8(v), shift_flags(rlc8(v) == 0, v >= 128)),
        Instruction::RRC(_) => (rrc8(v), shift_flags(rrc8(v) == 0, v % 2 == 1)),
        Instruction::RL(_) => (rl8(v, f.carry), shift_flags(rl8(v, f.carry) == 0, v >= 128)),
        Instruction::RR(_) => (rr8(v, f.carry), shift_flags(rr8(v, f.carry) == 0, v % 2 == 1)),
        Instruction::SLA(_) => (sla8(v), shift_flags(sla8(v) == 0, v >= 128)),
        Instruction::SRA(_) => (sra8(v), shift_flags(v == 0, v % 2 == 1)),
        Instruction::SWAP(_) => (swap8(v), shift_flags(v == 0, false)),
        Instruction::SRL(_) => (srl8(v), shift_flags(srl8(v) == 0, v % 2 == 1)),
        Instruction::RES(b, _) => (v & !(1u8 << b), f),
        Instruction::SET(b, _) => (v | (1u8 << b), f),
        _ => (v, f),
    }
}

/// Cycles of a CB instruction: 8 on a register; on (HL) 8 for RR, RRC and
/// SRL and 16 for the others.
pub open spec fn cb_cycles(i: Instruction) -> u32 {
    if cb_target(i) != PrefixTarget::HL {
        8
    } else {
        match i {
            Instruction::RR(_) | Instruction::RRC(_) | Instruction::SRL(_) => 8,
            _ => 16,
        }
    }
}

/// The effect of a 0xCB-prefixed instruction (two bytes long). BIT sets Z
/// when the bit is clear, clears N, sets H and keeps C; the others write
/// their result back to the operand.
pub open spec fn cb_spec(s: CPU, i: Instruction) -> (CPU, u16) {
    let t = cb_target(i);
    let v = s.cb_value(t);
    let f = s.registers.f;
    match i {
        Instruction::BIT(b, _) => (
            s.with_flags(
                FlagsRegister { zero: crate::tile::bit_at(v, b as int) == 0, subtract: false, half_carry: true, ..f },
            ).ticked(cb_cycles(i)),
            s.pc_plus(2),
        ),
        _ => {
            let (r, f2) = cb_op(i, v, f);
            (s.with_flags(f2).cb_store(t, r).ticked(cb_cycles(i)), s.pc_plus(2))
        },
    }
}

pub open spec fn cb_ok(s: CPU, i: Instruction) -> bool {
    let t = cb_target(i);
    &&& i is BIT ==> i->BIT_0 < 8
    &&& i is RES ==> i->RES_0 < 8
    &&& i is SET ==> i->SET_0 < 8
    &&& t == PrefixTarget::HL ==> s.can_read(s.registers.hl() as int)
    &&& (t == PrefixTarget::HL && !(i is BIT)) ==> s.can_write(
        s.registers.hl() as int,
        cb_op(i, s.cb_value(t), s.registers.f).0,
    )
    &&& s.can_tick(cb_cycles(i))
}

proof fn lemma_bit_test(v: u8, b: u8)
    by (bit_vector)
    requires
        b < 8,
    ensures
        ((v & (1u8 << b)) == 0) == (((v >> b) & 1) == 0),
{
}


impl CPU {
    #[verifier::spinoff_prover]
    fn bit(&mut self, bit: u8, value: u8)
        requires
            bit < 8,
        ensures
            *final(self) == old(self).with_flags(
                FlagsRegister {
                    zero: crate::tile::bit_at(value, bit as int) == 0,
                    subtract: false,
                    half_carry: true,
                    ..old(self).registers.f
                },
            ),
    {
        proof {
            lemma_bit_test(value, bit);
        }
        // Test the bit
        let result = (value & (1u8 << bit)) == 0;
        self.registers.f.zero = result;
        self.registers.f.subtract = false;
        self.registers.f.half_carry = true;
    }

    #[verifier::spinoff_prover]
    fn res(&mut self, bit: u8, value: u8) -> (r: u8)
        requires
            bit < 8,
        ensures
            r == value & !(1u8 << bit),
            *final(self) == *old(self),
    {
        // Clear the bit
        value & !(1u8 << bit)
    }

    #[verifier::spinoff_prover]
    fn set(&mut self, bit: u8, value: u8) -> (r: u8)
        requires
            bit < 8,
        ensures
            r == value | (1u8 << bit),
            *final(self) == *old(self),
    {
        // Set the bit
        value | (1u8 << bit)
    }

    /// Flags of a logical shift right of `value`.
    #[verifier::spinoff_prover]
    fn srl(&mut self, value: &u8)
        ensures
            *final(self) == old(self).with_flags(shift_flags(srl8(*value) == 0, *value % 2 == 1)),
    {
        proof {
            crate::alu::lemma_srl_bits(*value, *value as u32);
            crate::alu::lemma_rrc_bits(*value, *value as u32);
        }
        let carry = *value & 0x01;
        let r = *value >> 1;
        self.registers.f.zero = r == 0;
        self.registers.f.subtract = false;
        self.registers.f.half_carry = false;
        self.registers.f.carry = carry != 0;
    }

    #[verifier::spinoff_prover]
    fn rr(&mut self, value: u8) -> (r: u8)
        ensures
            (r, final(self).registers.f) == cb_op(
                Instruction::RR(PrefixTarget::A),
                value,
                old(self).registers.f,
            ),
            *final(self) == old(self).with_flags(final(self).registers.f),
    {
        let carry = self.registers.f.carry as u8;
        proof {
            crate::alu::lemma_rr_bits(value, value as u32, carry, carry as u32);
        }
        // Rotate right through the carry
        let val = (value >> 1) | (carry << 7);
        self.registers.f.zero = val == 0;
        self.registers.f.subtract = false;
        self.registers.f.half_carry = false;
        self.registers.f.carry = (value & 0x1) != 0;
        val
    }

    #[verifier::spinoff_prover]
    fn rl(&mut self, value: u8) -> (r: u8)
        ensures
            (r, final(self).registers.f) == cb_op(
                Instruction::RL(PrefixTarget::A),
                value,
                old(self).registers.f,
            ),
            *final(self) == old(self).with_flags(final(self).registers.f),
    {
        let c = self.registers.f.carry as u8;
        proof {
            crate::alu::lemma_rl_bits(value, value as u32, c, c as u32);
            crate::alu::lemma_rlc_bits(value, value as u32);
        }
        let carry = value & 0x80;
        // Rotate left through the carry
        let val = (value << 1) | self.registers.f.carry as u8;
        self.registers.f.zero = val == 0;
        self.registers.f.subtract = false;
        self.registers.f.half_carry = false;
        self.registers.f.carry = carry != 0;
        val
    }

    #[verifier::spinoff_prover]
    fn rrc(&mut self, value: u8) -> (r: u8)
        ensures
            (r, final(self).registers.f) == cb_op(
                Instruction::RRC(PrefixTarget::A),
                value,
                old(self).registers.f,
            ),
            *final(self) == old(self).with_flags(final(self).registers.f),
    {
        proof {
            crate::alu::lemma_rrc_bits(value, value as u32);
        }
        let carry = value & 0x01;
        // Rotate right
        let val = (value >> 1) | (value << 7);
        self.registers.f.zero = val == 0;
        self.registers.f.subtract = false;
        self.registers.f.half_carry = false;
        self.registers.f.carry = carry != 0;
        val
    }

    #[verifier::spinoff_prover]
    fn rlc(&mut self, value: u8) -> (r: u8)
        ensures
            (r, final(self).registers.f) == cb_op(
                Instruction::RLC(PrefixTarget::A),
                value,
                old(self).registers.f,
            ),
            *final(self) == old(self).with_flags(final(self).registers.f),
    {
        proof {
            crate::alu::lemma_rlc_bits(value, value as u32);
        }
        let carry = value & 0x80;
        // Rotate left
        let val = (value << 1) | (value >> 7);
        self.registers.f.zero = val == 0;
        self.registers.f.subtract = false;
        self.registers.f.half_carry = false;
        self.registers.f.carry = carry != 0;
        val
    }

    #[verifier::spinoff_prover]
    fn sra(&mut self, value: u8) -> (r: u8)
        ensures
            (r, final(self).registers.f) == cb_op(
                Instruction::SRA(PrefixTarget::A),
                value,
                old(self).registers.f,
            ),
            *final(self) == old(self).with_flags(final(self).registers.f),
    {
        proof {
            crate::alu::lemma_sra_bits(value, value as u32);
            crate::alu::lemma_rrc_bits(value, value as u32);
        }
        let carry = value & 0x01;
        // Arithmetic shift right
        let val = (value >> 1) | (value & 0x80);
        self.registers.f.zero = value == 0;
        self.registers.f.subtract = false;
        self.registers.f.half_carry = false;
        self.registers.f.carry = carry != 0;
        val
    }

    /// Flags of a shift left of `value`.
    #[verifier::spinoff_prover]
    fn sla(&mut self, value: &u8)
        ensures
            *final(self) == old(self).with_flags(shift_flags(sla8(*value) == 0, *value >= 128)),
    {
        proof {
            crate::alu::lemma_sla_bits(*value, *value as u32);
            crate::alu::lemma_rlc_bits(*value, *value as u32);
        }
        let r = *value << 1;
        self.registers.f.zero = r == 0;
        self.registers.f.subtract = false;
        self.registers.f.half_carry = false;
        self.registers.f.carry = *value & 0x80 != 0;
    }

    #[verifier::spinoff_prover]
    fn swap(&mut self, value: u8) -> (r: u8)
        ensures
            (r, final(self).registers.f) == cb_op(
                Instruction::SWAP(PrefixTarget::A),
                value,
                old(self).registers.f,
            ),
            *final(self) == old(self).with_flags(final(self).registers.f),
    {
        proof {
            crate::alu::lemma_swap_bits(value, value as u32);
        }
        // Exchange the nibbles
        let val = (value << 4) | (value >> 4);
        self.registers.f.zero = value == 0;
        self.registers.f.subtract = false;
        self.registers.f.half_carry = false;
        self.registers.f.carry = false;
        val
    }

    /// The result of a rotate, shift, RES or SET on `value`, with the flags
    /// it sets.
    #[verifier::spinoff_prover]
    fn cb_compute(&mut self, instruction: Instruction, value: u8) -> (r: u8)
        requires
            is_cb(instruction),
            !(instruction is BIT),
            instruction is RES ==> instruction->RES_0 < 8,
            instruction is SET ==> instruction->SET_0 < 8,
        ensures
            (r, final(self).registers.f) == cb_op(instruction, value, old(self).registers.f),
            *final(self) == old(self).with_flags(final(self).registers.f),
    {
        proof {
            crate::alu::lemma_srl_bits(value, value as u32);
            crate::alu::lemma_sla_bits(value, value as u32);
        }
        match instruction {
            Instruction::RLC(_) => self.rlc(value),
            Instruction::RRC(_) => self.rrc(value),
            Instruction::RL(_) => self.rl(value),
            Instruction::RR(_) => self.rr(value),
            Instruction::SLA(_) => {
                self.sla(&value);
                value << 1
            },
            Instruction::SRA(_) => self.sra(value),
            Instruction::SWAP(_) => self.swap(value),
            Instruction::SRL(_) => {
                self.srl(&value);
                value >> 1
            },
            Instruction::RES(bit, _) => self.res(bit, value),
            Instruction::SET(bit, _) => self.set(bit, value),
            _ => value,
        }
    }

    /// Runs a 0xCB-prefixed instruction.
    #[verifier::spinoff_prover]
    fn execute_prefix(&mut self, instruction: Instruction) -> (next_pc: u16)
        requires
            is_cb(instruction),
            cb_ok(*old(self), instruction),
        ensures
            (*final(self), next_pc) == cb_spec(*old(self), instruction),
    {
        let target = match instruction {
            Instruction::RLC(t) | Instruction::RRC(t) | Instruction::RL(t) | Instruction::RR(t)
            | Instruction::SLA(t) | Instruction::SRA(t) | Instruction::SWAP(t) | Instruction::SRL(t)
            | Instruction::BIT(_, t) | Instruction::RES(_, t) | Instruction::SET(_, t) => t,
            _ => PrefixTarget::A,
        };
        let cycles: u32 = match target {
            PrefixTarget::HL => match instruction {
                Instruction::RR(_) | Instruction::RRC(_) | Instruction::SRL(_) => 8,
                _ => 16,
            },
            _ => 8,
        };
        match target {
            PrefixTarget::HL => {
                // Read the value at the address in HL
                let address = self.registers.get_hl();
                let value = self.bus.bus_read(address);
                match instruction {
                    Instruction::BIT(bit, _) => self.bit(bit, value),
                    _ => {
                        let result = self.cb_compute(instruction, value);
                        // Write the modified value back to memory
                        self.bus.bus_write(address, result);
                    },
                }
            },
            _ => {
                let value = self.get_reg(target);
                match instruction {
                    Instruction::BIT(bit, _) => self.bit(bit, value),
                    _ => {
                        let result = self.cb_compute(instruction, value);
                        self.set_reg(target, result);
                    },
                }
            },
        }
        self.bus.timer.timer_tick(cycles);
        self.program_counter.wrapping_add(2)
    }
}


/// The value of a PUSH/POP register pair.
pub open spec fn stack_pair(s: CPU, t: StackTarget) -> u16 {
    match t {
        StackTarget::BC => s.registers.bc(),
        StackTarget::DE => s.registers.de(),
        StackTarget::HL => s.registers.hl(),
        StackTarget::AF => s.registers.af(),
    }
}

pub open spec fn with_stack_pair(s: CPU, t: StackTarget, v: u16) -> CPU {
    match t {
        StackTarget::BC => s.with_regs(s.registers.with_bc(v)),
        StackTarget::DE => s.with_regs(s.registers.with_de(v)),
        StackTarget::HL => s.with_regs(s.registers.with_hl(v)),
        StackTarget::AF => s.with_regs(s.registers.with_af(v)),
    }
}

/// The handler address of a restart.
pub open spec fn restart_address(t: RestartTarget) -> u16 {
    match t {
        RestartTarget::H00 => 0x00,
        RestartTarget::H08 => 0x08,
        RestartTarget::H10 => 0x10,
        RestartTarget::H18 => 0x18,
        RestartTarget::H20 => 0x20,
        RestartTarget::H28 => 0x28,
        RestartTarget::H30 => 0x30,
        RestartTarget::H38 => 0x38,
    }
}

/// The return address a restart pushes: the address of the RST itself for
/// 0x00, 0x08 and 0x10, the following address for the others.
pub open spec fn restart_return(s: CPU, t: RestartTarget) -> u16 {
    match t {
        RestartTarget::H00 | RestartTarget::H08 | RestartTarget::H10 => s.program_counter,
        _ => s.pc_plus(1),
    }
}

/// Cycles of a conditional jump, call or return, taken or not.
pub open spec fn control_cycles(s: CPU, i: Instruction) -> u32 {
    match i {
        Instruction::JP(test, JumpTarget::A16) => if test_holds(s.registers.f, test) { 16 } else { 12 },
        Instruction::JP(_, JumpTarget::HL) => 4,
        Instruction::JR(test) => if test_holds(s.registers.f, test) { 12 } else { 8 },
        Instruction::CALL(test) => if test_holds(s.registers.f, test) { 24 } else { 12 },
        Instruction::RET(test) => if test == JumpTest::Always {
            16
        } else if test_holds(s.registers.f, test) {
            20
        } else {
            8
        },
        Instruction::POP(_) => 12,
        _ => 16,
    }
}

/// Jumps, calls, returns, restarts and the stack instructions. Conditional
/// ones count their cycles first and then read their operand or the stack;
/// JR adds a signed offset to the address after it; CALL pushes the address
/// after it; RETI also sets IME.
pub open spec fn control_spec(s: CPU, i: Instruction) -> (CPU, u16) {
    let s1 = s.ticked(control_cycles(s, i));
    match i {
        Instruction::JP(test, JumpTarget::A16) => (
            s1,
            if test_holds(s.registers.f, test) { s1.imm16() } else { s.pc_plus(3) },
        ),
        Instruction::JP(_, JumpTarget::HL) => (s1, s.registers.hl()),
        Instruction::JR(test) => (
            s1,
            if test_holds(s.registers.f, test) {
                add16(s.program_counter + signed8(s1.imm8()), 2)
            } else {
                s.pc_plus(2)
            },
        ),
        Instruction::CALL(test) => if test_holds(s.registers.f, test) {
            let s2 = s1.push_spec(s.pc_plus(3));
            (s2, s2.imm16())
        } else {
            (s1, s.pc_plus(3))
        },
        Instruction::RET(test) => if test_holds(s.registers.f, test) {
            (s1.popped(), s1.pop_value())
        } else {
            (s1, s.pc_plus(1))
        },
        Instruction::RETI() => (
            CPU { bus: MemoryBus { ime: true, ..s.popped().bus }, ..s.popped() }.ticked(16),
            s.pop_value(),
        ),
        Instruction::RST(t) => (s.push_spec(restart_return(s, t)).ticked(16), restart_address(t)),
        Instruction::PUSH(t) => (s.push_spec(stack_pair(s, t)).ticked(16), s.pc_plus(1)),
        Instruction::POP(t) => (with_stack_pair(s.popped(), t, s.pop_value()).ticked(12), s.pc_plus(1)),
        _ => (s, s.program_counter),
    }
}

pub open spec fn control_ok(s: CPU, i: Instruction) -> bool {
    let taken = match i {
        Instruction::JP(test, _) | Instruction::JR(test) | Instruction::CALL(test) | Instruction::RET(test) => test_holds(s.registers.f, test),
        _ => true,
    };
    &&& s.can_tick(control_cycles(s, i))
    &&& match i {
        Instruction::JP(_, JumpTarget::A16) => taken ==> s.imm16_ok(),
        Instruction::JR(_) => taken ==> s.imm8_ok(),
        Instruction::CALL(_) => taken ==> s.push_ok(s.pc_plus(3)) && s.imm16_ok(),
        Instruction::RET(_) | Instruction::RETI() | Instruction::POP(_) => taken ==> s.pop_ok(),
        Instruction::RST(t) => s.push_ok(restart_return(s, t)),
        Instruction::PUSH(t) => s.push_ok(stack_pair(s, t)),
        _ => true,
    }
}

pub open spec fn is_control(i: Instruction) -> bool {
    match i {
        Instruction::JP(_, _) | Instruction::JR(_) | Instruction::CALL(_) | Instruction::RET(_)
        | Instruction::RETI() | Instruction::RST(_) | Instruction::PUSH(_) | Instruction::POP(_) => true,
        _ => false,
    }
}


impl CPU {
    #[verifier::spinoff_prover]
    fn jump_condition(&self, test: JumpTest) -> (r: bool)
        ensures
            r == test_holds(self.registers.f, test),
    {
        match test {
            JumpTest::NotZero => !self.registers.f.zero,
            JumpTest::NotCarry => !self.registers.f.carry,
            JumpTest::Zero => self.registers.f.zero,
            JumpTest::Carry => self.registers.f.carry,
            JumpTest::Always => true,
        }
    }

    #[verifier::spinoff_prover]
    fn jump(&mut self, should_jump: bool) -> (r: u16)
        requires
            should_jump ==> old(self).imm16_ok(),
        ensures
            r == if should_jump { old(self).imm16() } else { old(self).pc_plus(3) },
            *final(self) == *old(self),
    {
        if should_jump {
            self.read_next_word()
        } else {
            self.program_counter.wrapping_add(3)
        }
    }

    #[verifier::spinoff_prover]
    fn jr(&mut self, should_jump: bool) -> (r: u16)
        requires
            should_jump ==> old(self).imm8_ok(),
        ensures
            r == if should_jump {
                add16(old(self).program_counter + signed8(old(self).imm8()), 2)
            } else {
                old(self).pc_plus(2)
            },
            *final(self) == *old(self),
    {
        if should_jump {
            let r8 = self.read_next_byte();
            // Sign-extend the offset
            let offset: u16 = if r8 < 128 { r8 as u16 } else { r8 as u16 + 0xFF00 };
            let new_pc = self.program_counter.wrapping_add(offset);
            new_pc.wrapping_add(2)
        } else {
            self.program_counter.wrapping_add(2)
        }
    }

    #[verifier::spinoff_prover]
    fn call(&mut self, should_jump: bool) -> (r: u16)
        requires
            should_jump ==> old(self).push_ok(old(self).pc_plus(3)) && old(self).imm16_ok(),
        ensures
            should_jump ==> *final(self) == old(self).push_spec(old(self).pc_plus(3)) && r
                == final(self).imm16(),
            !should_jump ==> *final(self) == *old(self) && r == old(self).pc_plus(3),
    {
        let next_pc = self.program_counter.wrapping_add(3);
        if should_jump {
            self.push(next_pc);
            self.read_next_word()
        } else {
            next_pc
        }
    }

    #[verifier::spinoff_prover]
    fn return_(&mut self, should_jump: bool) -> (r: u16)
        requires
            should_jump ==> old(self).pop_ok(),
        ensures
            should_jump ==> *final(self) == old(self).popped() && r == old(self).pop_value(),
            !should_jump ==> *final(self) == *old(self) && r == old(self).pc_plus(1),
    {
        if should_jump {
            self.pop()
        } else {
            self.program_counter.wrapping_add(1)
        }
    }

    /// Runs a jump, call, return, restart or stack instruction.
    #[verifier::spinoff_prover]
    fn execute_control(&mut self, instruction: Instruction) -> (next_pc: u16)
        requires
            is_control(instruction),
            control_ok(*old(self), instruction),
        ensures
            (*final(self), next_pc) == control_spec(*old(self), instruction),
    {
        match instruction {
            Instruction::JP(test, JumpTarget::A16) => {
                let jump_condition = self.jump_condition(test);
                if jump_condition {
                    self.bus.timer.timer_tick(16);
                } else {
                    self.bus.timer.timer_tick(12);
                }
                self.jump(jump_condition)
            },
            Instruction::JP(_, _) => {
                self.bus.timer.timer_tick(4);
                self.registers.get_hl()
            },
            Instruction::JR(test) => {
                let jump_condition = self.jump_condition(test);
                if jump_condition {
                    self.bus.timer.timer_tick(12);
                } else {
                    self.bus.timer.timer_tick(8);
                }
                self.jr(jump_condition)
            },
            Instruction::CALL(test) => {
                let jump_condition = self.jump_condition(test);
                if jump_condition {
                    self.bus.timer.timer_tick(24);
                } else {
                    self.bus.timer.timer_tick(12);
                }
                self.call(jump_condition)
            },
            Instruction::RET(test) => {
                let jump_condition = self.jump_condition(test);
                match test {
                    JumpTest::Always => self.bus.timer.timer_tick(16),
                    _ => if jump_condition {
                        self.bus.timer.timer_tick(20);
                    } else {
                        self.bus.timer.timer_tick(8);
                    },
                }
                self.return_(jump_condition)
            },
            Instruction::RETI() => {
                let ret = self.return_(true);
                self.bus.ime = true;
                self.bus.timer.timer_tick(16);
                ret
            },
            Instruction::RST(restart) => {
                let ret = match restart {
                    RestartTarget::H00 | RestartTarget::H08 | RestartTarget::H10 => self.program_counter,
                    _ => self.program_counter.wrapping_add(1),
                };
                self.push(ret);
                self.bus.timer.timer_tick(16);
                match restart {
                    RestartTarget::H00 => 0x00,
                    RestartTarget::H08 => 0x08,
                    RestartTarget::H10 => 0x10,
                    RestartTarget::H18 => 0x18,
                    RestartTarget::H20 => 0x20,
                    RestartTarget::H28 => 0x28,
                    RestartTarget::H30 => 0x30,
                    RestartTarget::H38 => 0x38,
                }
            },
            Instruction::PUSH(target) => {
                let value = match target {
                    StackTarget::BC => self.registers.get_bc(),
                    StackTarget::DE => self.registers.get_de(),
                    StackTarget::HL => self.registers.get_hl(),
                    StackTarget::AF => self.registers.get_af(),
                };
                self.push(value);
                self.bus.timer.timer_tick(16);
                self.program_counter.wrapping_add(1)
            },
            _ => {
                // POP
                let result = self.pop();
                match instruction {
                    Instruction::POP(StackTarget::BC) => self.registers.set_bc(result),
                    Instruction::POP(StackTarget::DE) => self.registers.set_de(result),
                    Instruction::POP(StackTarget::HL) => self.registers.set_hl(result),
                    _ => self.registers.set_af(result),
                }
                self.bus.timer.timer_tick(12);
                self.program_counter.wrapping_add(1)
            },
        }
    }
}


/// The register named by a load source, if it names one.
pub open spec fn ld_src_reg(src: LoadByteSource) -> Option<PrefixTarget> {
    match src {
        LoadByteSource::A => Some(PrefixTarget::A),
        LoadByteSource::B => Some(PrefixTarget::B),
        LoadByteSource::C => Some(PrefixTarget::C),
        LoadByteSource::D => Some(PrefixTarget::D),
        LoadByteSource::E => Some(PrefixTarget::E),
        LoadByteSource::H => Some(PrefixTarget::H),
        LoadByteSource::L => Some(PrefixTarget::L),
        _ => None,
    }
}

/// The register named by a load target, if it names one.
pub open spec fn ld_dst_reg(t: LoadByteTarget) -> Option<PrefixTarget> {
    match t {
        LoadByteTarget::A => Some(PrefixTarget::A),
        LoadByteTarget::B => Some(PrefixTarget::B),
        LoadByteTarget::C => Some(PrefixTarget::C),
        LoadByteTarget::D => Some(PrefixTarget::D),
        LoadByteTarget::E => Some(PrefixTarget::E),
        LoadByteTarget::H => Some(PrefixTarget::H),
        LoadByteTarget::L => Some(PrefixTarget::L),
        _ => None,
    }
}

impl CPU {
    /// The CPU with one 8-bit register replaced, after `cycles` cycles.
    pub open spec fn set_reg_ticked(self, r: PrefixTarget, v: u8, cycles: u32) -> CPU {
        self.with_regs(set_r(self.registers, r, v)).ticked(cycles)
    }

    /// The address of a high-page operand: 0xFF00 plus a byte.
    pub open spec fn high_address(&self, low: u8) -> int {
        0xFF00 + low
    }
}

/// Loads into an 8-bit register other than A: from a register (4 cycles,
/// one byte), from (HL) (8, one) or from an immediate (8, two). For C any
/// other source only moves on one byte.
pub open spec fn ld_r_spec(s: CPU, r: PrefixTarget, src: LoadByteSource) -> (CPU, u16) {
    match ld_src_reg(src) {
        Some(q) => (s.set_reg_ticked(r, get_r(s.registers, q), 4), s.pc_plus(1)),
        None => match src {
            LoadByteSource::HL => (s.set_reg_ticked(r, s.read(s.registers.hl() as int), 8), s.pc_plus(1)),
            LoadByteSource::D8 => (s.set_reg_ticked(r, s.imm8(), 8), s.pc_plus(2)),
            _ => (s, s.pc_plus(1)),
        },
    }
}

pub open spec fn ld_r_ok(s: CPU, r: PrefixTarget, src: LoadByteSource) -> bool {
    match ld_src_reg(src) {
        Some(q) => s.can_tick(4),
        None => match src {
            LoadByteSource::HL => s.can_read(s.registers.hl() as int) && s.can_tick(8),
            LoadByteSource::D8 => s.imm8_ok() && s.can_tick(8),
            _ => r == PrefixTarget::C,
        },
    }
}

/// Loads into A: also from (BC), (DE), (HL+), (HL-), (a16), (0xFF00 + a8)
/// and (0xFF00 + C); SP and d16 sources only move on one byte.
pub open spec fn ld_a_spec(s: CPU, src: LoadByteSource) -> (CPU, u16) {
    let hl = s.registers.hl();
    let a = PrefixTarget::A;
    match src {
        LoadByteSource::BC => (s.set_reg_ticked(a, s.read(s.registers.bc() as int), 8), s.pc_plus(1)),
        LoadByteSource::DE => (s.set_reg_ticked(a, s.read(s.registers.de() as int), 8), s.pc_plus(1)),
        LoadByteSource::HLI => (
            s.with_regs(Registers { a: s.read(hl as int), ..s.registers }.with_hl(add16(hl as int, 1))).ticked(8),
            s.pc_plus(1),
        ),
        LoadByteSource::HLD => (
            s.with_regs(Registers { a: s.read(hl as int), ..s.registers }.with_hl(add16(hl as int, -1))).ticked(8),
            s.pc_plus(1),
        ),
        LoadByteSource::A8 => (s.set_reg_ticked(a, s.read(s.high_address(s.imm8())), 12), s.pc_plus(2)),
        LoadByteSource::A16 => (s.set_reg_ticked(a, s.read(s.imm16() as int), 16), s.pc_plus(3)),
        LoadByteSource::FF00C => (s.set_reg_ticked(a, s.read(s.high_address(s.registers.c)), 8), s.pc_plus(1)),
        _ => ld_r_spec(s, a, src),
    }
}

pub open spec fn ld_a_ok(s: CPU, src: LoadByteSource) -> bool {
    let hl = s.registers.hl();
    match src {
        LoadByteSource::BC => s.can_read(s.registers.bc() as int) && s.can_tick(8),
        LoadByteSource::DE => s.can_read(s.registers.de() as int) && s.can_tick(8),
        LoadByteSource::HLI | LoadByteSource::HLD => s.can_read(hl as int) && s.can_tick(8),
        LoadByteSource::A8 => s.imm8_ok() && s.can_read(s.high_address(s.imm8())) && s.can_tick(12),
        LoadByteSource::A16 => s.imm16_ok() && s.can_read(s.imm16() as int) && s.can_tick(16),
        LoadByteSource::FF00C => s.can_read(s.high_address(s.registers.c)) && s.can_tick(8),
        LoadByteSource::SP | LoadByteSource::D16 => true,
        _ => ld_r_ok(s, PrefixTarget::A, src),
    }
}

/// Stores A at (BC) or (DE) (8 cycles, one byte), or loads the pair with an
/// immediate word (12 cycles, three bytes).
#[verifier::opaque]
pub open spec fn ld_pair_spec(s: CPU, t: LoadByteTarget, src: LoadByteSource) -> (CPU, u16) {
    let pair = if t == LoadByteTarget::BC { s.registers.bc() } else { s.registers.de() };
    if src == LoadByteSource::A {
        (s.write(pair as int, s.registers.a).ticked(8), s.pc_plus(1))
    } else {
        let r = if t == LoadByteTarget::BC { s.registers.with_bc(s.imm16()) } else { s.registers.with_de(s.imm16()) };
        (s.with_regs(r).ticked(12), s.pc_plus(3))
    }
}

#[verifier::opaque]
pub open spec fn ld_pair_ok(s: CPU, t: LoadByteTarget, src: LoadByteSource) -> bool {
    let pair = if t == LoadByteTarget::BC { s.registers.bc() } else { s.registers.de() };
    (src == LoadByteSource::A && s.can_write(pair as int, s.registers.a) && s.can_tick(8)) || (src
        == LoadByteSource::D16 && s.imm16_ok() && s.can_tick(12))
}

/// Loads with HL as target: a register or an immediate stored at (HL) (8
/// cycles), an immediate word into HL (12), or SP plus a signed offset into
/// HL with its flags (12).
#[verifier::opaque]
pub open spec fn ld_hl_spec(s: CPU, src: LoadByteSource) -> (CPU, u16) {
    let hl = s.registers.hl();
    match ld_src_reg(src) {
        Some(q) => (s.write(hl as int, get_r(s.registers, q)).ticked(8), s.pc_plus(1)),
        None => match src {
            LoadByteSource::D16 => (s.with_regs(s.registers.with_hl(s.imm16())).ticked(12), s.pc_plus(3)),
            LoadByteSource::SP => {
                let (v, f) = add_offset(s.stack_pointer, s.imm8());
                (s.with_regs(Registers { f: f, ..s.registers }.with_hl(v)).ticked(12), s.pc_plus(2))
            },
            _ => (s.write(hl as int, s.imm8()).ticked(8), s.pc_plus(2)),
        },
    }
}

#[verifier::opaque]
pub open spec fn ld_hl_ok(s: CPU, src: LoadByteSource) -> bool {
    let hl = s.registers.hl();
    match ld_src_reg(src) {
        Some(q) => s.can_write(hl as int, get_r(s.registers, q)) && s.can_tick(8),
        None => match src {
            LoadByteSource::D16 => s.imm16_ok() && s.can_tick(12),
            LoadByteSource::SP => s.imm8_ok() && s.can_tick(12),
            LoadByteSource::D8 => s.imm8_ok() && s.can_write(hl as int, s.imm8()) && s.can_tick(8),
            _ => false,
        },
    }
}

/// Loads into SP: an immediate word (12 cycles) or HL (8).
#[verifier::opaque]
pub open spec fn ld_sp_spec(s: CPU, src: LoadByteSource) -> (CPU, u16) {
    if src == LoadByteSource::D16 {
        (CPU { stack_pointer: s.imm16(), ..s }.ticked(12), s.pc_plus(3))
    } else {
        (CPU { stack_pointer: s.registers.hl(), ..s }.ticked(8), s.pc_plus(1))
    }
}

#[verifier::opaque]
pub open spec fn ld_sp_ok(s: CPU, src: LoadByteSource) -> bool {
    (src == LoadByteSource::D16 && s.imm16_ok() && s.can_tick(12)) || (src == LoadByteSource::HL
        && s.can_tick(8))
}

/// Stores A at (HL) and steps HL up (HL+) or down (HL-), whatever the source.
#[verifier::opaque]
pub open spec fn ld_hl_step_spec(s: CPU, t: LoadByteTarget) -> (CPU, u16) {
    let hl = s.registers.hl();
    let delta: int = if t == LoadByteTarget::HLI { 1 } else { -1 };
    (s.write(hl as int, s.registers.a).with_regs(s.registers.with_hl(add16(hl as int, delta))).ticked(8), s.pc_plus(1))
}

#[verifier::opaque]
pub open spec fn ld_hl_step_ok(s: CPU) -> bool {
    s.can_write(s.registers.hl() as int, s.registers.a) && s.can_tick(8)
}

/// Stores A at (a16) (16 cycles), or SP at (a16) low byte first (20).
#[verifier::opaque]
pub open spec fn ld_a16_spec(s: CPU, src: LoadByteSource) -> (CPU, u16) {
    let w = s.imm16() as int;
    if src == LoadByteSource::A {
        (s.write(w, s.registers.a).ticked(16), s.pc_plus(3))
    } else {
        (
            s.write(w, (s.stack_pointer % 256) as u8).write(w + 1, (s.stack_pointer / 256) as u8).ticked(20),
            s.pc_plus(3),
        )
    }
}

#[verifier::opaque]
pub open spec fn ld_a16_ok(s: CPU, src: LoadByteSource) -> bool {
    let w = s.imm16() as int;
    s.imm16_ok() && ((src == LoadByteSource::A && s.can_write(w, s.registers.a) && s.can_tick(16)) || (src
        == LoadByteSource::SP && s.can_write(w, (s.stack_pointer % 256) as u8) && s.can_write(
        w + 1,
        (s.stack_pointer / 256) as u8,
    ) && s.can_tick(20)))
}

/// Stores A at (0xFF00 + a8) (12 cycles, two bytes) or (0xFF00 + C) (8,
/// one), whatever the source.
#[verifier::opaque]
pub open spec fn ld_high_spec(s: CPU, t: LoadByteTarget) -> (CPU, u16) {
    if t == LoadByteTarget::A8 {
        (s.write(s.high_address(s.imm8()), s.registers.a).ticked(12), s.pc_plus(2))
    } else {
        (s.write(s.high_address(s.registers.c), s.registers.a).ticked(8), s.pc_plus(1))
    }
}

#[verifier::opaque]
pub open spec fn ld_high_ok(s: CPU, t: LoadByteTarget) -> bool {
    if t == LoadByteTarget::A8 {
        s.imm8_ok() && s.can_write(s.high_address(s.imm8()), s.registers.a) && s.can_tick(12)
    } else {
        s.can_write(s.high_address(s.registers.c), s.registers.a) && s.can_tick(8)
    }
}

/// Loads into memory and into the 16-bit registers.
pub open spec fn ld_other_spec(s: CPU, t: LoadByteTarget, src: LoadByteSource) -> (CPU, u16) {
    match t {
        LoadByteTarget::BC | LoadByteTarget::DE => ld_pair_spec(s, t, src),
        LoadByteTarget::HL => ld_hl_spec(s, src),
        LoadByteTarget::SP => ld_sp_spec(s, src),
        LoadByteTarget::HLI | LoadByteTarget::HLD => ld_hl_step_spec(s, t),
        LoadByteTarget::A16 => ld_a16_spec(s, src),
        _ => ld_high_spec(s, t),
    }
}

pub open spec fn ld_other_ok(s: CPU, t: LoadByteTarget, src: LoadByteSource) -> bool {
    match t {
        LoadByteTarget::BC | LoadByteTarget::DE => ld_pair_ok(s, t, src),
        LoadByteTarget::HL => ld_hl_ok(s, src),
        LoadByteTarget::SP => ld_sp_ok(s, src),
        LoadByteTarget::HLI | LoadByteTarget::HLD => ld_hl_step_ok(s),
        LoadByteTarget::A16 => ld_a16_ok(s, src),
        LoadByteTarget::A8 | LoadByteTarget::FF00C => ld_high_ok(s, t),
        _ => false,
    }
}

/// The effect of a load (LD, and LDH which loads the same way).
pub open spec fn ld_spec(s: CPU, t: LoadByteTarget, src: LoadByteSource) -> (CPU, u16) {
    if t == LoadByteTarget::A {
        ld_a_spec(s, src)
    } else {
        match ld_dst_reg(t) {
            Some(r) => ld_r_spec(s, r, src),
            None => ld_other_spec(s, t, src),
        }
    }
}

pub open spec fn ld_ok(s: CPU, t: LoadByteTarget, src: LoadByteSource) -> bool {
    if t == LoadByteTarget::A {
        ld_a_ok(s, src)
    } else {
        match ld_dst_reg(t) {
            Some(r) => ld_r_ok(s, r, src),
            None => ld_other_ok(s, t, src),
        }
    }
}


impl CPU {
    /// Loads into an 8-bit register other than A.
    #[verifier::spinoff_prover]
    fn ld_r(&mut self, r: PrefixTarget, source: LoadByteSource) -> (next_pc: u16)
        requires
            r != PrefixTarget::HL,
            ld_r_ok(*old(self), r, source),
        ensures
            (*final(self), next_pc) == ld_r_spec(*old(self), r, source),
    {
        match source {
            LoadByteSource::HL => {
                let address = self.registers.get_hl();
                let value = self.bus.bus_read(address);
                self.set_reg(r, value);
                self.bus.timer.timer_tick(8);
                self.program_counter.wrapping_add(1)
            },
            LoadByteSource::D8 => {
                let value = self.read_next_byte();
                self.set_reg(r, value);
                self.bus.timer.timer_tick(8);
                self.program_counter.wrapping_add(2)
            },
            LoadByteSource::A | LoadByteSource::B | LoadByteSource::C | LoadByteSource::D
            | LoadByteSource::E | LoadByteSource::H | LoadByteSource::L => {
                let q = match source {
                    LoadByteSource::A => PrefixTarget::A,
                    LoadByteSource::B => PrefixTarget::B,
                    LoadByteSource::C => PrefixTarget::C,
                    LoadByteSource::D => PrefixTarget::D,
                    LoadByteSource::E => PrefixTarget::E,
                    LoadByteSource::H => PrefixTarget::H,
                    _ => PrefixTarget::L,
                };
                let value = self.get_reg(q);
                self.set_reg(r, value);
                self.bus.timer.timer_tick(4);
                self.program_counter.wrapping_add(1)
            },
            _ => self.program_counter.wrapping_add(1),
        }
    }

    /// Loads into A.
    #[verifier::spinoff_prover]
    fn ld_a(&mut self, source: LoadByteSource) -> (next_pc: u16)
        requires
            ld_a_ok(*old(self), source),
        ensures
            (*final(self), next_pc) == ld_a_spec(*old(self), source),
    {
        match source {
            LoadByteSource::BC => {
                self.registers.a = self.bus.bus_read(self.registers.get_bc());
                self.bus.timer.timer_tick(8);
                self.program_counter.wrapping_add(1)
            },
            LoadByteSource::DE => {
                self.registers.a = self.bus.bus_read(self.registers.get_de());
                self.bus.timer.timer_tick(8);
                self.program_counter.wrapping_add(1)
            },
            LoadByteSource::HLI => {
                self.registers.a = self.bus.bus_read(self.registers.get_hl());
                self.registers.set_hl(self.registers.get_hl().wrapping_add(1));
                self.bus.timer.timer_tick(8);
                self.program_counter.wrapping_add(1)
            },
            LoadByteSource::HLD => {
                self.registers.a = self.bus.bus_read(self.registers.get_hl());
                self.registers.set_hl(self.registers.get_hl().wrapping_sub(1));
                self.bus.timer.timer_tick(8);
                self.program_counter.wrapping_add(1)
            },
            LoadByteSource::A8 => {
                let low = self.read_next_byte();
                assert(0xFF00 | low as u16 == 0xFF00 + low) by (bit_vector);
                self.registers.a = self.bus.bus_read(0xFF00 | low as u16);
                self.bus.timer.timer_tick(12);
                self.program_counter.wrapping_add(2)
            },
            LoadByteSource::A16 => {
                let address = self.read_next_word();
                self.registers.a = self.bus.bus_read(address);
                self.bus.timer.timer_tick(16);
                self.program_counter.wrapping_add(3)
            },
            LoadByteSource::FF00C => {
                let low = self.registers.c;
                assert(0xFF00 | low as u16 == 0xFF00 + low) by (bit_vector);
                self.registers.a = self.bus.bus_read(0xFF00 | low as u16);
                self.bus.timer.timer_tick(8);
                self.program_counter.wrapping_add(1)
            },
            LoadByteSource::SP | LoadByteSource::D16 => self.program_counter.wrapping_add(1),
            _ => self.ld_r(PrefixTarget::A, source),
        }
    }

    /// Loads an immediate word into a register pair or SP.
    #[verifier::spinoff_prover]
    fn ld_wide_immediate(&mut self, target: LoadByteTarget) -> (next_pc: u16)
        requires
            target == LoadByteTarget::BC || target == LoadByteTarget::DE || target == LoadByteTarget::HL
                || target == LoadByteTarget::SP,
            ld_other_ok(*old(self), target, LoadByteSource::D16),
        ensures
            (*final(self), next_pc) == ld_other_spec(*old(self), target, LoadByteSource::D16),
    {
        reveal(ld_pair_spec);
        reveal(ld_pair_ok);
        reveal(ld_hl_spec);
        reveal(ld_hl_ok);
        reveal(ld_sp_spec);
        reveal(ld_sp_ok);
        let word = self.read_next_word();
        match target {
            LoadByteTarget::BC => self.registers.set_bc(word),
            LoadByteTarget::DE => self.registers.set_de(word),
            LoadByteTarget::HL => self.registers.set_hl(word),
            _ => self.stack_pointer = word,
        }
        self.bus.timer.timer_tick(12);
        self.program_counter.wrapping_add(3)
    }

    /// Loads HL into SP.
    #[verifier::spinoff_prover]
    fn ld_sp_hl(&mut self) -> (next_pc: u16)
        requires
            ld_other_ok(*old(self), LoadByteTarget::SP, LoadByteSource::HL),
        ensures
            (*final(self), next_pc) == ld_other_spec(*old(self), LoadByteTarget::SP, LoadByteSource::HL),
    {
        reveal(ld_sp_spec);
        reveal(ld_sp_ok);
        self.stack_pointer = self.registers.get_hl();
        self.bus.timer.timer_tick(8);
        self.program_counter.wrapping_add(1)
    }

    /// Loads SP plus a signed offset into HL.
    #[verifier::spinoff_prover]
    fn ld_hl_sp_offset(&mut self) -> (next_pc: u16)
        requires
            ld_other_ok(*old(self), LoadByteTarget::HL, LoadByteSource::SP),
        ensures
            (*final(self), next_pc) == ld_other_spec(*old(self), LoadByteTarget::HL, LoadByteSource::SP),
    {
        reveal(ld_hl_spec);
        reveal(ld_hl_ok);
        let n = self.read_next_byte();
        let (add, half, carry) = offset_add(self.stack_pointer, n);
        self.registers.set_hl(add);
        self.registers.f.zero = false;
        self.registers.f.subtract = false;
        self.registers.f.half_carry = half;
        self.registers.f.carry = carry;
        self.bus.timer.timer_tick(12);
        self.program_counter.wrapping_add(2)
    }

    /// Stores A at (BC) or (DE).
    #[verifier::spinoff_prover]
    fn ld_store_pair(&mut self, target: LoadByteTarget, source: LoadByteSource) -> (next_pc: u16)
        requires
            target == LoadByteTarget::BC || target == LoadByteTarget::DE,
            source != LoadByteSource::D16,
            ld_other_ok(*old(self), target, source),
        ensures
            (*final(self), next_pc) == ld_other_spec(*old(self), target, source),
    {
        reveal(ld_pair_spec);
        reveal(ld_pair_ok);
        let address = match target {
            LoadByteTarget::BC => self.registers.get_bc(),
            _ => self.registers.get_de(),
        };
        self.bus.bus_write(address, self.registers.a);
        self.bus.timer.timer_tick(8);
        self.program_counter.wrapping_add(1)
    }

    /// Stores A at (HL), then steps HL up (HL+) or down (HL-).
    #[verifier::spinoff_prover]
    fn ld_store_hl_step(&mut self, target: LoadByteTarget, source: LoadByteSource) -> (next_pc: u16)
        requires
            target == LoadByteTarget::HLI || target == LoadByteTarget::HLD,
            ld_other_ok(*old(self), target, source),
        ensures
            (*final(self), next_pc) == ld_other_spec(*old(self), target, source),
    {
        reveal(ld_hl_step_spec);
        reveal(ld_hl_step_ok);
        self.bus.bus_write(self.registers.get_hl(), self.registers.a);
        match target {
            LoadByteTarget::HLI => self.registers.set_hl(self.registers.get_hl().wrapping_add(1)),
            _ => self.registers.set_hl(self.registers.get_hl().wrapping_sub(1)),
        }
        self.bus.timer.timer_tick(8);
        self.program_counter.wrapping_add(1)
    }

    /// Stores A at (0xFF00 + a8) or (0xFF00 + C).
    #[verifier::spinoff_prover]
    fn ld_store_high(&mut self, target: LoadByteTarget, source: LoadByteSource) -> (next_pc: u16)
        requires
            target == LoadByteTarget::A8 || target == LoadByteTarget::FF00C,
            ld_other_ok(*old(self), target, source),
        ensures
            (*final(self), next_pc) == ld_other_spec(*old(self), target, source),
    {
        reveal(ld_high_spec);
        reveal(ld_high_ok);
        match target {
            LoadByteTarget::A8 => {
                let low = self.read_next_byte();
                assert(0xFF00 | low as u16 == 0xFF00 + low) by (bit_vector);
                self.bus.bus_write(0xFF00 | low as u16, self.registers.a);
                self.bus.timer.timer_tick(12);
                self.program_counter.wrapping_add(2)
            },
            _ => {
                let low = self.registers.c;
                assert(0xFF00 | low as u16 == 0xFF00 + low) by (bit_vector);
                self.bus.bus_write(0xFF00 | low as u16, self.registers.a);
                self.bus.timer.timer_tick(8);
                self.program_counter.wrapping_add(1)
            },
        }
    }

    /// Stores a register or an immediate at (HL).
    #[verifier::spinoff_prover]
    fn ld_store_hl(&mut self, source: LoadByteSource) -> (next_pc: u16)
        requires
            source != LoadByteSource::D16,
            source != LoadByteSource::SP,
            ld_other_ok(*old(self), LoadByteTarget::HL, source),
        ensures
            (*final(self), next_pc) == ld_other_spec(*old(self), LoadByteTarget::HL, source),
    {
        reveal(ld_hl_spec);
        reveal(ld_hl_ok);
        let value = match source {
            LoadByteSource::D8 => self.read_next_byte(),
            LoadByteSource::A => self.registers.a,
            LoadByteSource::B => self.registers.b,
            LoadByteSource::C => self.registers.c,
            LoadByteSource::D => self.registers.d,
            LoadByteSource::E => self.registers.e,
            LoadByteSource::H => self.registers.h,
            _ => self.registers.l,
        };
        self.bus.bus_write(self.registers.get_hl(), value);
        self.bus.timer.timer_tick(8);
        match source {
            LoadByteSource::D8 => self.program_counter.wrapping_add(2),
            _ => self.program_counter.wrapping_add(1),
        }
    }

    /// Stores A, or SP as two bytes, at (a16).
    #[verifier::spinoff_prover]
    fn ld_store_a16(&mut self, source: LoadByteSource) -> (next_pc: u16)
        requires
            ld_other_ok(*old(self), LoadByteTarget::A16, source),
        ensures
            (*final(self), next_pc) == ld_other_spec(*old(self), LoadByteTarget::A16, source),
    {
        reveal(ld_a16_spec);
        reveal(ld_a16_ok);
        let word = self.read_next_word();
        match source {
            LoadByteSource::A => {
                self.bus.bus_write(word, self.registers.a);
                self.bus.timer.timer_tick(16);
            },
            _ => {
                let sp = self.stack_pointer;
                self.bus.bus_write(word, (sp % 256) as u8);
                self.bus.bus_write(word.wrapping_add(1), (sp / 256) as u8);
                self.bus.timer.timer_tick(20);
            },
        }
        self.program_counter.wrapping_add(3)
    }

    /// Runs a load.
    #[verifier::spinoff_prover]
    fn execute_ld(&mut self, target: LoadByteTarget, source: LoadByteSource) -> (next_pc: u16)
        requires
            ld_ok(*old(self), target, source),
        ensures
            (*final(self), next_pc) == ld_spec(*old(self), target, source),
    {
        match target {
            LoadByteTarget::A => self.ld_a(source),
            LoadByteTarget::B => self.ld_r(PrefixTarget::B, source),
            LoadByteTarget::C => self.ld_r(PrefixTarget::C, source),
            LoadByteTarget::D => self.ld_r(PrefixTarget::D, source),
            LoadByteTarget::E => self.ld_r(PrefixTarget::E, source),
            LoadByteTarget::H => self.ld_r(PrefixTarget::H, source),
            LoadByteTarget::L => self.ld_r(PrefixTarget::L, source),
            LoadByteTarget::HLI | LoadByteTarget::HLD => self.ld_store_hl_step(target, source),
            LoadByteTarget::A16 => self.ld_store_a16(source),
            LoadByteTarget::A8 | LoadByteTarget::FF00C => self.ld_store_high(target, source),
            _ => match source {
                LoadByteSource::D16 => self.ld_wide_immediate(target),
                _ => match target {
                    LoadByteTarget::SP => {
                        proof {
                            reveal(ld_sp_ok);
                        }
                        self.ld_sp_hl()
                    },
                    LoadByteTarget::HL => match source {
                        LoadByteSource::SP => self.ld_hl_sp_offset(),
                        _ => self.ld_store_hl(source),
                    },
                    _ => self.ld_store_pair(target, source),
                },
            },
        }
    }
}

/// Cycles and length of an 8-bit ALU instruction on its operand.
#[verifier::spinoff_prover]
pub(crate) fn alu_cycles(target: ArithmeticTarget) -> (r: (u32, u16))
    ensures
        r.0 == alu_timing(target).0,
        r.1 == alu_timing(target).1,
{
    match target {
        ArithmeticTarget::HL => (8, 1),
        ArithmeticTarget::D8 => (8, 2),
        _ => (4, 1),
    }
}

/// A 16-bit value plus a signed byte offset, with the carries out of bits 3
/// and 7 of the low byte.
#[verifier::spinoff_prover]
fn offset_add(x: u16, n: u8) -> (r: (u16, bool, bool))
    ensures
        r.0 == add_offset(x, n).0,
        r.1 == add_offset(x, n).1.half_carry,
        r.2 == add_offset(x, n).1.carry,
{
    let nn: u32 = if n < 128 { n as u32 } else { n as u32 + 0xFFFF_FF00 };
    let xx = x as u32;
    let result = xx.wrapping_add(nn);
    proof {
        lemma_offset_bits(xx, n as u32, nn, result);
    }
    let half = (xx ^ nn ^ result) & 0x10 != 0;
    let carry = (xx ^ nn ^ result) & 0x100 != 0;
    ((result % 65536) as u16, half, carry)
}

proof fn lemma_offset_bits(x: u32, n: u32, nn: u32, r: u32)
    by (bit_vector)
    requires
        x < 65536,
        n < 256,
        n < 128 ==> nn == n,
        n >= 128 ==> nn == n + 0xFFFF_FF00,
        x + nn > 0xFFFF_FFFF ==> r == x + nn - 0x1_0000_0000,
        x + nn <= 0xFFFF_FFFF ==> r == x + nn,
    ensures
        ((x ^ nn ^ r) & 0x10 != 0) == ((x & 15) + (n & 15) > 15),
        ((x ^ nn ^ r) & 0x100 != 0) == ((x & 255) + n > 255),
        x & 15 == x % 16,
        n & 15 == n % 16,
        x & 255 == x % 256,
{
}


/// The effect of an instruction on a CPU whose interrupt state has been
/// advanced: the new state and the address of the next instruction.
pub open spec fn dispatch_spec(s: CPU, i: Instruction) -> (CPU, u16) {
    match i {
        Instruction::INC(t) => incdec_result(s, t, true),
        Instruction::DEC(t) => incdec_result(s, t, false),
        Instruction::LD(LoadType::Byte(t, src)) | Instruction::LDH(LoadType::Byte(t, src)) => ld_spec(s, t, src),
        _ => if is_alu(i) {
            alu_spec(s, i)
        } else if is_misc(i) {
            misc_spec(s, i)
        } else if is_cb(i) {
            cb_spec(s, i)
        } else {
            control_spec(s, i)
        },
    }
}

pub open spec fn dispatch_ok(s: CPU, i: Instruction) -> bool {
    match i {
        Instruction::INC(t) => incdec_result_ok(s, t, true),
        Instruction::DEC(t) => incdec_result_ok(s, t, false),
        Instruction::LD(LoadType::Byte(t, src)) | Instruction::LDH(LoadType::Byte(t, src)) => ld_ok(s, t, src),
        _ => if is_alu(i) {
            alu_ok(s, i)
        } else if is_misc(i) {
            misc_ok(s, i)
        } else if is_cb(i) {
            cb_ok(s, i)
        } else {
            control_ok(s, i)
        },
    }
}

impl CPU {
    /// The state in which an instruction runs: the delayed EI/DI counters
    /// advanced and the instruction's address recorded.
    pub open spec fn prepared(self) -> CPU {
        CPU { last_pc: self.program_counter, ..self.ime_updated() }
    }

    /// The effect of running an instruction at the program counter.
    pub open spec fn execute_spec(self, i: Instruction) -> (CPU, u16) {
        dispatch_spec(self.prepared(), i)
    }

    /// An instruction can run: it is one that the CPU implements with the
    /// operands given, its memory accesses can be served, the timer has room
    /// for its cycles, the EI/DI counters do not overflow, and bit numbers
    /// are below 8.
    pub open spec fn execute_ok(self, i: Instruction) -> bool {
        dispatch_ok(self.prepared(), i)
    }

    /// Runs one decoded instruction and returns the address of the next.
    #[verifier::spinoff_prover]
    pub fn execute(&mut self, instruction: Instruction) -> (next_pc: u16)
        requires
            old(self).execute_ok(instruction),
        ensures
            (*final(self), next_pc) == old(self).execute_spec(instruction),
    {
        self.update_ime();
        self.last_pc = self.program_counter;
        match instruction {
            Instruction::INC(target) => self.execute_incdec(target, true),
            Instruction::DEC(target) => self.execute_incdec(target, false),
            Instruction::LD(LoadType::Byte(target, source)) | Instruction::LDH(LoadType::Byte(target, source)) => self.execute_ld(
                target,
                source,
            ),
            Instruction::ADD(_) | Instruction::ADC(_) | Instruction::SUB(_) | Instruction::SBC(_)
            | Instruction::AND(_) | Instruction::OR(_) | Instruction::XOR(_) | Instruction::CP(_)
            | Instruction::ADDHL(_) => self.execute_alu(instruction),
            Instruction::CCF() | Instruction::SCF() | Instruction::RRA() | Instruction::RLA()
            | Instruction::RRCA() | Instruction::RLCA() | Instruction::CPL() | Instruction::DAA()
            | Instruction::NOP() | Instruction::HALT() | Instruction::STOP() | Instruction::EI()
            | Instruction::DI() | Instruction::PREFIX() => self.execute_misc(instruction),
            Instruction::RLC(_) | Instruction::RRC(_) | Instruction::RL(_) | Instruction::RR(_)
            | Instruction::SLA(_) | Instruction::SRA(_) | Instruction::SWAP(_) | Instruction::SRL(_)
            | Instruction::BIT(_, _) | Instruction::RES(_, _) | Instruction::SET(_, _) => self.execute_prefix(
                instruction,
            ),
            _ => self.execute_control(instruction),
        }
    }
}

/// A RET right after a taken CALL returns to the instruction after the CALL
/// and restores the stack pointer (when the two stack bytes lie in RAM). The
/// CALL jumps to the word after its opcode (when that word lies in ROM, where
/// the push cannot reach it).
pub proof fn lemma_call_then_ret(s: CPU, test: JumpTest)
    requires
        test_holds(s.registers.f, test),
        crate::cpu::is_ram(add16(s.stack_pointer as int, -1)),
        crate::cpu::is_ram(add16(s.stack_pointer as int, -2)),
    ensures
        ({
            let (c, target) = s.execute_spec(Instruction::CALL(test));
            let (r, back) = CPU { program_counter: target, ..c }.execute_spec(
                Instruction::RET(JumpTest::Always),
            );
            &&& back == add16(s.program_counter as int, 3)
            &&& r.stack_pointer == s.stack_pointer
            &&& (add16(s.program_counter + 1, 0) <= 0x7FFF && add16(s.program_counter + 2, 0) <= 0x7FFF)
                ==> target == s.imm16()
        }),
{
    let p = s.prepared();
    let s1 = p.ticked(24);
    let ret = p.pc_plus(3);
    let s2 = s1.push_spec(ret);
    s1.lemma_push_then_pop(ret);
    let c = s2;
    let t = CPU { program_counter: s2.imm16(), ..c };
    let q = t.prepared();
    let q1 = q.ticked(16);
    let sp2 = s2.stack_pointer;
    assert(add16(sp2 as int, 0) == sp2);
    assert(add16(sp2 + 1, 0) == add16(s.stack_pointer as int, -1));
    assert(sp2 == add16(s.stack_pointer as int, -2));
    s2.bus.lemma_ram_read_frame(q1.bus, sp2);
    s2.bus.lemma_ram_read_frame(q1.bus, add16(s.stack_pointer as int, -1));
    assert(q1.pop_value() == s2.pop_value());
    let a1 = add16(s.program_counter + 1, 0);
    let a2 = add16(s.program_counter + 2, 0);
    if a1 <= 0x7FFF && a2 <= 0x7FFF {
        assert(s2.bus.rom == s.bus.rom);
        assert(s2.read(s.program_counter + 1) == s.read(s.program_counter + 1)) by {
            reveal(MemoryBus::read_spec);
        }
        assert(s2.read(s.program_counter + 2) == s.read(s.program_counter + 2)) by {
            reveal(MemoryBus::read_spec);
        }
    }
}

proof fn lemma_loads_keep_countdowns(s: CPU, t: LoadByteTarget, src: LoadByteSource)
    ensures
        ld_spec(s, t, src).0.ei == s.ei,
        ld_spec(s, t, src).0.di == s.di,
{
    reveal(ld_pair_spec);
    reveal(ld_hl_spec);
    reveal(ld_sp_spec);
    reveal(ld_hl_step_spec);
    reveal(ld_a16_spec);
    reveal(ld_high_spec);
}

proof fn lemma_arithmetic_keeps_countdowns(s: CPU, i: Instruction)
    ensures
        alu_spec(s, i).0.ei == s.ei,
        alu_spec(s, i).0.di == s.di,
        cb_spec(s, i).0.ei == s.ei,
        cb_spec(s, i).0.di == s.di,
{
}

proof fn lemma_control_keeps_countdowns(s: CPU, i: Instruction)
    ensures
        control_spec(s, i).0.ei == s.ei,
        control_spec(s, i).0.di == s.di,
{
}

/// Only EI and DI start a countdown: every other instruction keeps both.
proof fn lemma_dispatch_keeps_countdowns(s: CPU, i: Instruction)
    requires
        i != Instruction::EI(),
        i != Instruction::DI(),
    ensures
        dispatch_spec(s, i).0.ei == s.ei,
        dispatch_spec(s, i).0.di == s.di,
{
    match i {
        Instruction::INC(t) => {},
        Instruction::DEC(t) => {},
        Instruction::LD(LoadType::Byte(t, src)) | Instruction::LDH(LoadType::Byte(t, src)) => {
            lemma_loads_keep_countdowns(s, t, src);
        },
        _ => {
            lemma_arithmetic_keeps_countdowns(s, i);
            lemma_control_keeps_countdowns(s, i);
        },
    }
}

/// EI takes effect one instruction late: the instruction right after EI
/// still runs with IME as it was, and the one after that runs with IME set
/// (when no EI or DI countdown was running before, and the instruction in
/// between is not another EI).
pub proof fn lemma_ei_delay(s: CPU, next: Instruction)
    requires
        s.ei == 0,
        s.di == 0,
        next != Instruction::EI(),
    ensures
        ({
            let (s1, pc1) = s.execute_spec(Instruction::EI());
            let t1 = CPU { program_counter: pc1, ..s1 };
            let (s2, pc2) = t1.execute_spec(next);
            &&& t1.prepared().bus.ime == s.bus.ime
            &&& (CPU { program_counter: pc2, ..s2 }).prepared().bus.ime
        }),
{
    let (s1, pc1) = s.execute_spec(Instruction::EI());
    let t1 = CPU { program_counter: pc1, ..s1 };
    assert(t1.ei == 3 && t1.di == 0);
    let p1 = t1.prepared();
    assert(p1.ei == 2 && p1.di == 0);
    if next != Instruction::DI() {
        lemma_dispatch_keeps_countdowns(p1, next);
    }
}

} // verus!

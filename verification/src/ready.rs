//! Tests, on the current state, of the conditions under which the CPU can
//! serve interrupts and run its next instruction: every memory access can be
//! served, the timer has room for the cycles, and the instruction is one that
//! the CPU implements with the operands given.

use vstd::prelude::*;
use crate::alu::{dec8, inc8};
use crate::cpu::{add16, dma_ok, read_ok, readable, MemoryBus, CPU};
use crate::execute::{
    alu_cycles, alu_ok, cb_cycles, cb_ok, cb_op, cb_target, control_cycles, control_ok, get_r,
    incdec_result_ok, ld_a16_ok, ld_a_ok, ld_hl_ok, ld_hl_step_ok, ld_high_ok, ld_ok, ld_other_ok,
    ld_pair_ok, ld_r_ok, ld_sp_ok, ld_src_reg, misc_ok, restart_return, stack_pair,
};
use crate::instruction::{
    decode, ArithmeticTarget, IncDecTarget, Instruction, JumpTarget, JumpTest, LoadByteSource,
    LoadByteTarget, LoadType, PrefixTarget, RestartTarget, StackTarget,
};

verus! {

impl MemoryBus {
    /// Reads do not depend on IME.
    pub proof fn lemma_read_ignores_ime(&self, ime: bool, address: u16)
        ensures
            (MemoryBus { ime: ime, ..*self }).read_spec(address) == self.read_spec(address),
    {
        reveal(MemoryBus::read_spec);
        reveal(MemoryBus::lcd_read_spec);
    }
}

/// Whether every read of a DMA transfer from page `start` can be served.
pub fn dma_readable(bus: &MemoryBus, start: u8) -> (r: bool)
    ensures
        r == dma_ok(bus.rom_len(), start),
{
    let base: u16 = start as u16 * 256;
    let mut i: u16 = 0;
    while i < 160
        invariant
            i <= 160,
            base == start * 256,
            forall|j: int| 0 <= j < i ==> #[trigger] read_ok(bus.rom_len(), start * 256 + j),
        decreases 160 - i,
    {
        if !readable(bus, base + i) {
            assert(!read_ok(bus.rom_len(), start * 256 + i));
            return false;
        }
        i = i + 1;
    }
    true
}

/// The state in which an instruction runs agrees with the current one on
/// everything the readiness of the instruction depends on, but the EI and
/// DI counters.
proof fn lemma_prepared_agrees(s: CPU)
    ensures
        s.prepared().bus.rom == s.bus.rom,
        s.prepared().bus.timer == s.bus.timer,
        s.prepared().registers == s.registers,
        s.prepared().program_counter == s.program_counter,
        s.prepared().stack_pointer == s.stack_pointer,
        forall|a: int| #[trigger] s.prepared().read(a) == s.read(a),
{
    let p = s.prepared();
    assert(p.bus == (MemoryBus { ime: p.bus.ime, ..s.bus }));
    assert forall|a: int| #[trigger] p.read(a) == s.read(a) by {
        s.bus.lemma_read_ignores_ime(p.bus.ime, add16(a, 0));
    }
}

impl CPU {
    /// Whether the timer has room for `cycles` more cycles.
    fn tick_room(&self, cycles: u32) -> (r: bool)
        ensures
            r == self.can_tick(cycles),
    {
        let t = &self.bus.timer;
        cycles <= u32::MAX - t.cycles_counter && cycles <= u32::MAX - t.tima_counter && cycles
            <= u32::MAX - t.div_counter
    }

    fn readable_at(&self, address: u16) -> (r: bool)
        ensures
            r == self.can_read(address as int),
    {
        assert(add16(address as int, 0) == address);
        readable(&self.bus, address)
    }

    fn writable_at(&self, address: u16, val: u8) -> (r: bool)
        ensures
            r == self.can_write(address as int, val),
    {
        assert(add16(address as int, 0) == address);
        address != 0xFF46 || dma_readable(&self.bus, val)
    }

    fn push_room(&self, val: u16) -> (r: bool)
        ensures
            r == self.push_ok(val),
    {
        let sp1 = self.stack_pointer.wrapping_sub(1);
        let sp2 = self.stack_pointer.wrapping_sub(2);
        assert(add16(self.stack_pointer - 1, 0) == sp1);
        assert(add16(self.stack_pointer - 2, 0) == sp2);
        let hi = (val / 256) as u8;
        let lo = (val % 256) as u8;
        self.writable_at(sp1, hi) && self.writable_at(sp2, lo)
    }

    fn pop_room(&self) -> (r: bool)
        ensures
            r == self.pop_ok(),
    {
        let sp1 = self.stack_pointer.wrapping_add(1);
        assert(add16(self.stack_pointer + 1, 0) == sp1);
        self.readable_at(self.stack_pointer) && self.readable_at(sp1)
    }

    fn imm8_room(&self) -> (r: bool)
        ensures
            r == self.imm8_ok(),
    {
        let a = self.program_counter.wrapping_add(1);
        assert(add16(self.program_counter + 1, 0) == a);
        self.readable_at(a)
    }

    fn imm16_room(&self) -> (r: bool)
        ensures
            r == self.imm16_ok(),
    {
        let a = self.program_counter.wrapping_add(2);
        assert(add16(self.program_counter + 2, 0) == a);
        self.imm8_room() && self.readable_at(a)
    }

    /// The value of an 8-bit register (0 for `HL`, which names memory).
    fn reg_value(&self, t: PrefixTarget) -> (r: u8)
        ensures
            r == get_r(self.registers, t),
    {
        match t {
            PrefixTarget::A => self.registers.a,
            PrefixTarget::B => self.registers.b,
            PrefixTarget::C => self.registers.c,
            PrefixTarget::D => self.registers.d,
            PrefixTarget::E => self.registers.e,
            PrefixTarget::H => self.registers.h,
            PrefixTarget::L => self.registers.l,
            PrefixTarget::HL => 0,
        }
    }

    /// Whether an 8-bit ALU operand can be read.
    fn alu_operand_room(&self, t: ArithmeticTarget) -> (r: bool)
        ensures
            r == self.alu_value_ok(t),
    {
        match t {
            ArithmeticTarget::A | ArithmeticTarget::B | ArithmeticTarget::C | ArithmeticTarget::D
            | ArithmeticTarget::E | ArithmeticTarget::H | ArithmeticTarget::L => true,
            ArithmeticTarget::HL => self.readable_at(self.registers.get_hl()),
            ArithmeticTarget::D8 => self.imm8_room(),
            _ => false,
        }
    }

    fn alu_ready(&self, i: Instruction) -> (r: bool)
        ensures
            r == alu_ok(*self, i),
    {
        match i {
            Instruction::ADD(t) => if t == ArithmeticTarget::SP {
                self.imm8_room() && self.tick_room(8)
            } else {
                self.alu_operand_room(t) && self.tick_room(alu_cycles(t).0)
            },
            Instruction::ADC(t) | Instruction::SUB(t) | Instruction::SBC(t) | Instruction::CP(t)
            | Instruction::OR(t) => self.alu_operand_room(t) && self.tick_room(alu_cycles(t).0),
            Instruction::AND(t) | Instruction::XOR(t) => match t {
                ArithmeticTarget::A | ArithmeticTarget::B | ArithmeticTarget::C | ArithmeticTarget::D
                | ArithmeticTarget::E | ArithmeticTarget::H | ArithmeticTarget::L
                | ArithmeticTarget::HL | ArithmeticTarget::D8 => self.alu_operand_room(t)
                    && self.tick_room(alu_cycles(t).0),
                _ => true,
            },
            Instruction::ADDHL(t) => match t {
                ArithmeticTarget::BC | ArithmeticTarget::DE | ArithmeticTarget::HL
                | ArithmeticTarget::SP => self.tick_room(8),
                _ => false,
            },
            _ => false,
        }
    }

    fn incdec_ready(&self, t: IncDecTarget, up: bool) -> (r: bool)
        ensures
            r == incdec_result_ok(*self, t, up),
    {
        match t {
            IncDecTarget::A | IncDecTarget::B | IncDecTarget::C | IncDecTarget::D | IncDecTarget::E
            | IncDecTarget::H | IncDecTarget::L => self.tick_room(4),
            IncDecTarget::HLP => {
                let hl = self.registers.get_hl();
                if !self.readable_at(hl) {
                    return false;
                }
                assert(add16(hl as int, 0) == hl);
                let v = self.bus.bus_read(hl);
                let w = if up { v.wrapping_add(1) } else { v.wrapping_sub(1) };
                assert(w == (if up { inc8(v, self.registers.f).0 } else { dec8(v, self.registers.f).0 }));
                self.writable_at(hl, w) && self.tick_room(12)
            },
            _ => self.tick_room(8),
        }
    }

    /// The EI and DI counters in the state in which the instruction runs.
    fn prepared_counters(&self) -> (r: (u8, u8))
        ensures
            r == (self.prepared().ei, self.prepared().di),
    {
        let di1 = if self.di > 1 { self.di - 1 } else { self.di };
        let di2 = if di1 == 1 { 0 } else { di1 };
        let ei1 = if self.ei > 1 { self.ei - 1 } else { self.ei };
        let ei2 = if ei1 == 1 { 0 } else { ei1 };
        (ei2, di2)
    }

    /// The value a CB instruction writes back for operand `v`.
    fn cb_result(&self, i: Instruction, v: u8) -> (r: u8)
        requires
            i is RES ==> i->RES_0 < 8,
            i is SET ==> i->SET_0 < 8,
        ensures
            r == cb_op(i, v, self.registers.f).0,
    {
        let c = self.registers.f.carry;
        let w = v as u16;
        match i {
            Instruction::RLC(_) => ((w * 2) % 256 + w / 128) as u8,
            Instruction::RRC(_) => (w / 2 + (w % 2) * 128) as u8,
            Instruction::RL(_) => ((w * 2) % 256 + if c { 1 } else { 0 }) as u8,
            Instruction::RR(_) => (w / 2 + if c { 128 } else { 0 }) as u8,
            Instruction::SLA(_) => ((w * 2) % 256) as u8,
            Instruction::SRA(_) => (w / 2 + (w / 128) * 128) as u8,
            Instruction::SWAP(_) => ((w % 16) * 16 + w / 16) as u8,
            Instruction::SRL(_) => (w / 2) as u8,
            Instruction::RES(b, _) => v & !(1u8 << b),
            Instruction::SET(b, _) => v | (1u8 << b),
            _ => v,
        }
    }

    fn cb_ready(&self, i: Instruction) -> (r: bool)
        ensures
            r == cb_ok(*self, i),
    {
        let (t, cycles_hl) = match i {
            Instruction::BIT(b, t) => {
                if b >= 8 {
                    return false;
                }
                (t, 16u32)
            },
            Instruction::RES(b, t) | Instruction::SET(b, t) => {
                if b >= 8 {
                    return false;
                }
                (t, 16u32)
            },
            Instruction::RR(t) | Instruction::RRC(t) | Instruction::SRL(t) => (t, 8u32),
            Instruction::RLC(t) | Instruction::RL(t) | Instruction::SLA(t) | Instruction::SRA(t)
            | Instruction::SWAP(t) => (t, 16u32),
            _ => (PrefixTarget::A, 8u32),
        };
        assert(t == cb_target(i));
        let cycles: u32 = if t == PrefixTarget::HL { cycles_hl } else { 8 };
        assert(cycles == cb_cycles(i));
        if t == PrefixTarget::HL {
            let hl = self.registers.get_hl();
            if !self.readable_at(hl) {
                return false;
            }
            if let Instruction::BIT(_, _) = i {
            } else {
                assert(add16(hl as int, 0) == hl);
                let v = self.bus.bus_read(hl);
                assert(v == self.cb_value(t));
                let w = self.cb_result(i, v);
                if !self.writable_at(hl, w) {
                    return false;
                }
            }
        }
        self.tick_room(cycles)
    }

    fn jump_taken(&self, test: JumpTest) -> (r: bool)
        ensures
            r == crate::execute::test_holds(self.registers.f, test),
    {
        match test {
            JumpTest::NotZero => !self.registers.f.zero,
            JumpTest::NotCarry => !self.registers.f.carry,
            JumpTest::Zero => self.registers.f.zero,
            JumpTest::Carry => self.registers.f.carry,
            JumpTest::Always => true,
        }
    }

    fn control_ready(&self, i: Instruction) -> (r: bool)
        ensures
            r == control_ok(*self, i),
    {
        match i {
            Instruction::JP(test, JumpTarget::A16) => {
                let taken = self.jump_taken(test);
                self.tick_room(if taken { 16 } else { 12 }) && (!taken || self.imm16_room())
            },
            Instruction::JP(_, _) => self.tick_room(4),
            Instruction::JR(test) => {
                let taken = self.jump_taken(test);
                self.tick_room(if taken { 12 } else { 8 }) && (!taken || self.imm8_room())
            },
            Instruction::CALL(test) => {
                let taken = self.jump_taken(test);
                let ret = self.program_counter.wrapping_add(3);
                assert(ret == self.pc_plus(3));
                self.tick_room(if taken { 24 } else { 12 }) && (!taken || (self.push_room(ret)
                    && self.imm16_room()))
            },
            Instruction::RET(test) => {
                let taken = self.jump_taken(test);
                let cycles: u32 = if test == JumpTest::Always {
                    16
                } else if taken {
                    20
                } else {
                    8
                };
                assert(cycles == control_cycles(*self, i));
                self.tick_room(cycles) && (!taken || self.pop_room())
            },
            Instruction::RETI() => self.tick_room(16) && self.pop_room(),
            Instruction::POP(_) => self.tick_room(12) && self.pop_room(),
            Instruction::RST(t) => {
                let ret = match t {
                    RestartTarget::H00 | RestartTarget::H08 | RestartTarget::H10 => self.program_counter,
                    _ => self.program_counter.wrapping_add(1),
                };
                assert(ret == restart_return(*self, t));
                self.tick_room(16) && self.push_room(ret)
            },
            Instruction::PUSH(t) => {
                let v = match t {
                    StackTarget::BC => self.registers.get_bc(),
                    StackTarget::DE => self.registers.get_de(),
                    StackTarget::HL => self.registers.get_hl(),
                    StackTarget::AF => self.registers.get_af(),
                };
                assert(v == stack_pair(*self, t));
                self.tick_room(16) && self.push_room(v)
            },
            _ => self.tick_room(16),
        }
    }

    /// Whether a load into an 8-bit register other than A can run.
    fn ld_r_ready(&self, r: PrefixTarget, src: LoadByteSource) -> (res: bool)
        ensures
            res == ld_r_ok(*self, r, src),
    {
        match src {
            LoadByteSource::A | LoadByteSource::B | LoadByteSource::C | LoadByteSource::D
            | LoadByteSource::E | LoadByteSource::H | LoadByteSource::L => self.tick_room(4),
            LoadByteSource::HL => self.readable_at(self.registers.get_hl()) && self.tick_room(8),
            LoadByteSource::D8 => self.imm8_room() && self.tick_room(8),
            _ => r == PrefixTarget::C,
        }
    }

    /// Whether a load into A can run.
    fn ld_a_ready(&self, src: LoadByteSource) -> (r: bool)
        ensures
            r == ld_a_ok(*self, src),
    {
        match src {
            LoadByteSource::BC => self.readable_at(self.registers.get_bc()) && self.tick_room(8),
            LoadByteSource::DE => self.readable_at(self.registers.get_de()) && self.tick_room(8),
            LoadByteSource::HLI | LoadByteSource::HLD => self.readable_at(self.registers.get_hl())
                && self.tick_room(8),
            LoadByteSource::A8 => {
                if !self.imm8_room() {
                    return false;
                }
                let low = self.read_next_byte();
                self.readable_at(0xFF00u16 + low as u16) && self.tick_room(12)
            },
            LoadByteSource::A16 => {
                if !self.imm16_room() {
                    return false;
                }
                let w = self.read_next_word();
                self.readable_at(w) && self.tick_room(16)
            },
            LoadByteSource::FF00C => self.readable_at(0xFF00u16 + self.registers.c as u16)
                && self.tick_room(8),
            LoadByteSource::SP | LoadByteSource::D16 => true,
            _ => self.ld_r_ready(PrefixTarget::A, src),
        }
    }

    /// Whether a load into memory or a 16-bit register can run.
    fn ld_other_ready(&self, t: LoadByteTarget, src: LoadByteSource) -> (r: bool)
        ensures
            r == ld_other_ok(*self, t, src),
    {
        let a = self.registers.a;
        let hl = self.registers.get_hl();
        match t {
            LoadByteTarget::BC | LoadByteTarget::DE => {
                reveal(ld_pair_ok);
                let pair = if t == LoadByteTarget::BC {
                    self.registers.get_bc()
                } else {
                    self.registers.get_de()
                };
                (src == LoadByteSource::A && self.writable_at(pair, a) && self.tick_room(8)) || (src
                    == LoadByteSource::D16 && self.imm16_room() && self.tick_room(12))
            },
            LoadByteTarget::HL => {
                reveal(ld_hl_ok);
                match src {
                    LoadByteSource::A | LoadByteSource::B | LoadByteSource::C | LoadByteSource::D
                    | LoadByteSource::E | LoadByteSource::H | LoadByteSource::L => {
                        let q = match src {
                            LoadByteSource::A => PrefixTarget::A,
                            LoadByteSource::B => PrefixTarget::B,
                            LoadByteSource::C => PrefixTarget::C,
                            LoadByteSource::D => PrefixTarget::D,
                            LoadByteSource::E => PrefixTarget::E,
                            LoadByteSource::H => PrefixTarget::H,
                            _ => PrefixTarget::L,
                        };
                        assert(ld_src_reg(src) == Some(q));
                        let v = self.reg_value(q);
                        self.writable_at(hl, v) && self.tick_room(8)
                    },
                    LoadByteSource::D16 => self.imm16_room() && self.tick_room(12),
                    LoadByteSource::SP => self.imm8_room() && self.tick_room(12),
                    LoadByteSource::D8 => {
                        if !self.imm8_room() {
                            return false;
                        }
                        let v = self.read_next_byte();
                        self.writable_at(hl, v) && self.tick_room(8)
                    },
                    _ => false,
                }
            },
            LoadByteTarget::SP => {
                reveal(ld_sp_ok);
                (src == LoadByteSource::D16 && self.imm16_room() && self.tick_room(12)) || (src
                    == LoadByteSource::HL && self.tick_room(8))
            },
            LoadByteTarget::HLI | LoadByteTarget::HLD => {
                reveal(ld_hl_step_ok);
                self.writable_at(hl, a) && self.tick_room(8)
            },
            LoadByteTarget::A16 => {
                reveal(ld_a16_ok);
                if !self.imm16_room() {
                    return false;
                }
                let w = self.read_next_word();
                let sp = self.stack_pointer;
                assert(add16(w + 1, 0) == w.wrapping_add(1));
                (src == LoadByteSource::A && self.writable_at(w, a) && self.tick_room(16)) || (src
                    == LoadByteSource::SP && self.writable_at(w, (sp % 256) as u8) && self.writable_at(
                    w.wrapping_add(1),
                    (sp / 256) as u8,
                ) && self.tick_room(20))
            },
            LoadByteTarget::A8 => {
                reveal(ld_high_ok);
                if !self.imm8_room() {
                    return false;
                }
                let low = self.read_next_byte();
                self.writable_at(0xFF00u16 + low as u16, a) && self.tick_room(12)
            },
            LoadByteTarget::FF00C => {
                reveal(ld_high_ok);
                self.writable_at(0xFF00u16 + self.registers.c as u16, a) && self.tick_room(8)
            },
            _ => false,
        }
    }

    fn ld_ready(&self, t: LoadByteTarget, src: LoadByteSource) -> (r: bool)
        ensures
            r == ld_ok(*self, t, src),
    {
        match t {
            LoadByteTarget::A => self.ld_a_ready(src),
            LoadByteTarget::B => self.ld_r_ready(PrefixTarget::B, src),
            LoadByteTarget::C => self.ld_r_ready(PrefixTarget::C, src),
            LoadByteTarget::D => self.ld_r_ready(PrefixTarget::D, src),
            LoadByteTarget::E => self.ld_r_ready(PrefixTarget::E, src),
            LoadByteTarget::H => self.ld_r_ready(PrefixTarget::H, src),
            LoadByteTarget::L => self.ld_r_ready(PrefixTarget::L, src),
            _ => self.ld_other_ready(t, src),
        }
    }

    /// Whether `instruction` can run now: in the state in which it runs (the
    /// EI and DI counters advanced), its memory accesses can be served, the
    /// timer has room for its cycles, the counters do not overflow, and it
    /// is one the CPU implements with the operands given.
    pub fn can_execute(&self, instruction: Instruction) -> (r: bool)
        ensures
            r == self.execute_ok(instruction),
    {
        let ghost s = self.prepared();
        proof {
            lemma_prepared_agrees(*self);
        }
        match instruction {
            Instruction::INC(t) => {
                assert(incdec_result_ok(s, t, true) == incdec_result_ok(*self, t, true));
                self.incdec_ready(t, true)
            },
            Instruction::DEC(t) => {
                assert(incdec_result_ok(s, t, false) == incdec_result_ok(*self, t, false));
                self.incdec_ready(t, false)
            },
            Instruction::LD(LoadType::Byte(t, src)) | Instruction::LDH(LoadType::Byte(t, src)) => {
                proof {
                    reveal(ld_pair_ok);
                    reveal(ld_hl_ok);
                    reveal(ld_sp_ok);
                    reveal(ld_hl_step_ok);
                    reveal(ld_a16_ok);
                    reveal(ld_high_ok);
                }
                assert(ld_ok(s, t, src) == ld_ok(*self, t, src));
                self.ld_ready(t, src)
            },
            Instruction::ADD(_) | Instruction::ADC(_) | Instruction::SUB(_) | Instruction::SBC(_)
            | Instruction::AND(_) | Instruction::OR(_) | Instruction::XOR(_) | Instruction::CP(_)
            | Instruction::ADDHL(_) => {
                assert(alu_ok(s, instruction) == alu_ok(*self, instruction));
                self.alu_ready(instruction)
            },
            Instruction::CCF() | Instruction::SCF() | Instruction::RRA() | Instruction::RLA()
            | Instruction::RRCA() | Instruction::RLCA() | Instruction::CPL() | Instruction::DAA()
            | Instruction::NOP() | Instruction::HALT() | Instruction::STOP() | Instruction::EI()
            | Instruction::DI() | Instruction::PREFIX() => {
                let (ei, di) = self.prepared_counters();
                let counters_fit = match instruction {
                    Instruction::EI() => ei <= 252,
                    Instruction::DI() => di <= 252,
                    _ => true,
                };
                assert(misc_ok(s, instruction) == (s.can_tick(4) && counters_fit));
                self.tick_room(4) && counters_fit
            },
            Instruction::RLC(_) | Instruction::RRC(_) | Instruction::RL(_) | Instruction::RR(_)
            | Instruction::SLA(_) | Instruction::SRA(_) | Instruction::SWAP(_) | Instruction::SRL(_)
            | Instruction::BIT(_, _) | Instruction::RES(_, _) | Instruction::SET(_, _) => {
                assert(cb_ok(s, instruction) == cb_ok(*self, instruction));
                self.cb_ready(instruction)
            },
            _ => {
                assert(control_ok(s, instruction) == control_ok(*self, instruction));
                self.control_ready(instruction)
            },
        }
    }

    /// Whether the next step can run: the instruction at the program counter
    /// can be fetched, is an opcode of the tables, and can be executed.
    pub fn can_step(&self) -> (r: bool)
        ensures
            r == self.step_ok(),
    {
        assert(add16(self.program_counter as int, 0) == self.program_counter);
        if !readable(&self.bus, self.program_counter) {
            return false;
        }
        let opcode = self.bus.bus_read(self.program_counter);
        if opcode == 0xCB {
            if self.program_counter == 0xFFFF {
                return false;
            }
            assert(add16(self.program_counter + 1, 0) == self.program_counter + 1);
            if !readable(&self.bus, self.program_counter + 1) {
                return false;
            }
        }
        match self.next_instruction() {
            Some(instruction) => self.can_execute(instruction),
            None => false,
        }
    }

    /// Whether interrupt handling can run: when an interrupt is to be
    /// served, the timer has room for four cycles and the return address can
    /// be pushed.
    pub fn can_serve_interrupts(&self) -> (r: bool)
        ensures
            r == self.interrupts_ok(),
    {
        let mut req = self.bus.if_reg;
        if self.bus.ppu.vblank_interrupt == 1 {
            req = req | 1;
        }
        if self.bus.ppu.stat_interrupt == 1 {
            req = req | 2;
        }
        if self.bus.timer.timer_interrupt == 1 {
            req = req | 4;
        }
        if self.jpad_interrupt {
            req = req | 16;
        }
        assert(req == self.requested_flags());
        if self.bus.ime && self.bus.ie & req != 0 {
            self.tick_room(4) && self.push_room(self.last_pc)
        } else {
            true
        }
    }
}

/// A state in which every memory access of an instruction can be served:
/// a 32 KB ROM of zero bytes with the program counter at 0x100, BC, DE and
/// HL at the start of work RAM and SP inside it, the timer's counters and
/// the EI/DI countdowns at 0.
pub open spec fn roomy(s: CPU) -> bool {
    &&& s.bus.rom@.len() == 0x8000
    &&& forall|i: int| 0 <= i < 0x8000 ==> #[trigger] s.bus.rom@[i] == 0
    &&& s.program_counter == 0x100
    &&& s.registers.b == 0xC0 && s.registers.c == 0
    &&& s.registers.d == 0xC0 && s.registers.e == 0
    &&& s.registers.h == 0xC0 && s.registers.l == 0
    &&& s.stack_pointer == 0xD000
    &&& s.bus.timer.cycles_counter == 0 && s.bus.timer.tima_counter == 0
    &&& s.bus.timer.div_counter == 0
    &&& s.ei == 0 && s.di == 0
}

/// What the readiness of an instruction in a roomy state rests on.
proof fn lemma_roomy_facts(s: CPU)
    requires
        roomy(s),
    ensures
        s.read(0x101) == 0,
        s.read(0x102) == 0,
        s.registers.hl() == 0xC000,
        s.registers.bc() == 0xC000,
        s.registers.de() == 0xC000,
        s.prepared() == (CPU { last_pc: s.program_counter, ..s }),
{
    reveal(MemoryBus::read_spec);
    assert(s.bus.rom@[0x101] == 0 && s.bus.rom@[0x102] == 0);
}

#[verifier::spinoff_prover]
proof fn lemma_prefixed_execute(s: CPU, byte: u8)
    requires
        roomy(s),
        decode(byte, true) is Some,
    ensures
        s.execute_ok(decode(byte, true)->0),
{
    lemma_roomy_facts(s);
}

#[verifier::spinoff_prover]
proof fn lemma_load_block_execute(s: CPU, byte: u8)
    requires
        roomy(s),
        0x40 <= byte < 0x80,
    ensures
        s.execute_ok(decode(byte, false)->0),
{
    lemma_roomy_facts(s);
    reveal(ld_hl_ok);
}

#[verifier::spinoff_prover]
proof fn lemma_alu_block_execute(s: CPU, byte: u8)
    requires
        roomy(s),
        0x81 <= byte < 0xC0,
    ensures
        s.execute_ok(decode(byte, false)->0),
{
    lemma_roomy_facts(s);
}

#[verifier::spinoff_prover]
#[verifier::rlimit(50)]
proof fn lemma_low_table_execute(s: CPU, byte: u8)
    requires
        roomy(s),
        byte < 0x40,
        decode(byte, false) is Some,
    ensures
        s.execute_ok(decode(byte, false)->0),
{
    lemma_roomy_facts(s);
    reveal(MemoryBus::read_spec);
    reveal(ld_pair_ok);
    reveal(ld_hl_ok);
    reveal(ld_sp_ok);
    reveal(ld_hl_step_ok);
    reveal(ld_a16_ok);
}

#[verifier::spinoff_prover]
proof fn lemma_control_table_execute(s: CPU, byte: u8)
    requires
        roomy(s),
        0xC0 <= byte < 0xE0,
        decode(byte, false) is Some,
    ensures
        s.execute_ok(decode(byte, false)->0),
{
    lemma_roomy_facts(s);
}

#[verifier::spinoff_prover]
#[verifier::rlimit(50)]
proof fn lemma_high_page_table_execute(s: CPU, byte: u8)
    requires
        roomy(s),
        0xE0 <= byte,
        decode(byte, false) is Some,
    ensures
        s.execute_ok(decode(byte, false)->0),
{
    lemma_roomy_facts(s);
    reveal(MemoryBus::read_spec);
    reveal(ld_hl_ok);
    reveal(ld_sp_ok);
    reveal(ld_a16_ok);
    reveal(ld_high_ok);
}

/// Decoding and execution agree: in a roomy state, every instruction that
/// the tables decode can be executed.
pub proof fn lemma_decoded_instructions_execute(s: CPU, byte: u8, prefixed: bool)
    requires
        roomy(s),
        decode(byte, prefixed) is Some,
    ensures
        s.execute_ok(decode(byte, prefixed)->0),
{
    if prefixed {
        lemma_prefixed_execute(s, byte);
    } else if 0x40 <= byte < 0x80 {
        lemma_load_block_execute(s, byte);
    } else if 0x80 <= byte < 0xC0 {
        lemma_alu_block_execute(s, byte);
    } else if byte < 0x40 {
        lemma_low_table_execute(s, byte);
    } else if byte < 0xE0 {
        lemma_control_table_execute(s, byte);
    } else {
        lemma_high_page_table_execute(s, byte);
    }
}

} // verus!

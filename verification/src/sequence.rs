//! Laws over single instructions and short runs of them: conditional
//! control transfers, and a POP after a PUSH.

use vstd::prelude::*;
use crate::cpu::{add16, is_ram, CPU};
use crate::alu::signed8;
use crate::execute::{stack_pair, with_stack_pair};
use crate::instruction::{Instruction, JumpTarget, JumpTest, StackTarget};

verus! {

proof fn lemma_push_effect(s: CPU, t: StackTarget)
    ensures
        s.execute_spec(Instruction::PUSH(t)) == (
            s.prepared().push_spec(stack_pair(s, t)).ticked(16),
            add16(s.program_counter as int, 1),
        ),
{
    assert(stack_pair(s.prepared(), t) == stack_pair(s, t));
}

proof fn lemma_pop_effect(s: CPU, t: StackTarget)
    ensures
        s.execute_spec(Instruction::POP(t)) == (
            with_stack_pair(s.prepared().popped(), t, s.prepared().pop_value()).ticked(12),
            add16(s.program_counter as int, 1),
        ),
{
}

/// The stack after a push of `v`, some cycles, and a pop into `popped`.
proof fn lemma_stack_round_trip(p: CPU, v: u16, pc: u16, popped: StackTarget)
    requires
        is_ram(add16(p.stack_pointer as int, -1)),
        is_ram(add16(p.stack_pointer as int, -2)),
    ensures
        ({
            let s1 = p.push_spec(v);
            let q = (CPU { program_counter: pc, ..s1.ticked(16) }).prepared();
            let r = with_stack_pair(q.popped(), popped, q.pop_value()).ticked(12);
            &&& q.pop_value() == v
            &&& r.stack_pointer == p.stack_pointer
            &&& r.registers == with_stack_pair(p, popped, v).registers
            &&& r.read(p.stack_pointer - 1) == (v / 256) as u8
            &&& r.read(p.stack_pointer - 2) == (v % 256) as u8
        }),
{
    let s1 = p.push_spec(v);
    let q = (CPU { program_counter: pc, ..s1.ticked(16) }).prepared();
    let r = with_stack_pair(q.popped(), popped, q.pop_value()).ticked(12);
    let sp1 = add16(p.stack_pointer as int, -1);
    let sp2 = add16(p.stack_pointer as int, -2);
    p.lemma_push_then_pop(v);
    assert(add16(p.stack_pointer - 1, 0) == sp1);
    assert(add16(p.stack_pointer - 2, 0) == sp2);
    assert(add16(sp2 as int, 0) == sp2);
    assert(add16(sp2 + 1, 0) == sp1);
    s1.bus.lemma_ram_read_frame(q.bus, sp2);
    s1.bus.lemma_ram_read_frame(q.bus, sp1);
    assert(q.pop_value() == s1.pop_value());
    let s0 = CPU { stack_pointer: sp2, ..p };
    let w1 = s0.write(sp1 as int, (v / 256) as u8);
    s0.bus.lemma_read_after_write(sp1, (v / 256) as u8);
    w1.bus.lemma_read_after_write(sp2, (v % 256) as u8);
    w1.bus.lemma_write_keeps_other_ram(sp2, sp1, (v % 256) as u8);
    s1.bus.lemma_ram_read_frame(r.bus, sp1);
    s1.bus.lemma_ram_read_frame(r.bus, sp2);
}

/// A POP right after a PUSH (when the two stack bytes lie in RAM): each
/// moves on one byte, the popped pair takes the pushed value (F only its
/// high nibble) while the other registers keep theirs, SP is restored, and
/// the pushed high byte stays at SP - 1 and the low byte at SP - 2.
pub proof fn lemma_push_then_pop_pairs(s: CPU, pushed: StackTarget, popped: StackTarget)
    requires
        is_ram(add16(s.stack_pointer as int, -1)),
        is_ram(add16(s.stack_pointer as int, -2)),
    ensures
        ({
            let v = stack_pair(s, pushed);
            let (c, pc1) = s.execute_spec(Instruction::PUSH(pushed));
            let (r, pc2) = (CPU { program_counter: pc1, ..c }).execute_spec(Instruction::POP(popped));
            &&& pc1 == add16(s.program_counter as int, 1)
            &&& pc2 == add16(pc1 as int, 1)
            &&& r.stack_pointer == s.stack_pointer
            &&& r.registers == with_stack_pair(s, popped, v).registers
            &&& popped != StackTarget::AF ==> stack_pair(r, popped) == v
            &&& r.read(s.stack_pointer - 1) == (v / 256) as u8
            &&& r.read(s.stack_pointer - 2) == (v % 256) as u8
        }),
{
    let v = stack_pair(s, pushed);
    let p = s.prepared();
    lemma_push_effect(s, pushed);
    let pc1 = add16(s.program_counter as int, 1);
    let t = CPU { program_counter: pc1, ..p.push_spec(v).ticked(16) };
    lemma_pop_effect(t, popped);
    lemma_stack_round_trip(p, v, pc1, popped);
    crate::register::lemma_pair_write_read(s.registers, v);
}

/// Whether a jump condition holds: C when the carry flag is set, NC when it
/// is clear, Z when the zero flag is set, NZ when it is clear.
pub open spec fn condition_met(s: CPU, test: JumpTest) -> bool {
    let f = s.registers.f;
    if test == JumpTest::Carry {
        f.carry
    } else if test == JumpTest::NotCarry {
        !f.carry
    } else if test == JumpTest::Zero {
        f.zero
    } else if test == JumpTest::NotZero {
        !f.zero
    } else {
        true
    }
}

proof fn lemma_condition_met(s: CPU, test: JumpTest)
    ensures
        crate::execute::test_holds(s.prepared().registers.f, test) == condition_met(s, test),
{
}

proof fn lemma_jp_effect(s: CPU, test: JumpTest)
    requires
        add16(s.program_counter + 1, 0) <= 0x7FFF,
        add16(s.program_counter + 2, 0) <= 0x7FFF,
    ensures
        s.execute_spec(Instruction::JP(test, JumpTarget::A16)).1 == (if condition_met(s, test) {
            s.imm16()
        } else {
            add16(s.program_counter as int, 3)
        }),
        s.execute_spec(Instruction::JP(test, JumpTarget::A16)).0.bus.timer.cycles_counter == (
        s.bus.timer.cycles_counter + (if condition_met(s, test) { 16int } else { 12 })) as u32,
{
    reveal(crate::timer::Timer::tick_spec);
    lemma_condition_met(s, test);
    let p = s.prepared();
    let jp = p.ticked(if condition_met(s, test) { 16 } else { 12 });
    s.bus.lemma_rom_read_frame(jp.bus, add16(s.program_counter + 1, 0));
    s.bus.lemma_rom_read_frame(jp.bus, add16(s.program_counter + 2, 0));
}

proof fn lemma_jr_effect(s: CPU, test: JumpTest)
    requires
        add16(s.program_counter + 1, 0) <= 0x7FFF,
    ensures
        s.execute_spec(Instruction::JR(test)).1 == (if condition_met(s, test) {
            add16(s.program_counter + signed8(s.imm8()), 2)
        } else {
            add16(s.program_counter as int, 2)
        }),
{
    lemma_condition_met(s, test);
    let p = s.prepared();
    let jr = p.ticked(if condition_met(s, test) { 12 } else { 8 });
    s.bus.lemma_rom_read_frame(jr.bus, add16(s.program_counter + 1, 0));
}

proof fn lemma_call_effect(s: CPU, test: JumpTest)
    requires
        add16(s.program_counter + 1, 0) <= 0x7FFF,
        add16(s.program_counter + 2, 0) <= 0x7FFF,
    ensures
        s.execute_spec(Instruction::CALL(test)).1 == (if condition_met(s, test) {
            s.imm16()
        } else {
            add16(s.program_counter as int, 3)
        }),
{
    broadcast use crate::cpu::MemoryBus::lemma_write_frame;

    lemma_condition_met(s, test);
    let p = s.prepared();
    let call = p.ticked(24).push_spec(p.pc_plus(3));
    s.bus.lemma_rom_read_frame(call.bus, add16(s.program_counter + 1, 0));
    s.bus.lemma_rom_read_frame(call.bus, add16(s.program_counter + 2, 0));
}

proof fn lemma_ret_effect(s: CPU, test: JumpTest)
    requires
        is_ram(add16(s.stack_pointer as int, 0)),
        is_ram(add16(s.stack_pointer + 1, 0)),
    ensures
        s.execute_spec(Instruction::RET(test)).1 == (if condition_met(s, test) {
            s.pop_value()
        } else {
            add16(s.program_counter as int, 1)
        }),
{
    lemma_condition_met(s, test);
    let p = s.prepared();
    let ret = p.ticked(if test == JumpTest::Always { 16 } else { 20 });
    s.bus.lemma_ram_read_frame(ret.bus, add16(s.stack_pointer as int, 0));
    s.bus.lemma_ram_read_frame(ret.bus, add16(s.stack_pointer + 1, 0));
}

/// Conditional jumps, calls and returns are taken exactly when their
/// condition on the flags holds (see `condition_met`). JP goes to the
/// immediate word in 16 cycles or on to PC + 3 in 12; JR to PC + 2 plus the
/// signed offset, or PC + 2; CALL to the immediate word or PC + 3; RET to the
/// word on the stack or PC + 1. (The operand bytes lie in ROM and the stack
/// bytes in RAM.)
pub proof fn lemma_conditional_control(s: CPU, test: JumpTest)
    requires
        add16(s.program_counter + 1, 0) <= 0x7FFF,
        add16(s.program_counter + 2, 0) <= 0x7FFF,
        is_ram(add16(s.stack_pointer as int, 0)),
        is_ram(add16(s.stack_pointer + 1, 0)),
    ensures
        ({
            let taken = condition_met(s, test);
            let pc = s.program_counter as int;
            &&& s.execute_spec(Instruction::JP(test, JumpTarget::A16)).1 == (if taken {
                s.imm16()
            } else {
                add16(pc, 3)
            })
            &&& s.execute_spec(Instruction::JP(test, JumpTarget::A16)).0.bus.timer.cycles_counter == (
            s.bus.timer.cycles_counter + (if taken { 16int } else { 12 })) as u32
            &&& s.execute_spec(Instruction::JR(test)).1 == (if taken {
                add16(pc + signed8(s.imm8()), 2)
            } else {
                add16(pc, 2)
            })
            &&& s.execute_spec(Instruction::CALL(test)).1 == (if taken {
                s.imm16()
            } else {
                add16(pc, 3)
            })
            &&& s.execute_spec(Instruction::RET(test)).1 == (if taken {
                s.pop_value()
            } else {
                add16(pc, 1)
            })
        }),
{
    lemma_jp_effect(s, test);
    lemma_jr_effect(s, test);
    lemma_call_effect(s, test);
    lemma_ret_effect(s, test);
}

} // verus!

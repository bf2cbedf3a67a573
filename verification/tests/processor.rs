use gbemu::cpu::CPU;
use gbemu::instruction::{ArithmeticTarget, Instruction, LoadByteSource, LoadByteTarget, LoadType};
use gbemu::machine::CycleOutcome;
use gbemu::register::FlagsRegister;

/// A 32 KB ROM of NOPs with `program` at 0x100.
fn rom_with(program: &[u8]) -> Vec<u8> {
    let mut rom = vec![0u8; 0x8000];
    for (i, b) in program.iter().enumerate() {
        rom[0x100 + i] = *b;
    }
    rom
}

fn run(cpu: &mut CPU, steps: usize) {
    for _ in 0..steps {
        assert!(cpu.can_step());
        cpu.step();
    }
}

#[test]
fn starts_in_the_post_boot_state() {
    let cpu = CPU::new(rom_with(&[]));
    assert_eq!(cpu.program_counter, 0x0100);
    assert_eq!(cpu.stack_pointer, 0xFFFE);
    assert_eq!(cpu.registers.a, 0x01);
    assert_eq!(cpu.registers.get_bc(), 0x0013);
    assert_eq!(cpu.registers.get_de(), 0x00D8);
    assert_eq!(cpu.registers.get_hl(), 0x014D);
    assert_eq!(cpu.registers.get_af(), 0x01B0);
    assert!(!cpu.bus.ime);
    assert_eq!(cpu.bus.joypad, 0b0011_1111);
}

#[test]
fn flags_register_packs_into_the_high_nibble() {
    let f = FlagsRegister { zero: true, subtract: false, half_carry: true, carry: true };
    assert_eq!(f.to_byte(), 0xB0);
    let g = FlagsRegister::from_byte(0x5F);
    assert!(!g.zero && g.subtract && !g.half_carry && g.carry);
    assert_eq!(g.to_byte(), 0x50);
    for b in [0x00u8, 0x10, 0x20, 0x40, 0x80, 0xF0] {
        assert_eq!(FlagsRegister::from_byte(b).to_byte(), b);
    }
}

#[test]
fn register_pairs_split_into_bytes() {
    let mut cpu = CPU::new(rom_with(&[]));
    cpu.registers.set_bc(0xBEEF);
    assert_eq!(cpu.registers.b, 0xBE);
    assert_eq!(cpu.registers.c, 0xEF);
    assert_eq!(cpu.registers.get_bc(), 0xBEEF);
    cpu.registers.set_af(0x12FF);
    assert_eq!(cpu.registers.a, 0x12);
    assert_eq!(cpu.registers.get_af(), 0x12F0);
}

#[test]
fn loads_and_adds() {
    // LD A,5; LD B,3; ADD A,B (0x81 in this table)
    let mut cpu = CPU::new(rom_with(&[0x3E, 0x05, 0x06, 0x03, 0x81]));
    run(&mut cpu, 3);
    assert_eq!(cpu.registers.a, 8);
    assert_eq!(cpu.program_counter, 0x105);
    let f = cpu.registers.f;
    assert!(!f.zero && !f.subtract && !f.half_carry && !f.carry);
}

#[test]
fn add_sets_zero_half_carry_and_carry() {
    // LD A,0xFF; LD B,1; ADD A,B
    let mut cpu = CPU::new(rom_with(&[0x3E, 0xFF, 0x06, 0x01, 0x81]));
    run(&mut cpu, 3);
    assert_eq!(cpu.registers.a, 0);
    let f = cpu.registers.f;
    assert!(f.zero && !f.subtract && f.half_carry && f.carry);
}

#[test]
fn compare_sets_zero_and_keeps_a() {
    // LD A,5; CP 5; CP 9
    let mut cpu = CPU::new(rom_with(&[0x3E, 0x05, 0xFE, 0x05, 0xFE, 0x09]));
    run(&mut cpu, 2);
    assert_eq!(cpu.registers.a, 5);
    assert!(cpu.registers.f.zero && cpu.registers.f.subtract && !cpu.registers.f.carry);
    run(&mut cpu, 1);
    assert_eq!(cpu.registers.a, 5);
    assert!(!cpu.registers.f.zero && cpu.registers.f.carry);
}

#[test]
fn jumps_to_an_absolute_address() {
    let mut cpu = CPU::new(rom_with(&[0xC3, 0x50, 0x01]));
    run(&mut cpu, 1);
    assert_eq!(cpu.program_counter, 0x0150);
}

#[test]
fn relative_jump_counts_from_the_following_instruction() {
    // JR -2 jumps back onto itself
    let mut cpu = CPU::new(rom_with(&[0x18, 0xFE]));
    run(&mut cpu, 1);
    assert_eq!(cpu.program_counter, 0x0100);
}

#[test]
fn call_then_ret_returns_after_the_call() {
    let mut rom = rom_with(&[0xCD, 0x00, 0x02]);
    rom[0x200] = 0xC9;
    let mut cpu = CPU::new(rom);
    run(&mut cpu, 1);
    assert_eq!(cpu.program_counter, 0x0200);
    assert_eq!(cpu.stack_pointer, 0xFFFC);
    assert_eq!(cpu.bus.bus_read(0xFFFD), 0x01);
    assert_eq!(cpu.bus.bus_read(0xFFFC), 0x03);
    run(&mut cpu, 1);
    assert_eq!(cpu.program_counter, 0x0103);
    assert_eq!(cpu.stack_pointer, 0xFFFE);
}

#[test]
fn push_then_pop_moves_a_pair() {
    // LD BC,0x1234; PUSH BC; POP DE
    let mut cpu = CPU::new(rom_with(&[0x01, 0x34, 0x12, 0xC5, 0xD1]));
    run(&mut cpu, 3);
    assert_eq!(cpu.registers.get_de(), 0x1234);
    assert_eq!(cpu.stack_pointer, 0xFFFE);
}

#[test]
fn prefixed_rotates_undo_each_other() {
    // LD A,0x81; RLC A; RRC A; SWAP A; SWAP A
    let mut cpu = CPU::new(rom_with(&[0x3E, 0x81, 0xCB, 0x07, 0xCB, 0x0F, 0xCB, 0x37, 0xCB, 0x37]));
    run(&mut cpu, 2);
    assert_eq!(cpu.registers.a, 0x03);
    assert!(cpu.registers.f.carry);
    assert_eq!(cpu.program_counter, 0x104);
    run(&mut cpu, 1);
    assert_eq!(cpu.registers.a, 0x81);
    run(&mut cpu, 1);
    assert_eq!(cpu.registers.a, 0x18);
    run(&mut cpu, 1);
    assert_eq!(cpu.registers.a, 0x81);
}

#[test]
fn stores_through_hl_into_work_ram() {
    // LD HL,0xC000; LD A,0x42; LD (HL-),A
    let mut cpu = CPU::new(rom_with(&[0x21, 0x00, 0xC0, 0x3E, 0x42, 0x32]));
    run(&mut cpu, 3);
    assert_eq!(cpu.bus.wram[0], 0x42);
    assert_eq!(cpu.registers.get_hl(), 0xBFFF);
}

#[test]
fn unknown_opcode_cannot_step() {
    let cpu = CPU::new(rom_with(&[0xD3]));
    assert!(cpu.next_instruction().is_none());
    assert!(!cpu.can_step());
}

#[test]
fn program_counter_outside_the_rom_cannot_step() {
    let mut cpu = CPU::new(vec![0u8; 0x100]);
    assert!(!cpu.can_step());
    cpu.program_counter = 0xC000;
    assert!(cpu.can_step());
}

#[test]
fn ei_takes_effect_two_instructions_later() {
    // EI; NOP; NOP
    let mut cpu = CPU::new(rom_with(&[0xFB, 0x00, 0x00]));
    run(&mut cpu, 1);
    assert_eq!(cpu.ei, 3);
    assert!(!cpu.bus.ime);
    run(&mut cpu, 1);
    assert!(!cpu.bus.ime);
    run(&mut cpu, 1);
    assert!(cpu.bus.ime);
    assert_eq!(cpu.ei, 0);
}

#[test]
fn vblank_interrupt_is_served_first() {
    let mut cpu = CPU::new(rom_with(&[]));
    cpu.bus.ime = true;
    cpu.bus.ie = 0x05;
    cpu.bus.ppu.vblank_interrupt = 1;
    cpu.bus.timer.timer_interrupt = 1;
    cpu.last_pc = 0x0123;
    assert!(cpu.can_serve_interrupts());
    assert!(cpu.interrupts().is_ok());
    assert_eq!(cpu.program_counter, 0x0040);
    assert!(!cpu.bus.ime);
    assert_eq!(cpu.bus.if_reg, 0x04);
    assert_eq!(cpu.bus.ppu.vblank_interrupt, 0);
    assert_eq!(cpu.stack_pointer, 0xFFFC);
    assert_eq!(cpu.bus.bus_read(0xFFFC), 0x23);
    assert_eq!(cpu.bus.bus_read(0xFFFD), 0x01);
    assert_eq!(cpu.bus.timer.cycles_counter, 4);
}

#[test]
fn interrupts_wait_while_ime_is_clear() {
    let mut cpu = CPU::new(rom_with(&[]));
    cpu.bus.ie = 0x1F;
    cpu.jpad_interrupt = true;
    assert!(cpu.interrupts().is_ok());
    assert_eq!(cpu.program_counter, 0x0100);
    assert_eq!(cpu.bus.if_reg, 0x10);
}

#[test]
fn joypad_interrupt_jumps_to_its_handler() {
    let mut cpu = CPU::new(rom_with(&[]));
    cpu.bus.ime = true;
    cpu.bus.ie = 0x10;
    cpu.jpad_interrupt = true;
    assert!(cpu.interrupts().is_ok());
    assert_eq!(cpu.program_counter, 0x0060);
    assert!(!cpu.jpad_interrupt);
}

#[test]
fn a_scanline_passes_every_456_cycles() {
    let mut cpu = CPU::new(rom_with(&[]));
    for _ in 0..113 {
        assert_eq!(cpu.run_cycle(None, None), CycleOutcome::Completed(false));
    }
    assert_eq!(cpu.bus.timer.cycles_counter, 452);
    assert_eq!(cpu.bus.ppu.ly, 0);
    assert_eq!(cpu.run_cycle(None, None), CycleOutcome::Completed(false));
    assert_eq!(cpu.bus.timer.cycles_counter, 0);
    assert_eq!(cpu.bus.ppu.ly, 1);
}

#[test]
fn a_frame_is_reported_at_line_144() {
    let mut cpu = CPU::new(rom_with(&[]));
    cpu.bus.ppu.ly = 144;
    cpu.bus.timer.cycles_counter = 452;
    assert_eq!(cpu.run_cycle(Some(0x2E), Some(false)), CycleOutcome::Completed(true));
    assert_eq!(cpu.bus.ppu.ly, 145);
    assert_eq!(cpu.bus.ppu.vblank_interrupt, 1);
    assert_eq!(cpu.bus.joypad, 0x2E);
}

#[test]
fn a_blocked_step_is_reported() {
    let mut cpu = CPU::new(rom_with(&[0xDD]));
    assert_eq!(cpu.run_cycle(None, None), CycleOutcome::StepBlocked);
    assert_eq!(cpu.program_counter, 0x0100);
}

/// A CPU in which every memory access of an instruction can be served.
fn roomy() -> CPU {
    let mut cpu = CPU::new(vec![0u8; 0x8000]);
    cpu.registers.set_bc(0xC000);
    cpu.registers.set_de(0xC000);
    cpu.registers.set_hl(0xC000);
    cpu.stack_pointer = 0xD000;
    cpu
}

#[test]
fn every_decoded_instruction_can_run_in_a_roomy_state() {
    let cpu = roomy();
    for prefixed in [false, true] {
        for b in 0..=255u8 {
            if let Some(i) = Instruction::from_byte(b, prefixed) {
                assert!(cpu.can_execute(i), "opcode {:#04x} (prefixed: {})", b, prefixed);
            }
        }
    }
}

#[test]
fn readiness_refuses_what_would_fail() {
    let mut cpu = roomy();
    cpu.ei = 254;
    assert!(!cpu.can_execute(Instruction::EI()));
    assert!(cpu.can_execute(Instruction::DI()));

    let mut rom = vec![0u8; 0x8000];
    rom[0x101] = 0x50;
    let cpu = CPU::new(rom);
    let ldh = Instruction::LD(LoadType::Byte(LoadByteTarget::A, LoadByteSource::A8));
    assert!(!cpu.can_execute(ldh));

    let mut cpu = roomy();
    cpu.bus.timer.cycles_counter = u32::MAX - 3;
    assert!(!cpu.can_execute(Instruction::ADD(ArithmeticTarget::B)));
    assert!(cpu.can_execute(Instruction::NOP()) == false);
    cpu.bus.timer.cycles_counter = u32::MAX - 4;
    assert!(cpu.can_execute(Instruction::NOP()));

    // A store to the DMA register from an unreadable page
    let mut cpu = roomy();
    cpu.registers.set_hl(0xFF46);
    cpu.registers.a = 0xFF;
    let store = Instruction::LD(LoadType::Byte(LoadByteTarget::HL, LoadByteSource::A));
    assert!(!cpu.can_execute(store));
    cpu.registers.a = 0xC0;
    assert!(cpu.can_execute(store));
}

use gbemu::cpu::CPU;

/// A CPU on a 32 KB ROM of NOPs with `program` at 0x100.
fn cpu_with(program: &[u8]) -> CPU {
    let mut rom = vec![0u8; 0x8000];
    for (i, b) in program.iter().enumerate() {
        rom[0x100 + i] = *b;
    }
    CPU::new(rom)
}

fn steps(cpu: &mut CPU, n: usize) {
    for _ in 0..n {
        assert!(cpu.can_step());
        cpu.step();
    }
}

#[test]
fn adc_adds_the_carry() {
    // LD A,0x0F; SCF; ADC A,B (B is 0)
    let mut cpu = cpu_with(&[0x3E, 0x0F, 0x37, 0x88]);
    steps(&mut cpu, 3);
    assert_eq!(cpu.registers.a, 0x10);
    let f = cpu.registers.f;
    assert!(!f.zero && !f.subtract && f.half_carry && !f.carry);
}

#[test]
fn sbc_subtracts_the_carry() {
    // LD A,0x10; SCF; SBC A,B (B is 0)
    let mut cpu = cpu_with(&[0x3E, 0x10, 0x37, 0x98]);
    steps(&mut cpu, 3);
    assert_eq!(cpu.registers.a, 0x0F);
    let f = cpu.registers.f;
    assert!(!f.zero && f.subtract && f.half_carry && !f.carry);
}

#[test]
fn inc_and_dec_keep_the_carry() {
    // LD A,0x0F; SCF; INC A; DEC A
    let mut cpu = cpu_with(&[0x3E, 0x0F, 0x37, 0x3C, 0x3D]);
    steps(&mut cpu, 3);
    assert_eq!(cpu.registers.a, 0x10);
    assert!(cpu.registers.f.half_carry && !cpu.registers.f.subtract && cpu.registers.f.carry);
    steps(&mut cpu, 1);
    assert_eq!(cpu.registers.a, 0x0F);
    assert!(cpu.registers.f.half_carry && cpu.registers.f.subtract && cpu.registers.f.carry);
}

#[test]
fn daa_adjusts_to_decimal() {
    // XOR A; ADD A,9; ADD A,1; DAA
    let mut cpu = cpu_with(&[0xAF, 0xC6, 0x09, 0xC6, 0x01, 0x27]);
    steps(&mut cpu, 4);
    assert_eq!(cpu.registers.a, 0x10);
    assert!(!cpu.registers.f.carry);
    // XOR A; ADD A,0x99; ADD A,1; DAA
    let mut cpu = cpu_with(&[0xAF, 0xC6, 0x99, 0xC6, 0x01, 0x27]);
    steps(&mut cpu, 4);
    assert_eq!(cpu.registers.a, 0x00);
    assert!(cpu.registers.f.zero && cpu.registers.f.carry && !cpu.registers.f.half_carry);
}

#[test]
fn add_hl_carries_out_of_bit_11() {
    // LD HL,0x0FFF; LD BC,0x0001; ADD HL,BC
    let mut cpu = cpu_with(&[0x21, 0xFF, 0x0F, 0x01, 0x01, 0x00, 0x09]);
    let zero = cpu.registers.f.zero;
    steps(&mut cpu, 3);
    assert_eq!(cpu.registers.get_hl(), 0x1000);
    let f = cpu.registers.f;
    assert!(f.half_carry && !f.carry && !f.subtract);
    assert_eq!(f.zero, zero);
}

#[test]
fn add_sp_offsets_the_program_counter() {
    // ADD SP,0x10 takes the program counter as its base and moves on one byte
    let mut cpu = cpu_with(&[0xE8, 0x10]);
    steps(&mut cpu, 1);
    assert_eq!(cpu.stack_pointer, 0x0110);
    assert_eq!(cpu.program_counter, 0x0101);
    assert!(!cpu.registers.f.zero && !cpu.registers.f.carry);
}

#[test]
fn rotates_of_a_clear_zero() {
    // LD A,1; RRA with carry clear (after XOR) -> 0 with carry
    let mut cpu = cpu_with(&[0xAF, 0x3E, 0x01, 0x1F]);
    steps(&mut cpu, 3);
    assert_eq!(cpu.registers.a, 0x00);
    assert!(!cpu.registers.f.zero && cpu.registers.f.carry);
    // RLCA of 0x80
    let mut cpu = cpu_with(&[0x3E, 0x80, 0x07]);
    steps(&mut cpu, 2);
    assert_eq!(cpu.registers.a, 0x01);
    assert!(cpu.registers.f.carry);
}

#[test]
fn bit_res_and_set() {
    // LD A,0x80; BIT 7,A; RES 7,A; BIT 7,A; SET 0,A
    let mut cpu = cpu_with(&[0x3E, 0x80, 0xCB, 0x7F, 0xCB, 0xBF, 0xCB, 0x7F, 0xCB, 0xC7]);
    steps(&mut cpu, 2);
    assert!(!cpu.registers.f.zero && cpu.registers.f.half_carry && !cpu.registers.f.subtract);
    steps(&mut cpu, 1);
    assert_eq!(cpu.registers.a, 0x00);
    steps(&mut cpu, 1);
    assert!(cpu.registers.f.zero);
    steps(&mut cpu, 1);
    assert_eq!(cpu.registers.a, 0x01);
}

#[test]
fn shifts() {
    // LD A,0x81; SRA A
    let mut cpu = cpu_with(&[0x3E, 0x81, 0xCB, 0x2F]);
    steps(&mut cpu, 2);
    assert_eq!(cpu.registers.a, 0xC0);
    assert!(cpu.registers.f.carry && !cpu.registers.f.zero);
    // LD A,0x80; SLA A
    let mut cpu = cpu_with(&[0x3E, 0x80, 0xCB, 0x27]);
    steps(&mut cpu, 2);
    assert_eq!(cpu.registers.a, 0x00);
    assert!(cpu.registers.f.carry && cpu.registers.f.zero);
    // LD A,0x01; SRL A
    let mut cpu = cpu_with(&[0x3E, 0x01, 0xCB, 0x3F]);
    steps(&mut cpu, 2);
    assert_eq!(cpu.registers.a, 0x00);
    assert!(cpu.registers.f.carry && cpu.registers.f.zero);
}

#[test]
fn conditional_relative_jumps() {
    // XOR A sets Z; JR NZ,+5 falls through; JR Z,+2 jumps
    let mut cpu = cpu_with(&[0xAF, 0x20, 0x05, 0x28, 0x02]);
    steps(&mut cpu, 2);
    assert_eq!(cpu.program_counter, 0x0103);
    steps(&mut cpu, 1);
    assert_eq!(cpu.program_counter, 0x0107);
}

#[test]
fn restarts_push_and_jump() {
    let mut cpu = cpu_with(&[0xFF]);
    steps(&mut cpu, 1);
    assert_eq!(cpu.program_counter, 0x0038);
    assert_eq!(cpu.bus.bus_read(0xFFFC), 0x01);
    assert_eq!(cpu.bus.bus_read(0xFFFD), 0x01);
    // RST 0x00 pushes its own address
    let mut cpu = cpu_with(&[0xC7]);
    steps(&mut cpu, 1);
    assert_eq!(cpu.program_counter, 0x0000);
    assert_eq!(cpu.bus.bus_read(0xFFFC), 0x00);
    assert_eq!(cpu.bus.bus_read(0xFFFD), 0x01);
}

#[test]
fn reti_returns_and_enables_interrupts() {
    let mut rom = vec![0u8; 0x8000];
    rom[0x100] = 0xCD;
    rom[0x101] = 0x00;
    rom[0x102] = 0x02;
    rom[0x200] = 0xD9;
    let mut cpu = CPU::new(rom);
    steps(&mut cpu, 2);
    assert_eq!(cpu.program_counter, 0x0103);
    assert!(cpu.bus.ime);
}

#[test]
fn halt_stop_and_di() {
    let mut cpu = cpu_with(&[0x76]);
    steps(&mut cpu, 1);
    assert!(cpu.is_halted);
    assert_eq!(cpu.program_counter, 0x0101);
    let mut cpu = cpu_with(&[0x10]);
    steps(&mut cpu, 1);
    assert!(cpu.is_halted);
    assert_eq!(cpu.program_counter, 0x0102);
    let mut cpu = cpu_with(&[0xF3]);
    steps(&mut cpu, 1);
    assert_eq!(cpu.di, 3);
}

#[test]
fn stores_sp_little_endian() {
    // LD SP,0xABCD; LD (0xC010),SP
    let mut cpu = cpu_with(&[0x31, 0xCD, 0xAB, 0x08, 0x10, 0xC0]);
    steps(&mut cpu, 2);
    assert_eq!(cpu.bus.bus_read(0xC010), 0xCD);
    assert_eq!(cpu.bus.bus_read(0xC011), 0xAB);
}

#[test]
fn high_page_loads_and_stores() {
    // LD A,0x5A; LDH (0x80),A; LD A,0; LDH A,(0x80)
    let mut cpu = cpu_with(&[0x3E, 0x5A, 0xE0, 0x80, 0x3E, 0x00, 0xF0, 0x80]);
    steps(&mut cpu, 2);
    assert_eq!(cpu.bus.hram[0], 0x5A);
    steps(&mut cpu, 2);
    assert_eq!(cpu.registers.a, 0x5A);
    // LD C,0x81; LD (C),A
    let mut cpu = cpu_with(&[0x0E, 0x81, 0x3E, 0x33, 0xE2]);
    steps(&mut cpu, 3);
    assert_eq!(cpu.bus.hram[1], 0x33);
}

#[test]
fn logic_and_complement() {
    // LD A,0x0F; CPL
    let mut cpu = cpu_with(&[0x3E, 0x0F, 0x2F]);
    steps(&mut cpu, 2);
    assert_eq!(cpu.registers.a, 0xF0);
    assert!(cpu.registers.f.subtract && cpu.registers.f.half_carry);
    // LD A,0x0F; AND 0xF0 -> 0 with Z and H
    let mut cpu = cpu_with(&[0x3E, 0x0F, 0xE6, 0xF0]);
    steps(&mut cpu, 2);
    assert_eq!(cpu.registers.a, 0);
    assert!(cpu.registers.f.zero && cpu.registers.f.half_carry && !cpu.registers.f.carry);
    // OR 0x0C
    let mut cpu = cpu_with(&[0x3E, 0x03, 0xF6, 0x0C]);
    steps(&mut cpu, 2);
    assert_eq!(cpu.registers.a, 0x0F);
    assert!(!cpu.registers.f.zero && !cpu.registers.f.half_carry);
}

#[test]
fn pop_af_drops_the_low_nibble_of_f() {
    // LD BC,0x12FF; PUSH BC; POP AF
    let mut cpu = cpu_with(&[0x01, 0xFF, 0x12, 0xC5, 0xF1]);
    steps(&mut cpu, 3);
    assert_eq!(cpu.registers.a, 0x12);
    assert_eq!(cpu.registers.get_af(), 0x12F0);
}

#[test]
fn instruction_cycles_reach_the_timer() {
    // NOP (4), LD A,d8 (8), JP a16 (16)
    let mut cpu = cpu_with(&[0x00, 0x3E, 0x01, 0xC3, 0x00, 0x01]);
    steps(&mut cpu, 1);
    assert_eq!(cpu.bus.timer.cycles_counter, 4);
    steps(&mut cpu, 1);
    assert_eq!(cpu.bus.timer.cycles_counter, 12);
    steps(&mut cpu, 1);
    assert_eq!(cpu.bus.timer.cycles_counter, 28);
    assert_eq!(cpu.program_counter, 0x0100);
}

#[test]
fn sub_undoes_add() {
    // LD A,0x37; ADD A,0xF0; SUB 0xF0
    let mut cpu = cpu_with(&[0x3E, 0x37, 0xC6, 0xF0, 0xD6, 0xF0]);
    steps(&mut cpu, 2);
    assert_eq!(cpu.registers.a, 0x27);
    assert!(cpu.registers.f.carry);
    steps(&mut cpu, 1);
    assert_eq!(cpu.registers.a, 0x37);
    assert!(cpu.registers.f.subtract && cpu.registers.f.carry);
}

#[test]
fn push_then_pop_keeps_the_stack_bytes_and_other_registers() {
    // LD HL,0xBEEF; PUSH HL; POP DE
    let mut cpu = cpu_with(&[0x21, 0xEF, 0xBE, 0xE5, 0xD1]);
    steps(&mut cpu, 1);
    let a = cpu.registers.a;
    let bc = cpu.registers.get_bc();
    steps(&mut cpu, 2);
    assert_eq!(cpu.registers.get_de(), 0xBEEF);
    assert_eq!(cpu.registers.get_hl(), 0xBEEF);
    assert_eq!(cpu.registers.get_bc(), bc);
    assert_eq!(cpu.registers.a, a);
    assert_eq!(cpu.stack_pointer, 0xFFFE);
    assert_eq!(cpu.bus.bus_read(0xFFFD), 0xBE);
    assert_eq!(cpu.bus.bus_read(0xFFFC), 0xEF);
    assert_eq!(cpu.program_counter, 0x0105);
}

#[test]
fn taken_conditional_call_returns_after_it() {
    // XOR A sets Z; CALL Z,0x0200 ... RET at 0x200
    let mut rom = vec![0u8; 0x8000];
    rom[0x100] = 0xAF;
    rom[0x101] = 0xCC;
    rom[0x102] = 0x00;
    rom[0x103] = 0x02;
    rom[0x200] = 0xC9;
    let mut cpu = CPU::new(rom);
    steps(&mut cpu, 2);
    assert_eq!(cpu.program_counter, 0x0200);
    steps(&mut cpu, 1);
    assert_eq!(cpu.program_counter, 0x0104);
    assert_eq!(cpu.stack_pointer, 0xFFFE);
}

#[test]
fn daa_gives_the_decimal_sum() {
    // XOR A; ADD A,0x45; ADD A,0x38; DAA -> 83
    let mut cpu = cpu_with(&[0xAF, 0xC6, 0x45, 0xC6, 0x38, 0x27]);
    steps(&mut cpu, 4);
    assert_eq!(cpu.registers.a, 0x83);
    assert!(!cpu.registers.f.carry && !cpu.registers.f.zero && !cpu.registers.f.half_carry);
    // XOR A; ADD A,0x58; ADD A,0x67; DAA -> 125: 25 with carry
    let mut cpu = cpu_with(&[0xAF, 0xC6, 0x58, 0xC6, 0x67, 0x27]);
    steps(&mut cpu, 4);
    assert_eq!(cpu.registers.a, 0x25);
    assert!(cpu.registers.f.carry);
}

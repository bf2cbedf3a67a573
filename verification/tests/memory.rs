use gbemu::cpu::{readable, CPU};
use gbemu::ready::dma_readable;
use gbemu::timer::Timer;

fn cpu() -> CPU {
    let mut rom = vec![0u8; 0x8000];
    rom[0x0042] = 0x99;
    CPU::new(rom)
}

#[test]
fn ram_reads_back_what_was_written() {
    let mut c = cpu();
    for (address, val) in [(0xC000u16, 0x11u8), (0xDFFF, 0x22), (0x8000, 0x33), (0x9FFF, 0x44), (0xFE9F, 0x55),
        (0xFF80, 0x66), (0xFFFE, 0x77), (0xFFFF, 0x1F), (0xFF0F, 0x03), (0xFF05, 0x12), (0xFF40, 0x80)]
    {
        c.bus.bus_write(address, val);
        assert_eq!(c.bus.bus_read(address), val);
    }
    assert_eq!(c.bus.wram[0], 0x11);
    assert_eq!(c.bus.hram[0], 0x66);
    assert_eq!(c.bus.ppu.vram[0x1FFF], 0x44);
    assert_eq!(c.bus.ie, 0x1F);
}

#[test]
fn a_write_leaves_other_ram_alone() {
    let mut c = cpu();
    c.bus.bus_write(0xC001, 0xAA);
    c.bus.bus_write(0xC000, 0xBB);
    assert_eq!(c.bus.bus_read(0xC001), 0xAA);
    assert_eq!(c.bus.bus_read(0xC000), 0xBB);
}

#[test]
fn rom_and_ly_ignore_writes() {
    let mut c = cpu();
    c.bus.bus_write(0x0042, 0x00);
    assert_eq!(c.bus.bus_read(0x0042), 0x99);
    c.bus.bus_write(0xFF44, 0x10);
    assert_eq!(c.bus.bus_read(0xFF44), 0);
    // Echo RAM reads 0 and ignores writes
    c.bus.bus_write(0xE000, 0x10);
    assert_eq!(c.bus.bus_read(0xE000), 0);
}

#[test]
fn div_resets_and_joypad_keeps_low_nibble_set() {
    let mut c = cpu();
    c.bus.timer.div = 0x1234;
    assert_eq!(c.bus.bus_read(0xFF04), 0x34);
    c.bus.bus_write(0xFF04, 0x77);
    assert_eq!(c.bus.bus_read(0xFF04), 0);
    c.bus.bus_write(0xFF00, 0x20);
    assert_eq!(c.bus.bus_read(0xFF00), 0x2F);
}

#[test]
fn lcd_registers_and_dma_register() {
    let mut c = cpu();
    c.bus.lcd_write(0xFF42, 0x10);
    assert_eq!(c.bus.lcd_read(0xFF42), 0x10);
    assert_eq!(c.bus.bus_read(0xFF42), 0x10);
    assert_eq!(c.bus.lcd_read(0xFF46), 0);
}

#[test]
fn dma_copies_a_page_into_oam() {
    let mut c = cpu();
    for i in 0..160u16 {
        c.bus.bus_write(0xC100 + i, (i as u8).wrapping_mul(3));
    }
    assert!(dma_readable(&c.bus, 0xC1));
    c.bus.bus_write(0xFF46, 0xC1);
    for i in 0..160usize {
        assert_eq!(c.bus.ppu.oam[i], (i as u8).wrapping_mul(3));
    }
}

#[test]
fn dma_from_a_page_with_unmapped_reads_is_refused() {
    let c = cpu();
    assert!(!dma_readable(&c.bus, 0xFF));
    assert!(dma_readable(&c.bus, 0x00));
    let short = CPU::new(vec![0u8; 0x100]);
    assert!(!dma_readable(&short.bus, 0x01));
}

#[test]
fn unmapped_io_and_short_rom_are_not_readable() {
    let c = cpu();
    assert!(!readable(&c.bus, 0xFF4C));
    assert!(!readable(&c.bus, 0xFF7F));
    assert!(readable(&c.bus, 0xFF80));
    let short = CPU::new(vec![0u8; 0x200]);
    assert!(readable(&short.bus, 0x01FF));
    assert!(!readable(&short.bus, 0x0200));
}

#[test]
fn timer_divider_counts_every_256_cycles() {
    let mut t = Timer::new();
    t.timer_tick(255);
    assert_eq!(t.timer_read(0xFF04), 0);
    t.timer_tick(1);
    assert_eq!(t.timer_read(0xFF04), 1);
    t.timer_tick(300);
    assert_eq!(t.div, 2);
    assert_eq!(t.div_counter, 44);
    assert_eq!(t.cycles_counter, 556);
}

#[test]
fn tima_reloads_from_tma_on_overflow() {
    let mut t = Timer::new();
    t.timer_write(0xFF07, 0x05);
    t.timer_write(0xFF06, 0xAB);
    t.timer_tick(16);
    // An increment is computed and dropped: TIMA stays.
    assert_eq!(t.timer_read(0xFF05), 0);
    assert_eq!(t.tima_counter, 0);
    t.timer_write(0xFF05, 0xFF);
    t.timer_tick(20);
    assert_eq!(t.timer_read(0xFF05), 0xAB);
    assert_eq!(t.timer_interrupt, 1);
    assert_eq!(t.tima_counter, 4);
}

#[test]
fn stopped_timer_leaves_tima_alone() {
    let mut t = Timer::new();
    t.timer_write(0xFF07, 0x01);
    t.timer_write(0xFF05, 0xFF);
    t.timer_tick(1000);
    assert_eq!(t.timer_read(0xFF05), 0xFF);
    assert_eq!(t.timer_interrupt, 0);
    assert_eq!(t.timer_read(0xFF07), 0x01);
}

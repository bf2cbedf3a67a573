use gbemu::bus::{bus_read, bus_write};
use gbemu::cartridge::{
    header_checksum, rom_fits, rom_license_name, rom_read, rom_type_name, Cartridge, HEADER_START,
};
use gbemu::dma::{dma_start, dma_tick, dma_transferring, DmaContext};
use gbemu::ppu::PPU;

/// A 32 KB ROM whose header, read from offset 101, has type `rom_type`,
/// new licence code `new_lic` and old licence code `lic`.
fn rom(rom_type: u8, new_lic: u16, lic: u8) -> Vec<u8> {
    let mut data = vec![0u8; 0x8000];
    let s = HEADER_START;
    data[s] = 0xC3;
    data[s + 52] = b'T';
    data[s + 68] = (new_lic >> 8) as u8;
    data[s + 69] = (new_lic & 0xFF) as u8;
    data[s + 71] = rom_type;
    data[s + 75] = lic;
    data[s + 77] = 0x5A;
    data[s + 78] = 0x12;
    data[s + 79] = 0x34;
    for i in 0..0x100usize {
        data[0x4000 + i] = i as u8;
    }
    data
}

#[test]
fn reads_the_header() {
    let data = rom(1, 0x0033, 1);
    let cart = Cartridge::from_rom(String::from("game.gb"), data.clone());
    assert_eq!(cart.filename, "game.gb");
    assert_eq!(cart.rom_size, 0x8000);
    assert_eq!(cart.rom_header.entry[0], 0xC3);
    assert_eq!(cart.rom_header.title[0], b'T');
    assert_eq!(cart.rom_header.new_license_code, 0x0033);
    assert_eq!(cart.rom_header.rom_type, 1);
    assert_eq!(cart.rom_header.license_code, 1);
    assert_eq!(cart.rom_header.checksum, 0x5A);
    assert_eq!(cart.rom_header.global_checksum, 0x1234);
    assert_eq!(rom_read(&cart, 0x4005), 5);
}

#[test]
fn names_the_type_and_licensee() {
    let cart = Cartridge::from_rom(String::from("a"), rom(1, 0, 1));
    assert_eq!(rom_type_name(&cart), "MBC1");
    assert_eq!(rom_license_name(&cart), "Nintendo R&D1");
    let cart = Cartridge::from_rom(String::from("b"), rom(0, 0, 0));
    assert_eq!(rom_type_name(&cart), "ROM ONLY");
    assert_eq!(rom_license_name(&cart), "None");
    let cart = Cartridge::from_rom(String::from("c"), rom(0x40, 0xFFFF, 200));
    assert_eq!(rom_type_name(&cart), "UNKNOWN");
    assert_eq!(rom_license_name(&cart), "UNKNOWN");
}

#[test]
fn header_checksum_subtracts_each_byte_and_one() {
    let mut data = vec![0u8; 0x150];
    assert_eq!(header_checksum(&data), 231);
    data[0x134] = 5;
    data[0x14C] = 1;
    assert_eq!(header_checksum(&data), 225);
}

#[test]
fn rom_size_limit_is_in_kilobytes() {
    assert!(rom_fits(64 * 1024, 64));
    assert!(!rom_fits(64 * 1024 + 1, 64));
    assert!(rom_fits(0, 0));
}

#[test]
fn cartridge_bus_routes_reads() {
    let cart = Cartridge::from_rom(String::from("a"), rom(0, 0, 0));
    let mut ppu = PPU::new();
    let mut dma = DmaContext::new();
    bus_write(&mut ppu, 0x8001, 7);
    bus_write(&mut ppu, 0xFE02, 8);
    bus_write(&mut ppu, 0xC000, 9);
    assert_eq!(bus_read(&cart, &ppu, &dma, 0x4003), 3);
    assert_eq!(bus_read(&cart, &ppu, &dma, 0x8001), 7);
    assert_eq!(bus_read(&cart, &ppu, &dma, 0xFE02), 8);
    assert_eq!(bus_read(&cart, &ppu, &dma, 0xC000), 0);
    dma_start(&mut dma, 0x40);
    assert!(dma_transferring(&dma));
    assert_eq!(bus_read(&cart, &ppu, &dma, 0xFE02), 0xFF);
}

#[test]
fn dma_waits_two_ticks_then_copies_a_byte_per_tick() {
    let cart = Cartridge::from_rom(String::from("a"), rom(0, 0, 0));
    let mut ppu = PPU::new();
    let mut dma = DmaContext::new();
    dma_tick(&mut dma, &cart, &mut ppu);
    assert!(!dma_transferring(&dma));
    dma_start(&mut dma, 0x40);
    dma_tick(&mut dma, &cart, &mut ppu);
    dma_tick(&mut dma, &cart, &mut ppu);
    assert_eq!(dma.byte, 0);
    for _ in 0..159 {
        dma_tick(&mut dma, &cart, &mut ppu);
        assert!(dma_transferring(&dma));
    }
    dma_tick(&mut dma, &cart, &mut ppu);
    assert!(!dma_transferring(&dma));
    dma_tick(&mut dma, &cart, &mut ppu);
    assert!(!dma_transferring(&dma));
    for i in 0..160usize {
        assert_eq!(ppu.oam[i], i as u8);
    }
}

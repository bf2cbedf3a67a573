use gbemu::gpu::{frame_to_rgb, pixel_color};
use gbemu::ppu::{PPU, SCREEN_PIXELS};
use gbemu::tile::extract_tile;

#[test]
fn extracts_colour_numbers_from_tile_bytes() {
    let mut data = [0u8; 16];
    // Row 0: low byte 0b1010_0000, high byte 0b1100_0000
    data[0] = 0b1010_0000;
    data[1] = 0b1100_0000;
    data[15] = 0xFF;
    let tile = extract_tile(data);
    assert_eq!(tile[0][0], 3);
    assert_eq!(tile[0][1], 2);
    assert_eq!(tile[0][2], 1);
    assert_eq!(tile[0][3], 0);
    assert_eq!(tile[7], [2u8; 8]);
    assert_eq!(tile[3], [0u8; 8]);
}

#[test]
fn vram_and_oam_addresses_wrap() {
    let mut p = PPU::new();
    p.vram_write(0x8005, 7);
    assert_eq!(p.vram_read(0x8005), 7);
    assert_eq!(p.vram_read(0xA005), 7);
    assert_eq!(p.vram[5], 7);
    p.oam_write(0xFE10, 9);
    assert_eq!(p.oam_read(0xFE10), 9);
    assert_eq!(p.oam[0x10], 9);
}

#[test]
fn starts_with_the_lcd_on() {
    let p = PPU::new();
    assert_eq!(p.lcdc, 0x91);
    assert_eq!(p.bg_palette, 0xFF);
    assert_eq!(p.ly, 0);
}

#[test]
fn lcd_off_keeps_ly() {
    let mut p = PPU::new();
    p.lcdc = 0;
    p.ly = 10;
    p.ppu_step();
    assert_eq!(p.ly, 10);
}

#[test]
fn blanking_lines_raise_vblank_and_wrap() {
    let mut p = PPU::new();
    p.ly = 144;
    p.ppu_step();
    assert_eq!(p.ly, 145);
    assert_eq!(p.vblank_interrupt, 1);
    p.ly = 153;
    p.ppu_step();
    assert_eq!(p.ly, 154);
    p.ppu_step();
    // 154 wraps to 0, and line 0 is drawn
    assert_eq!(p.ly, 1);
}

#[test]
fn stat_interrupt_when_ly_matches_lyc() {
    let mut p = PPU::new();
    p.ly = 150;
    p.lyc = 150;
    p.lcds = 0x40;
    p.ppu_step();
    assert_eq!(p.stat_interrupt, 1);
    let mut q = PPU::new();
    q.ly = 150;
    q.lyc = 150;
    q.ppu_step();
    assert_eq!(q.stat_interrupt, 0);
}

#[test]
fn draws_a_background_line() {
    let mut p = PPU::new();
    // Tile 0, row 0: colour 1 across; row 1: colour 2 across
    p.vram_write(0x8000, 0xFF);
    p.vram_write(0x8003, 0xFF);
    p.ppu_step();
    assert_eq!(p.ly, 1);
    for x in 0..160 {
        assert_eq!(p.video_buffer[x], 1);
    }
    assert_eq!(p.video_buffer[160], 0);
    p.ppu_step();
    assert_eq!(p.ly, 2);
    for x in 160..320 {
        assert_eq!(p.video_buffer[x], 2);
    }
}

#[test]
fn background_scrolls_vertically() {
    let mut p = PPU::new();
    p.vram_write(0x8003, 0xFF);
    p.scy = 1;
    p.ppu_step();
    assert_eq!(p.video_buffer[0], 2);
}

#[test]
fn sprite_beyond_the_tile_stops_the_step() {
    let mut p = PPU::new();
    // Sprites on, one visible sprite at x = 40 on line 0, drawn over colour 0
    p.lcdc = 0x93;
    p.oam[0] = 16;
    p.oam[1] = 40;
    assert!(!p.try_step());
    let mut q = PPU::new();
    q.lcdc = 0x93;
    assert!(q.try_step());
    assert_eq!(q.ly, 1);
}

#[test]
fn colours_of_the_frame() {
    assert_eq!(pixel_color(0), 0x00FFFFFF);
    assert_eq!(pixel_color(1), 0x00A9A9A9);
    assert_eq!(pixel_color(2), 0x00545454);
    assert_eq!(pixel_color(3), 0x00000000);
    assert_eq!(pixel_color(9), 0x00FFFFFF);
    let mut frame = [0u8; SCREEN_PIXELS];
    frame[1] = 3;
    frame[SCREEN_PIXELS - 1] = 2;
    let mut buffer = vec![7u32; SCREEN_PIXELS];
    frame_to_rgb(&frame, &mut buffer);
    assert_eq!(buffer[0], 0x00FFFFFF);
    assert_eq!(buffer[1], 0);
    assert_eq!(buffer[SCREEN_PIXELS - 1], 0x00545454);
}

#[test]
fn drawing_a_line_keeps_the_other_rows_and_memories() {
    let mut p = PPU::new();
    p.vram_write(0x8000, 0xFF);
    p.ly = 5;
    p.video_buffer[160 * 3] = 2;
    p.video_buffer[160 * 9 + 4] = 3;
    p.oam[7] = 11;
    p.ppu_step();
    assert_eq!(p.ly, 6);
    assert_eq!(p.video_buffer[160 * 3], 2);
    assert_eq!(p.video_buffer[160 * 9 + 4], 3);
    assert_eq!(p.oam[7], 11);
    assert_eq!(p.vram[0], 0xFF);
    assert_eq!(p.lcdc, 0x91);
}

#[test]
fn blanking_lines_keep_the_frame() {
    let mut p = PPU::new();
    p.ly = 146;
    p.video_buffer[100] = 3;
    p.ppu_step();
    assert_eq!(p.ly, 147);
    assert_eq!(p.video_buffer[100], 3);
}

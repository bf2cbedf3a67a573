//! The picture processing unit: LCD registers, video RAM, object attribute
//! memory, background/window tile sets and the scanline renderer.

use vstd::prelude::*;
use crate::tile::{bit_at, extract_tile, tile_pixel};

verus! {

/// Bytes of the frame buffer: 160 x 144 colour numbers.
pub const SCREEN_PIXELS: usize = 23040;

/// Bytes of a 256 x 256 tile set.
pub const TILESET_PIXELS: usize = 65536;

#[verifier::ext_equal]
pub struct PPU {
    pub lcdc: u8,
    pub lcds: u8,
    pub scy: u8,
    pub scx: u8,
    pub ly: u8,
    pub lyc: u8,
    pub bg_palette: u8,
    pub obp0: u8,
    pub obp1: u8,
    pub wy: u8,
    pub wx: u8,
    pub video_buffer: [u8; SCREEN_PIXELS],
    pub oam: [u8; 160],
    pub vram: [u8; 8192],
    pub bg_tileset: [u8; TILESET_PIXELS],
    pub win_tileset: [u8; TILESET_PIXELS],
    pub vblank_interrupt: u8,
    pub stat_interrupt: u8,
}

/// The two layers whose tile sets the PPU builds.
#[derive(Clone, Copy, Debug, PartialEq, Eq, Structural)]
pub enum TileLayer {
    Background,
    Window,
}

/// The LCDC bit that selects the tile map of a layer.
pub open spec fn layer_map_bit(layer: TileLayer) -> int {
    match layer {
        TileLayer::Background => 3,
        TileLayer::Window => 6,
    }
}

/// Offset in video RAM of the tile map selected by `bit` of LCDC.
pub open spec fn tile_map_offset(lcdc: u8, bit: int) -> int {
    if bit_at(lcdc, bit) == 0 {
        0x1800
    } else {
        0x1C00
    }
}

/// Offset in video RAM of the data of tile `index`: unsigned from 0x0000
/// when bit 4 of LCDC is set, signed around 0x1000 otherwise.
pub open spec fn tile_data_offset(lcdc: u8, index: u8) -> int {
    if bit_at(lcdc, 4) == 0 {
        0x1000 + 16 * (if index < 128 { index as int } else { index - 256 })
    } else {
        16 * index
    }
}

/// Which tile of the 32 x 32 map covers pixel `idx` of a tile set, and the
/// row and column of the pixel inside that tile.
pub open spec fn tile_number(idx: int) -> int {
    (idx / 256 / 8) * 32 + (idx % 256) / 8
}

pub open spec fn row_in_tile(idx: int) -> int {
    (idx / 256) % 8
}

pub open spec fn col_in_tile(idx: int) -> int {
    (idx % 256) % 8
}

/// Pixel `idx` of the tile set that a layer shows: the map entries at the
/// layer's tile map are laid out 32 tiles per row; the map's last entry is
/// not drawn and its pixels stay 0.
pub open spec fn tileset_pixel(vram: Seq<u8>, lcdc: u8, bit: int, idx: int) -> u8 {
    let p = tile_number(idx);
    if p < 1023 {
        let index = vram[tile_map_offset(lcdc, bit) + p];
        let addr = tile_data_offset(lcdc, index);
        let r = row_in_tile(idx);
        tile_pixel(vram[addr + 2 * r], vram[addr + 2 * r + 1], col_in_tile(idx))
    } else {
        0
    }
}


/// Where pixel (k, l) of map entry `pos` lands in a tile set.
pub open spec fn tileset_index(pos: int, k: int, l: int) -> int {
    256 * (8 * (pos / 32) + k) + 8 * (pos % 32) + l
}

proof fn lemma_tileset_index(pos: int, k: int, l: int)
    requires
        0 <= pos < 1024,
        0 <= k < 8,
        0 <= l < 8,
    ensures
        0 <= tileset_index(pos, k, l) < 65536,
        tile_number(tileset_index(pos, k, l)) == pos,
        row_in_tile(tileset_index(pos, k, l)) == k,
        col_in_tile(tileset_index(pos, k, l)) == l,
{
    let q = 8 * (pos / 32) + k;
    let c = 8 * (pos % 32) + l;
    let idx = tileset_index(pos, k, l);
    assert(0 <= pos / 32 < 32);
    assert(0 <= c < 256);
    assert(0 <= q < 256);
    assert(idx == 256 * q + c);
    vstd::arithmetic::div_mod::lemma_fundamental_div_mod_converse(idx, 256, q, c);
    vstd::arithmetic::div_mod::lemma_fundamental_div_mod_converse(q, 8, pos / 32, k);
    vstd::arithmetic::div_mod::lemma_fundamental_div_mod_converse(c, 8, pos % 32, l);
}

proof fn lemma_tileset_decompose(idx: int)
    requires
        0 <= idx < 65536,
    ensures
        0 <= tile_number(idx) < 1024,
        0 <= row_in_tile(idx) < 8,
        0 <= col_in_tile(idx) < 8,
        idx == tileset_index(tile_number(idx), row_in_tile(idx), col_in_tile(idx)),
{
    let q = idx / 256;
    let c = idx % 256;
    let p = tile_number(idx);
    assert(0 <= q < 256);
    assert(q / 8 < 32);
    assert(c / 8 < 32);
    vstd::arithmetic::div_mod::lemma_fundamental_div_mod_converse(p, 32, q / 8, c / 8);
}


/// Sprite height in pixels: 8, or 16 when bit 2 of LCDC is set.
pub open spec fn sprite_height(lcdc: u8) -> int {
    if bit_at(lcdc, 2) == 0 {
        8
    } else {
        16
    }
}

/// The attribute bytes of sprite `i` are read at OAM offsets `i` to `i + 3`.
pub open spec fn sprite_y(p: PPU, i: int) -> u8 {
    p.oam@[i]
}

pub open spec fn sprite_x(p: PPU, i: int) -> u8 {
    p.oam@[i + 1]
}

pub open spec fn sprite_tile_address(p: PPU, i: int) -> int {
    16 * p.oam@[i + 2]
}

pub open spec fn sprite_flags(p: PPU, i: int) -> u8 {
    p.oam@[i + 3]
}

/// Whether sprite `i` is drawn on line LY (8-bit sums wrap).
pub open spec fn sprite_visible(p: PPU, i: int) -> bool {
    &&& sprite_x(p, i) != 0
    &&& (p.ly + 16) % 256 >= sprite_y(p, i)
    &&& p.ly < (sprite_y(p, i) + sprite_height(p.lcdc)) % 256
}

/// The row of the sprite that line LY crosses (8-bit arithmetic).
pub open spec fn sprite_row(p: PPU, i: int) -> int {
    (p.ly + 16 - sprite_y(p, i)) % 256
}

/// Index of the frame buffer written for column `k` (the 8-bit product
/// LY * 160 + k wraps).
pub open spec fn sprite_screen_index(p: PPU, k: int) -> int {
    (p.ly * 160 + k) % 256
}

/// Whether column `k` of sprite `i` is drawn over buffer `vb`: always for a
/// sprite with priority bit 0; otherwise only where the buffer holds 0 and,
/// for 8-pixel sprites, outside the window.
pub open spec fn sprite_pixel_drawn(p: PPU, vb: Seq<u8>, i: int, k: int) -> bool {
    ||| bit_at(sprite_flags(p, i), 7) == 0
    ||| (vb[sprite_screen_index(p, k)] == 0 && (sprite_height(p.lcdc) == 8 ==> !p.in_window_spec(
        k,
        sprite_row(p, i),
    )))
}

/// Whether the tile lookups for column `k` of sprite `i` stay inside the
/// decoded tile: for 8-pixel sprites column and row below 8; for 16-pixel
/// sprites column below 16, row below 8, no vertical flip, and column below
/// 8 when flipped horizontally.
pub open spec fn sprite_pixel_safe(p: PPU, i: int, k: int) -> bool {
    let row = sprite_row(p, i);
    let flags = sprite_flags(p, i);
    if sprite_height(p.lcdc) == 8 {
        k < 8 && row < 8
    } else {
        k < 16 && row < 8 && bit_at(flags, 6) == 0 && (bit_at(flags, 5) == 1 ==> k < 8)
    }
}

/// The colour number drawn for column `k` of sprite `i`: the decoded tile
/// is indexed by the column first, flipped by bits 5 (x) and 6 (y) of the
/// flags.
pub open spec fn sprite_pixel_value(p: PPU, i: int, k: int) -> u8 {
    let flags = sprite_flags(p, i);
    let row = sprite_row(p, i);
    let kk = if bit_at(flags, 5) == 1 { 7 - k } else { k };
    let rr = if bit_at(flags, 6) == 1 { sprite_height(p.lcdc) - 1 - row } else { row };
    let addr = sprite_tile_address(p, i);
    tile_pixel(p.vram@[(addr + 2 * kk) % 8192], p.vram@[(addr + 2 * kk + 1) % 8192], rr)
}

/// The buffer after the first `m` columns of sprite `i`, or `None` where a
/// column's tile lookup falls outside the tile.
pub open spec fn sprite_columns(p: PPU, vb: Seq<u8>, i: int, m: nat) -> Option<Seq<u8>>
    decreases m,
{
    if m == 0 {
        Some(vb)
    } else {
        match sprite_columns(p, vb, i, (m - 1) as nat) {
            Some(v) => {
                let k = sprite_x(p, i) - 8 + m - 1;
                if sprite_pixel_drawn(p, v, i, k) {
                    if sprite_pixel_safe(p, i, k) {
                        Some(v.update(sprite_screen_index(p, k), sprite_pixel_value(p, i, k)))
                    } else {
                        None
                    }
                } else {
                    Some(v)
                }
            },
            None => None,
        }
    }
}

/// Columns x - 8 to x - 1 of a visible sprite are drawn; none when x < 8.
pub open spec fn sprite_apply(p: PPU, vb: Seq<u8>, i: int) -> Option<Seq<u8>> {
    if sprite_visible(p, i) {
        sprite_columns(p, vb, i, if sprite_x(p, i) >= 8 { 8 } else { 0 })
    } else {
        Some(vb)
    }
}

/// The buffer after sprites 0 to n - 1.
pub open spec fn sprites_fold(p: PPU, vb: Seq<u8>, n: nat) -> Option<Seq<u8>>
    decreases n,
{
    if n == 0 {
        Some(vb)
    } else {
        match sprites_fold(p, vb, (n - 1) as nat) {
            Some(v) => sprite_apply(p, v, n - 1),
            None => None,
        }
    }
}

/// The frame buffer after the sprites of line LY are drawn over `vb`
/// (when LCDC bit 1 enables them); `None` where a tile lookup falls outside
/// the tile.
pub open spec fn sprites_spec(p: PPU, vb: Seq<u8>) -> Option<Seq<u8>> {
    if bit_at(p.lcdc, 1) == 1 {
        sprites_fold(p, vb, 40)
    } else {
        Some(vb)
    }
}

proof fn lemma_sprite_columns_prefix(p: PPU, vb: Seq<u8>, i: int, m: nat, n: nat)
    requires
        m <= n,
        sprite_columns(p, vb, i, n) is Some,
    ensures
        sprite_columns(p, vb, i, m) is Some,
    decreases n,
{
    if m < n {
        lemma_sprite_columns_prefix(p, vb, i, m, (n - 1) as nat);
    }
}

proof fn lemma_sprites_fold_prefix(p: PPU, vb: Seq<u8>, m: nat, n: nat)
    requires
        m <= n,
        sprites_fold(p, vb, n) is Some,
    ensures
        sprites_fold(p, vb, m) is Some,
    decreases n,
{
    if m < n {
        lemma_sprites_fold_prefix(p, vb, m, (n - 1) as nat);
    }
}


/// Two PPUs that agree on what sprite drawing reads.
pub open spec fn same_sprite_inputs(p: PPU, q: PPU) -> bool {
    &&& p.oam == q.oam
    &&& p.vram == q.vram
    &&& p.ly == q.ly
    &&& p.lcdc == q.lcdc
    &&& p.wx == q.wx
    &&& p.wy == q.wy
}

proof fn lemma_sprite_columns_buffer_free(p: PPU, q: PPU, vb: Seq<u8>, i: int, m: nat)
    requires
        same_sprite_inputs(p, q),
    ensures
        sprite_columns(p, vb, i, m) == sprite_columns(q, vb, i, m),
    decreases m,
{
    if m > 0 {
        lemma_sprite_columns_buffer_free(p, q, vb, i, (m - 1) as nat);
    }
}

proof fn lemma_sprites_fold_buffer_free(p: PPU, q: PPU, vb: Seq<u8>, n: nat)
    requires
        same_sprite_inputs(p, q),
    ensures
        sprites_fold(p, vb, n) == sprites_fold(q, vb, n),
    decreases n,
{
    if n > 0 {
        lemma_sprites_fold_buffer_free(p, q, vb, (n - 1) as nat);
        match sprites_fold(p, vb, (n - 1) as nat) {
            Some(v) => {
                let cols: nat = if sprite_x(p, n - 1) >= 8 { 8 } else { 0 };
                lemma_sprite_columns_buffer_free(p, q, v, n - 1, cols);
            },
            None => {},
        }
    }
}

/// The sprites drawn depend only on OAM, video RAM, LY, LCDC, the window
/// position and the buffer given.
pub proof fn lemma_sprites_buffer_free(p: PPU, q: PPU, vb: Seq<u8>)
    requires
        same_sprite_inputs(p, q),
    ensures
        sprites_spec(p, vb) == sprites_spec(q, vb),
{
    lemma_sprites_fold_buffer_free(p, q, vb, 40);
}

/// Sprite columns write only below index 256 of the frame buffer.
#[verifier::spinoff_prover]
proof fn lemma_sprite_columns_low(p: PPU, vb: Seq<u8>, i: int, m: nat)
    requires
        vb.len() == SCREEN_PIXELS,
        sprite_columns(p, vb, i, m) is Some,
    ensures
        sprite_columns(p, vb, i, m)->0.len() == vb.len(),
        forall|j: int| 256 <= j < vb.len() ==> #[trigger] sprite_columns(p, vb, i, m)->0[j] == vb[j],
    decreases m,
{
    if m > 0 {
        let n = (m - 1) as nat;
        lemma_sprite_columns_low(p, vb, i, n);
        let v = sprite_columns(p, vb, i, n)->0;
        let k = sprite_x(p, i) - 8 + m - 1;
        let idx = sprite_screen_index(p, k);
        assert(0 <= idx < 256);
        let w = sprite_columns(p, vb, i, m)->0;
        assert(w == v || w == v.update(idx, sprite_pixel_value(p, i, k)));
    }
}

/// Drawing the sprites writes only below index 256 of the frame buffer.
proof fn lemma_sprites_fold_low(p: PPU, vb: Seq<u8>, n: nat)
    requires
        vb.len() == SCREEN_PIXELS,
        sprites_fold(p, vb, n) is Some,
    ensures
        sprites_fold(p, vb, n)->0.len() == vb.len(),
        forall|j: int| 256 <= j < vb.len() ==> #[trigger] sprites_fold(p, vb, n)->0[j] == vb[j],
    decreases n,
{
    if n > 0 {
        let m = (n - 1) as nat;
        lemma_sprites_fold_prefix(p, vb, m, n);
        lemma_sprites_fold_low(p, vb, m);
        let v = sprites_fold(p, vb, m)->0;
        if sprite_visible(p, n - 1) {
            let cols: nat = if sprite_x(p, n - 1) >= 8 { 8 } else { 0 };
            lemma_sprite_columns_low(p, v, n - 1, cols);
        }
    }
}

/// A step leaves OAM, video RAM and every register but LY as they were. On
/// a step that draws no line the frame buffer and the tile sets are kept;
/// on one that draws a line, every other row of the frame buffer is kept,
/// except that sprites, when enabled, write their pixels to the first 256
/// bytes of the buffer (their index is taken modulo 256).
pub proof fn lemma_step_keeps_frame(p: PPU, next: PPU)
    requires
        p.step_ok(),
        p.steps_to(next),
    ensures
        next.oam == p.oam,
        next.vram == p.vram,
        next.lcdc == p.lcdc,
        next.lcds == p.lcds,
        next.scy == p.scy,
        next.scx == p.scx,
        next.lyc == p.lyc,
        next.bg_palette == p.bg_palette,
        next.obp0 == p.obp0,
        next.obp1 == p.obp1,
        next.wy == p.wy,
        next.wx == p.wx,
        !p.step_draws() ==> next.video_buffer == p.video_buffer && next.bg_tileset == p.bg_tileset
            && next.win_tileset == p.win_tileset,
        p.step_draws() ==> forall|j: int|
            0 <= j < SCREEN_PIXELS && j / 160 != next_ly(p.ly) && (j >= 256 || bit_at(p.lcdc, 1) == 0)
                ==> #[trigger] next.video_buffer@[j] == p.video_buffer@[j],
{
    if p.step_draws() {
        let ly1 = next_ly(p.ly);
        let st = p.line_state(ly1);
        let q = PPU { ly: ly1, ..p };
        let line = st.2;
        assert(line.len() == SCREEN_PIXELS);
        assert forall|j: int| 0 <= j < SCREEN_PIXELS && j / 160 != ly1 implies #[trigger] line[j]
            == p.video_buffer@[j] by {
            assert(!(160 * ly1 <= j < 160 * ly1 + 160));
        }
        if bit_at(p.lcdc, 1) == 1 {
            lemma_sprites_fold_low(q, line, 40);
        }
    }
}

/// With the background on and the window off, pixel `x` of the line that a
/// step draws shows pixel ((x + SCX) mod 256, (line + SCY) mod 256) of the
/// background tile set rebuilt from the tile map, where no sprite can be
/// drawn over it (sprites off, or past the first 256 bytes of the buffer).
pub proof fn lemma_step_draws_scrolled_background(p: PPU, next: PPU, x: u8)
    requires
        p.step_ok(),
        p.steps_to(next),
        p.step_draws(),
        bit_at(p.lcdc, 0) == 1,
        bit_at(p.lcdc, 5) == 0,
        x < 160,
        bit_at(p.lcdc, 1) == 0 || 160 * next_ly(p.ly) + x >= 256,
    ensures
        ({
            let y = next_ly(p.ly);
            next.video_buffer@[160 * y + x] == next.bg_tileset@[(x + p.scx) % 256 + 256 * ((y + p.scy)
                % 256)]
        }),
{
    let y = next_ly(p.ly);
    let st = p.line_state(y);
    let q = PPU { ly: y, ..p };
    let line = st.2;
    let j = 160 * y + x;
    assert(160 * y <= j < 160 * y + 160);
    assert(((j - 160 * y) as u8) == x);
    assert(line[j] == q.pixel_from(st.0, st.1, x, y));
    if bit_at(p.lcdc, 1) == 1 {
        lemma_sprites_fold_low(q, line, 40);
    }
}

/// The value of LY after a step of the line counter with the LCD on.
pub open spec fn next_ly(ly: u8) -> u8 {
    if 144 <= ly <= 153 {
        (ly + 1) as u8
    } else if ly == 154 {
        0
    } else {
        ly
    }
}


/// LY stays within the 155 lines of a frame: a step from a line in
/// 0..=154 lands on a line in 0..=154.
pub proof fn lemma_ly_stays_in_frame(p: PPU)
    requires
        p.ly <= 154,
    ensures
        p.ly_after_step() <= 154,
{
}

/// Looks up a sprite pixel in the decoded tile, indexed by column first and
/// flipped as the flags ask.
fn select_sprite_pixel(
    tile_pixels: &[[u8; 8]; 16],
    k: u8,
    row: u8,
    y_flip: u8,
    x_flip: u8,
    tall: bool,
) -> (pixel: u8)
    requires
        y_flip <= 1,
        x_flip <= 1,
        row < 8,
        if tall {
            k < 16 && y_flip == 0 && (x_flip == 1 ==> k < 8)
        } else {
            k < 8
        },
    ensures
        pixel == tile_pixels[if x_flip == 1 { 7 - k } else { k as int }][if y_flip == 1 {
            7 - row
        } else {
            row as int
        }],
{
    let mut pixel = tile_pixels[k as usize][row as usize];
    if tall {
        // Y flip
        if y_flip == 1 {
            pixel = tile_pixels[k as usize][15 - row as usize];
        }
    } else {
        // Y flip
        if y_flip == 1 {
            pixel = tile_pixels[k as usize][7 - row as usize];
        }
    }
    // X flip
    if x_flip == 1 {
        pixel = tile_pixels[7 - k as usize][row as usize];
    }
    if x_flip == 1 && y_flip == 1 {
        if tall {
            pixel = tile_pixels[7 - k as usize][15 - row as usize];
        } else {
            pixel = tile_pixels[7 - k as usize][7 - row as usize];
        }
    }
    pixel
}

impl PPU {
    /// The PPU as it stands when line `ly` is drawn: tile sets rebuilt from
    /// video RAM and the line rendered into the frame buffer.
    pub open spec fn line_state(&self, ly: u8) -> (Seq<u8>, Seq<u8>, Seq<u8>) {
        let p = PPU { ly: ly, ..*self };
        let bg = p.tileset_spec(TileLayer::Background);
        let win = p.tileset_spec(TileLayer::Window);
        (bg, win, p.line_from(bg, win, ly))
    }

    /// A step draws a line when the LCD is on and LY, after it advances,
    /// is a visible line.
    pub open spec fn step_draws(&self) -> bool {
        bit_at(self.lcdc, 7) == 1 && next_ly(self.ly) < 144
    }

    /// LY after a step: unchanged with the LCD off; otherwise it steps
    /// through the blanking lines and wraps from 154 to 0, and a visible
    /// line is left once it is drawn.
    pub open spec fn ly_after_step(&self) -> u8 {
        if bit_at(self.lcdc, 7) == 0 {
            self.ly
        } else if next_ly(self.ly) < 144 {
            (next_ly(self.ly) + 1) as u8
        } else {
            next_ly(self.ly)
        }
    }

    /// The step does not index outside a decoded sprite tile.
    pub open spec fn step_ok(&self) -> bool {
        self.step_draws() ==> sprites_spec(
            PPU { ly: next_ly(self.ly), ..*self },
            self.line_state(next_ly(self.ly)).2,
        ) is Some
    }

    /// `next` is this PPU after one step: the STAT and V-Blank requests,
    /// LY as `ly_after_step` gives it, and, when a line is drawn, the tile
    /// sets rebuilt and the line with its sprites in the frame buffer;
    /// everything else is kept.
    pub open spec fn steps_to(&self, next: PPU) -> bool {
        let ly1 = next_ly(self.ly);
        let st = self.line_state(ly1);
        &&& next.stat_interrupt == (if self.ly == self.lyc && bit_at(self.lcds, 6) == 1 {
            1
        } else {
            self.stat_interrupt
        })
        &&& next.vblank_interrupt == (if bit_at(self.lcdc, 7) == 1 && self.ly == 144 {
            1
        } else {
            self.vblank_interrupt
        })
        &&& next.ly == self.ly_after_step()
        &&& self.step_draws() ==> {
            &&& next.bg_tileset@ == st.0
            &&& next.win_tileset@ == st.1
            &&& next.video_buffer@ == sprites_spec(PPU { ly: ly1, ..*self }, st.2)->0
        }
        &&& !self.step_draws() ==> {
            &&& next.bg_tileset == self.bg_tileset
            &&& next.win_tileset == self.win_tileset
            &&& next.video_buffer == self.video_buffer
        }
        &&& next == (PPU {
            ly: next.ly,
            stat_interrupt: next.stat_interrupt,
            vblank_interrupt: next.vblank_interrupt,
            bg_tileset: next.bg_tileset,
            win_tileset: next.win_tileset,
            video_buffer: next.video_buffer,
            ..*self
        })
    }
}

impl PPU {
    /// Whether (x, y) of the screen falls inside the window.
    pub open spec fn in_window_spec(&self, x: int, y: int) -> bool {
        x >= self.wx - 7 && y >= self.wy
    }

    /// The window pixel shown at (x, y) of the screen, from window tile set `win`.
    pub open spec fn window_pixel_from(&self, win: Seq<u8>, x: u8, y: u8) -> u8 {
        win[(x + 7 - self.wx) % 256 + 256 * ((y - self.wy) % 256)]
    }

    /// The background pixel shown at (x, y), from background tile set `bg`:
    /// the background scrolls by (SCX, SCY) and wraps around at 256.
    pub open spec fn background_pixel_from(&self, bg: Seq<u8>, x: u8, y: u8) -> u8 {
        bg[(x + self.scx) % 256 + 256 * ((y + self.scy) % 256)]
    }

    /// The colour number that the background and window give pixel (x, y):
    /// 0 when they are off (LCDC bit 0), the window where it is on (LCDC bit
    /// 5) and covers the pixel, the background elsewhere.
    pub open spec fn pixel_from(&self, bg: Seq<u8>, win: Seq<u8>, x: u8, y: u8) -> u8 {
        if bit_at(self.lcdc, 0) != 0 {
            if bit_at(self.lcdc, 5) != 0 && self.in_window_spec(x as int, y as int) {
                self.window_pixel_from(win, x, y)
            } else {
                self.background_pixel_from(bg, x, y)
            }
        } else {
            0
        }
    }

    /// The pixel (x, y) with the tile sets that the PPU holds.
    pub open spec fn pixel_spec(&self, x: u8, y: u8) -> u8 {
        self.pixel_from(self.bg_tileset@, self.win_tileset@, x, y)
    }

    /// The tile set of a layer built from the current video RAM.
    pub open spec fn tileset_spec(&self, layer: TileLayer) -> Seq<u8> {
        Seq::new(TILESET_PIXELS as nat, |idx: int| tileset_pixel(self.vram@, self.lcdc, layer_map_bit(layer), idx))
    }

    /// The frame buffer with line `ly` drawn from the background and window.
    pub open spec fn line_from(&self, bg: Seq<u8>, win: Seq<u8>, ly: u8) -> Seq<u8> {
        Seq::new(
            SCREEN_PIXELS as nat,
            |i: int|
                if 160 * ly <= i < 160 * ly + 160 {
                    self.pixel_from(bg, win, (i - 160 * ly) as u8, ly)
                } else {
                    self.video_buffer@[i]
                },
        )
    }

    /// The PPU at power-on: LCD on, palettes 0xFF, memories cleared.
    pub open spec fn initial() -> PPU {
        PPU {
            lcdc: 0x91,
            lcds: 0,
            scy: 0,
            scx: 0,
            ly: 0,
            lyc: 0,
            bg_palette: 0xFF,
            obp0: 0xFF,
            obp1: 0xFF,
            wy: 0,
            wx: 0,
            video_buffer: vstd::array::spec_array_fill_for_copy_type(0u8),
            oam: vstd::array::spec_array_fill_for_copy_type(0u8),
            vram: vstd::array::spec_array_fill_for_copy_type(0u8),
            bg_tileset: vstd::array::spec_array_fill_for_copy_type(0u8),
            win_tileset: vstd::array::spec_array_fill_for_copy_type(0u8),
            vblank_interrupt: 0,
            stat_interrupt: 0,
        }
    }

    pub fn new() -> (p: PPU)
        ensures
            p == PPU::initial(),
            p.lcdc == 0x91,
            p.lcds == 0,
            p.scy == 0,
            p.scx == 0,
            p.ly == 0,
            p.lyc == 0,
            p.bg_palette == 0xFF,
            p.obp0 == 0xFF,
            p.obp1 == 0xFF,
            p.wy == 0,
            p.wx == 0,
            forall|i: int| 0 <= i < SCREEN_PIXELS ==> p.video_buffer@[i] == 0,
            forall|i: int| 0 <= i < 160 ==> p.oam@[i] == 0,
            forall|i: int| 0 <= i < 8192 ==> p.vram@[i] == 0,
            forall|i: int| 0 <= i < TILESET_PIXELS ==> p.bg_tileset@[i] == 0,
            forall|i: int| 0 <= i < TILESET_PIXELS ==> p.win_tileset@[i] == 0,
            p.vblank_interrupt == 0,
            p.stat_interrupt == 0,
    {
        PPU {
            lcdc: 0x91,
            lcds: 0,
            scy: 0,
            scx: 0,
            ly: 0,
            lyc: 0x00,
            bg_palette: 0xFF,
            obp0: 0xFF,
            obp1: 0xFF,
            wy: 0,
            wx: 0,
            video_buffer: [0u8; SCREEN_PIXELS],
            oam: [0u8; 160],
            vram: [0u8; 8192],
            bg_tileset: [0u8; TILESET_PIXELS],
            win_tileset: [0u8; TILESET_PIXELS],
            vblank_interrupt: 0,
            stat_interrupt: 0,
        }
    }


    /// Advances the PPU by one scanline. A STAT interrupt is raised when LY
    /// equals LYC and STAT bit 6 is set. With the LCD on (LCDC bit 7), LY
    /// steps through the blanking lines 144 to 153 (entering 145 raises the
    /// V-Blank interrupt) and wraps from 154 to 0; on a visible line the
    /// tile sets are rebuilt, the line is drawn and LY moves on.
    pub fn ppu_step(&mut self)
        requires
            old(self).step_ok(),
        ensures
            old(self).steps_to(*final(self)),
    {
        let done = self.advance();
        assert(done);
    }

    /// A step when it can be made: `false` when a sprite lookup would fall
    /// outside its decoded tile, which stops the step part way (the state is
    /// then left as the drawing had reached).
    pub fn try_step(&mut self) -> (done: bool)
        ensures
            done == old(self).step_ok(),
            done ==> old(self).steps_to(*final(self)),
    {
        self.advance()
    }

    fn advance(&mut self) -> (done: bool)
        ensures
            done == old(self).step_ok(),
            done ==> old(self).steps_to(*final(self)),
    {
        let ghost p0 = *self;
        if self.ly == self.lyc && (self.lcds & 0x40) > 0 {
            // Raise a STAT interrupt
            self.stat_interrupt = 1;
        }
        proof {
            let lcds = p0.lcds;
            assert(((lcds & 0x40) > 0) == ((lcds >> 6u8) & 1 == 1)) by (bit_vector);
        }
        if self.get_bit(self.lcdc, 7) == 1 {
            match self.ly {
                144 => {
                    self.ly += 1;
                    // Raise the V-Blank interrupt
                    self.vblank_interrupt = 1;
                },
                145..=153 => self.ly += 1,
                154 => self.ly = 0,
                _ => (),
            }
            if self.ly < 144 {
                let ghost ly1 = self.ly;
                let ghost mid = *self;
                self.bg_tileset = self.tilesets(TileLayer::Background);
                self.win_tileset = self.tilesets(TileLayer::Window);
                proof {
                    let st = p0.line_state(ly1);
                    assert(self.bg_tileset@ =~= st.0);
                    assert(self.win_tileset@ =~= st.1);
                    assert(self.line_from(self.bg_tileset@, self.win_tileset@, ly1) =~= st.2);
                    lemma_sprites_buffer_free(PPU { ly: ly1, ..p0 }, *self, st.2);
                }
                let done = self.render_line();
                if !done {
                    return false;
                }
                self.ly += 1;
            }
        }
        true
    }

    fn get_bit(&self, byte: u8, bit: u8) -> (r: u8)
        requires
            bit < 8,
        ensures
            r == bit_at(byte, bit as int),
            r <= 1,
    {
        assert((byte >> bit) & 1 <= 1) by (bit_vector);
        (byte >> bit) & 1
    }

    /// Reads object attribute memory; the address is taken modulo 256.
    pub fn oam_read(&self, address: u16) -> (r: u8)
        requires
            address % 256 < 160,
        ensures
            r == self.oam@[address as int % 256],
    {
        assert(address & 0xFF == address % 256) by (bit_vector);
        self.oam[(address & 0xFF) as usize]
    }

    pub fn oam_write(&mut self, address: u16, val: u8)
        requires
            address % 256 < 160,
        ensures
            *final(self) == (PPU { oam: spec_oam_update(old(self).oam, address, val), ..*old(self) }),
            final(self).oam@ == old(self).oam@.update(address as int % 256, val),
    {
        assert(address & 0xFF == address % 256) by (bit_vector);
        self.oam[(address & 0xFF) as usize] = val;
    }

    /// Writes video RAM; the address is taken modulo 0x2000.
    pub fn vram_write(&mut self, address: u16, value: u8)
        ensures
            *final(self) == (PPU { vram: spec_vram_update(old(self).vram, address, value), ..*old(self) }),
            final(self).vram@ == old(self).vram@.update(address as int % 8192, value),
    {
        assert(address & 0x1FFF == address % 8192) by (bit_vector);
        self.vram[(address & 0x1FFF) as usize] = value;
    }

    pub fn vram_read(&self, address: u16) -> (r: u8)
        ensures
            r == self.vram@[address as int % 8192],
    {
        assert(address & 0x1FFF == address % 8192) by (bit_vector);
        self.vram[(address & 0x1FFF) as usize]
    }


    fn tile_map(&self, bit: u8) -> (r: (u16, u16))
        requires
            bit < 8,
        ensures
            r.0 == 0x8000 + tile_map_offset(self.lcdc, bit as int),
            r.1 == r.0 + 0x3FF,
    {
        match self.get_bit(self.lcdc, bit) {
            0 => (0x9800, 0x9BFF),
            _ => (0x9C00, 0x9FFF),
        }
    }

    fn addressing_mode(&self, tile_index: u8) -> (r: u16)
        ensures
            r == tile_data_offset(self.lcdc, tile_index),
    {
        match self.get_bit(self.lcdc, 4) {
            0 => {
                let signed = (tile_index as i8) as i16;
                assert(signed == (if tile_index < 128 { tile_index as int } else { tile_index - 256 })) by (bit_vector)
                    requires signed == (tile_index as i8) as i16;
                (0x1000 + signed * 16) as u16
            },
            _ => (tile_index as u16) * 16,
        }
    }

    /// Builds the 256 x 256 tile set of a layer from the tile map and tile
    /// data in video RAM.
    fn tilesets(&self, layer: TileLayer) -> (background: [u8; TILESET_PIXELS])
        ensures
            forall|idx: int|
                0 <= idx < TILESET_PIXELS ==> #[trigger] background@[idx] == tileset_pixel(
                    self.vram@,
                    self.lcdc,
                    layer_map_bit(layer),
                    idx,
                ),
    {
        let bit: u8 = match layer {
            TileLayer::Background => 3,
            TileLayer::Window => 6,
        };
        let ghost b = bit as int;
        let tilemap = self.tile_map(bit);
        let mut tile_line: u32 = 0;
        let mut background = [0u8; TILESET_PIXELS];
        let mut pos_in_line: u32 = 0;
        let mut i: u16 = tilemap.0;
        // For each address in the tile map
        while i < tilemap.1
            invariant
                b == layer_map_bit(layer),
                tilemap.0 == 0x8000 + tile_map_offset(self.lcdc, b),
                tilemap.1 == tilemap.0 + 0x3FF,
                tilemap.0 <= i <= tilemap.1,
                pos_in_line == i - tilemap.0,
                pos_in_line == 0 ==> tile_line == 0,
                pos_in_line > 0 ==> tile_line == 8 * ((pos_in_line - 1) / 32),
                forall|idx: int|
                    0 <= idx < TILESET_PIXELS ==> #[trigger] background@[idx] == (if tile_number(idx)
                        < pos_in_line {
                        tileset_pixel(self.vram@, self.lcdc, b, idx)
                    } else {
                        0
                    }),
            decreases tilemap.1 - i,
        {
            // Read the tile index and find its data
            let tile_index = self.vram_read(i);
            let tile_address = self.addressing_mode(tile_index);
            let mut tile = [0u8; 16];
            for j in 0..16
                invariant
                    tile_address == tile_data_offset(self.lcdc, tile_index),
                    forall|jj: int| 0 <= jj < j ==> #[trigger] tile@[jj] == self.vram@[tile_address + jj],
            {
                tile[j] = self.vram_read(tile_address + j as u16);
            }
            let tile_pixels = extract_tile(tile);
            if pos_in_line % 32 == 0 && pos_in_line != 0 {
                tile_line += 8;
            }
            let ghost pos = pos_in_line as int;
            assert(tile_line == 8 * (pos / 32));
            let ghost before = background@;
            // Copy the tile's pixels into place
            for k in 0..8
                invariant
                    0 <= pos < 1023,
                    tile_line == 8 * (pos / 32),
                    pos_in_line == pos,
                    b == layer_map_bit(layer),
                    i == 0x8000 + tile_map_offset(self.lcdc, b) + pos,
                    tile_index == self.vram@[tile_map_offset(self.lcdc, b) + pos],
                    tile_address == tile_data_offset(self.lcdc, tile_index),
                    forall|r: int, c: int|
                        0 <= r < 8 && 0 <= c < 8 ==> #[trigger] tile_pixels[r][c] == tile_pixel(
                            tile[2 * r],
                            tile[2 * r + 1],
                            c,
                        ),
                    forall|jj: int| 0 <= jj < 16 ==> #[trigger] tile@[jj] == self.vram@[tile_address + jj],
                    forall|idx: int|
                        0 <= idx < TILESET_PIXELS ==> #[trigger] background@[idx] == (if tile_number(idx)
                            < pos || (tile_number(idx) == pos && row_in_tile(idx) < k) {
                            tileset_pixel(self.vram@, self.lcdc, b, idx)
                        } else {
                            0
                        }),
            {
                for l in 0..8
                    invariant
                        0 <= pos < 1023,
                        0 <= k < 8,
                        tile_line == 8 * (pos / 32),
                        pos_in_line == pos,
                        b == layer_map_bit(layer),
                        tile_index == self.vram@[tile_map_offset(self.lcdc, b) + pos],
                        tile_address == tile_data_offset(self.lcdc, tile_index),
                        forall|r: int, c: int|
                            0 <= r < 8 && 0 <= c < 8 ==> #[trigger] tile_pixels[r][c] == tile_pixel(
                                tile[2 * r],
                                tile[2 * r + 1],
                                c,
                            ),
                        forall|jj: int|
                            0 <= jj < 16 ==> #[trigger] tile@[jj] == self.vram@[tile_address + jj],
                        forall|idx: int|
                            0 <= idx < TILESET_PIXELS ==> #[trigger] background@[idx] == (if tile_number(
                                idx,
                            ) < pos || (tile_number(idx) == pos && (row_in_tile(idx) < k || (
                            row_in_tile(idx) == k && col_in_tile(idx) < l))) {
                                tileset_pixel(self.vram@, self.lcdc, b, idx)
                            } else {
                                0
                            }),
                {
                    let ghost old_bg = background@;
                    let index = (256 * tile_line + 256 * k + l + 8 * (pos_in_line % 32)) as usize;
                    proof {
                        lemma_tileset_index(pos, k as int, l as int);
                        assert(index == tileset_index(pos, k as int, l as int));
                    }
                    background[index] = tile_pixels[k as usize][l as usize];
                    proof {
                        assert forall|idx: int| 0 <= idx < TILESET_PIXELS implies #[trigger] background@[idx]
                            == (if tile_number(idx) < pos || (tile_number(idx) == pos && (row_in_tile(idx)
                            < k || (row_in_tile(idx) == k && col_in_tile(idx) < l + 1))) {
                            tileset_pixel(self.vram@, self.lcdc, b, idx)
                        } else {
                            0
                        }) by {
                            lemma_tileset_decompose(idx);
                            if idx != index {
                                assert(background@[idx] == old_bg[idx]);
                            }
                        }
                    }
                }
            }
            proof {
                assert forall|idx: int| 0 <= idx < TILESET_PIXELS implies #[trigger] background@[idx]
                    == (if tile_number(idx) < pos + 1 {
                    tileset_pixel(self.vram@, self.lcdc, b, idx)
                } else {
                    0
                }) by {
                    lemma_tileset_decompose(idx);
                }
            }
            pos_in_line += 1;
            i += 1;
        }
        proof {
            assert forall|idx: int| 0 <= idx < TILESET_PIXELS implies #[trigger] background@[idx]
                == tileset_pixel(self.vram@, self.lcdc, b, idx) by {
                lemma_tileset_decompose(idx);
            }
        }
        background
    }


    fn is_visible(&self, x: u8, y: u8) -> (r: bool)
        ensures
            r == (x != 0 && (self.ly + 16) % 256 >= y && self.ly < (y + sprite_height(self.lcdc)) % 256),
    {
        let h: u8 = match self.get_bit(self.lcdc, 2) {
            0 => 8,
            _ => 16,
        };
        (x != 0) && (self.ly.wrapping_add(16) >= y) && (self.ly < y.wrapping_add(h))
    }

    fn double_tile(&self, tile1: [[u8; 8]; 8], tile2: [[u8; 8]; 8]) -> (tile: [[u8; 8]; 16])
        ensures
            forall|r: int| 0 <= r < 8 ==> #[trigger] tile[r] == tile1[r],
            forall|r: int| 8 <= r < 16 ==> #[trigger] tile[r] == tile2[r - 8],
    {
        let mut tile = [[0u8; 8]; 16];
        for i in 0..8
            invariant
                forall|r: int| 0 <= r < i ==> #[trigger] tile[r] == tile1[r],
                forall|r: int| 8 <= r < 8 + i ==> #[trigger] tile[r] == tile2[r - 8],
        {
            tile[i] = tile1[i];
            tile[i + 8] = tile2[i];
        }
        tile
    }

    /// Reads the 16 bytes of a tile from video RAM.
    fn read_tile(&self, tile_address: u16) -> (tile: [u8; 16])
        ensures
            forall|j: int| 0 <= j < 16 ==> #[trigger] tile@[j] == self.vram@[(tile_address + j) % 8192],
    {
        let mut tile = [0u8; 16];
        for j in 0..16
            invariant
                forall|jj: int| 0 <= jj < j ==> #[trigger] tile@[jj] == self.vram@[(tile_address + jj) % 8192],
        {
            tile[j] = self.vram_read(tile_address.wrapping_add(j as u16));
        }
        tile
    }


    /// Draws column `k` of sprite `i` on line LY when the sprite's priority
    /// and the window let it through.
    /// Whether a sprite column is drawn: always for priority 0, otherwise
    /// only over colour 0 and, for 8-pixel sprites, outside the window.
    fn sprite_column_drawn(&self, index: usize, k: u8, row: u8, priority: u8, tall: bool) -> (r: bool)
        requires
            index < SCREEN_PIXELS,
            priority <= 1,
        ensures
            r == (priority == 0 || (self.video_buffer@[index as int] == 0 && (!tall ==> !self.in_window_spec(
                k as int,
                row as int,
            )))),
    {
        if tall {
            (priority == 0) || (priority == 1 && self.video_buffer[index] == 0)
        } else {
            (priority == 0) || (priority == 1 && self.video_buffer[index] == 0) && !self.pixel_in_window(
                k,
                row,
            )
        }
    }

    #[verifier::spinoff_prover]
    #[verifier::rlimit(60)]
    fn draw_sprite_column(
        &mut self,
        Ghost(p0): Ghost<PPU>,
        i: usize,
        k: u8,
        row: u8,
        priority: u8,
        y_flip: u8,
        x_flip: u8,
        tall: bool,
        tile_pixels: &[[u8; 8]; 16],
    ) -> (done: bool)
        requires
            0 <= i < 40,
            *old(self) == (PPU { video_buffer: old(self).video_buffer, ..p0 }),
            row == sprite_row(p0, i as int),
            priority == bit_at(sprite_flags(p0, i as int), 7),
            y_flip == bit_at(sprite_flags(p0, i as int), 6),
            x_flip == bit_at(sprite_flags(p0, i as int), 5),
            priority <= 1,
            y_flip <= 1,
            x_flip <= 1,
            tall == (sprite_height(p0.lcdc) == 16),
            forall|r: int, c: int|
                0 <= r < 16 && 0 <= c < 8 ==> #[trigger] tile_pixels[r][c] == tile_pixel(
                    p0.vram@[(sprite_tile_address(p0, i as int) + 2 * r) % 8192],
                    p0.vram@[(sprite_tile_address(p0, i as int) + 2 * r + 1) % 8192],
                    c,
                ),
        ensures
            done == (sprite_pixel_drawn(p0, old(self).video_buffer@, i as int, k as int) ==> sprite_pixel_safe(
                p0,
                i as int,
                k as int,
            )),
            *final(self) == (PPU { video_buffer: final(self).video_buffer, ..p0 }),
            done ==> final(self).video_buffer@ == (if sprite_pixel_drawn(
                p0,
                old(self).video_buffer@,
                i as int,
                k as int,
            ) {
                old(self).video_buffer@.update(
                    sprite_screen_index(p0, k as int),
                    sprite_pixel_value(p0, i as int, k as int),
                )
            } else {
                old(self).video_buffer@
            }),
    {
        let ly = self.ly;
        let index = (ly.wrapping_mul(160).wrapping_add(k)) as usize;
        assert(index == sprite_screen_index(p0, k as int));
        let drawn = self.sprite_column_drawn(index, k, row, priority, tall);
        assert(drawn == sprite_pixel_drawn(p0, self.video_buffer@, i as int, k as int));
        if drawn {
            // The decoded tile is indexed by the column first
            let inside = if tall {
                k < 16 && row < 8 && y_flip == 0 && (x_flip == 0 || k < 8)
            } else {
                k < 8 && row < 8
            };
            assert(inside == sprite_pixel_safe(p0, i as int, k as int));
            if !inside {
                return false;
            }
            let pixel = select_sprite_pixel(tile_pixels, k, row, y_flip, x_flip, tall);
            proof {
                let kk: int = if x_flip == 1 { 7 - k } else { k as int };
                let rr: int = if y_flip == 1 { 7 - row } else { row as int };
                assert(0 <= kk < 16 && 0 <= rr < 8);
                assert(tile_pixels[kk][rr] == tile_pixel(
                    p0.vram@[(sprite_tile_address(p0, i as int) + 2 * kk) % 8192],
                    p0.vram@[(sprite_tile_address(p0, i as int) + 2 * kk + 1) % 8192],
                    rr,
                ));
                assert(pixel == sprite_pixel_value(p0, i as int, k as int));
            }
            self.video_buffer[index] = pixel;
        }
        true
    }

    /// Draws the sprites that cross line LY over the frame buffer.
    fn render_sprites(&mut self) -> (done: bool)
        ensures
            done == sprites_spec(*old(self), old(self).video_buffer@) is Some,
            done ==> final(self).video_buffer@ == sprites_spec(*old(self), old(self).video_buffer@)->0,
            *final(self) == (PPU { video_buffer: final(self).video_buffer, ..*old(self) }),
    {
        let ghost p0 = *self;
        let ghost vb0 = self.video_buffer@;
        if self.get_bit(self.lcdc, 1) == 1 {
            let mut i: usize = 0;
            while i < 40
                invariant
                    0 <= i <= 40,
                    bit_at(p0.lcdc, 1) == 1,
                    p0 == *old(self),
                    vb0 == old(self).video_buffer@,
                    sprites_fold(p0, vb0, i as nat) == Some(self.video_buffer@),
                    *self == (PPU { video_buffer: self.video_buffer, ..p0 }),
                decreases 40 - i,
            {
                let y = self.oam[i];
                let x = self.oam[i + 1];
                let tile_index = self.oam[i + 2];
                let tile_address: u16 = 0x0 + (tile_index as u16) * 16;
                let flags = self.oam[i + 3];
                let ly = self.ly;
                let priority = self.get_bit(flags, 7);
                let y_flip = self.get_bit(flags, 6);
                let x_flip = self.get_bit(flags, 5);
                if self.is_visible(x, y) {
                    let tall = self.get_bit(self.lcdc, 2) == 1;
                    let tile1 = self.read_tile(tile_address);
                    let tile_pixels1 = extract_tile(tile1);
                    let tile2 = self.read_tile(tile_address + 16);
                    let tile_pixels2 = extract_tile(tile2);
                    let tile_pixels = self.double_tile(tile_pixels1, tile_pixels2);
                    let row = ly.wrapping_sub(y).wrapping_add(16);
                    let ghost v_start = self.video_buffer@;
                    if x >= 8 {
                        let mut k: u8 = x - 8;
                        while k < x
                            invariant
                                x >= 8,
                                x - 8 <= k <= x,
                                0 <= i < 40,
                                sprite_visible(p0, i as int),
                                sprite_x(p0, i as int) == x,
                                sprite_y(p0, i as int) == y,
                                sprite_flags(p0, i as int) == flags,
                                sprite_tile_address(p0, i as int) == tile_address,
                                ly == p0.ly,
                                row == sprite_row(p0, i as int),
                                priority == bit_at(flags, 7),
                                y_flip == bit_at(flags, 6),
                                x_flip == bit_at(flags, 5),
                                priority <= 1,
                                y_flip <= 1,
                                x_flip <= 1,
                                tall == (sprite_height(p0.lcdc) == 16),
                                forall|r: int, c: int|
                                    0 <= r < 16 && 0 <= c < 8 ==> #[trigger] tile_pixels[r][c] == tile_pixel(
                                        p0.vram@[(tile_address + 2 * r) % 8192],
                                        p0.vram@[(tile_address + 2 * r + 1) % 8192],
                                        c,
                                    ),
                                sprites_fold(p0, vb0, i as nat) == Some(v_start),
                                bit_at(p0.lcdc, 1) == 1,
                                p0 == *old(self),
                                vb0 == old(self).video_buffer@,
                                sprite_columns(p0, v_start, i as int, (k - (x - 8)) as nat) == Some(
                                    self.video_buffer@,
                                ),
                                *self == (PPU { video_buffer: self.video_buffer, ..p0 }),
                            decreases x - k,
                        {
                            let drawn = self.draw_sprite_column(
                                Ghost(p0),
                                i,
                                k,
                                row,
                                priority,
                                y_flip,
                                x_flip,
                                tall,
                                &tile_pixels,
                            );
                            if !drawn {
                                proof {
                                    let j = (k - (x - 8) + 1) as nat;
                                    assert(sprite_columns(p0, v_start, i as int, j) is None);
                                    if sprite_columns(p0, v_start, i as int, 8) is Some {
                                        lemma_sprite_columns_prefix(p0, v_start, i as int, j, 8);
                                    }
                                    assert(sprites_fold(p0, vb0, (i + 1) as nat) is None);
                                    if sprites_fold(p0, vb0, 40) is Some {
                                        lemma_sprites_fold_prefix(p0, vb0, (i + 1) as nat, 40);
                                    }
                                }
                                return false;
                            }
                            k = k + 1;
                        }
                    }
                }
                i = i + 1;
            }
        }
        true
    }

    /// Draws line LY: the background and window pixels, then the sprites.
    fn render_line(&mut self) -> (done: bool)
        requires
            old(self).ly < 144,
        ensures
            done == sprites_spec(
                *old(self),
                old(self).line_from(old(self).bg_tileset@, old(self).win_tileset@, old(self).ly),
            ) is Some,
            done ==> final(self).video_buffer@ == sprites_spec(
                *old(self),
                old(self).line_from(old(self).bg_tileset@, old(self).win_tileset@, old(self).ly),
            )->0,
            *final(self) == (PPU { video_buffer: final(self).video_buffer, ..*old(self) }),
    {
        let ghost p0 = *self;
        let y = self.ly;
        for x in 0..160u8
            invariant
                y == p0.ly,
                y < 144,
                *self == (PPU { video_buffer: self.video_buffer, ..p0 }),
                forall|i: int|
                    0 <= i < SCREEN_PIXELS ==> #[trigger] self.video_buffer@[i] == (if 160 * y <= i < 160
                        * y + x {
                        p0.pixel_spec((i - 160 * y) as u8, y)
                    } else {
                        p0.video_buffer@[i]
                    }),
        {
            let v = self.render_pixel(x, y);
            self.video_buffer[(x as u32 + 160 * y as u32) as usize] = v;
        }
        assert(self.video_buffer@ =~= p0.line_from(p0.bg_tileset@, p0.win_tileset@, y));
        proof {
            lemma_sprites_buffer_free(p0, *self, self.video_buffer@);
        }
        self.render_sprites()
    }

    fn pixel_in_window(&self, x: u8, y: u8) -> (r: bool)
        ensures
            r == self.in_window_spec(x as int, y as int),
    {
        let signed_x = x as i32;
        let signed_y = y as i32;
        let signed_wx = (self.wx as i32) - 7;
        let signed_wy = self.wy as i32;
        (signed_x >= signed_wx) && (signed_y >= signed_wy)
    }

    #[verifier::spinoff_prover]
    fn pixel_from_window(&self, x: u8, y: u8) -> (r: u8)
        ensures
            r == self.window_pixel_from(self.win_tileset@, x, y),
    {
        let x = x.wrapping_sub(self.wx.wrapping_sub(7)) as u32;
        let y = y.wrapping_sub(self.wy) as u32;
        self.win_tileset[(x + 256 * y) as usize]
    }

    fn pixel_from_background(&self, x: u8, y: u8) -> (r: u8)
        ensures
            r == self.background_pixel_from(self.bg_tileset@, x, y),
    {
        let x = x.wrapping_add(self.scx) as u32 % 256;
        let y = y.wrapping_add(self.scy) as u32 % 256;
        self.bg_tileset[(x + 256 * y) as usize]
    }

    fn render_pixel(&self, x: u8, y: u8) -> (r: u8)
        ensures
            r == self.pixel_spec(x, y),
    {
        if self.get_bit(self.lcdc, 0) != 0 {
            if self.get_bit(self.lcdc, 5) != 0 {
                if self.pixel_in_window(x, y) {
                    self.pixel_from_window(x, y)
                } else {
                    self.pixel_from_background(x, y)
                }
            } else {
                self.pixel_from_background(x, y)
            }
        } else {
            0
        }
    }
}

pub open spec fn spec_oam_update(oam: [u8; 160], address: u16, val: u8) -> [u8; 160] {
    vstd::array::spec_array_update(oam, address as int % 256, val)
}

pub open spec fn spec_vram_update(vram: [u8; 8192], address: u16, val: u8) -> [u8; 8192] {
    vstd::array::spec_array_update(vram, address as int % 8192, val)
}

} // verus!

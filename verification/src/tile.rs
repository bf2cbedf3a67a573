//! Decoding of the 2-bit-per-pixel tile format of video RAM.

use vstd::prelude::*;

verus! {

/// Bit `k` (0 = least significant) of a byte.
pub open spec fn bit_at(x: u8, k: int) -> u8 {
    (x >> (k as u8)) & 1
}

/// The colour number (0 to 3) of the pixel in column `col` of a tile row
/// given by its two bytes: the first byte gives the low bit, the second
/// the high bit, and column 0 is the most significant bit.
pub open spec fn tile_pixel(lo: u8, hi: u8, col: int) -> u8 {
    (2 * bit_at(hi, 7 - col) + bit_at(lo, 7 - col)) as u8
}

proof fn lemma_pixel_bits(lo: u8, hi: u8, shift: u8)
    by (bit_vector)
    requires
        shift < 8,
    ensures
        (((hi >> shift) & 0b01) << 1) | ((lo >> shift) & 0b01) == 2 * ((hi >> shift) & 1) + ((lo
            >> shift) & 1),
        (hi >> shift) & 1 <= 1,
        (lo >> shift) & 1 <= 1,
{
}

/// Turns the 16 bytes of a tile into its 8x8 colour numbers: row `r` comes
/// from bytes `2r` (low bits) and `2r + 1` (high bits).
pub fn extract_tile(tile_data: [u8; 16]) -> (tile: [[u8; 8]; 8])
    ensures
        forall|r: int, c: int|
            0 <= r < 8 && 0 <= c < 8 ==> #[trigger] tile[r][c] == tile_pixel(
                tile_data[2 * r],
                tile_data[2 * r + 1],
                c,
            ),
{
    let mut tile = [[0u8; 8]; 8];
    for row in 0..8
        invariant
            forall|r: int, c: int|
                0 <= r < row && 0 <= c < 8 ==> #[trigger] tile[r][c] == tile_pixel(
                    tile_data[2 * r],
                    tile_data[2 * r + 1],
                    c,
                ),
    {
        // The two bytes of this row of pixels.
        let byte1 = tile_data[row * 2];
        let byte2 = tile_data[row * 2 + 1];
        let mut line = [0u8; 8];
        for col in 0..8
            invariant
                forall|c: int| 0 <= c < col ==> #[trigger] line[c] == tile_pixel(byte1, byte2, c),
        {
            let shift: u8 = 7 - col as u8;
            let color1 = (byte1 >> shift) & 0b01;
            let color2 = (byte2 >> shift) & 0b01;
            proof {
                lemma_pixel_bits(byte1, byte2, shift);
            }
            line[col] = (color2 << 1) | color1;
        }
        tile[row] = line;
    }
    tile
}

/// A tile row's pixels, left to right, take the bits of its two bytes from
/// the most significant down: the second byte gives the high bit of the
/// colour number and the first the low bit.
pub proof fn lemma_tile_row_bits(lo: u8, hi: u8)
    ensures
        tile_pixel(lo, hi, 0) == 2 * (hi / 128) + lo / 128,
        tile_pixel(lo, hi, 7) == 2 * (hi % 2) + lo % 2,
        forall|col: int| 0 <= col < 8 ==> #[trigger] tile_pixel(lo, hi, col) < 4,
{
    assert(bit_at(hi, 7) == hi / 128 && bit_at(lo, 7) == lo / 128) by {
        lemma_bit_value(hi, 7);
        lemma_bit_value(lo, 7);
    }
    assert(bit_at(hi, 0) == hi % 2 && bit_at(lo, 0) == lo % 2) by {
        lemma_bit_value(hi, 0);
        lemma_bit_value(lo, 0);
    }
    assert forall|col: int| 0 <= col < 8 implies #[trigger] tile_pixel(lo, hi, col) < 4 by {
        lemma_bit_value(hi, 7 - col);
        lemma_bit_value(lo, 7 - col);
    }
}

proof fn lemma_bit_value(x: u8, k: int)
    requires
        0 <= k < 8,
    ensures
        bit_at(x, k) <= 1,
        k == 7 ==> bit_at(x, k) == x / 128,
        k == 0 ==> bit_at(x, k) == x % 2,
{
    let kk = k as u8;
    assert((x >> kk) & 1 <= 1 && (kk == 7 ==> (x >> kk) & 1 == x / 128) && (kk == 0 ==> (x >> kk) & 1 == x
        % 2)) by (bit_vector);
}

} // verus!

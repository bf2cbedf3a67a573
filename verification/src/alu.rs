//! The arithmetic and logic of the CPU: results and flags of the 8-bit and
//! 16-bit operations, rotates, shifts and decimal adjust.

use vstd::prelude::*;
use crate::register::FlagsRegister;

verus! {

/// Addition of `v` and a carry-in to `a`: Z when the result is 0, N clear,
/// H on a carry out of bit 3, C on a carry out of bit 7.
pub open spec fn add8(a: u8, v: u8, cin: bool) -> (u8, FlagsRegister) {
    let c: int = if cin { 1 } else { 0 };
    let r = a + v + c;
    (
        (r % 256) as u8,
        FlagsRegister {
            zero: r % 256 == 0,
            subtract: false,
            half_carry: a % 16 + v % 16 + c > 15,
            carry: r > 255,
        },
    )
}

/// Subtraction of `v` and a borrow-in from `a`: Z when the result is 0, N
/// set, H on a borrow from bit 4, C on a borrow from bit 8.
pub open spec fn sub8(a: u8, v: u8, bin: bool) -> (u8, FlagsRegister) {
    let b: int = if bin { 1 } else { 0 };
    let r = a - v - b;
    (
        (r % 256) as u8,
        FlagsRegister {
            zero: r % 256 == 0,
            subtract: true,
            half_carry: a % 16 < v % 16 + b,
            carry: a < v + b,
        },
    )
}

/// Flags after AND (H set), OR and XOR (H clear): Z from the result, N and
/// C clear.
pub open spec fn logic_flags(r: u8, half: bool) -> FlagsRegister {
    FlagsRegister { zero: r == 0, subtract: false, half_carry: half, carry: false }
}

/// 8-bit increment: Z, N clear, H on a carry out of bit 3; C is kept.
pub open spec fn inc8(v: u8, f: FlagsRegister) -> (u8, FlagsRegister) {
    let r = ((v + 1) % 256) as u8;
    (r, FlagsRegister { zero: r == 0, subtract: false, half_carry: v % 16 == 15, carry: f.carry })
}

/// 8-bit decrement: Z, N set, H on a borrow from bit 4; C is kept.
pub open spec fn dec8(v: u8, f: FlagsRegister) -> (u8, FlagsRegister) {
    let r = ((v + 255) % 256) as u8;
    (r, FlagsRegister { zero: r == 0, subtract: true, half_carry: v % 16 == 0, carry: f.carry })
}

/// 16-bit addition to HL: Z kept, N clear, H on a carry out of bit 11, C
/// on a carry out of bit 15.
pub open spec fn add16_hl(hl: u16, v: u16, f: FlagsRegister) -> (u16, FlagsRegister) {
    let r = hl + v;
    (
        (r % 65536) as u16,
        FlagsRegister {
            zero: f.zero,
            subtract: false,
            half_carry: hl % 4096 + v % 4096 > 4095,
            carry: r > 65535,
        },
    )
}

/// A byte read as a signed offset.
pub open spec fn signed8(n: u8) -> int {
    if n < 128 {
        n as int
    } else {
        n - 256
    }
}

/// A 16-bit value plus a signed 8-bit offset: Z and N clear; H and C are the
/// carries out of bits 3 and 7 of the low byte plus the offset byte.
pub open spec fn add_offset(x: u16, n: u8) -> (u16, FlagsRegister) {
    (
        ((x + signed8(n)) % 65536) as u16,
        FlagsRegister {
            zero: false,
            subtract: false,
            half_carry: x % 16 + n % 16 > 15,
            carry: x % 256 + n > 255,
        },
    )
}

/// Rotate left: bit 7 goes to bit 0 and to the carry.
pub open spec fn rlc8(v: u8) -> u8 {
    ((v * 2) % 256 + v / 128) as u8
}

/// Rotate right: bit 0 goes to bit 7 and to the carry.
pub open spec fn rrc8(v: u8) -> u8 {
    (v / 2 + (v % 2) * 128) as u8
}

/// Rotate left through the carry.
pub open spec fn rl8(v: u8, c: bool) -> u8 {
    ((v * 2) % 256 + (if c { 1int } else { 0 })) as u8
}

/// Rotate right through the carry.
pub open spec fn rr8(v: u8, c: bool) -> u8 {
    (v / 2 + (if c { 128int } else { 0 })) as u8
}

/// Arithmetic shift right: bit 7 is kept.
pub open spec fn sra8(v: u8) -> u8 {
    (v / 2 + (v / 128) * 128) as u8
}

/// Shift left: bit 0 becomes 0.
pub open spec fn sla8(v: u8) -> u8 {
    ((v * 2) % 256) as u8
}

/// Logical shift right.
pub open spec fn srl8(v: u8) -> u8 {
    (v / 2) as u8
}

/// Exchange of the two nibbles.
pub open spec fn swap8(v: u8) -> u8 {
    ((v % 16) * 16 + v / 16) as u8
}

/// Flags of a shift or rotate of the CB table: N and H clear.
pub open spec fn shift_flags(zero: bool, carry: bool) -> FlagsRegister {
    FlagsRegister { zero: zero, subtract: false, half_carry: false, carry: carry }
}

/// Decimal adjust of A after a BCD addition or subtraction. After a
/// subtraction (N set) the correction is 0x06 for H and 0x60 for C; after
/// an addition the low correction also applies when the low nibble exceeds
/// 9, and the high one when A exceeds 0x99. Z from the result, H cleared,
/// C set when the high correction applies, N kept.
pub open spec fn daa8(a: u8, f: FlagsRegister) -> (u8, FlagsRegister) {
    let lo = if f.subtract { f.half_carry } else { f.half_carry || a % 16 > 9 };
    let hi = if f.subtract { f.carry } else { f.carry || a > 0x99 };
    let adjust: int = (if lo { 0x06int } else { 0 }) + (if hi { 0x60int } else { 0 });
    let x = if f.subtract { (a - adjust) % 256 } else { (a + adjust) % 256 };
    (x as u8, FlagsRegister { zero: x == 0, subtract: f.subtract, half_carry: false, carry: hi })
}

pub proof fn lemma_add8_bits(a: u32, v: u32, c: u32, r: u32)
    by (bit_vector)
    requires
        a < 256,
        v < 256,
        c < 2,
        r == a + v + c,
    ensures
        (r & 0x100 != 0) == (a + v + c > 255),
        ((a ^ v ^ r) & 0x10 != 0) == ((a & 15) + (v & 15) + c > 15),
        a & 15 == a % 16,
        v & 15 == v % 16,
{
}

pub proof fn lemma_sub8_bits(a: u32, v: u32, c: u32, r: u32)
    by (bit_vector)
    requires
        a < 256,
        v < 256,
        c < 2,
        r == (if a >= v + c { a - v - c } else { 0x1_0000_0000 + a - v - c }),
    ensures
        (r & 0x100 != 0) == (a < v + c),
        ((a ^ v ^ r) & 0x10 != 0) == ((a & 15) < (v & 15) + c),
        a & 15 == a % 16,
        v & 15 == v % 16,
{
}

pub proof fn lemma_add16_bits(a: u32, v: u32, r: u32)
    by (bit_vector)
    requires
        a < 65536,
        v < 65536,
        r == a + v,
    ensures
        (r & 0x10000 != 0) == (a + v > 65535),
        ((a ^ v ^ r) & 0x1000 != 0) == ((a & 4095) + (v & 4095) > 4095),
        a & 4095 == a % 4096,
        v & 4095 == v % 4096,
{
}

pub proof fn lemma_rlc_bits(v: u8, x: u32)
    by (bit_vector)
    requires
        x == v,
    ensures
        ((v << 1u8) | (v >> 7u8)) as u32 == (x * 2) % 256 + x / 128,
        (v & 0x80u8 != 0u8) == (x >= 128),
{
}

pub proof fn lemma_rrc_bits(v: u8, x: u32)
    by (bit_vector)
    requires
        x == v,
    ensures
        ((v >> 1u8) | (v << 7u8)) as u32 == x / 2 + (x % 2) * 128,
        (v & 0x01u8) as u32 == x % 2,
{
}

pub proof fn lemma_rl_bits(v: u8, x: u32, c: u8, y: u32)
    by (bit_vector)
    requires
        x == v,
        c < 2,
        y == c,
    ensures
        ((v << 1u8) | c) as u32 == (x * 2) % 256 + y,
        (v >> 7u8 != 0u8) == (x >= 128),
{
}

pub proof fn lemma_rr_bits(v: u8, x: u32, c: u8, y: u32)
    by (bit_vector)
    requires
        x == v,
        c < 2,
        y == c,
    ensures
        ((v >> 1u8) | (c << 7u8)) as u32 == x / 2 + y * 128,
        (v & 1u8 != 0u8) == (x % 2 == 1),
{
}

pub proof fn lemma_sra_bits(v: u8, x: u32)
    by (bit_vector)
    requires
        x == v,
    ensures
        ((v >> 1u8) | (v & 0x80u8)) as u32 == x / 2 + (x / 128) * 128,
{
}

pub proof fn lemma_sla_bits(v: u8, x: u32)
    by (bit_vector)
    requires
        x == v,
    ensures
        (v << 1u8) as u32 == (x * 2) % 256,
{
}

pub proof fn lemma_srl_bits(v: u8, x: u32)
    by (bit_vector)
    requires
        x == v,
    ensures
        (v >> 1u8) as u32 == x / 2,
{
}

pub proof fn lemma_swap_bits(v: u8, x: u32)
    by (bit_vector)
    requires
        x == v,
    ensures
        ((v << 4u8) | (v >> 4u8)) as u32 == (x % 16) * 16 + x / 16,
        (v & 0xFu8) as u32 == x % 16,
{
}

/// Rotating left and then right (or right and then left) gives the byte back.
pub proof fn lemma_rotate_inverse(v: u8)
    ensures
        rrc8(rlc8(v)) == v,
        rlc8(rrc8(v)) == v,
{
    if v < 128 {
        assert(rlc8(v) == 2 * v);
    } else {
        assert(rlc8(v) == 2 * v - 255);
    }
    assert(v == 2 * (v / 2) + v % 2);
    if v % 2 == 0 {
        assert(rrc8(v) == v / 2);
    } else {
        assert(rrc8(v) == v / 2 + 128);
    }
}

/// A rotate through the carry is undone by the rotate the other way with
/// the carry that it shifted out.
pub proof fn lemma_rotate_carry_inverse(v: u8, c: bool)
    ensures
        rr8(rl8(v, c), v >= 128) == v,
        rl8(rr8(v, c), v % 2 == 1) == v,
{
    let ci: int = if c { 1 } else { 0 };
    if v < 128 {
        assert(rl8(v, c) == 2 * v + ci);
    } else {
        assert(rl8(v, c) == 2 * v - 256 + ci);
    }
    assert(rr8(v, c) == v / 2 + 128 * ci);
}

/// Swapping the nibbles twice gives the byte back.
pub proof fn lemma_swap_involution(v: u8)
    ensures
        swap8(swap8(v)) == v,
{
    let w = swap8(v);
    assert(v == 16 * (v / 16) + v % 16);
    assert(w == 16 * (v % 16) + v / 16);
    assert(w % 16 == v / 16);
    assert(w / 16 == v % 16);
}

/// Subtracting what was added gives the first operand back, and an
/// increment is undone by a decrement.
pub proof fn lemma_sub_undoes_add(a: u8, v: u8, f: FlagsRegister, g: FlagsRegister)
    ensures
        sub8(add8(a, v, false).0, v, false).0 == a,
        dec8(inc8(a, f).0, g).0 == a,
{
}

/// The comparison that CP makes: Z when the operands are equal, C when A
/// is below the operand.
pub proof fn lemma_compare_flags(a: u8, v: u8)
    ensures
        sub8(a, v, false).1.zero <==> a == v,
        sub8(a, v, false).1.carry <==> a < v,
{
}

/// Whether a byte holds two decimal digits.
pub open spec fn is_bcd(v: u8) -> bool {
    v % 16 <= 9 && v / 16 <= 9
}

/// The number that the two decimal digits of a byte stand for.
pub open spec fn bcd_value(v: u8) -> int {
    10 * (v / 16) + v % 16
}

/// DAA after an addition of decimal bytes whose digit sums are given: the
/// corrected digits, and whether the sum reaches 100.
proof fn lemma_daa_digits(x: u8, y: u8, hi: int, lo: int, carry_out: bool)
    requires
        is_bcd(x),
        is_bcd(y),
        lo == (if x % 16 + y % 16 >= 10 { x % 16 + y % 16 - 10 } else { x % 16 + y % 16 }),
        hi == x / 16 + y / 16 + (if x % 16 + y % 16 >= 10 { 1int } else { 0 }) - (if carry_out { 10int } else { 0 }),
        carry_out == (x / 16 + y / 16 + (if x % 16 + y % 16 >= 10 { 1int } else { 0 }) >= 10),
    ensures
        daa8(add8(x, y, false).0, add8(x, y, false).1).0 == 16 * hi + lo,
        daa8(add8(x, y, false).0, add8(x, y, false).1).1.carry == carry_out,
{
    let a = x / 16;
    let b = x % 16;
    let c = y / 16;
    let d = y % 16;
    let raw = x + y;
    assert(raw == 16 * (a + c) + (b + d));
    let t = add8(x, y, false).0;
    let f = add8(x, y, false).1;
    assert(f.half_carry == (b + d > 15));
    assert(!f.subtract);
    if raw >= 256 {
        assert(t == raw - 256);
        assert(f.carry);
    } else {
        assert(t == raw);
        assert(!f.carry);
    }
    if b + d >= 16 {
        assert(t % 16 == b + d - 16);
    } else {
        assert(t % 16 == b + d) by {
            if raw >= 256 {
                assert(t == 16 * (a + c - 16) + (b + d));
            }
        }
    }
}

/// DAA after adding two decimal bytes gives the decimal digits of their sum
/// modulo 100, with C set when the sum reaches 100, Z when the result is 0,
/// and H and N clear.
pub proof fn lemma_daa_after_add(x: u8, y: u8)
    requires
        is_bcd(x),
        is_bcd(y),
    ensures
        ({
            let (a, f) = add8(x, y, false);
            let (r, g) = daa8(a, f);
            let sum = bcd_value(x) + bcd_value(y);
            &&& is_bcd(r)
            &&& bcd_value(r) == sum % 100
            &&& g.carry == (sum >= 100)
            &&& g.zero == (r == 0)
            &&& !g.half_carry
            &&& !g.subtract
        }),
{
    let b = x % 16;
    let d = y % 16;
    let lo = if b + d >= 10 { b + d - 10 } else { b + d };
    let carry_in: int = if b + d >= 10 { 1 } else { 0 };
    let carry_out = x / 16 + y / 16 + carry_in >= 10;
    let hi = x / 16 + y / 16 + carry_in - (if carry_out { 10int } else { 0 });
    lemma_daa_digits(x, y, hi, lo, carry_out);
    let r = daa8(add8(x, y, false).0, add8(x, y, false).1).0;
    assert(r == 16 * hi + lo);
    assert(r % 16 == lo && r / 16 == hi);
    let sum = bcd_value(x) + bcd_value(y);
    assert(sum == 10 * (x / 16 + y / 16 + carry_in) + lo);
    if carry_out {
        assert(sum % 100 == 10 * hi + lo);
    } else {
        assert(sum % 100 == 10 * hi + lo);
    }
}

/// Addition: the result and the carry out make up the whole sum, H is the
/// carry out of the low nibbles, Z says the result is 0, N is clear.
pub proof fn lemma_add8_sum(a: u8, v: u8, cin: bool)
    ensures
        ({
            let (r, f) = add8(a, v, cin);
            let c: int = if cin { 1 } else { 0 };
            &&& r + (if f.carry { 256int } else { 0 }) == a + v + c
            &&& f.half_carry == (a % 16 + v % 16 + c >= 16)
            &&& f.zero == (r == 0)
            &&& !f.subtract
        }),
{
}

/// Subtraction: the result less a borrow of 256 is the whole difference, H
/// is the borrow from the low nibbles, Z says the result is 0, N is set.
pub proof fn lemma_sub8_difference(a: u8, v: u8, bin: bool)
    ensures
        ({
            let (r, f) = sub8(a, v, bin);
            let b: int = if bin { 1 } else { 0 };
            &&& r - (if f.carry { 256int } else { 0 }) == a - v - b
            &&& f.half_carry == (a % 16 - v % 16 - b < 0)
            &&& f.zero == (r == 0)
            &&& f.subtract
        }),
{
}

/// ADD HL: the result and the carry out of bit 15 make up the whole sum, H
/// is the carry out of bit 11, Z is kept and N cleared.
pub proof fn lemma_add16_sum(hl: u16, v: u16, f: FlagsRegister)
    ensures
        ({
            let (r, g) = add16_hl(hl, v, f);
            &&& r + (if g.carry { 65536int } else { 0 }) == hl + v
            &&& g.half_carry == (hl % 4096 + v % 4096 >= 4096)
            &&& g.zero == f.zero
            &&& !g.subtract
        }),
{
}

/// INC and DEC move the byte by one, wrapping, keep C, and set H on the
/// carry into or borrow from bit 4.
pub proof fn lemma_inc_dec_step(v: u8, f: FlagsRegister)
    ensures
        inc8(v, f).0 == (if v == 255 { 0 } else { v + 1 }),
        dec8(v, f).0 == (if v == 0 { 255 } else { v - 1 }),
        inc8(v, f).1.carry == f.carry && dec8(v, f).1.carry == f.carry,
        inc8(v, f).1.half_carry == ((v + 1) % 16 == 0),
        dec8(v, f).1.half_carry == (v % 16 == 0),
        inc8(v, f).1.zero == (v == 255) && dec8(v, f).1.zero == (v == 1),
        !inc8(v, f).1.subtract && dec8(v, f).1.subtract,
{
}

} // verus!

//! The CPU's register file: eight 8-bit registers, the flags register and
//! the 16-bit register pairs built from them.

use vstd::prelude::*;

verus! {

/// The four flags of the `F` register.
#[derive(Clone, Copy, Debug, PartialEq, Eq, Structural)]
pub struct FlagsRegister {
    pub zero: bool,
    pub subtract: bool,
    pub half_carry: bool,
    pub carry: bool,
}

/// The value of a flag as a bit.
pub open spec fn bit_of(b: bool) -> int {
    if b { 1 } else { 0 }
}

impl FlagsRegister {
    /// The byte that the `F` register reads as: zero in bit 7, subtract in
    /// bit 6, half carry in bit 5, carry in bit 4, the low nibble clear.
    pub open spec fn byte_spec(self) -> int {
        128 * bit_of(self.zero) + 64 * bit_of(self.subtract) + 32 * bit_of(self.half_carry)
            + 16 * bit_of(self.carry)
    }

    /// The flags that a byte written to `F` sets: bits 7 to 4; the low
    /// nibble is dropped.
    pub open spec fn from_byte_spec(byte: u8) -> FlagsRegister {
        FlagsRegister {
            zero: (byte / 128) % 2 == 1,
            subtract: (byte / 64) % 2 == 1,
            half_carry: (byte / 32) % 2 == 1,
            carry: (byte / 16) % 2 == 1,
        }
    }

    pub fn to_byte(&self) -> (r: u8)
        ensures
            r == self.byte_spec(),
    {
        let z: u8 = if self.zero { 0x80 } else { 0 };
        let s: u8 = if self.subtract { 0x40 } else { 0 };
        let h: u8 = if self.half_carry { 0x20 } else { 0 };
        let c: u8 = if self.carry { 0x10 } else { 0 };
        z + s + h + c
    }

    pub fn from_byte(byte: u8) -> (f: FlagsRegister)
        ensures
            f == Self::from_byte_spec(byte),
    {
        FlagsRegister {
            zero: (byte / 128) % 2 == 1,
            subtract: (byte / 64) % 2 == 1,
            half_carry: (byte / 32) % 2 == 1,
            carry: (byte / 16) % 2 == 1,
        }
    }
}

/// Writing the byte of a flags register back gives the same flags.
pub proof fn lemma_flags_byte_roundtrip(f: FlagsRegister)
    ensures
        0 <= f.byte_spec() < 256,
        FlagsRegister::from_byte_spec(f.byte_spec() as u8) == f,
{
}

/// Reading `F` after writing a byte to it gives the byte with its low
/// nibble cleared.
pub proof fn lemma_flags_from_byte_keeps_high_nibble(byte: u8)
    ensures
        FlagsRegister::from_byte_spec(byte).byte_spec() == byte - byte % 16,
{
}

/// The eight 8-bit registers of the CPU.
#[derive(Clone, Copy, Debug, PartialEq, Eq, Structural)]
pub struct Registers {
    pub a: u8,
    pub b: u8,
    pub c: u8,
    pub d: u8,
    pub e: u8,
    pub f: FlagsRegister,
    pub h: u8,
    pub l: u8,
}

/// The 16-bit value of a register pair.
pub open spec fn pair(hi: u8, lo: u8) -> u16 {
    (hi * 256 + lo) as u16
}

impl Registers {
    pub open spec fn bc(self) -> u16 {
        pair(self.b, self.c)
    }

    pub open spec fn de(self) -> u16 {
        pair(self.d, self.e)
    }

    pub open spec fn hl(self) -> u16 {
        pair(self.h, self.l)
    }

    pub open spec fn af(self) -> u16 {
        pair(self.a, self.f.byte_spec() as u8)
    }

    pub open spec fn with_bc(self, v: u16) -> Registers {
        Registers { b: (v / 256) as u8, c: (v % 256) as u8, ..self }
    }

    pub open spec fn with_de(self, v: u16) -> Registers {
        Registers { d: (v / 256) as u8, e: (v % 256) as u8, ..self }
    }

    pub open spec fn with_hl(self, v: u16) -> Registers {
        Registers { h: (v / 256) as u8, l: (v % 256) as u8, ..self }
    }

    pub open spec fn with_af(self, v: u16) -> Registers {
        Registers { a: (v / 256) as u8, f: FlagsRegister::from_byte_spec((v % 256) as u8), ..self }
    }

    pub fn get_bc(&self) -> (r: u16)
        ensures
            r == self.bc(),
    {
        self.b as u16 * 256 + self.c as u16
    }

    pub fn get_de(&self) -> (r: u16)
        ensures
            r == self.de(),
    {
        self.d as u16 * 256 + self.e as u16
    }

    pub fn get_hl(&self) -> (r: u16)
        ensures
            r == self.hl(),
    {
        self.h as u16 * 256 + self.l as u16
    }

    pub fn get_af(&self) -> (r: u16)
        ensures
            r == self.af(),
    {
        let f = self.f.to_byte();
        self.a as u16 * 256 + f as u16
    }

    pub fn set_bc(&mut self, value: u16)
        ensures
            *final(self) == old(self).with_bc(value),
    {
        self.b = (value / 256) as u8;
        self.c = (value % 256) as u8;
    }

    pub fn set_de(&mut self, value: u16)
        ensures
            *final(self) == old(self).with_de(value),
    {
        self.d = (value / 256) as u8;
        self.e = (value % 256) as u8;
    }

    pub fn set_hl(&mut self, value: u16)
        ensures
            *final(self) == old(self).with_hl(value),
    {
        self.h = (value / 256) as u8;
        self.l = (value % 256) as u8;
    }

    pub fn set_af(&mut self, value: u16)
        ensures
            *final(self) == old(self).with_af(value),
    {
        self.a = (value / 256) as u8;
        self.f = FlagsRegister::from_byte((value % 256) as u8);
    }
}

/// Reading a register pair gives back what was written to it (for `AF`,
/// with the low nibble of `F` cleared).
pub proof fn lemma_pair_write_read(r: Registers, v: u16)
    ensures
        r.with_bc(v).bc() == v,
        r.with_de(v).de() == v,
        r.with_hl(v).hl() == v,
        r.with_af(v).af() == v - v % 16,
{
}

/// Writing a pair with the value it holds leaves the registers unchanged.
pub proof fn lemma_pair_read_write(r: Registers)
    ensures
        r.with_bc(r.bc()) == r,
        r.with_de(r.de()) == r,
        r.with_hl(r.hl()) == r,
{
}

/// The first register of a pair holds the high byte: BC is 256 * B + C,
/// DE is 256 * D + E, HL is 256 * H + L, AF is 256 * A + F.
pub proof fn lemma_pair_high_byte_first(r: Registers)
    ensures
        r.bc() == 256 * r.b + r.c,
        r.de() == 256 * r.d + r.e,
        r.hl() == 256 * r.h + r.l,
        r.af() == 256 * r.a + r.f.byte_spec(),
{
}

/// The flags sit in the high nibble of F: Z in bit 7, N in bit 6, H in
/// bit 5, C in bit 4; the low nibble reads 0.
pub proof fn lemma_flag_bits(f: FlagsRegister)
    ensures
        (f.byte_spec() / 128) % 2 == 1 <==> f.zero,
        (f.byte_spec() / 64) % 2 == 1 <==> f.subtract,
        (f.byte_spec() / 32) % 2 == 1 <==> f.half_carry,
        (f.byte_spec() / 16) % 2 == 1 <==> f.carry,
        f.byte_spec() % 16 == 0,
{
}

} // verus!

//! The memory map over the cartridge, the PPU and the DMA controller, as
//! the cartridge-based bus serves it: ROM and external RAM from the
//! cartridge, video RAM and OAM from the PPU (OAM reads 0xFF during DMA),
//! everything else reading 0 and ignoring writes.

use vstd::prelude::*;
use crate::cartridge::{rom_read, rom_write, Cartridge};
use crate::dma::{dma_transferring, DmaContext};
use crate::ppu::{spec_oam_update, spec_vram_update, PPU};

verus! {

/// Whether a read can be served: cartridge addresses must lie inside the ROM
/// data.
pub open spec fn bus_read_ok(cart: &Cartridge, address: u16) -> bool {
    (address < 0x8000 || (0xA000 <= address < 0xC000)) ==> (address as int) < cart.rom_data@.len()
}

/// The byte a read of `address` returns.
pub open spec fn bus_read_spec(cart: &Cartridge, ppu: &PPU, dma: &DmaContext, address: u16) -> u8 {
    if address < 0x8000 || (0xA000 <= address < 0xC000) {
        cart.rom_data@[address as int]
    } else if address < 0xA000 {
        ppu.vram@[address as int % 8192]
    } else if 0xFE00 <= address < 0xFEA0 {
        if dma.is_active {
            0xFF
        } else {
            ppu.oam@[address as int % 256]
        }
    } else {
        0
    }
}

pub fn bus_read(cart: &Cartridge, ppu: &PPU, dma: &DmaContext, address: u16) -> (r: u8)
    requires
        bus_read_ok(cart, address),
    ensures
        r == bus_read_spec(cart, ppu, dma, address),
{
    if address < 0x8000 {
        return rom_read(cart, address);
    } else if address < 0xA000 {
        return ppu.vram_read(address);
    } else if address < 0xC000 {
        return rom_read(cart, address);
    } else if address < 0xE000 {
        // Working RAM (WRAM)
        return 0;
    } else if address < 0xFE00 {
        // Reserved echo RAM
        return 0;
    } else if address < 0xFEA0 {
        // OAM
        if dma_transferring(dma) {
            return 0xFF;
        }
        return ppu.oam_read(address);
    } else if address < 0xFF00 {
        // Not usable
        return 0;
    } else if address < 0xFF80 {
        // I/O registers
        return 0;
    } else if address < 0xFFFF {
        // High RAM
        return 0;
    } else {
        // Interrupt enable register IE
        return 0;
    }
}

/// On this bus video RAM reads back what was written to it, and so does OAM
/// while no DMA transfer runs.
pub proof fn lemma_read_after_write(cart: &Cartridge, ppu: PPU, dma: &DmaContext, address: u16, val: u8)
    ensures
        0x8000 <= address < 0xA000 ==> bus_read_spec(
            cart,
            &PPU { vram: spec_vram_update(ppu.vram, address, val), ..ppu },
            dma,
            address,
        ) == val,
        (0xFE00 <= address < 0xFEA0 && !dma.is_active) ==> bus_read_spec(
            cart,
            &PPU { oam: spec_oam_update(ppu.oam, address, val), ..ppu },
            dma,
            address,
        ) == val,
{
}

/// Writes reach video RAM and OAM; everything else ignores them.
pub fn bus_write(ppu: &mut PPU, address: u16, val: u8)
    ensures
        0x8000 <= address < 0xA000 ==> final(ppu).vram@ == old(ppu).vram@.update(
            address as int % 8192,
            val,
        ) && *final(ppu) == (PPU { vram: final(ppu).vram, ..*old(ppu) }),
        0xFE00 <= address < 0xFEA0 ==> final(ppu).oam@ == old(ppu).oam@.update(
            address as int % 256,
            val,
        ) && *final(ppu) == (PPU { oam: final(ppu).oam, ..*old(ppu) }),
        !(0x8000 <= address < 0xA000) && !(0xFE00 <= address < 0xFEA0) ==> *final(ppu) == *old(ppu),
{
    if address < 0x8000 {
        rom_write(address, val);
    } else if address < 0xA000 {
        ppu.vram_write(address, val);
    } else if address < 0xC000 {
        rom_write(address, val);
    } else if address < 0xE000 {
        // Working RAM (WRAM)
    } else if address < 0xFE00 {
        // Reserved echo RAM
    } else if address < 0xFEA0 {
        // OAM
        ppu.oam_write(address, val);
    }
    // The rest (unusable area, I/O registers, high RAM, IE) ignores writes

}

} // verus!

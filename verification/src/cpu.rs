//! The CPU, its memory bus and the execution of instructions.

use vstd::prelude::*;
use crate::ppu::PPU;
use crate::register::{FlagsRegister, Registers};
use crate::instruction::{decode, Instruction};
use crate::timer::Timer;

verus! {

/// The memory map as the CPU sees it: cartridge ROM, video RAM, work RAM,
/// object attribute memory, I/O registers, high RAM and the interrupt
/// registers.
pub struct MemoryBus {
    pub rom: Vec<u8>,
    pub wram: [u8; 8192],
    pub hram: [u8; 128],
    pub ppu: PPU,
    pub ime: bool,
    pub ie: u8,
    pub if_reg: u8,
    pub timer: Timer,
    pub joypad: u8,
}

/// Whether reading `address` can be served: ROM addresses must lie inside
/// the cartridge data, and the unmapped I/O range 0xFF4C-0xFF7F cannot be
/// read.
pub open spec fn read_ok(rom_len: nat, address: int) -> bool {
    &&& address <= 0x7FFF ==> address < rom_len
    &&& !(0xFF4C <= address <= 0xFF7F)
}

/// Whether a DMA transfer from page `start` reads only readable addresses.
pub open spec fn dma_ok(rom_len: nat, start: u8) -> bool {
    forall|i: int| 0 <= i < 160 ==> #[trigger] read_ok(rom_len, start * 256 + i)
}

/// Whether writing `val` to `address` can be served: a write to the DMA
/// register must start a transfer whose reads can be served.
pub open spec fn write_ok(rom_len: nat, address: int, val: u8) -> bool {
    address == 0xFF46 ==> dma_ok(rom_len, val)
}

/// The RAM areas: video RAM, work RAM, OAM and high RAM.
pub open spec fn is_ram(address: u16) -> bool {
    ||| 0x8000 <= address <= 0x9FFF
    ||| 0xC000 <= address <= 0xDFFF
    ||| 0xFE00 <= address <= 0xFE9F
    ||| 0xFF80 <= address <= 0xFFFE
}

/// Addresses whose byte is kept as written: the RAM areas, TIMA, TMA, TAC,
/// the interrupt flag and enable registers, and the LCD registers other
/// than LY and DMA.
pub open spec fn holds_writes(address: u16) -> bool {
    ||| is_ram(address)
    ||| 0xFF05 <= address <= 0xFF07
    ||| address == 0xFF0F
    ||| address == 0xFFFF
    ||| (0xFF40 <= address <= 0xFF4B && address != 0xFF44 && address != 0xFF46)
}

/// The masks that index work RAM and high RAM.
proof fn lemma_ram_index(address: u16)
    by (bit_vector)
    ensures
        address & 0x1FFF == address % 8192,
        address & 0x007F == address % 128,
{
}

impl MemoryBus {
    pub open spec fn rom_len(&self) -> nat {
        self.rom@.len()
    }

    /// The LCD register at `address` (0xFF40-0xFF4B); the DMA register
    /// reads as 0.
    #[verifier::opaque]
    pub open spec fn lcd_read_spec(&self, address: u16) -> u8 {
        let p = self.ppu;
        if address == 0xFF40 {
            p.lcdc
        } else if address == 0xFF41 {
            p.lcds
        } else if address == 0xFF42 {
            p.scy
        } else if address == 0xFF43 {
            p.scx
        } else if address == 0xFF44 {
            p.ly
        } else if address == 0xFF45 {
            p.lyc
        } else if address == 0xFF46 {
            0
        } else if address == 0xFF47 {
            p.bg_palette
        } else if address == 0xFF48 {
            p.obp0
        } else if address == 0xFF49 {
            p.obp1
        } else if address == 0xFF4A {
            p.wy
        } else {
            p.wx
        }
    }

    /// The byte that a read of `address` returns.
    #[verifier::opaque]
    pub open spec fn read_spec(&self, address: u16) -> u8 {
        if address <= 0x7FFF {
            self.rom@[address as int]
        } else if address <= 0x9FFF {
            self.ppu.vram@[address as int % 8192]
        } else if 0xC000 <= address <= 0xDFFF {
            self.wram@[address as int % 8192]
        } else if 0xFE00 <= address <= 0xFE9F {
            self.ppu.oam@[address as int % 256]
        } else if address == 0xFF00 {
            self.joypad
        } else if address == 0xFF04 {
            (self.timer.div % 256) as u8
        } else if address == 0xFF05 {
            self.timer.tima
        } else if address == 0xFF06 {
            self.timer.tma
        } else if address == 0xFF07 {
            self.timer.tac
        } else if address == 0xFF0F {
            self.if_reg
        } else if 0xFF40 <= address <= 0xFF4B {
            self.lcd_read_spec(address)
        } else if 0xFF80 <= address <= 0xFFFE {
            self.hram@[address as int % 128]
        } else if address == 0xFFFF {
            self.ie
        } else {
            0
        }
    }

    /// OAM after the first `n` bytes of a DMA transfer from page `start`:
    /// byte `i` is what the bus read at `start * 0x100 + i`.
    pub open spec fn dma_oam(&self, start: u8, n: nat) -> [u8; 160]
        decreases n,
    {
        if n == 0 || n > 160 {
            self.ppu.oam
        } else {
            vstd::array::spec_array_update(
                self.dma_oam(start, (n - 1) as nat),
                n - 1,
                self.read_spec((start * 256 + n - 1) as u16),
            )
        }
    }

    /// The bus after a write to an LCD register (0xFF40-0xFF4B): LY is read
    /// only, and a write to 0xFF46 copies 160 bytes from page `val` to OAM.
    #[verifier::opaque]
    pub open spec fn lcd_write_spec(&self, address: u16, val: u8) -> MemoryBus {
        let p = self.ppu;
        let p2 = if address == 0xFF40 {
            PPU { lcdc: val, ..p }
        } else if address == 0xFF41 {
            PPU { lcds: val, ..p }
        } else if address == 0xFF42 {
            PPU { scy: val, ..p }
        } else if address == 0xFF43 {
            PPU { scx: val, ..p }
        } else if address == 0xFF44 {
            p
        } else if address == 0xFF45 {
            PPU { lyc: val, ..p }
        } else if address == 0xFF46 {
            PPU { oam: self.dma_oam(val, 160), ..p }
        } else if address == 0xFF47 {
            PPU { bg_palette: val, ..p }
        } else if address == 0xFF48 {
            PPU { obp0: val, ..p }
        } else if address == 0xFF49 {
            PPU { obp1: val, ..p }
        } else if address == 0xFF4A {
            PPU { wy: val, ..p }
        } else {
            PPU { wx: val, ..p }
        };
        MemoryBus { ppu: p2, ..*self }
    }

    /// The bus after writing `val` to `address`. ROM, external RAM, echo
    /// RAM and the unusable areas ignore writes; a write to the joypad
    /// register sets its low nibble.
    #[verifier::opaque]
    pub open spec fn write_spec(&self, address: u16, val: u8) -> MemoryBus {
        if 0x8000 <= address <= 0x9FFF {
            MemoryBus {
                ppu: PPU { vram: crate::ppu::spec_vram_update(self.ppu.vram, address, val), ..self.ppu },
                ..*self
            }
        } else if 0xC000 <= address <= 0xDFFF {
            MemoryBus {
                wram: vstd::array::spec_array_update(self.wram, address as int % 8192, val),
                ..*self
            }
        } else if 0xFE00 <= address <= 0xFE9F {
            MemoryBus {
                ppu: PPU { oam: crate::ppu::spec_oam_update(self.ppu.oam, address, val), ..self.ppu },
                ..*self
            }
        } else if address == 0xFF00 {
            MemoryBus { joypad: val | 0xf, ..*self }
        } else if 0xFF04 <= address <= 0xFF07 {
            MemoryBus { timer: self.timer.write_spec(address, val), ..*self }
        } else if address == 0xFF0F {
            MemoryBus { if_reg: val, ..*self }
        } else if 0xFF40 <= address <= 0xFF4B {
            self.lcd_write_spec(address, val)
        } else if 0xFF80 <= address <= 0xFFFE {
            MemoryBus {
                hram: vstd::array::spec_array_update(self.hram, address as int % 128, val),
                ..*self
            }
        } else if address == 0xFFFF {
            MemoryBus { ie: val, ..*self }
        } else {
            *self
        }
    }

    /// A bus write keeps the cartridge, the timer's cycle counters and IME.
    pub broadcast proof fn lemma_write_frame(&self, address: u16, val: u8)
        ensures
            (#[trigger] self.write_spec(address, val)).rom == self.rom,
            self.write_spec(address, val).timer.cycles_counter == self.timer.cycles_counter,
            self.write_spec(address, val).timer.div_counter == self.timer.div_counter,
            self.write_spec(address, val).timer.tima_counter == self.timer.tima_counter,
            self.write_spec(address, val).ime == self.ime,
    {
        reveal(MemoryBus::write_spec);
        reveal(MemoryBus::lcd_write_spec);
    }

    /// A read gives back what a write stored: at RAM addresses and the
    /// registers that hold their value. DIV reads 0 after any write, and the
    /// joypad register reads the written value with its low nibble set.
    pub proof fn lemma_read_after_write(&self, address: u16, val: u8)
        ensures
            holds_writes(address) ==> self.write_spec(address, val).read_spec(address) == val,
            address == 0xFF04 ==> self.write_spec(address, val).read_spec(address) == 0,
            address == 0xFF00 ==> self.write_spec(address, val).read_spec(address) == val | 0xF,
    {
        reveal(MemoryBus::write_spec);
        reveal(MemoryBus::lcd_write_spec);
        reveal(MemoryBus::read_spec);
        reveal(MemoryBus::lcd_read_spec);
        assert(address == 0xFF00 ==> (val | 0xF) as u8 == val | 0xF);
    }

    /// A write leaves every other RAM byte as it was (a write to the DMA
    /// register, which rewrites OAM, aside).
    pub proof fn lemma_write_keeps_other_ram(&self, address: u16, other: u16, val: u8)
        requires
            is_ram(other),
            address != other,
            address != 0xFF46,
        ensures
            self.write_spec(address, val).read_spec(other) == self.read_spec(other),
    {
        reveal(MemoryBus::write_spec);
        reveal(MemoryBus::lcd_write_spec);
        reveal(MemoryBus::read_spec);
        reveal(MemoryBus::lcd_read_spec);
    }

    /// A read of RAM depends on the RAM arrays alone.
    pub proof fn lemma_ram_read_frame(&self, other: MemoryBus, address: u16)
        requires
            is_ram(address),
            self.wram == other.wram,
            self.hram == other.hram,
            self.ppu.vram == other.ppu.vram,
            self.ppu.oam == other.ppu.oam,
        ensures
            self.read_spec(address) == other.read_spec(address),
    {
        reveal(MemoryBus::read_spec);
    }

    /// OAM after the first `n` bytes of a DMA transfer, byte by byte: the
    /// bytes below `n` are the bus reads at `start * 0x100 + i`, the others
    /// are as they were.
    pub proof fn lemma_dma_oam_bytes(&self, start: u8, n: nat)
        requires
            n <= 160,
        ensures
            forall|i: int|
                0 <= i < n ==> #[trigger] self.dma_oam(start, n)@[i] == self.read_spec(
                    (start * 256 + i) as u16,
                ),
            forall|i: int| n <= i < 160 ==> #[trigger] self.dma_oam(start, n)@[i] == self.ppu.oam@[i],
        decreases n,
    {
        if n > 0 {
            let m = (n - 1) as nat;
            self.lemma_dma_oam_bytes(start, m);
            let prev = self.dma_oam(start, m);
            let v = self.read_spec((start * 256 + m) as u16);
            assert(self.dma_oam(start, n)@ == prev@.update(m as int, v));
            assert forall|i: int| 0 <= i < 160 && i != m implies #[trigger] self.dma_oam(start, n)@[i]
                == prev@[i] by {}
        }
    }

    /// A write of page `start` to the DMA register copies the 160 bytes of
    /// that page into OAM, byte `i` being the bus read at `start * 0x100 + i`;
    /// nothing else of the bus changes, and the register reads 0.
    pub proof fn lemma_dma_write_copies_page(&self, start: u8)
        ensures
            forall|i: int|
                0 <= i < 160 ==> #[trigger] self.write_spec(0xFF46, start).ppu.oam@[i]
                    == self.read_spec((start * 256 + i) as u16),
            self.write_spec(0xFF46, start) == (MemoryBus {
                ppu: PPU { oam: self.write_spec(0xFF46, start).ppu.oam, ..self.ppu },
                ..*self
            }),
            self.write_spec(0xFF46, start).read_spec(0xFF46) == 0,
    {
        reveal(MemoryBus::write_spec);
        reveal(MemoryBus::lcd_write_spec);
        reveal(MemoryBus::read_spec);
        reveal(MemoryBus::lcd_read_spec);
        self.lemma_dma_oam_bytes(start, 160);
    }

    /// A read of ROM depends on the cartridge bytes alone.
    pub proof fn lemma_rom_read_frame(&self, other: MemoryBus, address: u16)
        requires
            address <= 0x7FFF,
            self.rom == other.rom,
        ensures
            self.read_spec(address) == other.read_spec(address),
    {
        reveal(MemoryBus::read_spec);
    }

    /// A write to RAM leaves the interrupt registers and requests alone.
    pub proof fn lemma_ram_write_keeps_registers(&self, address: u16, val: u8)
        requires
            is_ram(address),
        ensures
            self.write_spec(address, val).if_reg == self.if_reg,
            self.write_spec(address, val).ie == self.ie,
            self.write_spec(address, val).ppu.stat_interrupt == self.ppu.stat_interrupt,
            self.write_spec(address, val).ppu.vblank_interrupt == self.ppu.vblank_interrupt,
    {
        reveal(MemoryBus::write_spec);
    }

    /// The cartridge ROM is read only: a write to it changes nothing.
    pub proof fn lemma_rom_write_ignored(&self, address: u16, val: u8)
        requires
            address <= 0x7FFF,
        ensures
            self.write_spec(address, val) == *self,
    {
        reveal(MemoryBus::write_spec);
    }

    fn read_rom(&self, address: u16) -> (r: u8)
        requires
            (address as int) < self.rom@.len(),
        ensures
            r == self.rom@[address as int],
    {
        self.rom[address as usize]
    }

    fn wram_read(&self, address: u16) -> (r: u8)
        ensures
            r == self.wram@[address as int % 8192],
    {
        proof {
            lemma_ram_index(address);
        }
        self.wram[(address & 0x1FFF) as usize]
    }

    fn wram_write(&mut self, address: u16, val: u8)
        ensures
            *final(self) == (MemoryBus {
                wram: vstd::array::spec_array_update(old(self).wram, address as int % 8192, val),
                ..*old(self)
            }),
    {
        proof {
            lemma_ram_index(address);
        }
        self.wram[(address & 0x1FFF) as usize] = val;
    }

    fn hram_read(&self, address: u16) -> (r: u8)
        ensures
            r == self.hram@[address as int % 128],
    {
        proof {
            lemma_ram_index(address);
        }
        self.hram[(address & 0x007F) as usize]
    }

    fn hram_write(&mut self, address: u16, val: u8)
        ensures
            *final(self) == (MemoryBus {
                hram: vstd::array::spec_array_update(old(self).hram, address as int % 128, val),
                ..*old(self)
            }),
    {
        proof {
            lemma_ram_index(address);
        }
        self.hram[(address & 0x007F) as usize] = val;
    }

    /// Reads a byte of the memory map.
    pub fn bus_read(&self, address: u16) -> (r: u8)
        requires
            read_ok(self.rom_len(), address as int),
        ensures
            r == self.read_spec(address),
    {
        reveal(MemoryBus::read_spec);
        match address {
            0x0000..=0x7FFF => self.read_rom(address),  // ROM
            0x8000..=0x9FFF => self.ppu.vram_read(address),  // VRAM
            0xC000..=0xDFFF => self.wram_read(address),  // WRAM
            0xE000..=0xFDFF => 0,  // Echo RAM
            0xFE00..=0xFE9F => self.ppu.oam_read(address),  // OAM
            0xFEA0..=0xFEFF => 0,  // Not usable
            0xFF00 => self.joypad,  // Joypad
            0xFF01..=0xFF02 => 0,  // Serial transfer (link cable)
            0xFF04..=0xFF07 => self.timer.timer_read(address),  // Timer
            0xFF0F => self.if_reg,  // IF interrupt flags
            0xFF40..=0xFF4B => self.lcd_read(address),
            0xFF80..=0xFFFE => self.hram_read(address),  // HRAM
            0xFFFF => self.ie,  // IE interrupt enable
            _ => 0,
        }
    }

    /// Writes a byte of the memory map.
    pub fn bus_write(&mut self, address: u16, val: u8)
        requires
            write_ok(old(self).rom_len(), address as int, val),
        ensures
            *final(self) == old(self).write_spec(address, val),
    {
        reveal(MemoryBus::write_spec);
        match address {
            0x0000..=0x7FFF => (),  // ROM
            0x8000..=0x9FFF => self.ppu.vram_write(address, val),  // VRAM
            0xA000..=0xBFFF => (),  // External RAM
            0xC000..=0xDFFF => self.wram_write(address, val),  // WRAM
            0xE000..=0xFDFF => (),  // Echo RAM
            0xFE00..=0xFE9F => self.ppu.oam_write(address, val),  // OAM
            0xFEA0..=0xFEFF => (),  // Not usable
            0xFF00 => self.joypad = val | 0xf,  // Joypad
            0xFF01..=0xFF02 => (),
            0xFF04..=0xFF07 => self.timer.timer_write(address, val),  // Timer
            0xFF0F => self.if_reg = val,  // IF interrupt flags
            0xFF40..=0xFF4B => self.lcd_write(address, val),
            0xFF4C..=0xFF7F => (),
            0xFF80..=0xFFFE => self.hram_write(address, val),  // HRAM
            0xFFFF => self.ie = val,  // IE interrupt enable
            _ => (),
        }
    }

    /// Reads an LCD register (0xFF40-0xFF4B).
    pub fn lcd_read(&self, address: u16) -> (r: u8)
        requires
            0xFF40 <= address <= 0xFF4B,
        ensures
            r == self.lcd_read_spec(address),
    {
        reveal(MemoryBus::lcd_read_spec);
        match address {
            0xFF40 => self.ppu.lcdc,
            0xFF41 => self.ppu.lcds,
            0xFF42 => self.ppu.scy,
            0xFF43 => self.ppu.scx,
            0xFF44 => self.ppu.ly,
            0xFF45 => self.ppu.lyc,
            0xFF46 => 0,
            0xFF47 => self.ppu.bg_palette,
            0xFF48 => self.ppu.obp0,
            0xFF49 => self.ppu.obp1,
            0xFF4A => self.ppu.wy,
            _ => self.ppu.wx,
        }
    }

    /// Writes an LCD register (0xFF40-0xFF4B); writing 0xFF46 starts an
    /// OAM DMA transfer.
    pub fn lcd_write(&mut self, address: u16, val: u8)
        requires
            0xFF40 <= address <= 0xFF4B,
            address == 0xFF46 ==> dma_ok(old(self).rom_len(), val),
        ensures
            *final(self) == old(self).lcd_write_spec(address, val),
    {
        reveal(MemoryBus::lcd_write_spec);
        match address {
            0xFF40 => self.ppu.lcdc = val,
            0xFF41 => self.ppu.lcds = val,
            0xFF42 => self.ppu.scy = val,
            0xFF43 => self.ppu.scx = val,
            0xFF44 => (),
            0xFF45 => self.ppu.lyc = val,
            0xFF46 => self.dma_transfer(val),
            0xFF47 => self.ppu.bg_palette = val,
            0xFF48 => self.ppu.obp0 = val,
            0xFF49 => self.ppu.obp1 = val,
            0xFF4A => self.ppu.wy = val,
            _ => self.ppu.wx = val,
        }
    }

    /// Copies 160 bytes from page `start` of the memory map into OAM.
    fn dma_transfer(&mut self, start: u8)
        requires
            dma_ok(old(self).rom_len(), start),
        ensures
            *final(self) == (MemoryBus {
                ppu: PPU { oam: old(self).dma_oam(start, 160), ..old(self).ppu },
                ..*old(self)
            }),
    {
        reveal(MemoryBus::read_spec);
        reveal(MemoryBus::lcd_read_spec);
        let ghost b0 = *self;
        let address = start as u16 * 0x100;
        for i in 0..0xA0u16
            invariant
                address == start * 256,
                dma_ok(b0.rom_len(), start),
                *self == (MemoryBus { ppu: PPU { oam: b0.dma_oam(start, i as nat), ..b0.ppu }, ..b0 }),
                forall|j: int| i <= j < 160 ==> #[trigger] self.ppu.oam@[j] == b0.ppu.oam@[j],
        {
            assert(read_ok(b0.rom_len(), start * 256 + i));
            assert(self.rom == b0.rom);
            let val = self.bus_read(address + i);
            proof {
                reveal(MemoryBus::read_spec);
                reveal(MemoryBus::lcd_read_spec);
                assert(val == b0.read_spec((start * 256 + i) as u16));
            }
            self.ppu.oam_write(i, val);
        }
    }
}


/// The processor: registers, program counter, stack pointer, the memory bus
/// and the interrupt state.
pub struct CPU {
    pub registers: Registers,
    pub program_counter: u16,
    pub stack_pointer: u16,
    pub bus: MemoryBus,
    pub is_halted: bool,
    /// Countdown of a delayed EI (enable interrupts).
    pub ei: u8,
    /// Countdown of a delayed DI (disable interrupts).
    pub di: u8,
    /// Address of the instruction being executed.
    pub last_pc: u16,
    pub jpad_interrupt: bool,
}

/// Errors of the emulator core. No operation of the core produces one yet:
/// interrupt handling always succeeds.
#[derive(Debug)]
pub enum EmulatorError {
    InvalidOpcode,
    MemoryReadError,
    MemoryWriteError,
    StackOverflow,
    StackUnderflow,
    InvalidAddress,
    InterruptHandlingError,
}

/// `x + n` on 16 bits, wrapping.
pub open spec fn add16(x: int, n: int) -> u16 {
    ((x + n) % 0x10000) as u16
}

impl CPU {
    pub open spec fn rom_len(&self) -> nat {
        self.bus.rom@.len()
    }

    /// The byte at `address` (taken modulo 0x10000).
    pub open spec fn read(&self, address: int) -> u8 {
        self.bus.read_spec(add16(address, 0))
    }

    pub open spec fn can_read(&self, address: int) -> bool {
        read_ok(self.rom_len(), add16(address, 0) as int)
    }

    pub open spec fn can_write(&self, address: int, val: u8) -> bool {
        write_ok(self.rom_len(), add16(address, 0) as int, val)
    }

    /// The CPU after a bus write.
    pub open spec fn write(self, address: int, val: u8) -> CPU {
        CPU { bus: self.bus.write_spec(add16(address, 0), val), ..self }
    }

    /// The CPU after the timer runs `cycles` machine cycles.
    pub open spec fn ticked(self, cycles: u32) -> CPU {
        CPU { bus: MemoryBus { timer: self.bus.timer.tick_spec(cycles), ..self.bus }, ..self }
    }

    pub open spec fn can_tick(&self, cycles: u32) -> bool {
        self.bus.timer.can_tick(cycles)
    }

    /// The byte after the opcode.
    pub open spec fn imm8(&self) -> u8 {
        self.read(self.program_counter + 1)
    }

    /// The little-endian word after the opcode.
    pub open spec fn imm16(&self) -> u16 {
        (self.read(self.program_counter + 1) + 256 * self.read(self.program_counter + 2)) as u16
    }

    pub open spec fn imm8_ok(&self) -> bool {
        self.can_read(self.program_counter + 1)
    }

    pub open spec fn imm16_ok(&self) -> bool {
        self.can_read(self.program_counter + 1) && self.can_read(self.program_counter + 2)
    }

    pub open spec fn with_regs(self, r: Registers) -> CPU {
        CPU { registers: r, ..self }
    }

    pub open spec fn with_flags(self, f: FlagsRegister) -> CPU {
        CPU { registers: Registers { f: f, ..self.registers }, ..self }
    }

    /// Pushing `val`: the high byte goes to SP - 1, the low byte to SP - 2.
    pub open spec fn push_spec(self, val: u16) -> CPU {
        let sp1 = add16(self.stack_pointer as int, -1);
        let sp2 = add16(self.stack_pointer as int, -2);
        CPU { stack_pointer: sp2, ..self }.write(sp1 as int, (val / 256) as u8).write(
            sp2 as int,
            (val % 256) as u8,
        )
    }

    pub open spec fn push_ok(&self, val: u16) -> bool {
        &&& self.can_write(self.stack_pointer - 1, (val / 256) as u8)
        &&& self.can_write(self.stack_pointer - 2, (val % 256) as u8)
    }

    /// The word at SP (low byte first).
    pub open spec fn pop_value(&self) -> u16 {
        (self.read(self.stack_pointer as int) + 256 * self.read(self.stack_pointer + 1)) as u16
    }

    pub open spec fn pop_ok(&self) -> bool {
        self.can_read(self.stack_pointer as int) && self.can_read(self.stack_pointer + 1)
    }

    pub open spec fn popped(self) -> CPU {
        CPU { stack_pointer: add16(self.stack_pointer as int, 2), ..self }
    }

    /// A pop right after a push gives the pushed word back and restores the
    /// stack pointer, when the two stack bytes lie in RAM.
    pub proof fn lemma_push_then_pop(self, val: u16)
        requires
            is_ram(add16(self.stack_pointer as int, -1)),
            is_ram(add16(self.stack_pointer as int, -2)),
        ensures
            self.push_spec(val).pop_value() == val,
            self.push_spec(val).popped().stack_pointer == self.stack_pointer,
    {
        let sp1 = add16(self.stack_pointer as int, -1);
        let sp2 = add16(self.stack_pointer as int, -2);
        let hi = (val / 256) as u8;
        let lo = (val % 256) as u8;
        let s0 = CPU { stack_pointer: sp2, ..self };
        let s1 = s0.write(sp1 as int, hi);
        let s2 = s1.write(sp2 as int, lo);
        assert(add16(sp1 as int, 0) == sp1);
        assert(add16(sp2 as int, 0) == sp2);
        assert(add16(sp2 + 1, 0) == sp1);
        s0.bus.lemma_read_after_write(sp1, hi);
        s1.bus.lemma_read_after_write(sp2, lo);
        s1.bus.lemma_write_keeps_other_ram(sp2, sp1, lo);
        assert(s2.read(sp2 as int) == lo);
        assert(s2.read(sp2 + 1) == hi);
        assert(lo + 256 * hi == val);
    }

    /// The interrupt state after the delayed DI and EI counters advance:
    /// a counter above 1 counts down, and on reaching 1 it takes effect
    /// (IME cleared for DI, set for EI) and returns to 0; DI is handled first.
    pub open spec fn ime_updated(self) -> CPU {
        let di1: u8 = if self.di > 1 { (self.di - 1) as u8 } else { self.di };
        let s1 = if di1 == 1 {
            CPU { di: 0, bus: MemoryBus { ime: false, ..self.bus }, ..self }
        } else {
            CPU { di: di1, ..self }
        };
        let ei1: u8 = if s1.ei > 1 { (s1.ei - 1) as u8 } else { s1.ei };
        if ei1 == 1 {
            CPU { ei: 0, bus: MemoryBus { ime: true, ..s1.bus }, ..s1 }
        } else {
            CPU { ei: ei1, ..s1 }
        }
    }

    pub fn new(rom: Vec<u8>) -> (cpu: CPU)
        ensures
            cpu.registers == (Registers {
                a: 0x01,
                b: 0x00,
                c: 0x13,
                d: 0x00,
                e: 0xD8,
                f: FlagsRegister { zero: true, subtract: false, half_carry: true, carry: true },
                h: 0x01,
                l: 0x4D,
            }),
            cpu.program_counter == 0x0100,
            cpu.stack_pointer == 0xFFFE,
            cpu.bus.rom@ == rom@,
            forall|i: int| 0 <= i < 8192 ==> cpu.bus.wram@[i] == 0,
            forall|i: int| 0 <= i < 128 ==> cpu.bus.hram@[i] == 0,
            cpu.bus.ppu == PPU::initial(),
            !cpu.bus.ime,
            cpu.bus.ie == 0,
            cpu.bus.if_reg == 0,
            cpu.bus.timer == Timer::initial(),
            cpu.bus.joypad == 0b00111111,
            !cpu.is_halted,
            cpu.ei == 0,
            cpu.di == 0,
            cpu.last_pc == 0,
            !cpu.jpad_interrupt,
    {
        let flags = FlagsRegister { zero: true, subtract: false, half_carry: true, carry: true };
        let regs = Registers {
            a: 0x01,
            b: 0x00,
            c: 0x13,
            d: 0x00,
            e: 0xD8,
            f: flags,
            h: 0x01,
            l: 0x4D,
        };
        let mem_bus = MemoryBus {
            rom: rom,
            wram: [0u8; 8192],
            hram: [0u8; 128],
            ppu: PPU::new(),
            ime: false,
            ie: 0,
            if_reg: 0,
            timer: Timer::new(),
            joypad: 0b00111111,
        };
        CPU {
            registers: regs,
            program_counter: 0x0100,
            stack_pointer: 0xFFFE,
            is_halted: false,
            bus: mem_bus,
            ei: 0,
            di: 0,
            last_pc: 0,
            jpad_interrupt: false,
        }
    }

    pub(crate) fn read_next_byte(&self) -> (r: u8)
        requires
            self.imm8_ok(),
        ensures
            r == self.imm8(),
    {
        self.bus.bus_read(self.program_counter.wrapping_add(1))
    }

    pub(crate) fn read_next_word(&self) -> (r: u16)
        requires
            self.imm16_ok(),
        ensures
            r == self.imm16(),
    {
        let tmp_pc = self.program_counter.wrapping_add(1);
        let lo = self.bus.bus_read(tmp_pc);
        let hi = self.bus.bus_read(tmp_pc.wrapping_add(1));
        assert((lo as u16) | ((hi as u16) << 8) == lo + 256 * hi) by (bit_vector);
        lo as u16 | ((hi as u16) << 8)
    }

    pub(crate) fn push(&mut self, val: u16)
        requires
            old(self).push_ok(val),
        ensures
            *final(self) == old(self).push_spec(val),
    {
        assert((val & 0xFF00) >> 8 == val / 256 && val & 0xFF == val % 256) by (bit_vector);
        self.stack_pointer = self.stack_pointer.wrapping_sub(1);
        let ghost b0 = self.bus;
        self.bus.bus_write(self.stack_pointer, ((val & 0xFF00) >> 8) as u8);
        proof {
            b0.lemma_write_frame(self.stack_pointer, (val / 256) as u8);
        }
        self.stack_pointer = self.stack_pointer.wrapping_sub(1);
        self.bus.bus_write(self.stack_pointer, (val & 0xFF) as u8);
    }

    pub(crate) fn pop(&mut self) -> (r: u16)
        requires
            old(self).pop_ok(),
        ensures
            r == old(self).pop_value(),
            *final(self) == old(self).popped(),
    {
        let lsb = self.bus.bus_read(self.stack_pointer) as u16;
        self.stack_pointer = self.stack_pointer.wrapping_add(1);
        let msb = self.bus.bus_read(self.stack_pointer) as u16;
        self.stack_pointer = self.stack_pointer.wrapping_add(1);
        assert((msb << 8) | lsb == lsb + 256 * msb) by (bit_vector)
            requires
                lsb < 256,
                msb < 256,
        ;
        (msb << 8) | lsb
    }

    /// Advances the delayed DI and EI counters.
    pub(crate) fn update_ime(&mut self)
        ensures
            *final(self) == old(self).ime_updated(),
    {
        // A delayed DI counts down
        if self.di > 1 {
            self.di -= 1;
        }
        // and takes effect when its delay ends
        if self.di == 1 {
            self.bus.ime = false;
            self.di = 0;
        }
        // A delayed EI counts down
        if self.ei > 1 {
            self.ei -= 1;
        }
        // and takes effect when its delay ends
        if self.ei == 1 {
            self.bus.ime = true;
            self.ei = 0;
        }
    }

    /// IF with the requests of the PPU (V-Blank bit 0, STAT bit 1), the
    /// timer (bit 2) and the joypad (bit 4) merged in.
    pub open spec fn requested_flags(&self) -> u8 {
        let f0 = self.bus.if_reg;
        let f1 = if self.bus.ppu.vblank_interrupt == 1 { f0 | 1 } else { f0 };
        let f2 = if self.bus.ppu.stat_interrupt == 1 { f1 | 2 } else { f1 };
        let f3 = if self.bus.timer.timer_interrupt == 1 { f2 | 4 } else { f2 };
        if self.jpad_interrupt { f3 | 16 } else { f3 }
    }

    /// Serving an interrupt: four idle cycles, the address of the current
    /// instruction pushed, and a jump to the handler.
    pub open spec fn serve_spec(self, addr: u16) -> CPU {
        let s1 = self.ticked(2).ticked(2);
        CPU { program_counter: addr, ..s1.push_spec(s1.last_pc) }
    }

    pub open spec fn serve_ok(&self) -> bool {
        self.can_tick(4) && self.push_ok(self.last_pc)
    }

    /// The state after requests are merged into IF and, when IME is set
    /// and an enabled interrupt is requested, the one of highest priority
    /// (lowest bit) is served: IME is cleared, its request cleared (the
    /// serial interrupt's is kept) and its handler at 0x40 + 8 * bit entered.
    /// Pending bits above bit 4 only clear IME.
    pub open spec fn interrupts_spec(self) -> CPU {
        let req = self.requested_flags();
        let s1 = CPU { bus: MemoryBus { if_reg: req, ..self.bus }, ..self };
        let pending = self.bus.ie & req;
        if !self.bus.ime || pending == 0 {
            s1
        } else {
            let s2 = CPU { bus: MemoryBus { ime: false, ..s1.bus }, ..s1 };
            if pending & 1 != 0 {
                CPU {
                    bus: MemoryBus {
                        if_reg: req & !1u8,
                        ppu: PPU { vblank_interrupt: 0, ..s2.bus.ppu },
                        ..s2.bus
                    },
                    ..s2
                }.serve_spec(0x40)
            } else if pending & 2 != 0 {
                CPU {
                    bus: MemoryBus {
                        if_reg: req & !2u8,
                        ppu: PPU { stat_interrupt: 0, ..s2.bus.ppu },
                        ..s2.bus
                    },
                    ..s2
                }.serve_spec(0x48)
            } else if pending & 4 != 0 {
                CPU {
                    bus: MemoryBus {
                        if_reg: req & !4u8,
                        timer: Timer { timer_interrupt: 0, ..s2.bus.timer },
                        ..s2.bus
                    },
                    ..s2
                }.serve_spec(0x50)
            } else if pending & 8 != 0 {
                s2.serve_spec(0x58)
            } else if pending & 16 != 0 {
                CPU { jpad_interrupt: false, bus: MemoryBus { if_reg: req & !16u8, ..s2.bus }, ..s2 }.serve_spec(0x60)
            } else {
                s2
            }
        }
    }

    /// Interrupts are served by priority: of the requested and enabled
    /// ones, V-Blank first, then STAT, timer, serial and joypad, each at its
    /// handler; serving one clears IME. With IME clear, or nothing pending,
    /// the program counter stays.
    pub proof fn lemma_interrupt_priority(self)
        ensures
            ({
                let p = self.bus.ie & self.requested_flags();
                let t = self.interrupts_spec();
                &&& (!self.bus.ime || p == 0) ==> t.program_counter == self.program_counter
                    && t.bus.ime == self.bus.ime
                &&& (self.bus.ime && p != 0) ==> !t.bus.ime
                &&& (self.bus.ime && p & 1 != 0) ==> t.program_counter == 0x40
                &&& (self.bus.ime && p & 1 == 0 && p & 2 != 0) ==> t.program_counter == 0x48
                &&& (self.bus.ime && p & 3 == 0 && p & 4 != 0) ==> t.program_counter == 0x50
                &&& (self.bus.ime && p & 7 == 0 && p & 8 != 0) ==> t.program_counter == 0x58
                &&& (self.bus.ime && p & 15 == 0 && p & 16 != 0) ==> t.program_counter == 0x60
            }),
    {
        broadcast use MemoryBus::lemma_write_frame;

        let p = self.bus.ie & self.requested_flags();
        assert((p & 1 == 0 && p & 2 == 0 ==> p & 3 == 0) && (p & 3 == 0 ==> p & 1 == 0 && p & 2 == 0) && (p
            & 7 == 0 ==> p & 3 == 0 && p & 4 == 0) && (p & 15 == 0 ==> p & 7 == 0 && p & 8 == 0) && (p == 0
            ==> p & 1 == 0 && p & 2 == 0 && p & 4 == 0 && p & 8 == 0 && p & 16 == 0)) by (bit_vector);
    }

    /// Each source's request sets its own bit of IF and no other: V-Blank
    /// bit 0, STAT bit 1, timer bit 2, joypad bit 4; the serial bit 3 and
    /// bits 5-7 stay as IF held them. With IME clear that is all that
    /// interrupt handling does to IF.
    pub proof fn lemma_requests_set_their_bits(self)
        requires
            !self.bus.ime,
        ensures
            ({
                let f = self.interrupts_spec().bus.if_reg;
                let g = self.bus.if_reg;
                &&& (f & 1 != 0) == (g & 1 != 0 || self.bus.ppu.vblank_interrupt == 1)
                &&& (f & 2 != 0) == (g & 2 != 0 || self.bus.ppu.stat_interrupt == 1)
                &&& (f & 4 != 0) == (g & 4 != 0 || self.bus.timer.timer_interrupt == 1)
                &&& (f & 16 != 0) == (g & 16 != 0 || self.jpad_interrupt)
                &&& f & 0xE8 == g & 0xE8
            }),
    {
        let g = self.bus.if_reg;
        let v = self.bus.ppu.vblank_interrupt == 1;
        let st = self.bus.ppu.stat_interrupt == 1;
        let tm = self.bus.timer.timer_interrupt == 1;
        let j = self.jpad_interrupt;
        let f1 = if v { g | 1 } else { g };
        let f2 = if st { f1 | 2 } else { f1 };
        let f3 = if tm { f2 | 4 } else { f2 };
        let f = if j { f3 | 16 } else { f3 };
        assert(f == self.requested_flags());
        assert((f & 1 != 0) == (g & 1 != 0 || v) && (f & 2 != 0) == (g & 2 != 0 || st) && (f & 4 != 0) == (
        g & 4 != 0 || tm) && (f & 16 != 0) == (g & 16 != 0 || j) && f & 0xE8 == g & 0xE8) by (bit_vector)
            requires
                f1 == (if v { g | 1 } else { g }),
                f2 == (if st { f1 | 2 } else { f1 }),
                f3 == (if tm { f2 | 4 } else { f2 }),
                f == (if j { f3 | 16 } else { f3 }),
        ;
    }

    /// A STAT request with IME set and IE bit 1 set, when no V-Blank
    /// interrupt is both enabled and requested, is served: the handler at
    /// 0x48 is entered, IME is cleared, and the request is cleared from the
    /// PPU and from bit 1 of IF (when the stack bytes lie in RAM).
    pub proof fn lemma_stat_served(self)
        requires
            self.bus.ime,
            self.bus.ie & 2 != 0,
            self.bus.ppu.stat_interrupt == 1,
            self.bus.ie & 1 == 0 || (self.bus.ppu.vblank_interrupt != 1 && self.bus.if_reg & 1 == 0),
            is_ram(add16(self.stack_pointer as int, -1)),
            is_ram(add16(self.stack_pointer as int, -2)),
        ensures
            self.interrupts_spec().program_counter == 0x48,
            !self.interrupts_spec().bus.ime,
            self.interrupts_spec().bus.ppu.stat_interrupt == 0,
            self.interrupts_spec().bus.if_reg & 2 == 0,
    {
        broadcast use MemoryBus::lemma_write_frame;

        let g = self.bus.if_reg;
        let v = self.bus.ppu.vblank_interrupt == 1;
        let tm = self.bus.timer.timer_interrupt == 1;
        let j = self.jpad_interrupt;
        let f1 = if v { g | 1 } else { g };
        let f2 = f1 | 2;
        let f3 = if tm { f2 | 4 } else { f2 };
        let f = if j { f3 | 16 } else { f3 };
        let ie = self.bus.ie;
        assert(f == self.requested_flags());
        assert((ie & f) != 0 && (ie & f) & 1 == 0 && (ie & f) & 2 != 0 && (f & !2u8) & 2 == 0) by (bit_vector)
            requires
                f1 == (if v { g | 1 } else { g }),
                f2 == f1 | 2,
                f3 == (if tm { f2 | 4 } else { f2 }),
                f == (if j { f3 | 16 } else { f3 }),
                ie & 2 != 0,
                ie & 1 == 0 || (!v && g & 1 == 0),
        ;
        let req = f;
        let s1 = CPU { bus: MemoryBus { if_reg: req, ..self.bus }, ..self };
        let s2 = CPU { bus: MemoryBus { ime: false, ..s1.bus }, ..s1 };
        let u = CPU {
            bus: MemoryBus { if_reg: req & !2u8, ppu: PPU { stat_interrupt: 0, ..s2.bus.ppu }, ..s2.bus },
            ..s2
        };
        let w = u.ticked(2).ticked(2);
        let sp1 = add16(self.stack_pointer as int, -1);
        let sp2 = add16(self.stack_pointer as int, -2);
        let w0 = CPU { stack_pointer: sp2, ..w };
        assert(add16(sp1 as int, 0) == sp1);
        assert(add16(sp2 as int, 0) == sp2);
        w0.bus.lemma_ram_write_keeps_registers(sp1, (w.last_pc / 256) as u8);
        let w1 = w0.write(sp1 as int, (w.last_pc / 256) as u8);
        w1.bus.lemma_ram_write_keeps_registers(sp2, (w.last_pc % 256) as u8);
        assert(self.interrupts_spec() == u.serve_spec(0x48));
    }

    /// After an interrupt is served, the word on top of the stack is the
    /// address of the instruction that was running, so that a return goes
    /// back to it (when the two stack bytes lie in RAM).
    pub proof fn lemma_serve_pushes_return(self, addr: u16)
        requires
            is_ram(add16(self.stack_pointer as int, -1)),
            is_ram(add16(self.stack_pointer as int, -2)),
        ensures
            self.serve_spec(addr).pop_value() == self.last_pc,
            self.serve_spec(addr).popped().stack_pointer == self.stack_pointer,
            self.serve_spec(addr).program_counter == addr,
    {
        let s1 = self.ticked(2).ticked(2);
        s1.lemma_push_then_pop(s1.last_pc);
    }

    /// Interrupt handling can proceed: when an interrupt is served, the
    /// timer has room for four cycles and the push can be written.
    pub open spec fn interrupts_ok(&self) -> bool {
        (self.bus.ime && self.bus.ie & self.requested_flags() != 0) ==> self.serve_ok()
    }

    /// Merges the interrupt requests into IF and serves the pending
    /// interrupt of highest priority when interrupts are enabled.
    pub fn interrupts(&mut self) -> (r: Result<(), EmulatorError>)
        requires
            old(self).interrupts_ok(),
        ensures
            r is Ok,
            *final(self) == old(self).interrupts_spec(),
    {
        assert(1u8 << 0u8 == 1u8 && 1u8 << 1u8 == 2u8 && 1u8 << 2u8 == 4u8 && 1u8 << 4u8 == 16u8)
            by (bit_vector);
        if self.bus.ppu.vblank_interrupt == 1 {
            self.bus.if_reg |= 1 << 0;
        }
        if self.bus.ppu.stat_interrupt == 1 {
            self.bus.if_reg |= 1 << 1;
        }
        if self.bus.timer.timer_interrupt == 1 {
            self.bus.if_reg |= 1 << 2;
        }
        if self.jpad_interrupt {
            self.bus.if_reg |= 1 << 4;
        }
        if self.bus.ime {
            let interrupt_flags = self.bus.ie & self.bus.if_reg;
            if interrupt_flags != 0 {
                self.bus.ime = false;  // Disable further interrupts
                if interrupt_flags & 0b00001 != 0 {
                    self.bus.ppu.vblank_interrupt = 0;
                    self.bus.if_reg &= !(1 << 0);
                    self.handle_interrupt(0x0040)?;  // V-Blank interrupt
                } else if interrupt_flags & 0b00010 != 0 {
                    self.bus.ppu.stat_interrupt = 0;
                    self.bus.if_reg &= !(1 << 1);
                    self.handle_interrupt(0x0048)?;  // LCD STAT interrupt
                } else if interrupt_flags & 0b00100 != 0 {
                    self.bus.timer.timer_interrupt = 0;
                    self.bus.if_reg &= !(1 << 2);
                    self.handle_interrupt(0x0050)?;  // Timer interrupt
                } else if interrupt_flags & 0b01000 != 0 {
                    self.handle_interrupt(0x0058)?;  // Serial interrupt
                } else if interrupt_flags & 0b10000 != 0 {
                    self.jpad_interrupt = false;
                    self.bus.if_reg &= !(1 << 4);
                    self.handle_interrupt(0x0060)?;  // Joypad interrupt
                }
            }
        }
        Ok(())
    }

    fn handle_interrupt(&mut self, addr: u16) -> (r: Result<(), EmulatorError>)
        requires
            old(self).serve_ok(),
        ensures
            r is Ok,
            *final(self) == old(self).serve_spec(addr),
    {
        proof {
            crate::timer::lemma_tick_room(self.bus.timer, 2, 2);
        }
        // Two idle cycles, twice
        self.bus.timer.timer_tick(2);
        self.bus.timer.timer_tick(2);
        // Push the return address onto the stack
        let pc = self.last_pc;
        self.push(pc);
        // Jump to the interrupt handler
        self.program_counter = addr;
        Ok(())
    }

    /// Whether the opcode at the program counter can be read (with the byte
    /// after it when it is the 0xCB prefix, which must not be at 0xFFFF).
    pub open spec fn fetch_ok(&self) -> bool {
        &&& self.can_read(self.program_counter as int)
        &&& self.read(self.program_counter as int) == 0xCB ==> self.program_counter < 0xFFFF
            && self.can_read(self.program_counter + 1)
    }

    /// The instruction at the program counter: an opcode, or 0xCB and the
    /// opcode of the prefixed table after it.
    pub open spec fn fetched(&self) -> Option<Instruction> {
        if self.read(self.program_counter as int) == 0xCB {
            decode(self.read(self.program_counter + 1), true)
        } else {
            decode(self.read(self.program_counter as int), false)
        }
    }

    /// A step can run: the instruction at the program counter is known and
    /// can be executed.
    pub open spec fn step_ok(&self) -> bool {
        &&& self.fetch_ok()
        &&& self.fetched() is Some
        &&& self.execute_ok(self.fetched()->0)
    }

    /// The CPU after one step: the instruction at the program counter runs
    /// and the program counter moves to the address it gives.
    pub open spec fn step_spec(self) -> CPU {
        let (s, next_pc) = self.execute_spec(self.fetched()->0);
        CPU { program_counter: next_pc, ..s }
    }

    /// Decodes the instruction at the program counter; `None` when it cannot
    /// be read or is not an opcode of the tables.
    pub fn next_instruction(&self) -> (r: Option<Instruction>)
        ensures
            self.fetch_ok() ==> r == self.fetched(),
            !self.fetch_ok() ==> r is None,
    {
        if !readable(&self.bus, self.program_counter) {
            return None;
        }
        let opcode = self.bus.bus_read(self.program_counter);
        if opcode == 0xCB {
            if self.program_counter == 0xFFFF || !readable(&self.bus, self.program_counter + 1) {
                return None;
            }
            let byte = self.bus.bus_read(self.program_counter + 1);
            Instruction::from_byte(byte, true)
        } else {
            Instruction::from_byte(opcode, false)
        }
    }

    /// Fetches, decodes and runs the instruction at the program counter.
    #[verifier::spinoff_prover]
    #[verifier::rlimit(30)]
    pub fn step(&mut self)
        requires
            old(self).step_ok(),
        ensures
            *final(self) == old(self).step_spec(),
    {
        let mut instruction_byte = self.bus.bus_read(self.program_counter);
        let prefixed = instruction_byte == 0xCB;
        if prefixed {
            instruction_byte = self.bus.bus_read(self.program_counter + 1);
        }
        let next_pc = match Instruction::from_byte(instruction_byte, prefixed) {
            Some(instruction) => self.execute(instruction),
            None => self.program_counter,
        };
        self.program_counter = next_pc;
    }
}

/// Whether the bus can serve a read of `address`.
pub fn readable(bus: &MemoryBus, address: u16) -> (r: bool)
    ensures
        r == read_ok(bus.rom_len(), address as int),
{
    (address > 0x7FFF || (address as usize) < bus.rom.len()) && !(0xFF4C <= address && address <= 0xFF7F)
}

} // verus!

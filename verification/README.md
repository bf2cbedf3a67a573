# gbemu

A Game Boy (DMG) emulator. The emulator core is a Verus library whose
behaviour is stated in `requires` / `ensures` contracts and proved; a thin
program around it opens the window, reads the ROM file and feeds the keys.

## Layout

- `src/` — the verified library
  - `register.rs` — registers, flags and register pairs
  - `alu.rs` — results and flags of the arithmetic, logic, rotate and shift operations
  - `instruction.rs` — the instruction set, the opcode decoder and instruction names
  - `cpu.rs` — the memory bus, the CPU state, fetch, interrupts and the stack
  - `execute.rs` — the effect of each instruction
  - `sequence.rs` — laws over a PUSH followed by a POP
  - `ready.rs` — tests of whether the next step and interrupt handling can run
  - `machine.rs` — one pass of the emulation loop
  - `timer.rs`, `ppu.rs`, `tile.rs` — the timer, the picture processing unit and tile decoding
  - `gpu.rs` — the joypad register and the colours of the frame
  - `cartridge.rs`, `bus.rs`, `dma.rs` — the cartridge header, the cartridge bus and the OAM DMA controller
- `tests/` — tests of the library on concrete programs and values
- `app/` — the program: the window (minifb), the SDL2 tile viewer, ROM loading and the main loop

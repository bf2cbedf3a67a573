//! A Game Boy (DMG) emulator core: CPU, instruction decoder, memory bus,
//! picture processing unit, timer and joypad, with their behaviour stated
//! in contracts and proved.

pub mod register;
pub mod timer;
pub mod tile;
pub mod ppu;
pub mod alu;
pub mod cpu;
pub mod instruction;
pub mod execute;
pub mod cartridge;
pub mod bus;
pub mod dma;
pub mod gpu;
pub mod ready;
pub mod machine;
pub mod sequence;

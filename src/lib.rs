//! A Nintendo Entertainment System core: a 6502 interpreter, the memory bus
//! with the PPU's memory-mapped registers, and a scanline-accurate PPU.
pub mod canvas;
pub mod palette;
pub mod mem;
pub mod decode;
pub mod cpu;
pub mod ppu;
pub mod cartridge;
pub mod nes;
pub mod trace;

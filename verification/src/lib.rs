//! Verified core of a Nintendo Entertainment System emulator.
//!
//! The crate models the interconnected 6502 CPU, memory bus, picture
//! processing unit (PPU), audio processing unit (APU), cartridge/mapper
//! layer and the system clock that binds them. Host concerns (file
//! loading, video output, audio devices) live outside this crate; the
//! core consumes ROM bytes and button states and produces a framebuffer
//! of palette indices plus integer audio channel levels.

pub mod apu;
pub mod cartridge;
pub mod context;
pub mod controller;
pub mod cpu;
pub mod error;
pub mod instructions;
pub mod memory;
pub mod opcodes;
pub mod palette;
pub mod ppu;
pub mod system;

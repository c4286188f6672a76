//! Emulation core for a classic 8-bit game console: the 6502-family
//! processor, the memory-mapped address bus with its mirroring rules, and
//! the scanline-driven graphics chip, bound together by the NMI timing
//! protocol.

pub mod alu;
pub mod bus;
pub mod bytes;
pub mod console;
pub mod config;
pub mod cpu;
pub mod errors;
pub mod execute;
pub mod graphics;
pub mod instruction;
pub mod memory;
pub mod ppu;
pub mod rom;

//! Fixed hardware parameters shared across the emulation core.

use vstd::prelude::*;

verus! {

/// Size of one 256-byte page in the processor's address space.
pub const CPU_PAGE_SIZE: u16 = 256;

/// Size of one bank of cartridge program data.
pub const PROGRAM_ROM_PAGE_SIZE: u16 = 1024 * 16;

/// Size of one bank of cartridge pattern (character) data.
pub const CHR_ROM_PAGE_SIZE: u16 = 1024 * 8;

/// Stack pointer value after power-on.
pub const CPU_SP_START_VALUE: u8 = 0xFD;

/// Flag byte after power-on: interrupt-disable and the always-on bit.
pub const CPU_FLAGS_START_VALUE: u8 = 0b0010_0100;

/// First address of the cartridge program region on the bus.
pub const ROM_START: u16 = 0x8000;

} // verus!

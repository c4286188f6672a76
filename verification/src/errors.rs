//! Failure conditions of the emulation core.
//!
//! Every condition is fatal to the run that raised it: the core never
//! fabricates a byte for an access it cannot route, because doing so would
//! silently desynchronize all later emulated state.  Each variant carries
//! the address or opcode that identifies the faulting access.

use vstd::prelude::*;

verus! {

/// A fault raised while the console is running: an access the bus cannot
/// route, a write into read-only hardware, or an instruction the executor
/// does not cover.
#[derive(Clone, Copy, Debug, PartialEq, Eq, Structural)]
pub enum EmuError {
    /// A read at an address outside every mapped region.
    UnmappedRead(u16),
    /// A write at an address outside every mapped region.
    UnmappedWrite(u16),
    /// A read from a write-only graphics-chip register.
    ReadFromWriteOnly(u16),
    /// A write to the read-only graphics-chip status register.
    WriteToReadOnly(u16),
    /// A write into the cartridge program region.
    WriteToCartridge(u16),
    /// A graphics-chip data write aimed at the read-only pattern table.
    PatternTableWrite(u16),
    /// A graphics-chip data read beyond the end of the pattern data.
    PatternTableRead(u16),
    /// A graphics-chip data access in the unused region of its address
    /// space.
    UnusedVideoAddress(u16),
    /// A nametable access under four-screen mirroring, which this core
    /// does not fold onto the two physical banks.
    UnsupportedMirroring(u16),
    /// An opcode absent from the instruction table.
    UnknownOpcode(u8),
    /// An opcode whose operation/addressing-mode pairing the executor does
    /// not cover.
    UnsupportedInstruction(u8),
}

/// A failure while parsing a cartridge image, reported at load time before
/// any component of the core is constructed.
#[derive(Clone, Copy, Debug, PartialEq, Eq, Structural)]
pub enum RomError {
    /// The image does not begin with the format's magic identifier.
    NotInes,
    /// The image ends before the header or the data the header promises.
    Truncated,
    /// The cartridge names a mapper chip this core does not emulate.
    UnsupportedMapper(u8),
    /// The cartridge uses a format version this core does not read.
    UnsupportedVersion(u8),
}

} // verus!

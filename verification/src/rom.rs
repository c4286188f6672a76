//! Cartridge images: the two fixed data buffers and the mirroring mode,
//! parsed from the iNES binary format at load time.

use crate::bytes::copy_range;
use crate::errors::RomError;
use vstd::prelude::*;

verus! {

/// How the graphics chip folds the four logical nametables onto its two
/// physical video-RAM banks, configured by the cartridge.
#[derive(Clone, Copy, Debug, PartialEq, Eq, Hash, Structural)]
pub enum Mirroring {
    Vertical,
    Horizontal,
    FourScreen,
}

/// The cartridge's mapper chip.  Only the simplest mapper is emulated.
#[derive(Clone, Copy, Debug, PartialEq, Eq, Hash, Structural)]
pub enum Mapper {
    Zero,
}

impl Mapper {
    /// The mapper a header byte selects, or the unsupported number.
    pub fn from_byte(value: u8) -> (r: Result<Mapper, RomError>)
        ensures
            r == (if value == 0 {
                Ok::<Mapper, RomError>(Mapper::Zero)
            } else {
                Err::<Mapper, RomError>(RomError::UnsupportedMapper(value))
            }),
    {
        match value {
            0 => Ok(Mapper::Zero),
            _ => Err(RomError::UnsupportedMapper(value)),
        }
    }
}

/// A parsed cartridge: program data, pattern (character) data, and the
/// nametable mirroring mode.  Created once at load time, read-only after.
#[derive(Debug)]
pub struct Rom {
    pub program_rom: Vec<u8>,
    pub chr_rom: Vec<u8>,
    pub mirroring: Mirroring,
    pub mapper: Mapper,
}

/// Mathematical image of a parsed cartridge.
#[verifier::ext_equal]
pub ghost struct RomView {
    pub program_rom: Seq<u8>,
    pub chr_rom: Seq<u8>,
    pub mirroring: Mirroring,
    pub mapper: Mapper,
}

impl View for Rom {
    type V = RomView;

    open spec fn view(&self) -> RomView {
        RomView {
            program_rom: self.program_rom@,
            chr_rom: self.chr_rom@,
            mirroring: self.mirroring,
            mapper: self.mapper,
        }
    }
}

/// Whether an image begins with the iNES magic identifier.
pub open spec fn spec_magic_ok(bytes: Seq<u8>) -> bool {
    bytes.len() >= 4 && bytes[0] == 0x4E && bytes[1] == 0x45 && bytes[2] == 0x53 && bytes[3]
        == 0x1A
}

/// The mapper number encoded across the two header control bytes: high
/// nibble from the second, low nibble from the top of the first.
pub open spec fn spec_mapper_byte(c1: u8, c2: u8) -> u8 {
    ((c2 - c2 % 16) + c1 / 16) as u8
}

/// The mirroring mode the first control byte selects.
pub open spec fn spec_mirroring_of(c1: u8) -> Mirroring {
    if c1 / 8 % 2 == 1 {
        Mirroring::FourScreen
    } else if c1 % 2 == 1 {
        Mirroring::Vertical
    } else {
        Mirroring::Horizontal
    }
}

/// Where the program data starts: after the 16-byte header, skipping the
/// 512-byte trainer when the first control byte announces one.
pub open spec fn spec_program_start(c1: u8) -> int {
    16 + if c1 / 4 % 2 == 1 {
        512int
    } else {
        0int
    }
}

/// The cartridge an iNES image parses to, or the first failing check:
/// header presence, magic identifier, mapper, format version, then data
/// length against the bank counts the header promises.
pub open spec fn spec_rom_parse(bytes: Seq<u8>) -> Result<RomView, RomError> {
    if bytes.len() < 16 {
        Err(RomError::Truncated)
    } else if !spec_magic_ok(bytes) {
        Err(RomError::NotInes)
    } else {
        let c1 = bytes[6];
        let c2 = bytes[7];
        let mapper_byte = spec_mapper_byte(c1, c2);
        if mapper_byte != 0 {
            Err(RomError::UnsupportedMapper(mapper_byte))
        } else if c2 % 16 != 0 {
            Err(RomError::UnsupportedVersion((c2 % 16) as u8))
        } else {
            let program_size = bytes[4] * 16384;
            let chr_size = bytes[5] * 8192;
            let program_start = spec_program_start(c1);
            let chr_start = program_start + program_size;
            if bytes.len() < chr_start + chr_size {
                Err(RomError::Truncated)
            } else {
                Ok(
                    RomView {
                        program_rom: bytes.subrange(program_start, chr_start),
                        chr_rom: bytes.subrange(chr_start, chr_start + chr_size),
                        mirroring: spec_mirroring_of(c1),
                        mapper: Mapper::Zero,
                    },
                )
            }
        }
    }
}

impl Rom {
    /// Parse an iNES image into a cartridge, or report the first failing
    /// check of the header or of the data lengths it promises.
    pub fn new(rom_bytes: &Vec<u8>) -> (r: Result<Rom, RomError>)
        ensures
            match r {
                Ok(rom) => spec_rom_parse(rom_bytes@) == Ok::<RomView, RomError>(rom@),
                Err(e) => spec_rom_parse(rom_bytes@) == Err::<RomView, RomError>(e),
            },
    {
        if rom_bytes.len() < 16 {
            return Err(RomError::Truncated);
        }
        if rom_bytes[0] != 0x4E || rom_bytes[1] != 0x45 || rom_bytes[2] != 0x53 || rom_bytes[3]
            != 0x1A {
            return Err(RomError::NotInes);
        }
        let program_rom_banks = rom_bytes[4];
        let chr_rom_banks = rom_bytes[5];
        let control_byte_1 = rom_bytes[6];
        let control_byte_2 = rom_bytes[7];

        let mapper_byte: u8 = (control_byte_2 - control_byte_2 % 16) + control_byte_1 / 16;
        let mapper = match Mapper::from_byte(mapper_byte) {
            Ok(m) => m,
            Err(e) => {
                return Err(e);
            },
        };

        let i_nes_version = control_byte_2 % 16;
        if i_nes_version != 0 {
            return Err(RomError::UnsupportedVersion(i_nes_version));
        }
        let four_screen_mirroring = control_byte_1 / 8 % 2 == 1;
        let vertical_mirroring = control_byte_1 % 2 == 1;
        let mirroring = if four_screen_mirroring {
            Mirroring::FourScreen
        } else if vertical_mirroring {
            Mirroring::Vertical
        } else {
            Mirroring::Horizontal
        };

        let program_rom_size: usize = program_rom_banks as usize * 16384;
        let chr_rom_size: usize = chr_rom_banks as usize * 8192;

        let has_trainer = control_byte_1 / 4 % 2 == 1;
        let program_rom_start: usize = if has_trainer {
            16 + 512
        } else {
            16
        };
        let chr_rom_start: usize = program_rom_start + program_rom_size;

        if rom_bytes.len() < chr_rom_start + chr_rom_size {
            return Err(RomError::Truncated);
        }
        Ok(
            Rom {
                program_rom: copy_range(rom_bytes, program_rom_start, chr_rom_start),
                chr_rom: copy_range(rom_bytes, chr_rom_start, chr_rom_start + chr_rom_size),
                mirroring,
                mapper,
            },
        )
    }
}

} // verus!

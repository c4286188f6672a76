//! Cartridge parsing: a well-formed image, each load-time failure, the
//! mirroring-mode bits, and the trainer offset.

use nes_core::errors::RomError;
use nes_core::rom::{Mapper, Mirroring, Rom};

fn image(prg_banks: u8, chr_banks: u8, control1: u8, control2: u8) -> Vec<u8> {
    let mut bytes = vec![0x4E, 0x45, 0x53, 0x1A, prg_banks, chr_banks, control1, control2];
    bytes.resize(16, 0);
    let trainer = if control1 & 0b100 != 0 { 512 } else { 0 };
    bytes.resize(16 + trainer + prg_banks as usize * 16384 + chr_banks as usize * 8192, 0);
    bytes
}

#[test]
fn test_rom_parse_well_formed() {
    let mut bytes = image(1, 1, 0, 0);
    bytes[16] = 0xA9; // first program byte
    bytes[16 + 16384] = 0x3C; // first pattern byte
    let rom = Rom::new(&bytes).unwrap();
    assert_eq!(rom.program_rom.len(), 16384);
    assert_eq!(rom.chr_rom.len(), 8192);
    assert_eq!(rom.program_rom[0], 0xA9);
    assert_eq!(rom.chr_rom[0], 0x3C);
    assert_eq!(rom.mirroring, Mirroring::Horizontal);
    assert_eq!(rom.mapper, Mapper::Zero);
}

#[test]
fn test_rom_parse_bad_magic() {
    let mut bytes = image(1, 1, 0, 0);
    bytes[0] = 0x4D;
    assert_eq!(Rom::new(&bytes).unwrap_err(), RomError::NotInes);
}

#[test]
fn test_rom_parse_unsupported_mapper() {
    // mapper number: high nibble of control byte 2, low nibble from the
    // top of control byte 1
    let bytes = image(1, 1, 0x10, 0);
    assert_eq!(Rom::new(&bytes).unwrap_err(), RomError::UnsupportedMapper(1));
    let bytes = image(1, 1, 0, 0x20);
    assert_eq!(Rom::new(&bytes).unwrap_err(), RomError::UnsupportedMapper(0x20));
}

#[test]
fn test_rom_parse_unsupported_version() {
    let bytes = image(1, 1, 0, 0x05);
    assert_eq!(Rom::new(&bytes).unwrap_err(), RomError::UnsupportedVersion(5));
}

#[test]
fn test_rom_parse_truncated() {
    assert_eq!(Rom::new(&vec![0x4E, 0x45, 0x53]).unwrap_err(), RomError::Truncated);
    // header promises more data than the image holds
    let mut bytes = image(1, 1, 0, 0);
    bytes.truncate(16 + 16384);
    assert_eq!(Rom::new(&bytes).unwrap_err(), RomError::Truncated);
}

#[test]
fn test_rom_parse_mirroring_bits() {
    let vertical = Rom::new(&image(1, 1, 0b0000_0001, 0)).unwrap();
    assert_eq!(vertical.mirroring, Mirroring::Vertical);
    let four_screen = Rom::new(&image(1, 1, 0b0000_1000, 0)).unwrap();
    assert_eq!(four_screen.mirroring, Mirroring::FourScreen);
    let four_wins = Rom::new(&image(1, 1, 0b0000_1001, 0)).unwrap();
    assert_eq!(four_wins.mirroring, Mirroring::FourScreen);
}

#[test]
fn test_rom_parse_trainer_skipped() {
    let mut bytes = image(1, 1, 0b0000_0100, 0);
    bytes[16 + 512] = 0x77; // first program byte sits after the trainer
    let rom = Rom::new(&bytes).unwrap();
    assert_eq!(rom.program_rom[0], 0x77);
}

//! Address-bus routing: work-RAM mirroring, the page-wrapped pointer
//! read, write-protection of the cartridge range, graphics-register
//! ports, and the sprite DMA trigger.

use nes_core::bus;
use nes_core::console::Console;
use nes_core::cpu::Cpu;
use nes_core::errors::EmuError;
use nes_core::ppu::Ppu;
use nes_core::rom::{Mapper, Mirroring, Rom};

fn blank_console() -> Console {
    let rom = Rom {
        program_rom: vec![0u8; 16384],
        chr_rom: vec![0u8; 8192],
        mirroring: Mirroring::Horizontal,
        mapper: Mapper::Zero,
    };
    let ppu = Ppu::new(&rom);
    Console { cpu: Cpu::new(), bus: bus::Bus::new(), ppu, rom }
}

#[test]
fn test_ram_mirroring() {
    let mut console = blank_console();
    bus::write_u8(&mut console, 0x0000, 0xAB).unwrap();
    assert_eq!(bus::read_u8(&mut console, 0x0800).unwrap(), 0xAB);
    assert_eq!(bus::read_u8(&mut console, 0x1000).unwrap(), 0xAB);
    assert_eq!(bus::read_u8(&mut console, 0x1800).unwrap(), 0xAB);

    bus::write_u8(&mut console, 0x1FFF, 0xCD).unwrap();
    assert_eq!(bus::read_u8(&mut console, 0x07FF).unwrap(), 0xCD);
}

#[test]
fn test_cartridge_writes_fail() {
    let mut console = blank_console();
    assert_eq!(
        bus::write_u8(&mut console, 0x8000, 1),
        Err(EmuError::WriteToCartridge(0x8000))
    );
    assert_eq!(
        bus::write_u8(&mut console, 0xC123, 1),
        Err(EmuError::WriteToCartridge(0xC123))
    );
    assert_eq!(
        bus::write_u8(&mut console, 0xFFFF, 1),
        Err(EmuError::WriteToCartridge(0xFFFF))
    );
}

#[test]
fn test_unmapped_accesses_fail() {
    let mut console = blank_console();
    assert_eq!(bus::read_u8(&mut console, 0x5000), Err(EmuError::UnmappedRead(0x5000)));
    assert_eq!(bus::write_u8(&mut console, 0x5000, 1), Err(EmuError::UnmappedWrite(0x5000)));
    assert_eq!(bus::read_u8(&mut console, 0x2000), Err(EmuError::ReadFromWriteOnly(0x2000)));
    assert_eq!(bus::write_u8(&mut console, 0x2002, 1), Err(EmuError::WriteToReadOnly(0x2002)));
    assert_eq!(bus::read_u8(&mut console, 0x4014), Err(EmuError::ReadFromWriteOnly(0x4014)));
    assert_eq!(bus::read_u16(&mut console, 0xFFFF), Err(EmuError::UnmappedRead(0xFFFF)));
}

#[test]
fn test_read_u16_wrap_page_quirk() {
    let mut console = blank_console();
    // pointer at 0x10FF: low byte there, high byte from 0x1000, the same
    // page's first byte — never from 0x1100
    bus::write_u8(&mut console, 0x10FF, 0x34).unwrap();
    bus::write_u8(&mut console, 0x1000, 0x12).unwrap();
    bus::write_u8(&mut console, 0x1100, 0xEE).unwrap();
    assert_eq!(bus::read_u16_wrap_page(&mut console, 0x10FF).unwrap(), 0x1234);

    // away from a page boundary both reads are consecutive
    bus::write_u8(&mut console, 0x0040, 0x78).unwrap();
    bus::write_u8(&mut console, 0x0041, 0x56).unwrap();
    assert_eq!(bus::read_u16_wrap_page(&mut console, 0x0040).unwrap(), 0x5678);
}

#[test]
fn test_read_write_u16_little_endian() {
    let mut console = blank_console();
    bus::write_u16(&mut console, 0x0200, 0xBEEF).unwrap();
    assert_eq!(console.bus.cpu_ram[0x200], 0xEF);
    assert_eq!(console.bus.cpu_ram[0x201], 0xBE);
    assert_eq!(bus::read_u16(&mut console, 0x0200).unwrap(), 0xBEEF);
}

#[test]
fn test_read_i8_sign() {
    let mut console = blank_console();
    bus::write_u8(&mut console, 0x0010, 0xFE).unwrap();
    assert_eq!(bus::read_i8(&mut console, 0x0010).unwrap(), -2);
    bus::write_u8(&mut console, 0x0011, 0x7F).unwrap();
    assert_eq!(bus::read_i8(&mut console, 0x0011).unwrap(), 127);
}

#[test]
fn test_rom_reads_mirror_single_bank() {
    let mut console = blank_console();
    console.rom.program_rom[0x0123] = 0x99;
    // one 16 KiB bank appears at both halves of the cartridge range
    assert_eq!(bus::read_u8(&mut console, 0x8123).unwrap(), 0x99);
    assert_eq!(bus::read_u8(&mut console, 0xC123).unwrap(), 0x99);

    // with two banks the halves are distinct
    let mut wide = blank_console();
    wide.rom.program_rom = vec![0u8; 32768];
    wide.rom.program_rom[0x0123] = 0x11;
    wide.rom.program_rom[0x4123] = 0x22;
    assert_eq!(bus::read_u8(&mut wide, 0x8123).unwrap(), 0x11);
    assert_eq!(bus::read_u8(&mut wide, 0xC123).unwrap(), 0x22);
}

#[test]
fn test_oam_dma_through_bus() {
    let mut console = blank_console();
    for i in 0..256usize {
        console.bus.cpu_ram[0x0200 + i] = i as u8;
    }
    console.ppu.write_to_oam_address(0x04);
    bus::write_u8(&mut console, 0x4014, 0x02).unwrap();
    // the page landed at the cursor onward, wrapping at 256
    assert_eq!(console.ppu.oam[0x04], 0x00);
    assert_eq!(console.ppu.oam[0xFF], 0xFB);
    assert_eq!(console.ppu.oam[0x00], 0xFC);
    assert_eq!(console.ppu.oam[0x03], 0xFF);
    // the cursor came back around to where it started
    assert_eq!(console.ppu.oam_address, 0x04);

    // a source page outside work RAM fails as an unmapped read
    assert_eq!(
        bus::write_u8(&mut console, 0x4014, 0x80),
        Err(EmuError::UnmappedRead(0x8000))
    );
}

#[test]
fn test_ppu_register_ports_route() {
    let mut console = blank_console();
    // the register file repeats every 8 bytes through 0x3FFF
    bus::write_u8(&mut console, 0x2006, 0x23).unwrap();
    bus::write_u8(&mut console, 0x3FFE, 0x05).unwrap(); // mirror of 0x2006
    bus::write_u8(&mut console, 0x2007, 0x77).unwrap();
    assert_eq!(console.ppu.vram[0x0305], 0x77);

    console.ppu.status.vblank_started = true;
    let status = bus::read_u8(&mut console, 0x2002).unwrap();
    assert_eq!(status >> 7, 1);
    assert!(!console.ppu.status.vblank_started);
}

//! The address bus: routes every 16-bit access to work RAM, the graphics
//! chip's register ports, or the cartridge program data, applying the
//! mirroring mask of each range.  An access nothing maps is a fault, never
//! a fabricated byte.

use crate::alu::signed_val;
use crate::bytes::{copy_range, zero_vec};
use crate::config::{CPU_PAGE_SIZE, PROGRAM_ROM_PAGE_SIZE};
use crate::console::{console_wf, Console, ConsoleView};
use crate::errors::EmuError;
use crate::ppu::{
    spec_ppu_read_data, spec_ppu_read_status, spec_ppu_write_control, spec_ppu_write_data,
    spec_ppu_write_mask, spec_ppu_write_oam_address, spec_ppu_write_oam_data,
    spec_ppu_write_oam_dma, spec_ppu_write_scroll, spec_ppu_write_vram_address,
};
use vstd::prelude::*;

verus! {

/// Last address of the mirrored work-RAM range.
pub const RAM_MIRRORS_END: u16 = 0x1FFF;

/// First address of the mirrored graphics-register range.
pub const PPU_REGISTERS_START: u16 = 0x2000;

/// Last address of the mirrored graphics-register range.
pub const PPU_REGISTERS_MIRRORS_END: u16 = 0x3FFF;

/// The fixed high register that triggers a sprite DMA.
pub const OAM_DMA_ADDRESS: u16 = 0x4014;

/// First address of the cartridge program range.
pub const CARTRIDGE_START: u16 = 0x8000;

/// The bus's own backing store: the console's 2 KiB of work RAM,
/// mirrored every 2 KiB up to 0x2000.
#[derive(Debug)]
pub struct Bus {
    pub cpu_ram: Vec<u8>,
}

impl Bus {
    /// A bus whose work RAM is zeroed.
    pub fn new() -> (r: Bus)
        ensures
            r.cpu_ram@ == Seq::new(2048, |i: int| 0u8),
            r.cpu_ram@.len() == 2048,
    {
        Bus { cpu_ram: zero_vec(2048) }
    }
}

/// The byte a program-data read returns: one 16 KiB bank mirrors across
/// the 32 KiB cartridge range.
pub open spec fn spec_rom_byte(program_rom: Seq<u8>, address: u16) -> u8
    recommends
        address >= CARTRIDGE_START,
        program_rom.len() == 16384 || program_rom.len() == 32768,
{
    let index = address - CARTRIDGE_START;
    if program_rom.len() == PROGRAM_ROM_PAGE_SIZE {
        program_rom[index % (PROGRAM_ROM_PAGE_SIZE as int)]
    } else {
        program_rom[index]
    }
}

/// The machine after a bus read, with the byte read or the fault.  RAM
/// and cartridge reads leave the machine unchanged; graphics-register
/// reads carry that port's side effects.
pub open spec fn spec_bus_read8(c: ConsoleView, address: u16) -> (ConsoleView, Result<
    u8,
    EmuError,
>) {
    if address <= RAM_MIRRORS_END {
        (c, Ok(c.ram[address as int % 0x800]))
    } else if address <= PPU_REGISTERS_MIRRORS_END {
        let port = PPU_REGISTERS_START as int + address as int % 8;
        if port == 0x2002 {
            let (p, v) = spec_ppu_read_status(c.ppu);
            (ConsoleView { ppu: p, ..c }, Ok(v))
        } else if port == 0x2004 {
            (c, Ok(c.ppu.oam[c.ppu.oam_address as int]))
        } else if port == 0x2007 {
            let (p, r) = spec_ppu_read_data(c.ppu);
            (ConsoleView { ppu: p, ..c }, r)
        } else {
            (c, Err(EmuError::ReadFromWriteOnly(address)))
        }
    } else if address == OAM_DMA_ADDRESS {
        (c, Err(EmuError::ReadFromWriteOnly(address)))
    } else if address >= CARTRIDGE_START {
        (c, Ok(spec_rom_byte(c.rom.program_rom, address)))
    } else {
        (c, Err(EmuError::UnmappedRead(address)))
    }
}

/// The machine after a bus write, or the fault.  Writes into the
/// cartridge range and to unmapped addresses always fail; a write to the
/// sprite-DMA register copies a 256-byte page of work RAM into OAM.
pub open spec fn spec_bus_write8(c: ConsoleView, address: u16, value: u8) -> (
    ConsoleView,
    Result<(), EmuError>,
) {
    if address <= RAM_MIRRORS_END {
        (ConsoleView { ram: c.ram.update(address as int % 0x800, value), ..c }, Ok(()))
    } else if address <= PPU_REGISTERS_MIRRORS_END {
        let port = PPU_REGISTERS_START as int + address as int % 8;
        if port == 0x2000 {
            (ConsoleView { ppu: spec_ppu_write_control(c.ppu, value), ..c }, Ok(()))
        } else if port == 0x2001 {
            (ConsoleView { ppu: spec_ppu_write_mask(c.ppu, value), ..c }, Ok(()))
        } else if port == 0x2002 {
            (c, Err(EmuError::WriteToReadOnly(address)))
        } else if port == 0x2003 {
            (ConsoleView { ppu: spec_ppu_write_oam_address(c.ppu, value), ..c }, Ok(()))
        } else if port == 0x2004 {
            (ConsoleView { ppu: spec_ppu_write_oam_data(c.ppu, value), ..c }, Ok(()))
        } else if port == 0x2005 {
            (ConsoleView { ppu: spec_ppu_write_scroll(c.ppu, value), ..c }, Ok(()))
        } else if port == 0x2006 {
            (ConsoleView { ppu: spec_ppu_write_vram_address(c.ppu, value), ..c }, Ok(()))
        } else {
            let (p, r) = spec_ppu_write_data(c.ppu, value);
            (ConsoleView { ppu: p, ..c }, r)
        }
    } else if address == OAM_DMA_ADDRESS {
        if value < 0x20 {
            let start = (value as int % 8) * 256;
            let page = c.ram.subrange(start, start + 256);
            (ConsoleView { ppu: spec_ppu_write_oam_dma(c.ppu, page), ..c }, Ok(()))
        } else {
            (c, Err(EmuError::UnmappedRead((value * 256) as u16)))
        }
    } else if address >= CARTRIDGE_START {
        (c, Err(EmuError::WriteToCartridge(address)))
    } else {
        (c, Err(EmuError::UnmappedWrite(address)))
    }
}

/// Two bus reads composed little-endian: low byte at `address`, high byte
/// at `address + 1`.  Reading at the very top of the address space fails,
/// since the high byte has nowhere to come from.
pub open spec fn spec_bus_read16(c: ConsoleView, address: u16) -> (ConsoleView, Result<
    u16,
    EmuError,
>) {
    if address == 0xFFFF {
        (c, Err(EmuError::UnmappedRead(address)))
    } else {
        let (c1, r1) = spec_bus_read8(c, address);
        match r1 {
            Ok(low) => {
                let (c2, r2) = spec_bus_read8(c1, (address + 1) as u16);
                match r2 {
                    Ok(high) => (c2, Ok((low + high * 256) as u16)),
                    Err(e) => (c2, Err(e)),
                }
            },
            Err(e) => (c1, Err(e)),
        }
    }
}

/// The high-byte address of a 16-bit pointer read that cannot leave its
/// 256-byte page: the page's base plus the wrapped successor offset.
pub open spec fn spec_wrap_page_high_address(address: u16) -> u16 {
    let page = CPU_PAGE_SIZE as int;
    ((address as int / page) * page + (address as int % page + 1) % page) as u16
}

/// Two bus reads composed little-endian, with the high byte taken from
/// the same 256-byte page even when the low byte sits at the page's end —
/// the hardware's indirect-pointer quirk, reproduced faithfully.
pub open spec fn spec_bus_read16_wrap_page(c: ConsoleView, address: u16) -> (ConsoleView, Result<
    u16,
    EmuError,
>) {
    let (c1, r1) = spec_bus_read8(c, address);
    match r1 {
        Ok(low) => {
            let (c2, r2) = spec_bus_read8(c1, spec_wrap_page_high_address(address));
            match r2 {
                Ok(high) => (c2, Ok((low + high * 256) as u16)),
                Err(e) => (c2, Err(e)),
            }
        },
        Err(e) => (c1, Err(e)),
    }
}

/// Two bus writes composed little-endian: low byte at `address`, high
/// byte at `address + 1`.
pub open spec fn spec_bus_write16(c: ConsoleView, address: u16, value: u16) -> (
    ConsoleView,
    Result<(), EmuError>,
) {
    if address == 0xFFFF {
        (c, Err(EmuError::UnmappedWrite(address)))
    } else {
        let (c1, r1) = spec_bus_write8(c, address, (value as int % 256) as u8);
        match r1 {
            Ok(_) => spec_bus_write8(c1, (address + 1) as u16, (value as int / 256) as u8),
            Err(e) => (c1, Err(e)),
        }
    }
}

/// Read one byte through the bus.
pub fn read_u8(console: &mut Console, address: u16) -> (r: Result<u8, EmuError>)
    requires
        old(console).wf(),
    ensures
        final(console).wf(),
        final(console)@.ppu.cycles == old(console)@.ppu.cycles,
        (final(console)@, r) == spec_bus_read8(old(console)@, address),
{
    if address <= RAM_MIRRORS_END {
        let mirrored_down = (address % 0x800) as usize;
        Ok(console.bus.cpu_ram[mirrored_down])
    } else if address <= PPU_REGISTERS_MIRRORS_END {
        let port = PPU_REGISTERS_START + address % 8;
        if port == 0x2002 {
            Ok(console.ppu.read_from_status())
        } else if port == 0x2004 {
            Ok(console.ppu.read_from_oam_data())
        } else if port == 0x2007 {
            console.ppu.read_from_data()
        } else {
            Err(EmuError::ReadFromWriteOnly(address))
        }
    } else if address == OAM_DMA_ADDRESS {
        Err(EmuError::ReadFromWriteOnly(address))
    } else if address >= CARTRIDGE_START {
        let index = (address - CARTRIDGE_START) as usize;
        if console.rom.program_rom.len() == PROGRAM_ROM_PAGE_SIZE as usize {
            Ok(console.rom.program_rom[index % PROGRAM_ROM_PAGE_SIZE as usize])
        } else {
            Ok(console.rom.program_rom[index])
        }
    } else {
        Err(EmuError::UnmappedRead(address))
    }
}

/// Read one byte through the bus as a signed offset.
pub fn read_i8(console: &mut Console, address: u16) -> (r: Result<i8, EmuError>)
    requires
        old(console).wf(),
    ensures
        final(console).wf(),
        final(console)@.ppu.cycles == old(console)@.ppu.cycles,
        ({
            let (c1, r1) = spec_bus_read8(old(console)@, address);
            final(console)@ == c1 && r == match r1 {
                Ok(v) => Ok::<i8, EmuError>(signed_val(v) as i8),
                Err(e) => Err::<i8, EmuError>(e),
            }
        }),
{
    let value = match read_u8(console, address) {
        Ok(v) => v,
        Err(e) => {
            return Err(e);
        },
    };
    if value < 128 {
        Ok(value as i8)
    } else {
        Ok((value as i16 - 256) as i8)
    }
}

/// Read a little-endian 16-bit value through the bus.
pub fn read_u16(console: &mut Console, address: u16) -> (r: Result<u16, EmuError>)
    requires
        old(console).wf(),
    ensures
        final(console).wf(),
        final(console)@.ppu.cycles == old(console)@.ppu.cycles,
        (final(console)@, r) == spec_bus_read16(old(console)@, address),
{
    if address == 0xFFFF {
        return Err(EmuError::UnmappedRead(address));
    }
    let low_byte = match read_u8(console, address) {
        Ok(v) => v,
        Err(e) => {
            return Err(e);
        },
    };
    let high_byte = match read_u8(console, address + 1) {
        Ok(v) => v,
        Err(e) => {
            return Err(e);
        },
    };
    Ok(low_byte as u16 + high_byte as u16 * 256)
}

/// Read a little-endian 16-bit pointer whose two bytes come from the same
/// 256-byte page, reproducing the hardware's page-wrap quirk.
pub fn read_u16_wrap_page(console: &mut Console, address: u16) -> (r: Result<u16, EmuError>)
    requires
        old(console).wf(),
    ensures
        final(console).wf(),
        final(console)@.ppu.cycles == old(console)@.ppu.cycles,
        (final(console)@, r) == spec_bus_read16_wrap_page(old(console)@, address),
{
    let low_byte = match read_u8(console, address) {
        Ok(v) => v,
        Err(e) => {
            return Err(e);
        },
    };
    let page_start = (address / CPU_PAGE_SIZE) * CPU_PAGE_SIZE;
    let high_byte_address = page_start + (address % CPU_PAGE_SIZE + 1) % CPU_PAGE_SIZE;
    let high_byte = match read_u8(console, high_byte_address) {
        Ok(v) => v,
        Err(e) => {
            return Err(e);
        },
    };
    Ok(low_byte as u16 + high_byte as u16 * 256)
}

/// Write one byte through the bus.
pub fn write_u8(console: &mut Console, address: u16, value: u8) -> (r: Result<(), EmuError>)
    requires
        old(console).wf(),
    ensures
        final(console).wf(),
        final(console)@.ppu.cycles == old(console)@.ppu.cycles,
        (final(console)@, r) == spec_bus_write8(old(console)@, address, value),
{
    if address <= RAM_MIRRORS_END {
        let mirrored_down = (address % 0x800) as usize;
        console.bus.cpu_ram.set(mirrored_down, value);
        Ok(())
    } else if address <= PPU_REGISTERS_MIRRORS_END {
        let port = PPU_REGISTERS_START + address % 8;
        if port == 0x2000 {
            console.ppu.write_to_control(value);
            Ok(())
        } else if port == 0x2001 {
            console.ppu.write_to_mask(value);
            Ok(())
        } else if port == 0x2002 {
            Err(EmuError::WriteToReadOnly(address))
        } else if port == 0x2003 {
            console.ppu.write_to_oam_address(value);
            Ok(())
        } else if port == 0x2004 {
            console.ppu.write_to_oam_data(value);
            Ok(())
        } else if port == 0x2005 {
            console.ppu.write_to_scroll(value);
            Ok(())
        } else if port == 0x2006 {
            console.ppu.write_to_vram_address(value);
            Ok(())
        } else {
            console.ppu.write_to_data(value)
        }
    } else if address == OAM_DMA_ADDRESS {
        if value < 0x20 {
            let start = (value % 8) as usize * 256;
            let page = copy_range(&console.bus.cpu_ram, start, start + 256);
            console.ppu.write_to_oam_dma(&page);
            Ok(())
        } else {
            Err(EmuError::UnmappedRead(value as u16 * 256))
        }
    } else if address >= CARTRIDGE_START {
        Err(EmuError::WriteToCartridge(address))
    } else {
        Err(EmuError::UnmappedWrite(address))
    }
}

/// Write a little-endian 16-bit value through the bus.
pub fn write_u16(console: &mut Console, address: u16, value: u16) -> (r: Result<(), EmuError>)
    requires
        old(console).wf(),
    ensures
        final(console).wf(),
        final(console)@.ppu.cycles == old(console)@.ppu.cycles,
        (final(console)@, r) == spec_bus_write16(old(console)@, address, value),
{
    if address == 0xFFFF {
        return Err(EmuError::UnmappedWrite(address));
    }
    let low_byte = (value % 256) as u8;
    let high_byte = (value / 256) as u8;
    match write_u8(console, address, low_byte) {
        Ok(_) => {},
        Err(e) => {
            return Err(e);
        },
    }
    write_u8(console, address + 1, high_byte)
}


/// The page-wrap quirk, stated for every pointer address: when the low
/// byte sits at a page's last byte the high byte comes from that same
/// page's first byte, and otherwise from the next address.
pub proof fn lemma_wrap_page_high_address(address: u16)
    ensures
        address % 256 == 255 ==> spec_wrap_page_high_address(address) == address - 255,
        address % 256 < 255 ==> spec_wrap_page_high_address(address) == address + 1,
{
}

/// Work-RAM mirroring: a byte written at any RAM address is read back
/// through every address that folds to the same 2 KiB slot.
pub proof fn lemma_ram_mirror(c: ConsoleView, write_address: u16, read_address: u16, value: u8)
    requires
        console_wf(c),
        write_address <= RAM_MIRRORS_END,
        read_address <= RAM_MIRRORS_END,
        write_address % 0x800 == read_address % 0x800,
    ensures
        spec_bus_write8(c, write_address, value).1 == Ok::<(), EmuError>(()),
        spec_bus_read8(spec_bus_write8(c, write_address, value).0, read_address).1 == Ok::<
            u8,
            EmuError,
        >(value),
{
}

/// Writes at or above the cartridge base always fail: that hardware is
/// read-only.
pub proof fn lemma_cartridge_write_fails(c: ConsoleView, address: u16, value: u8)
    requires
        address >= CARTRIDGE_START,
    ensures
        spec_bus_write8(c, address, value).1 == Err::<(), EmuError>(
            EmuError::WriteToCartridge(address),
        ),
{
}

} // verus!

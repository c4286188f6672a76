//! The canonical per-instruction sequence, the flat memory store, and the
//! frame buffer.

use nes_core::bus::Bus;
use nes_core::console::{run_instruction, Console};
use nes_core::cpu::Cpu;
use nes_core::errors::EmuError;
use nes_core::graphics::Frame;
use nes_core::instruction::instructions;
use nes_core::memory::Memory;
use nes_core::ppu::Ppu;
use nes_core::rom::{Mapper, Mirroring, Rom};

fn console_with_program(program: &[u8]) -> Console {
    let mut program_rom = vec![0u8; 16384];
    program_rom[..program.len()].copy_from_slice(program);
    let rom = Rom {
        program_rom,
        chr_rom: vec![0u8; 8192],
        mirroring: Mirroring::Horizontal,
        mapper: Mapper::Zero,
    };
    let ppu = Ppu::new(&rom);
    Console { cpu: Cpu::new(), bus: Bus::new(), ppu, rom }
}

#[test]
fn test_run_instruction_sequence() {
    let table = instructions();
    let mut console = console_with_program(&[0xA9, 0xFF, 0xAA]); // LDA #$FF; TAX
    let frame = run_instruction(&mut console, &table).unwrap();
    assert!(!frame);
    assert_eq!(console.cpu.a, 0xFF);
    assert_eq!(console.cpu.pc, 0x8002);
    // LDA immediate costs 2 cycles; the graphics chip ran 3 ticks each
    assert_eq!(console.ppu.cycles, 6);

    run_instruction(&mut console, &table).unwrap();
    assert_eq!(console.cpu.x, 0xFF);
    assert_eq!(console.ppu.cycles, 12);
}

#[test]
fn test_run_instruction_unknown_opcode() {
    let table = instructions();
    let mut console = console_with_program(&[0x02]);
    assert_eq!(run_instruction(&mut console, &table), Err(EmuError::UnknownOpcode(0x02)));
}

#[test]
fn test_run_instruction_services_nmi_first() {
    let table = instructions();
    let mut console = console_with_program(&[0xEA]); // NOP
    console.rom.program_rom[0x3FFA] = 0x00; // NMI vector -> 0x9000
    console.rom.program_rom[0x3FFB] = 0x90;
    console.rom.program_rom[0x1000] = 0xEA; // the handler's first opcode
    console.ppu.nmi_interrupt = true;
    run_instruction(&mut console, &table).unwrap();
    // the service ran before the fetch: the instruction executed at the
    // handler, so the counter sits past the handler's first opcode
    assert_eq!(console.cpu.pc, 0x9001);
    assert!(!console.ppu.nmi_interrupt);
}

#[test]
fn test_memory_round_trips() {
    let mut memory = Memory::new();
    memory.write_u8(0x1234, 0xAB);
    assert_eq!(memory.read_u8(0x1234).unwrap(), 0xAB);

    memory.write_u16(0x2000, 0xBEEF);
    assert_eq!(memory.read_u16(0x2000).unwrap(), 0xBEEF);
    assert_eq!(memory.read_u8(0x2000).unwrap(), 0xEF);
    assert_eq!(memory.read_u8(0x2001).unwrap(), 0xBE);

    memory.write_i8(0x3000, -2);
    assert_eq!(memory.read_i8(0x3000).unwrap(), -2);
    assert_eq!(memory.read_u8(0x3000).unwrap(), 0xFE);

    // the top address is out of range
    assert_eq!(memory.read_u8(0xFFFF), Err(EmuError::UnmappedRead(0xFFFF)));
    assert_eq!(memory.read_u16(0xFFFE), Err(EmuError::UnmappedRead(0xFFFE)));
}

#[test]
fn test_memory_load_rom() {
    let mut memory = Memory::new();
    memory.load_rom(vec![0xA9, 0xFF, 0x00]);
    assert_eq!(memory.read_u8(0x8000).unwrap(), 0xA9);
    assert_eq!(memory.read_u8(0x8001).unwrap(), 0xFF);
    assert_eq!(memory.read_u8(0x8002).unwrap(), 0x00);
    assert_eq!(memory.read_u8(0x7FFF).unwrap(), 0x00);
}

#[test]
fn test_frame_set_pixel() {
    let mut frame = Frame::new();
    assert_eq!(frame.data.len(), 256 * 240 * 3);
    frame.set_pixel(1, 0, (10, 20, 30));
    assert_eq!(frame.data[3], 10);
    assert_eq!(frame.data[4], 20);
    assert_eq!(frame.data[5], 30);

    // a position past the buffer's end leaves the frame unchanged
    let before = frame.data.clone();
    frame.set_pixel(255, 240, (1, 2, 3));
    assert_eq!(frame.data, before);
}

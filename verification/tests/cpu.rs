//! Processor behaviour: arithmetic flag semantics, the stack discipline,
//! end-to-end single-instruction scenarios, and the interrupt services.

use nes_core::bus::Bus;
use nes_core::console::Console;
use nes_core::cpu::{self, Cpu, Flags};
use nes_core::execute::step;
use nes_core::instruction::{find_instruction, instructions};
use nes_core::errors::EmuError;
use nes_core::instruction::{AddressingMode, Instruction, Operation};
use nes_core::ppu::Ppu;
use nes_core::rom::{Mapper, Mirroring, Rom};

fn console_with_program(program: &[u8]) -> Console {
    let mut program_rom = vec![0u8; 16384];
    program_rom[..program.len()].copy_from_slice(program);
    let rom = Rom {
        program_rom,
        chr_rom: vec![0u8; 8192],
        mirroring: Mirroring::Horizontal,
        mapper: Mapper::Zero,
    };
    let ppu = Ppu::new(&rom);
    Console { cpu: Cpu::new(), bus: Bus::new(), ppu, rom }
}

fn step_opcode(console: &mut Console) {
    let table = instructions();
    let opcode = nes_core::bus::read_u8(console, console.cpu.pc).unwrap();
    let ins = find_instruction(&table, opcode).unwrap();
    step(console, &ins).unwrap();
}

#[test]
fn test_adc_signed_overflow() {
    // 0x50 + 0x50: positive plus positive overflows into a negative sum
    let (result, carry, overflow) = nes_core::alu::adc(0x50, 0x50, false);
    assert_eq!(result, 0xA0);
    assert!(!carry);
    assert!(overflow);

    let mut console = console_with_program(&[0x69, 0x50]); // ADC #$50
    console.cpu.a = 0x50;
    step_opcode(&mut console);
    assert_eq!(console.cpu.a, 0xA0);
    assert!(console.cpu.flags.overflow);
    assert!(console.cpu.flags.negative);
    assert!(!console.cpu.flags.carry);
    assert!(!console.cpu.flags.zero);
}

#[test]
fn test_adc_carry_chain() {
    let mut console = console_with_program(&[0x69, 0x01]); // ADC #$01
    console.cpu.a = 0xFF;
    console.cpu.flags.carry = false;
    step_opcode(&mut console);
    assert_eq!(console.cpu.a, 0x00);
    assert!(console.cpu.flags.carry);
    assert!(console.cpu.flags.zero);
    assert!(!console.cpu.flags.overflow);
    assert!(!console.cpu.flags.negative);

    // carry-in participates in the sum
    let mut console = console_with_program(&[0x69, 0x00]); // ADC #$00
    console.cpu.a = 0x10;
    console.cpu.flags.carry = true;
    step_opcode(&mut console);
    assert_eq!(console.cpu.a, 0x11);
    assert!(!console.cpu.flags.carry);
}

#[test]
fn test_sbc_borrow() {
    let mut console = console_with_program(&[0xE9, 0x01]); // SBC #$01
    console.cpu.a = 0x00;
    console.cpu.flags.carry = true; // no incoming borrow
    step_opcode(&mut console);
    assert_eq!(console.cpu.a, 0xFF);
    assert!(!console.cpu.flags.carry); // borrow taken
    assert!(console.cpu.flags.negative);
    assert!(!console.cpu.flags.overflow);
}

#[test]
fn test_lda_immediate_scenario() {
    // LDA #$FF at the program-data origin
    let mut console = console_with_program(&[0xA9, 0xFF]);
    step_opcode(&mut console);
    assert_eq!(console.cpu.pc, 0x8002);
    assert_eq!(console.cpu.a, 0xFF);
    assert!(!console.cpu.flags.zero);
    assert!(console.cpu.flags.negative);
}

#[test]
fn test_asl_accumulator_scenario() {
    // ASL A with the accumulator's sign bit set
    let mut console = console_with_program(&[0x0A]);
    console.cpu.a = 0b1000_0000;
    step_opcode(&mut console);
    assert_eq!(console.cpu.a, 0);
    assert!(console.cpu.flags.carry);
    assert!(console.cpu.flags.zero);
    assert!(!console.cpu.flags.negative);
}

#[test]
fn test_stack_round_trip() {
    let mut console = console_with_program(&[]);
    console.cpu.sp = 0xFD;
    cpu::push_stack_u16(&mut console, 0xBEEF);
    assert_eq!(console.cpu.sp, 0xFB);
    let value = cpu::pull_stack_u16(&mut console).unwrap();
    assert_eq!(value, 0xBEEF);
    assert_eq!(console.cpu.sp, 0xFD);
}

#[test]
fn test_stack_u8_round_trip() {
    let mut console = console_with_program(&[]);
    cpu::push_stack_u8(&mut console, 0x3C);
    let value = cpu::pull_stack_u8(&mut console).unwrap();
    assert_eq!(value, 0x3C);
    assert_eq!(console.cpu.sp, 0xFD);
}

#[test]
fn test_flags_bits_round_trip() {
    let f = Flags {
        negative: true,
        overflow: false,
        break_flag: true,
        break_2: false,
        decimal: false,
        interrupt_disable: true,
        zero: false,
        carry: true,
    };
    let byte = f.bits();
    assert_eq!(byte, 0b1010_0101);
    assert_eq!(Flags::from_bits(byte), f);
    assert_eq!(Flags::from_bits(0b0010_0100).interrupt_disable, true);
    assert_eq!(Flags::from_bits(0b0010_0100).break_flag, true);
}

#[test]
fn test_reset_interrupt_loads_vector() {
    let mut console = console_with_program(&[]);
    // the reset vector at 0xFFFC mirrors down into the single 16 KiB bank
    console.rom.program_rom[0x3FFC] = 0x34;
    console.rom.program_rom[0x3FFD] = 0x92;
    console.cpu.a = 7;
    console.cpu.x = 9;
    cpu::reset_interrupt(&mut console);
    assert_eq!(console.cpu.pc, 0x9234);
    assert_eq!(console.cpu.a, 0);
    assert_eq!(console.cpu.x, 0);
    assert!(console.cpu.flags.interrupt_disable);
}

#[test]
fn test_nmi_interrupt_pushes_state() {
    let mut console = console_with_program(&[]);
    console.rom.program_rom[0x3FFA] = 0x00;
    console.rom.program_rom[0x3FFB] = 0x90;
    console.cpu.pc = 0x8123;
    let sp_before = console.cpu.sp;
    cpu::nmi_interrupt(&mut console);
    assert_eq!(console.cpu.pc, 0x9000);
    assert_eq!(console.cpu.sp, sp_before.wrapping_sub(3));
    assert!(console.cpu.flags.interrupt_disable);
    // pushed return address, high byte first
    assert_eq!(console.bus.cpu_ram[0x100 + sp_before as usize], 0x81);
    assert_eq!(console.bus.cpu_ram[0x100 + sp_before as usize - 1], 0x23);
    // pushed flag byte carries break set and break-2 clear
    let pushed = console.bus.cpu_ram[0x100 + sp_before as usize - 2];
    assert_eq!(pushed & 0b0010_0000, 0b0010_0000);
    assert_eq!(pushed & 0b0001_0000, 0);
}

#[test]
fn test_jsr_rts_round_trip() {
    // JSR $8005 ... RTS at 0x8005 returns to the byte after the call
    let mut console = console_with_program(&[0x20, 0x05, 0x80, 0xEA, 0xEA, 0x60]);
    step_opcode(&mut console); // JSR
    assert_eq!(console.cpu.pc, 0x8005);
    step_opcode(&mut console); // RTS
    assert_eq!(console.cpu.pc, 0x8003);
}

#[test]
fn test_branch_backward() {
    // BNE with displacement -2 while the zero flag is clear
    let mut console = console_with_program(&[0xD0, 0xFE]);
    console.cpu.flags.zero = false;
    step_opcode(&mut console);
    assert_eq!(console.cpu.pc, 0x8000);
}

#[test]
fn test_unsupported_instruction_reported() {
    let mut console = console_with_program(&[]);
    // an addressed-only operation presented in implied mode is a coverage
    // gap, reported with the opcode
    let bogus = Instruction::new(0x02, Operation::Adc, AddressingMode::Implied, 1, 2);
    assert_eq!(step(&mut console, &bogus), Err(EmuError::UnsupportedInstruction(0x02)));
}

#[test]
fn test_stack_pointer_wraps_in_page() {
    let mut console = console_with_program(&[]);
    console.cpu.sp = 0;
    cpu::push_stack_u8(&mut console, 0x42);
    assert_eq!(console.cpu.sp, 0xFF);
    assert_eq!(console.bus.cpu_ram[0x100], 0x42);
    let value = cpu::pull_stack_u8(&mut console).unwrap();
    assert_eq!(value, 0x42);
    assert_eq!(console.cpu.sp, 0);
}

#[test]
fn test_program_counter_wraps() {
    // a NOP at the top of the address space wraps the counter to zero
    let mut console = console_with_program(&[]);
    console.rom.program_rom[0x3FFF] = 0xEA; // mirrors to 0xFFFF
    console.cpu.pc = 0xFFFF;
    step_opcode(&mut console);
    assert_eq!(console.cpu.pc, 0x0000);
}

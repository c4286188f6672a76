//! The processor's execute stage: addressing-mode resolution, one
//! transition function per operation, and the single-instruction step,
//! all specified as exact transition functions over the whole machine.

use crate::alu;
use crate::alu::{bit7, low8, signed_val};
use crate::bus;
use crate::bus::{spec_bus_read16, spec_bus_read16_wrap_page, spec_bus_read8, spec_bus_write8};
use crate::console::{Console, ConsoleView};
use crate::cpu::{
    pull_stack_u16, pull_stack_u8, push_stack_u16, push_stack_u8, spec_flags_bits,
    spec_flags_from_bits, spec_pull16, spec_pull8, spec_push16, spec_push8, spec_vector_word, Cpu,
    Flags,
};
use crate::errors::EmuError;
use crate::instruction::{AddressingMode, Instruction, Operation};
use vstd::prelude::*;

verus! {

/// Bus address the break instruction loads the program counter from.
pub const BRK_INTERRUPT_VECTOR_ADDRESS: u16 = 0xFFFE;

/// A non-negative integer folded into the 16-bit address space.
pub open spec fn spec_wrap16(x: int) -> u16
    recommends
        x >= 0,
{
    (x % 0x10000) as u16
}

/// Whether bit 6 of a byte is set.
pub open spec fn bit6(v: u8) -> bool {
    v / 64 % 2 == 1
}

/// The machine with its program counter advanced, wrapping at 16 bits.
pub open spec fn spec_advance_pc(c: ConsoleView, n: int) -> ConsoleView {
    ConsoleView { cpu: Cpu { pc: spec_wrap16(c.cpu.pc + n), ..c.cpu }, ..c }
}

/// The flag set with zero and negative taken from a result value.
pub open spec fn spec_zn(f: Flags, v: u8) -> Flags {
    Flags { zero: v == 0, negative: bit7(v), ..f }
}

/// The flag set with carry, zero and negative taken from a shift result.
pub open spec fn spec_carry_zn(f: Flags, v: u8, carry: bool) -> Flags {
    Flags { carry: carry, zero: v == 0, negative: bit7(v), ..f }
}

/// Update zero and negative from a result value.
fn zn_flags(f: Flags, v: u8) -> (r: Flags)
    ensures
        r == spec_zn(f, v),
{
    Flags { zero: v == 0, negative: v >= 128, ..f }
}

/// Update carry, zero and negative from a shift result.
fn carry_zn_flags(f: Flags, v: u8, carry: bool) -> (r: Flags)
    ensures
        r == spec_carry_zn(f, v, carry),
{
    Flags { carry: carry, zero: v == 0, negative: v >= 128, ..f }
}
/// Immediate mode: the operand address is the program counter itself; the counter advances past the operand byte.
#[verifier::opaque]
pub open spec fn spec_addr_immediate(c: ConsoleView) -> (ConsoleView, Result<u16, EmuError>) {
    (spec_advance_pc(c, 1), Ok(c.cpu.pc))
}

/// Relative mode: the operand address is the program counter itself; the counter advances past the displacement byte.
#[verifier::opaque]
pub open spec fn spec_addr_relative(c: ConsoleView) -> (ConsoleView, Result<u16, EmuError>) {
    (spec_advance_pc(c, 1), Ok(c.cpu.pc))
}

/// Zero-page mode: one operand byte, zero-extended to an address.
#[verifier::opaque]
pub open spec fn spec_addr_zero_page(c: ConsoleView) -> (ConsoleView, Result<u16, EmuError>) {
        let (c1, r) = spec_bus_read8(c, c.cpu.pc);
        match r {
            Ok(v) => (spec_advance_pc(c1, 1), Ok(v as u16)),
            Err(e) => (c1, Err(e)),
        }
}

/// Zero-page-X mode: one operand byte plus index-X, wrapping in the zero page.
#[verifier::opaque]
pub open spec fn spec_addr_zero_page_x(c: ConsoleView) -> (ConsoleView, Result<u16, EmuError>) {
        let (c1, r) = spec_bus_read8(c, c.cpu.pc);
        match r {
            Ok(v) => (spec_advance_pc(c1, 1), Ok(((v + c.cpu.x) % 256) as u16)),
            Err(e) => (c1, Err(e)),
        }
}

/// Zero-page-Y mode: one operand byte plus index-Y, wrapping in the zero page.
#[verifier::opaque]
pub open spec fn spec_addr_zero_page_y(c: ConsoleView) -> (ConsoleView, Result<u16, EmuError>) {
        let (c1, r) = spec_bus_read8(c, c.cpu.pc);
        match r {
            Ok(v) => (spec_advance_pc(c1, 1), Ok(((v + c.cpu.y) % 256) as u16)),
            Err(e) => (c1, Err(e)),
        }
}

/// Absolute mode: two little-endian operand bytes.
#[verifier::opaque]
pub open spec fn spec_addr_absolute(c: ConsoleView) -> (ConsoleView, Result<u16, EmuError>) {
        let (c1, r) = spec_bus_read16(c, c.cpu.pc);
        match r {
            Ok(v) => (spec_advance_pc(c1, 2), Ok(v)),
            Err(e) => (c1, Err(e)),
        }
}

/// Absolute-X mode: two operand bytes plus index-X, wrapping at 16 bits.
#[verifier::opaque]
pub open spec fn spec_addr_absolute_x(c: ConsoleView) -> (ConsoleView, Result<u16, EmuError>) {
        let (c1, r) = spec_bus_read16(c, c.cpu.pc);
        match r {
            Ok(v) => (spec_advance_pc(c1, 2), Ok(spec_wrap16(v + c.cpu.x))),
            Err(e) => (c1, Err(e)),
        }
}

/// Absolute-Y mode: two operand bytes plus index-Y, wrapping at 16 bits.
#[verifier::opaque]
pub open spec fn spec_addr_absolute_y(c: ConsoleView) -> (ConsoleView, Result<u16, EmuError>) {
        let (c1, r) = spec_bus_read16(c, c.cpu.pc);
        match r {
            Ok(v) => (spec_advance_pc(c1, 2), Ok(spec_wrap16(v + c.cpu.y))),
            Err(e) => (c1, Err(e)),
        }
}

/// Indirect mode: a two-byte pointer, resolved through the page-wrapped 16-bit read.
#[verifier::opaque]
pub open spec fn spec_addr_indirect(c: ConsoleView) -> (ConsoleView, Result<u16, EmuError>) {
        let (c1, r) = spec_bus_read16(c, c.cpu.pc);
        match r {
            Ok(pointer) => {
                let c2 = spec_advance_pc(c1, 2);
                let (c3, r2) = spec_bus_read16_wrap_page(c2, pointer);
                (c3, r2)
            },
            Err(e) => (c1, Err(e)),
        }
}

/// Indirect-X mode: a zero-page pointer offset by index-X, resolved through the page-wrapped 16-bit read.
#[verifier::opaque]
pub open spec fn spec_addr_indirect_x(c: ConsoleView) -> (ConsoleView, Result<u16, EmuError>) {
        let (c1, r) = spec_bus_read8(c, c.cpu.pc);
        match r {
            Ok(v) => {
                let c2 = spec_advance_pc(c1, 1);
                let pointer = ((v + c.cpu.x) % 256) as u16;
                let (c3, r2) = spec_bus_read16_wrap_page(c2, pointer);
                (c3, r2)
            },
            Err(e) => (c1, Err(e)),
        }
}

/// Indirect-Y mode: a zero-page pointer resolved through the page-wrapped 16-bit read, plus index-Y wrapping at 16 bits.
#[verifier::opaque]
pub open spec fn spec_addr_indirect_y(c: ConsoleView) -> (ConsoleView, Result<u16, EmuError>) {
        let (c1, r) = spec_bus_read8(c, c.cpu.pc);
        match r {
            Ok(v) => {
                let c2 = spec_advance_pc(c1, 1);
                let (c3, r2) = spec_bus_read16_wrap_page(c2, v as u16);
                match r2 {
                    Ok(base) => (c3, Ok(spec_wrap16(base + c.cpu.y))),
                    Err(e) => (c3, Err(e)),
                }
            },
            Err(e) => (c1, Err(e)),
        }
}

/// Operand-address resolution: the rule of each addressing mode, reading
/// operand bytes at the program counter and advancing it by the operand
/// length.  A failing operand read leaves the machine as the reads so far
/// left it.
pub open spec fn spec_read_address(c: ConsoleView, mode: AddressingMode) -> (ConsoleView, Result<
    u16,
    EmuError,
>) {
    match mode {
        AddressingMode::Immediate => spec_addr_immediate(c),
        AddressingMode::Relative => spec_addr_relative(c),
        AddressingMode::ZeroPage => spec_addr_zero_page(c),
        AddressingMode::ZeroPageX => spec_addr_zero_page_x(c),
        AddressingMode::ZeroPageY => spec_addr_zero_page_y(c),
        AddressingMode::Absolute => spec_addr_absolute(c),
        AddressingMode::AbsoluteX => spec_addr_absolute_x(c),
        AddressingMode::AbsoluteY => spec_addr_absolute_y(c),
        AddressingMode::Indirect => spec_addr_indirect(c),
        AddressingMode::IndirectX => spec_addr_indirect_x(c),
        AddressingMode::IndirectY => spec_addr_indirect_y(c),
        // implied mode carries no operand; the step function never
        // resolves an address for it
        AddressingMode::Implied => (c, Err(EmuError::UnsupportedInstruction(0))),
    }
}

#[verifier::rlimit(100)]
#[verifier::spinoff_prover]
fn addr_immediate(console: &mut Console) -> (r: Result<u16, EmuError>)
    requires
        old(console).wf(),
    ensures
        final(console).wf(),
        final(console)@.ppu.cycles == old(console)@.ppu.cycles,
        (final(console)@, r) == spec_addr_immediate(old(console)@),
{
    proof {
        reveal(spec_addr_immediate);
    }
    let address = console.cpu.pc;
    console.cpu.pc = console.cpu.pc.wrapping_add(1);
    Ok(address)
}

#[verifier::rlimit(100)]
#[verifier::spinoff_prover]
fn addr_relative(console: &mut Console) -> (r: Result<u16, EmuError>)
    requires
        old(console).wf(),
    ensures
        final(console).wf(),
        final(console)@.ppu.cycles == old(console)@.ppu.cycles,
        (final(console)@, r) == spec_addr_relative(old(console)@),
{
    proof {
        reveal(spec_addr_relative);
    }
    let address = console.cpu.pc;
    console.cpu.pc = console.cpu.pc.wrapping_add(1);
    Ok(address)
}

#[verifier::rlimit(100)]
#[verifier::spinoff_prover]
fn addr_zero_page(console: &mut Console) -> (r: Result<u16, EmuError>)
    requires
        old(console).wf(),
    ensures
        final(console).wf(),
        final(console)@.ppu.cycles == old(console)@.ppu.cycles,
        (final(console)@, r) == spec_addr_zero_page(old(console)@),
{
    proof {
        reveal(spec_addr_zero_page);
    }
    let v = match bus::read_u8(console, console.cpu.pc) {
        Ok(v) => v,
        Err(e) => {
            return Err(e);
        },
    };
    console.cpu.pc = console.cpu.pc.wrapping_add(1);
    Ok(v as u16)
}

#[verifier::rlimit(100)]
#[verifier::spinoff_prover]
fn addr_zero_page_x(console: &mut Console) -> (r: Result<u16, EmuError>)
    requires
        old(console).wf(),
    ensures
        final(console).wf(),
        final(console)@.ppu.cycles == old(console)@.ppu.cycles,
        (final(console)@, r) == spec_addr_zero_page_x(old(console)@),
{
    proof {
        reveal(spec_addr_zero_page_x);
    }
    let v = match bus::read_u8(console, console.cpu.pc) {
        Ok(v) => v,
        Err(e) => {
            return Err(e);
        },
    };
    console.cpu.pc = console.cpu.pc.wrapping_add(1);
    Ok(v.wrapping_add(console.cpu.x) as u16)
}

#[verifier::rlimit(100)]
#[verifier::spinoff_prover]
fn addr_zero_page_y(console: &mut Console) -> (r: Result<u16, EmuError>)
    requires
        old(console).wf(),
    ensures
        final(console).wf(),
        final(console)@.ppu.cycles == old(console)@.ppu.cycles,
        (final(console)@, r) == spec_addr_zero_page_y(old(console)@),
{
    proof {
        reveal(spec_addr_zero_page_y);
    }
    let v = match bus::read_u8(console, console.cpu.pc) {
        Ok(v) => v,
        Err(e) => {
            return Err(e);
        },
    };
    console.cpu.pc = console.cpu.pc.wrapping_add(1);
    Ok(v.wrapping_add(console.cpu.y) as u16)
}

#[verifier::rlimit(100)]
#[verifier::spinoff_prover]
fn addr_absolute(console: &mut Console) -> (r: Result<u16, EmuError>)
    requires
        old(console).wf(),
    ensures
        final(console).wf(),
        final(console)@.ppu.cycles == old(console)@.ppu.cycles,
        (final(console)@, r) == spec_addr_absolute(old(console)@),
{
    proof {
        reveal(spec_addr_absolute);
    }
    let v = match bus::read_u16(console, console.cpu.pc) {
        Ok(v) => v,
        Err(e) => {
            return Err(e);
        },
    };
    console.cpu.pc = console.cpu.pc.wrapping_add(2);
    Ok(v)
}

#[verifier::rlimit(100)]
#[verifier::spinoff_prover]
fn addr_absolute_x(console: &mut Console) -> (r: Result<u16, EmuError>)
    requires
        old(console).wf(),
    ensures
        final(console).wf(),
        final(console)@.ppu.cycles == old(console)@.ppu.cycles,
        (final(console)@, r) == spec_addr_absolute_x(old(console)@),
{
    proof {
        reveal(spec_addr_absolute_x);
    }
    let v = match bus::read_u16(console, console.cpu.pc) {
        Ok(v) => v,
        Err(e) => {
            return Err(e);
        },
    };
    console.cpu.pc = console.cpu.pc.wrapping_add(2);
    Ok(v.wrapping_add(console.cpu.x as u16))
}

#[verifier::rlimit(100)]
#[verifier::spinoff_prover]
fn addr_absolute_y(console: &mut Console) -> (r: Result<u16, EmuError>)
    requires
        old(console).wf(),
    ensures
        final(console).wf(),
        final(console)@.ppu.cycles == old(console)@.ppu.cycles,
        (final(console)@, r) == spec_addr_absolute_y(old(console)@),
{
    proof {
        reveal(spec_addr_absolute_y);
    }
    let v = match bus::read_u16(console, console.cpu.pc) {
        Ok(v) => v,
        Err(e) => {
            return Err(e);
        },
    };
    console.cpu.pc = console.cpu.pc.wrapping_add(2);
    Ok(v.wrapping_add(console.cpu.y as u16))
}

#[verifier::rlimit(100)]
#[verifier::spinoff_prover]
fn addr_indirect(console: &mut Console) -> (r: Result<u16, EmuError>)
    requires
        old(console).wf(),
    ensures
        final(console).wf(),
        final(console)@.ppu.cycles == old(console)@.ppu.cycles,
        (final(console)@, r) == spec_addr_indirect(old(console)@),
{
    proof {
        reveal(spec_addr_indirect);
    }
    let pointer = match bus::read_u16(console, console.cpu.pc) {
        Ok(v) => v,
        Err(e) => {
            return Err(e);
        },
    };
    console.cpu.pc = console.cpu.pc.wrapping_add(2);
    proof {
        let (c1, r1) = spec_bus_read16(old(console)@, old(console)@.cpu.pc);
        assert(r1 == Ok::<u16, EmuError>(pointer));
        assert(console@ =~= spec_advance_pc(c1, 2));
    }
    bus::read_u16_wrap_page(console, pointer)
}

#[verifier::rlimit(100)]
#[verifier::spinoff_prover]
fn addr_indirect_x(console: &mut Console) -> (r: Result<u16, EmuError>)
    requires
        old(console).wf(),
    ensures
        final(console).wf(),
        final(console)@.ppu.cycles == old(console)@.ppu.cycles,
        (final(console)@, r) == spec_addr_indirect_x(old(console)@),
{
    proof {
        reveal(spec_addr_indirect_x);
    }
    let v = match bus::read_u8(console, console.cpu.pc) {
        Ok(v) => v,
        Err(e) => {
            return Err(e);
        },
    };
    let pointer = v.wrapping_add(console.cpu.x);
    console.cpu.pc = console.cpu.pc.wrapping_add(1);
    bus::read_u16_wrap_page(console, pointer as u16)
}

#[verifier::rlimit(100)]
#[verifier::spinoff_prover]
fn addr_indirect_y(console: &mut Console) -> (r: Result<u16, EmuError>)
    requires
        old(console).wf(),
    ensures
        final(console).wf(),
        final(console)@.ppu.cycles == old(console)@.ppu.cycles,
        (final(console)@, r) == spec_addr_indirect_y(old(console)@),
{
    proof {
        reveal(spec_addr_indirect_y);
    }
    let v = match bus::read_u8(console, console.cpu.pc) {
        Ok(v) => v,
        Err(e) => {
            return Err(e);
        },
    };
    console.cpu.pc = console.cpu.pc.wrapping_add(1);
    let base = match bus::read_u16_wrap_page(console, v as u16) {
        Ok(b) => b,
        Err(e) => {
            return Err(e);
        },
    };
    Ok(base.wrapping_add(console.cpu.y as u16))
}

/// Resolve an instruction's operand address per its addressing mode,
/// advancing the program counter past the operand bytes.
pub fn read_address(console: &mut Console, mode: AddressingMode) -> (r: Result<u16, EmuError>)
    requires
        old(console).wf(),
        mode != AddressingMode::Implied,
    ensures
        final(console).wf(),
        final(console)@.ppu.cycles == old(console)@.ppu.cycles,
        (final(console)@, r) == spec_read_address(old(console)@, mode),
{
    match mode {
        AddressingMode::Immediate => addr_immediate(console),
        AddressingMode::Relative => addr_relative(console),
        AddressingMode::ZeroPage => addr_zero_page(console),
        AddressingMode::ZeroPageX => addr_zero_page_x(console),
        AddressingMode::ZeroPageY => addr_zero_page_y(console),
        AddressingMode::Absolute => addr_absolute(console),
        AddressingMode::AbsoluteX => addr_absolute_x(console),
        AddressingMode::AbsoluteY => addr_absolute_y(console),
        AddressingMode::Indirect => addr_indirect(console),
        AddressingMode::IndirectX => addr_indirect_x(console),
        AddressingMode::IndirectY => addr_indirect_y(console),
        AddressingMode::Implied => {
            proof {
                assert(false);
            }
            Err(EmuError::UnsupportedInstruction(0))
        },
    }
}

/// Add with carry at an operand address: accumulator and flags take the
/// exact unsigned-carry and signed-overflow semantics of 8-bit addition.
pub open spec fn spec_op_adc(c: ConsoleView, address: u16) -> (ConsoleView, Result<(), EmuError>) {
    let (c1, r) = spec_bus_read8(c, address);
    match r {
        Ok(m) => {
            let carry_in = if c.cpu.flags.carry {
                1int
            } else {
                0int
            };
            let result = low8(c.cpu.a + m + carry_in);
            let signed_sum = signed_val(c.cpu.a) + signed_val(m) + carry_in;
            (
                ConsoleView {
                    cpu: Cpu {
                        a: result,
                        flags: Flags {
                            carry: c.cpu.a + m + carry_in > 255,
                            zero: result == 0,
                            overflow: signed_sum < -128 || signed_sum > 127,
                            negative: bit7(result),
                            ..c.cpu.flags
                        },
                        ..c1.cpu
                    },
                    ..c1
                },
                Ok(()),
            )
        },
        Err(e) => (c1, Err(e)),
    }
}

#[verifier::rlimit(100)]
#[verifier::spinoff_prover]
fn op_adc(console: &mut Console, address: u16) -> (r: Result<(), EmuError>)
    requires
        old(console).wf(),
    ensures
        final(console).wf(),
        final(console)@.ppu.cycles == old(console)@.ppu.cycles,
        (final(console)@, r) == spec_op_adc(old(console)@, address),
{
    let m = match bus::read_u8(console, address) {
        Ok(v) => v,
        Err(e) => {
            return Err(e);
        },
    };
    let (result, carry, overflow) = alu::adc(console.cpu.a, m, console.cpu.flags.carry);
    console.cpu.a = result;
    console.cpu.flags.carry = carry;
    console.cpu.flags.zero = result == 0;
    console.cpu.flags.overflow = overflow;
    console.cpu.flags.negative = result >= 128;
    Ok(())
}

/// Subtract with borrow at an operand address: accumulator and flags take
/// the exact unsigned-borrow and signed-overflow semantics of 8-bit
/// subtraction.
pub open spec fn spec_op_sbc(c: ConsoleView, address: u16) -> (ConsoleView, Result<(), EmuError>) {
    let (c1, r) = spec_bus_read8(c, address);
    match r {
        Ok(m) => {
            let borrow = if c.cpu.flags.carry {
                0int
            } else {
                1int
            };
            let d = c.cpu.a - m - borrow;
            let result = (if d < 0 {
                d + 256
            } else {
                d
            }) as u8;
            let signed_diff = signed_val(c.cpu.a) - signed_val(m) - borrow;
            (
                ConsoleView {
                    cpu: Cpu {
                        a: result,
                        flags: Flags {
                            carry: d >= 0,
                            zero: result == 0,
                            overflow: signed_diff < -128 || signed_diff > 127,
                            negative: bit7(result),
                            ..c.cpu.flags
                        },
                        ..c1.cpu
                    },
                    ..c1
                },
                Ok(()),
            )
        },
        Err(e) => (c1, Err(e)),
    }
}

#[verifier::rlimit(100)]
#[verifier::spinoff_prover]
fn op_sbc(console: &mut Console, address: u16) -> (r: Result<(), EmuError>)
    requires
        old(console).wf(),
    ensures
        final(console).wf(),
        final(console)@.ppu.cycles == old(console)@.ppu.cycles,
        (final(console)@, r) == spec_op_sbc(old(console)@, address),
{
    let m = match bus::read_u8(console, address) {
        Ok(v) => v,
        Err(e) => {
            return Err(e);
        },
    };
    let (result, carry, overflow) = alu::sbc(console.cpu.a, m, console.cpu.flags.carry);
    console.cpu.a = result;
    console.cpu.flags.carry = carry;
    console.cpu.flags.zero = result == 0;
    console.cpu.flags.overflow = overflow;
    console.cpu.flags.negative = result >= 128;
    Ok(())
}

/// Bitwise AND of the accumulator with the byte at an operand address.
pub open spec fn spec_op_and(c: ConsoleView, address: u16) -> (ConsoleView, Result<(), EmuError>) {
    let (c1, r) = spec_bus_read8(c, address);
    match r {
        Ok(m) => {
            let result = c.cpu.a & m;
            (
                ConsoleView {
                    cpu: Cpu { a: result, flags: spec_zn(c.cpu.flags, result), ..c1.cpu },
                    ..c1
                },
                Ok(()),
            )
        },
        Err(e) => (c1, Err(e)),
    }
}

#[verifier::rlimit(100)]
#[verifier::spinoff_prover]
fn op_and(console: &mut Console, address: u16) -> (r: Result<(), EmuError>)
    requires
        old(console).wf(),
    ensures
        final(console).wf(),
        final(console)@.ppu.cycles == old(console)@.ppu.cycles,
        (final(console)@, r) == spec_op_and(old(console)@, address),
{
    let m = match bus::read_u8(console, address) {
        Ok(v) => v,
        Err(e) => {
            return Err(e);
        },
    };
    let result = console.cpu.a & m;
    console.cpu.a = result;
    console.cpu.flags = zn_flags(console.cpu.flags, result);
    Ok(())
}

/// Bitwise exclusive OR of the accumulator with the byte at an operand address.
pub open spec fn spec_op_eor(c: ConsoleView, address: u16) -> (ConsoleView, Result<(), EmuError>) {
    let (c1, r) = spec_bus_read8(c, address);
    match r {
        Ok(m) => {
            let result = c.cpu.a ^ m;
            (
                ConsoleView {
                    cpu: Cpu { a: result, flags: spec_zn(c.cpu.flags, result), ..c1.cpu },
                    ..c1
                },
                Ok(()),
            )
        },
        Err(e) => (c1, Err(e)),
    }
}

#[verifier::rlimit(100)]
#[verifier::spinoff_prover]
fn op_eor(console: &mut Console, address: u16) -> (r: Result<(), EmuError>)
    requires
        old(console).wf(),
    ensures
        final(console).wf(),
        final(console)@.ppu.cycles == old(console)@.ppu.cycles,
        (final(console)@, r) == spec_op_eor(old(console)@, address),
{
    let m = match bus::read_u8(console, address) {
        Ok(v) => v,
        Err(e) => {
            return Err(e);
        },
    };
    let result = console.cpu.a ^ m;
    console.cpu.a = result;
    console.cpu.flags = zn_flags(console.cpu.flags, result);
    Ok(())
}

/// Bitwise OR of the accumulator with the byte at an operand address.
pub open spec fn spec_op_ora(c: ConsoleView, address: u16) -> (ConsoleView, Result<(), EmuError>) {
    let (c1, r) = spec_bus_read8(c, address);
    match r {
        Ok(m) => {
            let result = c.cpu.a | m;
            (
                ConsoleView {
                    cpu: Cpu { a: result, flags: spec_zn(c.cpu.flags, result), ..c1.cpu },
                    ..c1
                },
                Ok(()),
            )
        },
        Err(e) => (c1, Err(e)),
    }
}

#[verifier::rlimit(100)]
#[verifier::spinoff_prover]
fn op_ora(console: &mut Console, address: u16) -> (r: Result<(), EmuError>)
    requires
        old(console).wf(),
    ensures
        final(console).wf(),
        final(console)@.ppu.cycles == old(console)@.ppu.cycles,
        (final(console)@, r) == spec_op_ora(old(console)@, address),
{
    let m = match bus::read_u8(console, address) {
        Ok(v) => v,
        Err(e) => {
            return Err(e);
        },
    };
    let result = console.cpu.a | m;
    console.cpu.a = result;
    console.cpu.flags = zn_flags(console.cpu.flags, result);
    Ok(())
}

/// Load the byte at an operand address into the accumulator.
pub open spec fn spec_op_lda(c: ConsoleView, address: u16) -> (ConsoleView, Result<(), EmuError>) {
    let (c1, r) = spec_bus_read8(c, address);
    match r {
        Ok(m) => {
            let result = m;
            (
                ConsoleView {
                    cpu: Cpu { a: result, flags: spec_zn(c.cpu.flags, result), ..c1.cpu },
                    ..c1
                },
                Ok(()),
            )
        },
        Err(e) => (c1, Err(e)),
    }
}

#[verifier::rlimit(100)]
#[verifier::spinoff_prover]
fn op_lda(console: &mut Console, address: u16) -> (r: Result<(), EmuError>)
    requires
        old(console).wf(),
    ensures
        final(console).wf(),
        final(console)@.ppu.cycles == old(console)@.ppu.cycles,
        (final(console)@, r) == spec_op_lda(old(console)@, address),
{
    let m = match bus::read_u8(console, address) {
        Ok(v) => v,
        Err(e) => {
            return Err(e);
        },
    };
    let result = m;
    console.cpu.a = result;
    console.cpu.flags = zn_flags(console.cpu.flags, result);
    Ok(())
}

/// Load the byte at an operand address into index-X.
pub open spec fn spec_op_ldx(c: ConsoleView, address: u16) -> (ConsoleView, Result<(), EmuError>) {
    let (c1, r) = spec_bus_read8(c, address);
    match r {
        Ok(m) => {
            let result = m;
            (
                ConsoleView {
                    cpu: Cpu { x: result, flags: spec_zn(c.cpu.flags, result), ..c1.cpu },
                    ..c1
                },
                Ok(()),
            )
        },
        Err(e) => (c1, Err(e)),
    }
}

#[verifier::rlimit(100)]
#[verifier::spinoff_prover]
fn op_ldx(console: &mut Console, address: u16) -> (r: Result<(), EmuError>)
    requires
        old(console).wf(),
    ensures
        final(console).wf(),
        final(console)@.ppu.cycles == old(console)@.ppu.cycles,
        (final(console)@, r) == spec_op_ldx(old(console)@, address),
{
    let m = match bus::read_u8(console, address) {
        Ok(v) => v,
        Err(e) => {
            return Err(e);
        },
    };
    let result = m;
    console.cpu.x = result;
    console.cpu.flags = zn_flags(console.cpu.flags, result);
    Ok(())
}

/// Load the byte at an operand address into index-Y.
pub open spec fn spec_op_ldy(c: ConsoleView, address: u16) -> (ConsoleView, Result<(), EmuError>) {
    let (c1, r) = spec_bus_read8(c, address);
    match r {
        Ok(m) => {
            let result = m;
            (
                ConsoleView {
                    cpu: Cpu { y: result, flags: spec_zn(c.cpu.flags, result), ..c1.cpu },
                    ..c1
                },
                Ok(()),
            )
        },
        Err(e) => (c1, Err(e)),
    }
}

#[verifier::rlimit(100)]
#[verifier::spinoff_prover]
fn op_ldy(console: &mut Console, address: u16) -> (r: Result<(), EmuError>)
    requires
        old(console).wf(),
    ensures
        final(console).wf(),
        final(console)@.ppu.cycles == old(console)@.ppu.cycles,
        (final(console)@, r) == spec_op_ldy(old(console)@, address),
{
    let m = match bus::read_u8(console, address) {
        Ok(v) => v,
        Err(e) => {
            return Err(e);
        },
    };
    let result = m;
    console.cpu.y = result;
    console.cpu.flags = zn_flags(console.cpu.flags, result);
    Ok(())
}

/// Arithmetic shift left of the byte at an operand address, in place.
pub open spec fn spec_op_asl_mem(c: ConsoleView, address: u16) -> (ConsoleView, Result<(), EmuError>) {
    let (c1, r) = spec_bus_read8(c, address);
    match r {
        Ok(m) => {
            let result = low8(2 * m);
            let (c2, r2) = spec_bus_write8(c1, address, result);
            match r2 {
                Ok(_) => (
                    ConsoleView {
                        cpu: Cpu {
                            flags: spec_carry_zn(c.cpu.flags, result, bit7(m)),
                            ..c2.cpu
                        },
                        ..c2
                    },
                    Ok(()),
                ),
                Err(e) => (c2, Err(e)),
            }
        },
        Err(e) => (c1, Err(e)),
    }
}

#[verifier::rlimit(100)]
#[verifier::spinoff_prover]
fn op_asl_mem(console: &mut Console, address: u16) -> (r: Result<(), EmuError>)
    requires
        old(console).wf(),
    ensures
        final(console).wf(),
        final(console)@.ppu.cycles == old(console)@.ppu.cycles,
        (final(console)@, r) == spec_op_asl_mem(old(console)@, address),
{
    let m = match bus::read_u8(console, address) {
        Ok(v) => v,
        Err(e) => {
            return Err(e);
        },
    };
    let (result, carry) = alu::asl(m);
    match bus::write_u8(console, address, result) {
        Ok(_) => {},
        Err(e) => {
            return Err(e);
        },
    }
    console.cpu.flags = carry_zn_flags(console.cpu.flags, result, carry);
    Ok(())
}

/// Logical shift right of the byte at an operand address, in place.
pub open spec fn spec_op_lsr_mem(c: ConsoleView, address: u16) -> (ConsoleView, Result<(), EmuError>) {
    let (c1, r) = spec_bus_read8(c, address);
    match r {
        Ok(m) => {
            let result = (m / 2) as u8;
            let (c2, r2) = spec_bus_write8(c1, address, result);
            match r2 {
                Ok(_) => (
                    ConsoleView {
                        cpu: Cpu {
                            flags: spec_carry_zn(c.cpu.flags, result, m % 2 == 1),
                            ..c2.cpu
                        },
                        ..c2
                    },
                    Ok(()),
                ),
                Err(e) => (c2, Err(e)),
            }
        },
        Err(e) => (c1, Err(e)),
    }
}

#[verifier::rlimit(100)]
#[verifier::spinoff_prover]
fn op_lsr_mem(console: &mut Console, address: u16) -> (r: Result<(), EmuError>)
    requires
        old(console).wf(),
    ensures
        final(console).wf(),
        final(console)@.ppu.cycles == old(console)@.ppu.cycles,
        (final(console)@, r) == spec_op_lsr_mem(old(console)@, address),
{
    let m = match bus::read_u8(console, address) {
        Ok(v) => v,
        Err(e) => {
            return Err(e);
        },
    };
    let (result, carry) = alu::lsr(m);
    match bus::write_u8(console, address, result) {
        Ok(_) => {},
        Err(e) => {
            return Err(e);
        },
    }
    console.cpu.flags = carry_zn_flags(console.cpu.flags, result, carry);
    Ok(())
}

/// Rotate left through carry of the byte at an operand address, in place.
pub open spec fn spec_op_rol_mem(c: ConsoleView, address: u16) -> (ConsoleView, Result<(), EmuError>) {
    let (c1, r) = spec_bus_read8(c, address);
    match r {
        Ok(m) => {
            let result = low8(2 * m + (if c.cpu.flags.carry { 1int } else { 0int }));
            let (c2, r2) = spec_bus_write8(c1, address, result);
            match r2 {
                Ok(_) => (
                    ConsoleView {
                        cpu: Cpu {
                            flags: spec_carry_zn(c.cpu.flags, result, bit7(m)),
                            ..c2.cpu
                        },
                        ..c2
                    },
                    Ok(()),
                ),
                Err(e) => (c2, Err(e)),
            }
        },
        Err(e) => (c1, Err(e)),
    }
}

#[verifier::rlimit(100)]
#[verifier::spinoff_prover]
fn op_rol_mem(console: &mut Console, address: u16) -> (r: Result<(), EmuError>)
    requires
        old(console).wf(),
    ensures
        final(console).wf(),
        final(console)@.ppu.cycles == old(console)@.ppu.cycles,
        (final(console)@, r) == spec_op_rol_mem(old(console)@, address),
{
    let m = match bus::read_u8(console, address) {
        Ok(v) => v,
        Err(e) => {
            return Err(e);
        },
    };
    let (result, carry) = alu::rol(m, console.cpu.flags.carry);
    match bus::write_u8(console, address, result) {
        Ok(_) => {},
        Err(e) => {
            return Err(e);
        },
    }
    console.cpu.flags = carry_zn_flags(console.cpu.flags, result, carry);
    Ok(())
}

/// Rotate right through carry of the byte at an operand address, in place.
pub open spec fn spec_op_ror_mem(c: ConsoleView, address: u16) -> (ConsoleView, Result<(), EmuError>) {
    let (c1, r) = spec_bus_read8(c, address);
    match r {
        Ok(m) => {
            let result = (m / 2 + (if c.cpu.flags.carry { 128int } else { 0int })) as u8;
            let (c2, r2) = spec_bus_write8(c1, address, result);
            match r2 {
                Ok(_) => (
                    ConsoleView {
                        cpu: Cpu {
                            flags: spec_carry_zn(c.cpu.flags, result, m % 2 == 1),
                            ..c2.cpu
                        },
                        ..c2
                    },
                    Ok(()),
                ),
                Err(e) => (c2, Err(e)),
            }
        },
        Err(e) => (c1, Err(e)),
    }
}

#[verifier::rlimit(100)]
#[verifier::spinoff_prover]
fn op_ror_mem(console: &mut Console, address: u16) -> (r: Result<(), EmuError>)
    requires
        old(console).wf(),
    ensures
        final(console).wf(),
        final(console)@.ppu.cycles == old(console)@.ppu.cycles,
        (final(console)@, r) == spec_op_ror_mem(old(console)@, address),
{
    let m = match bus::read_u8(console, address) {
        Ok(v) => v,
        Err(e) => {
            return Err(e);
        },
    };
    let (result, carry) = alu::ror(m, console.cpu.flags.carry);
    match bus::write_u8(console, address, result) {
        Ok(_) => {},
        Err(e) => {
            return Err(e);
        },
    }
    console.cpu.flags = carry_zn_flags(console.cpu.flags, result, carry);
    Ok(())
}

/// Decrement the byte at an operand address, in place.
pub open spec fn spec_op_dec(c: ConsoleView, address: u16) -> (ConsoleView, Result<(), EmuError>) {
    let (c1, r) = spec_bus_read8(c, address);
    match r {
        Ok(m) => {
            let result = ((m + 255) % 256) as u8;
            let (c2, r2) = spec_bus_write8(c1, address, result);
            match r2 {
                Ok(_) => (
                    ConsoleView { cpu: Cpu { flags: spec_zn(c.cpu.flags, result), ..c2.cpu }, ..c2 },
                    Ok(()),
                ),
                Err(e) => (c2, Err(e)),
            }
        },
        Err(e) => (c1, Err(e)),
    }
}

#[verifier::rlimit(100)]
#[verifier::spinoff_prover]
fn op_dec(console: &mut Console, address: u16) -> (r: Result<(), EmuError>)
    requires
        old(console).wf(),
    ensures
        final(console).wf(),
        final(console)@.ppu.cycles == old(console)@.ppu.cycles,
        (final(console)@, r) == spec_op_dec(old(console)@, address),
{
    let m = match bus::read_u8(console, address) {
        Ok(v) => v,
        Err(e) => {
            return Err(e);
        },
    };
    let result = m.wrapping_sub(1);
    proof {
        assert(result as int == (m + 255) % 256);
    }
    match bus::write_u8(console, address, result) {
        Ok(_) => {},
        Err(e) => {
            return Err(e);
        },
    }
    console.cpu.flags = zn_flags(console.cpu.flags, result);
    Ok(())
}

/// Increment the byte at an operand address, in place.
pub open spec fn spec_op_inc(c: ConsoleView, address: u16) -> (ConsoleView, Result<(), EmuError>) {
    let (c1, r) = spec_bus_read8(c, address);
    match r {
        Ok(m) => {
            let result = ((m + 1) % 256) as u8;
            let (c2, r2) = spec_bus_write8(c1, address, result);
            match r2 {
                Ok(_) => (
                    ConsoleView { cpu: Cpu { flags: spec_zn(c.cpu.flags, result), ..c2.cpu }, ..c2 },
                    Ok(()),
                ),
                Err(e) => (c2, Err(e)),
            }
        },
        Err(e) => (c1, Err(e)),
    }
}

#[verifier::rlimit(100)]
#[verifier::spinoff_prover]
fn op_inc(console: &mut Console, address: u16) -> (r: Result<(), EmuError>)
    requires
        old(console).wf(),
    ensures
        final(console).wf(),
        final(console)@.ppu.cycles == old(console)@.ppu.cycles,
        (final(console)@, r) == spec_op_inc(old(console)@, address),
{
    let m = match bus::read_u8(console, address) {
        Ok(v) => v,
        Err(e) => {
            return Err(e);
        },
    };
    let result = m.wrapping_add(1);
    proof {
        assert(result as int == (m + 1) % 256);
    }
    match bus::write_u8(console, address, result) {
        Ok(_) => {},
        Err(e) => {
            return Err(e);
        },
    }
    console.cpu.flags = zn_flags(console.cpu.flags, result);
    Ok(())
}

/// Bit test: zero from the accumulator mask, overflow and negative copied
/// from bits 6 and 7 of the byte at an operand address; the accumulator
/// is untouched.
pub open spec fn spec_op_bit(c: ConsoleView, address: u16) -> (ConsoleView, Result<(), EmuError>) {
    let (c1, r) = spec_bus_read8(c, address);
    match r {
        Ok(m) => (
            ConsoleView {
                cpu: Cpu {
                    flags: Flags {
                        zero: c.cpu.a & m == 0,
                        overflow: bit6(m),
                        negative: bit7(m),
                        ..c.cpu.flags
                    },
                    ..c1.cpu
                },
                ..c1
            },
            Ok(()),
        ),
        Err(e) => (c1, Err(e)),
    }
}

#[verifier::rlimit(100)]
#[verifier::spinoff_prover]
fn op_bit(console: &mut Console, address: u16) -> (r: Result<(), EmuError>)
    requires
        old(console).wf(),
    ensures
        final(console).wf(),
        final(console)@.ppu.cycles == old(console)@.ppu.cycles,
        (final(console)@, r) == spec_op_bit(old(console)@, address),
{
    let m = match bus::read_u8(console, address) {
        Ok(v) => v,
        Err(e) => {
            return Err(e);
        },
    };
    console.cpu.flags.zero = console.cpu.a & m == 0;
    console.cpu.flags.overflow = m / 64 % 2 == 1;
    console.cpu.flags.negative = m >= 128;
    Ok(())
}

/// A conditional branch: read the signed displacement at the operand
/// address and, when the condition holds, add it to the program counter
/// modulo 65536.
pub open spec fn spec_branch(c: ConsoleView, address: u16, condition: bool) -> (
    ConsoleView,
    Result<(), EmuError>,
) {
    let (c1, r) = spec_bus_read8(c, address);
    match r {
        Ok(v) => {
            if condition {
                (
                    ConsoleView {
                        cpu: Cpu {
                            pc: spec_wrap16(c.cpu.pc + signed_val(v) + 0x10000),
                            ..c1.cpu
                        },
                        ..c1
                    },
                    Ok(()),
                )
            } else {
                (c1, Ok(()))
            }
        },
        Err(e) => (c1, Err(e)),
    }
}

#[verifier::rlimit(100)]
#[verifier::spinoff_prover]
fn branch(console: &mut Console, address: u16, condition: bool) -> (r: Result<(), EmuError>)
    requires
        old(console).wf(),
    ensures
        final(console).wf(),
        final(console)@.ppu.cycles == old(console)@.ppu.cycles,
        (final(console)@, r) == spec_branch(old(console)@, address, condition),
{
    let offset = match bus::read_i8(console, address) {
        Ok(v) => v,
        Err(e) => {
            return Err(e);
        },
    };
    if condition {
        let base: u32 = console.cpu.pc as u32 + 0x10000;
        let target: u32 = if offset >= 0 {
            base + offset as u32
        } else {
            base - (-(offset as i32)) as u32
        };
        console.cpu.pc = (target % 0x10000) as u16;
    }
    Ok(())
}

/// A compare: set carry, zero and negative from the unsigned subtraction
/// of the byte at the operand address from a register.
pub open spec fn spec_compare(c: ConsoleView, address: u16, register: u8) -> (
    ConsoleView,
    Result<(), EmuError>,
) {
    let (c1, r) = spec_bus_read8(c, address);
    match r {
        Ok(m) => (
            ConsoleView {
                cpu: Cpu {
                    flags: Flags {
                        carry: register >= m,
                        zero: register == m,
                        negative: bit7(low8(register - m + 256)),
                        ..c.cpu.flags
                    },
                    ..c1.cpu
                },
                ..c1
            },
            Ok(()),
        ),
        Err(e) => (c1, Err(e)),
    }
}

#[verifier::rlimit(100)]
#[verifier::spinoff_prover]
fn compare(console: &mut Console, address: u16, register: u8) -> (r: Result<(), EmuError>)
    requires
        old(console).wf(),
    ensures
        final(console).wf(),
        final(console)@.ppu.cycles == old(console)@.ppu.cycles,
        (final(console)@, r) == spec_compare(old(console)@, address, register),
{
    let m = match bus::read_u8(console, address) {
        Ok(v) => v,
        Err(e) => {
            return Err(e);
        },
    };
    let (carry, zero, negative) = alu::compare_vals(register, m);
    console.cpu.flags.carry = carry;
    console.cpu.flags.zero = zero;
    console.cpu.flags.negative = negative;
    Ok(())
}

/// Jump to subroutine: push the return address minus one, then jump.
pub open spec fn spec_op_jsr(c: ConsoleView, address: u16) -> ConsoleView {
    let c1 = spec_push16(c, spec_wrap16(c.cpu.pc + 0xFFFF));
    ConsoleView { cpu: Cpu { pc: address, ..c1.cpu }, ..c1 }
}

#[verifier::rlimit(100)]
#[verifier::spinoff_prover]
fn op_jsr(console: &mut Console, address: u16)
    requires
        old(console).wf(),
    ensures
        final(console).wf(),
        final(console)@.ppu.cycles == old(console)@.ppu.cycles,
        final(console)@ == spec_op_jsr(old(console)@, address),
{
    let return_address = console.cpu.pc.wrapping_sub(1);
    push_stack_u16(console, return_address);
    console.cpu.pc = address;
}

/// Software interrupt: push the program counter and the raw flag byte,
/// load the program counter from the break vector, then set the break
/// flag.
pub open spec fn spec_op_brk(c: ConsoleView) -> ConsoleView {
    let c1 = spec_push16(c, c.cpu.pc);
    let c2 = spec_push8(c1, spec_flags_bits(c.cpu.flags));
    ConsoleView {
        cpu: Cpu {
            pc: spec_vector_word(c2, BRK_INTERRUPT_VECTOR_ADDRESS),
            flags: Flags { break_flag: true, ..c.cpu.flags },
            ..c2.cpu
        },
        ..c2
    }
}

#[verifier::rlimit(100)]
#[verifier::spinoff_prover]
fn op_brk(console: &mut Console)
    requires
        old(console).wf(),
    ensures
        final(console).wf(),
        final(console)@.ppu.cycles == old(console)@.ppu.cycles,
        final(console)@ == spec_op_brk(old(console)@),
{
    push_stack_u16(console, console.cpu.pc);
    let flag_byte = console.cpu.flags.bits();
    push_stack_u8(console, flag_byte);
    let vector = match bus::read_u16(console, BRK_INTERRUPT_VECTOR_ADDRESS) {
        Ok(v) => v,
        Err(_) => {
            proof {
                assert(false);
            }
            0
        },
    };
    console.cpu.pc = vector;
    console.cpu.flags.break_flag = true;
}

/// Pull the accumulator from the stack, updating zero and negative.
pub open spec fn spec_op_pla(c: ConsoleView) -> ConsoleView {
    let (c1, v) = spec_pull8(c);
    ConsoleView { cpu: Cpu { a: v, flags: spec_zn(c.cpu.flags, v), ..c1.cpu }, ..c1 }
}

#[verifier::rlimit(100)]
#[verifier::spinoff_prover]
fn op_pla(console: &mut Console)
    requires
        old(console).wf(),
    ensures
        final(console).wf(),
        final(console)@.ppu.cycles == old(console)@.ppu.cycles,
        final(console)@ == spec_op_pla(old(console)@),
{
    let value = match pull_stack_u8(console) {
        Ok(v) => v,
        Err(_) => {
            proof {
                assert(false);
            }
            0
        },
    };
    console.cpu.a = value;
    console.cpu.flags = zn_flags(console.cpu.flags, value);
}

/// Pull the flags from the stack, forcing break set and break-2 clear.
pub open spec fn spec_op_plp(c: ConsoleView) -> ConsoleView {
    let (c1, v) = spec_pull8(c);
    ConsoleView {
        cpu: Cpu {
            flags: Flags { break_flag: true, break_2: false, ..spec_flags_from_bits(v) },
            ..c1.cpu
        },
        ..c1
    }
}

#[verifier::rlimit(100)]
#[verifier::spinoff_prover]
fn op_plp(console: &mut Console)
    requires
        old(console).wf(),
    ensures
        final(console).wf(),
        final(console)@.ppu.cycles == old(console)@.ppu.cycles,
        final(console)@ == spec_op_plp(old(console)@),
{
    let value = match pull_stack_u8(console) {
        Ok(v) => v,
        Err(_) => {
            proof {
                assert(false);
            }
            0
        },
    };
    let mut pulled = Flags::from_bits(value);
    pulled.break_flag = true;
    pulled.break_2 = false;
    console.cpu.flags = pulled;
}

/// Return from interrupt: pull the flags (break forced set, break-2
/// forced clear), then pull the program counter.
pub open spec fn spec_op_rti(c: ConsoleView) -> ConsoleView {
    let (c1, v) = spec_pull8(c);
    let (c2, pcv) = spec_pull16(c1);
    ConsoleView {
        cpu: Cpu {
            flags: Flags { break_flag: true, break_2: false, ..spec_flags_from_bits(v) },
            pc: pcv,
            ..c2.cpu
        },
        ..c2
    }
}

#[verifier::rlimit(100)]
#[verifier::spinoff_prover]
fn op_rti(console: &mut Console)
    requires
        old(console).wf(),
    ensures
        final(console).wf(),
        final(console)@.ppu.cycles == old(console)@.ppu.cycles,
        final(console)@ == spec_op_rti(old(console)@),
{
    let value = match pull_stack_u8(console) {
        Ok(v) => v,
        Err(_) => {
            proof {
                assert(false);
            }
            0
        },
    };
    let mut pulled = Flags::from_bits(value);
    pulled.break_flag = true;
    pulled.break_2 = false;
    console.cpu.flags = pulled;
    let pcv = match pull_stack_u16(console) {
        Ok(v) => v,
        Err(_) => {
            proof {
                assert(false);
            }
            0
        },
    };
    console.cpu.pc = pcv;
}

/// Return from subroutine: pull the program counter and step past the
/// byte the jump left behind.
pub open spec fn spec_op_rts(c: ConsoleView) -> ConsoleView {
    let (c1, pcv) = spec_pull16(c);
    ConsoleView { cpu: Cpu { pc: spec_wrap16(pcv + 1), ..c1.cpu }, ..c1 }
}

#[verifier::rlimit(100)]
#[verifier::spinoff_prover]
fn op_rts(console: &mut Console)
    requires
        old(console).wf(),
    ensures
        final(console).wf(),
        final(console)@.ppu.cycles == old(console)@.ppu.cycles,
        final(console)@ == spec_op_rts(old(console)@),
{
    let pcv = match pull_stack_u16(console) {
        Ok(v) => v,
        Err(_) => {
            proof {
                assert(false);
            }
            0
        },
    };
    console.cpu.pc = pcv.wrapping_add(1);
}

/// The machine after one implied-mode operation, or the fault for an
/// operation that needs an operand address.
#[verifier::opaque]
pub open spec fn spec_step_implied(c: ConsoleView, op: Operation, opcode: u8) -> (
    ConsoleView,
    Result<(), EmuError>,
) {
    let cpu = c.cpu;
    let f = cpu.flags;
    match op {
        Operation::Asl => {
            let r = low8(2 * cpu.a);
            (
                ConsoleView { cpu: Cpu { a: r, flags: spec_carry_zn(f, r, bit7(cpu.a)), ..cpu }, ..c },
                Ok(()),
            )
        },
        Operation::Lsr => {
            let r = (cpu.a / 2) as u8;
            (
                ConsoleView { cpu: Cpu { a: r, flags: spec_carry_zn(f, r, cpu.a % 2 == 1), ..cpu }, ..c },
                Ok(()),
            )
        },
        Operation::Rol => {
            let r = low8(2 * cpu.a + (if f.carry {
                1int
            } else {
                0int
            }));
            (
                ConsoleView { cpu: Cpu { a: r, flags: spec_carry_zn(f, r, bit7(cpu.a)), ..cpu }, ..c },
                Ok(()),
            )
        },
        Operation::Ror => {
            let r = (cpu.a / 2 + (if f.carry {
                128int
            } else {
                0int
            })) as u8;
            (
                ConsoleView { cpu: Cpu { a: r, flags: spec_carry_zn(f, r, cpu.a % 2 == 1), ..cpu }, ..c },
                Ok(()),
            )
        },
        Operation::Brk => (spec_op_brk(c), Ok(())),
        Operation::Clc => (
            ConsoleView { cpu: Cpu { flags: Flags { carry: false, ..f }, ..cpu }, ..c },
            Ok(()),
        ),
        Operation::Cld => (
            ConsoleView { cpu: Cpu { flags: Flags { decimal: false, ..f }, ..cpu }, ..c },
            Ok(()),
        ),
        Operation::Cli => (
            ConsoleView { cpu: Cpu { flags: Flags { interrupt_disable: false, ..f }, ..cpu }, ..c },
            Ok(()),
        ),
        Operation::Clv => (
            ConsoleView { cpu: Cpu { flags: Flags { overflow: false, ..f }, ..cpu }, ..c },
            Ok(()),
        ),
        Operation::Sec => (
            ConsoleView { cpu: Cpu { flags: Flags { carry: true, ..f }, ..cpu }, ..c },
            Ok(()),
        ),
        Operation::Sed => (
            ConsoleView { cpu: Cpu { flags: Flags { decimal: true, ..f }, ..cpu }, ..c },
            Ok(()),
        ),
        Operation::Sei => (
            ConsoleView { cpu: Cpu { flags: Flags { interrupt_disable: true, ..f }, ..cpu }, ..c },
            Ok(()),
        ),
        Operation::Dex => {
            let r = ((cpu.x + 255) % 256) as u8;
            (ConsoleView { cpu: Cpu { x: r, flags: spec_zn(f, r), ..cpu }, ..c }, Ok(()))
        },
        Operation::Dey => {
            let r = ((cpu.y + 255) % 256) as u8;
            (ConsoleView { cpu: Cpu { y: r, flags: spec_zn(f, r), ..cpu }, ..c }, Ok(()))
        },
        Operation::Inx => {
            let r = ((cpu.x + 1) % 256) as u8;
            (ConsoleView { cpu: Cpu { x: r, flags: spec_zn(f, r), ..cpu }, ..c }, Ok(()))
        },
        Operation::Iny => {
            let r = ((cpu.y + 1) % 256) as u8;
            (ConsoleView { cpu: Cpu { y: r, flags: spec_zn(f, r), ..cpu }, ..c }, Ok(()))
        },
        Operation::Nop => (c, Ok(())),
        Operation::Pha => (spec_push8(c, cpu.a), Ok(())),
        Operation::Php => (
            spec_push8(c, spec_flags_bits(Flags { break_flag: true, break_2: true, ..f })),
            Ok(()),
        ),
        Operation::Pla => (spec_op_pla(c), Ok(())),
        Operation::Plp => (spec_op_plp(c), Ok(())),
        Operation::Rti => (spec_op_rti(c), Ok(())),
        Operation::Rts => (spec_op_rts(c), Ok(())),
        Operation::Tax => (
            ConsoleView { cpu: Cpu { x: cpu.a, flags: spec_zn(f, cpu.a), ..cpu }, ..c },
            Ok(()),
        ),
        Operation::Tay => (
            ConsoleView { cpu: Cpu { y: cpu.a, flags: spec_zn(f, cpu.a), ..cpu }, ..c },
            Ok(()),
        ),
        Operation::Tsx => (
            ConsoleView { cpu: Cpu { x: cpu.sp, flags: spec_zn(f, cpu.sp), ..cpu }, ..c },
            Ok(()),
        ),
        Operation::Txa => (
            ConsoleView { cpu: Cpu { a: cpu.x, flags: spec_zn(f, cpu.x), ..cpu }, ..c },
            Ok(()),
        ),
        Operation::Txs => (ConsoleView { cpu: Cpu { sp: cpu.x, ..cpu }, ..c }, Ok(())),
        Operation::Tya => (
            ConsoleView { cpu: Cpu { a: cpu.y, flags: spec_zn(f, cpu.y), ..cpu }, ..c },
            Ok(()),
        ),
        _ => (c, Err(EmuError::UnsupportedInstruction(opcode))),
    }
}

#[verifier::rlimit(100)]
#[verifier::spinoff_prover]
fn imp_asl(console: &mut Console, opcode: u8) -> (r: Result<(), EmuError>)
    requires
        old(console).wf(),
    ensures
        final(console).wf(),
        final(console)@.ppu.cycles == old(console)@.ppu.cycles,
        (final(console)@, r) == spec_step_implied(old(console)@, Operation::Asl, opcode),
{
    proof {
        reveal(spec_step_implied);
    }
    let (result, carry) = alu::asl(console.cpu.a);
    console.cpu.a = result;
    console.cpu.flags = carry_zn_flags(console.cpu.flags, result, carry);
    Ok(())
}

#[verifier::rlimit(100)]
#[verifier::spinoff_prover]
fn imp_lsr(console: &mut Console, opcode: u8) -> (r: Result<(), EmuError>)
    requires
        old(console).wf(),
    ensures
        final(console).wf(),
        final(console)@.ppu.cycles == old(console)@.ppu.cycles,
        (final(console)@, r) == spec_step_implied(old(console)@, Operation::Lsr, opcode),
{
    proof {
        reveal(spec_step_implied);
    }
    let (result, carry) = alu::lsr(console.cpu.a);
    console.cpu.a = result;
    console.cpu.flags = carry_zn_flags(console.cpu.flags, result, carry);
    Ok(())
}

#[verifier::rlimit(100)]
#[verifier::spinoff_prover]
fn imp_rol(console: &mut Console, opcode: u8) -> (r: Result<(), EmuError>)
    requires
        old(console).wf(),
    ensures
        final(console).wf(),
        final(console)@.ppu.cycles == old(console)@.ppu.cycles,
        (final(console)@, r) == spec_step_implied(old(console)@, Operation::Rol, opcode),
{
    proof {
        reveal(spec_step_implied);
    }
    let (result, carry) = alu::rol(console.cpu.a, console.cpu.flags.carry);
    console.cpu.a = result;
    console.cpu.flags = carry_zn_flags(console.cpu.flags, result, carry);
    Ok(())
}

#[verifier::rlimit(100)]
#[verifier::spinoff_prover]
fn imp_ror(console: &mut Console, opcode: u8) -> (r: Result<(), EmuError>)
    requires
        old(console).wf(),
    ensures
        final(console).wf(),
        final(console)@.ppu.cycles == old(console)@.ppu.cycles,
        (final(console)@, r) == spec_step_implied(old(console)@, Operation::Ror, opcode),
{
    proof {
        reveal(spec_step_implied);
    }
    let (result, carry) = alu::ror(console.cpu.a, console.cpu.flags.carry);
    console.cpu.a = result;
    console.cpu.flags = carry_zn_flags(console.cpu.flags, result, carry);
    Ok(())
}

#[verifier::rlimit(100)]
#[verifier::spinoff_prover]
fn imp_brk(console: &mut Console, opcode: u8) -> (r: Result<(), EmuError>)
    requires
        old(console).wf(),
    ensures
        final(console).wf(),
        final(console)@.ppu.cycles == old(console)@.ppu.cycles,
        (final(console)@, r) == spec_step_implied(old(console)@, Operation::Brk, opcode),
{
    proof {
        reveal(spec_step_implied);
    }
    op_brk(console);
    Ok(())
}

#[verifier::rlimit(100)]
#[verifier::spinoff_prover]
fn imp_clc(console: &mut Console, opcode: u8) -> (r: Result<(), EmuError>)
    requires
        old(console).wf(),
    ensures
        final(console).wf(),
        final(console)@.ppu.cycles == old(console)@.ppu.cycles,
        (final(console)@, r) == spec_step_implied(old(console)@, Operation::Clc, opcode),
{
    proof {
        reveal(spec_step_implied);
    }
    console.cpu.flags.carry = false;
    Ok(())
}

#[verifier::rlimit(100)]
#[verifier::spinoff_prover]
fn imp_cld(console: &mut Console, opcode: u8) -> (r: Result<(), EmuError>)
    requires
        old(console).wf(),
    ensures
        final(console).wf(),
        final(console)@.ppu.cycles == old(console)@.ppu.cycles,
        (final(console)@, r) == spec_step_implied(old(console)@, Operation::Cld, opcode),
{
    proof {
        reveal(spec_step_implied);
    }
    console.cpu.flags.decimal = false;
    Ok(())
}

#[verifier::rlimit(100)]
#[verifier::spinoff_prover]
fn imp_cli(console: &mut Console, opcode: u8) -> (r: Result<(), EmuError>)
    requires
        old(console).wf(),
    ensures
        final(console).wf(),
        final(console)@.ppu.cycles == old(console)@.ppu.cycles,
        (final(console)@, r) == spec_step_implied(old(console)@, Operation::Cli, opcode),
{
    proof {
        reveal(spec_step_implied);
    }
    console.cpu.flags.interrupt_disable = false;
    Ok(())
}

#[verifier::rlimit(100)]
#[verifier::spinoff_prover]
fn imp_clv(console: &mut Console, opcode: u8) -> (r: Result<(), EmuError>)
    requires
        old(console).wf(),
    ensures
        final(console).wf(),
        final(console)@.ppu.cycles == old(console)@.ppu.cycles,
        (final(console)@, r) == spec_step_implied(old(console)@, Operation::Clv, opcode),
{
    proof {
        reveal(spec_step_implied);
    }
    console.cpu.flags.overflow = false;
    Ok(())
}

#[verifier::rlimit(100)]
#[verifier::spinoff_prover]
fn imp_sec(console: &mut Console, opcode: u8) -> (r: Result<(), EmuError>)
    requires
        old(console).wf(),
    ensures
        final(console).wf(),
        final(console)@.ppu.cycles == old(console)@.ppu.cycles,
        (final(console)@, r) == spec_step_implied(old(console)@, Operation::Sec, opcode),
{
    proof {
        reveal(spec_step_implied);
    }
    console.cpu.flags.carry = true;
    Ok(())
}

#[verifier::rlimit(100)]
#[verifier::spinoff_prover]
fn imp_sed(console: &mut Console, opcode: u8) -> (r: Result<(), EmuError>)
    requires
        old(console).wf(),
    ensures
        final(console).wf(),
        final(console)@.ppu.cycles == old(console)@.ppu.cycles,
        (final(console)@, r) == spec_step_implied(old(console)@, Operation::Sed, opcode),
{
    proof {
        reveal(spec_step_implied);
    }
    console.cpu.flags.decimal = true;
    Ok(())
}

#[verifier::rlimit(100)]
#[verifier::spinoff_prover]
fn imp_sei(console: &mut Console, opcode: u8) -> (r: Result<(), EmuError>)
    requires
        old(console).wf(),
    ensures
        final(console).wf(),
        final(console)@.ppu.cycles == old(console)@.ppu.cycles,
        (final(console)@, r) == spec_step_implied(old(console)@, Operation::Sei, opcode),
{
    proof {
        reveal(spec_step_implied);
    }
    console.cpu.flags.interrupt_disable = true;
    Ok(())
}

#[verifier::rlimit(100)]
#[verifier::spinoff_prover]
fn imp_dex(console: &mut Console, opcode: u8) -> (r: Result<(), EmuError>)
    requires
        old(console).wf(),
    ensures
        final(console).wf(),
        final(console)@.ppu.cycles == old(console)@.ppu.cycles,
        (final(console)@, r) == spec_step_implied(old(console)@, Operation::Dex, opcode),
{
    proof {
        reveal(spec_step_implied);
    }
    let result = console.cpu.x.wrapping_sub(1);
    console.cpu.x = result;
    console.cpu.flags = zn_flags(console.cpu.flags, result);
    Ok(())
}

#[verifier::rlimit(100)]
#[verifier::spinoff_prover]
fn imp_dey(console: &mut Console, opcode: u8) -> (r: Result<(), EmuError>)
    requires
        old(console).wf(),
    ensures
        final(console).wf(),
        final(console)@.ppu.cycles == old(console)@.ppu.cycles,
        (final(console)@, r) == spec_step_implied(old(console)@, Operation::Dey, opcode),
{
    proof {
        reveal(spec_step_implied);
    }
    let result = console.cpu.y.wrapping_sub(1);
    console.cpu.y = result;
    console.cpu.flags = zn_flags(console.cpu.flags, result);
    Ok(())
}

#[verifier::rlimit(100)]
#[verifier::spinoff_prover]
fn imp_inx(console: &mut Console, opcode: u8) -> (r: Result<(), EmuError>)
    requires
        old(console).wf(),
    ensures
        final(console).wf(),
        final(console)@.ppu.cycles == old(console)@.ppu.cycles,
        (final(console)@, r) == spec_step_implied(old(console)@, Operation::Inx, opcode),
{
    proof {
        reveal(spec_step_implied);
    }
    let result = console.cpu.x.wrapping_add(1);
    console.cpu.x = result;
    console.cpu.flags = zn_flags(console.cpu.flags, result);
    Ok(())
}

#[verifier::rlimit(100)]
#[verifier::spinoff_prover]
fn imp_iny(console: &mut Console, opcode: u8) -> (r: Result<(), EmuError>)
    requires
        old(console).wf(),
    ensures
        final(console).wf(),
        final(console)@.ppu.cycles == old(console)@.ppu.cycles,
        (final(console)@, r) == spec_step_implied(old(console)@, Operation::Iny, opcode),
{
    proof {
        reveal(spec_step_implied);
    }
    let result = console.cpu.y.wrapping_add(1);
    console.cpu.y = result;
    console.cpu.flags = zn_flags(console.cpu.flags, result);
    Ok(())
}

#[verifier::rlimit(100)]
#[verifier::spinoff_prover]
fn imp_nop(console: &mut Console, opcode: u8) -> (r: Result<(), EmuError>)
    requires
        old(console).wf(),
    ensures
        final(console).wf(),
        final(console)@.ppu.cycles == old(console)@.ppu.cycles,
        (final(console)@, r) == spec_step_implied(old(console)@, Operation::Nop, opcode),
{
    proof {
        reveal(spec_step_implied);
    }
    Ok(())
}

#[verifier::rlimit(100)]
#[verifier::spinoff_prover]
fn imp_pha(console: &mut Console, opcode: u8) -> (r: Result<(), EmuError>)
    requires
        old(console).wf(),
    ensures
        final(console).wf(),
        final(console)@.ppu.cycles == old(console)@.ppu.cycles,
        (final(console)@, r) == spec_step_implied(old(console)@, Operation::Pha, opcode),
{
    proof {
        reveal(spec_step_implied);
    }
    push_stack_u8(console, console.cpu.a);
    Ok(())
}

#[verifier::rlimit(100)]
#[verifier::spinoff_prover]
fn imp_php(console: &mut Console, opcode: u8) -> (r: Result<(), EmuError>)
    requires
        old(console).wf(),
    ensures
        final(console).wf(),
        final(console)@.ppu.cycles == old(console)@.ppu.cycles,
        (final(console)@, r) == spec_step_implied(old(console)@, Operation::Php, opcode),
{
    proof {
        reveal(spec_step_implied);
    }
    let mut to_push = console.cpu.flags;
    to_push.break_flag = true;
    to_push.break_2 = true;
    let flag_byte = to_push.bits();
    push_stack_u8(console, flag_byte);
    Ok(())
}

#[verifier::rlimit(100)]
#[verifier::spinoff_prover]
fn imp_pla(console: &mut Console, opcode: u8) -> (r: Result<(), EmuError>)
    requires
        old(console).wf(),
    ensures
        final(console).wf(),
        final(console)@.ppu.cycles == old(console)@.ppu.cycles,
        (final(console)@, r) == spec_step_implied(old(console)@, Operation::Pla, opcode),
{
    proof {
        reveal(spec_step_implied);
    }
    op_pla(console);
    Ok(())
}

#[verifier::rlimit(100)]
#[verifier::spinoff_prover]
fn imp_plp(console: &mut Console, opcode: u8) -> (r: Result<(), EmuError>)
    requires
        old(console).wf(),
    ensures
        final(console).wf(),
        final(console)@.ppu.cycles == old(console)@.ppu.cycles,
        (final(console)@, r) == spec_step_implied(old(console)@, Operation::Plp, opcode),
{
    proof {
        reveal(spec_step_implied);
    }
    op_plp(console);
    Ok(())
}

#[verifier::rlimit(100)]
#[verifier::spinoff_prover]
fn imp_rti(console: &mut Console, opcode: u8) -> (r: Result<(), EmuError>)
    requires
        old(console).wf(),
    ensures
        final(console).wf(),
        final(console)@.ppu.cycles == old(console)@.ppu.cycles,
        (final(console)@, r) == spec_step_implied(old(console)@, Operation::Rti, opcode),
{
    proof {
        reveal(spec_step_implied);
    }
    op_rti(console);
    Ok(())
}

#[verifier::rlimit(100)]
#[verifier::spinoff_prover]
fn imp_rts(console: &mut Console, opcode: u8) -> (r: Result<(), EmuError>)
    requires
        old(console).wf(),
    ensures
        final(console).wf(),
        final(console)@.ppu.cycles == old(console)@.ppu.cycles,
        (final(console)@, r) == spec_step_implied(old(console)@, Operation::Rts, opcode),
{
    proof {
        reveal(spec_step_implied);
    }
    op_rts(console);
    Ok(())
}

#[verifier::rlimit(100)]
#[verifier::spinoff_prover]
fn imp_tax(console: &mut Console, opcode: u8) -> (r: Result<(), EmuError>)
    requires
        old(console).wf(),
    ensures
        final(console).wf(),
        final(console)@.ppu.cycles == old(console)@.ppu.cycles,
        (final(console)@, r) == spec_step_implied(old(console)@, Operation::Tax, opcode),
{
    proof {
        reveal(spec_step_implied);
    }
    let value = console.cpu.a;
    console.cpu.x = value;
    console.cpu.flags = zn_flags(console.cpu.flags, value);
    Ok(())
}

#[verifier::rlimit(100)]
#[verifier::spinoff_prover]
fn imp_tay(console: &mut Console, opcode: u8) -> (r: Result<(), EmuError>)
    requires
        old(console).wf(),
    ensures
        final(console).wf(),
        final(console)@.ppu.cycles == old(console)@.ppu.cycles,
        (final(console)@, r) == spec_step_implied(old(console)@, Operation::Tay, opcode),
{
    proof {
        reveal(spec_step_implied);
    }
    let value = console.cpu.a;
    console.cpu.y = value;
    console.cpu.flags = zn_flags(console.cpu.flags, value);
    Ok(())
}

#[verifier::rlimit(100)]
#[verifier::spinoff_prover]
fn imp_tsx(console: &mut Console, opcode: u8) -> (r: Result<(), EmuError>)
    requires
        old(console).wf(),
    ensures
        final(console).wf(),
        final(console)@.ppu.cycles == old(console)@.ppu.cycles,
        (final(console)@, r) == spec_step_implied(old(console)@, Operation::Tsx, opcode),
{
    proof {
        reveal(spec_step_implied);
    }
    let value = console.cpu.sp;
    console.cpu.x = value;
    console.cpu.flags = zn_flags(console.cpu.flags, value);
    Ok(())
}

#[verifier::rlimit(100)]
#[verifier::spinoff_prover]
fn imp_txa(console: &mut Console, opcode: u8) -> (r: Result<(), EmuError>)
    requires
        old(console).wf(),
    ensures
        final(console).wf(),
        final(console)@.ppu.cycles == old(console)@.ppu.cycles,
        (final(console)@, r) == spec_step_implied(old(console)@, Operation::Txa, opcode),
{
    proof {
        reveal(spec_step_implied);
    }
    let value = console.cpu.x;
    console.cpu.a = value;
    console.cpu.flags = zn_flags(console.cpu.flags, value);
    Ok(())
}

#[verifier::rlimit(100)]
#[verifier::spinoff_prover]
fn imp_txs(console: &mut Console, opcode: u8) -> (r: Result<(), EmuError>)
    requires
        old(console).wf(),
    ensures
        final(console).wf(),
        final(console)@.ppu.cycles == old(console)@.ppu.cycles,
        (final(console)@, r) == spec_step_implied(old(console)@, Operation::Txs, opcode),
{
    proof {
        reveal(spec_step_implied);
    }
    console.cpu.sp = console.cpu.x;
    Ok(())
}

#[verifier::rlimit(100)]
#[verifier::spinoff_prover]
fn imp_tya(console: &mut Console, opcode: u8) -> (r: Result<(), EmuError>)
    requires
        old(console).wf(),
    ensures
        final(console).wf(),
        final(console)@.ppu.cycles == old(console)@.ppu.cycles,
        (final(console)@, r) == spec_step_implied(old(console)@, Operation::Tya, opcode),
{
    proof {
        reveal(spec_step_implied);
    }
    let value = console.cpu.y;
    console.cpu.a = value;
    console.cpu.flags = zn_flags(console.cpu.flags, value);
    Ok(())
}

/// Run one implied-mode operation.
fn step_implied(console: &mut Console, op: Operation, opcode: u8) -> (r: Result<(), EmuError>)
    requires
        old(console).wf(),
    ensures
        final(console).wf(),
        final(console)@.ppu.cycles == old(console)@.ppu.cycles,
        (final(console)@, r) == spec_step_implied(old(console)@, op, opcode),
{
    match op {
        Operation::Asl => imp_asl(console, opcode),
        Operation::Lsr => imp_lsr(console, opcode),
        Operation::Rol => imp_rol(console, opcode),
        Operation::Ror => imp_ror(console, opcode),
        Operation::Brk => imp_brk(console, opcode),
        Operation::Clc => imp_clc(console, opcode),
        Operation::Cld => imp_cld(console, opcode),
        Operation::Cli => imp_cli(console, opcode),
        Operation::Clv => imp_clv(console, opcode),
        Operation::Sec => imp_sec(console, opcode),
        Operation::Sed => imp_sed(console, opcode),
        Operation::Sei => imp_sei(console, opcode),
        Operation::Dex => imp_dex(console, opcode),
        Operation::Dey => imp_dey(console, opcode),
        Operation::Inx => imp_inx(console, opcode),
        Operation::Iny => imp_iny(console, opcode),
        Operation::Nop => imp_nop(console, opcode),
        Operation::Pha => imp_pha(console, opcode),
        Operation::Php => imp_php(console, opcode),
        Operation::Pla => imp_pla(console, opcode),
        Operation::Plp => imp_plp(console, opcode),
        Operation::Rti => imp_rti(console, opcode),
        Operation::Rts => imp_rts(console, opcode),
        Operation::Tax => imp_tax(console, opcode),
        Operation::Tay => imp_tay(console, opcode),
        Operation::Tsx => imp_tsx(console, opcode),
        Operation::Txa => imp_txa(console, opcode),
        Operation::Txs => imp_txs(console, opcode),
        Operation::Tya => imp_tya(console, opcode),
        _ => {
            proof {
                reveal(spec_step_implied);
            }
            Err(EmuError::UnsupportedInstruction(opcode))
        },
    }
}

/// The machine after one addressed operation at a resolved operand
/// address, or the fault from its memory accesses or from an operation
/// that takes no operand.
#[verifier::opaque]
pub open spec fn spec_step_addressed(
    c: ConsoleView,
    op: Operation,
    opcode: u8,
    address: u16,
) -> (ConsoleView, Result<(), EmuError>) {
    match op {
        Operation::Adc => spec_op_adc(c, address),
        Operation::Sbc => spec_op_sbc(c, address),
        Operation::And => spec_op_and(c, address),
        Operation::Eor => spec_op_eor(c, address),
        Operation::Ora => spec_op_ora(c, address),
        Operation::Asl => spec_op_asl_mem(c, address),
        Operation::Lsr => spec_op_lsr_mem(c, address),
        Operation::Rol => spec_op_rol_mem(c, address),
        Operation::Ror => spec_op_ror_mem(c, address),
        Operation::Bcc => spec_branch(c, address, !c.cpu.flags.carry),
        Operation::Bcs => spec_branch(c, address, c.cpu.flags.carry),
        Operation::Beq => spec_branch(c, address, c.cpu.flags.zero),
        Operation::Bne => spec_branch(c, address, !c.cpu.flags.zero),
        Operation::Bmi => spec_branch(c, address, c.cpu.flags.negative),
        Operation::Bpl => spec_branch(c, address, !c.cpu.flags.negative),
        Operation::Bvc => spec_branch(c, address, !c.cpu.flags.overflow),
        Operation::Bvs => spec_branch(c, address, c.cpu.flags.overflow),
        Operation::Bit => spec_op_bit(c, address),
        Operation::Cmp => spec_compare(c, address, c.cpu.a),
        Operation::Cpx => spec_compare(c, address, c.cpu.x),
        Operation::Cpy => spec_compare(c, address, c.cpu.y),
        Operation::Dec => spec_op_dec(c, address),
        Operation::Inc => spec_op_inc(c, address),
        Operation::Jmp => (ConsoleView { cpu: Cpu { pc: address, ..c.cpu }, ..c }, Ok(())),
        Operation::Jsr => (spec_op_jsr(c, address), Ok(())),
        Operation::Lda => spec_op_lda(c, address),
        Operation::Ldx => spec_op_ldx(c, address),
        Operation::Ldy => spec_op_ldy(c, address),
        Operation::Sta => spec_bus_write8(c, address, c.cpu.a),
        Operation::Stx => spec_bus_write8(c, address, c.cpu.x),
        Operation::Sty => spec_bus_write8(c, address, c.cpu.y),
        _ => (c, Err(EmuError::UnsupportedInstruction(opcode))),
    }
}

/// Run one addressed operation at a resolved operand address.
#[verifier::rlimit(100)]
#[verifier::spinoff_prover]
fn step_addressed(console: &mut Console, op: Operation, opcode: u8, address: u16) -> (r: Result<
    (),
    EmuError,
>)
    requires
        old(console).wf(),
    ensures
        final(console).wf(),
        final(console)@.ppu.cycles == old(console)@.ppu.cycles,
        (final(console)@, r) == spec_step_addressed(old(console)@, op, opcode, address),
{
    proof {
        reveal(spec_step_addressed);
    }
    match op {
        Operation::Adc => op_adc(console, address),
        Operation::Sbc => op_sbc(console, address),
        Operation::And => op_and(console, address),
        Operation::Eor => op_eor(console, address),
        Operation::Ora => op_ora(console, address),
        Operation::Asl => op_asl_mem(console, address),
        Operation::Lsr => op_lsr_mem(console, address),
        Operation::Rol => op_rol_mem(console, address),
        Operation::Ror => op_ror_mem(console, address),
        Operation::Bcc => {
            let condition = !console.cpu.flags.carry;
            branch(console, address, condition)
        },
        Operation::Bcs => {
            let condition = console.cpu.flags.carry;
            branch(console, address, condition)
        },
        Operation::Beq => {
            let condition = console.cpu.flags.zero;
            branch(console, address, condition)
        },
        Operation::Bne => {
            let condition = !console.cpu.flags.zero;
            branch(console, address, condition)
        },
        Operation::Bmi => {
            let condition = console.cpu.flags.negative;
            branch(console, address, condition)
        },
        Operation::Bpl => {
            let condition = !console.cpu.flags.negative;
            branch(console, address, condition)
        },
        Operation::Bvc => {
            let condition = !console.cpu.flags.overflow;
            branch(console, address, condition)
        },
        Operation::Bvs => {
            let condition = console.cpu.flags.overflow;
            branch(console, address, condition)
        },
        Operation::Bit => op_bit(console, address),
        Operation::Cmp => {
            let register = console.cpu.a;
            compare(console, address, register)
        },
        Operation::Cpx => {
            let register = console.cpu.x;
            compare(console, address, register)
        },
        Operation::Cpy => {
            let register = console.cpu.y;
            compare(console, address, register)
        },
        Operation::Dec => op_dec(console, address),
        Operation::Inc => op_inc(console, address),
        Operation::Jmp => {
            console.cpu.pc = address;
            Ok(())
        },
        Operation::Jsr => {
            op_jsr(console, address);
            Ok(())
        },
        Operation::Lda => op_lda(console, address),
        Operation::Ldx => op_ldx(console, address),
        Operation::Ldy => op_ldy(console, address),
        Operation::Sta => {
            let value = console.cpu.a;
            bus::write_u8(console, address, value)
        },
        Operation::Stx => {
            let value = console.cpu.x;
            bus::write_u8(console, address, value)
        },
        Operation::Sty => {
            let value = console.cpu.y;
            bus::write_u8(console, address, value)
        },
        _ => Err(EmuError::UnsupportedInstruction(opcode)),
    }
}

/// The machine after one whole instruction: the opcode fetch advances the
/// program counter, then the implied or addressed execution runs.
pub open spec fn spec_step(c: ConsoleView, ins: Instruction) -> (ConsoleView, Result<
    (),
    EmuError,
>) {
    let c0 = spec_advance_pc(c, 1);
    if ins.addressing_mode == AddressingMode::Implied {
        spec_step_implied(c0, ins.operation, ins.opcode)
    } else {
        let (c1, r) = spec_read_address(c0, ins.addressing_mode);
        match r {
            Ok(address) => spec_step_addressed(c1, ins.operation, ins.opcode, address),
            Err(e) => (c1, Err(e)),
        }
    }
}

/// Run one whole instruction to completion: advance the program counter
/// past the already-fetched opcode, resolve the operand address when the
/// mode has one, and perform the operation.
#[verifier::rlimit(100)]
#[verifier::spinoff_prover]
pub fn step(console: &mut Console, instruction: &Instruction) -> (r: Result<(), EmuError>)
    requires
        old(console).wf(),
    ensures
        final(console).wf(),
        final(console)@.ppu.cycles == old(console)@.ppu.cycles,
        (final(console)@, r) == spec_step(old(console)@, *instruction),
{
    console.cpu.pc = console.cpu.pc.wrapping_add(1);
    if instruction.addressing_mode == AddressingMode::Implied {
        step_implied(console, instruction.operation, instruction.opcode)
    } else {
        let address = match read_address(console, instruction.addressing_mode) {
            Ok(a) => a,
            Err(e) => {
                return Err(e);
            },
        };
        step_addressed(console, instruction.operation, instruction.opcode, address)
    }
}

} // verus!

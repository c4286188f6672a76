//! Processor state: registers and the flag set, with the stack discipline
//! and the reset / NMI service operations.

use crate::bus;
use crate::config::{CPU_FLAGS_START_VALUE, CPU_SP_START_VALUE, ROM_START};
use crate::console::{console_wf, Console, ConsoleView};
use crate::errors::EmuError;
use crate::ppu::spec_ppu_tick;
use vstd::prelude::*;

verus! {

/// Bus address of the first byte of the fixed stack page.
pub const STACK_PAGE_ADDRESS: u16 = 0x0100;

/// Bus address the reset service loads the program counter from.
pub const RESET_INTERRUPT_VECTOR_ADDRESS: u16 = 0xFFFC;

/// Bus address the NMI service loads the program counter from.
pub const NMI_INTERRUPT_VECTOR_ADDRESS: u16 = 0xFFFA;

/// The processor's eight status flags, one field per hardware bit.
///
/// Bit positions (high to low): negative, overflow, break, break-2,
/// decimal, interrupt-disable, zero, carry.  The raw byte layout matters
/// because emulated programs push the flag byte to the stack and read it
/// back.
#[derive(Clone, Copy, Debug, PartialEq, Eq, Structural)]
pub struct Flags {
    pub negative: bool,
    pub overflow: bool,
    pub break_flag: bool,
    pub break_2: bool,
    pub decimal: bool,
    pub interrupt_disable: bool,
    pub zero: bool,
    pub carry: bool,
}

/// The byte a flag set packs to, bit 7 down to bit 0.
pub open spec fn spec_flags_bits(f: Flags) -> u8 {
    ((if f.negative { 128int } else { 0int }) + (if f.overflow { 64int } else { 0int }) + (
    if f.break_flag { 32int } else { 0int }) + (if f.break_2 { 16int } else { 0int }) + (
    if f.decimal { 8int } else { 0int }) + (if f.interrupt_disable { 4int } else { 0int }) + (
    if f.zero { 2int } else { 0int }) + (if f.carry { 1int } else { 0int })) as u8
}

/// The flag set a byte unpacks to, bit 7 down to bit 0.
pub open spec fn spec_flags_from_bits(v: u8) -> Flags {
    Flags {
        negative: v / 128 % 2 == 1,
        overflow: v / 64 % 2 == 1,
        break_flag: v / 32 % 2 == 1,
        break_2: v / 16 % 2 == 1,
        decimal: v / 8 % 2 == 1,
        interrupt_disable: v / 4 % 2 == 1,
        zero: v / 2 % 2 == 1,
        carry: v % 2 == 1,
    }
}

impl Flags {
    /// Pack the flags into their memory-visible byte.
    pub fn bits(&self) -> (r: u8)
        ensures
            r == spec_flags_bits(*self),
    {
        (if self.negative {
            128u8
        } else {
            0u8
        }) + (if self.overflow {
            64u8
        } else {
            0u8
        }) + (if self.break_flag {
            32u8
        } else {
            0u8
        }) + (if self.break_2 {
            16u8
        } else {
            0u8
        }) + (if self.decimal {
            8u8
        } else {
            0u8
        }) + (if self.interrupt_disable {
            4u8
        } else {
            0u8
        }) + (if self.zero {
            2u8
        } else {
            0u8
        }) + (if self.carry {
            1u8
        } else {
            0u8
        })
    }

    /// Unpack a memory-visible byte into the flag set.
    pub fn from_bits(v: u8) -> (r: Flags)
        ensures
            r == spec_flags_from_bits(v),
    {
        Flags {
            negative: v / 128 % 2 == 1,
            overflow: v / 64 % 2 == 1,
            break_flag: v / 32 % 2 == 1,
            break_2: v / 16 % 2 == 1,
            decimal: v / 8 % 2 == 1,
            interrupt_disable: v / 4 % 2 == 1,
            zero: v / 2 % 2 == 1,
            carry: v % 2 == 1,
        }
    }
}

/// Packing a flag set and unpacking the byte again yields the same flags.
pub proof fn lemma_flags_bits_round_trip(f: Flags)
    ensures
        spec_flags_from_bits(spec_flags_bits(f)) == f,
{
}

/// Processor registers.  The stack pointer indexes the fixed stack page
/// and wraps modulo 256; the program counter wraps modulo 65536.
#[derive(Clone, Copy, Debug, PartialEq, Eq, Structural)]
pub struct Cpu {
    pub pc: u16,
    pub sp: u8,
    pub a: u8,
    pub x: u8,
    pub y: u8,
    pub flags: Flags,
}

impl Cpu {
    /// A processor in its power-on state, pointed at the cartridge base.
    pub fn new() -> (r: Cpu)
        ensures
            r.pc == ROM_START,
            r.sp == CPU_SP_START_VALUE,
            r.a == 0,
            r.x == 0,
            r.y == 0,
            r.flags == spec_flags_from_bits(CPU_FLAGS_START_VALUE),
    {
        Cpu {
            pc: ROM_START,
            sp: CPU_SP_START_VALUE,
            a: 0,
            x: 0,
            y: 0,
            flags: Flags::from_bits(CPU_FLAGS_START_VALUE),
        }
    }
}

/// The machine after one byte is pushed: the byte lands at the stack
/// pointer's slot in the fixed stack page and the pointer steps down,
/// wrapping within the page.
pub open spec fn spec_push8(c: ConsoleView, value: u8) -> ConsoleView {
    ConsoleView {
        ram: c.ram.update(0x100 + c.cpu.sp as int, value),
        cpu: Cpu { sp: ((c.cpu.sp + 255) % 256) as u8, ..c.cpu },
        ..c
    }
}

/// The machine after one byte is pulled, with the byte: the pointer steps
/// up, wrapping within the page, and the byte comes from its new slot.
pub open spec fn spec_pull8(c: ConsoleView) -> (ConsoleView, u8) {
    let sp1 = ((c.cpu.sp + 1) % 256) as u8;
    (ConsoleView { cpu: Cpu { sp: sp1, ..c.cpu }, ..c }, c.ram[0x100 + sp1 as int])
}

/// A 16-bit push composes two 8-bit pushes: high byte first, low second.
pub open spec fn spec_push16(c: ConsoleView, value: u16) -> ConsoleView {
    spec_push8(spec_push8(c, (value as int / 256) as u8), (value as int % 256) as u8)
}

/// A 16-bit pull composes two 8-bit pulls: low byte first, high second.
pub open spec fn spec_pull16(c: ConsoleView) -> (ConsoleView, u16) {
    let (c1, low) = spec_pull8(c);
    let (c2, high) = spec_pull8(c1);
    (c2, (low + high * 256) as u16)
}

/// Pushing a 16-bit value and pulling it back yields the same value and
/// restores the processor's registers, the stack pointer included, for
/// any starting stack pointer that does not wrap across the two slots.
pub proof fn lemma_stack_round_trip(c: ConsoleView, value: u16)
    requires
        console_wf(c),
        c.cpu.sp >= 2,
    ensures
        spec_pull16(spec_push16(c, value)).1 == value,
        spec_pull16(spec_push16(c, value)).0.cpu == c.cpu,
        spec_pull16(spec_push16(c, value)).0.ppu == c.ppu,
        spec_pull16(spec_push16(c, value)).0.rom == c.rom,
{
    let c1 = spec_push16(c, value);
    let (c2, v) = spec_pull16(c1);
    assert(v == value);
    assert(c2.cpu == c.cpu);
}

/// Pull one byte from the stack.
pub fn pull_stack_u8(console: &mut Console) -> (r: Result<u8, EmuError>)
    requires
        old(console).wf(),
    ensures
        final(console).wf(),
        final(console)@ == spec_pull8(old(console)@).0,
        r == Ok::<u8, EmuError>(spec_pull8(old(console)@).1),
{
    console.cpu.sp = console.cpu.sp.wrapping_add(1);
    let address = STACK_PAGE_ADDRESS + console.cpu.sp as u16;
    let value = match bus::read_u8(console, address) {
        Ok(v) => v,
        Err(_) => {
            proof {
                assert(false);
            }
            0
        },
    };
    Ok(value)
}

/// Pull two bytes from the stack as one little-endian 16-bit value.
pub fn pull_stack_u16(console: &mut Console) -> (r: Result<u16, EmuError>)
    requires
        old(console).wf(),
    ensures
        final(console).wf(),
        final(console)@ == spec_pull16(old(console)@).0,
        r == Ok::<u16, EmuError>(spec_pull16(old(console)@).1),
{
    let low_byte = match pull_stack_u8(console) {
        Ok(v) => v,
        Err(_) => {
            proof {
                assert(false);
            }
            0
        },
    };
    let high_byte = match pull_stack_u8(console) {
        Ok(v) => v,
        Err(_) => {
            proof {
                assert(false);
            }
            0
        },
    };
    Ok(low_byte as u16 + high_byte as u16 * 256)
}

/// Push one byte to the stack.
pub fn push_stack_u8(console: &mut Console, value: u8)
    requires
        old(console).wf(),
    ensures
        final(console).wf(),
        final(console)@ == spec_push8(old(console)@, value),
{
    let address = STACK_PAGE_ADDRESS + console.cpu.sp as u16;
    match bus::write_u8(console, address, value) {
        Ok(_) => {},
        Err(_) => {
            proof {
                assert(false);
            }
        },
    }
    console.cpu.sp = console.cpu.sp.wrapping_sub(1);
    proof {
        assert(console@ =~= spec_push8(old(console)@, value));
    }
}

/// Push a 16-bit value to the stack as two bytes, high byte first.
pub fn push_stack_u16(console: &mut Console, value: u16)
    requires
        old(console).wf(),
    ensures
        final(console).wf(),
        final(console)@ == spec_push16(old(console)@, value),
{
    push_stack_u8(console, (value / 256) as u8);
    push_stack_u8(console, (value % 256) as u8);
}

/// The little-endian 16-bit word at a vector address in the cartridge
/// region.
pub open spec fn spec_vector_word(c: ConsoleView, address: u16) -> u16
    recommends
        0x8000 <= address < 0xFFFF,
{
    (bus::spec_rom_byte(c.rom.program_rom, address) + bus::spec_rom_byte(
        c.rom.program_rom,
        (address + 1) as u16,
    ) * 256) as u16
}

/// The machine after the reset service: accumulator and index-X cleared,
/// flags back to the power-on pattern, program counter loaded from the
/// reset vector through the bus.
pub open spec fn spec_reset(c: ConsoleView) -> ConsoleView {
    ConsoleView {
        cpu: Cpu {
            a: 0,
            x: 0,
            flags: spec_flags_from_bits(CPU_FLAGS_START_VALUE),
            pc: spec_vector_word(c, RESET_INTERRUPT_VECTOR_ADDRESS),
            ..c.cpu
        },
        ..c
    }
}

/// Run the reset service.
pub fn reset_interrupt(console: &mut Console)
    requires
        old(console).wf(),
    ensures
        final(console).wf(),
        final(console)@ == spec_reset(old(console)@),
{
    console.cpu.a = 0;
    console.cpu.x = 0;
    console.cpu.flags = Flags::from_bits(CPU_FLAGS_START_VALUE);
    let vector = match bus::read_u16(console, RESET_INTERRUPT_VECTOR_ADDRESS) {
        Ok(v) => v,
        Err(_) => {
            proof {
                assert(false);
            }
            0
        },
    };
    console.cpu.pc = vector;
    proof {
        assert(console@ =~= spec_reset(old(console)@));
    }
}

/// The machine after the NMI service: program counter and flags pushed
/// (break forced set, break-2 forced clear), interrupts disabled, the
/// graphics chip advanced by the acknowledge latency, and the program
/// counter loaded from the NMI vector through the bus.
pub open spec fn spec_nmi(c: ConsoleView) -> ConsoleView {
    let c1 = spec_push16(c, c.cpu.pc);
    let pushed = Flags { break_flag: true, break_2: false, ..c.cpu.flags };
    let c2 = spec_push8(c1, spec_flags_bits(pushed));
    let c3 = ConsoleView {
        cpu: Cpu { flags: Flags { interrupt_disable: true, ..c2.cpu.flags }, ..c2.cpu },
        ..c2
    };
    let c4 = ConsoleView { ppu: spec_ppu_tick(c3.ppu, 6).0, ..c3 };
    ConsoleView { cpu: Cpu { pc: spec_vector_word(c4, NMI_INTERRUPT_VECTOR_ADDRESS), ..c4.cpu }, ..c4 }
}

/// Run the NMI service.
pub fn nmi_interrupt(console: &mut Console)
    requires
        old(console).wf(),
        old(console)@.ppu.cycles + 6 <= u32::MAX,
    ensures
        final(console).wf(),
        final(console)@ == spec_nmi(old(console)@),
{
    push_stack_u16(console, console.cpu.pc);
    let mut flags = console.cpu.flags;
    flags.break_flag = true;
    flags.break_2 = false;
    push_stack_u8(console, flags.bits());
    console.cpu.flags.interrupt_disable = true;

    let _frame = console.ppu.tick(2 * 3);
    let vector = match bus::read_u16(console, NMI_INTERRUPT_VECTOR_ADDRESS) {
        Ok(v) => v,
        Err(_) => {
            proof {
                assert(false);
            }
            0
        },
    };
    console.cpu.pc = vector;
    proof {
        assert(console@ =~= spec_nmi(old(console)@));
    }
}

} // verus!

//! The console: the single owner that holds the processor, bus, graphics
//! chip and cartridge as siblings, so that every cross-component access is
//! an explicit call through the bus rather than a stored handle.

use crate::bus::Bus;
use crate::config::PROGRAM_ROM_PAGE_SIZE;
use crate::cpu::Cpu;
use crate::errors::EmuError;
use crate::instruction::Instruction;
use crate::ppu::{ppu_wf, Ppu, PpuView};
use crate::rom::{Rom, RomView};
use vstd::prelude::*;

verus! {

/// The graphics chip runs three of its ticks for each processor cycle.
pub const PPU_TICKS_PER_CPU_CYCLE: u32 = 3;

/// The whole machine.
#[derive(Debug)]
pub struct Console {
    pub cpu: Cpu,
    pub bus: Bus,
    pub ppu: Ppu,
    pub rom: Rom,
}

/// Mathematical image of the whole machine.
#[verifier::ext_equal]
pub ghost struct ConsoleView {
    pub cpu: Cpu,
    pub ram: Seq<u8>,
    pub ppu: PpuView,
    pub rom: RomView,
}

impl View for Console {
    type V = ConsoleView;

    open spec fn view(&self) -> ConsoleView {
        ConsoleView { cpu: self.cpu, ram: self.bus.cpu_ram@, ppu: self.ppu@, rom: self.rom@ }
    }
}

/// Well-formedness of the machine: work RAM has its hardware size, the
/// graphics chip is well-formed, and the cartridge program data is one or
/// two banks, as the bus's mirroring rules require.
pub open spec fn console_wf(c: ConsoleView) -> bool {
    &&& c.ram.len() == 2048
    &&& ppu_wf(c.ppu)
    &&& (c.rom.program_rom.len() == PROGRAM_ROM_PAGE_SIZE || c.rom.program_rom.len()
        == 2 * PROGRAM_ROM_PAGE_SIZE)
}

impl Console {
    /// Well-formedness of the machine's state.
    pub open spec fn wf(&self) -> bool {
        console_wf(self@)
    }
}

/// The machine after one turn of the canonical per-instruction sequence,
/// with whether a frame completed or the fault: poll the graphics chip's
/// interrupt request and service it before anything else; fetch the next
/// opcode; look it up; execute it; advance the graphics chip by three
/// ticks per cycle the instruction cost.
pub open spec fn spec_run_instruction(c: ConsoleView, table: Seq<Instruction>) -> (
    ConsoleView,
    Result<bool, EmuError>,
) {
    let (polled, pending) = crate::ppu::spec_poll_nmi(c.ppu);
    let c1 = ConsoleView { ppu: polled, ..c };
    let c2 = if pending {
        crate::cpu::spec_nmi(c1)
    } else {
        c1
    };
    let (c3, fetched) = crate::bus::spec_bus_read8(c2, c2.cpu.pc);
    match fetched {
        Ok(opcode) => match crate::instruction::spec_find_instruction(table, opcode) {
            Some(ins) => {
                let (c4, stepped) = crate::execute::spec_step(c3, ins);
                match stepped {
                    Ok(_) => {
                        let (ticked, frame) = crate::ppu::spec_ppu_tick(
                            c4.ppu,
                            (ins.cycles * PPU_TICKS_PER_CPU_CYCLE) as u32,
                        );
                        (ConsoleView { ppu: ticked, ..c4 }, Ok(frame))
                    },
                    Err(e) => (c4, Err(e)),
                }
            },
            None => (c3, Err(EmuError::UnknownOpcode(opcode))),
        },
        Err(e) => (c3, Err(e)),
    }
}

/// Run one turn of the canonical per-instruction sequence: interrupt poll
/// and service first, then fetch, look up, execute, and advance the
/// graphics chip by the instruction's cycle cost.  Reports whether the
/// advance completed a frame.
#[verifier::rlimit(100)]
#[verifier::spinoff_prover]
pub fn run_instruction(console: &mut Console, instructions: &Vec<Instruction>) -> (r: Result<
    bool,
    EmuError,
>)
    requires
        old(console).wf(),
        old(console)@.ppu.cycles + 771 <= u32::MAX,
    ensures
        final(console).wf(),
        (final(console)@, r) == spec_run_instruction(old(console)@, instructions@),
{
    let pending = crate::ppu::poll_nmi_status(&mut console.ppu);
    if pending {
        crate::cpu::nmi_interrupt(console);
    }
    proof {
        assert(console@.ppu.cycles <= old(console)@.ppu.cycles + 6);
    }
    let opcode = match crate::bus::read_u8(console, console.cpu.pc) {
        Ok(v) => v,
        Err(e) => {
            return Err(e);
        },
    };
    let ins = match crate::instruction::find_instruction(instructions, opcode) {
        Some(ins) => ins,
        None => {
            return Err(EmuError::UnknownOpcode(opcode));
        },
    };
    match crate::execute::step(console, &ins) {
        Ok(_) => {},
        Err(e) => {
            return Err(e);
        },
    }
    let frame = console.ppu.tick(ins.cycles as u32 * PPU_TICKS_PER_CPU_CYCLE);
    Ok(frame)
}

} // verus!

//! The graphics chip (PPU): its register file, video RAM with nametable
//! mirroring, object-attribute memory, palette table, and the
//! scanline-driven VBlank / NMI timing model.

use crate::bytes::zero_vec;
use crate::config::CHR_ROM_PAGE_SIZE;
use crate::errors::EmuError;
use crate::rom::{Mirroring, Rom};
use vstd::prelude::*;

verus! {

/// Cycles in one scanline.
pub const CYCLES_PER_SCANLINE: u32 = 341;

/// Scanline at which the vertical blank begins.
pub const VBLANK_SCANLINE: u32 = 241;

/// Scanline count of a whole frame.
pub const SCANLINES_PER_FRAME: u32 = 262;

/// The control register: a stored byte whose bits select nametable base,
/// address-increment amount, pattern banks, sprite size and NMI enable.
#[derive(Clone, Copy, Debug, PartialEq, Eq, Structural)]
pub struct ControlRegister {
    pub bits: u8,
}

/// Whether the control byte enables the NMI at VBlank start (bit 7).
pub open spec fn spec_ctrl_generate_nmi(bits: u8) -> bool {
    bits / 128 % 2 == 1
}

/// The video-address increment the control byte selects (bit 2): 1 going
/// across, 32 going down.
pub open spec fn spec_ctrl_increment_amount(bits: u8) -> u8 {
    if bits / 4 % 2 == 1 {
        32
    } else {
        1
    }
}

/// The background pattern bank the control byte selects (bit 4).
pub open spec fn spec_ctrl_background_offset(bits: u8) -> u16 {
    if bits / 16 % 2 == 1 {
        0x1000
    } else {
        0
    }
}

impl ControlRegister {
    /// The register in its power-on state, all bits clear.
    pub fn new() -> (r: ControlRegister)
        ensures
            r.bits == 0,
    {
        ControlRegister { bits: 0 }
    }

    /// Base address of the background pattern bank.
    pub fn background_pattern_offset(&self) -> (r: u16)
        ensures
            r == spec_ctrl_background_offset(self.bits),
    {
        if self.bits / 16 % 2 == 1 {
            0x1000
        } else {
            0
        }
    }

    /// How far a data-port access moves the video address.
    pub fn vram_address_increment_amount(&self) -> (r: u8)
        ensures
            r == spec_ctrl_increment_amount(self.bits),
    {
        if self.bits / 4 % 2 == 1 {
            32
        } else {
            1
        }
    }

    /// Whether the NMI at VBlank start is enabled.
    pub fn generate_nmi(&self) -> (r: bool)
        ensures
            r == spec_ctrl_generate_nmi(self.bits),
    {
        self.bits / 128 % 2 == 1
    }
}

/// The mask register: rendering-enable bits, stored but not interpreted by
/// this core (rendering is an external collaborator).
#[derive(Clone, Copy, Debug, PartialEq, Eq, Structural)]
pub struct MaskRegister {
    pub bits: u8,
}

impl MaskRegister {
    /// The register in its power-on state, all bits clear.
    pub fn new() -> (r: MaskRegister)
        ensures
            r.bits == 0,
    {
        MaskRegister { bits: 0 }
    }
}

/// The status register.  Bit 7 is VBlank-started; bits 6 and 5 are the
/// sprite-zero-hit and sprite-overflow positions, defined in the layout
/// but left inert because sprite evaluation is out of scope.
#[derive(Clone, Copy, Debug, PartialEq, Eq, Structural)]
pub struct StatusRegister {
    pub vblank_started: bool,
    pub sprite_zero_hit: bool,
    pub sprite_overflow: bool,
}

/// The byte the status register reads as.
pub open spec fn spec_status_bits(s: StatusRegister) -> u8 {
    ((if s.vblank_started { 128int } else { 0int }) + (if s.sprite_zero_hit { 64int } else { 0int })
        + (if s.sprite_overflow { 32int } else { 0int })) as u8
}

impl StatusRegister {
    /// The register in its power-on state, all bits clear.
    pub fn new() -> (r: StatusRegister)
        ensures
            r == (StatusRegister { vblank_started: false, sprite_zero_hit: false, sprite_overflow: false }),
    {
        StatusRegister { vblank_started: false, sprite_zero_hit: false, sprite_overflow: false }
    }

    /// Pack the status bits into their memory-visible byte.
    pub fn bits(&self) -> (r: u8)
        ensures
            r == spec_status_bits(*self),
    {
        (if self.vblank_started {
            128u8
        } else {
            0u8
        }) + (if self.sprite_zero_hit {
            64u8
        } else {
            0u8
        }) + (if self.sprite_overflow {
            32u8
        } else {
            0u8
        })
    }
}

/// The two-write scroll register with its first-write toggle.
#[derive(Clone, Copy, Debug, PartialEq, Eq, Structural)]
pub struct ScrollRegister {
    pub x_scroll: u8,
    pub y_scroll: u8,
    pub x_scroll_active: bool,
}

/// The scroll register after one write: the active half takes the value
/// and the toggle flips.
pub open spec fn spec_scroll_update(s: ScrollRegister, value: u8) -> ScrollRegister {
    if s.x_scroll_active {
        ScrollRegister { x_scroll: value, x_scroll_active: false, ..s }
    } else {
        ScrollRegister { y_scroll: value, x_scroll_active: true, ..s }
    }
}

impl ScrollRegister {
    /// The register in its power-on state: zero scroll, first write next.
    pub fn new() -> (r: ScrollRegister)
        ensures
            r == (ScrollRegister { x_scroll: 0, y_scroll: 0, x_scroll_active: true }),
    {
        ScrollRegister { x_scroll: 0, y_scroll: 0, x_scroll_active: true }
    }

    /// Write one half: X-scroll on the first write, Y-scroll on the
    /// second; the toggle alternates on each write.
    pub fn update(&mut self, value: u8)
        ensures
            *final(self) == spec_scroll_update(*old(self), value),
    {
        if self.x_scroll_active {
            self.x_scroll = value;
        } else {
            self.y_scroll = value;
        }
        self.x_scroll_active = !self.x_scroll_active;
    }

    /// Force the next write back to the X half.
    pub fn reset_latch(&mut self)
        ensures
            *final(self) == (ScrollRegister { x_scroll_active: true, ..*old(self) }),
    {
        self.x_scroll_active = true;
    }
}

/// The two-write video-address register: high byte then low byte, with a
/// first-write toggle and a mirror-down mask keeping the address under
/// 0x4000.
#[derive(Clone, Copy, Debug, PartialEq, Eq, Structural)]
pub struct AddressRegister {
    pub high_byte: u8,
    pub low_byte: u8,
    pub high_byte_active: bool,
}

/// The 16-bit address the register currently holds.
pub open spec fn spec_addr_get(r: AddressRegister) -> u16 {
    (r.high_byte * 256 + r.low_byte) as u16
}

/// The register holding `value`, toggle untouched.
pub open spec fn spec_addr_with_value(r: AddressRegister, value: int) -> AddressRegister
    recommends
        0 <= value < 0x10000,
{
    AddressRegister { high_byte: (value / 256) as u8, low_byte: (value % 256) as u8, ..r }
}

/// The register after one write: the active byte takes the value, the
/// toggle flips, and the result is mirrored down under 0x4000.
pub open spec fn spec_addr_update(r: AddressRegister, value: u8) -> AddressRegister {
    let written = if r.high_byte_active {
        AddressRegister { high_byte: value, high_byte_active: false, ..r }
    } else {
        AddressRegister { low_byte: value, high_byte_active: true, ..r }
    };
    spec_addr_with_value(written, spec_addr_get(written) as int % 0x4000)
}

/// The register after an increment: the sum wraps at 16 bits and is then
/// mirrored down under 0x4000.
pub open spec fn spec_addr_increment(r: AddressRegister, amount: u8) -> AddressRegister {
    let wrapped = (spec_addr_get(r) + amount) % 0x10000;
    spec_addr_with_value(r, wrapped % 0x4000)
}

impl AddressRegister {
    /// The register in its power-on state: address zero, high byte next.
    pub fn new() -> (r: AddressRegister)
        ensures
            r == (AddressRegister { high_byte: 0, low_byte: 0, high_byte_active: true }),
    {
        AddressRegister { high_byte: 0, low_byte: 0, high_byte_active: true }
    }

    /// The address currently held.
    pub fn get(&self) -> (r: u16)
        ensures
            r == spec_addr_get(*self),
    {
        self.high_byte as u16 * 256 + self.low_byte as u16
    }

    fn set(&mut self, value: u16)
        ensures
            *final(self) == spec_addr_with_value(*old(self), value as int),
    {
        self.high_byte = (value / 256) as u8;
        self.low_byte = (value % 256) as u8;
    }

    fn mirror_down(&mut self)
        ensures
            *final(self) == spec_addr_with_value(
                *old(self),
                spec_addr_get(*old(self)) as int % 0x4000,
            ),
    {
        let mirrored = self.get() % 0x4000;
        self.set(mirrored);
    }

    /// Write one byte: high on the first write, low on the second, then
    /// mirror the address down.
    pub fn update(&mut self, value: u8)
        ensures
            *final(self) == spec_addr_update(*old(self), value),
    {
        if self.high_byte_active {
            self.high_byte = value;
        } else {
            self.low_byte = value;
        }
        self.high_byte_active = !self.high_byte_active;
        self.mirror_down();
    }

    /// Move the address forward, wrapping at 16 bits and mirroring down.
    pub fn increment(&mut self, amount: u8)
        ensures
            *final(self) == spec_addr_increment(*old(self), amount),
    {
        let value = self.get().wrapping_add(amount as u16);
        self.set(value);
        self.mirror_down();
    }

    /// Force the next write back to the high byte.
    pub fn reset_latch(&mut self)
        ensures
            *final(self) == (AddressRegister { high_byte_active: true, ..*old(self) }),
    {
        self.high_byte_active = true;
    }
}

/// Mathematical image of the graphics chip.
#[verifier::ext_equal]
pub ghost struct PpuView {
    pub chr_rom: Seq<u8>,
    pub palette_table: Seq<u8>,
    pub vram: Seq<u8>,
    pub oam: Seq<u8>,
    pub mirroring: Mirroring,
    pub control: ControlRegister,
    pub mask: MaskRegister,
    pub status: StatusRegister,
    pub oam_address: u8,
    pub scroll: ScrollRegister,
    pub vram_address: AddressRegister,
    pub nmi_interrupt: bool,
    pub data_buffer: u8,
    pub cycles: u32,
    pub scanline: u32,
}

/// Well-formedness of the graphics chip: the fixed memories have their
/// hardware sizes, the video address stays mirrored down, and the
/// scanline counter stays inside one frame.
pub open spec fn ppu_wf(p: PpuView) -> bool {
    &&& p.palette_table.len() == 32
    &&& p.vram.len() == 2048
    &&& p.oam.len() == 256
    &&& p.vram_address.high_byte < 0x40
    &&& p.scanline < SCANLINES_PER_FRAME
}

/// The physical video-RAM index a nametable address folds to, or the
/// failure for the mirroring mode this core does not fold.
///
/// Horizontal pairs tables {0,1} on bank 0 and {2,3} on bank 1; vertical
/// pairs {0,2} on bank 0 and {1,3} on bank 1.
pub open spec fn spec_mirror_down_vram(m: Mirroring, address: u16) -> Result<u16, EmuError>
    recommends
        0x2000 <= address <= 0x2FFF,
{
    let nametable_index = (address - 0x2000) / 0x400;
    let nametable_offset = address % 0x400;
    match m {
        Mirroring::Horizontal => {
            if nametable_index <= 1 {
                Ok(nametable_offset as u16)
            } else {
                Ok((0x400 + nametable_offset) as u16)
            }
        },
        Mirroring::Vertical => {
            if nametable_index == 0 || nametable_index == 2 {
                Ok(nametable_offset as u16)
            } else {
                Ok((0x400 + nametable_offset) as u16)
            }
        },
        Mirroring::FourScreen => Err(EmuError::UnsupportedMirroring(address)),
    }
}

/// The chip after a control write: the byte is stored, and turning the
/// NMI-enable bit on while VBlank status is already set raises the
/// interrupt request at once.
pub open spec fn spec_ppu_write_control(p: PpuView, value: u8) -> PpuView {
    let was_enabled = spec_ctrl_generate_nmi(p.control.bits);
    let now_enabled = spec_ctrl_generate_nmi(value);
    PpuView {
        control: ControlRegister { bits: value },
        nmi_interrupt: p.nmi_interrupt || (!was_enabled && now_enabled && p.status.vblank_started),
        ..p
    }
}

/// The chip after a mask write: the byte is stored.
pub open spec fn spec_ppu_write_mask(p: PpuView, value: u8) -> PpuView {
    PpuView { mask: MaskRegister { bits: value }, ..p }
}

/// The chip after an OAM-address write: the cursor moves.
pub open spec fn spec_ppu_write_oam_address(p: PpuView, value: u8) -> PpuView {
    PpuView { oam_address: value, ..p }
}

/// The chip after an OAM-data write: the byte lands at the cursor and the
/// cursor advances, wrapping at 256.
pub open spec fn spec_ppu_write_oam_data(p: PpuView, value: u8) -> PpuView {
    PpuView {
        oam: p.oam.update(p.oam_address as int, value),
        oam_address: ((p.oam_address + 1) % 256) as u8,
        ..p
    }
}

/// The chip after a scroll write.
pub open spec fn spec_ppu_write_scroll(p: PpuView, value: u8) -> PpuView {
    PpuView { scroll: spec_scroll_update(p.scroll, value), ..p }
}

/// The chip after a video-address write.
pub open spec fn spec_ppu_write_vram_address(p: PpuView, value: u8) -> PpuView {
    PpuView { vram_address: spec_addr_update(p.vram_address, value), ..p }
}

/// The chip with its video address moved by the configured amount.
pub open spec fn spec_ppu_increment_address(p: PpuView) -> PpuView {
    PpuView {
        vram_address: spec_addr_increment(
            p.vram_address,
            spec_ctrl_increment_amount(p.control.bits),
        ),
        ..p
    }
}

/// The chip after a data-port write, or the fault: the pattern table is
/// read-only, the region behind the nametables is unused, and four-screen
/// mirroring is not folded.  A successful write lands at the mirrored
/// address and moves the video address by the configured amount.
pub open spec fn spec_ppu_write_data(p: PpuView, value: u8) -> (PpuView, Result<(), EmuError>) {
    let address = spec_addr_get(p.vram_address);
    if address <= 0x1FFF {
        (p, Err(EmuError::PatternTableWrite(address)))
    } else if address <= 0x2FFF {
        match spec_mirror_down_vram(p.mirroring, address) {
            Ok(idx) => (
                spec_ppu_increment_address(PpuView { vram: p.vram.update(idx as int, value), ..p }),
                Ok(()),
            ),
            Err(e) => (p, Err(e)),
        }
    } else if address <= 0x3EFF {
        (p, Err(EmuError::UnusedVideoAddress(address)))
    } else if address <= 0x3FFF {
        (
            spec_ppu_increment_address(
                PpuView {
                    palette_table: p.palette_table.update((address - 0x3F00) % 32, value),
                    ..p
                },
            ),
            Ok(()),
        )
    } else {
        (p, Err(EmuError::UnusedVideoAddress(address)))
    }
}

/// The chip after a data-port read, or the fault.  Pattern and nametable
/// reads return the stale buffered byte and refill the buffer from the
/// addressed byte; palette reads return their byte immediately.  A
/// successful read moves the video address by the configured amount.
pub open spec fn spec_ppu_read_data(p: PpuView) -> (PpuView, Result<u8, EmuError>) {
    let address = spec_addr_get(p.vram_address);
    if address <= 0x1FFF {
        if address < p.chr_rom.len() {
            (
                spec_ppu_increment_address(
                    PpuView { data_buffer: p.chr_rom[address as int], ..p },
                ),
                Ok(p.data_buffer),
            )
        } else {
            (p, Err(EmuError::PatternTableRead(address)))
        }
    } else if address <= 0x2FFF {
        match spec_mirror_down_vram(p.mirroring, address) {
            Ok(idx) => (
                spec_ppu_increment_address(PpuView { data_buffer: p.vram[idx as int], ..p }),
                Ok(p.data_buffer),
            ),
            Err(e) => (p, Err(e)),
        }
    } else if address <= 0x3EFF {
        (p, Err(EmuError::UnusedVideoAddress(address)))
    } else if address <= 0x3FFF {
        (spec_ppu_increment_address(p), Ok(p.palette_table[(address - 0x3F00) % 32]))
    } else {
        (p, Err(EmuError::UnusedVideoAddress(address)))
    }
}

/// The chip after a status read: the value is the packed status byte, then
/// VBlank status clears and both write toggles reset to their first-write
/// state.
pub open spec fn spec_ppu_read_status(p: PpuView) -> (PpuView, u8) {
    (
        PpuView {
            status: StatusRegister { vblank_started: false, ..p.status },
            scroll: ScrollRegister { x_scroll_active: true, ..p.scroll },
            vram_address: AddressRegister { high_byte_active: true, ..p.vram_address },
            ..p
        },
        spec_status_bits(p.status),
    )
}

/// The object-attribute memory after a sprite DMA: the first `k` bytes of
/// the page written at the cursor onward, wrapping at 256.
pub open spec fn spec_dma_fill(oam: Seq<u8>, start: u8, data: Seq<u8>, k: int) -> Seq<u8>
    decreases k,
{
    if k <= 0 {
        oam
    } else {
        spec_dma_fill(oam, start, data, k - 1).update((start + (k - 1)) % 256, data[k - 1])
    }
}

/// The chip after a sprite DMA: the whole 256-byte page lands in OAM
/// starting at the cursor, wrapping, and the cursor comes back around to
/// where it started.
pub open spec fn spec_ppu_write_oam_dma(p: PpuView, data: Seq<u8>) -> PpuView
    recommends
        data.len() == 256,
{
    PpuView { oam: spec_dma_fill(p.oam, p.oam_address, data, 256), ..p }
}

/// The chip after advancing by `cycles`: once the accumulator crosses one
/// scanline's budget it rolls over and the scanline counter advances.
/// Entering the VBlank scanline sets VBlank status and, when enabled,
/// raises the NMI request; reaching the end of the frame resets the
/// counter, clears VBlank status, forces the request off, and reports the
/// completed frame.
pub open spec fn spec_ppu_tick(p: PpuView, cycles: u32) -> (PpuView, bool)
    recommends
        p.cycles + cycles <= u32::MAX,
        p.scanline < SCANLINES_PER_FRAME,
{
    let accumulated = (p.cycles + cycles) as u32;
    let crossed = accumulated >= CYCLES_PER_SCANLINE;
    let new_cycles = if crossed {
        (accumulated - CYCLES_PER_SCANLINE) as u32
    } else {
        accumulated
    };
    let new_scanline = if crossed {
        (p.scanline + 1) as u32
    } else {
        p.scanline
    };
    let entered_vblank = crossed && new_scanline == VBLANK_SCANLINE;
    let status1 = if entered_vblank {
        StatusRegister { vblank_started: true, ..p.status }
    } else {
        p.status
    };
    let nmi1 = if entered_vblank && spec_ctrl_generate_nmi(p.control.bits) {
        true
    } else {
        p.nmi_interrupt
    };
    if new_scanline >= SCANLINES_PER_FRAME {
        (
            PpuView {
                cycles: new_cycles,
                scanline: 0,
                status: StatusRegister { vblank_started: false, ..status1 },
                nmi_interrupt: false,
                ..p
            },
            true,
        )
    } else {
        (
            PpuView { cycles: new_cycles, scanline: new_scanline, status: status1, nmi_interrupt: nmi1, ..p },
            false,
        )
    }
}

/// The chip after an NMI poll: the request flag is returned and cleared.
pub open spec fn spec_poll_nmi(p: PpuView) -> (PpuView, bool) {
    (PpuView { nmi_interrupt: false, ..p }, p.nmi_interrupt)
}

/// The graphics chip: pattern data, video RAM, object-attribute memory,
/// palette table, register file, and the scanline/dot counter.
#[derive(Debug)]
pub struct Ppu {
    pub chr_rom: Vec<u8>,
    pub palette_table: Vec<u8>,
    pub vram: Vec<u8>,
    pub oam: Vec<u8>,
    pub mirroring: Mirroring,
    pub control: ControlRegister,
    pub mask: MaskRegister,
    pub status: StatusRegister,
    pub oam_address: u8,
    pub scroll: ScrollRegister,
    pub vram_address: AddressRegister,
    pub nmi_interrupt: bool,
    pub data_buffer: u8,
    pub cycles: u32,
    pub scanline: u32,
}

impl View for Ppu {
    type V = PpuView;

    open spec fn view(&self) -> PpuView {
        PpuView {
            chr_rom: self.chr_rom@,
            palette_table: self.palette_table@,
            vram: self.vram@,
            oam: self.oam@,
            mirroring: self.mirroring,
            control: self.control,
            mask: self.mask,
            status: self.status,
            oam_address: self.oam_address,
            scroll: self.scroll,
            vram_address: self.vram_address,
            nmi_interrupt: self.nmi_interrupt,
            data_buffer: self.data_buffer,
            cycles: self.cycles,
            scanline: self.scanline,
        }
    }
}

impl Ppu {
    /// Well-formedness of the chip's state.
    pub open spec fn wf(&self) -> bool {
        ppu_wf(self@)
    }

    /// A chip in its power-on state over the given pattern data and
    /// mirroring mode.
    pub fn new_chr_rom_mirroring(chr_rom: Vec<u8>, mirroring: Mirroring) -> (r: Ppu)
        ensures
            r.wf(),
            r@ == Self::spec_power_on(chr_rom@, mirroring),
    {
        Ppu {
            chr_rom,
            palette_table: zero_vec(32),
            vram: zero_vec(2048),
            oam: zero_vec(256),
            mirroring,
            control: ControlRegister::new(),
            mask: MaskRegister::new(),
            status: StatusRegister::new(),
            oam_address: 0,
            scroll: ScrollRegister::new(),
            vram_address: AddressRegister::new(),
            nmi_interrupt: false,
            data_buffer: 0,
            cycles: 0,
            scanline: 0,
        }
    }

    /// A chip in its power-on state over a cartridge's pattern data.
    pub fn new(rom: &Rom) -> (r: Ppu)
        ensures
            r.wf(),
            r@.chr_rom == rom@.chr_rom,
            r@.mirroring == rom@.mirroring,
            r@ == Self::spec_power_on(rom@.chr_rom, rom@.mirroring),
    {
        let mut chr: Vec<u8> = Vec::new();
        chr.extend_from_slice(rom.chr_rom.as_slice());
        proof {
            assert(chr@ =~= rom.chr_rom@);
        }
        Self::new_chr_rom_mirroring(chr, rom.mirroring)
    }

    /// The power-on state over given pattern data and mirroring.
    pub open spec fn spec_power_on(chr_rom: Seq<u8>, mirroring: Mirroring) -> PpuView {
        PpuView {
            chr_rom: chr_rom,
            palette_table: Seq::new(32, |i: int| 0u8),
            vram: Seq::new(2048, |i: int| 0u8),
            oam: Seq::new(256, |i: int| 0u8),
            mirroring: mirroring,
            control: ControlRegister { bits: 0 },
            mask: MaskRegister { bits: 0 },
            status: StatusRegister {
                vblank_started: false,
                sprite_zero_hit: false,
                sprite_overflow: false,
            },
            oam_address: 0,
            scroll: ScrollRegister { x_scroll: 0, y_scroll: 0, x_scroll_active: true },
            vram_address: AddressRegister { high_byte: 0, low_byte: 0, high_byte_active: true },
            nmi_interrupt: false,
            data_buffer: 0,
            cycles: 0,
            scanline: 0,
        }
    }

    /// A chip over one blank pattern bank with horizontal mirroring, for
    /// exercising the register file without a cartridge.
    pub fn new_empty_rom() -> (r: Ppu)
        ensures
            r.wf(),
            r@ == Self::spec_power_on(
                Seq::new(CHR_ROM_PAGE_SIZE as nat, |i: int| 0u8),
                Mirroring::Horizontal,
            ),
    {
        Self::new_chr_rom_mirroring(zero_vec(CHR_ROM_PAGE_SIZE as usize), Mirroring::Horizontal)
    }

    /// Store the control byte; turning NMI-enable on inside VBlank raises
    /// the interrupt request at once.
    pub fn write_to_control(&mut self, value: u8)
        requires
            old(self).wf(),
        ensures
            final(self).wf(),
            final(self)@ == spec_ppu_write_control(old(self)@, value),
    {
        let nmi_before_write = self.control.generate_nmi();
        self.control = ControlRegister { bits: value };
        let nmi_after_write = self.control.generate_nmi();
        if !nmi_before_write && nmi_after_write && self.status.vblank_started {
            self.nmi_interrupt = true;
        }
    }

    /// Store the mask byte.
    pub fn write_to_mask(&mut self, value: u8)
        requires
            old(self).wf(),
        ensures
            final(self).wf(),
            final(self)@ == spec_ppu_write_mask(old(self)@, value),
    {
        self.mask = MaskRegister { bits: value };
    }

    /// Move the OAM cursor.
    pub fn write_to_oam_address(&mut self, value: u8)
        requires
            old(self).wf(),
        ensures
            final(self).wf(),
            final(self)@ == spec_ppu_write_oam_address(old(self)@, value),
    {
        self.oam_address = value;
    }

    /// Store a byte at the OAM cursor and advance the cursor, wrapping.
    pub fn write_to_oam_data(&mut self, value: u8)
        requires
            old(self).wf(),
        ensures
            final(self).wf(),
            final(self)@ == spec_ppu_write_oam_data(old(self)@, value),
    {
        self.oam.set(self.oam_address as usize, value);
        self.oam_address = self.oam_address.wrapping_add(1);
    }

    /// Write one half of the scroll position.
    pub fn write_to_scroll(&mut self, value: u8)
        requires
            old(self).wf(),
        ensures
            final(self).wf(),
            final(self)@ == spec_ppu_write_scroll(old(self)@, value),
    {
        self.scroll.update(value);
    }

    /// Write one half of the video address.
    pub fn write_to_vram_address(&mut self, value: u8)
        requires
            old(self).wf(),
        ensures
            final(self).wf(),
            final(self)@ == spec_ppu_write_vram_address(old(self)@, value),
    {
        self.vram_address.update(value);
    }

    /// Write through the data port at the current video address, then move
    /// the address by the configured amount.  Fails on the read-only
    /// pattern table, the unused region, and unfolded mirroring; on
    /// failure the chip is unchanged.
    pub fn write_to_data(&mut self, value: u8) -> (r: Result<(), EmuError>)
        requires
            old(self).wf(),
        ensures
            final(self).wf(),
            (final(self)@, r) == spec_ppu_write_data(old(self)@, value),
    {
        let address = self.vram_address.get();
        if address <= 0x1FFF {
            Err(EmuError::PatternTableWrite(address))
        } else if address <= 0x2FFF {
            let idx = match self.mirror_down_vram(address) {
                Ok(idx) => idx,
                Err(e) => {
                    return Err(e);
                },
            };
            self.vram.set(idx as usize, value);
            self.increment_address();
            Ok(())
        } else if address <= 0x3EFF {
            Err(EmuError::UnusedVideoAddress(address))
        } else {
            self.palette_table.set(((address - 0x3F00) % 32) as usize, value);
            self.increment_address();
            Ok(())
        }
    }

    /// Copy a full 256-byte page into OAM starting at the cursor,
    /// wrapping; the cursor comes back around to where it started.
    pub fn write_to_oam_dma(&mut self, data: &Vec<u8>)
        requires
            old(self).wf(),
            data@.len() == 256,
        ensures
            final(self).wf(),
            final(self)@ == spec_ppu_write_oam_dma(old(self)@, data@),
    {
        let ghost start: u8 = self.oam_address;
        let mut i: usize = 0;
        while i < 256
            invariant
                i <= 256,
                data@.len() == 256,
                ppu_wf(self@),
                self.oam_address as int == (start + i) % 256,
                self@ =~= (PpuView {
                    oam: spec_dma_fill(old(self)@.oam, start, data@, i as int),
                    oam_address: (((start + i) % 256) as u8),
                    ..old(self)@
                }),
            decreases 256 - i,
        {
            self.oam.set(self.oam_address as usize, data[i]);
            self.oam_address = self.oam_address.wrapping_add(1);
            i = i + 1;
            proof {
                assert(self@ =~= (PpuView {
                    oam: spec_dma_fill(old(self)@.oam, start, data@, i as int),
                    oam_address: (((start + i) % 256) as u8),
                    ..old(self)@
                }));
            }
        }
        proof {
            assert(self@ =~= spec_ppu_write_oam_dma(old(self)@, data@));
        }
    }

    /// Read the status byte; the read clears VBlank status and resets both
    /// write toggles to their first-write state.
    pub fn read_from_status(&mut self) -> (r: u8)
        requires
            old(self).wf(),
        ensures
            final(self).wf(),
            (final(self)@, r) == spec_ppu_read_status(old(self)@),
    {
        let value = self.status.bits();
        self.status.vblank_started = false;
        self.vram_address.reset_latch();
        self.scroll.reset_latch();
        value
    }

    /// Read the byte at the OAM cursor; the cursor does not move.
    pub fn read_from_oam_data(&self) -> (r: u8)
        requires
            self.wf(),
        ensures
            r == self@.oam[self@.oam_address as int],
    {
        self.oam[self.oam_address as usize]
    }

    /// Read through the data port at the current video address, then move
    /// the address by the configured amount.  Pattern and nametable reads
    /// go through the one-read-delay buffer; palette reads are immediate.
    /// On failure the chip is unchanged.
    pub fn read_from_data(&mut self) -> (r: Result<u8, EmuError>)
        requires
            old(self).wf(),
        ensures
            final(self).wf(),
            (final(self)@, r) == spec_ppu_read_data(old(self)@),
    {
        let address = self.vram_address.get();
        if address <= 0x1FFF {
            if (address as usize) < self.chr_rom.len() {
                let result = self.data_buffer;
                self.data_buffer = self.chr_rom[address as usize];
                self.increment_address();
                Ok(result)
            } else {
                Err(EmuError::PatternTableRead(address))
            }
        } else if address <= 0x2FFF {
            let idx = match self.mirror_down_vram(address) {
                Ok(idx) => idx,
                Err(e) => {
                    return Err(e);
                },
            };
            let result = self.data_buffer;
            self.data_buffer = self.vram[idx as usize];
            self.increment_address();
            Ok(result)
        } else if address <= 0x3EFF {
            Err(EmuError::UnusedVideoAddress(address))
        } else {
            let result = self.palette_table[((address - 0x3F00) % 32) as usize];
            self.increment_address();
            Ok(result)
        }
    }

    /// Advance the dot/scanline counter by elapsed cycles; report whether
    /// a frame just completed.
    pub fn tick(&mut self, cycles: u32) -> (r: bool)
        requires
            old(self).wf(),
            old(self)@.cycles + cycles <= u32::MAX,
        ensures
            final(self).wf(),
            (final(self)@, r) == spec_ppu_tick(old(self)@, cycles),
    {
        self.cycles = self.cycles + cycles;
        let crossed = self.cycles >= CYCLES_PER_SCANLINE;
        if crossed {
            self.cycles = self.cycles - CYCLES_PER_SCANLINE;
            self.scanline = self.scanline + 1;
            if self.scanline == VBLANK_SCANLINE {
                self.status.vblank_started = true;
                if self.control.generate_nmi() {
                    self.nmi_interrupt = true;
                }
            }
        }
        if self.scanline >= SCANLINES_PER_FRAME {
            self.scanline = 0;
            self.nmi_interrupt = false;
            self.status.vblank_started = false;
            return true;
        }
        false
    }

    fn increment_address(&mut self)
        ensures
            final(self)@ == spec_ppu_increment_address(old(self)@),
    {
        let amount = self.control.vram_address_increment_amount();
        self.vram_address.increment(amount);
    }

    fn mirror_down_vram(&self, address: u16) -> (r: Result<u16, EmuError>)
        requires
            0x2000 <= address <= 0x2FFF,
        ensures
            r == spec_mirror_down_vram(self@.mirroring, address),
            r matches Ok(idx) ==> idx < 0x800,
    {
        let nametable_index = (address - 0x2000) / 0x400;
        let nametable_offset = address % 0x400;
        match self.mirroring {
            Mirroring::Horizontal => {
                if nametable_index <= 1 {
                    Ok(nametable_offset)
                } else {
                    Ok(0x400 + nametable_offset)
                }
            },
            Mirroring::Vertical => {
                if nametable_index == 0 || nametable_index == 2 {
                    Ok(nametable_offset)
                } else {
                    Ok(0x400 + nametable_offset)
                }
            },
            Mirroring::FourScreen => Err(EmuError::UnsupportedMirroring(address)),
        }
    }
}

/// Return the NMI request flag and clear it.
pub fn poll_nmi_status(ppu: &mut Ppu) -> (r: bool)
    requires
        old(ppu).wf(),
    ensures
        final(ppu).wf(),
        (final(ppu)@, r) == spec_poll_nmi(old(ppu)@),
{
    if ppu.nmi_interrupt {
        ppu.nmi_interrupt = false;
        true
    } else {
        false
    }
}


/// Crossing into the VBlank scanline sets VBlank status and raises the
/// NMI request exactly when the control register's NMI-enable bit is set;
/// the frame is not yet complete.
pub proof fn lemma_tick_enters_vblank(p: PpuView, cycles: u32)
    requires
        ppu_wf(p),
        p.cycles + cycles <= u32::MAX,
        p.scanline == VBLANK_SCANLINE - 1,
        p.cycles + cycles >= CYCLES_PER_SCANLINE,
    ensures
        spec_ppu_tick(p, cycles).0.scanline == VBLANK_SCANLINE,
        spec_ppu_tick(p, cycles).0.status.vblank_started,
        spec_ppu_tick(p, cycles).0.nmi_interrupt == (p.nmi_interrupt || spec_ctrl_generate_nmi(
            p.control.bits,
        )),
        spec_ppu_tick(p, cycles).1 == false,
{
}

/// Advancing anywhere else inside the frame neither raises the NMI
/// request nor touches VBlank status: the request is an edge at the
/// VBlank scanline, raised once per frame.
pub proof fn lemma_tick_no_retrigger(p: PpuView, cycles: u32)
    requires
        ppu_wf(p),
        p.cycles + cycles <= u32::MAX,
        p.scanline != VBLANK_SCANLINE - 1,
        p.scanline != SCANLINES_PER_FRAME - 1,
    ensures
        spec_ppu_tick(p, cycles).0.nmi_interrupt == p.nmi_interrupt,
        spec_ppu_tick(p, cycles).0.status.vblank_started == p.status.vblank_started,
        spec_ppu_tick(p, cycles).1 == false,
{
}

/// Crossing the end of the frame resets the scanline counter, clears
/// VBlank status, forces the NMI request off, and reports the completed
/// frame.
pub proof fn lemma_tick_frame_end(p: PpuView, cycles: u32)
    requires
        ppu_wf(p),
        p.cycles + cycles <= u32::MAX,
        p.scanline == SCANLINES_PER_FRAME - 1,
        p.cycles + cycles >= CYCLES_PER_SCANLINE,
    ensures
        spec_ppu_tick(p, cycles).0.scanline == 0,
        spec_ppu_tick(p, cycles).0.status.vblank_started == false,
        spec_ppu_tick(p, cycles).0.nmi_interrupt == false,
        spec_ppu_tick(p, cycles).1 == true,
{
}

} // verus!

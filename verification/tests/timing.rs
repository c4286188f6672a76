//! VBlank / NMI timing: the interrupt request rises once on entering the
//! VBlank scanline, the frame boundary clears everything, and the
//! mid-frame NMI-enable toggle raises the request at once.

use nes_core::ppu::{poll_nmi_status, Ppu};

#[test]
fn test_vblank_sets_nmi_once() {
    let mut ppu = Ppu::new_empty_rom();
    ppu.write_to_control(0b1000_0000); // NMI enable

    // advance to the last scanline before VBlank
    for _ in 0..240 {
        assert!(!ppu.tick(341));
        assert!(!ppu.nmi_interrupt);
        assert!(!ppu.status.vblank_started);
    }
    // the tick that crosses into scanline 241 raises the request
    assert!(!ppu.tick(341));
    assert_eq!(ppu.scanline, 241);
    assert!(ppu.status.vblank_started);
    assert!(ppu.nmi_interrupt);

    // the request is an edge: later ticks inside VBlank do not re-raise it
    assert!(poll_nmi_status(&mut ppu));
    assert!(!poll_nmi_status(&mut ppu));
    for _ in 0..10 {
        assert!(!ppu.tick(341));
        assert!(!ppu.nmi_interrupt);
        assert!(ppu.status.vblank_started);
    }
}

#[test]
fn test_frame_end_clears_vblank() {
    let mut ppu = Ppu::new_empty_rom();
    ppu.write_to_control(0b1000_0000);
    for _ in 0..241 {
        ppu.tick(341);
    }
    assert!(ppu.status.vblank_started);
    // scanlines 242 through 261
    for _ in 0..20 {
        assert!(!ppu.tick(341));
    }
    // crossing scanline 262 completes the frame and resets everything
    assert!(ppu.tick(341));
    assert_eq!(ppu.scanline, 0);
    assert!(!ppu.status.vblank_started);
    assert!(!ppu.nmi_interrupt);
}

#[test]
fn test_nmi_disabled_no_request() {
    let mut ppu = Ppu::new_empty_rom();
    for _ in 0..241 {
        ppu.tick(341);
    }
    assert!(ppu.status.vblank_started);
    assert!(!ppu.nmi_interrupt);
}

#[test]
fn test_control_toggle_inside_vblank_raises_nmi() {
    let mut ppu = Ppu::new_empty_rom();
    for _ in 0..241 {
        ppu.tick(341);
    }
    assert!(ppu.status.vblank_started);
    assert!(!ppu.nmi_interrupt);
    // enabling NMI while already inside VBlank raises the request at once
    ppu.write_to_control(0b1000_0000);
    assert!(ppu.nmi_interrupt);
    // writing it again with the bit still set is not a fresh edge
    ppu.nmi_interrupt = false;
    ppu.write_to_control(0b1000_0000);
    assert!(!ppu.nmi_interrupt);
}

#[test]
fn test_cycles_accumulate_across_ticks() {
    let mut ppu = Ppu::new_empty_rom();
    // scanlines advance only when whole 341-cycle budgets accumulate
    assert!(!ppu.tick(340));
    assert_eq!(ppu.scanline, 0);
    assert!(!ppu.tick(1));
    assert_eq!(ppu.scanline, 1);
}

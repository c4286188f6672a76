//! Graphics-chip register-file behaviour: data-port reads and writes
//! through the address register, nametable mirroring, latch resets, and
//! the object-attribute memory.

use nes_core::errors::EmuError;
use nes_core::ppu::Ppu;
use nes_core::rom::Mirroring;

#[test]
fn test_ppu_vram_writes() {
    let mut ppu = Ppu::new_empty_rom();
    ppu.write_to_vram_address(0x23);
    ppu.write_to_vram_address(0x05);
    ppu.write_to_data(0x66).unwrap();

    assert_eq!(ppu.vram[0x0305], 0x66);
}

#[test]
fn test_ppu_vram_reads() {
    let mut ppu = Ppu::new_empty_rom();
    ppu.write_to_control(0);
    ppu.vram[0x0305] = 0x66;

    ppu.write_to_vram_address(0x23);
    ppu.write_to_vram_address(0x05);

    ppu.read_from_data().unwrap(); // load into buffer
    assert_eq!(ppu.vram_address.get(), 0x2306);
    assert_eq!(ppu.read_from_data().unwrap(), 0x66);
}

#[test]
fn test_ppu_vram_reads_cross_page() {
    let mut ppu = Ppu::new_empty_rom();
    ppu.write_to_control(0);
    ppu.vram[0x01ff] = 0x66;
    ppu.vram[0x0200] = 0x77;

    ppu.write_to_vram_address(0x21);
    ppu.write_to_vram_address(0xff);

    ppu.read_from_data().unwrap(); // load into buffer
    assert_eq!(ppu.read_from_data().unwrap(), 0x66);
    assert_eq!(ppu.read_from_data().unwrap(), 0x77);
}

#[test]
fn test_ppu_vram_reads_step_32() {
    let mut ppu = Ppu::new_empty_rom();
    ppu.write_to_control(0b100);
    ppu.vram[0x01ff] = 0x66;
    ppu.vram[0x01ff + 32] = 0x77;
    ppu.vram[0x01ff + 64] = 0x88;

    ppu.write_to_vram_address(0x21);
    ppu.write_to_vram_address(0xff);

    ppu.read_from_data().unwrap(); // load into buffer
    assert_eq!(ppu.read_from_data().unwrap(), 0x66);
    assert_eq!(ppu.read_from_data().unwrap(), 0x77);
    assert_eq!(ppu.read_from_data().unwrap(), 0x88);
}

// Horizontal:
//   [0x2000 A ] [0x2400 a ]
//   [0x2800 B ] [0x2C00 b ]
#[test]
fn test_vram_horizontal_mirror() {
    let mut ppu = Ppu::new_empty_rom();
    ppu.write_to_vram_address(0x24);
    ppu.write_to_vram_address(0x05);

    ppu.write_to_data(0x66).unwrap(); // write to a

    ppu.write_to_vram_address(0x28);
    ppu.write_to_vram_address(0x05);

    ppu.write_to_data(0x77).unwrap(); // write to B

    ppu.write_to_vram_address(0x20);
    ppu.write_to_vram_address(0x05);

    ppu.read_from_data().unwrap(); // load into buffer
    assert_eq!(ppu.read_from_data().unwrap(), 0x66); // read from A

    ppu.write_to_vram_address(0x2C);
    ppu.write_to_vram_address(0x05);

    ppu.read_from_data().unwrap(); // load into buffer
    assert_eq!(ppu.read_from_data().unwrap(), 0x77); // read from b
}

// Vertical:
//   [0x2000 A ] [0x2400 B ]
//   [0x2800 a ] [0x2C00 b ]
#[test]
fn test_vram_vertical_mirror() {
    let mut ppu = Ppu::new_chr_rom_mirroring(vec![0; 2048], Mirroring::Vertical);

    ppu.write_to_vram_address(0x20);
    ppu.write_to_vram_address(0x05);

    ppu.write_to_data(0x66).unwrap(); // write to A

    ppu.write_to_vram_address(0x2C);
    ppu.write_to_vram_address(0x05);

    ppu.write_to_data(0x77).unwrap(); // write to b

    ppu.write_to_vram_address(0x28);
    ppu.write_to_vram_address(0x05);

    ppu.read_from_data().unwrap(); // load into buffer
    assert_eq!(ppu.read_from_data().unwrap(), 0x66); // read from a

    ppu.write_to_vram_address(0x24);
    ppu.write_to_vram_address(0x05);

    ppu.read_from_data().unwrap(); // load into buffer
    assert_eq!(ppu.read_from_data().unwrap(), 0x77); // read from B
}

#[test]
fn test_read_status_resets_latch() {
    let mut ppu = Ppu::new_empty_rom();
    ppu.vram[0x0305] = 0x66;

    ppu.write_to_vram_address(0x21);
    ppu.write_to_vram_address(0x23);
    ppu.write_to_vram_address(0x05);

    ppu.read_from_data().unwrap(); // load into buffer
    assert_ne!(ppu.read_from_data().unwrap(), 0x66);

    ppu.read_from_status();

    ppu.write_to_vram_address(0x23);
    ppu.write_to_vram_address(0x05);

    ppu.read_from_data().unwrap(); // load into buffer
    assert_eq!(ppu.read_from_data().unwrap(), 0x66);
}

#[test]
fn test_ppu_vram_mirroring() {
    let mut ppu = Ppu::new_empty_rom();
    ppu.write_to_control(0);
    ppu.vram[0x0305] = 0x66;

    ppu.write_to_vram_address(0x63); // 0x6305 mirrors down to 0x2305
    ppu.write_to_vram_address(0x05);

    ppu.read_from_data().unwrap(); // load into buffer
    assert_eq!(ppu.read_from_data().unwrap(), 0x66);
}

#[test]
fn test_read_status_resets_vblank() {
    let mut ppu = Ppu::new_empty_rom();
    ppu.status.vblank_started = true;

    let status = ppu.read_from_status();

    assert_eq!(status >> 7, 1);
    assert_eq!(ppu.status.bits() >> 7, 0);
}

#[test]
fn test_oam_read_write() {
    let mut ppu = Ppu::new_empty_rom();
    ppu.write_to_oam_address(0x10);
    ppu.write_to_oam_data(0x66);
    ppu.write_to_oam_data(0x77);

    ppu.write_to_oam_address(0x10);
    assert_eq!(ppu.read_from_oam_data(), 0x66);

    ppu.write_to_oam_address(0x11);
    assert_eq!(ppu.read_from_oam_data(), 0x77);
}

#[test]
fn test_oam_dma() {
    let mut ppu = Ppu::new_empty_rom();

    let mut data = vec![0x66u8; 256];
    data[0] = 0x77;
    data[255] = 0x88;

    ppu.write_to_oam_address(0x10);
    ppu.write_to_oam_dma(&data);

    ppu.write_to_oam_address(0xf); // wrap around
    assert_eq!(ppu.read_from_oam_data(), 0x88);

    ppu.write_to_oam_address(0x10);
    ppu.write_to_oam_address(0x77);
    ppu.write_to_oam_address(0x11);
    ppu.write_to_oam_address(0x66);
}

#[test]
fn test_data_port_faults() {
    // the pattern table is read-only through the data port
    let mut ppu = Ppu::new_empty_rom();
    ppu.write_to_vram_address(0x10);
    ppu.write_to_vram_address(0x00);
    assert_eq!(ppu.write_to_data(0x66), Err(EmuError::PatternTableWrite(0x1000)));

    // the region behind the nametables is unused
    ppu.write_to_vram_address(0x30);
    ppu.write_to_vram_address(0x00);
    assert_eq!(ppu.read_from_data(), Err(EmuError::UnusedVideoAddress(0x3000)));
    assert_eq!(ppu.write_to_data(0x66), Err(EmuError::UnusedVideoAddress(0x3000)));

    // reading pattern data past the end of the cartridge's bank
    let mut bare = Ppu::new_chr_rom_mirroring(Vec::new(), Mirroring::Horizontal);
    assert_eq!(bare.read_from_data(), Err(EmuError::PatternTableRead(0)));

    // four-screen mirroring is not folded onto the two banks
    let mut four = Ppu::new_chr_rom_mirroring(vec![0; 8192], Mirroring::FourScreen);
    four.write_to_vram_address(0x20);
    four.write_to_vram_address(0x05);
    assert_eq!(four.write_to_data(0x66), Err(EmuError::UnsupportedMirroring(0x2005)));
}

#[test]
fn test_palette_reads_unbuffered() {
    let mut ppu = Ppu::new_empty_rom();
    ppu.write_to_vram_address(0x3F);
    ppu.write_to_vram_address(0x01);
    ppu.write_to_data(0x2A).unwrap();

    ppu.write_to_vram_address(0x3F);
    ppu.write_to_vram_address(0x01);
    // palette reads skip the one-read-delay buffer
    assert_eq!(ppu.read_from_data().unwrap(), 0x2A);
}

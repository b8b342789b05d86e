use rustness::cartridge::{parse_ines, LoadError};
use rustness::mem::Mirroring;
use rustness::nes::Nes;

fn image(prg_banks: u8, chr_banks: u8, flags6: u8, flags7: u8, extra: usize) -> Vec<u8> {
    let mut b = vec![0x4E, 0x45, 0x53, 0x1A, prg_banks, chr_banks, flags6, flags7];
    b.extend_from_slice(&[0u8; 8]);
    let body = extra + prg_banks as usize * 16384 + chr_banks as usize * 8192;
    for i in 0..body {
        b.push((i % 251) as u8);
    }
    b
}

#[test]
fn missing_header() {
    assert_eq!(parse_ines(&vec![0x4E, 0x45]).err(), Some(LoadError::MissingHeader));
}

#[test]
fn bad_magic() {
    let mut b = image(1, 1, 0, 0, 0);
    b[3] = 0x1B;
    assert_eq!(parse_ines(&b).err(), Some(LoadError::BadMagic));
}

#[test]
fn unsupported_mapper() {
    let b = image(1, 1, 0x10, 0x00, 0);
    assert_eq!(parse_ines(&b).err(), Some(LoadError::UnsupportedMapper(1)));
    let b = image(1, 1, 0x40, 0x10, 0);
    assert_eq!(parse_ines(&b).err(), Some(LoadError::UnsupportedMapper(0x14)));
}

#[test]
fn truncated() {
    let mut b = image(2, 1, 0, 0, 0);
    b.truncate(b.len() - 1);
    assert_eq!(parse_ines(&b).err(), Some(LoadError::Truncated));
}

#[test]
fn parses_prg_chr_and_trainer() {
    let b = image(1, 1, 0x05, 0, 512);
    let cart = parse_ines(&b).ok().unwrap();
    assert_eq!(cart.header, b[0..16].to_vec());
    assert_eq!(cart.prg_rom.len(), 16384);
    assert_eq!(cart.prg_rom[0], b[528]);
    assert_eq!(cart.chr_rom.len(), 8192);
    assert_eq!(cart.chr_rom[0], b[528 + 16384]);
    assert_eq!(cart.mirroring, Mirroring::Vertical);
    let b = image(1, 0, 0x00, 0, 0);
    let cart = parse_ines(&b).ok().unwrap();
    assert_eq!(cart.prg_rom[0], b[16]);
    assert!(cart.chr_rom.is_empty());
    assert_eq!(cart.mirroring, Mirroring::Horizontal);
}

#[test]
fn frame_of_a_jump_loop() {
    let mut b = image(1, 0, 0, 0, 0);
    // JMP $8000 at 0x8000; reset vector 0x8000.
    b[16] = 0x4C;
    b[17] = 0x00;
    b[18] = 0x80;
    b[16 + 0x3FFC] = 0x00;
    b[16 + 0x3FFD] = 0x80;
    let mut nes = Nes::new(&b).ok().unwrap();
    assert_eq!(nes.cpu().pc, 0x8000);
    assert_eq!(nes.cpu().cycles, 7);
    assert_eq!(nes.rom_header(), &b[0..16].to_vec());
    nes.emulate_frame();
    assert_eq!(nes.cpu().cycles, 7 + 29829);
    assert_eq!(nes.cpu().pc, 0x8000);
    assert_eq!(&nes.frame()[0..4], &[0x54, 0x54, 0x54, 255]);
    let last = 256 * 240 * 4 - 4;
    assert_eq!(&nes.frame()[last..last + 4], &[0x54, 0x54, 0x54, 255]);
    nes.button_press(3);
    nes.button_lift(3);
}

#[test]
fn nes_rejects_bad_image() {
    assert_eq!(Nes::new(&vec![0u8; 4]).err().map(|_| ()), Some(()));
}

use rustness::mem::Mem;
use rustness::ppu::Ppu;

/// Runs the PPU for `dots` dots.
fn run(ppu: &mut Ppu, mem: &mut Mem, dots: u32) {
    let mut left = dots;
    while left > 0 {
        let step = if left > 60000 { 60000 } else { left };
        ppu.emulate(mem, step as u16);
        left -= step;
    }
}

/// A bus whose CHR ROM has tile 0 and tile 1 solid in color 1, and, when
/// `tile1_color3`, tile 1 in color 3.
fn tiles_bus(tile1_color3: bool) -> Mem {
    let mut chr = vec![0u8; 8192];
    for row in 0..8 {
        chr[row] = 0xFF;
        chr[0x10 + row] = 0xFF;
        if tile1_color3 {
            chr[0x18 + row] = 0xFF;
        }
    }
    Mem::new(vec![0u8; 16384], chr)
}

fn solid_tiles_bus() -> Mem {
    tiles_bus(false)
}

#[test]
fn sprite_zero_hit() {
    let mut mem = solid_tiles_bus();
    mem.write_u8(0x2003, 0);
    mem.write_u8(0x2004, 0x10);
    mem.write_u8(0x2004, 0x01);
    mem.write_u8(0x2004, 0x00);
    mem.write_u8(0x2004, 0x20);
    mem.write_u8(0x2001, 0x1E);
    let mut ppu = Ppu::new();
    run(&mut ppu, &mut mem, 18 * 341 + 256);
    assert_eq!(mem.peek_u8(0x2002) & 0x40, 0);
    run(&mut ppu, &mut mem, 1);
    assert_eq!(mem.peek_u8(0x2002) & 0x40, 0x40);
    run(&mut ppu, &mut mem, 262 * 341 + 1 - (18 * 341 + 257));
    assert_eq!(ppu.scanline(), -1);
    assert_eq!(ppu.dot(), 1);
    assert_eq!(mem.read_u8(0x2002) & 0x40, 0x40);
    run(&mut ppu, &mut mem, 1);
    assert_eq!(mem.read_u8(0x2002) & 0x40, 0);
}

#[test]
fn no_sprite_zero_hit_without_background() {
    let mut mem = solid_tiles_bus();
    mem.write_u8(0x2003, 0);
    mem.write_u8(0x2004, 0x10);
    mem.write_u8(0x2004, 0x01);
    mem.write_u8(0x2004, 0x00);
    mem.write_u8(0x2004, 0x20);
    mem.write_u8(0x2001, 0x14);
    let mut ppu = Ppu::new();
    run(&mut ppu, &mut mem, 30 * 341);
    assert_eq!(mem.peek_u8(0x2002) & 0x40, 0);
}

#[test]
fn vblank_timing_and_nmi() {
    let mut mem = Mem::new(vec![0u8; 16384], vec![]);
    mem.write_u8(0x2000, 0x80);
    let mut ppu = Ppu::new();
    run(&mut ppu, &mut mem, 242 * 341 + 1);
    assert!(!mem.get_nmi_occured());
    assert!(!mem.get_trigger_nmi());
    run(&mut ppu, &mut mem, 1);
    assert_eq!(ppu.scanline(), 241);
    assert_eq!(ppu.dot(), 2);
    assert!(mem.get_nmi_occured());
    assert!(mem.get_trigger_nmi());
    run(&mut ppu, &mut mem, 20 * 341 - 1);
    assert!(mem.get_nmi_occured());
    assert_eq!(ppu.scanline(), -1);
    assert_eq!(ppu.dot(), 1);
    run(&mut ppu, &mut mem, 1);
    assert!(!mem.get_nmi_occured());
}

#[test]
fn no_nmi_request_when_disabled() {
    let mut mem = Mem::new(vec![0u8; 16384], vec![]);
    let mut ppu = Ppu::new();
    run(&mut ppu, &mut mem, 243 * 341);
    assert!(mem.get_nmi_occured());
    assert!(!mem.get_trigger_nmi());
}

#[test]
fn background_pixel_color() {
    let mut mem = solid_tiles_bus();
    mem.write_vram(0x3F00, 0x0F);
    mem.write_vram(0x3F01, 0x16);
    mem.write_u8(0x2001, 0x0A);
    let mut ppu = Ppu::new();
    run(&mut ppu, &mut mem, 341 + 257);
    let frame = ppu.frame();
    assert_eq!(frame.len(), 256 * 240 * 4);
    assert_eq!(&frame[0..4], &[0x98, 0x22, 0x20, 255]);
    assert_eq!(&frame[255 * 4..256 * 4], &[0x98, 0x22, 0x20, 255]);
    assert_eq!(&frame[256 * 4..257 * 4], &[0, 0, 0, 0]);
}

#[test]
fn sprite_in_front_of_background() {
    let mut mem = tiles_bus(true);
    mem.write_vram(0x3F01, 0x16);
    mem.write_vram(0x3F13, 0x2A);
    mem.write_u8(0x2003, 4);
    mem.write_u8(0x2004, 0x00);
    mem.write_u8(0x2004, 0x01);
    mem.write_u8(0x2004, 0x00);
    mem.write_u8(0x2004, 0x40);
    mem.write_u8(0x2001, 0x1E);
    let mut ppu = Ppu::new();
    run(&mut ppu, &mut mem, 2 * 341 + 257);
    let frame = ppu.frame();
    let line1 = 256 * 4;
    assert_eq!(&frame[line1 + 0x40 * 4..line1 + 0x40 * 4 + 4], &[0x4C, 0xD0, 0x20, 255]);
    assert_eq!(&frame[line1 + 0x48 * 4..line1 + 0x48 * 4 + 4], &[0x98, 0x22, 0x20, 255]);
}

#[test]
fn rendering_off_shows_universal_background() {
    let mut mem = solid_tiles_bus();
    mem.write_vram(0x3F00, 0x30);
    let mut ppu = Ppu::new();
    run(&mut ppu, &mut mem, 341 + 257);
    assert_eq!(&ppu.frame()[0..4], &[0xEC, 0xEE, 0xEC, 255]);
}

#[test]
fn sprite_overflow_on_ninth_sprite() {
    let mut mem = solid_tiles_bus();
    mem.write_u8(0x2003, 0);
    for i in 0..9u8 {
        mem.write_u8(0x2004, 0x10);
        mem.write_u8(0x2004, 0x01);
        mem.write_u8(0x2004, 0x00);
        mem.write_u8(0x2004, 0x80 + i);
    }
    mem.write_u8(0x2001, 0x10);
    let mut ppu = Ppu::new();
    run(&mut ppu, &mut mem, 18 * 341 + 257);
    assert_eq!(mem.peek_u8(0x2002) & 0x20, 0x20);
}

#[test]
fn greyscale_keeps_the_grey_column() {
    let mut mem = solid_tiles_bus();
    mem.write_vram(0x3F01, 0x16);
    mem.write_u8(0x2001, 0x0B);
    let mut ppu = Ppu::new();
    run(&mut ppu, &mut mem, 341 + 257);
    assert_eq!(&ppu.frame()[0..4], &[0x98, 0x96, 0x98, 255]);
}

#[test]
fn new_frame_is_blank() {
    let ppu = Ppu::new();
    assert_eq!(ppu.frame().len(), 256 * 240 * 4);
    assert!(ppu.frame().iter().all(|&b| b == 0));
    assert_eq!(ppu.scanline(), -1);
    assert_eq!(ppu.dot(), 0);
}

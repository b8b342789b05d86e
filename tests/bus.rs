use rustness::mem::{Mem, Mirroring};

fn bus() -> Mem {
    let mut prg = vec![0u8; 16384];
    prg[0] = 0x11;
    prg[0x3FFF] = 0x22;
    Mem::new(prg, vec![])
}

#[test]
fn ppu_addr_latch() {
    let mut mem = bus();
    mem.write_u8(0x2006, 0x3F);
    mem.write_u8(0x2006, 0x00);
    assert_eq!(mem.vram_address(), 0x3F00);
    mem.write_u8(0x2006, 0x21);
    mem.read_u8(0x2002);
    mem.write_u8(0x2006, 0x21);
    mem.write_u8(0x2006, 0x08);
    assert_eq!(mem.vram_address(), 0x2108);
}

#[test]
fn scroll_and_addr_share_the_latch() {
    let mut mem = bus();
    mem.write_u8(0x2005, 0x12);
    mem.write_u8(0x2006, 0x34);
    assert_eq!(mem.get_scroll_x(), 0x12);
    assert_eq!(mem.vram_address() & 0xFF, 0x34);
    mem.read_u8(0x2002);
    mem.write_u8(0x2005, 0x56);
    mem.write_u8(0x2005, 0x78);
    assert_eq!(mem.get_scroll_x(), 0x56);
    assert_eq!(mem.get_scroll_y(), 0x78);
}

#[test]
fn nametable_mirroring_horizontal() {
    let mut mem = bus();
    mem.write_vram(0x2000, 0xAA);
    assert_eq!(mem.read_vram(0x2400), 0xAA);
    assert_eq!(mem.read_vram(0x2800), 0x00);
    mem.write_vram(0x2C05, 0x5C);
    assert_eq!(mem.read_vram(0x2805), 0x5C);
    assert_eq!(mem.read_vram(0x3805), 0x5C);
}

#[test]
fn nametable_mirroring_vertical() {
    let mut mem = bus();
    mem.set_mirroring(Mirroring::Vertical);
    mem.write_vram(0x2000, 0xAA);
    assert_eq!(mem.read_vram(0x2800), 0xAA);
    assert_eq!(mem.read_vram(0x2400), 0x00);
}

#[test]
fn palette_mirrors() {
    let mut mem = bus();
    mem.write_vram(0x3F10, 0x2C);
    assert_eq!(mem.read_vram(0x3F00), 0x2C);
    mem.write_vram(0x3F25, 0x07);
    assert_eq!(mem.read_vram(0x3F05), 0x07);
    mem.write_vram(0x3F11, 0x01);
    assert_eq!(mem.read_vram(0x3F01), 0x00);
}

#[test]
fn status_read_clears_vblank_and_latch() {
    let mut mem = bus();
    mem.set_nmi_occured(true);
    mem.set_sprite_0_hit(true);
    mem.write_u8(0x2006, 0x21);
    assert_eq!(mem.read_u8(0x2002), 0xC0);
    assert!(!mem.get_nmi_occured());
    assert_eq!(mem.read_u8(0x200A), 0x40);
    mem.write_u8(0x2006, 0x3F);
    mem.write_u8(0x2006, 0x10);
    assert_eq!(mem.vram_address(), 0x3F10);
}

#[test]
fn data_reads_are_buffered_outside_palette() {
    let mut mem = bus();
    mem.write_u8(0x2006, 0x20);
    mem.write_u8(0x2006, 0x00);
    mem.write_u8(0x2007, 0x55);
    mem.write_u8(0x2007, 0x66);
    assert_eq!(mem.vram_address(), 0x2002);
    mem.write_u8(0x2006, 0x20);
    mem.write_u8(0x2006, 0x00);
    assert_eq!(mem.read_u8(0x2007), 0x00);
    assert_eq!(mem.read_u8(0x2007), 0x55);
    assert_eq!(mem.read_u8(0x2007), 0x66);
    mem.write_vram(0x3F01, 0x17);
    mem.write_u8(0x2006, 0x3F);
    mem.write_u8(0x2006, 0x01);
    assert_eq!(mem.read_u8(0x2007), 0x17);
}

#[test]
fn data_increment_by_32() {
    let mut mem = bus();
    mem.write_u8(0x2000, 0x04);
    assert!(!mem.should_increment_by_1());
    mem.write_u8(0x2006, 0x20);
    mem.write_u8(0x2006, 0x00);
    mem.write_u8(0x2007, 0x01);
    assert_eq!(mem.vram_address(), 0x2020);
}

#[test]
fn ram_is_mirrored_four_times() {
    let mut mem = bus();
    mem.write_u8(0x0001, 0x42);
    assert_eq!(mem.read_u8(0x0801), 0x42);
    assert_eq!(mem.read_u8(0x1001), 0x42);
    assert_eq!(mem.read_u8(0x1801), 0x42);
    mem.write_u8(0x1FFF, 0x24);
    assert_eq!(mem.read_u8(0x07FF), 0x24);
}

#[test]
fn prg_rom_16k_is_mirrored_and_read_only() {
    let mut mem = bus();
    assert_eq!(mem.read_u8(0x8000), 0x11);
    assert_eq!(mem.read_u8(0xC000), 0x11);
    assert_eq!(mem.read_u8(0xFFFF), 0x22);
    mem.write_u8(0x8000, 0x99);
    assert_eq!(mem.read_u8(0x8000), 0x11);
}

#[test]
fn wram_and_unmapped() {
    let mut mem = bus();
    mem.write_u8(0x6000, 0x12);
    mem.write_u8(0x7FFF, 0x34);
    assert_eq!(mem.read_u8(0x6000), 0x12);
    assert_eq!(mem.read_u8(0x7FFF), 0x34);
    assert_eq!(mem.read_u8(0x5000), 0x00);
    assert_eq!(mem.read_signed(0x7FFF), 0x34);
    mem.write_u8(0x6001, 0xFF);
    assert_eq!(mem.read_signed(0x6001), -1);
    assert_eq!(mem.read_u16(0x6000), 0xFF12);
}

#[test]
fn oam_dma_starts_at_oamaddr_and_wraps() {
    let mut mem = bus();
    for i in 0..256u16 {
        mem.write_u8(0x0300 + i, i as u8);
    }
    mem.write_u8(0x2003, 0x10);
    mem.write_u8(0x4014, 0x03);
    assert_eq!(mem.oam_byte(0x10), 0x00);
    assert_eq!(mem.oam_byte(0xFF), 0xEF);
    assert_eq!(mem.oam_byte(0x00), 0xF0);
    assert_eq!(mem.oam_byte(0x0F), 0xFF);
    assert_eq!(mem.take_dma_stall(), 513);
    assert_eq!(mem.take_dma_stall(), 0);
}

#[test]
fn oamdata_writes_and_reads() {
    let mut mem = bus();
    mem.write_u8(0x2003, 0xFF);
    mem.write_u8(0x2004, 0x12);
    mem.write_u8(0x2004, 0x34);
    assert_eq!(mem.oam_byte(0xFF), 0x12);
    assert_eq!(mem.oam_byte(0x00), 0x34);
    mem.write_u8(0x2003, 0xFF);
    assert_eq!(mem.read_u8(0x2004), 0x12);
}

#[test]
fn controller_strobe_and_shift() {
    let mut mem = bus();
    mem.button_set(0, true);
    mem.button_set(3, true);
    mem.button_set(7, true);
    mem.write_u8(0x4016, 1);
    assert_eq!(mem.read_u8(0x4016), 1);
    assert_eq!(mem.read_u8(0x4016), 1);
    mem.write_u8(0x4016, 0);
    let bits: Vec<u8> = (0..10).map(|_| mem.read_u8(0x4016)).collect();
    assert_eq!(bits, vec![1, 0, 0, 1, 0, 0, 0, 1, 1, 1]);
    mem.button_set(0, false);
    mem.write_u8(0x4016, 1);
    assert_eq!(mem.read_u8(0x4016), 0);
}

#[test]
fn chr_rom_is_read_only() {
    let mut rom = Mem::new(vec![0u8; 16384], vec![7u8; 8192]);
    rom.write_vram(0x0010, 0x99);
    assert_eq!(rom.read_vram(0x0010), 7);
    let mut empty = Mem::new(vec![0u8; 16384], vec![]);
    empty.write_vram(0x0010, 0x99);
    assert_eq!(empty.read_vram(0x0010), 0);
    empty.write_u8(0x2006, 0x00);
    empty.write_u8(0x2006, 0x10);
    empty.write_u8(0x2007, 0x55);
    assert_eq!(empty.read_vram(0x0010), 0);
}

#[test]
fn nmi_output_is_ctrl_bit_7() {
    let mut mem = bus();
    mem.write_u8(0x2000, 0x05);
    mem.set_nmi_output(true);
    assert!(mem.get_nmi_enable());
    assert_eq!(mem.get_nametable_index(), 1);
    mem.set_nmi_output(false);
    assert!(!mem.get_nmi_output());
    assert!(!mem.should_increment_by_1());
}

#[test]
fn ctrl_and_mask_bits() {
    let mut mem = bus();
    mem.write_u8(0x2000, 0xBB);
    assert_eq!(mem.get_nametable_index(), 3);
    assert_eq!(mem.get_oam_chr_number(), 1);
    assert!(!mem.use_chr_0());
    assert!(mem.should_use_big_sprites());
    assert!(mem.get_nmi_enable());
    assert!(mem.get_nmi_output());
    mem.write_u8(0x2001, 0x10);
    assert!(mem.draw_sprites());
    assert_eq!(mem.read_u8(0x2000), 0);
}

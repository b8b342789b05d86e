use rustness::palette::get_rgb_color;

#[test]
fn palette_entries() {
    assert_eq!(get_rgb_color(0x00), (0x54, 0x54, 0x54));
    assert_eq!(get_rgb_color(0x16), (0x98, 0x22, 0x20));
    assert_eq!(get_rgb_color(0x30), (0xEC, 0xEE, 0xEC));
    assert_eq!(get_rgb_color(0x3F), (0x00, 0x00, 0x00));
}

#[test]
fn palette_uses_low_six_bits() {
    assert_eq!(get_rgb_color(0x41), get_rgb_color(0x01));
    assert_eq!(get_rgb_color(0xFF), get_rgb_color(0x3F));
}

use vstd::prelude::*;

verus! {

/// The 64-entry NES master palette: a 6-bit color index to an (R, G, B) triple.
pub open spec fn rgb_table(index: u8) -> (u8, u8, u8)
    recommends
        index < 64,
{
    match index {
        0x00u8 => (0x54, 0x54, 0x54),
        0x01u8 => (0x00, 0x1E, 0x74),
        0x02u8 => (0x08, 0x10, 0x90),
        0x03u8 => (0x30, 0x00, 0x88),
        0x04u8 => (0x44, 0x00, 0x64),
        0x05u8 => (0x5C, 0x00, 0x30),
        0x06u8 => (0x54, 0x04, 0x00),
        0x07u8 => (0x3C, 0x18, 0x00),
        0x08u8 => (0x20, 0x2A, 0x00),
        0x09u8 => (0x08, 0x3A, 0x00),
        0x0Au8 => (0x00, 0x40, 0x00),
        0x0Bu8 => (0x00, 0x3C, 0x00),
        0x0Cu8 => (0x00, 0x32, 0x3C),
        0x0Du8 => (0x00, 0x00, 0x00),
        0x0Eu8 => (0x00, 0x00, 0x00),
        0x0Fu8 => (0x00, 0x00, 0x00),
        0x10u8 => (0x98, 0x96, 0x98),
        0x11u8 => (0x08, 0x4C, 0xC4),
        0x12u8 => (0x30, 0x32, 0xEC),
        0x13u8 => (0x5C, 0x1E, 0xE4),
        0x14u8 => (0x88, 0x14, 0xB0),
        0x15u8 => (0xA0, 0x14, 0x64),
        0x16u8 => (0x98, 0x22, 0x20),
        0x17u8 => (0x78, 0x3C, 0x00),
        0x18u8 => (0x54, 0x5A, 0x00),
        0x19u8 => (0x28, 0x72, 0x00),
        0x1Au8 => (0x08, 0x7C, 0x00),
        0x1Bu8 => (0x00, 0x76, 0x28),
        0x1Cu8 => (0x00, 0x66, 0x78),
        0x1Du8 => (0x00, 0x00, 0x00),
        0x1Eu8 => (0x00, 0x00, 0x00),
        0x1Fu8 => (0x00, 0x00, 0x00),
        0x20u8 => (0xEC, 0xEE, 0xEC),
        0x21u8 => (0x4C, 0x9A, 0xEC),
        0x22u8 => (0x78, 0x7C, 0xEC),
        0x23u8 => (0xB0, 0x62, 0xEC),
        0x24u8 => (0xE4, 0x54, 0xEC),
        0x25u8 => (0xEC, 0x58, 0xB4),
        0x26u8 => (0xEC, 0x6A, 0x64),
        0x27u8 => (0xD4, 0x88, 0x20),
        0x28u8 => (0xA0, 0xAA, 0x00),
        0x29u8 => (0x74, 0xC4, 0x00),
        0x2Au8 => (0x4C, 0xD0, 0x20),
        0x2Bu8 => (0x38, 0xCC, 0x6C),
        0x2Cu8 => (0x38, 0xB4, 0xCC),
        0x2Du8 => (0x3C, 0x3C, 0x3C),
        0x2Eu8 => (0x00, 0x00, 0x00),
        0x2Fu8 => (0x00, 0x00, 0x00),
        0x30u8 => (0xEC, 0xEE, 0xEC),
        0x31u8 => (0xA8, 0xCC, 0xEC),
        0x32u8 => (0xBC, 0xBC, 0xEC),
        0x33u8 => (0xD4, 0xB2, 0xEC),
        0x34u8 => (0xEC, 0xAE, 0xEC),
        0x35u8 => (0xEC, 0xAE, 0xD4),
        0x36u8 => (0xEC, 0xB4, 0xB0),
        0x37u8 => (0xE4, 0xC4, 0x90),
        0x38u8 => (0xCC, 0xD2, 0x78),
        0x39u8 => (0xB4, 0xDE, 0x78),
        0x3Au8 => (0xA8, 0xE2, 0x90),
        0x3Bu8 => (0x98, 0xE2, 0xB4),
        0x3Cu8 => (0xA0, 0xD6, 0xE4),
        0x3Du8 => (0xA0, 0xA2, 0xA0),
        0x3Eu8 => (0x00, 0x00, 0x00),
        0x3Fu8 => (0x00, 0x00, 0x00),
        _ => (0x00, 0x00, 0x00),
    }
}

/// RGB triple for a palette color; only the low six bits of `index` select the entry.
pub fn get_rgb_color(index: u8) -> (r: (u8, u8, u8))
    ensures
        r == rgb_table(index & 0x3F),
{
    let i: u8 = index & 0x3F;
    proof {
        assert(i == index & 0x3F);
    }
    match i {
        0x00u8 => (0x54, 0x54, 0x54),
        0x01u8 => (0x00, 0x1E, 0x74),
        0x02u8 => (0x08, 0x10, 0x90),
        0x03u8 => (0x30, 0x00, 0x88),
        0x04u8 => (0x44, 0x00, 0x64),
        0x05u8 => (0x5C, 0x00, 0x30),
        0x06u8 => (0x54, 0x04, 0x00),
        0x07u8 => (0x3C, 0x18, 0x00),
        0x08u8 => (0x20, 0x2A, 0x00),
        0x09u8 => (0x08, 0x3A, 0x00),
        0x0Au8 => (0x00, 0x40, 0x00),
        0x0Bu8 => (0x00, 0x3C, 0x00),
        0x0Cu8 => (0x00, 0x32, 0x3C),
        0x0Du8 => (0x00, 0x00, 0x00),
        0x0Eu8 => (0x00, 0x00, 0x00),
        0x0Fu8 => (0x00, 0x00, 0x00),
        0x10u8 => (0x98, 0x96, 0x98),
        0x11u8 => (0x08, 0x4C, 0xC4),
        0x12u8 => (0x30, 0x32, 0xEC),
        0x13u8 => (0x5C, 0x1E, 0xE4),
        0x14u8 => (0x88, 0x14, 0xB0),
        0x15u8 => (0xA0, 0x14, 0x64),
        0x16u8 => (0x98, 0x22, 0x20),
        0x17u8 => (0x78, 0x3C, 0x00),
        0x18u8 => (0x54, 0x5A, 0x00),
        0x19u8 => (0x28, 0x72, 0x00),
        0x1Au8 => (0x08, 0x7C, 0x00),
        0x1Bu8 => (0x00, 0x76, 0x28),
        0x1Cu8 => (0x00, 0x66, 0x78),
        0x1Du8 => (0x00, 0x00, 0x00),
        0x1Eu8 => (0x00, 0x00, 0x00),
        0x1Fu8 => (0x00, 0x00, 0x00),
        0x20u8 => (0xEC, 0xEE, 0xEC),
        0x21u8 => (0x4C, 0x9A, 0xEC),
        0x22u8 => (0x78, 0x7C, 0xEC),
        0x23u8 => (0xB0, 0x62, 0xEC),
        0x24u8 => (0xE4, 0x54, 0xEC),
        0x25u8 => (0xEC, 0x58, 0xB4),
        0x26u8 => (0xEC, 0x6A, 0x64),
        0x27u8 => (0xD4, 0x88, 0x20),
        0x28u8 => (0xA0, 0xAA, 0x00),
        0x29u8 => (0x74, 0xC4, 0x00),
        0x2Au8 => (0x4C, 0xD0, 0x20),
        0x2Bu8 => (0x38, 0xCC, 0x6C),
        0x2Cu8 => (0x38, 0xB4, 0xCC),
        0x2Du8 => (0x3C, 0x3C, 0x3C),
        0x2Eu8 => (0x00, 0x00, 0x00),
        0x2Fu8 => (0x00, 0x00, 0x00),
        0x30u8 => (0xEC, 0xEE, 0xEC),
        0x31u8 => (0xA8, 0xCC, 0xEC),
        0x32u8 => (0xBC, 0xBC, 0xEC),
        0x33u8 => (0xD4, 0xB2, 0xEC),
        0x34u8 => (0xEC, 0xAE, 0xEC),
        0x35u8 => (0xEC, 0xAE, 0xD4),
        0x36u8 => (0xEC, 0xB4, 0xB0),
        0x37u8 => (0xE4, 0xC4, 0x90),
        0x38u8 => (0xCC, 0xD2, 0x78),
        0x39u8 => (0xB4, 0xDE, 0x78),
        0x3Au8 => (0xA8, 0xE2, 0x90),
        0x3Bu8 => (0x98, 0xE2, 0xB4),
        0x3Cu8 => (0xA0, 0xD6, 0xE4),
        0x3Du8 => (0xA0, 0xA2, 0xA0),
        0x3Eu8 => (0x00, 0x00, 0x00),
        0x3Fu8 => (0x00, 0x00, 0x00),
        _ => (0x00, 0x00, 0x00),
    }
}

} // verus!

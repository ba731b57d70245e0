//! The system palette: the colour on screen of each of the 64 colour numbers.

use vstd::prelude::*;

verus! {

/// The red, green and blue of colour number `index`; only the six low bits
/// of `index` count.
pub open spec fn system_color(index: u8) -> (u8, u8, u8) {
    match index & 0x3F {
        0x00 => (0x7Cu8, 0x7Cu8, 0x7Cu8),
        0x01 => (0x00u8, 0x00u8, 0xFCu8),
        0x02 => (0x00u8, 0x00u8, 0xBCu8),
        0x03 => (0x44u8, 0x28u8, 0xBCu8),
        0x04 => (0x94u8, 0x00u8, 0x84u8),
        0x05 => (0xA8u8, 0x00u8, 0x20u8),
        0x06 => (0xA8u8, 0x10u8, 0x00u8),
        0x07 => (0x88u8, 0x14u8, 0x00u8),
        0x08 => (0x50u8, 0x30u8, 0x00u8),
        0x09 => (0x00u8, 0x78u8, 0x00u8),
        0x0A => (0x00u8, 0x68u8, 0x00u8),
        0x0B => (0x00u8, 0x58u8, 0x00u8),
        0x0C => (0x00u8, 0x40u8, 0x58u8),
        0x0D => (0x00u8, 0x00u8, 0x00u8),
        0x0E => (0x00u8, 0x00u8, 0x00u8),
        0x0F => (0x00u8, 0x00u8, 0x00u8),
        0x10 => (0xBCu8, 0xBCu8, 0xBCu8),
        0x11 => (0x00u8, 0x78u8, 0xF8u8),
        0x12 => (0x00u8, 0x58u8, 0xF8u8),
        0x13 => (0x68u8, 0x44u8, 0xFCu8),
        0x14 => (0xD8u8, 0x00u8, 0xCCu8),
        0x15 => (0xE4u8, 0x00u8, 0x58u8),
        0x16 => (0xF8u8, 0x38u8, 0x00u8),
        0x17 => (0xE4u8, 0x5Cu8, 0x10u8),
        0x18 => (0xACu8, 0x7Cu8, 0x00u8),
        0x19 => (0x00u8, 0xB8u8, 0x00u8),
        0x1A => (0x00u8, 0xA8u8, 0x00u8),
        0x1B => (0x00u8, 0xA8u8, 0x44u8),
        0x1C => (0x00u8, 0x88u8, 0x88u8),
        0x1D => (0x00u8, 0x00u8, 0x00u8),
        0x1E => (0x00u8, 0x00u8, 0x00u8),
        0x1F => (0x00u8, 0x00u8, 0x00u8),
        0x20 => (0xF8u8, 0xF8u8, 0xF8u8),
        0x21 => (0x3Cu8, 0xBCu8, 0xFCu8),
        0x22 => (0x68u8, 0x88u8, 0xFCu8),
        0x23 => (0x98u8, 0x78u8, 0xF8u8),
        0x24 => (0xF8u8, 0x78u8, 0xF8u8),
        0x25 => (0xF8u8, 0x58u8, 0x98u8),
        0x26 => (0xF8u8, 0x78u8, 0x58u8),
        0x27 => (0xFCu8, 0xA0u8, 0x44u8),
        0x28 => (0xF8u8, 0xB8u8, 0x00u8),
        0x29 => (0xB8u8, 0xF8u8, 0x18u8),
        0x2A => (0x58u8, 0xD8u8, 0x54u8),
        0x2B => (0x58u8, 0xF8u8, 0x98u8),
        0x2C => (0x00u8, 0xE8u8, 0xD8u8),
        0x2D => (0x78u8, 0x78u8, 0x78u8),
        0x2E => (0x00u8, 0x00u8, 0x00u8),
        0x2F => (0x00u8, 0x00u8, 0x00u8),
        0x30 => (0xFCu8, 0xFCu8, 0xFCu8),
        0x31 => (0xA4u8, 0xE4u8, 0xFCu8),
        0x32 => (0xB8u8, 0xB8u8, 0xF8u8),
        0x33 => (0xD8u8, 0xB8u8, 0xF8u8),
        0x34 => (0xF8u8, 0xB8u8, 0xF8u8),
        0x35 => (0xF8u8, 0xA4u8, 0xC0u8),
        0x36 => (0xF0u8, 0xD0u8, 0xB0u8),
        0x37 => (0xFCu8, 0xE0u8, 0xA8u8),
        0x38 => (0xF8u8, 0xD8u8, 0x78u8),
        0x39 => (0xD8u8, 0xF8u8, 0x78u8),
        0x3A => (0xB8u8, 0xF8u8, 0xB8u8),
        0x3B => (0xB8u8, 0xF8u8, 0xD8u8),
        0x3C => (0x00u8, 0xFCu8, 0xFCu8),
        0x3D => (0xF8u8, 0xD8u8, 0xF8u8),
        0x3E => (0x00u8, 0x00u8, 0x00u8),
        _ => (0x00u8, 0x00u8, 0x00u8),
    }
}

/// Looks up the red, green and blue of colour number `index`.
pub fn system_palette(index: u8) -> (rgb: (u8, u8, u8))
    ensures
        rgb == system_color(index),
{
    match index & 0x3F {
        0x00 => (0x7C, 0x7C, 0x7C),
        0x01 => (0x00, 0x00, 0xFC),
        0x02 => (0x00, 0x00, 0xBC),
        0x03 => (0x44, 0x28, 0xBC),
        0x04 => (0x94, 0x00, 0x84),
        0x05 => (0xA8, 0x00, 0x20),
        0x06 => (0xA8, 0x10, 0x00),
        0x07 => (0x88, 0x14, 0x00),
        0x08 => (0x50, 0x30, 0x00),
        0x09 => (0x00, 0x78, 0x00),
        0x0A => (0x00, 0x68, 0x00),
        0x0B => (0x00, 0x58, 0x00),
        0x0C => (0x00, 0x40, 0x58),
        0x0D => (0x00, 0x00, 0x00),
        0x0E => (0x00, 0x00, 0x00),
        0x0F => (0x00, 0x00, 0x00),
        0x10 => (0xBC, 0xBC, 0xBC),
        0x11 => (0x00, 0x78, 0xF8),
        0x12 => (0x00, 0x58, 0xF8),
        0x13 => (0x68, 0x44, 0xFC),
        0x14 => (0xD8, 0x00, 0xCC),
        0x15 => (0xE4, 0x00, 0x58),
        0x16 => (0xF8, 0x38, 0x00),
        0x17 => (0xE4, 0x5C, 0x10),
        0x18 => (0xAC, 0x7C, 0x00),
        0x19 => (0x00, 0xB8, 0x00),
        0x1A => (0x00, 0xA8, 0x00),
        0x1B => (0x00, 0xA8, 0x44),
        0x1C => (0x00, 0x88, 0x88),
        0x1D => (0x00, 0x00, 0x00),
        0x1E => (0x00, 0x00, 0x00),
        0x1F => (0x00, 0x00, 0x00),
        0x20 => (0xF8, 0xF8, 0xF8),
        0x21 => (0x3C, 0xBC, 0xFC),
        0x22 => (0x68, 0x88, 0xFC),
        0x23 => (0x98, 0x78, 0xF8),
        0x24 => (0xF8, 0x78, 0xF8),
        0x25 => (0xF8, 0x58, 0x98),
        0x26 => (0xF8, 0x78, 0x58),
        0x27 => (0xFC, 0xA0, 0x44),
        0x28 => (0xF8, 0xB8, 0x00),
        0x29 => (0xB8, 0xF8, 0x18),
        0x2A => (0x58, 0xD8, 0x54),
        0x2B => (0x58, 0xF8, 0x98),
        0x2C => (0x00, 0xE8, 0xD8),
        0x2D => (0x78, 0x78, 0x78),
        0x2E => (0x00, 0x00, 0x00),
        0x2F => (0x00, 0x00, 0x00),
        0x30 => (0xFC, 0xFC, 0xFC),
        0x31 => (0xA4, 0xE4, 0xFC),
        0x32 => (0xB8, 0xB8, 0xF8),
        0x33 => (0xD8, 0xB8, 0xF8),
        0x34 => (0xF8, 0xB8, 0xF8),
        0x35 => (0xF8, 0xA4, 0xC0),
        0x36 => (0xF0, 0xD0, 0xB0),
        0x37 => (0xFC, 0xE0, 0xA8),
        0x38 => (0xF8, 0xD8, 0x78),
        0x39 => (0xD8, 0xF8, 0x78),
        0x3A => (0xB8, 0xF8, 0xB8),
        0x3B => (0xB8, 0xF8, 0xD8),
        0x3C => (0x00, 0xFC, 0xFC),
        0x3D => (0xF8, 0xD8, 0xF8),
        0x3E => (0x00, 0x00, 0x00),
        _ => (0x00, 0x00, 0x00),
    }
}

} // verus!

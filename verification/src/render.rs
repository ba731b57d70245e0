//! Painting a picture from the state of the picture unit: first the 960
//! background tiles of the first nametable, then the 64 sprites over them.

use vstd::prelude::*;
use crate::frame::{with_pixel, Frame};
use crate::palette::{system_color, system_palette};
use crate::ppu::{ppu, PpuState};

verus! {

/// Pixels painted by the background pass: 960 tiles of 64 pixels.
pub const BACKGROUND_PIXELS: usize = 61440;

/// Pixels looked at by the sprite pass: 64 sprites of 64 pixels.
pub const SPRITE_PIXELS: usize = 4096;

/// The colour value, 0 to 3, of the pixel in column `x` of row `y` of the
/// tile whose 16 bytes start at `start`. The first eight bytes are one bit
/// plane, the second eight the other; bit 7 of a byte is the leftmost pixel.
/// The plane of the first eight bytes gives the high bit of the value.
pub open spec fn pattern_pixel(chr_rom: Seq<u8>, start: int, x: int, y: int) -> u8 {
    let upper: u8 = chr_rom[start + y];
    let lower: u8 = chr_rom[start + y + 8];
    let shift: u8 = (7 - x) as u8;
    (((upper >> shift) & 1) << 1) | ((lower >> shift) & 1)
}

/// Reads the colour value of a pixel of a tile.
fn read_pattern_pixel(chr_rom: &Vec<u8>, start: usize, x: usize, y: usize) -> (value: u8)
    requires
        start + 15 < chr_rom.len(),
        x < 8,
        y < 8,
    ensures
        value == pattern_pixel(chr_rom@, start as int, x as int, y as int),
{
    let upper: u8 = chr_rom[start + y];
    let lower: u8 = chr_rom[start + y + 8];
    let shift: u8 = (7 - x) as u8;
    (((upper >> shift) & 1) << 1) | ((lower >> shift) & 1)
}

/// Which two bits of an attribute byte belong to the tile in column
/// `tile_column` of row `tile_row`: an attribute byte covers four by four
/// tiles, and each of its bit pairs two by two of them, from the low bits up:
/// top left, top right, bottom left, bottom right.
pub open spec fn attribute_shift(tile_column: int, tile_row: int) -> u8 {
    let right = tile_column % 4 / 2 == 1;
    let bottom = tile_row % 4 / 2 == 1;
    if !right && !bottom {
        0
    } else if right && !bottom {
        2
    } else if !right && bottom {
        4
    } else {
        6
    }
}

/// The number, 0 to 3, of the background palette of a tile.
pub open spec fn background_palette_number(p: PpuState, tile_column: int, tile_row: int) -> u8 {
    let attr_byte: u8 = p.vram[0x3c0 + tile_row / 4 * 8 + tile_column / 4];
    (attr_byte >> attribute_shift(tile_column, tile_row)) & 0b11
}

/// The four colour numbers of a tile of the background: the universal
/// background colour, then the three colours of the tile's palette.
pub open spec fn background_palette(p: PpuState, tile_column: int, tile_row: int) -> Seq<u8> {
    let start: int = 1 + background_palette_number(p, tile_column, tile_row) * 4;
    seq![
        p.palette_table[0],
        p.palette_table[start],
        p.palette_table[start + 1],
        p.palette_table[start + 2],
    ]
}

/// The four colour numbers of sprite palette `palette_idx`; the first stands
/// for a transparent pixel and is never shown.
pub open spec fn sprite_palette_colors(p: PpuState, palette_idx: u8) -> Seq<u8> {
    let start: int = 0x11 + palette_idx * 4;
    seq![0u8, p.palette_table[start], p.palette_table[start + 1], p.palette_table[start + 2]]
}

/// The entry of a palette of four for a colour value.
pub open spec fn palette_entry(palette: Seq<u8>, value: u8) -> u8 {
    if value == 0 {
        palette[0]
    } else if value == 1 {
        palette[1]
    } else if value == 2 {
        palette[2]
    } else {
        palette[3]
    }
}

/// Two bits are a number below 4.
proof fn two_bits_bound(byte: u8, shift: u8)
    requires
        shift < 8,
    ensures
        (byte >> shift) & 0b11 <= 3,
        byte & 0b11 <= 3,
{
    assert(shift < 8 ==> (byte >> shift) & 0b11 <= 3 && byte & 0b11 <= 3) by (bit_vector);
}

/// The four colour numbers of a tile of the background.
pub fn bg_pallette(ppu: &ppu, tile_column: usize, tile_row: usize) -> (r: [u8; 4])
    requires
        tile_column < 32,
        tile_row < 30,
    ensures
        r@ == background_palette(ppu@, tile_column as int, tile_row as int),
{
    let attr_table_idx: usize = tile_row / 4 * 8 + tile_column / 4;
    let attr_byte: u8 = ppu.vram[0x3c0 + attr_table_idx];
    let right = tile_column % 4 / 2 == 1;
    let bottom = tile_row % 4 / 2 == 1;
    let shift: u8 = if !right && !bottom {
        0
    } else if right && !bottom {
        2
    } else if !right && bottom {
        4
    } else {
        6
    };
    let pallet_idx: u8 = (attr_byte >> shift) & 0b11;
    proof {
        two_bits_bound(attr_byte, shift);
    }
    let pallete_start: usize = 1 + (pallet_idx as usize) * 4;
    let r: [u8; 4] = [
        ppu.palette_table[0],
        ppu.palette_table[pallete_start],
        ppu.palette_table[pallete_start + 1],
        ppu.palette_table[pallete_start + 2],
    ];
    assert(r@ =~= background_palette(ppu@, tile_column as int, tile_row as int));
    r
}

/// The four colour numbers of a sprite palette.
pub fn sprite_palette(ppu: &ppu, pallete_idx: u8) -> (r: [u8; 4])
    requires
        pallete_idx <= 3,
    ensures
        r@ == sprite_palette_colors(ppu@, pallete_idx),
{
    let start: usize = 0x11 + (pallete_idx as usize) * 4;
    let r: [u8; 4] = [
        0,
        ppu.palette_table[start],
        ppu.palette_table[start + 1],
        ppu.palette_table[start + 2],
    ];
    assert(r@ =~= sprite_palette_colors(ppu@, pallete_idx));
    r
}

/// Picks the entry of a palette of four for a colour value.
fn pick(palette: &[u8; 4], value: u8) -> (r: u8)
    ensures
        r == palette_entry(palette@, value),
{
    if value == 0 {
        palette[0]
    } else if value == 1 {
        palette[1]
    } else if value == 2 {
        palette[2]
    } else {
        palette[3]
    }
}

/// The picture after pixel number `j` of the background has been painted.
/// Pixels are numbered tile by tile, within a tile row by row, and within a
/// row from the right.
pub open spec fn with_background_pixel(p: PpuState, data: Seq<u8>, j: int) -> Seq<u8> {
    let i = j / 64;
    let y = j % 64 / 8;
    let x = 7 - j % 8;
    let tile_column = i % 32;
    let tile_row = i / 32;
    let start = p.control_register.spec_background_pattern_addr() + p.vram[i] * 16;
    let value = pattern_pixel(p.chr_rom, start, x, y);
    let color = palette_entry(background_palette(p, tile_column, tile_row), value);
    with_pixel(data, tile_column * 8 + x, tile_row * 8 + y, system_color(color))
}

/// The picture after the first `n` pixels of the background have been painted.
pub open spec fn painted_background(p: PpuState, data: Seq<u8>, n: nat) -> Seq<u8>
    decreases n,
{
    if n == 0 {
        data
    } else {
        with_background_pixel(p, painted_background(p, data, (n - 1) as nat), n - 1)
    }
}

/// The picture after pixel number `j` of the sprites has been dealt with.
/// Sprite `j / 64` takes four bytes of sprite memory: its row on screen, its
/// tile, its attributes and its column on screen. Bits 0 and 1 of the
/// attributes choose its palette, bit 6 mirrors it left to right, bit 7 top to
/// bottom. A pixel of colour value 0 is transparent.
pub open spec fn with_sprite_pixel(p: PpuState, data: Seq<u8>, j: int) -> Seq<u8> {
    let i = j / 64 * 4;
    let y = j % 64 / 8;
    let x = 7 - j % 8;
    let tile_y = p.oam_data[i] as int;
    let tile_x = p.oam_data[i + 3] as int;
    let attributes: u8 = p.oam_data[i + 2];
    let flip_vertical = attributes & 0b1000_0000 == 0b1000_0000;
    let flip_horizontal = attributes & 0b0100_0000 == 0b0100_0000;
    let start = p.control_register.spec_sprite_pattern_addr() + p.oam_data[i + 1] * 16;
    let value = pattern_pixel(p.chr_rom, start, x, y);
    let color = palette_entry(sprite_palette_colors(p, attributes & 0b11), value);
    if value == 0 {
        data
    } else {
        with_pixel(
            data,
            if flip_horizontal {
                tile_x + 7 - x
            } else {
                tile_x + x
            },
            if flip_vertical {
                tile_y + 7 - y
            } else {
                tile_y + y
            },
            system_color(color),
        )
    }
}

/// The picture after the first `n` pixels of the sprites have been dealt with.
pub open spec fn painted_sprites(p: PpuState, data: Seq<u8>, n: nat) -> Seq<u8>
    decreases n,
{
    if n == 0 {
        data
    } else {
        with_sprite_pixel(p, painted_sprites(p, data, (n - 1) as nat), n - 1)
    }
}

/// The picture that the picture unit shows, painted over `data`.
pub open spec fn rendered(p: PpuState, data: Seq<u8>) -> Seq<u8> {
    painted_sprites(p, painted_background(p, data, 61440), 4096)
}

/// Paints pixel number `j` of the background.
fn render_background_pixel(ppu: &ppu, frame: &mut Frame, j: usize)
    requires
        ppu.chr_rom.len() >= 0x2000,
        old(frame).wf(),
        j < 61440,
    ensures
        final(frame).wf(),
        final(frame).data@ == with_background_pixel(ppu@, old(frame).data@, j as int),
{
    let i: usize = j / 64;
    let y: usize = j % 64 / 8;
    let x: usize = 7 - j % 8;
    let tile_column: usize = i % 32;
    let tile_row: usize = i / 32;
    let bank: u16 = ppu.control_register.background_pattern_addr();
    let tile: u16 = ppu.vram[i] as u16;
    let start: usize = (bank + tile * 16) as usize;
    let palette: [u8; 4] = bg_pallette(ppu, tile_column, tile_row);
    let value: u8 = read_pattern_pixel(&ppu.chr_rom, start, x, y);
    let rgb = system_palette(pick(&palette, value));
    frame.set_pixel(tile_column * 8 + x, tile_row * 8 + y, rgb);
}

/// Deals with pixel number `j` of the sprites.
fn render_sprite_pixel(ppu: &ppu, frame: &mut Frame, j: usize)
    requires
        ppu.chr_rom.len() >= 0x2000,
        old(frame).wf(),
        j < 4096,
    ensures
        final(frame).wf(),
        final(frame).data@ == with_sprite_pixel(ppu@, old(frame).data@, j as int),
{
    let i: usize = j / 64 * 4;
    let y: usize = j % 64 / 8;
    let x: usize = 7 - j % 8;
    let tile_y: usize = ppu.oam_data[i] as usize;
    let tile_x: usize = ppu.oam_data[i + 3] as usize;
    let index_number: u16 = ppu.oam_data[i + 1] as u16;
    let attributes: u8 = ppu.oam_data[i + 2];
    let flip_vertical = attributes & 0b1000_0000 == 0b1000_0000;
    let flip_horizontal = attributes & 0b0100_0000 == 0b0100_0000;
    let pallette_idx: u8 = attributes & 0b11;
    proof {
        two_bits_bound(attributes, 0);
    }
    let palette: [u8; 4] = sprite_palette(ppu, pallette_idx);
    let bank: u16 = ppu.control_register.sprite_pattern_addr();
    let start: usize = (bank + index_number * 16) as usize;
    let value: u8 = read_pattern_pixel(&ppu.chr_rom, start, x, y);
    if value != 0 {
        let rgb = system_palette(pick(&palette, value));
        let dest_x: usize = if flip_horizontal { tile_x + 7 - x } else { tile_x + x };
        let dest_y: usize = if flip_vertical { tile_y + 7 - y } else { tile_y + y };
        frame.set_pixel(dest_x, dest_y, rgb);
    }
}

/// Paints the picture that the picture unit shows into `frame`.
pub fn render(ppu: &ppu, frame: &mut Frame)
    requires
        ppu.chr_rom.len() >= 0x2000,
        old(frame).wf(),
    ensures
        final(frame).wf(),
        final(frame).data@ == rendered(ppu@, old(frame).data@),
{
    let mut j: usize = 0;
    while j < BACKGROUND_PIXELS
        invariant
            j <= BACKGROUND_PIXELS,
            frame.wf(),
            ppu.chr_rom.len() >= 0x2000,
            frame.data@ == painted_background(ppu@, old(frame).data@, j as nat),
        decreases BACKGROUND_PIXELS - j,
    {
        render_background_pixel(ppu, frame, j);
        j += 1;
    }
    let ghost background = frame.data@;
    let mut k: usize = 0;
    while k < SPRITE_PIXELS
        invariant
            k <= SPRITE_PIXELS,
            frame.wf(),
            ppu.chr_rom.len() >= 0x2000,
            frame.data@ == painted_sprites(ppu@, background, k as nat),
        decreases SPRITE_PIXELS - k,
    {
        render_sprite_pixel(ppu, frame, k);
        k += 1;
    }
}

} // verus!

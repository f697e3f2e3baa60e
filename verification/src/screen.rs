//! The presentation boundary: the screen as bytes for a texture, and the
//! picture that the viewer of video RAM shows.

use vstd::prelude::*;
use crate::gameboy::{Rgb, LCDC_TILE_DATA};
use crate::ppu::{any_set, shade, tile_pixel, read_tile_shade};

verus! {

/// Lines of the screen.
pub const SCREEN_HEIGHT: usize = 144;
/// Pixels of a side of the picture of video RAM.
pub const VIEWER_SIDE: usize = 128;

/// Bytes that a line of the screen takes in a buffer.
pub const LINE_BYTES: usize = 480;

/// Whether a buffer starts with a line of the screen, three bytes a
/// pixel: red, green, blue.
pub open spec fn holds_line(buffer: Seq<u8>, line: [Rgb; 160], pixels: int) -> bool {
    forall|x: int|
        0 <= x < pixels ==> {
            &&& buffer[x * 3] == (#[trigger] line[x]).0
            &&& buffer[x * 3 + 1] == line[x].1
            &&& buffer[x * 3 + 2] == line[x].2
        }
}

/// Copies a line of the screen to the start of a buffer of a texture. The
/// bytes behind the line stay as they are.
pub fn copy_line(line: &[Rgb; 160], buffer: &mut [u8])
    requires
        old(buffer)@.len() >= 480,
    ensures
        final(buffer)@.len() == old(buffer)@.len(),
        holds_line(final(buffer)@, *line, 160),
        forall|i: int| 480 <= i < old(buffer)@.len() ==> final(buffer)@[i] == old(buffer)@[i],
{
    let mut x: usize = 0;
    while x < 160
        invariant
            x <= 160,
            buffer@.len() == old(buffer)@.len(),
            buffer@.len() >= 480,
            holds_line(buffer@, *line, x as int),
            forall|i: int| 3 * x <= i < old(buffer)@.len() ==> buffer@[i] == old(buffer)@[i],
        decreases 160 - x,
    {
        let offset = x * 3;
        let pixel = line[x];
        buffer[offset] = pixel.0;
        buffer[offset + 1] = pixel.1;
        buffer[offset + 2] = pixel.2;
        x += 1;
    }
}

/// Where in video RAM the tile data starts that the picture of video RAM
/// shows.
pub open spec fn viewer_base(lcdc: u8) -> int {
    if any_set(lcdc, LCDC_TILE_DATA) {
        0x0000
    } else {
        0x0800
    }
}

/// The colour of a pixel of the picture of video RAM: 16 tiles a row, in
/// the order in which they lie in the tile data, shaded by the background
/// palette.
pub open spec fn viewer_color(vram: [u8; 0x2000], lcdc: u8, bgp: u8, palette: [Rgb; 4], x: int, y: int) -> Rgb {
    let tile = (y / 8) * 16 + x / 8;
    let row_start = viewer_base(lcdc) + tile * 16 + (y % 8) * 2;
    palette[shade(bgp, tile_pixel(vram, row_start, (x % 8) as u8)) as int]
}

/// Computes the colour of a pixel of the picture of video RAM.
pub fn viewer_pixel(vram: &[u8; 0x2000], lcdc: u8, bgp: u8, palette: &[Rgb; 4], x: usize, y: usize) -> (color:
    Rgb)
    requires
        x < 128,
        y < 128,
    ensures
        color == viewer_color(*vram, lcdc, bgp, *palette, x as int, y as int),
{
    let base: usize = if lcdc & LCDC_TILE_DATA > 0 { 0x0000 } else { 0x0800 };
    let tile_data_ix = (y / 8) * 16 + (x / 8);
    let row_ix = y % 8;
    let row_start = base + (tile_data_ix * 16) + (row_ix * 2);
    palette[read_tile_shade(vram, row_start, (x % 8) as u8, bgp) as usize]
}

/// The tile that the picture of video RAM shows at a pixel, and the
/// address of the row of the tile that the pixel lies in.
pub open spec fn viewer_tile(lcdc: u8, x: int, y: int) -> (int, int) {
    let tile = (y / 8) * 16 + x / 8;
    (tile, 0x8000 + viewer_base(lcdc) + tile * 16 + (y % 8) * 2)
}

/// Finds the tile under a pixel of the picture of video RAM.
pub fn viewer_tile_at(lcdc: u8, x: u32, y: u32) -> (r: (u32, u32))
    requires
        x < 128,
        y < 128,
    ensures
        (r.0 as int, r.1 as int) == viewer_tile(lcdc, x as int, y as int),
{
    let tile_data_ix = (y / 8) * 16 + (x / 8);
    let row_ix = y % 8;
    let row_start = (tile_data_ix * 16) + (row_ix * 2);
    let base_addr: u32 = if lcdc & LCDC_TILE_DATA > 0 { 0x8000 } else { 0x8800 };
    (tile_data_ix, base_addr + row_start)
}

} // verus!

//! Rendering a frame from the state of the picture unit: the background,
//! tile by tile from the name tables, then the sprites from sprite memory.
//!
//! A tile is 16 bytes of pattern memory, two planes of eight rows. The pixel
//! in column `c` of row `r` has the value `2 * bit(tile[r + 8], 7 - c) +
//! bit(tile[r], 7 - c)`: a colour of the tile's palette, or for 0 the
//! backdrop (background) or nothing (sprites).

use vstd::prelude::*;
use crate::ppu::ppu::NesPPU;
use crate::rom::ines::Mirroring;
use crate::screen::frame::{Frame, HEIGHT, WIDTH, with_pixel};
use crate::screen::pallete::{rgb, system_color};

verus! {

/// Tiles of the visible background: 32 columns, 30 rows.
pub const TILES: usize = 0x3c0;

/// A way to turn the state of the picture unit into a frame. Whatever the
/// way, the frame is the one that `rendered` describes.
pub trait Renderer {
    fn render(ppu: &NesPPU) -> (frame: Frame)
        ensures
            frame.data@ == rendered(*ppu, blank_frame()),
    ;
}

/// The renderer that draws pixel by pixel in software.
pub struct PixelRenderer {}

impl Renderer for PixelRenderer {
    fn render(ppu: &NesPPU) -> (frame: Frame) {
        render(ppu)
    }
}

/// The buffer of a black frame.
pub open spec fn blank_frame() -> Seq<u8> {
    Seq::new((WIDTH * HEIGHT * 3) as nat, |i: int| 0u8)
}

/// The 16 bytes of pattern memory from `base` on.
pub open spec fn tile_at(ppu: NesPPU, base: int) -> Seq<u8> {
    Seq::new(16, |j: int| ppu.chr_byte(base + j))
}

/// The value, 0 to 3, of the pixel in column `dx` of row `dy` of `tile`.
pub open spec fn tile_value(tile: Seq<u8>, dx: int, dy: int) -> u8 {
    (((tile[dy + 8] >> ((7 - dx) as u8)) & 1) * 2 + ((tile[dy] >> ((7 - dx) as u8)) & 1)) as u8
}

/// The four colour numbers of sprite palette `pallete_idx` (taken modulo 4);
/// the first is never shown.
pub open spec fn sprite_palette_spec(ppu: NesPPU, pallete_idx: u8) -> Seq<u8> {
    let start = 0x11 + (pallete_idx % 4) * 4;
    seq![0u8, ppu.palette_table[start], ppu.palette_table[start + 1], ppu.palette_table[start + 2]]
}

/// Where the attribute table of the name table of `tile_addr` starts.
pub open spec fn attribute_base(tile_addr: u16) -> int {
    0x23c0 + ((tile_addr % 0x1000) / 0x400) * 0x400
}

/// The four colour numbers of the background palette for the tile in column
/// `tile_x`, row `tile_y` of the name table of `tile_addr`: the attribute
/// byte of the tile's block of 4 x 4 tiles holds two bits for each of its
/// quadrants; the first colour is the backdrop.
pub open spec fn bg_pallette_spec(ppu: NesPPU, tile_addr: u16, tile_x: int, tile_y: int) -> Seq<
    u8,
> {
    let attr_table_idx = tile_y / 4 * 8 + tile_x / 4;
    let attr_byte = ppu.vram_byte(
        ppu.mirror_vram_addr_spec((attribute_base(tile_addr) + attr_table_idx) as u16),
    );
    let quadrant = (tile_y % 4 / 2) * 2 + tile_x % 4 / 2;
    let pallet_idx = (attr_byte >> ((quadrant * 2) as u8)) & 0b11;
    let start = 1 + pallet_idx * 4;
    seq![
        ppu.palette_table[0],
        ppu.palette_table[start],
        ppu.palette_table[start + 1],
        ppu.palette_table[start + 2],
    ]
}

/// The name-table addresses for cell `i` of the visible background under
/// the current scroll: the address of the tile number, and the address by
/// which the tile's palette is found. Horizontal mirroring scrolls
/// vertically, any other scrolls horizontally.
pub open spec fn tile_vram_addr_spec(ppu: NesPPU, i: int) -> (u16, u16) {
    let scroll_x = ppu.scroll.scroll_x as int;
    let scroll_y = ppu.scroll.scroll_y as int;
    let base = ppu.ctrl.nametable_addr_spec() as int;
    if ppu.mirroring is HORIZONTAL {
        let shifted = i + scroll_y / 8 * 8 * 4;
        let skipped = if shifted >= 0x3c0 {
            shifted + 64
        } else {
            shifted
        };
        let first = skipped + base;
        let second = if 0x2400 <= first <= 0x27ff {
            (first + 0x400, first - 0x400)
        } else {
            (first, first)
        };
        let third = if second.0 >= 0x2c00 {
            (second.0 - 3 * 0x400, second.1 - 3 * 0x400)
        } else {
            second
        };
        let palette = if base == 0x2800 && 0x2800 <= third.0 <= 0x2bff {
            third.1 - 0x400
        } else {
            third.1
        };
        (third.0 as u16, palette as u16)
    } else {
        let wrapped = if i % 32 + scroll_x / 8 > 31 {
            i + 0x400 - 32
        } else {
            i
        };
        let shifted = wrapped + scroll_x / 8;
        let skipped = if 0x3c0 <= shifted < 0x3c0 + 64 {
            shifted + 64
        } else {
            shifted
        };
        let first = skipped + base;
        let palette = if first >= base + 1024 {
            if base == 0x2000 {
                first - 0x400
            } else {
                first - 0x800
            }
        } else {
            if base == 0x2400 {
                first - 0x400
            } else {
                first
            }
        };
        (first as u16, palette as u16)
    }
}

/// The tile and the palette of a background cell.
pub open spec fn load_tile_and_palette_spec(ppu: NesPPU, tile_addr: u16, tile_bg_addr: u16) -> (
    Seq<u8>,
    Seq<u8>,
) {
    let bank = ppu.ctrl.bknd_pattern_addr_spec();
    let tile = ppu.vram_byte(ppu.mirror_vram_addr_spec(tile_addr));
    let mirror_i2 = ppu.mirror_vram_addr_spec(tile_bg_addr);
    (
        tile_at(ppu, bank + tile * 16),
        bg_pallette_spec(ppu, tile_addr, (mirror_i2 % 32) as int, (mirror_i2 / 32) as int),
    )
}

/// The buffer after the first `count` pixels of a background tile were
/// drawn with its top left corner at `(x, y)`, row by row, each row from
/// the right. Value 0 shows the backdrop.
pub open spec fn tile_drawn(
    data: Seq<u8>,
    x: int,
    y: int,
    tile: Seq<u8>,
    palette: Seq<u8>,
    backdrop: u8,
    count: nat,
) -> Seq<u8>
    decreases count,
{
    if count == 0 {
        data
    } else {
        let dy = (count - 1) / 8;
        let dx = 7 - (count - 1) % 8;
        let value = tile_value(tile, dx, dy);
        let color = if value == 0 {
            backdrop
        } else {
            palette[value as int]
        };
        with_pixel(
            tile_drawn(data, x, y, tile, palette, backdrop, (count - 1) as nat),
            x + dx,
            y + dy,
            system_color(color),
        )
    }
}

/// The buffer after the first `count` cells of the background were drawn.
pub open spec fn cells_drawn(ppu: NesPPU, data: Seq<u8>, count: nat) -> Seq<u8>
    decreases count,
{
    if count == 0 {
        data
    } else {
        let i = count - 1;
        let addr = tile_vram_addr_spec(ppu, i);
        let loaded = load_tile_and_palette_spec(ppu, addr.0, addr.1);
        tile_drawn(
            cells_drawn(ppu, data, i as nat),
            (i % 32) * 8 - ppu.scroll.scroll_x % 8,
            (i / 32) * 8 - ppu.scroll.scroll_y % 8,
            loaded.0,
            loaded.1,
            ppu.palette_table[0],
            64,
        )
    }
}

/// The buffer after the first `count` tiles of the rightmost column were
/// drawn: with a horizontal scroll that is no multiple of 8 the cells leave
/// a gap at the right edge, which the next name table's tiles fill.
pub open spec fn edge_drawn(ppu: NesPPU, data: Seq<u8>, count: nat) -> Seq<u8>
    decreases count,
{
    if count == 0 {
        data
    } else {
        let i = count - 1;
        let scroll_x = ppu.scroll.scroll_x as int;
        let start = if ppu.ctrl.nametable_addr_spec() == 0x2000 {
            0x2400
        } else {
            0x2000int
        };
        let loaded = load_tile_and_palette_spec(
            ppu,
            (scroll_x / 8 + i * 32 + start) as u16,
            tile_vram_addr_spec(ppu, i * 32).1,
        );
        tile_drawn(
            edge_drawn(ppu, data, i as nat),
            256 - scroll_x % 8,
            i * 8,
            loaded.0,
            loaded.1,
            ppu.palette_table[0],
            64,
        )
    }
}

/// The buffer with the background drawn on it.
pub open spec fn background_drawn(ppu: NesPPU, data: Seq<u8>) -> Seq<u8> {
    let cells = cells_drawn(ppu, data, TILES as nat);
    if ppu.scroll.scroll_x % 8 != 0 {
        edge_drawn(ppu, cells, 30)
    } else {
        cells
    }
}

/// The buffer after the first `count` pixels of sprite `n` were drawn, row
/// by row, each row from the right. Value 0 is transparent. Bit 6 of the
/// attribute byte flips the sprite horizontally, bit 7 vertically.
pub open spec fn sprite_drawn(ppu: NesPPU, data: Seq<u8>, n: int, count: nat) -> Seq<u8>
    decreases count,
{
    if count == 0 {
        data
    } else {
        let attributes = ppu.oam_data[n * 4 + 2];
        let tile = tile_at(
            ppu,
            ppu.ctrl.sprt_pattern_addr_spec() + ppu.oam_data[n * 4 + 1] * 16,
        );
        let palette = sprite_palette_spec(ppu, attributes & 0b11);
        let y = (count - 1) / 8;
        let x = 7 - (count - 1) % 8;
        let value = tile_value(tile, x, y);
        let before = sprite_drawn(ppu, data, n, (count - 1) as nat);
        if value == 0 {
            before
        } else {
            with_pixel(
                before,
                ppu.oam_data[n * 4 + 3] + if (attributes >> 6) & 1 == 1 {
                    7 - x
                } else {
                    x
                },
                ppu.oam_data[n * 4] + if (attributes >> 7) & 1 == 1 {
                    7 - y
                } else {
                    y
                },
                system_color(palette[value as int]),
            )
        }
    }
}

/// The buffer after the last `count` sprites were drawn, the last sprite
/// first: sprite 0 is drawn last and shows on top.
pub open spec fn sprites_drawn(ppu: NesPPU, data: Seq<u8>, count: nat) -> Seq<u8>
    decreases count,
{
    if count == 0 {
        data
    } else {
        sprite_drawn(ppu, sprites_drawn(ppu, data, (count - 1) as nat), 64 - count, 64)
    }
}

/// The frame that the unit shows.
pub open spec fn rendered(ppu: NesPPU, blank: Seq<u8>) -> Seq<u8> {
    sprites_drawn(ppu, background_drawn(ppu, blank), 64)
}

fn sprite_palette(ppu: &NesPPU, pallete_idx: u8) -> (palette: [u8; 4])
    ensures
        palette@ == sprite_palette_spec(*ppu, pallete_idx),
{
    let start = 0x11 + ((pallete_idx % 4) * 4) as usize;
    let palette = [
        0,
        ppu.palette_table[start],
        ppu.palette_table[start + 1],
        ppu.palette_table[start + 2],
    ];
    assert(palette@ =~= sprite_palette_spec(*ppu, pallete_idx));
    palette
}

fn bg_pallette(ppu: &NesPPU, tile_addr: u16, tile_x: usize, tile_y: usize) -> (palette: [u8; 4])
    requires
        tile_x < 32,
        tile_y < 128,
    ensures
        palette@ == bg_pallette_spec(*ppu, tile_addr, tile_x as int, tile_y as int),
{
    let attr_table_idx = tile_y / 4 * 8 + tile_x / 4;
    let pos: usize = 0x23c0 + (((tile_addr % 0x1000) / 0x400) as usize) * 0x400;
    let attr_byte = ppu.read_vram(ppu.mirror_vram_addr((pos + attr_table_idx) as u16));
    let quadrant = (tile_y % 4 / 2) * 2 + tile_x % 4 / 2;
    let pallet_idx = (attr_byte >> ((quadrant * 2) as u8)) & 0b11;
    assert(pallet_idx <= 3) by (bit_vector)
        requires
            pallet_idx == (attr_byte >> ((quadrant * 2) as u8)) & 0b11,
    ;
    let pallete_start: usize = 1 + (pallet_idx as usize) * 4;
    let palette = [
        ppu.palette_table[0],
        ppu.palette_table[pallete_start],
        ppu.palette_table[pallete_start + 1],
        ppu.palette_table[pallete_start + 2],
    ];
    assert(palette@ =~= bg_pallette_spec(*ppu, tile_addr, tile_x as int, tile_y as int));
    palette
}

fn fetch_tile(ppu: &NesPPU, base: usize) -> (tile: [u8; 16])
    requires
        base <= 0x10000,
    ensures
        tile@ == tile_at(*ppu, base as int),
{
    let mut tile: [u8; 16] = [0;16];
    let mut j: usize = 0;
    while j < 16
        invariant
            j <= 16,
            base <= 0x10000,
            forall|k: int| 0 <= k < j ==> tile[k] == ppu.chr_byte(base + k),
        decreases 16 - j,
    {
        tile[j] = ppu.read_chr(base + j);
        j = j + 1;
    }
    assert(tile@ =~= tile_at(*ppu, base as int));
    tile
}

/// The value of a pixel of `tile`; see `tile_value`.
fn pixel_value(tile: &[u8; 16], dx: usize, dy: usize) -> (value: u8)
    requires
        dx < 8,
        dy < 8,
    ensures
        value == tile_value(tile@, dx as int, dy as int),
        value <= 3,
{
    let shift = (7 - dx) as u8;
    let first = tile[dy];
    let second = tile[dy + 8];
    let upper = (first >> shift) & 1;
    let lower = (second >> shift) & 1;
    assert(upper <= 1 && lower <= 1) by (bit_vector)
        requires
            upper == (first >> shift) & 1,
            lower == (second >> shift) & 1,
    ;
    lower * 2 + upper
}

fn render_tile(
    x: isize,
    y: isize,
    tile: &[u8; 16],
    palette: [u8; 4],
    ppu: &NesPPU,
    frame: &mut Frame,
)
    requires
        -8 <= x <= 256,
        -8 <= y <= 240,
    ensures
        final(frame).data@ == tile_drawn(
            old(frame).data@,
            x as int,
            y as int,
            tile@,
            palette@,
            ppu.palette_table[0],
            64,
        ),
{
    let mut k: usize = 0;
    while k < 64
        invariant
            k <= 64,
            -8 <= x <= 256,
            -8 <= y <= 240,
            frame.data@ == tile_drawn(
                old(frame).data@,
                x as int,
                y as int,
                tile@,
                palette@,
                ppu.palette_table[0],
                k as nat,
            ),
        decreases 64 - k,
    {
        let dy = k / 8;
        let dx = 7 - k % 8;
        let value = pixel_value(tile, dx, dy);
        let color = if value == 0 {
            rgb(ppu.palette_table[0])
        } else {
            rgb(palette[value as usize])
        };
        let pixel_x = x + dx as isize;
        let pixel_y = y + dy as isize;
        if pixel_x >= 0 && pixel_x < 256 && pixel_y >= 0 && pixel_y < 240 {
            frame.set_pixel(pixel_x as usize, pixel_y as usize, color);
        }
        k = k + 1;
    }
}

fn load_tile_and_palette(ppu: &NesPPU, tile_addr: u16, tile_bg_addr: u16) -> (loaded: (
    [u8; 16],
    [u8; 4],
))
    ensures
        (loaded.0@, loaded.1@) == load_tile_and_palette_spec(*ppu, tile_addr, tile_bg_addr),
{
    let bank = ppu.ctrl.bknd_pattern_addr() as usize;
    let tile = ppu.read_vram(ppu.mirror_vram_addr(tile_addr)) as usize;
    let mirror_i2 = ppu.mirror_vram_addr(tile_bg_addr) as usize;
    let test_tile_x = mirror_i2 % 32;
    let test_tile_y = mirror_i2 / 32;
    let tile = fetch_tile(ppu, bank + tile * 16);
    let palette = bg_pallette(ppu, tile_addr, test_tile_x, test_tile_y);
    (tile, palette)
}

fn tile_vram_addr(i: usize, ppu: &NesPPU) -> (addr: (u16, u16))
    requires
        i < TILES,
    ensures
        addr == tile_vram_addr_spec(*ppu, i as int),
{
    let scroll_x = ppu.scroll.scroll_x as u16;
    let scroll_y = ppu.scroll.scroll_y as u16;
    let base = ppu.ctrl.nametable_addr();
    let mut tile_addr = i as u16;
    let mut tile_bg_addr: u16;
    match ppu.mirroring {
        Mirroring::HORIZONTAL => {
            tile_addr = tile_addr + scroll_y / 8 * 8 * 4;
            if tile_addr >= 0x3c0 {
                tile_addr = tile_addr + 64;
            }
            tile_addr = tile_addr + base;
            tile_bg_addr = tile_addr;
            if tile_addr >= 0x2400 && tile_addr <= 0x27ff {
                tile_addr = tile_addr + 0x400;
                tile_bg_addr = tile_bg_addr - 0x400;
            }
            if tile_addr >= 0x2c00 {
                tile_addr = tile_addr - 3 * 0x400;
                tile_bg_addr = tile_bg_addr - 3 * 0x400;
            }
            if base == 0x2800 && tile_addr >= 0x2800 && tile_addr <= 0x2bff {
                tile_bg_addr = tile_bg_addr - 0x400;
            }
        },
        _ => {
            if (i % 32) as u16 + scroll_x / 8 > 31 {
                tile_addr = tile_addr + 0x400;
                tile_addr = tile_addr - 32;
            }
            tile_addr = tile_addr + scroll_x / 8;
            if tile_addr >= 0x3c0 && tile_addr < 0x3c0 + 64 {
                tile_addr = tile_addr + 64;
            }
            tile_addr = tile_addr + base;
            tile_bg_addr = tile_addr;
            if tile_bg_addr >= base + 1024 {
                if base == 0x2000 {
                    tile_bg_addr = tile_bg_addr - 0x400;
                } else {
                    tile_bg_addr = tile_bg_addr - 0x800;
                }
            } else {
                if base == 0x2400 {
                    tile_bg_addr = tile_bg_addr - 0x400;
                }
            }
        },
    }
    (tile_addr, tile_bg_addr)
}

fn render_background(ppu: &NesPPU, frame: &mut Frame)
    ensures
        final(frame).data@ == background_drawn(*ppu, old(frame).data@),
{
    let scroll_x = ppu.scroll.scroll_x as isize;
    let scroll_y = ppu.scroll.scroll_y as isize;
    let mut i: usize = 0;
    while i < TILES
        invariant
            i <= TILES,
            scroll_x == ppu.scroll.scroll_x,
            scroll_y == ppu.scroll.scroll_y,
            frame.data@ == cells_drawn(*ppu, old(frame).data@, i as nat),
        decreases TILES - i,
    {
        let (tile_addr, tile_bg_addr) = tile_vram_addr(i, ppu);
        let (tile, palette) = load_tile_and_palette(ppu, tile_addr, tile_bg_addr);
        let delta_y = scroll_y % 8;
        let delta_x = scroll_x % 8;
        let tile_x = (i % 32) as isize;
        let tile_y = (i / 32) as isize;
        render_tile(tile_x * 8 - delta_x, tile_y * 8 - delta_y, &tile, palette, ppu, frame);
        i = i + 1;
    }
    if scroll_x % 8 != 0 {
        let ghost cells = frame.data@;
        let mut i: usize = 0;
        while i < 30
            invariant
                i <= 30,
                scroll_x == ppu.scroll.scroll_x,
                frame.data@ == edge_drawn(*ppu, cells, i as nat),
            decreases 30 - i,
        {
            let x = 255 - scroll_x % 8;
            let y = (i * 8) as isize;
            let (_, tile_bg_addr) = tile_vram_addr(i * 32, ppu);
            let mut tile_addr = (scroll_x / 8) as u16 + (i as u16) * 32;
            if ppu.ctrl.nametable_addr() == 0x2000 {
                tile_addr = tile_addr + 0x2400;
            } else {
                tile_addr = tile_addr + 0x2000;
            }
            let (tile, palette) = load_tile_and_palette(ppu, tile_addr, tile_bg_addr);
            render_tile(x + 1, y, &tile, palette, ppu, frame);
            i = i + 1;
        }
    }
}

fn render_sprite(ppu: &NesPPU, frame: &mut Frame, n: usize)
    requires
        n < 64,
    ensures
        final(frame).data@ == sprite_drawn(*ppu, old(frame).data@, n as int, 64),
{
    let i = n * 4;
    let attributes = ppu.oam_data[i + 2];
    let flip_vertical = (attributes >> 7) & 1 == 1;
    let flip_horizontal = (attributes >> 6) & 1 == 1;
    let pallette_idx = attributes & 0b11;
    let sprite_palette = sprite_palette(ppu, pallette_idx);
    let bank = ppu.ctrl.sprt_pattern_addr() as usize;
    let tile = ppu.oam_data[i + 1] as usize;
    let tile_x = ppu.oam_data[i + 3] as usize;
    let tile_y = ppu.oam_data[i] as usize;
    let tile = fetch_tile(ppu, bank + tile * 16);
    let mut k: usize = 0;
    while k < 64
        invariant
            k <= 64,
            n < 64,
            i == n * 4,
            attributes == ppu.oam_data[n * 4 + 2],
            flip_vertical == ((attributes >> 7) & 1 == 1),
            flip_horizontal == ((attributes >> 6) & 1 == 1),
            sprite_palette@ == sprite_palette_spec(*ppu, attributes & 0b11),
            tile@ == tile_at(
                *ppu,
                ppu.ctrl.sprt_pattern_addr_spec() + ppu.oam_data[n * 4 + 1] * 16,
            ),
            tile_x == ppu.oam_data[n * 4 + 3],
            tile_y == ppu.oam_data[n * 4],
            frame.data@ == sprite_drawn(*ppu, old(frame).data@, n as int, k as nat),
        decreases 64 - k,
    {
        let y = k / 8;
        let x = 7 - k % 8;
        let value = pixel_value(&tile, x, y);
        if value != 0 {
            let color = rgb(sprite_palette[value as usize]);
            let pixel_x = if flip_horizontal {
                tile_x + 7 - x
            } else {
                tile_x + x
            };
            let pixel_y = if flip_vertical {
                tile_y + 7 - y
            } else {
                tile_y + y
            };
            frame.set_pixel(pixel_x, pixel_y, color);
        }
        k = k + 1;
    }
}

fn render_sprites(ppu: &NesPPU, frame: &mut Frame)
    ensures
        final(frame).data@ == sprites_drawn(*ppu, old(frame).data@, 64),
{
    let mut count: usize = 0;
    while count < 64
        invariant
            count <= 64,
            frame.data@ == sprites_drawn(*ppu, old(frame).data@, count as nat),
        decreases 64 - count,
    {
        render_sprite(ppu, frame, 63 - count);
        count = count + 1;
    }
}

/// Renders the frame that the unit shows: the background, then the sprites
/// over it. Pixels that fall outside the picture are dropped.
pub fn render(ppu: &NesPPU) -> (frame: Frame)
    ensures
        frame.data@ == rendered(*ppu, blank_frame()),
{
    let mut frame = Frame::new();
    render_background(ppu, &mut frame);
    render_sprites(ppu, &mut frame);
    frame
}

} // verus!

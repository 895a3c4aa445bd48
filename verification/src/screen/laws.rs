//! What holds of every rendered frame, pixel by pixel.

use vstd::prelude::*;
use crate::ppu::ppu::NesPPU;
use crate::screen::frame::{HEIGHT, WIDTH, pixel_base, with_pixel};
use crate::screen::pallete::system_color;
use crate::screen::render::{
    TILES,
    background_drawn,
    blank_frame,
    cells_drawn,
    edge_drawn,
    load_tile_and_palette_spec,
    rendered,
    sprite_drawn,
    sprite_palette_spec,
    sprites_drawn,
    tile_at,
    tile_drawn,
    tile_value,
    tile_vram_addr_spec,
};

verus! {

/// Whether `(x, y)` lies in the picture.
pub open spec fn in_picture(x: int, y: int) -> bool {
    0 <= x < WIDTH && 0 <= y < HEIGHT
}

/// The colour of the pixel `(x, y)` in a buffer.
pub open spec fn pixel_at(data: Seq<u8>, x: int, y: int) -> (u8, u8, u8) {
    (data[pixel_base(x, y)], data[pixel_base(x, y) + 1], data[pixel_base(x, y) + 2])
}

/// Whether `data` is the buffer of a whole frame.
pub open spec fn is_frame(data: Seq<u8>) -> bool {
    data.len() == WIDTH * HEIGHT * 3
}

/// Setting a pixel of a frame changes that pixel and no other; a pixel
/// outside the picture is dropped.
pub proof fn set_pixel_changes_one_pixel(
    data: Seq<u8>,
    x: int,
    y: int,
    rgb: (u8, u8, u8),
    px: int,
    py: int,
)
    requires
        is_frame(data),
        in_picture(px, py),
    ensures
        is_frame(with_pixel(data, x, y, rgb)),
        pixel_at(with_pixel(data, x, y, rgb), px, py) == if px == x && py == y {
            rgb
        } else {
            pixel_at(data, px, py)
        },
{
    if in_picture(x, y) {
        assert(pixel_base(x, y) + 2 < data.len());
        if !(px == x && py == y) {
            assert(pixel_base(px, py) + 3 <= pixel_base(x, y) || pixel_base(x, y) + 3 <= pixel_base(
                px,
                py,
            ));
        }
    }
}

/// The colour number of a pixel of a background tile: the backdrop for
/// value 0, else the palette's entry.
pub open spec fn tile_color(tile: Seq<u8>, palette: Seq<u8>, backdrop: u8, dx: int, dy: int) -> u8 {
    if tile_value(tile, dx, dy) == 0 {
        backdrop
    } else {
        palette[tile_value(tile, dx, dy) as int]
    }
}

/// Drawing goes row by row, each row from the right: the place of a pixel
/// of a tile in that order.
pub open spec fn drawing_order(dx: int, dy: int) -> int {
    dy * 8 + (7 - dx)
}

/// After the first `count` pixels of a background tile were drawn, a pixel
/// of the picture shows the tile where the tile covers it and its turn has
/// come, and is unchanged elsewhere.
pub proof fn drawn_tile_pixel(
    data: Seq<u8>,
    x: int,
    y: int,
    tile: Seq<u8>,
    palette: Seq<u8>,
    backdrop: u8,
    count: nat,
    px: int,
    py: int,
)
    requires
        is_frame(data),
        in_picture(px, py),
        count <= 64,
    ensures
        is_frame(tile_drawn(data, x, y, tile, palette, backdrop, count)),
        pixel_at(tile_drawn(data, x, y, tile, palette, backdrop, count), px, py) == if x <= px < x
            + 8 && y <= py < y + 8 && drawing_order(px - x, py - y) < count {
            system_color(tile_color(tile, palette, backdrop, px - x, py - y))
        } else {
            pixel_at(data, px, py)
        },
    decreases count,
{
    if count > 0 {
        let before = tile_drawn(data, x, y, tile, palette, backdrop, (count - 1) as nat);
        drawn_tile_pixel(data, x, y, tile, palette, backdrop, (count - 1) as nat, px, py);
        let dy = (count - 1) / 8;
        let dx = 7 - (count - 1) % 8;
        assert(drawing_order(dx, dy) == count - 1);
        let color = system_color(tile_color(tile, palette, backdrop, dx, dy));
        set_pixel_changes_one_pixel(before, x + dx, y + dy, color, px, py);
        if x <= px < x + 8 && y <= py < y + 8 {
            assert(drawing_order(px - x, py - y) == count - 1 <==> (px == x + dx && py == y + dy));
        }
    }
}

/// A background tile drawn at `(x, y)` covers eight by eight pixels: each
/// pixel of the picture in that square shows the colour of the tile's value
/// there, value 0 the backdrop; every other pixel is unchanged.
pub proof fn drawn_tile_shows_its_pixels(
    data: Seq<u8>,
    x: int,
    y: int,
    tile: Seq<u8>,
    palette: Seq<u8>,
    backdrop: u8,
    px: int,
    py: int,
)
    requires
        is_frame(data),
        in_picture(px, py),
    ensures
        pixel_at(tile_drawn(data, x, y, tile, palette, backdrop, 64), px, py) == if x <= px < x + 8
            && y <= py < y + 8 {
            system_color(tile_color(tile, palette, backdrop, px - x, py - y))
        } else {
            pixel_at(data, px, py)
        },
{
    drawn_tile_pixel(data, x, y, tile, palette, backdrop, 64, px, py);
}

/// The tile of sprite `n`.
pub open spec fn sprite_tile(ppu: NesPPU, n: int) -> Seq<u8> {
    tile_at(ppu, ppu.ctrl.sprt_pattern_addr_spec() + ppu.oam_data[n * 4 + 1] * 16)
}

/// The column of the sprite's tile that shows `column` pixels right of the
/// sprite's left edge: bit 6 of the attributes flips the sprite.
pub open spec fn sprite_column(ppu: NesPPU, n: int, column: int) -> int {
    if (ppu.oam_data[n * 4 + 2] >> 6) & 1 == 1 {
        7 - column
    } else {
        column
    }
}

/// The row of the sprite's tile that shows `row` pixels below the sprite's
/// top edge: bit 7 of the attributes flips the sprite.
pub open spec fn sprite_row(ppu: NesPPU, n: int, row: int) -> int {
    if (ppu.oam_data[n * 4 + 2] >> 7) & 1 == 1 {
        7 - row
    } else {
        row
    }
}

/// The value of sprite `n` at the pixel `(px, py)` of the picture; 0 where
/// the sprite does not reach.
pub open spec fn sprite_value(ppu: NesPPU, n: int, px: int, py: int) -> u8 {
    let left = ppu.oam_data[n * 4 + 3] as int;
    let top = ppu.oam_data[n * 4] as int;
    if left <= px < left + 8 && top <= py < top + 8 {
        tile_value(
            sprite_tile(ppu, n),
            sprite_column(ppu, n, px - left),
            sprite_row(ppu, n, py - top),
        )
    } else {
        0
    }
}

/// The colour of sprite `n` for a value of its tile.
pub open spec fn sprite_color(ppu: NesPPU, n: int, value: u8) -> (u8, u8, u8) {
    system_color(sprite_palette_spec(ppu, ppu.oam_data[n * 4 + 2] & 0b11)[value as int])
}

/// After the first `count` pixels of sprite `n` were drawn, a pixel of the
/// picture shows the sprite where the sprite's value is not 0 and the turn
/// of that pixel of the tile has come, and is unchanged elsewhere.
pub proof fn drawn_sprite_pixel(ppu: NesPPU, data: Seq<u8>, n: int, count: nat, px: int, py: int)
    requires
        is_frame(data),
        in_picture(px, py),
        0 <= n < 64,
        count <= 64,
    ensures
        is_frame(sprite_drawn(ppu, data, n, count)),
        ({
            let left = ppu.oam_data[n * 4 + 3] as int;
            let top = ppu.oam_data[n * 4] as int;
            let value = sprite_value(ppu, n, px, py);
            pixel_at(sprite_drawn(ppu, data, n, count), px, py) == if value != 0 && drawing_order(
                sprite_column(ppu, n, px - left),
                sprite_row(ppu, n, py - top),
            ) < count {
                sprite_color(ppu, n, value)
            } else {
                pixel_at(data, px, py)
            }
        }),
    decreases count,
{
    if count > 0 {
        let before = sprite_drawn(ppu, data, n, (count - 1) as nat);
        drawn_sprite_pixel(ppu, data, n, (count - 1) as nat, px, py);
        let left = ppu.oam_data[n * 4 + 3] as int;
        let top = ppu.oam_data[n * 4] as int;
        let y = (count - 1) / 8;
        let x = 7 - (count - 1) % 8;
        assert(drawing_order(x, y) == count - 1);
        let value = tile_value(sprite_tile(ppu, n), x, y);
        let at_x = left + sprite_column(ppu, n, x);
        let at_y = top + sprite_row(ppu, n, y);
        assert(sprite_column(ppu, n, sprite_column(ppu, n, x)) == x);
        assert(sprite_row(ppu, n, sprite_row(ppu, n, y)) == y);
        if value != 0 {
            set_pixel_changes_one_pixel(before, at_x, at_y, sprite_color(ppu, n, value), px, py);
        }
        if left <= px < left + 8 && top <= py < top + 8 {
            let column = sprite_column(ppu, n, px - left);
            let row = sprite_row(ppu, n, py - top);
            assert(drawing_order(column, row) == count - 1 <==> (column == x && row == y));
            assert((column == x && row == y) <==> (px == at_x && py == at_y));
        }
    }
}

/// A sprite covers eight by eight pixels from its position on: where its
/// value is not 0 the picture shows the sprite's colour, flipped as the
/// attributes say; value 0 is transparent.
pub proof fn drawn_sprite_shows_its_pixels(ppu: NesPPU, data: Seq<u8>, n: int, px: int, py: int)
    requires
        is_frame(data),
        in_picture(px, py),
        0 <= n < 64,
    ensures
        is_frame(sprite_drawn(ppu, data, n, 64)),
        pixel_at(sprite_drawn(ppu, data, n, 64), px, py) == if sprite_value(ppu, n, px, py) != 0 {
            sprite_color(ppu, n, sprite_value(ppu, n, px, py))
        } else {
            pixel_at(data, px, py)
        },
{
    drawn_sprite_pixel(ppu, data, n, 64, px, py);
    let left = ppu.oam_data[n * 4 + 3] as int;
    let top = ppu.oam_data[n * 4] as int;
    if left <= px < left + 8 && top <= py < top + 8 {
        assert(0 <= drawing_order(
            sprite_column(ppu, n, px - left),
            sprite_row(ppu, n, py - top),
        ) < 64);
    }
}

/// The sprite that shows at a pixel among the sprites from `first` on: the
/// one with the lowest number whose value there is not 0; 64 if there is
/// none.
pub open spec fn front_sprite(ppu: NesPPU, first: int, px: int, py: int) -> int
    decreases 64 - first,
{
    if first >= 64 {
        64
    } else if sprite_value(ppu, first, px, py) != 0 {
        first
    } else {
        front_sprite(ppu, first + 1, px, py)
    }
}

proof fn sprites_stay_a_frame(ppu: NesPPU, data: Seq<u8>, count: nat)
    requires
        is_frame(data),
        count <= 64,
    ensures
        is_frame(sprites_drawn(ppu, data, count)),
    decreases count,
{
    if count > 0 {
        sprites_stay_a_frame(ppu, data, (count - 1) as nat);
        drawn_sprite_shows_its_pixels(
            ppu,
            sprites_drawn(ppu, data, (count - 1) as nat),
            64 - count,
            0,
            0,
        );
    }
}

/// After the last `count` sprites were drawn, a pixel shows the lowest of
/// them that is not transparent there, or what was there before.
pub proof fn drawn_sprites_pixel(ppu: NesPPU, data: Seq<u8>, count: nat, px: int, py: int)
    requires
        is_frame(data),
        in_picture(px, py),
        count <= 64,
    ensures
        ({
            let front = front_sprite(ppu, 64 - count, px, py);
            pixel_at(sprites_drawn(ppu, data, count), px, py) == if front < 64 {
                sprite_color(ppu, front, sprite_value(ppu, front, px, py))
            } else {
                pixel_at(data, px, py)
            }
        }),
    decreases count,
{
    if count > 0 {
        let before = sprites_drawn(ppu, data, (count - 1) as nat);
        sprites_stay_a_frame(ppu, data, (count - 1) as nat);
        drawn_sprites_pixel(ppu, data, (count - 1) as nat, px, py);
        drawn_sprite_shows_its_pixels(ppu, before, 64 - count, px, py);
    }
}

/// The sprites over a frame: each pixel shows the sprite with the lowest
/// number that is not transparent there, so sprite 0 is on top; where every
/// sprite is transparent the pixel shows what was drawn before.
pub proof fn lowest_sprite_is_on_top(ppu: NesPPU, data: Seq<u8>, px: int, py: int)
    requires
        is_frame(data),
        in_picture(px, py),
    ensures
        ({
            let front = front_sprite(ppu, 0, px, py);
            pixel_at(sprites_drawn(ppu, data, 64), px, py) == if front < 64 {
                sprite_color(ppu, front, sprite_value(ppu, front, px, py))
            } else {
                pixel_at(data, px, py)
            }
        }),
{
    drawn_sprites_pixel(ppu, data, 64, px, py);
}

/// The colour that cell `i` of the background gives the pixel `dx` right
/// of and `dy` below its top left corner.
pub open spec fn cell_color(ppu: NesPPU, i: int, dx: int, dy: int) -> (u8, u8, u8) {
    let addr = tile_vram_addr_spec(ppu, i);
    let loaded = load_tile_and_palette_spec(ppu, addr.0, addr.1);
    system_color(tile_color(loaded.0, loaded.1, ppu.palette_table[0], dx, dy))
}

/// The colour that tile `i` of the rightmost column gives a pixel.
pub open spec fn edge_color(ppu: NesPPU, i: int, dx: int, dy: int) -> (u8, u8, u8) {
    let start = if ppu.ctrl.nametable_addr_spec() == 0x2000 {
        0x2400
    } else {
        0x2000int
    };
    let loaded = load_tile_and_palette_spec(
        ppu,
        (ppu.scroll.scroll_x / 8 + i * 32 + start) as u16,
        tile_vram_addr_spec(ppu, i * 32).1,
    );
    system_color(tile_color(loaded.0, loaded.1, ppu.palette_table[0], dx, dy))
}

/// The cell of the background that covers the pixel `(px, py)`: the cells
/// are shifted left and up by the fine scroll, the scroll modulo 8. A
/// pixel right of the last column or below the last row has no cell and
/// gets `TILES`.
pub open spec fn covering_cell(ppu: NesPPU, px: int, py: int) -> int {
    let column = (px + ppu.scroll.scroll_x % 8) / 8;
    let row = (py + ppu.scroll.scroll_y % 8) / 8;
    if column < 32 && row < 30 {
        row * 32 + column
    } else {
        TILES as int
    }
}

/// After the first `count` cells were drawn, a pixel shows its cell if the
/// cell is among them, and is unchanged else.
pub proof fn drawn_cells_pixel(ppu: NesPPU, data: Seq<u8>, count: nat, px: int, py: int)
    requires
        is_frame(data),
        in_picture(px, py),
        count <= TILES,
    ensures
        is_frame(cells_drawn(ppu, data, count)),
        ({
            let cell = covering_cell(ppu, px, py);
            pixel_at(cells_drawn(ppu, data, count), px, py) == if cell < count {
                cell_color(
                    ppu,
                    cell,
                    (px + ppu.scroll.scroll_x % 8) % 8,
                    (py + ppu.scroll.scroll_y % 8) % 8,
                )
            } else {
                pixel_at(data, px, py)
            }
        }),
    decreases count,
{
    if count > 0 {
        let i = count - 1;
        let before = cells_drawn(ppu, data, i as nat);
        drawn_cells_pixel(ppu, data, i as nat, px, py);
        let addr = tile_vram_addr_spec(ppu, i);
        let loaded = load_tile_and_palette_spec(ppu, addr.0, addr.1);
        let x = (i % 32) * 8 - ppu.scroll.scroll_x % 8;
        let y = (i / 32) * 8 - ppu.scroll.scroll_y % 8;
        drawn_tile_pixel(before, x, y, loaded.0, loaded.1, ppu.palette_table[0], 64, px, py);
        let column = (px + ppu.scroll.scroll_x % 8) / 8;
        let row = (py + ppu.scroll.scroll_y % 8) / 8;
        assert((x <= px < x + 8) <==> column == i % 32);
        assert((y <= py < y + 8) <==> row == i / 32);
        if x <= px < x + 8 && y <= py < y + 8 {
            assert(0 <= drawing_order(px - x, py - y) < 64);
            assert(px - x == (px + ppu.scroll.scroll_x % 8) % 8);
            assert(py - y == (py + ppu.scroll.scroll_y % 8) % 8);
        }
    }
}

/// After the first `count` tiles of the rightmost column were drawn, a
/// pixel in the gap that the fine horizontal scroll leaves shows its tile
/// if the tile is among them, and every other pixel is unchanged.
pub proof fn drawn_edge_pixel(ppu: NesPPU, data: Seq<u8>, count: nat, px: int, py: int)
    requires
        is_frame(data),
        in_picture(px, py),
        count <= 30,
    ensures
        is_frame(edge_drawn(ppu, data, count)),
        pixel_at(edge_drawn(ppu, data, count), px, py) == if px >= 256 - ppu.scroll.scroll_x % 8
            && py / 8 < count {
            edge_color(ppu, py / 8, px - (256 - ppu.scroll.scroll_x % 8), py % 8)
        } else {
            pixel_at(data, px, py)
        },
    decreases count,
{
    if count > 0 {
        let i = count - 1;
        let before = edge_drawn(ppu, data, i as nat);
        drawn_edge_pixel(ppu, data, i as nat, px, py);
        let start = if ppu.ctrl.nametable_addr_spec() == 0x2000 {
            0x2400
        } else {
            0x2000int
        };
        let loaded = load_tile_and_palette_spec(
            ppu,
            (ppu.scroll.scroll_x / 8 + i * 32 + start) as u16,
            tile_vram_addr_spec(ppu, i * 32).1,
        );
        let x = 256 - ppu.scroll.scroll_x % 8;
        let y = i * 8;
        drawn_tile_pixel(before, x, y, loaded.0, loaded.1, ppu.palette_table[0], 64, px, py);
        if x <= px < x + 8 && y <= py < y + 8 {
            assert(0 <= drawing_order(px - x, py - y) < 64);
            assert(py / 8 == i);
            assert(py - y == py % 8);
        }
    }
}

/// The colour of the background at a pixel of the picture: that of the
/// covering cell; right of the cells, in the gap that the fine horizontal
/// scroll leaves, that of the tile of the rightmost column; below the
/// cells, where the fine vertical scroll leaves a gap, nothing.
pub open spec fn background_color(ppu: NesPPU, px: int, py: int) -> Option<(u8, u8, u8)> {
    let fine_x = ppu.scroll.scroll_x % 8;
    let fine_y = ppu.scroll.scroll_y % 8;
    if fine_x != 0 && px >= 256 - fine_x {
        Some(edge_color(ppu, py / 8, px - (256 - fine_x), py % 8))
    } else if covering_cell(ppu, px, py) < TILES {
        Some(cell_color(ppu, covering_cell(ppu, px, py), (px + fine_x) % 8, (py + fine_y) % 8))
    } else {
        None
    }
}

/// The background, pixel by pixel.
pub proof fn background_shows_its_cells(ppu: NesPPU, data: Seq<u8>, px: int, py: int)
    requires
        is_frame(data),
        in_picture(px, py),
    ensures
        is_frame(background_drawn(ppu, data)),
        pixel_at(background_drawn(ppu, data), px, py) == match background_color(ppu, px, py) {
            Some(color) => color,
            None => pixel_at(data, px, py),
        },
{
    drawn_cells_pixel(ppu, data, TILES as nat, px, py);
    if ppu.scroll.scroll_x % 8 != 0 {
        drawn_edge_pixel(ppu, cells_drawn(ppu, data, TILES as nat), 30, px, py);
    }
}

/// The frame, pixel by pixel: the sprite with the lowest number that is
/// not transparent at the pixel; where there is none the background; where
/// the background has a gap, black.
pub proof fn frame_shows_sprites_over_background(ppu: NesPPU, px: int, py: int)
    requires
        in_picture(px, py),
    ensures
        ({
            let front = front_sprite(ppu, 0, px, py);
            pixel_at(rendered(ppu, blank_frame()), px, py) == if front < 64 {
                sprite_color(ppu, front, sprite_value(ppu, front, px, py))
            } else {
                match background_color(ppu, px, py) {
                    Some(color) => color,
                    None => (0u8, 0u8, 0u8),
                }
            }
        }),
{
    background_shows_its_cells(ppu, blank_frame(), px, py);
    lowest_sprite_is_on_top(ppu, background_drawn(ppu, blank_frame()), px, py);
}

/// A rendered frame has the size of the picture.
pub proof fn rendered_is_a_frame(ppu: NesPPU)
    ensures
        is_frame(rendered(ppu, blank_frame())),
{
    background_shows_its_cells(ppu, blank_frame(), 0, 0);
    sprites_stay_a_frame(ppu, background_drawn(ppu, blank_frame()), 64);
}

} // verus!

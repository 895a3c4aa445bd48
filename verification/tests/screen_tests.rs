use rustness::ppu::ppu::NesPPU;
use rustness::rom::ines::Mirroring;
use rustness::screen::frame::Frame;
use rustness::screen::pallete::rgb;
use rustness::screen::render::{render, PixelRenderer, Renderer};

fn pixel(frame: &Frame, x: usize, y: usize) -> (u8, u8, u8) {
    let base = (y * 256 + x) * 3;
    (frame.data[base], frame.data[base + 1], frame.data[base + 2])
}

#[test]
fn test_frame() {
    let mut frame = Frame::new();
    assert_eq!(frame.data.len(), 256 * 240 * 3);
    assert!(frame.data.iter().all(|b| *b == 0));
    frame.set_pixel(1, 1, (1, 2, 3));
    assert_eq!(&frame.data[771..774], &[1, 2, 3]);
    frame.set_pixel(255, 239, (4, 5, 6));
    assert_eq!(&frame.data[184317..], &[4, 5, 6]);
    let before = frame.data.clone();
    frame.set_pixel(256, 0, (9, 9, 9));
    frame.set_pixel(0, 240, (9, 9, 9));
    assert_eq!(frame.data, before);
}

#[test]
fn test_system_palette() {
    assert_eq!(rgb(0x00), (0x80, 0x80, 0x80));
    assert_eq!(rgb(0x01), (0x00, 0x3d, 0xa6));
    assert_eq!(rgb(0x0d), (0x00, 0x00, 0x00));
    assert_eq!(rgb(0x20), (0xff, 0xff, 0xff));
    assert_eq!(rgb(0x3f), (0x11, 0x11, 0x11));
    assert_eq!(rgb(0x41), rgb(0x01));
}

fn scene() -> NesPPU {
    let mut chr_rom = vec![0; 8192];
    // tile 1: the left half of the top row has value 1, the top right pixel 3
    chr_rom[16] = 0b1111_0001;
    chr_rom[24] = 0b0000_0001;
    // tile 1, bottom row: value 2 in the leftmost pixel
    chr_rom[16 + 15] = 0b1000_0000;
    let mut ppu = NesPPU::new(chr_rom, Mirroring::VERTICAL);
    ppu.palette_table[0] = 0x0d;
    ppu.palette_table[1] = 0x01;
    ppu.palette_table[2] = 0x02;
    ppu.palette_table[3] = 0x03;
    ppu.palette_table[5] = 0x15;
    ppu.palette_table[0x11] = 0x21;
    ppu.palette_table[0x12] = 0x22;
    ppu.palette_table[0x13] = 0x23;
    ppu.palette_table[0x15] = 0x25;
    // sprites out of the picture
    for n in 0..64 {
        ppu.oam_data[n * 4] = 0xf8;
    }
    ppu
}

#[test]
fn test_background_tile() {
    let mut ppu = scene();
    ppu.vram[33] = 1;
    let frame = render(&ppu);
    assert_eq!(pixel(&frame, 8, 8), rgb(0x01));
    assert_eq!(pixel(&frame, 11, 8), rgb(0x01));
    assert_eq!(pixel(&frame, 12, 8), rgb(0x0d));
    assert_eq!(pixel(&frame, 15, 8), rgb(0x03));
    assert_eq!(pixel(&frame, 8, 15), rgb(0x02));
    assert_eq!(pixel(&frame, 9, 15), rgb(0x0d));
    assert_eq!(pixel(&frame, 0, 0), rgb(0x0d));
    assert_eq!(pixel(&frame, 16, 8), rgb(0x0d));
}

#[test]
fn test_background_palette_comes_from_the_attribute_table() {
    let mut ppu = scene();
    // the cell in column 2, row 0 lies in the top right quadrant of block 0
    ppu.vram[2] = 1;
    ppu.vram[0x3c0] = 0b0000_0100;
    let frame = render(&ppu);
    assert_eq!(pixel(&frame, 16, 0), rgb(0x15));
    ppu.vram[0x3c0] = 0b0000_0001;
    let frame = render(&ppu);
    assert_eq!(pixel(&frame, 16, 0), rgb(0x01));
}

#[test]
fn test_background_scrolls() {
    let mut ppu = scene();
    ppu.vram[33] = 1;
    ppu.scroll.scroll_x = 3;
    let frame = render(&ppu);
    assert_eq!(pixel(&frame, 5, 8), rgb(0x01));
    assert_eq!(pixel(&frame, 8, 8), rgb(0x01));
    assert_eq!(pixel(&frame, 9, 8), rgb(0x0d));
    assert_eq!(pixel(&frame, 12, 8), rgb(0x03));
    // the gap at the right edge shows the next name table's first column
    ppu.vram[0x400 + 32] = 1;
    let frame = render(&ppu);
    assert_eq!(pixel(&frame, 253, 8), rgb(0x01));
    assert_eq!(pixel(&frame, 255, 8), rgb(0x01));
}

#[test]
fn test_sprites() {
    let mut ppu = scene();
    ppu.oam_data[4] = 10;
    ppu.oam_data[5] = 1;
    ppu.oam_data[6] = 0;
    ppu.oam_data[7] = 20;
    let frame = render(&ppu);
    assert_eq!(pixel(&frame, 20, 10), rgb(0x21));
    assert_eq!(pixel(&frame, 27, 10), rgb(0x23));
    assert_eq!(pixel(&frame, 20, 17), rgb(0x22));
    // value 0 is transparent
    assert_eq!(pixel(&frame, 24, 10), rgb(0x0d));
    // flipped both ways, with sprite palette 1
    ppu.oam_data[6] = 0b1100_0001;
    let frame = render(&ppu);
    assert_eq!(pixel(&frame, 27, 17), rgb(0x25));
    assert_eq!(pixel(&frame, 20, 10), rgb(0x0d));
}

#[test]
fn test_sprite_zero_is_on_top() {
    let mut ppu = scene();
    ppu.oam_data[0] = 10;
    ppu.oam_data[1] = 1;
    ppu.oam_data[2] = 1;
    ppu.oam_data[3] = 20;
    ppu.oam_data[4] = 10;
    ppu.oam_data[5] = 1;
    ppu.oam_data[6] = 0;
    ppu.oam_data[7] = 20;
    let frame = render(&ppu);
    assert_eq!(pixel(&frame, 20, 10), rgb(0x25));
}

#[test]
fn test_sprite_at_the_edge_is_clipped() {
    let mut ppu = scene();
    ppu.oam_data[0] = 236;
    ppu.oam_data[1] = 1;
    ppu.oam_data[2] = 0;
    ppu.oam_data[3] = 252;
    let frame = render(&ppu);
    assert_eq!(pixel(&frame, 252, 236), rgb(0x21));
    assert_eq!(pixel(&frame, 255, 236), rgb(0x21));
    // nothing wrapped into the next row
    assert_eq!(pixel(&frame, 0, 237), rgb(0x0d));
    assert_eq!(pixel(&frame, 3, 237), rgb(0x0d));
}

#[test]
fn test_renderer_trait() {
    let mut ppu = scene();
    ppu.vram[33] = 1;
    let frame = PixelRenderer::render(&ppu);
    assert_eq!(frame.data, render(&ppu).data);
    assert_eq!(pixel(&frame, 8, 8), rgb(0x01));
}

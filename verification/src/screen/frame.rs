//! The frame buffer: 256 x 240 pixels of three bytes, red, green, blue, row
//! by row from the top left.

use vstd::prelude::*;

verus! {

pub const WIDTH: usize = 256;

pub const HEIGHT: usize = 240;

pub struct Frame {
    pub data: Vec<u8>,
}

/// Where the pixel `(x, y)` starts in the buffer.
pub open spec fn pixel_base(x: int, y: int) -> int {
    y * 3 * WIDTH + x * 3
}

/// The buffer with the pixel `(x, y)` set. A pixel outside the picture, or
/// outside a buffer that is too short, is dropped.
pub open spec fn with_pixel(data: Seq<u8>, x: int, y: int, rgb: (u8, u8, u8)) -> Seq<u8> {
    let base = pixel_base(x, y);
    if 0 <= x < WIDTH && 0 <= y < HEIGHT && base + 2 < data.len() {
        data.update(base, rgb.0).update(base + 1, rgb.1).update(base + 2, rgb.2)
    } else {
        data
    }
}

impl Frame {
    /// A black frame.
    pub fn new() -> (frame: Self)
        ensures
            frame.data@ == Seq::new((WIDTH * HEIGHT * 3) as nat, |i: int| 0u8),
    {
        let mut data: Vec<u8> = Vec::new();
        let mut i: usize = 0;
        while i < WIDTH * HEIGHT * 3
            invariant
                i <= WIDTH * HEIGHT * 3,
                data@ == Seq::new(i as nat, |i: int| 0u8),
            decreases WIDTH * HEIGHT * 3 - i,
        {
            data.push(0);
            i = i + 1;
            assert(data@ =~= Seq::new(i as nat, |i: int| 0u8));
        }
        Frame { data }
    }

    pub fn set_pixel(&mut self, x: usize, y: usize, rgb: (u8, u8, u8))
        ensures
            final(self).data@ == with_pixel(old(self).data@, x as int, y as int, rgb),
    {
        if x < WIDTH && y < HEIGHT {
            let base = y * 3 * WIDTH + x * 3;
            if base + 2 < self.data.len() {
                self.data.set(base, rgb.0);
                self.data.set(base + 1, rgb.1);
                self.data.set(base + 2, rgb.2);
            }
        }
    }
}

} // verus!

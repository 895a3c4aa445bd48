//! The mask register, written through $2001.
//!
//! ```text
//! 7  bit  0
//! BGRs bMmG
//! |||| |||+- greyscale
//! |||| ||+-- show the background in the leftmost 8 pixels
//! |||| |+--- show sprites in the leftmost 8 pixels
//! |||| +---- show the background
//! |||+------ show sprites
//! ||+------- emphasize red
//! |+-------- emphasize green
//! +--------- emphasize blue
//! ```

use vstd::prelude::*;

verus! {

#[derive(Clone, Copy, Debug, PartialEq, Eq, Structural)]
pub struct MaskRegister {
    pub bits: u8,
}

impl MaskRegister {
    pub const GREYSCALE: u8 = 0b0000_0001;

    pub const LEFTMOST_8PXL_BACKGROUND: u8 = 0b0000_0010;

    pub const LEFTMOST_8PXL_SPRITE: u8 = 0b0000_0100;

    pub const SHOW_BACKGROUND: u8 = 0b0000_1000;

    pub const SHOW_SPRITES: u8 = 0b0001_0000;

    pub const EMPHASISE_RED: u8 = 0b0010_0000;

    pub const EMPHASISE_GREEN: u8 = 0b0100_0000;

    pub const EMPHASISE_BLUE: u8 = 0b1000_0000;

    /// Whether every bit of `mask` is set.
    pub open spec fn has(self, mask: u8) -> bool {
        self.bits & mask == mask
    }

    pub fn new() -> (register: Self)
        ensures
            register.bits == 0,
    {
        MaskRegister { bits: 0 }
    }

    pub fn contains(&self, mask: u8) -> (found: bool)
        ensures
            found == self.has(mask),
    {
        self.bits & mask == mask
    }

    pub fn is_grayscale(&self) -> (on: bool)
        ensures
            on == self.has(Self::GREYSCALE),
    {
        self.contains(Self::GREYSCALE)
    }

    pub fn leftmost_8pxl_background(&self) -> (on: bool)
        ensures
            on == self.has(Self::LEFTMOST_8PXL_BACKGROUND),
    {
        self.contains(Self::LEFTMOST_8PXL_BACKGROUND)
    }

    pub fn leftmost_8pxl_sprite(&self) -> (on: bool)
        ensures
            on == self.has(Self::LEFTMOST_8PXL_SPRITE),
    {
        self.contains(Self::LEFTMOST_8PXL_SPRITE)
    }

    pub fn show_background(&self) -> (on: bool)
        ensures
            on == self.has(Self::SHOW_BACKGROUND),
    {
        self.contains(Self::SHOW_BACKGROUND)
    }

    pub fn show_sprites(&self) -> (on: bool)
        ensures
            on == self.has(Self::SHOW_SPRITES),
    {
        self.contains(Self::SHOW_SPRITES)
    }

    pub fn update(&mut self, data: u8)
        ensures
            final(self).bits == data,
    {
        self.bits = data;
    }
}

} // verus!

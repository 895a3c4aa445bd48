//! The status register, read through $2002.
//!
//! ```text
//! 7  bit  0
//! VSO. ....
//! ||+------- sprite overflow
//! |+-------- sprite 0 hit
//! +--------- the vertical blank has started
//! ```

use vstd::prelude::*;

verus! {

#[derive(Clone, Copy, Debug, PartialEq, Eq, Structural)]
pub struct StatusRegister {
    pub bits: u8,
}

impl StatusRegister {
    pub const SPRITE_OVERFLOW: u8 = 0b0010_0000;

    pub const SPRITE_ZERO_HIT: u8 = 0b0100_0000;

    pub const VBLANK_STARTED: u8 = 0b1000_0000;

    /// Whether every bit of `mask` is set.
    pub open spec fn has(self, mask: u8) -> bool {
        self.bits & mask == mask
    }

    /// The register with the bits of `mask` switched on or off.
    pub open spec fn with(self, mask: u8, on: bool) -> Self {
        if on {
            StatusRegister { bits: self.bits | mask }
        } else {
            StatusRegister { bits: self.bits & !mask }
        }
    }

    pub fn new() -> (register: Self)
        ensures
            register.bits == 0,
    {
        StatusRegister { bits: 0 }
    }

    fn set(&mut self, mask: u8, on: bool)
        ensures
            *final(self) == old(self).with(mask, on),
    {
        if on {
            self.bits = self.bits | mask;
        } else {
            self.bits = self.bits & !mask;
        }
    }

    pub fn set_vblank_status(&mut self, status: bool)
        ensures
            *final(self) == old(self).with(Self::VBLANK_STARTED, status),
    {
        self.set(Self::VBLANK_STARTED, status);
    }

    pub fn set_sprite_zero_hit(&mut self, status: bool)
        ensures
            *final(self) == old(self).with(Self::SPRITE_ZERO_HIT, status),
    {
        self.set(Self::SPRITE_ZERO_HIT, status);
    }

    pub fn set_sprite_overflow(&mut self, status: bool)
        ensures
            *final(self) == old(self).with(Self::SPRITE_OVERFLOW, status),
    {
        self.set(Self::SPRITE_OVERFLOW, status);
    }

    pub fn reset_vblank_status(&mut self)
        ensures
            *final(self) == old(self).with(Self::VBLANK_STARTED, false),
    {
        self.set(Self::VBLANK_STARTED, false);
    }

    pub fn is_in_vblank(&self) -> (on: bool)
        ensures
            on == self.has(Self::VBLANK_STARTED),
    {
        self.bits & Self::VBLANK_STARTED == Self::VBLANK_STARTED
    }

    pub fn snapshot(&self) -> (bits: u8)
        ensures
            bits == self.bits,
    {
        self.bits
    }
}

} // verus!

//! The control register, written through $2000.
//!
//! ```text
//! 7  bit  0
//! VPHB SINN
//! |||| ||++- base name table (0 = $2000; 1 = $2400; 2 = $2800; 3 = $2C00)
//! |||| |+--- VRAM address increment per access of $2007 (0: 1, 1: 32)
//! |||| +---- pattern table of 8x8 sprites (0: $0000; 1: $1000)
//! |||+------ pattern table of the background (0: $0000; 1: $1000)
//! ||+------- sprite size (0: 8x8; 1: 8x16)
//! |+-------- master/slave select
//! +--------- raise an NMI when the vertical blank starts
//! ```

use vstd::prelude::*;

verus! {

#[derive(Clone, Copy, Debug, PartialEq, Eq, Structural)]
pub struct ControlRegister {
    pub bits: u8,
}

impl ControlRegister {
    pub const NAMETABLE1: u8 = 0b0000_0001;

    pub const NAMETABLE2: u8 = 0b0000_0010;

    pub const VRAM_ADD_INCREMENT: u8 = 0b0000_0100;

    pub const SPRITE_PATTERN_ADDR: u8 = 0b0000_1000;

    pub const BACKROUND_PATTERN_ADDR: u8 = 0b0001_0000;

    pub const SPRITE_SIZE: u8 = 0b0010_0000;

    pub const MASTER_SLAVE_SELECT: u8 = 0b0100_0000;

    pub const GENERATE_NMI: u8 = 0b1000_0000;

    /// Whether every bit of `mask` is set.
    pub open spec fn has(self, mask: u8) -> bool {
        self.bits & mask == mask
    }

    pub open spec fn nametable_addr_spec(self) -> u16 {
        (0x2000 + 0x400 * (self.bits % 4)) as u16
    }

    pub open spec fn vram_addr_increment_spec(self) -> u8 {
        if self.has(Self::VRAM_ADD_INCREMENT) {
            32
        } else {
            1
        }
    }

    pub open spec fn sprt_pattern_addr_spec(self) -> u16 {
        if self.has(Self::SPRITE_PATTERN_ADDR) {
            0x1000
        } else {
            0
        }
    }

    pub open spec fn bknd_pattern_addr_spec(self) -> u16 {
        if self.has(Self::BACKROUND_PATTERN_ADDR) {
            0x1000
        } else {
            0
        }
    }

    pub fn new() -> (register: Self)
        ensures
            register.bits == 0,
    {
        ControlRegister { bits: 0 }
    }

    pub fn contains(&self, mask: u8) -> (found: bool)
        ensures
            found == self.has(mask),
    {
        self.bits & mask == mask
    }

    /// The address of the base name table: $2000 + $400 * n.
    pub fn nametable_addr(&self) -> (addr: u16)
        ensures
            addr == self.nametable_addr_spec(),
    {
        0x2000 + 0x400 * ((self.bits % 4) as u16)
    }

    pub fn vram_addr_increment(&self) -> (step: u8)
        ensures
            step == self.vram_addr_increment_spec(),
    {
        if !self.contains(Self::VRAM_ADD_INCREMENT) {
            1
        } else {
            32
        }
    }

    pub fn sprt_pattern_addr(&self) -> (addr: u16)
        ensures
            addr == self.sprt_pattern_addr_spec(),
    {
        if !self.contains(Self::SPRITE_PATTERN_ADDR) {
            0
        } else {
            0x1000
        }
    }

    pub fn bknd_pattern_addr(&self) -> (addr: u16)
        ensures
            addr == self.bknd_pattern_addr_spec(),
    {
        if !self.contains(Self::BACKROUND_PATTERN_ADDR) {
            0
        } else {
            0x1000
        }
    }

    /// The height of a sprite in pixels.
    pub fn sprite_size(&self) -> (size: u8)
        ensures
            size == if self.has(Self::SPRITE_SIZE) {
                16u8
            } else {
                8u8
            },
    {
        if !self.contains(Self::SPRITE_SIZE) {
            8
        } else {
            16
        }
    }

    pub fn master_slave_select(&self) -> (select: u8)
        ensures
            select == if self.has(Self::MASTER_SLAVE_SELECT) {
                1u8
            } else {
                0u8
            },
    {
        if !self.contains(Self::MASTER_SLAVE_SELECT) {
            0
        } else {
            1
        }
    }

    pub fn generate_vblank_nmi(&self) -> (enabled: bool)
        ensures
            enabled == self.has(Self::GENERATE_NMI),
    {
        self.contains(Self::GENERATE_NMI)
    }

    pub fn update(&mut self, data: u8)
        ensures
            final(self).bits == data,
    {
        self.bits = data;
    }
}

} // verus!

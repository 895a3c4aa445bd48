//! The processor status register P.
//!
//! ```text
//!  7 6 5 4 3 2 1 0
//!  N V _ B D I Z C
//! ```

use vstd::prelude::*;

verus! {

/// The status register as a set of flag bits. The associated constants are
/// the masks of the single flags.
#[derive(Clone, Copy, Debug, PartialEq, Eq, Structural)]
pub struct CpuFlags {
    pub bits: u8,
}

impl CpuFlags {
    pub const CARRY: u8 = 0b0000_0001;

    pub const ZERO: u8 = 0b0000_0010;

    pub const INTERRUPT_DISABLE: u8 = 0b0000_0100;

    pub const DECIMAL_MODE: u8 = 0b0000_1000;

    pub const BREAK: u8 = 0b0001_0000;

    pub const BREAK2: u8 = 0b0010_0000;

    pub const OVERFLOW: u8 = 0b0100_0000;

    pub const NEGATIV: u8 = 0b1000_0000;

    /// Whether every bit of `mask` is set in `self`.
    pub open spec fn has(self, mask: u8) -> bool {
        self.bits & mask == mask
    }

    /// `self` with the bits of `mask` switched on or off.
    pub open spec fn with(self, mask: u8, on: bool) -> CpuFlags {
        if on {
            CpuFlags { bits: self.bits | mask }
        } else {
            CpuFlags { bits: self.bits & !mask }
        }
    }

    pub fn empty() -> (flags: CpuFlags)
        ensures
            flags.bits == 0,
    {
        CpuFlags { bits: 0 }
    }

    pub fn from_bits_truncate(bits: u8) -> (flags: CpuFlags)
        ensures
            flags.bits == bits,
    {
        CpuFlags { bits }
    }

    pub fn bits(&self) -> (bits: u8)
        ensures
            bits == self.bits,
    {
        self.bits
    }

    pub fn contains(&self, mask: u8) -> (found: bool)
        ensures
            found == self.has(mask),
    {
        self.bits & mask == mask
    }

    pub fn insert(&mut self, mask: u8)
        ensures
            *final(self) == old(self).with(mask, true),
    {
        self.bits = self.bits | mask;
    }

    pub fn remove(&mut self, mask: u8)
        ensures
            *final(self) == old(self).with(mask, false),
    {
        self.bits = self.bits & !mask;
    }

    pub fn set(&mut self, mask: u8, value: bool)
        ensures
            *final(self) == old(self).with(mask, value),
    {
        if value {
            self.insert(mask);
        } else {
            self.remove(mask);
        }
    }
}

} // verus!

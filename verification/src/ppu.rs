//! The picture processing unit.

pub mod laws;
pub mod ppu;
pub mod registers;


//! Cartridges.

pub mod ines;

pub use crate::rom::ines::{Mirroring, Rom};


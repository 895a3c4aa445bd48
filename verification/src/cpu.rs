//! The 6502 interpreter: status flags, instruction table, addressing modes
//! and the fetch-decode-execute step.

pub mod cpu;
pub mod flags;
pub mod laws;
pub mod mem;
pub mod opscode;
pub mod program;
pub mod tracer;

pub use crate::cpu::tracer::trace;


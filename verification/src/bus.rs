//! The buses the processor can be wired to.

pub mod bus;
pub mod laws;


//! The three flag registers of the picture processing unit.

pub mod control;
pub mod mask;
pub mod status;


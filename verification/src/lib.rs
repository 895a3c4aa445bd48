//! Core of a NES emulator: the 6502 interpreter, the picture processing unit
//! and the bus that connects them to cartridge, work RAM and controllers.
//!
//! Every state change is described by a spec function on the state itself, so
//! the contract of an operation reads "the state afterwards is this function
//! of the state before".

pub mod bus;
pub mod cpu;
pub mod disasm;
pub mod input;
pub mod ppu;
pub mod rom;
pub mod screen;
pub mod text;


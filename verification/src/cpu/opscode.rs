//! The instruction table: one record for each of the 256 opcode bytes.

use vstd::prelude::*;

verus! {

/// How an instruction finds its operand.
///
/// The `PageCross` variants address memory like their plain counterparts and
/// cost one more cycle when indexing leaves the page of the base address.
#[derive(Clone, Copy, Debug, PartialEq, Eq, Structural)]
#[allow(non_camel_case_types)]
pub enum AddressingMode {
    Immediate,
    Accumulator,
    ZeroPage,
    ZeroPage_X,
    ZeroPage_Y,
    Absolute,
    Absolute_X,
    Absolute_X_PageCross,
    Absolute_Y,
    Absolute_Y_PageCross,
    Indirect_X,
    Indirect_Y,
    Indirect_Y_PageCross,
    NoneAddressing,
}

/// One decoded instruction: opcode byte, mnemonic, length in bytes, base
/// cycle count and addressing mode. Mnemonics of unofficial instructions
/// start with `*`.
#[derive(Clone, Copy, Debug)]
pub struct OpsCode {
    pub code: u8,
    pub mnemonic: &'static str,
    pub len: u8,
    pub cycles: u8,
    pub mode: AddressingMode,
}

/// The record of each opcode byte.
pub open spec fn opcode_record(code: u8) -> OpsCode {
    match code {
        0x00 => OpsCode { code: 0x00, mnemonic: "BRK", len: 1, cycles: 7, mode: AddressingMode::NoneAddressing },
        0x01 => OpsCode { code: 0x01, mnemonic: "ORA", len: 2, cycles: 6, mode: AddressingMode::Indirect_X },
        0x02 => OpsCode { code: 0x02, mnemonic: "*NOP", len: 1, cycles: 2, mode: AddressingMode::NoneAddressing },
        0x03 => OpsCode { code: 0x03, mnemonic: "*SLO", len: 2, cycles: 8, mode: AddressingMode::Indirect_X },
        0x04 => OpsCode { code: 0x04, mnemonic: "*NOP", len: 2, cycles: 3, mode: AddressingMode::ZeroPage },
        0x05 => OpsCode { code: 0x05, mnemonic: "ORA", len: 2, cycles: 3, mode: AddressingMode::ZeroPage },
        0x06 => OpsCode { code: 0x06, mnemonic: "ASL", len: 2, cycles: 5, mode: AddressingMode::ZeroPage },
        0x07 => OpsCode { code: 0x07, mnemonic: "*SLO", len: 2, cycles: 5, mode: AddressingMode::ZeroPage },
        0x08 => OpsCode { code: 0x08, mnemonic: "PHP", len: 1, cycles: 3, mode: AddressingMode::NoneAddressing },
        0x09 => OpsCode { code: 0x09, mnemonic: "ORA", len: 2, cycles: 2, mode: AddressingMode::Immediate },
        0x0a => OpsCode { code: 0x0a, mnemonic: "ASL", len: 1, cycles: 2, mode: AddressingMode::Accumulator },
        0x0b => OpsCode { code: 0x0b, mnemonic: "*ANC", len: 2, cycles: 2, mode: AddressingMode::Immediate },
        0x0c => OpsCode { code: 0x0c, mnemonic: "*NOP", len: 3, cycles: 4, mode: AddressingMode::Absolute },
        0x0d => OpsCode { code: 0x0d, mnemonic: "ORA", len: 3, cycles: 4, mode: AddressingMode::Absolute },
        0x0e => OpsCode { code: 0x0e, mnemonic: "ASL", len: 3, cycles: 6, mode: AddressingMode::Absolute },
        0x0f => OpsCode { code: 0x0f, mnemonic: "*SLO", len: 3, cycles: 6, mode: AddressingMode::Absolute },
        0x10 => OpsCode { code: 0x10, mnemonic: "BPL", len: 2, cycles: 2, mode: AddressingMode::NoneAddressing },
        0x11 => OpsCode { code: 0x11, mnemonic: "ORA", len: 2, cycles: 5, mode: AddressingMode::Indirect_Y_PageCross },
        0x12 => OpsCode { code: 0x12, mnemonic: "*NOP", len: 1, cycles: 2, mode: AddressingMode::NoneAddressing },
        0x13 => OpsCode { code: 0x13, mnemonic: "*SLO", len: 2, cycles: 8, mode: AddressingMode::Indirect_Y },
        0x14 => OpsCode { code: 0x14, mnemonic: "*NOP", len: 2, cycles: 4, mode: AddressingMode::ZeroPage_X },
        0x15 => OpsCode { code: 0x15, mnemonic: "ORA", len: 2, cycles: 4, mode: AddressingMode::ZeroPage_X },
        0x16 => OpsCode { code: 0x16, mnemonic: "ASL", len: 2, cycles: 6, mode: AddressingMode::ZeroPage_X },
        0x17 => OpsCode { code: 0x17, mnemonic: "*SLO", len: 2, cycles: 6, mode: AddressingMode::ZeroPage_X },
        0x18 => OpsCode { code: 0x18, mnemonic: "CLC", len: 1, cycles: 2, mode: AddressingMode::NoneAddressing },
        0x19 => OpsCode { code: 0x19, mnemonic: "ORA", len: 3, cycles: 4, mode: AddressingMode::Absolute_Y_PageCross },
        0x1a => OpsCode { code: 0x1a, mnemonic: "*NOP", len: 1, cycles: 2, mode: AddressingMode::NoneAddressing },
        0x1b => OpsCode { code: 0x1b, mnemonic: "*SLO", len: 3, cycles: 7, mode: AddressingMode::Absolute_Y },
        0x1c => OpsCode { code: 0x1c, mnemonic: "*NOP", len: 3, cycles: 4, mode: AddressingMode::Absolute_X_PageCross },
        0x1d => OpsCode { code: 0x1d, mnemonic: "ORA", len: 3, cycles: 4, mode: AddressingMode::Absolute_X_PageCross },
        0x1e => OpsCode { code: 0x1e, mnemonic: "ASL", len: 3, cycles: 7, mode: AddressingMode::Absolute_X },
        0x1f => OpsCode { code: 0x1f, mnemonic: "*SLO", len: 3, cycles: 7, mode: AddressingMode::Absolute_X },
        0x20 => OpsCode { code: 0x20, mnemonic: "JSR", len: 3, cycles: 6, mode: AddressingMode::NoneAddressing },
        0x21 => OpsCode { code: 0x21, mnemonic: "AND", len: 2, cycles: 6, mode: AddressingMode::Indirect_X },
        0x22 => OpsCode { code: 0x22, mnemonic: "*NOP", len: 1, cycles: 2, mode: AddressingMode::NoneAddressing },
        0x23 => OpsCode { code: 0x23, mnemonic: "*RLA", len: 2, cycles: 8, mode: AddressingMode::Indirect_X },
        0x24 => OpsCode { code: 0x24, mnemonic: "BIT", len: 2, cycles: 3, mode: AddressingMode::ZeroPage },
        0x25 => OpsCode { code: 0x25, mnemonic: "AND", len: 2, cycles: 3, mode: AddressingMode::ZeroPage },
        0x26 => OpsCode { code: 0x26, mnemonic: "ROL", len: 2, cycles: 5, mode: AddressingMode::ZeroPage },
        0x27 => OpsCode { code: 0x27, mnemonic: "*RLA", len: 2, cycles: 5, mode: AddressingMode::ZeroPage },
        0x28 => OpsCode { code: 0x28, mnemonic: "PLP", len: 1, cycles: 4, mode: AddressingMode::NoneAddressing },
        0x29 => OpsCode { code: 0x29, mnemonic: "AND", len: 2, cycles: 2, mode: AddressingMode::Immediate },
        0x2a => OpsCode { code: 0x2a, mnemonic: "ROL", len: 1, cycles: 2, mode: AddressingMode::Accumulator },
        0x2b => OpsCode { code: 0x2b, mnemonic: "*ANC", len: 2, cycles: 2, mode: AddressingMode::Immediate },
        0x2c => OpsCode { code: 0x2c, mnemonic: "BIT", len: 3, cycles: 4, mode: AddressingMode::Absolute },
        0x2d => OpsCode { code: 0x2d, mnemonic: "AND", len: 3, cycles: 4, mode: AddressingMode::Absolute },
        0x2e => OpsCode { code: 0x2e, mnemonic: "ROL", len: 3, cycles: 6, mode: AddressingMode::Absolute },
        0x2f => OpsCode { code: 0x2f, mnemonic: "*RLA", len: 3, cycles: 6, mode: AddressingMode::Absolute },
        0x30 => OpsCode { code: 0x30, mnemonic: "BMI", len: 2, cycles: 2, mode: AddressingMode::NoneAddressing },
        0x31 => OpsCode { code: 0x31, mnemonic: "AND", len: 2, cycles: 5, mode: AddressingMode::Indirect_Y_PageCross },
        0x32 => OpsCode { code: 0x32, mnemonic: "*NOP", len: 1, cycles: 2, mode: AddressingMode::NoneAddressing },
        0x33 => OpsCode { code: 0x33, mnemonic: "*RLA", len: 2, cycles: 8, mode: AddressingMode::Indirect_Y },
        0x34 => OpsCode { code: 0x34, mnemonic: "*NOP", len: 2, cycles: 4, mode: AddressingMode::ZeroPage_X },
        0x35 => OpsCode { code: 0x35, mnemonic: "AND", len: 2, cycles: 4, mode: AddressingMode::ZeroPage_X },
        0x36 => OpsCode { code: 0x36, mnemonic: "ROL", len: 2, cycles: 6, mode: AddressingMode::ZeroPage_X },
        0x37 => OpsCode { code: 0x37, mnemonic: "*RLA", len: 2, cycles: 6, mode: AddressingMode::ZeroPage_X },
        0x38 => OpsCode { code: 0x38, mnemonic: "SEC", len: 1, cycles: 2, mode: AddressingMode::NoneAddressing },
        0x39 => OpsCode { code: 0x39, mnemonic: "AND", len: 3, cycles: 4, mode: AddressingMode::Absolute_Y_PageCross },
        0x3a => OpsCode { code: 0x3a, mnemonic: "*NOP", len: 1, cycles: 2, mode: AddressingMode::NoneAddressing },
        0x3b => OpsCode { code: 0x3b, mnemonic: "*RLA", len: 3, cycles: 7, mode: AddressingMode::Absolute_Y },
        0x3c => OpsCode { code: 0x3c, mnemonic: "*NOP", len: 3, cycles: 4, mode: AddressingMode::Absolute_X_PageCross },
        0x3d => OpsCode { code: 0x3d, mnemonic: "AND", len: 3, cycles: 4, mode: AddressingMode::Absolute_X_PageCross },
        0x3e => OpsCode { code: 0x3e, mnemonic: "ROL", len: 3, cycles: 7, mode: AddressingMode::Absolute_X },
        0x3f => OpsCode { code: 0x3f, mnemonic: "*RLA", len: 3, cycles: 7, mode: AddressingMode::Absolute_X },
        0x40 => OpsCode { code: 0x40, mnemonic: "RTI", len: 1, cycles: 6, mode: AddressingMode::NoneAddressing },
        0x41 => OpsCode { code: 0x41, mnemonic: "EOR", len: 2, cycles: 6, mode: AddressingMode::Indirect_X },
        0x42 => OpsCode { code: 0x42, mnemonic: "*NOP", len: 1, cycles: 2, mode: AddressingMode::NoneAddressing },
        0x43 => OpsCode { code: 0x43, mnemonic: "*SRE", len: 2, cycles: 8, mode: AddressingMode::Indirect_X },
        0x44 => OpsCode { code: 0x44, mnemonic: "*NOP", len: 2, cycles: 3, mode: AddressingMode::ZeroPage },
        0x45 => OpsCode { code: 0x45, mnemonic: "EOR", len: 2, cycles: 3, mode: AddressingMode::ZeroPage },
        0x46 => OpsCode { code: 0x46, mnemonic: "LSR", len: 2, cycles: 5, mode: AddressingMode::ZeroPage },
        0x47 => OpsCode { code: 0x47, mnemonic: "*SRE", len: 2, cycles: 5, mode: AddressingMode::ZeroPage },
        0x48 => OpsCode { code: 0x48, mnemonic: "PHA", len: 1, cycles: 3, mode: AddressingMode::NoneAddressing },
        0x49 => OpsCode { code: 0x49, mnemonic: "EOR", len: 2, cycles: 2, mode: AddressingMode::Immediate },
        0x4a => OpsCode { code: 0x4a, mnemonic: "LSR", len: 1, cycles: 2, mode: AddressingMode::Accumulator },
        0x4b => OpsCode { code: 0x4b, mnemonic: "*ALR", len: 2, cycles: 2, mode: AddressingMode::Immediate },
        0x4c => OpsCode { code: 0x4c, mnemonic: "JMP", len: 3, cycles: 3, mode: AddressingMode::NoneAddressing },
        0x4d => OpsCode { code: 0x4d, mnemonic: "EOR", len: 3, cycles: 4, mode: AddressingMode::Absolute },
        0x4e => OpsCode { code: 0x4e, mnemonic: "LSR", len: 3, cycles: 6, mode: AddressingMode::Absolute },
        0x4f => OpsCode { code: 0x4f, mnemonic: "*SRE", len: 3, cycles: 6, mode: AddressingMode::Absolute },
        0x50 => OpsCode { code: 0x50, mnemonic: "BVC", len: 2, cycles: 2, mode: AddressingMode::NoneAddressing },
        0x51 => OpsCode { code: 0x51, mnemonic: "EOR", len: 2, cycles: 5, mode: AddressingMode::Indirect_Y_PageCross },
        0x52 => OpsCode { code: 0x52, mnemonic: "*NOP", len: 1, cycles: 2, mode: AddressingMode::NoneAddressing },
        0x53 => OpsCode { code: 0x53, mnemonic: "*SRE", len: 2, cycles: 8, mode: AddressingMode::Indirect_Y },
        0x54 => OpsCode { code: 0x54, mnemonic: "*NOP", len: 2, cycles: 4, mode: AddressingMode::ZeroPage_X },
        0x55 => OpsCode { code: 0x55, mnemonic: "EOR", len: 2, cycles: 4, mode: AddressingMode::ZeroPage_X },
        0x56 => OpsCode { code: 0x56, mnemonic: "LSR", len: 2, cycles: 6, mode: AddressingMode::ZeroPage_X },
        0x57 => OpsCode { code: 0x57, mnemonic: "*SRE", len: 2, cycles: 6, mode: AddressingMode::ZeroPage_X },
        0x58 => OpsCode { code: 0x58, mnemonic: "CLI", len: 1, cycles: 2, mode: AddressingMode::NoneAddressing },
        0x59 => OpsCode { code: 0x59, mnemonic: "EOR", len: 3, cycles: 4, mode: AddressingMode::Absolute_Y_PageCross },
        0x5a => OpsCode { code: 0x5a, mnemonic: "*NOP", len: 1, cycles: 2, mode: AddressingMode::NoneAddressing },
        0x5b => OpsCode { code: 0x5b, mnemonic: "*SRE", len: 3, cycles: 7, mode: AddressingMode::Absolute_Y },
        0x5c => OpsCode { code: 0x5c, mnemonic: "*NOP", len: 3, cycles: 4, mode: AddressingMode::Absolute_X_PageCross },
        0x5d => OpsCode { code: 0x5d, mnemonic: "EOR", len: 3, cycles: 4, mode: AddressingMode::Absolute_X_PageCross },
        0x5e => OpsCode { code: 0x5e, mnemonic: "LSR", len: 3, cycles: 7, mode: AddressingMode::Absolute_X },
        0x5f => OpsCode { code: 0x5f, mnemonic: "*SRE", len: 3, cycles: 7, mode: AddressingMode::Absolute_X },
        0x60 => OpsCode { code: 0x60, mnemonic: "RTS", len: 1, cycles: 6, mode: AddressingMode::NoneAddressing },
        0x61 => OpsCode { code: 0x61, mnemonic: "ADC", len: 2, cycles: 6, mode: AddressingMode::Indirect_X },
        0x62 => OpsCode { code: 0x62, mnemonic: "*NOP", len: 1, cycles: 2, mode: AddressingMode::NoneAddressing },
        0x63 => OpsCode { code: 0x63, mnemonic: "*RRA", len: 2, cycles: 8, mode: AddressingMode::Indirect_X },
        0x64 => OpsCode { code: 0x64, mnemonic: "*NOP", len: 2, cycles: 3, mode: AddressingMode::ZeroPage },
        0x65 => OpsCode { code: 0x65, mnemonic: "ADC", len: 2, cycles: 3, mode: AddressingMode::ZeroPage },
        0x66 => OpsCode { code: 0x66, mnemonic: "ROR", len: 2, cycles: 5, mode: AddressingMode::ZeroPage },
        0x67 => OpsCode { code: 0x67, mnemonic: "*RRA", len: 2, cycles: 5, mode: AddressingMode::ZeroPage },
        0x68 => OpsCode { code: 0x68, mnemonic: "PLA", len: 1, cycles: 4, mode: AddressingMode::NoneAddressing },
        0x69 => OpsCode { code: 0x69, mnemonic: "ADC", len: 2, cycles: 2, mode: AddressingMode::Immediate },
        0x6a => OpsCode { code: 0x6a, mnemonic: "ROR", len: 1, cycles: 2, mode: AddressingMode::Accumulator },
        0x6b => OpsCode { code: 0x6b, mnemonic: "*ARR", len: 2, cycles: 2, mode: AddressingMode::Immediate },
        0x6c => OpsCode { code: 0x6c, mnemonic: "JMP", len: 3, cycles: 5, mode: AddressingMode::NoneAddressing },
        0x6d => OpsCode { code: 0x6d, mnemonic: "ADC", len: 3, cycles: 4, mode: AddressingMode::Absolute },
        0x6e => OpsCode { code: 0x6e, mnemonic: "ROR", len: 3, cycles: 6, mode: AddressingMode::Absolute },
        0x6f => OpsCode { code: 0x6f, mnemonic: "*RRA", len: 3, cycles: 6, mode: AddressingMode::Absolute },
        0x70 => OpsCode { code: 0x70, mnemonic: "BVS", len: 2, cycles: 2, mode: AddressingMode::NoneAddressing },
        0x71 => OpsCode { code: 0x71, mnemonic: "ADC", len: 2, cycles: 5, mode: AddressingMode::Indirect_Y_PageCross },
        0x72 => OpsCode { code: 0x72, mnemonic: "*NOP", len: 1, cycles: 2, mode: AddressingMode::NoneAddressing },
        0x73 => OpsCode { code: 0x73, mnemonic: "*RRA", len: 2, cycles: 8, mode: AddressingMode::Indirect_Y },
        0x74 => OpsCode { code: 0x74, mnemonic: "*NOP", len: 2, cycles: 4, mode: AddressingMode::ZeroPage_X },
        0x75 => OpsCode { code: 0x75, mnemonic: "ADC", len: 2, cycles: 4, mode: AddressingMode::ZeroPage_X },
        0x76 => OpsCode { code: 0x76, mnemonic: "ROR", len: 2, cycles: 6, mode: AddressingMode::ZeroPage_X },
        0x77 => OpsCode { code: 0x77, mnemonic: "*RRA", len: 2, cycles: 6, mode: AddressingMode::ZeroPage_X },
        0x78 => OpsCode { code: 0x78, mnemonic: "SEI", len: 1, cycles: 2, mode: AddressingMode::NoneAddressing },
        0x79 => OpsCode { code: 0x79, mnemonic: "ADC", len: 3, cycles: 4, mode: AddressingMode::Absolute_Y_PageCross },
        0x7a => OpsCode { code: 0x7a, mnemonic: "*NOP", len: 1, cycles: 2, mode: AddressingMode::NoneAddressing },
        0x7b => OpsCode { code: 0x7b, mnemonic: "*RRA", len: 3, cycles: 7, mode: AddressingMode::Absolute_Y },
        0x7c => OpsCode { code: 0x7c, mnemonic: "*NOP", len: 3, cycles: 4, mode: AddressingMode::Absolute_X_PageCross },
        0x7d => OpsCode { code: 0x7d, mnemonic: "ADC", len: 3, cycles: 4, mode: AddressingMode::Absolute_X_PageCross },
        0x7e => OpsCode { code: 0x7e, mnemonic: "ROR", len: 3, cycles: 7, mode: AddressingMode::Absolute_X },
        0x7f => OpsCode { code: 0x7f, mnemonic: "*RRA", len: 3, cycles: 7, mode: AddressingMode::Absolute_X },
        0x80 => OpsCode { code: 0x80, mnemonic: "*NOP", len: 2, cycles: 2, mode: AddressingMode::Immediate },
        0x81 => OpsCode { code: 0x81, mnemonic: "STA", len: 2, cycles: 6, mode: AddressingMode::Indirect_X },
        0x82 => OpsCode { code: 0x82, mnemonic: "*NOP", len: 2, cycles: 2, mode: AddressingMode::Immediate },
        0x83 => OpsCode { code: 0x83, mnemonic: "*SAX", len: 2, cycles: 6, mode: AddressingMode::Indirect_X },
        0x84 => OpsCode { code: 0x84, mnemonic: "STY", len: 2, cycles: 3, mode: AddressingMode::ZeroPage },
        0x85 => OpsCode { code: 0x85, mnemonic: "STA", len: 2, cycles: 3, mode: AddressingMode::ZeroPage },
        0x86 => OpsCode { code: 0x86, mnemonic: "STX", len: 2, cycles: 3, mode: AddressingMode::ZeroPage },
        0x87 => OpsCode { code: 0x87, mnemonic: "*SAX", len: 2, cycles: 3, mode: AddressingMode::ZeroPage },
        0x88 => OpsCode { code: 0x88, mnemonic: "DEY", len: 1, cycles: 2, mode: AddressingMode::NoneAddressing },
        0x89 => OpsCode { code: 0x89, mnemonic: "*NOP", len: 2, cycles: 2, mode: AddressingMode::Immediate },
        0x8a => OpsCode { code: 0x8a, mnemonic: "TXA", len: 1, cycles: 2, mode: AddressingMode::NoneAddressing },
        0x8b => OpsCode { code: 0x8b, mnemonic: "*XAA", len: 2, cycles: 3, mode: AddressingMode::Immediate },
        0x8c => OpsCode { code: 0x8c, mnemonic: "STY", len: 3, cycles: 4, mode: AddressingMode::Absolute },
        0x8d => OpsCode { code: 0x8d, mnemonic: "STA", len: 3, cycles: 4, mode: AddressingMode::Absolute },
        0x8e => OpsCode { code: 0x8e, mnemonic: "STX", len: 3, cycles: 4, mode: AddressingMode::Absolute },
        0x8f => OpsCode { code: 0x8f, mnemonic: "*SAX", len: 3, cycles: 4, mode: AddressingMode::Absolute },
        0x90 => OpsCode { code: 0x90, mnemonic: "BCC", len: 2, cycles: 2, mode: AddressingMode::NoneAddressing },
        0x91 => OpsCode { code: 0x91, mnemonic: "STA", len: 2, cycles: 6, mode: AddressingMode::Indirect_Y },
        0x92 => OpsCode { code: 0x92, mnemonic: "*NOP", len: 1, cycles: 2, mode: AddressingMode::NoneAddressing },
        0x93 => OpsCode { code: 0x93, mnemonic: "*AHX", len: 2, cycles: 8, mode: AddressingMode::Indirect_Y },
        0x94 => OpsCode { code: 0x94, mnemonic: "STY", len: 2, cycles: 4, mode: AddressingMode::ZeroPage_X },
        0x95 => OpsCode { code: 0x95, mnemonic: "STA", len: 2, cycles: 4, mode: AddressingMode::ZeroPage_X },
        0x96 => OpsCode { code: 0x96, mnemonic: "STX", len: 2, cycles: 4, mode: AddressingMode::ZeroPage_Y },
        0x97 => OpsCode { code: 0x97, mnemonic: "*SAX", len: 2, cycles: 4, mode: AddressingMode::ZeroPage_Y },
        0x98 => OpsCode { code: 0x98, mnemonic: "TYA", len: 1, cycles: 2, mode: AddressingMode::NoneAddressing },
        0x99 => OpsCode { code: 0x99, mnemonic: "STA", len: 3, cycles: 5, mode: AddressingMode::Absolute_Y },
        0x9a => OpsCode { code: 0x9a, mnemonic: "TXS", len: 1, cycles: 2, mode: AddressingMode::NoneAddressing },
        0x9b => OpsCode { code: 0x9b, mnemonic: "*TAS", len: 3, cycles: 2, mode: AddressingMode::Absolute_Y },
        0x9c => OpsCode { code: 0x9c, mnemonic: "*SHY", len: 3, cycles: 4, mode: AddressingMode::Absolute_X },
        0x9d => OpsCode { code: 0x9d, mnemonic: "STA", len: 3, cycles: 5, mode: AddressingMode::Absolute_X },
        0x9e => OpsCode { code: 0x9e, mnemonic: "*SHX", len: 3, cycles: 4, mode: AddressingMode::Absolute_Y },
        0x9f => OpsCode { code: 0x9f, mnemonic: "*AHX", len: 3, cycles: 4, mode: AddressingMode::Absolute_Y },
        0xa0 => OpsCode { code: 0xa0, mnemonic: "LDY", len: 2, cycles: 2, mode: AddressingMode::Immediate },
        0xa1 => OpsCode { code: 0xa1, mnemonic: "LDA", len: 2, cycles: 6, mode: AddressingMode::Indirect_X },
        0xa2 => OpsCode { code: 0xa2, mnemonic: "LDX", len: 2, cycles: 2, mode: AddressingMode::Immediate },
        0xa3 => OpsCode { code: 0xa3, mnemonic: "*LAX", len: 2, cycles: 6, mode: AddressingMode::Indirect_X },
        0xa4 => OpsCode { code: 0xa4, mnemonic: "LDY", len: 2, cycles: 3, mode: AddressingMode::ZeroPage },
        0xa5 => OpsCode { code: 0xa5, mnemonic: "LDA", len: 2, cycles: 3, mode: AddressingMode::ZeroPage },
        0xa6 => OpsCode { code: 0xa6, mnemonic: "LDX", len: 2, cycles: 3, mode: AddressingMode::ZeroPage },
        0xa7 => OpsCode { code: 0xa7, mnemonic: "*LAX", len: 2, cycles: 3, mode: AddressingMode::ZeroPage },
        0xa8 => OpsCode { code: 0xa8, mnemonic: "TAY", len: 1, cycles: 2, mode: AddressingMode::NoneAddressing },
        0xa9 => OpsCode { code: 0xa9, mnemonic: "LDA", len: 2, cycles: 2, mode: AddressingMode::Immediate },
        0xaa => OpsCode { code: 0xaa, mnemonic: "TAX", len: 1, cycles: 2, mode: AddressingMode::NoneAddressing },
        0xab => OpsCode { code: 0xab, mnemonic: "*LXA", len: 2, cycles: 3, mode: AddressingMode::Immediate },
        0xac => OpsCode { code: 0xac, mnemonic: "LDY", len: 3, cycles: 4, mode: AddressingMode::Absolute },
        0xad => OpsCode { code: 0xad, mnemonic: "LDA", len: 3, cycles: 4, mode: AddressingMode::Absolute },
        0xae => OpsCode { code: 0xae, mnemonic: "LDX", len: 3, cycles: 4, mode: AddressingMode::Absolute },
        0xaf => OpsCode { code: 0xaf, mnemonic: "*LAX", len: 3, cycles: 4, mode: AddressingMode::Absolute },
        0xb0 => OpsCode { code: 0xb0, mnemonic: "BCS", len: 2, cycles: 2, mode: AddressingMode::NoneAddressing },
        0xb1 => OpsCode { code: 0xb1, mnemonic: "LDA", len: 2, cycles: 5, mode: AddressingMode::Indirect_Y_PageCross },
        0xb2 => OpsCode { code: 0xb2, mnemonic: "*NOP", len: 1, cycles: 2, mode: AddressingMode::NoneAddressing },
        0xb3 => OpsCode { code: 0xb3, mnemonic: "*LAX", len: 2, cycles: 5, mode: AddressingMode::Indirect_Y_PageCross },
        0xb4 => OpsCode { code: 0xb4, mnemonic: "LDY", len: 2, cycles: 4, mode: AddressingMode::ZeroPage_X },
        0xb5 => OpsCode { code: 0xb5, mnemonic: "LDA", len: 2, cycles: 4, mode: AddressingMode::ZeroPage_X },
        0xb6 => OpsCode { code: 0xb6, mnemonic: "LDX", len: 2, cycles: 4, mode: AddressingMode::ZeroPage_Y },
        0xb7 => OpsCode { code: 0xb7, mnemonic: "*LAX", len: 2, cycles: 4, mode: AddressingMode::ZeroPage_Y },
        0xb8 => OpsCode { code: 0xb8, mnemonic: "CLV", len: 1, cycles: 2, mode: AddressingMode::NoneAddressing },
        0xb9 => OpsCode { code: 0xb9, mnemonic: "LDA", len: 3, cycles: 4, mode: AddressingMode::Absolute_Y_PageCross },
        0xba => OpsCode { code: 0xba, mnemonic: "TSX", len: 1, cycles: 2, mode: AddressingMode::NoneAddressing },
        0xbb => OpsCode { code: 0xbb, mnemonic: "*LAS", len: 3, cycles: 2, mode: AddressingMode::Absolute_Y },
        0xbc => OpsCode { code: 0xbc, mnemonic: "LDY", len: 3, cycles: 4, mode: AddressingMode::Absolute_X_PageCross },
        0xbd => OpsCode { code: 0xbd, mnemonic: "LDA", len: 3, cycles: 4, mode: AddressingMode::Absolute_X_PageCross },
        0xbe => OpsCode { code: 0xbe, mnemonic: "LDX", len: 3, cycles: 4, mode: AddressingMode::Absolute_Y_PageCross },
        0xbf => OpsCode { code: 0xbf, mnemonic: "*LAX", len: 3, cycles: 4, mode: AddressingMode::Absolute_Y_PageCross },
        0xc0 => OpsCode { code: 0xc0, mnemonic: "CPY", len: 2, cycles: 2, mode: AddressingMode::Immediate },
        0xc1 => OpsCode { code: 0xc1, mnemonic: "CMP", len: 2, cycles: 6, mode: AddressingMode::Indirect_X },
        0xc2 => OpsCode { code: 0xc2, mnemonic: "*NOP", len: 2, cycles: 2, mode: AddressingMode::Immediate },
        0xc3 => OpsCode { code: 0xc3, mnemonic: "*DCP", len: 2, cycles: 8, mode: AddressingMode::Indirect_X },
        0xc4 => OpsCode { code: 0xc4, mnemonic: "CPY", len: 2, cycles: 3, mode: AddressingMode::ZeroPage },
        0xc5 => OpsCode { code: 0xc5, mnemonic: "CMP", len: 2, cycles: 3, mode: AddressingMode::ZeroPage },
        0xc6 => OpsCode { code: 0xc6, mnemonic: "DEC", len: 2, cycles: 5, mode: AddressingMode::ZeroPage },
        0xc7 => OpsCode { code: 0xc7, mnemonic: "*DCP", len: 2, cycles: 5, mode: AddressingMode::ZeroPage },
        0xc8 => OpsCode { code: 0xc8, mnemonic: "INY", len: 1, cycles: 2, mode: AddressingMode::NoneAddressing },
        0xc9 => OpsCode { code: 0xc9, mnemonic: "CMP", len: 2, cycles: 2, mode: AddressingMode::Immediate },
        0xca => OpsCode { code: 0xca, mnemonic: "DEX", len: 1, cycles: 2, mode: AddressingMode::NoneAddressing },
        0xcb => OpsCode { code: 0xcb, mnemonic: "*AXS", len: 2, cycles: 2, mode: AddressingMode::Immediate },
        0xcc => OpsCode { code: 0xcc, mnemonic: "CPY", len: 3, cycles: 4, mode: AddressingMode::Absolute },
        0xcd => OpsCode { code: 0xcd, mnemonic: "CMP", len: 3, cycles: 4, mode: AddressingMode::Absolute },
        0xce => OpsCode { code: 0xce, mnemonic: "DEC", len: 3, cycles: 6, mode: AddressingMode::Absolute },
        0xcf => OpsCode { code: 0xcf, mnemonic: "*DCP", len: 3, cycles: 6, mode: AddressingMode::Absolute },
        0xd0 => OpsCode { code: 0xd0, mnemonic: "BNE", len: 2, cycles: 2, mode: AddressingMode::NoneAddressing },
        0xd1 => OpsCode { code: 0xd1, mnemonic: "CMP", len: 2, cycles: 5, mode: AddressingMode::Indirect_Y_PageCross },
        0xd2 => OpsCode { code: 0xd2, mnemonic: "*NOP", len: 1, cycles: 2, mode: AddressingMode::NoneAddressing },
        0xd3 => OpsCode { code: 0xd3, mnemonic: "*DCP", len: 2, cycles: 8, mode: AddressingMode::Indirect_Y },
        0xd4 => OpsCode { code: 0xd4, mnemonic: "*NOP", len: 2, cycles: 4, mode: AddressingMode::ZeroPage_X },
        0xd5 => OpsCode { code: 0xd5, mnemonic: "CMP", len: 2, cycles: 4, mode: AddressingMode::ZeroPage_X },
        0xd6 => OpsCode { code: 0xd6, mnemonic: "DEC", len: 2, cycles: 6, mode: AddressingMode::ZeroPage_X },
        0xd7 => OpsCode { code: 0xd7, mnemonic: "*DCP", len: 2, cycles: 6, mode: AddressingMode::ZeroPage_X },
        0xd8 => OpsCode { code: 0xd8, mnemonic: "CLD", len: 1, cycles: 2, mode: AddressingMode::NoneAddressing },
        0xd9 => OpsCode { code: 0xd9, mnemonic: "CMP", len: 3, cycles: 4, mode: AddressingMode::Absolute_Y_PageCross },
        0xda => OpsCode { code: 0xda, mnemonic: "*NOP", len: 1, cycles: 2, mode: AddressingMode::NoneAddressing },
        0xdb => OpsCode { code: 0xdb, mnemonic: "*DCP", len: 3, cycles: 7, mode: AddressingMode::Absolute_Y },
        0xdc => OpsCode { code: 0xdc, mnemonic: "*NOP", len: 3, cycles: 4, mode: AddressingMode::Absolute_X_PageCross },
        0xdd => OpsCode { code: 0xdd, mnemonic: "CMP", len: 3, cycles: 4, mode: AddressingMode::Absolute_X_PageCross },
        0xde => OpsCode { code: 0xde, mnemonic: "DEC", len: 3, cycles: 7, mode: AddressingMode::Absolute_X },
        0xdf => OpsCode { code: 0xdf, mnemonic: "*DCP", len: 3, cycles: 7, mode: AddressingMode::Absolute_X },
        0xe0 => OpsCode { code: 0xe0, mnemonic: "CPX", len: 2, cycles: 2, mode: AddressingMode::Immediate },
        0xe1 => OpsCode { code: 0xe1, mnemonic: "SBC", len: 2, cycles: 6, mode: AddressingMode::Indirect_X },
        0xe2 => OpsCode { code: 0xe2, mnemonic: "*NOP", len: 2, cycles: 2, mode: AddressingMode::Immediate },
        0xe3 => OpsCode { code: 0xe3, mnemonic: "*ISB", len: 2, cycles: 8, mode: AddressingMode::Indirect_X },
        0xe4 => OpsCode { code: 0xe4, mnemonic: "CPX", len: 2, cycles: 3, mode: AddressingMode::ZeroPage },
        0xe5 => OpsCode { code: 0xe5, mnemonic: "SBC", len: 2, cycles: 3, mode: AddressingMode::ZeroPage },
        0xe6 => OpsCode { code: 0xe6, mnemonic: "INC", len: 2, cycles: 5, mode: AddressingMode::ZeroPage },
        0xe7 => OpsCode { code: 0xe7, mnemonic: "*ISB", len: 2, cycles: 5, mode: AddressingMode::ZeroPage },
        0xe8 => OpsCode { code: 0xe8, mnemonic: "INX", len: 1, cycles: 2, mode: AddressingMode::NoneAddressing },
        0xe9 => OpsCode { code: 0xe9, mnemonic: "SBC", len: 2, cycles: 2, mode: AddressingMode::Immediate },
        0xea => OpsCode { code: 0xea, mnemonic: "NOP", len: 1, cycles: 2, mode: AddressingMode::NoneAddressing },
        0xeb => OpsCode { code: 0xeb, mnemonic: "*SBC", len: 2, cycles: 2, mode: AddressingMode::Immediate },
        0xec => OpsCode { code: 0xec, mnemonic: "CPX", len: 3, cycles: 4, mode: AddressingMode::Absolute },
        0xed => OpsCode { code: 0xed, mnemonic: "SBC", len: 3, cycles: 4, mode: AddressingMode::Absolute },
        0xee => OpsCode { code: 0xee, mnemonic: "INC", len: 3, cycles: 6, mode: AddressingMode::Absolute },
        0xef => OpsCode { code: 0xef, mnemonic: "*ISB", len: 3, cycles: 6, mode: AddressingMode::Absolute },
        0xf0 => OpsCode { code: 0xf0, mnemonic: "BEQ", len: 2, cycles: 2, mode: AddressingMode::NoneAddressing },
        0xf1 => OpsCode { code: 0xf1, mnemonic: "SBC", len: 2, cycles: 5, mode: AddressingMode::Indirect_Y_PageCross },
        0xf2 => OpsCode { code: 0xf2, mnemonic: "*NOP", len: 1, cycles: 2, mode: AddressingMode::NoneAddressing },
        0xf3 => OpsCode { code: 0xf3, mnemonic: "*ISB", len: 2, cycles: 8, mode: AddressingMode::Indirect_Y },
        0xf4 => OpsCode { code: 0xf4, mnemonic: "*NOP", len: 2, cycles: 4, mode: AddressingMode::ZeroPage_X },
        0xf5 => OpsCode { code: 0xf5, mnemonic: "SBC", len: 2, cycles: 4, mode: AddressingMode::ZeroPage_X },
        0xf6 => OpsCode { code: 0xf6, mnemonic: "INC", len: 2, cycles: 6, mode: AddressingMode::ZeroPage_X },
        0xf7 => OpsCode { code: 0xf7, mnemonic: "*ISB", len: 2, cycles: 6, mode: AddressingMode::ZeroPage_X },
        0xf8 => OpsCode { code: 0xf8, mnemonic: "SED", len: 1, cycles: 2, mode: AddressingMode::NoneAddressing },
        0xf9 => OpsCode { code: 0xf9, mnemonic: "SBC", len: 3, cycles: 4, mode: AddressingMode::Absolute_Y_PageCross },
        0xfa => OpsCode { code: 0xfa, mnemonic: "*NOP", len: 1, cycles: 2, mode: AddressingMode::NoneAddressing },
        0xfb => OpsCode { code: 0xfb, mnemonic: "*ISB", len: 3, cycles: 7, mode: AddressingMode::Absolute_Y },
        0xfc => OpsCode { code: 0xfc, mnemonic: "*NOP", len: 3, cycles: 4, mode: AddressingMode::Absolute_X_PageCross },
        0xfd => OpsCode { code: 0xfd, mnemonic: "SBC", len: 3, cycles: 4, mode: AddressingMode::Absolute_X_PageCross },
        0xfe => OpsCode { code: 0xfe, mnemonic: "INC", len: 3, cycles: 7, mode: AddressingMode::Absolute_X },
        0xff => OpsCode { code: 0xff, mnemonic: "*ISB", len: 3, cycles: 7, mode: AddressingMode::Absolute_X },
    }
}

impl OpsCode {
    pub fn new(code: u8, mnemonic: &'static str, len: u8, cycles: u8, mode: AddressingMode) -> (ops:
        OpsCode)
        ensures
            ops == (OpsCode { code, mnemonic, len, cycles, mode }),
    {
        OpsCode { code, mnemonic, len, cycles, mode }
    }

    /// Decodes an opcode byte. Every byte decodes: the table is dense.
    pub fn lookup(code: u8) -> (ops: OpsCode)
        ensures
            ops == opcode_record(code),
            ops.code == code,
            1 <= ops.len <= 3,
    {
        match code {
            0x00 => OpsCode { code: 0x00, mnemonic: "BRK", len: 1, cycles: 7, mode: AddressingMode::NoneAddressing },
            0x01 => OpsCode { code: 0x01, mnemonic: "ORA", len: 2, cycles: 6, mode: AddressingMode::Indirect_X },
            0x02 => OpsCode { code: 0x02, mnemonic: "*NOP", len: 1, cycles: 2, mode: AddressingMode::NoneAddressing },
            0x03 => OpsCode { code: 0x03, mnemonic: "*SLO", len: 2, cycles: 8, mode: AddressingMode::Indirect_X },
            0x04 => OpsCode { code: 0x04, mnemonic: "*NOP", len: 2, cycles: 3, mode: AddressingMode::ZeroPage },
            0x05 => OpsCode { code: 0x05, mnemonic: "ORA", len: 2, cycles: 3, mode: AddressingMode::ZeroPage },
            0x06 => OpsCode { code: 0x06, mnemonic: "ASL", len: 2, cycles: 5, mode: AddressingMode::ZeroPage },
            0x07 => OpsCode { code: 0x07, mnemonic: "*SLO", len: 2, cycles: 5, mode: AddressingMode::ZeroPage },
            0x08 => OpsCode { code: 0x08, mnemonic: "PHP", len: 1, cycles: 3, mode: AddressingMode::NoneAddressing },
            0x09 => OpsCode { code: 0x09, mnemonic: "ORA", len: 2, cycles: 2, mode: AddressingMode::Immediate },
            0x0a => OpsCode { code: 0x0a, mnemonic: "ASL", len: 1, cycles: 2, mode: AddressingMode::Accumulator },
            0x0b => OpsCode { code: 0x0b, mnemonic: "*ANC", len: 2, cycles: 2, mode: AddressingMode::Immediate },
            0x0c => OpsCode { code: 0x0c, mnemonic: "*NOP", len: 3, cycles: 4, mode: AddressingMode::Absolute },
            0x0d => OpsCode { code: 0x0d, mnemonic: "ORA", len: 3, cycles: 4, mode: AddressingMode::Absolute },
            0x0e => OpsCode { code: 0x0e, mnemonic: "ASL", len: 3, cycles: 6, mode: AddressingMode::Absolute },
            0x0f => OpsCode { code: 0x0f, mnemonic: "*SLO", len: 3, cycles: 6, mode: AddressingMode::Absolute },
            0x10 => OpsCode { code: 0x10, mnemonic: "BPL", len: 2, cycles: 2, mode: AddressingMode::NoneAddressing },
            0x11 => OpsCode { code: 0x11, mnemonic: "ORA", len: 2, cycles: 5, mode: AddressingMode::Indirect_Y_PageCross },
            0x12 => OpsCode { code: 0x12, mnemonic: "*NOP", len: 1, cycles: 2, mode: AddressingMode::NoneAddressing },
            0x13 => OpsCode { code: 0x13, mnemonic: "*SLO", len: 2, cycles: 8, mode: AddressingMode::Indirect_Y },
            0x14 => OpsCode { code: 0x14, mnemonic: "*NOP", len: 2, cycles: 4, mode: AddressingMode::ZeroPage_X },
            0x15 => OpsCode { code: 0x15, mnemonic: "ORA", len: 2, cycles: 4, mode: AddressingMode::ZeroPage_X },
            0x16 => OpsCode { code: 0x16, mnemonic: "ASL", len: 2, cycles: 6, mode: AddressingMode::ZeroPage_X },
            0x17 => OpsCode { code: 0x17, mnemonic: "*SLO", len: 2, cycles: 6, mode: AddressingMode::ZeroPage_X },
            0x18 => OpsCode { code: 0x18, mnemonic: "CLC", len: 1, cycles: 2, mode: AddressingMode::NoneAddressing },
            0x19 => OpsCode { code: 0x19, mnemonic: "ORA", len: 3, cycles: 4, mode: AddressingMode::Absolute_Y_PageCross },
            0x1a => OpsCode { code: 0x1a, mnemonic: "*NOP", len: 1, cycles: 2, mode: AddressingMode::NoneAddressing },
            0x1b => OpsCode { code: 0x1b, mnemonic: "*SLO", len: 3, cycles: 7, mode: AddressingMode::Absolute_Y },
            0x1c => OpsCode { code: 0x1c, mnemonic: "*NOP", len: 3, cycles: 4, mode: AddressingMode::Absolute_X_PageCross },
            0x1d => OpsCode { code: 0x1d, mnemonic: "ORA", len: 3, cycles: 4, mode: AddressingMode::Absolute_X_PageCross },
            0x1e => OpsCode { code: 0x1e, mnemonic: "ASL", len: 3, cycles: 7, mode: AddressingMode::Absolute_X },
            0x1f => OpsCode { code: 0x1f, mnemonic: "*SLO", len: 3, cycles: 7, mode: AddressingMode::Absolute_X },
            0x20 => OpsCode { code: 0x20, mnemonic: "JSR", len: 3, cycles: 6, mode: AddressingMode::NoneAddressing },
            0x21 => OpsCode { code: 0x21, mnemonic: "AND", len: 2, cycles: 6, mode: AddressingMode::Indirect_X },
            0x22 => OpsCode { code: 0x22, mnemonic: "*NOP", len: 1, cycles: 2, mode: AddressingMode::NoneAddressing },
            0x23 => OpsCode { code: 0x23, mnemonic: "*RLA", len: 2, cycles: 8, mode: AddressingMode::Indirect_X },
            0x24 => OpsCode { code: 0x24, mnemonic: "BIT", len: 2, cycles: 3, mode: AddressingMode::ZeroPage },
            0x25 => OpsCode { code: 0x25, mnemonic: "AND", len: 2, cycles: 3, mode: AddressingMode::ZeroPage },
            0x26 => OpsCode { code: 0x26, mnemonic: "ROL", len: 2, cycles: 5, mode: AddressingMode::ZeroPage },
            0x27 => OpsCode { code: 0x27, mnemonic: "*RLA", len: 2, cycles: 5, mode: AddressingMode::ZeroPage },
            0x28 => OpsCode { code: 0x28, mnemonic: "PLP", len: 1, cycles: 4, mode: AddressingMode::NoneAddressing },
            0x29 => OpsCode { code: 0x29, mnemonic: "AND", len: 2, cycles: 2, mode: AddressingMode::Immediate },
            0x2a => OpsCode { code: 0x2a, mnemonic: "ROL", len: 1, cycles: 2, mode: AddressingMode::Accumulator },
            0x2b => OpsCode { code: 0x2b, mnemonic: "*ANC", len: 2, cycles: 2, mode: AddressingMode::Immediate },
            0x2c => OpsCode { code: 0x2c, mnemonic: "BIT", len: 3, cycles: 4, mode: AddressingMode::Absolute },
            0x2d => OpsCode { code: 0x2d, mnemonic: "AND", len: 3, cycles: 4, mode: AddressingMode::Absolute },
            0x2e => OpsCode { code: 0x2e, mnemonic: "ROL", len: 3, cycles: 6, mode: AddressingMode::Absolute },
            0x2f => OpsCode { code: 0x2f, mnemonic: "*RLA", len: 3, cycles: 6, mode: AddressingMode::Absolute },
            0x30 => OpsCode { code: 0x30, mnemonic: "BMI", len: 2, cycles: 2, mode: AddressingMode::NoneAddressing },
            0x31 => OpsCode { code: 0x31, mnemonic: "AND", len: 2, cycles: 5, mode: AddressingMode::Indirect_Y_PageCross },
            0x32 => OpsCode { code: 0x32, mnemonic: "*NOP", len: 1, cycles: 2, mode: AddressingMode::NoneAddressing },
            0x33 => OpsCode { code: 0x33, mnemonic: "*RLA", len: 2, cycles: 8, mode: AddressingMode::Indirect_Y },
            0x34 => OpsCode { code: 0x34, mnemonic: "*NOP", len: 2, cycles: 4, mode: AddressingMode::ZeroPage_X },
            0x35 => OpsCode { code: 0x35, mnemonic: "AND", len: 2, cycles: 4, mode: AddressingMode::ZeroPage_X },
            0x36 => OpsCode { code: 0x36, mnemonic: "ROL", len: 2, cycles: 6, mode: AddressingMode::ZeroPage_X },
            0x37 => OpsCode { code: 0x37, mnemonic: "*RLA", len: 2, cycles: 6, mode: AddressingMode::ZeroPage_X },
            0x38 => OpsCode { code: 0x38, mnemonic: "SEC", len: 1, cycles: 2, mode: AddressingMode::NoneAddressing },
            0x39 => OpsCode { code: 0x39, mnemonic: "AND", len: 3, cycles: 4, mode: AddressingMode::Absolute_Y_PageCross },
            0x3a => OpsCode { code: 0x3a, mnemonic: "*NOP", len: 1, cycles: 2, mode: AddressingMode::NoneAddressing },
            0x3b => OpsCode { code: 0x3b, mnemonic: "*RLA", len: 3, cycles: 7, mode: AddressingMode::Absolute_Y },
            0x3c => OpsCode { code: 0x3c, mnemonic: "*NOP", len: 3, cycles: 4, mode: AddressingMode::Absolute_X_PageCross },
            0x3d => OpsCode { code: 0x3d, mnemonic: "AND", len: 3, cycles: 4, mode: AddressingMode::Absolute_X_PageCross },
            0x3e => OpsCode { code: 0x3e, mnemonic: "ROL", len: 3, cycles: 7, mode: AddressingMode::Absolute_X },
            0x3f => OpsCode { code: 0x3f, mnemonic: "*RLA", len: 3, cycles: 7, mode: AddressingMode::Absolute_X },
            0x40 => OpsCode { code: 0x40, mnemonic: "RTI", len: 1, cycles: 6, mode: AddressingMode::NoneAddressing },
            0x41 => OpsCode { code: 0x41, mnemonic: "EOR", len: 2, cycles: 6, mode: AddressingMode::Indirect_X },
            0x42 => OpsCode { code: 0x42, mnemonic: "*NOP", len: 1, cycles: 2, mode: AddressingMode::NoneAddressing },
            0x43 => OpsCode { code: 0x43, mnemonic: "*SRE", len: 2, cycles: 8, mode: AddressingMode::Indirect_X },
            0x44 => OpsCode { code: 0x44, mnemonic: "*NOP", len: 2, cycles: 3, mode: AddressingMode::ZeroPage },
            0x45 => OpsCode { code: 0x45, mnemonic: "EOR", len: 2, cycles: 3, mode: AddressingMode::ZeroPage },
            0x46 => OpsCode { code: 0x46, mnemonic: "LSR", len: 2, cycles: 5, mode: AddressingMode::ZeroPage },
            0x47 => OpsCode { code: 0x47, mnemonic: "*SRE", len: 2, cycles: 5, mode: AddressingMode::ZeroPage },
            0x48 => OpsCode { code: 0x48, mnemonic: "PHA", len: 1, cycles: 3, mode: AddressingMode::NoneAddressing },
            0x49 => OpsCode { code: 0x49, mnemonic: "EOR", len: 2, cycles: 2, mode: AddressingMode::Immediate },
            0x4a => OpsCode { code: 0x4a, mnemonic: "LSR", len: 1, cycles: 2, mode: AddressingMode::Accumulator },
            0x4b => OpsCode { code: 0x4b, mnemonic: "*ALR", len: 2, cycles: 2, mode: AddressingMode::Immediate },
            0x4c => OpsCode { code: 0x4c, mnemonic: "JMP", len: 3, cycles: 3, mode: AddressingMode::NoneAddressing },
            0x4d => OpsCode { code: 0x4d, mnemonic: "EOR", len: 3, cycles: 4, mode: AddressingMode::Absolute },
            0x4e => OpsCode { code: 0x4e, mnemonic: "LSR", len: 3, cycles: 6, mode: AddressingMode::Absolute },
            0x4f => OpsCode { code: 0x4f, mnemonic: "*SRE", len: 3, cycles: 6, mode: AddressingMode::Absolute },
            0x50 => OpsCode { code: 0x50, mnemonic: "BVC", len: 2, cycles: 2, mode: AddressingMode::NoneAddressing },
            0x51 => OpsCode { code: 0x51, mnemonic: "EOR", len: 2, cycles: 5, mode: AddressingMode::Indirect_Y_PageCross },
            0x52 => OpsCode { code: 0x52, mnemonic: "*NOP", len: 1, cycles: 2, mode: AddressingMode::NoneAddressing },
            0x53 => OpsCode { code: 0x53, mnemonic: "*SRE", len: 2, cycles: 8, mode: AddressingMode::Indirect_Y },
            0x54 => OpsCode { code: 0x54, mnemonic: "*NOP", len: 2, cycles: 4, mode: AddressingMode::ZeroPage_X },
            0x55 => OpsCode { code: 0x55, mnemonic: "EOR", len: 2, cycles: 4, mode: AddressingMode::ZeroPage_X },
            0x56 => OpsCode { code: 0x56, mnemonic: "LSR", len: 2, cycles: 6, mode: AddressingMode::ZeroPage_X },
            0x57 => OpsCode { code: 0x57, mnemonic: "*SRE", len: 2, cycles: 6, mode: AddressingMode::ZeroPage_X },
            0x58 => OpsCode { code: 0x58, mnemonic: "CLI", len: 1, cycles: 2, mode: AddressingMode::NoneAddressing },
            0x59 => OpsCode { code: 0x59, mnemonic: "EOR", len: 3, cycles: 4, mode: AddressingMode::Absolute_Y_PageCross },
            0x5a => OpsCode { code: 0x5a, mnemonic: "*NOP", len: 1, cycles: 2, mode: AddressingMode::NoneAddressing },
            0x5b => OpsCode { code: 0x5b, mnemonic: "*SRE", len: 3, cycles: 7, mode: AddressingMode::Absolute_Y },
            0x5c => OpsCode { code: 0x5c, mnemonic: "*NOP", len: 3, cycles: 4, mode: AddressingMode::Absolute_X_PageCross },
            0x5d => OpsCode { code: 0x5d, mnemonic: "EOR", len: 3, cycles: 4, mode: AddressingMode::Absolute_X_PageCross },
            0x5e => OpsCode { code: 0x5e, mnemonic: "LSR", len: 3, cycles: 7, mode: AddressingMode::Absolute_X },
            0x5f => OpsCode { code: 0x5f, mnemonic: "*SRE", len: 3, cycles: 7, mode: AddressingMode::Absolute_X },
            0x60 => OpsCode { code: 0x60, mnemonic: "RTS", len: 1, cycles: 6, mode: AddressingMode::NoneAddressing },
            0x61 => OpsCode { code: 0x61, mnemonic: "ADC", len: 2, cycles: 6, mode: AddressingMode::Indirect_X },
            0x62 => OpsCode { code: 0x62, mnemonic: "*NOP", len: 1, cycles: 2, mode: AddressingMode::NoneAddressing },
            0x63 => OpsCode { code: 0x63, mnemonic: "*RRA", len: 2, cycles: 8, mode: AddressingMode::Indirect_X },
            0x64 => OpsCode { code: 0x64, mnemonic: "*NOP", len: 2, cycles: 3, mode: AddressingMode::ZeroPage },
            0x65 => OpsCode { code: 0x65, mnemonic: "ADC", len: 2, cycles: 3, mode: AddressingMode::ZeroPage },
            0x66 => OpsCode { code: 0x66, mnemonic: "ROR", len: 2, cycles: 5, mode: AddressingMode::ZeroPage },
            0x67 => OpsCode { code: 0x67, mnemonic: "*RRA", len: 2, cycles: 5, mode: AddressingMode::ZeroPage },
            0x68 => OpsCode { code: 0x68, mnemonic: "PLA", len: 1, cycles: 4, mode: AddressingMode::NoneAddressing },
            0x69 => OpsCode { code: 0x69, mnemonic: "ADC", len: 2, cycles: 2, mode: AddressingMode::Immediate },
            0x6a => OpsCode { code: 0x6a, mnemonic: "ROR", len: 1, cycles: 2, mode: AddressingMode::Accumulator },
            0x6b => OpsCode { code: 0x6b, mnemonic: "*ARR", len: 2, cycles: 2, mode: AddressingMode::Immediate },
            0x6c => OpsCode { code: 0x6c, mnemonic: "JMP", len: 3, cycles: 5, mode: AddressingMode::NoneAddressing },
            0x6d => OpsCode { code: 0x6d, mnemonic: "ADC", len: 3, cycles: 4, mode: AddressingMode::Absolute },
            0x6e => OpsCode { code: 0x6e, mnemonic: "ROR", len: 3, cycles: 6, mode: AddressingMode::Absolute },
            0x6f => OpsCode { code: 0x6f, mnemonic: "*RRA", len: 3, cycles: 6, mode: AddressingMode::Absolute },
            0x70 => OpsCode { code: 0x70, mnemonic: "BVS", len: 2, cycles: 2, mode: AddressingMode::NoneAddressing },
            0x71 => OpsCode { code: 0x71, mnemonic: "ADC", len: 2, cycles: 5, mode: AddressingMode::Indirect_Y_PageCross },
            0x72 => OpsCode { code: 0x72, mnemonic: "*NOP", len: 1, cycles: 2, mode: AddressingMode::NoneAddressing },
            0x73 => OpsCode { code: 0x73, mnemonic: "*RRA", len: 2, cycles: 8, mode: AddressingMode::Indirect_Y },
            0x74 => OpsCode { code: 0x74, mnemonic: "*NOP", len: 2, cycles: 4, mode: AddressingMode::ZeroPage_X },
            0x75 => OpsCode { code: 0x75, mnemonic: "ADC", len: 2, cycles: 4, mode: AddressingMode::ZeroPage_X },
            0x76 => OpsCode { code: 0x76, mnemonic: "ROR", len: 2, cycles: 6, mode: AddressingMode::ZeroPage_X },
            0x77 => OpsCode { code: 0x77, mnemonic: "*RRA", len: 2, cycles: 6, mode: AddressingMode::ZeroPage_X },
            0x78 => OpsCode { code: 0x78, mnemonic: "SEI", len: 1, cycles: 2, mode: AddressingMode::NoneAddressing },
            0x79 => OpsCode { code: 0x79, mnemonic: "ADC", len: 3, cycles: 4, mode: AddressingMode::Absolute_Y_PageCross },
            0x7a => OpsCode { code: 0x7a, mnemonic: "*NOP", len: 1, cycles: 2, mode: AddressingMode::NoneAddressing },
            0x7b => OpsCode { code: 0x7b, mnemonic: "*RRA", len: 3, cycles: 7, mode: AddressingMode::Absolute_Y },
            0x7c => OpsCode { code: 0x7c, mnemonic: "*NOP", len: 3, cycles: 4, mode: AddressingMode::Absolute_X_PageCross },
            0x7d => OpsCode { code: 0x7d, mnemonic: "ADC", len: 3, cycles: 4, mode: AddressingMode::Absolute_X_PageCross },
            0x7e => OpsCode { code: 0x7e, mnemonic: "ROR", len: 3, cycles: 7, mode: AddressingMode::Absolute_X },
            0x7f => OpsCode { code: 0x7f, mnemonic: "*RRA", len: 3, cycles: 7, mode: AddressingMode::Absolute_X },
            0x80 => OpsCode { code: 0x80, mnemonic: "*NOP", len: 2, cycles: 2, mode: AddressingMode::Immediate },
            0x81 => OpsCode { code: 0x81, mnemonic: "STA", len: 2, cycles: 6, mode: AddressingMode::Indirect_X },
            0x82 => OpsCode { code: 0x82, mnemonic: "*NOP", len: 2, cycles: 2, mode: AddressingMode::Immediate },
            0x83 => OpsCode { code: 0x83, mnemonic: "*SAX", len: 2, cycles: 6, mode: AddressingMode::Indirect_X },
            0x84 => OpsCode { code: 0x84, mnemonic: "STY", len: 2, cycles: 3, mode: AddressingMode::ZeroPage },
            0x85 => OpsCode { code: 0x85, mnemonic: "STA", len: 2, cycles: 3, mode: AddressingMode::ZeroPage },
            0x86 => OpsCode { code: 0x86, mnemonic: "STX", len: 2, cycles: 3, mode: AddressingMode::ZeroPage },
            0x87 => OpsCode { code: 0x87, mnemonic: "*SAX", len: 2, cycles: 3, mode: AddressingMode::ZeroPage },
            0x88 => OpsCode { code: 0x88, mnemonic: "DEY", len: 1, cycles: 2, mode: AddressingMode::NoneAddressing },
            0x89 => OpsCode { code: 0x89, mnemonic: "*NOP", len: 2, cycles: 2, mode: AddressingMode::Immediate },
            0x8a => OpsCode { code: 0x8a, mnemonic: "TXA", len: 1, cycles: 2, mode: AddressingMode::NoneAddressing },
            0x8b => OpsCode { code: 0x8b, mnemonic: "*XAA", len: 2, cycles: 3, mode: AddressingMode::Immediate },
            0x8c => OpsCode { code: 0x8c, mnemonic: "STY", len: 3, cycles: 4, mode: AddressingMode::Absolute },
            0x8d => OpsCode { code: 0x8d, mnemonic: "STA", len: 3, cycles: 4, mode: AddressingMode::Absolute },
            0x8e => OpsCode { code: 0x8e, mnemonic: "STX", len: 3, cycles: 4, mode: AddressingMode::Absolute },
            0x8f => OpsCode { code: 0x8f, mnemonic: "*SAX", len: 3, cycles: 4, mode: AddressingMode::Absolute },
            0x90 => OpsCode { code: 0x90, mnemonic: "BCC", len: 2, cycles: 2, mode: AddressingMode::NoneAddressing },
            0x91 => OpsCode { code: 0x91, mnemonic: "STA", len: 2, cycles: 6, mode: AddressingMode::Indirect_Y },
            0x92 => OpsCode { code: 0x92, mnemonic: "*NOP", len: 1, cycles: 2, mode: AddressingMode::NoneAddressing },
            0x93 => OpsCode { code: 0x93, mnemonic: "*AHX", len: 2, cycles: 8, mode: AddressingMode::Indirect_Y },
            0x94 => OpsCode { code: 0x94, mnemonic: "STY", len: 2, cycles: 4, mode: AddressingMode::ZeroPage_X },
            0x95 => OpsCode { code: 0x95, mnemonic: "STA", len: 2, cycles: 4, mode: AddressingMode::ZeroPage_X },
            0x96 => OpsCode { code: 0x96, mnemonic: "STX", len: 2, cycles: 4, mode: AddressingMode::ZeroPage_Y },
            0x97 => OpsCode { code: 0x97, mnemonic: "*SAX", len: 2, cycles: 4, mode: AddressingMode::ZeroPage_Y },
            0x98 => OpsCode { code: 0x98, mnemonic: "TYA", len: 1, cycles: 2, mode: AddressingMode::NoneAddressing },
            0x99 => OpsCode { code: 0x99, mnemonic: "STA", len: 3, cycles: 5, mode: AddressingMode::Absolute_Y },
            0x9a => OpsCode { code: 0x9a, mnemonic: "TXS", len: 1, cycles: 2, mode: AddressingMode::NoneAddressing },
            0x9b => OpsCode { code: 0x9b, mnemonic: "*TAS", len: 3, cycles: 2, mode: AddressingMode::Absolute_Y },
            0x9c => OpsCode { code: 0x9c, mnemonic: "*SHY", len: 3, cycles: 4, mode: AddressingMode::Absolute_X },
            0x9d => OpsCode { code: 0x9d, mnemonic: "STA", len: 3, cycles: 5, mode: AddressingMode::Absolute_X },
            0x9e => OpsCode { code: 0x9e, mnemonic: "*SHX", len: 3, cycles: 4, mode: AddressingMode::Absolute_Y },
            0x9f => OpsCode { code: 0x9f, mnemonic: "*AHX", len: 3, cycles: 4, mode: AddressingMode::Absolute_Y },
            0xa0 => OpsCode { code: 0xa0, mnemonic: "LDY", len: 2, cycles: 2, mode: AddressingMode::Immediate },
            0xa1 => OpsCode { code: 0xa1, mnemonic: "LDA", len: 2, cycles: 6, mode: AddressingMode::Indirect_X },
            0xa2 => OpsCode { code: 0xa2, mnemonic: "LDX", len: 2, cycles: 2, mode: AddressingMode::Immediate },
            0xa3 => OpsCode { code: 0xa3, mnemonic: "*LAX", len: 2, cycles: 6, mode: AddressingMode::Indirect_X },
            0xa4 => OpsCode { code: 0xa4, mnemonic: "LDY", len: 2, cycles: 3, mode: AddressingMode::ZeroPage },
            0xa5 => OpsCode { code: 0xa5, mnemonic: "LDA", len: 2, cycles: 3, mode: AddressingMode::ZeroPage },
            0xa6 => OpsCode { code: 0xa6, mnemonic: "LDX", len: 2, cycles: 3, mode: AddressingMode::ZeroPage },
            0xa7 => OpsCode { code: 0xa7, mnemonic: "*LAX", len: 2, cycles: 3, mode: AddressingMode::ZeroPage },
            0xa8 => OpsCode { code: 0xa8, mnemonic: "TAY", len: 1, cycles: 2, mode: AddressingMode::NoneAddressing },
            0xa9 => OpsCode { code: 0xa9, mnemonic: "LDA", len: 2, cycles: 2, mode: AddressingMode::Immediate },
            0xaa => OpsCode { code: 0xaa, mnemonic: "TAX", len: 1, cycles: 2, mode: AddressingMode::NoneAddressing },
            0xab => OpsCode { code: 0xab, mnemonic: "*LXA", len: 2, cycles: 3, mode: AddressingMode::Immediate },
            0xac => OpsCode { code: 0xac, mnemonic: "LDY", len: 3, cycles: 4, mode: AddressingMode::Absolute },
            0xad => OpsCode { code: 0xad, mnemonic: "LDA", len: 3, cycles: 4, mode: AddressingMode::Absolute },
            0xae => OpsCode { code: 0xae, mnemonic: "LDX", len: 3, cycles: 4, mode: AddressingMode::Absolute },
            0xaf => OpsCode { code: 0xaf, mnemonic: "*LAX", len: 3, cycles: 4, mode: AddressingMode::Absolute },
            0xb0 => OpsCode { code: 0xb0, mnemonic: "BCS", len: 2, cycles: 2, mode: AddressingMode::NoneAddressing },
            0xb1 => OpsCode { code: 0xb1, mnemonic: "LDA", len: 2, cycles: 5, mode: AddressingMode::Indirect_Y_PageCross },
            0xb2 => OpsCode { code: 0xb2, mnemonic: "*NOP", len: 1, cycles: 2, mode: AddressingMode::NoneAddressing },
            0xb3 => OpsCode { code: 0xb3, mnemonic: "*LAX", len: 2, cycles: 5, mode: AddressingMode::Indirect_Y_PageCross },
            0xb4 => OpsCode { code: 0xb4, mnemonic: "LDY", len: 2, cycles: 4, mode: AddressingMode::ZeroPage_X },
            0xb5 => OpsCode { code: 0xb5, mnemonic: "LDA", len: 2, cycles: 4, mode: AddressingMode::ZeroPage_X },
            0xb6 => OpsCode { code: 0xb6, mnemonic: "LDX", len: 2, cycles: 4, mode: AddressingMode::ZeroPage_Y },
            0xb7 => OpsCode { code: 0xb7, mnemonic: "*LAX", len: 2, cycles: 4, mode: AddressingMode::ZeroPage_Y },
            0xb8 => OpsCode { code: 0xb8, mnemonic: "CLV", len: 1, cycles: 2, mode: AddressingMode::NoneAddressing },
            0xb9 => OpsCode { code: 0xb9, mnemonic: "LDA", len: 3, cycles: 4, mode: AddressingMode::Absolute_Y_PageCross },
            0xba => OpsCode { code: 0xba, mnemonic: "TSX", len: 1, cycles: 2, mode: AddressingMode::NoneAddressing },
            0xbb => OpsCode { code: 0xbb, mnemonic: "*LAS", len: 3, cycles: 2, mode: AddressingMode::Absolute_Y },
            0xbc => OpsCode { code: 0xbc, mnemonic: "LDY", len: 3, cycles: 4, mode: AddressingMode::Absolute_X_PageCross },
            0xbd => OpsCode { code: 0xbd, mnemonic: "LDA", len: 3, cycles: 4, mode: AddressingMode::Absolute_X_PageCross },
            0xbe => OpsCode { code: 0xbe, mnemonic: "LDX", len: 3, cycles: 4, mode: AddressingMode::Absolute_Y_PageCross },
            0xbf => OpsCode { code: 0xbf, mnemonic: "*LAX", len: 3, cycles: 4, mode: AddressingMode::Absolute_Y_PageCross },
            0xc0 => OpsCode { code: 0xc0, mnemonic: "CPY", len: 2, cycles: 2, mode: AddressingMode::Immediate },
            0xc1 => OpsCode { code: 0xc1, mnemonic: "CMP", len: 2, cycles: 6, mode: AddressingMode::Indirect_X },
            0xc2 => OpsCode { code: 0xc2, mnemonic: "*NOP", len: 2, cycles: 2, mode: AddressingMode::Immediate },
            0xc3 => OpsCode { code: 0xc3, mnemonic: "*DCP", len: 2, cycles: 8, mode: AddressingMode::Indirect_X },
            0xc4 => OpsCode { code: 0xc4, mnemonic: "CPY", len: 2, cycles: 3, mode: AddressingMode::ZeroPage },
            0xc5 => OpsCode { code: 0xc5, mnemonic: "CMP", len: 2, cycles: 3, mode: AddressingMode::ZeroPage },
            0xc6 => OpsCode { code: 0xc6, mnemonic: "DEC", len: 2, cycles: 5, mode: AddressingMode::ZeroPage },
            0xc7 => OpsCode { code: 0xc7, mnemonic: "*DCP", len: 2, cycles: 5, mode: AddressingMode::ZeroPage },
            0xc8 => OpsCode { code: 0xc8, mnemonic: "INY", len: 1, cycles: 2, mode: AddressingMode::NoneAddressing },
            0xc9 => OpsCode { code: 0xc9, mnemonic: "CMP", len: 2, cycles: 2, mode: AddressingMode::Immediate },
            0xca => OpsCode { code: 0xca, mnemonic: "DEX", len: 1, cycles: 2, mode: AddressingMode::NoneAddressing },
            0xcb => OpsCode { code: 0xcb, mnemonic: "*AXS", len: 2, cycles: 2, mode: AddressingMode::Immediate },
            0xcc => OpsCode { code: 0xcc, mnemonic: "CPY", len: 3, cycles: 4, mode: AddressingMode::Absolute },
            0xcd => OpsCode { code: 0xcd, mnemonic: "CMP", len: 3, cycles: 4, mode: AddressingMode::Absolute },
            0xce => OpsCode { code: 0xce, mnemonic: "DEC", len: 3, cycles: 6, mode: AddressingMode::Absolute },
            0xcf => OpsCode { code: 0xcf, mnemonic: "*DCP", len: 3, cycles: 6, mode: AddressingMode::Absolute },
            0xd0 => OpsCode { code: 0xd0, mnemonic: "BNE", len: 2, cycles: 2, mode: AddressingMode::NoneAddressing },
            0xd1 => OpsCode { code: 0xd1, mnemonic: "CMP", len: 2, cycles: 5, mode: AddressingMode::Indirect_Y_PageCross },
            0xd2 => OpsCode { code: 0xd2, mnemonic: "*NOP", len: 1, cycles: 2, mode: AddressingMode::NoneAddressing },
            0xd3 => OpsCode { code: 0xd3, mnemonic: "*DCP", len: 2, cycles: 8, mode: AddressingMode::Indirect_Y },
            0xd4 => OpsCode { code: 0xd4, mnemonic: "*NOP", len: 2, cycles: 4, mode: AddressingMode::ZeroPage_X },
            0xd5 => OpsCode { code: 0xd5, mnemonic: "CMP", len: 2, cycles: 4, mode: AddressingMode::ZeroPage_X },
            0xd6 => OpsCode { code: 0xd6, mnemonic: "DEC", len: 2, cycles: 6, mode: AddressingMode::ZeroPage_X },
            0xd7 => OpsCode { code: 0xd7, mnemonic: "*DCP", len: 2, cycles: 6, mode: AddressingMode::ZeroPage_X },
            0xd8 => OpsCode { code: 0xd8, mnemonic: "CLD", len: 1, cycles: 2, mode: AddressingMode::NoneAddressing },
            0xd9 => OpsCode { code: 0xd9, mnemonic: "CMP", len: 3, cycles: 4, mode: AddressingMode::Absolute_Y_PageCross },
            0xda => OpsCode { code: 0xda, mnemonic: "*NOP", len: 1, cycles: 2, mode: AddressingMode::NoneAddressing },
            0xdb => OpsCode { code: 0xdb, mnemonic: "*DCP", len: 3, cycles: 7, mode: AddressingMode::Absolute_Y },
            0xdc => OpsCode { code: 0xdc, mnemonic: "*NOP", len: 3, cycles: 4, mode: AddressingMode::Absolute_X_PageCross },
            0xdd => OpsCode { code: 0xdd, mnemonic: "CMP", len: 3, cycles: 4, mode: AddressingMode::Absolute_X_PageCross },
            0xde => OpsCode { code: 0xde, mnemonic: "DEC", len: 3, cycles: 7, mode: AddressingMode::Absolute_X },
            0xdf => OpsCode { code: 0xdf, mnemonic: "*DCP", len: 3, cycles: 7, mode: AddressingMode::Absolute_X },
            0xe0 => OpsCode { code: 0xe0, mnemonic: "CPX", len: 2, cycles: 2, mode: AddressingMode::Immediate },
            0xe1 => OpsCode { code: 0xe1, mnemonic: "SBC", len: 2, cycles: 6, mode: AddressingMode::Indirect_X },
            0xe2 => OpsCode { code: 0xe2, mnemonic: "*NOP", len: 2, cycles: 2, mode: AddressingMode::Immediate },
            0xe3 => OpsCode { code: 0xe3, mnemonic: "*ISB", len: 2, cycles: 8, mode: AddressingMode::Indirect_X },
            0xe4 => OpsCode { code: 0xe4, mnemonic: "CPX", len: 2, cycles: 3, mode: AddressingMode::ZeroPage },
            0xe5 => OpsCode { code: 0xe5, mnemonic: "SBC", len: 2, cycles: 3, mode: AddressingMode::ZeroPage },
            0xe6 => OpsCode { code: 0xe6, mnemonic: "INC", len: 2, cycles: 5, mode: AddressingMode::ZeroPage },
            0xe7 => OpsCode { code: 0xe7, mnemonic: "*ISB", len: 2, cycles: 5, mode: AddressingMode::ZeroPage },
            0xe8 => OpsCode { code: 0xe8, mnemonic: "INX", len: 1, cycles: 2, mode: AddressingMode::NoneAddressing },
            0xe9 => OpsCode { code: 0xe9, mnemonic: "SBC", len: 2, cycles: 2, mode: AddressingMode::Immediate },
            0xea => OpsCode { code: 0xea, mnemonic: "NOP", len: 1, cycles: 2, mode: AddressingMode::NoneAddressing },
            0xeb => OpsCode { code: 0xeb, mnemonic: "*SBC", len: 2, cycles: 2, mode: AddressingMode::Immediate },
            0xec => OpsCode { code: 0xec, mnemonic: "CPX", len: 3, cycles: 4, mode: AddressingMode::Absolute },
            0xed => OpsCode { code: 0xed, mnemonic: "SBC", len: 3, cycles: 4, mode: AddressingMode::Absolute },
            0xee => OpsCode { code: 0xee, mnemonic: "INC", len: 3, cycles: 6, mode: AddressingMode::Absolute },
            0xef => OpsCode { code: 0xef, mnemonic: "*ISB", len: 3, cycles: 6, mode: AddressingMode::Absolute },
            0xf0 => OpsCode { code: 0xf0, mnemonic: "BEQ", len: 2, cycles: 2, mode: AddressingMode::NoneAddressing },
            0xf1 => OpsCode { code: 0xf1, mnemonic: "SBC", len: 2, cycles: 5, mode: AddressingMode::Indirect_Y_PageCross },
            0xf2 => OpsCode { code: 0xf2, mnemonic: "*NOP", len: 1, cycles: 2, mode: AddressingMode::NoneAddressing },
            0xf3 => OpsCode { code: 0xf3, mnemonic: "*ISB", len: 2, cycles: 8, mode: AddressingMode::Indirect_Y },
            0xf4 => OpsCode { code: 0xf4, mnemonic: "*NOP", len: 2, cycles: 4, mode: AddressingMode::ZeroPage_X },
            0xf5 => OpsCode { code: 0xf5, mnemonic: "SBC", len: 2, cycles: 4, mode: AddressingMode::ZeroPage_X },
            0xf6 => OpsCode { code: 0xf6, mnemonic: "INC", len: 2, cycles: 6, mode: AddressingMode::ZeroPage_X },
            0xf7 => OpsCode { code: 0xf7, mnemonic: "*ISB", len: 2, cycles: 6, mode: AddressingMode::ZeroPage_X },
            0xf8 => OpsCode { code: 0xf8, mnemonic: "SED", len: 1, cycles: 2, mode: AddressingMode::NoneAddressing },
            0xf9 => OpsCode { code: 0xf9, mnemonic: "SBC", len: 3, cycles: 4, mode: AddressingMode::Absolute_Y_PageCross },
            0xfa => OpsCode { code: 0xfa, mnemonic: "*NOP", len: 1, cycles: 2, mode: AddressingMode::NoneAddressing },
            0xfb => OpsCode { code: 0xfb, mnemonic: "*ISB", len: 3, cycles: 7, mode: AddressingMode::Absolute_Y },
            0xfc => OpsCode { code: 0xfc, mnemonic: "*NOP", len: 3, cycles: 4, mode: AddressingMode::Absolute_X_PageCross },
            0xfd => OpsCode { code: 0xfd, mnemonic: "SBC", len: 3, cycles: 4, mode: AddressingMode::Absolute_X_PageCross },
            0xfe => OpsCode { code: 0xfe, mnemonic: "INC", len: 3, cycles: 7, mode: AddressingMode::Absolute_X },
            0xff => OpsCode { code: 0xff, mnemonic: "*ISB", len: 3, cycles: 7, mode: AddressingMode::Absolute_X },
        }
    }
}

} // verus!

//! The trace line: one line of text for the instruction that the processor
//! is about to execute, followed by the registers and the clocks.
//!
//! ```text
//! C000  4C F5 C5  JMP $C5F5                       A:00 X:00 Y:00 P:24 SP:FD PPU:  0, 21 CYC:7
//! ```

use vstd::prelude::*;
use vstd::string::StringExecFns;
use crate::bus::bus::CpuBus;
use crate::cpu::cpu::{CPU, branch_target};
use crate::cpu::mem::{low_byte, word_of};
use crate::cpu::opscode::{AddressingMode, OpsCode, opcode_record};
use crate::text::{
    aligned_right,
    decimal,
    hex2,
    hex4,
    padded,
    push_aligned_right,
    push_decimal,
    push_hex2,
    push_hex4,
    push_padded,
};

verus! {

/// What the line shows of the instruction: where it stands, its bytes, the
/// address and the value of its operand, and for JMP (indirect) its target.
pub struct Listing {
    pub begin: u16,
    pub code: u8,
    pub lo: u8,
    pub hi: u8,
    pub mem_addr: u16,
    pub stored_value: u8,
    pub jmp_addr: u16,
}

/// Addresses whose value the line may show: reading the others would
/// disturb the device behind them.
pub open spec fn is_readable(addr: u16) -> bool {
    !(0x2001 <= addr <= 0x2007 || addr == 0x4016 || addr == 0x4017)
}

impl Listing {
    /// The instruction's argument: its second and third byte.
    pub open spec fn address(self) -> u16 {
        word_of(self.lo, self.hi)
    }

    /// The instruction's bytes in hexadecimal, a space between them.
    pub open spec fn hex_dump(self) -> Seq<char> {
        let len = opcode_record(self.code).len;
        hex2(self.code, true) + if len >= 2 {
            " "@ + hex2(self.lo, true)
        } else {
            Seq::empty()
        } + if len == 3 {
            " "@ + hex2(self.hi, true)
        } else {
            Seq::empty()
        }
    }

    /// The operand of the listed instruction, with the registers `x` and
    /// `y` of the processor.
    pub open spec fn operand_text(self, x: u8, y: u8) -> Seq<char> {
        self.operand_in(
            Seq::empty(),
            opcode_record(self.code).mode,
            opcode_record(self.code).len,
            x,
            y,
        )
    }

    /// `line` followed by the operand in the notation of `mode`, for an
    /// instruction of `len` bytes.
    pub open spec fn operand_in(
        self,
        line: Seq<char>,
        mode: AddressingMode,
        len: u8,
        x: u8,
        y: u8,
    ) -> Seq<char> {
        let shown = hex2(self.stored_value, true);
        let lo = hex2(self.lo, true);
        let zp = hex2(low_byte(self.mem_addr), true);
        let at = hex4(self.mem_addr, true);
        let arg = hex4(self.address(), true);
        match mode {
            AddressingMode::Accumulator => line + "A"@,
            AddressingMode::Immediate => line + "#$"@ + lo,
            AddressingMode::ZeroPage => line + "$"@ + zp + " = "@ + shown,
            AddressingMode::ZeroPage_X => line + "$"@ + lo + ",X @ "@ + zp + " = "@ + shown,
            AddressingMode::ZeroPage_Y => line + "$"@ + lo + ",Y @ "@ + zp + " = "@ + shown,
            AddressingMode::Indirect_X => line + "($"@ + lo + ",X) @ "@ + hex2(
                self.lo.wrapping_add(x),
                true,
            ) + " = "@ + at + " = "@ + shown,
            AddressingMode::Indirect_Y | AddressingMode::Indirect_Y_PageCross => line + "($"@ + lo
                + "),Y = "@ + hex4(self.mem_addr.wrapping_sub(y as u16), true) + " @ "@ + at
                + " = "@ + shown,
            AddressingMode::Absolute => line + "$"@ + at + " = "@ + shown,
            AddressingMode::Absolute_X | AddressingMode::Absolute_X_PageCross => line + "$"@ + arg
                + ",X @ "@ + at + " = "@ + shown,
            AddressingMode::Absolute_Y | AddressingMode::Absolute_Y_PageCross => line + "$"@ + arg
                + ",Y @ "@ + at + " = "@ + shown,
            AddressingMode::NoneAddressing => if len == 2 {
                line + "$"@ + hex4(branch_target(self.begin.wrapping_add(1), self.lo), true)
            } else if len == 3 {
                if self.code == 0x6c {
                    line + "($"@ + arg + ") = "@ + hex4(self.jmp_addr, true)
                } else {
                    line + "$"@ + arg
                }
            } else {
                line
            },
        }
    }

    /// Address, bytes, mnemonic and operand; nothing behind the mnemonic of
    /// an instruction without operand.
    pub open spec fn assembly(self, x: u8, y: u8) -> Seq<char> {
        let operand = self.operand_text(x, y);
        hex4(self.begin, true) + "  "@ + padded(self.hex_dump(), 8) + " "@ + aligned_right(
            opcode_record(self.code).mnemonic@,
            4,
        ) + if operand.len() > 0 {
            " "@ + operand
        } else {
            Seq::empty()
        }
    }
}

impl<B: CpuBus> CPU<B> {
    /// What the trace line shows of the instruction at the program counter,
    /// and the processor after the reads that found it out: the
    /// instruction's bytes, the pointer of an indirect mode, the operand
    /// where it is readable, and the target of JMP (indirect).
    pub open spec fn listing_spec(self) -> (Self, Listing) {
        let begin = self.program_counter;
        let code = self.mem_read_spec(begin);
        let ops = opcode_record(code.1);
        let lo = if ops.len >= 2 {
            code.0.mem_read_spec(begin.wrapping_add(1))
        } else {
            (code.0, 0u8)
        };
        let hi = if ops.len == 3 {
            lo.0.mem_read_spec(begin.wrapping_add(2))
        } else {
            (lo.0, 0u8)
        };
        let address = word_of(lo.1, hi.1);
        let found = hi.0.resolved(ops.mode, address);
        let at = hi.0.after_resolve(ops.mode, address);
        let operand = if !ops.mode.has_address() {
            (hi.0, 0u16, 0u8)
        } else if is_readable(found.1) {
            (at.mem_read_spec(found.1).0, found.1, at.mem_read_spec(found.1).1)
        } else {
            (at, found.1, 0u8)
        };
        let target = if code.1 == 0x6c {
            operand.0.indirect_target_spec(address)
        } else {
            (operand.0, 0u16)
        };
        (
            target.0,
            Listing {
                begin,
                code: code.1,
                lo: lo.1,
                hi: hi.1,
                mem_addr: operand.1,
                stored_value: operand.2,
                jmp_addr: target.1,
            },
        )
    }

    /// The trace line of this state: the instruction padded to 47
    /// characters, the registers in hexadecimal, the picture unit's
    /// scanline and dot in three columns each, and the cycle count.
    pub open spec fn trace_spec(self) -> Seq<char> {
        let listed = self.listing_spec();
        let counters = listed.0.bus.counters();
        padded(listed.1.assembly(self.register_x, self.register_y), 47) + " A:"@ + hex2(
            self.register_a,
            true,
        ) + " X:"@ + hex2(self.register_x, true) + " Y:"@ + hex2(self.register_y, true) + " P:"@
            + hex2(self.flags.bits, true) + " SP:"@ + hex2(self.stack_pointer, true) + " PPU:"@
            + aligned_right(decimal(counters.ppu_scanline as nat), 3) + ","@ + aligned_right(
            decimal(counters.ppu_cycles as nat),
            3,
        ) + " CYC:"@ + decimal(counters.cpu_cycles as nat)
    }

    fn listing(&mut self) -> (listing: Listing)
        ensures
            (*final(self), listing) == old(self).listing_spec(),
    {
        let begin = self.program_counter;
        let code = self.mem_read(begin);
        let ops = OpsCode::lookup(code);
        let lo = if ops.len >= 2 {
            self.mem_read(begin.wrapping_add(1))
        } else {
            0
        };
        let hi = if ops.len == 3 {
            self.mem_read(begin.wrapping_add(2))
        } else {
            0
        };
        let address = (hi as u16) * 256 + (lo as u16);
        let mut mem_addr: u16 = 0;
        let mut stored_value: u8 = 0;
        match ops.mode {
            AddressingMode::Immediate
            | AddressingMode::NoneAddressing
            | AddressingMode::Accumulator => {},
            _ => {
                let (_, addr) = ops.mode.get_absolute_addr(self, address);
                mem_addr = addr;
                if !(0x2001 <= addr && addr <= 0x2007 || addr == 0x4016 || addr == 0x4017) {
                    stored_value = self.mem_read(addr);
                }
            },
        }
        let jmp_addr = if code == 0x6c {
            self.indirect_target(address)
        } else {
            0
        };
        Listing { begin, code, lo, hi, mem_addr, stored_value, jmp_addr }
    }
}

fn push_hex_dump(out: &mut String, listing: &Listing)
    ensures
        final(out)@ == old(out)@ + listing.hex_dump(),
{
    let ops = OpsCode::lookup(listing.code);
    push_hex2(out, listing.code, true);
    if ops.len >= 2 {
        out.append(" ");
        push_hex2(out, listing.lo, true);
    }
    if ops.len == 3 {
        out.append(" ");
        push_hex2(out, listing.hi, true);
    }
    assert(out@ =~= old(out)@ + listing.hex_dump());
}

/// Appends " = " and the operand's value.
fn push_value(out: &mut String, listing: &Listing)
    ensures
        final(out)@ == old(out)@ + " = "@ + hex2(listing.stored_value, true),
{
    out.append(" = ");
    push_hex2(out, listing.stored_value, true);
}

fn push_operand(
    out: &mut String,
    listing: &Listing,
    mode: AddressingMode,
    len: u8,
    x: u8,
    y: u8,
)
    ensures
        final(out)@ == listing.operand_in(old(out)@, mode, len, x, y),
{
    let address = (listing.hi as u16) * 256 + (listing.lo as u16);
    let zp = (listing.mem_addr % 256) as u8;
    match mode {
        AddressingMode::Accumulator => {
            out.append("A");
        },
        AddressingMode::Immediate => {
            out.append("#$");
            push_hex2(out, listing.lo, true);
        },
        AddressingMode::ZeroPage => {
            out.append("$");
            push_hex2(out, zp, true);
            push_value(out, listing);
        },
        AddressingMode::ZeroPage_X => {
            out.append("$");
            push_hex2(out, listing.lo, true);
            out.append(",X @ ");
            push_hex2(out, zp, true);
            push_value(out, listing);
        },
        AddressingMode::ZeroPage_Y => {
            out.append("$");
            push_hex2(out, listing.lo, true);
            out.append(",Y @ ");
            push_hex2(out, zp, true);
            push_value(out, listing);
        },
        AddressingMode::Indirect_X => {
            out.append("($");
            push_hex2(out, listing.lo, true);
            out.append(",X) @ ");
            push_hex2(out, listing.lo.wrapping_add(x), true);
            out.append(" = ");
            push_hex4(out, listing.mem_addr, true);
            push_value(out, listing);
        },
        AddressingMode::Indirect_Y | AddressingMode::Indirect_Y_PageCross => {
            out.append("($");
            push_hex2(out, listing.lo, true);
            out.append("),Y = ");
            push_hex4(out, listing.mem_addr.wrapping_sub(y as u16), true);
            out.append(" @ ");
            push_hex4(out, listing.mem_addr, true);
            push_value(out, listing);
        },
        AddressingMode::Absolute => {
            out.append("$");
            push_hex4(out, listing.mem_addr, true);
            push_value(out, listing);
        },
        AddressingMode::Absolute_X | AddressingMode::Absolute_X_PageCross => {
            out.append("$");
            push_hex4(out, address, true);
            out.append(",X @ ");
            push_hex4(out, listing.mem_addr, true);
            push_value(out, listing);
        },
        AddressingMode::Absolute_Y | AddressingMode::Absolute_Y_PageCross => {
            out.append("$");
            push_hex4(out, address, true);
            out.append(",Y @ ");
            push_hex4(out, listing.mem_addr, true);
            push_value(out, listing);
        },
        AddressingMode::NoneAddressing => {
            if len == 2 {
                let offset: u16 = if listing.lo < 0x80 {
                    listing.lo as u16
                } else {
                    0xff00 + listing.lo as u16
                };
                out.append("$");
                push_hex4(out, listing.begin.wrapping_add(2).wrapping_add(offset), true);
            } else if len == 3 {
                if listing.code == 0x6c {
                    out.append("($");
                    push_hex4(out, address, true);
                    out.append(") = ");
                    push_hex4(out, listing.jmp_addr, true);
                } else {
                    out.append("$");
                    push_hex4(out, address, true);
                }
            }
        },
    }
}

fn assembly(listing: &Listing, x: u8, y: u8) -> (text: String)
    ensures
        text@ == listing.assembly(x, y),
{
    let ops = OpsCode::lookup(listing.code);
    let mut dump = String::new();
    push_hex_dump(&mut dump, listing);
    let mut operand = String::new();
    push_operand(&mut operand, listing, ops.mode, ops.len, x, y);
    let mut text = String::new();
    push_hex4(&mut text, listing.begin, true);
    text.append("  ");
    push_padded(&mut text, dump.as_str(), 8);
    text.append(" ");
    push_aligned_right(&mut text, ops.mnemonic, 4);
    if !operand.as_str().is_empty() {
        text.append(" ");
        text.append(operand.as_str());
    }
    assert(text@ =~= listing.assembly(x, y));
    text
}

/// Formats the trace line for the instruction at the program counter. The
/// processor's registers stay as they are; the bus has seen the reads that
/// `listing_spec` describes.
pub fn trace<B: CpuBus>(cpu: &mut CPU<B>) -> (line: String)
    ensures
        line@ == old(cpu).trace_spec(),
        *final(cpu) == old(cpu).listing_spec().0,
{
    let listing = cpu.listing();
    let instruction = assembly(&listing, cpu.register_x, cpu.register_y);
    let bus_trace = cpu.bus.trace();
    let mut dots = String::new();
    push_decimal(&mut dots, bus_trace.ppu_cycles);
    let mut scanline = String::new();
    push_decimal(&mut scanline, bus_trace.ppu_scanline);
    let mut line = String::new();
    push_padded(&mut line, instruction.as_str(), 47);
    line.append(" A:");
    push_hex2(&mut line, cpu.register_a, true);
    line.append(" X:");
    push_hex2(&mut line, cpu.register_x, true);
    line.append(" Y:");
    push_hex2(&mut line, cpu.register_y, true);
    line.append(" P:");
    push_hex2(&mut line, cpu.flags.bits, true);
    line.append(" SP:");
    push_hex2(&mut line, cpu.stack_pointer, true);
    line.append(" PPU:");
    push_aligned_right(&mut line, scanline.as_str(), 3);
    line.append(",");
    push_aligned_right(&mut line, dots.as_str(), 3);
    line.append(" CYC:");
    push_decimal(&mut line, bus_trace.cpu_cycles);
    assert(line@ =~= old(cpu).trace_spec());
    line
}

} // verus!

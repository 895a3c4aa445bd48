//! A disassembler for programs in memory: one line for each instruction,
//! address, mnemonic and operand.
//!
//! ```text
//! 0000: LDX #$08
//! 0002: DEX
//! 0006: BNE $0002
//! ```

use vstd::prelude::*;
use vstd::slice::slice_subrange;
use vstd::string::StringExecFns;
use std::collections::HashMap;
use byteorder::{ByteOrder, LittleEndian};
use crate::cpu::cpu::branch_target;
use crate::cpu::mem::word_of;
use crate::cpu::opscode::{AddressingMode, OpsCode, opcode_record};
use crate::text::{hex2, hex4, hex_number, push_hex2, push_hex4, push_hex_number};

verus! {

/// The listing of a program.
pub struct Disasm {
    /// The lines, one for each instruction.
    pub program: Vec<String>,
    /// The bytes of each instruction.
    pub hex_dump: Vec<Vec<u8>>,
    /// For the address of each instruction, as far as it fits 16 bits, the
    /// index of its line.
    pub ops_index_map: HashMap<u16, usize>,
}

/// One instruction of a program: where it starts and its bytes.
pub struct Entry {
    pub begin: int,
    pub code: u8,
    pub lo: u8,
    pub hi: u8,
}

/// Whether a whole instruction lies at `begin`.
pub open spec fn instruction_fits(program: Seq<u8>, begin: int) -> bool {
    0 <= begin < program.len() && begin + opcode_record(program[begin]).len <= program.len()
}

pub open spec fn entry_at(program: Seq<u8>, begin: int) -> Entry {
    let len = opcode_record(program[begin]).len;
    Entry {
        begin,
        code: program[begin],
        lo: if len >= 2 {
            program[begin + 1]
        } else {
            0
        },
        hi: if len == 3 {
            program[begin + 2]
        } else {
            0
        },
    }
}

/// The instructions of `program` from `begin` on, each starting where the
/// one before ends. An instruction that the end of the program cuts off
/// ends the listing.
pub open spec fn entries(program: Seq<u8>, begin: int) -> Seq<Entry>
    decreases program.len() - begin,
{
    if instruction_fits(program, begin) {
        seq![entry_at(program, begin)] + entries(
            program,
            begin + opcode_record(program[begin]).len,
        )
    } else {
        Seq::empty()
    }
}

/// The index of each of the first `count` instructions under its address;
/// of two instructions whose addresses agree in their low 16 bits the later
/// one stays.
pub open spec fn index_map(entries: Seq<Entry>, count: nat) -> Map<u16, usize>
    decreases count,
{
    if count == 0 {
        Map::empty()
    } else {
        index_map(entries, (count - 1) as nat).insert(
            (entries[count - 1].begin % 0x10000) as u16,
            (count - 1) as usize,
        )
    }
}

/// An address in hexadecimal: four digits, more where it needs them.
pub open spec fn address_text(addr: int) -> Seq<char> {
    if addr < 0x10000 {
        hex4(addr as u16, false)
    } else {
        hex_number(addr as nat, false)
    }
}

impl Entry {
    pub open spec fn len(self) -> u8 {
        opcode_record(self.code).len
    }

    /// The instruction's bytes.
    pub open spec fn bytes(self) -> Seq<u8> {
        if self.len() == 1 {
            seq![self.code]
        } else if self.len() == 2 {
            seq![self.code, self.lo]
        } else {
            seq![self.code, self.lo, self.hi]
        }
    }

    /// `line` followed by a space and the operand in the notation of the
    /// addressing mode; an instruction without operand adds nothing. An
    /// instruction of three bytes shows its word without the index.
    pub open spec fn with_operand(self, line: Seq<char>) -> Seq<char> {
        let lo = hex2(self.lo, false);
        if self.len() == 2 {
            match opcode_record(self.code).mode {
                AddressingMode::Immediate => line + " #$"@ + lo,
                AddressingMode::ZeroPage => line + " $"@ + lo,
                AddressingMode::ZeroPage_X => line + " $"@ + lo + ",X"@,
                AddressingMode::ZeroPage_Y => line + " $"@ + lo + ",Y"@,
                AddressingMode::Indirect_X => line + " ($"@ + lo + ",X)"@,
                AddressingMode::Indirect_Y | AddressingMode::Indirect_Y_PageCross => line + " ($"@
                    + lo + "),Y"@,
                AddressingMode::NoneAddressing => line + " $"@ + hex4(
                    branch_target(((self.begin + 1) % 0x10000) as u16, self.lo),
                    false,
                ),
                _ => line,
            }
        } else if self.len() == 3 {
            line + " $"@ + hex4(word_of(self.lo, self.hi), false)
        } else {
            line
        }
    }

    /// The line of the instruction: address, mnemonic, operand.
    pub open spec fn text(self) -> Seq<char> {
        self.with_operand(
            Seq::empty() + address_text(self.begin) + ": "@ + opcode_record(self.code).mnemonic@,
        )
    }

    /// The line in the plain notation of `disasm`: every operand of one
    /// byte as an immediate, every operand of two bytes as a bare number.
    pub open spec fn plain_text(self) -> Seq<char> {
        let head = Seq::empty() + address_text(self.begin) + ": "@ + opcode_record(
            self.code,
        ).mnemonic@ + " "@;
        if self.len() == 2 {
            head + "#$"@ + hex2(self.lo, false)
        } else if self.len() == 3 {
            head + "#"@ + hex_number(word_of(self.lo, self.hi) as nat, false)
        } else {
            head
        }
    }
}

/// `byteorder::LittleEndian::read_u16`: the word that the first two bytes
/// of `buf` spell, the low byte first. It panics on a shorter buffer.
#[verifier::external_body]
fn read_u16_le(buf: &[u8]) -> (word: u16)
    requires
        buf@.len() >= 2,
    ensures
        word == word_of(buf@[0], buf@[1]),
{
    LittleEndian::read_u16(buf)
}

fn fits(program: &[u8], begin: usize) -> (whole: bool)
    ensures
        whole == instruction_fits(program@, begin as int),
{
    begin < program.len() && OpsCode::lookup(program[begin]).len as usize <= program.len() - begin
}

fn push_address(out: &mut String, addr: usize)
    ensures
        final(out)@ == old(out)@ + address_text(addr as int),
{
    if addr < 0x10000 {
        push_hex4(out, addr as u16, false);
    } else {
        push_hex_number(out, addr, false);
    }
}

/// Reads the instruction at `begin`.
fn read_entry(program: &[u8], begin: usize) -> (read: (u8, u8, u8))
    requires
        instruction_fits(program@, begin as int),
    ensures
        read.0 == entry_at(program@, begin as int).code,
        read.1 == entry_at(program@, begin as int).lo,
        read.2 == entry_at(program@, begin as int).hi,
{
    let code = program[begin];
    let ops = OpsCode::lookup(code);
    if ops.len == 3 {
        let word = read_u16_le(slice_subrange(program, begin + 1, program.len()));
        (code, (word % 256) as u8, (word / 256) as u8)
    } else if ops.len == 2 {
        (code, program[begin + 1], 0)
    } else {
        (code, 0, 0)
    }
}

fn line_of(begin: usize, code: u8, lo: u8, hi: u8) -> (line: String)
    ensures
        line@ == (Entry { begin: begin as int, code, lo, hi }).text(),
{
    let ops = OpsCode::lookup(code);
    let mut line = String::new();
    push_address(&mut line, begin);
    line.append(": ");
    line.append(ops.mnemonic);
    if ops.len == 2 {
        match ops.mode {
            AddressingMode::Immediate => {
                line.append(" #$");
                push_hex2(&mut line, lo, false);
            },
            AddressingMode::ZeroPage => {
                line.append(" $");
                push_hex2(&mut line, lo, false);
            },
            AddressingMode::ZeroPage_X => {
                line.append(" $");
                push_hex2(&mut line, lo, false);
                line.append(",X");
            },
            AddressingMode::ZeroPage_Y => {
                line.append(" $");
                push_hex2(&mut line, lo, false);
                line.append(",Y");
            },
            AddressingMode::Indirect_X => {
                line.append(" ($");
                push_hex2(&mut line, lo, false);
                line.append(",X)");
            },
            AddressingMode::Indirect_Y | AddressingMode::Indirect_Y_PageCross => {
                line.append(" ($");
                push_hex2(&mut line, lo, false);
                line.append("),Y");
            },
            AddressingMode::NoneAddressing => {
                let offset: u16 = if lo < 0x80 {
                    lo as u16
                } else {
                    0xff00 + lo as u16
                };
                let next = ((begin % 0x10000) as u16).wrapping_add(2);
                assert(next == (((begin + 1) % 0x10000) as u16).wrapping_add(1));
                line.append(" $");
                push_hex4(&mut line, next.wrapping_add(offset), false);
            },
            _ => {},
        }
    } else if ops.len == 3 {
        line.append(" $");
        push_hex4(&mut line, (hi as u16) * 256 + lo as u16, false);
    }
    line
}

fn plain_line_of(begin: usize, code: u8, lo: u8, hi: u8) -> (line: String)
    ensures
        line@ == (Entry { begin: begin as int, code, lo, hi }).plain_text(),
{
    let ops = OpsCode::lookup(code);
    let mut line = String::new();
    push_address(&mut line, begin);
    line.append(": ");
    line.append(ops.mnemonic);
    line.append(" ");
    if ops.len == 2 {
        line.append("#$");
        push_hex2(&mut line, lo, false);
    } else if ops.len == 3 {
        line.append("#");
        push_hex_number(&mut line, ((hi as u16) * 256 + lo as u16) as usize, false);
    }
    line
}

fn bytes_of(code: u8, lo: u8, hi: u8) -> (bytes: Vec<u8>)
    ensures
        bytes@ == (Entry { begin: 0, code, lo, hi }).bytes(),
{
    let ops = OpsCode::lookup(code);
    let mut bytes: Vec<u8> = Vec::new();
    bytes.push(code);
    if ops.len >= 2 {
        bytes.push(lo);
    }
    if ops.len == 3 {
        bytes.push(hi);
    }
    assert(bytes@ =~= (Entry { begin: 0, code, lo, hi }).bytes());
    bytes
}

impl Disasm {
    /// Whether `self` is the listing of the instructions `listed`.
    pub open spec fn lists(self, listed: Seq<Entry>) -> bool {
        &&& self.program@.len() == listed.len()
        &&& self.hex_dump@.len() == listed.len()
        &&& forall|i: int|
            0 <= i < listed.len() ==> (#[trigger] self.program@[i])@ == listed[i].text()
        &&& forall|i: int|
            0 <= i < listed.len() ==> (#[trigger] self.hex_dump@[i])@ == listed[i].bytes()
        &&& self.ops_index_map@ == index_map(listed, listed.len())
    }

    /// Lists the instructions of `program` from `start` on.
    pub fn new(program: &[u8], start: usize) -> (listing: Self)
        ensures
            listing.lists(entries(program@, start as int)),
    {
        let mut begin = start;
        let mut lines: Vec<String> = Vec::new();
        let mut mapping: HashMap<u16, usize> = HashMap::new();
        let mut hex_dump: Vec<Vec<u8>> = Vec::new();
        let ghost mut done: Seq<Entry> = Seq::empty();
        assert(index_map(done, 0) =~= Map::<u16, usize>::empty());
        let total = program.len();
        while fits(program, begin)
            invariant
                total == program@.len(),
                done + entries(program@, begin as int) == entries(program@, start as int),
                lines@.len() == done.len(),
                hex_dump@.len() == done.len(),
                forall|i: int| 0 <= i < done.len() ==> (#[trigger] lines@[i])@ == done[i].text(),
                forall|i: int|
                    0 <= i < done.len() ==> (#[trigger] hex_dump@[i])@ == done[i].bytes(),
                mapping@ == index_map(done, done.len()),
            decreases program@.len() - begin,
        {
            assert(instruction_fits(program@, begin as int));
            let (code, lo, hi) = read_entry(program, begin);
            let ops = OpsCode::lookup(code);
            let ghost entry = entry_at(program@, begin as int);
            let ghost before = done;
            lines.push(line_of(begin, code, lo, hi));
            hex_dump.push(bytes_of(code, lo, hi));
            mapping.insert((begin % 0x10000) as u16, lines.len() - 1);
            proof {
                done = done.push(entry);
                assert(entry.bytes() == (Entry { begin: 0, code, lo, hi }).bytes());
                assert(before + entries(program@, begin as int) =~= done + entries(
                    program@,
                    begin + ops.len,
                ));
                assert(index_map(done, done.len()) == index_map(before, before.len()).insert(
                    (entry.begin % 0x10000) as u16,
                    before.len() as usize,
                )) by {
                    index_map_ignores_later(before, done, before.len());
                }
            }
            begin = begin + ops.len as usize;
        }
        assert(done =~= entries(program@, start as int));
        Disasm { program: lines, ops_index_map: mapping, hex_dump }
    }

    /// Up to ten lines around the instruction at address `pos`, and the
    /// index of that instruction among them: five lines before it and four
    /// behind it, or the first or last ten lines of the listing where there
    /// are fewer on one side.
    pub fn slice(&self, pos: u16) -> (window: (&[String], usize))
        requires
            self.ops_index_map@.contains_key(pos),
            self.ops_index_map@[pos] < self.program@.len(),
        ensures
            ({
                let index = self.ops_index_map@[pos] as int;
                let size = if self.program@.len() < 10 {
                    self.program@.len() as int
                } else {
                    10
                };
                let end = if index + size / 2 < self.program@.len() {
                    index + size / 2
                } else {
                    self.program@.len() as int
                };
                let begin = if index > size / 2 {
                    end - size
                } else {
                    0
                };
                &&& window.0@ == self.program@.subrange(begin, begin + size)
                &&& window.1 == index - begin
            }),
    {
        let index = match self.ops_index_map.get(&pos) {
            Some(index) => *index,
            None => 0,
        };
        let len = self.program.len();
        let slice_size = if len < 10 {
            len
        } else {
            10
        };
        if index > slice_size / 2 {
            let end = if slice_size / 2 < len - index {
                index + slice_size / 2
            } else {
                len
            };
            let begin = end - slice_size;
            (slice_subrange(self.program.as_slice(), begin, end), index - begin)
        } else {
            (slice_subrange(self.program.as_slice(), 0, slice_size), index)
        }
    }
}

/// The index of the first `count` instructions does not depend on those
/// behind them.
proof fn index_map_ignores_later(short: Seq<Entry>, long: Seq<Entry>, count: nat)
    requires
        count <= short.len() <= long.len(),
        forall|i: int| 0 <= i < short.len() ==> short[i] == long[i],
    ensures
        index_map(short, count) == index_map(long, count),
    decreases count,
{
    if count > 0 {
        index_map_ignores_later(short, long, (count - 1) as nat);
    }
}

/// What `slice` asks for holds of every listing: an address in the index
/// leads to one of the lines, and the address of every instruction is in
/// the index.
pub proof fn index_leads_to_lines(entries: Seq<Entry>, count: nat, addr: u16)
    requires
        count <= entries.len(),
    ensures
        index_map(entries, count).contains_key(addr) ==> index_map(entries, count)[addr] < count,
        forall|i: int|
            0 <= i < count ==> index_map(entries, count).contains_key(
                ((#[trigger] entries[i]).begin % 0x10000) as u16,
            ),
    decreases count,
{
    if count > 0 {
        index_leads_to_lines(entries, (count - 1) as nat, addr);
        let before = index_map(entries, (count - 1) as nat);
        assert forall|i: int| 0 <= i < count implies index_map(entries, count).contains_key(
            ((#[trigger] entries[i]).begin % 0x10000) as u16,
        ) by {
            if i < count - 1 {
                assert(before.contains_key((entries[i].begin % 0x10000) as u16));
            }
        }
    }
}

/// Lists the instructions of `program` from `start` on in the plain
/// notation.
pub fn disasm(program: &[u8], start: usize) -> (lines: Vec<String>)
    ensures
        lines@.len() == entries(program@, start as int).len(),
        forall|i: int|
            0 <= i < lines@.len() ==> (#[trigger] lines@[i])@ == entries(
                program@,
                start as int,
            )[i].plain_text(),
{
    let mut begin = start;
    let mut result: Vec<String> = Vec::new();
    let ghost mut done: Seq<Entry> = Seq::empty();
    let total = program.len();
    while fits(program, begin)
        invariant
            total == program@.len(),
            done + entries(program@, begin as int) == entries(program@, start as int),
            result@.len() == done.len(),
            forall|i: int| 0 <= i < done.len() ==> (#[trigger] result@[i])@ == done[i].plain_text(),
        decreases program@.len() - begin,
    {
        assert(instruction_fits(program@, begin as int));
        let (code, lo, hi) = read_entry(program, begin);
        let ops = OpsCode::lookup(code);
        let ghost before = done;
        result.push(plain_line_of(begin, code, lo, hi));
        proof {
            done = done.push(entry_at(program@, begin as int));
            assert(before + entries(program@, begin as int) =~= done + entries(
                program@,
                begin + ops.len,
            ));
        }
        begin = begin + ops.len as usize;
    }
    assert(done =~= entries(program@, start as int));
    result
}

} // verus!

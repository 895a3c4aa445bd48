//! Byte-addressed memory as the processor sees it, and operand resolution
//! for each addressing mode.

use vstd::prelude::*;
use crate::bus::bus::CpuBus;
use crate::cpu::cpu::CPU;
pub use crate::cpu::opscode::AddressingMode;

verus! {

/// The low byte of a word.
pub open spec fn low_byte(word: u16) -> u8 {
    (word % 256) as u8
}

/// The high byte of a word.
pub open spec fn high_byte(word: u16) -> u8 {
    (word / 256) as u8
}

/// The word made of a low and a high byte.
pub open spec fn word_of(lo: u8, hi: u8) -> u16 {
    (hi as int * 256 + lo as int) as u16
}

/// Whether two addresses lie on different 256-byte pages.
pub open spec fn crosses_page(addr1: u16, addr2: u16) -> bool {
    addr1 / 256 != addr2 / 256
}

/// A 64 KiB address space. Reading may change the device behind an address,
/// so a read has a value and a state that follows it.
pub trait Mem: Sized {
    /// The state after `data` was written to `pos`.
    spec fn after_write(&self, pos: u16, data: u8) -> Self;

    /// The byte that a read of `pos` returns.
    spec fn value_at(&self, pos: u16) -> u8;

    /// The state after `pos` was read.
    spec fn after_read(&self, pos: u16) -> Self;

    fn write(&mut self, pos: u16, data: u8)
        ensures
            *final(self) == old(self).after_write(pos, data),
    ;

    fn read(&mut self, pos: u16) -> (value: u8)
        ensures
            value == old(self).value_at(pos),
            *final(self) == old(self).after_read(pos),
    ;

    /// Writes a word, low byte first. The second address wraps at 0xFFFF.
    fn write_u16(&mut self, pos: u16, data: u16)
        ensures
            *final(self) == old(self).after_write(pos, low_byte(data)).after_write(
                pos.wrapping_add(1),
                high_byte(data),
            ),
    {
        let hi = (data / 256) as u8;
        let lo = (data % 256) as u8;
        self.write(pos, lo);
        self.write(pos.wrapping_add(1), hi);
    }

    /// Reads a word, low byte first. The second address wraps at 0xFFFF.
    fn read_u16(&mut self, pos: u16) -> (word: u16)
        ensures
            word == word_of(
                old(self).value_at(pos),
                old(self).after_read(pos).value_at(pos.wrapping_add(1)),
            ),
            *final(self) == old(self).after_read(pos).after_read(pos.wrapping_add(1)),
    {
        let lo = self.read(pos);
        let hi = self.read(pos.wrapping_add(1));
        (hi as u16) * 256 + (lo as u16)
    }
}

/// The word that two reads starting at `pos` return.
pub open spec fn word_at<M: Mem>(mem: M, pos: u16) -> u16 {
    word_of(mem.value_at(pos), mem.after_read(pos).value_at(pos.wrapping_add(1)))
}

fn page_cross_mode(mode: &AddressingMode) -> (extra: bool)
    ensures
        extra == mode.pays_page_cross(),
{
    match mode {
        AddressingMode::Absolute_X_PageCross
        | AddressingMode::Absolute_Y_PageCross
        | AddressingMode::Indirect_Y_PageCross => true,
        _ => false,
    }
}

fn page_cross(addr1: u16, addr2: u16) -> (crossed: bool)
    ensures
        crossed == crosses_page(addr1, addr2),
{
    addr1 / 256 != addr2 / 256
}

impl AddressingMode {
    /// Modes whose operand lies in memory at a computed address.
    pub open spec fn has_address(self) -> bool {
        !(self is Accumulator || self is Immediate || self is NoneAddressing)
    }

    /// Modes whose argument is a full word.
    pub open spec fn takes_word(self) -> bool {
        self is Absolute || self is Absolute_X || self is Absolute_Y || self is Absolute_X_PageCross
            || self is Absolute_Y_PageCross
    }

    /// Modes that cost a cycle more when indexing crosses a page.
    pub open spec fn pays_page_cross(self) -> bool {
        self is Absolute_X_PageCross || self is Absolute_Y_PageCross || self is Indirect_Y_PageCross
    }

    /// Resolves `base`, the instruction's argument, to the operand's address,
    /// and tells whether indexing crossed a page. The indirect modes read
    /// their pointer from the zero page, the high byte from `(ptr + 1) mod 256`.
    pub fn get_absolute_addr<B: CpuBus>(&self, cpu: &mut CPU<B>, base: u16) -> (found: (bool, u16))
        requires
            self.has_address(),
        ensures
            found == old(cpu).resolved(*self, base),
            *final(cpu) == old(cpu).after_resolve(*self, base),
    {
        match self {
            AddressingMode::ZeroPage => (false, base),
            AddressingMode::ZeroPage_X => {
                let pos = (base % 256) as u8;
                let addr = pos.wrapping_add(cpu.register_x);
                (addr < pos, addr as u16)
            },
            AddressingMode::ZeroPage_Y => {
                let pos = (base % 256) as u8;
                let addr = pos.wrapping_add(cpu.register_y);
                (addr < pos, addr as u16)
            },
            AddressingMode::Absolute => (false, base),
            AddressingMode::Absolute_X | AddressingMode::Absolute_X_PageCross => {
                let addr = base.wrapping_add(cpu.register_x as u16);
                (page_cross(base, addr), addr)
            },
            AddressingMode::Absolute_Y | AddressingMode::Absolute_Y_PageCross => {
                let addr = base.wrapping_add(cpu.register_y as u16);
                (page_cross(base, addr), addr)
            },
            AddressingMode::Indirect_X => {
                let ptr = ((base % 256) as u8).wrapping_add(cpu.register_x);
                let lo = cpu.mem_read(ptr as u16);
                let hi = cpu.mem_read(ptr.wrapping_add(1) as u16);
                (false, (hi as u16) * 256 + (lo as u16))
            },
            AddressingMode::Indirect_Y | AddressingMode::Indirect_Y_PageCross => {
                let lo = cpu.mem_read(base);
                let hi = cpu.mem_read(((base % 256) as u8).wrapping_add(1) as u16);
                let deref_base = (hi as u16) * 256 + (lo as u16);
                let deref = deref_base.wrapping_add(cpu.register_y as u16);
                (page_cross(deref_base, deref), deref)
            },
            _ => (false, base),
        }
    }

    /// Reads the operand. A page crossing costs one cycle in the modes that
    /// pay for it.
    pub fn read_u8<B: CpuBus>(&self, cpu: &mut CPU<B>) -> (data: u8)
        requires
            !(self is NoneAddressing),
        ensures
            data == old(cpu).operand(*self),
            *final(cpu) == old(cpu).after_operand(*self),
    {
        if let AddressingMode::Accumulator = self {
            return cpu.register_a;
        }
        if let AddressingMode::Immediate = self {
            return cpu.mem_read(cpu.program_counter);
        }
        let base = match self {
            AddressingMode::Absolute
            | AddressingMode::Absolute_X
            | AddressingMode::Absolute_Y
            | AddressingMode::Absolute_Y_PageCross
            | AddressingMode::Absolute_X_PageCross => cpu.mem_read_u16(cpu.program_counter),
            _ => cpu.mem_read(cpu.program_counter) as u16,
        };
        let (page_crossed, addr) = self.get_absolute_addr(cpu, base);
        if page_crossed && page_cross_mode(self) {
            cpu.bus.tick(1);
        }
        cpu.mem_read(addr)
    }

    /// Writes the operand. Writes never pay for a page crossing.
    pub fn write_u8<B: CpuBus>(&self, cpu: &mut CPU<B>, data: u8)
        requires
            !(self is NoneAddressing),
            !(self is Immediate),
        ensures
            *final(cpu) == old(cpu).after_store(*self, data),
    {
        if let AddressingMode::Accumulator = self {
            cpu.set_register_a(data);
            return ;
        }
        let argument = match self {
            AddressingMode::Absolute
            | AddressingMode::Absolute_X
            | AddressingMode::Absolute_Y
            | AddressingMode::Absolute_Y_PageCross
            | AddressingMode::Absolute_X_PageCross => cpu.mem_read_u16(cpu.program_counter),
            _ => cpu.mem_read(cpu.program_counter) as u16,
        };
        let (_page_cross, addr) = self.get_absolute_addr(cpu, argument);
        cpu.mem_write(addr, data);
    }
}

} // verus!

//! The processor: registers, stack, interrupts and the instruction step.
//!
//! The state of a processor is the value of [`CPU`] itself, bus included.
//! Each operation has a spec function of the same name with `_spec` added,
//! which gives the state afterwards (and the value produced, where there is
//! one) as a function of the state before.

use vstd::prelude::*;
use crate::bus::bus::CpuBus;
pub use crate::cpu::flags::CpuFlags;
use crate::cpu::mem::{Mem, crosses_page, high_byte, low_byte, word_at, word_of};
use crate::cpu::opscode::{AddressingMode, OpsCode, opcode_record};

verus! {

/// First address of the stack page.
pub const STACK: u16 = 0x0100;

/// The stack pointer after reset.
pub const STACK_RESET: u8 = 0xfd;

/// The three sources of an interrupt sequence.
#[derive(Clone, Copy, Debug, PartialEq, Eq, Structural)]
pub enum InterruptType {
    BRK,
    IRQ,
    NMI,
}

impl InterruptType {
    /// Where the handler's address is stored.
    pub open spec fn vector_addr(self) -> u16 {
        match self {
            InterruptType::NMI => 0xfffa,
            _ => 0xfffe,
        }
    }

    /// Cycles that the sequence costs by itself: two for an interrupt of
    /// the hardware. BRK is an instruction and pays the base cycles of its
    /// record instead.
    pub open spec fn cpu_cycles(self) -> u8 {
        match self {
            InterruptType::BRK => 0,
            _ => 2,
        }
    }
}

/// A 6502 wired to a bus.
pub struct CPU<B> {
    pub register_a: u8,
    pub register_x: u8,
    pub register_y: u8,
    pub stack_pointer: u8,
    pub program_counter: u16,
    pub flags: CpuFlags,
    pub bus: B,
}

/// Where a taken branch lands: the signed `offset` is relative to the address
/// after the operand byte at `pc`.
pub open spec fn branch_target(pc: u16, offset: u8) -> u16 {
    pc.wrapping_add(1).wrapping_add(
        if offset < 0x80 {
            offset as u16
        } else {
            (0xff00 + offset) as u16
        },
    )
}

/// The opcodes that branch on a flag.
pub open spec fn is_branch(code: u8) -> bool {
    code == 0xd0 || code == 0x70 || code == 0x50 || code == 0x10 || code == 0x30 || code == 0xf0
        || code == 0xb0 || code == 0x90
}

/// JMP, JSR, RTS and RTI: they always load the program counter.
pub open spec fn is_jump(code: u8) -> bool {
    code == 0x4c || code == 0x6c || code == 0x20 || code == 0x60 || code == 0x40
}

impl<B: CpuBus> CPU<B> {
    // ---------------------------------------------------------------
    // The model: memory, flags and stack
    // ---------------------------------------------------------------
    pub open spec fn mem_read_spec(self, pos: u16) -> (Self, u8) {
        (CPU { bus: self.bus.after_read(pos), ..self }, self.bus.value_at(pos))
    }

    pub open spec fn mem_read_u16_spec(self, pos: u16) -> (Self, u16) {
        (
            CPU { bus: self.bus.after_read(pos).after_read(pos.wrapping_add(1)), ..self },
            word_at(self.bus, pos),
        )
    }

    pub open spec fn mem_write_spec(self, pos: u16, data: u8) -> Self {
        CPU { bus: self.bus.after_write(pos, data), ..self }
    }

    pub open spec fn tick_spec(self, cycles: u8) -> Self {
        CPU { bus: self.bus.after_tick(cycles), ..self }
    }

    pub open spec fn flag_spec(self, mask: u8, on: bool) -> Self {
        CPU { flags: self.flags.with(mask, on), ..self }
    }

    /// N follows bit 7 of `value`.
    pub open spec fn update_negative_flag_spec(self, value: u8) -> Self {
        self.flag_spec(CpuFlags::NEGATIV, value >= 0x80)
    }

    /// Z is set when `value` is zero, N follows its bit 7.
    pub open spec fn udpate_cpu_flags_spec(self, value: u8) -> Self {
        self.flag_spec(CpuFlags::ZERO, value == 0).update_negative_flag_spec(value)
    }

    pub open spec fn set_register_a_spec(self, data: u8) -> Self {
        CPU { register_a: data, ..self }.udpate_cpu_flags_spec(data)
    }

    pub open spec fn set_register_x_spec(self, data: u8) -> Self {
        CPU { register_x: data, ..self }.udpate_cpu_flags_spec(data)
    }

    pub open spec fn set_register_y_spec(self, data: u8) -> Self {
        CPU { register_y: data, ..self }.udpate_cpu_flags_spec(data)
    }

    /// A push stores at `0x0100 + S` and then decrements S, which wraps.
    pub open spec fn stack_push_spec(self, data: u8) -> Self {
        CPU {
            stack_pointer: self.stack_pointer.wrapping_sub(1),
            ..self.mem_write_spec((STACK + self.stack_pointer) as u16, data)
        }
    }

    /// A pop increments S, which wraps, and then reads at `0x0100 + S`.
    pub open spec fn stack_pop_spec(self) -> (Self, u8) {
        CPU { stack_pointer: self.stack_pointer.wrapping_add(1), ..self }.mem_read_spec(
            (STACK + self.stack_pointer.wrapping_add(1)) as u16,
        )
    }

    /// High byte first, so that the word lies in memory low byte first.
    pub open spec fn stack_push_u16_spec(self, data: u16) -> Self {
        self.stack_push_spec(high_byte(data)).stack_push_spec(low_byte(data))
    }

    pub open spec fn stack_pop_u16_spec(self) -> (Self, u16) {
        let lo = self.stack_pop_spec();
        let hi = lo.0.stack_pop_spec();
        (hi.0, word_of(lo.1, hi.1))
    }

    // ---------------------------------------------------------------
    // The model: operands
    // ---------------------------------------------------------------
    /// The operand's address for argument `base`, and whether indexing
    /// crossed a page.
    pub open spec fn resolved(self, mode: AddressingMode, base: u16) -> (bool, u16) {
        let zp = (base % 256) as u8;
        match mode {
            AddressingMode::ZeroPage_X => {
                let addr = zp.wrapping_add(self.register_x);
                (addr < zp, addr as u16)
            },
            AddressingMode::ZeroPage_Y => {
                let addr = zp.wrapping_add(self.register_y);
                (addr < zp, addr as u16)
            },
            AddressingMode::Absolute_X | AddressingMode::Absolute_X_PageCross => {
                let addr = base.wrapping_add(self.register_x as u16);
                (crosses_page(base, addr), addr)
            },
            AddressingMode::Absolute_Y | AddressingMode::Absolute_Y_PageCross => {
                let addr = base.wrapping_add(self.register_y as u16);
                (crosses_page(base, addr), addr)
            },
            AddressingMode::Indirect_X => {
                let ptr = zp.wrapping_add(self.register_x);
                let lo = self.mem_read_spec(ptr as u16);
                let hi = lo.0.mem_read_spec(ptr.wrapping_add(1) as u16);
                (false, word_of(lo.1, hi.1))
            },
            AddressingMode::Indirect_Y | AddressingMode::Indirect_Y_PageCross => {
                let lo = self.mem_read_spec(base);
                let hi = lo.0.mem_read_spec(zp.wrapping_add(1) as u16);
                let deref_base = word_of(lo.1, hi.1);
                let deref = deref_base.wrapping_add(self.register_y as u16);
                (crosses_page(deref_base, deref), deref)
            },
            _ => (false, base),
        }
    }

    /// The state after the address was resolved: the indirect modes have
    /// read their pointer.
    pub open spec fn after_resolve(self, mode: AddressingMode, base: u16) -> Self {
        let zp = (base % 256) as u8;
        match mode {
            AddressingMode::Indirect_X => {
                let ptr = zp.wrapping_add(self.register_x);
                self.mem_read_spec(ptr as u16).0.mem_read_spec(ptr.wrapping_add(1) as u16).0
            },
            AddressingMode::Indirect_Y | AddressingMode::Indirect_Y_PageCross => {
                self.mem_read_spec(base).0.mem_read_spec(zp.wrapping_add(1) as u16).0
            },
            _ => self,
        }
    }

    /// The instruction's argument, read at the program counter: a word in
    /// the absolute modes, a byte in the others.
    pub open spec fn argument(self, mode: AddressingMode) -> (Self, u16) {
        if mode.takes_word() {
            self.mem_read_u16_spec(self.program_counter)
        } else {
            let byte = self.mem_read_spec(self.program_counter);
            (byte.0, byte.1 as u16)
        }
    }

    /// The operand that an instruction in `mode` reads.
    pub open spec fn operand(self, mode: AddressingMode) -> u8 {
        match mode {
            AddressingMode::Accumulator => self.register_a,
            AddressingMode::Immediate => self.bus.value_at(self.program_counter),
            _ => {
                let arg = self.argument(mode);
                let found = arg.0.resolved(mode, arg.1);
                let at = arg.0.after_resolve(mode, arg.1);
                let paid = if found.0 && mode.pays_page_cross() {
                    at.tick_spec(1)
                } else {
                    at
                };
                paid.bus.value_at(found.1)
            },
        }
    }

    /// The state after an instruction in `mode` has read its operand.
    pub open spec fn after_operand(self, mode: AddressingMode) -> Self {
        match mode {
            AddressingMode::Accumulator => self,
            AddressingMode::Immediate => self.mem_read_spec(self.program_counter).0,
            _ => {
                let arg = self.argument(mode);
                let found = arg.0.resolved(mode, arg.1);
                let at = arg.0.after_resolve(mode, arg.1);
                let paid = if found.0 && mode.pays_page_cross() {
                    at.tick_spec(1)
                } else {
                    at
                };
                paid.mem_read_spec(found.1).0
            },
        }
    }

    /// The state after an instruction in `mode` has written `data` to its
    /// operand.
    pub open spec fn after_store(self, mode: AddressingMode, data: u8) -> Self {
        match mode {
            AddressingMode::Accumulator => self.set_register_a_spec(data),
            _ => {
                let arg = self.argument(mode);
                let found = arg.0.resolved(mode, arg.1);
                arg.0.after_resolve(mode, arg.1).mem_write_spec(found.1, data)
            },
        }
    }

    // ---------------------------------------------------------------
    // The model: arithmetic and control
    // ---------------------------------------------------------------
    /// ADC: A, the operand and the carry are added. C is the carry out of
    /// bit 7, V is set when operand and accumulator agree in sign and the
    /// result does not.
    pub open spec fn add_to_register_a_spec(self, data: u8) -> Self {
        let carry_in: int = if self.flags.has(CpuFlags::CARRY) {
            1
        } else {
            0
        };
        let sum = self.register_a + data + carry_in;
        let result = (sum % 256) as u8;
        self.flag_spec(CpuFlags::CARRY, sum > 0xff).flag_spec(
            CpuFlags::OVERFLOW,
            (data ^ result) & (result ^ self.register_a) & 0x80 != 0,
        ).set_register_a_spec(result)
    }

    /// SBC is ADC of the operand's complement.
    pub open spec fn sub_from_register_a_spec(self, data: u8) -> Self {
        self.add_to_register_a_spec((255 - data) as u8)
    }

    /// CMP, CPX, CPY: C is set when the register is not below the operand,
    /// Z and N follow the difference.
    pub open spec fn compare_spec(self, mode: AddressingMode, compare_with: u8) -> Self {
        let data = self.operand(mode);
        self.after_operand(mode).flag_spec(CpuFlags::CARRY, data <= compare_with)
            .udpate_cpu_flags_spec(compare_with.wrapping_sub(data))
    }

    /// A branch that is not taken changes nothing. A taken branch costs one
    /// cycle, and one more when the target lies on another page than the
    /// address after the operand.
    pub open spec fn branch_spec(self, condition: bool) -> Self {
        if condition {
            let offset = self.tick_spec(1).mem_read_spec(self.program_counter);
            let target = branch_target(self.program_counter, offset.1);
            let paid = if crosses_page(self.program_counter.wrapping_add(1), target) {
                offset.0.tick_spec(1)
            } else {
                offset.0
            };
            CPU { program_counter: target, ..paid }
        } else {
            self
        }
    }

    /// ROL: rotate left through the carry. In memory it updates C and N, on
    /// the accumulator also Z.
    pub open spec fn rol_spec(self, mode: AddressingMode) -> (Self, u8) {
        let data = self.operand(mode);
        let carry_in: int = if self.flags.has(CpuFlags::CARRY) {
            1
        } else {
            0
        };
        let result = ((data * 2) % 256 + carry_in) as u8;
        (
            self.after_operand(mode).flag_spec(CpuFlags::CARRY, data >= 0x80).after_store(
                mode,
                result,
            ).update_negative_flag_spec(result),
            result,
        )
    }

    /// ROR: rotate right through the carry. C takes bit 0; the flags of the
    /// result are left to the caller.
    pub open spec fn ror_spec(self, mode: AddressingMode) -> (Self, u8) {
        let data = self.operand(mode);
        let carry_in: int = if self.flags.has(CpuFlags::CARRY) {
            0x80
        } else {
            0
        };
        let result = (data / 2 + carry_in) as u8;
        (
            self.after_operand(mode).flag_spec(CpuFlags::CARRY, data % 2 == 1).after_store(
                mode,
                result,
            ),
            result,
        )
    }

    /// ASL: shift left, C takes bit 7.
    pub open spec fn asl_spec(self, mode: AddressingMode) -> (Self, u8) {
        let data = self.operand(mode);
        let result = ((data * 2) % 256) as u8;
        (
            self.after_operand(mode).flag_spec(CpuFlags::CARRY, data >= 0x80).after_store(
                mode,
                result,
            ).udpate_cpu_flags_spec(result),
            result,
        )
    }

    /// LSR: shift right, C takes bit 0.
    pub open spec fn lsr_spec(self, mode: AddressingMode) -> (Self, u8) {
        let data = self.operand(mode);
        let result = (data / 2) as u8;
        (
            self.after_operand(mode).flag_spec(CpuFlags::CARRY, data % 2 == 1).after_store(
                mode,
                result,
            ).udpate_cpu_flags_spec(result),
            result,
        )
    }

    /// INC and DEC: the operand plus `delta`, wrapping.
    pub open spec fn step_memory_spec(self, mode: AddressingMode, delta: u8) -> (Self, u8) {
        let result = self.operand(mode).wrapping_add(delta);
        (self.after_operand(mode).after_store(mode, result).udpate_cpu_flags_spec(result), result)
    }

    pub open spec fn lda_spec(self, mode: AddressingMode) -> (Self, u8) {
        (self.after_operand(mode).set_register_a_spec(self.operand(mode)), self.operand(mode))
    }

    pub open spec fn tax_spec(self) -> Self {
        self.set_register_x_spec(self.register_a)
    }

    /// The status byte as an interrupt pushes it: bit 5 set, bit 4 set only
    /// for BRK.
    pub open spec fn pushed_status(self, kind: InterruptType) -> u8 {
        self.flags.with(CpuFlags::BREAK, kind is BRK).with(CpuFlags::BREAK2, true).bits
    }

    /// The interrupt sequence: push the program counter and the status, set
    /// I, pay the two cycles of a hardware interrupt and load the program
    /// counter from the vector. BRK pays nothing here: its seven cycles are
    /// the base cycles of the instruction.
    pub open spec fn interrupt_spec(self, kind: InterruptType) -> Self {
        let saved = self.stack_push_u16_spec(self.program_counter).stack_push_spec(
            self.pushed_status(kind),
        ).flag_spec(CpuFlags::INTERRUPT_DISABLE, true);
        let paid = if kind is BRK {
            saved
        } else {
            saved.tick_spec(kind.cpu_cycles())
        };
        let vector = paid.mem_read_u16_spec(kind.vector_addr());
        CPU { program_counter: vector.1, ..vector.0 }
    }

    /// The status register as PLP and RTI load it: bit 4 clear, bit 5 set.
    pub open spec fn pulled_status(bits: u8) -> CpuFlags {
        CpuFlags { bits }.with(CpuFlags::BREAK, false).with(CpuFlags::BREAK2, true)
    }

    /// Whether the instruction `code`, about to run in this state, loads the
    /// program counter itself.
    pub open spec fn transfers_control(self, code: u8) -> bool {
        is_jump(code) || match code {
            0xd0 => !self.flags.has(CpuFlags::ZERO),
            0xf0 => self.flags.has(CpuFlags::ZERO),
            0x70 => self.flags.has(CpuFlags::OVERFLOW),
            0x50 => !self.flags.has(CpuFlags::OVERFLOW),
            0x10 => !self.flags.has(CpuFlags::NEGATIV),
            0x30 => self.flags.has(CpuFlags::NEGATIV),
            0xb0 => self.flags.has(CpuFlags::CARRY),
            0x90 => !self.flags.has(CpuFlags::CARRY),
            _ => false,
        }
    }

    /// The word behind `pointer` as JMP (indirect) reads it: the high byte
    /// comes from the pointer's own page, also when the pointer is the
    /// page's last byte.
    pub open spec fn indirect_target_spec(self, pointer: u16) -> (Self, u16) {
        if pointer % 256 == 0xff {
            let lo = self.mem_read_spec(pointer);
            let hi = lo.0.mem_read_spec((pointer - 0xff) as u16);
            (hi.0, word_of(lo.1, hi.1))
        } else {
            self.mem_read_u16_spec(pointer)
        }
    }

    pub open spec fn jump_indirect_spec(self) -> Self {
        let pointer = self.mem_read_u16_spec(self.program_counter);
        let target = pointer.0.indirect_target_spec(pointer.1);
        CPU { program_counter: target.1, ..target.0 }
    }

    /// What the instruction `code` does, the program counter standing on the
    /// byte after the opcode. BRK is not among them: `step_spec` handles it.
    pub open spec fn execute_spec(self, code: u8, mode: AddressingMode) -> Self {
        let a = self.register_a;
        let x = self.register_x;
        let y = self.register_y;
        match code {
            0xd8 => self.flag_spec(CpuFlags::DECIMAL_MODE, false),
            0x58 => self.flag_spec(CpuFlags::INTERRUPT_DISABLE, false),
            0xb8 => self.flag_spec(CpuFlags::OVERFLOW, false),
            0x18 => self.flag_spec(CpuFlags::CARRY, false),
            0x38 => self.flag_spec(CpuFlags::CARRY, true),
            0x78 => self.flag_spec(CpuFlags::INTERRUPT_DISABLE, true),
            0xf8 => self.flag_spec(CpuFlags::DECIMAL_MODE, true),
            // PHA, PLA, PHP, PLP
            0x48 => self.stack_push_spec(a),
            0x68 => {
                let top = self.stack_pop_spec();
                top.0.set_register_a_spec(top.1)
            },
            0x08 => self.stack_push_spec(
                self.flags.with(CpuFlags::BREAK, true).with(CpuFlags::BREAK2, true).bits,
            ),
            0x28 => {
                let top = self.stack_pop_spec();
                CPU { flags: Self::pulled_status(top.1), ..top.0 }
            },
            // ADC, SBC
            0x69 | 0x65 | 0x75 | 0x6d | 0x7d | 0x79 | 0x61 | 0x71 => self.after_operand(
                mode,
            ).add_to_register_a_spec(self.operand(mode)),
            0xe9 | 0xe5 | 0xf5 | 0xed | 0xfd | 0xf9 | 0xe1 | 0xf1 | 0xeb => self.after_operand(
                mode,
            ).sub_from_register_a_spec(self.operand(mode)),
            // AND, EOR, ORA
            0x29 | 0x25 | 0x35 | 0x2d | 0x3d | 0x39 | 0x21 | 0x31 => self.after_operand(
                mode,
            ).set_register_a_spec(self.operand(mode) & a),
            0x49 | 0x45 | 0x55 | 0x4d | 0x5d | 0x59 | 0x41 | 0x51 => self.after_operand(
                mode,
            ).set_register_a_spec(self.operand(mode) ^ a),
            0x09 | 0x05 | 0x15 | 0x0d | 0x1d | 0x19 | 0x01 | 0x11 => self.after_operand(
                mode,
            ).set_register_a_spec(self.operand(mode) | a),
            // LSR, ASL, ROL, ROR
            0x4a | 0x46 | 0x56 | 0x4e | 0x5e => self.lsr_spec(mode).0,
            0x0a | 0x06 | 0x16 | 0x0e | 0x1e => self.asl_spec(mode).0,
            0x2a | 0x26 | 0x36 | 0x2e | 0x3e => self.rol_spec(mode).0,
            0x6a | 0x66 | 0x76 | 0x6e | 0x7e => {
                let turned = self.ror_spec(mode);
                turned.0.update_negative_flag_spec(turned.1)
            },
            // INC, INX, INY, DEC, DEX, DEY
            0xe6 | 0xf6 | 0xee | 0xfe => self.step_memory_spec(mode, 1).0,
            0xe8 => self.set_register_x_spec(x.wrapping_add(1)),
            0xc8 => self.set_register_y_spec(y.wrapping_add(1)),
            0xc6 | 0xd6 | 0xce | 0xde => self.step_memory_spec(mode, 0xff).0,
            0xca => self.set_register_x_spec(x.wrapping_sub(1)),
            0x88 => self.set_register_y_spec(y.wrapping_sub(1)),
            // CMP, CPY, CPX
            0xc9 | 0xc5 | 0xd5 | 0xcd | 0xdd | 0xd9 | 0xc1 | 0xd1 => self.compare_spec(mode, a),
            0xc0 | 0xc4 | 0xcc => self.compare_spec(mode, y),
            0xe0 | 0xe4 | 0xec => self.compare_spec(mode, x),
            // JMP, JSR, RTS, RTI
            0x4c => {
                let target = self.mem_read_u16_spec(self.program_counter);
                CPU { program_counter: target.1, ..target.0 }
            },
            0x6c => self.jump_indirect_spec(),
            0x20 => {
                let target = self.stack_push_u16_spec(
                    self.program_counter.wrapping_add(1),
                ).mem_read_u16_spec(self.program_counter);
                CPU { program_counter: target.1, ..target.0 }
            },
            0x60 => {
                let back = self.stack_pop_u16_spec();
                CPU { program_counter: back.1.wrapping_add(1), ..back.0 }
            },
            0x40 => {
                let status = self.stack_pop_spec();
                let back = status.0.stack_pop_u16_spec();
                CPU { flags: Self::pulled_status(status.1), program_counter: back.1, ..back.0 }
            },
            // the branches
            0xd0 | 0x70 | 0x50 | 0x10 | 0x30 | 0xf0 | 0xb0 | 0x90 => self.branch_spec(
                self.transfers_control(code),
            ),
            // BIT
            0x24 | 0x2c => {
                let data = self.operand(mode);
                self.after_operand(mode).flag_spec(CpuFlags::ZERO, a & data == 0).flag_spec(
                    CpuFlags::NEGATIV,
                    data & 0x80 > 0,
                ).flag_spec(CpuFlags::OVERFLOW, data & 0x40 > 0)
            },
            // STA, STX, STY
            0x85 | 0x95 | 0x8d | 0x9d | 0x99 | 0x81 | 0x91 => self.after_store(mode, a),
            0x86 | 0x96 | 0x8e => self.after_store(mode, x),
            0x84 | 0x94 | 0x8c => self.after_store(mode, y),
            // LDA, LDX, LDY
            0xa9 | 0xa5 | 0xb5 | 0xad | 0xbd | 0xb9 | 0xa1 | 0xb1 => self.lda_spec(mode).0,
            0xa2 | 0xa6 | 0xb6 | 0xae | 0xbe => self.after_operand(mode).set_register_x_spec(
                self.operand(mode),
            ),
            0xa0 | 0xa4 | 0xb4 | 0xac | 0xbc => self.after_operand(mode).set_register_y_spec(
                self.operand(mode),
            ),
            // TAX, TAY, TSX, TXA, TXS, TYA
            0xaa => self.tax_spec(),
            0xa8 => self.set_register_y_spec(a),
            0xba => self.set_register_x_spec(self.stack_pointer),
            0x8a => self.set_register_a_spec(x),
            0x9a => CPU { stack_pointer: x, ..self },
            0x98 => self.set_register_a_spec(y),
            // DCP: DEC, then CMP
            0xc7 | 0xd7 | 0xcf | 0xdf | 0xdb | 0xd3 | 0xc3 => {
                let data = self.operand(mode).wrapping_sub(1);
                self.after_operand(mode).after_store(mode, data).flag_spec(
                    CpuFlags::CARRY,
                    data <= a,
                ).udpate_cpu_flags_spec(a.wrapping_sub(data))
            },
            // RLA: ROL, then AND
            0x27 | 0x37 | 0x2f | 0x3f | 0x3b | 0x33 | 0x23 => {
                let turned = self.rol_spec(mode);
                turned.0.set_register_a_spec(turned.1 & turned.0.register_a)
            },
            // SLO: ASL, then ORA
            0x07 | 0x17 | 0x0f | 0x1f | 0x1b | 0x03 | 0x13 => {
                let shifted = self.asl_spec(mode);
                shifted.0.set_register_a_spec(shifted.1 | shifted.0.register_a)
            },
            // SRE: LSR, then EOR
            0x47 | 0x57 | 0x4f | 0x5f | 0x5b | 0x43 | 0x53 => {
                let shifted = self.lsr_spec(mode);
                shifted.0.set_register_a_spec(shifted.1 ^ shifted.0.register_a)
            },
            // AXS: X = (A & X) - operand, flags as CMP
            0xcb => {
                let data = self.operand(mode);
                let result = (x & a).wrapping_sub(data);
                CPU {
                    register_x: result,
                    ..self.after_operand(mode).flag_spec(
                        CpuFlags::CARRY,
                        data <= (x & a),
                    ).udpate_cpu_flags_spec(result)
                }
            },
            // ARR: AND, then ROR A; C is bit 6, V is bit 5 xor bit 6
            0x6b => {
                let turned = self.after_operand(mode).set_register_a_spec(
                    self.operand(mode) & a,
                ).ror_spec(AddressingMode::Accumulator).0;
                let result = turned.register_a;
                turned.flag_spec(CpuFlags::CARRY, (result / 64) % 2 == 1).flag_spec(
                    CpuFlags::OVERFLOW,
                    (result / 32) % 2 != (result / 64) % 2,
                ).udpate_cpu_flags_spec(result)
            },
            // ANC: AND, then C = N
            0x0b | 0x2b => {
                let masked = self.after_operand(mode).set_register_a_spec(self.operand(mode) & a);
                masked.flag_spec(CpuFlags::CARRY, masked.flags.has(CpuFlags::NEGATIV))
            },
            // ALR: AND, then LSR A
            0x4b => self.after_operand(mode).set_register_a_spec(self.operand(mode) & a).lsr_spec(
                AddressingMode::Accumulator,
            ).0,
            // NOPs that read their operand
            0x04 | 0x44 | 0x64 | 0x14 | 0x34 | 0x54 | 0x74 | 0xd4 | 0xf4 | 0x0c | 0x1c | 0x3c
            | 0x5c | 0x7c | 0xdc | 0xfc => self.after_operand(mode),
            // RRA: ROR, then ADC
            0x67 | 0x77 | 0x6f | 0x7f | 0x7b | 0x63 | 0x73 => {
                let turned = self.ror_spec(mode);
                turned.0.add_to_register_a_spec(turned.1)
            },
            // ISB: INC, then SBC
            0xe7 | 0xf7 | 0xef | 0xff | 0xfb | 0xe3 | 0xf3 => {
                let raised = self.step_memory_spec(mode, 1);
                raised.0.sub_from_register_a_spec(raised.1)
            },
            // LAX: LDA, then X = A without touching the flags again
            0xa7 | 0xb7 | 0xaf | 0xbf | 0xa3 | 0xb3 => CPU {
                register_x: self.operand(mode),
                ..self.after_operand(mode).set_register_a_spec(self.operand(mode))
            },
            // SAX
            0x87 | 0x97 | 0x8f | 0x83 => self.after_store(mode, a & x),
            // LXA: LDA, then TAX
            0xab => self.lda_spec(mode).0.tax_spec(),
            // XAA: A = X, then AND
            0x8b => {
                let moved = self.set_register_a_spec(x);
                moved.after_operand(mode).set_register_a_spec(moved.operand(mode) & x)
            },
            // LAS: A = X = S = operand & S
            0xbb => {
                let data = self.operand(mode) & self.stack_pointer;
                CPU {
                    register_a: data,
                    register_x: data,
                    stack_pointer: data,
                    ..self.after_operand(mode)
                }.udpate_cpu_flags_spec(data)
            },
            // TAS: S = A & X, store S & (high byte of the address + 1)
            0x9b => {
                let base = self.mem_read_u16_spec(self.program_counter);
                let high = high_byte(base.1.wrapping_add(y as u16)).wrapping_add(1);
                CPU { stack_pointer: a & x, ..base.0 }.after_store(mode, high & (a & x))
            },
            // AHX: store A & X & (high byte of the address)
            0x93 => {
                let pointer = self.mem_read_spec(self.program_counter);
                let base = pointer.0.mem_read_u16_spec(pointer.1 as u16);
                base.0.after_store(mode, a & x & high_byte(base.1.wrapping_add(y as u16)))
            },
            0x9f => {
                let base = self.mem_read_u16_spec(self.program_counter);
                base.0.after_store(mode, a & x & high_byte(base.1.wrapping_add(y as u16)))
            },
            // SHX, SHY: store the register & (high byte of the address + 1)
            0x9e => {
                let base = self.mem_read_u16_spec(self.program_counter);
                base.0.after_store(
                    mode,
                    x & high_byte(base.1.wrapping_add(y as u16)).wrapping_add(1),
                )
            },
            0x9c => {
                let base = self.mem_read_u16_spec(self.program_counter);
                base.0.after_store(
                    mode,
                    y & high_byte(base.1.wrapping_add(x as u16)).wrapping_add(1),
                )
            },
            // NOP and its unofficial forms
            _ => self,
        }
    }

    /// One round of the run loop: a latched NMI is served first; then the
    /// instruction at the program counter is fetched, executed and paid for.
    /// Unless the instruction loaded the program counter, it ends up behind
    /// the instruction's last byte.
    ///
    /// BRK whose vector at 0xFFFE holds a zero low byte ends a test program:
    /// the program counter is set to `program_end` and no cycle is paid.
    pub open spec fn step_spec(self, program_end: usize) -> Self {
        let polled = CPU { bus: self.bus.after_poll(), ..self };
        let entered = if self.bus.pending_nmi() is Some {
            polled.interrupt_spec(InterruptType::NMI)
        } else {
            polled
        };
        let opcode = entered.mem_read_spec(entered.program_counter);
        let ops = opcode_record(opcode.1);
        let fetched = CPU { program_counter: entered.program_counter.wrapping_add(1), ..opcode.0 };
        if opcode.1 == 0x00 {
            let vector = CPU {
                program_counter: fetched.program_counter.wrapping_add(1),
                ..fetched
            }.mem_read_spec(0xfffe);
            if vector.1 == 0 {
                CPU { program_counter: (program_end % 0x10000) as u16, ..vector.0 }
            } else {
                vector.0.interrupt_spec(InterruptType::BRK).tick_spec(ops.cycles)
            }
        } else {
            let done = fetched.execute_spec(opcode.1, ops.mode).tick_spec(ops.cycles);
            if fetched.transfers_control(opcode.1) {
                done
            } else {
                CPU {
                    program_counter: fetched.program_counter.wrapping_add((ops.len - 1) as u16),
                    ..done
                }
            }
        }
    }

    /// The state after running until the program counter reaches
    /// `program_end`, or until `budget` instructions were executed.
    pub open spec fn run_spec(self, program_end: usize, budget: nat) -> Self
        decreases budget,
    {
        if budget == 0 || self.program_counter >= program_end {
            self
        } else {
            self.step_spec(program_end).run_spec(program_end, (budget - 1) as nat)
        }
    }

    /// The state after the first `count` bytes of `program` were written to
    /// consecutive addresses from `start` on, wrapping at 0xFFFF.
    pub open spec fn load_spec(self, program: Seq<u8>, start: u16, count: nat) -> Self
        decreases count,
    {
        if count == 0 {
            self
        } else {
            self.load_spec(program, start, (count - 1) as nat).mem_write_spec(
                ((start + count - 1) % 0x10000) as u16,
                program[count - 1],
            )
        }
    }

    /// Reset: S = 0xFD, P = 0x24 (I and the unused bit), and the program
    /// counter from the vector at 0xFFFC.
    pub open spec fn reset_spec(self) -> Self {
        let vector = self.mem_read_u16_spec(0xfffc);
        CPU {
            stack_pointer: STACK_RESET,
            flags: CpuFlags { bits: 0b100100 },
            program_counter: vector.1,
            ..vector.0
        }
    }

    /// Where a program of `len` bytes loaded at `start` ends.
    pub open spec fn program_end(start: u16, len: nat) -> usize {
        if start + len <= usize::MAX {
            (start + len) as usize
        } else {
            usize::MAX
        }
    }

    // ---------------------------------------------------------------
    // The processor
    // ---------------------------------------------------------------
    /// A processor after reset, but for the program counter, which the
    /// caller loads: S = 0xFD, P = 0x24.
    pub fn new(bus: B) -> (cpu: Self)
        ensures
            cpu == (CPU {
                register_a: 0,
                register_x: 0,
                register_y: 0,
                stack_pointer: STACK_RESET,
                program_counter: 0,
                flags: CpuFlags { bits: 0b100100 },
                bus,
            }),
    {
        CPU {
            register_a: 0,
            register_x: 0,
            register_y: 0,
            stack_pointer: STACK_RESET,
            program_counter: 0,
            flags: CpuFlags::from_bits_truncate(0b100100),
            bus,
        }
    }

    /// Resets the processor; the accumulator and the index registers stay.
    pub fn reset(&mut self)
        ensures
            *final(self) == old(self).reset_spec(),
    {
        self.stack_pointer = STACK_RESET;
        self.flags = CpuFlags::from_bits_truncate(0b100100);
        self.program_counter = self.mem_read_u16(0xfffc);
    }

    pub fn mem_read(&mut self, pos: u16) -> (value: u8)
        ensures
            (*final(self), value) == old(self).mem_read_spec(pos),
    {
        self.bus.read(pos)
    }

    pub fn mem_read_u16(&mut self, pos: u16) -> (word: u16)
        ensures
            (*final(self), word) == old(self).mem_read_u16_spec(pos),
    {
        self.bus.read_u16(pos)
    }

    pub fn mem_write(&mut self, pos: u16, data: u8)
        ensures
            *final(self) == old(self).mem_write_spec(pos, data),
    {
        self.bus.write(pos, data);
    }

    pub fn udpate_cpu_flags(&mut self, last_operation: u8)
        ensures
            *final(self) == old(self).udpate_cpu_flags_spec(last_operation),
    {
        if last_operation == 0 {
            self.flags.insert(CpuFlags::ZERO);
        } else {
            self.flags.remove(CpuFlags::ZERO);
        }
        self.update_negative_flag(last_operation);
    }

    pub fn update_negative_flag(&mut self, last_operation: u8)
        ensures
            *final(self) == old(self).update_negative_flag_spec(last_operation),
    {
        if last_operation >= 0x80 {
            self.flags.insert(CpuFlags::NEGATIV)
        } else {
            self.flags.remove(CpuFlags::NEGATIV)
        }
    }

    pub fn set_carry_flag(&mut self)
        ensures
            *final(self) == old(self).flag_spec(CpuFlags::CARRY, true),
    {
        self.flags.insert(CpuFlags::CARRY)
    }

    pub fn clear_carry_flag(&mut self)
        ensures
            *final(self) == old(self).flag_spec(CpuFlags::CARRY, false),
    {
        self.flags.remove(CpuFlags::CARRY)
    }

    pub fn set_register_a(&mut self, data: u8)
        ensures
            *final(self) == old(self).set_register_a_spec(data),
    {
        self.register_a = data;
        self.udpate_cpu_flags(data);
    }

    pub fn set_register_x(&mut self, data: u8)
        ensures
            *final(self) == old(self).set_register_x_spec(data),
    {
        self.register_x = data;
        self.udpate_cpu_flags(data);
    }

    pub fn set_register_y(&mut self, data: u8)
        ensures
            *final(self) == old(self).set_register_y_spec(data),
    {
        self.register_y = data;
        self.udpate_cpu_flags(data);
    }

    /// ADC without decimal mode.
    pub fn add_to_register_a(&mut self, data: u8)
        ensures
            *final(self) == old(self).add_to_register_a_spec(data),
    {
        let carry_in: u16 = if self.flags.contains(CpuFlags::CARRY) {
            1
        } else {
            0
        };
        let sum: u16 = self.register_a as u16 + data as u16 + carry_in;
        let carry = sum > 0xff;
        self.flags.set(CpuFlags::CARRY, carry);
        let result = (sum % 256) as u8;
        let overflow = (data ^ result) & (result ^ self.register_a) & 0x80 != 0;
        self.flags.set(CpuFlags::OVERFLOW, overflow);
        self.set_register_a(result);
    }

    /// SBC without decimal mode.
    pub fn sub_from_register_a(&mut self, data: u8)
        ensures
            *final(self) == old(self).sub_from_register_a_spec(data),
    {
        self.add_to_register_a(255 - data);
    }

    pub fn and_with_register_a(&mut self, data: u8)
        ensures
            *final(self) == old(self).set_register_a_spec(data & old(self).register_a),
    {
        self.set_register_a(data & self.register_a);
    }

    pub fn xor_with_register_a(&mut self, data: u8)
        ensures
            *final(self) == old(self).set_register_a_spec(data ^ old(self).register_a),
    {
        self.set_register_a(data ^ self.register_a);
    }

    pub fn or_with_register_a(&mut self, data: u8)
        ensures
            *final(self) == old(self).set_register_a_spec(data | old(self).register_a),
    {
        self.set_register_a(data | self.register_a);
    }

    pub fn stack_pop(&mut self) -> (data: u8)
        ensures
            (*final(self), data) == old(self).stack_pop_spec(),
    {
        self.stack_pointer = self.stack_pointer.wrapping_add(1);
        self.mem_read(STACK + self.stack_pointer as u16)
    }

    pub fn stack_push(&mut self, data: u8)
        ensures
            *final(self) == old(self).stack_push_spec(data),
    {
        self.mem_write(STACK + self.stack_pointer as u16, data);
        self.stack_pointer = self.stack_pointer.wrapping_sub(1)
    }

    pub fn stack_push_u16(&mut self, data: u16)
        ensures
            *final(self) == old(self).stack_push_u16_spec(data),
    {
        let hi = (data / 256) as u8;
        let lo = (data % 256) as u8;
        self.stack_push(hi);
        self.stack_push(lo);
    }

    pub fn stack_pop_u16(&mut self) -> (data: u16)
        ensures
            (*final(self), data) == old(self).stack_pop_u16_spec(),
    {
        let lo = self.stack_pop() as u16;
        let hi = self.stack_pop() as u16;
        hi * 256 + lo
    }

    /// Runs the interrupt sequence of `kind`.
    pub fn interrupt(&mut self, kind: InterruptType)
        ensures
            *final(self) == old(self).interrupt_spec(kind),
    {
        self.stack_push_u16(self.program_counter);
        let mut flag = self.flags;
        flag.set(
            CpuFlags::BREAK,
            match kind {
                InterruptType::BRK => true,
                _ => false,
            },
        );
        flag.set(CpuFlags::BREAK2, true);
        self.stack_push(flag.bits);
        self.flags.insert(CpuFlags::INTERRUPT_DISABLE);
        match kind {
            InterruptType::BRK => {},
            _ => self.bus.tick(2),
        }
        let vector: u16 = match kind {
            InterruptType::NMI => 0xfffa,
            _ => 0xfffe,
        };
        self.program_counter = self.mem_read_u16(vector);
    }

    pub fn compare(&mut self, mode: &AddressingMode, compare_with: u8)
        requires
            !(mode is NoneAddressing),
        ensures
            *final(self) == old(self).compare_spec(*mode, compare_with),
    {
        let data = mode.read_u8(self);
        self.flags.set(CpuFlags::CARRY, data <= compare_with);
        self.udpate_cpu_flags(compare_with.wrapping_sub(data));
    }

    pub fn branch(&mut self, condition: bool)
        ensures
            *final(self) == old(self).branch_spec(condition),
    {
        if condition {
            self.bus.tick(1);
            let jump = self.mem_read(self.program_counter);
            let offset: u16 = if jump < 0x80 {
                jump as u16
            } else {
                0xff00 + jump as u16
            };
            let jump_addr = self.program_counter.wrapping_add(1).wrapping_add(offset);
            if self.program_counter.wrapping_add(1) / 256 != jump_addr / 256 {
                self.bus.tick(1);
            }
            self.program_counter = jump_addr;
        }
    }

    pub fn rol(&mut self, mode: &AddressingMode) -> (data: u8)
        requires
            !(mode is NoneAddressing),
            !(mode is Immediate),
        ensures
            (*final(self), data) == old(self).rol_spec(*mode),
    {
        let mut data = mode.read_u8(self);
        let old_carry = self.flags.contains(CpuFlags::CARRY);
        if data >= 0x80 {
            self.set_carry_flag();
        } else {
            self.clear_carry_flag();
        }
        data = ((data as u16 * 2) % 256) as u8;
        if old_carry {
            data = data + 1;
        }
        mode.write_u8(self, data);
        self.update_negative_flag(data);
        data
    }

    pub fn ror(&mut self, mode: &AddressingMode) -> (data: u8)
        requires
            !(mode is NoneAddressing),
            !(mode is Immediate),
        ensures
            (*final(self), data) == old(self).ror_spec(*mode),
    {
        let mut data = mode.read_u8(self);
        let old_carry = self.flags.contains(CpuFlags::CARRY);
        if data % 2 == 1 {
            self.set_carry_flag();
        } else {
            self.clear_carry_flag();
        }
        data = data / 2;
        if old_carry {
            data = data + 0x80;
        }
        mode.write_u8(self, data);
        data
    }

    pub fn asl(&mut self, mode: &AddressingMode) -> (data: u8)
        requires
            !(mode is NoneAddressing),
            !(mode is Immediate),
        ensures
            (*final(self), data) == old(self).asl_spec(*mode),
    {
        let mut data = mode.read_u8(self);
        if data >= 0x80 {
            self.set_carry_flag();
        } else {
            self.clear_carry_flag();
        }
        data = ((data as u16 * 2) % 256) as u8;
        mode.write_u8(self, data);
        self.udpate_cpu_flags(data);
        data
    }

    pub fn lsr(&mut self, mode: &AddressingMode) -> (data: u8)
        requires
            !(mode is NoneAddressing),
            !(mode is Immediate),
        ensures
            (*final(self), data) == old(self).lsr_spec(*mode),
    {
        let mut data = mode.read_u8(self);
        if data % 2 == 1 {
            self.set_carry_flag();
        } else {
            self.clear_carry_flag();
        }
        data = data / 2;
        mode.write_u8(self, data);
        self.udpate_cpu_flags(data);
        data
    }

    pub fn inc(&mut self, mode: &AddressingMode) -> (data: u8)
        requires
            !(mode is NoneAddressing),
            !(mode is Immediate),
        ensures
            (*final(self), data) == old(self).step_memory_spec(*mode, 1),
    {
        let mut data = mode.read_u8(self);
        data = data.wrapping_add(1);
        mode.write_u8(self, data);
        self.udpate_cpu_flags(data);
        data
    }

    pub fn lda(&mut self, mode: &AddressingMode) -> (data: u8)
        requires
            !(mode is NoneAddressing),
        ensures
            (*final(self), data) == old(self).lda_spec(*mode),
    {
        let data = mode.read_u8(self);
        self.set_register_a(data);
        data
    }

    /// Reads the target of JMP (indirect) behind `pointer`.
    pub fn indirect_target(&mut self, pointer: u16) -> (target: u16)
        ensures
            (*final(self), target) == old(self).indirect_target_spec(pointer),
    {
        if pointer % 256 == 0xff {
            let lo = self.mem_read(pointer);
            let hi = self.mem_read(pointer - 0xff);
            (hi as u16) * 256 + (lo as u16)
        } else {
            self.mem_read_u16(pointer)
        }
    }

    pub fn tax(&mut self)
        ensures
            *final(self) == old(self).tax_spec(),
    {
        self.register_x = self.register_a;
        self.udpate_cpu_flags(self.register_x);
    }

    /// Whether the instruction `code` is about to load the program counter.
    fn leaves_sequence(&self, code: u8) -> (jumped: bool)
        ensures
            jumped == self.transfers_control(code),
    {
        match code {
            0x4c | 0x6c | 0x20 | 0x60 | 0x40 => true,
            0xd0 => !self.flags.contains(CpuFlags::ZERO),
            0xf0 => self.flags.contains(CpuFlags::ZERO),
            0x70 => self.flags.contains(CpuFlags::OVERFLOW),
            0x50 => !self.flags.contains(CpuFlags::OVERFLOW),
            0x10 => !self.flags.contains(CpuFlags::NEGATIV),
            0x30 => self.flags.contains(CpuFlags::NEGATIV),
            0xb0 => self.flags.contains(CpuFlags::CARRY),
            0x90 => !self.flags.contains(CpuFlags::CARRY),
            _ => false,
        }
    }

    /// The opcodes that `execute_status` handles.
    pub open spec fn is_status(code: u8) -> bool {
        code == 0xd8 || code == 0x58 || code == 0xb8 || code == 0x18 || code == 0x38
        || code == 0x78 || code == 0xf8 || code == 0x48 || code == 0x68 || code == 0x08
        || code == 0x28 || code == 0xaa || code == 0xa8 || code == 0xba || code == 0x8a
        || code == 0x9a || code == 0x98 || code == 0xe8 || code == 0xc8 || code == 0xca
        || code == 0x88
    }

    /// The opcodes that `execute_arithmetic` handles.
    pub open spec fn is_arithmetic(code: u8) -> bool {
        code == 0x69 || code == 0x65 || code == 0x75 || code == 0x6d || code == 0x7d
        || code == 0x79 || code == 0x61 || code == 0x71 || code == 0xe9 || code == 0xe5
        || code == 0xf5 || code == 0xed || code == 0xfd || code == 0xf9 || code == 0xe1
        || code == 0xf1 || code == 0xeb || code == 0x29 || code == 0x25 || code == 0x35
        || code == 0x2d || code == 0x3d || code == 0x39 || code == 0x21 || code == 0x31
        || code == 0x49 || code == 0x45 || code == 0x55 || code == 0x4d || code == 0x5d
        || code == 0x59 || code == 0x41 || code == 0x51 || code == 0x09 || code == 0x05
        || code == 0x15 || code == 0x0d || code == 0x1d || code == 0x19 || code == 0x01
        || code == 0x11 || code == 0xc9 || code == 0xc5 || code == 0xd5 || code == 0xcd
        || code == 0xdd || code == 0xd9 || code == 0xc1 || code == 0xd1 || code == 0xc0
        || code == 0xc4 || code == 0xcc || code == 0xe0 || code == 0xe4 || code == 0xec
        || code == 0x24 || code == 0x2c
    }

    /// The opcodes that `execute_shift` handles.
    pub open spec fn is_shift(code: u8) -> bool {
        code == 0x4a || code == 0x46 || code == 0x56 || code == 0x4e || code == 0x5e
        || code == 0x0a || code == 0x06 || code == 0x16 || code == 0x0e || code == 0x1e
        || code == 0x2a || code == 0x26 || code == 0x36 || code == 0x2e || code == 0x3e
        || code == 0x6a || code == 0x66 || code == 0x76 || code == 0x6e || code == 0x7e
        || code == 0xe6 || code == 0xf6 || code == 0xee || code == 0xfe || code == 0xc6
        || code == 0xd6 || code == 0xce || code == 0xde
    }

    /// The opcodes that `execute_flow` handles.
    pub open spec fn is_flow(code: u8) -> bool {
        code == 0x4c || code == 0x6c || code == 0x20 || code == 0x60 || code == 0x40
        || code == 0xd0 || code == 0x70 || code == 0x50 || code == 0x10 || code == 0x30
        || code == 0xf0 || code == 0xb0 || code == 0x90
    }

    /// The opcodes that `execute_transfer` handles.
    pub open spec fn is_transfer(code: u8) -> bool {
        code == 0x85 || code == 0x95 || code == 0x8d || code == 0x9d || code == 0x99
        || code == 0x81 || code == 0x91 || code == 0x86 || code == 0x96 || code == 0x8e
        || code == 0x84 || code == 0x94 || code == 0x8c || code == 0xa9 || code == 0xa5
        || code == 0xb5 || code == 0xad || code == 0xbd || code == 0xb9 || code == 0xa1
        || code == 0xb1 || code == 0xa2 || code == 0xa6 || code == 0xb6 || code == 0xae
        || code == 0xbe || code == 0xa0 || code == 0xa4 || code == 0xb4 || code == 0xac
        || code == 0xbc || code == 0xa7 || code == 0xb7 || code == 0xaf || code == 0xbf
        || code == 0xa3 || code == 0xb3 || code == 0x87 || code == 0x97 || code == 0x8f
        || code == 0x83 || code == 0x04 || code == 0x44 || code == 0x64 || code == 0x14
        || code == 0x34 || code == 0x54 || code == 0x74 || code == 0xd4 || code == 0xf4
        || code == 0x0c || code == 0x1c || code == 0x3c || code == 0x5c || code == 0x7c
        || code == 0xdc || code == 0xfc
    }

    /// The opcodes that `execute_combined` handles.
    pub open spec fn is_combined(code: u8) -> bool {
        code == 0xc7 || code == 0xd7 || code == 0xcf || code == 0xdf || code == 0xdb
        || code == 0xd3 || code == 0xc3 || code == 0x27 || code == 0x37 || code == 0x2f
        || code == 0x3f || code == 0x3b || code == 0x33 || code == 0x23 || code == 0x07
        || code == 0x17 || code == 0x0f || code == 0x1f || code == 0x1b || code == 0x03
        || code == 0x13 || code == 0x47 || code == 0x57 || code == 0x4f || code == 0x5f
        || code == 0x5b || code == 0x43 || code == 0x53 || code == 0x67 || code == 0x77
        || code == 0x6f || code == 0x7f || code == 0x7b || code == 0x63 || code == 0x73
        || code == 0xe7 || code == 0xf7 || code == 0xef || code == 0xff || code == 0xfb
        || code == 0xe3 || code == 0xf3
    }

    /// The opcodes that `execute_immediate` handles.
    pub open spec fn is_immediate(code: u8) -> bool {
        code == 0xcb || code == 0x6b || code == 0x0b || code == 0x2b || code == 0x4b
        || code == 0xab || code == 0x8b || code == 0xbb
    }

    /// The opcodes that `execute_unstable` handles.
    pub open spec fn is_unstable(code: u8) -> bool {
        code == 0x9b || code == 0x93 || code == 0x9f || code == 0x9e || code == 0x9c
    }

    /// Flag instructions, stack instructions, register transfers and register
    /// increments.
    fn execute_status(&mut self, code: u8, mode: &AddressingMode)
        requires
            Self::is_status(code),
            *mode == opcode_record(code).mode,
        ensures
            *final(self) == old(self).execute_spec(code, *mode),
    {
        match code {
            /* CLD */ 0xd8 => self.flags.remove(CpuFlags::DECIMAL_MODE),
            /* CLI */ 0x58 => self.flags.remove(CpuFlags::INTERRUPT_DISABLE),
            /* CLV */ 0xb8 => self.flags.remove(CpuFlags::OVERFLOW),
            /* CLC */ 0x18 => self.clear_carry_flag(),
            /* SEC */ 0x38 => self.set_carry_flag(),
            /* SEI */ 0x78 => self.flags.insert(CpuFlags::INTERRUPT_DISABLE),
            /* SED */ 0xf8 => self.flags.insert(CpuFlags::DECIMAL_MODE),
            /* PHA */ 0x48 => {
                let a = self.register_a;
                self.stack_push(a)
            },
            /* PLA */ 0x68 => {
                let data = self.stack_pop();
                self.set_register_a(data);
            },
            /* PHP */ 0x08 => {
                let mut flags = self.flags;
                flags.insert(CpuFlags::BREAK);
                flags.insert(CpuFlags::BREAK2);
                self.stack_push(flags.bits());
            },
            /* PLP */ 0x28 => {
                self.flags.bits = self.stack_pop();
                self.flags.remove(CpuFlags::BREAK);
                self.flags.insert(CpuFlags::BREAK2);
            },
            /* TAX */ 0xaa => {
                self.tax();
            },
            /* TAY */ 0xa8 => {
                let a = self.register_a;
                self.set_register_y(a);
            },
            /* TSX */ 0xba => {
                let s = self.stack_pointer;
                self.set_register_x(s);
            },
            /* TXA */ 0x8a => {
                let x = self.register_x;
                self.set_register_a(x);
            },
            /* TXS */ 0x9a => {
                self.stack_pointer = self.register_x;
            },
            /* TYA */ 0x98 => {
                let y = self.register_y;
                self.set_register_a(y);
            },
            /* INX */ 0xe8 => {
                let x = self.register_x.wrapping_add(1);
                self.set_register_x(x);
            },
            /* INY */ 0xc8 => {
                let y = self.register_y.wrapping_add(1);
                self.set_register_y(y);
            },
            /* DEX */ 0xca => {
                let x = self.register_x.wrapping_sub(1);
                self.set_register_x(x);
            },
            /* DEY */ 0x88 => {
                let y = self.register_y.wrapping_sub(1);
                self.set_register_y(y);
            },
            _ => {},
        }
    }

    /// ADC, SBC, the logic instructions, the comparisons and BIT.
    fn execute_arithmetic(&mut self, code: u8, mode: &AddressingMode)
        requires
            Self::is_arithmetic(code),
            *mode == opcode_record(code).mode,
        ensures
            *final(self) == old(self).execute_spec(code, *mode),
    {
        match code {
            /* ADC */ 0x69 | 0x65 | 0x75 | 0x6d | 0x7d | 0x79 | 0x61 | 0x71 => {
                let data = mode.read_u8(self);
                self.add_to_register_a(data);
            },
            /* SBC */ 0xe9 | 0xe5 | 0xf5 | 0xed | 0xfd | 0xf9 | 0xe1 | 0xf1 | 0xeb => {
                let data = mode.read_u8(self);
                self.sub_from_register_a(data);
            },
            /* AND */ 0x29 | 0x25 | 0x35 | 0x2d | 0x3d | 0x39 | 0x21 | 0x31 => {
                let data = mode.read_u8(self);
                self.and_with_register_a(data);
            },
            /* EOR */ 0x49 | 0x45 | 0x55 | 0x4d | 0x5d | 0x59 | 0x41 | 0x51 => {
                let data = mode.read_u8(self);
                self.xor_with_register_a(data);
            },
            /* ORA */ 0x09 | 0x05 | 0x15 | 0x0d | 0x1d | 0x19 | 0x01 | 0x11 => {
                let data = mode.read_u8(self);
                self.or_with_register_a(data);
            },
            /* CMP */ 0xc9 | 0xc5 | 0xd5 | 0xcd | 0xdd | 0xd9 | 0xc1 | 0xd1 => {
                let a = self.register_a;
                self.compare(mode, a);
            },
            /* CPY */ 0xc0 | 0xc4 | 0xcc => {
                let y = self.register_y;
                self.compare(mode, y);
            },
            /* CPX */ 0xe0 | 0xe4 | 0xec => {
                let x = self.register_x;
                self.compare(mode, x)
            },
            /* BIT */ 0x24 | 0x2c => {
                let data = mode.read_u8(self);
                let and = self.register_a & data;
                self.flags.set(CpuFlags::ZERO, and == 0);
                self.flags.set(CpuFlags::NEGATIV, data & 0b10000000 > 0);
                self.flags.set(CpuFlags::OVERFLOW, data & 0b01000000 > 0);
            },
            _ => {},
        }
    }

    /// Shifts, rotates, INC and DEC.
    fn execute_shift(&mut self, code: u8, mode: &AddressingMode)
        requires
            Self::is_shift(code),
            *mode == opcode_record(code).mode,
        ensures
            *final(self) == old(self).execute_spec(code, *mode),
    {
        match code {
            /* LSR */ 0x4a | 0x46 | 0x56 | 0x4e | 0x5e => {
                self.lsr(mode);
            },
            /* ASL */ 0x0a | 0x06 | 0x16 | 0x0e | 0x1e => {
                self.asl(mode);
            },
            /* ROL */ 0x2a | 0x26 | 0x36 | 0x2e | 0x3e => {
                self.rol(mode);
            },
            /* ROR */ 0x6a | 0x66 | 0x76 | 0x6e | 0x7e => {
                let data = self.ror(mode);
                self.update_negative_flag(data)
            },
            /* INC */ 0xe6 | 0xf6 | 0xee | 0xfe => {
                self.inc(mode);
            },
            /* DEC */ 0xc6 | 0xd6 | 0xce | 0xde => {
                let mut data = mode.read_u8(self);
                data = data.wrapping_add(0xff);
                mode.write_u8(self, data);
                self.udpate_cpu_flags(data);
            },
            _ => {},
        }
    }

    /// Jumps, calls, returns and branches.
    fn execute_flow(&mut self, code: u8, mode: &AddressingMode)
        requires
            Self::is_flow(code),
            *mode == opcode_record(code).mode,
        ensures
            *final(self) == old(self).execute_spec(code, *mode),
    {
        match code {
            /* JMP absolute */ 0x4c => {
                let mem_address = self.mem_read_u16(self.program_counter);
                self.program_counter = mem_address;
            },
            /* JMP indirect */ 0x6c => {
                let mem_address = self.mem_read_u16(self.program_counter);
                let indirect_ref = self.indirect_target(mem_address);
                self.program_counter = indirect_ref;
            },
            /* JSR */ 0x20 => {
                self.stack_push_u16(self.program_counter.wrapping_add(1));
                let target_address = self.mem_read_u16(self.program_counter);
                self.program_counter = target_address
            },
            /* RTS */ 0x60 => {
                self.program_counter = self.stack_pop_u16().wrapping_add(1);
            },
            /* RTI */ 0x40 => {
                self.flags.bits = self.stack_pop();
                self.flags.remove(CpuFlags::BREAK);
                self.flags.insert(CpuFlags::BREAK2);
                self.program_counter = self.stack_pop_u16();
            },
            /* the branches */ 0xd0 | 0x70 | 0x50 | 0x10 | 0x30 | 0xf0 | 0xb0 | 0x90 => {
                let taken = self.leaves_sequence(code);
                self.branch(taken);
            },
            _ => {},
        }
    }

    /// Loads and stores, LAX and SAX among them, and the NOPs that read.
    fn execute_transfer(&mut self, code: u8, mode: &AddressingMode)
        requires
            Self::is_transfer(code),
            *mode == opcode_record(code).mode,
        ensures
            *final(self) == old(self).execute_spec(code, *mode),
    {
        match code {
            /* STA */ 0x85 | 0x95 | 0x8d | 0x9d | 0x99 | 0x81 | 0x91 => {
                let a = self.register_a;
                mode.write_u8(self, a);
            },
            /* STX */ 0x86 | 0x96 | 0x8e => {
                let x = self.register_x;
                mode.write_u8(self, x);
            },
            /* STY */ 0x84 | 0x94 | 0x8c => {
                let y = self.register_y;
                mode.write_u8(self, y);
            },
            /* LDA */ 0xa9 | 0xa5 | 0xb5 | 0xad | 0xbd | 0xb9 | 0xa1 | 0xb1 => {
                self.lda(mode);
            },
            /* LDX */ 0xa2 | 0xa6 | 0xb6 | 0xae | 0xbe => {
                let data = mode.read_u8(self);
                self.set_register_x(data);
            },
            /* LDY */ 0xa0 | 0xa4 | 0xb4 | 0xac | 0xbc => {
                let data = mode.read_u8(self);
                self.set_register_y(data);
            },
            /* LAX */ 0xa7 | 0xb7 | 0xaf | 0xbf | 0xa3 | 0xb3 => {
                let data = mode.read_u8(self);
                self.set_register_a(data);
                self.register_x = self.register_a;
            },
            /* SAX */ 0x87 | 0x97 | 0x8f | 0x83 => {
                let data = self.register_a & self.register_x;
                mode.write_u8(self, data);
            },
            /* NOP with a read */
            0x04 | 0x44 | 0x64 | 0x14 | 0x34 | 0x54 | 0x74 | 0xd4 | 0xf4 | 0x0c | 0x1c | 0x3c
            | 0x5c | 0x7c | 0xdc | 0xfc => {
                mode.read_u8(self);
            },
            _ => {},
        }
    }

    /// The unofficial read-modify-write instructions, each a shift or a step of
    /// the operand followed by an accumulator instruction.
    fn execute_combined(&mut self, code: u8, mode: &AddressingMode)
        requires
            Self::is_combined(code),
            *mode == opcode_record(code).mode,
        ensures
            *final(self) == old(self).execute_spec(code, *mode),
    {
        match code {
            /* DCP */ 0xc7 | 0xd7 | 0xcf | 0xdf | 0xdb | 0xd3 | 0xc3 => {
                let mut data = mode.read_u8(self);
                data = data.wrapping_sub(1);
                mode.write_u8(self, data);
                self.flags.set(CpuFlags::CARRY, data <= self.register_a);
                self.udpate_cpu_flags(self.register_a.wrapping_sub(data));
            },
            /* RLA */ 0x27 | 0x37 | 0x2f | 0x3f | 0x3b | 0x33 | 0x23 => {
                let data = self.rol(mode);
                self.and_with_register_a(data);
            },
            /* SLO */ 0x07 | 0x17 | 0x0f | 0x1f | 0x1b | 0x03 | 0x13 => {
                let data = self.asl(mode);
                self.or_with_register_a(data);
            },
            /* SRE */ 0x47 | 0x57 | 0x4f | 0x5f | 0x5b | 0x43 | 0x53 => {
                let data = self.lsr(mode);
                self.xor_with_register_a(data);
            },
            /* RRA */ 0x67 | 0x77 | 0x6f | 0x7f | 0x7b | 0x63 | 0x73 => {
                let data = self.ror(mode);
                self.add_to_register_a(data);
            },
            /* ISB */ 0xe7 | 0xf7 | 0xef | 0xff | 0xfb | 0xe3 | 0xf3 => {
                let data = self.inc(mode);
                self.sub_from_register_a(data);
            },
            _ => {},
        }
    }

    /// The unofficial instructions on an immediate operand, and LAS.
    fn execute_immediate(&mut self, code: u8, mode: &AddressingMode)
        requires
            Self::is_immediate(code),
            *mode == opcode_record(code).mode,
        ensures
            *final(self) == old(self).execute_spec(code, *mode),
    {
        match code {
            /* AXS */ 0xcb => {
                let data = mode.read_u8(self);
                let x_and_a = self.register_x & self.register_a;
                let result = x_and_a.wrapping_sub(data);
                self.flags.set(CpuFlags::CARRY, data <= x_and_a);
                self.udpate_cpu_flags(result);
                self.register_x = result;
            },
            /* ARR */ 0x6b => {
                let data = mode.read_u8(self);
                self.and_with_register_a(data);
                self.ror(&AddressingMode::Accumulator);
                let result = self.register_a;
                let bit_5 = (result / 32) % 2;
                let bit_6 = (result / 64) % 2;
                self.flags.set(CpuFlags::CARRY, bit_6 == 1);
                self.flags.set(CpuFlags::OVERFLOW, bit_5 != bit_6);
                self.udpate_cpu_flags(result);
            },
            /* ANC */ 0x0b | 0x2b => {
                let data = mode.read_u8(self);
                self.and_with_register_a(data);
                let negative = self.flags.contains(CpuFlags::NEGATIV);
                self.flags.set(CpuFlags::CARRY, negative);
            },
            /* ALR */ 0x4b => {
                let data = mode.read_u8(self);
                self.and_with_register_a(data);
                self.lsr(&AddressingMode::Accumulator);
            },
            /* LXA */ 0xab => {
                self.lda(mode);
                self.tax();
            },
            /* XAA */ 0x8b => {
                let x = self.register_x;
                self.set_register_a(x);
                let data = mode.read_u8(self);
                self.and_with_register_a(data);
            },
            /* LAS */ 0xbb => {
                let data = mode.read_u8(self) & self.stack_pointer;
                self.register_a = data;
                self.register_x = data;
                self.stack_pointer = data;
                self.udpate_cpu_flags(data);
            },
            _ => {},
        }
    }

    /// TAS, AHX, SHX and SHY, in their commonly documented form.
    fn execute_unstable(&mut self, code: u8, mode: &AddressingMode)
        requires
            Self::is_unstable(code),
            *mode == opcode_record(code).mode,
        ensures
            *final(self) == old(self).execute_spec(code, *mode),
    {
        match code {
            /* TAS */ 0x9b => {
                let data = self.register_a & self.register_x;
                self.stack_pointer = data;
                let mem_address = self.mem_read_u16(self.program_counter).wrapping_add(
                    self.register_y as u16,
                );
                let data = ((mem_address / 256) as u8).wrapping_add(1) & self.stack_pointer;
                mode.write_u8(self, data)
            },
            /* AHX (indirect),Y */ 0x93 => {
                let pos = self.mem_read(self.program_counter);
                let mem_address = self.mem_read_u16(pos as u16).wrapping_add(
                    self.register_y as u16,
                );
                let data = self.register_a & self.register_x & (mem_address / 256) as u8;
                mode.write_u8(self, data);
            },
            /* AHX absolute,Y */ 0x9f => {
                let mem_address = self.mem_read_u16(self.program_counter).wrapping_add(
                    self.register_y as u16,
                );
                let data = self.register_a & self.register_x & (mem_address / 256) as u8;
                mode.write_u8(self, data);
            },
            /* SHX */ 0x9e => {
                let mem_address = self.mem_read_u16(self.program_counter).wrapping_add(
                    self.register_y as u16,
                );
                let data = self.register_x & ((mem_address / 256) as u8).wrapping_add(1);
                mode.write_u8(self, data);
            },
            /* SHY */ 0x9c => {
                let mem_address = self.mem_read_u16(self.program_counter).wrapping_add(
                    self.register_x as u16,
                );
                let data = self.register_y & ((mem_address / 256) as u8).wrapping_add(1);
                mode.write_u8(self, data);
            },
            _ => {},
        }
    }

    /// Executes the instruction `code`, whose opcode byte was fetched: the
    /// program counter stands on the byte after it. `mode` is the mode that
    /// the instruction table gives for `code`.
    pub fn execute(&mut self, code: u8, mode: &AddressingMode)
        requires
            code != 0x00,
            *mode == opcode_record(code).mode,
        ensures
            *final(self) == old(self).execute_spec(code, *mode),
    {
        match code {
            0xd8 | 0x58 | 0xb8 | 0x18 | 0x38 | 0x78 | 0xf8 | 0x48 | 0x68 | 0x08 | 0x28 | 0xaa
            | 0xa8 | 0xba | 0x8a | 0x9a | 0x98 | 0xe8 | 0xc8 | 0xca | 0x88 => {
                self.execute_status(code, mode)
            },
            0x69 | 0x65 | 0x75 | 0x6d | 0x7d | 0x79 | 0x61 | 0x71 | 0xe9 | 0xe5 | 0xf5 | 0xed
            | 0xfd | 0xf9 | 0xe1 | 0xf1 | 0xeb | 0x29 | 0x25 | 0x35 | 0x2d | 0x3d | 0x39 | 0x21
            | 0x31 | 0x49 | 0x45 | 0x55 | 0x4d | 0x5d | 0x59 | 0x41 | 0x51 | 0x09 | 0x05 | 0x15
            | 0x0d | 0x1d | 0x19 | 0x01 | 0x11 | 0xc9 | 0xc5 | 0xd5 | 0xcd | 0xdd | 0xd9 | 0xc1
            | 0xd1 | 0xc0 | 0xc4 | 0xcc | 0xe0 | 0xe4 | 0xec | 0x24 | 0x2c => {
                self.execute_arithmetic(code, mode)
            },
            0x4a | 0x46 | 0x56 | 0x4e | 0x5e | 0x0a | 0x06 | 0x16 | 0x0e | 0x1e | 0x2a | 0x26
            | 0x36 | 0x2e | 0x3e | 0x6a | 0x66 | 0x76 | 0x6e | 0x7e | 0xe6 | 0xf6 | 0xee | 0xfe
            | 0xc6 | 0xd6 | 0xce | 0xde => {
                self.execute_shift(code, mode)
            },
            0x4c | 0x6c | 0x20 | 0x60 | 0x40 | 0xd0 | 0x70 | 0x50 | 0x10 | 0x30 | 0xf0 | 0xb0
            | 0x90 => {
                self.execute_flow(code, mode)
            },
            0x85 | 0x95 | 0x8d | 0x9d | 0x99 | 0x81 | 0x91 | 0x86 | 0x96 | 0x8e | 0x84 | 0x94
            | 0x8c | 0xa9 | 0xa5 | 0xb5 | 0xad | 0xbd | 0xb9 | 0xa1 | 0xb1 | 0xa2 | 0xa6 | 0xb6
            | 0xae | 0xbe | 0xa0 | 0xa4 | 0xb4 | 0xac | 0xbc | 0xa7 | 0xb7 | 0xaf | 0xbf | 0xa3
            | 0xb3 | 0x87 | 0x97 | 0x8f | 0x83 | 0x04 | 0x44 | 0x64 | 0x14 | 0x34 | 0x54 | 0x74
            | 0xd4 | 0xf4 | 0x0c | 0x1c | 0x3c | 0x5c | 0x7c | 0xdc | 0xfc => {
                self.execute_transfer(code, mode)
            },
            0xc7 | 0xd7 | 0xcf | 0xdf | 0xdb | 0xd3 | 0xc3 | 0x27 | 0x37 | 0x2f | 0x3f | 0x3b
            | 0x33 | 0x23 | 0x07 | 0x17 | 0x0f | 0x1f | 0x1b | 0x03 | 0x13 | 0x47 | 0x57 | 0x4f
            | 0x5f | 0x5b | 0x43 | 0x53 | 0x67 | 0x77 | 0x6f | 0x7f | 0x7b | 0x63 | 0x73 | 0xe7
            | 0xf7 | 0xef | 0xff | 0xfb | 0xe3 | 0xf3 => {
                self.execute_combined(code, mode)
            },
            0xcb | 0x6b | 0x0b | 0x2b | 0x4b | 0xab | 0x8b | 0xbb => {
                self.execute_immediate(code, mode)
            },
            0x9b | 0x93 | 0x9f | 0x9e | 0x9c => {
                self.execute_unstable(code, mode)
            },
            /* NOP and its unofficial forms */
            _ => {},
        }
    }

    /// Serves a latched NMI, then fetches and executes one instruction.
    pub fn execute_next_op(&mut self, program_end: usize)
        ensures
            *final(self) == old(self).step_spec(program_end),
    {
        if let Some(_nmi) = self.bus.poll_nmi_status() {
            self.interrupt(InterruptType::NMI);
        }
        let code = self.mem_read(self.program_counter);
        let ops = OpsCode::lookup(code);
        self.program_counter = self.program_counter.wrapping_add(1);
        if code == 0x00 {
            self.program_counter = self.program_counter.wrapping_add(1);
            if self.mem_read(0xfffe) == 0x00 {
                self.program_counter = (program_end % 0x10000) as u16;
                return ;
            }
            self.interrupt(InterruptType::BRK);
            self.bus.tick(ops.cycles);
            return ;
        }
        let jumped = self.leaves_sequence(code);
        let next = self.program_counter.wrapping_add((ops.len - 1) as u16);
        self.execute(code, &ops.mode);
        self.bus.tick(ops.cycles);
        if !jumped {
            self.program_counter = next;
        }
    }

    /// Runs until the program counter is at or behind `program_end`. The loop
    /// gives up after `u64::MAX` instructions.
    pub fn interpret_fn(&mut self, program_end: usize)
        ensures
            *final(self) == old(self).run_spec(program_end, u64::MAX as nat),
    {
        let ghost start = *self;
        let mut budget: u64 = u64::MAX;
        while (self.program_counter as usize) < program_end && budget > 0
            invariant
                self.run_spec(program_end, budget as nat) == start.run_spec(
                    program_end,
                    u64::MAX as nat,
                ),
            decreases budget,
        {
            self.execute_next_op(program_end);
            budget = budget - 1;
        }
    }

    /// Writes `program` to memory from `mem_start` on, points the program
    /// counter at it and runs it to its end.
    pub fn test_interpret_fn(&mut self, program: &[u8], mem_start: u16)
        ensures
            *final(self) == (CPU { program_counter: mem_start, ..*old(self) }).load_spec(
                program@,
                mem_start,
                program@.len(),
            ).run_spec(Self::program_end(mem_start, program@.len()), u64::MAX as nat),
    {
        self.program_counter = mem_start;
        let ghost start = *self;
        let mut pos = mem_start;
        let mut i: usize = 0;
        while i < program.len()
            invariant
                i <= program@.len(),
                pos == (mem_start + i) % 0x10000,
                *self == start.load_spec(program@, mem_start, i as nat),
            decreases program@.len() - i,
        {
            self.mem_write(pos, program[i]);
            pos = pos.wrapping_add(1);
            i = i + 1;
        }
        let end = if program.len() <= usize::MAX - mem_start as usize {
            mem_start as usize + program.len()
        } else {
            usize::MAX
        };
        self.interpret_fn(end);
    }

    /// Loads and runs a test program; see `test_interpret_fn`.
    pub fn interpret(&mut self, program: &[u8], mem_start: u16)
        ensures
            *final(self) == (CPU { program_counter: mem_start, ..*old(self) }).load_spec(
                program@,
                mem_start,
                program@.len(),
            ).run_spec(Self::program_end(mem_start, program@.len()), u64::MAX as nat),
    {
        self.test_interpret_fn(program, mem_start);
    }
}

} // verus!

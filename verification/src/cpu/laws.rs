//! What holds of the processor on every state.

use vstd::prelude::*;
use crate::bus::bus::CpuBus;
use crate::cpu::cpu::{CPU, CpuFlags, InterruptType, branch_target, is_branch};
use crate::cpu::mem::crosses_page;
use crate::cpu::opscode::{AddressingMode, opcode_record};

verus! {

/// A byte read as a signed number.
pub open spec fn signed(byte: u8) -> int {
    if byte >= 0x80 {
        byte - 0x100
    } else {
        byte as int
    }
}

/// The cycle counter `clock` after `cycles` more cycles; it wraps at the
/// machine word.
pub open spec fn advanced(clock: usize, cycles: int) -> usize {
    if clock + cycles > usize::MAX {
        (clock + cycles - usize::MAX - 1) as usize
    } else {
        (clock + cycles) as usize
    }
}

proof fn single_bits(bits: u8, mask: u8, other: u8)
    by (bit_vector)
    ensures
        (bits | mask) & mask == mask,
        mask != 0 ==> (bits & !mask) & mask != mask,
        mask & other == 0 ==> ((bits | mask) & other == other) == (bits & other == other),
        mask & other == 0 ==> ((bits & !mask) & other == other) == (bits & other == other),
{
}

proof fn distinct_flags()
    by (bit_vector)
    ensures
        0x01u8 & 0x02u8 == 0,
        0x01u8 & 0x40u8 == 0,
        0x01u8 & 0x80u8 == 0,
        0x02u8 & 0x01u8 == 0,
        0x02u8 & 0x40u8 == 0,
        0x02u8 & 0x80u8 == 0,
        0x40u8 & 0x01u8 == 0,
        0x40u8 & 0x02u8 == 0,
        0x40u8 & 0x80u8 == 0,
        0x80u8 & 0x01u8 == 0,
        0x80u8 & 0x02u8 == 0,
        0x80u8 & 0x40u8 == 0,
{
}

proof fn sign_bits(a: u8, d: u8, r: u8)
    by (bit_vector)
    ensures
        ((d ^ r) & (r ^ a) & 0x80 != 0) == ((d >= 0x80) != (r >= 0x80) && (r >= 0x80) != (a
            >= 0x80)),
{
}

/// Switching a flag sets what a test of it finds and leaves every flag
/// that shares no bit with it.
pub proof fn flag_switch_is_seen(flags: CpuFlags, mask: u8, other: u8, on: bool)
    requires
        mask != 0,
    ensures
        flags.with(mask, on).has(mask) == on,
        mask & other == 0 ==> flags.with(mask, on).has(other) == flags.has(other),
{
    single_bits(flags.bits, mask, other);
}

/// Z and N after an instruction that sets both: Z tells that the value is
/// zero, N that its bit 7 is set; C and V stay.
pub proof fn zero_and_negative_follow_value<B: CpuBus>(cpu: CPU<B>, value: u8)
    ensures
        cpu.udpate_cpu_flags_spec(value).flags.has(CpuFlags::ZERO) == (value == 0),
        cpu.udpate_cpu_flags_spec(value).flags.has(CpuFlags::NEGATIV) == (value >= 0x80),
        cpu.udpate_cpu_flags_spec(value).flags.has(CpuFlags::CARRY) == cpu.flags.has(
            CpuFlags::CARRY,
        ),
        cpu.udpate_cpu_flags_spec(value).flags.has(CpuFlags::OVERFLOW) == cpu.flags.has(
            CpuFlags::OVERFLOW,
        ),
{
    distinct_flags();
    let zero = cpu.flags.with(CpuFlags::ZERO, value == 0);
    let both = zero.with(CpuFlags::NEGATIV, value >= 0x80);
    assert(cpu.udpate_cpu_flags_spec(value).flags == both);
    flag_switch_is_seen(cpu.flags, CpuFlags::ZERO, CpuFlags::CARRY, value == 0);
    flag_switch_is_seen(cpu.flags, CpuFlags::ZERO, CpuFlags::OVERFLOW, value == 0);
    flag_switch_is_seen(zero, CpuFlags::NEGATIV, CpuFlags::ZERO, value >= 0x80);
    flag_switch_is_seen(zero, CpuFlags::NEGATIV, CpuFlags::CARRY, value >= 0x80);
    flag_switch_is_seen(zero, CpuFlags::NEGATIV, CpuFlags::OVERFLOW, value >= 0x80);
}

/// ADC: the accumulator receives the low eight bits of A + operand + C.
/// C is set exactly when that sum does not fit eight bits, V exactly when
/// the sum of the two read as signed numbers, plus C, does not fit a signed
/// byte.
pub proof fn adc_sets_carry_and_overflow<B: CpuBus>(cpu: CPU<B>, data: u8)
    ensures
        ({
            let carry_in: int = if cpu.flags.has(CpuFlags::CARRY) {
                1
            } else {
                0
            };
            let sum = cpu.register_a + data + carry_in;
            let signed_sum = signed(cpu.register_a) + signed(data) + carry_in;
            let after = cpu.add_to_register_a_spec(data);
            &&& after.register_a == sum % 256
            &&& after.flags.has(CpuFlags::CARRY) == (sum > 0xff)
            &&& after.flags.has(CpuFlags::OVERFLOW) == !(-128 <= signed_sum <= 127)
            &&& after.flags.has(CpuFlags::ZERO) == (sum % 256 == 0)
            &&& after.flags.has(CpuFlags::NEGATIV) == (sum % 256 >= 0x80)
        }),
{
    let carry_in: int = if cpu.flags.has(CpuFlags::CARRY) {
        1
    } else {
        0
    };
    let sum = cpu.register_a + data + carry_in;
    let result = (sum % 256) as u8;
    let overflow = (data ^ result) & (result ^ cpu.register_a) & 0x80 != 0;
    let carried = cpu.flags.with(CpuFlags::CARRY, sum > 0xff);
    let judged = carried.with(CpuFlags::OVERFLOW, overflow);
    let loaded = CPU { register_a: result, flags: judged, ..cpu };
    assert(cpu.add_to_register_a_spec(data) == loaded.udpate_cpu_flags_spec(result));
    distinct_flags();
    sign_bits(cpu.register_a, data, result);
    flag_switch_is_seen(cpu.flags, CpuFlags::CARRY, CpuFlags::OVERFLOW, sum > 0xff);
    flag_switch_is_seen(carried, CpuFlags::OVERFLOW, CpuFlags::CARRY, overflow);
    zero_and_negative_follow_value(loaded, result);
}

/// SBC: the accumulator receives the low eight bits of A - operand -
/// (1 - C). C is set exactly when no borrow was needed, V exactly when the
/// difference of the two read as signed numbers, less the borrow, does not
/// fit a signed byte.
pub proof fn sbc_sets_carry_and_overflow<B: CpuBus>(cpu: CPU<B>, data: u8)
    ensures
        ({
            let borrow: int = if cpu.flags.has(CpuFlags::CARRY) {
                0
            } else {
                1
            };
            let difference = cpu.register_a - data - borrow;
            let signed_difference = signed(cpu.register_a) - signed(data) - borrow;
            let after = cpu.sub_from_register_a_spec(data);
            &&& after.register_a == difference % 256
            &&& after.flags.has(CpuFlags::CARRY) == (difference >= 0)
            &&& after.flags.has(CpuFlags::OVERFLOW) == !(-128 <= signed_difference <= 127)
        }),
{
    adc_sets_carry_and_overflow(cpu, (255 - data) as u8);
}

/// The stack: a push followed by a pop returns the byte pushed and leaves
/// the stack pointer where it was. The pointer wraps: a push at 0x00 takes
/// it to 0xFF, a pop at 0xFF back to 0x00.
pub proof fn push_then_pop_restores<B: CpuBus>(cpu: CPU<B>, data: u8)
    ensures
        cpu.stack_push_spec(data).stack_pop_spec().1 == data,
        cpu.stack_push_spec(data).stack_pop_spec().0.stack_pointer == cpu.stack_pointer,
        cpu.stack_push_spec(data).stack_pointer == if cpu.stack_pointer == 0 {
            0xffu8
        } else {
            (cpu.stack_pointer - 1) as u8
        },
{
    cpu.bus.stack_page_holds((0x0100 + cpu.stack_pointer) as u16, data);
}

impl<B: CpuBus> CPU<B> {
    /// The cycle counter of the bus.
    pub open spec fn clock(self) -> usize {
        self.bus.counters().cpu_cycles
    }

    /// The opcode that the next step executes, if no NMI is latched.
    pub open spec fn next_opcode(self) -> u8 {
        self.bus.after_poll().value_at(self.program_counter)
    }

    /// The state in which that opcode has been fetched: the program counter
    /// stands on the byte after it.
    pub open spec fn fetched(self) -> Self {
        CPU {
            program_counter: self.program_counter.wrapping_add(1),
            bus: self.bus.after_poll().after_read(self.program_counter),
            ..self
        }
    }

    /// Whether indexing crosses a page when the instruction in `mode`
    /// resolves its operand.
    pub open spec fn crosses(self, mode: AddressingMode) -> bool {
        self.argument(mode).0.resolved(mode, self.argument(mode).1).0
    }

    /// The cycles that the instruction `code` costs on top of its base
    /// cycles, the opcode being fetched: one for a page crossing in the
    /// modes that pay for it; for a taken branch one, and one more when the
    /// target lies on another page.
    pub open spec fn extra_cycles(self, code: u8) -> int {
        let mode = opcode_record(code).mode;
        if is_branch(code) {
            if !self.transfers_control(code) {
                0
            } else if crosses_page(
                self.program_counter.wrapping_add(1),
                branch_target(
                    self.program_counter,
                    self.bus.after_tick(1).value_at(self.program_counter),
                ),
            ) {
                2
            } else {
                1
            }
        } else if mode.pays_page_cross() && self.crosses(mode) {
            1
        } else {
            0
        }
    }
}

/// Only ticks move the clock, whatever the bus.
pub proof fn clock_moves_on_ticks<B: CpuBus>()
    ensures
        forall|bus: B, pos: u16|
            (#[trigger] bus.after_read(pos)).counters().cpu_cycles == bus.counters().cpu_cycles,
        forall|bus: B, pos: u16, data: u8|
            (#[trigger] bus.after_write(pos, data)).counters().cpu_cycles
                == bus.counters().cpu_cycles,
        forall|bus: B, cycles: u8|
            (#[trigger] bus.after_tick(cycles)).counters().cpu_cycles == advanced(
                bus.counters().cpu_cycles,
                cycles as int,
            ),
        forall|bus: B|
            (#[trigger] bus.after_poll()).counters().cpu_cycles == bus.counters().cpu_cycles,
{
    assert forall|bus: B, pos: u16|
        (#[trigger] bus.after_read(pos)).counters().cpu_cycles == bus.counters().cpu_cycles by {
        bus.clock_moves_on_tick_only(pos, 0, 0);
    }
    assert forall|bus: B, pos: u16, data: u8|
        (#[trigger] bus.after_write(pos, data)).counters().cpu_cycles
            == bus.counters().cpu_cycles by {
        bus.clock_moves_on_tick_only(pos, data, 0);
    }
    assert forall|bus: B, cycles: u8|
        (#[trigger] bus.after_tick(cycles)).counters().cpu_cycles == advanced(
            bus.counters().cpu_cycles,
            cycles as int,
        ) by {
        bus.clock_moves_on_tick_only(0, 0, cycles);
    }
    assert forall|bus: B| (#[trigger] bus.after_poll()).counters().cpu_cycles
        == bus.counters().cpu_cycles by {
        bus.clock_moves_on_tick_only(0, 0, 0);
    }
}

/// Reading or writing an operand: a read pays for a page crossing in the
/// modes that do, a write never pays.
pub proof fn operand_access_pays_page_cross<B: CpuBus>(cpu: CPU<B>, mode: AddressingMode, data: u8)
    ensures
        cpu.after_operand(mode).clock() == advanced(
            cpu.clock(),
            if mode.has_address() && mode.pays_page_cross() && cpu.crosses(mode) {
                1int
            } else {
                0int
            },
        ),
        cpu.after_store(mode, data).clock() == cpu.clock(),
        cpu.after_operand(mode).program_counter == cpu.program_counter,
        cpu.after_store(mode, data).program_counter == cpu.program_counter,
{
    clock_moves_on_ticks::<B>();
}

/// An instruction that is not a taken branch, a jump, a call, a return or
/// BRK leaves the program counter behind its last byte: it advances by the
/// length that the instruction table gives.
pub proof fn instruction_advances_by_its_length<B: CpuBus>(cpu: CPU<B>, program_end: usize)
    requires
        cpu.bus.pending_nmi() is None,
        cpu.next_opcode() != 0x00,
        !cpu.fetched().transfers_control(cpu.next_opcode()),
    ensures
        cpu.step_spec(program_end).program_counter == cpu.program_counter.wrapping_add(
            opcode_record(cpu.next_opcode()).len as u16,
        ),
{
}

/// A taken branch leaves the program counter at its target: the address
/// behind the instruction plus the signed operand.
pub proof fn taken_branch_lands_on_target<B: CpuBus>(cpu: CPU<B>, program_end: usize)
    requires
        cpu.bus.pending_nmi() is None,
        is_branch(cpu.next_opcode()),
        cpu.fetched().transfers_control(cpu.next_opcode()),
    ensures
        cpu.step_spec(program_end).program_counter == branch_target(
            cpu.fetched().program_counter,
            cpu.fetched().bus.after_tick(1).value_at(cpu.fetched().program_counter),
        ),
        opcode_record(cpu.next_opcode()).len == 2,
{
}

/// `operand_access_pays_page_cross` of every state at once.
proof fn operand_clock_facts<B: CpuBus>()
    ensures
        forall|cpu: CPU<B>, mode: AddressingMode|
            (#[trigger] cpu.after_operand(mode)).clock() == advanced(
                cpu.clock(),
                if mode.has_address() && mode.pays_page_cross() && cpu.crosses(mode) {
                    1int
                } else {
                    0int
                },
            ) && cpu.after_operand(mode).program_counter == cpu.program_counter,
        forall|cpu: CPU<B>, mode: AddressingMode, data: u8|
            (#[trigger] cpu.after_store(mode, data)).clock() == cpu.clock() && cpu.after_store(
                mode,
                data,
            ).program_counter == cpu.program_counter,
{
    assert forall|cpu: CPU<B>, mode: AddressingMode|
        (#[trigger] cpu.after_operand(mode)).clock() == advanced(
            cpu.clock(),
            if mode.has_address() && mode.pays_page_cross() && cpu.crosses(mode) {
                1int
            } else {
                0int
            },
        ) && cpu.after_operand(mode).program_counter == cpu.program_counter by {
        operand_access_pays_page_cross(cpu, mode, 0);
    }
    assert forall|cpu: CPU<B>, mode: AddressingMode, data: u8|
        (#[trigger] cpu.after_store(mode, data)).clock() == cpu.clock() && cpu.after_store(
            mode,
            data,
        ).program_counter == cpu.program_counter by {
        operand_access_pays_page_cross(cpu, mode, data);
    }
}

proof fn status_pays_nothing<B: CpuBus>(cpu: CPU<B>, code: u8)
    requires
        CPU::<B>::is_status(code),
    ensures
        cpu.execute_spec(code, opcode_record(code).mode).clock() == advanced(
            cpu.clock(),
            cpu.extra_cycles(code),
        ),
{
    clock_moves_on_ticks::<B>();
}

proof fn arithmetic_pays_page_cross<B: CpuBus>(cpu: CPU<B>, code: u8)
    requires
        CPU::<B>::is_arithmetic(code),
    ensures
        cpu.execute_spec(code, opcode_record(code).mode).clock() == advanced(
            cpu.clock(),
            cpu.extra_cycles(code),
        ),
{
    clock_moves_on_ticks::<B>();
    operand_clock_facts::<B>();
}

proof fn shift_pays_nothing<B: CpuBus>(cpu: CPU<B>, code: u8)
    requires
        CPU::<B>::is_shift(code) || CPU::<B>::is_combined(code),
    ensures
        cpu.execute_spec(code, opcode_record(code).mode).clock() == advanced(
            cpu.clock(),
            cpu.extra_cycles(code),
        ),
{
    clock_moves_on_ticks::<B>();
    operand_clock_facts::<B>();
}

proof fn flow_pays_for_branches<B: CpuBus>(cpu: CPU<B>, code: u8)
    requires
        CPU::<B>::is_flow(code),
    ensures
        cpu.execute_spec(code, opcode_record(code).mode).clock() == advanced(
            cpu.clock(),
            cpu.extra_cycles(code),
        ),
{
    clock_moves_on_ticks::<B>();
}

proof fn transfer_pays_page_cross<B: CpuBus>(cpu: CPU<B>, code: u8)
    requires
        CPU::<B>::is_transfer(code),
    ensures
        cpu.execute_spec(code, opcode_record(code).mode).clock() == advanced(
            cpu.clock(),
            cpu.extra_cycles(code),
        ),
{
    clock_moves_on_ticks::<B>();
    operand_clock_facts::<B>();
}

proof fn unofficial_pays_nothing<B: CpuBus>(cpu: CPU<B>, code: u8)
    requires
        CPU::<B>::is_immediate(code) || CPU::<B>::is_unstable(code),
    ensures
        cpu.execute_spec(code, opcode_record(code).mode).clock() == advanced(
            cpu.clock(),
            cpu.extra_cycles(code),
        ),
{
    clock_moves_on_ticks::<B>();
    operand_clock_facts::<B>();
}

/// What an instruction costs besides its base cycles: the work of the
/// instruction `code`, the opcode being fetched, moves the clock by
/// `extra_cycles` and by nothing else.
pub proof fn instruction_work_pays_extras<B: CpuBus>(cpu: CPU<B>, code: u8)
    requires
        code != 0x00,
    ensures
        cpu.execute_spec(code, opcode_record(code).mode).clock() == advanced(
            cpu.clock(),
            cpu.extra_cycles(code),
        ),
{
    if CPU::<B>::is_status(code) {
        status_pays_nothing(cpu, code);
    } else if CPU::<B>::is_arithmetic(code) {
        arithmetic_pays_page_cross(cpu, code);
    } else if CPU::<B>::is_shift(code) || CPU::<B>::is_combined(code) {
        shift_pays_nothing(cpu, code);
    } else if CPU::<B>::is_flow(code) {
        flow_pays_for_branches(cpu, code);
    } else if CPU::<B>::is_transfer(code) {
        transfer_pays_page_cross(cpu, code);
    } else if CPU::<B>::is_immediate(code) || CPU::<B>::is_unstable(code) {
        unofficial_pays_nothing(cpu, code);
    } else {
        assert(cpu.execute_spec(code, opcode_record(code).mode) == cpu);
        assert(!opcode_record(code).mode.pays_page_cross());
    }
}

/// Whether the next step is the BRK that ends a test program: BRK with a
/// zero low byte in its vector at 0xFFFE.
pub open spec fn ends_test_program<B: CpuBus>(cpu: CPU<B>) -> bool {
    cpu.next_opcode() == 0x00 && cpu.fetched().bus.value_at(0xfffe) == 0
}

/// The cycles of one step: with no NMI latched, every instruction, BRK
/// with a handler among them, moves the clock by the base cycles that the
/// instruction table gives plus `extra_cycles`, the adjustments for page
/// crossings and branches. (The BRK that ends a test program pays
/// nothing.)
pub proof fn step_pays_base_cycles_and_extras<B: CpuBus>(cpu: CPU<B>, program_end: usize)
    requires
        cpu.bus.pending_nmi() is None,
        !ends_test_program(cpu),
    ensures
        cpu.step_spec(program_end).clock() == advanced(
            cpu.clock(),
            opcode_record(cpu.next_opcode()).cycles + cpu.fetched().extra_cycles(
                cpu.next_opcode(),
            ),
        ),
        cpu.next_opcode() == 0x00 ==> cpu.fetched().extra_cycles(cpu.next_opcode()) == 0,
{
    clock_moves_on_ticks::<B>();
    if cpu.next_opcode() != 0x00 {
        instruction_work_pays_extras(cpu.fetched(), cpu.next_opcode());
    }
}

/// A latched NMI is served before the instruction: its sequence costs two
/// cycles on top of what the step costs from the handler's first
/// instruction on.
pub proof fn nmi_costs_two_cycles<B: CpuBus>(cpu: CPU<B>)
    ensures
        (CPU { bus: cpu.bus.after_poll(), ..cpu }).interrupt_spec(InterruptType::NMI).clock()
            == advanced(cpu.clock(), 2),
{
    clock_moves_on_ticks::<B>();
}

/// BRK whose vector holds a zero low byte ends a test program: the program
/// counter goes to the program's end, and neither registers nor clock
/// change.
pub proof fn brk_ends_a_test_program<B: CpuBus>(cpu: CPU<B>, program_end: usize)
    requires
        cpu.bus.pending_nmi() is None,
        cpu.next_opcode() == 0x00,
        cpu.fetched().bus.value_at(0xfffe) == 0,
    ensures
        cpu.step_spec(program_end).program_counter == program_end % 0x10000,
        cpu.step_spec(program_end).clock() == cpu.clock(),
        cpu.step_spec(program_end).register_a == cpu.register_a,
        cpu.step_spec(program_end).register_x == cpu.register_x,
        cpu.step_spec(program_end).register_y == cpu.register_y,
        cpu.step_spec(program_end).stack_pointer == cpu.stack_pointer,
        cpu.step_spec(program_end).flags == cpu.flags,
{
    clock_moves_on_ticks::<B>();
}

/// Any other BRK runs the interrupt sequence: three bytes go to the stack,
/// I is set, and the step costs the seven base cycles of the instruction.
pub proof fn brk_runs_the_interrupt_sequence<B: CpuBus>(cpu: CPU<B>, program_end: usize)
    requires
        cpu.bus.pending_nmi() is None,
        cpu.next_opcode() == 0x00,
        cpu.fetched().bus.value_at(0xfffe) != 0,
    ensures
        cpu.step_spec(program_end).stack_pointer == cpu.stack_pointer.wrapping_sub(3),
        cpu.step_spec(program_end).flags.has(CpuFlags::INTERRUPT_DISABLE),
        cpu.step_spec(program_end).clock() == advanced(cpu.clock(), 7),
        opcode_record(0x00).cycles == 7,
{
    clock_moves_on_ticks::<B>();
    let entered = CPU {
        program_counter: cpu.fetched().program_counter.wrapping_add(1),
        ..cpu.fetched()
    }.mem_read_spec(0xfffe).0;
    let pushed = entered.stack_push_u16_spec(entered.program_counter).stack_push_spec(
        entered.pushed_status(InterruptType::BRK),
    );
    flag_switch_is_seen(pushed.flags, CpuFlags::INTERRUPT_DISABLE, 0, true);
}

/// Reading an instruction for the trace line leaves the processor's
/// registers as they are; on a bus whose reads change nothing it leaves
/// the whole state.
pub proof fn tracing_keeps_registers<B: CpuBus>(cpu: CPU<B>)
    ensures
        cpu.listing_spec().0 == (CPU { bus: cpu.listing_spec().0.bus, ..cpu }),
        (forall|bus: B, pos: u16| #[trigger] bus.after_read(pos) == bus) ==> cpu.listing_spec().0
            == cpu,
{
}

} // verus!

use rustness::bus::bus::MockBus;
use rustness::cpu::cpu::{CpuFlags, InterruptType, CPU};
use rustness::cpu::mem::AddressingMode;
use rustness::cpu::opscode::OpsCode;
use rustness::cpu::program::parse_program;

fn cpu_with(bytes: &[u8], at: u16) -> CPU<MockBus> {
    let mut bus = MockBus::new();
    for (i, b) in bytes.iter().enumerate() {
        bus.space[at as usize + i] = *b;
    }
    let mut cpu = CPU::new(bus);
    cpu.program_counter = at;
    cpu
}

#[test]
fn test_reset_state() {
    let cpu = CPU::new(MockBus::new());
    assert_eq!(cpu.stack_pointer, 0xfd);
    assert_eq!(cpu.flags.bits, 0x24);
    assert_eq!(cpu.register_a, 0);
    assert_eq!(cpu.register_x, 0);
    assert_eq!(cpu.register_y, 0);
    assert_eq!(cpu.program_counter, 0);
}

#[test]
fn test_every_table_entry_is_its_own() {
    for code in 0..=255u8 {
        let ops = OpsCode::lookup(code);
        assert_eq!(ops.code, code);
        assert!(ops.len >= 1 && ops.len <= 3);
        assert!(ops.cycles >= 2 && ops.cycles <= 8);
        assert!(ops.mnemonic.len() == 3 || (ops.mnemonic.len() == 4 && ops.mnemonic.starts_with('*')));
    }
    let lda = OpsCode::lookup(0xbd);
    assert_eq!(lda.mnemonic, "LDA");
    assert_eq!(lda.len, 3);
    assert_eq!(lda.cycles, 4);
    assert_eq!(lda.mode, AddressingMode::Absolute_X_PageCross);
    let made = OpsCode::new(0x18, "CLC", 1, 2, AddressingMode::NoneAddressing);
    assert_eq!(made.mnemonic, OpsCode::lookup(0x18).mnemonic);
    assert_eq!(made.mode, OpsCode::lookup(0x18).mode);
}

#[test]
fn test_every_instruction_advances_by_its_length_and_pays_its_base_cycles() {
    // BRK, with a handler behind its vector, is among the jumps
    let jumps = [0x00u8, 0x4c, 0x6c, 0x20, 0x60, 0x40];
    // with P = 0x24 these branches are taken
    let taken = [0xd0u8, 0x50, 0x10, 0x90];
    for code in 0..=255u8 {
        let ops = OpsCode::lookup(code);
        let mut cpu = cpu_with(&[code, 0x10, 0x02], 0x8000);
        cpu.bus.space[0xfffe] = 0x34;
        cpu.bus.space[0xffff] = 0x12;
        cpu.execute_next_op(0xffff);
        if taken.contains(&code) {
            assert_eq!(cpu.program_counter, 0x8012, "opcode {:02x}", code);
            assert_eq!(cpu.bus.cycles, ops.cycles as usize + 1, "opcode {:02x}", code);
        } else {
            if !jumps.contains(&code) {
                assert_eq!(cpu.program_counter, 0x8000 + ops.len as u16, "opcode {:02x}", code);
            }
            assert_eq!(cpu.bus.cycles, ops.cycles as usize, "opcode {:02x}", code);
        }
    }
}

#[test]
fn test_page_crossing_costs_a_cycle_for_reads_only() {
    // LDA $12FF,X with X = 1 crosses into page $13
    let mut cpu = cpu_with(&[0xbd, 0xff, 0x12], 0x8000);
    cpu.register_x = 1;
    cpu.bus.space[0x1300] = 0x42;
    cpu.execute_next_op(0xffff);
    assert_eq!(cpu.register_a, 0x42);
    assert_eq!(cpu.bus.cycles, 5);
    // LDA ($10),Y with Y = 1 and the pointer at $02FF
    let mut cpu = cpu_with(&[0xb1, 0x10], 0x8000);
    cpu.register_y = 1;
    cpu.bus.space[0x10] = 0xff;
    cpu.bus.space[0x11] = 0x02;
    cpu.bus.space[0x0300] = 0x43;
    cpu.execute_next_op(0xffff);
    assert_eq!(cpu.register_a, 0x43);
    assert_eq!(cpu.bus.cycles, 6);
    // STA $12FF,X pays its five cycles whether it crosses or not
    let mut cpu = cpu_with(&[0x9d, 0xff, 0x12], 0x8000);
    cpu.register_x = 1;
    cpu.register_a = 0x44;
    cpu.execute_next_op(0xffff);
    assert_eq!(cpu.bus.space[0x1300], 0x44);
    assert_eq!(cpu.bus.cycles, 5);
}

#[test]
fn test_branch_timing_and_targets() {
    // BNE back by two: lands on itself, same page
    let mut cpu = cpu_with(&[0xd0, 0xfe], 0x8010);
    cpu.execute_next_op(0xffff);
    assert_eq!(cpu.program_counter, 0x8010);
    assert_eq!(cpu.bus.cycles, 3);
    // BNE forward across the page: two more cycles
    let mut cpu = cpu_with(&[0xd0, 0x7f], 0x80f0);
    cpu.execute_next_op(0xffff);
    assert_eq!(cpu.program_counter, 0x8171);
    assert_eq!(cpu.bus.cycles, 4);
    // BEQ is not taken with Z clear
    let mut cpu = cpu_with(&[0xf0, 0x7f], 0x80f0);
    cpu.execute_next_op(0xffff);
    assert_eq!(cpu.program_counter, 0x80f2);
    assert_eq!(cpu.bus.cycles, 2);
    // a branch with offset -1 lands on its own operand byte
    let mut cpu = cpu_with(&[0xd0, 0xff], 0x8010);
    cpu.execute_next_op(0xffff);
    assert_eq!(cpu.program_counter, 0x8011);
}

#[test]
fn test_adc_carry_and_overflow_over_all_operands() {
    for a in 0..=255u8 {
        for m in 0..=255u8 {
            for c in 0..=1u8 {
                let mut cpu = CPU::new(MockBus::new());
                cpu.register_a = a;
                cpu.flags.set(CpuFlags::CARRY, c == 1);
                cpu.add_to_register_a(m);
                let sum = a as u16 + m as u16 + c as u16;
                let signed = (a as i8) as i16 + (m as i8) as i16 + c as i16;
                assert_eq!(cpu.register_a, (sum & 0xff) as u8);
                assert_eq!(cpu.flags.contains(CpuFlags::CARRY), sum > 0xff);
                assert_eq!(cpu.flags.contains(CpuFlags::OVERFLOW), signed > 127 || signed < -128);
                assert_eq!(cpu.flags.contains(CpuFlags::ZERO), sum & 0xff == 0);
                assert_eq!(cpu.flags.contains(CpuFlags::NEGATIV), sum & 0x80 != 0);
            }
        }
    }
}

#[test]
fn test_sbc_borrow_and_overflow_over_all_operands() {
    for a in 0..=255u8 {
        for m in 0..=255u8 {
            for c in 0..=1u8 {
                let mut cpu = CPU::new(MockBus::new());
                cpu.register_a = a;
                cpu.flags.set(CpuFlags::CARRY, c == 1);
                cpu.sub_from_register_a(m);
                let difference = a as i16 - m as i16 - (1 - c as i16);
                let signed = (a as i8) as i16 - (m as i8) as i16 - (1 - c as i16);
                assert_eq!(cpu.register_a, (difference & 0xff) as u8);
                assert_eq!(cpu.flags.contains(CpuFlags::CARRY), difference >= 0);
                assert_eq!(cpu.flags.contains(CpuFlags::OVERFLOW), signed > 127 || signed < -128);
            }
        }
    }
}

#[test]
fn test_push_then_pop_restores_and_the_pointer_wraps() {
    for s in [0x00u8, 0x01, 0x7f, 0xfd, 0xff] {
        let mut cpu = CPU::new(MockBus::new());
        cpu.stack_pointer = s;
        cpu.stack_push(0xab);
        assert_eq!(cpu.stack_pointer, s.wrapping_sub(1));
        assert_eq!(cpu.bus.space[0x0100 + s as usize], 0xab);
        assert_eq!(cpu.stack_pop(), 0xab);
        assert_eq!(cpu.stack_pointer, s);
    }
    let mut cpu = CPU::new(MockBus::new());
    cpu.stack_pointer = 0x00;
    cpu.stack_push_u16(0x1234);
    assert_eq!(cpu.stack_pointer, 0xfe);
    assert_eq!(cpu.bus.space[0x0100], 0x12);
    assert_eq!(cpu.bus.space[0x01ff], 0x34);
    assert_eq!(cpu.stack_pop_u16(), 0x1234);
    assert_eq!(cpu.stack_pointer, 0x00);
}

#[test]
fn test_jsr_rts_round_trip() {
    let mut cpu = CPU::new(MockBus::new());
    cpu.interpret(&CPU::<MockBus>::transform("20 68 00 00 a2 05 60"), 100);
    assert_eq!(cpu.stack_pointer, 0xfd);
    assert_eq!(cpu.register_x, 5);
    // the return address on the stack was the last byte of JSR
    assert_eq!(cpu.bus.space[0x01fd], 0x00);
    assert_eq!(cpu.bus.space[0x01fc], 102);
    // RTS went to the byte behind JSR, the BRK that ends the program
    assert_eq!(cpu.program_counter, 107);
}

#[test]
fn test_jmp_indirect_stays_on_the_pointers_page() {
    let mut cpu = cpu_with(&[0x6c, 0xff, 0x30], 0x8000);
    cpu.bus.space[0x30ff] = 0x80;
    cpu.bus.space[0x3000] = 0x40;
    cpu.bus.space[0x3100] = 0x50;
    cpu.execute_next_op(0xffff);
    assert_eq!(cpu.program_counter, 0x4080);
    assert_eq!(cpu.bus.cycles, 5);
}

#[test]
fn test_zero_page_pointer_wraps() {
    // LDA ($FF,X) with X = 0: the pointer's high byte comes from $00
    let mut cpu = cpu_with(&[0xa1, 0xff], 0x8000);
    cpu.bus.space[0xff] = 0x34;
    cpu.bus.space[0x00] = 0x12;
    cpu.bus.space[0x1234] = 0x77;
    cpu.execute_next_op(0xffff);
    assert_eq!(cpu.register_a, 0x77);
    // LDA $FF,X with X = 2 stays in the zero page
    let mut cpu = cpu_with(&[0xb5, 0xff], 0x8000);
    cpu.register_x = 2;
    cpu.bus.space[0x01] = 0x78;
    cpu.execute_next_op(0xffff);
    assert_eq!(cpu.register_a, 0x78);
}

#[test]
fn test_brk_pushes_status_with_both_break_bits() {
    let mut cpu = cpu_with(&[0x00, 0x00], 0x8000);
    cpu.bus.space[0xfffe] = 0x34;
    cpu.bus.space[0xffff] = 0x12;
    cpu.flags.bits = 0b1100_0001;
    cpu.execute_next_op(0xffff);
    assert_eq!(cpu.program_counter, 0x1234);
    assert_eq!(cpu.bus.space[0x01fd], 0x80);
    assert_eq!(cpu.bus.space[0x01fc], 0x02);
    assert_eq!(cpu.bus.space[0x01fb], 0b1111_0001);
    assert!(cpu.flags.contains(CpuFlags::INTERRUPT_DISABLE));
    assert_eq!(cpu.stack_pointer, 0xfa);
    assert_eq!(cpu.bus.cycles, 7);
}

#[test]
fn test_nmi_pushes_status_without_the_break_bit() {
    let mut cpu = cpu_with(&[0xea], 0x8000);
    cpu.bus.space[0xfffa] = 0x00;
    cpu.bus.space[0xfffb] = 0x90;
    cpu.bus.space[0x9000] = 0xea;
    cpu.bus.nmi_interrupt = Some(1);
    cpu.flags.bits = 0b1101_0001;
    cpu.execute_next_op(0xffff);
    // the handler's first instruction ran in the same step
    assert_eq!(cpu.program_counter, 0x9001);
    assert_eq!(cpu.bus.nmi_interrupt, None);
    assert_eq!(cpu.bus.space[0x01fd], 0x80);
    assert_eq!(cpu.bus.space[0x01fc], 0x00);
    assert_eq!(cpu.bus.space[0x01fb], 0b1110_0001);
    assert!(cpu.flags.contains(CpuFlags::INTERRUPT_DISABLE));
    assert_eq!(cpu.bus.cycles, 4);
    let mut other = CPU::new(MockBus::new());
    other.interrupt(InterruptType::IRQ);
    assert_eq!(other.bus.space[0x01fb], 0x24);
    assert_eq!(other.bus.cycles, 2);
}

#[test]
fn test_php_and_plp() {
    let mut cpu = CPU::new(MockBus::new());
    cpu.flags.bits = 0b1100_0001;
    cpu.interpret(&CPU::<MockBus>::transform("08"), 100);
    assert_eq!(cpu.bus.space[0x01fd], 0b1111_0001);
    cpu.bus.space[0x01fd] = 0b0001_0010;
    cpu.interpret(&CPU::<MockBus>::transform("28"), 100);
    assert_eq!(cpu.flags.bits, 0b0010_0010);
}

#[test]
fn test_compare_flags() {
    let mut cpu = CPU::new(MockBus::new());
    cpu.register_x = 0x10;
    cpu.interpret(&CPU::<MockBus>::transform("e0 10"), 100);
    assert!(cpu.flags.contains(CpuFlags::CARRY));
    assert!(cpu.flags.contains(CpuFlags::ZERO));
    assert!(!cpu.flags.contains(CpuFlags::NEGATIV));
    cpu.register_y = 0x10;
    cpu.interpret(&CPU::<MockBus>::transform("c0 11"), 100);
    assert!(!cpu.flags.contains(CpuFlags::CARRY));
    assert!(!cpu.flags.contains(CpuFlags::ZERO));
    assert!(cpu.flags.contains(CpuFlags::NEGATIV));
}

#[test]
fn test_dcp_clears_carry_when_the_accumulator_is_smaller() {
    let mut cpu = CPU::new(MockBus::new());
    cpu.register_a = 1;
    cpu.flags.insert(CpuFlags::CARRY);
    cpu.mem_write(0x10, 4);
    cpu.interpret(&CPU::<MockBus>::transform("c7 10"), 100);
    assert_eq!(cpu.mem_read(0x10), 3);
    assert!(!cpu.flags.contains(CpuFlags::CARRY));
    assert!(cpu.flags.contains(CpuFlags::NEGATIV));
}

#[test]
fn test_flag_set_operations() {
    let mut flags = CpuFlags::from_bits_truncate(0b0000_0001);
    assert!(flags.contains(CpuFlags::CARRY));
    flags.insert(CpuFlags::NEGATIV | CpuFlags::ZERO);
    assert_eq!(flags.bits(), 0b1000_0011);
    assert!(flags.contains(CpuFlags::NEGATIV | CpuFlags::CARRY));
    flags.remove(CpuFlags::CARRY);
    assert_eq!(flags.bits(), 0b1000_0010);
    flags.set(CpuFlags::OVERFLOW, true);
    flags.set(CpuFlags::ZERO, false);
    assert_eq!(flags.bits(), 0b1100_0000);
    assert_eq!(CpuFlags::empty().bits(), 0);
}

#[test]
fn test_program_text() {
    assert_eq!(parse_program("A9 8d"), Some(vec![0xa9, 0x8d]));
    assert_eq!(parse_program(" a98D  0f"), Some(vec![0xa9, 0x8d, 0x0f]));
    assert_eq!(parse_program(""), Some(vec![]));
    assert_eq!(parse_program("a9 8"), None);
    assert_eq!(parse_program("a9 8g"), None);
    assert_eq!(parse_program("a9\t8d"), None);
}

#[test]
fn test_run_stops_at_the_program_end() {
    let mut cpu = cpu_with(&[0xe8, 0xe8, 0xe8, 0xe8], 0x10);
    cpu.interpret_fn(0x12);
    assert_eq!(cpu.register_x, 2);
    assert_eq!(cpu.program_counter, 0x12);
    cpu.interpret_fn(0x12);
    assert_eq!(cpu.register_x, 2);
}

#[test]
fn test_program_is_loaded_where_told() {
    let mut cpu = CPU::new(MockBus::new());
    cpu.test_interpret_fn(&[0xa9, 0x01], 0x0600);
    assert_eq!(cpu.bus.space[0x0600], 0xa9);
    assert_eq!(cpu.bus.space[0x0601], 0x01);
    assert_eq!(cpu.register_a, 1);
    assert_eq!(cpu.program_counter, 0x0602);
}

#[test]
fn test_lda_immediate_sets_negative_and_clears_zero() {
    let mut cpu = CPU::new(MockBus::new());
    cpu.flags.insert(CpuFlags::ZERO);
    cpu.interpret(&CPU::<MockBus>::transform("a9 8d"), 100);
    assert_eq!(cpu.register_a, 0x8d);
    assert_eq!(cpu.program_counter, 102);
    assert!(cpu.flags.contains(CpuFlags::NEGATIV));
    assert!(!cpu.flags.contains(CpuFlags::ZERO));
}

#[test]
fn test_brk_without_handler_ends_the_program() {
    let mut cpu = cpu_with(&[0x00, 0xe8], 0x8000);
    cpu.register_x = 7;
    cpu.execute_next_op(0x9000);
    assert_eq!(cpu.program_counter, 0x9000);
    assert_eq!(cpu.register_x, 7);
    assert_eq!(cpu.stack_pointer, 0xfd);
    assert_eq!(cpu.bus.cycles, 0);
}

#[test]
fn test_reset() {
    let mut cpu = cpu_with(&[0x34, 0x12], 0xfffc);
    cpu.register_a = 1;
    cpu.stack_pointer = 0x10;
    cpu.flags.bits = 0xff;
    cpu.reset();
    assert_eq!(cpu.program_counter, 0x1234);
    assert_eq!(cpu.stack_pointer, 0xfd);
    assert_eq!(cpu.flags.bits, 0x24);
    assert_eq!(cpu.register_a, 1);
}

#[test]
fn test_a_longer_program_runs() {
    // the snake game of https://gist.github.com/wkjagt/9043907
    let game = CPU::<MockBus>::transform("20 06 06 20 38 06 20 0d 06 20 2a 06 60 a9 02 85 02 a9 04 85 03 a9 11 85 10 a9 10 85 12 a9 0f 85 14 a9 04 85 11 85 13 85 15 60 a5 fe 85 00 a5 fe 29 03 18 69 02 85 01 60 20 4d 06 20 8d 06 20 c3 06 20 19 07 20 20 07 20 2d 07 4c 38 06 a5 ff c9 77 f0 0d c9 64 f0 14 c9 73 f0 1b c9 61 f0 22 60 a9 04 24 02 d0 26 a9 01 85 02 60 a9 08 24 02 d0 1b a9 02 85 02 60 a9 01 24 02 d0 10 a9 04 85 02 60 a9 02 24 02 d0 05 a9 08 85 02 60 60 20 94 06 20 a8 06 60 a5 00 c5 10 d0 0d a5 01 c5 11 d0 07 e6 03 e6 03 20 2a 06 60 a2 02 b5 10 c5 10 d0 06 b5 11 c5 11 f0 09 e8 e8 e4 03 f0 06 4c aa 06 4c 35 07 60 a6 03 ca 8a b5 10 95 12 ca 10 f9 a5 02 4a b0 09 4a b0 19 4a b0 1f 4a b0 2f a5 10 38 e9 20 85 10 90 01 60 c6 11 a9 01 c5 11 f0 28 60 e6 10 a9 1f 24 10 f0 1f 60 a5 10 18 69 20 85 10 b0 01 60 e6 11 a9 06 c5 11 f0 0c 60 c6 10 a5 10 29 1f c9 1f f0 01 60 4c 35 07 a0 00 a5 fe 91 00 60 a6 03 a9 00 81 10 a2 00 a9 01 81 10 60 60");
    let mut cpu = CPU::new(MockBus::new());
    for (i, byte) in game.iter().enumerate() {
        cpu.mem_write(0x0600 + i as u16, *byte);
    }
    cpu.program_counter = 0x0600;
    let program_end = 0x0600 + game.len();
    let mut steps = 0;
    let mut seed: u8 = 7;
    while (cpu.program_counter as usize) < program_end && steps < 50000 {
        seed = seed.wrapping_mul(13).wrapping_add(31);
        cpu.bus.space[0xfe] = seed;
        cpu.execute_next_op(program_end);
        steps += 1;
    }
    // the snake moves right until it hits the wall; the game ends with a
    // jump out of the program from two subroutines deep
    assert!(steps < 50000);
    assert_eq!(cpu.bus.space[0x02], 2);
    assert_eq!(cpu.program_counter, 0x0735);
    assert_eq!(cpu.stack_pointer, 0xf9);
}

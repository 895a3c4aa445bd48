use rustness::bus::bus::MockBus;
use rustness::cpu::cpu::{CpuFlags, CPU, STACK, STACK_RESET};

#[test]
fn cpu_test_transform() {
    assert_eq!(CPU::<MockBus>::transform("a9 8d"), [169, 141]);
}

#[test]
fn cpu_test_0xa9_load_into_register_a() {
    let mut cpu = CPU::new(MockBus::new());
    cpu.interpret(&CPU::<MockBus>::transform("a9 8d"), 100);
    assert_eq!(cpu.register_a, 0x8d);
    assert_eq!(cpu.program_counter, 102);
}

#[test]
fn cpu_test_larger_program() {
    let mut cpu = CPU::new(MockBus::new());
    cpu.interpret(
        &CPU::<MockBus>::transform("a9 01 8d 00 02 a9 05 8d 01 02 a9 08 8d 02 02"),
        100,
    );
    assert_eq!(cpu.mem_read(0x0200), 01);
    assert_eq!(cpu.mem_read(0x0201), 05);
    assert_eq!(cpu.mem_read(0x0202), 08);
    assert_eq!(cpu.program_counter, 115);
}

#[test]
fn cpu_test_0x48_pha() {
    let mut cpu = CPU::new(MockBus::new());
    cpu.register_a = 100;
    cpu.interpret(&CPU::<MockBus>::transform("48"), 100);
    assert_eq!(cpu.stack_pointer, STACK_RESET - 1);
    assert_eq!(cpu.mem_read(STACK + STACK_RESET as u16), 100);
    assert_eq!(cpu.program_counter, 101);
}

#[test]
fn cpu_test_0x68_pla() {
    let mut cpu = CPU::new(MockBus::new());
    cpu.interpret(&CPU::<MockBus>::transform("a9 ff 48 a9 00 68"), 100);
    assert_eq!(cpu.stack_pointer, STACK_RESET);
    assert_eq!(cpu.register_a, 0xff);
    assert_eq!(cpu.program_counter, 106);
}

#[test]
fn cpu_test_0x48_pla_flags() {
    let mut cpu = CPU::new(MockBus::new());
    cpu.interpret(&CPU::<MockBus>::transform("a9 00 48 a9 01 68"), 100);
    assert!(cpu.flags.contains(CpuFlags::ZERO));
}

#[test]
fn cpu_test_stack_overflowing() {
    let mut cpu = CPU::new(MockBus::new());
    cpu.interpret(&CPU::<MockBus>::transform("68"), 100);
}

#[test]
fn cpu_test_0x18_clc() {
    let mut cpu = CPU::new(MockBus::new());
    cpu.flags.insert(CpuFlags::CARRY);
    assert!(cpu.flags.contains(CpuFlags::CARRY));
    cpu.interpret(&CPU::<MockBus>::transform("18"), 100);
    assert!(!cpu.flags.contains(CpuFlags::CARRY));
    assert_eq!(cpu.program_counter, 101);
}

#[test]
fn cpu_test_0x38_sec() {
    let mut cpu = CPU::new(MockBus::new());
    assert!(!cpu.flags.contains(CpuFlags::CARRY));
    cpu.interpret(&CPU::<MockBus>::transform("38"), 100);
    assert!(cpu.flags.contains(CpuFlags::CARRY));
    assert_eq!(cpu.program_counter, 101);
}

#[test]
fn cpu_test_0x85_sta() {
    let mut cpu = CPU::new(MockBus::new());
    cpu.register_a = 101;
    cpu.interpret(&CPU::<MockBus>::transform("85 10"), 100);
    assert_eq!(cpu.mem_read(0x10), 101);
    assert_eq!(cpu.program_counter, 102);
}

#[test]
fn cpu_test_0x95_sta() {
    let mut cpu = CPU::new(MockBus::new());
    cpu.register_a = 101;
    cpu.register_x = 0x50;
    cpu.interpret(&CPU::<MockBus>::transform("95 10"), 100);
    assert_eq!(cpu.mem_read(0x60), 101);
    assert_eq!(cpu.program_counter, 102);
}

#[test]
fn cpu_test_0x8d_sta() {
    let mut cpu = CPU::new(MockBus::new());
    cpu.register_a = 100;
    cpu.interpret(&CPU::<MockBus>::transform("8d 00 02"), 100);
    assert_eq!(cpu.mem_read(0x0200), 100);
    assert_eq!(cpu.program_counter, 103);
}

#[test]
fn cpu_test_0x9d_sta_absolute_x() {
    let mut cpu = CPU::new(MockBus::new());
    cpu.register_a = 101;
    cpu.register_x = 0x50;
    cpu.interpret(&CPU::<MockBus>::transform("9d 00 11"), 100);
    assert_eq!(cpu.mem_read(0x1150), 101);
    assert_eq!(cpu.program_counter, 103);
}

#[test]
fn cpu_test_0x99_sta_absolute_y() {
    let mut cpu = CPU::new(MockBus::new());
    cpu.register_a = 101;
    cpu.register_y = 0x66;
    cpu.interpret(&CPU::<MockBus>::transform("99 00 11"), 100);
    assert_eq!(cpu.mem_read(0x1166), 101);
    assert_eq!(cpu.program_counter, 103);
}

#[test]
fn cpu_test_0x81_sta() {
    let mut cpu = CPU::new(MockBus::new());
    cpu.register_x = 2;
    cpu.mem_write(0x2, 0x05);
    cpu.mem_write(0x3, 0x07);

    cpu.register_a = 0x66;

    cpu.interpret(&CPU::<MockBus>::transform("81 00"), 100);
    assert_eq!(cpu.mem_read(0x0705), 0x66);
    assert_eq!(cpu.program_counter, 102);
}

#[test]
fn cpu_test_091_sta() {
    let mut cpu = CPU::new(MockBus::new());
    cpu.register_y = 0x10;
    cpu.mem_write(0x2, 0x05);
    cpu.mem_write(0x3, 0x07);

    cpu.register_a = 0x66;

    cpu.interpret(&CPU::<MockBus>::transform("91 02"), 100);
    assert_eq!(cpu.mem_read(0x0705 + 0x10), 0x66);
    assert_eq!(cpu.program_counter, 102);
}

#[test]
fn cpu_test_0x69_adc() {
    let mut cpu = CPU::new(MockBus::new());
    cpu.register_a = 0x10;
    cpu.interpret(&CPU::<MockBus>::transform("69 02"), 100);
    assert_eq!(cpu.register_a, 0x12);
    assert_eq!(cpu.program_counter, 102);
}

#[test]
fn cpu_test_0x69_adc_carry_zero_flag() {
    let mut cpu = CPU::new(MockBus::new());
    cpu.register_a = 0x81;
    cpu.interpret(&CPU::<MockBus>::transform("69 7f"), 100);
    assert_eq!(cpu.register_a, 0x0);
    assert!(cpu.flags.contains(CpuFlags::CARRY));
    assert!(cpu.flags.contains(CpuFlags::ZERO));
    assert!(!cpu.flags.contains(CpuFlags::OVERFLOW));
}

#[test]
fn cpu_test_0x69_adc_overflow_cary_flag() {
    let mut cpu = CPU::new(MockBus::new());
    cpu.register_a = 0x8a;
    cpu.interpret(&CPU::<MockBus>::transform("69 8a"), 100);
    assert_eq!(cpu.register_a, 0x14);
    assert!(cpu.flags.contains(CpuFlags::CARRY));
    assert!(cpu.flags.contains(CpuFlags::OVERFLOW));
}

#[test]
fn test_0xe9_sbc() {
    let mut cpu = CPU::new(MockBus::new());
    cpu.register_a = 0x10;
    cpu.interpret(&CPU::<MockBus>::transform("e9 02"), 100);
    assert_eq!(cpu.register_a, 0x0d);
    assert_eq!(cpu.program_counter, 102);
    assert!(cpu.flags.contains(CpuFlags::CARRY));
    assert!(!cpu.flags.contains(CpuFlags::NEGATIV));
    assert!(!cpu.flags.contains(CpuFlags::OVERFLOW));
}

#[test]
fn test_0xe9_sbc_negative() {
    let mut cpu = CPU::new(MockBus::new());
    cpu.register_a = 0x02;
    cpu.interpret(&CPU::<MockBus>::transform("e9 03"), 100);
    assert_eq!(cpu.register_a, 0xfe);
    assert!(!cpu.flags.contains(CpuFlags::CARRY));
    assert!(cpu.flags.contains(CpuFlags::NEGATIV));
}

#[test]
fn test_0xe9_sbc_overflow() {
    let mut cpu = CPU::new(MockBus::new());
    cpu.register_a = 0x50;
    cpu.interpret(&CPU::<MockBus>::transform("e9 b0"), 100);
    assert_eq!(cpu.register_a, 0x9f);
    assert!(!cpu.flags.contains(CpuFlags::CARRY));
    assert!(cpu.flags.contains(CpuFlags::NEGATIV));
    assert!(cpu.flags.contains(CpuFlags::OVERFLOW));
}

#[test]
fn cpu_test_0x29_and_flags() {
    let mut cpu = CPU::new(MockBus::new());
    cpu.register_a = 0b11010010;
    cpu.interpret(&CPU::<MockBus>::transform("29 90"), 100); //0b10010000
    assert_eq!(cpu.register_a, 0b10010000);
    assert!(cpu.flags.contains(CpuFlags::NEGATIV));
    assert!(!cpu.flags.contains(CpuFlags::ZERO));
}

#[test]
fn cpu_test_0x49_eor_flags() {
    let mut cpu = CPU::new(MockBus::new());
    cpu.register_a = 0b11010010;
    cpu.interpret(&CPU::<MockBus>::transform("49 07"), 100); //0b00000111
    assert_eq!(cpu.register_a, 0b11010101);
    assert!(cpu.flags.contains(CpuFlags::NEGATIV));
    assert!(!cpu.flags.contains(CpuFlags::ZERO));
}

#[test]
fn cpu_test_0x09_ora_flags() {
    let mut cpu = CPU::new(MockBus::new());
    cpu.register_a = 0b11010010;
    cpu.interpret(&CPU::<MockBus>::transform("09 07"), 100); //0b00000111
    assert_eq!(cpu.register_a, 0b11010111);
    assert!(cpu.flags.contains(CpuFlags::NEGATIV));
    assert!(!cpu.flags.contains(CpuFlags::ZERO));
}

#[test]
fn cpu_test_0x0a_asl_accumulator() {
    let mut cpu = CPU::new(MockBus::new());
    cpu.register_a = 0b11010010;
    cpu.interpret(&CPU::<MockBus>::transform("0a"), 100);
    assert_eq!(cpu.program_counter, 101);
    assert_eq!(cpu.register_a, 0b10100100);
    assert!(cpu.flags.contains(CpuFlags::CARRY));
}

#[test]
fn cpu_test_0x06_asl_memory() {
    let mut cpu = CPU::new(MockBus::new());
    cpu.mem_write(0x10, 0b01000001);
    cpu.interpret(&CPU::<MockBus>::transform("06 10"), 100);
    assert_eq!(cpu.mem_read(0x10), 0b10000010);
    assert!(cpu.flags.contains(CpuFlags::NEGATIV));
}

#[test]
fn cpu_test_0x06_asl_memory_flags() {
    let mut cpu = CPU::new(MockBus::new());
    cpu.mem_write(0x10, 0b10000000);
    cpu.interpret(&CPU::<MockBus>::transform("06 10"), 100);
    assert_eq!(cpu.mem_read(0x10), 0b0);
    assert!(cpu.flags.contains(CpuFlags::CARRY));
    assert!(cpu.flags.contains(CpuFlags::ZERO));
    assert!(!cpu.flags.contains(CpuFlags::NEGATIV));
}

#[test]
fn cpu_test_0xf6_inc_memory_zero_page_x() {
    let mut cpu = CPU::new(MockBus::new());
    cpu.register_x = 1;
    cpu.mem_write(0x10, 127);
    cpu.interpret(&CPU::<MockBus>::transform("f6 0f"), 100);
    assert_eq!(cpu.mem_read(0x10), 128);
    assert!(cpu.flags.contains(CpuFlags::NEGATIV));
}

#[test]
fn cpu_test_0x46_lsr_memory_flags() {
    let mut cpu = CPU::new(MockBus::new());
    cpu.mem_write(0x10, 0b00000001);
    cpu.interpret(&CPU::<MockBus>::transform("46 10"), 100);
    assert_eq!(cpu.mem_read(0x10), 0b0);
    assert!(cpu.flags.contains(CpuFlags::CARRY));
    assert!(cpu.flags.contains(CpuFlags::ZERO));
    assert!(!cpu.flags.contains(CpuFlags::NEGATIV));
}

#[test]
fn cpu_test_0x2e_rol_memory_flags() {
    let mut cpu = CPU::new(MockBus::new());
    cpu.mem_write(0x1510, 0b10000001);
    cpu.interpret(&CPU::<MockBus>::transform("2e 10 15"), 100);
    assert_eq!(cpu.mem_read(0x1510), 0b00000010);
    assert!(cpu.flags.contains(CpuFlags::CARRY));
}

#[test]
fn cpu_test_0x2e_rol_memory_flags_carry() {
    let mut cpu = CPU::new(MockBus::new());
    cpu.flags.insert(CpuFlags::CARRY);
    cpu.mem_write(0x1510, 0b00000001);
    cpu.interpret(&CPU::<MockBus>::transform("2e 10 15"), 100);
    assert_eq!(cpu.mem_read(0x1510), 0b00000011);
    assert!(!cpu.flags.contains(CpuFlags::CARRY));
}

#[test]
fn cpu_test_0x6e_ror_memory_flags_carry() {
    let mut cpu = CPU::new(MockBus::new());
    cpu.flags.insert(CpuFlags::CARRY);
    cpu.mem_write(0x1510, 0b01000010);
    cpu.interpret(&CPU::<MockBus>::transform("6e 10 15"), 100);
    assert_eq!(cpu.mem_read(0x1510), 0b10100001);
    assert!(!cpu.flags.contains(CpuFlags::CARRY));
}

#[test]
fn cpu_test_0x6e_zero_flag() {
    let mut cpu = CPU::new(MockBus::new());
    cpu.flags.insert(CpuFlags::CARRY);
    cpu.mem_write(0x1510, 0b00000001);
    cpu.interpret(&CPU::<MockBus>::transform("6e 10 15"), 100);
    assert!(!cpu.flags.contains(CpuFlags::ZERO));
}

#[test]
fn cpu_test_0x6a_ror_accumulator_zero_falg() {
    let mut cpu = CPU::new(MockBus::new());
    cpu.register_a = 1;
    cpu.interpret(&CPU::<MockBus>::transform("6a"), 100);
    assert!(cpu.flags.contains(CpuFlags::CARRY));
    assert!(cpu.flags.contains(CpuFlags::ZERO));
    assert_eq!(cpu.register_a, 0);
}

#[test]
fn cpu_test_0xbe_ldx_absolute_y() {
    let mut cpu = CPU::new(MockBus::new());
    cpu.mem_write(0x1166, 55);
    cpu.register_y = 0x66;
    cpu.interpret(&CPU::<MockBus>::transform("be 00 11"), 100);
    assert_eq!(cpu.register_x, 55);
}

#[test]
fn cpu_test_0xb4_ldy_zero_page_x() {
    let mut cpu = CPU::new(MockBus::new());
    cpu.mem_write(0x66, 55);
    cpu.register_x = 0x06;
    cpu.interpret(&CPU::<MockBus>::transform("b4 60"), 100);
    assert_eq!(cpu.register_y, 55);
}

#[test]
fn cpu_test_0xc8_iny() {
    let mut cpu = CPU::new(MockBus::new());
    cpu.register_y = 127;
    cpu.interpret(&CPU::<MockBus>::transform("c8"), 100);
    assert_eq!(cpu.register_y, 128);
    assert!(cpu.flags.contains(CpuFlags::NEGATIV));
}

#[test]
fn cpu_test_0xe8_inx() {
    let mut cpu = CPU::new(MockBus::new());
    cpu.register_x = 0xff;
    cpu.interpret(&CPU::<MockBus>::transform("e8"), 100);
    assert_eq!(cpu.register_x, 0);
    assert!(cpu.flags.contains(CpuFlags::ZERO));
}

#[test]
fn cpu_test_0x6c_jmp_indirect() {
    let mut cpu = CPU::new(MockBus::new());
    cpu.mem_write(0x0120, 0xfc);
    cpu.mem_write(0x0121, 0xba);
    cpu.interpret(&CPU::<MockBus>::transform("6c 20 01"), 100);
    assert_eq!(cpu.program_counter, 0xbafc);
}

#[test]
fn cpu_test_0x4c_jmp_absolute() {
    let mut cpu = CPU::new(MockBus::new());
    cpu.interpret(&CPU::<MockBus>::transform("4c 34 12"), 100);
    assert_eq!(cpu.program_counter, 0x1234);
}

#[test]
fn cpu_test_0xea_nop() {
    let mut cpu = CPU::new(MockBus::new());
    cpu.flags.insert(CpuFlags::CARRY);
    cpu.flags.insert(CpuFlags::NEGATIV);
    let flags = cpu.flags.clone();
    cpu.register_y = 1;
    cpu.register_x = 2;
    cpu.register_a = 3;

    cpu.interpret(&CPU::<MockBus>::transform("ea"), 100);
    assert_eq!(cpu.program_counter, 101);
    assert_eq!(cpu.register_y, 1);
    assert_eq!(cpu.register_x, 2);
    assert_eq!(cpu.register_a, 3);
    assert_eq!(cpu.register_a, 3);
    assert_eq!(cpu.flags, flags);
}

#[test]
fn cpu_test_0xaa_tax() {
    let mut cpu = CPU::new(MockBus::new());
    cpu.register_a = 66;
    cpu.interpret(&CPU::<MockBus>::transform("aa"), 100);
    assert_eq!(cpu.register_x, 66);
}

#[test]
fn cpu_test_0xa8_tay() {
    let mut cpu = CPU::new(MockBus::new());
    cpu.register_a = 66;
    cpu.interpret(&CPU::<MockBus>::transform("a8"), 100);
    assert_eq!(cpu.register_y, 66);
}

#[test]
fn cpu_test_0xba_tsx() {
    let mut cpu = CPU::new(MockBus::new());
    cpu.interpret(&CPU::<MockBus>::transform("ba"), 100);
    assert_eq!(cpu.register_x, STACK_RESET);
    assert!(cpu.flags.contains(CpuFlags::NEGATIV));
}

#[test]
fn cpu_test_0x8a_txa() {
    let mut cpu = CPU::new(MockBus::new());
    cpu.register_x = 66;
    cpu.interpret(&CPU::<MockBus>::transform("8a"), 100);
    assert_eq!(cpu.register_a, 66);
}

#[test]
fn cpu_test_0x9a_txs() {
    let mut cpu = CPU::new(MockBus::new());
    cpu.register_x = 0;
    cpu.interpret(&CPU::<MockBus>::transform("9a"), 100);
    assert_eq!(cpu.stack_pointer, 0);
    assert!(!cpu.flags.contains(CpuFlags::ZERO)); // should not affect flags
}

#[test]
fn cpu_test_0x98_tya() {
    let mut cpu = CPU::new(MockBus::new());
    cpu.register_y = 66;
    cpu.interpret(&CPU::<MockBus>::transform("98"), 100);
    assert_eq!(cpu.register_a, 66);
}

#[test]
fn test_0x20_jsr() {
    let mut cpu = CPU::new(MockBus::new());
    let pc = 100; //cpu.program_counter;
    cpu.interpret(&CPU::<MockBus>::transform("20 04 06"), 100);
    assert_eq!(cpu.program_counter, 0x604);
    assert_eq!(cpu.stack_pointer, STACK_RESET - 0x2);
    let return_pos = cpu.stack_pop_u16();
    assert_eq!(pc + 3 - 1, return_pos);
}

#[test]
fn test_0x60_rts() {
    let mut cpu = CPU::new(MockBus::new());
    /*
        JSR init
        BRK

        init:
        LDX #$05
        RTS
    */
    cpu.interpret(&CPU::<MockBus>::transform("20 69 00 00 00 a2 05 60"), 100);
    assert_eq!(cpu.program_counter, 108);
    assert_eq!(cpu.stack_pointer, STACK_RESET);
    assert_eq!(cpu.register_x, 0x5);
}

#[test]
fn test_0x40_rti() {
    let mut cpu = CPU::new(MockBus::new());
    cpu.flags.bits = 0b11000001;
    cpu.program_counter = 0x100;
    cpu.stack_push_u16(cpu.program_counter);
    cpu.stack_push(cpu.flags.bits);

    cpu.flags.bits = 0;
    cpu.program_counter = 0;
    cpu.interpret(&CPU::<MockBus>::transform("40"), 100);

    assert_eq!(cpu.flags.bits, 0b11100001);
    assert_eq!(cpu.program_counter, 0x100);
}

#[test]
fn test_0xc9_cmp_immidiate() {
    let mut cpu = CPU::new(MockBus::new());
    cpu.register_a = 0x6;
    cpu.interpret(&CPU::<MockBus>::transform("c9 05"), 100);
    assert!(cpu.flags.contains(CpuFlags::CARRY));

    cpu.program_counter = 0;
    cpu.flags.bits = 0;
    cpu.interpret(&CPU::<MockBus>::transform("c9 06"), 100);
    assert!(cpu.flags.contains(CpuFlags::CARRY));
    assert!(cpu.flags.contains(CpuFlags::ZERO));

    cpu.program_counter = 0;
    cpu.flags.bits = 0;
    cpu.interpret(&CPU::<MockBus>::transform("c9 07"), 100);
    assert!(!cpu.flags.contains(CpuFlags::CARRY));
    assert!(!cpu.flags.contains(CpuFlags::ZERO));
    assert!(cpu.flags.contains(CpuFlags::NEGATIV));

    cpu.program_counter = 0;
    cpu.flags.bits = 0;
    cpu.interpret(&CPU::<MockBus>::transform("c9 90"), 100);
    assert!(!cpu.flags.contains(CpuFlags::CARRY));
    assert!(!cpu.flags.contains(CpuFlags::ZERO));
    assert!(!cpu.flags.contains(CpuFlags::NEGATIV));
}

#[test]
fn test_0xd0_bne() {
    let mut cpu = CPU::new(MockBus::new());
    // jump
    cpu.flags.remove(CpuFlags::ZERO);
    cpu.interpret(&CPU::<MockBus>::transform("d0 04"), 100);
    assert_eq!(cpu.program_counter, 100 + 0x6);

    // no jump
    cpu.flags.insert(CpuFlags::ZERO);
    cpu.interpret(&CPU::<MockBus>::transform("d0 04"), 100);
    assert_eq!(cpu.program_counter, 100 + 0x02);
}

#[test]
fn test_0xd0_bne_snippet() {
    let mut cpu = CPU::new(MockBus::new());
    /*
        LDX #$08
    decrement:
        DEX
        INY
        CPX #$03
        BNE decrement
        BRK
    */
    cpu.interpret(&CPU::<MockBus>::transform("a2 08 ca c8 e0 03 d0 fa 00"), 100);
    assert_eq!(cpu.register_y, 5);
}

#[test]
fn test_0x24_bit() {
    let mut cpu = CPU::new(MockBus::new());
    cpu.register_a = 0b00000010;
    cpu.mem_write(0x10, 0b10111101);
    cpu.interpret(&CPU::<MockBus>::transform("24 10"), 100);

    assert!(cpu.flags.contains(CpuFlags::ZERO));
    assert!(cpu.flags.contains(CpuFlags::NEGATIV));
    assert!(!cpu.flags.contains(CpuFlags::OVERFLOW));
}

#[test]
fn test_unofficial_0xc7_dcp() {
    let mut cpu = CPU::new(MockBus::new());
    cpu.register_a = 2;
    cpu.mem_write(0x10, 3);

    cpu.interpret(&CPU::<MockBus>::transform("c7 10"), 100);

    assert_eq!(cpu.mem_read(0x10), 2);
    assert!(cpu.flags.contains(CpuFlags::CARRY));
    assert!(cpu.flags.contains(CpuFlags::ZERO));
    assert!(!cpu.flags.contains(CpuFlags::NEGATIV));
}

#[test]
fn test_unofficial_0x2f_rla() {
    let mut cpu = CPU::new(MockBus::new());
    cpu.register_a = 0b10000011;
    cpu.mem_write(0x1510, 0b10000001);
    cpu.interpret(&CPU::<MockBus>::transform("2f 10 15"), 100);
    assert_eq!(cpu.mem_read(0x1510), 0b00000010);
    assert!(cpu.flags.contains(CpuFlags::CARRY));
    assert_eq!(cpu.register_a, 0b00000010);
}

#[test]
fn test_unofficial_0xcb_axs() {
    let mut cpu = CPU::new(MockBus::new());
    cpu.register_a = 0b10000011;
    cpu.register_x = 0b10000001;

    cpu.interpret(&CPU::<MockBus>::transform("cb 10"), 100); //0b0010000

    assert_eq!(cpu.register_x, 0b1110001);
    assert!(cpu.flags.contains(CpuFlags::CARRY));
    assert!(!cpu.flags.contains(CpuFlags::NEGATIV));
    assert!(!cpu.flags.contains(CpuFlags::ZERO));
}

#[test]
fn test_unofficial_0x6b_arr() {
    let mut cpu = CPU::new(MockBus::new());
    cpu.register_a = 0b11010000;

    cpu.interpret(&CPU::<MockBus>::transform("6b 90"), 100); //0b10010000

    assert_eq!(cpu.register_a, 0b01001000);
    assert!(cpu.flags.contains(CpuFlags::CARRY));
    assert!(cpu.flags.contains(CpuFlags::OVERFLOW));
    assert!(!cpu.flags.contains(CpuFlags::NEGATIV));
    assert!(!cpu.flags.contains(CpuFlags::ZERO));
}

#[test]
fn test_unoffical_0x0b_anc() {
    let mut cpu = CPU::new(MockBus::new());
    cpu.register_a = 0b11010010;
    cpu.interpret(&CPU::<MockBus>::transform("0b 90"), 100); //0b10010000
    assert_eq!(cpu.register_a, 0b10010000);
    assert!(cpu.flags.contains(CpuFlags::NEGATIV));
    assert!(!cpu.flags.contains(CpuFlags::ZERO));
    assert!(cpu.flags.contains(CpuFlags::CARRY));
}

#[test]
fn test_0x00_brk() {
    let mut mem = MockBus::new();
    mem.space[0xfffe] = 110;
    mem.space[0xffff] = 0;
    let mut cpu = CPU::new(mem);
    cpu.flags.remove(CpuFlags::INTERRUPT_DISABLE);
    /*
        BRK
        DEX
        LDA #$00
        STA FE FF  //this is valid only in test env
        BRK

        brk:
        LDX #$05
        RTI
    */
    cpu.interpret(
        &CPU::<MockBus>::transform("00 00 ca a9 00 8d FE FF 00 00 a2 05 40"),
        100,
    ); //0b10010000
    assert_eq!(cpu.register_x, 4);
}

#[test]
fn test_0x00_nmi() {
    let mut bus = MockBus::new();

    bus.nmi_interrupt = Some(1u8);
    bus.space[0xfffA] = 104;
    bus.space[0xfffB] = 0;

    let mut cpu = CPU::new(bus);

    /*
        DEX
        JMP 106

        nmi:
        LDX #$05
        RTI
    */

    cpu.interpret(&CPU::<MockBus>::transform("ca 4c 6A 00 a2 05 40"), 100); //0b10010000
    assert_eq!(cpu.register_x, 4);
    assert_eq!(cpu.bus.cycles, 21);
}

#[test]
fn test_ololo() {
    let mut cpu = CPU::new(MockBus::new());
    cpu.register_a = 0b00000010;
    cpu.mem_write(0x10, 0b10111101);
    cpu.interpret(&CPU::<MockBus>::transform("24 10"), 100);

    assert!(cpu.flags.contains(CpuFlags::ZERO));
    assert!(cpu.flags.contains(CpuFlags::NEGATIV));
    assert!(!cpu.flags.contains(CpuFlags::OVERFLOW));
}

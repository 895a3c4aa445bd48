use rustness::bus::bus::MockBus;
use rustness::cpu::cpu::CPU;
use rustness::cpu::trace;

fn run_traced(cpu: &mut CPU<MockBus>, program_end: usize) -> Vec<String> {
    let mut result: Vec<String> = vec![];
    while (cpu.program_counter as usize) < program_end {
        result.push(trace(cpu));
        cpu.execute_next_op(program_end);
    }
    result
}

#[test]
fn test_format_trace() {
    let mut mem = MockBus::new();
    mem.space[100] = 0xa2;
    mem.space[101] = 0x01;
    mem.space[102] = 0xca;
    mem.space[103] = 0x88;
    let mut cpu = CPU::new(mem);
    cpu.program_counter = 0x64;
    cpu.register_a = 1;
    cpu.register_x = 2;
    cpu.register_y = 3;
    let result = run_traced(&mut cpu, 0x64 + 4);
    assert_eq!(
        "0064  A2 01     LDX #$01                        A:01 X:02 Y:03 P:24 SP:FD PPU:  0,  0 CYC:0",
        result[0]
    );
    assert_eq!(
        "0066  CA        DEX                             A:01 X:01 Y:03 P:24 SP:FD PPU:  0,  0 CYC:2",
        result[1]
    );
    assert_eq!(
        "0067  88        DEY                             A:01 X:00 Y:03 P:26 SP:FD PPU:  0,  0 CYC:4",
        result[2]
    ); //zero flag
}

#[test]
fn test_format_mem_access() {
    let mut mem = MockBus::new();
    // ORA ($33), Y
    mem.space[100] = 0x11;
    mem.space[101] = 0x33;

    //data
    mem.space[0x33] = 00;
    mem.space[0x34] = 04;
    mem.space[0x400] = 0xAA;
    let mut cpu = CPU::new(mem);
    cpu.program_counter = 0x64;
    cpu.register_y = 0;
    let result = run_traced(&mut cpu, 0x64 + 2);
    assert_eq!(
        "0064  11 33     ORA ($33),Y = 0400 @ 0400 = AA  A:00 X:00 Y:00 P:24 SP:FD PPU:  0,  0 CYC:0",
        result[0]
    );
}

fn trace_of(bytes: &[u8], setup: fn(&mut CPU<MockBus>)) -> String {
    let mut mem = MockBus::new();
    for (i, b) in bytes.iter().enumerate() {
        mem.space[0xc000 + i] = *b;
    }
    let mut cpu = CPU::new(mem);
    cpu.program_counter = 0xc000;
    setup(&mut cpu);
    trace(&mut cpu)
}

#[test]
fn test_trace_shows_each_addressing_mode() {
    let line = trace_of(&[0x4c, 0xf5, 0xc5], |_| {});
    assert_eq!(&line[..48], "C000  4C F5 C5  JMP $C5F5                       ");
    let line = trace_of(&[0x0a], |_| {});
    assert_eq!(&line[..48], "C000  0A        ASL A                           ");
    let line = trace_of(&[0x85, 0x10], |cpu| cpu.bus.space[0x10] = 0x7f);
    assert_eq!(&line[..48], "C000  85 10     STA $10 = 7F                    ");
    let line = trace_of(&[0xb5, 0xff], |cpu| {
        cpu.register_x = 2;
        cpu.bus.space[0x01] = 0x5a;
    });
    assert_eq!(&line[..48], "C000  B5 FF     LDA $FF,X @ 01 = 5A             ");
    let line = trace_of(&[0xb6, 0x10], |cpu| {
        cpu.register_y = 1;
        cpu.bus.space[0x11] = 0x22;
    });
    assert_eq!(&line[..48], "C000  B6 10     LDX $10,Y @ 11 = 22             ");
    let line = trace_of(&[0xa1, 0x80], |cpu| {
        cpu.register_x = 0;
        cpu.bus.space[0x80] = 0x00;
        cpu.bus.space[0x81] = 0x02;
        cpu.bus.space[0x0200] = 0x5a;
    });
    assert_eq!(&line[..48], "C000  A1 80     LDA ($80,X) @ 80 = 0200 = 5A    ");
    let line = trace_of(&[0xad, 0x34, 0x12], |cpu| cpu.bus.space[0x1234] = 0x99);
    assert_eq!(&line[..48], "C000  AD 34 12  LDA $1234 = 99                  ");
    let line = trace_of(&[0xbd, 0xff, 0x12], |cpu| {
        cpu.register_x = 1;
        cpu.bus.space[0x1300] = 0x42;
    });
    assert_eq!(&line[..48], "C000  BD FF 12  LDA $12FF,X @ 1300 = 42         ");
    let line = trace_of(&[0xb9, 0x00, 0x03], |cpu| {
        cpu.register_y = 0x10;
        cpu.bus.space[0x0310] = 0x43;
    });
    assert_eq!(&line[..48], "C000  B9 00 03  LDA $0300,Y @ 0310 = 43         ");
    let line = trace_of(&[0xd0, 0xfe], |_| {});
    assert_eq!(&line[..48], "C000  D0 FE     BNE $C000                       ");
    let line = trace_of(&[0x6c, 0xff, 0x02], |cpu| {
        cpu.bus.space[0x02ff] = 0x00;
        cpu.bus.space[0x0200] = 0x03;
        cpu.bus.space[0x0300] = 0x04;
    });
    assert_eq!(&line[..48], "C000  6C FF 02  JMP ($02FF) = 0300              ");
    let line = trace_of(&[0xa7, 0x10], |cpu| cpu.bus.space[0x10] = 0x01);
    assert_eq!(&line[..48], "C000  A7 10    *LAX $10 = 01                    ");
}

#[test]
fn test_trace_does_not_read_device_registers() {
    let line = trace_of(&[0xad, 0x02, 0x20], |cpu| {
        cpu.bus.space[0x2002] = 0x80;
        cpu.bus.cycles = 1234;
    });
    assert_eq!(
        line,
        "C000  AD 02 20  LDA $2002 = 00                  A:00 X:00 Y:00 P:24 SP:FD PPU:  0,  0 CYC:1234"
    );
}

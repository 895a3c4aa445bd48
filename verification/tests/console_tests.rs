use rustness::bus::bus::{map_mirrors, Bus, BusFault, CpuBus, MockBus};
use rustness::cpu::cpu::CPU;
use rustness::cpu::mem::Mem;
use rustness::cpu::trace;
use rustness::input::{Joypad, JoypadButton};
use rustness::ppu::ppu::{Addr, NesPPU, Scroll, PPU};
use rustness::ppu::registers::control::ControlRegister;
use rustness::ppu::registers::mask::MaskRegister;
use rustness::ppu::registers::status::StatusRegister;
use rustness::rom::ines::{Mirroring, Rom, RomFlags, TVFormat};

fn cartridge(prg_banks: usize, flags: u8) -> Rom {
    let mut prg_rom = vec![0xea; prg_banks * 16384];
    for (i, byte) in prg_rom.iter_mut().enumerate().take(16) {
        *byte = i as u8;
    }
    let n = prg_rom.len();
    prg_rom[n - 4] = 0x00;
    prg_rom[n - 3] = 0x80;
    Rom {
        trainer: None,
        prg_rom,
        chr_rom: vec![3; 8192],
        mapper: 0,
        tv_format: TVFormat::NTSC,
        ram_size: 0,
        rom_flags: RomFlags { bits: flags },
    }
}

#[test]
fn test_new_bus() {
    let bus = Bus::new(cartridge(1, 1));
    assert_eq!(bus.cycles, 7);
    assert_eq!(bus.ppu.cycles, 21);
    assert_eq!(bus.ppu.line, 0);
    assert_eq!(bus.nmi_interrupt, None);
    assert_eq!(bus.fault, None);
    assert!(!bus.frame_ready);
    assert!(bus.ram.iter().all(|b| *b == 0));
    assert_eq!(bus.ppu.chr_rom, vec![3; 8192]);
    assert_eq!(bus.ppu.mirroring, Mirroring::VERTICAL);
    assert_eq!(Bus::new(cartridge(1, 0)).ppu.mirroring, Mirroring::HORIZONTAL);
    assert_eq!(Bus::new(cartridge(1, 9)).ppu.mirroring, Mirroring::FOUR_SCREEN);
}

#[test]
fn test_mirrors_of_addresses() {
    assert_eq!(map_mirrors(0x0005), 0x0005);
    assert_eq!(map_mirrors(0x1805), 0x0005);
    assert_eq!(map_mirrors(0x1fff), 0x07ff);
    assert_eq!(map_mirrors(0x2008), 0x2000);
    assert_eq!(map_mirrors(0x3456), 0x2006);
    assert_eq!(map_mirrors(0x3fff), 0x2007);
    assert_eq!(map_mirrors(0x4000), 0x4000);
    assert_eq!(map_mirrors(0x8000), 0x8000);
}

#[test]
fn test_every_ram_address_reaches_its_byte() {
    let mut bus = Bus::new(cartridge(1, 0));
    for addr in 0..0x2000u16 {
        let data = (addr % 251) as u8 + 1;
        bus.write(addr, data);
        assert_eq!(bus.ram[(addr % 0x0800) as usize], data);
        assert_eq!(bus.read(addr), data);
        assert_eq!(bus.read(addr % 0x0800), data);
    }
    assert_eq!(bus.fault, None);
}

#[test]
fn test_every_register_mirror_is_its_register() {
    for addr in 0x2000..0x4000u16 {
        let mut mirror = Bus::new(cartridge(1, 0));
        let mut register = Bus::new(cartridge(1, 0));
        mirror.write(0x2006, 0x21);
        mirror.write(0x2006, 0x08);
        register.write(0x2006, 0x21);
        register.write(0x2006, 0x08);
        mirror.write(addr, 0x17);
        register.write(0x2000 + addr % 8, 0x17);
        assert_eq!(mirror.read(addr), register.read(0x2000 + addr % 8));
        assert_eq!(mirror.ppu.ctrl, register.ppu.ctrl);
        assert_eq!(mirror.ppu.mask, register.ppu.mask);
        assert_eq!(mirror.ppu.status, register.ppu.status);
        assert_eq!(mirror.ppu.oam_addr, register.ppu.oam_addr);
        assert_eq!(mirror.ppu.oam_data, register.ppu.oam_data);
        assert_eq!(mirror.ppu.scroll, register.ppu.scroll);
        assert_eq!(mirror.ppu.addr.read(), register.ppu.addr.read());
        assert_eq!(mirror.ppu.vram, register.ppu.vram);
        assert_eq!(mirror.ppu.read_data_buf, register.ppu.read_data_buf);
        assert_eq!(mirror.fault, register.fault);
    }
}

#[test]
fn test_oam_dma_wraps_in_sprite_memory() {
    let mut bus = Bus::new(cartridge(1, 0));
    for i in 0..256u16 {
        bus.write(i, (255 - i) as u8);
    }
    bus.write(0x2003, 0xf0);
    bus.write(0x4014, 0x08);
    for i in 0..256usize {
        assert_eq!(bus.ppu.oam_data[(0xf0 + i) % 256], (255 - i) as u8);
    }
    assert_eq!(bus.ppu.oam_addr, 0xf0);
    assert_eq!(bus.cycles, 7);
}

#[test]
fn test_prg_rom_of_one_bank_appears_twice() {
    let mut bus = Bus::new(cartridge(1, 0));
    assert_eq!(bus.read(0x8003), 3);
    assert_eq!(bus.read(0xc003), 3);
    assert_eq!(bus.read_u16(0xfffc), 0x8000);
    let mut bus = Bus::new(cartridge(2, 0));
    assert_eq!(bus.read(0x8003), 3);
    assert_eq!(bus.read(0xc003), 0xea);
    assert_eq!(bus.read_u16(0xfffc), 0x8000);
}

#[test]
fn test_unmapped_space_reads_zero() {
    let mut bus = Bus::new(cartridge(1, 0));
    for addr in [0x2000u16, 0x2001, 0x2003, 0x2005, 0x2006, 0x4000, 0x4013, 0x4014, 0x4015] {
        assert_eq!(bus.read(addr), 0);
    }
    for addr in [0x4020u16, 0x5fff, 0x6000, 0x7fff] {
        bus.write(addr, 0x55);
        assert_eq!(bus.read(addr), 0);
    }
    bus.write(0x4000, 1);
    bus.write(0x4015, 1);
    assert_eq!(bus.fault, None);
}

#[test]
fn test_illegal_accesses_are_latched() {
    let mut bus = Bus::new(cartridge(1, 0));
    bus.write(0x8000, 0x55);
    assert_eq!(bus.fault, Some(BusFault::IllegalWrite(0x8000)));
    assert_eq!(bus.read(0x8000), 0);
    bus.write(0x2002, 1);
    assert_eq!(bus.fault, Some(BusFault::IllegalWrite(0x8000)));
    let mut bus = Bus::new(cartridge(1, 0));
    bus.write(0x3ffa, 1);
    assert_eq!(bus.fault, Some(BusFault::IllegalWrite(0x2002)));
    let mut bus = Bus::new(cartridge(1, 0));
    assert_eq!(bus.read(0x4018), 0);
    assert_eq!(bus.fault, Some(BusFault::Unmapped(0x4018)));
    let mut bus = Bus::new(cartridge(1, 0));
    bus.write(0x401f, 0);
    assert_eq!(bus.fault, Some(BusFault::Unmapped(0x401f)));
}

#[test]
fn test_joypad_protocol() {
    let mut joypad = Joypad::new();
    joypad.set_button_pressed_status(JoypadButton::BUTTON_A, true);
    joypad.set_button_pressed_status(JoypadButton::START, true);
    joypad.set_button_pressed_status(JoypadButton::RIGHT, true);
    joypad.set_button_pressed_status(JoypadButton::RIGHT, false);
    joypad.write(1);
    // while the strobe is high every read reports A
    assert_eq!(joypad.read(), 1);
    assert_eq!(joypad.read(), 1);
    joypad.write(0);
    let reads: Vec<u8> = (0..10).map(|_| joypad.read()).collect();
    assert_eq!(reads, vec![1, 0, 0, 1, 0, 0, 0, 0, 1, 1]);
    joypad.write(1);
    joypad.write(0);
    assert_eq!(joypad.read(), 1);
    assert_eq!(joypad.read(), 0);
}

#[test]
fn test_joypads_on_the_bus() {
    let mut bus = Bus::new(cartridge(1, 0));
    bus.joypad1.set_button_pressed_status(JoypadButton::BUTTON_B, true);
    bus.joypad2.set_button_pressed_status(JoypadButton::SELECT, true);
    bus.write(0x4016, 1);
    bus.write(0x4016, 0);
    bus.write(0x4017, 1);
    bus.write(0x4017, 0);
    assert_eq!([bus.read(0x4016), bus.read(0x4016), bus.read(0x4016)], [0, 1, 0]);
    assert_eq!([bus.read(0x4017), bus.read(0x4017), bus.read(0x4017)], [0, 0, 1]);
}

#[test]
fn test_tick_hands_three_dots_per_cycle() {
    let mut bus = Bus::new(cartridge(1, 0));
    assert!(!bus.tick(100));
    assert_eq!(bus.cycles, 107);
    assert_eq!(bus.ppu.cycles, 321);
    assert_eq!(bus.ppu.line, 0);
    assert!(!bus.tick(14));
    assert_eq!(bus.ppu.cycles, 22);
    assert_eq!(bus.ppu.line, 1);
    assert_eq!(bus.trace().cpu_cycles, 121);
    assert_eq!(bus.trace().ppu_cycles, 22);
    assert_eq!(bus.trace().ppu_scanline, 1);
}

fn run_lines(ppu: &mut NesPPU, lines: usize) -> bool {
    let mut frame = false;
    for _ in 0..lines {
        frame = ppu.tick(341) || frame;
    }
    frame
}

#[test]
fn test_vertical_blank_and_frame() {
    let mut ppu = NesPPU::new(vec![0; 8192], Mirroring::HORIZONTAL);
    ppu.write_to_ctrl(0x80);
    assert!(!run_lines(&mut ppu, 240));
    assert_eq!(ppu.line, 240);
    assert_eq!(ppu.status.snapshot() & 0x80, 0);
    assert_eq!(ppu.nmi_interrupt, None);
    assert!(!ppu.tick(341));
    assert_eq!(ppu.line, 241);
    assert_eq!(ppu.status.snapshot() & 0x80, 0x80);
    assert_eq!(ppu.poll_nmi_interrupt(), Some(1));
    assert_eq!(ppu.poll_nmi_interrupt(), None);
    assert!(!run_lines(&mut ppu, 19));
    assert_eq!(ppu.line, 260);
    assert_eq!(ppu.status.snapshot() & 0x80, 0x80);
    assert_eq!(ppu.nmi_interrupt, None);
    assert!(!ppu.tick(341));
    assert_eq!(ppu.line, 261);
    assert_eq!(ppu.status.snapshot() & 0xe0, 0);
    assert!(ppu.tick(341));
    assert_eq!(ppu.line, 0);
    assert_eq!(ppu.cycles, 0);
}

#[test]
fn test_no_nmi_without_the_control_bit() {
    let mut ppu = NesPPU::new(vec![0; 8192], Mirroring::HORIZONTAL);
    run_lines(&mut ppu, 241);
    assert_eq!(ppu.status.snapshot() & 0x80, 0x80);
    assert_eq!(ppu.nmi_interrupt, None);
    // switching the bit on during the blank raises the NMI at once
    ppu.write_to_ctrl(0x80);
    assert_eq!(ppu.nmi_interrupt, Some(1));
    ppu.poll_nmi_interrupt();
    ppu.write_to_ctrl(0x80);
    assert_eq!(ppu.nmi_interrupt, None);
}

#[test]
fn test_sprite_zero_hit() {
    let mut ppu = NesPPU::new(vec![0; 8192], Mirroring::HORIZONTAL);
    ppu.write_to_mask(0x10);
    ppu.oam_data[0] = 2;
    ppu.oam_data[3] = 100;
    run_lines(&mut ppu, 2);
    assert_eq!(ppu.status.snapshot() & 0x40, 0);
    ppu.tick(341);
    assert_eq!(ppu.status.snapshot() & 0x40, 0x40);
    assert!(ppu.has_sprite_hit(100) == false);
    run_lines(&mut ppu, 238);
    assert_eq!(ppu.line, 241);
    assert_eq!(ppu.status.snapshot() & 0x40, 0);
}

#[test]
fn test_bus_latches_nmi_and_frame() {
    let mut bus = Bus::new(cartridge(1, 0));
    bus.write(0x2000, 0x80);
    let mut cpu = CPU::new(bus);
    cpu.program_counter = 0x8010;
    // NOPs from the cartridge: two cycles, six dots each
    let mut steps = 0;
    while cpu.bus.nmi_interrupt.is_none() {
        cpu.execute_next_op(0xffff);
        steps += 1;
        assert!(steps < 20000);
    }
    assert_eq!(cpu.bus.ppu.line, 241);
    assert_eq!(cpu.bus.nmi_interrupt, Some(1));
    assert_eq!(Bus::poll_nmi_status(&mut cpu.bus), Some(1));
    assert_eq!(Bus::poll_nmi_status(&mut cpu.bus), None);
    while !cpu.bus.frame_ready {
        cpu.execute_next_op(0xffff);
        steps += 1;
        assert!(steps < 20000);
    }
    assert_eq!(cpu.bus.ppu.line, 0);
    assert!(cpu.bus.take_frame());
    assert!(!cpu.bus.take_frame());
    assert_eq!(cpu.bus.fault, None);
}

#[test]
fn test_trace_on_the_console_bus() {
    let mut bus = Bus::new(cartridge(1, 0));
    bus.tick(121);
    let mut cpu = CPU::new(bus);
    cpu.program_counter = 0x8010;
    assert_eq!(
        trace(&mut cpu),
        "8010  EA        NOP                             A:00 X:00 Y:00 P:24 SP:FD PPU:  1, 43 CYC:128"
    );
}

#[test]
fn test_data_reads_are_buffered_and_palette_reads_are_not() {
    let mut chr_rom = vec![0; 8192];
    chr_rom[0x0123] = 0x99;
    chr_rom[0x0124] = 0x9a;
    let mut ppu = NesPPU::new(chr_rom, Mirroring::VERTICAL);
    ppu.read_data_buf = 0x11;
    ppu.write_to_ppu_addr(0x01);
    ppu.write_to_ppu_addr(0x23);
    assert_eq!(ppu.read_data(), 0x11);
    assert_eq!(ppu.read_data(), 0x99);
    assert_eq!(ppu.read_data(), 0x9a);
    ppu.palette_table[5] = 0x2a;
    ppu.write_to_ppu_addr(0x3f);
    ppu.write_to_ppu_addr(0x05);
    let buffer = ppu.read_data_buf;
    assert_eq!(ppu.read_data(), 0x2a);
    assert_eq!(ppu.read_data_buf, buffer);
    assert_eq!(ppu.addr.read(), 0x3f06);
}

#[test]
fn test_palette_mirrors() {
    let mut ppu = NesPPU::new_empty_rom();
    ppu.write_to_ppu_addr(0x3f);
    ppu.write_to_ppu_addr(0x10);
    ppu.write_to_data(0x21);
    assert_eq!(ppu.palette_table[0], 0x21);
    ppu.write_to_ppu_addr(0x3f);
    ppu.write_to_ppu_addr(0x25);
    ppu.write_to_data(0x22);
    assert_eq!(ppu.palette_table[5], 0x22);
    ppu.write_to_ppu_addr(0x3f);
    ppu.write_to_ppu_addr(0xe5);
    assert_eq!(ppu.read_data(), 0x22);
}

#[test]
fn test_name_table_mirrors_at_3000() {
    let mut ppu = NesPPU::new_empty_rom();
    ppu.write_to_ppu_addr(0x30);
    ppu.write_to_ppu_addr(0x05);
    ppu.write_to_data(0x66);
    assert_eq!(ppu.vram[0x0005], 0x66);
    assert_eq!(ppu.mirror_vram_addr(0x3005), 5);
}

#[test]
fn test_mirroring_tables() {
    let horizontal = NesPPU::new(vec![], Mirroring::HORIZONTAL);
    let vertical = NesPPU::new(vec![], Mirroring::VERTICAL);
    let four = NesPPU::new(vec![], Mirroring::FOUR_SCREEN);
    for offset in [0u16, 1, 0x3ff] {
        assert_eq!(horizontal.mirror_vram_addr(0x2000 + offset), offset);
        assert_eq!(horizontal.mirror_vram_addr(0x2400 + offset), offset);
        assert_eq!(horizontal.mirror_vram_addr(0x2800 + offset), 0x400 + offset);
        assert_eq!(horizontal.mirror_vram_addr(0x2c00 + offset), 0x400 + offset);
        assert_eq!(vertical.mirror_vram_addr(0x2000 + offset), offset);
        assert_eq!(vertical.mirror_vram_addr(0x2400 + offset), 0x400 + offset);
        assert_eq!(vertical.mirror_vram_addr(0x2800 + offset), offset);
        assert_eq!(vertical.mirror_vram_addr(0x2c00 + offset), 0x400 + offset);
        assert_eq!(four.mirror_vram_addr(0x2c00 + offset), 0xc00 + offset);
    }
    assert_eq!(four.read_vram(0xc00), 0);
    assert_eq!(four.read_chr(0), 0);
}

#[test]
fn test_pattern_memory_is_read_only() {
    let mut ppu = NesPPU::new(vec![7; 8192], Mirroring::HORIZONTAL);
    ppu.write_to_ppu_addr(0x03);
    ppu.write_to_ppu_addr(0x05);
    ppu.write_to_data(0x66);
    assert_eq!(ppu.chr_rom[0x0305], 7);
    assert_eq!(ppu.addr.read(), 0x0306);
}

#[test]
fn test_address_latch() {
    let mut addr = Addr::new();
    addr.udpate(0x12);
    addr.udpate(0x34);
    assert_eq!(addr.read(), 0x1234);
    addr.increment(0xcc);
    assert_eq!(addr.read(), 0x1300);
    addr.set(0xffff);
    addr.increment(32);
    assert_eq!(addr.read(), 0x001f);
    addr.udpate(0x56);
    assert_eq!(addr.read(), 0x561f);
    addr.reset_latch();
    addr.udpate(0x78);
    assert_eq!(addr.read(), 0x781f);
}

#[test]
fn test_scroll_latch() {
    let mut scroll = Scroll::new();
    scroll.write(1);
    scroll.write(2);
    scroll.write(3);
    assert_eq!((scroll.scroll_x, scroll.scroll_y), (3, 2));
    scroll.reset_latch();
    scroll.write(4);
    assert_eq!((scroll.scroll_x, scroll.scroll_y), (4, 2));
    let mut ppu = NesPPU::new_empty_rom();
    ppu.write_to_scroll(9);
    ppu.read_status();
    ppu.write_to_scroll(8);
    assert_eq!((ppu.scroll.scroll_x, ppu.scroll.scroll_y), (8, 0));
}

#[test]
fn test_flag_registers() {
    let mut ctrl = ControlRegister::new();
    assert_eq!(ctrl.nametable_addr(), 0x2000);
    assert_eq!(ctrl.vram_addr_increment(), 1);
    assert_eq!(ctrl.sprt_pattern_addr(), 0);
    assert_eq!(ctrl.bknd_pattern_addr(), 0);
    assert_eq!(ctrl.sprite_size(), 8);
    assert_eq!(ctrl.master_slave_select(), 0);
    assert!(!ctrl.generate_vblank_nmi());
    ctrl.update(0xff);
    assert_eq!(ctrl.nametable_addr(), 0x2c00);
    assert_eq!(ctrl.vram_addr_increment(), 32);
    assert_eq!(ctrl.sprt_pattern_addr(), 0x1000);
    assert_eq!(ctrl.bknd_pattern_addr(), 0x1000);
    assert_eq!(ctrl.sprite_size(), 16);
    assert_eq!(ctrl.master_slave_select(), 1);
    assert!(ctrl.generate_vblank_nmi());
    ctrl.update(0b10);
    assert_eq!(ctrl.nametable_addr(), 0x2800);
    let mut mask = MaskRegister::new();
    assert!(!mask.show_background() && !mask.show_sprites() && !mask.is_grayscale());
    mask.update(0b0001_1111);
    assert!(mask.show_background() && mask.show_sprites() && mask.is_grayscale());
    assert!(mask.leftmost_8pxl_background() && mask.leftmost_8pxl_sprite());
    let mut status = StatusRegister::new();
    status.set_vblank_status(true);
    status.set_sprite_zero_hit(true);
    status.set_sprite_overflow(true);
    assert_eq!(status.snapshot(), 0xe0);
    assert!(status.is_in_vblank());
    status.reset_vblank_status();
    status.set_sprite_overflow(false);
    assert_eq!(status.snapshot(), 0x40);
}

#[test]
fn test_mock_bus() {
    let mut bus = MockBus::new();
    bus.write_u16(0xffff, 0x1234);
    assert_eq!(bus.space[0xffff], 0x34);
    assert_eq!(bus.space[0x0000], 0x12);
    assert_eq!(bus.read_u16(0xffff), 0x1234);
    bus.tick(255);
    bus.tick(1);
    assert_eq!(bus.trace().cpu_cycles, 256);
    assert_eq!(bus.trace().ppu_cycles, 0);
    bus.nmi_interrupt = Some(3);
    assert_eq!(bus.poll_nmi_status(), Some(3));
    assert_eq!(bus.poll_nmi_status(), None);
}

#[test]
fn test_trace_of_the_first_instructions_after_reset() {
    let mut rom = cartridge(1, 0);
    rom.prg_rom[0x0000..0x0003].copy_from_slice(&[0x4c, 0xf5, 0xc5]);
    rom.prg_rom[0x05f5..0x05fb].copy_from_slice(&[0xa2, 0x00, 0x86, 0x00, 0x86, 0x10]);
    let mut cpu = CPU::new(Bus::new(rom));
    cpu.program_counter = 0xc000;
    let mut lines = vec![];
    for _ in 0..4 {
        lines.push(trace(&mut cpu));
        cpu.execute_next_op(0xffff);
    }
    assert_eq!(
        lines,
        vec![
            "C000  4C F5 C5  JMP $C5F5                       A:00 X:00 Y:00 P:24 SP:FD PPU:  0, 21 CYC:7",
            "C5F5  A2 00     LDX #$00                        A:00 X:00 Y:00 P:24 SP:FD PPU:  0, 30 CYC:10",
            "C5F7  86 00     STX $00 = 00                    A:00 X:00 Y:00 P:26 SP:FD PPU:  0, 36 CYC:12",
            "C5F9  86 10     STX $10 = 00                    A:00 X:00 Y:00 P:26 SP:FD PPU:  0, 45 CYC:15",
        ]
    );
}

#[test]
fn test_trace_puts_the_scanline_first() {
    let mut bus = Bus::new(cartridge(1, 0));
    bus.ppu.line = 123;
    bus.ppu.cycles = 45;
    let mut cpu = CPU::new(bus);
    cpu.program_counter = 0x8010;
    assert!(trace(&mut cpu).ends_with(" PPU:123, 45 CYC:7"));
}

#[test]
fn test_strict_write_returns_the_fault_and_changes_nothing() {
    let mut bus = Bus::new(cartridge(1, 0));
    for addr in [0x8000u16, 0xc123, 0xffff] {
        assert_eq!(bus.try_write(addr, 0x55), Err(BusFault::IllegalWrite(addr)));
    }
    assert_eq!(bus.try_write(0x2002, 1), Err(BusFault::IllegalWrite(0x2002)));
    assert_eq!(bus.try_write(0x3ffa, 1), Err(BusFault::IllegalWrite(0x2002)));
    assert_eq!(bus.try_write(0x4018, 1), Err(BusFault::Unmapped(0x4018)));
    assert_eq!(bus.fault, None);
    assert_eq!(bus.rom.prg_rom[0], 0);
    assert_eq!(bus.try_read(0x8003), Ok(3));
    assert!(bus.ram.iter().all(|b| *b == 0));
    assert_eq!(bus.try_write(0x0801, 0x55), Ok(()));
    assert_eq!(bus.ram[1], 0x55);
    assert_eq!(bus.try_write(0x7fff, 0x55), Ok(()));
    assert_eq!(bus.try_write(0x2000, 0x80), Ok(()));
    assert_eq!(bus.ppu.ctrl.bits, 0x80);
}

#[test]
fn test_strict_read_returns_the_fault_and_changes_nothing() {
    let mut bus = Bus::new(cartridge(1, 0));
    assert_eq!(bus.try_read(0x4018), Err(BusFault::Unmapped(0x4018)));
    assert_eq!(bus.try_read(0x401f), Err(BusFault::Unmapped(0x401f)));
    assert_eq!(bus.fault, None);
    assert_eq!(bus.try_read(0x4017), Ok(0));
    assert_eq!(bus.try_read(0x4020), Ok(0));
    bus.ram[5] = 9;
    assert_eq!(bus.try_read(0x1805), Ok(9));
    bus.ppu.status.set_vblank_status(true);
    assert_eq!(bus.try_read(0x2002), Ok(0x80));
    assert_eq!(bus.try_read(0x2002), Ok(0x00));
}

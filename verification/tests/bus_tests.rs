use rustness::bus::bus::Bus;
use rustness::input::Joypad;
use rustness::ppu::ppu::{stub_ppu, MockPPU};
use rustness::rom::ines::{Rom, RomFlags, TVFormat};

fn test_rom() -> Rom {
    Rom {
        trainer: None,
        prg_rom: vec![1; 2 * 16384],
        chr_rom: vec![2; 8192],
        mapper: 0,
        tv_format: TVFormat::NTSC,
        ram_size: 0,
        rom_flags: RomFlags { bits: 0 },
    }
}

fn stub_bus() -> Bus<MockPPU> {
    Bus {
        ram: [0; 0x800],
        rom: test_rom(),
        nmi_interrupt: None,
        cycles: 0,
        ppu: stub_ppu(),
        joypad1: Joypad::new(),
        joypad2: Joypad::new(),
        frame_ready: false,
        fault: None,
    }
}

#[test]
fn test_ram_mirrors() {
    let mut bus = stub_bus();

    bus.write(0x1005, 0x66);
    assert_eq!(bus.read(0x0005), 0x66);
    assert_eq!(bus.read(0x0805), 0x66);
    assert_eq!(bus.read(0x1805), 0x66);

    bus.write(0x1805, 0x55);
    assert_eq!(bus.read(0x0005), 0x55);
    assert_eq!(bus.read(0x0805), 0x55);
    assert_eq!(bus.read(0x1005), 0x55);
}

#[test]
fn test_ppu_register_mirrors() {
    let mut bus = stub_bus();

    bus.write(0x2008, 1);
    assert_eq!(bus.ppu.ctrl, 1);

    // from: https://wiki.nesdev.com/w/index.php/PPU_registers
    //a write to $3456 is the same as a write to $2006.
    bus.write(0x3456, 5);
    assert_eq!(bus.ppu.addr, 5);
}

#[test]
fn test_write_to_0x4014_oam_dma() {
    let mut bus = stub_bus();
    let base = 0x0800;
    for i in 0..255u8 {
        bus.write(base + i as u16, i);
    }

    bus.write(0x4014, 0x08);

    assert!(
        bus.ppu.oam.iter().zip(0..255u8).all(|(a, b)| *a == b),
        "oam data arrrays are not equal"
    );
}

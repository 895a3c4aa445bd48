//! What the processor needs from a bus, the bus of the console, and a flat
//! 64 KiB bus without devices.
//!
//! ```text
//!  _______________ $10000  _______________
//! | PRG-ROM       |       |               |
//! | Upper Bank    |       |               |
//! |_ _ _ _ _ _ _ _| $C000 | PRG-ROM       |
//! | PRG-ROM       |       |               |
//! | Lower Bank    |       |               |
//! |_______________| $8000 |_______________|
//! | SRAM          |       | SRAM          |
//! |_______________| $6000 |_______________|
//! | Expansion ROM |       | Expansion ROM |
//! |_______________| $4020 |_______________|
//! | I/O Registers |       |               |
//! |_ _ _ _ _ _ _ _| $4000 |               |
//! | Mirrors       |       | I/O Registers |
//! | $2000-$2007   |       |               |
//! |_ _ _ _ _ _ _ _| $2008 |               |
//! | I/O Registers |       |               |
//! |_______________| $2000 |_______________|
//! | Mirrors       |       |               |
//! | $0000-$07FF   |       |               |
//! |_ _ _ _ _ _ _ _| $0800 |               |
//! | RAM           |       | RAM           |
//! |_ _ _ _ _ _ _ _| $0200 |               |
//! | Stack         |       |               |
//! |_ _ _ _ _ _ _ _| $0100 |               |
//! | Zero Page     |       |               |
//! |_______________| $0000 |_______________|
//! ```

use vstd::prelude::*;
use vstd::array::{spec_array_fill_for_copy_type, spec_array_update};
use crate::cpu::mem::Mem;
use crate::input::Joypad;
use crate::ppu::ppu::{NesPPU, PPU};
use crate::rom::ines::Rom;

verus! {

/// Counters that a bus reports for the trace line.
#[derive(Clone, Copy, Debug, PartialEq, Eq, Structural)]
pub struct BusTrace {
    pub cpu_cycles: usize,
    pub ppu_cycles: usize,
    pub ppu_scanline: usize,
}

/// A bus that keeps time and carries the NMI line.
pub trait CpuBus: Mem {
    /// The NMI that a poll finds latched.
    spec fn pending_nmi(&self) -> Option<u8>;

    /// The state after the latch was polled.
    spec fn after_poll(&self) -> Self;

    /// The state after `cycles` processor cycles went by.
    spec fn after_tick(&self, cycles: u8) -> Self;

    /// The counters that `trace` reports.
    spec fn counters(&self) -> BusTrace;

    /// Takes the latched NMI: a signal is seen once.
    fn poll_nmi_status(&mut self) -> (nmi: Option<u8>)
        ensures
            nmi == old(self).pending_nmi(),
            *final(self) == old(self).after_poll(),
    ;

    fn tick(&mut self, cycles: u8)
        ensures
            *final(self) == old(self).after_tick(cycles),
    ;

    fn trace(&self) -> (counters: BusTrace)
        ensures
            counters == self.counters(),
    ;

    /// The stack page is memory: a byte written there is the byte read back.
    proof fn stack_page_holds(&self, pos: u16, data: u8)
        requires
            0x0100 <= pos <= 0x01ff,
        ensures
            self.after_write(pos, data).value_at(pos) == data,
    ;

    /// Only `tick` moves the cycle counter, and it moves it by the cycles
    /// given (the counter wraps at the machine word).
    proof fn clock_moves_on_tick_only(&self, pos: u16, data: u8, cycles: u8)
        ensures
            self.after_write(pos, data).counters().cpu_cycles == self.counters().cpu_cycles,
            self.after_read(pos).counters().cpu_cycles == self.counters().cpu_cycles,
            self.after_poll().counters().cpu_cycles == self.counters().cpu_cycles,
            self.after_tick(cycles).counters().cpu_cycles
                == self.counters().cpu_cycles.wrapping_add(cycles as usize),
    ;
}

/// A bus of plain memory: every address holds what was last written to it.
pub struct MockBus {
    pub space: [u8; 0x10000],
    pub nmi_interrupt: Option<u8>,
    pub cycles: usize,
}

impl Mem for MockBus {
    open spec fn after_write(&self, pos: u16, data: u8) -> Self {
        MockBus { space: spec_array_update(self.space, pos as int, data), ..*self }
    }

    open spec fn value_at(&self, pos: u16) -> u8 {
        self.space[pos as int]
    }

    open spec fn after_read(&self, pos: u16) -> Self {
        *self
    }

    fn write(&mut self, pos: u16, data: u8) {
        self.space[pos as usize] = data
    }

    fn read(&mut self, pos: u16) -> (value: u8) {
        self.space[pos as usize]
    }
}

impl CpuBus for MockBus {
    open spec fn pending_nmi(&self) -> Option<u8> {
        self.nmi_interrupt
    }

    open spec fn after_poll(&self) -> Self {
        MockBus { nmi_interrupt: None, ..*self }
    }

    open spec fn after_tick(&self, cycles: u8) -> Self {
        MockBus { cycles: self.cycles.wrapping_add(cycles as usize), ..*self }
    }

    open spec fn counters(&self) -> BusTrace {
        BusTrace { cpu_cycles: self.cycles, ppu_cycles: 0, ppu_scanline: 0 }
    }

    fn poll_nmi_status(&mut self) -> (nmi: Option<u8>) {
        self.nmi_interrupt.take()
    }

    fn tick(&mut self, cycles: u8) {
        self.cycles = self.cycles.wrapping_add(cycles as usize);
    }

    fn trace(&self) -> (counters: BusTrace) {
        BusTrace { cpu_cycles: self.cycles, ppu_cycles: 0, ppu_scanline: 0 }
    }

    proof fn stack_page_holds(&self, pos: u16, data: u8) {
    }

    proof fn clock_moves_on_tick_only(&self, pos: u16, data: u8, cycles: u8) {
    }
}

impl MockBus {
    pub fn new() -> (bus: MockBus)
        ensures
            bus.nmi_interrupt is None,
            bus.cycles == 0,
            forall|pos: int| 0 <= pos < 0x10000 ==> bus.space[pos] == 0,
    {
        MockBus { space: [0;0x10000], nmi_interrupt: None, cycles: 0 }
    }
}

/// An access that the memory map has no place for. The bus goes on and
/// keeps the first of them for the host.
#[derive(Clone, Copy, Debug, PartialEq, Eq, Structural)]
pub enum BusFault {
    /// A write to PRG-ROM, or to the read-only status register at $2002
    /// through any of its mirrors.
    IllegalWrite(u16),
    /// An access to $4018-$401F, which nothing decodes.
    Unmapped(u16),
}

/// The bus of the console: work RAM, the picture unit's registers, the
/// controllers and the cartridge.
pub struct Bus<T> {
    pub ram: [u8; 0x800],
    pub rom: Rom,
    /// The NMI latch: set by the picture unit, taken by the processor.
    pub nmi_interrupt: Option<u8>,
    pub cycles: usize,
    pub ppu: T,
    pub joypad1: Joypad,
    pub joypad2: Joypad,
    /// Set when the picture unit completes a frame; the host takes it.
    pub frame_ready: bool,
    pub fault: Option<BusFault>,
}

/// The address that `pos` mirrors: work RAM repeats every $0800 up to
/// $1FFF, the eight registers of the picture unit every 8 up to $3FFF.
pub open spec fn mirror_of(pos: u16) -> u16 {
    if pos < 0x2000 {
        pos % 0x800
    } else if pos < 0x4000 {
        (0x2000 + pos % 8) as u16
    } else {
        pos
    }
}

/// The fault of a write to `pos`, for the addresses that take no write:
/// the status register of the picture unit at $2002 and its mirrors, the
/// undecoded $4018-$401F and the PRG-ROM from $8000 on.
pub open spec fn write_fault(pos: u16) -> Option<BusFault> {
    if 0x2000 <= pos < 0x4000 && pos % 8 == 2 {
        Some(BusFault::IllegalWrite(mirror_of(pos)))
    } else if 0x4018 <= pos < 0x4020 {
        Some(BusFault::Unmapped(pos))
    } else if pos >= 0x8000 {
        Some(BusFault::IllegalWrite(pos))
    } else {
        None
    }
}

/// The fault of a read of `pos`, for the undecoded $4018-$401F.
pub open spec fn read_fault(pos: u16) -> Option<BusFault> {
    if 0x4018 <= pos < 0x4020 {
        Some(BusFault::Unmapped(pos))
    } else {
        None
    }
}

pub fn map_mirrors(pos: u16) -> (mapped: u16)
    ensures
        mapped == mirror_of(pos),
{
    if pos < 0x2000 {
        pos % 0x800
    } else if pos < 0x4000 {
        0x2000 + pos % 8
    } else {
        pos
    }
}

impl<T: PPU> Bus<T> {
    /// The bus with `fault` kept, unless an earlier one is.
    pub open spec fn faulted(self, fault: BusFault) -> Self {
        Bus {
            fault: if self.fault is Some {
                self.fault
            } else {
                Some(fault)
            },
            ..self
        }
    }

    /// The byte of PRG-ROM behind `pos`, an address from $8000 on. A bank of
    /// 16 KiB appears twice. Behind the end of the ROM the bus reads 0.
    pub open spec fn read_prg_rom_spec(self, pos: u16) -> u8 {
        let offset = pos - 0x8000;
        let index = if self.rom.prg_rom@.len() == 0x4000 {
            offset % 0x4000
        } else {
            offset
        };
        if 0 <= index < self.rom.prg_rom@.len() {
            self.rom.prg_rom@[index]
        } else {
            0
        }
    }

    /// What a read of `pos` returns and leaves behind.
    pub open spec fn read_spec(self, pos: u16) -> (Self, u8) {
        if pos < 0x2000 {
            (self, self.ram[(pos % 0x800) as int])
        } else if pos < 0x4000 {
            if pos % 8 == 2 {
                let status = self.ppu.read_status_spec();
                (Bus { ppu: status.0, ..self }, status.1)
            } else if pos % 8 == 4 {
                (self, self.ppu.read_oam_data_spec())
            } else if pos % 8 == 7 {
                let data = self.ppu.read_data_spec();
                (Bus { ppu: data.0, ..self }, data.1)
            } else {
                (self, 0)
            }
        } else if pos == 0x4016 {
            let button = self.joypad1.read_spec();
            (Bus { joypad1: button.0, ..self }, button.1)
        } else if pos == 0x4017 {
            let button = self.joypad2.read_spec();
            (Bus { joypad2: button.0, ..self }, button.1)
        } else if pos < 0x4018 {
            (self, 0)
        } else if pos < 0x4020 {
            (self.faulted(BusFault::Unmapped(pos)), 0)
        } else if pos < 0x8000 {
            (self, 0)
        } else {
            (self, self.read_prg_rom_spec(pos))
        }
    }

    /// The bus and the bytes fetched after the first `count` reads of the
    /// page `page`, as the sprite DMA makes them.
    pub open spec fn dma_fetched(self, page: u8, count: nat) -> (Self, [u8; 256])
        decreases count,
    {
        if count == 0 {
            (self, spec_array_fill_for_copy_type::<u8, 256>(0))
        } else {
            let before = self.dma_fetched(page, (count - 1) as nat);
            let byte = before.0.read_spec((page * 256 + count - 1) as u16);
            (byte.0, spec_array_update(before.1, count - 1, byte.1))
        }
    }

    /// What a write of `data` to `pos` leaves behind.
    pub open spec fn write_spec(self, pos: u16, data: u8) -> Self {
        if pos < 0x2000 {
            Bus { ram: spec_array_update(self.ram, (pos % 0x800) as int, data), ..self }
        } else if pos < 0x4000 {
            match pos % 8 {
                0 => Bus { ppu: self.ppu.write_to_ctrl_spec(data), ..self },
                1 => Bus { ppu: self.ppu.write_to_mask_spec(data), ..self },
                2 => self.faulted(BusFault::IllegalWrite(mirror_of(pos))),
                3 => Bus { ppu: self.ppu.write_to_oam_addr_spec(data), ..self },
                4 => Bus { ppu: self.ppu.write_to_oam_data_spec(data), ..self },
                5 => Bus { ppu: self.ppu.write_to_scroll_spec(data), ..self },
                6 => Bus { ppu: self.ppu.write_to_ppu_addr_spec(data), ..self },
                _ => Bus { ppu: self.ppu.write_to_data_spec(data), ..self },
            }
        } else if pos == 0x4014 {
            let fetched = self.dma_fetched(data, 256);
            Bus { ppu: fetched.0.ppu.write_oam_dma_spec(fetched.1), ..fetched.0 }
        } else if pos == 0x4016 {
            Bus { joypad1: self.joypad1.write_spec(data), ..self }
        } else if pos == 0x4017 {
            Bus { joypad2: self.joypad2.write_spec(data), ..self }
        } else if pos < 0x4018 {
            self
        } else if pos < 0x4020 {
            self.faulted(BusFault::Unmapped(pos))
        } else if pos < 0x8000 {
            self
        } else {
            self.faulted(BusFault::IllegalWrite(pos))
        }
    }

    /// `cycles` processor cycles are three times as many dots for the
    /// picture unit. An NMI that the unit raises is latched; a latched one
    /// stays.
    pub open spec fn tick_spec(self, cycles: u16) -> (Self, bool) {
        let ticked = self.ppu.tick_spec((cycles * 3) as u16);
        let polled = ticked.0.poll_nmi_interrupt_spec();
        (
            Bus {
                cycles: self.cycles.wrapping_add(cycles as usize),
                ppu: polled.0,
                nmi_interrupt: if polled.1 is Some {
                    polled.1
                } else {
                    self.nmi_interrupt
                },
                ..self
            },
            ticked.1,
        )
    }

    pub open spec fn poll_nmi_status_spec(self) -> (Self, Option<u8>) {
        (Bus { nmi_interrupt: None, ..self }, self.nmi_interrupt)
    }

    fn record(&mut self, fault: BusFault)
        ensures
            *final(self) == old(self).faulted(fault),
    {
        if self.fault.is_none() {
            self.fault = Some(fault);
        }
    }

    /// Sprite DMA: fetches the 256 bytes of page `page` through the bus.
    fn fetch_page(&mut self, page: u8) -> (buffer: [u8; 256])
        ensures
            (*final(self), buffer) == old(self).dma_fetched(page, 256),
    {
        let ghost start = *self;
        let mut buffer: [u8; 256] = [0;256];
        let hi: u16 = (page as u16) * 256;
        let mut i: u16 = 0;
        while i < 256
            invariant
                i <= 256,
                hi == page * 256,
                (*self, buffer) == start.dma_fetched(page, i as nat),
            decreases 256 - i,
        {
            let byte = self.read(hi + i);
            buffer[i as usize] = byte;
            i = i + 1;
        }
        buffer
    }

    /// The strict write: the fault of a write that the memory map has no
    /// place for is returned, and the bus stays as it was, fault latch
    /// included. Every other write is done.
    pub fn try_write(&mut self, pos: u16, data: u8) -> (done: Result<(), BusFault>)
        ensures
            match done {
                Ok(_) => write_fault(pos) is None && *final(self) == old(self).write_spec(
                    pos,
                    data,
                ),
                Err(fault) => write_fault(pos) == Some(fault) && *final(self) == *old(self),
            },
    {
        if pos < 0x2000 {
            self.ram[(pos % 0x800) as usize] = data;
        } else if pos < 0x4000 {
            match pos % 8 {
                0 => self.ppu.write_to_ctrl(data),
                1 => self.ppu.write_to_mask(data),
                2 => {
                    return Err(BusFault::IllegalWrite(map_mirrors(pos)));
                },
                3 => self.ppu.write_to_oam_addr(data),
                4 => self.ppu.write_to_oam_data(data),
                5 => self.ppu.write_to_scroll(data),
                6 => self.ppu.write_to_ppu_addr(data),
                _ => self.ppu.write_to_data(data),
            }
        } else if pos == 0x4014 {
            let buffer = self.fetch_page(data);
            self.ppu.write_oam_dma(&buffer);
        } else if pos == 0x4016 {
            self.joypad1.write(data);
        } else if pos == 0x4017 {
            self.joypad2.write(data);
        } else if pos < 0x4018 {
        } else if pos < 0x4020 {
            return Err(BusFault::Unmapped(pos));
        } else if pos < 0x8000 {
        } else {
            return Err(BusFault::IllegalWrite(pos));
        }
        Ok(())
    }

    /// The strict read: the fault of a read that the memory map has no
    /// place for is returned, and the bus stays as it was. Every other read
    /// is done. Write-only registers, the sound registers and the space
    /// between $4020 and the ROM read as 0.
    pub fn try_read(&mut self, pos: u16) -> (read: Result<u8, BusFault>)
        ensures
            match read {
                Ok(data) => read_fault(pos) is None && (*final(self), data) == old(self).read_spec(
                    pos,
                ),
                Err(fault) => read_fault(pos) == Some(fault) && *final(self) == *old(self),
            },
    {
        if pos < 0x2000 {
            Ok(self.ram[(pos % 0x800) as usize])
        } else if pos < 0x4000 {
            if pos % 8 == 2 {
                Ok(self.ppu.read_status())
            } else if pos % 8 == 4 {
                Ok(self.ppu.read_oam_data())
            } else if pos % 8 == 7 {
                Ok(self.ppu.read_data())
            } else {
                Ok(0)
            }
        } else if pos == 0x4016 {
            Ok(self.joypad1.read())
        } else if pos == 0x4017 {
            Ok(self.joypad2.read())
        } else if pos < 0x4018 {
            Ok(0)
        } else if pos < 0x4020 {
            Err(BusFault::Unmapped(pos))
        } else if pos < 0x8000 {
            Ok(0)
        } else {
            Ok(self.read_prg_rom(pos))
        }
    }

    /// Writes through the memory map without stopping: a write that the map
    /// has no place for changes nothing but the fault latch, which keeps the
    /// first fault for the host.
    pub fn write(&mut self, pos: u16, data: u8)
        ensures
            *final(self) == old(self).write_spec(pos, data),
    {
        match self.try_write(pos, data) {
            Ok(_) => {},
            Err(fault) => self.record(fault),
        }
    }

    /// Reads through the memory map without stopping: a read that the map
    /// has no place for returns 0 and latches its fault.
    pub fn read(&mut self, pos: u16) -> (data: u8)
        ensures
            (*final(self), data) == old(self).read_spec(pos),
    {
        match self.try_read(pos) {
            Ok(data) => data,
            Err(fault) => {
                self.record(fault);
                0
            },
        }
    }

    /// Moves the clocks on; true when the picture unit completed a frame.
    pub fn tick(&mut self, cycles: u16) -> (render: bool)
        requires
            cycles * 3 <= u16::MAX,
        ensures
            (*final(self), render) == old(self).tick_spec(cycles),
    {
        self.cycles = self.cycles.wrapping_add(cycles as usize);
        let render = self.ppu.tick(cycles * 3);
        let raised = self.ppu.poll_nmi_interrupt();
        if raised.is_some() {
            self.nmi_interrupt = raised;
        }
        render
    }

    pub fn read_prg_rom(&self, pos: u16) -> (data: u8)
        requires
            pos >= 0x8000,
        ensures
            data == self.read_prg_rom_spec(pos),
    {
        let mut index = (pos - 0x8000) as usize;
        if self.rom.prg_rom.len() == 0x4000 && index >= 0x4000 {
            index = index % 0x4000;
        }
        if index < self.rom.prg_rom.len() {
            self.rom.prg_rom[index]
        } else {
            0
        }
    }

    /// Takes the latched NMI.
    pub fn poll_nmi_status(&mut self) -> (nmi: Option<u8>)
        ensures
            (*final(self), nmi) == old(self).poll_nmi_status_spec(),
    {
        self.nmi_interrupt.take()
    }

    /// Takes the frame signal: true once for each completed frame.
    pub fn take_frame(&mut self) -> (ready: bool)
        ensures
            ready == old(self).frame_ready,
            *final(self) == (Bus { frame_ready: false, ..*old(self) }),
    {
        let ready = self.frame_ready;
        self.frame_ready = false;
        ready
    }

    /// Reads never move the cycle counter.
    pub proof fn dma_keeps_clock(self, page: u8, count: nat)
        ensures
            self.dma_fetched(page, count).0.cycles == self.cycles,
        decreases count,
    {
        if count > 0 {
            self.dma_keeps_clock(page, (count - 1) as nat);
        }
    }
}

/// Cycles that the reset sequence takes: the console starts with them on
/// its clocks.
pub const RESET_CYCLES: usize = 7;

impl Bus<NesPPU> {
    /// The bus of a console with `rom` in its slot, the reset sequence
    /// behind it. The picture unit gets a copy of the pattern memory and
    /// the cartridge's mirroring. The clock stands at 7, the cycles of the
    /// reset sequence, and the picture unit three dots a cycle further: at
    /// dot 21 of scanline 0.
    pub fn new(rom: Rom) -> (bus: Bus<NesPPU>)
        ensures
            bus.rom == rom,
            bus.ppu == (NesPPU {
                cycles: 21,
                ..NesPPU::new_spec(bus.ppu.chr_rom, rom.rom_flags.mirroring_spec())
            }),
            bus.ppu.chr_rom@ == rom.chr_rom@,
            bus.nmi_interrupt is None,
            bus.cycles == RESET_CYCLES,
            bus.joypad1 == Joypad::new_spec(),
            bus.joypad2 == Joypad::new_spec(),
            !bus.frame_ready,
            bus.fault is None,
            forall|i: int| 0 <= i < 0x800 ==> bus.ram[i] == 0,
    {
        let chr_rom_copy = rom.chr_rom.clone();
        let mirroring = rom.rom_flags.mirroring();
        let mut ppu = NesPPU::new(chr_rom_copy, mirroring);
        ppu.tick(21);
        Bus {
            ram: [0;2048],
            rom,
            nmi_interrupt: None,
            cycles: RESET_CYCLES,
            ppu,
            joypad1: Joypad::new(),
            joypad2: Joypad::new(),
            frame_ready: false,
            fault: None,
        }
    }
}

impl<T: PPU> Mem for Bus<T> {
    open spec fn after_write(&self, pos: u16, data: u8) -> Self {
        self.write_spec(pos, data)
    }

    open spec fn value_at(&self, pos: u16) -> u8 {
        self.read_spec(pos).1
    }

    open spec fn after_read(&self, pos: u16) -> Self {
        self.read_spec(pos).0
    }

    fn write(&mut self, pos: u16, data: u8) {
        Bus::write(self, pos, data);
    }

    fn read(&mut self, pos: u16) -> (value: u8) {
        Bus::read(self, pos)
    }
}

impl<T: PPU> CpuBus for Bus<T> {
    open spec fn pending_nmi(&self) -> Option<u8> {
        self.nmi_interrupt
    }

    open spec fn after_poll(&self) -> Self {
        self.poll_nmi_status_spec().0
    }

    /// A completed frame raises the frame signal.
    open spec fn after_tick(&self, cycles: u8) -> Self {
        let ticked = self.tick_spec(cycles as u16);
        Bus { frame_ready: ticked.1 || self.frame_ready, ..ticked.0 }
    }

    open spec fn counters(&self) -> BusTrace {
        BusTrace {
            cpu_cycles: self.cycles,
            ppu_cycles: self.ppu.position_spec().0,
            ppu_scanline: self.ppu.position_spec().1,
        }
    }

    fn poll_nmi_status(&mut self) -> (nmi: Option<u8>) {
        Bus::poll_nmi_status(self)
    }

    fn tick(&mut self, cycles: u8) {
        let render = Bus::tick(self, cycles as u16);
        if render {
            self.frame_ready = true;
        }
    }

    fn trace(&self) -> (counters: BusTrace) {
        let at = self.ppu.position();
        BusTrace { cpu_cycles: self.cycles, ppu_cycles: at.0, ppu_scanline: at.1 }
    }

    proof fn stack_page_holds(&self, pos: u16, data: u8) {
    }

    proof fn clock_moves_on_tick_only(&self, pos: u16, data: u8, cycles: u8) {
        self.dma_keeps_clock(data, 256);
    }
}

} // verus!

//! The picture processing unit behind its eight registers: video memory,
//! palette, sprite memory, the address and scroll latches and the scanline
//! clock.
//!
//! As for the processor, the state of a unit is its value, and each
//! operation has a spec function named after it, with `_spec` added, that
//! gives the state afterwards and the value produced.

use vstd::prelude::*;
use vstd::array::spec_array_update;
use crate::ppu::registers::control::ControlRegister;
use crate::ppu::registers::mask::MaskRegister;
use crate::ppu::registers::status::StatusRegister;
use crate::rom::ines::Mirroring;

verus! {

/// Dots of one scanline.
pub const DOTS_PER_LINE: usize = 341;

/// The scanline on which the vertical blank starts.
pub const VBLANK_LINE: usize = 241;

/// The pre-render scanline, the last of a frame.
pub const PRERENDER_LINE: usize = 261;

/// The video address latch behind $2006: two bytes, written high byte first.
#[derive(Clone, Copy, Debug)]
pub struct Addr {
    /// High byte first, low byte second.
    pub value: (u8, u8),
    /// Whether the next write goes to the high byte.
    pub hi_ptr: bool,
}

/// The two scroll offsets behind $2005, written x first.
#[derive(Clone, Copy, Debug, PartialEq, Eq, Structural)]
pub struct Scroll {
    pub scroll_x: u8,
    pub scroll_y: u8,
    /// Whether the next write goes to `scroll_y`.
    pub latch: bool,
}

impl Addr {
    pub open spec fn read_spec(self) -> u16 {
        (self.value.0 * 256 + self.value.1) as u16
    }

    /// The latch holding `data`, its toggle untouched.
    pub open spec fn set_spec(self, data: u16) -> Self {
        Addr { value: ((data / 256) as u8, (data % 256) as u8), ..self }
    }

    pub open spec fn udpate_spec(self, data: u8) -> Self {
        if self.hi_ptr {
            Addr { value: (data, self.value.1), hi_ptr: false }
        } else {
            Addr { value: (self.value.0, data), hi_ptr: true }
        }
    }

    /// The address moves on by `inc` and wraps at 0xFFFF.
    pub open spec fn increment_spec(self, inc: u8) -> Self {
        self.set_spec(((self.read_spec() + inc) % 0x10000) as u16)
    }

    pub fn new() -> (addr: Self)
        ensures
            addr == (Addr { value: (0, 0), hi_ptr: true }),
    {
        Addr { value: (0, 0), hi_ptr: true }
    }

    pub fn set(&mut self, data: u16)
        ensures
            *final(self) == old(self).set_spec(data),
            final(self).read_spec() == data,
    {
        self.value.0 = (data / 256) as u8;
        self.value.1 = (data % 256) as u8;
    }

    pub fn udpate(&mut self, data: u8)
        ensures
            *final(self) == old(self).udpate_spec(data),
    {
        if self.hi_ptr {
            self.value.0 = data;
        } else {
            self.value.1 = data;
        }
        self.hi_ptr = !self.hi_ptr;
    }

    pub fn increment(&mut self, inc: u8)
        ensures
            *final(self) == old(self).increment_spec(inc),
    {
        let lo = self.value.1;
        self.value.1 = self.value.1.wrapping_add(inc);
        if lo > self.value.1 {
            self.value.0 = self.value.0.wrapping_add(1);
        }
    }

    pub fn reset_latch(&mut self)
        ensures
            *final(self) == (Addr { hi_ptr: true, ..*old(self) }),
    {
        self.hi_ptr = true;
    }

    pub fn read(&self) -> (addr: u16)
        ensures
            addr == self.read_spec(),
    {
        (self.value.0 as u16) * 256 + (self.value.1 as u16)
    }
}

impl Scroll {
    pub open spec fn write_spec(self, data: u8) -> Self {
        if !self.latch {
            Scroll { scroll_x: data, latch: true, ..self }
        } else {
            Scroll { scroll_y: data, latch: false, ..self }
        }
    }

    pub fn new() -> (scroll: Self)
        ensures
            scroll == (Scroll { scroll_x: 0, scroll_y: 0, latch: false }),
    {
        Scroll { scroll_x: 0, scroll_y: 0, latch: false }
    }

    pub fn write(&mut self, data: u8)
        ensures
            *final(self) == old(self).write_spec(data),
    {
        if !self.latch {
            self.scroll_x = data;
        } else {
            self.scroll_y = data;
        }
        self.latch = !self.latch;
    }

    pub fn reset_latch(&mut self)
        ensures
            *final(self) == (Scroll { latch: false, ..*old(self) }),
    {
        self.latch = false;
    }
}

/// The unit as the bus drives it.
pub trait PPU: Sized {
    spec fn write_to_ctrl_spec(&self, value: u8) -> Self;

    spec fn write_to_mask_spec(&self, value: u8) -> Self;

    spec fn read_status_spec(&self) -> (Self, u8);

    spec fn write_to_oam_addr_spec(&self, value: u8) -> Self;

    spec fn write_to_oam_data_spec(&self, value: u8) -> Self;

    spec fn read_oam_data_spec(&self) -> u8;

    spec fn write_to_scroll_spec(&self, value: u8) -> Self;

    spec fn write_to_ppu_addr_spec(&self, value: u8) -> Self;

    spec fn write_to_data_spec(&self, value: u8) -> Self;

    spec fn read_data_spec(&self) -> (Self, u8);

    spec fn write_oam_dma_spec(&self, value: [u8; 256]) -> Self;

    spec fn tick_spec(&self, cycles: u16) -> (Self, bool);

    spec fn poll_nmi_interrupt_spec(&self) -> (Self, Option<u8>);

    /// The dot within the scanline and the scanline, for the trace line.
    spec fn position_spec(&self) -> (usize, usize);

    fn write_to_ctrl(&mut self, value: u8)
        ensures
            *final(self) == old(self).write_to_ctrl_spec(value),
    ;

    fn write_to_mask(&mut self, value: u8)
        ensures
            *final(self) == old(self).write_to_mask_spec(value),
    ;

    fn read_status(&mut self) -> (data: u8)
        ensures
            (*final(self), data) == old(self).read_status_spec(),
    ;

    fn write_to_oam_addr(&mut self, value: u8)
        ensures
            *final(self) == old(self).write_to_oam_addr_spec(value),
    ;

    fn write_to_oam_data(&mut self, value: u8)
        ensures
            *final(self) == old(self).write_to_oam_data_spec(value),
    ;

    fn read_oam_data(&self) -> (data: u8)
        ensures
            data == self.read_oam_data_spec(),
    ;

    fn write_to_scroll(&mut self, value: u8)
        ensures
            *final(self) == old(self).write_to_scroll_spec(value),
    ;

    fn write_to_ppu_addr(&mut self, value: u8)
        ensures
            *final(self) == old(self).write_to_ppu_addr_spec(value),
    ;

    fn write_to_data(&mut self, value: u8)
        ensures
            *final(self) == old(self).write_to_data_spec(value),
    ;

    fn read_data(&mut self) -> (data: u8)
        ensures
            (*final(self), data) == old(self).read_data_spec(),
    ;

    fn write_oam_dma(&mut self, value: &[u8; 256])
        ensures
            *final(self) == old(self).write_oam_dma_spec(*value),
    ;

    /// Moves the clock on by `cycles` dots; true when a frame is complete.
    fn tick(&mut self, cycles: u16) -> (frame: bool)
        ensures
            (*final(self), frame) == old(self).tick_spec(cycles),
    ;

    /// Takes the NMI that the unit has raised.
    fn poll_nmi_interrupt(&mut self) -> (nmi: Option<u8>)
        ensures
            (*final(self), nmi) == old(self).poll_nmi_interrupt_spec(),
    ;

    fn position(&self) -> (at: (usize, usize))
        ensures
            at == self.position_spec(),
    ;
}

/// The unit of the console.
pub struct NesPPU {
    pub chr_rom: Vec<u8>,
    pub mirroring: Mirroring,
    pub ctrl: ControlRegister,
    pub mask: MaskRegister,
    pub status: StatusRegister,
    pub oam_addr: u8,
    pub scroll: Scroll,
    pub addr: Addr,
    pub vram: [u8; 2048],
    pub oam_data: [u8; 256],
    pub line: usize,
    pub cycles: usize,
    pub nmi_interrupt: Option<u8>,
    pub palette_table: [u8; 32],
    pub read_data_buf: u8,
}

/// The index into the two physical name tables for a video address in
/// $2000-$3EFF. Horizontal mirroring maps the four logical tables to
/// (0, 0, 1, 1), vertical mirroring to (0, 1, 0, 1). A four-screen
/// cartridge keeps them apart: its tables 2 and 3 lie outside the unit's
/// memory.
pub open spec fn mirrored_index(mirroring: Mirroring, addr: u16) -> u16 {
    let vram_index = addr % 0x1000;
    let name_table = vram_index / 0x400;
    match mirroring {
        Mirroring::VERTICAL => (vram_index % 0x800) as u16,
        Mirroring::HORIZONTAL => (vram_index % 0x400 + (name_table / 2) * 0x400) as u16,
        Mirroring::FOUR_SCREEN => vram_index as u16,
    }
}

/// The index into palette memory for a video address in $3F00-$3FFF: the
/// 32 entries repeat, and $3F10, $3F14, $3F18, $3F1C are $3F00, $3F04,
/// $3F08, $3F0C.
pub open spec fn palette_index(addr: u16) -> int {
    let index = addr % 32;
    if index >= 16 && index % 4 == 0 {
        index - 16
    } else {
        index as int
    }
}

/// Sprite memory after `count` bytes of `data` were written from `start`
/// on, wrapping at its end.
pub open spec fn oam_filled(oam: [u8; 256], start: u8, data: [u8; 256], count: nat) -> [u8; 256]
    decreases count,
{
    if count == 0 {
        oam
    } else {
        spec_array_update(
            oam_filled(oam, start, data, (count - 1) as nat),
            (start + count - 1) % 256,
            data[count - 1],
        )
    }
}

impl NesPPU {
    pub open spec fn mirror_vram_addr_spec(self, addr: u16) -> u16 {
        mirrored_index(self.mirroring, addr)
    }

    /// The byte of name-table memory at `index`; 0 where the unit has none.
    pub open spec fn vram_byte(self, index: u16) -> u8 {
        if index < 2048 {
            self.vram[index as int]
        } else {
            0
        }
    }

    /// The byte of pattern memory at `addr`; 0 behind its end.
    pub open spec fn chr_byte(self, addr: int) -> u8 {
        if 0 <= addr < self.chr_rom@.len() {
            self.chr_rom@[addr]
        } else {
            0
        }
    }

    /// The video address that $2007 accesses next: 14 bits.
    pub open spec fn data_addr(self) -> u16 {
        self.addr.read_spec() % 0x4000
    }

    /// The video address moves on by the control register's step and stays
    /// within 14 bits.
    pub open spec fn increment_vram_addr_spec(self) -> Self {
        NesPPU {
            addr: self.addr.set_spec(
                ((self.addr.read_spec() + self.ctrl.vram_addr_increment_spec()) % 0x4000) as u16,
            ),
            ..self
        }
    }

    /// Sprite 0 is hit on its scanline once the dot count has passed its
    /// column, if sprites are shown.
    pub open spec fn has_sprite_hit_spec(self, cycle: usize) -> bool {
        self.oam_data[0] == self.line && self.oam_data[3] <= cycle && self.mask.has(
            MaskRegister::SHOW_SPRITES,
        )
    }

    /// A unit with all registers, latches and memories cleared.
    pub open spec fn new_spec(chr_rom: Vec<u8>, mirroring: Mirroring) -> Self {
        NesPPU {
            chr_rom,
            mirroring,
            ctrl: ControlRegister { bits: 0 },
            mask: MaskRegister { bits: 0 },
            status: StatusRegister { bits: 0 },
            oam_addr: 0,
            scroll: Scroll { scroll_x: 0, scroll_y: 0, latch: false },
            addr: Addr { value: (0, 0), hi_ptr: true },
            vram: vstd::array::spec_array_fill_for_copy_type::<u8, 2048>(0),
            oam_data: vstd::array::spec_array_fill_for_copy_type::<u8, 256>(0),
            line: 0,
            cycles: 0,
            nmi_interrupt: None,
            palette_table: vstd::array::spec_array_fill_for_copy_type::<u8, 32>(0),
            read_data_buf: 0,
        }
    }

    /// A unit with 2 KiB of empty pattern memory and horizontal mirroring.
    pub fn new_empty_rom() -> (ppu: Self)
        ensures
            ppu.chr_rom@ == Seq::new(2048, |i: int| 0u8),
            ppu == Self::new_spec(ppu.chr_rom, Mirroring::HORIZONTAL),
    {
        let mut chr_rom: Vec<u8> = Vec::new();
        let mut i: usize = 0;
        while i < 2048
            invariant
                i <= 2048,
                chr_rom@ == Seq::new(i as nat, |i: int| 0u8),
            decreases 2048 - i,
        {
            chr_rom.push(0);
            i = i + 1;
            assert(chr_rom@ =~= Seq::new(i as nat, |i: int| 0u8));
        }
        NesPPU::new(chr_rom, Mirroring::HORIZONTAL)
    }

    pub fn new(chr_rom: Vec<u8>, mirroring: Mirroring) -> (ppu: Self)
        ensures
            ppu == Self::new_spec(chr_rom, mirroring),
    {
        NesPPU {
            chr_rom,
            mirroring,
            ctrl: ControlRegister::new(),
            mask: MaskRegister::new(),
            status: StatusRegister::new(),
            oam_addr: 0,
            scroll: Scroll::new(),
            addr: Addr::new(),
            vram: [0;2048],
            oam_data: [0;256],
            line: 0,
            cycles: 0,
            nmi_interrupt: None,
            palette_table: [0;32],
            read_data_buf: 0,
        }
    }

    pub fn mirror_vram_addr(&self, addr: u16) -> (index: u16)
        ensures
            index == self.mirror_vram_addr_spec(addr),
            !(self.mirroring is FOUR_SCREEN) ==> index < 2048,
    {
        let vram_index = addr % 0x1000;
        let name_table = vram_index / 0x400;
        match self.mirroring {
            Mirroring::VERTICAL => vram_index % 0x800,
            Mirroring::HORIZONTAL => vram_index % 0x400 + (name_table / 2) * 0x400,
            Mirroring::FOUR_SCREEN => vram_index,
        }
    }

    pub fn increment_vram_addr(&mut self)
        ensures
            *final(self) == old(self).increment_vram_addr_spec(),
    {
        self.addr.increment(self.ctrl.vram_addr_increment());
        if self.addr.read() > 0x3fff {
            self.addr.set(self.addr.read() % 0x4000);
        }
    }

    pub fn has_sprite_hit(&self, cycle: usize) -> (hit: bool)
        ensures
            hit == self.has_sprite_hit_spec(cycle),
    {
        let y = self.oam_data[0] as usize;
        let x = self.oam_data[3] as usize;
        (y == self.line) && x <= cycle && self.mask.show_sprites()
    }

    /// Reads name-table memory; see `vram_byte`.
    pub fn read_vram(&self, index: u16) -> (data: u8)
        ensures
            data == self.vram_byte(index),
    {
        if index < 2048 {
            self.vram[index as usize]
        } else {
            0
        }
    }

    /// Reads pattern memory; see `chr_byte`.
    pub fn read_chr(&self, addr: usize) -> (data: u8)
        ensures
            data == self.chr_byte(addr as int),
    {
        if addr < self.chr_rom.len() {
            self.chr_rom[addr]
        } else {
            0
        }
    }
}

impl PPU for NesPPU {
    /// Switching NMI generation on during the vertical blank raises an NMI
    /// at once.
    open spec fn write_to_ctrl_spec(&self, value: u8) -> Self {
        let ctrl = ControlRegister { bits: value };
        NesPPU {
            ctrl,
            nmi_interrupt: if !self.ctrl.has(ControlRegister::GENERATE_NMI) && ctrl.has(
                ControlRegister::GENERATE_NMI,
            ) && self.status.has(StatusRegister::VBLANK_STARTED) {
                Some(1u8)
            } else {
                self.nmi_interrupt
            },
            ..*self
        }
    }

    open spec fn write_to_mask_spec(&self, value: u8) -> Self {
        NesPPU { mask: MaskRegister { bits: value }, ..*self }
    }

    /// Reading the status clears the vertical-blank flag and resets the
    /// write toggle of both latches.
    open spec fn read_status_spec(&self) -> (Self, u8) {
        (
            NesPPU {
                status: self.status.with(StatusRegister::VBLANK_STARTED, false),
                addr: Addr { hi_ptr: true, ..self.addr },
                scroll: Scroll { latch: false, ..self.scroll },
                ..*self
            },
            self.status.bits,
        )
    }

    open spec fn write_to_oam_addr_spec(&self, value: u8) -> Self {
        NesPPU { oam_addr: value, ..*self }
    }

    open spec fn write_to_oam_data_spec(&self, value: u8) -> Self {
        NesPPU {
            oam_data: spec_array_update(self.oam_data, self.oam_addr as int, value),
            oam_addr: self.oam_addr.wrapping_add(1),
            ..*self
        }
    }

    open spec fn read_oam_data_spec(&self) -> u8 {
        self.oam_data[self.oam_addr as int]
    }

    open spec fn write_to_scroll_spec(&self, value: u8) -> Self {
        NesPPU { scroll: self.scroll.write_spec(value), ..*self }
    }

    /// The address keeps 14 bits after either write.
    open spec fn write_to_ppu_addr_spec(&self, value: u8) -> Self {
        let written = self.addr.udpate_spec(value);
        NesPPU { addr: written.set_spec(written.read_spec() % 0x4000), ..*self }
    }

    /// Pattern memory is read-only: a write there only moves the address.
    open spec fn write_to_data_spec(&self, value: u8) -> Self {
        let addr = self.data_addr();
        let index = self.mirror_vram_addr_spec(addr);
        let stored = if addr < 0x2000 {
            *self
        } else if addr < 0x3f00 {
            if index < 2048 {
                NesPPU { vram: spec_array_update(self.vram, index as int, value), ..*self }
            } else {
                *self
            }
        } else {
            NesPPU {
                palette_table: spec_array_update(self.palette_table, palette_index(addr), value),
                ..*self
            }
        };
        stored.increment_vram_addr_spec()
    }

    /// Below the palette a read returns the buffer and refills it from the
    /// address; a palette read returns the entry itself.
    open spec fn read_data_spec(&self) -> (Self, u8) {
        let addr = self.data_addr();
        let next = self.increment_vram_addr_spec();
        if addr < 0x2000 {
            (NesPPU { read_data_buf: self.chr_byte(addr as int), ..next }, self.read_data_buf)
        } else if addr < 0x3f00 {
            (
                NesPPU {
                    read_data_buf: self.vram_byte(self.mirror_vram_addr_spec(addr)),
                    ..next
                },
                self.read_data_buf,
            )
        } else {
            (next, self.palette_table[palette_index(addr)])
        }
    }

    open spec fn write_oam_dma_spec(&self, value: [u8; 256]) -> Self {
        NesPPU { oam_data: oam_filled(self.oam_data, self.oam_addr, value, 256), ..*self }
    }

    /// At most one scanline ends per call. Entering scanline 241 starts the
    /// vertical blank and raises the NMI if enabled; entering scanline 261
    /// clears the status flags; behind it the frame is complete.
    open spec fn tick_spec(&self, cycles: u16) -> (Self, bool) {
        let dots = self.cycles.wrapping_add(cycles as usize);
        if dots >= DOTS_PER_LINE {
            let line = self.line.wrapping_add(1);
            let hit = self.status.with(
                StatusRegister::SPRITE_ZERO_HIT,
                self.has_sprite_hit_spec(dots) || self.status.has(StatusRegister::SPRITE_ZERO_HIT),
            );
            let blank = if line == VBLANK_LINE {
                hit.with(StatusRegister::VBLANK_STARTED, true).with(
                    StatusRegister::SPRITE_ZERO_HIT,
                    false,
                )
            } else {
                hit
            };
            let status = if line >= PRERENDER_LINE {
                blank.with(StatusRegister::SPRITE_ZERO_HIT, false).with(
                    StatusRegister::SPRITE_OVERFLOW,
                    false,
                ).with(StatusRegister::VBLANK_STARTED, false)
            } else {
                blank
            };
            let nmi = if line > PRERENDER_LINE {
                None
            } else if line == VBLANK_LINE && self.ctrl.has(ControlRegister::GENERATE_NMI) {
                Some(1u8)
            } else {
                self.nmi_interrupt
            };
            (
                NesPPU {
                    cycles: (dots - DOTS_PER_LINE) as usize,
                    line: if line > PRERENDER_LINE {
                        0
                    } else {
                        line
                    },
                    status,
                    nmi_interrupt: nmi,
                    ..*self
                },
                line > PRERENDER_LINE,
            )
        } else {
            (NesPPU { cycles: dots, ..*self }, false)
        }
    }

    open spec fn poll_nmi_interrupt_spec(&self) -> (Self, Option<u8>) {
        (NesPPU { nmi_interrupt: None, ..*self }, self.nmi_interrupt)
    }

    open spec fn position_spec(&self) -> (usize, usize) {
        (self.cycles, self.line)
    }

    fn write_to_ctrl(&mut self, value: u8) {
        let before_nmi_status = self.ctrl.generate_vblank_nmi();
        self.ctrl.update(value);
        if !before_nmi_status && self.ctrl.generate_vblank_nmi() && self.status.is_in_vblank() {
            self.nmi_interrupt = Some(1);
        }
    }

    fn write_to_mask(&mut self, value: u8) {
        self.mask.update(value);
    }

    fn read_status(&mut self) -> (data: u8) {
        let data = self.status.snapshot();
        self.status.reset_vblank_status();
        self.addr.reset_latch();
        self.scroll.reset_latch();
        data
    }

    fn write_to_oam_addr(&mut self, value: u8) {
        self.oam_addr = value;
    }

    fn write_to_oam_data(&mut self, value: u8) {
        self.oam_data[self.oam_addr as usize] = value;
        self.oam_addr = self.oam_addr.wrapping_add(1);
    }

    fn read_oam_data(&self) -> (data: u8) {
        self.oam_data[self.oam_addr as usize]
    }

    fn write_to_scroll(&mut self, value: u8) {
        self.scroll.write(value);
    }

    fn write_to_ppu_addr(&mut self, value: u8) {
        self.addr.udpate(value);
        self.addr.set(self.addr.read() % 0x4000);
    }

    fn write_to_data(&mut self, value: u8) {
        let addr = self.addr.read() % 0x4000;
        if addr < 0x2000 {
        } else if addr < 0x3f00 {
            let index = self.mirror_vram_addr(addr);
            if index < 2048 {
                self.vram[index as usize] = value;
            }
        } else {
            let index = addr % 32;
            if index >= 16 && index % 4 == 0 {
                self.palette_table[(index - 16) as usize] = value;
            } else {
                self.palette_table[index as usize] = value;
            }
        }
        self.increment_vram_addr();
    }

    fn read_data(&mut self) -> (data: u8) {
        let addr = self.addr.read() % 0x4000;
        if addr < 0x2000 {
            let fresh = self.read_chr(addr as usize);
            self.increment_vram_addr();
            let result = self.read_data_buf;
            self.read_data_buf = fresh;
            result
        } else if addr < 0x3f00 {
            let fresh = self.read_vram(self.mirror_vram_addr(addr));
            self.increment_vram_addr();
            let result = self.read_data_buf;
            self.read_data_buf = fresh;
            result
        } else {
            let index = addr % 32;
            let result = if index >= 16 && index % 4 == 0 {
                self.palette_table[(index - 16) as usize]
            } else {
                self.palette_table[index as usize]
            };
            self.increment_vram_addr();
            result
        }
    }

    fn write_oam_dma(&mut self, data: &[u8; 256]) {
        let ghost start = *self;
        let mut i: usize = 0;
        while i < 256
            invariant
                i <= 256,
                *self == (NesPPU {
                    oam_data: oam_filled(start.oam_data, start.oam_addr, *data, i as nat),
                    oam_addr: ((start.oam_addr + i) % 256) as u8,
                    ..start
                }),
            decreases 256 - i,
        {
            self.oam_data[self.oam_addr as usize] = data[i];
            self.oam_addr = self.oam_addr.wrapping_add(1);
            i = i + 1;
        }
    }

    fn tick(&mut self, cycles: u16) -> (frame: bool) {
        self.cycles = self.cycles.wrapping_add(cycles as usize);
        if self.cycles >= DOTS_PER_LINE {
            if self.has_sprite_hit(self.cycles) {
                self.status.set_sprite_zero_hit(true);
            } else {
                let already = self.status.bits & StatusRegister::SPRITE_ZERO_HIT
                    == StatusRegister::SPRITE_ZERO_HIT;
                self.status.set_sprite_zero_hit(already);
            }
            self.cycles = self.cycles - DOTS_PER_LINE;
            self.line = self.line.wrapping_add(1);
            if self.line == VBLANK_LINE {
                self.status.set_vblank_status(true);
                self.status.set_sprite_zero_hit(false);
                if self.ctrl.generate_vblank_nmi() {
                    self.nmi_interrupt = Some(1);
                }
            }
            if self.line >= PRERENDER_LINE {
                self.status.set_sprite_zero_hit(false);
                self.status.set_sprite_overflow(false);
                self.status.reset_vblank_status();
            }
            if self.line > PRERENDER_LINE {
                self.line = 0;
                self.nmi_interrupt = None;
                return true;
            }
        }
        return false;
    }

    fn poll_nmi_interrupt(&mut self) -> (nmi: Option<u8>) {
        self.nmi_interrupt.take()
    }

    fn position(&self) -> (at: (usize, usize)) {
        (self.cycles, self.line)
    }
}

/// A unit that only records what the bus tells it.
pub struct MockPPU {
    pub ctrl: u8,
    pub mask: u8,
    pub status: u8,
    pub oamaddr: u8,
    pub oamdata: u8,
    pub scroll: u8,
    pub addr: u8,
    pub data: u8,
    pub vram: [u8; 2048],
    pub oam: [u8; 256],
    pub ticks: usize,
    pub line: usize,
}

impl PPU for MockPPU {
    open spec fn write_to_ctrl_spec(&self, value: u8) -> Self {
        MockPPU { ctrl: value, ..*self }
    }

    open spec fn write_to_mask_spec(&self, value: u8) -> Self {
        MockPPU { mask: value, ..*self }
    }

    open spec fn read_status_spec(&self) -> (Self, u8) {
        (*self, self.status)
    }

    open spec fn write_to_oam_addr_spec(&self, value: u8) -> Self {
        MockPPU { oamaddr: value, ..*self }
    }

    open spec fn write_to_oam_data_spec(&self, value: u8) -> Self {
        MockPPU { oamdata: value, ..*self }
    }

    open spec fn read_oam_data_spec(&self) -> u8 {
        self.oamdata
    }

    open spec fn write_to_scroll_spec(&self, value: u8) -> Self {
        MockPPU { scroll: value, ..*self }
    }

    open spec fn write_to_ppu_addr_spec(&self, value: u8) -> Self {
        MockPPU { addr: value, ..*self }
    }

    open spec fn write_to_data_spec(&self, value: u8) -> Self {
        MockPPU { data: value, ..*self }
    }

    open spec fn read_data_spec(&self) -> (Self, u8) {
        (*self, self.data)
    }

    open spec fn write_oam_dma_spec(&self, value: [u8; 256]) -> Self {
        MockPPU { oam: value, ..*self }
    }

    open spec fn tick_spec(&self, cycles: u16) -> (Self, bool) {
        (MockPPU { ticks: self.ticks.wrapping_add(cycles as usize), ..*self }, false)
    }

    open spec fn poll_nmi_interrupt_spec(&self) -> (Self, Option<u8>) {
        (*self, None)
    }

    open spec fn position_spec(&self) -> (usize, usize) {
        (self.ticks, self.line)
    }

    fn write_to_ctrl(&mut self, value: u8) {
        self.ctrl = value;
    }

    fn write_to_mask(&mut self, value: u8) {
        self.mask = value;
    }

    fn read_status(&mut self) -> (data: u8) {
        self.status
    }

    fn write_to_oam_addr(&mut self, value: u8) {
        self.oamaddr = value;
    }

    fn write_to_oam_data(&mut self, value: u8) {
        self.oamdata = value;
    }

    fn read_oam_data(&self) -> (data: u8) {
        self.oamdata
    }

    fn write_to_scroll(&mut self, value: u8) {
        self.scroll = value;
    }

    fn write_to_ppu_addr(&mut self, value: u8) {
        self.addr = value;
    }

    fn write_to_data(&mut self, value: u8) {
        self.data = value;
    }

    fn read_data(&mut self) -> (data: u8) {
        self.data
    }

    fn write_oam_dma(&mut self, value: &[u8; 256]) {
        self.oam = *value;
    }

    fn tick(&mut self, cycles: u16) -> (frame: bool) {
        self.ticks = self.ticks.wrapping_add(cycles as usize);
        false
    }

    fn poll_nmi_interrupt(&mut self) -> (nmi: Option<u8>) {
        None
    }

    fn position(&self) -> (at: (usize, usize)) {
        (self.ticks, self.line)
    }
}

/// A recording unit with everything cleared.
pub fn stub_ppu() -> (ppu: MockPPU)
    ensures
        ppu.ctrl == 0,
        ppu.mask == 0,
        ppu.status == 0,
        ppu.oamaddr == 0,
        ppu.oamdata == 0,
        ppu.scroll == 0,
        ppu.addr == 0,
        ppu.data == 0,
        ppu.ticks == 0,
        ppu.line == 0,
        forall|i: int| 0 <= i < 2048 ==> ppu.vram[i] == 0,
        forall|i: int| 0 <= i < 256 ==> ppu.oam[i] == 0,
{
    MockPPU {
        ctrl: 0,
        mask: 0,
        status: 0,
        oamaddr: 0,
        oamdata: 0,
        scroll: 0,
        addr: 0,
        data: 0,
        vram: [0;2048],
        oam: [0;256],
        ticks: 0,
        line: 0,
    }
}

} // verus!

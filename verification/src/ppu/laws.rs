//! What holds of the picture unit on every state.

use vstd::prelude::*;
use crate::ppu::ppu::{NesPPU, PPU, mirrored_index, palette_index};
use crate::ppu::registers::control::ControlRegister;
use crate::ppu::registers::status::StatusRegister;
use crate::rom::ines::Mirroring;

verus! {

/// Horizontal mirroring: the logical name tables 0 and 1 are one physical
/// table, 2 and 3 the other.
pub proof fn horizontal_mirroring_pairs_tables(offset: u16)
    requires
        offset < 0x400,
    ensures
        mirrored_index(Mirroring::HORIZONTAL, (0x2000 + offset) as u16) == offset,
        mirrored_index(Mirroring::HORIZONTAL, (0x2400 + offset) as u16) == offset,
        mirrored_index(Mirroring::HORIZONTAL, (0x2800 + offset) as u16) == 0x400 + offset,
        mirrored_index(Mirroring::HORIZONTAL, (0x2c00 + offset) as u16) == 0x400 + offset,
{
}

/// Vertical mirroring: the logical name tables 0 and 2 are one physical
/// table, 1 and 3 the other.
pub proof fn vertical_mirroring_pairs_tables(offset: u16)
    requires
        offset < 0x400,
    ensures
        mirrored_index(Mirroring::VERTICAL, (0x2000 + offset) as u16) == offset,
        mirrored_index(Mirroring::VERTICAL, (0x2800 + offset) as u16) == offset,
        mirrored_index(Mirroring::VERTICAL, (0x2400 + offset) as u16) == 0x400 + offset,
        mirrored_index(Mirroring::VERTICAL, (0x2c00 + offset) as u16) == 0x400 + offset,
{
}

/// The region $3000-$3EFF repeats the name tables.
pub proof fn name_tables_repeat(mirroring: Mirroring, addr: u16)
    requires
        0x3000 <= addr < 0x3f00,
    ensures
        mirrored_index(mirroring, addr) == mirrored_index(mirroring, (addr - 0x1000) as u16),
{
}

/// A byte written through $2007 into a name table is the byte that the
/// unit holds behind every address that mirrors the written one; bytes
/// behind other addresses keep their value.
pub proof fn name_table_write_is_seen_through_mirrors(ppu: NesPPU, value: u8, other: u16)
    requires
        !(ppu.mirroring is FOUR_SCREEN),
        0x2000 <= ppu.data_addr() < 0x3f00,
    ensures
        ({
            let written = ppu.write_to_data_spec(value);
            let here = mirrored_index(ppu.mirroring, ppu.data_addr());
            let there = mirrored_index(ppu.mirroring, other);
            written.vram_byte(there) == if there == here {
                value
            } else {
                ppu.vram_byte(there)
            }
        }),
{
}

/// The video address keeps 14 bits: after a write to $2006 and after every
/// access of $2007 it is below $4000.
pub proof fn video_address_keeps_14_bits(ppu: NesPPU, value: u8)
    ensures
        ppu.write_to_ppu_addr_spec(value).addr.read_spec() < 0x4000,
        ppu.write_to_data_spec(value).addr.read_spec() < 0x4000,
        ppu.read_data_spec().0.addr.read_spec() < 0x4000,
{
    increment_moves_address(ppu);
    let next = ppu.increment_vram_addr_spec();
    assert(ppu.read_data_spec().0.addr == next.addr);
    assert(ppu.write_to_data_spec(value).addr == next.addr);
}

proof fn folded_sum(word: int, step: int)
    requires
        0 <= word < 0x10000,
        0 <= step < 0x100,
    ensures
        ((word + step) % 0x4000) % 0x4000 == (word % 0x4000 + step) % 0x4000,
        (((word + step) % 0x4000) / 256) * 256 + ((word + step) % 0x4000) % 256 == (word + step)
            % 0x4000,
        0 <= ((word + step) % 0x4000) / 256 < 256,
{
}

/// Incrementing moves the video address on by the step of the control
/// register, within 14 bits.
pub proof fn increment_moves_address(ppu: NesPPU)
    ensures
        ppu.increment_vram_addr_spec().data_addr() == (ppu.data_addr()
            + ppu.ctrl.vram_addr_increment_spec()) % 0x4000,
        ppu.increment_vram_addr_spec().addr.read_spec() < 0x4000,
{
    let word = ppu.addr.read_spec();
    let step = ppu.ctrl.vram_addr_increment_spec();
    folded_sum(word as int, step as int);
    let next = ((word + step) % 0x4000) as u16;
    assert(ppu.increment_vram_addr_spec().addr == ppu.addr.set_spec(next));
    assert(ppu.addr.set_spec(next).read_spec() == next);
}

/// Every access of $2007 moves the video address on by the step of the
/// control register, 1 or 32, within 14 bits.
pub proof fn data_access_moves_address(ppu: NesPPU, value: u8)
    ensures
        ppu.read_data_spec().0.data_addr() == (ppu.data_addr()
            + ppu.ctrl.vram_addr_increment_spec()) % 0x4000,
        ppu.write_to_data_spec(value).data_addr() == (ppu.data_addr()
            + ppu.ctrl.vram_addr_increment_spec()) % 0x4000,
        ppu.ctrl.vram_addr_increment_spec() == 1 || ppu.ctrl.vram_addr_increment_spec() == 32,
{
    increment_moves_address(ppu);
    let next = ppu.increment_vram_addr_spec();
    assert(ppu.read_data_spec().0.addr == next.addr);
    assert(ppu.write_to_data_spec(value).addr == next.addr);
}

/// Reads of $2007 below the palette are buffered: of two reads in a row,
/// the first returns what the buffer held before, the second returns the
/// byte behind the address of the first.
pub proof fn data_reads_are_buffered(ppu: NesPPU)
    requires
        ppu.data_addr() + ppu.ctrl.vram_addr_increment_spec() < 0x3f00,
    ensures
        ({
            let first = ppu.read_data_spec();
            let second = first.0.read_data_spec();
            &&& first.1 == ppu.read_data_buf
            &&& second.1 == if ppu.data_addr() < 0x2000 {
                ppu.chr_byte(ppu.data_addr() as int)
            } else {
                ppu.vram_byte(mirrored_index(ppu.mirroring, ppu.data_addr()))
            }
        }),
{
    data_access_moves_address(ppu, 0);
}

/// Reads of $2007 in the palette are immediate: the read returns the
/// palette entry itself and leaves the buffer alone.
pub proof fn palette_reads_are_immediate(ppu: NesPPU)
    requires
        ppu.data_addr() >= 0x3f00,
    ensures
        ppu.read_data_spec().1 == ppu.palette_table[palette_index(ppu.data_addr())],
        ppu.read_data_spec().0.read_data_buf == ppu.read_data_buf,
        0 <= palette_index(ppu.data_addr()) < 32,
{
}

/// A palette entry written through $2007 is the entry read back at the same
/// address; the entries $3F10, $3F14, $3F18, $3F1C are the entries $3F00,
/// $3F04, $3F08, $3F0C.
pub proof fn palette_write_is_read_back(ppu: NesPPU, value: u8)
    requires
        ppu.data_addr() >= 0x3f00,
    ensures
        ppu.write_to_data_spec(value).palette_table[palette_index(ppu.data_addr())] == value,
        palette_index(0x3f10) == palette_index(0x3f00),
        palette_index(0x3f14) == palette_index(0x3f04),
        palette_index(0x3f18) == palette_index(0x3f08),
        palette_index(0x3f1c) == palette_index(0x3f0c),
{
}

/// Reading the status resets the write toggle: the next write to $2006 is
/// the high byte of the address, the next write to $2005 the x scroll.
pub proof fn status_read_resets_toggle(ppu: NesPPU, value: u8)
    ensures
        ppu.read_status_spec().0.write_to_ppu_addr_spec(value).addr.value.0 == value % 0x40,
        ppu.read_status_spec().0.write_to_scroll_spec(value).scroll.scroll_x == value,
{
}

/// A tick moves the unit on by the dots it is given: the count of dots
/// since the frame began, 341 to the scanline, grows by just that many. (A
/// tick ends one scanline at most, and the frame ends behind scanline 261.)
pub proof fn tick_counts_dots(ppu: NesPPU, cycles: u16)
    requires
        ppu.cycles < 341,
        ppu.line < 261,
    ensures
        ppu.tick_spec(cycles).0.line * 341 + ppu.tick_spec(cycles).0.cycles == ppu.line * 341
            + ppu.cycles + cycles,
        !ppu.tick_spec(cycles).1,
{
}

/// Entering scanline 241 starts the vertical blank, and raises the NMI
/// exactly when the control register asks for it.
pub proof fn vertical_blank_starts_on_line_241(ppu: NesPPU, cycles: u16)
    requires
        ppu.line == 240,
        ppu.cycles < 341,
        ppu.cycles + cycles >= 341,
        ppu.nmi_interrupt is None,
    ensures
        ppu.tick_spec(cycles).0.line == 241,
        ppu.tick_spec(cycles).0.status.has(StatusRegister::VBLANK_STARTED),
        ppu.tick_spec(cycles).0.nmi_interrupt is Some == ppu.ctrl.has(
            ControlRegister::GENERATE_NMI,
        ),
{
    let hit = ppu.status.with(
        StatusRegister::SPRITE_ZERO_HIT,
        ppu.has_sprite_hit_spec((ppu.cycles + cycles) as usize) || ppu.status.has(
            StatusRegister::SPRITE_ZERO_HIT,
        ),
    );
    let bits = hit.bits;
    assert(((bits | 0x80) & !0x40u8) & 0x80 == 0x80) by (bit_vector);
}

} // verus!

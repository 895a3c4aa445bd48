//! What holds of the console's memory map on every state.

use vstd::prelude::*;
use vstd::array::{spec_array_fill_for_copy_type, spec_array_update};
use crate::bus::bus::{Bus, BusFault, CpuBus, mirror_of, read_fault, write_fault};
use crate::ppu::ppu::{NesPPU, PPU, oam_filled};

verus! {

/// Work RAM is mirrored: below $2000 a read returns the byte of RAM at the
/// address modulo $0800 and changes nothing, a write replaces that byte and
/// changes nothing else. So what was written through one mirror is read
/// through every other.
pub proof fn ram_is_mirrored<T: PPU>(bus: Bus<T>, addr: u16, other: u16, data: u8)
    requires
        addr < 0x2000,
        other < 0x2000,
    ensures
        bus.read_spec(addr) == (bus, bus.ram[(addr % 0x800) as int]),
        bus.write_spec(addr, data) == (Bus {
            ram: spec_array_update(bus.ram, (addr % 0x800) as int, data),
            ..bus
        }),
        other % 0x800 == addr % 0x800 ==> bus.write_spec(addr, data).read_spec(other).1 == data,
        other % 0x800 != addr % 0x800 ==> bus.write_spec(addr, data).read_spec(other).1
            == bus.read_spec(other).1,
{
}

/// The registers of the picture unit are mirrored: from $2000 up to $3FFF
/// an access does what the same access to $2000 + (address modulo 8) does.
pub proof fn ppu_registers_are_mirrored<T: PPU>(bus: Bus<T>, addr: u16, data: u8)
    requires
        0x2000 <= addr < 0x4000,
    ensures
        mirror_of(addr) == 0x2000 + addr % 8,
        bus.read_spec(addr) == bus.read_spec(mirror_of(addr)),
        bus.write_spec(addr, data) == bus.write_spec(mirror_of(addr), data),
{
}

/// Sprite DMA from a page of work RAM reads the page as it is: the bus
/// stays as it was, and byte `i` of the buffer is the byte of RAM behind
/// address `page * 256 + i`.
pub proof fn dma_reads_ram<T: PPU>(bus: Bus<T>, page: u8, count: nat)
    requires
        page < 0x20,
        count <= 256,
    ensures
        bus.dma_fetched(page, count).0 == bus,
        forall|i: int|
            0 <= i < count ==> bus.dma_fetched(page, count).1[i] == bus.ram[(page * 256 + i)
                % 0x800],
    decreases count,
{
    if count > 0 {
        dma_reads_ram(bus, page, (count - 1) as nat);
    }
}

/// Filling sprite memory from `start` on puts byte `i` of the data at
/// `(start + i) mod 256` and leaves the bytes that were not reached.
pub proof fn oam_fill_wraps(oam: [u8; 256], start: u8, data: [u8; 256], count: nat)
    requires
        count <= 256,
    ensures
        forall|j: int|
            0 <= j < 256 ==> #[trigger] oam_filled(oam, start, data, count)[j] == if (j - start)
                % 256 < count {
                data[(j - start) % 256]
            } else {
                oam[j]
            },
    decreases count,
{
    if count > 0 {
        oam_fill_wraps(oam, start, data, (count - 1) as nat);
        let before = oam_filled(oam, start, data, (count - 1) as nat);
        let at = (start + count - 1) % 256;
        assert((at - start) % 256 == count - 1);
        assert forall|j: int| 0 <= j < 256 implies #[trigger] oam_filled(oam, start, data, count)[j]
            == if (j - start) % 256 < count {
            data[(j - start) % 256]
        } else {
            oam[j]
        } by {
            if j != at {
                assert(before[j] == oam_filled(oam, start, data, count)[j]);
                assert((j - start) % 256 != count - 1);
            }
        }
    }
}

proof fn wrapped_offset(start: int, i: int)
    requires
        0 <= start < 256,
        0 <= i < 256,
    ensures
        0 <= (start + i) % 256 < 256,
        (((start + i) % 256) - start) % 256 == i,
{
}

/// Sprite DMA: a write of `page`, a page of work RAM, to $4014 copies the
/// 256 bytes of that page into sprite memory from the sprite address on,
/// wrapping at the end of sprite memory. Work RAM and the sprite address
/// stay as they were. With page 8 the bytes are those behind $0800-$08FF,
/// the first mirror of RAM[0..256].
pub proof fn oam_dma_copies_page(bus: Bus<NesPPU>, page: u8)
    requires
        page < 0x20,
    ensures
        forall|i: int|
            0 <= i < 256 ==> #[trigger] bus.write_spec(0x4014, page).ppu.oam_data[(
            bus.ppu.oam_addr + i) % 256] == bus.ram[(page * 256 + i) % 0x800],
        bus.write_spec(0x4014, page).ppu.oam_addr == bus.ppu.oam_addr,
        bus.write_spec(0x4014, page).ram == bus.ram,
{
    dma_reads_ram(bus, page, 256);
    let fetched = bus.dma_fetched(page, 256);
    let filled = oam_filled(bus.ppu.oam_data, bus.ppu.oam_addr, fetched.1, 256);
    oam_fill_wraps(bus.ppu.oam_data, bus.ppu.oam_addr, fetched.1, 256);
    let after = bus.write_spec(0x4014, page);
    assert(after == (Bus { ppu: fetched.0.ppu.write_oam_dma_spec(fetched.1), ..fetched.0 }));
    assert(after.ppu.oam_data == filled);
    assert forall|i: int| 0 <= i < 256 implies #[trigger] after.ppu.oam_data[(bus.ppu.oam_addr + i)
        % 256] == bus.ram[(page * 256 + i) % 0x800] by {
        wrapped_offset(bus.ppu.oam_addr as int, i);
        let j = (bus.ppu.oam_addr + i) % 256;
        assert(filled[j] == fetched.1[i]);
    }
}

/// One cycle of the processor is three dots of the picture unit: a tick
/// of the bus by `cycles` ticks the unit by three times as many dots and
/// takes the NMI that the unit raised.
pub proof fn tick_hands_three_dots_per_cycle<T: PPU>(bus: Bus<T>, cycles: u8)
    ensures
        bus.after_tick(cycles).ppu == bus.ppu.tick_spec(
            (3 * cycles) as u16,
        ).0.poll_nmi_interrupt_spec().0,
        bus.after_tick(cycles).cycles == bus.cycles.wrapping_add(cycles as usize),
{
}

/// Counted on the console: a tick of the bus moves the unit's count of dots
/// since the frame began by three times the cycles, and the cycle counter
/// by the cycles.
pub proof fn cycle_is_three_dots(bus: Bus<NesPPU>, cycles: u8)
    requires
        bus.ppu.cycles < 341,
        bus.ppu.line < 261,
        bus.cycles + cycles <= usize::MAX,
    ensures
        bus.after_tick(cycles).ppu.line * 341 + bus.after_tick(cycles).ppu.cycles == bus.ppu.line
            * 341 + bus.ppu.cycles + 3 * cycles,
        bus.after_tick(cycles).cycles == bus.cycles + cycles,
{
    crate::ppu::laws::tick_counts_dots(bus.ppu, (cycles * 3) as u16);
}

/// The NMI latch holds one signal: what the picture unit raises during a
/// tick is latched, a signal that is latched already stays, and a poll
/// takes it.
pub proof fn nmi_latch_is_a_mailbox<T: PPU>(bus: Bus<T>, cycles: u16)
    ensures
        bus.nmi_interrupt is Some ==> bus.tick_spec(cycles).0.nmi_interrupt is Some,
        bus.ppu.tick_spec((cycles * 3) as u16).0.poll_nmi_interrupt_spec().1 is Some
            ==> bus.tick_spec(cycles).0.nmi_interrupt is Some,
        bus.poll_nmi_status_spec().1 == bus.nmi_interrupt,
        bus.poll_nmi_status_spec().0.nmi_interrupt is None,
{
}

/// An access that the memory map has no place for changes nothing but the
/// fault latch: work RAM, cartridge, picture unit, controllers and clocks
/// stay, a read returns 0, and the latch keeps the first fault. Every
/// write to the PRG-ROM, from $8000 on, is such an access.
pub proof fn faulty_access_changes_only_the_latch<T: PPU>(bus: Bus<T>, pos: u16, data: u8)
    ensures
        write_fault(pos) is Some ==> bus.write_spec(pos, data) == bus.faulted(
            write_fault(pos).unwrap(),
        ),
        read_fault(pos) is Some ==> bus.read_spec(pos) == (
            bus.faulted(read_fault(pos).unwrap()),
            0u8,
        ),
        pos >= 0x8000 ==> write_fault(pos) == Some(BusFault::IllegalWrite(pos)),
        forall|fault: BusFault|
            (#[trigger] bus.faulted(fault)) == (Bus {
                fault: if bus.fault is Some {
                    bus.fault
                } else {
                    Some(fault)
                },
                ..bus
            }),
{
}

/// An access that the memory map has a place for never touches the fault
/// latch, sprite DMA aside, whose 256 reads are accesses of their own.
pub proof fn sound_access_keeps_the_latch<T: PPU>(bus: Bus<T>, pos: u16, data: u8)
    ensures
        read_fault(pos) is None ==> bus.read_spec(pos).0.fault == bus.fault,
        write_fault(pos) is None && pos != 0x4014 ==> bus.write_spec(pos, data).fault == bus.fault,
{
}

} // verus!

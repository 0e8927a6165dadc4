use vstd::prelude::*;

use crate::apu::Apu;
use crate::bits::{bit_of_u16, get_bit_u16, set_bit_u16, with_bit_u16};
use crate::cartridge::Cartridge;
use crate::data_access::DataAccess;
use crate::keypad::Keypad;
use crate::lcd::{BackgroundLayer, Lcd, LcdStateChangeInfo};
use crate::timer::{Timer, TimerStepResult};
use crate::cpu::{wadd, wsub};

verus! {

/// Size of the BIOS region.
pub const BIOS_SIZE: usize = 0x4000;

/// Size of the on-board work RAM.
pub const BOARD_WRAM_SIZE: usize = 0x40000;

/// Size of the on-chip work RAM.
pub const CHIP_WRAM_SIZE: usize = 0x8000;

/// Number of stages that an interrupt request passes through before the CPU
/// sees it (a delay of three cycles).
pub const IRQ_SYNC_BUFFER: usize = 4;

pub const BIOS_END: u32 = 0x0000_3FFF;
pub const BOARD_WRAM_BASE: u32 = 0x0200_0000;
pub const CHIP_WRAM_BASE: u32 = 0x0300_0000;
pub const PALETTE_RAM_BASE: u32 = 0x0500_0000;
pub const VRAM_BASE: u32 = 0x0600_0000;
pub const OAM_BASE: u32 = 0x0700_0000;
/// The game pak ROM, mirrored three times (wait states 0 to 2).
pub const ROM_BASE: u32 = 0x0800_0000;
pub const ROM_END: u32 = 0x0DFF_FFFF;
pub const SRAM_BASE: u32 = 0x0E00_0000;

/// Index into the on-board work RAM, which is mirrored through its region.
pub open spec fn board_wram_index(address: u32) -> int {
    ((address - BOARD_WRAM_BASE) % (BOARD_WRAM_SIZE as int))
}

/// Index into the on-chip work RAM, which is mirrored through its region.
pub open spec fn chip_wram_index(address: u32) -> int {
    ((address - CHIP_WRAM_BASE) % (CHIP_WRAM_SIZE as int))
}

pub open spec fn palette_offset(address: u32) -> u32 {
    ((address - PALETTE_RAM_BASE) % 0x400) as u32
}

pub open spec fn oam_offset(address: u32) -> u32 {
    ((address - OAM_BASE) % 0x400) as u32
}

/// Offset into VRAM: the region repeats every 128 KiB, and its upper 32 KiB
/// repeat in the upper half of each repetition.
pub open spec fn vram_offset(address: u32) -> u32 {
    let o = (address - VRAM_BASE) % 0x20000;
    if o < 0x10000 {
        o as u32
    } else {
        ((o - 0x10000) % 0x8000 + 0x10000) as u32
    }
}

/// Offset into the ROM from any of its three mirrors.
pub open spec fn rom_offset(address: u32) -> u32 {
    if address < 0x0A00_0000 {
        (address - 0x0800_0000) as u32
    } else if address < 0x0C00_0000 {
        (address - 0x0A00_0000) as u32
    } else {
        (address - 0x0C00_0000) as u32
    }
}

/// Offset into the SRAM, which is mirrored through its region.
pub open spec fn sram_offset(address: u32) -> u32 {
    ((address - SRAM_BASE) % 0x10000) as u32
}

/// Two bytes as a little-endian halfword.
pub open spec fn le16(b0: u8, b1: u8) -> u16 {
    (b0 as u16) | ((b1 as u16) << 8u16)
}

/// Four bytes as a little-endian word.
pub open spec fn le32(b0: u8, b1: u8, b2: u8, b3: u8) -> u32 {
    (b0 as u32) | ((b1 as u32) << 8u32) | ((b2 as u32) << 16u32) | ((b3 as u32) << 24u32)
}

fn le16_exec(b0: u8, b1: u8) -> (r: u16)
    ensures
        r == le16(b0, b1),
{
    (b0 as u16) | ((b1 as u16) << 8u16)
}

fn le32_exec(b0: u8, b1: u8, b2: u8, b3: u8) -> (r: u32)
    ensures
        r == le32(b0, b1, b2, b3),
{
    (b0 as u32) | ((b1 as u32) << 8u32) | ((b2 as u32) << 16u32) | ((b3 as u32) << 24u32)
}

fn vram_offset_exec(address: u32) -> (r: u32)
    requires
        VRAM_BASE <= address <= 0x06FF_FFFF,
    ensures
        r == vram_offset(address),
        r < 0x18000,
{
    let o = (address - VRAM_BASE) % 0x20000;
    if o < 0x10000 {
        o
    } else {
        (o - 0x10000) % 0x8000 + 0x10000
    }
}

fn rom_offset_exec(address: u32) -> (r: u32)
    requires
        ROM_BASE <= address <= ROM_END,
    ensures
        r == rom_offset(address),
{
    if address < 0x0A00_0000 {
        address - 0x0800_0000
    } else if address < 0x0C00_0000 {
        address - 0x0A00_0000
    } else {
        address - 0x0C00_0000
    }
}

/// What a read of the BIOS region returns: the BIOS itself while the CPU
/// executes from it, else the last opcode fetched from it.
#[derive(Clone, Copy, Debug, PartialEq, Eq, Structural)]
pub enum BiosReadBehavior {
    TrueValue,
    PrefetchValue,
}

#[derive(Clone, Copy, Debug, PartialEq, Eq, Structural)]
pub enum DmaAddrControl {
    Increment,
    Decrement,
    Fixed,
    IncrementReload,
}

#[derive(Clone, Copy, Debug, PartialEq, Eq, Structural)]
pub enum DmaStartTiming {
    Immediately,
    VBlank,
    HBlank,
    Special,
}

/// The registers and state of one DMA channel.
#[derive(Clone, Copy, Debug, PartialEq, Eq, Structural)]
pub struct DmaInfo {
    pub source_addr: u32,
    pub source_addr_mask: u32,
    pub dest_addr: u32,
    pub dest_addr_mask: u32,
    pub word_count: u16,
    pub word_count_mask: u16,
    pub dma_control: u16,
    pub dma_ongoing: bool,
    /// The last value the channel read, which it transfers again for reads
    /// below the external work RAM.
    pub read_latch: u32,
}

/// The sources of interrupt requests.
#[derive(Clone, Copy, Debug, PartialEq, Eq, Structural)]
pub enum InterruptType {
    VBlank,
    HBlank,
    VCount,
    Timer0,
    Timer1,
    Timer2,
    Timer3,
    Dma0,
    Dma1,
    Dma2,
    Dma3,
    Keypad,
}

/// The bit of the interrupt request register that an interrupt sets.
pub open spec fn interrupt_bit(interrupt: InterruptType) -> u16 {
    match interrupt {
        InterruptType::VBlank => 0,
        InterruptType::HBlank => 1,
        InterruptType::VCount => 2,
        InterruptType::Timer0 => 3,
        InterruptType::Timer1 => 4,
        InterruptType::Timer2 => 5,
        InterruptType::Timer3 => 6,
        InterruptType::Dma0 => 8,
        InterruptType::Dma1 => 9,
        InterruptType::Dma2 => 10,
        InterruptType::Dma3 => 11,
        InterruptType::Keypad => 12,
    }
}

/// A DMA channel at power-on with the given address and count masks.
pub open spec fn dma_initial(source_mask: u32, dest_mask: u32, count_mask: u16) -> DmaInfo {
    DmaInfo {
        source_addr: 0,
        source_addr_mask: source_mask,
        dest_addr: 0,
        dest_addr_mask: dest_mask,
        word_count: 0,
        word_count_mask: count_mask,
        dma_control: 0,
        dma_ongoing: false,
        read_latch: 0,
    }
}

impl DmaInfo {
    fn new(source_mask: u32, dest_mask: u32, count_mask: u16) -> (r: Self)
        ensures
            r == dma_initial(source_mask, dest_mask, count_mask),
    {
        DmaInfo {
            source_addr: 0,
            source_addr_mask: source_mask,
            dest_addr: 0,
            dest_addr_mask: dest_mask,
            word_count: 0,
            word_count_mask: count_mask,
            dma_control: 0,
            dma_ongoing: false,
            read_latch: 0,
        }
    }

    pub open spec fn enabled(self) -> bool {
        bit_of_u16(self.dma_control, 15)
    }

    pub open spec fn start_timing(self) -> u16 {
        (self.dma_control >> 12u16) & 3u16
    }

    pub open spec fn repeats(self) -> bool {
        bit_of_u16(self.dma_control, 9)
    }

    pub open spec fn transfers_words(self) -> bool {
        bit_of_u16(self.dma_control, 10)
    }

    pub open spec fn irq_at_end(self) -> bool {
        bit_of_u16(self.dma_control, 14)
    }

    pub open spec fn dest_control(self) -> u16 {
        (self.dma_control >> 5u16) & 3u16
    }

    pub open spec fn source_control(self) -> u16 {
        (self.dma_control >> 7u16) & 3u16
    }

    /// The channel after its control register takes the value `control`: a
    /// rising edge of the enable bit with immediate start timing starts a
    /// transfer.
    pub open spec fn control_written(self, control: u16) -> DmaInfo {
        let written = DmaInfo { dma_control: control, ..self };
        if !self.enabled() && written.enabled() && written.start_timing() == 0 {
            DmaInfo { dma_ongoing: true, ..written }
        } else {
            written
        }
    }

    fn write_source_addr<T>(&mut self, value: T, index: u32) where u32: DataAccess<T>
        requires
            index < <u32 as DataAccess<T>>::lanes(),
        ensures
            *final(self) == (DmaInfo {
                source_addr: old(self).source_addr.spec_set_data(value, index) & old(self).source_addr_mask,
                ..*old(self)
            }),
    {
        self.source_addr = self.source_addr.set_data(value, index) & self.source_addr_mask;
    }

    fn write_dest_addr<T>(&mut self, value: T, index: u32) where u32: DataAccess<T>
        requires
            index < <u32 as DataAccess<T>>::lanes(),
        ensures
            *final(self) == (DmaInfo {
                dest_addr: old(self).dest_addr.spec_set_data(value, index) & old(self).dest_addr_mask,
                ..*old(self)
            }),
    {
        self.dest_addr = self.dest_addr.set_data(value, index) & self.dest_addr_mask;
    }

    fn write_word_count<T>(&mut self, value: T, index: u32) where u16: DataAccess<T>
        requires
            index < <u16 as DataAccess<T>>::lanes(),
        ensures
            *final(self) == (DmaInfo {
                word_count: old(self).word_count.spec_set_data(value, index) & old(self).word_count_mask,
                ..*old(self)
            }),
    {
        self.word_count = self.word_count.set_data(value, index) & self.word_count_mask;
    }

    fn read_dma_control<T>(&self, index: u32) -> (r: T) where u16: DataAccess<T>
        requires
            index < <u16 as DataAccess<T>>::lanes(),
        ensures
            r == self.dma_control.spec_get_data(index),
    {
        self.dma_control.get_data(index)
    }

    fn write_dma_control<T>(&mut self, value: T, index: u32) where u16: DataAccess<T>
        requires
            index < <u16 as DataAccess<T>>::lanes(),
        ensures
            *final(self) == old(self).control_written(old(self).dma_control.spec_set_data(value, index)),
    {
        let old_dma_enable = self.get_dma_enable();
        self.dma_control = self.dma_control.set_data(value, index);
        if !old_dma_enable && self.get_dma_enable() && self.get_dma_start_timing()
            == DmaStartTiming::Immediately {
            self.dma_ongoing = true;
        }
    }

    fn get_dest_addr_control(&self) -> (r: DmaAddrControl)
        ensures
            r == addr_control(self.dest_control()),
    {
        let v = self.dma_control;
        assert((v >> 5u16) & 3u16 < 4) by {
            crate::bits::lemma_u16_fields(v);
        }
        match (self.dma_control >> 5u16) & 3 {
            0 => DmaAddrControl::Increment,
            1 => DmaAddrControl::Decrement,
            2 => DmaAddrControl::Fixed,
            _ => DmaAddrControl::IncrementReload,
        }
    }

    fn get_source_addr_control(&self) -> (r: DmaAddrControl)
        ensures
            r == addr_control(self.source_control()),
    {
        let v = self.dma_control;
        assert((v >> 7u16) & 3u16 < 4) by {
            crate::bits::lemma_u16_fields(v);
        }
        match (self.dma_control >> 7u16) & 3 {
            0 => DmaAddrControl::Increment,
            1 => DmaAddrControl::Decrement,
            2 => DmaAddrControl::Fixed,
            _ => DmaAddrControl::IncrementReload,
        }
    }

    fn get_dma_start_timing(&self) -> (r: DmaStartTiming)
        ensures
            (r == DmaStartTiming::Immediately) == (self.start_timing() == 0),
            (r == DmaStartTiming::VBlank) == (self.start_timing() == 1),
            (r == DmaStartTiming::HBlank) == (self.start_timing() == 2),
            (r == DmaStartTiming::Special) == (self.start_timing() == 3),
    {
        let v = self.dma_control;
        assert((v >> 12u16) & 3u16 < 4) by {
            crate::bits::lemma_u16_fields(v);
        }
        match (self.dma_control >> 12u16) & 3 {
            0 => DmaStartTiming::Immediately,
            1 => DmaStartTiming::VBlank,
            2 => DmaStartTiming::HBlank,
            _ => DmaStartTiming::Special,
        }
    }

    fn get_dma_enable(&self) -> (r: bool)
        ensures
            r == self.enabled(),
    {
        get_bit_u16(self.dma_control, 15)
    }
}

/// The address control that a 2-bit field selects.
pub open spec fn addr_control(field: u16) -> DmaAddrControl {
    if field == 0 {
        DmaAddrControl::Increment
    } else if field == 1 {
        DmaAddrControl::Decrement
    } else if field == 2 {
        DmaAddrControl::Fixed
    } else {
        DmaAddrControl::IncrementReload
    }
}

/// An address after one DMA unit of `unit` bytes under `control`.
pub open spec fn dma_moved(address: u32, control: DmaAddrControl, unit: u32) -> u32 {
    match control {
        DmaAddrControl::Fixed => address,
        DmaAddrControl::Decrement => wsub(address, unit),
        _ => wadd(address, unit),
    }
}

/// The source after one DMA unit: in game pak ROM it always counts up.
pub open spec fn dma_next_source(d: DmaInfo, source: u32, unit: u32) -> u32 {
    if ROM_BASE <= source <= ROM_END {
        wadd(source, unit)
    } else {
        dma_moved(source, addr_control(d.source_control()), unit)
    }
}

/// The value one DMA unit of channel `idx` moves from `source`: below work
/// RAM the channel's latch, else the word or halfword there.
pub open spec fn dma_unit_value(b: Bus, idx: int, source: u32, words: bool) -> u32 {
    if source < BOARD_WRAM_BASE {
        if words {
            b.dma_infos[idx].read_latch
        } else {
            b.dma_infos[idx].read_latch as u16 as u32
        }
    } else if words {
        b.word_at(source & !3u32)
    } else {
        b.hword_at(source & !1u32) as u32
    }
}

/// Whether `mid` is the bus after the read of one DMA unit of channel `idx`
/// from `source`: a read from work RAM up leaves its mark on the open-bus
/// latches and fills the channel's latch (a halfword twice).
pub open spec fn dma_unit_read(b: Bus, mid: Bus, idx: int, source: u32, words: bool) -> bool {
    if source < BOARD_WRAM_BASE {
        mid == b
    } else {
        let read = if words {
            b.after_word_read(source & !3u32)
        } else {
            b.after_hword_read(source & !1u32)
        };
        let v = dma_unit_value(b, idx, source, words);
        let latch = if words {
            v
        } else {
            (v << 16u32) | v
        };
        &&& mid.dma_infos@ == read.dma_infos@.update(idx, DmaInfo { read_latch: latch, ..read.dma_infos[idx] })
        &&& mid == Bus { dma_infos: mid.dma_infos, ..read }
    }
}

/// Whether `after` is the bus after one DMA unit of channel `idx` from
/// `source` to `dest`: the read, then the write of the value.
pub open spec fn dma_unit_done(b: Bus, after: Bus, idx: int, source: u32, dest: u32, words: bool) -> bool {
    exists|mid: Bus|
        #[trigger] dma_unit_read(b, mid, idx, source, words) && if words {
            mid.word_written(&after, dma_unit_value(b, idx, source, words), dest & !3u32)
        } else {
            mid.hword_written(&after, dma_unit_value(b, idx, source, words) as u16, dest & !1u32)
        }
}

/// Whether `buses`, `sources` and `dests` hold the bus and the addresses
/// before each of `count` DMA units of channel `idx` and, last, after them
/// all: each unit moves its value, then the addresses move under the
/// controls that the channel has after the unit's write.
pub open spec fn dma_units_done(buses: Seq<Bus>, sources: Seq<u32>, dests: Seq<u32>, idx: int, count: nat, words: bool) -> bool {
    let unit: u32 = if words {
        4
    } else {
        2
    };
    &&& buses.len() == count + 1
    &&& sources.len() == count + 1
    &&& dests.len() == count + 1
    &&& forall|k: int|
        0 <= k < count ==> {
            &&& #[trigger] dma_unit_done(buses[k], buses[k + 1], idx, sources[k], dests[k], words)
            &&& sources[k + 1] == dma_next_source(buses[k + 1].dma_infos[idx], sources[k], unit)
            &&& dests[k + 1] == dma_moved(dests[k], addr_control(buses[k + 1].dma_infos[idx].dest_control()), unit)
        }
}

/// The interrupt that channel `idx` requests at the end of a transfer.
pub open spec fn dma_interrupt(idx: int) -> InterruptType {
    if idx == 0 {
        InterruptType::Dma0
    } else if idx == 1 {
        InterruptType::Dma1
    } else if idx == 2 {
        InterruptType::Dma2
    } else {
        InterruptType::Dma3
    }
}

/// Whether `after` is the bus after a whole transfer of channel `idx`, made
/// of the units that `buses`, `sources` and `dests` record: the channel keeps
/// its last addresses (the destination reloaded under its reload control),
/// is disabled unless it repeats, stops, and requests its interrupt if asked
/// to.
pub open spec fn dma_transferred(b: Bus, after: Bus, idx: int, buses: Seq<Bus>, sources: Seq<u32>, dests: Seq<u32>) -> bool {
    let d0 = b.dma_infos[idx];
    let n = d0.word_count as nat;
    let last = buses[n as int];
    let d = last.dma_infos[idx];
    let fin = DmaInfo {
        source_addr: sources[n as int],
        dest_addr: if addr_control(d.dest_control()) == DmaAddrControl::IncrementReload {
            d0.dest_addr
        } else {
            dests[n as int]
        },
        dma_control: if d.repeats() {
            d.dma_control
        } else {
            with_bit_u16(d.dma_control, 15, false)
        },
        dma_ongoing: false,
        ..d
    };
    &&& buses[0] == b
    &&& sources[0] == d0.source_addr
    &&& dests[0] == d0.dest_addr
    &&& dma_units_done(buses, sources, dests, idx, n, d0.transfers_words())
    &&& after.dma_infos@ == last.dma_infos@.update(idx, fin)
    &&& after.interrupt_request[0] == if fin.irq_at_end() {
        with_bit_u16(last.interrupt_request[0], interrupt_bit(dma_interrupt(idx)), true)
    } else {
        last.interrupt_request[0]
    }
    &&& forall|i: int| 1 <= i < 4 ==> after.interrupt_request[i] == last.interrupt_request[i]
    &&& after == Bus { dma_infos: after.dma_infos, interrupt_request: after.interrupt_request, ..last }
}

/// Whether `after` is the bus after channel `idx` had its turn: a started
/// channel runs its whole transfer, any other leaves the bus as it is.
pub open spec fn dma_channel_stepped(b: Bus, after: Bus, idx: int) -> bool {
    if b.dma_infos[idx].dma_ongoing {
        exists|buses: Seq<Bus>, sources: Seq<u32>, dests: Seq<u32>|
            #[trigger] dma_transferred(b, after, idx, buses, sources, dests)
    } else {
        after == b
    }
}

/// Whether `after` is the bus after the four channels had their turns in
/// order of channel number, `states` holding the bus before each turn and,
/// last, after them all.
pub open spec fn dma_stepped(b: Bus, after: Bus, states: Seq<Bus>) -> bool {
    &&& states.len() == 5
    &&& states[0] == b
    &&& states[4] == after
    &&& forall|i: int| 0 <= i < 4 ==> #[trigger] dma_channel_stepped(states[i], states[i + 1], i)
}

/// Whether `after` is `b` with `interrupt` requested.
pub open spec fn irq_requested(b: Bus, after: Bus, interrupt: InterruptType) -> bool {
    &&& after.interrupt_request[0] == with_bit_u16(b.interrupt_request[0], interrupt_bit(interrupt), true)
    &&& forall|i: int| 1 <= i < 4 ==> after.interrupt_request[i] == b.interrupt_request[i]
    &&& after == Bus { interrupt_request: after.interrupt_request, ..b }
}

/// The request bits after the display reports `changes`: the blank and
/// line-match interrupts that `lcd` enables for the changes that happened.
pub open spec fn display_requests(requests: u16, changes: LcdStateChangeInfo, lcd: Lcd) -> u16 {
    let v = if changes.vblank_entered && bit_of_u16(lcd.lcd_status, 3) {
        with_bit_u16(requests, interrupt_bit(InterruptType::VBlank), true)
    } else {
        requests
    };
    let h = if changes.hblank_entered && bit_of_u16(lcd.lcd_status, 4) {
        with_bit_u16(v, interrupt_bit(InterruptType::HBlank), true)
    } else {
        v
    };
    if changes.vcount_matched && bit_of_u16(lcd.lcd_status, 5) {
        with_bit_u16(h, interrupt_bit(InterruptType::VCount), true)
    } else {
        h
    }
}

/// Whether `after` is `b` after a display step that reports `changes`: the
/// display one dot on, the DMA channels told of the changes, and the
/// display's interrupts requested.
pub open spec fn display_stepped(b: Bus, after: Bus, changes: LcdStateChangeInfo) -> bool {
    &&& b.lcd.stepped_to(after.lcd, changes)
    &&& forall|i: int| 0 <= i < 4 ==> #[trigger] after.dma_infos[i] == dma_informed(b.dma_infos[i], changes)
    &&& after.interrupt_request[0] == display_requests(b.interrupt_request[0], changes, after.lcd)
    &&& forall|i: int| 1 <= i < 4 ==> after.interrupt_request[i] == b.interrupt_request[i]
    &&& after == Bus { lcd: after.lcd, dma_infos: after.dma_infos, interrupt_request: after.interrupt_request, ..b }
}

/// Whether `after` is `b` one cycle on, through the buses `s` between the
/// stages of the cycle: the keypad interrupt, the timers (reporting
/// `timer_result`), the sound unit, the display every fourth cycle
/// (reporting `changes`), the DMA channels (through `dma_states`), and last
/// the interrupt request pipeline moved on by one stage and the cycle
/// counted.
pub open spec fn bus_stepped(
    b: Bus,
    after: Bus,
    s: Seq<Bus>,
    dma_states: Seq<Bus>,
    timer_result: TimerStepResult,
    changes: LcdStateChangeInfo,
) -> bool {
    &&& s.len() == 6
    &&& s[0] == b
    &&& if b.keypad.irq_pending() {
        irq_requested(s[0], s[1], InterruptType::Keypad)
    } else {
        s[1] == s[0]
    }
    &&& s[1].timers_stepped(s[2], timer_result)
    &&& s[2].apu.stepped_to(s[3].apu, timer_result)
    &&& s[3] == Bus { apu: s[3].apu, ..s[2] }
    &&& if b.cycle_count % 4 == 0 {
        display_stepped(s[3], s[4], changes)
    } else {
        s[4] == s[3]
    }
    &&& dma_stepped(s[4], s[5], dma_states)
    &&& after.interrupt_request[0] == s[5].interrupt_request[0]
    &&& after.interrupt_request[1] == s[5].interrupt_request[0]
    &&& after.interrupt_request[2] == s[5].interrupt_request[1]
    &&& after.interrupt_request[3] == s[5].interrupt_request[2]
    &&& after.cycle_count == (if b.cycle_count == usize::MAX {
        0
    } else {
        (b.cycle_count + 1) as usize
    })
    &&& after == Bus { interrupt_request: after.interrupt_request, cycle_count: after.cycle_count, ..s[5] }
}

/// Whether `after` is `b` one bus cycle on.
pub open spec fn bus_cycled(b: Bus, after: Bus) -> bool {
    exists|s: Seq<Bus>, dma_states: Seq<Bus>, timer_result: TimerStepResult, changes: LcdStateChangeInfo|
        #[trigger] bus_stepped(b, after, s, dma_states, timer_result, changes)
}

/// Whether `after` is `b` after `n` bus cycles, `chain` holding the bus
/// before each cycle and, last, after them all.
pub open spec fn bus_cycles(b: Bus, after: Bus, n: nat, chain: Seq<Bus>) -> bool {
    &&& chain.len() == n + 1
    &&& chain[0] == b
    &&& chain[n as int] == after
    &&& forall|k: int| 0 <= k < n ==> #[trigger] bus_cycled(chain[k], chain[k + 1])
}

/// Whether `after` is `b` after `n` bus cycles.
pub open spec fn bus_ran(b: Bus, after: Bus, n: nat) -> bool {
    exists|chain: Seq<Bus>| #[trigger] bus_cycles(b, after, n, chain)
}

/// Whether `after` keeps the later stages (1 to 3) of `b`'s interrupt
/// request pipeline.
pub open spec fn keeps_later_stages(b: Bus, after: Bus) -> bool {
    &&& after.interrupt_request[1] == b.interrupt_request[1]
    &&& after.interrupt_request[2] == b.interrupt_request[2]
    &&& after.interrupt_request[3] == b.interrupt_request[3]
}

/// A byte write enters no request stage but the first: writes to the
/// interrupt registers change only the first stage.
proof fn lemma_byte_write_keeps_stages(b: Bus, after: Bus, value: u8, address: u32)
    requires
        b.byte_written(&after, value, address),
    ensures
        keeps_later_stages(b, after),
{
}

/// A halfword write keeps the later request stages.
proof fn lemma_hword_write_keeps_stages(b: Bus, after: Bus, value: u16, address: u32)
    requires
        b.hword_written(&after, value, address),
    ensures
        keeps_later_stages(b, after),
{
    let aligned = address & !1u32;
    if !(CHIP_WRAM_BASE <= aligned <= 0x03FF_FFFF) && !(BOARD_WRAM_BASE <= aligned <= 0x02FF_FFFF) && !(OAM_BASE
        <= aligned <= 0x07FF_FFFF) && !(PALETTE_RAM_BASE <= aligned <= 0x05FF_FFFF) && !(VRAM_BASE <= aligned
        <= 0x06FF_FFFF) && !(ROM_BASE <= aligned <= ROM_END) && !(SRAM_BASE <= aligned) {
        let mid = choose|mid: Bus|
            #[trigger] b.byte_written(&mid, value as u8, aligned) && mid.byte_written(
                &after,
                (value >> 8u16) as u8,
                (aligned + 1) as u32,
            );
        lemma_byte_write_keeps_stages(b, mid, value as u8, aligned);
        lemma_byte_write_keeps_stages(mid, after, (value >> 8u16) as u8, (aligned + 1) as u32);
    }
}

/// A word write keeps the later request stages.
proof fn lemma_word_write_keeps_stages(b: Bus, after: Bus, value: u32, address: u32)
    requires
        b.word_written(&after, value, address),
    ensures
        keeps_later_stages(b, after),
{
    let aligned = address & !3u32;
    if !(CHIP_WRAM_BASE <= aligned <= 0x03FF_FFFF) && !(BOARD_WRAM_BASE <= aligned <= 0x02FF_FFFF) && !(0x0400_0100
        <= aligned <= 0x0400_010F) && !(OAM_BASE <= aligned <= 0x07FF_FFFF) && !(PALETTE_RAM_BASE <= aligned
        <= 0x05FF_FFFF) && !(VRAM_BASE <= aligned <= 0x06FF_FFFF) && !(ROM_BASE <= aligned <= ROM_END) && !(SRAM_BASE
        <= aligned) {
        let b0 = value as u8;
        let b1 = (value >> 8u32) as u8;
        let b2 = (value >> 16u32) as u8;
        let b3 = (value >> 24u32) as u8;
        let (m1, m2, m3) = choose|m1: Bus, m2: Bus, m3: Bus|
            #[trigger] b.byte_written(&m1, b0, aligned) && #[trigger] m1.byte_written(&m2, b1, (aligned + 1) as u32)
                && #[trigger] m2.byte_written(&m3, b2, (aligned + 2) as u32) && m3.byte_written(
                &after,
                b3,
                (aligned + 3) as u32,
            );
        lemma_byte_write_keeps_stages(b, m1, b0, aligned);
        lemma_byte_write_keeps_stages(m1, m2, b1, (aligned + 1) as u32);
        lemma_byte_write_keeps_stages(m2, m3, b2, (aligned + 2) as u32);
        lemma_byte_write_keeps_stages(m3, after, b3, (aligned + 3) as u32);
    }
}

/// One DMA unit keeps the later request stages.
proof fn lemma_dma_unit_keeps_stages(b: Bus, after: Bus, idx: int, source: u32, dest: u32, words: bool)
    requires
        dma_unit_done(b, after, idx, source, dest, words),
    ensures
        keeps_later_stages(b, after),
{
    let mid = choose|mid: Bus|
        #[trigger] dma_unit_read(b, mid, idx, source, words) && if words {
            mid.word_written(&after, dma_unit_value(b, idx, source, words), dest & !3u32)
        } else {
            mid.hword_written(&after, dma_unit_value(b, idx, source, words) as u16, dest & !1u32)
        };
    assert(keeps_later_stages(b, mid));
    if words {
        lemma_word_write_keeps_stages(mid, after, dma_unit_value(b, idx, source, words), dest & !3u32);
    } else {
        lemma_hword_write_keeps_stages(mid, after, dma_unit_value(b, idx, source, words) as u16, dest & !1u32);
    }
}

/// The first `n` units of a DMA transfer keep the later request stages.
proof fn lemma_dma_units_keep_stages(
    buses: Seq<Bus>,
    sources: Seq<u32>,
    dests: Seq<u32>,
    idx: int,
    count: nat,
    words: bool,
    n: nat,
)
    requires
        dma_units_done(buses, sources, dests, idx, count, words),
        n <= count,
    ensures
        keeps_later_stages(buses[0], buses[n as int]),
    decreases n,
{
    if n > 0 {
        let k = (n - 1) as int;
        lemma_dma_units_keep_stages(buses, sources, dests, idx, count, words, (n - 1) as nat);
        assert(dma_unit_done(buses[k], buses[k + 1], idx, sources[k], dests[k], words));
        lemma_dma_unit_keeps_stages(buses[k], buses[k + 1], idx, sources[k], dests[k], words);
    }
}

/// One DMA channel's turn keeps the later request stages.
proof fn lemma_channel_keeps_stages(b: Bus, after: Bus, idx: int)
    requires
        dma_channel_stepped(b, after, idx),
    ensures
        keeps_later_stages(b, after),
{
    if b.dma_infos[idx].dma_ongoing {
        let (buses, sources, dests) = choose|buses: Seq<Bus>, sources: Seq<u32>, dests: Seq<u32>|
            #[trigger] dma_transferred(b, after, idx, buses, sources, dests);
        let n = b.dma_infos[idx].word_count as nat;
        lemma_dma_units_keep_stages(buses, sources, dests, idx, n, b.dma_infos[idx].transfers_words(), n);
    }
}

/// The DMA channels' turns in a cycle keep the later request stages.
proof fn lemma_dma_keeps_stages(b: Bus, after: Bus, states: Seq<Bus>)
    requires
        dma_stepped(b, after, states),
    ensures
        keeps_later_stages(b, after),
{
    assert forall|i: int| 0 <= i < 4 implies keeps_later_stages(#[trigger] states[i], states[i + 1]) by {
        assert(dma_channel_stepped(states[i], states[i + 1], i));
        lemma_channel_keeps_stages(states[i], states[i + 1], i);
    }
    assert(keeps_later_stages(states[0], states[0int + 1]));
    assert(keeps_later_stages(states[1], states[1int + 1]));
    assert(keeps_later_stages(states[2], states[2int + 1]));
    assert(keeps_later_stages(states[3], states[3int + 1]));
}

/// Each cycle moves the interrupt request pipeline on by one stage: the
/// second stage takes the first, and the third and fourth take what the
/// second and third held before, so a request reaches the last stage three
/// cycles after it enters. (The first stage may lose bits within a cycle:
/// a DMA transfer can write the acknowledge register.)
pub proof fn lemma_step_moves_requests(
    b: Bus,
    after: Bus,
    s: Seq<Bus>,
    dma_states: Seq<Bus>,
    timer_result: TimerStepResult,
    changes: LcdStateChangeInfo,
)
    requires
        bus_stepped(b, after, s, dma_states, timer_result, changes),
    ensures
        after.interrupt_request[1] == after.interrupt_request[0],
        after.interrupt_request[2] == b.interrupt_request[1],
        after.interrupt_request[3] == b.interrupt_request[2],
{
    assert(keeps_later_stages(s[0], s[1]));
    assert(keeps_later_stages(s[1], s[2]));
    assert(keeps_later_stages(s[2], s[3]));
    assert(keeps_later_stages(s[3], s[4]));
    lemma_dma_keeps_stages(s[4], s[5], dma_states);
}

/// No DMA units: the bus and the addresses as they are.
proof fn lemma_dma_units_none(b: Bus, source: u32, dest: u32, idx: int, words: bool)
    ensures
        dma_units_done(seq![b], seq![source], seq![dest], idx, 0, words),
{
}

/// One more DMA unit extends a record of DMA units.
proof fn lemma_dma_units_push(
    buses: Seq<Bus>,
    sources: Seq<u32>,
    dests: Seq<u32>,
    idx: int,
    count: nat,
    words: bool,
    after: Bus,
    source: u32,
    dest: u32,
)
    requires
        dma_units_done(buses, sources, dests, idx, count, words),
        dma_unit_done(buses[count as int], after, idx, sources[count as int], dests[count as int], words),
        source == dma_next_source(after.dma_infos[idx], sources[count as int], if words {
            4u32
        } else {
            2u32
        }),
        dest == dma_moved(dests[count as int], addr_control(after.dma_infos[idx].dest_control()), if words {
            4u32
        } else {
            2u32
        }),
    ensures
        dma_units_done(buses.push(after), sources.push(source), dests.push(dest), idx, count + 1, words),
{
    let bs = buses.push(after);
    let ss = sources.push(source);
    let ds = dests.push(dest);
    assert forall|k: int| 0 <= k < count + 1 implies {
        &&& #[trigger] dma_unit_done(bs[k], bs[k + 1], idx, ss[k], ds[k], words)
        &&& ss[k + 1] == dma_next_source(bs[k + 1].dma_infos[idx], ss[k], if words {
            4u32
        } else {
            2u32
        })
        &&& ds[k + 1] == dma_moved(ds[k], addr_control(bs[k + 1].dma_infos[idx].dest_control()), if words {
            4u32
        } else {
            2u32
        })
    } by {
        if k < count {
            assert(bs[k] == buses[k] && bs[k + 1] == buses[k + 1] && ss[k] == sources[k] && ss[k + 1] == sources[k + 1]
                && ds[k] == dests[k] && ds[k + 1] == dests[k + 1]);
            assert(dma_unit_done(buses[k], buses[k + 1], idx, sources[k], dests[k], words));
        }
    }
}

/// The request bits (3 to 6) of the timers that overflowed with their
/// interrupt enabled.
pub open spec fn timer_irq_bits(t0: bool, t1: bool, t2: bool, t3: bool) -> u16 {
    (((0u16 | (if t0 { 8u16 } else { 0u16 })) | (if t1 { 16u16 } else { 0u16 })) | (if t2 {
        32u16
    } else {
        0u16
    })) | (if t3 {
        64u16
    } else {
        0u16
    })
}

/// A DMA channel after the display reports its state changes: an enabled
/// channel waiting for vertical (timing 1) or horizontal (timing 2) blank
/// starts when that blank begins.
pub open spec fn dma_informed(dma: DmaInfo, changes: LcdStateChangeInfo) -> DmaInfo {
    if dma.enabled() && ((dma.start_timing() == 1 && changes.vblank_entered) || (dma.start_timing() == 2
        && changes.hblank_entered)) {
        DmaInfo { dma_ongoing: true, ..dma }
    } else {
        dma
    }
}

/// The system bus: the memory map from addresses to memories and device
/// registers, the DMA channels, the timers and the interrupt controller.
#[derive(Clone, Debug)]
pub struct Bus {
    pub bios: Vec<u8>,
    pub chip_wram: Vec<u8>,
    pub board_wram: Vec<u8>,
    pub cycle_count: usize,
    pub interrupt_master_enable: u16,
    pub interrupt_enable: u16,
    /// Interrupt requests in flight: new requests enter at index 0, and the
    /// CPU sees the last entry.
    pub interrupt_request: [u16; 4],
    pub dma_infos: [DmaInfo; 4],
    pub timers: [Timer; 4],
    pub open_bus_data: u32,
    pub open_bus_iwram_data: u32,
    pub open_bus_bios_data: u32,
    pub bios_read_behavior: BiosReadBehavior,
    pub lcd: Lcd,
    pub apu: Apu,
    pub keypad: Keypad,
    pub cartridge: Cartridge,
}

impl Bus {
    pub open spec fn wf(&self) -> bool {
        &&& self.bios.len() == BIOS_SIZE
        &&& self.chip_wram.len() == CHIP_WRAM_SIZE
        &&& self.board_wram.len() == BOARD_WRAM_SIZE
        &&& self.lcd.wf()
        &&& self.apu.wf()
        &&& self.cartridge.wf()
    }

    /// The interrupt request bits that the CPU currently sees.
    pub open spec fn visible_irq(&self) -> u16 {
        self.interrupt_request[3]
    }

    pub open spec fn irq_pending(&self) -> bool {
        bit_of_u16(self.interrupt_master_enable, 0) && (self.interrupt_enable & self.visible_irq()) != 0
    }

    /// A bus around `cartridge`, with an empty (zero) BIOS, cleared memories,
    /// idle devices and no interrupts.
    /// Whether this is the bus at power-on around `cartridge`: an empty
    /// (zero) BIOS, cleared memories, no interrupts enabled or requested,
    /// idle DMA channels and cleared open-bus latches.
    pub open spec fn is_power_on(&self, cartridge: Cartridge) -> bool {
        &&& self.cartridge == cartridge
        &&& self.bios@ == Seq::new(BIOS_SIZE as nat, |i: int| 0u8)
        &&& self.chip_wram@ == Seq::new(CHIP_WRAM_SIZE as nat, |i: int| 0u8)
        &&& self.board_wram@ == Seq::new(BOARD_WRAM_SIZE as nat, |i: int| 0u8)
        &&& self.cycle_count == 0
        &&& self.interrupt_master_enable == 0
        &&& self.interrupt_enable == 0
        &&& forall|i: int| 0 <= i < 4 ==> self.interrupt_request[i] == 0
        &&& self.dma_infos[0] == dma_initial(0x07FF_FFFF, 0x07FF_FFFF, 0x3FFF)
        &&& self.dma_infos[1] == dma_initial(0x0FFF_FFFF, 0x07FF_FFFF, 0x3FFF)
        &&& self.dma_infos[2] == dma_initial(0x0FFF_FFFF, 0x07FF_FFFF, 0x3FFF)
        &&& self.dma_infos[3] == dma_initial(0x0FFF_FFFF, 0x0FFF_FFFF, 0xFFFF)
        &&& self.open_bus_data == 0
        &&& self.open_bus_iwram_data == 0
        &&& self.open_bus_bios_data == 0
        &&& self.bios_read_behavior == BiosReadBehavior::TrueValue
    }

    pub fn new(cartridge: Cartridge) -> (r: Self)
        requires
            cartridge.wf(),
        ensures
            r.wf(),
            r.is_power_on(cartridge),
    {
        let bios = vec![0u8; BIOS_SIZE];
        let chip_wram = vec![0u8; CHIP_WRAM_SIZE];
        let board_wram = vec![0u8; BOARD_WRAM_SIZE];
        assert(bios@ =~= Seq::new(BIOS_SIZE as nat, |i: int| 0u8));
        assert(chip_wram@ =~= Seq::new(CHIP_WRAM_SIZE as nat, |i: int| 0u8));
        assert(board_wram@ =~= Seq::new(BOARD_WRAM_SIZE as nat, |i: int| 0u8));
        Bus {
            bios,
            chip_wram,
            board_wram,
            cycle_count: 0,
            interrupt_master_enable: 0,
            interrupt_enable: 0,
            interrupt_request: [0u16, 0u16, 0u16, 0u16],
            dma_infos: [
                DmaInfo::new(0x07FF_FFFF, 0x07FF_FFFF, 0x3FFF),
                DmaInfo::new(0x0FFF_FFFF, 0x07FF_FFFF, 0x3FFF),
                DmaInfo::new(0x0FFF_FFFF, 0x07FF_FFFF, 0x3FFF),
                DmaInfo::new(0x0FFF_FFFF, 0x0FFF_FFFF, 0xFFFF),
            ],
            timers: [Timer::new(), Timer::new(), Timer::new(), Timer::new()],
            open_bus_data: 0,
            open_bus_iwram_data: 0,
            open_bus_bios_data: 0,
            bios_read_behavior: BiosReadBehavior::TrueValue,
            lcd: Lcd::new(),
            apu: Apu::new(),
            keypad: Keypad::new(),
            cartridge,
        }
    }

    /// Installs a BIOS image; refused (returning false, with nothing changed)
    /// unless it has exactly the size of the BIOS region.
    pub fn load_bios(&mut self, bios: &Vec<u8>) -> (r: bool)
        requires
            old(self).wf(),
        ensures
            final(self).wf(),
            r == (bios.len() == BIOS_SIZE),
            r ==> final(self).bios@ == bios@,
            !r ==> final(self).bios@ == old(self).bios@,
            final(self).chip_wram == old(self).chip_wram,
            final(self).board_wram == old(self).board_wram,
            final(self).cartridge == old(self).cartridge,
    {
        if bios.len() != BIOS_SIZE {
            return false;
        }
        self.bios = bios.clone();
        true
    }

    pub fn get_interrupt_request_debug(&self) -> (r: [u16; 4])
        ensures
            r == self.interrupt_request,
    {
        self.interrupt_request
    }

    fn read_interrupt_enable<T>(&self, index: u32) -> (r: T) where u16: DataAccess<T>
        requires
            index < <u16 as DataAccess<T>>::lanes(),
        ensures
            r == self.interrupt_enable.spec_get_data(index),
    {
        self.interrupt_enable.get_data(index)
    }

    fn write_interrupt_enable<T>(&mut self, value: T, index: u32) where u16: DataAccess<T>
        requires
            index < <u16 as DataAccess<T>>::lanes(),
        ensures
            *final(self) == (Bus {
                interrupt_enable: old(self).interrupt_enable.spec_set_data(value, index),
                ..*old(self)
            }),
    {
        self.interrupt_enable = self.interrupt_enable.set_data(value, index);
    }

    fn read_interrupt_master_enable<T>(&self, index: u32) -> (r: T) where u16: DataAccess<T>
        requires
            index < <u16 as DataAccess<T>>::lanes(),
        ensures
            r == self.interrupt_master_enable.spec_get_data(index),
    {
        self.interrupt_master_enable.get_data(index)
    }

    fn write_interrupt_master_enable<T>(&mut self, value: T, index: u32) where u16: DataAccess<T>
        requires
            index < <u16 as DataAccess<T>>::lanes(),
        ensures
            *final(self) == (Bus {
                interrupt_master_enable: old(self).interrupt_master_enable.spec_set_data(value, index),
                ..*old(self)
            }),
    {
        self.interrupt_master_enable = self.interrupt_master_enable.set_data(value, index);
    }

    fn read_interrupt_request<T>(&self, index: u32) -> (r: T) where u16: DataAccess<T>
        requires
            index < <u16 as DataAccess<T>>::lanes(),
        ensures
            r == self.visible_irq().spec_get_data(index),
    {
        let irq = self.interrupt_request[3];
        irq.get_data(index)
    }

    /// Writing a 1 to a bit of the request register acknowledges (clears)
    /// that request.
    fn write_interrupt_acknowledge<T>(&mut self, value: T, index: u32) where u16: DataAccess<T>
        requires
            index < <u16 as DataAccess<T>>::lanes(),
        ensures
            final(self).interrupt_request[0] == old(self).interrupt_request[0] & !(0u16.spec_set_data(value, index)),
            forall|i: int| 1 <= i < 4 ==> final(self).interrupt_request[i] == old(self).interrupt_request[i],
            *final(self) == (Bus { interrupt_request: final(self).interrupt_request, ..*old(self) }),
    {
        let written_value = 0u16.set_data(value, index);
        let first = self.interrupt_request[0];
        self.interrupt_request[0] = first & !written_value;
    }

    /// Raises the request bit of `interrupt` at the entry of the pipeline.
    fn request_interrupt(&mut self, interrupt: InterruptType)
        ensures
            final(self).interrupt_request[0] == with_bit_u16(old(self).interrupt_request[0], interrupt_bit(interrupt), true),
            forall|i: int| 1 <= i < 4 ==> final(self).interrupt_request[i] == old(self).interrupt_request[i],
            *final(self) == (Bus { interrupt_request: final(self).interrupt_request, ..*old(self) }),
    {
        let bit_index: u16 = match interrupt {
            InterruptType::VBlank => 0,
            InterruptType::HBlank => 1,
            InterruptType::VCount => 2,
            InterruptType::Timer0 => 3,
            InterruptType::Timer1 => 4,
            InterruptType::Timer2 => 5,
            InterruptType::Timer3 => 6,
            InterruptType::Dma0 => 8,
            InterruptType::Dma1 => 9,
            InterruptType::Dma2 => 10,
            InterruptType::Dma3 => 11,
            InterruptType::Keypad => 12,
        };
        let old_irq = self.interrupt_request[0];
        self.interrupt_request[0] = set_bit_u16(old_irq, bit_index, true);
    }

    /// Whether an enabled interrupt is requested while interrupts are
    /// enabled at all (bit 0 of the master enable register).
    pub fn get_irq_pending(&self) -> (r: bool)
        ensures
            r == self.irq_pending(),
    {
        if !get_bit_u16(self.interrupt_master_enable, 0) {
            false
        } else {
            let irq = self.interrupt_request[3];
            (self.interrupt_enable & irq) != 0
        }
    }

    /// The value a byte read of the I/O register at `address` returns;
    /// `None` where no register answers and the read sees the open bus.
    pub open spec fn io_byte(&self, address: u32) -> Option<u8> {
        if 0x04000000 <= address <= 0x04000001 {
            Some(self.lcd.lcd_control.spec_get_data(address & 1u32))
        } else if 0x04000002 <= address <= 0x04000003 {
            Some(0u8)
        } else if 0x04000004 <= address <= 0x04000005 {
            Some(self.lcd.lcd_status.spec_get_data(address & 1u32))
        } else if 0x04000006 <= address <= 0x04000007 {
            Some(self.lcd.vcount.spec_get_data(address & 1u32))
        } else if 0x04000008 <= address <= 0x04000009 {
            Some(self.lcd.layer_0.bg_control.spec_get_data(address & 1u32))
        } else if 0x0400000A <= address <= 0x0400000B {
            Some(self.lcd.layer_1.bg_control.spec_get_data(address & 1u32))
        } else if 0x0400000C <= address <= 0x0400000D {
            Some(self.lcd.layer_2.bg_control.spec_get_data(address & 1u32))
        } else if 0x0400000E <= address <= 0x0400000F {
            Some(self.lcd.layer_3.bg_control.spec_get_data(address & 1u32))
        } else if 0x04000048 <= address <= 0x04000049 {
            Some(self.lcd.window_in_control.spec_get_data(address & 1u32))
        } else if 0x0400004A <= address <= 0x0400004B {
            Some(self.lcd.window_out_control.spec_get_data(address & 1u32))
        } else if 0x04000050 <= address <= 0x04000051 {
            Some(self.lcd.color_effects_selection.spec_get_data(address & 1u32))
        } else if 0x04000052 <= address <= 0x04000053 {
            Some(self.lcd.alpha_coefficients.spec_get_data(address & 1u32))
        } else if 0x04000060 <= address <= 0x04000087 {
            Some(0u8)
        } else if 0x04000088 <= address <= 0x04000089 {
            Some(self.apu.sound_pwm_control.spec_get_data(address & 1u32))
        } else if 0x0400008A <= address <= 0x040000A8 {
            Some(0u8)
        } else if 0x040000BA <= address <= 0x040000BB {
            Some(self.dma_infos[0].dma_control.spec_get_data(address & 1u32))
        } else if 0x040000C6 <= address <= 0x040000C7 {
            Some(self.dma_infos[1].dma_control.spec_get_data(address & 1u32))
        } else if 0x040000D2 <= address <= 0x040000D3 {
            Some(self.dma_infos[2].dma_control.spec_get_data(address & 1u32))
        } else if 0x040000DE <= address <= 0x040000DF {
            Some(self.dma_infos[3].dma_control.spec_get_data(address & 1u32))
        } else if 0x04000100 <= address <= 0x04000101 {
            Some(self.timers[0].counter.spec_get_data(address & 1u32))
        } else if 0x04000102 <= address <= 0x04000103 {
            Some(self.timers[0].control.spec_get_data(address & 1u32))
        } else if 0x04000104 <= address <= 0x04000105 {
            Some(self.timers[1].counter.spec_get_data(address & 1u32))
        } else if 0x04000106 <= address <= 0x04000107 {
            Some(self.timers[1].control.spec_get_data(address & 1u32))
        } else if 0x04000108 <= address <= 0x04000109 {
            Some(self.timers[2].counter.spec_get_data(address & 1u32))
        } else if 0x0400010A <= address <= 0x0400010B {
            Some(self.timers[2].control.spec_get_data(address & 1u32))
        } else if 0x0400010C <= address <= 0x0400010D {
            Some(self.timers[3].counter.spec_get_data(address & 1u32))
        } else if 0x0400010E <= address <= 0x0400010F {
            Some(self.timers[3].control.spec_get_data(address & 1u32))
        } else if 0x04000120 <= address <= 0x0400012F {
            Some(0u8)
        } else if 0x04000130 <= address <= 0x04000131 {
            Some(self.keypad.key_status.spec_get_data(address & 1u32))
        } else if 0x04000132 <= address <= 0x04000133 {
            Some(self.keypad.interrupt_control.spec_get_data(address & 1u32))
        } else if 0x04000134 <= address <= 0x0400015B {
            Some(0u8)
        } else if 0x04000200 <= address <= 0x04000201 {
            Some(self.interrupt_enable.spec_get_data(address & 1u32))
        } else if 0x04000202 <= address <= 0x04000203 {
            Some(self.visible_irq().spec_get_data(address & 1u32))
        } else if 0x04000204 <= address <= 0x04000205 {
            Some(0u8)
        } else if 0x04000208 <= address <= 0x04000209 {
            Some(self.interrupt_master_enable.spec_get_data(address & 1u32))
        } else if 0x04000300 <= address <= 0x04000300 {
            Some(0u8)
        } else if 0x04000302 <= address <= 0x04FFFFFF {
            Some(0u8)
        } else {
            None
        }
    }

    fn read_io_byte(&self, address: u32) -> (r: Option<u8>)
        ensures
            r == self.io_byte(address),
    {
        assert((address & 1u32) < 2) by {
            crate::bits::lemma_u32_address(address);
        }
        if 0x04000000 <= address && address <= 0x04000001 {
            Some(self.lcd.read_lcd_control(address & 1u32))
        } else if 0x04000002 <= address && address <= 0x04000003 {
            Some(0u8)
        } else if 0x04000004 <= address && address <= 0x04000005 {
            Some(self.lcd.read_lcd_status(address & 1u32))
        } else if 0x04000006 <= address && address <= 0x04000007 {
            Some(self.lcd.read_vcount(address & 1u32))
        } else if 0x04000008 <= address && address <= 0x04000009 {
            Some(self.lcd.read_layer0_bg_control(address & 1u32))
        } else if 0x0400000A <= address && address <= 0x0400000B {
            Some(self.lcd.read_layer1_bg_control(address & 1u32))
        } else if 0x0400000C <= address && address <= 0x0400000D {
            Some(self.lcd.read_layer2_bg_control(address & 1u32))
        } else if 0x0400000E <= address && address <= 0x0400000F {
            Some(self.lcd.read_layer3_bg_control(address & 1u32))
        } else if 0x04000048 <= address && address <= 0x04000049 {
            Some(self.lcd.read_window_in_control(address & 1u32))
        } else if 0x0400004A <= address && address <= 0x0400004B {
            Some(self.lcd.read_window_out_control(address & 1u32))
        } else if 0x04000050 <= address && address <= 0x04000051 {
            Some(self.lcd.read_color_effects_selection(address & 1u32))
        } else if 0x04000052 <= address && address <= 0x04000053 {
            Some(self.lcd.read_alpha_blending_coefficients(address & 1u32))
        } else if 0x04000060 <= address && address <= 0x04000087 {
            Some(0u8)
        } else if 0x04000088 <= address && address <= 0x04000089 {
            Some(self.apu.read_sound_pwm_control(address & 1u32))
        } else if 0x0400008A <= address && address <= 0x040000A8 {
            Some(0u8)
        } else if 0x040000BA <= address && address <= 0x040000BB {
            Some(self.dma_infos[0].read_dma_control(address & 1u32))
        } else if 0x040000C6 <= address && address <= 0x040000C7 {
            Some(self.dma_infos[1].read_dma_control(address & 1u32))
        } else if 0x040000D2 <= address && address <= 0x040000D3 {
            Some(self.dma_infos[2].read_dma_control(address & 1u32))
        } else if 0x040000DE <= address && address <= 0x040000DF {
            Some(self.dma_infos[3].read_dma_control(address & 1u32))
        } else if 0x04000100 <= address && address <= 0x04000101 {
            Some(self.timers[0].read_timer_counter_reload(address & 1u32))
        } else if 0x04000102 <= address && address <= 0x04000103 {
            Some(self.timers[0].read_timer_control(address & 1u32))
        } else if 0x04000104 <= address && address <= 0x04000105 {
            Some(self.timers[1].read_timer_counter_reload(address & 1u32))
        } else if 0x04000106 <= address && address <= 0x04000107 {
            Some(self.timers[1].read_timer_control(address & 1u32))
        } else if 0x04000108 <= address && address <= 0x04000109 {
            Some(self.timers[2].read_timer_counter_reload(address & 1u32))
        } else if 0x0400010A <= address && address <= 0x0400010B {
            Some(self.timers[2].read_timer_control(address & 1u32))
        } else if 0x0400010C <= address && address <= 0x0400010D {
            Some(self.timers[3].read_timer_counter_reload(address & 1u32))
        } else if 0x0400010E <= address && address <= 0x0400010F {
            Some(self.timers[3].read_timer_control(address & 1u32))
        } else if 0x04000120 <= address && address <= 0x0400012F {
            Some(0u8)
        } else if 0x04000130 <= address && address <= 0x04000131 {
            Some(self.keypad.read_key_status(address & 1u32))
        } else if 0x04000132 <= address && address <= 0x04000133 {
            Some(self.keypad.read_key_interrupt_control(address & 1u32))
        } else if 0x04000134 <= address && address <= 0x0400015B {
            Some(0u8)
        } else if 0x04000200 <= address && address <= 0x04000201 {
            Some(self.read_interrupt_enable(address & 1u32))
        } else if 0x04000202 <= address && address <= 0x04000203 {
            Some(self.read_interrupt_request(address & 1u32))
        } else if 0x04000204 <= address && address <= 0x04000205 {
            Some(0u8)
        } else if 0x04000208 <= address && address <= 0x04000209 {
            Some(self.read_interrupt_master_enable(address & 1u32))
        } else if 0x04000300 <= address && address <= 0x04000300 {
            Some(0u8)
        } else if 0x04000302 <= address && address <= 0x04FFFFFF {
            Some(0u8)
        } else {
            None
        }
    }

    /// The word of the BIOS at the word-aligned address `aligned`, little endian.
    pub open spec fn bios_word(&self, aligned: u32) -> u32 {
        (self.bios@[aligned as int] as u32) | ((self.bios@[aligned + 1] as u32) << 8u32) | ((
        self.bios@[aligned + 2] as u32) << 16u32) | ((self.bios@[aligned + 3] as u32) << 24u32)
    }

    /// What a word read of the BIOS region returns: the BIOS word while the CPU
    /// executes from the BIOS, else the last opcode fetched from it.
    pub open spec fn bios_read(&self, address: u32) -> u32 {
        match self.bios_read_behavior {
            BiosReadBehavior::PrefetchValue => self.open_bus_bios_data,
            BiosReadBehavior::TrueValue => self.bios_word(address & !3u32),
        }
    }

    /// The byte that a read of `address` returns, without side effects.
    pub open spec fn byte_at(&self, address: u32) -> u8 {
        if address <= BIOS_END {
            self.bios_read(address).spec_get_data(address & 3u32)
        } else if BOARD_WRAM_BASE <= address <= 0x02FF_FFFF {
            self.board_wram@[board_wram_index(address)]
        } else if CHIP_WRAM_BASE <= address <= 0x03FF_FFFF {
            self.chip_wram@[chip_wram_index(address)]
        } else if 0x0400_0000 <= address <= 0x04FF_FFFF && self.io_byte(address) is Some {
            self.io_byte(address).unwrap()
        } else if PALETTE_RAM_BASE <= address <= 0x05FF_FFFF {
            <u16 as DataAccess<u8>>::spec_get_data(self.lcd.palette_hword(palette_offset(address) & !1u32), palette_offset(address) & 1u32)
        } else if VRAM_BASE <= address <= 0x06FF_FFFF {
            self.lcd.vram@[vram_offset(address) as int]
        } else if OAM_BASE <= address <= 0x07FF_FFFF {
            <u16 as DataAccess<u8>>::spec_get_data(self.lcd.oam_hword(oam_offset(address) & !1u32), oam_offset(address) % 2)
        } else if ROM_BASE <= address <= ROM_END {
            self.cartridge.rom_byte(rom_offset(address))
        } else if SRAM_BASE <= address {
            self.cartridge.sram@[sram_offset(address) as int]
        } else {
            self.open_bus_data.spec_get_data(address & 3u32)
        }
    }

    fn bios_read_word(&self, address: u32) -> (r: u32)
        requires
            self.wf(),
            address <= BIOS_END,
        ensures
            r == self.bios_read(address),
    {
        match self.bios_read_behavior {
            BiosReadBehavior::PrefetchValue => self.open_bus_bios_data,
            BiosReadBehavior::TrueValue => {
                let aligned = address & !3u32;
                assert(aligned <= address && aligned + 3 <= BIOS_END) by {
                    crate::bits::lemma_u32_address(address);
                }
                let i = aligned as usize;
                (self.bios[i] as u32) | ((self.bios[i + 1] as u32) << 8u32) | ((self.bios[i + 2] as u32)
                    << 16u32) | ((self.bios[i + 3] as u32) << 24u32)
            },
        }
    }

    pub fn read_byte_address_debug(&self, address: u32) -> (r: u8)
        requires
            self.wf(),
        ensures
            r == self.byte_at(address),
    {
        assert((address & 3u32) < 4 && (address & 1u32) < 2) by {
            crate::bits::lemma_u32_address(address);
        }
        if address <= BIOS_END {
            let word = self.bios_read_word(address);
            word.get_data(address & 3u32)
        } else if BOARD_WRAM_BASE <= address && address <= 0x02FF_FFFF {
            self.board_wram[((address - BOARD_WRAM_BASE) % 0x40000) as usize]
        } else if CHIP_WRAM_BASE <= address && address <= 0x03FF_FFFF {
            self.chip_wram[((address - CHIP_WRAM_BASE) % 0x8000) as usize]
        } else if 0x0400_0000 <= address && address <= 0x04FF_FFFF && self.read_io_byte(address).is_some() {
            match self.read_io_byte(address) {
                Some(v) => v,
                None => 0,
            }
        } else if PALETTE_RAM_BASE <= address && address <= 0x05FF_FFFF {
            self.lcd.read_palette_ram_byte((address - PALETTE_RAM_BASE) % 0x400)
        } else if VRAM_BASE <= address && address <= 0x06FF_FFFF {
            let offset = vram_offset_exec(address);
            self.lcd.read_vram_byte(offset)
        } else if OAM_BASE <= address && address <= 0x07FF_FFFF {
            self.lcd.read_oam_byte((address - OAM_BASE) % 0x400)
        } else if ROM_BASE <= address && address <= ROM_END {
            self.cartridge.read_rom_byte(rom_offset_exec(address))
        } else if SRAM_BASE <= address {
            self.cartridge.read_sram_byte((address - SRAM_BASE) % 0x10000)
        } else {
            self.open_bus_data.get_data(address & 3u32)
        }
    }

    /// The halfword that a read of `address` returns, without side effects.
    /// Most regions ignore bit 0 of the address; SRAM repeats its byte.
    pub open spec fn hword_at(&self, address: u32) -> u16 {
        let aligned = address & !1u32;
        if aligned <= BIOS_END {
            <u32 as DataAccess<u16>>::spec_get_data(self.bios_read(address), (address & 2u32) >> 1u32)
        } else if CHIP_WRAM_BASE <= aligned <= 0x03FF_FFFF {
            le16(self.chip_wram@[chip_wram_index(aligned)], self.chip_wram@[chip_wram_index(aligned) + 1])
        } else if BOARD_WRAM_BASE <= aligned <= 0x02FF_FFFF {
            le16(self.board_wram@[board_wram_index(aligned)], self.board_wram@[board_wram_index(aligned) + 1])
        } else if PALETTE_RAM_BASE <= aligned <= 0x05FF_FFFF {
            self.lcd.palette_hword(palette_offset(aligned))
        } else if VRAM_BASE <= aligned <= 0x06FF_FFFF {
            self.lcd.vram_hword(vram_offset(aligned) as int)
        } else if OAM_BASE <= aligned <= 0x07FF_FFFF {
            self.lcd.oam_hword(oam_offset(aligned))
        } else if ROM_BASE <= aligned <= ROM_END {
            le16(self.cartridge.rom_byte(rom_offset(aligned)), self.cartridge.rom_byte((rom_offset(aligned) + 1) as u32))
        } else if SRAM_BASE <= aligned {
            le16(self.cartridge.sram@[sram_offset(address) as int], self.cartridge.sram@[sram_offset(address) as int])
        } else {
            le16(self.byte_at(aligned), self.byte_at((aligned + 1) as u32))
        }
    }

    /// The word that a read of `address` returns, without side effects. Most
    /// regions ignore bits 0-1 of the address; SRAM repeats its byte.
    pub open spec fn word_at(&self, address: u32) -> u32 {
        let aligned = address & !3u32;
        if aligned <= BIOS_END {
            self.bios_read(address)
        } else if CHIP_WRAM_BASE <= aligned <= 0x03FF_FFFF {
            let i = chip_wram_index(aligned);
            le32(self.chip_wram@[i], self.chip_wram@[i + 1], self.chip_wram@[i + 2], self.chip_wram@[i + 3])
        } else if BOARD_WRAM_BASE <= aligned <= 0x02FF_FFFF {
            let i = board_wram_index(aligned);
            le32(self.board_wram@[i], self.board_wram@[i + 1], self.board_wram@[i + 2], self.board_wram@[i + 3])
        } else if PALETTE_RAM_BASE <= aligned <= 0x05FF_FFFF {
            let o = palette_offset(aligned);
            (self.lcd.palette_hword(o) as u32) | ((self.lcd.palette_hword((o + 2) as u32) as u32) << 16u32)
        } else if VRAM_BASE <= aligned <= 0x06FF_FFFF {
            let o = vram_offset(aligned) as int;
            le32(self.lcd.vram@[o], self.lcd.vram@[o + 1], self.lcd.vram@[o + 2], self.lcd.vram@[o + 3])
        } else if OAM_BASE <= aligned <= 0x07FF_FFFF {
            let o = oam_offset(aligned);
            (self.lcd.oam_hword(o) as u32) | ((self.lcd.oam_hword((o + 2) as u32) as u32) << 16u32)
        } else if ROM_BASE <= aligned <= ROM_END {
            let o = rom_offset(aligned);
            le32(
                self.cartridge.rom_byte(o),
                self.cartridge.rom_byte((o + 1) as u32),
                self.cartridge.rom_byte((o + 2) as u32),
                self.cartridge.rom_byte((o + 3) as u32),
            )
        } else if SRAM_BASE <= aligned {
            let b = self.cartridge.sram@[sram_offset(address) as int];
            le32(b, b, b, b)
        } else {
            le32(
                self.byte_at(aligned),
                self.byte_at((aligned + 1) as u32),
                self.byte_at((aligned + 2) as u32),
                self.byte_at((aligned + 3) as u32),
            )
        }
    }

    pub fn read_halfword_address_debug(&self, address: u32) -> (r: u16)
        requires
            self.wf(),
        ensures
            r == self.hword_at(address),
    {
        let aligned = address & !1u32;
        assert(aligned <= address && aligned & 1 == 0 && (aligned < 0xFFFF_FFFF) && ((address & 2u32) >> 1u32) < 2) by {
            crate::bits::lemma_u32_address(address);
        }
        assert(aligned <= 0x3FFFu32 ==> address <= 0x3FFFu32) by {
            crate::bits::lemma_u32_address(address);
        }
        if aligned <= BIOS_END {
            let word = self.bios_read_word(address);
            word.get_data((address & 2u32) >> 1u32)
        } else if CHIP_WRAM_BASE <= aligned && aligned <= 0x03FF_FFFF {
            let i = ((aligned - CHIP_WRAM_BASE) % 0x8000) as usize;
            assert(i % 2 == 0) by {
                assert(aligned & 1 == 0 ==> ((aligned - 0x0300_0000u32) as u32) % 0x8000 % 2 == 0) by {
            crate::bits::lemma_region_offsets(aligned);
        }
            }
            le16_exec(self.chip_wram[i], self.chip_wram[i + 1])
        } else if BOARD_WRAM_BASE <= aligned && aligned <= 0x02FF_FFFF {
            let i = ((aligned - BOARD_WRAM_BASE) % 0x40000) as usize;
            assert(i % 2 == 0) by {
                assert(aligned & 1 == 0 ==> ((aligned - 0x0200_0000u32) as u32) % 0x40000 % 2 == 0) by {
            crate::bits::lemma_region_offsets(aligned);
        }
            }
            le16_exec(self.board_wram[i], self.board_wram[i + 1])
        } else if PALETTE_RAM_BASE <= aligned && aligned <= 0x05FF_FFFF {
            let o = (aligned - PALETTE_RAM_BASE) % 0x400;
            assert(o & 1 == 0) by {
                assert(aligned & 1 == 0 ==> (((aligned - 0x0500_0000u32) as u32) % 0x400) & 1 == 0) by {
            crate::bits::lemma_region_offsets(aligned);
        }
            }
            self.lcd.read_palette_ram_hword(o)
        } else if VRAM_BASE <= aligned && aligned <= 0x06FF_FFFF {
            let o = vram_offset_exec(aligned);
            assert(o & 1 == 0) by {
                assert(aligned & 1 == 0 ==> (((aligned - 0x0600_0000u32) as u32) % 0x20000) & 1 == 0
                    && ((((aligned - 0x0600_0000u32) as u32) % 0x20000 - 0x10000u32) as u32 % 0x8000 + 0x10000u32) as u32 & 1 == 0) by {
            crate::bits::lemma_region_offsets(aligned);
        }
            }
            self.lcd.read_vram_hword(o)
        } else if OAM_BASE <= aligned && aligned <= 0x07FF_FFFF {
            let o = (aligned - OAM_BASE) % 0x400;
            assert(o & 1 == 0) by {
                assert(aligned & 1 == 0 ==> (((aligned - 0x0700_0000u32) as u32) % 0x400) & 1 == 0) by {
            crate::bits::lemma_region_offsets(aligned);
        }
            }
            self.lcd.read_oam_hword(o)
        } else if ROM_BASE <= aligned && aligned <= ROM_END {
            let o = rom_offset_exec(aligned);
            assert(o & 1 == 0) by {
                assert(aligned & 1 == 0 ==> ((aligned - 0x0800_0000u32) as u32) & 1 == 0 && ((aligned - 0x0A00_0000u32) as u32) & 1 == 0
                    && ((aligned - 0x0C00_0000u32) as u32) & 1 == 0) by {
            crate::bits::lemma_region_offsets(aligned);
        }
            }
            self.cartridge.read_rom_hword_debug(o)
        } else if SRAM_BASE <= aligned {
            let b = self.cartridge.read_sram_byte((address - SRAM_BASE) % 0x10000);
            le16_exec(b, b)
        } else {
            let low = self.read_byte_address_debug(aligned);
            let high = self.read_byte_address_debug(aligned + 1);
            le16_exec(low, high)
        }
    }

    pub fn read_word_address_debug(&self, address: u32) -> (r: u32)
        requires
            self.wf(),
        ensures
            r == self.word_at(address),
    {
        let aligned = address & !3u32;
        assert(aligned <= address && aligned & 3 == 0 && aligned <= 0xFFFF_FFFC) by {
            crate::bits::lemma_u32_address(address);
        }
        assert(aligned <= 0x3FFFu32 ==> address <= 0x3FFFu32) by {
            crate::bits::lemma_u32_address(address);
        }
        if aligned <= BIOS_END {
            self.bios_read_word(address)
        } else if CHIP_WRAM_BASE <= aligned && aligned <= 0x03FF_FFFF {
            let i = ((aligned - CHIP_WRAM_BASE) % 0x8000) as usize;
            assert(i % 4 == 0) by {
                assert(aligned & 3 == 0 ==> ((aligned - 0x0300_0000u32) as u32) % 0x8000 % 4 == 0) by {
            crate::bits::lemma_region_offsets(aligned);
        }
            }
            le32_exec(self.chip_wram[i], self.chip_wram[i + 1], self.chip_wram[i + 2], self.chip_wram[i + 3])
        } else if BOARD_WRAM_BASE <= aligned && aligned <= 0x02FF_FFFF {
            let i = ((aligned - BOARD_WRAM_BASE) % 0x40000) as usize;
            assert(i % 4 == 0) by {
                assert(aligned & 3 == 0 ==> ((aligned - 0x0200_0000u32) as u32) % 0x40000 % 4 == 0) by {
            crate::bits::lemma_region_offsets(aligned);
        }
            }
            le32_exec(self.board_wram[i], self.board_wram[i + 1], self.board_wram[i + 2], self.board_wram[i + 3])
        } else if PALETTE_RAM_BASE <= aligned && aligned <= 0x05FF_FFFF {
            let o = (aligned - PALETTE_RAM_BASE) % 0x400;
            assert(o & 3 == 0) by {
                assert(aligned & 3 == 0 ==> (((aligned - 0x0500_0000u32) as u32) % 0x400) & 3 == 0) by {
            crate::bits::lemma_region_offsets(aligned);
        }
            }
            self.lcd.read_palette_ram_word(o)
        } else if VRAM_BASE <= aligned && aligned <= 0x06FF_FFFF {
            let o = vram_offset_exec(aligned);
            assert(o & 3 == 0) by {
                assert(aligned & 3 == 0 ==> (((aligned - 0x0600_0000u32) as u32) % 0x20000) & 3 == 0
                    && ((((aligned - 0x0600_0000u32) as u32) % 0x20000 - 0x10000u32) as u32 % 0x8000 + 0x10000u32) as u32 & 3 == 0) by {
            crate::bits::lemma_region_offsets(aligned);
        }
            }
            self.lcd.read_vram_word(o)
        } else if OAM_BASE <= aligned && aligned <= 0x07FF_FFFF {
            let o = (aligned - OAM_BASE) % 0x400;
            assert(o & 3 == 0) by {
                assert(aligned & 3 == 0 ==> (((aligned - 0x0700_0000u32) as u32) % 0x400) & 3 == 0) by {
            crate::bits::lemma_region_offsets(aligned);
        }
            }
            self.lcd.read_oam_word(o)
        } else if ROM_BASE <= aligned && aligned <= ROM_END {
            let o = rom_offset_exec(aligned);
            assert(o & 3 == 0) by {
                assert(aligned & 3 == 0 ==> ((aligned - 0x0800_0000u32) as u32) & 3 == 0 && ((aligned - 0x0A00_0000u32) as u32) & 3 == 0
                    && ((aligned - 0x0C00_0000u32) as u32) & 3 == 0) by {
            crate::bits::lemma_region_offsets(aligned);
        }
            }
            self.cartridge.read_rom_word(o)
        } else if SRAM_BASE <= aligned {
            let b = self.cartridge.read_sram_byte((address - SRAM_BASE) % 0x10000);
            le32_exec(b, b, b, b)
        } else {
            let b0 = self.read_byte_address_debug(aligned);
            let b1 = self.read_byte_address_debug(aligned + 1);
            let b2 = self.read_byte_address_debug(aligned + 2);
            let b3 = self.read_byte_address_debug(aligned + 3);
            le32_exec(b0, b1, b2, b3)
        }
    }

    /// The bus after a byte read of `address`: a BIOS read while executing
    /// from the BIOS latches the BIOS word, and an on-chip work RAM read
    /// latches its byte into the open-bus value.
    pub open spec fn after_byte_read(&self, address: u32) -> Bus {
        if address <= BIOS_END {
            if self.bios_read_behavior == BiosReadBehavior::TrueValue {
                Bus { open_bus_bios_data: self.bios_read(address), ..*self }
            } else {
                *self
            }
        } else if CHIP_WRAM_BASE <= address <= 0x03FF_FFFF {
            let latch = self.open_bus_iwram_data.spec_set_data(self.byte_at(address), address & 3u32);
            Bus { open_bus_iwram_data: latch, open_bus_data: latch, ..*self }
        } else {
            *self
        }
    }

    /// The bus after a halfword read of `address`: the open-bus value takes
    /// the halfword twice for external work RAM, palette RAM, VRAM and ROM;
    /// on-chip work RAM latches it in its half of the latch.
    pub open spec fn after_hword_read(&self, address: u32) -> Bus {
        let h = self.hword_at(address);
        let twice = ((h as u32) << 16u32) | (h as u32);
        if address <= BIOS_END {
            if self.bios_read_behavior == BiosReadBehavior::TrueValue {
                Bus { open_bus_bios_data: self.bios_read(address), ..*self }
            } else {
                *self
            }
        } else if CHIP_WRAM_BASE <= address <= 0x03FF_FFFF {
            let latch = self.open_bus_iwram_data.spec_set_data(h, (address & 2u32) >> 1u32);
            Bus { open_bus_iwram_data: latch, open_bus_data: latch, ..*self }
        } else if (BOARD_WRAM_BASE <= address <= 0x02FF_FFFF) || (PALETTE_RAM_BASE <= address <= 0x06FF_FFFF)
            || (ROM_BASE <= address <= ROM_END) {
            Bus { open_bus_data: twice, ..*self }
        } else {
            *self
        }
    }

    /// The bus after a word read of `address`: the word becomes the open-bus
    /// value, and a BIOS read while executing from the BIOS latches it.
    pub open spec fn after_word_read(&self, address: u32) -> Bus {
        let w = self.word_at(address);
        if address <= BIOS_END && self.bios_read_behavior == BiosReadBehavior::TrueValue {
            Bus { open_bus_bios_data: w, open_bus_data: w, ..*self }
        } else {
            Bus { open_bus_data: w, ..*self }
        }
    }

    pub fn read_byte_address(&mut self, address: u32) -> (r: u8)
        requires
            old(self).wf(),
        ensures
            r == old(self).byte_at(address),
            *final(self) == old(self).after_byte_read(address),
    {
        let result = self.read_byte_address_debug(address);
        if address <= BIOS_END {
            if self.bios_read_behavior == BiosReadBehavior::TrueValue {
                self.open_bus_bios_data = self.bios_read_word(address);
            }
        } else if CHIP_WRAM_BASE <= address && address <= 0x03FF_FFFF {
            assert((address & 3u32) < 4) by {
            crate::bits::lemma_u32_address(address);
        }
            self.open_bus_iwram_data = self.open_bus_iwram_data.set_data(result, address & 3u32);
            self.open_bus_data = self.open_bus_iwram_data;
        }
        result
    }

    pub fn read_halfword_address(&mut self, address: u32) -> (r: u16)
        requires
            old(self).wf(),
        ensures
            r == old(self).hword_at(address),
            *final(self) == old(self).after_hword_read(address),
    {
        let result = self.read_halfword_address_debug(address);
        let twice = ((result as u32) << 16u32) | (result as u32);
        if address <= BIOS_END {
            if self.bios_read_behavior == BiosReadBehavior::TrueValue {
                self.open_bus_bios_data = self.bios_read_word(address);
            }
        } else if CHIP_WRAM_BASE <= address && address <= 0x03FF_FFFF {
            assert(((address & 2u32) >> 1u32) < 2) by {
            crate::bits::lemma_u32_address(address);
        }
            self.open_bus_iwram_data = self.open_bus_iwram_data.set_data(result, (address & 2u32) >> 1u32);
            self.open_bus_data = self.open_bus_iwram_data;
        } else if (BOARD_WRAM_BASE <= address && address <= 0x02FF_FFFF) || (PALETTE_RAM_BASE <= address
            && address <= 0x06FF_FFFF) || (ROM_BASE <= address && address <= ROM_END) {
            self.open_bus_data = twice;
        }
        result
    }

    pub fn read_word_address(&mut self, address: u32) -> (r: u32)
        requires
            old(self).wf(),
        ensures
            r == old(self).word_at(address),
            *final(self) == old(self).after_word_read(address),
    {
        let result = self.read_word_address_debug(address);
        if address <= BIOS_END && self.bios_read_behavior == BiosReadBehavior::TrueValue {
            self.open_bus_bios_data = result;
        }
        self.open_bus_data = result;
        result
    }

    /// The words that word reads of `addresses`, made one after another,
    /// return.
    pub open spec fn words_read(&self, addresses: Seq<u32>) -> Seq<u32>
        decreases addresses.len(),
    {
        if addresses.len() == 0 {
            Seq::empty()
        } else {
            let earlier = addresses.drop_last();
            self.words_read(earlier).push(self.after_words_read(earlier).word_at(addresses.last()))
        }
    }

    /// The bus after word reads of `addresses`, made one after another.
    pub open spec fn after_words_read(&self, addresses: Seq<u32>) -> Bus
        decreases addresses.len(),
    {
        if addresses.len() == 0 {
            *self
        } else {
            self.after_words_read(addresses.drop_last()).after_word_read(addresses.last())
        }
    }

    /// Whether `after` is the bus after word writes of `values` to
    /// `addresses`, made one after another: `buses` holds the bus before each
    /// write and, last, the bus after them all.
    pub open spec fn words_written(&self, after: &Bus, buses: Seq<Bus>, values: Seq<u32>, addresses: Seq<u32>) -> bool {
        &&& values.len() == addresses.len()
        &&& buses.len() == values.len() + 1
        &&& buses[0] == *self
        &&& buses.last() == *after
        &&& forall|k: int| 0 <= k < values.len() ==> #[trigger] buses[k].word_written(&buses[k + 1], values[k], addresses[k])
    }

    /// The bus with the BIOS read behavior set for an opcode fetch from
    /// `address`: reads of the BIOS see the BIOS itself only while the CPU
    /// executes from it.
    pub open spec fn fetching_from(&self, address: u32) -> Bus {
        Bus {
            bios_read_behavior: if address <= BIOS_END {
                BiosReadBehavior::TrueValue
            } else {
                BiosReadBehavior::PrefetchValue
            },
            ..*self
        }
    }

    pub fn fetch_arm_opcode(&mut self, address: u32) -> (r: u32)
        requires
            old(self).wf(),
        ensures
            r == old(self).fetching_from(address).word_at(address),
            *final(self) == old(self).fetching_from(address).after_word_read(address),
    {
        if address <= BIOS_END {
            self.bios_read_behavior = BiosReadBehavior::TrueValue;
        } else {
            self.bios_read_behavior = BiosReadBehavior::PrefetchValue;
        }
        self.read_word_address(address)
    }

    pub fn fetch_thumb_opcode(&mut self, address: u32) -> (r: u16)
        requires
            old(self).wf(),
        ensures
            r == old(self).fetching_from(address).hword_at(address),
            *final(self) == old(self).fetching_from(address).after_hword_read(address),
    {
        if address <= BIOS_END {
            self.bios_read_behavior = BiosReadBehavior::TrueValue;
        } else {
            self.bios_read_behavior = BiosReadBehavior::PrefetchValue;
        }
        self.read_halfword_address(address)
    }

    /// Whether `after` is the bus after a byte write of `value` to the I/O
    /// register at `address`; writes to read-only or unused registers
    /// change nothing.
    pub open spec fn io_byte_written(&self, after: &Bus, value: u8, address: u32) -> bool {
        if 0x04000000 <= address <= 0x04000001 {
            *after == (Bus { lcd: Lcd { lcd_control: self.lcd.lcd_control.spec_set_data(value, address & 1u32), ..self.lcd }, ..*self })
        } else if 0x04000004 <= address <= 0x04000005 {
            *after == (Bus { lcd: Lcd { lcd_status: self.lcd.lcd_status.spec_set_data(value, address & 1u32), ..self.lcd }, ..*self })
        } else if 0x04000008 <= address <= 0x04000009 {
            *after == (Bus { lcd: Lcd { layer_0: BackgroundLayer { bg_control: self.lcd.layer_0.bg_control.spec_set_data(value, address & 1u32), ..self.lcd.layer_0 }, ..self.lcd }, ..*self })
        } else if 0x0400000A <= address <= 0x0400000B {
            *after == (Bus { lcd: Lcd { layer_1: BackgroundLayer { bg_control: self.lcd.layer_1.bg_control.spec_set_data(value, address & 1u32), ..self.lcd.layer_1 }, ..self.lcd }, ..*self })
        } else if 0x0400000C <= address <= 0x0400000D {
            *after == (Bus { lcd: Lcd { layer_2: BackgroundLayer { bg_control: self.lcd.layer_2.bg_control.spec_set_data(value, address & 1u32), ..self.lcd.layer_2 }, ..self.lcd }, ..*self })
        } else if 0x0400000E <= address <= 0x0400000F {
            *after == (Bus { lcd: Lcd { layer_3: BackgroundLayer { bg_control: self.lcd.layer_3.bg_control.spec_set_data(value, address & 1u32), ..self.lcd.layer_3 }, ..self.lcd }, ..*self })
        } else if 0x04000010 <= address <= 0x04000011 {
            *after == (Bus { lcd: Lcd { layer_0: BackgroundLayer { x_offset: self.lcd.layer_0.x_offset.spec_set_data(value, address & 1u32), ..self.lcd.layer_0 }, ..self.lcd }, ..*self })
        } else if 0x04000012 <= address <= 0x04000013 {
            *after == (Bus { lcd: Lcd { layer_0: BackgroundLayer { y_offset: self.lcd.layer_0.y_offset.spec_set_data(value, address & 1u32), ..self.lcd.layer_0 }, ..self.lcd }, ..*self })
        } else if 0x04000014 <= address <= 0x04000015 {
            *after == (Bus { lcd: Lcd { layer_1: BackgroundLayer { x_offset: self.lcd.layer_1.x_offset.spec_set_data(value, address & 1u32), ..self.lcd.layer_1 }, ..self.lcd }, ..*self })
        } else if 0x04000016 <= address <= 0x04000017 {
            *after == (Bus { lcd: Lcd { layer_1: BackgroundLayer { y_offset: self.lcd.layer_1.y_offset.spec_set_data(value, address & 1u32), ..self.lcd.layer_1 }, ..self.lcd }, ..*self })
        } else if 0x04000018 <= address <= 0x04000019 {
            *after == (Bus { lcd: Lcd { layer_2: BackgroundLayer { x_offset: self.lcd.layer_2.x_offset.spec_set_data(value, address & 1u32), ..self.lcd.layer_2 }, ..self.lcd }, ..*self })
        } else if 0x0400001A <= address <= 0x0400001B {
            *after == (Bus { lcd: Lcd { layer_2: BackgroundLayer { y_offset: self.lcd.layer_2.y_offset.spec_set_data(value, address & 1u32), ..self.lcd.layer_2 }, ..self.lcd }, ..*self })
        } else if 0x0400001C <= address <= 0x0400001D {
            *after == (Bus { lcd: Lcd { layer_3: BackgroundLayer { x_offset: self.lcd.layer_3.x_offset.spec_set_data(value, address & 1u32), ..self.lcd.layer_3 }, ..self.lcd }, ..*self })
        } else if 0x0400001E <= address <= 0x0400001F {
            *after == (Bus { lcd: Lcd { layer_3: BackgroundLayer { y_offset: self.lcd.layer_3.y_offset.spec_set_data(value, address & 1u32), ..self.lcd.layer_3 }, ..self.lcd }, ..*self })
        } else if 0x04000020 <= address <= 0x04000021 {
            *after == (Bus { lcd: Lcd { layer_2: BackgroundLayer { affine_param_a: self.lcd.layer_2.affine_param_a.spec_set_data(value, address & 1u32), ..self.lcd.layer_2 }, ..self.lcd }, ..*self })
        } else if 0x04000022 <= address <= 0x04000023 {
            *after == (Bus { lcd: Lcd { layer_2: BackgroundLayer { affine_param_b: self.lcd.layer_2.affine_param_b.spec_set_data(value, address & 1u32), ..self.lcd.layer_2 }, ..self.lcd }, ..*self })
        } else if 0x04000024 <= address <= 0x04000025 {
            *after == (Bus { lcd: Lcd { layer_2: BackgroundLayer { affine_param_c: self.lcd.layer_2.affine_param_c.spec_set_data(value, address & 1u32), ..self.lcd.layer_2 }, ..self.lcd }, ..*self })
        } else if 0x04000026 <= address <= 0x04000027 {
            *after == (Bus { lcd: Lcd { layer_2: BackgroundLayer { affine_param_d: self.lcd.layer_2.affine_param_d.spec_set_data(value, address & 1u32), ..self.lcd.layer_2 }, ..self.lcd }, ..*self })
        } else if 0x04000028 <= address <= 0x0400002B {
            *after == (Bus { lcd: Lcd { layer_2: BackgroundLayer { affine_x_offset: self.lcd.layer_2.affine_x_offset.spec_set_data(value, address & 3u32), ..self.lcd.layer_2 }, ..self.lcd }, ..*self })
        } else if 0x0400002C <= address <= 0x0400002F {
            *after == (Bus { lcd: Lcd { layer_2: BackgroundLayer { affine_y_offset: self.lcd.layer_2.affine_y_offset.spec_set_data(value, address & 3u32), ..self.lcd.layer_2 }, ..self.lcd }, ..*self })
        } else if 0x04000030 <= address <= 0x04000031 {
            *after == (Bus { lcd: Lcd { layer_3: BackgroundLayer { affine_param_a: self.lcd.layer_3.affine_param_a.spec_set_data(value, address & 1u32), ..self.lcd.layer_3 }, ..self.lcd }, ..*self })
        } else if 0x04000032 <= address <= 0x04000033 {
            *after == (Bus { lcd: Lcd { layer_3: BackgroundLayer { affine_param_b: self.lcd.layer_3.affine_param_b.spec_set_data(value, address & 1u32), ..self.lcd.layer_3 }, ..self.lcd }, ..*self })
        } else if 0x04000034 <= address <= 0x04000035 {
            *after == (Bus { lcd: Lcd { layer_3: BackgroundLayer { affine_param_c: self.lcd.layer_3.affine_param_c.spec_set_data(value, address & 1u32), ..self.lcd.layer_3 }, ..self.lcd }, ..*self })
        } else if 0x04000036 <= address <= 0x04000037 {
            *after == (Bus { lcd: Lcd { layer_3: BackgroundLayer { affine_param_d: self.lcd.layer_3.affine_param_d.spec_set_data(value, address & 1u32), ..self.lcd.layer_3 }, ..self.lcd }, ..*self })
        } else if 0x04000038 <= address <= 0x0400003B {
            *after == (Bus { lcd: Lcd { layer_3: BackgroundLayer { affine_x_offset: self.lcd.layer_3.affine_x_offset.spec_set_data(value, address & 3u32), ..self.lcd.layer_3 }, ..self.lcd }, ..*self })
        } else if 0x0400003C <= address <= 0x0400003F {
            *after == (Bus { lcd: Lcd { layer_3: BackgroundLayer { affine_y_offset: self.lcd.layer_3.affine_y_offset.spec_set_data(value, address & 3u32), ..self.lcd.layer_3 }, ..self.lcd }, ..*self })
        } else if 0x04000040 <= address <= 0x04000041 {
            *after == (Bus { lcd: Lcd { window_0_horizontal: self.lcd.window_0_horizontal.spec_set_data(value, address & 1u32), ..self.lcd }, ..*self })
        } else if 0x04000042 <= address <= 0x04000043 {
            *after == (Bus { lcd: Lcd { window_1_horizontal: self.lcd.window_1_horizontal.spec_set_data(value, address & 1u32), ..self.lcd }, ..*self })
        } else if 0x04000044 <= address <= 0x04000045 {
            *after == (Bus { lcd: Lcd { window_0_vertical: self.lcd.window_0_vertical.spec_set_data(value, address & 1u32), ..self.lcd }, ..*self })
        } else if 0x04000046 <= address <= 0x04000047 {
            *after == (Bus { lcd: Lcd { window_1_vertical: self.lcd.window_1_vertical.spec_set_data(value, address & 1u32), ..self.lcd }, ..*self })
        } else if 0x04000048 <= address <= 0x04000049 {
            *after == (Bus { lcd: Lcd { window_in_control: self.lcd.window_in_control.spec_set_data(value, address & 1u32) & 0x3F3Fu16, ..self.lcd }, ..*self })
        } else if 0x0400004A <= address <= 0x0400004B {
            *after == (Bus { lcd: Lcd { window_out_control: self.lcd.window_out_control.spec_set_data(value, address & 1u32) & 0x3F3Fu16, ..self.lcd }, ..*self })
        } else if 0x0400004C <= address <= 0x0400004F {
            *after == (Bus { lcd: Lcd { mosaic_size: self.lcd.mosaic_size.spec_set_data(value, address & 3u32), ..self.lcd }, ..*self })
        } else if 0x04000050 <= address <= 0x04000051 {
            *after == (Bus { lcd: Lcd { color_effects_selection: self.lcd.color_effects_selection.spec_set_data(value, address & 1u32) & 0x3FFFu16, ..self.lcd }, ..*self })
        } else if 0x04000052 <= address <= 0x04000053 {
            *after == (Bus { lcd: Lcd { alpha_coefficients: self.lcd.alpha_coefficients.spec_set_data(value, address & 1u32) & 0x1F1Fu16, ..self.lcd }, ..*self })
        } else if 0x04000054 <= address <= 0x04000055 {
            *after == (Bus { lcd: Lcd { brightness_coefficient: self.lcd.brightness_coefficient.spec_set_data(value, address & 1u32), ..self.lcd }, ..*self })
        } else if 0x04000088 <= address <= 0x04000089 {
            *after == (Bus { apu: Apu { sound_pwm_control: self.apu.sound_pwm_control.spec_set_data(value, address & 1u32) & 0x0000_BFFEu32, ..self.apu }, ..*self })
        } else if 0x040000B0 <= address <= 0x040000B3 {
            after.dma_infos@ == self.dma_infos@.update(0, DmaInfo { source_addr: self.dma_infos[0].source_addr.spec_set_data(value, address & 3u32) & self.dma_infos[0].source_addr_mask, ..self.dma_infos[0] }) && *after == (Bus { dma_infos: after.dma_infos, ..*self })
        } else if 0x040000B4 <= address <= 0x040000B7 {
            after.dma_infos@ == self.dma_infos@.update(0, DmaInfo { dest_addr: self.dma_infos[0].dest_addr.spec_set_data(value, address & 3u32) & self.dma_infos[0].dest_addr_mask, ..self.dma_infos[0] }) && *after == (Bus { dma_infos: after.dma_infos, ..*self })
        } else if 0x040000B8 <= address <= 0x040000B9 {
            after.dma_infos@ == self.dma_infos@.update(0, DmaInfo { word_count: self.dma_infos[0].word_count.spec_set_data(value, address & 1u32) & self.dma_infos[0].word_count_mask, ..self.dma_infos[0] }) && *after == (Bus { dma_infos: after.dma_infos, ..*self })
        } else if 0x040000BA <= address <= 0x040000BB {
            after.dma_infos@ == self.dma_infos@.update(0, self.dma_infos[0].control_written(self.dma_infos[0].dma_control.spec_set_data(value, address & 1u32))) && *after == (Bus { dma_infos: after.dma_infos, ..*self })
        } else if 0x040000BC <= address <= 0x040000BF {
            after.dma_infos@ == self.dma_infos@.update(1, DmaInfo { source_addr: self.dma_infos[1].source_addr.spec_set_data(value, address & 3u32) & self.dma_infos[1].source_addr_mask, ..self.dma_infos[1] }) && *after == (Bus { dma_infos: after.dma_infos, ..*self })
        } else if 0x040000C0 <= address <= 0x040000C3 {
            after.dma_infos@ == self.dma_infos@.update(1, DmaInfo { dest_addr: self.dma_infos[1].dest_addr.spec_set_data(value, address & 3u32) & self.dma_infos[1].dest_addr_mask, ..self.dma_infos[1] }) && *after == (Bus { dma_infos: after.dma_infos, ..*self })
        } else if 0x040000C4 <= address <= 0x040000C5 {
            after.dma_infos@ == self.dma_infos@.update(1, DmaInfo { word_count: self.dma_infos[1].word_count.spec_set_data(value, address & 1u32) & self.dma_infos[1].word_count_mask, ..self.dma_infos[1] }) && *after == (Bus { dma_infos: after.dma_infos, ..*self })
        } else if 0x040000C6 <= address <= 0x040000C7 {
            after.dma_infos@ == self.dma_infos@.update(1, self.dma_infos[1].control_written(self.dma_infos[1].dma_control.spec_set_data(value, address & 1u32))) && *after == (Bus { dma_infos: after.dma_infos, ..*self })
        } else if 0x040000C8 <= address <= 0x040000CB {
            after.dma_infos@ == self.dma_infos@.update(2, DmaInfo { source_addr: self.dma_infos[2].source_addr.spec_set_data(value, address & 3u32) & self.dma_infos[2].source_addr_mask, ..self.dma_infos[2] }) && *after == (Bus { dma_infos: after.dma_infos, ..*self })
        } else if 0x040000CC <= address <= 0x040000CF {
            after.dma_infos@ == self.dma_infos@.update(2, DmaInfo { dest_addr: self.dma_infos[2].dest_addr.spec_set_data(value, address & 3u32) & self.dma_infos[2].dest_addr_mask, ..self.dma_infos[2] }) && *after == (Bus { dma_infos: after.dma_infos, ..*self })
        } else if 0x040000D0 <= address <= 0x040000D1 {
            after.dma_infos@ == self.dma_infos@.update(2, DmaInfo { word_count: self.dma_infos[2].word_count.spec_set_data(value, address & 1u32) & self.dma_infos[2].word_count_mask, ..self.dma_infos[2] }) && *after == (Bus { dma_infos: after.dma_infos, ..*self })
        } else if 0x040000D2 <= address <= 0x040000D3 {
            after.dma_infos@ == self.dma_infos@.update(2, self.dma_infos[2].control_written(self.dma_infos[2].dma_control.spec_set_data(value, address & 1u32))) && *after == (Bus { dma_infos: after.dma_infos, ..*self })
        } else if 0x040000D4 <= address <= 0x040000D7 {
            after.dma_infos@ == self.dma_infos@.update(3, DmaInfo { source_addr: self.dma_infos[3].source_addr.spec_set_data(value, address & 3u32) & self.dma_infos[3].source_addr_mask, ..self.dma_infos[3] }) && *after == (Bus { dma_infos: after.dma_infos, ..*self })
        } else if 0x040000D8 <= address <= 0x040000DB {
            after.dma_infos@ == self.dma_infos@.update(3, DmaInfo { dest_addr: self.dma_infos[3].dest_addr.spec_set_data(value, address & 3u32) & self.dma_infos[3].dest_addr_mask, ..self.dma_infos[3] }) && *after == (Bus { dma_infos: after.dma_infos, ..*self })
        } else if 0x040000DC <= address <= 0x040000DD {
            after.dma_infos@ == self.dma_infos@.update(3, DmaInfo { word_count: self.dma_infos[3].word_count.spec_set_data(value, address & 1u32) & self.dma_infos[3].word_count_mask, ..self.dma_infos[3] }) && *after == (Bus { dma_infos: after.dma_infos, ..*self })
        } else if 0x040000DE <= address <= 0x040000DF {
            after.dma_infos@ == self.dma_infos@.update(3, self.dma_infos[3].control_written(self.dma_infos[3].dma_control.spec_set_data(value, address & 1u32))) && *after == (Bus { dma_infos: after.dma_infos, ..*self })
        } else if 0x04000100 <= address <= 0x04000101 {
            after.timers@ == self.timers@.update(0, Timer { reload: self.timers[0].reload.spec_set_data(value, address & 1u32), ..self.timers[0] }) && *after == (Bus { timers: after.timers, ..*self })
        } else if 0x04000102 <= address <= 0x04000103 {
            after.timers@ == self.timers@.update(0, self.timers[0].control_written(self.timers[0].control.spec_set_data(value, address & 1u32))) && *after == (Bus { timers: after.timers, ..*self })
        } else if 0x04000104 <= address <= 0x04000105 {
            after.timers@ == self.timers@.update(1, Timer { reload: self.timers[1].reload.spec_set_data(value, address & 1u32), ..self.timers[1] }) && *after == (Bus { timers: after.timers, ..*self })
        } else if 0x04000106 <= address <= 0x04000107 {
            after.timers@ == self.timers@.update(1, self.timers[1].control_written(self.timers[1].control.spec_set_data(value, address & 1u32))) && *after == (Bus { timers: after.timers, ..*self })
        } else if 0x04000108 <= address <= 0x04000109 {
            after.timers@ == self.timers@.update(2, Timer { reload: self.timers[2].reload.spec_set_data(value, address & 1u32), ..self.timers[2] }) && *after == (Bus { timers: after.timers, ..*self })
        } else if 0x0400010A <= address <= 0x0400010B {
            after.timers@ == self.timers@.update(2, self.timers[2].control_written(self.timers[2].control.spec_set_data(value, address & 1u32))) && *after == (Bus { timers: after.timers, ..*self })
        } else if 0x0400010C <= address <= 0x0400010D {
            after.timers@ == self.timers@.update(3, Timer { reload: self.timers[3].reload.spec_set_data(value, address & 1u32), ..self.timers[3] }) && *after == (Bus { timers: after.timers, ..*self })
        } else if 0x0400010E <= address <= 0x0400010F {
            after.timers@ == self.timers@.update(3, self.timers[3].control_written(self.timers[3].control.spec_set_data(value, address & 1u32))) && *after == (Bus { timers: after.timers, ..*self })
        } else if 0x04000132 <= address <= 0x04000133 {
            *after == (Bus { keypad: Keypad { interrupt_control: self.keypad.interrupt_control.spec_set_data(value, address & 1u32), ..self.keypad }, ..*self })
        } else if 0x04000200 <= address <= 0x04000201 {
            *after == (Bus { interrupt_enable: self.interrupt_enable.spec_set_data(value, address & 1u32), ..*self })
        } else if 0x04000202 <= address <= 0x04000203 {
            after.interrupt_request[0] == self.interrupt_request[0] & !(0u16.spec_set_data(value, address & 1u32)) && (forall|i: int| 1 <= i < 4 ==> after.interrupt_request[i] == self.interrupt_request[i]) && *after == (Bus { interrupt_request: after.interrupt_request, ..*self })
        } else if 0x04000208 <= address <= 0x04000209 {
            *after == (Bus { interrupt_master_enable: self.interrupt_master_enable.spec_set_data(value, address & 1u32), ..*self })
        } else {
            *after == *self
        }
    }

    fn write_io_byte(&mut self, value: u8, address: u32)
        requires
            old(self).wf(),
        ensures
            final(self).wf(),
            old(self).io_byte_written(final(self), value, address),
    {
        assert((address & 1u32) < 2 && (address & 3u32) < 4) by {
            crate::bits::lemma_u32_address(address);
        }
        if 0x04000000 <= address && address <= 0x04000001 {
            self.lcd.write_lcd_control(value, address & 1u32);
        } else if 0x04000004 <= address && address <= 0x04000005 {
            self.lcd.write_lcd_status(value, address & 1u32);
        } else if 0x04000008 <= address && address <= 0x04000009 {
            self.lcd.write_layer0_bg_control(value, address & 1u32);
        } else if 0x0400000A <= address && address <= 0x0400000B {
            self.lcd.write_layer1_bg_control(value, address & 1u32);
        } else if 0x0400000C <= address && address <= 0x0400000D {
            self.lcd.write_layer2_bg_control(value, address & 1u32);
        } else if 0x0400000E <= address && address <= 0x0400000F {
            self.lcd.write_layer3_bg_control(value, address & 1u32);
        } else if 0x04000010 <= address && address <= 0x04000011 {
            self.lcd.write_layer0_x_offset(value, address & 1u32);
        } else if 0x04000012 <= address && address <= 0x04000013 {
            self.lcd.write_layer0_y_offset(value, address & 1u32);
        } else if 0x04000014 <= address && address <= 0x04000015 {
            self.lcd.write_layer1_x_offset(value, address & 1u32);
        } else if 0x04000016 <= address && address <= 0x04000017 {
            self.lcd.write_layer1_y_offset(value, address & 1u32);
        } else if 0x04000018 <= address && address <= 0x04000019 {
            self.lcd.write_layer2_text_x_offset(value, address & 1u32);
        } else if 0x0400001A <= address && address <= 0x0400001B {
            self.lcd.write_layer2_text_y_offset(value, address & 1u32);
        } else if 0x0400001C <= address && address <= 0x0400001D {
            self.lcd.write_layer3_text_x_offset(value, address & 1u32);
        } else if 0x0400001E <= address && address <= 0x0400001F {
            self.lcd.write_layer3_text_y_offset(value, address & 1u32);
        } else if 0x04000020 <= address && address <= 0x04000021 {
            self.lcd.write_layer2_affine_param_a(value, address & 1u32);
        } else if 0x04000022 <= address && address <= 0x04000023 {
            self.lcd.write_layer2_affine_param_b(value, address & 1u32);
        } else if 0x04000024 <= address && address <= 0x04000025 {
            self.lcd.write_layer2_affine_param_c(value, address & 1u32);
        } else if 0x04000026 <= address && address <= 0x04000027 {
            self.lcd.write_layer2_affine_param_d(value, address & 1u32);
        } else if 0x04000028 <= address && address <= 0x0400002B {
            self.lcd.write_layer2_affine_x_offset(value, address & 3u32);
        } else if 0x0400002C <= address && address <= 0x0400002F {
            self.lcd.write_layer2_affine_y_offset(value, address & 3u32);
        } else if 0x04000030 <= address && address <= 0x04000031 {
            self.lcd.write_layer3_affine_param_a(value, address & 1u32);
        } else if 0x04000032 <= address && address <= 0x04000033 {
            self.lcd.write_layer3_affine_param_b(value, address & 1u32);
        } else if 0x04000034 <= address && address <= 0x04000035 {
            self.lcd.write_layer3_affine_param_c(value, address & 1u32);
        } else if 0x04000036 <= address && address <= 0x04000037 {
            self.lcd.write_layer3_affine_param_d(value, address & 1u32);
        } else if 0x04000038 <= address && address <= 0x0400003B {
            self.lcd.write_layer3_affine_x_offset(value, address & 3u32);
        } else if 0x0400003C <= address && address <= 0x0400003F {
            self.lcd.write_layer3_affine_y_offset(value, address & 3u32);
        } else if 0x04000040 <= address && address <= 0x04000041 {
            self.lcd.write_window_0_horizontal(value, address & 1u32);
        } else if 0x04000042 <= address && address <= 0x04000043 {
            self.lcd.write_window_1_horizontal(value, address & 1u32);
        } else if 0x04000044 <= address && address <= 0x04000045 {
            self.lcd.write_window_0_vertical(value, address & 1u32);
        } else if 0x04000046 <= address && address <= 0x04000047 {
            self.lcd.write_window_1_vertical(value, address & 1u32);
        } else if 0x04000048 <= address && address <= 0x04000049 {
            self.lcd.write_window_in_control(value, address & 1u32);
        } else if 0x0400004A <= address && address <= 0x0400004B {
            self.lcd.write_window_out_control(value, address & 1u32);
        } else if 0x0400004C <= address && address <= 0x0400004F {
            self.lcd.write_mosaic_size(value, address & 3u32);
        } else if 0x04000050 <= address && address <= 0x04000051 {
            self.lcd.write_color_effects_selection(value, address & 1u32);
        } else if 0x04000052 <= address && address <= 0x04000053 {
            self.lcd.write_alpha_blending_coefficients(value, address & 1u32);
        } else if 0x04000054 <= address && address <= 0x04000055 {
            self.lcd.write_brightness_coefficient(value, address & 1u32);
        } else if 0x04000088 <= address && address <= 0x04000089 {
            self.apu.write_sound_pwm_control(value, address & 1u32);
        } else if 0x040000B0 <= address && address <= 0x040000B3 {
            let mut dma = self.dma_infos[0];
            dma.write_source_addr(value, address & 3u32);
            self.dma_infos[0] = dma;
        } else if 0x040000B4 <= address && address <= 0x040000B7 {
            let mut dma = self.dma_infos[0];
            dma.write_dest_addr(value, address & 3u32);
            self.dma_infos[0] = dma;
        } else if 0x040000B8 <= address && address <= 0x040000B9 {
            let mut dma = self.dma_infos[0];
            dma.write_word_count(value, address & 1u32);
            self.dma_infos[0] = dma;
        } else if 0x040000BA <= address && address <= 0x040000BB {
            let mut dma = self.dma_infos[0];
            dma.write_dma_control(value, address & 1u32);
            self.dma_infos[0] = dma;
        } else if 0x040000BC <= address && address <= 0x040000BF {
            let mut dma = self.dma_infos[1];
            dma.write_source_addr(value, address & 3u32);
            self.dma_infos[1] = dma;
        } else if 0x040000C0 <= address && address <= 0x040000C3 {
            let mut dma = self.dma_infos[1];
            dma.write_dest_addr(value, address & 3u32);
            self.dma_infos[1] = dma;
        } else if 0x040000C4 <= address && address <= 0x040000C5 {
            let mut dma = self.dma_infos[1];
            dma.write_word_count(value, address & 1u32);
            self.dma_infos[1] = dma;
        } else if 0x040000C6 <= address && address <= 0x040000C7 {
            let mut dma = self.dma_infos[1];
            dma.write_dma_control(value, address & 1u32);
            self.dma_infos[1] = dma;
        } else if 0x040000C8 <= address && address <= 0x040000CB {
            let mut dma = self.dma_infos[2];
            dma.write_source_addr(value, address & 3u32);
            self.dma_infos[2] = dma;
        } else if 0x040000CC <= address && address <= 0x040000CF {
            let mut dma = self.dma_infos[2];
            dma.write_dest_addr(value, address & 3u32);
            self.dma_infos[2] = dma;
        } else if 0x040000D0 <= address && address <= 0x040000D1 {
            let mut dma = self.dma_infos[2];
            dma.write_word_count(value, address & 1u32);
            self.dma_infos[2] = dma;
        } else if 0x040000D2 <= address && address <= 0x040000D3 {
            let mut dma = self.dma_infos[2];
            dma.write_dma_control(value, address & 1u32);
            self.dma_infos[2] = dma;
        } else if 0x040000D4 <= address && address <= 0x040000D7 {
            let mut dma = self.dma_infos[3];
            dma.write_source_addr(value, address & 3u32);
            self.dma_infos[3] = dma;
        } else if 0x040000D8 <= address && address <= 0x040000DB {
            let mut dma = self.dma_infos[3];
            dma.write_dest_addr(value, address & 3u32);
            self.dma_infos[3] = dma;
        } else if 0x040000DC <= address && address <= 0x040000DD {
            let mut dma = self.dma_infos[3];
            dma.write_word_count(value, address & 1u32);
            self.dma_infos[3] = dma;
        } else if 0x040000DE <= address && address <= 0x040000DF {
            let mut dma = self.dma_infos[3];
            dma.write_dma_control(value, address & 1u32);
            self.dma_infos[3] = dma;
        } else if 0x04000100 <= address && address <= 0x04000101 {
            let mut timer = self.timers[0];
            timer.write_timer_counter_reload(value, address & 1u32);
            self.timers[0] = timer;
        } else if 0x04000102 <= address && address <= 0x04000103 {
            let mut timer = self.timers[0];
            timer.write_timer_control(value, address & 1u32);
            self.timers[0] = timer;
        } else if 0x04000104 <= address && address <= 0x04000105 {
            let mut timer = self.timers[1];
            timer.write_timer_counter_reload(value, address & 1u32);
            self.timers[1] = timer;
        } else if 0x04000106 <= address && address <= 0x04000107 {
            let mut timer = self.timers[1];
            timer.write_timer_control(value, address & 1u32);
            self.timers[1] = timer;
        } else if 0x04000108 <= address && address <= 0x04000109 {
            let mut timer = self.timers[2];
            timer.write_timer_counter_reload(value, address & 1u32);
            self.timers[2] = timer;
        } else if 0x0400010A <= address && address <= 0x0400010B {
            let mut timer = self.timers[2];
            timer.write_timer_control(value, address & 1u32);
            self.timers[2] = timer;
        } else if 0x0400010C <= address && address <= 0x0400010D {
            let mut timer = self.timers[3];
            timer.write_timer_counter_reload(value, address & 1u32);
            self.timers[3] = timer;
        } else if 0x0400010E <= address && address <= 0x0400010F {
            let mut timer = self.timers[3];
            timer.write_timer_control(value, address & 1u32);
            self.timers[3] = timer;
        } else if 0x04000132 <= address && address <= 0x04000133 {
            self.keypad.write_key_interrupt_control(value, address & 1u32);
        } else if 0x04000200 <= address && address <= 0x04000201 {
            self.write_interrupt_enable(value, address & 1u32);
        } else if 0x04000202 <= address && address <= 0x04000203 {
            self.write_interrupt_acknowledge(value, address & 1u32);
        } else if 0x04000208 <= address && address <= 0x04000209 {
            self.write_interrupt_master_enable(value, address & 1u32);
        }
    }

    /// Whether `after` is the bus after a byte write of `value` to `address`.
    pub open spec fn byte_written(&self, after: &Bus, value: u8, address: u32) -> bool {
        if address <= BIOS_END {
            *after == *self
        } else if BOARD_WRAM_BASE <= address <= 0x02FF_FFFF {
            &&& after.board_wram@ == self.board_wram@.update(board_wram_index(address), value)
            &&& *after == Bus { board_wram: after.board_wram, ..*self }
        } else if CHIP_WRAM_BASE <= address <= 0x03FF_FFFF {
            let latch = self.open_bus_iwram_data.spec_set_data(value, address & 3u32);
            &&& after.chip_wram@ == self.chip_wram@.update(chip_wram_index(address), value)
            &&& *after == Bus {
                chip_wram: after.chip_wram,
                open_bus_iwram_data: latch,
                open_bus_data: latch,
                ..*self
            }
        } else if 0x0400_0000 <= address <= 0x04FF_FFFF {
            self.io_byte_written(after, value, address)
        } else if PALETTE_RAM_BASE <= address <= 0x05FF_FFFF {
            let o = palette_offset(address);
            &&& *after == Bus { lcd: after.lcd, ..*self }
            &&& after.lcd == Lcd { bg_palette_ram: after.lcd.bg_palette_ram, obj_palette_ram: after.lcd.obj_palette_ram, ..self.lcd }
            &&& forall|p: u32| #![trigger after.lcd.palette_hword(p)]
                p < 0x400 && p & 1 == 0 ==> after.lcd.palette_hword(p) == if p == o & !1u32 {
                    (value as u16) | ((value as u16) << 8u16)
                } else {
                    self.lcd.palette_hword(p)
                }
        } else if VRAM_BASE <= address <= 0x06FF_FFFF {
            let o = vram_offset(address);
            &&& *after == Bus { lcd: after.lcd, ..*self }
            &&& after.lcd == Lcd { vram: after.lcd.vram, ..self.lcd }
            &&& self.lcd.vram_byte_write_applies(o) ==> after.lcd.vram@ == self.lcd.vram@.update(
                (o & !1u32) as int,
                value,
            ).update((o & !1u32) + 1, value)
            &&& !self.lcd.vram_byte_write_applies(o) ==> after.lcd.vram@ == self.lcd.vram@
        } else if SRAM_BASE <= address {
            &&& after.cartridge.sram@ == self.cartridge.sram@.update(sram_offset(address) as int, value)
            &&& after.cartridge.rom == self.cartridge.rom
            &&& *after == Bus { cartridge: after.cartridge, ..*self }
        } else {
            *after == *self
        }
    }

    pub fn write_byte_address(&mut self, value: u8, address: u32)
        requires
            old(self).wf(),
        ensures
            final(self).wf(),
            old(self).byte_written(final(self), value, address),
    {
        if address <= BIOS_END {
        } else if BOARD_WRAM_BASE <= address && address <= 0x02FF_FFFF {
            let i = ((address - BOARD_WRAM_BASE) % 0x40000) as usize;
            self.board_wram.set(i, value);
        } else if CHIP_WRAM_BASE <= address && address <= 0x03FF_FFFF {
            let i = ((address - CHIP_WRAM_BASE) % 0x8000) as usize;
            self.chip_wram.set(i, value);
            assert((address & 3u32) < 4) by {
            crate::bits::lemma_u32_address(address);
        }
            self.open_bus_iwram_data = self.open_bus_iwram_data.set_data(value, address & 3u32);
            self.open_bus_data = self.open_bus_iwram_data;
        } else if 0x0400_0000 <= address && address <= 0x04FF_FFFF {
            self.write_io_byte(value, address);
        } else if PALETTE_RAM_BASE <= address && address <= 0x05FF_FFFF {
            self.lcd.write_palette_ram_byte(value, (address - PALETTE_RAM_BASE) % 0x400);
        } else if VRAM_BASE <= address && address <= 0x06FF_FFFF {
            let o = vram_offset_exec(address);
            self.lcd.write_vram_byte(value, o);
        } else if OAM_BASE <= address && address <= 0x07FF_FFFF {
            self.lcd.write_oam_byte(value, (address - OAM_BASE) % 0x400);
        } else if ROM_BASE <= address && address <= ROM_END {
            self.cartridge.write_rom_byte(value, rom_offset_exec(address));
        } else if SRAM_BASE <= address {
            self.cartridge.write_sram_byte(value, (address - SRAM_BASE) % 0x10000);
        }
    }

    /// Whether `after` is the bus after a halfword write of `value` to
    /// `address`. Most regions ignore bit 0 of the address; SRAM stores the
    /// low byte; regions without halfword access take the two bytes in turn.
    pub open spec fn hword_written(&self, after: &Bus, value: u16, address: u32) -> bool {
        let aligned = address & !1u32;
        let lo = value as u8;
        let hi = (value >> 8u16) as u8;
        if CHIP_WRAM_BASE <= aligned <= 0x03FF_FFFF {
            let i = chip_wram_index(aligned);
            &&& after.chip_wram@ == self.chip_wram@.update(i, lo).update(i + 1, hi)
            &&& *after == Bus { chip_wram: after.chip_wram, ..*self }
        } else if BOARD_WRAM_BASE <= aligned <= 0x02FF_FFFF {
            let i = board_wram_index(aligned);
            &&& after.board_wram@ == self.board_wram@.update(i, lo).update(i + 1, hi)
            &&& *after == Bus { board_wram: after.board_wram, ..*self }
        } else if OAM_BASE <= aligned <= 0x07FF_FFFF {
            let o = oam_offset(aligned);
            &&& *after == Bus { lcd: after.lcd, ..*self }
            &&& after.lcd == Lcd { obj_attributes: after.lcd.obj_attributes, obj_rotations: after.lcd.obj_rotations, ..self.lcd }
            &&& after.lcd.oam_hword(o) == value
            &&& forall|p: u32| #![trigger after.lcd.oam_hword(p)]
                p < 0x400 && p & 1 == 0 && p != o ==> after.lcd.oam_hword(p) == self.lcd.oam_hword(p)
        } else if PALETTE_RAM_BASE <= aligned <= 0x05FF_FFFF {
            let o = palette_offset(aligned);
            &&& *after == Bus { lcd: after.lcd, ..*self }
            &&& after.lcd == Lcd { bg_palette_ram: after.lcd.bg_palette_ram, obj_palette_ram: after.lcd.obj_palette_ram, ..self.lcd }
            &&& forall|p: u32| #![trigger after.lcd.palette_hword(p)]
                p < 0x400 && p & 1 == 0 ==> after.lcd.palette_hword(p) == if p == o { value } else { self.lcd.palette_hword(p) }
        } else if VRAM_BASE <= aligned <= 0x06FF_FFFF {
            let o = vram_offset(aligned) as int;
            &&& *after == Bus { lcd: after.lcd, ..*self }
            &&& after.lcd == Lcd { vram: after.lcd.vram, ..self.lcd }
            &&& after.lcd.vram@ == self.lcd.vram@.update(o, lo).update(o + 1, hi)
        } else if ROM_BASE <= aligned <= ROM_END {
            *after == *self
        } else if SRAM_BASE <= aligned {
            &&& after.cartridge.sram@ == self.cartridge.sram@.update(sram_offset(address) as int, lo)
            &&& after.cartridge.rom == self.cartridge.rom
            &&& *after == Bus { cartridge: after.cartridge, ..*self }
        } else {
            exists|mid: Bus| #[trigger] self.byte_written(&mid, lo, aligned) && mid.byte_written(after, hi, (aligned + 1) as u32)
        }
    }

    pub fn write_halfword_address(&mut self, value: u16, address: u32)
        requires
            old(self).wf(),
        ensures
            final(self).wf(),
            old(self).hword_written(final(self), value, address),
    {
        let aligned = address & !1u32;
        assert(aligned <= address && aligned & 1 == 0 && aligned < 0xFFFF_FFFF) by {
            crate::bits::lemma_u32_address(address);
        }
        let lo = value as u8;
        let hi = (value >> 8u16) as u8;
        if CHIP_WRAM_BASE <= aligned && aligned <= 0x03FF_FFFF {
            let i = ((aligned - CHIP_WRAM_BASE) % 0x8000) as usize;
            assert(i % 2 == 0) by {
                assert(aligned & 1 == 0 ==> ((aligned - 0x0300_0000u32) as u32) % 0x8000 % 2 == 0) by {
            crate::bits::lemma_region_offsets(aligned);
        }
            }
            self.chip_wram.set(i, lo);
            self.chip_wram.set(i + 1, hi);
        } else if BOARD_WRAM_BASE <= aligned && aligned <= 0x02FF_FFFF {
            let i = ((aligned - BOARD_WRAM_BASE) % 0x40000) as usize;
            assert(i % 2 == 0) by {
                assert(aligned & 1 == 0 ==> ((aligned - 0x0200_0000u32) as u32) % 0x40000 % 2 == 0) by {
            crate::bits::lemma_region_offsets(aligned);
        }
            }
            self.board_wram.set(i, lo);
            self.board_wram.set(i + 1, hi);
        } else if OAM_BASE <= aligned && aligned <= 0x07FF_FFFF {
            let o = (aligned - OAM_BASE) % 0x400;
            assert(o & 1 == 0) by {
                assert(aligned & 1 == 0 ==> (((aligned - 0x0700_0000u32) as u32) % 0x400) & 1 == 0) by {
            crate::bits::lemma_region_offsets(aligned);
        }
            }
            self.lcd.write_oam_hword(value, o);
        } else if PALETTE_RAM_BASE <= aligned && aligned <= 0x05FF_FFFF {
            let o = (aligned - PALETTE_RAM_BASE) % 0x400;
            assert(o & 1 == 0) by {
                assert(aligned & 1 == 0 ==> (((aligned - 0x0500_0000u32) as u32) % 0x400) & 1 == 0) by {
            crate::bits::lemma_region_offsets(aligned);
        }
            }
            self.lcd.write_palette_ram_hword(value, o);
        } else if VRAM_BASE <= aligned && aligned <= 0x06FF_FFFF {
            let o = vram_offset_exec(aligned);
            assert(o & 1 == 0) by {
                assert(aligned & 1 == 0 ==> (((aligned - 0x0600_0000u32) as u32) % 0x20000) & 1 == 0
                    && ((((aligned - 0x0600_0000u32) as u32) % 0x20000 - 0x10000u32) as u32 % 0x8000 + 0x10000u32) as u32 & 1 == 0) by {
            crate::bits::lemma_region_offsets(aligned);
        }
            }
            self.lcd.write_vram_hword(value, o);
        } else if ROM_BASE <= aligned && aligned <= ROM_END {
            self.cartridge.write_rom_hword(value, rom_offset_exec(aligned));
        } else if SRAM_BASE <= aligned {
            self.cartridge.write_sram_byte(lo, (address - SRAM_BASE) % 0x10000);
        } else {
            self.write_byte_address(lo, aligned);
            let ghost mid = *self;
            self.write_byte_address(hi, aligned + 1);
            assert(old(self).byte_written(&mid, lo, aligned) && mid.byte_written(self, hi, (aligned + 1) as u32));
        }
    }

    /// Whether `after` is the bus after a word write of `value` to `address`.
    /// Most regions ignore bits 0-1 of the address; a word write to a timer
    /// writes its reload value and then its control register; SRAM stores
    /// the low byte; regions without word access take the four bytes in turn.
    pub open spec fn word_written(&self, after: &Bus, value: u32, address: u32) -> bool {
        let aligned = address & !3u32;
        let b0 = value as u8;
        let b1 = (value >> 8u32) as u8;
        let b2 = (value >> 16u32) as u8;
        let b3 = (value >> 24u32) as u8;
        if CHIP_WRAM_BASE <= aligned <= 0x03FF_FFFF {
            let i = chip_wram_index(aligned);
            &&& after.chip_wram@ == self.chip_wram@.update(i, b0).update(i + 1, b1).update(i + 2, b2).update(i + 3, b3)
            &&& *after == Bus { chip_wram: after.chip_wram, ..*self }
        } else if BOARD_WRAM_BASE <= aligned <= 0x02FF_FFFF {
            let i = board_wram_index(aligned);
            &&& after.board_wram@ == self.board_wram@.update(i, b0).update(i + 1, b1).update(i + 2, b2).update(i + 3, b3)
            &&& *after == Bus { board_wram: after.board_wram, ..*self }
        } else if 0x0400_0100 <= aligned <= 0x0400_010F {
            let n = ((aligned - 0x0400_0100) / 4) as int;
            let t = self.timers[n];
            &&& after.timers@ == self.timers@.update(n, Timer { reload: value as u16, ..t }.control_written((value >> 16u32) as u16))
            &&& *after == Bus { timers: after.timers, ..*self }
        } else if OAM_BASE <= aligned <= 0x07FF_FFFF {
            let o = oam_offset(aligned);
            &&& *after == Bus { lcd: after.lcd, ..*self }
            &&& after.lcd == Lcd { obj_attributes: after.lcd.obj_attributes, obj_rotations: after.lcd.obj_rotations, ..self.lcd }
            &&& after.lcd.oam_hword(o) == value as u16
            &&& after.lcd.oam_hword((o + 2) as u32) == (value >> 16u32) as u16
            &&& forall|p: u32| #![trigger after.lcd.oam_hword(p)]
                p < 0x400 && p & 1 == 0 && p != o && p != o + 2 ==> after.lcd.oam_hword(p) == self.lcd.oam_hword(p)
        } else if PALETTE_RAM_BASE <= aligned <= 0x05FF_FFFF {
            let o = palette_offset(aligned);
            &&& *after == Bus { lcd: after.lcd, ..*self }
            &&& after.lcd == Lcd { bg_palette_ram: after.lcd.bg_palette_ram, obj_palette_ram: after.lcd.obj_palette_ram, ..self.lcd }
            &&& after.lcd.palette_hword(o) == value as u16
            &&& after.lcd.palette_hword((o + 2) as u32) == (value >> 16u32) as u16
            &&& forall|p: u32| #![trigger after.lcd.palette_hword(p)]
                p < 0x400 && p & 1 == 0 && p != o && p != o + 2 ==> after.lcd.palette_hword(p) == self.lcd.palette_hword(p)
        } else if VRAM_BASE <= aligned <= 0x06FF_FFFF {
            let o = vram_offset(aligned) as int;
            &&& *after == Bus { lcd: after.lcd, ..*self }
            &&& after.lcd == Lcd { vram: after.lcd.vram, ..self.lcd }
            &&& after.lcd.vram@ == self.lcd.vram@.update(o, b0).update(o + 1, b1).update(o + 2, b2).update(o + 3, b3)
        } else if ROM_BASE <= aligned <= ROM_END {
            *after == *self
        } else if SRAM_BASE <= aligned {
            &&& after.cartridge.sram@ == self.cartridge.sram@.update(sram_offset(address) as int, b0)
            &&& after.cartridge.rom == self.cartridge.rom
            &&& *after == Bus { cartridge: after.cartridge, ..*self }
        } else {
            exists|m1: Bus, m2: Bus, m3: Bus|
                #[trigger] self.byte_written(&m1, b0, aligned) && #[trigger] m1.byte_written(&m2, b1, (aligned + 1) as u32)
                && #[trigger] m2.byte_written(&m3, b2, (aligned + 2) as u32) && m3.byte_written(after, b3, (aligned + 3) as u32)
        }
    }

    pub fn write_word_address(&mut self, value: u32, address: u32)
        requires
            old(self).wf(),
        ensures
            final(self).wf(),
            old(self).word_written(final(self), value, address),
    {
        let aligned = address & !3u32;
        assert(aligned <= address && aligned & 3 == 0 && aligned <= 0xFFFF_FFFC) by {
            crate::bits::lemma_u32_address(address);
        }
        let b0 = value as u8;
        let b1 = (value >> 8u32) as u8;
        let b2 = (value >> 16u32) as u8;
        let b3 = (value >> 24u32) as u8;
        if CHIP_WRAM_BASE <= aligned && aligned <= 0x03FF_FFFF {
            let i = ((aligned - CHIP_WRAM_BASE) % 0x8000) as usize;
            assert(i % 4 == 0) by {
                assert(aligned & 3 == 0 ==> ((aligned - 0x0300_0000u32) as u32) % 0x8000 % 4 == 0) by {
            crate::bits::lemma_region_offsets(aligned);
        }
            }
            self.chip_wram.set(i, b0);
            self.chip_wram.set(i + 1, b1);
            self.chip_wram.set(i + 2, b2);
            self.chip_wram.set(i + 3, b3);
        } else if BOARD_WRAM_BASE <= aligned && aligned <= 0x02FF_FFFF {
            let i = ((aligned - BOARD_WRAM_BASE) % 0x40000) as usize;
            assert(i % 4 == 0) by {
                assert(aligned & 3 == 0 ==> ((aligned - 0x0200_0000u32) as u32) % 0x40000 % 4 == 0) by {
            crate::bits::lemma_region_offsets(aligned);
        }
            }
            self.board_wram.set(i, b0);
            self.board_wram.set(i + 1, b1);
            self.board_wram.set(i + 2, b2);
            self.board_wram.set(i + 3, b3);
        } else if 0x0400_0100 <= aligned && aligned <= 0x0400_010F {
            let n = ((aligned - 0x0400_0100) / 4) as usize;
            let mut timer = self.timers[n];
            timer.write_timer_counter_reload_word(value);
            self.timers[n] = timer;
        } else if OAM_BASE <= aligned && aligned <= 0x07FF_FFFF {
            let o = (aligned - OAM_BASE) % 0x400;
            assert(o & 3 == 0) by {
                assert(aligned & 3 == 0 ==> (((aligned - 0x0700_0000u32) as u32) % 0x400) & 3 == 0) by {
            crate::bits::lemma_region_offsets(aligned);
        }
            }
            self.lcd.write_oam_word(value, o);
        } else if PALETTE_RAM_BASE <= aligned && aligned <= 0x05FF_FFFF {
            let o = (aligned - PALETTE_RAM_BASE) % 0x400;
            assert(o & 3 == 0) by {
                assert(aligned & 3 == 0 ==> (((aligned - 0x0500_0000u32) as u32) % 0x400) & 3 == 0) by {
            crate::bits::lemma_region_offsets(aligned);
        }
            }
            self.lcd.write_palette_ram_word(value, o);
        } else if VRAM_BASE <= aligned && aligned <= 0x06FF_FFFF {
            let o = vram_offset_exec(aligned);
            assert(o & 3 == 0) by {
                assert(aligned & 3 == 0 ==> (((aligned - 0x0600_0000u32) as u32) % 0x20000) & 3 == 0
                    && ((((aligned - 0x0600_0000u32) as u32) % 0x20000 - 0x10000u32) as u32 % 0x8000 + 0x10000u32) as u32 & 3 == 0) by {
            crate::bits::lemma_region_offsets(aligned);
        }
            }
            self.lcd.write_vram_word(value, o);
        } else if ROM_BASE <= aligned && aligned <= ROM_END {
            self.cartridge.write_rom_word(value, rom_offset_exec(aligned));
        } else if SRAM_BASE <= aligned {
            self.cartridge.write_sram_byte(b0, (address - SRAM_BASE) % 0x10000);
        } else {
            self.write_byte_address(b0, aligned);
            let ghost m1 = *self;
            self.write_byte_address(b1, aligned + 1);
            let ghost m2 = *self;
            self.write_byte_address(b2, aligned + 2);
            let ghost m3 = *self;
            self.write_byte_address(b3, aligned + 3);
            assert(old(self).byte_written(&m1, b0, aligned) && m1.byte_written(&m2, b1, (aligned + 1) as u32)
                && m2.byte_written(&m3, b2, (aligned + 2) as u32) && m3.byte_written(self, b3, (aligned + 3) as u32));
        }
    }

    /// Steps the four timers in order, each counting up on the previous one's
    /// overflow where so configured, and requests the interrupt of every
    /// timer that overflows with its interrupt enabled.
    /// Whether `after` is this bus with its timers stepped once, each timer
    /// counting the overflow of the one before (the first counts none),
    /// `r` reporting the overflows, and the interrupts of the timers that
    /// overflowed with interrupts enabled requested.
    pub open spec fn timers_stepped(&self, after: Bus, r: TimerStepResult) -> bool {
        let s0 = self.timers[0].step_spec(false);
        let s1 = self.timers[1].step_spec(s0.1);
        let s2 = self.timers[2].step_spec(s1.1);
        let s3 = self.timers[3].step_spec(s2.1);
        &&& after.timers[0] == s0.0 && after.timers[1] == s1.0
        &&& after.timers[2] == s2.0 && after.timers[3] == s3.0
        &&& r.overflows[0] == s0.1 && r.overflows[1] == s1.1
        &&& r.overflows[2] == s2.1 && r.overflows[3] == s3.1
        &&& after.interrupt_request[0] == self.interrupt_request[0] | timer_irq_bits(
            r.overflows[0] && self.timers[0].irq_enabled(),
            r.overflows[1] && self.timers[1].irq_enabled(),
            r.overflows[2] && self.timers[2].irq_enabled(),
            r.overflows[3] && self.timers[3].irq_enabled(),
        )
        &&& forall|i: int| 1 <= i < 4 ==> after.interrupt_request[i] == self.interrupt_request[i]
        &&& after == Bus { timers: after.timers, interrupt_request: after.interrupt_request, ..*self }
    }

    fn step_timers(&mut self) -> (r: TimerStepResult)
        requires
            old(self).wf(),
        ensures
            final(self).wf(),
            old(self).timers_stepped(*final(self), r),
    {
        let irq0 = self.timers[0].get_timer_irq_enable();
        let irq1 = self.timers[1].get_timer_irq_enable();
        let irq2 = self.timers[2].get_timer_irq_enable();
        let irq3 = self.timers[3].get_timer_irq_enable();
        let mut t0 = self.timers[0];
        let o0 = t0.step(false);
        let mut t1 = self.timers[1];
        let o1 = t1.step(o0);
        let mut t2 = self.timers[2];
        let o2 = t2.step(o1);
        let mut t3 = self.timers[3];
        let o3 = t3.step(o2);
        self.timers = [t0, t1, t2, t3];
        let b0: u16 = if o0 && irq0 {
            8
        } else {
            0
        };
        let b1: u16 = if o1 && irq1 {
            16
        } else {
            0
        };
        let b2: u16 = if o2 && irq2 {
            32
        } else {
            0
        };
        let b3: u16 = if o3 && irq3 {
            64
        } else {
            0
        };
        let bits: u16 = (((0u16 | b0) | b1) | b2) | b3;
        let first = self.interrupt_request[0];
        self.interrupt_request[0] = first | bits;
        TimerStepResult { overflows: [o0, o1, o2, o3] }
    }

    /// Starts the DMA channels that are enabled and wait for the blanking
    /// period that the display has just entered.
    fn inform_dma_state_change(&mut self, state_changes: LcdStateChangeInfo)
        ensures
            forall|i: int| 0 <= i < 4 ==> #[trigger] final(self).dma_infos[i] == dma_informed(old(self).dma_infos[i], state_changes),
            *final(self) == (Bus { dma_infos: final(self).dma_infos, ..*old(self) }),
    {
        let mut i: usize = 0;
        while i < 4
            invariant
                i <= 4,
                forall|j: int| 0 <= j < i ==> #[trigger] self.dma_infos[j] == dma_informed(old(self).dma_infos[j], state_changes),
                forall|j: int| i <= j < 4 ==> #[trigger] self.dma_infos[j] == old(self).dma_infos[j],
                *self == (Bus { dma_infos: self.dma_infos, ..*old(self) }),
            decreases 4 - i,
        {
            let mut dma = self.dma_infos[i];
            if dma.get_dma_enable() {
                let triggered = match dma.get_dma_start_timing() {
                    DmaStartTiming::Immediately => false,
                    DmaStartTiming::VBlank => state_changes.vblank_entered,
                    DmaStartTiming::HBlank => state_changes.hblank_entered,
                    DmaStartTiming::Special => false,
                };
                if triggered {
                    dma.dma_ongoing = true;
                }
            }
            self.dma_infos[i] = dma;
            i = i + 1;
        }
    }

    /// Runs the transfer of DMA channel `idx`: `word_count` units of 16 or 32
    /// bits from the source to the destination address, each moving as its
    /// address control says (a ROM source always increments). Reads below the
    /// external work RAM transfer the channel's last read value instead. At
    /// the end the addresses are stored back (the destination reloaded for
    /// increment-reload), a non-repeating channel is disabled, and the
    /// channel's interrupt is requested if enabled.
    fn run_dma(&mut self, idx: usize)
        requires
            old(self).wf(),
            idx < 4,
        ensures
            final(self).wf(),
            exists|buses: Seq<Bus>, sources: Seq<u32>, dests: Seq<u32>|
                #[trigger] dma_transferred(*old(self), *final(self), idx as int, buses, sources, dests),
    {
        let ghost start = *self;
        let dma = self.dma_infos[idx];
        let mut source = dma.source_addr;
        let mut dest = dma.dest_addr;
        let start_dest = dest;
        let length = dma.word_count;
        let words = get_bit_u16(dma.dma_control, 10);
        let unit: u32 = if words {
            4
        } else {
            2
        };
        let ghost mut buses: Seq<Bus> = seq![*self];
        let ghost mut sources: Seq<u32> = seq![source];
        let ghost mut dests: Seq<u32> = seq![dest];
        proof {
            lemma_dma_units_none(*self, source, dest, idx as int, words);
        }
        let mut n: u16 = 0;
        while n < length
            invariant
                self.wf(),
                idx < 4,
                n <= length,
                length == start.dma_infos[idx as int].word_count,
                words == start.dma_infos[idx as int].transfers_words(),
                unit == (if words {
                    4u32
                } else {
                    2u32
                }),
                dma_units_done(buses, sources, dests, idx as int, n as nat, words),
                buses[0] == start,
                sources[0] == start.dma_infos[idx as int].source_addr,
                dests[0] == start.dma_infos[idx as int].dest_addr,
                buses[n as int] == *self,
                sources[n as int] == source,
                dests[n as int] == dest,
            decreases length - n,
        {
            let ghost before = *self;
            if !words {
                let value: u16 = if source < BOARD_WRAM_BASE {
                    self.dma_infos[idx].read_latch as u16
                } else {
                    let result = self.read_halfword_address(source & !1u32);
                    let mut d = self.dma_infos[idx];
                    d.read_latch = ((result as u32) << 16u32) | (result as u32);
                    self.dma_infos[idx] = d;
                    result
                };
                let ghost mid = *self;
                proof {
                    assert(dma_unit_read(before, mid, idx as int, source, words));
                    assert(value == dma_unit_value(before, idx as int, source, words) as u16);
                }
                self.write_halfword_address(value, dest & !1u32);
                proof {
                    assert(dma_unit_done(before, *self, idx as int, source, dest, words));
                }
            } else {
                let value: u32 = if source < BOARD_WRAM_BASE {
                    self.dma_infos[idx].read_latch
                } else {
                    let result = self.read_word_address(source & !3u32);
                    let mut d = self.dma_infos[idx];
                    d.read_latch = result;
                    self.dma_infos[idx] = d;
                    result
                };
                let ghost mid = *self;
                proof {
                    assert(dma_unit_read(before, mid, idx as int, source, words));
                    assert(value == dma_unit_value(before, idx as int, source, words));
                }
                self.write_word_address(value, dest & !3u32);
                proof {
                    assert(dma_unit_done(before, *self, idx as int, source, dest, words));
                }
            }
            let d = self.dma_infos[idx];
            if ROM_BASE <= source && source <= ROM_END {
                source = source.wrapping_add(unit);
            } else {
                match d.get_source_addr_control() {
                    DmaAddrControl::Fixed => {},
                    DmaAddrControl::Decrement => {
                        source = source.wrapping_sub(unit);
                    },
                    DmaAddrControl::Increment | DmaAddrControl::IncrementReload => {
                        source = source.wrapping_add(unit);
                    },
                }
            }
            match d.get_dest_addr_control() {
                DmaAddrControl::Fixed => {},
                DmaAddrControl::Decrement => {
                    dest = dest.wrapping_sub(unit);
                },
                DmaAddrControl::Increment | DmaAddrControl::IncrementReload => {
                    dest = dest.wrapping_add(unit);
                },
            }
            proof {
                lemma_dma_units_push(buses, sources, dests, idx as int, n as nat, words, *self, source, dest);
                buses = buses.push(*self);
                sources = sources.push(source);
                dests = dests.push(dest);
            }
            n = n + 1;
        }
        let ghost last = *self;
        let mut d = self.dma_infos[idx];
        if d.get_dest_addr_control() == DmaAddrControl::IncrementReload {
            dest = start_dest;
        }
        d.source_addr = source;
        d.dest_addr = dest;
        if !get_bit_u16(d.dma_control, 9) {
            d.dma_control = set_bit_u16(d.dma_control, 15, false);
        }
        d.dma_ongoing = false;
        self.dma_infos[idx] = d;
        if get_bit_u16(d.dma_control, 14) {
            let interrupt = if idx == 0 {
                InterruptType::Dma0
            } else if idx == 1 {
                InterruptType::Dma1
            } else if idx == 2 {
                InterruptType::Dma2
            } else {
                InterruptType::Dma3
            };
            self.request_interrupt(interrupt);
        }
        proof {
            assert(dma_transferred(start, *self, idx as int, buses, sources, dests));
        }
    }

    /// Runs the transfers of the DMA channels that are started, in order of
    /// channel number.
    fn step_dma(&mut self)
        requires
            old(self).wf(),
        ensures
            final(self).wf(),
            exists|states: Seq<Bus>| #[trigger] dma_stepped(*old(self), *final(self), states),
            (forall|i: int| 0 <= i < 4 ==> !(#[trigger] old(self).dma_infos[i]).dma_ongoing) ==> *final(self) == *old(self),
    {
        let ghost mut states: Seq<Bus> = seq![*self];
        let mut i: usize = 0;
        while i < 4
            invariant
                self.wf(),
                i <= 4,
                states.len() == i + 1,
                states[0] == *old(self),
                states[i as int] == *self,
                forall|k: int| 0 <= k < i ==> #[trigger] dma_channel_stepped(states[k], states[k + 1], k),
                (forall|j: int| 0 <= j < 4 ==> !(#[trigger] old(self).dma_infos[j]).dma_ongoing) ==> *self == *old(self),
            decreases 4 - i,
        {
            let ghost before = *self;
            if self.dma_infos[i].dma_ongoing {
                self.run_dma(i);
            }
            proof {
                assert(dma_channel_stepped(before, *self, i as int));
                let next = states.push(*self);
                assert forall|k: int| 0 <= k < i + 1 implies #[trigger] dma_channel_stepped(next[k], next[k + 1], k) by {
                    if k < i {
                        assert(next[k] == states[k] && next[k + 1] == states[k + 1]);
                    }
                }
                states = next;
            }
            i = i + 1;
        }
        proof {
            assert(dma_stepped(*old(self), *self, states));
        }
    }

    /// Advances the system by one cycle: keypad and timer interrupts, the
    /// sound unit, the display (every fourth cycle) with its interrupts and
    /// blank-triggered DMA, the DMA transfers, and one stage of the interrupt
    /// request pipeline.
    pub fn step(&mut self)
        requires
            old(self).wf(),
        ensures
            final(self).wf(),
            exists|s: Seq<Bus>, dma_states: Seq<Bus>, timer_result: TimerStepResult, changes: LcdStateChangeInfo|
                #[trigger] bus_stepped(*old(self), *final(self), s, dma_states, timer_result, changes),
            final(self).cycle_count == (if old(self).cycle_count == usize::MAX {
                0
            } else {
                (old(self).cycle_count + 1) as usize
            }),
            final(self).interrupt_request[1] == final(self).interrupt_request[0],
            final(self).interrupt_request[2] == old(self).interrupt_request[1],
            final(self).interrupt_request[3] == old(self).interrupt_request[2],
    {
        let ghost s0 = *self;
        let cycle = self.cycle_count;
        if self.keypad.poll_pending_interrupts() {
            self.request_interrupt(InterruptType::Keypad);
        }
        let ghost s1 = *self;
        let timer_result = self.step_timers();
        let ghost s2 = *self;
        self.apu.step(timer_result);
        let ghost s3 = *self;
        let ghost mut changes = LcdStateChangeInfo { vblank_entered: false, hblank_entered: false, vcount_matched: false };
        if cycle % 4 == 0 {
            let state_changes = self.lcd.step();
            proof {
                changes = state_changes;
            }
            self.inform_dma_state_change(state_changes);
            if state_changes.vblank_entered && self.lcd.get_vblank_irq_enable() {
                self.request_interrupt(InterruptType::VBlank);
            }
            if state_changes.hblank_entered && self.lcd.get_hblank_irq_enable() {
                self.request_interrupt(InterruptType::HBlank);
            }
            if state_changes.vcount_matched && self.lcd.get_vcount_irq_enable() {
                self.request_interrupt(InterruptType::VCount);
            }
            proof {
                assert(display_stepped(s3, *self, changes));
            }
        }
        let ghost s4 = *self;
        self.step_dma();
        let ghost s5 = *self;
        let ghost dma_states = choose|states: Seq<Bus>| dma_stepped(s4, s5, states);
        let r = self.interrupt_request;
        self.interrupt_request = [r[0], r[0], r[1], r[2]];
        self.cycle_count = cycle.wrapping_add(1);
        proof {
            let s = seq![s0, s1, s2, s3, s4, s5];
            assert(bus_stepped(s0, *self, s, dma_states, timer_result, changes));
            lemma_step_moves_requests(s0, *self, s, dma_states, timer_result, changes);
        }
    }
}

} // verus!

verus! {

/// A byte written to work RAM reads back, at its address and through every
/// mirror of it, while the other bytes of the RAM keep their values.
pub proof fn lemma_wram_byte_read_after_write(b: Bus, after: Bus, value: u8, address: u32, other: u32)
    requires
        b.wf(),
        BOARD_WRAM_BASE <= address <= 0x03FF_FFFF,
        b.byte_written(&after, value, address),
        BOARD_WRAM_BASE <= other <= 0x03FF_FFFF,
    ensures
        after.byte_at(address) == value,
        (address <= 0x02FF_FFFF) == (other <= 0x02FF_FFFF) && board_wram_index(address) == board_wram_index(other)
            && address <= 0x02FF_FFFF ==> after.byte_at(other) == value,
        (address <= 0x02FF_FFFF) == (other <= 0x02FF_FFFF) && chip_wram_index(address) == chip_wram_index(other)
            && address > 0x02FF_FFFF ==> after.byte_at(other) == value,
        (address <= 0x02FF_FFFF) != (other <= 0x02FF_FFFF) ==> after.byte_at(other) == b.byte_at(other),
        (address <= 0x02FF_FFFF) == (other <= 0x02FF_FFFF) && address <= 0x02FF_FFFF && board_wram_index(address)
            != board_wram_index(other) ==> after.byte_at(other) == b.byte_at(other),
        (address <= 0x02FF_FFFF) == (other <= 0x02FF_FFFF) && address > 0x02FF_FFFF && chip_wram_index(address)
            != chip_wram_index(other) ==> after.byte_at(other) == b.byte_at(other),
{
}

/// A word written to work RAM at a word-aligned address reads back as that
/// word.
pub proof fn lemma_wram_word_read_after_write(b: Bus, after: Bus, value: u32, address: u32)
    requires
        b.wf(),
        BOARD_WRAM_BASE <= address <= 0x03FF_FFFF,
        address & 3 == 0,
        b.word_written(&after, value, address),
    ensures
        after.word_at(address) == value,
{
    crate::bits::lemma_u32_address(address);
    crate::bits::lemma_region_offsets(address);
    lemma_le32_bytes(value);
    assert(((address - 0x0200_0000u32) as u32) % 0x40000 % 4 == 0);
    assert(((address - 0x0300_0000u32) as u32) % 0x8000 % 4 == 0);
}

/// One more word read extends the words read and the bus after them.
pub proof fn lemma_words_read_push(b: Bus, addresses: Seq<u32>, address: u32)
    ensures
        b.words_read(addresses.push(address)) == b.words_read(addresses).push(
            b.after_words_read(addresses).word_at(address),
        ),
        b.after_words_read(addresses.push(address)) == b.after_words_read(addresses).after_word_read(address),
{
    assert(addresses.push(address).drop_last() =~= addresses);
}

/// No writes leave the bus as it was.
pub proof fn lemma_words_written_none(b: Bus)
    ensures
        b.words_written(&b, seq![b], Seq::empty(), Seq::empty()),
{
}

/// One more word write extends a chain of word writes.
pub proof fn lemma_words_written_push(
    b: Bus,
    mid: Bus,
    after: Bus,
    buses: Seq<Bus>,
    values: Seq<u32>,
    addresses: Seq<u32>,
    value: u32,
    address: u32,
)
    requires
        b.words_written(&mid, buses, values, addresses),
        mid.word_written(&after, value, address),
    ensures
        b.words_written(&after, buses.push(after), values.push(value), addresses.push(address)),
{
    let bs = buses.push(after);
    let vs = values.push(value);
    let ads = addresses.push(address);
    assert forall|k: int| 0 <= k < vs.len() implies #[trigger] bs[k].word_written(&bs[k + 1], vs[k], ads[k]) by {
        if k < values.len() {
            assert(bs[k] == buses[k]);
            assert(bs[k + 1] == buses[k + 1]);
            assert(buses[k].word_written(&buses[k + 1], values[k], addresses[k]));
        }
    }
}

/// As many words are read as there are addresses.
pub proof fn lemma_words_read_len(b: Bus, addresses: Seq<u32>)
    ensures
        b.words_read(addresses).len() == addresses.len(),
    decreases addresses.len(),
{
    if addresses.len() > 0 {
        lemma_words_read_len(b, addresses.drop_last());
    }
}

/// Splitting a word into its four bytes and joining them gives it back.
pub proof fn lemma_le32_bytes(value: u32)
    ensures
        le32(value as u8, (value >> 8u32) as u8, (value >> 16u32) as u8, (value >> 24u32) as u8) == value,
{
    assert((value as u8 as u32) | (((value >> 8u32) as u8 as u32) << 8u32) | (((value >> 16u32) as u8 as u32)
        << 16u32) | (((value >> 24u32) as u8 as u32) << 24u32) == value) by (bit_vector);
}

/// Splitting a halfword into its two bytes and joining them gives it back.
pub proof fn lemma_le16_bytes(value: u16)
    ensures
        le16(value as u8, (value >> 8u16) as u8) == value,
{
    assert((value as u8 as u16) | (((value >> 8u16) as u8 as u16) << 8u16) == value) by (bit_vector);
}

} // verus!

use vstd::prelude::*;

use crate::apu::{clocks_length, dec_sat, length_clocked, SEQUENCER_CLOCK_PERIOD};
use crate::bits::{bit_of_u16, get_bit_u16};
use crate::data_access::DataAccess;
use crate::timer::next_tick;

verus! {

/// The wave channel: plays 4-bit samples from one or two 16-byte banks of
/// wave RAM.
#[derive(Clone, Copy, Debug)]
pub struct Wave {
    pub stop_wave_ram_select: u16,
    pub length_volume: u16,
    pub frequency_control: u16,
    pub length_counter: u16,
    pub wave_ram_low: [u8; 16],
    pub wave_ram_high: [u8; 16],
    pub sample_idx: u8,
    pub wave_sample_timer_ticks_left: u16,
    pub frame_sequencer_idx: u8,
    pub clock: u64,
    pub enabled: bool,
}

impl Wave {
    pub open spec fn wf(self) -> bool {
        &&& self.frame_sequencer_idx < 8
        &&& self.sample_idx < 64
    }

    /// The channel at power-on: every register, counter and byte of wave
    /// RAM 0, disabled.
    pub open spec fn is_initial(self) -> bool {
        &&& self.stop_wave_ram_select == 0
        &&& self.length_volume == 0
        &&& self.frequency_control == 0
        &&& self.length_counter == 0
        &&& self.wave_ram_low@ == Seq::new(16, |i: int| 0u8)
        &&& self.wave_ram_high@ == Seq::new(16, |i: int| 0u8)
        &&& self.sample_idx == 0
        &&& self.wave_sample_timer_ticks_left == 0
        &&& self.frame_sequencer_idx == 0
        &&& self.clock == 0
        &&& !self.enabled
    }

    /// Whether both banks are played as one 64-sample waveform.
    pub open spec fn two_banks(self) -> bool {
        bit_of_u16(self.stop_wave_ram_select, 5)
    }

    /// Whether the high bank is the one played (and the low one the one that
    /// the CPU reads and writes).
    pub open spec fn high_bank_selected(self) -> bool {
        bit_of_u16(self.stop_wave_ram_select, 6)
    }

    pub open spec fn playback(self) -> bool {
        bit_of_u16(self.stop_wave_ram_select, 7)
    }

    pub open spec fn volume_shift(self) -> u16 {
        (self.length_volume >> 13u16) & 3u16
    }

    pub open spec fn force_volume_75_percent(self) -> bool {
        bit_of_u16(self.length_volume, 15)
    }

    pub open spec fn sample_rate(self) -> u16 {
        self.frequency_control & 0x7FFu16
    }

    pub open spec fn length_flag(self) -> bool {
        bit_of_u16(self.frequency_control, 14)
    }

    /// The number of samples in the waveform: 32, or 64 with two banks.
    pub open spec fn sample_count(self) -> int {
        if self.two_banks() {
            64
        } else {
            32
        }
    }

    /// The channel after a frame sequencer clock, which happens once every
    /// `SEQUENCER_CLOCK_PERIOD` cycles.
    pub open spec fn sequencer_stepped(self) -> Wave {
        if self.clock % SEQUENCER_CLOCK_PERIOD == 0 {
            let idx = self.frame_sequencer_idx as int;
            let (len, en) = if clocks_length(idx) {
                length_clocked(self.length_flag(), self.length_counter as int, self.enabled)
            } else {
                (self.length_counter as int, self.enabled)
            };
            Wave {
                length_counter: len as u16,
                enabled: en,
                frame_sequencer_idx: ((idx + 1) % 8) as u8,
                ..self
            }
        } else {
            self
        }
    }

    /// The channel after its sample timer counts one cycle: when it runs out
    /// the next sample is selected (wrapping at the end of the waveform) and
    /// the timer restarts at `(2048 - rate) * 8`.
    pub open spec fn sample_stepped(self) -> Wave {
        let t = dec_sat(self.wave_sample_timer_ticks_left as int);
        if t == 0 {
            let next = self.sample_idx + 1;
            Wave {
                sample_idx: (if next >= self.sample_count() {
                    0
                } else {
                    next
                }) as u8,
                wave_sample_timer_ticks_left: ((2048 - self.sample_rate()) * 8) as u16,
                ..self
            }
        } else {
            Wave { wave_sample_timer_ticks_left: t as u16, ..self }
        }
    }

    pub open spec fn step_spec(self) -> Wave {
        let s = self.sequencer_stepped().sample_stepped();
        Wave { clock: next_tick(self.clock), ..s }
    }

    /// The channel after a write of the trigger bit: enabled, with an expired
    /// length counter reloaded to 256.
    pub open spec fn triggered(self) -> Wave {
        Wave {
            enabled: true,
            length_counter: if self.length_counter == 0 {
                256
            } else {
                self.length_counter
            },
            ..self
        }
    }

    /// Whether the current sample lies in the played waveform: false only in
    /// one-bank mode with a sample index left over from two-bank mode.
    pub open spec fn sample_in_bank(self) -> bool {
        self.two_banks() || self.sample_idx < 32
    }

    /// The bank and the byte of it that hold the current sample.
    pub open spec fn current_byte(self) -> u8 {
        let selected = if self.high_bank_selected() {
            self.wave_ram_high
        } else {
            self.wave_ram_low
        };
        let other = if self.high_bank_selected() {
            self.wave_ram_low
        } else {
            self.wave_ram_high
        };
        if self.sample_idx < 32 {
            selected[(self.sample_idx / 2) as int]
        } else {
            other[((self.sample_idx - 32) / 2) as int]
        }
    }

    /// The current 4-bit sample: the high nibble of its byte for an even
    /// index, the low nibble for an odd one.
    pub open spec fn current_nibble(self) -> u8 {
        if self.sample_idx % 2 == 0 {
            self.current_byte() >> 4u8
        } else {
            self.current_byte() & 0xFu8
        }
    }

    /// The output level of a nibble: three quarters of it (rounded down to a
    /// multiple of 3) when forced, else the nibble shifted right by the volume
    /// shift, with shift 0 muting the channel.
    pub open spec fn scaled(self, nibble: u8) -> u8 {
        if self.force_volume_75_percent() {
            (nibble / 4 * 3) as u8
        } else if self.volume_shift() == 0 {
            0
        } else {
            nibble >> (self.volume_shift() as u8)
        }
    }

    /// The channel after its frequency control register takes the value
    /// `written`: the trigger bit (15) triggers the channel and is stored as 0.
    pub open spec fn frequency_control_written(self, written: u16) -> Wave {
        let stored = Wave { frequency_control: written, ..self };
        let after = if bit_of_u16(written, 15) {
            stored.triggered()
        } else {
            stored
        };
        Wave { frequency_control: written & 0x7FFFu16, ..after }
    }

    /// Whether `after` is the channel after a byte write to wave RAM, which
    /// goes to the bank that is not being played.
    pub open spec fn wave_ram_written(self, after: Wave, value: u8, offset: u32) -> bool {
        if self.high_bank_selected() {
            &&& after == Wave { wave_ram_low: after.wave_ram_low, ..self }
            &&& after.wave_ram_low@ == self.wave_ram_low@.update(offset as int, value)
        } else {
            &&& after == Wave { wave_ram_high: after.wave_ram_high, ..self }
            &&& after.wave_ram_high@ == self.wave_ram_high@.update(offset as int, value)
        }
    }

    pub fn new() -> (r: Self)
        ensures
            r.is_initial(),
            r.wf(),
    {
        let r = Wave {
            stop_wave_ram_select: 0,
            length_volume: 0,
            frequency_control: 0,
            length_counter: 0,
            wave_ram_low: [0u8; 16],
            wave_ram_high: [0u8; 16],
            sample_idx: 0,
            wave_sample_timer_ticks_left: 0,
            frame_sequencer_idx: 0,
            clock: 0,
            enabled: false,
        };
        assert(r.wave_ram_low@ =~= Seq::new(16, |i: int| 0u8));
        assert(r.wave_ram_high@ =~= Seq::new(16, |i: int| 0u8));
        r
    }

    /// Advances the channel by one system cycle.
    pub fn step(&mut self)
        requires
            old(self).wf(),
        ensures
            final(self).wf(),
            *final(self) == old(self).step_spec(),
    {
        if self.clock % SEQUENCER_CLOCK_PERIOD == 0 {
            if self.frame_sequencer_idx % 2 == 0 {
                if self.get_length_flag() {
                    self.length_counter = self.length_counter.saturating_sub(1);
                    if self.length_counter == 0 {
                        self.enabled = false;
                    }
                }
            }
            self.frame_sequencer_idx = (self.frame_sequencer_idx + 1) % 8;
        }
        self.wave_sample_timer_ticks_left = self.wave_sample_timer_ticks_left.saturating_sub(1);
        if self.wave_sample_timer_ticks_left == 0 {
            self.sample_idx = self.sample_idx + 1;
            let count: u8 = if self.get_wave_ram_two_banks() {
                64
            } else {
                32
            };
            if self.sample_idx >= count {
                self.sample_idx = 0;
            }
            self.wave_sample_timer_ticks_left = (2048 - self.get_sample_rate()) * 8;
        }
        self.clock = self.clock.wrapping_add(1);
    }

    /// Whether `sample` can be taken: a disabled or stopped channel, or a
    /// current sample inside the played waveform.
    pub fn can_sample(&self) -> (r: bool)
        ensures
            r == (!self.enabled || !self.playback() || self.sample_in_bank()),
    {
        !self.enabled || !self.sound_channel_playback() || self.get_wave_ram_two_banks()
            || self.sample_idx < 32
    }

    /// The channel's output level (0 to 15); 0 when disabled or stopped.
    pub fn sample(&self) -> (r: u8)
        requires
            self.wf(),
            self.enabled && self.playback() ==> self.sample_in_bank(),
        ensures
            r == (if self.enabled && self.playback() {
                self.scaled(self.current_nibble())
            } else {
                0
            }),
            r <= 15,
    {
        if !self.enabled || !self.sound_channel_playback() {
            return 0;
        }
        let high = self.get_wave_ram_high_bank();
        let idx = self.sample_idx;
        let byte = if idx < 32 {
            if high {
                self.wave_ram_high[(idx / 2) as usize]
            } else {
                self.wave_ram_low[(idx / 2) as usize]
            }
        } else {
            if high {
                self.wave_ram_low[((idx - 32) / 2) as usize]
            } else {
                self.wave_ram_high[((idx - 32) / 2) as usize]
            }
        };
        let sample_nibble: u8 = if idx % 2 == 0 {
            byte >> 4u8
        } else {
            byte & 0x0F
        };
        assert(byte >> 4u8 <= 15 && byte & 0x0Fu8 <= 15) by {
            crate::bits::lemma_u8_nibbles(byte);
        }
        if self.get_force_volume_75_percent() {
            sample_nibble / 4 * 3
        } else {
            let shift = self.get_sound_volume_shift();
            if shift == 0 {
                0
            } else {
                assert(sample_nibble >> (shift as u8) <= sample_nibble) by (bit_vector);
                sample_nibble >> (shift as u8)
            }
        }
    }

    fn trigger(&mut self)
        ensures
            *final(self) == old(self).triggered(),
    {
        self.enabled = true;
        if self.length_counter == 0 {
            self.length_counter = 256;
        }
    }

    fn get_wave_ram_two_banks(&self) -> (r: bool)
        ensures
            r == self.two_banks(),
    {
        get_bit_u16(self.stop_wave_ram_select, 5)
    }

    fn get_wave_ram_high_bank(&self) -> (r: bool)
        ensures
            r == self.high_bank_selected(),
    {
        get_bit_u16(self.stop_wave_ram_select, 6)
    }

    fn sound_channel_playback(&self) -> (r: bool)
        ensures
            r == self.playback(),
    {
        get_bit_u16(self.stop_wave_ram_select, 7)
    }

    fn get_sound_volume_shift(&self) -> (r: u16)
        ensures
            r == self.volume_shift(),
            r < 4,
    {
        let v = self.length_volume;
        assert((v >> 13u16) & 3u16 < 4) by {
            crate::bits::lemma_u16_fields(v);
        }
        (self.length_volume >> 13u16) & 3
    }

    fn get_force_volume_75_percent(&self) -> (r: bool)
        ensures
            r == self.force_volume_75_percent(),
    {
        get_bit_u16(self.length_volume, 15)
    }

    fn get_sample_rate(&self) -> (r: u16)
        ensures
            r == self.sample_rate(),
            r < 2048,
    {
        let v = self.frequency_control;
        assert(v & 0x7FFu16 < 2048) by {
            crate::bits::lemma_u16_fields(v);
        }
        self.frequency_control & 0x7FF
    }

    fn get_length_flag(&self) -> (r: bool)
        ensures
            r == self.length_flag(),
    {
        get_bit_u16(self.frequency_control, 14)
    }

    pub fn read_stop_wave_ram_select<T>(&self, index: u32) -> (r: T) where u16: DataAccess<T>
        requires
            index < <u16 as DataAccess<T>>::lanes(),
        ensures
            r == self.stop_wave_ram_select.spec_get_data(index),
    {
        self.stop_wave_ram_select.get_data(index)
    }

    pub fn write_stop_wave_ram_select<T>(&mut self, value: T, index: u32) where u16: DataAccess<T>
        requires
            index < <u16 as DataAccess<T>>::lanes(),
        ensures
            *final(self) == (Wave {
                stop_wave_ram_select: old(self).stop_wave_ram_select.spec_set_data(value, index),
                ..*old(self)
            }),
    {
        self.stop_wave_ram_select = self.stop_wave_ram_select.set_data(value, index)
    }

    pub fn read_length_volume<T>(&self, index: u32) -> (r: T) where u16: DataAccess<T>
        requires
            index < <u16 as DataAccess<T>>::lanes(),
        ensures
            r == self.length_volume.spec_get_data(index),
    {
        self.length_volume.get_data(index)
    }

    pub fn write_length_volume<T>(&mut self, value: T, index: u32) where u16: DataAccess<T>
        requires
            index < <u16 as DataAccess<T>>::lanes(),
        ensures
            *final(self) == (Wave {
                length_volume: old(self).length_volume.spec_set_data(value, index),
                ..*old(self)
            }),
    {
        self.length_volume = self.length_volume.set_data(value, index)
    }

    pub fn read_frequency_control<T>(&self, index: u32) -> (r: T) where u16: DataAccess<T>
        requires
            index < <u16 as DataAccess<T>>::lanes(),
        ensures
            r == self.frequency_control.spec_get_data(index),
    {
        self.frequency_control.get_data(index)
    }

    /// A write with the trigger bit (15) set triggers the channel; the trigger
    /// bit itself is never stored.
    pub fn write_frequency_control<T>(&mut self, value: T, index: u32) where u16: DataAccess<T>
        requires
            index < <u16 as DataAccess<T>>::lanes(),
        ensures
            *final(self) == old(self).frequency_control_written(
                old(self).frequency_control.spec_set_data(value, index),
            ),
    {
        self.frequency_control = self.frequency_control.set_data(value, index);
        if get_bit_u16(self.frequency_control, 15) {
            self.trigger();
        }
        self.frequency_control = self.frequency_control & 0x7FFF;
    }

    /// Writes go to the bank that is not being played.
    pub fn write_wave_ram_byte(&mut self, value: u8, offset: u32)
        requires
            offset < 16,
        ensures
            old(self).wave_ram_written(*final(self), value, offset),
    {
        if self.get_wave_ram_high_bank() {
            self.wave_ram_low[offset as usize] = value;
        } else {
            self.wave_ram_high[offset as usize] = value;
        }
    }

    /// Reads come from the bank that is not being played.
    pub fn read_wave_ram_byte(&self, offset: u32) -> (r: u8)
        requires
            offset < 16,
        ensures
            r == (if self.high_bank_selected() {
                self.wave_ram_low[offset as int]
            } else {
                self.wave_ram_high[offset as int]
            }),
    {
        if self.get_wave_ram_high_bank() {
            self.wave_ram_low[offset as usize]
        } else {
            self.wave_ram_high[offset as usize]
        }
    }
}

impl Default for Wave {
    fn default() -> (r: Self)
        ensures
            r.is_initial(),
    {
        Wave::new()
    }
}

/// What was written to wave RAM reads back while the bank selection stays.
pub proof fn lemma_wave_ram_read_after_write(w: Wave, w2: Wave, value: u8, offset: u32)
    requires
        offset < 16,
        w.wave_ram_written(w2, value, offset),
    ensures
        (if w2.high_bank_selected() {
            w2.wave_ram_low[offset as int]
        } else {
            w2.wave_ram_high[offset as int]
        }) == value,
{
}

} // verus!

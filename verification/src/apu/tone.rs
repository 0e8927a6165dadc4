use vstd::prelude::*;

use crate::apu::{
    clocks_envelope, clocks_length, dec_sat, envelope_clock, envelope_clocked, length_clocked,
    SEQUENCER_CLOCK_PERIOD,
};
use crate::bits::{bit_of_u16, bit_of_u8, get_bit_u16, get_bit_u8};
use crate::data_access::DataAccess;
use crate::timer::next_tick;

verus! {

/// A square-wave channel with a length counter and a volume envelope.
#[derive(Clone, Copy, Debug)]
pub struct Tone {
    pub duty_length_envelope: u16,
    pub frequency_control: u16,
    pub length_counter: u8,
    pub frame_sequencer_idx: u16,
    pub clock: u64,
    pub wave_duty_index: u8,
    pub wave_duty_timer_ticks_left: u16,
    pub envelope_ticks_left: u8,
    pub enabled: bool,
    pub volume: u8,
}

/// The eight steps of a duty waveform as bits (bit `i` is step `i`): one
/// eighth, one quarter, one half and three quarters high.
pub open spec fn duty_pattern(duty: u16) -> u8 {
    if duty == 0 {
        0x80u8
    } else if duty == 1 {
        0x81u8
    } else if duty == 2 {
        0xE1u8
    } else {
        0x7Eu8
    }
}

impl Tone {
    pub open spec fn wf(self) -> bool {
        &&& self.frame_sequencer_idx < 8
        &&& self.wave_duty_index < 8
        &&& self.volume <= 15
    }

    pub open spec fn length_flag(self) -> bool {
        bit_of_u16(self.frequency_control, 14)
    }

    pub open spec fn frequency(self) -> u16 {
        self.frequency_control & 0x7FFu16
    }

    pub open spec fn envelope_period(self) -> u8 {
        ((self.duty_length_envelope >> 8u16) & 7u16) as u8
    }

    pub open spec fn envelope_increases(self) -> bool {
        bit_of_u16(self.duty_length_envelope, 11)
    }

    pub open spec fn initial_volume(self) -> u8 {
        (self.duty_length_envelope >> 12u16) as u8
    }

    pub open spec fn duty(self) -> u16 {
        (self.duty_length_envelope >> 6u16) & 3u16
    }

    /// The channel after a frame sequencer clock, which happens once every
    /// `SEQUENCER_CLOCK_PERIOD` cycles.
    pub open spec fn sequencer_stepped(self) -> Tone {
        if self.clock % SEQUENCER_CLOCK_PERIOD == 0 {
            let idx = self.frame_sequencer_idx as int;
            let (len, en) = if clocks_length(idx) {
                length_clocked(self.length_flag(), self.length_counter as int, self.enabled)
            } else {
                (self.length_counter as int, self.enabled)
            };
            let (vol, ticks) = if clocks_envelope(idx) {
                envelope_clocked(
                    self.envelope_period(),
                    self.envelope_increases(),
                    self.volume,
                    self.envelope_ticks_left,
                )
            } else {
                (self.volume, self.envelope_ticks_left)
            };
            Tone {
                length_counter: len as u8,
                enabled: en,
                volume: vol,
                envelope_ticks_left: ticks,
                frame_sequencer_idx: ((idx + 1) % 8) as u16,
                ..self
            }
        } else {
            self
        }
    }

    /// The channel after its duty timer counts one cycle: when it runs out the
    /// waveform advances one step and the timer restarts at
    /// `(2048 - frequency) * 16`.
    pub open spec fn duty_stepped(self) -> Tone {
        let t = dec_sat(self.wave_duty_timer_ticks_left as int);
        if t == 0 {
            Tone {
                wave_duty_index: ((self.wave_duty_index + 1) % 8) as u8,
                wave_duty_timer_ticks_left: ((2048 - self.frequency()) * 16) as u16,
                ..self
            }
        } else {
            Tone { wave_duty_timer_ticks_left: t as u16, ..self }
        }
    }

    pub open spec fn step_spec(self) -> Tone {
        let s = self.sequencer_stepped().duty_stepped();
        Tone { clock: next_tick(self.clock), ..s }
    }

    /// The channel after a write of the trigger bit: enabled, at its initial
    /// volume, with an expired length counter reloaded to 64.
    pub open spec fn triggered(self) -> Tone {
        Tone {
            enabled: true,
            volume: self.initial_volume(),
            length_counter: if self.length_counter == 0 {
                64
            } else {
                self.length_counter
            },
            ..self
        }
    }

    /// The channel at power-on: every register and counter 0, disabled.
    pub open spec fn initial() -> Tone {
        Tone {
            duty_length_envelope: 0,
            frequency_control: 0,
            length_counter: 0,
            frame_sequencer_idx: 0,
            clock: 0,
            wave_duty_index: 0,
            wave_duty_timer_ticks_left: 0,
            envelope_ticks_left: 0,
            enabled: false,
            volume: 0,
        }
    }

    /// The channel after its duty length envelope register takes the value
    /// `written`: the length bits (0-5) load the length counter and are
    /// stored as 0.
    pub open spec fn duty_length_envelope_written(self, written: u16) -> Tone {
        Tone {
            duty_length_envelope: written & 0xFFC0u16,
            length_counter: (written & 0x3Fu16) as u8,
            ..self
        }
    }

    /// The channel after its frequency control register takes the value
    /// `written`: the trigger bit (15) triggers the channel and is stored as 0.
    pub open spec fn frequency_control_written(self, written: u16) -> Tone {
        let stored = Tone { frequency_control: written, ..self };
        let after = if bit_of_u16(written, 15) {
            stored.triggered()
        } else {
            stored
        };
        Tone { frequency_control: written & 0x7FFFu16, ..after }
    }

    pub fn new() -> (r: Self)
        ensures
            r == Tone::initial(),
            r.wf(),
    {
        Tone {
            duty_length_envelope: 0,
            frequency_control: 0,
            length_counter: 0,
            frame_sequencer_idx: 0,
            clock: 0,
            wave_duty_index: 0,
            wave_duty_timer_ticks_left: 0,
            envelope_ticks_left: 0,
            enabled: false,
            volume: 0,
        }
    }

    /// Advances the channel by one system cycle.
    pub fn step(&mut self)
        requires
            old(self).wf(),
        ensures
            final(self).wf(),
            *final(self) == old(self).step_spec(),
    {
        if self.clock % SEQUENCER_CLOCK_PERIOD == 0 {
            if self.frame_sequencer_idx % 2 == 0 {
                if self.get_length_flag() {
                    self.length_counter = self.length_counter.saturating_sub(1);
                    if self.length_counter == 0 {
                        self.enabled = false;
                    }
                }
            }
            if self.frame_sequencer_idx == 7 {
                let (volume, ticks) = envelope_clock(
                    self.get_envelope_sweep_period(),
                    self.get_envelope_direction_increase(),
                    self.volume,
                    self.envelope_ticks_left,
                );
                self.volume = volume;
                self.envelope_ticks_left = ticks;
            }
            self.frame_sequencer_idx = (self.frame_sequencer_idx + 1) % 8;
        }
        self.wave_duty_timer_ticks_left = self.wave_duty_timer_ticks_left.saturating_sub(1);
        if self.wave_duty_timer_ticks_left == 0 {
            self.wave_duty_index = (self.wave_duty_index + 1) % 8;
            self.wave_duty_timer_ticks_left = (2048 - self.get_frequency()) * 16;
        }
        self.clock = self.clock.wrapping_add(1);
    }

    /// The channel's output level: its volume while the duty waveform is high,
    /// else 0; always 0 when disabled.
    pub fn sample(&self) -> (r: u8)
        requires
            self.wf(),
        ensures
            r == (if self.enabled && bit_of_u8(duty_pattern(self.duty()), self.wave_duty_index) {
                self.volume
            } else {
                0
            }),
            r <= 15,
    {
        if !self.enabled {
            return 0;
        }
        if get_bit_u8(self.get_wave_pattern_duty(), self.wave_duty_index) {
            self.volume
        } else {
            0
        }
    }

    fn trigger(&mut self)
        requires
            old(self).wf(),
        ensures
            final(self).wf(),
            *final(self) == old(self).triggered(),
    {
        self.enabled = true;
        self.volume = self.get_envelope_initial_volume();
        if self.length_counter == 0 {
            self.length_counter = 64;
        }
    }

    fn get_wave_pattern_duty(&self) -> (r: u8)
        ensures
            r == duty_pattern(self.duty()),
    {
        let v = self.duty_length_envelope;
        assert((v >> 6u16) & 3u16 < 4) by {
            crate::bits::lemma_u16_fields(v);
        }
        match (self.duty_length_envelope >> 6u16) & 3 {
            0 => 0x80,
            1 => 0x81,
            2 => 0xE1,
            _ => 0x7E,
        }
    }

    fn get_envelope_sweep_period(&self) -> (r: u8)
        ensures
            r == self.envelope_period(),
    {
        ((self.duty_length_envelope >> 8u16) & 7) as u8
    }

    fn get_envelope_direction_increase(&self) -> (r: bool)
        ensures
            r == self.envelope_increases(),
    {
        get_bit_u16(self.duty_length_envelope, 11)
    }

    fn get_envelope_initial_volume(&self) -> (r: u8)
        ensures
            r == self.initial_volume(),
            r <= 15,
    {
        let v = self.duty_length_envelope;
        assert(v >> 12u16 <= 15) by {
            crate::bits::lemma_u16_fields(v);
        }
        (self.duty_length_envelope >> 12u16) as u8
    }

    fn get_frequency(&self) -> (r: u16)
        ensures
            r == self.frequency(),
            r < 2048,
    {
        let v = self.frequency_control;
        assert(v & 0x7FFu16 < 2048) by {
            crate::bits::lemma_u16_fields(v);
        }
        self.frequency_control & 0x7FF
    }

    fn get_length_flag(&self) -> (r: bool)
        ensures
            r == self.length_flag(),
    {
        get_bit_u16(self.frequency_control, 14)
    }

    pub fn read_duty_length_envelope<T>(&self, index: u32) -> (r: T) where u16: DataAccess<T>
        requires
            index < <u16 as DataAccess<T>>::lanes(),
        ensures
            r == self.duty_length_envelope.spec_get_data(index),
    {
        self.duty_length_envelope.get_data(index)
    }

    /// The length bits (0-5) of a write load the length counter and always
    /// read back as 0.
    pub fn write_duty_length_envelope<T>(&mut self, value: T, index: u32) where u16: DataAccess<T>
        requires
            index < <u16 as DataAccess<T>>::lanes(),
        ensures
            *final(self) == old(self).duty_length_envelope_written(old(self).duty_length_envelope.spec_set_data(value, index)),
    {
        let written = self.duty_length_envelope.set_data(value, index);
        self.length_counter = (written & 0x3F) as u8;
        self.duty_length_envelope = written & 0xFFC0;
    }

    /// Only the length flag (bit 14) reads back.
    pub fn read_frequency_control<T>(&self, index: u32) -> (r: T) where u16: DataAccess<T>
        requires
            index < <u16 as DataAccess<T>>::lanes(),
        ensures
            r == (self.frequency_control & 0x4000u16).spec_get_data(index),
    {
        (self.frequency_control & 0x4000).get_data(index)
    }

    /// A write with the trigger bit (15) set triggers the channel; the trigger
    /// bit itself is never stored.
    pub fn write_frequency_control<T>(&mut self, value: T, index: u32) where u16: DataAccess<T>
        requires
            old(self).wf(),
            index < <u16 as DataAccess<T>>::lanes(),
        ensures
            final(self).wf(),
            *final(self) == old(self).frequency_control_written(
                old(self).frequency_control.spec_set_data(value, index),
            ),
    {
        self.frequency_control = self.frequency_control.set_data(value, index);
        if get_bit_u16(self.frequency_control, 15) {
            self.trigger();
        }
        self.frequency_control = self.frequency_control & 0x7FFF;
    }
}

impl Default for Tone {
    fn default() -> (r: Self)
        ensures
            r == Tone::initial(),
    {
        Tone::new()
    }
}

} // verus!

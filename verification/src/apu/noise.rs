use vstd::prelude::*;

use crate::apu::{
    clocks_envelope, clocks_length, dec_sat, envelope_clock, envelope_clocked, length_clocked,
    SEQUENCER_CLOCK_PERIOD,
};
use crate::bits::{bit_of_u16, get_bit_u16, set_bit_u16, with_bit_u16};
use crate::data_access::DataAccess;
use crate::timer::next_tick;

verus! {

/// The noise channel: a linear feedback shift register clocked at a
/// programmable rate, with a length counter and a volume envelope.
#[derive(Clone, Copy, Debug)]
pub struct Noise {
    pub length_envelope: u16,
    pub frequency_control: u16,
    pub length_counter: u8,
    pub frame_sequencer_idx: u16,
    pub clock: u64,
    pub linear_feedback_shift_register: u16,
    pub noise_ticks_left: u16,
    pub envelope_ticks_left: u8,
    pub enabled: bool,
    pub volume: u8,
}

/// One shift of the register: bits 0 and 1 are XORed, the register shifts
/// right by one and the XOR goes into bit 14, and also into bit 6 in 7-bit
/// mode.
pub open spec fn lfsr_stepped(lfsr: u16, seven_bit: bool) -> u16 {
    let x = bit_of_u16(lfsr, 0) != bit_of_u16(lfsr, 1);
    let shifted = with_bit_u16(lfsr >> 1u16, 14, x);
    if seven_bit {
        with_bit_u16(shifted, 6, x)
    } else {
        shifted
    }
}

/// Cycles between two shifts: `(r * 64) << s` for dividing ratio `r` and
/// shift `s`, with `r = 0` counted as one half (as 16-bit arithmetic).
pub open spec fn noise_period(ratio: u16, shift: u16) -> u16 {
    if ratio == 0 {
        32u16 << shift
    } else {
        (ratio << 6u16) << shift
    }
}

impl Noise {
    pub open spec fn wf(self) -> bool {
        &&& self.frame_sequencer_idx < 8
        &&& self.volume <= 15
    }

    pub open spec fn initial() -> Noise {
        Noise {
            length_envelope: 0,
            frequency_control: 0,
            length_counter: 0,
            frame_sequencer_idx: 0,
            clock: 0,
            linear_feedback_shift_register: 0,
            noise_ticks_left: 0,
            envelope_ticks_left: 0,
            enabled: false,
            volume: 0,
        }
    }

    pub open spec fn length_flag(self) -> bool {
        bit_of_u16(self.frequency_control, 14)
    }

    pub open spec fn dividing_ratio(self) -> u16 {
        self.frequency_control & 7u16
    }

    pub open spec fn seven_bit(self) -> bool {
        bit_of_u16(self.frequency_control, 3)
    }

    pub open spec fn shift_clock_frequency(self) -> u16 {
        (self.frequency_control >> 4u16) & 0xFu16
    }

    pub open spec fn envelope_period(self) -> u8 {
        ((self.length_envelope >> 8u16) & 7u16) as u8
    }

    pub open spec fn envelope_increases(self) -> bool {
        bit_of_u16(self.length_envelope, 11)
    }

    pub open spec fn initial_volume(self) -> u8 {
        (self.length_envelope >> 12u16) as u8
    }

    /// The channel after a frame sequencer clock, which happens once every
    /// `SEQUENCER_CLOCK_PERIOD` cycles.
    pub open spec fn sequencer_stepped(self) -> Noise {
        if self.clock % SEQUENCER_CLOCK_PERIOD == 0 {
            let idx = self.frame_sequencer_idx as int;
            let (len, en) = if clocks_length(idx) {
                length_clocked(self.length_flag(), self.length_counter as int, self.enabled)
            } else {
                (self.length_counter as int, self.enabled)
            };
            let (vol, ticks) = if clocks_envelope(idx) {
                envelope_clocked(
                    self.envelope_period(),
                    self.envelope_increases(),
                    self.volume,
                    self.envelope_ticks_left,
                )
            } else {
                (self.volume, self.envelope_ticks_left)
            };
            Noise {
                length_counter: len as u8,
                enabled: en,
                volume: vol,
                envelope_ticks_left: ticks,
                frame_sequencer_idx: ((idx + 1) % 8) as u16,
                ..self
            }
        } else {
            self
        }
    }

    /// The channel after its shift timer counts one cycle: when it runs out the
    /// register shifts once and the timer restarts at the noise period.
    pub open spec fn shift_stepped(self) -> Noise {
        let t = dec_sat(self.noise_ticks_left as int);
        if t == 0 {
            Noise {
                linear_feedback_shift_register: lfsr_stepped(
                    self.linear_feedback_shift_register,
                    self.seven_bit(),
                ),
                noise_ticks_left: noise_period(self.dividing_ratio(), self.shift_clock_frequency()),
                ..self
            }
        } else {
            Noise { noise_ticks_left: t as u16, ..self }
        }
    }

    pub open spec fn step_spec(self) -> Noise {
        let s = self.sequencer_stepped().shift_stepped();
        Noise { clock: next_tick(self.clock), ..s }
    }

    /// The channel after a write of the trigger bit: enabled, at its initial
    /// volume, with all register bits set and an expired length counter
    /// reloaded to 64.
    pub open spec fn triggered(self) -> Noise {
        Noise {
            enabled: true,
            volume: self.initial_volume(),
            linear_feedback_shift_register: 0xFFFFu16,
            length_counter: if self.length_counter == 0 {
                64
            } else {
                self.length_counter
            },
            ..self
        }
    }

    /// The channel after its length envelope register takes the value
    /// `written`: the length bits (0-5) load the length counter and are
    /// stored as 0.
    pub open spec fn length_envelope_written(self, written: u16) -> Noise {
        Noise {
            length_envelope: written & 0xFFC0u16,
            length_counter: (written & 0x3Fu16) as u8,
            ..self
        }
    }

    /// The channel after its frequency control register takes the value
    /// `written`: the trigger bit (15) triggers the channel and is stored as 0.
    pub open spec fn frequency_control_written(self, written: u16) -> Noise {
        let stored = Noise { frequency_control: written, ..self };
        let after = if bit_of_u16(written, 15) {
            stored.triggered()
        } else {
            stored
        };
        Noise { frequency_control: written & 0x7FFFu16, ..after }
    }

    pub fn new() -> (r: Self)
        ensures
            r == Noise::initial(),
            r.wf(),
    {
        Noise {
            length_envelope: 0,
            frequency_control: 0,
            length_counter: 0,
            frame_sequencer_idx: 0,
            clock: 0,
            linear_feedback_shift_register: 0,
            noise_ticks_left: 0,
            envelope_ticks_left: 0,
            enabled: false,
            volume: 0,
        }
    }

    /// Advances the channel by one system cycle.
    pub fn step(&mut self)
        requires
            old(self).wf(),
        ensures
            final(self).wf(),
            *final(self) == old(self).step_spec(),
    {
        if self.clock % SEQUENCER_CLOCK_PERIOD == 0 {
            if self.frame_sequencer_idx % 2 == 0 {
                if self.get_length_flag() {
                    self.length_counter = self.length_counter.saturating_sub(1);
                    if self.length_counter == 0 {
                        self.enabled = false;
                    }
                }
            }
            if self.frame_sequencer_idx == 7 {
                let (volume, ticks) = envelope_clock(
                    self.get_envelope_sweep_period(),
                    self.get_envelope_direction_increase(),
                    self.volume,
                    self.envelope_ticks_left,
                );
                self.volume = volume;
                self.envelope_ticks_left = ticks;
            }
            self.frame_sequencer_idx = (self.frame_sequencer_idx + 1) % 8;
        }
        self.noise_ticks_left = self.noise_ticks_left.saturating_sub(1);
        if self.noise_ticks_left == 0 {
            let lfsr = self.linear_feedback_shift_register;
            let xor_result = get_bit_u16(lfsr, 0) != get_bit_u16(lfsr, 1);
            let mut shifted = set_bit_u16(lfsr >> 1u16, 14, xor_result);
            if self.get_counter_step_width_seven_bit() {
                shifted = set_bit_u16(shifted, 6, xor_result);
            }
            self.linear_feedback_shift_register = shifted;
            let shift = self.get_shift_clock_frequency();
            self.noise_ticks_left = match self.get_frequency_dividing_ratio() {
                0 => 32u16 << shift,
                ratio => (ratio << 6u16) << shift,
            };
        }
        self.clock = self.clock.wrapping_add(1);
    }

    /// The channel's output level: its volume while bit 0 of the register is
    /// clear, else 0; always 0 when disabled.
    pub fn sample(&self) -> (r: u8)
        requires
            self.wf(),
        ensures
            r == (if self.enabled && !bit_of_u16(self.linear_feedback_shift_register, 0) {
                self.volume
            } else {
                0
            }),
            r <= 15,
    {
        if !self.enabled {
            return 0;
        }
        if !get_bit_u16(self.linear_feedback_shift_register, 0) {
            self.volume
        } else {
            0
        }
    }

    fn trigger(&mut self)
        requires
            old(self).wf(),
        ensures
            final(self).wf(),
            *final(self) == old(self).triggered(),
    {
        self.enabled = true;
        self.volume = self.get_envelope_initial_volume();
        self.linear_feedback_shift_register = 0xFFFF;
        if self.length_counter == 0 {
            self.length_counter = 64;
        }
    }

    fn get_envelope_sweep_period(&self) -> (r: u8)
        ensures
            r == self.envelope_period(),
    {
        ((self.length_envelope >> 8u16) & 7) as u8
    }

    fn get_envelope_direction_increase(&self) -> (r: bool)
        ensures
            r == self.envelope_increases(),
    {
        get_bit_u16(self.length_envelope, 11)
    }

    fn get_envelope_initial_volume(&self) -> (r: u8)
        ensures
            r == self.initial_volume(),
            r <= 15,
    {
        let v = self.length_envelope;
        assert(v >> 12u16 <= 15) by {
            crate::bits::lemma_u16_fields(v);
        }
        (self.length_envelope >> 12u16) as u8
    }

    fn get_frequency_dividing_ratio(&self) -> (r: u16)
        ensures
            r == self.dividing_ratio(),
            r < 8,
    {
        let v = self.frequency_control;
        assert(v & 7u16 < 8) by {
            crate::bits::lemma_u16_fields(v);
        }
        self.frequency_control & 7
    }

    fn get_counter_step_width_seven_bit(&self) -> (r: bool)
        ensures
            r == self.seven_bit(),
    {
        get_bit_u16(self.frequency_control, 3)
    }

    fn get_shift_clock_frequency(&self) -> (r: u16)
        ensures
            r == self.shift_clock_frequency(),
            r < 16,
    {
        let v = self.frequency_control;
        assert((v >> 4u16) & 0xFu16 < 16) by {
            crate::bits::lemma_u16_fields(v);
        }
        (self.frequency_control >> 4u16) & 0xF
    }

    fn get_length_flag(&self) -> (r: bool)
        ensures
            r == self.length_flag(),
    {
        get_bit_u16(self.frequency_control, 14)
    }

    pub fn read_length_envelope<T>(&self, index: u32) -> (r: T) where u16: DataAccess<T>
        requires
            index < <u16 as DataAccess<T>>::lanes(),
        ensures
            r == self.length_envelope.spec_get_data(index),
    {
        self.length_envelope.get_data(index)
    }

    /// The length bits (0-5) of a write load the length counter and always
    /// read back as 0.
    pub fn write_length_envelope<T>(&mut self, value: T, index: u32) where u16: DataAccess<T>
        requires
            index < <u16 as DataAccess<T>>::lanes(),
        ensures
            *final(self) == old(self).length_envelope_written(old(self).length_envelope.spec_set_data(value, index)),
    {
        let written = self.length_envelope.set_data(value, index);
        self.length_counter = (written & 0x3F) as u8;
        self.length_envelope = written & 0xFFC0;
    }

    /// Only the length flag (bit 14) reads back.
    pub fn read_frequency_control<T>(&self, index: u32) -> (r: T) where u16: DataAccess<T>
        requires
            index < <u16 as DataAccess<T>>::lanes(),
        ensures
            r == (self.frequency_control & 0x4000u16).spec_get_data(index),
    {
        (self.frequency_control & 0x4000).get_data(index)
    }

    /// A write with the trigger bit (15) set triggers the channel; the trigger
    /// bit itself is never stored.
    pub fn write_frequency_control<T>(&mut self, value: T, index: u32) where u16: DataAccess<T>
        requires
            old(self).wf(),
            index < <u16 as DataAccess<T>>::lanes(),
        ensures
            final(self).wf(),
            *final(self) == old(self).frequency_control_written(
                old(self).frequency_control.spec_set_data(value, index),
            ),
    {
        self.frequency_control = self.frequency_control.set_data(value, index);
        if get_bit_u16(self.frequency_control, 15) {
            self.trigger();
        }
        self.frequency_control = self.frequency_control & 0x7FFF;
    }
}

impl Default for Noise {
    fn default() -> (r: Self)
        ensures
            r == Noise::initial(),
    {
        Noise::new()
    }
}

} // verus!

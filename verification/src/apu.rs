use vstd::prelude::*;

pub mod dma_fifo;
pub mod noise;

pub mod tone;
pub mod wave;


use crate::bits::{bit_of_u16, get_bit_u16};
use crate::data_access::DataAccess;
use crate::timer::TimerStepResult;
use crate::CYCLES_PER_SECOND;
use dma_fifo::DmaFifo;
use noise::Noise;
use tone::Tone;
use wave::Wave;

verus! {

/// Frame sequencer clocks per second.
pub const SEQUENCER_CLOCK_FREQUENCY: u64 = 512;

/// System cycles per frame sequencer clock.
pub const SEQUENCER_CLOCK_PERIOD: u64 = CYCLES_PER_SECOND / SEQUENCER_CLOCK_FREQUENCY;

/// Whether frame sequencer step `idx` (0 to 7) clocks the length counters:
/// every other step, starting with the first.
pub open spec fn clocks_length(idx: int) -> bool {
    idx % 2 == 0
}

/// Whether frame sequencer step `idx` (0 to 7) clocks the volume envelopes:
/// only the last step.
pub open spec fn clocks_envelope(idx: int) -> bool {
    idx == 7
}

/// `x - 1`, or 0 for 0.
pub open spec fn dec_sat(x: int) -> int {
    if x <= 0 {
        0
    } else {
        x - 1
    }
}

/// The length counter and enable flag after a length clock: with the length
/// flag set the counter counts down and the channel stops when it reaches 0.
pub open spec fn length_clocked(length_flag: bool, counter: int, enabled: bool) -> (int, bool) {
    if length_flag {
        let c = dec_sat(counter);
        (c, if c == 0 {
            false
        } else {
            enabled
        })
    } else {
        (counter, enabled)
    }
}

/// The volume and the envelope timer after an envelope clock. When the timer
/// runs out the volume moves one step (up to 15, or down to 0), unless the
/// envelope period is 0, and the timer restarts at the period (8 for 0).
pub open spec fn envelope_clocked(period: u8, increase: bool, volume: u8, ticks_left: u8) -> (u8, u8) {
    let t = dec_sat(ticks_left as int);
    if t == 0 {
        let v: int = if period == 0 {
            volume as int
        } else if increase {
            if volume + 1 > 15 {
                15
            } else {
                volume + 1
            }
        } else {
            dec_sat(volume as int)
        };
        (v as u8, if period == 0 {
            8u8
        } else {
            period
        })
    } else {
        (volume, t as u8)
    }
}

pub fn envelope_clock(period: u8, increase: bool, volume: u8, ticks_left: u8) -> (r: (u8, u8))
    requires
        volume <= 15,
    ensures
        r == envelope_clocked(period, increase, volume, ticks_left),
        r.0 <= 15,
{
    let ticks = ticks_left.saturating_sub(1);
    if ticks == 0 {
        let new_volume = if period != 0 {
            if increase {
                if volume + 1 > 0xF {
                    0xF
                } else {
                    volume + 1
                }
            } else {
                volume.saturating_sub(1)
            }
        } else {
            volume
        };
        let new_ticks = if period == 0 {
            8
        } else {
            period
        };
        (new_volume, new_ticks)
    } else {
        (volume, ticks)
    }
}

/// The sound unit: four programmable channels (two square waves, a wave
/// channel and a noise channel) and two direct-sound FIFOs. Channel 1 is a
/// square-wave channel with a sweep register that is stored and read back.
#[derive(Clone, Debug)]
pub struct Apu {
    pub channel_lr_volume_enable: u16,
    pub dma_sound_control: u16,
    pub sound_on_off: u32,
    pub sound_pwm_control: u32,
    pub fifo_a: DmaFifo,
    pub fifo_b: DmaFifo,
    pub ch1_sweep: u16,
    pub tone_and_sweep: Tone,
    pub tone: Tone,
    pub wave: Wave,
    pub noise: Noise,
}

impl Apu {
    pub open spec fn wf(&self) -> bool {
        &&& self.fifo_a.wf()
        &&& self.fifo_b.wf()
        &&& self.tone_and_sweep.wf()
        &&& self.tone.wf()
        &&& self.wave.wf()
        &&& self.noise.wf()
    }

    /// Whether FIFO A is played on timer 1's overflows (else timer 0's).
    pub open spec fn fifo_a_on_timer_1(&self) -> bool {
        bit_of_u16(self.dma_sound_control, 10)
    }

    /// Whether FIFO B is played on timer 1's overflows (else timer 0's).
    pub open spec fn fifo_b_on_timer_1(&self) -> bool {
        bit_of_u16(self.dma_sound_control, 14)
    }

    /// The sound unit at power-on: registers 0, FIFOs empty, channels idle.
    pub open spec fn is_initial(&self) -> bool {
        &&& self.channel_lr_volume_enable == 0
        &&& self.dma_sound_control == 0
        &&& self.sound_on_off == 0
        &&& self.sound_pwm_control == 0
        &&& self.fifo_a.buffer@.len() == 0 && !self.fifo_a.wants_dma
        &&& self.fifo_b.buffer@.len() == 0 && !self.fifo_b.wants_dma
        &&& self.ch1_sweep == 0
        &&& self.tone_and_sweep == Tone::initial()
        &&& self.tone == Tone::initial()
        &&& self.wave.is_initial()
        &&& self.noise == Noise::initial()
    }

    pub fn new() -> (r: Self)
        ensures
            r.wf(),
            r.is_initial(),
    {
        Apu {
            channel_lr_volume_enable: 0,
            dma_sound_control: 0,
            sound_on_off: 0,
            sound_pwm_control: 0,
            fifo_a: DmaFifo::new(),
            fifo_b: DmaFifo::new(),
            ch1_sweep: 0,
            tone_and_sweep: Tone::new(),
            tone: Tone::new(),
            wave: Wave::new(),
            noise: Noise::new(),
        }
    }

    /// Whether `after` is the sound unit one cycle on from this one: every
    /// channel stepped, and each FIFO moved on by the overflow of the timer
    /// it is assigned to.
    pub open spec fn stepped_to(self, after: Apu, timer_result: TimerStepResult) -> bool {
        &&& after.tone_and_sweep == self.tone_and_sweep.step_spec()
        &&& after.tone == self.tone.step_spec()
        &&& after.wave == self.wave.step_spec()
        &&& after.noise == self.noise.step_spec()
        &&& ({
                let a = if self.fifo_a_on_timer_1() {
                    timer_result.overflows[1]
                } else {
                    timer_result.overflows[0]
                };
                &&& a ==> after.fifo_a.buffer@ == (if self.fifo_a.buffer@.len() == 0 {
                    self.fifo_a.buffer@
                } else {
                    self.fifo_a.buffer@.drop_first()
                })
                &&& a ==> after.fifo_a.wants_dma == (self.fifo_a.wants_dma
                    || after.fifo_a.buffer@.len() <= 16)
                &&& !a ==> after.fifo_a.buffer@ == self.fifo_a.buffer@
                    && after.fifo_a.wants_dma == self.fifo_a.wants_dma
            })
        &&& ({
                let b = if self.fifo_b_on_timer_1() {
                    timer_result.overflows[1]
                } else {
                    timer_result.overflows[0]
                };
                &&& b ==> after.fifo_b.buffer@ == (if self.fifo_b.buffer@.len() == 0 {
                    self.fifo_b.buffer@
                } else {
                    self.fifo_b.buffer@.drop_first()
                })
                &&& b ==> after.fifo_b.wants_dma == (self.fifo_b.wants_dma
                    || after.fifo_b.buffer@.len() <= 16)
                &&& !b ==> after.fifo_b.buffer@ == self.fifo_b.buffer@
                    && after.fifo_b.wants_dma == self.fifo_b.wants_dma
            })
        &&& after.channel_lr_volume_enable == self.channel_lr_volume_enable
        &&& after.dma_sound_control == self.dma_sound_control
        &&& after.sound_on_off == self.sound_on_off
        &&& after.sound_pwm_control == self.sound_pwm_control
        &&& after.ch1_sweep == self.ch1_sweep
    }

    /// Advances every channel by one cycle, and each FIFO by the overflow of
    /// the timer it is assigned to.
    pub fn step(&mut self, timer_result: TimerStepResult)
        requires
            old(self).wf(),
        ensures
            final(self).wf(),
            old(self).stepped_to(*final(self), timer_result),
    {
        self.tone_and_sweep.step();
        self.tone.step();
        self.wave.step();
        self.noise.step();
        let sound_a_overflow = if get_bit_u16(self.dma_sound_control, 10) {
            timer_result.overflows[1]
        } else {
            timer_result.overflows[0]
        };
        let sound_b_overflow = if get_bit_u16(self.dma_sound_control, 14) {
            timer_result.overflows[1]
        } else {
            timer_result.overflows[0]
        };
        self.fifo_a.step(sound_a_overflow);
        self.fifo_b.step(sound_b_overflow);
    }

    pub fn write_fifo_a(&mut self, value: u32)
        requires
            old(self).wf(),
        ensures
            final(self).wf(),
            final(self).fifo_a.buffer@ == dma_fifo::written_samples(old(self).fifo_a.buffer@, value),
            final(self).fifo_a.wants_dma == old(self).fifo_a.wants_dma,
            *final(self) == (Apu { fifo_a: final(self).fifo_a, ..*old(self) }),
    {
        self.fifo_a.write_data(value);
    }

    pub fn write_fifo_b(&mut self, value: u32)
        requires
            old(self).wf(),
        ensures
            final(self).wf(),
            final(self).fifo_b.buffer@ == dma_fifo::written_samples(old(self).fifo_b.buffer@, value),
            final(self).fifo_b.wants_dma == old(self).fifo_b.wants_dma,
            *final(self) == (Apu { fifo_b: final(self).fifo_b, ..*old(self) }),
    {
        self.fifo_b.write_data(value);
    }

    pub fn poll_fifo_a_wants_dma(&mut self) -> (r: bool)
        ensures
            r == old(self).fifo_a.wants_dma,
            !final(self).fifo_a.wants_dma,
            final(self).fifo_a.buffer@ == old(self).fifo_a.buffer@,
            *final(self) == (Apu { fifo_a: final(self).fifo_a, ..*old(self) }),
    {
        self.fifo_a.poll_wants_dma()
    }

    pub fn poll_fifo_b_wants_dma(&mut self) -> (r: bool)
        ensures
            r == old(self).fifo_b.wants_dma,
            !final(self).fifo_b.wants_dma,
            final(self).fifo_b.buffer@ == old(self).fifo_b.buffer@,
            *final(self) == (Apu { fifo_b: final(self).fifo_b, ..*old(self) }),
    {
        self.fifo_b.poll_wants_dma()
    }

    pub fn read_ch1_sweep<T>(&self, index: u32) -> (r: T) where u16: DataAccess<T>
        requires
            index < <u16 as DataAccess<T>>::lanes(),
        ensures
            r == self.ch1_sweep.spec_get_data(index),
    {
        self.ch1_sweep.get_data(index)
    }

    pub fn write_ch1_sweep<T>(&mut self, value: T, index: u32) where u16: DataAccess<T>
        requires
            index < <u16 as DataAccess<T>>::lanes(),
        ensures
            *final(self) == (Apu { ch1_sweep: old(self).ch1_sweep.spec_set_data(value, index), ..*old(self) }),
    {
        self.ch1_sweep = self.ch1_sweep.set_data(value, index);
    }

    pub fn read_ch1_duty_length_envelope<T>(&self, index: u32) -> (r: T) where u16: DataAccess<T>
        requires
            index < <u16 as DataAccess<T>>::lanes(),
        ensures
            r == self.tone_and_sweep.duty_length_envelope.spec_get_data(index),
    {
        self.tone_and_sweep.read_duty_length_envelope(index)
    }

    pub fn write_ch1_duty_length_envelope<T>(&mut self, value: T, index: u32) where u16: DataAccess<T>
        requires
            old(self).wf(),
            index < <u16 as DataAccess<T>>::lanes(),
        ensures
            final(self).wf(),
            *final(self) == (Apu { tone_and_sweep: old(self).tone_and_sweep.duty_length_envelope_written(
                    old(self).tone_and_sweep.duty_length_envelope.spec_set_data(value, index),
                ), ..*old(self) }),
    {
        self.tone_and_sweep.write_duty_length_envelope(value, index)
    }

    pub fn read_ch1_frequency_control<T>(&self, index: u32) -> (r: T) where u16: DataAccess<T>
        requires
            index < <u16 as DataAccess<T>>::lanes(),
        ensures
            r == (self.tone_and_sweep.frequency_control & 0x4000u16).spec_get_data(index),
    {
        self.tone_and_sweep.read_frequency_control(index)
    }

    pub fn write_ch1_frequency_control<T>(&mut self, value: T, index: u32) where u16: DataAccess<T>
        requires
            old(self).wf(),
            index < <u16 as DataAccess<T>>::lanes(),
        ensures
            final(self).wf(),
            *final(self) == (Apu { tone_and_sweep: old(self).tone_and_sweep.frequency_control_written(
                    old(self).tone_and_sweep.frequency_control.spec_set_data(value, index),
                ), ..*old(self) }),
    {
        self.tone_and_sweep.write_frequency_control(value, index)
    }

    pub fn read_ch2_duty_length_envelope<T>(&self, index: u32) -> (r: T) where u16: DataAccess<T>
        requires
            index < <u16 as DataAccess<T>>::lanes(),
        ensures
            r == self.tone.duty_length_envelope.spec_get_data(index),
    {
        self.tone.read_duty_length_envelope(index)
    }

    pub fn write_ch2_duty_length_envelope<T>(&mut self, value: T, index: u32) where u16: DataAccess<T>
        requires
            old(self).wf(),
            index < <u16 as DataAccess<T>>::lanes(),
        ensures
            final(self).wf(),
            *final(self) == (Apu { tone: old(self).tone.duty_length_envelope_written(
                    old(self).tone.duty_length_envelope.spec_set_data(value, index),
                ), ..*old(self) }),
    {
        self.tone.write_duty_length_envelope(value, index)
    }

    pub fn read_ch2_frequency_control<T>(&self, index: u32) -> (r: T) where u16: DataAccess<T>
        requires
            index < <u16 as DataAccess<T>>::lanes(),
        ensures
            r == (self.tone.frequency_control & 0x4000u16).spec_get_data(index),
    {
        self.tone.read_frequency_control(index)
    }

    pub fn write_ch2_frequency_control<T>(&mut self, value: T, index: u32) where u16: DataAccess<T>
        requires
            old(self).wf(),
            index < <u16 as DataAccess<T>>::lanes(),
        ensures
            final(self).wf(),
            *final(self) == (Apu { tone: old(self).tone.frequency_control_written(
                    old(self).tone.frequency_control.spec_set_data(value, index),
                ), ..*old(self) }),
    {
        self.tone.write_frequency_control(value, index)
    }

    pub fn read_ch3_stop_wave_ram_select<T>(&self, index: u32) -> (r: T) where u16: DataAccess<T>
        requires
            index < <u16 as DataAccess<T>>::lanes(),
        ensures
            r == self.wave.stop_wave_ram_select.spec_get_data(index),
    {
        self.wave.read_stop_wave_ram_select(index)
    }

    pub fn write_ch3_stop_wave_ram_select<T>(&mut self, value: T, index: u32) where u16: DataAccess<T>
        requires
            old(self).wf(),
            index < <u16 as DataAccess<T>>::lanes(),
        ensures
            final(self).wf(),
            *final(self) == (Apu { wave: Wave {
                    stop_wave_ram_select: old(self).wave.stop_wave_ram_select.spec_set_data(value, index),
                    ..old(self).wave
                }, ..*old(self) }),
    {
        self.wave.write_stop_wave_ram_select(value, index);
    }

    pub fn read_ch3_length_volume<T>(&self, index: u32) -> (r: T) where u16: DataAccess<T>
        requires
            index < <u16 as DataAccess<T>>::lanes(),
        ensures
            r == self.wave.length_volume.spec_get_data(index),
    {
        self.wave.read_length_volume(index)
    }

    pub fn write_ch3_length_volume<T>(&mut self, value: T, index: u32) where u16: DataAccess<T>
        requires
            old(self).wf(),
            index < <u16 as DataAccess<T>>::lanes(),
        ensures
            final(self).wf(),
            *final(self) == (Apu { wave: Wave {
                    length_volume: old(self).wave.length_volume.spec_set_data(value, index),
                    ..old(self).wave
                }, ..*old(self) }),
    {
        self.wave.write_length_volume(value, index);
    }

    pub fn read_ch3_frequency_control<T>(&self, index: u32) -> (r: T) where u16: DataAccess<T>
        requires
            index < <u16 as DataAccess<T>>::lanes(),
        ensures
            r == self.wave.frequency_control.spec_get_data(index),
    {
        self.wave.read_frequency_control(index)
    }

    pub fn write_ch3_frequency_control<T>(&mut self, value: T, index: u32) where u16: DataAccess<T>
        requires
            old(self).wf(),
            index < <u16 as DataAccess<T>>::lanes(),
        ensures
            final(self).wf(),
            *final(self) == (Apu { wave: old(self).wave.frequency_control_written(
                    old(self).wave.frequency_control.spec_set_data(value, index),
                ), ..*old(self) }),
    {
        self.wave.write_frequency_control(value, index)
    }

    pub fn read_ch3_wave_ram_byte(&self, offset: u32) -> (r: u8)
        requires
            offset < 16,
        ensures
            r == (if self.wave.high_bank_selected() {
                self.wave.wave_ram_low[offset as int]
            } else {
                self.wave.wave_ram_high[offset as int]
            }),
    {
        self.wave.read_wave_ram_byte(offset)
    }

    pub fn write_ch3_wave_ram_byte(&mut self, value: u8, offset: u32)
        requires
            old(self).wf(),
            offset < 16,
        ensures
            final(self).wf(),
            old(self).wave.wave_ram_written(final(self).wave, value, offset),
            *final(self) == (Apu { wave: final(self).wave, ..*old(self) }),
    {
        self.wave.write_wave_ram_byte(value, offset)
    }

    pub fn read_ch4_length_envelope<T>(&self, index: u32) -> (r: T) where u16: DataAccess<T>
        requires
            index < <u16 as DataAccess<T>>::lanes(),
        ensures
            r == self.noise.length_envelope.spec_get_data(index),
    {
        self.noise.read_length_envelope(index)
    }

    pub fn write_ch4_length_envelope<T>(&mut self, value: T, index: u32) where u16: DataAccess<T>
        requires
            old(self).wf(),
            index < <u16 as DataAccess<T>>::lanes(),
        ensures
            final(self).wf(),
            *final(self) == (Apu { noise: old(self).noise.length_envelope_written(
                    old(self).noise.length_envelope.spec_set_data(value, index),
                ), ..*old(self) }),
    {
        self.noise.write_length_envelope(value, index)
    }

    pub fn read_ch4_frequency_control<T>(&self, index: u32) -> (r: T) where u16: DataAccess<T>
        requires
            index < <u16 as DataAccess<T>>::lanes(),
        ensures
            r == (self.noise.frequency_control & 0x4000u16).spec_get_data(index),
    {
        self.noise.read_frequency_control(index)
    }

    pub fn write_ch4_frequency_control<T>(&mut self, value: T, index: u32) where u16: DataAccess<T>
        requires
            old(self).wf(),
            index < <u16 as DataAccess<T>>::lanes(),
        ensures
            final(self).wf(),
            *final(self) == (Apu { noise: old(self).noise.frequency_control_written(
                    old(self).noise.frequency_control.spec_set_data(value, index),
                ), ..*old(self) }),
    {
        self.noise.write_frequency_control(value, index)
    }

    pub fn read_channel_lr_volume_enable<T>(&self, index: u32) -> (r: T) where u16: DataAccess<T>
        requires
            index < <u16 as DataAccess<T>>::lanes(),
        ensures
            r == self.channel_lr_volume_enable.spec_get_data(index),
    {
        self.channel_lr_volume_enable.get_data(index)
    }

    /// Only the bits of mask `0xFF77` are writable; the others are stored as 0.
    pub fn write_channel_lr_volume_enable<T>(&mut self, value: T, index: u32) where u16: DataAccess<T>
        requires
            index < <u16 as DataAccess<T>>::lanes(),
        ensures
            *final(self) == (Apu { channel_lr_volume_enable: old(self).channel_lr_volume_enable.spec_set_data(value, index) & 0xFF77u16, ..*old(self) }),
    {
        self.channel_lr_volume_enable = self.channel_lr_volume_enable.set_data(value, index) & 0xFF77;
    }

    pub fn read_dma_sound_control<T>(&self, index: u32) -> (r: T) where u16: DataAccess<T>
        requires
            index < <u16 as DataAccess<T>>::lanes(),
        ensures
            r == self.dma_sound_control.spec_get_data(index),
    {
        self.dma_sound_control.get_data(index)
    }

    /// Only the bits of mask `0x770F` are writable; the others are stored as 0.
    pub fn write_dma_sound_control<T>(&mut self, value: T, index: u32) where u16: DataAccess<T>
        requires
            index < <u16 as DataAccess<T>>::lanes(),
        ensures
            *final(self) == (Apu { dma_sound_control: old(self).dma_sound_control.spec_set_data(value, index) & 0x770Fu16, ..*old(self) }),
    {
        self.dma_sound_control = self.dma_sound_control.set_data(value, index) & 0x770F;
    }

    pub fn read_sound_on_off<T>(&self, index: u32) -> (r: T) where u32: DataAccess<T>
        requires
            index < <u32 as DataAccess<T>>::lanes(),
        ensures
            r == self.sound_on_off.spec_get_data(index),
    {
        self.sound_on_off.get_data(index)
    }

    /// Only the bits of mask `0x0000_0080` are writable; the others are stored as 0.
    pub fn write_sound_on_off<T>(&mut self, value: T, index: u32) where u32: DataAccess<T>
        requires
            index < <u32 as DataAccess<T>>::lanes(),
        ensures
            *final(self) == (Apu { sound_on_off: old(self).sound_on_off.spec_set_data(value, index) & 0x0000_0080u32, ..*old(self) }),
    {
        self.sound_on_off = self.sound_on_off.set_data(value, index) & 0x0000_0080;
    }

    pub fn read_sound_pwm_control<T>(&self, index: u32) -> (r: T) where u32: DataAccess<T>
        requires
            index < <u32 as DataAccess<T>>::lanes(),
        ensures
            r == self.sound_pwm_control.spec_get_data(index),
    {
        self.sound_pwm_control.get_data(index)
    }

    /// Only the bits of mask `0x0000_BFFE` are writable; the others are stored as 0.
    pub fn write_sound_pwm_control<T>(&mut self, value: T, index: u32) where u32: DataAccess<T>
        requires
            index < <u32 as DataAccess<T>>::lanes(),
        ensures
            *final(self) == (Apu { sound_pwm_control: old(self).sound_pwm_control.spec_set_data(value, index) & 0x0000_BFFEu32, ..*old(self) }),
    {
        self.sound_pwm_control = self.sound_pwm_control.set_data(value, index) & 0x0000_BFFE;
    }

    /// Which of the four programmable channels play on the left (bits 12-15).
    pub fn get_enable_flags_left(&self) -> (r: [bool; 4])
        ensures
            forall|i: int| 0 <= i < 4 ==> r[i] == bit_of_u16(self.channel_lr_volume_enable, (12 + i) as u16),
    {
        let v = self.channel_lr_volume_enable;
        let r = [get_bit_u16(v, 12), get_bit_u16(v, 13), get_bit_u16(v, 14), get_bit_u16(v, 15)];
        assert(forall|i: int| 0 <= i < 4 ==> r[i] == bit_of_u16(v, (12 + i) as u16)) by {
            assert(r[0] == bit_of_u16(v, 12));
            assert(r[1] == bit_of_u16(v, 13));
            assert(r[2] == bit_of_u16(v, 14));
            assert(r[3] == bit_of_u16(v, 15));
        }
        r
    }

    /// Which of the four programmable channels play on the right (bits 8-11).
    pub fn get_enable_flags_right(&self) -> (r: [bool; 4])
        ensures
            forall|i: int| 0 <= i < 4 ==> r[i] == bit_of_u16(self.channel_lr_volume_enable, (8 + i) as u16),
    {
        let v = self.channel_lr_volume_enable;
        let r = [get_bit_u16(v, 8), get_bit_u16(v, 9), get_bit_u16(v, 10), get_bit_u16(v, 11)];
        assert(forall|i: int| 0 <= i < 4 ==> r[i] == bit_of_u16(v, (8 + i) as u16)) by {
            assert(r[0] == bit_of_u16(v, 8));
            assert(r[1] == bit_of_u16(v, 9));
            assert(r[2] == bit_of_u16(v, 10));
            assert(r[3] == bit_of_u16(v, 11));
        }
        r
    }

    /// Whether FIFO A plays on the left (bit 9) and on the right (bit 8).
    pub fn get_dma_sound_a_enable(&self) -> (r: (bool, bool))
        ensures
            r == (bit_of_u16(self.dma_sound_control, 9), bit_of_u16(self.dma_sound_control, 8)),
    {
        (get_bit_u16(self.dma_sound_control, 9), get_bit_u16(self.dma_sound_control, 8))
    }

    /// Whether FIFO B plays on the left (bit 13) and on the right (bit 12).
    pub fn get_dma_sound_b_enable(&self) -> (r: (bool, bool))
        ensures
            r == (bit_of_u16(self.dma_sound_control, 13), bit_of_u16(self.dma_sound_control, 12)),
    {
        (get_bit_u16(self.dma_sound_control, 13), get_bit_u16(self.dma_sound_control, 12))
    }
}

} // verus!

verus! {

impl Default for Apu {
    fn default() -> (r: Self)
        ensures
            r.wf(),
            r.is_initial(),
    {
        Apu::new()
    }
}

} // verus!

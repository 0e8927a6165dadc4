use vstd::prelude::*;

use crate::bits::{bit_of_u16, get_bit_u16};
use crate::data_access::DataAccess;

verus! {

/// How many system cycles pass between two counter increments.
#[derive(Clone, Copy, Debug, PartialEq, Eq, Structural)]
pub enum PrescalerInterval {
    Div1,
    Div64,
    Div256,
    Div1024,
}

/// Which of the four timers overflowed during one system cycle.
#[derive(Clone, Copy, Debug)]
pub struct TimerStepResult {
    pub overflows: [bool; 4],
}

/// One of the four hardware timers.
#[derive(Clone, Copy, Debug)]
pub struct Timer {
    pub tick: u64,
    pub counter: u16,
    pub reload: u16,
    pub control: u16,
    pub startup_delay: bool,
}

/// The tick count after one more cycle (wrapping at 2^64).
pub open spec fn next_tick(tick: u64) -> u64 {
    if tick == u64::MAX {
        0
    } else {
        (tick + 1) as u64
    }
}

/// The tick mask after which a prescaled timer increments.
pub open spec fn prescaler_mask(control: u16) -> u64 {
    let sel = control & 3u16;
    if sel == 0 {
        0x0u64
    } else if sel == 1 {
        0x3Fu64
    } else if sel == 2 {
        0xFFu64
    } else {
        0x3FFu64
    }
}

impl Timer {
    pub open spec fn started(self) -> bool {
        bit_of_u16(self.control, 7)
    }

    pub open spec fn counts_up(self) -> bool {
        bit_of_u16(self.control, 2)
    }

    pub open spec fn irq_enabled(self) -> bool {
        bit_of_u16(self.control, 6)
    }

    /// Whether a step with the given cascade input increments the counter.
    pub open spec fn increments(self, previous_overflow: bool) -> bool {
        if self.counts_up() {
            previous_overflow
        } else {
            (self.tick & prescaler_mask(self.control)) == prescaler_mask(self.control)
        }
    }

    /// The timer after one system cycle, and whether it overflowed.
    pub open spec fn step_spec(self, previous_overflow: bool) -> (Timer, bool) {
        if !self.started() {
            (self, false)
        } else if self.startup_delay {
            (Timer { startup_delay: false, ..self }, false)
        } else {
            let ticked = Timer { tick: next_tick(self.tick), ..self };
            if self.increments(previous_overflow) {
                if self.counter == 0xFFFFu16 {
                    (Timer { counter: self.reload, ..ticked }, true)
                } else {
                    (Timer { counter: (self.counter + 1) as u16, ..ticked }, false)
                }
            } else {
                (ticked, false)
            }
        }
    }

    pub fn new() -> (r: Self)
        ensures
            r.tick == 0,
            r.counter == 0,
            r.reload == 0,
            r.control == 0,
            !r.startup_delay,
    {
        Timer { tick: 0, counter: 0, reload: 0, control: 0, startup_delay: false }
    }

    /// Advances the timer by one system cycle; `previous_overflow` is the
    /// overflow of the preceding timer (for cascaded counting). Returns
    /// whether this timer overflowed.
    pub fn step(&mut self, previous_overflow: bool) -> (overflow: bool)
        ensures
            (*final(self), overflow) == old(self).step_spec(previous_overflow),
    {
        if !self.get_timer_start_stop() {
            return false;
        }
        if self.startup_delay {
            self.startup_delay = false;
            return false;
        }
        let increment = if self.get_count_up_timing() {
            previous_overflow
        } else {
            let increment_mask: u64 = match self.get_prescaler_interval() {
                PrescalerInterval::Div1 => 0x0,
                PrescalerInterval::Div64 => 0x3F,
                PrescalerInterval::Div256 => 0xFF,
                PrescalerInterval::Div1024 => 0x3FF,
            };
            (self.tick & increment_mask) == increment_mask
        };
        self.tick = if self.tick == u64::MAX {
            0
        } else {
            self.tick + 1
        };
        if increment {
            if self.counter == 0xFFFF {
                self.counter = self.reload;
                true
            } else {
                self.counter = self.counter + 1;
                false
            }
        } else {
            false
        }
    }

    pub fn read_timer_counter_reload<T>(&self, index: u32) -> (r: T) where
        u16: DataAccess<T>,

        requires
            index < <u16 as DataAccess<T>>::lanes(),
        ensures
            r == self.counter.spec_get_data(index),
    {
        self.counter.get_data(index)
    }

    pub fn write_timer_counter_reload<T>(&mut self, value: T, index: u32) where
        u16: DataAccess<T>,

        requires
            index < <u16 as DataAccess<T>>::lanes(),
        ensures
            *final(self) == (Timer { reload: old(self).reload.spec_set_data(value, index), ..*old(self) }),
    {
        self.reload = self.reload.set_data(value, index);
    }

    /// A 32-bit write covering both the reload value (low half) and the
    /// control register (high half). The reload value is written first, so a
    /// write that starts the timer loads the new reload value into the counter.
    pub fn write_timer_counter_reload_word(&mut self, value: u32)
        ensures
            ({
                let with_reload = Timer { reload: value as u16, ..*old(self) };
                *final(self) == with_reload.control_written((value >> 16u32) as u16)
            }),
    {
        let new_counter_reload = value as u16;
        let new_timer_control = (value >> 16u32) as u16;
        self.write_timer_counter_reload(new_counter_reload, 0);
        self.write_timer_control(new_timer_control, 0);
    }

    pub fn read_timer_control<T>(&self, index: u32) -> (r: T) where
        u16: DataAccess<T>,

        requires
            index < <u16 as DataAccess<T>>::lanes(),
        ensures
            r == self.control.spec_get_data(index),
    {
        self.control.get_data(index)
    }

    /// The timer after its control register takes the value `control`: a
    /// rising edge of the start bit loads the reload value into the counter
    /// and delays counting by one cycle.
    pub open spec fn control_written(self, control: u16) -> Timer {
        let written = Timer { control, ..self };
        if !self.started() && written.started() {
            Timer { counter: self.reload, startup_delay: true, ..written }
        } else {
            written
        }
    }

    pub fn write_timer_control<T>(&mut self, value: T, index: u32) where
        u16: DataAccess<T>,

        requires
            index < <u16 as DataAccess<T>>::lanes(),
        ensures
            *final(self) == old(self).control_written(old(self).control.spec_set_data(value, index)),
    {
        let old_start_bit = self.get_timer_start_stop();
        self.control = self.control.set_data(value, index);
        let new_start_bit = self.get_timer_start_stop();
        if !old_start_bit && new_start_bit {
            self.counter = self.reload;
            self.startup_delay = true;
        }
    }

    fn get_prescaler_interval(&self) -> (r: PrescalerInterval)
        ensures
            (r == PrescalerInterval::Div1) == (self.control & 3u16 == 0),
            (r == PrescalerInterval::Div64) == (self.control & 3u16 == 1),
            (r == PrescalerInterval::Div256) == (self.control & 3u16 == 2),
            (r == PrescalerInterval::Div1024) == (self.control & 3u16 == 3),
    {
        let c = self.control;
        assert(c & 3u16 <= 3) by {
            crate::bits::lemma_u16_fields(c);
        }
        match self.control & 3 {
            0 => PrescalerInterval::Div1,
            1 => PrescalerInterval::Div64,
            2 => PrescalerInterval::Div256,
            _ => PrescalerInterval::Div1024,
        }
    }

    fn get_count_up_timing(&self) -> (r: bool)
        ensures
            r == self.counts_up(),
    {
        get_bit_u16(self.control, 2)
    }

    pub fn get_timer_irq_enable(&self) -> (r: bool)
        ensures
            r == self.irq_enabled(),
    {
        get_bit_u16(self.control, 6)
    }

    fn get_timer_start_stop(&self) -> (r: bool)
        ensures
            r == self.started(),
    {
        get_bit_u16(self.control, 7)
    }

    pub fn get_current_counter(&self) -> (r: u16)
        ensures
            r == self.counter,
    {
        self.counter
    }

    pub fn get_current_reload(&self) -> (r: u16)
        ensures
            r == self.reload,
    {
        self.reload
    }
}

impl Default for Timer {
    fn default() -> (r: Self)
        ensures
            r.tick == 0,
            r.counter == 0,
            r.reload == 0,
            r.control == 0,
            !r.startup_delay,
    {
        Timer::new()
    }
}

/// A stopped timer does not change and never overflows.
pub proof fn lemma_stopped_timer_is_inert(t: Timer, previous_overflow: bool)
    requires
        !t.started(),
    ensures
        t.step_spec(previous_overflow) == (t, false),
{
}

/// A started, counting timer overflows exactly when its counter is at 0xFFFF,
/// and then restarts from the reload value.
pub proof fn lemma_overflow_reloads(t: Timer, previous_overflow: bool)
    requires
        t.started(),
        !t.startup_delay,
        t.increments(previous_overflow),
    ensures
        t.step_spec(previous_overflow).1 == (t.counter == 0xFFFFu16),
        t.step_spec(previous_overflow).1 ==> t.step_spec(previous_overflow).0.counter == t.reload,
        !t.step_spec(previous_overflow).1 ==> t.step_spec(previous_overflow).0.counter == t.counter
            + 1,
{
}

/// Starting a timer loads its counter with the reload value.
pub proof fn lemma_start_loads_reload(t: Timer, control: u16)
    requires
        !t.started(),
        bit_of_u16(control, 7),
    ensures
        t.control_written(control).counter == t.reload,
        t.control_written(control).startup_delay,
        t.control_written(control).control == control,
{
}

/// A started timer in count-up (cascade) mode, past its start-up delay,
/// counts exactly when the preceding timer overflowed: then its counter
/// moves on by one (or reloads from 0xFFFF, overflowing); otherwise the
/// counter stays and nothing overflows.
pub proof fn lemma_cascade_counts_previous_overflows(t: Timer, previous_overflow: bool)
    requires
        t.started(),
        !t.startup_delay,
        bit_of_u16(t.control, 2),
    ensures
        ({
            let (next, overflow) = t.step_spec(previous_overflow);
            &&& previous_overflow ==> next.counter == (if t.counter == 0xFFFFu16 {
                t.reload
            } else {
                (t.counter + 1) as u16
            }) && overflow == (t.counter == 0xFFFFu16)
            &&& !previous_overflow ==> next.counter == t.counter && !overflow
        }),
{
}

/// A started timer that does not count up, past its start-up delay, counts
/// on the cycles whose tick number is one short of a multiple of its
/// prescaler interval (every cycle, or every 64th, 256th or 1024th),
/// whatever the preceding timer did.
pub proof fn lemma_prescaled_counts_on_interval(t: Timer, previous_overflow: bool)
    requires
        t.started(),
        !t.startup_delay,
        !bit_of_u16(t.control, 2),
    ensures
        ({
            let interval: int = if t.control & 3u16 == 0 {
                1
            } else if t.control & 3u16 == 1 {
                64
            } else if t.control & 3u16 == 2 {
                256
            } else {
                1024
            };
            let counts = (t.tick as int) % interval == interval - 1;
            let (next, overflow) = t.step_spec(previous_overflow);
            &&& counts ==> next.counter == (if t.counter == 0xFFFFu16 {
                t.reload
            } else {
                (t.counter + 1) as u16
            }) && overflow == (t.counter == 0xFFFFu16)
            &&& !counts ==> next.counter == t.counter && !overflow
        }),
{
    let x = t.tick;
    assert(((x & 0x3Fu64) == 0x3Fu64 <==> x % 64 == 63) && ((x & 0xFFu64) == 0xFFu64 <==> x % 256 == 255) && ((x
        & 0x3FFu64) == 0x3FFu64 <==> x % 1024 == 1023) && (x & 0u64) == 0u64) by (bit_vector);
}

/// A stopped timer stands still, and the first cycle after a start only
/// ends the start-up delay.
pub proof fn lemma_stopped_and_delayed_timers_hold(t: Timer, previous_overflow: bool)
    ensures
        !t.started() ==> t.step_spec(previous_overflow) == (t, false),
        t.started() && t.startup_delay ==> t.step_spec(previous_overflow) == ((Timer { startup_delay: false, ..t }), false),
{
}

} // verus!

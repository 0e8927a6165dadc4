use vstd::prelude::*;

use crate::bits::{bit_of_u16, get_bit_u16, set_bit_u16, with_bit_u16};
use crate::data_access::DataAccess;

verus! {

#[derive(Clone, Copy, Debug, PartialEq, Eq, Structural)]
pub enum Key {
    A,
    B,
    Select,
    Start,
    Right,
    Left,
    Up,
    Down,
    R,
    L,
}

/// The bit of the key status register that reports `key`.
pub open spec fn key_bit(key: Key) -> u16 {
    match key {
        Key::A => 0,
        Key::B => 1,
        Key::Select => 2,
        Key::Start => 3,
        Key::Right => 4,
        Key::Left => 5,
        Key::Up => 6,
        Key::Down => 7,
        Key::R => 8,
        Key::L => 9,
    }
}

/// The keypad: which keys are held (a cleared status bit means pressed) and
/// the keypad interrupt control register.
#[derive(Clone, Copy, Debug)]
pub struct Keypad {
    pub key_status: u16,
    pub interrupt_control: u16,
}

#[derive(Clone, Copy, Debug, PartialEq, Eq, Structural)]
pub enum IrqCondition {
    LogicalOr,
    LogicalAnd,
}

impl Keypad {
    pub open spec fn is_pressed(self, key: Key) -> bool {
        !bit_of_u16(self.key_status, key_bit(key))
    }

    pub open spec fn irq_enabled(self) -> bool {
        bit_of_u16(self.interrupt_control, 14)
    }

    pub open spec fn irq_and_mode(self) -> bool {
        bit_of_u16(self.interrupt_control, 15)
    }

    /// The keys that are pressed (bits 0-9 set for pressed keys; bits 10-15
    /// are set too, as the complement of the 10-bit status field).
    pub open spec fn pressed_bits(self) -> u16 {
        !(self.key_status & 0x3FFu16)
    }

    /// The keys selected for the keypad interrupt.
    pub open spec fn selected_bits(self) -> u16 {
        self.interrupt_control & 0x3FFu16
    }

    /// Whether the keypad requests an interrupt.
    pub open spec fn irq_pending(self) -> bool {
        if !self.irq_enabled() {
            false
        } else if self.irq_and_mode() {
            self.pressed_bits() & self.selected_bits() == self.selected_bits()
        } else {
            self.pressed_bits() & self.selected_bits() != 0
        }
    }

    pub fn new() -> (r: Self)
        ensures
            r.key_status == 0xFFFF,
            r.interrupt_control == 0,
    {
        Keypad { key_status: 0xFFFF, interrupt_control: 0 }
    }

    /// Records whether `key` is held down.
    pub fn set_pressed(&mut self, key: Key, pressed: bool)
        ensures
            final(self).interrupt_control == old(self).interrupt_control,
            final(self).key_status == with_bit_u16(old(self).key_status, key_bit(key), !pressed),
            final(self).is_pressed(key) == pressed,
            forall|other: Key| other != key ==> final(self).is_pressed(other) == old(self).is_pressed(other),
    {
        let bit_index: u16 = match key {
            Key::A => 0,
            Key::B => 1,
            Key::Select => 2,
            Key::Start => 3,
            Key::Right => 4,
            Key::Left => 5,
            Key::Up => 6,
            Key::Down => 7,
            Key::R => 8,
            Key::L => 9,
        };
        self.key_status = set_bit_u16(self.key_status, bit_index, !pressed);
        proof {
            assert forall|other: Key| other != key implies key_bit(other) != key_bit(key) && key_bit(other) < 16 by {
            }
        }
    }

    pub fn read_key_status<T>(&self, index: u32) -> (r: T) where
        u16: DataAccess<T>,

        requires
            index < <u16 as DataAccess<T>>::lanes(),
        ensures
            r == self.key_status.spec_get_data(index),
    {
        self.key_status.get_data(index)
    }

    pub fn read_key_interrupt_control<T>(&self, index: u32) -> (r: T) where
        u16: DataAccess<T>,

        requires
            index < <u16 as DataAccess<T>>::lanes(),
        ensures
            r == self.interrupt_control.spec_get_data(index),
    {
        self.interrupt_control.get_data(index)
    }

    pub fn write_key_interrupt_control<T>(&mut self, value: T, index: u32) where
        u16: DataAccess<T>,

        requires
            index < <u16 as DataAccess<T>>::lanes(),
        ensures
            final(self).interrupt_control == old(self).interrupt_control.spec_set_data(value, index),
            final(self).key_status == old(self).key_status,
    {
        self.interrupt_control = self.interrupt_control.set_data(value, index);
    }

    /// Whether the current key state requests a keypad interrupt.
    pub fn poll_pending_interrupts(&mut self) -> (r: bool)
        ensures
            *final(self) == *old(self),
            r == old(self).irq_pending(),
    {
        if !self.get_irq_enabled() {
            return false;
        }
        let pressed_bits: u16 = !(self.key_status & 0x3FF);
        let irq_bits: u16 = self.interrupt_control & 0x3FF;
        match self.get_irq_condition() {
            IrqCondition::LogicalOr => (pressed_bits & irq_bits) != 0,
            IrqCondition::LogicalAnd => (pressed_bits & irq_bits) == irq_bits,
        }
    }

    fn get_irq_enabled(&self) -> (r: bool)
        ensures
            r == self.irq_enabled(),
    {
        get_bit_u16(self.interrupt_control, 14)
    }

    fn get_irq_condition(&self) -> (r: IrqCondition)
        ensures
            (r == IrqCondition::LogicalAnd) == self.irq_and_mode(),
    {
        if get_bit_u16(self.interrupt_control, 15) {
            IrqCondition::LogicalAnd
        } else {
            IrqCondition::LogicalOr
        }
    }
}

impl Default for Keypad {
    fn default() -> (r: Self)
        ensures
            r.key_status == 0xFFFF,
            r.interrupt_control == 0,
    {
        Keypad::new()
    }
}

/// With the keypad interrupt enabled in "any key" mode, holding a selected key
/// requests the interrupt.
pub proof fn lemma_selected_press_requests_irq(k: Keypad, key: Key)
    requires
        k.irq_enabled(),
        !k.irq_and_mode(),
        k.is_pressed(key),
        bit_of_u16(k.interrupt_control, key_bit(key)),
    ensures
        k.irq_pending(),
{
    let s = k.key_status;
    let c = k.interrupt_control;
    let b = key_bit(key);
    assert(b < 10);
    assert((!(s & 0x3FFu16)) & (c & 0x3FFu16) != 0) by (bit_vector)
        requires
            b < 10,
            (s >> b) & 1u16 != 1u16,
            (c >> b) & 1u16 == 1u16,
    ;
}

/// With no key held, the keypad never requests an interrupt in "any key" mode.
pub proof fn lemma_no_press_no_irq(k: Keypad)
    requires
        k.key_status & 0x3FFu16 == 0x3FFu16,
        !k.irq_and_mode(),
    ensures
        !k.irq_pending(),
{
    let s = k.key_status;
    let c = k.interrupt_control;
    assert((!(s & 0x3FFu16)) & (c & 0x3FFu16) == 0) by (bit_vector)
        requires
            s & 0x3FFu16 == 0x3FFu16,
    ;
}

} // verus!

//! The controller port: an eight-button latch read out one bit at a time.

use vstd::prelude::*;

verus! {

/// Bit of the "right" button in the button byte.
pub const RIGHT: u8 = 0b1000_0000;
/// Bit of the "left" button.
pub const LEFT: u8 = 0b0100_0000;
/// Bit of the "down" button.
pub const DOWN: u8 = 0b0010_0000;
/// Bit of the "up" button.
pub const UP: u8 = 0b0001_0000;
/// Bit of the "start" button.
pub const START: u8 = 0b0000_1000;
/// Bit of the "select" button.
pub const SELECT: u8 = 0b0000_0100;
/// Bit of the "B" button.
pub const BUTTON_B: u8 = 0b0000_0010;
/// Bit of the "A" button.
pub const BUTTON_A: u8 = 0b0000_0001;

/// A set of buttons, one bit each.
#[derive(Clone, Copy, Debug)]
pub struct JoypadButtons {
    pub bits: u8,
}

impl JoypadButtons {
    /// The set whose members are the bits of `bits`; every bit names a button,
    /// so nothing is cut off.
    pub fn from_bits_truncate(bits: u8) -> (r: Self)
        ensures
            r == (JoypadButtons { bits }),
    {
        JoypadButtons { bits }
    }

    /// The set with `other` added when `value` holds, removed when it does not.
    pub open spec fn with(self, other: JoypadButtons, value: bool) -> JoypadButtons {
        if value {
            JoypadButtons { bits: self.bits | other.bits }
        } else {
            JoypadButtons { bits: self.bits & !other.bits }
        }
    }

    /// Adds or removes the buttons of `other`.
    pub fn set(&mut self, other: JoypadButtons, value: bool)
        ensures
            *final(self) == old(self).with(other, value),
    {
        if value {
            self.bits = self.bits | other.bits;
        } else {
            self.bits = self.bits & !other.bits;
        }
    }
}

/// The shift register behind the controller port.
#[derive(Clone, Copy, Debug)]
pub struct Joypad {
    pub strobe: bool,
    pub button_index: u8,
    pub button_status: JoypadButtons,
}

impl Joypad {
    /// The state after a write of `data` to the port.
    pub open spec fn after_write(self, data: u8) -> Joypad {
        let strobe = data & 1 == 1;
        Joypad {
            strobe,
            button_index: if strobe { 0 } else { self.button_index },
            button_status: self.button_status,
        }
    }

    /// The bit that a read of the port returns.
    pub open spec fn read_value(self) -> u8 {
        if self.button_index > 7 {
            1
        } else {
            (self.button_status.bits & (1u8 << self.button_index)) >> self.button_index
        }
    }

    /// The state after a read of the port.
    pub open spec fn after_read(self) -> Joypad {
        if !self.strobe && self.button_index <= 7 {
            Joypad { button_index: (self.button_index + 1) as u8, ..self }
        } else {
            self
        }
    }

    /// A controller with no button pressed, strobe off, cursor on the first button.
    pub fn new() -> (r: Self)
        ensures
            r == (Joypad {
                strobe: false,
                button_index: 0,
                button_status: JoypadButtons { bits: 0 },
            }),
    {
        Joypad { strobe: false, button_index: 0, button_status: JoypadButtons::from_bits_truncate(0) }
    }

    /// A write to the port: bit 0 sets the strobe, and a set strobe puts the
    /// cursor back on the first button.
    pub fn write_joypad(&mut self, data: u8)
        ensures
            *final(self) == old(self).after_write(data),
    {
        self.strobe = data & 1 == 1;
        if self.strobe {
            self.button_index = 0
        }
    }

    /// A read of the port: the button under the cursor, 1 once all eight have
    /// been read; the cursor moves on unless the strobe holds it.
    pub fn read_joypad(&mut self) -> (r: u8)
        ensures
            r == old(self).read_value(),
            *final(self) == old(self).after_read(),
    {
        if self.button_index > 7 {
            return 1;
        }
        let response: u8 = (self.button_status.bits & (1u8 << self.button_index))
            >> self.button_index;
        if !self.strobe && self.button_index <= 7 {
            self.button_index += 1;
        }
        response
    }

    /// The read value without the side effect on the cursor.
    pub fn peek_joypad(&self) -> (r: u8)
        ensures
            r == self.read_value(),
    {
        if self.button_index > 7 {
            return 1;
        }
        (self.button_status.bits & (1u8 << self.button_index)) >> self.button_index
    }

    /// Records that the buttons of `button` are pressed or released.
    pub fn set_button_pressed_status(&mut self, button: JoypadButtons, pressed: bool)
        ensures
            final(self).strobe == old(self).strobe,
            final(self).button_index == old(self).button_index,
            final(self).button_status == old(self).button_status.with(button, pressed),
    {
        self.button_status.set(button, pressed);
    }

    /// What a read returns is the pressed state of the button under the cursor:
    /// 1 if its bit is set, 0 if not.
    pub proof fn read_value_is_bit(self)
        requires
            self.button_index <= 7,
        ensures
            self.read_value() == 0 || self.read_value() == 1,
            self.read_value() == 1 <==> self.button_status.bits & (1u8 << self.button_index) != 0,
    {
        let b: u8 = self.button_status.bits;
        let i: u8 = self.button_index;
        assert(i <= 7 ==> (((b & (1u8 << i)) >> i) == 0 || ((b & (1u8 << i)) >> i) == 1))
            by (bit_vector);
        assert(i <= 7 ==> ((((b & (1u8 << i)) >> i) == 1) <==> (b & (1u8 << i) != 0)))
            by (bit_vector);
    }
}

} // verus!

//! The controllers: an eight-bit shift register behind a strobe.

use vstd::prelude::*;

verus! {

/// The buttons of a controller, one bit each, in the order in which the
/// register shifts them out.
#[derive(Clone, Copy, Debug, PartialEq, Eq, Structural)]
pub struct JoypadButton {
    pub bits: u8,
}

impl JoypadButton {
    pub const BUTTON_A: u8 = 0b0000_0001;

    pub const BUTTON_B: u8 = 0b0000_0010;

    pub const SELECT: u8 = 0b0000_0100;

    pub const START: u8 = 0b0000_1000;

    pub const UP: u8 = 0b0001_0000;

    pub const DOWN: u8 = 0b0010_0000;

    pub const LEFT: u8 = 0b0100_0000;

    pub const RIGHT: u8 = 0b1000_0000;

    /// The buttons with those of `mask` pressed or released.
    pub open spec fn with(self, mask: u8, pressed: bool) -> Self {
        if pressed {
            JoypadButton { bits: self.bits | mask }
        } else {
            JoypadButton { bits: self.bits & !mask }
        }
    }
}

#[derive(Clone, Copy, Debug, PartialEq, Eq, Structural)]
pub struct Joypad {
    /// While the strobe is high the register stays on the first button.
    pub strobe: bool,
    /// The button that the next read reports; 8 when all were read.
    pub button_index: u8,
    pub button_status: JoypadButton,
}

impl Joypad {
    /// Bit 0 of `data` is the strobe; a high strobe rewinds the register.
    pub open spec fn write_spec(self, data: u8) -> Self {
        let strobe = data % 2 == 1;
        Joypad {
            strobe,
            button_index: if strobe {
                0
            } else {
                self.button_index
            },
            ..self
        }
    }

    /// A read reports the button under the index, pressed as 1, and moves on
    /// unless the strobe is high. Behind the eighth button every read is 1.
    pub open spec fn read_spec(self) -> (Self, u8) {
        if self.button_index > 7 {
            (self, 1)
        } else {
            (
                Joypad {
                    button_index: if self.strobe {
                        self.button_index
                    } else {
                        (self.button_index + 1) as u8
                    },
                    ..self
                },
                (self.button_status.bits >> self.button_index) & 1,
            )
        }
    }

    /// A controller with no button pressed.
    pub open spec fn new_spec() -> Self {
        Joypad { strobe: false, button_index: 0, button_status: JoypadButton { bits: 0 } }
    }

    pub fn new() -> (joypad: Self)
        ensures
            joypad == Self::new_spec(),
    {
        Joypad { strobe: false, button_index: 0, button_status: JoypadButton { bits: 0 } }
    }

    pub fn write(&mut self, data: u8)
        ensures
            *final(self) == old(self).write_spec(data),
    {
        self.strobe = data % 2 == 1;
        if self.strobe {
            self.button_index = 0
        }
    }

    pub fn read(&mut self) -> (response: u8)
        ensures
            (*final(self), response) == old(self).read_spec(),
    {
        if self.button_index > 7 {
            return 1;
        }
        let response = (self.button_status.bits >> self.button_index) & 1;
        if !self.strobe {
            self.button_index = self.button_index + 1;
        }
        response
    }

    /// Presses or releases the buttons of `button`, a mask of
    /// [`JoypadButton`].
    pub fn set_button_pressed_status(&mut self, button: u8, pressed: bool)
        ensures
            *final(self) == (Joypad {
                button_status: old(self).button_status.with(button, pressed),
                ..*old(self)
            }),
    {
        if pressed {
            self.button_status.bits = self.button_status.bits | button;
        } else {
            self.button_status.bits = self.button_status.bits & !button;
        }
    }
}

impl Joypad {
    /// The controller after `count` reads.
    pub open spec fn read_times(self, count: nat) -> Self
        decreases count,
    {
        if count == 0 {
            self
        } else {
            self.read_times((count - 1) as nat).read_spec().0
        }
    }
}

/// After the strobe went high and low again, the reads report the buttons
/// in their order, A first: read number `k`, counted from 0, reports bit
/// `k` of the buttons, and every read behind the eighth reports 1.
pub proof fn reads_report_buttons_in_order(joypad: Joypad, k: nat)
    ensures
        ({
            let armed = joypad.write_spec(1).write_spec(0);
            let read = armed.read_times(k).read_spec();
            &&& !armed.read_times(k).strobe
            &&& armed.read_times(k).button_status == joypad.button_status
            &&& armed.read_times(k).button_index == if k < 8 {
                k
            } else {
                8
            }
            &&& read.1 == if k < 8 {
                (joypad.button_status.bits >> (k as u8)) & 1
            } else {
                1
            }
        }),
    decreases k,
{
    if k > 0 {
        reads_report_buttons_in_order(joypad, (k - 1) as nat);
    }
}

} // verus!

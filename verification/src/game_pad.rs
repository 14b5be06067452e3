//! The game pad: fourteen buttons behind two data registers and a control
//! register.

use vstd::prelude::*;

verus! {

#[derive(Clone, Copy, Debug, PartialEq, Eq, Structural)]
pub enum Button {
    A,
    B,
    Start,
    Select,
    L,
    R,
    LeftDPadUp,
    LeftDPadDown,
    LeftDPadLeft,
    LeftDPadRight,
    RightDPadUp,
    RightDPadDown,
    RightDPadLeft,
    RightDPadRight,
}

/// The bits of the button mask; bits 0 and 1 belong to no button.
pub const BUTTON_BITS: u16 = 0xfffc;

/// The bit of the input-control register that starts a hardware read.
pub const CONTROL_READ_START_BIT: u8 = 0x04;

/// The bits of the input-control register that are kept and read back.
pub const CONTROL_STORED_BITS: u8 = 0x81;

impl Button {
    /// The button's bit in the button mask: the low data register holds bits
    /// 2 to 7, the high one bits 8 to 15.
    pub open spec fn mask(self) -> u16 {
        match self {
            Button::A => 0x0004,
            Button::B => 0x0008,
            Button::R => 0x0010,
            Button::L => 0x0020,
            Button::RightDPadUp => 0x0040,
            Button::RightDPadRight => 0x0080,
            Button::LeftDPadRight => 0x0100,
            Button::LeftDPadLeft => 0x0200,
            Button::LeftDPadDown => 0x0400,
            Button::LeftDPadUp => 0x0800,
            Button::Start => 0x1000,
            Button::Select => 0x2000,
            Button::RightDPadLeft => 0x4000,
            Button::RightDPadDown => 0x8000,
        }
    }

    pub fn bit(&self) -> (r: u16)
        ensures
            r == self.mask(),
    {
        match self {
            Button::A => 0x0004,
            Button::B => 0x0008,
            Button::R => 0x0010,
            Button::L => 0x0020,
            Button::RightDPadUp => 0x0040,
            Button::RightDPadRight => 0x0080,
            Button::LeftDPadRight => 0x0100,
            Button::LeftDPadLeft => 0x0200,
            Button::LeftDPadDown => 0x0400,
            Button::LeftDPadUp => 0x0800,
            Button::Start => 0x1000,
            Button::Select => 0x2000,
            Button::RightDPadLeft => 0x4000,
            Button::RightDPadDown => 0x8000,
        }
    }
}

/// The game pad's state.
#[derive(Clone, Copy, Debug, PartialEq, Eq, Structural)]
pub struct GamePadState {
    /// The buttons that the host holds down, as a mask.
    pub pressed: u16,
    /// The mask that the data registers show: the buttons as they were at
    /// the last hardware read.
    pub latched: u16,
    /// The bits of the input-control register that are kept.
    pub control: u8,
}

impl GamePadState {
    pub open spec fn initial() -> GamePadState {
        GamePadState { pressed: 0, latched: 0, control: 0 }
    }

    /// The state after the host pressed or released a button.
    pub open spec fn with_button(self, button: Button, pressed: bool) -> GamePadState {
        GamePadState {
            pressed: if pressed {
                self.pressed | button.mask()
            } else {
                self.pressed & !button.mask()
            },
            ..self
        }
    }

    /// The state after a write to the input-control register: the read-start
    /// bit latches the buttons at once.
    pub open spec fn with_control(self, value: u8) -> GamePadState {
        GamePadState {
            latched: if value & CONTROL_READ_START_BIT != 0 {
                self.pressed
            } else {
                self.latched
            },
            control: value & CONTROL_STORED_BITS,
            ..self
        }
    }
}

pub struct GamePad {
    pressed: u16,
    latched: u16,
    control: u8,
}

impl View for GamePad {
    type V = GamePadState;

    closed spec fn view(&self) -> GamePadState {
        GamePadState { pressed: self.pressed, latched: self.latched, control: self.control }
    }
}

impl GamePad {
    pub fn new() -> (pad: GamePad)
        ensures
            pad@ == GamePadState::initial(),
    {
        GamePad { pressed: 0, latched: 0, control: 0 }
    }

    pub fn set_button_pressed(&mut self, button: Button, pressed: bool)
        ensures
            final(self)@ == old(self)@.with_button(button, pressed),
    {
        if pressed {
            self.pressed = self.pressed | button.bit();
        } else {
            self.pressed = self.pressed & !button.bit();
        }
    }

    /// The low half of the latched button mask.
    pub fn read_input_low_reg(&self) -> (r: u8)
        ensures
            r == self@.latched as u8,
    {
        self.latched as u8
    }

    /// The high half of the latched button mask.
    pub fn read_input_high_reg(&self) -> (r: u8)
        ensures
            r == (self@.latched >> 8) as u8,
    {
        (self.latched >> 8) as u8
    }

    pub fn read_input_control_reg(&self) -> (r: u8)
        ensures
            r == self@.control,
    {
        self.control
    }

    pub fn write_input_control_reg(&mut self, value: u8)
        ensures
            final(self)@ == old(self)@.with_control(value),
    {
        if (value & CONTROL_READ_START_BIT) != 0 {
            self.latched = self.pressed;
        }
        self.control = value & CONTROL_STORED_BITS;
    }
}

} // verus!

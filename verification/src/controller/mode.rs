//! Which input gives the translation: the joystick or the tilt sensor.
use vstd::prelude::*;

verus! {

/// Input modes.
#[derive(Clone, Copy, PartialEq, Eq, Structural, Debug)]
pub enum InputMode {
    Joystick,
    Tilt,
}

impl InputMode {
    /// The number of a mode.
    pub open spec fn code(self) -> u8 {
        match self {
            InputMode::Joystick => 0,
            InputMode::Tilt => 1,
        }
    }

    /// The mode of a number: anything but that of [`InputMode::Tilt`] is the
    /// joystick.
    pub open spec fn decode(raw: u8) -> InputMode {
        if raw == 1 {
            InputMode::Tilt
        } else {
            InputMode::Joystick
        }
    }

    /// The other mode.
    pub open spec fn other(self) -> InputMode {
        match self {
            InputMode::Joystick => InputMode::Tilt,
            InputMode::Tilt => InputMode::Joystick,
        }
    }
}

/// The active mode, kept as a byte so that it fits an atomic.
#[derive(Clone, Copy, PartialEq, Eq, Structural, Debug)]
pub struct Mode {
    pub raw: u8,
}

impl Mode {
    /// The mode after power-up.
    pub fn new() -> (mode: Self)
        ensures
            mode.raw == InputMode::Joystick.code(),
    {
        Mode { raw: 0 }
    }

    /// The active mode.
    pub fn current(&self) -> (mode: InputMode)
        ensures
            mode == InputMode::decode(self.raw),
    {
        match self.raw {
            1 => InputMode::Tilt,
            _ => InputMode::Joystick,
        }
    }

    /// Sets the mode. What comes back is to be announced to the listeners.
    pub fn set(&mut self, mode: InputMode) -> (announced: InputMode)
        ensures
            final(self).raw == mode.code(),
            announced == mode,
    {
        self.raw = match mode {
            InputMode::Joystick => 0,
            InputMode::Tilt => 1,
        };
        mode
    }

    /// Switches to the other mode and returns it, to be announced.
    pub fn toggle(&mut self) -> (next: InputMode)
        ensures
            next == InputMode::decode(old(self).raw).other(),
            final(self).raw == next.code(),
    {
        let next = match self.current() {
            InputMode::Joystick => InputMode::Tilt,
            InputMode::Tilt => InputMode::Joystick,
        };
        self.set(next)
    }
}

/// A mode that was set is the active one, and two toggles restore it.
pub proof fn law_mode_round_trip(mode: InputMode)
    ensures
        InputMode::decode(mode.code()) == mode,
        mode.other().other() == mode,
        mode.other() != mode,
{
}

/// A byte stands for tilt just if it is one, and each mode has a byte of its own.
pub proof fn law_mode_bytes(raw: u8)
    ensures
        InputMode::decode(raw) == InputMode::Tilt <==> raw == 1,
        InputMode::decode(raw) == InputMode::Joystick <==> raw != 1,
        InputMode::Joystick.code() == 0,
        InputMode::Tilt.code() == 1,
{
}

} // verus!

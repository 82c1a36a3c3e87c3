//! Animation modes and scroll directions, each with the code the controller
//! knows it by.

use vstd::prelude::*;

verus! {

/// A lighting animation mode.
///
/// `NoBacklight` switches the backlight off and `UserDefined` colors every key
/// on its own; the other modes are animations built into the controller.
#[derive(Clone, Copy, Debug, PartialEq, Eq, Hash, Structural)]
pub enum Mode {
    NoBacklight,
    Static,
    SingleOn,
    SingleOff,
    Glittering,
    Falling,
    Colorful,
    Breath,
    Spectrum,
    Outward,
    Scrolling,
    Rolling,
    Rotating,
    Explode,
    Launch,
    Ripples,
    Flowing,
    Pulsating,
    Tilt,
    Shuttle,
    UserDefined,
}

impl Mode {
    /// The code the controller uses for this mode.
    pub open spec fn spec_code(self) -> u8 {
        match self {
            Mode::NoBacklight => 0x00,
            Mode::Static => 0x01,
            Mode::SingleOn => 0x02,
            Mode::SingleOff => 0x03,
            Mode::Glittering => 0x04,
            Mode::Falling => 0x05,
            Mode::Colorful => 0x06,
            Mode::Breath => 0x07,
            Mode::Spectrum => 0x08,
            Mode::Outward => 0x09,
            Mode::Scrolling => 0x0a,
            Mode::Rolling => 0x0b,
            Mode::Rotating => 0x0c,
            Mode::Explode => 0x0d,
            Mode::Launch => 0x0e,
            Mode::Ripples => 0x0f,
            Mode::Flowing => 0x10,
            Mode::Pulsating => 0x11,
            Mode::Tilt => 0x12,
            Mode::Shuttle => 0x13,
            Mode::UserDefined => 0x80,
        }
    }

    /// The mode that has the given code, if there is one.
    pub open spec fn spec_from_code(code: int) -> Option<Mode> {
        if exists|m: Mode| m.spec_code() == code {
            Some(choose|m: Mode| m.spec_code() == code)
        } else {
            None
        }
    }

    /// Whether a configuration keeps a preset for this mode: every mode but
    /// `NoBacklight` has one.
    pub open spec fn has_preset(self) -> bool {
        self != Mode::NoBacklight
    }

    /// The code the controller uses for this mode.
    #[verifier::when_used_as_spec(spec_code)]
    pub fn code(self) -> (code: u8)
        ensures
            code == self.spec_code(),
    {
        match self {
            Mode::NoBacklight => 0x00,
            Mode::Static => 0x01,
            Mode::SingleOn => 0x02,
            Mode::SingleOff => 0x03,
            Mode::Glittering => 0x04,
            Mode::Falling => 0x05,
            Mode::Colorful => 0x06,
            Mode::Breath => 0x07,
            Mode::Spectrum => 0x08,
            Mode::Outward => 0x09,
            Mode::Scrolling => 0x0a,
            Mode::Rolling => 0x0b,
            Mode::Rotating => 0x0c,
            Mode::Explode => 0x0d,
            Mode::Launch => 0x0e,
            Mode::Ripples => 0x0f,
            Mode::Flowing => 0x10,
            Mode::Pulsating => 0x11,
            Mode::Tilt => 0x12,
            Mode::Shuttle => 0x13,
            Mode::UserDefined => 0x80,
        }
    }

    /// Looks a mode up by its code.
    pub fn from_code(code: u8) -> (mode: Option<Mode>)
        ensures
            mode == Mode::spec_from_code(code as int),
            mode is Some <==> (code <= 0x13 || code == 0x80),
    {
        let mode = match code {
            0x00 => Some(Mode::NoBacklight),
            0x01 => Some(Mode::Static),
            0x02 => Some(Mode::SingleOn),
            0x03 => Some(Mode::SingleOff),
            0x04 => Some(Mode::Glittering),
            0x05 => Some(Mode::Falling),
            0x06 => Some(Mode::Colorful),
            0x07 => Some(Mode::Breath),
            0x08 => Some(Mode::Spectrum),
            0x09 => Some(Mode::Outward),
            0x0a => Some(Mode::Scrolling),
            0x0b => Some(Mode::Rolling),
            0x0c => Some(Mode::Rotating),
            0x0d => Some(Mode::Explode),
            0x0e => Some(Mode::Launch),
            0x0f => Some(Mode::Ripples),
            0x10 => Some(Mode::Flowing),
            0x11 => Some(Mode::Pulsating),
            0x12 => Some(Mode::Tilt),
            0x13 => Some(Mode::Shuttle),
            0x80 => Some(Mode::UserDefined),
            _ => None,
        };
        proof {
            if let Some(m) = mode {
                Mode::lemma_from_code_inverts(m);
            }
        }
        mode
    }

    /// No two modes share a code.
    pub proof fn lemma_code_injective(a: Mode, b: Mode)
        ensures
            a.spec_code() == b.spec_code() ==> a == b,
    {
    }

    /// Looking up the code of a mode gives that mode back.
    pub proof fn lemma_from_code_inverts(m: Mode)
        ensures
            Mode::spec_from_code(m.spec_code() as int) == Some(m),
    {
        let found = choose|other: Mode| other.spec_code() == m.spec_code();
        Mode::lemma_code_injective(found, m);
    }
}

/// The direction in which an animation moves across the keyboard.
#[derive(Clone, Copy, Debug, PartialEq, Eq, Hash, Structural)]
pub enum Direction {
    Right,
    Left,
    Up,
    Down,
}

impl Direction {
    /// The code the controller uses for this direction.
    pub open spec fn spec_code(self) -> u8 {
        match self {
            Direction::Right => 0,
            Direction::Left => 1,
            Direction::Up => 2,
            Direction::Down => 3,
        }
    }

    /// The direction that has the given code, if there is one.
    pub open spec fn spec_from_code(code: int) -> Option<Direction> {
        if exists|d: Direction| d.spec_code() == code {
            Some(choose|d: Direction| d.spec_code() == code)
        } else {
            None
        }
    }

    /// The code the controller uses for this direction.
    #[verifier::when_used_as_spec(spec_code)]
    pub fn code(self) -> (code: u8)
        ensures
            code == self.spec_code(),
    {
        match self {
            Direction::Right => 0,
            Direction::Left => 1,
            Direction::Up => 2,
            Direction::Down => 3,
        }
    }

    /// Looks a direction up by its code.
    pub fn from_code(code: u8) -> (direction: Option<Direction>)
        ensures
            direction == Direction::spec_from_code(code as int),
            direction is Some <==> code <= 3,
    {
        let direction = match code {
            0 => Some(Direction::Right),
            1 => Some(Direction::Left),
            2 => Some(Direction::Up),
            3 => Some(Direction::Down),
            _ => None,
        };
        proof {
            if let Some(d) = direction {
                Direction::lemma_from_code_inverts(d);
            }
        }
        direction
    }

    /// Looking up the code of a direction gives that direction back.
    pub proof fn lemma_from_code_inverts(d: Direction)
        ensures
            Direction::spec_from_code(d.spec_code() as int) == Some(d),
    {
    }
}

} // verus!

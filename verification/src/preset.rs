//! The settings of one lighting mode, and the 16-byte record the controller
//! stores them in.

use vstd::prelude::*;
use vstd::std_specs::convert::FromSpecImpl;
use crate::color::RGB;
use crate::mode::{Direction, Mode};

verus! {

/// Lowest brightness and lowest speed the controller accepts.
pub const LEVEL_MIN: u8 = 0x01;

/// Highest brightness and highest speed the controller accepts.
pub const LEVEL_MAX: u8 = 0x10;

/// Length of the record that holds one preset.
pub const RECORD_LEN: usize = 16;

/// What a preset holds, as contracts speak of it.
pub struct PresetView {
    pub mode: Mode,
    pub color: RGB,
    pub full_color: bool,
    pub brightness: u8,
    pub speed: u8,
    pub direction: Direction,
}

impl PresetView {
    /// Brightness and speed both lie between `LEVEL_MIN` and `LEVEL_MAX`.
    pub open spec fn valid(self) -> bool {
        &&& LEVEL_MIN <= self.brightness <= LEVEL_MAX
        &&& LEVEL_MIN <= self.speed <= LEVEL_MAX
    }

    /// The settings a mode has until it is configured: white at full
    /// brightness, in full color, moving right (`Scrolling` moves down).
    pub open spec fn default_for(mode: Mode) -> PresetView {
        PresetView {
            mode,
            color: RGB::white(),
            full_color: true,
            brightness: 0x10,
            speed: 0x0c,
            direction: if mode == Mode::Scrolling {
                Direction::Down
            } else {
                Direction::Right
            },
        }
    }

    /// The record of a preset: mode code, color, four reserved bytes, the
    /// full-color flag, brightness, speed, direction code, two reserved
    /// bytes, and the trailer `0xAA 0x55`.
    pub open spec fn record(self) -> Seq<u8> {
        seq![
            self.mode.spec_code(),
            self.color.red,
            self.color.green,
            self.color.blue,
            0,
            0,
            0,
            0,
            if self.full_color { 1u8 } else { 0u8 },
            self.brightness,
            self.speed,
            self.direction.spec_code(),
            0,
            0,
            0xAA,
            0x55,
        ]
    }

    /// The record starts with the mode's code and ends with the trailer, and
    /// every setting can be read back from its byte.
    pub proof fn lemma_record_decodes(self)
        requires
            self.valid(),
        ensures
            self.record().len() == RECORD_LEN,
            self.record()[0] == self.mode.spec_code(),
            Mode::spec_from_code(self.record()[0] as int) == Some(self.mode),
            self.record()[14] == 0xAA,
            self.record()[15] == 0x55,
            (self.record()[8] == 1) == self.full_color,
            (self.record()[8] == 0) == !self.full_color,
            self.record()[9] == self.brightness,
            self.record()[10] == self.speed,
            LEVEL_MIN <= self.record()[9] <= LEVEL_MAX,
            LEVEL_MIN <= self.record()[10] <= LEVEL_MAX,
            Direction::spec_from_code(self.record()[11] as int) == Some(self.direction),
    {
        Mode::lemma_from_code_inverts(self.mode);
        Direction::lemma_from_code_inverts(self.direction);
    }
}

/// The settings of one lighting mode. Brightness and speed of every value of
/// this type lie between `LEVEL_MIN` and `LEVEL_MAX`.
#[derive(Clone, Copy)]
pub struct ModePreset {
    mode: Mode,
    color: RGB,
    full_color: bool,
    brightness: u8,
    speed: u8,
    direction: Direction,
}

impl View for ModePreset {
    type V = PresetView;

    closed spec fn view(&self) -> PresetView {
        PresetView {
            mode: self.mode,
            color: self.color,
            full_color: self.full_color,
            brightness: self.brightness,
            speed: self.speed,
            direction: self.direction,
        }
    }
}

impl ModePreset {
    /// Holds of every preset: its levels are in range.
    #[verifier::type_invariant]
    pub open spec fn levels_in_range(self) -> bool {
        self@.valid()
    }

    /// The preset a mode has until it is configured.
    pub fn default_for(mode: Mode) -> (preset: ModePreset)
        ensures
            preset@ == PresetView::default_for(mode),
            preset@.mode == mode,
            preset@.color == RGB::white(),
            preset@.full_color,
            preset@.brightness == 0x10,
            preset@.speed == 0x0c,
            preset@.direction == Direction::Down <==> mode == Mode::Scrolling,
            preset@.direction == Direction::Right <==> mode != Mode::Scrolling,
    {
        mode_preset(
            mode,
            RGB { red: 0xff, green: 0xff, blue: 0xff },
            true,
            0x10,
            0x0c,
            match mode {
                Mode::Scrolling => Direction::Down,
                _ => Direction::Right,
            },
        )
    }

    /// The mode these settings belong to.
    pub fn mode(&self) -> (mode: Mode)
        ensures
            mode == self@.mode,
    {
        self.mode
    }

    /// The color of the animation.
    pub fn color(&self) -> (color: RGB)
        ensures
            color == self@.color,
    {
        self.color
    }

    /// Whether the animation cycles through all colors.
    pub fn full_color(&self) -> (full_color: bool)
        ensures
            full_color == self@.full_color,
    {
        self.full_color
    }

    /// The brightness level.
    pub fn brightness(&self) -> (brightness: u8)
        ensures
            brightness == self@.brightness,
            self@.valid(),
    {
        proof {
            use_type_invariant(self);
        }
        self.brightness
    }

    /// The speed level.
    pub fn speed(&self) -> (speed: u8)
        ensures
            speed == self@.speed,
            self@.valid(),
    {
        proof {
            use_type_invariant(self);
        }
        self.speed
    }

    /// The direction of the animation.
    pub fn direction(&self) -> (direction: Direction)
        ensures
            direction == self@.direction,
    {
        self.direction
    }
}

/// Builds a preset from its settings. Brightness and speed must lie between
/// `LEVEL_MIN` and `LEVEL_MAX`.
pub fn mode_preset(
    mode: Mode,
    color: RGB,
    full_color: bool,
    brightness: u8,
    speed: u8,
    direction: Direction,
) -> (preset: ModePreset)
    requires
        LEVEL_MIN <= brightness <= LEVEL_MAX,
        LEVEL_MIN <= speed <= LEVEL_MAX,
    ensures
        preset@ == (PresetView { mode, color, full_color, brightness, speed, direction }),
{
    ModePreset { mode, color, full_color, brightness, speed, direction }
}

impl From<ModePreset> for [u8; 16] {
    /// Encodes a preset as its record. The record starts with the mode's code
    /// and ends with the trailer, and every setting can be read back from its
    /// byte.
    fn from(preset: ModePreset) -> (bytes: [u8; 16])
        ensures
            bytes@ == preset@.record(),
            bytes[0] == preset@.mode.spec_code(),
            bytes[14] == 0xAA && bytes[15] == 0x55,
            (bytes[8] == 1) == preset@.full_color,
            (bytes[8] == 0) == !preset@.full_color,
            bytes[9] == preset@.brightness && LEVEL_MIN <= bytes[9] <= LEVEL_MAX,
            bytes[10] == preset@.speed && LEVEL_MIN <= bytes[10] <= LEVEL_MAX,
            Direction::spec_from_code(bytes[11] as int) == Some(preset@.direction),
    {
        proof {
            use_type_invariant(&preset);
            preset@.lemma_record_decodes();
        }
        let bytes = [
            preset.mode.code(),
            preset.color.red,
            preset.color.green,
            preset.color.blue,
            0,
            0,
            0,
            0,
            if preset.full_color { 1u8 } else { 0u8 },
            preset.brightness,
            preset.speed,
            preset.direction.code(),
            0,
            0,
            0xAA,
            0x55,
        ];
        assert(bytes@ =~= preset@.record());
        bytes
    }
}

impl FromSpecImpl<ModePreset> for [u8; 16] {
    open spec fn obeys_from_spec() -> bool {
        true
    }

    open spec fn from_spec(preset: ModePreset) -> [u8; 16] {
        [
            preset@.mode.spec_code(),
            preset@.color.red,
            preset@.color.green,
            preset@.color.blue,
            0,
            0,
            0,
            0,
            if preset@.full_color { 1u8 } else { 0u8 },
            preset@.brightness,
            preset@.speed,
            preset@.direction.spec_code(),
            0,
            0,
            0xAA,
            0x55,
        ]
    }
}

} // verus!

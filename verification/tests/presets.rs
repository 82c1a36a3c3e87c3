use keeb_lighting::{mode_preset, rgb, Direction, Mode, ModePreset, RGB};

const ALL_MODES: [(Mode, u8); 21] = [
    (Mode::NoBacklight, 0x00),
    (Mode::Static, 0x01),
    (Mode::SingleOn, 0x02),
    (Mode::SingleOff, 0x03),
    (Mode::Glittering, 0x04),
    (Mode::Falling, 0x05),
    (Mode::Colorful, 0x06),
    (Mode::Breath, 0x07),
    (Mode::Spectrum, 0x08),
    (Mode::Outward, 0x09),
    (Mode::Scrolling, 0x0a),
    (Mode::Rolling, 0x0b),
    (Mode::Rotating, 0x0c),
    (Mode::Explode, 0x0d),
    (Mode::Launch, 0x0e),
    (Mode::Ripples, 0x0f),
    (Mode::Flowing, 0x10),
    (Mode::Pulsating, 0x11),
    (Mode::Tilt, 0x12),
    (Mode::Shuttle, 0x13),
    (Mode::UserDefined, 0x80),
];

const ALL_DIRECTIONS: [(Direction, u8); 4] =
    [(Direction::Right, 0), (Direction::Left, 1), (Direction::Up, 2), (Direction::Down, 3)];

#[test]
fn rgb_keeps_its_channels() {
    let color = rgb(255, 128, 15);
    assert_eq!(color.red, 255);
    assert_eq!(color.green, 128);
    assert_eq!(color.blue, 15);
    assert_eq!(color, RGB { red: 255, green: 128, blue: 15 });
    assert_ne!(color, rgb(15, 128, 255));
}

#[test]
fn mode_codes_are_those_of_the_controller() {
    for (mode, code) in ALL_MODES {
        assert_eq!(mode.code(), code);
        assert_eq!(Mode::from_code(code), Some(mode));
    }
}

#[test]
fn mode_lookup_rejects_unused_codes() {
    for code in 0u8..=255 {
        let known = ALL_MODES.iter().any(|(_, c)| *c == code);
        assert_eq!(Mode::from_code(code).is_some(), known);
    }
    assert_eq!(Mode::from_code(0x14), None);
    assert_eq!(Mode::from_code(0x7f), None);
    assert_eq!(Mode::from_code(0x81), None);
    assert_eq!(Mode::from_code(0xff), None);
}

#[test]
fn direction_codes_are_those_of_the_controller() {
    for (direction, code) in ALL_DIRECTIONS {
        assert_eq!(direction.code(), code);
        assert_eq!(Direction::from_code(code), Some(direction));
    }
    for code in 4u8..=255 {
        assert_eq!(Direction::from_code(code), None);
    }
}

#[test]
fn mode_preset_keeps_its_settings() {
    let preset = mode_preset(Mode::Ripples, rgb(25, 255, 50), true, 16, 13, Direction::Up);
    assert_eq!(preset.mode(), Mode::Ripples);
    assert_eq!(preset.color(), rgb(25, 255, 50));
    assert!(preset.full_color());
    assert_eq!(preset.brightness(), 16);
    assert_eq!(preset.speed(), 13);
    assert_eq!(preset.direction(), Direction::Up);
}

#[test]
fn mode_preset_accepts_the_bounds_of_the_levels() {
    let lowest = mode_preset(Mode::Static, rgb(1, 2, 3), false, 1, 1, Direction::Right);
    assert_eq!(lowest.brightness(), 1);
    assert_eq!(lowest.speed(), 1);
    let highest = mode_preset(Mode::Static, rgb(1, 2, 3), false, 16, 16, Direction::Right);
    assert_eq!(highest.brightness(), 16);
    assert_eq!(highest.speed(), 16);
}

#[test]
fn default_preset_of_every_mode() {
    for (mode, _) in ALL_MODES {
        let preset = ModePreset::default_for(mode);
        assert_eq!(preset.mode(), mode);
        assert_eq!(preset.color(), rgb(0xff, 0xff, 0xff));
        assert!(preset.full_color());
        assert_eq!(preset.brightness(), 0x10);
        assert_eq!(preset.speed(), 0x0c);
        if mode == Mode::Scrolling {
            assert_eq!(preset.direction(), Direction::Down);
        } else {
            assert_eq!(preset.direction(), Direction::Right);
        }
    }
}

#[test]
fn default_preset_record() {
    let record: [u8; 16] = ModePreset::default_for(Mode::Static).into();
    assert_eq!(record, [0x01, 0xff, 0xff, 0xff, 0, 0, 0, 0, 1, 0x10, 0x0c, 0, 0, 0, 0xAA, 0x55]);
    let record: [u8; 16] = ModePreset::default_for(Mode::Scrolling).into();
    assert_eq!(record, [0x0a, 0xff, 0xff, 0xff, 0, 0, 0, 0, 1, 0x10, 0x0c, 3, 0, 0, 0xAA, 0x55]);
}

#[test]
fn record_of_rolling_preset() {
    let preset = mode_preset(Mode::Rolling, rgb(0, 0, 0), true, 2, 6, Direction::Left);
    let record: [u8; 16] = preset.into();
    assert_eq!(record, [0x0b, 0, 0, 0, 0, 0, 0, 0, 1, 2, 6, 1, 0, 0, 0xAA, 0x55]);
}

#[test]
fn record_of_emerald_preset() {
    let preset = mode_preset(Mode::Static, rgb(25, 255, 50), false, 16, 1, Direction::Right);
    let record: [u8; 16] = <[u8; 16]>::from(preset);
    assert_eq!(record, [0x01, 25, 255, 50, 0, 0, 0, 0, 0, 16, 1, 0, 0, 0, 0xAA, 0x55]);
}

#[test]
fn record_can_be_decoded() {
    for (mode, code) in ALL_MODES {
        for (direction, direction_code) in ALL_DIRECTIONS {
            for full_color in [false, true] {
                for level in 1u8..=16 {
                    let speed = 17 - level;
                    let color = rgb(level, code, direction_code);
                    let preset = mode_preset(mode, color, full_color, level, speed, direction);
                    let record: [u8; 16] = preset.into();
                    assert_eq!(record[0], code);
                    assert_eq!(Mode::from_code(record[0]), Some(mode));
                    assert_eq!(&record[1..4], &[level, code, direction_code]);
                    assert_eq!(&record[4..8], &[0, 0, 0, 0]);
                    assert_eq!(record[8] == 1, full_color);
                    assert_eq!(record[8] == 0, !full_color);
                    assert_eq!(record[9], level);
                    assert_eq!(record[10], speed);
                    assert_eq!(Direction::from_code(record[11]), Some(direction));
                    assert_eq!(&record[12..14], &[0, 0]);
                    assert_eq!(&record[14..16], &[0xAA, 0x55]);
                }
            }
        }
    }
}

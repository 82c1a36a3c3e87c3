use keeb_lighting::{key, Key};

const ALL_KEYS: [(Key, u16); 61] = [
    (Key::Esc, 0x4c),
    (Key::Numrow1, 0x50),
    (Key::Numrow2, 0x54),
    (Key::Numrow3, 0x58),
    (Key::Numrow4, 0x5c),
    (Key::Numrow5, 0x60),
    (Key::Numrow6, 0x64),
    (Key::Numrow7, 0x68),
    (Key::Numrow8, 0x6c),
    (Key::Numrow9, 0x70),
    (Key::Numrow0, 0x74),
    (Key::Minus, 0x78),
    (Key::Equals, 0x7c),
    (Key::Tab, 0x94),
    (Key::Q, 0x98),
    (Key::W, 0x9c),
    (Key::E, 0xa0),
    (Key::R, 0xa4),
    (Key::T, 0xa8),
    (Key::Y, 0xac),
    (Key::U, 0xb0),
    (Key::I, 0xb4),
    (Key::O, 0xb8),
    (Key::P, 0xbc),
    (Key::LBracket, 0xc0),
    (Key::RBracket, 0xc4),
    (Key::CapsLock, 0xdc),
    (Key::A, 0xe0),
    (Key::S, 0xe4),
    (Key::D, 0xe8),
    (Key::F, 0xec),
    (Key::G, 0xf0),
    (Key::H, 0xf4),
    (Key::J, 0xf8),
    (Key::K, 0xfc),
    (Key::L, 0x100),
    (Key::Semicolon, 0x104),
    (Key::Quote, 0x108),
    (Key::Backslash, 0x10c),
    (Key::LShift, 0x124),
    (Key::Z, 0x128),
    (Key::X, 0x12c),
    (Key::C, 0x130),
    (Key::V, 0x134),
    (Key::B, 0x138),
    (Key::N, 0x13c),
    (Key::M, 0x140),
    (Key::Comma, 0x144),
    (Key::Fullstop, 0x148),
    (Key::Slash, 0x14c),
    (Key::RShift, 0x150),
    (Key::Enter, 0x154),
    (Key::LCtrl, 0x16c),
    (Key::LWin, 0x170),
    (Key::LAlt, 0x174),
    (Key::Space, 0x178),
    (Key::RAlt, 0x17c),
    (Key::Menu, 0x180),
    (Key::RCtrl, 0x184),
    (Key::Fn, 0x188),
    (Key::Backspace, 0x19c),
];

const LAYOUT: [[Option<Key>; 14]; 5] = [
    [
        Some(Key::Esc),
        Some(Key::Numrow1),
        Some(Key::Numrow2),
        Some(Key::Numrow3),
        Some(Key::Numrow4),
        Some(Key::Numrow5),
        Some(Key::Numrow6),
        Some(Key::Numrow7),
        Some(Key::Numrow8),
        Some(Key::Numrow9),
        Some(Key::Numrow0),
        Some(Key::Minus),
        Some(Key::Equals),
        Some(Key::Backspace),
    ],
    [
        Some(Key::Tab),
        Some(Key::Q),
        Some(Key::W),
        Some(Key::E),
        Some(Key::R),
        Some(Key::T),
        Some(Key::Y),
        Some(Key::U),
        Some(Key::I),
        Some(Key::O),
        Some(Key::P),
        Some(Key::LBracket),
        Some(Key::RBracket),
        Some(Key::Backslash),
    ],
    [
        Some(Key::CapsLock),
        Some(Key::A),
        Some(Key::S),
        Some(Key::D),
        Some(Key::F),
        Some(Key::G),
        Some(Key::H),
        Some(Key::J),
        Some(Key::K),
        Some(Key::L),
        Some(Key::Semicolon),
        Some(Key::Quote),
        Some(Key::Enter),
        None,
    ],
    [
        Some(Key::LShift),
        None,
        Some(Key::Z),
        Some(Key::X),
        Some(Key::C),
        Some(Key::V),
        Some(Key::B),
        Some(Key::N),
        Some(Key::M),
        Some(Key::Comma),
        Some(Key::Fullstop),
        Some(Key::Slash),
        None,
        Some(Key::RShift),
    ],
    [
        Some(Key::LCtrl),
        Some(Key::LWin),
        Some(Key::LAlt),
        None,
        None,
        None,
        Some(Key::Space),
        None,
        None,
        None,
        Some(Key::RAlt),
        Some(Key::Menu),
        Some(Key::RCtrl),
        Some(Key::Fn),
    ],
];

#[test]
fn key_codes_are_those_of_the_controller() {
    for (key, code) in ALL_KEYS {
        assert_eq!(key.code(), code);
        assert_eq!(Key::from_code(code), Some(key));
    }
    assert_eq!(Key::Esc.code(), 0x4c);
    assert_eq!(Key::Q.code(), 0x98);
    assert_eq!(Key::Backspace.code(), 0x19c);
}

#[test]
fn key_lookup_rejects_unused_codes() {
    for code in 0u16..0x400 {
        let known = ALL_KEYS.iter().any(|(_, c)| *c == code);
        assert_eq!(Key::from_code(code).is_some(), known);
    }
    assert_eq!(Key::from_code(0), None);
    assert_eq!(Key::from_code(0x48), None);
    assert_eq!(Key::from_code(0x99), None);
    assert_eq!(Key::from_code(0x80), None);
    assert_eq!(Key::from_code(0x18c), None);
    assert_eq!(Key::from_code(0x1a0), None);
    assert_eq!(Key::from_code(u16::MAX), None);
}

#[test]
fn key_codes_are_distinct_multiples_of_four() {
    for (n, (key, code)) in ALL_KEYS.iter().enumerate() {
        assert_eq!(code % 4, 0);
        assert!(0x4c <= *code && *code <= 0x19c);
        for (other, other_code) in &ALL_KEYS[n + 1..] {
            assert_ne!(key, other);
            assert_ne!(code, other_code);
        }
    }
}

#[test]
fn key_by_coordinate_follows_the_layout() {
    for y in 0..5 {
        for x in 0..14 {
            assert_eq!(key(x, y), LAYOUT[y][x]);
        }
    }
}

#[test]
fn key_by_coordinate_named_positions() {
    assert_eq!(key(0, 0), Some(Key::Esc));
    assert_eq!(key(13, 0), Some(Key::Backspace));
    assert_eq!(key(1, 1), Some(Key::Q));
    assert_eq!(key(13, 1), Some(Key::Backslash));
    assert_eq!(key(12, 2), Some(Key::Enter));
    assert_eq!(key(0, 3), Some(Key::LShift));
    assert_eq!(key(13, 3), Some(Key::RShift));
    assert_eq!(key(6, 4), Some(Key::Space));
    assert_eq!(key(13, 4), Some(Key::Fn));
}

#[test]
fn key_by_coordinate_gaps_and_outside() {
    assert_eq!(key(13, 2), None);
    assert_eq!(key(1, 3), None);
    assert_eq!(key(12, 3), None);
    for x in [3, 4, 5, 7, 8, 9] {
        assert_eq!(key(x, 4), None);
    }
    for y in 0..5 {
        assert_eq!(key(14, y), None);
        assert_eq!(key(usize::MAX, y), None);
    }
    for x in 0..14 {
        assert_eq!(key(x, 5), None);
        assert_eq!(key(x, usize::MAX), None);
    }
}

#[test]
fn every_key_has_one_coordinate() {
    for (wanted, _) in ALL_KEYS {
        let mut places = 0;
        for y in 0..5 {
            for x in 0..14 {
                if key(x, y) == Some(wanted) {
                    places += 1;
                }
            }
        }
        assert_eq!(places, 1);
    }
}

//! The 61 keys of the keyboard, the code the controller addresses each by,
//! and where each sits on the physical layout.

use vstd::prelude::*;

verus! {

/// A key of the 61-key layout.
#[derive(Clone, Copy, Debug, PartialEq, Eq, Hash, Structural)]
pub enum Key {
    Esc,
    Numrow1,
    Numrow2,
    Numrow3,
    Numrow4,
    Numrow5,
    Numrow6,
    Numrow7,
    Numrow8,
    Numrow9,
    Numrow0,
    Minus,
    Equals,
    Tab,
    Q,
    W,
    E,
    R,
    T,
    Y,
    U,
    I,
    O,
    P,
    LBracket,
    RBracket,
    CapsLock,
    A,
    S,
    D,
    F,
    G,
    H,
    J,
    K,
    L,
    Semicolon,
    Quote,
    Backslash,
    LShift,
    Z,
    X,
    C,
    V,
    B,
    N,
    M,
    Comma,
    Fullstop,
    Slash,
    RShift,
    Enter,
    LCtrl,
    LWin,
    LAlt,
    Space,
    RAlt,
    Menu,
    RCtrl,
    Fn,
    Backspace,
}

impl Key {
    /// The code the controller addresses this key by. The codes are not
    /// consecutive: the gaps belong to positions this layout has no key at.
    pub open spec fn spec_code(self) -> u16 {
        match self {
            Key::Esc => 0x4c,
            Key::Numrow1 => 0x50,
            Key::Numrow2 => 0x54,
            Key::Numrow3 => 0x58,
            Key::Numrow4 => 0x5c,
            Key::Numrow5 => 0x60,
            Key::Numrow6 => 0x64,
            Key::Numrow7 => 0x68,
            Key::Numrow8 => 0x6c,
            Key::Numrow9 => 0x70,
            Key::Numrow0 => 0x74,
            Key::Minus => 0x78,
            Key::Equals => 0x7c,
            Key::Tab => 0x94,
            Key::Q => 0x98,
            Key::W => 0x9c,
            Key::E => 0xa0,
            Key::R => 0xa4,
            Key::T => 0xa8,
            Key::Y => 0xac,
            Key::U => 0xb0,
            Key::I => 0xb4,
            Key::O => 0xb8,
            Key::P => 0xbc,
            Key::LBracket => 0xc0,
            Key::RBracket => 0xc4,
            Key::CapsLock => 0xdc,
            Key::A => 0xe0,
            Key::S => 0xe4,
            Key::D => 0xe8,
            Key::F => 0xec,
            Key::G => 0xf0,
            Key::H => 0xf4,
            Key::J => 0xf8,
            Key::K => 0xfc,
            Key::L => 0x100,
            Key::Semicolon => 0x104,
            Key::Quote => 0x108,
            Key::Backslash => 0x10c,
            Key::LShift => 0x124,
            Key::Z => 0x128,
            Key::X => 0x12c,
            Key::C => 0x130,
            Key::V => 0x134,
            Key::B => 0x138,
            Key::N => 0x13c,
            Key::M => 0x140,
            Key::Comma => 0x144,
            Key::Fullstop => 0x148,
            Key::Slash => 0x14c,
            Key::RShift => 0x150,
            Key::Enter => 0x154,
            Key::LCtrl => 0x16c,
            Key::LWin => 0x170,
            Key::LAlt => 0x174,
            Key::Space => 0x178,
            Key::RAlt => 0x17c,
            Key::Menu => 0x180,
            Key::RCtrl => 0x184,
            Key::Fn => 0x188,
            Key::Backspace => 0x19c,
        }
    }

    /// The key that has the given code, if there is one.
    pub open spec fn spec_from_code(code: int) -> Option<Key> {
        if exists|k: Key| k.spec_code() == code {
            Some(choose|k: Key| k.spec_code() == code)
        } else {
            None
        }
    }

    /// The code the controller addresses this key by.
    #[verifier::when_used_as_spec(spec_code)]
    pub fn code(self) -> (code: u16)
        ensures
            code == self.spec_code(),
    {
        match self {
            Key::Esc => 0x4c,
            Key::Numrow1 => 0x50,
            Key::Numrow2 => 0x54,
            Key::Numrow3 => 0x58,
            Key::Numrow4 => 0x5c,
            Key::Numrow5 => 0x60,
            Key::Numrow6 => 0x64,
            Key::Numrow7 => 0x68,
            Key::Numrow8 => 0x6c,
            Key::Numrow9 => 0x70,
            Key::Numrow0 => 0x74,
            Key::Minus => 0x78,
            Key::Equals => 0x7c,
            Key::Tab => 0x94,
            Key::Q => 0x98,
            Key::W => 0x9c,
            Key::E => 0xa0,
            Key::R => 0xa4,
            Key::T => 0xa8,
            Key::Y => 0xac,
            Key::U => 0xb0,
            Key::I => 0xb4,
            Key::O => 0xb8,
            Key::P => 0xbc,
            Key::LBracket => 0xc0,
            Key::RBracket => 0xc4,
            Key::CapsLock => 0xdc,
            Key::A => 0xe0,
            Key::S => 0xe4,
            Key::D => 0xe8,
            Key::F => 0xec,
            Key::G => 0xf0,
            Key::H => 0xf4,
            Key::J => 0xf8,
            Key::K => 0xfc,
            Key::L => 0x100,
            Key::Semicolon => 0x104,
            Key::Quote => 0x108,
            Key::Backslash => 0x10c,
            Key::LShift => 0x124,
            Key::Z => 0x128,
            Key::X => 0x12c,
            Key::C => 0x130,
            Key::V => 0x134,
            Key::B => 0x138,
            Key::N => 0x13c,
            Key::M => 0x140,
            Key::Comma => 0x144,
            Key::Fullstop => 0x148,
            Key::Slash => 0x14c,
            Key::RShift => 0x150,
            Key::Enter => 0x154,
            Key::LCtrl => 0x16c,
            Key::LWin => 0x170,
            Key::LAlt => 0x174,
            Key::Space => 0x178,
            Key::RAlt => 0x17c,
            Key::Menu => 0x180,
            Key::RCtrl => 0x184,
            Key::Fn => 0x188,
            Key::Backspace => 0x19c,
        }
    }

    /// Looks a key up by its code.
    pub fn from_code(code: u16) -> (key: Option<Key>)
        ensures
            key == Key::spec_from_code(code as int),
    {
        let key = match code {
            0x4c => Some(Key::Esc),
            0x50 => Some(Key::Numrow1),
            0x54 => Some(Key::Numrow2),
            0x58 => Some(Key::Numrow3),
            0x5c => Some(Key::Numrow4),
            0x60 => Some(Key::Numrow5),
            0x64 => Some(Key::Numrow6),
            0x68 => Some(Key::Numrow7),
            0x6c => Some(Key::Numrow8),
            0x70 => Some(Key::Numrow9),
            0x74 => Some(Key::Numrow0),
            0x78 => Some(Key::Minus),
            0x7c => Some(Key::Equals),
            0x94 => Some(Key::Tab),
            0x98 => Some(Key::Q),
            0x9c => Some(Key::W),
            0xa0 => Some(Key::E),
            0xa4 => Some(Key::R),
            0xa8 => Some(Key::T),
            0xac => Some(Key::Y),
            0xb0 => Some(Key::U),
            0xb4 => Some(Key::I),
            0xb8 => Some(Key::O),
            0xbc => Some(Key::P),
            0xc0 => Some(Key::LBracket),
            0xc4 => Some(Key::RBracket),
            0xdc => Some(Key::CapsLock),
            0xe0 => Some(Key::A),
            0xe4 => Some(Key::S),
            0xe8 => Some(Key::D),
            0xec => Some(Key::F),
            0xf0 => Some(Key::G),
            0xf4 => Some(Key::H),
            0xf8 => Some(Key::J),
            0xfc => Some(Key::K),
            0x100 => Some(Key::L),
            0x104 => Some(Key::Semicolon),
            0x108 => Some(Key::Quote),
            0x10c => Some(Key::Backslash),
            0x124 => Some(Key::LShift),
            0x128 => Some(Key::Z),
            0x12c => Some(Key::X),
            0x130 => Some(Key::C),
            0x134 => Some(Key::V),
            0x138 => Some(Key::B),
            0x13c => Some(Key::N),
            0x140 => Some(Key::M),
            0x144 => Some(Key::Comma),
            0x148 => Some(Key::Fullstop),
            0x14c => Some(Key::Slash),
            0x150 => Some(Key::RShift),
            0x154 => Some(Key::Enter),
            0x16c => Some(Key::LCtrl),
            0x170 => Some(Key::LWin),
            0x174 => Some(Key::LAlt),
            0x178 => Some(Key::Space),
            0x17c => Some(Key::RAlt),
            0x180 => Some(Key::Menu),
            0x184 => Some(Key::RCtrl),
            0x188 => Some(Key::Fn),
            0x19c => Some(Key::Backspace),
            _ => None,
        };
        proof {
            if let Some(k) = key {
                Key::lemma_from_code_inverts(k);
            }
        }
        key
    }

    /// No two keys share a code.
    pub proof fn lemma_code_injective(a: Key, b: Key)
        ensures
            a.spec_code() == b.spec_code() ==> a == b,
    {
    }

    /// Looking up the code of a key gives that key back.
    pub proof fn lemma_from_code_inverts(k: Key)
        ensures
            Key::spec_from_code(k.spec_code() as int) == Some(k),
    {
        let found = choose|other: Key| other.spec_code() == k.spec_code();
        Key::lemma_code_injective(found, k);
    }

    /// Every code is a multiple of four between 0x4c and 0x19c.
    pub proof fn lemma_code_aligned(k: Key)
        ensures
            k.spec_code() % 4 == 0,
            0x4c <= k.spec_code() <= 0x19c,
    {
    }
}

/// The keys of one row of the layout, from left to right. A position without
/// a key holds `None`.
pub open spec fn layout_row(y: int) -> Seq<Option<Key>> {
    if y == 0 {
        seq![
            Some(Key::Esc),
            Some(Key::Numrow1),
            Some(Key::Numrow2),
            Some(Key::Numrow3),
            Some(Key::Numrow4),
            Some(Key::Numrow5),
            Some(Key::Numrow6),
            Some(Key::Numrow7),
            Some(Key::Numrow8),
            Some(Key::Numrow9),
            Some(Key::Numrow0),
            Some(Key::Minus),
            Some(Key::Equals),
            Some(Key::Backspace),
        ]
    } else if y == 1 {
        seq![
            Some(Key::Tab),
            Some(Key::Q),
            Some(Key::W),
            Some(Key::E),
            Some(Key::R),
            Some(Key::T),
            Some(Key::Y),
            Some(Key::U),
            Some(Key::I),
            Some(Key::O),
            Some(Key::P),
            Some(Key::LBracket),
            Some(Key::RBracket),
            Some(Key::Backslash),
        ]
    } else if y == 2 {
        seq![
            Some(Key::CapsLock),
            Some(Key::A),
            Some(Key::S),
            Some(Key::D),
            Some(Key::F),
            Some(Key::G),
            Some(Key::H),
            Some(Key::J),
            Some(Key::K),
            Some(Key::L),
            Some(Key::Semicolon),
            Some(Key::Quote),
            Some(Key::Enter),
            None,
        ]
    } else if y == 3 {
        seq![
            Some(Key::LShift),
            None,
            Some(Key::Z),
            Some(Key::X),
            Some(Key::C),
            Some(Key::V),
            Some(Key::B),
            Some(Key::N),
            Some(Key::M),
            Some(Key::Comma),
            Some(Key::Fullstop),
            Some(Key::Slash),
            None,
            Some(Key::RShift),
        ]
    } else if y == 4 {
        seq![
            Some(Key::LCtrl),
            Some(Key::LWin),
            Some(Key::LAlt),
            None,
            None,
            None,
            Some(Key::Space),
            None,
            None,
            None,
            Some(Key::RAlt),
            Some(Key::Menu),
            Some(Key::RCtrl),
            Some(Key::Fn),
        ]
    } else {
        Seq::empty()
    }
}

/// The key at column `x` of row `y`, if the layout has one there.
pub open spec fn spec_key(x: int, y: int) -> Option<Key> {
    if 0 <= x < layout_row(y).len() {
        layout_row(y)[x]
    } else {
        None
    }
}

/// Looks up the key at column `x` of row `y`, counted from the top left.
pub fn key(x: usize, y: usize) -> (found: Option<Key>)
    ensures
        found == spec_key(x as int, y as int),
{
    match y {
        0 => match x {
            0 => Some(Key::Esc),
            1 => Some(Key::Numrow1),
            2 => Some(Key::Numrow2),
            3 => Some(Key::Numrow3),
            4 => Some(Key::Numrow4),
            5 => Some(Key::Numrow5),
            6 => Some(Key::Numrow6),
            7 => Some(Key::Numrow7),
            8 => Some(Key::Numrow8),
            9 => Some(Key::Numrow9),
            10 => Some(Key::Numrow0),
            11 => Some(Key::Minus),
            12 => Some(Key::Equals),
            13 => Some(Key::Backspace),
            _ => None,
        },
        1 => match x {
            0 => Some(Key::Tab),
            1 => Some(Key::Q),
            2 => Some(Key::W),
            3 => Some(Key::E),
            4 => Some(Key::R),
            5 => Some(Key::T),
            6 => Some(Key::Y),
            7 => Some(Key::U),
            8 => Some(Key::I),
            9 => Some(Key::O),
            10 => Some(Key::P),
            11 => Some(Key::LBracket),
            12 => Some(Key::RBracket),
            13 => Some(Key::Backslash),
            _ => None,
        },
        2 => match x {
            0 => Some(Key::CapsLock),
            1 => Some(Key::A),
            2 => Some(Key::S),
            3 => Some(Key::D),
            4 => Some(Key::F),
            5 => Some(Key::G),
            6 => Some(Key::H),
            7 => Some(Key::J),
            8 => Some(Key::K),
            9 => Some(Key::L),
            10 => Some(Key::Semicolon),
            11 => Some(Key::Quote),
            12 => Some(Key::Enter),
            _ => None,
        },
        3 => match x {
            0 => Some(Key::LShift),
            2 => Some(Key::Z),
            3 => Some(Key::X),
            4 => Some(Key::C),
            5 => Some(Key::V),
            6 => Some(Key::B),
            7 => Some(Key::N),
            8 => Some(Key::M),
            9 => Some(Key::Comma),
            10 => Some(Key::Fullstop),
            11 => Some(Key::Slash),
            13 => Some(Key::RShift),
            _ => None,
        },
        4 => match x {
            0 => Some(Key::LCtrl),
            1 => Some(Key::LWin),
            2 => Some(Key::LAlt),
            6 => Some(Key::Space),
            10 => Some(Key::RAlt),
            11 => Some(Key::Menu),
            12 => Some(Key::RCtrl),
            13 => Some(Key::Fn),
            _ => None,
        },
        _ => None,
    }
}

} // verus!

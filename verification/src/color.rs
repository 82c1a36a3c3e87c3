//! Colors as the controller stores them: one byte per channel.

use vstd::prelude::*;

verus! {

/// A color with 8 bits per channel.
#[derive(Clone, Copy, Debug, PartialEq, Eq, Structural)]
pub struct RGB {
    pub red: u8,
    pub green: u8,
    pub blue: u8,
}

impl RGB {
    /// All channels off.
    pub open spec fn black() -> RGB {
        RGB { red: 0, green: 0, blue: 0 }
    }

    /// All channels at full intensity.
    pub open spec fn white() -> RGB {
        RGB { red: 0xff, green: 0xff, blue: 0xff }
    }
}

/// Builds a color from its three channels.
pub fn rgb(red: u8, green: u8, blue: u8) -> (color: RGB)
    ensures
        color == (RGB { red, green, blue }),
{
    RGB { red, green, blue }
}

} // verus!

//! Colours with exact channels.

use vstd::prelude::*;

verus! {

/// Full intensity of a channel. A channel holds a whole number of steps from
/// zero (none) to `FULL` (all). `FULL` is fifteen times two to the power of
/// fifty, which makes a half, a thirtieth and a sixtieth of full intensity
/// whole numbers of steps, down to the finest fraction of a frame rate that a
/// binary64 number between 30 and 120 can hold.
pub const FULL: u64 = 0x3C_0000_0000_0000;

/// A colour by its red, green and blue channels.
#[derive(Clone, Copy, Debug, PartialEq, Eq, Structural)]
pub struct Rgb {
    pub red: u64,
    pub green: u64,
    pub blue: u64,
}

impl Rgb {
    /// No channel is beyond full intensity.
    pub open spec fn wf(self) -> bool {
        self.red <= FULL && self.green <= FULL && self.blue <= FULL
    }
}

/// The share `num / den` of full intensity in steps, rounded down to a whole
/// step.
pub open spec fn portion(num: int, den: int) -> int {
    num * FULL / den
}

/// Full intensity on every channel.
pub open spec fn white() -> Rgb {
    Rgb { red: FULL, green: FULL, blue: FULL }
}

/// Full red, nothing else.
pub open spec fn pure_red() -> Rgb {
    Rgb { red: FULL, green: 0, blue: 0 }
}

/// Full green, nothing else.
pub open spec fn pure_green() -> Rgb {
    Rgb { red: 0, green: FULL, blue: 0 }
}

} // verus!

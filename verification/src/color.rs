//! Eight-bit RGB colors and the blend by which one color is moved toward
//! another.

use vstd::prelude::*;

verus! {

/// A color as three eight-bit channels. Two colors are equal when all
/// three channels are.
#[derive(Clone, Copy, Debug, PartialEq, Eq, Structural, Hash)]
pub struct Color {
    pub red: u8,
    pub green: u8,
    pub blue: u8,
}

/// One channel after a blend step: the current value weighted seven to one
/// against the reference, divided by eight and rounded down.
pub open spec fn blend_channel(current: u8, reference: u8) -> u8 {
    ((7 * current + reference) / 8) as u8
}

/// A color after a blend step toward `reference`, channel by channel.
pub open spec fn blend(current: Color, reference: Color) -> Color {
    Color {
        red: blend_channel(current.red, reference.red),
        green: blend_channel(current.green, reference.green),
        blue: blend_channel(current.blue, reference.blue),
    }
}

/// One channel after `steps` blend steps toward the same reference.
pub open spec fn blend_channel_times(current: u8, reference: u8, steps: nat) -> u8
    decreases steps,
{
    if steps == 0 {
        current
    } else {
        blend_channel(blend_channel_times(current, reference, (steps - 1) as nat), reference)
    }
}

/// Blends one channel toward `reference`.
pub fn mix_channel(current: u8, reference: u8) -> (mixed: u8)
    ensures
        mixed == blend_channel(current, reference),
        mixed as int == (7 * current + reference) / 8,
{
    let weighted: u16 = 7 * (current as u16) + (reference as u16);
    (weighted / 8) as u8
}

impl Color {
    /// The color with the given channels.
    pub fn new(red: u8, green: u8, blue: u8) -> (color: Color)
        ensures
            color == (Color { red, green, blue }),
    {
        Color { red, green, blue }
    }

    /// The color one blend step from `self` toward `reference`.
    pub fn mix(self, reference: Color) -> (mixed: Color)
        ensures
            mixed == blend(self, reference),
    {
        Color {
            red: mix_channel(self.red, reference.red),
            green: mix_channel(self.green, reference.green),
            blue: mix_channel(self.blue, reference.blue),
        }
    }
}

} // verus!

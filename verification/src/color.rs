//! Colour values: RGB triples as they go to the strip, and HSV values that
//! still await conversion.

use vstd::prelude::*;

verus! {

/// Degrees in one full turn of the hue circle.
pub const FULL_TURN: u16 = 360;

/// Largest saturation or value of an [`Hsv`] colour, which are in percent.
pub const FULL_SCALE: u8 = 100;

/// The colour of one LED: red, green and blue intensity, eight bits each.
#[derive(Clone, Copy, Debug, PartialEq, Eq, Structural)]
pub struct Color {
    pub r: u8,
    pub g: u8,
    pub b: u8,
}

impl Color {
    /// The colour with the given channel intensities.
    pub fn new(r: u8, g: u8, b: u8) -> (color: Color)
        ensures
            color == (Color { r, g, b }),
    {
        Color { r, g, b }
    }

    /// The colour of an LED that is switched off.
    pub open spec fn off() -> Color {
        Color { r: 0, g: 0, b: 0 }
    }
}

/// A colour in hue, saturation and value, to be converted to RGB before it
/// reaches the strip.
///
/// The hue is in whole degrees, saturation and value in percent of full scale.
#[derive(Clone, Copy, Debug, PartialEq, Eq, Structural)]
pub struct Hsv {
    pub hue: u16,
    pub saturation: u8,
    pub value: u8,
}

impl Hsv {
    /// The hue lies on the circle and both scales are at most one hundred
    /// percent.
    pub open spec fn wf(self) -> bool {
        &&& self.hue < FULL_TURN
        &&& self.saturation <= FULL_SCALE
        &&& self.value <= FULL_SCALE
    }
}

} // verus!

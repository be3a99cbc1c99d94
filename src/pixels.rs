use vstd::prelude::*;

verus! {

/// A color with 8-bit red, green, blue and alpha channels.
///
/// A channel `c` stands for the intensity `c / 255`: 0 is none and 255 is full.
#[derive(Clone, Copy, PartialEq, Eq, Structural, Debug)]
pub struct Color {
    pub r: u8,
    pub g: u8,
    pub b: u8,
    pub a: u8,
}

impl Color {
    /// A color from its four channels.
    #[allow(non_snake_case)]
    pub fn RGBA(r: u8, g: u8, b: u8, a: u8) -> (c: Color)
        ensures
            c == (Color { r, g, b, a }),
    {
        Color { r, g, b, a }
    }

    /// An opaque color from its three color channels; alpha is 255.
    #[allow(non_snake_case)]
    pub fn RGB(r: u8, g: u8, b: u8) -> (c: Color)
        ensures
            c == (Color { r, g, b, a: 255 }),
    {
        Color { r, g, b, a: 255 }
    }
}

} // verus!

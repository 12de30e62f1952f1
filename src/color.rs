//! Colours with 8-bit channels.
use vstd::prelude::*;

verus! {

#[derive(Clone, Copy, Debug, Default, PartialEq, Eq, Structural)]
pub struct Color {
    pub r: u8,
    pub g: u8,
    pub b: u8,
    pub a: u8,
}

impl Color {
    pub fn rgba(r: u8, g: u8, b: u8, a: u8) -> (c: Color)
        ensures
            c == (Color { r, g, b, a }),
    {
        Color { r, g, b, a }
    }

    /// An opaque colour.
    pub fn rgb(r: u8, g: u8, b: u8) -> (c: Color)
        ensures
            c == (Color { r, g, b, a: 0xff }),
    {
        Color::rgba(r, g, b, 0xff)
    }

    /// The same colour with alpha `a`.
    pub fn with_a(self, a: u8) -> (c: Color)
        ensures
            c == (Color { a, ..self }),
    {
        let mut c = self;
        c.a = a;
        c
    }
}

} // verus!

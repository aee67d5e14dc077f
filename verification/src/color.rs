//! RGBA colors, held as integer channels.
//!
//! The renderer consumes colors whose channels lie in the unit interval; the
//! library holds each channel as a byte, and a backend maps a channel `c` to
//! the unit interval as `c / 255`.

use vstd::prelude::*;

verus! {

/// An RGBA color. Each channel is a byte; `255` stands for full intensity.
#[derive(Copy, Clone, PartialEq, Eq, Structural, Debug)]
pub struct Color {
    pub red: u8,
    pub green: u8,
    pub blue: u8,
    pub alpha: u8,
}

impl Color {
    /// Builds a color from its four channels.
    pub fn new(red: u8, green: u8, blue: u8, alpha: u8) -> (c: Color)
        ensures
            c == (Color { red, green, blue, alpha }),
    {
        Color { red, green, blue, alpha }
    }
}

} // verus!

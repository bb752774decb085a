//! Finalized 8-bit RGB pixel values.

use vstd::prelude::*;

verus! {

/// A finalized pixel color: one 8-bit value per channel.
#[derive(Debug, Clone, Copy, PartialEq, Eq, Structural)]
pub struct Color {
    pub r: u8,
    pub g: u8,
    pub b: u8,
}

impl Color {
    /// Create a new color from its three channels.
    pub fn new(r: u8, g: u8, b: u8) -> (c: Color)
        ensures
            c == (Color { r, g, b }),
    {
        Color { r, g, b }
    }

    /// The color black.
    pub fn black() -> (c: Color)
        ensures
            c == (Color { r: 0u8, g: 0u8, b: 0u8 }),
    {
        Color::new(0, 0, 0)
    }

    /// The color white.
    pub fn white() -> (c: Color)
        ensures
            c == (Color { r: 255u8, g: 255u8, b: 255u8 }),
    {
        Color::new(255, 255, 255)
    }

    /// The color red.
    pub fn red() -> (c: Color)
        ensures
            c == (Color { r: 255u8, g: 0u8, b: 0u8 }),
    {
        Color::new(255, 0, 0)
    }

    /// The color green.
    pub fn green() -> (c: Color)
        ensures
            c == (Color { r: 0u8, g: 255u8, b: 0u8 }),
    {
        Color::new(0, 255, 0)
    }

    /// The color blue.
    pub fn blue() -> (c: Color)
        ensures
            c == (Color { r: 0u8, g: 0u8, b: 255u8 }),
    {
        Color::new(0, 0, 255)
    }

    /// The black-and-white rendering of this color: every channel is
    /// replaced by the truncated mean of the three channels.
    pub fn bw(&self) -> (c: Color)
        ensures
            c.r == (self.r + self.g + self.b) / 3,
            c.g == c.r,
            c.b == c.r,
    {
        let sum: u16 = self.r as u16 + self.g as u16 + self.b as u16;
        let mean: u8 = (sum / 3) as u8;
        Color { r: mean, g: mean, b: mean }
    }
}

/// Clamp a truncated, gamma-corrected channel value (already scaled to the
/// 8-bit range) into a channel: values below 0 become 0 and values above
/// 255 become 255, rather than wrapping.
pub fn quantize_channel(t: i64) -> (c: u8)
    ensures
        c == if t < 0 {
            0
        } else if t > 255 {
            255
        } else {
            t
        },
{
    if t < 0 {
        0
    } else if t > 255 {
        255
    } else {
        t as u8
    }
}

} // verus!

//! What the game asks a renderer to do, as plain values.

use vstd::prelude::*;

verus! {

/// An opaque colour, by its red, green and blue parts.
#[derive(Clone, Copy, Debug, PartialEq, Eq, Structural)]
pub struct Color {
    pub r: u8,
    pub g: u8,
    pub b: u8,
}

impl Color {
    /// The colour with these parts.
    pub fn from_rgb(r: u8, g: u8, b: u8) -> (color: Color)
        ensures
            color == (Color { r, g, b }),
    {
        Color { r, g, b }
    }
}

/// An upright rectangle: its top left corner and its size, in half pixels.
#[derive(Clone, Copy, Debug, PartialEq, Eq, Structural)]
pub struct Rect {
    pub x: i64,
    pub y: i64,
    pub width: i64,
    pub height: i64,
}

impl Rect {
    /// The rectangle with this corner and this size.
    pub fn new(x: i64, y: i64, width: i64, height: i64) -> (rect: Rect)
        ensures
            rect == (Rect { x, y, width, height }),
    {
        Rect { x, y, width, height }
    }
}

/// One step of painting a frame.
#[derive(Clone, Copy, Debug, PartialEq, Eq, Structural)]
pub enum DrawCommand {
    /// Fill the whole surface with a colour.
    Clear(Color),
    /// Fill a rectangle with a colour.
    FillRect(Rect, Color),
    /// Show what has been painted.
    Present,
}

} // verus!

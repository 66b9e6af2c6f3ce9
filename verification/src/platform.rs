//! The platforms of the level.

use vstd::prelude::*;
use crate::render::{Color, DrawCommand, Rect};

verus! {

/// A platform: a rectangle that is painted and never moves. The avatar does
/// not collide with it.
#[derive(Clone, Copy, Debug)]
pub struct Platform {
    x: i64,
    y: i64,
    width: i64,
    height: i64,
}

impl View for Platform {
    type V = Rect;

    closed spec fn view(&self) -> Rect {
        Rect { x: self.x, y: self.y, width: self.width, height: self.height }
    }
}

impl Platform {
    /// What is painted for the platform: its rectangle, in black.
    pub open spec fn drawn(&self) -> DrawCommand {
        DrawCommand::FillRect(self@, Color { r: 0, g: 0, b: 0 })
    }

    /// The platform with its top left corner at `(x, y)` and this size, in
    /// half pixels.
    pub fn new(x: i64, y: i64, width: i64, height: i64) -> (platform: Platform)
        ensures
            platform@ == (Rect { x, y, width, height }),
    {
        Platform { x, y, width, height }
    }

    /// The platform's rectangle.
    pub fn bounds(&self) -> (rect: Rect)
        ensures
            rect == self@,
    {
        Rect::new(self.x, self.y, self.width, self.height)
    }

    /// The command that paints the platform.
    pub fn draw(&self) -> (command: DrawCommand)
        ensures
            command == self.drawn(),
    {
        DrawCommand::FillRect(
            Rect::new(self.x, self.y, self.width, self.height),
            Color::from_rgb(0, 0, 0),
        )
    }
}

} // verus!

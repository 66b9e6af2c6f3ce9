//! The unit of length and the constants of the game.
//!
//! Gravity adds half a pixel per frame to the avatar's speed, and no length in
//! the game is finer than that. Positions, sizes and speeds are therefore
//! counted in half pixels: a speed is a number of half pixels per frame.

use vstd::prelude::*;

verus! {

/// How many units of length make one pixel.
pub const UNITS_PER_PIXEL: i64 = 2;

/// What a frame in the air adds to the vertical speed: half a pixel per frame.
pub const GRAVITY: i64 = 1;

/// The vertical speed that a jump gives: ten pixels per frame, upwards.
pub const JUMP_VELOCITY: i64 = -10 * UNITS_PER_PIXEL;

/// How far the avatar walks in a frame while a direction is held: five pixels.
pub const MOVE_STEP: i64 = 5 * UNITS_PER_PIXEL;

/// The `y` of an avatar that stands on the floor; `y` grows downwards.
pub const FLOOR_Y: i64 = 540 * UNITS_PER_PIXEL;

/// The avatar's width: fifty pixels.
pub const PLAYER_WIDTH: i64 = 50 * UNITS_PER_PIXEL;

/// The avatar's height: sixty pixels.
pub const PLAYER_HEIGHT: i64 = 60 * UNITS_PER_PIXEL;

/// Where the avatar stands when the game begins: a hundred pixels from the left.
pub const SPAWN_X: i64 = 100 * UNITS_PER_PIXEL;

/// Where the avatar stands when the game begins: on the floor.
pub const SPAWN_Y: i64 = FLOOR_Y;

/// How far a jump rises before the avatar starts to fall: ninety-five pixels.
pub const JUMP_RISE: i64 = 95 * UNITS_PER_PIXEL;

/// The width of the window that the game is made for: eight hundred pixels.
pub const WINDOW_WIDTH: i64 = 800 * UNITS_PER_PIXEL;

/// The height of that window: six hundred pixels.
pub const WINDOW_HEIGHT: i64 = 600 * UNITS_PER_PIXEL;

/// The width of each platform: two hundred pixels.
pub const PLATFORM_WIDTH: i64 = 200 * UNITS_PER_PIXEL;

/// The height of each platform: ten pixels.
pub const PLATFORM_HEIGHT: i64 = 10 * UNITS_PER_PIXEL;

/// The left edge of the lowest platform.
pub const LOW_PLATFORM_X: i64 = 100 * UNITS_PER_PIXEL;

/// The top edge of the lowest platform.
pub const LOW_PLATFORM_Y: i64 = 590 * UNITS_PER_PIXEL;

/// The left edge of the middle platform.
pub const MIDDLE_PLATFORM_X: i64 = 400 * UNITS_PER_PIXEL;

/// The top edge of the middle platform.
pub const MIDDLE_PLATFORM_Y: i64 = 490 * UNITS_PER_PIXEL;

/// The left edge of the highest platform.
pub const HIGH_PLATFORM_X: i64 = 200 * UNITS_PER_PIXEL;

/// The top edge of the highest platform.
pub const HIGH_PLATFORM_Y: i64 = 390 * UNITS_PER_PIXEL;

} // verus!

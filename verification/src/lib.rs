//! A one-screen platform game, without the screen.
//!
//! The crate holds the rules of the game: how the player's avatar falls, jumps
//! and walks, where the platforms stand, and what is painted each frame. It
//! opens no window and reads no keyboard. A driver hands it the keys that are
//! held, as an [`world::InputSnapshot`], and carries out the
//! [`render::DrawCommand`]s that it gets back.
//!
//! Every length is a whole number of half pixels (see [`units`]), so that the
//! arithmetic of the game is exact.

pub mod units;
pub mod render;
pub mod physics;
pub mod player;
pub mod platform;
pub mod world;

//! The rules of the brick-breaking game.

pub mod bricks;
pub mod draw;
pub mod game;
pub mod particles;
pub mod update;

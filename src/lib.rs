//! Physics, control and scoring core of a two-paddle ball game.
//!
//! Every quantity is an integer. Lengths are measured in thousandths of a
//! world unit, time in milliseconds, and velocities in world units per
//! second, which is the same as thousandths of a unit per millisecond: a
//! position advances by exactly `velocity * dt`.
pub mod arena;
pub mod geometry;
pub mod collision;
pub mod game;
pub mod motion;
pub mod paddle;
pub mod score;

pub use game::Game;

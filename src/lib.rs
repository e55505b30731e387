//! A two-player paddle-and-ball arcade game: the simulation core.
//!
//! Lengths are measured in millipixels, velocities in pixels per second,
//! elapsed time in microseconds, and the ball's speed multiplier in tenths.

pub mod geometry;
pub mod bat;
pub mod impact;
pub mod ball;
pub mod game_state;

//! Gameplay core of a 2D side-scrolling platformer: a deterministic,
//! fixed-order, per-tick simulation of sprite-sheet animation playback,
//! the player locomotion state machine that drives it, and camera framing.
//!
//! Time is counted in ticks of 1/120 second and distance in subunits of
//! 1/228 pixel, so that every rate the game uses is a whole number and the
//! whole simulation is exact integer arithmetic.

pub mod animation;
pub mod camera;
pub mod from_component;
pub mod level;
pub mod player;
pub mod units;

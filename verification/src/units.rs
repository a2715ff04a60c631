//! The simulation's units of time and distance.

use vstd::prelude::*;

verus! {

/// Number of simulation time units ("ticks") in one second.  One tick is
/// 1/120 s, so a twelfth, an eighth, a half and a tenth of a second are all
/// whole numbers of ticks.
pub const TICKS_PER_SECOND: u64 = 120;

/// Number of distance units ("subunits") in one world pixel.  With ticks of
/// 1/120 s, a speed of v pixels per second is v * 19 / 10 subunits per tick;
/// 228 = 120 * 19 / 10 makes every speed the game uses a whole number of
/// subunits per tick.
pub const SUBUNITS_PER_PIXEL: i64 = 228;

/// Half of `SUBUNITS_PER_PIXEL`: half a pixel is a whole number of
/// subunits, so midpoints and half-extents of pixel rectangles are exact.
pub const HALF_SUBUNITS_PER_PIXEL: i64 = 114;

/// Largest time step a single simulation tick may take (about 414 days).
/// A bound is needed so that timers and displacements cannot overflow.
pub const MAX_DT: u64 = 0x1_0000_0000;

/// Largest pixel coordinate or level dimension the simulation handles; a
/// machine bound so that conversions to subunits cannot overflow.
pub const MAX_PIXEL_COORD: i64 = 1_000_000;

/// Largest world coordinate, in subunits, the camera handles; a machine
/// bound so that camera arithmetic cannot overflow.
pub const MAX_WORLD_COORD: i64 = 0x4000_0000_0000;

/// A two-dimensional displacement or position, in subunits.
#[derive(Clone, Copy, PartialEq, Eq, Structural, Debug)]
pub struct Vec2 {
    pub x: i64,
    pub y: i64,
}

impl Vec2 {
    pub fn new(x: i64, y: i64) -> (v: Vec2)
        ensures
            v.x == x,
            v.y == y,
    {
        Vec2 { x, y }
    }
}

} // verus!

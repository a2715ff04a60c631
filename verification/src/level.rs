//! Level geometry: the ground strips of the level, given as pixel
//! rectangles, turned into the centre-and-half-extents collider blocks
//! the kinematic controller is built from.

use vstd::prelude::*;
use crate::units::{Vec2, HALF_SUBUNITS_PER_PIXEL, MAX_PIXEL_COORD};

verus! {

/// Marker for the level entity.
#[derive(Clone, Copy, PartialEq, Eq, Structural, Debug)]
pub struct Level;

/// An axis-aligned rectangle between two corner points, in pixels.
#[derive(Clone, Copy, PartialEq, Eq, Structural, Debug)]
pub struct Coordinates {
    pub from: Vec2,
    pub to: Vec2,
}

/// A static collision volume: its centre and half-extents, in subunits.
#[derive(Clone, Copy, PartialEq, Eq, Structural, Debug)]
pub struct ColliderBlock {
    pub translation: Vec2,
    pub half_extents: Vec2,
}

/// The collider a pixel rectangle describes: centred on the rectangle's
/// midpoint, extending half its size each way, in subunits.  Half a pixel
/// is a whole number of subunits, so both are exact.
pub open spec fn block_of(c: Coordinates) -> ColliderBlock {
    ColliderBlock {
        translation: Vec2 {
            x: ((c.from.x + c.to.x) * HALF_SUBUNITS_PER_PIXEL) as i64,
            y: ((c.from.y + c.to.y) * HALF_SUBUNITS_PER_PIXEL) as i64,
        },
        half_extents: Vec2 {
            x: ((if c.to.x >= c.from.x {
                c.to.x - c.from.x
            } else {
                c.from.x - c.to.x
            }) * HALF_SUBUNITS_PER_PIXEL) as i64,
            y: ((if c.to.y >= c.from.y {
                c.to.y - c.from.y
            } else {
                c.from.y - c.to.y
            }) * HALF_SUBUNITS_PER_PIXEL) as i64,
        },
    }
}

/// Bounded pixel coordinates, so the conversion to subunits is exact.
pub open spec fn coordinates_in_range(c: Coordinates) -> bool {
    &&& -MAX_PIXEL_COORD <= c.from.x <= MAX_PIXEL_COORD
    &&& -MAX_PIXEL_COORD <= c.from.y <= MAX_PIXEL_COORD
    &&& -MAX_PIXEL_COORD <= c.to.x <= MAX_PIXEL_COORD
    &&& -MAX_PIXEL_COORD <= c.to.y <= MAX_PIXEL_COORD
}

/// Turn one pixel rectangle into its collider block.
pub fn collider_for(c: &Coordinates) -> (b: ColliderBlock)
    requires
        coordinates_in_range(*c),
    ensures
        b == block_of(*c),
{
    let size_x = if c.to.x >= c.from.x {
        c.to.x - c.from.x
    } else {
        c.from.x - c.to.x
    };
    let size_y = if c.to.y >= c.from.y {
        c.to.y - c.from.y
    } else {
        c.from.y - c.to.y
    };
    ColliderBlock {
        translation: Vec2 {
            x: (c.from.x + c.to.x) * HALF_SUBUNITS_PER_PIXEL,
            y: (c.from.y + c.to.y) * HALF_SUBUNITS_PER_PIXEL,
        },
        half_extents: Vec2 {
            x: size_x * HALF_SUBUNITS_PER_PIXEL,
            y: size_y * HALF_SUBUNITS_PER_PIXEL,
        },
    }
}

/// The ground strips of the level, in pixels, relative to the level's
/// centre.
pub open spec fn level_coordinates() -> Seq<Coordinates> {
    seq![
        Coordinates { from: Vec2 { x: 1026, y: -144i64 }, to: Vec2 { x: 1208, y: -84i64 } },
        Coordinates { from: Vec2 { x: 425, y: -144i64 }, to: Vec2 { x: 892, y: -84i64 } },
        Coordinates { from: Vec2 { x: -46i64, y: -144i64 }, to: Vec2 { x: 331, y: -84i64 } },
        Coordinates { from: Vec2 { x: -1208i64, y: -144i64 }, to: Vec2 { x: -128i64, y: -84i64 } },
    ]
}

/// The ground strips of the level, as a vector.
pub fn ground_coordinates() -> (v: Vec<Coordinates>)
    ensures
        v@ == level_coordinates(),
{
    let mut v: Vec<Coordinates> = Vec::new();
    v.push(Coordinates { from: Vec2 { x: 1026, y: -144 }, to: Vec2 { x: 1208, y: -84 } });
    v.push(Coordinates { from: Vec2 { x: 425, y: -144 }, to: Vec2 { x: 892, y: -84 } });
    v.push(Coordinates { from: Vec2 { x: -46, y: -144 }, to: Vec2 { x: 331, y: -84 } });
    v.push(Coordinates { from: Vec2 { x: -1208, y: -144 }, to: Vec2 { x: -128, y: -84 } });
    proof {
        assert(v@ =~= level_coordinates());
    }
    v
}

/// Build the level's static collision volumes: one collider block per
/// ground strip, in order.
pub fn setup_level() -> (blocks: Vec<ColliderBlock>)
    ensures
        blocks@.len() == level_coordinates().len(),
        forall|i: int|
            0 <= i < blocks@.len() ==> blocks@[i] == block_of(level_coordinates()[i]),
{
    let coords = ground_coordinates();
    let mut blocks: Vec<ColliderBlock> = Vec::new();
    let mut i: usize = 0;
    while i < coords.len()
        invariant
            coords@ == level_coordinates(),
            i <= coords@.len(),
            blocks@.len() == i,
            forall|k: int| 0 <= k < i ==> blocks@[k] == block_of(level_coordinates()[k]),
        decreases coords@.len() - i,
    {
        assert(coordinates_in_range(coords@[i as int]));
        let b = collider_for(&coords[i]);
        blocks.push(b);
        i = i + 1;
    }
    blocks
}

} // verus!

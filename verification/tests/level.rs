use platformer_core::level::{collider_for, ground_coordinates, setup_level, Coordinates};
use platformer_core::units::{Vec2, HALF_SUBUNITS_PER_PIXEL};

#[test]
fn a_collider_sits_at_the_rectangles_midpoint() {
    let c = Coordinates {
        from: Vec2::new(1026, -144),
        to: Vec2::new(1208, -84),
    };
    let b = collider_for(&c);
    // midpoint (1117, -114) px and half size (91, 30) px, in subunits
    assert_eq!(b.translation, Vec2::new(2234 * HALF_SUBUNITS_PER_PIXEL, -228 * HALF_SUBUNITS_PER_PIXEL));
    assert_eq!(b.half_extents, Vec2::new(182 * HALF_SUBUNITS_PER_PIXEL, 60 * HALF_SUBUNITS_PER_PIXEL));
}

#[test]
fn corner_order_does_not_matter() {
    let a = collider_for(&Coordinates { from: Vec2::new(-10, 4), to: Vec2::new(6, -2) });
    let b = collider_for(&Coordinates { from: Vec2::new(6, -2), to: Vec2::new(-10, 4) });
    assert_eq!(a, b);
    assert_eq!(a.translation, Vec2::new(-4 * HALF_SUBUNITS_PER_PIXEL, 2 * HALF_SUBUNITS_PER_PIXEL));
    assert_eq!(a.half_extents, Vec2::new(16 * HALF_SUBUNITS_PER_PIXEL, 6 * HALF_SUBUNITS_PER_PIXEL));
}

#[test]
fn the_level_has_four_ground_strips() {
    let coords = ground_coordinates();
    assert_eq!(coords.len(), 4);
    // every strip spans the same floor band
    for c in &coords {
        assert_eq!(c.from.y, -144);
        assert_eq!(c.to.y, -84);
    }
}

#[test]
fn setup_level_builds_one_collider_per_strip() {
    let blocks = setup_level();
    let coords = ground_coordinates();
    assert_eq!(blocks.len(), 4);
    for (b, c) in blocks.iter().zip(coords.iter()) {
        assert_eq!(*b, collider_for(c));
    }
    // the leftmost strip, spot-checked
    assert_eq!(
        blocks[3].translation,
        Vec2::new(-1336 * HALF_SUBUNITS_PER_PIXEL, -228 * HALF_SUBUNITS_PER_PIXEL)
    );
    assert_eq!(
        blocks[3].half_extents,
        Vec2::new(1080 * HALF_SUBUNITS_PER_PIXEL, 60 * HALF_SUBUNITS_PER_PIXEL)
    );
}

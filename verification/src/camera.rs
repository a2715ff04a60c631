//! Camera framing: fit a fixed logical viewport to the level's pixel
//! bounds, preserving the target aspect ratio, and follow the player with
//! a dead-zone, clamping so the viewport never shows past the level's
//! bounds on the follow axis.  The wide-level branch emits a relative
//! camera-move request for the parallax renderer instead of moving the
//! camera itself.

use vstd::prelude::*;
use vstd::arithmetic::div_mod::{
    lemma_fundamental_div_mod, lemma_mod_division_less_than_divisor,
};
use crate::units::{
    Vec2, HALF_SUBUNITS_PER_PIXEL, MAX_PIXEL_COORD, MAX_WORLD_COORD, SUBUNITS_PER_PIXEL,
};

verus! {

/// Width share of the target 16:9 aspect ratio; also the pixel grid the
/// width-led fit rounds to.
pub const ASPECT_RATIO_WIDTH: i64 = 16;

/// Height share of the target 16:9 aspect ratio; also the pixel grid the
/// height-led fit rounds to.
pub const ASPECT_RATIO_HEIGHT: i64 = 9;

/// Dead-zone half-width, in subunits: the camera follows only once the
/// player's offset from the viewport centre exceeds it.  Zero means
/// always-follow.
pub const THRESHOLD: i64 = 0;

/// A level's size in pixels.
#[derive(Clone, Copy, PartialEq, Eq, Structural, Debug)]
pub struct LevelDims {
    /// Height of the level in pixels.
    pub px_hei: i64,
    /// Width of the level in pixels.
    pub px_wid: i64,
}

/// Relative camera-move request handed to the parallax renderer, which
/// applies its own layer effects on top.
#[derive(Clone, Copy, PartialEq, Eq, Structural, Debug)]
pub struct ParallaxMoveEvent {
    pub camera_move_speed: Vec2,
    pub camera: u64,
}

/// What one framing pass decided: the fixed logical viewport size in
/// pixels, and the camera-move request, if the dead-zone was left.
#[derive(Clone, Copy, PartialEq, Eq, Structural, Debug)]
pub struct CameraUpdate {
    pub width: i64,
    pub height: i64,
    pub move_event: Option<ParallaxMoveEvent>,
}

/// `v` rounded to the nearest multiple of `m`, halves rounding up.
pub open spec fn round_to_multiple(v: int, m: int) -> int {
    ((v + m / 2) / m) * m
}

/// Whether the level is wider than the target aspect ratio.
pub open spec fn is_wider_than_viewport(level: LevelDims) -> bool {
    level.px_wid * ASPECT_RATIO_HEIGHT > level.px_hei * ASPECT_RATIO_WIDTH
}

/// The fixed logical viewport, in pixels: height-led for a level wider
/// than the target ratio (height rounded to the nearest multiple of 9),
/// width-led otherwise (width rounded to the nearest multiple of 16), the
/// other side completing the 16:9 ratio.
pub open spec fn viewport_size_px(level: LevelDims) -> (int, int) {
    if is_wider_than_viewport(level) {
        let h = round_to_multiple(level.px_hei as int, ASPECT_RATIO_HEIGHT as int);
        (h * ASPECT_RATIO_WIDTH / (ASPECT_RATIO_HEIGHT as int), h)
    } else {
        let w = round_to_multiple(level.px_wid as int, ASPECT_RATIO_WIDTH as int);
        (w, w * ASPECT_RATIO_HEIGHT / (ASPECT_RATIO_WIDTH as int))
    }
}

/// `v` clamped into the closed interval from `lo` to `hi`.
pub open spec fn clamp_val(v: int, lo: int, hi: int) -> int {
    if v < lo {
        lo
    } else if v > hi {
        hi
    } else {
        v
    }
}

/// The dead-zone follow of a wide level, as a value: how far the camera
/// is asked to move along x, if at all.  The player's offset from the
/// viewport centre must exceed the threshold; the move is then shortened
/// by the threshold and clamped so the viewport stays inside the level's
/// horizontal bounds.
pub open spec fn wide_follow_move(
    cam_x: int,
    player_x: int,
    width_px: int,
    level: LevelDims,
) -> Option<int> {
    let delta = player_x - cam_x - width_px * HALF_SUBUNITS_PER_PIXEL;
    if (if delta >= 0 {
        delta
    } else {
        -delta
    }) > THRESHOLD {
        let shortened = if delta > 0 {
            delta - THRESHOLD
        } else {
            delta + THRESHOLD
        };
        let lo = -(level.px_wid * HALF_SUBUNITS_PER_PIXEL);
        let hi = level.px_wid * HALF_SUBUNITS_PER_PIXEL - width_px * SUBUNITS_PER_PIXEL;
        let low_clamped = if cam_x + shortened < lo {
            lo - cam_x
        } else {
            shortened
        };
        Some(
            if cam_x + low_clamped > hi {
                hi - cam_x
            } else {
                low_clamped
            },
        )
    } else {
        None
    }
}

/// `v` rounded to the nearest multiple of `m`, halves rounding up.
fn round_to_nearest_multiple(v: u64, m: u64) -> (r: u64)
    requires
        0 < m <= 16,
        v <= MAX_PIXEL_COORD,
    ensures
        r == round_to_multiple(v as int, m as int),
        r <= v + m,
{
    let x = v + m / 2;
    let q = x / m;
    proof {
        lemma_fundamental_div_mod(x as int, m as int);
        lemma_mod_division_less_than_divisor(x as int, m as int);
    }
    q * m
}

/// Whether a framing pass can take this level: a level wider than the
/// target ratio always fits; a taller one only when its width-led
/// viewport is no taller than the level, which near-square levels can
/// fail by the width's rounding.  Callers test this before framing.
pub fn level_frameable(level: &LevelDims) -> (b: bool)
    requires
        0 < level.px_hei <= MAX_PIXEL_COORD,
        0 < level.px_wid <= MAX_PIXEL_COORD,
    ensures
        b == (is_wider_than_viewport(*level) || viewport_size_px(*level).1 <= level.px_hei),
{
    if level.px_wid * ASPECT_RATIO_HEIGHT > level.px_hei * ASPECT_RATIO_WIDTH {
        true
    } else {
        let width_px = round_to_nearest_multiple(level.px_wid as u64, ASPECT_RATIO_WIDTH as u64);
        proof {
            assert(ASPECT_RATIO_WIDTH as u64 == 16);
            assert(ASPECT_RATIO_HEIGHT as u64 == 9);
        }
        let height_px = width_px * (ASPECT_RATIO_HEIGHT as u64) / (ASPECT_RATIO_WIDTH as u64);
        height_px as i64 <= level.px_hei
    }
}

/// One camera framing pass.  Positions are world coordinates in subunits;
/// the level's dimensions are pixels.  For a level wider than the target
/// ratio the camera's y is pinned to the level's vertical centre and a
/// relative x move is emitted for the parallax renderer; for a taller
/// level the camera is moved directly, its y clamped so the viewport
/// stays inside the level, and no move is emitted.  A tick with no player
/// is a no-op for the whole pass and never reaches this function.
pub fn camera_fit_inside_current_level(
    camera: u64,
    camera_transform: &mut Vec2,
    player_translation: Vec2,
    level_translation: Vec2,
    level: &LevelDims,
) -> (r: CameraUpdate)
    requires
        0 < level.px_hei <= MAX_PIXEL_COORD,
        0 < level.px_wid <= MAX_PIXEL_COORD,
        -MAX_WORLD_COORD <= old(camera_transform).x <= MAX_WORLD_COORD,
        -MAX_WORLD_COORD <= player_translation.x <= MAX_WORLD_COORD,
        -MAX_WORLD_COORD <= player_translation.y <= MAX_WORLD_COORD,
        -MAX_WORLD_COORD <= level_translation.y <= MAX_WORLD_COORD,
        !is_wider_than_viewport(*level) ==> viewport_size_px(*level).1 <= level.px_hei,
    ensures
        r.width == viewport_size_px(*level).0,
        r.height == viewport_size_px(*level).1,
        is_wider_than_viewport(*level) ==> final(camera_transform).x == old(camera_transform).x
            && final(camera_transform).y == -(level.px_hei * HALF_SUBUNITS_PER_PIXEL)
            && r.move_event == (match wide_follow_move(
            old(camera_transform).x as int,
            player_translation.x as int,
            viewport_size_px(*level).0,
            *level,
        ) {
            Some(m) => Some(
                ParallaxMoveEvent {
                    camera_move_speed: (Vec2 { x: m as i64, y: 0 }),
                    camera,
                },
            ),
            None => None::<ParallaxMoveEvent>,
        }),
        !is_wider_than_viewport(*level) ==> final(camera_transform).x == 0
            && final(camera_transform).y == clamp_val(
            player_translation.y - level_translation.y - viewport_size_px(*level).1
                * HALF_SUBUNITS_PER_PIXEL,
            0,
            (level.px_hei - viewport_size_px(*level).1) * SUBUNITS_PER_PIXEL,
        ) && r.move_event is None,
{
    if level.px_wid * ASPECT_RATIO_HEIGHT > level.px_hei * ASPECT_RATIO_WIDTH {
        // level is wider than the screen
        let height_px = round_to_nearest_multiple(
            level.px_hei as u64,
            ASPECT_RATIO_HEIGHT as u64,
        );
        proof {
            assert(ASPECT_RATIO_WIDTH as u64 == 16);
            assert(ASPECT_RATIO_HEIGHT as u64 == 9);
        }
        let width_px = height_px * (ASPECT_RATIO_WIDTH as u64) / (ASPECT_RATIO_HEIGHT as u64);
        camera_transform.y = -(level.px_hei * HALF_SUBUNITS_PER_PIXEL);
        let width = width_px as i64;
        let delta = player_translation.x - camera_transform.x - width
            * HALF_SUBUNITS_PER_PIXEL;
        let magnitude = if delta >= 0 {
            delta
        } else {
            -delta
        };
        let move_event = if magnitude > THRESHOLD {
            let mut move_by = if delta > 0 {
                delta - THRESHOLD
            } else {
                delta + THRESHOLD
            };
            if camera_transform.x + move_by < -(level.px_wid * HALF_SUBUNITS_PER_PIXEL) {
                move_by = -(level.px_wid * HALF_SUBUNITS_PER_PIXEL) - camera_transform.x;
            }
            if camera_transform.x + move_by > level.px_wid * HALF_SUBUNITS_PER_PIXEL - width
                * SUBUNITS_PER_PIXEL {
                move_by = level.px_wid * HALF_SUBUNITS_PER_PIXEL - width * SUBUNITS_PER_PIXEL
                    - camera_transform.x;
            }
            Some(
                ParallaxMoveEvent {
                    camera_move_speed: Vec2 { x: move_by, y: 0 },
                    camera,
                },
            )
        } else {
            None
        };
        CameraUpdate { width, height: height_px as i64, move_event }
    } else {
        // level is taller than the screen
        let width_px = round_to_nearest_multiple(level.px_wid as u64, ASPECT_RATIO_WIDTH as u64);
        proof {
            assert(ASPECT_RATIO_WIDTH as u64 == 16);
            assert(ASPECT_RATIO_HEIGHT as u64 == 9);
        }
        let height_px = width_px * (ASPECT_RATIO_HEIGHT as u64) / (ASPECT_RATIO_WIDTH as u64);
        let height = height_px as i64;
        let target = player_translation.y - level_translation.y - height
            * HALF_SUBUNITS_PER_PIXEL;
        let hi = (level.px_hei - height) * SUBUNITS_PER_PIXEL;
        camera_transform.y = if target < 0 {
            0
        } else if target > hi {
            hi
        } else {
            target
        };
        camera_transform.x = 0;
        CameraUpdate { width: width_px as i64, height, move_event: None }
    }
}

} // verus!

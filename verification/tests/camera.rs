use platformer_core::camera::{
    camera_fit_inside_current_level, CameraUpdate, LevelDims, ParallaxMoveEvent,
};
use platformer_core::units::{Vec2, SUBUNITS_PER_PIXEL};

const CAMERA: u64 = 42;

fn px(v: i64) -> i64 {
    v * SUBUNITS_PER_PIXEL
}

fn fit(cam: &mut Vec2, player: Vec2, level: LevelDims) -> CameraUpdate {
    camera_fit_inside_current_level(CAMERA, cam, player, Vec2::new(0, 0), &level)
}

#[test]
fn a_wide_level_gets_a_height_led_viewport() {
    // 2416 x 288 is wider than 16:9: the height leads, rounded to a
    // multiple of 9, and the width completes the ratio
    let mut cam = Vec2::new(0, 0);
    let r = fit(&mut cam, Vec2::new(0, 0), LevelDims { px_hei: 288, px_wid: 2416 });
    assert_eq!(r.height, 288);
    assert_eq!(r.width, 512);
    // the camera is pinned to the level's vertical centre
    assert_eq!(cam.y, -px(288) / 2);
}

#[test]
fn a_wide_level_follows_the_player_horizontally() {
    let mut cam = Vec2::new(0, 0);
    let r = fit(
        &mut cam,
        Vec2::new(px(512), 0),
        LevelDims { px_hei: 288, px_wid: 2416 },
    );
    // the viewport is 512 px wide, so its centre sits 256 px right of the
    // camera; the move closes exactly the player's offset from it
    let expected = px(512) - px(256);
    assert_eq!(
        r.move_event,
        Some(ParallaxMoveEvent {
            camera_move_speed: Vec2::new(expected, 0),
            camera: CAMERA,
        })
    );
    // the camera's own x is left to the parallax renderer
    assert_eq!(cam.x, 0);
}

#[test]
fn a_player_at_the_viewport_centre_moves_nothing() {
    let mut cam = Vec2::new(0, 0);
    let r = fit(
        &mut cam,
        Vec2::new(px(256), 0),
        LevelDims { px_hei: 288, px_wid: 2416 },
    );
    assert_eq!(r.move_event, None);
}

#[test]
fn the_follow_clamps_at_the_levels_right_edge() {
    let mut cam = Vec2::new(0, 0);
    let r = fit(
        &mut cam,
        Vec2::new(px(10_000), 0),
        LevelDims { px_hei: 288, px_wid: 2416 },
    );
    // the viewport may not show past half the level's width
    let expected = px(2416) / 2 - px(512);
    assert_eq!(
        r.move_event,
        Some(ParallaxMoveEvent {
            camera_move_speed: Vec2::new(expected, 0),
            camera: CAMERA,
        })
    );
}

#[test]
fn the_follow_clamps_at_the_levels_left_edge() {
    let mut cam = Vec2::new(0, 0);
    let r = fit(
        &mut cam,
        Vec2::new(px(-10_000), 0),
        LevelDims { px_hei: 288, px_wid: 2416 },
    );
    let expected = -px(2416) / 2;
    assert_eq!(
        r.move_event,
        Some(ParallaxMoveEvent {
            camera_move_speed: Vec2::new(expected, 0),
            camera: CAMERA,
        })
    );
}

#[test]
fn a_tall_level_gets_a_width_led_viewport() {
    // 160 x 288 is taller than 16:9: the width leads, rounded to a
    // multiple of 16
    let mut cam = Vec2::new(33, 44);
    let r = fit(&mut cam, Vec2::new(0, 0), LevelDims { px_hei: 288, px_wid: 160 });
    assert_eq!(r.width, 160);
    assert_eq!(r.height, 90);
    assert_eq!(r.move_event, None);
    assert_eq!(cam.x, 0);
    // the player at the origin pushes the camera to the level's bottom
    assert_eq!(cam.y, 0);
}

#[test]
fn a_tall_level_clamps_the_camera_to_the_top() {
    let mut cam = Vec2::new(0, 0);
    let r = fit(
        &mut cam,
        Vec2::new(0, px(1_000)),
        LevelDims { px_hei: 288, px_wid: 160 },
    );
    assert_eq!(r.height, 90);
    assert_eq!(cam.y, px(288 - 90));
}

#[test]
fn a_tall_level_follows_the_player_between_the_clamps() {
    let mut cam = Vec2::new(0, 0);
    fit(
        &mut cam,
        Vec2::new(0, px(100)),
        LevelDims { px_hei: 288, px_wid: 160 },
    );
    // the camera frames the player half a viewport below
    assert_eq!(cam.y, px(100) - px(90) / 2);
}

#[test]
fn viewport_rounding_goes_to_the_nearest_grid_step() {
    // 100 rounds to 96 on the 16-grid
    let mut cam = Vec2::new(0, 0);
    let r = fit(&mut cam, Vec2::new(0, 0), LevelDims { px_hei: 288, px_wid: 100 });
    assert_eq!(r.width, 96);
    assert_eq!(r.height, 54);
    // 100 rounds to 99 on the 9-grid
    let r = fit(&mut cam, Vec2::new(0, 0), LevelDims { px_hei: 100, px_wid: 2416 });
    assert_eq!(r.height, 99);
    assert_eq!(r.width, 176);
}

use platformer_core::animation::{
    advance_sprites, set_initial_sprite_index, sprite_sheet_animation, AnimatedSprite,
    AnimationEvent, PlaybackState, SpriteSheetAnimation,
};

fn idle_clip() -> SpriteSheetAnimation {
    // indices [5, 20), one frame per 1/12 s (10 ticks), looping
    SpriteSheetAnimation::new(5, 20, 10, true)
}

fn falling_clip() -> SpriteSheetAnimation {
    // indices [20, 22), one frame per 1/2 s (60 ticks), play once
    SpriteSheetAnimation::new(20, 22, 60, false)
}

#[test]
fn fresh_playback_starts_at_clip_start() {
    let ps = PlaybackState::fresh(idle_clip());
    assert_eq!(ps.current_frame, 5);
    assert_eq!(ps.frame_timer, 0);
    assert!(!ps.finished);
}

#[test]
fn zero_dt_never_moves_the_frame() {
    let mut ps = PlaybackState::fresh(idle_clip());
    for _ in 0..10 {
        let ev = sprite_sheet_animation(1, &mut ps, 0);
        assert_eq!(ps.current_frame, 5);
        assert!(ev.is_none());
    }
    // also from the middle of a period
    let ev = sprite_sheet_animation(1, &mut ps, 7);
    assert!(ev.is_none());
    let before = ps.current_frame;
    sprite_sheet_animation(1, &mut ps, 0);
    assert_eq!(ps.current_frame, before);
}

#[test]
fn sub_period_dt_accumulates_before_advancing() {
    let mut ps = PlaybackState::fresh(idle_clip());
    sprite_sheet_animation(1, &mut ps, 7);
    assert_eq!(ps.current_frame, 5);
    assert_eq!(ps.frame_timer, 7);
    sprite_sheet_animation(1, &mut ps, 7);
    assert_eq!(ps.current_frame, 6);
    assert_eq!(ps.frame_timer, 4);
}

#[test]
fn large_dt_advances_at_most_one_frame() {
    let mut ps = PlaybackState::fresh(idle_clip());
    // five full periods in one tick still move the frame only once
    sprite_sheet_animation(1, &mut ps, 50);
    assert_eq!(ps.current_frame, 6);
    assert_eq!(ps.frame_timer, 0);
}

#[test]
fn idle_clip_walks_its_range_and_wraps_once() {
    // the idle clip at its own frame rate: fifteen ticks of 1/12 s walk
    // the frame from 5 through 19 and wrap it back to 5
    let mut ps = PlaybackState::fresh(idle_clip());
    let mut seen = Vec::new();
    for _ in 0..15 {
        let ev = sprite_sheet_animation(1, &mut ps, 10);
        assert!(ev.is_none());
        seen.push(ps.current_frame);
    }
    let expected: Vec<usize> =
        (6..20).chain([5]).collect();
    assert_eq!(seen, expected);
    assert_eq!(ps.current_frame, 5);
}

#[test]
fn play_once_clip_clamps_and_reports_exactly_once() {
    let mut ps = PlaybackState::fresh(falling_clip());
    let ev = sprite_sheet_animation(9, &mut ps, 60);
    assert!(ev.is_none());
    assert_eq!(ps.current_frame, 21);
    // exhaustion: the frame stays at end - 1 and the event goes out once
    let ev = sprite_sheet_animation(9, &mut ps, 60);
    assert_eq!(ev, Some(AnimationEvent::Finished(9)));
    assert_eq!(ps.current_frame, 21);
    // further ticks never move it and never report again
    for _ in 0..5 {
        let ev = sprite_sheet_animation(9, &mut ps, 60);
        assert!(ev.is_none());
        assert_eq!(ps.current_frame, 21);
    }
}

#[test]
fn snap_leaves_a_frame_inside_the_range() {
    let mut ps = PlaybackState::fresh(idle_clip());
    ps.current_frame = 12;
    set_initial_sprite_index(&mut ps);
    assert_eq!(ps.current_frame, 12);
}

#[test]
fn snap_moves_a_drifted_frame_to_the_start() {
    let mut ps = PlaybackState::fresh(idle_clip());
    ps.current_frame = 3;
    set_initial_sprite_index(&mut ps);
    assert_eq!(ps.current_frame, 5);
    ps.current_frame = 21;
    set_initial_sprite_index(&mut ps);
    assert_eq!(ps.current_frame, 5);
}

#[test]
fn snap_tolerates_a_frame_at_the_closed_end() {
    // the corrective pass checks the closed range, so a frame equal to
    // the exclusive end is left where it is
    let mut ps = PlaybackState::fresh(idle_clip());
    ps.current_frame = 20;
    set_initial_sprite_index(&mut ps);
    assert_eq!(ps.current_frame, 20);
}

#[test]
fn advance_sprites_collects_events_in_entity_order() {
    let mut finished = PlaybackState::fresh(falling_clip());
    finished.current_frame = 21;
    let mut world = vec![
        AnimatedSprite { entity: 3, playback: finished },
        AnimatedSprite { entity: 7, playback: PlaybackState::fresh(idle_clip()) },
        AnimatedSprite { entity: 11, playback: finished },
    ];
    let events = advance_sprites(&mut world, 60);
    assert_eq!(
        events,
        vec![AnimationEvent::Finished(3), AnimationEvent::Finished(11)]
    );
    assert_eq!(world[0].playback.current_frame, 21);
    assert_eq!(world[1].playback.current_frame, 6);
    assert_eq!(world[2].playback.current_frame, 21);
}

#[test]
fn advance_sprites_on_empty_world_reports_nothing() {
    let mut world: Vec<AnimatedSprite> = Vec::new();
    let events = advance_sprites(&mut world, 60);
    assert!(events.is_empty());
}

use platformer_core::animation::{
    sprite_sheet_animation, AnimationEvent, PlaybackState, SpriteSheetAnimation,
};
use platformer_core::from_component::{
    animation_finisher, on_animation_finished, on_state_changed, BoundAnimation, ClipSource,
};
use platformer_core::player::PlayerAnimationState;

#[test]
fn state_clips_match_the_sprite_sheet() {
    assert_eq!(
        PlayerAnimationState::Idle.to_clip(),
        SpriteSheetAnimation::new(5, 20, 10, true)
    );
    assert_eq!(
        PlayerAnimationState::Running.to_clip(),
        SpriteSheetAnimation::new(28, 34, 10, true)
    );
    assert_eq!(
        PlayerAnimationState::Falling.to_clip(),
        SpriteSheetAnimation::new(20, 22, 60, false)
    );
    assert_eq!(
        PlayerAnimationState::Jump.to_clip(),
        SpriteSheetAnimation::new(26, 28, 60, false)
    );
    assert_eq!(
        PlayerAnimationState::Attack.to_clip(),
        SpriteSheetAnimation::new(0, 5, 15, false)
    );
}

#[test]
fn successor_states_cycle() {
    assert_eq!(PlayerAnimationState::Idle.next_state(), PlayerAnimationState::Running);
    assert_eq!(PlayerAnimationState::Running.next_state(), PlayerAnimationState::Falling);
    assert_eq!(PlayerAnimationState::Falling.next_state(), PlayerAnimationState::Jump);
    assert_eq!(PlayerAnimationState::Jump.next_state(), PlayerAnimationState::Attack);
    assert_eq!(PlayerAnimationState::Attack.next_state(), PlayerAnimationState::Idle);
}

#[test]
fn changing_state_installs_the_new_clip_at_its_first_frame() {
    // a state change lands on the new clip's first frame in the same tick
    let mut bound = PlayerAnimationState::Idle;
    let mut playback = PlaybackState::fresh(bound.to_clip());
    playback.current_frame = 17;
    let changed = on_state_changed(&PlayerAnimationState::Attack, &mut bound, &mut playback);
    assert!(changed);
    assert_eq!(bound, PlayerAnimationState::Attack);
    assert_eq!(playback.clip, PlayerAnimationState::Attack.to_clip());
    assert_eq!(playback.current_frame, 0);
    assert_eq!(playback.frame_timer, 0);
    assert!(!playback.finished);
}

#[test]
fn unchanged_state_leaves_playback_alone() {
    let mut bound = PlayerAnimationState::Running;
    let mut playback = PlaybackState::fresh(bound.to_clip());
    playback.current_frame = 30;
    playback.frame_timer = 4;
    let changed = on_state_changed(&PlayerAnimationState::Running, &mut bound, &mut playback);
    assert!(!changed);
    assert_eq!(playback.current_frame, 30);
    assert_eq!(playback.frame_timer, 4);
}

#[test]
fn finishing_advances_to_the_successor_clip() {
    let mut state = PlayerAnimationState::Attack;
    let mut playback = PlaybackState::fresh(state.to_clip());
    playback.current_frame = 4;
    on_animation_finished(&mut state, &mut playback);
    assert_eq!(state, PlayerAnimationState::Idle);
    assert_eq!(playback.clip, PlayerAnimationState::Idle.to_clip());
    assert_eq!(playback.current_frame, 5);
}

#[test]
fn attack_exhaustion_hands_over_to_the_successor() {
    // semantic sequence: Idle, then Attack, then the attack clip plays
    // once through, and the finish moves the state to Attack's successor,
    // the playback frame reset to the successor clip's start each time
    let mut bound = PlayerAnimationState::Idle;
    let mut playback = PlaybackState::fresh(bound.to_clip());
    on_state_changed(&PlayerAnimationState::Attack, &mut bound, &mut playback);
    assert_eq!(playback.current_frame, 0);

    let mut event = None;
    for _ in 0..6 {
        if let Some(e) = sprite_sheet_animation(1, &mut playback, 15) {
            event = Some(e);
        }
    }
    assert_eq!(event, Some(AnimationEvent::Finished(1)));
    assert_eq!(playback.current_frame, 4);

    on_animation_finished(&mut bound, &mut playback);
    assert_eq!(bound, PlayerAnimationState::Attack.next_state());
    assert_eq!(playback.current_frame, bound.to_clip().start);
}

#[test]
fn drain_rebinds_each_finished_entity() {
    let mut world = vec![
        BoundAnimation {
            entity: 1,
            state: PlayerAnimationState::Attack,
            playback: PlaybackState::fresh(PlayerAnimationState::Attack.to_clip()),
        },
        BoundAnimation {
            entity: 2,
            state: PlayerAnimationState::Idle,
            playback: PlaybackState::fresh(PlayerAnimationState::Idle.to_clip()),
        },
    ];
    let events = vec![AnimationEvent::Finished(1)];
    animation_finisher(&events, &mut world);
    assert_eq!(world[0].state, PlayerAnimationState::Idle);
    assert_eq!(world[0].playback.current_frame, 5);
    assert_eq!(world[1].state, PlayerAnimationState::Idle);
    assert_eq!(world[1].playback.current_frame, 5);
}

#[test]
fn drain_handles_each_entity_at_most_once_per_tick() {
    let mut world = vec![BoundAnimation {
        entity: 1,
        state: PlayerAnimationState::Attack,
        playback: PlaybackState::fresh(PlayerAnimationState::Attack.to_clip()),
    }];
    // two notifications for the same entity in one tick: the successor is
    // taken once, not twice
    let events = vec![AnimationEvent::Finished(1), AnimationEvent::Finished(1)];
    animation_finisher(&events, &mut world);
    assert_eq!(world[0].state, PlayerAnimationState::Idle);
}

#[test]
fn drain_ignores_a_stale_entity_silently() {
    let mut world = vec![BoundAnimation {
        entity: 2,
        state: PlayerAnimationState::Jump,
        playback: PlaybackState::fresh(PlayerAnimationState::Jump.to_clip()),
    }];
    let events = vec![AnimationEvent::Finished(99)];
    animation_finisher(&events, &mut world);
    assert_eq!(world[0].state, PlayerAnimationState::Jump);
}

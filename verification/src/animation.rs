//! Sprite-sheet animation playback: clips, per-entity playback state, the
//! per-tick frame advance, and the corrective snap after a clip swap.

use vstd::prelude::*;
use vstd::arithmetic::div_mod::{
    lemma_mod_division_less_than_divisor, lemma_small_mod, lemma_mod_add_multiples_vanish,
};
use vstd::arithmetic::mul::{lemma_mul_is_distributive_add_other_way, lemma_mul_inequality};
use crate::units::MAX_DT;

verus! {

/// Immutable description of one animation clip: the half-open range of
/// sprite-sheet frame indices it plays, how long each frame stays on
/// screen, and whether the clip loops.
#[derive(Clone, Copy, PartialEq, Eq, Structural, Debug)]
pub struct SpriteSheetAnimation {
    /// First frame index of the clip (inclusive).
    pub start: usize,
    /// One past the last frame index of the clip (exclusive).
    pub end: usize,
    /// Ticks each frame stays on screen; the clip's period.
    pub frame_duration: u64,
    /// True for a looping clip, false for a play-once clip.
    pub repeat: bool,
}

impl SpriteSheetAnimation {
    /// A clip is well formed when it has at least one frame and a positive,
    /// bounded period.
    pub open spec fn wf(self) -> bool {
        &&& self.start < self.end
        &&& 0 < self.frame_duration <= MAX_DT
    }

    /// Number of frames in the clip.
    pub open spec fn frame_count(self) -> int {
        self.end - self.start
    }

    pub fn new(start: usize, end: usize, frame_duration: u64, repeat: bool) -> (c: SpriteSheetAnimation)
        requires
            start < end,
            0 < frame_duration <= MAX_DT,
        ensures
            c == (SpriteSheetAnimation { start, end, frame_duration, repeat }),
            c.wf(),
    {
        SpriteSheetAnimation { start, end, frame_duration, repeat }
    }
}

/// Mutable per-entity playback record: the active clip, the time
/// accumulated toward the next frame advance, the frame currently
/// displayed, and whether the finish notification for a play-once clip
/// has already gone out.
#[derive(Clone, Copy, PartialEq, Eq, Structural, Debug)]
pub struct PlaybackState {
    pub clip: SpriteSheetAnimation,
    /// Ticks accumulated toward the next frame advance; always below the
    /// clip's period.
    pub frame_timer: u64,
    /// Sprite-sheet frame index currently displayed.
    pub current_frame: usize,
    /// True once the finish notification for a play-once clip went out;
    /// it is never re-emitted while the frame stays clamped.
    pub finished: bool,
}

impl PlaybackState {
    /// Well-formedness: the clip is well formed, the displayed frame has
    /// not drifted outside the clip's range, and the timer is inside one
    /// period.
    pub open spec fn wf(self) -> bool {
        &&& self.clip.wf()
        &&& self.clip.start <= self.current_frame <= self.clip.end
        &&& self.frame_timer < self.clip.frame_duration
    }

    /// Playback as freshly installed for a clip: timer reset, the clip's
    /// first frame displayed, no finish notification out yet.
    pub open spec fn spec_fresh(clip: SpriteSheetAnimation) -> PlaybackState {
        PlaybackState { clip, frame_timer: 0, current_frame: clip.start, finished: false }
    }

    pub fn fresh(clip: SpriteSheetAnimation) -> (ps: PlaybackState)
        requires
            clip.wf(),
        ensures
            ps == PlaybackState::spec_fresh(clip),
            ps.wf(),
    {
        PlaybackState { clip, frame_timer: 0, current_frame: clip.start, finished: false }
    }
}

/// Notification that an entity's play-once clip has shown its last frame.
#[derive(Clone, Copy, PartialEq, Eq, Structural, Debug, Hash)]
pub enum AnimationEvent {
    Finished(u64),
}

/// One tick of playback on one entity.  The timer grows by `dt`; when it
/// crosses the period it wraps and the frame advances once (never more,
/// however large `dt` is).  A frame advance past the end of the range wraps
/// a looping clip to its first frame, and clamps a play-once clip to its
/// last frame, reporting the exhaustion the first time it happens.
pub open spec fn advance_spec(ps: PlaybackState, dt: u64) -> (PlaybackState, bool) {
    let t = ps.frame_timer + dt;
    let d = ps.clip.frame_duration as int;
    if t < d {
        (
            PlaybackState {
                clip: ps.clip,
                frame_timer: t as u64,
                current_frame: ps.current_frame,
                finished: ps.finished,
            },
            false,
        )
    } else {
        let timer = (t % d) as u64;
        if ps.current_frame + 1 < ps.clip.end {
            (
                PlaybackState {
                    clip: ps.clip,
                    frame_timer: timer,
                    current_frame: (ps.current_frame + 1) as usize,
                    finished: ps.finished,
                },
                false,
            )
        } else if ps.clip.repeat {
            (
                PlaybackState {
                    clip: ps.clip,
                    frame_timer: timer,
                    current_frame: ps.clip.start,
                    finished: ps.finished,
                },
                false,
            )
        } else {
            (
                PlaybackState {
                    clip: ps.clip,
                    frame_timer: timer,
                    current_frame: (ps.clip.end - 1) as usize,
                    finished: true,
                },
                !ps.finished,
            )
        }
    }
}

/// Advance one entity's playback by `dt` ticks and report the finish
/// notification, if this tick produced one.  The displayed frame never
/// moves when `dt` is zero, and a play-once clip's exhaustion is reported
/// exactly once, on the tick the frame first reaches past the range's end.
pub fn sprite_sheet_animation(entity: u64, sprite: &mut PlaybackState, dt: u64) -> (event: Option<
    AnimationEvent,
>)
    requires
        old(sprite).wf(),
        dt <= MAX_DT,
    ensures
        *final(sprite) == advance_spec(*old(sprite), dt).0,
        (event is Some) == advance_spec(*old(sprite), dt).1,
        event is Some ==> event == Some(AnimationEvent::Finished(entity)),
        final(sprite).wf(),
        final(sprite).clip == old(sprite).clip,
        dt == 0 ==> final(sprite).current_frame == old(sprite).current_frame,
{
    let t = sprite.frame_timer + dt;
    if t < sprite.clip.frame_duration {
        sprite.frame_timer = t;
        None
    } else {
        sprite.frame_timer = t % sprite.clip.frame_duration;
        if sprite.current_frame < sprite.clip.end - 1 {
            sprite.current_frame = sprite.current_frame + 1;
            None
        } else if sprite.clip.repeat {
            sprite.current_frame = sprite.clip.start;
            None
        } else {
            sprite.current_frame = sprite.clip.end - 1;
            if !sprite.finished {
                sprite.finished = true;
                Some(AnimationEvent::Finished(entity))
            } else {
                None
            }
        }
    }
}

/// Corrective pass after a clip swap: if the displayed frame has drifted
/// outside the new clip's closed range, snap it to the clip's first frame;
/// a frame still inside the range is left where it is.
pub fn set_initial_sprite_index(sprite: &mut PlaybackState)
    requires
        old(sprite).clip.wf(),
        old(sprite).frame_timer < old(sprite).clip.frame_duration,
    ensures
        final(sprite).clip == old(sprite).clip,
        final(sprite).frame_timer == old(sprite).frame_timer,
        final(sprite).finished == old(sprite).finished,
        final(sprite).current_frame == if old(sprite).clip.start <= old(sprite).current_frame
            <= old(sprite).clip.end {
            old(sprite).current_frame
        } else {
            old(sprite).clip.start
        },
        final(sprite).wf(),
{
    if sprite.current_frame < sprite.clip.start || sprite.current_frame > sprite.clip.end {
        sprite.current_frame = sprite.clip.start;
    }
}

/// One animated entity: its identifier and its playback.
#[derive(Clone, Copy, PartialEq, Eq, Structural, Debug)]
pub struct AnimatedSprite {
    pub entity: u64,
    pub playback: PlaybackState,
}

/// The finish notifications one tick produces over a set of animated
/// entities, in entity order.
pub open spec fn finished_events(sprites: Seq<AnimatedSprite>, dt: u64) -> Seq<AnimationEvent>
    decreases sprites.len(),
{
    if sprites.len() == 0 {
        Seq::empty()
    } else {
        (if advance_spec(sprites[0].playback, dt).1 {
            seq![AnimationEvent::Finished(sprites[0].entity)]
        } else {
            Seq::<AnimationEvent>::empty()
        }) + finished_events(sprites.drop_first(), dt)
    }
}

/// Appending one entity appends its notification, if any.
proof fn lemma_finished_events_push(sprites: Seq<AnimatedSprite>, s: AnimatedSprite, dt: u64)
    ensures
        finished_events(sprites.push(s), dt) == finished_events(sprites, dt) + (if advance_spec(
            s.playback,
            dt,
        ).1 {
            seq![AnimationEvent::Finished(s.entity)]
        } else {
            Seq::<AnimationEvent>::empty()
        }),
    decreases sprites.len(),
{
    let whole = sprites.push(s);
    let tail = (if advance_spec(s.playback, dt).1 {
        seq![AnimationEvent::Finished(s.entity)]
    } else {
        Seq::<AnimationEvent>::empty()
    });
    assert(whole[0] == if sprites.len() == 0 {
        s
    } else {
        sprites[0]
    });
    if sprites.len() == 0 {
        assert(whole.drop_first() =~= Seq::<AnimatedSprite>::empty());
        assert(finished_events(Seq::<AnimatedSprite>::empty(), dt) == Seq::<
            AnimationEvent,
        >::empty());
        assert(finished_events(whole, dt) =~= finished_events(sprites, dt) + tail);
    } else {
        assert(whole.drop_first() =~= sprites.drop_first().push(s));
        lemma_finished_events_push(sprites.drop_first(), s, dt);
        assert(finished_events(whole, dt) =~= finished_events(sprites, dt) + tail);
    }
}

/// One tick of playback over every animated entity, in order: each
/// playback advances once, and the finish notifications are collected in
/// entity order for this tick's drain.
pub fn advance_sprites(sprites: &mut Vec<AnimatedSprite>, dt: u64) -> (events: Vec<AnimationEvent>)
    requires
        dt <= MAX_DT,
        forall|i: int| 0 <= i < old(sprites)@.len() ==> old(sprites)@[i].playback.wf(),
    ensures
        final(sprites)@.len() == old(sprites)@.len(),
        forall|i: int|
            0 <= i < old(sprites)@.len() ==> final(sprites)@[i].entity == old(sprites)@[i].entity
                && final(sprites)@[i].playback == advance_spec(old(sprites)@[i].playback, dt).0
                && final(sprites)@[i].playback.wf(),
        events@ == finished_events(old(sprites)@, dt),
{
    let ghost orig = sprites@;
    let mut events: Vec<AnimationEvent> = Vec::new();
    let mut i: usize = 0;
    while i < sprites.len()
        invariant
            dt <= MAX_DT,
            i <= orig.len(),
            sprites@.len() == orig.len(),
            forall|k: int| 0 <= k < orig.len() ==> orig[k].playback.wf(),
            forall|k: int| i <= k < orig.len() ==> sprites@[k] == orig[k],
            forall|k: int|
                0 <= k < i ==> sprites@[k].entity == orig[k].entity && sprites@[k].playback
                    == advance_spec(orig[k].playback, dt).0 && sprites@[k].playback.wf(),
            events@ == finished_events(orig.take(i as int), dt),
        decreases orig.len() - i,
    {
        let mut s = sprites[i];
        proof {
            assert(sprites@[i as int] == orig[i as int]);
        }
        let ev = sprite_sheet_animation(s.entity, &mut s.playback, dt);
        sprites.set(i, s);
        match ev {
            Some(e) => events.push(e),
            None => {},
        }
        proof {
            assert(orig.take(i + 1 as int) =~= orig.take(i as int).push(orig[i as int]));
            lemma_finished_events_push(orig.take(i as int), orig[i as int], dt);
        }
        i = i + 1;
    }
    proof {
        assert(orig.take(orig.len() as int) =~= orig);
    }
    events
}

/// Advancing playback keeps it well formed and never touches the clip.
pub proof fn lemma_advance_preserves_wf(ps: PlaybackState, dt: u64)
    requires
        ps.wf(),
    ensures
        advance_spec(ps, dt).0.wf(),
        advance_spec(ps, dt).0.clip == ps.clip,
{
    let d = ps.clip.frame_duration as int;
    lemma_mod_division_less_than_divisor(ps.frame_timer + dt, d);
}

/// Ticks of a whole sequence of time steps, added up.
pub open spec fn total_time(dts: Seq<u64>) -> int
    decreases dts.len(),
{
    if dts.len() == 0 {
        0
    } else {
        dts[0] + total_time(dts.drop_first())
    }
}

/// Playback after a whole sequence of ticks.
pub open spec fn run_advances(ps: PlaybackState, dts: Seq<u64>) -> PlaybackState
    decreases dts.len(),
{
    if dts.len() == 0 {
        ps
    } else {
        run_advances(advance_spec(ps, dts[0]).0, dts.drop_first())
    }
}

/// Number of finish notifications a sequence of ticks produces.
pub open spec fn finish_count(ps: PlaybackState, dts: Seq<u64>) -> int
    decreases dts.len(),
{
    if dts.len() == 0 {
        0
    } else {
        (if advance_spec(ps, dts[0]).1 {
            1int
        } else {
            0int
        }) + finish_count(advance_spec(ps, dts[0]).0, dts.drop_first())
    }
}

/// Number of timer expiries a sequence of ticks produces when each tick is
/// no longer than the period `d`, starting from an accumulated time `t`.
pub open spec fn fire_count(t: int, dts: Seq<u64>, d: int) -> int
    decreases dts.len(),
{
    if dts.len() == 0 {
        0
    } else if t + dts[0] >= d {
        1 + fire_count(t + dts[0] - d, dts.drop_first(), d)
    } else {
        fire_count(t + dts[0], dts.drop_first(), d)
    }
}

/// On a looping clip, each timer expiry moves the displayed frame one step
/// around the cycle, so after any sequence of ticks (each at most one
/// period long) the frame offset is the old offset plus the number of
/// expiries, modulo the frame count.
proof fn lemma_run_looping_offsets(ps: PlaybackState, dts: Seq<u64>)
    requires
        ps.wf(),
        ps.clip.repeat,
        ps.current_frame < ps.clip.end,
        forall|i: int| 0 <= i < dts.len() ==> dts[i] <= ps.clip.frame_duration,
    ensures
        ({
            let r = run_advances(ps, dts);
            let d = ps.clip.frame_duration as int;
            let fires = fire_count(ps.frame_timer as int, dts, d);
            &&& r.clip == ps.clip
            &&& r.frame_timer == ps.frame_timer + total_time(dts) - fires * d
            &&& r.current_frame - ps.clip.start == ((ps.current_frame - ps.clip.start) + fires)
                % ps.clip.frame_count()
            &&& r.current_frame < r.clip.end
        }),
    decreases dts.len(),
{
    let d = ps.clip.frame_duration as int;
    let len = ps.clip.frame_count();
    let k = ps.current_frame - ps.clip.start;
    if dts.len() == 0 {
        lemma_small_mod(k as nat, len as nat);
    } else {
        let dt0 = dts[0];
        let t = ps.frame_timer + dt0;
        let ps1 = advance_spec(ps, dt0).0;
        let rest = dts.drop_first();
        assert(forall|i: int| 0 <= i < rest.len() ==> rest[i] <= ps.clip.frame_duration);
        if t < d {
            lemma_run_looping_offsets(ps1, rest);
        } else {
            // with frame_timer < d and dt0 <= d the wrapped timer is t - d
            lemma_mod_add_multiples_vanish(t - d, d);
            lemma_small_mod((t - d) as nat, d as nat);
            assert(ps1.frame_timer == t - d);
            let fires_rest = fire_count(ps1.frame_timer as int, rest, d);
            lemma_run_looping_offsets(ps1, rest);
            assert((1 + fires_rest) * d == d + fires_rest * d) by {
                lemma_mul_is_distributive_add_other_way(d, 1, fires_rest);
            }
            let r = run_advances(ps, dts);
            if ps.current_frame + 1 < ps.clip.end {
                assert(r.current_frame - ps.clip.start == ((k + 1) + fires_rest) % len);
            } else {
                // the frame wrapped from the last index back to the start
                assert(k + 1 == len);
                assert(r.current_frame - ps.clip.start == (0 + fires_rest) % len);
                lemma_mod_add_multiples_vanish(fires_rest, len);
                assert((len + fires_rest) % len == fires_rest % len);
            }
        }
    }
}

/// The accumulated time left after the expiries of a tick sequence is the
/// remainder of the total elapsed time by the period.
proof fn lemma_fire_count_total(t: int, dts: Seq<u64>, d: int)
    requires
        0 < d,
        0 <= t < d,
        forall|i: int| 0 <= i < dts.len() ==> dts[i] <= d,
    ensures
        ({
            let fires = fire_count(t, dts, d);
            &&& 0 <= fires
            &&& 0 <= t + total_time(dts) - fires * d < d
        }),
    decreases dts.len(),
{
    if dts.len() > 0 {
        let dt0 = dts[0];
        let rest = dts.drop_first();
        assert(forall|i: int| 0 <= i < rest.len() ==> rest[i] <= d);
        if t + dt0 >= d {
            let fires_rest = fire_count(t + dt0 - d, rest, d);
            lemma_fire_count_total(t + dt0 - d, rest, d);
            assert((1 + fires_rest) * d == d + fires_rest * d) by {
                lemma_mul_is_distributive_add_other_way(d, 1, fires_rest);
            }
        } else {
            lemma_fire_count_total(t + dt0, rest, d);
        }
    }
}

/// Law: a freshly installed looping clip, advanced by ticks each at most
/// one period long whose lengths add up to exactly `n` full periods, shows
/// frame `start + (n mod frame_count)`.
pub proof fn lemma_looping_full_periods(clip: SpriteSheetAnimation, dts: Seq<u64>, n: nat)
    requires
        clip.wf(),
        clip.repeat,
        forall|i: int| 0 <= i < dts.len() ==> dts[i] <= clip.frame_duration,
        total_time(dts) == n * clip.frame_duration,
    ensures
        run_advances(PlaybackState::spec_fresh(clip), dts).current_frame == clip.start + (
        n as int) % clip.frame_count(),
{
    let ps = PlaybackState::spec_fresh(clip);
    let d = clip.frame_duration as int;
    lemma_run_looping_offsets(ps, dts);
    lemma_fire_count_total(0, dts, d);
    let fires = fire_count(0, dts, d);
    // 0 <= n * d - fires * d < d forces fires == n
    assert(fires == n) by {
        if fires < n {
            lemma_mul_inequality(fires + 1, n as int, d);
            lemma_mul_is_distributive_add_other_way(d, fires, 1);
        }
        if fires > n {
            lemma_mul_inequality(n as int + 1, fires, d);
            lemma_mul_is_distributive_add_other_way(d, n as int, 1);
        }
    }
}

/// Law: once a play-once clip's displayed frame has reached its last
/// frame, no sequence of further ticks ever moves it again.
pub proof fn lemma_play_once_last_frame_stable(ps: PlaybackState, dts: Seq<u64>)
    requires
        ps.wf(),
        !ps.clip.repeat,
        ps.current_frame == ps.clip.end - 1,
    ensures
        run_advances(ps, dts).current_frame == ps.clip.end - 1,
    decreases dts.len(),
{
    if dts.len() > 0 {
        let ps1 = advance_spec(ps, dts[0]).0;
        lemma_advance_preserves_wf(ps, dts[0]);
        lemma_play_once_last_frame_stable(ps1, dts.drop_first());
    }
}

/// Law: an exhaustion is reported exactly once: over any sequence of
/// ticks, a playback sends exactly one finish notification if the run
/// exhausts its play-once clip, and none at all otherwise — in
/// particular, none ever again once the notification is out.
pub proof fn lemma_finish_reported_exactly_once(ps: PlaybackState, dts: Seq<u64>)
    requires
        ps.wf(),
    ensures
        finish_count(ps, dts) == if !ps.finished && run_advances(ps, dts).finished {
            1int
        } else {
            0int
        },
    decreases dts.len(),
{
    if dts.len() > 0 {
        let ps1 = advance_spec(ps, dts[0]).0;
        lemma_advance_preserves_wf(ps, dts[0]);
        lemma_finish_reported_exactly_once(ps1, dts.drop_first());
        if ps1.finished {
            lemma_finished_flag_monotone(ps1, dts.drop_first());
        }
    }
}

/// A playback whose notification is out stays that way.
proof fn lemma_finished_flag_monotone(ps: PlaybackState, dts: Seq<u64>)
    requires
        ps.finished,
    ensures
        run_advances(ps, dts).finished,
    decreases dts.len(),
{
    if dts.len() > 0 {
        lemma_finished_flag_monotone(advance_spec(ps, dts[0]).0, dts.drop_first());
    }
}

} // verus!

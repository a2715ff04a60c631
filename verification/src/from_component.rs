//! The state-change binder: generic glue that keeps an entity's playback
//! in step with its semantic animation-state value.  Whenever the value
//! changes, a fresh clip is derived from it and installed; whenever a
//! play-once clip finishes, the value moves to its defined successor and
//! the playback is rebound in the same tick.

use vstd::prelude::*;
use crate::animation::{AnimationEvent, PlaybackState, SpriteSheetAnimation};

verus! {

/// Interface of a semantic animation-state type: it can be converted into
/// the clip it plays, and it has a defined successor state for when a
/// play-once clip finishes.
pub trait ClipSource: Sized + Copy {
    /// The clip this state plays.
    spec fn clip_spec(self) -> SpriteSheetAnimation;

    /// The state that follows this one when its play-once clip finishes.
    spec fn next_spec(self) -> Self;

    fn to_clip(&self) -> (c: SpriteSheetAnimation)
        ensures
            c == self.clip_spec(),
            c.wf(),
    ;

    fn next_state(&self) -> (n: Self)
        ensures
            n == self.next_spec(),
    ;

    fn same_as(&self, other: &Self) -> (r: bool)
        ensures
            r == (*self == *other),
    ;
}

/// Fires only on a tick where the semantic value actually differs from the
/// previously bound one: then the new value's clip is installed as a fresh
/// playback, so the displayed frame is the new clip's first frame within
/// the same tick.  On any other tick nothing moves.
pub fn on_state_changed<F: ClipSource>(
    state: &F,
    bound: &mut F,
    playback: &mut PlaybackState,
) -> (changed: bool)
    ensures
        changed == (*state != *old(bound)),
        changed ==> *final(bound) == *state && *final(playback) == PlaybackState::spec_fresh(
            state.clip_spec(),
        ) && final(playback).wf() && final(playback).current_frame == state.clip_spec().start,
        !changed ==> *final(bound) == *old(bound) && *final(playback) == *old(playback),
{
    if state.same_as(bound) {
        false
    } else {
        *bound = *state;
        *playback = PlaybackState::fresh(state.to_clip());
        true
    }
}

/// Consumes one finish notification for an entity: the semantic value
/// moves to its defined successor, and the playback is rebound to the
/// successor's clip before the next render, starting at that clip's first
/// frame.
pub fn on_animation_finished<F: ClipSource>(state: &mut F, playback: &mut PlaybackState)
    ensures
        *final(state) == old(state).next_spec(),
        *final(playback) == PlaybackState::spec_fresh(old(state).next_spec().clip_spec()),
        final(playback).wf(),
        final(playback).current_frame == old(state).next_spec().clip_spec().start,
{
    *state = state.next_state();
    *playback = PlaybackState::fresh(state.to_clip());
}

/// One entity bound to the binder: its identifier, its semantic value,
/// and its playback.
#[derive(Clone, Copy)]
pub struct BoundAnimation<F> {
    pub entity: u64,
    pub state: F,
    pub playback: PlaybackState,
}

/// Whether some notification in this tick's queue finishes `entity`.
pub open spec fn has_finished_event(events: Seq<AnimationEvent>, entity: u64) -> bool {
    exists|j: int| 0 <= j < events.len() && events[j] == AnimationEvent::Finished(entity)
}

/// No two bound entities share an identifier.
pub open spec fn distinct_entities<F>(world: Seq<BoundAnimation<F>>) -> bool {
    forall|i: int, k: int|
        0 <= i < k < world.len() ==> world[i].entity != world[k].entity
}

/// Whether a list of identifiers holds `id`.
fn contains_id(v: &Vec<u64>, id: u64) -> (r: bool)
    ensures
        r == v@.contains(id),
{
    let mut i: usize = 0;
    while i < v.len()
        invariant
            i <= v@.len(),
            forall|m: int| 0 <= m < i ==> v@[m] != id,
        decreases v@.len() - i,
    {
        if v[i] == id {
            return true;
        }
        i = i + 1;
    }
    false
}

/// The index of the bound entity with identifier `e`, if it is still
/// there.
fn find_entity<F: ClipSource>(world: &Vec<BoundAnimation<F>>, e: u64) -> (r: Option<usize>)
    ensures
        r matches Some(i) ==> i < world@.len() && world@[i as int].entity == e,
        r is None ==> forall|m: int| 0 <= m < world@.len() ==> world@[m].entity != e,
{
    let mut i: usize = 0;
    while i < world.len()
        invariant
            i <= world@.len(),
            forall|m: int| 0 <= m < i ==> world@[m].entity != e,
        decreases world@.len() - i,
    {
        if world[i].entity == e {
            return Some(i);
        }
        i = i + 1;
    }
    None
}

/// Drain this tick's finish notifications, in arrival order: each one
/// moves its entity's semantic value to the defined successor and rebinds
/// the playback, at most once per entity per tick however many
/// notifications name it.  A notification whose entity is no longer bound
/// is a stale reference and is silently ignored.
pub fn animation_finisher<F: ClipSource>(
    events: &Vec<AnimationEvent>,
    world: &mut Vec<BoundAnimation<F>>,
)
    requires
        distinct_entities(old(world)@),
    ensures
        final(world)@.len() == old(world)@.len(),
        forall|i: int|
            0 <= i < old(world)@.len() ==> final(world)@[i].entity == old(world)@[i].entity,
        forall|i: int|
            0 <= i < old(world)@.len() && has_finished_event(events@, old(world)@[i].entity)
                ==> final(world)@[i].state == old(world)@[i].state.next_spec()
                && final(world)@[i].playback == PlaybackState::spec_fresh(
                old(world)@[i].state.next_spec().clip_spec(),
            ),
        forall|i: int|
            0 <= i < old(world)@.len() && !has_finished_event(events@, old(world)@[i].entity)
                ==> final(world)@[i] == old(world)@[i],
{
    let ghost orig = world@;
    let mut processed: Vec<u64> = Vec::new();
    let mut k: usize = 0;
    while k < events.len()
        invariant
            distinct_entities(orig),
            k <= events@.len(),
            world@.len() == orig.len(),
            forall|i: int| 0 <= i < orig.len() ==> world@[i].entity == orig[i].entity,
            forall|i: int|
                0 <= i < orig.len() && has_finished_event(events@.take(k as int), orig[i].entity)
                    ==> world@[i].state == orig[i].state.next_spec() && world@[i].playback
                    == PlaybackState::spec_fresh(orig[i].state.next_spec().clip_spec())
                    && processed@.contains(orig[i].entity),
            forall|i: int|
                0 <= i < orig.len() && !has_finished_event(events@.take(k as int), orig[i].entity)
                    ==> world@[i] == orig[i],
            forall|id: u64| #[trigger]
                processed@.contains(id) ==> has_finished_event(events@.take(k as int), id),
        decreases events@.len() - k,
    {
        let ghost take0 = events@.take(k as int);
        let ghost take1 = events@.take(k + 1 as int);
        proof {
            assert(take1 =~= take0.push(events@[k as int]));
            assert forall|id: u64| #[trigger]
                has_finished_event(take1, id) implies has_finished_event(take0, id)
                || events@[k as int] == AnimationEvent::Finished(id) by {
                let j = choose|j: int|
                    0 <= j < take1.len() && take1[j] == AnimationEvent::Finished(id);
                if j < take0.len() {
                    assert(take0[j] == take1[j]);
                }
            }
            assert forall|id: u64|
                has_finished_event(take0, id)
                || events@[k as int] == AnimationEvent::Finished(id) implies #[trigger]
                has_finished_event(take1, id) by {
                if has_finished_event(take0, id) {
                    let j = choose|j: int|
                        0 <= j < take0.len() && take0[j] == AnimationEvent::Finished(id);
                    assert(take1[j] == take0[j]);
                } else {
                    assert(take1[take0.len() as int] == events@[k as int]);
                }
            }
        }
        let AnimationEvent::Finished(e) = events[k];
        if !contains_id(&processed, e) {
            match find_entity(world, e) {
                Some(i0) => {
                    proof {
                        assert(!has_finished_event(take0, orig[i0 as int].entity));
                        assert(world@[i0 as int] == orig[i0 as int]);
                    }
                    let ghost proc0 = processed@;
                    let ghost world0 = world@;
                    let mut b = world[i0];
                    on_animation_finished(&mut b.state, &mut b.playback);
                    world.set(i0, b);
                    processed.push(e);
                    proof {
                        assert(processed@[proc0.len() as int] == e);
                        assert(processed@.contains(e));
                        assert forall|id: u64| #[trigger]
                            processed@.contains(id) implies proc0.contains(id) || id == e by {
                            let j = choose|j: int|
                                0 <= j < processed@.len() && processed@[j] == id;
                            if j < proc0.len() {
                                assert(proc0[j] == id);
                            }
                        }
                        assert forall|id: u64| #[trigger]
                            proc0.contains(id) implies processed@.contains(id) by {
                            let j = choose|j: int| 0 <= j < proc0.len() && proc0[j] == id;
                            assert(processed@[j] == id);
                        }
                        assert forall|i: int|
                            0 <= i < orig.len() && has_finished_event(
                                take1,
                                orig[i].entity,
                            ) implies world@[i].state == orig[i].state.next_spec()
                            && world@[i].playback == PlaybackState::spec_fresh(
                            orig[i].state.next_spec().clip_spec(),
                        ) && processed@.contains(orig[i].entity) by {
                            if i != i0 {
                                assert(orig[i].entity != e);
                                assert(has_finished_event(take0, orig[i].entity));
                                assert(world@[i] == world0[i]);
                            }
                        }
                    }
                },
                None => {
                    proof {
                        assert forall|i: int|
                            0 <= i < orig.len() implies orig[i].entity != e by {
                            assert(world@[i].entity == orig[i].entity);
                        }
                    }
                },
            }
        } else {
            proof {
                assert(has_finished_event(take0, e));
            }
        }
        k = k + 1;
    }
    proof {
        assert(events@.take(events@.len() as int) =~= events@);
    }
}

} // verus!

//! The player: its semantic animation states and their clips, and the
//! locomotion state machine that turns held inputs and the previous tick's
//! collision feedback into a requested displacement, an attack timer, a
//! jump ascent, a facing, and a semantic animation state.

use vstd::prelude::*;
use crate::animation::{SpriteSheetAnimation, total_time};
use crate::from_component::ClipSource;
use crate::units::{Vec2, MAX_DT};

verus! {

/// Horizontal run speed: 260 pixels per second, in subunits per tick.
pub const PLAYER_VELOCITY_X: i64 = 494;

/// Jump ascent rate: 650 pixels per second, in subunits per tick.
pub const RISE_VELOCITY: i64 = 1235;

/// Constant descent rate: 280 / 0.95 pixels per second, in subunits per
/// tick.
pub const FALL_VELOCITY: i64 = 560;

/// Greatest total rise one jump may accumulate: 120 pixels, in subunits.
pub const MAX_JUMP_HEIGHT: i64 = 27360;

/// Ticks a sword swing lasts: half a second.
pub const ATTACK_SWING_TICKS: u64 = 60;

/// Ticks per animation frame of the twelve-frames-a-second clips.
pub const TWELFTH_SECOND_TICKS: u64 = 10;

/// Ticks per animation frame of the two-frames-a-second clips.
pub const HALF_SECOND_TICKS: u64 = 60;

/// Ticks per animation frame of the eight-frames-a-second clips.
pub const EIGHTH_SECOND_TICKS: u64 = 15;

/// Marker for the player entity.
#[derive(Clone, Copy, PartialEq, Eq, Structural, Debug)]
pub struct Player;

/// Semantic animation state of the player; its value alone decides which
/// clip plays.
#[derive(Clone, Copy, PartialEq, Eq, Structural, Debug, Hash, Default)]
pub enum PlayerAnimationState {
    #[default]
    Idle,
    Running,
    Falling,
    Jump,
    Attack,
}

/// Persistent record of the player's attack intent.
#[derive(Clone, Copy, PartialEq, Eq, Structural, Debug)]
pub struct ActorStatus {
    pub attacking: bool,
    pub attack_timer: u64,
}

/// Which way the sprite faces.
#[derive(Clone, Copy, PartialEq, Eq, Structural, Debug)]
pub enum Direction {
    Right,
    Left,
}

/// Transient jump tag: present only while ascending, holding the rise
/// accumulated so far, in subunits.  Its presence is the state.
#[derive(Clone, Copy, PartialEq, Eq, Structural, Debug)]
pub struct Jump(pub i64);

/// Transient attack tag: present only while swinging, holding the ticks
/// elapsed so far.  Its presence is the state.
#[derive(Clone, Copy, PartialEq, Eq, Structural, Debug)]
pub struct Swing(pub u64);

/// Duration record of a weapon swing attack, in ticks.
#[derive(Clone, Copy, PartialEq, Eq, Structural, Debug)]
pub struct WeaponSwingAttackComponent {
    pub attack_duration: u64,
}

/// The logical input actions held this tick; device mapping is outside
/// this core.
#[derive(Clone, Copy, PartialEq, Eq, Structural, Debug)]
pub struct InputState {
    pub move_right: bool,
    pub move_left: bool,
    pub jump: bool,
    pub attack: bool,
}

/// What the kinematic controller reported after the previous tick's
/// displacement request: whether the player stood on ground, what was
/// asked, and what motion was actually applied.
#[derive(Clone, Copy, PartialEq, Eq, Structural, Debug)]
pub struct CollisionFeedback {
    pub grounded: bool,
    pub desired_translation: Vec2,
    pub resolved_translation: Vec2,
}

impl ClipSource for PlayerAnimationState {
    open spec fn clip_spec(self) -> SpriteSheetAnimation {
        match self {
            PlayerAnimationState::Idle => SpriteSheetAnimation {
                start: 5,
                end: 20,
                frame_duration: TWELFTH_SECOND_TICKS,
                repeat: true,
            },
            PlayerAnimationState::Running => SpriteSheetAnimation {
                start: 28,
                end: 34,
                frame_duration: TWELFTH_SECOND_TICKS,
                repeat: true,
            },
            PlayerAnimationState::Falling => SpriteSheetAnimation {
                start: 20,
                end: 22,
                frame_duration: HALF_SECOND_TICKS,
                repeat: false,
            },
            PlayerAnimationState::Jump => SpriteSheetAnimation {
                start: 26,
                end: 28,
                frame_duration: HALF_SECOND_TICKS,
                repeat: false,
            },
            PlayerAnimationState::Attack => SpriteSheetAnimation {
                start: 0,
                end: 5,
                frame_duration: EIGHTH_SECOND_TICKS,
                repeat: false,
            },
        }
    }

    open spec fn next_spec(self) -> Self {
        match self {
            PlayerAnimationState::Idle => PlayerAnimationState::Running,
            PlayerAnimationState::Running => PlayerAnimationState::Falling,
            PlayerAnimationState::Falling => PlayerAnimationState::Jump,
            PlayerAnimationState::Jump => PlayerAnimationState::Attack,
            PlayerAnimationState::Attack => PlayerAnimationState::Idle,
        }
    }

    fn to_clip(&self) -> (c: SpriteSheetAnimation) {
        match *self {
            PlayerAnimationState::Idle => SpriteSheetAnimation {
                start: 5,
                end: 20,
                frame_duration: TWELFTH_SECOND_TICKS,
                repeat: true,
            },
            PlayerAnimationState::Running => SpriteSheetAnimation {
                start: 28,
                end: 34,
                frame_duration: TWELFTH_SECOND_TICKS,
                repeat: true,
            },
            PlayerAnimationState::Falling => SpriteSheetAnimation {
                start: 20,
                end: 22,
                frame_duration: HALF_SECOND_TICKS,
                repeat: false,
            },
            PlayerAnimationState::Jump => SpriteSheetAnimation {
                start: 26,
                end: 28,
                frame_duration: HALF_SECOND_TICKS,
                repeat: false,
            },
            PlayerAnimationState::Attack => SpriteSheetAnimation {
                start: 0,
                end: 5,
                frame_duration: EIGHTH_SECOND_TICKS,
                repeat: false,
            },
        }
    }

    fn next_state(&self) -> (n: Self) {
        match *self {
            PlayerAnimationState::Idle => PlayerAnimationState::Running,
            PlayerAnimationState::Running => PlayerAnimationState::Falling,
            PlayerAnimationState::Falling => PlayerAnimationState::Jump,
            PlayerAnimationState::Jump => PlayerAnimationState::Attack,
            PlayerAnimationState::Attack => PlayerAnimationState::Idle,
        }
    }

    fn same_as(&self, other: &Self) -> (r: bool) {
        *self == *other
    }
}

/// Net horizontal displacement one tick requests, in subunits: each held
/// direction contributes its full velocity, so holding both cancels to
/// zero.
pub open spec fn horizontal_displacement(right: bool, left: bool, dt: u64) -> int {
    (if right {
        PLAYER_VELOCITY_X * dt
    } else {
        0int
    }) - (if left {
        PLAYER_VELOCITY_X * dt
    } else {
        0int
    })
}

/// Horizontal movement: write the net displacement of the held directions
/// into the request's x, leaving whatever y the request already carried.
/// Holding both directions at once cancels to zero net displacement.
pub fn movement(right_held: bool, left_held: bool, dt: u64, translation: &mut Option<Vec2>)
    requires
        dt <= MAX_DT,
    ensures
        *final(translation) matches Some(v) && v.x == horizontal_displacement(
            right_held,
            left_held,
            dt,
        ) && v.y == (match *old(translation) {
            Some(o) => o.y,
            None => 0,
        }),
        right_held && left_held ==> final(translation)->0.x == 0,
{
    let mut m: i64 = 0;
    if right_held {
        m = m + PLAYER_VELOCITY_X * (dt as i64);
    }
    if left_held {
        m = m - PLAYER_VELOCITY_X * (dt as i64);
    }
    let y = match *translation {
        Some(v) => v.y,
        None => 0,
    };
    *translation = Some(Vec2 { x: m, y });
}

/// Jump initiation as a value: the tag appears, at zero accumulated rise,
/// exactly when the jump action is held, the previous tick reported
/// ground, and no jump is already in progress.
pub open spec fn jump_init(jump_held: bool, grounded: bool, j: Option<Jump>) -> Option<Jump> {
    if jump_held && grounded && j is None {
        Some(Jump(0))
    } else {
        j
    }
}

/// Jump initiation: attach a fresh jump tag when the jump action is held,
/// the previous tick's feedback reported ground, and none is present.
pub fn jump(jump_held: bool, grounded: bool, jump_state: &mut Option<Jump>)
    ensures
        *final(jump_state) == jump_init(jump_held, grounded, *old(jump_state)),
        *old(jump_state) is Some ==> *final(jump_state) == *old(jump_state),
{
    if jump_held && grounded && jump_state.is_none() {
        *jump_state = Some(Jump(0));
    }
}

/// Attack initiation as a value: a fresh swing tag and raised attack
/// intent, exactly when the attack action is held, the previous tick
/// reported ground, and no swing is already in progress.
pub open spec fn attack_init(
    attack_held: bool,
    grounded: bool,
    s: Option<Swing>,
    st: ActorStatus,
) -> (Option<Swing>, ActorStatus) {
    if attack_held && grounded && s is None {
        (Some(Swing(0)), ActorStatus { attacking: true, attack_timer: st.attack_timer })
    } else {
        (s, st)
    }
}

/// Attack initiation: raise the attack intent and attach a fresh swing tag
/// when the attack action is held, the previous tick's feedback reported
/// ground, and no swing is present.  While a swing is in progress nothing
/// is re-initiated.
pub fn start_attack(
    attack_held: bool,
    grounded: bool,
    swing: &mut Option<Swing>,
    status: &mut ActorStatus,
)
    ensures
        (*final(swing), *final(status)) == attack_init(
            attack_held,
            grounded,
            *old(swing),
            *old(status),
        ),
        *old(swing) is Some ==> *final(swing) == *old(swing) && *final(status) == *old(status),
{
    if attack_held && grounded && swing.is_none() {
        status.attacking = true;
        *swing = Some(Swing(0));
    }
}

/// Attack progression as a value: elapsed swing time grows by `dt`; the
/// moment it reaches the swing duration, the attack intent drops and the
/// tag is removed.  Without a tag nothing moves.
pub open spec fn swing_step(s: Option<Swing>, st: ActorStatus, dt: u64) -> (
    Option<Swing>,
    ActorStatus,
) {
    match s {
        None => (None, st),
        Some(sw) => if sw.0 + dt >= ATTACK_SWING_TICKS {
            (None, ActorStatus { attacking: false, attack_timer: st.attack_timer })
        } else {
            (Some(Swing((sw.0 + dt) as u64)), st)
        },
    }
}

/// Attack progression: accumulate elapsed swing time, and once it reaches
/// the swing duration, clear the attack intent and remove the tag.
pub fn swing_sword(dt: u64, swing: &mut Option<Swing>, status: &mut ActorStatus)
    requires
        dt <= MAX_DT,
        *old(swing) matches Some(sw) ==> sw.0 < ATTACK_SWING_TICKS,
    ensures
        (*final(swing), *final(status)) == swing_step(*old(swing), *old(status), dt),
        *final(swing) matches Some(sw) ==> sw.0 < ATTACK_SWING_TICKS,
{
    match *swing {
        None => {},
        Some(sw) => {
            if sw.0 + dt >= ATTACK_SWING_TICKS {
                status.attacking = false;
                *swing = None;
            } else {
                *swing = Some(Swing(sw.0 + dt));
            }
        },
    }
}

/// One tick of ascent as a value: the rise this tick and the tag after it.
/// The rise is the ascent rate times `dt`, clamped so the accumulated rise
/// never passes the maximum jump height; hitting the clamp removes the
/// tag.
pub open spec fn rise_step(j: Jump, dt: u64) -> (Option<Jump>, int) {
    let m = RISE_VELOCITY * dt;
    if m + j.0 >= MAX_JUMP_HEIGHT {
        (None, MAX_JUMP_HEIGHT - j.0)
    } else {
        (Some(Jump((j.0 + m) as i64)), m)
    }
}

/// Rise: for an entity with a jump tag, emit this tick's (possibly
/// clamped) rise as the request's vertical displacement, keeping whatever
/// x the request already carried, and update or remove the tag.  Without a
/// tag nothing moves.
pub fn rise(dt: u64, jump_state: &mut Option<Jump>, translation: &mut Option<Vec2>)
    requires
        dt <= MAX_DT,
        *old(jump_state) matches Some(j) ==> 0 <= j.0 < MAX_JUMP_HEIGHT,
    ensures
        *old(jump_state) is None ==> *final(jump_state) == *old(jump_state) && *final(translation)
            == *old(translation),
        *old(jump_state) matches Some(j) ==> *final(jump_state) == rise_step(j, dt).0 && (
        *final(translation) matches Some(v) && v.y == rise_step(j, dt).1 && v.x == (match *old(
            translation,
        ) {
            Some(o) => o.x,
            None => 0,
        })),
        *final(jump_state) matches Some(j2) ==> 0 <= j2.0 < MAX_JUMP_HEIGHT,
{
    match *jump_state {
        None => {},
        Some(j) => {
            let mut m: i64 = RISE_VELOCITY * (dt as i64);
            if m + j.0 >= MAX_JUMP_HEIGHT {
                m = MAX_JUMP_HEIGHT - j.0;
                *jump_state = None;
            } else {
                *jump_state = Some(Jump(j.0 + m));
            }
            let x = match *translation {
                Some(v) => v.x,
                None => 0,
            };
            *translation = Some(Vec2 { x, y: m });
        },
    }
}

/// Vertical displacement of one tick of constant descent, in subunits.
pub open spec fn fall_displacement(dt: u64) -> int {
    -(FALL_VELOCITY * dt)
}

/// Fall: for an entity without a jump tag, emit one tick of constant
/// descent as the request's vertical displacement, keeping whatever x the
/// request already carried.
pub fn fall(dt: u64, translation: &mut Option<Vec2>)
    requires
        dt <= MAX_DT,
    ensures
        *final(translation) matches Some(v) && v.y == fall_displacement(dt) && v.x == (match *old(
            translation,
        ) {
            Some(o) => o.x,
            None => 0,
        }),
{
    let m = -(FALL_VELOCITY * (dt as i64));
    let x = match *translation {
        Some(v) => v.x,
        None => 0,
    };
    *translation = Some(Vec2 { x, y: m });
}

/// Animation-state resolution, strict priority order, first match wins:
/// attacking; else moving and grounded; else still and grounded; else
/// rising and airborne; else falling and airborne; else the state is left
/// alone.  Horizontal and vertical motion are judged from the previous
/// tick's desired displacement.
pub open spec fn resolve_animation_state(
    attacking: bool,
    feedback: CollisionFeedback,
    current: PlayerAnimationState,
) -> PlayerAnimationState {
    if attacking {
        PlayerAnimationState::Attack
    } else if feedback.desired_translation.x != 0 && feedback.grounded {
        PlayerAnimationState::Running
    } else if feedback.desired_translation.x == 0 && feedback.grounded {
        PlayerAnimationState::Idle
    } else if feedback.desired_translation.y > 0 && !feedback.grounded {
        PlayerAnimationState::Jump
    } else if feedback.desired_translation.y < 0 && !feedback.grounded {
        PlayerAnimationState::Falling
    } else {
        current
    }
}

/// Resolve the semantic animation state from the attack intent and the
/// previous tick's collision feedback.  Writing an equal value is
/// indistinguishable from leaving it: the binder compares values before
/// replacing any playback.
pub fn apply_movement_animation(
    status: &ActorStatus,
    output: &CollisionFeedback,
    animation_state: &mut PlayerAnimationState,
)
    ensures
        *final(animation_state) == resolve_animation_state(
            status.attacking,
            *output,
            *old(animation_state),
        ),
{
    if status.attacking {
        *animation_state = PlayerAnimationState::Attack;
    } else if output.desired_translation.x != 0 && output.grounded {
        *animation_state = PlayerAnimationState::Running;
    } else if output.desired_translation.x == 0 && output.grounded {
        *animation_state = PlayerAnimationState::Idle;
    } else if output.desired_translation.y > 0 && !output.grounded {
        *animation_state = PlayerAnimationState::Jump;
    } else if output.desired_translation.y < 0 && !output.grounded {
        *animation_state = PlayerAnimationState::Falling;
    }
}

/// Facing for a desired horizontal displacement: a strictly positive
/// request picks the `Left` tag and a strictly negative one the `Right`
/// tag, matching the sprite mirroring below, which flips the sheet for
/// `Right`; zero leaves the facing unchanged.
pub open spec fn direction_for(x: int, current: Direction) -> Direction {
    if x > 0 {
        Direction::Left
    } else if x < 0 {
        Direction::Right
    } else {
        current
    }
}

/// Derive the facing from the sign of the previous tick's desired
/// horizontal displacement; zero displacement keeps the old facing.
pub fn update_direction(output: &CollisionFeedback, direction: &mut Direction)
    ensures
        *final(direction) == direction_for(output.desired_translation.x as int, *old(direction)),
{
    if output.desired_translation.x > 0 {
        *direction = Direction::Left;
    } else if output.desired_translation.x < 0 {
        *direction = Direction::Right;
    }
}

/// Sprite mirroring is a direct function of the facing: the sheet is
/// flipped exactly for the `Right` tag.
pub fn update_sprite_direction(direction: &Direction) -> (flip_x: bool)
    ensures
        flip_x == (*direction is Right),
{
    match *direction {
        Direction::Right => true,
        Direction::Left => false,
    }
}

/// The player's whole per-entity component set, exclusively owned by the
/// entity for the session.
#[derive(Clone, Copy, PartialEq, Eq, Structural, Debug)]
pub struct PlayerEntity {
    pub animation_state: PlayerAnimationState,
    pub status: ActorStatus,
    pub direction: Direction,
    pub jump: Option<Jump>,
    pub swing: Option<Swing>,
    pub flip_x: bool,
}

impl PlayerEntity {
    /// Well-formedness: a present jump tag has accumulated less than the
    /// maximum jump height, and a present swing tag less than the swing
    /// duration.
    pub open spec fn wf(self) -> bool {
        &&& (self.jump matches Some(j) ==> 0 <= j.0 < MAX_JUMP_HEIGHT)
        &&& (self.swing matches Some(s) ==> s.0 < ATTACK_SWING_TICKS)
    }

    /// The player as spawned: idle, grounded intent, facing right, no
    /// transient tags.
    pub open spec fn spec_new() -> PlayerEntity {
        PlayerEntity {
            animation_state: PlayerAnimationState::Idle,
            status: ActorStatus { attacking: false, attack_timer: 0 },
            direction: Direction::Right,
            jump: None,
            swing: None,
            flip_x: true,
        }
    }

    pub fn new() -> (p: PlayerEntity)
        ensures
            p == PlayerEntity::spec_new(),
            p.wf(),
    {
        PlayerEntity {
            animation_state: PlayerAnimationState::Idle,
            status: ActorStatus { attacking: false, attack_timer: 0 },
            direction: Direction::Right,
            jump: None,
            swing: None,
            flip_x: true,
        }
    }
}

/// One whole locomotion tick as a value, in the fixed evaluation order:
/// horizontal movement, jump initiation, attack initiation, attack
/// progression, rise for an entity with a jump tag and fall for one
/// without, animation-state resolution, then facing and sprite mirroring.
/// The second component is the requested displacement handed to the
/// kinematic controller.
pub open spec fn player_tick_spec(
    p: PlayerEntity,
    input: InputState,
    feedback: CollisionFeedback,
    dt: u64,
) -> (PlayerEntity, Vec2) {
    let x = horizontal_displacement(input.move_right, input.move_left, dt);
    let jump1 = jump_init(input.jump, feedback.grounded, p.jump);
    let si = attack_init(input.attack, feedback.grounded, p.swing, p.status);
    let ss = swing_step(si.0, si.1, dt);
    let ry = if jump1 is Some {
        rise_step(jump1->0, dt)
    } else {
        (None::<Jump>, fall_displacement(dt))
    };
    let dir = direction_for(feedback.desired_translation.x as int, p.direction);
    (
        PlayerEntity {
            animation_state: resolve_animation_state(ss.1.attacking, feedback, p.animation_state),
            status: ss.1,
            direction: dir,
            jump: ry.0,
            swing: ss.0,
            flip_x: dir is Right,
        },
        Vec2 { x: x as i64, y: ry.1 as i64 },
    )
}

/// Run one whole locomotion tick on the player and return the requested
/// displacement.  The request is a request, not a guaranteed delta: the
/// kinematic controller reports the applied motion in the next tick's
/// feedback, and this tick's decisions read the previous tick's feedback.
pub fn player_tick(
    p: &mut PlayerEntity,
    input: InputState,
    feedback: CollisionFeedback,
    dt: u64,
) -> (request: Vec2)
    requires
        old(p).wf(),
        dt <= MAX_DT,
    ensures
        (*final(p), request) == player_tick_spec(*old(p), input, feedback, dt),
        final(p).wf(),
        input.move_right && input.move_left ==> request.x == 0,
{
    let mut translation: Option<Vec2> = None;
    movement(input.move_right, input.move_left, dt, &mut translation);
    jump(input.jump, feedback.grounded, &mut p.jump);
    start_attack(input.attack, feedback.grounded, &mut p.swing, &mut p.status);
    swing_sword(dt, &mut p.swing, &mut p.status);
    if p.jump.is_some() {
        rise(dt, &mut p.jump, &mut translation);
    } else {
        fall(dt, &mut translation);
    }
    apply_movement_animation(&p.status, &feedback, &mut p.animation_state);
    update_direction(&feedback, &mut p.direction);
    p.flip_x = update_sprite_direction(&p.direction);
    match translation {
        Some(v) => v,
        None => Vec2 { x: 0, y: 0 },
    }
}

/// Jump tag and total emitted rise after a sequence of ascent ticks.
pub open spec fn rise_run(j: Option<Jump>, dts: Seq<u64>) -> (Option<Jump>, int)
    decreases dts.len(),
{
    if dts.len() == 0 {
        (j, 0)
    } else {
        match j {
            None => (None, 0),
            Some(jj) => {
                let step = rise_step(jj, dts[0]);
                let rest = rise_run(step.0, dts.drop_first());
                (rest.0, step.1 + rest.1)
            },
        }
    }
}

/// Law: over any sequence of ticks of one jump's lifetime, the rise
/// accumulated never exceeds the maximum jump height; a surviving tag
/// counts the accumulated rise exactly, and on the tick the cap is hit
/// the tag is removed, so it is absent from the next tick on.
pub proof fn lemma_rise_capped(j: Jump, dts: Seq<u64>)
    requires
        0 <= j.0 < MAX_JUMP_HEIGHT,
    ensures
        ({
            let r = rise_run(Some(j), dts);
            &&& 0 <= r.1
            &&& j.0 + r.1 <= MAX_JUMP_HEIGHT
            &&& (r.0 matches Some(j2) ==> j2.0 == j.0 + r.1 && j2.0 < MAX_JUMP_HEIGHT)
            &&& (r.0 is None && dts.len() > 0 ==> j.0 + r.1 == MAX_JUMP_HEIGHT)
        }),
    decreases dts.len(),
{
    if dts.len() > 0 {
        let step = rise_step(j, dts[0]);
        let rest = dts.drop_first();
        if step.0 is None {
            lemma_rise_run_none(rest);
        } else {
            lemma_rise_capped(step.0->0, rest);
        }
    }
}

/// Without a jump tag no rise is ever emitted.
proof fn lemma_rise_run_none(dts: Seq<u64>)
    ensures
        rise_run(None, dts) == (None::<Jump>, 0int),
    decreases dts.len(),
{
    if dts.len() > 0 {
        lemma_rise_run_none(dts.drop_first());
    }
}

/// Swing tag and attack intent after a sequence of attack-progression
/// ticks.
pub open spec fn swing_run(s: Option<Swing>, st: ActorStatus, dts: Seq<u64>) -> (
    Option<Swing>,
    ActorStatus,
)
    decreases dts.len(),
{
    if dts.len() == 0 {
        (s, st)
    } else {
        let step = swing_step(s, st, dts[0]);
        swing_run(step.0, step.1, dts.drop_first())
    }
}

/// Without a swing tag, attack progression never moves the status.
proof fn lemma_swing_run_none(st: ActorStatus, dts: Seq<u64>)
    ensures
        swing_run(None, st, dts) == (None::<Swing>, st),
    decreases dts.len(),
{
    if dts.len() > 0 {
        lemma_swing_run_none(st, dts.drop_first());
    }
}

/// Law: from a swing in progress with the attack intent raised, the
/// intent stays raised exactly as long as the accumulated tick time stays
/// under the swing duration; the first tick that reaches it drops the
/// intent and removes the tag, and both stay dropped for the rest of the
/// run.
pub proof fn lemma_attack_swing_duration(s: Swing, st: ActorStatus, dts: Seq<u64>)
    requires
        st.attacking,
        s.0 < ATTACK_SWING_TICKS,
    ensures
        ({
            let r = swing_run(Some(s), st, dts);
            &&& r.1.attacking == (s.0 + total_time(dts) < ATTACK_SWING_TICKS)
            &&& (r.0 is Some) == (s.0 + total_time(dts) < ATTACK_SWING_TICKS)
            &&& (r.0 matches Some(s2) ==> s2.0 == s.0 + total_time(dts))
            &&& r.1.attack_timer == st.attack_timer
        }),
    decreases dts.len(),
{
    if dts.len() > 0 {
        let step = swing_step(Some(s), st, dts[0]);
        let rest = dts.drop_first();
        if step.0 is None {
            lemma_swing_run_none(step.1, rest);
            lemma_total_time_nonneg(rest);
        } else {
            lemma_attack_swing_duration(step.0->0, step.1, rest);
        }
    }
}

/// The ticks of a sequence add up to a nonnegative total.
pub proof fn lemma_total_time_nonneg(dts: Seq<u64>)
    ensures
        total_time(dts) >= 0,
    decreases dts.len(),
{
    if dts.len() > 0 {
        lemma_total_time_nonneg(dts.drop_first());
    }
}

} // verus!

//! The directional sprite-animation state machine: idle or walking in one
//! of the discretized directions, a repeating frame timer, the atlas-cell
//! derivation and the footstep-sound trigger.

use vstd::prelude::*;
use vstd::arithmetic::div_mod::{
    lemma_add_mod_noop, lemma_basic_div, lemma_div_multiples_vanish_fancy,
    lemma_mod_multiples_vanish, lemma_small_mod,
};
use crate::direction::Direction;

verus! {

/// The number of idle frames.
pub const IDLE_FRAMES: usize = 3;

/// The duration of each idle frame, in microseconds.
pub const IDLE_INTERVAL_US: u64 = 500_000;

/// The number of walking frames.
pub const WALKING_FRAMES: usize = 4;

/// The duration of each walking frame, in microseconds.
pub const WALKING_INTERVAL_US: u64 = 100_000;

/// Largest per-tick elapsed time a timer accepts, one day in
/// microseconds; a single simulation tick never spans more.
pub const MAX_TICK_US: u64 = 86_400_000_000;

/// A repeating interval timer: accumulates elapsed time and wraps on
/// expiry, remembering whether the most recent tick crossed the interval.
#[derive(Clone, Copy, Debug, PartialEq, Eq, Structural)]
pub struct AnimationTimer {
    pub elapsed_us: u64,
    pub interval_us: u64,
    pub finished: bool,
}

impl AnimationTimer {
    pub open spec fn wf(self) -> bool {
        0 < self.interval_us <= MAX_TICK_US && self.elapsed_us < self.interval_us
    }

    /// A just-started timer with the given interval.
    pub open spec fn fresh_spec(interval_us: u64) -> AnimationTimer {
        AnimationTimer { elapsed_us: 0u64, interval_us, finished: false }
    }

    /// Whether adding `delta_us` crosses the interval.
    pub open spec fn expires_spec(self, delta_us: u64) -> bool {
        self.elapsed_us + delta_us >= self.interval_us
    }

    /// How many whole intervals a tick of `delta_us` completes.
    pub open spec fn completed_intervals_spec(self, delta_us: u64) -> int {
        (self.elapsed_us + delta_us) / (self.interval_us as int)
    }

    pub open spec fn tick_spec(self, delta_us: u64) -> AnimationTimer {
        let e = self.elapsed_us + delta_us;
        if e >= self.interval_us {
            AnimationTimer {
                elapsed_us: (e % (self.interval_us as int)) as u64,
                interval_us: self.interval_us,
                finished: true,
            }
        } else {
            AnimationTimer { elapsed_us: e as u64, interval_us: self.interval_us, finished: false }
        }
    }

    /// Advance the timer; on expiry the remainder is kept, so no elapsed
    /// time is lost across frame boundaries.
    pub fn tick(&mut self, delta_us: u64)
        requires
            old(self).wf(),
            delta_us <= MAX_TICK_US,
        ensures
            *final(self) == old(self).tick_spec(delta_us),
            final(self).wf(),
    {
        let e: u64 = self.elapsed_us + delta_us;
        if e >= self.interval_us {
            self.elapsed_us = e % self.interval_us;
            self.finished = true;
        } else {
            self.elapsed_us = e;
            self.finished = false;
        }
    }

    /// Whether the most recent tick crossed the interval.
    pub fn is_finished(&self) -> (r: bool)
        ensures
            r == self.finished,
    {
        self.finished
    }
}

/// Animation state: idling or walking, each with a facing direction.
#[derive(Clone, Copy, Debug, PartialEq, Eq, Structural)]
pub enum PlayerAnimationState {
    Idling(Direction),
    Walking(Direction),
}

impl PlayerAnimationState {
    /// The facing direction carried by either variant.
    pub open spec fn direction_spec(self) -> Direction {
        match self {
            PlayerAnimationState::Idling(dir) => dir,
            PlayerAnimationState::Walking(dir) => dir,
        }
    }

    /// Frames in the cycle for this variant; independent of direction.
    pub open spec fn frame_count_spec(self) -> int {
        if self is Idling {
            IDLE_FRAMES as int
        } else {
            WALKING_FRAMES as int
        }
    }

    /// Per-frame interval for this variant.
    pub open spec fn interval_us_spec(self) -> u64 {
        if self is Idling {
            IDLE_INTERVAL_US
        } else {
            WALKING_INTERVAL_US
        }
    }
}

/// Per-entity animation component: the frame timer, the current frame
/// index and the animation state. Tightly bound to the sprite atlas
/// layout encoded in `atlas_index_spec`.
#[derive(Clone, Copy, Debug, PartialEq, Eq, Structural)]
pub struct PlayerAnimation {
    pub timer: AnimationTimer,
    pub frame: usize,
    pub state: PlayerAnimationState,
}

/// Target state for a tick: a zero intent idles but keeps the previous
/// facing, so the sprite does not snap to a default when stopping; any
/// other intent walks in that direction.
pub open spec fn resolve_state_spec(intent: Direction, previous: PlayerAnimationState) -> PlayerAnimationState {
    if intent is Nothing {
        PlayerAnimationState::Idling(previous.direction_spec())
    } else {
        PlayerAnimationState::Walking(intent)
    }
}

/// Horizontal mirror flag for a tick: follows the intent while moving and
/// is retained while idle.
pub open spec fn resolve_flip_spec(intent: Direction, previous_flip: bool) -> bool {
    if intent is Nothing {
        previous_flip
    } else {
        intent.is_leftward_spec()
    }
}

/// Atlas cell for a state and frame: a per-direction base offset plus the
/// frame index. Diagonals share a base of their own in each row family,
/// and the `Nothing` direction falls back to the down-family base.
pub open spec fn atlas_index_spec(state: PlayerAnimationState, frame: int) -> int {
    match state {
        PlayerAnimationState::Idling(dir) => match dir {
            Direction::Up => 20 + frame,
            Direction::Down => 0 + frame,
            Direction::Right | Direction::Left => 10 + frame,
            Direction::UpRight | Direction::UpLeft => 15 + frame,
            Direction::DownRight | Direction::DownLeft => 5 + frame,
            Direction::Nothing => 8 + frame,
        },
        PlayerAnimationState::Walking(dir) => match dir {
            Direction::Up => 45 + frame,
            Direction::Down => 25 + frame,
            Direction::Right | Direction::Left => 35 + frame,
            Direction::UpRight | Direction::UpLeft => 40 + frame,
            Direction::DownRight | Direction::DownLeft => 30 + frame,
            Direction::Nothing => 25 + frame,
        },
    }
}

impl PlayerAnimation {
    /// The timer matches the state's interval and the frame is inside the
    /// state's cycle.
    pub open spec fn wf(self) -> bool {
        self.timer.wf() && self.timer.interval_us == self.state.interval_us_spec()
            && (self.frame as int) < self.state.frame_count_spec()
    }

    /// A freshly reset component in the given state.
    pub open spec fn fresh_spec(state: PlayerAnimationState) -> PlayerAnimation {
        PlayerAnimation {
            timer: AnimationTimer::fresh_spec(state.interval_us_spec()),
            frame: 0usize,
            state,
        }
    }

    /// A reset component idling in the given direction.
    pub fn idling(dir: Direction) -> (r: PlayerAnimation)
        ensures
            r == PlayerAnimation::fresh_spec(PlayerAnimationState::Idling(dir)),
            r.wf(),
    {
        PlayerAnimation {
            timer: AnimationTimer { elapsed_us: 0, interval_us: IDLE_INTERVAL_US, finished: false },
            frame: 0,
            state: PlayerAnimationState::Idling(dir),
        }
    }

    /// A reset component walking in the given direction.
    pub fn walking(dir: Direction) -> (r: PlayerAnimation)
        ensures
            r == PlayerAnimation::fresh_spec(PlayerAnimationState::Walking(dir)),
            r.wf(),
    {
        PlayerAnimation {
            timer: AnimationTimer {
                elapsed_us: 0,
                interval_us: WALKING_INTERVAL_US,
                finished: false,
            },
            frame: 0,
            state: PlayerAnimationState::Walking(dir),
        }
    }

    /// The spawn-time default: idling, facing down.
    pub fn new() -> (r: PlayerAnimation)
        ensures
            r == PlayerAnimation::fresh_spec(PlayerAnimationState::Idling(Direction::Down)),
            r.wf(),
    {
        PlayerAnimation::idling(Direction::Down)
    }

    pub fn is_walking(&self) -> (r: bool)
        ensures
            r == (self.state is Walking),
    {
        match self.state {
            PlayerAnimationState::Walking(_) => true,
            _ => false,
        }
    }

    pub fn get_direction(&self) -> (r: Direction)
        ensures
            r == self.state.direction_spec(),
    {
        match self.state {
            PlayerAnimationState::Idling(dir) => dir,
            PlayerAnimationState::Walking(dir) => dir,
        }
    }

    /// One tick of the frame timer: the frame advances by one for every
    /// interval expiry the tick completes, cyclically within the state's
    /// frame count.
    pub open spec fn update_timer_spec(self, delta_us: u64) -> PlayerAnimation {
        let t = self.timer.tick_spec(delta_us);
        if t.finished {
            PlayerAnimation {
                timer: t,
                frame: ((self.frame + self.timer.completed_intervals_spec(delta_us))
                    % self.state.frame_count_spec()) as usize,
                state: self.state,
            }
        } else {
            PlayerAnimation { timer: t, frame: self.frame, state: self.state }
        }
    }

    /// Advance the animation timer and, per completed interval, the
    /// frame index.
    pub fn update_timer(&mut self, delta_us: u64)
        requires
            old(self).wf(),
            delta_us <= MAX_TICK_US,
        ensures
            *final(self) == old(self).update_timer_spec(delta_us),
            final(self).wf(),
            final(self).state == old(self).state,
    {
        let completed: u64 = (self.timer.elapsed_us + delta_us) / self.timer.interval_us;
        self.timer.tick(delta_us);
        if !self.timer.is_finished() {
            return ;
        }
        let count: u64 = match self.state {
            PlayerAnimationState::Idling(_) => IDLE_FRAMES as u64,
            PlayerAnimationState::Walking(_) => WALKING_FRAMES as u64,
        };
        self.frame = (((self.frame as u64) + completed) % count) as usize;
    }

    /// A changed target state resets the component; the same state leaves
    /// it untouched.
    pub open spec fn update_state_spec(self, state: PlayerAnimationState) -> PlayerAnimation {
        if self.state == state {
            self
        } else {
            PlayerAnimation::fresh_spec(state)
        }
    }

    /// Switch to the target state, resetting timer and frame exactly when
    /// the state (variant or direction) differs.
    pub fn update_state(&mut self, state: PlayerAnimationState)
        requires
            old(self).wf(),
        ensures
            *final(self) == old(self).update_state_spec(state),
            final(self).wf(),
    {
        if self.state != state {
            match state {
                PlayerAnimationState::Idling(dir) => {
                    *self = PlayerAnimation::idling(dir);
                },
                PlayerAnimationState::Walking(dir) => {
                    *self = PlayerAnimation::walking(dir);
                },
            }
        }
    }

    /// Whether the animation frame changed this tick.
    pub fn changed(&self) -> (r: bool)
        ensures
            r == self.timer.finished,
    {
        self.timer.is_finished()
    }

    /// Sprite index in the atlas for the current state and frame.
    pub fn get_atlas_index(&self) -> (r: usize)
        requires
            self.wf(),
        ensures
            r == atlas_index_spec(self.state, self.frame as int),
    {
        match self.state {
            PlayerAnimationState::Idling(dir) => match dir {
                Direction::Up => 20 + self.frame,
                Direction::Down => 0 + self.frame,
                Direction::Right | Direction::Left => 10 + self.frame,
                Direction::UpRight | Direction::UpLeft => 15 + self.frame,
                Direction::DownRight | Direction::DownLeft => 5 + self.frame,
                Direction::Nothing => 8 + self.frame,
            },
            PlayerAnimationState::Walking(dir) => match dir {
                Direction::Up => 45 + self.frame,
                Direction::Down => 25 + self.frame,
                Direction::Right | Direction::Left => 35 + self.frame,
                Direction::UpRight | Direction::UpLeft => 40 + self.frame,
                Direction::DownRight | Direction::DownLeft => 30 + self.frame,
                Direction::Nothing => 25 + self.frame,
            },
        }
    }

    /// A footstep is due exactly when walking, the most recent tick
    /// crossed the frame interval, and it landed on frame 1.
    pub open spec fn step_sound_due_spec(self) -> bool {
        self.state is Walking && self.timer.finished && self.frame == 1
    }

    /// Whether this tick's frame advance calls for a footstep sound.
    pub fn step_sound_due(&self) -> (r: bool)
        ensures
            r == self.step_sound_due_spec(),
    {
        self.is_walking() && self.changed() && self.frame == 1
    }
}

/// Resolve the target animation state for a tick from the discretized
/// intent and the previous state.
pub fn resolve_state(intent: Direction, previous: PlayerAnimationState) -> (r: PlayerAnimationState)
    ensures
        r == resolve_state_spec(intent, previous),
{
    match intent {
        Direction::Nothing => {
            let dir = match previous {
                PlayerAnimationState::Idling(d) => d,
                PlayerAnimationState::Walking(d) => d,
            };
            PlayerAnimationState::Idling(dir)
        },
        _ => PlayerAnimationState::Walking(intent),
    }
}

/// Resolve the horizontal mirror flag for a tick.
pub fn resolve_flip(intent: Direction, previous_flip: bool) -> (r: bool)
    ensures
        r == resolve_flip_spec(intent, previous_flip),
{
    match intent {
        Direction::Nothing => previous_flip,
        _ => intent.is_leftward(),
    }
}

/// One movement-resolution step, run after the timers each tick: resolve
/// the target state from the discretized intent, update the mirror flag,
/// and switch the component, resetting it exactly on a state change.
pub fn update_animation_movement(
    animation: &mut PlayerAnimation,
    flip: &mut bool,
    intent: Direction,
)
    requires
        old(animation).wf(),
    ensures
        *final(animation) == old(animation).update_state_spec(
            resolve_state_spec(intent, old(animation).state),
        ),
        *final(flip) == resolve_flip_spec(intent, *old(flip)),
        final(animation).wf(),
{
    let state = resolve_state(intent, animation.state);
    *flip = resolve_flip(intent, *flip);
    animation.update_state(state);
}

/// The atlas write for a tick: the cell index exactly when this tick
/// advanced the frame, nothing on any other tick.
pub fn update_animation_atlas(animation: &PlayerAnimation) -> (r: Option<usize>)
    requires
        animation.wf(),
    ensures
        r is Some <==> animation.timer.finished,
        match r {
            Some(i) => i == atlas_index_spec(animation.state, animation.frame as int),
            None => true,
        },
{
    if animation.changed() {
        Some(animation.get_atlas_index())
    } else {
        None
    }
}

/// Relies on rand::rng and rand::Rng::random_range over `0..n`: a
/// uniformly distributed index below `n`; the range is non-empty, so the
/// call does not panic.
#[verifier::external_body]
fn random_index(n: usize) -> (r: usize)
    requires
        n > 0,
    ensures
        r < n,
{
    rand::Rng::random_range(&mut rand::rng(), 0..n)
}

/// Pick the footstep clip for this tick: a uniformly random clip index
/// exactly when a walking-interval expiry landed on frame 1, `None` on
/// every other tick. `clip_count` is the size of the loaded clip set,
/// which is never empty.
pub fn choose_step_sound(animation: &PlayerAnimation, clip_count: usize) -> (r: Option<usize>)
    requires
        clip_count > 0,
    ensures
        r is Some <==> animation.step_sound_due_spec(),
        match r {
            Some(i) => i < clip_count,
            None => true,
        },
{
    if animation.step_sound_due() {
        Some(random_index(clip_count))
    } else {
        None
    }
}

/// Law: on a zero intent the resolved state idles and keeps the previous
/// facing direction; on any other intent it walks in the intent's
/// direction. Idling arises from no other intent.
pub proof fn lemma_direction_persistence(intent: Direction, previous: PlayerAnimationState)
    ensures
        resolve_state_spec(intent, previous) is Idling <==> intent is Nothing,
        intent is Nothing ==> resolve_state_spec(intent, previous).direction_spec()
            == previous.direction_spec(),
        !(intent is Nothing) ==> resolve_state_spec(intent, previous)
            == PlayerAnimationState::Walking(intent),
{
}

/// Law: if the mirror flag agreed with the previous facing, it agrees
/// with the resolved facing after any tick, idle ticks included.
pub proof fn lemma_flip_tracks_direction(
    intent: Direction,
    previous: PlayerAnimationState,
    previous_flip: bool,
)
    requires
        previous_flip == previous.direction_spec().is_leftward_spec(),
    ensures
        resolve_flip_spec(intent, previous_flip) == resolve_state_spec(
            intent,
            previous,
        ).direction_spec().is_leftward_spec(),
{
}

/// The component after `n` ticks of `delta_us` each, with no state change
/// in between.
pub open spec fn ticks_spec(a: PlayerAnimation, delta_us: u64, n: nat) -> PlayerAnimation
    decreases n,
{
    if n == 0 {
        a
    } else {
        ticks_spec(a, delta_us, (n - 1) as nat).update_timer_spec(delta_us)
    }
}

proof fn lemma_ticks_with_interval(a: PlayerAnimation, n: nat)
    requires
        a.wf(),
    ensures
        ({
            let b = ticks_spec(a, a.timer.interval_us, n);
            b.state == a.state && b.timer.interval_us == a.timer.interval_us
                && b.timer.elapsed_us == a.timer.elapsed_us && b.frame == (a.frame + n)
                % a.state.frame_count_spec() && b.wf()
        }),
    decreases n,
{
    let c = a.state.frame_count_spec();
    if n == 0 {
        lemma_small_mod(a.frame as nat, c as nat);
    } else {
        lemma_ticks_with_interval(a, (n - 1) as nat);
        let b = ticks_spec(a, a.timer.interval_us, (n - 1) as nat);
        let iv = a.timer.interval_us;
        lemma_mod_multiples_vanish(1, b.timer.elapsed_us as int, iv as int);
        lemma_small_mod(b.timer.elapsed_us as nat, iv as nat);
        lemma_div_multiples_vanish_fancy(1, b.timer.elapsed_us as int, iv as int);
        assert(b.timer.completed_intervals_spec(iv) == 1);
        assert(b.timer.tick_spec(iv).finished);
        assert(b.timer.tick_spec(iv).elapsed_us == b.timer.elapsed_us);
        lemma_add_mod_noop(a.frame + (n - 1), 1, c);
        lemma_small_mod(1nat, c as nat);
        lemma_small_mod(((a.frame + n) % c) as nat, c as nat);
    }
}

/// Law: one tick advances the frame index by exactly the number of
/// interval expiries it completes, cyclically in the state's frame
/// count; a tick that completes none leaves the frame alone.
pub proof fn lemma_frame_advances_per_expiry(a: PlayerAnimation, delta_us: u64)
    requires
        a.wf(),
    ensures
        a.update_timer_spec(delta_us).frame == (a.frame + a.timer.completed_intervals_spec(
            delta_us,
        )) % a.state.frame_count_spec(),
        !a.timer.expires_spec(delta_us) ==> a.update_timer_spec(delta_us).frame == a.frame,
{
    if !a.timer.expires_spec(delta_us) {
        lemma_basic_div(a.timer.elapsed_us + delta_us, a.timer.interval_us as int);
        lemma_small_mod(a.frame as nat, a.state.frame_count_spec() as nat);
    }
}

/// Law: the frame cycle is closed. From any well-formed component, ticking
/// once per interval with no state change brings the frame back to its
/// starting index after exactly `frame_count` interval expiries.
pub proof fn lemma_full_cycle_returns_frame(a: PlayerAnimation)
    requires
        a.wf(),
    ensures
        ({
            let b = ticks_spec(a, a.timer.interval_us, a.state.frame_count_spec() as nat);
            b.frame == a.frame && b.state == a.state
        }),
{
    let c = a.state.frame_count_spec();
    lemma_ticks_with_interval(a, c as nat);
    lemma_mod_multiples_vanish(1, a.frame as int, c);
    lemma_small_mod(a.frame as nat, c as nat);
}

/// Law: after a timer tick, a footstep is due exactly when the component
/// was walking, that tick crossed the frame interval, and the advanced
/// frame index is 1; never while idling and never on a non-expiry tick.
pub proof fn lemma_footstep_trigger(a: PlayerAnimation, delta_us: u64)
    requires
        a.wf(),
        delta_us <= MAX_TICK_US,
    ensures
        ({
            let b = a.update_timer_spec(delta_us);
            (b.step_sound_due_spec() <==> (a.state is Walking && a.timer.expires_spec(delta_us)
                && b.frame == 1)) && (a.state is Idling ==> !b.step_sound_due_spec()) && (
            !a.timer.expires_spec(delta_us) ==> !b.step_sound_due_spec())
        }),
{
}

} // verus!

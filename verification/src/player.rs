use vstd::prelude::*;

use crate::config::ANIMATION_FRAMES;
use crate::config::FLAP_VELOCITY;
use crate::config::GRAVITY;
use crate::config::TERMINAL_VELOCITY;

verus! {

/// Mathematical model of the player: the same fields as `Player`, but over
/// unbounded integers, so the physics can be stated without overflow
/// side-conditions.
pub ghost struct PlayerModel {
    pub x: int,
    pub y: int,
    pub velocity: int,
    pub frame: int,
}

impl PlayerModel {
    /// Validity of a player state: the vertical position is clamped at the
    /// top boundary, the velocity lies between the flap impulse and the
    /// terminal-velocity cap, and the animation index is in range.
    pub open spec fn wf(self) -> bool {
        &&& 0 <= self.y
        &&& FLAP_VELOCITY <= self.velocity <= TERMINAL_VELOCITY
        &&& 0 <= self.frame < ANIMATION_FRAMES
    }
}

/// One gravity step on the velocity: accelerate by `GRAVITY` unless the
/// terminal-velocity cap has been reached, in which case leave it unchanged.
pub open spec fn gravity_velocity(v: int) -> int {
    if v < TERMINAL_VELOCITY {
        v + GRAVITY
    } else {
        v
    }
}

/// Clamp a vertical position to the top boundary.
pub open spec fn clamp_to_top(y: int) -> int {
    if y < 0 {
        0
    } else {
        y
    }
}

/// One fixed simulation tick of player physics: gravity accelerates the
/// velocity up to the cap, the velocity moves the vertical position (clamped
/// at the top boundary), the player scrolls one world unit to the right, and
/// the animation index advances cyclically.
pub open spec fn tick_model(p: PlayerModel) -> PlayerModel {
    PlayerModel {
        x: p.x + 1,
        y: clamp_to_top(p.y + gravity_velocity(p.velocity)),
        velocity: gravity_velocity(p.velocity),
        frame: (p.frame + 1) % (ANIMATION_FRAMES as int),
    }
}

/// A flap impulse: the velocity is set (not added) to the fixed upward
/// impulse value; nothing else changes.
pub open spec fn flap_model(p: PlayerModel) -> PlayerModel {
    PlayerModel { velocity: FLAP_VELOCITY as int, ..p }
}

/// The player state after `n` consecutive physics ticks.
pub open spec fn run_ticks(p: PlayerModel, n: nat) -> PlayerModel
    decreases n,
{
    if n == 0 {
        p
    } else {
        tick_model(run_ticks(p, (n - 1) as nat))
    }
}

/// The controllable entity: horizontal distance traveled, vertical position,
/// vertical velocity, and a cosmetic cyclic animation index. Positions and
/// velocities are in tenths of a world unit.
pub struct Player {
    pub x: u64,
    pub y: i64,
    pub velocity: i64,
    pub frame: usize,
}

impl View for Player {
    type V = PlayerModel;

    open spec fn view(&self) -> PlayerModel {
        PlayerModel {
            x: self.x as int,
            y: self.y as int,
            velocity: self.velocity as int,
            frame: self.frame as int,
        }
    }
}

impl Player {
    pub open spec fn wf(self) -> bool {
        self@.wf()
    }

    /// A fresh player at the given position, at rest and at the start of the
    /// animation cycle.
    pub fn new(x: u64, y: i64) -> (p: Player)
        requires
            y >= 0,
        ensures
            p@ == (PlayerModel { x: x as int, y: y as int, velocity: 0, frame: 0 }),
            p.wf(),
    {
        Player { x, y, velocity: 0, frame: 0 }
    }

    /// One fixed simulation tick: gravity, vertical movement with clamping,
    /// horizontal scroll, animation advance. The velocity never exceeds the
    /// terminal-velocity cap and never decreases under gravity alone, and the
    /// vertical position never goes above the top boundary.
    pub fn gravity_and_move(&mut self)
        requires
            old(self).wf(),
            old(self).x < u64::MAX,
            old(self)@.y + TERMINAL_VELOCITY <= i64::MAX,
        ensures
            final(self)@ == tick_model(old(self)@),
            final(self).wf(),
            final(self).velocity <= TERMINAL_VELOCITY,
            final(self).velocity >= old(self).velocity,
            final(self).y >= 0,
            final(self).x == old(self).x + 1,
    {
        if self.velocity < TERMINAL_VELOCITY {
            self.velocity = self.velocity + GRAVITY;
        }
        let moved = self.y + self.velocity;
        self.y = if moved < 0 {
            0
        } else {
            moved
        };
        self.x = self.x + 1;
        self.frame = (self.frame + 1) % ANIMATION_FRAMES;
    }

    /// A flap impulse: overrides the current velocity with the fixed upward
    /// impulse value. Applying it twice has the same effect as applying it
    /// once.
    pub fn flap(&mut self)
        ensures
            final(self)@ == flap_model(old(self)@),
            final(self).velocity == FLAP_VELOCITY,
            final(self).x == old(self).x,
            final(self).y == old(self).y,
            final(self).frame == old(self).frame,
            old(self).wf() ==> final(self).wf(),
    {
        self.velocity = FLAP_VELOCITY;
    }
}

/// A discrete physics input to the player: either one fixed simulation tick
/// under gravity, or a flap impulse.
pub enum PlayerEvent {
    Tick,
    Flap,
}

/// The player state after one event.
pub open spec fn apply_event(p: PlayerModel, e: PlayerEvent) -> PlayerModel {
    match e {
        PlayerEvent::Tick => tick_model(p),
        PlayerEvent::Flap => flap_model(p),
    }
}

/// The player state after a whole sequence of events, applied left to right.
pub open spec fn apply_events(p: PlayerModel, events: Seq<PlayerEvent>) -> PlayerModel
    decreases events.len(),
{
    if events.len() == 0 {
        p
    } else {
        apply_event(apply_events(p, events.drop_last()), events.last())
    }
}

/// Law: a single event preserves validity, and in particular keeps the
/// vertical position at or below the top boundary and the velocity at or
/// below the terminal-velocity cap.
pub proof fn lemma_event_preserves_wf(p: PlayerModel, e: PlayerEvent)
    requires
        p.wf(),
    ensures
        apply_event(p, e).wf(),
{
}

/// Law: under any sequence of gravity ticks and flap impulses, a valid
/// player state stays valid; in particular `y >= 0` holds after every
/// clamping step and the velocity never exceeds the terminal-velocity cap.
pub proof fn lemma_player_wf_any_events(p: PlayerModel, events: Seq<PlayerEvent>)
    requires
        p.wf(),
    ensures
        apply_events(p, events).wf(),
        apply_events(p, events).y >= 0,
        apply_events(p, events).velocity <= TERMINAL_VELOCITY,
    decreases events.len(),
{
    if events.len() > 0 {
        lemma_player_wf_any_events(p, events.drop_last());
        lemma_event_preserves_wf(apply_events(p, events.drop_last()), events.last());
    }
}

/// Law: gravity alone never decreases the velocity, and leaves it unchanged
/// exactly when the cap has been reached.
pub proof fn lemma_gravity_monotone(p: PlayerModel)
    requires
        p.wf(),
    ensures
        tick_model(p).velocity >= p.velocity,
        tick_model(p).velocity <= TERMINAL_VELOCITY,
        p.velocity == TERMINAL_VELOCITY ==> tick_model(p).velocity == p.velocity,
{
}

/// Law: a flap impulse is idempotent; flapping twice within one frame leaves
/// exactly the state one flap leaves.
pub proof fn lemma_flap_idempotent(p: PlayerModel)
    ensures
        flap_model(flap_model(p)) == flap_model(p),
{
}

/// Running `n` ticks from a valid state: the state stays valid, the player
/// scrolls exactly `n` world units, and the vertical position grows by at
/// most the terminal velocity per tick.
pub proof fn lemma_run_ticks_bounds(p: PlayerModel, n: nat)
    requires
        p.wf(),
    ensures
        run_ticks(p, n).wf(),
        run_ticks(p, n).x == p.x + n,
        run_ticks(p, n).y <= p.y + TERMINAL_VELOCITY * n,
        run_ticks(p, n).velocity >= p.velocity,
    decreases n,
{
    if n > 0 {
        lemma_run_ticks_bounds(p, (n - 1) as nat);
        assert(TERMINAL_VELOCITY * n == TERMINAL_VELOCITY * (n - 1) + TERMINAL_VELOCITY) by (nonlinear_arith);
    }
}

/// Law: physics ticks compose; running `m + n` ticks is running `m` and then
/// `n`. With the accumulator's time conservation this makes the simulation
/// independent of how the host batches frame time.
pub proof fn lemma_run_ticks_additive(p: PlayerModel, m: nat, n: nat)
    ensures
        run_ticks(p, m + n) == run_ticks(run_ticks(p, m), n),
    decreases n,
{
    if n > 0 {
        lemma_run_ticks_additive(p, m, (n - 1) as nat);
        assert(run_ticks(p, m + n) == tick_model(run_ticks(p, (m + n - 1) as nat)));
    }
}

/// Unrolling: one more tick on the end of a run.
pub proof fn lemma_run_ticks_step(p: PlayerModel, n: nat)
    ensures
        run_ticks(p, n + 1) == tick_model(run_ticks(p, n)),
{
    assert(run_ticks(p, n + 1) == tick_model(run_ticks(p, (n + 1 - 1) as nat)));
}

} // verus!

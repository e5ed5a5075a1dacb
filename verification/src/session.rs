use vstd::prelude::*;
use vstd::arithmetic::div_mod::lemma_div_is_ordered;
use vstd::arithmetic::div_mod::lemma_div_multiples_vanish;
use vstd::arithmetic::div_mod::lemma_fundamental_div_mod_converse;

use bracket_lib::random::RandomNumberGenerator;

use crate::config::PLAYER_START_X;
use crate::config::PLAYER_START_Y;
use crate::config::SCREEN_HEIGHT;
use crate::config::SCREEN_WIDTH;
use crate::config::TERMINAL_VELOCITY;
use crate::config::TICK_MS;
use crate::obstacle::Obstacle;
use crate::obstacle::ObstacleModel;
use crate::obstacle::spawned_at;
use crate::obstacle::spec_hit;
use crate::player::Player;
use crate::player::PlayerModel;
use crate::player::flap_model;
use crate::player::run_ticks;
use crate::player::tick_model;

verus! {

/// Mathematical model of a game session, over unbounded integers.
pub ghost struct SessionModel {
    pub player: PlayerModel,
    pub obstacle: ObstacleModel,
    pub score: int,
    pub accum: int,
}

impl SessionModel {
    /// Validity of a session: both entities are valid, the frame-time
    /// accumulator carries strictly less than one tick, and the score never
    /// outruns the obstacle's horizontal position (scoring happens only when
    /// the player passes the obstacle, which sits ever further right).
    pub open spec fn wf(self) -> bool {
        &&& self.player.wf()
        &&& self.obstacle.wf()
        &&& 0 <= self.accum < TICK_MS
        &&& 0 <= self.score <= self.obstacle.x
    }
}

/// How many whole simulation ticks an accumulated frame time yields.
pub open spec fn ticks_of(accum: int, elapsed: int) -> int {
    (accum + elapsed) / (TICK_MS as int)
}

/// The player state at the end of one frame: first every elapsed whole tick
/// of physics, then the flap impulse if one was requested this frame (applied
/// at most once, however many flap events the host saw).
pub open spec fn player_after_frame(p: PlayerModel, accum: int, elapsed: int, flap: bool) -> PlayerModel {
    let ticked = run_ticks(p, ticks_of(accum, elapsed) as nat);
    if flap {
        flap_model(ticked)
    } else {
        ticked
    }
}

/// A freshly created session: the player at the fixed start position and at
/// rest, one obstacle a screen width ahead, score zero, empty accumulator.
pub open spec fn session_init(s: SessionModel) -> bool {
    &&& s.player == (PlayerModel { x: PLAYER_START_X as int, y: PLAYER_START_Y as int, velocity: 0, frame: 0 })
    &&& spawned_at(s.obstacle, SCREEN_WIDTH as int, 0)
    &&& s.score == 0
    &&& s.accum == 0
    &&& s.wf()
}

/// Everything one `advance` call does, as a relation between the session
/// before and after it. The gap center of a newly spawned obstacle is
/// random, so the relation fixes every field but that one.
pub open spec fn advance_rel(pre: SessionModel, elapsed: int, flap: bool, post: SessionModel, ended: bool) -> bool {
    let p2 = player_after_frame(pre.player, pre.accum, elapsed, flap);
    let passed = p2.x > pre.obstacle.x;
    &&& post.player == p2
    &&& post.accum == (pre.accum + elapsed) % (TICK_MS as int)
    &&& post.score == if passed { pre.score + 1 } else { pre.score }
    &&& (passed ==> spawned_at(post.obstacle, p2.x + SCREEN_WIDTH, pre.score + 1))
    &&& (!passed ==> post.obstacle == pre.obstacle)
    &&& ended == (p2.y > SCREEN_HEIGHT || spec_hit(post.obstacle, p2))
}

/// Law: the accumulator loses no time. Whatever frame time arrives, it is
/// consumed as whole simulation ticks plus a remainder strictly below one
/// tick, carried to the next frame; so the same sequence of frame deltas
/// always yields the same sequence of ticks, however the host batches them.
pub proof fn lemma_accumulator_conserves_time(accum: int, elapsed: int)
    requires
        0 <= accum,
        0 <= elapsed,
    ensures
        accum + elapsed == TICK_MS * ticks_of(accum, elapsed) + (accum + elapsed) % (TICK_MS as int),
        0 <= (accum + elapsed) % (TICK_MS as int) < TICK_MS,
        ticks_of(accum, elapsed) >= 0,
{
    vstd::arithmetic::div_mod::lemma_fundamental_div_mod(accum + elapsed, TICK_MS as int);
    vstd::arithmetic::div_mod::lemma_mod_bound(accum + elapsed, TICK_MS as int);
    vstd::arithmetic::div_mod::lemma_div_pos_is_pos(accum + elapsed, TICK_MS as int);
}

/// Law: how the host batches frame time is irrelevant to the simulation.
/// Delivering `e1` milliseconds and then `e2` yields exactly as many whole
/// ticks, and leaves exactly the remainder, as delivering `e1 + e2` at once.
pub proof fn lemma_ticks_independent_of_batching(accum: int, e1: int, e2: int)
    requires
        0 <= accum,
        0 <= e1,
        0 <= e2,
    ensures
        ticks_of(accum, e1) + ticks_of((accum + e1) % (TICK_MS as int), e2) == ticks_of(accum, e1 + e2),
        ((accum + e1) % (TICK_MS as int) + e2) % (TICK_MS as int) == (accum + e1 + e2) % (TICK_MS as int),
{
    let t = TICK_MS as int;
    let r1 = (accum + e1) % t;
    vstd::arithmetic::div_mod::lemma_fundamental_div_mod(accum + e1, t);
    vstd::arithmetic::div_mod::lemma_mod_bound(accum + e1, t);
    vstd::arithmetic::div_mod::lemma_fundamental_div_mod(r1 + e2, t);
    vstd::arithmetic::div_mod::lemma_mod_bound(r1 + e2, t);
    lemma_fundamental_div_mod_converse(
        accum + e1 + e2,
        t,
        (accum + e1) / t + (r1 + e2) / t,
        (r1 + e2) % t,
    );
}

/// One live run of the game: exactly one player, the current obstacle, the
/// score so far, and the frame-time accumulator that turns wall-clock frame
/// deltas into fixed simulation ticks.
pub struct GameSession {
    pub player: Player,
    pub obstacle: Obstacle,
    pub score: u64,
    pub accum: u64,
}

impl View for GameSession {
    type V = SessionModel;

    open spec fn view(&self) -> SessionModel {
        SessionModel {
            player: self.player@,
            obstacle: self.obstacle@,
            score: self.score as int,
            accum: self.accum as int,
        }
    }
}

impl GameSession {
    pub open spec fn wf(self) -> bool {
        self@.wf()
    }

    /// A fresh session, as created on entering play or on restart.
    pub fn new(rng: &mut RandomNumberGenerator) -> (s: GameSession)
        ensures
            session_init(s@),
            s.wf(),
    {
        GameSession {
            player: Player::new(PLAYER_START_X, PLAYER_START_Y),
            obstacle: Obstacle::new(SCREEN_WIDTH, 0, rng),
            score: 0,
            accum: 0,
        }
    }

    /// The score so far, for the render sink.
    pub fn score(&self) -> (r: u64)
        ensures
            r == self.score,
    {
        self.score
    }

    /// One rendered frame while playing: accumulate the elapsed time, run one
    /// physics tick per whole tick duration accumulated, apply at most one
    /// flap impulse if one was requested, then score a pass event and report
    /// whether the session has ended (the player fell out of the playfield or
    /// collided with the obstacle). A pass event scores exactly once, however
    /// many ticks this frame contained, and replaces the obstacle with a
    /// fresh one a screen width ahead of the player.
    ///
    /// The arithmetic side-conditions keep the horizontal scroll, the
    /// accumulator and the vertical position inside their machine types; a
    /// host that feeds frame times of sane size can always meet them.
    pub fn advance(&mut self, rng: &mut RandomNumberGenerator, elapsed_ms: u64, flap_requested: bool) -> (ended: bool)
        requires
            old(self).wf(),
            old(self)@.accum + elapsed_ms <= u64::MAX,
            old(self)@.player.x + ticks_of(old(self)@.accum, elapsed_ms as int) + SCREEN_WIDTH <= u64::MAX,
            old(self)@.player.y + TERMINAL_VELOCITY * ticks_of(old(self)@.accum, elapsed_ms as int) <= i64::MAX,
        ensures
            advance_rel(old(self)@, elapsed_ms as int, flap_requested, final(self)@, ended),
            final(self).wf(),
            final(self).score == old(self).score || final(self).score == old(self).score + 1,
    {
        self.accum = self.accum + elapsed_ms;
        let ghost p0 = self.player@;
        let ghost obs0 = self.obstacle@;
        let ghost score0 = self.score as int;
        let ghost total: int = self.accum as int;
        let ghost n_total: int = total / (TICK_MS as int);
        let ghost mut i: int = 0;
        proof {
            lemma_div_is_ordered(0, total, TICK_MS as int);
        }
        while self.accum >= TICK_MS
            invariant
                p0.wf(),
                0 <= i <= n_total,
                self.player@ == run_ticks(p0, i as nat),
                total == self.accum + TICK_MS * i,
                n_total == total / (TICK_MS as int),
                p0.x + n_total + SCREEN_WIDTH <= u64::MAX,
                p0.y + TERMINAL_VELOCITY * n_total <= i64::MAX,
                self.obstacle@ == obs0,
                self.score == score0,
            decreases self.accum,
        {
            proof {
                assert(TICK_MS * (i + 1) <= total);
                lemma_div_is_ordered(TICK_MS * (i + 1), total, TICK_MS as int);
                lemma_div_multiples_vanish(i + 1, TICK_MS as int);
                crate::player::lemma_run_ticks_bounds(p0, i as nat);
                assert(TERMINAL_VELOCITY * (i + 1) <= TERMINAL_VELOCITY * n_total) by (nonlinear_arith)
                    requires i + 1 <= n_total;
                assert(TERMINAL_VELOCITY * (i + 1) == TERMINAL_VELOCITY * i + TERMINAL_VELOCITY) by (nonlinear_arith);
            }
            self.accum = self.accum - TICK_MS;
            self.player.gravity_and_move();
            proof {
                crate::player::lemma_run_ticks_step(p0, i as nat);
                i = i + 1;
            }
        }
        proof {
            lemma_fundamental_div_mod_converse(total, TICK_MS as int, i, self.accum as int);
            crate::player::lemma_run_ticks_bounds(p0, i as nat);
        }
        if flap_requested {
            self.player.flap();
        }
        if self.player.x > self.obstacle.x {
            self.score = self.score + 1;
            self.obstacle = Obstacle::new(self.player.x + SCREEN_WIDTH, self.score, rng);
        }
        let ended = self.player.y > SCREEN_HEIGHT || self.obstacle.hit_obstacle(&self.player);
        ended
    }
}

} // verus!

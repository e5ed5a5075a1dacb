use vstd::prelude::*;

use bracket_lib::random::RandomNumberGenerator;

use crate::config::BASE_GAP_SIZE;
use crate::config::GAP_CENTER_MAX;
use crate::config::GAP_CENTER_MIN;
use crate::config::MIN_GAP_SIZE;
use crate::config::SCALE;
use crate::player::PlayerModel;
use crate::rng::rng_range;

verus! {

/// Mathematical model of an obstacle, over unbounded integers.
pub ghost struct ObstacleModel {
    pub x: int,
    pub gap_center: int,
    pub gap_size: int,
}

impl ObstacleModel {
    /// Validity of an obstacle: the gap extent lies between the configured
    /// floor and the base extent and is even (so its half is exact), and the
    /// gap center lies strictly inside the playfield.
    pub open spec fn wf(self) -> bool {
        &&& MIN_GAP_SIZE <= self.gap_size <= BASE_GAP_SIZE
        &&& self.gap_size % 2 == 0
        &&& GAP_CENTER_MIN <= self.gap_center < GAP_CENTER_MAX
    }

    /// Lower edge of the passable gap band.
    pub open spec fn gap_low(self) -> int {
        self.gap_center - self.gap_size / 2
    }

    /// Upper edge of the passable gap band.
    pub open spec fn gap_high(self) -> int {
        self.gap_center + self.gap_size / 2
    }
}

/// The gap extent generated at a given score: shrinks by one world unit per
/// point, floored at the configured minimum so the game never becomes
/// unwinnable.
pub open spec fn spec_gap_size(score: int) -> int {
    if BASE_GAP_SIZE - SCALE * score < MIN_GAP_SIZE {
        MIN_GAP_SIZE as int
    } else {
        BASE_GAP_SIZE - SCALE * score
    }
}

/// What obstacle generation promises: the horizontal position is the one
/// asked for, the gap extent is the difficulty-scaled one for the given
/// score, and the gap center lies in the configured range. The gap center
/// itself is random, so nothing more is said of it.
pub open spec fn spawned_at(o: ObstacleModel, x: int, score: int) -> bool {
    &&& o.x == x
    &&& o.gap_size == spec_gap_size(score)
    &&& GAP_CENTER_MIN <= o.gap_center < GAP_CENTER_MAX
    &&& o.wf()
}

/// The collision test: the player collides exactly when it is horizontally
/// aligned with the obstacle and its vertical position lies strictly outside
/// the gap band; the band's edges belong to the open gap.
pub open spec fn spec_hit(o: ObstacleModel, p: PlayerModel) -> bool {
    &&& p.x == o.x
    &&& (p.y < o.gap_low() || p.y > o.gap_high())
}

/// A gap barrier: fixed horizontal position, vertical center of the passable
/// gap, and the gap's extent, the latter two in tenths of a world unit.
pub struct Obstacle {
    pub x: u64,
    pub gap_center: i64,
    pub gap_size: i64,
}

impl View for Obstacle {
    type V = ObstacleModel;

    open spec fn view(&self) -> ObstacleModel {
        ObstacleModel {
            x: self.x as int,
            gap_center: self.gap_center as int,
            gap_size: self.gap_size as int,
        }
    }
}

impl Obstacle {
    pub open spec fn wf(self) -> bool {
        self@.wf()
    }

    /// A freshly generated obstacle at horizontal position `x` for the given
    /// score: the gap center is drawn uniformly at random from the configured
    /// range, and the gap extent shrinks with the score down to the floor.
    pub fn new(x: u64, score: u64, rng: &mut RandomNumberGenerator) -> (o: Obstacle)
        ensures
            spawned_at(o@, x as int, score as int),
    {
        let gap_center = rng_range(rng, GAP_CENTER_MIN, GAP_CENTER_MAX);
        let gap_size: i64 = if score >= 18 {
            MIN_GAP_SIZE
        } else {
            BASE_GAP_SIZE - SCALE * (score as i64)
        };
        proof {
            if score < 18 {
                assert((BASE_GAP_SIZE - SCALE * (score as int)) % 2 == 0) by {
                    let k = 100 - 5 * (score as int);
                    assert(BASE_GAP_SIZE - SCALE * (score as int) == 2 * k);
                    assert((2 * k) % 2 == 0) by (nonlinear_arith);
                }
            }
        }
        Obstacle { x, gap_center, gap_size }
    }

    /// The collision test of the core: true iff the player is horizontally
    /// aligned with this obstacle and vertically strictly outside the gap
    /// band. Positions exactly on the band's edges count as inside the gap.
    pub fn hit_obstacle(&self, player: &crate::player::Player) -> (r: bool)
        requires
            self.wf(),
        ensures
            r == spec_hit(self@, player@),
    {
        let half_size = self.gap_size / 2;
        let x_matches = player.x == self.x;
        let above_gap = player.y < self.gap_center - half_size;
        let below_gap = player.y > self.gap_center + half_size;
        x_matches && (above_gap || below_gap)
    }

    /// The edges of the passable gap band, lower then upper; the band between
    /// them, edges included, is open.
    pub fn gap_bounds(&self) -> (r: (i64, i64))
        requires
            self.wf(),
        ensures
            r.0 == self@.gap_low(),
            r.1 == self@.gap_high(),
    {
        let half_size = self.gap_size / 2;
        (self.gap_center - half_size, self.gap_center + half_size)
    }
}

/// Law: the gap extent is non-increasing as a function of the score and
/// never falls below the configured minimum, for every score.
pub proof fn lemma_gap_size_monotone(score1: int, score2: int)
    requires
        0 <= score1 <= score2,
    ensures
        spec_gap_size(score2) <= spec_gap_size(score1),
        MIN_GAP_SIZE <= spec_gap_size(score2) <= BASE_GAP_SIZE,
{
}

} // verus!

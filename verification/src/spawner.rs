//! Procedural obstacle spawning: the only source of new obstacles. The
//! spawn decision and the variant choice are pure functions of the frame
//! counter and the score, gated by a minimum-spacing rule.

use vstd::prelude::*;
use crate::model::{maybe_spawn_m, pick_variant};
use crate::sprites::ObstacleType;
use crate::state::{GameState, Obstacle, ObstacleModel, SCALE};

verus! {

/// Shortest possible spawn cadence, in frames.
pub const MIN_SPAWN_INTERVAL: u64 = 60;

/// One past the longest possible spawn cadence, in frames.
pub const MAX_SPAWN_INTERVAL: u64 = 120;

/// Score at which the tall variant is unlocked.
pub const TALL_THRESHOLD: u32 = 500;

/// Score at which the double variant is unlocked.
pub const DOUBLE_THRESHOLD: u32 = 1000;

/// Score at which the flying variant is unlocked.
pub const FLYING_THRESHOLD: u32 = 1500;

/// Cells past the right viewport edge at which obstacles enter.
pub const SPAWN_MARGIN: i64 = 10;

/// Required gap to the previous obstacle, in cells per speed unit.
pub const SPAWN_SPACING: i64 = 30;

/// Odd multiplier mixing the frame counter into the spawn seed.
pub const SPAWN_SEED_MULTIPLIER: u64 = 31_337;

/// Second prime multiplier deriving the variant draw from the seed.
pub const TYPE_SEED_MULTIPLIER: u64 = 7_919;

/// Farthest position any obstacle can occupy: the spawn point at the
/// widest possible viewport.
pub const MAX_SPAWN_X: i64 = (65_535 + 10) * 10_000;

impl GameState {
    /// Possibly introduce one new obstacle just past the right viewport
    /// edge: suppressed while the previous obstacle is still too close
    /// (the required gap grows with speed), and otherwise gated by the
    /// deterministic pseudo-random cadence drawn from the frame counter
    /// and the score.
    pub fn maybe_spawn_obstacle(&mut self)
        requires
            old(self)@.wf(),
        ensures
            final(self)@ == maybe_spawn_m(old(self)@),
            final(self)@.wf(),
    {
        let spawn_x = (self.terminal_width as i64 + SPAWN_MARGIN) * SCALE;

        if self.obstacles.len() > 0 {
            let last = &self.obstacles[self.obstacles.len() - 1];
            proof {
                assert(self@.obstacles[self@.obstacles.len() - 1] == last@);
                assert(crate::model::obstacle_in_bounds(self@.obstacles.last()));
            }
            // Minimum-spacing guard against unfair back-to-back spawns.
            let min_distance = SPAWN_SPACING * (self.speed as i64);
            if spawn_x - last.x < min_distance {
                return;
            }
        }

        // Deterministic pseudo-random gate: the cadence is a pure function
        // of the frame counter and the score.
        let seed = self.frame_count.wrapping_mul(SPAWN_SEED_MULTIPLIER).wrapping_add(
            self.score as u64,
        );
        let interval = MIN_SPAWN_INTERVAL + seed % (MAX_SPAWN_INTERVAL - MIN_SPAWN_INTERVAL);

        if self.frame_count % interval == 0 {
            let obstacle_type = self.pick_obstacle_type(seed);
            let ghost before = self@.obstacles;
            self.obstacles.push(Obstacle::new(spawn_x, obstacle_type));
            proof {
                let spawned = ObstacleModel {
                    x: spawn_x as int,
                    obstacle_type,
                    passed: false,
                };
                assert(self@.obstacles =~= before.push(spawned));
                assert forall|i: int, j: int| 0 <= i <= j < self@.obstacles.len() implies
                    #[trigger] self@.obstacles[i].x <= #[trigger] self@.obstacles[j].x by {
                    if j < before.len() {
                        assert(self@.obstacles[i] == before[i] && self@.obstacles[j] == before[j]);
                    } else if i < before.len() {
                        assert(before[i].x <= before[before.len() - 1].x);
                    }
                }
            }
        }
    }

    /// Choose the spawned obstacle's variant: a second pseudo-random draw
    /// from the seed, restricted by the score-gated difficulty bands.
    fn pick_obstacle_type(&self, seed: u64) -> (t: ObstacleType)
        ensures
            t == pick_variant(self.score, seed),
    {
        let type_seed = seed.wrapping_mul(TYPE_SEED_MULTIPLIER);
        let band = type_seed % 10;

        if self.score < TALL_THRESHOLD {
            // Early game: only small obstacles.
            ObstacleType::Small
        } else if self.score < DOUBLE_THRESHOLD {
            // Mid game: 60% small, 40% tall.
            if band <= 5 {
                ObstacleType::Small
            } else {
                ObstacleType::Tall
            }
        } else if self.score < FLYING_THRESHOLD {
            // Later game: 50% small, 30% tall, 20% double.
            if band <= 4 {
                ObstacleType::Small
            } else if band <= 7 {
                ObstacleType::Tall
            } else {
                ObstacleType::Double
            }
        } else {
            // Full game: 40% small, 20% tall, 20% double, 20% flying.
            if band <= 3 {
                ObstacleType::Small
            } else if band <= 5 {
                ObstacleType::Tall
            } else if band <= 7 {
                ObstacleType::Double
            } else {
                ObstacleType::Flying
            }
        }
    }
}

} // verus!

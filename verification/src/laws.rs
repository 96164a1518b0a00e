//! The simulation's guarantees, stated and proved once over the transition
//! specification in `model`. Since every executable operation promises
//! that the new view equals the corresponding transition function of the
//! old view, each law here holds of every session the driver can produce.

use vstd::prelude::*;
use crate::model::{
    jump_m, lemma_newly_passed_count_bounds, lemma_step_obstacles_provenance,
    lemma_step_obstacles_wf, lemma_tick_m_wf, newly_passed, newly_passed_count, obstacle_shift,
    on_screen, pick_variant, ramp_speed, spawn_due, spawn_interval, spawn_seed, step_obstacle,
    step_obstacles, tick_m,
};
use crate::physics::{CLEAR_BONUS, MAX_SPEED, SURVIVAL_POINTS};
use crate::state::{GameModel, ObstacleModel, SCALE};

verus! {

/// Ground invariant: a well-formed state stays well-formed across a
/// frame; in particular the player is never below ground, and whenever
/// the player is running it stands exactly on the ground with zero
/// vertical velocity.
pub proof fn lemma_tick_preserves_invariant(s: GameModel)
    requires
        s.wf(),
    ensures
        tick_m(s).wf(),
        tick_m(s).player.y >= 0,
        tick_m(s).player.state is Running ==> tick_m(s).player.y == 0
            && tick_m(s).player.velocity_y == 0,
{
    lemma_tick_m_wf(s);
}

/// A jump request is a no-op unless the player is running on the ground.
pub proof fn lemma_jump_gated(s: GameModel)
    requires
        !(s.player.state is Running && s.player.y <= 0),
    ensures
        jump_m(s) == s,
{
}

/// Two jump requests in a row start only one jump: once the first is
/// honoured the player is airborne, so the second changes nothing.
pub proof fn lemma_jump_twice(s: GameModel)
    ensures
        jump_m(jump_m(s)) == jump_m(s),
{
}

/// The score never decreases across a frame: it grows by the survival
/// point plus the clearance bonus for each obstacle passed for the first
/// time this frame.
pub proof fn lemma_score_progress(s: GameModel)
    requires
        s.wf(),
    ensures
        tick_m(s).score == s.score + SURVIVAL_POINTS + CLEAR_BONUS * newly_passed_count(
            s.obstacles,
            obstacle_shift(ramp_speed(s.speed)),
            s.player.x,
        ),
        tick_m(s).score >= s.score + 1,
{
    lemma_newly_passed_count_bounds(s.obstacles, obstacle_shift(ramp_speed(s.speed)), s.player.x);
}

/// The `passed` flag is a latch: a frame step sets it exactly when the
/// obstacle's trailing edge has moved left of the player, and never
/// clears it again.
pub proof fn lemma_passed_latch(o: ObstacleModel, dx: int, px: int)
    ensures
        step_obstacle(o, dx, px).passed == (o.passed || (o.x - dx)
            + o.obstacle_type.spec_width() * SCALE < px),
        o.passed ==> step_obstacle(o, dx, px).passed,
        newly_passed(o, dx, px) == (!o.passed && step_obstacle(o, dx, px).passed),
{
}

/// The speed multiplier never decreases and never exceeds its cap.
pub proof fn lemma_speed_ramp(s: GameModel)
    requires
        s.wf(),
    ensures
        tick_m(s).speed >= s.speed,
        tick_m(s).speed <= MAX_SPEED,
{
}

/// The spawn gate and the variant choice are pure functions of the frame
/// counter and the score: two states that agree on those agree on the
/// whole pseudo-random draw, with no generator state anywhere else.
pub proof fn lemma_spawn_deterministic(s1: GameModel, s2: GameModel)
    requires
        s1.frame_count == s2.frame_count,
        s1.score == s2.score,
    ensures
        spawn_seed(s1.frame_count as u64, s1.score as u32) == spawn_seed(
            s2.frame_count as u64,
            s2.score as u32,
        ),
        spawn_interval(s1.frame_count as u64, s1.score as u32) == spawn_interval(
            s2.frame_count as u64,
            s2.score as u32,
        ),
        spawn_due(s1.frame_count as u64, s1.score as u32) == spawn_due(
            s2.frame_count as u64,
            s2.score as u32,
        ),
        pick_variant(s1.score as u32, spawn_seed(s1.frame_count as u64, s1.score as u32))
            == pick_variant(s2.score as u32, spawn_seed(s2.frame_count as u64, s2.score as u32)),
{
}

/// Obstacle lifecycle across a frame: every surviving obstacle is on
/// screen, and every surviving obstacle is one of the previous frame's
/// obstacles advanced and marked — none is altered otherwise, none comes
/// back once removed. Together with the latch law this bounds each
/// obstacle's `passed` transition to a single `false` to `true` flip.
pub proof fn lemma_obstacle_lifecycle(s: GameModel)
    requires
        s.wf(),
    ensures
        forall|j: int| 0 <= j < tick_m(s).obstacles.len() ==> on_screen(
            #[trigger] tick_m(s).obstacles[j].x,
        ),
        forall|j: int| 0 <= j < tick_m(s).obstacles.len() ==> exists|k: int|
            0 <= k < s.obstacles.len() && #[trigger] tick_m(s).obstacles[j] == step_obstacle(
                s.obstacles[k],
                obstacle_shift(ramp_speed(s.speed)),
                s.player.x,
            ),
{
    let dx = obstacle_shift(ramp_speed(s.speed));
    lemma_step_obstacles_wf(s.obstacles, dx, s.player.x);
    lemma_step_obstacles_provenance(s.obstacles, dx, s.player.x);
    assert forall|j: int| 0 <= j < tick_m(s).obstacles.len() implies on_screen(
        #[trigger] tick_m(s).obstacles[j].x,
    ) by {
        assert(crate::model::obstacle_in_bounds(step_obstacles(s.obstacles, dx, s.player.x)[j]));
    }
}

} // verus!

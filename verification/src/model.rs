//! The transition specification: total functions over the ghost models that
//! say exactly what one frame does, plus the well-formedness predicate that
//! every operation preserves.
//!
//! The executable operations in `physics` and `spawner` each promise that
//! the new state's view equals the corresponding function applied to the
//! old state's view, so every question about the simulation's behaviour
//! reduces to these definitions.

use vstd::prelude::*;
use crate::events::GameAction;
use crate::physics::{
    BASE_SCROLL_SPEED, CLEAR_BONUS, COLLISION_FLASH_FRAMES, GRAVITY, HITBOX_INSET,
    JUMP_VELOCITY, LANDING_FRAMES, MAX_SPEED, MILESTONE_FLASH_FRAMES, MILESTONE_STEP,
    OFFSCREEN_X, SCORE_POP_FRAMES, SPEED_INCREMENT, SURVIVAL_POINTS,
};
use crate::spawner::{
    MAX_SPAWN_INTERVAL, MAX_SPAWN_X, MIN_SPAWN_INTERVAL, SPAWN_MARGIN, SPAWN_SEED_MULTIPLIER,
    SPAWN_SPACING, TYPE_SEED_MULTIPLIER, TALL_THRESHOLD, DOUBLE_THRESHOLD, FLYING_THRESHOLD,
};
use crate::sprites::ObstacleType;
use crate::state::{
    player_hitbox_height, player_hitbox_width, GameModel, ObstacleModel, PlayerModel,
    PlayerState, SCALE,
};
use vstd::wrapping::u64_specs;

verus! {

// ---------------------------------------------------------------------------
// Well-formedness
// ---------------------------------------------------------------------------

/// The player invariant: never below ground; grounded and motionless in
/// every state but `Jumping`; and, while jumping, bounded by the energy of
/// the initial jump (the quantity `vy^2 + 2*G*y` never grows during the
/// jump), which caps both height and speed.
pub open spec fn player_wf(p: PlayerModel) -> bool {
    &&& p.x == crate::state::PLAYER_X
    &&& p.y >= 0
    &&& (p.state is Jumping ==> p.velocity_y * p.velocity_y + 2 * GRAVITY * p.y
        <= JUMP_VELOCITY * JUMP_VELOCITY)
    &&& (!(p.state is Jumping) ==> p.y == 0 && p.velocity_y == 0)
    &&& (p.state matches PlayerState::Landing(n) ==> 1 <= n <= LANDING_FRAMES)
}

/// An obstacle is between the despawn threshold (exclusive) and the
/// farthest possible spawn position.
pub open spec fn obstacle_in_bounds(o: ObstacleModel) -> bool {
    OFFSCREEN_X < o.x <= MAX_SPAWN_X
}

/// Live obstacles sit within bounds and in left-to-right order (spawn
/// order), since spawns always append at the right edge.
pub open spec fn obstacles_wf(s: Seq<ObstacleModel>) -> bool {
    &&& forall|i: int| 0 <= i < s.len() ==> obstacle_in_bounds(#[trigger] s[i])
    &&& forall|i: int, j: int| 0 <= i <= j < s.len() ==> #[trigger] s[i].x <= #[trigger] s[j].x
}

impl GameModel {
    /// Well-formedness of the whole session state.
    pub open spec fn wf(self) -> bool {
        &&& player_wf(self.player)
        &&& obstacles_wf(self.obstacles)
        &&& 0 <= self.speed <= MAX_SPEED
        &&& 0 <= self.score
        &&& 0 <= self.frame_count
        &&& 0 <= self.scroll_offset <= u32::MAX
        &&& 0 <= self.collision_flash <= u8::MAX
        &&& 0 <= self.milestone_flash <= u8::MAX
        &&& 0 <= self.score_pop <= u8::MAX
        &&& 0 <= self.terminal_width <= u16::MAX
    }
}

// ---------------------------------------------------------------------------
// Player transitions
// ---------------------------------------------------------------------------

/// One frame of player physics: gravity and vertical integration while
/// jumping, with landing detection; the landing squash counts down to
/// running; all other states are at rest.
pub open spec fn step_player(p: PlayerModel) -> PlayerModel {
    match p.state {
        PlayerState::Jumping => {
            let vy = p.velocity_y - GRAVITY;
            let y = p.y + vy;
            if y <= 0 {
                PlayerModel {
                    y: 0,
                    velocity_y: 0,
                    state: PlayerState::Landing(LANDING_FRAMES),
                    ..p
                }
            } else {
                PlayerModel { y, velocity_y: vy, ..p }
            }
        }
        PlayerState::Landing(n) => {
            if n <= 1 {
                PlayerModel { state: PlayerState::Running, ..p }
            } else {
                PlayerModel { state: PlayerState::Landing((n - 1) as u8), ..p }
            }
        }
        _ => p,
    }
}

/// A jump request: honoured only for a grounded, running player, which
/// rules out double jumps and mid-air state changes.
pub open spec fn jump_m(s: GameModel) -> GameModel {
    if s.player.state is Running && s.player.y <= 0 {
        GameModel {
            player: PlayerModel {
                velocity_y: JUMP_VELOCITY as int,
                state: PlayerState::Jumping,
                ..s.player
            },
            ..s
        }
    } else {
        s
    }
}

/// A duck request: honoured only while running (grounded); airborne
/// requests are ignored.
pub open spec fn start_duck_m(s: GameModel) -> GameModel {
    if s.player.state is Running {
        GameModel {
            player: PlayerModel { state: PlayerState::Ducking, ..s.player },
            ..s
        }
    } else {
        s
    }
}

/// Release of the duck key: stands back up only if currently ducking.
pub open spec fn stop_duck_m(s: GameModel) -> GameModel {
    if s.player.state is Ducking {
        GameModel {
            player: PlayerModel { state: PlayerState::Running, ..s.player },
            ..s
        }
    } else {
        s
    }
}

/// Effect of one frame's input action on the state.
pub open spec fn apply_m(s: GameModel, action: GameAction) -> GameModel {
    match action {
        GameAction::Jump => jump_m(s),
        GameAction::Duck => start_duck_m(s),
        GameAction::StopDuck => stop_duck_m(s),
        GameAction::Quit => GameModel { should_quit: true, ..s },
        GameAction::Idle => s,
    }
}

// ---------------------------------------------------------------------------
// Obstacle transitions
// ---------------------------------------------------------------------------

/// Scaled distance obstacles travel leftward in one frame.
pub open spec fn obstacle_shift(speed: int) -> int {
    BASE_SCROLL_SPEED * speed
}

/// Whether an obstacle at `x` is still on screen (not yet despawned).
pub open spec fn on_screen(x: int) -> bool {
    x > OFFSCREEN_X
}

/// One obstacle advanced by `dx`, marked passed once its trailing edge is
/// left of the player position `px`.
pub open spec fn step_obstacle(o: ObstacleModel, dx: int, px: int) -> ObstacleModel {
    let x = o.x - dx;
    ObstacleModel {
        x,
        obstacle_type: o.obstacle_type,
        passed: o.passed || x + o.obstacle_type.spec_width() * SCALE < px,
    }
}

/// Whether this frame is the one in which the obstacle's trailing edge
/// first crosses the player position: exactly then the clearance bonus is
/// awarded.
pub open spec fn newly_passed(o: ObstacleModel, dx: int, px: int) -> bool {
    !o.passed && (o.x - dx) + o.obstacle_type.spec_width() * SCALE < px
}

/// All obstacles advanced by `dx`, keeping only the ones still on screen,
/// in their original relative order.
pub open spec fn step_obstacles(s: Seq<ObstacleModel>, dx: int, px: int) -> Seq<ObstacleModel>
    decreases s.len(),
{
    if s.len() == 0 {
        Seq::empty()
    } else {
        let rest = step_obstacles(s.drop_last(), dx, px);
        let o = step_obstacle(s.last(), dx, px);
        if on_screen(o.x) {
            rest.push(o)
        } else {
            rest
        }
    }
}

/// How many obstacles are passed for the first time this frame.
pub open spec fn newly_passed_count(s: Seq<ObstacleModel>, dx: int, px: int) -> int
    decreases s.len(),
{
    if s.len() == 0 {
        0
    } else {
        newly_passed_count(s.drop_last(), dx, px)
            + if newly_passed(s.last(), dx, px) { 1int } else { 0int }
    }
}

/// Concrete bounds that follow from the player invariant: the jump energy
/// caps the height at under 21 cells and the vertical speed at the jump
/// velocity.
pub proof fn lemma_player_bounds(p: PlayerModel)
    requires
        player_wf(p),
    ensures
        0 <= p.y <= 209_000,
        -50_000 <= p.velocity_y <= 50_000,
{
    if p.state is Jumping {
        let vy = p.velocity_y;
        let y = p.y;
        assert(-50_000 <= vy <= 50_000 && y <= 209_000) by (nonlinear_arith)
            requires
                vy * vy + 2 * GRAVITY * y <= JUMP_VELOCITY * JUMP_VELOCITY,
                GRAVITY == 6_000,
                JUMP_VELOCITY == 50_000,
                y >= 0,
        ;
    }
}

/// One step of player physics preserves the player invariant: the
/// integration step never loses jump energy (it sheds exactly the square
/// of the gravity constant), landing clamps to the ground, and the squash
/// countdown stays in range.
pub proof fn lemma_step_player_wf(p: PlayerModel)
    requires
        player_wf(p),
    ensures
        player_wf(step_player(p)),
{
    if p.state is Jumping {
        let vy = p.velocity_y - GRAVITY;
        let y = p.y + vy;
        if y > 0 {
            assert(vy * vy + 2 * GRAVITY * y <= JUMP_VELOCITY * JUMP_VELOCITY)
                by (nonlinear_arith)
                requires
                    vy == p.velocity_y - GRAVITY,
                    y == p.y + vy,
                    p.velocity_y * p.velocity_y + 2 * GRAVITY * p.y <= JUMP_VELOCITY
                        * JUMP_VELOCITY,
                    GRAVITY >= 0,
            ;
        }
    }
}

/// Every obstacle that survives the frame is some source obstacle,
/// advanced and marked: the step introduces nothing and resurrects
/// nothing.
pub proof fn lemma_step_obstacles_provenance(s: Seq<ObstacleModel>, dx: int, px: int)
    ensures
        forall|j: int| 0 <= j < step_obstacles(s, dx, px).len() ==> exists|k: int|
            0 <= k < s.len() && #[trigger] step_obstacles(s, dx, px)[j] == step_obstacle(
                s[k],
                dx,
                px,
            ),
    decreases s.len(),
{
    if s.len() > 0 {
        let sd = s.drop_last();
        lemma_step_obstacles_provenance(sd, dx, px);
        let rest = step_obstacles(sd, dx, px);
        let result = step_obstacles(s, dx, px);
        assert forall|j: int| 0 <= j < result.len() implies exists|k: int|
            0 <= k < s.len() && #[trigger] result[j] == step_obstacle(s[k], dx, px) by {
            if j < rest.len() {
                assert(result[j] == rest[j]);
                let k = choose|k: int|
                    0 <= k < sd.len() && #[trigger] rest[j] == step_obstacle(sd[k], dx, px);
                assert(sd[k] == s[k]);
                assert(result[j] == step_obstacle(s[k], dx, px));
            } else {
                assert(result[j] == step_obstacle(s[s.len() - 1], dx, px));
            }
        }
    }
}

/// The number of newly passed obstacles never exceeds the number of
/// obstacles.
pub proof fn lemma_newly_passed_count_bounds(s: Seq<ObstacleModel>, dx: int, px: int)
    ensures
        0 <= newly_passed_count(s, dx, px) <= s.len(),
    decreases s.len(),
{
    if s.len() > 0 {
        lemma_newly_passed_count_bounds(s.drop_last(), dx, px);
    }
}

/// Advancing all obstacles and pruning the off-screen ones preserves
/// obstacle well-formedness (bounds and left-to-right order); the result's
/// last element, if any, sits at or left of where the source's last
/// element moved to.
pub proof fn lemma_step_obstacles_wf(s: Seq<ObstacleModel>, dx: int, px: int)
    requires
        obstacles_wf(s),
        dx >= 0,
    ensures
        obstacles_wf(step_obstacles(s, dx, px)),
        step_obstacles(s, dx, px).len() > 0 ==> s.len() > 0 && step_obstacles(s, dx, px).last().x
            <= s.last().x - dx,
    decreases s.len(),
{
    if s.len() > 0 {
        let sd = s.drop_last();
        assert(obstacles_wf(sd)) by {
            assert forall|i: int| 0 <= i < sd.len() implies obstacle_in_bounds(#[trigger] sd[i]) by {
                assert(sd[i] == s[i]);
            }
            assert forall|i: int, j: int| 0 <= i <= j < sd.len() implies #[trigger] sd[i].x
                <= #[trigger] sd[j].x by {
                assert(sd[i] == s[i] && sd[j] == s[j]);
            }
        }
        lemma_step_obstacles_wf(sd, dx, px);
        let rest = step_obstacles(sd, dx, px);
        let o = step_obstacle(s.last(), dx, px);
        if on_screen(o.x) {
            let result = rest.push(o);
            assert(obstacle_in_bounds(o)) by {
                assert(obstacle_in_bounds(s.last()));
            }
            assert forall|i: int, j: int| 0 <= i <= j < result.len() implies #[trigger] result[i].x
                <= #[trigger] result[j].x by {
                if j < rest.len() {
                    assert(result[i] == rest[i] && result[j] == rest[j]);
                } else if i < rest.len() {
                    // rest is ordered and its last element came from sd's
                    // last, which sits at or left of s's last.
                    assert(rest[i].x <= rest[rest.len() - 1].x);
                    assert(sd.last() == s[s.len() - 2] && s[s.len() - 2].x <= s.last().x);
                }
            }
        }
    }
}

// ---------------------------------------------------------------------------
// Collision
// ---------------------------------------------------------------------------

/// Axis-aligned overlap of the player's and one obstacle's collision
/// hitboxes. Both hitboxes are inset from the visual sprites; a flying
/// obstacle's box sits `fly_height` cells above ground, so ducking under
/// it is the way past.
pub open spec fn collides(p: PlayerModel, o: ObstacleModel) -> bool {
    let p_left = p.x + HITBOX_INSET;
    let p_right = p_left + player_hitbox_width();
    let p_bottom = p.y;
    let p_top = p_bottom + player_hitbox_height(p.state);
    let o_left = o.x + HITBOX_INSET;
    let o_right = o_left + o.obstacle_type.spec_hitbox_width() * SCALE;
    let o_bottom = o.obstacle_type.spec_fly_height() * SCALE;
    let o_top = o_bottom + o.obstacle_type.spec_hitbox_height() * SCALE;
    &&& p_left < o_right
    &&& p_right > o_left
    &&& p_bottom < o_top
    &&& p_top > o_bottom
}

/// Whether the player overlaps any live obstacle.
pub open spec fn any_collision(p: PlayerModel, s: Seq<ObstacleModel>) -> bool {
    exists|i: int| 0 <= i < s.len() && collides(p, #[trigger] s[i])
}

// ---------------------------------------------------------------------------
// The frame step
// ---------------------------------------------------------------------------

/// Speed ramp: one fixed increment toward the cap, never past it, never
/// downward.
pub open spec fn ramp_speed(speed: int) -> int {
    if speed >= MAX_SPEED {
        speed
    } else if speed + SPEED_INCREMENT >= MAX_SPEED {
        MAX_SPEED as int
    } else {
        speed + SPEED_INCREMENT
    }
}

/// Cells of cosmetic ground scroll per frame at the given speed.
pub open spec fn scroll_delta(speed: int) -> int {
    (speed * 2) / (SCALE as int)
}

/// Scroll accumulation with 32-bit wraparound (the offset is cosmetic;
/// wrapping is expected and harmless). Defined for one addition past the
/// range, which is all a frame step needs.
pub open spec fn advance_scroll(scroll: int, delta: int) -> int {
    if scroll + delta > u32::MAX {
        scroll + delta - 0x1_0000_0000
    } else {
        scroll + delta
    }
}

/// A transient visual counter's once-per-frame decay toward zero.
pub open spec fn dec_counter(n: int) -> int {
    if n > 0 {
        n - 1
    } else {
        0
    }
}

/// One full simulation frame, in the fixed stage order: clock, speed ramp,
/// scroll, player physics, obstacle advance/award/despawn, collision
/// flash, survival score, milestone detection, counter decay.
pub open spec fn tick_m(s: GameModel) -> GameModel {
    let speed = ramp_speed(s.speed);
    let scroll = advance_scroll(s.scroll_offset, scroll_delta(speed));
    let player = step_player(s.player);
    let dx = obstacle_shift(speed);
    let obstacles = step_obstacles(s.obstacles, dx, s.player.x);
    let bonus = CLEAR_BONUS * newly_passed_count(s.obstacles, dx, s.player.x);
    let score = s.score + SURVIVAL_POINTS + bonus;
    let hit = any_collision(player, obstacles);
    let milestone = score / (MILESTONE_STEP as int) > s.score / (MILESTONE_STEP as int);
    GameModel {
        player,
        obstacles,
        score,
        frame_count: s.frame_count + 1,
        scroll_offset: scroll,
        speed,
        should_quit: s.should_quit,
        collision_flash: dec_counter(
            if hit { COLLISION_FLASH_FRAMES as int } else { s.collision_flash },
        ),
        milestone_flash: dec_counter(
            if milestone { MILESTONE_FLASH_FRAMES as int } else { s.milestone_flash },
        ),
        score_pop: dec_counter(if bonus > 0 { SCORE_POP_FRAMES as int } else { s.score_pop }),
        terminal_width: s.terminal_width,
    }
}

/// A full frame step preserves well-formedness.
pub proof fn lemma_tick_m_wf(s: GameModel)
    requires
        s.wf(),
    ensures
        tick_m(s).wf(),
{
    let dx = obstacle_shift(ramp_speed(s.speed));
    lemma_step_player_wf(s.player);
    lemma_step_obstacles_wf(s.obstacles, dx, s.player.x);
    lemma_newly_passed_count_bounds(s.obstacles, dx, s.player.x);
}

/// A fresh session state is well-formed for any real viewport width.
pub proof fn lemma_initial_wf(terminal_width: int)
    requires
        0 <= terminal_width <= u16::MAX,
    ensures
        GameModel::initial(terminal_width).wf(),
{
}

// ---------------------------------------------------------------------------
// Spawning
// ---------------------------------------------------------------------------

/// The deterministic spawn seed: a pure function of the frame counter and
/// the score, with no random-number-generator state anywhere.
pub open spec fn spawn_seed(frame_count: u64, score: u32) -> u64 {
    u64_specs::wrapping_add(
        u64_specs::wrapping_mul(frame_count, SPAWN_SEED_MULTIPLIER),
        score as u64,
    )
}

/// The spawn cadence for this frame, drawn from the seed into
/// `[MIN_SPAWN_INTERVAL, MAX_SPAWN_INTERVAL)`.
pub open spec fn spawn_interval(frame_count: u64, score: u32) -> int {
    MIN_SPAWN_INTERVAL + (spawn_seed(frame_count, score) as int) % (
    MAX_SPAWN_INTERVAL - MIN_SPAWN_INTERVAL) as int
}

/// Whether the pseudo-random gate lets a spawn happen this frame.
pub open spec fn spawn_due(frame_count: u64, score: u32) -> bool {
    (frame_count as int) % spawn_interval(frame_count, score) == 0
}

/// The second pseudo-random draw, used only for variant selection.
pub open spec fn type_seed(seed: u64) -> u64 {
    u64_specs::wrapping_mul(seed, TYPE_SEED_MULTIPLIER)
}

/// Variant selection by score-gated probability bands: only `Small` early
/// on, with `Tall`, `Double` and `Flying` unlocked at fixed score
/// thresholds and weights shifting toward the harder variants.
pub open spec fn pick_variant(score: u32, seed: u64) -> ObstacleType {
    let band = type_seed(seed) % 10;
    if score < TALL_THRESHOLD {
        ObstacleType::Small
    } else if score < DOUBLE_THRESHOLD {
        if band <= 5 {
            ObstacleType::Small
        } else {
            ObstacleType::Tall
        }
    } else if score < FLYING_THRESHOLD {
        if band <= 4 {
            ObstacleType::Small
        } else if band <= 7 {
            ObstacleType::Tall
        } else {
            ObstacleType::Double
        }
    } else {
        if band <= 3 {
            ObstacleType::Small
        } else if band <= 5 {
            ObstacleType::Tall
        } else if band <= 7 {
            ObstacleType::Double
        } else {
            ObstacleType::Flying
        }
    }
}

/// Where a new obstacle enters: just past the right edge of the viewport.
pub open spec fn spawn_x(terminal_width: int) -> int {
    (terminal_width + SPAWN_MARGIN) * (SCALE as int)
}

/// The minimum-spacing guard: with an obstacle already near the spawn
/// point, back-to-back spawns are suppressed; the required gap grows with
/// speed so the game stays fair as it accelerates.
pub open spec fn spacing_ok(s: GameModel) -> bool {
    s.obstacles.len() == 0 || spawn_x(s.terminal_width) - s.obstacles.last().x >= SPAWN_SPACING
        * s.speed
}

/// The per-frame spawn decision: a new, unpassed obstacle appears at the
/// spawn point exactly when the spacing guard and the pseudo-random gate
/// both allow it; otherwise the state is unchanged.
pub open spec fn maybe_spawn_m(s: GameModel) -> GameModel {
    if spacing_ok(s) && spawn_due(s.frame_count as u64, s.score as u32) {
        GameModel {
            obstacles: s.obstacles.push(
                ObstacleModel {
                    x: spawn_x(s.terminal_width),
                    obstacle_type: pick_variant(
                        s.score as u32,
                        spawn_seed(s.frame_count as u64, s.score as u32),
                    ),
                    passed: false,
                },
            ),
            ..s
        }
    } else {
        s
    }
}

} // verus!

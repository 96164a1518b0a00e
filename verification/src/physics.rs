//! Per-frame physics and scoring: the `tick` pipeline and the player's
//! jump and duck operations. Every operation's contract says that the new
//! state's view is exactly the corresponding transition function of the
//! old state's view, and that well-formedness is preserved.

use vstd::prelude::*;
use crate::events::GameAction;
use crate::model::{
    any_collision, apply_m, collides, jump_m, lemma_newly_passed_count_bounds,
    lemma_step_obstacles_wf, newly_passed_count, obstacle_shift, obstacles_wf, player_wf,
    start_duck_m, step_obstacles, step_player, stop_duck_m,
};
use crate::state::{GameModel, GameState, Obstacle, PlayerState, SCALE};

verus! {

/// Downward pull on the vertical velocity each frame (0.6 cells).
pub const GRAVITY: i64 = 6_000;

/// Upward velocity at the start of a jump (5 cells per frame).
pub const JUMP_VELOCITY: i64 = 50_000;

/// Speed multiplier cap (2.5x), in `SCALE` units.
pub const MAX_SPEED: u32 = 25_000;

/// Speed gain per frame (0.0005x), in `SCALE` units.
pub const SPEED_INCREMENT: u32 = 5;

/// Cells obstacles travel per frame at speed 1.0.
pub const BASE_SCROLL_SPEED: i64 = 3;

/// Obstacles are despawned once left of this position (-20 cells).
pub const OFFSCREEN_X: i64 = -200_000;

/// Hitboxes are inset one cell from the sprite's left edge.
pub const HITBOX_INSET: i64 = 10_000;

/// Frames the collision warning flash is armed for.
pub const COLLISION_FLASH_FRAMES: u8 = 10;

/// Frames of landing squash before standing back up.
pub const LANDING_FRAMES: u8 = 3;

/// Frames the clearance-bonus score pop is armed for.
pub const SCORE_POP_FRAMES: u8 = 10;

/// Frames the score-milestone celebration is armed for.
pub const MILESTONE_FLASH_FRAMES: u8 = 30;

/// A milestone celebration fires each time the score crosses a multiple
/// of this.
pub const MILESTONE_STEP: u32 = 100;

/// Score for surviving one frame.
pub const SURVIVAL_POINTS: u32 = 1;

/// One-time score for clearing an obstacle.
pub const CLEAR_BONUS: u32 = 10;

impl GameState {
    /// One simulation frame, in the fixed stage order: advance the clock,
    /// ramp the speed toward its cap, accumulate cosmetic scroll, integrate
    /// player physics, advance and prune obstacles (awarding clearance
    /// bonuses), detect collisions, award the survival point, detect a
    /// score milestone, and decay the transient visual counters.
    ///
    /// The two `requires` bounds only keep the logical clock and the score
    /// within their machine words; a driver at 30 frames per second stays
    /// clear of both for the life of the universe.
    pub fn tick(&mut self)
        requires
            old(self)@.wf(),
            old(self)@.frame_count < u64::MAX,
            old(self)@.score + SURVIVAL_POINTS + CLEAR_BONUS * old(self)@.obstacles.len()
                <= u32::MAX,
        ensures
            final(self)@ == crate::model::tick_m(old(self)@),
            final(self)@.wf(),
    {
        let score0 = self.score;
        self.frame_count = self.frame_count + 1;

        // Speed ramp: a fixed increment toward the cap, clamped.
        if self.speed < MAX_SPEED {
            if self.speed + SPEED_INCREMENT >= MAX_SPEED {
                self.speed = MAX_SPEED;
            } else {
                self.speed = self.speed + SPEED_INCREMENT;
            }
        }

        // Cosmetic ground scroll; wrapping is expected and harmless.
        self.scroll_offset = self.scroll_offset.wrapping_add(self.speed * 2 / (SCALE as u32));

        self.update_player();
        self.update_obstacles();
        self.check_collisions();

        proof {
            lemma_newly_passed_count_bounds(
                old(self)@.obstacles,
                obstacle_shift(crate::model::ramp_speed(old(self)@.speed)),
                old(self)@.player.x,
            );
        }
        self.score = self.score + SURVIVAL_POINTS;

        if self.score / MILESTONE_STEP > score0 / MILESTONE_STEP {
            self.milestone_flash = MILESTONE_FLASH_FRAMES;
        }

        // Transient visual counters decay once per frame, never below zero.
        if self.collision_flash > 0 {
            self.collision_flash = self.collision_flash - 1;
        }
        if self.milestone_flash > 0 {
            self.milestone_flash = self.milestone_flash - 1;
        }
        if self.score_pop > 0 {
            self.score_pop = self.score_pop - 1;
        }
    }

    /// Initiate a jump if the player is running on the ground; any other
    /// request (already airborne, ducking, landing) is silently ignored.
    pub fn jump(&mut self)
        requires
            old(self)@.wf(),
        ensures
            final(self)@ == jump_m(old(self)@),
            final(self)@.wf(),
    {
        if self.player.state == PlayerState::Running && self.player.y <= 0 {
            self.player.velocity_y = JUMP_VELOCITY;
            self.player.state = PlayerState::Jumping;
        }
    }

    /// Start ducking if the player is running; airborne requests are
    /// silently ignored.
    pub fn start_duck(&mut self)
        requires
            old(self)@.wf(),
        ensures
            final(self)@ == start_duck_m(old(self)@),
            final(self)@.wf(),
    {
        if self.player.state == PlayerState::Running {
            self.player.state = PlayerState::Ducking;
        }
    }

    /// Stand back up if the player is ducking; otherwise do nothing.
    pub fn stop_duck(&mut self)
        requires
            old(self)@.wf(),
        ensures
            final(self)@ == stop_duck_m(old(self)@),
            final(self)@.wf(),
    {
        if self.player.state == PlayerState::Ducking {
            self.player.state = PlayerState::Running;
        }
    }

    /// Apply one frame's input action.
    pub fn apply_action(&mut self, action: GameAction)
        requires
            old(self)@.wf(),
        ensures
            final(self)@ == apply_m(old(self)@, action),
            final(self)@.wf(),
    {
        match action {
            GameAction::Jump => self.jump(),
            GameAction::Duck => self.start_duck(),
            GameAction::StopDuck => self.stop_duck(),
            GameAction::Quit => self.should_quit = true,
            GameAction::Idle => {}
        }
    }

    /// One frame of player physics (stage 4 of the tick).
    fn update_player(&mut self)
        requires
            player_wf(old(self)@.player),
        ensures
            final(self)@ == (GameModel { player: step_player(old(self)@.player), ..old(self)@ }),
            player_wf(final(self)@.player),
    {
        match self.player.state {
            PlayerState::Jumping => {
                proof {
                    crate::model::lemma_player_bounds(self@.player);
                }
                let vy = self.player.velocity_y - GRAVITY;
                let y = self.player.y + vy;
                if y <= 0 {
                    self.player.y = 0;
                    self.player.velocity_y = 0;
                    self.player.state = PlayerState::Landing(LANDING_FRAMES);
                } else {
                    proof {
                        let vy0 = self.player.velocity_y as int;
                        let y0 = self.player.y as int;
                        let g = GRAVITY as int;
                        let j = JUMP_VELOCITY as int;
                        assert((vy0 - g) * (vy0 - g) + 2 * g * (y0 + (vy0 - g)) <= j * j)
                            by (nonlinear_arith)
                            requires
                                vy0 * vy0 + 2 * g * y0 <= j * j,
                                g >= 0,
                        ;
                    }
                    self.player.y = y;
                    self.player.velocity_y = vy;
                }
            }
            PlayerState::Landing(n) => {
                if n <= 1 {
                    self.player.state = PlayerState::Running;
                } else {
                    self.player.state = PlayerState::Landing(n - 1);
                }
            }
            _ => {}
        }
    }

    /// Advance every obstacle leftward, award the one-time clearance bonus
    /// for each obstacle whose trailing edge crosses the player this
    /// frame, and drop the ones that have scrolled off screen (stages 5
    /// and 6 of the tick).
    fn update_obstacles(&mut self)
        requires
            obstacles_wf(old(self)@.obstacles),
            old(self)@.score + CLEAR_BONUS * old(self)@.obstacles.len() <= u32::MAX,
        ensures
            final(self)@ == (GameModel {
                obstacles: step_obstacles(
                    old(self)@.obstacles,
                    obstacle_shift(old(self)@.speed),
                    old(self)@.player.x,
                ),
                score: old(self)@.score + CLEAR_BONUS * newly_passed_count(
                    old(self)@.obstacles,
                    obstacle_shift(old(self)@.speed),
                    old(self)@.player.x,
                ),
                score_pop: if newly_passed_count(
                    old(self)@.obstacles,
                    obstacle_shift(old(self)@.speed),
                    old(self)@.player.x,
                ) > 0 { SCORE_POP_FRAMES as int } else { old(self)@.score_pop },
                ..old(self)@
            }),
            obstacles_wf(final(self)@.obstacles),
    {
        let ghost s0 = self@.obstacles;
        let dx = BASE_SCROLL_SPEED * (self.speed as i64);
        let px = self.player.x;
        let n = self.obstacles.len();
        let mut survivors: Vec<Obstacle> = Vec::new();
        let mut cleared: u32 = 0;
        let mut i: usize = 0;
        while i < n
            invariant
                0 <= i <= n,
                n == self.obstacles.len(),
                self@ == old(self)@,
                s0 == old(self)@.obstacles,
                old(self)@.score + CLEAR_BONUS * n <= u32::MAX,
                obstacles_wf(s0),
                dx == obstacle_shift(old(self)@.speed),
                px == old(self)@.player.x,
                survivors@.map_values(|o: Obstacle| o@) == step_obstacles(
                    s0.take(i as int),
                    dx as int,
                    px as int,
                ),
                cleared == newly_passed_count(s0.take(i as int), dx as int, px as int),
                cleared <= i,
            decreases n - i,
        {
            let o = &self.obstacles[i];
            proof {
                assert(s0[i as int] == self.obstacles@[i as int]@);
                assert(crate::model::obstacle_in_bounds(s0[i as int]));
            }
            let x = o.x - dx;
            let newly = !o.passed && x + (o.obstacle_type.width() as i64) * SCALE < px;
            if newly {
                cleared = cleared + 1;
            }
            let ghost survivors_before = survivors@;
            if x > OFFSCREEN_X {
                survivors.push(Obstacle { x, obstacle_type: o.obstacle_type, passed: o.passed || newly });
            }
            proof {
                assert(s0.take(i + 1).drop_last() =~= s0.take(i as int));
                assert(s0.take(i + 1).last() == s0[i as int]);
                assert(survivors@.map_values(|ob: Obstacle| ob@) =~= step_obstacles(
                    s0.take(i + 1),
                    dx as int,
                    px as int,
                ));
            }
            i = i + 1;
        }
        proof {
            assert(s0.take(n as int) =~= s0);
            lemma_step_obstacles_wf(s0, dx as int, px as int);
        }
        self.obstacles = survivors;
        self.score = self.score + CLEAR_BONUS * cleared;
        if cleared > 0 {
            self.score_pop = SCORE_POP_FRAMES;
        }
    }

    /// Test the player's hitbox against every live obstacle and arm the
    /// collision warning flash on any overlap; collision is non-lethal and
    /// has no other effect (stage 7 of the tick).
    fn check_collisions(&mut self)
        requires
            player_wf(old(self)@.player),
            obstacles_wf(old(self)@.obstacles),
        ensures
            final(self)@ == (GameModel {
                collision_flash: if any_collision(old(self)@.player, old(self)@.obstacles) {
                    COLLISION_FLASH_FRAMES as int
                } else {
                    old(self)@.collision_flash
                },
                ..old(self)@
            }),
    {
        proof {
            crate::model::lemma_player_bounds(self@.player);
        }
        let player_left = self.player.x + HITBOX_INSET;
        let player_right = player_left + self.player.hitbox_width();
        let player_bottom = self.player.y;
        let player_top = player_bottom + self.player.hitbox_height();
        let n = self.obstacles.len();
        let mut i: usize = 0;
        while i < n
            invariant
                0 <= i <= n,
                n == self.obstacles.len(),
                self.player == old(self).player,
                self.obstacles@ == old(self).obstacles@,
                self@ == (GameModel {
                    collision_flash: if exists|j: int|
                        0 <= j < i && collides(old(self)@.player, #[trigger] old(self)@.obstacles[j]) {
                        COLLISION_FLASH_FRAMES as int
                    } else {
                        old(self)@.collision_flash
                    },
                    ..old(self)@
                }),
                player_wf(old(self)@.player),
                obstacles_wf(old(self)@.obstacles),
                player_left == old(self)@.player.x + HITBOX_INSET,
                player_right == player_left + crate::state::player_hitbox_width(),
                player_bottom == old(self)@.player.y,
                player_top == player_bottom + crate::state::player_hitbox_height(
                    old(self)@.player.state,
                ),
            decreases n - i,
        {
            let obstacle = &self.obstacles[i];
            proof {
                assert(old(self)@.obstacles[i as int] == self.obstacles@[i as int]@);
                assert(crate::model::obstacle_in_bounds(old(self)@.obstacles[i as int]));
            }
            let obs_left = obstacle.x + HITBOX_INSET;
            let obs_right = obs_left + (obstacle.obstacle_type.hitbox_width() as i64) * SCALE;
            let obs_bottom = (obstacle.obstacle_type.fly_height() as i64) * SCALE;
            let obs_top = obs_bottom + (obstacle.obstacle_type.hitbox_height() as i64) * SCALE;
            let x_overlap = player_left < obs_right && player_right > obs_left;
            let y_overlap = player_bottom < obs_top && player_top > obs_bottom;
            if x_overlap && y_overlap {
                self.collision_flash = COLLISION_FLASH_FRAMES;
            }
            i = i + 1;
        }
    }
}

} // verus!

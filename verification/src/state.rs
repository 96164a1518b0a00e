//! The simulation's data model: player, obstacles, and the root aggregate.
//!
//! Positions, velocities and the speed multiplier are fixed-point integers,
//! `SCALE` units per terminal cell, so that every frame step is exact
//! integer arithmetic. Each executable type has a ghost model (`view`) over
//! unbounded integers; contracts and the transition specification in
//! `model` speak of those views.

use vstd::prelude::*;
use crate::sprites::{ClaudeSprite, ObstacleType};

verus! {

/// Fixed-point scale: units per terminal cell.
pub const SCALE: i64 = 10_000;

/// The player's fixed horizontal position (the world scrolls instead).
pub const PLAYER_X: i64 = 80_000;

/// Speed multiplier at session start, in `SCALE` units.
pub const INITIAL_SPEED: u32 = 10_000;

/// Terminal width assumed until the driver reports a real one.
pub const DEFAULT_TERMINAL_WIDTH: u16 = 80;

/// Discrete player state. `Landing` carries the frames of squash left
/// before the player stands back up.
#[derive(Clone, Copy, Debug, PartialEq, Eq, Structural)]
pub enum PlayerState {
    Running,
    Jumping,
    Ducking,
    Landing(u8),
}

/// Ghost model of the player over unbounded integers.
pub ghost struct PlayerModel {
    pub x: int,
    pub y: int,
    pub velocity_y: int,
    pub state: PlayerState,
}

/// The player: fixed horizontal position, vertical offset above ground
/// (`0` = grounded), signed vertical speed (positive = upward), and the
/// discrete state machine.
#[derive(Debug)]
pub struct Player {
    pub x: i64,
    pub y: i64,
    pub velocity_y: i64,
    pub state: PlayerState,
}

impl View for Player {
    type V = PlayerModel;

    open spec fn view(&self) -> PlayerModel {
        PlayerModel {
            x: self.x as int,
            y: self.y as int,
            velocity_y: self.velocity_y as int,
            state: self.state,
        }
    }
}

impl Default for Player {
    /// A grounded, running player at the fixed horizontal position.
    fn default() -> (p: Self)
        ensures
            p@ == (PlayerModel { x: PLAYER_X as int, y: 0, velocity_y: 0, state: PlayerState::Running }),
    {
        Player { x: PLAYER_X, y: 0, velocity_y: 0, state: PlayerState::Running }
    }
}

/// The player's collision hitbox width in `SCALE` units: two cells
/// narrower than the sprite, for forgiving collisions.
pub open spec fn player_hitbox_width() -> int {
    (ClaudeSprite::WIDTH - 2) * SCALE
}

/// The player's collision hitbox height in `SCALE` units: one cell shorter
/// than the sprite of the given state, so a ducking player is harder to
/// hit.
pub open spec fn player_hitbox_height(state: PlayerState) -> int {
    match state {
        PlayerState::Ducking => (ClaudeSprite::DUCK_HEIGHT - 1) * SCALE,
        PlayerState::Landing(_) => (ClaudeSprite::LANDING_HEIGHT - 1) * SCALE,
        _ => (ClaudeSprite::HEIGHT - 1) * SCALE,
    }
}

impl Player {
    /// Collision hitbox width in `SCALE` units.
    pub open spec fn spec_hitbox_width(&self) -> int {
        player_hitbox_width()
    }

    pub fn hitbox_width(&self) -> (w: i64)
        ensures
            w == self.spec_hitbox_width(),
    {
        (ClaudeSprite::WIDTH as i64 - 2) * SCALE
    }

    /// Collision hitbox height in `SCALE` units for the current state.
    pub open spec fn spec_hitbox_height(&self) -> int {
        player_hitbox_height(self.state)
    }

    pub fn hitbox_height(&self) -> (h: i64)
        ensures
            h == self.spec_hitbox_height(),
    {
        match self.state {
            PlayerState::Ducking => (ClaudeSprite::DUCK_HEIGHT as i64 - 1) * SCALE,
            PlayerState::Landing(_) => (ClaudeSprite::LANDING_HEIGHT as i64 - 1) * SCALE,
            _ => (ClaudeSprite::HEIGHT as i64 - 1) * SCALE,
        }
    }
}

/// Ghost model of one obstacle.
pub ghost struct ObstacleModel {
    pub x: int,
    pub obstacle_type: ObstacleType,
    pub passed: bool,
}

/// One live obstacle: horizontal position in `SCALE` units (decreasing
/// every frame), its catalog variant, and whether the player has already
/// been credited for clearing it.
#[derive(Debug)]
pub struct Obstacle {
    pub x: i64,
    pub obstacle_type: ObstacleType,
    pub passed: bool,
}

impl View for Obstacle {
    type V = ObstacleModel;

    open spec fn view(&self) -> ObstacleModel {
        ObstacleModel { x: self.x as int, obstacle_type: self.obstacle_type, passed: self.passed }
    }
}

impl Obstacle {
    /// A fresh, not yet passed obstacle at the given position.
    pub fn new(x: i64, obstacle_type: ObstacleType) -> (o: Self)
        ensures
            o@ == (ObstacleModel { x: x as int, obstacle_type, passed: false }),
    {
        Obstacle { x, obstacle_type, passed: false }
    }
}

/// Ghost model of the whole session state.
pub ghost struct GameModel {
    pub player: PlayerModel,
    pub obstacles: Seq<ObstacleModel>,
    pub score: int,
    pub frame_count: int,
    pub scroll_offset: int,
    pub speed: int,
    pub should_quit: bool,
    pub collision_flash: int,
    pub milestone_flash: int,
    pub score_pop: int,
    pub terminal_width: int,
}

/// Root aggregate: one instance per session, mutated in place once per
/// frame through `tick` and `maybe_spawn_obstacle`.
#[derive(Debug)]
pub struct GameState {
    pub player: Player,
    /// Live obstacles in spawn order, which is also left-to-right order.
    pub obstacles: Vec<Obstacle>,
    /// Total score; never decreases.
    pub score: u32,
    /// The simulation's logical clock.
    pub frame_count: u64,
    /// Cosmetic ground-texture phase; wraps on overflow.
    pub scroll_offset: u32,
    /// Speed multiplier in `SCALE` units, ramps up to `MAX_SPEED`.
    pub speed: u32,
    /// Set once by the driver when the session should end; never cleared.
    pub should_quit: bool,
    /// Frames of collision warning flash left.
    pub collision_flash: u8,
    /// Frames of score-milestone celebration left.
    pub milestone_flash: u8,
    /// Frames of clearance-bonus score pop left.
    pub score_pop: u8,
    /// Viewport width, updated by the driver; only feeds the spawn position.
    pub terminal_width: u16,
}

impl View for GameState {
    type V = GameModel;

    open spec fn view(&self) -> GameModel {
        GameModel {
            player: self.player@,
            obstacles: self.obstacles@.map_values(|o: Obstacle| o@),
            score: self.score as int,
            frame_count: self.frame_count as int,
            scroll_offset: self.scroll_offset as int,
            speed: self.speed as int,
            should_quit: self.should_quit,
            collision_flash: self.collision_flash as int,
            milestone_flash: self.milestone_flash as int,
            score_pop: self.score_pop as int,
            terminal_width: self.terminal_width as int,
        }
    }
}

impl GameModel {
    /// The model of a fresh session with the given viewport width.
    pub open spec fn initial(terminal_width: int) -> GameModel {
        GameModel {
            player: PlayerModel { x: PLAYER_X as int, y: 0, velocity_y: 0, state: PlayerState::Running },
            obstacles: Seq::empty(),
            score: 0,
            frame_count: 0,
            scroll_offset: 0,
            speed: INITIAL_SPEED as int,
            should_quit: false,
            collision_flash: 0,
            milestone_flash: 0,
            score_pop: 0,
            terminal_width,
        }
    }
}

impl Default for GameState {
    /// A fresh session: default player, no obstacles, score zero.
    fn default() -> (s: Self)
        ensures
            s@ == GameModel::initial(DEFAULT_TERMINAL_WIDTH as int),
    {
        let s = GameState {
            player: Player::default(),
            obstacles: Vec::new(),
            score: 0,
            frame_count: 0,
            scroll_offset: 0,
            speed: INITIAL_SPEED,
            should_quit: false,
            collision_flash: 0,
            milestone_flash: 0,
            score_pop: 0,
            terminal_width: DEFAULT_TERMINAL_WIDTH,
        };
        proof {
            assert(s@.obstacles =~= Seq::<ObstacleModel>::empty());
        }
        s
    }
}

impl GameState {
    /// A fresh session with the default viewport width.
    pub fn new() -> (s: Self)
        ensures
            s@ == GameModel::initial(DEFAULT_TERMINAL_WIDTH as int),
    {
        Self::default()
    }

    /// The same session with the viewport width replaced.
    pub fn with_terminal_width(self, width: u16) -> (s: Self)
        ensures
            s@ == (GameModel { terminal_width: width as int, ..self@ }),
    {
        GameState { terminal_width: width, ..self }
    }
}

} // verus!

//! Frame-stepped side-scrolling runner: the simulation engine.
//!
//! The engine is a deterministic state machine driven once per frame by an
//! external loop: player physics, obstacle lifecycle and spawning, collision
//! detection and scoring. All continuous quantities (positions, velocities,
//! speed) are fixed-point integers scaled by `SCALE` units per terminal cell,
//! so every transition is exact integer arithmetic.

pub mod events;
pub mod ground;
pub mod laws;
pub mod model;
pub mod physics;
pub mod spawner;
pub mod sprites;
pub mod state;
pub mod watcher;

pub use events::GameAction;
pub use ground::Ground;
pub use sprites::ClaudeSprite;
pub use sprites::ObstacleType;
pub use state::GameState;
pub use state::Obstacle;
pub use state::Player;
pub use state::PlayerState;
pub use watcher::TranscriptWatcher;

// Frame-step behaviour of the simulation core: physics, scoring, spawning,
// collisions, and the transient counters.

use compact_runner::state::{GameState, Obstacle, PlayerState, INITIAL_SPEED, PLAYER_X, SCALE};
use compact_runner::physics::{
    COLLISION_FLASH_FRAMES, JUMP_VELOCITY, MAX_SPEED, MILESTONE_FLASH_FRAMES, SPEED_INCREMENT,
};
use compact_runner::events::{action_for_press, action_for_release, GameAction, KeyInput};
use compact_runner::ObstacleType;

#[test]
fn fresh_session_defaults() {
    let game = GameState::new();
    assert_eq!(game.player.x, PLAYER_X);
    assert_eq!(game.player.y, 0);
    assert_eq!(game.player.velocity_y, 0);
    assert_eq!(game.player.state, PlayerState::Running);
    assert_eq!(game.obstacles.len(), 0);
    assert_eq!(game.score, 0);
    assert_eq!(game.frame_count, 0);
    assert_eq!(game.speed, INITIAL_SPEED);
    assert_eq!(game.scroll_offset, 0);
    assert_eq!(game.collision_flash, 0);
    assert_eq!(game.milestone_flash, 0);
    assert_eq!(game.score_pop, 0);
    assert!(!game.should_quit);
    assert_eq!(game.terminal_width, 80);
}

#[test]
fn with_terminal_width_replaces_width_only() {
    let game = GameState::new().with_terminal_width(120);
    assert_eq!(game.terminal_width, 120);
    assert_eq!(game.score, 0);
    assert_eq!(game.speed, INITIAL_SPEED);
}

#[test]
fn hundred_quiet_ticks() {
    // From the fresh state, 100 ticks with no input and no obstacles give
    // exactly the survival score, and the speed has ramped by exactly
    // 100 increments (nowhere near the cap).
    let mut game = GameState::new();
    for _ in 0..100 {
        game.tick();
    }
    assert_eq!(game.score, 100);
    assert_eq!(game.speed, INITIAL_SPEED + 100 * SPEED_INCREMENT);
    assert_eq!(game.frame_count, 100);
    assert_eq!(game.collision_flash, 0);
}

#[test]
fn jump_arc_returns_to_running() {
    // Jump from the ground, then tick until the player is back down:
    // through the whole arc the player never sinks below ground, and it
    // comes to rest running with zero velocity (via the landing squash).
    let mut game = GameState::new();
    game.jump();
    assert_eq!(game.player.state, PlayerState::Jumping);
    assert_eq!(game.player.velocity_y, JUMP_VELOCITY);

    let mut saw_landing = false;
    let mut ticks = 0;
    while !(game.player.state == PlayerState::Running && game.player.y == 0) {
        game.tick();
        ticks += 1;
        assert!(game.player.y >= 0);
        if game.player.state == PlayerState::Running {
            assert_eq!(game.player.y, 0);
            assert_eq!(game.player.velocity_y, 0);
        }
        if matches!(game.player.state, PlayerState::Landing(_)) {
            saw_landing = true;
        }
        assert!(ticks < 100, "jump arc did not terminate");
    }
    assert!(saw_landing);
    assert_eq!(game.player.velocity_y, 0);
}

#[test]
fn jump_is_gated_to_grounded_running() {
    // A second jump request mid-air changes nothing.
    let mut game = GameState::new();
    game.jump();
    game.tick();
    let y = game.player.y;
    let vy = game.player.velocity_y;
    game.jump();
    assert_eq!(game.player.y, y);
    assert_eq!(game.player.velocity_y, vy);
    assert_eq!(game.player.state, PlayerState::Jumping);

    // A jump while ducking is ignored too.
    let mut game = GameState::new();
    game.start_duck();
    game.jump();
    assert_eq!(game.player.state, PlayerState::Ducking);
}

#[test]
fn jump_twice_starts_one_jump() {
    let mut once = GameState::new();
    once.jump();
    let mut twice = GameState::new();
    twice.jump();
    twice.jump();
    assert_eq!(once.player.state, twice.player.state);
    assert_eq!(once.player.velocity_y, twice.player.velocity_y);
    assert_eq!(once.player.y, twice.player.y);
}

#[test]
fn duck_toggles_only_from_ground() {
    let mut game = GameState::new();
    game.start_duck();
    assert_eq!(game.player.state, PlayerState::Ducking);
    game.stop_duck();
    assert_eq!(game.player.state, PlayerState::Running);

    // Duck requests while airborne are ignored.
    game.jump();
    game.start_duck();
    assert_eq!(game.player.state, PlayerState::Jumping);
}

#[test]
fn apply_action_routes_inputs() {
    let mut game = GameState::new();
    game.apply_action(GameAction::Duck);
    assert_eq!(game.player.state, PlayerState::Ducking);
    game.apply_action(GameAction::StopDuck);
    assert_eq!(game.player.state, PlayerState::Running);
    game.apply_action(GameAction::Jump);
    assert_eq!(game.player.state, PlayerState::Jumping);
    game.apply_action(GameAction::Idle);
    assert_eq!(game.player.state, PlayerState::Jumping);
    assert!(!game.should_quit);
    game.apply_action(GameAction::Quit);
    assert!(game.should_quit);
}

#[test]
fn clearance_bonus_awarded_exactly_once() {
    // An obstacle about to cross the player's position: the first tick
    // marks it passed and awards the bonus on top of the survival point;
    // the next tick awards the survival point alone.
    let mut game = GameState::new();
    game.obstacles.push(Obstacle::new(6 * SCALE, ObstacleType::Small));
    game.tick();
    assert!(game.obstacles[0].passed);
    assert_eq!(game.score, 11);
    assert_eq!(game.score_pop, 9);
    game.tick();
    assert!(game.obstacles[0].passed);
    assert_eq!(game.score, 12);
    assert_eq!(game.score_pop, 8);
}

#[test]
fn score_is_monotone_across_ticks() {
    let mut game = GameState::new();
    game.obstacles.push(Obstacle::new(12 * SCALE, ObstacleType::Small));
    game.obstacles.push(Obstacle::new(40 * SCALE, ObstacleType::Tall));
    let mut previous = game.score;
    for _ in 0..60 {
        game.tick();
        assert!(game.score >= previous + 1);
        previous = game.score;
    }
}

#[test]
fn collision_flashes_then_decays() {
    // An obstacle overlapping the player's hitbox on this tick arms the
    // flash; afterwards the obstacle has scrolled clear, so the flash
    // decays to zero and stays there.
    let mut game = GameState::new();
    game.obstacles.push(Obstacle::new(13 * SCALE, ObstacleType::Small));
    game.tick();
    assert_eq!(game.collision_flash, COLLISION_FLASH_FRAMES - 1);
    let mut previous = game.collision_flash;
    while game.collision_flash > 0 {
        game.tick();
        assert_eq!(game.collision_flash, previous - 1);
        previous = game.collision_flash;
    }
    game.tick();
    assert_eq!(game.collision_flash, 0);
}

#[test]
fn collision_is_non_lethal() {
    let mut game = GameState::new();
    game.obstacles.push(Obstacle::new(13 * SCALE, ObstacleType::Small));
    game.tick();
    assert!(game.collision_flash > 0);
    // The score still advanced and the session goes on.
    assert_eq!(game.score, 1);
    assert!(!game.should_quit);
}

#[test]
fn ducking_clears_a_flying_obstacle() {
    // A flying obstacle's hitbox sits two cells above ground: a ducking
    // player passes under it where a grounded small obstacle at the same
    // position would collide.
    let mut ducked = GameState::new();
    ducked.start_duck();
    ducked.obstacles.push(Obstacle::new(13 * SCALE, ObstacleType::Flying));
    ducked.tick();
    assert_eq!(ducked.collision_flash, 0);

    let mut hit = GameState::new();
    hit.start_duck();
    hit.obstacles.push(Obstacle::new(13 * SCALE, ObstacleType::Small));
    hit.tick();
    assert!(hit.collision_flash > 0);
}

#[test]
fn speed_ramps_and_caps() {
    let mut game = GameState::new();
    game.speed = MAX_SPEED - 2;
    game.tick();
    assert_eq!(game.speed, MAX_SPEED);
    game.tick();
    assert_eq!(game.speed, MAX_SPEED);

    let mut game = GameState::new();
    let mut previous = game.speed;
    for _ in 0..50 {
        game.tick();
        assert!(game.speed >= previous);
        assert!(game.speed <= MAX_SPEED);
        previous = game.speed;
    }
}

#[test]
fn offscreen_obstacles_are_removed() {
    let mut game = GameState::new();
    // This one crosses the despawn threshold this frame; the other stays.
    game.obstacles.push(Obstacle::new(-19 * SCALE, ObstacleType::Small));
    game.obstacles.push(Obstacle::new(30 * SCALE, ObstacleType::Tall));
    game.tick();
    assert_eq!(game.obstacles.len(), 1);
    assert_eq!(game.obstacles[0].obstacle_type, ObstacleType::Tall);
    // Removal is permanent: nothing reappears on later ticks.
    game.tick();
    assert_eq!(game.obstacles.len(), 1);
}

#[test]
fn obstacles_advance_leftward() {
    let mut game = GameState::new();
    game.obstacles.push(Obstacle::new(60 * SCALE, ObstacleType::Double));
    let x0 = game.obstacles[0].x;
    game.tick();
    let x1 = game.obstacles[0].x;
    assert!(x1 < x0);
    // At the ramped speed of 1.0005x the shift is exactly 3 * 10005 units.
    assert_eq!(x0 - x1, 30_015);
}

#[test]
fn spawn_is_deterministic() {
    // Two sessions in the same frame/score configuration make the same
    // spawn decision and choose the same variant.
    let mut first = GameState::new();
    first.frame_count = 120;
    let mut second = GameState::new();
    second.frame_count = 120;
    first.maybe_spawn_obstacle();
    second.maybe_spawn_obstacle();
    assert_eq!(first.obstacles.len(), 1);
    assert_eq!(second.obstacles.len(), 1);
    assert_eq!(first.obstacles[0].x, second.obstacles[0].x);
    assert_eq!(first.obstacles[0].obstacle_type, second.obstacles[0].obstacle_type);
}

#[test]
fn spawn_position_and_early_variant() {
    // Frame 120, score 0: the seed is 120 * 31337, a multiple of 60, so
    // the interval is exactly 60, which divides frame 120. Below the
    // first threshold only the small variant is eligible.
    let mut game = GameState::new().with_terminal_width(80);
    game.frame_count = 120;
    game.maybe_spawn_obstacle();
    assert_eq!(game.obstacles.len(), 1);
    assert_eq!(game.obstacles[0].x, (80 + 10) * SCALE);
    assert_eq!(game.obstacles[0].obstacle_type, ObstacleType::Small);
    assert!(!game.obstacles[0].passed);
}

#[test]
fn spawn_gate_can_refuse() {
    // Frame 61, score 0: the seed ends up 17 mod 60, giving interval 77,
    // and 61 is no multiple of 77.
    let mut game = GameState::new();
    game.frame_count = 61;
    game.maybe_spawn_obstacle();
    assert_eq!(game.obstacles.len(), 0);
}

#[test]
fn spawn_respects_minimum_spacing() {
    // An obstacle just inside the spawn point suppresses the spawn even
    // when the pseudo-random gate is open.
    let mut game = GameState::new().with_terminal_width(80);
    game.frame_count = 120;
    game.obstacles.push(Obstacle::new(89 * SCALE, ObstacleType::Small));
    game.maybe_spawn_obstacle();
    assert_eq!(game.obstacles.len(), 1);
}

#[test]
fn key_bindings() {
    assert_eq!(action_for_press(KeyInput::Char(' '), false), GameAction::Jump);
    assert_eq!(action_for_press(KeyInput::Char('w'), false), GameAction::Jump);
    assert_eq!(action_for_press(KeyInput::Char('k'), false), GameAction::Jump);
    assert_eq!(action_for_press(KeyInput::Up, false), GameAction::Jump);
    assert_eq!(action_for_press(KeyInput::Char('s'), false), GameAction::Duck);
    assert_eq!(action_for_press(KeyInput::Char('j'), false), GameAction::Duck);
    assert_eq!(action_for_press(KeyInput::Down, false), GameAction::Duck);
    assert_eq!(action_for_press(KeyInput::Char('q'), false), GameAction::Quit);
    assert_eq!(action_for_press(KeyInput::Esc, false), GameAction::Quit);
    assert_eq!(action_for_press(KeyInput::Char('c'), true), GameAction::Quit);
    assert_eq!(action_for_press(KeyInput::Char('c'), false), GameAction::Idle);
    assert_eq!(action_for_press(KeyInput::Char('x'), false), GameAction::Idle);
    assert_eq!(action_for_press(KeyInput::Other, false), GameAction::Idle);

    assert_eq!(action_for_release(KeyInput::Char('s')), GameAction::StopDuck);
    assert_eq!(action_for_release(KeyInput::Char('j')), GameAction::StopDuck);
    assert_eq!(action_for_release(KeyInput::Down), GameAction::StopDuck);
    assert_eq!(action_for_release(KeyInput::Char(' ')), GameAction::Idle);
    assert_eq!(action_for_release(KeyInput::Up), GameAction::Idle);
}

#[test]
fn milestone_flash_fires_on_crossing() {
    let mut game = GameState::new();
    game.score = 99;
    game.tick();
    assert_eq!(game.score, 100);
    assert_eq!(game.milestone_flash, MILESTONE_FLASH_FRAMES - 1);
    game.tick();
    assert_eq!(game.milestone_flash, MILESTONE_FLASH_FRAMES - 2);
}

#[test]
fn scroll_offset_advances_and_wraps() {
    let mut game = GameState::new();
    game.tick();
    // At 1.0005x the per-frame scroll is floor(2.001) = 2 cells.
    assert_eq!(game.scroll_offset, 2);

    let mut game = GameState::new();
    game.scroll_offset = u32::MAX;
    game.tick();
    assert_eq!(game.scroll_offset, 1);
}

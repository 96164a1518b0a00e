// The static catalog, the ground line, and the transcript watcher's
// change decision.

use compact_runner::{ClaudeSprite, Ground, ObstacleType, TranscriptWatcher};
use compact_runner::ground::GROUND_PATTERN_INTERVAL;
use compact_runner::state::{GameState, PlayerState, SCALE};

#[test]
fn obstacle_catalog_dimensions() {
    assert_eq!(ObstacleType::Small.width(), 3);
    assert_eq!(ObstacleType::Tall.width(), 3);
    assert_eq!(ObstacleType::Double.width(), 7);
    assert_eq!(ObstacleType::Flying.width(), 3);

    assert_eq!(ObstacleType::Small.height(), 3);
    assert_eq!(ObstacleType::Tall.height(), 4);
    assert_eq!(ObstacleType::Double.height(), 3);
    assert_eq!(ObstacleType::Flying.height(), 2);
}

#[test]
fn obstacle_hitboxes_are_inset() {
    for variant in [
        ObstacleType::Small,
        ObstacleType::Tall,
        ObstacleType::Double,
        ObstacleType::Flying,
    ] {
        assert!(variant.hitbox_width() < variant.width());
        assert!(variant.hitbox_height() < variant.height());
    }
    assert_eq!(ObstacleType::Double.hitbox_width(), 5);
    assert_eq!(ObstacleType::Tall.hitbox_height(), 3);
}

#[test]
fn only_the_flying_variant_flies() {
    assert!(ObstacleType::Flying.is_flying());
    assert!(!ObstacleType::Small.is_flying());
    assert!(!ObstacleType::Tall.is_flying());
    assert!(!ObstacleType::Double.is_flying());

    assert_eq!(ObstacleType::Flying.fly_height(), 2);
    assert_eq!(ObstacleType::Small.fly_height(), 0);
    assert_eq!(ObstacleType::Tall.fly_height(), 0);
    assert_eq!(ObstacleType::Double.fly_height(), 0);
}

#[test]
fn sprites_match_their_heights() {
    for variant in [
        ObstacleType::Small,
        ObstacleType::Tall,
        ObstacleType::Double,
        ObstacleType::Flying,
    ] {
        let sprite = variant.sprite();
        assert_eq!(sprite.len(), variant.height() as usize);
        for row in sprite {
            assert_eq!(row.chars().count(), variant.width() as usize);
        }
    }
}

#[test]
fn player_hitbox_tracks_state() {
    let mut game = GameState::new();
    assert_eq!(game.player.hitbox_width(), (ClaudeSprite::WIDTH as i64 - 2) * SCALE);
    assert_eq!(game.player.hitbox_height(), (ClaudeSprite::HEIGHT as i64 - 1) * SCALE);
    game.start_duck();
    assert_eq!(game.player.hitbox_height(), (ClaudeSprite::DUCK_HEIGHT as i64 - 1) * SCALE);
    game.player.state = PlayerState::Landing(2);
    assert_eq!(game.player.hitbox_height(), (ClaudeSprite::LANDING_HEIGHT as i64 - 1) * SCALE);
}

#[test]
fn ground_carries_its_phase() {
    let ground = Ground::new(7);
    assert_eq!(ground.offset, 7);
    assert_eq!(ground.pattern_interval, GROUND_PATTERN_INTERVAL);
    let ground = ground.with_offset(42);
    assert_eq!(ground.offset, 42);
    assert_eq!(ground.pattern_interval, GROUND_PATTERN_INTERVAL);
}

#[test]
fn watcher_detects_size_and_mtime_changes() {
    let watcher = TranscriptWatcher::new(String::from("transcript.jsonl"), 1000, 500);
    // Unchanged metadata: no change.
    assert!(!watcher.file_changed(1000, 500));
    // Any size change counts, growth or shrink.
    assert!(watcher.file_changed(999, 500));
    assert!(watcher.file_changed(1001, 500));
    // A strictly newer modification time counts; an older one does not.
    assert!(watcher.file_changed(1000, 501));
    assert!(!watcher.file_changed(1000, 499));
}

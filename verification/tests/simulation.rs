//! End-to-end and component scenarios for the simulation core. All
//! world-space values are in thousandths of a pixel, times in
//! milliseconds.
use platformer_core::config::Config;
use platformer_core::entities::{seed_coins, seed_platforms, Platform, PlatformKind};
use platformer_core::collide::resolve_collisions;
use platformer_core::geom::Vec2;
use platformer_core::player::{try_jump, update_coyote, Player};
use platformer_core::world::{GameMode, GameState, Input, World};

fn standard_world(mode: GameMode) -> World {
    World::new(Config::standard(), mode)
}

fn no_input() -> Input {
    Input { left: false, right: false, jump: false, restart: false }
}

fn jump_input() -> Input {
    Input { left: false, right: false, jump: true, restart: false }
}

fn restart_input() -> Input {
    Input { left: false, right: false, jump: false, restart: true }
}

#[test]
fn config_standard_is_accepted() {
    let c = Config::new(500, -12000, 4000, 150, 800_000, 600_000);
    assert!(c.is_some());
    assert_eq!(c.unwrap(), Config::standard());
}

#[test]
fn config_rejects_unreachable_gap() {
    // max jump distance 1000 * 48 * 9 / 10 = 43_200 < 120_000.
    assert!(Config::new(500, -12000, 1000, 150, 800_000, 600_000).is_none());
    // Gravity must pull downward.
    assert!(Config::new(-500, -12000, 4000, 150, 800_000, 600_000).is_none());
    // Jump must push upward.
    assert!(Config::new(500, 12000, 4000, 150, 800_000, 600_000).is_none());
}

#[test]
fn spawner_respects_gap_and_band() {
    let cfg = Config::standard();
    // max jump distance is 172_800, below the 220_000 cap.
    let mut last = Platform {
        pos: Vec2 { x: 0, y: 400_000 },
        size: Vec2 { x: 256_000, y: 32_000 },
        kind: PlatformKind::Big,
    };
    for _ in 0..100 {
        let next = platformer_core::spawn::spawn_platform(&last, &cfg);
        let gap = next.pos.x - (last.pos.x + last.size.x);
        assert!(gap >= 120_000 && gap <= 172_800);
        assert!(next.pos.y >= 150_000 && next.pos.y <= 400_000);
        assert!((next.pos.y - last.pos.y).abs() <= 80_000);
        match next.kind {
            PlatformKind::Small => assert_eq!(next.size.x, 128_000),
            PlatformKind::Big => assert_eq!(next.size.x, 256_000),
        }
        assert_eq!(next.size.y, 32_000);
        last = next;
    }
}

#[test]
fn falling_player_lands_on_platform_top() {
    // Falling at 9 px/tick, bottom was at 393 px before the displacement,
    // platform top at 400 px: land, snap, stop, ground.
    let mut player = Player {
        pos: Vec2 { x: 50_000, y: 370_000 },
        vel: Vec2 { x: 0, y: 9_000 },
        on_ground: false,
    };
    let platforms = seed_platforms();
    resolve_collisions(&mut player, &platforms);
    assert_eq!(player.pos.y, 368_000);
    assert_eq!(player.vel.y, 0);
    assert!(player.on_ground);
}

#[test]
fn rising_player_bumps_head() {
    let mut player = Player {
        pos: Vec2 { x: 50_000, y: 432_000 },
        vel: Vec2 { x: 0, y: -5_000 },
        on_ground: false,
    };
    // The seed big platform spans y 400..432 px; the player's top touches
    // its underside exactly.
    let platforms = seed_platforms();
    resolve_collisions(&mut player, &platforms);
    assert_eq!(player.pos.y, 432_000);
    assert_eq!(player.vel.y, 0);
    assert!(!player.on_ground);
}

#[test]
fn prune_is_idempotent_without_camera_movement() {
    let mut w = standard_world(GameMode::Procedural);
    let cam = 500_000;
    w.prune(cam);
    let platforms_once = w.platforms.clone();
    let coins_once = w.coins.clone();
    // The first pass drops the leftmost seed platform and the first coin.
    assert_eq!(platforms_once.len(), 2);
    assert_eq!(coins_once.len(), 1);
    w.prune(cam);
    assert_eq!(w.platforms, platforms_once);
    assert_eq!(w.coins, coins_once);
}

#[test]
fn prune_drops_collected_coins() {
    let mut w = standard_world(GameMode::Procedural);
    w.coins[0].collected = true;
    w.prune(-200_000);
    assert_eq!(w.platforms.len(), 3);
    assert_eq!(w.coins.len(), 1);
    assert_eq!(w.coins[0].pos.x, 540_000);
}

#[test]
fn coyote_jump_succeeds_within_grace() {
    let mut timer: i64 = 150;
    // Airborne for 149 ms: a sliver of grace time is left.
    update_coyote(&mut timer, false, 149, 150);
    assert_eq!(timer, 1);
    let mut player = Player::initial();
    try_jump(&mut player, &mut timer, true, -12_000);
    assert_eq!(player.vel.y, -12_000);
    assert!(!player.on_ground);
    assert_eq!(timer, 0);
}

#[test]
fn coyote_jump_fails_after_expiry() {
    let mut timer: i64 = 150;
    update_coyote(&mut timer, false, 150, 150);
    assert_eq!(timer, 0);
    let mut player = Player::initial();
    let before = player;
    try_jump(&mut player, &mut timer, true, -12_000);
    assert_eq!(player, before);
    assert_eq!(timer, 0);
}

#[test]
fn coyote_timer_refills_on_ground() {
    let mut timer: i64 = -37;
    update_coyote(&mut timer, true, 16, 150);
    assert_eq!(timer, 150);
}

#[test]
fn gravity_only_descent_comes_to_rest_on_seed_platform() {
    let mut w = standard_world(GameMode::Procedural);
    assert_eq!(w.state, GameState::TitleScreen);
    w.tick(jump_input(), 16);
    assert_eq!(w.state, GameState::Playing);
    for _ in 0..50 {
        w.tick(no_input(), 16);
    }
    // The player starts at (50, 300) px over the big platform whose top
    // is at 400 px, and must end resting on it: y == 368 px.
    assert_eq!(w.player.pos.x, 50_000);
    assert_eq!(w.player.pos.y, 368_000);
    assert!(w.player.on_ground);
    assert_eq!(w.state, GameState::Playing);
    assert_eq!(w.score, 0);
}

#[test]
fn playing_tick_fills_the_camera_window() {
    let mut w = standard_world(GameMode::Procedural);
    w.state = GameState::Playing;
    w.tick(no_input(), 16);
    let cam = w.camera_x();
    let last = w.platforms.last().unwrap();
    assert!(last.pos.x + last.size.x >= cam + 800_000);
    for p in &w.platforms {
        assert!(p.pos.y >= 150_000 && p.pos.y <= 400_000);
    }
    // Every spawned platform keeps a reachable gap to its predecessor,
    // and brought exactly one coin with it.
    for i in 3..w.platforms.len() {
        let gap = w.platforms[i].pos.x
            - (w.platforms[i - 1].pos.x + w.platforms[i - 1].size.x);
        assert!(gap >= 120_000 && gap <= 172_800);
    }
    assert_eq!(w.coins.len() - 2, w.platforms.len() - 3);
}

#[test]
fn restart_resets_everything_but_the_highscore() {
    let mut w = standard_world(GameMode::Procedural);
    w.state = GameState::Playing;
    w.score = 7;
    w.player.pos = Vec2 { x: 123_000, y: 650_000 };
    w.player.vel = Vec2 { x: 4_000, y: 9_000 };
    w.coyote_ms = -40;
    w.tick(no_input(), 16);
    assert_eq!(w.state, GameState::GameOver);
    assert_eq!(w.highscore, 7);
    w.tick(restart_input(), 16);
    assert_eq!(w.state, GameState::Playing);
    assert_eq!(w.score, 0);
    assert_eq!(w.highscore, 7);
    assert_eq!(w.player.pos, Vec2 { x: 50_000, y: 300_000 });
    assert_eq!(w.player.vel, Vec2 { x: 0, y: 0 });
    assert!(!w.player.on_ground);
    assert_eq!(w.coyote_ms, 0);
    assert_eq!(w.platforms, seed_platforms());
    assert_eq!(w.coins, seed_coins());
}

#[test]
fn game_over_without_restart_changes_nothing() {
    let mut w = standard_world(GameMode::Procedural);
    w.state = GameState::GameOver;
    w.score = 3;
    w.tick(no_input(), 16);
    assert_eq!(w.state, GameState::GameOver);
    assert_eq!(w.score, 3);
    assert_eq!(w.platforms, seed_platforms());
}

#[test]
fn collecting_both_seeded_coins_wins_on_that_exact_tick() {
    let mut w = standard_world(GameMode::Fixed);
    assert_eq!(w.state, GameState::Playing);
    // Stand on the first coin.
    w.player.pos = Vec2 { x: 340_000, y: 280_000 };
    w.player.vel = Vec2 { x: 0, y: 0 };
    w.tick(no_input(), 16);
    assert_eq!(w.score, 1);
    assert_eq!(w.state, GameState::Playing);
    // Stand on the second coin; the win lands on exactly this tick.
    w.player.pos = Vec2 { x: 540_000, y: 180_000 };
    w.player.vel = Vec2 { x: 0, y: 0 };
    w.tick(no_input(), 16);
    assert_eq!(w.score, 2);
    assert_eq!(w.state, GameState::Win);
}

#[test]
fn coin_collects_exactly_once() {
    let mut w = standard_world(GameMode::Fixed);
    w.player.pos = Vec2 { x: 340_000, y: 282_000 };
    w.player.vel = Vec2 { x: 0, y: 0 };
    w.collect_coins();
    assert_eq!(w.score, 1);
    assert!(w.coins[0].collected);
    assert!(!w.coins[1].collected);
    // Re-touching the same coin must not score again.
    w.collect_coins();
    assert_eq!(w.score, 1);
    assert!(w.coins[0].collected);
}

#[test]
fn title_screen_waits_for_the_jump_key() {
    let mut w = standard_world(GameMode::Procedural);
    w.tick(no_input(), 16);
    assert_eq!(w.state, GameState::TitleScreen);
    assert_eq!(w.player.pos, Vec2 { x: 50_000, y: 300_000 });
    w.tick(jump_input(), 16);
    assert_eq!(w.state, GameState::Playing);
    assert_eq!(w.player.pos, Vec2 { x: 50_000, y: 300_000 });
}

#[test]
fn camera_keeps_player_a_third_from_the_left() {
    let w = standard_world(GameMode::Procedural);
    assert_eq!(w.camera_x(), 50_000 - 800_000 / 3);
}

#[test]
fn held_keys_set_horizontal_velocity_directly() {
    let mut w = standard_world(GameMode::Procedural);
    w.state = GameState::Playing;
    w.tick(Input { left: false, right: true, jump: false, restart: false }, 16);
    assert_eq!(w.player.vel.x, 4_000);
    assert_eq!(w.player.pos.x, 54_000);
    w.tick(Input { left: true, right: true, jump: false, restart: false }, 16);
    // Left wins over right.
    assert_eq!(w.player.vel.x, -4_000);
    w.tick(no_input(), 16);
    assert_eq!(w.player.vel.x, 0);
}

#[test]
fn falling_past_the_screen_updates_the_highscore_once() {
    let mut w = standard_world(GameMode::Procedural);
    w.state = GameState::Playing;
    w.highscore = 10;
    w.score = 4;
    w.player.pos = Vec2 { x: 50_000, y: 700_000 };
    w.tick(no_input(), 16);
    assert_eq!(w.state, GameState::GameOver);
    // A score below the record leaves it alone.
    assert_eq!(w.highscore, 10);
}

#[test]
fn all_coins_collected_reports_exactly() {
    let mut w = standard_world(GameMode::Fixed);
    assert!(!w.all_coins_collected());
    w.coins[0].collected = true;
    assert!(!w.all_coins_collected());
    w.coins[1].collected = true;
    assert!(w.all_coins_collected());
}

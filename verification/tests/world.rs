//! Whole-game ticks: starting, pausing, a level opening, spawning, firing,
//! a kill raising score, and losing the last life.

use spaceship::enemy::{Enemy, EnemyBundle, MovementPattern};
use spaceship::geom::Vec2I;
use spaceship::player::PlayerInput;
use spaceship::timer::{Timer, TimerMode};
use spaceship::ui::{PlayerLives, Score};
use spaceship::weapon::{Projectile, ProjectileBundle};
use spaceship::world::{GameState, World};

fn idle_input() -> PlayerInput {
    PlayerInput::default()
}

fn fire_input() -> PlayerInput {
    PlayerInput { fire: true, ..PlayerInput::default() }
}

fn pause_input() -> PlayerInput {
    PlayerInput { pause: true, ..PlayerInput::default() }
}

#[test]
fn fire_starts_a_game() {
    let mut w = World::new();
    assert_eq!(w.state, GameState::Idle);

    // Idle ignores everything but the fire key.
    w.tick(&idle_input(), 1_000);
    assert_eq!(w.state, GameState::Idle);

    w.tick(&fire_input(), 16);
    assert_eq!(w.state, GameState::Playing);
    assert_eq!(w.lives, PlayerLives(3));
    assert_eq!(w.score, Score(0));
    assert_eq!(w.current_level.number, 0);
}

#[test]
fn pause_toggles_and_freezes() {
    let mut w = World::new();
    w.tick(&fire_input(), 16);
    w.tick(&pause_input(), 16);
    assert_eq!(w.state, GameState::Paused);
    // Paused ticks change nothing however much time passes.
    let level_elapsed = w.current_level.level_start_timer.elapsed_ms;
    w.tick(&idle_input(), 10_000);
    assert_eq!(w.state, GameState::Paused);
    assert_eq!(w.current_level.level_start_timer.elapsed_ms, level_elapsed);
    w.tick(&pause_input(), 16);
    assert_eq!(w.state, GameState::Playing);
}

#[test]
fn level_opens_player_spawns_enemies_follow() {
    let mut w = World::new();
    w.tick(&fire_input(), 16);

    // The level-start delay elapses after two seconds.
    let report = w.tick(&idle_input(), 2_000);
    assert_eq!(report.level_started, Some(0));
    let player = w.player.expect("the opening spawns the player");
    assert_eq!(player.1.transform, Vec2I { x: 0, y: -300_000 });
    assert_eq!(w.spawner.spawn_queue.len(), 6);

    // The first spawn comes three seconds later: the crossing tick arms
    // the release, which happens on the tick after it.
    let report = w.tick(&idle_input(), 3_000);
    assert!(!report.spawned);
    assert_eq!(w.enemies.len(), 0);
    let report = w.tick(&idle_input(), 0);
    assert!(report.spawned);
    assert_eq!(w.enemies.len(), 1);
    assert_eq!(w.spawner.spawn_queue.len(), 5);
    assert_eq!(w.enemies[0].1.enemy, Enemy::Scout { speed: 90 });
}

#[test]
fn player_shot_kills_and_scores() {
    let mut w = World::new();
    w.tick(&fire_input(), 16);
    w.tick(&idle_input(), 2_000);

    // Put a motionless scout right above the player and fire once the
    // weapon has recharged.
    w.enemies.push((
        900,
        EnemyBundle {
            enemy: Enemy::Scout { speed: 0 },
            movement: MovementPattern::Zigzag(Vec2I { x: 0, y: 0 }),
            transform: Vec2I { x: 0, y: -100_000 },
            weapon: None,
            weapon_behavior: None,
        },
    ));
    let report = w.tick(&fire_input(), 250);
    assert!(report.player_fired);
    assert_eq!(w.projectiles.len(), 1);
    assert!(w.projectiles[0].1.projectile.player);

    // Fly the projectile into the scout: 400 units per second upward
    // reaches it well within a second.
    let mut killed = false;
    for _ in 0..20 {
        let report = w.tick(&idle_input(), 50);
        if report.enemy_deaths > 0 {
            assert_eq!(report.enemy_deaths, 1);
            killed = true;
            break;
        }
    }
    assert!(killed, "the shot reaches the scout");
    assert_eq!(w.score, Score(100));
    assert_eq!(w.lives, PlayerLives(3));
    assert!(w.enemies.is_empty());
    assert!(w.projectiles.is_empty());
}

#[test]
fn enemy_hit_takes_a_life_and_restarts() {
    let mut w = World::new();
    w.tick(&fire_input(), 16);
    w.tick(&idle_input(), 2_000);
    assert_eq!(w.spawner.spawn_queue.len(), 6);

    // An enemy projectile sitting on the player.
    w.projectiles.push((
        901,
        ProjectileBundle {
            projectile: Projectile { velocity_vector: Vec2I { x: 0, y: -400 }, player: false },
            transform: Vec2I { x: 0, y: -300_000 },
        },
    ));
    let report = w.tick(&idle_input(), 0);
    assert!(report.player_died);
    assert!(!report.game_over);
    assert_eq!(w.lives, PlayerLives(2));
    assert!(w.player.is_none());
    // The restart clears the field and halts spawning until the level
    // opens again.
    assert!(w.enemies.is_empty());
    assert_eq!(w.spawner.spawn_queue.len(), 0);
    assert_eq!(w.current_level.level_start_timer.elapsed_ms, 0);

    // No enemy appears while the start delay is counting anew.
    let report = w.tick(&idle_input(), 1_000);
    assert!(!report.spawned);
    assert_eq!(w.spawner.spawn_queue.len(), 0);

    // Once the delay elapses the level opens again and the spawner is rebuilt.
    let report = w.tick(&idle_input(), 1_000);
    assert_eq!(report.level_started, Some(0));
    assert_eq!(w.spawner.spawn_queue.len(), 6);
    assert!(w.player.is_some());
}

#[test]
fn last_life_raises_one_game_over() {
    let mut w = World::new();
    w.tick(&fire_input(), 16);
    w.tick(&idle_input(), 2_000);
    w.lives = PlayerLives(1);

    w.projectiles.push((
        902,
        ProjectileBundle {
            projectile: Projectile { velocity_vector: Vec2I { x: 0, y: -400 }, player: false },
            transform: Vec2I { x: 0, y: -300_000 },
        },
    ));
    let report = w.tick(&idle_input(), 0);
    assert!(report.player_died);
    assert!(report.game_over);
    assert_eq!(w.lives, PlayerLives(0));
    assert_eq!(w.state, GameState::Idle);

    // Back at idle nothing further happens without the fire key.
    let report = w.tick(&idle_input(), 1_000);
    assert!(!report.game_over);
    assert_eq!(w.state, GameState::Idle);
}

#[test]
fn fire_request_without_weapon_is_ignored() {
    let mut w = World::new();
    w.tick(&fire_input(), 16);
    w.tick(&idle_input(), 2_000);

    // A malformed ship: it paces fire requests but carries no weapon. The
    // requests are dropped rather than aborting the tick.
    let mut pacing = Timer::new(100, TimerMode::Repeating);
    pacing.tick(99);
    w.enemies.push((
        903,
        EnemyBundle {
            enemy: Enemy::Fighter { speed: 0 },
            movement: MovementPattern::LeftRight(0),
            transform: Vec2I { x: 0, y: 370_000 },
            weapon: None,
            weapon_behavior: Some(pacing),
        },
    ));
    let report = w.tick(&idle_input(), 1);
    assert_eq!(report.enemy_shots, 0);
    assert!(w.projectiles.is_empty());
    assert_eq!(w.enemies.len(), 1);
}

//! Component-level scenarios: timers, kinematics, weapons, collisions,
//! the spawn queue, and the counters.

use spaceship::collide::{
    check_enemy_collisions, check_player_collisions, player_death, DeathAnimation,
};
use spaceship::background::{move_background, BG_START_Y};
use spaceship::enemy::{
    enemy_death, enemy_movement, interval_ms, reset_spawner, Enemy, EnemyBundle,
    EnemySpawner, MovementPattern, SpawnerResetEvent,
};
use spaceship::geom::Vec2I;
use spaceship::level::{bump_level, detect_player_death, level_descriptor, level_start, CurrentLevel, Level};
use spaceship::player::{player_movement, tune_analog, Player, PlayerBundle, PlayerInput};
use spaceship::timer::{Timer, TimerMode, DURATION_LIMIT_MS};
use spaceship::ui::{update_score, window_resize, AutoHide, PlayerLives, Score};
use spaceship::weapon::{move_projectile, Projectile, ProjectileBundle, Weapon};

fn scout_at(x: i64, y: i64, vx: i64, vy: i64) -> EnemyBundle {
    EnemyBundle {
        enemy: Enemy::Scout { speed: 90 },
        movement: MovementPattern::Zigzag(Vec2I { x: vx, y: vy }),
        transform: Vec2I { x, y },
        weapon: None,
        weapon_behavior: None,
    }
}

fn projectile_at(x: i64, y: i64, player: bool) -> ProjectileBundle {
    ProjectileBundle {
        projectile: Projectile { velocity_vector: Vec2I { x: 0, y: 400 }, player },
        transform: Vec2I { x, y },
    }
}

#[test]
fn zero_tick_changes_no_timer() {
    let mut t = Timer::new(1000, TimerMode::Once);
    t.tick(600);
    let elapsed = t.elapsed_ms;
    t.tick(0);
    assert_eq!(t.elapsed_ms, elapsed);
    assert!(!t.just_finished);

    let mut r = Timer::new(50, TimerMode::Repeating);
    r.tick(49);
    r.tick(0);
    assert_eq!(r.elapsed_ms, 49);
    assert!(!r.just_finished);
}

#[test]
fn zero_tick_moves_nothing() {
    // A freshly spawned scout sits above the top wall moving up: the first
    // tick reflects its vertical velocity once, but never re-reflects, and
    // a zero tick moves nothing.
    let mut e = scout_at(0, 410_000, 90, 90);
    enemy_movement(&mut e.transform, &mut e.movement, 0);
    assert_eq!(e.transform, Vec2I { x: 0, y: 410_000 });
    assert_eq!(e.movement, MovementPattern::Zigzag(Vec2I { x: 90, y: -90 }));
    enemy_movement(&mut e.transform, &mut e.movement, 0);
    assert_eq!(e.transform, Vec2I { x: 0, y: 410_000 });
    assert_eq!(e.movement, MovementPattern::Zigzag(Vec2I { x: 90, y: -90 }));

    let mut p = projectile_at(1_000, 2_000, true);
    let onscreen = move_projectile(&mut p, 0);
    assert!(onscreen);
    assert_eq!(p.transform, Vec2I { x: 1_000, y: 2_000 });

    let mut pos = Vec2I { x: 5_000, y: -5_000 };
    let input = PlayerInput { up: true, ..Default::default() };
    player_movement(&mut pos, &Player::default(), &input, 0);
    assert_eq!(pos, Vec2I { x: 5_000, y: -5_000 });
}

#[test]
fn weapon_recharge_gates_fire() {
    let mut w = Weapon::new(Vec2I { x: 0, y: 400 }, 250);
    let at = Vec2I { x: 0, y: 0 };
    // A fresh weapon is still recharging.
    assert!(w.try_fire(at, true).is_none());
    w.charge(250);
    let shot = w.try_fire(at, true).expect("recharged weapon fires");
    assert_eq!(shot.projectile.velocity_vector, Vec2I { x: 0, y: 400 });
    assert!(shot.projectile.player);
    assert_eq!(shot.transform, at);
    // Within less than the recharge duration, every request is dropped.
    assert!(w.try_fire(at, true).is_none());
    w.charge(100);
    assert!(w.try_fire(at, true).is_none());
    w.charge(149);
    assert!(w.try_fire(at, true).is_none());
    w.charge(1);
    assert!(w.try_fire(at, true).is_some());
}

#[test]
fn friendly_fire_is_ignored() {
    let player_pos = Vec2I { x: 0, y: 0 };
    let own = vec![(7u64, projectile_at(0, 0, true))];
    let (deaths, rams, despawns) = check_player_collisions(1, player_pos, &own, &vec![]);
    assert!(deaths.is_empty());
    assert!(rams.is_empty());
    assert!(despawns.is_empty());

    let hostile = vec![(7u64, projectile_at(0, 0, false))];
    let (deaths, _, despawns) = check_player_collisions(1, player_pos, &hostile, &vec![]);
    assert_eq!(deaths.len(), 1);
    assert_eq!(deaths[0].0, 1);
    assert_eq!(despawns, vec![7]);

    // An enemy projectile sitting on an enemy ship does not hurt it.
    let enemies = vec![(3u64, scout_at(0, 0, 90, 90))];
    let (enemy_deaths, despawns) = check_enemy_collisions(&hostile, &enemies);
    assert!(enemy_deaths.is_empty());
    assert!(despawns.is_empty());
}

#[test]
fn ramming_destroys_both() {
    let player_pos = Vec2I { x: 0, y: 0 };
    let enemies = vec![(3u64, scout_at(10_000, 5_000, 90, 90))];
    let (deaths, rams, despawns) = check_player_collisions(1, player_pos, &vec![], &enemies);
    assert_eq!(deaths.len(), 1);
    assert_eq!(rams.len(), 1);
    assert_eq!(rams[0].0, 3);
    assert!(despawns.is_empty());
}

#[test]
fn spawn_queue_interleaves_fighters() {
    let level = Level { enemy_speed: 90, num_scout: 5, num_fighter: 1, spawn_rate_milli: 500 };
    let s = EnemySpawner::from_level(&level);
    assert_eq!(
        s.spawn_queue,
        vec![
            Enemy::Scout { speed: 90 },
            Enemy::Scout { speed: 90 },
            Enemy::Scout { speed: 90 },
            Enemy::Scout { speed: 90 },
            Enemy::Scout { speed: 90 },
            Enemy::Fighter { speed: 90 },
        ]
    );
    assert_eq!(s.level_remaining, 6);
    assert_eq!(s.rate_milli, 500);
}

#[test]
fn spawn_queue_guards_missing_fighters() {
    // No fighters at all: no interleaving and no division by zero.
    let level = Level { enemy_speed: 50, num_scout: 3, num_fighter: 0, spawn_rate_milli: 1000 };
    let s = EnemySpawner::from_level(&level);
    assert_eq!(s.spawn_queue.len(), 3);
    assert!(s.spawn_queue.iter().all(|e| matches!(e, Enemy::Scout { .. })));

    // More fighters than scouts: the cadence floors to zero, none fit.
    let level = Level { enemy_speed: 50, num_scout: 1, num_fighter: 2, spawn_rate_milli: 1000 };
    let s = EnemySpawner::from_level(&level);
    assert_eq!(s.spawn_queue.len(), 1);
}

#[test]
fn spawn_queue_drains_and_halts() {
    let level = level_descriptor(0);
    let mut s = EnemySpawner::from_level(&level);
    assert_eq!(s.spawn_queue.len(), 6);

    // Walk the delay out: 3000 ms, then the release happens on the tick
    // after the crossing.
    s.enemy_spawn(3_000);
    assert!(s.next_spawn.just_finished);
    let released = s.enemy_spawn(0);
    assert_eq!(released, Some(Enemy::Scout { speed: 90 }));
    assert_eq!(s.spawn_queue.len(), 5);
    // Rate 0.5 per second: the next release two seconds later.
    assert_eq!(s.next_spawn.duration_ms, 2_000);

    // A restart clears the queue: nothing spawns any more.
    s.level_restart();
    assert_eq!(s.spawn_queue.len(), 0);
    s.next_spawn.just_finished = true;
    assert_eq!(s.enemy_spawn(0), None);
    assert_eq!(s.spawn_queue.len(), 0);

    // Until an explicit reset rebuilds it.
    reset_spawner(&mut s, &SpawnerResetEvent(level));
    assert_eq!(s.spawn_queue.len(), 6);
}

#[test]
fn score_counts_deaths_by_hundred() {
    let level = level_descriptor(0);
    let mut s = EnemySpawner::from_level(&level);
    let mut score = Score(0);
    assert!(!enemy_death(&mut s, &mut score, 1));
    assert_eq!(score.0, 100);
    assert_eq!(s.level_remaining, 5);
    // The level ends exactly when the kill counter runs out.
    assert!(enemy_death(&mut s, &mut score, 5));
    assert_eq!(score.0, 600);
    assert_eq!(s.level_remaining, 0);
    // Further notifications never end it twice, and never underflow.
    assert!(!enemy_death(&mut s, &mut score, 1));
    assert_eq!(score.0, 700);
    assert_eq!(s.level_remaining, 0);
}

#[test]
fn lives_saturate_and_game_over_once() {
    let mut lives = PlayerLives(3);
    assert_eq!(player_death(&mut lives, true), (true, false));
    assert_eq!(lives.0, 2);
    assert_eq!(player_death(&mut lives, false), (false, false));
    assert_eq!(lives.0, 2);
    assert_eq!(player_death(&mut lives, true), (true, false));
    assert_eq!(player_death(&mut lives, true), (true, true));
    assert_eq!(lives.0, 0);
    // Saturates at zero, and never raises a second game over.
    assert_eq!(player_death(&mut lives, true), (true, false));
    assert_eq!(lives.0, 0);
}

#[test]
fn player_clamps_at_soft_walls() {
    // Overshooting the top wall clamps to the vertical bound, the
    // horizontal coordinate untouched.
    let mut pos = Vec2I { x: 0, y: -300_000 };
    let input = PlayerInput { up: true, ..Default::default() };
    // 200 units per second for five seconds overshoots the top wall.
    player_movement(&mut pos, &Player::default(), &input, 5_000);
    assert_eq!(pos, Vec2I { x: 0, y: 380_000 });

    // A short move is not clamped.
    let mut pos = Vec2I { x: 0, y: -300_000 };
    player_movement(&mut pos, &Player::default(), &input, 2_500);
    assert_eq!(pos, Vec2I { x: 0, y: 200_000 });
}

#[test]
fn bounce_happens_the_tick_after_crossing() {
    // An enemy in the left-right pattern at x = 199 moving +50 with a tenth
    // of a second elapsed: the new x is 204, past the wall, and only the
    // velocity is reflected for the next tick.
    let mut pos = Vec2I { x: 199_000, y: 370_000 };
    let mut pat = MovementPattern::LeftRight(50);
    enemy_movement(&mut pos, &mut pat, 100);
    assert_eq!(pos, Vec2I { x: 204_000, y: 370_000 });
    assert_eq!(pat, MovementPattern::LeftRight(-50));
    // The next tick moves back down.
    enemy_movement(&mut pos, &mut pat, 100);
    assert_eq!(pos, Vec2I { x: 199_000, y: 370_000 });
    assert_eq!(pat, MovementPattern::LeftRight(-50));
}

#[test]
fn overlap_gives_one_death_one_despawn_and_score() {
    let enemies = vec![(3u64, scout_at(100_000, 200_000, 90, 90))];
    let projectiles = vec![(9u64, projectile_at(101_000, 205_000, true))];
    let (deaths, despawns) = check_enemy_collisions(&projectiles, &enemies);
    assert_eq!(deaths.len(), 1);
    assert_eq!(deaths[0].0, 3);
    assert_eq!(despawns, vec![9]);

    let level = level_descriptor(0);
    let mut s = EnemySpawner::from_level(&level);
    let mut score = Score(0);
    enemy_death(&mut s, &mut score, deaths.len());
    assert_eq!(score.0, 100);
}

#[test]
fn projectiles_despawn_offscreen() {
    let mut p = projectile_at(0, 404_000, true);
    assert!(move_projectile(&mut p, 1_000) == false);
    assert_eq!(p.transform, Vec2I { x: 0, y: 804_000 });

    let mut p = projectile_at(0, 0, true);
    assert!(move_projectile(&mut p, 1_000));
    assert_eq!(p.transform, Vec2I { x: 0, y: 400_000 });
}

#[test]
fn levels_scale_past_the_table() {
    let mut c = CurrentLevel::default();
    assert_eq!(c.number, 0);
    assert_eq!(c.level.enemy_speed, 90);
    bump_level(&mut c);
    assert_eq!(c.number, 1);
    assert_eq!(c.level.enemy_speed, 100);
    bump_level(&mut c);
    assert_eq!(c.number, 2);
    assert_eq!(c.level.enemy_speed, 110);
    // Past the last defined level the speed scales up by 15 per level.
    bump_level(&mut c);
    assert_eq!(c.number, 3);
    assert_eq!(c.level.enemy_speed, 125);
    assert_eq!(c.level.num_scout, 12);
    bump_level(&mut c);
    assert_eq!(c.level.enemy_speed, 140);
}

#[test]
fn analog_tuning_has_dead_zone_and_full_output() {
    assert_eq!(tune_analog(0), 0);
    assert_eq!(tune_analog(50), 0);
    assert_eq!(tune_analog(-50), 0);
    assert_eq!(tune_analog(475), 500);
    assert_eq!(tune_analog(-475), -500);
    assert_eq!(tune_analog(900), 1000);
    assert_eq!(tune_analog(1000), 1000);
    assert_eq!(tune_analog(-1000), -1000);
}

#[test]
fn score_line_is_zero_padded() {
    assert_eq!(update_score(&Score(0)), b"000000".to_vec());
    assert_eq!(update_score(&Score(100)), b"000100".to_vec());
    assert_eq!(update_score(&Score(123456)), b"123456".to_vec());
    assert_eq!(update_score(&Score(1234567)), b"1234567".to_vec());
    assert_eq!(update_score(&Score(u32::MAX)), b"4294967295".to_vec());
}

#[test]
fn explosion_walks_its_frames_then_ends() {
    let mut d = DeathAnimation::default();
    assert_eq!(d.death_animations(25), (None, false));
    assert_eq!(d.death_animations(25), (Some(1), false));
    assert_eq!(d.death_animations(50), (Some(2), false));
    assert_eq!(d.death_animations(50), (Some(3), false));
    assert_eq!(d.death_animations(50), (Some(4), false));
    assert_eq!(d.death_animations(50), (Some(5), false));
    assert_eq!(d.death_animations(50), (None, true));
}

#[test]
fn transient_text_fades_out_and_goes() {
    let mut a = AutoHide::default();
    // Fully opaque through the first half of the fade.
    assert_eq!(a.autohide_text(1_000), (None, false));
    let (alpha, done) = a.autohide_text(625);
    assert_eq!(alpha, Some(700));
    assert!(!done);
    let (alpha, done) = a.autohide_text(875);
    assert_eq!(alpha, Some(0));
    assert!(done);
}

#[test]
fn fresh_player_ship_is_at_spawn() {
    let b = PlayerBundle::spawned();
    assert_eq!(b.transform, Vec2I { x: 0, y: -300_000 });
    assert_eq!(b.player.speed, 200);
    assert_eq!(b.weapon.aim_vector, Vec2I { x: 0, y: 400 });
    assert_eq!(b.weapon.ready_timer.duration_ms, 250);
}

#[test]
fn enemies_instantiate_in_their_rows() {
    let scout = Enemy::Scout { speed: 90 }.instantiate(true, -50_000);
    assert_eq!(scout.transform, Vec2I { x: -50_000, y: 410_000 });
    assert_eq!(scout.movement, MovementPattern::Zigzag(Vec2I { x: 90, y: 90 }));
    assert!(scout.weapon.is_none());
    assert!(scout.weapon_behavior.is_none());

    let fighter = Enemy::Fighter { speed: 110 }.instantiate(false, 10_000);
    assert_eq!(fighter.transform, Vec2I { x: 10_000, y: 370_000 });
    assert_eq!(fighter.movement, MovementPattern::LeftRight(-110));
    let w = fighter.weapon.expect("fighters carry a weapon");
    assert_eq!(w.aim_vector, Vec2I { x: 0, y: -400 });
    let t = fighter.weapon_behavior.expect("fighters pace their fire");
    assert_eq!(t.duration_ms, 2_000);

    // The randomized variant stays in the spawn band of its kind.
    let b = Enemy::Scout { speed: 90 }.make_bundle();
    assert_eq!(b.transform.y, 410_000);
    assert!((-200_000..200_000).contains(&b.transform.x));
    match b.movement {
        MovementPattern::Zigzag(v) => {
            assert_eq!(v.y, 90);
            assert_eq!(v.x.abs(), 90);
        }
        _ => panic!("scouts zigzag"),
    }
}

#[test]
fn background_scrolls_and_wraps_invisibly() {
    let mut y = BG_START_Y;
    // 40 units per second: one second scrolls 40 units down.
    move_background(&mut y, 1_000);
    assert_eq!(y, 360_000);
    // Reaching half a repeat below center snaps up by one full repeat.
    let mut y: i64 = -399_000;
    move_background(&mut y, 1_000);
    assert_eq!(y, 361_000);
    // A zero tick leaves it alone.
    move_background(&mut y, 0);
    assert_eq!(y, 361_000);
}

#[test]
fn spawn_interval_follows_the_rate() {
    assert_eq!(interval_ms(500), 2_000);
    assert_eq!(interval_ms(1_000), 1_000);
    assert_eq!(interval_ms(1_500), 666);
    // A rate of zero never spawns; an absurdly high rate still ticks.
    assert_eq!(interval_ms(0), DURATION_LIMIT_MS);
    assert_eq!(interval_ms(2_000_000), 1);
}

#[test]
fn viewport_keeps_the_field_shape() {
    // The native window needs no letterboxing.
    assert_eq!(window_resize(400, 800), ((400, 800), (0, 0)));
    // A tall window is limited by its width and centered vertically.
    assert_eq!(window_resize(400, 1_000), ((400, 800), (0, 100)));
    // A wide window is limited by its height and centered horizontally.
    assert_eq!(window_resize(1_000, 800), ((400, 800), (300, 0)));
}

#[test]
fn level_numbers_saturate_at_the_machine_limit() {
    let mut c = CurrentLevel::default();
    c.number = usize::MAX - 1;
    bump_level(&mut c);
    assert_eq!(c.number, usize::MAX);
    assert_eq!(c.level.enemy_speed, u32::MAX);
    // At the limit the number holds instead of wrapping.
    bump_level(&mut c);
    assert_eq!(c.number, usize::MAX);
}

#[test]
fn restart_resets_only_the_start_delay() {
    let mut c = CurrentLevel::default();
    bump_level(&mut c);
    assert_eq!(c.number, 1);
    assert!(!level_start(&mut c, 1_500));
    detect_player_death(&mut c, true);
    assert_eq!(c.level_start_timer.elapsed_ms, 0);
    assert_eq!(c.number, 1);
    assert!(!level_start(&mut c, 1_999));
    assert!(level_start(&mut c, 1));
}

//! The whole game state and its tick. The host loop hands in the elapsed
//! time and the tick's input; the tick runs the resolvers in a fixed
//! two-phase order — spawn scheduling, movement, weapons, then collision
//! detection followed by death handling in the same tick, so a detected
//! death is resolved before the next detection pass — and reports what
//! happened for presentation (sounds, texts, explosions).
//!
//! Death, restart and game-over notifications are single-tick mailboxes:
//! they are produced and fully drained within one tick. Player deaths are
//! consumed collapsed (simultaneous duplicates are equivalent), enemy
//! deaths one by one, since several enemies can die in the same tick.

use vstd::prelude::*;

verus! {

use crate::collide::{
    check_enemy_collisions,
    check_player_collisions,
    player_death,
    EnemyDeathEvent,
    PlayerDeathEvent,
};
use crate::enemy::{
    enemy_death,
    enemy_movement,
    spec_pattern_moved_pat,
    spec_pattern_moved_pos,
    EnemyBundle,
    EnemySpawner,
};
use crate::geom::TICK_LIMIT_MS;
use crate::level::{bump_level, detect_player_death, level_start, CurrentLevel};
use crate::player::{player_movement, PlayerBundle, PlayerInput};
use crate::timer::spec_ticked;
use crate::ui::{PlayerLives, Score};
use crate::weapon::{
    move_projectile,
    spec_moved_projectile,
    spec_onscreen,
    ProjectileBundle,
};

/// Lives a fresh game starts with.
pub const STARTING_LIVES: usize = 3;

/// What drives which resolvers run.
#[derive(Clone, Copy, Debug, PartialEq, Eq, Structural)]
pub enum GameState {
    Idle,
    Playing,
    Paused,
}

/// What one tick did, for the presentation layer.
#[derive(Clone, Copy, Debug, PartialEq, Eq, Structural)]
pub struct TickReport {
    /// The level whose opening delay just elapsed, to announce.
    pub level_started: Option<usize>,
    /// An enemy was released from the spawn queue.
    pub spawned: bool,
    /// The player fired a projectile.
    pub player_fired: bool,
    /// How many enemy projectiles were fired.
    pub enemy_shots: usize,
    /// The player was hit this tick.
    pub player_died: bool,
    /// How many enemy-death notifications were consumed.
    pub enemy_deaths: usize,
    /// The level's kill counter ran out.
    pub level_ended: bool,
    /// The last life was just lost.
    pub game_over: bool,
}

impl TickReport {
    /// A tick in which nothing of note happened.
    pub open spec fn spec_quiet() -> TickReport {
        TickReport {
            level_started: None,
            spawned: false,
            player_fired: false,
            enemy_shots: 0,
            player_died: false,
            enemy_deaths: 0,
            level_ended: false,
            game_over: false,
        }
    }

    fn quiet() -> (r: TickReport)
        ensures
            r == TickReport::spec_quiet(),
    {
        TickReport {
            level_started: None,
            spawned: false,
            player_fired: false,
            enemy_shots: 0,
            player_died: false,
            enemy_deaths: 0,
            level_ended: false,
            game_over: false,
        }
    }
}

/// Move every enemy ship one tick.
fn move_all_enemies(enemies: &mut Vec<(u64, EnemyBundle)>, dt: u64)
    requires
        forall|i: int| 0 <= i < old(enemies)@.len() ==> (#[trigger] old(enemies)@[i]).1.wf(),
        dt <= TICK_LIMIT_MS,
    ensures
        final(enemies)@.len() == old(enemies)@.len(),
        forall|i: int|
            0 <= i < old(enemies)@.len() ==> (#[trigger] final(enemies)@[i]) == (
            old(enemies)@[i].0,
            EnemyBundle {
                transform: spec_pattern_moved_pos(
                    old(enemies)@[i].1.transform,
                    old(enemies)@[i].1.movement,
                    dt,
                ),
                movement: spec_pattern_moved_pat(
                    old(enemies)@[i].1.transform,
                    old(enemies)@[i].1.movement,
                    dt,
                ),
                ..old(enemies)@[i].1
            },
        ),
        forall|i: int| 0 <= i < final(enemies)@.len() ==> (#[trigger] final(enemies)@[i]).1.wf(),
        dt == 0 ==> forall|i: int|
            0 <= i < final(enemies)@.len() ==> (#[trigger] final(enemies)@[i]).1.transform == old(
                enemies,
            )@[i].1.transform,
{
    let n = enemies.len();
    let mut i: usize = 0;
    while i < n
        invariant
            i <= n,
            n == enemies@.len(),
            n == old(enemies)@.len(),
            forall|k: int| i <= k < n ==> (#[trigger] enemies@[k]) == old(enemies)@[k],
            forall|k: int| 0 <= k < n ==> (#[trigger] old(enemies)@[k]).1.wf(),
            forall|k: int|
                0 <= k < i ==> (#[trigger] enemies@[k]) == (
                old(enemies)@[k].0,
                EnemyBundle {
                    transform: spec_pattern_moved_pos(
                        old(enemies)@[k].1.transform,
                        old(enemies)@[k].1.movement,
                        dt,
                    ),
                    movement: spec_pattern_moved_pat(
                        old(enemies)@[k].1.transform,
                        old(enemies)@[k].1.movement,
                        dt,
                    ),
                    ..old(enemies)@[k].1
                },
            ),
            forall|k: int| 0 <= k < i ==> (#[trigger] enemies@[k]).1.wf(),
            dt <= TICK_LIMIT_MS,
        decreases n - i,
    {
        let mut e = enemies[i];
        enemy_movement(&mut e.1.transform, &mut e.1.movement, dt);
        enemies[i] = e;
        i = i + 1;
    }
}

/// Advance every fighter's fire-pacing timer one tick; the indices whose
/// timers wrapped, in ascending order, are this tick's enemy fire requests.
fn enemy_weapons(enemies: &mut Vec<(u64, EnemyBundle)>, dt: u64) -> (fired: Vec<usize>)
    requires
        forall|i: int| 0 <= i < old(enemies)@.len() ==> (#[trigger] old(enemies)@[i]).1.wf(),
        dt <= TICK_LIMIT_MS,
    ensures
        final(enemies)@.len() == old(enemies)@.len(),
        forall|i: int|
            0 <= i < old(enemies)@.len() ==> (#[trigger] final(enemies)@[i]) == (
            old(enemies)@[i].0,
            EnemyBundle {
                weapon_behavior: match old(enemies)@[i].1.weapon_behavior {
                    Some(t) => Some(spec_ticked(t, dt)),
                    None => None,
                },
                ..old(enemies)@[i].1
            },
        ),
        forall|i: int| 0 <= i < final(enemies)@.len() ==> (#[trigger] final(enemies)@[i]).1.wf(),
        forall|k: int|
            0 <= k < fired@.len() ==> 0 <= #[trigger] fired@[k] < old(enemies)@.len()
                && (old(enemies)@[fired@[k] as int].1.weapon_behavior matches Some(t)
                && spec_ticked(t, dt).just_finished),
        forall|k1: int, k2: int| 0 <= k1 < k2 < fired@.len() ==> fired@[k1] < fired@[k2],
        forall|i: int|
            0 <= i < old(enemies)@.len() && ((#[trigger] old(enemies)@[i]).1.weapon_behavior
                matches Some(t) && spec_ticked(t, dt).just_finished) ==> fired@.contains(
                i as usize,
            ),
        dt == 0 ==> fired@.len() == 0,
{
    let n = enemies.len();
    let mut fired: Vec<usize> = Vec::new();
    let mut i: usize = 0;
    while i < n
        invariant
            i <= n,
            n == enemies@.len(),
            n == old(enemies)@.len(),
            forall|k: int| i <= k < n ==> (#[trigger] enemies@[k]) == old(enemies)@[k],
            forall|k: int| 0 <= k < n ==> (#[trigger] old(enemies)@[k]).1.wf(),
            forall|k: int|
                0 <= k < i ==> (#[trigger] enemies@[k]) == (
                old(enemies)@[k].0,
                EnemyBundle {
                    weapon_behavior: match old(enemies)@[k].1.weapon_behavior {
                        Some(t) => Some(spec_ticked(t, dt)),
                        None => None,
                    },
                    ..old(enemies)@[k].1
                },
            ),
            forall|k: int| 0 <= k < i ==> (#[trigger] enemies@[k]).1.wf(),
            forall|k: int|
                0 <= k < fired@.len() ==> 0 <= #[trigger] fired@[k] < i
                    && (old(enemies)@[fired@[k] as int].1.weapon_behavior matches Some(t)
                    && spec_ticked(t, dt).just_finished),
            forall|k1: int, k2: int| 0 <= k1 < k2 < fired@.len() ==> fired@[k1] < fired@[k2],
            forall|k: int|
                0 <= k < i && ((#[trigger] old(enemies)@[k]).1.weapon_behavior matches Some(t)
                    && spec_ticked(t, dt).just_finished) ==> fired@.contains(k as usize),
            dt == 0 ==> fired@.len() == 0,
            dt <= TICK_LIMIT_MS,
        decreases n - i,
    {
        let ghost fired_before = fired@;
        let mut e = enemies[i];
        let mut shoot = false;
        if let Some(mut t) = e.1.weapon_behavior {
            t.tick(dt);
            shoot = t.just_finished();
            e.1.weapon_behavior = Some(t);
        }
        enemies[i] = e;
        if shoot {
            fired.push(i);
        }
        proof {
            assert forall|k: int|
                0 <= k < fired_before.len() implies fired@[k] == fired_before[k] by {}
            assert forall|k: int|
                0 <= k < i + 1 && ((#[trigger] old(enemies)@[k]).1.weapon_behavior matches Some(
                    t,
                ) && spec_ticked(t, dt).just_finished) implies fired@.contains(k as usize) by {
                if k < i {
                    let idx = choose|idx: int|
                        0 <= idx < fired_before.len() && fired_before[idx] == k as usize;
                    assert(fired@[idx] == k as usize);
                } else {
                    assert(fired@[fired@.len() - 1] == i as usize);
                }
            }
        }
        i = i + 1;
    }
    fired
}

/// Advance every weapon's recharge timer one tick.
fn charge_all_weapons(
    player: &mut Option<(u64, PlayerBundle)>,
    enemies: &mut Vec<(u64, EnemyBundle)>,
    dt: u64,
)
    requires
        (*old(player)) matches Some(p) ==> p.1.wf(),
        forall|i: int| 0 <= i < old(enemies)@.len() ==> (#[trigger] old(enemies)@[i]).1.wf(),
        dt <= TICK_LIMIT_MS,
    ensures
        (*final(player)) matches Some(p) ==> p.1.wf(),
        (*final(player)) is Some <==> (*old(player)) is Some,
        (*final(player)) matches Some(p) ==> {
            let q = (*old(player))->Some_0;
            p == (
            q.0,
            PlayerBundle {
                weapon: crate::weapon::Weapon {
                    ready_timer: spec_ticked(q.1.weapon.ready_timer, dt),
                    ..q.1.weapon
                },
                ..q.1
            },
            )
        },
        final(enemies)@.len() == old(enemies)@.len(),
        forall|i: int|
            0 <= i < old(enemies)@.len() ==> (#[trigger] final(enemies)@[i]) == (
            old(enemies)@[i].0,
            EnemyBundle {
                weapon: match old(enemies)@[i].1.weapon {
                    Some(w) => Some(
                        crate::weapon::Weapon {
                            ready_timer: spec_ticked(w.ready_timer, dt),
                            ..w
                        },
                    ),
                    None => None,
                },
                ..old(enemies)@[i].1
            },
        ),
        forall|i: int| 0 <= i < final(enemies)@.len() ==> (#[trigger] final(enemies)@[i]).1.wf(),
{
    if let Some(p) = player {
        p.1.weapon.charge(dt);
    }
    let n = enemies.len();
    let mut i: usize = 0;
    while i < n
        invariant
            i <= n,
            n == enemies@.len(),
            n == old(enemies)@.len(),
            forall|k: int| i <= k < n ==> (#[trigger] enemies@[k]) == old(enemies)@[k],
            forall|k: int| 0 <= k < n ==> (#[trigger] old(enemies)@[k]).1.wf(),
            forall|k: int|
                0 <= k < i ==> (#[trigger] enemies@[k]) == (
                old(enemies)@[k].0,
                EnemyBundle {
                    weapon: match old(enemies)@[k].1.weapon {
                        Some(w) => Some(
                            crate::weapon::Weapon {
                                ready_timer: spec_ticked(w.ready_timer, dt),
                                ..w
                            },
                        ),
                        None => None,
                    },
                    ..old(enemies)@[k].1
                },
            ),
            forall|k: int| 0 <= k < i ==> (#[trigger] enemies@[k]).1.wf(),
            dt <= TICK_LIMIT_MS,
        decreases n - i,
    {
        let mut e = enemies[i];
        if let Some(mut w) = e.1.weapon {
            w.charge(dt);
            e.1.weapon = Some(w);
        }
        enemies[i] = e;
        i = i + 1;
    }
}

/// The projectiles after one tick of flight, the ones leaving the visible
/// band dropped.
pub open spec fn spec_moved_kept(s: Seq<(u64, ProjectileBundle)>, dt: u64) -> Seq<
    (u64, ProjectileBundle),
> {
    s.map_values(|p: (u64, ProjectileBundle)| (p.0, spec_moved_projectile(p.1, dt))).filter(
        |p: (u64, ProjectileBundle)| spec_onscreen(p.1.transform),
    )
}

/// Advance every projectile one tick and despawn the ones that left the
/// visible band.
fn move_all_projectiles(projectiles: &mut Vec<(u64, ProjectileBundle)>, dt: u64)
    requires
        forall|i: int|
            0 <= i < old(projectiles)@.len() ==> (#[trigger] old(projectiles)@[i]).1.wf(),
        dt <= TICK_LIMIT_MS,
    ensures
        final(projectiles)@ == spec_moved_kept(old(projectiles)@, dt),
        forall|i: int|
            0 <= i < final(projectiles)@.len() ==> (#[trigger] final(projectiles)@[i]).1.wf(),
        final(projectiles)@.len() <= old(projectiles)@.len(),
{
    let n = projectiles.len();
    let mut kept: Vec<(u64, ProjectileBundle)> = Vec::new();
    let mut i: usize = 0;
    proof {
        assert(old(projectiles)@.take(0).map_values(
            |p: (u64, ProjectileBundle)| (p.0, spec_moved_projectile(p.1, dt)),
        ) =~= Seq::<(u64, ProjectileBundle)>::empty());
    }
    while i < n
        invariant
            i <= n,
            n == projectiles@.len(),
            projectiles@ == old(projectiles)@,
            forall|k: int| 0 <= k < n ==> (#[trigger] projectiles@[k]).1.wf(),
            kept@ == spec_moved_kept(projectiles@.take(i as int), dt),
            forall|k: int| 0 <= k < kept@.len() ==> (#[trigger] kept@[k]).1.wf(),
            kept@.len() <= i,
            dt <= TICK_LIMIT_MS,
        decreases n - i,
    {
        let mut p = projectiles[i];
        let onscreen = move_projectile(&mut p.1, dt);
        proof {
            let f = |q: (u64, ProjectileBundle)| (q.0, spec_moved_projectile(q.1, dt));
            let pred = |q: (u64, ProjectileBundle)| spec_onscreen(q.1.transform);
            let m0 = projectiles@.take(i as int).map_values(f);
            let m1 = projectiles@.take(i + 1).map_values(f);
            assert(m1 =~= m0.push(f(projectiles@[i as int])));
            assert(m1.drop_last() =~= m0);
            reveal_with_fuel(Seq::<(u64, ProjectileBundle)>::filter, 2);
            assert(m1.filter(pred) == if pred(m1.last()) {
                m0.filter(pred).push(m1.last())
            } else {
                m0.filter(pred)
            });
        }
        if onscreen {
            kept.push(p);
        }
        i = i + 1;
    }
    proof {
        assert(projectiles@.take(n as int) =~= projectiles@);
    }
    *projectiles = kept;
}

/// Whether the id list contains `id`.
fn contains_id(ids: &Vec<u64>, id: u64) -> (r: bool)
    ensures
        r == ids@.contains(id),
{
    let mut i: usize = 0;
    while i < ids.len()
        invariant
            i <= ids@.len(),
            forall|k: int| 0 <= k < i ==> ids@[k] != id,
        decreases ids@.len() - i,
    {
        if ids[i] == id {
            return true;
        }
        i = i + 1;
    }
    false
}

/// Whether any of the death notifications names `id`.
fn death_names_id(deaths: &Vec<EnemyDeathEvent>, id: u64) -> (r: bool)
    ensures
        r == deaths@.contains(EnemyDeathEvent(id)),
{
    let mut i: usize = 0;
    while i < deaths.len()
        invariant
            i <= deaths@.len(),
            forall|k: int| 0 <= k < i ==> deaths@[k] != EnemyDeathEvent(id),
        decreases deaths@.len() - i,
    {
        if deaths[i].0 == id {
            proof {
                assert(deaths@[i as int] == EnemyDeathEvent(id));
            }
            return true;
        }
        i = i + 1;
    }
    false
}

/// The projectiles whose ids are in neither despawn list.
pub open spec fn spec_without_ids(
    s: Seq<(u64, ProjectileBundle)>,
    a: Seq<u64>,
    b: Seq<u64>,
) -> Seq<(u64, ProjectileBundle)> {
    s.filter(|p: (u64, ProjectileBundle)| !a.contains(p.0) && !b.contains(p.0))
}

/// Remove every projectile named by either despawn list.
fn despawn_projectiles(
    projectiles: &mut Vec<(u64, ProjectileBundle)>,
    a: &Vec<u64>,
    b: &Vec<u64>,
)
    ensures
        final(projectiles)@ == spec_without_ids(old(projectiles)@, a@, b@),
        forall|i: int|
            0 <= i < final(projectiles)@.len() ==> old(projectiles)@.contains(
                #[trigger] final(projectiles)@[i],
            ),
        final(projectiles)@.len() <= old(projectiles)@.len(),
{
    let n = projectiles.len();
    let mut kept: Vec<(u64, ProjectileBundle)> = Vec::new();
    let mut i: usize = 0;
    while i < n
        invariant
            i <= n,
            n == projectiles@.len(),
            projectiles@ == old(projectiles)@,
            kept@ == spec_without_ids(projectiles@.take(i as int), a@, b@),
            forall|k: int|
                0 <= k < kept@.len() ==> projectiles@.contains(#[trigger] kept@[k]),
            kept@.len() <= i,
        decreases n - i,
    {
        let p = projectiles[i];
        let hit = contains_id(a, p.0) || contains_id(b, p.0);
        proof {
            let pred = |q: (u64, ProjectileBundle)| !a@.contains(q.0) && !b@.contains(q.0);
            let t0 = projectiles@.take(i as int);
            let t1 = projectiles@.take(i + 1);
            assert(t1.drop_last() =~= t0);
            assert(t1.last() == projectiles@[i as int]);
            reveal_with_fuel(Seq::<(u64, ProjectileBundle)>::filter, 2);
            assert(t1.filter(pred) == if pred(t1.last()) {
                t0.filter(pred).push(t1.last())
            } else {
                t0.filter(pred)
            });
            assert(projectiles@.contains(projectiles@[i as int]));
        }
        if !hit {
            kept.push(p);
        }
        i = i + 1;
    }
    proof {
        assert(projectiles@.take(n as int) =~= projectiles@);
    }
    *projectiles = kept;
}

/// The enemies not named by any death notification.
pub open spec fn spec_surviving(
    s: Seq<(u64, EnemyBundle)>,
    a: Seq<EnemyDeathEvent>,
    b: Seq<EnemyDeathEvent>,
) -> Seq<(u64, EnemyBundle)> {
    s.filter(
        |e: (u64, EnemyBundle)|
            !a.contains(EnemyDeathEvent(e.0)) && !b.contains(EnemyDeathEvent(e.0)),
    )
}

/// Remove every enemy named by a death notification of this tick.
fn despawn_enemies(
    enemies: &mut Vec<(u64, EnemyBundle)>,
    a: &Vec<EnemyDeathEvent>,
    b: &Vec<EnemyDeathEvent>,
)
    requires
        forall|i: int| 0 <= i < old(enemies)@.len() ==> (#[trigger] old(enemies)@[i]).1.wf(),
    ensures
        final(enemies)@ == spec_surviving(old(enemies)@, a@, b@),
        forall|i: int| 0 <= i < final(enemies)@.len() ==> (#[trigger] final(enemies)@[i]).1.wf(),
        final(enemies)@.len() <= old(enemies)@.len(),
{
    let n = enemies.len();
    let mut kept: Vec<(u64, EnemyBundle)> = Vec::new();
    let mut i: usize = 0;
    while i < n
        invariant
            i <= n,
            n == enemies@.len(),
            enemies@ == old(enemies)@,
            forall|k: int| 0 <= k < n ==> (#[trigger] enemies@[k]).1.wf(),
            kept@ == spec_surviving(enemies@.take(i as int), a@, b@),
            forall|k: int| 0 <= k < kept@.len() ==> (#[trigger] kept@[k]).1.wf(),
            kept@.len() <= i,
        decreases n - i,
    {
        let e = enemies[i];
        let dead = death_names_id(a, e.0) || death_names_id(b, e.0);
        proof {
            let pred = |q: (u64, EnemyBundle)|
                !a@.contains(EnemyDeathEvent(q.0)) && !b@.contains(EnemyDeathEvent(q.0));
            let t0 = enemies@.take(i as int);
            let t1 = enemies@.take(i + 1);
            assert(t1.drop_last() =~= t0);
            assert(t1.last() == enemies@[i as int]);
            reveal_with_fuel(Seq::<(u64, EnemyBundle)>::filter, 2);
            assert(t1.filter(pred) == if pred(t1.last()) {
                t0.filter(pred).push(t1.last())
            } else {
                t0.filter(pred)
            });
        }
        if !dead {
            kept.push(e);
        }
        i = i + 1;
    }
    proof {
        assert(enemies@.take(n as int) =~= enemies@);
    }
    *enemies = kept;
}

/// Handle this tick's fire requests — the player's, then each requesting
/// fighter's in index order. A request is honored only if that weapon has
/// recharged; firing emits a projectile at the shooter's position with the
/// weapon's aim, tagged with who fired it, and starts the recharge over.
/// Returns whether the player fired and how many fighters did.
fn fire_weapon(
    player: &mut Option<(u64, PlayerBundle)>,
    enemies: &mut Vec<(u64, EnemyBundle)>,
    projectiles: &mut Vec<(u64, ProjectileBundle)>,
    player_fire: bool,
    fired: &Vec<usize>,
    next_id: &mut u64,
) -> (shots: (bool, usize))
    requires
        (*old(player)) matches Some(p) ==> p.1.wf(),
        forall|i: int| 0 <= i < old(enemies)@.len() ==> (#[trigger] old(enemies)@[i]).1.wf(),
        forall|i: int|
            0 <= i < old(projectiles)@.len() ==> (#[trigger] old(projectiles)@[i]).1.wf(),
        forall|k: int| 0 <= k < fired@.len() ==> 0 <= #[trigger] fired@[k] < old(enemies)@.len(),
    ensures
        (*final(player)) is Some <==> (*old(player)) is Some,
        (*final(player)) matches Some(p) ==> p.1.wf() && ((*old(player)) matches Some(q)
            && p.0 == q.0 && p.1.transform == q.1.transform && p.1.player == q.1.player
            && p.1.weapon.aim_vector == q.1.weapon.aim_vector),
        shots.0 == (player_fire && ((*old(player)) matches Some(q) && q.1.weapon.spec_ready())),
        shots.0 ==> ((*old(player)) matches Some(q) && final(projectiles)@[old(
            projectiles,
        )@.len() as int].1 == (crate::weapon::ProjectileBundle {
            projectile: crate::weapon::Projectile {
                velocity_vector: q.1.weapon.aim_vector,
                player: true,
            },
            transform: q.1.transform,
        })),
        final(enemies)@.len() == old(enemies)@.len(),
        forall|i: int|
            0 <= i < final(enemies)@.len() ==> {
                let e = #[trigger] final(enemies)@[i];
                &&& e.1.wf()
                &&& e.0 == old(enemies)@[i].0
                &&& e.1.enemy == old(enemies)@[i].1.enemy
                &&& e.1.movement == old(enemies)@[i].1.movement
                &&& e.1.transform == old(enemies)@[i].1.transform
                &&& e.1.weapon_behavior == old(enemies)@[i].1.weapon_behavior
            },
        old(projectiles)@.is_prefix_of(final(projectiles)@),
        forall|i: int|
            0 <= i < final(projectiles)@.len() ==> (#[trigger] final(projectiles)@[i]).1.wf(),
        final(projectiles)@.len() == old(projectiles)@.len() + (if shots.0 {
            1int
        } else {
            0int
        }) + shots.1,
        shots.1 <= fired@.len(),
{
    let mut player_shot = false;
    if player_fire {
        if let Some(p) = player {
            if let Some(b) = p.1.weapon.try_fire(p.1.transform, true) {
                projectiles.push((*next_id, b));
                *next_id = if *next_id < u64::MAX {
                    *next_id + 1
                } else {
                    u64::MAX
                };
                player_shot = true;
            }
        }
    }
    let ghost projectiles_after_player = projectiles@;
    let mut enemy_shots: usize = 0;
    let mut k: usize = 0;
    while k < fired.len()
        invariant
            k <= fired@.len(),
            enemy_shots <= k,
            forall|j: int| 0 <= j < fired@.len() ==> 0 <= #[trigger] fired@[j] < enemies@.len(),
            enemies@.len() == old(enemies)@.len(),
            forall|i: int|
                0 <= i < enemies@.len() ==> {
                    let e = #[trigger] enemies@[i];
                    &&& e.1.wf()
                    &&& e.0 == old(enemies)@[i].0
                    &&& e.1.enemy == old(enemies)@[i].1.enemy
                    &&& e.1.movement == old(enemies)@[i].1.movement
                    &&& e.1.transform == old(enemies)@[i].1.transform
                    &&& e.1.weapon_behavior == old(enemies)@[i].1.weapon_behavior
                },
            projectiles_after_player.is_prefix_of(projectiles@),
            forall|i: int|
                0 <= i < projectiles@.len() ==> (#[trigger] projectiles@[i]).1.wf(),
            projectiles@.len() == projectiles_after_player.len() + enemy_shots,
        decreases fired@.len() - k,
    {
        let idx = fired[k];
        let mut e = enemies[idx];
        if let Some(mut w) = e.1.weapon {
            if let Some(b) = w.try_fire(e.1.transform, false) {
                projectiles.push((*next_id, b));
                *next_id = if *next_id < u64::MAX {
                    *next_id + 1
                } else {
                    u64::MAX
                };
                enemy_shots = enemy_shots + 1;
            }
            e.1.weapon = Some(w);
        }
        enemies[idx] = e;
        k = k + 1;
    }
    proof {
        assert(old(projectiles)@.is_prefix_of(projectiles@));
        if player_shot {
            let n = old(projectiles)@.len() as int;
            let m = projectiles_after_player.len() as int;
            assert(projectiles_after_player =~= projectiles@.subrange(0, m));
            assert(projectiles@[n] == projectiles@.subrange(0, m)[n]);
        }
    }
    (player_shot, enemy_shots)
}

/// Everything the game tracks: the driving state, the counters, the level
/// controller, the spawn scheduler, and the live entities, each under a
/// world-unique id.
#[derive(Clone, Debug)]
pub struct World {
    pub state: GameState,
    pub score: Score,
    pub lives: PlayerLives,
    pub current_level: CurrentLevel,
    pub spawner: EnemySpawner,
    /// The player ship: at most one exists at any time.
    pub player: Option<(u64, PlayerBundle)>,
    pub enemies: Vec<(u64, EnemyBundle)>,
    pub projectiles: Vec<(u64, ProjectileBundle)>,
    /// Ids handed out so far; fresh entities take the next one.
    pub next_id: u64,
}

impl World {
    /// Every part of the world is well formed: the controller and the
    /// scheduler usable, the player within the soft walls, every ship and
    /// projectile within the global position bound.
    pub open spec fn wf(self) -> bool {
        &&& self.current_level.wf()
        &&& self.spawner.wf()
        &&& self.player matches Some(p) ==> p.1.wf()
        &&& forall|i: int| 0 <= i < self.enemies@.len() ==> (#[trigger] self.enemies@[i]).1.wf()
        &&& forall|i: int|
            0 <= i < self.projectiles@.len() ==> (#[trigger] self.projectiles@[i]).1.wf()
    }

    /// A fresh world, idle, with nothing alive and both counters at zero.
    pub fn new() -> (w: World)
        ensures
            w.wf(),
            w.state is Idle,
            w.score == (Score(0)),
            w.lives == (PlayerLives(0)),
            w.player is None,
            w.enemies@.len() == 0,
            w.projectiles@.len() == 0,
    {
        World {
            state: GameState::Idle,
            score: Score(0),
            lives: PlayerLives(0),
            current_level: Default::default(),
            spawner: Default::default(),
            player: None,
            enemies: Vec::new(),
            projectiles: Vec::new(),
            next_id: 0,
        }
    }

    /// One simulation step of `dt` milliseconds under this tick's input.
    ///
    /// Idle: the fire key starts a game (lives and score reset, the first
    /// level loaded); nothing else runs. Paused: the pause key resumes;
    /// nothing else runs. Playing: the pause key pauses; otherwise the
    /// resolvers run in a fixed order — level start gate, spawn scheduler,
    /// player steering, enemy movement, enemy fire pacing, weapon recharge,
    /// fire requests, projectile flight, then collision detection and, in
    /// the same tick, death handling, level restart and level end.
    pub fn tick(&mut self, input: &PlayerInput, dt: u64) -> (r: TickReport)
        requires
            old(self).wf(),
            input.wf(),
            dt <= TICK_LIMIT_MS,
        ensures
            final(self).wf(),
            old(self).state is Idle && !input.fire ==> *final(self) == *old(self) && r
                == TickReport::spec_quiet(),
            old(self).state is Idle && input.fire ==> r == TickReport::spec_quiet()
                && final(self).state is Playing && final(self).lives == (PlayerLives(
                STARTING_LIVES,
            )) && final(self).score == (Score(0)),
            old(self).state is Paused ==> r == TickReport::spec_quiet() && *final(self) == (
            World {
                state: if input.pause {
                    GameState::Playing
                } else {
                    GameState::Paused
                },
                ..*old(self)
            }),
            old(self).state is Playing && input.pause ==> r == TickReport::spec_quiet()
                && *final(self) == (World { state: GameState::Paused, ..*old(self) }),
            old(self).state is Playing && !input.pause ==> {
                &&& final(self).score.0 == if old(self).score.0 + r.enemy_deaths * 100
                    <= u32::MAX {
                    old(self).score.0 + r.enemy_deaths * 100
                } else {
                    u32::MAX as int
                }
                &&& final(self).lives.0 == if r.player_died && old(self).lives.0 > 0 {
                    old(self).lives.0 - 1
                } else {
                    old(self).lives.0 as int
                }
                &&& final(self).lives.0 <= old(self).lives.0
                &&& r.game_over == (r.player_died && old(self).lives.0 == 1)
                &&& (r.game_over ==> final(self).state is Idle)
                &&& (!r.game_over ==> final(self).state is Playing)
                &&& (r.player_died ==> final(self).player is None && final(self).enemies@.len() == 0 && final(self).spawner.spawn_queue@.len() == 0)
                &&& r.spawned == (!spec_ticked(
                    old(self).current_level.level_start_timer,
                    dt,
                ).just_finished && old(self).spawner.next_spawn.just_finished && old(
                    self,
                ).spawner.spawn_queue@.len() > 0)
                &&& r.level_started == (if spec_ticked(
                    old(self).current_level.level_start_timer,
                    dt,
                ).just_finished {
                    Some(old(self).current_level.number)
                } else {
                    None::<usize>
                })
                &&& (!spec_ticked(old(self).current_level.level_start_timer, dt).just_finished
                    && !r.player_died ==> final(self).spawner.spawn_queue@.len() <= old(self).spawner.spawn_queue@.len())
            },
    {
        match self.state {
            GameState::Idle => {
                if input.fire {
                    self.state = GameState::Playing;
                    self.lives = PlayerLives(STARTING_LIVES);
                    self.score = Score(0);
                    self.current_level = Default::default();
                }
                return TickReport::quiet();
            },
            GameState::Paused => {
                if input.pause {
                    self.state = GameState::Playing;
                }
                return TickReport::quiet();
            },
            GameState::Playing => {},
        }
        if input.pause {
            self.state = GameState::Paused;
            return TickReport::quiet();
        }

        let mut report = TickReport::quiet();

        // Level start gate: when its delay elapses, announce the level,
        // spawn the player if absent and reset the spawn scheduler.
        let started = level_start(&mut self.current_level, dt);
        if started {
            report.level_started = Some(self.current_level.number);
            self.spawner = EnemySpawner::from_level(&self.current_level.level);
            if self.player.is_none() {
                self.player = Some((self.next_id, PlayerBundle::spawned()));
                self.next_id = if self.next_id < u64::MAX {
                    self.next_id + 1
                } else {
                    u64::MAX
                };
            }
        }

        // Spawn scheduler: release at most one queued enemy.
        let released = self.spawner.enemy_spawn(dt);
        if let Some(e) = released {
            let b = e.make_bundle();
            self.enemies.push((self.next_id, b));
            self.next_id = if self.next_id < u64::MAX {
                self.next_id + 1
            } else {
                u64::MAX
            };
            report.spawned = true;
        }

        // Movement resolvers.
        let mut player_fire = false;
        if let Some(p) = &mut self.player {
            let steering = p.1.player;
            player_fire = player_movement(&mut p.1.transform, &steering, input, dt);
        }
        move_all_enemies(&mut self.enemies, dt);

        // Weapon resolvers: enemy fire pacing, recharge, then the requests.
        let fired = enemy_weapons(&mut self.enemies, dt);
        charge_all_weapons(&mut self.player, &mut self.enemies, dt);
        let shots = fire_weapon(
            &mut self.player,
            &mut self.enemies,
            &mut self.projectiles,
            player_fire,
            &fired,
            &mut self.next_id,
        );
        report.player_fired = shots.0;
        report.enemy_shots = shots.1;
        move_all_projectiles(&mut self.projectiles, dt);

        // Collision resolver: detect, then handle within the same tick.
        proof {
            assert forall|i: int| 0 <= i < self.enemies@.len() implies (#[trigger] self
                .enemies@[i]).1.transform.bounded_pos() by {
                crate::enemy::lemma_pattern_wf_bounded(
                    self.enemies@[i].1.transform,
                    self.enemies@[i].1.movement,
                );
            }
        }
        let mut player_deaths: Vec<PlayerDeathEvent> = Vec::new();
        let mut enemy_deaths_a: Vec<EnemyDeathEvent> = Vec::new();
        let mut despawn_a: Vec<u64> = Vec::new();
        if let Some(p) = &self.player {
            let checked = check_player_collisions(
                p.0,
                p.1.transform,
                &self.projectiles,
                &self.enemies,
            );
            player_deaths = checked.0;
            enemy_deaths_a = checked.1;
            despawn_a = checked.2;
        }
        let checked = check_enemy_collisions(&self.projectiles, &self.enemies);
        let enemy_deaths_b = checked.0;
        let despawn_b = checked.1;

        // Player death: duplicates in one tick are equivalent.
        let any_player_death = player_deaths.len() > 0;
        let outcome = player_death(&mut self.lives, any_player_death);
        let restart = outcome.0;
        let game_over = outcome.1;
        if any_player_death {
            self.player = None;
        }
        report.player_died = any_player_death;
        report.game_over = game_over;

        // Enemy deaths: every notification is consumed.
        despawn_enemies(&mut self.enemies, &enemy_deaths_a, &enemy_deaths_b);
        let total_deaths: usize = if enemy_deaths_a.len() <= usize::MAX - enemy_deaths_b.len() {
            enemy_deaths_a.len() + enemy_deaths_b.len()
        } else {
            usize::MAX
        };
        report.enemy_deaths = total_deaths;
        let level_end = enemy_death(&mut self.spawner, &mut self.score, total_deaths);
        report.level_ended = level_end;
        despawn_projectiles(&mut self.projectiles, &despawn_a, &despawn_b);

        // A player death restarts the level: enemies gone, spawning halted
        // until the start gate resets the spawner.
        if restart {
            self.spawner.level_restart();
            self.enemies = Vec::new();
            detect_player_death(&mut self.current_level, true);
        }
        if level_end {
            bump_level(&mut self.current_level);
        }
        if game_over {
            self.state = GameState::Idle;
        }
        report
    }
}

} // verus!

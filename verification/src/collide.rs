//! Collision detection and death handling: axis-aligned bounding boxes are
//! tested each tick between enemy projectiles and the player, enemy ships
//! and the player, and player projectiles and enemy ships; overlaps raise
//! death notifications, and the handlers turn those into lives, restarts
//! and game over.

use vstd::prelude::*;

verus! {

use crate::enemy::EnemyBundle;
use crate::geom::{Vec2I, TICK_LIMIT_MS};
use crate::timer::{Timer, TimerMode, spec_ticked};
use crate::ui::PlayerLives;
use crate::weapon::ProjectileBundle;

/// Hitbox half-extents, in milliunits. The ships are triangular and these
/// are rectangles, so they are deliberately tight.
pub const PLAYER_HITBOX_X: i64 = 15_000;
pub const PLAYER_HITBOX_Y: i64 = 12_500;
pub const ENEMY_HITBOX_X: i64 = 15_000;
pub const ENEMY_HITBOX_Y: i64 = 12_500;
pub const PROJECTILE_HITBOX_X: i64 = 1_000;
pub const PROJECTILE_HITBOX_Y: i64 = 2_000;

/// The player ship was hit; carries its entity id.
#[derive(Clone, Copy, Debug, PartialEq, Eq, Structural)]
pub struct PlayerDeathEvent(pub u64);

/// An enemy ship was hit; carries its entity id.
#[derive(Clone, Copy, Debug, PartialEq, Eq, Structural)]
pub struct EnemyDeathEvent(pub u64);

/// Two axis-aligned boxes, given by center and half-extents, overlap:
/// their intervals intersect on both axes.
pub open spec fn spec_boxes_overlap(
    a: Vec2I,
    a_half_x: int,
    a_half_y: int,
    b: Vec2I,
    b_half_x: int,
    b_half_y: int,
) -> bool {
    &&& -(a_half_x + b_half_x) <= a.x - b.x <= a_half_x + b_half_x
    &&& -(a_half_y + b_half_y) <= a.y - b.y <= a_half_y + b_half_y
}

/// Interval-intersection test of two axis-aligned boxes given by center and
/// half-extents.
pub fn boxes_overlap(
    a: Vec2I,
    a_half_x: i64,
    a_half_y: i64,
    b: Vec2I,
    b_half_x: i64,
    b_half_y: i64,
) -> (r: bool)
    requires
        a.bounded_pos(),
        b.bounded_pos(),
        0 <= a_half_x <= 100_000,
        0 <= a_half_y <= 100_000,
        0 <= b_half_x <= 100_000,
        0 <= b_half_y <= 100_000,
    ensures
        r == spec_boxes_overlap(a, a_half_x as int, a_half_y as int, b, b_half_x as int,
            b_half_y as int),
{
    let hx = a_half_x + b_half_x;
    let hy = a_half_y + b_half_y;
    let dx = a.x - b.x;
    let dy = a.y - b.y;
    -hx <= dx && dx <= hx && -hy <= dy && dy <= hy
}

/// An enemy projectile overlapping the player's ship.
pub open spec fn spec_projectile_hits_player(pr: (u64, ProjectileBundle), player_pos: Vec2I)
    -> bool {
    !pr.1.projectile.player && spec_boxes_overlap(
        pr.1.transform,
        PROJECTILE_HITBOX_X as int,
        PROJECTILE_HITBOX_Y as int,
        player_pos,
        PLAYER_HITBOX_X as int,
        PLAYER_HITBOX_Y as int,
    )
}

/// An enemy ship overlapping the player's ship.
pub open spec fn spec_enemy_hits_player(en: (u64, EnemyBundle), player_pos: Vec2I) -> bool {
    spec_boxes_overlap(
        en.1.transform,
        ENEMY_HITBOX_X as int,
        ENEMY_HITBOX_Y as int,
        player_pos,
        PLAYER_HITBOX_X as int,
        PLAYER_HITBOX_Y as int,
    )
}

/// A player projectile overlapping an enemy ship.
pub open spec fn spec_projectile_hits_enemy(pr: (u64, ProjectileBundle), en: (u64, EnemyBundle))
    -> bool {
    pr.1.projectile.player && spec_boxes_overlap(
        pr.1.transform,
        PROJECTILE_HITBOX_X as int,
        PROJECTILE_HITBOX_Y as int,
        en.1.transform,
        ENEMY_HITBOX_X as int,
        ENEMY_HITBOX_Y as int,
    )
}

/// The enemy projectiles that hit the player this tick, in scan order.
pub open spec fn spec_player_proj_hits(
    projectiles: Seq<(u64, ProjectileBundle)>,
    player_pos: Vec2I,
) -> Seq<(u64, ProjectileBundle)> {
    projectiles.filter(|pr: (u64, ProjectileBundle)| spec_projectile_hits_player(pr, player_pos))
}

/// The enemy ships that ram the player this tick, in scan order.
pub open spec fn spec_player_ram_hits(enemies: Seq<(u64, EnemyBundle)>, player_pos: Vec2I)
    -> Seq<(u64, EnemyBundle)> {
    enemies.filter(|en: (u64, EnemyBundle)| spec_enemy_hits_player(en, player_pos))
}

/// The (enemy id, projectile id) pairs of one enemy against every player
/// projectile that overlaps it, in scan order.
pub open spec fn spec_pairs_for(en: (u64, EnemyBundle), projectiles: Seq<(u64, ProjectileBundle)>)
    -> Seq<(u64, u64)>
    decreases projectiles.len(),
{
    if projectiles.len() == 0 {
        Seq::empty()
    } else {
        let prefix = spec_pairs_for(en, projectiles.drop_last());
        if spec_projectile_hits_enemy(projectiles.last(), en) {
            prefix.push((en.0, projectiles.last().0))
        } else {
            prefix
        }
    }
}

/// Every (enemy id, projectile id) overlap of player projectiles against
/// enemy ships, enemies outermost, in scan order.
pub open spec fn spec_enemy_hits(
    enemies: Seq<(u64, EnemyBundle)>,
    projectiles: Seq<(u64, ProjectileBundle)>,
) -> Seq<(u64, u64)>
    decreases enemies.len(),
{
    if enemies.len() == 0 {
        Seq::empty()
    } else {
        spec_enemy_hits(enemies.drop_last(), projectiles) + spec_pairs_for(
            enemies.last(),
            projectiles,
        )
    }
}

/// All live positions are within the global bound, so overlap tests cannot
/// overflow.
pub open spec fn entities_bounded(
    projectiles: Seq<(u64, ProjectileBundle)>,
    enemies: Seq<(u64, EnemyBundle)>,
) -> bool {
    &&& forall|i: int|
        0 <= i < projectiles.len() ==> (#[trigger] projectiles[i]).1.transform.bounded_pos()
    &&& forall|i: int|
        0 <= i < enemies.len() ==> (#[trigger] enemies[i]).1.transform.bounded_pos()
}

/// Check what hit the player this tick. Raises one player death per enemy
/// projectile overlapping the player and per enemy ship ramming the player
/// (ramming destroys the enemy too), and despawns the projectiles that hit.
/// Player projectiles cannot hit the player.
pub fn check_player_collisions(
    player_id: u64,
    player_pos: Vec2I,
    projectiles: &Vec<(u64, ProjectileBundle)>,
    enemies: &Vec<(u64, EnemyBundle)>,
) -> (r: (Vec<PlayerDeathEvent>, Vec<EnemyDeathEvent>, Vec<u64>))
    requires
        player_pos.bounded_pos(),
        entities_bounded(projectiles@, enemies@),
    ensures
        r.0@.len() == spec_player_proj_hits(projectiles@, player_pos).len()
            + spec_player_ram_hits(enemies@, player_pos).len(),
        forall|i: int| 0 <= i < r.0@.len() ==> r.0@[i] == PlayerDeathEvent(player_id),
        r.1@ == spec_player_ram_hits(enemies@, player_pos).map_values(
            |en: (u64, EnemyBundle)| EnemyDeathEvent(en.0),
        ),
        r.2@ == spec_player_proj_hits(projectiles@, player_pos).map_values(
            |pr: (u64, ProjectileBundle)| pr.0,
        ),
{
    let mut player_deaths: Vec<PlayerDeathEvent> = Vec::new();
    let mut enemy_deaths: Vec<EnemyDeathEvent> = Vec::new();
    let mut despawns: Vec<u64> = Vec::new();

    let mut i: usize = 0;
    while i < projectiles.len()
        invariant
            i <= projectiles@.len(),
            player_pos.bounded_pos(),
            entities_bounded(projectiles@, enemies@),
            player_deaths@.len() == spec_player_proj_hits(
                projectiles@.take(i as int),
                player_pos,
            ).len(),
            forall|k: int|
                0 <= k < player_deaths@.len() ==> player_deaths@[k] == PlayerDeathEvent(
                    player_id,
                ),
            despawns@ == spec_player_proj_hits(projectiles@.take(i as int), player_pos)
                .map_values(|pr: (u64, ProjectileBundle)| pr.0),
        decreases projectiles@.len() - i,
    {
        let pr = projectiles[i];
        let hit = !pr.1.projectile.player && boxes_overlap(
            pr.1.transform,
            PROJECTILE_HITBOX_X,
            PROJECTILE_HITBOX_Y,
            player_pos,
            PLAYER_HITBOX_X,
            PLAYER_HITBOX_Y,
        );
        proof {
            assert(projectiles@.take(i + 1).drop_last() =~= projectiles@.take(i as int));
            assert(projectiles@.take(i + 1).last() == projectiles@[i as int]);
            reveal_with_fuel(Seq::<(u64, ProjectileBundle)>::filter, 2);
        }
        if hit {
            player_deaths.push(PlayerDeathEvent(player_id));
            despawns.push(pr.0);
        }
        proof {
            assert(despawns@ =~= spec_player_proj_hits(projectiles@.take(i + 1), player_pos)
                .map_values(|pr: (u64, ProjectileBundle)| pr.0));
        }
        i = i + 1;
    }
    proof {
        assert(projectiles@.take(projectiles@.len() as int) =~= projectiles@);
    }

    let ghost deaths_from_projectiles = player_deaths@.len() as int;
    let mut j: usize = 0;
    while j < enemies.len()
        invariant
            j <= enemies@.len(),
            player_pos.bounded_pos(),
            entities_bounded(projectiles@, enemies@),
            player_deaths@.len() == deaths_from_projectiles + spec_player_ram_hits(
                enemies@.take(j as int),
                player_pos,
            ).len(),
            forall|k: int|
                0 <= k < player_deaths@.len() ==> player_deaths@[k] == PlayerDeathEvent(
                    player_id,
                ),
            enemy_deaths@ == spec_player_ram_hits(enemies@.take(j as int), player_pos)
                .map_values(|en: (u64, EnemyBundle)| EnemyDeathEvent(en.0)),
        decreases enemies@.len() - j,
    {
        let en = enemies[j];
        let hit = boxes_overlap(
            en.1.transform,
            ENEMY_HITBOX_X,
            ENEMY_HITBOX_Y,
            player_pos,
            PLAYER_HITBOX_X,
            PLAYER_HITBOX_Y,
        );
        proof {
            assert(enemies@.take(j + 1).drop_last() =~= enemies@.take(j as int));
            assert(enemies@.take(j + 1).last() == enemies@[j as int]);
            reveal_with_fuel(Seq::<(u64, EnemyBundle)>::filter, 2);
        }
        if hit {
            player_deaths.push(PlayerDeathEvent(player_id));
            enemy_deaths.push(EnemyDeathEvent(en.0));
        }
        proof {
            assert(enemy_deaths@ =~= spec_player_ram_hits(enemies@.take(j + 1), player_pos)
                .map_values(|en: (u64, EnemyBundle)| EnemyDeathEvent(en.0)));
        }
        j = j + 1;
    }
    proof {
        assert(enemies@.take(enemies@.len() as int) =~= enemies@);
    }
    (player_deaths, enemy_deaths, despawns)
}

/// Check what the player's projectiles hit this tick: one enemy death and
/// one projectile despawn per overlapping (enemy ship, player projectile)
/// pair, enemies scanned outermost. Enemy projectiles cannot hit enemies;
/// ships and projectiles of the same side ignore each other.
pub fn check_enemy_collisions(
    projectiles: &Vec<(u64, ProjectileBundle)>,
    enemies: &Vec<(u64, EnemyBundle)>,
) -> (r: (Vec<EnemyDeathEvent>, Vec<u64>))
    requires
        entities_bounded(projectiles@, enemies@),
    ensures
        r.0@ == spec_enemy_hits(enemies@, projectiles@).map_values(
            |p: (u64, u64)| EnemyDeathEvent(p.0),
        ),
        r.1@ == spec_enemy_hits(enemies@, projectiles@).map_values(|p: (u64, u64)| p.1),
{
    let mut enemy_deaths: Vec<EnemyDeathEvent> = Vec::new();
    let mut despawns: Vec<u64> = Vec::new();

    let mut i: usize = 0;
    while i < enemies.len()
        invariant
            i <= enemies@.len(),
            entities_bounded(projectiles@, enemies@),
            enemy_deaths@ == spec_enemy_hits(enemies@.take(i as int), projectiles@).map_values(
                |p: (u64, u64)| EnemyDeathEvent(p.0),
            ),
            despawns@ == spec_enemy_hits(enemies@.take(i as int), projectiles@).map_values(
                |p: (u64, u64)| p.1,
            ),
        decreases enemies@.len() - i,
    {
        let en = enemies[i];
        let mut j: usize = 0;
        while j < projectiles.len()
            invariant
                j <= projectiles@.len(),
                i < enemies@.len(),
                en == enemies@[i as int],
                entities_bounded(projectiles@, enemies@),
                enemy_deaths@ == (spec_enemy_hits(enemies@.take(i as int), projectiles@)
                    + spec_pairs_for(en, projectiles@.take(j as int))).map_values(
                    |p: (u64, u64)| EnemyDeathEvent(p.0),
                ),
                despawns@ == (spec_enemy_hits(enemies@.take(i as int), projectiles@)
                    + spec_pairs_for(en, projectiles@.take(j as int))).map_values(
                    |p: (u64, u64)| p.1,
                ),
            decreases projectiles@.len() - j,
        {
            let pr = projectiles[j];
            let hit = pr.1.projectile.player && boxes_overlap(
                pr.1.transform,
                PROJECTILE_HITBOX_X,
                PROJECTILE_HITBOX_Y,
                en.1.transform,
                ENEMY_HITBOX_X,
                ENEMY_HITBOX_Y,
            );
            proof {
                assert(projectiles@.take(j + 1).drop_last() =~= projectiles@.take(j as int));
                assert(projectiles@.take(j + 1).last() == projectiles@[j as int]);
            }
            if hit {
                enemy_deaths.push(EnemyDeathEvent(en.0));
                despawns.push(pr.0);
            }
            proof {
                assert(enemy_deaths@ =~= (spec_enemy_hits(enemies@.take(i as int), projectiles@)
                    + spec_pairs_for(en, projectiles@.take(j + 1))).map_values(
                    |p: (u64, u64)| EnemyDeathEvent(p.0),
                ));
                assert(despawns@ =~= (spec_enemy_hits(enemies@.take(i as int), projectiles@)
                    + spec_pairs_for(en, projectiles@.take(j + 1))).map_values(
                    |p: (u64, u64)| p.1,
                ));
            }
            j = j + 1;
        }
        proof {
            assert(projectiles@.take(projectiles@.len() as int) =~= projectiles@);
            assert(enemies@.take(i + 1).drop_last() =~= enemies@.take(i as int));
            assert(enemies@.take(i + 1).last() == enemies@[i as int]);
            assert(enemy_deaths@ =~= spec_enemy_hits(enemies@.take(i + 1), projectiles@)
                .map_values(|p: (u64, u64)| EnemyDeathEvent(p.0)));
            assert(despawns@ =~= spec_enemy_hits(enemies@.take(i + 1), projectiles@).map_values(
                |p: (u64, u64)| p.1,
            ));
        }
        i = i + 1;
    }
    proof {
        assert(enemies@.take(enemies@.len() as int) =~= enemies@);
    }
    (enemy_deaths, despawns)
}

/// Handle the player deaths of one tick; simultaneous duplicates are
/// equivalent, so only whether any arrived matters. A death takes one life
/// (lives never go below zero), always restarts the level, and raises game
/// over exactly when the last life was just lost.
pub fn player_death(lives: &mut PlayerLives, any_death: bool) -> (r: (bool, bool))
    ensures
        !any_death ==> *final(lives) == *old(lives) && r == (false, false),
        any_death ==> final(lives).0 == if old(lives).0 > 0 {
            old(lives).0 - 1
        } else {
            0
        },
        r.0 == any_death,
        r.1 == (any_death && old(lives).0 == 1),
{
    if !any_death {
        return (false, false);
    }
    let game_over = lives.0 == 1;
    if lives.0 > 0 {
        lives.0 = lives.0 - 1;
    }
    (true, game_over)
}

/// Number of frames in the explosion animation.
pub const DEATH_FRAME_COUNT: usize = 6;

/// Milliseconds each explosion frame stays.
pub const DEATH_FRAME_MS: u64 = 50;

/// A running explosion: the frame on show and the timer pacing the frames.
#[derive(Clone, Copy, Debug, PartialEq, Eq, Structural)]
pub struct DeathAnimation {
    pub index: usize,
    pub timer: Timer,
}

impl Default for DeathAnimation {
    /// An explosion just started: first frame, frame timer running.
    fn default() -> (d: DeathAnimation)
        ensures
            d == (DeathAnimation {
                index: 0,
                timer: Timer {
                    duration_ms: DEATH_FRAME_MS,
                    elapsed_ms: 0,
                    mode: TimerMode::Repeating,
                    paused: false,
                    just_finished: false,
                },
            }),
            d.wf(),
    {
        DeathAnimation { index: 0, timer: Timer::new(DEATH_FRAME_MS, TimerMode::Repeating) }
    }
}

impl DeathAnimation {
    pub open spec fn wf(self) -> bool {
        &&& self.timer.wf()
        &&& self.index <= DEATH_FRAME_COUNT
    }

    /// Advance the explosion by `dt` milliseconds. When the frame timer
    /// wraps, move to the next frame: returns it while frames are left, and
    /// reports the animation spent once they run out, at which point the
    /// caller removes it.
    pub fn death_animations(&mut self, dt: u64) -> (r: (Option<usize>, bool))
        requires
            old(self).wf(),
            dt <= TICK_LIMIT_MS,
        ensures
            final(self).wf(),
            final(self).timer == spec_ticked(old(self).timer, dt),
            spec_ticked(old(self).timer, dt).just_finished ==> final(self).index == if old(self).index < DEATH_FRAME_COUNT {
                old(self).index + 1
            } else {
                old(self).index as int
            },
            !spec_ticked(old(self).timer, dt).just_finished ==> final(self).index == old(self).index,
            r.0 == (if spec_ticked(old(self).timer, dt).just_finished && old(self).index + 1
                < DEATH_FRAME_COUNT {
                Some((old(self).index + 1) as usize)
            } else {
                None::<usize>
            }),
            r.1 == (spec_ticked(old(self).timer, dt).just_finished && old(self).index + 1
                >= DEATH_FRAME_COUNT),
            dt == 0 ==> final(self).timer.elapsed_ms == old(self).timer.elapsed_ms && final(self).index == old(self).index,
    {
        self.timer.tick(dt);
        if self.timer.just_finished() {
            if self.index < DEATH_FRAME_COUNT {
                self.index = self.index + 1;
            }
            if self.index < DEATH_FRAME_COUNT {
                (Some(self.index), false)
            } else {
                (None, true)
            }
        } else {
            (None, false)
        }
    }
}

} // verus!

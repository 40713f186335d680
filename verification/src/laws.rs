//! The library's cross-function guarantees, stated and proved once: the
//! weapon recharge gate, that neither side's projectiles can hit their own
//! side, and that a play-through raises game over exactly once.

use vstd::prelude::*;

verus! {

use crate::collide::{
    spec_enemy_hits,
    spec_pairs_for,
    spec_player_proj_hits,
    spec_projectile_hits_player,
};
use crate::enemy::EnemyBundle;
use crate::timer::spec_ticked;
use crate::weapon::{ProjectileBundle, Weapon};

/// The weapon `w` after recharging through the ticks of `dts`, in order.
pub open spec fn spec_charged(w: Weapon, dts: Seq<u64>) -> Weapon
    decreases dts.len(),
{
    if dts.len() == 0 {
        w
    } else {
        let prev = spec_charged(w, dts.drop_last());
        Weapon { ready_timer: spec_ticked(prev.ready_timer, dts.last()), ..prev }
    }
}

/// The total elapsed time of the ticks of `dts`.
pub open spec fn spec_sum(dts: Seq<u64>) -> int
    decreases dts.len(),
{
    if dts.len() == 0 {
        0
    } else {
        spec_sum(dts.drop_last()) + dts.last()
    }
}

/// A weapon that has just fired cannot fire again within less than its
/// recharge duration: starting from a reset recharge timer, after any
/// sequence of ticks totalling less than the duration the weapon is still
/// not ready, so every fire request in that span is dropped.
pub proof fn lemma_weapon_recharge_gate(w: Weapon, dts: Seq<u64>)
    requires
        w.wf(),
        w.ready_timer.elapsed_ms == 0,
        !w.ready_timer.paused,
    ensures
        spec_charged(w, dts).wf(),
        !spec_charged(w, dts).ready_timer.paused,
        spec_charged(w, dts).aim_vector == w.aim_vector,
        spec_charged(w, dts).ready_timer.duration_ms == w.ready_timer.duration_ms,
        spec_charged(w, dts).ready_timer.elapsed_ms == if spec_sum(dts)
            <= w.ready_timer.duration_ms {
            spec_sum(dts)
        } else {
            w.ready_timer.duration_ms as int
        },
        spec_sum(dts) < w.ready_timer.duration_ms ==> !spec_charged(w, dts).spec_ready(),
    decreases dts.len(),
{
    if dts.len() == 0 {
    } else {
        lemma_weapon_recharge_gate(w, dts.drop_last());
    }
}

/// A projectile tagged player-fired never triggers a player death: every
/// projectile in the player-hit list of a tick is enemy-fired.
pub proof fn lemma_player_projectiles_spare_player(
    projectiles: Seq<(u64, ProjectileBundle)>,
    player_pos: crate::geom::Vec2I,
)
    ensures
        forall|i: int|
            0 <= i < spec_player_proj_hits(projectiles, player_pos).len()
                ==> !(#[trigger] spec_player_proj_hits(projectiles, player_pos)[i])
                .1.projectile.player,
{
    let pred = |pr: (u64, ProjectileBundle)| spec_projectile_hits_player(pr, player_pos);
    assert forall|i: int|
        0 <= i < spec_player_proj_hits(projectiles, player_pos).len() implies !(
    #[trigger] spec_player_proj_hits(projectiles, player_pos)[i]).1.projectile.player by {
        projectiles.lemma_filter_pred(pred, i);
    }
}

/// A projectile not tagged player-fired never triggers an enemy death:
/// every (enemy, projectile) hit pair of a tick names a player-fired
/// projectile.
pub proof fn lemma_enemy_projectiles_spare_enemies(
    enemies: Seq<(u64, EnemyBundle)>,
    projectiles: Seq<(u64, ProjectileBundle)>,
)
    requires
        forall|j: int| 0 <= j < projectiles.len() ==> !(#[trigger] projectiles[j])
            .1.projectile.player,
    ensures
        spec_enemy_hits(enemies, projectiles).len() == 0,
    decreases enemies.len(),
{
    if enemies.len() == 0 {
    } else {
        lemma_enemy_projectiles_spare_enemies(enemies.drop_last(), projectiles);
        lemma_pairs_need_player_tag(enemies.last(), projectiles);
    }
}

/// Some player-fired projectile in the list bears this id.
pub open spec fn spec_names_player_projectile(
    projectiles: Seq<(u64, ProjectileBundle)>,
    id: u64,
) -> bool {
    exists|j: int|
        0 <= j < projectiles.len() && (#[trigger] projectiles[j]).0 == id && projectiles[j]
            .1.projectile.player
}

/// Every (enemy, projectile) hit pair of a tick names a player-fired
/// projectile: an enemy death is only ever triggered by the player's own
/// shots.
pub proof fn lemma_enemy_hits_name_player_projectiles(
    enemies: Seq<(u64, EnemyBundle)>,
    projectiles: Seq<(u64, ProjectileBundle)>,
)
    ensures
        forall|k: int|
            0 <= k < spec_enemy_hits(enemies, projectiles).len()
                ==> spec_names_player_projectile(
                projectiles,
                (#[trigger] spec_enemy_hits(enemies, projectiles)[k]).1,
            ),
    decreases enemies.len(),
{
    if enemies.len() > 0 {
        lemma_enemy_hits_name_player_projectiles(enemies.drop_last(), projectiles);
        lemma_pairs_name_player_projectiles(enemies.last(), projectiles);
        let prefix = spec_enemy_hits(enemies.drop_last(), projectiles);
        let pairs = spec_pairs_for(enemies.last(), projectiles);
        assert(spec_enemy_hits(enemies, projectiles) == prefix + pairs);
        assert forall|k: int|
            0 <= k < spec_enemy_hits(enemies, projectiles).len()
                implies spec_names_player_projectile(
            projectiles,
            (#[trigger] spec_enemy_hits(enemies, projectiles)[k]).1,
        ) by {
            if k < prefix.len() {
                assert(spec_enemy_hits(enemies, projectiles)[k] == prefix[k]);
            } else {
                assert(spec_enemy_hits(enemies, projectiles)[k] == pairs[k - prefix.len()]);
            }
        }
    }
}

/// Every hit pair of one enemy names a player-fired projectile.
proof fn lemma_pairs_name_player_projectiles(
    en: (u64, EnemyBundle),
    projectiles: Seq<(u64, ProjectileBundle)>,
)
    ensures
        forall|k: int|
            0 <= k < spec_pairs_for(en, projectiles).len() ==> spec_names_player_projectile(
                projectiles,
                (#[trigger] spec_pairs_for(en, projectiles)[k]).1,
            ),
    decreases projectiles.len(),
{
    if projectiles.len() > 0 {
        lemma_pairs_name_player_projectiles(en, projectiles.drop_last());
        let prefix = spec_pairs_for(en, projectiles.drop_last());
        assert forall|k: int|
            0 <= k < spec_pairs_for(en, projectiles).len()
                implies spec_names_player_projectile(
            projectiles,
            (#[trigger] spec_pairs_for(en, projectiles)[k]).1,
        ) by {
            if k < prefix.len() {
                assert(spec_pairs_for(en, projectiles)[k] == prefix[k]);
                assert(spec_names_player_projectile(projectiles.drop_last(), prefix[k].1));
                let j = choose|j: int|
                    0 <= j < projectiles.drop_last().len() && (#[trigger] projectiles
                        .drop_last()[j]).0 == prefix[k].1 && projectiles.drop_last()[j]
                        .1.projectile.player;
                assert(projectiles[j] == projectiles.drop_last()[j]);
            } else {
                let j = projectiles.len() - 1;
                assert(projectiles[j] == projectiles.last());
            }
        }
    }
}

/// One enemy's hit pairs are empty when no projectile is player-fired.
proof fn lemma_pairs_need_player_tag(
    en: (u64, EnemyBundle),
    projectiles: Seq<(u64, ProjectileBundle)>,
)
    requires
        forall|j: int| 0 <= j < projectiles.len() ==> !(#[trigger] projectiles[j])
            .1.projectile.player,
    ensures
        spec_pairs_for(en, projectiles).len() == 0,
    decreases projectiles.len(),
{
    if projectiles.len() == 0 {
    } else {
        lemma_pairs_need_player_tag(en, projectiles.drop_last());
    }
}

/// How many of the ticks saw a player death.
pub open spec fn spec_count_deaths(deaths: Seq<bool>) -> nat
    decreases deaths.len(),
{
    if deaths.len() == 0 {
        0
    } else {
        spec_count_deaths(deaths.drop_last()) + if deaths.last() {
            1nat
        } else {
            0nat
        }
    }
}

/// Lives left after some deaths: they only decrease and saturate at zero.
pub open spec fn spec_lives_after(lives: nat, deaths: nat) -> nat {
    if deaths <= lives {
        (lives - deaths) as nat
    } else {
        0
    }
}

/// How many game-over notifications a play-through raises while its ticks'
/// deaths are handled in order: one is raised on a tick with a death whose
/// handling takes the last life.
pub open spec fn spec_game_overs(lives: nat, deaths: Seq<bool>) -> nat
    decreases deaths.len(),
{
    if deaths.len() == 0 {
        0
    } else {
        spec_game_overs(lives, deaths.drop_last()) + if deaths.last() && spec_lives_after(
            lives,
            spec_count_deaths(deaths.drop_last()),
        ) == 1 {
            1nat
        } else {
            0nat
        }
    }
}

/// A play-through starting with at least one life raises game over at most
/// once, and exactly once just when its deaths use the lives up.
pub proof fn lemma_one_game_over_per_playthrough(lives: nat, deaths: Seq<bool>)
    requires
        lives > 0,
    ensures
        spec_game_overs(lives, deaths) <= 1,
        spec_game_overs(lives, deaths) == 1 <==> spec_count_deaths(deaths) >= lives,
    decreases deaths.len(),
{
    if deaths.len() == 0 {
    } else {
        lemma_one_game_over_per_playthrough(lives, deaths.drop_last());
    }
}

} // verus!

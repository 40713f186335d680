//! Weapons and projectiles: a weapon fires a projectile along its aim vector
//! when its recharge timer has elapsed, and resets the timer; projectiles fly
//! in a straight line and are discarded once they leave the visible area.

use vstd::prelude::*;

verus! {

use crate::geom::{Vec2I, spec_step, step, TICK_LIMIT_MS};
use crate::timer::{Timer, TimerMode, DURATION_LIMIT_MS, spec_ticked};

/// Projectiles past this band around the screen are despawned (milliunits).
pub const OFFSCREEN_X: i64 = 205_000;
pub const OFFSCREEN_Y: i64 = 405_000;

/// A projectile in flight.
#[derive(Clone, Copy, Debug, PartialEq, Eq, Structural)]
pub struct Projectile {
    /// Direction and speed, in milliunits per millisecond.
    pub velocity_vector: Vec2I,
    /// Player projectiles cannot hurt players; enemy projectiles cannot hurt
    /// enemies.
    pub player: bool,
}

/// A projectile together with its position.
#[derive(Clone, Copy, Debug, PartialEq, Eq, Structural)]
pub struct ProjectileBundle {
    pub projectile: Projectile,
    pub transform: Vec2I,
}

impl ProjectileBundle {
    pub open spec fn wf(self) -> bool {
        &&& self.projectile.velocity_vector.bounded_vel()
        &&& self.transform.bounded_pos()
    }
}

/// A fire request naming the entity that wants to shoot.
#[derive(Clone, Copy, Debug, PartialEq, Eq, Structural)]
pub struct WeaponFireEvent(pub u64);

/// An aim vector and a one-shot recharge timer.
#[derive(Clone, Copy, Debug, PartialEq, Eq, Structural)]
pub struct Weapon {
    pub aim_vector: Vec2I,
    pub ready_timer: Timer,
}

/// The projectile position is within the band where projectiles live.
pub open spec fn spec_onscreen(p: Vec2I) -> bool {
    -OFFSCREEN_X <= p.x < OFFSCREEN_X && -OFFSCREEN_Y <= p.y < OFFSCREEN_Y
}

impl Weapon {
    pub open spec fn wf(self) -> bool {
        &&& self.aim_vector.bounded_vel()
        &&& self.ready_timer.wf()
        &&& self.ready_timer.mode is Once
    }

    /// A weapon that must recharge for `recharge_ms` before its first shot.
    pub fn new(aim_vector: Vec2I, recharge_ms: u64) -> (w: Weapon)
        requires
            aim_vector.bounded_vel(),
            1 <= recharge_ms <= DURATION_LIMIT_MS,
        ensures
            w == (Weapon {
                aim_vector,
                ready_timer: Timer {
                    duration_ms: recharge_ms,
                    elapsed_ms: 0,
                    mode: TimerMode::Once,
                    paused: false,
                    just_finished: false,
                },
            }),
            w.wf(),
    {
        Weapon { aim_vector, ready_timer: Timer::new(recharge_ms, TimerMode::Once) }
    }

    /// Whether the recharge time has elapsed, so the next fire request will
    /// be honored.
    pub open spec fn spec_ready(self) -> bool {
        self.ready_timer.spec_finished()
    }

    /// Handle one fire request: if recharged, emit a projectile at `at` with
    /// the weapon's aim vector and start recharging; otherwise drop the
    /// request and change nothing.
    pub fn try_fire(&mut self, at: Vec2I, player: bool) -> (r: Option<ProjectileBundle>)
        requires
            old(self).wf(),
        ensures
            final(self).wf(),
            old(self).spec_ready() ==> {
                &&& r == Some(ProjectileBundle {
                    projectile: Projectile {
                        velocity_vector: old(self).aim_vector,
                        player,
                    },
                    transform: at,
                })
                &&& *final(self) == (Weapon {
                    ready_timer: Timer {
                        elapsed_ms: 0,
                        just_finished: false,
                        ..old(self).ready_timer
                    },
                    ..*old(self)
                })
                &&& !final(self).spec_ready()
            },
            !old(self).spec_ready() ==> r is None && *final(self) == *old(self),
    {
        if self.ready_timer.finished() {
            self.ready_timer.reset();
            Some(ProjectileBundle {
                projectile: Projectile { velocity_vector: self.aim_vector, player },
                transform: at,
            })
        } else {
            None
        }
    }

    /// Advance the recharge timer by `dt` milliseconds.
    pub fn charge(&mut self, dt: u64)
        requires
            old(self).wf(),
            dt <= TICK_LIMIT_MS,
        ensures
            final(self).aim_vector == old(self).aim_vector,
            final(self).ready_timer == spec_ticked(old(self).ready_timer, dt),
            final(self).wf(),
            dt == 0 ==> final(self).ready_timer.elapsed_ms == old(self).ready_timer.elapsed_ms,
    {
        self.ready_timer.tick(dt);
    }
}

/// Where a projectile stands after `dt` milliseconds of flight.
pub open spec fn spec_moved_projectile(b: ProjectileBundle, dt: u64) -> ProjectileBundle {
    ProjectileBundle {
        transform: Vec2I {
            x: (b.transform.x + spec_step(b.projectile.velocity_vector.x, dt)) as i64,
            y: (b.transform.y + spec_step(b.projectile.velocity_vector.y, dt)) as i64,
        },
        ..b
    }
}

/// Advance a projectile by `dt` milliseconds and report whether it is still
/// within the visible band; the caller despawns it when it is not.
pub fn move_projectile(b: &mut ProjectileBundle, dt: u64) -> (onscreen: bool)
    requires
        old(b).wf(),
        dt <= TICK_LIMIT_MS,
    ensures
        *final(b) == spec_moved_projectile(*old(b), dt),
        onscreen == spec_onscreen(final(b).transform),
        onscreen ==> final(b).wf(),
        dt == 0 ==> final(b).transform == old(b).transform,
{
    let dx = step(b.projectile.velocity_vector.x, dt);
    let dy = step(b.projectile.velocity_vector.y, dt);
    b.transform.x = b.transform.x + dx;
    b.transform.y = b.transform.y + dy;
    let onscreen_x = -OFFSCREEN_X <= b.transform.x && b.transform.x < OFFSCREEN_X;
    let onscreen_y = -OFFSCREEN_Y <= b.transform.y && b.transform.y < OFFSCREEN_Y;
    onscreen_x && onscreen_y
}

} // verus!

//! Enemies: their movement patterns with bounded bounce kinematics, their
//! instantiation with randomized spawn column and heading, and the spawn
//! scheduler that releases one queued enemy at a time at the level's rate.

use vstd::prelude::*;

verus! {

use crate::geom::{
    Vec2I,
    spec_step,
    step,
    POS_LIMIT,
    STEP_LIMIT,
    TICK_LIMIT_MS,
    VEL_LIMIT,
};
use crate::level::Level;
use crate::rng::{random_bool, random_in_range};
use crate::timer::{Timer, TimerMode, DURATION_LIMIT_MS, spec_ticked};
use crate::weapon::Weapon;

/// Enemies bounce off vertical walls at this coordinate (milliunits).
pub const X_BOUND: i64 = 200_000;

/// Zigzag enemies bounce off horizontal walls at this coordinate.
pub const Y_BOUND: i64 = 400_000;

/// Spawn rows, just above the screen (milliunits).
pub const SCOUT_SPAWN_Y: i64 = 410_000;
pub const FIGHTER_SPAWN_Y: i64 = 370_000;

/// Speed a fighter's projectile is fired at, in screen units per second.
pub const ENEMY_PROJECTILE_VELOCITY: i64 = 400;

/// Milliseconds a fighter's weapon needs to recharge.
pub const ENEMY_RECHARGE_MS: u64 = 250;

/// Milliseconds between a fighter's fire requests.
pub const ENEMY_FIRE_PERIOD_MS: u64 = 2_000;

/// Milliseconds between entering a level and the first spawn.
pub const FIRST_SPAWN_DELAY_MS: u64 = 3_000;

/// An enemy descriptor, waiting in the queue or attached to a live ship.
/// Speeds are in screen units per second.
#[derive(Clone, Copy, Debug, PartialEq, Eq, Structural)]
pub enum Enemy {
    Scout { speed: u32 },
    Fighter { speed: u32 },
}

/// How a ship moves: `Zigzag` bounces off all four walls, `LeftRight` only
/// off the vertical ones. Velocities in milliunits per millisecond.
#[derive(Clone, Copy, Debug, PartialEq, Eq, Structural)]
pub enum MovementPattern {
    Zigzag(Vec2I),
    LeftRight(i64),
}

/// One axis of bounce kinematics is well formed: the velocity is bounded,
/// a ship moving toward a wall is no farther past it than its spawn row
/// `hi`, and a ship moving away from a wall has bounced at it, so the
/// position stays within one tick's travel of the walls forever.
pub open spec fn axis_wf(pos: int, v: int, bound: int, hi: int) -> bool {
    &&& -VEL_LIMIT <= v <= VEL_LIMIT
    &&& v > 0 ==> pos <= hi
    &&& v < 0 ==> pos >= -bound
    &&& -(bound + STEP_LIMIT) <= pos <= hi + STEP_LIMIT
}

/// The velocity after the bounce check: moving past the wall in the
/// direction of travel reflects the velocity; the bounce acts on the tick
/// after the crossing, not pre-emptively.
pub open spec fn spec_bounced(v: int, pos: int, bound: int) -> int {
    if v > 0 {
        if pos > bound {
            -v
        } else {
            v
        }
    } else {
        if pos < -bound {
            -v
        } else {
            v
        }
    }
}

/// Advance one axis by `dt` milliseconds and reflect the velocity if the new
/// position lies past the wall in the direction of travel.
fn move_axis(pos: &mut i64, v: &mut i64, bound: i64, hi: i64, dt: u64)
    requires
        axis_wf(*old(pos) as int, *old(v) as int, bound as int, hi as int),
        0 < bound <= hi,
        hi <= SCOUT_SPAWN_Y,
        dt <= TICK_LIMIT_MS,
    ensures
        *final(pos) == *old(pos) + spec_step(*old(v), dt),
        *final(v) == spec_bounced(*old(v) as int, *final(pos) as int, bound as int),
        axis_wf(*final(pos) as int, *final(v) as int, bound as int, hi as int),
        dt == 0 ==> *final(pos) == *old(pos),
{
    let d = step(*v, dt);
    *pos = *pos + d;
    if *v > 0 {
        if *pos > bound {
            *v = -*v;
        }
    } else if *pos < -bound {
        *v = -*v;
    }
}

/// The position of a ship after `dt` milliseconds under its pattern.
pub open spec fn spec_pattern_moved_pos(pos: Vec2I, pat: MovementPattern, dt: u64) -> Vec2I {
    match pat {
        MovementPattern::LeftRight(vx) => Vec2I {
            x: (pos.x + spec_step(vx, dt)) as i64,
            y: pos.y,
        },
        MovementPattern::Zigzag(v) => Vec2I {
            x: (pos.x + spec_step(v.x, dt)) as i64,
            y: (pos.y + spec_step(v.y, dt)) as i64,
        },
    }
}

/// The pattern of a ship after `dt` milliseconds: the same velocities, each
/// reflected where the new position lies past its wall.
pub open spec fn spec_pattern_moved_pat(pos: Vec2I, pat: MovementPattern, dt: u64)
    -> MovementPattern {
    let moved = spec_pattern_moved_pos(pos, pat, dt);
    match pat {
        MovementPattern::LeftRight(vx) => MovementPattern::LeftRight(
            spec_bounced(vx as int, moved.x as int, X_BOUND as int) as i64,
        ),
        MovementPattern::Zigzag(v) => MovementPattern::Zigzag(
            Vec2I {
                x: spec_bounced(v.x as int, moved.x as int, X_BOUND as int) as i64,
                y: spec_bounced(v.y as int, moved.y as int, Y_BOUND as int) as i64,
            },
        ),
    }
}

/// A ship's position and pattern are well formed for bounce kinematics.
pub open spec fn pattern_wf(pos: Vec2I, pat: MovementPattern) -> bool {
    match pat {
        MovementPattern::LeftRight(vx) => {
            &&& axis_wf(pos.x as int, vx as int, X_BOUND as int, X_BOUND as int)
            &&& -POS_LIMIT <= pos.y <= POS_LIMIT
        },
        MovementPattern::Zigzag(v) => {
            &&& axis_wf(pos.x as int, v.x as int, X_BOUND as int, X_BOUND as int)
            &&& axis_wf(pos.y as int, v.y as int, Y_BOUND as int, SCOUT_SPAWN_Y as int)
        },
    }
}

/// Well-formed patterns keep every ship within the global position bound.
pub proof fn lemma_pattern_wf_bounded(pos: Vec2I, pat: MovementPattern)
    requires
        pattern_wf(pos, pat),
    ensures
        pos.bounded_pos(),
{
}

/// Advance a ship by `dt` milliseconds: displacement is velocity times
/// elapsed time, and a velocity component is reflected on the tick after its
/// wall was crossed. A zero-length tick moves nothing.
pub fn enemy_movement(transform: &mut Vec2I, movement: &mut MovementPattern, dt: u64)
    requires
        pattern_wf(*old(transform), *old(movement)),
        dt <= TICK_LIMIT_MS,
    ensures
        *final(transform) == spec_pattern_moved_pos(*old(transform), *old(movement), dt),
        *final(movement) == spec_pattern_moved_pat(*old(transform), *old(movement), dt),
        pattern_wf(*final(transform), *final(movement)),
        dt == 0 ==> *final(transform) == *old(transform),
{
    match movement {
        MovementPattern::LeftRight(vx) => {
            move_axis(&mut transform.x, vx, X_BOUND, X_BOUND, dt);
        },
        MovementPattern::Zigzag(v) => {
            move_axis(&mut transform.x, &mut v.x, X_BOUND, X_BOUND, dt);
            move_axis(&mut transform.y, &mut v.y, Y_BOUND, SCOUT_SPAWN_Y, dt);
        },
    }
}

/// A live enemy ship: its descriptor, kinematics, and for fighters a weapon
/// with the timer that paces its fire requests.
#[derive(Clone, Copy, Debug, PartialEq, Eq, Structural)]
pub struct EnemyBundle {
    pub enemy: Enemy,
    pub movement: MovementPattern,
    pub transform: Vec2I,
    pub weapon: Option<Weapon>,
    pub weapon_behavior: Option<Timer>,
}

impl EnemyBundle {
    pub open spec fn wf(self) -> bool {
        &&& pattern_wf(self.transform, self.movement)
        &&& self.weapon matches Some(w) ==> w.wf()
        &&& self.weapon_behavior matches Some(t) ==> t.wf() && t.mode is Repeating
    }
}

/// The ship a descriptor turns into, spawning at column `x` in its kind's
/// row, heading right when `rightward` and left otherwise; scouts zigzag
/// downward-free (their vertical velocity starts upward and bounces at the
/// top wall), fighters sweep left-right and carry a downward-firing weapon.
pub open spec fn spec_instantiate(e: Enemy, rightward: bool, x: i64) -> EnemyBundle {
    match e {
        Enemy::Scout { speed } => EnemyBundle {
            enemy: e,
            movement: MovementPattern::Zigzag(
                Vec2I {
                    x: if rightward {
                        speed as i64
                    } else {
                        (-(speed as int)) as i64
                    },
                    y: speed as i64,
                },
            ),
            transform: Vec2I { x, y: SCOUT_SPAWN_Y },
            weapon: None,
            weapon_behavior: None,
        },
        Enemy::Fighter { speed } => EnemyBundle {
            enemy: e,
            movement: MovementPattern::LeftRight(
                if rightward {
                    speed as i64
                } else {
                    (-(speed as int)) as i64
                },
            ),
            transform: Vec2I { x, y: FIGHTER_SPAWN_Y },
            weapon: Some(
                Weapon {
                    aim_vector: Vec2I { x: 0, y: (-ENEMY_PROJECTILE_VELOCITY) as i64 },
                    ready_timer: Timer {
                        duration_ms: ENEMY_RECHARGE_MS,
                        elapsed_ms: 0,
                        mode: TimerMode::Once,
                        paused: false,
                        just_finished: false,
                    },
                },
            ),
            weapon_behavior: Some(
                Timer {
                    duration_ms: ENEMY_FIRE_PERIOD_MS,
                    elapsed_ms: 0,
                    mode: TimerMode::Repeating,
                    paused: false,
                    just_finished: false,
                },
            ),
        },
    }
}

impl Enemy {
    /// Build the ship for this descriptor deterministically from the two
    /// random draws: its heading and its spawn column.
    pub fn instantiate(self, rightward: bool, x: i64) -> (b: EnemyBundle)
        requires
            -X_BOUND <= x < X_BOUND,
        ensures
            b == spec_instantiate(self, rightward, x),
            b.wf(),
            b.enemy == self,
    {
        match self {
            Enemy::Scout { speed } => EnemyBundle {
                enemy: self,
                movement: MovementPattern::Zigzag(
                    Vec2I {
                        x: if rightward {
                            speed as i64
                        } else {
                            -(speed as i64)
                        },
                        y: speed as i64,
                    },
                ),
                transform: Vec2I { x, y: SCOUT_SPAWN_Y },
                weapon: None,
                weapon_behavior: None,
            },
            Enemy::Fighter { speed } => EnemyBundle {
                enemy: self,
                movement: MovementPattern::LeftRight(
                    if rightward {
                        speed as i64
                    } else {
                        -(speed as i64)
                    },
                ),
                transform: Vec2I { x, y: FIGHTER_SPAWN_Y },
                weapon: Some(
                    Weapon::new(
                        Vec2I { x: 0, y: -ENEMY_PROJECTILE_VELOCITY },
                        ENEMY_RECHARGE_MS,
                    ),
                ),
                weapon_behavior: Some(Timer::new(ENEMY_FIRE_PERIOD_MS, TimerMode::Repeating)),
            },
        }
    }

    /// Build the ship for this descriptor, drawing its heading and spawn
    /// column at random; whatever is drawn, the result is a well-formed ship
    /// of this descriptor spawned in its kind's row.
    pub fn make_bundle(self) -> (b: EnemyBundle)
        ensures
            exists|rightward: bool, x: i64|
                -X_BOUND <= x < X_BOUND && b == #[trigger] spec_instantiate(
                    self,
                    rightward,
                    x,
                ),
            b.wf(),
            b.enemy == self,
    {
        let rightward = random_bool();
        let x = random_in_range(-X_BOUND, X_BOUND);
        let b = self.instantiate(rightward, x);
        proof {
            assert(-X_BOUND <= x < X_BOUND && b == spec_instantiate(self, rightward, x));
        }
        b
    }
}

/// Load level settings and reset the spawner.
#[derive(Clone, Copy, Debug, PartialEq, Eq, Structural)]
pub struct SpawnerResetEvent(pub Level);

/// How many scouts spawn between fighters; zero means no fighters are
/// interleaved (a level without fighters, or with more fighters than
/// scouts, would otherwise divide by zero).
pub open spec fn spec_cadence(level: Level) -> int {
    if level.num_fighter > 0 {
        level.num_scout as int / level.num_fighter as int
    } else {
        0
    }
}

/// The spawn queue after enqueueing the first `n` scouts: one fighter is
/// interleaved after every `cadence`-th scout.
pub open spec fn spec_queue_upto(level: Level, n: nat) -> Seq<Enemy>
    decreases n,
{
    if n == 0 {
        Seq::empty()
    } else {
        let prev = spec_queue_upto(level, (n - 1) as nat);
        let with_scout = prev.push(Enemy::Scout { speed: level.enemy_speed });
        if spec_cadence(level) > 0 && (n as int) % spec_cadence(level) == 0 {
            with_scout.push(Enemy::Fighter { speed: level.enemy_speed })
        } else {
            with_scout
        }
    }
}

/// The whole spawn queue a level starts with.
pub open spec fn spec_spawn_queue(level: Level) -> Seq<Enemy> {
    spec_queue_upto(level, level.num_scout as nat)
}

/// Milliseconds between two spawns at the given rate (spawns per second, in
/// thousandths): the reciprocal of the rate, kept within timer range. A
/// rate of zero never spawns.
pub open spec fn spec_interval_ms(rate_milli: u32) -> u64 {
    if rate_milli == 0 {
        DURATION_LIMIT_MS
    } else if 1_000_000 as int / rate_milli as int == 0 {
        1
    } else {
        (1_000_000 as int / rate_milli as int) as u64
    }
}

/// A fresh one-shot timer for the next spawn at the given rate.
pub open spec fn spec_spawn_timer(rate_milli: u32) -> Timer {
    Timer {
        duration_ms: spec_interval_ms(rate_milli),
        elapsed_ms: 0,
        mode: TimerMode::Once,
        paused: false,
        just_finished: false,
    }
}

/// Milliseconds between two spawns at the given rate.
pub fn interval_ms(rate_milli: u32) -> (r: u64)
    ensures
        r == spec_interval_ms(rate_milli),
        1 <= r <= DURATION_LIMIT_MS,
{
    if rate_milli == 0 {
        DURATION_LIMIT_MS
    } else {
        let i = 1_000_000u64 / (rate_milli as u64);
        if i == 0 {
            1
        } else {
            i
        }
    }
}

/// Releases the level's enemies one at a time: a queue of descriptors
/// consumed front to back, paced by a one-shot timer re-armed from the
/// spawn rate.
#[derive(Clone, Debug)]
pub struct EnemySpawner {
    /// Enemies spawned per second, in thousandths.
    pub rate_milli: u32,
    /// Enemies waiting to be spawned.
    pub spawn_queue: Vec<Enemy>,
    /// Number of enemies to kill before the level ends.
    pub level_remaining: usize,
    /// Time until the next spawn.
    pub next_spawn: Timer,
}

impl EnemySpawner {
    pub open spec fn wf(self) -> bool {
        self.next_spawn.wf()
    }
}

impl Default for EnemySpawner {
    /// A spawner with nothing to do: empty queue, timer halted.
    fn default() -> (s: EnemySpawner)
        ensures
            s.rate_milli == 0,
            s.spawn_queue@ == Seq::<Enemy>::empty(),
            s.level_remaining == 0,
            s.next_spawn.paused,
            !s.next_spawn.just_finished,
            s.wf(),
    {
        let mut t = Timer::new(1, TimerMode::Once);
        t.pause();
        EnemySpawner { rate_milli: 0, spawn_queue: Vec::new(), level_remaining: 0, next_spawn: t }
    }
}

impl EnemySpawner {
    /// The spawner a level starts with: the interleaved queue, the level's
    /// kill count, and the first spawn delayed by a fixed lead time.
    pub fn from_level(level: &Level) -> (s: EnemySpawner)
        requires
            level.wf(),
        ensures
            s.rate_milli == level.spawn_rate_milli,
            s.spawn_queue@ == spec_spawn_queue(*level),
            s.level_remaining == level.num_scout + level.num_fighter,
            s.next_spawn == (Timer {
                duration_ms: FIRST_SPAWN_DELAY_MS,
                elapsed_ms: 0,
                mode: TimerMode::Once,
                paused: false,
                just_finished: false,
            }),
            s.wf(),
    {
        let mut spawn_queue: Vec<Enemy> = Vec::new();
        let cadence: usize = if level.num_fighter > 0 {
            level.num_scout / level.num_fighter
        } else {
            0
        };
        let mut count: usize = 0;
        while count < level.num_scout
            invariant
                count <= level.num_scout,
                cadence == spec_cadence(*level),
                spawn_queue@ == spec_queue_upto(*level, count as nat),
            decreases level.num_scout - count,
        {
            spawn_queue.push(Enemy::Scout { speed: level.enemy_speed });
            if cadence > 0 && (count + 1) % cadence == 0 {
                spawn_queue.push(Enemy::Fighter { speed: level.enemy_speed });
            }
            count = count + 1;
        }
        EnemySpawner {
            rate_milli: level.spawn_rate_milli,
            spawn_queue,
            level_remaining: level.num_scout + level.num_fighter,
            next_spawn: Timer::new(FIRST_SPAWN_DELAY_MS, TimerMode::Once),
        }
    }

    /// One scheduler step. If the spawn delay just elapsed, release the
    /// front of the queue and re-arm the timer from the rate; with an empty
    /// queue spawning simply ends. Otherwise only advance the delay. The
    /// queue never grows.
    pub fn enemy_spawn(&mut self, dt: u64) -> (released: Option<Enemy>)
        requires
            old(self).wf(),
            dt <= TICK_LIMIT_MS,
        ensures
            final(self).wf(),
            final(self).rate_milli == old(self).rate_milli,
            final(self).level_remaining == old(self).level_remaining,
            final(self).spawn_queue@.len() <= old(self).spawn_queue@.len(),
            released is Some <==> old(self).next_spawn.just_finished
                && old(self).spawn_queue@.len() > 0,
            old(self).next_spawn.just_finished && old(self).spawn_queue@.len() > 0 ==> {
                &&& released == Some(old(self).spawn_queue@[0])
                &&& final(self).spawn_queue@ == old(self).spawn_queue@.drop_first()
                &&& final(self).next_spawn == spec_spawn_timer(old(self).rate_milli)
            },
            old(self).next_spawn.just_finished && old(self).spawn_queue@.len() == 0
                ==> *final(self) == *old(self),
            !old(self).next_spawn.just_finished ==> {
                &&& final(self).spawn_queue == old(self).spawn_queue
                &&& final(self).next_spawn == spec_ticked(old(self).next_spawn, dt)
            },
            old(self).spawn_queue@.len() == 0 ==> final(self).spawn_queue@.len() == 0,
    {
        if self.next_spawn.just_finished() {
            if self.spawn_queue.len() > 0 {
                let released = self.spawn_queue.remove(0);
                self.next_spawn = Timer::new(interval_ms(self.rate_milli), TimerMode::Once);
                proof {
                    assert(final(self).spawn_queue@ =~= old(self).spawn_queue@.drop_first());
                }
                Some(released)
            } else {
                None
            }
        } else {
            self.next_spawn.tick(dt);
            None
        }
    }

    /// The level is being restarted: drop every pending spawn and halt the
    /// delay timer, so nothing spawns until the spawner is reset.
    pub fn level_restart(&mut self)
        requires
            old(self).wf(),
        ensures
            final(self).wf(),
            final(self).rate_milli == old(self).rate_milli,
            final(self).level_remaining == old(self).level_remaining,
            final(self).spawn_queue@ == Seq::<Enemy>::empty(),
            final(self).next_spawn == (Timer { paused: true, ..old(self).next_spawn }),
    {
        self.spawn_queue.clear();
        self.next_spawn.pause();
        proof {
            assert(final(self).spawn_queue@ =~= Seq::<Enemy>::empty());
        }
    }
}

/// Consume a spawner-reset notification: load the carried level's settings
/// and start its spawning over.
pub fn reset_spawner(spawner: &mut EnemySpawner, event: &SpawnerResetEvent)
    requires
        event.0.wf(),
    ensures
        final(spawner).rate_milli == event.0.spawn_rate_milli,
        final(spawner).spawn_queue@ == spec_spawn_queue(event.0),
        final(spawner).level_remaining == event.0.num_scout + event.0.num_fighter,
        final(spawner).next_spawn == (Timer {
            duration_ms: FIRST_SPAWN_DELAY_MS,
            elapsed_ms: 0,
            mode: TimerMode::Once,
            paused: false,
            just_finished: false,
        }),
        final(spawner).wf(),
{
    *spawner = EnemySpawner::from_level(&event.0);
}

/// Tally `deaths` consumed enemy-death notifications: the score grows by a
/// fixed amount per notification (saturating only at the counter's limit),
/// the level's kill counter drops one per notification saturating at zero,
/// and the level ends exactly when the counter runs out on one of them.
pub fn enemy_death(
    spawner: &mut EnemySpawner,
    score: &mut crate::ui::Score,
    deaths: usize,
) -> (level_end: bool)
    requires
        old(spawner).wf(),
    ensures
        final(spawner).wf(),
        final(spawner).rate_milli == old(spawner).rate_milli,
        final(spawner).spawn_queue == old(spawner).spawn_queue,
        final(spawner).next_spawn == old(spawner).next_spawn,
        final(score).0 == if old(score).0 + deaths * 100 <= u32::MAX {
            old(score).0 + deaths * 100
        } else {
            u32::MAX as int
        },
        final(spawner).level_remaining == if deaths <= old(spawner).level_remaining {
            old(spawner).level_remaining - deaths
        } else {
            0
        },
        level_end == (old(spawner).level_remaining > 0
            && deaths >= old(spawner).level_remaining),
{
    let mut level_end = false;
    let mut i: usize = 0;
    while i < deaths
        invariant
            i <= deaths,
            spawner.wf(),
            spawner.rate_milli == old(spawner).rate_milli,
            spawner.spawn_queue == old(spawner).spawn_queue,
            spawner.next_spawn == old(spawner).next_spawn,
            score.0 == if old(score).0 + i * 100 <= u32::MAX {
                old(score).0 + i * 100
            } else {
                u32::MAX as int
            },
            spawner.level_remaining == if i <= old(spawner).level_remaining {
                old(spawner).level_remaining - i
            } else {
                0
            },
            level_end == (old(spawner).level_remaining > 0
                && i >= old(spawner).level_remaining),
        decreases deaths - i,
    {
        score.0 = if score.0 <= u32::MAX - 100 {
            score.0 + 100
        } else {
            u32::MAX
        };
        if spawner.level_remaining > 0 {
            spawner.level_remaining = spawner.level_remaining - 1;
            if spawner.level_remaining == 0 {
                level_end = true;
            }
        }
        i = i + 1;
    }
    level_end
}

} // verus!

//! Level descriptors and the current-level controller: a start timer gates
//! each level's opening, finishing a level advances to the next descriptor,
//! and past the last defined level the enemy speed scales upward.

use vstd::prelude::*;

verus! {

use crate::timer::{Timer, TimerMode, spec_ticked};
use crate::geom::TICK_LIMIT_MS;

/// Milliseconds between entering a level and its spawning starting.
pub const LEVEL_START_DELAY_MS: u64 = 2_000;

/// Number of levels with their own descriptor; beyond them the last one is
/// reused with scaled speed.
pub const LEVEL_COUNT: usize = 3;

/// Extra enemy speed (screen units per second) per level beyond the defined
/// ones.
pub const SPEED_STEP_PER_LEVEL: u32 = 15;

/// An immutable level descriptor.
#[derive(Clone, Copy, Debug, PartialEq, Eq, Structural)]
pub struct Level {
    /// Enemy speed in screen units per second.
    pub enemy_speed: u32,
    pub num_scout: usize,
    pub num_fighter: usize,
    /// Enemies spawned per second, in thousandths.
    pub spawn_rate_milli: u32,
}

impl Level {
    /// The kill counter for the level must fit the machine.
    pub open spec fn wf(self) -> bool {
        self.num_scout + self.num_fighter <= usize::MAX
    }
}

/// The fixed level table.
pub open spec fn spec_level(i: int) -> Level {
    if i == 0 {
        Level { enemy_speed: 90, num_scout: 5, num_fighter: 1, spawn_rate_milli: 500 }
    } else if i == 1 {
        Level { enemy_speed: 100, num_scout: 8, num_fighter: 2, spawn_rate_milli: 1000 }
    } else {
        Level { enemy_speed: 110, num_scout: 12, num_fighter: 3, spawn_rate_milli: 1500 }
    }
}

/// The fixed level table.
pub fn level_descriptor(i: usize) -> (l: Level)
    requires
        i < LEVEL_COUNT,
    ensures
        l == spec_level(i as int),
        l.wf(),
{
    if i == 0 {
        Level { enemy_speed: 90, num_scout: 5, num_fighter: 1, spawn_rate_milli: 500 }
    } else if i == 1 {
        Level { enemy_speed: 100, num_scout: 8, num_fighter: 2, spawn_rate_milli: 1000 }
    } else {
        Level { enemy_speed: 110, num_scout: 12, num_fighter: 3, spawn_rate_milli: 1500 }
    }
}

/// The player has completed the level.
#[derive(Clone, Copy, Debug, PartialEq, Eq, Structural)]
pub struct LevelEndEvent;

/// The player died; restart the level.
#[derive(Clone, Copy, Debug, PartialEq, Eq, Structural)]
pub struct LevelRestartEvent;

/// The level being played, and the timer gating its start.
#[derive(Clone, Debug, PartialEq, Eq, Structural)]
pub struct CurrentLevel {
    pub number: usize,
    pub level: Level,
    pub level_start_timer: Timer,
}

/// A fresh one-shot timer for the level-start delay.
pub open spec fn spec_start_timer() -> Timer {
    Timer {
        duration_ms: LEVEL_START_DELAY_MS,
        elapsed_ms: 0,
        mode: TimerMode::Once,
        paused: false,
        just_finished: false,
    }
}

/// The enemy speed for level `number`, starting from `base`: beyond the
/// defined levels it grows by a fixed step per level, capped at `u32::MAX`.
pub open spec fn spec_scaled_speed(number: int, base: int) -> int {
    if number >= LEVEL_COUNT {
        let s = base + (number - 2) * SPEED_STEP_PER_LEVEL;
        if s > u32::MAX {
            u32::MAX as int
        } else {
            s
        }
    } else {
        base
    }
}

/// The state after a completed level: the next level number, its descriptor
/// (the last one reused with scaled speed past the table), and a fresh start
/// timer.
pub open spec fn spec_bumped(c: CurrentLevel) -> CurrentLevel {
    let n = if c.number < usize::MAX {
        c.number + 1
    } else {
        usize::MAX as int
    };
    let idx = if n < LEVEL_COUNT {
        n
    } else {
        LEVEL_COUNT - 1
    };
    let base = spec_level(idx);
    CurrentLevel {
        number: n as usize,
        level: Level {
            enemy_speed: spec_scaled_speed(n, base.enemy_speed as int) as u32,
            ..base
        },
        level_start_timer: spec_start_timer(),
    }
}

impl CurrentLevel {
    pub open spec fn wf(self) -> bool {
        &&& self.level.wf()
        &&& self.level_start_timer.wf()
    }
}

impl Default for CurrentLevel {
    /// The first level, with its start delay running.
    fn default() -> (c: CurrentLevel)
        ensures
            c == (CurrentLevel {
                number: 0,
                level: spec_level(0),
                level_start_timer: spec_start_timer(),
            }),
            c.wf(),
    {
        CurrentLevel {
            number: 0,
            level: level_descriptor(0),
            level_start_timer: Timer::new(LEVEL_START_DELAY_MS, TimerMode::Once),
        }
    }
}

/// Advance the level-start timer; reports whether the delay just elapsed, in
/// which case the caller announces the level, spawns the player and resets
/// the enemy spawner.
pub fn level_start(current: &mut CurrentLevel, dt: u64) -> (started: bool)
    requires
        old(current).wf(),
        dt <= TICK_LIMIT_MS,
    ensures
        *final(current) == (CurrentLevel {
            level_start_timer: spec_ticked(old(current).level_start_timer, dt),
            ..*old(current)
        }),
        started == spec_ticked(old(current).level_start_timer, dt).just_finished,
        final(current).wf(),
        dt == 0 ==> !started && final(current).level_start_timer.elapsed_ms == old(
            current,
        ).level_start_timer.elapsed_ms,
{
    current.level_start_timer.tick(dt);
    current.level_start_timer.just_finished()
}

/// If the player died this tick, start the level's opening delay over; the
/// level number is kept.
pub fn detect_player_death(current: &mut CurrentLevel, restarted: bool)
    requires
        old(current).wf(),
    ensures
        restarted ==> *final(current) == (CurrentLevel {
            level_start_timer: Timer {
                elapsed_ms: 0,
                just_finished: false,
                ..old(current).level_start_timer
            },
            ..*old(current)
        }),
        !restarted ==> *final(current) == *old(current),
        final(current).wf(),
{
    if restarted {
        current.level_start_timer.reset();
    }
}

/// The player completed the level: load the next one.
pub fn bump_level(current: &mut CurrentLevel)
    requires
        old(current).wf(),
    ensures
        *final(current) == spec_bumped(*old(current)),
        final(current).wf(),
{
    let number = if current.number < usize::MAX {
        current.number + 1
    } else {
        usize::MAX
    };
    let idx = if number < LEVEL_COUNT {
        number
    } else {
        LEVEL_COUNT - 1
    };
    let base = level_descriptor(idx);
    let speed: u32 = if number >= LEVEL_COUNT {
        let raw: u128 = (base.enemy_speed as u128) + (number as u128 - 2)
            * (SPEED_STEP_PER_LEVEL as u128);
        if raw > u32::MAX as u128 {
            u32::MAX
        } else {
            raw as u32
        }
    } else {
        base.enemy_speed
    };
    *current = CurrentLevel {
        number,
        level: Level { enemy_speed: speed, ..base },
        level_start_timer: Timer::new(LEVEL_START_DELAY_MS, TimerMode::Once),
    };
}

} // verus!

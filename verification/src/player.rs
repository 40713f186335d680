//! The player ship: spawn state, digital and analog steering with soft
//! clamping to the screen, and the fire input.

use vstd::prelude::*;

verus! {

use crate::geom::{Vec2I, spec_clamp, clamp, TICK_LIMIT_MS, VEL_LIMIT};
use crate::weapon::Weapon;

/// Player speed in screen units per second.
pub const PLAYER_SPEED: u32 = 200;

/// Speed the player's projectiles are fired at, in screen units per second.
pub const PLAYER_PROJECTILE_VELOCITY: i64 = 400;

/// Milliseconds the player's weapon needs to recharge.
pub const PLAYER_RECHARGE_MS: u64 = 250;

/// Where the player ship appears, in milliunits.
pub const PLAYER_SPAWN_X: i64 = 0;
pub const PLAYER_SPAWN_Y: i64 = -300_000;

/// The player is clamped (not bounced) to these soft walls, in milliunits.
pub const PLAYER_X_BOUND: i64 = 180_000;
pub const PLAYER_Y_BOUND: i64 = 380_000;

/// Spawn the player ship.
#[derive(Clone, Copy, Debug, PartialEq, Eq, Structural)]
pub struct PlayerSpawnEvent;

/// The player component: its steering speed.
#[derive(Clone, Copy, Debug, PartialEq, Eq, Structural)]
pub struct Player {
    /// Screen units per second.
    pub speed: u32,
}

impl Default for Player {
    fn default() -> (p: Player)
        ensures
            p == (Player { speed: PLAYER_SPEED }),
    {
        Player { speed: PLAYER_SPEED }
    }
}

/// The player ship: component, position and weapon.
#[derive(Clone, Copy, Debug, PartialEq, Eq, Structural)]
pub struct PlayerBundle {
    pub player: Player,
    pub transform: Vec2I,
    pub weapon: Weapon,
}

impl PlayerBundle {
    /// Within the soft walls, with a usable weapon.
    pub open spec fn wf(self) -> bool {
        &&& self.weapon.wf()
        &&& -PLAYER_X_BOUND <= self.transform.x <= PLAYER_X_BOUND
        &&& -PLAYER_Y_BOUND <= self.transform.y <= PLAYER_Y_BOUND
    }

    /// The ship as it spawns: at the spawn point, weapon recharging from
    /// zero, aimed straight up.
    pub fn spawned() -> (b: PlayerBundle)
        ensures
            b.player == (Player { speed: PLAYER_SPEED }),
            b.transform == (Vec2I { x: PLAYER_SPAWN_X, y: PLAYER_SPAWN_Y }),
            b.weapon.aim_vector == (Vec2I { x: 0, y: PLAYER_PROJECTILE_VELOCITY }),
            b.weapon.ready_timer.duration_ms == PLAYER_RECHARGE_MS,
            b.weapon.ready_timer.elapsed_ms == 0,
            b.wf(),
    {
        PlayerBundle {
            player: Player { speed: PLAYER_SPEED },
            transform: Vec2I { x: PLAYER_SPAWN_X, y: PLAYER_SPAWN_Y },
            weapon: Weapon::new(
                Vec2I { x: 0, y: PLAYER_PROJECTILE_VELOCITY },
                PLAYER_RECHARGE_MS,
            ),
        }
    }
}

/// The digital and analog inputs one tick sees. Analog deflections are in
/// thousandths of full deflection.
#[derive(Clone, Copy, Debug, PartialEq, Eq, Structural)]
pub struct PlayerInput {
    pub up: bool,
    pub down: bool,
    pub left: bool,
    pub right: bool,
    /// Fire was just pressed (also starts the game from idle).
    pub fire: bool,
    /// The pause toggle was just pressed.
    pub pause: bool,
    pub analog_x: Option<i32>,
    pub analog_y: Option<i32>,
}

impl PlayerInput {
    pub open spec fn wf(self) -> bool {
        &&& self.analog_x matches Some(a) ==> -1000 <= a <= 1000
        &&& self.analog_y matches Some(a) ==> -1000 <= a <= 1000
    }
}

impl Default for PlayerInput {
    /// No key pressed and no stick attached.
    fn default() -> (i: PlayerInput)
        ensures
            i == (PlayerInput {
                up: false,
                down: false,
                left: false,
                right: false,
                fire: false,
                pause: false,
                analog_x: None::<i32>,
                analog_y: None::<i32>,
            }),
            i.wf(),
    {
        PlayerInput {
            up: false,
            down: false,
            left: false,
            right: false,
            fire: false,
            pause: false,
            analog_x: None,
            analog_y: None,
        }
    }
}

/// Calibrated analog deflection: a dead zone below 50 thousandths, full
/// output from 900 thousandths up, linear in between, the sign kept.
pub open spec fn spec_tune_analog(a: int) -> int {
    let m = if a >= 0 {
        a
    } else {
        -a
    };
    let scaled = if m <= 50 {
        0
    } else {
        (m - 50) * 1000 / 850
    };
    let c = if scaled > 1000 {
        1000
    } else {
        scaled
    };
    if a >= 0 {
        c
    } else {
        -c
    }
}

/// Calibrate an analog input: add a dead zone near zero and reach full
/// output at nine tenths of deflection.
pub fn tune_analog(a: i32) -> (r: i32)
    requires
        -1000 <= a <= 1000,
    ensures
        r == spec_tune_analog(a as int),
        -1000 <= r <= 1000,
{
    let m: i32 = if a >= 0 {
        a
    } else {
        -a
    };
    let scaled: i32 = if m <= 50 {
        0
    } else {
        (m - 50) * 1000 / 850
    };
    let c: i32 = if scaled > 1000 {
        1000
    } else {
        scaled
    };
    if a >= 0 {
        c
    } else {
        -c
    }
}

/// One axis of steering: the full move distance under a held key, a scaled
/// share of it under an analog deflection `t` (in thousandths), nothing
/// otherwise.
pub open spec fn spec_analog_share(d: int, t: int) -> int {
    if t >= 0 {
        d * t / 1000
    } else {
        -(d * (-t) / 1000)
    }
}

/// Where the player stands after one tick of steering: displacement is
/// speed times elapsed time (scaled by the calibrated deflection on an
/// analog axis, a held key taking precedence), then both coordinates are
/// clamped to the soft walls.
pub open spec fn spec_player_moved(pos: Vec2I, speed: u32, input: PlayerInput, dt: u64) -> Vec2I {
    let d = speed * dt;
    let dy = if input.up {
        d
    } else if input.down {
        -d
    } else {
        match input.analog_y {
            Some(a) => spec_analog_share(d, spec_tune_analog(a as int)),
            None => 0,
        }
    };
    let dx = if input.left {
        -d
    } else if input.right {
        d
    } else {
        match input.analog_x {
            Some(a) => spec_analog_share(d, spec_tune_analog(a as int)),
            None => 0,
        }
    };
    Vec2I {
        x: spec_clamp(pos.x + dx, PLAYER_X_BOUND as int) as i64,
        y: spec_clamp(pos.y + dy, PLAYER_Y_BOUND as int) as i64,
    }
}

/// The whole move distance of one tick, in milliunits.
fn move_delta(speed: u32, dt: u64) -> (d: u64)
    requires
        dt <= TICK_LIMIT_MS,
    ensures
        d == speed * dt,
        d <= VEL_LIMIT * TICK_LIMIT_MS,
{
    proof {
        assert(speed * dt <= VEL_LIMIT * TICK_LIMIT_MS) by (nonlinear_arith)
            requires
                0 <= speed <= u32::MAX < VEL_LIMIT,
                0 <= dt <= TICK_LIMIT_MS,
        ;
    }
    (speed as u64) * dt
}

/// The analog share of the move distance: `d` scaled by `t` thousandths,
/// with the sign of `t`.
fn analog_share(d: u64, t: i32) -> (r: i64)
    requires
        d <= VEL_LIMIT * TICK_LIMIT_MS,
        -1000 <= t <= 1000,
    ensures
        r == spec_analog_share(d as int, t as int),
        -(VEL_LIMIT * TICK_LIMIT_MS) <= r <= VEL_LIMIT * TICK_LIMIT_MS,
{
    let mag: u64 = if t >= 0 {
        t as u64
    } else {
        (-t) as u64
    };
    proof {
        assert(d * mag <= (VEL_LIMIT * TICK_LIMIT_MS) * 1000 <= u64::MAX) by (nonlinear_arith)
            requires
                0 <= d <= VEL_LIMIT * TICK_LIMIT_MS,
                0 <= mag <= 1000,
                VEL_LIMIT == 5_000_000_000,
                TICK_LIMIT_MS == 3_600_000,
        ;
        assert(d * mag / 1000 <= d) by (nonlinear_arith)
            requires
                0 <= d,
                0 <= mag <= 1000,
        ;
    }
    let share = d * mag / 1000;
    if t >= 0 {
        share as i64
    } else {
        -(share as i64)
    }
}

/// Steer the player ship for one tick and report whether it fires: held
/// keys move it at full speed, an analog stick at its calibrated share, and
/// the ship is clamped, not bounced, at the soft walls. A zero-length tick
/// moves nothing.
pub fn player_movement(
    transform: &mut Vec2I,
    player: &Player,
    input: &PlayerInput,
    dt: u64,
) -> (fire: bool)
    requires
        -PLAYER_X_BOUND <= old(transform).x <= PLAYER_X_BOUND,
        -PLAYER_Y_BOUND <= old(transform).y <= PLAYER_Y_BOUND,
        input.wf(),
        dt <= TICK_LIMIT_MS,
    ensures
        *final(transform) == spec_player_moved(*old(transform), player.speed, *input, dt),
        -PLAYER_X_BOUND <= final(transform).x <= PLAYER_X_BOUND,
        -PLAYER_Y_BOUND <= final(transform).y <= PLAYER_Y_BOUND,
        fire == input.fire,
        dt == 0 ==> *final(transform) == *old(transform),
{
    let d = move_delta(player.speed, dt);
    proof {
        assert(dt == 0 ==> player.speed * dt == 0) by (nonlinear_arith);
    }
    let dy: i64 = if input.up {
        d as i64
    } else if input.down {
        -(d as i64)
    } else if let Some(a) = input.analog_y {
        analog_share(d, tune_analog(a))
    } else {
        0
    };
    let dx: i64 = if input.left {
        -(d as i64)
    } else if input.right {
        d as i64
    } else if let Some(a) = input.analog_x {
        analog_share(d, tune_analog(a))
    } else {
        0
    };
    transform.x = clamp(transform.x + dx, PLAYER_X_BOUND);
    transform.y = clamp(transform.y + dy, PLAYER_Y_BOUND);
    proof {
        if dt == 0 {
            assert(spec_analog_share(0, spec_tune_analog(
                match input.analog_y { Some(a) => a as int, None => 0 })) == 0);
            assert(spec_analog_share(0, spec_tune_analog(
                match input.analog_x { Some(a) => a as int, None => 0 })) == 0);
        }
    }
    input.fire
}

} // verus!

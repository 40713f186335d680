//! Fixed-point plane geometry: positions in milliunits, velocities in
//! milliunits per millisecond, time in milliseconds.

use vstd::prelude::*;

verus! {

/// Largest velocity magnitude (milliunits per millisecond) the game handles.
/// Level speeds are `u32` screen units per second, so this covers them all.
pub const VEL_LIMIT: i64 = 5_000_000_000;

/// Largest tick the game accepts, in milliseconds (one hour).
pub const TICK_LIMIT_MS: u64 = 3_600_000;

/// Largest distance one tick can cover: `VEL_LIMIT * TICK_LIMIT_MS`.
pub const STEP_LIMIT: i64 = 5_000_000_000 * 3_600_000;

/// Largest position magnitude (milliunits) any live entity can reach: the
/// highest spawn point plus one full tick of travel.
pub const POS_LIMIT: i64 = 410_000 + 5_000_000_000 * 3_600_000;

/// A plane point or velocity in fixed-point coordinates.
#[derive(Clone, Copy, Debug, PartialEq, Eq, Structural)]
pub struct Vec2I {
    pub x: i64,
    pub y: i64,
}

impl Vec2I {
    /// Both components have magnitude at most `VEL_LIMIT`.
    pub open spec fn bounded_vel(self) -> bool {
        -VEL_LIMIT <= self.x <= VEL_LIMIT && -VEL_LIMIT <= self.y <= VEL_LIMIT
    }

    /// Both components have magnitude at most `POS_LIMIT`.
    pub open spec fn bounded_pos(self) -> bool {
        -POS_LIMIT <= self.x <= POS_LIMIT && -POS_LIMIT <= self.y <= POS_LIMIT
    }
}

/// Distance covered in `dt` milliseconds at velocity `v`.
pub open spec fn spec_step(v: i64, dt: u64) -> int {
    v * dt
}

/// The value `x` pushed into the closed interval `[-bound, bound]`.
pub open spec fn spec_clamp(x: int, bound: int) -> int {
    if x > bound {
        bound
    } else if x < -bound {
        -bound
    } else {
        x
    }
}

/// Distance covered in `dt` milliseconds at velocity `v`.
pub fn step(v: i64, dt: u64) -> (d: i64)
    requires
        -VEL_LIMIT <= v <= VEL_LIMIT,
        dt <= TICK_LIMIT_MS,
    ensures
        d == spec_step(v, dt),
        -STEP_LIMIT <= d <= STEP_LIMIT,
        dt == 0 ==> d == 0,
        v >= 0 ==> d >= 0,
        v <= 0 ==> d <= 0,
{
    proof {
        assert(dt == 0 ==> v * dt == 0) by (nonlinear_arith);
        assert(v >= 0 ==> v * dt >= 0) by (nonlinear_arith);
        assert(v <= 0 ==> v * dt <= 0) by (nonlinear_arith);
        assert(-STEP_LIMIT <= v * dt <= STEP_LIMIT) by (nonlinear_arith)
            requires
                -VEL_LIMIT <= v <= VEL_LIMIT,
                0 <= dt <= TICK_LIMIT_MS,
                STEP_LIMIT == VEL_LIMIT * TICK_LIMIT_MS,
        ;
    }
    v * (dt as i64)
}

/// The value `x` pushed into the closed interval `[-bound, bound]`.
pub fn clamp(x: i64, bound: i64) -> (r: i64)
    requires
        0 <= bound,
    ensures
        r == spec_clamp(x as int, bound as int),
{
    if x > bound {
        bound
    } else if x < -bound {
        -bound
    } else {
        x
    }
}

} // verus!

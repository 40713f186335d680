//! The scrolling star field: it drifts down slowly and snaps up by exactly
//! one repeat height when it runs out, so the seam is invisible.

use vstd::prelude::*;

verus! {

use crate::geom::spec_step;

/// Downward scroll speed, in screen units per second.
pub const BG_MOVEMENT_RATE: i64 = 40;

/// The background image repeats after this many milliunits.
pub const BG_REPEAT_HEIGHT: i64 = 800_000;

/// Largest tick the scroller accepts: the scroll of one tick must stay
/// under the repeat height for a single snap to suffice.
pub const BG_TICK_LIMIT_MS: u64 = 10_000;

/// Where the background image starts: half a repeat above the center.
pub const BG_START_Y: i64 = 400_000;

/// The background position after `dt` milliseconds: scrolled down, snapped
/// up by one repeat height when it has run past half a repeat below center.
pub open spec fn spec_scrolled(y: int, dt: u64) -> int {
    let y2 = y - spec_step(BG_MOVEMENT_RATE, dt);
    if y2 < -BG_REPEAT_HEIGHT / 2 {
        y2 + BG_REPEAT_HEIGHT
    } else {
        y2
    }
}

/// Scroll the background by one tick.
pub fn move_background(y: &mut i64, dt: u64)
    requires
        -BG_REPEAT_HEIGHT / 2 <= *old(y) <= BG_REPEAT_HEIGHT / 2,
        dt <= BG_TICK_LIMIT_MS,
    ensures
        *final(y) == spec_scrolled(*old(y) as int, dt),
        -BG_REPEAT_HEIGHT / 2 <= *final(y) <= BG_REPEAT_HEIGHT / 2,
        dt == 0 ==> *final(y) == *old(y),
{
    proof {
        assert(0 <= BG_MOVEMENT_RATE * dt <= 400_000) by (nonlinear_arith)
            requires
                0 <= dt <= BG_TICK_LIMIT_MS,
                BG_TICK_LIMIT_MS == 10_000,
                BG_MOVEMENT_RATE == 40,
        ;
        assert(dt == 0 ==> BG_MOVEMENT_RATE * dt == 0) by (nonlinear_arith);
    }
    let mut y2 = *y - BG_MOVEMENT_RATE * (dt as i64);
    if y2 < -BG_REPEAT_HEIGHT / 2 {
        y2 = y2 + BG_REPEAT_HEIGHT;
    }
    *y = y2;
}

} // verus!

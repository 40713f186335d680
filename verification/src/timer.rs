//! Countdown timers driving spawn cadence, weapon recharge, level start
//! delays, text fade and explosion animations.
//!
//! A timer accumulates elapsed milliseconds up to its duration. A one-shot
//! timer stays finished once it reaches its duration; a repeating timer wraps
//! around. `just_finished` reports whether the most recent `tick` call crossed
//! the duration, so a tick of zero milliseconds never reports a crossing.

use vstd::prelude::*;

verus! {

use crate::geom::TICK_LIMIT_MS;

/// Largest duration a timer may be built with, in milliseconds.
pub const DURATION_LIMIT_MS: u64 = 1_000_000_000;

#[derive(Clone, Copy, Debug, PartialEq, Eq, Structural)]
pub enum TimerMode {
    /// Runs to its duration once and stays finished.
    Once,
    /// Wraps around each time it reaches its duration.
    Repeating,
}

#[derive(Clone, Copy, Debug, PartialEq, Eq, Structural)]
pub struct Timer {
    pub duration_ms: u64,
    pub elapsed_ms: u64,
    pub mode: TimerMode,
    pub paused: bool,
    pub just_finished: bool,
}

/// The timer `t` advanced by `dt` milliseconds.
pub open spec fn spec_ticked(t: Timer, dt: u64) -> Timer {
    if t.paused {
        Timer { just_finished: false, ..t }
    } else {
        match t.mode {
            TimerMode::Once => Timer {
                elapsed_ms: if t.elapsed_ms + dt >= t.duration_ms {
                    t.duration_ms
                } else {
                    (t.elapsed_ms + dt) as u64
                },
                just_finished: t.elapsed_ms < t.duration_ms && t.elapsed_ms + dt
                    >= t.duration_ms,
                ..t
            },
            TimerMode::Repeating => Timer {
                elapsed_ms: ((t.elapsed_ms + dt) % (t.duration_ms as int)) as u64,
                just_finished: t.elapsed_ms + dt >= t.duration_ms,
                ..t
            },
        }
    }
}

impl Timer {
    /// A usable timer: positive bounded duration, elapsed time within it, and
    /// a repeating timer strictly inside it (it wraps on arrival).
    pub open spec fn wf(self) -> bool {
        &&& 1 <= self.duration_ms <= DURATION_LIMIT_MS
        &&& self.elapsed_ms <= self.duration_ms
        &&& self.mode is Repeating ==> self.elapsed_ms < self.duration_ms
    }

    /// The timer has reached its duration.
    pub open spec fn spec_finished(self) -> bool {
        self.elapsed_ms >= self.duration_ms
    }

    /// How much of the duration is left, in thousandths of the whole.
    pub open spec fn spec_fraction_left_milli(self) -> int {
        (self.duration_ms - self.elapsed_ms) * 1000 / (self.duration_ms as int)
    }

    pub fn new(duration_ms: u64, mode: TimerMode) -> (t: Timer)
        requires
            1 <= duration_ms <= DURATION_LIMIT_MS,
        ensures
            t == (Timer { duration_ms, elapsed_ms: 0, mode, paused: false, just_finished: false }),
            t.wf(),
    {
        Timer { duration_ms, elapsed_ms: 0, mode, paused: false, just_finished: false }
    }

    /// Advance the timer by `dt` milliseconds. A paused timer and a finished
    /// one-shot timer do not advance; a tick of zero milliseconds leaves the
    /// elapsed time unchanged and reports no crossing.
    pub fn tick(&mut self, dt: u64)
        requires
            old(self).wf(),
            dt <= TICK_LIMIT_MS,
        ensures
            *final(self) == spec_ticked(*old(self), dt),
            final(self).wf(),
            dt == 0 ==> final(self).elapsed_ms == old(self).elapsed_ms,
            dt == 0 ==> !final(self).just_finished,
    {
        if self.paused {
            self.just_finished = false;
            return;
        }
        match self.mode {
            TimerMode::Once => {
                let sum = self.elapsed_ms + dt;
                self.just_finished = self.elapsed_ms < self.duration_ms && sum
                    >= self.duration_ms;
                self.elapsed_ms = if sum >= self.duration_ms {
                    self.duration_ms
                } else {
                    sum
                };
            },
            TimerMode::Repeating => {
                let sum = self.elapsed_ms + dt;
                proof {
                    if sum < self.duration_ms {
                        vstd::arithmetic::div_mod::lemma_small_mod(
                            sum as nat,
                            self.duration_ms as nat,
                        );
                    }
                }
                self.just_finished = sum >= self.duration_ms;
                self.elapsed_ms = sum % self.duration_ms;
            },
        }
    }

    pub fn finished(&self) -> (r: bool)
        ensures
            r == self.spec_finished(),
    {
        self.elapsed_ms >= self.duration_ms
    }

    pub fn just_finished(&self) -> (r: bool)
        ensures
            r == self.just_finished,
    {
        self.just_finished
    }

    /// Start the countdown over.
    pub fn reset(&mut self)
        ensures
            *final(self) == (Timer {
                elapsed_ms: 0,
                just_finished: false,
                ..*old(self)
            }),
            old(self).wf() ==> final(self).wf(),
    {
        self.elapsed_ms = 0;
        self.just_finished = false;
    }

    /// Stop the timer from advancing until unpaused.
    pub fn pause(&mut self)
        ensures
            *final(self) == (Timer { paused: true, ..*old(self) }),
            old(self).wf() ==> final(self).wf(),
    {
        self.paused = true;
    }

    /// How much of the duration is left, in thousandths of the whole.
    pub fn fraction_left_milli(&self) -> (r: u64)
        requires
            self.wf(),
        ensures
            r == self.spec_fraction_left_milli(),
            r <= 1000,
    {
        let left = self.duration_ms - self.elapsed_ms;
        proof {
            assert(left * 1000 <= self.duration_ms * 1000) by (nonlinear_arith)
                requires
                    left <= self.duration_ms,
            ;
            assert(self.duration_ms * 1000 / (self.duration_ms as int) == 1000)
                by (nonlinear_arith)
                requires
                    self.duration_ms >= 1,
            ;
            assert(left * 1000 / (self.duration_ms as int) <= self.duration_ms * 1000 / (
            self.duration_ms as int)) by (nonlinear_arith)
                requires
                    left * 1000 <= self.duration_ms * 1000,
                    self.duration_ms >= 1,
            ;
        }
        left * 1000 / self.duration_ms
    }
}

} // verus!

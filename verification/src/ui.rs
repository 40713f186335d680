//! Counters and presentation state: the score, the player's remaining
//! lives, the game-over notification, level announcements, and the fade
//! timer for transient text.

use vstd::prelude::*;

verus! {

use crate::geom::TICK_LIMIT_MS;
use crate::timer::{Timer, TimerMode, spec_ticked};

/// Milliseconds a transient text stays before it has fully faded.
pub const AUTO_HIDE_FADE_MS: u64 = 2_500;

/// The running score.
#[derive(Clone, Copy, Debug, PartialEq, Eq, Structural)]
pub struct Score(pub u32);

impl Default for Score {
    fn default() -> (s: Score)
        ensures
            s == (Score(0)),
    {
        Score(0)
    }
}

/// Lives the player has left.
#[derive(Clone, Copy, Debug, PartialEq, Eq, Structural)]
pub struct PlayerLives(pub usize);

impl Default for PlayerLives {
    fn default() -> (l: PlayerLives)
        ensures
            l == (PlayerLives(0)),
    {
        PlayerLives(0)
    }
}

/// The decimal digits of `n`, most significant first, as ASCII bytes.
pub open spec fn spec_decimal(n: nat) -> Seq<u8>
    decreases n,
{
    if n < 10 {
        seq![(48 + n) as u8]
    } else {
        spec_decimal(n / 10).push((48 + n % 10) as u8)
    }
}

/// `k` ASCII zeros.
pub open spec fn spec_zeros(k: nat) -> Seq<u8> {
    Seq::new(k, |i: int| 48u8)
}

/// The score as the score line shows it: its decimal digits, padded with
/// zeros on the left to at least six places.
pub open spec fn spec_score_display(n: nat) -> Seq<u8> {
    if spec_decimal(n).len() >= 6 {
        spec_decimal(n)
    } else {
        spec_zeros((6 - spec_decimal(n).len()) as nat) + spec_decimal(n)
    }
}

/// How many decimal digits a counter value has.
pub proof fn lemma_decimal_len(n: nat)
    requires
        n <= u32::MAX,
    ensures
        spec_decimal(n).len() == if n < 10 {
            1int
        } else if n < 100 {
            2int
        } else if n < 1000 {
            3int
        } else if n < 10000 {
            4int
        } else if n < 100000 {
            5int
        } else if n < 1000000 {
            6int
        } else if n < 10000000 {
            7int
        } else if n < 100000000 {
            8int
        } else if n < 1000000000 {
            9int
        } else {
            10int
        },
    decreases n,
{
    if n >= 10 {
        lemma_decimal_len(n / 10);
    }
}

/// Append the decimal digits of `n`, most significant first.
fn push_decimal(n: u32, out: &mut Vec<u8>)
    ensures
        final(out)@ == old(out)@ + spec_decimal(n as nat),
    decreases n,
{
    if n >= 10 {
        push_decimal(n / 10, out);
    }
    out.push(48 + (n % 10) as u8);
    proof {
        assert(final(out)@ =~= old(out)@ + spec_decimal(n as nat));
    }
}

/// The score line's text: the running score zero-padded to six places, as
/// ASCII bytes.
pub fn update_score(score: &Score) -> (r: Vec<u8>)
    ensures
        r@ == spec_score_display(score.0 as nat),
        6 <= r@.len() <= 10,
{
    let mut out: Vec<u8> = Vec::new();
    proof {
        lemma_decimal_len(score.0 as nat);
    }
    if score.0 < 10 {
        out.push(48);
        out.push(48);
        out.push(48);
        out.push(48);
        out.push(48);
    } else if score.0 < 100 {
        out.push(48);
        out.push(48);
        out.push(48);
        out.push(48);
    } else if score.0 < 1000 {
        out.push(48);
        out.push(48);
        out.push(48);
    } else if score.0 < 10000 {
        out.push(48);
        out.push(48);
    } else if score.0 < 100000 {
        out.push(48);
    }
    let ghost pad = out@;
    proof {
        assert(pad =~= spec_zeros(pad.len() as nat));
    }
    push_decimal(score.0, &mut out);
    proof {
        assert(out@ =~= spec_score_display(score.0 as nat));
    }
    out
}

/// The viewport that keeps the play field's one-to-two shape inside a
/// window of the given pixel size, centered: a tall window is limited by
/// its width, a wide one by its height. Returns the viewport size and its
/// offset, in pixels.
pub open spec fn spec_viewport(width: u32, height: u32) -> ((int, int), (int, int)) {
    if height > 2 * width {
        ((width as int, 2 * width), (0, (height - 2 * width) / 2))
    } else {
        (((height / 2) as int, height as int), ((width - height / 2) / 2, 0))
    }
}

/// Fit the play field into a resized window: the viewport size and offset,
/// in pixels.
pub fn window_resize(width: u32, height: u32) -> (r: ((u32, u32), (u32, u32)))
    ensures
        ((r.0.0 as int, r.0.1 as int), (r.1.0 as int, r.1.1 as int)) == spec_viewport(
            width,
            height,
        ),
{
    let w64 = width as u64;
    let h64 = height as u64;
    if h64 > 2 * w64 {
        // A very tall window is limited by the window width.
        let vh = 2 * w64;
        let y = (h64 - vh) / 2;
        ((width, vh as u32), (0, y as u32))
    } else {
        // A very wide window is limited by the window height.
        let vw = height / 2;
        let x = (width - vw) / 2;
        ((vw, height), (x, 0))
    }
}

/// The player ran out of lives.
#[derive(Clone, Copy, Debug, PartialEq, Eq, Structural)]
pub struct GameOverEvent;

/// Announce the level with this number.
#[derive(Clone, Copy, Debug, PartialEq, Eq, Structural)]
pub struct ShowLevelEvent(pub usize);

/// Fades a transient text out and removes it when the fade has run out.
#[derive(Clone, Copy, Debug, PartialEq, Eq, Structural)]
pub struct AutoHide {
    pub fade: Timer,
}

impl Default for AutoHide {
    fn default() -> (a: AutoHide)
        ensures
            a == (AutoHide {
                fade: Timer {
                    duration_ms: AUTO_HIDE_FADE_MS,
                    elapsed_ms: 0,
                    mode: TimerMode::Once,
                    paused: false,
                    just_finished: false,
                },
            }),
            a.fade.wf(),
    {
        AutoHide { fade: Timer::new(AUTO_HIDE_FADE_MS, TimerMode::Once) }
    }
}

impl AutoHide {
    /// Advance the fade by `dt` milliseconds. Returns the opacity to show,
    /// in thousandths, during the second half of the fade (`None` while the
    /// text is still fully opaque), and whether the text is spent and should
    /// be removed.
    pub fn autohide_text(&mut self, dt: u64) -> (r: (Option<u32>, bool))
        requires
            old(self).fade.wf(),
            dt <= TICK_LIMIT_MS,
        ensures
            final(self).fade == spec_ticked(old(self).fade, dt),
            final(self).fade.wf(),
            r.1 == final(self).fade.spec_finished(),
            r.0 == (if final(self).fade.spec_fraction_left_milli() <= 500 {
                Some((2 * final(self).fade.spec_fraction_left_milli()) as u32)
            } else {
                None::<u32>
            }),
            r.0 matches Some(alpha) ==> alpha <= 1000,
            dt == 0 ==> final(self).fade.elapsed_ms == old(self).fade.elapsed_ms,
    {
        self.fade.tick(dt);
        let left = self.fade.fraction_left_milli();
        let alpha = if left <= 500 {
            Some((2 * left) as u32)
        } else {
            None
        };
        (alpha, self.fade.finished())
    }
}

} // verus!

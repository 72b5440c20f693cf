//! Countdown / repeating timer advanced by elapsed milliseconds.
//!
//! Used for projectile lifetime (one-shot), the weapon cooldown and the
//! spawn cadence (both repeating). A one-shot timer saturates at its
//! duration and stays finished; a repeating timer wraps its elapsed time and
//! reports `finished` (and `just_finished`) exactly on the ticks in which it
//! completed at least one period.

use vstd::prelude::*;

verus! {

#[derive(Clone, Copy, PartialEq, Eq, Structural, Debug)]
pub struct Timer {
    pub duration_ms: u64,
    pub elapsed_ms: u64,
    pub repeating: bool,
    pub finished: bool,
    pub just_finished: bool,
}

/// A timer is well formed when its period is positive.
pub open spec fn timer_wf(t: Timer) -> bool {
    t.duration_ms >= 1
}

/// The state of a timer after advancing it by `dt` milliseconds.
pub open spec fn timer_after_tick(t: Timer, dt: u64) -> Timer {
    if !t.repeating && t.finished {
        Timer { just_finished: false, ..t }
    } else {
        let e = t.elapsed_ms + dt;
        if e >= t.duration_ms {
            if t.repeating {
                Timer {
                    elapsed_ms: (e % (t.duration_ms as int)) as u64,
                    finished: true,
                    just_finished: true,
                    ..t
                }
            } else {
                Timer { elapsed_ms: t.duration_ms, finished: true, just_finished: true, ..t }
            }
        } else {
            Timer { elapsed_ms: e as u64, finished: false, just_finished: false, ..t }
        }
    }
}

impl Timer {
    /// A fresh timer with the given period, not yet advanced.
    pub fn new(duration_ms: u64, repeating: bool) -> (t: Timer)
        requires
            duration_ms >= 1,
        ensures
            t == (Timer { duration_ms, elapsed_ms: 0, repeating, finished: false, just_finished: false }),
            timer_wf(t),
    {
        Timer { duration_ms, elapsed_ms: 0, repeating, finished: false, just_finished: false }
    }

    /// Advance the timer by `dt` milliseconds.
    pub fn tick(&mut self, dt: u64)
        requires
            timer_wf(*old(self)),
            old(self).elapsed_ms + dt <= u64::MAX,
        ensures
            *final(self) == timer_after_tick(*old(self), dt),
            timer_wf(*final(self)),
    {
        if !self.repeating && self.finished {
            self.just_finished = false;
            return;
        }
        let e = self.elapsed_ms + dt;
        if e >= self.duration_ms {
            if self.repeating {
                self.elapsed_ms = e % self.duration_ms;
            } else {
                self.elapsed_ms = self.duration_ms;
            }
            self.finished = true;
            self.just_finished = true;
        } else {
            self.elapsed_ms = e;
            self.finished = false;
            self.just_finished = false;
        }
    }

    /// Start the current period over.
    pub fn reset(&mut self)
        ensures
            *final(self) == (Timer {
                elapsed_ms: 0,
                finished: false,
                just_finished: false,
                ..*old(self)
            }),
    {
        self.elapsed_ms = 0;
        self.finished = false;
        self.just_finished = false;
    }

    /// Change the period; the elapsed time is kept.
    pub fn set_duration(&mut self, duration_ms: u64)
        requires
            duration_ms >= 1,
        ensures
            *final(self) == (Timer { duration_ms, ..*old(self) }),
            timer_wf(*final(self)),
    {
        self.duration_ms = duration_ms;
    }
}

} // verus!

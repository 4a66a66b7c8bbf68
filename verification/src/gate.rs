//! The fixed-interval throttle that caps the render rate.
//!
//! A render cycle may run only when at least one target period has passed
//! since the last cycle. Firing records the current instant, not the ideal
//! next tick, so scheduling drift does not compound; under sustained
//! overload the effective rate falls smoothly below the target instead of
//! bursting to catch up.

use vstd::prelude::*;
use crate::clock::span_micros;

verus! {

/// Throttle state: at most one firing per target period.
pub struct TimingGate {
    /// Minimum separation between firings, in microseconds.
    pub target_period_micros: u64,
    /// Clock reading at the most recent firing; meaningful only once
    /// `has_fired` is set.
    pub last_fired_micros: u64,
    /// Whether the throttle has fired at least once. The first attempt always
    /// fires.
    pub has_fired: bool,
}

impl TimingGate {
    /// Whether an attempt at reading `now` passes the throttle.
    pub open spec fn fires(self, now: u64) -> bool {
        !self.has_fired || span_micros(self.last_fired_micros, now) >= self.target_period_micros
    }

    /// The throttle state after a firing at reading `now`.
    pub open spec fn after_fire(self, now: u64) -> TimingGate {
        TimingGate { last_fired_micros: now, has_fired: true, ..self }
    }

    /// A throttle that has never fired, with the given target period.
    pub fn new(target_period_micros: u64) -> (g: TimingGate)
        ensures
            g.target_period_micros == target_period_micros,
            !g.has_fired,
    {
        TimingGate { target_period_micros, last_fired_micros: 0, has_fired: false }
    }

    /// Attempt to fire at reading `now_micros`. Fires exactly when the
    /// throttle is open: on the first attempt ever, or once at least one
    /// target period has elapsed since the previous firing. A firing
    /// records `now_micros`; a rejected attempt changes nothing.
    pub fn try_fire(&mut self, now_micros: u64) -> (fired: bool)
        ensures
            fired == old(self).fires(now_micros),
            fired ==> *final(self) == old(self).after_fire(now_micros),
            !fired ==> *final(self) == *old(self),
    {
        let elapsed: u64 = if now_micros >= self.last_fired_micros {
            now_micros - self.last_fired_micros
        } else {
            0
        };
        if !self.has_fired || elapsed >= self.target_period_micros {
            self.last_fired_micros = now_micros;
            self.has_fired = true;
            true
        } else {
            false
        }
    }
}

/// Consecutive firings are separated by at least the target period: when
/// the throttle fires at reading `t1` and the very next firing happens at
/// reading `t2`, then `t2` lies at least one full period after `t1`.
pub proof fn lemma_firings_separated(g: TimingGate, t1: u64, t2: u64)
    requires
        g.target_period_micros > 0,
        g.fires(t1),
        g.after_fire(t1).fires(t2),
    ensures
        t2 >= t1 + g.target_period_micros,
{
}

} // verus!

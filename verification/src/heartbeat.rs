//! The schedule of the heartbeat: ticks at fixed distances from the origin
//! of the recording.

use crate::time::{Duration, Instant};
use vstd::prelude::*;

verus! {

/// The schedule of one heartbeat: tick number `step` is due at
/// `origin + step * interval`, whenever the ticks before it fired.
#[derive(Clone, Copy, Debug, PartialEq, Eq, Structural)]
pub struct Heartbeat {
    /// The origin of the recording.
    pub origin: Instant,
    /// The distance between two ticks.
    pub interval: Duration,
    /// The number of the next tick; the first is tick 1.
    pub step: u64,
}

impl Heartbeat {
    /// The clock reading at which the next tick is due, in nanoseconds.
    pub open spec fn target(self) -> nat {
        (self.origin.nanos + self.step * self.interval.nanos) as nat
    }

    /// Whether there is a next tick: its number fits 32 bits and its due
    /// time fits the clock.
    pub open spec fn has_next(self) -> bool {
        self.step <= u32::MAX && self.target() <= u128::MAX
    }

    /// How long to wait at `now` for the next tick: until its due time, or
    /// not at all when that has passed.
    pub open spec fn wait_at(self, now: Instant) -> nat {
        if self.target() > now.nanos {
            (self.target() - now.nanos) as nat
        } else {
            0
        }
    }

    /// The schedule once the next tick has fired.
    pub open spec fn advanced(self) -> Heartbeat {
        Heartbeat { step: (self.step + 1) as u64, ..self }
    }

    /// The schedule that starts at `origin`; its next tick is the first.
    pub fn new(origin: Instant, interval: Duration) -> (r: Heartbeat)
        ensures
            r == (Heartbeat { origin, interval, step: 1 }),
    {
        Heartbeat { origin, interval, step: 1 }
    }

    /// Takes the next tick off the schedule and says how long to wait for
    /// it at `now`: until its due time, or not at all when that has passed.
    /// A tick that is late is neither dropped nor made up for: the ticks
    /// after it stay due at their own distances from the origin. Without a
    /// next tick the result is `None` and the schedule stays as it is.
    pub fn tick(&mut self, now: Instant) -> (wait: Option<Duration>)
        ensures
            old(self).has_next() ==> wait == Some(
                (Duration { nanos: old(self).wait_at(now) as u128 }),
            ) && *final(self) == old(self).advanced(),
            !old(self).has_next() ==> wait is None && *final(self) == *old(self),
    {
        if self.step > 4_294_967_295 {
            return None;
        }
        let times: u32 = self.step as u32;
        assert(self.interval.nanos * times == self.step * self.interval.nanos) by (nonlinear_arith)
            requires
                times == self.step,
        ;
        let offset = match self.interval.checked_mul(times) {
            Some(offset) => offset,
            None => {
                return None;
            },
        };
        let target = match self.origin.checked_add(offset) {
            Some(target) => target,
            None => {
                return None;
            },
        };
        self.step = self.step + 1;
        Some(target.duration_since(now))
    }
}

/// The schedule after `ticks` ticks have fired.
pub open spec fn after_ticks(start: Heartbeat, ticks: nat) -> Heartbeat
    decreases ticks,
{
    if ticks == 0 {
        start
    } else {
        after_ticks(start, (ticks - 1) as nat).advanced()
    }
}

/// The schedule does not drift: however late the ticks before it fired, a
/// tick is due at its own distance from the origin, one interval after the
/// tick before it.
pub proof fn lemma_schedule_does_not_drift(start: Heartbeat, ticks: nat)
    requires
        start.step + ticks <= u64::MAX,
    ensures
        after_ticks(start, ticks).origin == start.origin,
        after_ticks(start, ticks).interval == start.interval,
        after_ticks(start, ticks).step == start.step + ticks,
        after_ticks(start, ticks).target() == start.origin.nanos + (start.step + ticks)
            * start.interval.nanos,
    decreases ticks,
{
    if ticks > 0 {
        lemma_schedule_does_not_drift(start, (ticks - 1) as nat);
    }
}

/// A tick never fires before it is due, and a tick that is not late fires
/// exactly when it is due: waiting as long as the schedule says ends at the
/// due time or, for a late tick, at once.
pub proof fn lemma_wait_ends_when_due(schedule: Heartbeat, now: Instant)
    ensures
        now.nanos + schedule.wait_at(now) >= schedule.target(),
        now.nanos <= schedule.target() ==> now.nanos + schedule.wait_at(now) == schedule.target(),
        now.nanos >= schedule.target() ==> schedule.wait_at(now) == 0,
{
}

} // verus!

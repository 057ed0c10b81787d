//! Spans of time and clock readings as plain nanosecond counts.

use vstd::prelude::*;

verus! {

/// A span of time, counted in nanoseconds.
#[derive(Clone, Copy, Debug, PartialEq, Eq, Structural)]
pub struct Duration {
    pub nanos: u128,
}

/// A reading of a monotonic clock: the nanoseconds since the clock's epoch.
#[derive(Clone, Copy, Debug, PartialEq, Eq, Structural)]
pub struct Instant {
    pub nanos: u128,
}

/// `nanos` counted in units of `unit` nanoseconds, rounded to the nearest
/// unit; a value halfway between two units goes up.
pub open spec fn rounded_units(nanos: nat, unit: nat) -> nat
    recommends
        unit > 0,
{
    (nanos + unit / 2) / unit
}

/// The span from `earlier` to `later`, zero when `later` is not after
/// `earlier`.
pub open spec fn span_between(later: Instant, earlier: Instant) -> nat {
    if later.nanos >= earlier.nanos {
        (later.nanos - earlier.nanos) as nat
    } else {
        0
    }
}

impl Duration {
    /// The empty span.
    pub fn zero() -> (d: Duration)
        ensures
            d.nanos == 0,
    {
        Duration { nanos: 0 }
    }

    /// A span of whole seconds.
    pub fn from_secs(secs: u64) -> (d: Duration)
        ensures
            d.nanos == secs * 1_000_000_000,
    {
        let wide: u128 = secs as u128;
        Duration { nanos: wide * 1_000_000_000 }
    }

    /// A span of whole milliseconds.
    pub fn from_millis(millis: u64) -> (d: Duration)
        ensures
            d.nanos == millis * 1_000_000,
    {
        let wide: u128 = millis as u128;
        Duration { nanos: wide * 1_000_000 }
    }

    /// The span taken `times` times, where it fits.
    pub fn checked_mul(self, times: u32) -> (r: Option<Duration>)
        ensures
            self.nanos * times <= u128::MAX ==> r == Some(
                (Duration { nanos: (self.nanos * times) as u128 }),
            ),
            self.nanos * times > u128::MAX ==> r is None,
    {
        let wide: u128 = times as u128;
        if wide == 0 {
            assert(self.nanos * times == 0) by (nonlinear_arith)
                requires
                    times == 0,
            ;
            Some(Duration { nanos: 0 })
        } else if self.nanos <= u128::MAX / wide {
            assert(self.nanos * times <= u128::MAX) by (nonlinear_arith)
                requires
                    self.nanos <= u128::MAX / wide,
                    wide == times,
                    wide > 0,
            ;
            Some(Duration { nanos: self.nanos * wide })
        } else {
            assert(self.nanos * times > u128::MAX) by (nonlinear_arith)
                requires
                    self.nanos > u128::MAX / wide,
                    wide == times,
                    wide > 0,
            ;
            None
        }
    }

    /// The span in milliseconds, rounded to the nearest.
    pub fn rounded_millis(self) -> (m: u128)
        ensures
            m == rounded_units(self.nanos as nat, 1_000_000),
    {
        let whole: u128 = self.nanos / 1_000_000;
        if self.nanos % 1_000_000 >= 500_000 {
            whole + 1
        } else {
            whole
        }
    }

    /// The span in microseconds, rounded to the nearest.
    pub fn rounded_micros(self) -> (m: u128)
        ensures
            m == rounded_units(self.nanos as nat, 1_000),
    {
        let whole: u128 = self.nanos / 1_000;
        if self.nanos % 1_000 >= 500 {
            whole + 1
        } else {
            whole
        }
    }
}

impl Instant {
    /// The span from `earlier` to this reading; zero when `earlier` is the
    /// later of the two.
    pub fn duration_since(self, earlier: Instant) -> (d: Duration)
        ensures
            d.nanos == span_between(self, earlier),
    {
        if self.nanos >= earlier.nanos {
            Duration { nanos: self.nanos - earlier.nanos }
        } else {
            Duration { nanos: 0 }
        }
    }

    /// The reading `span` after this one, where it fits.
    pub fn checked_add(self, span: Duration) -> (r: Option<Instant>)
        ensures
            self.nanos + span.nanos <= u128::MAX ==> r == Some(
                (Instant { nanos: (self.nanos + span.nanos) as u128 }),
            ),
            self.nanos + span.nanos > u128::MAX ==> r is None,
    {
        if self.nanos <= u128::MAX - span.nanos {
            Some(Instant { nanos: self.nanos + span.nanos })
        } else {
            None
        }
    }
}

} // verus!

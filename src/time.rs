use vstd::prelude::*;

verus! {

/// A point on a monotonic time line, counted in nanoseconds from the
/// origin of the clock that produced it.
#[derive(Clone, Copy, Debug, PartialEq, Eq, Structural)]
pub struct Instant {
    pub nanos: u64,
}

/// A non-negative span of time, in nanoseconds.
#[derive(Clone, Copy, Debug, PartialEq, Eq, Structural)]
pub struct Duration {
    pub nanos: u64,
}

/// The time elapsed from `earlier` to `later`, or zero where `later`
/// does not come after `earlier` (a clock that went backwards saturates).
pub open spec fn span(earlier: Instant, later: Instant) -> nat {
    if later.nanos >= earlier.nanos {
        (later.nanos - earlier.nanos) as nat
    } else {
        0
    }
}

impl Instant {
    pub fn from_nanos(nanos: u64) -> (r: Instant)
        ensures
            r.nanos == nanos,
    {
        Instant { nanos }
    }

    pub fn as_nanos(&self) -> (r: u64)
        ensures
            r == self.nanos,
    {
        self.nanos
    }

    /// The time elapsed from `earlier` to `self`, saturating at zero.
    pub fn duration_since(&self, earlier: Instant) -> (r: Duration)
        ensures
            r.nanos == span(earlier, *self),
    {
        if self.nanos >= earlier.nanos {
            Duration { nanos: self.nanos - earlier.nanos }
        } else {
            Duration { nanos: 0 }
        }
    }
}

impl Duration {
    pub fn from_nanos(nanos: u64) -> (r: Duration)
        ensures
            r.nanos == nanos,
    {
        Duration { nanos }
    }

    pub fn as_nanos(&self) -> (r: u64)
        ensures
            r == self.nanos,
    {
        self.nanos
    }
}

/// The reading that follows `last` when the underlying clock shows `raw`
/// nanoseconds: `raw`, cut down to the largest `u64`, and never earlier
/// than `last`.
pub fn next_reading(last: Instant, raw: u128) -> (r: Instant)
    ensures
        r.nanos == if raw > u64::MAX as u128 {
            u64::MAX
        } else if (raw as u64) < last.nanos {
            last.nanos
        } else {
            raw as u64
        },
{
    let nanos: u64 = if raw > u64::MAX as u128 {
        u64::MAX
    } else {
        raw as u64
    };
    if nanos < last.nanos {
        last
    } else {
        Instant { nanos }
    }
}

#[verifier::external_type_specification]
#[verifier::external_body]
pub struct ExStdInstant(std::time::Instant);

/// Relies on std::time::Instant::now: a reading of the operating system's
/// monotonic clock. Nothing is promised of the value.
pub assume_specification[ std::time::Instant::now ]() -> (r: std::time::Instant);

/// Relies on std::time::Instant::elapsed: the time since the given reading.
/// It depends on the clock, so nothing is promised of the value.
pub assume_specification[ std::time::Instant::elapsed ](i: &std::time::Instant) -> (r: core::time::Duration);

/// Relies on core::time::Duration::as_nanos: the whole nanoseconds of a span.
pub assume_specification[ core::time::Duration::as_nanos ](d: &core::time::Duration) -> (r: u128);

/// A monotonic clock whose readings never go backwards, even where the
/// underlying clock does.
pub struct Clock {
    origin: std::time::Instant,
    last: Instant,
}

impl Clock {
    /// The most recent reading handed out (the origin before any reading).
    pub closed spec fn latest(&self) -> Instant {
        self.last
    }

    /// A clock whose origin is the present moment.
    pub fn new() -> (r: Clock)
        ensures
            r.latest().nanos == 0,
    {
        Clock { origin: std::time::Instant::now(), last: Instant { nanos: 0 } }
    }

    /// Reads the clock. The reading is never earlier than the previous one;
    /// a time beyond the range of `u64` nanoseconds reads as the largest one.
    pub fn now(&mut self) -> (r: Instant)
        ensures
            r.nanos >= old(self).latest().nanos,
            final(self).latest() == r,
    {
        let elapsed = self.origin.elapsed();
        let reading = next_reading(self.last, elapsed.as_nanos());
        self.last = reading;
        reading
    }
}

} // verus!

use vstd::prelude::*;
use crate::time::{span, Clock, Duration, Instant};

verus! {

/// Timing statistics of one object handed out by a pool.
#[derive(Clone, Copy, Debug)]
#[must_use]
pub struct Metrics {
    /// The instant when this object was created
    pub created: Instant,
    /// The instant when this object was last recycled, if ever
    pub recycled: Option<Instant>,
    /// The number of times the object was recycled
    pub recycle_count: usize,
    /// The instant when this object was last requested
    pub requested: Instant,
    /// The instant when this object was last acquired
    pub acquired: Instant,
}

/// A record made at `now`: every instant is `now`, nothing recycled yet.
pub open spec fn fresh(now: Instant) -> Metrics {
    Metrics {
        created: now,
        recycled: None,
        recycle_count: 0,
        requested: now,
        acquired: now,
    }
}

/// `m` after a request for the object at `now`.
pub open spec fn after_request(m: Metrics, now: Instant) -> Metrics {
    Metrics { requested: now, ..m }
}

/// `m` after the object was handed to a caller at `now`.
pub open spec fn after_acquire(m: Metrics, now: Instant) -> Metrics {
    Metrics { acquired: now, ..m }
}

/// `m` after the object was returned to the pool for reuse at `now`.
pub open spec fn after_recycle(m: Metrics, now: Instant) -> Metrics {
    Metrics { recycled: Some(now), recycle_count: (m.recycle_count + 1) as usize, ..m }
}

/// `m` after one recycle at each instant of `times`, in order.
pub open spec fn after_recycles(m: Metrics, times: Seq<Instant>) -> Metrics
    decreases times.len(),
{
    if times.len() == 0 {
        m
    } else {
        after_recycle(after_recycles(m, times.drop_last()), times.last())
    }
}

/// A record made at `now` was never recycled, and at `now` its age is zero.
pub proof fn fresh_record_is_unused(now: Instant)
    ensures
        fresh(now).recycle_count == 0,
        fresh(now).recycled is None,
        fresh(now).age_spec(now) == 0,
        fresh(now).well_formed(),
{
}

/// A record has a create latency exactly when it was never recycled.
pub proof fn create_latency_iff_never_recycled(m: Metrics)
    ensures
        m.create_latency_spec() is Some <==> m.recycle_count == 0,
{
}

/// After one recycle at each of `times`, the count has grown by their
/// number and the last recycle is the latest of them.
pub proof fn recycles_are_counted(m: Metrics, times: Seq<Instant>)
    requires
        m.recycle_count + times.len() <= usize::MAX,
    ensures
        after_recycles(m, times).recycle_count == m.recycle_count + times.len(),
        times.len() > 0 ==> after_recycles(m, times).recycled == Some(times.last()),
        times.len() == 0 ==> after_recycles(m, times) == m,
    decreases times.len(),
{
    if times.len() > 0 {
        recycles_are_counted(m, times.drop_last());
    }
}

/// A record made at `created` and then recycled at each of `times` has been
/// recycled exactly as often as `times` is long, last at its last instant.
pub proof fn fresh_record_recycles(created: Instant, times: Seq<Instant>)
    requires
        times.len() <= usize::MAX,
    ensures
        after_recycles(fresh(created), times).recycle_count == times.len(),
        times.len() > 0 ==> after_recycles(fresh(created), times).recycled == Some(times.last()),
{
    recycles_are_counted(fresh(created), times);
}

/// Whatever cycles came before, a request at `requested` followed by an
/// acquisition at `acquired` gives the span between those two instants as
/// the acquisition latency.
pub proof fn latency_of_latest_cycle(m: Metrics, requested: Instant, acquired: Instant)
    ensures
        after_acquire(after_request(m, requested), acquired).acquisition_latency_spec()
            == span(requested, acquired),
{
}

/// Recycles before a request and after the acquisition that follows it
/// leave the acquisition latency at the span of that last cycle.
pub proof fn latency_ignores_recycles(
    m: Metrics,
    before: Seq<Instant>,
    requested: Instant,
    acquired: Instant,
    after: Seq<Instant>,
)
    ensures
        after_recycles(
            after_acquire(after_request(after_recycles(m, before), requested), acquired),
            after,
        ).acquisition_latency_spec() == span(requested, acquired),
{
    recycles_keep_latency(
        after_acquire(after_request(after_recycles(m, before), requested), acquired),
        after,
    );
}

/// Recycling leaves the request and acquisition instants as they were.
pub proof fn recycles_keep_latency(m: Metrics, times: Seq<Instant>)
    ensures
        after_recycles(m, times).requested == m.requested,
        after_recycles(m, times).acquired == m.acquired,
    decreases times.len(),
{
    if times.len() > 0 {
        recycles_keep_latency(m, times.drop_last());
    }
}

/// A record made at `t0`, requested at `t0`, acquired 5 ms later and
/// recycled at 100 ms: the acquisition took 5 ms, creation took no time
/// until the recycle, after which there is no create latency, the count is
/// one, and at 150 ms the object has been idle for 50 ms.
pub proof fn request_acquire_recycle_timeline(t0: Instant)
    requires
        t0.nanos + 150_000_000 <= u64::MAX,
    ensures
        ({
            let acquired = after_acquire(
                after_request(fresh(t0), t0),
                Instant { nanos: (t0.nanos + 5_000_000) as u64 },
            );
            let recycled = after_recycle(
                acquired,
                Instant { nanos: (t0.nanos + 100_000_000) as u64 },
            );
            &&& acquired.acquisition_latency_spec() == 5_000_000
            &&& acquired.create_latency_spec() == Some(0nat)
            &&& recycled.recycle_count == 1
            &&& recycled.create_latency_spec() is None
            &&& recycled.last_used_spec(Instant { nanos: (t0.nanos + 150_000_000) as u64 })
                == 50_000_000
        }),
{
}

/// Before any recycle the idle time is the age; after one it is measured
/// from the last recycle.
pub proof fn last_used_anchor(m: Metrics, now: Instant)
    ensures
        m.recycled is None ==> m.last_used_spec(now) == m.age_spec(now),
        m.recycled matches Some(r) ==> m.last_used_spec(now) == span(r, now),
{
}

impl Metrics {
    /// A recycled object was never recycled before its creation.
    pub open spec fn well_formed(&self) -> bool {
        match self.recycled {
            Some(r) => r.nanos >= self.created.nanos,
            None => true,
        }
    }

    /// The instant from which idleness is measured: the last recycle, or
    /// the creation where the object was never recycled.
    pub open spec fn last_use(&self) -> Instant {
        match self.recycled {
            Some(r) => r,
            None => self.created,
        }
    }

    pub open spec fn age_spec(&self, now: Instant) -> nat {
        span(self.created, now)
    }

    pub open spec fn last_used_spec(&self, now: Instant) -> nat {
        span(self.last_use(), now)
    }

    pub open spec fn acquisition_latency_spec(&self) -> nat {
        span(self.requested, self.acquired)
    }

    pub open spec fn create_latency_spec(&self) -> Option<nat> {
        if self.recycle_count == 0 {
            Some(span(self.requested, self.created))
        } else {
            None
        }
    }

    /// The record of an object created at `now`, not yet explicitly requested.
    pub fn new(now: Instant) -> (r: Metrics)
        ensures
            r == fresh(now),
            r.well_formed(),
    {
        Metrics {
            created: now,
            recycled: None,
            recycle_count: 0,
            requested: now,
            acquired: now,
        }
    }

    /// The record of an object created now, by a reading of `clock`.
    pub fn new_from(clock: &mut Clock) -> (r: Metrics)
        ensures
            final(clock).latest().nanos >= old(clock).latest().nanos,
            r == fresh(final(clock).latest()),
    {
        let now = clock.now();
        Metrics::new(now)
    }

    /// The age of this object at `now`.
    pub fn age_at(&self, now: Instant) -> (r: Duration)
        ensures
            r.nanos == self.age_spec(now),
    {
        now.duration_since(self.created)
    }

    /// The age of this object, by a reading of `clock`.
    pub fn age(&self, clock: &mut Clock) -> (r: Duration)
        ensures
            final(clock).latest().nanos >= old(clock).latest().nanos,
            r.nanos == self.age_spec(final(clock).latest()),
    {
        let now = clock.now();
        self.age_at(now)
    }

    /// The time this object has been idle at `now`: since its last recycle,
    /// or since its creation where it was never recycled.
    pub fn last_used_at(&self, now: Instant) -> (r: Duration)
        ensures
            r.nanos == self.last_used_spec(now),
    {
        let since = match self.recycled {
            Some(r) => r,
            None => self.created,
        };
        now.duration_since(since)
    }

    /// The time this object has been idle, by a reading of `clock`.
    pub fn last_used(&self, clock: &mut Clock) -> (r: Duration)
        ensures
            final(clock).latest().nanos >= old(clock).latest().nanos,
            r.nanos == self.last_used_spec(final(clock).latest()),
    {
        let now = clock.now();
        self.last_used_at(now)
    }

    /// The time from the last request of this object to its acquisition.
    pub fn acquisition_latency(&self) -> (r: Duration)
        ensures
            r.nanos == self.acquisition_latency_spec(),
    {
        self.acquired.duration_since(self.requested)
    }

    /// The time from the request to the creation of this object, where it
    /// was made new rather than recycled.
    pub fn create_latency(&self) -> (r: Option<Duration>)
        ensures
            r is Some <==> self.recycle_count == 0,
            r matches Some(d) ==> self.create_latency_spec() == Some(d.nanos as nat),
    {
        if self.recycle_count > 0 {
            return None;
        }
        Some(self.created.duration_since(self.requested))
    }

    /// Marks a request for this object at `now`.
    pub fn request(&mut self, now: Instant)
        ensures
            *final(self) == after_request(*old(self), now),
    {
        self.requested = now;
    }

    /// Marks the hand-off of this object to a caller at `now`.
    pub fn acquire(&mut self, now: Instant)
        ensures
            *final(self) == after_acquire(*old(self), now),
    {
        self.acquired = now;
    }

    /// Marks the return of this object to the pool for reuse at `now`.
    pub fn recycle(&mut self, now: Instant)
        requires
            old(self).recycle_count < usize::MAX,
        ensures
            *final(self) == after_recycle(*old(self), now),
            final(self).recycle_count == old(self).recycle_count + 1,
            old(self).well_formed() && now.nanos >= old(self).created.nanos
                ==> final(self).well_formed(),
    {
        self.recycled = Some(now);
        self.recycle_count = self.recycle_count + 1;
    }
}

} // verus!

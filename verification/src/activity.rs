//! Tracks when a client last asked for metrics.
//!
//! Time enters the library as a millisecond count supplied by the caller, so
//! the whole feedback loop between request handling and the refresher is
//! verified over an explicit clock.  The recorded instant never moves
//! backward: concurrent touches may race, but the tracker only needs the most
//! recent one, so each update keeps the maximum of the old and new instants.

use vstd::prelude::*;
use vstd::rwlock::RwLock;
use vstd::rwlock::RwLockPredicate;

verus! {

/// The last-activity instant after a touch at instant `now` on top of a
/// recorded instant `last`: the later of the two.
pub open spec fn touched(last: u64, now: u64) -> u64 {
    if now >= last {
        now
    } else {
        last
    }
}

/// Elapsed idle time at instant `now` for a last-activity instant `last`:
/// zero when `now` is not past `last`, their distance otherwise.
pub open spec fn idle_span(last: u64, now: u64) -> int {
    if now >= last {
        now - last
    } else {
        0
    }
}

/// Records the instant, in caller-supplied milliseconds, of the most recent
/// metrics request (or of process start, before any request).
pub struct ActivityTracker {
    last: u64,
}

impl ActivityTracker {
    /// The recorded instant of the most recent activity.
    pub closed spec fn last_seen(self) -> u64 {
        self.last
    }

    /// A tracker that counts process start, at instant `now`, as activity.
    pub fn new(now: u64) -> (r: Self)
        ensures
            r.last_seen() == now,
    {
        ActivityTracker { last: now }
    }

    /// Records activity at instant `now`.  The recorded instant never
    /// decreases, so a touch that lost a race with a later one is dropped.
    pub fn touch(&mut self, now: u64)
        ensures
            final(self).last_seen() == touched(old(self).last_seen(), now),
            final(self).last_seen() >= old(self).last_seen(),
            idle_span(final(self).last_seen(), now) == 0,
    {
        if now > self.last {
            self.last = now;
        }
    }

    /// How long no activity has been seen, as of instant `now`.
    pub fn idle_for(&self, now: u64) -> (d: u64)
        ensures
            d == idle_span(self.last_seen(), now),
    {
        if now >= self.last {
            now - self.last
        } else {
            0
        }
    }
}

/// The lock invariant of the shared tracker: any recorded instant is a
/// legitimate tracker state.
pub struct TrackerPred;

impl RwLockPredicate<ActivityTracker> for TrackerPred {
    open spec fn inv(self, t: ActivityTracker) -> bool {
        true
    }
}

/// The tracker behind its own lock, independent of the snapshot cache's, so
/// request handling never blocks on refresh work and vice versa.  Touches
/// from concurrent requests land in some order; each keeps the maximum, so
/// the recorded instant never moves backward.
pub struct SharedTracker {
    lock: RwLock<ActivityTracker, TrackerPred>,
}

impl SharedTracker {
    /// The lock admits every tracker state.
    pub closed spec fn wf(self) -> bool {
        self.lock.pred() == (TrackerPred)
    }

    /// A shared tracker that counts process start, at instant `now`, as
    /// activity.
    pub fn new(now: u64) -> (r: Self)
        ensures
            r.wf(),
    {
        let t = ActivityTracker::new(now);
        SharedTracker { lock: RwLock::new(t, Ghost(TrackerPred)) }
    }

    /// Records activity at instant `now` under the lock.
    pub fn touch(&self, now: u64)
        requires
            self.wf(),
    {
        let (mut t, handle) = self.lock.acquire_write();
        t.touch(now);
        handle.release_write(t);
    }

    /// How long no activity has been seen, as of instant `now`: the idle
    /// span of whatever instant the tracker held when the lock was read.
    pub fn idle_for(&self, now: u64) -> (d: u64)
        requires
            self.wf(),
        ensures
            exists|last: u64| d == idle_span(last, now),
    {
        let handle = self.lock.acquire_read();
        let d = handle.borrow().idle_for(now);
        handle.release_read();
        d
    }
}

/// Immediately after a touch at instant `now`, the idle time observed at that
/// same instant is zero.
pub proof fn lemma_idle_zero_after_touch(t: ActivityTracker, now: u64)
    requires
        t.last_seen() >= now,
    ensures
        idle_span(t.last_seen(), now) == 0,
{
}

/// Between touches the idle time is monotone: with the last-activity instant
/// fixed, a later observation never reports a shorter idle span.
pub proof fn lemma_idle_monotone(last: u64, n1: u64, n2: u64)
    requires
        n1 <= n2,
    ensures
        idle_span(last, n1) <= idle_span(last, n2),
{
}

} // verus!

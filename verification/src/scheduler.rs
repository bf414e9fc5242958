//! The adaptive refresh policy.
//!
//! One background loop is the only writer of the snapshot cache.  Each cycle
//! it observes how long clients have been quiet and decides how many provider
//! samples to take and how long to sleep.  While clients are active it
//! samples once per cycle; once they have been quiet past the threshold it
//! stops sampling and only polls briefly for renewed activity; on the first
//! active cycle after an idle stretch it samples twice, so that the first
//! value served after a dormant period reflects a short, current interval
//! rather than the whole idle gap.  The loop itself (thread, sleep, provider
//! call) is the caller's; every decision is made here.

use vstd::prelude::*;

use crate::cache::SharedCache;
use crate::cache::SnapshotCache;
use crate::cache::make_placeholder;
use crate::cache::placeholder_doc;

verus! {

/// Sleep between cycles while a client has been seen recently, in ms.
pub const ACTIVE_INTERVAL_MS: u64 = 5000;

/// Sleep between idleness checks while no client has been seen, in ms.
pub const IDLE_INTERVAL_MS: u64 = 500;

/// Quiet time beyond which sampling stops, in ms.
pub const IDLE_THRESHOLD_MS: u64 = 600000;

/// The scheduler's state between cycles.
#[derive(Clone, Copy, PartialEq, Eq, Structural, Debug)]
pub enum SchedulerMode {
    /// A client has been seen recently; sample once per cycle.
    Active,
    /// No client within the threshold; do not sample.
    Idle,
    /// First cycle after an idle stretch; sample twice, then settle Active.
    Resuming,
}

/// What one cycle of the background loop must do.
#[derive(Clone, Copy, PartialEq, Eq, Structural, Debug)]
pub struct CyclePlan {
    /// How many provider samples to take this cycle: 0, 1 or 2.
    pub samples: u64,
    /// How long to sleep after this cycle, in ms.
    pub sleep_ms: u64,
}

/// The mode a cycle runs in, given the mode it started from and the idle
/// time observed at its start.
pub open spec fn observed_mode(m: SchedulerMode, idle_ms: u64) -> SchedulerMode {
    if idle_ms >= IDLE_THRESHOLD_MS {
        SchedulerMode::Idle
    } else if m is Active {
        SchedulerMode::Active
    } else {
        SchedulerMode::Resuming
    }
}

/// How many provider samples a cycle in mode `m` takes.
pub open spec fn samples_of(m: SchedulerMode) -> int {
    match m {
        SchedulerMode::Active => 1,
        SchedulerMode::Idle => 0,
        SchedulerMode::Resuming => 2,
    }
}

/// How long a cycle in mode `m` sleeps afterwards, in ms.
pub open spec fn sleep_of(m: SchedulerMode) -> u64 {
    if m is Idle {
        IDLE_INTERVAL_MS
    } else {
        ACTIVE_INTERVAL_MS
    }
}

/// The mode left behind once a cycle in mode `m` has run: resuming settles
/// back to active, the others persist.
pub open spec fn settled_mode(m: SchedulerMode) -> SchedulerMode {
    if m is Resuming {
        SchedulerMode::Active
    } else {
        m
    }
}

/// Decides, cycle by cycle, when the metrics provider is sampled.
pub struct RefreshScheduler {
    mode: SchedulerMode,
}

impl RefreshScheduler {
    /// The mode the next cycle starts from.
    pub closed spec fn mode(self) -> SchedulerMode {
        self.mode
    }

    /// A fresh scheduler.  It starts active: the process assumes freshly
    /// seen activity and samples immediately rather than waiting idle.
    pub fn new() -> (r: Self)
        ensures
            r.mode() is Active,
    {
        RefreshScheduler { mode: SchedulerMode::Active }
    }

    /// Decides what the cycle beginning now, with `idle_ms` of client
    /// quiet observed, must do, and moves to the mode the next cycle starts
    /// from.
    pub fn plan(&mut self, idle_ms: u64) -> (p: CyclePlan)
        ensures
            p.samples == samples_of(observed_mode(old(self).mode(), idle_ms)),
            p.sleep_ms == sleep_of(observed_mode(old(self).mode(), idle_ms)),
            final(self).mode() == settled_mode(observed_mode(old(self).mode(), idle_ms)),
            idle_ms >= IDLE_THRESHOLD_MS ==> p.samples == 0,
            idle_ms < IDLE_THRESHOLD_MS && old(self).mode() is Active ==> p.samples == 1,
            idle_ms < IDLE_THRESHOLD_MS && !(old(self).mode() is Active) ==> p.samples == 2,
            idle_ms < IDLE_THRESHOLD_MS ==> final(self).mode() is Active,
    {
        if idle_ms >= IDLE_THRESHOLD_MS {
            self.mode = SchedulerMode::Idle;
            CyclePlan { samples: 0, sleep_ms: IDLE_INTERVAL_MS }
        } else if matches!(self.mode, SchedulerMode::Active) {
            CyclePlan { samples: 1, sleep_ms: ACTIVE_INTERVAL_MS }
        } else {
            self.mode = SchedulerMode::Active;
            CyclePlan { samples: 2, sleep_ms: ACTIVE_INTERVAL_MS }
        }
    }
}

/// Whether the outcome of a cycle's sample number `i` (counting from zero)
/// is published: the cycle's last sample is, and an earlier (priming) sample
/// of a resume cycle is discarded after refreshing the provider's
/// delta-based fields.
pub open spec fn publish_at(samples: u64, i: u64) -> bool {
    samples >= 1 && i == samples - 1
}

/// Decides whether sample number `i` of a cycle that takes `samples`
/// samples publishes its outcome.  Only the cycle's last sample does: the
/// first sample of a resume cycle exists for its side effect alone, so that
/// the first value served after a dormant period reflects a short, current
/// interval rather than the whole idle gap.
pub fn should_publish(samples: u64, i: u64) -> (r: bool)
    ensures
        r == publish_at(samples, i),
{
    samples >= 1 && i == samples - 1
}

/// What one refresh cycle got back from the provider and the serializer.
pub enum SampleOutcome {
    /// The provider sampled and the snapshot serialized: the payload to publish.
    Sampled(Vec<u8>),
    /// The snapshot could not be serialized: publish the safe fallback.
    SerializeFailed,
    /// The provider itself failed: publish nothing, retry next cycle.
    ProviderFailed,
}

/// Publishes one cycle's outcome into the cache: a sampled payload is
/// published whole, a serialization failure publishes the placeholder
/// fallback, and a provider failure leaves the cache exactly as it was.
pub fn apply_outcome(cache: &mut SnapshotCache, outcome: SampleOutcome)
    requires
        old(cache).wf(),
    ensures
        final(cache).wf(),
        outcome matches SampleOutcome::Sampled(v) ==> {
            &&& final(cache).current() == v@
            &&& final(cache).history() == old(cache).history().push(v@)
        },
        outcome is SerializeFailed ==> {
            &&& final(cache).current() == placeholder_doc()
            &&& final(cache).history() == old(cache).history().push(placeholder_doc())
        },
        outcome is ProviderFailed ==> *final(cache) == *old(cache),
{
    match outcome {
        SampleOutcome::Sampled(v) => {
            cache.write(v);
        },
        SampleOutcome::SerializeFailed => {
            let fallback = make_placeholder();
            cache.write(fallback);
        },
        SampleOutcome::ProviderFailed => {},
    }
}

/// Publishes one cycle's outcome into the shared slot, under its write
/// lock: a provider failure takes the lock and releases it with the cache
/// untouched, the other outcomes publish as [`apply_outcome`] says.
pub fn publish_outcome(cache: &SharedCache, outcome: SampleOutcome)
    requires
        cache.wf(),
{
    match outcome {
        SampleOutcome::Sampled(v) => {
            cache.write(v);
        },
        SampleOutcome::SerializeFailed => {
            let fallback = make_placeholder();
            cache.write(fallback);
        },
        SampleOutcome::ProviderFailed => {},
    }
}

/// Once no client has been seen for the threshold, the next cycle takes the
/// idle branch: it samples nothing and so publishes nothing, whatever mode
/// it started from.
pub proof fn lemma_idle_cycle_samples_nothing(m: SchedulerMode, idle_ms: u64)
    requires
        idle_ms >= IDLE_THRESHOLD_MS,
    ensures
        samples_of(observed_mode(m, idle_ms)) == 0,
        settled_mode(observed_mode(m, idle_ms)) is Idle,
        forall|i: u64| !publish_at(0, i),
{
}

/// How many provider samples a run of cycles takes in all, starting in mode
/// `m` and observing the idle times `idles`, one per cycle in order.
pub open spec fn total_samples(m: SchedulerMode, idles: Seq<u64>) -> int
    decreases idles.len(),
{
    if idles.len() == 0 {
        0
    } else {
        samples_of(observed_mode(m, idles.first())) + total_samples(
            settled_mode(observed_mode(m, idles.first())),
            idles.drop_first(),
        )
    }
}

/// Over a whole window of cycles in which every observed idle time is past
/// the threshold, the provider is never sampled: the invocation count stays
/// at its pre-window value.
pub proof fn lemma_idle_window_samples_nothing(m: SchedulerMode, idles: Seq<u64>)
    requires
        forall|i: int| 0 <= i < idles.len() ==> idles[i] >= IDLE_THRESHOLD_MS,
    ensures
        total_samples(m, idles) == 0,
    decreases idles.len(),
{
    if idles.len() > 0 {
        assert(idles[0] >= IDLE_THRESHOLD_MS);
        assert(forall|i: int|
            0 <= i < idles.drop_first().len() ==> #[trigger] idles.drop_first()[i] == idles[i
                + 1]);
        lemma_idle_window_samples_nothing(
            settled_mode(observed_mode(m, idles.first())),
            idles.drop_first(),
        );
    }
}

/// After at least one idle cycle, the first active cycle samples exactly
/// twice and publishes only after the second sample — the first is
/// discarded, having primed the provider's delta-based fields — and the
/// cycle after it is back to the single-sample, publish-it cadence.
pub proof fn lemma_resume_samples_twice(m: SchedulerMode, quiet: u64, back1: u64, back2: u64)
    requires
        quiet >= IDLE_THRESHOLD_MS,
        back1 < IDLE_THRESHOLD_MS,
        back2 < IDLE_THRESHOLD_MS,
    ensures
        ({
            let idle = settled_mode(observed_mode(m, quiet));
            let resumed = settled_mode(observed_mode(idle, back1));
            &&& samples_of(observed_mode(idle, back1)) == 2
            &&& !publish_at(2, 0)
            &&& publish_at(2, 1)
            &&& samples_of(observed_mode(resumed, back2)) == 1
            &&& publish_at(1, 0)
        }),
{
}


} // verus!

use vstd::prelude::*;

use crate::snapshot::{build_snapshot, initial_snapshot, sample_outcome, ResourceSnapshot, Sample, SampleError, Usage};

verus! {

/// Seconds for which a stored snapshot is served without sampling again.
pub const STALE_AFTER_SECS: i64 = 5;

/// A snapshot captured at second `last_updated` is stale at second `now`
/// when strictly more than five seconds lie between them.
pub open spec fn is_stale(last_updated: int, now: int) -> bool {
    now - last_updated > STALE_AFTER_SECS
}

/// What a request does first.
#[derive(Clone, Copy, Debug, PartialEq)]
pub enum Step<C> {
    /// The stored snapshot is fresh: answer with it, without sampling.
    Serve(ResourceSnapshot<C>),
    /// The stored snapshot is stale: sample the host, then hand the result
    /// to [`SnapshotStore::finish_refresh`].
    Refresh,
}

/// The step that a request at second `now` takes against the stored snapshot.
pub open spec fn step_of<C>(stored: ResourceSnapshot<C>, now: i64) -> Step<C> {
    if is_stale(stored.last_updated as int, now as int) {
        Step::Refresh
    } else {
        Step::Serve(stored)
    }
}

/// The stored snapshot after a refresh at second `now`: the new one where the
/// sampling pass succeeded, else the old one, untouched.
pub open spec fn after_refresh<C>(stored: ResourceSnapshot<C>, sample: Sample<C>, now: i64) -> ResourceSnapshot<C> {
    match sample_outcome(sample, now) {
        Ok(fresh) => fresh,
        Err(_) => stored,
    }
}

/// The one shared snapshot of a process. All access goes through `&mut self`,
/// so a caller that shares the store holds a lock across a whole request:
/// the staleness test, the sampling pass and the replacement.
pub struct SnapshotStore<C> {
    current: ResourceSnapshot<C>,
}

impl<C> SnapshotStore<C> {
    #[verifier::type_invariant]
    spec fn inv(self) -> bool {
        self.current.wf()
    }

    /// The snapshot held now.
    pub closed spec fn stored(self) -> ResourceSnapshot<C> {
        self.current
    }
}

impl<C: Copy> SnapshotStore<C> {
    /// A store holding the all-zero snapshot of second zero, so that the
    /// first request refreshes. `idle_cpu` is the CPU breakdown it holds.
    pub fn new(idle_cpu: C) -> (s: Self)
        ensures
            s.stored() == initial_snapshot(idle_cpu),
    {
        SnapshotStore {
            current: ResourceSnapshot {
                cpu: idle_cpu,
                memory: Usage::zero(),
                swap: Usage::zero(),
                last_updated: 0,
            },
        }
    }

    /// The snapshot held now, whether fresh or not.
    pub fn snapshot(&self) -> (r: ResourceSnapshot<C>)
        ensures
            r == self.stored(),
            r.wf(),
    {
        proof {
            use_type_invariant(self);
        }
        self.current
    }

    pub fn is_stale(&self, now: i64) -> (r: bool)
        ensures
            r == is_stale(self.stored().last_updated as int, now as int),
    {
        (now as i128) - (self.current.last_updated as i128) > (STALE_AFTER_SECS as i128)
    }

    /// The first step of a request at second `now`: serve the stored
    /// snapshot where it is fresh, else ask for a sampling pass.
    pub fn begin(&self, now: i64) -> (r: Step<C>)
        ensures
            r == step_of(self.stored(), now),
            r matches Step::Serve(s) ==> s.wf(),
    {
        if self.is_stale(now) {
            Step::Refresh
        } else {
            Step::Serve(self.snapshot())
        }
    }

    /// Ends a refresh at second `now` with the sampling pass that was taken.
    /// Where every reading succeeded, the stored snapshot is replaced whole by
    /// the new one, which is returned; else the first failure in the order
    /// memory, swap, CPU is returned and the store is left as it was.
    pub fn finish_refresh(&mut self, now: i64, sample: Sample<C>) -> (r: Result<ResourceSnapshot<C>, SampleError>)
        ensures
            r == sample_outcome(sample, now),
            final(self).stored() == after_refresh(old(self).stored(), sample, now),
            r matches Ok(s) ==> final(self).stored() == s && s.wf(),
            r is Err ==> final(self).stored() == old(self).stored(),
    {
        match build_snapshot(&sample, now) {
            Ok(fresh) => {
                self.current = fresh;
                Ok(fresh)
            },
            Err(e) => Err(e),
        }
    }
}

/// The staleness window is closed: a snapshot captured at second `t` is still
/// served at second `t + 5`, and is refreshed at second `t + 6`.
pub proof fn lemma_staleness_boundary<C>(stored: ResourceSnapshot<C>)
    requires
        stored.last_updated + 6 <= i64::MAX,
    ensures
        step_of(stored, (stored.last_updated + 5) as i64) == Step::Serve(stored),
        step_of(stored, (stored.last_updated + 6) as i64) == Step::<C>::Refresh,
{
}

/// Requests that reach the store one after another share one sampling pass:
/// once a refresh at second `now` has succeeded, a request that takes the
/// store at any second up to five later is served the very snapshot that the
/// refresh returned, and samples nothing.
pub proof fn lemma_refresh_serves_followers<C>(
    stored: ResourceSnapshot<C>,
    sample: Sample<C>,
    now: i64,
    later: i64,
)
    requires
        sample_outcome(sample, now) is Ok,
        later - now <= STALE_AFTER_SECS,
    ensures
        step_of(after_refresh(stored, sample, now), later) == Step::Serve(
            sample_outcome(sample, now)->Ok_0,
        ),
{
}

} // verus!

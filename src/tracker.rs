//! The tracking flag and the log of finished sessions that readers copy.

use vstd::prelude::*;
use crate::usage::UsageRecord;

verus! {

/// What a tracking state holds: whether tracking is on, and the records in
/// the order in which they were made.
pub type TrackingModel = (bool, Seq<UsageRecord>);

/// The state after a start request: tracking on, log kept.
pub open spec fn started(v: TrackingModel) -> TrackingModel {
    (true, v.1)
}

/// A start request launches the sampling loop only when tracking was off.
pub open spec fn launches(v: TrackingModel) -> bool {
    !v.0
}

/// The state after a stop request: tracking off, log kept.
pub open spec fn stopped(v: TrackingModel) -> TrackingModel {
    (false, v.1)
}

/// The state after a finished session `u` is handed in: appended while
/// tracking is on, dropped otherwise.
pub open spec fn recorded(v: TrackingModel, u: UsageRecord) -> TrackingModel {
    if v.0 {
        (true, v.1.push(u))
    } else {
        v
    }
}

/// The tracking flag and the append-only log of usage records.
pub struct TrackingState {
    is_tracking: bool,
    usage_log: Vec<UsageRecord>,
}

impl View for TrackingState {
    type V = TrackingModel;

    closed spec fn view(&self) -> TrackingModel {
        (self.is_tracking, self.usage_log@)
    }
}

impl TrackingState {
    /// Tracking off, no records.
    pub fn new() -> (r: Self)
        ensures
            r@ == (false, Seq::<UsageRecord>::empty()),
    {
        TrackingState { is_tracking: false, usage_log: Vec::new() }
    }

    /// Whether tracking is on.
    pub fn is_tracking(&self) -> (r: bool)
        ensures
            r == self@.0,
    {
        self.is_tracking
    }

    /// Turns tracking on. Returns whether the sampling loop has to be
    /// launched: not when tracking was already on.
    pub fn start(&mut self) -> (launch: bool)
        ensures
            final(self)@ == started(old(self)@),
            launch == launches(old(self)@),
    {
        let launch = !self.is_tracking;
        self.is_tracking = true;
        launch
    }

    /// Turns tracking off. Returns whether it was on.
    pub fn stop(&mut self) -> (was_tracking: bool)
        ensures
            final(self)@ == stopped(old(self)@),
            was_tracking == old(self)@.0,
    {
        let was_tracking = self.is_tracking;
        self.is_tracking = false;
        was_tracking
    }

    /// Appends a finished session while tracking is on. Returns whether it
    /// was kept.
    pub fn record(&mut self, usage: UsageRecord) -> (kept: bool)
        ensures
            final(self)@ == recorded(old(self)@, usage),
            kept == old(self)@.0,
    {
        if self.is_tracking {
            self.usage_log.push(usage);
            true
        } else {
            false
        }
    }

    /// A copy of the log, in order.
    pub fn snapshot(&self) -> (r: Vec<UsageRecord>)
        ensures
            r@ == self@.1,
    {
        let mut r: Vec<UsageRecord> = Vec::new();
        let mut i: usize = 0;
        while i < self.usage_log.len()
            invariant
                i <= self.usage_log@.len(),
                r@ == self.usage_log@.subrange(0, i as int),
            decreases self.usage_log@.len() - i,
        {
            r.push(self.usage_log[i].duplicate());
            assert(r@ =~= self.usage_log@.subrange(0, i + 1));
            i = i + 1;
        }
        assert(r@ =~= self.usage_log@);
        r
    }
}

/// Starting twice is starting once: the second request launches nothing and
/// changes nothing. Stopping twice is stopping once.
pub proof fn lemma_start_stop_idempotent(v: TrackingModel)
    ensures
        !launches(started(v)),
        started(started(v)) == started(v),
        stopped(stopped(v)) == stopped(v),
{
}

/// No request removes or alters a record: the log before each request is a
/// prefix of the log after it, so successive snapshots only grow.
pub proof fn lemma_log_only_grows(v: TrackingModel, u: UsageRecord)
    ensures
        started(v).1 == v.1,
        stopped(v).1 == v.1,
        recorded(v, u).1.len() >= v.1.len(),
        recorded(v, u).1.subrange(0, v.1.len() as int) == v.1,
        v.0 ==> recorded(v, u).1 == v.1.push(u),
{
    assert(v.1.push(u).subrange(0, v.1.len() as int) =~= v.1);
}

} // verus!

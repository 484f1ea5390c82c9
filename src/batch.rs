//! The batch orchestrator's decisions: admission under a concurrency ceiling,
//! fail-fast stopping, and the per-item tally.
//!
//! The caller runs the units of work; it asks `start_next` for the next index
//! to launch, reports each completion with `finish`, and stops when `is_done`.
use vstd::prelude::*;
use crate::error::Error;

verus! {

/// The concurrency used when the caller asks for none in particular.
pub const DEFAULT_MAX_CONCURRENCY: u8 = 4;

/// The hard ceiling on concurrency.
pub const MAX_CONCURRENCY_CAP: u8 = 16;

/// How one unit of a batch ended.
#[derive(Debug, Clone, Copy, PartialEq, Eq, Structural)]
pub enum BatchItemStatus {
    /// Freshly fetched and cached.
    Success,
    /// Served from the cache without a fetch.
    Cached,
    /// The unit failed.
    Failed,
}

/// Counts over the finished units.
#[derive(Debug, Clone, Copy, PartialEq, Eq, Structural)]
pub struct BatchSummary {
    pub total: u32,
    pub succeeded: u32,
    pub cached: u32,
    pub failed: u32,
}

/// The ceiling for a requested concurrency: the default when none is asked
/// for, never above the hard cap.
pub open spec fn effective_limit(requested: Option<u8>) -> nat {
    let k = match requested {
        Some(k) => k,
        None => DEFAULT_MAX_CONCURRENCY,
    };
    if k > MAX_CONCURRENCY_CAP {
        MAX_CONCURRENCY_CAP as nat
    } else {
        k as nat
    }
}

/// The number of outcomes equal to `s`.
pub open spec fn count_status(outcomes: Seq<(usize, BatchItemStatus)>, s: BatchItemStatus) -> nat
    decreases outcomes.len(),
{
    if outcomes.len() == 0 {
        0
    } else {
        count_status(outcomes.drop_last(), s) + if outcomes.last().1 == s {
            1nat
        } else {
            0nat
        }
    }
}

/// The scheduler of one batch.
pub struct BatchScheduler {
    total: usize,
    limit: usize,
    fail_fast: bool,
    next: usize,
    in_flight: usize,
    stopped: bool,
    outcomes: Vec<(usize, BatchItemStatus)>,
}

impl BatchScheduler {
    /// The number of units in the batch.
    pub closed spec fn total(&self) -> nat {
        self.total as nat
    }

    /// The concurrency ceiling.
    pub closed spec fn limit(&self) -> nat {
        self.limit as nat
    }

    /// Whether one failure stops the batch.
    pub closed spec fn fails_fast(&self) -> bool {
        self.fail_fast
    }

    /// How many units were started.
    pub closed spec fn started(&self) -> nat {
        self.next as nat
    }

    /// How many started units have not finished.
    pub closed spec fn running(&self) -> nat {
        self.in_flight as nat
    }

    /// Whether no further unit will be started after a failure.
    pub closed spec fn halted(&self) -> bool {
        self.stopped
    }

    /// The finished units, in the order they finished, with their index.
    pub closed spec fn outcomes(&self) -> Seq<(usize, BatchItemStatus)> {
        self.outcomes@
    }

    /// The scheduler's invariant: never more units running than the ceiling,
    /// every started unit either running or finished, and a halt only after a
    /// failure under fail-fast.
    pub open spec fn wf(&self) -> bool {
        &&& self.limit() >= 1
        &&& self.running() <= self.limit()
        &&& self.started() <= self.total()
        &&& self.started() == self.running() + self.outcomes().len()
        &&& self.halted() ==> self.fails_fast() && count_status(
            self.outcomes(),
            BatchItemStatus::Failed,
        ) > 0
        &&& self.fails_fast() && count_status(self.outcomes(), BatchItemStatus::Failed) > 0
            ==> self.halted()
        &&& self.total() < u32::MAX
    }

    /// A scheduler for `total` units: fails with `InvalidInput` on an empty
    /// batch or a ceiling of zero.
    pub fn new(total: usize, requested: Option<u8>, fail_fast: bool) -> (r: Result<BatchScheduler, Error>)
        requires
            total < u32::MAX,
        ensures
            total == 0 ==> r matches Err(Error::InvalidInput(_)),
            total > 0 && effective_limit(requested) == 0 ==> r matches Err(Error::InvalidInput(_)),
            total > 0 && effective_limit(requested) > 0 ==> (r matches Ok(s) && s.wf() && s.total()
                == total && s.limit() == effective_limit(requested) && s.fails_fast() == fail_fast
                && s.started() == 0 && !s.halted() && s.outcomes().len() == 0),
    {
        if total == 0 {
            return Err(Error::InvalidInput(String::from_str("urls cannot be empty")));
        }
        let k = match requested {
            Some(k) => k,
            None => DEFAULT_MAX_CONCURRENCY,
        };
        let k = if k > MAX_CONCURRENCY_CAP {
            MAX_CONCURRENCY_CAP
        } else {
            k
        };
        if k == 0 {
            return Err(Error::InvalidInput(String::from_str("max_concurrency must be at least 1")));
        }
        let s = BatchScheduler {
            total,
            limit: k as usize,
            fail_fast,
            next: 0,
            in_flight: 0,
            stopped: false,
            outcomes: Vec::new(),
        };
        proof {
            assert(s.outcomes@ =~= Seq::<(usize, BatchItemStatus)>::empty());
        }
        Ok(s)
    }

    /// The concurrency ceiling.
    pub fn max_concurrency(&self) -> (r: usize)
        ensures
            r == self.limit(),
    {
        self.limit
    }

    /// How many started units have not finished.
    pub fn in_flight(&self) -> (r: usize)
        ensures
            r == self.running(),
    {
        self.in_flight
    }

    /// Whether the batch was stopped by a failure; running units should then
    /// be cancelled.
    pub fn is_stopped(&self) -> (r: bool)
        ensures
            r == self.halted(),
    {
        self.stopped
    }

    /// Admits the next unit when a slot is free, the batch is not stopped and
    /// units remain; returns its index.
    pub fn start_next(&mut self) -> (r: Option<usize>)
        requires
            old(self).wf(),
        ensures
            started_step(*old(self), *final(self), r),
    {
        if !self.stopped && self.in_flight < self.limit && self.next < self.total {
            let i = self.next;
            self.next = self.next + 1;
            self.in_flight = self.in_flight + 1;
            Some(i)
        } else {
            None
        }
    }

    /// Records that a running unit finished; under fail-fast a failure stops
    /// the batch.
    pub fn finish(&mut self, index: usize, status: BatchItemStatus)
        requires
            old(self).wf(),
            old(self).running() > 0,
        ensures
            finished_step(*old(self), *final(self), index, status),
    {
        self.in_flight = self.in_flight - 1;
        let ghost before = self.outcomes@;
        self.outcomes.push((index, status));
        proof {
            assert(self.outcomes@.drop_last() =~= before);
        }
        if self.fail_fast && status == BatchItemStatus::Failed {
            self.stopped = true;
        }
    }

    /// Whether nothing runs and nothing more will start.
    pub fn is_done(&self) -> (r: bool)
        requires
            self.wf(),
        ensures
            r == (self.running() == 0 && (self.halted() || self.started() == self.total())),
    {
        self.in_flight == 0 && (self.stopped || self.next == self.total)
    }

    /// The finished units, in the order they finished.
    pub fn outcome_list(&self) -> (r: &Vec<(usize, BatchItemStatus)>)
        ensures
            r@ == self.outcomes(),
    {
        &self.outcomes
    }

    /// The tally of the finished units.
    pub fn summary(&self) -> (r: BatchSummary)
        requires
            self.wf(),
        ensures
            r.total == self.outcomes().len(),
            r.succeeded == count_status(self.outcomes(), BatchItemStatus::Success),
            r.cached == count_status(self.outcomes(), BatchItemStatus::Cached),
            r.failed == count_status(self.outcomes(), BatchItemStatus::Failed),
    {
        let mut succeeded: u32 = 0;
        let mut cached: u32 = 0;
        let mut failed: u32 = 0;
        let mut i: usize = 0;
        while i < self.outcomes.len()
            invariant
                self.wf(),
                i <= self.outcomes@.len(),
                succeeded == count_status(self.outcomes@.subrange(0, i as int), BatchItemStatus::Success),
                cached == count_status(self.outcomes@.subrange(0, i as int), BatchItemStatus::Cached),
                failed == count_status(self.outcomes@.subrange(0, i as int), BatchItemStatus::Failed),
                succeeded + cached + failed == i,
            decreases self.outcomes@.len() - i,
        {
            let ghost s1 = self.outcomes@.subrange(0, i + 1);
            assert(s1.drop_last() =~= self.outcomes@.subrange(0, i as int));
            match self.outcomes[i].1 {
                BatchItemStatus::Success => succeeded = succeeded + 1,
                BatchItemStatus::Cached => cached = cached + 1,
                BatchItemStatus::Failed => failed = failed + 1,
            }
            i = i + 1;
        }
        assert(self.outcomes@.subrange(0, self.outcomes@.len() as int) =~= self.outcomes@);
        BatchSummary { total: self.outcomes.len() as u32, succeeded, cached, failed }
    }
}

/// What `start_next` does: admits the next index exactly when the batch is
/// not halted, a slot is free and units remain; nothing else changes.
pub open spec fn started_step(before: BatchScheduler, after: BatchScheduler, r: Option<usize>) -> bool {
    &&& after.wf()
    &&& after.total() == before.total() && after.limit() == before.limit()
    &&& after.fails_fast() == before.fails_fast() && after.halted() == before.halted()
    &&& after.outcomes() == before.outcomes()
    &&& if !before.halted() && before.running() < before.limit() && before.started() < before.total() {
        &&& r == Some(before.started() as usize)
        &&& after.started() == before.started() + 1
        &&& after.running() == before.running() + 1
    } else {
        &&& r is None
        &&& after.started() == before.started()
        &&& after.running() == before.running()
    }
}

/// What `finish` does: one unit fewer runs, its outcome is appended, and under
/// fail-fast a failure halts the batch.
pub open spec fn finished_step(
    before: BatchScheduler,
    after: BatchScheduler,
    index: usize,
    status: BatchItemStatus,
) -> bool {
    &&& after.wf()
    &&& after.total() == before.total() && after.limit() == before.limit()
    &&& after.fails_fast() == before.fails_fast()
    &&& after.started() == before.started()
    &&& after.running() + 1 == before.running()
    &&& after.outcomes() == before.outcomes().push((index, status))
    &&& after.halted() == (before.halted() || (before.fails_fast() && status
        == BatchItemStatus::Failed))
}

/// No state the scheduler reaches has more units running than its ceiling.
pub proof fn law_concurrency_bounded(s: BatchScheduler, t: BatchScheduler, r: Option<usize>)
    requires
        s.wf(),
        started_step(s, t, r),
    ensures
        s.running() <= s.limit(),
        t.running() <= t.limit(),
        t.limit() == s.limit(),
        r is Some ==> s.running() < s.limit(),
{
}

/// Under fail-fast, once a unit has failed no further unit is started, and
/// the outcomes already recorded stay recorded.
pub proof fn law_fail_fast_stops(
    s0: BatchScheduler,
    s1: BatchScheduler,
    s2: BatchScheduler,
    index: usize,
    r: Option<usize>,
)
    requires
        s0.wf(),
        s0.running() > 0,
        s0.fails_fast(),
        finished_step(s0, s1, index, BatchItemStatus::Failed),
        started_step(s1, s2, r),
    ensures
        r is None,
        s2.started() == s1.started(),
        s2.halted(),
        s2.outcomes() == s0.outcomes().push((index, BatchItemStatus::Failed)),
{
}

} // verus!

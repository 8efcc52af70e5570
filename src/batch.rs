//! Aggregation of per-file outcomes of a batch into a tally, and the
//! progress notifications that follow each completed file.
//!
//! Files may complete in any order and on any worker: the tally is updated
//! by one call per completed file, under whatever exclusion the caller uses,
//! and each call hands back the notification to deliver.

use vstd::prelude::*;

verus! {

/// The counts of a batch: files completed, succeeded, failed, and in all.
pub struct TallyView {
    pub processed: nat,
    pub succeeded: nat,
    pub failed: nat,
    pub total: nat,
}

impl TallyView {
    /// The counts after one more file completed, successfully or not.
    pub open spec fn record_step(self, ok: bool) -> TallyView {
        TallyView {
            processed: self.processed + 1,
            succeeded: if ok {
                self.succeeded + 1
            } else {
                self.succeeded
            },
            failed: if ok {
                self.failed
            } else {
                self.failed + 1
            },
            total: self.total,
        }
    }

    /// Every completed file is counted once, as a success or as a failure.
    pub open spec fn consistent(self) -> bool {
        self.processed == self.succeeded + self.failed && self.processed <= self.total
    }
}

/// The counts of a batch of `total` files before any completes.
pub open spec fn fresh_tally(total: nat) -> TallyView {
    TallyView { processed: 0, succeeded: 0, failed: 0, total }
}

/// The counts after the given outcomes were recorded one after another.
pub open spec fn run_outcomes(total: nat, outcomes: Seq<bool>) -> TallyView
    decreases outcomes.len(),
{
    if outcomes.len() == 0 {
        fresh_tally(total)
    } else {
        run_outcomes(total, outcomes.drop_last()).record_step(outcomes.last())
    }
}

/// The notifications, as (completed, total), delivered while the given
/// outcomes were recorded one after another.
pub open spec fn progress_of(total: nat, outcomes: Seq<bool>) -> Seq<(nat, nat)>
    decreases outcomes.len(),
{
    if outcomes.len() == 0 {
        seq![]
    } else {
        let t = run_outcomes(total, outcomes);
        progress_of(total, outcomes.drop_last()).push((t.processed, t.total))
    }
}

/// The number of successes among the outcomes.
pub open spec fn count_ok(outcomes: Seq<bool>) -> nat
    decreases outcomes.len(),
{
    if outcomes.len() == 0 {
        0
    } else {
        count_ok(outcomes.drop_last()) + if outcomes.last() {
            1nat
        } else {
            0nat
        }
    }
}

/// One progress notification: files completed so far, and in all.
#[derive(Debug, Clone, Copy, PartialEq, Eq, Structural)]
pub struct ProgressEvent {
    pub current: usize,
    pub total: usize,
}

/// The running tally of one batch.
pub struct BatchTally {
    processed: usize,
    succeeded: usize,
    failed: usize,
    total: usize,
}

impl View for BatchTally {
    type V = TallyView;

    closed spec fn view(&self) -> TallyView {
        TallyView {
            processed: self.processed as nat,
            succeeded: self.succeeded as nat,
            failed: self.failed as nat,
            total: self.total as nat,
        }
    }
}

impl BatchTally {
    #[verifier::type_invariant]
    spec fn inv(&self) -> bool {
        self@.consistent()
    }

    /// A tally for a batch of `total` files, none completed.
    pub fn new(total: usize) -> (r: Self)
        ensures
            r@ == fresh_tally(total as nat),
    {
        BatchTally { processed: 0, succeeded: 0, failed: 0, total }
    }

    /// Records one completed file and returns the notification to deliver
    /// for it.
    pub fn record(&mut self, ok: bool) -> (ev: ProgressEvent)
        requires
            old(self)@.processed < old(self)@.total,
        ensures
            final(self)@ == old(self)@.record_step(ok),
            final(self)@.consistent(),
            ev.current as nat == final(self)@.processed,
            ev.total as nat == final(self)@.total,
    {
        proof {
            use_type_invariant(&*self);
        }
        let processed = self.processed + 1;
        let (succeeded, failed) = if ok {
            (self.succeeded + 1, self.failed)
        } else {
            (self.succeeded, self.failed + 1)
        };
        *self = BatchTally { processed, succeeded, failed, total: self.total };
        ProgressEvent { current: processed, total: self.total }
    }

    /// Files completed so far; every tally counts each completed file
    /// once.
    pub fn processed(&self) -> (r: usize)
        ensures
            r as nat == self@.processed,
            self@.consistent(),
    {
        proof {
            use_type_invariant(self);
        }
        self.processed
    }

    /// Files converted successfully so far.
    pub fn succeeded(&self) -> (r: usize)
        ensures
            r as nat == self@.succeeded,
    {
        self.succeeded
    }

    /// Files that failed so far.
    pub fn failed(&self) -> (r: usize)
        ensures
            r as nat == self@.failed,
    {
        self.failed
    }

    /// Files in the batch.
    pub fn total(&self) -> (r: usize)
        ensures
            r as nat == self@.total,
    {
        self.total
    }

    /// Whether every file of the batch has completed.
    pub fn is_complete(&self) -> (r: bool)
        ensures
            r == (self@.processed == self@.total),
    {
        self.processed == self.total
    }

    /// The final result of the batch: (succeeded, failed).
    pub fn counts(&self) -> (r: (usize, usize))
        ensures
            r.0 as nat == self@.succeeded,
            r.1 as nat == self@.failed,
    {
        (self.succeeded, self.failed)
    }
}

/// Recording the outcomes of a batch of n files one after another, in any
/// order of completion: every file is counted once (succeeded + failed = n,
/// the successes being the files that succeeded), n notifications are
/// delivered with completed counts 1, 2, ..., n and total n, and an empty
/// batch ends at (0, 0) with no notification.
pub proof fn lemma_batch_outcomes(outcomes: Seq<bool>)
    ensures
        run_outcomes(outcomes.len(), outcomes).processed == outcomes.len(),
        run_outcomes(outcomes.len(), outcomes).succeeded + run_outcomes(
            outcomes.len(),
            outcomes,
        ).failed == outcomes.len(),
        run_outcomes(outcomes.len(), outcomes).succeeded == count_ok(outcomes),
        run_outcomes(outcomes.len(), outcomes).consistent(),
        progress_of(outcomes.len(), outcomes).len() == outcomes.len(),
        forall|i: int|
            0 <= i < outcomes.len() ==> #[trigger] progress_of(outcomes.len(), outcomes)[i] == (
            (i + 1) as nat,
            outcomes.len(),
        ),
        outcomes.len() == 0 ==> run_outcomes(0, outcomes).succeeded == 0 && run_outcomes(
            0,
            outcomes,
        ).failed == 0 && progress_of(0, outcomes).len() == 0,
{
    lemma_run_prefix(outcomes.len(), outcomes);
}

/// A batch in which every file fails ends at (0, n).
pub proof fn lemma_all_failed(outcomes: Seq<bool>)
    requires
        forall|i: int| 0 <= i < outcomes.len() ==> !#[trigger] outcomes[i],
    ensures
        run_outcomes(outcomes.len(), outcomes).succeeded == 0,
        run_outcomes(outcomes.len(), outcomes).failed == outcomes.len(),
{
    lemma_run_prefix(outcomes.len(), outcomes);
    lemma_no_ok(outcomes);
}

proof fn lemma_no_ok(outcomes: Seq<bool>)
    requires
        forall|i: int| 0 <= i < outcomes.len() ==> !#[trigger] outcomes[i],
    ensures
        count_ok(outcomes) == 0,
    decreases outcomes.len(),
{
    if outcomes.len() > 0 {
        let init = outcomes.drop_last();
        assert forall|i: int| 0 <= i < init.len() implies !#[trigger] init[i] by {
            assert(init[i] == outcomes[i]);
        }
        lemma_no_ok(init);
        assert(!outcomes[outcomes.len() - 1]);
    }
}

proof fn lemma_run_prefix(total: nat, outcomes: Seq<bool>)
    requires
        outcomes.len() <= total,
    ensures
        run_outcomes(total, outcomes).processed == outcomes.len(),
        run_outcomes(total, outcomes).total == total,
        run_outcomes(total, outcomes).succeeded == count_ok(outcomes),
        run_outcomes(total, outcomes).consistent(),
        progress_of(total, outcomes).len() == outcomes.len(),
        forall|i: int|
            0 <= i < outcomes.len() ==> #[trigger] progress_of(total, outcomes)[i] == (
            (i + 1) as nat,
            total,
        ),
    decreases outcomes.len(),
{
    if outcomes.len() > 0 {
        let init = outcomes.drop_last();
        lemma_run_prefix(total, init);
        let p = progress_of(total, outcomes);
        assert forall|i: int| 0 <= i < outcomes.len() implies #[trigger] p[i] == (
            (i + 1) as nat,
            total,
        ) by {
            if i < init.len() {
                assert(p[i] == progress_of(total, init)[i]);
            }
        }
    }
}

} // verus!

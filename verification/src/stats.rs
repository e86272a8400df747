//! What a run counts: one outcome for each statement, a histogram of the
//! statement kinds, and the record that an executor process hands in.
//!
//! Counters are merged by addition, so the totals of a run do not depend on
//! the order in which workers finish.

use crate::drivers::DriverError;
use crate::generators::common::SqlKind;
use vstd::prelude::*;

verus! {

/// How one statement ended.
#[derive(Debug, Clone, Copy, PartialEq, Eq, Structural)]
pub enum ExecutionOutcome {
    /// The engine ran the statement and changed this many rows.
    Success(usize),
    /// The engine refused the statement in a way that is expected of random
    /// statements.
    ExpectedFailure,
    /// The engine failed in any other way: what the fuzzer looks for.
    NewFailure,
}

/// Whether a failure is expected of random statements. Today only a
/// constraint violation is.
pub open spec fn is_expected(error: DriverError) -> bool {
    error == DriverError::ConstraintViolation
}

/// The outcome that the answer of a driver stands for.
pub open spec fn outcome_of(result: Result<usize, DriverError>) -> ExecutionOutcome {
    match result {
        Ok(changed) => ExecutionOutcome::Success(changed),
        Err(error) => if is_expected(error) {
            ExecutionOutcome::ExpectedFailure
        } else {
            ExecutionOutcome::NewFailure
        },
    }
}

/// Whether a failure is expected of random statements.
pub fn is_ignorable(error: DriverError) -> (expected: bool)
    ensures
        expected == is_expected(error),
{
    match error {
        DriverError::ConstraintViolation => true,
        _ => false,
    }
}

/// The outcome that the answer of a driver stands for.
pub fn classify(result: &Result<usize, DriverError>) -> (outcome: ExecutionOutcome)
    ensures
        outcome == outcome_of(*result),
{
    match result {
        Ok(changed) => ExecutionOutcome::Success(*changed),
        Err(error) => if is_ignorable(*error) {
            ExecutionOutcome::ExpectedFailure
        } else {
            ExecutionOutcome::NewFailure
        },
    }
}

/// The histogram that counts `a` and `b` together: for every kind the sum
/// of the two counts.
pub open spec fn merged(a: Map<SqlKind, nat>, b: Map<SqlKind, nat>) -> Map<SqlKind, nat> {
    Map::total(|kind: SqlKind| a[kind] + b[kind])
}

/// The number of statements that a histogram counts, over all kinds.
pub open spec fn histogram_total(counts: Map<SqlKind, nat>) -> nat {
    counts[SqlKind::Select] + counts[SqlKind::Insert] + counts[SqlKind::Update]
        + counts[SqlKind::Delete] + counts[SqlKind::Vacuum] + counts[SqlKind::Pragma]
        + counts[SqlKind::CreateTrigger] + counts[SqlKind::DropTrigger] + counts[SqlKind::Upsert]
}

/// The histogram `counts` with one more statement of kind `kind`.
pub open spec fn bumped(counts: Map<SqlKind, nat>, kind: SqlKind) -> Map<SqlKind, nat> {
    Map::total(
        |other: SqlKind|
            if other == kind {
                counts[other] + 1
            } else {
                counts[other]
            },
    )
}

/// Merging histograms is commutative.
pub proof fn lemma_merge_commutative(a: Map<SqlKind, nat>, b: Map<SqlKind, nat>)
    ensures
        merged(a, b) == merged(b, a),
{
}

/// Merging histograms is associative.
pub proof fn lemma_merge_associative(
    a: Map<SqlKind, nat>,
    b: Map<SqlKind, nat>,
    c: Map<SqlKind, nat>,
)
    ensures
        merged(a, merged(b, c)) == merged(merged(a, b), c),
{
}

/// A merged histogram counts, kind by kind and in total, the sum of what its
/// two parts count.
pub proof fn lemma_merge_totals(a: Map<SqlKind, nat>, b: Map<SqlKind, nat>)
    ensures
        forall|kind: SqlKind| #[trigger] merged(a, b)[kind] == a[kind] + b[kind],
        histogram_total(merged(a, b)) == histogram_total(a) + histogram_total(b),
{
}

/// No kind is counted more often than all kinds together.
pub proof fn lemma_count_within_total(counts: Map<SqlKind, nat>, kind: SqlKind)
    ensures
        counts[kind] <= histogram_total(counts),
{
}

/// The number of statements of each kind.
#[derive(Debug, Clone, Copy, PartialEq, Eq, Structural)]
pub struct StmtTypeCounts {
    /// The number of `SELECT` statements.
    pub select: u64,
    /// The number of `INSERT` statements.
    pub insert: u64,
    /// The number of `UPDATE` statements.
    pub update: u64,
    /// The number of `DELETE` statements.
    pub delete: u64,
    /// The number of `VACUUM` statements.
    pub vacuum: u64,
    /// The number of `PRAGMA` statements.
    pub pragma: u64,
    /// The number of `CREATE TRIGGER` statements.
    pub create_trigger: u64,
    /// The number of `DROP TRIGGER` statements.
    pub drop_trigger: u64,
    /// The number of upserts.
    pub upsert: u64,
}

impl View for StmtTypeCounts {
    type V = Map<SqlKind, nat>;

    open spec fn view(&self) -> Map<SqlKind, nat> {
        Map::total(|kind: SqlKind| self.count(kind))
    }
}

impl StmtTypeCounts {
    /// The number of statements of kind `kind`.
    pub open spec fn count(&self, kind: SqlKind) -> nat {
        match kind {
            SqlKind::Select => self.select as nat,
            SqlKind::Insert => self.insert as nat,
            SqlKind::Update => self.update as nat,
            SqlKind::Delete => self.delete as nat,
            SqlKind::Vacuum => self.vacuum as nat,
            SqlKind::Pragma => self.pragma as nat,
            SqlKind::CreateTrigger => self.create_trigger as nat,
            SqlKind::DropTrigger => self.drop_trigger as nat,
            SqlKind::Upsert => self.upsert as nat,
        }
    }

    /// Whether `self` and `other` can be merged: no sum of two counts
    /// exceeds what a counter holds.
    pub open spec fn fits(&self, other: &StmtTypeCounts) -> bool {
        forall|kind: SqlKind| #[trigger] self@[kind] + other@[kind] <= u64::MAX
    }

    /// A histogram that counts nothing.
    pub fn new() -> (counts: Self)
        ensures
            forall|kind: SqlKind| #[trigger] counts@[kind] == 0,
            histogram_total(counts@) == 0,
    {
        StmtTypeCounts {
            select: 0,
            insert: 0,
            update: 0,
            delete: 0,
            vacuum: 0,
            pragma: 0,
            create_trigger: 0,
            drop_trigger: 0,
            upsert: 0,
        }
    }

    /// The number of statements of kind `kind`.
    pub fn get(&self, kind: SqlKind) -> (count: u64)
        ensures
            count == self@[kind],
    {
        match kind {
            SqlKind::Select => self.select,
            SqlKind::Insert => self.insert,
            SqlKind::Update => self.update,
            SqlKind::Delete => self.delete,
            SqlKind::Vacuum => self.vacuum,
            SqlKind::Pragma => self.pragma,
            SqlKind::CreateTrigger => self.create_trigger,
            SqlKind::DropTrigger => self.drop_trigger,
            SqlKind::Upsert => self.upsert,
        }
    }

    /// The number of statements of all kinds together.
    pub fn total(&self) -> (sum: u128)
        ensures
            sum == histogram_total(self@),
    {
        self.select as u128 + self.insert as u128 + self.update as u128 + self.delete as u128
            + self.vacuum as u128 + self.pragma as u128 + self.create_trigger as u128
            + self.drop_trigger as u128 + self.upsert as u128
    }

    /// Counts one more statement of kind `kind`.
    pub fn bump(&mut self, kind: SqlKind)
        requires
            old(self)@[kind] < u64::MAX,
        ensures
            final(self)@ == bumped(old(self)@, kind),
            histogram_total(final(self)@) == histogram_total(old(self)@) + 1,
    {
        match kind {
            SqlKind::Select => {
                self.select = self.select + 1;
            },
            SqlKind::Insert => {
                self.insert = self.insert + 1;
            },
            SqlKind::Update => {
                self.update = self.update + 1;
            },
            SqlKind::Delete => {
                self.delete = self.delete + 1;
            },
            SqlKind::Vacuum => {
                self.vacuum = self.vacuum + 1;
            },
            SqlKind::Pragma => {
                self.pragma = self.pragma + 1;
            },
            SqlKind::CreateTrigger => {
                self.create_trigger = self.create_trigger + 1;
            },
            SqlKind::DropTrigger => {
                self.drop_trigger = self.drop_trigger + 1;
            },
            SqlKind::Upsert => {
                self.upsert = self.upsert + 1;
            },
        }
    }

    /// Whether `other` can be merged into `self`.
    pub fn can_merge(&self, other: &StmtTypeCounts) -> (fits: bool)
        ensures
            fits == self.fits(other),
    {
        let fits = self.select <= u64::MAX - other.select && self.insert <= u64::MAX
            - other.insert && self.update <= u64::MAX - other.update && self.delete <= u64::MAX
            - other.delete && self.vacuum <= u64::MAX - other.vacuum && self.pragma <= u64::MAX
            - other.pragma && self.create_trigger <= u64::MAX - other.create_trigger
            && self.drop_trigger <= u64::MAX - other.drop_trigger && self.upsert <= u64::MAX
            - other.upsert;
        proof {
            // Where the test fails, the kind that fails it is the witness.
            if self.select > u64::MAX - other.select {
                assert(self@[SqlKind::Select] + other@[SqlKind::Select] > u64::MAX);
            } else if self.insert > u64::MAX - other.insert {
                assert(self@[SqlKind::Insert] + other@[SqlKind::Insert] > u64::MAX);
            } else if self.update > u64::MAX - other.update {
                assert(self@[SqlKind::Update] + other@[SqlKind::Update] > u64::MAX);
            } else if self.delete > u64::MAX - other.delete {
                assert(self@[SqlKind::Delete] + other@[SqlKind::Delete] > u64::MAX);
            } else if self.vacuum > u64::MAX - other.vacuum {
                assert(self@[SqlKind::Vacuum] + other@[SqlKind::Vacuum] > u64::MAX);
            } else if self.pragma > u64::MAX - other.pragma {
                assert(self@[SqlKind::Pragma] + other@[SqlKind::Pragma] > u64::MAX);
            } else if self.create_trigger > u64::MAX - other.create_trigger {
                assert(self@[SqlKind::CreateTrigger] + other@[SqlKind::CreateTrigger] > u64::MAX);
            } else if self.drop_trigger > u64::MAX - other.drop_trigger {
                assert(self@[SqlKind::DropTrigger] + other@[SqlKind::DropTrigger] > u64::MAX);
            } else if self.upsert > u64::MAX - other.upsert {
                assert(self@[SqlKind::Upsert] + other@[SqlKind::Upsert] > u64::MAX);
            }
        }
        fits
    }

    /// Adds the counts of `other` to those of `self`.
    pub fn merge(&mut self, other: &StmtTypeCounts)
        requires
            old(self).fits(other),
        ensures
            final(self)@ == merged(old(self)@, other@),
    {
        proof {
            assert(self@[SqlKind::Select] + other@[SqlKind::Select] <= u64::MAX);
            assert(self@[SqlKind::Insert] + other@[SqlKind::Insert] <= u64::MAX);
            assert(self@[SqlKind::Update] + other@[SqlKind::Update] <= u64::MAX);
            assert(self@[SqlKind::Delete] + other@[SqlKind::Delete] <= u64::MAX);
            assert(self@[SqlKind::Vacuum] + other@[SqlKind::Vacuum] <= u64::MAX);
            assert(self@[SqlKind::Pragma] + other@[SqlKind::Pragma] <= u64::MAX);
            assert(self@[SqlKind::CreateTrigger] + other@[SqlKind::CreateTrigger] <= u64::MAX);
            assert(self@[SqlKind::DropTrigger] + other@[SqlKind::DropTrigger] <= u64::MAX);
            assert(self@[SqlKind::Upsert] + other@[SqlKind::Upsert] <= u64::MAX);
        }
        self.select = self.select + other.select;
        self.insert = self.insert + other.insert;
        self.update = self.update + other.update;
        self.delete = self.delete + other.delete;
        self.vacuum = self.vacuum + other.vacuum;
        self.pragma = self.pragma + other.pragma;
        self.create_trigger = self.create_trigger + other.create_trigger;
        self.drop_trigger = self.drop_trigger + other.drop_trigger;
        self.upsert = self.upsert + other.upsert;
    }
}

/// One step of a worker as contracts see it: the kind that was chosen, if
/// one was, the statement that went to the driver, and how it ended.
pub struct StepRecord {
    /// The kind that the weights selected; none where no weights are given
    /// or all are 0.
    pub kind: Option<SqlKind>,
    /// The statement that was sent.
    pub sql: Seq<char>,
    /// How the statement ended.
    pub outcome: ExecutionOutcome,
}

/// What a number of steps add up to.
pub struct Tally {
    /// The number of statements that succeeded.
    pub success: nat,
    /// The number of statements that failed as expected.
    pub failed_expected: nat,
    /// The number of statements that failed in a new way.
    pub failed_new: nat,
    /// The number of statements of each kind that were chosen.
    pub kinds: Map<SqlKind, nat>,
}

/// The tally of no step at all.
pub open spec fn no_tally() -> Tally {
    Tally { success: 0, failed_expected: 0, failed_new: 0, kinds: Map::total(|kind: SqlKind| 0nat) }
}

/// The tally `before` with one more step: its outcome moves exactly one of
/// the three counters, and its kind, if it has one, one count of the
/// histogram.
pub open spec fn tallied(before: Tally, step: StepRecord) -> Tally {
    Tally {
        success: before.success + if step.outcome is Success {
            1nat
        } else {
            0nat
        },
        failed_expected: before.failed_expected + if step.outcome is ExpectedFailure {
            1nat
        } else {
            0nat
        },
        failed_new: before.failed_new + if step.outcome is NewFailure {
            1nat
        } else {
            0nat
        },
        kinds: match step.kind {
            Some(kind) => bumped(before.kinds, kind),
            None => before.kinds,
        },
    }
}

/// What the steps of `log` add up to.
pub open spec fn tally(log: Seq<StepRecord>) -> Tally
    decreases log.len(),
{
    if log.len() == 0 {
        no_tally()
    } else {
        tallied(tally(log.drop_last()), log.last())
    }
}

/// The two tallies together: sums of the counters, and the key-wise sum of
/// the histograms.
pub open spec fn sum_tally(a: Tally, b: Tally) -> Tally {
    Tally {
        success: a.success + b.success,
        failed_expected: a.failed_expected + b.failed_expected,
        failed_new: a.failed_new + b.failed_new,
        kinds: merged(a.kinds, b.kinds),
    }
}

/// What the steps of all the workers add up to, `logs` holding the steps
/// of one worker each.
pub open spec fn total_tally(logs: Seq<Seq<StepRecord>>) -> Tally
    decreases logs.len(),
{
    if logs.len() == 0 {
        no_tally()
    } else {
        sum_tally(total_tally(logs.drop_last()), tally(logs.last()))
    }
}

/// The total with one more worker is the total so far plus the tally of
/// that worker.
pub proof fn lemma_total_tally_push(logs: Seq<Seq<StepRecord>>, log: Seq<StepRecord>)
    ensures
        total_tally(logs.push(log)) == sum_tally(total_tally(logs), tally(log)),
{
    assert(logs.push(log).drop_last() =~= logs);
}

/// The total does not depend on which of two workers joins first.
pub proof fn lemma_total_tally_swap(
    logs: Seq<Seq<StepRecord>>,
    first: Seq<StepRecord>,
    second: Seq<StepRecord>,
)
    ensures
        total_tally(logs.push(first).push(second)) == total_tally(logs.push(second).push(first)),
{
    lemma_total_tally_push(logs, first);
    lemma_total_tally_push(logs, second);
    lemma_total_tally_push(logs.push(first), second);
    lemma_total_tally_push(logs.push(second), first);
    let so_far = total_tally(logs);
    lemma_sum_tally_associative(so_far, tally(first), tally(second));
    lemma_sum_tally_associative(so_far, tally(second), tally(first));
    lemma_sum_tally_commutative(tally(first), tally(second));
}

/// Whether `counters` read what `tally` adds up to.
pub open spec fn counted_as(counters: RunCounters, tally: Tally) -> bool {
    &&& counters.success_count == tally.success
    &&& counters.failed_expected_count == tally.failed_expected
    &&& counters.failed_new_count == tally.failed_new
    &&& counters.stmt_type_counts@ == tally.kinds
}

/// Tallies add up the same in either order: it does not matter which of two
/// workers finishes first.
pub proof fn lemma_sum_tally_commutative(a: Tally, b: Tally)
    ensures
        sum_tally(a, b) == sum_tally(b, a),
{
    lemma_merge_commutative(a.kinds, b.kinds);
}

/// Tallies add up the same in any grouping.
pub proof fn lemma_sum_tally_associative(a: Tally, b: Tally, c: Tally)
    ensures
        sum_tally(a, sum_tally(b, c)) == sum_tally(sum_tally(a, b), c),
{
    lemma_merge_associative(a.kinds, b.kinds, c.kinds);
}

/// The counters of one worker, or of the workers of one process together.
#[derive(Debug, Clone, Copy, PartialEq, Eq, Structural)]
pub struct RunCounters {
    /// The number of statements that succeeded.
    pub success_count: u64,
    /// The number of statements that failed as expected.
    pub failed_expected_count: u64,
    /// The number of statements that failed in a new way.
    pub failed_new_count: u64,
    /// The number of statements of each kind that were chosen.
    pub stmt_type_counts: StmtTypeCounts,
}

/// What `counters` read after one more statement ended in `outcome`.
pub open spec fn recorded(counters: RunCounters, outcome: ExecutionOutcome) -> RunCounters {
    match outcome {
        ExecutionOutcome::Success(_) => RunCounters {
            success_count: (counters.success_count + 1) as u64,
            ..counters
        },
        ExecutionOutcome::ExpectedFailure => RunCounters {
            failed_expected_count: (counters.failed_expected_count + 1) as u64,
            ..counters
        },
        ExecutionOutcome::NewFailure => RunCounters {
            failed_new_count: (counters.failed_new_count + 1) as u64,
            ..counters
        },
    }
}

impl RunCounters {
    /// The number of statements that were run: each ended in exactly one
    /// of the three ways.
    pub open spec fn attempts(&self) -> nat {
        (self.success_count + self.failed_expected_count + self.failed_new_count) as nat
    }

    /// Whether `other` can be added to `self`: the statements of both
    /// together can still be counted, and so can those of each kind.
    pub open spec fn fits(&self, other: &RunCounters) -> bool {
        &&& self.attempts() + other.attempts() <= u64::MAX
        &&& self.stmt_type_counts.fits(&other.stmt_type_counts)
    }

    /// Counters that have counted nothing.
    pub fn new() -> (counters: Self)
        ensures
            counters.attempts() == 0,
            counters.success_count == 0,
            counters.failed_expected_count == 0,
            counters.failed_new_count == 0,
            histogram_total(counters.stmt_type_counts@) == 0,
            forall|kind: SqlKind| #[trigger] counters.stmt_type_counts@[kind] == 0,
    {
        RunCounters {
            success_count: 0,
            failed_expected_count: 0,
            failed_new_count: 0,
            stmt_type_counts: StmtTypeCounts::new(),
        }
    }

    /// Counts one statement that ended in `outcome`.
    pub fn record(&mut self, outcome: ExecutionOutcome)
        requires
            old(self).attempts() < u64::MAX,
        ensures
            *final(self) == recorded(*old(self), outcome),
            final(self).attempts() == old(self).attempts() + 1,
    {
        match outcome {
            ExecutionOutcome::Success(_) => {
                self.success_count = self.success_count + 1;
            },
            ExecutionOutcome::ExpectedFailure => {
                self.failed_expected_count = self.failed_expected_count + 1;
            },
            ExecutionOutcome::NewFailure => {
                self.failed_new_count = self.failed_new_count + 1;
            },
        }
    }

    /// Whether `other` can be added to `self`.
    pub fn can_absorb(&self, other: &RunCounters) -> (fits: bool)
        ensures
            fits == self.fits(other),
    {
        let mine: u128 = self.success_count as u128 + self.failed_expected_count as u128
            + self.failed_new_count as u128;
        let theirs: u128 = other.success_count as u128 + other.failed_expected_count as u128
            + other.failed_new_count as u128;
        mine + theirs <= u64::MAX as u128 && self.stmt_type_counts.can_merge(
            &other.stmt_type_counts,
        )
    }

    /// Adds the counters of `other`, a worker that has finished, to `self`.
    pub fn absorb(&mut self, other: &RunCounters)
        requires
            old(self).fits(other),
        ensures
            final(self).success_count == old(self).success_count + other.success_count,
            final(self).failed_expected_count == old(self).failed_expected_count
                + other.failed_expected_count,
            final(self).failed_new_count == old(self).failed_new_count + other.failed_new_count,
            final(self).stmt_type_counts@ == merged(
                old(self).stmt_type_counts@,
                other.stmt_type_counts@,
            ),
            final(self).attempts() == old(self).attempts() + other.attempts(),
    {
        self.success_count = self.success_count + other.success_count;
        self.failed_expected_count = self.failed_expected_count + other.failed_expected_count;
        self.failed_new_count = self.failed_new_count + other.failed_new_count;
        self.stmt_type_counts.merge(&other.stmt_type_counts);
    }
}

/// The record that one executor process hands in at the end of its run.
#[derive(Debug)]
pub struct ExecutionStats {
    elapsed_ms: u64,
    success_count: u64,
    failed_expected_count: u64,
    failed_new_count: u64,
    total_queries: u64,
    thread_count: u64,
    stmt_type_counts: StmtTypeCounts,
    executor_id: String,
}

impl Clone for ExecutionStats {
    fn clone(&self) -> (copy: Self)
        ensures
            copy == *self,
    {
        proof {
            use_type_invariant(self);
        }
        ExecutionStats {
            elapsed_ms: self.elapsed_ms,
            success_count: self.success_count,
            failed_expected_count: self.failed_expected_count,
            failed_new_count: self.failed_new_count,
            total_queries: self.total_queries,
            thread_count: self.thread_count,
            stmt_type_counts: self.stmt_type_counts,
            executor_id: self.executor_id.clone(),
        }
    }
}

impl ExecutionStats {
    /// Every statement ended in exactly one of the three ways.
    #[verifier::type_invariant]
    pub closed spec fn consistent(&self) -> bool {
        self.success_count + self.failed_expected_count + self.failed_new_count
            == self.total_queries
    }

    /// The wall-clock time of the run, in milliseconds.
    pub closed spec fn spec_elapsed_ms(&self) -> u64 {
        self.elapsed_ms
    }

    /// The counters of the run.
    pub closed spec fn spec_counters(&self) -> RunCounters {
        RunCounters {
            success_count: self.success_count,
            failed_expected_count: self.failed_expected_count,
            failed_new_count: self.failed_new_count,
            stmt_type_counts: self.stmt_type_counts,
        }
    }

    /// The number of statements that were run.
    pub closed spec fn spec_total_queries(&self) -> u64 {
        self.total_queries
    }

    /// The number of workers.
    pub closed spec fn spec_thread_count(&self) -> u64 {
        self.thread_count
    }

    /// The identity of the executor process.
    pub closed spec fn spec_executor_id(&self) -> Seq<char> {
        self.executor_id@
    }

    /// The record of a run that took `elapsed_ms` with `thread_count`
    /// workers whose counters add up to `counters`, for the process
    /// `executor_id`. The total is the sum of the three outcome counters.
    pub fn new(
        elapsed_ms: u64,
        counters: RunCounters,
        thread_count: u64,
        executor_id: String,
    ) -> (stats: Self)
        requires
            counters.attempts() <= u64::MAX,
        ensures
            stats.spec_elapsed_ms() == elapsed_ms,
            stats.spec_counters() == counters,
            stats.spec_total_queries() == counters.attempts(),
            stats.spec_thread_count() == thread_count,
            stats.spec_executor_id() == executor_id@,
    {
        ExecutionStats {
            elapsed_ms,
            success_count: counters.success_count,
            failed_expected_count: counters.failed_expected_count,
            failed_new_count: counters.failed_new_count,
            total_queries: counters.success_count + counters.failed_expected_count
                + counters.failed_new_count,
            thread_count,
            stmt_type_counts: counters.stmt_type_counts,
            executor_id,
        }
    }

    /// The wall-clock time of the run, in milliseconds.
    pub fn elapsed_ms(&self) -> (value: u64)
        ensures
            value == self.spec_elapsed_ms(),
    {
        self.elapsed_ms
    }

    /// The counters of the run.
    pub fn counters(&self) -> (counters: RunCounters)
        ensures
            counters == self.spec_counters(),
            counters.attempts() == self.spec_total_queries(),
    {
        proof {
            use_type_invariant(self);
        }
        RunCounters {
            success_count: self.success_count,
            failed_expected_count: self.failed_expected_count,
            failed_new_count: self.failed_new_count,
            stmt_type_counts: self.stmt_type_counts,
        }
    }

    /// The number of statements that were run.
    pub fn total_queries(&self) -> (value: u64)
        ensures
            value == self.spec_total_queries(),
            value == self.spec_counters().attempts(),
    {
        proof {
            use_type_invariant(self);
        }
        self.total_queries
    }

    /// The number of workers.
    pub fn thread_count(&self) -> (value: u64)
        ensures
            value == self.spec_thread_count(),
    {
        self.thread_count
    }

    /// The identity of the executor process.
    pub fn executor_id(&self) -> (id: &str)
        ensures
            id@ == self.spec_executor_id(),
    {
        self.executor_id.as_str()
    }
}

} // verus!

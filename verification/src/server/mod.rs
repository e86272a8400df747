//! The coordinator's side of a run: the totals over the records that the
//! executor processes hand in, and the plan for starting those processes.
//!
//! Counters and histograms add up and the elapsed time is the longest of
//! all records, so the totals do not depend on the order in which the
//! records arrive.

pub mod fork_server;

use crate::generators::common::SqlKind;
use crate::stats::{merged, ExecutionStats, StmtTypeCounts};
use crate::text::{decimal, is_numeral, is_unsigned_numeral, lemma_decimal_is_numeral};
use vstd::prelude::*;
use vstd::string::*;

verus! {

/// The totals over a number of records, as contracts see them.
pub struct Totals {
    /// The number of records.
    pub executors: nat,
    /// The longest elapsed time of any record, in milliseconds.
    pub elapsed_ms: nat,
    /// The number of statements that succeeded.
    pub success: nat,
    /// The number of statements that failed as expected.
    pub failed_expected: nat,
    /// The number of statements that failed in a new way.
    pub failed_new: nat,
    /// The number of statements that were run.
    pub queries: nat,
    /// The number of workers.
    pub threads: nat,
    /// The number of statements of each kind.
    pub kinds: Map<SqlKind, nat>,
}

/// The totals over one record alone.
pub open spec fn totals_of(stats: ExecutionStats) -> Totals {
    Totals {
        executors: 1,
        elapsed_ms: stats.spec_elapsed_ms() as nat,
        success: stats.spec_counters().success_count as nat,
        failed_expected: stats.spec_counters().failed_expected_count as nat,
        failed_new: stats.spec_counters().failed_new_count as nat,
        queries: stats.spec_total_queries() as nat,
        threads: stats.spec_thread_count() as nat,
        kinds: stats.spec_counters().stmt_type_counts@,
    }
}

/// The totals over the records of `a` and those of `b` together: sums
/// everywhere, except for the elapsed time, which is the longer of the two.
pub open spec fn combined(a: Totals, b: Totals) -> Totals {
    Totals {
        executors: a.executors + b.executors,
        elapsed_ms: if a.elapsed_ms >= b.elapsed_ms {
            a.elapsed_ms
        } else {
            b.elapsed_ms
        },
        success: a.success + b.success,
        failed_expected: a.failed_expected + b.failed_expected,
        failed_new: a.failed_new + b.failed_new,
        queries: a.queries + b.queries,
        threads: a.threads + b.threads,
        kinds: merged(a.kinds, b.kinds),
    }
}

/// The totals after one more record `stats` has arrived.
pub open spec fn submitted(before: Option<Totals>, stats: ExecutionStats) -> Totals {
    match before {
        None => totals_of(stats),
        Some(before) => combined(before, totals_of(stats)),
    }
}

/// Whether the totals `t` can be held in machine counters.
pub open spec fn representable(t: Totals) -> bool {
    &&& t.executors <= u64::MAX
    &&& t.queries <= u64::MAX
    &&& t.threads <= u64::MAX
    &&& forall|kind: SqlKind| #[trigger] t.kinds[kind] <= u64::MAX
}

/// Whether an executor identity is numeric: an unsigned decimal numeral,
/// however large the number that it writes. The identities that the
/// coordinator hands out are seeds of 64 bits in decimal, and all of them
/// are numeric.
pub open spec fn is_numeric_id(id: Seq<char>) -> bool {
    is_unsigned_numeral(id)
}

/// Every number written in decimal is a numeric identity, whatever its
/// size: so is every seed text of the plan for the executor processes.
pub proof fn lemma_seed_texts_are_numeric(seed: nat)
    ensures
        is_numeric_id(decimal(seed)),
{
    lemma_decimal_is_numeral(seed);
}

/// New failures in parts per million of all statements, rounded down; 0
/// where no statement was run. 37 new failures in 1000 statements are
/// 37000 parts per million, that is 3.7 per cent.
pub open spec fn spec_error_rate_ppm(failed_new: nat, queries: nat) -> nat {
    if queries == 0 {
        0
    } else {
        failed_new * 1_000_000 / queries
    }
}

/// Statements per second, in thousandths and rounded down, over the
/// longest elapsed time; 0 where no time has elapsed.
pub open spec fn spec_throughput_milli(queries: nat, elapsed_ms: nat) -> nat {
    if elapsed_ms == 0 {
        0
    } else {
        queries * 1_000_000 / elapsed_ms
    }
}

/// Combining totals is commutative: the order of two arrivals does not
/// matter.
pub proof fn lemma_combined_commutative(a: Totals, b: Totals)
    ensures
        combined(a, b) == combined(b, a),
{
    assert(merged(a.kinds, b.kinds) =~= merged(b.kinds, a.kinds));
}

/// Combining totals is associative: records can be combined in any
/// grouping.
pub proof fn lemma_combined_associative(a: Totals, b: Totals, c: Totals)
    ensures
        combined(a, combined(b, c)) == combined(combined(a, b), c),
{
    assert(merged(a.kinds, merged(b.kinds, c.kinds)) =~= merged(merged(a.kinds, b.kinds), c.kinds));
}

/// Why a record was not taken.
#[derive(Debug, Clone, Copy, PartialEq, Eq, Structural)]
pub enum SubmitError {
    /// The identity of the executor is not numeric: the mistake of the
    /// sender.
    InvalidExecutorId,
    /// The totals with this record would exceed what the counters hold.
    CounterOverflow,
}

/// The running totals over the records that have arrived.
#[derive(Debug)]
pub struct AggregatedStats {
    total_executors: u64,
    total_elapsed_ms: u64,
    total_success_count: u64,
    total_failed_expected_count: u64,
    total_failed_new_count: u64,
    total_queries: u64,
    total_thread_count: u64,
    combined_stmt_type_counts: StmtTypeCounts,
    last_updated: String,
}

impl View for AggregatedStats {
    type V = Totals;

    closed spec fn view(&self) -> Totals {
        Totals {
            executors: self.total_executors as nat,
            elapsed_ms: self.total_elapsed_ms as nat,
            success: self.total_success_count as nat,
            failed_expected: self.total_failed_expected_count as nat,
            failed_new: self.total_failed_new_count as nat,
            queries: self.total_queries as nat,
            threads: self.total_thread_count as nat,
            kinds: self.combined_stmt_type_counts@,
        }
    }
}

impl AggregatedStats {
    /// Every statement ended in exactly one of the three ways.
    #[verifier::type_invariant]
    pub closed spec fn consistent(&self) -> bool {
        self.total_success_count + self.total_failed_expected_count
            + self.total_failed_new_count == self.total_queries
    }

    /// The time of the last arrival, as the caller gave it.
    pub closed spec fn spec_last_updated(&self) -> Seq<char> {
        self.last_updated@
    }

    /// The number of records.
    pub fn total_executors(&self) -> (value: u64)
        ensures
            value == self@.executors,
    {
        self.total_executors
    }

    /// The longest elapsed time of any record, in milliseconds.
    pub fn total_elapsed_ms(&self) -> (value: u64)
        ensures
            value == self@.elapsed_ms,
    {
        self.total_elapsed_ms
    }

    /// The number of statements that succeeded.
    pub fn total_success_count(&self) -> (value: u64)
        ensures
            value == self@.success,
    {
        self.total_success_count
    }

    /// The number of statements that failed as expected.
    pub fn total_failed_expected_count(&self) -> (value: u64)
        ensures
            value == self@.failed_expected,
    {
        self.total_failed_expected_count
    }

    /// The number of statements that failed in a new way.
    pub fn total_failed_new_count(&self) -> (value: u64)
        ensures
            value == self@.failed_new,
    {
        self.total_failed_new_count
    }

    /// The number of statements that were run: the sum of the three outcome
    /// counters.
    pub fn total_queries(&self) -> (value: u64)
        ensures
            value == self@.queries,
            value == self@.success + self@.failed_expected + self@.failed_new,
    {
        proof {
            use_type_invariant(self);
        }
        self.total_queries
    }

    /// The number of workers.
    pub fn total_thread_count(&self) -> (value: u64)
        ensures
            value == self@.threads,
    {
        self.total_thread_count
    }

    /// The number of statements of each kind.
    pub fn combined_stmt_type_counts(&self) -> (counts: StmtTypeCounts)
        ensures
            counts@ == self@.kinds,
    {
        self.combined_stmt_type_counts
    }

    /// The time of the last arrival, as the caller gave it.
    pub fn last_updated(&self) -> (time: &str)
        ensures
            time@ == self.spec_last_updated(),
    {
        self.last_updated.as_str()
    }

    /// New failures in parts per million of all statements, rounded down;
    /// 0 where no statement was run.
    pub fn error_rate_ppm(&self) -> (rate: u64)
        ensures
            rate == spec_error_rate_ppm(self@.failed_new, self@.queries),
            self@.queries == 0 ==> rate == 0,
            rate <= 1_000_000,
    {
        proof {
            use_type_invariant(self);
        }
        error_rate_ppm(self.total_failed_new_count, self.total_queries)
    }

    /// Statements per second, in thousandths and rounded down, over the
    /// longest elapsed time; 0 where no time has elapsed.
    pub fn throughput_milli(&self) -> (rate: u128)
        ensures
            rate == spec_throughput_milli(self@.queries, self@.elapsed_ms),
            self@.elapsed_ms == 0 ==> rate == 0,
    {
        throughput_milli(self.total_queries, self.total_elapsed_ms)
    }
}

/// New failures in parts per million of all statements, rounded down; 0
/// where no statement was run.
pub fn error_rate_ppm(failed_new: u64, queries: u64) -> (rate: u64)
    requires
        failed_new <= queries,
    ensures
        rate == spec_error_rate_ppm(failed_new as nat, queries as nat),
        queries == 0 ==> rate == 0,
        rate <= 1_000_000,
{
    if queries == 0 {
        0
    } else {
        let scaled: u128 = failed_new as u128 * 1_000_000;
        let rate: u128 = scaled / queries as u128;
        proof {
            assert(failed_new * 1_000_000 <= queries * 1_000_000) by (nonlinear_arith)
                requires
                    failed_new <= queries,
            ;
            assert(scaled / queries as u128 <= 1_000_000) by (nonlinear_arith)
                requires
                    scaled <= queries * 1_000_000,
                    queries > 0,
            ;
        }
        rate as u64
    }
}

/// Statements per second, in thousandths and rounded down; 0 where no time
/// has elapsed.
pub fn throughput_milli(queries: u64, elapsed_ms: u64) -> (rate: u128)
    ensures
        rate == spec_throughput_milli(queries as nat, elapsed_ms as nat),
        elapsed_ms == 0 ==> rate == 0,
{
    if elapsed_ms == 0 {
        0
    } else {
        queries as u128 * 1_000_000 / elapsed_ms as u128
    }
}

/// Whether an executor identity is numeric.
pub fn is_valid_executor_id(id: &str) -> (valid: bool)
    ensures
        valid == is_numeric_id(id@),
{
    is_numeral(id)
}

/// The place where the records of all executor processes come together.
/// It holds no totals until the first record arrives.
#[derive(Debug)]
pub struct Aggregator {
    totals: Option<AggregatedStats>,
}

impl View for Aggregator {
    type V = Option<Totals>;

    closed spec fn view(&self) -> Option<Totals> {
        match self.totals {
            Some(totals) => Some(totals@),
            None => None,
        }
    }
}

impl Aggregator {
    /// The time of the last arrival, if a record has arrived.
    pub closed spec fn spec_last_updated(&self) -> Option<Seq<char>> {
        match self.totals {
            Some(totals) => Some(totals.spec_last_updated()),
            None => None,
        }
    }

    /// An aggregator without totals.
    pub fn new() -> (aggregator: Self)
        ensures
            aggregator@ is None,
    {
        Aggregator { totals: None }
    }

    /// The totals so far, if a record has arrived.
    pub fn totals(&self) -> (totals: Option<&AggregatedStats>)
        ensures
            match totals {
                Some(totals) => self@ == Some(totals@) && self.spec_last_updated() == Some(
                    totals.spec_last_updated(),
                ),
                None => self@ is None,
            },
    {
        self.totals.as_ref()
    }

    /// Takes the record `stats`, which arrived at the time `now`, into the
    /// totals.
    ///
    /// A record whose executor identity is not numeric is refused; so is one
    /// with which a counter would run over. A refused record changes
    /// nothing.
    pub fn submit(&mut self, stats: &ExecutionStats, now: String) -> (taken: Result<
        (),
        SubmitError,
    >)
        ensures
            !is_numeric_id(stats.spec_executor_id()) ==> taken == Err::<(), SubmitError>(
                SubmitError::InvalidExecutorId,
            ),
            is_numeric_id(stats.spec_executor_id()) && !representable(submitted(old(self)@, *stats))
                ==> taken == Err::<(), SubmitError>(SubmitError::CounterOverflow),
            is_numeric_id(stats.spec_executor_id()) && representable(submitted(old(self)@, *stats))
                ==> taken is Ok,
            taken is Ok ==> final(self)@ == Some(submitted(old(self)@, *stats))
                && final(self).spec_last_updated() == Some(now@),
            taken is Err ==> final(self)@ == old(self)@ && final(self).spec_last_updated() == old(
                self,
            ).spec_last_updated(),
    {
        if !is_valid_executor_id(stats.executor_id()) {
            return Err(SubmitError::InvalidExecutorId);
        }
        let counters = stats.counters();
        let queries = stats.total_queries();
        match &self.totals {
            None => {
                let totals = AggregatedStats {
                    total_executors: 1,
                    total_elapsed_ms: stats.elapsed_ms(),
                    total_success_count: counters.success_count,
                    total_failed_expected_count: counters.failed_expected_count,
                    total_failed_new_count: counters.failed_new_count,
                    total_queries: queries,
                    total_thread_count: stats.thread_count(),
                    combined_stmt_type_counts: counters.stmt_type_counts,
                    last_updated: now,
                };
                self.totals = Some(totals);
                Ok(())
            },
            Some(before) => {
                proof {
                    use_type_invariant(before);
                }
                let ghost after = combined(before@, totals_of(*stats));
                let fits = before.total_executors < u64::MAX && before.total_queries <= u64::MAX
                    - queries && before.total_thread_count <= u64::MAX - stats.thread_count()
                    && before.combined_stmt_type_counts.can_merge(&counters.stmt_type_counts);
                if !fits {
                    proof {
                        if !before.combined_stmt_type_counts.fits(&counters.stmt_type_counts) {
                            let kind = choose|kind: SqlKind|
                                !(#[trigger] before.combined_stmt_type_counts@[kind]
                                    + counters.stmt_type_counts@[kind] <= u64::MAX);
                            assert(after.kinds[kind] > u64::MAX);
                        }
                    }
                    return Err(SubmitError::CounterOverflow);
                }
                let mut kinds = before.combined_stmt_type_counts;
                kinds.merge(&counters.stmt_type_counts);
                let elapsed = if before.total_elapsed_ms >= stats.elapsed_ms() {
                    before.total_elapsed_ms
                } else {
                    stats.elapsed_ms()
                };
                let totals = AggregatedStats {
                    total_executors: before.total_executors + 1,
                    total_elapsed_ms: elapsed,
                    total_success_count: before.total_success_count + counters.success_count,
                    total_failed_expected_count: before.total_failed_expected_count
                        + counters.failed_expected_count,
                    total_failed_new_count: before.total_failed_new_count
                        + counters.failed_new_count,
                    total_queries: before.total_queries + queries,
                    total_thread_count: before.total_thread_count + stats.thread_count(),
                    combined_stmt_type_counts: kinds,
                    last_updated: now,
                };
                self.totals = Some(totals);
                Ok(())
            },
        }
    }
}

/// The totals as they are shown to whoever asks.
pub struct StatsReport {
    /// Whether any record has arrived; without one every number is 0.
    pub has_data: bool,
    /// The time of the last arrival, or the time of the question where no
    /// record has arrived.
    pub timestamp: String,
    /// The number of executors that have handed in a record.
    pub total_executors: u64,
    /// The number of executors that are still running; they are not
    /// tracked, so this is 0.
    pub active_executors: u64,
    /// The number of executors that are done: all that have handed in.
    pub completed_executors: u64,
    /// The number of statements that were run.
    pub total_queries: u64,
    /// The number of statements that succeeded.
    pub successful_queries: u64,
    /// The number of statements that failed as expected.
    pub failed_expected_queries: u64,
    /// The number of statements that failed in a new way.
    pub failed_new_queries: u64,
    /// New failures in parts per million of all statements.
    pub error_rate_ppm: u64,
    /// The number of statements of each kind.
    pub stmt_type_counts: StmtTypeCounts,
    /// The longest elapsed time of any executor, in milliseconds.
    pub max_execution_time_ms: u64,
    /// Statements per second, in thousandths.
    pub throughput_milli: u128,
    /// The number of workers of all executors together.
    pub total_thread_count: u64,
}

/// The totals of `aggregator` as they are shown at the time `now`.
pub fn collect_executor_results(aggregator: &Aggregator, now: &str) -> (report: StatsReport)
    ensures
        report.has_data == (aggregator@ is Some),
        report.active_executors == 0,
        report.completed_executors == report.total_executors,
        match aggregator@ {
            None => {
                &&& report.timestamp@ == now@
                &&& report.total_executors == 0
                &&& report.total_queries == 0
                &&& report.successful_queries == 0
                &&& report.failed_expected_queries == 0
                &&& report.failed_new_queries == 0
                &&& report.error_rate_ppm == 0
                &&& forall|kind: SqlKind| #[trigger] report.stmt_type_counts@[kind] == 0
                &&& report.max_execution_time_ms == 0
                &&& report.throughput_milli == 0
                &&& report.total_thread_count == 0
            },
            Some(totals) => {
                &&& Some(report.timestamp@) == aggregator.spec_last_updated()
                &&& report.total_executors == totals.executors
                &&& report.total_queries == totals.queries
                &&& report.successful_queries == totals.success
                &&& report.failed_expected_queries == totals.failed_expected
                &&& report.failed_new_queries == totals.failed_new
                &&& report.error_rate_ppm == spec_error_rate_ppm(totals.failed_new, totals.queries)
                &&& report.stmt_type_counts@ == totals.kinds
                &&& report.max_execution_time_ms == totals.elapsed_ms
                &&& report.throughput_milli == spec_throughput_milli(
                    totals.queries,
                    totals.elapsed_ms,
                )
                &&& report.total_thread_count == totals.threads
            },
        },
{
    match aggregator.totals() {
        None => StatsReport {
            has_data: false,
            timestamp: String::from_str(now),
            total_executors: 0,
            active_executors: 0,
            completed_executors: 0,
            total_queries: 0,
            successful_queries: 0,
            failed_expected_queries: 0,
            failed_new_queries: 0,
            error_rate_ppm: 0,
            stmt_type_counts: StmtTypeCounts::new(),
            max_execution_time_ms: 0,
            throughput_milli: 0,
            total_thread_count: 0,
        },
        Some(totals) => StatsReport {
            has_data: true,
            timestamp: String::from_str(totals.last_updated()),
            total_executors: totals.total_executors(),
            active_executors: 0,
            completed_executors: totals.total_executors(),
            total_queries: totals.total_queries(),
            successful_queries: totals.total_success_count(),
            failed_expected_queries: totals.total_failed_expected_count(),
            failed_new_queries: totals.total_failed_new_count(),
            error_rate_ppm: totals.error_rate_ppm(),
            stmt_type_counts: totals.combined_stmt_type_counts(),
            max_execution_time_ms: totals.total_elapsed_ms(),
            throughput_milli: totals.throughput_milli(),
            total_thread_count: totals.total_thread_count(),
        },
    }
}

} // verus!

//! The engine for SQLite: the workers of one executor process, each on an
//! in-memory database of its own.

use crate::drivers::sqlite_in_mem::{is_sqlite_failure, SqliteDriver};
use crate::drivers::{DriverError, DRIVER_KIND};
use crate::engines::worker::{
    carried_out, counts_kind, counts_weighted_kinds, follows, is_reported, next_plan,
    report_views, reported_count, run_engine_loop, shown, weight_in, weights_of, Report,
};
use crate::generators::common::insert_stmt_common::typed_lists;
use crate::engines::{fallback_sql, generate_sql_by_prob, Engine, EngineError, EngineRun};
use crate::generators::common::create_trigger_stmt_common::LiveTriggers;
use crate::generators::common::DriverKind;
use crate::profile::{DebugOptions, Profile, StmtProb};
use crate::rng::{spec_worker_seed, worker_seed, LcgRng};
use crate::generators::common::SqlKind;
use crate::stats::{
    counted_as, histogram_total, lemma_count_within_total, lemma_merge_totals,
    lemma_total_tally_push, tally, total_tally, ExecutionOutcome, RunCounters, StepRecord,
};
use vstd::prelude::*;
use vstd::string::*;

verus! {

/// The number of workers of an engine where the profile names none.
pub const DEFAULT_THREADS: usize = 5;

/// The generator state that a 64-bit seed stands for: its low 32 bits.
pub open spec fn spec_seed_state(seed: u64) -> u32 {
    (seed % 0x1_0000_0000) as u32
}

/// The generator state that a 64-bit seed stands for: its low 32 bits.
pub fn seed_state(seed: u64) -> (state: u32)
    ensures
        state == spec_seed_state(seed),
{
    (seed % 0x1_0000_0000) as u32
}

/// The engine for SQLite.
pub struct SqliteEngine {
    /// The generator of the engine itself; its state is the base seed of
    /// the workers.
    pub rng: LcgRng,
    /// The connection of the engine itself.
    pub sqlite_driver_box: SqliteDriver,
    /// The number of statements that each worker runs.
    pub run_count: usize,
    /// The number of workers.
    pub thread_per_exec: usize,
    /// The weights of the statement kinds.
    pub stmt_prob: Option<StmtProb>,
    /// What to report.
    pub debug: Option<DebugOptions>,
    /// The statements that set up the schema of each worker's database.
    pub schema_sql: String,
    /// The triggers that the engine's own generator has made.
    pub triggers: LiveTriggers,
}

/// All reports are of outcomes that `debug` asks to show.
pub open spec fn all_reported(debug: Option<DebugOptions>, reports: Seq<Report>) -> bool {
    forall|k: int| 0 <= k < reports.len() ==> is_reported(debug, (#[trigger] reports[k]).outcome)
}

/// The reported steps of all workers, worker after worker in the order of
/// their indices: for each the statement that was sent and how it ended.
pub open spec fn all_shown(debug: Option<DebugOptions>, logs: Seq<Seq<StepRecord>>) -> Seq<
    (Seq<char>, ExecutionOutcome),
>
    decreases logs.len(),
{
    if logs.len() == 0 {
        Seq::empty()
    } else {
        all_shown(debug, logs.drop_last()) + shown(debug, logs.last())
    }
}

/// The reports with one more worker are the reports so far, followed by
/// those of that worker.
pub proof fn lemma_all_shown_push(
    debug: Option<DebugOptions>,
    logs: Seq<Seq<StepRecord>>,
    log: Seq<StepRecord>,
)
    ensures
        all_shown(debug, logs.push(log)) == all_shown(debug, logs) + shown(debug, log),
{
    assert(logs.push(log).drop_last() =~= logs);
}

/// What the counters and the reports read once one more worker has joined:
/// the sum of the tallies with that worker, nothing under a kind of weight
/// 0, and the reports of that worker after those before it.
pub proof fn lemma_worker_joins(
    prob: Option<StmtProb>,
    debug: Option<DebugOptions>,
    logs: Seq<Seq<StepRecord>>,
    log: Seq<StepRecord>,
    before: RunCounters,
    worker: RunCounters,
    after: RunCounters,
)
    requires
        counted_as(before, total_tally(logs)),
        counted_as(worker, tally(log)),
        counts_weighted_kinds(prob, before),
        counts_weighted_kinds(prob, worker),
        after.success_count == before.success_count + worker.success_count,
        after.failed_expected_count == before.failed_expected_count
            + worker.failed_expected_count,
        after.failed_new_count == before.failed_new_count + worker.failed_new_count,
        after.stmt_type_counts@ == crate::stats::merged(
            before.stmt_type_counts@,
            worker.stmt_type_counts@,
        ),
    ensures
        counted_as(after, total_tally(logs.push(log))),
        counts_weighted_kinds(prob, after),
        all_shown(debug, logs.push(log)) == all_shown(debug, logs) + shown(debug, log),
{
    lemma_total_tally_push(logs, log);
    lemma_all_shown_push(debug, logs, log);
    assert forall|kind: SqlKind| weight_in(prob, kind) == 0 implies #[trigger]
        after.stmt_type_counts@[kind] == 0 by {
        assert(before.stmt_type_counts@[kind] == 0);
        assert(worker.stmt_type_counts@[kind] == 0);
    }
}

/// The number of workers that a profile asks for.
pub open spec fn threads_of(profile: Profile) -> usize {
    match profile.thread_per_exec {
        Some(threads) => threads,
        None => DEFAULT_THREADS,
    }
}

impl SqliteEngine {
    /// Whether `run` is a way in which a run of the engine can end.
    ///
    /// The seed of the worker with index `n`: the state of the engine's
    /// generator plus the index, wrapping.
    pub open spec fn seed_of_worker(&self, n: int) -> u32 {
        spec_worker_seed(self.rng@, (n % 0x1_0000_0000) as u32)
    }

    /// Whether `log` holds the steps of the worker with index `n`:
    /// `run_count` steps, each with the statement that the generator plans
    /// at that step from the seed of that worker, over the schema that the
    /// worker's driver read then.
    pub open spec fn worker_followed(&self, n: int, log: Seq<StepRecord>) -> bool {
        &&& log.len() == self.run_count
        &&& exists|schemas: Seq<Seq<(Seq<char>, Seq<(Seq<char>, Seq<char>)>)>>| #[trigger]
            follows(
                weights_of(self.stmt_prob),
                DriverKind::Sqlite,
                self.seed_of_worker(n),
                schemas,
                log,
            )
    }

    /// A log that follows the plan from the seed of worker `n` over some
    /// schemas is the log of that worker.
    pub proof fn lemma_worker_followed(
        &self,
        n: int,
        schemas: Seq<Seq<(Seq<char>, Seq<(Seq<char>, Seq<char>)>)>>,
        log: Seq<StepRecord>,
    )
        requires
            log.len() == self.run_count,
            follows(
                weights_of(self.stmt_prob),
                DriverKind::Sqlite,
                self.seed_of_worker(n),
                schemas,
                log,
            ),
        ensures
            self.worker_followed(n, log),
    {
    }

    /// Two engines with the same base seed and the same weights, whose
    /// workers with index `n` read the same schema before each of their
    /// statements, have those workers send the same statements, character
    /// for character: on every run, however the workers are interleaved.
    pub proof fn lemma_same_run_same_statements(
        &self,
        other: &SqliteEngine,
        n: int,
        schemas: Seq<Seq<(Seq<char>, Seq<(Seq<char>, Seq<char>)>)>>,
        log: Seq<StepRecord>,
        other_log: Seq<StepRecord>,
    )
        requires
            self.rng@ == other.rng@,
            self.stmt_prob == other.stmt_prob,
            follows(
                weights_of(self.stmt_prob),
                DriverKind::Sqlite,
                self.seed_of_worker(n),
                schemas,
                log,
            ),
            follows(
                weights_of(other.stmt_prob),
                DriverKind::Sqlite,
                other.seed_of_worker(n),
                schemas,
                other_log,
            ),
        ensures
            log.len() == other_log.len(),
            forall|i: int|
                0 <= i < log.len() ==> (#[trigger] log[i]).sql == other_log[i].sql && log[i].kind
                    == other_log[i].kind,
    {
        crate::engines::worker::lemma_follows_deterministic(
            weights_of(self.stmt_prob),
            DriverKind::Sqlite,
            self.seed_of_worker(n),
            schemas,
            log,
            other_log,
        );
    }

    /// One more worker that followed its plan joins those that did.
    pub proof fn lemma_one_more_worker(&self, logs: Seq<Seq<StepRecord>>, log: Seq<StepRecord>)
        requires
            forall|m: int| 0 <= m < logs.len() ==> self.worker_followed(m, #[trigger] logs[m]),
            self.worker_followed(logs.len() as int, log),
        ensures
            forall|m: int|
                0 <= m < logs.len() + 1 ==> self.worker_followed(m, #[trigger] logs.push(log)[m]),
    {
        let grown = logs.push(log);
        assert forall|m: int| 0 <= m < logs.len() + 1 implies self.worker_followed(
            m,
            #[trigger] grown[m],
        ) by {
            if m < logs.len() {
                assert(grown[m] == logs[m]);
            }
        }
    }

    /// A run that is longer than the counters can count ends in
    /// `CounterOverflow`, and no other run does. The only other failure is
    /// one of SQLite, and an engine without workers meets none.
    ///
    /// A run that succeeds carries, for contracts, the log of every worker.
    /// Worker `n` has run `run_count` statements, each the one that the
    /// generator plans at that step from the seed `base + n`. The counters
    /// are the sum of the tallies of the workers, the histogram their
    /// key-wise sum, so a kind of weight 0 is counted 0 times. The reports
    /// are the steps that `debug` asks to show, worker after worker, each
    /// with the statement that was sent.
    pub open spec fn ran(&self, run: Result<EngineRun, EngineError>) -> bool {
        let length = self.thread_per_exec * self.run_count;
        match run {
            Err(EngineError::CounterOverflow) => length > u64::MAX,
            Err(EngineError::Driver(failure)) => {
                &&& length <= u64::MAX
                &&& self.thread_per_exec > 0
                &&& is_sqlite_failure(failure)
            },
            Ok(done) => {
                &&& length <= u64::MAX
                &&& done.counters.attempts() == length
                &&& histogram_total(done.counters.stmt_type_counts@) == if counts_kind(
                    self.stmt_prob,
                ) {
                    length as nat
                } else {
                    0
                }
                &&& all_reported(self.debug, done.reports@)
                &&& done.reports.len() == reported_count(self.debug, done.counters)
                &&& done.logs@.len() == self.thread_per_exec
                &&& forall|n: int|
                    0 <= n < self.thread_per_exec ==> self.worker_followed(
                        n,
                        #[trigger] done.logs@[n],
                    )
                &&& counted_as(done.counters, total_tally(done.logs@))
                &&& report_views(done.reports@) == all_shown(self.debug, done.logs@)
                &&& counts_weighted_kinds(self.stmt_prob, done.counters)
            },
        }
    }

    /// Whether the engine is a fresh one for a run of `run_count` statements
    /// for each worker under `seed` and `profile`, with `schema_sql` for the
    /// databases of its workers.
    pub open spec fn fresh_for(
        &self,
        seed: u64,
        run_count: usize,
        profile: Profile,
        schema_sql: Seq<char>,
    ) -> bool {
        &&& self.rng@ == spec_seed_state(seed)
        &&& self.run_count == run_count
        &&& self.thread_per_exec == threads_of(profile)
        &&& self.stmt_prob == profile.stmt_prob
        &&& self.debug == profile.debug
        &&& self.schema_sql@ == schema_sql
        &&& self.triggers.live() == Seq::<Seq<char>>::empty()
        &&& self.triggers.serial() == 0
    }

    /// The engine on the driver that was made ready for it, or the failure
    /// to make one ready.
    pub fn on(
        ready: Result<SqliteDriver, DriverError>,
        seed: u64,
        run_count: usize,
        profile: &Profile,
        schema_sql: &str,
    ) -> (engine: Result<SqliteEngine, DriverError>)
        ensures
            ready matches Ok(driver) ==> (engine matches Ok(engine) && engine.sqlite_driver_box
                == driver && engine.fresh_for(seed, run_count, *profile, schema_sql@)),
            ready matches Err(failure) ==> (engine matches Err(same) && same == failure),
    {
        match ready {
            Ok(driver) => {
                let thread_per_exec = match profile.thread_per_exec {
                    Some(threads) => threads,
                    None => DEFAULT_THREADS,
                };
                Ok(
                    SqliteEngine {
                        rng: LcgRng::new(seed_state(seed)),
                        sqlite_driver_box: driver,
                        run_count,
                        thread_per_exec,
                        stmt_prob: profile.stmt_prob,
                        debug: profile.debug,
                        schema_sql: String::from_str(schema_sql),
                        triggers: LiveTriggers::new(),
                    },
                )
            },
            Err(failure) => Err(failure),
        }
    }
}

/// An engine of kind `kind` with the settings of `profile`, whose workers
/// set up their databases with `schema_sql`. Only SQLite has an engine
/// here: Limbo gives `Unsupported`, and nothing else does. For SQLite the
/// engine gets a database of its own, set up with `schema_sql`; whether that
/// succeeds is for SQLite to say, and a failure is one of SQLite.
pub fn with_driver_kind(
    seed: u64,
    kind: DRIVER_KIND,
    run_count: usize,
    profile: &Profile,
    schema_sql: &str,
) -> (engine: Result<SqliteEngine, DriverError>)
    ensures
        kind == DRIVER_KIND::LIMBO_IN_MEM ==> engine matches Err(DriverError::Unsupported),
        kind == DRIVER_KIND::SQLITE_IN_MEM ==> (engine matches Err(failure) ==> is_sqlite_failure(
            failure,
        )),
        engine matches Ok(engine) ==> kind == DRIVER_KIND::SQLITE_IN_MEM && engine.fresh_for(
            seed,
            run_count,
            *profile,
            schema_sql@,
        ),
{
    match kind {
        DRIVER_KIND::LIMBO_IN_MEM => Err(DriverError::Unsupported),
        DRIVER_KIND::SQLITE_IN_MEM => SqliteEngine::on(
            SqliteDriver::with_schema(schema_sql),
            seed,
            run_count,
            profile,
            schema_sql,
        ),
    }
}

impl SqliteEngine {
    /// Runs the workers of the engine one after the other, each on a fresh
    /// database with seed `base + index`, the state of the engine's
    /// generator being the base, and adds up their counters.
    ///
    /// A run that is longer than the counters can count is refused before
    /// any statement runs. Else every worker runs `run_count` statements,
    /// unless one of them cannot get or set up its connection, which ends
    /// the run with that failure of SQLite. An engine without workers asks
    /// nothing of SQLite, and its run succeeds.
    pub fn run_workers(&self) -> (run: Result<EngineRun, EngineError>)
        ensures
            self.ran(run),
    {
        proof {
            assert(self.thread_per_exec * self.run_count <= 0xffff_ffff_ffff_ffff
                * 0xffff_ffff_ffff_ffff) by (nonlinear_arith)
                requires
                    self.thread_per_exec <= 0xffff_ffff_ffff_ffff,
                    self.run_count <= 0xffff_ffff_ffff_ffff,
            ;
        }
        let wide: u128 = self.thread_per_exec as u128 * self.run_count as u128;
        if wide > u64::MAX as u128 {
            return Err(EngineError::CounterOverflow);
        }
        let base_seed = self.rng.get_seed();
        let mut counters = RunCounters::new();
        let mut reports: Vec<Report> = Vec::new();
        let ghost mut logs: Seq<Seq<StepRecord>> = Seq::empty();
        let mut n: usize = 0;
        proof {
            assert(counters.stmt_type_counts@ =~= total_tally(logs).kinds);
            assert(report_views(reports@) =~= all_shown(self.debug, logs));
        }
        while n < self.thread_per_exec
            invariant
                n <= self.thread_per_exec,
                base_seed == self.rng@,
                logs.len() == n,
                forall|m: int| 0 <= m < n ==> self.worker_followed(m, #[trigger] logs[m]),
                counted_as(counters, total_tally(logs)),
                report_views(reports@) == all_shown(self.debug, logs),
                counts_weighted_kinds(self.stmt_prob, counters),
                self.thread_per_exec * self.run_count <= u64::MAX,
                counters.attempts() == n * self.run_count,
                histogram_total(counters.stmt_type_counts@) == if counts_kind(self.stmt_prob) {
                    (n * self.run_count) as nat
                } else {
                    0
                },
                all_reported(self.debug, reports@),
                reports.len() == reported_count(self.debug, counters),
            decreases self.thread_per_exec - n,
        {
            let driver = match SqliteDriver::with_schema(self.schema_sql.as_str()) {
                Ok(driver) => driver,
                Err(failure) => {
                    return Err(EngineError::Driver(failure));
                },
            };
            let index: u32 = (n as u64 % 0x1_0000_0000) as u32;
            let seed = worker_seed(base_seed, index);
            let mut result = run_engine_loop(
                &driver,
                DriverKind::Sqlite,
                seed,
                self.run_count,
                &self.stmt_prob,
                &self.debug,
            );
            proof {
                assert(seed == self.seed_of_worker(n as int));
                let schemas = choose|schemas: Seq<Seq<(Seq<char>, Seq<(Seq<char>, Seq<char>)>)>>|
                    #[trigger] follows(
                        weights_of(self.stmt_prob),
                        DriverKind::Sqlite,
                        seed,
                        schemas,
                        result.log@,
                    );
                self.lemma_worker_followed(n as int, schemas, result.log@);
            }
            proof {
                assert((n + 1) * self.run_count == n * self.run_count + self.run_count)
                    by (nonlinear_arith);
                assert((n + 1) * self.run_count <= self.thread_per_exec * self.run_count)
                    by (nonlinear_arith)
                    requires
                        n + 1 <= self.thread_per_exec,
                ;
                assert forall|kind: SqlKind| #[trigger]
                    counters.stmt_type_counts@[kind] + result.counters.stmt_type_counts@[kind]
                        <= u64::MAX by {
                    lemma_count_within_total(counters.stmt_type_counts@, kind);
                    lemma_count_within_total(result.counters.stmt_type_counts@, kind);
                }
            }
            let ghost counted = counters.stmt_type_counts@;
            let ghost before = counters;
            let ghost listed = report_views(reports@);
            let ghost added = report_views(result.reports@);
            counters.absorb(&result.counters);
            reports.append(&mut result.reports);
            proof {
                lemma_merge_totals(counted, result.counters.stmt_type_counts@);
                lemma_worker_joins(
                    self.stmt_prob,
                    self.debug,
                    logs,
                    result.log@,
                    before,
                    result.counters,
                    counters,
                );
                assert(report_views(reports@) =~= listed + added);
                self.lemma_one_more_worker(logs, result.log@);
                logs = logs.push(result.log@);
            }
            n += 1;
        }
        Ok(EngineRun { counters, reports, logs: Ghost(logs) })
    }
}

impl Engine for SqliteEngine {
    fn run(&mut self) -> (run: Result<EngineRun, EngineError>)
        ensures
            *final(self) == *old(self),
            old(self).ran(run),
    {
        self.run_workers()
    }

    fn generate_sql(&mut self) -> (sql: String)
        ensures
            final(self).sqlite_driver_box == old(self).sqlite_driver_box,
            final(self).run_count == old(self).run_count,
            final(self).thread_per_exec == old(self).thread_per_exec,
            final(self).stmt_prob == old(self).stmt_prob,
            final(self).debug == old(self).debug,
            final(self).schema_sql == old(self).schema_sql,
            exists|tables: Seq<(Seq<char>, Seq<(Seq<char>, Seq<char>)>)>|
                carried_out(
                    #[trigger] next_plan(
                        weights_of(old(self).stmt_prob),
                        DriverKind::Sqlite,
                        tables,
                        old(self).rng@,
                        old(self).triggers.live(),
                        old(self).triggers.serial(),
                    ),
                    sql@,
                    final(self).rng@,
                    final(self).triggers.live(),
                    final(self).triggers.serial(),
                ),
            !counts_kind(old(self).stmt_prob) ==> sql@ == fallback_sql() && final(self).rng@
                == old(self).rng@,
    {
        let tables = crate::generators::sqlite::schema::get(&self.sqlite_driver_box);
        let sql = match &self.stmt_prob {
            Some(prob) => generate_sql_by_prob(
                prob,
                &mut self.rng,
                DriverKind::Sqlite,
                tables.as_slice(),
                &mut self.triggers,
            ),
            None => String::from_str("SELECT 1;"),
        };
        proof {
            assert(carried_out(
                next_plan(
                    weights_of(old(self).stmt_prob),
                    DriverKind::Sqlite,
                    typed_lists(tables@),
                    old(self).rng@,
                    old(self).triggers.live(),
                    old(self).triggers.serial(),
                ),
                sql@,
                self.rng@,
                self.triggers.live(),
                self.triggers.serial(),
            ));
        }
        sql
    }

    fn get_driver_kind(&self) -> (kind: DRIVER_KIND)
        ensures
            kind == DRIVER_KIND::SQLITE_IN_MEM,
    {
        DRIVER_KIND::SQLITE_IN_MEM
    }
}

} // verus!

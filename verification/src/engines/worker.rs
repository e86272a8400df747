//! One worker: it generates a statement, has it run, classifies the answer
//! and counts, a fixed number of times.

use crate::drivers::{DatabaseDriver, DriverError, DRIVER_KIND};
use crate::engines::{
    choose_and_generate, chosen_kind, fallback_sql, generation, lemma_chosen_kind_has_weight,
    lemma_generation_keeps_numbered, unweighted, Generated,
};
use crate::generators::common::create_trigger_stmt_common::{
    all_distinct, lemma_empty_is_numbered, lemma_numbered_names_distinct, numbered, LiveTriggers,
};
use crate::generators::common::insert_stmt_common::{typed_lists, TableColumnLike};
use crate::generators::common::{DriverKind, Plan, SqlKind};
use crate::profile::{DebugOptions, StmtProb};
use crate::rng::LcgRng;
use crate::stats::{
    bumped, classify, counted_as, histogram_total, outcome_of, recorded, tally, ExecutionOutcome,
    RunCounters, StepRecord,
};
use crate::text::views;
use vstd::prelude::*;
use vstd::string::*;

verus! {

/// The weights that a probability table stands for, if one is given.
pub open spec fn weights_of(prob: Option<StmtProb>) -> Option<Seq<nat>> {
    match prob {
        Some(prob) => Some(prob.weights()),
        None => None,
    }
}

/// The statement that a worker runs next, with the states afterwards: the
/// fallback statement where no weights are given, else a statement of the
/// kind that the weights select.
pub open spec fn next_plan(
    weights: Option<Seq<nat>>,
    driver: DriverKind,
    tables: Seq<(Seq<char>, Seq<(Seq<char>, Seq<char>)>)>,
    state: u32,
    live: Seq<Seq<char>>,
    serial: nat,
) -> Plan {
    match weights {
        Some(weights) => generation(weights, driver, tables, state, live, serial),
        None => unweighted(state, live, serial),
    }
}

/// Whether the statement `sql` and the states after it are those of `plan`.
pub open spec fn carried_out(
    plan: Plan,
    sql: Seq<char>,
    state: u32,
    live: Seq<Seq<char>>,
    serial: nat,
) -> bool {
    &&& plan.sql == Some(sql)
    &&& plan.state == state
    &&& plan.live == live
    &&& plan.serial == serial
}

/// Whether a worker in the states `state`, `live` and `serial` stands where
/// `plan` ends.
pub open spec fn carried_through(
    plan: Plan,
    state: u32,
    live: Seq<Seq<char>>,
    serial: nat,
) -> bool {
    &&& plan.state == state
    &&& plan.live == live
    &&& plan.serial == serial
}

/// The kind that is counted for the next statement, if any.
pub open spec fn next_kind(weights: Option<Seq<nat>>, state: u32) -> Option<SqlKind> {
    match weights {
        Some(weights) => chosen_kind(weights, state),
        None => None,
    }
}

/// The plan of the `n`-th statement of a worker that starts in `state`
/// without live triggers and sees the same `tables` at every step; before
/// the first statement the plan holds no statement.
pub open spec fn nth_plan(
    weights: Option<Seq<nat>>,
    driver: DriverKind,
    tables: Seq<(Seq<char>, Seq<(Seq<char>, Seq<char>)>)>,
    state: u32,
    n: nat,
) -> Plan
    decreases n,
{
    if n == 0 {
        Plan { sql: None, state, live: Seq::empty(), serial: 0 }
    } else {
        let before = nth_plan(weights, driver, tables, state, (n - 1) as nat);
        next_plan(weights, driver, tables, before.state, before.live, before.serial)
    }
}

/// The first `n` statements of a worker with seed `seed` that sees the same
/// `tables` at every step.
pub open spec fn statements(
    weights: Option<Seq<nat>>,
    driver: DriverKind,
    tables: Seq<(Seq<char>, Seq<(Seq<char>, Seq<char>)>)>,
    seed: u32,
    n: nat,
) -> Seq<Seq<char>> {
    Seq::new(n, |i: int| nth_plan(weights, driver, tables, seed, (i + 1) as nat).sql->0)
}

/// The plan of the `n`-th statement of a worker that starts in `seed`
/// without live triggers and reads the schema `schemas[i]` before its
/// statement `i`; before the first statement the plan holds no statement.
pub open spec fn plan_over(
    weights: Option<Seq<nat>>,
    driver: DriverKind,
    schemas: Seq<Seq<(Seq<char>, Seq<(Seq<char>, Seq<char>)>)>>,
    seed: u32,
    n: nat,
) -> Plan
    decreases n,
{
    if n == 0 {
        Plan { sql: None, state: seed, live: Seq::empty(), serial: 0 }
    } else {
        let before = plan_over(weights, driver, schemas, seed, (n - 1) as nat);
        next_plan(weights, driver, schemas[n - 1], before.state, before.live, before.serial)
    }
}

/// Whether `step` is step `i` of a worker with seed `seed` that reads the
/// schemas `schemas`: its kind is the one that the weights select in the
/// state after `i` steps, and its statement the one that is planned then.
pub open spec fn step_follows(
    weights: Option<Seq<nat>>,
    driver: DriverKind,
    seed: u32,
    schemas: Seq<Seq<(Seq<char>, Seq<(Seq<char>, Seq<char>)>)>>,
    i: int,
    step: StepRecord,
) -> bool {
    &&& step.kind == next_kind(weights, plan_over(weights, driver, schemas, seed, i as nat).state)
    &&& Some(step.sql) == plan_over(weights, driver, schemas, seed, (i + 1) as nat).sql
}

/// Whether `log` holds the steps of a worker with seed `seed` that read
/// the schema `schemas[i]` before its statement `i`: every statement is the
/// one that the generator plans at that step.
pub open spec fn follows(
    weights: Option<Seq<nat>>,
    driver: DriverKind,
    seed: u32,
    schemas: Seq<Seq<(Seq<char>, Seq<(Seq<char>, Seq<char>)>)>>,
    log: Seq<StepRecord>,
) -> bool {
    &&& schemas.len() == log.len()
    &&& forall|i: int|
        0 <= i < log.len() ==> step_follows(weights, driver, seed, schemas, i, #[trigger] log[i])
}

/// The plan after `n` steps looks at the first `n` schemas alone.
pub proof fn lemma_plan_over_prefix(
    weights: Option<Seq<nat>>,
    driver: DriverKind,
    schemas: Seq<Seq<(Seq<char>, Seq<(Seq<char>, Seq<char>)>)>>,
    longer: Seq<Seq<(Seq<char>, Seq<(Seq<char>, Seq<char>)>)>>,
    seed: u32,
    n: nat,
)
    requires
        n <= schemas.len() <= longer.len(),
        forall|i: int| 0 <= i < n ==> #[trigger] schemas[i] == longer[i],
    ensures
        plan_over(weights, driver, schemas, seed, n) == plan_over(weights, driver, longer, seed, n),
    decreases n,
{
    if n > 0 {
        lemma_plan_over_prefix(weights, driver, schemas, longer, seed, (n - 1) as nat);
        assert(schemas[n - 1] == longer[n - 1]);
    }
}

/// One more step that follows the plan over one more schema is one more
/// step of the same worker.
pub proof fn lemma_follows_push(
    weights: Option<Seq<nat>>,
    driver: DriverKind,
    seed: u32,
    schemas: Seq<Seq<(Seq<char>, Seq<(Seq<char>, Seq<char>)>)>>,
    log: Seq<StepRecord>,
    tables: Seq<(Seq<char>, Seq<(Seq<char>, Seq<char>)>)>,
    step: StepRecord,
)
    requires
        follows(weights, driver, seed, schemas, log),
        step.kind == next_kind(
            weights,
            plan_over(weights, driver, schemas, seed, log.len()).state,
        ),
        Some(step.sql) == next_plan(
            weights,
            driver,
            tables,
            plan_over(weights, driver, schemas, seed, log.len()).state,
            plan_over(weights, driver, schemas, seed, log.len()).live,
            plan_over(weights, driver, schemas, seed, log.len()).serial,
        ).sql,
    ensures
        follows(weights, driver, seed, schemas.push(tables), log.push(step)),
        plan_over(weights, driver, schemas.push(tables), seed, log.len() + 1) == next_plan(
            weights,
            driver,
            tables,
            plan_over(weights, driver, schemas, seed, log.len()).state,
            plan_over(weights, driver, schemas, seed, log.len()).live,
            plan_over(weights, driver, schemas, seed, log.len()).serial,
        ),
{
    let longer = schemas.push(tables);
    let grown = log.push(step);
    lemma_plan_over_prefix(weights, driver, schemas, longer, seed, log.len());
    assert(longer[log.len() as int] == tables);
    assert forall|i: int| 0 <= i < grown.len() implies step_follows(
        weights,
        driver,
        seed,
        longer,
        i,
        #[trigger] grown[i],
    ) by {
        if i < log.len() {
            lemma_plan_over_prefix(weights, driver, schemas, longer, seed, i as nat);
            lemma_plan_over_prefix(weights, driver, schemas, longer, seed, (i + 1) as nat);
            assert(step_follows(weights, driver, seed, schemas, i, log[i]));
        }
    }
}

/// Two workers that are built from the same seed and the same weights, and
/// that read the same schema before each of their statements, send the same
/// statements, character for character, and count them under the same
/// kinds: whatever else runs beside them.
pub proof fn lemma_follows_deterministic(
    weights: Option<Seq<nat>>,
    driver: DriverKind,
    seed: u32,
    schemas: Seq<Seq<(Seq<char>, Seq<(Seq<char>, Seq<char>)>)>>,
    log: Seq<StepRecord>,
    other_log: Seq<StepRecord>,
)
    requires
        follows(weights, driver, seed, schemas, log),
        follows(weights, driver, seed, schemas, other_log),
    ensures
        log.len() == other_log.len(),
        forall|i: int|
            0 <= i < log.len() ==> (#[trigger] log[i]).sql == other_log[i].sql && log[i].kind
                == other_log[i].kind,
{
    assert forall|i: int| 0 <= i < log.len() implies (#[trigger] log[i]).sql == other_log[i].sql
        && log[i].kind == other_log[i].kind by {
        assert(step_follows(weights, driver, seed, schemas, i, log[i]));
        assert(step_follows(weights, driver, seed, schemas, i, other_log[i]));
    }
}

/// Over a schema that does not change, the plan over the schemas is the
/// plan over that schema.
pub proof fn lemma_plan_over_fixed(
    weights: Option<Seq<nat>>,
    driver: DriverKind,
    tables: Seq<(Seq<char>, Seq<(Seq<char>, Seq<char>)>)>,
    schemas: Seq<Seq<(Seq<char>, Seq<(Seq<char>, Seq<char>)>)>>,
    seed: u32,
    n: nat,
)
    requires
        n <= schemas.len(),
        forall|i: int| 0 <= i < n ==> #[trigger] schemas[i] == tables,
    ensures
        plan_over(weights, driver, schemas, seed, n) == nth_plan(weights, driver, tables, seed, n),
    decreases n,
{
    if n > 0 {
        lemma_plan_over_fixed(weights, driver, tables, schemas, seed, (n - 1) as nat);
        assert(schemas[n - 1] == tables);
    }
}

/// A worker that reads the same schema before every statement sends the
/// statements that `statements` gives for that schema.
pub proof fn lemma_follows_fixed_schema(
    weights: Option<Seq<nat>>,
    driver: DriverKind,
    seed: u32,
    tables: Seq<(Seq<char>, Seq<(Seq<char>, Seq<char>)>)>,
    schemas: Seq<Seq<(Seq<char>, Seq<(Seq<char>, Seq<char>)>)>>,
    log: Seq<StepRecord>,
)
    requires
        follows(weights, driver, seed, schemas, log),
        forall|i: int| 0 <= i < schemas.len() ==> #[trigger] schemas[i] == tables,
    ensures
        forall|i: int|
            0 <= i < log.len() ==> (#[trigger] log[i]).sql == statements(
                weights,
                driver,
                tables,
                seed,
                log.len(),
            )[i],
{
    assert forall|i: int| 0 <= i < log.len() implies (#[trigger] log[i]).sql == statements(
        weights,
        driver,
        tables,
        seed,
        log.len(),
    )[i] by {
        assert(step_follows(weights, driver, seed, schemas, i, log[i]));
        lemma_plan_over_fixed(weights, driver, tables, schemas, seed, (i + 1) as nat);
    }
}

/// At every step of a worker the record of triggers is numbered.
pub proof fn lemma_nth_plan_numbered(
    weights: Option<Seq<nat>>,
    driver: DriverKind,
    tables: Seq<(Seq<char>, Seq<(Seq<char>, Seq<char>)>)>,
    seed: u32,
    n: nat,
)
    ensures
        numbered(
            nth_plan(weights, driver, tables, seed, n).live,
            nth_plan(weights, driver, tables, seed, n).serial,
        ),
    decreases n,
{
    if n == 0 {
        lemma_empty_is_numbered(0);
    } else {
        lemma_nth_plan_numbered(weights, driver, tables, seed, (n - 1) as nat);
        let before = nth_plan(weights, driver, tables, seed, (n - 1) as nat);
        match weights {
            Some(weights) => {
                lemma_generation_keeps_numbered(
                    weights,
                    driver,
                    tables,
                    before.state,
                    before.live,
                    before.serial,
                );
            },
            None => {},
        }
    }
}

/// At every step of a worker no two live triggers share a name, so a
/// `DROP TRIGGER` always means one trigger and no other.
pub proof fn lemma_live_triggers_distinct(
    weights: Option<Seq<nat>>,
    driver: DriverKind,
    tables: Seq<(Seq<char>, Seq<(Seq<char>, Seq<char>)>)>,
    seed: u32,
    n: nat,
)
    ensures
        all_distinct(nth_plan(weights, driver, tables, seed, n).live),
{
    lemma_nth_plan_numbered(weights, driver, tables, seed, n);
    let plan = nth_plan(weights, driver, tables, seed, n);
    lemma_numbered_names_distinct(plan.live, plan.serial);
}

/// Two workers that are built from the same seed, the same schema and the
/// same weights send the same statements, character for character.
pub proof fn lemma_statements_deterministic(
    weights: Option<Seq<nat>>,
    other_weights: Option<Seq<nat>>,
    driver: DriverKind,
    other_driver: DriverKind,
    tables: Seq<(Seq<char>, Seq<(Seq<char>, Seq<char>)>)>,
    other_tables: Seq<(Seq<char>, Seq<(Seq<char>, Seq<char>)>)>,
    seed: u32,
    other_seed: u32,
    n: nat,
)
    requires
        weights == other_weights,
        driver == other_driver,
        tables == other_tables,
        seed == other_seed,
    ensures
        statements(weights, driver, tables, seed, n) == statements(
            other_weights,
            other_driver,
            other_tables,
            other_seed,
            n,
        ),
{
}

/// Where all weights are 0, every step of a worker plans the fallback
/// statement and leaves the generator as it was.
pub proof fn lemma_zero_weights_plan(
    weights: Seq<nat>,
    driver: DriverKind,
    tables: Seq<(Seq<char>, Seq<(Seq<char>, Seq<char>)>)>,
    seed: u32,
    n: nat,
)
    requires
        crate::profile::total_weight(weights) == 0,
    ensures
        nth_plan(Some(weights), driver, tables, seed, n).state == seed,
        n > 0 ==> nth_plan(Some(weights), driver, tables, seed, n).sql == Some(fallback_sql()),
    decreases n,
{
    if n > 0 {
        lemma_zero_weights_plan(weights, driver, tables, seed, (n - 1) as nat);
    }
}

/// Where all weights are 0, every statement is the fallback statement.
pub proof fn lemma_zero_weights_fall_back(
    weights: Seq<nat>,
    driver: DriverKind,
    tables: Seq<(Seq<char>, Seq<(Seq<char>, Seq<char>)>)>,
    seed: u32,
    n: nat,
)
    requires
        crate::profile::total_weight(weights) == 0,
    ensures
        forall|i: int|
            0 <= i < n ==> #[trigger] statements(Some(weights), driver, tables, seed, n)[i]
                == fallback_sql(),
{
    assert forall|i: int| 0 <= i < n implies #[trigger] statements(
        Some(weights),
        driver,
        tables,
        seed,
        n,
    )[i] == fallback_sql() by {
        lemma_zero_weights_plan(weights, driver, tables, seed, (i + 1) as nat);
    }
}

/// Whether the statement with this outcome is reported: a success where
/// successes are shown, a new failure where failures are shown, an expected
/// failure never.
pub open spec fn is_reported(debug: Option<DebugOptions>, outcome: ExecutionOutcome) -> bool {
    match debug {
        None => false,
        Some(debug) => match outcome {
            ExecutionOutcome::Success(_) => debug.show_success_sql,
            ExecutionOutcome::ExpectedFailure => false,
            ExecutionOutcome::NewFailure => debug.show_failed_sql,
        },
    }
}

/// The engine that statements are generated for, by the kind of its driver.
pub fn generator_kind(kind: DRIVER_KIND) -> (driver: DriverKind)
    ensures
        driver == crate::generators::generator_of(kind),
{
    match kind {
        DRIVER_KIND::SQLITE_IN_MEM => DriverKind::Sqlite,
        DRIVER_KIND::LIMBO_IN_MEM => DriverKind::Limbo,
    }
}

/// Whether the statement with this outcome is reported.
pub fn should_report(debug: &Option<DebugOptions>, outcome: ExecutionOutcome) -> (shown: bool)
    ensures
        shown == is_reported(*debug, outcome),
{
    match debug {
        None => false,
        Some(debug) => match outcome {
            ExecutionOutcome::Success(_) => debug.show_success_sql,
            ExecutionOutcome::ExpectedFailure => false,
            ExecutionOutcome::NewFailure => debug.show_failed_sql,
        },
    }
}

/// One statement that a worker ran, for the log.
pub struct Report {
    /// The statement.
    pub sql: String,
    /// How it ended.
    pub outcome: ExecutionOutcome,
}

/// What a worker hands back when it is done.
pub struct WorkerResult {
    /// The counters of the worker.
    pub counters: RunCounters,
    /// The statements to report, in the order in which they ran.
    pub reports: Vec<Report>,
    /// For contracts alone: every step of the worker, in order.
    pub log: Ghost<Seq<StepRecord>>,
}

/// The reports as contracts see them: for each the statement and how it
/// ended.
pub open spec fn report_views(reports: Seq<Report>) -> Seq<(Seq<char>, ExecutionOutcome)> {
    Seq::new(reports.len(), |k: int| (reports[k].sql@, reports[k].outcome))
}

/// The steps of `log` that are reported, in order: for each the statement
/// that was sent and how it ended.
pub open spec fn shown(debug: Option<DebugOptions>, log: Seq<StepRecord>) -> Seq<
    (Seq<char>, ExecutionOutcome),
>
    decreases log.len(),
{
    if log.len() == 0 {
        Seq::empty()
    } else if is_reported(debug, log.last().outcome) {
        shown(debug, log.drop_last()).push((log.last().sql, log.last().outcome))
    } else {
        shown(debug, log.drop_last())
    }
}

/// The weight of `kind` under `prob`; 0 where no weights are given.
pub open spec fn weight_in(prob: Option<StmtProb>, kind: SqlKind) -> nat {
    match prob {
        Some(prob) => prob.weight(kind),
        None => 0,
    }
}

/// Whether the histogram of `counters` counts nothing under the kinds of
/// weight 0.
pub open spec fn counts_weighted_kinds(prob: Option<StmtProb>, counters: RunCounters) -> bool {
    forall|kind: SqlKind|
        weight_in(prob, kind) == 0 ==> #[trigger] counters.stmt_type_counts@[kind] == 0
}

/// The kind that is counted for the next statement has a weight above 0.
pub proof fn lemma_next_kind_has_weight(prob: Option<StmtProb>, state: u32)
    ensures
        next_kind(weights_of(prob), state) matches Some(kind) ==> weight_in(prob, kind) > 0,
{
    match prob {
        Some(prob) => {
            lemma_chosen_kind_has_weight(prob, state);
        },
        None => {},
    }
}

/// Where a worker stands between two calls.
#[derive(Debug, Clone, Copy, PartialEq, Eq, Structural)]
pub enum WorkerPhase {
    /// Ready to generate the next statement.
    Idle,
    /// A statement was generated and is with the driver; its answer is to
    /// be classified and counted.
    Executing,
    /// Every statement was run: the worker does nothing more.
    Done,
}

/// The state of one worker. A worker is idle until `next_statement` has
/// generated a statement; then it awaits the answer of the driver, which
/// `settle` counts; it is done when no statement is left to run.
pub struct Worker {
    rng: LcgRng,
    triggers: LiveTriggers,
    counters: RunCounters,
    remaining: usize,
    awaiting: bool,
}

impl Worker {
    /// The counters cannot run over: what was run and what is left to run
    /// fit in a machine word, and no statement is counted in the histogram
    /// that was not run or is not awaited. Every worker that `new` made and
    /// these methods changed is well formed.
    pub closed spec fn well_formed(&self) -> bool {
        &&& self.counters.attempts() + self.remaining <= usize::MAX
        &&& histogram_total(self.counters.stmt_type_counts@) <= self.counters.attempts()
            + if self.awaiting {
                1nat
            } else {
                0nat
            }
        &&& self.awaiting ==> self.remaining > 0
        &&& numbered(self.triggers.live(), self.triggers.serial())
    }

    /// Whether a statement was generated whose answer has not been counted
    /// yet.
    pub closed spec fn is_awaiting(&self) -> bool {
        self.awaiting
    }

    /// The state of the generator.
    pub closed spec fn state(&self) -> u32 {
        self.rng@
    }

    /// The names of the live triggers.
    pub closed spec fn live(&self) -> Seq<Seq<char>> {
        self.triggers.live()
    }

    /// The serial number that the next trigger takes.
    pub closed spec fn serial(&self) -> nat {
        self.triggers.serial()
    }

    /// The counters so far.
    pub closed spec fn spec_counters(&self) -> RunCounters {
        self.counters
    }

    /// The number of statements that are left to run.
    pub closed spec fn spec_remaining(&self) -> nat {
        self.remaining as nat
    }

    /// A worker with seed `seed` that is to run `run_count` statements.
    pub fn new(seed: u32, run_count: usize) -> (worker: Self)
        ensures
            worker.well_formed(),
            !worker.is_awaiting(),
            worker.state() == seed,
            worker.live() == Seq::<Seq<char>>::empty(),
            worker.serial() == 0,
            worker.spec_counters().attempts() == 0,
            histogram_total(worker.spec_counters().stmt_type_counts@) == 0,
            worker.spec_remaining() == run_count,
    {
        proof {
            lemma_empty_is_numbered(0);
        }
        Worker {
            rng: LcgRng::new(seed),
            triggers: LiveTriggers::new(),
            counters: RunCounters::new(),
            remaining: run_count,
            awaiting: false,
        }
    }

    /// Whether a statement was generated whose answer has not been counted
    /// yet.
    pub fn awaiting(&self) -> (awaiting: bool)
        ensures
            awaiting == self.is_awaiting(),
    {
        self.awaiting
    }

    /// Where the worker stands: executing while an answer is awaited, else
    /// done once nothing is left to run, else idle.
    pub fn phase(&self) -> (phase: WorkerPhase)
        ensures
            phase == if self.is_awaiting() {
                WorkerPhase::Executing
            } else if self.spec_remaining() == 0 {
                WorkerPhase::Done
            } else {
                WorkerPhase::Idle
            },
    {
        if self.awaiting {
            WorkerPhase::Executing
        } else if self.remaining == 0 {
            WorkerPhase::Done
        } else {
            WorkerPhase::Idle
        }
    }

    /// Whether the worker has run all its statements.
    pub fn is_done(&self) -> (done: bool)
        ensures
            done == (self.spec_remaining() == 0),
    {
        self.remaining == 0
    }

    /// The number of statements that are left to run.
    pub fn remaining(&self) -> (left: usize)
        ensures
            left == self.spec_remaining(),
    {
        self.remaining
    }

    /// The counters so far.
    pub fn counters(&self) -> (counters: RunCounters)
        ensures
            counters == self.spec_counters(),
    {
        self.counters
    }

    /// What holds of a well-formed worker: what was run and what is left
    /// fit in a machine word, the histogram counts no more statements than
    /// were run or are awaited, and no two live triggers share a name.
    pub proof fn lemma_well_formed(&self)
        requires
            self.well_formed(),
        ensures
            self.spec_counters().attempts() + self.spec_remaining() <= usize::MAX,
            histogram_total(self.spec_counters().stmt_type_counts@)
                <= self.spec_counters().attempts() + 1,
            !self.is_awaiting() ==> histogram_total(self.spec_counters().stmt_type_counts@)
                <= self.spec_counters().attempts(),
            self.is_awaiting() ==> self.spec_remaining() > 0,
            all_distinct(self.live()),
    {
        lemma_numbered_names_distinct(self.triggers.live(), self.triggers.serial());
    }

    /// Generates the statement to run next over `tables`, the schema as it
    /// reads now, and counts its kind in the histogram.
    pub fn next_statement<T: TableColumnLike>(
        &mut self,
        tables: &[T],
        driver_kind: DriverKind,
        prob: &Option<StmtProb>,
    ) -> (made: Generated)
        requires
            old(self).well_formed(),
            !old(self).is_awaiting(),
            old(self).spec_remaining() > 0,
        ensures
            final(self).well_formed(),
            final(self).is_awaiting(),
            ({
                let plan = next_plan(
                    weights_of(*prob),
                    driver_kind,
                    typed_lists(tables@),
                    old(self).state(),
                    old(self).live(),
                    old(self).serial(),
                );
                &&& Some(made.sql@) == plan.sql
                &&& final(self).state() == plan.state
                &&& final(self).live() == plan.live
                &&& final(self).serial() == plan.serial
            }),
            made.kind == next_kind(weights_of(*prob), old(self).state()),
            final(self).spec_remaining() == old(self).spec_remaining(),
            final(self).spec_counters() == match made.kind {
                Some(kind) => RunCounters {
                    stmt_type_counts: final(self).spec_counters().stmt_type_counts,
                    ..old(self).spec_counters()
                },
                None => old(self).spec_counters(),
            },
            final(self).spec_counters().stmt_type_counts@ == match made.kind {
                Some(kind) => bumped(old(self).spec_counters().stmt_type_counts@, kind),
                None => old(self).spec_counters().stmt_type_counts@,
            },
    {
        proof {
            match prob {
                Some(prob) => {
                    lemma_generation_keeps_numbered(
                        prob.weights(),
                        driver_kind,
                        typed_lists(tables@),
                        self.rng@,
                        self.triggers.live(),
                        self.triggers.serial(),
                    );
                },
                None => {},
            }
        }
        let made = match prob {
            Some(prob) => choose_and_generate(
                prob,
                &mut self.rng,
                driver_kind,
                tables,
                &mut self.triggers,
            ),
            None => Generated { kind: None, sql: String::from_str("SELECT 1;") },
        };
        match made.kind {
            Some(kind) => {
                self.counters.stmt_type_counts.bump(kind);
            },
            None => {},
        }
        self.awaiting = true;
        made
    }

    /// Counts the answer of the driver to the statement that was generated
    /// last, and returns the outcome that it stands for.
    pub fn settle(&mut self, result: &Result<usize, DriverError>) -> (outcome: ExecutionOutcome)
        requires
            old(self).well_formed(),
            old(self).is_awaiting(),
        ensures
            final(self).well_formed(),
            !final(self).is_awaiting(),
            outcome == outcome_of(*result),
            final(self).spec_counters() == recorded(old(self).spec_counters(), outcome),
            final(self).spec_counters().attempts() == old(self).spec_counters().attempts() + 1,
            final(self).spec_remaining() == old(self).spec_remaining() - 1,
            final(self).state() == old(self).state(),
            final(self).live() == old(self).live(),
            final(self).serial() == old(self).serial(),
    {
        let outcome = classify(result);
        self.counters.record(outcome);
        self.remaining = self.remaining - 1;
        self.awaiting = false;
        outcome
    }
}

impl Worker {
    /// Runs one statement on `driver`: reads the schema, which counts as
    /// empty where it cannot be read, generates a statement over it, has it
    /// run and counts the outcome. The statement and the states afterwards
    /// are those that the generator plans over some schema: the one that the
    /// driver reads at that moment.
    pub fn step<D: DatabaseDriver>(
        &mut self,
        driver: &D,
        driver_kind: DriverKind,
        prob: &Option<StmtProb>,
    ) -> (report: Report)
        requires
            old(self).well_formed(),
            !old(self).is_awaiting(),
            old(self).spec_remaining() > 0,
        ensures
            final(self).well_formed(),
            !final(self).is_awaiting(),
            final(self).spec_remaining() == old(self).spec_remaining() - 1,
            final(self).spec_counters().attempts() == old(self).spec_counters().attempts() + 1,
            final(self).spec_counters() == recorded(
                RunCounters {
                    stmt_type_counts: final(self).spec_counters().stmt_type_counts,
                    ..old(self).spec_counters()
                },
                report.outcome,
            ),
            final(self).spec_counters().stmt_type_counts@ == match next_kind(
                weights_of(*prob),
                old(self).state(),
            ) {
                Some(kind) => bumped(old(self).spec_counters().stmt_type_counts@, kind),
                None => old(self).spec_counters().stmt_type_counts@,
            },
            weights_of(*prob) is None ==> report.sql@ == fallback_sql() && final(self).state()
                == old(self).state(),
            exists|tables: Seq<(Seq<char>, Seq<(Seq<char>, Seq<char>)>)>|
                carried_out(
                    #[trigger] next_plan(
                        weights_of(*prob),
                        driver_kind,
                        tables,
                        old(self).state(),
                        old(self).live(),
                        old(self).serial(),
                    ),
                    report.sql@,
                    final(self).state(),
                    final(self).live(),
                    final(self).serial(),
                ),
    {
        let tables = crate::generators::sqlite::schema::get(driver);
        let made = self.next_statement(tables.as_slice(), driver_kind, prob);
        let result = driver.exec(made.sql.as_str());
        let outcome = self.settle(&result);
        proof {
            assert(carried_out(
                next_plan(
                    weights_of(*prob),
                    driver_kind,
                    typed_lists(tables@),
                    old(self).state(),
                    old(self).live(),
                    old(self).serial(),
                ),
                made.sql@,
                self.state(),
                self.live(),
                self.serial(),
            ));
        }
        Report { sql: made.sql, outcome }
    }
}

/// Whether the next statement of a worker in `state` is counted in the
/// histogram: weights are given and not all of them are 0.
pub open spec fn counts_kind(prob: Option<StmtProb>) -> bool {
    match prob {
        Some(prob) => prob.spec_total() > 0,
        None => false,
    }
}

/// The number of statements that are reported out of those counted in
/// `counters`: the successes where successes are shown, and the new
/// failures where failures are shown.
pub open spec fn reported_count(debug: Option<DebugOptions>, counters: RunCounters) -> nat {
    match debug {
        None => 0,
        Some(debug) => ((if debug.show_success_sql {
            counters.success_count as nat
        } else {
            0
        }) + (if debug.show_failed_sql {
            counters.failed_new_count as nat
        } else {
            0
        })) as nat,
    }
}

/// The whole run of one worker with seed `seed` on its own connection:
/// `run_count` statements, each generated over the schema as it reads at
/// that moment, run, classified and counted.
///
/// The result carries, for contracts, the log of all steps. Every statement
/// of the log is the one that the generator plans at that step over some
/// schema, the one that the driver read then, starting from `seed`. The
/// counters are the tally of the log: every statement ends in exactly one
/// outcome, and is counted under the kind that was chosen for it, so a kind
/// of weight 0 is counted 0 times. The reports are the steps whose outcome
/// `debug` asks to show, each with the statement that was sent.
pub fn run_engine_loop<D: DatabaseDriver>(
    driver: &D,
    driver_kind: DriverKind,
    seed: u32,
    run_count: usize,
    prob: &Option<StmtProb>,
    debug: &Option<DebugOptions>,
) -> (result: WorkerResult)
    ensures
        result.log@.len() == run_count,
        exists|schemas: Seq<Seq<(Seq<char>, Seq<(Seq<char>, Seq<char>)>)>>| #[trigger]
            follows(weights_of(*prob), driver_kind, seed, schemas, result.log@),
        counted_as(result.counters, tally(result.log@)),
        report_views(result.reports@) == shown(*debug, result.log@),
        counts_weighted_kinds(*prob, result.counters),
        result.counters.attempts() == run_count,
        histogram_total(result.counters.stmt_type_counts@) == if counts_kind(*prob) {
            run_count as nat
        } else {
            0
        },
        result.reports.len() == reported_count(*debug, result.counters),
        forall|k: int|
            0 <= k < result.reports.len() ==> is_reported(
                *debug,
                (#[trigger] result.reports[k]).outcome,
            ),
{
    let ghost weights = weights_of(*prob);
    let ghost mut schemas: Seq<Seq<(Seq<char>, Seq<(Seq<char>, Seq<char>)>)>> = Seq::empty();
    let ghost mut log: Seq<StepRecord> = Seq::empty();
    let mut worker = Worker::new(seed, run_count);
    let mut reports: Vec<Report> = Vec::new();
    proof {
        assert(worker.spec_counters().stmt_type_counts@ =~= tally(log).kinds);
        assert(report_views(reports@) =~= shown(*debug, log));
    }
    while !worker.is_done()
        invariant
            weights == weights_of(*prob),
            worker.well_formed(),
            !worker.is_awaiting(),
            worker.spec_counters().attempts() + worker.spec_remaining() == run_count,
            log.len() == worker.spec_counters().attempts(),
            follows(weights, driver_kind, seed, schemas, log),
            carried_through(
                plan_over(weights, driver_kind, schemas, seed, log.len()),
                worker.state(),
                worker.live(),
                worker.serial(),
            ),
            counted_as(worker.spec_counters(), tally(log)),
            report_views(reports@) == shown(*debug, log),
            counts_weighted_kinds(*prob, worker.spec_counters()),
            histogram_total(worker.spec_counters().stmt_type_counts@) == if counts_kind(*prob) {
                worker.spec_counters().attempts()
            } else {
                0
            },
            reports.len() == reported_count(*debug, worker.spec_counters()),
            forall|k: int|
                0 <= k < reports.len() ==> is_reported(*debug, (#[trigger] reports[k]).outcome),
        decreases worker.spec_remaining(),
    {
        let ghost before = worker.spec_counters();
        let ghost state = worker.state();
        let ghost live = worker.live();
        let ghost serial = worker.serial();
        let ghost listed = report_views(reports@);
        let report = worker.step(driver, driver_kind, prob);
        let ghost step = StepRecord {
            kind: next_kind(weights, state),
            sql: report.sql@,
            outcome: report.outcome,
        };
        proof {
            let tables = choose|tables: Seq<(Seq<char>, Seq<(Seq<char>, Seq<char>)>)>|
                carried_out(
                    #[trigger] next_plan(weights, driver_kind, tables, state, live, serial),
                    report.sql@,
                    worker.state(),
                    worker.live(),
                    worker.serial(),
                );
            lemma_follows_push(weights, driver_kind, seed, schemas, log, tables, step);
            lemma_kind_is_counted(*prob, state);
            lemma_next_kind_has_weight(*prob, state);
            match next_kind(weights, state) {
                Some(kind) => {
                    assert(histogram_total(bumped(before.stmt_type_counts@, kind))
                        == histogram_total(before.stmt_type_counts@) + 1);
                },
                None => {},
            }
            assert(log.push(step).drop_last() =~= log);
            schemas = schemas.push(tables);
            log = log.push(step);
        }
        if should_report(debug, report.outcome) {
            reports.push(report);
            proof {
                assert(report_views(reports@) =~= listed.push((step.sql, step.outcome)));
            }
        }
    }
    WorkerResult { counters: worker.counters(), reports, log: Ghost(log) }
}

/// A kind is chosen for the next statement exactly where weights are given
/// and not all of them are 0.
pub proof fn lemma_kind_is_counted(prob: Option<StmtProb>, state: u32)
    ensures
        next_kind(weights_of(prob), state) is Some <==> counts_kind(prob),
{
}

/// The first `count` statements of a worker with seed `seed` over a schema
/// that does not change: what the worker would send to its driver.
pub fn generate_statements<T: TableColumnLike>(
    tables: &[T],
    driver_kind: DriverKind,
    seed: u32,
    count: usize,
    prob: &Option<StmtProb>,
) -> (out: Vec<String>)
    ensures
        views(out@) == statements(
            weights_of(*prob),
            driver_kind,
            typed_lists(tables@),
            seed,
            count as nat,
        ),
{
    let ghost weights = weights_of(*prob);
    let ghost lists = typed_lists(tables@);
    let mut rng = LcgRng::new(seed);
    let mut triggers = LiveTriggers::new();
    let mut out: Vec<String> = Vec::new();
    let mut k: usize = 0;
    while k < count
        invariant
            k <= count,
            weights == weights_of(*prob),
            lists == typed_lists(tables@),
            out.len() == k,
            rng@ == nth_plan(weights, driver_kind, lists, seed, k as nat).state,
            triggers.live() == nth_plan(weights, driver_kind, lists, seed, k as nat).live,
            triggers.serial() == nth_plan(weights, driver_kind, lists, seed, k as nat).serial,
            forall|i: int|
                0 <= i < k ==> Some((#[trigger] out[i])@) == nth_plan(
                    weights,
                    driver_kind,
                    lists,
                    seed,
                    (i + 1) as nat,
                ).sql,
        decreases count - k,
    {
        let sql = match prob {
            Some(prob) => {
                choose_and_generate(prob, &mut rng, driver_kind, tables, &mut triggers).sql
            },
            None => String::from_str("SELECT 1;"),
        };
        out.push(sql);
        k += 1;
    }
    out
}

} // verus!

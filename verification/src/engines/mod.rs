//! The weighted choice of a statement kind, and the statement that a worker
//! runs next.

pub mod sqlite_engine;
pub mod worker;

use crate::drivers::{DriverError, DRIVER_KIND};
use crate::generators::common::create_trigger_stmt_common::LiveTriggers;
use crate::generators::common::insert_stmt_common::{typed_lists, TableColumnLike};
use crate::generators::common::create_trigger_stmt_common::numbered;
use crate::generators::common::{
    gen_stmt, lemma_stmt_plan_keeps_numbered, stmt_plan, DriverKind, Plan, SqlKind,
};
use crate::profile::{kind_order, total_weight, weight_before, StmtProb};
use crate::rng::{lcg_output, lcg_step, LcgRng};
use vstd::prelude::*;
use vstd::string::*;

verus! {

/// The text of the statement that stands in where none could be generated.
pub open spec fn fallback_sql() -> Seq<char> {
    "SELECT 1;"@
}

/// The first position at or after `from` whose weights, added up from the
/// start of the table through that position, exceed `r`.
pub open spec fn first_exceeding(weights: Seq<nat>, r: nat, from: int) -> int
    decreases weights.len() - from,
{
    if from >= weights.len() {
        weights.len() as int
    } else if r < weight_before(weights, from + 1) {
        from
    } else {
        first_exceeding(weights, r, from + 1)
    }
}

/// The position that the residue `r` selects: the first whose cumulative
/// weight exceeds `r`. Where several positions reach the same cumulative
/// weight the earliest of them is selected, so a kind of weight 0 never is.
pub open spec fn selected_position(weights: Seq<nat>, r: nat) -> int {
    first_exceeding(weights, r, 0)
}

/// The kind that the next draw from `state` selects under `weights`, or
/// none where all weights are 0.
pub open spec fn chosen_kind(weights: Seq<nat>, state: u32) -> Option<SqlKind> {
    if total_weight(weights) == 0 {
        None
    } else {
        let r = (lcg_output(lcg_step(state)) as nat) % total_weight(weights);
        Some(kind_order()[selected_position(weights, r)])
    }
}

/// The statement that a worker runs next where no weights are given: the
/// fallback statement, and nothing is drawn.
pub open spec fn unweighted(state: u32, live: Seq<Seq<char>>, serial: nat) -> Plan {
    Plan { sql: Some(fallback_sql()), state, live, serial }
}

/// The statement that a worker runs next under the weights `weights`, with
/// the states afterwards.
///
/// Where all weights are 0 it is the fallback statement and nothing is
/// drawn. Else one draw selects the kind, the generator of that kind makes
/// the statement, and the fallback statement stands in where it makes none.
pub open spec fn generation(
    weights: Seq<nat>,
    driver: DriverKind,
    tables: Seq<(Seq<char>, Seq<(Seq<char>, Seq<char>)>)>,
    state: u32,
    live: Seq<Seq<char>>,
    serial: nat,
) -> Plan {
    match chosen_kind(weights, state) {
        None => Plan { sql: Some(fallback_sql()), state, live, serial },
        Some(kind) => {
            let plan = stmt_plan(kind, driver, tables, lcg_step(state), live, serial);
            Plan {
                sql: Some(
                    match plan.sql {
                        Some(sql) => sql,
                        None => fallback_sql(),
                    },
                ),
                state: plan.state,
                live: plan.live,
                serial: plan.serial,
            }
        },
    }
}

/// Whatever statement a worker runs next, the record of triggers stays
/// numbered.
pub proof fn lemma_generation_keeps_numbered(
    weights: Seq<nat>,
    driver: DriverKind,
    tables: Seq<(Seq<char>, Seq<(Seq<char>, Seq<char>)>)>,
    state: u32,
    live: Seq<Seq<char>>,
    serial: nat,
)
    requires
        numbered(live, serial),
    ensures
        numbered(
            generation(weights, driver, tables, state, live, serial).live,
            generation(weights, driver, tables, state, live, serial).serial,
        ),
{
    match chosen_kind(weights, state) {
        Some(kind) => {
            lemma_stmt_plan_keeps_numbered(kind, driver, tables, lcg_step(state), live, serial);
        },
        None => {},
    }
}

/// The position selected by a residue below the total lies in the table,
/// its range of residues holds `r`, and its weight is not 0.
pub proof fn lemma_selected_position(weights: Seq<nat>, r: nat)
    requires
        r < total_weight(weights),
    ensures
        0 <= selected_position(weights, r) < weights.len(),
        weight_before(weights, selected_position(weights, r)) <= r < weight_before(
            weights,
            selected_position(weights, r) + 1,
        ),
        weights[selected_position(weights, r)] > 0,
{
    lemma_first_exceeding(weights, r, 0);
}

/// A kind of weight 0 is never chosen.
pub proof fn lemma_chosen_kind_has_weight(prob: StmtProb, state: u32)
    ensures
        chosen_kind(prob.weights(), state) matches Some(kind) ==> prob.weight(kind) > 0,
{
    let weights = prob.weights();
    if total_weight(weights) > 0 {
        let r = (lcg_output(lcg_step(state)) as nat) % total_weight(weights);
        lemma_selected_position(weights, r);
        crate::profile::lemma_weight_at(prob, selected_position(weights, r));
    }
}

/// Adding up more weights does not give less.
pub proof fn lemma_weight_before_grows(weights: Seq<nat>, a: int, b: int)
    requires
        a <= b,
    ensures
        weight_before(weights, a) <= weight_before(weights, b),
    decreases b - a,
{
    if a < b {
        lemma_weight_before_grows(weights, a, b - 1);
    }
}

/// A kind is selected by exactly as many residues as its weight says: every
/// residue in the range of a position selects that position, and by
/// `lemma_selected_position` no other residue does.
pub proof fn lemma_range_selects(weights: Seq<nat>, position: int, r: nat)
    requires
        0 <= position < weights.len(),
        weight_before(weights, position) <= r < weight_before(weights, position + 1),
    ensures
        selected_position(weights, r) == position,
{
    lemma_weight_before_grows(weights, position + 1, weights.len() as int);
    lemma_selected_position(weights, r);
    let selected = selected_position(weights, r);
    if selected < position {
        lemma_weight_before_grows(weights, selected + 1, position);
    } else if selected > position {
        lemma_weight_before_grows(weights, position + 1, selected);
    }
}

/// The number of draw values below `bound` whose residue modulo `total`
/// lies in the range from `lo` up to, not including, `hi`.
pub open spec fn residues_in(bound: nat, total: nat, lo: nat, hi: nat) -> nat
    decreases bound,
{
    if bound == 0 {
        0
    } else {
        residues_in((bound - 1) as nat, total, lo, hi) + if lo <= (bound - 1) as nat % total < hi {
            1nat
        } else {
            0nat
        }
    }
}

/// The number of values below `rest` that lie in the range from `lo` up to,
/// not including, `hi`.
pub open spec fn within(rest: nat, lo: nat, hi: nat) -> nat {
    if rest <= lo {
        0
    } else if rest >= hi {
        (hi - lo) as nat
    } else {
        (rest - lo) as nat
    }
}

/// The number of draw values below `bound` for which the kind at
/// `position` is chosen under `weights`.
pub open spec fn draws_choosing(weights: Seq<nat>, position: int, bound: nat) -> nat
    decreases bound,
{
    if bound == 0 {
        0
    } else {
        draws_choosing(weights, position, (bound - 1) as nat) + if selected_position(
            weights,
            (bound - 1) as nat % total_weight(weights),
        ) == position {
            1nat
        } else {
            0nat
        }
    }
}

/// Every full round of `total` values holds each residue of a range once,
/// and the values left over hold the residues below their number.
pub proof fn lemma_residues_in(bound: nat, total: nat, lo: nat, hi: nat)
    requires
        total > 0,
        lo <= hi <= total,
    ensures
        residues_in(bound, total, lo, hi) == (bound / total) * (hi - lo) + within(
            bound % total,
            lo,
            hi,
        ),
    decreases bound,
{
    if bound == 0 {
        assert(0nat / total == 0 && 0nat % total == 0) by (nonlinear_arith)
            requires
                total > 0,
        ;
        assert(0 * (hi - lo) == 0) by (nonlinear_arith);
    } else {
        let m = (bound - 1) as nat;
        lemma_residues_in(m, total, lo, hi);
        let q = (m / total) as int;
        let r = (m % total) as int;
        vstd::arithmetic::div_mod::lemma_fundamental_div_mod(m as int, total as int);
        assert(0 <= r < total) by (nonlinear_arith)
            requires
                r == m % total,
                total > 0,
        ;
        if r + 1 < total {
            assert(bound as int == q * total + (r + 1)) by (nonlinear_arith)
                requires
                    m as int == total * q + r,
                    bound == m + 1,
            ;
            vstd::arithmetic::div_mod::lemma_fundamental_div_mod_converse(
                bound as int,
                total as int,
                q,
                r + 1,
            );
        } else {
            assert(bound as int == (q + 1) * total + 0) by (nonlinear_arith)
                requires
                    m as int == total * q + r,
                    bound == m + 1,
                    r + 1 == total,
            ;
            vstd::arithmetic::div_mod::lemma_fundamental_div_mod_converse(
                bound as int,
                total as int,
                q + 1,
                0,
            );
            assert((q + 1) * (hi - lo) == q * (hi - lo) + (hi - lo)) by (nonlinear_arith);
        }
    }
}

/// The kind at `position` is chosen by exactly the draw values whose
/// residue lies in its range.
pub proof fn lemma_draws_choosing(weights: Seq<nat>, position: int, bound: nat)
    requires
        total_weight(weights) > 0,
        0 <= position < weights.len(),
    ensures
        draws_choosing(weights, position, bound) == residues_in(
            bound,
            total_weight(weights),
            weight_before(weights, position),
            weight_before(weights, position + 1),
        ),
    decreases bound,
{
    if bound > 0 {
        lemma_draws_choosing(weights, position, (bound - 1) as nat);
        let total = total_weight(weights);
        let r = (bound - 1) as nat % total;
        assert(r < total) by (nonlinear_arith)
            requires
                r == (bound - 1) as nat % total,
                total > 0,
        ;
        lemma_selected_position(weights, r);
        if weight_before(weights, position) <= r < weight_before(weights, position + 1) {
            lemma_range_selects(weights, position, r);
        }
    }
}

/// Under the weights 100 for `SELECT`, 50 for `INSERT` and 50 for `UPDATE`,
/// of the 32768 values that a draw can give exactly 16400 choose `SELECT`,
/// 8200 `INSERT` and 8168 `UPDATE`: two to one to one, to within half a per
/// cent, and no value chooses any other kind.
pub proof fn lemma_two_to_one_to_one(prob: StmtProb)
    requires
        prob.SELECT == 100,
        prob.INSERT == 50,
        prob.UPDATE == 50,
        prob.DELETE == 0,
        prob.VACUUM == 0,
        prob.PRAGMA == 0,
        prob.CREATE_TRIGGER == 0,
        prob.DROP_TRIGGER == 0,
        prob.UPSERT == 0,
    ensures
        draws_choosing(prob.weights(), 0, 32768) == 16400,
        draws_choosing(prob.weights(), 1, 32768) == 8200,
        draws_choosing(prob.weights(), 2, 32768) == 8168,
        kind_order()[0] == SqlKind::Select,
        kind_order()[1] == SqlKind::Insert,
        kind_order()[2] == SqlKind::Update,
{
    let weights = prob.weights();
    reveal_with_fuel(weight_before, 10);
    assert(total_weight(weights) == 200);
    lemma_draws_choosing(weights, 0, 32768);
    lemma_draws_choosing(weights, 1, 32768);
    lemma_draws_choosing(weights, 2, 32768);
    lemma_residues_in(32768, 200, 0, 100);
    lemma_residues_in(32768, 200, 100, 150);
    lemma_residues_in(32768, 200, 150, 200);
}

/// The scan from `from` stops at the position whose range holds `r`.
pub proof fn lemma_first_exceeding(weights: Seq<nat>, r: nat, from: int)
    requires
        0 <= from <= weights.len(),
        weight_before(weights, from) <= r < total_weight(weights),
    ensures
        from <= first_exceeding(weights, r, from) < weights.len(),
        weight_before(weights, first_exceeding(weights, r, from)) <= r < weight_before(
            weights,
            first_exceeding(weights, r, from) + 1,
        ),
        weights[first_exceeding(weights, r, from)] > 0,
    decreases weights.len() - from,
{
    if from < weights.len() && !(r < weight_before(weights, from + 1)) {
        lemma_first_exceeding(weights, r, from + 1);
    }
}

/// Why an engine could not finish its run.
#[derive(Debug, Clone, Copy, PartialEq, Eq, Structural)]
pub enum EngineError {
    /// A worker could not get or set up its connection.
    Driver(DriverError),
    /// The run is longer than the counters can count.
    CounterOverflow,
}

/// What the run of an engine leaves behind.
pub struct EngineRun {
    /// The counters of all workers together.
    pub counters: crate::stats::RunCounters,
    /// The statements to report, worker after worker.
    pub reports: Vec<crate::engines::worker::Report>,
    /// For contracts alone: the steps of each worker, in the order of the
    /// workers' indices.
    pub logs: Ghost<Seq<Seq<crate::stats::StepRecord>>>,
}

impl EngineRun {
    /// The leavings of a run with these counters and reports, of whose
    /// steps nothing is on record.
    pub fn new(
        counters: crate::stats::RunCounters,
        reports: Vec<crate::engines::worker::Report>,
    ) -> (run: Self)
        ensures
            run.counters == counters,
            run.reports == reports,
    {
        EngineRun { counters, reports, logs: Ghost(Seq::empty()) }
    }
}

/// An engine under test with everything that a run needs.
pub trait Engine {
    /// Runs all workers of the engine and adds up their counters.
    fn run(&mut self) -> Result<EngineRun, EngineError>;

    /// One statement from the engine's own generator.
    fn generate_sql(&mut self) -> String;

    /// The kind of driver that the engine runs on.
    fn get_driver_kind(&self) -> DRIVER_KIND;
}

/// A statement and the kind that was chosen for it.
pub struct Generated {
    /// The kind that the draw selected; none where all weights are 0.
    pub kind: Option<SqlKind>,
    /// The statement to run.
    pub sql: String,
}

/// The kind that the residue `r` selects under `prob`.
pub fn pick_kind(prob: &StmtProb, r: u128) -> (kind: SqlKind)
    requires
        r < prob.spec_total(),
    ensures
        kind == kind_order()[selected_position(prob.weights(), r as nat)],
{
    proof {
        reveal_with_fuel(first_exceeding, 10);
        reveal_with_fuel(weight_before, 10);
    }
    let mut accum: u128 = prob.SELECT as u128;
    if r < accum {
        return SqlKind::Select;
    }
    accum = accum + prob.INSERT as u128;
    if r < accum {
        return SqlKind::Insert;
    }
    accum = accum + prob.UPDATE as u128;
    if r < accum {
        return SqlKind::Update;
    }
    accum = accum + prob.DELETE as u128;
    if r < accum {
        return SqlKind::Delete;
    }
    accum = accum + prob.VACUUM as u128;
    if r < accum {
        return SqlKind::Vacuum;
    }
    accum = accum + prob.PRAGMA as u128;
    if r < accum {
        return SqlKind::Pragma;
    }
    accum = accum + prob.CREATE_TRIGGER as u128;
    if r < accum {
        return SqlKind::CreateTrigger;
    }
    accum = accum + prob.DROP_TRIGGER as u128;
    if r < accum {
        return SqlKind::DropTrigger;
    }
    SqlKind::Upsert
}

/// Chooses a statement kind by the weights of `prob` and generates a
/// statement of that kind; the fallback statement where none can be made.
pub fn choose_and_generate<T: TableColumnLike>(
    prob: &StmtProb,
    rng: &mut LcgRng,
    driver_kind: DriverKind,
    tables: &[T],
    triggers: &mut LiveTriggers,
) -> (made: Generated)
    ensures
        ({
            let plan = generation(
                prob.weights(),
                driver_kind,
                typed_lists(tables@),
                old(rng)@,
                old(triggers).live(),
                old(triggers).serial(),
            );
            &&& made.kind == chosen_kind(prob.weights(), old(rng)@)
            &&& Some(made.sql@) == plan.sql
            &&& final(rng)@ == plan.state
            &&& final(triggers).live() == plan.live
            &&& final(triggers).serial() == plan.serial
        }),
{
    let total = prob.total();
    if total == 0 {
        return Generated { kind: None, sql: String::from_str("SELECT 1;") };
    }
    let drawn: i32 = rng.rand();
    let r: u128 = (drawn as u128) % total;
    let kind = pick_kind(prob, r);
    let sql = match gen_stmt(kind, driver_kind, tables, rng, triggers) {
        Some(sql) => sql,
        None => String::from_str("SELECT 1;"),
    };
    Generated { kind: Some(kind), sql }
}

/// The statement that a worker runs next: of a kind chosen by the weights of
/// `prob`, or the fallback statement.
pub fn generate_sql_by_prob<T: TableColumnLike>(
    prob: &StmtProb,
    rng: &mut LcgRng,
    driver_kind: DriverKind,
    tables: &[T],
    triggers: &mut LiveTriggers,
) -> (sql: String)
    ensures
        ({
            let plan = generation(
                prob.weights(),
                driver_kind,
                typed_lists(tables@),
                old(rng)@,
                old(triggers).live(),
                old(triggers).serial(),
            );
            &&& Some(sql@) == plan.sql
            &&& final(rng)@ == plan.state
            &&& final(triggers).live() == plan.live
            &&& final(triggers).serial() == plan.serial
        }),
        prob.spec_total() == 0 ==> sql@ == fallback_sql() && final(rng)@ == old(rng)@,
{
    choose_and_generate(prob, rng, driver_kind, tables, triggers).sql
}

} // verus!

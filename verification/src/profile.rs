//! The settings of a run: engine, counts, weights of the statement kinds,
//! what to report, and the base seed.

use crate::drivers::DRIVER_KIND;
use crate::generators::common::SqlKind;
use crate::text::{decimal, join, joined, push_decimal, views};
use vstd::prelude::*;
use vstd::string::*;

verus! {

/// Which statements a worker reports while it runs.
#[derive(Debug, Clone, Copy, PartialEq, Eq, Structural)]
pub struct DebugOptions {
    /// Report each statement that succeeded.
    pub show_success_sql: bool,
    /// Report each statement that failed in a new way.
    pub show_failed_sql: bool,
}

/// The weight of each statement kind. A kind with weight 0 is never chosen.
#[allow(non_snake_case)]
#[derive(Debug, Clone, Copy, PartialEq, Eq, Structural)]
pub struct StmtProb {
    /// The weight of `SELECT`.
    pub SELECT: u64,
    /// The weight of `INSERT`.
    pub INSERT: u64,
    /// The weight of `UPDATE`.
    pub UPDATE: u64,
    /// The weight of `DELETE`.
    pub DELETE: u64,
    /// The weight of `VACUUM`.
    pub VACUUM: u64,
    /// The weight of `PRAGMA`.
    pub PRAGMA: u64,
    /// The weight of `CREATE TRIGGER`.
    pub CREATE_TRIGGER: u64,
    /// The weight of `DROP TRIGGER`.
    pub DROP_TRIGGER: u64,
    /// The weight of the upsert; 0 leaves it switched off.
    pub UPSERT: u64,
}

/// The statement kinds in the order in which their weights are added up.
pub open spec fn kind_order() -> Seq<SqlKind> {
    seq![
        SqlKind::Select,
        SqlKind::Insert,
        SqlKind::Update,
        SqlKind::Delete,
        SqlKind::Vacuum,
        SqlKind::Pragma,
        SqlKind::CreateTrigger,
        SqlKind::DropTrigger,
        SqlKind::Upsert,
    ]
}

/// The sum of the first `n` of `weights`.
pub open spec fn weight_before(weights: Seq<nat>, n: int) -> nat
    decreases n,
{
    if n <= 0 {
        0
    } else {
        weight_before(weights, n - 1) + weights[n - 1]
    }
}

/// The sum of all `weights`.
pub open spec fn total_weight(weights: Seq<nat>) -> nat {
    weight_before(weights, weights.len() as int)
}

impl StmtProb {
    /// The weights in the order of `kind_order`.
    pub open spec fn weights(&self) -> Seq<nat> {
        seq![
            self.SELECT as nat,
            self.INSERT as nat,
            self.UPDATE as nat,
            self.DELETE as nat,
            self.VACUUM as nat,
            self.PRAGMA as nat,
            self.CREATE_TRIGGER as nat,
            self.DROP_TRIGGER as nat,
            self.UPSERT as nat,
        ]
    }

    /// The weight of the kind `kind`.
    pub open spec fn weight(&self, kind: SqlKind) -> nat {
        match kind {
            SqlKind::Select => self.SELECT as nat,
            SqlKind::Insert => self.INSERT as nat,
            SqlKind::Update => self.UPDATE as nat,
            SqlKind::Delete => self.DELETE as nat,
            SqlKind::Vacuum => self.VACUUM as nat,
            SqlKind::Pragma => self.PRAGMA as nat,
            SqlKind::CreateTrigger => self.CREATE_TRIGGER as nat,
            SqlKind::DropTrigger => self.DROP_TRIGGER as nat,
            SqlKind::Upsert => self.UPSERT as nat,
        }
    }

    /// The sum of the weights.
    pub open spec fn spec_total(&self) -> nat {
        total_weight(self.weights())
    }

    /// The sum of the weights.
    pub fn total(&self) -> (sum: u128)
        ensures
            sum == self.spec_total(),
    {
        proof {
            lemma_total_of_nine(self.weights());
        }
        self.SELECT as u128 + self.INSERT as u128 + self.UPDATE as u128 + self.DELETE as u128
            + self.VACUUM as u128 + self.PRAGMA as u128 + self.CREATE_TRIGGER as u128
            + self.DROP_TRIGGER as u128 + self.UPSERT as u128
    }
}

/// At every position of the table stands the weight of the kind at that
/// position.
pub proof fn lemma_weight_at(prob: StmtProb, position: int)
    requires
        0 <= position < 9,
    ensures
        prob.weights().len() == 9,
        kind_order().len() == 9,
        prob.weights()[position] == prob.weight(kind_order()[position]),
{
}

/// The sum of nine weights, written out.
pub proof fn lemma_total_of_nine(weights: Seq<nat>)
    requires
        weights.len() == 9,
    ensures
        total_weight(weights) == weights[0] + weights[1] + weights[2] + weights[3] + weights[4]
            + weights[5] + weights[6] + weights[7] + weights[8],
{
    reveal_with_fuel(weight_before, 10);
}

/// The settings of a run. A setting that is absent takes its default.
#[derive(Debug, Clone, Copy)]
pub struct Profile {
    /// The engine under test.
    pub driver: Option<DRIVER_KIND>,
    /// The number of statements that each worker runs.
    pub count: Option<usize>,
    /// The number of executor processes.
    pub executor_count: Option<usize>,
    /// The number of workers in each executor process.
    pub thread_per_exec: Option<usize>,
    /// The weights of the statement kinds.
    pub stmt_prob: Option<StmtProb>,
    /// What to report.
    pub debug: Option<DebugOptions>,
    /// The base seed.
    pub seed: Option<u64>,
}

/// The weights that a run takes where none are given.
pub open spec fn default_weights() -> StmtProb {
    StmtProb {
        SELECT: 100,
        INSERT: 50,
        UPDATE: 50,
        DELETE: 20,
        VACUUM: 20,
        PRAGMA: 10,
        CREATE_TRIGGER: 10,
        DROP_TRIGGER: 10,
        UPSERT: 0,
    }
}

/// The settings that a run takes where no profile is given.
pub open spec fn default_settings() -> Profile {
    Profile {
        driver: Some(DRIVER_KIND::SQLITE_IN_MEM),
        count: Some(8),
        executor_count: Some(5),
        thread_per_exec: Some(5),
        stmt_prob: Some(default_weights()),
        debug: Some(DebugOptions { show_success_sql: false, show_failed_sql: true }),
        seed: Some(0),
    }
}

/// The settings that a run takes where no profile is given: SQLite, 8
/// statements for each of 5 workers in each of 5 executors, seed 0, failed
/// statements reported.
pub fn default_profile() -> (profile: Profile)
    ensures
        profile == default_settings(),
{
    Profile {
        driver: Some(DRIVER_KIND::SQLITE_IN_MEM),
        count: Some(8),
        executor_count: Some(5),
        thread_per_exec: Some(5),
        stmt_prob: Some(
            StmtProb {
                SELECT: 100,
                INSERT: 50,
                UPDATE: 50,
                DELETE: 20,
                VACUUM: 20,
                PRAGMA: 10,
                CREATE_TRIGGER: 10,
                DROP_TRIGGER: 10,
                UPSERT: 0,
            },
        ),
        debug: Some(DebugOptions { show_success_sql: false, show_failed_sql: true }),
        seed: Some(0),
    }
}

/// The name of a driver kind.
pub open spec fn driver_name(kind: DRIVER_KIND) -> Seq<char> {
    match kind {
        DRIVER_KIND::SQLITE_IN_MEM => "SQLITE_IN_MEM"@,
        DRIVER_KIND::LIMBO_IN_MEM => "LIMBO_IN_MEM"@,
    }
}

/// The text `label=number`.
pub open spec fn numbered(label: Seq<char>, number: nat) -> Seq<char> {
    label + "="@ + decimal(number)
}

/// The text `label=true` or `label=false`.
pub open spec fn flagged(label: Seq<char>, flag: bool) -> Seq<char> {
    label + "="@ + if flag {
        "true"@
    } else {
        "false"@
    }
}

/// The settings that are always listed, with the defaults of those that are
/// absent.
pub open spec fn count_items(profile: Profile) -> Seq<Seq<char>> {
    seq![
        "driver="@ + driver_name(
            match profile.driver {
                Some(kind) => kind,
                None => DRIVER_KIND::SQLITE_IN_MEM,
            },
        ),
        numbered(
            "count"@,
            match profile.count {
                Some(count) => count as nat,
                None => 8,
            },
        ),
        numbered(
            "executor_count"@,
            match profile.executor_count {
                Some(count) => count as nat,
                None => 5,
            },
        ),
        numbered(
            "thread_per_exec"@,
            match profile.thread_per_exec {
                Some(count) => count as nat,
                None => 5,
            },
        ),
    ]
}

/// The seed, where one is set.
pub open spec fn seed_items(profile: Profile) -> Seq<Seq<char>> {
    match profile.seed {
        Some(seed) => seq![numbered("seed"@, seed as nat)],
        None => Seq::empty(),
    }
}

/// The weights, where they are set.
pub open spec fn weight_items(profile: Profile) -> Seq<Seq<char>> {
    match profile.stmt_prob {
        Some(prob) => seq![
            numbered("SELECT"@, prob.SELECT as nat),
            numbered("INSERT"@, prob.INSERT as nat),
            numbered("UPDATE"@, prob.UPDATE as nat),
            numbered("VACUUM"@, prob.VACUUM as nat),
            numbered("DELETE"@, prob.DELETE as nat),
            numbered("PRAGMA"@, prob.PRAGMA as nat),
            numbered("CREATE_TRIGGER"@, prob.CREATE_TRIGGER as nat),
            numbered("DROP_TRIGGER"@, prob.DROP_TRIGGER as nat),
            numbered("UPSERT"@, prob.UPSERT as nat),
        ],
        None => Seq::empty(),
    }
}

/// What to report, where it is set.
pub open spec fn debug_items(profile: Profile) -> Seq<Seq<char>> {
    match profile.debug {
        Some(debug) => seq![
            flagged("show_success_sql"@, debug.show_success_sql),
            flagged("show_failed_sql"@, debug.show_failed_sql),
        ],
        None => Seq::empty(),
    }
}

/// The settings of a profile, one text for each.
pub open spec fn profile_items(profile: Profile) -> Seq<Seq<char>> {
    count_items(profile) + seed_items(profile) + weight_items(profile) + debug_items(profile)
}

/// The line that describes a profile: its settings, separated by commas.
pub open spec fn profile_line(profile: Profile) -> Seq<char> {
    "Profile: "@ + joined(profile_items(profile), ", "@)
}

/// The text `label=number`.
pub fn number_item(label: &str, number: u64) -> (item: String)
    ensures
        item@ == numbered(label@, number as nat),
{
    let mut item = String::from_str(label);
    item.append("=");
    push_decimal(&mut item, number);
    item
}

/// The text `label=true` or `label=false`.
pub fn flag_item(label: &str, flag: bool) -> (item: String)
    ensures
        item@ == flagged(label@, flag),
{
    let mut item = String::from_str(label);
    item.append("=");
    if flag {
        item.append("true");
    } else {
        item.append("false");
    }
    item
}

impl Profile {
    /// The number of statements that each worker runs; 8 where none is set.
    pub fn run_count(&self) -> (count: usize)
        ensures
            count == match self.count {
                Some(count) => count,
                None => 8,
            },
    {
        match self.count {
            Some(count) => count,
            None => 8,
        }
    }

    /// The number of executor processes; 5 where none is set.
    pub fn executors(&self) -> (count: usize)
        ensures
            count == match self.executor_count {
                Some(count) => count,
                None => 5,
            },
    {
        match self.executor_count {
            Some(count) => count,
            None => 5,
        }
    }

    /// The number of workers in each executor process; 5 where none is set.
    pub fn threads(&self) -> (count: usize)
        ensures
            count == match self.thread_per_exec {
                Some(count) => count,
                None => 5,
            },
    {
        match self.thread_per_exec {
            Some(count) => count,
            None => 5,
        }
    }

    /// The base seed; 0 where none is set.
    pub fn base_seed(&self) -> (seed: u64)
        ensures
            seed == match self.seed {
                Some(seed) => seed,
                None => 0,
            },
    {
        match self.seed {
            Some(seed) => seed,
            None => 0,
        }
    }

    /// The line that describes the profile, for the log.
    pub fn describe(&self) -> (line: String)
        ensures
            line@ == profile_line(*self),
    {
        let mut items: Vec<String> = Vec::new();
        let mut driver = String::from_str("driver=");
        match self.driver {
            Some(DRIVER_KIND::LIMBO_IN_MEM) => {
                driver.append("LIMBO_IN_MEM");
            },
            _ => {
                driver.append("SQLITE_IN_MEM");
            },
        }
        items.push(driver);
        items.push(number_item("count", self.run_count() as u64));
        items.push(number_item("executor_count", self.executors() as u64));
        items.push(number_item("thread_per_exec", self.threads() as u64));
        match self.seed {
            Some(seed) => {
                items.push(number_item("seed", seed));
            },
            None => {},
        }
        match self.stmt_prob {
            Some(prob) => {
                items.push(number_item("SELECT", prob.SELECT));
                items.push(number_item("INSERT", prob.INSERT));
                items.push(number_item("UPDATE", prob.UPDATE));
                items.push(number_item("VACUUM", prob.VACUUM));
                items.push(number_item("DELETE", prob.DELETE));
                items.push(number_item("PRAGMA", prob.PRAGMA));
                items.push(number_item("CREATE_TRIGGER", prob.CREATE_TRIGGER));
                items.push(number_item("DROP_TRIGGER", prob.DROP_TRIGGER));
                items.push(number_item("UPSERT", prob.UPSERT));
            },
            None => {},
        }
        match self.debug {
            Some(debug) => {
                items.push(flag_item("show_success_sql", debug.show_success_sql));
                items.push(flag_item("show_failed_sql", debug.show_failed_sql));
            },
            None => {},
        }
        proof {
            assert(views(items@) =~= profile_items(*self));
        }
        let mut line = String::from_str("Profile: ");
        line.append(join(&items, ", ").as_str());
        line
    }
}

} // verus!

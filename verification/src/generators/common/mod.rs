//! The generators that every engine shares, and the choice among them by
//! statement kind.

pub mod create_trigger_stmt_common;
pub mod data_type;
pub mod delete_stmt_common;
pub mod drop_trigger_stmt_common;
pub mod insert_stmt_common;
pub mod pragma_stmt_common;
pub mod sampling;
pub mod select_stmt_common;
pub mod update_stmt_common;
pub mod upsert_stmt_common;
pub mod vacuum_stmt_common;

use crate::generators::common::create_trigger_stmt_common::{
    create_trigger_plan, find_id_column, gen_create_trigger_stmt, has_id_column,
    lemma_create_keeps_numbered, lemma_remove_keeps_numbered, numbered, trigger_lists,
    LiveTriggers, TriggerTableLike,
};
use crate::generators::common::delete_stmt_common::{delete_stmt, gen_delete_stmt};
use crate::generators::common::drop_trigger_stmt_common::{
    dropped_position, drop_trigger_sql, gen_drop_trigger_stmt,
};
use crate::generators::common::insert_stmt_common::{
    column_names, gen_insert_stmt, insert_stmt, names_of, typed_lists, TableColumnLike,
};
use crate::generators::common::pragma_stmt_common::{get_pragma_stmt_by_seed, pragma_stmt};
use crate::generators::common::select_stmt_common::{
    gen_select_stmt, name_lists, select_stmt, TableLike,
};
use crate::generators::common::update_stmt_common::{gen_update_stmt, update_stmt};
use crate::generators::common::upsert_stmt_common::{gen_upsert_stmt, upsert_stmt};
use crate::generators::common::vacuum_stmt_common::{gen_vacuum_stmt, vacuum_sql};
use crate::generators::sqlite::schema::{TableInfo, TriggerTableWithColumns};
use crate::rng::{lcg_step, LcgRng};
use crate::text::str_eq;
use vstd::prelude::*;
use vstd::string::*;

verus! {

/// The kinds of statement, in the order in which a probability table lists
/// them.
#[derive(Debug, Clone, Copy, PartialEq, Eq, Hash, Structural)]
pub enum SqlKind {
    /// `SELECT`.
    Select,
    /// `INSERT`.
    Insert,
    /// `UPDATE`.
    Update,
    /// `DELETE`.
    Delete,
    /// `VACUUM`.
    Vacuum,
    /// `PRAGMA`.
    Pragma,
    /// `CREATE TRIGGER`.
    CreateTrigger,
    /// `DROP TRIGGER`.
    DropTrigger,
    /// `INSERT .. ON CONFLICT .. DO UPDATE`.
    Upsert,
}

/// The name of a statement kind, as records carry it.
pub open spec fn kind_name(kind: SqlKind) -> Seq<char> {
    match kind {
        SqlKind::Select => "Select"@,
        SqlKind::Insert => "Insert"@,
        SqlKind::Update => "Update"@,
        SqlKind::Delete => "Delete"@,
        SqlKind::Vacuum => "Vacuum"@,
        SqlKind::Pragma => "Pragma"@,
        SqlKind::CreateTrigger => "CreateTrigger"@,
        SqlKind::DropTrigger => "DropTrigger"@,
        SqlKind::Upsert => "Upsert"@,
    }
}

/// Different kinds have different names.
pub proof fn lemma_kind_names_differ(a: SqlKind, b: SqlKind)
    requires
        a != b,
    ensures
        kind_name(a) != kind_name(b),
{
    reveal_strlit("Select");
    reveal_strlit("Insert");
    reveal_strlit("Update");
    reveal_strlit("Delete");
    reveal_strlit("Vacuum");
    reveal_strlit("Pragma");
    reveal_strlit("CreateTrigger");
    reveal_strlit("DropTrigger");
    reveal_strlit("Upsert");
    let x = kind_name(a);
    let y = kind_name(b);
    if x.len() == y.len() {
        assert(x[0] != y[0] || x[2] != y[2]);
    }
}

impl SqlKind {
    /// The name of the kind, as records carry it.
    pub fn name(&self) -> (name: &'static str)
        ensures
            name@ == kind_name(*self),
    {
        match self {
            SqlKind::Select => "Select",
            SqlKind::Insert => "Insert",
            SqlKind::Update => "Update",
            SqlKind::Delete => "Delete",
            SqlKind::Vacuum => "Vacuum",
            SqlKind::Pragma => "Pragma",
            SqlKind::CreateTrigger => "CreateTrigger",
            SqlKind::DropTrigger => "DropTrigger",
            SqlKind::Upsert => "Upsert",
        }
    }

    /// The kind that `name` names, if it names one.
    pub fn from_name(name: &str) -> (kind: Option<SqlKind>)
        ensures
            match kind {
                Some(kind) => name@ == kind_name(kind),
                None => forall|kind: SqlKind| name@ != #[trigger] kind_name(kind),
            },
    {
        if str_eq(name, "Select") {
            Some(SqlKind::Select)
        } else if str_eq(name, "Insert") {
            Some(SqlKind::Insert)
        } else if str_eq(name, "Update") {
            Some(SqlKind::Update)
        } else if str_eq(name, "Delete") {
            Some(SqlKind::Delete)
        } else if str_eq(name, "Vacuum") {
            Some(SqlKind::Vacuum)
        } else if str_eq(name, "Pragma") {
            Some(SqlKind::Pragma)
        } else if str_eq(name, "CreateTrigger") {
            Some(SqlKind::CreateTrigger)
        } else if str_eq(name, "DropTrigger") {
            Some(SqlKind::DropTrigger)
        } else if str_eq(name, "Upsert") {
            Some(SqlKind::Upsert)
        } else {
            None
        }
    }
}

/// The engine that statements are generated for.
#[derive(Debug, Clone, Copy, PartialEq, Eq, Structural)]
pub enum DriverKind {
    /// SQLite.
    Sqlite,
    /// Limbo, which takes neither pragmas nor triggers.
    Limbo,
}

/// What one attempt to generate a statement leads to.
pub struct Plan {
    /// The statement, if one was made.
    pub sql: Option<Seq<char>>,
    /// The state of the generator afterwards.
    pub state: u32,
    /// The names of the live triggers afterwards.
    pub live: Seq<Seq<char>>,
    /// The next serial number for a trigger afterwards.
    pub serial: nat,
}

/// A plan that leaves the record of triggers as it was.
pub open spec fn plain_plan(
    made: (Option<Seq<char>>, u32),
    live: Seq<Seq<char>>,
    serial: nat,
) -> Plan {
    Plan { sql: made.0, state: made.1, live, serial }
}

/// The table list as `SELECT` sees it, from the list with typed columns.
pub open spec fn names_only(tables: Seq<(Seq<char>, Seq<(Seq<char>, Seq<char>)>)>) -> Seq<
    (Seq<char>, Seq<Seq<char>>),
> {
    Seq::new(tables.len(), |k: int| (tables[k].0, names_of(tables[k].1)))
}

/// The table list as `CREATE TRIGGER` sees it, from the list with typed
/// columns: a table has a primary key when one of its columns is named `id`.
pub open spec fn keyed(tables: Seq<(Seq<char>, Seq<(Seq<char>, Seq<char>)>)>) -> Seq<
    (Seq<char>, bool),
> {
    Seq::new(tables.len(), |k: int| (tables[k].0, has_id_column(tables[k].1)))
}

/// The plan of a `DROP TRIGGER`: nothing where no trigger is live, else the
/// drop of the live trigger that one draw selects.
pub open spec fn drop_trigger_plan(state: u32, live: Seq<Seq<char>>, serial: nat) -> Plan {
    if live.len() == 0 {
        Plan { sql: None, state, live, serial }
    } else {
        let position = dropped_position(live, state);
        Plan {
            sql: Some(drop_trigger_sql(live[position])),
            state: lcg_step(state),
            live: live.remove(position),
            serial,
        }
    }
}

/// The statement of kind `kind` for the engine `driver`, over `tables`, from
/// a generator in `state` and the record of triggers (`live`, `serial`).
///
/// Limbo gets no pragma and no trigger statement: for those kinds nothing is
/// made and nothing is drawn.
pub open spec fn stmt_plan(
    kind: SqlKind,
    driver: DriverKind,
    tables: Seq<(Seq<char>, Seq<(Seq<char>, Seq<char>)>)>,
    state: u32,
    live: Seq<Seq<char>>,
    serial: nat,
) -> Plan {
    match kind {
        SqlKind::Select => plain_plan(select_stmt(names_only(tables), state), live, serial),
        SqlKind::Insert => plain_plan(insert_stmt(tables, state), live, serial),
        SqlKind::Update => plain_plan(update_stmt(tables, state), live, serial),
        SqlKind::Delete => plain_plan(delete_stmt(tables, state), live, serial),
        SqlKind::Upsert => plain_plan(upsert_stmt(tables, state), live, serial),
        SqlKind::Vacuum => plain_plan((Some(vacuum_sql()), state), live, serial),
        SqlKind::Pragma => match driver {
            DriverKind::Sqlite => plain_plan(
                (Some(pragma_stmt(state).0), pragma_stmt(state).1),
                live,
                serial,
            ),
            DriverKind::Limbo => plain_plan((None, state), live, serial),
        },
        SqlKind::CreateTrigger => match driver {
            DriverKind::Sqlite => create_trigger_plan(keyed(tables), state, live, serial),
            DriverKind::Limbo => plain_plan((None, state), live, serial),
        },
        SqlKind::DropTrigger => match driver {
            DriverKind::Sqlite => drop_trigger_plan(state, live, serial),
            DriverKind::Limbo => plain_plan((None, state), live, serial),
        },
    }
}

/// Whatever statement is generated, the record of triggers stays numbered:
/// no two live triggers ever share a name.
pub proof fn lemma_stmt_plan_keeps_numbered(
    kind: SqlKind,
    driver: DriverKind,
    tables: Seq<(Seq<char>, Seq<(Seq<char>, Seq<char>)>)>,
    state: u32,
    live: Seq<Seq<char>>,
    serial: nat,
)
    requires
        numbered(live, serial),
    ensures
        numbered(
            stmt_plan(kind, driver, tables, state, live, serial).live,
            stmt_plan(kind, driver, tables, state, live, serial).serial,
        ),
{
    match (kind, driver) {
        (SqlKind::CreateTrigger, DriverKind::Sqlite) => {
            lemma_create_keeps_numbered(keyed(tables), state, live, serial);
        },
        (SqlKind::DropTrigger, DriverKind::Sqlite) => {
            if live.len() > 0 {
                lemma_remove_keeps_numbered(live, serial, dropped_position(live, state));
            }
        },
        _ => {},
    }
}

/// The tables with the names of their columns alone.
pub fn name_tables<T: TableColumnLike>(tables: &[T]) -> (out: Vec<TableInfo>)
    ensures
        name_lists(out@) == names_only(typed_lists(tables@)),
{
    let mut out: Vec<TableInfo> = Vec::new();
    let mut k: usize = 0;
    while k < tables.len()
        invariant
            k <= tables.len(),
            out.len() == k,
            forall|m: int|
                0 <= m < k ==> (#[trigger] out[m]).spec_name() == tables[m].spec_table_name()
                    && out[m].spec_columns() == names_of(tables[m].spec_typed_columns()),
        decreases tables.len() - k,
    {
        let columns = tables[k].columns();
        let info = TableInfo::new(String::from_str(tables[k].name()), column_names(&columns));
        out.push(info);
        k += 1;
    }
    out
}

/// The tables with the mark of those that have a column named `id`.
pub fn key_tables<T: TableColumnLike>(tables: &[T]) -> (out: Vec<TriggerTableWithColumns>)
    ensures
        trigger_lists(out@) == keyed(typed_lists(tables@)),
{
    let mut out: Vec<TriggerTableWithColumns> = Vec::new();
    let mut k: usize = 0;
    while k < tables.len()
        invariant
            k <= tables.len(),
            out.len() == k,
            forall|m: int|
                0 <= m < k ==> (#[trigger] out[m]).spec_trigger_table()
                    == tables[m].spec_table_name() && out[m].spec_has_primary_key()
                    == has_id_column(tables[m].spec_typed_columns()),
        decreases tables.len() - k,
    {
        let columns = tables[k].columns();
        let has_primary_key = find_id_column(&columns);
        let table = TriggerTableWithColumns::new(
            String::from_str(tables[k].name()),
            columns,
            has_primary_key,
        );
        out.push(table);
        k += 1;
    }
    out
}

/// One statement of kind `sql_kind` for the engine `driver_kind`, or nothing
/// where the kind cannot be generated over `tables`.
pub fn gen_stmt<T: TableColumnLike>(
    sql_kind: SqlKind,
    driver_kind: DriverKind,
    tables: &[T],
    rng: &mut LcgRng,
    triggers: &mut LiveTriggers,
) -> (stmt: Option<String>)
    ensures
        ({
            let plan = stmt_plan(
                sql_kind,
                driver_kind,
                typed_lists(tables@),
                old(rng)@,
                old(triggers).live(),
                old(triggers).serial(),
            );
            &&& stmt.deep_view() == plan.sql
            &&& final(rng)@ == plan.state
            &&& final(triggers).live() == plan.live
            &&& final(triggers).serial() == plan.serial
        }),
{
    match sql_kind {
        SqlKind::Select => {
            let named = name_tables(tables);
            gen_select_stmt(named.as_slice(), rng)
        },
        SqlKind::Insert => gen_insert_stmt(tables, rng),
        SqlKind::Update => gen_update_stmt(tables, rng),
        SqlKind::Delete => gen_delete_stmt(tables, rng),
        SqlKind::Upsert => gen_upsert_stmt(tables, rng),
        SqlKind::Vacuum => gen_vacuum_stmt(),
        SqlKind::Pragma => match driver_kind {
            DriverKind::Sqlite => get_pragma_stmt_by_seed(rng),
            DriverKind::Limbo => None,
        },
        SqlKind::CreateTrigger => match driver_kind {
            DriverKind::Sqlite => {
                let keyed_tables = key_tables(tables);
                gen_create_trigger_stmt(keyed_tables.as_slice(), rng, triggers)
            },
            DriverKind::Limbo => None,
        },
        SqlKind::DropTrigger => match driver_kind {
            DriverKind::Sqlite => gen_drop_trigger_stmt(rng, triggers),
            DriverKind::Limbo => None,
        },
    }
}

} // verus!

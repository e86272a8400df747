//! Statement generation: one generator for each kind of statement, all
//! driven by a table list and a pseudo-random stream.

pub mod common;
pub mod limbo;
pub mod sqlite;

use crate::drivers::DRIVER_KIND;
use crate::generators::common::create_trigger_stmt_common::LiveTriggers;
use crate::generators::common::insert_stmt_common::{typed_lists, TableColumnLike};
use crate::generators::common::{stmt_plan, DriverKind, SqlKind};
use crate::rng::LcgRng;
use vstd::prelude::*;

verus! {

/// The engine that statements are generated for, by the kind of driver.
pub open spec fn generator_of(kind: DRIVER_KIND) -> DriverKind {
    match kind {
        DRIVER_KIND::SQLITE_IN_MEM => DriverKind::Sqlite,
        DRIVER_KIND::LIMBO_IN_MEM => DriverKind::Limbo,
    }
}

/// One statement of kind `kind` for the engine behind a driver of kind
/// `driver_kind`, over `tables`, or nothing where the kind cannot be
/// generated.
pub fn get_stmt_by_seed<T: TableColumnLike>(
    seeder: &mut LcgRng,
    kind: SqlKind,
    driver_kind: DRIVER_KIND,
    tables: &[T],
    triggers: &mut LiveTriggers,
) -> (stmt: Option<String>)
    ensures
        ({
            let plan = stmt_plan(
                kind,
                generator_of(driver_kind),
                typed_lists(tables@),
                old(seeder)@,
                old(triggers).live(),
                old(triggers).serial(),
            );
            &&& stmt.deep_view() == plan.sql
            &&& final(seeder)@ == plan.state
            &&& final(triggers).live() == plan.live
            &&& final(triggers).serial() == plan.serial
        }),
{
    match driver_kind {
        DRIVER_KIND::SQLITE_IN_MEM => sqlite::get_stmt_by_seed(tables, seeder, kind, triggers),
        DRIVER_KIND::LIMBO_IN_MEM => limbo::get_stmt_by_seed(tables, seeder, kind, triggers),
    }
}

} // verus!

//! Statement generation for Limbo.

use crate::generators::common::create_trigger_stmt_common::LiveTriggers;
use crate::generators::common::insert_stmt_common::{typed_lists, TableColumnLike};
use crate::generators::common::{gen_stmt, stmt_plan, DriverKind, SqlKind};
use crate::rng::LcgRng;
use vstd::prelude::*;

verus! {

/// One statement of kind `kind` for Limbo over `tables`, or nothing where
/// the kind cannot be generated over them; pragmas and trigger statements
/// are never generated for Limbo.
pub fn get_stmt_by_seed<T: TableColumnLike>(
    tables: &[T],
    seeder: &mut LcgRng,
    kind: SqlKind,
    triggers: &mut LiveTriggers,
) -> (stmt: Option<String>)
    ensures
        ({
            let plan = stmt_plan(
                kind,
                DriverKind::Limbo,
                typed_lists(tables@),
                old(seeder)@,
                old(triggers).live(),
                old(triggers).serial(),
            );
            &&& stmt.deep_view() == plan.sql
            &&& final(seeder)@ == plan.state
            &&& final(triggers).live() == plan.live
            &&& final(triggers).serial() == plan.serial
        }),
{
    gen_stmt(kind, DriverKind::Limbo, tables, seeder, triggers)
}

} // verus!

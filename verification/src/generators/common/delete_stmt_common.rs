//! `DELETE` with one condition on the first column of a random table.

use crate::generators::common::insert_stmt_common::{typed_lists, TableColumnLike};
use crate::generators::common::sampling::{pick, pick_index};
use crate::rng::{lcg_output, lcg_step, LcgRng};
use crate::text::{decimal, push_decimal};
use vstd::prelude::*;
use vstd::string::*;

verus! {

/// The value that the first column is compared with, and the state after
/// its draws.
///
/// One draw selects one of four policies: an integer below 1000 from one
/// more draw, a quoted string with such an integer inside, `NULL`, or the
/// constant `1`.
pub open spec fn delete_operand(state: u32) -> (Seq<char>, u32) {
    let at_policy = lcg_step(state);
    let policy = lcg_output(at_policy) as int % 4;
    let at_value = lcg_step(at_policy);
    if policy == 0 {
        (decimal((lcg_output(at_value) as int % 1000) as nat), at_value)
    } else if policy == 1 {
        ("'val"@ + decimal((lcg_output(at_value) as int % 1000) as nat) + "'"@, at_value)
    } else if policy == 2 {
        ("NULL"@, at_policy)
    } else {
        ("1"@, at_policy)
    }
}

/// The text of a `DELETE` of the rows of `table` whose `column` equals
/// `operand`.
pub open spec fn delete_sql(table: Seq<char>, column: Seq<char>, operand: Seq<char>) -> Seq<char> {
    "DELETE FROM "@ + table + " WHERE "@ + column + " = "@ + operand + ";"@
}

/// The `DELETE` statement that the draws after `state` give for `tables`,
/// and the state after those draws.
///
/// One draw selects the table; the condition is on its first column alone.
pub open spec fn delete_stmt(tables: Seq<(Seq<char>, Seq<(Seq<char>, Seq<char>)>)>, state: u32) -> (
    Option<Seq<char>>,
    u32,
) {
    if tables.len() == 0 {
        (None, state)
    } else {
        let table = tables[pick(state, tables.len() as int)];
        let at_table = lcg_step(state);
        if table.1.len() == 0 {
            (None, at_table)
        } else {
            let operand = delete_operand(at_table);
            (Some(delete_sql(table.0, table.1[0].0, operand.0)), operand.1)
        }
    }
}

/// The value that the first column is compared with.
pub fn gen_delete_operand(rng: &mut LcgRng) -> (operand: String)
    ensures
        (operand@, final(rng)@) == delete_operand(old(rng)@),
{
    let mut operand = String::new();
    let policy: i32 = rng.rand() % 4;
    if policy == 0 {
        let drawn: i32 = rng.rand();
        push_decimal(&mut operand, (drawn % 1000) as u64);
    } else if policy == 1 {
        let drawn: i32 = rng.rand();
        operand.append("'val");
        push_decimal(&mut operand, (drawn % 1000) as u64);
        operand.append("'");
    } else if policy == 2 {
        operand.append("NULL");
    } else {
        operand.append("1");
    }
    operand
}

/// A `DELETE` of the rows of a random table whose first column equals a
/// random operand, or nothing where there is no table or the table has no
/// column.
pub fn gen_delete_stmt<T: TableColumnLike>(tables: &[T], rng: &mut LcgRng) -> (stmt: Option<String>)
    ensures
        (stmt.deep_view(), final(rng)@) == delete_stmt(typed_lists(tables@), old(rng)@),
{
    if tables.len() == 0 {
        return None;
    }
    let table_idx = pick_index(rng, tables.len());
    let table = &tables[table_idx];
    let columns = table.columns();
    if columns.len() == 0 {
        return None;
    }
    let operand = gen_delete_operand(rng);
    let mut stmt = String::new();
    stmt.append("DELETE FROM ");
    stmt.append(table.name());
    stmt.append(" WHERE ");
    stmt.append(columns[0].0.as_str());
    stmt.append(" = ");
    stmt.append(operand.as_str());
    stmt.append(";");
    Some(stmt)
}

} // verus!

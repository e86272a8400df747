//! `INSERT .. ON CONFLICT .. DO UPDATE`: an insert that turns into an update
//! of the same columns where the first chosen column collides.

use crate::generators::common::data_type::{
    classify_type, declared_type, generate_value, literal, ColumnType,
};
use crate::generators::common::insert_stmt_common::{
    chosen_columns, column_names, column_views, names_of, take_columns, typed_lists, types_of,
    TableColumnLike,
};
use crate::generators::common::sampling::{after_choice, choose_columns, pick, pick_index};
use crate::generators::common::update_stmt_common::{assign, assignments};
use crate::rng::{lcg_step, LcgRng};
use crate::text::{join, joined, to_uppercase, views};
use vstd::prelude::*;
use vstd::string::*;

verus! {

/// The literal that an upsert writes for a column of class `ty`, and the
/// state after its draws: as for `INSERT`, except that a blob is the fixed
/// text `'blob'` and draws nothing.
pub open spec fn plain_literal(ty: ColumnType, state: u32) -> (Seq<char>, u32) {
    match ty {
        ColumnType::Blob => ("'blob'"@, state),
        _ => literal(ty, state),
    }
}

/// One upsert literal for each of the declared types, drawn from left to
/// right, and the state after the draws.
pub open spec fn plain_literals(types: Seq<Seq<char>>, state: u32) -> (Seq<Seq<char>>, u32)
    decreases types.len(),
{
    if types.len() == 0 {
        (Seq::empty(), state)
    } else {
        let before = plain_literals(types.drop_last(), state);
        let value = plain_literal(declared_type(types.last()), before.1);
        (before.0.push(value.0), value.1)
    }
}

/// The text of an upsert into `table`: `inserted` goes into the columns
/// `names`; on a collision in `target` the same columns are set to `updated`.
pub open spec fn upsert_sql(
    table: Seq<char>,
    names: Seq<Seq<char>>,
    inserted: Seq<Seq<char>>,
    target: Seq<char>,
    updated: Seq<Seq<char>>,
) -> Seq<char> {
    "INSERT INTO "@ + table + " ("@ + joined(names, ", "@) + ") VALUES ("@ + joined(
        inserted,
        ", "@,
    ) + ") ON CONFLICT("@ + target + ") DO UPDATE SET "@ + joined(
        assignments(names, updated),
        ", "@,
    ) + ";"@
}

/// The upsert that the draws after `state` give for `tables`, and the state
/// after those draws.
///
/// Table and columns are chosen as for `INSERT`, and the first chosen column
/// is the conflict target. The values of the update are drawn first, those
/// of the insert after them: the two lists are independent of each other.
pub open spec fn upsert_stmt(tables: Seq<(Seq<char>, Seq<(Seq<char>, Seq<char>)>)>, state: u32) -> (
    Option<Seq<char>>,
    u32,
) {
    if tables.len() == 0 {
        (None, state)
    } else {
        let table = tables[pick(state, tables.len() as int)];
        let at_table = lcg_step(state);
        if table.1.len() == 0 {
            (None, at_table)
        } else {
            let columns = chosen_columns(table.1, at_table);
            let names = names_of(columns);
            let updated = plain_literals(types_of(columns), after_choice(table.1.len(), at_table));
            let inserted = plain_literals(types_of(columns), updated.1);
            (Some(upsert_sql(table.0, names, inserted.0, names[0], updated.0)), inserted.1)
        }
    }
}

/// The upsert literal for a column whose declared type reads `ty`.
pub fn generate_plain_value(ty: &str, rng: &mut LcgRng) -> (value: String)
    ensures
        (value@, final(rng)@) == plain_literal(declared_type(ty@), old(rng)@),
{
    let upper = to_uppercase(ty);
    let class = classify_type(upper.as_str());
    match class {
        ColumnType::Blob => String::from_str("'blob'"),
        _ => generate_value(class, rng),
    }
}

/// One upsert literal for each of `columns`, from left to right.
pub fn generate_plain_values(columns: &Vec<(String, String)>, rng: &mut LcgRng) -> (values: Vec<
    String,
>)
    ensures
        (views(values@), final(rng)@) == plain_literals(
            types_of(column_views(columns@)),
            old(rng)@,
        ),
        values.len() == columns.len(),
{
    let ghost types = types_of(column_views(columns@));
    let mut values: Vec<String> = Vec::new();
    let mut k: usize = 0;
    while k < columns.len()
        invariant
            k <= columns.len(),
            types == types_of(column_views(columns@)),
            values.len() == k,
            (views(values@), rng@) == plain_literals(types.take(k as int), old(rng)@),
        decreases columns.len() - k,
    {
        let value = generate_plain_value(columns[k].1.as_str(), rng);
        values.push(value);
        proof {
            let next = types.take(k + 1);
            assert(next.drop_last() =~= types.take(k as int));
        }
        k += 1;
    }
    proof {
        assert(types.take(columns.len() as int) =~= types);
    }
    values
}

/// An upsert of one row into a random non-empty choice of the columns of a
/// random table, or nothing where there is no table or the table has no
/// column.
pub fn gen_upsert_stmt<T: TableColumnLike>(tables: &[T], rng: &mut LcgRng) -> (stmt: Option<String>)
    ensures
        (stmt.deep_view(), final(rng)@) == upsert_stmt(typed_lists(tables@), old(rng)@),
{
    if tables.len() == 0 {
        return None;
    }
    let table_idx = pick_index(rng, tables.len());
    let table = &tables[table_idx];
    let columns = table.columns();
    if columns.len() == 0 {
        return None;
    }
    let (col_count, order) = choose_columns(rng, columns.len());
    let selected_cols = take_columns(&columns, &order, col_count);
    let col_names = column_names(&selected_cols);
    let updated = generate_plain_values(&selected_cols, rng);
    let inserted = generate_plain_values(&selected_cols, rng);
    proof {
        assert(views(col_names@).len() == selected_cols.len());
    }
    let update_clause = assign(&col_names, &updated);
    let mut stmt = String::new();
    stmt.append("INSERT INTO ");
    stmt.append(table.name());
    stmt.append(" (");
    stmt.append(join(&col_names, ", ").as_str());
    stmt.append(") VALUES (");
    stmt.append(join(&inserted, ", ").as_str());
    stmt.append(") ON CONFLICT(");
    stmt.append(col_names[0].as_str());
    stmt.append(") DO UPDATE SET ");
    stmt.append(join(&update_clause, ", ").as_str());
    stmt.append(";");
    proof {
        assert(stmt@ =~= upsert_sql(
            table.spec_table_name(),
            views(col_names@),
            views(inserted@),
            col_names[0]@,
            views(updated@),
        ));
    }
    Some(stmt)
}

} // verus!

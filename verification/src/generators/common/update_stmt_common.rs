//! `UPDATE` of every row in a random non-empty choice of one table's columns.

use crate::generators::common::data_type::{declared_type, literal_fits};
use crate::generators::common::insert_stmt_common::{
    chosen_columns, column_names, generate_values, lemma_chosen_columns_belong,
    lemma_literals_fit, literals, names_of, take_columns, typed_lists, types_of,
    TableColumnLike,
};
use crate::generators::common::sampling::{after_choice, choose_columns, pick, pick_index};
use crate::rng::{lcg_step, LcgRng};
use crate::text::{join, joined, views};
use vstd::prelude::*;
use vstd::string::*;

verus! {

/// For each column the text `name = value`.
pub open spec fn assignments(names: Seq<Seq<char>>, values: Seq<Seq<char>>) -> Seq<Seq<char>> {
    Seq::new(names.len(), |k: int| names[k] + " = "@ + values[k])
}

/// The text of an `UPDATE` of `table` that sets `names` to `values` in
/// every row.
pub open spec fn update_sql(table: Seq<char>, names: Seq<Seq<char>>, values: Seq<Seq<char>>) -> Seq<
    char,
> {
    "UPDATE "@ + table + " SET "@ + joined(assignments(names, values), ", "@) + " WHERE 1=1;"@
}

/// The `UPDATE` statement that the draws after `state` give for `tables`,
/// and the state after those draws.
///
/// Table, columns and literals are chosen as for `INSERT`. The statement
/// has the condition `1=1`, so it reaches every row.
pub open spec fn update_stmt(tables: Seq<(Seq<char>, Seq<(Seq<char>, Seq<char>)>)>, state: u32) -> (
    Option<Seq<char>>,
    u32,
) {
    if tables.len() == 0 {
        (None, state)
    } else {
        let table = tables[pick(state, tables.len() as int)];
        let at_table = lcg_step(state);
        if table.1.len() == 0 {
            (None, at_table)
        } else {
            let columns = chosen_columns(table.1, at_table);
            let values = literals(types_of(columns), after_choice(table.1.len(), at_table));
            (Some(update_sql(table.0, names_of(columns), values.0)), values.1)
        }
    }
}

/// An `UPDATE` statement sets columns of the sampled table alone, no column
/// twice, each to a literal whose syntax matches the declared type of that
/// column.
pub proof fn lemma_update_type_consistent(
    tables: Seq<(Seq<char>, Seq<(Seq<char>, Seq<char>)>)>,
    state: u32,
)
    requires
        update_stmt(tables, state).0 is Some,
    ensures
        ({
            let table = tables[pick(state, tables.len() as int)];
            let columns = chosen_columns(table.1, lcg_step(state));
            let values = literals(
                types_of(columns),
                after_choice(table.1.len(), lcg_step(state)),
            ).0;
            &&& 0 <= pick(state, tables.len() as int) < tables.len()
            &&& update_stmt(tables, state).0 == Some(
                update_sql(table.0, names_of(columns), values),
            )
            &&& 1 <= columns.len() <= table.1.len()
            &&& values.len() == columns.len()
            &&& forall|k: int|
                0 <= k < columns.len() ==> table.1.contains(#[trigger] columns[k])
            &&& forall|k: int|
                0 <= k < columns.len() ==> literal_fits(
                    declared_type(columns[k].1),
                    #[trigger] values[k],
                )
        }),
{
    let table = tables[pick(state, tables.len() as int)];
    let columns = chosen_columns(table.1, lcg_step(state));
    lemma_chosen_columns_belong(table.1, lcg_step(state));
    lemma_literals_fit(types_of(columns), after_choice(table.1.len(), lcg_step(state)));
}

/// For each column the text `name = value`.
pub fn assign(names: &Vec<String>, values: &Vec<String>) -> (out: Vec<String>)
    requires
        names.len() == values.len(),
    ensures
        views(out@) == assignments(views(names@), views(values@)),
{
    let mut out: Vec<String> = Vec::new();
    let mut k: usize = 0;
    while k < names.len()
        invariant
            k <= names.len() == values.len(),
            out.len() == k,
            forall|m: int|
                0 <= m < k ==> (#[trigger] out[m])@ == names[m]@ + " = "@ + values[m]@,
        decreases names.len() - k,
    {
        let mut item = names[k].clone();
        item.append(" = ");
        item.append(values[k].as_str());
        out.push(item);
        k += 1;
    }
    out
}

/// An `UPDATE` that sets a random non-empty choice of the columns of a
/// random table to random literals in every row, or nothing where there is
/// no table or the table has no column.
pub fn gen_update_stmt<T: TableColumnLike>(tables: &[T], rng: &mut LcgRng) -> (stmt: Option<String>)
    ensures
        (stmt.deep_view(), final(rng)@) == update_stmt(typed_lists(tables@), old(rng)@),
{
    if tables.len() == 0 {
        return None;
    }
    let table_idx = pick_index(rng, tables.len());
    let table = &tables[table_idx];
    let columns = table.columns();
    if columns.len() == 0 {
        return None;
    }
    let (col_count, order) = choose_columns(rng, columns.len());
    let selected_cols = take_columns(&columns, &order, col_count);
    let col_names = column_names(&selected_cols);
    let values = generate_values(&selected_cols, rng);
    proof {
        assert(views(col_names@).len() == selected_cols.len());
    }
    let set_clause = assign(&col_names, &values);
    let mut stmt = String::new();
    stmt.append("UPDATE ");
    stmt.append(table.name());
    stmt.append(" SET ");
    stmt.append(join(&set_clause, ", ").as_str());
    stmt.append(" WHERE 1=1;");
    Some(stmt)
}

} // verus!

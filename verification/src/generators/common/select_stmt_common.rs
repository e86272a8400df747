//! `SELECT` over a random non-empty choice of one table's columns.

use crate::generators::common::sampling::{
    after_choice, choose_columns, chosen_count, chosen_order, pick, pick_index, positions, taken,
};
use crate::rng::{lcg_step, LcgRng};
use crate::text::{join, joined, views};
use vstd::prelude::*;
use vstd::string::*;

verus! {

/// A table as `SELECT` sees it: a name and the names of its columns.
pub trait TableLike {
    /// The name of the table.
    spec fn spec_name(&self) -> Seq<char>;

    /// The names of the columns, in the order of the schema.
    spec fn spec_columns(&self) -> Seq<Seq<char>>;

    /// The name of the table.
    fn name(&self) -> (name: &str)
        ensures
            name@ == self.spec_name(),
    ;

    /// The names of the columns, in the order of the schema.
    fn columns(&self) -> (columns: Vec<String>)
        ensures
            views(columns@) == self.spec_columns(),
    ;
}

/// A table list as `SELECT` sees it: for each table its name and the names
/// of its columns.
pub open spec fn name_lists<T: TableLike>(tables: Seq<T>) -> Seq<(Seq<char>, Seq<Seq<char>>)> {
    tables.map_values(|t: T| (t.spec_name(), t.spec_columns()))
}

/// The text of a `SELECT` of `columns` from `table`.
pub open spec fn select_sql(columns: Seq<Seq<char>>, table: Seq<char>) -> Seq<char> {
    "SELECT "@ + joined(columns, ", "@) + " FROM "@ + table + ";"@
}

/// The `SELECT` statement that the draws after `state` give for `tables`,
/// and the state after those draws.
///
/// One draw selects the table; one more the number of columns, at least one;
/// the draws of a shuffle put the columns in order, and the first of them
/// are taken. Without tables nothing is drawn; a table without columns ends
/// the attempt after the first draw.
pub open spec fn select_stmt(tables: Seq<(Seq<char>, Seq<Seq<char>>)>, state: u32) -> (
    Option<Seq<char>>,
    u32,
) {
    if tables.len() == 0 {
        (None, state)
    } else {
        let table = tables[pick(state, tables.len() as int)];
        let at_table = lcg_step(state);
        let n = table.1.len();
        if n == 0 {
            (None, at_table)
        } else {
            let columns = taken(table.1, chosen_order(n, at_table), chosen_count(n, at_table));
            (Some(select_sql(columns, table.0)), after_choice(n, at_table))
        }
    }
}

/// Clones the first `count` of `items` in the order `order`.
pub fn take_names(items: &Vec<String>, order: &Vec<usize>, count: usize) -> (out: Vec<String>)
    requires
        count <= order.len(),
        forall|k: int| 0 <= k < order.len() ==> #[trigger] order[k] < items.len(),
    ensures
        views(out@) == taken(views(items@), positions(order@), count as nat),
{
    let mut out: Vec<String> = Vec::new();
    let mut k: usize = 0;
    while k < count
        invariant
            k <= count <= order.len(),
            forall|m: int| 0 <= m < order.len() ==> #[trigger] order[m] < items.len(),
            views(out@) == taken(
                views(items@),
                positions(order@),
                k as nat,
            ),
        decreases count - k,
    {
        let ghost before = out@;
        out.push(items[order[k]].clone());
        proof {
            assert(views(before).len() == k);
            assert forall|m: int| 0 <= m < k + 1 implies views(out@)[m] == views(items@)[positions(
                order@,
            )[m]] by {
                if m < k {
                    assert(views(out@)[m] == views(before)[m]);
                }
            }
            assert(views(out@) =~= taken(
                views(items@),
                positions(order@),
                (k + 1) as nat,
            ));
        }
        k += 1;
    }
    out
}

/// A `SELECT` of a random non-empty choice of the columns of a random table,
/// or nothing where there is no table or the table has no column.
pub fn gen_select_stmt<T: TableLike>(tables: &[T], rng: &mut LcgRng) -> (stmt: Option<String>)
    ensures
        (stmt.deep_view(), final(rng)@) == select_stmt(name_lists(tables@), old(rng)@),
{
    if tables.len() == 0 {
        return None;
    }
    let table_idx = pick_index(rng, tables.len());
    let table = &tables[table_idx];
    let columns = table.columns();
    if columns.len() == 0 {
        return None;
    }
    let (col_count, order) = choose_columns(rng, columns.len());
    let selected = take_names(&columns, &order, col_count);
    let mut stmt = String::new();
    stmt.append("SELECT ");
    stmt.append(join(&selected, ", ").as_str());
    stmt.append(" FROM ");
    stmt.append(table.name());
    stmt.append(";");
    Some(stmt)
}

} // verus!

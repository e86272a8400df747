//! `INSERT` of one row into a random non-empty choice of one table's columns.

use crate::generators::common::data_type::{
    declared_type, generate_value_by_type, lemma_literal_fits, literal, literal_fits,
};
use crate::generators::common::sampling::{
    after_choice, choose_columns, chosen_count, chosen_order, is_arrangement,
    lemma_shuffle_order_arrangement, pick, pick_index, positions, taken,
};
use crate::rng::{lcg_step, LcgRng};
use crate::text::{join, joined, views};
use vstd::prelude::*;
use vstd::string::*;

verus! {

/// A table as the writing statements see it: a name and, for each column,
/// its name and its declared type.
pub trait TableColumnLike {
    /// The name of the table.
    spec fn spec_table_name(&self) -> Seq<char>;

    /// The columns as pairs of name and declared type, in the order of the
    /// schema.
    spec fn spec_typed_columns(&self) -> Seq<(Seq<char>, Seq<char>)>;

    /// The name of the table.
    fn name(&self) -> (name: &str)
        ensures
            name@ == self.spec_table_name(),
    ;

    /// The columns as pairs of name and declared type, in the order of the
    /// schema.
    fn columns(&self) -> (columns: Vec<(String, String)>)
        ensures
            column_views(columns@) == self.spec_typed_columns(),
    ;
}

/// The character sequences of a list of columns.
pub open spec fn column_views(columns: Seq<(String, String)>) -> Seq<(Seq<char>, Seq<char>)> {
    Seq::new(columns.len(), |k: int| (columns[k].0@, columns[k].1@))
}

/// A table list as the writing statements see it: for each table its name
/// and its columns.
pub open spec fn typed_lists<T: TableColumnLike>(tables: Seq<T>) -> Seq<
    (Seq<char>, Seq<(Seq<char>, Seq<char>)>),
> {
    tables.map_values(|t: T| (t.spec_table_name(), t.spec_typed_columns()))
}

/// The names of `columns`.
pub open spec fn names_of(columns: Seq<(Seq<char>, Seq<char>)>) -> Seq<Seq<char>> {
    Seq::new(columns.len(), |k: int| columns[k].0)
}

/// The declared types of `columns`.
pub open spec fn types_of(columns: Seq<(Seq<char>, Seq<char>)>) -> Seq<Seq<char>> {
    Seq::new(columns.len(), |k: int| columns[k].1)
}

/// One literal for each of the declared types, drawn from left to right,
/// and the state after the draws.
pub open spec fn literals(types: Seq<Seq<char>>, state: u32) -> (Seq<Seq<char>>, u32)
    decreases types.len(),
{
    if types.len() == 0 {
        (Seq::empty(), state)
    } else {
        let before = literals(types.drop_last(), state);
        let value = literal(declared_type(types.last()), before.1);
        (before.0.push(value.0), value.1)
    }
}

/// The columns that the writing statements take from a table of `columns`
/// once the table was selected and the generator is in `state`.
pub open spec fn chosen_columns(columns: Seq<(Seq<char>, Seq<char>)>, state: u32) -> Seq<
    (Seq<char>, Seq<char>),
> {
    taken(columns, chosen_order(columns.len(), state), chosen_count(columns.len(), state))
}

/// The text of an `INSERT` of `values` into the columns `names` of `table`.
pub open spec fn insert_sql(table: Seq<char>, names: Seq<Seq<char>>, values: Seq<Seq<char>>) -> Seq<
    char,
> {
    "INSERT INTO "@ + table + " ("@ + joined(names, ", "@) + ") VALUES ("@ + joined(values, ", "@)
        + ");"@
}

/// The `INSERT` statement that the draws after `state` give for `tables`,
/// and the state after those draws.
///
/// Table and columns are chosen as for `SELECT`; then each chosen column gets
/// a literal of its declared type, from left to right.
pub open spec fn insert_stmt(tables: Seq<(Seq<char>, Seq<(Seq<char>, Seq<char>)>)>, state: u32) -> (
    Option<Seq<char>>,
    u32,
) {
    if tables.len() == 0 {
        (None, state)
    } else {
        let table = tables[pick(state, tables.len() as int)];
        let at_table = lcg_step(state);
        if table.1.len() == 0 {
            (None, at_table)
        } else {
            let columns = chosen_columns(table.1, at_table);
            let values = literals(types_of(columns), after_choice(table.1.len(), at_table));
            (Some(insert_sql(table.0, names_of(columns), values.0)), values.1)
        }
    }
}

/// The chosen columns are columns of the table, at least one and no column
/// twice: each stands at a position of its own in the table.
pub proof fn lemma_chosen_columns_belong(columns: Seq<(Seq<char>, Seq<char>)>, state: u32)
    requires
        columns.len() > 0,
    ensures
        1 <= chosen_columns(columns, state).len() <= columns.len(),
        is_arrangement(chosen_order(columns.len(), state)),
        forall|k: int|
            0 <= k < chosen_columns(columns, state).len() ==> {
                &&& 0 <= chosen_order(columns.len(), state)[k] < columns.len()
                &&& #[trigger] chosen_columns(columns, state)[k] == columns[chosen_order(
                    columns.len(),
                    state,
                )[k]]
                &&& columns.contains(chosen_columns(columns, state)[k])
            },
{
    lemma_shuffle_order_arrangement(columns.len(), lcg_step(state));
}

/// Every literal of a list has the syntax that the declared type at its
/// position asks for.
pub proof fn lemma_literals_fit(types: Seq<Seq<char>>, state: u32)
    ensures
        literals(types, state).0.len() == types.len(),
        forall|k: int|
            0 <= k < types.len() ==> literal_fits(
                declared_type(types[k]),
                #[trigger] literals(types, state).0[k],
            ),
    decreases types.len(),
{
    if types.len() > 0 {
        lemma_literals_fit(types.drop_last(), state);
        let before = literals(types.drop_last(), state);
        lemma_literal_fits(declared_type(types.last()), before.1);
    }
}

/// An `INSERT` statement names columns of the sampled table alone, no
/// column twice, and gives each a literal whose syntax matches the declared
/// type of that column.
pub proof fn lemma_insert_type_consistent(
    tables: Seq<(Seq<char>, Seq<(Seq<char>, Seq<char>)>)>,
    state: u32,
)
    requires
        insert_stmt(tables, state).0 is Some,
    ensures
        ({
            let table = tables[pick(state, tables.len() as int)];
            let columns = chosen_columns(table.1, lcg_step(state));
            let values = literals(
                types_of(columns),
                after_choice(table.1.len(), lcg_step(state)),
            ).0;
            &&& 0 <= pick(state, tables.len() as int) < tables.len()
            &&& insert_stmt(tables, state).0 == Some(
                insert_sql(table.0, names_of(columns), values),
            )
            &&& 1 <= columns.len() <= table.1.len()
            &&& values.len() == columns.len()
            &&& forall|k: int|
                0 <= k < columns.len() ==> table.1.contains(#[trigger] columns[k])
            &&& forall|k: int|
                0 <= k < columns.len() ==> literal_fits(
                    declared_type(columns[k].1),
                    #[trigger] values[k],
                )
        }),
{
    let table = tables[pick(state, tables.len() as int)];
    let columns = chosen_columns(table.1, lcg_step(state));
    lemma_chosen_columns_belong(table.1, lcg_step(state));
    lemma_literals_fit(types_of(columns), after_choice(table.1.len(), lcg_step(state)));
}

/// Clones the first `count` of `items` in the order `order`.
pub fn take_columns(items: &Vec<(String, String)>, order: &Vec<usize>, count: usize) -> (out: Vec<
    (String, String),
>)
    requires
        count <= order.len(),
        forall|k: int| 0 <= k < order.len() ==> #[trigger] order[k] < items.len(),
    ensures
        column_views(out@) == taken(column_views(items@), positions(order@), count as nat),
        out.len() == count,
{
    let mut out: Vec<(String, String)> = Vec::new();
    let mut k: usize = 0;
    while k < count
        invariant
            k <= count <= order.len(),
            forall|m: int| 0 <= m < order.len() ==> #[trigger] order[m] < items.len(),
            out.len() == k,
            column_views(out@) == taken(column_views(items@), positions(order@), k as nat),
        decreases count - k,
    {
        let ghost before = out@;
        let item = &items[order[k]];
        out.push((item.0.clone(), item.1.clone()));
        proof {
            assert forall|m: int| 0 <= m < k + 1 implies column_views(out@)[m] == column_views(
                items@,
            )[positions(order@)[m]] by {
                if m < k {
                    assert(column_views(out@)[m] == column_views(before)[m]);
                }
            }
            assert(column_views(out@) =~= taken(
                column_views(items@),
                positions(order@),
                (k + 1) as nat,
            ));
        }
        k += 1;
    }
    out
}

/// The names of `columns`.
pub fn column_names(columns: &Vec<(String, String)>) -> (names: Vec<String>)
    ensures
        views(names@) == names_of(column_views(columns@)),
{
    let mut names: Vec<String> = Vec::new();
    let mut k: usize = 0;
    while k < columns.len()
        invariant
            k <= columns.len(),
            names.len() == k,
            forall|m: int| 0 <= m < k ==> (#[trigger] names[m])@ == columns[m].0@,
        decreases columns.len() - k,
    {
        names.push(columns[k].0.clone());
        k += 1;
    }
    names
}

/// One literal for each of `columns`, by its declared type, from left to
/// right.
pub fn generate_values(columns: &Vec<(String, String)>, rng: &mut LcgRng) -> (values: Vec<String>)
    ensures
        (views(values@), final(rng)@) == literals(types_of(column_views(columns@)), old(rng)@),
        values.len() == columns.len(),
{
    let ghost types = types_of(column_views(columns@));
    let mut values: Vec<String> = Vec::new();
    let mut k: usize = 0;
    while k < columns.len()
        invariant
            k <= columns.len(),
            types == types_of(column_views(columns@)),
            values.len() == k,
            (views(values@), rng@) == literals(types.take(k as int), old(rng)@),
        decreases columns.len() - k,
    {
        let value = generate_value_by_type(columns[k].1.as_str(), rng);
        values.push(value);
        proof {
            let next = types.take(k + 1);
            assert(next.drop_last() =~= types.take(k as int));
        }
        k += 1;
    }
    proof {
        assert(types.take(columns.len() as int) =~= types);
    }
    values
}

/// An `INSERT` of one row of random literals into a random non-empty choice
/// of the columns of a random table, or nothing where there is no table or
/// the table has no column.
pub fn gen_insert_stmt<T: TableColumnLike>(tables: &[T], rng: &mut LcgRng) -> (stmt: Option<String>)
    ensures
        (stmt.deep_view(), final(rng)@) == insert_stmt(typed_lists(tables@), old(rng)@),
{
    if tables.len() == 0 {
        return None;
    }
    let table_idx = pick_index(rng, tables.len());
    let table = &tables[table_idx];
    let columns = table.columns();
    if columns.len() == 0 {
        return None;
    }
    let (col_count, order) = choose_columns(rng, columns.len());
    let selected_cols = take_columns(&columns, &order, col_count);
    let col_names = column_names(&selected_cols);
    let values = generate_values(&selected_cols, rng);
    let mut stmt = String::new();
    stmt.append("INSERT INTO ");
    stmt.append(table.name());
    stmt.append(" (");
    stmt.append(join(&col_names, ", ").as_str());
    stmt.append(") VALUES (");
    stmt.append(join(&values, ", ").as_str());
    stmt.append(");");
    Some(stmt)
}

} // verus!

//! Tables as read out of a database schema.

use crate::drivers::DatabaseDriver;
use crate::generators::common::create_trigger_stmt_common::TriggerTableLike;
use crate::generators::common::insert_stmt_common::{column_views, TableColumnLike};
use crate::generators::common::select_stmt_common::TableLike;
use crate::text::views;
use vstd::prelude::*;
use vstd::string::*;

verus! {

/// A table with the names of its columns.
#[derive(Debug, Clone)]
pub struct TableInfo {
    /// The name of the table.
    pub name: String,
    /// The names of the columns, in the order of the schema.
    pub columns: Vec<String>,
}

/// A table with the names and the declared types of its columns.
#[derive(Debug, Clone)]
pub struct TableWithColumns {
    /// The name of the table.
    pub name: String,
    /// The columns as pairs of name and declared type, in the order of the
    /// schema.
    pub columns: Vec<(String, String)>,
}

/// A table with its columns and the mark of whether it counts as having a
/// primary key.
#[derive(Debug, Clone)]
pub struct TriggerTableWithColumns {
    /// The name of the table.
    pub name: String,
    /// The columns as pairs of name and declared type.
    pub columns: Vec<(String, String)>,
    /// Whether the table counts as having a primary key.
    pub has_primary_key: bool,
}

/// The schema that a generator works on: the one that was read, or an
/// empty one where none could be read.
pub fn or_empty(found: Option<Vec<TableWithColumns>>) -> (tables: Vec<TableWithColumns>)
    ensures
        found matches Some(found) ==> tables == found,
        found is None ==> tables@.len() == 0,
{
    match found {
        Some(found) => found,
        None => Vec::new(),
    }
}

/// The schema behind `driver` as it reads now: its tables with their
/// columns. Where the catalog cannot be read the schema counts as empty.
/// What the catalog holds is for the driver to say: `or_empty` says what is
/// made of its answer.
pub fn get<D: DatabaseDriver>(driver: &D) -> (tables: Vec<TableWithColumns>) {
    or_empty(driver.tables())
}

/// A copy of `names`.
pub fn clone_names(names: &Vec<String>) -> (out: Vec<String>)
    ensures
        views(out@) == views(names@),
{
    let mut out: Vec<String> = Vec::new();
    let mut k: usize = 0;
    while k < names.len()
        invariant
            k <= names.len(),
            out.len() == k,
            forall|m: int| 0 <= m < k ==> (#[trigger] out[m])@ == names[m]@,
        decreases names.len() - k,
    {
        out.push(names[k].clone());
        k += 1;
    }
    out
}

/// A copy of `columns`.
pub fn clone_columns(columns: &Vec<(String, String)>) -> (out: Vec<(String, String)>)
    ensures
        column_views(out@) == column_views(columns@),
{
    let mut out: Vec<(String, String)> = Vec::new();
    let mut k: usize = 0;
    while k < columns.len()
        invariant
            k <= columns.len(),
            out.len() == k,
            forall|m: int|
                0 <= m < k ==> (#[trigger] out[m]).0@ == columns[m].0@ && out[m].1@
                    == columns[m].1@,
        decreases columns.len() - k,
    {
        out.push((columns[k].0.clone(), columns[k].1.clone()));
        k += 1;
    }
    out
}

impl TableInfo {
    /// The table `name` with the columns `columns`.
    pub fn new(name: String, columns: Vec<String>) -> (table: Self)
        ensures
            table.name == name,
            table.columns == columns,
    {
        TableInfo { name, columns }
    }
}

impl TableLike for TableInfo {
    open spec fn spec_name(&self) -> Seq<char> {
        self.name@
    }

    open spec fn spec_columns(&self) -> Seq<Seq<char>> {
        views(self.columns@)
    }

    fn name(&self) -> (name: &str) {
        self.name.as_str()
    }

    fn columns(&self) -> (columns: Vec<String>) {
        clone_names(&self.columns)
    }
}

impl TableWithColumns {
    /// The table `name` with the columns `columns`.
    pub fn new(name: String, columns: Vec<(String, String)>) -> (table: Self)
        ensures
            table.name == name,
            table.columns == columns,
    {
        TableWithColumns { name, columns }
    }
}

impl TableColumnLike for TableWithColumns {
    open spec fn spec_table_name(&self) -> Seq<char> {
        self.name@
    }

    open spec fn spec_typed_columns(&self) -> Seq<(Seq<char>, Seq<char>)> {
        column_views(self.columns@)
    }

    fn name(&self) -> (name: &str) {
        self.name.as_str()
    }

    fn columns(&self) -> (columns: Vec<(String, String)>) {
        clone_columns(&self.columns)
    }
}

impl TriggerTableWithColumns {
    /// The table `name` with the columns `columns` and the given mark.
    pub fn new(name: String, columns: Vec<(String, String)>, has_primary_key: bool) -> (table:
        Self)
        ensures
            table.name == name,
            table.columns == columns,
            table.has_primary_key == has_primary_key,
    {
        TriggerTableWithColumns { name, columns, has_primary_key }
    }
}

impl TriggerTableLike for TriggerTableWithColumns {
    open spec fn spec_trigger_table(&self) -> Seq<char> {
        self.name@
    }

    open spec fn spec_trigger_columns(&self) -> Seq<(Seq<char>, Seq<char>)> {
        column_views(self.columns@)
    }

    open spec fn spec_has_primary_key(&self) -> bool {
        self.has_primary_key
    }

    fn name(&self) -> (name: &str) {
        self.name.as_str()
    }

    fn columns(&self) -> (columns: Vec<(String, String)>) {
        clone_columns(&self.columns)
    }

    fn has_primary_key(&self) -> (has: bool) {
        self.has_primary_key
    }
}

} // verus!

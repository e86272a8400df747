//! `PRAGMA` statements from a fixed catalog.

use crate::generators::common::sampling::{pick, pick_index};
use crate::rng::{lcg_output, lcg_step, LcgRng};
use crate::text::{decimal, push_decimal};
use vstd::prelude::*;
use vstd::string::*;

verus! {

/// The number of pragmas in the catalog.
pub const PRAGMA_COUNT: usize = 30;

/// One pragma of the catalog, by the argument it takes.
pub enum PragmaKind {
    /// A pragma without argument.
    NoArg(&'static str),
    /// A pragma that is switched `ON` or `OFF`.
    BoolArg(&'static str),
    /// A pragma set to a whole number between two bounds, both included.
    IntArg(&'static str, u64, u64),
    /// A pragma set to one of a list of words.
    StringArg(&'static str, Vec<&'static str>),
}

/// A pragma of the catalog as contracts see it.
pub enum PragmaModel {
    /// A pragma without argument.
    NoArg(Seq<char>),
    /// A pragma that is switched `ON` or `OFF`.
    BoolArg(Seq<char>),
    /// A pragma set to a whole number between two bounds, both included.
    IntArg(Seq<char>, nat, nat),
    /// A pragma set to one of a list of words.
    StringArg(Seq<char>, Seq<Seq<char>>),
}

/// The character sequences of a list of words.
pub open spec fn words(list: Seq<&'static str>) -> Seq<Seq<char>> {
    Seq::new(list.len(), |k: int| list[k]@)
}

impl View for PragmaKind {
    type V = PragmaModel;

    open spec fn view(&self) -> PragmaModel {
        match *self {
            PragmaKind::NoArg(name) => PragmaModel::NoArg(name@),
            PragmaKind::BoolArg(name) => PragmaModel::BoolArg(name@),
            PragmaKind::IntArg(name, min, max) => PragmaModel::IntArg(
                name@,
                min as nat,
                max as nat,
            ),
            PragmaKind::StringArg(name, choices) => PragmaModel::StringArg(name@, words(choices@)),
        }
    }
}

impl PragmaKind {
    /// Whether the pragma can be rendered: the bounds of a number are in
    /// order and leave room for the width of the range, and a list of words
    /// is not empty.
    pub open spec fn well_formed(&self) -> bool {
        match *self {
            PragmaKind::IntArg(_, min, max) => min <= max < u64::MAX,
            PragmaKind::StringArg(_, choices) => choices.len() > 0,
            _ => true,
        }
    }
}

/// The words that `journal_mode` takes.
pub open spec fn journal_modes() -> Seq<Seq<char>> {
    seq!["DELETE"@, "TRUNCATE"@, "PERSIST"@, "MEMORY"@, "WAL"@, "OFF"@]
}

/// The words that `locking_mode` takes.
pub open spec fn locking_modes() -> Seq<Seq<char>> {
    seq!["NORMAL"@, "EXCLUSIVE"@]
}

/// The words that `synchronous` takes.
pub open spec fn synchronous_modes() -> Seq<Seq<char>> {
    seq!["OFF"@, "NORMAL"@, "FULL"@, "EXTRA"@]
}

/// The words that `temp_store` takes.
pub open spec fn temp_stores() -> Seq<Seq<char>> {
    seq!["DEFAULT"@, "FILE"@, "MEMORY"@]
}

/// The words that `encoding` takes, each in double quotes.
pub open spec fn encodings() -> Seq<Seq<char>> {
    seq!["\"UTF-8\""@, "\"UTF-16\""@, "\"UTF-16le\""@, "\"UTF-16be\""@]
}

/// The catalog: thirteen pragmas without argument, eight switches, four
/// numeric settings and five settings that take a word.
pub open spec fn pragma_catalog() -> Seq<PragmaModel> {
    seq![
        PragmaModel::NoArg("integrity_check"@),
        PragmaModel::NoArg("quick_check"@),
        PragmaModel::NoArg("foreign_key_check"@),
        PragmaModel::NoArg("database_list"@),
        PragmaModel::NoArg("collation_list"@),
        PragmaModel::NoArg("table_info"@),
        PragmaModel::NoArg("index_list"@),
        PragmaModel::NoArg("index_info"@),
        PragmaModel::NoArg("stats"@),
        PragmaModel::NoArg("page_count"@),
        PragmaModel::NoArg("schema_version"@),
        PragmaModel::NoArg("user_version"@),
        PragmaModel::NoArg("encoding"@),
        PragmaModel::BoolArg("foreign_keys"@),
        PragmaModel::BoolArg("case_sensitive_like"@),
        PragmaModel::BoolArg("automatic_index"@),
        PragmaModel::BoolArg("cache_spill"@),
        PragmaModel::BoolArg("recursive_triggers"@),
        PragmaModel::BoolArg("journal_size_limit"@),
        PragmaModel::BoolArg("legacy_file_format"@),
        PragmaModel::BoolArg("writable_schema"@),
        PragmaModel::IntArg("cache_size"@, 100, 10000),
        PragmaModel::IntArg("page_size"@, 512, 65536),
        PragmaModel::IntArg("mmap_size"@, 0, 104857600),
        PragmaModel::IntArg("wal_autocheckpoint"@, 1, 10000),
        PragmaModel::StringArg("journal_mode"@, journal_modes()),
        PragmaModel::StringArg("locking_mode"@, locking_modes()),
        PragmaModel::StringArg("synchronous"@, synchronous_modes()),
        PragmaModel::StringArg("temp_store"@, temp_stores()),
        PragmaModel::StringArg("encoding"@, encodings()),
    ]
}

/// The text of a pragma without argument.
pub open spec fn pragma_query_sql(name: Seq<char>) -> Seq<char> {
    "PRAGMA "@ + name + ";"@
}

/// The text of a pragma that sets `name` to `value`.
pub open spec fn pragma_set_sql(name: Seq<char>, value: Seq<char>) -> Seq<char> {
    "PRAGMA "@ + name + " = "@ + value + ";"@
}

/// The statement for the pragma `pragma`, and the state after its draws.
///
/// A pragma without argument draws nothing. A switch is `ON` on an even
/// draw and `OFF` on an odd one. A number is the lower bound plus a draw
/// reduced to the width of its range. A word is the one of its list that a
/// draw selects.
pub open spec fn rendered_pragma(pragma: PragmaModel, state: u32) -> (Seq<char>, u32) {
    let drawn = lcg_output(lcg_step(state)) as int;
    match pragma {
        PragmaModel::NoArg(name) => (pragma_query_sql(name), state),
        PragmaModel::BoolArg(name) => (
            pragma_set_sql(
                name,
                if drawn % 2 == 0 {
                    "ON"@
                } else {
                    "OFF"@
                },
            ),
            lcg_step(state),
        ),
        PragmaModel::IntArg(name, min, max) => (
            pragma_set_sql(name, decimal((min + drawn % (max - min + 1)) as nat)),
            lcg_step(state),
        ),
        PragmaModel::StringArg(name, choices) => (
            pragma_set_sql(name, choices[drawn % (choices.len() as int)]),
            lcg_step(state),
        ),
    }
}

/// The `PRAGMA` statement that the draws after `state` give, and the state
/// after those draws: one draw selects the pragma from the catalog, with
/// equal weight for each.
pub open spec fn pragma_stmt(state: u32) -> (Seq<char>, u32) {
    rendered_pragma(pragma_catalog()[pick(state, PRAGMA_COUNT as int)], lcg_step(state))
}

/// The pragma at position `index` of the catalog.
pub fn pragma_at(index: usize) -> (pragma: PragmaKind)
    requires
        index < PRAGMA_COUNT,
    ensures
        pragma@ == pragma_catalog()[index as int],
        pragma.well_formed(),
{
    if index < 13 {
        if index == 0 {
            PragmaKind::NoArg("integrity_check")
        } else if index == 1 {
            PragmaKind::NoArg("quick_check")
        } else if index == 2 {
            PragmaKind::NoArg("foreign_key_check")
        } else if index == 3 {
            PragmaKind::NoArg("database_list")
        } else if index == 4 {
            PragmaKind::NoArg("collation_list")
        } else if index == 5 {
            PragmaKind::NoArg("table_info")
        } else if index == 6 {
            PragmaKind::NoArg("index_list")
        } else if index == 7 {
            PragmaKind::NoArg("index_info")
        } else if index == 8 {
            PragmaKind::NoArg("stats")
        } else if index == 9 {
            PragmaKind::NoArg("page_count")
        } else if index == 10 {
            PragmaKind::NoArg("schema_version")
        } else if index == 11 {
            PragmaKind::NoArg("user_version")
        } else {
            PragmaKind::NoArg("encoding")
        }
    } else if index < 21 {
        if index == 13 {
            PragmaKind::BoolArg("foreign_keys")
        } else if index == 14 {
            PragmaKind::BoolArg("case_sensitive_like")
        } else if index == 15 {
            PragmaKind::BoolArg("automatic_index")
        } else if index == 16 {
            PragmaKind::BoolArg("cache_spill")
        } else if index == 17 {
            PragmaKind::BoolArg("recursive_triggers")
        } else if index == 18 {
            PragmaKind::BoolArg("journal_size_limit")
        } else if index == 19 {
            PragmaKind::BoolArg("legacy_file_format")
        } else {
            PragmaKind::BoolArg("writable_schema")
        }
    } else if index == 21 {
        PragmaKind::IntArg("cache_size", 100, 10000)
    } else if index == 22 {
        PragmaKind::IntArg("page_size", 512, 65536)
    } else if index == 23 {
        PragmaKind::IntArg("mmap_size", 0, 104857600)
    } else if index == 24 {
        PragmaKind::IntArg("wal_autocheckpoint", 1, 10000)
    } else if index == 25 {
        let choices = vec!["DELETE", "TRUNCATE", "PERSIST", "MEMORY", "WAL", "OFF"];
        proof {
            assert(words(choices@) =~= journal_modes());
        }
        PragmaKind::StringArg("journal_mode", choices)
    } else if index == 26 {
        let choices = vec!["NORMAL", "EXCLUSIVE"];
        proof {
            assert(words(choices@) =~= locking_modes());
        }
        PragmaKind::StringArg("locking_mode", choices)
    } else if index == 27 {
        let choices = vec!["OFF", "NORMAL", "FULL", "EXTRA"];
        proof {
            assert(words(choices@) =~= synchronous_modes());
        }
        PragmaKind::StringArg("synchronous", choices)
    } else if index == 28 {
        let choices = vec!["DEFAULT", "FILE", "MEMORY"];
        proof {
            assert(words(choices@) =~= temp_stores());
        }
        PragmaKind::StringArg("temp_store", choices)
    } else {
        let choices = vec!["\"UTF-8\"", "\"UTF-16\"", "\"UTF-16le\"", "\"UTF-16be\""];
        proof {
            assert(words(choices@) =~= encodings());
        }
        PragmaKind::StringArg("encoding", choices)
    }
}

/// The statement for `pragma`.
pub fn render_pragma(pragma: &PragmaKind, rng: &mut LcgRng) -> (sql: String)
    requires
        pragma.well_formed(),
    ensures
        (sql@, final(rng)@) == rendered_pragma(pragma@, old(rng)@),
{
    let mut sql = String::new();
    sql.append("PRAGMA ");
    match pragma {
        PragmaKind::NoArg(name) => {
            sql.append(name);
            sql.append(";");
        },
        PragmaKind::BoolArg(name) => {
            let drawn: i32 = rng.rand();
            let val = if drawn % 2 == 0 {
                "ON"
            } else {
                "OFF"
            };
            sql.append(name);
            sql.append(" = ");
            sql.append(val);
            sql.append(";");
        },
        PragmaKind::IntArg(name, min, max) => {
            let drawn: i32 = rng.rand();
            let val: u64 = *min + (drawn as u64) % (*max - *min + 1);
            sql.append(name);
            sql.append(" = ");
            push_decimal(&mut sql, val);
            sql.append(";");
        },
        PragmaKind::StringArg(name, choices) => {
            let index = pick_index(rng, choices.len());
            let val = choices[index];
            sql.append(name);
            sql.append(" = ");
            sql.append(val);
            sql.append(";");
        },
    }
    sql
}

/// A `PRAGMA` statement for a random pragma of the catalog.
pub fn get_pragma_stmt_by_seed(rng: &mut LcgRng) -> (stmt: Option<String>)
    ensures
        stmt.deep_view() == Some(pragma_stmt(old(rng)@).0),
        final(rng)@ == pragma_stmt(old(rng)@).1,
{
    let index = pick_index(rng, PRAGMA_COUNT);
    let pragma = pragma_at(index);
    Some(render_pragma(&pragma, rng))
}

} // verus!

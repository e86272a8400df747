//! `VACUUM`, which needs neither a schema nor a draw.

use vstd::prelude::*;
use vstd::string::*;

verus! {

/// The text of the `VACUUM` statement.
pub open spec fn vacuum_sql() -> Seq<char> {
    "VACUUM;"@
}

/// The `VACUUM` statement.
pub fn gen_vacuum_stmt() -> (stmt: Option<String>)
    ensures
        stmt.deep_view() == Some(vacuum_sql()),
{
    Some(String::from_str("VACUUM;"))
}

/// The `VACUUM` statement; the generator is not touched.
pub fn get_vacuum_stmt_by_seed(rng: &mut crate::rng::LcgRng) -> (stmt: Option<String>)
    ensures
        stmt.deep_view() == Some(vacuum_sql()),
        final(rng)@ == old(rng)@,
{
    gen_vacuum_stmt()
}

} // verus!

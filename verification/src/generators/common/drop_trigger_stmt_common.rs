//! `DROP TRIGGER` of a trigger that the worker created and has not dropped.

use crate::generators::common::create_trigger_stmt_common::LiveTriggers;
use crate::generators::common::sampling::{pick, pick_index};
use crate::rng::{lcg_step, LcgRng};
use vstd::prelude::*;
use vstd::string::*;

verus! {

/// The text of a `DROP TRIGGER` of the trigger `name`.
pub open spec fn drop_trigger_sql(name: Seq<char>) -> Seq<char> {
    "DROP TRIGGER IF EXISTS "@ + name + ";"@
}

/// The position among the live triggers of the one that is dropped.
pub open spec fn dropped_position(live: Seq<Seq<char>>, state: u32) -> int {
    pick(state, live.len() as int)
}

/// A `DROP TRIGGER` of a random live trigger, which leaves `triggers`.
/// Nothing, and no draw, where no trigger is live: the statement never
/// names a trigger that this worker did not create or has already dropped.
pub fn gen_drop_trigger_stmt(rng: &mut LcgRng, triggers: &mut LiveTriggers) -> (stmt: Option<
    String,
>)
    ensures
        final(triggers).serial() == old(triggers).serial(),
        old(triggers).live().len() == 0 ==> {
            &&& stmt is None
            &&& final(rng)@ == old(rng)@
            &&& final(triggers).live() == old(triggers).live()
        },
        old(triggers).live().len() > 0 ==> {
            let position = dropped_position(old(triggers).live(), old(rng)@);
            &&& 0 <= position < old(triggers).live().len()
            &&& stmt.deep_view() == Some(drop_trigger_sql(old(triggers).live()[position]))
            &&& final(rng)@ == lcg_step(old(rng)@)
            &&& final(triggers).live() == old(triggers).live().remove(position)
        },
{
    if triggers.len() == 0 {
        return None;
    }
    let position = pick_index(rng, triggers.len());
    let name = triggers.release(position);
    let mut stmt = String::new();
    stmt.append("DROP TRIGGER IF EXISTS ");
    stmt.append(name.as_str());
    stmt.append(";");
    Some(stmt)
}

} // verus!

//! `CREATE TRIGGER` on a random table that has a key column, and the record
//! of the triggers that a worker has created and not yet dropped.
//!
//! A table counts as having a primary key when one of its columns is named
//! `id`; the body of every trigger reads that column. Each trigger gets a
//! name of its own from a serial number, and the name is recorded, so that a
//! later `DROP TRIGGER` can name a trigger that this worker really created.

use crate::generators::common::insert_stmt_common::column_views;
use crate::generators::common::sampling::{pick, pick_index};
use crate::generators::common::Plan;
use crate::rng::{lcg_output, lcg_step, LcgRng};
use crate::text::{
    decimal, lemma_decimal_digits, lemma_decimal_value, push_decimal, str_eq, views,
};
use vstd::prelude::*;
use vstd::string::*;

verus! {

/// A table as `CREATE TRIGGER` sees it.
pub trait TriggerTableLike {
    /// The name of the table.
    spec fn spec_trigger_table(&self) -> Seq<char>;

    /// The columns as pairs of name and declared type.
    spec fn spec_trigger_columns(&self) -> Seq<(Seq<char>, Seq<char>)>;

    /// Whether the table counts as having a primary key.
    spec fn spec_has_primary_key(&self) -> bool;

    /// The name of the table.
    fn name(&self) -> (name: &str)
        ensures
            name@ == self.spec_trigger_table(),
    ;

    /// The columns as pairs of name and declared type.
    fn columns(&self) -> (columns: Vec<(String, String)>)
        ensures
            column_views(columns@) == self.spec_trigger_columns(),
    ;

    /// Whether the table counts as having a primary key.
    fn has_primary_key(&self) -> (has: bool)
        ensures
            has == self.spec_has_primary_key(),
    ;
}

/// Whether one of `columns` is named `id`.
pub open spec fn has_id_column(columns: Seq<(Seq<char>, Seq<char>)>) -> bool {
    exists|k: int| 0 <= k < columns.len() && (#[trigger] columns[k]).0 == "id"@
}

/// A table list as `CREATE TRIGGER` sees it: for each table its name and
/// whether it counts as having a primary key.
pub open spec fn trigger_lists<T: TriggerTableLike>(tables: Seq<T>) -> Seq<(Seq<char>, bool)> {
    tables.map_values(|t: T| (t.spec_trigger_table(), t.spec_has_primary_key()))
}

/// The positions of the tables that have a primary key, in order.
pub open spec fn eligible(tables: Seq<(Seq<char>, bool)>) -> Seq<int>
    decreases tables.len(),
{
    if tables.len() == 0 {
        Seq::empty()
    } else if tables.last().1 {
        eligible(tables.drop_last()).push(tables.len() - 1)
    } else {
        eligible(tables.drop_last())
    }
}

/// The name of the trigger with serial number `serial` on `table`.
pub open spec fn trigger_name(table: Seq<char>, serial: nat) -> Seq<char> {
    "trg_"@ + table + "_"@ + decimal(serial)
}

/// The event that fires a trigger, by the residue of a draw modulo 3.
pub open spec fn trigger_event(choice: int) -> Seq<char> {
    if choice == 0 {
        "INSERT"@
    } else if choice == 1 {
        "UPDATE"@
    } else {
        "DELETE"@
    }
}

/// The row that the body of a trigger reads: the old one after a delete,
/// else the new one.
pub open spec fn trigger_row(choice: int) -> Seq<char> {
    if choice == 2 {
        "OLD"@
    } else {
        "NEW"@
    }
}

/// The text of a `CREATE TRIGGER` named `name` that fires after `event` on
/// `table` and reads the key column of `row`.
pub open spec fn create_trigger_sql(
    name: Seq<char>,
    event: Seq<char>,
    table: Seq<char>,
    row: Seq<char>,
) -> Seq<char> {
    "CREATE TRIGGER "@ + name + " AFTER "@ + event + " ON "@ + table + " BEGIN SELECT "@ + row
        + ".id; END;"@
}

/// The `CREATE TRIGGER` statement that the draws after `state` give for
/// `tables`, with the record of live triggers before and after.
///
/// Where no table has a primary key, or the serial numbers are used up,
/// nothing is drawn and nothing changes. Else one draw selects one of the
/// tables that have a primary key, one more the event; the trigger takes
/// the next serial number and its name joins the live triggers.
pub open spec fn create_trigger_plan(
    tables: Seq<(Seq<char>, bool)>,
    state: u32,
    live: Seq<Seq<char>>,
    serial: nat,
) -> Plan {
    let candidates = eligible(tables);
    if candidates.len() == 0 || serial >= u64::MAX {
        Plan { sql: None, state, live, serial }
    } else {
        let table = tables[candidates[pick(state, candidates.len() as int)]].0;
        let at_event = lcg_step(lcg_step(state));
        let choice = lcg_output(at_event) as int % 3;
        let name = trigger_name(table, serial);
        Plan {
            sql: Some(create_trigger_sql(name, trigger_event(choice), table, trigger_row(choice))),
            state: at_event,
            live: live.push(name),
            serial: serial + 1,
        }
    }
}

/// Whether the names `live` are those of the triggers in `origin`, each
/// given by its table and its serial number, with serial numbers that grow
/// along the list and stay below `serial`.
pub open spec fn numbered_by(
    live: Seq<Seq<char>>,
    serial: nat,
    origin: Seq<(Seq<char>, nat)>,
) -> bool {
    &&& origin.len() == live.len()
    &&& forall|k: int|
        0 <= k < live.len() ==> #[trigger] live[k] == trigger_name(origin[k].0, origin[k].1)
    &&& forall|k: int| 0 <= k < origin.len() ==> (#[trigger] origin[k]).1 < serial
    &&& forall|a: int, b: int|
        0 <= a < b < origin.len() ==> (#[trigger] origin[a]).1 < (#[trigger] origin[b]).1
}

/// Whether every name in `live` was made from a serial number of its own
/// below `serial`, in growing order: what holds of the record of a worker
/// at every moment.
pub open spec fn numbered(live: Seq<Seq<char>>, serial: nat) -> bool {
    exists|origin: Seq<(Seq<char>, nat)>| #[trigger] numbered_by(live, serial, origin)
}

/// Whether no name occurs twice in `live`.
pub open spec fn all_distinct(live: Seq<Seq<char>>) -> bool {
    forall|a: int, b: int|
        0 <= a < live.len() && 0 <= b < live.len() && a != b ==> #[trigger] live[a]
            != #[trigger] live[b]
}

/// Triggers with different serial numbers have different names, whatever
/// their tables.
pub proof fn lemma_trigger_names_differ(
    table: Seq<char>,
    serial: nat,
    other_table: Seq<char>,
    other_serial: nat,
)
    requires
        serial != other_serial,
    ensures
        trigger_name(table, serial) != trigger_name(other_table, other_serial),
{
    reveal_strlit("_");
    let digits = decimal(serial);
    let other_digits = decimal(other_serial);
    let head = "trg_"@ + table + "_"@;
    let other_head = "trg_"@ + other_table + "_"@;
    let name = trigger_name(table, serial);
    let other_name = trigger_name(other_table, other_serial);
    lemma_decimal_digits(serial);
    lemma_decimal_digits(other_serial);
    lemma_decimal_value(serial);
    lemma_decimal_value(other_serial);
    assert(name =~= head + digits);
    if name == other_name {
        if digits.len() == other_digits.len() {
            // The two numerals are the same end of the same name.
            assert forall|i: int| 0 <= i < digits.len() implies digits[i] == other_digits[i] by {
                assert(name[head.len() + i] == digits[i]);
            }
            assert(digits =~= other_digits);
        } else if digits.len() < other_digits.len() {
            // The underscore before the shorter numeral would be a digit of the longer one.
            let at = head.len() - 1;
            assert(name[at] == '_');
        } else {
            let at = other_head.len() - 1;
            assert(other_name[at] == '_');
        }
    }
}

/// Names that were made from serial numbers of their own are all different.
pub proof fn lemma_numbered_names_distinct(live: Seq<Seq<char>>, serial: nat)
    requires
        numbered(live, serial),
    ensures
        all_distinct(live),
{
    let origin = choose|origin: Seq<(Seq<char>, nat)>| #[trigger] numbered_by(live, serial, origin);
    assert forall|a: int, b: int|
        0 <= a < live.len() && 0 <= b < live.len() && a != b implies #[trigger] live[a]
        != #[trigger] live[b] by {
        lemma_trigger_names_differ(origin[a].0, origin[a].1, origin[b].0, origin[b].1);
    }
}

/// A record without triggers is numbered.
pub proof fn lemma_empty_is_numbered(serial: nat)
    ensures
        numbered(Seq::<Seq<char>>::empty(), serial),
{
    assert(numbered_by(Seq::<Seq<char>>::empty(), serial, Seq::<(Seq<char>, nat)>::empty()));
}

/// Creating a trigger keeps the record numbered: the new name takes a
/// serial number that no live trigger has.
pub proof fn lemma_create_keeps_numbered(
    tables: Seq<(Seq<char>, bool)>,
    state: u32,
    live: Seq<Seq<char>>,
    serial: nat,
)
    requires
        numbered(live, serial),
    ensures
        numbered(
            create_trigger_plan(tables, state, live, serial).live,
            create_trigger_plan(tables, state, live, serial).serial,
        ),
{
    let plan = create_trigger_plan(tables, state, live, serial);
    let origin = choose|origin: Seq<(Seq<char>, nat)>| #[trigger] numbered_by(live, serial, origin);
    let candidates = eligible(tables);
    if candidates.len() > 0 && serial < u64::MAX {
        let table = tables[candidates[pick(state, candidates.len() as int)]].0;
        let grown = origin.push((table, serial));
        assert(numbered_by(plan.live, plan.serial, grown));
    }
}

/// Taking one name off a numbered record leaves it numbered.
pub proof fn lemma_remove_keeps_numbered(live: Seq<Seq<char>>, serial: nat, position: int)
    requires
        numbered(live, serial),
        0 <= position < live.len(),
    ensures
        numbered(live.remove(position), serial),
{
    let origin = choose|origin: Seq<(Seq<char>, nat)>| #[trigger] numbered_by(live, serial, origin);
    let rest = live.remove(position);
    let left = origin.remove(position);
    assert(numbered_by(rest, serial, left));
}

/// The triggers that a worker has created and not yet dropped.
pub struct LiveTriggers {
    names: Vec<String>,
    next_serial: u64,
}

impl LiveTriggers {
    /// The names of the live triggers, oldest first.
    pub closed spec fn live(&self) -> Seq<Seq<char>> {
        views(self.names@)
    }

    /// The serial number that the next trigger takes.
    pub closed spec fn serial(&self) -> nat {
        self.next_serial as nat
    }

    /// A record without live triggers, at serial number 0.
    pub fn new() -> (record: Self)
        ensures
            record.live() == Seq::<Seq<char>>::empty(),
            record.serial() == 0,
    {
        let record = LiveTriggers { names: Vec::new(), next_serial: 0 };
        record
    }

    /// The number of live triggers.
    pub fn len(&self) -> (count: usize)
        ensures
            count == self.live().len(),
    {
        self.names.len()
    }

    /// The name of the live trigger at `index`.
    pub fn name_at(&self, index: usize) -> (name: &str)
        requires
            index < self.live().len(),
        ensures
            name@ == self.live()[index as int],
    {
        self.names[index].as_str()
    }

    /// Whether another trigger can still take a serial number.
    pub fn has_serial_left(&self) -> (left: bool)
        ensures
            left == (self.serial() < u64::MAX),
    {
        self.next_serial < u64::MAX
    }

    /// Records a new trigger on `table` and returns its name.
    pub fn register(&mut self, table: &str) -> (name: String)
        requires
            old(self).serial() < u64::MAX,
        ensures
            name@ == trigger_name(table@, old(self).serial()),
            final(self).live() == old(self).live().push(name@),
            final(self).serial() == old(self).serial() + 1,
    {
        let mut name = String::new();
        name.append("trg_");
        name.append(table);
        name.append("_");
        push_decimal(&mut name, self.next_serial);
        self.names.push(name.clone());
        self.next_serial = self.next_serial + 1;
        name
    }

    /// Takes the live trigger at `index` off the record and returns its name.
    pub fn release(&mut self, index: usize) -> (name: String)
        requires
            index < old(self).live().len(),
        ensures
            name@ == old(self).live()[index as int],
            final(self).live() == old(self).live().remove(index as int),
            final(self).serial() == old(self).serial(),
    {
        let name = self.names.remove(index);
        name
    }
}

/// Whether one of `columns` is named `id`.
pub fn find_id_column(columns: &Vec<(String, String)>) -> (found: bool)
    ensures
        found == has_id_column(column_views(columns@)),
{
    let ghost model = column_views(columns@);
    let mut k: usize = 0;
    while k < columns.len()
        invariant
            k <= columns.len(),
            model == column_views(columns@),
            forall|m: int| 0 <= m < k ==> (#[trigger] model[m]).0 != "id"@,
        decreases columns.len() - k,
    {
        if str_eq(columns[k].0.as_str(), "id") {
            proof {
                assert(model[k as int].0 == "id"@);
            }
            return true;
        }
        k += 1;
    }
    false
}

/// The positions of the tables that have a primary key, in order.
pub fn eligible_tables<T: TriggerTableLike>(tables: &[T]) -> (found: Vec<usize>)
    ensures
        Seq::new(found.len() as nat, |k: int| found[k] as int) == eligible(trigger_lists(tables@)),
        forall|k: int| 0 <= k < found.len() ==> #[trigger] found[k] < tables.len(),
{
    let ghost lists = trigger_lists(tables@);
    let mut found: Vec<usize> = Vec::new();
    let mut k: usize = 0;
    while k < tables.len()
        invariant
            k <= tables.len(),
            lists == trigger_lists(tables@),
            Seq::new(found.len() as nat, |m: int| found[m] as int) == eligible(
                lists.take(k as int),
            ),
            forall|m: int| 0 <= m < found.len() ==> #[trigger] found[m] < tables.len(),
        decreases tables.len() - k,
    {
        let ghost before = Seq::new(found.len() as nat, |m: int| found[m] as int);
        let has = tables[k].has_primary_key();
        if has {
            found.push(k);
        }
        proof {
            let next = lists.take(k + 1);
            assert(next.drop_last() =~= lists.take(k as int));
            if has {
                assert(Seq::new(found.len() as nat, |m: int| found[m] as int) =~= before.push(
                    k as int,
                ));
            } else {
            }
        }
        k += 1;
    }
    proof {
        assert(lists.take(tables.len() as int) =~= lists);
    }
    found
}

/// A `CREATE TRIGGER` on a random table that has a primary key; the new
/// trigger joins `triggers`. Nothing where no table has a primary key.
pub fn gen_create_trigger_stmt<T: TriggerTableLike>(
    tables: &[T],
    rng: &mut LcgRng,
    triggers: &mut LiveTriggers,
) -> (stmt: Option<String>)
    ensures
        ({
            let plan = create_trigger_plan(
                trigger_lists(tables@),
                old(rng)@,
                old(triggers).live(),
                old(triggers).serial(),
            );
            &&& stmt.deep_view() == plan.sql
            &&& final(rng)@ == plan.state
            &&& final(triggers).live() == plan.live
            &&& final(triggers).serial() == plan.serial
        }),
{
    let candidates = eligible_tables(tables);
    if candidates.len() == 0 || !triggers.has_serial_left() {
        return None;
    }
    let position = pick_index(rng, candidates.len());
    let table = &tables[candidates[position]];
    let choice: i32 = rng.rand() % 3;
    let event = if choice == 0 {
        "INSERT"
    } else if choice == 1 {
        "UPDATE"
    } else {
        "DELETE"
    };
    let row = if choice == 2 {
        "OLD"
    } else {
        "NEW"
    };
    let name = triggers.register(table.name());
    let mut stmt = String::new();
    stmt.append("CREATE TRIGGER ");
    stmt.append(name.as_str());
    stmt.append(" AFTER ");
    stmt.append(event);
    stmt.append(" ON ");
    stmt.append(table.name());
    stmt.append(" BEGIN SELECT ");
    stmt.append(row);
    stmt.append(".id; END;");
    Some(stmt)
}

} // verus!

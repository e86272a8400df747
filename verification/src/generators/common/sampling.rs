//! Random choices shared by the generators: an index below a bound, and the
//! order in which the columns of a table are taken.

use crate::rng::{lcg_output, lcg_step, lemma_state_after_step, state_after, LcgRng};
use vstd::prelude::*;

verus! {

/// The index below `n` that the next draw from `state` selects.
pub open spec fn pick(state: u32, n: int) -> int {
    lcg_output(lcg_step(state)) as int % n
}

/// `order` with the entries at `i` and `j` exchanged.
pub open spec fn swapped(order: Seq<int>, i: int, j: int) -> Seq<int> {
    order.update(i, order[j]).update(j, order[i])
}

/// The order reached from `order` by the exchanges of positions `i`, `i - 1`,
/// down to 1, each with a position at or below it that the next draw selects.
pub open spec fn shuffle_from(order: Seq<int>, i: int, state: u32) -> Seq<int>
    decreases i,
{
    if i < 1 {
        order
    } else {
        shuffle_from(swapped(order, i, pick(state, i + 1)), i - 1, lcg_step(state))
    }
}

/// The order in which `n` items are taken when shuffled by the draws that
/// follow `state`: a backward Fisher-Yates pass over `0, 1, .., n - 1`.
pub open spec fn shuffle_order(n: nat, state: u32) -> Seq<int> {
    shuffle_from(Seq::new(n, |k: int| k), n - 1, state)
}

/// The number of draws that shuffling `n` items takes.
pub open spec fn shuffle_draws(n: nat) -> nat {
    if n == 0 {
        0
    } else {
        (n - 1) as nat
    }
}

/// The number of columns taken from a table of `n` columns: the next draw
/// from `state` decides, and at least one column is taken.
pub open spec fn chosen_count(n: nat, state: u32) -> nat {
    (pick(state, n as int) + 1) as nat
}

/// The order in which the columns of a table of `n` columns are taken, once
/// the draw for their number has been made from `state`.
pub open spec fn chosen_order(n: nat, state: u32) -> Seq<int> {
    shuffle_order(n, lcg_step(state))
}

/// The state after the number and the order of `n` columns were chosen.
pub open spec fn after_choice(n: nat, state: u32) -> u32 {
    state_after(lcg_step(state), shuffle_draws(n))
}

/// The positions that a list of machine indices names.
pub open spec fn positions(order: Seq<usize>) -> Seq<int> {
    Seq::new(order.len(), |k: int| order[k] as int)
}

/// The first `count` of `items` in the order `order`.
pub open spec fn taken<A>(items: Seq<A>, order: Seq<int>, count: nat) -> Seq<A> {
    Seq::new(count, |k: int| items[order[k]])
}

/// Whether `order` holds every index below its length exactly once.
pub open spec fn is_arrangement(order: Seq<int>) -> bool {
    &&& forall|k: int| 0 <= k < order.len() ==> 0 <= #[trigger] order[k] < order.len()
    &&& forall|a: int, b: int|
        0 <= a < order.len() && 0 <= b < order.len() && a != b ==> #[trigger] order[a]
            != #[trigger] order[b]
}

/// Exchanging two entries of an arrangement leaves an arrangement.
pub proof fn lemma_swapped_arrangement(order: Seq<int>, i: int, j: int)
    requires
        is_arrangement(order),
        0 <= i < order.len(),
        0 <= j < order.len(),
    ensures
        is_arrangement(swapped(order, i, j)),
        swapped(order, i, j).len() == order.len(),
{
}

/// A shuffle keeps the length and yields an arrangement.
pub proof fn lemma_shuffle_from_arrangement(order: Seq<int>, i: int, state: u32)
    requires
        is_arrangement(order),
        i < order.len(),
    ensures
        is_arrangement(shuffle_from(order, i, state)),
        shuffle_from(order, i, state).len() == order.len(),
    decreases i,
{
    if i >= 1 {
        let j = pick(state, i + 1);
        lemma_swapped_arrangement(order, i, j);
        lemma_shuffle_from_arrangement(swapped(order, i, j), i - 1, lcg_step(state));
    }
}

/// The order of a shuffle names every one of the `n` items exactly once.
pub proof fn lemma_shuffle_order_arrangement(n: nat, state: u32)
    ensures
        is_arrangement(shuffle_order(n, state)),
        shuffle_order(n, state).len() == n,
{
    let identity = Seq::new(n, |k: int| k);
    lemma_shuffle_from_arrangement(identity, n - 1, state);
}

/// Draws once and reduces the number to an index below `n`.
pub fn pick_index(rng: &mut LcgRng, n: usize) -> (index: usize)
    requires
        n > 0,
    ensures
        final(rng)@ == lcg_step(old(rng)@),
        index == pick(old(rng)@, n as int),
        index < n,
{
    let value: i32 = rng.rand();
    (value as usize) % n
}

/// Chooses how many of `n` columns are taken, and in which order.
pub fn choose_columns(rng: &mut LcgRng, n: usize) -> (choice: (usize, Vec<usize>))
    requires
        n > 0,
    ensures
        choice.0 == chosen_count(n as nat, old(rng)@),
        positions(choice.1@) == chosen_order(n as nat, old(rng)@),
        final(rng)@ == after_choice(n as nat, old(rng)@),
        1 <= choice.0 <= n,
        choice.1.len() == n,
        forall|k: int| 0 <= k < n ==> #[trigger] choice.1[k] < n,
{
    let count = pick_index(rng, n) + 1;
    let order = shuffled_order(rng, n);
    (count, order)
}

/// The order in which `n` items are taken, shuffled by `n - 1` draws.
pub fn shuffled_order(rng: &mut LcgRng, n: usize) -> (order: Vec<usize>)
    ensures
        positions(order@) == shuffle_order(n as nat, old(rng)@),
        final(rng)@ == state_after(old(rng)@, shuffle_draws(n as nat)),
        order.len() == n,
        forall|k: int| 0 <= k < n ==> #[trigger] order[k] < n,
{
    let mut order: Vec<usize> = Vec::new();
    let mut k: usize = 0;
    while k < n
        invariant
            k <= n,
            order.len() == k,
            forall|m: int| 0 <= m < k ==> order[m] == m,
        decreases n - k,
    {
        order.push(k);
        k += 1;
    }
    if n == 0 {
        return order;
    }
    let ghost start = old(rng)@;
    let mut i: usize = n - 1;
    proof {
        assert(positions(order@) =~= Seq::new(n as nat, |k: int| k));
    }
    while i >= 1
        invariant
            i < n,
            order.len() == n,
            is_arrangement(positions(order@)),
            shuffle_from(positions(order@), i as int, rng@)
                == shuffle_order(n as nat, start),
            rng@ == state_after(start, (n - 1 - i) as nat),
        decreases i,
    {
        let ghost before = positions(order@);
        let j = pick_index(rng, i + 1);
        let at_i = order[i];
        let at_j = order[j];
        order.set(i, at_j);
        order.set(j, at_i);
        proof {
            assert(positions(order@) =~= swapped(before, i as int, j as int));
            lemma_swapped_arrangement(before, i as int, j as int);
            lemma_state_after_step(start, (n - 1 - i) as nat);
        }
        i -= 1;
    }
    proof {
        let last = positions(order@);
        assert forall|k: int| 0 <= k < n implies #[trigger] order[k] < n by {
            assert(0 <= last[k] < last.len());
        }
    }
    order
}

} // verus!

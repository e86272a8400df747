//! A linear congruential generator with a 32-bit state.
//!
//! The stream is a pure function of the seed: the state advances by
//! `state * 1103515245 + 12345` modulo 2^32 and every draw reports bits
//! 16 to 30 of the new state.

use vstd::prelude::*;

verus! {

/// The state that follows `state`.
pub open spec fn lcg_step(state: u32) -> u32 {
    ((state * 1103515245 + 12345) % 0x1_0000_0000) as u32
}

/// The number reported for a draw that left the generator in `state`.
pub open spec fn lcg_output(state: u32) -> i32 {
    ((state / 65536) % 32768) as i32
}

/// The state reached from `state` after `n` draws.
pub open spec fn state_after(state: u32, n: nat) -> u32
    decreases n,
{
    if n == 0 {
        state
    } else {
        lcg_step(state_after(state, (n - 1) as nat))
    }
}

/// One more draw after `n` draws is `n + 1` draws.
pub proof fn lemma_state_after_step(state: u32, n: nat)
    ensures
        lcg_step(state_after(state, n)) == state_after(state, n + 1),
{
}

/// The first `n` numbers drawn from a generator in `state`.
pub open spec fn draws(state: u32, n: nat) -> Seq<i32> {
    Seq::new(n, |i: int| lcg_output(state_after(state, (i + 1) as nat)))
}

/// The stream is a function of the state alone: generators in the same
/// state draw the same numbers, whether the state came from `new` or from
/// `srand`.
pub proof fn lemma_same_state_same_draws(state: u32, other: u32, n: nat)
    requires
        state == other,
    ensures
        draws(state, n) == draws(other, n),
{
}

/// Drawing first and then `n` times is drawing `n + 1` times.
pub proof fn lemma_state_after_front(state: u32, n: nat)
    ensures
        state_after(lcg_step(state), n) == state_after(state, n + 1),
    decreases n,
{
    if n > 0 {
        lemma_state_after_front(state, (n - 1) as nat);
        assert(state_after(lcg_step(state), n) == lcg_step(
            state_after(lcg_step(state), (n - 1) as nat),
        ));
    } else {
        assert(state_after(state, 0) == state);
    }
}

/// The stream after one draw is the rest of the stream: the numbers drawn
/// from `state` are the first draw followed by those drawn from the next
/// state.
pub proof fn lemma_draws_unfold(state: u32, n: nat)
    ensures
        draws(state, n + 1) == seq![lcg_output(lcg_step(state))] + draws(lcg_step(state), n),
{
    let whole = draws(state, n + 1);
    let tail = seq![lcg_output(lcg_step(state))] + draws(lcg_step(state), n);
    assert forall|i: int| 0 <= i < whole.len() implies whole[i] == tail[i] by {
        lemma_state_after_front(state, i as nat);
        if i > 0 {
            lemma_state_after_front(state, (i - 1) as nat);
        }
    }
}

/// The seed of the worker with index `worker_index` under `base_seed`.
pub open spec fn spec_worker_seed(base_seed: u32, worker_index: u32) -> u32 {
    ((base_seed + worker_index) % 0x1_0000_0000) as u32
}

/// A seeded pseudo-random number generator.
pub struct LcgRng {
    next: u32,
}

impl View for LcgRng {
    type V = u32;

    /// The current state of the generator.
    closed spec fn view(&self) -> u32 {
        self.next
    }
}

impl LcgRng {
    /// A generator whose state is `seed`.
    pub fn new(seed: u32) -> (rng: Self)
        ensures
            rng@ == seed,
    {
        LcgRng { next: seed }
    }

    /// Advances the state once and reports a number in `0..32768`.
    pub fn rand(&mut self) -> (value: i32)
        ensures
            final(self)@ == lcg_step(old(self)@),
            value == lcg_output(final(self)@),
            0 <= value < 32768,
    {
        let wide: u64 = (self.next as u64) * 1103515245 + 12345;
        self.next = (wide % 0x1_0000_0000) as u32;
        let high: u32 = self.next / 65536;
        let value: u32 = high % 32768;
        value as i32
    }

    /// Overwrites the state with `seed`; the stream restarts as that of a
    /// fresh generator made with `seed`.
    pub fn srand(&mut self, seed: u32)
        ensures
            final(self)@ == seed,
    {
        self.next = seed;
    }

    /// The current state, from which the rest of the stream follows.
    pub fn get_seed(&self) -> (state: u32)
        ensures
            state == self@,
    {
        self.next
    }
}

/// The seed of a worker: the base seed plus the worker's index, wrapping.
pub fn worker_seed(base_seed: u32, worker_index: u32) -> (seed: u32)
    ensures
        seed == spec_worker_seed(base_seed, worker_index),
{
    let wide: u64 = base_seed as u64 + worker_index as u64;
    (wide % 0x1_0000_0000) as u32
}

} // verus!

//! The plan for starting the executor processes: a seed and a title for
//! each, and what to make of each child's fate.

use crate::text::{
    decimal, lemma_decimal_parses_back, lemma_decimal_value, parse_unsigned, parsed_unsigned,
    push_decimal,
};
use vstd::prelude::*;
use vstd::string::*;

verus! {

/// The seed of the child with index `index` under `base_seed`: the base
/// seed shifted left by eight bits, plus the index, in 64 bits.
pub open spec fn spec_child_seed(base_seed: u64, index: u64) -> u64 {
    ((base_seed * 256 + index) % 0x1_0000_0000_0000_0000) as u64
}

/// The process title of the child with index `index`.
pub open spec fn child_title(index: nat) -> Seq<char> {
    "exec_"@ + decimal(index)
}

/// The seed that an executor process starts from: the number that the
/// override writes, if there is an override and it writes one; else the
/// seed of the profile; else 0.
pub open spec fn resolved_seed(override_text: Option<Seq<char>>, profile_seed: Option<u64>) -> u64 {
    let fallback = match profile_seed {
        Some(seed) => seed,
        None => 0,
    };
    match override_text {
        Some(text) => match parsed_unsigned(text, u64::MAX as nat) {
            Some(seed) => seed as u64,
            None => fallback,
        },
        None => fallback,
    }
}

/// Children with different indices get different seeds.
pub proof fn lemma_child_seeds_differ(base_seed: u64, i: u64, j: u64)
    requires
        i != j,
    ensures
        spec_child_seed(base_seed, i) != spec_child_seed(base_seed, j),
{
    let m = 0x1_0000_0000_0000_0000int;
    let a = base_seed * 256 + i;
    let b = base_seed * 256 + j;
    if a % m == b % m {
        vstd::arithmetic::div_mod::lemma_fundamental_div_mod(a, m);
        vstd::arithmetic::div_mod::lemma_fundamental_div_mod(b, m);
        let qa = a / m;
        let qb = b / m;
        assert(a - b == m * (qa - qb)) by (nonlinear_arith)
            requires
                a == m * qa + a % m,
                b == m * qb + b % m,
                a % m == b % m,
        ;
        assert(qa - qb == 0) by (nonlinear_arith)
            requires
                -m < m * (qa - qb) < m,
                m > 0,
        ;
    }
}

/// Children with different indices get different titles.
pub proof fn lemma_child_titles_differ(i: nat, j: nat)
    requires
        i != j,
    ensures
        child_title(i) != child_title(j),
{
    let head = "exec_"@;
    lemma_decimal_value(i);
    lemma_decimal_value(j);
    assert(child_title(i).skip(head.len() as int) =~= decimal(i));
    assert(child_title(j).skip(head.len() as int) =~= decimal(j));
}

/// A child that reads the seed text of its plan starts from the seed of
/// its plan, whatever the profile says.
pub proof fn lemma_child_reads_its_seed(seed: u64, profile_seed: Option<u64>)
    ensures
        resolved_seed(Some(decimal(seed as nat)), profile_seed) == seed,
{
    lemma_decimal_parses_back(seed as nat, u64::MAX as nat);
}

/// What one child process is started with.
pub struct ChildPlan {
    /// The seed of the child.
    pub seed: u64,
    /// The seed as the text that is handed to the child.
    pub seed_text: String,
    /// The process title of the child.
    pub title: String,
}

/// The seed of the child with index `index` under `base_seed`.
pub fn child_seed(base_seed: u64, index: u64) -> (seed: u64)
    ensures
        seed == spec_child_seed(base_seed, index),
{
    let wide: u128 = base_seed as u128 * 256 + index as u128;
    (wide % 0x1_0000_0000_0000_0000) as u64
}

/// The plan for `executor_count` children under `base_seed`: the child
/// with index `i` gets the seed of that index and the title `exec_i`.
pub fn plan_children(base_seed: u64, executor_count: usize) -> (plans: Vec<ChildPlan>)
    ensures
        plans.len() == executor_count,
        forall|i: int|
            0 <= i < executor_count ==> {
                &&& (#[trigger] plans[i]).seed == spec_child_seed(base_seed, i as u64)
                &&& plans[i].seed_text@ == decimal(plans[i].seed as nat)
                &&& plans[i].title@ == child_title(i as nat)
            },
{
    let mut plans: Vec<ChildPlan> = Vec::new();
    let mut n: usize = 0;
    while n < executor_count
        invariant
            n <= executor_count,
            plans.len() == n,
            forall|i: int|
                0 <= i < n ==> {
                    &&& (#[trigger] plans[i]).seed == spec_child_seed(base_seed, i as u64)
                    &&& plans[i].seed_text@ == decimal(plans[i].seed as nat)
                    &&& plans[i].title@ == child_title(i as nat)
                },
        decreases executor_count - n,
    {
        let seed = child_seed(base_seed, n as u64);
        let mut seed_text = String::new();
        push_decimal(&mut seed_text, seed);
        let mut title = String::from_str("exec_");
        push_decimal(&mut title, n as u64);
        plans.push(ChildPlan { seed, seed_text, title });
        n += 1;
    }
    plans
}

/// The seed that an executor process starts from.
pub fn resolve_seed(override_text: Option<&str>, profile_seed: Option<u64>) -> (seed: u64)
    ensures
        seed == resolved_seed(
            match override_text {
                Some(text) => Some(text@),
                None => None,
            },
            profile_seed,
        ),
{
    let fallback = match profile_seed {
        Some(seed) => seed,
        None => 0,
    };
    match override_text {
        Some(text) => match parse_unsigned(text, u64::MAX) {
            Some(seed) => seed,
            None => fallback,
        },
        None => fallback,
    }
}

/// Where one child process stands.
#[derive(Debug, Clone, Copy, PartialEq, Eq, Structural)]
pub enum ChildState {
    /// Not yet started.
    Planned,
    /// Started and not yet over.
    Running,
    /// Over, whatever its exit status.
    Finished,
    /// It could not be started, or could not be waited for.
    Failed,
}

/// What the operating system reported of one child process.
#[derive(Debug, Clone, Copy, PartialEq, Eq, Structural)]
pub enum ChildEvent {
    /// The process was started.
    Spawned,
    /// The process could not be started.
    SpawnFailed,
    /// The process is over.
    Exited,
    /// Waiting for the process failed.
    WaitFailed,
}

/// What the coordinator does next about one child process.
#[derive(Debug, Clone, Copy, PartialEq, Eq, Structural)]
pub enum ChildAction {
    /// Wait for the process to end.
    Wait,
    /// Log the failure; the other children go on.
    LogFailure,
    /// Nothing is left to do.
    Nothing,
}

/// The state of a child after `event`, and what to do next. A failure ends
/// the child concerned and is logged; it never touches another child. An
/// event that cannot follow the state changes nothing.
pub open spec fn child_step(state: ChildState, event: ChildEvent) -> (ChildState, ChildAction) {
    match (state, event) {
        (ChildState::Planned, ChildEvent::Spawned) => (ChildState::Running, ChildAction::Wait),
        (ChildState::Planned, ChildEvent::SpawnFailed) => (
            ChildState::Failed,
            ChildAction::LogFailure,
        ),
        (ChildState::Running, ChildEvent::Exited) => (ChildState::Finished, ChildAction::Nothing),
        (ChildState::Running, ChildEvent::WaitFailed) => (
            ChildState::Failed,
            ChildAction::LogFailure,
        ),
        _ => (state, ChildAction::Nothing),
    }
}

/// Whether nothing more will happen to a child in `state`.
pub open spec fn is_settled(state: ChildState) -> bool {
    state == ChildState::Finished || state == ChildState::Failed
}

/// The state of a child after `event`, and what to do next.
pub fn on_child_event(state: ChildState, event: ChildEvent) -> (next: (ChildState, ChildAction))
    ensures
        next == child_step(state, event),
        is_settled(state) ==> next.0 == state,
{
    match (state, event) {
        (ChildState::Planned, ChildEvent::Spawned) => (ChildState::Running, ChildAction::Wait),
        (ChildState::Planned, ChildEvent::SpawnFailed) => (
            ChildState::Failed,
            ChildAction::LogFailure,
        ),
        (ChildState::Running, ChildEvent::Exited) => (ChildState::Finished, ChildAction::Nothing),
        (ChildState::Running, ChildEvent::WaitFailed) => (
            ChildState::Failed,
            ChildAction::LogFailure,
        ),
        _ => (state, ChildAction::Nothing),
    }
}

/// Whether the batch is over: every child is finished or has failed.
pub fn all_settled(states: &Vec<ChildState>) -> (done: bool)
    ensures
        done == forall|i: int| 0 <= i < states.len() ==> is_settled(#[trigger] states[i]),
{
    let mut i: usize = 0;
    while i < states.len()
        invariant
            i <= states.len(),
            forall|k: int| 0 <= k < i ==> is_settled(#[trigger] states[k]),
        decreases states.len() - i,
    {
        match states[i] {
            ChildState::Finished => {},
            ChildState::Failed => {},
            _ => {
                return false;
            },
        }
        i += 1;
    }
    true
}

} // verus!

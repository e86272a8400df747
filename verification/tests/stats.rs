use sqlsmith_rs::drivers::DriverError;
use sqlsmith_rs::engines::worker::should_report;
use sqlsmith_rs::generators::common::SqlKind;
use sqlsmith_rs::profile::DebugOptions;
use sqlsmith_rs::stats::{classify, is_ignorable, ExecutionOutcome, ExecutionStats, RunCounters, StmtTypeCounts};

const KINDS: [SqlKind; 9] = [
    SqlKind::Select,
    SqlKind::Insert,
    SqlKind::Update,
    SqlKind::Delete,
    SqlKind::Vacuum,
    SqlKind::Pragma,
    SqlKind::CreateTrigger,
    SqlKind::DropTrigger,
    SqlKind::Upsert,
];

fn counts(list: [u64; 9]) -> StmtTypeCounts {
    StmtTypeCounts {
        select: list[0],
        insert: list[1],
        update: list[2],
        delete: list[3],
        vacuum: list[4],
        pragma: list[5],
        create_trigger: list[6],
        drop_trigger: list[7],
        upsert: list[8],
    }
}

fn merge(a: StmtTypeCounts, b: StmtTypeCounts) -> StmtTypeCounts {
    let mut out = a;
    assert!(out.can_merge(&b));
    out.merge(&b);
    out
}

#[test]
fn answers_are_classified() {
    assert_eq!(classify(&Ok(0)), ExecutionOutcome::Success(0));
    assert_eq!(classify(&Ok(12)), ExecutionOutcome::Success(12));
    assert_eq!(classify(&Err(DriverError::ConstraintViolation)), ExecutionOutcome::ExpectedFailure);
    assert_eq!(classify(&Err(DriverError::Other)), ExecutionOutcome::NewFailure);
    assert_eq!(classify(&Err(DriverError::Unsupported)), ExecutionOutcome::NewFailure);
    assert_eq!(classify(&Err(DriverError::VerifyFailed)), ExecutionOutcome::NewFailure);
    assert!(is_ignorable(DriverError::ConstraintViolation));
    assert!(!is_ignorable(DriverError::Other));
}

#[test]
fn each_outcome_moves_exactly_one_counter() {
    let mut counters = RunCounters::new();
    counters.record(ExecutionOutcome::Success(3));
    counters.record(ExecutionOutcome::Success(0));
    counters.record(ExecutionOutcome::ExpectedFailure);
    counters.record(ExecutionOutcome::NewFailure);
    counters.record(ExecutionOutcome::NewFailure);
    counters.record(ExecutionOutcome::NewFailure);
    assert_eq!(counters.success_count, 2);
    assert_eq!(counters.failed_expected_count, 1);
    assert_eq!(counters.failed_new_count, 3);
    assert_eq!(counters.stmt_type_counts, StmtTypeCounts::new());
}

#[test]
fn histogram_counts_by_kind() {
    let mut histogram = StmtTypeCounts::new();
    assert_eq!(histogram.total(), 0);
    for (i, kind) in KINDS.iter().enumerate() {
        for _ in 0..=i {
            histogram.bump(*kind);
        }
    }
    for (i, kind) in KINDS.iter().enumerate() {
        assert_eq!(histogram.get(*kind), i as u64 + 1);
    }
    assert_eq!(histogram, counts([1, 2, 3, 4, 5, 6, 7, 8, 9]));
    assert_eq!(histogram.total(), 45);
}

#[test]
fn merge_is_commutative_and_associative() {
    let a = counts([1, 2, 3, 4, 5, 6, 7, 8, 9]);
    let b = counts([10, 0, 30, 0, 50, 0, 70, 0, 90]);
    let c = counts([0, 200, 0, 400, 0, 600, 0, 800, 0]);
    assert_eq!(merge(a, b), merge(b, a));
    assert_eq!(merge(a, merge(b, c)), merge(merge(a, b), c));
    assert_eq!(merge(a, b), counts([11, 2, 33, 4, 55, 6, 77, 8, 99]));
    assert_eq!(merge(a, merge(b, c)).total(), a.total() + b.total() + c.total());
    assert_eq!(merge(a, StmtTypeCounts::new()), a);
}

#[test]
fn merge_is_refused_where_a_counter_would_run_over() {
    let a = counts([u64::MAX, 0, 0, 0, 0, 0, 0, 0, 0]);
    let b = counts([1, 0, 0, 0, 0, 0, 0, 0, 0]);
    assert!(!a.can_merge(&b));
    assert!(a.can_merge(&StmtTypeCounts::new()));
    let c = counts([0, 0, 0, 0, 0, 0, 0, 0, u64::MAX]);
    assert!(a.can_merge(&c));
    assert!(!c.can_merge(&counts([0, 0, 0, 0, 0, 0, 0, 0, 1])));
}

#[test]
fn counters_of_workers_add_up() {
    let first = RunCounters {
        success_count: 5,
        failed_expected_count: 2,
        failed_new_count: 1,
        stmt_type_counts: counts([4, 4, 0, 0, 0, 0, 0, 0, 0]),
    };
    let second = RunCounters {
        success_count: 7,
        failed_expected_count: 0,
        failed_new_count: 1,
        stmt_type_counts: counts([1, 1, 1, 1, 1, 1, 1, 1, 0]),
    };
    let mut total = RunCounters::new();
    assert!(total.can_absorb(&first));
    total.absorb(&first);
    assert!(total.can_absorb(&second));
    total.absorb(&second);
    let mut other_way = RunCounters::new();
    other_way.absorb(&second);
    other_way.absorb(&first);
    assert_eq!(total, other_way);
    assert_eq!(total.success_count, 12);
    assert_eq!(total.failed_expected_count, 2);
    assert_eq!(total.failed_new_count, 2);
    assert_eq!(total.stmt_type_counts, counts([5, 5, 1, 1, 1, 1, 1, 1, 0]));

    let full = RunCounters { success_count: u64::MAX - 1, ..RunCounters::new() };
    assert!(!full.can_absorb(&first));
    assert!(full.can_absorb(&RunCounters { success_count: 1, ..RunCounters::new() }));
}

#[test]
fn record_total_is_the_sum_of_the_outcomes() {
    let counters = RunCounters {
        success_count: 900,
        failed_expected_count: 63,
        failed_new_count: 37,
        stmt_type_counts: counts([500, 250, 250, 0, 0, 0, 0, 0, 0]),
    };
    let stats = ExecutionStats::new(1500, counters, 4, "256".to_string());
    assert_eq!(stats.total_queries(), 1000);
    assert_eq!(stats.elapsed_ms(), 1500);
    assert_eq!(stats.thread_count(), 4);
    assert_eq!(stats.executor_id(), "256");
    assert_eq!(stats.counters(), counters);
    let copy = stats.clone();
    assert_eq!(copy.total_queries(), 1000);
    assert_eq!(copy.executor_id(), "256");
}

#[test]
fn reports_follow_the_debug_options() {
    let all = Some(DebugOptions { show_success_sql: true, show_failed_sql: true });
    let failures = Some(DebugOptions { show_success_sql: false, show_failed_sql: true });
    let successes = Some(DebugOptions { show_success_sql: true, show_failed_sql: false });
    assert!(should_report(&all, ExecutionOutcome::Success(1)));
    assert!(should_report(&all, ExecutionOutcome::NewFailure));
    assert!(!should_report(&all, ExecutionOutcome::ExpectedFailure));
    assert!(!should_report(&failures, ExecutionOutcome::Success(1)));
    assert!(should_report(&failures, ExecutionOutcome::NewFailure));
    assert!(should_report(&successes, ExecutionOutcome::Success(1)));
    assert!(!should_report(&successes, ExecutionOutcome::NewFailure));
    assert!(!should_report(&None, ExecutionOutcome::Success(1)));
    assert!(!should_report(&None, ExecutionOutcome::NewFailure));
}

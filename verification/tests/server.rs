use sqlsmith_rs::server::fork_server::{
    all_settled, child_seed, on_child_event, plan_children, resolve_seed, ChildAction, ChildEvent, ChildState,
};
use sqlsmith_rs::server::{
    collect_executor_results, error_rate_ppm, is_valid_executor_id, throughput_milli, Aggregator, SubmitError,
};
use sqlsmith_rs::stats::{ExecutionStats, RunCounters, StmtTypeCounts};

fn counts(list: [u64; 9]) -> StmtTypeCounts {
    StmtTypeCounts {
        select: list[0],
        insert: list[1],
        update: list[2],
        delete: list[3],
        vacuum: list[4],
        pragma: list[5],
        create_trigger: list[6],
        drop_trigger: list[7],
        upsert: list[8],
    }
}

fn record(id: &str, elapsed_ms: u64, outcomes: [u64; 3], threads: u64, kinds: [u64; 9]) -> ExecutionStats {
    ExecutionStats::new(
        elapsed_ms,
        RunCounters {
            success_count: outcomes[0],
            failed_expected_count: outcomes[1],
            failed_new_count: outcomes[2],
            stmt_type_counts: counts(kinds),
        },
        threads,
        id.to_string(),
    )
}

#[test]
fn first_record_starts_the_totals() {
    let mut aggregator = Aggregator::new();
    assert!(aggregator.totals().is_none());
    let stats = record("1", 1200, [90, 7, 3], 4, [50, 50, 0, 0, 0, 0, 0, 0, 0]);
    assert_eq!(aggregator.submit(&stats, "2024-01-01T00:00:00+00:00".to_string()), Ok(()));
    let totals = aggregator.totals().unwrap();
    assert_eq!(totals.total_executors(), 1);
    assert_eq!(totals.total_elapsed_ms(), 1200);
    assert_eq!(totals.total_success_count(), 90);
    assert_eq!(totals.total_failed_expected_count(), 7);
    assert_eq!(totals.total_failed_new_count(), 3);
    assert_eq!(totals.total_queries(), 100);
    assert_eq!(totals.total_thread_count(), 4);
    assert_eq!(totals.combined_stmt_type_counts(), counts([50, 50, 0, 0, 0, 0, 0, 0, 0]));
    assert_eq!(totals.last_updated(), "2024-01-01T00:00:00+00:00");
}

#[test]
fn records_add_up_and_the_longest_time_stays() {
    let mut aggregator = Aggregator::new();
    let a = record("256", 1200, [90, 7, 3], 4, [50, 50, 0, 0, 0, 0, 0, 0, 0]);
    let b = record("257", 800, [10, 0, 10], 5, [0, 10, 10, 0, 0, 0, 0, 0, 0]);
    let c = record("258", 2500, [1, 1, 1], 1, [1, 0, 0, 0, 0, 0, 0, 1, 1]);
    assert_eq!(aggregator.submit(&a, "t1".to_string()), Ok(()));
    assert_eq!(aggregator.submit(&b, "t2".to_string()), Ok(()));
    assert_eq!(aggregator.totals().unwrap().total_elapsed_ms(), 1200);
    assert_eq!(aggregator.submit(&c, "t3".to_string()), Ok(()));
    let totals = aggregator.totals().unwrap();
    assert_eq!(totals.total_executors(), 3);
    assert_eq!(totals.total_elapsed_ms(), 2500);
    assert_eq!(totals.total_success_count(), 101);
    assert_eq!(totals.total_failed_expected_count(), 8);
    assert_eq!(totals.total_failed_new_count(), 14);
    assert_eq!(totals.total_queries(), 123);
    assert_eq!(totals.total_thread_count(), 10);
    assert_eq!(totals.combined_stmt_type_counts(), counts([51, 60, 10, 0, 0, 0, 0, 1, 1]));
    assert_eq!(totals.last_updated(), "t3");
}

#[test]
fn totals_do_not_depend_on_the_order_of_arrival() {
    let records = [
        record("1", 1200, [90, 7, 3], 4, [50, 50, 0, 0, 0, 0, 0, 0, 0]),
        record("2", 800, [10, 0, 10], 5, [0, 10, 10, 0, 0, 0, 0, 0, 0]),
        record("3", 2500, [1, 1, 1], 1, [1, 0, 0, 0, 0, 0, 0, 1, 1]),
    ];
    let orders = [[0, 1, 2], [0, 2, 1], [1, 0, 2], [1, 2, 0], [2, 0, 1], [2, 1, 0]];
    let mut seen = Vec::new();
    for order in orders {
        let mut aggregator = Aggregator::new();
        for i in order {
            assert_eq!(aggregator.submit(&records[i], "now".to_string()), Ok(()));
        }
        let report = collect_executor_results(&aggregator, "later");
        seen.push((
            report.total_executors,
            report.total_queries,
            report.successful_queries,
            report.failed_expected_queries,
            report.failed_new_queries,
            report.max_execution_time_ms,
            report.total_thread_count,
            report.stmt_type_counts,
            report.error_rate_ppm,
            report.throughput_milli,
        ));
    }
    for other in &seen[1..] {
        assert_eq!(&seen[0], other);
    }
}

#[test]
fn executor_identity_must_be_numeric() {
    let mut aggregator = Aggregator::new();
    for id in ["unknown", "", "-1", "1.5", " 7", "7 ", "0x10", "+", "++7", "1_000", "12a"] {
        let stats = record(id, 10, [1, 0, 0], 1, [1, 0, 0, 0, 0, 0, 0, 0, 0]);
        assert_eq!(aggregator.submit(&stats, "now".to_string()), Err(SubmitError::InvalidExecutorId));
        assert!(aggregator.totals().is_none());
        assert!(!is_valid_executor_id(id));
        assert!(id.parse::<u128>().is_err());
    }
    for id in ["0", "256", "+5", "0042", "4294967295"] {
        assert!(is_valid_executor_id(id));
        assert!(id.parse::<u32>().is_ok());
        let stats = record(id, 10, [1, 0, 0], 1, [1, 0, 0, 0, 0, 0, 0, 0, 0]);
        assert_eq!(aggregator.submit(&stats, "now".to_string()), Ok(()));
    }
    assert_eq!(aggregator.totals().unwrap().total_executors(), 5);
}

#[test]
fn an_identity_is_numeric_whatever_its_size() {
    let mut aggregator = Aggregator::new();
    let ids = ["4294967296", "18446744073709551615", "18446744073709551616", "+99999999999999999999999999999999999999999"];
    for id in ids {
        assert!(is_valid_executor_id(id));
        let stats = record(id, 10, [2, 1, 0], 1, [3, 0, 0, 0, 0, 0, 0, 0, 0]);
        assert_eq!(aggregator.submit(&stats, "now".to_string()), Ok(()));
    }
    let totals = aggregator.totals().unwrap();
    assert_eq!(totals.total_executors(), 4);
    assert_eq!(totals.total_queries(), 12);
}

#[test]
fn every_child_of_the_plan_reports_under_a_numeric_identity() {
    for base_seed in [0u64, 3, 1 << 24, (1 << 24) + 1, 1 << 40, u64::MAX] {
        let mut aggregator = Aggregator::new();
        let plans = plan_children(base_seed, 5);
        for plan in &plans {
            assert!(is_valid_executor_id(&plan.seed_text));
            let stats = record(&plan.seed_text, 10, [1, 0, 0], 1, [1, 0, 0, 0, 0, 0, 0, 0, 0]);
            assert_eq!(aggregator.submit(&stats, "now".to_string()), Ok(()));
        }
        assert_eq!(aggregator.totals().unwrap().total_executors(), 5);
    }
}

#[test]
fn a_record_that_would_overflow_changes_nothing() {
    let mut aggregator = Aggregator::new();
    let big = record("1", 10, [u64::MAX - 5, 0, 0], 1, [0; 9]);
    assert_eq!(aggregator.submit(&big, "t1".to_string()), Ok(()));
    let more = record("2", 99, [6, 0, 0], 1, [0; 9]);
    assert_eq!(aggregator.submit(&more, "t2".to_string()), Err(SubmitError::CounterOverflow));
    let totals = aggregator.totals().unwrap();
    assert_eq!(totals.total_executors(), 1);
    assert_eq!(totals.total_queries(), u64::MAX - 5);
    assert_eq!(totals.total_elapsed_ms(), 10);
    assert_eq!(totals.last_updated(), "t1");
    let fits = record("3", 99, [5, 0, 0], 1, [0; 9]);
    assert_eq!(aggregator.submit(&fits, "t3".to_string()), Ok(()));
    assert_eq!(aggregator.totals().unwrap().total_queries(), u64::MAX);

    let mut aggregator = Aggregator::new();
    let kinds = record("1", 10, [1, 0, 0], u64::MAX, [u64::MAX, 0, 0, 0, 0, 0, 0, 0, 0]);
    assert_eq!(aggregator.submit(&kinds, "t1".to_string()), Ok(()));
    let one_kind = record("2", 10, [1, 0, 0], 0, [1, 0, 0, 0, 0, 0, 0, 0, 0]);
    assert_eq!(aggregator.submit(&one_kind, "t2".to_string()), Err(SubmitError::CounterOverflow));
    let one_thread = record("2", 10, [1, 0, 0], 1, [0; 9]);
    assert_eq!(aggregator.submit(&one_thread, "t2".to_string()), Err(SubmitError::CounterOverflow));
}

#[test]
fn error_rate_is_zero_without_statements() {
    assert_eq!(error_rate_ppm(0, 0), 0);
    let mut aggregator = Aggregator::new();
    let idle = record("1", 10, [0, 0, 0], 1, [0; 9]);
    assert_eq!(aggregator.submit(&idle, "now".to_string()), Ok(()));
    assert_eq!(aggregator.totals().unwrap().error_rate_ppm(), 0);
    let report = collect_executor_results(&Aggregator::new(), "asked");
    assert!(!report.has_data);
    assert_eq!(report.error_rate_ppm, 0);
    assert_eq!(report.throughput_milli, 0);
    assert_eq!(report.total_executors, 0);
    assert_eq!(report.timestamp, "asked");
}

#[test]
fn error_rate_of_37_new_failures_in_1000() {
    assert_eq!(error_rate_ppm(37, 1000), 37000);
    let mut aggregator = Aggregator::new();
    let stats = record("1", 2000, [900, 63, 37], 4, [1000, 0, 0, 0, 0, 0, 0, 0, 0]);
    assert_eq!(aggregator.submit(&stats, "now".to_string()), Ok(()));
    let totals = aggregator.totals().unwrap();
    assert_eq!(totals.error_rate_ppm(), 37000);
    let per_cent = totals.error_rate_ppm() as f64 / 10000.0;
    assert_eq!(per_cent, 3.7);
    assert!((per_cent - (37.0f64 / 1000.0) * 100.0).abs() < 1e-9);
    assert_eq!(totals.throughput_milli(), 500_000);
    assert_eq!(totals.throughput_milli() as f64 / 1000.0, 1000.0 / (2000.0 / 1000.0));
}

#[test]
fn rates_round_down_and_stay_in_range() {
    assert_eq!(error_rate_ppm(1, 3), 333_333);
    assert_eq!(error_rate_ppm(2, 3), 666_666);
    assert_eq!(error_rate_ppm(3, 3), 1_000_000);
    assert_eq!(error_rate_ppm(u64::MAX, u64::MAX), 1_000_000);
    assert_eq!(error_rate_ppm(0, 17), 0);
    assert_eq!(throughput_milli(0, 0), 0);
    assert_eq!(throughput_milli(100, 0), 0);
    assert_eq!(throughput_milli(1, 3), 333_333);
    assert_eq!(throughput_milli(u64::MAX, 1), u64::MAX as u128 * 1_000_000);
}

#[test]
fn children_get_shifted_seeds_and_numbered_titles() {
    let plans = plan_children(3, 4);
    assert_eq!(plans.len(), 4);
    for (i, plan) in plans.iter().enumerate() {
        assert_eq!(plan.seed, (3u64 << 8) + i as u64);
        assert_eq!(plan.seed_text, plan.seed.to_string());
        assert_eq!(plan.title, format!("exec_{}", i));
    }
    assert_eq!(plans[0].seed_text, "768");
    assert_eq!(plans[3].seed_text, "771");
    assert!(plan_children(9, 0).is_empty());
    assert_eq!(child_seed(0, 0), 0);
    assert_eq!(child_seed(u64::MAX, 0), u64::MAX << 8);
    assert_eq!(child_seed(u64::MAX, 300), (u64::MAX << 8).wrapping_add(300));
    assert_eq!(child_seed(1 << 56, 5), 5);
}

#[test]
fn child_seeds_are_distinct() {
    let plans = plan_children(u64::MAX - 1, 1000);
    let mut seeds: Vec<u64> = plans.iter().map(|p| p.seed).collect();
    seeds.sort();
    seeds.dedup();
    assert_eq!(seeds.len(), 1000);
}

#[test]
fn seed_override_wins_when_it_is_a_number() {
    assert_eq!(resolve_seed(Some("768"), Some(3)), 768);
    assert_eq!(resolve_seed(Some("18446744073709551615"), Some(3)), u64::MAX);
    assert_eq!(resolve_seed(Some("18446744073709551616"), Some(3)), 3);
    assert_eq!(resolve_seed(Some("unknown"), Some(3)), 3);
    assert_eq!(resolve_seed(Some(""), None), 0);
    assert_eq!(resolve_seed(None, Some(9)), 9);
    assert_eq!(resolve_seed(None, None), 0);
}

#[test]
fn a_failure_ends_one_child_only() {
    assert_eq!(on_child_event(ChildState::Planned, ChildEvent::Spawned), (ChildState::Running, ChildAction::Wait));
    assert_eq!(
        on_child_event(ChildState::Planned, ChildEvent::SpawnFailed),
        (ChildState::Failed, ChildAction::LogFailure)
    );
    assert_eq!(on_child_event(ChildState::Running, ChildEvent::Exited), (ChildState::Finished, ChildAction::Nothing));
    assert_eq!(
        on_child_event(ChildState::Running, ChildEvent::WaitFailed),
        (ChildState::Failed, ChildAction::LogFailure)
    );
    for state in [ChildState::Finished, ChildState::Failed] {
        for event in [ChildEvent::Spawned, ChildEvent::SpawnFailed, ChildEvent::Exited, ChildEvent::WaitFailed] {
            assert_eq!(on_child_event(state, event), (state, ChildAction::Nothing));
        }
    }
    assert_eq!(on_child_event(ChildState::Planned, ChildEvent::Exited), (ChildState::Planned, ChildAction::Nothing));

    let mut states = vec![ChildState::Planned; 3];
    assert!(!all_settled(&states));
    states[0] = on_child_event(states[0], ChildEvent::SpawnFailed).0;
    states[1] = on_child_event(states[1], ChildEvent::Spawned).0;
    states[2] = on_child_event(states[2], ChildEvent::Spawned).0;
    assert_eq!(states[1], ChildState::Running);
    assert!(!all_settled(&states));
    states[1] = on_child_event(states[1], ChildEvent::Exited).0;
    states[2] = on_child_event(states[2], ChildEvent::WaitFailed).0;
    assert!(all_settled(&states));
    assert!(all_settled(&Vec::new()));
}

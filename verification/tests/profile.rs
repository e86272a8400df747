use sqlsmith_rs::drivers::DRIVER_KIND;
use sqlsmith_rs::profile::{default_profile, flag_item, number_item, DebugOptions, Profile, StmtProb};

#[test]
fn defaults_of_a_run() {
    let profile = default_profile();
    assert_eq!(profile.driver, Some(DRIVER_KIND::SQLITE_IN_MEM));
    assert_eq!(profile.count, Some(8));
    assert_eq!(profile.executor_count, Some(5));
    assert_eq!(profile.thread_per_exec, Some(5));
    assert_eq!(profile.seed, Some(0));
    assert_eq!(profile.debug, Some(DebugOptions { show_success_sql: false, show_failed_sql: true }));
    let prob = profile.stmt_prob.unwrap();
    assert_eq!(
        (prob.SELECT, prob.INSERT, prob.UPDATE, prob.DELETE, prob.VACUUM, prob.PRAGMA),
        (100, 50, 50, 20, 20, 10)
    );
    assert_eq!((prob.CREATE_TRIGGER, prob.DROP_TRIGGER, prob.UPSERT), (10, 10, 0));
    assert_eq!(prob.total(), 270);
}

#[test]
fn absent_settings_take_their_defaults() {
    let empty = Profile {
        driver: None,
        count: None,
        executor_count: None,
        thread_per_exec: None,
        stmt_prob: None,
        debug: None,
        seed: None,
    };
    assert_eq!(empty.run_count(), 8);
    assert_eq!(empty.executors(), 5);
    assert_eq!(empty.threads(), 5);
    assert_eq!(empty.base_seed(), 0);
    assert_eq!(empty.describe(), "Profile: driver=SQLITE_IN_MEM, count=8, executor_count=5, thread_per_exec=5");
    let set = Profile { count: Some(3), executor_count: Some(2), thread_per_exec: Some(9), seed: Some(77), ..empty };
    assert_eq!(set.run_count(), 3);
    assert_eq!(set.executors(), 2);
    assert_eq!(set.threads(), 9);
    assert_eq!(set.base_seed(), 77);
}

#[test]
fn a_profile_is_described_in_one_line() {
    assert_eq!(
        default_profile().describe(),
        "Profile: driver=SQLITE_IN_MEM, count=8, executor_count=5, thread_per_exec=5, seed=0, \
         SELECT=100, INSERT=50, UPDATE=50, VACUUM=20, DELETE=20, PRAGMA=10, CREATE_TRIGGER=10, \
         DROP_TRIGGER=10, UPSERT=0, show_success_sql=false, show_failed_sql=true"
    );
    let profile = Profile {
        driver: Some(DRIVER_KIND::LIMBO_IN_MEM),
        count: Some(1),
        executor_count: None,
        thread_per_exec: Some(2),
        stmt_prob: Some(StmtProb {
            SELECT: 1,
            INSERT: 2,
            UPDATE: 3,
            DELETE: 4,
            VACUUM: 5,
            PRAGMA: 6,
            CREATE_TRIGGER: 7,
            DROP_TRIGGER: 8,
            UPSERT: 9,
        }),
        debug: Some(DebugOptions { show_success_sql: true, show_failed_sql: false }),
        seed: None,
    };
    assert_eq!(
        profile.describe(),
        "Profile: driver=LIMBO_IN_MEM, count=1, executor_count=5, thread_per_exec=2, SELECT=1, INSERT=2, \
         UPDATE=3, VACUUM=5, DELETE=4, PRAGMA=6, CREATE_TRIGGER=7, DROP_TRIGGER=8, UPSERT=9, \
         show_success_sql=true, show_failed_sql=false"
    );
}

#[test]
fn items_of_a_profile() {
    assert_eq!(number_item("count", 8), "count=8");
    assert_eq!(number_item("seed", u64::MAX), format!("seed={}", u64::MAX));
    assert_eq!(flag_item("show_success_sql", true), "show_success_sql=true");
    assert_eq!(flag_item("show_failed_sql", false), "show_failed_sql=false");
}

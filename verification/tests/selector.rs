use sqlsmith_rs::engines::worker::{generate_statements, Worker, WorkerPhase};
use sqlsmith_rs::engines::{choose_and_generate, generate_sql_by_prob, pick_kind};
use sqlsmith_rs::generators::common::create_trigger_stmt_common::LiveTriggers;
use sqlsmith_rs::generators::common::{DriverKind, SqlKind};
use sqlsmith_rs::generators::sqlite::schema::TableWithColumns;
use sqlsmith_rs::profile::StmtProb;
use sqlsmith_rs::rng::LcgRng;

fn table(name: &str, columns: &[(&str, &str)]) -> TableWithColumns {
    TableWithColumns::new(
        name.to_string(),
        columns.iter().map(|(n, t)| (n.to_string(), t.to_string())).collect(),
    )
}

fn small() -> Vec<TableWithColumns> {
    vec![table("t", &[("id", "INTEGER"), ("name", "TEXT")])]
}

fn mixed() -> Vec<TableWithColumns> {
    vec![
        table(
            "users",
            &[("id", "INTEGER"), ("name", "TEXT"), ("score", "REAL"), ("photo", "BLOB"), ("misc", "VARCHAR")],
        ),
        table("orders", &[("oid", "integer"), ("note", "Text")]),
        table("empty", &[]),
    ]
}

fn weights(list: [u64; 9]) -> StmtProb {
    StmtProb {
        SELECT: list[0],
        INSERT: list[1],
        UPDATE: list[2],
        DELETE: list[3],
        VACUUM: list[4],
        PRAGMA: list[5],
        CREATE_TRIGGER: list[6],
        DROP_TRIGGER: list[7],
        UPSERT: list[8],
    }
}

#[test]
fn kinds_are_selected_in_declaration_order() {
    let prob = weights([100, 50, 50, 20, 20, 10, 10, 10, 5]);
    assert_eq!(prob.total(), 275);
    let bounds = [
        (0, SqlKind::Select),
        (99, SqlKind::Select),
        (100, SqlKind::Insert),
        (149, SqlKind::Insert),
        (150, SqlKind::Update),
        (199, SqlKind::Update),
        (200, SqlKind::Delete),
        (219, SqlKind::Delete),
        (220, SqlKind::Vacuum),
        (239, SqlKind::Vacuum),
        (240, SqlKind::Pragma),
        (249, SqlKind::Pragma),
        (250, SqlKind::CreateTrigger),
        (259, SqlKind::CreateTrigger),
        (260, SqlKind::DropTrigger),
        (269, SqlKind::DropTrigger),
        (270, SqlKind::Upsert),
        (274, SqlKind::Upsert),
    ];
    for (r, kind) in bounds {
        assert_eq!(pick_kind(&prob, r), kind, "r = {}", r);
    }
}

#[test]
fn kinds_of_weight_zero_are_never_selected() {
    let prob = weights([0, 5, 0, 0, 5, 0, 0, 0, 0]);
    for r in 0..5 {
        assert_eq!(pick_kind(&prob, r), SqlKind::Insert);
    }
    for r in 5..10 {
        assert_eq!(pick_kind(&prob, r), SqlKind::Vacuum);
    }
    let prob = weights([0, 0, 0, 0, 0, 0, 0, 0, 1]);
    assert_eq!(pick_kind(&prob, 0), SqlKind::Upsert);
}

#[test]
fn total_does_not_overflow() {
    let prob = weights([u64::MAX; 9]);
    assert_eq!(prob.total(), 9 * (u64::MAX as u128));
    assert_eq!(pick_kind(&prob, u64::MAX as u128 - 1), SqlKind::Select);
    assert_eq!(pick_kind(&prob, u64::MAX as u128), SqlKind::Insert);
    assert_eq!(pick_kind(&prob, 9 * (u64::MAX as u128) - 1), SqlKind::Upsert);
}

#[test]
fn zero_weights_always_give_the_fallback() {
    let prob = weights([0; 9]);
    let tables = mixed();
    let mut rng = LcgRng::new(31337);
    let mut triggers = LiveTriggers::new();
    for _ in 0..50 {
        assert_eq!(
            generate_sql_by_prob(&prob, &mut rng, DriverKind::Sqlite, &tables, &mut triggers),
            "SELECT 1;"
        );
        let made = choose_and_generate(&prob, &mut rng, DriverKind::Limbo, &tables, &mut triggers);
        assert_eq!(made.kind, None);
        assert_eq!(made.sql, "SELECT 1;");
    }
    assert_eq!(rng.get_seed(), 31337);
    assert_eq!(
        generate_statements(&tables, DriverKind::Sqlite, 5, 20, &Some(prob)),
        vec!["SELECT 1;".to_string(); 20]
    );
    assert_eq!(
        generate_statements(&tables, DriverKind::Sqlite, 5, 3, &None),
        vec!["SELECT 1;".to_string(); 3]
    );
}

#[test]
fn statements_by_weight_for_known_seeds() {
    let prob = weights([100, 50, 50, 20, 20, 10, 10, 10, 0]);
    let tables = mixed();
    let expected = [
        (SqlKind::Select, "SELECT oid, note FROM orders;"),
        (SqlKind::Select, "SELECT 1;"),
        (SqlKind::Select, "SELECT photo, id, score FROM users;"),
        (SqlKind::Update, "SELECT 1;"),
        (SqlKind::DropTrigger, "SELECT 1;"),
        (SqlKind::Pragma, "PRAGMA database_list;"),
        (SqlKind::Select, "SELECT score, name FROM users;"),
        (SqlKind::Select, "SELECT photo FROM users;"),
        (SqlKind::Select, "SELECT oid, note FROM orders;"),
        (SqlKind::Select, "SELECT note, oid FROM orders;"),
    ];
    let mut rng = LcgRng::new(1);
    let mut triggers = LiveTriggers::new();
    for (kind, sql) in expected {
        let made = choose_and_generate(&prob, &mut rng, DriverKind::Sqlite, &tables, &mut triggers);
        assert_eq!(made.kind, Some(kind));
        assert_eq!(made.sql, sql);
    }
    assert_eq!(rng.get_seed(), 1775811865);

    let expected = [
        "UPDATE users SET id = 543 WHERE 1=1;",
        "SELECT note, oid FROM orders;",
        "SELECT photo, name, score, misc FROM users;",
        "VACUUM;",
        "INSERT INTO users (name, score) VALUES ('val777', 111.57);",
        "SELECT 1;",
        "SELECT 1;",
        "UPDATE users SET photo = X'ed4ce9c9990d', id = 381, score = 79.35, name = 'val636', misc = NULL WHERE 1=1;",
        "UPDATE orders SET oid = 828, note = 'val611' WHERE 1=1;",
        "UPDATE orders SET oid = 534, note = 'val684' WHERE 1=1;",
    ];
    let statements = generate_statements(&tables, DriverKind::Sqlite, 3, 10, &Some(prob));
    assert_eq!(statements, expected.iter().map(|s| s.to_string()).collect::<Vec<_>>());
}

#[test]
fn same_seed_same_statements() {
    let prob = weights([100, 50, 50, 20, 20, 10, 10, 10, 30]);
    let tables = mixed();
    for seed in [0u32, 1, 2, 77, u32::MAX] {
        let first = generate_statements(&tables, DriverKind::Sqlite, seed, 200, &Some(prob));
        let second = generate_statements(&tables, DriverKind::Sqlite, seed, 200, &Some(prob));
        assert_eq!(first, second);
        assert_eq!(first.len(), 200);
    }
}

#[test]
fn select_only_run_with_seed_one() {
    let prob = weights([1, 0, 0, 0, 0, 0, 0, 0, 0]);
    let tables = small();
    let expected =
        vec!["SELECT id, name FROM t;".to_string(), "SELECT id FROM t;".to_string(), "SELECT id, name FROM t;".to_string()];
    for _ in 0..5 {
        assert_eq!(generate_statements(&tables, DriverKind::Sqlite, 1, 3, &Some(prob)), expected);
    }
    let mut worker = Worker::new(1, 3);
    let mut seen = Vec::new();
    while !worker.is_done() {
        assert!(!worker.awaiting());
        assert_eq!(worker.phase(), WorkerPhase::Idle);
        let made = worker.next_statement(&tables, DriverKind::Sqlite, &Some(prob));
        assert!(worker.awaiting());
        assert_eq!(worker.phase(), WorkerPhase::Executing);
        assert_eq!(made.kind, Some(SqlKind::Select));
        seen.push(made.sql);
        worker.settle(&Ok(0));
    }
    assert!(!worker.awaiting());
    assert_eq!(worker.phase(), WorkerPhase::Done);
    assert_eq!(Worker::new(1, 0).phase(), WorkerPhase::Done);
    assert_eq!(seen, expected);
    assert_eq!(worker.counters().stmt_type_counts.select, 3);
    assert_eq!(worker.counters().success_count, 3);
}

#[test]
fn every_draw_value_counted_by_the_kind_it_chooses() {
    let prob = weights([100, 50, 50, 0, 0, 0, 0, 0, 0]);
    let mut counts = [0u32; 3];
    for value in 0u128..32768 {
        match pick_kind(&prob, value % prob.total()) {
            SqlKind::Select => counts[0] += 1,
            SqlKind::Insert => counts[1] += 1,
            SqlKind::Update => counts[2] += 1,
            other => panic!("unexpected kind {:?}", other),
        }
    }
    assert_eq!(counts, [16400, 8200, 8168]);
}

#[test]
fn kind_ratios_follow_the_weights() {
    let prob = weights([100, 50, 50, 0, 0, 0, 0, 0, 0]);
    let none: Vec<TableWithColumns> = Vec::new();
    let mut rng = LcgRng::new(1);
    let mut triggers = LiveTriggers::new();
    let mut counts = [0u32; 3];
    let draws = 100000;
    for _ in 0..draws {
        match choose_and_generate(&prob, &mut rng, DriverKind::Sqlite, &none, &mut triggers).kind {
            Some(SqlKind::Select) => counts[0] += 1,
            Some(SqlKind::Insert) => counts[1] += 1,
            Some(SqlKind::Update) => counts[2] += 1,
            other => panic!("unexpected kind {:?}", other),
        }
    }
    let expected = [0.5 * draws as f64, 0.25 * draws as f64, 0.25 * draws as f64];
    let chi_square: f64 =
        counts.iter().zip(expected.iter()).map(|(&seen, &want)| (seen as f64 - want).powi(2) / want).sum();
    // Two degrees of freedom: 13.82 is the critical value at the 0.001 level.
    assert!(chi_square < 13.82, "chi-square {} with counts {:?}", chi_square, counts);
}

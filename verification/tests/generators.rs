use sqlsmith_rs::drivers::DRIVER_KIND;
use sqlsmith_rs::generators::common::create_trigger_stmt_common::{
    eligible_tables, find_id_column, gen_create_trigger_stmt, LiveTriggers,
};
use sqlsmith_rs::generators::common::delete_stmt_common::gen_delete_stmt;
use sqlsmith_rs::generators::common::drop_trigger_stmt_common::gen_drop_trigger_stmt;
use sqlsmith_rs::generators::common::insert_stmt_common::gen_insert_stmt;
use sqlsmith_rs::generators::common::pragma_stmt_common::get_pragma_stmt_by_seed;
use sqlsmith_rs::generators::common::sampling::{choose_columns, pick_index, shuffled_order};
use sqlsmith_rs::generators::common::select_stmt_common::gen_select_stmt;
use sqlsmith_rs::generators::common::update_stmt_common::gen_update_stmt;
use sqlsmith_rs::generators::common::upsert_stmt_common::gen_upsert_stmt;
use sqlsmith_rs::generators::common::vacuum_stmt_common::{gen_vacuum_stmt, get_vacuum_stmt_by_seed};
use sqlsmith_rs::generators::common::{gen_stmt, key_tables, name_tables, DriverKind, SqlKind};
use sqlsmith_rs::generators::get_stmt_by_seed;
use sqlsmith_rs::generators::sqlite::schema::{TableInfo, TableWithColumns, TriggerTableWithColumns};
use sqlsmith_rs::rng::LcgRng;

fn table(name: &str, columns: &[(&str, &str)]) -> TableWithColumns {
    TableWithColumns::new(
        name.to_string(),
        columns.iter().map(|(n, t)| (n.to_string(), t.to_string())).collect(),
    )
}

fn small() -> Vec<TableWithColumns> {
    vec![table("t", &[("id", "INTEGER"), ("name", "TEXT")])]
}

fn mixed() -> Vec<TableWithColumns> {
    vec![
        table(
            "users",
            &[("id", "INTEGER"), ("name", "TEXT"), ("score", "REAL"), ("photo", "BLOB"), ("misc", "VARCHAR")],
        ),
        table("orders", &[("oid", "integer"), ("note", "Text")]),
        table("empty", &[]),
    ]
}

fn names(tables: &[TableWithColumns]) -> Vec<TableInfo> {
    tables
        .iter()
        .map(|t| TableInfo::new(t.name.clone(), t.columns.iter().map(|c| c.0.clone()).collect()))
        .collect()
}

fn some(text: &str) -> Option<String> {
    Some(text.to_string())
}

#[test]
fn select_statements_for_known_seeds() {
    let mut rng = LcgRng::new(1);
    let tables = names(&small());
    assert_eq!(gen_select_stmt(&tables, &mut rng), some("SELECT id FROM t;"));
    assert_eq!(gen_select_stmt(&tables, &mut rng), some("SELECT id, name FROM t;"));
    assert_eq!(gen_select_stmt(&tables, &mut rng), some("SELECT name, id FROM t;"));
    assert_eq!(gen_select_stmt(&tables, &mut rng), some("SELECT id, name FROM t;"));
    assert_eq!(rng.get_seed(), 836760821);

    let mut rng = LcgRng::new(42);
    let tables = names(&mixed());
    assert_eq!(gen_select_stmt(&tables, &mut rng), some("SELECT oid, note FROM orders;"));
    assert_eq!(gen_select_stmt(&tables, &mut rng), some("SELECT id, score FROM users;"));
    assert_eq!(gen_select_stmt(&tables, &mut rng), some("SELECT note FROM orders;"));
    assert_eq!(gen_select_stmt(&tables, &mut rng), some("SELECT score, name, misc, id FROM users;"));
    assert_eq!(rng.get_seed(), 2852860648);
}

#[test]
fn select_gives_nothing_without_tables_or_columns() {
    let mut rng = LcgRng::new(1);
    let none: Vec<TableInfo> = Vec::new();
    assert_eq!(gen_select_stmt(&none, &mut rng), None);
    assert_eq!(rng.get_seed(), 1);

    // The table without columns is drawn first under seed 1: one draw, no statement.
    let tables = names(&mixed());
    let mut rng = LcgRng::new(1);
    assert_eq!(gen_select_stmt(&tables, &mut rng), None);
    let mut expected = LcgRng::new(1);
    expected.rand();
    assert_eq!(rng.get_seed(), expected.get_seed());
}

#[test]
fn insert_statements_for_known_seeds() {
    let tables = small();
    let mut rng = LcgRng::new(1);
    assert_eq!(gen_insert_stmt(&tables, &mut rng), some("INSERT INTO t (id) VALUES (515);"));
    assert_eq!(gen_insert_stmt(&tables, &mut rng), some("INSERT INTO t (name, id) VALUES ('val419', 212);"));
    assert_eq!(gen_insert_stmt(&tables, &mut rng), some("INSERT INTO t (id, name) VALUES (84, 'val60');"));
    assert_eq!(gen_insert_stmt(&tables, &mut rng), some("INSERT INTO t (id, name) VALUES (183, 'val137');"));
    assert_eq!(rng.get_seed(), 3794901700);

    let tables = mixed();
    let mut rng = LcgRng::new(1);
    assert_eq!(gen_insert_stmt(&tables, &mut rng), None);
    assert_eq!(gen_insert_stmt(&tables, &mut rng), some("INSERT INTO orders (oid, note) VALUES (51, 'val627');"));
    assert_eq!(
        gen_insert_stmt(&tables, &mut rng),
        some("INSERT INTO users (id, photo, name, misc, score) VALUES (84, X'e18701bf31de56720f47676687', 'val145', NULL, 198.82);")
    );
    assert_eq!(gen_insert_stmt(&tables, &mut rng), None);
    assert_eq!(rng.get_seed(), 3834121963);

    let mut rng = LcgRng::new(42);
    for _ in 0..3 {
        gen_insert_stmt(&tables, &mut rng);
    }
    assert_eq!(
        gen_insert_stmt(&tables, &mut rng),
        some("INSERT INTO users (id, misc, score, name, photo) VALUES (763, NULL, 60.71, 'val987', X'd48eb06e2f77e9f79571');")
    );
    assert_eq!(rng.get_seed(), 1030877685);
}

#[test]
fn update_statements_for_known_seeds() {
    let tables = small();
    let mut rng = LcgRng::new(1);
    assert_eq!(gen_update_stmt(&tables, &mut rng), some("UPDATE t SET id = 515 WHERE 1=1;"));
    assert_eq!(gen_update_stmt(&tables, &mut rng), some("UPDATE t SET name = 'val419', id = 212 WHERE 1=1;"));
    assert_eq!(gen_update_stmt(&tables, &mut rng), some("UPDATE t SET id = 84, name = 'val60' WHERE 1=1;"));
    assert_eq!(gen_update_stmt(&tables, &mut rng), some("UPDATE t SET id = 183, name = 'val137' WHERE 1=1;"));
    assert_eq!(rng.get_seed(), 3794901700);

    let tables = mixed();
    let mut rng = LcgRng::new(2);
    assert_eq!(gen_update_stmt(&tables, &mut rng), None);
    assert_eq!(gen_update_stmt(&tables, &mut rng), None);
    assert_eq!(
        gen_update_stmt(&tables, &mut rng),
        some("UPDATE users SET misc = NULL, name = 'val302', id = 531, photo = X'13dc1b63fc93', score = 161.34 WHERE 1=1;")
    );
    assert_eq!(gen_update_stmt(&tables, &mut rng), None);
    assert_eq!(rng.get_seed(), 150367929);
}

#[test]
fn delete_statements_cover_the_four_policies() {
    let tables = small();
    let mut rng = LcgRng::new(1);
    assert_eq!(gen_delete_stmt(&tables, &mut rng), some("DELETE FROM t WHERE id = NULL;"));
    assert_eq!(gen_delete_stmt(&tables, &mut rng), some("DELETE FROM t WHERE id = 1;"));
    let mut rng = LcgRng::new(2);
    assert_eq!(gen_delete_stmt(&tables, &mut rng), some("DELETE FROM t WHERE id = 'val239';"));
    let mut rng = LcgRng::new(42);
    assert_eq!(gen_delete_stmt(&tables, &mut rng), some("DELETE FROM t WHERE id = 'val269';"));
    assert_eq!(gen_delete_stmt(&tables, &mut rng), some("DELETE FROM t WHERE id = 93;"));
    assert_eq!(gen_delete_stmt(&tables, &mut rng), some("DELETE FROM t WHERE id = 65;"));
    assert_eq!(gen_delete_stmt(&tables, &mut rng), some("DELETE FROM t WHERE id = 914;"));
    assert_eq!(rng.get_seed(), 1108520142);

    let tables = mixed();
    let mut rng = LcgRng::new(1);
    assert_eq!(gen_delete_stmt(&tables, &mut rng), None);
    assert_eq!(gen_delete_stmt(&tables, &mut rng), some("DELETE FROM orders WHERE oid = 'val515';"));
    assert_eq!(gen_delete_stmt(&tables, &mut rng), some("DELETE FROM orders WHERE oid = 1;"));
    assert_eq!(gen_delete_stmt(&tables, &mut rng), some("DELETE FROM users WHERE id = 1;"));
    assert_eq!(rng.get_seed(), 2633739833);
}

#[test]
fn upsert_rolls_the_two_value_lists_independently() {
    let tables = small();
    let mut rng = LcgRng::new(1);
    assert_eq!(
        gen_upsert_stmt(&tables, &mut rng),
        some("INSERT INTO t (id) VALUES (51) ON CONFLICT(id) DO UPDATE SET id = 515;")
    );
    assert_eq!(
        gen_upsert_stmt(&tables, &mut rng),
        some("INSERT INTO t (id) VALUES (86) ON CONFLICT(id) DO UPDATE SET id = 212;")
    );
    assert_eq!(
        gen_upsert_stmt(&tables, &mut rng),
        some("INSERT INTO t (name, id) VALUES ('val543', 89) ON CONFLICT(name) DO UPDATE SET name = 'val60', id = 225;")
    );
    assert_eq!(
        gen_upsert_stmt(&tables, &mut rng),
        some("INSERT INTO t (name, id) VALUES ('val495', 311) ON CONFLICT(name) DO UPDATE SET name = 'val966', id = 978;")
    );
    assert_eq!(rng.get_seed(), 675780521);

    let tables = mixed();
    let mut rng = LcgRng::new(2);
    assert_eq!(gen_upsert_stmt(&tables, &mut rng), None);
    assert_eq!(gen_upsert_stmt(&tables, &mut rng), None);
    assert_eq!(
        gen_upsert_stmt(&tables, &mut rng),
        some("INSERT INTO users (misc, name, id, photo, score) VALUES (NULL, 'val251', 508, 'blob', 143.63) ON CONFLICT(misc) DO UPDATE SET misc = NULL, name = 'val302', id = 531, photo = 'blob', score = 260.05;")
    );
}

#[test]
fn vacuum_needs_nothing() {
    assert_eq!(gen_vacuum_stmt(), some("VACUUM;"));
    let mut rng = LcgRng::new(77);
    assert_eq!(get_vacuum_stmt_by_seed(&mut rng), some("VACUUM;"));
    assert_eq!(rng.get_seed(), 77);
}

#[test]
fn pragma_statements_for_known_seeds() {
    let expected = [
        "PRAGMA stats;",
        "PRAGMA temp_store = DEFAULT;",
        "PRAGMA journal_mode = TRUNCATE;",
        "PRAGMA recursive_triggers = ON;",
        "PRAGMA page_count;",
        "PRAGMA encoding;",
        "PRAGMA index_list;",
        "PRAGMA legacy_file_format = OFF;",
        "PRAGMA wal_autocheckpoint = 2061;",
        "PRAGMA table_info;",
        "PRAGMA mmap_size = 25089;",
        "PRAGMA database_list;",
    ];
    let mut rng = LcgRng::new(1);
    for want in expected {
        assert_eq!(get_pragma_stmt_by_seed(&mut rng), some(want));
    }
    assert_eq!(rng.get_seed(), 3535774167);

    let expected = [
        "PRAGMA collation_list;",
        "PRAGMA locking_mode = NORMAL;",
        "PRAGMA wal_autocheckpoint = 2532;",
        "PRAGMA table_info;",
        "PRAGMA wal_autocheckpoint = 1791;",
        "PRAGMA table_info;",
        "PRAGMA mmap_size = 11213;",
        "PRAGMA foreign_keys = ON;",
        "PRAGMA case_sensitive_like = OFF;",
        "PRAGMA page_size = 14697;",
        "PRAGMA case_sensitive_like = ON;",
        "PRAGMA writable_schema = ON;",
    ];
    let mut rng = LcgRng::new(7);
    for want in expected {
        assert_eq!(get_pragma_stmt_by_seed(&mut rng), some(want));
    }
    assert_eq!(rng.get_seed(), 2164023760);
}

#[test]
fn pragma_numbers_stay_in_their_range() {
    let mut rng = LcgRng::new(99);
    for _ in 0..5000 {
        let stmt = get_pragma_stmt_by_seed(&mut rng).unwrap();
        if let Some(rest) = stmt.strip_prefix("PRAGMA cache_size = ") {
            let value: u64 = rest.trim_end_matches(';').parse().unwrap();
            assert!((100..=10000).contains(&value));
        }
        if let Some(rest) = stmt.strip_prefix("PRAGMA page_size = ") {
            let value: u64 = rest.trim_end_matches(';').parse().unwrap();
            assert!((512..=65536).contains(&value));
        }
    }
}

#[test]
fn triggers_are_created_on_keyed_tables_and_dropped_only_when_live() {
    let tables = key_tables(&mixed());
    let mut rng = LcgRng::new(1);
    let mut triggers = LiveTriggers::new();
    assert_eq!(
        gen_create_trigger_stmt(&tables, &mut rng, &mut triggers),
        some("CREATE TRIGGER trg_users_0 AFTER UPDATE ON users BEGIN SELECT NEW.id; END;")
    );
    assert_eq!(
        gen_create_trigger_stmt(&tables, &mut rng, &mut triggers),
        some("CREATE TRIGGER trg_users_1 AFTER UPDATE ON users BEGIN SELECT NEW.id; END;")
    );
    assert_eq!(triggers.len(), 2);
    assert_eq!(triggers.name_at(0), "trg_users_0");
    assert_eq!(triggers.name_at(1), "trg_users_1");
    assert_eq!(gen_drop_trigger_stmt(&mut rng, &mut triggers), some("DROP TRIGGER IF EXISTS trg_users_1;"));
    assert_eq!(
        gen_create_trigger_stmt(&tables, &mut rng, &mut triggers),
        some("CREATE TRIGGER trg_users_2 AFTER INSERT ON users BEGIN SELECT NEW.id; END;")
    );
    assert_eq!(gen_drop_trigger_stmt(&mut rng, &mut triggers), some("DROP TRIGGER IF EXISTS trg_users_2;"));
    assert_eq!(gen_drop_trigger_stmt(&mut rng, &mut triggers), some("DROP TRIGGER IF EXISTS trg_users_0;"));
    assert_eq!(rng.get_seed(), 3210001534);
    assert_eq!(gen_drop_trigger_stmt(&mut rng, &mut triggers), None);
    assert_eq!(rng.get_seed(), 3210001534);
    assert_eq!(triggers.len(), 0);
}

#[test]
fn live_triggers_never_share_a_name() {
    let tables = key_tables(&vec![
        table("a", &[("id", "INTEGER")]),
        table("a_1", &[("id", "INTEGER")]),
        table("b", &[("id", "INTEGER")]),
    ]);
    let mut rng = LcgRng::new(11);
    let mut triggers = LiveTriggers::new();
    for round in 0..400 {
        if round % 3 == 2 {
            gen_drop_trigger_stmt(&mut rng, &mut triggers);
        } else {
            gen_create_trigger_stmt(&tables, &mut rng, &mut triggers);
        }
        let mut names: Vec<String> = (0..triggers.len()).map(|i| triggers.name_at(i).to_string()).collect();
        let count = names.len();
        names.sort();
        names.dedup();
        assert_eq!(names.len(), count);
    }
    assert!(triggers.len() > 100);
}

#[test]
fn delete_event_reads_the_old_row() {
    let tables = key_tables(&mixed());
    let mut rng = LcgRng::new(5);
    let mut triggers = LiveTriggers::new();
    gen_create_trigger_stmt(&tables, &mut rng, &mut triggers);
    assert_eq!(
        gen_create_trigger_stmt(&tables, &mut rng, &mut triggers),
        some("CREATE TRIGGER trg_users_1 AFTER DELETE ON users BEGIN SELECT OLD.id; END;")
    );
}

#[test]
fn no_trigger_without_a_keyed_table() {
    let tables = key_tables(&vec![table("orders", &[("oid", "INTEGER")]), table("empty", &[])]);
    let mut rng = LcgRng::new(1);
    let mut triggers = LiveTriggers::new();
    assert_eq!(gen_create_trigger_stmt(&tables, &mut rng, &mut triggers), None);
    assert_eq!(rng.get_seed(), 1);
    assert_eq!(triggers.len(), 0);
}

#[test]
fn key_heuristic_is_a_column_named_id() {
    let cols = |names: &[&str]| -> Vec<(String, String)> {
        names.iter().map(|n| (n.to_string(), "INTEGER".to_string())).collect()
    };
    assert!(find_id_column(&cols(&["a", "id"])));
    assert!(find_id_column(&cols(&["id"])));
    assert!(!find_id_column(&cols(&["ID", "Id", "id_", "oid"])));
    assert!(!find_id_column(&cols(&[])));
    let keyed: Vec<TriggerTableWithColumns> = key_tables(&mixed());
    assert_eq!(keyed.iter().map(|t| t.has_primary_key).collect::<Vec<_>>(), vec![true, false, false]);
    assert_eq!(eligible_tables(&keyed), vec![0]);
    let named = name_tables(&mixed());
    assert_eq!(named[1].name, "orders");
    assert_eq!(named[1].columns, vec!["oid".to_string(), "note".to_string()]);
}

#[test]
fn dispatch_by_kind_and_engine() {
    let tables = mixed();
    let mut triggers = LiveTriggers::new();

    let mut rng = LcgRng::new(42);
    assert_eq!(
        gen_stmt(SqlKind::Select, DriverKind::Sqlite, &tables, &mut rng, &mut triggers),
        some("SELECT oid, note FROM orders;")
    );
    let mut rng = LcgRng::new(42);
    assert_eq!(
        gen_stmt(SqlKind::Insert, DriverKind::Limbo, &tables, &mut rng, &mut triggers),
        some("INSERT INTO orders (oid, note) VALUES (461, 'val856');")
    );
    let mut rng = LcgRng::new(42);
    assert_eq!(
        gen_stmt(SqlKind::Update, DriverKind::Sqlite, &tables, &mut rng, &mut triggers),
        some("UPDATE orders SET oid = 461, note = 'val856' WHERE 1=1;")
    );
    let mut rng = LcgRng::new(42);
    assert_eq!(
        gen_stmt(SqlKind::Delete, DriverKind::Sqlite, &tables, &mut rng, &mut triggers),
        some("DELETE FROM orders WHERE oid = 'val269';")
    );
    let mut rng = LcgRng::new(42);
    assert_eq!(
        gen_stmt(SqlKind::Upsert, DriverKind::Sqlite, &tables, &mut rng, &mut triggers),
        some("INSERT INTO orders (oid, note) VALUES (93, 'val677') ON CONFLICT(oid) DO UPDATE SET oid = 461, note = 'val856';")
    );
    let mut rng = LcgRng::new(1);
    assert_eq!(gen_stmt(SqlKind::Vacuum, DriverKind::Limbo, &tables, &mut rng, &mut triggers), some("VACUUM;"));
    assert_eq!(rng.get_seed(), 1);
    assert_eq!(
        gen_stmt(SqlKind::Pragma, DriverKind::Sqlite, &tables, &mut rng, &mut triggers),
        some("PRAGMA stats;")
    );
}

#[test]
fn limbo_gets_no_pragma_and_no_trigger() {
    let tables = mixed();
    let mut triggers = LiveTriggers::new();
    let mut rng = LcgRng::new(1);
    for kind in [SqlKind::Pragma, SqlKind::CreateTrigger, SqlKind::DropTrigger] {
        assert_eq!(gen_stmt(kind, DriverKind::Limbo, &tables, &mut rng, &mut triggers), None);
        assert_eq!(
            sqlsmith_rs::generators::limbo::get_stmt_by_seed(&tables, &mut rng, kind, &mut triggers),
            None
        );
        assert_eq!(get_stmt_by_seed(&mut rng, kind, DRIVER_KIND::LIMBO_IN_MEM, &tables, &mut triggers), None);
    }
    assert_eq!(rng.get_seed(), 1);
    assert_eq!(triggers.len(), 0);
    assert_eq!(
        get_stmt_by_seed(&mut rng, SqlKind::CreateTrigger, DRIVER_KIND::SQLITE_IN_MEM, &tables, &mut triggers),
        some("CREATE TRIGGER trg_users_0 AFTER UPDATE ON users BEGIN SELECT NEW.id; END;")
    );
    assert_eq!(
        sqlsmith_rs::generators::sqlite::get_stmt_by_seed(&tables, &mut rng, SqlKind::DropTrigger, &mut triggers),
        some("DROP TRIGGER IF EXISTS trg_users_0;")
    );
}

#[test]
fn kinds_are_named_and_found_by_name() {
    let kinds = [
        (SqlKind::Select, "Select"),
        (SqlKind::Insert, "Insert"),
        (SqlKind::Update, "Update"),
        (SqlKind::Delete, "Delete"),
        (SqlKind::Vacuum, "Vacuum"),
        (SqlKind::Pragma, "Pragma"),
        (SqlKind::CreateTrigger, "CreateTrigger"),
        (SqlKind::DropTrigger, "DropTrigger"),
        (SqlKind::Upsert, "Upsert"),
    ];
    for (kind, name) in kinds {
        assert_eq!(kind.name(), name);
        assert_eq!(format!("{:?}", kind), name);
        assert_eq!(SqlKind::from_name(name), Some(kind));
    }
    for name in ["", "select", "SELECT", "Select ", "DateFunc"] {
        assert_eq!(SqlKind::from_name(name), None);
    }
}

#[test]
fn sampling_takes_every_position_once() {
    let mut rng = LcgRng::new(3);
    for n in 0usize..40 {
        let order = shuffled_order(&mut rng, n);
        let mut sorted = order.clone();
        sorted.sort();
        assert_eq!(sorted, (0..n).collect::<Vec<_>>());
    }
    let mut rng = LcgRng::new(3);
    for n in 1usize..40 {
        let (count, order) = choose_columns(&mut rng, n);
        assert!(1 <= count && count <= n);
        assert_eq!(order.len(), n);
    }
}

#[test]
fn pick_index_is_the_draw_modulo_the_bound() {
    let mut rng = LcgRng::new(1);
    assert_eq!(pick_index(&mut rng, 1000), 16838 % 1000);
    assert_eq!(pick_index(&mut rng, 7), 5758 % 7);
    assert_eq!(pick_index(&mut rng, 1), 0);
}

#[test]
fn updated_columns_belong_to_the_table_and_literals_match_their_types() {
    let tables = mixed();
    let mut rng = LcgRng::new(4048);
    let mut seen = 0;
    for _ in 0..3000 {
        let Some(stmt) = gen_update_stmt(&tables, &mut rng) else { continue };
        seen += 1;
        let rest = stmt.strip_prefix("UPDATE ").unwrap();
        let (name, rest) = rest.split_once(" SET ").unwrap();
        let assignments = rest.strip_suffix(" WHERE 1=1;").unwrap();
        let table = tables.iter().find(|t| t.name == name).unwrap();
        let mut columns = Vec::new();
        for assignment in assignments.split(", ") {
            let (column, value) = assignment.split_once(" = ").unwrap();
            let declared = &table.columns.iter().find(|c| c.0 == column).unwrap().1;
            match declared.to_uppercase().as_str() {
                "INTEGER" => assert!(value.parse::<u32>().unwrap() < 1000),
                "REAL" => assert!(value.parse::<f64>().unwrap() <= 327.67),
                "TEXT" => assert!(value.starts_with("'val") && value.ends_with('\'')),
                "BLOB" => assert!(value.starts_with("X'") && value.ends_with('\'')),
                _ => assert_eq!(value, "NULL"),
            }
            columns.push(column);
        }
        let count = columns.len();
        columns.sort();
        columns.dedup();
        assert_eq!(columns.len(), count);
    }
    assert!(seen > 1000);
}

#[test]
fn inserted_columns_belong_to_the_table_and_literals_match_their_types() {
    let tables = mixed();
    let mut rng = LcgRng::new(2024);
    let mut seen = 0;
    for _ in 0..3000 {
        let Some(stmt) = gen_insert_stmt(&tables, &mut rng) else { continue };
        seen += 1;
        let rest = stmt.strip_prefix("INSERT INTO ").unwrap();
        let (name, rest) = rest.split_once(" (").unwrap();
        let (columns, rest) = rest.split_once(") VALUES (").unwrap();
        let values = rest.strip_suffix(");").unwrap();
        let table = tables.iter().find(|t| t.name == name).unwrap();
        let columns: Vec<&str> = columns.split(", ").collect();
        let values: Vec<&str> = values.split(", ").collect();
        assert_eq!(columns.len(), values.len());
        let mut distinct = columns.clone();
        distinct.sort();
        distinct.dedup();
        assert_eq!(distinct.len(), columns.len());
        for (column, value) in columns.iter().zip(values.iter()) {
            let declared = &table.columns.iter().find(|c| c.0 == *column).unwrap().1;
            match declared.to_uppercase().as_str() {
                "INTEGER" => assert!(value.parse::<u32>().unwrap() < 1000),
                "REAL" => assert!(value.parse::<f64>().unwrap() <= 327.67),
                "TEXT" => assert!(value.starts_with("'val") && value.ends_with('\'')),
                "BLOB" => assert!(value.starts_with("X'") && value.ends_with('\'')),
                _ => assert_eq!(*value, "NULL"),
            }
        }
    }
    assert!(seen > 1000);
}

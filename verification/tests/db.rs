use atlas_core::db::{SqlParam, SqlValue, SqliteConnection, MIGRATION_COUNT};

fn count(conn: &SqliteConnection, sql: &str, params: Vec<SqlParam>) -> i64 {
    let rows = conn.query("test query failed", sql, &params).unwrap();
    match rows[0][0] {
        SqlValue::Integer(n) => n,
        _ => panic!("not a count"),
    }
}

#[test]
fn all_expected_tables_exist_after_migrating() {
    let conn = SqliteConnection::open(":memory:");
    for table in [
        "workspaces",
        "events",
        "jobs",
        "documents",
        "chunks",
        "embeddings_metadata",
        "model_registry",
        "chat_sessions",
        "chat_messages",
        "annotations",
        "bookmarks",
        "learning_progress",
        "revision_history",
        "analytics",
        "settings",
    ] {
        let n = count(
            &conn,
            "SELECT count(*) FROM sqlite_master WHERE type = 'table' AND name = ?1",
            vec![SqlParam::Text(table.to_string())],
        );
        assert_eq!(n, 1, "expected table `{table}` to exist");
    }
}

#[test]
fn every_migration_is_recorded_once() {
    let conn = SqliteConnection::open(":memory:");
    assert_eq!(count(&conn, "SELECT count(*) FROM schema_migrations", vec![]), MIGRATION_COUNT as i64);
    assert_eq!(conn.database_path(), ":memory:");
}

#[test]
fn a_failing_statement_is_a_storage_error_named_by_its_context() {
    let conn = SqliteConnection::open(":memory:");
    let err = conn.execute("bad statement", "INSERT INTO no_such_table VALUES (1)", &vec![]).unwrap_err();
    assert!(err.message.starts_with("bad statement: "));
    assert_eq!(err.code, atlas_core::error::ErrorCode::StorageError);
}

#[test]
fn running_migrations_twice_is_a_no_op_the_second_time() {
    let conn = SqliteConnection::open(":memory:");
    conn.migrate().unwrap();
    assert_eq!(count(&conn, "SELECT count(*) FROM schema_migrations", vec![]), MIGRATION_COUNT as i64);
}

//! The SQLite connection every repository of the library shares, the plain
//! values that go into and come out of statements, and the column readers
//! that turn a result row into typed fields.
//!
//! What a statement returns depends on what the database file holds, so the
//! calls into `rusqlite` promise nothing about their results; everything the
//! library does with those results is stated and proved over the rows.
use std::rc::Rc;
use vstd::prelude::*;

use crate::error::AppError;
use crate::text::{push_str, string_from_chars};

verus! {

#[verifier::external_type_specification]
#[verifier::external_body]
pub struct ExSqliteConnection(rusqlite::Connection);

#[verifier::external_type_specification]
#[verifier::external_body]
pub struct ExSqliteValue(rusqlite::types::Value);

/// A value bound to a statement parameter.
#[derive(Debug, Clone)]
pub enum SqlParam {
    Null,
    Integer(i64),
    Text(String),
}

/// A statement parameter as a plain value.
pub ghost enum SqlParamView {
    Null,
    Integer(i64),
    Text(Seq<char>),
}

pub open spec fn param_view(p: SqlParam) -> SqlParamView {
    match p {
        SqlParam::Null => SqlParamView::Null,
        SqlParam::Integer(i) => SqlParamView::Integer(i),
        SqlParam::Text(t) => SqlParamView::Text(t@),
    }
}

/// The parameters of a statement as plain values.
pub open spec fn params_view(ps: Seq<SqlParam>) -> Seq<SqlParamView> {
    ps.map_values(|p: SqlParam| param_view(p))
}

/// `Text(t)`, or `Null` for no text.
pub open spec fn opt_text_view(t: Option<Seq<char>>) -> SqlParamView {
    match t {
        Some(x) => SqlParamView::Text(x),
        None => SqlParamView::Null,
    }
}

/// A value read from a result column. A floating-point column value is
/// reported as `Real` without its number, which the library never reads.
#[derive(Debug, Clone)]
pub enum SqlValue {
    Null,
    Integer(i64),
    Real,
    Text(String),
    Blob(Vec<u8>),
}

/// Converts statement parameters to `rusqlite::types::Value`, one for one
/// (`Null`, `Integer`, `Text`). Nothing is stated: the values only travel
/// on to `rusqlite`.
#[verifier::external_body]
fn param_values(params: &Vec<SqlParam>) -> Vec<rusqlite::types::Value> {
    params.iter().map(|p| match p {
        SqlParam::Null => rusqlite::types::Value::Null,
        SqlParam::Integer(i) => rusqlite::types::Value::Integer(*i),
        SqlParam::Text(s) => rusqlite::types::Value::Text(s.clone()),
    }).collect()
}

/// Converts a column value read by `rusqlite` to the library's own
/// `SqlValue`, one variant for one (a `REAL` keeps no number). Nothing is
/// stated: rows are only ever read through the decoders, which accept any
/// value.
#[verifier::external_body]
fn column_value(v: rusqlite::types::Value) -> SqlValue {
    match v {
        rusqlite::types::Value::Null => SqlValue::Null,
        rusqlite::types::Value::Integer(i) => SqlValue::Integer(i),
        rusqlite::types::Value::Real(_) => SqlValue::Real,
        rusqlite::types::Value::Text(s) => SqlValue::Text(s),
        rusqlite::types::Value::Blob(b) => SqlValue::Blob(b),
    }
}

/// `rusqlite::Connection::open`: opens or creates the database file at
/// `path` (`":memory:"` names a private in-memory database). Nothing is
/// stated of the outcome, which depends on the file system.
#[verifier::external_body]
fn sqlite_open(path: &str) -> (r: Result<rusqlite::Connection, String>) {
    rusqlite::Connection::open(path).map_err(|e| e.to_string())
}

/// `Connection::execute_batch`: runs a sequence of statements without
/// parameters. Nothing is stated of the outcome.
#[verifier::external_body]
fn sqlite_batch(conn: &rusqlite::Connection, sql: &str) -> (r: Result<(), String>) {
    conn.execute_batch(sql).map_err(|e| e.to_string())
}

/// `Connection::execute`: runs one statement with `params` bound to `?1`,
/// `?2`, ... and returns the number of rows it changed. Nothing is stated
/// of the outcome, which depends on what the database holds.
#[verifier::external_body]
fn sqlite_execute(conn: &rusqlite::Connection, sql: &str, params: &Vec<SqlParam>) -> (r: Result<
    usize,
    String,
>) {
    conn.execute(sql, rusqlite::params_from_iter(param_values(params))).map_err(|e| e.to_string())
}

/// `Connection::prepare` and `Statement::query_map`: runs one query with
/// `params` bound and returns every result row, each column read as a
/// `rusqlite::types::Value`. Nothing is stated of the rows, which depend on
/// what the database holds.
#[verifier::external_body]
fn sqlite_query(conn: &rusqlite::Connection, sql: &str, params: &Vec<SqlParam>) -> (r: Result<
    Vec<Vec<SqlValue>>,
    String,
>) {
    let mut stmt = conn.prepare(sql).map_err(|e| e.to_string())?;
    let n = stmt.column_count();
    let bound = rusqlite::params_from_iter(param_values(params));
    let rows = stmt.query_map(bound, |row| (0..n).map(|i| row.get(i).map(column_value)).collect());
    rows.and_then(|r| r.collect()).map_err(|e| e.to_string())
}

/// `Connection::last_insert_rowid`: the rowid of the latest successful
/// `INSERT` on this connection. Nothing is stated of its value.
#[verifier::external_body]
fn sqlite_last_insert_rowid(conn: &rusqlite::Connection) -> (r: i64) {
    conn.last_insert_rowid()
}

/// `"{context}: {detail}"`.
pub open spec fn storage_message(context: Seq<char>, detail: Seq<char>) -> Seq<char> {
    context + ": "@ + detail
}

/// A storage failure of the operation named by `context`.
pub open spec fn is_storage_error(e: AppError) -> bool {
    &&& e.code == crate::error::ErrorCode::StorageError
    &&& e.category == crate::error::ErrorCategory::SystemError
}

/// The storage error reported for `context` with `detail`.
pub fn storage_failure(context: &str, detail: &str) -> (e: AppError)
    ensures
        is_storage_error(e),
        e.message@ == storage_message(context@, detail@),
{
    let mut m: Vec<char> = Vec::new();
    push_str(&mut m, context);
    push_str(&mut m, ": ");
    push_str(&mut m, detail);
    AppError::storage(string_from_chars(m.as_slice()))
}

/// The shared handle to the application database. Clones share one
/// connection. A database that could not be opened or migrated keeps the
/// reason, and every statement on it fails with a storage error.
#[derive(Clone)]
pub struct SqliteConnection {
    database_path: String,
    handle: Option<Rc<rusqlite::Connection>>,
    open_error: String,
}

impl SqliteConnection {
    /// The path the connection was opened with.
    pub closed spec fn path(&self) -> Seq<char> {
        self.database_path@
    }

    /// The database was opened and its schema brought up to date.
    pub closed spec fn is_open(&self) -> bool {
        self.handle is Some
    }

    /// Why the database could not be opened, when it could not.
    pub closed spec fn open_failure(&self) -> Seq<char> {
        self.open_error@
    }

    /// The storage error every statement on this connection fails with
    /// when the database could not be opened, or any storage error of
    /// `context` when it was opened.
    pub open spec fn failed_as(&self, context: Seq<char>, e: AppError) -> bool {
        &&& is_storage_error(e)
        &&& exists|detail: Seq<char>| #[trigger] storage_message(context, detail) == e.message@
        &&& !self.is_open() ==> e.message@ == storage_message(context, self.open_failure())
    }

    /// Opens the database at `database_path` and brings its schema up to
    /// date.
    pub fn open(database_path: &str) -> (r: SqliteConnection)
        ensures
            r.path() == database_path@,
    {
        let (handle, open_error) = match sqlite_open(database_path) {
            Ok(conn) => match run_migrations(&conn) {
                Ok(()) => (Some(Rc::new(conn)), String::new()),
                Err(m) => (None, m),
            },
            Err(m) => (None, m),
        };
        SqliteConnection { database_path: database_path.to_owned(), handle, open_error }
    }

    /// The path the connection was opened with.
    pub fn database_path(&self) -> (r: &str)
        ensures
            r@ == self.path(),
    {
        self.database_path.as_str()
    }

    fn conn(&self, context: &str) -> (r: Result<&rusqlite::Connection, AppError>)
        ensures
            r is Ok == self.is_open(),
            r matches Err(e) ==> is_storage_error(e) && e.message@ == storage_message(context@, self.open_failure()),
    {
        match &self.handle {
            Some(c) => Ok(&**c),
            None => Err(storage_failure(context, self.open_error.as_str())),
        }
    }

    /// Applies every schema migration not yet applied to this database
    /// (opening already applied them all, so this normally does nothing).
    pub fn migrate(&self) -> (r: Result<(), AppError>)
        ensures
            r matches Err(e) ==> self.failed_as("schema migration failed"@, e),
            !self.is_open() ==> r is Err,
    {
        let conn = self.conn("schema migration failed")?;
        match run_migrations(conn) {
            Ok(()) => Ok(()),
            Err(m) => Err(storage_failure("schema migration failed", m.as_str())),
        }
    }

    /// Runs one statement; on failure, a storage error named by `context`.
    pub fn execute(&self, context: &str, sql: &str, params: &Vec<SqlParam>) -> (r: Result<
        usize,
        AppError,
    >)
        ensures
            r matches Err(e) ==> self.failed_as(context@, e),
            !self.is_open() ==> r is Err,
    {
        let conn = self.conn(context)?;
        match sqlite_execute(conn, sql, params) {
            Ok(n) => Ok(n),
            Err(m) => Err(storage_failure(context, m.as_str())),
        }
    }

    /// Runs one `INSERT` and returns the rowid it assigned.
    pub fn insert(&self, context: &str, sql: &str, params: &Vec<SqlParam>) -> (r: Result<
        i64,
        AppError,
    >)
        ensures
            r matches Err(e) ==> self.failed_as(context@, e),
            !self.is_open() ==> r is Err,
    {
        let conn = self.conn(context)?;
        match sqlite_execute(conn, sql, params) {
            Ok(_) => Ok(sqlite_last_insert_rowid(conn)),
            Err(m) => Err(storage_failure(context, m.as_str())),
        }
    }

    /// Runs one query and returns its rows.
    pub fn query(&self, context: &str, sql: &str, params: &Vec<SqlParam>) -> (r: Result<
        Vec<Vec<SqlValue>>,
        AppError,
    >)
        ensures
            r matches Err(e) ==> self.failed_as(context@, e),
            !self.is_open() ==> r is Err,
    {
        let conn = self.conn(context)?;
        match sqlite_query(conn, sql, params) {
            Ok(rows) => Ok(rows),
            Err(m) => Err(storage_failure(context, m.as_str())),
        }
    }
}

/// A statement parameter list of one value.
pub(crate) fn one_param(p: SqlParam) -> (r: Vec<SqlParam>)
    ensures
        r@ == seq![p],
{
    let mut v: Vec<SqlParam> = Vec::new();
    v.push(p);
    assert(v@ =~= seq![p]);
    v
}

/// A text parameter holding `s`.
pub(crate) fn text_param(s: &String) -> (r: SqlParam)
    ensures
        r matches SqlParam::Text(t) && t@ == s@,
{
    SqlParam::Text(s.clone())
}

/// A text parameter holding `s`, or `NULL`.
pub(crate) fn opt_text_param(s: &Option<String>) -> (r: SqlParam)
    ensures
        match s {
            Some(t) => r matches SqlParam::Text(u) && u@ == t@,
            None => r is Null,
        },
{
    match s {
        Some(t) => SqlParam::Text(t.clone()),
        None => SqlParam::Null,
    }
}

// ---------------------------------------------------------------------
// Schema
// ---------------------------------------------------------------------

/// The number of schema migrations.
pub const MIGRATION_COUNT: usize = 18;

const SCHEMA_STEP_0_ID: &'static str = "0001_create_workspaces";

const SCHEMA_STEP_0_SQL: &'static str = "CREATE TABLE IF NOT EXISTS workspaces (
                id INTEGER PRIMARY KEY AUTOINCREMENT, root_path TEXT NOT NULL UNIQUE,
                display_name TEXT NOT NULL, status TEXT NOT NULL, created_at TEXT NOT NULL,
                last_indexed_at TEXT);
            CREATE INDEX IF NOT EXISTS idx_workspaces_status ON workspaces(status);";

const SCHEMA_STEP_1_ID: &'static str = "0002_create_events";

const SCHEMA_STEP_1_SQL: &'static str = "CREATE TABLE IF NOT EXISTS events (
                id INTEGER PRIMARY KEY AUTOINCREMENT, event_type TEXT NOT NULL,
                payload TEXT NOT NULL, occurred_at TEXT NOT NULL);
            CREATE INDEX IF NOT EXISTS idx_events_type ON events(event_type);
            CREATE INDEX IF NOT EXISTS idx_events_occurred_at ON events(occurred_at);";

const SCHEMA_STEP_2_ID: &'static str = "0003_create_jobs";

const SCHEMA_STEP_2_SQL: &'static str = "CREATE TABLE IF NOT EXISTS jobs (
                id INTEGER PRIMARY KEY AUTOINCREMENT, job_type TEXT NOT NULL,
                payload TEXT NOT NULL, status TEXT NOT NULL, priority INTEGER NOT NULL,
                retry_count INTEGER NOT NULL, max_retries INTEGER NOT NULL,
                created_at TEXT NOT NULL, started_at TEXT, completed_at TEXT, error TEXT);
            CREATE INDEX IF NOT EXISTS idx_jobs_status ON jobs(status);
            CREATE INDEX IF NOT EXISTS idx_jobs_status_priority ON jobs(status, priority);
            CREATE INDEX IF NOT EXISTS idx_jobs_job_type ON jobs(job_type);";

const SCHEMA_STEP_3_ID: &'static str = "0004_create_documents";

const SCHEMA_STEP_3_SQL: &'static str = "CREATE TABLE IF NOT EXISTS documents (
                id INTEGER PRIMARY KEY AUTOINCREMENT, workspace_id INTEGER NOT NULL,
                relative_path TEXT NOT NULL, content_hash TEXT NOT NULL, file_type TEXT NOT NULL,
                size INTEGER NOT NULL, mtime TEXT NOT NULL, parse_status TEXT NOT NULL,
                last_indexed_hash TEXT, UNIQUE(workspace_id, relative_path));
            CREATE INDEX IF NOT EXISTS idx_documents_workspace ON documents(workspace_id);
            CREATE INDEX IF NOT EXISTS idx_documents_parse_status ON documents(parse_status);";

const SCHEMA_STEP_4_ID: &'static str = "0005_create_chunks";

const SCHEMA_STEP_4_SQL: &'static str = "CREATE TABLE IF NOT EXISTS chunks (
                id INTEGER PRIMARY KEY AUTOINCREMENT, document_id INTEGER NOT NULL,
                sequence_index INTEGER NOT NULL, text_content TEXT NOT NULL,
                page_or_location_ref TEXT NOT NULL, token_count INTEGER NOT NULL,
                parser_version TEXT NOT NULL);
            CREATE INDEX IF NOT EXISTS idx_chunks_document ON chunks(document_id);";

const SCHEMA_STEP_5_ID: &'static str = "0006_create_embeddings_metadata";

const SCHEMA_STEP_5_SQL: &'static str = "CREATE TABLE IF NOT EXISTS embeddings_metadata (
                chunk_id INTEGER PRIMARY KEY, vector_db_collection TEXT NOT NULL,
                vector_id TEXT NOT NULL, embedding_provider_id TEXT NOT NULL,
                created_at TEXT NOT NULL);
            CREATE INDEX IF NOT EXISTS idx_embeddings_collection ON embeddings_metadata(vector_db_collection);";

const SCHEMA_STEP_6_ID: &'static str = "0007_create_model_registry";

const SCHEMA_STEP_6_SQL: &'static str = "CREATE TABLE IF NOT EXISTS model_registry (
                id INTEGER PRIMARY KEY AUTOINCREMENT, model_identifier TEXT NOT NULL,
                engine_role TEXT NOT NULL, capabilities TEXT NOT NULL,
                context_length INTEGER NOT NULL, vram_requirement INTEGER, status TEXT NOT NULL,
                version TEXT NOT NULL, supported_tasks TEXT NOT NULL,
                is_selected_for_role INTEGER NOT NULL);
            CREATE INDEX IF NOT EXISTS idx_model_registry_role ON model_registry(engine_role);
            CREATE INDEX IF NOT EXISTS idx_model_registry_status ON model_registry(status);";

const SCHEMA_STEP_7_ID: &'static str = "0008_create_chat_sessions";

const SCHEMA_STEP_7_SQL: &'static str = "CREATE TABLE IF NOT EXISTS chat_sessions (
                id INTEGER PRIMARY KEY AUTOINCREMENT, workspace_id INTEGER NOT NULL,
                document_id INTEGER, title TEXT NOT NULL, mode TEXT NOT NULL,
                created_at TEXT NOT NULL, updated_at TEXT NOT NULL);
            CREATE INDEX IF NOT EXISTS idx_chat_sessions_workspace ON chat_sessions(workspace_id);
            CREATE INDEX IF NOT EXISTS idx_chat_sessions_document ON chat_sessions(document_id);";

const SCHEMA_STEP_8_ID: &'static str = "0009_create_chat_messages";

const SCHEMA_STEP_8_SQL: &'static str = "CREATE TABLE IF NOT EXISTS chat_messages (
                id INTEGER PRIMARY KEY AUTOINCREMENT, session_id INTEGER NOT NULL,
                role TEXT NOT NULL, content TEXT NOT NULL, engine_pipeline_used TEXT,
                created_at TEXT NOT NULL);
            CREATE INDEX IF NOT EXISTS idx_chat_messages_session ON chat_messages(session_id);
            CREATE INDEX IF NOT EXISTS idx_chat_messages_session_created ON chat_messages(session_id, created_at);";

const SCHEMA_STEP_9_ID: &'static str = "0010_create_annotations";

const SCHEMA_STEP_9_SQL: &'static str = "CREATE TABLE IF NOT EXISTS annotations (
                id INTEGER PRIMARY KEY AUTOINCREMENT, document_id INTEGER NOT NULL,
                location_ref TEXT NOT NULL, content TEXT NOT NULL, created_at TEXT NOT NULL,
                updated_at TEXT NOT NULL);
            CREATE INDEX IF NOT EXISTS idx_annotations_document ON annotations(document_id);";

const SCHEMA_STEP_10_ID: &'static str = "0011_create_bookmarks";

const SCHEMA_STEP_10_SQL: &'static str = "CREATE TABLE IF NOT EXISTS bookmarks (
                id INTEGER PRIMARY KEY AUTOINCREMENT, document_id INTEGER NOT NULL,
                location_ref TEXT NOT NULL, label TEXT NOT NULL, created_at TEXT NOT NULL);
            CREATE INDEX IF NOT EXISTS idx_bookmarks_document ON bookmarks(document_id);";

const SCHEMA_STEP_11_ID: &'static str = "0012_create_learning_progress";

const SCHEMA_STEP_11_SQL: &'static str = "CREATE TABLE IF NOT EXISTS learning_progress (
                concept_node_id INTEGER PRIMARY KEY, mastery_score REAL NOT NULL,
                weakness_score REAL NOT NULL, last_reviewed_at TEXT,
                attempt_count INTEGER NOT NULL);";

const SCHEMA_STEP_12_ID: &'static str = "0013_create_revision_history";

const SCHEMA_STEP_12_SQL: &'static str = "CREATE TABLE IF NOT EXISTS revision_history (
                id INTEGER PRIMARY KEY AUTOINCREMENT, concept_node_id INTEGER NOT NULL,
                scheduled_at TEXT NOT NULL, completed_at TEXT, outcome TEXT,
                created_at TEXT NOT NULL);
            CREATE INDEX IF NOT EXISTS idx_revision_history_concept ON revision_history(concept_node_id);
            CREATE INDEX IF NOT EXISTS idx_revision_history_scheduled ON revision_history(scheduled_at);";

const SCHEMA_STEP_13_ID: &'static str = "0014_create_analytics";

const SCHEMA_STEP_13_SQL: &'static str = "CREATE TABLE IF NOT EXISTS analytics (
                id INTEGER PRIMARY KEY AUTOINCREMENT, workspace_id INTEGER NOT NULL,
                metric_key TEXT NOT NULL, metric_value REAL NOT NULL, computed_at TEXT NOT NULL,
                period TEXT NOT NULL, UNIQUE(workspace_id, metric_key, period));
            CREATE INDEX IF NOT EXISTS idx_analytics_workspace_metric_period ON analytics(workspace_id, metric_key, period);";

const SCHEMA_STEP_14_ID: &'static str = "0015_create_settings";

const SCHEMA_STEP_14_SQL: &'static str = "CREATE TABLE IF NOT EXISTS settings (
                id INTEGER PRIMARY KEY AUTOINCREMENT, key TEXT NOT NULL, value TEXT NOT NULL,
                value_type TEXT NOT NULL, scope TEXT NOT NULL, workspace_id INTEGER,
                updated_at TEXT NOT NULL, UNIQUE(key, scope, workspace_id));
            CREATE INDEX IF NOT EXISTS idx_settings_key_scope ON settings(key, scope, workspace_id);";

const SCHEMA_STEP_15_ID: &'static str = "0016_create_concept_graph";

const SCHEMA_STEP_15_SQL: &'static str = "CREATE TABLE IF NOT EXISTS concept_nodes (
                id INTEGER PRIMARY KEY AUTOINCREMENT, workspace_id INTEGER NOT NULL,
                label TEXT NOT NULL, description TEXT, created_at TEXT NOT NULL);
            CREATE INDEX IF NOT EXISTS idx_concept_nodes_workspace ON concept_nodes(workspace_id);
            CREATE INDEX IF NOT EXISTS idx_concept_nodes_label ON concept_nodes(label);
            CREATE TABLE IF NOT EXISTS concept_edges (
                id INTEGER PRIMARY KEY AUTOINCREMENT, from_node_id INTEGER NOT NULL,
                to_node_id INTEGER NOT NULL, relation_type TEXT NOT NULL, weight REAL NOT NULL);
            CREATE INDEX IF NOT EXISTS idx_concept_edges_from ON concept_edges(from_node_id);
            CREATE INDEX IF NOT EXISTS idx_concept_edges_to ON concept_edges(to_node_id);";

const SCHEMA_STEP_16_ID: &'static str = "0017_create_concept_node_sources";

const SCHEMA_STEP_16_SQL: &'static str = "CREATE TABLE IF NOT EXISTS concept_node_sources (
                node_id INTEGER NOT NULL, document_id INTEGER NOT NULL,
                PRIMARY KEY (node_id, document_id));
            CREATE INDEX IF NOT EXISTS idx_concept_node_sources_node ON concept_node_sources(node_id);
            CREATE INDEX IF NOT EXISTS idx_concept_node_sources_document ON concept_node_sources(document_id);";

const SCHEMA_STEP_17_ID: &'static str = "0018_create_study_records";

const SCHEMA_STEP_17_SQL: &'static str = "CREATE TABLE IF NOT EXISTS quizzes (
                id INTEGER PRIMARY KEY AUTOINCREMENT, workspace_id INTEGER NOT NULL,
                document_id INTEGER, topic TEXT NOT NULL, questions_json TEXT NOT NULL,
                created_at TEXT NOT NULL);
            CREATE INDEX IF NOT EXISTS idx_quizzes_workspace ON quizzes(workspace_id);
            CREATE INDEX IF NOT EXISTS idx_quizzes_document ON quizzes(document_id);
            CREATE TABLE IF NOT EXISTS flashcard_sets (
                id INTEGER PRIMARY KEY AUTOINCREMENT, workspace_id INTEGER NOT NULL,
                document_id INTEGER, topic TEXT NOT NULL, cards_json TEXT NOT NULL,
                created_at TEXT NOT NULL);
            CREATE INDEX IF NOT EXISTS idx_flashcard_sets_workspace ON flashcard_sets(workspace_id);
            CREATE TABLE IF NOT EXISTS revision_plans (
                id INTEGER PRIMARY KEY AUTOINCREMENT, workspace_id INTEGER NOT NULL,
                items_json TEXT NOT NULL, created_at TEXT NOT NULL);
            CREATE INDEX IF NOT EXISTS idx_revision_plans_workspace ON revision_plans(workspace_id);
            CREATE TABLE IF NOT EXISTS quiz_topic_stats (
                workspace_id INTEGER NOT NULL, topic TEXT NOT NULL,
                correct_count INTEGER NOT NULL, incorrect_count INTEGER NOT NULL,
                updated_at TEXT NOT NULL, PRIMARY KEY (workspace_id, topic));";

/// Migration `i`: its stable identifier and the statements it runs.
spec fn schema_step(i: int) -> (&'static str, &'static str) {
    if i == 0 {
        (SCHEMA_STEP_0_ID, SCHEMA_STEP_0_SQL)
    } else if i == 1 {
        (SCHEMA_STEP_1_ID, SCHEMA_STEP_1_SQL)
    } else if i == 2 {
        (SCHEMA_STEP_2_ID, SCHEMA_STEP_2_SQL)
    } else if i == 3 {
        (SCHEMA_STEP_3_ID, SCHEMA_STEP_3_SQL)
    } else if i == 4 {
        (SCHEMA_STEP_4_ID, SCHEMA_STEP_4_SQL)
    } else if i == 5 {
        (SCHEMA_STEP_5_ID, SCHEMA_STEP_5_SQL)
    } else if i == 6 {
        (SCHEMA_STEP_6_ID, SCHEMA_STEP_6_SQL)
    } else if i == 7 {
        (SCHEMA_STEP_7_ID, SCHEMA_STEP_7_SQL)
    } else if i == 8 {
        (SCHEMA_STEP_8_ID, SCHEMA_STEP_8_SQL)
    } else if i == 9 {
        (SCHEMA_STEP_9_ID, SCHEMA_STEP_9_SQL)
    } else if i == 10 {
        (SCHEMA_STEP_10_ID, SCHEMA_STEP_10_SQL)
    } else if i == 11 {
        (SCHEMA_STEP_11_ID, SCHEMA_STEP_11_SQL)
    } else if i == 12 {
        (SCHEMA_STEP_12_ID, SCHEMA_STEP_12_SQL)
    } else if i == 13 {
        (SCHEMA_STEP_13_ID, SCHEMA_STEP_13_SQL)
    } else if i == 14 {
        (SCHEMA_STEP_14_ID, SCHEMA_STEP_14_SQL)
    } else if i == 15 {
        (SCHEMA_STEP_15_ID, SCHEMA_STEP_15_SQL)
    } else if i == 16 {
        (SCHEMA_STEP_16_ID, SCHEMA_STEP_16_SQL)
    } else {
        (SCHEMA_STEP_17_ID, SCHEMA_STEP_17_SQL)
    }
}

fn migration(i: usize) -> (r: (&'static str, &'static str))
    requires
        i < MIGRATION_COUNT,
    ensures
        r == schema_step(i as int),
{
    match i {
        0 => (SCHEMA_STEP_0_ID, SCHEMA_STEP_0_SQL),
        1 => (SCHEMA_STEP_1_ID, SCHEMA_STEP_1_SQL),
        2 => (SCHEMA_STEP_2_ID, SCHEMA_STEP_2_SQL),
        3 => (SCHEMA_STEP_3_ID, SCHEMA_STEP_3_SQL),
        4 => (SCHEMA_STEP_4_ID, SCHEMA_STEP_4_SQL),
        5 => (SCHEMA_STEP_5_ID, SCHEMA_STEP_5_SQL),
        6 => (SCHEMA_STEP_6_ID, SCHEMA_STEP_6_SQL),
        7 => (SCHEMA_STEP_7_ID, SCHEMA_STEP_7_SQL),
        8 => (SCHEMA_STEP_8_ID, SCHEMA_STEP_8_SQL),
        9 => (SCHEMA_STEP_9_ID, SCHEMA_STEP_9_SQL),
        10 => (SCHEMA_STEP_10_ID, SCHEMA_STEP_10_SQL),
        11 => (SCHEMA_STEP_11_ID, SCHEMA_STEP_11_SQL),
        12 => (SCHEMA_STEP_12_ID, SCHEMA_STEP_12_SQL),
        13 => (SCHEMA_STEP_13_ID, SCHEMA_STEP_13_SQL),
        14 => (SCHEMA_STEP_14_ID, SCHEMA_STEP_14_SQL),
        15 => (SCHEMA_STEP_15_ID, SCHEMA_STEP_15_SQL),
        16 => (SCHEMA_STEP_16_ID, SCHEMA_STEP_16_SQL),
        _ => (SCHEMA_STEP_17_ID, SCHEMA_STEP_17_SQL),
    }
}

/// Whether the result of `SELECT EXISTS(...)` says the row exists.
pub open spec fn exists_flag(rows: Seq<Vec<SqlValue>>) -> Option<bool> {
    if rows.len() == 1 && rows[0]@.len() == 1 {
        match rows[0]@[0] {
            SqlValue::Integer(n) => Some(n != 0),
            _ => None,
        }
    } else {
        None
    }
}

fn read_exists_flag(rows: &Vec<Vec<SqlValue>>) -> (r: Option<bool>)
    ensures
        r == exists_flag(rows@),
{
    if rows.len() == 1 && rows[0].len() == 1 {
        match &rows[0][0] {
            SqlValue::Integer(n) => Some(*n != 0),
            _ => None,
        }
    } else {
        None
    }
}

/// Applies, in order, every migration not yet recorded in
/// `schema_migrations`, recording each one as it is applied, so that
/// re-opening a database never applies a migration twice.
fn run_migrations(conn: &rusqlite::Connection) -> (r: Result<(), String>) {
    sqlite_batch(
        conn,
        "CREATE TABLE IF NOT EXISTS schema_migrations (
            id TEXT PRIMARY KEY,
            applied_at TEXT NOT NULL DEFAULT (strftime('%Y-%m-%dT%H:%M:%SZ', 'now')));",
    )?;
    let mut i: usize = 0;
    while i < MIGRATION_COUNT
        decreases MIGRATION_COUNT - i,
    {
        let (id, sql) = migration(i);
        let mut params: Vec<SqlParam> = Vec::new();
        params.push(SqlParam::Text(id.to_owned()));
        let rows = sqlite_query(
            conn,
            "SELECT EXISTS(SELECT 1 FROM schema_migrations WHERE id = ?1)",
            &params,
        )?;
        match read_exists_flag(&rows) {
            Some(true) => {},
            Some(false) => {
                sqlite_batch(conn, sql)?;
                sqlite_execute(conn, "INSERT INTO schema_migrations (id) VALUES (?1)", &params)?;
            },
            None => {
                return Err("unexpected result from schema_migrations".to_owned());
            },
        }
        i = i + 1;
    }
    Ok(())
}

// ---------------------------------------------------------------------
// Reading columns
// ---------------------------------------------------------------------

/// Column `i` read as an integer (`NULL` and other types are refused).
pub open spec fn int_at(row: Seq<SqlValue>, i: int) -> Option<i64> {
    if 0 <= i < row.len() {
        match row[i] {
            SqlValue::Integer(n) => Some(n),
            _ => None,
        }
    } else {
        None
    }
}

/// Column `i` read as text (`NULL` and other types are refused).
pub open spec fn text_at(row: Seq<SqlValue>, i: int) -> Option<Seq<char>> {
    if 0 <= i < row.len() {
        match row[i] {
            SqlValue::Text(s) => Some(s@),
            _ => None,
        }
    } else {
        None
    }
}

/// Column `i` read as a nullable integer.
pub open spec fn opt_int_at(row: Seq<SqlValue>, i: int) -> Option<Option<i64>> {
    if 0 <= i < row.len() {
        match row[i] {
            SqlValue::Null => Some(None),
            SqlValue::Integer(n) => Some(Some(n)),
            _ => None,
        }
    } else {
        None
    }
}

/// Column `i` read as nullable text.
pub open spec fn opt_text_at(row: Seq<SqlValue>, i: int) -> Option<Option<Seq<char>>> {
    if 0 <= i < row.len() {
        match row[i] {
            SqlValue::Null => Some(None),
            SqlValue::Text(s) => Some(Some(s@)),
            _ => None,
        }
    } else {
        None
    }
}

/// Column `i` read as an integer that fits `u32`.
pub open spec fn u32_at(row: Seq<SqlValue>, i: int) -> Option<u32> {
    match int_at(row, i) {
        Some(n) => if 0 <= n <= u32::MAX {
            Some(n as u32)
        } else {
            None
        },
        None => None,
    }
}

pub fn read_int(row: &Vec<SqlValue>, i: usize) -> (r: Option<i64>)
    ensures
        r == int_at(row@, i as int),
{
    if i < row.len() {
        match &row[i] {
            SqlValue::Integer(n) => Some(*n),
            _ => None,
        }
    } else {
        None
    }
}

pub fn read_text(row: &Vec<SqlValue>, i: usize) -> (r: Option<String>)
    ensures
        match r {
            Some(s) => text_at(row@, i as int) == Some(s@),
            None => text_at(row@, i as int) is None,
        },
{
    if i < row.len() {
        match &row[i] {
            SqlValue::Text(s) => Some(s.clone()),
            _ => None,
        }
    } else {
        None
    }
}

pub fn read_opt_int(row: &Vec<SqlValue>, i: usize) -> (r: Option<Option<i64>>)
    ensures
        r == opt_int_at(row@, i as int),
{
    if i < row.len() {
        match &row[i] {
            SqlValue::Null => Some(None),
            SqlValue::Integer(n) => Some(Some(*n)),
            _ => None,
        }
    } else {
        None
    }
}

pub fn read_opt_text(row: &Vec<SqlValue>, i: usize) -> (r: Option<Option<String>>)
    ensures
        match r {
            Some(Some(s)) => opt_text_at(row@, i as int) == Some(Some(s@)),
            Some(None) => opt_text_at(row@, i as int) == Some(None::<Seq<char>>),
            None => opt_text_at(row@, i as int) is None,
        },
{
    if i < row.len() {
        match &row[i] {
            SqlValue::Null => Some(None),
            SqlValue::Text(s) => Some(Some(s.clone())),
            _ => None,
        }
    } else {
        None
    }
}

pub fn read_u32(row: &Vec<SqlValue>, i: usize) -> (r: Option<u32>)
    ensures
        r == u32_at(row@, i as int),
{
    match read_int(row, i) {
        Some(n) => if 0 <= n && n <= 4294967295 {
            Some(n as u32)
        } else {
            None
        },
        None => None,
    }
}

/// `"{what} row read failed: a column holds a value of an unexpected type"`.
pub open spec fn row_error_message(what: Seq<char>) -> Seq<char> {
    what + " row read failed: a column holds a value of an unexpected type"@
}

/// The storage error for a row of `what` that cannot be read.
pub fn row_error(what: &str) -> (e: AppError)
    ensures
        is_storage_error(e),
        e.message@ == row_error_message(what@),
{
    let mut m: Vec<char> = Vec::new();
    push_str(&mut m, what);
    push_str(&mut m, " row read failed: a column holds a value of an unexpected type");
    AppError::storage(string_from_chars(m.as_slice()))
}

/// The rows of a query decoded one by one with `g`: every decoded value,
/// or the message of the first row that `g` refuses.
pub open spec fn all_decoded<T>(
    rows: Seq<Vec<SqlValue>>,
    g: spec_fn(Vec<SqlValue>) -> Result<T, Seq<char>>,
) -> Result<Seq<T>, Seq<char>>
    decreases rows.len(),
{
    if rows.len() == 0 {
        Ok(Seq::empty())
    } else {
        match all_decoded(rows.drop_last(), g) {
            Err(m) => Err(m),
            Ok(init) => match g(rows.last()) {
                Ok(t) => Ok(init.push(t)),
                Err(m) => Err(m),
            },
        }
    }
}

/// `v` is what `g` decodes from some result rows.
pub open spec fn decoded_from_rows<T>(v: Seq<T>, g: spec_fn(Vec<SqlValue>) -> Result<T, Seq<char>>) -> bool {
    exists|rows: Seq<Vec<SqlValue>>| #[trigger] all_decoded(rows, g) == Ok::<Seq<T>, Seq<char>>(v)
}

proof fn lemma_all_decoded_extend_err<T>(
    rows: Seq<Vec<SqlValue>>,
    g: spec_fn(Vec<SqlValue>) -> Result<T, Seq<char>>,
    n: int,
    m: Seq<char>,
)
    requires
        0 <= n <= rows.len(),
        all_decoded(rows.take(n), g) == Err::<Seq<T>, Seq<char>>(m),
    ensures
        all_decoded(rows, g) == Err::<Seq<T>, Seq<char>>(m),
    decreases rows.len() - n,
{
    if n == rows.len() {
        assert(rows.take(n) =~= rows);
    } else {
        assert(rows.take(n + 1).drop_last() =~= rows.take(n));
        lemma_all_decoded_extend_err(rows, g, n + 1, m);
    }
}

/// Decodes every row with `f`, stopping at the first row it refuses.
pub fn decode_all<T: View>(
    rows: &Vec<Vec<SqlValue>>,
    f: impl Fn(&Vec<SqlValue>) -> Result<T, AppError>,
    Ghost(g): Ghost<spec_fn(Vec<SqlValue>) -> Result<T::V, Seq<char>>>,
) -> (r: Result<Vec<T>, AppError>)
    requires
        forall|x: &Vec<SqlValue>| #[trigger] f.requires((x,)),
        forall|x: &Vec<SqlValue>, o: Result<T, AppError>|
            f.ensures((x,), o) ==> match o {
                Ok(t) => g(*x) == Ok::<T::V, Seq<char>>(t@),
                Err(e) => g(*x) == Err::<T::V, Seq<char>>(e.message@) && is_storage_error(e),
            },
    ensures
        match r {
            Ok(v) => all_decoded(rows@, g) == Ok::<Seq<T::V>, Seq<char>>(crate::records::views(v@)),
            Err(e) => all_decoded(rows@, g) == Err::<Seq<T::V>, Seq<char>>(e.message@)
                && is_storage_error(e),
        },
{
    let mut out: Vec<T> = Vec::new();
    let mut i: usize = 0;
    assert(rows@.take(0) =~= Seq::<Vec<SqlValue>>::empty());
    assert(crate::records::views(out@) =~= Seq::<T::V>::empty());
    while i < rows.len()
        invariant
            i <= rows.len(),
            forall|x: &Vec<SqlValue>| #[trigger] f.requires((x,)),
            forall|x: &Vec<SqlValue>, o: Result<T, AppError>|
                f.ensures((x,), o) ==> match o {
                    Ok(t) => g(*x) == Ok::<T::V, Seq<char>>(t@),
                    Err(e) => g(*x) == Err::<T::V, Seq<char>>(e.message@) && is_storage_error(e),
                },
            all_decoded(rows@.take(i as int), g) == Ok::<Seq<T::V>, Seq<char>>(
                crate::records::views(out@),
            ),
        decreases rows.len() - i,
    {
        assert(rows@.take(i + 1).drop_last() =~= rows@.take(i as int));
        assert(rows@.take(i + 1).last() == rows@[i as int]);
        match f(&rows[i]) {
            Ok(t) => {
                let ghost old_out = out@;
                let ghost tv = t@;
                out.push(t);
                assert(crate::records::views(out@) =~= crate::records::views(old_out).push(tv));
            },
            Err(e) => {
                proof {
                    lemma_all_decoded_extend_err(rows@, g, i + 1, e.message@);
                }
                return Err(e);
            },
        }
        i = i + 1;
    }
    assert(rows@.take(rows.len() as int) =~= rows@);
    Ok(out)
}

} // verus!

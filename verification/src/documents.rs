//! Indexed documents and their text chunks, and their SQLite tables.
use vstd::prelude::*;

use crate::db::{
    opt_text_view, params_view, SqlParamView,
    decode_all, decoded_from_rows, int_at, is_storage_error, one_param, opt_text_at, opt_text_param, read_int, read_opt_text, read_text, row_error, row_error_message, text_at, text_param, SqlParam, SqlValue, SqliteConnection,
};
use crate::error::AppError;
use crate::ids::{ChunkId, DocumentId, WorkspaceId};
use crate::records::{opt_string_view, views, Record};
use crate::text::{
    chars_end_with, chars_of, ends_with, lowercase_of, push_str, str_eq, string_from_chars, to_lowercase,
};

verus! {

/// Where a document is in the parsing pipeline.
#[derive(Debug, Clone, Copy, PartialEq, Eq, Structural)]
pub enum ParseStatus {
    Pending,
    Parsing,
    Parsed,
    ParsedEmpty,
    Failed,
}

/// One file of a workspace as the index knows it.
#[derive(Debug, Clone)]
pub struct DocumentRecord {
    pub id: DocumentId,
    pub workspace_id: WorkspaceId,
    pub relative_path: String,
    pub content_hash: String,
    pub file_type: String,
    pub size: u64,
    pub mtime: String,
    pub parse_status: ParseStatus,
    pub last_indexed_hash: Option<String>,
}

pub ghost struct DocumentRecordView {
    pub id: DocumentId,
    pub workspace_id: WorkspaceId,
    pub relative_path: Seq<char>,
    pub content_hash: Seq<char>,
    pub file_type: Seq<char>,
    pub size: u64,
    pub mtime: Seq<char>,
    pub parse_status: ParseStatus,
    pub last_indexed_hash: Option<Seq<char>>,
}

impl View for DocumentRecord {
    type V = DocumentRecordView;

    open spec fn view(&self) -> DocumentRecordView {
        DocumentRecordView {
            id: self.id,
            workspace_id: self.workspace_id,
            relative_path: self.relative_path@,
            content_hash: self.content_hash@,
            file_type: self.file_type@,
            size: self.size,
            mtime: self.mtime@,
            parse_status: self.parse_status,
            last_indexed_hash: opt_string_view(self.last_indexed_hash),
        }
    }
}

/// A span of a document's text, the unit of retrieval.
#[derive(Debug, Clone)]
pub struct Chunk {
    pub id: ChunkId,
    pub document_id: DocumentId,
    pub sequence_index: u32,
    pub text_content: String,
    pub page_or_location_ref: String,
    pub token_count: u32,
    pub parser_version: String,
}

pub ghost struct ChunkView {
    pub id: ChunkId,
    pub document_id: DocumentId,
    pub sequence_index: u32,
    pub text_content: Seq<char>,
    pub page_or_location_ref: Seq<char>,
    pub token_count: u32,
    pub parser_version: Seq<char>,
}

impl View for Chunk {
    type V = ChunkView;

    open spec fn view(&self) -> ChunkView {
        ChunkView {
            id: self.id,
            document_id: self.document_id,
            sequence_index: self.sequence_index,
            text_content: self.text_content@,
            page_or_location_ref: self.page_or_location_ref@,
            token_count: self.token_count,
            parser_version: self.parser_version@,
        }
    }
}

impl Record for Chunk {
    fn duplicate(&self) -> (r: Self) {
        Chunk {
            id: self.id,
            document_id: self.document_id,
            sequence_index: self.sequence_index,
            text_content: self.text_content.clone(),
            page_or_location_ref: self.page_or_location_ref.clone(),
            token_count: self.token_count,
            parser_version: self.parser_version.clone(),
        }
    }
}

pub open spec fn status_name(s: ParseStatus) -> Seq<char> {
    match s {
        ParseStatus::Pending => "pending"@,
        ParseStatus::Parsing => "parsing"@,
        ParseStatus::Parsed => "parsed"@,
        ParseStatus::ParsedEmpty => "parsed_empty"@,
        ParseStatus::Failed => "failed"@,
    }
}

pub open spec fn status_named(s: Seq<char>) -> Option<ParseStatus> {
    if s == "pending"@ {
        Some(ParseStatus::Pending)
    } else if s == "parsing"@ {
        Some(ParseStatus::Parsing)
    } else if s == "parsed"@ {
        Some(ParseStatus::Parsed)
    } else if s == "parsed_empty"@ {
        Some(ParseStatus::ParsedEmpty)
    } else if s == "failed"@ {
        Some(ParseStatus::Failed)
    } else {
        None
    }
}

/// A stored parse status reads back as the status it was written for.
pub proof fn law_status_name_round_trip(s: ParseStatus)
    ensures
        status_named(status_name(s)) == Some(s),
{
    reveal_strlit("pending");
    reveal_strlit("parsing");
    reveal_strlit("parsed");
    reveal_strlit("parsed_empty");
    reveal_strlit("failed");
    assert("pending"@[1] != "parsing"@[1]);
    assert("pending"@.len() != "parsed"@.len());
    assert("pending"@.len() != "parsed_empty"@.len());
    assert("pending"@.len() != "failed"@.len());
    assert("parsing"@.len() != "parsed"@.len());
    assert("parsing"@.len() != "parsed_empty"@.len());
    assert("parsing"@.len() != "failed"@.len());
    assert("parsed"@.len() != "parsed_empty"@.len());
    assert("parsed"@[0] != "failed"@[0]);
    assert("parsed_empty"@.len() != "failed"@.len());
}

pub fn status_to_str(s: ParseStatus) -> (r: &'static str)
    ensures
        r@ == status_name(s),
{
    match s {
        ParseStatus::Pending => "pending",
        ParseStatus::Parsing => "parsing",
        ParseStatus::Parsed => "parsed",
        ParseStatus::ParsedEmpty => "parsed_empty",
        ParseStatus::Failed => "failed",
    }
}

pub fn status_from_str(s: &str) -> (r: Result<ParseStatus, AppError>)
    ensures
        match r {
            Ok(x) => status_named(s@) == Some(x),
            Err(e) => status_named(s@) is None && is_storage_error(e) && e.message@
                == "unrecognized parse_status in database: "@ + s@,
        },
{
    if str_eq(s, "pending") {
        Ok(ParseStatus::Pending)
    } else if str_eq(s, "parsing") {
        Ok(ParseStatus::Parsing)
    } else if str_eq(s, "parsed") {
        Ok(ParseStatus::Parsed)
    } else if str_eq(s, "parsed_empty") {
        Ok(ParseStatus::ParsedEmpty)
    } else if str_eq(s, "failed") {
        Ok(ParseStatus::Failed)
    } else {
        let mut m: Vec<char> = Vec::new();
        push_str(&mut m, "unrecognized parse_status in database: ");
        push_str(&mut m, s);
        Err(AppError::storage(string_from_chars(m.as_slice())))
    }
}



// ---------------------------------------------------------------------
// Chunks
// ---------------------------------------------------------------------

/// A `chunks` row: `id, document_id, sequence_index, text_content,
/// page_or_location_ref, token_count, parser_version`. The two counts are
/// stored as integers and read back truncated to `u32`.
pub open spec fn chunk_row(row: Seq<SqlValue>) -> Result<ChunkView, Seq<char>> {
    match (int_at(row, 0), int_at(row, 1), int_at(row, 2), text_at(row, 3), text_at(row, 4), int_at(row, 5), text_at(row, 6)) {
        (Some(id), Some(d), Some(seq), Some(t), Some(l), Some(tc), Some(pv)) => Ok(
            ChunkView {
                id: ChunkId(id),
                document_id: DocumentId(d),
                sequence_index: seq as u32,
                text_content: t,
                page_or_location_ref: l,
                token_count: tc as u32,
                parser_version: pv,
            },
        ),
        _ => Err(row_error_message("chunk"@)),
    }
}

pub open spec fn chunk_decoder() -> spec_fn(Vec<SqlValue>) -> Result<ChunkView, Seq<char>> {
    |row: Vec<SqlValue>| chunk_row(row@)
}

pub fn chunk_from_row(row: &Vec<SqlValue>) -> (r: Result<Chunk, AppError>)
    ensures
        match r {
            Ok(c) => chunk_row(row@) == Ok::<ChunkView, Seq<char>>(c@),
            Err(e) => chunk_row(row@) == Err::<ChunkView, Seq<char>>(e.message@) && is_storage_error(e),
        },
{
    match (read_int(row, 0), read_int(row, 1), read_int(row, 2), read_text(row, 3), read_text(row, 4), read_int(row, 5), read_text(row, 6)) {
        (Some(id), Some(d), Some(seq), Some(t), Some(l), Some(tc), Some(pv)) => Ok(
            Chunk {
                id: ChunkId(id),
                document_id: DocumentId(d),
                sequence_index: seq as u32,
                text_content: t,
                page_or_location_ref: l,
                token_count: tc as u32,
                parser_version: pv,
            },
        ),
        _ => Err(row_error("chunk")),
    }
}

pub struct SqliteChunkRepository {
    connection: SqliteConnection,
}

impl SqliteChunkRepository {
    pub fn new(connection: SqliteConnection) -> (r: Self)
        ensures
            r.conn() == connection,
    {
        SqliteChunkRepository { connection }
    }

    /// The connection this repository was made with.
    pub closed spec fn conn(&self) -> SqliteConnection {
        self.connection
    }

    pub fn connection(&self) -> (r: &SqliteConnection)
        ensures
            *r == self.conn(),
    {
        &self.connection
    }

    /// The chunks of one document in sequence order.
    pub fn list_for_document(&self, document_id: DocumentId) -> (r: Result<Vec<Chunk>, AppError>)
        ensures
            !self.conn().is_open() ==> r is Err,
            match r {
                Ok(v) => decoded_from_rows(views(v@), chunk_decoder()),
                Err(e) => is_storage_error(e),
            },
    {
        let rows = self.connection.query(
            "chunk list query failed",
            "SELECT id, document_id, sequence_index, text_content, page_or_location_ref, token_count, parser_version FROM chunks WHERE document_id = ?1 ORDER BY sequence_index ASC",
            &one_param(SqlParam::Integer(document_id.0)),
        )?;
        decode_all(&rows, chunk_from_row, Ghost(chunk_decoder()))
    }

    /// Stores `chunk` and returns it with the id the database assigned.
    pub fn insert(&self, chunk: Chunk) -> (r: Result<Chunk, AppError>)
        ensures
            !self.conn().is_open() ==> r is Err,
            match r {
                Ok(c) => c@ == (ChunkView { id: c.id, ..chunk@ }),
                Err(e) => is_storage_error(e),
            },
    {
        let mut params: Vec<SqlParam> = Vec::new();
        params.push(SqlParam::Integer(chunk.document_id.0));
        params.push(SqlParam::Integer(chunk.sequence_index as i64));
        params.push(text_param(&chunk.text_content));
        params.push(text_param(&chunk.page_or_location_ref));
        params.push(SqlParam::Integer(chunk.token_count as i64));
        params.push(text_param(&chunk.parser_version));
        let id = self.connection.insert(
            "chunk insert failed",
            "INSERT INTO chunks (document_id, sequence_index, text_content, page_or_location_ref, token_count, parser_version) VALUES (?1, ?2, ?3, ?4, ?5, ?6)",
            &params,
        )?;
        Ok(Chunk { id: ChunkId(id), ..chunk })
    }

    /// Removes every chunk of one document.
    pub fn delete_for_document(&self, document_id: DocumentId) -> (r: Result<(), AppError>)
        ensures
            !self.conn().is_open() ==> r is Err,
            r matches Err(e) ==> is_storage_error(e),
    {
        self.connection.execute(
            "chunk delete_for_document failed",
            "DELETE FROM chunks WHERE document_id = ?1",
            &one_param(SqlParam::Integer(document_id.0)),
        )?;
        Ok(())
    }

    /// The chunk with `id`; `None` when there is none.
    pub fn find_by_id(&self, id: ChunkId) -> (r: Result<Option<Chunk>, AppError>)
        ensures
            !self.conn().is_open() ==> r is Err,
            match r {
                Ok(Some(c)) => exists|row: Vec<SqlValue>| #[trigger] chunk_row(row@) == Ok::<ChunkView, Seq<char>>(c@),
                Ok(None) => true,
                Err(e) => is_storage_error(e),
            },
    {
        let rows = self.connection.query(
            "chunk find_by_id failed",
            "SELECT id, document_id, sequence_index, text_content, page_or_location_ref, token_count, parser_version FROM chunks WHERE id = ?1",
            &one_param(SqlParam::Integer(id.0)),
        )?;
        if rows.len() == 0 {
            Ok(None)
        } else {
            let c = chunk_from_row(&rows[0])?;
            Ok(Some(c))
        }
    }
}

// ---------------------------------------------------------------------
// Documents
// ---------------------------------------------------------------------

/// A `documents` row: `id, workspace_id, relative_path, content_hash,
/// file_type, size, mtime, parse_status, last_indexed_hash`.
pub open spec fn document_row(row: Seq<SqlValue>) -> Result<DocumentRecordView, Seq<char>> {
    match (int_at(row, 0), int_at(row, 1), text_at(row, 2), text_at(row, 3), text_at(row, 4), int_at(row, 5), text_at(row, 6), text_at(row, 7), opt_text_at(row, 8)) {
        (Some(id), Some(w), Some(p), Some(h), Some(ft), Some(sz), Some(mt), Some(st), Some(lh)) => match status_named(st) {
            Some(status) => Ok(
                DocumentRecordView {
                    id: DocumentId(id),
                    workspace_id: WorkspaceId(w),
                    relative_path: p,
                    content_hash: h,
                    file_type: ft,
                    size: sz as u64,
                    mtime: mt,
                    parse_status: status,
                    last_indexed_hash: lh,
                },
            ),
            None => Err("unrecognized parse_status in database: "@ + st),
        },
        _ => Err(row_error_message("document"@)),
    }
}

pub open spec fn document_decoder() -> spec_fn(Vec<SqlValue>) -> Result<DocumentRecordView, Seq<char>> {
    |row: Vec<SqlValue>| document_row(row@)
}

pub fn document_from_row(row: &Vec<SqlValue>) -> (r: Result<DocumentRecord, AppError>)
    ensures
        match r {
            Ok(d) => document_row(row@) == Ok::<DocumentRecordView, Seq<char>>(d@),
            Err(e) => document_row(row@) == Err::<DocumentRecordView, Seq<char>>(e.message@)
                && is_storage_error(e),
        },
{
    match (read_int(row, 0), read_int(row, 1), read_text(row, 2), read_text(row, 3), read_text(row, 4), read_int(row, 5), read_text(row, 6), read_text(row, 7), read_opt_text(row, 8)) {
        (Some(id), Some(w), Some(p), Some(h), Some(ft), Some(sz), Some(mt), Some(st), Some(lh)) => {
            let status = status_from_str(st.as_str())?;
            Ok(
                DocumentRecord {
                    id: DocumentId(id),
                    workspace_id: WorkspaceId(w),
                    relative_path: p,
                    content_hash: h,
                    file_type: ft,
                    size: sz as u64,
                    mtime: mt,
                    parse_status: status,
                    last_indexed_hash: lh,
                },
            )
        },
        _ => Err(row_error("document")),
    }
}

/// The id found by the `upsert` lookup: `None` for no row, the id of the
/// first row otherwise.
pub open spec fn existing_id(rows: Seq<Vec<SqlValue>>) -> Result<Option<i64>, Seq<char>> {
    if rows.len() == 0 {
        Ok(None)
    } else {
        match int_at(rows[0]@, 0) {
            Some(id) => Ok(Some(id)),
            None => Err(row_error_message("document"@)),
        }
    }
}

pub fn existing_id_of(rows: &Vec<Vec<SqlValue>>) -> (r: Result<Option<i64>, AppError>)
    ensures
        match r {
            Ok(o) => existing_id(rows@) == Ok::<Option<i64>, Seq<char>>(o),
            Err(e) => existing_id(rows@) == Err::<Option<i64>, Seq<char>>(e.message@) && is_storage_error(e),
        },
{
    if rows.len() == 0 {
        Ok(None)
    } else {
        match read_int(&rows[0], 0) {
            Some(id) => Ok(Some(id)),
            None => Err(row_error("document")),
        }
    }
}


pub struct SqliteDocumentRepository {
    connection: SqliteConnection,
}

impl SqliteDocumentRepository {
    pub fn new(connection: SqliteConnection) -> (r: Self)
        ensures
            r.conn() == connection,
    {
        SqliteDocumentRepository { connection }
    }

    /// The connection this repository was made with.
    pub closed spec fn conn(&self) -> SqliteConnection {
        self.connection
    }

    pub fn connection(&self) -> (r: &SqliteConnection)
        ensures
            *r == self.conn(),
    {
        &self.connection
    }

    /// The document with `id`; `None` when there is none.
    pub fn find_by_id(&self, id: DocumentId) -> (r: Result<Option<DocumentRecord>, AppError>)
        ensures
            !self.conn().is_open() ==> r is Err,
            match r {
                Ok(Some(d)) => exists|row: Vec<SqlValue>| #[trigger] document_row(row@) == Ok::<
                    DocumentRecordView,
                    Seq<char>,
                >(d@),
                Ok(None) => true,
                Err(e) => is_storage_error(e),
            },
    {
        let rows = self.connection.query(
            "document find_by_id failed",
            "SELECT id, workspace_id, relative_path, content_hash, file_type, size, mtime, parse_status, last_indexed_hash FROM documents WHERE id = ?1",
            &one_param(SqlParam::Integer(id.0)),
        )?;
        if rows.len() == 0 {
            Ok(None)
        } else {
            let d = document_from_row(&rows[0])?;
            Ok(Some(d))
        }
    }

    /// The documents of one workspace, in id order.
    pub fn list_for_workspace(&self, workspace_id: WorkspaceId) -> (r: Result<Vec<DocumentRecord>, AppError>)
        ensures
            !self.conn().is_open() ==> r is Err,
            match r {
                Ok(v) => decoded_from_rows(views(v@), document_decoder()),
                Err(e) => is_storage_error(e),
            },
    {
        let rows = self.connection.query(
            "document list query failed",
            "SELECT id, workspace_id, relative_path, content_hash, file_type, size, mtime, parse_status, last_indexed_hash FROM documents WHERE workspace_id = ?1 ORDER BY id ASC",
            &one_param(SqlParam::Integer(workspace_id.0)),
        )?;
        decode_all(&rows, document_from_row, Ghost(document_decoder()))
    }

    /// Inserts `document`, or, when the workspace already has a document at
    /// the same relative path, rewrites that row in place and keeps its id.
    pub fn upsert(&self, document: DocumentRecord) -> (r: Result<DocumentRecord, AppError>)
        ensures
            !self.conn().is_open() ==> r is Err,
            match r {
                Ok(d) => d@ == (DocumentRecordView { id: d.id, ..document@ }) && exists|rows: Seq<Vec<SqlValue>>|
                    match #[trigger] document_write_of(document, rows) {
                        Ok((Some(id), _)) => d.id.0 == id,
                        Ok((None, _)) => true,
                        Err(_) => false,
                    },
                Err(e) => is_storage_error(e),
            },
    {
        let rows = self.connection.query(
            "document upsert lookup failed",
            DOCUMENT_LOOKUP_SQL,
            &document_key_params(&document),
        )?;
        match document_upsert_step(&document, &rows)? {
            DocumentWrite::Update { id, params } => {
                self.connection.execute("document update failed", DOCUMENT_UPDATE_SQL, &params)?;
                Ok(DocumentRecord { id: DocumentId(id), ..document })
            },
            DocumentWrite::Insert { params } => {
                let id = self.connection.insert("document insert failed", DOCUMENT_INSERT_SQL, &params)?;
                Ok(DocumentRecord { id: DocumentId(id), ..document })
            },
        }
    }

    /// Removes the document row with `id`.
    pub fn delete(&self, id: DocumentId) -> (r: Result<(), AppError>)
        ensures
            !self.conn().is_open() ==> r is Err,
            r matches Err(e) ==> is_storage_error(e),
    {
        self.connection.execute(
            "document delete failed",
            "DELETE FROM documents WHERE id = ?1",
            &one_param(SqlParam::Integer(id.0)),
        )?;
        Ok(())
    }
}

// ---------------------------------------------------------------------
// Serving a document's bytes to a viewer
// ---------------------------------------------------------------------

/// The statement finding a document's row by workspace and path.
pub const DOCUMENT_LOOKUP_SQL: &'static str = "SELECT id FROM documents WHERE workspace_id = ?1 AND relative_path = ?2";

/// The statement rewriting an existing document row.
pub const DOCUMENT_UPDATE_SQL: &'static str = "UPDATE documents SET content_hash = ?1, file_type = ?2, size = ?3, mtime = ?4, parse_status = ?5, last_indexed_hash = ?6 WHERE id = ?7";

/// The statement storing a new document row.
pub const DOCUMENT_INSERT_SQL: &'static str = "INSERT INTO documents (workspace_id, relative_path, content_hash, file_type, size, mtime, parse_status, last_indexed_hash) VALUES (?1, ?2, ?3, ?4, ?5, ?6, ?7, ?8)";

/// What [`DOCUMENT_UPDATE_SQL`] writes into row `id` for `d`.
pub open spec fn document_update_columns(d: DocumentRecord, id: i64) -> Seq<SqlParamView> {
    seq![
        SqlParamView::Text(d.content_hash@),
        SqlParamView::Text(d.file_type@),
        SqlParamView::Integer(d.size as i64),
        SqlParamView::Text(d.mtime@),
        SqlParamView::Text(status_name(d.parse_status)),
        opt_text_view(opt_string_view(d.last_indexed_hash)),
        SqlParamView::Integer(id),
    ]
}

/// What [`DOCUMENT_INSERT_SQL`] stores for `d`.
pub open spec fn document_insert_columns(d: DocumentRecord) -> Seq<SqlParamView> {
    seq![
        SqlParamView::Integer(d.workspace_id.0),
        SqlParamView::Text(d.relative_path@),
        SqlParamView::Text(d.content_hash@),
        SqlParamView::Text(d.file_type@),
        SqlParamView::Integer(d.size as i64),
        SqlParamView::Text(d.mtime@),
        SqlParamView::Text(status_name(d.parse_status)),
        opt_text_view(opt_string_view(d.last_indexed_hash)),
    ]
}

/// How a document is written once the lookup of its workspace and path
/// has returned.
pub enum DocumentWrite {
    /// Rewrite row `id` in place with `params` for [`DOCUMENT_UPDATE_SQL`].
    Update { id: i64, params: Vec<SqlParam> },
    /// Store a new row with `params` for [`DOCUMENT_INSERT_SQL`].
    Insert { params: Vec<SqlParam> },
}

/// The write that stores `d` after the lookup returned `rows`: the row
/// found is rewritten in place, keeping its id; with none a new row is
/// stored; a first row without an integer id is a storage error.
pub open spec fn document_write_of(
    d: DocumentRecord,
    rows: Seq<Vec<SqlValue>>,
) -> Result<(Option<i64>, Seq<SqlParamView>), Seq<char>> {
    match existing_id(rows) {
        Ok(Some(id)) => Ok((Some(id), document_update_columns(d, id))),
        Ok(None) => Ok((None, document_insert_columns(d))),
        Err(m) => Err(m),
    }
}

/// Decides how `document` is written after the lookup of its workspace
/// and path returned `lookup_rows`.
pub fn document_upsert_step(document: &DocumentRecord, lookup_rows: &Vec<Vec<SqlValue>>) -> (r: Result<
    DocumentWrite,
    AppError,
>)
    ensures
        match r {
            Ok(DocumentWrite::Update { id, params }) => document_write_of(*document, lookup_rows@) == Ok::<
                (Option<i64>, Seq<SqlParamView>),
                Seq<char>,
            >((Some(id), params_view(params@))),
            Ok(DocumentWrite::Insert { params }) => document_write_of(*document, lookup_rows@) == Ok::<
                (Option<i64>, Seq<SqlParamView>),
                Seq<char>,
            >((None, params_view(params@))),
            Err(e) => document_write_of(*document, lookup_rows@) == Err::<
                (Option<i64>, Seq<SqlParamView>),
                Seq<char>,
            >(e.message@) && is_storage_error(e),
        },
{
    match existing_id_of(lookup_rows)? {
        Some(id) => Ok(DocumentWrite::Update { id, params: document_update_params(document, id) }),
        None => Ok(DocumentWrite::Insert { params: document_insert_params(document) }),
    }
}

/// The parameters of [`DOCUMENT_LOOKUP_SQL`] for `d`: its workspace and path.
pub fn document_key_params(d: &DocumentRecord) -> (r: Vec<SqlParam>)
    ensures
        params_view(r@) == seq![SqlParamView::Integer(d.workspace_id.0), SqlParamView::Text(d.relative_path@)],
{
    let mut v: Vec<SqlParam> = Vec::new();
    v.push(SqlParam::Integer(d.workspace_id.0));
    v.push(text_param(&d.relative_path));
    assert(params_view(v@) =~= seq![SqlParamView::Integer(d.workspace_id.0), SqlParamView::Text(d.relative_path@)]);
    v
}

/// The parameters of [`DOCUMENT_UPDATE_SQL`] writing `d` into row `id`.
pub fn document_update_params(d: &DocumentRecord, id: i64) -> (r: Vec<SqlParam>)
    ensures
        params_view(r@) == document_update_columns(*d, id),
{
    let mut v: Vec<SqlParam> = Vec::new();
    v.push(text_param(&d.content_hash));
    v.push(text_param(&d.file_type));
    v.push(SqlParam::Integer(d.size as i64));
    v.push(text_param(&d.mtime));
    v.push(SqlParam::Text(status_to_str(d.parse_status).to_owned()));
    v.push(opt_text_param(&d.last_indexed_hash));
    v.push(SqlParam::Integer(id));
    assert(params_view(v@) =~= seq![
        SqlParamView::Text(d.content_hash@),
        SqlParamView::Text(d.file_type@),
        SqlParamView::Integer(d.size as i64),
        SqlParamView::Text(d.mtime@),
        SqlParamView::Text(status_name(d.parse_status)),
        opt_text_view(opt_string_view(d.last_indexed_hash)),
        SqlParamView::Integer(id),
    ]);
    v
}

/// The parameters of [`DOCUMENT_INSERT_SQL`] storing `d`.
pub fn document_insert_params(d: &DocumentRecord) -> (r: Vec<SqlParam>)
    ensures
        params_view(r@) == document_insert_columns(*d),
{
    let mut v: Vec<SqlParam> = Vec::new();
    v.push(SqlParam::Integer(d.workspace_id.0));
    v.push(text_param(&d.relative_path));
    v.push(text_param(&d.content_hash));
    v.push(text_param(&d.file_type));
    v.push(SqlParam::Integer(d.size as i64));
    v.push(text_param(&d.mtime));
    v.push(SqlParam::Text(status_to_str(d.parse_status).to_owned()));
    v.push(opt_text_param(&d.last_indexed_hash));
    assert(params_view(v@) =~= seq![
        SqlParamView::Integer(d.workspace_id.0),
        SqlParamView::Text(d.relative_path@),
        SqlParamView::Text(d.content_hash@),
        SqlParamView::Text(d.file_type@),
        SqlParamView::Integer(d.size as i64),
        SqlParamView::Text(d.mtime@),
        SqlParamView::Text(status_name(d.parse_status)),
        opt_text_view(opt_string_view(d.last_indexed_hash)),
    ]);
    v
}

/// A file's content for a viewer: Markdown as text, every other type as
/// base64 of its bytes.
#[derive(Debug)]
pub struct DocumentContent {
    pub relative_path: String,
    pub file_type: String,
    pub mime: String,
    pub is_base64: bool,
    pub content: String,
}

/// The MIME type a viewer gets for a document of `file_type` at `path`.
pub open spec fn mime_type(file_type: Seq<char>, path: Seq<char>) -> Seq<char> {
    if file_type == "pdf"@ {
        "application/pdf"@
    } else if file_type == "md"@ {
        "text/markdown"@
    } else if file_type == "image"@ {
        let lower = lowercase_of(path);
        if ends_with(lower, ".png"@) {
            "image/png"@
        } else if ends_with(lower, ".gif"@) {
            "image/gif"@
        } else if ends_with(lower, ".webp"@) {
            "image/webp"@
        } else if ends_with(lower, ".bmp"@) {
            "image/bmp"@
        } else {
            "image/jpeg"@
        }
    } else {
        "application/octet-stream"@
    }
}

fn lower_ends_with(lower: &Vec<char>, suffix: &str) -> (r: bool)
    ensures
        r == ends_with(lower@, suffix@),
{
    let sv = chars_of(suffix);
    chars_end_with(lower, &sv)
}

/// The MIME type for a document of `file_type` stored at `relative_path`;
/// images are told apart by the path's extension, in any case.
pub fn mime_for(file_type: &str, relative_path: &str) -> (r: &'static str)
    ensures
        r@ == mime_type(file_type@, relative_path@),
{
    if str_eq(file_type, "pdf") {
        "application/pdf"
    } else if str_eq(file_type, "md") {
        "text/markdown"
    } else if str_eq(file_type, "image") {
        let lower = chars_of(to_lowercase(relative_path).as_str());
        if lower_ends_with(&lower, ".png") {
            "image/png"
        } else if lower_ends_with(&lower, ".gif") {
            "image/gif"
        } else if lower_ends_with(&lower, ".webp") {
            "image/webp"
        } else if lower_ends_with(&lower, ".bmp") {
            "image/bmp"
        } else {
            "image/jpeg"
        }
    } else {
        "application/octet-stream"
    }
}

/// The base64 digit for a six-bit value (standard alphabet).
pub open spec fn base64_digit(n: nat) -> char {
    if n < 26 {
        (65 + n) as char
    } else if n < 52 {
        (97 + n - 26) as char
    } else if n < 62 {
        (48 + n - 52) as char
    } else if n == 62 {
        '+'
    } else {
        '/'
    }
}

/// Standard base64 with `=` padding (RFC 4648, section 4): every three
/// bytes become four digits; a final one or two bytes become two or three
/// digits and the padding.
pub open spec fn base64_of(b: Seq<u8>) -> Seq<char>
    decreases b.len(),
{
    if b.len() == 0 {
        Seq::empty()
    } else if b.len() == 1 {
        seq![base64_digit((b[0] / 4) as nat), base64_digit(((b[0] % 4) * 16) as nat), '=', '=']
    } else if b.len() == 2 {
        seq![
            base64_digit((b[0] / 4) as nat),
            base64_digit(((b[0] % 4) * 16 + b[1] / 16) as nat),
            base64_digit(((b[1] % 16) * 4) as nat),
            '=',
        ]
    } else {
        seq![
            base64_digit((b[0] / 4) as nat),
            base64_digit(((b[0] % 4) * 16 + b[1] / 16) as nat),
            base64_digit(((b[1] % 16) * 4 + b[2] / 64) as nat),
            base64_digit((b[2] % 64) as nat),
        ] + base64_of(b.skip(3))
    }
}

/// Encodes `bytes` with `base64`'s standard engine
/// (`general_purpose::STANDARD`, padded).
#[verifier::external_body]
fn base64_standard(bytes: &[u8]) -> (r: String)
    requires
        bytes@.len() <= usize::MAX / 2,
    ensures
        r@ == base64_of(bytes@),
{
    base64::Engine::encode(&base64::engine::general_purpose::STANDARD, bytes)
}

/// What `String::from_utf8` makes of `bytes`: the decoded text, or the
/// text of the decoding error.
pub uninterp spec fn utf8_decoded(bytes: Seq<u8>) -> Result<Seq<char>, Seq<char>>;

/// Decodes `bytes` as UTF-8 (`String::from_utf8`).
#[verifier::external_body]
fn utf8_text(bytes: Vec<u8>) -> (r: Result<String, String>)
    ensures
        match (r, utf8_decoded(bytes@)) {
            (Ok(s), Ok(t)) => s@ == t,
            (Err(e), Err(m)) => e@ == m,
            _ => false,
        },
{
    String::from_utf8(bytes).map_err(|e| e.to_string())
}

/// `"document is not valid UTF-8: {e}"`.
pub open spec fn not_utf8_message(e: Seq<char>) -> Seq<char> {
    "document is not valid UTF-8: "@ + e
}

/// The viewer content of `document` whose file holds `bytes`: Markdown is
/// served as its UTF-8 text (an indexing error when it is not UTF-8), any
/// other type as base64.
pub fn document_content(document: DocumentRecord, bytes: Vec<u8>) -> (r: Result<DocumentContent, AppError>)
    requires
        bytes@.len() <= usize::MAX / 2,
    ensures
        match r {
            Ok(c) => {
                &&& c.relative_path@ == document.relative_path@
                &&& c.file_type@ == document.file_type@
                &&& c.mime@ == mime_type(document.file_type@, document.relative_path@)
                &&& c.is_base64 == (document.file_type@ != "md"@)
                &&& if c.is_base64 {
                    c.content@ == base64_of(bytes@)
                } else {
                    utf8_decoded(bytes@) == Ok::<Seq<char>, Seq<char>>(c.content@)
                }
            },
            Err(e) => document.file_type@ == "md"@ && e.code == crate::error::ErrorCode::IndexingError
                && exists|m: Seq<char>|
                    utf8_decoded(bytes@) == Err::<Seq<char>, Seq<char>>(m) && #[trigger] not_utf8_message(m)
                        == e.message@,
        },
{
    let mime = mime_for(document.file_type.as_str(), document.relative_path.as_str());
    let is_base64 = !str_eq(document.file_type.as_str(), "md");
    let content = if is_base64 {
        base64_standard(bytes.as_slice())
    } else {
        match utf8_text(bytes) {
            Ok(text) => text,
            Err(e) => {
                let mut m: Vec<char> = Vec::new();
                push_str(&mut m, "document is not valid UTF-8: ");
                push_str(&mut m, e.as_str());
                let msg = string_from_chars(m.as_slice());
                assert(not_utf8_message(e@) == msg@);
                return Err(AppError::indexing(msg));
            },
        }
    };
    Ok(
        DocumentContent {
            relative_path: document.relative_path,
            file_type: document.file_type,
            mime: mime.to_owned(),
            is_base64,
            content,
        },
    )
}


// ---------------------------------------------------------------------
// Keeping workspace-relative paths inside the workspace
// ---------------------------------------------------------------------

/// `p` has a `..` segment between slashes (or at either end).
pub open spec fn has_parent_segment(p: Seq<char>) -> bool {
    exists|i: int|
        0 <= i && i + 2 <= p.len() && #[trigger] p[i] == '.' && p[i + 1] == '.' && (i == 0 || p[i - 1] == '/')
            && (i + 2 == p.len() || p[i + 2] == '/')
}

/// A workspace-relative path that cannot leave the workspace when joined
/// to its root: not absolute, and without a `..` segment.
pub open spec fn stays_inside(p: Seq<char>) -> bool {
    !(p.len() > 0 && p[0] == '/') && !has_parent_segment(p)
}

/// Whether `relative` stays inside the workspace when joined to its root.
pub fn path_stays_inside(relative: &str) -> (r: bool)
    ensures
        r == stays_inside(relative@),
{
    let cs = chars_of(relative);
    if cs.len() > 0 && cs[0] == '/' {
        return false;
    }
    let mut i: usize = 0;
    while i < cs.len()
        invariant
            cs@ == relative@,
            !(cs@.len() > 0 && cs@[0] == '/'),
            forall|j: int|
                0 <= j < i && j + 2 <= cs@.len() ==> !(#[trigger] cs@[j] == '.' && cs@[j + 1] == '.' && (j == 0
                    || cs@[j - 1] == '/') && (j + 2 == cs@.len() || cs@[j + 2] == '/')),
        decreases cs.len() - i,
    {
        if i + 1 < cs.len() && cs[i] == '.' && cs[i + 1] == '.' && (i == 0 || cs[i - 1] == '/') && (i + 2 == cs.len() || cs[i + 2] == '/') {
            assert(has_parent_segment(relative@)) by {
                assert(cs@[i as int] == '.');
            }
            return false;
        }
        i = i + 1;
    }
    assert(!has_parent_segment(relative@)) by {
        if has_parent_segment(relative@) {
            let k = choose|k: int|
                0 <= k && k + 2 <= relative@.len() && #[trigger] relative@[k] == '.' && relative@[k + 1] == '.' && (k
                    == 0 || relative@[k - 1] == '/') && (k + 2 == relative@.len() || relative@[k + 2] == '/');
            assert(cs@[k] == '.');
        }
    }
    true
}
} // verus!

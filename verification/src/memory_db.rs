//! SQLite-backed Student Memory: annotations, bookmarks, chat sessions and
//! messages, revision history, quiz answer tallies and generated study
//! records. Nothing here deletes one kind of record as a side effect of
//! deleting another.
use vstd::prelude::*;

use crate::chat::{ChatMessage, ChatMessageView, ChatMode, ChatRole, ChatSession, ChatSessionView};
use crate::db::{
    opt_text_view, params_view, SqlParamView, decode_all, decoded_from_rows, int_at, is_storage_error, one_param, opt_int_at, opt_text_at, opt_text_param, read_int, read_opt_int, read_opt_text, read_text, read_u32, row_error, row_error_message, text_at, text_param, u32_at, SqlParam, SqlValue, SqliteConnection,
};
use crate::error::AppError;
use crate::ids::{AnnotationId, BookmarkId, ChatMessageId, ChatSessionId, ConceptNodeId, DocumentId, FlashcardSetId, QuizId, RevisionHistoryId, RevisionPlanId, WorkspaceId};
use crate::json::{all_parsed, as_text, as_text_list, decode_json, encode_json, json_decode, member_value, opt_text, parse_all, text_list_of, text_of, get_field, opt_text_of, JsonMember, JsonValue};
use crate::memory::{Annotation, AnnotationView, Bookmark, BookmarkView, Flashcard, FlashcardSet, FlashcardSetView, FlashcardView, Quiz, QuizQuestion, QuizQuestionView, QuizView, RevisionHistoryEntry, RevisionHistoryEntryView, RevisionOutcome, RevisionPlan, RevisionPlanItem, RevisionPlanItemView, RevisionPlanView, WeakTopic, WeakTopicView};
use crate::records::{string_views, views};
use crate::study_output::{make_card, make_question, make_question_exec, plan_item_from_json_exec, plan_item_parser, shape_detail};
use crate::text::{push_str, str_eq, string_from_chars};

verus! {




fn opt_id_param(d: Option<DocumentId>) -> (r: SqlParam)
    ensures
        match d {
            Some(x) => r == SqlParam::Integer(x.0),
            None => r is Null,
        },
{
    match d {
        Some(x) => SqlParam::Integer(x.0),
        None => SqlParam::Null,
    }
}

/// `"{lead}{s}"` as a storage error.
fn named_storage_error(lead: &str, s: &str) -> (e: AppError)
    ensures
        is_storage_error(e),
        e.message@ == lead@ + s@,
{
    let mut m: Vec<char> = Vec::new();
    push_str(&mut m, lead);
    push_str(&mut m, s);
    AppError::storage(string_from_chars(m.as_slice()))
}

// ---------------------------------------------------------------------
// Stored names of enum values
// ---------------------------------------------------------------------

pub open spec fn mode_name(m: ChatMode) -> Seq<char> {
    match m {
        ChatMode::Normal => "normal"@,
        ChatMode::Research => "research"@,
        ChatMode::ExamRestricted => "exam_restricted"@,
    }
}

pub open spec fn mode_named(s: Seq<char>) -> Option<ChatMode> {
    if s == "normal"@ {
        Some(ChatMode::Normal)
    } else if s == "research"@ {
        Some(ChatMode::Research)
    } else if s == "exam_restricted"@ {
        Some(ChatMode::ExamRestricted)
    } else {
        None
    }
}

pub open spec fn role_name(r: ChatRole) -> Seq<char> {
    match r {
        ChatRole::User => "user"@,
        ChatRole::Assistant => "assistant"@,
    }
}

pub open spec fn role_named(s: Seq<char>) -> Option<ChatRole> {
    if s == "user"@ {
        Some(ChatRole::User)
    } else if s == "assistant"@ {
        Some(ChatRole::Assistant)
    } else {
        None
    }
}

pub open spec fn outcome_name(o: RevisionOutcome) -> Seq<char> {
    match o {
        RevisionOutcome::Recalled => "recalled"@,
        RevisionOutcome::Forgotten => "forgotten"@,
    }
}

pub open spec fn outcome_named(s: Seq<char>) -> Option<RevisionOutcome> {
    if s == "recalled"@ {
        Some(RevisionOutcome::Recalled)
    } else if s == "forgotten"@ {
        Some(RevisionOutcome::Forgotten)
    } else {
        None
    }
}

/// A stored mode, role or outcome name reads back as the value it was
/// written for.
pub proof fn law_stored_names_round_trip(m: ChatMode, r: ChatRole, o: RevisionOutcome)
    ensures
        mode_named(mode_name(m)) == Some(m),
        role_named(role_name(r)) == Some(r),
        outcome_named(outcome_name(o)) == Some(o),
{
    reveal_strlit("normal");
    reveal_strlit("research");
    reveal_strlit("exam_restricted");
    reveal_strlit("user");
    reveal_strlit("assistant");
    reveal_strlit("recalled");
    reveal_strlit("forgotten");
    assert("normal"@.len() != "research"@.len());
    assert("normal"@.len() != "exam_restricted"@.len());
    assert("research"@.len() != "exam_restricted"@.len());
    assert("user"@.len() != "assistant"@.len());
    assert("recalled"@.len() != "forgotten"@.len());
}

/// The statement storing a new chat session.
pub const SESSION_INSERT_SQL: &'static str = "INSERT INTO chat_sessions (workspace_id, document_id, title, mode, created_at, updated_at) VALUES (?1, ?2, ?3, ?4, ?5, ?6)";

/// The statement storing a new chat message.
pub const MESSAGE_INSERT_SQL: &'static str = "INSERT INTO chat_messages (session_id, role, content, engine_pipeline_used, created_at) VALUES (?1, ?2, ?3, ?4, ?5)";

/// The statement marking a session as updated at a given time.
pub const SESSION_TOUCH_SQL: &'static str = "UPDATE chat_sessions SET updated_at = ?1 WHERE id = ?2";

/// The parameters of [`SESSION_INSERT_SQL`] storing `s`.
pub fn session_insert_params(s: &ChatSession) -> (r: Vec<SqlParam>)
    ensures
        params_view(r@) == seq![
            SqlParamView::Integer(s.workspace_id.0),
            match s.document_id {
                Some(d) => SqlParamView::Integer(d.0),
                None => SqlParamView::Null,
            },
            SqlParamView::Text(s.title@),
            SqlParamView::Text(mode_name(s.mode)),
            SqlParamView::Text(s.created_at@),
            SqlParamView::Text(s.updated_at@),
        ],
{
    let mut v: Vec<SqlParam> = Vec::new();
    v.push(SqlParam::Integer(s.workspace_id.0));
    v.push(opt_id_param(s.document_id));
    v.push(text_param(&s.title));
    v.push(SqlParam::Text(mode_to_str(s.mode).to_owned()));
    v.push(text_param(&s.created_at));
    v.push(text_param(&s.updated_at));
    assert(params_view(v@) =~= seq![
        SqlParamView::Integer(s.workspace_id.0),
        match s.document_id {
            Some(d) => SqlParamView::Integer(d.0),
            None => SqlParamView::Null,
        },
        SqlParamView::Text(s.title@),
        SqlParamView::Text(mode_name(s.mode)),
        SqlParamView::Text(s.created_at@),
        SqlParamView::Text(s.updated_at@),
    ]);
    v
}

/// The parameters of [`MESSAGE_INSERT_SQL`] storing `m`.
pub fn message_insert_params(m: &ChatMessage) -> (r: Vec<SqlParam>)
    ensures
        params_view(r@) == seq![
            SqlParamView::Integer(m.session_id.0),
            SqlParamView::Text(role_name(m.role)),
            SqlParamView::Text(m.content@),
            opt_text_view(m@.engine_pipeline_used),
            SqlParamView::Text(m.created_at@),
        ],
{
    let mut v: Vec<SqlParam> = Vec::new();
    v.push(SqlParam::Integer(m.session_id.0));
    v.push(SqlParam::Text(role_to_str(m.role).to_owned()));
    v.push(text_param(&m.content));
    v.push(opt_text_param(&m.engine_pipeline_used));
    v.push(text_param(&m.created_at));
    assert(params_view(v@) =~= seq![
        SqlParamView::Integer(m.session_id.0),
        SqlParamView::Text(role_name(m.role)),
        SqlParamView::Text(m.content@),
        opt_text_view(m@.engine_pipeline_used),
        SqlParamView::Text(m.created_at@),
    ]);
    v
}

/// The parameters of [`SESSION_TOUCH_SQL`] marking the session of `m` as
/// updated when `m` was written.
pub fn session_touch_params(m: &ChatMessage) -> (r: Vec<SqlParam>)
    ensures
        params_view(r@) == seq![SqlParamView::Text(m.created_at@), SqlParamView::Integer(m.session_id.0)],
{
    let mut v: Vec<SqlParam> = Vec::new();
    v.push(text_param(&m.created_at));
    v.push(SqlParam::Integer(m.session_id.0));
    assert(params_view(v@) =~= seq![SqlParamView::Text(m.created_at@), SqlParamView::Integer(m.session_id.0)]);
    v
}

pub fn mode_to_str(m: ChatMode) -> (r: &'static str)
    ensures
        r@ == mode_name(m),
{
    match m {
        ChatMode::Normal => "normal",
        ChatMode::Research => "research",
        ChatMode::ExamRestricted => "exam_restricted",
    }
}

pub fn mode_from_str(s: &str) -> (r: Result<ChatMode, AppError>)
    ensures
        match r {
            Ok(m) => mode_named(s@) == Some(m),
            Err(e) => mode_named(s@) is None && is_storage_error(e) && e.message@
                == "unrecognized chat mode in database: "@ + s@,
        },
{
    if str_eq(s, "normal") {
        Ok(ChatMode::Normal)
    } else if str_eq(s, "research") {
        Ok(ChatMode::Research)
    } else if str_eq(s, "exam_restricted") {
        Ok(ChatMode::ExamRestricted)
    } else {
        Err(named_storage_error("unrecognized chat mode in database: ", s))
    }
}

pub fn role_to_str(r: ChatRole) -> (s: &'static str)
    ensures
        s@ == role_name(r),
{
    match r {
        ChatRole::User => "user",
        ChatRole::Assistant => "assistant",
    }
}

pub fn role_from_str(s: &str) -> (r: Result<ChatRole, AppError>)
    ensures
        match r {
            Ok(x) => role_named(s@) == Some(x),
            Err(e) => role_named(s@) is None && is_storage_error(e) && e.message@
                == "unrecognized chat role in database: "@ + s@,
        },
{
    if str_eq(s, "user") {
        Ok(ChatRole::User)
    } else if str_eq(s, "assistant") {
        Ok(ChatRole::Assistant)
    } else {
        Err(named_storage_error("unrecognized chat role in database: ", s))
    }
}

pub fn outcome_to_str(o: RevisionOutcome) -> (s: &'static str)
    ensures
        s@ == outcome_name(o),
{
    match o {
        RevisionOutcome::Recalled => "recalled",
        RevisionOutcome::Forgotten => "forgotten",
    }
}

pub fn outcome_from_str(s: &str) -> (r: Result<RevisionOutcome, AppError>)
    ensures
        match r {
            Ok(x) => outcome_named(s@) == Some(x),
            Err(e) => outcome_named(s@) is None && is_storage_error(e) && e.message@
                == "unrecognized revision outcome in database: "@ + s@,
        },
{
    if str_eq(s, "recalled") {
        Ok(RevisionOutcome::Recalled)
    } else if str_eq(s, "forgotten") {
        Ok(RevisionOutcome::Forgotten)
    } else {
        Err(named_storage_error("unrecognized revision outcome in database: ", s))
    }
}

// ---------------------------------------------------------------------
// Annotations
// ---------------------------------------------------------------------

/// An `annotations` row: `id, document_id, location_ref, content,
/// created_at, updated_at`.
pub open spec fn annotation_row(row: Seq<SqlValue>) -> Result<AnnotationView, Seq<char>> {
    match (int_at(row, 0), int_at(row, 1), text_at(row, 2), text_at(row, 3), text_at(row, 4), text_at(row, 5)) {
        (Some(id), Some(d), Some(l), Some(c), Some(ca), Some(ua)) => Ok(
            AnnotationView {
                id: AnnotationId(id),
                document_id: DocumentId(d),
                location_ref: l,
                content: c,
                created_at: ca,
                updated_at: ua,
            },
        ),
        _ => Err(row_error_message("annotation"@)),
    }
}

pub open spec fn annotation_decoder() -> spec_fn(Vec<SqlValue>) -> Result<AnnotationView, Seq<char>> {
    |row: Vec<SqlValue>| annotation_row(row@)
}

pub fn annotation_from_row(row: &Vec<SqlValue>) -> (r: Result<Annotation, AppError>)
    ensures
        match r {
            Ok(a) => annotation_row(row@) == Ok::<AnnotationView, Seq<char>>(a@),
            Err(e) => annotation_row(row@) == Err::<AnnotationView, Seq<char>>(e.message@)
                && is_storage_error(e),
        },
{
    match (read_int(row, 0), read_int(row, 1), read_text(row, 2), read_text(row, 3), read_text(row, 4), read_text(row, 5)) {
        (Some(id), Some(d), Some(l), Some(c), Some(ca), Some(ua)) => Ok(
            Annotation {
                id: AnnotationId(id),
                document_id: DocumentId(d),
                location_ref: l,
                content: c,
                created_at: ca,
                updated_at: ua,
            },
        ),
        _ => Err(row_error("annotation")),
    }
}

pub struct SqliteAnnotationRepository {
    connection: SqliteConnection,
}

impl SqliteAnnotationRepository {
    pub fn new(connection: SqliteConnection) -> (r: Self)
        ensures
            r.conn() == connection,
    {
        SqliteAnnotationRepository { connection }
    }

    /// The connection this repository was made with.
    pub closed spec fn conn(&self) -> SqliteConnection {
        self.connection
    }

    pub fn connection(&self) -> (r: &SqliteConnection)
        ensures
            *r == self.conn(),
    {
        &self.connection
    }

    /// The annotations of one document, oldest first.
    pub fn list_for_document(&self, document_id: DocumentId) -> (r: Result<Vec<Annotation>, AppError>)
        ensures
            !self.conn().is_open() ==> r is Err,
            match r {
                Ok(v) => decoded_from_rows(views(v@), annotation_decoder()),
                Err(e) => is_storage_error(e),
            },
    {
        let rows = self.connection.query(
            "annotation list query failed",
            "SELECT id, document_id, location_ref, content, created_at, updated_at FROM annotations WHERE document_id = ?1 ORDER BY id ASC",
            &one_param(SqlParam::Integer(document_id.0)),
        )?;
        decode_all(&rows, annotation_from_row, Ghost(annotation_decoder()))
    }

    /// Stores `annotation` and returns it with the id the database assigned.
    pub fn insert(&self, annotation: Annotation) -> (r: Result<Annotation, AppError>)
        ensures
            !self.conn().is_open() ==> r is Err,
            match r {
                Ok(a) => a@ == (AnnotationView { id: a.id, ..annotation@ }),
                Err(e) => is_storage_error(e),
            },
    {
        let mut params: Vec<SqlParam> = Vec::new();
        params.push(SqlParam::Integer(annotation.document_id.0));
        params.push(text_param(&annotation.location_ref));
        params.push(text_param(&annotation.content));
        params.push(text_param(&annotation.created_at));
        params.push(text_param(&annotation.updated_at));
        let id = self.connection.insert(
            "annotation insert failed",
            "INSERT INTO annotations (document_id, location_ref, content, created_at, updated_at) VALUES (?1, ?2, ?3, ?4, ?5)",
            &params,
        )?;
        Ok(Annotation { id: AnnotationId(id), ..annotation })
    }

    /// Rewrites the location, content and update time of the annotation
    /// with `annotation.id`; returns `annotation`.
    pub fn update(&self, annotation: Annotation) -> (r: Result<Annotation, AppError>)
        ensures
            !self.conn().is_open() ==> r is Err,
            match r {
                Ok(a) => a@ == annotation@,
                Err(e) => is_storage_error(e),
            },
    {
        let mut params: Vec<SqlParam> = Vec::new();
        params.push(text_param(&annotation.location_ref));
        params.push(text_param(&annotation.content));
        params.push(text_param(&annotation.updated_at));
        params.push(SqlParam::Integer(annotation.id.0));
        self.connection.execute(
            "annotation update failed",
            "UPDATE annotations SET location_ref = ?1, content = ?2, updated_at = ?3 WHERE id = ?4",
            &params,
        )?;
        Ok(annotation)
    }

    /// Removes the annotation with `id`; removing an unknown id is no error.
    pub fn delete(&self, id: AnnotationId) -> (r: Result<(), AppError>)
        ensures
            !self.conn().is_open() ==> r is Err,
            r matches Err(e) ==> is_storage_error(e),
    {
        self.connection.execute(
            "annotation delete failed",
            "DELETE FROM annotations WHERE id = ?1",
            &one_param(SqlParam::Integer(id.0)),
        )?;
        Ok(())
    }
}

// ---------------------------------------------------------------------
// Bookmarks
// ---------------------------------------------------------------------

/// A `bookmarks` row: `id, document_id, location_ref, label, created_at`.
pub open spec fn bookmark_row(row: Seq<SqlValue>) -> Result<BookmarkView, Seq<char>> {
    match (int_at(row, 0), int_at(row, 1), text_at(row, 2), text_at(row, 3), text_at(row, 4)) {
        (Some(id), Some(d), Some(l), Some(lb), Some(ca)) => Ok(
            BookmarkView {
                id: BookmarkId(id),
                document_id: DocumentId(d),
                location_ref: l,
                label: lb,
                created_at: ca,
            },
        ),
        _ => Err(row_error_message("bookmark"@)),
    }
}

pub open spec fn bookmark_decoder() -> spec_fn(Vec<SqlValue>) -> Result<BookmarkView, Seq<char>> {
    |row: Vec<SqlValue>| bookmark_row(row@)
}

pub fn bookmark_from_row(row: &Vec<SqlValue>) -> (r: Result<Bookmark, AppError>)
    ensures
        match r {
            Ok(b) => bookmark_row(row@) == Ok::<BookmarkView, Seq<char>>(b@),
            Err(e) => bookmark_row(row@) == Err::<BookmarkView, Seq<char>>(e.message@)
                && is_storage_error(e),
        },
{
    match (read_int(row, 0), read_int(row, 1), read_text(row, 2), read_text(row, 3), read_text(row, 4)) {
        (Some(id), Some(d), Some(l), Some(lb), Some(ca)) => Ok(
            Bookmark {
                id: BookmarkId(id),
                document_id: DocumentId(d),
                location_ref: l,
                label: lb,
                created_at: ca,
            },
        ),
        _ => Err(row_error("bookmark")),
    }
}

pub struct SqliteBookmarkRepository {
    connection: SqliteConnection,
}

impl SqliteBookmarkRepository {
    pub fn new(connection: SqliteConnection) -> (r: Self)
        ensures
            r.conn() == connection,
    {
        SqliteBookmarkRepository { connection }
    }

    /// The connection this repository was made with.
    pub closed spec fn conn(&self) -> SqliteConnection {
        self.connection
    }

    pub fn connection(&self) -> (r: &SqliteConnection)
        ensures
            *r == self.conn(),
    {
        &self.connection
    }

    /// The bookmarks of one document, oldest first.
    pub fn list_for_document(&self, document_id: DocumentId) -> (r: Result<Vec<Bookmark>, AppError>)
        ensures
            !self.conn().is_open() ==> r is Err,
            match r {
                Ok(v) => decoded_from_rows(views(v@), bookmark_decoder()),
                Err(e) => is_storage_error(e),
            },
    {
        let rows = self.connection.query(
            "bookmark list query failed",
            "SELECT id, document_id, location_ref, label, created_at FROM bookmarks WHERE document_id = ?1 ORDER BY id ASC",
            &one_param(SqlParam::Integer(document_id.0)),
        )?;
        decode_all(&rows, bookmark_from_row, Ghost(bookmark_decoder()))
    }

    /// Stores `bookmark` and returns it with the id the database assigned.
    pub fn insert(&self, bookmark: Bookmark) -> (r: Result<Bookmark, AppError>)
        ensures
            !self.conn().is_open() ==> r is Err,
            match r {
                Ok(b) => b@ == (BookmarkView { id: b.id, ..bookmark@ }),
                Err(e) => is_storage_error(e),
            },
    {
        let mut params: Vec<SqlParam> = Vec::new();
        params.push(SqlParam::Integer(bookmark.document_id.0));
        params.push(text_param(&bookmark.location_ref));
        params.push(text_param(&bookmark.label));
        params.push(text_param(&bookmark.created_at));
        let id = self.connection.insert(
            "bookmark insert failed",
            "INSERT INTO bookmarks (document_id, location_ref, label, created_at) VALUES (?1, ?2, ?3, ?4)",
            &params,
        )?;
        Ok(Bookmark { id: BookmarkId(id), ..bookmark })
    }

    /// Removes the bookmark with `id`; removing an unknown id is no error.
    pub fn delete(&self, id: BookmarkId) -> (r: Result<(), AppError>)
        ensures
            !self.conn().is_open() ==> r is Err,
            r matches Err(e) ==> is_storage_error(e),
    {
        self.connection.execute(
            "bookmark delete failed",
            "DELETE FROM bookmarks WHERE id = ?1",
            &one_param(SqlParam::Integer(id.0)),
        )?;
        Ok(())
    }
}

// ---------------------------------------------------------------------
// Chat sessions and messages
// ---------------------------------------------------------------------

/// A `chat_sessions` row: `id, workspace_id, document_id, title, mode,
/// created_at, updated_at`.
pub open spec fn session_row(row: Seq<SqlValue>) -> Result<ChatSessionView, Seq<char>> {
    match (int_at(row, 0), int_at(row, 1), opt_int_at(row, 2), text_at(row, 3), text_at(row, 4), text_at(row, 5), text_at(row, 6)) {
        (Some(id), Some(w), Some(d), Some(t), Some(m), Some(ca), Some(ua)) => match mode_named(m) {
            Some(mode) => Ok(
                ChatSessionView {
                    id: ChatSessionId(id),
                    workspace_id: WorkspaceId(w),
                    document_id: match d {
                        Some(x) => Some(DocumentId(x)),
                        None => None,
                    },
                    title: t,
                    mode,
                    created_at: ca,
                    updated_at: ua,
                },
            ),
            None => Err("unrecognized chat mode in database: "@ + m),
        },
        _ => Err(row_error_message("chat session"@)),
    }
}

pub open spec fn session_decoder() -> spec_fn(Vec<SqlValue>) -> Result<ChatSessionView, Seq<char>> {
    |row: Vec<SqlValue>| session_row(row@)
}

pub fn session_from_row(row: &Vec<SqlValue>) -> (r: Result<ChatSession, AppError>)
    ensures
        match r {
            Ok(s) => session_row(row@) == Ok::<ChatSessionView, Seq<char>>(s@),
            Err(e) => session_row(row@) == Err::<ChatSessionView, Seq<char>>(e.message@)
                && is_storage_error(e),
        },
{
    match (read_int(row, 0), read_int(row, 1), read_opt_int(row, 2), read_text(row, 3), read_text(row, 4), read_text(row, 5), read_text(row, 6)) {
        (Some(id), Some(w), Some(d), Some(t), Some(m), Some(ca), Some(ua)) => {
            let mode = mode_from_str(m.as_str())?;
            Ok(
                ChatSession {
                    id: ChatSessionId(id),
                    workspace_id: WorkspaceId(w),
                    document_id: match d {
                        Some(x) => Some(DocumentId(x)),
                        None => None,
                    },
                    title: t,
                    mode,
                    created_at: ca,
                    updated_at: ua,
                },
            )
        },
        _ => Err(row_error("chat session")),
    }
}

/// A `chat_messages` row: `id, session_id, role, content,
/// engine_pipeline_used, created_at`.
pub open spec fn message_row(row: Seq<SqlValue>) -> Result<ChatMessageView, Seq<char>> {
    match (int_at(row, 0), int_at(row, 1), text_at(row, 2), text_at(row, 3), opt_text_at(row, 4), text_at(row, 5)) {
        (Some(id), Some(s), Some(r), Some(c), Some(p), Some(ca)) => match role_named(r) {
            Some(role) => Ok(
                ChatMessageView {
                    id: ChatMessageId(id),
                    session_id: ChatSessionId(s),
                    role,
                    content: c,
                    engine_pipeline_used: p,
                    created_at: ca,
                },
            ),
            None => Err("unrecognized chat role in database: "@ + r),
        },
        _ => Err(row_error_message("chat message"@)),
    }
}

pub open spec fn message_decoder() -> spec_fn(Vec<SqlValue>) -> Result<ChatMessageView, Seq<char>> {
    |row: Vec<SqlValue>| message_row(row@)
}

pub fn message_from_row(row: &Vec<SqlValue>) -> (r: Result<ChatMessage, AppError>)
    ensures
        match r {
            Ok(m) => message_row(row@) == Ok::<ChatMessageView, Seq<char>>(m@),
            Err(e) => message_row(row@) == Err::<ChatMessageView, Seq<char>>(e.message@)
                && is_storage_error(e),
        },
{
    match (read_int(row, 0), read_int(row, 1), read_text(row, 2), read_text(row, 3), read_opt_text(row, 4), read_text(row, 5)) {
        (Some(id), Some(s), Some(r), Some(c), Some(p), Some(ca)) => {
            let role = role_from_str(r.as_str())?;
            Ok(
                ChatMessage {
                    id: ChatMessageId(id),
                    session_id: ChatSessionId(s),
                    role,
                    content: c,
                    engine_pipeline_used: p,
                    created_at: ca,
                },
            )
        },
        _ => Err(row_error("chat message")),
    }
}

pub struct SqliteChatRepository {
    connection: SqliteConnection,
}

impl SqliteChatRepository {
    pub fn new(connection: SqliteConnection) -> (r: Self)
        ensures
            r.conn() == connection,
    {
        SqliteChatRepository { connection }
    }

    /// The connection this repository was made with.
    pub closed spec fn conn(&self) -> SqliteConnection {
        self.connection
    }

    pub fn connection(&self) -> (r: &SqliteConnection)
        ensures
            *r == self.conn(),
    {
        &self.connection
    }

    /// The sessions of one workspace, most recently active first.
    pub fn list_sessions_for_workspace(&self, workspace_id: WorkspaceId) -> (r: Result<
        Vec<ChatSession>,
        AppError,
    >)
        ensures
            !self.conn().is_open() ==> r is Err,
            match r {
                Ok(v) => decoded_from_rows(views(v@), session_decoder()),
                Err(e) => is_storage_error(e),
            },
    {
        let rows = self.connection.query(
            "chat session list query failed",
            "SELECT id, workspace_id, document_id, title, mode, created_at, updated_at FROM chat_sessions WHERE workspace_id = ?1 ORDER BY updated_at DESC",
            &one_param(SqlParam::Integer(workspace_id.0)),
        )?;
        decode_all(&rows, session_from_row, Ghost(session_decoder()))
    }

    /// Stores `session` and returns it with the id the database assigned.
    pub fn create_session(&self, session: ChatSession) -> (r: Result<ChatSession, AppError>)
        ensures
            !self.conn().is_open() ==> r is Err,
            match r {
                Ok(s) => s@ == (ChatSessionView { id: s.id, ..session@ }),
                Err(e) => is_storage_error(e),
            },
    {
        let id = self.connection.insert("chat session create failed", SESSION_INSERT_SQL, &session_insert_params(&session))?;
        Ok(ChatSession { id: ChatSessionId(id), ..session })
    }

    /// Stores `message`, marks its session as updated at the message's
    /// time, and returns the message with the id the database assigned.
    pub fn append_message(&self, message: ChatMessage) -> (r: Result<ChatMessage, AppError>)
        ensures
            !self.conn().is_open() ==> r is Err,
            match r {
                Ok(m) => m@ == (ChatMessageView { id: m.id, ..message@ }),
                Err(e) => is_storage_error(e),
            },
    {
        let id = self.connection.insert("chat message append failed", MESSAGE_INSERT_SQL, &message_insert_params(&message))?;
        self.connection.execute("chat session updated_at bump failed", SESSION_TOUCH_SQL, &session_touch_params(&message))?;
        Ok(ChatMessage { id: ChatMessageId(id), ..message })
    }

    /// The messages of one session in conversation order (by time, then id).
    pub fn list_messages(&self, session_id: ChatSessionId) -> (r: Result<Vec<ChatMessage>, AppError>)
        ensures
            !self.conn().is_open() ==> r is Err,
            match r {
                Ok(v) => decoded_from_rows(views(v@), message_decoder()),
                Err(e) => is_storage_error(e),
            },
    {
        let rows = self.connection.query(
            "chat message list query failed",
            "SELECT id, session_id, role, content, engine_pipeline_used, created_at FROM chat_messages WHERE session_id = ?1 ORDER BY created_at ASC, id ASC",
            &one_param(SqlParam::Integer(session_id.0)),
        )?;
        decode_all(&rows, message_from_row, Ghost(message_decoder()))
    }
}

// ---------------------------------------------------------------------
// Revision history
// ---------------------------------------------------------------------

/// A `revision_history` row: `id, concept_node_id, scheduled_at,
/// completed_at, outcome`.
pub open spec fn history_row(row: Seq<SqlValue>) -> Result<RevisionHistoryEntryView, Seq<char>> {
    match (int_at(row, 0), int_at(row, 1), text_at(row, 2), opt_text_at(row, 3), opt_text_at(row, 4)) {
        (Some(id), Some(c), Some(s), Some(done), Some(o)) => match o {
            None => Ok(
                RevisionHistoryEntryView {
                    id: RevisionHistoryId(id),
                    concept_node_id: ConceptNodeId(c),
                    scheduled_at: s,
                    completed_at: done,
                    outcome: None,
                },
            ),
            Some(name) => match outcome_named(name) {
                Some(x) => Ok(
                    RevisionHistoryEntryView {
                        id: RevisionHistoryId(id),
                        concept_node_id: ConceptNodeId(c),
                        scheduled_at: s,
                        completed_at: done,
                        outcome: Some(x),
                    },
                ),
                None => Err("unrecognized revision outcome in database: "@ + name),
            },
        },
        _ => Err(row_error_message("revision history"@)),
    }
}

pub open spec fn history_decoder() -> spec_fn(Vec<SqlValue>) -> Result<RevisionHistoryEntryView, Seq<char>> {
    |row: Vec<SqlValue>| history_row(row@)
}

pub fn history_from_row(row: &Vec<SqlValue>) -> (r: Result<RevisionHistoryEntry, AppError>)
    ensures
        match r {
            Ok(h) => history_row(row@) == Ok::<RevisionHistoryEntryView, Seq<char>>(h@),
            Err(e) => history_row(row@) == Err::<RevisionHistoryEntryView, Seq<char>>(e.message@)
                && is_storage_error(e),
        },
{
    match (read_int(row, 0), read_int(row, 1), read_text(row, 2), read_opt_text(row, 3), read_opt_text(row, 4)) {
        (Some(id), Some(c), Some(s), Some(done), Some(o)) => {
            let outcome = match o {
                None => None,
                Some(name) => Some(outcome_from_str(name.as_str())?),
            };
            Ok(
                RevisionHistoryEntry {
                    id: RevisionHistoryId(id),
                    concept_node_id: ConceptNodeId(c),
                    scheduled_at: s,
                    completed_at: done,
                    outcome,
                },
            )
        },
        _ => Err(row_error("revision history")),
    }
}

/// Revision history of concepts. Mastery scores, which are floating-point,
/// are kept by the application layer.
pub struct SqliteLearningProgressRepository {
    connection: SqliteConnection,
}

impl SqliteLearningProgressRepository {
    pub fn new(connection: SqliteConnection) -> (r: Self)
        ensures
            r.conn() == connection,
    {
        SqliteLearningProgressRepository { connection }
    }

    /// The connection this repository was made with.
    pub closed spec fn conn(&self) -> SqliteConnection {
        self.connection
    }

    pub fn connection(&self) -> (r: &SqliteConnection)
        ensures
            *r == self.conn(),
    {
        &self.connection
    }

    /// Stores `entry` (its scheduled time doubling as its creation time)
    /// and returns it with the id the database assigned.
    pub fn append_revision_history(&self, entry: RevisionHistoryEntry) -> (r: Result<
        RevisionHistoryEntry,
        AppError,
    >)
        ensures
            !self.conn().is_open() ==> r is Err,
            match r {
                Ok(h) => h@ == (RevisionHistoryEntryView { id: h.id, ..entry@ }),
                Err(e) => is_storage_error(e),
            },
    {
        let mut params: Vec<SqlParam> = Vec::new();
        params.push(SqlParam::Integer(entry.concept_node_id.0));
        params.push(text_param(&entry.scheduled_at));
        params.push(opt_text_param(&entry.completed_at));
        params.push(
            match entry.outcome {
                Some(o) => SqlParam::Text(outcome_to_str(o).to_owned()),
                None => SqlParam::Null,
            },
        );
        params.push(text_param(&entry.scheduled_at));
        let id = self.connection.insert(
            "revision history append failed",
            "INSERT INTO revision_history (concept_node_id, scheduled_at, completed_at, outcome, created_at) VALUES (?1, ?2, ?3, ?4, ?5)",
            &params,
        )?;
        Ok(RevisionHistoryEntry { id: RevisionHistoryId(id), ..entry })
    }

    /// The revision history of one concept, earliest scheduled first.
    pub fn list_revision_history(&self, concept_node_id: ConceptNodeId) -> (r: Result<
        Vec<RevisionHistoryEntry>,
        AppError,
    >)
        ensures
            !self.conn().is_open() ==> r is Err,
            match r {
                Ok(v) => decoded_from_rows(views(v@), history_decoder()),
                Err(e) => is_storage_error(e),
            },
    {
        let rows = self.connection.query(
            "revision history list query failed",
            "SELECT id, concept_node_id, scheduled_at, completed_at, outcome FROM revision_history WHERE concept_node_id = ?1 ORDER BY scheduled_at ASC",
            &one_param(SqlParam::Integer(concept_node_id.0)),
        )?;
        decode_all(&rows, history_from_row, Ghost(history_decoder()))
    }
}

// ---------------------------------------------------------------------
// Quiz answer tallies
// ---------------------------------------------------------------------

/// A `quiz_topic_stats` row: `topic, correct_count, incorrect_count`.
pub open spec fn weak_topic_row(row: Seq<SqlValue>) -> Result<WeakTopicView, Seq<char>> {
    match (text_at(row, 0), u32_at(row, 1), u32_at(row, 2)) {
        (Some(t), Some(c), Some(i)) => Ok(WeakTopicView { topic: t, correct_count: c, incorrect_count: i }),
        _ => Err(row_error_message("weak topic"@)),
    }
}

pub open spec fn weak_topic_decoder() -> spec_fn(Vec<SqlValue>) -> Result<WeakTopicView, Seq<char>> {
    |row: Vec<SqlValue>| weak_topic_row(row@)
}

pub fn weak_topic_from_row(row: &Vec<SqlValue>) -> (r: Result<WeakTopic, AppError>)
    ensures
        match r {
            Ok(w) => weak_topic_row(row@) == Ok::<WeakTopicView, Seq<char>>(w@),
            Err(e) => weak_topic_row(row@) == Err::<WeakTopicView, Seq<char>>(e.message@)
                && is_storage_error(e),
        },
{
    match (read_text(row, 0), read_u32(row, 1), read_u32(row, 2)) {
        (Some(t), Some(c), Some(i)) => Ok(WeakTopic { topic: t, correct_count: c, incorrect_count: i }),
        _ => Err(row_error("weak topic")),
    }
}

/// Per-topic quiz answer tallies. Time-series metrics, which are
/// floating-point, are kept by the application layer.
pub struct SqliteAnalyticsRepository {
    connection: SqliteConnection,
}

impl SqliteAnalyticsRepository {
    pub fn new(connection: SqliteConnection) -> (r: Self)
        ensures
            r.conn() == connection,
    {
        SqliteAnalyticsRepository { connection }
    }

    /// The connection this repository was made with.
    pub closed spec fn conn(&self) -> SqliteConnection {
        self.connection
    }

    pub fn connection(&self) -> (r: &SqliteConnection)
        ensures
            *r == self.conn(),
    {
        &self.connection
    }

    /// Adds one answer to the tally of `topic` in `workspace_id`: one more
    /// correct or one more incorrect answer.
    pub fn record_quiz_answer(&self, workspace_id: WorkspaceId, topic: &str, correct: bool) -> (r: Result<
        (),
        AppError,
    >)
        ensures
            !self.conn().is_open() ==> r is Err,
            r matches Err(e) ==> is_storage_error(e),
    {
        let now = crate::time::now_iso8601();
        let mut params: Vec<SqlParam> = Vec::new();
        params.push(SqlParam::Integer(workspace_id.0));
        params.push(SqlParam::Text(topic.to_owned()));
        params.push(SqlParam::Integer(if correct { 1 } else { 0 }));
        params.push(SqlParam::Integer(if correct { 0 } else { 1 }));
        params.push(SqlParam::Text(now));
        self.connection.execute(
            "quiz topic stat record failed",
            "INSERT INTO quiz_topic_stats (workspace_id, topic, correct_count, incorrect_count, updated_at)
             VALUES (?1, ?2, ?3, ?4, ?5)
             ON CONFLICT(workspace_id, topic) DO UPDATE SET
                correct_count = correct_count + excluded.correct_count,
                incorrect_count = incorrect_count + excluded.incorrect_count,
                updated_at = excluded.updated_at",
            &params,
        )?;
        Ok(())
    }

    /// The tallies of one workspace, weakest (lowest accuracy) first.
    pub fn list_weak_topics(&self, workspace_id: WorkspaceId) -> (r: Result<Vec<WeakTopic>, AppError>)
        ensures
            !self.conn().is_open() ==> r is Err,
            match r {
                Ok(v) => decoded_from_rows(views(v@), weak_topic_decoder()),
                Err(e) => is_storage_error(e),
            },
    {
        let rows = self.connection.query(
            "weak topic list query failed",
            "SELECT topic, correct_count, incorrect_count FROM quiz_topic_stats WHERE workspace_id = ?1 ORDER BY CAST(correct_count AS REAL) / MAX(correct_count + incorrect_count, 1) ASC",
            &one_param(SqlParam::Integer(workspace_id.0)),
        )?;
        decode_all(&rows, weak_topic_from_row, Ghost(weak_topic_decoder()))
    }
}

// ---------------------------------------------------------------------
// Generated study records, stored with their contents as JSON text
// ---------------------------------------------------------------------

pub open spec fn is_text_json(v: JsonValue, s: Seq<char>) -> bool {
    v matches JsonValue::Str(t) && t@ == s
}

pub open spec fn is_text_list_json(v: JsonValue, l: Seq<Seq<char>>) -> bool {
    v matches JsonValue::Array(items) && items@.len() == l.len() && forall|i: int|
        0 <= i < l.len() ==> is_text_json(#[trigger] items@[i], l[i])
}

/// `v` is `{"question", "options", "correct_answer", "source_citations"}`
/// holding the fields of `q`, in that order.
pub open spec fn is_question_json(v: JsonValue, q: QuizQuestionView) -> bool {
    v matches JsonValue::Object(ms) && ms@.len() == 4 && ms@[0].key@ == "question"@
        && is_text_json(ms@[0].value, q.question) && ms@[1].key@ == "options"@
        && is_text_list_json(ms@[1].value, q.options) && ms@[2].key@ == "correct_answer"@
        && is_text_json(ms@[2].value, q.correct_answer) && ms@[3].key@ == "source_citations"@
        && is_text_list_json(ms@[3].value, q.source_citations)
}

/// `v` is `{"front", "back", "source_citations"}` holding the fields of `c`.
pub open spec fn is_card_json(v: JsonValue, c: FlashcardView) -> bool {
    v matches JsonValue::Object(ms) && ms@.len() == 3 && ms@[0].key@ == "front"@
        && is_text_json(ms@[0].value, c.front) && ms@[1].key@ == "back"@
        && is_text_json(ms@[1].value, c.back) && ms@[2].key@ == "source_citations"@
        && is_text_list_json(ms@[2].value, c.source_citations)
}

/// `v` is `{"topic", "recommendation", "priority"}` holding the fields of `it`.
pub open spec fn is_plan_item_json(v: JsonValue, it: RevisionPlanItemView) -> bool {
    v matches JsonValue::Object(ms) && ms@.len() == 3 && ms@[0].key@ == "topic"@
        && is_text_json(ms@[0].value, it.topic) && ms@[1].key@ == "recommendation"@
        && is_text_json(ms@[1].value, it.recommendation) && ms@[2].key@ == "priority"@
        && ms@[2].value == JsonValue::Int(it.priority as i128)
}

/// `v` is a JSON array whose elements are `items`, element by element.
pub open spec fn is_array_json<T>(v: JsonValue, items: Seq<T>, p: spec_fn(JsonValue, T) -> bool) -> bool {
    v matches JsonValue::Array(a) && a@.len() == items.len() && forall|i: int|
        0 <= i < items.len() ==> p(#[trigger] a@[i], items[i])
}

fn text_json(s: &String) -> (r: JsonValue)
    ensures
        is_text_json(r, s@),
{
    JsonValue::Str(s.clone())
}

fn text_list_json(l: &Vec<String>) -> (r: JsonValue)
    ensures
        is_text_list_json(r, string_views(l@)),
{
    let mut items: Vec<JsonValue> = Vec::new();
    let mut i: usize = 0;
    while i < l.len()
        invariant
            i <= l.len(),
            items@.len() == i,
            forall|k: int| 0 <= k < i ==> is_text_json(#[trigger] items@[k], l@[k]@),
        decreases l.len() - i,
    {
        items.push(text_json(&l[i]));
        i = i + 1;
    }
    JsonValue::Array(items)
}

fn member(key: &str, value: JsonValue) -> (m: JsonMember)
    ensures
        m.key@ == key@,
        m.value == value,
{
    JsonMember { key: key.to_owned(), value }
}

fn question_json(q: &QuizQuestion) -> (r: JsonValue)
    ensures
        is_question_json(r, q@),
{
    let mut ms: Vec<JsonMember> = Vec::new();
    ms.push(member("question", text_json(&q.question)));
    ms.push(member("options", text_list_json(&q.options)));
    ms.push(member("correct_answer", text_json(&q.correct_answer)));
    ms.push(member("source_citations", text_list_json(&q.source_citations)));
    JsonValue::Object(ms)
}

fn card_json(c: &Flashcard) -> (r: JsonValue)
    ensures
        is_card_json(r, c@),
{
    let mut ms: Vec<JsonMember> = Vec::new();
    ms.push(member("front", text_json(&c.front)));
    ms.push(member("back", text_json(&c.back)));
    ms.push(member("source_citations", text_list_json(&c.source_citations)));
    JsonValue::Object(ms)
}

fn plan_item_json(it: &RevisionPlanItem) -> (r: JsonValue)
    ensures
        is_plan_item_json(r, it@),
{
    let mut ms: Vec<JsonMember> = Vec::new();
    ms.push(member("topic", text_json(&it.topic)));
    ms.push(member("recommendation", text_json(&it.recommendation)));
    ms.push(member("priority", JsonValue::Int(it.priority as i128)));
    JsonValue::Object(ms)
}

pub open spec fn question_json_pred() -> spec_fn(JsonValue, QuizQuestionView) -> bool {
    |v: JsonValue, q: QuizQuestionView| is_question_json(v, q)
}

pub open spec fn card_json_pred() -> spec_fn(JsonValue, FlashcardView) -> bool {
    |v: JsonValue, c: FlashcardView| is_card_json(v, c)
}

pub open spec fn plan_item_json_pred() -> spec_fn(JsonValue, RevisionPlanItemView) -> bool {
    |v: JsonValue, it: RevisionPlanItemView| is_plan_item_json(v, it)
}

/// The JSON array of a quiz's questions.
pub fn questions_json(qs: &Vec<QuizQuestion>) -> (r: JsonValue)
    ensures
        is_array_json(r, views(qs@), question_json_pred()),
{
    let mut items: Vec<JsonValue> = Vec::new();
    let mut i: usize = 0;
    while i < qs.len()
        invariant
            i <= qs.len(),
            items@.len() == i,
            forall|k: int| 0 <= k < i ==> is_question_json(#[trigger] items@[k], qs@[k]@),
        decreases qs.len() - i,
    {
        items.push(question_json(&qs[i]));
        i = i + 1;
    }
    JsonValue::Array(items)
}

/// The JSON array of a flashcard set's cards.
pub fn cards_json(cs: &Vec<Flashcard>) -> (r: JsonValue)
    ensures
        is_array_json(r, views(cs@), card_json_pred()),
{
    let mut items: Vec<JsonValue> = Vec::new();
    let mut i: usize = 0;
    while i < cs.len()
        invariant
            i <= cs.len(),
            items@.len() == i,
            forall|k: int| 0 <= k < i ==> is_card_json(#[trigger] items@[k], cs@[k]@),
        decreases cs.len() - i,
    {
        items.push(card_json(&cs[i]));
        i = i + 1;
    }
    JsonValue::Array(items)
}

/// The JSON array of a revision plan's items.
pub fn plan_items_json(its: &Vec<RevisionPlanItem>) -> (r: JsonValue)
    ensures
        is_array_json(r, views(its@), plan_item_json_pred()),
{
    let mut items: Vec<JsonValue> = Vec::new();
    let mut i: usize = 0;
    while i < its.len()
        invariant
            i <= its.len(),
            items@.len() == i,
            forall|k: int| 0 <= k < i ==> is_plan_item_json(#[trigger] items@[k], its@[k]@),
        decreases its.len() - i,
    {
        items.push(plan_item_json(&its[i]));
        i = i + 1;
    }
    JsonValue::Array(items)
}

pub open spec fn opt_text_list(f: Option<JsonValue>) -> Option<Seq<Seq<char>>> {
    match f {
        Some(x) => as_text_list(x),
        None => None,
    }
}

/// A stored question: every field required, as an object or a
/// four-element array.
pub open spec fn stored_question(v: JsonValue) -> Option<QuizQuestionView> {
    match v {
        JsonValue::Object(m) => make_question(
            opt_text(member_value(m@, "question"@)),
            opt_text_list(member_value(m@, "options"@)),
            opt_text(member_value(m@, "correct_answer"@)),
            opt_text_list(member_value(m@, "source_citations"@)),
        ),
        JsonValue::Array(items) => if items@.len() == 4 {
            make_question(
                as_text(items@[0]),
                as_text_list(items@[1]),
                as_text(items@[2]),
                as_text_list(items@[3]),
            )
        } else {
            None
        },
        _ => None,
    }
}

/// A stored card: every field required, as an object or a three-element
/// array.
pub open spec fn stored_card(v: JsonValue) -> Option<FlashcardView> {
    match v {
        JsonValue::Object(m) => match (
            opt_text(member_value(m@, "front"@)),
            opt_text(member_value(m@, "back"@)),
            opt_text_list(member_value(m@, "source_citations"@)),
        ) {
            (Some(f), Some(b), Some(c)) => Some(FlashcardView { front: f, back: b, source_citations: c }),
            _ => None,
        },
        JsonValue::Array(items) => if items@.len() == 3 {
            match (as_text(items@[0]), as_text(items@[1]), as_text_list(items@[2])) {
                (Some(f), Some(b), Some(c)) => Some(
                    FlashcardView { front: f, back: b, source_citations: c },
                ),
                _ => None,
            }
        } else {
            None
        },
        _ => None,
    }
}

pub open spec fn stored_question_parser() -> spec_fn(JsonValue) -> Option<QuizQuestionView> {
    |v: JsonValue| stored_question(v)
}

pub open spec fn stored_card_parser() -> spec_fn(JsonValue) -> Option<FlashcardView> {
    |v: JsonValue| stored_card(v)
}

/// The elements of a JSON array, each read with `p`.
pub open spec fn stored_list<T>(v: JsonValue, p: spec_fn(JsonValue) -> Option<T>) -> Option<Seq<T>> {
    match v {
        JsonValue::Array(items) => all_parsed(items@, p),
        _ => None,
    }
}

fn opt_text_list_of(f: Option<&JsonValue>) -> (r: Option<Vec<String>>)
    ensures
        match r {
            Some(l) => opt_text_list(match f { Some(x) => Some(*x), None => None }) == Some(string_views(l@)),
            None => opt_text_list(match f { Some(x) => Some(*x), None => None }) is None,
        },
{
    match f {
        Some(x) => text_list_of(x),
        None => None,
    }
}

fn stored_question_exec(v: &JsonValue) -> (r: Option<QuizQuestion>)
    ensures
        match r {
            Some(q) => stored_question(*v) == Some(q@),
            None => stored_question(*v) is None,
        },
{
    match v {
        JsonValue::Object(_) => make_question_exec(
            opt_text_of(get_field(v, "question")),
            opt_text_list_of(get_field(v, "options")),
            opt_text_of(get_field(v, "correct_answer")),
            opt_text_list_of(get_field(v, "source_citations")),
        ),
        JsonValue::Array(items) => {
            if items.len() == 4 {
                make_question_exec(
                    text_of(&items[0]),
                    text_list_of(&items[1]),
                    text_of(&items[2]),
                    text_list_of(&items[3]),
                )
            } else {
                None
            }
        },
        _ => None,
    }
}

fn stored_card_exec(v: &JsonValue) -> (r: Option<Flashcard>)
    ensures
        match r {
            Some(c) => stored_card(*v) == Some(c@),
            None => stored_card(*v) is None,
        },
{
    match v {
        JsonValue::Object(_) => make_card(
            opt_text_of(get_field(v, "front")),
            opt_text_of(get_field(v, "back")),
            opt_text_list_of(get_field(v, "source_citations")),
        ),
        JsonValue::Array(items) => {
            if items.len() == 3 {
                make_card(text_of(&items[0]), text_of(&items[1]), text_list_of(&items[2]))
            } else {
                None
            }
        },
        _ => None,
    }
}

fn stored_questions_exec(v: &JsonValue) -> (r: Option<Vec<QuizQuestion>>)
    ensures
        match r {
            Some(l) => stored_list(*v, stored_question_parser()) == Some(views(l@)),
            None => stored_list(*v, stored_question_parser()) is None,
        },
{
    match v {
        JsonValue::Array(items) => parse_all(items, stored_question_exec, Ghost(stored_question_parser())),
        _ => None,
    }
}

fn stored_cards_exec(v: &JsonValue) -> (r: Option<Vec<Flashcard>>)
    ensures
        match r {
            Some(l) => stored_list(*v, stored_card_parser()) == Some(views(l@)),
            None => stored_list(*v, stored_card_parser()) is None,
        },
{
    match v {
        JsonValue::Array(items) => parse_all(items, stored_card_exec, Ghost(stored_card_parser())),
        _ => None,
    }
}

fn stored_plan_items_exec(v: &JsonValue) -> (r: Option<Vec<RevisionPlanItem>>)
    ensures
        match r {
            Some(l) => stored_list(*v, plan_item_parser()) == Some(views(l@)),
            None => stored_list(*v, plan_item_parser()) is None,
        },
{
    match v {
        JsonValue::Array(items) => parse_all(items, plan_item_from_json_exec, Ghost(plan_item_parser())),
        _ => None,
    }
}

/// The contents stored as JSON text, read with `p`; the message names
/// `lead` when the text is not JSON or not the expected shape.
pub open spec fn stored_json<T>(text: Seq<char>, p: spec_fn(JsonValue) -> Option<T>, lead: Seq<char>) -> Result<Seq<T>, Seq<char>> {
    match json_decode(text) {
        Err(m) => Err(lead + m),
        Ok(v) => match stored_list(v, p) {
            Some(l) => Ok(l),
            None => Err(lead + shape_detail()),
        },
    }
}

pub open spec fn opt_document(d: Option<i64>) -> Option<DocumentId> {
    match d {
        Some(x) => Some(DocumentId(x)),
        None => None,
    }
}

/// A `quizzes` row: `id, workspace_id, document_id, topic, questions_json,
/// created_at`.
pub open spec fn quiz_row(row: Seq<SqlValue>) -> Result<QuizView, Seq<char>> {
    match (int_at(row, 0), int_at(row, 1), opt_int_at(row, 2), text_at(row, 3), text_at(row, 4), text_at(row, 5)) {
        (Some(id), Some(w), Some(d), Some(t), Some(j), Some(ca)) => match stored_json(
            j,
            stored_question_parser(),
            "stored quiz questions_json is corrupt: "@,
        ) {
            Ok(qs) => Ok(
                QuizView {
                    id: QuizId(id),
                    workspace_id: WorkspaceId(w),
                    document_id: opt_document(d),
                    topic: t,
                    questions: qs,
                    created_at: ca,
                },
            ),
            Err(m) => Err(m),
        },
        _ => Err(row_error_message("quiz"@)),
    }
}

pub open spec fn quiz_decoder() -> spec_fn(Vec<SqlValue>) -> Result<QuizView, Seq<char>> {
    |row: Vec<SqlValue>| quiz_row(row@)
}

fn opt_document_of(d: Option<i64>) -> (r: Option<DocumentId>)
    ensures
        r == opt_document(d),
{
    match d {
        Some(x) => Some(DocumentId(x)),
        None => None,
    }
}

pub fn quiz_from_row(row: &Vec<SqlValue>) -> (r: Result<Quiz, AppError>)
    ensures
        match r {
            Ok(q) => quiz_row(row@) == Ok::<QuizView, Seq<char>>(q@),
            Err(e) => quiz_row(row@) == Err::<QuizView, Seq<char>>(e.message@) && is_storage_error(e),
        },
{
    match (read_int(row, 0), read_int(row, 1), read_opt_int(row, 2), read_text(row, 3), read_text(row, 4), read_text(row, 5)) {
        (Some(id), Some(w), Some(d), Some(t), Some(j), Some(ca)) => {
            let lead = "stored quiz questions_json is corrupt: ";
            let questions = match decode_json(j.as_str()) {
                Err(m) => {
                    return Err(named_storage_error(lead, m.as_str()));
                },
                Ok(v) => match stored_questions_exec(&v) {
                    Some(l) => l,
                    None => {
                        return Err(
                            named_storage_error(lead, "the JSON does not have the expected fields and types"),
                        );
                    },
                },
            };
            Ok(
                Quiz {
                    id: QuizId(id),
                    workspace_id: WorkspaceId(w),
                    document_id: opt_document_of(d),
                    topic: t,
                    questions,
                    created_at: ca,
                },
            )
        },
        _ => Err(row_error("quiz")),
    }
}

/// A `flashcard_sets` row: `id, workspace_id, document_id, topic,
/// cards_json, created_at`.
pub open spec fn flashcard_set_row(row: Seq<SqlValue>) -> Result<FlashcardSetView, Seq<char>> {
    match (int_at(row, 0), int_at(row, 1), opt_int_at(row, 2), text_at(row, 3), text_at(row, 4), text_at(row, 5)) {
        (Some(id), Some(w), Some(d), Some(t), Some(j), Some(ca)) => match stored_json(
            j,
            stored_card_parser(),
            "stored flashcard cards_json is corrupt: "@,
        ) {
            Ok(cs) => Ok(
                FlashcardSetView {
                    id: FlashcardSetId(id),
                    workspace_id: WorkspaceId(w),
                    document_id: opt_document(d),
                    topic: t,
                    cards: cs,
                    created_at: ca,
                },
            ),
            Err(m) => Err(m),
        },
        _ => Err(row_error_message("flashcard set"@)),
    }
}

pub open spec fn flashcard_set_decoder() -> spec_fn(Vec<SqlValue>) -> Result<FlashcardSetView, Seq<char>> {
    |row: Vec<SqlValue>| flashcard_set_row(row@)
}

pub fn flashcard_set_from_row(row: &Vec<SqlValue>) -> (r: Result<FlashcardSet, AppError>)
    ensures
        match r {
            Ok(s) => flashcard_set_row(row@) == Ok::<FlashcardSetView, Seq<char>>(s@),
            Err(e) => flashcard_set_row(row@) == Err::<FlashcardSetView, Seq<char>>(e.message@)
                && is_storage_error(e),
        },
{
    match (read_int(row, 0), read_int(row, 1), read_opt_int(row, 2), read_text(row, 3), read_text(row, 4), read_text(row, 5)) {
        (Some(id), Some(w), Some(d), Some(t), Some(j), Some(ca)) => {
            let lead = "stored flashcard cards_json is corrupt: ";
            let cards = match decode_json(j.as_str()) {
                Err(m) => {
                    return Err(named_storage_error(lead, m.as_str()));
                },
                Ok(v) => match stored_cards_exec(&v) {
                    Some(l) => l,
                    None => {
                        return Err(
                            named_storage_error(lead, "the JSON does not have the expected fields and types"),
                        );
                    },
                },
            };
            Ok(
                FlashcardSet {
                    id: FlashcardSetId(id),
                    workspace_id: WorkspaceId(w),
                    document_id: opt_document_of(d),
                    topic: t,
                    cards,
                    created_at: ca,
                },
            )
        },
        _ => Err(row_error("flashcard set")),
    }
}

/// A `revision_plans` row: `id, workspace_id, items_json, created_at`.
pub open spec fn revision_plan_row(row: Seq<SqlValue>) -> Result<RevisionPlanView, Seq<char>> {
    match (int_at(row, 0), int_at(row, 1), text_at(row, 2), text_at(row, 3)) {
        (Some(id), Some(w), Some(j), Some(ca)) => match stored_json(
            j,
            plan_item_parser(),
            "stored revision plan items_json is corrupt: "@,
        ) {
            Ok(its) => Ok(
                RevisionPlanView {
                    id: RevisionPlanId(id),
                    workspace_id: WorkspaceId(w),
                    items: its,
                    created_at: ca,
                },
            ),
            Err(m) => Err(m),
        },
        _ => Err(row_error_message("revision plan"@)),
    }
}

pub open spec fn revision_plan_decoder() -> spec_fn(Vec<SqlValue>) -> Result<RevisionPlanView, Seq<char>> {
    |row: Vec<SqlValue>| revision_plan_row(row@)
}

pub fn revision_plan_from_row(row: &Vec<SqlValue>) -> (r: Result<RevisionPlan, AppError>)
    ensures
        match r {
            Ok(p) => revision_plan_row(row@) == Ok::<RevisionPlanView, Seq<char>>(p@),
            Err(e) => revision_plan_row(row@) == Err::<RevisionPlanView, Seq<char>>(e.message@)
                && is_storage_error(e),
        },
{
    match (read_int(row, 0), read_int(row, 1), read_text(row, 2), read_text(row, 3)) {
        (Some(id), Some(w), Some(j), Some(ca)) => {
            let lead = "stored revision plan items_json is corrupt: ";
            let items = match decode_json(j.as_str()) {
                Err(m) => {
                    return Err(named_storage_error(lead, m.as_str()));
                },
                Ok(v) => match stored_plan_items_exec(&v) {
                    Some(l) => l,
                    None => {
                        return Err(
                            named_storage_error(lead, "the JSON does not have the expected fields and types"),
                        );
                    },
                },
            };
            Ok(RevisionPlan { id: RevisionPlanId(id), workspace_id: WorkspaceId(w), items, created_at: ca })
        },
        _ => Err(row_error("revision plan")),
    }
}

/// The first row decoded with `f`, or `None` when there is no row.
fn first_row<T: View>(
    rows: &Vec<Vec<SqlValue>>,
    f: impl Fn(&Vec<SqlValue>) -> Result<T, AppError>,
    Ghost(g): Ghost<spec_fn(Vec<SqlValue>) -> Result<T::V, Seq<char>>>,
) -> (r: Result<Option<T>, AppError>)
    requires
        forall|x: &Vec<SqlValue>| #[trigger] f.requires((x,)),
        forall|x: &Vec<SqlValue>, o: Result<T, AppError>|
            f.ensures((x,), o) ==> match o {
                Ok(t) => g(*x) == Ok::<T::V, Seq<char>>(t@),
                Err(e) => g(*x) == Err::<T::V, Seq<char>>(e.message@) && is_storage_error(e),
            },
    ensures
        match r {
            Ok(Some(t)) => rows@.len() > 0 && g(rows@[0]) == Ok::<T::V, Seq<char>>(t@),
            Ok(None) => rows@.len() == 0,
            Err(e) => is_storage_error(e),
        },
{
    if rows.len() == 0 {
        Ok(None)
    } else {
        let t = f(&rows[0])?;
        Ok(Some(t))
    }
}

pub struct SqliteStudyRepository {
    connection: SqliteConnection,
}

impl SqliteStudyRepository {
    pub fn new(connection: SqliteConnection) -> (r: Self)
        ensures
            r.conn() == connection,
    {
        SqliteStudyRepository { connection }
    }

    /// The connection this repository was made with.
    pub closed spec fn conn(&self) -> SqliteConnection {
        self.connection
    }

    pub fn connection(&self) -> (r: &SqliteConnection)
        ensures
            *r == self.conn(),
    {
        &self.connection
    }

    /// Stores `quiz`, its questions as JSON text, and returns it with the
    /// id the database assigned.
    pub fn insert_quiz(&self, quiz: Quiz) -> (r: Result<Quiz, AppError>)
        ensures
            !self.conn().is_open() ==> r is Err,
            match r {
                Ok(q) => q@ == (QuizView { id: q.id, ..quiz@ }),
                Err(e) => is_storage_error(e),
            },
    {
        let questions_text = encode_json(&questions_json(&quiz.questions));
        let mut params: Vec<SqlParam> = Vec::new();
        params.push(SqlParam::Integer(quiz.workspace_id.0));
        params.push(opt_id_param(quiz.document_id));
        params.push(text_param(&quiz.topic));
        params.push(SqlParam::Text(questions_text));
        params.push(text_param(&quiz.created_at));
        let id = self.connection.insert(
            "quiz insert failed",
            "INSERT INTO quizzes (workspace_id, document_id, topic, questions_json, created_at) VALUES (?1, ?2, ?3, ?4, ?5)",
            &params,
        )?;
        Ok(Quiz { id: QuizId(id), ..quiz })
    }

    /// The quiz with `id`; `None` when there is none.
    pub fn get_quiz(&self, id: QuizId) -> (r: Result<Option<Quiz>, AppError>)
        ensures
            !self.conn().is_open() ==> r is Err,
            match r {
                Ok(Some(q)) => exists|row: Vec<SqlValue>| #[trigger] quiz_row(row@) == Ok::<QuizView, Seq<char>>(q@),
                Ok(None) => true,
                Err(e) => is_storage_error(e),
            },
    {
        let rows = self.connection.query(
            "quiz get failed",
            "SELECT id, workspace_id, document_id, topic, questions_json, created_at FROM quizzes WHERE id = ?1",
            &one_param(SqlParam::Integer(id.0)),
        )?;
        first_row(&rows, quiz_from_row, Ghost(quiz_decoder()))
    }

    /// The quizzes of one workspace, newest first.
    pub fn list_quizzes_for_workspace(&self, workspace_id: WorkspaceId) -> (r: Result<Vec<Quiz>, AppError>)
        ensures
            !self.conn().is_open() ==> r is Err,
            match r {
                Ok(v) => decoded_from_rows(views(v@), quiz_decoder()),
                Err(e) => is_storage_error(e),
            },
    {
        let rows = self.connection.query(
            "quiz list query failed",
            "SELECT id, workspace_id, document_id, topic, questions_json, created_at FROM quizzes WHERE workspace_id = ?1 ORDER BY id DESC",
            &one_param(SqlParam::Integer(workspace_id.0)),
        )?;
        decode_all(&rows, quiz_from_row, Ghost(quiz_decoder()))
    }

    /// The quizzes generated for one document, newest first.
    pub fn list_quizzes_for_document(&self, document_id: DocumentId) -> (r: Result<Vec<Quiz>, AppError>)
        ensures
            !self.conn().is_open() ==> r is Err,
            match r {
                Ok(v) => decoded_from_rows(views(v@), quiz_decoder()),
                Err(e) => is_storage_error(e),
            },
    {
        let rows = self.connection.query(
            "quiz list query failed",
            "SELECT id, workspace_id, document_id, topic, questions_json, created_at FROM quizzes WHERE document_id = ?1 ORDER BY id DESC",
            &one_param(SqlParam::Integer(document_id.0)),
        )?;
        decode_all(&rows, quiz_from_row, Ghost(quiz_decoder()))
    }

    /// Stores `set`, its cards as JSON text, and returns it with the id the
    /// database assigned.
    pub fn insert_flashcard_set(&self, set: FlashcardSet) -> (r: Result<FlashcardSet, AppError>)
        ensures
            !self.conn().is_open() ==> r is Err,
            match r {
                Ok(s) => s@ == (FlashcardSetView { id: s.id, ..set@ }),
                Err(e) => is_storage_error(e),
            },
    {
        let cards_text = encode_json(&cards_json(&set.cards));
        let mut params: Vec<SqlParam> = Vec::new();
        params.push(SqlParam::Integer(set.workspace_id.0));
        params.push(opt_id_param(set.document_id));
        params.push(text_param(&set.topic));
        params.push(SqlParam::Text(cards_text));
        params.push(text_param(&set.created_at));
        let id = self.connection.insert(
            "flashcard set insert failed",
            "INSERT INTO flashcard_sets (workspace_id, document_id, topic, cards_json, created_at) VALUES (?1, ?2, ?3, ?4, ?5)",
            &params,
        )?;
        Ok(FlashcardSet { id: FlashcardSetId(id), ..set })
    }

    /// The flashcard set with `id`; `None` when there is none.
    pub fn get_flashcard_set(&self, id: FlashcardSetId) -> (r: Result<Option<FlashcardSet>, AppError>)
        ensures
            !self.conn().is_open() ==> r is Err,
            match r {
                Ok(Some(s)) => exists|row: Vec<SqlValue>| #[trigger] flashcard_set_row(row@) == Ok::<
                    FlashcardSetView,
                    Seq<char>,
                >(s@),
                Ok(None) => true,
                Err(e) => is_storage_error(e),
            },
    {
        let rows = self.connection.query(
            "flashcard set get failed",
            "SELECT id, workspace_id, document_id, topic, cards_json, created_at FROM flashcard_sets WHERE id = ?1",
            &one_param(SqlParam::Integer(id.0)),
        )?;
        first_row(&rows, flashcard_set_from_row, Ghost(flashcard_set_decoder()))
    }

    /// The flashcard sets of one workspace, newest first.
    pub fn list_flashcard_sets_for_workspace(&self, workspace_id: WorkspaceId) -> (r: Result<
        Vec<FlashcardSet>,
        AppError,
    >)
        ensures
            !self.conn().is_open() ==> r is Err,
            match r {
                Ok(v) => decoded_from_rows(views(v@), flashcard_set_decoder()),
                Err(e) => is_storage_error(e),
            },
    {
        let rows = self.connection.query(
            "flashcard set list query failed",
            "SELECT id, workspace_id, document_id, topic, cards_json, created_at FROM flashcard_sets WHERE workspace_id = ?1 ORDER BY id DESC",
            &one_param(SqlParam::Integer(workspace_id.0)),
        )?;
        decode_all(&rows, flashcard_set_from_row, Ghost(flashcard_set_decoder()))
    }

    /// Stores `plan`, its items as JSON text, and returns it with the id the
    /// database assigned.
    pub fn insert_revision_plan(&self, plan: RevisionPlan) -> (r: Result<RevisionPlan, AppError>)
        ensures
            !self.conn().is_open() ==> r is Err,
            match r {
                Ok(p) => p@ == (RevisionPlanView { id: p.id, ..plan@ }),
                Err(e) => is_storage_error(e),
            },
    {
        let items_text = encode_json(&plan_items_json(&plan.items));
        let mut params: Vec<SqlParam> = Vec::new();
        params.push(SqlParam::Integer(plan.workspace_id.0));
        params.push(SqlParam::Text(items_text));
        params.push(text_param(&plan.created_at));
        let id = self.connection.insert(
            "revision plan insert failed",
            "INSERT INTO revision_plans (workspace_id, items_json, created_at) VALUES (?1, ?2, ?3)",
            &params,
        )?;
        Ok(RevisionPlan { id: RevisionPlanId(id), ..plan })
    }

    /// The revision plans of one workspace, newest first.
    pub fn list_revision_plans_for_workspace(&self, workspace_id: WorkspaceId) -> (r: Result<
        Vec<RevisionPlan>,
        AppError,
    >)
        ensures
            !self.conn().is_open() ==> r is Err,
            match r {
                Ok(v) => decoded_from_rows(views(v@), revision_plan_decoder()),
                Err(e) => is_storage_error(e),
            },
    {
        let rows = self.connection.query(
            "revision plan list query failed",
            "SELECT id, workspace_id, items_json, created_at FROM revision_plans WHERE workspace_id = ?1 ORDER BY id DESC",
            &one_param(SqlParam::Integer(workspace_id.0)),
        )?;
        decode_all(&rows, revision_plan_from_row, Ghost(revision_plan_decoder()))
    }
}


impl crate::study_store::StudyRepository for SqliteStudyRepository {
    open spec fn inv(&self) -> bool {
        true
    }

    fn insert_quiz(&mut self, quiz: Quiz) -> (r: Result<Quiz, AppError>)
        ensures
            !old(self).conn().is_open() ==> r is Err,
            r matches Err(e) ==> is_storage_error(e),
    {
        SqliteStudyRepository::insert_quiz(self, quiz)
    }

    fn get_quiz(&self, id: QuizId) -> (r: Result<Option<Quiz>, AppError>)
        ensures
            !self.conn().is_open() ==> r is Err,
            match r {
                Ok(Some(q)) => exists|row: Vec<SqlValue>| #[trigger] quiz_row(row@) == Ok::<QuizView, Seq<char>>(q@),
                Ok(None) => true,
                Err(e) => is_storage_error(e),
            },
    {
        SqliteStudyRepository::get_quiz(self, id)
    }

    fn list_quizzes_for_workspace(&self, workspace_id: WorkspaceId) -> (r: Result<Vec<Quiz>, AppError>)
        ensures
            !self.conn().is_open() ==> r is Err,
    {
        SqliteStudyRepository::list_quizzes_for_workspace(self, workspace_id)
    }

    fn list_quizzes_for_document(&self, document_id: DocumentId) -> (r: Result<Vec<Quiz>, AppError>)
        ensures
            !self.conn().is_open() ==> r is Err,
    {
        SqliteStudyRepository::list_quizzes_for_document(self, document_id)
    }

    fn insert_flashcard_set(&mut self, set: FlashcardSet) -> (r: Result<FlashcardSet, AppError>)
        ensures
            !old(self).conn().is_open() ==> r is Err,
            r matches Err(e) ==> is_storage_error(e),
    {
        SqliteStudyRepository::insert_flashcard_set(self, set)
    }

    fn get_flashcard_set(&self, id: FlashcardSetId) -> (r: Result<Option<FlashcardSet>, AppError>)
        ensures
            !self.conn().is_open() ==> r is Err,
    {
        SqliteStudyRepository::get_flashcard_set(self, id)
    }

    fn list_flashcard_sets_for_workspace(&self, workspace_id: WorkspaceId) -> (r: Result<Vec<FlashcardSet>, AppError>)
        ensures
            !self.conn().is_open() ==> r is Err,
    {
        SqliteStudyRepository::list_flashcard_sets_for_workspace(self, workspace_id)
    }

    fn insert_revision_plan(&mut self, plan: RevisionPlan) -> (r: Result<RevisionPlan, AppError>)
        ensures
            !old(self).conn().is_open() ==> r is Err,
            r matches Err(e) ==> is_storage_error(e),
    {
        SqliteStudyRepository::insert_revision_plan(self, plan)
    }

    fn list_revision_plans_for_workspace(&self, workspace_id: WorkspaceId) -> (r: Result<Vec<RevisionPlan>, AppError>)
        ensures
            !self.conn().is_open() ==> r is Err,
    {
        SqliteStudyRepository::list_revision_plans_for_workspace(self, workspace_id)
    }
}

} // verus!

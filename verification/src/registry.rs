//! The model registry: which local model serves which engine role, stored
//! in the `model_registry` table.
use vstd::prelude::*;

use crate::db::{params_view, SqlParamView, decode_all, decoded_from_rows, int_at, is_storage_error, opt_int_at, read_int, read_opt_int, read_text, read_u32, row_error, row_error_message, storage_failure, storage_message, text_at, u32_at, SqlParam, SqlValue, SqliteConnection};
use crate::engines::{role_label, role_to_label, Engine, EngineOutput, EngineRole, ResolvedPrompt, ResolvedPromptView};
use crate::error::AppError;
use crate::ids::ModelRegistryId;
use crate::json::{decode_json, encode_json, json_decode, json_encode, JsonValue};
use crate::records::views;
use crate::text::{push_str, str_eq, string_from_chars};

verus! {

/// Whether a registered model can currently serve requests.
#[derive(Debug, Clone, Copy, PartialEq, Eq, Structural)]
pub enum ModelStatus {
    Available,
    Loading,
    Unavailable,
    Error,
}

/// One registered model.
#[derive(Debug)]
pub struct ModelRegistryEntry {
    pub id: ModelRegistryId,
    pub model_identifier: String,
    pub engine_role: EngineRole,
    pub capabilities: JsonValue,
    pub context_length: u32,
    pub vram_requirement: Option<u64>,
    pub status: ModelStatus,
    pub version: String,
    pub supported_tasks: JsonValue,
    pub is_selected_for_role: bool,
}

pub struct ModelRegistryEntryView {
    pub id: ModelRegistryId,
    pub model_identifier: Seq<char>,
    pub engine_role: EngineRole,
    pub capabilities: JsonValue,
    pub context_length: u32,
    pub vram_requirement: Option<u64>,
    pub status: ModelStatus,
    pub version: Seq<char>,
    pub supported_tasks: JsonValue,
    pub is_selected_for_role: bool,
}

impl View for ModelRegistryEntry {
    type V = ModelRegistryEntryView;

    open spec fn view(&self) -> ModelRegistryEntryView {
        ModelRegistryEntryView {
            id: self.id,
            model_identifier: self.model_identifier@,
            engine_role: self.engine_role,
            capabilities: self.capabilities,
            context_length: self.context_length,
            vram_requirement: self.vram_requirement,
            status: self.status,
            version: self.version@,
            supported_tasks: self.supported_tasks,
            is_selected_for_role: self.is_selected_for_role,
        }
    }
}

// ---------------------------------------------------------------------
// Stored names
// ---------------------------------------------------------------------

/// The name a role is stored under.
pub open spec fn role_name(r: EngineRole) -> Seq<char> {
    match r {
        EngineRole::Vision => "vision"@,
        EngineRole::Ocr => "ocr"@,
        EngineRole::Embedding => "embedding"@,
        EngineRole::Retriever => "retriever"@,
        EngineRole::Reranker => "reranker"@,
        EngineRole::Tutor => "tutor"@,
        EngineRole::Reasoning => "reasoning"@,
        EngineRole::Planner => "planner"@,
        EngineRole::Memory => "memory"@,
        EngineRole::Analytics => "analytics"@,
    }
}

/// The role stored under `name`, if any.
pub open spec fn role_named(name: Seq<char>) -> Option<EngineRole> {
    if name == "vision"@ {
        Some(EngineRole::Vision)
    } else if name == "ocr"@ {
        Some(EngineRole::Ocr)
    } else if name == "embedding"@ {
        Some(EngineRole::Embedding)
    } else if name == "retriever"@ {
        Some(EngineRole::Retriever)
    } else if name == "reranker"@ {
        Some(EngineRole::Reranker)
    } else if name == "tutor"@ {
        Some(EngineRole::Tutor)
    } else if name == "reasoning"@ {
        Some(EngineRole::Reasoning)
    } else if name == "planner"@ {
        Some(EngineRole::Planner)
    } else if name == "memory"@ {
        Some(EngineRole::Memory)
    } else if name == "analytics"@ {
        Some(EngineRole::Analytics)
    } else {
        None
    }
}

/// The name a status is stored under.
pub open spec fn status_name(s: ModelStatus) -> Seq<char> {
    match s {
        ModelStatus::Available => "available"@,
        ModelStatus::Loading => "loading"@,
        ModelStatus::Unavailable => "unavailable"@,
        ModelStatus::Error => "error"@,
    }
}

/// The status stored under `name`, if any.
pub open spec fn status_named(name: Seq<char>) -> Option<ModelStatus> {
    if name == "available"@ {
        Some(ModelStatus::Available)
    } else if name == "loading"@ {
        Some(ModelStatus::Loading)
    } else if name == "unavailable"@ {
        Some(ModelStatus::Unavailable)
    } else if name == "error"@ {
        Some(ModelStatus::Error)
    } else {
        None
    }
}

pub fn role_to_name(r: EngineRole) -> (s: &'static str)
    ensures
        s@ == role_name(r),
{
    match r {
        EngineRole::Vision => "vision",
        EngineRole::Ocr => "ocr",
        EngineRole::Embedding => "embedding",
        EngineRole::Retriever => "retriever",
        EngineRole::Reranker => "reranker",
        EngineRole::Tutor => "tutor",
        EngineRole::Reasoning => "reasoning",
        EngineRole::Planner => "planner",
        EngineRole::Memory => "memory",
        EngineRole::Analytics => "analytics",
    }
}

pub fn role_from_name(name: &str) -> (r: Option<EngineRole>)
    ensures
        r == role_named(name@),
{
    if str_eq(name, "vision") {
        Some(EngineRole::Vision)
    } else if str_eq(name, "ocr") {
        Some(EngineRole::Ocr)
    } else if str_eq(name, "embedding") {
        Some(EngineRole::Embedding)
    } else if str_eq(name, "retriever") {
        Some(EngineRole::Retriever)
    } else if str_eq(name, "reranker") {
        Some(EngineRole::Reranker)
    } else if str_eq(name, "tutor") {
        Some(EngineRole::Tutor)
    } else if str_eq(name, "reasoning") {
        Some(EngineRole::Reasoning)
    } else if str_eq(name, "planner") {
        Some(EngineRole::Planner)
    } else if str_eq(name, "memory") {
        Some(EngineRole::Memory)
    } else if str_eq(name, "analytics") {
        Some(EngineRole::Analytics)
    } else {
        None
    }
}

pub fn status_to_name(s: ModelStatus) -> (r: &'static str)
    ensures
        r@ == status_name(s),
{
    match s {
        ModelStatus::Available => "available",
        ModelStatus::Loading => "loading",
        ModelStatus::Unavailable => "unavailable",
        ModelStatus::Error => "error",
    }
}

pub fn status_from_name(name: &str) -> (r: Option<ModelStatus>)
    ensures
        r == status_named(name@),
{
    if str_eq(name, "available") {
        Some(ModelStatus::Available)
    } else if str_eq(name, "loading") {
        Some(ModelStatus::Loading)
    } else if str_eq(name, "unavailable") {
        Some(ModelStatus::Unavailable)
    } else if str_eq(name, "error") {
        Some(ModelStatus::Error)
    } else {
        None
    }
}

/// Every role and every status reads back as itself from the name it is
/// stored under.
pub proof fn law_registry_names_round_trip(r: EngineRole, s: ModelStatus)
    ensures
        role_named(role_name(r)) == Some(r),
        status_named(status_name(s)) == Some(s),
{
    reveal_strlit("vision");
    reveal_strlit("ocr");
    reveal_strlit("embedding");
    reveal_strlit("retriever");
    reveal_strlit("reranker");
    reveal_strlit("tutor");
    reveal_strlit("reasoning");
    reveal_strlit("planner");
    reveal_strlit("memory");
    reveal_strlit("analytics");
    reveal_strlit("available");
    reveal_strlit("loading");
    reveal_strlit("unavailable");
    reveal_strlit("error");
    assert("vision"@.len() == 6);
    assert("ocr"@.len() == 3);
    assert("embedding"@.len() == 9);
    assert("retriever"@.len() == 9);
    assert("reranker"@.len() == 8);
    assert("tutor"@.len() == 5);
    assert("reasoning"@.len() == 9);
    assert("planner"@.len() == 7);
    assert("memory"@.len() == 6);
    assert("analytics"@.len() == 9);
    assert("available"@.len() == 9);
    assert("loading"@.len() == 7);
    assert("unavailable"@.len() == 11);
    assert("error"@.len() == 5);
    assert("vision"@[0] != "memory"@[0]);
    assert("embedding"@[0] != "retriever"@[0]);
    assert("embedding"@[0] != "reasoning"@[0]);
    assert("embedding"@[0] != "analytics"@[0]);
    assert("retriever"@[2] != "reasoning"@[2]);
    assert("retriever"@[0] != "analytics"@[0]);
    assert("reasoning"@[0] != "analytics"@[0]);
}

// ---------------------------------------------------------------------
// Rows
// ---------------------------------------------------------------------

/// A `model_registry` row: `id, model_identifier, engine_role,
/// capabilities, context_length, vram_requirement, status, version,
/// supported_tasks, is_selected_for_role`. The two JSON columns are decoded
/// by `serde_json`.
pub open spec fn registry_row(row: Seq<SqlValue>) -> Result<ModelRegistryEntryView, Seq<char>> {
    match (int_at(row, 0), text_at(row, 1), text_at(row, 2), text_at(row, 3), u32_at(row, 4), opt_int_at(row, 5), text_at(row, 6), text_at(row, 7), text_at(row, 8), int_at(row, 9)) {
        (Some(id), Some(mi), Some(role), Some(caps), Some(cl), Some(vram), Some(st), Some(ver), Some(tasks), Some(sel)) => {
            if vram matches Some(v) && v < 0 {
                Err(row_error_message("model_registry"@))
            } else {
                match role_named(role) {
                    None => Err("unrecognized engine_role in database: "@ + role),
                    Some(engine_role) => match json_decode(caps) {
                        Err(m) => Err("invalid capabilities JSON: "@ + m),
                        Ok(capabilities) => match status_named(st) {
                            None => Err("unrecognized model status in database: "@ + st),
                            Some(status) => match json_decode(tasks) {
                                Err(m) => Err("invalid supported_tasks JSON: "@ + m),
                                Ok(supported_tasks) => Ok(
                                    ModelRegistryEntryView {
                                        id: ModelRegistryId(id),
                                        model_identifier: mi,
                                        engine_role,
                                        capabilities,
                                        context_length: cl,
                                        vram_requirement: match vram {
                                            Some(v) => Some(v as u64),
                                            None => None,
                                        },
                                        status,
                                        version: ver,
                                        supported_tasks,
                                        is_selected_for_role: sel != 0,
                                    },
                                ),
                            },
                        },
                    },
                }
            }
        },
        _ => Err(row_error_message("model_registry"@)),
    }
}

pub open spec fn registry_decoder() -> spec_fn(Vec<SqlValue>) -> Result<ModelRegistryEntryView, Seq<char>> {
    |row: Vec<SqlValue>| registry_row(row@)
}

fn prefixed_error(prefix: &str, detail: &str) -> (e: AppError)
    ensures
        is_storage_error(e),
        e.message@ == prefix@ + detail@,
{
    let mut m: Vec<char> = Vec::new();
    push_str(&mut m, prefix);
    push_str(&mut m, detail);
    AppError::storage(string_from_chars(m.as_slice()))
}

pub fn registry_from_row(row: &Vec<SqlValue>) -> (r: Result<ModelRegistryEntry, AppError>)
    ensures
        match r {
            Ok(e) => registry_row(row@) == Ok::<ModelRegistryEntryView, Seq<char>>(e@),
            Err(e) => registry_row(row@) == Err::<ModelRegistryEntryView, Seq<char>>(e.message@)
                && is_storage_error(e),
        },
{
    match (read_int(row, 0), read_text(row, 1), read_text(row, 2), read_text(row, 3), read_u32(row, 4), read_opt_int(row, 5), read_text(row, 6), read_text(row, 7), read_text(row, 8), read_int(row, 9)) {
        (Some(id), Some(mi), Some(role), Some(caps), Some(cl), Some(vram), Some(st), Some(ver), Some(tasks), Some(sel)) => {
            let vram_requirement = match vram {
                Some(v) => {
                    if v < 0 {
                        return Err(row_error("model_registry"));
                    }
                    Some(v as u64)
                },
                None => None,
            };
            let engine_role = match role_from_name(role.as_str()) {
                Some(r) => r,
                None => {
                    return Err(prefixed_error("unrecognized engine_role in database: ", role.as_str()));
                },
            };
            let capabilities = match decode_json(caps.as_str()) {
                Ok(v) => v,
                Err(m) => {
                    return Err(prefixed_error("invalid capabilities JSON: ", m.as_str()));
                },
            };
            let status = match status_from_name(st.as_str()) {
                Some(s) => s,
                None => {
                    return Err(prefixed_error("unrecognized model status in database: ", st.as_str()));
                },
            };
            let supported_tasks = match decode_json(tasks.as_str()) {
                Ok(v) => v,
                Err(m) => {
                    return Err(prefixed_error("invalid supported_tasks JSON: ", m.as_str()));
                },
            };
            Ok(
                ModelRegistryEntry {
                    id: ModelRegistryId(id),
                    model_identifier: mi,
                    engine_role,
                    capabilities,
                    context_length: cl,
                    vram_requirement,
                    status,
                    version: ver,
                    supported_tasks,
                    is_selected_for_role: sel != 0,
                },
            )
        },
        _ => Err(row_error("model_registry")),
    }
}

/// The detail of a write refused because a `u64` does not fit SQLite's
/// signed integers.
pub open spec fn out_of_range_detail() -> Seq<char> {
    "integer value out of range for SQLite"@
}

/// Whether an entry can be written: its VRAM requirement, if any, fits a
/// SQLite integer.
pub open spec fn storable(e: ModelRegistryEntryView) -> bool {
    e.vram_requirement matches Some(v) ==> v <= i64::MAX
}

/// The stored columns of `e` from `model_identifier` to
/// `is_selected_for_role`, in that order.
pub open spec fn entry_columns(e: ModelRegistryEntryView) -> Seq<SqlParamView> {
    seq![
        SqlParamView::Text(e.model_identifier),
        SqlParamView::Text(role_name(e.engine_role)),
        SqlParamView::Text(json_encode(e.capabilities)),
        SqlParamView::Integer(e.context_length as i64),
        match e.vram_requirement {
            Some(v) => SqlParamView::Integer(v as i64),
            None => SqlParamView::Null,
        },
        SqlParamView::Text(status_name(e.status)),
        SqlParamView::Text(e.version),
        SqlParamView::Text(json_encode(e.supported_tasks)),
        SqlParamView::Integer(if e.is_selected_for_role { 1 } else { 0 }),
    ]
}

/// The columns of `entry` from `model_identifier` to
/// `is_selected_for_role`, in that order; `None` when its VRAM
/// requirement does not fit an SQLite integer.
pub fn entry_params(entry: &ModelRegistryEntry) -> (r: Option<Vec<SqlParam>>)
    ensures
        r is Some <==> storable(entry@),
        r matches Some(v) ==> params_view(v@) == entry_columns(entry@),
{
    let vram = match entry.vram_requirement {
        None => SqlParam::Null,
        Some(v) => {
            if v > i64::MAX as u64 {
                return None;
            }
            SqlParam::Integer(v as i64)
        },
    };
    let mut p: Vec<SqlParam> = Vec::new();
    p.push(SqlParam::Text(entry.model_identifier.clone()));
    p.push(SqlParam::Text(role_to_name(entry.engine_role).to_string()));
    p.push(SqlParam::Text(encode_json(&entry.capabilities)));
    p.push(SqlParam::Integer(entry.context_length as i64));
    p.push(vram);
    p.push(SqlParam::Text(status_to_name(entry.status).to_string()));
    p.push(SqlParam::Text(entry.version.clone()));
    p.push(SqlParam::Text(encode_json(&entry.supported_tasks)));
    p.push(SqlParam::Integer(if entry.is_selected_for_role { 1 } else { 0 }));
    assert(params_view(p@) =~= entry_columns(entry@));
    Some(p)
}

/// The statement storing a new registry entry.
pub const REGISTRY_INSERT_SQL: &'static str = "INSERT INTO model_registry (model_identifier, engine_role, capabilities, context_length, vram_requirement, status, version, supported_tasks, is_selected_for_role) VALUES (?1, ?2, ?3, ?4, ?5, ?6, ?7, ?8, ?9)";

/// The statement rewriting the registry entry with a given id.
pub const REGISTRY_UPDATE_SQL: &'static str = "UPDATE model_registry SET model_identifier = ?1, engine_role = ?2, capabilities = ?3, context_length = ?4, vram_requirement = ?5, status = ?6, version = ?7, supported_tasks = ?8, is_selected_for_role = ?9 WHERE id = ?10";

/// The statement storing a registry entry under a given id.
pub const REGISTRY_INSERT_WITH_ID_SQL: &'static str = "INSERT INTO model_registry (id, model_identifier, engine_role, capabilities, context_length, vram_requirement, status, version, supported_tasks, is_selected_for_role) VALUES (?1, ?2, ?3, ?4, ?5, ?6, ?7, ?8, ?9, ?10)";

/// The parameters of [`REGISTRY_UPDATE_SQL`] for a storable `entry`.
pub fn registry_update_params(entry: &ModelRegistryEntry) -> (r: Vec<SqlParam>)
    requires
        storable(entry@),
    ensures
        params_view(r@) == entry_columns(entry@).push(SqlParamView::Integer(entry.id.0)),
{
    let mut v = match entry_params(entry) {
        Some(p) => p,
        None => Vec::new(),
    };
    let ghost before = v@;
    v.push(SqlParam::Integer(entry.id.0));
    assert(params_view(v@) =~= params_view(before).push(SqlParamView::Integer(entry.id.0)));
    v
}

/// The parameters of [`REGISTRY_INSERT_WITH_ID_SQL`] for a storable `entry`.
pub fn registry_insert_with_id_params(entry: &ModelRegistryEntry) -> (r: Vec<SqlParam>)
    requires
        storable(entry@),
    ensures
        params_view(r@) == seq![SqlParamView::Integer(entry.id.0)] + entry_columns(entry@),
{
    let mut columns = match entry_params(entry) {
        Some(p) => p,
        None => Vec::new(),
    };
    let mut v: Vec<SqlParam> = Vec::new();
    v.push(SqlParam::Integer(entry.id.0));
    let ghost head = v@;
    let ghost tail = columns@;
    v.append(&mut columns);
    assert(v@ =~= head + tail);
    assert(params_view(v@) =~= seq![SqlParamView::Integer(entry.id.0)] + params_view(tail));
    v
}

/// The statement that stores `e` next, with its parameters: before any
/// (`changed` is `None`), an insert when its id is 0 and an update of the
/// row with its id otherwise; after an update that changed `n` rows, an
/// insert under its id when `n` is 0, and nothing more otherwise.
pub open spec fn registry_write_of(e: ModelRegistryEntryView, changed: Option<usize>) -> Option<
    (Seq<char>, Seq<SqlParamView>),
> {
    match changed {
        None => if e.id.0 == 0 {
            Some((REGISTRY_INSERT_SQL@, entry_columns(e)))
        } else {
            Some((REGISTRY_UPDATE_SQL@, entry_columns(e).push(SqlParamView::Integer(e.id.0))))
        },
        Some(n) => if e.id.0 != 0 && n == 0 {
            Some((REGISTRY_INSERT_WITH_ID_SQL@, seq![SqlParamView::Integer(e.id.0)] + entry_columns(e)))
        } else {
            None
        },
    }
}

/// Whether `entry` can be written.
fn storable_entry(entry: &ModelRegistryEntry) -> (r: bool)
    ensures
        r == storable(entry@),
{
    match entry.vram_requirement {
        Some(v) => v <= i64::MAX as u64,
        None => true,
    }
}

/// The statement that stores a storable `entry` next, after the previous
/// one changed `changed` rows (`None` before any); `None` when it is
/// stored.
pub fn registry_next_write(entry: &ModelRegistryEntry, changed: Option<usize>) -> (r: Option<
    (&'static str, Vec<SqlParam>),
>)
    requires
        storable(entry@),
    ensures
        match r {
            Some((sql, params)) => registry_write_of(entry@, changed) == Some((sql@, params_view(params@))),
            None => registry_write_of(entry@, changed) is None,
        },
{
    match changed {
        None => if entry.id.0 == 0 {
            let params = match entry_params(entry) {
                Some(p) => p,
                None => Vec::new(),
            };
            Some((REGISTRY_INSERT_SQL, params))
        } else {
            Some((REGISTRY_UPDATE_SQL, registry_update_params(entry)))
        },
        Some(n) => if entry.id.0 != 0 && n == 0 {
            Some((REGISTRY_INSERT_WITH_ID_SQL, registry_insert_with_id_params(entry)))
        } else {
            None
        },
    }
}

/// The model registry stored in SQLite.
pub struct SqliteModelRegistryRepository {
    connection: SqliteConnection,
}

/// `"no model currently assigned to {role:?}"`.
pub open spec fn no_model_message(role: EngineRole) -> Seq<char> {
    "no model currently assigned to "@ + role_label(role)
}

impl SqliteModelRegistryRepository {
    pub fn new(connection: SqliteConnection) -> (r: Self)
        ensures
            r.conn() == connection,
    {
        SqliteModelRegistryRepository { connection }
    }

    /// The connection this repository was made with.
    pub closed spec fn conn(&self) -> SqliteConnection {
        self.connection
    }

    pub fn connection(&self) -> (r: &SqliteConnection)
        ensures
            *r == self.conn(),
    {
        &self.connection
    }

    /// Every registered model, by id.
    pub fn list(&self) -> (r: Result<Vec<ModelRegistryEntry>, AppError>)
        ensures
            !self.conn().is_open() ==> r is Err,
            match r {
                Ok(v) => decoded_from_rows(views(v@), registry_decoder()),
                Err(e) => is_storage_error(e),
            },
    {
        let rows = self.connection.query(
            "model_registry list query failed",
            "SELECT id, model_identifier, engine_role, capabilities, context_length, vram_requirement, status, version, supported_tasks, is_selected_for_role FROM model_registry ORDER BY id ASC",
            &Vec::new(),
        )?;
        decode_all(&rows, registry_from_row, Ghost(registry_decoder()))
    }

    /// The model selected for `role`; `None` when no model is.
    pub fn find_for_role(&self, role: EngineRole) -> (r: Result<Option<ModelRegistryEntry>, AppError>)
        ensures
            !self.conn().is_open() ==> r is Err,
            match r {
                Ok(Some(e)) => exists|row: Vec<SqlValue>|
                    #[trigger] registry_row(row@) == Ok::<ModelRegistryEntryView, Seq<char>>(e@),
                Ok(None) => true,
                Err(e) => is_storage_error(e),
            },
    {
        let mut params: Vec<SqlParam> = Vec::new();
        params.push(SqlParam::Text(role_to_name(role).to_string()));
        let rows = self.connection.query(
            "model_registry find_for_role failed",
            "SELECT id, model_identifier, engine_role, capabilities, context_length, vram_requirement, status, version, supported_tasks, is_selected_for_role FROM model_registry WHERE engine_role = ?1 AND is_selected_for_role = 1 LIMIT 1",
            &params,
        )?;
        if rows.len() == 0 {
            Ok(None)
        } else {
            let e = registry_from_row(&rows[0])?;
            Ok(Some(e))
        }
    }

    /// Stores `entry`. An entry with id 0 is inserted and comes back with
    /// the id the database assigned; any other id is updated in place, or
    /// inserted under that id when no row has it. Either way the stored
    /// fields are those of `entry`.
    pub fn upsert(&self, entry: ModelRegistryEntry) -> (r: Result<ModelRegistryEntry, AppError>)
        ensures
            !self.conn().is_open() ==> r is Err,
            match r {
                Ok(e) => if entry.id.0 == 0 {
                    e@ == (ModelRegistryEntryView { id: e.id, ..entry@ })
                } else {
                    e@ == entry@
                },
                Err(e) => is_storage_error(e),
            },
            !storable(entry@) ==> (r matches Err(e) && e.message@ == storage_message(
                if entry.id.0 == 0 {
                    "model_registry insert failed"@
                } else {
                    "model_registry update failed"@
                },
                out_of_range_detail(),
            )),
    {
        let context = if entry.id.0 == 0 {
            "model_registry insert failed"
        } else {
            "model_registry update failed"
        };
        if !storable_entry(&entry) {
            return Err(storage_failure(context, "integer value out of range for SQLite"));
        }
        let (sql, params) = registry_next_write(&entry, None).unwrap();
        if entry.id.0 == 0 {
            let id = self.connection.insert(context, sql, &params)?;
            return Ok(ModelRegistryEntry { id: ModelRegistryId(id), ..entry });
        }
        let changed = self.connection.execute(context, sql, &params)?;
        if let Some((sql, params)) = registry_next_write(&entry, Some(changed)) {
            self.connection.execute("model_registry insert-with-id failed", sql, &params)?;
        }
        Ok(entry)
    }

    /// The model currently serving `role`; a model error when none is
    /// selected for it.
    pub fn current_model_for(&self, role: EngineRole) -> (r: Result<ModelRegistryEntry, AppError>)
        ensures
            !self.conn().is_open() ==> r is Err,
            match r {
                Ok(e) => exists|row: Vec<SqlValue>|
                    #[trigger] registry_row(row@) == Ok::<ModelRegistryEntryView, Seq<char>>(e@),
                Err(e) => is_storage_error(e) || (e.code == crate::error::ErrorCode::EngineError
                    && e.category == crate::error::ErrorCategory::ModelError && e.message@ == no_model_message(role)),
            },
    {
        match self.find_for_role(role)? {
            Some(e) => Ok(e),
            None => {
                let mut m: Vec<char> = Vec::new();
                push_str(&mut m, "no model currently assigned to ");
                push_str(&mut m, role_to_label(role));
                Err(AppError::model(string_from_chars(m.as_slice())))
            },
        }
    }
}

// ---------------------------------------------------------------------
// Engines backed by registered models
// ---------------------------------------------------------------------

/// An optional registry entry by its view.
pub open spec fn opt_entry_view(o: Option<ModelRegistryEntry>) -> Option<ModelRegistryEntryView> {
    match o {
        Some(e) => Some(e@),
        None => None,
    }
}

/// A lookup's outcome with the entry by its view.
pub open spec fn lookup_answer(r: Result<Option<ModelRegistryEntry>, AppError>) -> Result<
    Option<ModelRegistryEntryView>,
    AppError,
> {
    match r {
        Ok(o) => Ok(opt_entry_view(o)),
        Err(e) => Err(e),
    }
}

/// Where registered models are read from and written to.
pub trait ModelRegistryRepository {
    /// The registry may answer the lookup of the model selected for
    /// `role` with `answer`; a registry that does not say may answer
    /// anything.
    open spec fn finds(&self, role: EngineRole, answer: Result<Option<ModelRegistryEntryView>, AppError>) -> bool {
        true
    }

    /// The registry may list `entries`; a registry that does not say may
    /// list anything.
    open spec fn lists(&self, entries: Seq<ModelRegistryEntryView>) -> bool {
        true
    }

    fn list(&self) -> (r: Result<Vec<ModelRegistryEntry>, AppError>)
        ensures
            r matches Ok(v) ==> self.lists(views(v@)),
    ;

    fn find_for_role(&self, role: EngineRole) -> (r: Result<Option<ModelRegistryEntry>, AppError>)
        ensures
            self.finds(role, lookup_answer(r)),
    ;

    fn upsert(&self, entry: ModelRegistryEntry) -> Result<ModelRegistryEntry, AppError>;
}

impl ModelRegistryRepository for SqliteModelRegistryRepository {
    fn list(&self) -> (r: Result<Vec<ModelRegistryEntry>, AppError>)
        ensures
            !self.conn().is_open() ==> r is Err,
            match r {
                Ok(v) => decoded_from_rows(views(v@), registry_decoder()),
                Err(e) => is_storage_error(e),
            },
    {
        SqliteModelRegistryRepository::list(self)
    }

    fn find_for_role(&self, role: EngineRole) -> (r: Result<Option<ModelRegistryEntry>, AppError>)
        ensures
            !self.conn().is_open() ==> r is Err,
            match r {
                Ok(Some(e)) => exists|row: Vec<SqlValue>|
                    #[trigger] registry_row(row@) == Ok::<ModelRegistryEntryView, Seq<char>>(e@),
                Ok(None) => true,
                Err(e) => is_storage_error(e),
            },
    {
        SqliteModelRegistryRepository::find_for_role(self, role)
    }

    fn upsert(&self, entry: ModelRegistryEntry) -> (r: Result<ModelRegistryEntry, AppError>)
        ensures
            !self.conn().is_open() ==> r is Err,
            match r {
                Ok(e) => if entry.id.0 == 0 {
                    e@ == (ModelRegistryEntryView { id: e.id, ..entry@ })
                } else {
                    e@ == entry@
                },
                Err(e) => is_storage_error(e),
            },
    {
        SqliteModelRegistryRepository::upsert(self, entry)
    }
}

/// Generates text with a named local model; supplied by the application
/// (the HTTP client of the local model server).
pub trait TextGenerator {
    /// The model `model_identifier` may answer `prompt` with `text`; a
    /// generator that does not say may answer anything.
    open spec fn generates(&self, model_identifier: Seq<char>, prompt: Seq<char>, text: Seq<char>) -> bool {
        true
    }

    fn generate(&self, model_identifier: &str, prompt: &str, images: Option<Vec<String>>, context_length: u32) -> (r: Result<
        String,
        AppError,
    >)
        ensures
            r matches Ok(t) ==> self.generates(model_identifier@, prompt@, t@),
    ;
}

/// The models to fall back on, in registry order, when the selected model
/// `primary` of `role` fails: every other available model registered for
/// the same role, as `(model_identifier, context_length)`.
pub open spec fn fallback_models(entries: Seq<ModelRegistryEntryView>, role: EngineRole, primary: ModelRegistryId) -> Seq<
    (Seq<char>, u32),
>
    decreases entries.len(),
{
    if entries.len() == 0 {
        Seq::empty()
    } else {
        let rest = fallback_models(entries.drop_last(), role, primary);
        let e = entries.last();
        if e.engine_role == role && e.id != primary && e.status == ModelStatus::Available {
            rest.push((e.model_identifier, e.context_length))
        } else {
            rest
        }
    }
}

/// The fallback models for `role` among `entries`, `primary` excluded.
pub fn fallback_candidates(entries: &Vec<ModelRegistryEntry>, role: EngineRole, primary: ModelRegistryId) -> (r: Vec<
    (String, u32),
>)
    ensures
        r@.map_values(|c: (String, u32)| (c.0@, c.1)) == fallback_models(views(entries@), role, primary),
{
    let ghost ev = views(entries@);
    let mut out: Vec<(String, u32)> = Vec::new();
    let mut i: usize = 0;
    assert(ev.take(0) =~= Seq::<ModelRegistryEntryView>::empty());
    assert(out@.map_values(|c: (String, u32)| (c.0@, c.1)) =~= Seq::<(Seq<char>, u32)>::empty());
    while i < entries.len()
        invariant
            i <= entries.len(),
            ev == views(entries@),
            out@.map_values(|c: (String, u32)| (c.0@, c.1)) == fallback_models(ev.take(i as int), role, primary),
        decreases entries.len() - i,
    {
        let ghost t = ev.take(i + 1);
        assert(t.drop_last() =~= ev.take(i as int));
        assert(t.last() == entries@[i as int]@);
        let e = &entries[i];
        if e.engine_role == role && e.id != primary && e.status == ModelStatus::Available {
            let ghost before = out@.map_values(|c: (String, u32)| (c.0@, c.1));
            out.push((e.model_identifier.clone(), e.context_length));
            assert(out@.map_values(|c: (String, u32)| (c.0@, c.1)) =~= before.push(
                (e.model_identifier@, e.context_length),
            ));
        }
        i = i + 1;
    }
    assert(ev.take(entries.len() as int) =~= ev);
    out
}

/// Where answering with the models of one role stands.
pub enum ModelAttempt {
    /// Waiting for the model selected for the role.
    Finding,
    /// Waiting for the answer of the selected model, `primary_id`.
    TryingPrimary { primary_id: ModelRegistryId },
    /// The selected model failed with `primary_error`; waiting for the
    /// registered models.
    Listing { primary_id: ModelRegistryId, primary_error: AppError },
    /// Waiting for the answer of `candidates[next - 1]`, a fallback model
    /// as `(model_identifier, context_length)`.
    TryingFallback { candidates: Vec<(String, u32)>, next: usize, primary_error: AppError },
    Done,
}

/// What came of the last action of an attempt.
pub enum ModelAttemptEvent {
    /// The model selected for the role, if any.
    Found(Option<ModelRegistryEntry>),
    /// Every registered model.
    Listed(Vec<ModelRegistryEntry>),
    /// The answer of the model asked.
    Answered(Result<String, AppError>),
    /// Reading the registry failed.
    Failed(AppError),
}

/// What the engine does next.
pub enum ModelAttemptAction {
    FindModel,
    ListModels,
    /// Ask `model_identifier` with a context of `context_length` tokens.
    Generate { model_identifier: String, context_length: u32 },
    /// The attempt is over with this answer or error.
    Finish(Result<String, AppError>),
}

/// An attempt's fallback position lies within its candidates.
pub open spec fn attempt_wf(a: ModelAttempt) -> bool {
    a matches ModelAttempt::TryingFallback { candidates, next, .. } ==> 1 <= next <= candidates.len()
}

/// `event` is what the action pending in `a` can produce.
pub open spec fn attempt_expects(a: ModelAttempt, event: ModelAttemptEvent) -> bool {
    match event {
        ModelAttemptEvent::Failed(_) => a is Finding || a is Listing,
        ModelAttemptEvent::Found(_) => a is Finding,
        ModelAttemptEvent::Listed(_) => a is Listing,
        ModelAttemptEvent::Answered(_) => a is TryingPrimary || a is TryingFallback,
    }
}

/// `action` is what `a` waits on.
pub open spec fn attempt_pending(a: ModelAttempt, action: ModelAttemptAction) -> bool {
    match a {
        ModelAttempt::Finding => action is FindModel,
        ModelAttempt::TryingPrimary { .. } => action is Generate,
        ModelAttempt::Listing { .. } => action is ListModels,
        ModelAttempt::TryingFallback { .. } => action is Generate,
        ModelAttempt::Done => action is Finish,
    }
}

/// How far an attempt is from its end: its stage, then the fallback
/// models left.
pub open spec fn attempt_stage(a: ModelAttempt) -> nat {
    match a {
        ModelAttempt::Finding => 4,
        ModelAttempt::TryingPrimary { .. } => 3,
        ModelAttempt::Listing { .. } => 2,
        ModelAttempt::TryingFallback { .. } => 1,
        ModelAttempt::Done => 0,
    }
}

pub open spec fn attempt_left(a: ModelAttempt) -> nat {
    match a {
        ModelAttempt::TryingFallback { candidates, next, .. } => (candidates.len() - next) as nat,
        _ => 0,
    }
}

/// The candidates as `(model_identifier, context_length)` views.
pub open spec fn candidate_views(c: Seq<(String, u32)>) -> Seq<(Seq<char>, u32)> {
    c.map_values(|x: (String, u32)| (x.0@, x.1))
}

/// Decides the next step of answering with the models of `role`:
/// - a failure to read the registry ends the attempt with that error;
/// - with no model selected the attempt ends with a model error;
///   otherwise the selected model is asked;
/// - an answer ends the attempt with it;
/// - when the selected model fails, the registered models are read, and
///   the other available models of the role are asked in registry order;
/// - when every one of them fails (or there is none), the attempt ends
///   with the selected model's error.
pub fn model_attempt_step(attempt: ModelAttempt, role: EngineRole, event: ModelAttemptEvent) -> (r: (
    ModelAttempt,
    ModelAttemptAction,
))
    requires
        attempt_wf(attempt),
        attempt_expects(attempt, event),
    ensures
        attempt_wf(r.0),
        attempt_pending(r.0, r.1),
        attempt_stage(r.0) < attempt_stage(attempt) || (attempt_stage(r.0) == attempt_stage(attempt)
            && attempt_left(r.0) < attempt_left(attempt)),
        match (attempt, event) {
            (_, ModelAttemptEvent::Failed(e)) => r.0 is Done && r.1 == ModelAttemptAction::Finish(Err(e)),
            (ModelAttempt::Finding, ModelAttemptEvent::Found(None)) => r.0 is Done && (r.1 matches ModelAttemptAction::Finish(
                Err(e),
            ) && e.code == crate::error::ErrorCode::EngineError && e.category
                == crate::error::ErrorCategory::ModelError && e.message@ == no_model_message(role)),
            (ModelAttempt::Finding, ModelAttemptEvent::Found(Some(p))) => r.0 == (ModelAttempt::TryingPrimary {
                primary_id: p.id,
            }) && (r.1 matches ModelAttemptAction::Generate { model_identifier: m, context_length: c } && m@
                == p.model_identifier@ && c == p.context_length),
            (ModelAttempt::TryingPrimary { primary_id }, ModelAttemptEvent::Answered(a)) => match a {
                Ok(t) => r.0 is Done && r.1 == ModelAttemptAction::Finish(Ok(t)),
                Err(e) => r.0 == (ModelAttempt::Listing { primary_id, primary_error: e }) && r.1 is ListModels,
            },
            (ModelAttempt::Listing { primary_id, primary_error }, ModelAttemptEvent::Listed(entries)) => {
                let c = fallback_models(views(entries@), role, primary_id);
                if c.len() == 0 {
                    r.0 is Done && r.1 == ModelAttemptAction::Finish(Err(primary_error))
                } else {
                    (r.0 matches ModelAttempt::TryingFallback { candidates, next, primary_error: pe }
                        && candidate_views(candidates@) == c && next == 1 && pe == primary_error)
                        && (r.1 matches ModelAttemptAction::Generate { model_identifier: m, context_length: n }
                        && m@ == c[0].0 && n == c[0].1)
                }
            },
            (ModelAttempt::TryingFallback { candidates, next, primary_error }, ModelAttemptEvent::Answered(a)) => match a {
                Ok(t) => r.0 is Done && r.1 == ModelAttemptAction::Finish(Ok(t)),
                Err(_) => if next < candidates.len() {
                    (r.0 matches ModelAttempt::TryingFallback { candidates: c2, next: n2, primary_error: pe }
                        && c2@ == candidates@ && n2 == next + 1 && pe == primary_error) && (r.1 matches ModelAttemptAction::Generate {
                        model_identifier: m,
                        context_length: n,
                    } && m@ == candidates@[next as int].0@ && n == candidates@[next as int].1)
                } else {
                    r.0 is Done && r.1 == ModelAttemptAction::Finish(Err(primary_error))
                },
            },
            _ => true,
        },
{
    match event {
        ModelAttemptEvent::Failed(e) => (ModelAttempt::Done, ModelAttemptAction::Finish(Err(e))),
        ModelAttemptEvent::Found(found) => match found {
            None => {
                let mut m: Vec<char> = Vec::new();
                push_str(&mut m, "no model currently assigned to ");
                push_str(&mut m, role_to_label(role));
                (ModelAttempt::Done, ModelAttemptAction::Finish(Err(AppError::model(string_from_chars(m.as_slice())))))
            },
            Some(p) => (
                ModelAttempt::TryingPrimary { primary_id: p.id },
                ModelAttemptAction::Generate { model_identifier: p.model_identifier, context_length: p.context_length },
            ),
        },
        ModelAttemptEvent::Listed(entries) => match attempt {
            ModelAttempt::Listing { primary_id, primary_error } => {
                let candidates = fallback_candidates(&entries, role, primary_id);
                if candidates.len() == 0 {
                    (ModelAttempt::Done, ModelAttemptAction::Finish(Err(primary_error)))
                } else {
                    let first_model = candidates[0].0.clone();
                    let first_length = candidates[0].1;
                    proof {
                        assert(candidate_views(candidates@)[0] == (candidates@[0].0@, candidates@[0].1));
                    }
                    (
                        ModelAttempt::TryingFallback { candidates, next: 1, primary_error },
                        ModelAttemptAction::Generate { model_identifier: first_model, context_length: first_length },
                    )
                }
            },
            _ => (
                ModelAttempt::Done,
                ModelAttemptAction::Finish(Err(AppError::model("the model attempt was not waiting for this event".to_owned()))),
            ),
        },
        ModelAttemptEvent::Answered(answer) => match attempt {
            ModelAttempt::TryingPrimary { primary_id } => match answer {
                Ok(t) => (ModelAttempt::Done, ModelAttemptAction::Finish(Ok(t))),
                Err(e) => (ModelAttempt::Listing { primary_id, primary_error: e }, ModelAttemptAction::ListModels),
            },
            ModelAttempt::TryingFallback { candidates, next, primary_error } => match answer {
                Ok(t) => (ModelAttempt::Done, ModelAttemptAction::Finish(Ok(t))),
                Err(_) => if next < candidates.len() {
                    let model = candidates[next].0.clone();
                    let length = candidates[next].1;
                    (
                        ModelAttempt::TryingFallback { candidates, next: next + 1, primary_error },
                        ModelAttemptAction::Generate { model_identifier: model, context_length: length },
                    )
                } else {
                    (ModelAttempt::Done, ModelAttemptAction::Finish(Err(primary_error)))
                },
            },
            _ => (
                ModelAttempt::Done,
                ModelAttemptAction::Finish(Err(AppError::model("the model attempt was not waiting for this event".to_owned()))),
            ),
        },
    }
}

/// The engine of one role, answering with whichever model the registry
/// currently selects for that role; when that model fails, the other
/// available models of the role are tried in registry order before the
/// first failure is reported.
pub struct OllamaEngine<R: ModelRegistryRepository, P: TextGenerator> {
    role: EngineRole,
    model_registry: R,
    ollama: P,
}

impl<R: ModelRegistryRepository, P: TextGenerator> OllamaEngine<R, P> {
    pub closed spec fn serves(&self) -> EngineRole {
        self.role
    }

    /// The registry the engine reads its models from.
    pub closed spec fn registry(&self) -> R {
        self.model_registry
    }

    /// The model server the engine asks.
    pub closed spec fn generator(&self) -> P {
        self.ollama
    }

    /// `content` is an answer to `prompt` from the model the registry
    /// selects for the engine's role, or from one of the other available
    /// models of the role that the registry lists.
    pub open spec fn answered_by_role_model(&self, prompt: Seq<char>, content: Seq<char>) -> bool {
        exists|primary: ModelRegistryEntryView|
            #![trigger self.registry().finds(self.serves(), Ok(Some(primary)))]
            self.registry().finds(self.serves(), Ok(Some(primary))) && (self.generator().generates(
                primary.model_identifier,
                prompt,
                content,
            ) || exists|entries: Seq<ModelRegistryEntryView>, k: int|
                #![trigger self.registry().lists(entries), fallback_models(entries, self.serves(), primary.id)[k]]
                self.registry().lists(entries) && 0 <= k < fallback_models(entries, self.serves(), primary.id).len()
                    && self.generator().generates(
                    fallback_models(entries, self.serves(), primary.id)[k].0,
                    prompt,
                    content,
                ))
    }


    pub fn new(role: EngineRole, model_registry: R, ollama: P) -> (r: Self)
        ensures
            r.serves() == role,
    {
        OllamaEngine { role, model_registry, ollama }
    }

    fn try_generate(&self, model_identifier: &str, context_length: u32, prompt: &ResolvedPrompt) -> (r: Result<
        String,
        AppError,
    >)
        ensures
            r matches Ok(t) ==> self.generator().generates(model_identifier@, prompt@.content, t@),
    {
        let images = match &prompt.images {
            Some(v) => Some(crate::records::duplicate_strings(v)),
            None => None,
        };
        self.ollama.generate(model_identifier, prompt.content.as_str(), images, context_length)
    }
}

impl<R: ModelRegistryRepository, P: TextGenerator> Engine for OllamaEngine<R, P> {
    open spec fn engine_role(&self) -> EngineRole {
        self.serves()
    }

    /// An answer comes from a model of the engine's role: the selected
    /// one or an available fallback.
    open spec fn answers(&self, prompt: ResolvedPromptView, content: Seq<char>) -> bool {
        self.answered_by_role_model(prompt.content, content)
    }

    fn role(&self) -> (r: EngineRole)
        ensures
            r == self.serves(),
    {
        self.role
    }

    /// Answers with the model selected for this engine's role, falling
    /// back on the other available models of the role in registry order;
    /// a role without a selected model is a model error.
    fn run(&self, prompt: ResolvedPrompt) -> (r: Result<EngineOutput, AppError>)
        ensures
            (forall|a: Result<Option<ModelRegistryEntryView>, AppError>|
                #[trigger] self.registry().finds(self.serves(), a) ==> a == Ok::<
                    Option<ModelRegistryEntryView>,
                    AppError,
                >(None)) ==> (r matches Err(e) && e.code == crate::error::ErrorCode::EngineError && e.category
                == crate::error::ErrorCategory::ModelError && e.message@ == no_model_message(self.serves())),
    {
        let ghost mut primary_v: ModelRegistryEntryView = arbitrary();
        let ghost mut listing_v: Seq<ModelRegistryEntryView> = Seq::empty();
        let mut attempt = ModelAttempt::Finding;
        let mut action = ModelAttemptAction::FindModel;
        loop
            invariant
                attempt_wf(attempt),
                attempt_pending(attempt, action),
                attempt matches ModelAttempt::TryingPrimary { primary_id } ==> self.registry().finds(
                    self.role,
                    Ok(Some(primary_v)),
                ) && primary_id == primary_v.id && (action matches ModelAttemptAction::Generate {
                    model_identifier: m,
                    ..
                } && m@ == primary_v.model_identifier),
                attempt matches ModelAttempt::Listing { primary_id, .. } ==> self.registry().finds(
                    self.role,
                    Ok(Some(primary_v)),
                ) && primary_id == primary_v.id,
                attempt matches ModelAttempt::TryingFallback { candidates, next, .. } ==> self.registry().finds(
                    self.role,
                    Ok(Some(primary_v)),
                ) && self.registry().lists(listing_v) && candidate_views(candidates@) == fallback_models(
                    listing_v,
                    self.role,
                    primary_v.id,
                ) && (action matches ModelAttemptAction::Generate { model_identifier: m, .. } && m@
                    == candidates@[next - 1].0@),
                action matches ModelAttemptAction::Finish(Ok(t)) ==> self.answered_by_role_model(prompt@.content, t@),
                (forall|a: Result<Option<ModelRegistryEntryView>, AppError>|
                    #[trigger] self.registry().finds(self.role, a) ==> a == Ok::<
                        Option<ModelRegistryEntryView>,
                        AppError,
                    >(None)) ==> (attempt is Finding || (attempt is Done && (action matches ModelAttemptAction::Finish(
                    Err(e),
                ) && e.code == crate::error::ErrorCode::EngineError && e.category
                    == crate::error::ErrorCategory::ModelError && e.message@ == no_model_message(self.role)))),
            decreases attempt_stage(attempt), attempt_left(attempt),
        {
            let ghost asked = action;
            let event = match action {
                ModelAttemptAction::Finish(result) => {
                    return match result {
                        Ok(content) => Ok(EngineOutput { content }),
                        Err(e) => Err(e),
                    };
                },
                ModelAttemptAction::FindModel => {
                    let lookup = self.model_registry.find_for_role(self.role);
                    proof {
                        let answer = lookup_answer(lookup);
                        assert(self.registry().finds(self.role, answer));
                        if answer == Ok::<Option<ModelRegistryEntryView>, AppError>(None) {
                            assert(lookup matches Ok(None));
                        }
                    }
                    match lookup {
                        Ok(found) => ModelAttemptEvent::Found(found),
                        Err(e) => ModelAttemptEvent::Failed(e),
                    }
                },
                ModelAttemptAction::ListModels => match self.model_registry.list() {
                    Ok(entries) => ModelAttemptEvent::Listed(entries),
                    Err(e) => ModelAttemptEvent::Failed(e),
                },
                ModelAttemptAction::Generate { model_identifier, context_length } => ModelAttemptEvent::Answered(
                    self.try_generate(model_identifier.as_str(), context_length, &prompt),
                ),
            };
            let ghost ev = event;
            let ghost was = attempt;
            let (next_attempt, next_action) = model_attempt_step(attempt, self.role, event);
            let ghost decided = next_action;
            proof {
                if let ModelAttemptEvent::Found(Some(p)) = ev {
                    primary_v = p@;
                }
                if let ModelAttemptEvent::Listed(entries) = ev {
                    listing_v = views(entries@);
                }
                if let ModelAttemptAction::Finish(Ok(t)) = decided {
                    if let ModelAttemptAction::Generate { model_identifier: m, .. } = asked {
                        assert(self.generator().generates(m@, prompt@.content, t@));
                        if let ModelAttempt::TryingFallback { candidates, next, .. } = was {
                            let fb = fallback_models(listing_v, self.role, primary_v.id);
                            assert(candidate_views(candidates@)[next - 1] == (candidates@[next - 1].0@, candidates@[next - 1].1));
                            assert(fb[next - 1].0 == m@);
                            assert(self.registry().lists(listing_v));
                        }
                        assert(self.registry().finds(self.serves(), Ok(Some(primary_v))));
                    }
                }
            }
            attempt = next_attempt;
            action = next_action;
        }
    }
}

} // verus!

use atlas_core::db::SqliteConnection;
use atlas_core::engines::EngineRole;
use atlas_core::ids::ModelRegistryId;
use atlas_core::json::JsonValue;
use atlas_core::registry::{ModelRegistryEntry, ModelStatus, SqliteModelRegistryRepository};

fn repo() -> SqliteModelRegistryRepository {
    SqliteModelRegistryRepository::new(SqliteConnection::open(":memory:"))
}

fn sample(role: EngineRole, selected: bool) -> ModelRegistryEntry {
    ModelRegistryEntry {
        id: ModelRegistryId(0),
        model_identifier: "llama3.1".to_string(),
        engine_role: role,
        capabilities: JsonValue::Array(vec![JsonValue::Str("text-generation".to_string())]),
        context_length: 8192,
        vram_requirement: Some(8_000_000_000),
        status: ModelStatus::Available,
        version: "1".to_string(),
        supported_tasks: JsonValue::Array(vec![JsonValue::Str("chat".to_string())]),
        is_selected_for_role: selected,
    }
}

#[test]
fn upsert_assigns_id_and_persists() {
    let repo = repo();
    let entry = repo.upsert(sample(EngineRole::Tutor, true)).unwrap();
    assert_ne!(entry.id.0, 0);
    assert_eq!(repo.list().unwrap().len(), 1);
}

#[test]
fn find_for_role_only_returns_selected_entry() {
    let repo = repo();
    repo.upsert(sample(EngineRole::Tutor, false)).unwrap();
    assert!(repo.find_for_role(EngineRole::Tutor).unwrap().is_none());
    repo.upsert(sample(EngineRole::Tutor, true)).unwrap();
    assert!(repo.find_for_role(EngineRole::Tutor).unwrap().is_some());
}

#[test]
fn upsert_with_existing_id_updates_in_place() {
    let repo = repo();
    let inserted = repo.upsert(sample(EngineRole::Reasoning, true)).unwrap();
    let mut updated = sample(EngineRole::Reasoning, true);
    updated.id = inserted.id;
    updated.model_identifier = "qwen2.5".to_string();
    repo.upsert(updated).unwrap();
    let all = repo.list().unwrap();
    assert_eq!(all.len(), 1);
    assert_eq!(all[0].model_identifier, "qwen2.5");
}

#[test]
fn upsert_with_an_unknown_id_inserts_under_that_id() {
    let repo = repo();
    let mut entry = sample(EngineRole::Planner, true);
    entry.id = ModelRegistryId(41);
    repo.upsert(entry).unwrap();
    let all = repo.list().unwrap();
    assert_eq!(all.len(), 1);
    assert_eq!(all[0].id, ModelRegistryId(41));
}

#[test]
fn capabilities_and_supported_tasks_round_trip_as_json() {
    let repo = repo();
    let inserted = repo.upsert(sample(EngineRole::Vision, true)).unwrap();
    let found = repo.find_for_role(EngineRole::Vision).unwrap().unwrap();
    assert_eq!(format!("{:?}", found.capabilities), format!("{:?}", inserted.capabilities));
    assert_eq!(format!("{:?}", found.supported_tasks), format!("{:?}", inserted.supported_tasks));
    assert_eq!(found.vram_requirement, Some(8_000_000_000));
    assert_eq!(found.status, ModelStatus::Available);
}

#[test]
fn a_vram_requirement_beyond_sqlite_integers_is_refused() {
    let repo = repo();
    let mut entry = sample(EngineRole::Tutor, true);
    entry.vram_requirement = Some(u64::MAX);
    let err = repo.upsert(entry).unwrap_err();
    assert_eq!(err.message, "model_registry insert failed: integer value out of range for SQLite");
}

#[test]
fn current_model_for_a_role_without_a_selected_model_is_a_model_error() {
    let repo = repo();
    let err = repo.current_model_for(EngineRole::Planner).unwrap_err();
    assert_eq!(err.message, "no model currently assigned to Planner");
}

use atlas_core::db::SqlParam;
use atlas_core::registry::registry_next_write;

#[test]
fn a_new_entry_is_inserted_and_a_known_one_updated_then_inserted_under_its_id_when_missing() {
    let fresh = sample(EngineRole::Tutor, true);
    let (sql, params) = registry_next_write(&fresh, None).unwrap();
    assert!(sql.starts_with("INSERT INTO model_registry (model_identifier"));
    assert_eq!(params.len(), 9);
    assert!(registry_next_write(&fresh, Some(0)).is_none());

    let mut known = sample(EngineRole::Tutor, true);
    known.id = ModelRegistryId(7);
    let (sql, params) = registry_next_write(&known, None).unwrap();
    assert!(sql.starts_with("UPDATE model_registry"));
    assert!(matches!(params[9], SqlParam::Integer(7)));
    let (sql, params) = registry_next_write(&known, Some(0)).unwrap();
    assert!(sql.starts_with("INSERT INTO model_registry (id,"));
    assert!(matches!(params[0], SqlParam::Integer(7)));
    assert!(registry_next_write(&known, Some(1)).is_none());
}

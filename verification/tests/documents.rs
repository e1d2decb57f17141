use atlas_core::db::SqliteConnection;
use atlas_core::documents::{Chunk, DocumentRecord, ParseStatus, SqliteChunkRepository, SqliteDocumentRepository};
use atlas_core::ids::{ChunkId, DocumentId, WorkspaceId};

fn sample(document_id: i64, sequence_index: u32, text: &str) -> Chunk {
    Chunk {
        id: ChunkId(0),
        document_id: DocumentId(document_id),
        sequence_index,
        text_content: text.to_string(),
        page_or_location_ref: "1".to_string(),
        token_count: text.split_whitespace().count() as u32,
        parser_version: "chunker-v1".to_string(),
    }
}

fn chunks() -> SqliteChunkRepository {
    SqliteChunkRepository::new(SqliteConnection::open(":memory:"))
}

fn document(workspace_id: i64, path: &str) -> DocumentRecord {
    DocumentRecord {
        id: DocumentId(0),
        workspace_id: WorkspaceId(workspace_id),
        relative_path: path.to_string(),
        content_hash: "hash-a".to_string(),
        file_type: "md".to_string(),
        size: 10,
        mtime: "1970-01-01T00:00:00Z".to_string(),
        parse_status: ParseStatus::Pending,
        last_indexed_hash: None,
    }
}

fn documents() -> SqliteDocumentRepository {
    SqliteDocumentRepository::new(SqliteConnection::open(":memory:"))
}

#[test]
fn insert_assigns_an_id_and_persists_the_row() {
    let repo = chunks();
    let inserted = repo.insert(sample(1, 0, "hello world")).unwrap();
    assert_ne!(inserted.id.0, 0);
    assert!(repo.find_by_id(inserted.id).unwrap().is_some());
}

#[test]
fn list_for_document_returns_chunks_in_sequence_order() {
    let repo = chunks();
    repo.insert(sample(1, 1, "second")).unwrap();
    repo.insert(sample(1, 0, "first")).unwrap();
    repo.insert(sample(2, 0, "other document")).unwrap();
    let listed = repo.list_for_document(DocumentId(1)).unwrap();
    assert_eq!(listed.len(), 2);
    assert_eq!(listed[0].text_content, "first");
    assert_eq!(listed[1].text_content, "second");
}

#[test]
fn delete_for_document_only_removes_that_documents_chunks() {
    let repo = chunks();
    repo.insert(sample(1, 0, "keep me? no")).unwrap();
    repo.insert(sample(2, 0, "survivor")).unwrap();
    repo.delete_for_document(DocumentId(1)).unwrap();
    assert!(repo.list_for_document(DocumentId(1)).unwrap().is_empty());
    assert_eq!(repo.list_for_document(DocumentId(2)).unwrap().len(), 1);
}

#[test]
fn chunk_adapter_find_by_id_missing_returns_none() {
    let repo = chunks();
    assert!(repo.find_by_id(ChunkId(999)).unwrap().is_none());
}

#[test]
fn document_adapter_find_by_id_missing_returns_none() {
    let repo = documents();
    assert!(repo.find_by_id(DocumentId(999)).unwrap().is_none());
}

#[test]
fn upsert_inserts_then_updates_the_same_path_in_place() {
    let repo = documents();
    let first = repo.upsert(document(1, "a.md")).unwrap();
    assert_ne!(first.id.0, 0);
    let mut changed = document(1, "a.md");
    changed.content_hash = "hash-b".to_string();
    changed.parse_status = ParseStatus::Parsed;
    let second = repo.upsert(changed).unwrap();
    assert_eq!(second.id, first.id);
    let all = repo.list_for_workspace(WorkspaceId(1)).unwrap();
    assert_eq!(all.len(), 1);
    assert_eq!(all[0].content_hash, "hash-b");
    assert_eq!(all[0].parse_status, ParseStatus::Parsed);
}

#[test]
fn list_for_workspace_only_returns_that_workspaces_documents() {
    let repo = documents();
    repo.upsert(document(1, "a.md")).unwrap();
    repo.upsert(document(2, "b.md")).unwrap();
    let ws1 = repo.list_for_workspace(WorkspaceId(1)).unwrap();
    assert_eq!(ws1.len(), 1);
    assert_eq!(ws1[0].relative_path, "a.md");
}

#[test]
fn delete_removes_the_row() {
    let repo = documents();
    let inserted = repo.upsert(document(1, "gone.md")).unwrap();
    repo.delete(inserted.id).unwrap();
    assert!(repo.find_by_id(inserted.id).unwrap().is_none());
}

#[test]
fn upsert_inserts_a_new_document() {
    let repo = documents();
    let inserted = repo.upsert(document(1, "notes.md")).unwrap();
    assert_ne!(inserted.id.0, 0);
    assert!(repo.find_by_id(inserted.id).unwrap().is_some());
}

#[test]
fn upsert_on_same_path_updates_in_place_rather_than_duplicating() {
    let repo = documents();
    let first = repo.upsert(document(1, "notes.md")).unwrap();
    let mut changed = document(1, "notes.md");
    changed.content_hash = "hash-b".to_string();
    changed.parse_status = ParseStatus::Parsed;
    let second = repo.upsert(changed).unwrap();
    assert_eq!(first.id, second.id);
    let all = repo.list_for_workspace(WorkspaceId(1)).unwrap();
    assert_eq!(all.len(), 1);
    assert_eq!(all[0].content_hash, "hash-b");
    assert_eq!(all[0].parse_status, ParseStatus::Parsed);
}

use atlas_core::db::{SqlParam, SqlValue};
use atlas_core::documents::{document_upsert_step, DocumentWrite};

#[test]
fn an_upsert_rewrites_the_row_the_lookup_found_and_keeps_its_id() {
    let rows = vec![vec![SqlValue::Integer(42)]];
    match document_upsert_step(&document(1, "a.md"), &rows).unwrap() {
        DocumentWrite::Update { id, params } => {
            assert_eq!(id, 42);
            assert_eq!(params.len(), 7);
            assert!(matches!(params[0], SqlParam::Text(ref h) if h == "hash-a"));
            assert!(matches!(params[6], SqlParam::Integer(42)));
        },
        DocumentWrite::Insert { .. } => panic!("a found row is updated in place"),
    }
}

#[test]
fn an_upsert_without_a_matching_row_inserts_one() {
    match document_upsert_step(&document(3, "new.md"), &Vec::new()).unwrap() {
        DocumentWrite::Insert { params } => {
            assert_eq!(params.len(), 8);
            assert!(matches!(params[0], SqlParam::Integer(3)));
            assert!(matches!(params[1], SqlParam::Text(ref p) if p == "new.md"));
            assert!(matches!(params[7], SqlParam::Null));
        },
        DocumentWrite::Update { .. } => panic!("nothing to update"),
    }
}

#[test]
fn an_upsert_lookup_row_without_an_id_is_a_storage_error() {
    let rows = vec![vec![SqlValue::Text("x".to_string())]];
    let e = match document_upsert_step(&document(1, "a.md"), &rows) {
        Err(e) => e,
        Ok(_) => panic!("a row without an id cannot be used"),
    };
    assert_eq!(e.category, atlas_core::error::ErrorCategory::SystemError);
}

#[test]
fn a_relative_path_must_stay_inside_the_workspace() {
    let path_stays_inside = atlas_core::documents::path_stays_inside;
    assert!(path_stays_inside("notes/a.md"));
    assert!(path_stays_inside("./notes/..a.md"));
    assert!(!path_stays_inside("/etc/passwd"));
    assert!(!path_stays_inside("../escape.md"));
    assert!(!path_stays_inside("notes/../../escape.md"));
    assert!(!path_stays_inside("notes/.."));
}

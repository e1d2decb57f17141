use atlas_core::db::SqliteConnection;
use atlas_core::documents::{Chunk, DocumentRecord, ParseStatus, SqliteChunkRepository, SqliteDocumentRepository};
use atlas_core::ids::{ChunkId, DocumentId, WorkspaceId};
use atlas_core::search::{
    contains_chars, count_matches, rank_keyword_rows, search_terms, split_words, KeywordRow,
    SqliteKeywordSearchRepository,
};

fn seed(connection: &SqliteConnection, workspace_id: i64, path: &str, text: &str) {
    let documents = SqliteDocumentRepository::new(connection.clone());
    let chunks = SqliteChunkRepository::new(connection.clone());
    let doc = documents
        .upsert(DocumentRecord {
            id: DocumentId(0),
            workspace_id: WorkspaceId(workspace_id),
            relative_path: path.to_string(),
            content_hash: "hash".to_string(),
            file_type: "md".to_string(),
            size: text.len() as u64,
            mtime: "1970-01-01T00:00:00Z".to_string(),
            parse_status: ParseStatus::Parsed,
            last_indexed_hash: Some("hash".to_string()),
        })
        .unwrap();
    chunks
        .insert(Chunk {
            id: ChunkId(0),
            document_id: doc.id,
            sequence_index: 0,
            text_content: text.to_string(),
            page_or_location_ref: "1".to_string(),
            token_count: text.split_whitespace().count() as u32,
            parser_version: "chunker-v1".to_string(),
        })
        .unwrap();
}

#[test]
fn search_finds_chunks_containing_query_terms() {
    let connection = SqliteConnection::open(":memory:");
    seed(&connection, 1, "a.md", "gradient descent optimizes loss");
    seed(&connection, 1, "b.md", "bananas are a good source of potassium");
    let repo = SqliteKeywordSearchRepository::new(connection);
    let hits = repo.search(WorkspaceId(1), "gradient loss", 10).unwrap();
    assert_eq!(hits.len(), 1);
    assert!(hits[0].text_content.contains("gradient"));
    assert_eq!((hits[0].matched_terms, hits[0].term_count), (2, 2));
}

#[test]
fn search_is_scoped_to_the_given_workspace() {
    let connection = SqliteConnection::open(":memory:");
    seed(&connection, 1, "a.md", "shared keyword appears here");
    seed(&connection, 2, "b.md", "shared keyword appears here too");
    let repo = SqliteKeywordSearchRepository::new(connection);
    let hits = repo.search(WorkspaceId(1), "shared keyword", 10).unwrap();
    assert_eq!(hits.len(), 1);
}

#[test]
fn search_with_no_matches_returns_empty() {
    let connection = SqliteConnection::open(":memory:");
    seed(&connection, 1, "a.md", "completely unrelated text");
    let repo = SqliteKeywordSearchRepository::new(connection);
    assert!(repo.search(WorkspaceId(1), "nonexistent term", 10).unwrap().is_empty());
}

#[test]
fn search_respects_the_limit() {
    let connection = SqliteConnection::open(":memory:");
    for i in 0..5 {
        seed(&connection, 1, &format!("f{i}.md"), "repeated keyword text here");
    }
    let repo = SqliteKeywordSearchRepository::new(connection);
    assert_eq!(repo.search(WorkspaceId(1), "repeated keyword", 2).unwrap().len(), 2);
}

#[test]
fn a_blank_query_finds_nothing() {
    let connection = SqliteConnection::open(":memory:");
    seed(&connection, 1, "a.md", "anything");
    let repo = SqliteKeywordSearchRepository::new(connection);
    assert!(repo.search(WorkspaceId(1), "   \t ", 10).unwrap().is_empty());
}

#[test]
fn query_terms_are_the_lower_cased_words() {
    let terms = search_terms("  Gradient\tDESCENT  loss ");
    assert_eq!(terms, vec!["gradient".to_string(), "descent".to_string(), "loss".to_string()]);
    let words = split_words("a  bc\nd");
    assert_eq!(words, vec![vec!['a'], vec!['b', 'c'], vec!['d']]);
}

#[test]
fn substring_matching_and_counting() {
    let hay: Vec<char> = "gradient descent".chars().collect();
    assert!(contains_chars(&hay, &"desc".chars().collect()));
    assert!(!contains_chars(&hay, &"ascent".chars().collect()));
    assert!(contains_chars(&hay, &Vec::new()));
    let terms: Vec<Vec<char>> = vec!["grad".chars().collect(), "xyz".chars().collect(), "cent".chars().collect()];
    assert_eq!(count_matches(&hay, &terms), 2);
}

fn row(id: i64, text: &str) -> KeywordRow {
    KeywordRow {
        chunk_id: ChunkId(id),
        document_id: DocumentId(1),
        text_content: text.to_string(),
        page_or_location_ref: "1".to_string(),
    }
}

#[test]
fn ranking_puts_more_matched_terms_first_and_keeps_row_order_among_ties() {
    let rows = vec![row(1, "alpha"), row(2, "Alpha Beta"), row(3, "nothing"), row(4, "beta only"), row(5, "ALPHA and BETA")];
    let terms = vec!["alpha".to_string(), "beta".to_string()];
    let hits = rank_keyword_rows(&rows, &terms, 10);
    let ids: Vec<i64> = hits.iter().map(|h| h.chunk_id.0).collect();
    assert_eq!(ids, vec![2, 5, 1, 4]);
    assert_eq!(hits[0].matched_terms, 2);
    assert_eq!(hits[2].matched_terms, 1);
    assert!(hits.iter().all(|h| h.term_count == 2));
    let top = rank_keyword_rows(&rows, &terms, 1);
    assert_eq!(top.len(), 1);
    assert_eq!(top[0].chunk_id, ChunkId(2));
}

use std::sync::{Arc, Mutex};

use atlas_core::engines::{Engine, EngineOutput, EnginePool, EngineRole, ResolvedPrompt};
use atlas_core::error::{AppError, ErrorCategory};
use atlas_core::graph::{
    ConceptExtractionModel, EnginePoolConceptExtractor, GraphEngine, GraphRepository,
    InMemoryGraphRepository,
};
use atlas_core::graph::{next_extraction_step, ExtractionStep};
use atlas_core::ids::WorkspaceId;

struct EchoEngine;

impl Engine for EchoEngine {
    fn role(&self) -> EngineRole {
        EngineRole::Reasoning
    }

    fn run(&self, prompt: ResolvedPrompt) -> Result<EngineOutput, AppError> {
        Ok(EngineOutput { content: format!("echo: {}", prompt.content) })
    }
}

#[test]
fn extract_routes_through_the_reasoning_role() {
    let pool = Arc::new(EnginePool::new(vec![Arc::new(EchoEngine)]));
    let extractor = EnginePoolConceptExtractor::new(pool);
    let result = extractor.extract("prompt text").unwrap();
    assert_eq!(result, "echo: prompt text");
}

/// Answers with a fixed script, one reply per call.
struct ScriptedModel {
    responses: Mutex<Vec<String>>,
}

impl ScriptedModel {
    fn new(responses: Vec<&str>) -> ScriptedModel {
        ScriptedModel { responses: Mutex::new(responses.into_iter().rev().map(String::from).collect()) }
    }
}

impl ConceptExtractionModel for ScriptedModel {
    fn extract(&self, _prompt: &str) -> Result<String, AppError> {
        Ok(self.responses.lock().unwrap().pop().unwrap_or_default())
    }
}

fn engine_with(model: ScriptedModel) -> GraphEngine<InMemoryGraphRepository, ScriptedModel> {
    GraphEngine::new(InMemoryGraphRepository::new()).with_model(model)
}

fn chunk(text: &str) -> Vec<String> {
    vec![text.to_string()]
}

#[test]
fn extract_for_document_without_a_model_attached_returns_a_model_error() {
    let mut engine: GraphEngine<InMemoryGraphRepository, ScriptedModel> = GraphEngine::new(InMemoryGraphRepository::new());
    let err = engine.extract_for_document(WorkspaceId(1), "doc.pdf", &chunk("some text")).unwrap_err();
    assert_eq!(err.category, ErrorCategory::ModelError);
}

#[test]
fn extract_for_document_with_empty_chunks_is_a_no_op() {
    let mut engine = engine_with(ScriptedModel::new(vec![]));
    let outcome = engine.extract_for_document(WorkspaceId(1), "doc.pdf", &Vec::new()).unwrap();
    assert_eq!((outcome.nodes_created, outcome.nodes_reused, outcome.edges_created), (0, 0, 0));
}

#[test]
fn extract_for_document_parses_well_formed_json_and_persists_nodes_and_edges() {
    let response = r#"{"concepts":[{"name":"Derivatives","description":"rate of change"},
        {"name":"Gradient Descent","description":null}],
        "relations":[{"from":"Derivatives","to":"Gradient Descent","type":"prerequisite-of"}]}"#;
    let mut engine = engine_with(ScriptedModel::new(vec![response]));
    let outcome = engine.extract_for_document(WorkspaceId(1), "calc.pdf", &chunk("chunk text")).unwrap();
    assert_eq!(outcome.nodes_created, 2);
    assert_eq!(outcome.nodes_reused, 0);
    assert_eq!(outcome.edges_created, 1);
    let nodes = engine.repository().list_nodes_for_workspace(WorkspaceId(1)).unwrap();
    assert_eq!(nodes.len(), 2);
}

#[test]
fn extract_for_document_strips_a_markdown_code_fence() {
    let response = "```json\n{\"concepts\":[{\"name\":\"X\"}],\"relations\":[]}\n```";
    let mut engine = engine_with(ScriptedModel::new(vec![response]));
    let outcome = engine.extract_for_document(WorkspaceId(1), "doc.pdf", &chunk("t")).unwrap();
    assert_eq!(outcome.nodes_created, 1);
}

#[test]
fn extract_for_document_retries_once_on_unparseable_response_then_succeeds() {
    let mut engine =
        engine_with(ScriptedModel::new(vec!["not json at all", r#"{"concepts":[{"name":"X"}],"relations":[]}"#]));
    let outcome = engine.extract_for_document(WorkspaceId(1), "doc.pdf", &chunk("t")).unwrap();
    assert_eq!(outcome.nodes_created, 1);
}

#[test]
fn extract_for_document_gives_up_after_one_retry() {
    let mut engine = engine_with(ScriptedModel::new(vec!["still not json", "still not json either"]));
    let err = engine.extract_for_document(WorkspaceId(1), "doc.pdf", &chunk("t")).unwrap_err();
    assert_eq!(err.category, ErrorCategory::ModelError);
}

#[test]
fn extract_for_document_dedupes_by_normalized_label_across_calls() {
    let mut engine = engine_with(ScriptedModel::new(vec![
        r#"{"concepts":[{"name":"Derivatives"}],"relations":[]}"#,
        r#"{"concepts":[{"name":"  derivatives "}],"relations":[]}"#,
    ]));
    engine.extract_for_document(WorkspaceId(1), "doc1.pdf", &chunk("t")).unwrap();
    let second = engine.extract_for_document(WorkspaceId(1), "doc2.pdf", &chunk("t")).unwrap();
    assert_eq!(second.nodes_created, 0);
    assert_eq!(second.nodes_reused, 1);
    assert_eq!(engine.repository().list_nodes_for_workspace(WorkspaceId(1)).unwrap().len(), 1);
}

#[test]
fn extract_for_document_skips_relations_naming_an_unlisted_concept() {
    let response = r#"{"concepts":[{"name":"A"}],"relations":[{"from":"A","to":"Ghost","type":"related-to"}]}"#;
    let mut engine = engine_with(ScriptedModel::new(vec![response]));
    let outcome = engine.extract_for_document(WorkspaceId(1), "doc.pdf", &chunk("t")).unwrap();
    assert_eq!(outcome.edges_created, 0);
}

#[test]
fn extract_for_document_is_idempotent_on_edges_when_rerun() {
    let response = r#"{"concepts":[{"name":"A"},{"name":"B"}],"relations":[{"from":"A","to":"B","type":"related-to"}]}"#;
    let mut engine = engine_with(ScriptedModel::new(vec![response, response]));
    engine.extract_for_document(WorkspaceId(1), "doc.pdf", &chunk("t")).unwrap();
    let second = engine.extract_for_document(WorkspaceId(1), "doc.pdf", &chunk("t")).unwrap();
    assert_eq!(second.edges_created, 0);
}

use atlas_core::graph::{concept_detail, edges_for_workspace, graph_full, ConceptEdge, ConceptNode, RelationType};
use atlas_core::ids::{ConceptEdgeId, ConceptNodeId};

fn node(workspace: i64, label: &str) -> ConceptNode {
    ConceptNode {
        id: ConceptNodeId(0),
        workspace_id: WorkspaceId(workspace),
        label: label.to_string(),
        description: None,
        created_at: "t".to_string(),
    }
}

#[test]
fn a_workspaces_graph_lists_each_nodes_edges_in_node_order() {
    let mut repo = InMemoryGraphRepository::new();
    let a = repo.insert_node(node(1, "A")).unwrap();
    let b = repo.insert_node(node(1, "B")).unwrap();
    let other = repo.insert_node(node(2, "Z")).unwrap();
    let ab = repo
        .insert_edge(ConceptEdge { id: ConceptEdgeId(0), from_node_id: a.id, to_node_id: b.id, relation_type: RelationType::RelatedTo })
        .unwrap();
    repo.insert_edge(ConceptEdge { id: ConceptEdgeId(0), from_node_id: other.id, to_node_id: other.id, relation_type: RelationType::PartOf })
        .unwrap();
    let edges = edges_for_workspace(&repo, WorkspaceId(1)).unwrap();
    assert_eq!(edges.len(), 2);
    assert_eq!(edges[0].id, ab.id);
    assert_eq!(edges[1].id, ab.id);
    let full = graph_full(&repo, WorkspaceId(1)).unwrap();
    assert_eq!(full.nodes.len(), 2);
    assert_eq!(full.edges.len(), 2);
    let detail = concept_detail(&repo, b.id).unwrap().unwrap();
    assert_eq!(detail.node.label, "B");
    assert_eq!(detail.edges.len(), 1);
    assert!(concept_detail(&repo, ConceptNodeId(99)).unwrap().is_none());
}

#[test]
fn engine_exposes_the_injected_dependencies() {
    let engine: GraphEngine<InMemoryGraphRepository, ScriptedModel> = GraphEngine::new(InMemoryGraphRepository::new());
    assert!(engine.repository().list_nodes_for_workspace(WorkspaceId(1)).unwrap().is_empty());
}

#[test]
fn unrecognized_relation_type_defaults_to_related_to_rather_than_dropping_the_edge() {
    let response = r#"{"concepts":[{"name":"A"},{"name":"B"}],"relations":[{"from":"A","to":"B","type":"something-weird"}]}"#;
    let mut engine = engine_with(ScriptedModel::new(vec![response]));
    let outcome = engine.extract_for_document(WorkspaceId(1), "doc.pdf", &chunk("t")).unwrap();
    assert_eq!(outcome.edges_created, 1);
    let nodes = engine.repository().list_nodes_for_workspace(WorkspaceId(1)).unwrap();
    let edges = engine.repository().list_edges_for_node(nodes[0].id).unwrap();
    assert_eq!(edges[0].relation_type, RelationType::RelatedTo);
}

#[test]
fn an_unparseable_reply_is_retried_once_with_the_parse_error_then_given_up() {
    match next_extraction_step("PROMPT", "not json", false) {
        ExtractionStep::Retry(p) => {
            assert!(p.starts_with("PROMPT\n\nYour previous reply could not be parsed as JSON ("));
            assert!(p.ends_with("). Reply again with ONLY the JSON object, nothing else."));
        },
        _ => panic!("the first failure is retried"),
    }
    match next_extraction_step("PROMPT", "still not json", true) {
        ExtractionStep::GiveUp(e) => {
            assert_eq!(e.category, ErrorCategory::ModelError);
            assert!(e.message.starts_with("concept extraction response was not valid JSON after one retry: "));
        },
        _ => panic!("the second failure gives up"),
    }
    match next_extraction_step("PROMPT", r#"{"concepts":[{"name":"Limits"}],"relations":[]}"#, true) {
        ExtractionStep::Merge(x) => assert_eq!(x.concepts.len(), 1),
        _ => panic!("a parsed reply is merged"),
    }
}

#[test]
fn concept_keys_ignore_ascii_case_and_surrounding_space() {
    assert_eq!(atlas_core::graph::normalize_label("  Derivatives "), "derivatives");
    assert_eq!(
        atlas_core::graph::normalize_label("Derivatives"),
        atlas_core::graph::normalize_label("derivatives")
    );
}

#[test]
fn the_extraction_prompt_lists_every_chunk_numbered_in_order() {
    let chunks = vec!["Limits come first.".to_string(), "Then derivatives.".to_string()];
    let prompt = atlas_core::graph::build_extraction_prompt("calculus.md", &chunks);
    assert!(prompt.contains("Document: calculus.md"));
    assert!(prompt.ends_with("TEXT:\n\n[chunk 1]\nLimits come first.\n\n[chunk 2]\nThen derivatives."));
}

#[test]
fn a_second_unreadable_extraction_reply_is_a_model_error() {
    let reply = atlas_core::graph::next_extraction_step("p", "not json", true);
    match reply {
        ExtractionStep::GiveUp(e) => {
            assert_eq!(e.category, ErrorCategory::ModelError);
            assert!(e.message.starts_with("concept extraction response was not valid JSON after one retry: "));
        },
        _ => panic!("a second unreadable reply gives up"),
    }
}

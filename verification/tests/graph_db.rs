use atlas_core::db::SqliteConnection;
use atlas_core::graph::{ConceptEdge, ConceptNode, GraphRepository, RelationType, SqliteGraphRepository};
use atlas_core::ids::{ConceptEdgeId, ConceptNodeId, WorkspaceId};

fn conn() -> SqliteConnection {
    SqliteConnection::open(":memory:")
}

fn sample_node(workspace_id: i64, label: &str) -> ConceptNode {
    ConceptNode {
        id: ConceptNodeId(0),
        workspace_id: WorkspaceId(workspace_id),
        label: label.to_string(),
        description: Some("a concept".to_string()),
        created_at: "t1".to_string(),
    }
}

#[test]
fn insert_then_find_node_round_trips() {
    let mut repo = SqliteGraphRepository::new(conn());
    let inserted = repo.insert_node(sample_node(1, "Gradient Descent")).unwrap();
    assert_ne!(inserted.id.0, 0);
    let found = repo.find_node(inserted.id).unwrap().unwrap();
    assert_eq!(found.label, "Gradient Descent");
    assert_eq!(found.workspace_id, WorkspaceId(1));
    assert_eq!(found.description.as_deref(), Some("a concept"));
}

#[test]
fn find_node_returns_none_not_error_when_missing() {
    let repo = SqliteGraphRepository::new(conn());
    assert!(repo.find_node(ConceptNodeId(9999)).unwrap().is_none());
}

#[test]
fn list_nodes_for_workspace_empty_case() {
    let repo = SqliteGraphRepository::new(conn());
    assert!(repo.list_nodes_for_workspace(WorkspaceId(1)).unwrap().is_empty());
}

#[test]
fn list_nodes_for_workspace_only_returns_matching_workspace() {
    let mut repo = SqliteGraphRepository::new(conn());
    repo.insert_node(sample_node(1, "Backprop")).unwrap();
    repo.insert_node(sample_node(1, "Chain Rule")).unwrap();
    repo.insert_node(sample_node(2, "Unrelated Workspace Concept")).unwrap();
    let nodes = repo.list_nodes_for_workspace(WorkspaceId(1)).unwrap();
    assert_eq!(nodes.len(), 2);
    assert!(nodes.iter().all(|n| n.workspace_id == WorkspaceId(1)));
}

#[test]
fn insert_and_list_edges_for_node() {
    let mut repo = SqliteGraphRepository::new(conn());
    let a = repo.insert_node(sample_node(1, "Derivatives")).unwrap();
    let b = repo.insert_node(sample_node(1, "Gradient Descent")).unwrap();
    let edge = repo
        .insert_edge(ConceptEdge {
            id: ConceptEdgeId(0),
            from_node_id: a.id,
            to_node_id: b.id,
            relation_type: RelationType::PrerequisiteOf,
        })
        .unwrap();
    assert_ne!(edge.id.0, 0);
    let edges_from_a = repo.list_edges_for_node(a.id).unwrap();
    assert_eq!(edges_from_a.len(), 1);
    assert_eq!(edges_from_a[0].relation_type, RelationType::PrerequisiteOf);
    assert_eq!(repo.list_edges_for_node(b.id).unwrap().len(), 1);
}

#[test]
fn delete_edge_removes_it() {
    let mut repo = SqliteGraphRepository::new(conn());
    let a = repo.insert_node(sample_node(1, "A")).unwrap();
    let b = repo.insert_node(sample_node(1, "B")).unwrap();
    let edge = repo
        .insert_edge(ConceptEdge {
            id: ConceptEdgeId(0),
            from_node_id: a.id,
            to_node_id: b.id,
            relation_type: RelationType::RelatedTo,
        })
        .unwrap();
    repo.delete_edge(edge.id).unwrap();
    assert!(repo.list_edges_for_node(a.id).unwrap().is_empty());
}

//! The concept graph: nodes and edges, their storage, and extraction of
//! concepts and relations from a document's text through a model, merged
//! into the workspace's graph without duplicating concepts or edges.
use vstd::prelude::*;

use crate::db::{
    decode_all, decoded_from_rows, int_at, is_storage_error, one_param, opt_text_at, read_int, read_opt_text, read_text, row_error, row_error_message, text_at, SqlParam, SqlValue, SqliteConnection,
};
use crate::engines::{Engine, EnginePool, EngineRole, ResolvedPrompt, ResolvedPromptView};
use crate::error::{AppError, ErrorCategory, ErrorCode};
use crate::requests::{ConceptDetail, GraphFullResponse};
use crate::ids::{ConceptEdgeId, ConceptNodeId, WorkspaceId};
use crate::json::{all_parsed, as_text, decode_json, get_field, json_decode, member_value, parse_all, text_of, JsonValue};
use crate::records::{duplicate_opt_string, filter_records, find_first, opt_string_view, string_views, views, Record};
use crate::study_store::first_with;
use crate::text::{ascii_lower, is_ascii_text, chars_of, is_blank, is_blank_str, lowercase_of, push_decimal, push_str, str_eq, string_from_chars, to_lowercase, trim, trim_chars, trim_str};

verus! {

// ---------------------------------------------------------------------
// Nodes and edges
// ---------------------------------------------------------------------

/// How two concepts relate.
#[derive(Debug, Clone, Copy, PartialEq, Eq, Structural)]
pub enum RelationType {
    PrerequisiteOf,
    RelatedTo,
    PartOf,
}

/// A concept of a workspace.
#[derive(Debug, Clone)]
pub struct ConceptNode {
    pub id: ConceptNodeId,
    pub workspace_id: WorkspaceId,
    pub label: String,
    pub description: Option<String>,
    pub created_at: String,
}

pub ghost struct ConceptNodeView {
    pub id: ConceptNodeId,
    pub workspace_id: WorkspaceId,
    pub label: Seq<char>,
    pub description: Option<Seq<char>>,
    pub created_at: Seq<char>,
}

impl View for ConceptNode {
    type V = ConceptNodeView;

    open spec fn view(&self) -> ConceptNodeView {
        ConceptNodeView {
            id: self.id,
            workspace_id: self.workspace_id,
            label: self.label@,
            description: opt_string_view(self.description),
            created_at: self.created_at@,
        }
    }
}

impl Record for ConceptNode {
    fn duplicate(&self) -> (r: Self) {
        ConceptNode {
            id: self.id,
            workspace_id: self.workspace_id,
            label: self.label.clone(),
            description: duplicate_opt_string(&self.description),
            created_at: self.created_at.clone(),
        }
    }
}

/// A directed relation between two concepts. Edge weights, which are
/// floating-point, are not kept by the library: every stored edge has
/// weight 1.
#[derive(Debug, Clone, Copy, PartialEq, Eq, Structural)]
pub struct ConceptEdge {
    pub id: ConceptEdgeId,
    pub from_node_id: ConceptNodeId,
    pub to_node_id: ConceptNodeId,
    pub relation_type: RelationType,
}

impl View for ConceptEdge {
    type V = ConceptEdge;

    open spec fn view(&self) -> ConceptEdge {
        *self
    }
}

impl Record for ConceptEdge {
    fn duplicate(&self) -> (r: Self) {
        *self
    }
}

pub open spec fn relation_name(r: RelationType) -> Seq<char> {
    match r {
        RelationType::PrerequisiteOf => "prerequisite-of"@,
        RelationType::RelatedTo => "related-to"@,
        RelationType::PartOf => "part-of"@,
    }
}

pub open spec fn relation_named(s: Seq<char>) -> Option<RelationType> {
    if s == "prerequisite-of"@ {
        Some(RelationType::PrerequisiteOf)
    } else if s == "related-to"@ {
        Some(RelationType::RelatedTo)
    } else if s == "part-of"@ {
        Some(RelationType::PartOf)
    } else {
        None
    }
}

/// A stored relation type reads back as the type it was written for.
pub proof fn law_relation_name_round_trip(r: RelationType)
    ensures
        relation_named(relation_name(r)) == Some(r),
{
    reveal_strlit("prerequisite-of");
    reveal_strlit("related-to");
    reveal_strlit("part-of");
    assert("prerequisite-of"@.len() != "related-to"@.len());
    assert("prerequisite-of"@.len() != "part-of"@.len());
    assert("related-to"@.len() != "part-of"@.len());
}

pub fn relation_type_to_str(r: RelationType) -> (s: &'static str)
    ensures
        s@ == relation_name(r),
{
    match r {
        RelationType::PrerequisiteOf => "prerequisite-of",
        RelationType::RelatedTo => "related-to",
        RelationType::PartOf => "part-of",
    }
}

pub fn relation_type_from_str(s: &str) -> (r: Result<RelationType, AppError>)
    ensures
        match r {
            Ok(x) => relation_named(s@) == Some(x),
            Err(e) => relation_named(s@) is None && is_storage_error(e) && e.message@
                == "unrecognized concept edge relation_type in database: "@ + s@,
        },
{
    if str_eq(s, "prerequisite-of") {
        Ok(RelationType::PrerequisiteOf)
    } else if str_eq(s, "related-to") {
        Ok(RelationType::RelatedTo)
    } else if str_eq(s, "part-of") {
        Ok(RelationType::PartOf)
    } else {
        let mut m: Vec<char> = Vec::new();
        push_str(&mut m, "unrecognized concept edge relation_type in database: ");
        push_str(&mut m, s);
        Err(AppError::storage(string_from_chars(m.as_slice())))
    }
}

// ---------------------------------------------------------------------
// Storage interface
// ---------------------------------------------------------------------

/// Storage of concept nodes and edges.
pub trait GraphRepository {
    spec fn inv(&self) -> bool;

    /// What `list_nodes_for_workspace` can answer: exactly the workspace's
    /// nodes for a store that keeps them in memory; for one that reads a
    /// database, whatever stored rows decode to.
    spec fn nodes_answer(&self, workspace_id: WorkspaceId, r: Seq<ConceptNodeView>) -> bool;

    /// What `find_node` can answer.
    spec fn node_answer(&self, id: ConceptNodeId, r: Option<ConceptNodeView>) -> bool;

    /// What `list_edges_for_node` can answer.
    spec fn edges_answer(&self, node_id: ConceptNodeId, r: Seq<ConceptEdge>) -> bool;

    /// Reading cannot fail: so for a store in memory; nothing of the kind
    /// is known of a database.
    spec fn reliable(&self) -> bool;

    /// How many more nodes can surely be stored: the ids left to a store
    /// in memory; none is promised by a database.
    spec fn node_room(&self) -> int;

    /// How many more edges can surely be stored.
    spec fn edge_room(&self) -> int;

    /// The nodes a `reliable` store holds, in insertion order. Of a
    /// database nothing is modelled.
    spec fn stored_nodes(&self) -> Seq<ConceptNodeView>;

    /// The edges a `reliable` store holds, in insertion order.
    spec fn stored_edges(&self) -> Seq<ConceptEdge>;

    /// The nodes of one workspace, oldest first.
    fn list_nodes_for_workspace(&self, workspace_id: WorkspaceId) -> (r: Result<Vec<ConceptNode>, AppError>)
        requires
            self.inv(),
        ensures
            r matches Ok(v) ==> self.nodes_answer(workspace_id, views(v@)),
            self.reliable() ==> r is Ok,
            self.reliable() ==> (r matches Ok(v) && views(v@) == self.stored_nodes().filter(node_in_workspace(workspace_id))),
    ;

    /// Stores `node` and returns it with its new id.
    fn insert_node(&mut self, node: ConceptNode) -> (r: Result<ConceptNode, AppError>)
        requires
            old(self).inv(),
        ensures
            final(self).inv(),
            r matches Ok(n) ==> n@ == (ConceptNodeView { id: n.id, ..node@ }),
            old(self).node_room() > 0 ==> r is Ok,
            old(self).reliable() ==> match r {
                Ok(n) => final(self).stored_nodes() == old(self).stored_nodes().push(n@) && final(self).stored_edges()
                    == old(self).stored_edges(),
                Err(_) => final(self).stored_nodes() == old(self).stored_nodes() && final(self).stored_edges()
                    == old(self).stored_edges(),
            },
            final(self).reliable() == old(self).reliable(),
            final(self).node_room() >= old(self).node_room() - 1,
            final(self).edge_room() >= old(self).edge_room(),
    ;

    fn find_node(&self, id: ConceptNodeId) -> (r: Result<Option<ConceptNode>, AppError>)
        requires
            self.inv(),
        ensures
            r matches Ok(o) ==> self.node_answer(
                id,
                match o {
                    Some(n) => Some(n@),
                    None => None,
                },
            ),
            self.reliable() ==> r is Ok,
            self.reliable() ==> (r matches Ok(o) && match o {
                Some(n) => first_with(self.stored_nodes(), node_has_id(id)) == Some(n@),
                None => first_with(self.stored_nodes(), node_has_id(id)) is None,
            }),
    ;

    /// The edges from or to one node, oldest first.
    fn list_edges_for_node(&self, node_id: ConceptNodeId) -> (r: Result<Vec<ConceptEdge>, AppError>)
        requires
            self.inv(),
        ensures
            r matches Ok(v) ==> self.edges_answer(node_id, views(v@)),
            self.reliable() ==> r is Ok,
            self.reliable() ==> (r matches Ok(v) && views(v@) == views(self.stored_edges()).filter(edge_touches(node_id))),
    ;

    /// Stores `edge` and returns it with its new id.
    fn insert_edge(&mut self, edge: ConceptEdge) -> (r: Result<ConceptEdge, AppError>)
        requires
            old(self).inv(),
        ensures
            final(self).inv(),
            r matches Ok(e) ==> e == (ConceptEdge { id: e.id, ..edge }),
            old(self).edge_room() > 0 ==> r is Ok,
            old(self).reliable() ==> match r {
                Ok(e) => final(self).stored_edges() == old(self).stored_edges().push(e) && final(self).stored_nodes()
                    == old(self).stored_nodes(),
                Err(_) => final(self).stored_nodes() == old(self).stored_nodes() && final(self).stored_edges()
                    == old(self).stored_edges(),
            },
            final(self).reliable() == old(self).reliable(),
            final(self).node_room() >= old(self).node_room(),
            final(self).edge_room() >= old(self).edge_room() - 1,
    ;

    fn delete_edge(&mut self, id: ConceptEdgeId) -> (r: Result<(), AppError>)
        requires
            old(self).inv(),
        ensures
            final(self).inv(),
            old(self).reliable() ==> r is Ok,
            final(self).reliable() == old(self).reliable(),
            final(self).node_room() >= old(self).node_room(),
            final(self).edge_room() >= old(self).edge_room(),
            old(self).reliable() ==> final(self).stored_nodes() == old(self).stored_nodes() && views(
                final(self).stored_edges(),
            ) == views(old(self).stored_edges()).filter(edge_not_id(id)),
    ;
}

pub open spec fn node_in_workspace(w: WorkspaceId) -> spec_fn(ConceptNodeView) -> bool {
    |n: ConceptNodeView| n.workspace_id == w
}

pub open spec fn node_has_id(id: ConceptNodeId) -> spec_fn(ConceptNodeView) -> bool {
    |n: ConceptNodeView| n.id == id
}

pub open spec fn edge_touches(id: ConceptNodeId) -> spec_fn(ConceptEdge) -> bool {
    |e: ConceptEdge| e.from_node_id == id || e.to_node_id == id
}

pub open spec fn edge_not_id(id: ConceptEdgeId) -> spec_fn(ConceptEdge) -> bool {
    |e: ConceptEdge| e.id != id
}

/// Nodes and edges in insertion order, each with its own id counter.
pub struct InMemoryGraphRepository {
    nodes: Vec<ConceptNode>,
    edges: Vec<ConceptEdge>,
    last_node_id: i64,
    last_edge_id: i64,
}

impl InMemoryGraphRepository {
    pub closed spec fn nodes(&self) -> Seq<ConceptNodeView> {
        views(self.nodes@)
    }

    pub closed spec fn edges(&self) -> Seq<ConceptEdge> {
        self.edges@
    }

    pub closed spec fn last_node_id(&self) -> i64 {
        self.last_node_id
    }

    pub closed spec fn last_edge_id(&self) -> i64 {
        self.last_edge_id
    }

    pub fn new() -> (r: Self)
        ensures
            r.inv(),
            r.nodes() == Seq::<ConceptNodeView>::empty(),
            r.edges() == Seq::<ConceptEdge>::empty(),
            r.last_node_id() == 0,
            r.last_edge_id() == 0,
    {
        let r = InMemoryGraphRepository { nodes: Vec::new(), edges: Vec::new(), last_node_id: 0, last_edge_id: 0 };
        assert(r.nodes() =~= Seq::<ConceptNodeView>::empty());
        r
    }
}

impl GraphRepository for InMemoryGraphRepository {
    open spec fn inv(&self) -> bool {
        &&& self.last_node_id() >= 0
        &&& self.last_edge_id() >= 0
    }

    open spec fn nodes_answer(&self, workspace_id: WorkspaceId, r: Seq<ConceptNodeView>) -> bool {
        r == self.nodes().filter(node_in_workspace(workspace_id))
    }

    open spec fn node_answer(&self, id: ConceptNodeId, r: Option<ConceptNodeView>) -> bool {
        r == first_with(self.nodes(), node_has_id(id))
    }

    open spec fn edges_answer(&self, node_id: ConceptNodeId, r: Seq<ConceptEdge>) -> bool {
        r == views(self.edges()).filter(edge_touches(node_id))
    }

    open spec fn reliable(&self) -> bool {
        true
    }

    open spec fn node_room(&self) -> int {
        i64::MAX - self.last_node_id()
    }

    open spec fn edge_room(&self) -> int {
        i64::MAX - self.last_edge_id()
    }

    open spec fn stored_nodes(&self) -> Seq<ConceptNodeView> {
        self.nodes()
    }

    open spec fn stored_edges(&self) -> Seq<ConceptEdge> {
        self.edges()
    }

    fn list_nodes_for_workspace(&self, workspace_id: WorkspaceId) -> (r: Result<Vec<ConceptNode>, AppError>)
        ensures
            r matches Ok(v) && views(v@) == self.nodes().filter(node_in_workspace(workspace_id)),
    {
        Ok(filter_records(
            &self.nodes,
            |n: &ConceptNode| -> (b: bool)
                ensures b == (n@.workspace_id == workspace_id)
                { n.workspace_id == workspace_id },
            Ghost(node_in_workspace(workspace_id)),
        ))
    }

    fn insert_node(&mut self, node: ConceptNode) -> (r: Result<ConceptNode, AppError>)
        ensures
            match r {
                Ok(n) => n.id.0 == old(self).last_node_id() + 1 && final(self).nodes() == old(self).nodes().push(n@)
                    && final(self).edges() == old(self).edges() && final(self).last_node_id() == n.id.0
                    && final(self).last_edge_id() == old(self).last_edge_id(),
                Err(_) => old(self).last_node_id() == i64::MAX && final(self).nodes() == old(self).nodes()
                    && final(self).edges() == old(self).edges() && final(self).last_node_id() == old(self).last_node_id()
                    && final(self).last_edge_id() == old(self).last_edge_id(),
            },
    {
        if self.last_node_id == i64::MAX {
            return Err(AppError::storage("concept node id space exhausted".to_owned()));
        }
        self.last_node_id = self.last_node_id + 1;
        let stored = ConceptNode { id: ConceptNodeId(self.last_node_id), ..node };
        let out = stored.duplicate();
        let ghost s = self.nodes();
        self.nodes.push(stored);
        assert(self.nodes() =~= s.push(out@));
        Ok(out)
    }

    fn find_node(&self, id: ConceptNodeId) -> (r: Result<Option<ConceptNode>, AppError>)
        ensures
            r matches Ok(o) && match o {
                Some(n) => first_with(self.nodes(), node_has_id(id)) == Some(n@),
                None => first_with(self.nodes(), node_has_id(id)) is None,
            },
    {
        let pos = find_first(
            &self.nodes,
            |n: &ConceptNode| -> (b: bool)
                ensures b == (n@.id == id)
                { n.id == id },
            Ghost(node_has_id(id)),
        );
        match pos {
            Some(i) => Ok(Some(self.nodes[i].duplicate())),
            None => Ok(None),
        }
    }

    fn list_edges_for_node(&self, node_id: ConceptNodeId) -> (r: Result<Vec<ConceptEdge>, AppError>)
        ensures
            r matches Ok(v) && views(v@) == views(self.edges()).filter(edge_touches(node_id)),
    {
        Ok(filter_records(
            &self.edges,
            |e: &ConceptEdge| -> (b: bool)
                ensures b == (e@.from_node_id == node_id || e@.to_node_id == node_id)
                { e.from_node_id == node_id || e.to_node_id == node_id },
            Ghost(edge_touches(node_id)),
        ))
    }

    fn insert_edge(&mut self, edge: ConceptEdge) -> (r: Result<ConceptEdge, AppError>)
        ensures
            match r {
                Ok(e) => e.id.0 == old(self).last_edge_id() + 1 && final(self).edges() == old(self).edges().push(e)
                    && final(self).nodes() == old(self).nodes() && final(self).last_edge_id() == e.id.0
                    && final(self).last_node_id() == old(self).last_node_id(),
                Err(_) => old(self).last_edge_id() == i64::MAX && final(self).edges() == old(self).edges()
                    && final(self).nodes() == old(self).nodes() && final(self).last_edge_id() == old(self).last_edge_id()
                    && final(self).last_node_id() == old(self).last_node_id(),
            },
    {
        if self.last_edge_id == i64::MAX {
            return Err(AppError::storage("concept edge id space exhausted".to_owned()));
        }
        self.last_edge_id = self.last_edge_id + 1;
        let stored = ConceptEdge { id: ConceptEdgeId(self.last_edge_id), ..edge };
        self.edges.push(stored);
        Ok(stored)
    }

    fn delete_edge(&mut self, id: ConceptEdgeId) -> (r: Result<(), AppError>)
        ensures
            r is Ok,
            views(final(self).edges()) == views(old(self).edges()).filter(edge_not_id(id)),
            final(self).nodes() == old(self).nodes(),
            final(self).last_node_id() == old(self).last_node_id(),
            final(self).last_edge_id() == old(self).last_edge_id(),
    {
        let kept = filter_records(
            &self.edges,
            |e: &ConceptEdge| -> (b: bool)
                ensures b == (e@.id != id)
                { e.id != id },
            Ghost(edge_not_id(id)),
        );
        self.edges = kept;
        Ok(())
    }
}

// ---------------------------------------------------------------------
// SQLite storage
// ---------------------------------------------------------------------

/// A `concept_nodes` row: `id, workspace_id, label, description,
/// created_at`.
pub open spec fn node_row(row: Seq<SqlValue>) -> Result<ConceptNodeView, Seq<char>> {
    match (int_at(row, 0), int_at(row, 1), text_at(row, 2), opt_text_at(row, 3), text_at(row, 4)) {
        (Some(id), Some(w), Some(l), Some(d), Some(c)) => Ok(
            ConceptNodeView {
                id: ConceptNodeId(id),
                workspace_id: WorkspaceId(w),
                label: l,
                description: d,
                created_at: c,
            },
        ),
        _ => Err(row_error_message("concept node"@)),
    }
}

pub open spec fn node_decoder() -> spec_fn(Vec<SqlValue>) -> Result<ConceptNodeView, Seq<char>> {
    |row: Vec<SqlValue>| node_row(row@)
}

pub fn node_from_row(row: &Vec<SqlValue>) -> (r: Result<ConceptNode, AppError>)
    ensures
        match r {
            Ok(n) => node_row(row@) == Ok::<ConceptNodeView, Seq<char>>(n@),
            Err(e) => node_row(row@) == Err::<ConceptNodeView, Seq<char>>(e.message@) && is_storage_error(e),
        },
{
    match (read_int(row, 0), read_int(row, 1), read_text(row, 2), read_opt_text(row, 3), read_text(row, 4)) {
        (Some(id), Some(w), Some(l), Some(d), Some(c)) => Ok(
            ConceptNode {
                id: ConceptNodeId(id),
                workspace_id: WorkspaceId(w),
                label: l,
                description: d,
                created_at: c,
            },
        ),
        _ => Err(row_error("concept node")),
    }
}

/// A `concept_edges` row: `id, from_node_id, to_node_id, relation_type`.
pub open spec fn edge_row(row: Seq<SqlValue>) -> Result<ConceptEdge, Seq<char>> {
    match (int_at(row, 0), int_at(row, 1), int_at(row, 2), text_at(row, 3)) {
        (Some(id), Some(f), Some(t), Some(rt)) => match relation_named(rt) {
            Some(x) => Ok(
                ConceptEdge {
                    id: ConceptEdgeId(id),
                    from_node_id: ConceptNodeId(f),
                    to_node_id: ConceptNodeId(t),
                    relation_type: x,
                },
            ),
            None => Err("unrecognized concept edge relation_type in database: "@ + rt),
        },
        _ => Err(row_error_message("concept edge"@)),
    }
}

pub open spec fn edge_decoder() -> spec_fn(Vec<SqlValue>) -> Result<ConceptEdge, Seq<char>> {
    |row: Vec<SqlValue>| edge_row(row@)
}

pub fn edge_from_row(row: &Vec<SqlValue>) -> (r: Result<ConceptEdge, AppError>)
    ensures
        match r {
            Ok(e) => edge_row(row@) == Ok::<ConceptEdge, Seq<char>>(e),
            Err(e) => edge_row(row@) == Err::<ConceptEdge, Seq<char>>(e.message@) && is_storage_error(e),
        },
{
    match (read_int(row, 0), read_int(row, 1), read_int(row, 2), read_text(row, 3)) {
        (Some(id), Some(f), Some(t), Some(rt)) => {
            let x = relation_type_from_str(rt.as_str())?;
            Ok(
                ConceptEdge {
                    id: ConceptEdgeId(id),
                    from_node_id: ConceptNodeId(f),
                    to_node_id: ConceptNodeId(t),
                    relation_type: x,
                },
            )
        },
        _ => Err(row_error("concept edge")),
    }
}


/// Concept nodes and edges kept in the `concept_nodes` and
/// `concept_edges` tables.
pub struct SqliteGraphRepository {
    connection: SqliteConnection,
}

impl SqliteGraphRepository {
    pub fn new(connection: SqliteConnection) -> (r: Self)
        ensures
            r.conn() == connection,
    {
        SqliteGraphRepository { connection }
    }

    /// The connection this repository was made with.
    pub closed spec fn conn(&self) -> SqliteConnection {
        self.connection
    }

    pub fn connection(&self) -> (r: &SqliteConnection)
        ensures
            *r == self.conn(),
    {
        &self.connection
    }
}

impl GraphRepository for SqliteGraphRepository {
    open spec fn inv(&self) -> bool {
        true
    }

    open spec fn nodes_answer(&self, workspace_id: WorkspaceId, r: Seq<ConceptNodeView>) -> bool {
        decoded_from_rows(r, node_decoder())
    }

    open spec fn node_answer(&self, id: ConceptNodeId, r: Option<ConceptNodeView>) -> bool {
        match r {
            Some(n) => exists|row: Vec<SqlValue>| #[trigger] node_row(row@) == Ok::<ConceptNodeView, Seq<char>>(n),
            None => true,
        }
    }

    open spec fn edges_answer(&self, node_id: ConceptNodeId, r: Seq<ConceptEdge>) -> bool {
        decoded_from_rows(r, edge_decoder())
    }

    open spec fn reliable(&self) -> bool {
        false
    }

    open spec fn node_room(&self) -> int {
        0
    }

    open spec fn edge_room(&self) -> int {
        0
    }

    open spec fn stored_nodes(&self) -> Seq<ConceptNodeView> {
        Seq::empty()
    }

    open spec fn stored_edges(&self) -> Seq<ConceptEdge> {
        Seq::empty()
    }

    fn list_nodes_for_workspace(&self, workspace_id: WorkspaceId) -> (r: Result<Vec<ConceptNode>, AppError>)
        ensures
            !self.conn().is_open() ==> r is Err,
            match r {
                Ok(v) => decoded_from_rows(views(v@), node_decoder()),
                Err(e) => is_storage_error(e),
            },
    {
        let rows = self.connection.query(
            "concept node list query failed",
            "SELECT id, workspace_id, label, description, created_at FROM concept_nodes WHERE workspace_id = ?1 ORDER BY id ASC",
            &one_param(SqlParam::Integer(workspace_id.0)),
        )?;
        decode_all(&rows, node_from_row, Ghost(node_decoder()))
    }

    fn insert_node(&mut self, node: ConceptNode) -> (r: Result<ConceptNode, AppError>)
        ensures
            !old(self).conn().is_open() ==> r is Err,
            r matches Err(e) ==> is_storage_error(e),
    {
        let mut params: Vec<SqlParam> = Vec::new();
        params.push(SqlParam::Integer(node.workspace_id.0));
        params.push(SqlParam::Text(node.label.clone()));
        params.push(
            match &node.description {
                Some(d) => SqlParam::Text(d.clone()),
                None => SqlParam::Null,
            },
        );
        params.push(SqlParam::Text(node.created_at.clone()));
        let id = self.connection.insert(
            "concept node insert failed",
            "INSERT INTO concept_nodes (workspace_id, label, description, created_at) VALUES (?1, ?2, ?3, ?4)",
            &params,
        )?;
        Ok(ConceptNode { id: ConceptNodeId(id), ..node })
    }

    fn find_node(&self, id: ConceptNodeId) -> (r: Result<Option<ConceptNode>, AppError>)
        ensures
            !self.conn().is_open() ==> r is Err,
            match r {
                Ok(Some(n)) => exists|row: Vec<SqlValue>| #[trigger] node_row(row@) == Ok::<ConceptNodeView, Seq<char>>(n@),
                Ok(None) => true,
                Err(e) => is_storage_error(e),
            },
    {
        let rows = self.connection.query(
            "concept node find failed",
            "SELECT id, workspace_id, label, description, created_at FROM concept_nodes WHERE id = ?1",
            &one_param(SqlParam::Integer(id.0)),
        )?;
        if rows.len() == 0 {
            Ok(None)
        } else {
            let n = node_from_row(&rows[0])?;
            Ok(Some(n))
        }
    }

    fn list_edges_for_node(&self, node_id: ConceptNodeId) -> (r: Result<Vec<ConceptEdge>, AppError>)
        ensures
            !self.conn().is_open() ==> r is Err,
            match r {
                Ok(v) => decoded_from_rows(views(v@), edge_decoder()),
                Err(e) => is_storage_error(e),
            },
    {
        let rows = self.connection.query(
            "concept edge list query failed",
            "SELECT id, from_node_id, to_node_id, relation_type FROM concept_edges WHERE from_node_id = ?1 OR to_node_id = ?1 ORDER BY id ASC",
            &one_param(SqlParam::Integer(node_id.0)),
        )?;
        decode_all(&rows, edge_from_row, Ghost(edge_decoder()))
    }

    fn insert_edge(&mut self, edge: ConceptEdge) -> (r: Result<ConceptEdge, AppError>)
        ensures
            !old(self).conn().is_open() ==> r is Err,
            r matches Err(e) ==> is_storage_error(e),
    {
        let mut params: Vec<SqlParam> = Vec::new();
        params.push(SqlParam::Integer(edge.from_node_id.0));
        params.push(SqlParam::Integer(edge.to_node_id.0));
        params.push(SqlParam::Text(relation_type_to_str(edge.relation_type).to_owned()));
        let id = self.connection.insert(
            "concept edge insert failed",
            "INSERT INTO concept_edges (from_node_id, to_node_id, relation_type, weight) VALUES (?1, ?2, ?3, 1.0)",
            &params,
        )?;
        Ok(ConceptEdge { id: ConceptEdgeId(id), ..edge })
    }

    fn delete_edge(&mut self, id: ConceptEdgeId) -> (r: Result<(), AppError>)
        ensures
            !old(self).conn().is_open() ==> r is Err,
            r matches Err(e) ==> is_storage_error(e),
    {
        self.connection.execute(
            "concept edge delete failed",
            "DELETE FROM concept_edges WHERE id = ?1",
            &one_param(SqlParam::Integer(id.0)),
        )?;
        Ok(())
    }
}

// ---------------------------------------------------------------------
// Extraction response
// ---------------------------------------------------------------------

/// A concept as the model named it.
#[derive(Debug, Clone)]
pub struct ExtractedConcept {
    pub name: String,
    pub description: Option<String>,
}

pub ghost struct ExtractedConceptView {
    pub name: Seq<char>,
    pub description: Option<Seq<char>>,
}

impl View for ExtractedConcept {
    type V = ExtractedConceptView;

    open spec fn view(&self) -> ExtractedConceptView {
        ExtractedConceptView { name: self.name@, description: opt_string_view(self.description) }
    }
}

/// A relation between two concept names, as the model named it.
#[derive(Debug, Clone)]
pub struct ExtractedRelation {
    pub from: String,
    pub to: String,
    pub relation_type: String,
}

pub ghost struct ExtractedRelationView {
    pub from: Seq<char>,
    pub to: Seq<char>,
    pub relation_type: Seq<char>,
}

impl View for ExtractedRelation {
    type V = ExtractedRelationView;

    open spec fn view(&self) -> ExtractedRelationView {
        ExtractedRelationView { from: self.from@, to: self.to@, relation_type: self.relation_type@ }
    }
}

/// Concepts and relations of one extraction reply.
#[derive(Debug, Clone)]
pub struct ExtractionResponse {
    pub concepts: Vec<ExtractedConcept>,
    pub relations: Vec<ExtractedRelation>,
}

pub ghost struct ExtractionResponseView {
    pub concepts: Seq<ExtractedConceptView>,
    pub relations: Seq<ExtractedRelationView>,
}

impl View for ExtractionResponse {
    type V = ExtractionResponseView;

    open spec fn view(&self) -> ExtractionResponseView {
        ExtractionResponseView { concepts: views(self.concepts@), relations: views(self.relations@) }
    }
}

/// An optional description: a missing member or `null` is none.
pub open spec fn opt_description(f: Option<JsonValue>) -> Option<Option<Seq<char>>> {
    match f {
        None => Some(None),
        Some(JsonValue::Null) => Some(None),
        Some(JsonValue::Str(s)) => Some(Some(s@)),
        _ => None,
    }
}

/// A concept: `{"name", "description"?}` or `[name]` / `[name, description]`.
pub open spec fn concept_from_json(v: JsonValue) -> Option<ExtractedConceptView> {
    match v {
        JsonValue::Object(m) => match (crate::json::opt_text(member_value(m@, "name"@)), opt_description(member_value(m@, "description"@))) {
            (Some(n), Some(d)) => Some(ExtractedConceptView { name: n, description: d }),
            _ => None,
        },
        JsonValue::Array(items) => if 1 <= items@.len() <= 2 {
            match (as_text(items@[0]), if items@.len() == 2 { opt_description(Some(items@[1])) } else { Some(None) }) {
                (Some(n), Some(d)) => Some(ExtractedConceptView { name: n, description: d }),
                _ => None,
            }
        } else {
            None
        },
        _ => None,
    }
}

/// A relation: `{"from", "to", "type"}` or `[from, to, type]`.
pub open spec fn relation_from_json(v: JsonValue) -> Option<ExtractedRelationView> {
    match v {
        JsonValue::Object(m) => match (
            crate::json::opt_text(member_value(m@, "from"@)),
            crate::json::opt_text(member_value(m@, "to"@)),
            crate::json::opt_text(member_value(m@, "type"@)),
        ) {
            (Some(f), Some(t), Some(r)) => Some(ExtractedRelationView { from: f, to: t, relation_type: r }),
            _ => None,
        },
        JsonValue::Array(items) => if items@.len() == 3 {
            match (as_text(items@[0]), as_text(items@[1]), as_text(items@[2])) {
                (Some(f), Some(t), Some(r)) => Some(ExtractedRelationView { from: f, to: t, relation_type: r }),
                _ => None,
            }
        } else {
            None
        },
        _ => None,
    }
}

pub open spec fn concept_parser() -> spec_fn(JsonValue) -> Option<ExtractedConceptView> {
    |v: JsonValue| concept_from_json(v)
}

pub open spec fn relation_parser() -> spec_fn(JsonValue) -> Option<ExtractedRelationView> {
    |v: JsonValue| relation_from_json(v)
}

/// A list member: a missing member is the empty list.
pub open spec fn list_or_empty<T>(f: Option<JsonValue>, p: spec_fn(JsonValue) -> Option<T>) -> Option<Seq<T>> {
    match f {
        None => Some(Seq::empty()),
        Some(JsonValue::Array(items)) => all_parsed(items@, p),
        Some(_) => None,
    }
}

/// A reply: `{"concepts"?, "relations"?}` or an array of up to two lists.
pub open spec fn response_from_json(v: JsonValue) -> Option<ExtractionResponseView> {
    match v {
        JsonValue::Object(m) => match (
            list_or_empty(member_value(m@, "concepts"@), concept_parser()),
            list_or_empty(member_value(m@, "relations"@), relation_parser()),
        ) {
            (Some(c), Some(r)) => Some(ExtractionResponseView { concepts: c, relations: r }),
            _ => None,
        },
        JsonValue::Array(items) => if items@.len() <= 2 {
            match (
                if items@.len() >= 1 { list_or_empty(Some(items@[0]), concept_parser()) } else { Some(Seq::empty()) },
                if items@.len() == 2 { list_or_empty(Some(items@[1]), relation_parser()) } else { Some(Seq::empty()) },
            ) {
                (Some(c), Some(r)) => Some(ExtractionResponseView { concepts: c, relations: r }),
                _ => None,
            }
        } else {
            None
        },
        _ => None,
    }
}

fn opt_description_of(f: Option<&JsonValue>) -> (r: Option<Option<String>>)
    ensures
        match r {
            Some(d) => opt_description(match f { Some(x) => Some(*x), None => None }) == Some(opt_string_view(d)),
            None => opt_description(match f { Some(x) => Some(*x), None => None }) is None,
        },
{
    match f {
        None => Some(None),
        Some(JsonValue::Null) => Some(None),
        Some(JsonValue::Str(s)) => Some(Some(s.clone())),
        Some(_) => None,
    }
}

fn concept_from_json_exec(v: &JsonValue) -> (r: Option<ExtractedConcept>)
    ensures
        match r {
            Some(c) => concept_from_json(*v) == Some(c@),
            None => concept_from_json(*v) is None,
        },
{
    match v {
        JsonValue::Object(_) => match (crate::json::opt_text_of(get_field(v, "name")), opt_description_of(get_field(v, "description"))) {
            (Some(n), Some(d)) => Some(ExtractedConcept { name: n, description: d }),
            _ => None,
        },
        JsonValue::Array(items) => {
            if 1 <= items.len() && items.len() <= 2 {
                let d = if items.len() == 2 { opt_description_of(Some(&items[1])) } else { Some(None) };
                match (text_of(&items[0]), d) {
                    (Some(n), Some(d)) => Some(ExtractedConcept { name: n, description: d }),
                    _ => None,
                }
            } else {
                None
            }
        },
        _ => None,
    }
}

fn relation_from_json_exec(v: &JsonValue) -> (r: Option<ExtractedRelation>)
    ensures
        match r {
            Some(x) => relation_from_json(*v) == Some(x@),
            None => relation_from_json(*v) is None,
        },
{
    match v {
        JsonValue::Object(_) => match (
            crate::json::opt_text_of(get_field(v, "from")),
            crate::json::opt_text_of(get_field(v, "to")),
            crate::json::opt_text_of(get_field(v, "type")),
        ) {
            (Some(f), Some(t), Some(r)) => Some(ExtractedRelation { from: f, to: t, relation_type: r }),
            _ => None,
        },
        JsonValue::Array(items) => {
            if items.len() == 3 {
                match (text_of(&items[0]), text_of(&items[1]), text_of(&items[2])) {
                    (Some(f), Some(t), Some(r)) => Some(ExtractedRelation { from: f, to: t, relation_type: r }),
                    _ => None,
                }
            } else {
                None
            }
        },
        _ => None,
    }
}

fn concepts_of(f: Option<&JsonValue>) -> (r: Option<Vec<ExtractedConcept>>)
    ensures
        match r {
            Some(l) => list_or_empty(match f { Some(x) => Some(*x), None => None }, concept_parser()) == Some(views(l@)),
            None => list_or_empty(match f { Some(x) => Some(*x), None => None }, concept_parser()) is None,
        },
{
    match f {
        None => {
            let l: Vec<ExtractedConcept> = Vec::new();
            assert(views(l@) =~= Seq::<ExtractedConceptView>::empty());
            Some(l)
        },
        Some(JsonValue::Array(items)) => parse_all(items, concept_from_json_exec, Ghost(concept_parser())),
        Some(_) => None,
    }
}

fn relations_of(f: Option<&JsonValue>) -> (r: Option<Vec<ExtractedRelation>>)
    ensures
        match r {
            Some(l) => list_or_empty(match f { Some(x) => Some(*x), None => None }, relation_parser()) == Some(views(l@)),
            None => list_or_empty(match f { Some(x) => Some(*x), None => None }, relation_parser()) is None,
        },
{
    match f {
        None => {
            let l: Vec<ExtractedRelation> = Vec::new();
            assert(views(l@) =~= Seq::<ExtractedRelationView>::empty());
            Some(l)
        },
        Some(JsonValue::Array(items)) => parse_all(items, relation_from_json_exec, Ghost(relation_parser())),
        Some(_) => None,
    }
}

pub fn response_from_json_exec(v: &JsonValue) -> (r: Option<ExtractionResponse>)
    ensures
        match r {
            Some(x) => response_from_json(*v) == Some(x@),
            None => response_from_json(*v) is None,
        },
{
    match v {
        JsonValue::Object(_) => match (concepts_of(get_field(v, "concepts")), relations_of(get_field(v, "relations"))) {
            (Some(c), Some(r)) => Some(ExtractionResponse { concepts: c, relations: r }),
            _ => None,
        },
        JsonValue::Array(items) => {
            if items.len() <= 2 {
                let c = if items.len() >= 1 { concepts_of(Some(&items[0])) } else { concepts_of(None) };
                let r = if items.len() == 2 { relations_of(Some(&items[1])) } else { relations_of(None) };
                match (c, r) {
                    (Some(c), Some(r)) => Some(ExtractionResponse { concepts: c, relations: r }),
                    _ => None,
                }
            } else {
                None
            }
        },
        _ => None,
    }
}

// ---------------------------------------------------------------------
// Text helpers
// ---------------------------------------------------------------------

/// The leading run of newlines removed.
pub open spec fn skip_newlines(s: Seq<char>) -> Seq<char>
    decreases s.len(),
{
    if s.len() > 0 && s[0] == '\n' {
        skip_newlines(s.drop_first())
    } else {
        s
    }
}

/// A code fence starts at position `j` of `s`.
pub open spec fn fence_at(s: Seq<char>, j: int) -> bool {
    0 <= j && j + 3 <= s.len() && s.subrange(j, j + 3) == crate::study_output::fence()
}

/// `i` is the position of the last code fence in `s`.
pub open spec fn is_last_fence(s: Seq<char>, i: int) -> bool {
    &&& fence_at(s, i)
    &&& forall|j: int| i < j ==> !#[trigger] fence_at(s, j)
}

/// `s` without a leading `json` tag.
pub open spec fn without_json_tag(s: Seq<char>) -> Seq<char> {
    if crate::text::starts_with(s, "json"@) {
        s.skip(4)
    } else {
        s
    }
}

/// The text before the last code fence of `c`, trimmed; all of `c`,
/// trimmed, when it has none.
pub open spec fn before_last_fence(c: Seq<char>) -> Seq<char> {
    if exists|i: int| is_last_fence(c, i) {
        trim(c.take(choose|i: int| is_last_fence(c, i)))
    } else {
        trim(c)
    }
}

/// `raw` without surrounding whitespace and, when it opens with a code
/// fence, without the fence, an optional `json` tag, the newlines after
/// it, and everything from the last closing fence on.
pub open spec fn graph_fence_stripped(raw: Seq<char>) -> Seq<char> {
    if crate::text::starts_with(trim(raw), crate::study_output::fence()) {
        before_last_fence(skip_newlines(without_json_tag(trim(raw).skip(3))))
    } else {
        trim(raw)
    }
}

fn json_tag() -> (r: Vec<char>)
    ensures
        r@ == "json"@,
{
    let r = chars_of("json");
    r
}


fn last_fence(c: &Vec<char>) -> (r: Option<usize>)
    ensures
        match r {
            Some(i) => is_last_fence(c@, i as int),
            None => forall|i: int| !is_last_fence(c@, i),
        },
{
    if c.len() < 3 {
        return None;
    }
    let mut i: usize = c.len() - 3 + 1;
    while i > 0
        invariant
            i <= c.len() - 2,
            c.len() >= 3,
            forall|j: int| i <= j ==> !#[trigger] fence_at(c@, j),
        decreases i,
    {
        let k = i - 1;
        if c[k] == '`' && c[k + 1] == '`' && c[k + 2] == '`' {
            assert(c@.subrange(k as int, k + 3) =~= crate::study_output::fence());
            return Some(k);
        }
        assert(c@.subrange(k as int, k + 3)[0] == c@[k as int]);
        assert(c@.subrange(k as int, k + 3)[1] == c@[k + 1]);
        assert(c@.subrange(k as int, k + 3)[2] == c@[k + 2]);
        i = k;
    }
    assert forall|i: int| !is_last_fence(c@, i) by {
        if i >= 0 {
            assert(!fence_at(c@, i));
        }
    }
    None
}

/// Removes a code fence around an extraction reply.
pub fn strip_extraction_fence(raw: &str) -> (r: Vec<char>)
    ensures
        r@ == graph_fence_stripped(raw@),
{
    let v = chars_of(raw);
    let t = trim_chars(&v);
    let f = crate::study_output::fence_chars();
    if !crate::text::chars_start_with(&t, &f) {
        return t;
    }
    let a = crate::text::slice_chars(&t, 3, t.len());
    assert(a@ =~= t@.skip(3));
    let tag = json_tag();
    proof {
        reveal_strlit("json");
    }
    let b = if crate::text::chars_start_with(&a, &tag) {
        let b = crate::text::slice_chars(&a, 4, a.len());
        assert(b@ =~= a@.skip(4));
        b
    } else {
        a
    };
    let mut k: usize = 0;
    assert(b@.skip(0) =~= b@);
    while k < b.len() && b[k] == '\n'
        invariant
            k <= b.len(),
            skip_newlines(b@) == skip_newlines(b@.skip(k as int)),
        decreases b.len() - k,
    {
        assert(b@.skip(k as int).drop_first() =~= b@.skip(k + 1));
        k = k + 1;
    }
    let c = crate::text::slice_chars(&b, k, b.len());
    assert(c@ =~= b@.skip(k as int));
    assert(skip_newlines(c@) == c@);
    match last_fence(&c) {
        Some(e) => {
            let d = crate::text::slice_chars(&c, 0, e);
            assert(d@ =~= c@.take(e as int));
            proof {
                let j = choose|j: int| is_last_fence(c@, j);
                assert(is_last_fence(c@, j));
                if j < e {
                    assert(fence_at(c@, e as int));
                } else if e < j {
                    assert(fence_at(c@, j));
                }
                assert(j == e);
            }
            trim_chars(&d)
        },
        None => trim_chars(&c),
    }
}

/// The outcome of reading a reply: the response, or the error text.
pub open spec fn extraction_parse(raw: Seq<char>) -> Result<ExtractionResponseView, Seq<char>> {
    match json_decode(graph_fence_stripped(raw)) {
        Err(m) => Err(m),
        Ok(v) => match response_from_json(v) {
            Some(r) => Ok(r),
            None => Err(crate::study_output::shape_detail()),
        },
    }
}

/// Reads a model's extraction reply.
pub fn parse_extraction_response(raw: &str) -> (r: Result<ExtractionResponse, String>)
    ensures
        match r {
            Ok(x) => extraction_parse(raw@) == Ok::<ExtractionResponseView, Seq<char>>(x@),
            Err(m) => extraction_parse(raw@) == Err::<ExtractionResponseView, Seq<char>>(m@),
        },
{
    let text = strip_extraction_fence(raw);
    let s = string_from_chars(text.as_slice());
    match decode_json(s.as_str()) {
        Err(m) => Err(m),
        Ok(v) => match response_from_json_exec(&v) {
            Some(x) => Ok(x),
            None => Err("the JSON does not have the expected fields and types".to_owned()),
        },
    }
}

/// The dedup key of a concept label: trimmed and lower-cased.
pub open spec fn label_key(label: Seq<char>) -> Seq<char> {
    lowercase_of(trim(label))
}

pub fn normalize_label(label: &str) -> (r: String)
    ensures
        r@ == label_key(label@),
        is_ascii_text(trim(label@)) ==> r@ == ascii_lower(trim(label@)),
{
    let t = trim_str(label);
    to_lowercase(t.as_str())
}

/// A relation type name as compared: trimmed and lower-cased (an ASCII
/// name letter by letter).
pub open spec fn relation_key(name: Seq<char>) -> Seq<char> {
    let t = trim(name);
    if is_ascii_text(t) {
        ascii_lower(t)
    } else {
        lowercase_of(t)
    }
}

/// `s` with its ASCII small letters written as capitals.
pub open spec fn ascii_upper(s: Seq<char>) -> Seq<char> {
    s.map_values(|c: char| if 'a' <= c && c <= 'z' { ((c as u32) - 32) as char } else { c })
}

/// `s` with its dashes written as underscores.
pub open spec fn underscored(s: Seq<char>) -> Seq<char> {
    s.map_values(|c: char| if c == '-' { '_' } else { c })
}

/// A name of ASCII letters, dashes and underscores, which lowers letter by
/// letter to `k`, has relation key `k`.
proof fn lemma_relation_key_of(v: Seq<char>, k: Seq<char>)
    requires
        v.len() > 0,
        v.len() == k.len(),
        forall|i: int|
            0 <= i < v.len() ==> (('a' <= #[trigger] v[i] && v[i] <= 'z') || ('A' <= v[i] && v[i] <= 'Z') || v[i]
                == '-' || v[i] == '_') && crate::text::ascii_lower_char(v[i]) == k[i],
    ensures
        relation_key(v) == k,
{
    assert(!crate::text::is_ws(v[0]));
    assert(crate::text::trim_start(v) == v);
    assert(!crate::text::is_ws(v.last()));
    assert(trim(v) == v);
    assert(is_ascii_text(v));
    assert(ascii_lower(v) =~= k);
}

/// A key made of small ASCII letters and dashes is its own relation key.
proof fn lemma_plain_relation_key(k: Seq<char>)
    requires
        k.len() > 0,
        forall|i: int| 0 <= i < k.len() ==> ('a' <= #[trigger] k[i] && k[i] <= 'z') || k[i] == '-',
    ensures
        relation_key(k) == k,
        relation_key(ascii_upper(k)) == k,
        relation_key(underscored(k)) == underscored(k),
{
    lemma_relation_key_of(k, k);
    let u = ascii_upper(k);
    assert forall|i: int| 0 <= i < u.len() implies (('a' <= #[trigger] u[i] && u[i] <= 'z') || ('A' <= u[i] && u[i]
        <= 'Z') || u[i] == '-' || u[i] == '_') && crate::text::ascii_lower_char(u[i]) == k[i] by {
        assert(('a' <= k[i] && k[i] <= 'z') || k[i] == '-');
    }
    lemma_relation_key_of(u, k);
    let d = underscored(k);
    assert forall|i: int| 0 <= i < d.len() implies (('a' <= #[trigger] d[i] && d[i] <= 'z') || ('A' <= d[i] && d[i]
        <= 'Z') || d[i] == '-' || d[i] == '_') && crate::text::ascii_lower_char(d[i]) == d[i] by {
        assert(('a' <= k[i] && k[i] <= 'z') || k[i] == '-');
    }
    lemma_relation_key_of(d, d);
}

/// The name a relation type is stored and asked for under reads back as
/// that type: the model's replies in the names the prompt gives it are
/// stored as the types those names mean.
pub proof fn law_relation_names_read_back(t: RelationType)
    ensures
        relation_of_name(relation_name(t)) == t,
{
    reveal_strlit("prerequisite-of");
    reveal_strlit("related-to");
    reveal_strlit("part-of");
    reveal_strlit("prerequisite_of");
    reveal_strlit("prerequisiteof");
    reveal_strlit("part_of");
    reveal_strlit("partof");
    let n = relation_name(t);
    lemma_plain_relation_key(n);
}

/// A relation type name is read the same in capitals and with underscores
/// in place of dashes: `PREREQUISITE-OF` and `prerequisite_of` mean
/// prerequisite, `Part_Of` means part-of.
pub proof fn law_relation_names_any_case_or_separator(t: RelationType)
    ensures
        relation_of_name(ascii_upper(relation_name(t))) == t,
        relation_of_name(underscored(relation_name(t))) == t,
        relation_of_name(ascii_upper(underscored(relation_name(t)))) == t,
{
    reveal_strlit("prerequisite-of");
    reveal_strlit("related-to");
    reveal_strlit("part-of");
    reveal_strlit("prerequisite_of");
    reveal_strlit("prerequisiteof");
    reveal_strlit("part_of");
    reveal_strlit("partof");
    let n = relation_name(t);
    lemma_plain_relation_key(n);
    let d = underscored(n);
    let u = ascii_upper(d);
    assert forall|i: int| 0 <= i < u.len() implies (('a' <= #[trigger] u[i] && u[i] <= 'z') || ('A' <= u[i] && u[i]
        <= 'Z') || u[i] == '-' || u[i] == '_') && crate::text::ascii_lower_char(u[i]) == d[i] by {
        assert(('a' <= n[i] && n[i] <= 'z') || n[i] == '-');
    }
    lemma_relation_key_of(u, d);
    match t {
        RelationType::PrerequisiteOf => {
            assert(d =~= "prerequisite_of"@);
        },
        RelationType::PartOf => {
            assert(d =~= "part_of"@);
        },
        RelationType::RelatedTo => {
            reveal_strlit("related_to");
            assert(d =~= "related_to"@);
        },
    }
}

/// The relation type a model's type name stands for: prerequisite and
/// part-of in their hyphen, underscore and joined spellings (any case,
/// surrounding whitespace ignored); anything else is a general relation.
pub open spec fn relation_of_name(name: Seq<char>) -> RelationType {
    let k = relation_key(name);
    if k == "prerequisite-of"@ || k == "prerequisite_of"@ || k == "prerequisiteof"@ {
        RelationType::PrerequisiteOf
    } else if k == "part-of"@ || k == "part_of"@ || k == "partof"@ {
        RelationType::PartOf
    } else {
        RelationType::RelatedTo
    }
}

pub fn relation_type_from_extracted(value: &str) -> (r: RelationType)
    ensures
        r == relation_of_name(value@),
{
    let k = normalize_label(value);
    let s = k.as_str();
    if str_eq(s, "prerequisite-of") || str_eq(s, "prerequisite_of") || str_eq(s, "prerequisiteof") {
        RelationType::PrerequisiteOf
    } else if str_eq(s, "part-of") || str_eq(s, "part_of") || str_eq(s, "partof") {
        RelationType::PartOf
    } else {
        RelationType::RelatedTo
    }
}

// ---------------------------------------------------------------------
// Extraction prompt
// ---------------------------------------------------------------------

pub open spec fn chunk_section(i: nat, text: Seq<char>) -> Seq<char> {
    "[chunk "@ + crate::text::decimal(i + 1) + "]\n"@ + text
}

/// The chunk texts, each headed by its 1-based number, separated by a
/// blank line.
pub open spec fn joined_chunks(texts: Seq<Seq<char>>) -> Seq<char>
    decreases texts.len(),
{
    if texts.len() == 0 {
        Seq::empty()
    } else if texts.len() == 1 {
        chunk_section(0, texts[0])
    } else {
        joined_chunks(texts.drop_last()) + "\n\n"@ + chunk_section((texts.len() - 1) as nat, texts.last())
    }
}

pub open spec fn extraction_prompt_lead() -> Seq<char> {
    "You are extracting a concept graph from study material.\n\nDocument: "@
}

pub open spec fn extraction_prompt_rules() -> Seq<char> {
    "\n\nRead the text below and identify the distinct academic/technical concepts it teaches, and the relationships between them.\n\nRespond with ONLY a single JSON object, no prose before or after, no markdown code fence, matching exactly this shape:\n{\"concepts\": [{\"name\": \"string\", \"description\": \"one sentence or null\"}], \"relations\": [{\"from\": \"concept name\", \"to\": \"concept name\", \"type\": \"prerequisite-of\" | \"related-to\" | \"part-of\"}]}\n\nRules:\n- Use the same exact \"name\" spelling for a concept whenever it recurs across relations.\n- Only include relations between concepts you also listed.\n- If no clear concepts are present, return {\"concepts\": [], \"relations\": []}.\n\nTEXT:\n\n"@
}

/// The extraction prompt for one document's chunks.
pub open spec fn extraction_prompt(label: Seq<char>, texts: Seq<Seq<char>>) -> Seq<char> {
    extraction_prompt_lead() + label + extraction_prompt_rules() + joined_chunks(texts)
}

/// Where the section of chunk `i` starts among the joined chunk texts.
pub open spec fn chunk_offset(texts: Seq<Seq<char>>, i: int) -> int {
    if i == 0 {
        0
    } else {
        joined_chunks(texts.take(i)).len() + 2int
    }
}

/// Where the section of chunk `i` starts in the extraction prompt.
pub open spec fn prompt_chunk_offset(label: Seq<char>, texts: Seq<Seq<char>>, i: int) -> int {
    (extraction_prompt_lead() + label + extraction_prompt_rules()).len() + chunk_offset(texts, i)
}

proof fn lemma_chunk_sections(texts: Seq<Seq<char>>, i: int)
    requires
        0 <= i < texts.len(),
    ensures
        joined_chunks(texts).subrange(chunk_offset(texts, i), chunk_offset(texts, i) + chunk_section(i as nat, texts[i]).len())
            == chunk_section(i as nat, texts[i]),
        i + 1 < texts.len() ==> chunk_offset(texts, i + 1) == chunk_offset(texts, i) + chunk_section(i as nat, texts[i]).len() + 2,
        i + 1 == texts.len() ==> joined_chunks(texts).len() == chunk_offset(texts, i) + chunk_section(i as nat, texts[i]).len(),
        0 <= chunk_offset(texts, i),
        chunk_offset(texts, i) + chunk_section(i as nat, texts[i]).len() <= joined_chunks(texts).len(),
    decreases texts.len(),
{
    reveal_strlit("\n\n");
    let n = texts.len() as int;
    let front = texts.drop_last();
    if n == 1 {
        assert(joined_chunks(texts) == chunk_section(0, texts[0]));
        assert(joined_chunks(texts).subrange(0, chunk_section(0, texts[0]).len() as int) =~= chunk_section(0, texts[0]));
    } else {
        let last = chunk_section((n - 1) as nat, texts.last());
        assert(joined_chunks(texts) == joined_chunks(front) + "\n\n"@ + last);
        assert(texts.take(n - 1) =~= front);
        if i == n - 1 {
            let off: int = joined_chunks(front).len() + 2int;
            assert(chunk_offset(texts, i) == off);
            assert((joined_chunks(front) + "\n\n"@ + last).subrange(off, (off + last.len()) as int) =~= last);
        } else {
            lemma_chunk_sections(front, i);
            assert(texts.take(i) =~= front.take(i));
            assert(chunk_offset(texts, i) == chunk_offset(front, i));
            let sec = chunk_section(i as nat, texts[i]);
            let o = chunk_offset(texts, i);
            assert(front[i] == texts[i]);
            assert(joined_chunks(texts).subrange(o, o + sec.len()) =~= joined_chunks(front).subrange(o, o + sec.len()));
            if i + 1 < n - 1 {
                assert(texts.take(i + 1) =~= front.take(i + 1));
            } else {
                assert(chunk_offset(texts, i + 1) == joined_chunks(front).len() + 2);
            }
        }
    }
}

/// The extraction prompt lists every chunk text, headed by its number
/// counted from 1, in input order: chunk `i`'s section stands at its
/// offset, and the next chunk's section follows it after a blank line.
pub proof fn law_extraction_prompt_lists_chunks_in_order(label: Seq<char>, texts: Seq<Seq<char>>, i: int)
    requires
        0 <= i < texts.len(),
    ensures
        extraction_prompt(label, texts).subrange(
            prompt_chunk_offset(label, texts, i),
            prompt_chunk_offset(label, texts, i) + chunk_section(i as nat, texts[i]).len(),
        ) == chunk_section(i as nat, texts[i]),
        i + 1 < texts.len() ==> prompt_chunk_offset(label, texts, i + 1) == prompt_chunk_offset(label, texts, i)
            + chunk_section(i as nat, texts[i]).len() + 2,
{
    lemma_chunk_sections(texts, i);
    let head = extraction_prompt_lead() + label + extraction_prompt_rules();
    let o = chunk_offset(texts, i);
    let sec = chunk_section(i as nat, texts[i]);
    assert(extraction_prompt(label, texts) == head + joined_chunks(texts));
    assert((head + joined_chunks(texts)).subrange(head.len() + o, head.len() + o + sec.len()) =~= joined_chunks(
        texts,
    ).subrange(o, o + sec.len()));
}

/// Builds the structured-JSON extraction prompt for one document.
pub fn build_extraction_prompt(document_label: &str, chunk_texts: &Vec<String>) -> (r: String)
    requires
        chunk_texts.len() < u64::MAX,
    ensures
        r@ == extraction_prompt(document_label@, string_views(chunk_texts@)),
{
    let mut out: Vec<char> = Vec::new();
    push_str(&mut out, "You are extracting a concept graph from study material.\n\nDocument: ");
    push_str(&mut out, document_label);
    push_str(&mut out, "\n\nRead the text below and identify the distinct academic/technical concepts it teaches, and the relationships between them.\n\nRespond with ONLY a single JSON object, no prose before or after, no markdown code fence, matching exactly this shape:\n{\"concepts\": [{\"name\": \"string\", \"description\": \"one sentence or null\"}], \"relations\": [{\"from\": \"concept name\", \"to\": \"concept name\", \"type\": \"prerequisite-of\" | \"related-to\" | \"part-of\"}]}\n\nRules:\n- Use the same exact \"name\" spelling for a concept whenever it recurs across relations.\n- Only include relations between concepts you also listed.\n- If no clear concepts are present, return {\"concepts\": [], \"relations\": []}.\n\nTEXT:\n\n");
    let ghost head = out@;
    let mut i: usize = 0;
    while i < chunk_texts.len()
        invariant
            i <= chunk_texts.len(),
            chunk_texts.len() < u64::MAX,
            out@ == head + joined_chunks(string_views(chunk_texts@).take(i as int)),
        decreases chunk_texts.len() - i,
    {
        let ghost before = out@;
        if i > 0 {
            push_str(&mut out, "\n\n");
        }
        push_str(&mut out, "[chunk ");
        push_decimal(&mut out, (i + 1) as u64);
        push_str(&mut out, "]\n");
        push_str(&mut out, chunk_texts[i].as_str());
        proof {
            let ts = string_views(chunk_texts@).take(i + 1);
            assert(ts.drop_last() =~= string_views(chunk_texts@).take(i as int));
            assert(ts.last() == chunk_texts@[i as int]@);
            if i == 0 {
                assert(string_views(chunk_texts@).take(0) =~= Seq::<Seq<char>>::empty());
            }
        }
        i = i + 1;
    }
    assert(string_views(chunk_texts@).take(chunk_texts.len() as int) =~= string_views(chunk_texts@));
    string_from_chars(out.as_slice())
}

// ---------------------------------------------------------------------
// Extraction
// ---------------------------------------------------------------------

/// Asks a model for text back. Implemented for the inference stack by
/// [`EnginePoolConceptExtractor`] and, in tests, by scripted models.
pub trait ConceptExtractionModel {
    /// The model may reply `reply` to `prompt`; a model that does not say
    /// may reply anything.
    open spec fn replies(&self, prompt: Seq<char>, reply: Seq<char>) -> bool {
        true
    }

    /// The model may fail on `prompt` with `error`; a model that does not
    /// say may fail with anything.
    open spec fn fails(&self, prompt: Seq<char>, error: AppError) -> bool {
        true
    }

    fn extract(&self, prompt: &str) -> (r: Result<String, AppError>)
        ensures
            r matches Ok(t) ==> self.replies(prompt@, t@),
            r matches Err(e) ==> self.fails(prompt@, e),
    ;
}

/// A reply's outcome by its text.
pub open spec fn reply_view(r: Result<String, AppError>) -> Result<Seq<char>, AppError> {
    match r {
        Ok(t) => Ok(t@),
        Err(e) => Err(e),
    }
}

/// `model` may end an extraction request for `prompt` with `out`.
pub open spec fn model_gives<M: ConceptExtractionModel>(model: M, prompt: Seq<char>, out: Result<Seq<char>, AppError>) -> bool {
    match out {
        Ok(t) => model.replies(prompt, t),
        Err(e) => model.fails(prompt, e),
    }
}

/// The graph is left as it was.
pub open spec fn graph_unchanged<G: GraphRepository>(before: G, after: G) -> bool {
    after == before
}

/// How an extraction run with `model` on `prompt` may end with `r`, the
/// graph going from `before` to `after`: the model is asked; its failure
/// is the result and the graph is unchanged; a reply that reads is merged;
/// otherwise the model is asked exactly once more with the retry prompt
/// naming the reading error, and that reply's failure is the result, or
/// its reading is merged, or, when it does not read either, the result is
/// a model error naming that second reading error, the graph unchanged.
pub open spec fn extraction_run<M: ConceptExtractionModel, G: GraphRepository>(
    model: M,
    prompt: Seq<char>,
    before: G,
    after: G,
    workspace_id: WorkspaceId,
    r: Result<ExtractionOutcome, AppError>,
) -> bool {
    exists|a1: Result<Seq<char>, AppError>|
        #[trigger] model_gives(model, prompt, a1) && match a1 {
            Err(e) => r == Err::<ExtractionOutcome, AppError>(e) && graph_unchanged(before, after),
            Ok(first) => match extraction_parse(first) {
                Ok(x) => r matches Ok(o) ==> merged_from_listing(before, workspace_id, o, x),
                Err(m1) => exists|a2: Result<Seq<char>, AppError>|
                    #[trigger] model_gives(model, retry_prompt_text(prompt, m1), a2) && match a2 {
                        Err(e) => r == Err::<ExtractionOutcome, AppError>(e) && graph_unchanged(before, after),
                        Ok(second) => match extraction_parse(second) {
                            Ok(x) => r matches Ok(o) ==> merged_from_listing(before, workspace_id, o, x),
                            Err(m2) => (r matches Err(e) && e.code == ErrorCode::EngineError && e.category
                                == ErrorCategory::ModelError && e.message@ == give_up_message(m2))
                                && graph_unchanged(before, after),
                        },
                    },
            },
        }
}

/// The prompt asking again after a reply to `prompt` failed to parse with
/// `error`.
pub open spec fn retry_prompt_text(prompt: Seq<char>, error: Seq<char>) -> Seq<char> {
    prompt + "\n\nYour previous reply could not be parsed as JSON ("@ + error
        + "). Reply again with ONLY the JSON object, nothing else."@
}

/// The message of giving up after the retry failed to parse with `error`.
pub open spec fn give_up_message(error: Seq<char>) -> Seq<char> {
    "concept extraction response was not valid JSON after one retry: "@ + error
}

/// What to do with a model's extraction reply.
pub enum ExtractionStep {
    /// Merge the parsed extraction.
    Merge(ExtractionResponse),
    /// Ask again with this prompt.
    Retry(String),
    /// Give up with this error.
    GiveUp(AppError),
}

/// What follows a reply to `prompt`: a reply that parses is merged; the
/// first reply that does not is followed by one retry whose prompt names
/// the parse error; a retry that does not parse either gives up with a
/// model error.
pub fn next_extraction_step(prompt: &str, reply: &str, retried: bool) -> (r: ExtractionStep)
    ensures
        match extraction_parse(reply@) {
            Ok(x) => r matches ExtractionStep::Merge(p) && p@ == x,
            Err(m) => if retried {
                r matches ExtractionStep::GiveUp(e) && e.code == ErrorCode::EngineError && e.category
                    == ErrorCategory::ModelError && e.message@ == give_up_message(m)
            } else {
                r matches ExtractionStep::Retry(t) && t@ == retry_prompt_text(prompt@, m)
            },
        },
{
    match parse_extraction_response(reply) {
        Ok(p) => ExtractionStep::Merge(p),
        Err(err) => {
            if retried {
                let mut e: Vec<char> = Vec::new();
                push_str(&mut e, "concept extraction response was not valid JSON after one retry: ");
                push_str(&mut e, err.as_str());
                ExtractionStep::GiveUp(AppError::model(string_from_chars(e.as_slice())))
            } else {
                let mut m: Vec<char> = Vec::new();
                push_str(&mut m, prompt);
                push_str(&mut m, "\n\nYour previous reply could not be parsed as JSON (");
                push_str(&mut m, err.as_str());
                push_str(&mut m, "). Reply again with ONLY the JSON object, nothing else.");
                ExtractionStep::Retry(string_from_chars(m.as_slice()))
            }
        },
    }
}

/// The extraction `x` was read from what the model replied to `prompt`,
/// directly or after one retry.
pub open spec fn extraction_replied<M: ConceptExtractionModel>(model: M, prompt: Seq<char>, x: ExtractionResponseView) -> bool {
    ||| exists|reply: Seq<char>|
        #[trigger] model.replies(prompt, reply) && extraction_parse(reply) == Ok::<ExtractionResponseView, Seq<char>>(x)
    ||| exists|first: Seq<char>, m: Seq<char>, reply: Seq<char>|
        #![trigger model.replies(prompt, first), model.replies(retry_prompt_text(prompt, m), reply)]
        model.replies(prompt, first) && extraction_parse(first) == Err::<ExtractionResponseView, Seq<char>>(m)
            && model.replies(retry_prompt_text(prompt, m), reply) && extraction_parse(reply) == Ok::<
            ExtractionResponseView,
            Seq<char>,
        >(x)
}

/// The extraction model backed by an engine pool's Reasoning engine.
pub struct EnginePoolConceptExtractor<E: Engine> {
    pool: std::sync::Arc<EnginePool<E>>,
}

impl<E: Engine> EnginePoolConceptExtractor<E> {
    pub closed spec fn pool(&self) -> EnginePool<E> {
        *self.pool
    }

    pub fn new(pool: std::sync::Arc<EnginePool<E>>) -> (r: Self)
        ensures
            r.pool() == *pool,
    {
        EnginePoolConceptExtractor { pool }
    }
}

impl<E: Engine> ConceptExtractionModel for EnginePoolConceptExtractor<E> {
    /// A reply is what the pool's Reasoning engine answers to `prompt` as a
    /// text prompt.
    open spec fn replies(&self, prompt: Seq<char>, reply: Seq<char>) -> bool {
        crate::engines::pool_gives(self.pool(), EngineRole::Reasoning, ResolvedPromptView { content: prompt, images: None }, Ok(reply))
    }

    /// A failure is what running `prompt` as a text prompt on the pool's
    /// Reasoning engine fails with.
    open spec fn fails(&self, prompt: Seq<char>, error: AppError) -> bool {
        crate::engines::pool_gives(self.pool(), EngineRole::Reasoning, ResolvedPromptView { content: prompt, images: None }, Err(error))
    }

    /// Runs `prompt` as a text prompt on the Reasoning engine and returns
    /// its answer or its failure unchanged.
    fn extract(&self, prompt: &str) -> (r: Result<String, AppError>)
        ensures
            crate::engines::engine_index(self.pool().roles(), EngineRole::Reasoning) is None ==> r is Err,
    {
        match self.pool.run_role(EngineRole::Reasoning, ResolvedPrompt::text(prompt)) {
            Ok(output) => Ok(output.content),
            Err(e) => Err(e),
        }
    }
}

/// What merging one extraction did to the graph.
#[derive(Debug, Clone, Copy, Default, PartialEq, Eq, Structural)]
pub struct ExtractionOutcome {
    pub nodes_created: usize,
    pub nodes_reused: usize,
    pub edges_created: usize,
}

/// The key of an extracted concept name, as merging computes it.
pub open spec fn concept_key(name: Seq<char>) -> Seq<char> {
    label_key(trim(name))
}

/// The keys known after merging the concepts `cs` into a graph whose
/// labels have keys `known`: each named concept with a new key adds it.
pub open spec fn keys_after(known: Seq<Seq<char>>, cs: Seq<ExtractedConceptView>) -> Seq<Seq<char>>
    decreases cs.len(),
{
    if cs.len() == 0 {
        known
    } else {
        let k = keys_after(known, cs.drop_last());
        let c = cs.last();
        if is_blank(c.name) || k.contains(concept_key(c.name)) {
            k
        } else {
            k.push(concept_key(c.name))
        }
    }
}

/// The concepts merging `cs` adds as new nodes to a workspace whose node
/// labels have keys `known`: each named concept whose key is new, as its
/// trimmed name and cleaned description, in order.
pub open spec fn added_concepts(known: Seq<Seq<char>>, cs: Seq<ExtractedConceptView>) -> Seq<
    (Seq<char>, Option<Seq<char>>),
>
    decreases cs.len(),
{
    if cs.len() == 0 {
        Seq::empty()
    } else {
        let a = added_concepts(known, cs.drop_last());
        let c = cs.last();
        if is_blank(c.name) || keys_after(known, cs.drop_last()).contains(concept_key(c.name)) {
            a
        } else {
            a.push((trim(c.name), clean_description(c.description)))
        }
    }
}

/// `after` is `before` followed by one node of `workspace_id` for each of
/// `added`, with its label and description.
pub open spec fn nodes_added(
    before: Seq<ConceptNodeView>,
    after: Seq<ConceptNodeView>,
    workspace_id: WorkspaceId,
    added: Seq<(Seq<char>, Option<Seq<char>>)>,
) -> bool {
    &&& after.len() == before.len() + added.len()
    &&& forall|i: int| 0 <= i < before.len() ==> #[trigger] after[i] == before[i]
    &&& forall|k: int|
        0 <= k < added.len() ==> {
            let n = #[trigger] after[before.len() + k];
            &&& n.workspace_id == workspace_id
            &&& n.label == added[k].0
            &&& n.description == added[k].1
        }
}

/// `id` is the last node of `nodes` whose label has key `k`.
pub open spec fn keyed_node(nodes: Seq<ConceptNodeView>, k: Seq<char>, id: ConceptNodeId) -> bool {
    exists|i: int|
        0 <= i < nodes.len() && label_key(#[trigger] nodes[i].label) == k && nodes[i].id == id && forall|j: int|
            i < j < nodes.len() ==> label_key(#[trigger] nodes[j].label) != k
}

/// `e` is the edge the relation `r` stands for among `nodes`: between the
/// nodes of its two (distinct) keys, of its type.
pub open spec fn relation_edge(nodes: Seq<ConceptNodeView>, r: ExtractedRelationView, e: ConceptEdge) -> bool {
    &&& label_key(r.from) != label_key(r.to)
    &&& keyed_node(nodes, label_key(r.from), e.from_node_id)
    &&& keyed_node(nodes, label_key(r.to), e.to_node_id)
    &&& e.relation_type == relation_of_name(r.relation_type)
}

/// What makes an edge the same edge: its endpoints and its type.
pub open spec fn edge_triple(e: ConceptEdge) -> (ConceptNodeId, ConceptNodeId, RelationType) {
    (e.from_node_id, e.to_node_id, e.relation_type)
}

/// The endpoints and types of `es`, in order.
pub open spec fn edge_triples(es: Seq<ConceptEdge>) -> Seq<(ConceptNodeId, ConceptNodeId, RelationType)> {
    es.map_values(|e: ConceptEdge| edge_triple(e))
}

/// The id of the last of `nodes` whose label has key `k`, if any.
pub open spec fn key_id(nodes: Seq<ConceptNodeView>, k: Seq<char>) -> Option<ConceptNodeId>
    decreases nodes.len(),
{
    if nodes.len() == 0 {
        None
    } else if label_key(nodes.last().label) == k {
        Some(nodes.last().id)
    } else {
        key_id(nodes.drop_last(), k)
    }
}

/// The edge the relation `r` asks for among `nodes`: between the nodes of
/// its two keys, of its type; none when its keys are equal or one of them
/// has no node.
pub open spec fn relation_triple(nodes: Seq<ConceptNodeView>, r: ExtractedRelationView) -> Option<
    (ConceptNodeId, ConceptNodeId, RelationType),
> {
    if label_key(r.from) == label_key(r.to) {
        None
    } else {
        match (key_id(nodes, label_key(r.from)), key_id(nodes, label_key(r.to))) {
            (Some(a), Some(b)) => Some((a, b, relation_of_name(r.relation_type))),
            _ => None,
        }
    }
}

/// The edges, by endpoints and type, after merging the relations `rels`
/// into edges `start` among `nodes`: each relation asking for an edge
/// that is not there yet adds it once; any other relation adds nothing.
pub open spec fn triples_after(
    start: Seq<(ConceptNodeId, ConceptNodeId, RelationType)>,
    nodes: Seq<ConceptNodeView>,
    rels: Seq<ExtractedRelationView>,
) -> Seq<(ConceptNodeId, ConceptNodeId, RelationType)>
    decreases rels.len(),
{
    if rels.len() == 0 {
        start
    } else {
        let t = triples_after(start, nodes, rels.drop_last());
        match relation_triple(nodes, rels.last()) {
            Some(x) => if t.contains(x) {
                t
            } else {
                t.push(x)
            },
            None => t,
        }
    }
}

/// No element of `s` appears twice.
pub open spec fn no_repeats<A>(s: Seq<A>) -> bool {
    forall|i: int, j: int| 0 <= i < j < s.len() ==> s[i] != s[j]
}

/// Merging relations never duplicates an edge: starting from edges that
/// are all different, the edges after merging are all different, the
/// edges that were there stay first and unchanged, and every relation
/// that asks for an edge among `nodes` finds it there.
pub proof fn law_merge_never_duplicates_an_edge(
    start: Seq<(ConceptNodeId, ConceptNodeId, RelationType)>,
    nodes: Seq<ConceptNodeView>,
    rels: Seq<ExtractedRelationView>,
)
    requires
        no_repeats(start),
    ensures
        no_repeats(triples_after(start, nodes, rels)),
        triples_after(start, nodes, rels).len() >= start.len(),
        triples_after(start, nodes, rels).take(start.len() as int) == start,
        forall|k: int|
            0 <= k < rels.len() && #[trigger] relation_triple(nodes, rels[k]) is Some ==> triples_after(
                start,
                nodes,
                rels,
            ).contains(relation_triple(nodes, rels[k])->0),
    decreases rels.len(),
{
    if rels.len() > 0 {
        let front = rels.drop_last();
        law_merge_never_duplicates_an_edge(start, nodes, front);
        let t = triples_after(start, nodes, front);
        let after = triples_after(start, nodes, rels);
        match relation_triple(nodes, rels.last()) {
            Some(x) => {
                if !t.contains(x) {
                    assert(after == t.push(x));
                    assert forall|i: int, j: int| 0 <= i < j < after.len() implies after[i] != after[j] by {
                        if j == t.len() {
                            assert(after[i] == t[i]);
                        } else {
                            assert(after[i] == t[i] && after[j] == t[j]);
                        }
                    }
                    assert(after.take(start.len() as int) =~= t.take(start.len() as int));
                    assert forall|k: int|
                        0 <= k < rels.len() && #[trigger] relation_triple(nodes, rels[k]) is Some implies after.contains(
                            relation_triple(nodes, rels[k])->0,
                        ) by {
                        if k < front.len() {
                            assert(front[k] == rels[k]);
                            let y = relation_triple(nodes, rels[k])->0;
                            assert(t.contains(y));
                            let i = choose|i: int| 0 <= i < t.len() && t[i] == y;
                            assert(after[i] == y);
                        } else {
                            assert(after[t.len() as int] == x);
                        }
                    }
                } else {
                    assert forall|k: int|
                        0 <= k < rels.len() && #[trigger] relation_triple(nodes, rels[k]) is Some implies after.contains(
                            relation_triple(nodes, rels[k])->0,
                        ) by {
                        if k < front.len() {
                            assert(front[k] == rels[k]);
                        }
                    }
                }
            },
            None => {
                assert forall|k: int|
                    0 <= k < rels.len() && #[trigger] relation_triple(nodes, rels[k]) is Some implies after.contains(
                        relation_triple(nodes, rels[k])->0,
                    ) by {
                    if k < front.len() {
                        assert(front[k] == rels[k]);
                    }
                }
            },
        }
    } else {
        assert(start.take(start.len() as int) =~= start);
    }
}

proof fn lemma_keyed_node_id(nodes: Seq<ConceptNodeView>, k: Seq<char>, id: ConceptNodeId)
    requires
        keyed_node(nodes, k, id),
    ensures
        key_id(nodes, k) == Some(id),
    decreases nodes.len(),
{
    let i = choose|i: int|
        0 <= i < nodes.len() && label_key(#[trigger] nodes[i].label) == k && nodes[i].id == id && forall|j: int|
            i < j < nodes.len() ==> label_key(#[trigger] nodes[j].label) != k;
    if i < nodes.len() - 1 {
        let front = nodes.drop_last();
        assert(label_key(nodes[nodes.len() - 1].label) != k);
        assert(front[i] == nodes[i]);
        assert forall|j: int| i < j < front.len() implies label_key(#[trigger] front[j].label) != k by {
            assert(front[j] == nodes[j]);
        }
        lemma_keyed_node_id(front, k, id);
    }
}

proof fn lemma_key_id_none(nodes: Seq<ConceptNodeView>, k: Seq<char>)
    requires
        forall|j: int| 0 <= j < nodes.len() ==> label_key(#[trigger] nodes[j].label) != k,
    ensures
        key_id(nodes, k) is None,
    decreases nodes.len(),
{
    if nodes.len() > 0 {
        let front = nodes.drop_last();
        assert(label_key(nodes[nodes.len() - 1].label) != k);
        assert forall|j: int| 0 <= j < front.len() implies label_key(#[trigger] front[j].label) != k by {
            assert(front[j] == nodes[j]);
        }
        lemma_key_id_none(front, k);
    }
}

/// An edge from `from` with endpoints and type `x` is among `listed`, the
/// edges of `stored` touching `from`, exactly when it is among `stored`.
proof fn lemma_listed_iff_stored(
    stored: Seq<ConceptEdge>,
    listed: Seq<ConceptEdge>,
    from: ConceptNodeId,
    x: (ConceptNodeId, ConceptNodeId, RelationType),
)
    requires
        listed == stored.filter(edge_touches(from)),
        x.0 == from,
    ensures
        (exists|q: int| 0 <= q < listed.len() && #[trigger] edge_triple(listed[q]) == x) <==> edge_triples(
            stored,
        ).contains(x),
{
    broadcast use vstd::seq_lib::group_filter_ensures;
    if exists|q: int| 0 <= q < listed.len() && #[trigger] edge_triple(listed[q]) == x {
        let q = choose|q: int| 0 <= q < listed.len() && #[trigger] edge_triple(listed[q]) == x;
        assert(listed.contains(listed[q]));
        stored.lemma_filter_contains_rev(edge_touches(from), listed[q]);
        let i = choose|i: int| 0 <= i < stored.len() && stored[i] == listed[q];
        assert(edge_triples(stored)[i] == x);
    }
    if edge_triples(stored).contains(x) {
        let i = choose|i: int| 0 <= i < edge_triples(stored).len() && edge_triples(stored)[i] == x;
        assert(edge_triple(stored[i]) == x);
        assert(edge_touches(from)(stored[i]));
        stored.lemma_filter_contains(edge_touches(from), i);
        let q = choose|q: int| 0 <= q < listed.len() && listed[q] == stored[i];
        assert(edge_triple(listed[q]) == x);
    }
}

/// `after` is `before` followed by edges, each standing for one of `rels`
/// among `nodes`.
pub open spec fn edges_from_relations(
    before: Seq<ConceptEdge>,
    after: Seq<ConceptEdge>,
    nodes: Seq<ConceptNodeView>,
    rels: Seq<ExtractedRelationView>,
) -> bool {
    &&& after.len() >= before.len()
    &&& forall|i: int| 0 <= i < before.len() ==> #[trigger] after[i] == before[i]
    &&& forall|i: int| before.len() <= i < after.len() ==> #[trigger] stands_for_relation(nodes, rels, after[i])
}

/// `e` stands for one of `rels` among `nodes`.
pub open spec fn stands_for_relation(nodes: Seq<ConceptNodeView>, rels: Seq<ExtractedRelationView>, e: ConceptEdge) -> bool {
    exists|j: int| 0 <= j < rels.len() && #[trigger] relation_edge(nodes, rels[j], e)
}

/// Appending an edge that stands for one of `rels` keeps `after` made of
/// `before` and such edges.
proof fn lemma_edge_appended(
    before: Seq<ConceptEdge>,
    mid: Seq<ConceptEdge>,
    after: Seq<ConceptEdge>,
    nodes: Seq<ConceptNodeView>,
    rels: Seq<ExtractedRelationView>,
    k: int,
)
    requires
        edges_from_relations(before, mid, nodes, rels),
        after.len() == mid.len() + 1,
        forall|i: int| 0 <= i < mid.len() ==> after[i] == mid[i],
        0 <= k < rels.len(),
        relation_edge(nodes, rels[k], after[mid.len() as int]),
    ensures
        edges_from_relations(before, after, nodes, rels),
{
    assert forall|i: int| 0 <= i < before.len() implies #[trigger] after[i] == before[i] by {
        assert(after[i] == mid[i]);
    }
    assert forall|i: int| before.len() <= i < after.len() implies #[trigger] stands_for_relation(nodes, rels, after[i]) by {
        if i < mid.len() {
            assert(after[i] == mid[i]);
            assert(stands_for_relation(nodes, rels, mid[i]));
        } else {
            assert(relation_edge(nodes, rels[k], after[i]));
        }
    }
}

/// The number of concepts with a non-blank name.
pub open spec fn named_count(cs: Seq<ExtractedConceptView>) -> nat
    decreases cs.len(),
{
    if cs.len() == 0 {
        0
    } else {
        named_count(cs.drop_last()) + if is_blank(cs.last().name) {
            0nat
        } else {
            1nat
        }
    }
}

/// The keys of existing nodes' labels.
pub open spec fn node_keys(nodes: Seq<ConceptNodeView>) -> Seq<Seq<char>> {
    nodes.map_values(|n: ConceptNodeView| label_key(n.label))
}

pub open spec fn no_duplicates(s: Seq<Seq<char>>) -> bool {
    forall|i: int, j: int| 0 <= i < j < s.len() ==> s[i] != s[j]
}

proof fn lemma_named_count_bounded(cs: Seq<ExtractedConceptView>)
    ensures
        named_count(cs) <= cs.len(),
    decreases cs.len(),
{
    if cs.len() > 0 {
        lemma_named_count_bounded(cs.drop_last());
    }
}

proof fn lemma_keys_after_grows(known: Seq<Seq<char>>, cs: Seq<ExtractedConceptView>)
    ensures
        known.len() <= keys_after(known, cs).len() <= known.len() + named_count(cs),
        keys_after(known, cs).take(known.len() as int) == known,
    decreases cs.len(),
{
    if cs.len() > 0 {
        lemma_keys_after_grows(known, cs.drop_last());
        let k = keys_after(known, cs.drop_last());
        assert(k.push(concept_key(cs.last().name)).take(known.len() as int) =~= k.take(known.len() as int));
    }
}

/// Merging never duplicates a concept: when the known keys are distinct,
/// so are the keys after merging, every known key is kept, and a concept
/// is created only for a key that was not known.
pub proof fn law_merge_never_duplicates(known: Seq<Seq<char>>, cs: Seq<ExtractedConceptView>)
    requires
        no_duplicates(known),
    ensures
        no_duplicates(keys_after(known, cs)),
        keys_after(known, cs).take(known.len() as int) == known,
        keys_after(known, cs).len() - known.len() <= named_count(cs),
    decreases cs.len(),
{
    lemma_keys_after_grows(known, cs);
    if cs.len() > 0 {
        law_merge_never_duplicates(known, cs.drop_last());
        let k = keys_after(known, cs.drop_last());
        let c = cs.last();
        if !(is_blank(c.name) || k.contains(concept_key(c.name))) {
            let t = k.push(concept_key(c.name));
            assert forall|i: int, j: int| 0 <= i < j < t.len() implies t[i] != t[j] by {
                if j == t.len() - 1 {
                    assert(k[i] == t[i]);
                    assert(k.contains(k[i]));
                }
            }
        }
    }
}

/// No entry of `known` has key `k`.
pub open spec fn key_position_none(known: Seq<(String, ConceptNodeId)>, k: Seq<char>) -> bool {
    forall|j: int| 0 <= j < known.len() ==> known[j].0@ != k
}

fn key_position(known: &Vec<(String, ConceptNodeId)>, key: &String) -> (r: Option<usize>)
    ensures
        match r {
            Some(i) => i < known@.len() && known@[i as int].0@ == key@ && forall|j: int|
                i < j < known@.len() ==> known@[j].0@ != key@,
            None => forall|j: int| 0 <= j < known@.len() ==> known@[j].0@ != key@,
        },
{
    let mut i: usize = known.len();
    while i > 0
        invariant
            i <= known.len(),
            forall|j: int| i <= j < known@.len() ==> known@[j].0@ != key@,
        decreases i,
    {
        if str_eq(known[i - 1].0.as_str(), key.as_str()) {
            return Some(i - 1);
        }
        i = i - 1;
    }
    None
}

pub open spec fn known_keys(known: Seq<(String, ConceptNodeId)>) -> Seq<Seq<char>> {
    known.map_values(|p: (String, ConceptNodeId)| p.0@)
}

/// The trimmed description, or none when it is blank.
pub open spec fn clean_description(d: Option<Seq<char>>) -> Option<Seq<char>> {
    match d {
        Some(x) => if trim(x).len() == 0 {
            None
        } else {
            Some(trim(x))
        },
        None => None,
    }
}

fn clean_description_of(d: &Option<String>) -> (r: Option<String>)
    ensures
        opt_string_view(r) == clean_description(opt_string_view(*d)),
{
    match d {
        Some(x) => {
            let t = trim_str(x.as_str());
            if t.as_str().is_empty() {
                None
            } else {
                Some(t)
            }
        },
        None => None,
    }
}

/// `o` is what merging `parsed` into a workspace whose nodes were
/// `existing` reports: one node created per new key, the other named
/// concepts reused, and no more edges than relations.
pub open spec fn merge_outcome(o: ExtractionOutcome, existing: Seq<ConceptNodeView>, parsed: ExtractionResponseView) -> bool {
    &&& node_keys(existing).len() == existing.len()
    &&& o.nodes_created == keys_after(node_keys(existing), parsed.concepts).len() - existing.len()
    &&& o.nodes_created + o.nodes_reused == named_count(parsed.concepts)
    &&& o.edges_created <= parsed.relations.len()
}

/// `o` is what merging `parsed` reports for some listing of the
/// workspace's nodes that `repository` can answer.
pub open spec fn merged_from_listing<G: GraphRepository>(
    repository: G,
    workspace_id: WorkspaceId,
    o: ExtractionOutcome,
    parsed: ExtractionResponseView,
) -> bool {
    exists|existing: Seq<ConceptNodeView>|
        #[trigger] merge_outcome(o, existing, parsed) && repository.nodes_answer(workspace_id, existing)
}

/// Merges model-extracted concepts and relations into a workspace's graph.
pub struct GraphEngine<G: GraphRepository, M: ConceptExtractionModel> {
    repository: G,
    model: Option<M>,
}

impl<G: GraphRepository, M: ConceptExtractionModel> GraphEngine<G, M> {
    pub closed spec fn repo(&self) -> G {
        self.repository
    }

    pub closed spec fn has_model(&self) -> bool {
        self.model is Some
    }

    /// The extraction model, when one is attached.
    pub closed spec fn extractor(&self) -> M {
        self.model->0
    }

    pub open spec fn wf(&self) -> bool {
        self.repo().inv()
    }

    /// An engine over `repository` with no extraction model attached.
    pub fn new(repository: G) -> (r: Self)
        ensures
            r.repo() == repository,
            !r.has_model(),
    {
        GraphEngine { repository, model: None }
    }

    /// Attaches the extraction model.
    pub fn with_model(self, model: M) -> (r: Self)
        ensures
            r.repo() == self.repo(),
            r.has_model(),
    {
        GraphEngine { repository: self.repository, model: Some(model) }
    }

    pub fn repository(&self) -> (r: &G)
        ensures
            *r == self.repo(),
    {
        &self.repository
    }

    /// Extracts concepts and relations from one document's chunks and
    /// merges them into the workspace's graph. Without a model this is a
    /// model error; without chunks nothing is asked and nothing changes.
    /// A reply that cannot be read is asked for once more.
    pub fn extract_for_document(&mut self, workspace_id: WorkspaceId, document_label: &str, chunk_texts: &Vec<String>) -> (r: Result<
        ExtractionOutcome,
        AppError,
    >)
        requires
            old(self).wf(),
            chunk_texts.len() < u64::MAX,
        ensures
            final(self).wf(),
            !old(self).has_model() ==> (r matches Err(e) && e.code == ErrorCode::EngineError
                && e.category == ErrorCategory::ModelError && final(self).repo() == old(self).repo()),
            old(self).has_model() && chunk_texts.len() == 0 ==> (r == Ok::<ExtractionOutcome, AppError>(
                ExtractionOutcome { nodes_created: 0, nodes_reused: 0, edges_created: 0 },
            ) && final(self).repo() == old(self).repo()),
            r matches Ok(o) ==> (chunk_texts.len() > 0 ==> exists|parsed: ExtractionResponseView|
                #[trigger] merged_from_listing(old(self).repo(), workspace_id, o, parsed) && extraction_replied(
                    old(self).extractor(),
                    extraction_prompt(document_label@, string_views(chunk_texts@)),
                    parsed,
                )),
            final(self).repo() != old(self).repo() ==> old(self).has_model() && chunk_texts.len() > 0 && exists|
                parsed: ExtractionResponseView,
            |
                #[trigger] extraction_replied(
                    old(self).extractor(),
                    extraction_prompt(document_label@, string_views(chunk_texts@)),
                    parsed,
                ),
            old(self).has_model() && chunk_texts.len() > 0 ==> extraction_run(
                old(self).extractor(),
                extraction_prompt(document_label@, string_views(chunk_texts@)),
                old(self).repo(),
                final(self).repo(),
                workspace_id,
                r,
            ),
            old(self).has_model() && chunk_texts.len() > 0 && (forall|parsed: ExtractionResponseView|
                !#[trigger] extraction_replied(
                    old(self).extractor(),
                    extraction_prompt(document_label@, string_views(chunk_texts@)),
                    parsed,
                )) ==> r is Err && final(self).repo() == old(self).repo(),
    {
        let model = match &self.model {
            Some(m) => m,
            None => {
                return Err(
                    AppError::model(
                        "GraphEngine::extract_for_document called without an extraction model attached".to_owned(),
                    ),
                );
            },
        };
        if chunk_texts.len() == 0 {
            return Ok(ExtractionOutcome { nodes_created: 0, nodes_reused: 0, edges_created: 0 });
        }
        let prompt = build_extraction_prompt(document_label, chunk_texts);
        let first = model.extract(prompt.as_str());
        let ghost a1 = reply_view(first);
        assert(model_gives(*model, prompt@, a1));
        let raw = match first {
            Ok(t) => t,
            Err(e) => {
                return Err(e);
            },
        };
        let parsed = match next_extraction_step(prompt.as_str(), raw.as_str(), false) {
            ExtractionStep::Merge(p) => {
                assert(extraction_replied(*model, prompt@, p@));
                p
            },
            ExtractionStep::Retry(retry_prompt) => {
                let second = model.extract(retry_prompt.as_str());
                let ghost a2 = reply_view(second);
                assert(model_gives(*model, retry_prompt@, a2));
                let retry_raw = match second {
                    Ok(t) => t,
                    Err(e) => {
                        return Err(e);
                    },
                };
                match next_extraction_step(retry_prompt.as_str(), retry_raw.as_str(), true) {
                    ExtractionStep::Merge(p) => {
                        let ghost m = extraction_parse(raw@)->Err_0;
                        assert(model.replies(retry_prompt_text(prompt@, m), retry_raw@));
                        assert(extraction_replied(*model, prompt@, p@));
                        p
                    },
                    ExtractionStep::Retry(_) => {
                        return Err(AppError::model("concept extraction retried more than once".to_owned()));
                    },
                    ExtractionStep::GiveUp(e) => {
                        return Err(e);
                    },
                }
            },
            ExtractionStep::GiveUp(e) => {
                return Err(e);
            },
        };
        assert(extraction_replied(self.extractor(), extraction_prompt(document_label@, string_views(chunk_texts@)), parsed@));
        self.merge_extraction(workspace_id, parsed)
    }

    /// Merges one extraction into the workspace's graph: each named concept
    /// whose key (trimmed, lower-cased label) is not yet known becomes a
    /// node, the others count as reused; each relation between two known,
    /// distinct keys becomes an edge unless the same edge already exists.
    pub fn merge_extraction(&mut self, workspace_id: WorkspaceId, parsed: ExtractionResponse) -> (r: Result<
        ExtractionOutcome,
        AppError,
    >)
        requires
            old(self).wf(),
        ensures
            final(self).wf(),
            r matches Ok(o) ==> merged_from_listing(old(self).repo(), workspace_id, o, parsed@),
            old(self).repo().reliable() && old(self).repo().node_room() >= parsed.concepts.len()
                && old(self).repo().edge_room() >= parsed.relations.len() ==> r is Ok,
            old(self).repo().reliable() && r is Ok ==> nodes_added(
                old(self).repo().stored_nodes(),
                final(self).repo().stored_nodes(),
                workspace_id,
                added_concepts(
                    node_keys(old(self).repo().stored_nodes().filter(node_in_workspace(workspace_id))),
                    parsed@.concepts,
                ),
            ) && edges_from_relations(
                old(self).repo().stored_edges(),
                final(self).repo().stored_edges(),
                old(self).repo().stored_nodes().filter(node_in_workspace(workspace_id)) + final(self).repo().stored_nodes().skip(
                    old(self).repo().stored_nodes().len() as int,
                ),
                parsed@.relations,
            ),
            old(self).repo().reliable() && r is Ok ==> edge_triples(final(self).repo().stored_edges()) == triples_after(
                edge_triples(old(self).repo().stored_edges()),
                old(self).repo().stored_nodes().filter(node_in_workspace(workspace_id)) + final(self).repo().stored_nodes().skip(
                    old(self).repo().stored_nodes().len() as int,
                ),
                parsed@.relations,
            ) && r->Ok_0.edges_created == final(self).repo().stored_edges().len() - old(self).repo().stored_edges().len(),
    {
        let ghost owed = old(self).repo().reliable() && old(self).repo().node_room() >= parsed.concepts.len()
            && old(self).repo().edge_room() >= parsed.relations.len();
        let existing = self.repository.list_nodes_for_workspace(workspace_id)?;
        let ghost ex = views(existing@);
        let mut known: Vec<(String, ConceptNodeId)> = Vec::new();
        let mut i: usize = 0;
        while i < existing.len()
            invariant
                i <= existing.len(),
                ex == views(existing@),
                known_keys(known@) == node_keys(ex.take(i as int)),
                old(self).repo().nodes_answer(workspace_id, ex),
                known@.len() == i,
                forall|q: int| 0 <= q < i ==> #[trigger] known@[q].1 == ex[q].id,
            decreases existing.len() - i,
        {
            let key = normalize_label(existing[i].label.as_str());
            let ghost before = known@;
            known.push((key, existing[i].id));
            proof {
                assert(known_keys(known@) =~= known_keys(before).push(label_key(ex[i as int].label)));
                assert(node_keys(ex.take(i + 1)) =~= node_keys(ex.take(i as int)).push(label_key(ex[i as int].label)));
            }
            i = i + 1;
        }
        assert(ex.take(existing.len() as int) =~= ex);
        let ghost base = node_keys(ex);
        let ghost mut fresh: Seq<ConceptNodeView> = Seq::empty();
        let ghost mut cur: Seq<ConceptNodeView> = ex;
        proof {
            assert forall|q: int|
                #![trigger known@[q]]
                0 <= q < known@.len() implies known@[q].0@ == label_key(cur[q].label) && known@[q].1 == cur[q].id by {
                assert(known_keys(known@)[q] == node_keys(ex)[q]);
            }
            assert(self.repo().stored_nodes() =~= old(self).repo().stored_nodes() + fresh);
        }
        let mut created: usize = 0;
        let mut reused: usize = 0;
        let mut c: usize = 0;
        let ghost cs = parsed@.concepts;
        assert(cs.take(0) =~= Seq::<ExtractedConceptView>::empty());
        while c < parsed.concepts.len()
            invariant
                c <= parsed.concepts.len(),
                cs == parsed@.concepts,
                base.len() == ex.len(),
                known_keys(known@) == keys_after(base, cs.take(c as int)),
                created == keys_after(base, cs.take(c as int)).len() - base.len(),
                created + reused == named_count(cs.take(c as int)),
                self.repo().inv(),
                old(self).repo().nodes_answer(workspace_id, ex),
                owed ==> self.repo().reliable() && self.repo().node_room() >= parsed.concepts.len() - c
                    && self.repo().edge_room() >= parsed.relations.len(),
                owed == (old(self).repo().reliable() && old(self).repo().node_room() >= parsed.concepts.len()
                    && old(self).repo().edge_room() >= parsed.relations.len()),
                old(self).repo().reliable() ==> self.repo().reliable() && ex == old(self).repo().stored_nodes().filter(
                    node_in_workspace(workspace_id),
                ) && nodes_added(
                    old(self).repo().stored_nodes(),
                    self.repo().stored_nodes(),
                    workspace_id,
                    added_concepts(base, cs.take(c as int)),
                ) && self.repo().stored_edges() == old(self).repo().stored_edges(),
                known@.len() == cur.len(),
                forall|q: int|
                    #![trigger known@[q]]
                    0 <= q < known@.len() ==> known@[q].0@ == label_key(cur[q].label) && known@[q].1 == cur[q].id,
                cur == ex + fresh,
                old(self).repo().reliable() ==> self.repo().stored_nodes() == old(self).repo().stored_nodes() + fresh,
            decreases parsed.concepts.len() - c,
        {
            proof {
                lemma_keys_after_grows(base, cs.take(c as int));
                lemma_named_count_bounded(cs.take(c as int));
                assert(cs.take(c + 1).drop_last() =~= cs.take(c as int));
                assert(cs.take(c + 1).last() == parsed.concepts@[c as int]@);
            }
            let concept = &parsed.concepts[c];
            if !is_blank_str(concept.name.as_str()) {
                let trimmed = trim_str(concept.name.as_str());
                let key = normalize_label(trimmed.as_str());
                match key_position(&known, &key) {
                    Some(p) => {
                        proof {
                            assert(known_keys(known@)[p as int] == key@);
                            assert(keys_after(base, cs.take(c as int)).contains(key@));
                        }
                        reused = reused + 1;
                    },
                    None => {
                        proof {
                            if keys_after(base, cs.take(c as int)).contains(key@) {
                                let j = choose|j: int| 0 <= j < known_keys(known@).len() && known_keys(known@)[j] == key@;
                                assert(known@[j].0@ == key@);
                            }
                        }
                        let node = self.repository.insert_node(
                            ConceptNode {
                                id: ConceptNodeId(0),
                                workspace_id,
                                label: trimmed,
                                description: clean_description_of(&concept.description),
                                created_at: crate::time::now_iso8601(),
                            },
                        )?;
                        let ghost before = known@;
                        let ghost cur0 = cur;
                        known.push((key, node.id));
                        proof {
                            assert(known_keys(known@) =~= known_keys(before).push(concept_key(cs[c as int].name)));
                            fresh = fresh.push(node@);
                            cur = cur.push(node@);
                            assert(label_key(node@.label) == key@);
                            assert forall|q: int|
                                #![trigger known@[q]]
                                0 <= q < known@.len() implies known@[q].0@ == label_key(cur[q].label) && known@[q].1
                                    == cur[q].id by {
                                if q < before.len() {
                                    assert(known@[q] == before[q]);
                                    assert(cur[q] == cur0[q]);
                                }
                            }
                            assert(cur =~= ex + fresh);
                            if old(self).repo().reliable() {
                                assert(self.repo().stored_nodes() =~= old(self).repo().stored_nodes() + fresh);
                            }
                        }
                        created = created + 1;
                    },
                }
            }
            c = c + 1;
        }
        assert(cs.take(parsed.concepts.len() as int) =~= cs);
        let mut edges: usize = 0;
        let mut k: usize = 0;
        while k < parsed.relations.len()
            invariant
                k <= parsed.relations.len(),
                edges <= k,
                self.repo().inv(),
                old(self).repo().nodes_answer(workspace_id, ex),
                base == node_keys(ex),
                base.len() == ex.len(),
                created == keys_after(base, cs).len() - base.len(),
                created + reused == named_count(cs),
                cs == parsed@.concepts,
                owed ==> self.repo().reliable() && self.repo().edge_room() >= parsed.relations.len() - k,
                old(self).repo().reliable() ==> self.repo().reliable() && ex == old(self).repo().stored_nodes().filter(
                    node_in_workspace(workspace_id),
                ) && nodes_added(
                    old(self).repo().stored_nodes(),
                    self.repo().stored_nodes(),
                    workspace_id,
                    added_concepts(base, cs),
                ),
                owed == (old(self).repo().reliable() && old(self).repo().node_room() >= parsed.concepts.len()
                    && old(self).repo().edge_room() >= parsed.relations.len()),
                known@.len() == cur.len(),
                forall|q: int|
                    #![trigger known@[q]]
                    0 <= q < known@.len() ==> known@[q].0@ == label_key(cur[q].label) && known@[q].1 == cur[q].id,
                cur == ex + fresh,
                old(self).repo().reliable() ==> self.repo().stored_nodes() == old(self).repo().stored_nodes() + fresh,
                old(self).repo().reliable() ==> edges_from_relations(
                    old(self).repo().stored_edges(),
                    self.repo().stored_edges(),
                    cur,
                    parsed@.relations,
                ),
                old(self).repo().reliable() ==> edge_triples(self.repo().stored_edges()) == triples_after(
                    edge_triples(old(self).repo().stored_edges()),
                    cur,
                    parsed@.relations.take(k as int),
                ) && self.repo().stored_edges().len() == old(self).repo().stored_edges().len() + edges,
            decreases parsed.relations.len() - k,
        {
            let relation = &parsed.relations[k];
            let ghost rels = parsed@.relations;
            let ghost t0 = triples_after(edge_triples(old(self).repo().stored_edges()), cur, rels.take(k as int));
            proof {
                assert(rels.take(k + 1).drop_last() =~= rels.take(k as int));
                assert(rels.take(k + 1).last() == relation@);
            }
            let from_key = normalize_label(relation.from.as_str());
            let to_key = normalize_label(relation.to.as_str());
            if !str_eq(from_key.as_str(), to_key.as_str()) {
                match (key_position(&known, &from_key), key_position(&known, &to_key)) {
                    (Some(fp), Some(tp)) => {
                        let from_id = known[fp].1;
                        let to_id = known[tp].1;
                        let relation_type = relation_type_from_extracted(relation.relation_type.as_str());
                        let existing_edges = self.repository.list_edges_for_node(from_id)?;
                        let ghost wanted = (from_id, to_id, relation_type);
                        let mut present = false;
                        let mut e: usize = 0;
                        while e < existing_edges.len()
                            invariant
                                e <= existing_edges.len(),
                                wanted == (from_id, to_id, relation_type),
                                present <==> exists|q: int|
                                    0 <= q < e && #[trigger] edge_triple(existing_edges@[q]) == wanted,
                            decreases existing_edges.len() - e,
                        {
                            let x = existing_edges[e];
                            if x.from_node_id == from_id && x.to_node_id == to_id && x.relation_type == relation_type {
                                present = true;
                                assert(edge_triple(existing_edges@[e as int]) == wanted);
                            }
                            e = e + 1;
                        }
                        proof {
                            if old(self).repo().reliable() {
                                let stored = self.repo().stored_edges();
                                assert(views(stored) =~= stored);
                                assert(views(existing_edges@) =~= existing_edges@);
                                lemma_listed_iff_stored(stored, existing_edges@, from_id, wanted);
                            }
                        }
                        proof {
                            assert(keyed_node(cur, from_key@, from_id)) by {
                                assert(known@[fp as int].0@ == label_key(cur[fp as int].label));
                                assert forall|j: int| fp < j < cur.len() implies label_key(#[trigger] cur[j].label)
                                    != from_key@ by {
                                    assert(known@[j].0@ == label_key(cur[j].label));
                                }
                            }
                            assert(keyed_node(cur, to_key@, to_id)) by {
                                assert(known@[tp as int].0@ == label_key(cur[tp as int].label));
                                assert forall|j: int| tp < j < cur.len() implies label_key(#[trigger] cur[j].label)
                                    != to_key@ by {
                                    assert(known@[j].0@ == label_key(cur[j].label));
                                }
                            }
                            lemma_keyed_node_id(cur, from_key@, from_id);
                            lemma_keyed_node_id(cur, to_key@, to_id);
                            assert(relation_triple(cur, relation@) == Some(wanted));
                        }
                        if !present {
                            let ghost e0 = self.repo().stored_edges();
                            self.repository.insert_edge(
                                ConceptEdge { id: ConceptEdgeId(0), from_node_id: from_id, to_node_id: to_id, relation_type },
                            )?;
                            proof {
                                if old(self).repo().reliable() {
                                    let e1 = self.repo().stored_edges();
                                    assert(parsed@.relations.len() == parsed.relations.len());
                                    assert(relation_edge(cur, parsed@.relations[k as int], e1[e0.len() as int]));
                                    lemma_edge_appended(
                                        old(self).repo().stored_edges(),
                                        e0,
                                        e1,
                                        cur,
                                        parsed@.relations,
                                        k as int,
                                    );
                                }
                            }
                            proof {
                                if old(self).repo().reliable() {
                                    let e1 = self.repo().stored_edges();
                                    assert(edge_triple(e1[e0.len() as int]) == wanted);
                                    assert(edge_triples(e1) =~= edge_triples(e0).push(wanted));
                                }
                            }
                            edges = edges + 1;
                        }
                    },
                    _ => {
                        proof {
                            let fk = from_key@;
                            let tk = to_key@;
                            if key_position_none(known@, fk) {
                                assert forall|j: int| 0 <= j < cur.len() implies label_key(#[trigger] cur[j].label) != fk by {
                                    assert(known@[j].0@ == label_key(cur[j].label));
                                }
                                lemma_key_id_none(cur, fk);
                            } else {
                                assert forall|j: int| 0 <= j < cur.len() implies label_key(#[trigger] cur[j].label) != tk by {
                                    assert(known@[j].0@ == label_key(cur[j].label));
                                }
                                lemma_key_id_none(cur, tk);
                            }
                            assert(relation_triple(cur, relation@) is None);
                        }
                    },
                }
            }
            k = k + 1;
        }
        assert(node_keys(ex).len() == ex.len());
        proof {
            if old(self).repo().reliable() {
                assert(self.repo().stored_nodes().skip(old(self).repo().stored_nodes().len() as int) =~= fresh);
                assert(parsed@.relations.take(parsed.relations.len() as int) =~= parsed@.relations);
            }
        }
        let out = ExtractionOutcome { nodes_created: created, nodes_reused: reused, edges_created: edges };
        assert(merge_outcome(out, ex, parsed@) && old(self).repo().nodes_answer(workspace_id, ex));
        assert(merged_from_listing(old(self).repo(), workspace_id, out, parsed@));
        Ok(out)
    }
}

// ---------------------------------------------------------------------
// Reading a workspace's graph
// ---------------------------------------------------------------------

/// The sequences of `per`, one after another.
pub open spec fn concat_all(per: Seq<Seq<ConceptEdge>>) -> Seq<ConceptEdge>
    decreases per.len(),
{
    if per.len() == 0 {
        Seq::empty()
    } else {
        concat_all(per.drop_last()) + per.last()
    }
}

/// Every edge of every node of a workspace, node by node in the order the
/// nodes are listed; an edge between two of the workspace's nodes appears
/// once for each of them.
pub fn edges_for_workspace<G: GraphRepository>(repository: &G, workspace_id: WorkspaceId) -> (r: Result<
    Vec<ConceptEdge>,
    AppError,
>)
    requires
        repository.inv(),
    ensures
        r matches Ok(v) ==> exists|nodes: Seq<ConceptNodeView>, per: Seq<Seq<ConceptEdge>>|
            #![trigger repository.nodes_answer(workspace_id, nodes), concat_all(per)]
            repository.nodes_answer(workspace_id, nodes) && per.len() == nodes.len() && (forall|k: int|
                0 <= k < nodes.len() ==> repository.edges_answer(nodes[k].id, #[trigger] per[k])) && v@
                == concat_all(per),
        repository.reliable() ==> r is Ok,
{
    let ghost old_reliable = repository.reliable();
    let nodes = repository.list_nodes_for_workspace(workspace_id)?;
    let ghost nv = views(nodes@);
    let ghost mut per: Seq<Seq<ConceptEdge>> = Seq::empty();
    let mut edges: Vec<ConceptEdge> = Vec::new();
    let mut i: usize = 0;
    while i < nodes.len()
        invariant
            i <= nodes.len(),
            nv == views(nodes@),
            repository.inv(),
            repository.reliable() == old_reliable,
            per.len() == i,
            forall|k: int| 0 <= k < i ==> repository.edges_answer(nv[k].id, #[trigger] per[k]),
            edges@ == concat_all(per),
        decreases nodes.len() - i,
    {
        let mut found = repository.list_edges_for_node(nodes[i].id)?;
        let ghost fv = views(found@);
        assert(fv =~= found@);
        let ghost before = per;
        proof {
            per = per.push(found@);
            assert(per.drop_last() =~= before);
        }
        edges.append(&mut found);
        i = i + 1;
    }
    Ok(edges)
}

/// A concept with its edges; `None` when no concept has `node_id`.
pub fn concept_detail<G: GraphRepository>(repository: &G, node_id: ConceptNodeId) -> (r: Result<
    Option<ConceptDetail>,
    AppError,
>)
    requires
        repository.inv(),
    ensures
        r matches Ok(None) ==> repository.node_answer(node_id, None),
        r matches Ok(Some(d)) ==> repository.node_answer(node_id, Some(d.node@)) && repository.edges_answer(
            d.node.id,
            views(d.edges@),
        ),
        repository.reliable() ==> r is Ok,
{
    let node = match repository.find_node(node_id)? {
        Some(n) => n,
        None => {
            return Ok(None);
        },
    };
    let edges = repository.list_edges_for_node(node.id)?;
    Ok(Some(ConceptDetail { node, edges }))
}

/// A workspace's nodes and all their edges.
pub fn graph_full<G: GraphRepository>(repository: &G, workspace_id: WorkspaceId) -> (r: Result<
    GraphFullResponse,
    AppError,
>)
    requires
        repository.inv(),
    ensures
        r matches Ok(g) ==> repository.nodes_answer(workspace_id, views(g.nodes@)) && exists|
            nodes: Seq<ConceptNodeView>,
            per: Seq<Seq<ConceptEdge>>,
        |
            #![trigger repository.nodes_answer(workspace_id, nodes), concat_all(per)]
            repository.nodes_answer(workspace_id, nodes) && per.len() == nodes.len() && (forall|k: int|
                0 <= k < nodes.len() ==> repository.edges_answer(nodes[k].id, #[trigger] per[k])) && g.edges@
                == concat_all(per),
        repository.reliable() ==> r is Ok,
{
    let nodes = repository.list_nodes_for_workspace(workspace_id)?;
    let edges = edges_for_workspace(repository, workspace_id)?;
    Ok(GraphFullResponse { nodes, edges })
}

} // verus!

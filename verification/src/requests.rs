//! The shapes requests and answers take between the user interface and the
//! library, with the defaults the interface relies on.
use vstd::prelude::*;

use crate::chat::ChatMessage;
use crate::graph::{ConceptEdge, ConceptNode};

verus! {

/// How many questions a quiz has when the request does not say.
pub const DEFAULT_QUESTION_COUNT: u8 = 5;

/// How many cards a flashcard set has when the request does not say.
pub const DEFAULT_CARD_COUNT: u8 = 10;

/// A request for a quiz on `topic`, optionally tagged with the document it
/// was generated from.
#[derive(Debug)]
pub struct QuizRequest {
    pub workspace_id: i64,
    pub topic: String,
    pub document_id: Option<i64>,
    pub question_count: Option<u8>,
}

impl QuizRequest {
    /// The number of questions asked for, five when unspecified.
    pub fn requested_questions(&self) -> (r: u8)
        ensures
            r == match self.question_count {
                Some(n) => n,
                None => DEFAULT_QUESTION_COUNT,
            },
    {
        match self.question_count {
            Some(n) => n,
            None => DEFAULT_QUESTION_COUNT,
        }
    }
}

/// A request for a flashcard set on `topic`.
#[derive(Debug)]
pub struct FlashcardsRequest {
    pub workspace_id: i64,
    pub topic: String,
    pub document_id: Option<i64>,
    pub card_count: Option<u8>,
}

impl FlashcardsRequest {
    /// The number of cards asked for, ten when unspecified.
    pub fn requested_cards(&self) -> (r: u8)
        ensures
            r == match self.card_count {
                Some(n) => n,
                None => DEFAULT_CARD_COUNT,
            },
    {
        match self.card_count {
            Some(n) => n,
            None => DEFAULT_CARD_COUNT,
        }
    }
}

/// A request for a revision plan over a workspace's weak topics.
#[derive(Debug)]
pub struct RevisionPlanRequest {
    pub workspace_id: i64,
}

/// One answered quiz question: the topic it belongs to and whether the
/// answer was right.
#[derive(Debug)]
pub struct QuizAnswerSubmission {
    pub workspace_id: i64,
    pub topic: String,
    pub correct: bool,
}

/// A concept with its edges, for a detail panel.
#[derive(Debug)]
pub struct ConceptDetail {
    pub node: ConceptNode,
    pub edges: Vec<ConceptEdge>,
}

/// A workspace's whole concept graph.
#[derive(Debug)]
pub struct GraphFullResponse {
    pub nodes: Vec<ConceptNode>,
    pub edges: Vec<ConceptEdge>,
}

/// A concept-graph edge whose two concepts come, between them, from more
/// than one document.
#[derive(Debug)]
pub struct CitationGraphEdge {
    pub edge: ConceptEdge,
    pub from_label: String,
    pub to_label: String,
    pub source_document_ids: Vec<i64>,
}

/// What re-running the indexing pipeline on one file did.
#[derive(Debug, Clone, Copy, PartialEq, Eq, Structural)]
pub enum OcrReprocessResult {
    /// The file was unchanged since it was last indexed.
    Skipped,
    /// The file was indexed into `chunk_count` chunks.
    Indexed { chunk_count: usize },
}

/// Which research task a cross-workspace query performs.
#[derive(Debug, Clone, Copy, PartialEq, Eq, Structural)]
pub enum ResearchMode {
    LiteratureReview,
    PaperComparison,
}

/// One answered turn of the assistant: the conversation it belongs to, the
/// stored reply and the sources the reply cites. The citation type is left
/// to the retrieval layer that produced the context.
#[derive(Debug)]
pub struct AssistantAnswer<C> {
    pub session_id: i64,
    pub message: ChatMessage,
    pub citations: Vec<C>,
}

/// The assembled retrieval context for a query, with its citations.
#[derive(Debug)]
pub struct SearchResult<C> {
    pub content: String,
    pub citations: Vec<C>,
}

} // verus!

use vstd::prelude::*;

verus! {

/// Row identifier of a linked workspace.
#[derive(Clone, Copy, Debug, PartialEq, Eq, Hash, Structural)]
pub struct WorkspaceId(pub i64);

/// Row identifier of an indexed document.
#[derive(Clone, Copy, Debug, PartialEq, Eq, Hash, Structural)]
pub struct DocumentId(pub i64);

/// Row identifier of a text chunk.
#[derive(Clone, Copy, Debug, PartialEq, Eq, Hash, Structural)]
pub struct ChunkId(pub i64);

/// Row identifier of a background job.
#[derive(Clone, Copy, Debug, PartialEq, Eq, Hash, Structural)]
pub struct JobId(pub i64);

/// Row identifier of an annotation.
#[derive(Clone, Copy, Debug, PartialEq, Eq, Hash, Structural)]
pub struct AnnotationId(pub i64);

/// Row identifier of a bookmark.
#[derive(Clone, Copy, Debug, PartialEq, Eq, Hash, Structural)]
pub struct BookmarkId(pub i64);

/// Row identifier of a chat session.
#[derive(Clone, Copy, Debug, PartialEq, Eq, Hash, Structural)]
pub struct ChatSessionId(pub i64);

/// Row identifier of a chat message.
#[derive(Clone, Copy, Debug, PartialEq, Eq, Hash, Structural)]
pub struct ChatMessageId(pub i64);

/// Row identifier of a concept-graph node.
#[derive(Clone, Copy, Debug, PartialEq, Eq, Hash, Structural)]
pub struct ConceptNodeId(pub i64);

/// Row identifier of a concept-graph edge.
#[derive(Clone, Copy, Debug, PartialEq, Eq, Hash, Structural)]
pub struct ConceptEdgeId(pub i64);

/// Row identifier of a revision-history entry.
#[derive(Clone, Copy, Debug, PartialEq, Eq, Hash, Structural)]
pub struct RevisionHistoryId(pub i64);

/// Row identifier of a generated quiz.
#[derive(Clone, Copy, Debug, PartialEq, Eq, Hash, Structural)]
pub struct QuizId(pub i64);

/// Row identifier of a generated flashcard set.
#[derive(Clone, Copy, Debug, PartialEq, Eq, Hash, Structural)]
pub struct FlashcardSetId(pub i64);

/// Row identifier of a generated revision plan.
#[derive(Clone, Copy, Debug, PartialEq, Eq, Hash, Structural)]
pub struct RevisionPlanId(pub i64);

/// Row identifier of a model-registry entry.
#[derive(Clone, Copy, Debug, PartialEq, Eq, Hash, Structural)]
pub struct ModelRegistryId(pub i64);

} // verus!

//! Student Memory records: annotations, bookmarks, revision history and the
//! generated study artefacts (quizzes, flashcard sets, revision plans).
use vstd::prelude::*;

use crate::ids::{
    AnnotationId, BookmarkId, ConceptNodeId, DocumentId, FlashcardSetId, QuizId,
    RevisionHistoryId, RevisionPlanId, WorkspaceId,
};
use crate::records::{
    duplicate_all, duplicate_opt_string, duplicate_strings, opt_string_view, string_views, views,
    Record,
};

verus! {

#[derive(Debug, Clone)]
pub struct Annotation {
    pub id: AnnotationId,
    pub document_id: DocumentId,
    pub location_ref: String,
    pub content: String,
    pub created_at: String,
    pub updated_at: String,
}

pub ghost struct AnnotationView {
    pub id: AnnotationId,
    pub document_id: DocumentId,
    pub location_ref: Seq<char>,
    pub content: Seq<char>,
    pub created_at: Seq<char>,
    pub updated_at: Seq<char>,
}

impl View for Annotation {
    type V = AnnotationView;

    open spec fn view(&self) -> AnnotationView {
        AnnotationView {
            id: self.id,
            document_id: self.document_id,
            location_ref: self.location_ref@,
            content: self.content@,
            created_at: self.created_at@,
            updated_at: self.updated_at@,
        }
    }
}

impl Record for Annotation {
    fn duplicate(&self) -> (r: Self) {
        Annotation {
            id: self.id,
            document_id: self.document_id,
            location_ref: self.location_ref.clone(),
            content: self.content.clone(),
            created_at: self.created_at.clone(),
            updated_at: self.updated_at.clone(),
        }
    }
}

#[derive(Debug, Clone)]
pub struct Bookmark {
    pub id: BookmarkId,
    pub document_id: DocumentId,
    pub location_ref: String,
    pub label: String,
    pub created_at: String,
}

pub ghost struct BookmarkView {
    pub id: BookmarkId,
    pub document_id: DocumentId,
    pub location_ref: Seq<char>,
    pub label: Seq<char>,
    pub created_at: Seq<char>,
}

impl View for Bookmark {
    type V = BookmarkView;

    open spec fn view(&self) -> BookmarkView {
        BookmarkView {
            id: self.id,
            document_id: self.document_id,
            location_ref: self.location_ref@,
            label: self.label@,
            created_at: self.created_at@,
        }
    }
}

impl Record for Bookmark {
    fn duplicate(&self) -> (r: Self) {
        Bookmark {
            id: self.id,
            document_id: self.document_id,
            location_ref: self.location_ref.clone(),
            label: self.label.clone(),
            created_at: self.created_at.clone(),
        }
    }
}

/// Whether a scheduled revision was recalled.
#[derive(Debug, Clone, Copy, PartialEq, Eq, Structural)]
pub enum RevisionOutcome {
    Recalled,
    Forgotten,
}

/// One scheduled (and possibly completed) revision of a concept.
#[derive(Debug, Clone)]
pub struct RevisionHistoryEntry {
    pub id: RevisionHistoryId,
    pub concept_node_id: ConceptNodeId,
    pub scheduled_at: String,
    pub completed_at: Option<String>,
    pub outcome: Option<RevisionOutcome>,
}

pub ghost struct RevisionHistoryEntryView {
    pub id: RevisionHistoryId,
    pub concept_node_id: ConceptNodeId,
    pub scheduled_at: Seq<char>,
    pub completed_at: Option<Seq<char>>,
    pub outcome: Option<RevisionOutcome>,
}

impl View for RevisionHistoryEntry {
    type V = RevisionHistoryEntryView;

    open spec fn view(&self) -> RevisionHistoryEntryView {
        RevisionHistoryEntryView {
            id: self.id,
            concept_node_id: self.concept_node_id,
            scheduled_at: self.scheduled_at@,
            completed_at: opt_string_view(self.completed_at),
            outcome: self.outcome,
        }
    }
}

impl Record for RevisionHistoryEntry {
    fn duplicate(&self) -> (r: Self) {
        RevisionHistoryEntry {
            id: self.id,
            concept_node_id: self.concept_node_id,
            scheduled_at: self.scheduled_at.clone(),
            completed_at: duplicate_opt_string(&self.completed_at),
            outcome: self.outcome,
        }
    }
}

/// One generated multiple-choice question; `correct_answer` is one of
/// `options` once validated.
#[derive(Debug, Clone, PartialEq)]
pub struct QuizQuestion {
    pub question: String,
    pub options: Vec<String>,
    pub correct_answer: String,
    pub source_citations: Vec<String>,
}

pub ghost struct QuizQuestionView {
    pub question: Seq<char>,
    pub options: Seq<Seq<char>>,
    pub correct_answer: Seq<char>,
    pub source_citations: Seq<Seq<char>>,
}

impl View for QuizQuestion {
    type V = QuizQuestionView;

    open spec fn view(&self) -> QuizQuestionView {
        QuizQuestionView {
            question: self.question@,
            options: string_views(self.options@),
            correct_answer: self.correct_answer@,
            source_citations: string_views(self.source_citations@),
        }
    }
}

impl Record for QuizQuestion {
    fn duplicate(&self) -> (r: Self) {
        QuizQuestion {
            question: self.question.clone(),
            options: duplicate_strings(&self.options),
            correct_answer: self.correct_answer.clone(),
            source_citations: duplicate_strings(&self.source_citations),
        }
    }
}

/// A persisted quiz, tagged by workspace, optional document and topic.
#[derive(Debug, Clone)]
pub struct Quiz {
    pub id: QuizId,
    pub workspace_id: WorkspaceId,
    pub document_id: Option<DocumentId>,
    pub topic: String,
    pub questions: Vec<QuizQuestion>,
    pub created_at: String,
}

pub ghost struct QuizView {
    pub id: QuizId,
    pub workspace_id: WorkspaceId,
    pub document_id: Option<DocumentId>,
    pub topic: Seq<char>,
    pub questions: Seq<QuizQuestionView>,
    pub created_at: Seq<char>,
}

impl View for Quiz {
    type V = QuizView;

    open spec fn view(&self) -> QuizView {
        QuizView {
            id: self.id,
            workspace_id: self.workspace_id,
            document_id: self.document_id,
            topic: self.topic@,
            questions: views(self.questions@),
            created_at: self.created_at@,
        }
    }
}

impl Record for Quiz {
    fn duplicate(&self) -> (r: Self) {
        Quiz {
            id: self.id,
            workspace_id: self.workspace_id,
            document_id: self.document_id,
            topic: self.topic.clone(),
            questions: duplicate_all(&self.questions),
            created_at: self.created_at.clone(),
        }
    }
}

/// One generated flashcard.
#[derive(Debug, Clone, PartialEq)]
pub struct Flashcard {
    pub front: String,
    pub back: String,
    pub source_citations: Vec<String>,
}

pub ghost struct FlashcardView {
    pub front: Seq<char>,
    pub back: Seq<char>,
    pub source_citations: Seq<Seq<char>>,
}

impl View for Flashcard {
    type V = FlashcardView;

    open spec fn view(&self) -> FlashcardView {
        FlashcardView {
            front: self.front@,
            back: self.back@,
            source_citations: string_views(self.source_citations@),
        }
    }
}

impl Record for Flashcard {
    fn duplicate(&self) -> (r: Self) {
        Flashcard {
            front: self.front.clone(),
            back: self.back.clone(),
            source_citations: duplicate_strings(&self.source_citations),
        }
    }
}

/// A persisted set of flashcards, tagged like [`Quiz`].
#[derive(Debug, Clone)]
pub struct FlashcardSet {
    pub id: FlashcardSetId,
    pub workspace_id: WorkspaceId,
    pub document_id: Option<DocumentId>,
    pub topic: String,
    pub cards: Vec<Flashcard>,
    pub created_at: String,
}

pub ghost struct FlashcardSetView {
    pub id: FlashcardSetId,
    pub workspace_id: WorkspaceId,
    pub document_id: Option<DocumentId>,
    pub topic: Seq<char>,
    pub cards: Seq<FlashcardView>,
    pub created_at: Seq<char>,
}

impl View for FlashcardSet {
    type V = FlashcardSetView;

    open spec fn view(&self) -> FlashcardSetView {
        FlashcardSetView {
            id: self.id,
            workspace_id: self.workspace_id,
            document_id: self.document_id,
            topic: self.topic@,
            cards: views(self.cards@),
            created_at: self.created_at@,
        }
    }
}

impl Record for FlashcardSet {
    fn duplicate(&self) -> (r: Self) {
        FlashcardSet {
            id: self.id,
            workspace_id: self.workspace_id,
            document_id: self.document_id,
            topic: self.topic.clone(),
            cards: duplicate_all(&self.cards),
            created_at: self.created_at.clone(),
        }
    }
}

/// The correctness counts recorded for one topic of one workspace. Its
/// accuracy is `correct_count / (correct_count + incorrect_count)`.
#[derive(Debug, Clone)]
pub struct WeakTopic {
    pub topic: String,
    pub correct_count: u32,
    pub incorrect_count: u32,
}

pub ghost struct WeakTopicView {
    pub topic: Seq<char>,
    pub correct_count: u32,
    pub incorrect_count: u32,
}

impl View for WeakTopic {
    type V = WeakTopicView;

    open spec fn view(&self) -> WeakTopicView {
        WeakTopicView {
            topic: self.topic@,
            correct_count: self.correct_count,
            incorrect_count: self.incorrect_count,
        }
    }
}

impl Record for WeakTopic {
    fn duplicate(&self) -> (r: Self) {
        WeakTopic {
            topic: self.topic.clone(),
            correct_count: self.correct_count,
            incorrect_count: self.incorrect_count,
        }
    }
}

/// One recommendation of a revision plan; priority 1 is the most urgent.
#[derive(Debug, Clone, PartialEq)]
pub struct RevisionPlanItem {
    pub topic: String,
    pub recommendation: String,
    pub priority: u32,
}

pub ghost struct RevisionPlanItemView {
    pub topic: Seq<char>,
    pub recommendation: Seq<char>,
    pub priority: u32,
}

impl View for RevisionPlanItem {
    type V = RevisionPlanItemView;

    open spec fn view(&self) -> RevisionPlanItemView {
        RevisionPlanItemView {
            topic: self.topic@,
            recommendation: self.recommendation@,
            priority: self.priority,
        }
    }
}

impl Record for RevisionPlanItem {
    fn duplicate(&self) -> (r: Self) {
        RevisionPlanItem {
            topic: self.topic.clone(),
            recommendation: self.recommendation.clone(),
            priority: self.priority,
        }
    }
}

/// A persisted revision plan.
#[derive(Debug, Clone)]
pub struct RevisionPlan {
    pub id: RevisionPlanId,
    pub workspace_id: WorkspaceId,
    pub items: Vec<RevisionPlanItem>,
    pub created_at: String,
}

pub ghost struct RevisionPlanView {
    pub id: RevisionPlanId,
    pub workspace_id: WorkspaceId,
    pub items: Seq<RevisionPlanItemView>,
    pub created_at: Seq<char>,
}

impl View for RevisionPlan {
    type V = RevisionPlanView;

    open spec fn view(&self) -> RevisionPlanView {
        RevisionPlanView {
            id: self.id,
            workspace_id: self.workspace_id,
            items: views(self.items@),
            created_at: self.created_at@,
        }
    }
}

impl Record for RevisionPlan {
    fn duplicate(&self) -> (r: Self) {
        RevisionPlan {
            id: self.id,
            workspace_id: self.workspace_id,
            items: duplicate_all(&self.items),
            created_at: self.created_at.clone(),
        }
    }
}

} // verus!

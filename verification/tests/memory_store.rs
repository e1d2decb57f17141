use atlas_core::chat::{ChatMode, ChatSession};
use atlas_core::ids::{
    AnnotationId, BookmarkId, ChatSessionId, DocumentId, FlashcardSetId, QuizId, RevisionPlanId,
    WorkspaceId,
};
use atlas_core::memory::{Annotation, Bookmark, FlashcardSet, Quiz, RevisionPlan};
use atlas_core::memory_store::{
    InMemoryAnnotationRepository, InMemoryBookmarkRepository, InMemoryChatRepository,
};
use atlas_core::study_store::{InMemoryAnalyticsRepository, InMemoryStudyRepository};

#[test]
fn annotation_repository_insert_then_list() {
    let mut repo = InMemoryAnnotationRepository::new();
    repo.insert(Annotation {
        id: AnnotationId(1),
        document_id: DocumentId(1),
        location_ref: "p1".to_string(),
        content: "note".to_string(),
        created_at: "1970-01-01T00:00:00Z".to_string(),
        updated_at: "1970-01-01T00:00:00Z".to_string(),
    })
    .unwrap();
    assert_eq!(repo.list_for_document(DocumentId(1)).unwrap().len(), 1);
}

#[test]
fn bookmark_repository_delete_removes_entry() {
    let mut repo = InMemoryBookmarkRepository::new();
    repo.insert(Bookmark {
        id: BookmarkId(1),
        document_id: DocumentId(1),
        location_ref: "p1".to_string(),
        label: "start".to_string(),
        created_at: "1970-01-01T00:00:00Z".to_string(),
    })
    .unwrap();
    repo.delete(BookmarkId(1)).unwrap();
    assert!(repo.list_for_document(DocumentId(1)).unwrap().is_empty());
}

#[test]
fn chat_repository_sessions_and_messages_round_trip() {
    let mut repo = InMemoryChatRepository::new();
    repo.create_session(ChatSession {
        id: ChatSessionId(1),
        workspace_id: WorkspaceId(1),
        document_id: None,
        title: "Session".to_string(),
        mode: ChatMode::Normal,
        created_at: "1970-01-01T00:00:00Z".to_string(),
        updated_at: "1970-01-01T00:00:00Z".to_string(),
    })
    .unwrap();
    assert_eq!(repo.list_sessions_for_workspace(WorkspaceId(1)).unwrap().len(), 1);
}

#[test]
fn weak_topic_aggregate_accumulates_across_recorded_answers() {
    let mut repo = InMemoryAnalyticsRepository::new();
    repo.record_quiz_answer(WorkspaceId(1), "Thermodynamics", false).unwrap();
    repo.record_quiz_answer(WorkspaceId(1), "Thermodynamics", false).unwrap();
    repo.record_quiz_answer(WorkspaceId(1), "Thermodynamics", true).unwrap();
    repo.record_quiz_answer(WorkspaceId(1), "Optics", true).unwrap();

    let weak = repo.list_weak_topics(WorkspaceId(1)).unwrap();
    assert_eq!(weak.len(), 2);
    assert_eq!(weak[0].topic, "Thermodynamics");
    assert_eq!(weak[0].correct_count, 1);
    assert_eq!(weak[0].incorrect_count, 2);
    let accuracy = weak[0].correct_count as f64 / (weak[0].correct_count + weak[0].incorrect_count) as f64;
    assert!((accuracy - (1.0 / 3.0)).abs() < 1e-6);
    assert_eq!(weak[1].topic, "Optics");
}

#[test]
fn weak_topics_are_scoped_per_workspace() {
    let mut repo = InMemoryAnalyticsRepository::new();
    repo.record_quiz_answer(WorkspaceId(1), "Topic A", false).unwrap();
    repo.record_quiz_answer(WorkspaceId(2), "Topic A", true).unwrap();
    assert_eq!(repo.list_weak_topics(WorkspaceId(1)).unwrap()[0].correct_count, 0);
    assert_eq!(repo.list_weak_topics(WorkspaceId(2)).unwrap()[0].correct_count, 1);
}

#[test]
fn study_repository_quiz_round_trips_and_assigns_an_id() {
    let mut repo = InMemoryStudyRepository::new();
    let quiz = repo
        .insert_quiz(Quiz {
            id: QuizId(0),
            workspace_id: WorkspaceId(1),
            document_id: None,
            topic: "Photosynthesis".to_string(),
            questions: vec![],
            created_at: "1970-01-01T00:00:00Z".to_string(),
        })
        .unwrap();
    assert_ne!(quiz.id.0, 0);
    assert_eq!(repo.get_quiz(quiz.id).unwrap().unwrap().topic, "Photosynthesis");
    assert_eq!(repo.list_quizzes_for_workspace(WorkspaceId(1)).unwrap().len(), 1);
    assert!(repo.list_quizzes_for_workspace(WorkspaceId(2)).unwrap().is_empty());
}

#[test]
fn study_repository_flashcard_set_and_revision_plan_round_trip() {
    let mut repo = InMemoryStudyRepository::new();
    let set = repo
        .insert_flashcard_set(FlashcardSet {
            id: FlashcardSetId(0),
            workspace_id: WorkspaceId(1),
            document_id: None,
            topic: "Cell Biology".to_string(),
            cards: vec![],
            created_at: "1970-01-01T00:00:00Z".to_string(),
        })
        .unwrap();
    assert_ne!(set.id.0, 0);
    assert_eq!(repo.get_flashcard_set(set.id).unwrap().unwrap().topic, "Cell Biology");

    let plan = repo
        .insert_revision_plan(RevisionPlan {
            id: RevisionPlanId(0),
            workspace_id: WorkspaceId(1),
            items: vec![],
            created_at: "1970-01-01T00:00:00Z".to_string(),
        })
        .unwrap();
    assert_ne!(plan.id.0, 0);
    assert_eq!(repo.list_revision_plans_for_workspace(WorkspaceId(1)).unwrap().len(), 1);
}

#[test]
fn annotation_update_replaces_content_and_unknown_id_changes_nothing() {
    let mut repo = InMemoryAnnotationRepository::new();
    let a = Annotation {
        id: AnnotationId(7),
        document_id: DocumentId(2),
        location_ref: "p2".to_string(),
        content: "first".to_string(),
        created_at: "t".to_string(),
        updated_at: "t".to_string(),
    };
    repo.insert(a).unwrap();
    let updated = Annotation {
        id: AnnotationId(7),
        document_id: DocumentId(2),
        location_ref: "p2".to_string(),
        content: "second".to_string(),
        created_at: "t".to_string(),
        updated_at: "u".to_string(),
    };
    repo.update(updated).unwrap();
    let listed = repo.list_for_document(DocumentId(2)).unwrap();
    assert_eq!(listed.len(), 1);
    assert_eq!(listed[0].content, "second");
    let missing = Annotation {
        id: AnnotationId(99),
        document_id: DocumentId(2),
        location_ref: "p".to_string(),
        content: "x".to_string(),
        created_at: "t".to_string(),
        updated_at: "t".to_string(),
    };
    assert!(repo.update(missing).is_ok());
    assert_eq!(repo.list_for_document(DocumentId(2)).unwrap().len(), 1);
    assert_eq!(repo.list_for_document(DocumentId(2)).unwrap()[0].content, "second");
}

use atlas_core::chat::{ChatMessage, ChatMode, ChatRole, ChatSession};
use atlas_core::db::SqliteConnection;
use atlas_core::ids::{
    AnnotationId, BookmarkId, ChatMessageId, ChatSessionId, ConceptNodeId, DocumentId,
    FlashcardSetId, QuizId, RevisionHistoryId, RevisionPlanId, WorkspaceId,
};
use atlas_core::memory::{
    Annotation, Bookmark, Flashcard, FlashcardSet, Quiz, QuizQuestion, RevisionHistoryEntry,
    RevisionOutcome, RevisionPlan, RevisionPlanItem,
};
use atlas_core::memory_db::{
    SqliteAnalyticsRepository, SqliteAnnotationRepository, SqliteBookmarkRepository,
    SqliteChatRepository, SqliteLearningProgressRepository, SqliteStudyRepository,
};

fn conn() -> SqliteConnection {
    SqliteConnection::open(":memory:")
}

#[test]
fn annotation_insert_then_list_round_trips() {
    let repo = SqliteAnnotationRepository::new(conn());
    let annotation = repo
        .insert(Annotation {
            id: AnnotationId(0),
            document_id: DocumentId(1),
            location_ref: "page:3".to_string(),
            content: "important".to_string(),
            created_at: "t1".to_string(),
            updated_at: "t1".to_string(),
        })
        .unwrap();
    assert_ne!(annotation.id.0, 0);
    assert_eq!(repo.list_for_document(DocumentId(1)).unwrap().len(), 1);
}

#[test]
fn bookmark_insert_then_delete() {
    let repo = SqliteBookmarkRepository::new(conn());
    let bookmark = repo
        .insert(Bookmark {
            id: BookmarkId(0),
            document_id: DocumentId(1),
            location_ref: "page:1".to_string(),
            label: "start here".to_string(),
            created_at: "t1".to_string(),
        })
        .unwrap();
    repo.delete(bookmark.id).unwrap();
    assert!(repo.list_for_document(DocumentId(1)).unwrap().is_empty());
}

#[test]
fn chat_session_and_messages_round_trip_in_order() {
    let shared = conn();
    let repo = SqliteChatRepository::new(shared);
    let session = repo
        .create_session(ChatSession {
            id: ChatSessionId(0),
            workspace_id: WorkspaceId(1),
            document_id: None,
            title: "Untitled".to_string(),
            mode: ChatMode::Normal,
            created_at: "t1".to_string(),
            updated_at: "t1".to_string(),
        })
        .unwrap();

    repo.append_message(ChatMessage {
        id: ChatMessageId(0),
        session_id: session.id,
        role: ChatRole::User,
        content: "explain gradient descent".to_string(),
        engine_pipeline_used: None,
        created_at: "t1".to_string(),
    })
    .unwrap();
    repo.append_message(ChatMessage {
        id: ChatMessageId(0),
        session_id: session.id,
        role: ChatRole::Assistant,
        content: "it minimizes...".to_string(),
        engine_pipeline_used: Some("Retriever,Reranker,Tutor".to_string()),
        created_at: "t2".to_string(),
    })
    .unwrap();

    let messages = repo.list_messages(session.id).unwrap();
    assert_eq!(messages.len(), 2);
    assert_eq!(messages[0].role, ChatRole::User);
    assert_eq!(messages[1].role, ChatRole::Assistant);

    let sessions = repo.list_sessions_for_workspace(WorkspaceId(1)).unwrap();
    assert_eq!(sessions.len(), 1);
}

#[test]
fn revision_history_appends_and_lists_in_schedule_order() {
    let repo = SqliteLearningProgressRepository::new(conn());
    repo.append_revision_history(RevisionHistoryEntry {
        id: RevisionHistoryId(0),
        concept_node_id: ConceptNodeId(1),
        scheduled_at: "2026-08-05".to_string(),
        completed_at: None,
        outcome: None,
    })
    .unwrap();
    repo.append_revision_history(RevisionHistoryEntry {
        id: RevisionHistoryId(0),
        concept_node_id: ConceptNodeId(1),
        scheduled_at: "2026-08-01".to_string(),
        completed_at: Some("2026-08-01".to_string()),
        outcome: Some(RevisionOutcome::Recalled),
    })
    .unwrap();

    let history = repo.list_revision_history(ConceptNodeId(1)).unwrap();
    assert_eq!(history.len(), 2);
    assert_eq!(history[0].scheduled_at, "2026-08-01");
    assert_eq!(history[0].outcome, Some(RevisionOutcome::Recalled));
}

#[test]
fn weak_topic_tallies_accumulate_weakest_first_in_sqlite() {
    let repo = SqliteAnalyticsRepository::new(conn());
    repo.record_quiz_answer(WorkspaceId(1), "Thermodynamics", false).unwrap();
    repo.record_quiz_answer(WorkspaceId(1), "Thermodynamics", false).unwrap();
    repo.record_quiz_answer(WorkspaceId(1), "Thermodynamics", true).unwrap();
    repo.record_quiz_answer(WorkspaceId(1), "Optics", true).unwrap();
    repo.record_quiz_answer(WorkspaceId(1), "Optics", true).unwrap();

    let weak = repo.list_weak_topics(WorkspaceId(1)).unwrap();
    assert_eq!(weak.len(), 2);
    assert_eq!(weak[0].topic, "Thermodynamics");
    assert_eq!(weak[0].correct_count, 1);
    assert_eq!(weak[0].incorrect_count, 2);
    assert_eq!(weak[1].topic, "Optics");
    assert_eq!(weak[1].correct_count, 2);
}

#[test]
fn weak_topic_tallies_are_scoped_per_workspace_in_sqlite() {
    let repo = SqliteAnalyticsRepository::new(conn());
    assert!(repo.list_weak_topics(WorkspaceId(1)).unwrap().is_empty());
    repo.record_quiz_answer(WorkspaceId(1), "Topic A", false).unwrap();
    repo.record_quiz_answer(WorkspaceId(2), "Topic A", true).unwrap();
    assert_eq!(repo.list_weak_topics(WorkspaceId(1)).unwrap()[0].correct_count, 0);
    assert_eq!(repo.list_weak_topics(WorkspaceId(2)).unwrap()[0].correct_count, 1);
}

#[test]
fn quiz_insert_then_get_round_trips_questions_through_json() {
    let repo = SqliteStudyRepository::new(conn());
    let quiz = repo
        .insert_quiz(Quiz {
            id: QuizId(0),
            workspace_id: WorkspaceId(1),
            document_id: Some(DocumentId(7)),
            topic: "Photosynthesis".to_string(),
            questions: vec![QuizQuestion {
                question: "What pigment absorbs light?".to_string(),
                options: vec!["Chlorophyll".to_string(), "Melanin".to_string()],
                correct_answer: "Chlorophyll".to_string(),
                source_citations: vec!["[1]".to_string()],
            }],
            created_at: "t1".to_string(),
        })
        .unwrap();
    assert_ne!(quiz.id.0, 0);

    let fetched = repo.get_quiz(quiz.id).unwrap().unwrap();
    assert_eq!(fetched.topic, "Photosynthesis");
    assert_eq!(fetched.questions.len(), 1);
    assert_eq!(fetched.questions[0].correct_answer, "Chlorophyll");
    assert_eq!(fetched.document_id, Some(DocumentId(7)));
}

#[test]
fn quiz_get_of_missing_id_returns_none_not_error() {
    let repo = SqliteStudyRepository::new(conn());
    assert!(repo.get_quiz(QuizId(999)).unwrap().is_none());
}

#[test]
fn quizzes_list_by_workspace_and_by_document_are_both_scoped_correctly() {
    let shared = conn();
    let repo = SqliteStudyRepository::new(shared);
    repo.insert_quiz(Quiz {
        id: QuizId(0),
        workspace_id: WorkspaceId(1),
        document_id: Some(DocumentId(1)),
        topic: "t".to_string(),
        questions: vec![],
        created_at: "t1".to_string(),
    })
    .unwrap();
    repo.insert_quiz(Quiz {
        id: QuizId(0),
        workspace_id: WorkspaceId(1),
        document_id: None,
        topic: "t2".to_string(),
        questions: vec![],
        created_at: "t2".to_string(),
    })
    .unwrap();
    repo.insert_quiz(Quiz {
        id: QuizId(0),
        workspace_id: WorkspaceId(2),
        document_id: None,
        topic: "t3".to_string(),
        questions: vec![],
        created_at: "t3".to_string(),
    })
    .unwrap();

    assert_eq!(repo.list_quizzes_for_workspace(WorkspaceId(1)).unwrap().len(), 2);
    assert_eq!(repo.list_quizzes_for_workspace(WorkspaceId(2)).unwrap().len(), 1);
    assert_eq!(repo.list_quizzes_for_document(DocumentId(1)).unwrap().len(), 1);
}

#[test]
fn flashcard_set_insert_then_get_round_trips_cards_through_json() {
    let repo = SqliteStudyRepository::new(conn());
    let set = repo
        .insert_flashcard_set(FlashcardSet {
            id: FlashcardSetId(0),
            workspace_id: WorkspaceId(1),
            document_id: None,
            topic: "Cell Biology".to_string(),
            cards: vec![Flashcard {
                front: "What is a ribosome?".to_string(),
                back: "Protein synthesis site".to_string(),
                source_citations: vec![],
            }],
            created_at: "t1".to_string(),
        })
        .unwrap();
    assert_ne!(set.id.0, 0);

    let fetched = repo.get_flashcard_set(set.id).unwrap().unwrap();
    assert_eq!(fetched.cards.len(), 1);
    assert_eq!(fetched.cards[0].front, "What is a ribosome?");
    assert_eq!(repo.list_flashcard_sets_for_workspace(WorkspaceId(1)).unwrap().len(), 1);
}

#[test]
fn revision_plan_insert_then_list_round_trips_items_through_json() {
    let repo = SqliteStudyRepository::new(conn());
    let plan = repo
        .insert_revision_plan(RevisionPlan {
            id: RevisionPlanId(0),
            workspace_id: WorkspaceId(1),
            items: vec![RevisionPlanItem {
                topic: "Thermodynamics".to_string(),
                recommendation: "Review chapter 4".to_string(),
                priority: 1,
            }],
            created_at: "t1".to_string(),
        })
        .unwrap();
    assert_ne!(plan.id.0, 0);

    let plans = repo.list_revision_plans_for_workspace(WorkspaceId(1)).unwrap();
    assert_eq!(plans.len(), 1);
    assert_eq!(plans[0].items[0].topic, "Thermodynamics");
    assert_eq!(plans[0].items[0].priority, 1);
}

#[test]
fn quiz_flashcard_and_revision_plan_data_survive_alongside_annotations_no_cascading_delete() {
    let shared = conn();
    let study_repo = SqliteStudyRepository::new(shared.clone());
    let annotation_repo = SqliteAnnotationRepository::new(shared);

    study_repo
        .insert_quiz(Quiz {
            id: QuizId(0),
            workspace_id: WorkspaceId(1),
            document_id: Some(DocumentId(1)),
            topic: "t".to_string(),
            questions: vec![],
            created_at: "t1".to_string(),
        })
        .unwrap();
    let annotation = annotation_repo
        .insert(Annotation {
            id: AnnotationId(0),
            document_id: DocumentId(1),
            location_ref: "page:1".to_string(),
            content: "note".to_string(),
            created_at: "t1".to_string(),
            updated_at: "t1".to_string(),
        })
        .unwrap();
    annotation_repo.delete(annotation.id).unwrap();

    assert_eq!(study_repo.list_quizzes_for_document(DocumentId(1)).unwrap().len(), 1);
}

#[test]
fn connection_reports_the_path_it_was_opened_with() {
    let c = SqliteConnection::open(":memory:");
    assert_eq!(c.database_path(), ":memory:");
    let repo = SqliteStudyRepository::new(c);
    assert_eq!(repo.connection().database_path(), ":memory:");
}

#[test]
fn unopenable_database_reports_storage_errors() {
    let repo = SqliteAnnotationRepository::new(SqliteConnection::open("/nonexistent-dir/for/sure/atlas.db"));
    let err = repo.list_for_document(DocumentId(1)).unwrap_err();
    assert_eq!(err.code, atlas_core::error::ErrorCode::StorageError);
    assert!(err.message.starts_with("annotation list query failed: "));
}

#[test]
fn weak_topic_aggregate_accumulates_across_multiple_record_calls() {
    let repo = SqliteAnalyticsRepository::new(conn());
    repo.record_quiz_answer(WorkspaceId(1), "Thermodynamics", false).unwrap();
    repo.record_quiz_answer(WorkspaceId(1), "Thermodynamics", false).unwrap();
    repo.record_quiz_answer(WorkspaceId(1), "Thermodynamics", true).unwrap();
    repo.record_quiz_answer(WorkspaceId(1), "Optics", true).unwrap();
    repo.record_quiz_answer(WorkspaceId(1), "Optics", true).unwrap();
    let weak = repo.list_weak_topics(WorkspaceId(1)).unwrap();
    assert_eq!(weak.len(), 2);
    assert_eq!(weak[0].topic, "Thermodynamics");
    assert_eq!(weak[0].correct_count, 1);
    assert_eq!(weak[0].incorrect_count, 2);
    assert_eq!(weak[1].topic, "Optics");
    assert_eq!((weak[1].correct_count, weak[1].incorrect_count), (2, 0));
}

#[test]
fn weak_topics_scoped_per_workspace_and_empty_when_none_recorded() {
    let repo = SqliteAnalyticsRepository::new(conn());
    assert!(repo.list_weak_topics(WorkspaceId(1)).unwrap().is_empty());
    repo.record_quiz_answer(WorkspaceId(1), "Topic A", false).unwrap();
    repo.record_quiz_answer(WorkspaceId(2), "Topic A", true).unwrap();
    assert_eq!(repo.list_weak_topics(WorkspaceId(1)).unwrap()[0].correct_count, 0);
    assert_eq!(repo.list_weak_topics(WorkspaceId(2)).unwrap()[0].correct_count, 1);
}

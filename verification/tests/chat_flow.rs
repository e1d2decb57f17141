use atlas_core::chat_turn::{chat_turn_step, start_chat_turn, ChatTurnAction, ChatTurnEvent};
use atlas_core::chat::ChatRole;
use atlas_core::chat_flow::{
    close_turn, default_routing_table, open_turn, parse_intent, pipeline_label, session_title,
    terminal_role, uses_retrieval, Intent, RoutingTable, StreamAction, StreamTranscript,
};
use atlas_core::db::SqliteConnection;
use atlas_core::engines::EngineRole;
use atlas_core::ids::{ChatSessionId, WorkspaceId};
use atlas_core::memory_db::SqliteChatRepository;

#[test]
fn intents_parse_by_name_and_unknown_names_fall_back_to_lookup() {
    assert_eq!(parse_intent("tutoring"), Intent::Tutoring);
    assert_eq!(parse_intent("quiz"), Intent::Quiz);
    assert_eq!(parse_intent("research"), Intent::Research);
    assert_eq!(parse_intent("planning"), Intent::Planning);
    assert_eq!(parse_intent("factual_lookup"), Intent::FactualLookup);
    assert_eq!(parse_intent("something-new"), Intent::FactualLookup);
}

#[test]
fn default_routes_end_in_the_answering_engine() {
    let table = default_routing_table();
    assert_eq!(
        table.resolve_pipeline(Intent::Tutoring),
        vec![EngineRole::Retriever, EngineRole::Reranker, EngineRole::Tutor]
    );
    assert_eq!(table.resolve_pipeline(Intent::Planning), vec![EngineRole::Memory, EngineRole::Planner]);
    let quiz = table.resolve_pipeline(Intent::Quiz);
    assert_eq!(terminal_role(&quiz, Intent::Quiz).unwrap(), EngineRole::Reasoning);
    assert!(uses_retrieval(&quiz));
    assert!(!uses_retrieval(&table.resolve_pipeline(Intent::Planning)));
}

#[test]
fn a_pipeline_without_an_answering_role_is_a_model_error() {
    let mut table = RoutingTable::new();
    assert!(table.resolve_pipeline(Intent::Research).is_empty());
    table.insert(Intent::Research, vec![EngineRole::Retriever, EngineRole::Reranker]);
    let err = terminal_role(&table.resolve_pipeline(Intent::Research), Intent::Research).unwrap_err();
    assert_eq!(err.message, "routing table has no answer-producing role for Research");
}

#[test]
fn pipeline_labels_render_like_debug() {
    let pipeline = vec![EngineRole::Retriever, EngineRole::Reranker, EngineRole::Tutor];
    assert_eq!(pipeline_label(&pipeline), format!("{:?}", pipeline));
    assert_eq!(pipeline_label(&Vec::new()), "[]");
}

#[test]
fn titles_keep_the_first_sixty_characters() {
    assert_eq!(session_title("short"), "short");
    let long: String = "é".repeat(70);
    assert_eq!(session_title(&long).chars().count(), 60);
}

#[test]
fn streaming_forwards_non_empty_pieces_and_stops_when_cancelled() {
    let mut t = StreamTranscript::new();
    assert_eq!(t.step(false, "Hel"), StreamAction::Forward);
    assert_eq!(t.step(false, ""), StreamAction::Skip);
    assert_eq!(t.step(false, "lo"), StreamAction::Forward);
    assert_eq!(t.step(true, " world"), StreamAction::Stop);
    assert_eq!(t.content(), "Hello");
}

#[test]
fn a_turn_records_the_question_and_the_answer_in_one_session() {
    let chat = SqliteChatRepository::new(SqliteConnection::open(":memory:"));
    let (session, question) = open_turn(&chat, WorkspaceId(1), None, "What is entropy?", "t1").unwrap();
    assert_eq!(question.role, ChatRole::User);
    let pipeline = vec![EngineRole::Retriever, EngineRole::Reranker, EngineRole::Tutor];
    let answer = close_turn(&chat, session, "A measure of disorder.".to_string(), &pipeline, "t2").unwrap();
    assert_eq!(answer.engine_pipeline_used.as_deref(), Some("[Retriever, Reranker, Tutor]"));
    let (same, _) = open_turn(&chat, WorkspaceId(1), Some(session), "And enthalpy?", "t3").unwrap();
    assert_eq!(same, session);
    let sessions = chat.list_sessions_for_workspace(WorkspaceId(1)).unwrap();
    assert_eq!(sessions.len(), 1);
    assert_eq!(sessions[0].title, "What is entropy?");
    assert_eq!(chat.list_messages(session).unwrap().len(), 3);
    let _ = ChatSessionId(0);
}

fn session_updated(title: &str, updated_at: &str) -> atlas_core::chat::ChatSession {
    atlas_core::chat::ChatSession {
        id: ChatSessionId(0),
        workspace_id: WorkspaceId(1),
        document_id: None,
        title: title.to_string(),
        mode: atlas_core::chat::ChatMode::Normal,
        created_at: "t0".to_string(),
        updated_at: updated_at.to_string(),
    }
}

#[test]
fn sessions_are_listed_most_recent_first_keeping_ties_in_order() {
    let sorted = atlas_core::chat_flow::most_recent_first(vec![
        session_updated("a", "2024-01-01"),
        session_updated("b", "2024-03-01"),
        session_updated("c", "2024-02-01"),
        session_updated("d", "2024-03-01"),
    ]);
    let titles: Vec<&str> = sorted.iter().map(|s| s.title.as_str()).collect();
    assert_eq!(titles, vec!["b", "d", "c", "a"]);
}

#[test]
fn listing_a_workspaces_sessions_puts_the_latest_first() {
    let chat = SqliteChatRepository::new(SqliteConnection::open(":memory:"));
    open_turn(&chat, WorkspaceId(3), None, "first", "2024-01-01T00:00:00Z").unwrap();
    open_turn(&chat, WorkspaceId(3), None, "second", "2024-05-01T00:00:00Z").unwrap();
    let listed = atlas_core::chat_flow::list_chat_sessions(&chat, WorkspaceId(3)).unwrap();
    assert_eq!(listed.len(), 2);
    assert_eq!(listed[0].title, "second");
}

#[test]
fn an_answer_carries_the_session_the_stored_reply_and_its_citations() {
    let chat = SqliteChatRepository::new(SqliteConnection::open(":memory:"));
    let (session, _) = open_turn(&chat, WorkspaceId(3), None, "Define torque.", "t1").unwrap();
    let pipeline = vec![EngineRole::Tutor];
    let message = close_turn(&chat, session, "Rotational force.".to_string(), &pipeline, "t2").unwrap();
    let answer = atlas_core::requests::AssistantAnswer { session_id: session.0, message, citations: vec![7i64] };
    assert_eq!(answer.session_id, session.0);
    assert_eq!(answer.message.content, "Rotational force.");
    assert_eq!(answer.message.session_id, session);
    let result = atlas_core::requests::SearchResult { content: "context".to_string(), citations: answer.citations };
    assert_eq!(result.citations, vec![7]);
}

fn opened_session(id: i64) -> atlas_core::chat::ChatSession {
    atlas_core::chat::ChatSession {
        id: ChatSessionId(id),
        workspace_id: WorkspaceId(1),
        document_id: None,
        title: "What is entropy?".to_string(),
        mode: atlas_core::chat::ChatMode::Normal,
        created_at: "t0".to_string(),
        updated_at: "t0".to_string(),
    }
}

#[test]
fn a_streamed_turn_stores_the_question_first_and_the_streamed_answer_last() {
    let pipeline = vec![EngineRole::Retriever, EngineRole::Reranker, EngineRole::Tutor];
    let (turn, action) =
        start_chat_turn("req-1".to_string(), WorkspaceId(1), None, "What is entropy?".to_string(), Intent::Tutoring, pipeline, "t0".to_string());
    assert!(matches!(action, ChatTurnAction::CreateSession(ref s) if s.title == "What is entropy?"));
    let (turn, action) = chat_turn_step(turn, ChatTurnEvent::SessionOpened(opened_session(7)));
    let question = match action {
        ChatTurnAction::SaveMessage(m) => m,
        _ => panic!("the question is stored first"),
    };
    assert_eq!(question.role, ChatRole::User);
    assert_eq!(question.session_id, ChatSessionId(7));
    let (turn, action) = chat_turn_step(turn, ChatTurnEvent::QuestionSaved(question));
    assert!(matches!(action, ChatTurnAction::Retrieve { limit: 5, ref query, .. } if query == "What is entropy?"));
    let (turn, action) = chat_turn_step(turn, ChatTurnEvent::Retrieved { hits: Vec::new(), system_prompt: Ok(None) });
    assert!(matches!(action, ChatTurnAction::FindModel(EngineRole::Tutor)));
    let (turn, action) = chat_turn_step(turn, ChatTurnEvent::ModelFound(Some("llama3".to_string())));
    match &action {
        ChatTurnAction::Generate { model, prompt } => {
            assert_eq!(model, "llama3");
            assert!(prompt.contains("USER QUESTION\n\nWhat is entropy?"));
        },
        _ => panic!("the model is asked"),
    }
    let (turn, action) = chat_turn_step(turn, ChatTurnEvent::Piece { text: "A measure ".to_string(), cancelled: false });
    assert!(matches!(action, ChatTurnAction::Forward(ref t) if t == "A measure "));
    let (turn, action) = chat_turn_step(turn, ChatTurnEvent::Piece { text: "of disorder.".to_string(), cancelled: false });
    assert!(matches!(action, ChatTurnAction::Forward(_)));
    let (turn, action) = chat_turn_step(turn, ChatTurnEvent::StreamEnded { now: "t1".to_string() });
    let answer = match action {
        ChatTurnAction::SaveMessage(m) => m,
        _ => panic!("the answer is stored"),
    };
    assert_eq!(answer.content, "A measure of disorder.");
    assert_eq!(answer.role, ChatRole::Assistant);
    assert_eq!(answer.engine_pipeline_used.as_deref(), Some("[Retriever, Reranker, Tutor]"));
    let (_turn, action) = chat_turn_step(turn, ChatTurnEvent::AnswerSaved(answer));
    match action {
        ChatTurnAction::Finish { request_id, result: Ok((session, message, citations)) } => {
            assert_eq!(request_id, "req-1");
            assert_eq!(session, ChatSessionId(7));
            assert_eq!(message.content, "A measure of disorder.");
            assert!(citations.is_empty());
        },
        _ => panic!("the turn ends with the stored answer"),
    }
}

#[test]
fn a_turn_without_a_selected_model_ends_with_a_model_error() {
    let (turn, _) = start_chat_turn(
        "req-2".to_string(),
        WorkspaceId(1),
        Some(ChatSessionId(3)),
        "Plan my week".to_string(),
        Intent::Planning,
        vec![EngineRole::Memory, EngineRole::Planner],
        "t0".to_string(),
    );
    let question = atlas_core::chat::ChatMessage {
        id: atlas_core::ids::ChatMessageId(1),
        session_id: ChatSessionId(3),
        role: ChatRole::User,
        content: "Plan my week".to_string(),
        engine_pipeline_used: None,
        created_at: "t0".to_string(),
    };
    let (turn, action) = chat_turn_step(turn, ChatTurnEvent::QuestionSaved(question));
    assert!(matches!(action, ChatTurnAction::FindModel(EngineRole::Planner)));
    let (_turn, action) = chat_turn_step(turn, ChatTurnEvent::ModelFound(None));
    match action {
        ChatTurnAction::Finish { request_id, result: Err(e) } => {
            assert_eq!(request_id, "req-2");
            assert_eq!(e.message, "no model currently assigned to Planner");
        },
        _ => panic!("the turn fails"),
    }
}

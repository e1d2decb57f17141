use atlas_core::error::{ErrorCategory, ErrorCode};
use atlas_core::study_output::{parse_flashcard_response, parse_quiz_response, parse_revision_plan_response};

#[test]
fn parses_well_formed_quiz() {
    let raw = r#"{
        "topic": "Photosynthesis",
        "questions": [
            {
                "question": "What pigment absorbs light?",
                "options": ["Chlorophyll", "Melanin", "Keratin"],
                "correct_answer": "Chlorophyll",
                "source_citations": ["[1]"]
            }
        ]
    }"#;
    let quiz = parse_quiz_response(raw).unwrap();
    assert_eq!(quiz.topic, "Photosynthesis");
    assert_eq!(quiz.questions.len(), 1);
    assert_eq!(quiz.questions[0].correct_answer, "Chlorophyll");
    assert_eq!(quiz.questions[0].source_citations, vec!["[1]".to_string()]);
}

#[test]
fn parses_quiz_wrapped_in_a_markdown_code_fence() {
    let raw = "```json\n{\"topic\": \"t\", \"questions\": [{\"question\": \"q\", \"options\": [\"a\", \"b\"], \"correct_answer\": \"a\"}]}\n```";
    let quiz = parse_quiz_response(raw).unwrap();
    assert_eq!(quiz.topic, "t");
}

#[test]
fn quiz_source_citations_default_to_empty_when_omitted() {
    let raw = r#"{"topic": "t", "questions": [{"question": "q", "options": ["a", "b"], "correct_answer": "a"}]}"#;
    let quiz = parse_quiz_response(raw).unwrap();
    assert!(quiz.questions[0].source_citations.is_empty());
}

#[test]
fn quiz_malformed_json_is_recoverable_not_a_crash() {
    let err = parse_quiz_response("{not json at all").unwrap_err();
    assert_eq!(err.category, ErrorCategory::Recoverable);
    assert_eq!(err.code, ErrorCode::ValidationError);
}

#[test]
fn quiz_correct_answer_not_in_options_is_rejected() {
    let raw = r#"{"topic": "t", "questions": [{"question": "q", "options": ["a", "b"], "correct_answer": "c"}]}"#;
    let err = parse_quiz_response(raw).unwrap_err();
    assert_eq!(err.category, ErrorCategory::Recoverable);
    assert!(err.message.contains("correct_answer"));
}

#[test]
fn quiz_empty_questions_array_is_rejected() {
    let raw = r#"{"topic": "t", "questions": []}"#;
    assert!(parse_quiz_response(raw).is_err());
}

#[test]
fn quiz_question_with_one_option_is_rejected() {
    let raw = r#"{"topic": "t", "questions": [{"question": "q", "options": ["a"], "correct_answer": "a"}]}"#;
    let err = parse_quiz_response(raw).unwrap_err();
    assert!(err.message.contains("fewer than 2 options"));
}

#[test]
fn quiz_missing_required_field_is_rejected() {
    let raw = r#"{"topic": "t", "questions": [{"question": "q", "options": ["a", "b"]}]}"#;
    assert!(parse_quiz_response(raw).is_err());
}

#[test]
fn parses_well_formed_flashcards() {
    let raw = r#"{"topic": "Cell Biology", "cards": [{"front": "What is a ribosome?", "back": "Protein synthesis site", "source_citations": ["[2]"]}]}"#;
    let set = parse_flashcard_response(raw).unwrap();
    assert_eq!(set.topic, "Cell Biology");
    assert_eq!(set.cards.len(), 1);
    assert_eq!(set.cards[0].front, "What is a ribosome?");
}

#[test]
fn flashcard_with_empty_back_is_rejected() {
    let raw = r#"{"topic": "t", "cards": [{"front": "q", "back": ""}]}"#;
    let err = parse_flashcard_response(raw).unwrap_err();
    assert_eq!(err.category, ErrorCategory::Recoverable);
}

#[test]
fn flashcard_malformed_json_is_recoverable() {
    let err = parse_flashcard_response("not json").unwrap_err();
    assert_eq!(err.category, ErrorCategory::Recoverable);
}

#[test]
fn parses_well_formed_revision_plan() {
    let raw = r#"{"items": [{"topic": "Photosynthesis", "recommendation": "Review chapter 4 diagrams", "priority": 1}]}"#;
    let plan = parse_revision_plan_response(raw).unwrap();
    assert_eq!(plan.items.len(), 1);
    assert_eq!(plan.items[0].priority, 1);
}

#[test]
fn revision_plan_zero_priority_is_rejected() {
    let raw = r#"{"items": [{"topic": "t", "recommendation": "r", "priority": 0}]}"#;
    let err = parse_revision_plan_response(raw).unwrap_err();
    assert_eq!(err.category, ErrorCategory::Recoverable);
}

#[test]
fn revision_plan_empty_items_is_rejected() {
    let raw = r#"{"items": []}"#;
    assert!(parse_revision_plan_response(raw).is_err());
}

#[test]
fn revision_plan_malformed_json_is_recoverable() {
    let err = parse_revision_plan_response("<<not json>>").unwrap_err();
    assert_eq!(err.category, ErrorCategory::Recoverable);
    assert_eq!(err.code, ErrorCode::ValidationError);
}

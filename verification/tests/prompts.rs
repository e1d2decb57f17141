use atlas_core::ids::{ChunkId, DocumentId, WorkspaceId};
use atlas_core::memory::WeakTopic;
use atlas_core::prompts::{template_or_default, PromptBuilder, QUIZ_PROMPT_SETTING_KEY, SYSTEM_PROMPT_SETTING_KEY};
use atlas_core::search::SearchHit;
use atlas_core::settings::{ConfigLayer, LayeredSettingsProvider, SettingEntry, SettingsScope};

fn hits(texts: &[&str]) -> Vec<SearchHit> {
    texts
        .iter()
        .enumerate()
        .map(|(idx, text)| SearchHit {
            chunk_id: ChunkId(idx as i64 + 1),
            document_id: DocumentId(1),
            text_content: text.to_string(),
            page_or_location_ref: "1".to_string(),
            matched_terms: 1,
            term_count: 1,
        })
        .collect()
}

fn builder() -> PromptBuilder<LayeredSettingsProvider> {
    PromptBuilder::new(LayeredSettingsProvider::new())
}

fn setting(key: &str, value: &str) -> SettingEntry {
    SettingEntry {
        key: key.to_string(),
        value: value.to_string(),
        value_type: "string".to_string(),
        scope: SettingsScope::Global,
        workspace_id: None,
        updated_at: "1970-01-01T00:00:00Z".to_string(),
    }
}

#[test]
fn build_numbers_each_chunk_as_an_inline_citation_marker() {
    let prompt = builder().build("what is it", &hits(&["first", "second"]));
    assert!(prompt.content.contains("[1] first\n\n[2] second"));
}

#[test]
fn build_includes_the_users_actual_question() {
    let prompt = builder().build("What is differential privacy?", &hits(&["some context"]));
    assert!(prompt.content.contains("USER QUESTION\n\nWhat is differential privacy?\n\n---"));
}

#[test]
fn build_includes_a_system_instruction_section() {
    let prompt = builder().build("q", &hits(&["c"]));
    assert!(prompt.content.starts_with("SYSTEM\n\nYou are Atlas, an expert AI tutor."));
    assert!(prompt.content.to_lowercase().contains("tutor"));
    assert!(prompt.content.ends_with("ANSWER\n\nBegin naturally."));
}

#[test]
fn build_of_empty_context_still_includes_query_and_says_so() {
    let prompt = builder().build("a question with no retrieved context", &hits(&[]));
    assert!(prompt.content.contains("a question with no retrieved context"));
    assert!(prompt.content.contains("No relevant workspace material"));
}

#[test]
fn build_quiz_prompt_includes_topic_count_and_schema_instruction() {
    let prompt = builder().build_quiz_prompt("Photosynthesis", &hits(&["light reactions occur in the thylakoid"]), 5);
    assert!(prompt.content.contains("Generate 5 quiz question(s) on the topic \"Photosynthesis\"."));
    assert!(prompt.content.contains("correct_answer"));
    assert!(prompt.content.contains("[1] light reactions occur in the thylakoid"));
}

#[test]
fn build_quiz_prompt_of_empty_context_still_says_so() {
    let prompt = builder().build_quiz_prompt("t", &hits(&[]), 3);
    assert!(prompt.content.contains("No relevant workspace material"));
}

#[test]
fn build_flashcard_prompt_includes_topic_count_and_schema_instruction() {
    let prompt = builder().build_flashcard_prompt("Cell Biology", &hits(&["ribosomes synthesize protein"]), 4);
    assert!(prompt.content.contains("Generate 4 flashcard(s) on the topic \"Cell Biology\"."));
    assert!(prompt.content.contains("\"front\""));
    assert!(prompt.content.contains("[1] ribosomes synthesize protein"));
}

#[test]
fn build_revision_plan_prompt_includes_weak_topic_data() {
    let weak = vec![WeakTopic { topic: "Thermodynamics".to_string(), correct_count: 2, incorrect_count: 8 }];
    let prompt = builder().build_revision_plan_prompt(&weak);
    assert!(prompt
        .content
        .contains("- topic: \"Thermodynamics\", correct: 2, incorrect: 8, accuracy: 20%"));
    assert!(prompt.content.contains("\"priority\""));
}

#[test]
fn revision_plan_lines_round_accuracy_and_are_one_per_topic() {
    let weak = vec![
        WeakTopic { topic: "A".to_string(), correct_count: 1, incorrect_count: 2 },
        WeakTopic { topic: "B".to_string(), correct_count: 2, incorrect_count: 1 },
    ];
    let prompt = builder().build_revision_plan_prompt(&weak);
    assert!(prompt.content.contains(
        "- topic: \"A\", correct: 1, incorrect: 2, accuracy: 33%\n- topic: \"B\", correct: 2, incorrect: 1, accuracy: 67%"
    ));
}

#[test]
fn build_revision_plan_prompt_of_no_weak_topics_says_so_rather_than_fabricating() {
    let prompt = builder().build_revision_plan_prompt(&Vec::new());
    assert!(prompt.content.contains("No weak-topic data is available"));
}

#[test]
fn quiz_and_flashcard_prompts_respect_settings_overrides() {
    let mut provider = LayeredSettingsProvider::new();
    provider.set_in_layer(ConfigLayer::Runtime, setting(QUIZ_PROMPT_SETTING_KEY, "CUSTOM QUIZ INSTRUCTION")).unwrap();
    let builder = PromptBuilder::new(provider);
    let prompt = builder.build_quiz_prompt("t", &hits(&[]), 1);
    assert!(prompt.content.starts_with("SYSTEM\n\nCUSTOM QUIZ INSTRUCTION\n\n---"));
}

#[test]
fn a_blank_override_falls_back_to_the_default() {
    let mut provider = LayeredSettingsProvider::new();
    provider.set_in_layer(ConfigLayer::Runtime, setting(SYSTEM_PROMPT_SETTING_KEY, "   ")).unwrap();
    let builder = PromptBuilder::new(provider);
    let prompt = builder.build("q", &hits(&[]));
    assert!(prompt.content.starts_with("SYSTEM\n\nYou are Atlas"));
    assert_eq!(template_or_default(Ok(None), "d"), "d");
    assert_eq!(template_or_default(Ok(Some(setting("k", "v"))), "d"), "v");
    let _ = WorkspaceId(0);
}

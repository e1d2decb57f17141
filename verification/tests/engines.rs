use std::sync::{Arc, Mutex};

use atlas_core::engines::{
    explain_step_by_step, generate_flashcards, generate_quiz, generate_revision_plan,
    solve_math_problem, Engine, EngineOutput, EnginePool, EngineRole, ResolvedPrompt,
};
use atlas_core::error::{AppError, ErrorCategory};

/// Records the prompt it was called with and answers with a fixed text.
struct StubEngine {
    role: EngineRole,
    last_prompt: Mutex<Option<String>>,
    response: String,
}

impl StubEngine {
    fn new(role: EngineRole, response: &str) -> Arc<Self> {
        Arc::new(StubEngine { role, last_prompt: Mutex::new(None), response: response.to_string() })
    }
}

impl Engine for StubEngine {
    fn role(&self) -> EngineRole {
        self.role
    }

    fn run(&self, prompt: ResolvedPrompt) -> Result<EngineOutput, AppError> {
        *self.last_prompt.lock().unwrap() = Some(prompt.content.clone());
        Ok(EngineOutput { content: self.response.clone() })
    }
}

/// Answers from a queue, one per call, repeating the last answer once the
/// queue is down to one; records every prompt.
struct SequenceStubEngine {
    role: EngineRole,
    responses: Mutex<Vec<String>>,
    prompts_seen: Mutex<Vec<String>>,
}

impl SequenceStubEngine {
    fn new(role: EngineRole, responses: Vec<&str>) -> Arc<Self> {
        Arc::new(SequenceStubEngine {
            role,
            responses: Mutex::new(responses.into_iter().map(String::from).collect()),
            prompts_seen: Mutex::new(Vec::new()),
        })
    }
}

impl Engine for SequenceStubEngine {
    fn role(&self) -> EngineRole {
        self.role
    }

    fn run(&self, prompt: ResolvedPrompt) -> Result<EngineOutput, AppError> {
        self.prompts_seen.lock().unwrap().push(prompt.content);
        let mut responses = self.responses.lock().unwrap();
        let content = if responses.len() > 1 {
            responses.remove(0)
        } else {
            responses.first().cloned().unwrap_or_default()
        };
        Ok(EngineOutput { content })
    }
}

const VALID_QUIZ_JSON: &str =
    r#"{"topic": "t", "questions": [{"question": "q", "options": ["a", "b"], "correct_answer": "a", "source_citations": []}]}"#;
const VALID_FLASHCARD_JSON: &str = r#"{"topic": "t", "cards": [{"front": "f", "back": "b", "source_citations": []}]}"#;
const VALID_PLAN_JSON: &str = r#"{"items": [{"topic": "t", "recommendation": "review", "priority": 1}]}"#;

#[test]
fn explain_step_by_step_routes_through_reasoning_engine() {
    let reasoning = StubEngine::new(EngineRole::Reasoning, "step 1... step 2...");
    let pool = EnginePool::new(vec![reasoning.clone()]);
    let out = explain_step_by_step(&pool, ResolvedPrompt::text("explain X")).unwrap();
    assert_eq!(out.content, "step 1... step 2...");
    assert_eq!(reasoning.last_prompt.lock().unwrap().as_deref(), Some("explain X"));
}

#[test]
fn solve_math_problem_routes_through_reasoning_engine_not_a_new_role() {
    let reasoning = StubEngine::new(EngineRole::Reasoning, "x = 2");
    let pool = EnginePool::new(vec![reasoning]);
    let out = solve_math_problem(&pool, ResolvedPrompt::text("solve 2x=4")).unwrap();
    assert_eq!(out.content, "x = 2");
}

#[test]
fn generate_quiz_routes_through_reasoning_engine_and_parses_valid_json_first_try() {
    let reasoning = SequenceStubEngine::new(EngineRole::Reasoning, vec![VALID_QUIZ_JSON]);
    let pool = EnginePool::new(vec![reasoning.clone()]);
    let quiz = generate_quiz(&pool, ResolvedPrompt::text("quiz me")).unwrap();
    assert_eq!(quiz.topic, "t");
    assert_eq!(quiz.questions.len(), 1);
    assert_eq!(reasoning.prompts_seen.lock().unwrap().len(), 1);
}

#[test]
fn generate_quiz_retries_once_on_malformed_json_then_succeeds() {
    let reasoning = SequenceStubEngine::new(EngineRole::Reasoning, vec!["not valid json at all", VALID_QUIZ_JSON]);
    let pool = EnginePool::new(vec![reasoning.clone()]);
    let quiz = generate_quiz(&pool, ResolvedPrompt::text("quiz me")).unwrap();
    assert_eq!(quiz.topic, "t");
    let prompts = reasoning.prompts_seen.lock().unwrap();
    assert_eq!(prompts.len(), 2);
    assert!(prompts[1].contains("CORRECTION REQUIRED"));
    assert!(prompts[1].contains("quiz me"));
}

#[test]
fn generate_quiz_fails_recoverable_when_both_attempts_are_malformed() {
    let reasoning = SequenceStubEngine::new(EngineRole::Reasoning, vec!["still not json", "still not json"]);
    let pool = EnginePool::new(vec![reasoning.clone()]);
    let err = generate_quiz(&pool, ResolvedPrompt::text("quiz me")).unwrap_err();
    assert_eq!(err.category, ErrorCategory::Recoverable);
    assert_eq!(reasoning.prompts_seen.lock().unwrap().len(), 2);
}

#[test]
fn generate_flashcards_routes_through_tutor_engine() {
    let tutor = SequenceStubEngine::new(EngineRole::Tutor, vec![VALID_FLASHCARD_JSON]);
    let pool = EnginePool::new(vec![tutor]);
    let set = generate_flashcards(&pool, ResolvedPrompt::text("cards")).unwrap();
    assert_eq!(set.cards.len(), 1);
    assert_eq!(set.cards[0].front, "f");
}

#[test]
fn generate_flashcards_retries_once_on_invalid_output_then_succeeds() {
    let invalid = r#"{"topic": "t", "cards": [{"front": "f", "back": ""}]}"#;
    let tutor = SequenceStubEngine::new(EngineRole::Tutor, vec![invalid, VALID_FLASHCARD_JSON]);
    let pool = EnginePool::new(vec![tutor.clone()]);
    let set = generate_flashcards(&pool, ResolvedPrompt::text("cards")).unwrap();
    assert_eq!(set.cards[0].front, "f");
    assert_eq!(tutor.prompts_seen.lock().unwrap().len(), 2);
}

#[test]
fn generate_revision_plan_routes_through_planner_engine() {
    let planner = SequenceStubEngine::new(EngineRole::Planner, vec![VALID_PLAN_JSON]);
    let pool = EnginePool::new(vec![planner]);
    let plan = generate_revision_plan(&pool, ResolvedPrompt::text("plan")).unwrap();
    assert_eq!(plan.items[0].recommendation, "review");
}

#[test]
fn engine_pool_errors_cleanly_when_role_missing_rather_than_panicking() {
    let pool: EnginePool<StubEngine> = EnginePool::new(vec![]);
    let err = pool.run_role(EngineRole::Vision, ResolvedPrompt::text("x")).unwrap_err();
    assert_eq!(err.category, ErrorCategory::ModelError);
    assert_eq!(err.message, "no engine registered for role Vision");
}

#[test]
fn a_later_engine_for_a_role_replaces_an_earlier_one() {
    let first = StubEngine::new(EngineRole::Tutor, "first");
    let second = StubEngine::new(EngineRole::Tutor, "second");
    let pool = EnginePool::new(vec![first, second]);
    assert!(pool.has_role(EngineRole::Tutor));
    assert!(!pool.has_role(EngineRole::Planner));
    let out = pool.run_role(EngineRole::Tutor, ResolvedPrompt::text("hi")).unwrap();
    assert_eq!(out.content, "second");
}

#[test]
fn the_pool_hands_out_the_engine_of_a_role_and_refuses_a_missing_one() {
    let tutor = StubEngine::new(EngineRole::Tutor, "hi");
    let pool = EnginePool::new(vec![tutor]);
    assert_eq!(pool.get(EngineRole::Tutor).unwrap().role(), EngineRole::Tutor);
    let err = pool.get(EngineRole::Planner).err().unwrap();
    assert_eq!(err.message, "no engine registered for role Planner");
}

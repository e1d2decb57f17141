use std::sync::Mutex;

use atlas_core::engines::{Engine, EngineRole, ResolvedPrompt};
use atlas_core::error::{AppError, ErrorCategory};
use atlas_core::ids::ModelRegistryId;
use atlas_core::json::JsonValue;
use atlas_core::registry::{
    fallback_candidates, model_attempt_step, ModelAttempt, ModelAttemptAction, ModelAttemptEvent, ModelRegistryEntry, ModelRegistryRepository, ModelStatus, OllamaEngine,
    TextGenerator,
};

fn model(id: i64, name: &str, role: EngineRole, selected: bool, status: ModelStatus) -> ModelRegistryEntry {
    ModelRegistryEntry {
        id: ModelRegistryId(id),
        model_identifier: name.to_string(),
        engine_role: role,
        capabilities: JsonValue::Array(vec![]),
        context_length: 4096,
        vram_requirement: None,
        status,
        version: "1".to_string(),
        supported_tasks: JsonValue::Array(vec![]),
        is_selected_for_role: selected,
    }
}

fn copy(e: &ModelRegistryEntry) -> ModelRegistryEntry {
    model(e.id.0, &e.model_identifier, e.engine_role, e.is_selected_for_role, e.status)
}

struct StaticRegistry(Vec<ModelRegistryEntry>);

impl ModelRegistryRepository for StaticRegistry {
    fn list(&self) -> Result<Vec<ModelRegistryEntry>, AppError> {
        Ok(self.0.iter().map(copy).collect())
    }

    fn find_for_role(&self, role: EngineRole) -> Result<Option<ModelRegistryEntry>, AppError> {
        Ok(self.0.iter().find(|e| e.engine_role == role && e.is_selected_for_role).map(copy))
    }

    fn upsert(&self, entry: ModelRegistryEntry) -> Result<ModelRegistryEntry, AppError> {
        Ok(entry)
    }
}

/// Answers only for the models it knows; records every model asked.
struct ScriptedServer {
    working: Vec<&'static str>,
    asked: Mutex<Vec<String>>,
}

impl TextGenerator for ScriptedServer {
    fn generate(&self, model: &str, prompt: &str, _images: Option<Vec<String>>, _ctx: u32) -> Result<String, AppError> {
        self.asked.lock().unwrap().push(model.to_string());
        if self.working.contains(&model) {
            Ok(format!("{model}: {prompt}"))
        } else {
            Err(AppError::model(format!("{model} is unreachable")))
        }
    }
}

fn server(working: Vec<&'static str>) -> ScriptedServer {
    ScriptedServer { working, asked: Mutex::new(Vec::new()) }
}

#[test]
fn the_selected_model_answers_when_it_works() {
    let registry = StaticRegistry(vec![model(1, "primary", EngineRole::Tutor, true, ModelStatus::Available)]);
    let engine = OllamaEngine::new(EngineRole::Tutor, registry, server(vec!["primary"]));
    assert_eq!(engine.role(), EngineRole::Tutor);
    let out = engine.run(ResolvedPrompt::text("hi")).unwrap();
    assert_eq!(out.content, "primary: hi");
}

#[test]
fn a_failing_model_falls_back_to_another_available_model_of_the_role() {
    let registry = StaticRegistry(vec![
        model(1, "primary", EngineRole::Reasoning, true, ModelStatus::Available),
        model(2, "other-role", EngineRole::Tutor, false, ModelStatus::Available),
        model(3, "loading", EngineRole::Reasoning, false, ModelStatus::Loading),
        model(4, "alt", EngineRole::Reasoning, false, ModelStatus::Available),
    ]);
    let engine = OllamaEngine::new(EngineRole::Reasoning, registry, server(vec!["alt", "other-role", "loading"]));
    let out = engine.run(ResolvedPrompt::text("q")).unwrap();
    assert_eq!(out.content, "alt: q");
}

#[test]
fn when_every_candidate_fails_the_first_failure_is_reported() {
    let registry = StaticRegistry(vec![
        model(1, "primary", EngineRole::Reasoning, true, ModelStatus::Available),
        model(2, "alt", EngineRole::Reasoning, false, ModelStatus::Available),
    ]);
    let engine = OllamaEngine::new(EngineRole::Reasoning, registry, server(vec![]));
    let err = engine.run(ResolvedPrompt::text("q")).unwrap_err();
    assert_eq!(err.category, ErrorCategory::ModelError);
    assert_eq!(err.message, "primary is unreachable");
}

#[test]
fn a_role_without_a_selected_model_is_a_model_error() {
    let registry = StaticRegistry(vec![model(1, "m", EngineRole::Tutor, false, ModelStatus::Available)]);
    let engine = OllamaEngine::new(EngineRole::Tutor, registry, server(vec!["m"]));
    let err = engine.run(ResolvedPrompt::text("q")).unwrap_err();
    assert_eq!(err.message, "no model currently assigned to Tutor");
}

#[test]
fn fallback_candidates_keep_registry_order_and_skip_the_primary() {
    let entries = vec![
        model(1, "a", EngineRole::Planner, true, ModelStatus::Available),
        model(2, "b", EngineRole::Planner, false, ModelStatus::Available),
        model(3, "c", EngineRole::Planner, false, ModelStatus::Error),
        model(4, "d", EngineRole::Planner, false, ModelStatus::Available),
    ];
    let c = fallback_candidates(&entries, EngineRole::Planner, ModelRegistryId(1));
    assert_eq!(c, vec![("b".to_string(), 4096), ("d".to_string(), 4096)]);
}

#[test]
fn ollama_engine_resolves_model_via_registry_never_by_hardcoded_name() {
    let registry = StaticRegistry(vec![model(1, "stub-model", EngineRole::Tutor, true, ModelStatus::Available)]);
    let unreachable = server(vec![]);
    let engine = OllamaEngine::new(EngineRole::Tutor, registry, unreachable);
    let err = engine.run(ResolvedPrompt::text("hi")).unwrap_err();
    assert_eq!(err.category, ErrorCategory::ModelError);
    assert_eq!(err.message, "stub-model is unreachable");
}

#[test]
fn ollama_engine_reports_a_model_error_when_every_candidate_for_the_role_fails() {
    let registry = StaticRegistry(vec![
        model(1, "stub-model", EngineRole::Reasoning, true, ModelStatus::Available),
        model(2, "alt-model", EngineRole::Reasoning, false, ModelStatus::Available),
    ]);
    let engine = OllamaEngine::new(EngineRole::Reasoning, registry, server(vec![]));
    let err = engine.run(ResolvedPrompt::text("hi")).unwrap_err();
    assert_eq!(err.category, ErrorCategory::ModelError);
}

#[test]
fn a_model_attempt_tries_the_selected_model_then_the_fallbacks_in_order() {
    let (attempt, action) = model_attempt_step(
        ModelAttempt::Finding,
        EngineRole::Planner,
        ModelAttemptEvent::Found(Some(model(1, "a", EngineRole::Planner, true, ModelStatus::Available))),
    );
    assert!(matches!(action, ModelAttemptAction::Generate { ref model_identifier, .. } if model_identifier == "a"));
    let (attempt, action) =
        model_attempt_step(attempt, EngineRole::Planner, ModelAttemptEvent::Answered(Err(AppError::model("a failed".to_string()))));
    assert!(matches!(action, ModelAttemptAction::ListModels));
    let entries = vec![
        model(1, "a", EngineRole::Planner, true, ModelStatus::Available),
        model(2, "b", EngineRole::Planner, false, ModelStatus::Available),
        model(3, "c", EngineRole::Tutor, false, ModelStatus::Available),
        model(4, "d", EngineRole::Planner, false, ModelStatus::Available),
    ];
    let (attempt, action) = model_attempt_step(attempt, EngineRole::Planner, ModelAttemptEvent::Listed(entries));
    assert!(matches!(action, ModelAttemptAction::Generate { ref model_identifier, .. } if model_identifier == "b"));
    let (attempt, action) =
        model_attempt_step(attempt, EngineRole::Planner, ModelAttemptEvent::Answered(Err(AppError::model("b failed".to_string()))));
    assert!(matches!(action, ModelAttemptAction::Generate { ref model_identifier, .. } if model_identifier == "d"));
    let (_attempt, action) =
        model_attempt_step(attempt, EngineRole::Planner, ModelAttemptEvent::Answered(Err(AppError::model("d failed".to_string()))));
    match action {
        ModelAttemptAction::Finish(Err(e)) => assert_eq!(e.message, "a failed"),
        _ => panic!("the selected model's error is reported"),
    }
}

#[test]
fn a_model_attempt_ends_with_the_first_answer() {
    let (attempt, _) = model_attempt_step(
        ModelAttempt::Finding,
        EngineRole::Tutor,
        ModelAttemptEvent::Found(Some(model(1, "a", EngineRole::Tutor, true, ModelStatus::Available))),
    );
    let (_attempt, action) = model_attempt_step(attempt, EngineRole::Tutor, ModelAttemptEvent::Answered(Ok("hello".to_string())));
    assert!(matches!(action, ModelAttemptAction::Finish(Ok(ref t)) if t == "hello"));
}

#[test]
fn a_model_attempt_without_a_selected_model_is_a_model_error() {
    let (_attempt, action) = model_attempt_step(ModelAttempt::Finding, EngineRole::Memory, ModelAttemptEvent::Found(None));
    match action {
        ModelAttemptAction::Finish(Err(e)) => {
            assert_eq!(e.category, ErrorCategory::ModelError);
            assert_eq!(e.message, "no model currently assigned to Memory");
        },
        _ => panic!("no model is a model error"),
    }
}

#[test]
fn the_fallback_models_are_asked_in_registry_order() {
    let registry = StaticRegistry(vec![
        model(1, "primary", EngineRole::Reasoning, true, ModelStatus::Available),
        model(2, "broken", EngineRole::Reasoning, false, ModelStatus::Available),
        model(3, "alt", EngineRole::Reasoning, false, ModelStatus::Available),
    ]);
    let generator = server(vec!["alt"]);
    let engine = OllamaEngine::new(EngineRole::Reasoning, registry, generator);
    let out = engine.run(ResolvedPrompt::text("q")).unwrap();
    assert_eq!(out.content, "alt: q");
}

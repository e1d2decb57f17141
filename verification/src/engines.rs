//! Engines by role, the pool that routes a request to the engine of a
//! role, and the study features built on the roles: step-by-step
//! explanation and math solving (Reasoning), quizzes (Reasoning),
//! flashcards (Tutor) and revision plans (Planner). A structured response
//! that cannot be parsed or validated is asked for once more with a
//! corrective instruction.
use std::sync::Arc;
use vstd::prelude::*;

use crate::error::{AppError, ErrorCategory, ErrorCode};
use crate::memory::RevisionPlanItemView;
use crate::records::string_views;
use crate::study_output::{
    flashcard_outcome, flashcard_set_is_valid, parse_flashcard_response, parse_quiz_response,
    quiz_outcome, revision_plan_outcome, is_study_error, GeneratedQuizView, GeneratedFlashcardSetView,
    parse_revision_plan_response, quiz_is_valid, revision_plan_is_valid, GeneratedFlashcardSet,
    GeneratedQuiz, GeneratedRevisionPlan,
};
use crate::text::{push_str, string_from_chars};

verus! {

/// The fixed set of engine roles.
#[derive(Debug, Clone, Copy, PartialEq, Eq, Hash, Structural)]
pub enum EngineRole {
    Tutor,
    Reasoning,
    Planner,
    Memory,
    Vision,
    Ocr,
    Embedding,
    Retriever,
    Reranker,
    Analytics,
}

/// The name of a role as `{:?}` renders it.
pub open spec fn role_label(r: EngineRole) -> Seq<char> {
    match r {
        EngineRole::Tutor => "Tutor"@,
        EngineRole::Reasoning => "Reasoning"@,
        EngineRole::Planner => "Planner"@,
        EngineRole::Memory => "Memory"@,
        EngineRole::Vision => "Vision"@,
        EngineRole::Ocr => "Ocr"@,
        EngineRole::Embedding => "Embedding"@,
        EngineRole::Retriever => "Retriever"@,
        EngineRole::Reranker => "Reranker"@,
        EngineRole::Analytics => "Analytics"@,
    }
}

pub fn role_to_label(r: EngineRole) -> (s: &'static str)
    ensures
        s@ == role_label(r),
{
    match r {
        EngineRole::Tutor => "Tutor",
        EngineRole::Reasoning => "Reasoning",
        EngineRole::Planner => "Planner",
        EngineRole::Memory => "Memory",
        EngineRole::Vision => "Vision",
        EngineRole::Ocr => "Ocr",
        EngineRole::Embedding => "Embedding",
        EngineRole::Retriever => "Retriever",
        EngineRole::Reranker => "Reranker",
        EngineRole::Analytics => "Analytics",
    }
}

/// A prompt ready for an engine: its text and any attached images.
#[derive(Debug, Clone)]
pub struct ResolvedPrompt {
    pub content: String,
    pub images: Option<Vec<String>>,
}

pub ghost struct ResolvedPromptView {
    pub content: Seq<char>,
    pub images: Option<Seq<Seq<char>>>,
}

impl View for ResolvedPrompt {
    type V = ResolvedPromptView;

    open spec fn view(&self) -> ResolvedPromptView {
        ResolvedPromptView {
            content: self.content@,
            images: match self.images {
                Some(v) => Some(string_views(v@)),
                None => None,
            },
        }
    }
}

impl ResolvedPrompt {
    /// A text-only prompt.
    pub fn text(content: &str) -> (r: ResolvedPrompt)
        ensures
            r@.content == content@,
            r@.images is None,
    {
        ResolvedPrompt { content: content.to_owned(), images: None }
    }
    /// A copy of the prompt.
    pub fn duplicate(&self) -> (r: ResolvedPrompt)
        ensures
            r@ == self@,
    {
        let images = match &self.images {
            Some(v) => Some(crate::records::duplicate_strings(v)),
            None => None,
        };
        ResolvedPrompt { content: self.content.clone(), images }
    }
}

/// What an engine answered.
#[derive(Debug, Clone)]
pub struct EngineOutput {
    pub content: String,
}

/// A model-backed engine serving one role. Implemented by the application
/// for each inference back end.
pub trait Engine {
    /// The role the engine serves; unknown of an engine that does not say.
    open spec fn engine_role(&self) -> EngineRole {
        arbitrary()
    }

    /// The engine may answer `prompt` with the text `content`; an engine
    /// that does not say may answer anything.
    open spec fn answers(&self, prompt: ResolvedPromptView, content: Seq<char>) -> bool {
        true
    }

    fn role(&self) -> (r: EngineRole)
        ensures
            r == self.engine_role(),
    ;

    /// The engine may fail on `prompt` with `error`; an engine that does
    /// not say may fail with anything.
    open spec fn fails(&self, prompt: ResolvedPromptView, error: AppError) -> bool {
        true
    }

    fn run(&self, prompt: ResolvedPrompt) -> (r: Result<EngineOutput, AppError>)
        ensures
            r matches Ok(o) ==> self.answers(prompt@, o.content@),
            r matches Err(e) ==> self.fails(prompt@, e),
    ;
}

/// The engine of `role` in `pool` may answer `prompt` with `content`.
pub open spec fn pool_answers<E: Engine>(pool: EnginePool<E>, role: EngineRole, prompt: ResolvedPromptView, content: Seq<char>) -> bool {
    engine_index(pool.roles(), role) matches Some(i) && pool.engines()[i].answers(prompt, content)
}

/// An engine's outcome with the answer's text.
pub open spec fn output_view(r: Result<EngineOutput, AppError>) -> Result<Seq<char>, AppError> {
    match r {
        Ok(o) => Ok(o.content@),
        Err(e) => Err(e),
    }
}

/// Running `role` in `pool` on `prompt` may end with `out`: what the
/// role's engine may answer or fail with, or, for a role without an
/// engine, the model error naming the role.
pub open spec fn pool_gives<E: Engine>(pool: EnginePool<E>, role: EngineRole, prompt: ResolvedPromptView, out: Result<Seq<char>, AppError>) -> bool {
    match engine_index(pool.roles(), role) {
        None => out matches Err(e) && e.code == ErrorCode::EngineError && e.category == ErrorCategory::ModelError
            && e.message@ == no_engine_message(role),
        Some(i) => match out {
            Ok(c) => pool.engines()[i].answers(prompt, c),
            Err(e) => pool.engines()[i].fails(prompt, e),
        },
    }
}

/// The position of the engine of `role` among `roles`: the last one
/// registered for it.
pub open spec fn engine_index(roles: Seq<EngineRole>, role: EngineRole) -> Option<int>
    decreases roles.len(),
{
    if roles.len() == 0 {
        None
    } else if roles.last() == role {
        Some(roles.len() - 1)
    } else {
        engine_index(roles.drop_last(), role)
    }
}

/// `"no engine registered for role {role:?}"`.
pub open spec fn no_engine_message(role: EngineRole) -> Seq<char> {
    "no engine registered for role "@ + role_label(role)
}

/// Engines by role; a later engine for a role replaces an earlier one.
/// Each engine's role is read once, when the pool is made.
pub struct EnginePool<E: Engine> {
    engines: Vec<Arc<E>>,
    roles: Vec<EngineRole>,
}

impl<E: Engine> EnginePool<E> {
    #[verifier::type_invariant]
    spec fn paired(&self) -> bool {
        self.roles.len() == self.engines.len()
    }

    /// The roles of the registered engines, in registration order, as
    /// each engine reported it.
    pub closed spec fn roles(&self) -> Seq<EngineRole> {
        self.roles@
    }

    /// The registered engines, in registration order.
    pub closed spec fn engines(&self) -> Seq<Arc<E>> {
        self.engines@
    }

    pub fn new(engines: Vec<Arc<E>>) -> (r: Self)
        ensures
            r.engines() == engines@,
            r.roles().len() == engines@.len(),
            forall|i: int| 0 <= i < engines@.len() ==> #[trigger] r.roles()[i] == engines@[i].engine_role(),
    {
        let mut roles: Vec<EngineRole> = Vec::new();
        let mut i: usize = 0;
        while i < engines.len()
            invariant
                i <= engines.len(),
                roles.len() == i,
                forall|k: int| 0 <= k < i ==> #[trigger] roles@[k] == engines@[k].engine_role(),
            decreases engines.len() - i,
        {
            roles.push(engines[i].role());
            i = i + 1;
        }
        EnginePool { engines, roles }
    }

    fn position(&self, role: EngineRole) -> (r: Option<usize>)
        ensures
            match r {
                Some(i) => engine_index(self.roles(), role) == Some(i as int) && i < self.engines@.len(),
                None => engine_index(self.roles(), role) is None,
            },
    {
        proof {
            use_type_invariant(self);
        }
        let mut i: usize = self.roles.len();
        assert(self.roles().take(i as int) =~= self.roles());
        while i > 0
            invariant
                i <= self.roles.len(),
                self.roles.len() == self.engines.len(),
                engine_index(self.roles(), role) == engine_index(self.roles().take(i as int), role),
            decreases i,
        {
            let ghost t = self.roles().take(i as int);
            assert(t.last() == self.roles@[i - 1]);
            if self.roles[i - 1] == role {
                return Some(i - 1);
            }
            assert(t.drop_last() =~= self.roles().take(i - 1));
            i = i - 1;
        }
        None
    }

    /// The engine of `role`; a role with no engine is a model error.
    pub fn get(&self, role: EngineRole) -> (r: Result<&Arc<E>, AppError>)
        ensures
            match r {
                Ok(e) => engine_index(self.roles(), role) matches Some(i) && *e == self.engines()[i],
                Err(e) => engine_index(self.roles(), role) is None && e.code == ErrorCode::EngineError && e.category
                    == ErrorCategory::ModelError && e.message@ == no_engine_message(role),
            },
    {
        match self.position(role) {
            Some(i) => Ok(&self.engines[i]),
            None => {
                let mut m: Vec<char> = Vec::new();
                push_str(&mut m, "no engine registered for role ");
                push_str(&mut m, role_to_label(role));
                Err(AppError::model(string_from_chars(m.as_slice())))
            },
        }
    }

    /// Whether an engine is registered for `role`.
    pub fn has_role(&self, role: EngineRole) -> (r: bool)
        ensures
            r == engine_index(self.roles(), role) is Some,
    {
        self.position(role).is_some()
    }

    /// Runs `prompt` on the engine of `role`; a role with no engine is a
    /// model error, never a panic.
    pub fn run_role(&self, role: EngineRole, prompt: ResolvedPrompt) -> (r: Result<EngineOutput, AppError>)
        ensures
            engine_index(self.roles(), role) is None ==> (r matches Err(e) && e.code
                == ErrorCode::EngineError && e.category == ErrorCategory::ModelError && e.message@
                == no_engine_message(role)),
            r matches Ok(o) ==> pool_answers(*self, role, prompt@, o.content@),
            pool_gives(*self, role, prompt@, output_view(r)),
    {
        match self.position(role) {
            Some(i) => self.engines[i].run(prompt),
            None => {
                let mut m: Vec<char> = Vec::new();
                push_str(&mut m, "no engine registered for role ");
                push_str(&mut m, role_to_label(role));
                Err(AppError::model(string_from_chars(m.as_slice())))
            },
        }
    }
}

/// Step-by-step explanation, answered by the Reasoning engine.
pub fn explain_step_by_step<E: Engine>(pool: &EnginePool<E>, grounded_prompt: ResolvedPrompt) -> (r: Result<
    EngineOutput,
    AppError,
>)
    ensures
        engine_index(pool.roles(), EngineRole::Reasoning) is None ==> (r matches Err(e) && e.message@
            == no_engine_message(EngineRole::Reasoning)),
        r matches Ok(o) ==> pool_answers(*pool, EngineRole::Reasoning, grounded_prompt@, o.content@),
        pool_gives(*pool, EngineRole::Reasoning, grounded_prompt@, output_view(r)),
{
    pool.run_role(EngineRole::Reasoning, grounded_prompt)
}

/// Math problems are reasoning tasks: answered by the Reasoning engine.
pub fn solve_math_problem<E: Engine>(pool: &EnginePool<E>, problem_prompt: ResolvedPrompt) -> (r: Result<
    EngineOutput,
    AppError,
>)
    ensures
        engine_index(pool.roles(), EngineRole::Reasoning) is None ==> (r matches Err(e) && e.message@
            == no_engine_message(EngineRole::Reasoning)),
        r matches Ok(o) ==> pool_answers(*pool, EngineRole::Reasoning, problem_prompt@, o.content@),
        pool_gives(*pool, EngineRole::Reasoning, problem_prompt@, output_view(r)),
{
    pool.run_role(EngineRole::Reasoning, problem_prompt)
}

/// The retry prompt after a response failed to parse with `error`: the
/// original text, a separator, and an instruction naming the error.
pub open spec fn corrective_content(original: Seq<char>, error: Seq<char>) -> Seq<char> {
    original + "\n\n---\n\nCORRECTION REQUIRED\n\nYour previous response could not be parsed: "@
        + error
        + "\nReturn ONLY the corrected JSON object, no markdown code fences, no commentary."@
}

/// The prompt sent when a structured response failed to parse: the
/// original content with a correction request naming `error`, and the
/// original images.
pub fn corrective_prompt(original: &ResolvedPrompt, error: &str) -> (r: ResolvedPrompt)
    ensures
        r@.content == corrective_content(original@.content, error@),
        r@.images == original@.images,
{
    let mut m: Vec<char> = Vec::new();
    push_str(&mut m, original.content.as_str());
    push_str(&mut m, "\n\n---\n\nCORRECTION REQUIRED\n\nYour previous response could not be parsed: ");
    push_str(&mut m, error);
    push_str(&mut m, "\nReturn ONLY the corrected JSON object, no markdown code fences, no commentary.");
    let images = match &original.images {
        Some(v) => Some(crate::records::duplicate_strings(v)),
        None => None,
    };
    ResolvedPrompt { content: string_from_chars(m.as_slice()), images }
}

/// `asked` is `original`, or the corrective prompt sent after an answer to
/// `original` failed to parse.
pub open spec fn asked_for(original: ResolvedPromptView, asked: ResolvedPromptView) -> bool {
    ||| asked == original
    ||| asked.images == original.images && exists|error: Seq<char>| asked.content == #[trigger] corrective_content(
        original.content,
        error,
    )
}

/// The prompt asked again after an answer to `prompt` failed to read with
/// `error`.
pub open spec fn retry_view(prompt: ResolvedPromptView, error: Seq<char>) -> ResolvedPromptView {
    ResolvedPromptView { content: corrective_content(prompt.content, error), images: prompt.images }
}

/// What a structured generation of `role` on `prompt` may end with, its
/// answers read by `read`: the engine is asked; an engine error is the
/// result; an answer that reads is the result; otherwise the engine is
/// asked exactly once more with the corrective prompt naming the reading
/// error, and the result is that answer's engine error, its reading, or
/// the error of reading it.
pub open spec fn structured_result<E: Engine, V>(
    pool: EnginePool<E>,
    role: EngineRole,
    prompt: ResolvedPromptView,
    read: spec_fn(Seq<char>) -> Result<V, Seq<char>>,
    r: Result<V, AppError>,
) -> bool {
    exists|a1: Result<Seq<char>, AppError>|
        #[trigger] pool_gives(pool, role, prompt, a1) && match a1 {
            Err(e) => r == Err::<V, AppError>(e),
            Ok(raw1) => match read(raw1) {
                Ok(v) => r == Ok::<V, AppError>(v),
                Err(m1) => exists|a2: Result<Seq<char>, AppError>|
                    #[trigger] pool_gives(pool, role, retry_view(prompt, m1), a2) && match a2 {
                        Err(e) => r == Err::<V, AppError>(e),
                        Ok(raw2) => match read(raw2) {
                            Ok(v) => r == Ok::<V, AppError>(v),
                            Err(m2) => r matches Err(e) && is_study_error(e, m2),
                        },
                    },
            },
        }
}

/// A result with its value by `view`.
pub open spec fn result_view<T, V>(r: Result<T, AppError>, view: spec_fn(T) -> V) -> Result<V, AppError> {
    match r {
        Ok(t) => Ok(view(t)),
        Err(e) => Err(e),
    }
}

/// Runs `role`, parses the answer with `parse`, and, only when parsing or
/// validation fails, asks once more with a corrective prompt. An engine
/// failure is returned as it is, without a retry.
fn generate_structured<E: Engine, T, F: Fn(&str) -> Result<T, AppError>, V>(
    pool: &EnginePool<E>,
    role: EngineRole,
    prompt: ResolvedPrompt,
    parse: F,
    Ghost(valid): Ghost<spec_fn(Seq<char>, T) -> bool>,
    Ghost(read): Ghost<spec_fn(Seq<char>) -> Result<V, Seq<char>>>,
    Ghost(view): Ghost<spec_fn(T) -> V>,
) -> (r: Result<T, AppError>)
    requires
        forall|s: &str| #[trigger] parse.requires((s,)),
        forall|s: &str, o: Result<T, AppError>| parse.ensures((s,), o) ==> (o matches Ok(t) ==> valid(s@, t)),
        forall|s: &str, o: Result<T, AppError>|
            #[trigger] parse.ensures((s,), o) ==> match (o, read(s@)) {
                (Ok(t), Ok(v)) => view(t) == v,
                (Err(e), Err(m)) => is_study_error(e, m),
                _ => false,
            },
    ensures
        r matches Ok(t) ==> exists|asked: ResolvedPromptView, raw: Seq<char>|
            #![trigger valid(raw, t), pool_answers(*pool, role, asked, raw)]
            valid(raw, t) && pool_answers(*pool, role, asked, raw) && asked_for(prompt@, asked),
        engine_index(pool.roles(), role) is None ==> (r matches Err(e) && e.message@ == no_engine_message(role)),
        structured_result(*pool, role, prompt@, read, result_view(r, view)),
{
    let retry_base = prompt.duplicate();
    let ghost original = prompt@;
    let first = pool.run_role(role, prompt);
    let ghost a1 = output_view(first);
    let output = match first {
        Ok(o) => o,
        Err(e) => {
            assert(pool_gives(*pool, role, original, a1));
            return Err(e);
        },
    };
    let text = output.content.as_str();
    match parse(text) {
        Ok(parsed) => {
            assert(valid(text@, parsed) && pool_answers(*pool, role, original, text@) && asked_for(original, original));
            assert(pool_gives(*pool, role, original, a1));
            Ok(parsed)
        },
        Err(first_err) => {
            let retry_prompt = corrective_prompt(&retry_base, first_err.message.as_str());
            let ghost asked = retry_prompt@;
            assert(asked == retry_view(original, first_err.message@));
            let second_run = pool.run_role(role, retry_prompt);
            let ghost a2 = output_view(second_run);
            assert(pool_gives(*pool, role, original, a1));
            assert(pool_gives(*pool, role, retry_view(original, first_err.message@), a2));
            let retry_output = match second_run {
                Ok(o) => o,
                Err(e) => {
                    return Err(e);
                },
            };
            let retry_text = retry_output.content.as_str();
            let second = parse(retry_text);
            if let Ok(parsed) = &second {
                assert(asked.content == corrective_content(original.content, first_err.message@));
                assert(valid(retry_text@, *parsed) && pool_answers(*pool, role, asked, retry_text@));
            }
            second
        },
    }
}

/// The quiz read from the model output `raw`, valid.
pub open spec fn quiz_read_from(raw: Seq<char>, q: GeneratedQuiz) -> bool {
    quiz_outcome(raw) == Ok::<_, Seq<char>>(q@) && quiz_is_valid(q@)
}

/// The flashcard set read from the model output `raw`, valid.
pub open spec fn flashcards_read_from(raw: Seq<char>, s: GeneratedFlashcardSet) -> bool {
    flashcard_outcome(raw) == Ok::<_, Seq<char>>(s@) && flashcard_set_is_valid(s@)
}

/// The revision plan read from the model output `raw`, valid.
pub open spec fn plan_read_from(raw: Seq<char>, p: GeneratedRevisionPlan) -> bool {
    revision_plan_outcome(raw) == Ok::<_, Seq<char>>(p@) && revision_plan_is_valid(p@)
}

pub open spec fn valid_quiz() -> spec_fn(Seq<char>, GeneratedQuiz) -> bool {
    |raw: Seq<char>, q: GeneratedQuiz| quiz_read_from(raw, q)
}

pub open spec fn valid_flashcards() -> spec_fn(Seq<char>, GeneratedFlashcardSet) -> bool {
    |raw: Seq<char>, s: GeneratedFlashcardSet| flashcards_read_from(raw, s)
}

pub open spec fn valid_plan() -> spec_fn(Seq<char>, GeneratedRevisionPlan) -> bool {
    |raw: Seq<char>, p: GeneratedRevisionPlan| plan_read_from(raw, p)
}

/// A quiz from the Reasoning engine; only a quiz that passed validation is
/// returned.
pub fn generate_quiz<E: Engine>(pool: &EnginePool<E>, quiz_prompt: ResolvedPrompt) -> (r: Result<GeneratedQuiz, AppError>)
    ensures
        r matches Ok(q) ==> quiz_is_valid(q@) && exists|asked: ResolvedPromptView, raw: Seq<char>|
            #![trigger quiz_read_from(raw, q), pool_answers(*pool, EngineRole::Reasoning, asked, raw)]
            quiz_read_from(raw, q) && pool_answers(*pool, EngineRole::Reasoning, asked, raw) && asked_for(
                quiz_prompt@,
                asked,
            ),
        engine_index(pool.roles(), EngineRole::Reasoning) is None ==> (r matches Err(e) && e.message@
            == no_engine_message(EngineRole::Reasoning)),
        structured_result(
            *pool,
            EngineRole::Reasoning,
            quiz_prompt@,
            |raw: Seq<char>| quiz_outcome(raw),
            result_view(r, |g: GeneratedQuiz| g@),
        ),
{
    generate_structured::<E, GeneratedQuiz, _, GeneratedQuizView>(
        pool,
        EngineRole::Reasoning,
        quiz_prompt,
        parse_quiz_response,
        Ghost(valid_quiz()),
        Ghost(|raw: Seq<char>| quiz_outcome(raw)),
        Ghost(|g: GeneratedQuiz| g@),
    )
}

/// A flashcard set from the Tutor engine; only a set that passed
/// validation is returned.
pub fn generate_flashcards<E: Engine>(pool: &EnginePool<E>, flashcard_prompt: ResolvedPrompt) -> (r: Result<
    GeneratedFlashcardSet,
    AppError,
>)
    ensures
        r matches Ok(s) ==> flashcard_set_is_valid(s@) && exists|asked: ResolvedPromptView, raw: Seq<char>|
            #![trigger flashcards_read_from(raw, s), pool_answers(*pool, EngineRole::Tutor, asked, raw)]
            flashcards_read_from(raw, s) && pool_answers(*pool, EngineRole::Tutor, asked, raw) && asked_for(
                flashcard_prompt@,
                asked,
            ),
        engine_index(pool.roles(), EngineRole::Tutor) is None ==> (r matches Err(e) && e.message@
            == no_engine_message(EngineRole::Tutor)),
        structured_result(
            *pool,
            EngineRole::Tutor,
            flashcard_prompt@,
            |raw: Seq<char>| flashcard_outcome(raw),
            result_view(r, |g: GeneratedFlashcardSet| g@),
        ),
{
    generate_structured::<E, GeneratedFlashcardSet, _, GeneratedFlashcardSetView>(
        pool,
        EngineRole::Tutor,
        flashcard_prompt,
        parse_flashcard_response,
        Ghost(valid_flashcards()),
        Ghost(|raw: Seq<char>| flashcard_outcome(raw)),
        Ghost(|g: GeneratedFlashcardSet| g@),
    )
}

/// A revision plan from the Planner engine; only a plan that passed
/// validation is returned.
pub fn generate_revision_plan<E: Engine>(pool: &EnginePool<E>, revision_prompt: ResolvedPrompt) -> (r: Result<
    GeneratedRevisionPlan,
    AppError,
>)
    ensures
        r matches Ok(p) ==> revision_plan_is_valid(p@) && exists|asked: ResolvedPromptView, raw: Seq<char>|
            #![trigger plan_read_from(raw, p), pool_answers(*pool, EngineRole::Planner, asked, raw)]
            plan_read_from(raw, p) && pool_answers(*pool, EngineRole::Planner, asked, raw) && asked_for(
                revision_prompt@,
                asked,
            ),
        engine_index(pool.roles(), EngineRole::Planner) is None ==> (r matches Err(e) && e.message@
            == no_engine_message(EngineRole::Planner)),
        structured_result(
            *pool,
            EngineRole::Planner,
            revision_prompt@,
            |raw: Seq<char>| revision_plan_outcome(raw),
            result_view(r, |g: GeneratedRevisionPlan| g@),
        ),
{
    generate_structured::<E, GeneratedRevisionPlan, _, Seq<RevisionPlanItemView>>(
        pool,
        EngineRole::Planner,
        revision_prompt,
        parse_revision_plan_response,
        Ghost(valid_plan()),
        Ghost(|raw: Seq<char>| revision_plan_outcome(raw)),
        Ghost(|g: GeneratedRevisionPlan| g@),
    )
}

} // verus!

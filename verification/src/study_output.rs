//! Parsing and validation of the structured JSON a model returns for the
//! study features (quiz, flashcards, revision plan). Malformed JSON and
//! well-formed JSON that breaks the contract are both rejected with a
//! recoverable validation error; nothing unusable is passed through.
use vstd::prelude::*;

use crate::error::{AppError, ErrorCategory, ErrorCode};
use crate::json::{all_parsed, as_text, as_text_list, decode_json, get_field, json_decode, member_value, opt_text, opt_text_of, parse_all, text_list_of, text_list_or_empty, text_list_or_empty_of, text_of, JsonValue, as_u32, u32_of};
use crate::memory::{Flashcard, FlashcardView, QuizQuestion, QuizQuestionView, RevisionPlanItem, RevisionPlanItemView};
use crate::records::{string_views, views, Record};
use crate::text::{chars_end_with, chars_of, chars_start_with, decimal, ends_with, find_char, first_index_of, is_blank, is_blank_str, push_decimal, push_str, slice_chars, starts_with, string_from_chars, trim, trim_chars};

verus! {

// ---------------------------------------------------------------------
// Code fences
// ---------------------------------------------------------------------

pub open spec fn fence() -> Seq<char> {
    seq!['`', '`', '`']
}

/// `raw` without surrounding whitespace and, when it opens with a markdown
/// code fence, without the fence line (including any language tag) and the
/// closing fence.
pub open spec fn fence_stripped(raw: Seq<char>) -> Seq<char> {
    let t = trim(raw);
    if starts_with(t, fence()) {
        let a = t.skip(3);
        let b = match first_index_of(a, '\n') {
            Some(i) => a.skip(i + 1),
            None => a,
        };
        let c = if ends_with(b, fence()) {
            b.take(b.len() - 3)
        } else {
            b
        };
        trim(c)
    } else {
        t
    }
}

pub(crate) fn fence_chars() -> (r: Vec<char>)
    ensures
        r@ == fence(),
{
    let mut r: Vec<char> = Vec::new();
    r.push('`');
    r.push('`');
    r.push('`');
    assert(r@ =~= fence());
    r
}

/// Removes a markdown code fence wrapped around model output.
pub fn strip_code_fence(raw: &str) -> (r: String)
    ensures
        r@ == fence_stripped(raw@),
{
    let v = chars_of(raw);
    let t = trim_chars(&v);
    let f = fence_chars();
    if !chars_start_with(&t, &f) {
        return string_from_chars(t.as_slice());
    }
    let a = slice_chars(&t, 3, t.len());
    assert(a@ =~= t@.skip(3));
    let b = match find_char(&a, '\n') {
        Some(i) => {
            let b = slice_chars(&a, i + 1, a.len());
            assert(b@ =~= a@.skip(i + 1));
            b
        },
        None => a,
    };
    let c = if chars_end_with(&b, &f) {
        let c = slice_chars(&b, 0, b.len() - 3);
        assert(c@ =~= b@.take(b@.len() - 3));
        c
    } else {
        b
    };
    let d = trim_chars(&c);
    string_from_chars(d.as_slice())
}

// ---------------------------------------------------------------------
// Outcomes and messages
// ---------------------------------------------------------------------

/// `"failed to parse {what} model output: {detail}"`.
pub open spec fn parse_message(what: Seq<char>, detail: Seq<char>) -> Seq<char> {
    "failed to parse "@ + what + " model output: "@ + detail
}

/// `"invalid {what} model output: {detail}"`.
pub open spec fn invalid_message(what: Seq<char>, detail: Seq<char>) -> Seq<char> {
    "invalid "@ + what + " model output: "@ + detail
}

/// The detail given when decoded JSON does not have the expected shape.
pub open spec fn shape_detail() -> Seq<char> {
    "the JSON does not have the expected fields and types"@
}

fn message(lead: &str, what: &str, mid: &str, detail: &Vec<char>) -> (r: String)
    ensures
        r@ == lead@ + what@ + mid@ + detail@,
{
    let mut m: Vec<char> = Vec::new();
    push_str(&mut m, lead);
    push_str(&mut m, what);
    push_str(&mut m, mid);
    let mut d = detail.clone();
    m.append(&mut d);
    assert(m@ =~= lead@ + what@ + mid@ + detail@);
    string_from_chars(m.as_slice())
}

/// The recoverable validation error every study parser reports.
pub open spec fn is_study_error(e: AppError, msg: Seq<char>) -> bool {
    &&& e.code == ErrorCode::ValidationError
    &&& e.category == ErrorCategory::Recoverable
    &&& e.message@ == msg
}

fn study_error(message: String) -> (e: AppError)
    ensures
        is_study_error(e, message@),
{
    AppError::new(ErrorCode::ValidationError, ErrorCategory::Recoverable, message)
}

/// Detail naming item `idx` of a list: `"{noun} {idx}{tail}"`.
pub open spec fn item_detail(noun: Seq<char>, idx: nat, tail: Seq<char>) -> Seq<char> {
    noun + " "@ + decimal(idx) + tail
}

fn item_detail_chars(noun: &str, idx: usize, tail: &str) -> (r: Vec<char>)
    ensures
        r@ == item_detail(noun@, idx as nat, tail@),
{
    let mut d: Vec<char> = Vec::new();
    push_str(&mut d, noun);
    push_str(&mut d, " ");
    push_decimal(&mut d, idx as u64);
    push_str(&mut d, tail);
    d
}

fn text_chars(s: &str) -> (r: Vec<char>)
    ensures
        r@ == s@,
{
    chars_of(s)
}

// ---------------------------------------------------------------------
// Quiz
// ---------------------------------------------------------------------

/// A quiz as the model returned it, before validation.
pub struct RawQuiz {
    pub topic: String,
    pub questions: Vec<QuizQuestion>,
}

/// A parsed and validated quiz, prior to persistence.
#[derive(Debug, Clone, PartialEq)]
pub struct GeneratedQuiz {
    pub topic: String,
    pub questions: Vec<QuizQuestion>,
}

pub ghost struct GeneratedQuizView {
    pub topic: Seq<char>,
    pub questions: Seq<QuizQuestionView>,
}

impl View for RawQuiz {
    type V = GeneratedQuizView;

    open spec fn view(&self) -> GeneratedQuizView {
        GeneratedQuizView { topic: self.topic@, questions: views(self.questions@) }
    }
}

impl View for GeneratedQuiz {
    type V = GeneratedQuizView;

    open spec fn view(&self) -> GeneratedQuizView {
        GeneratedQuizView { topic: self.topic@, questions: views(self.questions@) }
    }
}

pub open spec fn make_question(
    q: Option<Seq<char>>,
    o: Option<Seq<Seq<char>>>,
    a: Option<Seq<char>>,
    c: Option<Seq<Seq<char>>>,
) -> Option<QuizQuestionView> {
    match (q, o, a, c) {
        (Some(q), Some(o), Some(a), Some(c)) => Some(
            QuizQuestionView { question: q, options: o, correct_answer: a, source_citations: c },
        ),
        _ => None,
    }
}

/// One question as `serde` reads it: an object with `question`, `options`,
/// `correct_answer` and optional `source_citations`, or the same fields as
/// an array of three or four elements.
pub open spec fn question_from_json(v: JsonValue) -> Option<QuizQuestionView> {
    match v {
        JsonValue::Object(m) => make_question(
            opt_text(member_value(m@, "question"@)),
            match member_value(m@, "options"@) {
                Some(x) => as_text_list(x),
                None => None,
            },
            opt_text(member_value(m@, "correct_answer"@)),
            text_list_or_empty(member_value(m@, "source_citations"@)),
        ),
        JsonValue::Array(items) => if 3 <= items@.len() <= 4 {
            make_question(
                as_text(items@[0]),
                as_text_list(items@[1]),
                as_text(items@[2]),
                if items@.len() == 4 {
                    as_text_list(items@[3])
                } else {
                    Some(Seq::empty())
                },
            )
        } else {
            None
        },
        _ => None,
    }
}

pub open spec fn question_parser() -> spec_fn(JsonValue) -> Option<QuizQuestionView> {
    |v: JsonValue| question_from_json(v)
}

pub open spec fn questions_of(v: JsonValue) -> Option<Seq<QuizQuestionView>> {
    match v {
        JsonValue::Array(items) => all_parsed(items@, question_parser()),
        _ => None,
    }
}

/// A quiz as `serde` reads it: `{"topic", "questions"}` or `[topic, questions]`.
pub open spec fn quiz_from_json(v: JsonValue) -> Option<GeneratedQuizView> {
    match v {
        JsonValue::Object(m) => match (
            opt_text(member_value(m@, "topic"@)),
            match member_value(m@, "questions"@) {
                Some(x) => questions_of(x),
                None => None,
            },
        ) {
            (Some(t), Some(q)) => Some(GeneratedQuizView { topic: t, questions: q }),
            _ => None,
        },
        JsonValue::Array(items) => if items@.len() == 2 {
            match (as_text(items@[0]), questions_of(items@[1])) {
                (Some(t), Some(q)) => Some(GeneratedQuizView { topic: t, questions: q }),
                _ => None,
            }
        } else {
            None
        },
        _ => None,
    }
}

pub(crate) fn make_question_exec(
    q: Option<String>,
    o: Option<Vec<String>>,
    a: Option<String>,
    c: Option<Vec<String>>,
) -> (r: Option<QuizQuestion>)
    ensures
        match r {
            Some(x) => make_question(
                match q { Some(s) => Some(s@), None => None },
                match o { Some(l) => Some(string_views(l@)), None => None },
                match a { Some(s) => Some(s@), None => None },
                match c { Some(l) => Some(string_views(l@)), None => None },
            ) == Some(x@),
            None => make_question(
                match q { Some(s) => Some(s@), None => None },
                match o { Some(l) => Some(string_views(l@)), None => None },
                match a { Some(s) => Some(s@), None => None },
                match c { Some(l) => Some(string_views(l@)), None => None },
            ) is None,
        },
{
    match (q, o, a, c) {
        (Some(q), Some(o), Some(a), Some(c)) => Some(
            QuizQuestion { question: q, options: o, correct_answer: a, source_citations: c },
        ),
        _ => None,
    }
}

fn question_from_json_exec(v: &JsonValue) -> (r: Option<QuizQuestion>)
    ensures
        match r {
            Some(x) => question_from_json(*v) == Some(x@),
            None => question_from_json(*v) is None,
        },
{
    match v {
        JsonValue::Object(_) => {
            let q = opt_text_of(get_field(v, "question"));
            let o = match get_field(v, "options") {
                Some(x) => text_list_of(x),
                None => None,
            };
            let a = opt_text_of(get_field(v, "correct_answer"));
            let c = text_list_or_empty_of(get_field(v, "source_citations"));
            make_question_exec(q, o, a, c)
        },
        JsonValue::Array(items) => {
            if 3 <= items.len() && items.len() <= 4 {
                let c = if items.len() == 4 {
                    text_list_of(&items[3])
                } else {
                    let l: Vec<String> = Vec::new();
                    assert(string_views(l@) =~= Seq::<Seq<char>>::empty());
                    Some(l)
                };
                make_question_exec(text_of(&items[0]), text_list_of(&items[1]), text_of(&items[2]), c)
            } else {
                None
            }
        },
        _ => None,
    }
}

fn questions_of_exec(v: &JsonValue) -> (r: Option<Vec<QuizQuestion>>)
    ensures
        match r {
            Some(l) => questions_of(*v) == Some(views(l@)),
            None => questions_of(*v) is None,
        },
{
    match v {
        JsonValue::Array(items) => parse_all(
            items,
            question_from_json_exec,
            Ghost(question_parser()),
        ),
        _ => None,
    }
}

fn quiz_from_json_exec(v: &JsonValue) -> (r: Option<RawQuiz>)
    ensures
        match r {
            Some(x) => quiz_from_json(*v) == Some(x@),
            None => quiz_from_json(*v) is None,
        },
{
    match v {
        JsonValue::Object(_) => {
            let t = opt_text_of(get_field(v, "topic"));
            let q = match get_field(v, "questions") {
                Some(x) => questions_of_exec(x),
                None => None,
            };
            match (t, q) {
                (Some(t), Some(q)) => Some(RawQuiz { topic: t, questions: q }),
                _ => None,
            }
        },
        JsonValue::Array(items) => {
            if items.len() == 2 {
                match (text_of(&items[0]), questions_of_exec(&items[1])) {
                    (Some(t), Some(q)) => Some(RawQuiz { topic: t, questions: q }),
                    _ => None,
                }
            } else {
                None
            }
        },
        _ => None,
    }
}

/// Why question `idx` is unusable, if it is.
pub open spec fn question_problem(q: QuizQuestionView, idx: nat) -> Option<Seq<char>> {
    if is_blank(q.question) {
        Some(item_detail("question"@, idx, " has empty text"@))
    } else if q.options.len() < 2 {
        Some(item_detail("question"@, idx, " has fewer than 2 options"@))
    } else if !q.options.contains(q.correct_answer) {
        Some(item_detail("question"@, idx, "'s correct_answer is not among its own options"@))
    } else {
        None
    }
}

/// The problem of the first unusable question at or after `k`.
pub open spec fn questions_problem(qs: Seq<QuizQuestionView>, k: nat) -> Option<Seq<char>>
    decreases qs.len() - k,
{
    if k >= qs.len() {
        None
    } else {
        match question_problem(qs[k as int], k) {
            Some(d) => Some(d),
            None => questions_problem(qs, k + 1),
        }
    }
}

/// Why a quiz is rejected, if it is.
pub open spec fn quiz_problem(q: GeneratedQuizView) -> Option<Seq<char>> {
    if is_blank(q.topic) {
        Some("topic is empty"@)
    } else if q.questions.len() == 0 {
        Some("questions array is empty"@)
    } else {
        questions_problem(q.questions, 0)
    }
}

/// A usable question: non-blank text, at least two options, and an answer
/// that is one of them verbatim.
pub open spec fn question_is_valid(q: QuizQuestionView) -> bool {
    &&& !is_blank(q.question)
    &&& q.options.len() >= 2
    &&& q.options.contains(q.correct_answer)
}

/// A usable quiz: non-blank topic and at least one question, all usable.
pub open spec fn quiz_is_valid(q: GeneratedQuizView) -> bool {
    &&& !is_blank(q.topic)
    &&& q.questions.len() > 0
    &&& forall|i: int| 0 <= i < q.questions.len() ==> question_is_valid(#[trigger] q.questions[i])
}

proof fn lemma_questions_problem_none(qs: Seq<QuizQuestionView>, k: nat)
    requires
        questions_problem(qs, k) is None,
    ensures
        forall|i: int| k <= i < qs.len() ==> question_is_valid(#[trigger] qs[i]),
    decreases qs.len() - k,
{
    if k < qs.len() {
        lemma_questions_problem_none(qs, k + 1);
    }
}

proof fn lemma_questions_problem_valid(qs: Seq<QuizQuestionView>, k: nat)
    requires
        forall|i: int| k <= i < qs.len() ==> question_is_valid(#[trigger] qs[i]),
    ensures
        questions_problem(qs, k) is None,
    decreases qs.len() - k,
{
    if k < qs.len() {
        assert(question_is_valid(qs[k as int]));
        lemma_questions_problem_valid(qs, k + 1);
    }
}

/// A question is rejected exactly when it breaks a rule: its text is
/// blank, it has fewer than two options, or its correct answer is not one
/// of its options. Nothing else about a question, such as where its
/// answer stands among the options, makes it rejected.
pub proof fn law_question_rejected_iff_it_breaks_a_rule(q: QuizQuestionView, idx: nat)
    ensures
        question_problem(q, idx) is None <==> (!is_blank(q.question) && q.options.len() >= 2
            && q.options.contains(q.correct_answer)),
{
}

/// A quiz is accepted exactly when its topic is not blank, it has at least
/// one question, and every question has text, at least two options and a
/// correct answer among its options.
pub proof fn law_quiz_accepted_iff_valid(q: GeneratedQuizView)
    ensures
        quiz_problem(q) is None <==> (!is_blank(q.topic) && q.questions.len() > 0 && forall|i: int|
            0 <= i < q.questions.len() ==> !is_blank(#[trigger] q.questions[i].question)
                && q.questions[i].options.len() >= 2 && q.questions[i].options.contains(
                q.questions[i].correct_answer,
            )),
{
    if quiz_problem(q) is None {
        lemma_questions_problem_none(q.questions, 0);
        assert forall|i: int| 0 <= i < q.questions.len() implies !is_blank(#[trigger] q.questions[i].question)
            && q.questions[i].options.len() >= 2 && q.questions[i].options.contains(
            q.questions[i].correct_answer,
        ) by {
            assert(question_is_valid(q.questions[i]));
        }
    }
    if !is_blank(q.topic) && q.questions.len() > 0 && forall|i: int|
        0 <= i < q.questions.len() ==> !is_blank(#[trigger] q.questions[i].question)
            && q.questions[i].options.len() >= 2 && q.questions[i].options.contains(q.questions[i].correct_answer) {
        assert forall|i: int| 0 <= i < q.questions.len() implies question_is_valid(#[trigger] q.questions[i]) by {
            assert(!is_blank(q.questions[i].question));
        }
        lemma_questions_problem_valid(q.questions, 0);
    }
}

/// Whether `options` holds `answer` verbatim.
fn contains_text(options: &Vec<String>, answer: &String) -> (r: bool)
    ensures
        r == string_views(options@).contains(answer@),
{
    let mut i: usize = 0;
    while i < options.len()
        invariant
            i <= options.len(),
            forall|k: int| 0 <= k < i ==> string_views(options@)[k] != answer@,
        decreases options.len() - i,
    {
        if crate::text::str_eq(options[i].as_str(), answer.as_str()) {
            assert(string_views(options@)[i as int] == answer@);
            return true;
        }
        i = i + 1;
    }
    false
}

/// Checks a raw quiz against the structural contract.
pub fn validate_quiz(raw: RawQuiz) -> (r: Result<GeneratedQuiz, AppError>)
    ensures
        match r {
            Ok(g) => quiz_problem(raw@) is None && g@ == raw@ && quiz_is_valid(g@),
            Err(e) => quiz_problem(raw@) matches Some(d) && is_study_error(
                e,
                invalid_message("quiz"@, d),
            ),
        },
{
    let ghost rv = raw@;
    if is_blank_str(raw.topic.as_str()) {
        return Err(study_error(message("invalid ", "quiz", " model output: ", &text_chars("topic is empty"))));
    }
    if raw.questions.len() == 0 {
        return Err(
            study_error(message("invalid ", "quiz", " model output: ", &text_chars("questions array is empty"))),
        );
    }
    let mut i: usize = 0;
    while i < raw.questions.len()
        invariant
            i <= raw.questions.len(),
            rv == raw@,
            !is_blank(rv.topic),
            rv.questions.len() > 0,
            questions_problem(rv.questions, 0) == questions_problem(rv.questions, i as nat),
        decreases raw.questions.len() - i,
    {
        let q = &raw.questions[i];
        assert(rv.questions[i as int] == q@);
        if is_blank_str(q.question.as_str()) {
            let d = item_detail_chars("question", i, " has empty text");
            assert(questions_problem(rv.questions, i as nat) == Some(d@));
            assert(quiz_problem(rv) == Some(d@));
            return Err(study_error(message("invalid ", "quiz", " model output: ", &d)));
        }
        if q.options.len() < 2 {
            let d = item_detail_chars("question", i, " has fewer than 2 options");
            assert(questions_problem(rv.questions, i as nat) == Some(d@));
            assert(quiz_problem(rv) == Some(d@));
            return Err(study_error(message("invalid ", "quiz", " model output: ", &d)));
        }
        if !contains_text(&q.options, &q.correct_answer) {
            let d = item_detail_chars("question", i, "'s correct_answer is not among its own options");
            assert(questions_problem(rv.questions, i as nat) == Some(d@));
            assert(quiz_problem(rv) == Some(d@));
            return Err(study_error(message("invalid ", "quiz", " model output: ", &d)));
        }
        i = i + 1;
    }
    proof {
        lemma_questions_problem_none(rv.questions, 0);
    }
    Ok(GeneratedQuiz { topic: raw.topic, questions: raw.questions })
}

/// The outcome of parsing a model's quiz response: the validated quiz, or
/// the message of the error reported.
pub open spec fn quiz_outcome(raw: Seq<char>) -> Result<GeneratedQuizView, Seq<char>> {
    match json_decode(fence_stripped(raw)) {
        Err(m) => Err(parse_message("quiz"@, m)),
        Ok(v) => match quiz_from_json(v) {
            None => Err(parse_message("quiz"@, shape_detail())),
            Some(q) => match quiz_problem(q) {
                Some(d) => Err(invalid_message("quiz"@, d)),
                None => Ok(q),
            },
        },
    }
}

/// Parses and validates a model's raw quiz response.
pub fn parse_quiz_response(raw: &str) -> (r: Result<GeneratedQuiz, AppError>)
    ensures
        match (r, quiz_outcome(raw@)) {
            (Ok(g), Ok(q)) => g@ == q && quiz_is_valid(g@),
            (Err(e), Err(m)) => is_study_error(e, m),
            _ => false,
        },
{
    let json = strip_code_fence(raw);
    let value = match decode_json(json.as_str()) {
        Ok(v) => v,
        Err(m) => {
            let d = chars_of(m.as_str());
            return Err(study_error(message("failed to parse ", "quiz", " model output: ", &d)));
        },
    };
    match quiz_from_json_exec(&value) {
        Some(q) => validate_quiz(q),
        None => Err(
            study_error(
                message(
                    "failed to parse ",
                    "quiz",
                    " model output: ",
                    &text_chars("the JSON does not have the expected fields and types"),
                ),
            ),
        ),
    }
}

// ---------------------------------------------------------------------
// Flashcards
// ---------------------------------------------------------------------

/// A flashcard set as the model returned it, before validation.
pub struct RawFlashcardSet {
    pub topic: String,
    pub cards: Vec<Flashcard>,
}

/// A parsed and validated flashcard set, prior to persistence.
#[derive(Debug, Clone, PartialEq)]
pub struct GeneratedFlashcardSet {
    pub topic: String,
    pub cards: Vec<Flashcard>,
}

pub ghost struct GeneratedFlashcardSetView {
    pub topic: Seq<char>,
    pub cards: Seq<FlashcardView>,
}

impl View for RawFlashcardSet {
    type V = GeneratedFlashcardSetView;

    open spec fn view(&self) -> GeneratedFlashcardSetView {
        GeneratedFlashcardSetView { topic: self.topic@, cards: views(self.cards@) }
    }
}

impl View for GeneratedFlashcardSet {
    type V = GeneratedFlashcardSetView;

    open spec fn view(&self) -> GeneratedFlashcardSetView {
        GeneratedFlashcardSetView { topic: self.topic@, cards: views(self.cards@) }
    }
}

/// One card as `serde` reads it: `{"front", "back", "source_citations"?}`
/// or `[front, back]` / `[front, back, citations]`.
pub open spec fn card_from_json(v: JsonValue) -> Option<FlashcardView> {
    match v {
        JsonValue::Object(m) => match (
            opt_text(member_value(m@, "front"@)),
            opt_text(member_value(m@, "back"@)),
            text_list_or_empty(member_value(m@, "source_citations"@)),
        ) {
            (Some(f), Some(b), Some(c)) => Some(
                FlashcardView { front: f, back: b, source_citations: c },
            ),
            _ => None,
        },
        JsonValue::Array(items) => if 2 <= items@.len() <= 3 {
            match (
                as_text(items@[0]),
                as_text(items@[1]),
                if items@.len() == 3 {
                    as_text_list(items@[2])
                } else {
                    Some(Seq::empty())
                },
            ) {
                (Some(f), Some(b), Some(c)) => Some(
                    FlashcardView { front: f, back: b, source_citations: c },
                ),
                _ => None,
            }
        } else {
            None
        },
        _ => None,
    }
}

pub open spec fn card_parser() -> spec_fn(JsonValue) -> Option<FlashcardView> {
    |v: JsonValue| card_from_json(v)
}

pub open spec fn cards_of(v: JsonValue) -> Option<Seq<FlashcardView>> {
    match v {
        JsonValue::Array(items) => all_parsed(items@, card_parser()),
        _ => None,
    }
}

/// A flashcard set as `serde` reads it: `{"topic", "cards"}` or `[topic, cards]`.
pub open spec fn flashcard_set_from_json(v: JsonValue) -> Option<GeneratedFlashcardSetView> {
    match v {
        JsonValue::Object(m) => match (
            opt_text(member_value(m@, "topic"@)),
            match member_value(m@, "cards"@) {
                Some(x) => cards_of(x),
                None => None,
            },
        ) {
            (Some(t), Some(c)) => Some(GeneratedFlashcardSetView { topic: t, cards: c }),
            _ => None,
        },
        JsonValue::Array(items) => if items@.len() == 2 {
            match (as_text(items@[0]), cards_of(items@[1])) {
                (Some(t), Some(c)) => Some(GeneratedFlashcardSetView { topic: t, cards: c }),
                _ => None,
            }
        } else {
            None
        },
        _ => None,
    }
}

pub(crate) fn make_card(f: Option<String>, b: Option<String>, c: Option<Vec<String>>) -> (r: Option<Flashcard>)
    ensures
        match r {
            Some(x) => f is Some && b is Some && c is Some && x.front == f->0 && x.back == b->0
                && x.source_citations == c->0,
            None => f is None || b is None || c is None,
        },
{
    match (f, b, c) {
        (Some(f), Some(b), Some(c)) => Some(Flashcard { front: f, back: b, source_citations: c }),
        _ => None,
    }
}

fn card_from_json_exec(v: &JsonValue) -> (r: Option<Flashcard>)
    ensures
        match r {
            Some(x) => card_from_json(*v) == Some(x@),
            None => card_from_json(*v) is None,
        },
{
    match v {
        JsonValue::Object(_) => {
            let f = opt_text_of(get_field(v, "front"));
            let b = opt_text_of(get_field(v, "back"));
            let c = text_list_or_empty_of(get_field(v, "source_citations"));
            make_card(f, b, c)
        },
        JsonValue::Array(items) => {
            if 2 <= items.len() && items.len() <= 3 {
                let c = if items.len() == 3 {
                    text_list_of(&items[2])
                } else {
                    let l: Vec<String> = Vec::new();
                    assert(string_views(l@) =~= Seq::<Seq<char>>::empty());
                    Some(l)
                };
                make_card(text_of(&items[0]), text_of(&items[1]), c)
            } else {
                None
            }
        },
        _ => None,
    }
}

fn cards_of_exec(v: &JsonValue) -> (r: Option<Vec<Flashcard>>)
    ensures
        match r {
            Some(l) => cards_of(*v) == Some(views(l@)),
            None => cards_of(*v) is None,
        },
{
    match v {
        JsonValue::Array(items) => parse_all(items, card_from_json_exec, Ghost(card_parser())),
        _ => None,
    }
}

fn flashcard_set_from_json_exec(v: &JsonValue) -> (r: Option<RawFlashcardSet>)
    ensures
        match r {
            Some(x) => flashcard_set_from_json(*v) == Some(x@),
            None => flashcard_set_from_json(*v) is None,
        },
{
    match v {
        JsonValue::Object(_) => {
            let t = opt_text_of(get_field(v, "topic"));
            let c = match get_field(v, "cards") {
                Some(x) => cards_of_exec(x),
                None => None,
            };
            match (t, c) {
                (Some(t), Some(c)) => Some(RawFlashcardSet { topic: t, cards: c }),
                _ => None,
            }
        },
        JsonValue::Array(items) => {
            if items.len() == 2 {
                match (text_of(&items[0]), cards_of_exec(&items[1])) {
                    (Some(t), Some(c)) => Some(RawFlashcardSet { topic: t, cards: c }),
                    _ => None,
                }
            } else {
                None
            }
        },
        _ => None,
    }
}

/// The problem of the first card at or after `k` with a blank side.
pub open spec fn cards_problem(cs: Seq<FlashcardView>, k: nat) -> Option<Seq<char>>
    decreases cs.len() - k,
{
    if k >= cs.len() {
        None
    } else if is_blank(cs[k as int].front) || is_blank(cs[k as int].back) {
        Some(item_detail("card"@, k, " has an empty front or back"@))
    } else {
        cards_problem(cs, k + 1)
    }
}

/// Why a flashcard set is rejected, if it is.
pub open spec fn flashcard_set_problem(s: GeneratedFlashcardSetView) -> Option<Seq<char>> {
    if is_blank(s.topic) {
        Some("topic is empty"@)
    } else if s.cards.len() == 0 {
        Some("cards array is empty"@)
    } else {
        cards_problem(s.cards, 0)
    }
}

/// A usable flashcard set: non-blank topic, at least one card, and no card
/// with a blank front or back.
pub open spec fn flashcard_set_is_valid(s: GeneratedFlashcardSetView) -> bool {
    &&& !is_blank(s.topic)
    &&& s.cards.len() > 0
    &&& forall|i: int|
        0 <= i < s.cards.len() ==> !is_blank(#[trigger] s.cards[i].front) && !is_blank(
            s.cards[i].back,
        )
}

proof fn lemma_cards_problem_none(cs: Seq<FlashcardView>, k: nat)
    requires
        cards_problem(cs, k) is None,
    ensures
        forall|i: int|
            k <= i < cs.len() ==> !is_blank(#[trigger] cs[i].front) && !is_blank(cs[i].back),
    decreases cs.len() - k,
{
    if k < cs.len() {
        lemma_cards_problem_none(cs, k + 1);
    }
}

/// Checks a raw flashcard set against the structural contract.
pub fn validate_flashcards(raw: RawFlashcardSet) -> (r: Result<GeneratedFlashcardSet, AppError>)
    ensures
        match r {
            Ok(g) => flashcard_set_problem(raw@) is None && g@ == raw@ && flashcard_set_is_valid(
                g@,
            ),
            Err(e) => flashcard_set_problem(raw@) matches Some(d) && is_study_error(
                e,
                invalid_message("flashcard set"@, d),
            ),
        },
{
    let ghost rv = raw@;
    if is_blank_str(raw.topic.as_str()) {
        return Err(
            study_error(message("invalid ", "flashcard set", " model output: ", &text_chars("topic is empty"))),
        );
    }
    if raw.cards.len() == 0 {
        return Err(
            study_error(
                message("invalid ", "flashcard set", " model output: ", &text_chars("cards array is empty")),
            ),
        );
    }
    let mut i: usize = 0;
    while i < raw.cards.len()
        invariant
            i <= raw.cards.len(),
            rv == raw@,
            !is_blank(rv.topic),
            rv.cards.len() > 0,
            cards_problem(rv.cards, 0) == cards_problem(rv.cards, i as nat),
        decreases raw.cards.len() - i,
    {
        let c = &raw.cards[i];
        assert(rv.cards[i as int] == c@);
        if is_blank_str(c.front.as_str()) || is_blank_str(c.back.as_str()) {
            let d = item_detail_chars("card", i, " has an empty front or back");
            assert(cards_problem(rv.cards, i as nat) == Some(d@));
            assert(flashcard_set_problem(rv) == Some(d@));
            return Err(study_error(message("invalid ", "flashcard set", " model output: ", &d)));
        }
        i = i + 1;
    }
    proof {
        lemma_cards_problem_none(rv.cards, 0);
    }
    Ok(GeneratedFlashcardSet { topic: raw.topic, cards: raw.cards })
}

/// The outcome of parsing a model's flashcard response.
pub open spec fn flashcard_outcome(raw: Seq<char>) -> Result<GeneratedFlashcardSetView, Seq<char>> {
    match json_decode(fence_stripped(raw)) {
        Err(m) => Err(parse_message("flashcard"@, m)),
        Ok(v) => match flashcard_set_from_json(v) {
            None => Err(parse_message("flashcard"@, shape_detail())),
            Some(s) => match flashcard_set_problem(s) {
                Some(d) => Err(invalid_message("flashcard set"@, d)),
                None => Ok(s),
            },
        },
    }
}

/// Parses and validates a model's raw flashcard response.
pub fn parse_flashcard_response(raw: &str) -> (r: Result<GeneratedFlashcardSet, AppError>)
    ensures
        match (r, flashcard_outcome(raw@)) {
            (Ok(g), Ok(s)) => g@ == s && flashcard_set_is_valid(g@),
            (Err(e), Err(m)) => is_study_error(e, m),
            _ => false,
        },
{
    let json = strip_code_fence(raw);
    let value = match decode_json(json.as_str()) {
        Ok(v) => v,
        Err(m) => {
            let d = chars_of(m.as_str());
            return Err(study_error(message("failed to parse ", "flashcard", " model output: ", &d)));
        },
    };
    match flashcard_set_from_json_exec(&value) {
        Some(s) => validate_flashcards(s),
        None => Err(
            study_error(
                message(
                    "failed to parse ",
                    "flashcard",
                    " model output: ",
                    &text_chars("the JSON does not have the expected fields and types"),
                ),
            ),
        ),
    }
}

// ---------------------------------------------------------------------
// Revision plan
// ---------------------------------------------------------------------

/// A revision plan as the model returned it, before validation.
pub struct RawRevisionPlan {
    pub items: Vec<RevisionPlanItem>,
}

/// A parsed and validated revision plan, prior to persistence.
#[derive(Debug, Clone, PartialEq)]
pub struct GeneratedRevisionPlan {
    pub items: Vec<RevisionPlanItem>,
}

impl View for RawRevisionPlan {
    type V = Seq<RevisionPlanItemView>;

    open spec fn view(&self) -> Seq<RevisionPlanItemView> {
        views(self.items@)
    }
}

impl View for GeneratedRevisionPlan {
    type V = Seq<RevisionPlanItemView>;

    open spec fn view(&self) -> Seq<RevisionPlanItemView> {
        views(self.items@)
    }
}

/// One plan item as `serde` reads it: `{"topic", "recommendation",
/// "priority"}` or `[topic, recommendation, priority]`, the priority a
/// non-negative integer that fits `u32`.
pub open spec fn plan_item_from_json(v: JsonValue) -> Option<RevisionPlanItemView> {
    match v {
        JsonValue::Object(m) => match (
            opt_text(member_value(m@, "topic"@)),
            opt_text(member_value(m@, "recommendation"@)),
            match member_value(m@, "priority"@) {
                Some(x) => as_u32(x),
                None => None,
            },
        ) {
            (Some(t), Some(r), Some(p)) => Some(
                RevisionPlanItemView { topic: t, recommendation: r, priority: p },
            ),
            _ => None,
        },
        JsonValue::Array(items) => if items@.len() == 3 {
            match (as_text(items@[0]), as_text(items@[1]), as_u32(items@[2])) {
                (Some(t), Some(r), Some(p)) => Some(
                    RevisionPlanItemView { topic: t, recommendation: r, priority: p },
                ),
                _ => None,
            }
        } else {
            None
        },
        _ => None,
    }
}

pub open spec fn plan_item_parser() -> spec_fn(JsonValue) -> Option<RevisionPlanItemView> {
    |v: JsonValue| plan_item_from_json(v)
}

pub open spec fn plan_items_of(v: JsonValue) -> Option<Seq<RevisionPlanItemView>> {
    match v {
        JsonValue::Array(items) => all_parsed(items@, plan_item_parser()),
        _ => None,
    }
}

/// A revision plan as `serde` reads it: `{"items"}` or `[items]`.
pub open spec fn revision_plan_from_json(v: JsonValue) -> Option<Seq<RevisionPlanItemView>> {
    match v {
        JsonValue::Object(m) => match member_value(m@, "items"@) {
            Some(x) => plan_items_of(x),
            None => None,
        },
        JsonValue::Array(items) => if items@.len() == 1 {
            plan_items_of(items@[0])
        } else {
            None
        },
        _ => None,
    }
}

fn make_plan_item(t: Option<String>, r: Option<String>, p: Option<u32>) -> (o: Option<RevisionPlanItem>)
    ensures
        match o {
            Some(x) => t is Some && r is Some && p is Some && x.topic == t->0
                && x.recommendation == r->0 && x.priority == p->0,
            None => t is None || r is None || p is None,
        },
{
    match (t, r, p) {
        (Some(t), Some(r), Some(p)) => Some(
            RevisionPlanItem { topic: t, recommendation: r, priority: p },
        ),
        _ => None,
    }
}

pub(crate) fn plan_item_from_json_exec(v: &JsonValue) -> (r: Option<RevisionPlanItem>)
    ensures
        match r {
            Some(x) => plan_item_from_json(*v) == Some(x@),
            None => plan_item_from_json(*v) is None,
        },
{
    match v {
        JsonValue::Object(_) => {
            let t = opt_text_of(get_field(v, "topic"));
            let r = opt_text_of(get_field(v, "recommendation"));
            let p = match get_field(v, "priority") {
                Some(x) => u32_of(x),
                None => None,
            };
            make_plan_item(t, r, p)
        },
        JsonValue::Array(items) => {
            if items.len() == 3 {
                make_plan_item(text_of(&items[0]), text_of(&items[1]), u32_of(&items[2]))
            } else {
                None
            }
        },
        _ => None,
    }
}

fn plan_items_of_exec(v: &JsonValue) -> (r: Option<Vec<RevisionPlanItem>>)
    ensures
        match r {
            Some(l) => plan_items_of(*v) == Some(views(l@)),
            None => plan_items_of(*v) is None,
        },
{
    match v {
        JsonValue::Array(items) => parse_all(
            items,
            plan_item_from_json_exec,
            Ghost(plan_item_parser()),
        ),
        _ => None,
    }
}

fn revision_plan_from_json_exec(v: &JsonValue) -> (r: Option<RawRevisionPlan>)
    ensures
        match r {
            Some(x) => revision_plan_from_json(*v) == Some(x@),
            None => revision_plan_from_json(*v) is None,
        },
{
    match v {
        JsonValue::Object(_) => match get_field(v, "items") {
            Some(x) => match plan_items_of_exec(x) {
                Some(l) => Some(RawRevisionPlan { items: l }),
                None => None,
            },
            None => None,
        },
        JsonValue::Array(items) => {
            if items.len() == 1 {
                match plan_items_of_exec(&items[0]) {
                    Some(l) => Some(RawRevisionPlan { items: l }),
                    None => None,
                }
            } else {
                None
            }
        },
        _ => None,
    }
}

/// Why plan item `idx` is unusable, if it is.
pub open spec fn plan_item_problem(it: RevisionPlanItemView, idx: nat) -> Option<Seq<char>> {
    if is_blank(it.topic) {
        Some(item_detail("item"@, idx, " has empty topic"@))
    } else if is_blank(it.recommendation) {
        Some(item_detail("item"@, idx, " has empty recommendation"@))
    } else if it.priority == 0 {
        Some(
            item_detail(
                "item"@,
                idx,
                " has priority 0 (priorities are 1-based, lower = more urgent)"@,
            ),
        )
    } else {
        None
    }
}

/// The problem of the first unusable item at or after `k`.
pub open spec fn plan_items_problem(its: Seq<RevisionPlanItemView>, k: nat) -> Option<Seq<char>>
    decreases its.len() - k,
{
    if k >= its.len() {
        None
    } else {
        match plan_item_problem(its[k as int], k) {
            Some(d) => Some(d),
            None => plan_items_problem(its, k + 1),
        }
    }
}

/// Why a revision plan is rejected, if it is.
pub open spec fn revision_plan_problem(its: Seq<RevisionPlanItemView>) -> Option<Seq<char>> {
    if its.len() == 0 {
        Some("items array is empty"@)
    } else {
        plan_items_problem(its, 0)
    }
}

/// A usable plan item: non-blank topic and recommendation, priority at least 1.
pub open spec fn plan_item_is_valid(it: RevisionPlanItemView) -> bool {
    &&& !is_blank(it.topic)
    &&& !is_blank(it.recommendation)
    &&& it.priority >= 1
}

/// A usable revision plan: at least one item, all usable.
pub open spec fn revision_plan_is_valid(its: Seq<RevisionPlanItemView>) -> bool {
    &&& its.len() > 0
    &&& forall|i: int| 0 <= i < its.len() ==> plan_item_is_valid(#[trigger] its[i])
}

proof fn lemma_plan_items_problem_none(its: Seq<RevisionPlanItemView>, k: nat)
    requires
        plan_items_problem(its, k) is None,
    ensures
        forall|i: int| k <= i < its.len() ==> plan_item_is_valid(#[trigger] its[i]),
    decreases its.len() - k,
{
    if k < its.len() {
        lemma_plan_items_problem_none(its, k + 1);
    }
}

/// Checks a raw revision plan against the structural contract.
pub fn validate_revision_plan(raw: RawRevisionPlan) -> (r: Result<GeneratedRevisionPlan, AppError>)
    ensures
        match r {
            Ok(g) => revision_plan_problem(raw@) is None && g@ == raw@ && revision_plan_is_valid(
                g@,
            ),
            Err(e) => revision_plan_problem(raw@) matches Some(d) && is_study_error(
                e,
                invalid_message("revision plan"@, d),
            ),
        },
{
    let ghost rv = raw@;
    if raw.items.len() == 0 {
        return Err(
            study_error(
                message("invalid ", "revision plan", " model output: ", &text_chars("items array is empty")),
            ),
        );
    }
    let mut i: usize = 0;
    while i < raw.items.len()
        invariant
            i <= raw.items.len(),
            rv == raw@,
            rv.len() > 0,
            plan_items_problem(rv, 0) == plan_items_problem(rv, i as nat),
        decreases raw.items.len() - i,
    {
        let it = &raw.items[i];
        assert(rv[i as int] == it@);
        if is_blank_str(it.topic.as_str()) {
            let d = item_detail_chars("item", i, " has empty topic");
            assert(plan_items_problem(rv, i as nat) == Some(d@));
            return Err(study_error(message("invalid ", "revision plan", " model output: ", &d)));
        }
        if is_blank_str(it.recommendation.as_str()) {
            let d = item_detail_chars("item", i, " has empty recommendation");
            assert(plan_items_problem(rv, i as nat) == Some(d@));
            return Err(study_error(message("invalid ", "revision plan", " model output: ", &d)));
        }
        if it.priority == 0 {
            let d = item_detail_chars(
                "item",
                i,
                " has priority 0 (priorities are 1-based, lower = more urgent)",
            );
            assert(plan_items_problem(rv, i as nat) == Some(d@));
            return Err(study_error(message("invalid ", "revision plan", " model output: ", &d)));
        }
        i = i + 1;
    }
    proof {
        lemma_plan_items_problem_none(rv, 0);
    }
    Ok(GeneratedRevisionPlan { items: raw.items })
}

/// The outcome of parsing a model's revision-plan response.
pub open spec fn revision_plan_outcome(raw: Seq<char>) -> Result<
    Seq<RevisionPlanItemView>,
    Seq<char>,
> {
    match json_decode(fence_stripped(raw)) {
        Err(m) => Err(parse_message("revision plan"@, m)),
        Ok(v) => match revision_plan_from_json(v) {
            None => Err(parse_message("revision plan"@, shape_detail())),
            Some(its) => match revision_plan_problem(its) {
                Some(d) => Err(invalid_message("revision plan"@, d)),
                None => Ok(its),
            },
        },
    }
}

/// Parses and validates a model's raw revision-plan response.
pub fn parse_revision_plan_response(raw: &str) -> (r: Result<GeneratedRevisionPlan, AppError>)
    ensures
        match (r, revision_plan_outcome(raw@)) {
            (Ok(g), Ok(its)) => g@ == its && revision_plan_is_valid(g@),
            (Err(e), Err(m)) => is_study_error(e, m),
            _ => false,
        },
{
    let json = strip_code_fence(raw);
    let value = match decode_json(json.as_str()) {
        Ok(v) => v,
        Err(m) => {
            let d = chars_of(m.as_str());
            return Err(
                study_error(message("failed to parse ", "revision plan", " model output: ", &d)),
            );
        },
    };
    match revision_plan_from_json_exec(&value) {
        Some(p) => validate_revision_plan(p),
        None => Err(
            study_error(
                message(
                    "failed to parse ",
                    "revision plan",
                    " model output: ",
                    &text_chars("the JSON does not have the expected fields and types"),
                ),
            ),
        ),
    }
}

} // verus!

//! Prompt assembly: every engine receives a fully built prompt, made of
//! clearly separated sections, whose instruction text comes from settings
//! when configured and from the documented defaults otherwise.
use vstd::prelude::*;

use crate::engines::ResolvedPrompt;
use crate::error::AppError;
use crate::memory::{WeakTopic, WeakTopicView};
use crate::records::views;
use crate::search::{SearchHit, SearchHitView};
use crate::settings::{SettingEntry, SettingEntryView, SettingsProvider};
use crate::text::{decimal, is_blank, is_blank_str, push_decimal, push_str, string_from_chars};

verus! {

/// Settings key of the tutor's instruction section.
pub const SYSTEM_PROMPT_SETTING_KEY: &'static str = "assistant.system_prompt_template";

/// Settings key of the quiz generator's instruction section.
pub const QUIZ_PROMPT_SETTING_KEY: &'static str = "learning.quiz_prompt_template";

/// Settings key of the flashcard generator's instruction section.
pub const FLASHCARD_PROMPT_SETTING_KEY: &'static str = "learning.flashcard_prompt_template";

/// Settings key of the revision planner's instruction section.
pub const REVISION_PLAN_PROMPT_SETTING_KEY: &'static str = "learning.revision_plan_prompt_template";

/// The tutor's instructions when no override is configured: teach rather
/// than quote, treat the workspace as the primary source, and cite it with
/// `[n]` markers.
pub const DEFAULT_SYSTEM_PROMPT: &'static str = "You are Atlas, an expert AI tutor.\n\
Treat the retrieved workspace context below as authoritative course material and your primary source.\n\
However, you are NOT limited to it: whenever the workspace context does not fully answer the question, \
use your own well-established general knowledge to explain the concept -- never contradict the workspace, \
but do supplement it freely for facts, history, or definitions that are well established and simply weren't retrieved.\n\
Never simply repeat or quote retrieved passages back verbatim. Teach naturally: explain ideas, give intuition, \
connect related concepts, compare similar topics, and provide examples where they help understanding.\n\
Cite workspace evidence inline using [1], [2], ... matching the numbered context below, wherever you actually draw on it. \
If your answer comes entirely from general knowledge rather than the workspace context, say so plainly.";

/// The quiz generator's instructions, pinning down the JSON shape that
/// quiz parsing expects.
pub const DEFAULT_QUIZ_INSTRUCTION: &'static str = "You are Atlas's Quiz Generator. Using the workspace context below as your \
primary source (supplementing with well-established general knowledge only where the context doesn't cover the \
requested topic), produce quiz questions.\n\
Respond with ONLY a single JSON object, no markdown code fences, no commentary, matching exactly this shape:\n\
{\"topic\": string, \"questions\": [{\"question\": string, \"options\": [string, ...] (at least 2), \
\"correct_answer\": string (must be copied verbatim from one of \\\"options\\\"), \"source_citations\": [string, ...] \
(the [n] markers this question draws on, or an empty array if none)}]}";

/// The flashcard generator's instructions.
pub const DEFAULT_FLASHCARD_INSTRUCTION: &'static str = "You are Atlas's Flashcard Generator. Using the workspace context below \
as your primary source (supplementing with well-established general knowledge only where the context doesn't cover \
the requested topic), produce flashcards -- each a pedagogical front/back pair, not a verbatim quote of the source.\n\
Respond with ONLY a single JSON object, no markdown code fences, no commentary, matching exactly this shape:\n\
{\"topic\": string, \"cards\": [{\"front\": string, \"back\": string, \"source_citations\": [string, ...] (the [n] \
markers this card draws on, or an empty array if none)}]}";

/// The revision planner's instructions: prioritise by the supplied
/// weak-topic data.
pub const DEFAULT_REVISION_PLAN_INSTRUCTION: &'static str = "You are Atlas's Revision Planner. You are given real, computed \
weak-topic data below (accuracy from actually-recorded quiz attempts, not a guess). Produce a revision plan that \
prioritizes the lowest-accuracy topics first.\n\
Respond with ONLY a single JSON object, no markdown code fences, no commentary, matching exactly this shape:\n\
{\"items\": [{\"topic\": string, \"recommendation\": string, \"priority\": integer (1 = most urgent, increasing \
number = less urgent; the weakest topic below should generally get priority 1)}]}";

// ---------------------------------------------------------------------
// Templates
// ---------------------------------------------------------------------

/// The instruction text a settings lookup selects: a configured value
/// that is not blank, else `default` (also when the lookup failed, shown
/// as `Err`).
pub open spec fn chosen_template(lookup: Result<Option<SettingEntryView>, ()>, default: Seq<char>) -> Seq<char> {
    match lookup {
        Ok(Some(e)) => if is_blank(e.value) {
            default
        } else {
            e.value
        },
        _ => default,
    }
}

/// A settings lookup as [`chosen_template`] reads it.
pub open spec fn lookup_view(lookup: Result<Option<SettingEntry>, AppError>) -> Result<Option<SettingEntryView>, ()> {
    match lookup {
        Ok(Some(e)) => Ok(Some(e@)),
        Ok(None) => Ok(None),
        Err(_) => Err(()),
    }
}

/// `lookup` is an outcome that reading `key` from `settings` can have.
pub open spec fn possible_lookup<S: SettingsProvider>(settings: S, key: Seq<char>, lookup: Result<Option<SettingEntryView>, ()>) -> bool {
    lookup matches Ok(o) ==> settings.lookup_answer(key, None, o)
}

/// The instruction text for a settings lookup with fallback `default`.
pub fn template_or_default(lookup: Result<Option<SettingEntry>, AppError>, default: &str) -> (r: String)
    ensures
        r@ == chosen_template(lookup_view(lookup), default@),
{
    match lookup {
        Ok(Some(entry)) => {
            if is_blank_str(entry.value.as_str()) {
                default.to_owned()
            } else {
                entry.value
            }
        },
        _ => default.to_owned(),
    }
}

// ---------------------------------------------------------------------
// Sections
// ---------------------------------------------------------------------

/// What the context section says when nothing was retrieved.
pub open spec fn no_context_text() -> Seq<char> {
    "(No relevant workspace material was retrieved -- generate from general knowledge and note that no source material was found.)"@
}

/// The texts of retrieved hits, in order.
pub open spec fn hit_texts(hits: Seq<SearchHitView>) -> Seq<Seq<char>> {
    hits.map_values(|h: SearchHitView| h.text_content)
}

/// `texts` as numbered blocks `[1] ...`, `[2] ...`, separated by blank
/// lines.
pub open spec fn numbered_blocks(texts: Seq<Seq<char>>) -> Seq<char>
    decreases texts.len(),
{
    if texts.len() == 0 {
        Seq::empty()
    } else if texts.len() == 1 {
        "[1] "@ + texts[0]
    } else {
        numbered_blocks(texts.drop_last()) + "\n\n["@ + decimal(texts.len()) + "] "@ + texts.last()
    }
}

/// The workspace-context section for retrieved `texts`.
pub open spec fn context_text(texts: Seq<Seq<char>>) -> Seq<char> {
    if texts.len() == 0 {
        no_context_text()
    } else {
        numbered_blocks(texts)
    }
}

/// The workspace-context section: each retrieved chunk numbered `[n]` in
/// retrieval order, so an answer can cite it.
pub fn context_block(hits: &Vec<SearchHit>) -> (r: String)
    ensures
        r@ == context_text(hit_texts(views(hits@))),
{
    let ghost texts = hit_texts(views(hits@));
    if hits.len() == 0 {
        return "(No relevant workspace material was retrieved -- generate from general knowledge and note that no source material was found.)".to_owned();
    }
    let mut m: Vec<char> = Vec::new();
    let mut i: usize = 0;
    assert(texts.take(0) =~= Seq::<Seq<char>>::empty());
    while i < hits.len()
        invariant
            i <= hits.len(),
            texts == hit_texts(views(hits@)),
            m@ == numbered_blocks(texts.take(i as int)),
        decreases hits.len() - i,
    {
        let ghost t = texts.take(i + 1);
        assert(t.drop_last() =~= texts.take(i as int));
        assert(t.last() == hits@[i as int].text_content@);
        if i == 0 {
            push_str(&mut m, "[1] ");
            push_str(&mut m, hits[i].text_content.as_str());
            assert(m@ =~= numbered_blocks(t));
        } else {
            push_str(&mut m, "\n\n[");
            push_decimal(&mut m, (i + 1) as u64);
            push_str(&mut m, "] ");
            push_str(&mut m, hits[i].text_content.as_str());
            assert(m@ =~= numbered_blocks(t));
        }
        i = i + 1;
    }
    assert(texts.take(hits.len() as int) =~= texts);
    string_from_chars(m.as_slice())
}

/// The tutoring prompt with instructions `system` for `query` over the
/// retrieved `hits`.
pub fn chat_prompt_text(system: &str, hits: &Vec<SearchHit>, query: &str) -> (r: String)
    ensures
        r@ == chat_prompt(system@, context_text(hit_texts(views(hits@))), query@),
{
    let block = context_block(hits);
    let mut m: Vec<char> = Vec::new();
    push_str(&mut m, "SYSTEM\n\n");
    push_str(&mut m, system);
    push_str(&mut m, "\n\n---\n\nWORKSPACE CONTEXT\n\n");
    push_str(&mut m, block.as_str());
    push_str(&mut m, "\n\n---\n\nUSER QUESTION\n\n");
    push_str(&mut m, query);
    push_str(&mut m, "\n\n---\n\nANSWER\n\nBegin naturally.");
    assert(m@ =~= chat_prompt(system@, block@, query@));
    string_from_chars(m.as_slice())
}

/// The tutoring prompt: instructions, context, the user's question and
/// the answer cue, in separated sections.
pub open spec fn chat_prompt(system: Seq<char>, context: Seq<char>, query: Seq<char>) -> Seq<char> {
    "SYSTEM\n\n"@ + system + "\n\n---\n\nWORKSPACE CONTEXT\n\n"@ + context + "\n\n---\n\nUSER QUESTION\n\n"@ + query
        + "\n\n---\n\nANSWER\n\nBegin naturally."@
}

/// Where the question starts in a chat prompt with `system` and `context`.
pub open spec fn question_offset(system: Seq<char>, context: Seq<char>) -> int {
    ("SYSTEM\n\n"@ + system + "\n\n---\n\nWORKSPACE CONTEXT\n\n"@ + context + "\n\n---\n\nUSER QUESTION\n\n"@).len() as int
}

/// A chat prompt holds the user's question word for word, under its own
/// heading, whatever the system prompt and the retrieved context are.
pub proof fn law_chat_prompt_holds_question(system: Seq<char>, context: Seq<char>, question: Seq<char>)
    ensures
        chat_prompt(system, context, question).subrange(
            question_offset(system, context),
            question_offset(system, context) + question.len(),
        ) == question,
{
    let head = "SYSTEM\n\n"@ + system + "\n\n---\n\nWORKSPACE CONTEXT\n\n"@ + context + "\n\n---\n\nUSER QUESTION\n\n"@;
    let tail = "\n\n---\n\nANSWER\n\nBegin naturally."@;
    assert(chat_prompt(system, context, question) == head + question + tail);
    assert((head + question + tail).subrange(head.len() as int, (head.len() + question.len()) as int) =~= question);
}

/// A generation request: instructions, context, what to generate and the
/// answer cue.
pub open spec fn request_prompt(instruction: Seq<char>, context: Seq<char>, count: nat, what: Seq<char>, topic: Seq<char>) -> Seq<char> {
    "SYSTEM\n\n"@ + instruction + "\n\n---\n\nWORKSPACE CONTEXT\n\n"@ + context + "\n\n---\n\nREQUEST\n\nGenerate "@
        + decimal(count) + " "@ + what + " on the topic \""@ + topic
        + "\".\n\n---\n\nANSWER\n\nRespond with the JSON object only, matching the schema above."@
}

/// A topic's accuracy as a whole percentage, rounded half up; a topic
/// without answers counts as zero.
pub open spec fn accuracy_percent(correct: u32, incorrect: u32) -> nat {
    let total = correct + incorrect;
    if total == 0 {
        0
    } else {
        ((200 * correct + total) / (2 * total)) as nat
    }
}

/// One line of weak-topic data.
pub open spec fn weak_topic_line(t: WeakTopicView) -> Seq<char> {
    "- topic: \""@ + t.topic + "\", correct: "@ + decimal(t.correct_count as nat) + ", incorrect: "@ + decimal(
        t.incorrect_count as nat,
    ) + ", accuracy: "@ + decimal(accuracy_percent(t.correct_count, t.incorrect_count)) + "%"@
}

/// The weak-topic lines, one per topic.
pub open spec fn weak_topic_lines(ts: Seq<WeakTopicView>) -> Seq<char>
    decreases ts.len(),
{
    if ts.len() == 0 {
        Seq::empty()
    } else if ts.len() == 1 {
        weak_topic_line(ts[0])
    } else {
        weak_topic_lines(ts.drop_last()) + "\n"@ + weak_topic_line(ts.last())
    }
}

/// What the weak-topic section says when no answers were recorded.
pub open spec fn no_weak_topics_text() -> Seq<char> {
    "(No weak-topic data is available yet -- no quiz attempts have been recorded. Produce a short general-review plan and say so.)"@
}

/// The revision-planning prompt for `topics`.
pub open spec fn revision_prompt(instruction: Seq<char>, topics: Seq<WeakTopicView>) -> Seq<char> {
    "SYSTEM\n\n"@ + instruction
        + "\n\n---\n\nWEAK-TOPIC DATA (computed from recorded quiz attempts, lowest accuracy is weakest)\n\n"@ + (if topics.len()
        == 0 {
        no_weak_topics_text()
    } else {
        weak_topic_lines(topics)
    }) + "\n\n---\n\nANSWER\n\nRespond with the JSON object only, matching the schema above."@
}

fn push_accuracy(m: &mut Vec<char>, correct: u32, incorrect: u32)
    ensures
        final(m)@ == old(m)@ + decimal(accuracy_percent(correct, incorrect)),
{
    let total: u64 = correct as u64 + incorrect as u64;
    if total == 0 {
        push_decimal(m, 0);
    } else {
        let p: u64 = (200 * (correct as u64) + total) / (2 * total);
        push_decimal(m, p);
    }
}

fn push_weak_topic_line(m: &mut Vec<char>, t: &WeakTopic)
    ensures
        final(m)@ == old(m)@ + weak_topic_line(t@),
{
    push_str(m, "- topic: \"");
    push_str(m, t.topic.as_str());
    push_str(m, "\", correct: ");
    push_decimal(m, t.correct_count as u64);
    push_str(m, ", incorrect: ");
    push_decimal(m, t.incorrect_count as u64);
    push_str(m, ", accuracy: ");
    push_accuracy(m, t.correct_count, t.incorrect_count);
    push_str(m, "%");
    assert(final(m)@ =~= old(m)@ + weak_topic_line(t@));
}

// ---------------------------------------------------------------------
// The builder
// ---------------------------------------------------------------------

/// Builds every prompt an engine receives, reading instruction overrides
/// from `settings`.
pub struct PromptBuilder<S: SettingsProvider> {
    settings: S,
}

impl<S: SettingsProvider> PromptBuilder<S> {
    pub closed spec fn source(&self) -> S {
        self.settings
    }

    pub fn new(settings: S) -> (r: Self)
        ensures
            r.source() == settings,
    {
        PromptBuilder { settings }
    }

    pub fn settings(&self) -> (r: &S)
        ensures
            *r == self.source(),
    {
        &self.settings
    }

    /// The configured value of `key` when it is not blank, else
    /// `default`; a failed settings read also falls back to `default`.
    fn setting_or_default(&self, key: &str, default: &str) -> (r: String)
        ensures
            exists|l: Result<Option<SettingEntryView>, ()>|
                #[trigger] possible_lookup(self.source(), key@, l) && r@ == chosen_template(l, default@),
    {
        let lookup = self.settings.get_global(key);
        let ghost l = lookup_view(lookup);
        assert(possible_lookup(self.source(), key@, l));
        template_or_default(lookup, default)
    }

    /// The tutoring prompt for `query` over the retrieved `hits`.
    pub fn build(&self, query: &str, hits: &Vec<SearchHit>) -> (r: ResolvedPrompt)
        ensures
            r@.images is None,
            exists|l: Result<Option<SettingEntryView>, ()>|
                #[trigger] possible_lookup(self.source(), SYSTEM_PROMPT_SETTING_KEY@, l) && r@.content == chat_prompt(
                    chosen_template(l, DEFAULT_SYSTEM_PROMPT@),
                    context_text(hit_texts(views(hits@))),
                    query@,
                ),
    {
        let system = self.setting_or_default(SYSTEM_PROMPT_SETTING_KEY, DEFAULT_SYSTEM_PROMPT);
        let content = chat_prompt_text(system.as_str(), hits, query);
        ResolvedPrompt::text(content.as_str())
    }

    fn build_request(&self, key: &str, default: &str, what: &str, topic: &str, hits: &Vec<SearchHit>, count: u32) -> (r: ResolvedPrompt)
        ensures
            r@.images is None,
            exists|l: Result<Option<SettingEntryView>, ()>|
                #[trigger] possible_lookup(self.source(), key@, l) && r@.content == request_prompt(
                    chosen_template(l, default@),
                    context_text(hit_texts(views(hits@))),
                    count as nat,
                    what@,
                    topic@,
                ),
    {
        let instruction = self.setting_or_default(key, default);
        let block = context_block(hits);
        let mut m: Vec<char> = Vec::new();
        push_str(&mut m, "SYSTEM\n\n");
        push_str(&mut m, instruction.as_str());
        push_str(&mut m, "\n\n---\n\nWORKSPACE CONTEXT\n\n");
        push_str(&mut m, block.as_str());
        push_str(&mut m, "\n\n---\n\nREQUEST\n\nGenerate ");
        push_decimal(&mut m, count as u64);
        push_str(&mut m, " ");
        push_str(&mut m, what);
        push_str(&mut m, " on the topic \"");
        push_str(&mut m, topic);
        push_str(&mut m, "\".\n\n---\n\nANSWER\n\nRespond with the JSON object only, matching the schema above.");
        assert(m@ =~= request_prompt(instruction@, block@, count as nat, what@, topic@));
        let content = string_from_chars(m.as_slice());
        ResolvedPrompt::text(content.as_str())
    }

    /// The quiz-generation prompt: asks for `num_questions` questions on
    /// `topic` as the JSON shape quiz parsing reads.
    pub fn build_quiz_prompt(&self, topic: &str, hits: &Vec<SearchHit>, num_questions: u32) -> (r: ResolvedPrompt)
        ensures
            r@.images is None,
            exists|l: Result<Option<SettingEntryView>, ()>|
                #[trigger] possible_lookup(self.source(), QUIZ_PROMPT_SETTING_KEY@, l) && r@.content == request_prompt(
                    chosen_template(l, DEFAULT_QUIZ_INSTRUCTION@),
                    context_text(hit_texts(views(hits@))),
                    num_questions as nat,
                    "quiz question(s)"@,
                    topic@,
                ),
    {
        self.build_request(QUIZ_PROMPT_SETTING_KEY, DEFAULT_QUIZ_INSTRUCTION, "quiz question(s)", topic, hits, num_questions)
    }

    /// The flashcard-generation prompt: asks for `num_cards` cards on
    /// `topic`.
    pub fn build_flashcard_prompt(&self, topic: &str, hits: &Vec<SearchHit>, num_cards: u32) -> (r: ResolvedPrompt)
        ensures
            r@.images is None,
            exists|l: Result<Option<SettingEntryView>, ()>|
                #[trigger] possible_lookup(self.source(), FLASHCARD_PROMPT_SETTING_KEY@, l) && r@.content == request_prompt(
                    chosen_template(l, DEFAULT_FLASHCARD_INSTRUCTION@),
                    context_text(hit_texts(views(hits@))),
                    num_cards as nat,
                    "flashcard(s)"@,
                    topic@,
                ),
    {
        self.build_request(FLASHCARD_PROMPT_SETTING_KEY, DEFAULT_FLASHCARD_INSTRUCTION, "flashcard(s)", topic, hits, num_cards)
    }

    /// The revision-planning prompt over the computed weak-topic data; with
    /// no data it says so rather than inventing any.
    pub fn build_revision_plan_prompt(&self, weak_topics: &Vec<WeakTopic>) -> (r: ResolvedPrompt)
        ensures
            r@.images is None,
            exists|l: Result<Option<SettingEntryView>, ()>|
                #[trigger] possible_lookup(self.source(), REVISION_PLAN_PROMPT_SETTING_KEY@, l) && r@.content
                    == revision_prompt(chosen_template(l, DEFAULT_REVISION_PLAN_INSTRUCTION@), views(weak_topics@)),
    {
        let instruction = self.setting_or_default(REVISION_PLAN_PROMPT_SETTING_KEY, DEFAULT_REVISION_PLAN_INSTRUCTION);
        let ghost ts = views(weak_topics@);
        let mut block: Vec<char> = Vec::new();
        if weak_topics.len() == 0 {
            push_str(&mut block, "(No weak-topic data is available yet -- no quiz attempts have been recorded. Produce a short general-review plan and say so.)");
        } else {
            let mut i: usize = 0;
            assert(ts.take(0) =~= Seq::<WeakTopicView>::empty());
            while i < weak_topics.len()
                invariant
                    i <= weak_topics.len(),
                    ts == views(weak_topics@),
                    block@ == weak_topic_lines(ts.take(i as int)),
                decreases weak_topics.len() - i,
            {
                let ghost t = ts.take(i + 1);
                assert(t.drop_last() =~= ts.take(i as int));
                assert(t.last() == weak_topics@[i as int]@);
                if i > 0 {
                    push_str(&mut block, "\n");
                } else {
                    assert(t =~= seq![weak_topics@[0]@]);
                }
                push_weak_topic_line(&mut block, &weak_topics[i]);
                assert(block@ =~= weak_topic_lines(t));
                i = i + 1;
            }
            assert(ts.take(weak_topics.len() as int) =~= ts);
        }
        let mut m: Vec<char> = Vec::new();
        push_str(&mut m, "SYSTEM\n\n");
        push_str(&mut m, instruction.as_str());
        push_str(&mut m, "\n\n---\n\nWEAK-TOPIC DATA (computed from recorded quiz attempts, lowest accuracy is weakest)\n\n");
        push_str(&mut m, string_from_chars(block.as_slice()).as_str());
        push_str(&mut m, "\n\n---\n\nANSWER\n\nRespond with the JSON object only, matching the schema above.");
        assert(m@ =~= revision_prompt(instruction@, ts));
        let content = string_from_chars(m.as_slice());
        ResolvedPrompt::text(content.as_str())
    }
}

} // verus!

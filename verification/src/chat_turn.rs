//! One streamed assistant turn as a sequence of decisions. The caller
//! performs each action (storing, retrieving, asking the model server,
//! forwarding text) and hands back what came of it; the turn decides what
//! happens next.
use vstd::prelude::*;

use crate::chat::{ChatMessage, ChatMessageView, ChatMode, ChatRole, ChatSession, ChatSessionView};
use crate::chat_flow::{
    answering_role, no_answering_role_message, pipeline_label, pipeline_text, session_title, terminal_role,
    title_of, uses_retrieval, Intent,
};
use crate::engines::{role_to_label, EngineRole};
use crate::error::{AppError, ErrorCategory, ErrorCode};
use crate::ids::{ChatMessageId, ChatSessionId, WorkspaceId};
use crate::prompts::{
    chat_prompt, chat_prompt_text, chosen_template, context_text, hit_texts, lookup_view, template_or_default,
    DEFAULT_SYSTEM_PROMPT,
};
use crate::records::views;
use crate::registry::no_model_message;
use crate::search::SearchHit;
use crate::settings::SettingEntry;
use crate::text::{chars_of, push_str, string_from_chars};

verus! {

/// How many chunks a turn retrieves as context.
pub const CHAT_CONTEXT_HITS: usize = 5;

/// Where a turn stands.
#[derive(Debug, Clone, Copy, PartialEq, Eq, Structural)]
pub enum ChatTurnStage {
    /// Waiting for the new session to be stored.
    OpeningSession,
    /// Waiting for the question to be stored.
    SavingQuestion,
    /// Waiting for the retrieved context.
    Retrieving,
    /// Waiting for the model selected for the answering role.
    FindingModel,
    /// Receiving the answer.
    Streaming,
    /// Waiting for the answer to be stored.
    SavingAnswer,
    Finished,
}

/// The state of one turn.
pub struct ChatTurn {
    /// The id the request was registered under for cancellation.
    pub request_id: String,
    pub workspace_id: WorkspaceId,
    pub intent: Intent,
    pub question: String,
    /// The engine pipeline the intent is routed through.
    pub pipeline: Vec<EngineRole>,
    /// When the turn started.
    pub started_at: String,
    pub stage: ChatTurnStage,
    /// The session the turn is recorded in, once it is known.
    pub session: ChatSessionId,
    /// The role whose model answers, once it is known.
    pub role: EngineRole,
    /// What the model is asked.
    pub prompt: String,
    /// The retrieved chunks the answer may cite.
    pub citations: Vec<SearchHit>,
    /// The answer received so far.
    pub reply: String,
}

/// What came of the last action.
pub enum ChatTurnEvent {
    SessionOpened(ChatSession),
    QuestionSaved(ChatMessage),
    /// The retrieved chunks, with the lookup of the system prompt setting.
    Retrieved { hits: Vec<SearchHit>, system_prompt: Result<Option<SettingEntry>, AppError> },
    /// The model selected for the role, if any.
    ModelFound(Option<String>),
    /// A piece of the answer; `cancelled` when the request was cancelled
    /// before it arrived.
    Piece { text: String, cancelled: bool },
    /// The answer is complete, at time `now`.
    StreamEnded { now: String },
    AnswerSaved(ChatMessage),
    /// The last action failed.
    Failed(AppError),
}

/// What the caller does next.
pub enum ChatTurnAction {
    CreateSession(ChatSession),
    SaveMessage(ChatMessage),
    /// Retrieve up to `limit` chunks of `workspace_id` for `query`.
    Retrieve { workspace_id: WorkspaceId, query: String, limit: usize },
    /// Look up the model selected for the role.
    FindModel(EngineRole),
    /// Stream `model`'s answer to `prompt`.
    Generate { model: String, prompt: String },
    /// Send this piece of the answer to the user.
    Forward(String),
    /// Nothing to do; hand back the next event.
    Await,
    /// The turn is over, whichever way it ended: release the request id
    /// `request_id` (its cancellation flag is no longer polled) and report
    /// the session, the stored answer and its citations, or why the turn
    /// failed.
    Finish { request_id: String, result: Result<(ChatSessionId, ChatMessage, Vec<SearchHit>), AppError> },
}

/// The question as stored: a user message in `session`.
pub open spec fn question_message(t: ChatTurn, session: ChatSessionId) -> ChatMessageView {
    ChatMessageView {
        id: ChatMessageId(0),
        session_id: session,
        role: ChatRole::User,
        content: t.question@,
        engine_pipeline_used: None,
        created_at: t.started_at@,
    }
}

/// The answer as stored: an assistant message with the text received and
/// the pipeline that produced it.
pub open spec fn answer_message(t: ChatTurn, now: Seq<char>) -> ChatMessageView {
    ChatMessageView {
        id: ChatMessageId(0),
        session_id: t.session,
        role: ChatRole::Assistant,
        content: t.reply@,
        engine_pipeline_used: Some(pipeline_text(t.pipeline@)),
        created_at: now,
    }
}

/// The turn `t` with only its stage changed.
pub open spec fn moved_to(t: ChatTurn, after: ChatTurn, stage: ChatTurnStage) -> bool {
    &&& after.stage == stage
    &&& after.request_id@ == t.request_id@
    &&& after.workspace_id == t.workspace_id
    &&& after.intent == t.intent
    &&& after.question@ == t.question@
    &&& after.pipeline@ == t.pipeline@
    &&& after.started_at@ == t.started_at@
}

/// Starts a turn for the request registered as `request_id`: `session_id`
/// continues a conversation; without one, a session titled after the
/// question is created first. The question is stored before anything else
/// is done.
pub fn start_chat_turn(
    request_id: String,
    workspace_id: WorkspaceId,
    session_id: Option<ChatSessionId>,
    question: String,
    intent: Intent,
    pipeline: Vec<EngineRole>,
    now: String,
) -> (r: (ChatTurn, ChatTurnAction))
    ensures
        r.0.request_id@ == request_id@,
        r.0.workspace_id == workspace_id,
        r.0.intent == intent,
        r.0.question@ == question@,
        r.0.pipeline@ == pipeline@,
        r.0.started_at@ == now@,
        r.0.reply@ == Seq::<char>::empty(),
        r.0.citations@.len() == 0,
        match session_id {
            Some(id) => r.0.stage == ChatTurnStage::SavingQuestion && r.0.session == id && (r.1 matches ChatTurnAction::SaveMessage(
                m,
            ) && m@ == question_message(r.0, id)),
            None => r.0.stage == ChatTurnStage::OpeningSession && (r.1 matches ChatTurnAction::CreateSession(s) && s@
                == (ChatSessionView {
                id: ChatSessionId(0),
                workspace_id,
                document_id: None,
                title: title_of(question@),
                mode: ChatMode::Normal,
                created_at: now@,
                updated_at: now@,
            })),
        },
{
    let title = session_title(question.as_str());
    let turn = ChatTurn {
        request_id,
        workspace_id,
        intent,
        question,
        pipeline,
        started_at: now,
        stage: ChatTurnStage::OpeningSession,
        session: ChatSessionId(0),
        role: EngineRole::Tutor,
        prompt: String::new(),
        citations: Vec::new(),
        reply: String::new(),
    };
    match session_id {
        Some(id) => {
            let message = ChatMessage {
                id: ChatMessageId(0),
                session_id: id,
                role: ChatRole::User,
                content: turn.question.clone(),
                engine_pipeline_used: None,
                created_at: turn.started_at.clone(),
            };
            (ChatTurn { stage: ChatTurnStage::SavingQuestion, session: id, ..turn }, ChatTurnAction::SaveMessage(message))
        },
        None => {
            let session = ChatSession {
                id: ChatSessionId(0),
                workspace_id,
                document_id: None,
                title,
                mode: ChatMode::Normal,
                created_at: turn.started_at.clone(),
                updated_at: turn.started_at.clone(),
            };
            (turn, ChatTurnAction::CreateSession(session))
        },
    }
}

/// `r` is what a turn at `turn` does on `event`: see [`chat_turn_step`].
pub open spec fn turn_step(turn: ChatTurn, event: ChatTurnEvent, r: (ChatTurn, ChatTurnAction)) -> bool {
    match (turn.stage, event) {
        (ChatTurnStage::Finished, _) => r.0 == turn && r.1 is Await,
        (_, ChatTurnEvent::Failed(e)) => moved_to(turn, r.0, ChatTurnStage::Finished) && (r.1 matches ChatTurnAction::Finish {
            request_id: rid,
            result: Err(f),
        } && rid@ == turn.request_id@ && f == e),
        (ChatTurnStage::OpeningSession, ChatTurnEvent::SessionOpened(s)) => moved_to(
            turn,
            r.0,
            ChatTurnStage::SavingQuestion,
        ) && r.0.session == s.id && r.0.reply@ == turn.reply@ && r.0.citations@ == turn.citations@
            && (r.1 matches ChatTurnAction::SaveMessage(m) && m@ == question_message(turn, s.id)),
        (ChatTurnStage::SavingQuestion, ChatTurnEvent::QuestionSaved(_)) => match answering_role(turn.pipeline@) {
            None => moved_to(turn, r.0, ChatTurnStage::Finished) && (r.1 matches ChatTurnAction::Finish { request_id: rid, result: Err(e) } && rid@ == turn.request_id@
                && e.code == ErrorCode::EngineError && e.category == ErrorCategory::ModelError && e.message@
                == no_answering_role_message(turn.intent)),
            Some(role) => r.0.role == role && r.0.session == turn.session && r.0.reply@ == turn.reply@
                && r.0.citations@ == turn.citations@ && if turn.pipeline@.contains(EngineRole::Retriever) {
                moved_to(turn, r.0, ChatTurnStage::Retrieving) && (r.1 matches ChatTurnAction::Retrieve {
                    workspace_id,
                    query,
                    limit,
                } && workspace_id == turn.workspace_id && query@ == turn.question@ && limit
                    == CHAT_CONTEXT_HITS)
            } else {
                moved_to(turn, r.0, ChatTurnStage::FindingModel) && r.0.prompt@ == turn.question@ && r.1
                    == ChatTurnAction::FindModel(role)
            },
        },
        (ChatTurnStage::Retrieving, ChatTurnEvent::Retrieved { hits, system_prompt }) => moved_to(
            turn,
            r.0,
            ChatTurnStage::FindingModel,
        ) && r.0.role == turn.role && r.0.session == turn.session && r.0.reply@ == turn.reply@
            && r.0.citations@ == hits@ && r.0.prompt@ == chat_prompt(
            chosen_template(lookup_view(system_prompt), DEFAULT_SYSTEM_PROMPT@),
            context_text(hit_texts(views(hits@))),
            turn.question@,
        ) && r.1 == ChatTurnAction::FindModel(turn.role),
        (ChatTurnStage::FindingModel, ChatTurnEvent::ModelFound(found)) => match found {
            None => moved_to(turn, r.0, ChatTurnStage::Finished) && (r.1 matches ChatTurnAction::Finish { request_id: rid, result: Err(e) } && rid@ == turn.request_id@
                && e.code == ErrorCode::EngineError && e.category == ErrorCategory::ModelError && e.message@
                == no_model_message(turn.role)),
            Some(model) => moved_to(turn, r.0, ChatTurnStage::Streaming) && r.0.role == turn.role
                && r.0.session == turn.session && r.0.reply@ == turn.reply@ && r.0.citations@
                == turn.citations@ && r.0.prompt@ == turn.prompt@ && (r.1 matches ChatTurnAction::Generate {
                model: m,
                prompt: p,
            } && m@ == model@ && p@ == turn.prompt@),
        },
        (ChatTurnStage::Streaming, ChatTurnEvent::Piece { text, cancelled }) => if cancelled {
            moved_to(turn, r.0, ChatTurnStage::SavingAnswer) && r.0.session == turn.session && r.0.reply@
                == turn.reply@ && r.0.citations@ == turn.citations@ && (r.1 matches ChatTurnAction::SaveMessage(
                m,
            ) && m@ == answer_message(turn, turn.started_at@))
        } else if text@.len() == 0 {
            r.0 == turn && r.1 is Await
        } else {
            moved_to(turn, r.0, ChatTurnStage::Streaming) && r.0.role == turn.role && r.0.session
                == turn.session && r.0.reply@ == turn.reply@ + text@ && r.0.citations@ == turn.citations@
                && (r.1 matches ChatTurnAction::Forward(f) && f@ == text@)
        },
        (ChatTurnStage::Streaming, ChatTurnEvent::StreamEnded { now }) => moved_to(
            turn,
            r.0,
            ChatTurnStage::SavingAnswer,
        ) && r.0.session == turn.session && r.0.reply@ == turn.reply@ && r.0.citations@ == turn.citations@
            && (r.1 matches ChatTurnAction::SaveMessage(m) && m@ == answer_message(turn, now@)),
        (ChatTurnStage::SavingAnswer, ChatTurnEvent::AnswerSaved(m)) => moved_to(
            turn,
            r.0,
            ChatTurnStage::Finished,
        ) && (r.1 matches ChatTurnAction::Finish { request_id: rid, result: Ok((s, stored, cited)) } && rid@
            == turn.request_id@ && s == turn.session && stored == m
            && cited@ == turn.citations@),
        _ => r.0 == turn && r.1 is Await,
    }
}

/// Decides the next step of a turn from what came of the last action:
/// - a failed action ends the turn with its error;
/// - once the session exists, the question is stored;
/// - once the question is stored, the answering role is chosen (a pipeline
///   without one ends the turn), and the workspace is searched for the
///   question when the pipeline retrieves; otherwise the question itself
///   is the prompt;
/// - the retrieved chunks and the system prompt setting make the prompt;
/// - with no model selected for the role the turn ends with a model
///   error; otherwise the model is asked;
/// - each non-empty piece is forwarded and kept; a cancelled request or
///   the end of the stream stores the answer received so far;
/// - once the answer is stored the turn ends with it and its citations.
/// An event that does not fit the stage changes nothing.
pub fn chat_turn_step(turn: ChatTurn, event: ChatTurnEvent) -> (r: (ChatTurn, ChatTurnAction))
    ensures
        turn_step(turn, event, r),
{
    let rid = turn.request_id.clone();
    match (turn.stage, event) {
        (ChatTurnStage::Finished, _) => (turn, ChatTurnAction::Await),
        (_, ChatTurnEvent::Failed(e)) => (
            ChatTurn { stage: ChatTurnStage::Finished, ..turn },
            ChatTurnAction::Finish { request_id: rid, result: Err(e) },
        ),
        (ChatTurnStage::OpeningSession, ChatTurnEvent::SessionOpened(s)) => {
            let message = ChatMessage {
                id: ChatMessageId(0),
                session_id: s.id,
                role: ChatRole::User,
                content: turn.question.clone(),
                engine_pipeline_used: None,
                created_at: turn.started_at.clone(),
            };
            (
                ChatTurn { stage: ChatTurnStage::SavingQuestion, session: s.id, ..turn },
                ChatTurnAction::SaveMessage(message),
            )
        },
        (ChatTurnStage::SavingQuestion, ChatTurnEvent::QuestionSaved(_)) => {
            match terminal_role(&turn.pipeline, turn.intent) {
                Err(e) => (
                    ChatTurn { stage: ChatTurnStage::Finished, ..turn },
                    ChatTurnAction::Finish { request_id: rid, result: Err(e) },
                ),
                Ok(role) => {
                    if uses_retrieval(&turn.pipeline) {
                        let query = turn.question.clone();
                        let workspace_id = turn.workspace_id;
                        (
                            ChatTurn { stage: ChatTurnStage::Retrieving, role, ..turn },
                            ChatTurnAction::Retrieve { workspace_id, query, limit: CHAT_CONTEXT_HITS },
                        )
                    } else {
                        let prompt = turn.question.clone();
                        (
                            ChatTurn { stage: ChatTurnStage::FindingModel, role, prompt, ..turn },
                            ChatTurnAction::FindModel(role),
                        )
                    }
                },
            }
        },
        (ChatTurnStage::Retrieving, ChatTurnEvent::Retrieved { hits, system_prompt }) => {
            let system = template_or_default(system_prompt, DEFAULT_SYSTEM_PROMPT);
            let prompt = chat_prompt_text(system.as_str(), &hits, turn.question.as_str());
            let role = turn.role;
            (
                ChatTurn { stage: ChatTurnStage::FindingModel, prompt, citations: hits, ..turn },
                ChatTurnAction::FindModel(role),
            )
        },
        (ChatTurnStage::FindingModel, ChatTurnEvent::ModelFound(found)) => {
            match found {
                None => {
                    let mut m: Vec<char> = Vec::new();
                    push_str(&mut m, "no model currently assigned to ");
                    push_str(&mut m, role_to_label(turn.role));
                    let e = AppError::model(string_from_chars(m.as_slice()));
                    (
                        ChatTurn { stage: ChatTurnStage::Finished, ..turn },
                        ChatTurnAction::Finish { request_id: rid, result: Err(e) },
                    )
                },
                Some(model) => {
                    let prompt = turn.prompt.clone();
                    (
                        ChatTurn { stage: ChatTurnStage::Streaming, ..turn },
                        ChatTurnAction::Generate { model, prompt },
                    )
                },
            }
        },
        (ChatTurnStage::Streaming, ChatTurnEvent::Piece { text, cancelled }) => {
            if cancelled {
                let started = turn.started_at.clone();
                let message = answer(&turn, started);
                (ChatTurn { stage: ChatTurnStage::SavingAnswer, ..turn }, ChatTurnAction::SaveMessage(message))
            } else if text.as_str().is_empty() {
                (turn, ChatTurnAction::Await)
            } else {
                let mut all = chars_of(turn.reply.as_str());
                push_str(&mut all, text.as_str());
                let reply = string_from_chars(all.as_slice());
                (ChatTurn { reply, ..turn }, ChatTurnAction::Forward(text))
            }
        },
        (ChatTurnStage::Streaming, ChatTurnEvent::StreamEnded { now }) => {
            let message = answer(&turn, now);
            (ChatTurn { stage: ChatTurnStage::SavingAnswer, ..turn }, ChatTurnAction::SaveMessage(message))
        },
        (ChatTurnStage::SavingAnswer, ChatTurnEvent::AnswerSaved(m)) => {
            let session = turn.session;
            (
                ChatTurn { stage: ChatTurnStage::Finished, citations: Vec::new(), ..turn },
                ChatTurnAction::Finish { request_id: rid, result: Ok((session, m, turn.citations)) },
            )
        },
        (_, _) => (turn, ChatTurnAction::Await),
    }
}

fn answer(turn: &ChatTurn, now: String) -> (r: ChatMessage)
    ensures
        r@ == answer_message(*turn, now@),
{
    ChatMessage {
        id: ChatMessageId(0),
        session_id: turn.session,
        role: ChatRole::Assistant,
        content: turn.reply.clone(),
        engine_pipeline_used: Some(pipeline_label(&turn.pipeline)),
        created_at: now,
    }
}


/// The text a sequence of actions sent to the user: the pieces of its
/// `Forward` actions, in order.
pub open spec fn forwarded(actions: Seq<ChatTurnAction>) -> Seq<char>
    decreases actions.len(),
{
    if actions.len() == 0 {
        Seq::empty()
    } else {
        forwarded(actions.drop_last()) + match actions.last() {
            ChatTurnAction::Forward(t) => t@,
            _ => Seq::empty(),
        }
    }
}

/// A run of a turn: `turns[i]` became `turns[i + 1]` with `actions[i]` on
/// `events[i]`.
pub open spec fn is_turn_run(turns: Seq<ChatTurn>, events: Seq<ChatTurnEvent>, actions: Seq<ChatTurnAction>) -> bool {
    &&& turns.len() == events.len() + 1
    &&& actions.len() == events.len()
    &&& forall|i: int| #![trigger events[i]] 0 <= i < events.len() ==> turn_step(turns[i], events[i], (turns[i + 1], actions[i]))
}

proof fn lemma_reply_is_forwarded(turns: Seq<ChatTurn>, events: Seq<ChatTurnEvent>, actions: Seq<ChatTurnAction>, j: int)
    requires
        is_turn_run(turns, events, actions),
        turns[0].reply@ == Seq::<char>::empty(),
        0 <= j <= events.len(),
    ensures
        turns[j].stage != ChatTurnStage::Finished ==> turns[j].reply@ == forwarded(actions.take(j)),
    decreases j,
{
    if j == 0 {
        assert(actions.take(0) =~= Seq::<ChatTurnAction>::empty());
    } else {
        let i = j - 1;
        lemma_reply_is_forwarded(turns, events, actions, i);
        assert(turn_step(turns[i], events[i], (turns[i + 1], actions[i])));
        assert(actions.take(j).drop_last() =~= actions.take(i));
        assert(actions.take(j).last() == actions[i]);
        if turns[i].stage == ChatTurnStage::Finished {
            assert(turns[j] == turns[i]);
        }
    }
}

/// Over any run of a turn that starts with no answer received, every
/// piece sent to the user is non-empty, and the answer the turn stores is
/// exactly the text it sent, piece by piece, in order.
pub proof fn law_turn_stores_what_it_forwarded(
    turns: Seq<ChatTurn>,
    events: Seq<ChatTurnEvent>,
    actions: Seq<ChatTurnAction>,
    k: int,
)
    requires
        is_turn_run(turns, events, actions),
        turns[0].reply@ == Seq::<char>::empty(),
        0 <= k < actions.len(),
    ensures
        actions[k] matches ChatTurnAction::Forward(t) ==> t@.len() > 0,
        turns[k + 1].stage == ChatTurnStage::SavingAnswer ==> (actions[k] matches ChatTurnAction::SaveMessage(m)
            ==> m@.content == forwarded(actions.take(k)) && m@.role == ChatRole::Assistant),
{
    lemma_reply_is_forwarded(turns, events, actions, k);
    assert(turn_step(turns[k], events[k], (turns[k + 1], actions[k])));
}

proof fn lemma_request_id_kept(turns: Seq<ChatTurn>, events: Seq<ChatTurnEvent>, actions: Seq<ChatTurnAction>, j: int)
    requires
        is_turn_run(turns, events, actions),
        0 <= j <= events.len(),
    ensures
        turns[j].request_id@ == turns[0].request_id@,
    decreases j,
{
    if j > 0 {
        lemma_request_id_kept(turns, events, actions, j - 1);
        assert(turn_step(turns[j - 1], events[j - 1], (turns[j], actions[j - 1])));
    }
}

/// Over any run of a turn, whichever way it ends, the action that ends it
/// releases the id the turn was started for.
pub proof fn law_turn_releases_its_request(
    turns: Seq<ChatTurn>,
    events: Seq<ChatTurnEvent>,
    actions: Seq<ChatTurnAction>,
    k: int,
)
    requires
        is_turn_run(turns, events, actions),
        0 <= k < actions.len(),
    ensures
        actions[k] matches ChatTurnAction::Finish { request_id, .. } ==> request_id@ == turns[0].request_id@,
        turns[k + 1].stage == ChatTurnStage::Finished && turns[k].stage != ChatTurnStage::Finished ==> actions[k] is Finish,
{
    lemma_request_id_kept(turns, events, actions, k);
    assert(turn_step(turns[k], events[k], (turns[k + 1], actions[k])));
}
} // verus!

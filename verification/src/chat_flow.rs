//! How one assistant turn is routed and recorded: the request's intent,
//! the engine pipeline it runs through, the engine that produces the
//! answer, the session it is recorded in and the streamed answer text.
use vstd::prelude::*;

use crate::chat::{ChatMessage, ChatMessageView, ChatMode, ChatRole, ChatSession, ChatSessionView};
use crate::engines::{role_label, role_to_label, EngineRole};
use crate::error::{AppError, ErrorCategory, ErrorCode};
use crate::ids::{ChatMessageId, ChatSessionId, WorkspaceId};
use crate::db::{decoded_from_rows, is_storage_error};
use crate::memory_db::{session_decoder, SqliteChatRepository};
use crate::text::{chars_of, lemma_text_lt_order, push_str, str_eq, str_lt, string_from_chars, text_lt};

verus! {

// ---------------------------------------------------------------------
// Intents and routing
// ---------------------------------------------------------------------

/// What a request asks for; decides the engine pipeline it runs through.
#[derive(Debug, Clone, Copy, PartialEq, Eq, Structural)]
pub enum Intent {
    FactualLookup,
    Tutoring,
    Quiz,
    Research,
    Planning,
}

/// The name of an intent as `{:?}` renders it.
pub open spec fn intent_label(i: Intent) -> Seq<char> {
    match i {
        Intent::FactualLookup => "FactualLookup"@,
        Intent::Tutoring => "Tutoring"@,
        Intent::Quiz => "Quiz"@,
        Intent::Research => "Research"@,
        Intent::Planning => "Planning"@,
    }
}

pub fn intent_to_label(i: Intent) -> (s: &'static str)
    ensures
        s@ == intent_label(i),
{
    match i {
        Intent::FactualLookup => "FactualLookup",
        Intent::Tutoring => "Tutoring",
        Intent::Quiz => "Quiz",
        Intent::Research => "Research",
        Intent::Planning => "Planning",
    }
}

/// The intent a request names. `"factual_lookup"` and anything not
/// recognised fall back to the general lookup pipeline rather than
/// failing the request.
pub open spec fn intent_named(s: Seq<char>) -> Intent {
    if s == "tutoring"@ {
        Intent::Tutoring
    } else if s == "quiz"@ {
        Intent::Quiz
    } else if s == "research"@ {
        Intent::Research
    } else if s == "planning"@ {
        Intent::Planning
    } else {
        Intent::FactualLookup
    }
}

pub fn parse_intent(intent: &str) -> (r: Intent)
    ensures
        r == intent_named(intent@),
{
    if str_eq(intent, "tutoring") {
        Intent::Tutoring
    } else if str_eq(intent, "quiz") {
        Intent::Quiz
    } else if str_eq(intent, "research") {
        Intent::Research
    } else if str_eq(intent, "planning") {
        Intent::Planning
    } else {
        Intent::FactualLookup
    }
}

/// The route registered last for `intent` among `routes`, if any.
pub open spec fn route_for(routes: Seq<(Intent, Seq<EngineRole>)>, intent: Intent) -> Option<Seq<EngineRole>>
    decreases routes.len(),
{
    if routes.len() == 0 {
        None
    } else if routes.last().0 == intent {
        Some(routes.last().1)
    } else {
        route_for(routes.drop_last(), intent)
    }
}

/// Which engine roles, in order, serve each intent.
pub struct RoutingTable {
    routes: Vec<(Intent, Vec<EngineRole>)>,
}

impl RoutingTable {
    /// The routes, in the order they were added.
    pub closed spec fn routes(&self) -> Seq<(Intent, Seq<EngineRole>)> {
        self.routes@.map_values(|r: (Intent, Vec<EngineRole>)| (r.0, r.1@))
    }

    /// A table with no routes.
    pub fn new() -> (r: Self)
        ensures
            forall|i: Intent| route_for(r.routes(), i) is None,
    {
        let r = RoutingTable { routes: Vec::new() };
        assert(r.routes() =~= Seq::<(Intent, Seq<EngineRole>)>::empty());
        r
    }

    /// Routes `intent` through `pipeline`, replacing any earlier route for
    /// it.
    pub fn insert(&mut self, intent: Intent, pipeline: Vec<EngineRole>)
        ensures
            route_for(final(self).routes(), intent) == Some(pipeline@),
            forall|other: Intent| other != intent ==> route_for(final(self).routes(), other) == route_for(
                old(self).routes(),
                other,
            ),
    {
        let ghost before = self.routes();
        let ghost pv = pipeline@;
        self.routes.push((intent, pipeline));
        assert(self.routes() =~= before.push((intent, pv)));
        assert(self.routes().drop_last() =~= before);
    }

    /// The pipeline for `intent`; an intent without a route has an empty
    /// pipeline.
    pub fn resolve_pipeline(&self, intent: Intent) -> (r: Vec<EngineRole>)
        ensures
            r@ == match route_for(self.routes(), intent) {
                Some(p) => p,
                None => Seq::<EngineRole>::empty(),
            },
    {
        let mut i: usize = self.routes.len();
        assert(self.routes().take(i as int) =~= self.routes());
        while i > 0
            invariant
                i <= self.routes.len(),
                route_for(self.routes(), intent) == route_for(self.routes().take(i as int), intent),
            decreases i,
        {
            let ghost t = self.routes().take(i as int);
            assert(t.last() == (self.routes@[i - 1].0, self.routes@[i - 1].1@));
            if self.routes[i - 1].0 == intent {
                return self.routes[i - 1].1.clone();
            }
            assert(t.drop_last() =~= self.routes().take(i - 1));
            i = i - 1;
        }
        Vec::new()
    }
}

/// The pipeline each intent runs through by default.
pub open spec fn default_route(i: Intent) -> Seq<EngineRole> {
    match i {
        Intent::FactualLookup => seq![EngineRole::Retriever, EngineRole::Reranker, EngineRole::Tutor],
        Intent::Tutoring => seq![EngineRole::Retriever, EngineRole::Reranker, EngineRole::Tutor],
        Intent::Quiz => seq![EngineRole::Retriever, EngineRole::Reranker, EngineRole::Reasoning],
        Intent::Research => seq![EngineRole::Retriever, EngineRole::Reranker, EngineRole::Reasoning],
        Intent::Planning => seq![EngineRole::Memory, EngineRole::Planner],
    }
}

fn roles3(a: EngineRole, b: EngineRole, c: EngineRole) -> (r: Vec<EngineRole>)
    ensures
        r@ == seq![a, b, c],
{
    let mut v: Vec<EngineRole> = Vec::new();
    v.push(a);
    v.push(b);
    v.push(c);
    assert(v@ =~= seq![a, b, c]);
    v
}

/// The routing table every intent starts with: lookups and tutoring are
/// answered by the Tutor after retrieval, quizzes and research by the
/// Reasoning engine after retrieval, and planning by the Planner from
/// student memory.
pub fn default_routing_table() -> (r: RoutingTable)
    ensures
        forall|i: Intent| #[trigger] route_for(r.routes(), i) == Some(default_route(i)),
{
    let mut table = RoutingTable::new();
    table.insert(Intent::FactualLookup, roles3(EngineRole::Retriever, EngineRole::Reranker, EngineRole::Tutor));
    table.insert(Intent::Tutoring, roles3(EngineRole::Retriever, EngineRole::Reranker, EngineRole::Tutor));
    table.insert(Intent::Quiz, roles3(EngineRole::Retriever, EngineRole::Reranker, EngineRole::Reasoning));
    table.insert(Intent::Research, roles3(EngineRole::Retriever, EngineRole::Reranker, EngineRole::Reasoning));
    let mut planning: Vec<EngineRole> = Vec::new();
    planning.push(EngineRole::Memory);
    planning.push(EngineRole::Planner);
    assert(planning@ =~= seq![EngineRole::Memory, EngineRole::Planner]);
    table.insert(Intent::Planning, planning);
    assert forall|i: Intent| #[trigger] route_for(table.routes(), i) == Some(default_route(i)) by {
        match i {
            Intent::FactualLookup => {},
            Intent::Tutoring => {},
            Intent::Quiz => {},
            Intent::Research => {},
            Intent::Planning => {},
        }
    }
    table
}

// ---------------------------------------------------------------------
// The answering engine
// ---------------------------------------------------------------------

/// Whether a role produces answer text (retrieval and reranking do not).
pub open spec fn answers(r: EngineRole) -> bool {
    r != EngineRole::Retriever && r != EngineRole::Reranker
}

/// The last answer-producing role of a pipeline, if any.
pub open spec fn answering_role(pipeline: Seq<EngineRole>) -> Option<EngineRole>
    decreases pipeline.len(),
{
    if pipeline.len() == 0 {
        None
    } else if answers(pipeline.last()) {
        Some(pipeline.last())
    } else {
        answering_role(pipeline.drop_last())
    }
}

/// The engine that answers an intent: the Tutor explains (lookups and
/// tutoring), the Reasoning engine reasons (quizzes and research), and the
/// Planner plans.
pub open spec fn intended_answerer(i: Intent) -> EngineRole {
    match i {
        Intent::FactualLookup => EngineRole::Tutor,
        Intent::Tutoring => EngineRole::Tutor,
        Intent::Quiz => EngineRole::Reasoning,
        Intent::Research => EngineRole::Reasoning,
        Intent::Planning => EngineRole::Planner,
    }
}

/// Every default route ends with the engine meant to answer its intent,
/// which is its only answer-producing role; an intent answered from the
/// workspace's documents retrieves and reranks first, and planning works
/// from student memory.
pub proof fn law_default_routes_end_with_the_intended_answerer(i: Intent)
    ensures
        answering_role(default_route(i)) == Some(intended_answerer(i)),
        default_route(i).last() == intended_answerer(i),
        forall|k: int| 0 <= k < default_route(i).len() - 1 ==> !answers(#[trigger] default_route(i)[k]) || default_route(
            i,
        )[k] == EngineRole::Memory,
        i != Intent::Planning ==> default_route(i).len() == 3 && default_route(i)[0] == EngineRole::Retriever
            && default_route(i)[1] == EngineRole::Reranker,
        i == Intent::Planning ==> default_route(i) == seq![EngineRole::Memory, EngineRole::Planner],
{
    let r = default_route(i);
    assert(r.drop_last().len() + 1 == r.len());
}

/// `"routing table has no answer-producing role for {intent:?}"`.
pub open spec fn no_answering_role_message(intent: Intent) -> Seq<char> {
    "routing table has no answer-producing role for "@ + intent_label(intent)
}

/// The role whose engine answers a request routed through `pipeline`;
/// a pipeline of only retrieval steps is a model error.
pub fn terminal_role(pipeline: &Vec<EngineRole>, intent: Intent) -> (r: Result<EngineRole, AppError>)
    ensures
        match answering_role(pipeline@) {
            Some(role) => r == Ok::<EngineRole, AppError>(role),
            None => r matches Err(e) && e.code == ErrorCode::EngineError && e.category
                == ErrorCategory::ModelError && e.message@ == no_answering_role_message(intent),
        },
{
    let mut i: usize = pipeline.len();
    assert(pipeline@.take(i as int) =~= pipeline@);
    while i > 0
        invariant
            i <= pipeline.len(),
            answering_role(pipeline@) == answering_role(pipeline@.take(i as int)),
        decreases i,
    {
        let ghost t = pipeline@.take(i as int);
        assert(t.last() == pipeline@[i - 1]);
        let role = pipeline[i - 1];
        if role != EngineRole::Retriever && role != EngineRole::Reranker {
            return Ok(role);
        }
        assert(t.drop_last() =~= pipeline@.take(i - 1));
        i = i - 1;
    }
    let mut m: Vec<char> = Vec::new();
    push_str(&mut m, "routing table has no answer-producing role for ");
    push_str(&mut m, intent_to_label(intent));
    Err(AppError::model(string_from_chars(m.as_slice())))
}

/// Whether a pipeline retrieves workspace context before answering.
pub fn uses_retrieval(pipeline: &Vec<EngineRole>) -> (r: bool)
    ensures
        r == pipeline@.contains(EngineRole::Retriever),
{
    let mut i: usize = 0;
    while i < pipeline.len()
        invariant
            i <= pipeline.len(),
            forall|k: int| 0 <= k < i ==> pipeline@[k] != EngineRole::Retriever,
        decreases pipeline.len() - i,
    {
        if pipeline[i] == EngineRole::Retriever {
            assert(pipeline@[i as int] == EngineRole::Retriever);
            return true;
        }
        i = i + 1;
    }
    false
}

/// The role names of a pipeline separated by `", "`.
pub open spec fn joined_labels(s: Seq<EngineRole>) -> Seq<char>
    decreases s.len(),
{
    if s.len() == 0 {
        Seq::empty()
    } else if s.len() == 1 {
        role_label(s[0])
    } else {
        joined_labels(s.drop_last()) + ", "@ + role_label(s.last())
    }
}

/// A pipeline as `{:?}` renders it, e.g. `[Retriever, Reranker, Tutor]`.
pub open spec fn pipeline_text(s: Seq<EngineRole>) -> Seq<char> {
    "["@ + joined_labels(s) + "]"@
}

/// The pipeline recorded with an assistant message.
pub fn pipeline_label(pipeline: &Vec<EngineRole>) -> (r: String)
    ensures
        r@ == pipeline_text(pipeline@),
{
    let mut m: Vec<char> = Vec::new();
    push_str(&mut m, "[");
    let mut i: usize = 0;
    assert(pipeline@.take(0) =~= Seq::<EngineRole>::empty());
    while i < pipeline.len()
        invariant
            i <= pipeline.len(),
            m@ == "["@ + joined_labels(pipeline@.take(i as int)),
        decreases pipeline.len() - i,
    {
        let ghost t = pipeline@.take(i + 1);
        assert(t.drop_last() =~= pipeline@.take(i as int));
        assert(t.last() == pipeline@[i as int]);
        if i > 0 {
            push_str(&mut m, ", ");
        } else {
            assert(t =~= seq![pipeline@[0]]);
            assert(pipeline@.take(0) =~= Seq::<EngineRole>::empty());
        }
        push_str(&mut m, role_to_label(pipeline[i]));
        proof {
            if i > 0 {
                assert(m@ =~= "["@ + joined_labels(t));
            } else {
                assert(m@ =~= "["@ + joined_labels(t));
            }
        }
        i = i + 1;
    }
    assert(pipeline@.take(pipeline.len() as int) =~= pipeline@);
    push_str(&mut m, "]");
    string_from_chars(m.as_slice())
}

// ---------------------------------------------------------------------
// Sessions
// ---------------------------------------------------------------------

/// The most characters of a first message a new session's title keeps.
pub const TITLE_LIMIT: usize = 60;

/// The title of a session started by `message`: its first sixty
/// characters.
pub open spec fn title_of(message: Seq<char>) -> Seq<char> {
    if message.len() <= 60 {
        message
    } else {
        message.take(60)
    }
}

pub fn session_title(message: &str) -> (r: String)
    ensures
        r@ == title_of(message@),
{
    let cs = chars_of(message);
    if cs.len() <= TITLE_LIMIT {
        string_from_chars(cs.as_slice())
    } else {
        let mut t: Vec<char> = Vec::new();
        let mut i: usize = 0;
        while i < TITLE_LIMIT
            invariant
                i <= TITLE_LIMIT,
                TITLE_LIMIT < cs.len(),
                t@ == cs@.take(i as int),
            decreases TITLE_LIMIT - i,
        {
            t.push(cs[i]);
            assert(cs@.take(i + 1) =~= cs@.take(i as int).push(cs@[i as int]));
            i = i + 1;
        }
        string_from_chars(t.as_slice())
    }
}

/// The session a turn is recorded in: `session_id` when the caller
/// continues a conversation, otherwise a new session titled after the
/// message. The user's message is recorded first.
pub fn open_turn(
    chat: &SqliteChatRepository,
    workspace_id: WorkspaceId,
    session_id: Option<ChatSessionId>,
    message: &str,
    now: &str,
) -> (r: Result<(ChatSessionId, ChatMessage), AppError>)
    ensures
        r matches Ok((s, m)) ==> {
            &&& session_id matches Some(id) ==> s == id
            &&& m@ == (ChatMessageView {
                id: m.id,
                session_id: s,
                role: ChatRole::User,
                content: message@,
                engine_pipeline_used: None,
                created_at: now@,
            })
        },
        r matches Err(e) ==> is_storage_error(e),
        !chat.conn().is_open() ==> r is Err,
{
    let session = match session_id {
        Some(id) => id,
        None => {
            let created = chat.create_session(new_session(workspace_id, message, now))?;
            created.id
        },
    };
    let user_message = chat.append_message(
        ChatMessage {
            id: ChatMessageId(0),
            session_id: session,
            role: ChatRole::User,
            content: message.to_owned(),
            engine_pipeline_used: None,
            created_at: now.to_owned(),
        },
    )?;
    Ok((session, user_message))
}

/// The session a turn opens: in `workspace_id`, titled after the first 60
/// characters of `message`, in normal mode, created and updated at `now`.
pub open spec fn new_session_view(workspace_id: WorkspaceId, message: Seq<char>, now: Seq<char>) -> ChatSessionView {
    ChatSessionView {
        id: ChatSessionId(0),
        workspace_id,
        document_id: None,
        title: title_of(message),
        mode: ChatMode::Normal,
        created_at: now,
        updated_at: now,
    }
}

/// The session record a turn without a session creates.
pub fn new_session(workspace_id: WorkspaceId, message: &str, now: &str) -> (r: ChatSession)
    ensures
        r@ == new_session_view(workspace_id, message@, now@),
{
    ChatSession {
        id: ChatSessionId(0),
        workspace_id,
        document_id: None,
        title: session_title(message),
        mode: ChatMode::Normal,
        created_at: now.to_owned(),
        updated_at: now.to_owned(),
    }
}

/// Records the assistant's answer to a turn, with the pipeline that
/// produced it.
pub fn close_turn(
    chat: &SqliteChatRepository,
    session: ChatSessionId,
    answer: String,
    pipeline: &Vec<EngineRole>,
    now: &str,
) -> (r: Result<ChatMessage, AppError>)
    ensures
        r matches Ok(m) ==> m@ == (ChatMessageView {
            id: m.id,
            session_id: session,
            role: ChatRole::Assistant,
            content: answer@,
            engine_pipeline_used: Some(pipeline_text(pipeline@)),
            created_at: now@,
        }),
        r matches Err(e) ==> is_storage_error(e),
        !chat.conn().is_open() ==> r is Err,
{
    chat.append_message(
        ChatMessage {
            id: ChatMessageId(0),
            session_id: session,
            role: ChatRole::Assistant,
            content: answer,
            engine_pipeline_used: Some(pipeline_label(pipeline)),
            created_at: now.to_owned(),
        },
    )
}

/// Where a session updated at `t` goes in `s`: after every leading
/// session updated no earlier than it.
pub open spec fn recency_pos(s: Seq<ChatSessionView>, t: Seq<char>) -> nat
    decreases s.len(),
{
    if s.len() == 0 {
        0
    } else if text_lt(s[0].updated_at, t) {
        0
    } else {
        1 + recency_pos(s.drop_first(), t)
    }
}

/// `s` ordered by last update, most recent first; sessions updated at the
/// same time keep their order in `s`.
pub open spec fn by_recency(s: Seq<ChatSessionView>) -> Seq<ChatSessionView>
    decreases s.len(),
{
    if s.len() == 0 {
        Seq::empty()
    } else {
        let r = by_recency(s.drop_last());
        r.insert(recency_pos(r, s.last().updated_at) as int, s.last())
    }
}

/// No session comes before one updated later.
pub open spec fn newest_first(s: Seq<ChatSessionView>) -> bool {
    forall|i: int, j: int| 0 <= i < j < s.len() ==> !text_lt(#[trigger] s[i].updated_at, #[trigger] s[j].updated_at)
}

proof fn lemma_recency_pos(s: Seq<ChatSessionView>, t: Seq<char>)
    ensures
        recency_pos(s, t) <= s.len(),
        forall|k: int| 0 <= k < recency_pos(s, t) ==> !text_lt(#[trigger] s[k].updated_at, t),
        recency_pos(s, t) < s.len() ==> text_lt(s[recency_pos(s, t) as int].updated_at, t),
    decreases s.len(),
{
    if s.len() > 0 && !text_lt(s[0].updated_at, t) {
        lemma_recency_pos(s.drop_first(), t);
        assert forall|k: int| 0 <= k < recency_pos(s, t) implies !text_lt(#[trigger] s[k].updated_at, t) by {
            if k > 0 {
                assert(s[k] == s.drop_first()[k - 1]);
            }
        }
    }
}

/// Listing sessions most recent first keeps every session and never puts
/// a session before one that was updated later.
pub proof fn law_sessions_newest_first(s: Seq<ChatSessionView>)
    ensures
        newest_first(by_recency(s)),
        by_recency(s).to_multiset() == s.to_multiset(),
    decreases s.len(),
{
    if s.len() == 0 {
        assert(by_recency(s) =~= s);
    } else {
        law_sessions_newest_first(s.drop_last());
        let r = by_recency(s.drop_last());
        let x = s.last();
        let p = recency_pos(r, x.updated_at);
        lemma_recency_pos(r, x.updated_at);
        let out = r.insert(p as int, x);
        assert forall|i: int, j: int| 0 <= i < j < out.len() implies !text_lt(
            #[trigger] out[i].updated_at,
            #[trigger] out[j].updated_at,
        ) by {
            if i < p && j < p {
                assert(out[i] == r[i] && out[j] == r[j]);
            } else if i < p && j == p {
                assert(out[i] == r[i]);
            } else if i < p {
                assert(out[i] == r[i] && out[j] == r[j - 1]);
            } else if i == p {
                assert(out[j] == r[j - 1]);
                if p < r.len() {
                    let a = r[p as int].updated_at;
                    let b = r[j - 1].updated_at;
                    lemma_text_lt_order(a, x.updated_at, b);
                    lemma_text_lt_order(b, a, x.updated_at);
                    lemma_text_lt_order(x.updated_at, b, a);
                }
            } else {
                assert(out[i] == r[i - 1] && out[j] == r[j - 1]);
            }
        }
        vstd::seq_lib::to_multiset_insert(r, p as int, x);
        assert(s.drop_last().push(x) =~= s);
        vstd::seq_lib::to_multiset_build(s.drop_last(), x);
        assert(by_recency(s) == out);
        assert(out.to_multiset() == r.to_multiset().insert(x));
    }
}

proof fn lemma_recency_pos_skip(s: Seq<ChatSessionView>, t: Seq<char>, p: int)
    requires
        0 <= p < s.len(),
        recency_pos(s, t) == p + recency_pos(s.skip(p), t),
        !text_lt(s[p].updated_at, t),
    ensures
        recency_pos(s, t) == p + 1 + recency_pos(s.skip(p + 1), t),
{
    assert(s.skip(p)[0] == s[p]);
    assert(s.skip(p).drop_first() =~= s.skip(p + 1));
}

/// `sessions` ordered most recently updated first; equally recent
/// sessions keep their order.
pub fn most_recent_first(sessions: Vec<ChatSession>) -> (r: Vec<ChatSession>)
    ensures
        crate::records::views(r@) == by_recency(crate::records::views(sessions@)),
{
    let ghost sv = crate::records::views(sessions@);
    let mut rest = sessions;
    let mut out: Vec<ChatSession> = Vec::new();
    let mut i: usize = 0;
    let n = rest.len();
    assert(sv.take(0) =~= Seq::<ChatSessionView>::empty());
    assert(crate::records::views(out@) =~= Seq::<ChatSessionView>::empty());
    assert(crate::records::views(rest@) =~= sv.skip(0));
    while i < n
        invariant
            i <= n,
            n == sv.len(),
            crate::records::views(rest@) == sv.skip(i as int),
            crate::records::views(out@) == by_recency(sv.take(i as int)),
        decreases n - i,
    {
        assert(crate::records::views(rest@).len() == n - i);
        assert(crate::records::views(rest@)[0] == rest@[0]@);
        assert(sv.skip(i as int)[0] == sv[i as int]);
        let ghost old_rest = rest@;
        let x = rest.remove(0);
        assert forall|k: int| 0 <= k < rest@.len() implies #[trigger] crate::records::views(rest@)[k] == sv.skip(
            i + 1,
        )[k] by {
            assert(rest@[k] == old_rest[k + 1]);
            assert(crate::records::views(old_rest)[k + 1] == old_rest[k + 1]@);
            assert(sv.skip(i as int)[k + 1] == sv.skip(i + 1)[k]);
        }
        assert(crate::records::views(rest@) =~= sv.skip(i + 1));
        let ghost before = crate::records::views(out@);
        let ghost xv = x@;
        let mut p: usize = 0;
        assert(before.skip(0) =~= before);
        while p < out.len() && !str_lt(out[p].updated_at.as_str(), x.updated_at.as_str())
            invariant
                p <= out.len(),
                x@ == xv,
                crate::records::views(out@) == before,
                recency_pos(before, xv.updated_at) == p + recency_pos(before.skip(p as int), xv.updated_at),
            decreases out.len() - p,
        {
            proof {
                assert(before[p as int] == out@[p as int]@);
                lemma_recency_pos_skip(before, xv.updated_at, p as int);
            }
            p = p + 1;
        }
        proof {
            if p < out.len() {
                assert(before[p as int] == out@[p as int]@);
                assert(before.skip(p as int)[0] == before[p as int]);
            } else {
                assert(before.skip(p as int) =~= Seq::<ChatSessionView>::empty());
            }
        }
        out.insert(p, x);
        proof {
            assert(crate::records::views(out@) =~= before.insert(p as int, xv));
            assert(sv.take(i + 1).drop_last() =~= sv.take(i as int));
            assert(sv.take(i + 1).last() == xv);
        }
        i = i + 1;
    }
    assert(sv.take(n as int) =~= sv);
    out
}

/// A workspace's chat sessions, most recently updated first.
pub fn list_chat_sessions(chat: &SqliteChatRepository, workspace_id: WorkspaceId) -> (r: Result<
    Vec<ChatSession>,
    AppError,
>)
    ensures
        match r {
            Ok(v) => exists|listed: Seq<ChatSessionView>|
                #[trigger] decoded_from_rows(listed, session_decoder()) && crate::records::views(v@)
                    == by_recency(listed),
            Err(e) => is_storage_error(e),
        },
{
    let sessions = chat.list_sessions_for_workspace(workspace_id)?;
    let ghost listed = crate::records::views(sessions@);
    let sorted = most_recent_first(sessions);
    assert(decoded_from_rows(listed, session_decoder()));
    Ok(sorted)
}

// ---------------------------------------------------------------------
// Streaming
// ---------------------------------------------------------------------

/// What to do with one streamed piece of an answer.
#[derive(Debug, Clone, Copy, PartialEq, Eq, Structural)]
pub enum StreamAction {
    /// Pass the piece on to the listener; it is part of the answer.
    Forward,
    /// An empty piece: nothing to pass on.
    Skip,
    /// The request was cancelled: stop reading the stream.
    Stop,
}

/// The answer text received so far.
pub struct StreamTranscript {
    content: Vec<char>,
}

impl StreamTranscript {
    pub closed spec fn text(&self) -> Seq<char> {
        self.content@
    }

    pub fn new() -> (r: Self)
        ensures
            r.text() == Seq::<char>::empty(),
    {
        StreamTranscript { content: Vec::new() }
    }

    /// Takes one piece of the streamed answer. A cancelled request stops
    /// the stream and keeps nothing more; an empty piece is skipped; any
    /// other piece is appended and passed on.
    pub fn step(&mut self, cancelled: bool, piece: &str) -> (r: StreamAction)
        ensures
            cancelled ==> r == StreamAction::Stop && final(self).text() == old(self).text(),
            !cancelled && piece@.len() == 0 ==> r == StreamAction::Skip && final(self).text() == old(self).text(),
            !cancelled && piece@.len() > 0 ==> r == StreamAction::Forward && final(self).text() == old(self).text()
                + piece@,
    {
        if cancelled {
            return StreamAction::Stop;
        }
        if piece.is_empty() {
            return StreamAction::Skip;
        }
        push_str(&mut self.content, piece);
        StreamAction::Forward
    }

    /// The answer text received so far.
    pub fn content(&self) -> (r: String)
        ensures
            r@ == self.text(),
    {
        string_from_chars(self.content.as_slice())
    }
}

} // verus!

//! In-process store of generated study records (quizzes, flashcard sets,
//! revision plans) and of the per-topic quiz answer tallies from which weak
//! topics are computed.
//!
//! Each kind of record gets ids from its own counter, starting at 1, so ids
//! are never reused and every stored id is smaller than the next one.
use vstd::prelude::*;

use crate::error::AppError;
use crate::ids::{DocumentId, FlashcardSetId, QuizId, RevisionPlanId, WorkspaceId};
use crate::memory::{FlashcardSet, FlashcardSetView, Quiz, QuizView, RevisionPlan, RevisionPlanView, WeakTopic, WeakTopicView};
use crate::records::{filter_records, find_first, first_match_index, is_first_match, lemma_first_match_index, position_record, views, Record};

verus! {

/// The first element of `s` satisfying `p`.
pub open spec fn first_with<A>(s: Seq<A>, p: spec_fn(A) -> bool) -> Option<A> {
    match first_match_index(s, p) {
        Some(i) => Some(s[i]),
        None => None,
    }
}

pub open spec fn quiz_has_id(id: QuizId) -> spec_fn(QuizView) -> bool {
    |q: QuizView| q.id == id
}

pub open spec fn quiz_in_workspace(w: WorkspaceId) -> spec_fn(QuizView) -> bool {
    |q: QuizView| q.workspace_id == w
}

pub open spec fn quiz_for_document(d: DocumentId) -> spec_fn(QuizView) -> bool {
    |q: QuizView| q.document_id == Some(d)
}

pub open spec fn set_has_id(id: FlashcardSetId) -> spec_fn(FlashcardSetView) -> bool {
    |s: FlashcardSetView| s.id == id
}

pub open spec fn set_in_workspace(w: WorkspaceId) -> spec_fn(FlashcardSetView) -> bool {
    |s: FlashcardSetView| s.workspace_id == w
}

pub open spec fn plan_in_workspace(w: WorkspaceId) -> spec_fn(RevisionPlanView) -> bool {
    |p: RevisionPlanView| p.workspace_id == w
}

/// Ids strictly increase along `ids` and lie in `1..=last`.
pub open spec fn ids_issued(ids: Seq<i64>, last: i64) -> bool {
    &&& forall|i: int, j: int| 0 <= i < j < ids.len() ==> ids[i] < ids[j]
    &&& forall|i: int| 0 <= i < ids.len() ==> 0 < #[trigger] ids[i] <= last
}

pub open spec fn quiz_ids(s: Seq<QuizView>) -> Seq<i64> {
    s.map_values(|q: QuizView| q.id.0)
}

pub open spec fn set_ids(s: Seq<FlashcardSetView>) -> Seq<i64> {
    s.map_values(|f: FlashcardSetView| f.id.0)
}

pub open spec fn plan_ids(s: Seq<RevisionPlanView>) -> Seq<i64> {
    s.map_values(|p: RevisionPlanView| p.id.0)
}

/// Generated quizzes, flashcard sets and revision plans, each in insertion
/// order, with the last id handed out for each kind.
pub struct InMemoryStudyRepository {
    quizzes: Vec<Quiz>,
    flashcard_sets: Vec<FlashcardSet>,
    revision_plans: Vec<RevisionPlan>,
    last_quiz_id: i64,
    last_flashcard_set_id: i64,
    last_revision_plan_id: i64,
}

impl InMemoryStudyRepository {
    pub closed spec fn quizzes(&self) -> Seq<QuizView> {
        views(self.quizzes@)
    }

    pub closed spec fn flashcard_sets(&self) -> Seq<FlashcardSetView> {
        views(self.flashcard_sets@)
    }

    pub closed spec fn revision_plans(&self) -> Seq<RevisionPlanView> {
        views(self.revision_plans@)
    }

    /// The last quiz id handed out (0 before the first).
    pub closed spec fn last_quiz_id(&self) -> i64 {
        self.last_quiz_id
    }

    pub closed spec fn last_flashcard_set_id(&self) -> i64 {
        self.last_flashcard_set_id
    }

    pub closed spec fn last_revision_plan_id(&self) -> i64 {
        self.last_revision_plan_id
    }

    /// Every stored id was handed out by this store, in increasing order.
    pub open spec fn wf(&self) -> bool {
        &&& self.last_quiz_id() >= 0
        &&& self.last_flashcard_set_id() >= 0
        &&& self.last_revision_plan_id() >= 0
        &&& ids_issued(quiz_ids(self.quizzes()), self.last_quiz_id())
        &&& ids_issued(set_ids(self.flashcard_sets()), self.last_flashcard_set_id())
        &&& ids_issued(plan_ids(self.revision_plans()), self.last_revision_plan_id())
    }

    pub fn new() -> (r: Self)
        ensures
            r.wf(),
            r.quizzes() == Seq::<QuizView>::empty(),
            r.flashcard_sets() == Seq::<FlashcardSetView>::empty(),
            r.revision_plans() == Seq::<RevisionPlanView>::empty(),
            r.last_quiz_id() == 0,
            r.last_flashcard_set_id() == 0,
            r.last_revision_plan_id() == 0,
    {
        let r = InMemoryStudyRepository {
            quizzes: Vec::new(),
            flashcard_sets: Vec::new(),
            revision_plans: Vec::new(),
            last_quiz_id: 0,
            last_flashcard_set_id: 0,
            last_revision_plan_id: 0,
        };
        assert(r.quizzes() =~= Seq::<QuizView>::empty());
        assert(r.flashcard_sets() =~= Seq::<FlashcardSetView>::empty());
        assert(r.revision_plans() =~= Seq::<RevisionPlanView>::empty());
        r
    }

    /// Stores `quiz` under the next quiz id and returns it with that id.
    pub fn insert_quiz(&mut self, quiz: Quiz) -> (r: Result<Quiz, AppError>)
        requires
            old(self).wf(),
            old(self).last_quiz_id() < i64::MAX,
        ensures
            final(self).wf(),
            r matches Ok(q) && q@ == (QuizView { id: QuizId((old(self).last_quiz_id() + 1) as i64), ..quiz@ }),
            final(self).last_quiz_id() == old(self).last_quiz_id() + 1,
            final(self).quizzes() == old(self).quizzes().push(
                QuizView { id: QuizId((old(self).last_quiz_id() + 1) as i64), ..quiz@ },
            ),
            final(self).flashcard_sets() == old(self).flashcard_sets(),
            final(self).revision_plans() == old(self).revision_plans(),
            final(self).last_flashcard_set_id() == old(self).last_flashcard_set_id(),
            final(self).last_revision_plan_id() == old(self).last_revision_plan_id(),
    {
        let id = QuizId(self.last_quiz_id + 1);
        self.last_quiz_id = self.last_quiz_id + 1;
        let stored = Quiz { id, ..quiz };
        let copy = stored.duplicate();
        let ghost old_q = views(self.quizzes@);
        self.quizzes.push(stored);
        proof {
            assert(views(self.quizzes@) =~= old_q.push(copy@));
            assert(quiz_ids(views(self.quizzes@)) =~= quiz_ids(old_q).push(id.0));
        }
        Ok(copy)
    }

    /// The quiz with id `id`, if one is stored.
    pub fn get_quiz(&self, id: QuizId) -> (r: Result<Option<Quiz>, AppError>)
        ensures
            r matches Ok(o) && match o {
                Some(q) => first_with(self.quizzes(), quiz_has_id(id)) == Some(q@),
                None => first_with(self.quizzes(), quiz_has_id(id)) is None,
            },
    {
        let pos = find_first(
            &self.quizzes,
            |q: &Quiz| -> (b: bool)
                ensures b == (q@.id == id)
                { q.id == id },
            Ghost(quiz_has_id(id)),
        );
        match pos {
            Some(i) => Ok(Some(self.quizzes[i].duplicate())),
            None => Ok(None),
        }
    }

    /// The quizzes of one workspace, in insertion order.
    pub fn list_quizzes_for_workspace(&self, workspace_id: WorkspaceId) -> (r: Result<Vec<Quiz>, AppError>)
        ensures
            r matches Ok(v) && views(v@) == self.quizzes().filter(quiz_in_workspace(workspace_id)),
    {
        Ok(filter_records(
            &self.quizzes,
            |q: &Quiz| -> (b: bool)
                ensures b == (q@.workspace_id == workspace_id)
                { q.workspace_id == workspace_id },
            Ghost(quiz_in_workspace(workspace_id)),
        ))
    }

    /// The quizzes generated for one document, in insertion order.
    pub fn list_quizzes_for_document(&self, document_id: DocumentId) -> (r: Result<Vec<Quiz>, AppError>)
        ensures
            r matches Ok(v) && views(v@) == self.quizzes().filter(quiz_for_document(document_id)),
    {
        Ok(filter_records(
            &self.quizzes,
            |q: &Quiz| -> (b: bool)
                ensures b == (q@.document_id == Some(document_id))
                {
                    match q.document_id {
                        Some(d) => d == document_id,
                        None => false,
                    }
                },
            Ghost(quiz_for_document(document_id)),
        ))
    }

    /// Stores `set` under the next flashcard set id and returns it with that id.
    pub fn insert_flashcard_set(&mut self, set: FlashcardSet) -> (r: Result<FlashcardSet, AppError>)
        requires
            old(self).wf(),
            old(self).last_flashcard_set_id() < i64::MAX,
        ensures
            final(self).wf(),
            r matches Ok(s) && s@ == (FlashcardSetView {
                id: FlashcardSetId((old(self).last_flashcard_set_id() + 1) as i64),
                ..set@
            }),
            final(self).last_flashcard_set_id() == old(self).last_flashcard_set_id() + 1,
            final(self).flashcard_sets() == old(self).flashcard_sets().push(
                FlashcardSetView { id: FlashcardSetId((old(self).last_flashcard_set_id() + 1) as i64), ..set@ },
            ),
            final(self).quizzes() == old(self).quizzes(),
            final(self).revision_plans() == old(self).revision_plans(),
            final(self).last_quiz_id() == old(self).last_quiz_id(),
            final(self).last_revision_plan_id() == old(self).last_revision_plan_id(),
    {
        let id = FlashcardSetId(self.last_flashcard_set_id + 1);
        self.last_flashcard_set_id = self.last_flashcard_set_id + 1;
        let stored = FlashcardSet { id, ..set };
        let copy = stored.duplicate();
        let ghost old_s = views(self.flashcard_sets@);
        self.flashcard_sets.push(stored);
        proof {
            assert(views(self.flashcard_sets@) =~= old_s.push(copy@));
            assert(set_ids(views(self.flashcard_sets@)) =~= set_ids(old_s).push(id.0));
        }
        Ok(copy)
    }

    /// The flashcard set with id `id`, if one is stored.
    pub fn get_flashcard_set(&self, id: FlashcardSetId) -> (r: Result<Option<FlashcardSet>, AppError>)
        ensures
            r matches Ok(o) && match o {
                Some(s) => first_with(self.flashcard_sets(), set_has_id(id)) == Some(s@),
                None => first_with(self.flashcard_sets(), set_has_id(id)) is None,
            },
    {
        let pos = find_first(
            &self.flashcard_sets,
            |s: &FlashcardSet| -> (b: bool)
                ensures b == (s@.id == id)
                { s.id == id },
            Ghost(set_has_id(id)),
        );
        match pos {
            Some(i) => Ok(Some(self.flashcard_sets[i].duplicate())),
            None => Ok(None),
        }
    }

    /// The flashcard sets of one workspace, in insertion order.
    pub fn list_flashcard_sets_for_workspace(&self, workspace_id: WorkspaceId) -> (r: Result<
        Vec<FlashcardSet>,
        AppError,
    >)
        ensures
            r matches Ok(v) && views(v@) == self.flashcard_sets().filter(set_in_workspace(workspace_id)),
    {
        Ok(filter_records(
            &self.flashcard_sets,
            |s: &FlashcardSet| -> (b: bool)
                ensures b == (s@.workspace_id == workspace_id)
                { s.workspace_id == workspace_id },
            Ghost(set_in_workspace(workspace_id)),
        ))
    }

    /// Stores `plan` under the next revision plan id and returns it with that id.
    pub fn insert_revision_plan(&mut self, plan: RevisionPlan) -> (r: Result<RevisionPlan, AppError>)
        requires
            old(self).wf(),
            old(self).last_revision_plan_id() < i64::MAX,
        ensures
            final(self).wf(),
            r matches Ok(p) && p@ == (RevisionPlanView {
                id: RevisionPlanId((old(self).last_revision_plan_id() + 1) as i64),
                ..plan@
            }),
            final(self).last_revision_plan_id() == old(self).last_revision_plan_id() + 1,
            final(self).revision_plans() == old(self).revision_plans().push(
                RevisionPlanView { id: RevisionPlanId((old(self).last_revision_plan_id() + 1) as i64), ..plan@ },
            ),
            final(self).quizzes() == old(self).quizzes(),
            final(self).flashcard_sets() == old(self).flashcard_sets(),
            final(self).last_quiz_id() == old(self).last_quiz_id(),
            final(self).last_flashcard_set_id() == old(self).last_flashcard_set_id(),
    {
        let id = RevisionPlanId(self.last_revision_plan_id + 1);
        self.last_revision_plan_id = self.last_revision_plan_id + 1;
        let stored = RevisionPlan { id, ..plan };
        let copy = stored.duplicate();
        let ghost old_p = views(self.revision_plans@);
        self.revision_plans.push(stored);
        proof {
            assert(views(self.revision_plans@) =~= old_p.push(copy@));
            assert(plan_ids(views(self.revision_plans@)) =~= plan_ids(old_p).push(id.0));
        }
        Ok(copy)
    }

    /// The revision plans of one workspace, in insertion order.
    pub fn list_revision_plans_for_workspace(&self, workspace_id: WorkspaceId) -> (r: Result<
        Vec<RevisionPlan>,
        AppError,
    >)
        ensures
            r matches Ok(v) && views(v@) == self.revision_plans().filter(plan_in_workspace(workspace_id)),
    {
        Ok(filter_records(
            &self.revision_plans,
            |p: &RevisionPlan| -> (b: bool)
                ensures b == (p@.workspace_id == workspace_id)
                { p.workspace_id == workspace_id },
            Ghost(plan_in_workspace(workspace_id)),
        ))
    }
}

/// A quiz just stored under a fresh id (one above every id already in the
/// store) is what a lookup by that id finds.
pub proof fn law_stored_quiz_is_found(s: Seq<QuizView>, last: i64, q: QuizView)
    requires
        ids_issued(quiz_ids(s), last),
        q.id.0 == last + 1,
    ensures
        first_with(s.push(q), quiz_has_id(q.id)) == Some(q),
{
    let t = s.push(q);
    let p = quiz_has_id(q.id);
    assert forall|k: int| 0 <= k < s.len() implies !p(t[k]) by {
        assert(quiz_ids(s)[k] == s[k].id.0);
    }
    assert(is_first_match(t, p, s.len() as int));
    lemma_first_match_index(t, p, s.len() as int);
}

/// A flashcard set just stored under a fresh id is what a lookup by that id
/// finds.
pub proof fn law_stored_flashcard_set_is_found(s: Seq<FlashcardSetView>, last: i64, f: FlashcardSetView)
    requires
        ids_issued(set_ids(s), last),
        f.id.0 == last + 1,
    ensures
        first_with(s.push(f), set_has_id(f.id)) == Some(f),
{
    let t = s.push(f);
    let p = set_has_id(f.id);
    assert forall|k: int| 0 <= k < s.len() implies !p(t[k]) by {
        assert(set_ids(s)[k] == s[k].id.0);
    }
    assert(is_first_match(t, p, s.len() as int));
    lemma_first_match_index(t, p, s.len() as int);
}

// ---------------------------------------------------------------------
// Weak topics
// ---------------------------------------------------------------------

/// Where generated quizzes, flashcard sets and revision plans are kept:
/// each stored item comes back with the id the store gave it and its other
/// fields as given.
pub trait StudyRepository {
    spec fn inv(&self) -> bool;

    fn insert_quiz(&mut self, quiz: Quiz) -> (r: Result<Quiz, AppError>)
        requires
            old(self).inv(),
        ensures
            final(self).inv(),
            r matches Ok(q) ==> q@ == (QuizView { id: q.id, ..quiz@ }),
    ;

    fn get_quiz(&self, id: QuizId) -> (r: Result<Option<Quiz>, AppError>)
        requires
            self.inv(),
    ;

    fn list_quizzes_for_workspace(&self, workspace_id: WorkspaceId) -> (r: Result<Vec<Quiz>, AppError>)
        requires
            self.inv(),
    ;

    fn list_quizzes_for_document(&self, document_id: DocumentId) -> (r: Result<Vec<Quiz>, AppError>)
        requires
            self.inv(),
    ;

    fn insert_flashcard_set(&mut self, set: FlashcardSet) -> (r: Result<FlashcardSet, AppError>)
        requires
            old(self).inv(),
        ensures
            final(self).inv(),
            r matches Ok(x) ==> x@ == (FlashcardSetView { id: x.id, ..set@ }),
    ;

    fn get_flashcard_set(&self, id: FlashcardSetId) -> (r: Result<Option<FlashcardSet>, AppError>)
        requires
            self.inv(),
    ;

    fn list_flashcard_sets_for_workspace(&self, workspace_id: WorkspaceId) -> (r: Result<Vec<FlashcardSet>, AppError>)
        requires
            self.inv(),
    ;

    fn insert_revision_plan(&mut self, plan: RevisionPlan) -> (r: Result<RevisionPlan, AppError>)
        requires
            old(self).inv(),
        ensures
            final(self).inv(),
            r matches Ok(p) ==> p@ == (RevisionPlanView { id: p.id, ..plan@ }),
    ;

    fn list_revision_plans_for_workspace(&self, workspace_id: WorkspaceId) -> (r: Result<Vec<RevisionPlan>, AppError>)
        requires
            self.inv(),
    ;
}

impl StudyRepository for InMemoryStudyRepository {
    open spec fn inv(&self) -> bool {
        self.wf()
    }

    /// Stores the quiz under the next id; once every id is used, storing
    /// fails and nothing changes.
    fn insert_quiz(&mut self, quiz: Quiz) -> (r: Result<Quiz, AppError>)
        ensures
            old(self).last_quiz_id() == i64::MAX ==> r is Err && final(self).quizzes() == old(self).quizzes(),
            r is Ok ==> final(self).quizzes() == old(self).quizzes().push(r->Ok_0@),
    {
        if self.last_quiz_id == i64::MAX {
            return Err(AppError::storage("quiz id space exhausted".to_owned()));
        }
        InMemoryStudyRepository::insert_quiz(self, quiz)
    }

    fn get_quiz(&self, id: QuizId) -> (r: Result<Option<Quiz>, AppError>) {
        InMemoryStudyRepository::get_quiz(self, id)
    }

    fn list_quizzes_for_workspace(&self, workspace_id: WorkspaceId) -> (r: Result<Vec<Quiz>, AppError>) {
        InMemoryStudyRepository::list_quizzes_for_workspace(self, workspace_id)
    }

    fn list_quizzes_for_document(&self, document_id: DocumentId) -> (r: Result<Vec<Quiz>, AppError>) {
        InMemoryStudyRepository::list_quizzes_for_document(self, document_id)
    }

    /// Stores the set under the next id; once every id is used, storing
    /// fails and nothing changes.
    fn insert_flashcard_set(&mut self, set: FlashcardSet) -> (r: Result<FlashcardSet, AppError>)
        ensures
            old(self).last_flashcard_set_id() == i64::MAX ==> r is Err && final(self).flashcard_sets()
                == old(self).flashcard_sets(),
            r is Ok ==> final(self).flashcard_sets() == old(self).flashcard_sets().push(r->Ok_0@),
    {
        if self.last_flashcard_set_id == i64::MAX {
            return Err(AppError::storage("flashcard set id space exhausted".to_owned()));
        }
        InMemoryStudyRepository::insert_flashcard_set(self, set)
    }

    fn get_flashcard_set(&self, id: FlashcardSetId) -> (r: Result<Option<FlashcardSet>, AppError>) {
        InMemoryStudyRepository::get_flashcard_set(self, id)
    }

    fn list_flashcard_sets_for_workspace(&self, workspace_id: WorkspaceId) -> (r: Result<Vec<FlashcardSet>, AppError>) {
        InMemoryStudyRepository::list_flashcard_sets_for_workspace(self, workspace_id)
    }

    /// Stores the plan under the next id; once every id is used, storing
    /// fails and nothing changes.
    fn insert_revision_plan(&mut self, plan: RevisionPlan) -> (r: Result<RevisionPlan, AppError>)
        ensures
            old(self).last_revision_plan_id() == i64::MAX ==> r is Err && final(self).revision_plans()
                == old(self).revision_plans(),
            r is Ok ==> final(self).revision_plans() == old(self).revision_plans().push(r->Ok_0@),
    {
        if self.last_revision_plan_id == i64::MAX {
            return Err(AppError::storage("revision plan id space exhausted".to_owned()));
        }
        InMemoryStudyRepository::insert_revision_plan(self, plan)
    }

    fn list_revision_plans_for_workspace(&self, workspace_id: WorkspaceId) -> (r: Result<Vec<RevisionPlan>, AppError>) {
        InMemoryStudyRepository::list_revision_plans_for_workspace(self, workspace_id)
    }
}

/// The running answer tally of one topic in one workspace.
pub struct TopicTally {
    pub workspace_id: i64,
    pub topic: String,
    pub correct_count: u32,
    pub incorrect_count: u32,
}

pub ghost struct TopicTallyView {
    pub workspace_id: i64,
    pub topic: Seq<char>,
    pub correct_count: u32,
    pub incorrect_count: u32,
}

impl View for TopicTally {
    type V = TopicTallyView;

    open spec fn view(&self) -> TopicTallyView {
        TopicTallyView {
            workspace_id: self.workspace_id,
            topic: self.topic@,
            correct_count: self.correct_count,
            incorrect_count: self.incorrect_count,
        }
    }
}

pub open spec fn tally_key(w: i64, topic: Seq<char>) -> spec_fn(TopicTallyView) -> bool {
    |t: TopicTallyView| t.workspace_id == w && t.topic == topic
}

/// The `(correct, incorrect)` counts recorded for `topic` in workspace `w`;
/// `(0, 0)` when nothing was recorded.
pub open spec fn tally_of(s: Seq<TopicTallyView>, w: i64, topic: Seq<char>) -> (u32, u32) {
    match first_with(s, tally_key(w, topic)) {
        Some(t) => (t.correct_count, t.incorrect_count),
        None => (0, 0),
    }
}

/// No two tallies are for the same topic of the same workspace.
pub open spec fn tallies_unique(s: Seq<TopicTallyView>) -> bool {
    forall|i: int, j: int|
        0 <= i < j < s.len() ==> !(#[trigger] s[i].workspace_id == #[trigger] s[j].workspace_id
            && s[i].topic == s[j].topic)
}

/// The weak-topic entry a tally reports.
pub open spec fn weak_topic_of(t: TopicTallyView) -> WeakTopicView {
    WeakTopicView {
        topic: t.topic,
        correct_count: t.correct_count,
        incorrect_count: t.incorrect_count,
    }
}

/// The weak-topic entries of workspace `w`, in tally order.
pub open spec fn weak_topics_in(s: Seq<TopicTallyView>, w: i64) -> Seq<WeakTopicView>
    decreases s.len(),
{
    if s.len() == 0 {
        Seq::empty()
    } else if s.last().workspace_id == w {
        weak_topics_in(s.drop_last(), w).push(weak_topic_of(s.last()))
    } else {
        weak_topics_in(s.drop_last(), w)
    }
}

pub open spec fn answers(t: WeakTopicView) -> int {
    t.correct_count + t.incorrect_count
}

/// The accuracy of `a`, correct answers over all answers (0 with no
/// answers), is at most that of `b`.
pub open spec fn accuracy_le(a: WeakTopicView, b: WeakTopicView) -> bool {
    if answers(a) == 0 {
        true
    } else if answers(b) == 0 {
        a.correct_count == 0
    } else {
        a.correct_count * answers(b) <= b.correct_count * answers(a)
    }
}

/// Ordered weakest first: accuracy never decreases along `s`.
pub open spec fn weakest_first(s: Seq<WeakTopicView>) -> bool {
    forall|i: int, j: int| 0 <= i < j < s.len() ==> accuracy_le(#[trigger] s[i], #[trigger] s[j])
}

proof fn lemma_accuracy_total(a: WeakTopicView, b: WeakTopicView)
    ensures
        accuracy_le(a, b) || accuracy_le(b, a),
{
}

proof fn lemma_accuracy_transitive(a: WeakTopicView, b: WeakTopicView, c: WeakTopicView)
    requires
        accuracy_le(a, b),
        accuracy_le(b, c),
    ensures
        accuracy_le(a, c),
{
    let ta = answers(a);
    let tb = answers(b);
    let tc = answers(c);
    let ac = a.correct_count as int;
    let bc = b.correct_count as int;
    let cc = c.correct_count as int;
    if ta > 0 && tb > 0 && tc > 0 {
        assert(ac * tb * tc <= bc * ta * tc) by (nonlinear_arith)
            requires
                ac * tb <= bc * ta,
                tc > 0,
        ;
        assert(bc * tc * ta <= cc * tb * ta) by (nonlinear_arith)
            requires
                bc * tc <= cc * tb,
                ta > 0,
        ;
        assert(ac * tc <= cc * ta) by (nonlinear_arith)
            requires
                ac * tb * tc <= bc * ta * tc,
                bc * tc * ta <= cc * tb * ta,
                tb > 0,
        ;
    } else if ta > 0 && tb > 0 && tc == 0 {
        assert(ac * tb <= 0);
        assert(ac == 0) by (nonlinear_arith)
            requires
                ac * tb <= 0,
                tb > 0,
                ac >= 0,
        ;
    } else if ta > 0 && tb == 0 && tc > 0 {
        assert(ac * tc == 0) by (nonlinear_arith)
            requires
                ac == 0,
        ;
        assert(0 <= cc * ta) by (nonlinear_arith)
            requires
                cc >= 0,
                ta > 0,
        ;
    }
}

/// Per-topic answer tallies, in the order topics were first recorded.
pub struct InMemoryAnalyticsRepository {
    tallies: Vec<TopicTally>,
}

impl View for InMemoryAnalyticsRepository {
    type V = Seq<TopicTallyView>;

    closed spec fn view(&self) -> Seq<TopicTallyView> {
        views(self.tallies@)
    }
}

impl InMemoryAnalyticsRepository {
    pub open spec fn wf(&self) -> bool {
        tallies_unique(self@)
    }

    pub fn new() -> (r: Self)
        ensures
            r.wf(),
            r@ == Seq::<TopicTallyView>::empty(),
    {
        let r = InMemoryAnalyticsRepository { tallies: Vec::new() };
        assert(r@ =~= Seq::<TopicTallyView>::empty());
        r
    }

    /// Counts one answered quiz question against `topic` in
    /// `workspace_id`: the correct count grows by one for a correct answer,
    /// the incorrect count otherwise. No other tally changes.
    pub fn record_quiz_answer(&mut self, workspace_id: WorkspaceId, topic: &str, correct: bool) -> (r: Result<
        (),
        AppError,
    >)
        requires
            old(self).wf(),
            correct ==> tally_of(old(self)@, workspace_id.0, topic@).0 < u32::MAX,
            !correct ==> tally_of(old(self)@, workspace_id.0, topic@).1 < u32::MAX,
        ensures
            r is Ok,
            final(self).wf(),
            tally_of(final(self)@, workspace_id.0, topic@) == (if correct {
                ((tally_of(old(self)@, workspace_id.0, topic@).0 + 1) as u32, tally_of(old(self)@, workspace_id.0, topic@).1)
            } else {
                (tally_of(old(self)@, workspace_id.0, topic@).0, (tally_of(old(self)@, workspace_id.0, topic@).1 + 1) as u32)
            }),
            forall|w: i64, t: Seq<char>|
                !(w == workspace_id.0 && t == topic@) ==> tally_of(final(self)@, w, t) == tally_of(
                    old(self)@,
                    w,
                    t,
                ),
            forall|w: i64|
                w != workspace_id.0 ==> weak_topics_in(final(self)@, w) == weak_topics_in(old(self)@, w),
    {
        let ghost s = self@;
        let ws = workspace_id.0;
        let pos = position_record(
            &self.tallies,
            |t: &TopicTally| -> (b: bool)
                ensures b == (t@.workspace_id == ws && t@.topic == topic@)
                { t.workspace_id == ws && crate::text::str_eq(t.topic.as_str(), topic) },
            Ghost(tally_key(ws, topic@)),
        );
        if let Some(i) = pos {
            proof {
                lemma_first_match_index(s, tally_key(ws, topic@), i as int);
            }
            let old_c = self.tallies[i].correct_count;
            let old_n = self.tallies[i].incorrect_count;
            let t = TopicTally {
                workspace_id: ws,
                topic: self.tallies[i].topic.clone(),
                correct_count: if correct { old_c + 1 } else { old_c },
                incorrect_count: if correct { old_n } else { old_n + 1 },
            };
            let ghost tv = t@;
            self.tallies.set(i, t);
            proof {
                assert(self@ =~= s.update(i as int, tv));
                self.lemma_update_keeps_others(s, i as int, tv, ws, topic@);
            }
        } else {
            let name = topic.to_owned();
            let t = TopicTally {
                workspace_id: ws,
                topic: name,
                correct_count: if correct { 1 } else { 0 },
                incorrect_count: if correct { 0 } else { 1 },
            };
            let ghost tv = t@;
            self.tallies.push(t);
            proof {
                assert(self@ =~= s.push(tv));
                self.lemma_push_keeps_others(s, tv, ws, topic@);
            }
        }
        Ok(())
    }

    proof fn lemma_update_keeps_others(
        &self,
        s: Seq<TopicTallyView>,
        i: int,
        tv: TopicTallyView,
        ws: i64,
        topic: Seq<char>,
    )
        requires
            tallies_unique(s),
            is_first_match(s, tally_key(ws, topic), i),
            tv.workspace_id == ws,
            tv.topic == topic,
            self@ == s.update(i, tv),
        ensures
            tallies_unique(self@),
            first_with(self@, tally_key(ws, topic)) == Some(tv),
            forall|w: i64, t: Seq<char>|
                !(w == ws && t == topic) ==> tally_of(self@, w, t) == tally_of(s, w, t),
            forall|w: i64| w != ws ==> weak_topics_in(self@, w) == weak_topics_in(s, w),
    {
        let u = self@;
        assert(is_first_match(u, tally_key(ws, topic), i));
        lemma_first_match_index(u, tally_key(ws, topic), i);
        assert forall|w: i64, t: Seq<char>| !(w == ws && t == topic) implies tally_of(u, w, t)
            == tally_of(s, w, t) by {
            let p = tally_key(w, t);
            assert(!p(tv));
            assert(!p(s[i]));
            if exists|j: int| is_first_match(s, p, j) {
                let j = choose|j: int| is_first_match(s, p, j);
                assert(is_first_match(u, p, j));
                lemma_first_match_index(s, p, j);
                lemma_first_match_index(u, p, j);
            } else {
                if exists|j: int| is_first_match(u, p, j) {
                    let j = choose|j: int| is_first_match(u, p, j);
                    assert(is_first_match(s, p, j));
                }
            }
        }
        assert forall|w: i64| w != ws implies weak_topics_in(u, w) == weak_topics_in(s, w) by {
            lemma_weak_topics_update_other(s, i, tv, w);
        }
    }

    proof fn lemma_push_keeps_others(
        &self,
        s: Seq<TopicTallyView>,
        tv: TopicTallyView,
        ws: i64,
        topic: Seq<char>,
    )
        requires
            tallies_unique(s),
            forall|k: int| 0 <= k < s.len() ==> !tally_key(ws, topic)(#[trigger] s[k]),
            tv.workspace_id == ws,
            tv.topic == topic,
            self@ == s.push(tv),
        ensures
            tallies_unique(self@),
            first_with(self@, tally_key(ws, topic)) == Some(tv),
            forall|w: i64, t: Seq<char>|
                !(w == ws && t == topic) ==> tally_of(self@, w, t) == tally_of(s, w, t),
            forall|w: i64| w != ws ==> weak_topics_in(self@, w) == weak_topics_in(s, w),
    {
        let u = self@;
        assert(is_first_match(u, tally_key(ws, topic), s.len() as int));
        lemma_first_match_index(u, tally_key(ws, topic), s.len() as int);
        assert forall|w: i64, t: Seq<char>| !(w == ws && t == topic) implies tally_of(u, w, t)
            == tally_of(s, w, t) by {
            let p = tally_key(w, t);
            assert(!p(tv));
            if exists|j: int| is_first_match(s, p, j) {
                let j = choose|j: int| is_first_match(s, p, j);
                assert(is_first_match(u, p, j));
                lemma_first_match_index(s, p, j);
                lemma_first_match_index(u, p, j);
            } else {
                if exists|j: int| is_first_match(u, p, j) {
                    let j = choose|j: int| is_first_match(u, p, j);
                    assert(is_first_match(s, p, j));
                }
            }
        }
        assert forall|w: i64| w != ws implies weak_topics_in(u, w) == weak_topics_in(s, w) by {
            assert(u.drop_last() =~= s);
        }
    }

    /// The tallies of `workspace_id` as weak-topic entries, weakest (lowest
    /// accuracy) first; entries of equal accuracy keep tally order.
    pub fn list_weak_topics(&self, workspace_id: WorkspaceId) -> (r: Result<Vec<WeakTopic>, AppError>)
        ensures
            r matches Ok(v) && weakest_first(views(v@)) && views(v@).to_multiset()
                == weak_topics_in(self@, workspace_id.0).to_multiset(),
    {
        let ghost s = self@;
        let ws = workspace_id.0;
        let mut out: Vec<WeakTopic> = Vec::new();
        let mut i: usize = 0;
        assert(s.take(0) =~= Seq::<TopicTallyView>::empty());
        assert(views(out@) =~= Seq::<WeakTopicView>::empty());
        while i < self.tallies.len()
            invariant
                i <= self.tallies.len(),
                s == self@,
                weakest_first(views(out@)),
                views(out@).to_multiset() == weak_topics_in(s.take(i as int), ws).to_multiset(),
            decreases self.tallies.len() - i,
        {
            assert(s.take(i + 1).drop_last() =~= s.take(i as int));
            assert(s.take(i + 1).last() == s[i as int]);
            if self.tallies[i].workspace_id == ws {
                let w = WeakTopic {
                    topic: self.tallies[i].topic.clone(),
                    correct_count: self.tallies[i].correct_count,
                    incorrect_count: self.tallies[i].incorrect_count,
                };
                let ghost wv = w@;
                let k = insertion_point(&out, &w);
                let ghost before = views(out@);
                out.insert(k, w);
                proof {
                    assert(wv == weak_topic_of(s[i as int]));
                    assert(views(out@) =~= before.insert(k as int, wv));
                    vstd::seq_lib::to_multiset_insert(before, k as int, wv);
                    vstd::seq_lib::to_multiset_build(weak_topics_in(s.take(i as int), ws), wv);
                    lemma_insert_keeps_order(before, k as int, wv);
                }
            }
            i = i + 1;
        }
        assert(s.take(self.tallies.len() as int) =~= s);
        Ok(out)
    }
}

/// The number of leading entries of `out` whose accuracy is at most that
/// of `w`.
fn insertion_point(out: &Vec<WeakTopic>, w: &WeakTopic) -> (k: usize)
    requires
        weakest_first(views(out@)),
    ensures
        k <= out.len(),
        forall|m: int| 0 <= m < k ==> accuracy_le(#[trigger] views(out@)[m], w@),
        k < out.len() ==> !accuracy_le(views(out@)[k as int], w@),
{
    let mut k: usize = 0;
    while k < out.len()
        invariant
            k <= out.len(),
            forall|m: int| 0 <= m < k ==> accuracy_le(#[trigger] views(out@)[m], w@),
        decreases out.len() - k,
    {
        if !accuracy_at_most(&out[k], w) {
            return k;
        }
        k = k + 1;
    }
    k
}

/// Whether the accuracy of `a` is at most that of `b`.
fn accuracy_at_most(a: &WeakTopic, b: &WeakTopic) -> (r: bool)
    ensures
        r == accuracy_le(a@, b@),
{
    let ta: u64 = a.correct_count as u64 + a.incorrect_count as u64;
    let tb: u64 = b.correct_count as u64 + b.incorrect_count as u64;
    if ta == 0 {
        true
    } else if tb == 0 {
        a.correct_count == 0
    } else {
        let ac: u128 = a.correct_count as u128;
        let bc: u128 = b.correct_count as u128;
        assert(ac * tb <= 0xffff_ffff * 0x1_ffff_fffe) by (nonlinear_arith)
            requires
                ac <= 0xffff_ffff,
                tb <= 0x1_ffff_fffe,
        ;
        assert(bc * ta <= 0xffff_ffff * 0x1_ffff_fffe) by (nonlinear_arith)
            requires
                bc <= 0xffff_ffff,
                ta <= 0x1_ffff_fffe,
        ;
        ac * (tb as u128) <= bc * (ta as u128)
    }
}

proof fn lemma_insert_keeps_order(s: Seq<WeakTopicView>, k: int, x: WeakTopicView)
    requires
        weakest_first(s),
        0 <= k <= s.len(),
        forall|m: int| 0 <= m < k ==> accuracy_le(#[trigger] s[m], x),
        k < s.len() ==> !accuracy_le(s[k], x),
    ensures
        weakest_first(s.insert(k, x)),
{
    let t = s.insert(k, x);
    if k < s.len() {
        lemma_accuracy_total(s[k], x);
    }
    assert forall|i: int, j: int| 0 <= i < j < t.len() implies accuracy_le(#[trigger] t[i], #[trigger] t[j]) by {
        if i < k && j < k {
        } else if i < k && j == k {
        } else if i < k && j > k {
            assert(t[j] == s[j - 1]);
            if k < s.len() {
                assert(accuracy_le(s[i], s[j - 1]));
            }
        } else if i == k {
            assert(t[j] == s[j - 1]);
            assert(accuracy_le(x, s[k]));
            if j - 1 > k {
                assert(accuracy_le(s[k], s[j - 1]));
                lemma_accuracy_transitive(x, s[k], s[j - 1]);
            }
        } else {
            assert(t[i] == s[i - 1]);
            assert(t[j] == s[j - 1]);
        }
    }
}

proof fn lemma_weak_topics_update_other(s: Seq<TopicTallyView>, i: int, tv: TopicTallyView, w: i64)
    requires
        0 <= i < s.len(),
        s[i].workspace_id == tv.workspace_id,
        tv.workspace_id != w,
    ensures
        weak_topics_in(s.update(i, tv), w) == weak_topics_in(s, w),
    decreases s.len(),
{
    let u = s.update(i, tv);
    if i == s.len() - 1 {
        assert(u.drop_last() =~= s.drop_last());
    } else {
        assert(u.drop_last() =~= s.drop_last().update(i, tv));
        lemma_weak_topics_update_other(s.drop_last(), i, tv, w);
    }
}

} // verus!

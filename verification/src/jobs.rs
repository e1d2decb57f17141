//! Background jobs: the job record, its status transitions (run, succeed,
//! fail with a bounded retry budget, cancel), the repository interface
//! with an in-memory and a SQLite implementation, and the queue that
//! producers and the indexing worker use.
use vstd::prelude::*;

use crate::db::{
    decode_all, decoded_from_rows, int_at, is_storage_error, one_param, opt_text_at, read_int, read_opt_text, read_text, row_error, row_error_message, text_at, SqlParam, SqlValue, SqliteConnection,
};
use crate::error::{require_non_empty, AppError, ErrorCategory, ErrorCode};
use crate::ids::{DocumentId, JobId, WorkspaceId};
use crate::json::{as_text, decode_json, encode_json, field, get_field, int_of, json_canonical, json_decode, json_encode, member_value, text_less, text_of, JsonMember, JsonValue};
use crate::records::{duplicate_opt_string, filter_records, find_first, is_first_match, opt_string_view, position_record, views, Record};
use crate::study_store::first_with;
use crate::text::{push_signed_decimal, push_str, signed_decimal, str_eq, string_from_chars};

verus! {

/// Job type of a single-document (re)index request.
pub const JOB_TYPE_INDEX_DOCUMENT: &'static str = "index_document";

/// Job type of the concept extraction step that follows indexing.
pub const JOB_TYPE_EXTRACT_CONCEPTS: &'static str = "extract_concepts";

/// Priority of a newly queued job.
pub const DEFAULT_PRIORITY: i32 = 0;

/// Failures a newly queued job may be retried after.
pub const DEFAULT_MAX_RETRIES: u32 = 3;

/// Where a job is in its life cycle.
#[derive(Debug, Clone, Copy, PartialEq, Eq, Structural)]
pub enum JobStatus {
    Queued,
    Running,
    Succeeded,
    Failed,
    Cancelled,
}

/// A unit of background work with its retry bookkeeping. The payload is
/// JSON text.
#[derive(Debug)]
pub struct Job {
    pub id: JobId,
    pub job_type: String,
    pub payload: String,
    pub status: JobStatus,
    pub priority: i32,
    pub retry_count: u32,
    pub max_retries: u32,
    pub created_at: String,
    pub started_at: Option<String>,
    pub completed_at: Option<String>,
    pub error: Option<String>,
}

pub ghost struct JobView {
    pub id: JobId,
    pub job_type: Seq<char>,
    pub payload: Seq<char>,
    pub status: JobStatus,
    pub priority: i32,
    pub retry_count: u32,
    pub max_retries: u32,
    pub created_at: Seq<char>,
    pub started_at: Option<Seq<char>>,
    pub completed_at: Option<Seq<char>>,
    pub error: Option<Seq<char>>,
}

impl View for Job {
    type V = JobView;

    open spec fn view(&self) -> JobView {
        JobView {
            id: self.id,
            job_type: self.job_type@,
            payload: self.payload@,
            status: self.status,
            priority: self.priority,
            retry_count: self.retry_count,
            max_retries: self.max_retries,
            created_at: self.created_at@,
            started_at: opt_string_view(self.started_at),
            completed_at: opt_string_view(self.completed_at),
            error: opt_string_view(self.error),
        }
    }
}

impl Record for Job {
    fn duplicate(&self) -> (r: Self) {
        Job {
            id: self.id,
            job_type: self.job_type.clone(),
            payload: self.payload.clone(),
            status: self.status,
            priority: self.priority,
            retry_count: self.retry_count,
            max_retries: self.max_retries,
            created_at: self.created_at.clone(),
            started_at: duplicate_opt_string(&self.started_at),
            completed_at: duplicate_opt_string(&self.completed_at),
            error: duplicate_opt_string(&self.error),
        }
    }
}

// ---------------------------------------------------------------------
// Status transitions
// ---------------------------------------------------------------------

/// The job after a worker claims it at `now`.
pub open spec fn running_job(j: JobView, now: Seq<char>) -> JobView {
    JobView { status: JobStatus::Running, started_at: Some(now), ..j }
}

/// The job after it completed successfully at `now`.
pub open spec fn succeeded_job(j: JobView, now: Seq<char>) -> JobView {
    JobView { status: JobStatus::Succeeded, completed_at: Some(now), error: None, ..j }
}

/// The retry count after one more failure (it stays at `u32::MAX` once
/// there).
pub open spec fn next_retry_count(n: u32) -> u32 {
    if n < u32::MAX {
        (n + 1) as u32
    } else {
        n
    }
}

/// The job after an attempt failed with `error` at `now`: while the retry
/// budget lasts it goes back to the queue, after that it has failed for
/// good.
pub open spec fn failed_job(j: JobView, error: Seq<char>, now: Seq<char>) -> JobView {
    let n = next_retry_count(j.retry_count);
    if n <= j.max_retries {
        JobView { status: JobStatus::Queued, retry_count: n, error: Some(error), started_at: None, ..j }
    } else {
        JobView {
            status: JobStatus::Failed,
            retry_count: n,
            error: Some(error),
            completed_at: Some(now),
            ..j
        }
    }
}

/// The job after it was cancelled at `now`.
pub open spec fn cancelled_job(j: JobView, now: Seq<char>) -> JobView {
    JobView { status: JobStatus::Cancelled, completed_at: Some(now), ..j }
}

/// Queued and running jobs are resumed after a restart; the others are
/// finished.
pub open spec fn is_resumable(s: JobStatus) -> bool {
    s == JobStatus::Queued || s == JobStatus::Running
}

/// A failed attempt puts the job back in the queue exactly while failures
/// so far stay within its retry budget; once the budget is spent the job
/// is failed for good and records when.
pub proof fn law_retry_budget(j: JobView, error: Seq<char>, now: Seq<char>)
    requires
        j.retry_count < u32::MAX,
    ensures
        failed_job(j, error, now).retry_count == j.retry_count + 1,
        failed_job(j, error, now).error == Some(error),
        (failed_job(j, error, now).status == JobStatus::Queued) == (j.retry_count + 1 <= j.max_retries),
        (failed_job(j, error, now).status == JobStatus::Failed) == (j.retry_count + 1 > j.max_retries),
        failed_job(j, error, now).status == JobStatus::Failed ==> failed_job(j, error, now).completed_at
            == Some(now),
        failed_job(j, error, now).status == JobStatus::Queued ==> failed_job(j, error, now).started_at
            is None,
{
}

/// A job that fails every attempt, starting with no failures, is back in
/// the queue after each of its first `max_retries` failures and failed
/// for good after the next one.
pub proof fn law_failures_exhaust_budget(j: JobView, error: Seq<char>, now: Seq<char>, k: u32)
    requires
        j.retry_count == k,
        j.max_retries < u32::MAX,
        k <= j.max_retries,
    ensures
        k < j.max_retries ==> failed_job(j, error, now).status == JobStatus::Queued,
        k == j.max_retries ==> failed_job(j, error, now).status == JobStatus::Failed
            && failed_job(j, error, now).retry_count == j.max_retries + 1,
{
}

/// Claiming, completing and cancelling touch nothing but the status and
/// its time stamps; every transition keeps the job's identity, type,
/// payload, priority and budget.
pub proof fn law_transitions_keep_identity(j: JobView, e: Seq<char>, now: Seq<char>)
    ensures
        running_job(j, now).id == j.id && succeeded_job(j, now).id == j.id && failed_job(j, e, now).id
            == j.id && cancelled_job(j, now).id == j.id,
        running_job(j, now).payload == j.payload && succeeded_job(j, now).payload == j.payload
            && failed_job(j, e, now).payload == j.payload && cancelled_job(j, now).payload == j.payload,
        failed_job(j, e, now).max_retries == j.max_retries && failed_job(j, e, now).priority
            == j.priority,
        !is_resumable(succeeded_job(j, now).status) && !is_resumable(cancelled_job(j, now).status),
        is_resumable(running_job(j, now).status),
{
}

fn with_running(job: Job, now: String) -> (r: Job)
    ensures
        r@ == running_job(job@, now@),
{
    Job { status: JobStatus::Running, started_at: Some(now), ..job }
}

fn with_succeeded(job: Job, now: String) -> (r: Job)
    ensures
        r@ == succeeded_job(job@, now@),
{
    Job { status: JobStatus::Succeeded, completed_at: Some(now), error: None, ..job }
}

fn with_failed(job: Job, error: String, now: String) -> (r: Job)
    ensures
        r@ == failed_job(job@, error@, now@),
{
    let n = if job.retry_count < u32::MAX {
        job.retry_count + 1
    } else {
        job.retry_count
    };
    if n <= job.max_retries {
        Job { status: JobStatus::Queued, retry_count: n, error: Some(error), started_at: None, ..job }
    } else {
        Job { status: JobStatus::Failed, retry_count: n, error: Some(error), completed_at: Some(now), ..job }
    }
}

fn with_cancelled(job: Job, now: String) -> (r: Job)
    ensures
        r@ == cancelled_job(job@, now@),
{
    Job { status: JobStatus::Cancelled, completed_at: Some(now), ..job }
}

/// `"job JobId({id}) not found"`.
pub open spec fn job_not_found_message(id: JobId) -> Seq<char> {
    "job JobId("@ + signed_decimal(id.0 as int) + ") not found"@
}

fn job_not_found(id: JobId) -> (e: AppError)
    ensures
        e.code == ErrorCode::InvalidInput,
        e.category == ErrorCategory::UserError,
        e.message@ == job_not_found_message(id),
{
    let mut m: Vec<char> = Vec::new();
    push_str(&mut m, "job JobId(");
    push_signed_decimal(&mut m, id.0);
    push_str(&mut m, ") not found");
    AppError::user(string_from_chars(m.as_slice()))
}

// ---------------------------------------------------------------------
// Repository interface
// ---------------------------------------------------------------------

/// Durable storage of jobs. `next_queued` only reads: a caller claims the
/// job it returns with `mark_running`.
pub trait JobRepository {
    /// The implementation's own invariant.
    spec fn inv(&self) -> bool;

    /// What `next_queued` can answer: exactly the next queued job for a
    /// store that keeps its jobs in memory; for one that reads a database,
    /// whatever a stored row decodes to.
    spec fn next_queued_answer(&self, r: Option<JobView>) -> bool;

    /// What `list_by_status` can answer for `status`.
    spec fn by_status_answer(&self, status: JobStatus, r: Seq<JobView>) -> bool;

    /// What `list_resumable` can answer.
    spec fn resumable_answer(&self, r: Seq<JobView>) -> bool;

    /// Reading cannot fail: so for a store in memory; nothing of the kind
    /// is known of a database.
    spec fn reliable(&self) -> bool;

    /// The store surely holds a job with `id`, so that a transition of it
    /// cannot fail: a store in memory holds it when one of its jobs has
    /// that id; nothing of the kind is known of a database.
    spec fn holds_job(&self, id: JobId) -> bool;

    /// How many more jobs can surely be stored: the ids left to a store in
    /// memory; none is promised by a database.
    spec fn job_room(&self) -> int;

    /// The jobs a `reliable` store holds, in insertion order. Of a
    /// database nothing is modelled.
    spec fn model(&self) -> Seq<JobView>;

    /// Stores `job` under a new id and returns it with that id.
    fn enqueue(&mut self, job: Job) -> (r: Result<Job, AppError>)
        requires
            old(self).inv(),
        ensures
            final(self).inv(),
            r matches Ok(j) ==> j@ == (JobView { id: j.id, ..job@ }),
            old(self).job_room() > 0 ==> r is Ok,
            old(self).reliable() ==> final(self).reliable() && match r {
                Ok(j) => final(self).model() == old(self).model().push(j@) && crate::records::no_match(
                    old(self).model(),
                    job_has_id(j.id),
                ) && final(self).job_room() == old(self).job_room() - 1,
                Err(_) => final(self).model() == old(self).model() && final(self).job_room() == old(self).job_room(),
            },
    ;

    /// The queued job to run next: highest priority first, oldest first
    /// among equal priorities.
    fn next_queued(&self) -> (r: Result<Option<Job>, AppError>)
        requires
            self.inv(),
        ensures
            r matches Ok(o) ==> self.next_queued_answer(
                match o {
                    Some(j) => Some(j@),
                    None => None,
                },
            ),
            self.reliable() ==> r is Ok,
            self.reliable() ==> match r {
                Ok(Some(j)) => exists|i: int| is_next_queued(self.model(), i) && #[trigger] self.model()[i] == j@,
                Ok(None) => forall|k: int| 0 <= k < self.model().len() ==> #[trigger] self.model()[k].status
                    != JobStatus::Queued,
                Err(_) => false,
            },
    ;

    fn find_by_id(&self, id: JobId) -> (r: Result<Option<Job>, AppError>)
        requires
            self.inv(),
        ensures
            self.reliable() ==> r is Ok,
            self.reliable() ==> (r matches Ok(o) && match o {
                Some(j) => first_with(self.model(), job_has_id(id)) == Some(j@),
                None => first_with(self.model(), job_has_id(id)) is None,
            }),
    ;

    /// Every job with `status`, oldest first.
    fn list_by_status(&self, status: JobStatus) -> (r: Result<Vec<Job>, AppError>)
        requires
            self.inv(),
        ensures
            r matches Ok(v) ==> self.by_status_answer(status, views(v@)),
            self.reliable() ==> (r matches Ok(v) && views(v@) == self.model().filter(job_has_status(status))),
    ;

    fn mark_running(&mut self, id: JobId) -> (r: Result<Job, AppError>)
        requires
            old(self).inv(),
        ensures
            final(self).inv(),
            r matches Ok(j) ==> j.status == JobStatus::Running && j.started_at is Some,
            old(self).holds_job(id) ==> r is Ok,
            old(self).reliable() ==> final(self).reliable() && final(self).job_room() == old(self).job_room()
                && match r {
                Ok(j) => exists|i: int|
                    #[trigger] is_first_match(old(self).model(), job_has_id(id), i) && j@ == running_job(old(self).model()[i], j@.started_at->0) && final(self).model()
                        == old(self).model().update(i, j@),
                Err(_) => crate::records::no_match(old(self).model(), job_has_id(id)) && final(self).model()
                    == old(self).model(),
            },
    ;

    fn mark_succeeded(&mut self, id: JobId) -> (r: Result<Job, AppError>)
        requires
            old(self).inv(),
        ensures
            final(self).inv(),
            r matches Ok(j) ==> j.status == JobStatus::Succeeded && j.completed_at is Some && j.error
                is None,
            old(self).holds_job(id) ==> r is Ok,
            old(self).reliable() ==> final(self).reliable() && final(self).job_room() == old(self).job_room()
                && match r {
                Ok(j) => exists|i: int|
                    #[trigger] is_first_match(old(self).model(), job_has_id(id), i) && j@ == succeeded_job(old(self).model()[i], j@.completed_at->0) && final(self).model()
                        == old(self).model().update(i, j@),
                Err(_) => crate::records::no_match(old(self).model(), job_has_id(id)) && final(self).model()
                    == old(self).model(),
            },
    ;

    fn mark_failed(&mut self, id: JobId, error: String) -> (r: Result<Job, AppError>)
        requires
            old(self).inv(),
        ensures
            final(self).inv(),
            r matches Ok(j) ==> j@.error == Some(error@) && (j.status == JobStatus::Queued || j.status
                == JobStatus::Failed) && (j.status == JobStatus::Queued) == (j.retry_count
                <= j.max_retries),
            old(self).holds_job(id) ==> r is Ok,
            old(self).reliable() ==> final(self).reliable() && final(self).job_room() == old(self).job_room()
                && match r {
                Ok(j) => exists|i: int|
                    #[trigger] is_first_match(old(self).model(), job_has_id(id), i) && j@ == failed_job(old(self).model()[i], error@, j@.completed_at->0) && final(self).model()
                        == old(self).model().update(i, j@),
                Err(_) => crate::records::no_match(old(self).model(), job_has_id(id)) && final(self).model()
                    == old(self).model(),
            },
    ;

    fn cancel(&mut self, id: JobId) -> (r: Result<Job, AppError>)
        requires
            old(self).inv(),
        ensures
            final(self).inv(),
            r matches Ok(j) ==> j.status == JobStatus::Cancelled && j.completed_at is Some,
            old(self).holds_job(id) ==> r is Ok,
            old(self).reliable() ==> final(self).reliable() && final(self).job_room() == old(self).job_room()
                && match r {
                Ok(j) => exists|i: int|
                    #[trigger] is_first_match(old(self).model(), job_has_id(id), i) && j@ == cancelled_job(old(self).model()[i], j@.completed_at->0) && final(self).model()
                        == old(self).model().update(i, j@),
                Err(_) => crate::records::no_match(old(self).model(), job_has_id(id)) && final(self).model()
                    == old(self).model(),
            },
    ;

    /// Queued and running jobs, oldest first.
    fn list_resumable(&self) -> (r: Result<Vec<Job>, AppError>)
        requires
            self.inv(),
        ensures
            r matches Ok(v) ==> self.resumable_answer(views(v@)),
            self.reliable() ==> (r matches Ok(v) && views(v@) == self.model().filter(job_resumable())),
    ;
}

// ---------------------------------------------------------------------
// In-memory repository
// ---------------------------------------------------------------------

pub open spec fn job_has_id(id: JobId) -> spec_fn(JobView) -> bool {
    |j: JobView| j.id == id
}

pub open spec fn job_has_status(s: JobStatus) -> spec_fn(JobView) -> bool {
    |j: JobView| j.status == s
}

pub open spec fn job_resumable() -> spec_fn(JobView) -> bool {
    |j: JobView| is_resumable(j.status)
}

/// `s[i]` is the queued job to run next: queued, and no other queued job
/// has a higher priority or the same priority and a smaller position.
pub open spec fn is_next_queued(s: Seq<JobView>, i: int) -> bool {
    &&& 0 <= i < s.len()
    &&& s[i].status == JobStatus::Queued
    &&& forall|k: int|
        0 <= k < s.len() && #[trigger] s[k].status == JobStatus::Queued ==> s[k].priority < s[i].priority
            || (s[k].priority == s[i].priority && i <= k)
}

pub open spec fn job_ids(s: Seq<JobView>) -> Seq<i64> {
    s.map_values(|j: JobView| j.id.0)
}

/// Jobs in insertion order with the last id handed out.
pub struct InMemoryJobRepository {
    jobs: Vec<Job>,
    last_id: i64,
}

impl InMemoryJobRepository {
    pub closed spec fn jobs(&self) -> Seq<JobView> {
        views(self.jobs@)
    }

    pub closed spec fn last_id(&self) -> i64 {
        self.last_id
    }

    pub open spec fn wf(&self) -> bool {
        &&& self.last_id() >= 0
        &&& crate::study_store::ids_issued(job_ids(self.jobs()), self.last_id())
    }

    pub fn new() -> (r: Self)
        ensures
            r.wf(),
            r.jobs() == Seq::<JobView>::empty(),
            r.last_id() == 0,
    {
        let r = InMemoryJobRepository { jobs: Vec::new(), last_id: 0 };
        assert(r.jobs() =~= Seq::<JobView>::empty());
        r
    }

    fn position_of(&self, id: JobId) -> (r: Option<usize>)
        ensures
            r matches Some(i) ==> is_first_match(self.jobs(), job_has_id(id), i as int),
            r is None ==> crate::records::no_match(self.jobs(), job_has_id(id)),
    {
        position_record(
            &self.jobs,
            |j: &Job| -> (b: bool)
                ensures b == (j@.id == id)
                { j.id == id },
            Ghost(job_has_id(id)),
        )
    }

    /// Replaces the job at `i`, keeping the ids as they were.
    fn replace(&mut self, i: usize, job: Job)
        requires
            old(self).wf(),
            i < old(self).jobs().len(),
            job@.id == old(self).jobs()[i as int].id,
        ensures
            final(self).wf(),
            final(self).jobs() == old(self).jobs().update(i as int, job@),
            final(self).last_id() == old(self).last_id(),
    {
        let ghost s = self.jobs();
        let ghost jv = job@;
        self.jobs.set(i, job);
        assert(self.jobs() =~= s.update(i as int, jv));
        assert(job_ids(self.jobs()) =~= job_ids(s));
    }

    /// Applies `step` to the job with `id`; an unknown id is an error.
    fn transition(&mut self, id: JobId, step: u8, error: &String) -> (r: Result<Job, AppError>)
        requires
            old(self).wf(),
            step < 4,
        ensures
            final(self).wf(),
            final(self).last_id() == old(self).last_id(),
            match r {
                Ok(j) => exists|i: int|
                    #[trigger] is_first_match(old(self).jobs(), job_has_id(id), i) && j@ == (if step == 0 {
                        running_job(old(self).jobs()[i], j@.started_at->0)
                    } else if step == 1 {
                        succeeded_job(old(self).jobs()[i], j@.completed_at->0)
                    } else if step == 2 {
                        failed_job(old(self).jobs()[i], error@, j@.completed_at->0)
                    } else {
                        cancelled_job(old(self).jobs()[i], j@.completed_at->0)
                    }) && final(self).jobs() == old(self).jobs().update(i, j@),
                Err(e) => crate::records::no_match(old(self).jobs(), job_has_id(id)) && e.message@
                    == job_not_found_message(id) && e.code == ErrorCode::InvalidInput
                    && final(self).jobs() == old(self).jobs(),
            },
    {
        match self.position_of(id) {
            None => Err(job_not_found(id)),
            Some(i) => {
                let now = crate::time::now_iso8601();
                let ghost nv = now@;
                let current = self.jobs[i].duplicate();
                let next = if step == 0 {
                    with_running(current, now)
                } else if step == 1 {
                    with_succeeded(current, now)
                } else if step == 2 {
                    with_failed(current, error.clone(), now)
                } else {
                    with_cancelled(current, now)
                };
                let out = next.duplicate();
                self.replace(i, next);
                assert(is_first_match(old(self).jobs(), job_has_id(id), i as int));
                Ok(out)
            },
        }
    }

    /// The position of the queued job to run next, if any.
    fn next_queued_position(&self) -> (r: Option<usize>)
        ensures
            r matches Some(i) ==> is_next_queued(self.jobs(), i as int),
            r is None ==> forall|k: int| 0 <= k < self.jobs().len() ==> #[trigger] self.jobs()[k].status
                != JobStatus::Queued,
    {
        let mut best: Option<usize> = None;
        let mut i: usize = 0;
        while i < self.jobs.len()
            invariant
                i <= self.jobs.len(),
                self.jobs() == views(self.jobs@),
                match best {
                    Some(b) => b < i && self.jobs()[b as int].status == JobStatus::Queued && forall|k: int|
                        0 <= k < i && #[trigger] self.jobs()[k].status == JobStatus::Queued
                            ==> self.jobs()[k].priority < self.jobs()[b as int].priority || (
                        self.jobs()[k].priority == self.jobs()[b as int].priority && b <= k),
                    None => forall|k: int| 0 <= k < i ==> #[trigger] self.jobs()[k].status != JobStatus::Queued,
                },
            decreases self.jobs.len() - i,
        {
            assert(self.jobs()[i as int] == self.jobs@[i as int]@);
            if self.jobs[i].status == JobStatus::Queued {
                match best {
                    None => {
                        best = Some(i);
                    },
                    Some(b) => {
                        assert(self.jobs()[b as int] == self.jobs@[b as int]@);
                        if self.jobs[i].priority > self.jobs[b].priority {
                            best = Some(i);
                        }
                    },
                }
            }
            i = i + 1;
        }
        best
    }
}

impl JobRepository for InMemoryJobRepository {
    open spec fn inv(&self) -> bool {
        self.wf()
    }

    open spec fn next_queued_answer(&self, r: Option<JobView>) -> bool {
        match r {
            Some(j) => exists|i: int| is_next_queued(self.jobs(), i) && #[trigger] self.jobs()[i] == j,
            None => forall|k: int| 0 <= k < self.jobs().len() ==> #[trigger] self.jobs()[k].status != JobStatus::Queued,
        }
    }

    open spec fn by_status_answer(&self, status: JobStatus, r: Seq<JobView>) -> bool {
        r == self.jobs().filter(job_has_status(status))
    }

    open spec fn resumable_answer(&self, r: Seq<JobView>) -> bool {
        r == self.jobs().filter(job_resumable())
    }

    open spec fn reliable(&self) -> bool {
        true
    }

    open spec fn holds_job(&self, id: JobId) -> bool {
        !crate::records::no_match(self.jobs(), job_has_id(id))
    }

    open spec fn job_room(&self) -> int {
        i64::MAX - self.last_id()
    }

    open spec fn model(&self) -> Seq<JobView> {
        self.jobs()
    }

    fn enqueue(&mut self, job: Job) -> (r: Result<Job, AppError>)
        ensures
            match r {
                Ok(j) => old(self).last_id() < i64::MAX && j.id.0 == old(self).last_id() + 1
                    && final(self).last_id() == j.id.0 && final(self).jobs() == old(self).jobs().push(j@)
                    && crate::records::no_match(old(self).jobs(), job_has_id(j.id)),
                Err(e) => old(self).last_id() == i64::MAX && final(self).jobs() == old(self).jobs()
                    && final(self).last_id() == old(self).last_id(),
            },
    {
        if self.last_id == i64::MAX {
            return Err(AppError::storage("job id space exhausted".to_owned()));
        }
        let id = JobId(self.last_id + 1);
        self.last_id = self.last_id + 1;
        let stored = Job { id, ..job };
        let out = stored.duplicate();
        let ghost s = self.jobs();
        proof {
            assert forall|k: int| 0 <= k < s.len() implies !job_has_id(id)(#[trigger] s[k]) by {
                assert(job_ids(s)[k] == s[k].id.0);
            }
        }
        self.jobs.push(stored);
        proof {
            assert(self.jobs() =~= s.push(out@));
            assert(job_ids(self.jobs()) =~= job_ids(s).push(id.0));
        }
        Ok(out)
    }

    fn next_queued(&self) -> (r: Result<Option<Job>, AppError>)
        ensures
            match r {
                Ok(Some(j)) => exists|i: int| is_next_queued(self.jobs(), i) && #[trigger] self.jobs()[i] == j@,
                Ok(None) => forall|k: int| 0 <= k < self.jobs().len() ==> #[trigger] self.jobs()[k].status
                    != JobStatus::Queued,
                Err(_) => false,
            },
    {
        match self.next_queued_position() {
            Some(i) => {
                let j = self.jobs[i].duplicate();
                assert(self.jobs()[i as int] == j@);
                Ok(Some(j))
            },
            None => Ok(None),
        }
    }

    fn find_by_id(&self, id: JobId) -> (r: Result<Option<Job>, AppError>)
        ensures
            r matches Ok(o) && match o {
                Some(j) => first_with(self.jobs(), job_has_id(id)) == Some(j@),
                None => first_with(self.jobs(), job_has_id(id)) is None,
            },
    {
        let pos = find_first(
            &self.jobs,
            |j: &Job| -> (b: bool)
                ensures b == (j@.id == id)
                { j.id == id },
            Ghost(job_has_id(id)),
        );
        match pos {
            Some(i) => Ok(Some(self.jobs[i].duplicate())),
            None => Ok(None),
        }
    }

    fn list_by_status(&self, status: JobStatus) -> (r: Result<Vec<Job>, AppError>)
        ensures
            r matches Ok(v) && views(v@) == self.jobs().filter(job_has_status(status)),
    {
        Ok(filter_records(
            &self.jobs,
            |j: &Job| -> (b: bool)
                ensures b == (j@.status == status)
                { j.status == status },
            Ghost(job_has_status(status)),
        ))
    }

    fn mark_running(&mut self, id: JobId) -> (r: Result<Job, AppError>)
        ensures
            match r {
                Ok(j) => exists|i: int|
                    #[trigger] is_first_match(old(self).jobs(), job_has_id(id), i) && j@ == running_job(
                        old(self).jobs()[i],
                        j@.started_at->0,
                    ) && final(self).jobs() == old(self).jobs().update(i, j@),
                Err(e) => crate::records::no_match(old(self).jobs(), job_has_id(id)) && e.message@
                    == job_not_found_message(id) && final(self).jobs() == old(self).jobs(),
            },
            final(self).last_id() == old(self).last_id(),
    {
        let none = String::new();
        let r = self.transition(id, 0, &none);
        proof {
            if r is Ok {
                let i = choose|i: int| #[trigger] is_first_match(old(self).jobs(), job_has_id(id), i) && self.jobs()
                    == old(self).jobs().update(i, r->Ok_0@);
                assert(is_first_match(old(self).model(), job_has_id(id), i));
            }
        }
        r
    }

    fn mark_succeeded(&mut self, id: JobId) -> (r: Result<Job, AppError>)
        ensures
            match r {
                Ok(j) => exists|i: int|
                    #[trigger] is_first_match(old(self).jobs(), job_has_id(id), i) && j@ == succeeded_job(
                        old(self).jobs()[i],
                        j@.completed_at->0,
                    ) && final(self).jobs() == old(self).jobs().update(i, j@),
                Err(e) => crate::records::no_match(old(self).jobs(), job_has_id(id)) && e.message@
                    == job_not_found_message(id) && final(self).jobs() == old(self).jobs(),
            },
            final(self).last_id() == old(self).last_id(),
    {
        let none = String::new();
        let r = self.transition(id, 1, &none);
        proof {
            if r is Ok {
                let i = choose|i: int| #[trigger] is_first_match(old(self).jobs(), job_has_id(id), i) && self.jobs()
                    == old(self).jobs().update(i, r->Ok_0@);
                assert(is_first_match(old(self).model(), job_has_id(id), i));
            }
        }
        r
    }

    fn mark_failed(&mut self, id: JobId, error: String) -> (r: Result<Job, AppError>)
        ensures
            match r {
                Ok(j) => exists|i: int|
                    #[trigger] is_first_match(old(self).jobs(), job_has_id(id), i) && j@ == failed_job(
                        old(self).jobs()[i],
                        error@,
                        j@.completed_at->0,
                    ) && final(self).jobs() == old(self).jobs().update(i, j@),
                Err(e) => crate::records::no_match(old(self).jobs(), job_has_id(id)) && e.message@
                    == job_not_found_message(id) && final(self).jobs() == old(self).jobs(),
            },
            final(self).last_id() == old(self).last_id(),
    {
        let r = self.transition(id, 2, &error);
        proof {
            if r is Ok {
                let i = choose|i: int| #[trigger] is_first_match(old(self).jobs(), job_has_id(id), i) && self.jobs()
                    == old(self).jobs().update(i, r->Ok_0@);
                assert(is_first_match(old(self).model(), job_has_id(id), i));
            }
        }
        r
    }

    fn cancel(&mut self, id: JobId) -> (r: Result<Job, AppError>)
        ensures
            match r {
                Ok(j) => exists|i: int|
                    #[trigger] is_first_match(old(self).jobs(), job_has_id(id), i) && j@ == cancelled_job(
                        old(self).jobs()[i],
                        j@.completed_at->0,
                    ) && final(self).jobs() == old(self).jobs().update(i, j@),
                Err(e) => crate::records::no_match(old(self).jobs(), job_has_id(id)) && e.message@
                    == job_not_found_message(id) && final(self).jobs() == old(self).jobs(),
            },
            final(self).last_id() == old(self).last_id(),
    {
        let none = String::new();
        let r = self.transition(id, 3, &none);
        proof {
            if r is Ok {
                let i = choose|i: int| #[trigger] is_first_match(old(self).jobs(), job_has_id(id), i) && self.jobs()
                    == old(self).jobs().update(i, r->Ok_0@);
                assert(is_first_match(old(self).model(), job_has_id(id), i));
            }
        }
        r
    }

    fn list_resumable(&self) -> (r: Result<Vec<Job>, AppError>)
        ensures
            r matches Ok(v) && views(v@) == self.jobs().filter(job_resumable()),
    {
        Ok(filter_records(
            &self.jobs,
            |j: &Job| -> (b: bool)
                ensures b == is_resumable(j@.status)
                { j.status == JobStatus::Queued || j.status == JobStatus::Running },
            Ghost(job_resumable()),
        ))
    }
}

// ---------------------------------------------------------------------
// SQLite repository
// ---------------------------------------------------------------------

pub open spec fn job_status_name(s: JobStatus) -> Seq<char> {
    match s {
        JobStatus::Queued => "queued"@,
        JobStatus::Running => "running"@,
        JobStatus::Succeeded => "succeeded"@,
        JobStatus::Failed => "failed"@,
        JobStatus::Cancelled => "cancelled"@,
    }
}

pub open spec fn job_status_named(s: Seq<char>) -> Option<JobStatus> {
    if s == "queued"@ {
        Some(JobStatus::Queued)
    } else if s == "running"@ {
        Some(JobStatus::Running)
    } else if s == "succeeded"@ {
        Some(JobStatus::Succeeded)
    } else if s == "failed"@ {
        Some(JobStatus::Failed)
    } else if s == "cancelled"@ {
        Some(JobStatus::Cancelled)
    } else {
        None
    }
}

/// A stored job status reads back as the status it was written for.
pub proof fn law_job_status_round_trip(s: JobStatus)
    ensures
        job_status_named(job_status_name(s)) == Some(s),
{
    reveal_strlit("queued");
    reveal_strlit("running");
    reveal_strlit("succeeded");
    reveal_strlit("failed");
    reveal_strlit("cancelled");
    assert("queued"@.len() != "running"@.len());
    assert("queued"@.len() != "succeeded"@.len());
    assert("queued"@[0] != "failed"@[0]);
    assert("queued"@.len() != "cancelled"@.len());
    assert("running"@.len() != "succeeded"@.len());
    assert("running"@.len() != "failed"@.len());
    assert("running"@.len() != "cancelled"@.len());
    assert("succeeded"@.len() != "failed"@.len());
    assert("succeeded"@[0] != "cancelled"@[0]);
    assert("failed"@.len() != "cancelled"@.len());
}

pub fn job_status_to_str(s: JobStatus) -> (r: &'static str)
    ensures
        r@ == job_status_name(s),
{
    match s {
        JobStatus::Queued => "queued",
        JobStatus::Running => "running",
        JobStatus::Succeeded => "succeeded",
        JobStatus::Failed => "failed",
        JobStatus::Cancelled => "cancelled",
    }
}

pub fn job_status_from_str(s: &str) -> (r: Result<JobStatus, AppError>)
    ensures
        match r {
            Ok(x) => job_status_named(s@) == Some(x),
            Err(e) => job_status_named(s@) is None && is_storage_error(e) && e.message@
                == "unrecognized job status in database: "@ + s@,
        },
{
    if str_eq(s, "queued") {
        Ok(JobStatus::Queued)
    } else if str_eq(s, "running") {
        Ok(JobStatus::Running)
    } else if str_eq(s, "succeeded") {
        Ok(JobStatus::Succeeded)
    } else if str_eq(s, "failed") {
        Ok(JobStatus::Failed)
    } else if str_eq(s, "cancelled") {
        Ok(JobStatus::Cancelled)
    } else {
        let mut m: Vec<char> = Vec::new();
        push_str(&mut m, "unrecognized job status in database: ");
        push_str(&mut m, s);
        Err(AppError::storage(string_from_chars(m.as_slice())))
    }
}

pub open spec fn i32_at(row: Seq<SqlValue>, i: int) -> Option<i32> {
    match int_at(row, i) {
        Some(n) => if i32::MIN <= n <= i32::MAX {
            Some(n as i32)
        } else {
            None
        },
        None => None,
    }
}

fn read_i32(row: &Vec<SqlValue>, i: usize) -> (r: Option<i32>)
    ensures
        r == i32_at(row@, i as int),
{
    match read_int(row, i) {
        Some(n) => if -2147483648 <= n && n <= 2147483647 {
            Some(n as i32)
        } else {
            None
        },
        None => None,
    }
}

/// A `jobs` row: `id, job_type, payload, status, priority, retry_count,
/// max_retries, created_at, started_at, completed_at, error`. The payload
/// must be JSON text.
pub open spec fn job_row(row: Seq<SqlValue>) -> Result<JobView, Seq<char>> {
    match (
        int_at(row, 0),
        text_at(row, 1),
        text_at(row, 2),
        text_at(row, 3),
        i32_at(row, 4),
        crate::db::u32_at(row, 5),
        crate::db::u32_at(row, 6),
        text_at(row, 7),
        opt_text_at(row, 8),
        opt_text_at(row, 9),
        opt_text_at(row, 10),
    ) {
        (Some(id), Some(t), Some(p), Some(st), Some(pr), Some(rc), Some(mr), Some(ca), Some(sa), Some(co), Some(er)) => {
            match json_decode(p) {
                Err(m) => Err("invalid job payload JSON: "@ + m),
                Ok(_) => match job_status_named(st) {
                    Some(status) => Ok(
                        JobView {
                            id: JobId(id),
                            job_type: t,
                            payload: p,
                            status,
                            priority: pr,
                            retry_count: rc,
                            max_retries: mr,
                            created_at: ca,
                            started_at: sa,
                            completed_at: co,
                            error: er,
                        },
                    ),
                    None => Err("unrecognized job status in database: "@ + st),
                },
            }
        },
        _ => Err(row_error_message("job"@)),
    }
}

pub open spec fn job_decoder() -> spec_fn(Vec<SqlValue>) -> Result<JobView, Seq<char>> {
    |row: Vec<SqlValue>| job_row(row@)
}

pub fn job_from_row(row: &Vec<SqlValue>) -> (r: Result<Job, AppError>)
    ensures
        match r {
            Ok(j) => job_row(row@) == Ok::<JobView, Seq<char>>(j@),
            Err(e) => job_row(row@) == Err::<JobView, Seq<char>>(e.message@) && is_storage_error(e),
        },
{
    match (
        read_int(row, 0),
        read_text(row, 1),
        read_text(row, 2),
        read_text(row, 3),
        read_i32(row, 4),
        crate::db::read_u32(row, 5),
        crate::db::read_u32(row, 6),
        read_text(row, 7),
        read_opt_text(row, 8),
        read_opt_text(row, 9),
        read_opt_text(row, 10),
    ) {
        (Some(id), Some(t), Some(p), Some(st), Some(pr), Some(rc), Some(mr), Some(ca), Some(sa), Some(co), Some(er)) => {
            match decode_json(p.as_str()) {
                Err(m) => {
                    let mut msg: Vec<char> = Vec::new();
                    push_str(&mut msg, "invalid job payload JSON: ");
                    push_str(&mut msg, m.as_str());
                    return Err(AppError::storage(string_from_chars(msg.as_slice())));
                },
                Ok(_) => {},
            }
            let status = job_status_from_str(st.as_str())?;
            Ok(
                Job {
                    id: JobId(id),
                    job_type: t,
                    payload: p,
                    status,
                    priority: pr,
                    retry_count: rc,
                    max_retries: mr,
                    created_at: ca,
                    started_at: sa,
                    completed_at: co,
                    error: er,
                },
            )
        },
        _ => Err(row_error("job")),
    }
}

fn opt_param(s: &Option<String>) -> (r: SqlParam)
    ensures
        match s {
            Some(t) => r matches SqlParam::Text(u) && u@ == t@,
            None => r is Null,
        },
{
    match s {
        Some(t) => SqlParam::Text(t.clone()),
        None => SqlParam::Null,
    }
}


/// Jobs kept in the `jobs` table.
pub struct SqliteJobRepository {
    connection: SqliteConnection,
}

impl SqliteJobRepository {
    pub fn new(connection: SqliteConnection) -> (r: Self)
        ensures
            r.conn() == connection,
    {
        SqliteJobRepository { connection }
    }

    /// The connection this repository was made with.
    pub closed spec fn conn(&self) -> SqliteConnection {
        self.connection
    }

    pub fn connection(&self) -> (r: &SqliteConnection)
        ensures
            *r == self.conn(),
    {
        &self.connection
    }

    fn first_job(&self, context: &str, sql: &str, params: &Vec<SqlParam>) -> (r: Result<Option<Job>, AppError>)
        ensures
            !self.conn().is_open() ==> r is Err,
            match r {
                Ok(Some(j)) => exists|row: Vec<SqlValue>| #[trigger] job_row(row@) == Ok::<JobView, Seq<char>>(j@),
                Ok(None) => true,
                Err(e) => is_storage_error(e),
            },
    {
        let rows = self.connection.query(context, sql, params)?;
        if rows.len() == 0 {
            Ok(None)
        } else {
            let j = job_from_row(&rows[0])?;
            Ok(Some(j))
        }
    }

    fn jobs_where(&self, context: &str, sql: &str, params: &Vec<SqlParam>) -> (r: Result<Vec<Job>, AppError>)
        ensures
            !self.conn().is_open() ==> r is Err,
            match r {
                Ok(v) => decoded_from_rows(views(v@), job_decoder()),
                Err(e) => is_storage_error(e),
            },
    {
        let rows = self.connection.query(context, sql, params)?;
        decode_all(&rows, job_from_row, Ghost(job_decoder()))
    }

    /// Reads the job, applies `step` to it at the current time, and writes
    /// its status fields back.
    fn update_status(&self, id: JobId, step: u8, error: &String) -> (r: Result<Job, AppError>)
        requires
            step < 4,
        ensures
            !self.conn().is_open() ==> r is Err,
            match r {
                Ok(j) => exists|old_job: JobView| #[trigger] old_job.id == old_job.id && j@ == (if step == 0 {
                    running_job(old_job, j@.started_at->0)
                } else if step == 1 {
                    succeeded_job(old_job, j@.completed_at->0)
                } else if step == 2 {
                    failed_job(old_job, error@, j@.completed_at->0)
                } else {
                    cancelled_job(old_job, j@.completed_at->0)
                }),
                Err(_) => true,
            },
    {
        let current = match self.find_by_id(id)? {
            Some(j) => j,
            None => {
                return Err(job_not_found(id));
            },
        };
        let ghost before = current@;
        let now = crate::time::now_iso8601();
        let job = if step == 0 {
            with_running(current, now)
        } else if step == 1 {
            with_succeeded(current, now)
        } else if step == 2 {
            with_failed(current, error.clone(), now)
        } else {
            with_cancelled(current, now)
        };
        let mut params: Vec<SqlParam> = Vec::new();
        params.push(SqlParam::Text(job_status_to_str(job.status).to_owned()));
        params.push(SqlParam::Integer(job.retry_count as i64));
        params.push(opt_param(&job.started_at));
        params.push(opt_param(&job.completed_at));
        params.push(opt_param(&job.error));
        params.push(SqlParam::Integer(id.0));
        self.connection.execute(
            "job status update failed",
            "UPDATE jobs SET status = ?1, retry_count = ?2, started_at = ?3, completed_at = ?4, error = ?5 WHERE id = ?6",
            &params,
        )?;
        assert(before.id == before.id);
        Ok(job)
    }
}

impl JobRepository for SqliteJobRepository {
    open spec fn inv(&self) -> bool {
        true
    }

    open spec fn next_queued_answer(&self, r: Option<JobView>) -> bool {
        match r {
            Some(j) => exists|row: Vec<SqlValue>| #[trigger] job_row(row@) == Ok::<JobView, Seq<char>>(j),
            None => true,
        }
    }

    open spec fn by_status_answer(&self, status: JobStatus, r: Seq<JobView>) -> bool {
        decoded_from_rows(r, job_decoder())
    }

    open spec fn resumable_answer(&self, r: Seq<JobView>) -> bool {
        decoded_from_rows(r, job_decoder())
    }

    open spec fn reliable(&self) -> bool {
        false
    }

    open spec fn holds_job(&self, id: JobId) -> bool {
        false
    }

    open spec fn job_room(&self) -> int {
        0
    }

    open spec fn model(&self) -> Seq<JobView> {
        Seq::empty()
    }

    fn enqueue(&mut self, job: Job) -> (r: Result<Job, AppError>)
        ensures
            !old(self).conn().is_open() ==> r is Err,
            r matches Err(e) ==> is_storage_error(e),
    {
        let mut params: Vec<SqlParam> = Vec::new();
        params.push(SqlParam::Text(job.job_type.clone()));
        params.push(SqlParam::Text(job.payload.clone()));
        params.push(SqlParam::Text(job_status_to_str(job.status).to_owned()));
        params.push(SqlParam::Integer(job.priority as i64));
        params.push(SqlParam::Integer(job.retry_count as i64));
        params.push(SqlParam::Integer(job.max_retries as i64));
        params.push(SqlParam::Text(job.created_at.clone()));
        params.push(opt_param(&job.started_at));
        params.push(opt_param(&job.completed_at));
        params.push(opt_param(&job.error));
        let id = self.connection.insert(
            "job enqueue failed",
            "INSERT INTO jobs (job_type, payload, status, priority, retry_count, max_retries, created_at, started_at, completed_at, error) VALUES (?1, ?2, ?3, ?4, ?5, ?6, ?7, ?8, ?9, ?10)",
            &params,
        )?;
        Ok(Job { id: JobId(id), ..job })
    }

    fn next_queued(&self) -> (r: Result<Option<Job>, AppError>)
        ensures
            !self.conn().is_open() ==> r is Err,
            match r {
                Ok(Some(j)) => exists|row: Vec<SqlValue>| #[trigger] job_row(row@) == Ok::<JobView, Seq<char>>(j@),
                Ok(None) => true,
                Err(e) => is_storage_error(e),
            },
    {
        let none: Vec<SqlParam> = Vec::new();
        self.first_job(
            "job next_queued failed",
            "SELECT id, job_type, payload, status, priority, retry_count, max_retries, created_at, started_at, completed_at, error FROM jobs WHERE status = 'queued' ORDER BY priority DESC, id ASC LIMIT 1",
            &none,
        )
    }

    fn find_by_id(&self, id: JobId) -> (r: Result<Option<Job>, AppError>)
        ensures
            !self.conn().is_open() ==> r is Err,
            match r {
                Ok(Some(j)) => exists|row: Vec<SqlValue>| #[trigger] job_row(row@) == Ok::<JobView, Seq<char>>(j@),
                Ok(None) => true,
                Err(e) => is_storage_error(e),
            },
    {
        self.first_job(
            "job find_by_id failed",
            "SELECT id, job_type, payload, status, priority, retry_count, max_retries, created_at, started_at, completed_at, error FROM jobs WHERE id = ?1",
            &one_param(SqlParam::Integer(id.0)),
        )
    }

    fn list_by_status(&self, status: JobStatus) -> (r: Result<Vec<Job>, AppError>)
        ensures
            !self.conn().is_open() ==> r is Err,
            match r {
                Ok(v) => decoded_from_rows(views(v@), job_decoder()),
                Err(e) => is_storage_error(e),
            },
    {
        self.jobs_where(
            "job list_by_status query failed",
            "SELECT id, job_type, payload, status, priority, retry_count, max_retries, created_at, started_at, completed_at, error FROM jobs WHERE status = ?1 ORDER BY id ASC",
            &one_param(SqlParam::Text(job_status_to_str(status).to_owned())),
        )
    }

    fn mark_running(&mut self, id: JobId) -> (r: Result<Job, AppError>)
        ensures
            !old(self).conn().is_open() ==> r is Err,
    {
        let none = String::new();
        self.update_status(id, 0, &none)
    }

    fn mark_succeeded(&mut self, id: JobId) -> (r: Result<Job, AppError>)
        ensures
            !old(self).conn().is_open() ==> r is Err,
    {
        let none = String::new();
        self.update_status(id, 1, &none)
    }

    fn mark_failed(&mut self, id: JobId, error: String) -> (r: Result<Job, AppError>)
        ensures
            !old(self).conn().is_open() ==> r is Err,
    {
        self.update_status(id, 2, &error)
    }

    fn cancel(&mut self, id: JobId) -> (r: Result<Job, AppError>)
        ensures
            !old(self).conn().is_open() ==> r is Err,
    {
        let none = String::new();
        self.update_status(id, 3, &none)
    }

    fn list_resumable(&self) -> (r: Result<Vec<Job>, AppError>)
        ensures
            !self.conn().is_open() ==> r is Err,
            match r {
                Ok(v) => decoded_from_rows(views(v@), job_decoder()),
                Err(e) => is_storage_error(e),
            },
    {
        let none: Vec<SqlParam> = Vec::new();
        self.jobs_where(
            "job list_resumable query failed",
            "SELECT id, job_type, payload, status, priority, retry_count, max_retries, created_at, started_at, completed_at, error FROM jobs WHERE status IN ('queued', 'running') ORDER BY id ASC",
            &none,
        )
    }
}

// ---------------------------------------------------------------------
// Payloads
// ---------------------------------------------------------------------

/// The `workspace_id` of a job's payload, when the payload is a JSON
/// object holding an integer there that fits `i64`.
pub open spec fn job_workspace(j: JobView) -> Option<i64> {
    match json_decode(j.payload) {
        Ok(v) => match field(v, "workspace_id"@) {
            Some(JsonValue::Int(i)) => if i64::MIN <= i <= i64::MAX {
                Some(i as i64)
            } else {
                None
            },
            _ => None,
        },
        Err(_) => None,
    }
}

/// The `relative_path` of a job's payload, when it holds a string there.
pub open spec fn job_relative_path(j: JobView) -> Option<Seq<char>> {
    match json_decode(j.payload) {
        Ok(v) => match field(v, "relative_path"@) {
            Some(x) => as_text(x),
            None => None,
        },
        Err(_) => None,
    }
}

pub fn workspace_of(job: &Job) -> (r: Option<i64>)
    ensures
        r == job_workspace(job@),
{
    match decode_json(job.payload.as_str()) {
        Ok(v) => match get_field(&v, "workspace_id") {
            Some(x) => match int_of(x) {
                Some(i) => if -9223372036854775808 <= i && i <= 9223372036854775807 {
                    Some(i as i64)
                } else {
                    None
                },
                None => None,
            },
            None => None,
        },
        Err(_) => None,
    }
}

pub fn relative_path_of(job: &Job) -> (r: Option<String>)
    ensures
        match r {
            Some(p) => job_relative_path(job@) == Some(p@),
            None => job_relative_path(job@) is None,
        },
{
    match decode_json(job.payload.as_str()) {
        Ok(v) => match get_field(&v, "relative_path") {
            Some(x) => text_of(x),
            None => None,
        },
        Err(_) => None,
    }
}

/// `"job {id}: payload missing '{what}'"`.
pub open spec fn missing_payload_message(id: JobId, what: Seq<char>) -> Seq<char> {
    "job "@ + signed_decimal(id.0 as int) + ": payload missing '"@ + what + "'"@
}

fn missing_payload(id: JobId, what: &str) -> (e: AppError)
    ensures
        e.code == ErrorCode::IndexingError,
        e.category == ErrorCategory::Recoverable,
        e.message@ == missing_payload_message(id, what@),
{
    let mut m: Vec<char> = Vec::new();
    push_str(&mut m, "job ");
    push_signed_decimal(&mut m, id.0);
    push_str(&mut m, ": payload missing '");
    push_str(&mut m, what);
    push_str(&mut m, "'");
    AppError::indexing(string_from_chars(m.as_slice()))
}

/// The workspace and relative path an indexing job names.
pub fn parse_payload(job: &Job) -> (r: Result<(WorkspaceId, String), AppError>)
    ensures
        match r {
            Ok((w, p)) => job_workspace(job@) == Some(w.0) && job_relative_path(job@) == Some(p@),
            Err(e) => e.code == ErrorCode::IndexingError && if job_workspace(job@) is None {
                e.message@ == missing_payload_message(job.id, "workspace_id"@)
            } else {
                job_relative_path(job@) is None && e.message@ == missing_payload_message(
                    job.id,
                    "relative_path"@,
                )
            },
        },
{
    let w = match workspace_of(job) {
        Some(w) => w,
        None => {
            return Err(missing_payload(job.id, "workspace_id"));
        },
    };
    match relative_path_of(job) {
        Some(p) => Ok((WorkspaceId(w), p)),
        None => Err(missing_payload(job.id, "relative_path")),
    }
}

/// `v` is `{"workspace_id": w, "relative_path": path}`.
pub open spec fn is_index_payload(v: JsonValue, w: i64, path: Seq<char>) -> bool {
    v matches JsonValue::Object(ms) && ms@.len() == 2 && ms@[0].key@ == "relative_path"@
        && crate::memory_db::is_text_json(ms@[0].value, path) && ms@[1].key@ == "workspace_id"@
        && ms@[1].value == JsonValue::Int(w as i128)
}

/// `v` is `{"document_id": d, "workspace_id": w}`.
pub open spec fn is_extract_payload(v: JsonValue, w: i64, d: i64) -> bool {
    v matches JsonValue::Object(ms) && ms@.len() == 2 && ms@[0].key@ == "document_id"@
        && ms@[0].value == JsonValue::Int(d as i128) && ms@[1].key@ == "workspace_id"@
        && ms@[1].value == JsonValue::Int(w as i128)
}

/// The `document_id` of a job's payload, when the payload is a JSON object
/// holding an integer there that fits `i64`.
pub open spec fn job_document(j: JobView) -> Option<i64> {
    match json_decode(j.payload) {
        Ok(v) => match field(v, "document_id"@) {
            Some(JsonValue::Int(i)) => if i64::MIN <= i <= i64::MAX {
                Some(i as i64)
            } else {
                None
            },
            _ => None,
        },
        Err(_) => None,
    }
}

/// An index payload is read back as written: its workspace and path.
proof fn lemma_index_payload_read_back(v: JsonValue, w: i64, path: Seq<char>, text: Seq<char>)
    requires
        is_index_payload(v, w, path),
        json_decode(text) == Ok::<JsonValue, Seq<char>>(v),
    ensures
        field(v, "workspace_id"@) == Some(JsonValue::Int(w as i128)),
        field(v, "relative_path"@) matches Some(x) && as_text(x) == Some(path),
{
    reveal_strlit("relative_path");
    reveal_strlit("workspace_id");
    let ms = v->Object_0@;
    assert("relative_path"@[0] == 'r' && "workspace_id"@[0] == 'w');
    assert(ms[0].key@ != "workspace_id"@);
    assert(ms[1].key@ != "relative_path"@);
    assert(ms.drop_first().drop_first().len() == 0);
    assert(member_value(ms.drop_first(), "workspace_id"@) == Some(ms[1].value));
}

/// The payload written for an indexing job decodes back to itself.
proof fn lemma_index_payload_canonical(v: JsonValue, w: i64, path: Seq<char>)
    requires
        is_index_payload(v, w, path),
    ensures
        json_canonical(v, 100),
{
    reveal_strlit("relative_path");
    reveal_strlit("workspace_id");
    let ms = v->Object_0@;
    assert("relative_path"@[0] == 'r' && "workspace_id"@[0] == 'w');
    assert(text_less(ms[0].key@, ms[1].key@));
    assert(crate::json::canonical_members(ms.drop_last().drop_last(), 99));
    assert(ms.drop_last().last() == ms[0]);
    assert(json_canonical(ms[0].value, 99));
    assert(json_canonical(ms[1].value, 99));
    assert(crate::json::canonical_members(ms.drop_last(), 99));
    assert(crate::json::canonical_members(ms, 99));
}

/// The payload written for an extraction job decodes back to itself, and
/// its fields are read back as written.
proof fn lemma_extract_payload_read_back(v: JsonValue, w: i64, d: i64)
    requires
        is_extract_payload(v, w, d),
    ensures
        json_canonical(v, 100),
        field(v, "workspace_id"@) == Some(JsonValue::Int(w as i128)),
        field(v, "document_id"@) == Some(JsonValue::Int(d as i128)),
{
    reveal_strlit("document_id");
    reveal_strlit("workspace_id");
    let ms = v->Object_0@;
    assert("document_id"@[0] == 'd' && "workspace_id"@[0] == 'w');
    assert(text_less(ms[0].key@, ms[1].key@));
    assert(crate::json::canonical_members(ms.drop_last().drop_last(), 99));
    assert(ms.drop_last().last() == ms[0]);
    assert(json_canonical(ms[0].value, 99));
    assert(json_canonical(ms[1].value, 99));
    assert(crate::json::canonical_members(ms.drop_last(), 99));
    assert(crate::json::canonical_members(ms, 99));
    assert(ms[0].key@ != "workspace_id"@);
    assert(ms.drop_first().drop_first().len() == 0);
    assert(member_value(ms.drop_first(), "workspace_id"@) == Some(ms[1].value));
}

/// A freshly built job of type `t`: queued, default priority, no
/// failures yet, the default retry budget, not started.
pub open spec fn is_new_job(j: JobView, t: Seq<char>) -> bool {
    &&& j.job_type == t
    &&& j.status == JobStatus::Queued
    &&& j.priority == DEFAULT_PRIORITY
    &&& j.retry_count == 0
    &&& j.max_retries == DEFAULT_MAX_RETRIES
    &&& j.started_at is None
    &&& j.completed_at is None
    &&& j.error is None
}

fn new_job(job_type: &str, payload: &JsonValue) -> (r: Job)
    ensures
        is_new_job(r@, job_type@),
        r@.payload == json_encode(*payload),
        json_canonical(*payload, 100) ==> json_decode(r@.payload) == crate::json::decoded_as(*payload),
{
    Job {
        id: JobId(0),
        job_type: job_type.to_owned(),
        payload: encode_json(payload),
        status: JobStatus::Queued,
        priority: DEFAULT_PRIORITY,
        retry_count: 0,
        max_retries: DEFAULT_MAX_RETRIES,
        created_at: crate::time::now_iso8601(),
        started_at: None,
        completed_at: None,
        error: None,
    }
}

// ---------------------------------------------------------------------
// The queue
// ---------------------------------------------------------------------

/// Producers enqueue jobs here; the indexing worker drains it.
pub struct JobQueue<R: JobRepository> {
    repository: R,
}

impl<R: JobRepository> JobQueue<R> {
    /// The repository behind the queue.
    pub closed spec fn repo(&self) -> R {
        self.repository
    }

    pub open spec fn wf(&self) -> bool {
        self.repo().inv()
    }

    pub fn new(repository: R) -> (r: Self)
        ensures
            r.repo() == repository,
    {
        JobQueue { repository }
    }

    pub fn repository(&self) -> (r: &R)
        ensures
            *r == self.repo(),
    {
        &self.repository
    }

    /// Queues an indexing job for one file of a workspace; an empty path
    /// is refused before anything is stored.
    pub fn enqueue_index_job(&mut self, workspace_id: WorkspaceId, relative_path: &str) -> (r: Result<
        Job,
        AppError,
    >)
        requires
            old(self).wf(),
        ensures
            final(self).wf(),
            relative_path@.len() == 0 ==> (r matches Err(e) && e.code == ErrorCode::ValidationError
                && e.message@ == crate::error::empty_field_message("relative_path"@) && final(self).repo()
                == old(self).repo()),
            r matches Ok(j) ==> relative_path@.len() > 0 && is_new_job(j@, "index_document"@) && exists|
                v: JsonValue,
            | #[trigger] is_index_payload(v, workspace_id.0, relative_path@) && j@.payload == json_encode(v),
            r matches Ok(j) ==> job_workspace(j@) == Some(workspace_id.0) && job_relative_path(j@) == Some(
                relative_path@,
            ) && plan_job_indexes(j@, workspace_id, relative_path@),
            relative_path@.len() > 0 && old(self).repo().job_room() > 0 ==> r is Ok,
            old(self).repo().reliable() ==> final(self).repo().reliable() && match r {
                Ok(j) => final(self).repo().model() == old(self).repo().model().push(j@) && crate::records::no_match(
                    old(self).repo().model(),
                    job_has_id(j.id),
                ) && final(self).repo().job_room() == old(self).repo().job_room() - 1,
                Err(_) => final(self).repo().model() == old(self).repo().model() && final(self).repo().job_room()
                    == old(self).repo().job_room(),
            },
    {
        require_non_empty("relative_path", relative_path)?;
        let mut ms: Vec<JsonMember> = Vec::new();
        ms.push(JsonMember { key: "relative_path".to_owned(), value: JsonValue::Str(relative_path.to_owned()) });
        ms.push(JsonMember { key: "workspace_id".to_owned(), value: JsonValue::Int(workspace_id.0 as i128) });
        let payload = JsonValue::Object(ms);
        assert(is_index_payload(payload, workspace_id.0, relative_path@));
        proof {
            lemma_index_payload_canonical(payload, workspace_id.0, relative_path@);
        }
        let job = new_job(JOB_TYPE_INDEX_DOCUMENT, &payload);
        proof {
            lemma_index_payload_read_back(payload, workspace_id.0, relative_path@, job@.payload);
        }
        self.repository.enqueue(job)
    }

    /// Queues the concept extraction step for one indexed document.
    pub fn enqueue_extract_concepts_job(&mut self, workspace_id: WorkspaceId, document_id: DocumentId) -> (r: Result<
        Job,
        AppError,
    >)
        requires
            old(self).wf(),
        ensures
            final(self).wf(),
            r matches Ok(j) ==> is_new_job(j@, "extract_concepts"@) && exists|v: JsonValue|
                #[trigger] is_extract_payload(v, workspace_id.0, document_id.0) && j@.payload == json_encode(v),
            r matches Ok(j) ==> job_workspace(j@) == Some(workspace_id.0) && job_document(j@) == Some(document_id.0),
            old(self).repo().job_room() > 0 ==> r is Ok,
            old(self).repo().reliable() ==> final(self).repo().reliable() && match r {
                Ok(j) => final(self).repo().model() == old(self).repo().model().push(j@) && crate::records::no_match(
                    old(self).repo().model(),
                    job_has_id(j.id),
                ) && final(self).repo().job_room() == old(self).repo().job_room() - 1,
                Err(_) => final(self).repo().model() == old(self).repo().model() && final(self).repo().job_room()
                    == old(self).repo().job_room(),
            },
    {
        let mut ms: Vec<JsonMember> = Vec::new();
        ms.push(JsonMember { key: "document_id".to_owned(), value: JsonValue::Int(document_id.0 as i128) });
        ms.push(JsonMember { key: "workspace_id".to_owned(), value: JsonValue::Int(workspace_id.0 as i128) });
        let payload = JsonValue::Object(ms);
        assert(is_extract_payload(payload, workspace_id.0, document_id.0));
        proof {
            lemma_extract_payload_read_back(payload, workspace_id.0, document_id.0);
        }
        let job = new_job(JOB_TYPE_EXTRACT_CONCEPTS, &payload);
        self.repository.enqueue(job)
    }

    pub fn next_queued(&self) -> (r: Result<Option<Job>, AppError>)
        requires
            self.wf(),
        ensures
            r matches Ok(o) ==> self.repo().next_queued_answer(
                match o {
                    Some(j) => Some(j@),
                    None => None,
                },
            ),
            self.repo().reliable() ==> match r {
                Ok(Some(j)) => exists|i: int| is_next_queued(self.repo().model(), i) && #[trigger] self.repo().model()[i]
                    == j@,
                Ok(None) => forall|k: int| 0 <= k < self.repo().model().len() ==> #[trigger] self.repo().model()[k].status
                    != JobStatus::Queued,
                Err(_) => false,
            },
    {
        self.repository.next_queued()
    }

    pub fn mark_running(&mut self, id: JobId) -> (r: Result<Job, AppError>)
        requires
            old(self).wf(),
        ensures
            final(self).wf(),
            r matches Ok(j) ==> j.status == JobStatus::Running && j.started_at is Some,
            old(self).repo().holds_job(id) ==> r is Ok,
            old(self).repo().reliable() ==> final(self).repo().reliable() && match r {
                Ok(j) => exists|i: int|
                    #[trigger] is_first_match(old(self).repo().model(), job_has_id(id), i) && j@ == running_job(old(self).repo().model()[i], j@.started_at->0)
                        && final(self).repo().model() == old(self).repo().model().update(i, j@),
                Err(_) => crate::records::no_match(old(self).repo().model(), job_has_id(id)) && final(self).repo().model()
                    == old(self).repo().model(),
            },
    {
        self.repository.mark_running(id)
    }

    pub fn mark_succeeded(&mut self, id: JobId) -> (r: Result<Job, AppError>)
        requires
            old(self).wf(),
        ensures
            final(self).wf(),
            r matches Ok(j) ==> j.status == JobStatus::Succeeded && j.completed_at is Some && j.error
                is None,
            old(self).repo().holds_job(id) ==> r is Ok,
            old(self).repo().reliable() ==> final(self).repo().reliable() && match r {
                Ok(j) => exists|i: int|
                    #[trigger] is_first_match(old(self).repo().model(), job_has_id(id), i) && j@ == succeeded_job(old(self).repo().model()[i], j@.completed_at->0)
                        && final(self).repo().model() == old(self).repo().model().update(i, j@),
                Err(_) => crate::records::no_match(old(self).repo().model(), job_has_id(id)) && final(self).repo().model()
                    == old(self).repo().model(),
            },
    {
        self.repository.mark_succeeded(id)
    }

    pub fn mark_failed(&mut self, id: JobId, error: String) -> (r: Result<Job, AppError>)
        requires
            old(self).wf(),
        ensures
            final(self).wf(),
            r matches Ok(j) ==> j@.error == Some(error@) && (j.status == JobStatus::Queued) == (j.retry_count
                <= j.max_retries) && (j.status == JobStatus::Queued || j.status == JobStatus::Failed),
            old(self).repo().holds_job(id) ==> r is Ok,
            old(self).repo().reliable() ==> final(self).repo().reliable() && match r {
                Ok(j) => exists|i: int|
                    #[trigger] is_first_match(old(self).repo().model(), job_has_id(id), i) && j@ == failed_job(old(self).repo().model()[i], error@, j@.completed_at->0)
                        && final(self).repo().model() == old(self).repo().model().update(i, j@),
                Err(_) => crate::records::no_match(old(self).repo().model(), job_has_id(id)) && final(self).repo().model()
                    == old(self).repo().model(),
            },
    {
        self.repository.mark_failed(id, error)
    }

    pub fn cancel(&mut self, id: JobId) -> (r: Result<Job, AppError>)
        requires
            old(self).wf(),
        ensures
            final(self).wf(),
            r matches Ok(j) ==> j.status == JobStatus::Cancelled && j.completed_at is Some,
            old(self).repo().holds_job(id) ==> r is Ok,
            old(self).repo().reliable() ==> final(self).repo().reliable() && match r {
                Ok(j) => exists|i: int|
                    #[trigger] is_first_match(old(self).repo().model(), job_has_id(id), i) && j@ == cancelled_job(old(self).repo().model()[i], j@.completed_at->0)
                        && final(self).repo().model() == old(self).repo().model().update(i, j@),
                Err(_) => crate::records::no_match(old(self).repo().model(), job_has_id(id)) && final(self).repo().model()
                    == old(self).repo().model(),
            },
    {
        self.repository.cancel(id)
    }

    /// Jobs left queued or running by a previous session.
    pub fn resumable_jobs(&self) -> (r: Result<Vec<Job>, AppError>)
        requires
            self.wf(),
        ensures
            r matches Ok(v) ==> self.repo().resumable_answer(views(v@)),
            self.repo().reliable() ==> (r matches Ok(v) && views(v@) == self.repo().model().filter(job_resumable())),
    {
        self.repository.list_resumable()
    }
}

// ---------------------------------------------------------------------
// Indexing progress
// ---------------------------------------------------------------------

/// The running indexing job shown in a progress snapshot.
#[derive(Debug)]
pub struct RunningIndexingJob {
    pub job_id: JobId,
    pub relative_path: String,
    pub started_at: Option<String>,
    pub retry_count: u32,
}

/// Per-workspace indexing progress, aggregated from the jobs table. The
/// progress is in tenths of a percent of finished (succeeded or failed)
/// jobs, rounded half up; `None` when the workspace never had a job.
#[derive(Debug)]
pub struct IndexingStatus {
    pub queued: usize,
    pub running: Option<RunningIndexingJob>,
    pub succeeded: usize,
    pub failed: usize,
    pub total: usize,
    pub progress_tenths: Option<u64>,
    pub last_indexed_at: Option<String>,
}

pub open spec fn in_workspace(w: i64) -> spec_fn(JobView) -> bool {
    |j: JobView| job_workspace(j) == Some(w)
}

/// The latest completion time among `s` (text order), if any has one.
pub open spec fn latest_completion(s: Seq<JobView>) -> Option<Seq<char>>
    decreases s.len(),
{
    if s.len() == 0 {
        None
    } else {
        let rest = latest_completion(s.drop_last());
        match s.last().completed_at {
            None => rest,
            Some(c) => match rest {
                None => Some(c),
                Some(m) => if crate::text::text_lt(c, m) {
                    Some(m)
                } else {
                    Some(c)
                },
            },
        }
    }
}

/// `n`, or `usize::MAX` when `n` does not fit.
pub open spec fn capped(n: int) -> usize {
    if n <= usize::MAX {
        n as usize
    } else {
        usize::MAX
    }
}

/// Finished jobs over all jobs in tenths of a percent, rounded half up.
pub open spec fn progress_tenths(done: nat, total: nat) -> Option<u64> {
    if total == 0 {
        None
    } else {
        Some(((2000 * done + total) / (2 * total)) as u64)
    }
}

fn latest_completed(jobs: &Vec<Job>) -> (r: Option<String>)
    ensures
        opt_string_view(r) == latest_completion(views(jobs@)),
{
    let mut best: Option<String> = None;
    let mut i: usize = 0;
    while i < jobs.len()
        invariant
            i <= jobs.len(),
            opt_string_view(best) == latest_completion(views(jobs@).take(i as int)),
        decreases jobs.len() - i,
    {
        assert(views(jobs@).take(i + 1).drop_last() =~= views(jobs@).take(i as int));
        assert(views(jobs@).take(i + 1).last() == jobs@[i as int]@);
        match &jobs[i].completed_at {
            None => {},
            Some(c) => {
                let replace = match &best {
                    None => true,
                    Some(m) => !crate::text::str_lt(c.as_str(), m.as_str()),
                };
                if replace {
                    best = Some(c.clone());
                }
            },
        }
        i = i + 1;
    }
    assert(views(jobs@).take(jobs.len() as int) =~= views(jobs@));
    best
}

fn in_workspace_of(jobs: &Vec<Job>, w: i64) -> (r: Vec<Job>)
    ensures
        views(r@) == views(jobs@).filter(in_workspace(w)),
{
    filter_records(
        jobs,
        |j: &Job| -> (b: bool)
            ensures b == (job_workspace(j@) == Some(w))
            {
                match workspace_of(j) {
                    Some(x) => x == w,
                    None => false,
                }
            },
        Ghost(in_workspace(w)),
    )
}

/// `s` is the progress snapshot of workspace `w` given the jobs of each
/// status: the counts of that workspace's jobs, the first running job, the
/// progress of finished jobs and the latest completion time.
pub open spec fn is_indexing_status(
    s: IndexingStatus,
    queued: Seq<JobView>,
    running: Seq<JobView>,
    succeeded: Seq<JobView>,
    failed: Seq<JobView>,
    w: WorkspaceId,
) -> bool {
    let rn = running.filter(in_workspace(w.0));
    &&& s.queued == queued.filter(in_workspace(w.0)).len()
    &&& s.succeeded == succeeded.filter(in_workspace(w.0)).len()
    &&& s.failed == failed.filter(in_workspace(w.0)).len()
    &&& s.total == capped(s.queued + rn.len() + s.succeeded + s.failed)
    &&& s.progress_tenths == progress_tenths(capped(s.succeeded + s.failed) as nat, s.total as nat)
    &&& opt_string_view(s.last_indexed_at) == latest_completion(succeeded.filter(in_workspace(w.0)))
    &&& match s.running {
        Some(x) => rn.len() > 0 && x.job_id == rn[0].id && job_relative_path(rn[0]) == Some(x.relative_path@)
            && opt_string_view(x.started_at) == rn[0].started_at && x.retry_count == rn[0].retry_count,
        None => rn.len() == 0 || job_relative_path(rn[0]) is None,
    }
}

/// A job queued for workspace `w` counts in `w`'s indexing progress: with
/// it added to the queue's jobs, one more of the workspace's jobs is
/// queued, and the workspace's other counts stay as they were.
pub proof fn law_queued_job_counts_for_its_workspace(model: Seq<JobView>, j: JobView, w: WorkspaceId, other: JobStatus)
    requires
        j.status == JobStatus::Queued,
        job_workspace(j) == Some(w.0),
        other != JobStatus::Queued,
    ensures
        model.push(j).filter(job_has_status(JobStatus::Queued)).filter(in_workspace(w.0)).len() == model.filter(
            job_has_status(JobStatus::Queued),
        ).filter(in_workspace(w.0)).len() + 1,
        model.push(j).filter(job_has_status(other)).filter(in_workspace(w.0)) == model.filter(
            job_has_status(other),
        ).filter(in_workspace(w.0)),
{
    reveal(Seq::filter);
    assert(model.push(j).drop_last() =~= model);
    let q = model.filter(job_has_status(JobStatus::Queued));
    assert(model.push(j).filter(job_has_status(JobStatus::Queued)) == q.push(j));
    assert(q.push(j).drop_last() =~= q);
    assert(model.push(j).filter(job_has_status(other)) == model.filter(job_has_status(other)));
}

/// The last indexed time is the latest completion: it is the completion
/// time of one of the jobs, and no job completed later (in the order of
/// timestamp text); with no completed job there is none.
pub proof fn law_latest_completion_is_the_latest(s: Seq<JobView>)
    ensures
        latest_completion(s) is Some ==> exists|i: int|
            0 <= i < s.len() && #[trigger] s[i].completed_at == latest_completion(s),
        latest_completion(s) is Some ==> forall|i: int|
            0 <= i < s.len() && (#[trigger] s[i].completed_at) is Some ==> !crate::text::text_lt(
                latest_completion(s)->0,
                s[i].completed_at->0,
            ),
        latest_completion(s) is None ==> forall|i: int| 0 <= i < s.len() ==> (#[trigger] s[i].completed_at) is None,
    decreases s.len(),
{
    if s.len() > 0 {
        let front = s.drop_last();
        law_latest_completion_is_the_latest(front);
        let rest = latest_completion(front);
        let n = s.len() - 1;
        assert forall|i: int| 0 <= i < n implies #[trigger] s[i].completed_at == front[i].completed_at by {
            assert(s[i] == front[i]);
        }
        match s.last().completed_at {
            None => {
                if rest is Some {
                    let i = choose|i: int| 0 <= i < front.len() && #[trigger] front[i].completed_at == rest;
                    assert(s[i].completed_at == rest);
                }
            },
            Some(c) => match rest {
                None => {
                    assert(s[n].completed_at == Some(c));
                    crate::text::lemma_text_lt_irreflexive(c);
                },
                Some(m) => {
                    let i0 = choose|i: int| 0 <= i < front.len() && #[trigger] front[i].completed_at == rest;
                    assert(s[i0].completed_at == rest);
                    assert(s[n].completed_at == Some(c));
                    if crate::text::text_lt(c, m) {
                        crate::text::lemma_text_lt_asymmetric(c, m);
                    } else {
                        crate::text::lemma_text_lt_irreflexive(c);
                        assert forall|i: int|
                            0 <= i < s.len() && (#[trigger] s[i].completed_at) is Some implies !crate::text::text_lt(
                                c,
                                s[i].completed_at->0,
                            ) by {
                            if i < n {
                                let x = s[i].completed_at->0;
                                assert(front[i].completed_at == s[i].completed_at);
                                assert(!crate::text::text_lt(m, x));
                                if crate::text::text_lt(c, x) {
                                    if crate::text::text_lt(m, c) {
                                        crate::text::lemma_text_lt_transitive(m, c, x);
                                    } else {
                                        crate::text::lemma_text_lt_total(c, m);
                                    }
                                }
                            }
                        }
                    }
                },
            },
        }
    }
}

/// The progress snapshot of workspace `w` from the jobs of each status.
pub fn indexing_status_from(
    queued: &Vec<Job>,
    running: &Vec<Job>,
    succeeded: &Vec<Job>,
    failed: &Vec<Job>,
    w: WorkspaceId,
) -> (r: IndexingStatus)
    ensures
        is_indexing_status(r, views(queued@), views(running@), views(succeeded@), views(failed@), w),
{
    let q = in_workspace_of(queued, w.0);
    let rn = in_workspace_of(running, w.0);
    let s = in_workspace_of(succeeded, w.0);
    let f = in_workspace_of(failed, w.0);
    let first = if rn.len() > 0 {
        assert(views(rn@)[0] == rn@[0]@);
        match relative_path_of(&rn[0]) {
            Some(p) => Some(
                RunningIndexingJob {
                    job_id: rn[0].id,
                    relative_path: p,
                    started_at: duplicate_opt_string(&rn[0].started_at),
                    retry_count: rn[0].retry_count,
                },
            ),
            None => None,
        }
    } else {
        None
    };
    assert(views(q@).len() == q@.len() && views(rn@).len() == rn@.len());
    assert(views(s@).len() == s@.len() && views(f@).len() == f@.len());
    let total = q.len().saturating_add(rn.len()).saturating_add(s.len()).saturating_add(f.len());
    let done = s.len().saturating_add(f.len());
    let progress = if total == 0 {
        None
    } else {
        let n: u128 = 2000 * (done as u128) + total as u128;
        let d: u128 = 2 * (total as u128);
        Some((n / d) as u64)
    };
    proof {
        if total > 0 {
            assert((2000 * done + total) / (2 * total) <= 1000) by (nonlinear_arith)
                requires
                    done <= total,
                    total > 0,
            ;
        }
    }
    IndexingStatus {
        queued: q.len(),
        running: first,
        succeeded: s.len(),
        failed: f.len(),
        total,
        progress_tenths: progress,
        last_indexed_at: latest_completed(&s),
    }
}

/// The indexing progress of one workspace, read from the queue's jobs.
pub fn compute_indexing_status<R: JobRepository>(job_queue: &JobQueue<R>, workspace_id: WorkspaceId) -> (r: Result<
    IndexingStatus,
    AppError,
>)
    requires
        job_queue.wf(),
    ensures
        r matches Ok(s) ==> (s.total == 0 ==> s.progress_tenths is None),
        r matches Ok(s) ==> exists|q: Seq<JobView>, ru: Seq<JobView>, su: Seq<JobView>, fa: Seq<JobView>|
            #[trigger] is_indexing_status(s, q, ru, su, fa, workspace_id) && job_queue.repo().by_status_answer(
                JobStatus::Queued,
                q,
            ) && job_queue.repo().by_status_answer(JobStatus::Running, ru) && job_queue.repo().by_status_answer(
                JobStatus::Succeeded,
                su,
            ) && job_queue.repo().by_status_answer(JobStatus::Failed, fa),
        job_queue.repo().reliable() ==> r is Ok,
        job_queue.repo().reliable() ==> (r matches Ok(s) && is_indexing_status(
            s,
            job_queue.repo().model().filter(job_has_status(JobStatus::Queued)),
            job_queue.repo().model().filter(job_has_status(JobStatus::Running)),
            job_queue.repo().model().filter(job_has_status(JobStatus::Succeeded)),
            job_queue.repo().model().filter(job_has_status(JobStatus::Failed)),
            workspace_id,
        )),
{
    let repo = job_queue.repository();
    let queued = repo.list_by_status(JobStatus::Queued)?;
    let running = repo.list_by_status(JobStatus::Running)?;
    let succeeded = repo.list_by_status(JobStatus::Succeeded)?;
    let failed = repo.list_by_status(JobStatus::Failed)?;
    Ok(indexing_status_from(&queued, &running, &succeeded, &failed, workspace_id))
}

// ---------------------------------------------------------------------
// Processing one job
// ---------------------------------------------------------------------

/// `"unrecognized job type '{t}'"`.
pub open spec fn unrecognized_type_message(t: Seq<char>) -> Seq<char> {
    "unrecognized job type '"@ + t + "'"@
}

/// What the worker does with a claimed job: give up on it with a message,
/// or index the file it names.
pub enum JobPlan {
    Reject(String),
    Index { workspace_id: WorkspaceId, relative_path: String },
}

/// Decides what to do with a job: an unknown type or a payload without a
/// workspace and path is rejected; an indexing job names the file to index.
pub fn plan_job(job: &Job) -> (r: JobPlan)
    ensures
        match r {
            JobPlan::Reject(m) => if job@.job_type != "index_document"@ {
                m@ == unrecognized_type_message(job@.job_type)
            } else if job_workspace(job@) is None {
                m@ == missing_payload_message(job.id, "workspace_id"@)
            } else {
                job_relative_path(job@) is None && m@ == missing_payload_message(job.id, "relative_path"@)
            },
            JobPlan::Index { workspace_id, relative_path } => job@.job_type == "index_document"@
                && job_workspace(job@) == Some(workspace_id.0) && job_relative_path(job@) == Some(
                relative_path@,
            ),
        },
{
    if !str_eq(job.job_type.as_str(), JOB_TYPE_INDEX_DOCUMENT) {
        let mut m: Vec<char> = Vec::new();
        push_str(&mut m, "unrecognized job type '");
        push_str(&mut m, job.job_type.as_str());
        push_str(&mut m, "'");
        return JobPlan::Reject(string_from_chars(m.as_slice()));
    }
    match parse_payload(job) {
        Ok((w, p)) => JobPlan::Index { workspace_id: w, relative_path: p },
        Err(e) => JobPlan::Reject(e.message),
    }
}

/// What the caller publishes when indexing a job's file failed.
#[derive(Debug)]
pub struct JobFailure {
    pub workspace_id: WorkspaceId,
    pub relative_path: String,
    pub error: String,
}

/// The message a job is refused with before it runs: an unknown type, or
/// an indexing payload without a workspace or a path. `None` for a job
/// that names a file to index.
pub open spec fn rejection(j: JobView) -> Option<Seq<char>> {
    if j.job_type != "index_document"@ {
        Some(unrecognized_type_message(j.job_type))
    } else if job_workspace(j) is None {
        Some(missing_payload_message(j.id, "workspace_id"@))
    } else if job_relative_path(j) is None {
        Some(missing_payload_message(j.id, "relative_path"@))
    } else {
        None
    }
}

/// `after` is `before` with the job of `id` marked failed with `message`
/// (and never marked running); unchanged when no job has `id`.
pub open spec fn marked_failed_only(before: Seq<JobView>, after: Seq<JobView>, id: JobId, message: Seq<char>) -> bool {
    ||| crate::records::no_match(before, job_has_id(id)) && after == before
    ||| exists|i: int, t: Seq<char>|
        #![trigger is_first_match(before, job_has_id(id), i), failed_job(before[i], message, t)]
        is_first_match(before, job_has_id(id), i) && after == before.update(i, failed_job(before[i], message, t))
}

/// `after` is `before` with the job of `id` marked running and then
/// succeeded (`outcome` is `None`) or failed with the error `outcome`;
/// unchanged when no job has `id`.
pub open spec fn ran_to(before: Seq<JobView>, after: Seq<JobView>, id: JobId, outcome: Option<Seq<char>>) -> bool {
    ||| crate::records::no_match(before, job_has_id(id)) && after == before
    ||| exists|i: int, t1: Seq<char>, t2: Seq<char>|
        #![trigger is_first_match(before, job_has_id(id), i), running_job(before[i], t1), ran_step(outcome, t2)]
        is_first_match(before, job_has_id(id), i) && after == before.update(
            i,
            match outcome {
                None => succeeded_job(running_job(before[i], t1), t2),
                Some(e) => failed_job(running_job(before[i], t1), e, t2),
            },
        )
}

/// The time the last step of a run is taken at (a trigger for `ran_to`).
pub open spec fn ran_step(outcome: Option<Seq<char>>, t: Seq<char>) -> (Option<Seq<char>>, Seq<char>) {
    (outcome, t)
}

/// Every answer `resolve` can give for the file `relative_path` of
/// workspace `w` is a failure.
pub open spec fn resolve_fails<P: Fn(WorkspaceId, &str) -> Result<String, AppError>>(
    resolve: P,
    w: WorkspaceId,
    relative_path: Seq<char>,
) -> bool {
    forall|p: &str, o: Result<String, AppError>| #[trigger] resolve.ensures((w, p), o) && p@ == relative_path ==> o is Err
}

/// `outcome` is what a run of the indexing job for `relative_path` in
/// workspace `w` ends with: the message of an error `resolve` gives for
/// the path, or else what `index` gives for the file the path resolved to
/// (`None` for success, the error's message for a failure).
pub open spec fn run_outcome<
    P: Fn(WorkspaceId, &str) -> Result<String, AppError>,
    F: Fn(WorkspaceId, &str, &str) -> Result<(), AppError>,
>(resolve: P, index: F, w: WorkspaceId, relative_path: Seq<char>, outcome: Option<Seq<char>>) -> bool {
    ||| exists|p: &str, e: AppError|
        #[trigger] resolve.ensures((w, p), Err(e)) && p@ == relative_path && outcome == Some(e.message@)
    ||| exists|p: &str, a: String, q: &str, f: &str, res: Result<(), AppError>|
        #![trigger resolve.ensures((w, p), Ok(a)), index.ensures((w, q, f), res)]
        resolve.ensures((w, p), Ok(a)) && index.ensures((w, q, f), res) && p@ == relative_path && q@
            == relative_path && f@ == a@ && outcome == match res {
            Ok(_) => None,
            Err(e) => Some(e.message@),
        }
}

/// Runs one claimed job. A rejected job is marked failed without being
/// started. Otherwise the job is marked running; `resolve` turns its
/// workspace-relative path into the file to read, `index` indexes that
/// file, and the job is marked succeeded or failed by the outcome. The
/// indexing pipeline reports its own failures; a failure to resolve the
/// path happens before the pipeline runs, so it alone is returned for the
/// caller to report.
pub fn process_job<
    R: JobRepository,
    P: Fn(WorkspaceId, &str) -> Result<String, AppError>,
    F: Fn(WorkspaceId, &str, &str) -> Result<(), AppError>,
>(job_queue: &mut JobQueue<R>, job: Job, resolve: P, index: F) -> (r: Option<JobFailure>)
    requires
        old(job_queue).wf(),
        forall|w: WorkspaceId, p: &str| #[trigger] resolve.requires((w, p)),
        forall|w: WorkspaceId, p: &str, a: &str| #[trigger] index.requires((w, p, a)),
    ensures
        final(job_queue).wf(),
        r matches Some(f) ==> plan_job_indexes(job@, f.workspace_id, f.relative_path@),
        r is Some ==> exists|p: &str, e: AppError|
            #[trigger] resolve.ensures((r->0.workspace_id, p), Err(e)) && p@ == r->0.relative_path@
                && r->0.error@ == e.message@,
        forall|w: WorkspaceId, p: Seq<char>|
            #[trigger] plan_job_indexes(job@, w, p) && old(job_queue).repo().holds_job(job.id) && resolve_fails(
                resolve,
                w,
                p,
            ) ==> r is Some,
        old(job_queue).repo().reliable() ==> final(job_queue).repo().reliable() && match rejection(job@) {
            Some(m) => marked_failed_only(old(job_queue).repo().model(), final(job_queue).repo().model(), job.id, m),
            None => exists|outcome: Option<Seq<char>>|
                #[trigger] ran_to(old(job_queue).repo().model(), final(job_queue).repo().model(), job.id, outcome)
                    && (old(job_queue).repo().holds_job(job.id) ==> exists|w: WorkspaceId, p: Seq<char>|
                    #[trigger] plan_job_indexes(job@, w, p) && run_outcome(resolve, index, w, p, outcome)),
        },
{
    let ghost m0 = job_queue.repo().model();
    let ghost reliable = job_queue.repo().reliable();
    match plan_job(&job) {
        JobPlan::Reject(message) => {
            let ghost mv = message@;
            let done = job_queue.mark_failed(job.id, message);
            assert(reliable ==> marked_failed_only(m0, job_queue.repo().model(), job.id, mv));
            None
        },
        JobPlan::Index { workspace_id, relative_path } => {
            let run = job_queue.mark_running(job.id);
            if run.is_err() {
                assert(reliable ==> ran_to(m0, job_queue.repo().model(), job.id, None));
                return None;
            }
            let ghost m1 = job_queue.repo().model();
            let ghost j1 = run->Ok_0@;
            let path = relative_path.as_str();
            match resolve(workspace_id, path) {
                Err(e) => {
                    let ghost failure = e;
                    let report = e.message.clone();
                    let done = job_queue.mark_failed(job.id, e.message);
                    proof {
                        if reliable {
                            lemma_second_step(m0, m1, job.id, j1);
                            lemma_finished(m0, m1, job_queue.repo().model(), job.id, j1, Some(failure.message@), done->Ok_0@);
                        }
                    }
                    assert(run_outcome(resolve, index, workspace_id, path@, Some(failure.message@)));
                    assert(plan_job_indexes(job@, workspace_id, path@));
                    let res = Some(JobFailure { workspace_id, relative_path, error: report });
                    assert(resolve.ensures((res->0.workspace_id, path), Err(failure)));
                    res
                },
                Ok(absolute) => {
                    let indexed = index(workspace_id, path, absolute.as_str());
                    assert(run_outcome(resolve, index, workspace_id, path@, match indexed {
                        Ok(_) => None,
                        Err(e) => Some(e.message@),
                    }));
                    assert(plan_job_indexes(job@, workspace_id, path@));
                    match indexed {
                        Ok(()) => {
                            let done = job_queue.mark_succeeded(job.id);
                            proof {
                                if reliable {
                                    lemma_second_step(m0, m1, job.id, j1);
                                    lemma_finished(m0, m1, job_queue.repo().model(), job.id, j1, None, done->Ok_0@);
                                }
                            }
                        },
                        Err(e) => {
                            let ghost failure = e;
                            let done = job_queue.mark_failed(job.id, e.message);
                            proof {
                                if reliable {
                                    lemma_second_step(m0, m1, job.id, j1);
                                    lemma_finished(m0, m1, job_queue.repo().model(), job.id, j1, Some(failure.message@), done->Ok_0@);
                                }
                            }
                        },
                    }
                    None
                },
            }
        },
    }
}

/// A job marked running (`m0` to `m1`) and then finished as `outcome`
/// with `j2` (`m1` to `m2`) ran to that outcome.
proof fn lemma_finished(
    m0: Seq<JobView>,
    m1: Seq<JobView>,
    m2: Seq<JobView>,
    id: JobId,
    j1: JobView,
    outcome: Option<Seq<char>>,
    j2: JobView,
)
    requires
        exists|i: int|
            #[trigger] is_first_match(m0, job_has_id(id), i) && j1 == running_job(m0[i], j1.started_at->0) && m1
                == m0.update(i, j1) && is_first_match(m1, job_has_id(id), i),
        forall|i: int, k: int|
            #[trigger] is_first_match(m0, job_has_id(id), i) && j1 == running_job(m0[i], j1.started_at->0) && m1
                == m0.update(i, j1) && #[trigger] is_first_match(m1, job_has_id(id), k) ==> k == i,
        exists|k: int|
            #[trigger] is_first_match(m1, job_has_id(id), k) && j2 == match outcome {
                None => succeeded_job(m1[k], j2.completed_at->0),
                Some(e) => failed_job(m1[k], e, j2.completed_at->0),
            } && m2 == m1.update(k, j2),
    ensures
        ran_to(m0, m2, id, outcome),
{
    let i = choose|i: int|
        #[trigger] is_first_match(m0, job_has_id(id), i) && j1 == running_job(m0[i], j1.started_at->0) && m1
            == m0.update(i, j1) && is_first_match(m1, job_has_id(id), i);
    let k = choose|k: int|
        #[trigger] is_first_match(m1, job_has_id(id), k) && j2 == match outcome {
            None => succeeded_job(m1[k], j2.completed_at->0),
            Some(e) => failed_job(m1[k], e, j2.completed_at->0),
        } && m2 == m1.update(k, j2);
    assert(k == i);
    let t1 = j1.started_at->0;
    let t2 = j2.completed_at->0;
    assert(ran_step(outcome, t2) == (outcome, t2));
    assert(running_job(m0[i], t1) == j1);
    assert(m2 =~= m0.update(
        i,
        match outcome {
            None => succeeded_job(running_job(m0[i], t1), t2),
            Some(e) => failed_job(running_job(m0[i], t1), e, t2),
        },
    ));
}

/// After the job of `id` was marked running in `m0`, giving `m1`, that job
/// is still the first with its id, at the same position.
proof fn lemma_second_step(m0: Seq<JobView>, m1: Seq<JobView>, id: JobId, j1: JobView)
    requires
        exists|i: int|
            #[trigger] is_first_match(m0, job_has_id(id), i) && j1 == running_job(m0[i], j1.started_at->0) && m1
                == m0.update(i, j1),
    ensures
        forall|i: int, k: int|
            #[trigger] is_first_match(m0, job_has_id(id), i) && j1 == running_job(m0[i], j1.started_at->0) && m1
                == m0.update(i, j1) && #[trigger] is_first_match(m1, job_has_id(id), k) ==> k == i,
        exists|i: int|
            #[trigger] is_first_match(m0, job_has_id(id), i) && j1 == running_job(m0[i], j1.started_at->0) && m1
                == m0.update(i, j1) && is_first_match(m1, job_has_id(id), i),
{
    let i = choose|i: int|
        #[trigger] is_first_match(m0, job_has_id(id), i) && j1 == running_job(m0[i], j1.started_at->0) && m1
            == m0.update(i, j1);
    assert(is_first_match(m1, job_has_id(id), i)) by {
        assert forall|k: int| 0 <= k < i implies !job_has_id(id)(m1[k]) by {
            assert(m1[k] == m0[k]);
        }
    }
    assert forall|a: int, k: int|
        #[trigger] is_first_match(m0, job_has_id(id), a) && j1 == running_job(m0[a], j1.started_at->0) && m1
            == m0.update(a, j1) && #[trigger] is_first_match(m1, job_has_id(id), k) implies k == a by {
        assert forall|q: int| 0 <= q < a implies !job_has_id(id)(m1[q]) by {
            assert(m1[q] == m0[q]);
        }
        assert(job_has_id(id)(m1[a]));
        if k < a {
        } else if k > a {
        }
    }
}

/// The job is an indexing job for `relative_path` in workspace `w`.
pub open spec fn plan_job_indexes(j: JobView, w: WorkspaceId, relative_path: Seq<char>) -> bool {
    &&& j.job_type == "index_document"@
    &&& job_workspace(j) == Some(w.0)
    &&& job_relative_path(j) == Some(relative_path)
}

// ---------------------------------------------------------------------
// The background worker's lifecycle
// ---------------------------------------------------------------------

/// Whether the background indexing worker runs. The application owns the
/// thread; these decisions keep it to one thread at most.
pub struct WorkerLifecycle {
    running: bool,
}

impl WorkerLifecycle {
    pub closed spec fn active(&self) -> bool {
        self.running
    }

    /// A stopped worker.
    pub fn new() -> (r: Self)
        ensures
            !r.active(),
    {
        WorkerLifecycle { running: false }
    }

    pub fn is_running(&self) -> (r: bool)
        ensures
            r == self.active(),
    {
        self.running
    }

    /// Starts the worker; returns whether a worker thread is to be spawned.
    /// Starting a running worker spawns nothing.
    pub fn start(&mut self) -> (spawn: bool)
        ensures
            spawn == !old(self).active(),
            final(self).active(),
    {
        if self.running {
            false
        } else {
            self.running = true;
            true
        }
    }

    /// Stops the worker; returns whether a running thread is to be told to
    /// stop and joined. Stopping a stopped worker does nothing.
    pub fn stop(&mut self) -> (join: bool)
        ensures
            join == old(self).active(),
            !final(self).active(),
    {
        let was = self.running;
        self.running = false;
        was
    }
}

} // verus!

use atlas_core::ids::{DocumentId, WorkspaceId};
use atlas_core::jobs::{
    compute_indexing_status, InMemoryJobRepository, JobQueue, JobStatus, JOB_TYPE_EXTRACT_CONCEPTS,
    JOB_TYPE_INDEX_DOCUMENT,
};

fn queue() -> JobQueue<InMemoryJobRepository> {
    JobQueue::new(InMemoryJobRepository::new())
}

fn payload(text: &str) -> serde_json::Value {
    serde_json::from_str(text).unwrap()
}

#[test]
fn compute_indexing_status_is_none_progress_when_nothing_ever_queued() {
    let job_queue = queue();
    let status = compute_indexing_status(&job_queue, WorkspaceId(42)).unwrap();
    assert_eq!(status.total, 0);
    assert_eq!(status.progress_tenths, None);
}

#[test]
fn compute_indexing_status_aggregates_by_workspace() {
    let mut job_queue = queue();
    job_queue.enqueue_index_job(WorkspaceId(1), "a.md").unwrap();
    job_queue.enqueue_index_job(WorkspaceId(1), "b.md").unwrap();
    job_queue.enqueue_index_job(WorkspaceId(2), "other.md").unwrap();
    let status = compute_indexing_status(&job_queue, WorkspaceId(1)).unwrap();
    assert_eq!(status.queued, 2);
    assert!(status.running.is_none());
    assert_eq!(status.succeeded, 0);
    assert_eq!(status.failed, 0);
    assert_eq!(status.total, 2);
    assert_eq!(status.progress_tenths, Some(0));
    assert_eq!(status.last_indexed_at, None);
}

#[test]
fn compute_indexing_status_counts_finished_jobs_towards_progress() {
    let mut job_queue = queue();
    let a = job_queue.enqueue_index_job(WorkspaceId(1), "a.md").unwrap();
    let b = job_queue.enqueue_index_job(WorkspaceId(1), "b.md").unwrap();
    job_queue.enqueue_index_job(WorkspaceId(1), "c.md").unwrap();
    job_queue.mark_running(a.id).unwrap();
    job_queue.mark_succeeded(a.id).unwrap();
    job_queue.mark_running(b.id).unwrap();
    let status = compute_indexing_status(&job_queue, WorkspaceId(1)).unwrap();
    assert_eq!(status.queued, 1);
    assert_eq!(status.succeeded, 1);
    assert_eq!(status.total, 3);
    // One of three finished: 33.3 %, in tenths of a percent.
    assert_eq!(status.progress_tenths, Some(333));
    let running = status.running.unwrap();
    assert_eq!(running.relative_path, "b.md");
    assert!(status.last_indexed_at.is_some());
}

#[test]
fn enqueue_index_job_creates_a_queued_job_with_expected_payload() {
    let mut queue = queue();
    let job = queue.enqueue_index_job(WorkspaceId(1), "notes/chapter1.pdf").unwrap();
    assert_eq!(job.job_type, JOB_TYPE_INDEX_DOCUMENT);
    assert_eq!(job.status, JobStatus::Queued);
    let p = payload(&job.payload);
    assert_eq!(p["relative_path"], "notes/chapter1.pdf");
    assert_eq!(p["workspace_id"], 1);
}

#[test]
fn enqueue_extract_concepts_job_creates_a_queued_job_with_expected_payload() {
    let mut queue = queue();
    let job = queue.enqueue_extract_concepts_job(WorkspaceId(1), DocumentId(7)).unwrap();
    assert_eq!(job.job_type, JOB_TYPE_EXTRACT_CONCEPTS);
    assert_eq!(job.status, JobStatus::Queued);
    let p = payload(&job.payload);
    assert_eq!(p["workspace_id"], 1);
    assert_eq!(p["document_id"], 7);
}

#[test]
fn enqueue_index_job_rejects_empty_relative_path() {
    let mut queue = queue();
    let err = queue.enqueue_index_job(WorkspaceId(1), "").unwrap_err();
    assert_eq!(err.message, "relative_path must not be empty");
}

#[test]
fn next_queued_returns_jobs_in_fifo_order_for_equal_priority() {
    let mut queue = queue();
    queue.enqueue_index_job(WorkspaceId(1), "a.pdf").unwrap();
    queue.enqueue_index_job(WorkspaceId(1), "b.pdf").unwrap();
    let first = queue.next_queued().unwrap().unwrap();
    assert_eq!(payload(&first.payload)["relative_path"], "a.pdf");
}

#[test]
fn mark_running_then_succeeded_updates_status() {
    let mut queue = queue();
    let job = queue.enqueue_index_job(WorkspaceId(1), "a.pdf").unwrap();
    let running = queue.mark_running(job.id).unwrap();
    assert_eq!(running.status, JobStatus::Running);
    let done = queue.mark_succeeded(job.id).unwrap();
    assert_eq!(done.status, JobStatus::Succeeded);
}

#[test]
fn mark_failed_requeues_while_retries_remain_then_finally_fails() {
    let mut queue = queue();
    let job = queue.enqueue_index_job(WorkspaceId(1), "a.pdf").unwrap();
    let mut current_id = job.id;
    for _ in 0..job.max_retries {
        queue.mark_running(current_id).unwrap();
        let current = queue.mark_failed(current_id, "boom".to_string()).unwrap();
        assert_eq!(current.status, JobStatus::Queued);
        current_id = current.id;
    }
    queue.mark_running(current_id).unwrap();
    let final_state = queue.mark_failed(current_id, "boom again".to_string()).unwrap();
    assert_eq!(final_state.status, JobStatus::Failed);
    assert_eq!(final_state.retry_count, job.max_retries + 1);
}

#[test]
fn resumable_jobs_includes_queued_and_running_but_not_terminal() {
    let mut queue = queue();
    let queued = queue.enqueue_index_job(WorkspaceId(1), "a.pdf").unwrap();
    let running = queue.enqueue_index_job(WorkspaceId(1), "b.pdf").unwrap();
    queue.mark_running(running.id).unwrap();
    let succeeded = queue.enqueue_index_job(WorkspaceId(1), "c.pdf").unwrap();
    queue.mark_running(succeeded.id).unwrap();
    queue.mark_succeeded(succeeded.id).unwrap();
    let resumable = queue.resumable_jobs().unwrap();
    let ids: Vec<_> = resumable.iter().map(|j| j.id).collect();
    assert!(ids.contains(&queued.id));
    assert!(ids.contains(&running.id));
    assert!(!ids.contains(&succeeded.id));
}

#[test]
fn cancel_marks_job_cancelled() {
    let mut queue = queue();
    let job = queue.enqueue_index_job(WorkspaceId(1), "a.pdf").unwrap();
    let cancelled = queue.cancel(job.id).unwrap();
    assert_eq!(cancelled.status, JobStatus::Cancelled);
}

use atlas_core::ids::JobId;
use atlas_core::jobs::{process_job, Job, JobRepository, WorkerLifecycle};

fn raw_job(job_type: &str, payload: &str) -> Job {
    Job {
        id: JobId(0),
        job_type: job_type.to_string(),
        payload: payload.to_string(),
        status: JobStatus::Queued,
        priority: 0,
        retry_count: 0,
        max_retries: 3,
        created_at: "t".to_string(),
        started_at: None,
        completed_at: None,
        error: None,
    }
}

#[test]
fn a_job_of_an_unknown_type_is_failed_without_running() {
    let mut repo = InMemoryJobRepository::new();
    let job = repo.enqueue(raw_job("mystery", "{}")).unwrap();
    let mut queue = JobQueue::new(repo);
    let failure = process_job(&mut queue, job, |_w: WorkspaceId, p: &str| Ok(p.to_string()), |_w: WorkspaceId, _p: &str, _a: &str| Ok(()));
    assert!(failure.is_none());
    let stored = queue.repository().find_by_id(JobId(1)).unwrap().unwrap();
    assert_eq!(stored.error.as_deref(), Some("unrecognized job type 'mystery'"));
    assert_eq!(stored.retry_count, 1);
}

#[test]
fn a_job_without_a_path_is_failed_with_the_missing_field_named() {
    let mut repo = InMemoryJobRepository::new();
    let job = repo.enqueue(raw_job("index_document", r#"{"workspace_id": 1}"#)).unwrap();
    let mut queue = JobQueue::new(repo);
    assert!(process_job(&mut queue, job, |_w: WorkspaceId, p: &str| Ok(p.to_string()), |_w: WorkspaceId, _p: &str, _a: &str| Ok(())).is_none());
    let stored = queue.repository().find_by_id(JobId(1)).unwrap().unwrap();
    assert_eq!(stored.error.as_deref(), Some("job 1: payload missing 'relative_path'"));
}

#[test]
fn an_indexed_job_succeeds_and_a_failed_one_is_requeued_without_a_second_report() {
    let mut queue = queue();
    let ok = queue.enqueue_index_job(WorkspaceId(1), "good.md").unwrap();
    let bad = queue.enqueue_index_job(WorkspaceId(1), "bad.md").unwrap();
    let resolve = |_w: WorkspaceId, p: &str| Ok(format!("/root/{p}"));
    let index = |_w: WorkspaceId, _p: &str, a: &str| {
        if a == "/root/bad.md" {
            Err(atlas_core::error::AppError::indexing("cannot parse".to_string()))
        } else {
            Ok(())
        }
    };
    assert!(process_job(&mut queue, ok, resolve, index).is_none());
    assert!(process_job(&mut queue, bad, resolve, index).is_none());
    let good = queue.repository().find_by_id(JobId(1)).unwrap().unwrap();
    assert_eq!(good.status, JobStatus::Succeeded);
    let requeued = queue.repository().find_by_id(JobId(2)).unwrap().unwrap();
    assert_eq!(requeued.status, JobStatus::Queued);
    assert_eq!(requeued.error.as_deref(), Some("cannot parse"));
}

#[test]
fn a_path_that_cannot_be_resolved_is_reported_and_marked_failed() {
    let mut queue = queue();
    let job = queue.enqueue_index_job(WorkspaceId(1), "../escape.md").unwrap();
    let resolve = |_w: WorkspaceId, _p: &str| Err::<String, _>(atlas_core::error::AppError::workspace("path escapes the workspace root".to_string()));
    let index = |_w: WorkspaceId, _p: &str, _a: &str| Ok(());
    let failure = process_job(&mut queue, job, resolve, index).unwrap();
    assert_eq!(failure.relative_path, "../escape.md");
    assert_eq!(failure.error, "path escapes the workspace root");
    let stored = queue.repository().find_by_id(JobId(1)).unwrap().unwrap();
    assert_eq!(stored.error.as_deref(), Some("path escapes the workspace root"));
    assert_eq!(stored.retry_count, 1);
}

#[test]
fn starting_a_running_worker_spawns_nothing_and_stopping_twice_is_harmless() {
    let mut worker = WorkerLifecycle::new();
    assert!(!worker.is_running());
    assert!(worker.start());
    assert!(!worker.start());
    assert!(worker.is_running());
    assert!(worker.stop());
    assert!(!worker.stop());
    assert!(!worker.is_running());
}

use atlas_core::jobs::parse_payload;

fn payload_job(payload: &str) -> Job {
    Job {
        id: JobId(1),
        job_type: JOB_TYPE_INDEX_DOCUMENT.to_string(),
        payload: payload.to_string(),
        status: JobStatus::Queued,
        priority: 0,
        retry_count: 0,
        max_retries: 3,
        created_at: "now".to_string(),
        started_at: None,
        completed_at: None,
        error: None,
    }
}

#[test]
fn parse_payload_reads_workspace_id_and_relative_path() {
    let job = payload_job(r#"{ "workspace_id": 7, "relative_path": "a.md" }"#);
    let (workspace_id, relative_path) = parse_payload(&job).unwrap();
    assert_eq!(workspace_id, WorkspaceId(7));
    assert_eq!(relative_path, "a.md");
}

#[test]
fn parse_payload_missing_field_is_a_recoverable_error() {
    let job = payload_job(r#"{ "workspace_id": 7 }"#);
    let err = parse_payload(&job).unwrap_err();
    assert!(err.message.contains("relative_path"));
    assert_eq!(err.category, atlas_core::error::ErrorCategory::Recoverable);
}

#[test]
fn an_enqueued_payload_reads_back_as_written() {
    let mut queue = queue();
    let job = queue.enqueue_index_job(WorkspaceId(7), "a \"quoted\"\npath.md").unwrap();
    assert_eq!(atlas_core::jobs::workspace_of(&job), Some(7));
    assert_eq!(atlas_core::jobs::relative_path_of(&job).as_deref(), Some("a \"quoted\"\npath.md"));
    let extract = queue.enqueue_extract_concepts_job(WorkspaceId(7), DocumentId(3)).unwrap();
    assert_eq!(atlas_core::jobs::workspace_of(&extract), Some(7));
}

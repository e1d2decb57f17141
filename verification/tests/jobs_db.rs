use atlas_core::db::SqliteConnection;
use atlas_core::ids::JobId;
use atlas_core::jobs::{Job, JobRepository, JobStatus, SqliteJobRepository};

fn repo() -> SqliteJobRepository {
    SqliteJobRepository::new(SqliteConnection::open(":memory:"))
}

fn sample_job() -> Job {
    Job {
        id: JobId(0),
        job_type: "index_document".to_string(),
        payload: r#"{"relative_path":"a.pdf"}"#.to_string(),
        status: JobStatus::Queued,
        priority: 0,
        retry_count: 0,
        max_retries: 3,
        created_at: "1970-01-01T00:00:00Z".to_string(),
        started_at: None,
        completed_at: None,
        error: None,
    }
}

#[test]
fn enqueue_assigns_id_and_persists() {
    let mut repo = repo();
    let job = repo.enqueue(sample_job()).unwrap();
    assert_ne!(job.id.0, 0);
    assert!(repo.find_by_id(job.id).unwrap().is_some());
}

#[test]
fn next_queued_orders_by_priority_then_fifo() {
    let mut repo = repo();
    let mut low = sample_job();
    low.priority = 0;
    let mut high = sample_job();
    high.priority = 5;
    repo.enqueue(low).unwrap();
    let high = repo.enqueue(high).unwrap();
    let next = repo.next_queued().unwrap().unwrap();
    assert_eq!(next.id, high.id);
}

#[test]
fn mark_running_then_succeeded_round_trips() {
    let mut repo = repo();
    let job = repo.enqueue(sample_job()).unwrap();
    let running = repo.mark_running(job.id).unwrap();
    assert_eq!(running.status, JobStatus::Running);
    assert!(running.started_at.is_some());
    let done = repo.mark_succeeded(job.id).unwrap();
    assert_eq!(done.status, JobStatus::Succeeded);
    assert!(done.completed_at.is_some());
}

#[test]
fn mark_failed_requeues_within_retry_budget() {
    let mut repo = repo();
    let job = repo.enqueue(sample_job()).unwrap();
    repo.mark_running(job.id).unwrap();
    let failed_once = repo.mark_failed(job.id, "oops".to_string()).unwrap();
    assert_eq!(failed_once.status, JobStatus::Queued);
    assert_eq!(failed_once.retry_count, 1);
}

#[test]
fn mark_failed_terminal_after_max_retries() {
    let mut repo = repo();
    let mut job_def = sample_job();
    job_def.max_retries = 1;
    let job = repo.enqueue(job_def).unwrap();
    repo.mark_running(job.id).unwrap();
    let first_fail = repo.mark_failed(job.id, "e1".to_string()).unwrap();
    assert_eq!(first_fail.status, JobStatus::Queued);
    repo.mark_running(job.id).unwrap();
    let second_fail = repo.mark_failed(job.id, "e2".to_string()).unwrap();
    assert_eq!(second_fail.status, JobStatus::Failed);
}

#[test]
fn list_resumable_excludes_terminal_states() {
    let mut repo = repo();
    let queued = repo.enqueue(sample_job()).unwrap();
    let running = repo.enqueue(sample_job()).unwrap();
    repo.mark_running(running.id).unwrap();
    let succeeded = repo.enqueue(sample_job()).unwrap();
    repo.mark_running(succeeded.id).unwrap();
    repo.mark_succeeded(succeeded.id).unwrap();
    let resumable = repo.list_resumable().unwrap();
    let ids: Vec<_> = resumable.iter().map(|j| j.id).collect();
    assert!(ids.contains(&queued.id));
    assert!(ids.contains(&running.id));
    assert!(!ids.contains(&succeeded.id));
}

#[test]
fn cancel_marks_cancelled() {
    let mut repo = repo();
    let job = repo.enqueue(sample_job()).unwrap();
    let cancelled = repo.cancel(job.id).unwrap();
    assert_eq!(cancelled.status, JobStatus::Cancelled);
}

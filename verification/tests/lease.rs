use forgequeue::domain::{JobKind, JobStatus};
use forgequeue::lease::{
    failure_outcome, AttemptStatus, JobInfo, JobRecord, NewOutput, MAX_ATTEMPTS,
};
use forgequeue::queue::{select_candidate, Creation, JobQueue};
use forgequeue::policy::{UploadLimit, UploadLimits};

fn info(id: u128, created_at: u64) -> JobInfo {
    JobInfo {
        id,
        session_id: 7,
        kind: JobKind::Image,
        original_name: "foto.png".to_owned(),
        input_object_key: "sessions/s/jobs/j/input".to_owned(),
        input_content_type: "image/png".to_owned(),
        input_size: 10,
        input_sha256: "00".to_owned(),
        idempotency_key: None,
        retry_of_job_id: None,
        max_attempts: MAX_ATTEMPTS,
        created_at,
        metadata_expire_at: 1_000_000,
    }
}

fn queued(id: u128, now: u64) -> JobRecord {
    JobRecord::new_queued(info(id, now), now)
}

fn output(name: &str, size: i64) -> NewOutput {
    NewOutput {
        name: name.to_owned(),
        object_key: format!("outputs/{name}"),
        content_type: "image/webp".to_owned(),
        size,
        width: Some(10),
        height: Some(20),
        page_number: None,
    }
}

#[test]
fn claimed_job_runs_under_a_lease() {
    let mut job = queued(1, 100);
    assert_eq!(job.status, JobStatus::Queued);
    assert_eq!(job.stage, "queued");
    assert!(job.claimable(100));
    assert!(job.claim("worker-a", 11, 100, 60));
    assert_eq!(job.status, JobStatus::Running);
    assert_eq!(job.stage, "claimed");
    assert_eq!(job.progress, 5);
    assert_eq!(job.attempt_count, 1);
    assert_eq!(job.worker_id.as_deref(), Some("worker-a"));
    assert_eq!(job.lease_until, Some(160));
    assert_eq!(job.attempts.len(), 1);
    assert_eq!(job.attempts[0].number, 1);
    assert_eq!(job.attempts[0].status, AttemptStatus::Running);
    assert!(job.lease_held_by(11, "worker-a", 159));
    assert!(!job.lease_held_by(11, "worker-a", 160));
    assert!(!job.lease_held_by(11, "worker-b", 120));
    // A running job cannot be claimed again.
    assert!(!job.claim("worker-b", 12, 120, 60));
    assert_eq!(job.worker_id.as_deref(), Some("worker-a"));
}

#[test]
fn heartbeat_and_progress_need_the_live_lease() {
    let mut job = queued(1, 0);
    assert!(job.claim("w", 1, 0, 60));
    assert!(job.heartbeat(1, "w", 50, 60));
    assert_eq!(job.lease_until, Some(110));
    assert!(!job.heartbeat(2, "w", 60, 60));
    assert!(!job.heartbeat(1, "other", 60, 60));
    assert!(job.update_progress(1, "w", "rendering", 250, 70));
    assert_eq!(job.stage, "rendering");
    assert_eq!(job.progress, 99);
    assert!(!job.heartbeat(1, "w", 111, 60));
    assert!(!job.update_progress(1, "w", "late", 10, 111));
    assert_eq!(job.stage, "rendering");
}

#[test]
fn success_completes_the_attempt_and_schedules_expiry() {
    let mut job = queued(1, 0);
    assert!(job.claim("w", 1, 0, 60));
    assert!(job.finish_success(1, "w", 30, 3600));
    assert_eq!(job.status, JobStatus::Succeeded);
    assert_eq!(job.stage, "completed");
    assert_eq!(job.progress, 100);
    assert_eq!(job.worker_id, None);
    assert_eq!(job.lease_until, None);
    assert_eq!(job.completed_at, Some(30));
    assert_eq!(job.artifacts_expire_at, Some(3630));
    assert_eq!(job.attempts[0].status, AttemptStatus::Succeeded);
    assert_eq!(job.attempts[0].finished_at, Some(30));
    assert!(job.is_deletable());
    // A second finish by the same attempt changes nothing.
    assert!(!job.finish_success(1, "w", 31, 3600));
    assert_eq!(job.completed_at, Some(30));
}

#[test]
fn failures_back_off_then_dead_letter_on_the_third_attempt() {
    let mut job = queued(1, 0);
    assert!(job.claim("w", 1, 0, 60));
    assert_eq!(
        job.finish_failure(1, "w", "processing_failed", "boom", true, 10, 3600),
        Some(JobStatus::RetryScheduled)
    );
    assert_eq!(job.stage, "retry_wait");
    assert_eq!(job.available_at, 15);
    assert_eq!(job.last_error_code.as_deref(), Some("processing_failed"));
    assert_eq!(job.attempts[0].status, AttemptStatus::Failed);
    assert_eq!(job.attempts[0].error_detail.as_deref(), Some("boom"));
    assert!(!job.claimable(14));
    assert!(job.claim("w", 2, 15, 60));
    assert_eq!(job.last_error_code, None);
    assert_eq!(
        job.finish_failure(2, "w", "processing_failed", "boom", true, 20, 3600),
        Some(JobStatus::RetryScheduled)
    );
    assert_eq!(job.available_at, 50);
    assert!(job.claim("w", 3, 50, 60));
    assert_eq!(
        job.finish_failure(3, "w", "processing_failed", "boom", true, 60, 3600),
        Some(JobStatus::DeadLettered)
    );
    assert_eq!(job.stage, "dead_lettered");
    assert_eq!(job.completed_at, Some(60));
    assert_eq!(job.artifacts_expire_at, Some(3660));
    assert_eq!(job.attempts.len(), 3);
    assert!(!job.claimable(100_000));
}

#[test]
fn non_retryable_failure_dead_letters_at_once() {
    let mut job = queued(1, 0);
    assert!(job.claim("w", 1, 0, 60));
    assert_eq!(
        job.finish_failure(1, "w", "invalid_input", "bad", false, 10, 100),
        Some(JobStatus::DeadLettered)
    );
    assert_eq!(failure_outcome(1, 3, false), (JobStatus::DeadLettered, 5));
    assert_eq!(failure_outcome(1, 3, true), (JobStatus::RetryScheduled, 5));
    assert_eq!(failure_outcome(2, 3, true), (JobStatus::RetryScheduled, 30));
    assert_eq!(failure_outcome(3, 3, true), (JobStatus::DeadLettered, 0));
}

#[test]
fn stale_attempt_cannot_finish_a_reclaimed_job() {
    let mut job = queued(1, 0);
    assert!(job.claim("worker-a", 1, 0, 10));
    assert!(job.recover_expired_lease(11, 3600));
    assert_eq!(job.status, JobStatus::RetryScheduled);
    assert_eq!(job.stage, "lease_recovered");
    assert_eq!(job.last_error_code.as_deref(), Some("worker_lost"));
    assert_eq!(job.available_at, 16);
    assert_eq!(job.attempts[0].status, AttemptStatus::Failed);
    assert!(job.claim("worker-b", 2, 16, 60));
    assert!(!job.finish_success(1, "worker-a", 17, 3600));
    assert!(!job.finish_success(1, "worker-b", 17, 3600));
    assert_eq!(job.finish_failure(1, "worker-a", "x", "y", true, 17, 3600), None);
    assert!(job.upsert_output(output("a.webp", 1), 100, 1, "worker-a", 17).is_none());
    assert_eq!(job.status, JobStatus::Running);
    assert!(job.finish_success(2, "worker-b", 18, 3600));
}

#[test]
fn attempt_ids_are_never_reused() {
    let mut job = queued(1, 0);
    assert!(job.claim("w", 5, 0, 10));
    assert!(job.recover_expired_lease(20, 3600));
    assert!(job.uses_attempt_id(5));
    assert!(!job.claim("w", 5, 100, 10));
    assert_eq!(job.status, JobStatus::RetryScheduled);
}

#[test]
fn lease_recovery_of_the_last_attempt_dead_letters() {
    let mut job = queued(1, 0);
    for attempt in 1..=3u128 {
        let now = job.available_at;
        assert!(job.claim("w", attempt, now, 10));
        assert!(!job.recover_expired_lease(now + 10, 3600));
        assert!(job.recover_expired_lease(now + 11, 3600));
    }
    assert_eq!(job.status, JobStatus::DeadLettered);
    assert_eq!(job.stage, "dead_lettered");
    assert!(job.completed_at.is_some());
}

#[test]
fn cancellation_paths() {
    let mut waiting = queued(1, 0);
    waiting.request_cancel(5, 100);
    assert_eq!(waiting.status, JobStatus::Cancelled);
    assert_eq!(waiting.stage, "cancelled");
    assert_eq!(waiting.artifacts_expire_at, Some(105));

    let mut running = queued(2, 0);
    assert!(running.claim("w", 1, 0, 60));
    running.request_cancel(5, 100);
    assert_eq!(running.status, JobStatus::CancelRequested);
    assert!(running.is_cancel_requested());
    assert!(!running.finish_success(1, "w", 6, 100));
    assert!(running.heartbeat(1, "w", 6, 60));
    assert!(running.finish_cancelled(1, "w", 7, 100));
    assert_eq!(running.status, JobStatus::Cancelled);
    assert_eq!(running.attempts[0].status, AttemptStatus::Cancelled);

    let mut abandoned = queued(3, 0);
    assert!(abandoned.claim("w", 1, 0, 10));
    abandoned.request_cancel(1, 100);
    assert!(abandoned.recover_expired_lease(11, 100));
    assert_eq!(abandoned.status, JobStatus::Cancelled);
    assert_eq!(abandoned.last_error_detail, None);
    assert_eq!(
        abandoned.attempts[0].error_detail.as_deref(),
        Some("El trabajo se canceló después de perder el worker.")
    );
    assert_eq!(abandoned.attempts[0].status, AttemptStatus::Cancelled);

    let mut done = queued(4, 0);
    assert!(done.claim("w", 1, 0, 60));
    assert!(done.finish_success(1, "w", 1, 100));
    done.request_cancel(2, 100);
    assert_eq!(done.status, JobStatus::Succeeded);
    assert_eq!(done.updated_at, 2);
}

#[test]
fn repeated_output_writes_keep_one_row_per_name() {
    let mut job = queued(1, 0);
    assert!(job.claim("w", 1, 0, 60));
    let first = job.upsert_output(output("preview.webp", 10), 100, 1, "w", 1).unwrap();
    assert_eq!(first.id, 100);
    let second = job.upsert_output(output("preview.webp", 12), 101, 1, "w", 2).unwrap();
    assert_eq!(second.id, 100);
    assert_eq!(second.size, 12);
    assert_eq!(job.outputs.len(), 1);
    job.upsert_output(output("thumbnail.webp", 3), 102, 1, "w", 3).unwrap();
    assert_eq!(job.outputs.len(), 2);
    assert_eq!(job.output_named("thumbnail.webp"), Some(1));
    assert_eq!(job.output_named("missing"), None);
}

#[test]
fn cleanup_and_purge_follow_expiry() {
    let mut job = queued(1, 0);
    assert!(job.claim("w", 1, 0, 60));
    assert!(job.finish_success(1, "w", 10, 100));
    assert!(!job.is_cleanup_candidate(109));
    assert!(job.is_cleanup_candidate(110));
    assert!(!job.is_purgeable(2_000_000));
    job.mark_artifacts_deleted(120);
    assert_eq!(job.status, JobStatus::Expired);
    assert_eq!(job.stage, "expired");
    assert!(!job.is_cleanup_candidate(2_000_000));
    assert!(job.is_purgeable(1_000_000));
    assert!(!job.is_purgeable(999_999));
}

#[test]
fn queue_claims_in_availability_order() {
    let mut later = queued(1, 5);
    later.available_at = 50;
    let earlier = queued(2, 10);
    let first_created = queued(3, 1);
    let mut queue = JobQueue { jobs: vec![later, earlier, first_created] };
    assert_eq!(select_candidate(&queue.jobs, 20), Some(2));
    assert_eq!(queue.claim_next("w", 1, 20, 60), Some(2));
    assert_eq!(queue.claim_next("w", 2, 20, 60), Some(1));
    assert_eq!(queue.claim_next("w", 3, 20, 60), None);
    assert_eq!(queue.claim_next("w", 3, 50, 60), Some(0));
    assert_eq!(queue.jobs[0].status, JobStatus::Running);
}

#[test]
fn queue_recovers_only_expired_leases() {
    let mut a = queued(10, 0);
    assert!(a.claim("w", 1, 0, 10));
    let mut b = queued(20, 0);
    assert!(b.claim("w", 2, 0, 100));
    let c = queued(30, 0);
    let mut queue = JobQueue { jobs: vec![a, b, c] };
    assert_eq!(queue.recover_expired_leases(50, 3600), vec![10]);
    assert_eq!(queue.jobs[0].status, JobStatus::RetryScheduled);
    assert_eq!(queue.jobs[1].status, JobStatus::Running);
    assert_eq!(queue.recover_expired_leases(50, 3600), Vec::<u128>::new());
}

#[test]
fn queue_lists_cleanup_candidates_up_to_the_limit() {
    let mut jobs = Vec::new();
    for id in 0..4u128 {
        let mut job = queued(id, 0);
        assert!(job.claim("w", 1, 0, 60));
        assert!(job.finish_success(1, "w", 1, 10));
        jobs.push(job);
    }
    jobs[1].mark_artifacts_deleted(20);
    let queue = JobQueue { jobs };
    assert_eq!(queue.cleanup_candidates(5, 10), Vec::<usize>::new());
    assert_eq!(queue.cleanup_candidates(11, 10), vec![0, 2, 3]);
    assert_eq!(queue.cleanup_candidates(11, 2), vec![0, 2]);
}

#[test]
fn stored_records_are_checked_before_use() {
    let mut job = queued(1, 0);
    assert!(job.is_well_formed());
    assert!(job.claim("w", 1, 0, 60));
    assert!(job.is_well_formed());
    let stored = job.upsert_output(output("a.webp", 1), 500, 1, "w", 1).unwrap();
    assert_eq!(job.output_with_id(stored.id), Some(0));
    assert_eq!(job.output_with_id(501), None);
    let mut broken = queued(2, 0);
    broken.attempt_count = 1;
    assert!(!broken.is_well_formed());
    let mut duplicate = queued(3, 0);
    assert!(duplicate.claim("w", 1, 0, 60));
    duplicate.upsert_output(output("a.webp", 1), 7, 1, "w", 1).unwrap();
    duplicate.outputs.push(duplicate.outputs[0].copy());
    assert!(!duplicate.is_well_formed());
    let queue = JobQueue { jobs: vec![job, duplicate] };
    assert!(!queue.is_well_formed());
    assert_eq!(AttemptStatus::parse("failed"), Some(AttemptStatus::Failed));
    assert_eq!(AttemptStatus::parse("lost"), None);
    for status in [
        AttemptStatus::Running,
        AttemptStatus::Succeeded,
        AttemptStatus::Failed,
        AttemptStatus::Cancelled,
    ] {
        assert_eq!(AttemptStatus::parse(status.as_str()), Some(status));
    }
}

#[test]
fn workers_never_share_a_claim_and_recovery_backs_off() {
    let mut queue = JobQueue { jobs: vec![queued(1, 0), queued(2, 1), queued(3, 2)] };
    let a = queue.claim_next("worker-a", 11, 10, 60).unwrap();
    let b = queue.claim_next("worker-b", 12, 10, 60).unwrap();
    let c = queue.claim_next("worker-c", 13, 10, 60).unwrap();
    let mut claimed = vec![a, b, c];
    claimed.sort();
    assert_eq!(claimed, vec![0, 1, 2]);
    assert_eq!(queue.claim_next("worker-d", 14, 10, 60), None);
    assert!(queue.jobs[b].heartbeat(12, "worker-b", 60, 60));
    assert!(queue.jobs[c].heartbeat(13, "worker-c", 60, 60));
    // Worker A stops renewing: a late heartbeat does not revive its lease.
    assert!(!queue.jobs[a].heartbeat(11, "worker-a", 71, 60));
    assert_eq!(queue.recover_expired_leases(71, 3600), vec![queue.jobs[a].info.id]);
    assert_eq!(queue.jobs[a].status, JobStatus::RetryScheduled);
    assert_eq!(queue.jobs[a].last_error_code.as_deref(), Some("worker_lost"));
    assert_eq!(queue.jobs[a].available_at, 76);
    assert_eq!(queue.claim_next("worker-r", 15, 75, 60), None);
    assert_eq!(queue.claim_next("worker-r", 15, 76, 60), Some(a));
    assert_eq!(queue.jobs[a].attempt_count, 2);
    assert!(!queue.jobs[a].finish_success(11, "worker-a", 77, 3600));
    assert!(queue.jobs[a].finish_success(15, "worker-r", 77, 3600));
}

#[test]
fn recovery_lists_cancelled_jobs_before_recovered_ones() {
    let mut running = queued(10, 0);
    assert!(running.claim("w", 1, 0, 10));
    let mut cancelling = queued(20, 0);
    assert!(cancelling.claim("w", 2, 0, 10));
    cancelling.request_cancel(5, 100);
    assert_eq!(cancelling.status, JobStatus::CancelRequested);
    let mut queue = JobQueue { jobs: vec![running, cancelling] };
    assert_eq!(queue.recover_expired_leases(50, 3600), vec![20, 10]);
    assert_eq!(queue.jobs[0].status, JobStatus::RetryScheduled);
    assert_eq!(queue.jobs[1].status, JobStatus::Cancelled);
}

#[test]
fn a_claimed_job_is_not_claimed_again() {
    let mut queue = JobQueue { jobs: vec![queued(1, 0), queued(2, 1)] };
    let first = queue.claim_next("worker-a", 11, 5, 60).unwrap();
    let second = queue.claim_next("worker-b", 12, 5, 60).unwrap();
    assert_ne!(first, second);
    assert_eq!(queue.claim_next("worker-c", 13, 6, 60), None);
}

#[test]
fn downloads_need_the_owning_session_and_kept_artifacts() {
    let mut job = queued(1, 0);
    assert!(job.claim("w", 1, 0, 60));
    let stored = job.upsert_output(output("a.webp", 1), 500, 1, "w", 1).unwrap();
    assert!(job.belongs_to(7));
    assert!(!job.belongs_to(8));
    assert_eq!(job.downloadable_output(7, stored.id), Some(0));
    assert_eq!(job.downloadable_output(8, stored.id), None);
    assert_eq!(job.downloadable_output(7, 501), None);
    assert!(job.finish_success(1, "w", 2, 100));
    job.mark_artifacts_deleted(200);
    assert_eq!(job.downloadable_output(7, stored.id), None);
}

fn keyed(id: u128, key: Option<&str>) -> JobInfo {
    let mut i = info(id, 0);
    i.idempotency_key = key.map(|k| k.to_owned());
    i
}

#[test]
fn repeated_create_under_one_key_answers_the_first_job() {
    let limits = UploadLimits { session_hourly: 1, ip_daily: 100, global_daily: 100 };
    let mut queue = JobQueue { jobs: Vec::new() };
    assert_eq!(
        queue.create_job(keyed(1, Some("same-upload")), 10, Some((0, 0, 0)), Some(limits)),
        Creation::Created(0)
    );
    assert_eq!(queue.jobs[0].status, JobStatus::Queued);
    assert_eq!(queue.find_idempotent_job(7, "same-upload"), Some(0));
    assert_eq!(queue.find_idempotent_job(8, "same-upload"), None);
    assert_eq!(queue.find_idempotent_job(7, "other"), None);
    assert_eq!(
        queue.create_job(keyed(2, Some("same-upload")), 11, None, Some(limits)),
        Creation::Existing(0)
    );
    assert_eq!(queue.jobs.len(), 1);
    assert_eq!(
        queue.create_job(keyed(3, None), 12, Some((1, 1, 1)), Some(limits)),
        Creation::LimitExceeded(UploadLimit::SessionHourly)
    );
    assert_eq!(queue.jobs.len(), 1);
    assert_eq!(queue.create_job(keyed(4, None), 12, Some((0, 1, 1)), Some(limits)), Creation::Created(1));
    assert_eq!(queue.jobs[1].info.id, 4);
}

use forgequeue::domain::{retry_delay, valid_transition, JobKind, JobStatus};

const ALL_STATUSES: [JobStatus; 8] = [
    JobStatus::Queued,
    JobStatus::Running,
    JobStatus::RetryScheduled,
    JobStatus::Succeeded,
    JobStatus::CancelRequested,
    JobStatus::Cancelled,
    JobStatus::DeadLettered,
    JobStatus::Expired,
];

#[test]
fn retry_schedule_is_bounded() {
    assert_eq!(retry_delay(1).map(|delay| delay.as_secs()), Some(5));
    assert_eq!(retry_delay(2).map(|delay| delay.as_secs()), Some(30));
    assert_eq!(retry_delay(3), None);
}

#[test]
fn terminal_jobs_cannot_restart_in_place() {
    assert!(!valid_transition(JobStatus::Succeeded, JobStatus::Running));
    assert!(!valid_transition(JobStatus::DeadLettered, JobStatus::Queued));
}

#[test]
fn running_job_can_request_cancellation() {
    assert!(valid_transition(JobStatus::Running, JobStatus::CancelRequested));
}

#[test]
fn retry_delay_is_absent_outside_the_schedule() {
    assert_eq!(retry_delay(0), None);
    assert_eq!(retry_delay(-1), None);
    assert_eq!(retry_delay(i32::MAX), None);
    assert_eq!(retry_delay(2).map(|delay| delay.as_millis()), Some(30_000));
}

#[test]
fn wire_names_round_trip() {
    for status in ALL_STATUSES {
        assert_eq!(JobStatus::parse(status.as_str()), Ok(status));
    }
    for kind in [JobKind::Image, JobKind::Pdf] {
        assert_eq!(JobKind::parse(kind.as_str()), Ok(kind));
    }
    assert_eq!(JobStatus::RetryScheduled.as_str(), "retry_scheduled");
    assert_eq!(JobStatus::CancelRequested.as_str(), "cancel_requested");
    assert_eq!(JobKind::Pdf.as_str(), "pdf");
    let parsed: JobKind = "image".parse().unwrap();
    assert_eq!(parsed, JobKind::Image);
}

#[test]
fn unknown_wire_names_are_rejected_with_their_text() {
    let error = JobStatus::parse("done").unwrap_err();
    assert_eq!(error.field(), "job status");
    assert_eq!(error.value(), "done");
    assert_eq!(error.message(), "invalid job status: done");
    let error = JobKind::parse("Image").unwrap_err();
    assert_eq!(error.message(), "invalid job kind: Image");
}

#[test]
fn names_are_distinct() {
    for a in ALL_STATUSES {
        for b in ALL_STATUSES {
            assert_eq!(a.as_str() == b.as_str(), a == b);
        }
    }
}

#[test]
fn terminal_and_cancellable_statuses() {
    let terminal: Vec<JobStatus> = ALL_STATUSES.into_iter().filter(|s| s.is_terminal()).collect();
    assert_eq!(
        terminal,
        vec![
            JobStatus::Succeeded,
            JobStatus::Cancelled,
            JobStatus::DeadLettered,
            JobStatus::Expired
        ]
    );
    let cancellable: Vec<JobStatus> = ALL_STATUSES.into_iter().filter(|s| s.can_cancel()).collect();
    assert_eq!(
        cancellable,
        vec![JobStatus::Queued, JobStatus::Running, JobStatus::RetryScheduled]
    );
    for status in ALL_STATUSES {
        assert!(!(status.can_cancel() && status.is_terminal()));
    }
}

#[test]
fn only_terminal_jobs_expire_and_expired_is_final() {
    for from in ALL_STATUSES {
        assert_eq!(valid_transition(from, JobStatus::Expired), from.is_terminal() && from != JobStatus::Expired);
        assert!(!valid_transition(JobStatus::Expired, from));
        assert!(!valid_transition(from, JobStatus::Queued));
    }
}

#[test]
fn transition_table_has_the_documented_edges() {
    let mut edges = 0;
    for from in ALL_STATUSES {
        for to in ALL_STATUSES {
            if valid_transition(from, to) {
                edges += 1;
            }
        }
    }
    assert_eq!(edges, 13);
    assert!(valid_transition(JobStatus::CancelRequested, JobStatus::RetryScheduled));
    assert!(valid_transition(JobStatus::RetryScheduled, JobStatus::Running));
    assert!(!valid_transition(JobStatus::Queued, JobStatus::Succeeded));
}

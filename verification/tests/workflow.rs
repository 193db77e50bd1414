use std::io::Cursor;

use forgequeue::config::Config;
use forgequeue::domain::{JobKind, JobStatus};
use forgequeue::errors::{AppError, ProcessingError};
use forgequeue::events::{
    notification_job_id, notification_payload, opening_step, react, reload_step, Notice, Reaction,
};
use forgequeue::imaging::{image_artifacts_from, process_image};
use forgequeue::lease::{session_expiry_after_job, AttemptStatus, JobInfo, JobRecord, MAX_ATTEMPTS};
use forgequeue::pipeline::{Pipeline, Signal, Task};
use forgequeue::policy::{UploadLimit, UploadLimits};
use forgequeue::queue::JobQueue;
use forgequeue::request::{resolve_session, session_token};
use forgequeue::storage::{plan_for_url, storage_plan, StoragePlan};
use forgequeue::submission::{Action, Answer, Answered, Mode, Recorded, Submission};
use image::{DynamicImage, ImageFormat, RgbImage};

fn png(width: u32, height: u32) -> Vec<u8> {
    let image = DynamicImage::ImageRgb8(RgbImage::new(width, height));
    let mut encoded = Cursor::new(Vec::new());
    image.write_to(&mut encoded, ImageFormat::Png).unwrap();
    encoded.into_inner()
}

fn config(url: &str) -> Config {
    Config {
        bind_address: "0.0.0.0:8080".to_owned(),
        worker_metrics_address: None,
        database_url: "postgres://db".to_owned(),
        object_store_url: url.to_owned(),
        object_store_path: "./data".to_owned(),
        s3_endpoint: None,
        s3_region: "us-east-1".to_owned(),
        s3_access_key_id: None,
        s3_secret_access_key: None,
        cors_origin: "http://localhost:5173".to_owned(),
        trust_proxy_headers: false,
        rate_limit_salt: "salt".to_owned(),
        worker_id: "w".to_owned(),
        lease_seconds: 60,
        heartbeat_seconds: 15,
        processing_timeout_seconds: 90,
        poll_interval_millis: 750,
        demo_processing_delay_millis: 0,
        artifact_retention_seconds: 3600,
        metadata_retention_seconds: 86400,
        max_upload_bytes: 10 << 20,
        max_image_pixels: 25_000_000,
        max_pdf_pages: 20,
        pdf_preview_pages: 3,
        session_hourly_limit: 5,
        ip_daily_limit: 20,
        global_daily_limit: 50,
        pdfium_library_path: None,
    }
}

fn upload_info(id: u128, session_id: u128, created_at: u64) -> JobInfo {
    JobInfo::for_upload(
        id,
        session_id,
        JobKind::Image,
        "foto.png",
        "sessions/s/jobs/j/input",
        "image/png",
        42,
        "abcd",
        Some("key-1"),
        created_at,
        1000,
    )
}

#[test]
fn image_processing_produces_three_artifacts() {
    let artifacts = process_image(&png(640, 480), "digest").unwrap();
    assert_eq!(artifacts.len(), 3);
    assert_eq!(artifacts[0].name, "thumbnail.webp");
    assert_eq!(artifacts[0].width, Some(320));
    assert_eq!(artifacts[0].height, Some(240));
    assert_eq!(artifacts[1].name, "preview.webp");
    assert_eq!(artifacts[1].width, Some(1280));
    assert_eq!(artifacts[1].height, Some(960));
    assert_eq!(artifacts[2].name, "metadata.json");
    let metadata: serde_json::Value = serde_json::from_slice(&artifacts[2].bytes).unwrap();
    assert_eq!(metadata["width"], 640);
    assert_eq!(metadata["thumbnail"]["width"], 320);
    assert_eq!(metadata["sha256"], "digest");
    assert!(image::load_from_memory(&artifacts[0].bytes).is_ok());
    let preview = image::load_from_memory(&artifacts[1].bytes).unwrap();
    assert_eq!((preview.width(), preview.height()), (1280, 960));
    assert_eq!(artifacts[0].content_type, "image/webp");
    assert_eq!(artifacts[2].content_type, "application/json");
    match process_image(b"not an image", "digest") {
        Err(ProcessingError::Invalid(message)) => assert!(message.starts_with("Imagen inválida: ")),
        other => panic!("unexpected {other:?}"),
    }
}

#[test]
fn storage_plan_follows_the_url() {
    assert!(matches!(storage_plan(&config("memory:///"), false).unwrap(), StoragePlan::Memory));
    match storage_plan(&config("file:///"), false).unwrap() {
        StoragePlan::File { path } => assert_eq!(path, "./data"),
        other => panic!("unexpected {other:?}"),
    }
    match storage_plan(&config("file:///var/lib/forgequeue"), false).unwrap() {
        StoragePlan::File { path } => assert_eq!(path, "/var/lib/forgequeue"),
        other => panic!("unexpected {other:?}"),
    }
    assert_eq!(
        storage_plan(&config("not a url"), false).unwrap_err(),
        "OBJECT_STORE_URL must be a valid URL"
    );
    assert_eq!(
        storage_plan(&config("ftp://host/x"), false).unwrap_err(),
        "unsupported object store scheme: ftp"
    );
    assert_eq!(
        storage_plan(&config("s3://bucket"), false).unwrap_err(),
        "S3_ACCESS_KEY_ID is required for S3 storage"
    );
    let mut s3 = config("s3://media");
    s3.s3_access_key_id = Some("id".to_owned());
    assert_eq!(
        storage_plan(&s3, false).unwrap_err(),
        "S3_SECRET_ACCESS_KEY is required for S3 storage"
    );
    s3.s3_secret_access_key = Some("secret".to_owned());
    s3.s3_endpoint = Some("http://minio:9000".to_owned());
    match storage_plan(&s3, false).unwrap() {
        StoragePlan::S3 { bucket, region, endpoint, allow_http, .. } => {
            assert_eq!(bucket, "media");
            assert_eq!(region, "us-east-1");
            assert_eq!(endpoint.as_deref(), Some("http://minio:9000"));
            assert!(allow_http);
        }
        other => panic!("unexpected {other:?}"),
    }
    s3.s3_endpoint = Some("https://s3.example".to_owned());
    assert!(matches!(storage_plan(&s3, false).unwrap(), StoragePlan::S3 { allow_http: false, .. }));
}

#[test]
fn notifications_round_trip_job_ids() {
    let id: u128 = 0x0190_5d2e_7c1a_7b3e_9f00_1122_3344_5566;
    let payload = notification_payload(id);
    assert_eq!(payload, uuid::Uuid::from_u128(id).to_string());
    assert_eq!(notification_job_id(&payload), Some(id));
    assert_eq!(notification_job_id("garbage"), None);
    assert_eq!(react(id, Notice::Changed(id)), Reaction::Reload { lagged: false });
    assert_eq!(react(id, Notice::Changed(id + 1)), Reaction::Skip);
    assert_eq!(react(id, Notice::Lagged), Reaction::Reload { lagged: true });
    assert_eq!(react(id, Notice::Closed), Reaction::Stop);
    let open = opening_step(JobStatus::Running);
    assert_eq!(open.event, Some("job.snapshot"));
    assert!(!open.stop);
    assert!(opening_step(JobStatus::Succeeded).stop);
    let updated = reload_step(false, Ok(Some(JobStatus::Succeeded)));
    assert_eq!(updated.event, Some("job.updated"));
    assert!(updated.stop);
    assert!(reload_step(false, Ok(None)).stop);
    assert!(!reload_step(true, Ok(None)).stop);
    assert_eq!(reload_step(false, Err(())).event, None);
}

#[test]
fn processing_pipeline_runs_every_step() {
    let mut p = Pipeline::new(JobKind::Pdf, true);
    assert!(matches!(p.advance(Signal::Start), Task::CheckCancel));
    match p.advance(Signal::CancelChecked(Ok(false))) {
        Task::RecordProgress { stage, progress } => {
            assert_eq!(stage, "loading_input");
            assert_eq!(progress, 12);
        }
        other => panic!("unexpected {other:?}"),
    }
    assert!(matches!(p.advance(Signal::ProgressRecorded(Ok(true))), Task::LoadInput));
    assert!(matches!(p.advance(Signal::InputLoaded(Ok(()))), Task::CheckCancel));
    assert!(matches!(
        p.advance(Signal::CancelChecked(Ok(false))),
        Task::RecordProgress { progress: 18, .. }
    ));
    assert!(matches!(p.advance(Signal::ProgressRecorded(Ok(true))), Task::Pause));
    assert!(matches!(p.advance(Signal::Paused), Task::CheckCancel));
    match p.advance(Signal::CancelChecked(Ok(false))) {
        Task::RecordProgress { stage, progress } => {
            assert_eq!(stage, "rendering_pdf");
            assert_eq!(progress, 25);
        }
        other => panic!("unexpected {other:?}"),
    }
    assert!(matches!(
        p.advance(Signal::ProgressRecorded(Ok(true))),
        Task::Transform(JobKind::Pdf)
    ));
    match p.advance(Signal::Transformed(Ok(()))) {
        Task::RecordProgress { stage, progress } => {
            assert_eq!(stage, "pdf_rendered");
            assert_eq!(progress, 75);
        }
        other => panic!("unexpected {other:?}"),
    }
    assert!(matches!(p.advance(Signal::ProgressRecorded(Ok(true))), Task::Finish(Ok(()))));
    assert!(matches!(p.advance(Signal::Paused), Task::Ignored));
}

#[test]
fn processing_pipeline_stops_early() {
    let mut cancelled = Pipeline::new(JobKind::Image, false);
    cancelled.advance(Signal::Start);
    assert!(matches!(
        cancelled.advance(Signal::CancelChecked(Ok(true))),
        Task::Finish(Err(ProcessingError::Cancelled))
    ));
    let mut lost = Pipeline::new(JobKind::Image, false);
    lost.advance(Signal::Start);
    lost.advance(Signal::CancelChecked(Ok(false)));
    assert!(matches!(
        lost.advance(Signal::ProgressRecorded(Ok(false))),
        Task::Finish(Err(ProcessingError::LeaseLost))
    ));
    let mut broken = Pipeline::new(JobKind::Image, false);
    broken.advance(Signal::Start);
    broken.advance(Signal::CancelChecked(Ok(false)));
    broken.advance(Signal::ProgressRecorded(Ok(true)));
    match broken.advance(Signal::InputLoaded(Err("missing".to_owned()))) {
        Task::Finish(Err(ProcessingError::Temporary(message))) => assert_eq!(message, "missing"),
        other => panic!("unexpected {other:?}"),
    }
    let mut no_delay = Pipeline::new(JobKind::Image, false);
    no_delay.advance(Signal::Start);
    no_delay.advance(Signal::CancelChecked(Ok(false)));
    no_delay.advance(Signal::ProgressRecorded(Ok(true)));
    no_delay.advance(Signal::InputLoaded(Ok(())));
    match no_delay.advance(Signal::CancelChecked(Ok(false))) {
        Task::RecordProgress { stage, .. } => assert_eq!(stage, "decoding_image"),
        other => panic!("unexpected {other:?}"),
    }
}

fn limits() -> UploadLimits {
    UploadLimits { session_hourly: 5, ip_daily: 20, global_daily: 50 }
}

#[test]
fn a_repeated_idempotency_key_answers_the_existing_job() {
    let mut s = Submission::new(Mode::Upload { has_key: true }, limits());
    assert!(matches!(s.advance(Answer::Start), Action::FindExisting));
    assert!(matches!(
        s.advance(Answer::ExistingFound(Ok(true))),
        Action::Reply(Ok((200, Answered::Existing)))
    ));
}

#[test]
fn a_new_upload_is_created_after_the_quota_check() {
    let mut s = Submission::new(Mode::Upload { has_key: false }, limits());
    assert!(matches!(s.advance(Answer::Start), Action::CountUploads));
    assert!(matches!(s.advance(Answer::Counted(Ok((4, 19, 49)))), Action::ReadInput));
    assert!(matches!(s.advance(Answer::InputRead(Ok(()))), Action::StoreInput));
    assert!(matches!(s.advance(Answer::InputStored(Ok(()))), Action::RecordJob));
    assert!(matches!(
        s.advance(Answer::JobRecorded(Ok(Recorded::Created))),
        Action::Reply(Ok((202, Answered::Created)))
    ));
}

#[test]
fn refused_submissions_leave_no_input_behind() {
    let mut limited = Submission::new(Mode::Upload { has_key: false }, limits());
    limited.advance(Answer::Start);
    match limited.advance(Answer::Counted(Ok((5, 0, 0)))) {
        Action::Reply(Err(AppError::RateLimited(message))) => {
            assert_eq!(message, "Alcanzaste el límite de 5 trabajos por hora.")
        }
        other => panic!("unexpected {other:?}"),
    }

    let mut raced = Submission::new(Mode::Retry, limits());
    raced.advance(Answer::Start);
    raced.advance(Answer::Counted(Ok((0, 0, 0))));
    raced.advance(Answer::InputRead(Ok(())));
    raced.advance(Answer::InputStored(Ok(())));
    assert!(matches!(
        raced.advance(Answer::JobRecorded(Ok(Recorded::LimitExceeded(UploadLimit::GlobalDaily)))),
        Action::DiscardInput
    ));
    match raced.advance(Answer::InputDiscarded) {
        Action::Reply(Err(AppError::RateLimited(message))) => {
            assert_eq!(message, "La demo alcanzó su capacidad diaria; probá mañana.")
        }
        other => panic!("unexpected {other:?}"),
    }

    let mut failed = Submission::new(Mode::Upload { has_key: true }, limits());
    failed.advance(Answer::Start);
    failed.advance(Answer::ExistingFound(Ok(false)));
    failed.advance(Answer::Counted(Ok((0, 0, 0))));
    failed.advance(Answer::InputRead(Ok(())));
    failed.advance(Answer::InputStored(Ok(())));
    assert!(matches!(
        failed.advance(Answer::JobRecorded(Err("duplicate key".to_owned()))),
        Action::DiscardInput
    ));
    assert!(matches!(failed.advance(Answer::InputDiscarded), Action::FindExisting));
    assert!(matches!(
        failed.advance(Answer::ExistingFound(Ok(true))),
        Action::Reply(Ok((200, Answered::Existing)))
    ));

    let mut lost = Submission::new(Mode::Upload { has_key: true }, limits());
    lost.advance(Answer::Start);
    lost.advance(Answer::ExistingFound(Ok(false)));
    lost.advance(Answer::Counted(Ok((0, 0, 0))));
    lost.advance(Answer::InputRead(Ok(())));
    lost.advance(Answer::InputStored(Ok(())));
    lost.advance(Answer::JobRecorded(Err("boom".to_owned())));
    lost.advance(Answer::InputDiscarded);
    match lost.advance(Answer::ExistingFound(Ok(false))) {
        Action::Reply(Err(AppError::Internal(message))) => assert_eq!(message, "boom"),
        other => panic!("unexpected {other:?}"),
    }

    let mut retried = Submission::new(Mode::Retry, limits());
    retried.advance(Answer::Start);
    retried.advance(Answer::Counted(Ok((0, 0, 0))));
    retried.advance(Answer::InputRead(Ok(())));
    retried.advance(Answer::InputStored(Ok(())));
    retried.advance(Answer::JobRecorded(Ok(Recorded::Existing)));
    assert!(matches!(
        retried.advance(Answer::InputDiscarded),
        Action::Reply(Ok((202, Answered::Existing)))
    ));

    let mut unstored = Submission::new(Mode::Upload { has_key: false }, limits());
    unstored.advance(Answer::Start);
    unstored.advance(Answer::Counted(Ok((0, 0, 0))));
    unstored.advance(Answer::InputRead(Ok(())));
    match unstored.advance(Answer::InputStored(Err("disk full".to_owned()))) {
        Action::Reply(Err(AppError::Storage(message))) => assert_eq!(message, "disk full"),
        other => panic!("unexpected {other:?}"),
    }
}

#[test]
fn retries_copy_the_failed_job_and_link_back() {
    let failed = upload_info(1, 9, 100);
    assert_eq!(failed.max_attempts, MAX_ATTEMPTS);
    assert_eq!(failed.metadata_expire_at, 1100);
    assert_eq!(failed.idempotency_key.as_deref(), Some("key-1"));
    let retry = JobInfo::retry_of(&failed, 2, "sessions/s/jobs/2/input", 200, 1000);
    assert_eq!(retry.retry_of_job_id, Some(1));
    assert_eq!(retry.session_id, 9);
    assert_eq!(retry.original_name, "foto.png");
    assert_eq!(retry.input_sha256, "abcd");
    assert_eq!(retry.input_object_key, "sessions/s/jobs/2/input");
    assert_eq!(retry.idempotency_key, None);
    assert_eq!(retry.created_at, 200);
    assert_eq!(session_expiry_after_job(5000, 200, 1000), 5000);
    assert_eq!(session_expiry_after_job(500, 200, 1000), 1200);
    assert_eq!(session_expiry_after_job(0, u64::MAX - 1, 10), u64::MAX);
}

#[test]
fn job_detail_shows_attempts_and_outputs() {
    let mut job = JobRecord::new_queued(upload_info(1, 9, 100), 100);
    assert!(job.claim("w", 7, 100, 60));
    let detail = job.detail();
    assert_eq!(detail.job.id, 1);
    assert_eq!(detail.job.status, JobStatus::Running);
    assert_eq!(detail.job.stage, "claimed");
    assert_eq!(detail.job.max_attempts, 3);
    assert_eq!(detail.attempts.len(), 1);
    assert_eq!(detail.attempts[0].status, "running");
    assert_eq!(detail.attempts[0].worker_id, "w");
    assert_eq!(job.attempts[0].status, AttemptStatus::Running);
    assert!(detail.outputs.is_empty());
}

#[test]
fn listing_pages_newest_first() {
    let mut jobs = Vec::new();
    for (id, created) in [(1u128, 10u64), (2, 30), (3, 20), (4, 30), (5, 40)] {
        jobs.push(JobRecord::new_queued(upload_info(id, 9, created), created));
    }
    jobs.push(JobRecord::new_queued(upload_info(6, 8, 50), 50));
    let mut done = JobRecord::new_queued(upload_info(7, 9, 5), 5);
    done.request_cancel(6, 100);
    jobs.push(done);
    let queue = JobQueue { jobs };
    let first = queue.list_jobs(9, None, None, None, 2);
    let ids: Vec<u128> = first.items.iter().map(|job| job.id).collect();
    assert_eq!(ids, vec![5, 4]);
    assert_eq!(first.next_cursor, Some(4));
    let second = queue.list_jobs(9, None, None, first.next_cursor, 2);
    let ids: Vec<u128> = second.items.iter().map(|job| job.id).collect();
    assert_eq!(ids, vec![2, 3]);
    let third = queue.list_jobs(9, None, None, second.next_cursor, 2);
    let ids: Vec<u128> = third.items.iter().map(|job| job.id).collect();
    assert_eq!(ids, vec![1, 7]);
    let last = queue.list_jobs(9, None, None, third.next_cursor, 2);
    assert!(last.items.is_empty());
    assert_eq!(last.next_cursor, None);
    let cancelled = queue.list_jobs(9, Some(JobStatus::Cancelled), None, None, 25);
    assert_eq!(cancelled.items.len(), 1);
    assert_eq!(cancelled.next_cursor, None);
    assert!(queue.list_jobs(9, None, Some(JobKind::Pdf), None, 25).items.is_empty());
    assert!(queue.list_jobs(9, None, None, Some(6), 25).items.is_empty());
}

#[test]
fn cleanup_takes_the_earliest_due_first() {
    let mut jobs = Vec::new();
    for (id, retention) in [(1u128, 50u64), (2, 10), (3, 30)] {
        let mut job = JobRecord::new_queued(upload_info(id, 9, 0), 0);
        assert!(job.claim("w", 1, 0, 60));
        assert!(job.finish_success(1, "w", 1, retention));
        jobs.push(job);
    }
    let queue = JobQueue { jobs };
    assert_eq!(queue.cleanup_candidates(100, 10), vec![1, 2, 0]);
    assert_eq!(queue.cleanup_candidates(100, 2), vec![1, 2]);
    assert_eq!(queue.cleanup_candidates(35, 10), vec![1, 2]);
    assert_eq!(queue.cleanup_candidates(100, 0), Vec::<usize>::new());
}

#[test]
fn sessions_are_resolved_from_the_bearer_token() {
    let header: &[u8] = b"Bearer fq_token";
    assert_eq!(session_token(Some(header)).unwrap(), "fq_token");
    match session_token(None) {
        Err(AppError::Unauthorized(message)) => assert_eq!(message, "Falta la sesión anónima."),
        other => panic!("unexpected {other:?}"),
    }
    assert_eq!(resolve_session(Some(4)).unwrap(), 4);
    match resolve_session(None) {
        Err(AppError::Unauthorized(message)) => {
            assert_eq!(message, "La sesión expiró o no es válida.")
        }
        other => panic!("unexpected {other:?}"),
    }
}

#[test]
fn storage_plan_from_parsed_url_parts() {
    let base = config("memory:///");
    let parts = |scheme: &str, host: Option<&str>, path: &str| {
        Some((scheme.to_owned(), host.map(|h| h.to_owned()), path.to_owned()))
    };
    assert!(matches!(plan_for_url(&base, parts("memory", None, "/"), false).unwrap(), StoragePlan::Memory));
    assert_eq!(plan_for_url(&base, None, false).unwrap_err(), "OBJECT_STORE_URL must be a valid URL");
    assert_eq!(
        plan_for_url(&base, parts("s3", Some(""), "/"), false).unwrap_err(),
        "s3 OBJECT_STORE_URL must contain a bucket"
    );
    assert_eq!(
        plan_for_url(&base, parts("s3", None, "/"), false).unwrap_err(),
        "s3 OBJECT_STORE_URL must contain a bucket"
    );
    assert_eq!(
        plan_for_url(&base, parts("gs", Some("b"), "/"), false).unwrap_err(),
        "unsupported object store scheme: gs"
    );
    match plan_for_url(&base, parts("file", None, ""), false).unwrap() {
        StoragePlan::File { path } => assert_eq!(path, "./data"),
        other => panic!("unexpected {other:?}"),
    }
    match plan_for_url(&base, parts("file", None, "/srv/objects"), false).unwrap() {
        StoragePlan::File { path } => assert_eq!(path, "/srv/objects"),
        other => panic!("unexpected {other:?}"),
    }
}

#[test]
fn image_artifacts_carry_both_renditions_and_metadata() {
    let artifacts = image_artifacts_from("abc", 640, 480, (vec![1, 2], 320, 240), (vec![3], 1280, 960));
    assert_eq!(artifacts.len(), 3);
    assert_eq!(artifacts[0].name, "thumbnail.webp");
    assert_eq!(artifacts[0].bytes, vec![1, 2]);
    assert_eq!((artifacts[0].width, artifacts[0].height), (Some(320), Some(240)));
    assert_eq!(artifacts[1].name, "preview.webp");
    assert_eq!(artifacts[1].bytes, vec![3]);
    assert_eq!((artifacts[1].width, artifacts[1].height), (Some(1280), Some(960)));
    assert_eq!(artifacts[2].name, "metadata.json");
    let metadata: serde_json::Value = serde_json::from_slice(&artifacts[2].bytes).unwrap();
    assert_eq!(metadata["kind"], "image");
    assert_eq!(metadata["sha256"], "abc");
    assert_eq!(metadata["height"], 480);
    assert_eq!(metadata["preview"]["height"], 960);
}

#[test]
fn file_store_paths_keep_windows_drives_only_on_windows() {
    let base = config("memory:///");
    let url = Some(("file".to_owned(), None, "/C:/data".to_owned()));
    match plan_for_url(&base, url.clone(), true).unwrap() {
        StoragePlan::File { path } => assert_eq!(path, "C:/data"),
        other => panic!("unexpected {other:?}"),
    }
    match plan_for_url(&base, url, false).unwrap() {
        StoragePlan::File { path } => assert_eq!(path, "/C:/data"),
        other => panic!("unexpected {other:?}"),
    }
    match plan_for_url(&base, Some(("file".to_owned(), None, "/srv/x".to_owned())), true).unwrap() {
        StoragePlan::File { path } => assert_eq!(path, "/srv/x"),
        other => panic!("unexpected {other:?}"),
    }
}

use forgequeue::config::{
    is_valid_header_value, parse_bool, parse_i64, parse_unsigned, Config, ConfigError,
    Environment,
};
use forgequeue::digest::{client_ip_hash, hex_sha256, new_session_token, session_token_from, token_hash};
use forgequeue::domain::{JobKind, JobStatus};
use forgequeue::errors::{AppError, ProcessingError};
use forgequeue::finalize::{
    heartbeat_continues, processing_outcome, recovery_due, Ending, Event, Finalizer, Outcome,
    Step,
};
use forgequeue::format::{decimal, hex_bytes, uuid_string};
use forgequeue::keys::{input_object_key, job_object_prefix, output_object_key};
use forgequeue::policy::{
    admission, body_limit, cancel_outcome, check_upload_size, content_disposition,
    delete_precondition, enforce_rate_limits, list_filters, next_cursor, rate_limit_error,
    retry_input_error, retry_precondition, Admission, UploadLimit, UploadLimits,
};

const SESSION: u128 = 0x0123_4567_89ab_cdef_0011_2233_4455_6677;
const JOB: u128 = 0xfedc_ba98_7654_3210_8899_aabb_ccdd_eeff;

fn env(pairs: &[(&str, &str)]) -> Environment {
    Environment {
        vars: pairs
            .iter()
            .map(|(name, value)| (name.to_string(), value.to_string()))
            .collect(),
    }
}

fn message_of(error: AppError) -> (String, String) {
    let code = error.code().to_owned();
    (code, error.message().to_owned())
}

#[test]
fn object_keys_are_scoped_to_one_job() {
    let prefix = job_object_prefix(SESSION, JOB);
    assert_eq!(
        prefix,
        "sessions/01234567-89ab-cdef-0011-223344556677/jobs/fedcba98-7654-3210-8899-aabbccddeeff"
    );
    assert_eq!(input_object_key(SESSION, JOB), format!("{prefix}/input"));
    assert_eq!(
        output_object_key(SESSION, JOB, "preview.webp"),
        format!("{prefix}/outputs/preview.webp")
    );
    let other = job_object_prefix(SESSION, JOB + 1);
    assert!(!input_object_key(SESSION, JOB + 1).starts_with(&format!("{prefix}/")));
    assert!(other != prefix);
    assert_eq!(uuid_string(0), "00000000-0000-0000-0000-000000000000");
    assert_eq!(
        uuid_string(u128::MAX),
        "ffffffff-ffff-ffff-ffff-ffffffffffff"
    );
    let parsed = uuid::Uuid::from_u128(JOB).hyphenated().to_string();
    assert_eq!(uuid_string(JOB), parsed);
}

#[test]
fn digests_and_tokens() {
    assert_eq!(
        hex_sha256(b"abc"),
        "ba7816bf8f01cfea414140de5dae2223b00361a396177a9cb410ff61f20015ad"
    );
    assert_eq!(hex_sha256(b"abc"), hex_bytes(&token_hash("abc")));
    assert_eq!(
        hex_bytes(&client_ip_hash("salt", "1.2.3.4")),
        hex_sha256(b"salt:1.2.3.4")
    );
    assert_eq!(session_token_from(&[0xfb, 0xff]), "fq_-_8");
    assert_eq!(session_token_from(b"hello"), "fq_aGVsbG8");
    let token = new_session_token().unwrap();
    assert!(token.starts_with("fq_"));
    assert_eq!(token.len(), 3 + 43);
    assert_ne!(Some(token), new_session_token());
    assert_eq!(decimal(0), "0");
    assert_eq!(decimal(18_446_744_073_709_551_615), "18446744073709551615");
}

#[test]
fn errors_map_to_problem_documents() {
    let problem = AppError::Validation("entrada inválida".to_owned()).problem("request-test-123");
    assert_eq!(problem.request_id, "request-test-123");
    assert_eq!(problem.code, "validation_error");
    assert_eq!(problem.status, 422);
    assert_eq!(problem.title, "Entrada inválida");
    assert_eq!(problem.detail, "entrada inválida");
    assert_eq!(problem.problem_type, "https://forgequeue.dev/problems/validation_error");
    let hidden = AppError::Database("connection refused".to_owned()).problem("r");
    assert_eq!(hidden.status, 500);
    assert_eq!(hidden.detail, "El servidor no pudo completar la solicitud.");
    assert_eq!(AppError::Unauthorized(String::new()).status(), 401);
    assert_eq!(AppError::NotFound(String::new()).status(), 404);
    assert_eq!(AppError::Conflict(String::new()).status(), 409);
    assert_eq!(AppError::RateLimited(String::new()).status(), 429);
    assert_eq!(AppError::Storage(String::new()).code(), "storage_error");
    assert_eq!(AppError::Internal(String::new()).title(), "Error interno");
    assert!(ProcessingError::Temporary("x".to_owned()).retryable());
    assert!(!ProcessingError::Invalid("x".to_owned()).retryable());
    assert_eq!(ProcessingError::LeaseLost.code(), "lease_lost");
    assert_eq!(ProcessingError::Cancelled.message(), "processing was cancelled");
}

#[test]
fn rate_limits_are_checked_in_order() {
    let limits = UploadLimits { session_hourly: 5, ip_daily: 20, global_daily: 50 };
    assert!(enforce_rate_limits(4, 19, 49, limits).is_ok());
    assert_eq!(
        message_of(enforce_rate_limits(5, 20, 50, limits).unwrap_err()),
        ("rate_limited".to_owned(), "Alcanzaste el límite de 5 trabajos por hora.".to_owned())
    );
    assert_eq!(
        message_of(enforce_rate_limits(0, 20, 50, limits).unwrap_err()).1,
        "Esta dirección alcanzó el límite diario."
    );
    assert_eq!(
        message_of(rate_limit_error(UploadLimit::GlobalDaily, 5)).1,
        "La demo alcanzó su capacidad diaria; probá mañana."
    );
    assert_eq!(admission(true, Some((9, 9, 9)), Some(limits)), Admission::Existing);
    assert_eq!(
        admission(false, Some((1, 20, 0)), Some(limits)),
        Admission::LimitExceeded(UploadLimit::IpDaily)
    );
    assert_eq!(admission(false, Some((1, 1, 1)), Some(limits)), Admission::Insert);
    assert_eq!(admission(false, None, None), Admission::Insert);
}

#[test]
fn job_actions_check_the_status() {
    assert!(cancel_outcome(JobStatus::CancelRequested).is_ok());
    assert!(cancel_outcome(JobStatus::Cancelled).is_ok());
    assert_eq!(
        message_of(cancel_outcome(JobStatus::Succeeded).unwrap_err()),
        ("conflict".to_owned(), "El trabajo ya terminó y no puede cancelarse.".to_owned())
    );
    assert!(retry_precondition(JobStatus::DeadLettered).is_ok());
    assert!(retry_precondition(JobStatus::Succeeded).is_err());
    assert!(delete_precondition(JobStatus::Expired).is_ok());
    assert_eq!(
        message_of(delete_precondition(JobStatus::Running).unwrap_err()).1,
        "Cancelá el trabajo antes de eliminarlo."
    );
    assert_eq!(
        message_of(retry_input_error(true, "gone")),
        ("conflict".to_owned(), "El archivo original ya expiró.".to_owned())
    );
    assert_eq!(
        message_of(retry_input_error(false, "timeout")),
        ("storage_error".to_owned(), "timeout".to_owned())
    );
}

#[test]
fn listing_filters_and_cursor() {
    assert_eq!(
        list_filters(Some("running"), Some("pdf")).unwrap(),
        (Some(JobStatus::Running), Some(JobKind::Pdf))
    );
    assert_eq!(list_filters(None, None).unwrap(), (None, None));
    assert_eq!(
        message_of(list_filters(Some("nope"), Some("nope")).unwrap_err()).1,
        "Estado desconocido."
    );
    assert_eq!(
        message_of(list_filters(None, Some("video")).unwrap_err()).1,
        "Tipo de trabajo desconocido."
    );
    assert_eq!(next_cursor(20, 20, Some(9)), Some(9));
    assert_eq!(next_cursor(3, 20, Some(9)), None);
}

#[test]
fn download_and_upload_limits() {
    assert_eq!(content_disposition("a\"b.png"), "inline; filename=\"ab.png\"");
    assert_eq!(
        message_of(check_upload_size(0, 10).unwrap_err()).1,
        "El archivo está vacío."
    );
    assert_eq!(
        message_of(check_upload_size(11 << 20, 10 << 20).unwrap_err()).1,
        "El archivo supera el máximo de 10 MiB."
    );
    assert!(check_upload_size(10 << 20, 10 << 20).is_ok());
    assert_eq!(body_limit(10 << 20), 11 << 20);
    assert_eq!(body_limit(usize::MAX), usize::MAX);
}

#[test]
fn finalizer_stores_every_output_before_success() {
    let mut f = Finalizer::new(Outcome::Produced { artifacts: 2 });
    assert!(matches!(f.advance(Event::Start), Step::CheckCancel));
    match f.advance(Event::CancelState(false)) {
        Step::UpdateProgress { stage, progress } => {
            assert_eq!(stage, "storing_outputs");
            assert_eq!(progress, 85);
        }
        other => panic!("unexpected {other:?}"),
    }
    assert!(matches!(f.advance(Event::ProgressOwned(true)), Step::StoreArtifact(0)));
    assert!(matches!(f.advance(Event::Stored(true)), Step::StoreArtifact(1)));
    assert!(matches!(f.advance(Event::Stored(true)), Step::FinishSuccess));
    assert!(matches!(f.advance(Event::Finished(true)), Step::Done(Ending::Succeeded)));
    assert!(!f.restart_required());
    assert!(matches!(f.advance(Event::Start), Step::Ignored));
}

#[test]
fn finalizer_honours_cancellation() {
    let mut f = Finalizer::new(Outcome::Produced { artifacts: 1 });
    f.advance(Event::Start);
    f.advance(Event::CancelState(false));
    f.advance(Event::ProgressOwned(true));
    assert!(matches!(f.advance(Event::Stored(false)), Step::CheckCancel));
    assert!(matches!(f.advance(Event::CancelState(true)), Step::FinishCancelled));
    assert!(matches!(f.advance(Event::Finished(true)), Step::Done(Ending::Cancelled)));

    let mut g = Finalizer::new(Outcome::Cancelled);
    assert!(matches!(g.advance(Event::Start), Step::FinishCancelled));
    assert!(matches!(
        g.advance(Event::Finished(false)),
        Step::Done(Ending::StaleCancellation)
    ));
}

#[test]
fn finalizer_records_failures_and_timeouts() {
    let mut f = Finalizer::new(Outcome::TimedOut { timeout_seconds: 90 });
    assert!(f.restart_required());
    match f.advance(Event::Start) {
        Step::FinishFailure { code, detail, retryable } => {
            assert_eq!(code, "processing_timeout");
            assert_eq!(detail, "El procesamiento superó 90 segundos.");
            assert!(retryable);
        }
        other => panic!("unexpected {other:?}"),
    }
    assert!(matches!(
        f.advance(Event::FailureRecorded(Some(JobStatus::RetryScheduled))),
        Step::Done(Ending::Failed(JobStatus::RetryScheduled))
    ));

    let mut g = Finalizer::new(Outcome::Failed {
        code: "invalid_input".to_owned(),
        detail: "bad".to_owned(),
        retryable: false,
    });
    g.advance(Event::Start);
    assert!(matches!(g.advance(Event::FailureRecorded(None)), Step::CheckCancel));
    assert!(matches!(g.advance(Event::CancelState(false)), Step::Done(Ending::StaleFailure)));

    let mut h = Finalizer::new(Outcome::LeaseLost);
    assert!(matches!(h.advance(Event::Start), Step::CheckCancel));
    assert!(matches!(
        h.advance(Event::CancelState(false)),
        Step::Done(Ending::StoppedAfterLeaseLoss)
    ));
    assert!(recovery_due(0, 10_000));
    assert!(!recovery_due(0, 9_999));
    assert!(!recovery_due(5, 4));
    assert!(heartbeat_continues(Some(true)));
    assert!(heartbeat_continues(None));
    assert!(!heartbeat_continues(Some(false)));
}

#[test]
fn configuration_defaults_and_overrides() {
    let config: Config = Config::from_env(&env(&[("DATABASE_URL", "postgres://db")]), "host-1").unwrap();
    assert_eq!(config.database_url, "postgres://db");
    assert_eq!(config.bind_address, "0.0.0.0:8080");
    assert_eq!(config.worker_id, "host-1");
    assert_eq!(config.lease_seconds, 60);
    assert_eq!(config.heartbeat_seconds, 15);
    assert_eq!(config.poll_interval_millis, 750);
    assert_eq!(config.max_upload_bytes, 10_485_760);
    assert_eq!(config.max_pdf_pages, 20);
    assert_eq!(config.pdf_preview_pages, 3);
    assert_eq!(config.session_hourly_limit, 5);
    assert!(!config.trust_proxy_headers);
    assert_eq!(config.s3_access_key_id, None);

    let config = Config::from_env(
        &env(&[
            ("DATABASE_URL", "postgres://db"),
            ("LEASE_SECONDS", "+120"),
            ("TRUST_PROXY_HEADERS", "true"),
            ("AWS_ACCESS_KEY_ID", "aws-key"),
            ("S3_SECRET_ACCESS_KEY", "   "),
            ("WORKER_ID", "w-9"),
        ]),
        "host-1",
    )
    .unwrap();
    assert_eq!(config.lease_seconds, 120);
    assert!(config.trust_proxy_headers);
    assert_eq!(config.s3_access_key_id.as_deref(), Some("aws-key"));
    assert_eq!(config.s3_secret_access_key, None);
    assert_eq!(config.worker_id, "w-9");
}

#[test]
fn configuration_errors_name_the_variable() {
    match Config::from_env(&env(&[]), "h") {
        Err(error @ ConfigError::Missing(_)) => assert_eq!(
            error.message(),
            "missing required environment variable DATABASE_URL"
        ),
        other => panic!("unexpected {other:?}"),
    }
    match Config::from_env(&env(&[("DATABASE_URL", "x"), ("LEASE_SECONDS", "-1")]), "h") {
        Err(error @ ConfigError::NotANumber(_)) => {
            assert_eq!(error.message(), "LEASE_SECONDS must be a number")
        }
        other => panic!("unexpected {other:?}"),
    }
    match Config::from_env(&env(&[("DATABASE_URL", "x"), ("TRUST_PROXY_HEADERS", "yes")]), "h") {
        Err(error @ ConfigError::NotABoolean(_)) => {
            assert_eq!(error.message(), "TRUST_PROXY_HEADERS must be true or false")
        }
        other => panic!("unexpected {other:?}"),
    }
    match Config::from_env(&env(&[("DATABASE_URL", "x"), ("HEARTBEAT_SECONDS", "60")]), "h") {
        Err(ConfigError::Invalid(message)) => assert_eq!(
            message,
            "HEARTBEAT_SECONDS must be greater than zero and shorter than LEASE_SECONDS"
        ),
        other => panic!("unexpected {other:?}"),
    }
    match Config::from_env(&env(&[("DATABASE_URL", "x"), ("WORKER_ID", " ")]), "h") {
        Err(ConfigError::Invalid(message)) => assert_eq!(message, "WORKER_ID cannot be empty"),
        other => panic!("unexpected {other:?}"),
    }
    match Config::from_env(&env(&[("DATABASE_URL", "x"), ("PDF_PREVIEW_PAGES", "21")]), "h") {
        Err(ConfigError::Invalid(message)) => {
            assert_eq!(message, "PDF_PREVIEW_PAGES must be between one and MAX_PDF_PAGES")
        }
        other => panic!("unexpected {other:?}"),
    }
    match Config::from_env(&env(&[("DATABASE_URL", "x"), ("CORS_ORIGIN", "a\nb")]), "h") {
        Err(ConfigError::Invalid(message)) => {
            assert_eq!(message, "CORS_ORIGIN must be a valid HTTP header value")
        }
        other => panic!("unexpected {other:?}"),
    }
}

#[test]
fn value_parsers() {
    assert_eq!(parse_unsigned("42", u64::MAX), Some(42));
    assert_eq!(parse_unsigned("+7", u64::MAX), Some(7));
    assert_eq!(parse_unsigned("", u64::MAX), None);
    assert_eq!(parse_unsigned("18446744073709551616", u64::MAX), None);
    assert_eq!(parse_unsigned("300", 255), None);
    assert_eq!(parse_i64("-9223372036854775808"), Some(i64::MIN));
    assert_eq!(parse_i64("9223372036854775808"), None);
    assert_eq!(parse_i64("-"), None);
    assert_eq!(parse_bool("true"), Some(true));
    assert_eq!(parse_bool("True"), None);
    assert!(is_valid_header_value("https://demo.example\tx"));
    assert!(!is_valid_header_value("a\u{7f}"));
    let environment = env(&[("A", "1"), ("A", "2")]);
    assert_eq!(environment.get("A"), Some("1"));
    assert_eq!(environment.value("B", "dflt"), "dflt");
    assert_eq!(environment.optional("A").as_deref(), Some("1"));
}

#[test]
fn digests_have_their_fixed_lengths() {
    assert_eq!(hex_sha256(b"").len(), 64);
    assert_eq!(hex_sha256(&[7u8; 1000]).len(), 64);
    assert!(hex_sha256(b"xyz").chars().all(|c| c.is_ascii_hexdigit() && !c.is_ascii_uppercase()));
    assert_eq!(token_hash("fq_abc").len(), 32);
    assert_eq!(client_ip_hash("salt", "::1").len(), 32);
    assert_ne!(token_hash("fq_abc"), token_hash("fq_abd"));
}

#[test]
fn serialised_uploads_admit_one_at_the_last_free_slot() {
    let limits = UploadLimits { session_hourly: 1, ip_daily: 100, global_daily: 100 };
    assert_eq!(admission(false, Some((0, 0, 0)), Some(limits)), Admission::Insert);
    assert_eq!(
        admission(false, Some((1, 1, 1)), Some(limits)),
        Admission::LimitExceeded(UploadLimit::SessionHourly)
    );
}

#[test]
fn processing_results_become_outcomes() {
    assert!(matches!(processing_outcome(None, 90), Outcome::TimedOut { timeout_seconds: 90 }));
    assert!(matches!(processing_outcome(Some(Ok(3)), 90), Outcome::Produced { artifacts: 3 }));
    assert!(matches!(
        processing_outcome(Some(Err(ProcessingError::Cancelled)), 90),
        Outcome::Cancelled
    ));
    assert!(matches!(
        processing_outcome(Some(Err(ProcessingError::LeaseLost)), 90),
        Outcome::LeaseLost
    ));
    match processing_outcome(Some(Err(ProcessingError::Temporary("disk".to_owned()))), 90) {
        Outcome::Failed { code, detail, retryable } => {
            assert_eq!(code, "processing_failed");
            assert_eq!(detail, "disk");
            assert!(retryable);
        }
        other => panic!("unexpected {other:?}"),
    }
    match processing_outcome(Some(Err(ProcessingError::Invalid("bad".to_owned()))), 90) {
        Outcome::Failed { code, detail, retryable } => {
            assert_eq!(code, "invalid_input");
            assert_eq!(detail, "bad");
            assert!(!retryable);
        }
        other => panic!("unexpected {other:?}"),
    }
}

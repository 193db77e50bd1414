//! Decisions of the HTTP interface: upload quotas, admission of a new job, and the rules on
//! which jobs may be cancelled, retried or deleted.
use vstd::prelude::*;

use crate::domain::{
    spec_can_cancel, spec_is_terminal, JobKind, JobStatus, kind_name, status_name,
};
use crate::errors::AppError;
use crate::format::{dec_text, push_decimal, push_signed_decimal, signed_dec_text};
use crate::text::{chars_of, owned, push_char, string_from_chars};

verus! {

/// Upload quotas: per session per hour, per client address per day, and for the whole service
/// per day.
#[derive(Debug, Clone, Copy)]
pub struct UploadLimits {
    pub session_hourly: i64,
    pub ip_daily: i64,
    pub global_daily: i64,
}

/// The quota that refused an upload.
#[derive(Debug, Clone, Copy, PartialEq, Eq, Structural)]
pub enum UploadLimit {
    SessionHourly,
    IpDaily,
    GlobalDaily,
}

/// The first quota, in the order session, address, service, that the recent upload counts
/// have reached.
pub open spec fn spec_exceeded_limit(
    session_count: i64,
    ip_count: i64,
    global_count: i64,
    limits: UploadLimits,
) -> Option<UploadLimit> {
    if session_count >= limits.session_hourly {
        Some(UploadLimit::SessionHourly)
    } else if ip_count >= limits.ip_daily {
        Some(UploadLimit::IpDaily)
    } else if global_count >= limits.global_daily {
        Some(UploadLimit::GlobalDaily)
    } else {
        None
    }
}

/// The first quota that the recent upload counts have reached, if any.
pub fn exceeded_limit(session_count: i64, ip_count: i64, global_count: i64, limits: UploadLimits) -> (r:
    Option<UploadLimit>)
    ensures
        r == spec_exceeded_limit(session_count, ip_count, global_count, limits),
{
    if session_count >= limits.session_hourly {
        Some(UploadLimit::SessionHourly)
    } else if ip_count >= limits.ip_daily {
        Some(UploadLimit::IpDaily)
    } else if global_count >= limits.global_daily {
        Some(UploadLimit::GlobalDaily)
    } else {
        None
    }
}

/// The message answered when a quota refuses an upload.
pub open spec fn rate_limit_message(limit: UploadLimit, session_hourly_limit: i64) -> Seq<char> {
    match limit {
        UploadLimit::SessionHourly => "Alcanzaste el límite de "@ + signed_dec_text(
            session_hourly_limit as int,
        ) + " trabajos por hora."@,
        UploadLimit::IpDaily => "Esta dirección alcanzó el límite diario."@,
        UploadLimit::GlobalDaily => "La demo alcanzó su capacidad diaria; probá mañana."@,
    }
}

/// The error answered when `limit` refuses an upload.
pub fn rate_limit_error(limit: UploadLimit, session_hourly_limit: i64) -> (e: AppError)
    ensures
        e matches AppError::RateLimited(m) && m@ == rate_limit_message(limit, session_hourly_limit),
{
    match limit {
        UploadLimit::SessionHourly => {
            let mut m = owned("Alcanzaste el límite de ");
            push_signed_decimal(&mut m, session_hourly_limit);
            m.append(" trabajos por hora.");
            AppError::RateLimited(m)
        },
        UploadLimit::IpDaily => AppError::RateLimited(
            owned("Esta dirección alcanzó el límite diario."),
        ),
        UploadLimit::GlobalDaily => AppError::RateLimited(
            owned("La demo alcanzó su capacidad diaria; probá mañana."),
        ),
    }
}

/// Checks the quotas before an upload is stored.
pub fn enforce_rate_limits(
    session_count: i64,
    ip_count: i64,
    global_count: i64,
    limits: UploadLimits,
) -> (r: Result<(), AppError>)
    ensures
        match spec_exceeded_limit(session_count, ip_count, global_count, limits) {
            None => r is Ok,
            Some(limit) => r matches Err(AppError::RateLimited(m)) && m@ == rate_limit_message(
                limit,
                limits.session_hourly,
            ),
        },
{
    match exceeded_limit(session_count, ip_count, global_count, limits) {
        None => Ok(()),
        Some(limit) => Err(rate_limit_error(limit, limits.session_hourly)),
    }
}

/// What happens to a request to create a job.
#[derive(Debug, Clone, Copy, PartialEq, Eq, Structural)]
pub enum Admission {
    /// The idempotency key already names a job of the session: that job is answered.
    Existing,
    /// A quota refuses the upload.
    LimitExceeded(UploadLimit),
    /// The job is inserted.
    Insert,
}

/// The decision taken, inside one transaction, on a new job: an existing job under the same
/// idempotency key wins; then the quotas, when they apply, are checked against the counts.
pub open spec fn spec_admission(
    idempotent_match: bool,
    counts: Option<(i64, i64, i64)>,
    limits: Option<UploadLimits>,
) -> Admission {
    if idempotent_match {
        Admission::Existing
    } else {
        match (limits, counts) {
            (Some(l), Some(c)) => match spec_exceeded_limit(c.0, c.1, c.2, l) {
                Some(limit) => Admission::LimitExceeded(limit),
                None => Admission::Insert,
            },
            _ => Admission::Insert,
        }
    }
}

/// Decides on a new job; see [`spec_admission`].
pub fn admission(
    idempotent_match: bool,
    counts: Option<(i64, i64, i64)>,
    limits: Option<UploadLimits>,
) -> (a: Admission)
    ensures
        a == spec_admission(idempotent_match, counts, limits),
{
    if idempotent_match {
        return Admission::Existing;
    }
    match (limits, counts) {
        (Some(l), Some(c)) => match exceeded_limit(c.0, c.1, c.2, l) {
            Some(limit) => Admission::LimitExceeded(limit),
            None => Admission::Insert,
        },
        _ => Admission::Insert,
    }
}

/// A job is inserted only when every quota still has room.
pub proof fn lemma_admission_respects_quotas(
    counts: (i64, i64, i64),
    limits: UploadLimits,
)
    ensures
        spec_admission(false, Some(counts), Some(limits)) == Admission::Insert ==> {
            &&& counts.0 < limits.session_hourly
            &&& counts.1 < limits.ip_daily
            &&& counts.2 < limits.global_daily
        },
        spec_admission(true, Some(counts), Some(limits)) == Admission::Existing,
{
}

/// Requests serialised by the upload lock admit one upload at a session's last free slot: the
/// first sees the session one short of its hourly limit and is inserted; the next sees that
/// upload counted and is refused with the session quota.
pub proof fn lemma_one_upload_admitted_at_the_session_limit(
    counts: (i64, i64, i64),
    limits: UploadLimits,
)
    requires
        counts.0 + 1 == limits.session_hourly,
        counts.1 + 1 < limits.ip_daily,
        counts.2 + 1 < limits.global_daily,
    ensures
        spec_admission(false, Some(counts), Some(limits)) == Admission::Insert,
        spec_admission(
            false,
            Some(((counts.0 + 1) as i64, (counts.1 + 1) as i64, (counts.2 + 1) as i64)),
            Some(limits),
        ) == Admission::LimitExceeded(UploadLimit::SessionHourly),
{
}

// ---------------------------------------------------------------------------
// Preconditions of the job actions.
// ---------------------------------------------------------------------------

/// After a cancellation request, the answer for the job's new status: a job that had already
/// finished some other way cannot be cancelled.
pub fn cancel_outcome(status_after: JobStatus) -> (r: Result<(), AppError>)
    ensures
        (spec_can_cancel(status_after) || status_after == JobStatus::CancelRequested
            || status_after == JobStatus::Cancelled) ==> r is Ok,
        !(spec_can_cancel(status_after) || status_after == JobStatus::CancelRequested
            || status_after == JobStatus::Cancelled) ==> (r matches Err(AppError::Conflict(m))
            && m@ == "El trabajo ya terminó y no puede cancelarse."@),
{
    if !status_after.can_cancel() && !(status_after == JobStatus::CancelRequested || status_after
        == JobStatus::Cancelled) {
        return Err(AppError::Conflict(owned("El trabajo ya terminó y no puede cancelarse.")));
    }
    Ok(())
}

/// Only a dead-lettered job may be retried as a new job.
pub fn retry_precondition(status: JobStatus) -> (r: Result<(), AppError>)
    ensures
        status == JobStatus::DeadLettered ==> r is Ok,
        status != JobStatus::DeadLettered ==> (r matches Err(AppError::Conflict(m)) && m@
            == "Sólo se puede reintentar un trabajo fallido definitivamente."@),
{
    if status != JobStatus::DeadLettered {
        return Err(
            AppError::Conflict(
                owned("Sólo se puede reintentar un trabajo fallido definitivamente."),
            ),
        );
    }
    Ok(())
}

/// Only a finished job may be deleted.
pub fn delete_precondition(status: JobStatus) -> (r: Result<(), AppError>)
    ensures
        spec_is_terminal(status) ==> r is Ok,
        !spec_is_terminal(status) ==> (r matches Err(AppError::Conflict(m)) && m@
            == "Cancelá el trabajo antes de eliminarlo."@),
{
    if !status.is_terminal() {
        return Err(AppError::Conflict(owned("Cancelá el trabajo antes de eliminarlo.")));
    }
    Ok(())
}

/// The error answered when the input of a job to retry cannot be read: an input that no
/// longer exists is a conflict; any other storage failure is a storage error.
pub fn retry_input_error(not_found: bool, storage_message: &str) -> (e: AppError)
    ensures
        not_found ==> (e matches AppError::Conflict(m) && m@ == "El archivo original ya expiró."@),
        !not_found ==> (e matches AppError::Storage(m) && m@ == storage_message@),
{
    if not_found {
        AppError::Conflict(owned("El archivo original ya expiró."))
    } else {
        AppError::Storage(owned(storage_message))
    }
}

/// Reads the optional status and kind filters of a job listing.
pub fn list_filters(status: Option<&str>, kind: Option<&str>) -> (r: Result<
    (Option<JobStatus>, Option<JobKind>),
    AppError,
>)
    ensures
        match status {
            Some(s) => (forall|x: JobStatus| status_name(x) != s@) ==> (r matches Err(
                AppError::Validation(m),
            ) && m@ == "Estado desconocido."@),
            None => true,
        },
        match (status, kind) {
            (Some(s), Some(k)) => (exists|x: JobStatus| status_name(x) == s@) && (forall|
                y: JobKind,
            | kind_name(y) != k@) ==> (r matches Err(AppError::Validation(m)) && m@
                == "Tipo de trabajo desconocido."@),
            (None, Some(k)) => (forall|y: JobKind| kind_name(y) != k@) ==> (r matches Err(
                AppError::Validation(m),
            ) && m@ == "Tipo de trabajo desconocido."@),
            _ => true,
        },
        r matches Ok((s, k)) ==> {
            &&& match status {
                Some(text) => s matches Some(x) && status_name(x) == text@,
                None => s is None,
            }
            &&& match kind {
                Some(text) => k matches Some(y) && kind_name(y) == text@,
                None => k is None,
            }
        },
        (status matches Some(text) ==> exists|x: JobStatus| status_name(x) == text@) && (
        kind matches Some(text) ==> exists|y: JobKind| kind_name(y) == text@) ==> r is Ok,
{
    let s = match status {
        Some(text) => match JobStatus::parse(text) {
            Ok(x) => Some(x),
            Err(_) => {
                return Err(AppError::Validation(owned("Estado desconocido.")));
            },
        },
        None => None,
    };
    let k = match kind {
        Some(text) => match JobKind::parse(text) {
            Ok(y) => Some(y),
            Err(_) => {
                return Err(AppError::Validation(owned("Tipo de trabajo desconocido.")));
            },
        },
        None => None,
    };
    Ok((s, k))
}

/// The cursor of the next page of a listing: the last job id when the page is full.
pub fn next_cursor(page_len: usize, limit: i64, last_id: Option<u128>) -> (c: Option<u128>)
    ensures
        c == (if page_len as int == limit as int {
            last_id
        } else {
            None
        }),
{
    if page_len as i128 == limit as i128 {
        last_id
    } else {
        None
    }
}

/// `s` without double quotes.
pub open spec fn without_quotes(s: Seq<char>) -> Seq<char>
    decreases s.len(),
{
    if s.len() == 0 {
        Seq::empty()
    } else if s.last() == '"' {
        without_quotes(s.drop_last())
    } else {
        without_quotes(s.drop_last()).push(s.last())
    }
}

/// The `Content-Disposition` of a downloaded artifact: inline, under its name with any double
/// quote removed.
pub fn content_disposition(name: &str) -> (d: String)
    ensures
        d@ == "inline; filename=\""@ + without_quotes(name@) + seq!['"'],
{
    let v = chars_of(name);
    let mut kept: Vec<char> = Vec::new();
    let mut i: usize = 0;
    while i < v.len()
        invariant
            i <= v@.len(),
            kept@ == without_quotes(v@.take(i as int)),
        decreases v@.len() - i,
    {
        assert(v@.take(i + 1).drop_last() =~= v@.take(i as int));
        if v[i] != '"' {
            kept.push(v[i]);
        }
        i = i + 1;
    }
    assert(v@.take(v@.len() as int) =~= v@);
    let mut d = owned("inline; filename=\"");
    let name_part = string_from_chars(&kept);
    d.append(name_part.as_str());
    push_char(&mut d, '"');
    d
}

/// The largest upload, in whole MiB, as shown to users.
pub open spec fn upload_limit_message(max_upload_bytes: usize) -> Seq<char> {
    "El archivo supera el máximo de "@ + dec_text((max_upload_bytes / 1024 / 1024) as nat)
        + " MiB."@
}

/// Checks the size of an uploaded file: it may be neither empty nor larger than the limit.
pub fn check_upload_size(len: usize, max_upload_bytes: usize) -> (r: Result<(), AppError>)
    ensures
        len == 0 ==> (r matches Err(AppError::Validation(m)) && m@ == "El archivo está vacío."@),
        len > 0 && len > max_upload_bytes ==> (r matches Err(AppError::Validation(m)) && m@
            == upload_limit_message(max_upload_bytes)),
        len > 0 && len <= max_upload_bytes ==> r is Ok,
{
    if len == 0 {
        return Err(AppError::Validation(owned("El archivo está vacío.")));
    }
    if len > max_upload_bytes {
        let mut m = owned("El archivo supera el máximo de ");
        push_decimal(&mut m, (max_upload_bytes / 1024 / 1024) as u64);
        m.append(" MiB.");
        return Err(AppError::Validation(m));
    }
    Ok(())
}

/// The body limit of the HTTP interface: the largest upload plus one MiB for the form.
pub fn body_limit(max_upload_bytes: usize) -> (b: usize)
    ensures
        b == if max_upload_bytes as int + 1048576 > usize::MAX {
            usize::MAX as int
        } else {
            max_upload_bytes + 1048576
        },
{
    max_upload_bytes.saturating_add(1024 * 1024)
}

} // verus!

//! One job row and the operations that move it: claiming, lease renewal, progress,
//! outputs, the three ways an attempt ends, cancellation, lease recovery and expiry.
//!
//! Every operation that an attempt performs on its own behalf is fenced: it takes effect only
//! while that attempt is the latest one, is still running, belongs to the calling worker and
//! holds a lease that has not run out. A stale attempt changes nothing.
use vstd::prelude::*;

use crate::domain::{
    retry_delay, spec_is_terminal, spec_retry_delay_secs, spec_valid_transition, JobKind,
    JobStatus,
};
use crate::text::{owned, str_equal};

verus! {

/// Attempts a job gets before it is dead-lettered.
pub const MAX_ATTEMPTS: i32 = 3;

/// The status of one attempt at a job.
#[derive(Debug, Clone, Copy, PartialEq, Eq, Structural)]
pub enum AttemptStatus {
    Running,
    Succeeded,
    Failed,
    Cancelled,
}

impl AttemptStatus {
    /// The stored name of the status.
    pub fn as_str(self) -> (s: &'static str)
        ensures
            s@ == attempt_status_name(self),
    {
        match self {
            AttemptStatus::Running => "running",
            AttemptStatus::Succeeded => "succeeded",
            AttemptStatus::Failed => "failed",
            AttemptStatus::Cancelled => "cancelled",
        }
    }
}

impl AttemptStatus {
    /// The status stored under `value`, if it names one.
    pub fn parse(value: &str) -> (r: Option<AttemptStatus>)
        ensures
            match r {
                Some(s) => attempt_status_name(s) == value@,
                None => forall|s: AttemptStatus| attempt_status_name(s) != value@,
            },
    {
        proof {
            reveal_strlit("running");
            reveal_strlit("succeeded");
            reveal_strlit("failed");
            reveal_strlit("cancelled");
        }
        if str_equal(value, "running") {
            Some(AttemptStatus::Running)
        } else if str_equal(value, "succeeded") {
            Some(AttemptStatus::Succeeded)
        } else if str_equal(value, "failed") {
            Some(AttemptStatus::Failed)
        } else if str_equal(value, "cancelled") {
            Some(AttemptStatus::Cancelled)
        } else {
            proof {
                assert forall|s: AttemptStatus| attempt_status_name(s) != value@ by {
                    match s {
                        AttemptStatus::Running => {},
                        AttemptStatus::Succeeded => {},
                        AttemptStatus::Failed => {},
                        AttemptStatus::Cancelled => {},
                    }
                }
            }
            None
        }
    }
}

pub open spec fn attempt_status_name(s: AttemptStatus) -> Seq<char> {
    match s {
        AttemptStatus::Running => "running"@,
        AttemptStatus::Succeeded => "succeeded"@,
        AttemptStatus::Failed => "failed"@,
        AttemptStatus::Cancelled => "cancelled"@,
    }
}

/// One attempt at processing a job.
#[derive(Debug)]
pub struct AttemptRecord {
    pub id: u128,
    pub number: i32,
    pub worker_id: String,
    pub status: AttemptStatus,
    pub error_code: Option<String>,
    pub error_detail: Option<String>,
    pub started_at: u64,
    pub finished_at: Option<u64>,
}

/// One stored artifact of a job.
#[derive(Debug)]
pub struct OutputRecord {
    pub id: u128,
    pub name: String,
    pub object_key: String,
    pub content_type: String,
    pub size: i64,
    pub width: Option<i32>,
    pub height: Option<i32>,
    pub page_number: Option<i32>,
    pub created_at: u64,
}

/// An artifact that an attempt wants to record.
#[derive(Debug)]
pub struct NewOutput {
    pub name: String,
    pub object_key: String,
    pub content_type: String,
    pub size: i64,
    pub width: Option<i32>,
    pub height: Option<i32>,
    pub page_number: Option<i32>,
}

/// What a job was created with; no operation changes it.
#[derive(Debug)]
pub struct JobInfo {
    pub id: u128,
    pub session_id: u128,
    pub kind: JobKind,
    pub original_name: String,
    pub input_object_key: String,
    pub input_content_type: String,
    pub input_size: i64,
    pub input_sha256: String,
    pub idempotency_key: Option<String>,
    pub retry_of_job_id: Option<u128>,
    pub max_attempts: i32,
    pub created_at: u64,
    pub metadata_expire_at: u64,
}

/// A job with its attempts and outputs. Times are seconds since the Unix epoch.
#[derive(Debug)]
pub struct JobRecord {
    pub info: JobInfo,
    pub status: JobStatus,
    pub stage: String,
    pub progress: u8,
    pub attempt_count: i32,
    pub worker_id: Option<String>,
    pub lease_until: Option<u64>,
    pub available_at: u64,
    pub updated_at: u64,
    pub completed_at: Option<u64>,
    pub artifacts_expire_at: Option<u64>,
    pub artifacts_deleted_at: Option<u64>,
    pub last_error_code: Option<String>,
    pub last_error_detail: Option<String>,
    pub attempts: Vec<AttemptRecord>,
    pub outputs: Vec<OutputRecord>,
}

/// `now` plus `secs`, held at the largest representable time.
pub open spec fn after(now: u64, secs: u64) -> u64 {
    if now + secs > u64::MAX {
        u64::MAX
    } else {
        (now + secs) as u64
    }
}

fn later(now: u64, secs: u64) -> (t: u64)
    ensures
        t == after(now, secs),
{
    now.saturating_add(secs)
}

pub open spec fn opt_view(s: Option<String>) -> Option<Seq<char>> {
    match s {
        Some(v) => Some(v@),
        None => None,
    }
}

fn copy_opt(s: &Option<String>) -> (r: Option<String>)
    ensures
        r == *s,
{
    match s {
        Some(v) => Some(v.clone()),
        None => None,
    }
}

/// Seconds a recovered job waits before it may be claimed again.
pub open spec fn recovery_delay_secs(attempt_count: int) -> u64 {
    match spec_retry_delay_secs(attempt_count) {
        Some(secs) => secs,
        None => 0,
    }
}

/// The status a failed attempt leaves its job in, and the wait before the next attempt.
pub open spec fn spec_failure_outcome(attempt_count: int, max_attempts: int, retryable: bool) -> (
    JobStatus,
    u64,
) {
    let delay = spec_retry_delay_secs(attempt_count);
    let status = if !retryable || attempt_count >= max_attempts || delay is None {
        JobStatus::DeadLettered
    } else {
        JobStatus::RetryScheduled
    };
    (status, recovery_delay_secs(attempt_count))
}

/// The status a failed attempt leaves its job in, and the seconds to wait before the next one.
pub fn failure_outcome(attempt_count: i32, max_attempts: i32, retryable: bool) -> (r: (
    JobStatus,
    u64,
))
    ensures
        r == spec_failure_outcome(attempt_count as int, max_attempts as int, retryable),
{
    let next_delay = retry_delay(attempt_count);
    let status = if !retryable || attempt_count >= max_attempts || next_delay.is_none() {
        JobStatus::DeadLettered
    } else {
        JobStatus::RetryScheduled
    };
    let delay_seconds = match next_delay {
        Some(d) => d.as_secs(),
        None => 0,
    };
    (status, delay_seconds)
}

impl AttemptRecord {
    fn copy(&self) -> (r: AttemptRecord)
        ensures
            r == *self,
    {
        AttemptRecord {
            id: self.id,
            number: self.number,
            worker_id: self.worker_id.clone(),
            status: self.status,
            error_code: copy_opt(&self.error_code),
            error_detail: copy_opt(&self.error_detail),
            started_at: self.started_at,
            finished_at: self.finished_at,
        }
    }
}

impl OutputRecord {
    /// A copy of the record.
    pub fn copy(&self) -> (r: OutputRecord)
        ensures
            r == *self,
    {
        OutputRecord {
            id: self.id,
            name: self.name.clone(),
            object_key: self.object_key.clone(),
            content_type: self.content_type.clone(),
            size: self.size,
            width: self.width,
            height: self.height,
            page_number: self.page_number,
            created_at: self.created_at,
        }
    }
}

/// What a recorded failure at `now` leaves of the record `old`: the status that
/// [`spec_failure_outcome`] gives, the job available again after its delay, and the same job
/// with the same number of attempts.
pub open spec fn spec_failed(old: JobRecord, new: JobRecord, retryable: bool, now: u64) -> bool {
    let outcome = spec_failure_outcome(
        old.attempt_count as int,
        old.info.max_attempts as int,
        retryable,
    );
    &&& new.status == outcome.0
    &&& new.available_at == after(now, outcome.1)
    &&& new.info == old.info
    &&& new.attempt_count == old.attempt_count
}

/// The record `new` that claiming `old` for `worker` as attempt `attempt_id` at `now`, with a
/// lease of `lease_secs` seconds, leaves.
pub open spec fn spec_claimed(
    old: JobRecord,
    new: JobRecord,
    worker: Seq<char>,
    attempt_id: u128,
    now: u64,
    lease_secs: u64,
) -> bool {
    &&& spec_valid_transition(old.status, new.status)
    &&& new.info == old.info
    &&& new.status == JobStatus::Running
    &&& new.stage@ == "claimed"@
    &&& new.progress == (if old.progress < 5 {
        5
    } else {
        old.progress
    })
    &&& new.attempt_count == old.attempt_count + 1
    &&& opt_view(new.worker_id) == Some(worker)
    &&& new.lease_until == Some(after(now, lease_secs))
    &&& new.available_at == old.available_at
    &&& new.updated_at == now
    &&& new.completed_at == old.completed_at
    &&& new.artifacts_expire_at == old.artifacts_expire_at
    &&& new.artifacts_deleted_at == old.artifacts_deleted_at
    &&& new.last_error_code is None
    &&& new.last_error_detail is None
    &&& new.attempts@ == old.attempts@.push(new.last_attempt())
    &&& new.last_attempt().id == attempt_id
    &&& new.last_attempt().number == new.attempt_count
    &&& new.last_attempt().worker_id@ == worker
    &&& new.last_attempt().status == AttemptStatus::Running
    &&& new.last_attempt().error_code is None
    &&& new.last_attempt().error_detail is None
    &&& new.last_attempt().started_at == now
    &&& new.last_attempt().finished_at is None
    &&& new.outputs == old.outputs
    &&& (lease_secs > 0 ==> new.holds_lease(attempt_id, worker, now))
}

/// The record `new` that recovering `old` from an expired lease at `now` leaves, artifacts
/// being kept for `retention_secs` seconds when the job ends.
pub open spec fn spec_recovered(old: JobRecord, new: JobRecord, now: u64, retention_secs: u64) -> bool {
    &&& spec_valid_transition(old.status, new.status)
    &&& new.worker_id is None
    &&& new.lease_until is None
    &&& new.updated_at == now
    &&& forall|i: int|
        0 <= i < new.attempts@.len() ==> (#[trigger] new.attempts@[i]).status
            != AttemptStatus::Running
    &&& new.attempts@ == old.attempts@.update(old.attempts@.len() - 1, new.last_attempt())
    &&& old.status == JobStatus::CancelRequested ==> {
        &&& new.status == JobStatus::Cancelled
        &&& new.stage@ == "cancelled"@
        &&& new.last_attempt() == (AttemptRecord {
            status: AttemptStatus::Cancelled,
            finished_at: Some(now),
            error_code: new.last_attempt().error_code,
            error_detail: new.last_attempt().error_detail,
            ..old.last_attempt()
        })
        &&& opt_view(new.last_attempt().error_code) == Some("cancelled"@)
        &&& opt_view(new.last_attempt().error_detail) == Some(
            "El trabajo se canceló después de perder el worker."@,
        )
        &&& new == (JobRecord {
            status: JobStatus::Cancelled,
            stage: new.stage,
            worker_id: None,
            lease_until: None,
            completed_at: Some(now),
            updated_at: now,
            artifacts_expire_at: Some(after(now, retention_secs)),
            attempts: new.attempts,
            ..old
        })
    }
    &&& old.status == JobStatus::Running ==> {
        let terminal = old.attempt_count >= old.info.max_attempts;
        &&& new.status == (if terminal {
            JobStatus::DeadLettered
        } else {
            JobStatus::RetryScheduled
        })
        &&& new.stage@ == (if terminal {
            "dead_lettered"@
        } else {
            "lease_recovered"@
        })
        &&& opt_view(new.last_error_code) == Some("worker_lost"@)
        &&& opt_view(new.last_error_detail) == Some(
            "El worker dejó de renovar su lease."@,
        )
        &&& new.last_attempt() == (AttemptRecord {
            status: AttemptStatus::Failed,
            finished_at: Some(now),
            error_code: new.last_attempt().error_code,
            error_detail: new.last_attempt().error_detail,
            ..old.last_attempt()
        })
        &&& opt_view(new.last_attempt().error_code) == Some("worker_lost"@)
        &&& opt_view(new.last_attempt().error_detail) == Some(
            "El worker dejó de renovar su lease."@,
        )
        &&& new == (JobRecord {
            status: new.status,
            stage: new.stage,
            available_at: after(now, recovery_delay_secs(old.attempt_count as int)),
            worker_id: None,
            lease_until: None,
            updated_at: now,
            last_error_code: new.last_error_code,
            last_error_detail: new.last_error_detail,
            completed_at: if terminal { Some(now) } else { None },
            artifacts_expire_at: if terminal {
                Some(after(now, retention_secs))
            } else {
                None
            },
            attempts: new.attempts,
            ..old
        })
    }
}

impl JobInfo {
    /// A new job for an accepted upload, created at `now`; its record is kept for
    /// `metadata_retention_secs` seconds.
    pub fn for_upload(
        id: u128,
        session_id: u128,
        kind: JobKind,
        original_name: &str,
        input_object_key: &str,
        input_content_type: &str,
        input_size: i64,
        input_sha256: &str,
        idempotency_key: Option<&str>,
        now: u64,
        metadata_retention_secs: u64,
    ) -> (r: JobInfo)
        ensures
            r.id == id,
            r.session_id == session_id,
            r.kind == kind,
            r.original_name@ == original_name@,
            r.input_object_key@ == input_object_key@,
            r.input_content_type@ == input_content_type@,
            r.input_size == input_size,
            r.input_sha256@ == input_sha256@,
            opt_view(r.idempotency_key) == match idempotency_key {
                Some(k) => Some(k@),
                None => None::<Seq<char>>,
            },
            r.retry_of_job_id is None,
            r.max_attempts == MAX_ATTEMPTS,
            r.created_at == now,
            r.metadata_expire_at == after(now, metadata_retention_secs),
    {
        JobInfo {
            id,
            session_id,
            kind,
            original_name: owned(original_name),
            input_object_key: owned(input_object_key),
            input_content_type: owned(input_content_type),
            input_size,
            input_sha256: owned(input_sha256),
            idempotency_key: match idempotency_key {
                Some(k) => Some(owned(k)),
                None => None,
            },
            retry_of_job_id: None,
            max_attempts: MAX_ATTEMPTS,
            created_at: now,
            metadata_expire_at: later(now, metadata_retention_secs),
        }
    }

    /// The new job that retries `previous` in the same session: the same kind, file name, input
    /// type, size and digest, its input copied to `input_object_key`, no idempotency key, and a
    /// link back to `previous`.
    pub fn retry_of(
        previous: &JobInfo,
        id: u128,
        input_object_key: &str,
        now: u64,
        metadata_retention_secs: u64,
    ) -> (r: JobInfo)
        ensures
            r.id == id,
            r.session_id == previous.session_id,
            r.kind == previous.kind,
            r.original_name@ == previous.original_name@,
            r.input_object_key@ == input_object_key@,
            r.input_content_type@ == previous.input_content_type@,
            r.input_size == previous.input_size,
            r.input_sha256@ == previous.input_sha256@,
            r.idempotency_key is None,
            r.retry_of_job_id == Some(previous.id),
            r.max_attempts == MAX_ATTEMPTS,
            r.created_at == now,
            r.metadata_expire_at == after(now, metadata_retention_secs),
    {
        JobInfo {
            id,
            session_id: previous.session_id,
            kind: previous.kind,
            original_name: owned(previous.original_name.as_str()),
            input_object_key: owned(input_object_key),
            input_content_type: owned(previous.input_content_type.as_str()),
            input_size: previous.input_size,
            input_sha256: owned(previous.input_sha256.as_str()),
            idempotency_key: None,
            retry_of_job_id: Some(previous.id),
            max_attempts: MAX_ATTEMPTS,
            created_at: now,
            metadata_expire_at: later(now, metadata_retention_secs),
        }
    }
}

/// When an anonymous session expires once a job was created in it at `now`: never before the
/// job's record does.
pub fn session_expiry_after_job(expires_at: u64, now: u64, metadata_retention_secs: u64) -> (e: u64)
    ensures
        e == if expires_at >= after(now, metadata_retention_secs) {
            expires_at
        } else {
            after(now, metadata_retention_secs)
        },
        e >= expires_at,
        e >= after(now, metadata_retention_secs),
{
    let kept = later(now, metadata_retention_secs);
    if expires_at >= kept {
        expires_at
    } else {
        kept
    }
}

impl JobRecord {
    // -----------------------------------------------------------------------
    // Specification of the record.
    // -----------------------------------------------------------------------
    pub open spec fn last_attempt(self) -> AttemptRecord {
        self.attempts@[self.attempts@.len() - 1]
    }

    /// The record's invariant.
    pub open spec fn wf(self) -> bool {
        &&& 0 <= self.attempt_count <= self.info.max_attempts
        &&& self.attempts@.len() == self.attempt_count
        &&& self.progress <= 100
        &&& forall|i: int|
            0 <= i < self.attempts@.len() ==> (#[trigger] self.attempts@[i]).number == i + 1
        &&& forall|i: int|
            0 <= i < self.attempts@.len() - 1 ==> (#[trigger] self.attempts@[i]).status
                != AttemptStatus::Running
        &&& forall|i: int, j: int|
            0 <= i < self.attempts@.len() && 0 <= j < self.attempts@.len() && i != j
                ==> #[trigger] self.attempts@[i].id != #[trigger] self.attempts@[j].id
        &&& forall|i: int, j: int|
            0 <= i < self.outputs@.len() && 0 <= j < self.outputs@.len() && i != j
                ==> #[trigger] self.outputs@[i].name@ != #[trigger] self.outputs@[j].name@
        &&& self.status == JobStatus::Queued ==> self.attempt_count == 0
        &&& (self.status == JobStatus::Running || self.status == JobStatus::CancelRequested)
            ==> {
            &&& self.worker_id is Some
            &&& self.lease_until is Some
            &&& self.attempts@.len() > 0
            &&& self.last_attempt().status == AttemptStatus::Running
        }
        &&& (self.status != JobStatus::Running && self.status != JobStatus::CancelRequested
            && self.status != JobStatus::Expired) ==> {
            &&& self.worker_id is None
            &&& self.lease_until is None
            &&& self.attempts@.len() > 0 ==> self.last_attempt().status
                != AttemptStatus::Running
        }
    }

    /// Whether `attempt_id`, run by `worker`, holds the live lease at `now`: it is the latest
    /// attempt, still running, the job names `worker`, and the lease has not run out.
    pub open spec fn holds_lease(self, attempt_id: u128, worker: Seq<char>, now: u64) -> bool {
        &&& self.attempts@.len() > 0
        &&& self.last_attempt().id == attempt_id
        &&& self.last_attempt().status == AttemptStatus::Running
        &&& self.last_attempt().number == self.attempt_count
        &&& self.worker_id matches Some(w) && w@ == worker
        &&& self.lease_until matches Some(l) && l > now
    }

    /// Whether a worker may claim the job at `now`.
    pub open spec fn spec_claimable(self, now: u64) -> bool {
        &&& (self.status == JobStatus::Queued || self.status == JobStatus::RetryScheduled)
        &&& self.available_at <= now
        &&& self.attempt_count < self.info.max_attempts
        &&& self.info.metadata_expire_at > now
    }

    pub open spec fn has_attempt_id(self, attempt_id: u128) -> bool {
        exists|i: int| 0 <= i < self.attempts@.len() && (#[trigger] self.attempts@[i]).id == attempt_id
    }

    // -----------------------------------------------------------------------
    // Construction.
    // -----------------------------------------------------------------------
    /// A freshly queued job with no attempt yet.
    pub fn new_queued(info: JobInfo, now: u64) -> (r: JobRecord)
        requires
            info.max_attempts >= 0,
        ensures
            r.wf(),
            r.info == info,
            r.status == JobStatus::Queued,
            r.stage@ == "queued"@,
            r.progress == 0,
            r.attempt_count == 0,
            r.worker_id is None,
            r.lease_until is None,
            r.available_at == now,
            r.updated_at == now,
            r.completed_at is None,
            r.artifacts_expire_at is None,
            r.artifacts_deleted_at is None,
            r.last_error_code is None,
            r.last_error_detail is None,
            r.attempts@.len() == 0,
            r.outputs@.len() == 0,
    {
        JobRecord {
            info,
            status: JobStatus::Queued,
            stage: owned("queued"),
            progress: 0,
            attempt_count: 0,
            worker_id: None,
            lease_until: None,
            available_at: now,
            updated_at: now,
            completed_at: None,
            artifacts_expire_at: None,
            artifacts_deleted_at: None,
            last_error_code: None,
            last_error_detail: None,
            attempts: Vec::new(),
            outputs: Vec::new(),
        }
    }


    // -----------------------------------------------------------------------
    // Transitions.
    // -----------------------------------------------------------------------
    /// Claims the job for `worker_id` as attempt `attempt_id`, with a lease of `lease_secs`
    /// seconds. Nothing happens unless the job is claimable and the attempt id is new.
    pub fn claim(&mut self, worker_id: &str, attempt_id: u128, now: u64, lease_secs: u64) -> (claimed: bool)
        requires
            old(self).wf(),
        ensures
            final(self).wf(),
            claimed == (old(self).spec_claimable(now) && !old(self).has_attempt_id(attempt_id)),
            !claimed ==> *final(self) == *old(self),
            claimed ==> spec_claimed(*old(self), *final(self), worker_id@, attempt_id, now, lease_secs),
    {
        if !self.claimable(now) || self.uses_attempt_id(attempt_id) {
            return false;
        }
        let ghost old_attempts = self.attempts@;
        let number = self.attempt_count + 1;
        self.status = JobStatus::Running;
        self.stage = owned("claimed");
        if self.progress < 5 {
            self.progress = 5;
        }
        self.worker_id = Some(owned(worker_id));
        self.lease_until = Some(later(now, lease_secs));
        self.attempt_count = number;
        self.updated_at = now;
        self.last_error_code = None;
        self.last_error_detail = None;
        self.attempts.push(
            AttemptRecord {
                id: attempt_id,
                number,
                worker_id: owned(worker_id),
                status: AttemptStatus::Running,
                error_code: None,
                error_detail: None,
                started_at: now,
                finished_at: None,
            },
        );
        proof {
            assert(self.attempts@ =~= old_attempts.push(self.last_attempt()));
            assert forall|i: int, j: int|
                0 <= i < self.attempts@.len() && 0 <= j < self.attempts@.len() && i != j
                    implies #[trigger] self.attempts@[i].id != #[trigger] self.attempts@[j].id by {
                if i == self.attempts@.len() - 1 {
                    assert(old_attempts[j] == self.attempts@[j]);
                } else if j == self.attempts@.len() - 1 {
                    assert(old_attempts[i] == self.attempts@[i]);
                }
            }
        }
        true
    }

    /// Renews the lease of attempt `attempt_id` by `lease_secs` seconds from `now`, if that
    /// attempt still holds a live lease on a running or cancel-requested job.
    pub fn heartbeat(&mut self, attempt_id: u128, worker_id: &str, now: u64, lease_secs: u64) -> (renewed: bool)
        requires
            old(self).wf(),
        ensures
            final(self).wf(),
            renewed == ((old(self).status == JobStatus::Running || old(self).status
                == JobStatus::CancelRequested) && old(self).holds_lease(attempt_id, worker_id@, now)),
            !renewed ==> *final(self) == *old(self),
            renewed ==> *final(self) == (JobRecord {
                lease_until: Some(after(now, lease_secs)),
                updated_at: now,
                ..*old(self)
            }),
    {
        if !(self.status == JobStatus::Running || self.status == JobStatus::CancelRequested)
            || !self.lease_held_by(attempt_id, worker_id, now) {
            return false;
        }
        self.lease_until = Some(later(now, lease_secs));
        self.updated_at = now;
        true
    }

    /// Records the stage and progress (held at 99) reported by attempt `attempt_id`, if it
    /// still holds a live lease on the running job.
    pub fn update_progress(
        &mut self,
        attempt_id: u128,
        worker_id: &str,
        stage: &str,
        progress: u8,
        now: u64,
    ) -> (updated: bool)
        requires
            old(self).wf(),
        ensures
            final(self).wf(),
            updated == (old(self).status == JobStatus::Running && old(self).holds_lease(
                attempt_id,
                worker_id@,
                now,
            )),
            !updated ==> *final(self) == *old(self),
            updated ==> {
                &&& final(self).stage@ == stage@
                &&& final(self).progress == (if progress < 99 { progress } else { 99 })
                &&& *final(self) == (JobRecord {
                    stage: final(self).stage,
                    progress: final(self).progress,
                    updated_at: now,
                    ..*old(self)
                })
            },
    {
        if self.status != JobStatus::Running || !self.lease_held_by(attempt_id, worker_id, now) {
            return false;
        }
        self.stage = owned(stage);
        self.progress = if progress < 99 {
            progress
        } else {
            99
        };
        self.updated_at = now;
        true
    }

    /// Marks the running job as succeeded, if attempt `attempt_id` still holds its live lease;
    /// its artifacts then expire `retention_secs` seconds later.
    pub fn finish_success(&mut self, attempt_id: u128, worker_id: &str, now: u64, retention_secs: u64) -> (finished: bool)
        requires
            old(self).wf(),
        ensures
            final(self).wf(),
            finished == (old(self).status == JobStatus::Running && old(self).holds_lease(
                attempt_id,
                worker_id@,
                now,
            )),
            !finished ==> *final(self) == *old(self),
            finished ==> {
                &&& spec_valid_transition(old(self).status, final(self).status)
                &&& final(self).status == JobStatus::Succeeded
                &&& final(self).stage@ == "completed"@
                &&& final(self).progress == 100
                &&& final(self).worker_id is None
                &&& final(self).lease_until is None
                &&& final(self).completed_at == Some(now)
                &&& final(self).updated_at == now
                &&& final(self).artifacts_expire_at == Some(after(now, retention_secs))
                &&& final(self).attempts@ == old(self).attempts@.update(
                    old(self).attempts@.len() - 1,
                    final(self).last_attempt(),
                )
                &&& final(self).last_attempt() == (AttemptRecord {
                    status: AttemptStatus::Succeeded,
                    finished_at: Some(now),
                    ..old(self).last_attempt()
                })
                &&& *final(self) == (JobRecord {
                    status: final(self).status,
                    stage: final(self).stage,
                    progress: final(self).progress,
                    worker_id: final(self).worker_id,
                    lease_until: final(self).lease_until,
                    completed_at: final(self).completed_at,
                    updated_at: final(self).updated_at,
                    artifacts_expire_at: final(self).artifacts_expire_at,
                    attempts: final(self).attempts,
                    ..*old(self)
                })
            },
    {
        if self.status != JobStatus::Running || !self.lease_held_by(attempt_id, worker_id, now) {
            return false;
        }
        self.status = JobStatus::Succeeded;
        self.stage = owned("completed");
        self.progress = 100;
        self.worker_id = None;
        self.lease_until = None;
        self.completed_at = Some(now);
        self.updated_at = now;
        self.artifacts_expire_at = Some(later(now, retention_secs));
        self.end_last_attempt(AttemptStatus::Succeeded, None, None, now);
        true
    }

    /// Marks the cancel-requested job as cancelled, if attempt `attempt_id` still holds its
    /// live lease; its artifacts then expire `retention_secs` seconds later.
    pub fn finish_cancelled(&mut self, attempt_id: u128, worker_id: &str, now: u64, retention_secs: u64) -> (finished: bool)
        requires
            old(self).wf(),
        ensures
            final(self).wf(),
            finished == (old(self).status == JobStatus::CancelRequested && old(self).holds_lease(
                attempt_id,
                worker_id@,
                now,
            )),
            !finished ==> *final(self) == *old(self),
            finished ==> {
                &&& spec_valid_transition(old(self).status, final(self).status)
                &&& final(self).status == JobStatus::Cancelled
                &&& final(self).stage@ == "cancelled"@
                &&& final(self).worker_id is None
                &&& final(self).lease_until is None
                &&& final(self).completed_at == Some(now)
                &&& final(self).updated_at == now
                &&& final(self).artifacts_expire_at == Some(after(now, retention_secs))
                &&& final(self).attempts@ == old(self).attempts@.update(
                    old(self).attempts@.len() - 1,
                    final(self).last_attempt(),
                )
                &&& final(self).last_attempt() == (AttemptRecord {
                    status: AttemptStatus::Cancelled,
                    finished_at: Some(now),
                    ..old(self).last_attempt()
                })
                &&& *final(self) == (JobRecord {
                    status: final(self).status,
                    stage: final(self).stage,
                    worker_id: final(self).worker_id,
                    lease_until: final(self).lease_until,
                    completed_at: final(self).completed_at,
                    updated_at: final(self).updated_at,
                    artifacts_expire_at: final(self).artifacts_expire_at,
                    attempts: final(self).attempts,
                    ..*old(self)
                })
            },
    {
        if self.status != JobStatus::CancelRequested || !self.lease_held_by(attempt_id, worker_id, now) {
            return false;
        }
        self.status = JobStatus::Cancelled;
        self.stage = owned("cancelled");
        self.worker_id = None;
        self.lease_until = None;
        self.completed_at = Some(now);
        self.updated_at = now;
        self.artifacts_expire_at = Some(later(now, retention_secs));
        self.end_last_attempt(AttemptStatus::Cancelled, None, None, now);
        true
    }


    /// Records the failure of attempt `attempt_id`, if it still holds the live lease on the
    /// running job: the job is retried after the scheduled delay, or dead-lettered when the
    /// failure is not retryable or no attempt is left. Returns the job's new status.
    pub fn finish_failure(
        &mut self,
        attempt_id: u128,
        worker_id: &str,
        code: &str,
        detail: &str,
        retryable: bool,
        now: u64,
        retention_secs: u64,
    ) -> (status: Option<JobStatus>)
        requires
            old(self).wf(),
        ensures
            final(self).wf(),
            status is Some == (old(self).status == JobStatus::Running && old(self).holds_lease(
                attempt_id,
                worker_id@,
                now,
            )),
            status is None ==> *final(self) == *old(self),
            status is Some ==> spec_failed(*old(self), *final(self), retryable, now),
            status is Some ==> {
                let outcome = spec_failure_outcome(
                    old(self).attempt_count as int,
                    old(self).info.max_attempts as int,
                    retryable,
                );
                let terminal = outcome.0 == JobStatus::DeadLettered;
                &&& status == Some(outcome.0)
                &&& spec_valid_transition(old(self).status, final(self).status)
                &&& final(self).status == outcome.0
                &&& final(self).stage@ == (if terminal { "dead_lettered"@ } else { "retry_wait"@ })
                &&& opt_view(final(self).last_error_code) == Some(code@)
                &&& opt_view(final(self).last_error_detail) == Some(detail@)
                &&& final(self).worker_id is None
                &&& final(self).lease_until is None
                &&& final(self).available_at == after(now, outcome.1)
                &&& final(self).updated_at == now
                &&& final(self).completed_at == (if terminal { Some(now) } else { None })
                &&& final(self).artifacts_expire_at == (if terminal {
                    Some(after(now, retention_secs))
                } else {
                    None
                })
                &&& final(self).attempts@ == old(self).attempts@.update(
                    old(self).attempts@.len() - 1,
                    final(self).last_attempt(),
                )
                &&& final(self).last_attempt() == (AttemptRecord {
                    status: AttemptStatus::Failed,
                    finished_at: Some(now),
                    error_code: final(self).last_attempt().error_code,
                    error_detail: final(self).last_attempt().error_detail,
                    ..old(self).last_attempt()
                })
                &&& opt_view(final(self).last_attempt().error_code) == Some(code@)
                &&& opt_view(final(self).last_attempt().error_detail) == Some(detail@)
                &&& *final(self) == (JobRecord {
                    status: final(self).status,
                    stage: final(self).stage,
                    last_error_code: final(self).last_error_code,
                    last_error_detail: final(self).last_error_detail,
                    worker_id: final(self).worker_id,
                    lease_until: final(self).lease_until,
                    available_at: final(self).available_at,
                    updated_at: final(self).updated_at,
                    completed_at: final(self).completed_at,
                    artifacts_expire_at: final(self).artifacts_expire_at,
                    attempts: final(self).attempts,
                    ..*old(self)
                })
            },
    {
        if self.status != JobStatus::Running || !self.lease_held_by(attempt_id, worker_id, now) {
            return None;
        }
        let (status, delay_seconds) = failure_outcome(
            self.attempt_count,
            self.info.max_attempts,
            retryable,
        );
        let terminal = status == JobStatus::DeadLettered;
        self.status = status;
        self.stage = if terminal {
            owned("dead_lettered")
        } else {
            owned("retry_wait")
        };
        self.last_error_code = Some(owned(code));
        self.last_error_detail = Some(owned(detail));
        self.worker_id = None;
        self.lease_until = None;
        self.available_at = later(now, delay_seconds);
        self.updated_at = now;
        self.completed_at = if terminal {
            Some(now)
        } else {
            None
        };
        self.artifacts_expire_at = if terminal {
            Some(later(now, retention_secs))
        } else {
            None
        };
        self.end_last_attempt(AttemptStatus::Failed, Some(code), Some(detail), now);
        Some(status)
    }

    /// Applies a cancellation request: a job waiting to run is cancelled at once, a running
    /// job is asked to stop, and any other job keeps its status.
    pub fn request_cancel(&mut self, now: u64, retention_secs: u64)
        requires
            old(self).wf(),
        ensures
            final(self).wf(),
            final(self).status != old(self).status ==> spec_valid_transition(
                old(self).status,
                final(self).status,
            ),
            (old(self).status == JobStatus::Queued || old(self).status
                == JobStatus::RetryScheduled) ==> {
                &&& final(self).status == JobStatus::Cancelled
                &&& final(self).stage@ == "cancelled"@
                &&& *final(self) == (JobRecord {
                    status: JobStatus::Cancelled,
                    stage: final(self).stage,
                    completed_at: Some(now),
                    artifacts_expire_at: Some(after(now, retention_secs)),
                    updated_at: now,
                    ..*old(self)
                })
            },
            old(self).status == JobStatus::Running ==> {
                &&& final(self).status == JobStatus::CancelRequested
                &&& final(self).stage@ == "cancel_requested"@
                &&& *final(self) == (JobRecord {
                    status: JobStatus::CancelRequested,
                    stage: final(self).stage,
                    updated_at: now,
                    ..*old(self)
                })
            },
            (old(self).status != JobStatus::Queued && old(self).status != JobStatus::RetryScheduled
                && old(self).status != JobStatus::Running) ==> *final(self) == (JobRecord {
                updated_at: now,
                ..*old(self)
            }),
    {
        match self.status {
            JobStatus::Queued | JobStatus::RetryScheduled => {
                self.status = JobStatus::Cancelled;
                self.stage = owned("cancelled");
                self.completed_at = Some(now);
                self.artifacts_expire_at = Some(later(now, retention_secs));
            },
            JobStatus::Running => {
                self.status = JobStatus::CancelRequested;
                self.stage = owned("cancel_requested");
            },
            _ => {},
        }
        self.updated_at = now;
    }

    /// Whether the job's lease ran out before `now` while it was running or being cancelled.
    pub open spec fn spec_lease_expired(self, now: u64) -> bool {
        &&& (self.status == JobStatus::Running || self.status == JobStatus::CancelRequested)
        &&& self.lease_until matches Some(l) && l < now
    }

    /// Recovers the job from a worker that stopped renewing its lease: a job being cancelled
    /// ends cancelled; a running job is scheduled for another attempt after the usual backoff,
    /// or dead-lettered when it has used all its attempts. Returns whether it was recovered.
    pub fn recover_expired_lease(&mut self, now: u64, retention_secs: u64) -> (recovered: bool)
        requires
            old(self).wf(),
        ensures
            final(self).wf(),
            recovered == old(self).spec_lease_expired(now),
            !recovered ==> *final(self) == *old(self),
            recovered ==> spec_recovered(*old(self), *final(self), now, retention_secs),
            recovered && old(self).status == JobStatus::Running && old(self).attempt_count
                < old(self).info.max_attempts && old(self).info.metadata_expire_at
                > final(self).available_at ==> final(self).spec_claimable(final(self).available_at),
    {
        let expired = match self.lease_until {
            Some(l) => l < now,
            None => false,
        };
        if !expired {
            return false;
        }
        if self.status == JobStatus::CancelRequested {
            self.status = JobStatus::Cancelled;
            self.stage = owned("cancelled");
            self.worker_id = None;
            self.lease_until = None;
            self.completed_at = Some(now);
            self.updated_at = now;
            self.artifacts_expire_at = Some(later(now, retention_secs));
            self.end_last_attempt(
                AttemptStatus::Cancelled,
                Some("cancelled"),
                Some("El trabajo se canceló después de perder el worker."),
                now,
            );
            true
        } else if self.status == JobStatus::Running {
            let terminal = self.attempt_count >= self.info.max_attempts;
            let delay = match retry_delay(self.attempt_count) {
                Some(d) => d.as_secs(),
                None => 0,
            };
            if terminal {
                self.status = JobStatus::DeadLettered;
                self.stage = owned("dead_lettered");
                self.completed_at = Some(now);
                self.artifacts_expire_at = Some(later(now, retention_secs));
            } else {
                self.status = JobStatus::RetryScheduled;
                self.stage = owned("lease_recovered");
                self.completed_at = None;
                self.artifacts_expire_at = None;
            }
            self.available_at = later(now, delay);
            self.worker_id = None;
            self.lease_until = None;
            self.updated_at = now;
            self.last_error_code = Some(owned("worker_lost"));
            self.last_error_detail = Some(owned("El worker dejó de renovar su lease."));
            self.end_last_attempt(
                AttemptStatus::Failed,
                Some("worker_lost"),
                Some("El worker dejó de renovar su lease."),
                now,
            );
            true
        } else {
            false
        }
    }

    /// Records that the job's stored objects were deleted at `now`; the job is then expired.
    pub fn mark_artifacts_deleted(&mut self, now: u64)
        requires
            old(self).wf(),
        ensures
            final(self).wf(),
            final(self).stage@ == "expired"@,
            *final(self) == (JobRecord {
                status: JobStatus::Expired,
                stage: final(self).stage,
                artifacts_deleted_at: Some(now),
                updated_at: now,
                ..*old(self)
            }),
            spec_is_terminal(old(self).status) && old(self).status != JobStatus::Expired
                ==> spec_valid_transition(old(self).status, final(self).status),
    {
        self.status = JobStatus::Expired;
        self.stage = owned("expired");
        self.artifacts_deleted_at = Some(now);
        self.updated_at = now;
    }

    /// The index of the output named `name`, if any.
    pub fn output_named(&self, name: &str) -> (r: Option<usize>)
        ensures
            match r {
                Some(i) => i < self.outputs@.len() && self.outputs@[i as int].name@ == name@,
                None => forall|i: int|
                    0 <= i < self.outputs@.len() ==> (#[trigger] self.outputs@[i]).name@ != name@,
            },
    {
        let mut i: usize = 0;
        while i < self.outputs.len()
            invariant
                i <= self.outputs@.len(),
                forall|j: int| 0 <= j < i ==> (#[trigger] self.outputs@[j]).name@ != name@,
            decreases self.outputs@.len() - i,
        {
            if str_equal(self.outputs[i].name.as_str(), name) {
                return Some(i);
            }
            i = i + 1;
        }
        None
    }

    /// Whether the job belongs to session `session`; a session sees no other session's jobs.
    pub fn belongs_to(&self, session: u128) -> (b: bool)
        ensures
            b == (self.info.session_id == session),
    {
        self.info.session_id == session
    }

    /// The index of the output that session `session` may download under id `output_id`: none
    /// when the job belongs to another session, when its artifacts were deleted, or when it has
    /// no output with that id.
    pub fn downloadable_output(&self, session: u128, output_id: u128) -> (r: Option<usize>)
        ensures
            self.info.session_id != session ==> r is None,
            self.artifacts_deleted_at is Some ==> r is None,
            self.info.session_id == session && self.artifacts_deleted_at is None ==> match r {
                Some(i) => i < self.outputs@.len() && self.outputs@[i as int].id == output_id,
                None => forall|i: int|
                    0 <= i < self.outputs@.len() ==> (#[trigger] self.outputs@[i]).id != output_id,
            },
    {
        if !self.belongs_to(session) || self.artifacts_deleted_at.is_some() {
            return None;
        }
        self.output_with_id(output_id)
    }

    /// The index of the output with id `id`, if any.
    pub fn output_with_id(&self, id: u128) -> (r: Option<usize>)
        ensures
            match r {
                Some(i) => i < self.outputs@.len() && self.outputs@[i as int].id == id,
                None => forall|i: int|
                    0 <= i < self.outputs@.len() ==> (#[trigger] self.outputs@[i]).id != id,
            },
    {
        let mut i: usize = 0;
        while i < self.outputs.len()
            invariant
                i <= self.outputs@.len(),
                forall|j: int| 0 <= j < i ==> (#[trigger] self.outputs@[j]).id != id,
            decreases self.outputs@.len() - i,
        {
            if self.outputs[i].id == id {
                return Some(i);
            }
            i = i + 1;
        }
        None
    }

    /// Stores an output of attempt `attempt_id`, if it still holds the live lease on the
    /// running job. An output with the same name is overwritten in place and keeps its id, so
    /// repeating the write never duplicates it; a new name is stored under `output_id`.
    pub fn upsert_output(
        &mut self,
        output: NewOutput,
        output_id: u128,
        attempt_id: u128,
        worker_id: &str,
        now: u64,
    ) -> (stored: Option<OutputRecord>)
        requires
            old(self).wf(),
        ensures
            final(self).wf(),
            stored is Some == (old(self).status == JobStatus::Running && old(self).holds_lease(
                attempt_id,
                worker_id@,
                now,
            )),
            stored is None ==> *final(self) == *old(self),
            stored matches Some(o) ==> {
                &&& o.name == output.name
                &&& o.object_key == output.object_key
                &&& o.content_type == output.content_type
                &&& o.size == output.size
                &&& o.width == output.width
                &&& o.height == output.height
                &&& o.page_number == output.page_number
                &&& o.created_at == now
                &&& *final(self) == (JobRecord { outputs: final(self).outputs, ..*old(self) })
                &&& forall|i: int|
                    0 <= i < old(self).outputs@.len() && (#[trigger] old(self).outputs@[i]).name@
                        == output.name@ ==> {
                        &&& o.id == old(self).outputs@[i].id
                        &&& final(self).outputs@ == old(self).outputs@.update(i, o)
                    }
                &&& (forall|i: int|
                    0 <= i < old(self).outputs@.len() ==> (#[trigger] old(self).outputs@[i]).name@
                        != output.name@) ==> {
                    &&& o.id == output_id
                    &&& final(self).outputs@ == old(self).outputs@.push(o)
                }
            },
    {
        if self.status != JobStatus::Running || !self.lease_held_by(attempt_id, worker_id, now) {
            return None;
        }
        let ghost old_outputs = self.outputs@;
        match self.output_named(output.name.as_str()) {
            Some(i) => {
                let id = self.outputs[i].id;
                let record = OutputRecord {
                    id,
                    name: output.name,
                    object_key: output.object_key,
                    content_type: output.content_type,
                    size: output.size,
                    width: output.width,
                    height: output.height,
                    page_number: output.page_number,
                    created_at: now,
                };
                let result = record.copy();
                self.outputs.set(i, record);
                proof {
                    assert forall|k: int|
                        0 <= k < old_outputs.len() && (#[trigger] old_outputs[k]).name@
                            == result.name@ implies k == i by {
                        if k != i {
                            assert(old_outputs[k].name@ != old_outputs[i as int].name@);
                        }
                    }
                    assert forall|a: int, b: int|
                        0 <= a < self.outputs@.len() && 0 <= b < self.outputs@.len() && a != b
                            implies #[trigger] self.outputs@[a].name@
                            != #[trigger] self.outputs@[b].name@ by {
                        if a == i {
                            assert(old_outputs[b].name@ == self.outputs@[b].name@);
                            assert(old_outputs[i as int].name@ != old_outputs[b].name@);
                        } else if b == i {
                            assert(old_outputs[a].name@ == self.outputs@[a].name@);
                            assert(old_outputs[i as int].name@ != old_outputs[a].name@);
                        } else {
                            assert(old_outputs[a] == self.outputs@[a]);
                            assert(old_outputs[b] == self.outputs@[b]);
                        }
                    }
                }
                Some(result)
            },
            None => {
                let record = OutputRecord {
                    id: output_id,
                    name: output.name,
                    object_key: output.object_key,
                    content_type: output.content_type,
                    size: output.size,
                    width: output.width,
                    height: output.height,
                    page_number: output.page_number,
                    created_at: now,
                };
                let result = record.copy();
                self.outputs.push(record);
                proof {
                    assert(self.outputs@ =~= old_outputs.push(result));
                    assert forall|a: int, b: int|
                        0 <= a < self.outputs@.len() && 0 <= b < self.outputs@.len() && a != b
                            implies #[trigger] self.outputs@[a].name@
                            != #[trigger] self.outputs@[b].name@ by {
                        if a == old_outputs.len() {
                            assert(old_outputs[b] == self.outputs@[b]);
                        } else if b == old_outputs.len() {
                            assert(old_outputs[a] == self.outputs@[a]);
                        } else {
                            assert(old_outputs[a] == self.outputs@[a]);
                            assert(old_outputs[b] == self.outputs@[b]);
                        }
                    }
                }
                Some(result)
            },
        }
    }

    /// Replaces the latest attempt by a copy that ended at `now` with `status`; the error
    /// fields are replaced only when given.
    fn end_last_attempt(
        &mut self,
        status: AttemptStatus,
        code: Option<&str>,
        detail: Option<&str>,
        now: u64,
    )
        requires
            old(self).attempts@.len() > 0,
        ensures
            final(self).attempts@ == old(self).attempts@.update(
                old(self).attempts@.len() - 1,
                final(self).last_attempt(),
            ),
            final(self).last_attempt() == (AttemptRecord {
                status,
                finished_at: Some(now),
                error_code: match code {
                    Some(c) => final(self).last_attempt().error_code,
                    None => old(self).last_attempt().error_code,
                },
                error_detail: match detail {
                    Some(d) => final(self).last_attempt().error_detail,
                    None => old(self).last_attempt().error_detail,
                },
                ..old(self).last_attempt()
            }),
            code matches Some(c) ==> opt_view(final(self).last_attempt().error_code) == Some(c@),
            detail matches Some(d) ==> opt_view(final(self).last_attempt().error_detail) == Some(d@),
            *final(self) == (JobRecord { attempts: final(self).attempts, ..*old(self) }),
    {
        let last = self.attempts.len() - 1;
        let mut a = self.attempts[last].copy();
        a.status = status;
        a.finished_at = Some(now);
        match code {
            Some(c) => {
                a.error_code = Some(owned(c));
            },
            None => {},
        }
        match detail {
            Some(d) => {
                a.error_detail = Some(owned(d));
            },
            None => {},
        }
        self.attempts.set(last, a);
    }

    /// Whether the record satisfies its invariant; a record read from storage is checked with
    /// this before any operation is applied to it.
    pub fn is_well_formed(&self) -> (b: bool)
        ensures
            b == self.wf(),
    {
        let n = self.attempts.len();
        if !(0 <= self.attempt_count && self.attempt_count <= self.info.max_attempts) {
            return false;
        }
        if n != self.attempt_count as usize || self.progress > 100 {
            return false;
        }
        let mut i: usize = 0;
        while i < n
            invariant
                n == self.attempts@.len(),
                i <= n,
                forall|k: int| 0 <= k < i ==> (#[trigger] self.attempts@[k]).number == k + 1,
                forall|k: int| 0 <= k < i && k < n - 1 ==> (#[trigger] self.attempts@[k]).status
                    != AttemptStatus::Running,
                forall|k: int, m: int|
                    0 <= k < i && 0 <= m < n && k != m ==> #[trigger] self.attempts@[k].id
                        != #[trigger] self.attempts@[m].id,
            decreases n - i,
        {
            if i as i128 + 1 != self.attempts[i].number as i128 {
                return false;
            }
            if i + 1 < n && self.attempts[i].status == AttemptStatus::Running {
                return false;
            }
            let mut j: usize = 0;
            while j < n
                invariant
                    n == self.attempts@.len(),
                    i < n,
                    j <= n,
                    forall|m: int|
                        0 <= m < j && m != i ==> self.attempts@[i as int].id != #[trigger] self.attempts@[m].id,
                decreases n - j,
            {
                if j != i && self.attempts[i].id == self.attempts[j].id {
                    return false;
                }
                j = j + 1;
            }
            proof {
                assert forall|k: int, m: int|
                    0 <= k < i + 1 && 0 <= m < n && k != m implies #[trigger] self.attempts@[k].id
                        != #[trigger] self.attempts@[m].id by {
                    if k == i {
                        assert(self.attempts@[i as int].id != self.attempts@[m].id);
                    }
                }
            }
            i = i + 1;
        }
        let o = self.outputs.len();
        let mut p: usize = 0;
        while p < o
            invariant
                o == self.outputs@.len(),
                p <= o,
                forall|k: int, m: int|
                    0 <= k < p && 0 <= m < o && k != m ==> #[trigger] self.outputs@[k].name@
                        != #[trigger] self.outputs@[m].name@,
            decreases o - p,
        {
            let mut q: usize = 0;
            while q < o
                invariant
                    o == self.outputs@.len(),
                    p < o,
                    q <= o,
                    forall|m: int|
                        0 <= m < q && m != p ==> self.outputs@[p as int].name@
                            != #[trigger] self.outputs@[m].name@,
                decreases o - q,
            {
                if q != p && str_equal(self.outputs[p].name.as_str(), self.outputs[q].name.as_str()) {
                    return false;
                }
                q = q + 1;
            }
            proof {
                assert forall|k: int, m: int|
                    0 <= k < p + 1 && 0 <= m < o && k != m implies #[trigger] self.outputs@[k].name@
                        != #[trigger] self.outputs@[m].name@ by {
                    if k == p {
                        assert(self.outputs@[p as int].name@ != self.outputs@[m].name@);
                    }
                }
            }
            p = p + 1;
        }
        if self.status == JobStatus::Queued && self.attempt_count != 0 {
            return false;
        }
        let last_running = n > 0 && self.attempts[n - 1].status == AttemptStatus::Running;
        if self.status == JobStatus::Running || self.status == JobStatus::CancelRequested {
            if self.worker_id.is_none() || self.lease_until.is_none() || !last_running {
                return false;
            }
        } else if self.status != JobStatus::Expired {
            if self.worker_id.is_some() || self.lease_until.is_some() || last_running {
                return false;
            }
        }
        true
    }

    // -----------------------------------------------------------------------
    // Queries.
    // -----------------------------------------------------------------------
    /// Whether a worker may claim the job at `now`.
    pub fn claimable(&self, now: u64) -> (b: bool)
        ensures
            b == self.spec_claimable(now),
    {
        (self.status == JobStatus::Queued || self.status == JobStatus::RetryScheduled)
            && self.available_at <= now && self.attempt_count < self.info.max_attempts
            && self.info.metadata_expire_at > now
    }

    /// Whether some attempt of the job already carries `attempt_id`.
    pub fn uses_attempt_id(&self, attempt_id: u128) -> (b: bool)
        ensures
            b == self.has_attempt_id(attempt_id),
    {
        let mut i: usize = 0;
        while i < self.attempts.len()
            invariant
                i <= self.attempts@.len(),
                forall|j: int| 0 <= j < i ==> (#[trigger] self.attempts@[j]).id != attempt_id,
            decreases self.attempts@.len() - i,
        {
            if self.attempts[i].id == attempt_id {
                return true;
            }
            i = i + 1;
        }
        false
    }

    /// Whether `attempt_id`, run by `worker_id`, holds the live lease at `now`.
    pub fn lease_held_by(&self, attempt_id: u128, worker_id: &str, now: u64) -> (b: bool)
        ensures
            b == self.holds_lease(attempt_id, worker_id@, now),
    {
        if self.attempts.len() == 0 {
            return false;
        }
        let last = &self.attempts[self.attempts.len() - 1];
        if last.id != attempt_id || last.status != AttemptStatus::Running || last.number
            != self.attempt_count {
            return false;
        }
        let worker_ok = match &self.worker_id {
            Some(w) => str_equal(w.as_str(), worker_id),
            None => false,
        };
        let lease_ok = match self.lease_until {
            Some(l) => l > now,
            None => false,
        };
        worker_ok && lease_ok
    }

    /// Whether cancellation has been asked for or has happened.
    pub fn is_cancel_requested(&self) -> (b: bool)
        ensures
            b == (self.status == JobStatus::CancelRequested || self.status
                == JobStatus::Cancelled),
    {
        self.status == JobStatus::CancelRequested || self.status == JobStatus::Cancelled
    }

    /// Whether the stored objects of the job are due for deletion at `now`: they have not been
    /// deleted yet, and either the artifacts or the whole record have expired.
    pub open spec fn is_cleanup_candidate_spec(self, now: u64) -> bool {
        self.artifacts_deleted_at is None && ((self.artifacts_expire_at matches Some(t) && t
            <= now) || self.info.metadata_expire_at <= now)
    }

    /// Whether the stored objects of the job are due for deletion at `now`.
    pub fn is_cleanup_candidate(&self, now: u64) -> (b: bool)
        ensures
            b == self.is_cleanup_candidate_spec(now),
    {
        self.artifacts_deleted_at.is_none() && (match self.artifacts_expire_at {
            Some(t) => t <= now,
            None => false,
        } || self.info.metadata_expire_at <= now)
    }

    /// Whether the job's metadata may be purged at `now`: it has expired and its objects are gone.
    pub fn is_purgeable(&self, now: u64) -> (b: bool)
        ensures
            b == (self.info.metadata_expire_at <= now && self.artifacts_deleted_at is Some),
    {
        self.info.metadata_expire_at <= now && self.artifacts_deleted_at.is_some()
    }

    /// Whether the owner may delete the job: only once it has finished.
    pub fn is_deletable(&self) -> (b: bool)
        ensures
            b == spec_is_terminal(self.status),
    {
        self.status.is_terminal()
    }
}


// ---------------------------------------------------------------------------
// Laws of the lease protocol.
// ---------------------------------------------------------------------------

/// Only the latest attempt can hold the lease: any earlier attempt of the job is fenced off,
/// whichever worker presents it and whenever.
pub proof fn lemma_stale_attempt_is_fenced(r: JobRecord, i: int, worker: Seq<char>, now: u64)
    requires
        r.wf(),
        0 <= i < r.attempts@.len() - 1,
    ensures
        !r.holds_lease(r.attempts@[i].id, worker, now),
{
    assert(r.attempts@[i].id != r.attempts@[r.attempts@.len() - 1].id);
}

/// At any moment at most one attempt of one worker holds a job's lease.
pub proof fn lemma_single_lease_holder(
    r: JobRecord,
    a1: u128,
    w1: Seq<char>,
    a2: u128,
    w2: Seq<char>,
    now: u64,
)
    requires
        r.wf(),
        r.holds_lease(a1, w1, now),
        r.holds_lease(a2, w2, now),
    ensures
        a1 == a2,
        w1 == w2,
{
}

/// A job that is being processed or cancelled cannot be claimed by another worker.
pub proof fn lemma_leased_job_not_claimable(r: JobRecord, now: u64)
    requires
        r.status == JobStatus::Running || r.status == JobStatus::CancelRequested,
    ensures
        !r.spec_claimable(now),
{
}

/// Attempts never exceed the job's allowance.
pub proof fn lemma_attempts_bounded(r: JobRecord)
    requires
        r.wf(),
    ensures
        r.attempts@.len() <= r.info.max_attempts,
        r.attempt_count <= r.info.max_attempts,
{
}

/// The third failed attempt dead-letters the job, retryable or not.
pub proof fn lemma_third_failure_dead_letters(attempt_count: int, max_attempts: int, retryable: bool)
    requires
        attempt_count >= 3 || attempt_count >= max_attempts,
    ensures
        spec_failure_outcome(attempt_count, max_attempts, retryable).0 == JobStatus::DeadLettered,
{
}

/// A failure that is not retryable is never retried.
pub proof fn lemma_non_retryable_dead_letters(attempt_count: int, max_attempts: int)
    ensures
        spec_failure_outcome(attempt_count, max_attempts, false).0 == JobStatus::DeadLettered,
{
}

/// A retryable failure with attempts left is retried after five seconds the first time and
/// thirty the second; lease recovery waits exactly as long.
pub proof fn lemma_backoff_schedule(attempt_count: int, max_attempts: int)
    requires
        1 <= attempt_count < max_attempts,
        attempt_count <= 2,
    ensures
        spec_failure_outcome(attempt_count, max_attempts, true).0 == JobStatus::RetryScheduled,
        spec_failure_outcome(attempt_count, max_attempts, true).1 == recovery_delay_secs(
            attempt_count,
        ),
        attempt_count == 1 ==> recovery_delay_secs(attempt_count) == 5,
        attempt_count == 2 ==> recovery_delay_secs(attempt_count) == 30,
{
}

/// A job keeps at most one output per name, so rewriting an output never duplicates it.
pub proof fn lemma_one_output_per_name(r: JobRecord, i: int, j: int)
    requires
        r.wf(),
        0 <= i < r.outputs@.len(),
        0 <= j < r.outputs@.len(),
        r.outputs@[i].name@ == r.outputs@[j].name@,
    ensures
        i == j,
{
}

/// Three retryable failures in a row: a job whose first attempt fails is retried five seconds
/// later, its second failure thirty seconds later, and its third failure dead-letters it.
pub proof fn lemma_three_retryable_failures(
    queued: JobRecord,
    first: JobRecord,
    after_first: JobRecord,
    second: JobRecord,
    after_second: JobRecord,
    third: JobRecord,
    after_third: JobRecord,
    workers: (Seq<char>, Seq<char>, Seq<char>),
    attempt_ids: (u128, u128, u128),
    claimed_at: (u64, u64, u64),
    failed_at: (u64, u64, u64),
    lease_secs: u64,
)
    requires
        queued.attempt_count == 0,
        queued.info.max_attempts >= 3,
        spec_claimed(queued, first, workers.0, attempt_ids.0, claimed_at.0, lease_secs),
        spec_failed(first, after_first, true, failed_at.0),
        spec_claimed(after_first, second, workers.1, attempt_ids.1, claimed_at.1, lease_secs),
        spec_failed(second, after_second, true, failed_at.1),
        spec_claimed(after_second, third, workers.2, attempt_ids.2, claimed_at.2, lease_secs),
        spec_failed(third, after_third, true, failed_at.2),
        failed_at.0 + 5 <= u64::MAX,
        failed_at.1 + 30 <= u64::MAX,
    ensures
        after_first.status == JobStatus::RetryScheduled,
        after_first.available_at == failed_at.0 + 5,
        after_second.status == JobStatus::RetryScheduled,
        after_second.available_at == failed_at.1 + 30,
        after_third.status == JobStatus::DeadLettered,
{
    lemma_backoff_schedule(1, queued.info.max_attempts as int);
    lemma_backoff_schedule(2, queued.info.max_attempts as int);
    lemma_third_failure_dead_letters(3, queued.info.max_attempts as int, true);
}

} // verus!

//! The job domain: kinds, statuses, the transition relation and the retry schedule.
use vstd::prelude::*;

use crate::text::{concat3, owned, str_equal};

verus! {

/// What a job transforms.
#[derive(Debug, Clone, Copy, PartialEq, Eq, Structural)]
pub enum JobKind {
    Image,
    Pdf,
}

/// Where a job stands in its life cycle.
#[derive(Debug, Clone, Copy, PartialEq, Eq, Structural)]
pub enum JobStatus {
    Queued,
    Running,
    RetryScheduled,
    Succeeded,
    CancelRequested,
    Cancelled,
    DeadLettered,
    Expired,
}

/// The wire name of a job kind.
pub open spec fn kind_name(kind: JobKind) -> Seq<char> {
    match kind {
        JobKind::Image => seq!['i', 'm', 'a', 'g', 'e'],
        JobKind::Pdf => seq!['p', 'd', 'f'],
    }
}

/// The wire name of a job status.
pub open spec fn status_name(status: JobStatus) -> Seq<char> {
    match status {
        JobStatus::Queued => seq!['q', 'u', 'e', 'u', 'e', 'd'],
        JobStatus::Running => seq!['r', 'u', 'n', 'n', 'i', 'n', 'g'],
        JobStatus::RetryScheduled => seq![
            'r', 'e', 't', 'r', 'y', '_', 's', 'c', 'h', 'e', 'd', 'u', 'l', 'e', 'd'
        ],
        JobStatus::Succeeded => seq!['s', 'u', 'c', 'c', 'e', 'e', 'd', 'e', 'd'],
        JobStatus::CancelRequested => seq![
            'c', 'a', 'n', 'c', 'e', 'l', '_', 'r', 'e', 'q', 'u', 'e', 's', 't', 'e', 'd'
        ],
        JobStatus::Cancelled => seq!['c', 'a', 'n', 'c', 'e', 'l', 'l', 'e', 'd'],
        JobStatus::DeadLettered => seq![
            'd', 'e', 'a', 'd', '_', 'l', 'e', 't', 't', 'e', 'r', 'e', 'd'
        ],
        JobStatus::Expired => seq!['e', 'x', 'p', 'i', 'r', 'e', 'd'],
    }
}

/// A status from which the job never runs again.
pub open spec fn spec_is_terminal(status: JobStatus) -> bool {
    match status {
        JobStatus::Succeeded | JobStatus::Cancelled | JobStatus::DeadLettered
        | JobStatus::Expired => true,
        _ => false,
    }
}

/// A status in which a cancellation request is accepted.
pub open spec fn spec_can_cancel(status: JobStatus) -> bool {
    match status {
        JobStatus::Queued | JobStatus::RetryScheduled | JobStatus::Running => true,
        _ => false,
    }
}

/// The transitions a job may take.
pub open spec fn spec_valid_transition(from: JobStatus, to: JobStatus) -> bool {
    match (from, to) {
        (JobStatus::Queued, JobStatus::Running) => true,
        (JobStatus::Queued, JobStatus::Cancelled) => true,
        (JobStatus::Running, JobStatus::Succeeded) => true,
        (JobStatus::Running, JobStatus::RetryScheduled) => true,
        (JobStatus::Running, JobStatus::CancelRequested) => true,
        (JobStatus::Running, JobStatus::DeadLettered) => true,
        (JobStatus::CancelRequested, JobStatus::Cancelled) => true,
        (JobStatus::CancelRequested, JobStatus::RetryScheduled) => true,
        (JobStatus::RetryScheduled, JobStatus::Running) => true,
        (JobStatus::RetryScheduled, JobStatus::Cancelled) => true,
        (JobStatus::DeadLettered, JobStatus::Expired) => true,
        (JobStatus::Succeeded, JobStatus::Expired) => true,
        (JobStatus::Cancelled, JobStatus::Expired) => true,
        _ => false,
    }
}

/// Seconds to wait before the next attempt, after `completed_attempts` attempts have failed;
/// `None` once no retry is left.
pub open spec fn spec_retry_delay_secs(completed_attempts: int) -> Option<u64> {
    if completed_attempts == 1 {
        Some(5)
    } else if completed_attempts == 2 {
        Some(30)
    } else {
        None
    }
}

/// A span of whole seconds to wait before a job is retried.
#[derive(Debug, Clone, Copy, PartialEq, Eq, Structural)]
pub struct RetryDelay {
    secs: u64,
}

impl RetryDelay {
    pub closed spec fn spec_secs(self) -> u64 {
        self.secs
    }

    /// The delay in whole seconds.
    pub fn as_secs(&self) -> (s: u64)
        ensures
            s == self.spec_secs(),
    {
        self.secs
    }

    /// The delay in milliseconds.
    pub fn as_millis(&self) -> (ms: u128)
        ensures
            ms == self.spec_secs() * 1000,
    {
        self.secs as u128 * 1000
    }
}

/// Why a wire name could not be read as a domain value.
#[derive(Debug, Clone, PartialEq, Eq)]
pub struct ParseDomainValueError {
    field: String,
    value: String,
}

impl ParseDomainValueError {
    pub closed spec fn spec_field(&self) -> Seq<char> {
        self.field@
    }

    pub closed spec fn spec_value(&self) -> Seq<char> {
        self.value@
    }

    pub(crate) fn new(field: &str, value: &str) -> (e: Self)
        ensures
            e.spec_field() == field@,
            e.spec_value() == value@,
    {
        ParseDomainValueError { field: owned(field), value: owned(value) }
    }

    /// Which kind of value was expected.
    pub fn field(&self) -> (f: &str)
        ensures
            f@ == self.spec_field(),
    {
        self.field.as_str()
    }

    /// The text that was rejected.
    pub fn value(&self) -> (v: &str)
        ensures
            v@ == self.spec_value(),
    {
        self.value.as_str()
    }

    /// The human-readable message: `invalid <field>: <value>`.
    pub fn message(&self) -> (m: String)
        ensures
            m@ == seq!['i', 'n', 'v', 'a', 'l', 'i', 'd', ' '] + self.spec_field() + seq![
                ':',
                ' ',
            ] + self.spec_value(),
    {
        let head = concat3("invalid ", self.field.as_str(), ": ");
        let m = concat3(head.as_str(), self.value.as_str(), "");
        proof {
            reveal_strlit("invalid ");
            reveal_strlit(": ");
            reveal_strlit("");
            assert(m@ =~= seq!['i', 'n', 'v', 'a', 'l', 'i', 'd', ' '] + self.spec_field() + seq![
                ':',
                ' ',
            ] + self.spec_value());
        }
        m
    }
}

pub open spec fn job_kind_field() -> Seq<char> {
    seq!['j', 'o', 'b', ' ', 'k', 'i', 'n', 'd']
}

pub open spec fn job_status_field() -> Seq<char> {
    seq!['j', 'o', 'b', ' ', 's', 't', 'a', 't', 'u', 's']
}

impl JobKind {
    /// The wire name: `image` or `pdf`.
    pub fn as_str(self) -> (s: &'static str)
        ensures
            s@ == kind_name(self),
    {
        match self {
            JobKind::Image => {
                proof {
                    reveal_strlit("image");
                }
                let s = "image";
                assert(s@ =~= kind_name(self));
                s
            },
            JobKind::Pdf => {
                proof {
                    reveal_strlit("pdf");
                }
                let s = "pdf";
                assert(s@ =~= kind_name(self));
                s
            },
        }
    }

    /// Reads a wire name; any other text is refused.
    pub fn parse(value: &str) -> (r: Result<JobKind, ParseDomainValueError>)
        ensures
            match r {
                Ok(kind) => kind_name(kind) == value@,
                Err(e) => {
                    &&& forall|k: JobKind| kind_name(k) != value@
                    &&& e.spec_field() == job_kind_field()
                    &&& e.spec_value() == value@
                },
            },
    {
        if str_equal(value, JobKind::Image.as_str()) {
            return Ok(JobKind::Image);
        }
        if str_equal(value, JobKind::Pdf.as_str()) {
            return Ok(JobKind::Pdf);
        }
        proof {
            reveal_strlit("job kind");
        }
        let e = ParseDomainValueError::new("job kind", value);
        assert(e.spec_field() =~= job_kind_field());
        assert forall|k: JobKind| kind_name(k) != value@ by {
            match k {
                JobKind::Image => {},
                JobKind::Pdf => {},
            }
        }
        Err(e)
    }
}

impl std::str::FromStr for JobKind {
    type Err = ParseDomainValueError;

    fn from_str(value: &str) -> (r: Result<Self, Self::Err>)
        ensures
            match r {
                Ok(kind) => kind_name(kind) == value@,
                Err(e) => {
                    &&& forall|k: JobKind| kind_name(k) != value@
                    &&& e.spec_field() == job_kind_field()
                    &&& e.spec_value() == value@
                },
            },
    {
        JobKind::parse(value)
    }
}

impl JobStatus {
    /// The wire name in snake case.
    pub fn as_str(self) -> (s: &'static str)
        ensures
            s@ == status_name(self),
    {
        let s = match self {
            JobStatus::Queued => "queued",
            JobStatus::Running => "running",
            JobStatus::RetryScheduled => "retry_scheduled",
            JobStatus::Succeeded => "succeeded",
            JobStatus::CancelRequested => "cancel_requested",
            JobStatus::Cancelled => "cancelled",
            JobStatus::DeadLettered => "dead_lettered",
            JobStatus::Expired => "expired",
        };
        proof {
            reveal_strlit("queued");
            reveal_strlit("running");
            reveal_strlit("retry_scheduled");
            reveal_strlit("succeeded");
            reveal_strlit("cancel_requested");
            reveal_strlit("cancelled");
            reveal_strlit("dead_lettered");
            reveal_strlit("expired");
            assert(s@ =~= status_name(self));
        }
        s
    }

    /// Reads a wire name; any other text is refused.
    pub fn parse(value: &str) -> (r: Result<JobStatus, ParseDomainValueError>)
        ensures
            match r {
                Ok(status) => status_name(status) == value@,
                Err(e) => {
                    &&& forall|s: JobStatus| status_name(s) != value@
                    &&& e.spec_field() == job_status_field()
                    &&& e.spec_value() == value@
                },
            },
    {
        let all = [
            JobStatus::Queued,
            JobStatus::Running,
            JobStatus::RetryScheduled,
            JobStatus::Succeeded,
            JobStatus::CancelRequested,
            JobStatus::Cancelled,
            JobStatus::DeadLettered,
            JobStatus::Expired,
        ];
        let mut i: usize = 0;
        while i < 8
            invariant
                i <= 8,
                all@ == seq![
                    JobStatus::Queued,
                    JobStatus::Running,
                    JobStatus::RetryScheduled,
                    JobStatus::Succeeded,
                    JobStatus::CancelRequested,
                    JobStatus::Cancelled,
                    JobStatus::DeadLettered,
                    JobStatus::Expired,
                ],
                forall|j: int| 0 <= j < i ==> status_name(#[trigger] all@[j]) != value@,
            decreases 8 - i,
        {
            if str_equal(value, all[i].as_str()) {
                return Ok(all[i]);
            }
            i = i + 1;
        }
        proof {
            reveal_strlit("job status");
        }
        let e = ParseDomainValueError::new("job status", value);
        assert(e.spec_field() =~= job_status_field());
        assert forall|s: JobStatus| status_name(s) != value@ by {
            match s {
                JobStatus::Queued => assert(status_name(all@[0]) != value@),
                JobStatus::Running => assert(status_name(all@[1]) != value@),
                JobStatus::RetryScheduled => assert(status_name(all@[2]) != value@),
                JobStatus::Succeeded => assert(status_name(all@[3]) != value@),
                JobStatus::CancelRequested => assert(status_name(all@[4]) != value@),
                JobStatus::Cancelled => assert(status_name(all@[5]) != value@),
                JobStatus::DeadLettered => assert(status_name(all@[6]) != value@),
                JobStatus::Expired => assert(status_name(all@[7]) != value@),
            }
        }
        Err(e)
    }

    /// Whether the job has finished for good.
    pub fn is_terminal(self) -> (b: bool)
        ensures
            b == spec_is_terminal(self),
    {
        match self {
            JobStatus::Succeeded | JobStatus::Cancelled | JobStatus::DeadLettered
            | JobStatus::Expired => true,
            _ => false,
        }
    }

    /// Whether a cancellation request applies to the job.
    pub fn can_cancel(self) -> (b: bool)
        ensures
            b == spec_can_cancel(self),
    {
        match self {
            JobStatus::Queued | JobStatus::RetryScheduled | JobStatus::Running => true,
            _ => false,
        }
    }
}

impl std::str::FromStr for JobStatus {
    type Err = ParseDomainValueError;

    fn from_str(value: &str) -> (r: Result<Self, Self::Err>)
        ensures
            match r {
                Ok(status) => status_name(status) == value@,
                Err(e) => {
                    &&& forall|s: JobStatus| status_name(s) != value@
                    &&& e.spec_field() == job_status_field()
                    &&& e.spec_value() == value@
                },
            },
    {
        JobStatus::parse(value)
    }
}

/// How long to wait before retrying a job that has failed `completed_attempts` times:
/// five seconds after the first failure, thirty after the second, and no retry after that.
pub fn retry_delay(completed_attempts: i32) -> (d: Option<RetryDelay>)
    ensures
        match spec_retry_delay_secs(completed_attempts as int) {
            Some(secs) => d matches Some(delay) && delay.spec_secs() == secs,
            None => d is None,
        },
{
    match completed_attempts {
        1 => Some(RetryDelay { secs: 5 }),
        2 => Some(RetryDelay { secs: 30 }),
        _ => None,
    }
}

/// Whether a job may move from `from` to `to`.
pub fn valid_transition(from: JobStatus, to: JobStatus) -> (b: bool)
    ensures
        b == spec_valid_transition(from, to),
{
    match (from, to) {
        (JobStatus::Queued, JobStatus::Running) => true,
        (JobStatus::Queued, JobStatus::Cancelled) => true,
        (JobStatus::Running, JobStatus::Succeeded) => true,
        (JobStatus::Running, JobStatus::RetryScheduled) => true,
        (JobStatus::Running, JobStatus::CancelRequested) => true,
        (JobStatus::Running, JobStatus::DeadLettered) => true,
        (JobStatus::CancelRequested, JobStatus::Cancelled) => true,
        (JobStatus::CancelRequested, JobStatus::RetryScheduled) => true,
        (JobStatus::RetryScheduled, JobStatus::Running) => true,
        (JobStatus::RetryScheduled, JobStatus::Cancelled) => true,
        (JobStatus::DeadLettered, JobStatus::Expired) => true,
        (JobStatus::Succeeded, JobStatus::Expired) => true,
        (JobStatus::Cancelled, JobStatus::Expired) => true,
        _ => false,
    }
}

/// An RFC 7807 problem document.
#[derive(Debug, Clone)]
pub struct ProblemDetails {
    pub problem_type: String,
    pub title: String,
    pub status: u16,
    pub code: String,
    pub detail: String,
    pub request_id: String,
}

// ---------------------------------------------------------------------------
// Laws of the domain.
// ---------------------------------------------------------------------------

/// Distinct kinds have distinct wire names, so reading the name back gives the kind.
pub proof fn lemma_kind_names_distinct(a: JobKind, b: JobKind)
    ensures
        kind_name(a) == kind_name(b) ==> a == b,
{
    if a != b {
        assert(kind_name(a)[0] != kind_name(b)[0]);
    }
}

/// Distinct statuses have distinct wire names, so reading the name back gives the status.
pub proof fn lemma_status_names_distinct(a: JobStatus, b: JobStatus)
    ensures
        status_name(a) == status_name(b) ==> a == b,
{
    if a != b && status_name(a) == status_name(b) {
        assert(status_name(a).len() == status_name(b).len());
        assert(status_name(a)[0] == status_name(b)[0]);
        assert(status_name(a)[1] == status_name(b)[1]);
        assert(status_name(a)[2] == status_name(b)[2]);
        assert(status_name(a)[6] == status_name(b)[6]);
    }
}

/// A terminal job cannot move anywhere but to `expired`: in particular it never runs again.
pub proof fn lemma_terminal_only_expires(from: JobStatus, to: JobStatus)
    requires
        spec_is_terminal(from),
        spec_valid_transition(from, to),
    ensures
        to == JobStatus::Expired,
        from != JobStatus::Expired,
{
}

/// An expired job has no further transition.
pub proof fn lemma_expired_is_final(to: JobStatus)
    ensures
        !spec_valid_transition(JobStatus::Expired, to),
{
}

/// No transition leads back to `queued`, and none leaves a status unchanged.
pub proof fn lemma_transitions_never_requeue(from: JobStatus, to: JobStatus)
    requires
        spec_valid_transition(from, to),
    ensures
        to != JobStatus::Queued,
        from != to,
{
}

/// Only jobs that have not finished accept a cancellation request.
pub proof fn lemma_cancellable_is_not_terminal(status: JobStatus)
    ensures
        spec_can_cancel(status) ==> !spec_is_terminal(status),
        spec_can_cancel(status) ==> spec_valid_transition(status, JobStatus::Cancelled)
            || spec_valid_transition(status, JobStatus::CancelRequested),
{
}

/// The retry schedule is bounded: at most two retries, and the second waits longer.
pub proof fn lemma_retry_schedule_bounded(completed_attempts: int)
    ensures
        spec_retry_delay_secs(completed_attempts) is Some <==> (completed_attempts == 1
            || completed_attempts == 2),
        spec_retry_delay_secs(1)->0 < spec_retry_delay_secs(2)->0,
{
}

} // verus!

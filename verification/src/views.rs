//! What clients are shown of jobs: a job, its attempts and outputs, and pages of jobs. Ids are
//! UUIDs as 128-bit numbers; times are seconds since the Unix epoch.
use vstd::prelude::*;

use crate::domain::{JobKind, JobStatus};
use crate::lease::{attempt_status_name, opt_view, AttemptRecord, JobRecord, OutputRecord};
use crate::text::owned;

verus! {

/// A job as shown to its owner.
#[derive(Debug)]
pub struct Job {
    pub id: u128,
    pub kind: JobKind,
    pub status: JobStatus,
    pub progress: u8,
    pub stage: String,
    pub original_name: String,
    pub input_content_type: String,
    pub input_size: i64,
    pub attempt_count: i32,
    pub max_attempts: i32,
    pub last_error_code: Option<String>,
    pub last_error_detail: Option<String>,
    pub retry_of_job_id: Option<u128>,
    pub created_at: u64,
    pub updated_at: u64,
    pub completed_at: Option<u64>,
    pub artifacts_expire_at: Option<u64>,
}

/// One attempt at a job, as shown to its owner.
#[derive(Debug)]
pub struct JobAttempt {
    pub id: u128,
    pub number: i32,
    pub worker_id: String,
    pub status: String,
    pub error_code: Option<String>,
    pub error_detail: Option<String>,
    pub started_at: u64,
    pub finished_at: Option<u64>,
}

/// One output of a job, as shown to its owner.
#[derive(Debug)]
pub struct JobOutput {
    pub id: u128,
    pub name: String,
    pub content_type: String,
    pub size: i64,
    pub width: Option<i32>,
    pub height: Option<i32>,
    pub page_number: Option<i32>,
    pub created_at: u64,
}

/// A job with its attempts, in order, and its outputs.
#[derive(Debug)]
pub struct JobDetail {
    pub job: Job,
    pub attempts: Vec<JobAttempt>,
    pub outputs: Vec<JobOutput>,
}

/// One page of a job listing, and the cursor of the next page when there may be one.
#[derive(Debug)]
pub struct JobPage {
    pub items: Vec<Job>,
    pub next_cursor: Option<u128>,
}

/// A new anonymous session: its bearer token and when it expires.
#[derive(Debug)]
pub struct SessionResponse {
    pub token: String,
    pub expires_at: u64,
}

fn copy_opt(s: &Option<String>) -> (r: Option<String>)
    ensures
        opt_view(r) == opt_view(*s),
{
    match s {
        Some(v) => Some(owned(v.as_str())),
        None => None,
    }
}

/// Whether `v` shows job `r`.
pub open spec fn shows_job(v: Job, r: JobRecord) -> bool {
    &&& v.id == r.info.id
    &&& v.kind == r.info.kind
    &&& v.status == r.status
    &&& v.progress == r.progress
    &&& v.stage@ == r.stage@
    &&& v.original_name@ == r.info.original_name@
    &&& v.input_content_type@ == r.info.input_content_type@
    &&& v.input_size == r.info.input_size
    &&& v.attempt_count == r.attempt_count
    &&& v.max_attempts == r.info.max_attempts
    &&& opt_view(v.last_error_code) == opt_view(r.last_error_code)
    &&& opt_view(v.last_error_detail) == opt_view(r.last_error_detail)
    &&& v.retry_of_job_id == r.info.retry_of_job_id
    &&& v.created_at == r.info.created_at
    &&& v.updated_at == r.updated_at
    &&& v.completed_at == r.completed_at
    &&& v.artifacts_expire_at == r.artifacts_expire_at
}

/// Whether `v` shows attempt `a`.
pub open spec fn shows_attempt(v: JobAttempt, a: AttemptRecord) -> bool {
    &&& v.id == a.id
    &&& v.number == a.number
    &&& v.worker_id@ == a.worker_id@
    &&& v.status@ == attempt_status_name(a.status)
    &&& opt_view(v.error_code) == opt_view(a.error_code)
    &&& opt_view(v.error_detail) == opt_view(a.error_detail)
    &&& v.started_at == a.started_at
    &&& v.finished_at == a.finished_at
}

/// Whether `v` shows output `o`.
pub open spec fn shows_output(v: JobOutput, o: OutputRecord) -> bool {
    &&& v.id == o.id
    &&& v.name@ == o.name@
    &&& v.content_type@ == o.content_type@
    &&& v.size == o.size
    &&& v.width == o.width
    &&& v.height == o.height
    &&& v.page_number == o.page_number
    &&& v.created_at == o.created_at
}

impl AttemptRecord {
    /// The attempt as shown to the job's owner.
    pub fn view_attempt(&self) -> (v: JobAttempt)
        ensures
            shows_attempt(v, *self),
    {
        JobAttempt {
            id: self.id,
            number: self.number,
            worker_id: owned(self.worker_id.as_str()),
            status: owned(self.status.as_str()),
            error_code: copy_opt(&self.error_code),
            error_detail: copy_opt(&self.error_detail),
            started_at: self.started_at,
            finished_at: self.finished_at,
        }
    }
}

impl OutputRecord {
    /// The output as shown to the job's owner.
    pub fn view_output(&self) -> (v: JobOutput)
        ensures
            shows_output(v, *self),
    {
        JobOutput {
            id: self.id,
            name: owned(self.name.as_str()),
            content_type: owned(self.content_type.as_str()),
            size: self.size,
            width: self.width,
            height: self.height,
            page_number: self.page_number,
            created_at: self.created_at,
        }
    }
}

impl JobRecord {
    /// The job as shown to its owner.
    pub fn view_job(&self) -> (v: Job)
        ensures
            shows_job(v, *self),
    {
        Job {
            id: self.info.id,
            kind: self.info.kind,
            status: self.status,
            progress: self.progress,
            stage: owned(self.stage.as_str()),
            original_name: owned(self.info.original_name.as_str()),
            input_content_type: owned(self.info.input_content_type.as_str()),
            input_size: self.info.input_size,
            attempt_count: self.attempt_count,
            max_attempts: self.info.max_attempts,
            last_error_code: copy_opt(&self.last_error_code),
            last_error_detail: copy_opt(&self.last_error_detail),
            retry_of_job_id: self.info.retry_of_job_id,
            created_at: self.info.created_at,
            updated_at: self.updated_at,
            completed_at: self.completed_at,
            artifacts_expire_at: self.artifacts_expire_at,
        }
    }

    /// The job with its attempts, in order of their numbers, and its outputs.
    pub fn detail(&self) -> (d: JobDetail)
        ensures
            shows_job(d.job, *self),
            d.attempts@.len() == self.attempts@.len(),
            forall|i: int|
                0 <= i < d.attempts@.len() ==> shows_attempt(
                    #[trigger] d.attempts@[i],
                    self.attempts@[i],
                ),
            d.outputs@.len() == self.outputs@.len(),
            forall|i: int|
                0 <= i < d.outputs@.len() ==> shows_output(
                    #[trigger] d.outputs@[i],
                    self.outputs@[i],
                ),
    {
        let mut attempts: Vec<JobAttempt> = Vec::new();
        let mut i: usize = 0;
        while i < self.attempts.len()
            invariant
                i <= self.attempts@.len(),
                attempts@.len() == i,
                forall|k: int|
                    0 <= k < i ==> shows_attempt(#[trigger] attempts@[k], self.attempts@[k]),
            decreases self.attempts@.len() - i,
        {
            attempts.push(self.attempts[i].view_attempt());
            i = i + 1;
        }
        let mut outputs: Vec<JobOutput> = Vec::new();
        let mut j: usize = 0;
        while j < self.outputs.len()
            invariant
                j <= self.outputs@.len(),
                outputs@.len() == j,
                forall|k: int|
                    0 <= k < j ==> shows_output(#[trigger] outputs@[k], self.outputs@[k]),
            decreases self.outputs@.len() - j,
        {
            outputs.push(self.outputs[j].view_output());
            j = j + 1;
        }
        JobDetail { job: self.view_job(), attempts, outputs }
    }
}

} // verus!

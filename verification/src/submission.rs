//! The decisions of a job submission, for a new upload or for the retry of a dead-lettered job:
//! a repeated idempotency key is answered with the job it created, the upload quotas are
//! checked before the input is read, and an input stored for a job that is not created is
//! deleted again.
//!
//! The decisions form a state machine. The request handler performs each [`Action`] against
//! the store and object storage and feeds the answer back as an [`Answer`].
use vstd::prelude::*;

use crate::errors::AppError;
use crate::policy::{
    rate_limit_error, rate_limit_message, spec_exceeded_limit, exceeded_limit, UploadLimit,
    UploadLimits,
};

verus! {

/// What is being submitted.
#[derive(Debug, Clone, Copy, PartialEq, Eq, Structural)]
pub enum Mode {
    /// A new upload, with or without an `Idempotency-Key`.
    Upload { has_key: bool },
    /// The retry of a dead-lettered job.
    Retry,
}

/// What the store did with the new job.
#[derive(Debug, Clone, Copy, PartialEq, Eq, Structural)]
pub enum Recorded {
    /// The job was created.
    Created,
    /// A job with the same idempotency key already exists.
    Existing,
    /// A quota was reached when the job was about to be created.
    LimitExceeded(UploadLimit),
}

/// Which job the successful answer carries.
#[derive(Debug, Clone, Copy, PartialEq, Eq, Structural)]
pub enum Answered {
    /// The job just created.
    Created,
    /// The job found for the idempotency key.
    Existing,
}

/// Where the submission stands.
#[derive(Debug, Clone, Copy, PartialEq, Eq, Structural)]
pub enum Stage {
    Begin,
    FindingExisting,
    Counting,
    Reading,
    Storing,
    Recording,
    Discarding,
    FindingAfterFailure,
    Done,
}

/// The handler's answer to the last action.
#[derive(Debug)]
pub enum Answer {
    Start,
    /// Whether a job exists for the idempotency key, or why the store could not say.
    ExistingFound(Result<bool, String>),
    /// The uploads counted for the session, the client address and the whole service.
    Counted(Result<(i64, i64, i64), String>),
    /// The input was read and accepted, or the error answered for it.
    InputRead(Result<(), AppError>),
    /// The input was stored, or why object storage failed.
    InputStored(Result<(), String>),
    /// What the store did with the job, or why it failed.
    JobRecorded(Result<Recorded, String>),
    /// The stored input was deleted (whatever the outcome of the deletion).
    InputDiscarded,
}

/// What the handler is asked to do next.
#[derive(Debug)]
pub enum Action {
    FindExisting,
    CountUploads,
    ReadInput,
    StoreInput,
    RecordJob,
    DiscardInput,
    /// Answer the request: the HTTP status and which job is sent, or the error.
    Reply(Result<(u16, Answered), AppError>),
    /// The answer was not one the current stage waits for; nothing changes.
    Ignored,
}

/// The decisions of one submission.
#[derive(Debug)]
pub struct Submission {
    pub mode: Mode,
    pub limits: UploadLimits,
    pub stage: Stage,
    /// The reply held back while the stored input is deleted.
    pub pending: Option<Result<(u16, Answered), AppError>>,
    /// Whether recording the job failed (and not for a quota).
    pub record_failed: bool,
}

/// Whether `answer` is one that `stage` waits for.
pub open spec fn awaited(stage: Stage, answer: Answer) -> bool {
    match answer {
        Answer::Start => stage == Stage::Begin,
        Answer::ExistingFound(_) => stage == Stage::FindingExisting || stage
            == Stage::FindingAfterFailure,
        Answer::Counted(_) => stage == Stage::Counting,
        Answer::InputRead(_) => stage == Stage::Reading,
        Answer::InputStored(_) => stage == Stage::Storing,
        Answer::JobRecorded(_) => stage == Stage::Recording,
        Answer::InputDiscarded => stage == Stage::Discarding,
    }
}

pub open spec fn has_key(mode: Mode) -> bool {
    mode matches Mode::Upload { has_key } && has_key
}

/// The status an existing job is answered with: 200 for an upload, 202 for a retry.
pub open spec fn existing_status(mode: Mode) -> u16 {
    if mode is Retry {
        202
    } else {
        200
    }
}

/// The stage after `answer`.
pub open spec fn next_stage(
    mode: Mode,
    limits: UploadLimits,
    stage: Stage,
    record_failed: bool,
    answer: Answer,
) -> Stage {
    if !awaited(stage, answer) {
        stage
    } else {
        match answer {
            Answer::Start => if has_key(mode) {
                Stage::FindingExisting
            } else {
                Stage::Counting
            },
            Answer::ExistingFound(r) => if stage == Stage::FindingExisting && r == Ok::<
                bool,
                String,
            >(false) {
                Stage::Counting
            } else {
                Stage::Done
            },
            Answer::Counted(r) => match r {
                Ok(c) => if spec_exceeded_limit(c.0, c.1, c.2, limits) is None {
                    Stage::Reading
                } else {
                    Stage::Done
                },
                Err(_) => Stage::Done,
            },
            Answer::InputRead(r) => if r is Ok {
                Stage::Storing
            } else {
                Stage::Done
            },
            Answer::InputStored(r) => if r is Ok {
                Stage::Recording
            } else {
                Stage::Done
            },
            Answer::JobRecorded(r) => if r == Ok::<Recorded, String>(Recorded::Created) {
                Stage::Done
            } else {
                Stage::Discarding
            },
            Answer::InputDiscarded => if record_failed && has_key(mode) {
                Stage::FindingAfterFailure
            } else {
                Stage::Done
            },
        }
    }
}

/// The reply to a request: the status and job sent, or the error.
pub open spec fn is_reply(a: Action, r: Result<(u16, Answered), AppError>) -> bool {
    a matches Action::Reply(x) && x == r
}

pub open spec fn is_error_reply(a: Action, e: AppError) -> bool {
    a matches Action::Reply(Err(x)) && x == e
}

/// Whether `a` answers with `e`, an error carrying the message `m`.
pub open spec fn replies_internal(a: Action, m: Seq<char>) -> bool {
    a matches Action::Reply(Err(AppError::Internal(x))) && x@ == m
}

pub open spec fn replies_rate_limited(a: Action, limit: UploadLimit, limits: UploadLimits) -> bool {
    a matches Action::Reply(Err(AppError::RateLimited(x))) && x@ == rate_limit_message(
        limit,
        limits.session_hourly,
    )
}

impl Submission {
    /// The decisions of a submission in `mode`, under the upload quotas `limits`.
    pub fn new(mode: Mode, limits: UploadLimits) -> (s: Submission)
        ensures
            s.mode == mode,
            s.limits == limits,
            s.stage == Stage::Begin,
            s.pending is None,
            !s.record_failed,
    {
        Submission { mode, limits, stage: Stage::Begin, pending: None, record_failed: false }
    }

    /// The invariant of reachable states: while the stored input is deleted, or the key looked
    /// up again, the reply is held.
    pub open spec fn inv(self) -> bool {
        &&& (self.stage == Stage::Discarding || self.stage == Stage::FindingAfterFailure)
            ==> self.pending is Some
        &&& self.stage == Stage::FindingAfterFailure ==> self.record_failed && has_key(self.mode)
    }

    fn has_key(&self) -> (b: bool)
        ensures
            b == has_key(self.mode),
    {
        match self.mode {
            Mode::Upload { has_key } => has_key,
            Mode::Retry => false,
        }
    }

    /// Advances on the handler's answer and returns the next action.
    pub fn advance(&mut self, answer: Answer) -> (a: Action)
        requires
            old(self).inv(),
        ensures
            final(self).inv(),
            final(self).mode == old(self).mode,
            final(self).limits == old(self).limits,
            final(self).stage == next_stage(
                old(self).mode,
                old(self).limits,
                old(self).stage,
                old(self).record_failed,
                answer,
            ),
            !awaited(old(self).stage, answer) ==> a is Ignored && *final(self) == *old(self),
            awaited(old(self).stage, answer) ==> match answer {
                Answer::Start => if has_key(old(self).mode) {
                    a is FindExisting
                } else {
                    a is CountUploads
                },
                Answer::ExistingFound(r) => match r {
                    Ok(true) => is_reply(a, Ok((existing_status(old(self).mode), Answered::Existing))),
                    Ok(false) => if old(self).stage == Stage::FindingExisting {
                        a is CountUploads
                    } else {
                        old(self).pending matches Some(p) && is_reply(a, p)
                    },
                    Err(m) => replies_internal(a, m@),
                },
                Answer::Counted(r) => match r {
                    Ok(c) => match spec_exceeded_limit(c.0, c.1, c.2, old(self).limits) {
                        None => a is ReadInput,
                        Some(limit) => replies_rate_limited(a, limit, old(self).limits),
                    },
                    Err(m) => replies_internal(a, m@),
                },
                Answer::InputRead(r) => match r {
                    Ok(()) => a is StoreInput,
                    Err(e) => is_error_reply(a, e),
                },
                Answer::InputStored(r) => match r {
                    Ok(()) => a is RecordJob,
                    Err(m) => a matches Action::Reply(Err(AppError::Storage(x))) && x@ == m@,
                },
                Answer::JobRecorded(r) => match r {
                    Ok(Recorded::Created) => is_reply(a, Ok((202u16, Answered::Created))),
                    Ok(Recorded::Existing) => {
                        &&& a is DiscardInput
                        &&& final(self).pending == Some(
                            Ok::<(u16, Answered), AppError>(
                                (existing_status(old(self).mode), Answered::Existing),
                            ),
                        )
                        &&& !final(self).record_failed
                    },
                    Ok(Recorded::LimitExceeded(limit)) => {
                        &&& a is DiscardInput
                        &&& final(self).pending matches Some(Err(AppError::RateLimited(x)))
                        &&& x@ == rate_limit_message(limit, old(self).limits.session_hourly)
                        &&& !final(self).record_failed
                    },
                    Err(m) => {
                        &&& a is DiscardInput
                        &&& final(self).pending matches Some(Err(AppError::Internal(x)))
                        &&& x@ == m@
                        &&& final(self).record_failed
                    },
                },
                Answer::InputDiscarded => if old(self).record_failed && has_key(old(self).mode) {
                    a is FindExisting && final(self).pending == old(self).pending
                } else {
                    old(self).pending matches Some(p) && is_reply(a, p)
                },
            },
    {
        let is_awaited = match &answer {
            Answer::Start => self.stage == Stage::Begin,
            Answer::ExistingFound(_) => self.stage == Stage::FindingExisting || self.stage
                == Stage::FindingAfterFailure,
            Answer::Counted(_) => self.stage == Stage::Counting,
            Answer::InputRead(_) => self.stage == Stage::Reading,
            Answer::InputStored(_) => self.stage == Stage::Storing,
            Answer::JobRecorded(_) => self.stage == Stage::Recording,
            Answer::InputDiscarded => self.stage == Stage::Discarding,
        };
        if !is_awaited {
            return Action::Ignored;
        }
        match answer {
            Answer::Start => {
                if self.has_key() {
                    self.stage = Stage::FindingExisting;
                    Action::FindExisting
                } else {
                    self.stage = Stage::Counting;
                    Action::CountUploads
                }
            },
            Answer::ExistingFound(r) => match r {
                Ok(true) => {
                    self.stage = Stage::Done;
                    let status: u16 = match self.mode {
                        Mode::Retry => 202,
                        _ => 200,
                    };
                    Action::Reply(Ok((status, Answered::Existing)))
                },
                Ok(false) => {
                    if self.stage == Stage::FindingExisting {
                        self.stage = Stage::Counting;
                        Action::CountUploads
                    } else {
                        self.stage = Stage::Done;
                        match self.pending.take() {
                            Some(p) => Action::Reply(p),
                            None => Action::Ignored,
                        }
                    }
                },
                Err(m) => {
                    self.stage = Stage::Done;
                    Action::Reply(Err(AppError::Internal(m)))
                },
            },
            Answer::Counted(r) => match r {
                Ok(c) => match exceeded_limit(c.0, c.1, c.2, self.limits) {
                    None => {
                        self.stage = Stage::Reading;
                        Action::ReadInput
                    },
                    Some(limit) => {
                        self.stage = Stage::Done;
                        Action::Reply(Err(rate_limit_error(limit, self.limits.session_hourly)))
                    },
                },
                Err(m) => {
                    self.stage = Stage::Done;
                    Action::Reply(Err(AppError::Internal(m)))
                },
            },
            Answer::InputRead(r) => match r {
                Ok(()) => {
                    self.stage = Stage::Storing;
                    Action::StoreInput
                },
                Err(e) => {
                    self.stage = Stage::Done;
                    Action::Reply(Err(e))
                },
            },
            Answer::InputStored(r) => match r {
                Ok(()) => {
                    self.stage = Stage::Recording;
                    Action::RecordJob
                },
                Err(m) => {
                    self.stage = Stage::Done;
                    Action::Reply(Err(AppError::Storage(m)))
                },
            },
            Answer::JobRecorded(r) => match r {
                Ok(Recorded::Created) => {
                    self.stage = Stage::Done;
                    Action::Reply(Ok((202, Answered::Created)))
                },
                Ok(Recorded::Existing) => {
                    let status: u16 = match self.mode {
                        Mode::Retry => 202,
                        _ => 200,
                    };
                    self.stage = Stage::Discarding;
                    self.pending = Some(Ok((status, Answered::Existing)));
                    self.record_failed = false;
                    Action::DiscardInput
                },
                Ok(Recorded::LimitExceeded(limit)) => {
                    self.stage = Stage::Discarding;
                    self.pending = Some(Err(rate_limit_error(limit, self.limits.session_hourly)));
                    self.record_failed = false;
                    Action::DiscardInput
                },
                Err(m) => {
                    self.stage = Stage::Discarding;
                    self.pending = Some(Err(AppError::Internal(m)));
                    self.record_failed = true;
                    Action::DiscardInput
                },
            },
            Answer::InputDiscarded => {
                if self.record_failed && self.has_key() {
                    self.stage = Stage::FindingAfterFailure;
                    Action::FindExisting
                } else {
                    self.stage = Stage::Done;
                    match self.pending.take() {
                        Some(p) => Action::Reply(p),
                        None => Action::Ignored,
                    }
                }
            },
        }
    }
}

// ---------------------------------------------------------------------------
// Laws of a submission.
// ---------------------------------------------------------------------------

/// A bound on the answers left before the reply.
pub open spec fn answers_left(stage: Stage) -> nat {
    match stage {
        Stage::Begin => 8,
        Stage::FindingExisting => 7,
        Stage::Counting => 6,
        Stage::Reading => 5,
        Stage::Storing => 4,
        Stage::Recording => 3,
        Stage::Discarding => 2,
        Stage::FindingAfterFailure => 1,
        Stage::Done => 0,
    }
}

/// A submission always comes to its reply: every awaited answer leaves fewer to go.
pub proof fn lemma_submission_terminates(
    mode: Mode,
    limits: UploadLimits,
    stage: Stage,
    record_failed: bool,
    answer: Answer,
)
    requires
        awaited(stage, answer),
    ensures
        answers_left(next_stage(mode, limits, stage, record_failed, answer)) < answers_left(stage),
{
}

/// An input that was stored is never left behind: unless the job was created, it is deleted
/// before the request is answered.
pub proof fn lemma_stored_input_is_discarded(
    mode: Mode,
    limits: UploadLimits,
    record_failed: bool,
    r: Result<Recorded, String>,
)
    requires
        r != Ok::<Recorded, String>(Recorded::Created),
    ensures
        next_stage(mode, limits, Stage::Recording, record_failed, Answer::JobRecorded(r))
            == Stage::Discarding,
{
}

/// The input is read only once the uploads counted for the session, the address and the
/// service are all below their quotas.
pub proof fn lemma_quotas_checked_before_reading(
    mode: Mode,
    limits: UploadLimits,
    stage: Stage,
    record_failed: bool,
    answer: Answer,
)
    requires
        stage != Stage::Reading,
        next_stage(mode, limits, stage, record_failed, answer) == Stage::Reading,
    ensures
        stage == Stage::Counting,
        answer matches Answer::Counted(Ok(c)) && c.0 < limits.session_hourly && c.1
            < limits.ip_daily && c.2 < limits.global_daily,
{
}

/// An upload whose idempotency key already names a job is answered at once: nothing is
/// counted, read or stored.
pub proof fn lemma_repeated_key_is_answered_at_once(
    mode: Mode,
    limits: UploadLimits,
    record_failed: bool,
)
    ensures
        next_stage(
            mode,
            limits,
            Stage::FindingExisting,
            record_failed,
            Answer::ExistingFound(Ok(true)),
        ) == Stage::Done,
{
}

} // verus!

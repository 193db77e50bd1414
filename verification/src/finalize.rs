//! What a worker does once processing of a claimed job has stopped: the decisions between
//! storing outputs, finishing the job, honouring a cancellation and recording a failure.
//!
//! The decisions form a state machine. The worker's driver performs each [`Step`] against the
//! job store and feeds the answer back as an [`Event`]; every store operation it performs is
//! itself fenced by the attempt's lease, so a worker that lost its lease changes nothing.
use vstd::prelude::*;

use crate::domain::JobStatus;
use crate::errors::{processing_error_code, processing_error_message, ProcessingError};
use crate::format::{dec_text, push_decimal};
use crate::text::owned;

verus! {

/// How processing of the job ended.
#[derive(Debug)]
pub enum Outcome {
    /// Processing produced this many artifacts.
    Produced { artifacts: usize },
    /// Processing saw that the job was being cancelled.
    Cancelled,
    /// Processing found that the attempt no longer held the lease.
    LeaseLost,
    /// Processing failed.
    Failed { code: String, detail: String, retryable: bool },
    /// Processing did not finish within the timeout.
    TimedOut { timeout_seconds: u64 },
}

/// Why the driver checks for cancellation.
#[derive(Debug, Clone, Copy, PartialEq, Eq, Structural)]
pub enum CheckReason {
    /// Before storing what processing produced.
    BeforeStore,
    /// The attempt lost its lease before storing its outputs.
    ProgressLost,
    /// The attempt lost its lease while storing an output.
    OutputLost,
    /// Marking the job succeeded was refused.
    SuccessRejected,
    /// Processing stopped because the lease was lost.
    LeaseLost,
    /// Recording the failure was refused.
    FailureRejected,
    /// Recording the timeout was refused.
    TimeoutRejected,
}

/// How the handling of a claimed job ended.
#[derive(Debug, Clone, Copy, PartialEq, Eq, Structural)]
pub enum Ending {
    /// The job succeeded.
    Succeeded,
    /// The job was cancelled.
    Cancelled,
    /// The failure was recorded; the job now has this status.
    Failed(JobStatus),
    /// A cancellation could not be recorded: the attempt had lost its lease.
    StaleCancellation,
    /// A cancellation after lease loss could not be recorded either.
    CancellationIgnored,
    /// The outputs were discarded: the lease was lost before storing them.
    DiscardedOutputs,
    /// An output was discarded: the lease was lost while storing it.
    DiscardedOutput,
    /// Success was refused because the job was being cancelled, and the cancellation could not
    /// be recorded.
    StaleSuccessAfterCancellation,
    /// Success was refused because the lease was lost.
    StaleSuccessAfterLeaseLoss,
    /// Processing stopped after losing the lease.
    StoppedAfterLeaseLoss,
    /// The failure was refused because the lease was lost.
    StaleFailure,
    /// The timeout was refused because the lease was lost.
    StaleTimeout,
}

/// Where the state machine stands.
#[derive(Debug, Clone, Copy, PartialEq, Eq, Structural)]
pub enum Phase {
    Begin,
    CheckingCancel(CheckReason),
    /// Waiting for the cancellation to be recorded; the ending if it is refused.
    FinishingCancel(Ending),
    Progress,
    Storing,
    Succeeding,
    Failing,
    Done(Ending),
}

/// What the driver reports.
#[derive(Debug, Clone, Copy, PartialEq, Eq, Structural)]
pub enum Event {
    Start,
    /// Whether cancellation of the job has been requested.
    CancelState(bool),
    /// Whether the job was marked cancelled or succeeded, as asked.
    Finished(bool),
    /// Whether the attempt still held the lease when recording progress.
    ProgressOwned(bool),
    /// Whether the artifact was recorded under the attempt's lease.
    Stored(bool),
    /// The job's status after the failure was recorded, or `None` if it was refused.
    FailureRecorded(Option<JobStatus>),
}

/// What the driver must do next.
#[derive(Debug)]
pub enum Step {
    /// Ask whether cancellation of the job has been requested.
    CheckCancel,
    /// Mark the cancel-requested job cancelled under the attempt's lease.
    FinishCancelled,
    /// Record progress `storing_outputs` at 85% under the attempt's lease.
    UpdateProgress { stage: String, progress: u8 },
    /// Store artifact number `i` and record it under the attempt's lease.
    StoreArtifact(usize),
    /// Mark the job succeeded under the attempt's lease.
    FinishSuccess,
    /// Record the failure under the attempt's lease.
    FinishFailure { code: String, detail: String, retryable: bool },
    /// Nothing is left to do.
    Done(Ending),
    /// The event does not belong to the current phase and was ignored.
    Ignored,
}

/// The decision state for one claimed job.
#[derive(Debug)]
pub struct Finalizer {
    pub outcome: Outcome,
    pub phase: Phase,
    pub stored: usize,
}

pub open spec fn artifact_count(o: Outcome) -> nat {
    match o {
        Outcome::Produced { artifacts } => artifacts as nat,
        _ => 0,
    }
}

/// The detail recorded when processing times out.
pub open spec fn timeout_detail(secs: u64) -> Seq<char> {
    "El procesamiento superó "@ + dec_text(secs as nat) + " segundos."@
}

/// The phase that follows `phase` on `event`, with the artifacts stored so far.
pub open spec fn spec_next_phase(o: Outcome, phase: Phase, stored: nat, event: Event) -> (
    Phase,
    nat,
) {
    match (phase, event) {
        (Phase::Begin, Event::Start) => match o {
            Outcome::Produced { .. } => (Phase::CheckingCancel(CheckReason::BeforeStore), stored),
            Outcome::Cancelled => (Phase::FinishingCancel(Ending::StaleCancellation), stored),
            Outcome::LeaseLost => (Phase::CheckingCancel(CheckReason::LeaseLost), stored),
            Outcome::Failed { .. } => (Phase::Failing, stored),
            Outcome::TimedOut { .. } => (Phase::Failing, stored),
        },
        (Phase::CheckingCancel(reason), Event::CancelState(requested)) => if requested {
            let on_refusal = match reason {
                CheckReason::BeforeStore => Ending::StaleCancellation,
                CheckReason::SuccessRejected => Ending::StaleSuccessAfterCancellation,
                _ => Ending::CancellationIgnored,
            };
            (Phase::FinishingCancel(on_refusal), stored)
        } else {
            match reason {
                CheckReason::BeforeStore => (Phase::Progress, stored),
                CheckReason::ProgressLost => (Phase::Done(Ending::DiscardedOutputs), stored),
                CheckReason::OutputLost => (Phase::Done(Ending::DiscardedOutput), stored),
                CheckReason::SuccessRejected => (
                    Phase::Done(Ending::StaleSuccessAfterLeaseLoss),
                    stored,
                ),
                CheckReason::LeaseLost => (Phase::Done(Ending::StoppedAfterLeaseLoss), stored),
                CheckReason::FailureRejected => (Phase::Done(Ending::StaleFailure), stored),
                CheckReason::TimeoutRejected => (Phase::Done(Ending::StaleTimeout), stored),
            }
        },
        (Phase::FinishingCancel(on_refusal), Event::Finished(ok)) => if ok {
            (Phase::Done(Ending::Cancelled), stored)
        } else {
            (Phase::Done(on_refusal), stored)
        },
        (Phase::Progress, Event::ProgressOwned(owned)) => if !owned {
            (Phase::CheckingCancel(CheckReason::ProgressLost), stored)
        } else if artifact_count(o) == 0 {
            (Phase::Succeeding, 0)
        } else {
            (Phase::Storing, 0)
        },
        (Phase::Storing, Event::Stored(ok)) => if !ok {
            (Phase::CheckingCancel(CheckReason::OutputLost), stored)
        } else if stored + 1 >= artifact_count(o) {
            (Phase::Succeeding, stored + 1)
        } else {
            (Phase::Storing, stored + 1)
        },
        (Phase::Succeeding, Event::Finished(ok)) => if ok {
            (Phase::Done(Ending::Succeeded), stored)
        } else {
            (Phase::CheckingCancel(CheckReason::SuccessRejected), stored)
        },
        (Phase::Failing, Event::FailureRecorded(status)) => match status {
            Some(s) => (Phase::Done(Ending::Failed(s)), stored),
            None => (
                Phase::CheckingCancel(
                    if o is TimedOut {
                        CheckReason::TimeoutRejected
                    } else {
                        CheckReason::FailureRejected
                    },
                ),
                stored,
            ),
        },
        _ => (phase, stored),
    }
}

/// Whether `event` is an answer the phase waits for.
pub open spec fn expected(phase: Phase, event: Event) -> bool {
    match (phase, event) {
        (Phase::Begin, Event::Start) => true,
        (Phase::CheckingCancel(_), Event::CancelState(_)) => true,
        (Phase::FinishingCancel(_), Event::Finished(_)) => true,
        (Phase::Progress, Event::ProgressOwned(_)) => true,
        (Phase::Storing, Event::Stored(_)) => true,
        (Phase::Succeeding, Event::Finished(_)) => true,
        (Phase::Failing, Event::FailureRecorded(_)) => true,
        _ => false,
    }
}

/// The step that the driver is asked to perform on entering `phase`.
pub open spec fn step_of(o: Outcome, phase: Phase, stored: nat, s: Step) -> bool {
    match phase {
        Phase::Begin => s is Ignored,
        Phase::CheckingCancel(_) => s is CheckCancel,
        Phase::FinishingCancel(_) => s is FinishCancelled,
        Phase::Progress => s matches Step::UpdateProgress { stage, progress } && stage@
            == "storing_outputs"@ && progress == 85,
        Phase::Storing => s matches Step::StoreArtifact(i) && i == stored,
        Phase::Succeeding => s is FinishSuccess,
        Phase::Failing => match o {
            Outcome::Failed { code, detail, retryable } => s matches Step::FinishFailure {
                code: c,
                detail: d,
                retryable: r,
            } && c@ == code@ && d@ == detail@ && r == retryable,
            Outcome::TimedOut { timeout_seconds } => s matches Step::FinishFailure {
                code: c,
                detail: d,
                retryable: r,
            } && c@ == "processing_timeout"@ && d@ == timeout_detail(timeout_seconds) && r,
            _ => s is Ignored,
        },
        Phase::Done(e) => s == Step::Done(e),
    }
}

/// How processing ended, from what it returned: the number of artifacts it produced or the
/// error it stopped with, or `None` when it ran past `timeout_seconds`. A cancellation and a
/// lost lease keep their own outcomes; any other error is a failure with its code and message,
/// retryable only when it is temporary.
pub fn processing_outcome(
    result: Option<Result<usize, ProcessingError>>,
    timeout_seconds: u64,
) -> (o: Outcome)
    ensures
        match result {
            None => o matches Outcome::TimedOut { timeout_seconds: t } && t == timeout_seconds,
            Some(Ok(n)) => o matches Outcome::Produced { artifacts } && artifacts == n,
            Some(Err(ProcessingError::Cancelled)) => o is Cancelled,
            Some(Err(ProcessingError::LeaseLost)) => o is LeaseLost,
            Some(Err(e)) => o matches Outcome::Failed { code, detail, retryable } && code@
                == processing_error_code(e) && detail@ == processing_error_message(e) && retryable
                == (e is Temporary),
        },
{
    match result {
        None => Outcome::TimedOut { timeout_seconds },
        Some(Ok(n)) => Outcome::Produced { artifacts: n },
        Some(Err(ProcessingError::Cancelled)) => Outcome::Cancelled,
        Some(Err(ProcessingError::LeaseLost)) => Outcome::LeaseLost,
        Some(Err(error)) => Outcome::Failed {
            code: owned(error.code()),
            detail: error.message(),
            retryable: error.retryable(),
        },
    }
}

impl Finalizer {
    /// The decision state for a job whose processing ended with `outcome`.
    pub fn new(outcome: Outcome) -> (f: Finalizer)
        ensures
            f.outcome == outcome,
            f.phase == Phase::Begin,
            f.stored == 0,
    {
        Finalizer { outcome, phase: Phase::Begin, stored: 0 }
    }

    /// The invariant of reachable states.
    pub open spec fn inv(self) -> bool {
        &&& (self.phase == Phase::Progress || self.phase == Phase::Storing || self.phase
            == Phase::Succeeding || self.phase == Phase::CheckingCancel(CheckReason::BeforeStore)
            || self.phase == Phase::CheckingCancel(CheckReason::ProgressLost) || self.phase
            == Phase::CheckingCancel(CheckReason::OutputLost) || self.phase
            == Phase::CheckingCancel(CheckReason::SuccessRejected)) ==> self.outcome is Produced
        &&& self.phase == Phase::Storing ==> self.stored < artifact_count(self.outcome)
        &&& self.phase == Phase::Failing ==> (self.outcome is Failed || self.outcome is TimedOut)
        &&& self.stored <= artifact_count(self.outcome)
        &&& self.phase == Phase::Succeeding ==> self.stored == artifact_count(self.outcome)
    }

    /// Whether the worker process must restart once the job is handled: after a timeout the
    /// blocking work may still be running.
    pub fn restart_required(&self) -> (b: bool)
        ensures
            b == (self.outcome is TimedOut),
    {
        match self.outcome {
            Outcome::TimedOut { .. } => true,
            _ => false,
        }
    }

    fn failure_step(&self) -> (s: Step)
        requires
            self.outcome is Failed || self.outcome is TimedOut,
        ensures
            step_of(self.outcome, Phase::Failing, self.stored as nat, s),
    {
        match &self.outcome {
            Outcome::Failed { code, detail, retryable } => Step::FinishFailure {
                code: code.clone(),
                detail: detail.clone(),
                retryable: *retryable,
            },
            Outcome::TimedOut { timeout_seconds } => {
                let mut detail = owned("El procesamiento superó ");
                push_decimal(&mut detail, *timeout_seconds);
                detail.append(" segundos.");
                Step::FinishFailure {
                    code: owned("processing_timeout"),
                    detail,
                    retryable: true,
                }
            },
            _ => Step::Ignored,
        }
    }

    /// Advances on the driver's answer `event` and returns the next step to perform.
    pub fn advance(&mut self, event: Event) -> (s: Step)
        requires
            old(self).inv(),
        ensures
            final(self).inv(),
            final(self).outcome == old(self).outcome,
            (final(self).phase, final(self).stored as nat) == spec_next_phase(
                old(self).outcome,
                old(self).phase,
                old(self).stored as nat,
                event,
            ),
            expected(old(self).phase, event) ==> step_of(
                final(self).outcome,
                final(self).phase,
                final(self).stored as nat,
                s,
            ),
            !expected(old(self).phase, event) ==> s is Ignored,
    {
        let artifacts: usize = match self.outcome {
            Outcome::Produced { artifacts } => artifacts,
            _ => 0,
        };
        match (self.phase, event) {
            (Phase::Begin, Event::Start) => match &self.outcome {
                Outcome::Produced { .. } => {
                    self.phase = Phase::CheckingCancel(CheckReason::BeforeStore);
                    Step::CheckCancel
                },
                Outcome::Cancelled => {
                    self.phase = Phase::FinishingCancel(Ending::StaleCancellation);
                    Step::FinishCancelled
                },
                Outcome::LeaseLost => {
                    self.phase = Phase::CheckingCancel(CheckReason::LeaseLost);
                    Step::CheckCancel
                },
                Outcome::Failed { .. } | Outcome::TimedOut { .. } => {
                    self.phase = Phase::Failing;
                    self.failure_step()
                },
            },
            (Phase::CheckingCancel(reason), Event::CancelState(requested)) => {
                if requested {
                    let on_refusal = match reason {
                        CheckReason::BeforeStore => Ending::StaleCancellation,
                        CheckReason::SuccessRejected => Ending::StaleSuccessAfterCancellation,
                        _ => Ending::CancellationIgnored,
                    };
                    self.phase = Phase::FinishingCancel(on_refusal);
                    Step::FinishCancelled
                } else {
                    let ending = match reason {
                        CheckReason::BeforeStore => {
                            self.phase = Phase::Progress;
                            return Step::UpdateProgress {
                                stage: owned("storing_outputs"),
                                progress: 85,
                            };
                        },
                        CheckReason::ProgressLost => Ending::DiscardedOutputs,
                        CheckReason::OutputLost => Ending::DiscardedOutput,
                        CheckReason::SuccessRejected => Ending::StaleSuccessAfterLeaseLoss,
                        CheckReason::LeaseLost => Ending::StoppedAfterLeaseLoss,
                        CheckReason::FailureRejected => Ending::StaleFailure,
                        CheckReason::TimeoutRejected => Ending::StaleTimeout,
                    };
                    self.phase = Phase::Done(ending);
                    Step::Done(ending)
                }
            },
            (Phase::FinishingCancel(on_refusal), Event::Finished(ok)) => {
                let ending = if ok {
                    Ending::Cancelled
                } else {
                    on_refusal
                };
                self.phase = Phase::Done(ending);
                Step::Done(ending)
            },
            (Phase::Progress, Event::ProgressOwned(owned)) => {
                if !owned {
                    self.phase = Phase::CheckingCancel(CheckReason::ProgressLost);
                    Step::CheckCancel
                } else if artifacts == 0 {
                    self.phase = Phase::Succeeding;
                    self.stored = 0;
                    Step::FinishSuccess
                } else {
                    self.phase = Phase::Storing;
                    self.stored = 0;
                    Step::StoreArtifact(0)
                }
            },
            (Phase::Storing, Event::Stored(ok)) => {
                if !ok {
                    self.phase = Phase::CheckingCancel(CheckReason::OutputLost);
                    Step::CheckCancel
                } else if self.stored + 1 >= artifacts {
                    self.stored = self.stored + 1;
                    self.phase = Phase::Succeeding;
                    Step::FinishSuccess
                } else {
                    self.stored = self.stored + 1;
                    Step::StoreArtifact(self.stored)
                }
            },
            (Phase::Succeeding, Event::Finished(ok)) => {
                if ok {
                    self.phase = Phase::Done(Ending::Succeeded);
                    Step::Done(Ending::Succeeded)
                } else {
                    self.phase = Phase::CheckingCancel(CheckReason::SuccessRejected);
                    Step::CheckCancel
                }
            },
            (Phase::Failing, Event::FailureRecorded(status)) => match status {
                Some(s) => {
                    self.phase = Phase::Done(Ending::Failed(s));
                    Step::Done(Ending::Failed(s))
                },
                None => {
                    let reason = match self.outcome {
                        Outcome::TimedOut { .. } => CheckReason::TimeoutRejected,
                        _ => CheckReason::FailureRejected,
                    };
                    self.phase = Phase::CheckingCancel(reason);
                    Step::CheckCancel
                },
            },
            _ => Step::Ignored,
        }
    }
}

// ---------------------------------------------------------------------------
// Laws of the decisions.
// ---------------------------------------------------------------------------

/// A bound on the steps left: it falls with every expected event, and is zero once done.
pub open spec fn remaining_steps(o: Outcome, phase: Phase, stored: nat) -> nat {
    let n = artifact_count(o);
    match phase {
        Phase::Done(_) => 0,
        Phase::FinishingCancel(_) => 1,
        Phase::CheckingCancel(CheckReason::BeforeStore) => n + 6,
        Phase::CheckingCancel(_) => 2,
        Phase::Failing => 3,
        Phase::Succeeding => 3,
        Phase::Storing => if stored <= n {
            (n - stored) as nat + 4
        } else {
            4
        },
        Phase::Progress => n + 5,
        Phase::Begin => n + 7,
    }
}

/// The handling of a claimed job always ends: every expected answer brings it closer to done.
pub proof fn lemma_handling_terminates(f: Finalizer, event: Event)
    requires
        f.inv(),
        expected(f.phase, event),
    ensures
        remaining_steps(
            f.outcome,
            spec_next_phase(f.outcome, f.phase, f.stored as nat, event).0,
            spec_next_phase(f.outcome, f.phase, f.stored as nat, event).1,
        ) < remaining_steps(f.outcome, f.phase, f.stored as nat),
{
}

/// Once the job is known to be cancel-requested, the next step records the cancellation:
/// nothing more is stored and the job is never marked succeeded.
pub proof fn lemma_cancellation_wins(f: Finalizer)
    requires
        f.inv(),
        f.phase is CheckingCancel,
    ensures
        spec_next_phase(f.outcome, f.phase, f.stored as nat, Event::CancelState(true)).0 is FinishingCancel,
{
}

/// The job is asked to be marked succeeded only after processing produced its artifacts, the
/// lease was confirmed, and every artifact was recorded.
pub proof fn lemma_success_only_after_all_outputs(f: Finalizer, event: Event)
    requires
        f.inv(),
        f.phase != Phase::Succeeding,
        spec_next_phase(f.outcome, f.phase, f.stored as nat, event).0 == Phase::Succeeding,
    ensures
        f.outcome is Produced,
        event == Event::ProgressOwned(true) || event == Event::Stored(true),
        spec_next_phase(f.outcome, f.phase, f.stored as nat, event).1 == artifact_count(f.outcome),
{
}

/// A processing failure other than cancellation or lease loss is always recorded first.
pub proof fn lemma_failures_are_recorded(f: Finalizer)
    requires
        f.phase == Phase::Begin,
        f.outcome is Failed || f.outcome is TimedOut,
    ensures
        spec_next_phase(f.outcome, f.phase, f.stored as nat, Event::Start).0 == Phase::Failing,
{
}

/// Whether lease recovery is due at `now_millis`, the last pass having run at
/// `last_recovery_millis`: passes are ten seconds apart.
pub fn recovery_due(last_recovery_millis: u64, now_millis: u64) -> (b: bool)
    ensures
        b == (now_millis >= last_recovery_millis && now_millis - last_recovery_millis >= 10000),
{
    now_millis >= last_recovery_millis && now_millis - last_recovery_millis >= 10000
}

/// Whether the heartbeat task keeps renewing after an answer: it stops once the lease is no
/// longer held, and keeps trying after an error (`None`).
pub fn heartbeat_continues(renewed: Option<bool>) -> (b: bool)
    ensures
        b == (renewed != Some(false)),
{
    match renewed {
        Some(false) => false,
        _ => true,
    }
}

} // verus!

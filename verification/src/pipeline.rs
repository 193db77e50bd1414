//! The steps a worker takes to process a claimed job, before its outcome is handled: it checks
//! for cancellation, reports progress, loads the input, waits out the demo delay and runs the
//! transformation for the job's kind.
//!
//! The steps form a state machine. The driver performs each [`Task`] and feeds the answer back
//! as a [`Signal`]; a cancellation, a lost lease or a failure ends the processing at once.
use vstd::prelude::*;

use crate::domain::JobKind;
use crate::errors::ProcessingError;
use crate::text::owned;

verus! {

/// Where the processing of a job stands.
#[derive(Debug, Clone, Copy, PartialEq, Eq, Structural)]
pub enum Stage {
    Begin,
    CheckBeforeLoad,
    ProgressBeforeLoad,
    Loading,
    CheckAfterLoad,
    ProgressBeforeDelay,
    Pausing,
    CheckAfterDelay,
    ProgressBeforeTransform,
    Transforming,
    ProgressAfterTransform,
    Finished,
}

/// The driver's answer to the last task.
#[derive(Debug)]
pub enum Signal {
    /// Processing starts.
    Start,
    /// Whether cancellation was requested, or why the store could not say.
    CancelChecked(Result<bool, String>),
    /// Whether the attempt still owned the job when its progress was recorded, or why the
    /// store failed.
    ProgressRecorded(Result<bool, String>),
    /// The input was read, or why it could not be.
    InputLoaded(Result<(), String>),
    /// The demo delay has passed.
    Paused,
    /// The transformation produced its artifacts, or failed.
    Transformed(Result<(), ProcessingError>),
}

/// What the driver is asked to do next.
#[derive(Debug)]
pub enum Task {
    /// Ask the store whether cancellation was requested.
    CheckCancel,
    /// Record the stage and progress of the attempt.
    RecordProgress { stage: String, progress: u8 },
    /// Read the input from object storage.
    LoadInput,
    /// Wait for the configured demo delay.
    Pause,
    /// Run the transformation for this kind of job.
    Transform(JobKind),
    /// Stop: the artifacts are ready (`Ok`), or processing failed.
    Finish(Result<(), ProcessingError>),
    /// The answer was not one the current stage waits for; nothing changes.
    Ignored,
}

/// The processing of one job.
#[derive(Debug)]
pub struct Pipeline {
    pub kind: JobKind,
    /// Whether the demo delay is configured (not zero).
    pub demo_delay: bool,
    pub stage: Stage,
}

/// The progress stage reported before the transformation.
pub open spec fn transform_stage(kind: JobKind) -> Seq<char> {
    match kind {
        JobKind::Image => "decoding_image"@,
        JobKind::Pdf => "rendering_pdf"@,
    }
}

/// The progress stage reported after the transformation.
pub open spec fn transformed_stage(kind: JobKind) -> Seq<char> {
    match kind {
        JobKind::Image => "image_encoded"@,
        JobKind::Pdf => "pdf_rendered"@,
    }
}

/// Whether the stage asks the store about cancellation.
pub open spec fn is_check(stage: Stage) -> bool {
    stage == Stage::CheckBeforeLoad || stage == Stage::CheckAfterLoad || stage
        == Stage::CheckAfterDelay
}

/// Whether the stage records progress.
pub open spec fn is_progress(stage: Stage) -> bool {
    stage == Stage::ProgressBeforeLoad || stage == Stage::ProgressBeforeDelay || stage
        == Stage::ProgressBeforeTransform || stage == Stage::ProgressAfterTransform
}

/// Whether `signal` is an answer that `stage` waits for.
pub open spec fn awaited(stage: Stage, signal: Signal) -> bool {
    match signal {
        Signal::Start => stage == Stage::Begin,
        Signal::CancelChecked(_) => is_check(stage),
        Signal::ProgressRecorded(_) => is_progress(stage),
        Signal::InputLoaded(_) => stage == Stage::Loading,
        Signal::Paused => stage == Stage::Pausing,
        Signal::Transformed(_) => stage == Stage::Transforming,
    }
}

/// Whether the answer lets processing go on.
pub open spec fn proceeds(signal: Signal) -> bool {
    match signal {
        Signal::Start => true,
        Signal::CancelChecked(r) => r == Ok::<bool, String>(false),
        Signal::ProgressRecorded(r) => r == Ok::<bool, String>(true),
        Signal::InputLoaded(r) => r is Ok,
        Signal::Paused => true,
        Signal::Transformed(r) => r is Ok,
    }
}

/// The stage that follows an awaited answer that lets processing go on.
pub open spec fn following(stage: Stage, demo_delay: bool) -> Stage {
    match stage {
        Stage::Begin => Stage::CheckBeforeLoad,
        Stage::CheckBeforeLoad => Stage::ProgressBeforeLoad,
        Stage::ProgressBeforeLoad => Stage::Loading,
        Stage::Loading => Stage::CheckAfterLoad,
        Stage::CheckAfterLoad => if demo_delay {
            Stage::ProgressBeforeDelay
        } else {
            Stage::ProgressBeforeTransform
        },
        Stage::ProgressBeforeDelay => Stage::Pausing,
        Stage::Pausing => Stage::CheckAfterDelay,
        Stage::CheckAfterDelay => Stage::ProgressBeforeTransform,
        Stage::ProgressBeforeTransform => Stage::Transforming,
        Stage::Transforming => Stage::ProgressAfterTransform,
        Stage::ProgressAfterTransform => Stage::Finished,
        Stage::Finished => Stage::Finished,
    }
}

/// The stage after `signal`.
pub open spec fn next_stage(stage: Stage, demo_delay: bool, signal: Signal) -> Stage {
    if !awaited(stage, signal) {
        stage
    } else if proceeds(signal) {
        following(stage, demo_delay)
    } else {
        Stage::Finished
    }
}

/// The error that ends processing on an answer that does not let it go on.
pub open spec fn stops_with(signal: Signal, e: ProcessingError) -> bool {
    match signal {
        Signal::CancelChecked(r) => match r {
            Ok(_) => e is Cancelled,
            Err(m) => e matches ProcessingError::Temporary(x) && x@ == m@,
        },
        Signal::ProgressRecorded(r) => match r {
            Ok(_) => e is LeaseLost,
            Err(m) => e matches ProcessingError::Temporary(x) && x@ == m@,
        },
        Signal::InputLoaded(r) => match r {
            Ok(_) => false,
            Err(m) => e matches ProcessingError::Temporary(x) && x@ == m@,
        },
        Signal::Transformed(r) => match r {
            Ok(_) => false,
            Err(f) => e == f,
        },
        _ => false,
    }
}

/// The task asked for on entering `next` from `stage` on `signal`.
pub open spec fn task_for(kind: JobKind, stage: Stage, next: Stage, signal: Signal, t: Task) -> bool {
    if !awaited(stage, signal) {
        t is Ignored
    } else if !proceeds(signal) {
        t matches Task::Finish(Err(e)) && stops_with(signal, e)
    } else {
        match next {
            Stage::CheckBeforeLoad | Stage::CheckAfterLoad | Stage::CheckAfterDelay => t is CheckCancel,
            Stage::ProgressBeforeLoad => t matches Task::RecordProgress { stage: s, progress: p }
                && s@ == "loading_input"@ && p == 12,
            Stage::ProgressBeforeDelay => t matches Task::RecordProgress { stage: s, progress: p }
                && s@ == "demo_delay"@ && p == 18,
            Stage::ProgressBeforeTransform => t matches Task::RecordProgress {
                stage: s,
                progress: p,
            } && s@ == transform_stage(kind) && p == 25,
            Stage::ProgressAfterTransform => t matches Task::RecordProgress {
                stage: s,
                progress: p,
            } && s@ == transformed_stage(kind) && p == 75,
            Stage::Loading => t is LoadInput,
            Stage::Pausing => t is Pause,
            Stage::Transforming => t == Task::Transform(kind),
            Stage::Finished => t == Task::Finish(Ok(())),
            Stage::Begin => t is Ignored,
        }
    }
}

fn progress(stage: &str, value: u8) -> (t: Task)
    ensures
        t matches Task::RecordProgress { stage: s, progress: p } && s@ == stage@ && p == value,
{
    Task::RecordProgress { stage: owned(stage), progress: value }
}

impl Pipeline {
    /// The processing of a job of `kind`, with or without the demo delay.
    pub fn new(kind: JobKind, demo_delay: bool) -> (p: Pipeline)
        ensures
            p.kind == kind,
            p.demo_delay == demo_delay,
            p.stage == Stage::Begin,
    {
        Pipeline { kind, demo_delay, stage: Stage::Begin }
    }

    /// The task on entering `next` after an answer that lets processing go on.
    fn enter(&self, next: Stage) -> (t: Task)
        requires
            next != Stage::Begin,
        ensures
            match next {
                Stage::CheckBeforeLoad | Stage::CheckAfterLoad | Stage::CheckAfterDelay => t is CheckCancel,
                Stage::ProgressBeforeLoad => t matches Task::RecordProgress { stage: s, progress: p }
                    && s@ == "loading_input"@ && p == 12,
                Stage::ProgressBeforeDelay => t matches Task::RecordProgress {
                    stage: s,
                    progress: p,
                } && s@ == "demo_delay"@ && p == 18,
                Stage::ProgressBeforeTransform => t matches Task::RecordProgress {
                    stage: s,
                    progress: p,
                } && s@ == transform_stage(self.kind) && p == 25,
                Stage::ProgressAfterTransform => t matches Task::RecordProgress {
                    stage: s,
                    progress: p,
                } && s@ == transformed_stage(self.kind) && p == 75,
                Stage::Loading => t is LoadInput,
                Stage::Pausing => t is Pause,
                Stage::Transforming => t == Task::Transform(self.kind),
                Stage::Finished => t == Task::Finish(Ok(())),
                Stage::Begin => false,
            },
    {
        match next {
            Stage::CheckBeforeLoad | Stage::CheckAfterLoad | Stage::CheckAfterDelay => Task::CheckCancel,
            Stage::ProgressBeforeLoad => progress("loading_input", 12),
            Stage::ProgressBeforeDelay => progress("demo_delay", 18),
            Stage::ProgressBeforeTransform => match self.kind {
                JobKind::Image => progress("decoding_image", 25),
                JobKind::Pdf => progress("rendering_pdf", 25),
            },
            Stage::ProgressAfterTransform => match self.kind {
                JobKind::Image => progress("image_encoded", 75),
                JobKind::Pdf => progress("pdf_rendered", 75),
            },
            Stage::Loading => Task::LoadInput,
            Stage::Pausing => Task::Pause,
            Stage::Transforming => Task::Transform(self.kind),
            _ => Task::Finish(Ok(())),
        }
    }

    fn following_stage(&self) -> (s: Stage)
        ensures
            s == following(self.stage, self.demo_delay),
    {
        match self.stage {
            Stage::Begin => Stage::CheckBeforeLoad,
            Stage::CheckBeforeLoad => Stage::ProgressBeforeLoad,
            Stage::ProgressBeforeLoad => Stage::Loading,
            Stage::Loading => Stage::CheckAfterLoad,
            Stage::CheckAfterLoad => if self.demo_delay {
                Stage::ProgressBeforeDelay
            } else {
                Stage::ProgressBeforeTransform
            },
            Stage::ProgressBeforeDelay => Stage::Pausing,
            Stage::Pausing => Stage::CheckAfterDelay,
            Stage::CheckAfterDelay => Stage::ProgressBeforeTransform,
            Stage::ProgressBeforeTransform => Stage::Transforming,
            Stage::Transforming => Stage::ProgressAfterTransform,
            Stage::ProgressAfterTransform => Stage::Finished,
            Stage::Finished => Stage::Finished,
        }
    }

    /// Advances on the driver's answer and returns the next task.
    pub fn advance(&mut self, signal: Signal) -> (t: Task)
        ensures
            final(self).kind == old(self).kind,
            final(self).demo_delay == old(self).demo_delay,
            final(self).stage == next_stage(old(self).stage, old(self).demo_delay, signal),
            task_for(old(self).kind, old(self).stage, final(self).stage, signal, t),
    {
        let is_awaited = match &signal {
            Signal::Start => self.stage == Stage::Begin,
            Signal::CancelChecked(_) => self.stage == Stage::CheckBeforeLoad || self.stage
                == Stage::CheckAfterLoad || self.stage == Stage::CheckAfterDelay,
            Signal::ProgressRecorded(_) => self.stage == Stage::ProgressBeforeLoad || self.stage
                == Stage::ProgressBeforeDelay || self.stage == Stage::ProgressBeforeTransform
                || self.stage == Stage::ProgressAfterTransform,
            Signal::InputLoaded(_) => self.stage == Stage::Loading,
            Signal::Paused => self.stage == Stage::Pausing,
            Signal::Transformed(_) => self.stage == Stage::Transforming,
        };
        if !is_awaited {
            return Task::Ignored;
        }
        let failure: Option<ProcessingError> = match signal {
            Signal::Start | Signal::Paused => None,
            Signal::CancelChecked(r) => match r {
                Ok(false) => None,
                Ok(true) => Some(ProcessingError::Cancelled),
                Err(m) => Some(ProcessingError::Temporary(m)),
            },
            Signal::ProgressRecorded(r) => match r {
                Ok(true) => None,
                Ok(false) => Some(ProcessingError::LeaseLost),
                Err(m) => Some(ProcessingError::Temporary(m)),
            },
            Signal::InputLoaded(r) => match r {
                Ok(()) => None,
                Err(m) => Some(ProcessingError::Temporary(m)),
            },
            Signal::Transformed(r) => match r {
                Ok(()) => None,
                Err(e) => Some(e),
            },
        };
        match failure {
            Some(e) => {
                self.stage = Stage::Finished;
                Task::Finish(Err(e))
            },
            None => {
                let next = self.following_stage();
                self.stage = next;
                self.enter(next)
            },
        }
    }
}

// ---------------------------------------------------------------------------
// Laws of the processing steps.
// ---------------------------------------------------------------------------

/// Every awaited answer moves processing forward, so it ends after at most eleven answers.
pub open spec fn stages_left(stage: Stage) -> nat {
    match stage {
        Stage::Begin => 11,
        Stage::CheckBeforeLoad => 10,
        Stage::ProgressBeforeLoad => 9,
        Stage::Loading => 8,
        Stage::CheckAfterLoad => 7,
        Stage::ProgressBeforeDelay => 6,
        Stage::Pausing => 5,
        Stage::CheckAfterDelay => 4,
        Stage::ProgressBeforeTransform => 3,
        Stage::Transforming => 2,
        Stage::ProgressAfterTransform => 1,
        Stage::Finished => 0,
    }
}

/// Processing always ends: every awaited answer leaves fewer stages to go.
pub proof fn lemma_processing_terminates(stage: Stage, demo_delay: bool, signal: Signal)
    requires
        awaited(stage, signal),
    ensures
        stages_left(next_stage(stage, demo_delay, signal)) < stages_left(stage),
{
}

/// A cancellation seen at any check stops processing with `Cancelled`, before anything else
/// is done.
pub proof fn lemma_cancellation_stops_processing(
    kind: JobKind,
    stage: Stage,
    demo_delay: bool,
    t: Task,
)
    requires
        is_check(stage),
        task_for(kind, stage, next_stage(stage, demo_delay, Signal::CancelChecked(Ok(true))), Signal::CancelChecked(Ok(true)), t),
    ensures
        next_stage(stage, demo_delay, Signal::CancelChecked(Ok(true))) == Stage::Finished,
        t == Task::Finish(Err(ProcessingError::Cancelled)),
{
}

/// The transformation runs only after cancellation was checked once the input was loaded (and
/// again after the demo delay), and the attempt was confirmed to own the job.
pub proof fn lemma_transform_after_checks(stage: Stage, demo_delay: bool, signal: Signal)
    requires
        next_stage(stage, demo_delay, signal) == Stage::Transforming,
        stage != Stage::Transforming,
    ensures
        stage == Stage::ProgressBeforeTransform,
        signal == Signal::ProgressRecorded(Ok(true)),
{
}

/// Processing succeeds only once the final progress report was accepted.
pub proof fn lemma_success_only_at_the_end(kind: JobKind, stage: Stage, demo_delay: bool, signal: Signal, t: Task)
    requires
        task_for(kind, stage, next_stage(stage, demo_delay, signal), signal, t),
        t == Task::Finish(Ok(())),
    ensures
        stage == Stage::ProgressAfterTransform,
        signal == Signal::ProgressRecorded(Ok(true)),
{
}

} // verus!

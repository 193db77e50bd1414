//! Job change notifications: the payload a change is announced with, and what a client's event
//! stream does with each notice.
use vstd::prelude::*;

use crate::domain::{spec_is_terminal, JobStatus};
use crate::format::{uuid_string, uuid_text};

verus! {

/// The UUID that the `uuid` crate reads from `s`, as a 128-bit number, if `s` is one.
pub uninterp spec fn parsed_uuid(s: Seq<char>) -> Option<u128>;

/// `uuid::Uuid::parse_str`, then `as_u128`. As the crate documents, the hyphenated
/// lowercase form that `Uuid` displays is read back as the same UUID.
#[verifier::external_body]
fn parse_uuid(s: &str) -> (r: Option<u128>)
    ensures
        r == parsed_uuid(s@),
        forall|x: u128| #[trigger] uuid_text(x) == s@ ==> r == Some(x),
{
    match uuid::Uuid::parse_str(s) {
        Ok(id) => Some(id.as_u128()),
        Err(_) => None,
    }
}

/// The payload that announces a change of job `job_id`: its UUID in hyphenated form.
pub fn notification_payload(job_id: u128) -> (p: String)
    ensures
        p@ == uuid_text(job_id),
{
    uuid_string(job_id)
}

/// The job a notification payload announces, if it is a UUID. A payload made by
/// [`notification_payload`] always announces its job.
pub fn notification_job_id(payload: &str) -> (r: Option<u128>)
    ensures
        r == parsed_uuid(payload@),
        forall|x: u128| #[trigger] uuid_text(x) == payload@ ==> r == Some(x),
{
    parse_uuid(payload)
}

/// A notice received by a client's event stream.
#[derive(Debug, Clone, Copy, PartialEq, Eq, Structural)]
pub enum Notice {
    /// Job `id` changed.
    Changed(u128),
    /// Notices were missed.
    Lagged,
    /// No more notices will come.
    Closed,
}

/// What the stream does with a notice.
#[derive(Debug, Clone, Copy, PartialEq, Eq, Structural)]
pub enum Reaction {
    /// Reload the job; `lagged` when notices were missed.
    Reload { lagged: bool },
    /// The notice is about another job.
    Skip,
    /// End the stream.
    Stop,
}

/// The reaction of the stream watching job `watched` to `notice`.
pub fn react(watched: u128, notice: Notice) -> (r: Reaction)
    ensures
        r == match notice {
            Notice::Changed(id) => if id == watched {
                Reaction::Reload { lagged: false }
            } else {
                Reaction::Skip
            },
            Notice::Lagged => Reaction::Reload { lagged: true },
            Notice::Closed => Reaction::Stop,
        },
{
    match notice {
        Notice::Changed(id) => if id == watched {
            Reaction::Reload { lagged: false }
        } else {
            Reaction::Skip
        },
        Notice::Lagged => Reaction::Reload { lagged: true },
        Notice::Closed => Reaction::Stop,
    }
}

/// What the stream sends and whether it then ends.
#[derive(Debug, Clone, Copy)]
pub struct StreamStep {
    /// The event sent with the job's detail: `job.snapshot` or `job.updated`.
    pub event: Option<&'static str>,
    pub stop: bool,
}

pub open spec fn event_name(e: Option<&'static str>) -> Option<Seq<char>> {
    match e {
        Some(s) => Some(s@),
        None => None,
    }
}

/// The first step of a stream: the job's snapshot, and the end if it has already finished.
pub fn opening_step(status: JobStatus) -> (s: StreamStep)
    ensures
        event_name(s.event) == Some("job.snapshot"@),
        s.stop == spec_is_terminal(status),
{
    StreamStep { event: Some("job.snapshot"), stop: status.is_terminal() }
}

/// The step after reloading the job (`lagged` when notices were missed): the reload found the
/// job with `status` (`Ok(Some(..))`), found it gone (`Ok(None)`) or failed (`Err`). A job that
/// is gone ends the stream only when it was announced as changed; a failed reload is skipped.
pub fn reload_step(lagged: bool, reloaded: Result<Option<JobStatus>, ()>) -> (s: StreamStep)
    ensures
        match reloaded {
            Ok(Some(status)) => {
                &&& event_name(s.event) == Some(
                    if lagged {
                        "job.snapshot"@
                    } else {
                        "job.updated"@
                    },
                )
                &&& s.stop == spec_is_terminal(status)
            },
            Ok(None) => s.event is None && s.stop == !lagged,
            Err(()) => s.event is None && !s.stop,
        },
{
    match reloaded {
        Ok(Some(status)) => StreamStep {
            event: Some(
                if lagged {
                    "job.snapshot"
                } else {
                    "job.updated"
                },
            ),
            stop: status.is_terminal(),
        },
        Ok(None) => StreamStep { event: None, stop: !lagged },
        Err(()) => StreamStep { event: None, stop: false },
    }
}

} // verus!

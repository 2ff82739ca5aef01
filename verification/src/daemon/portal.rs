//! The portal handlers: what a request is turned into, and what a session's
//! end means for the caller.

pub mod file_chooser;
pub mod screenshot;

use crate::daemon::dbus::screenshot::ScreenshotError;
use crate::daemon::session::SessionResult;
use crate::ipc::context::PortalContext;
use crate::portal::{validated, Probes};
use crate::text::{from_chars, push_str, to_chars, views};
use crate::types::file_chooser::FileChooserError;
use vstd::prelude::*;
use vstd::std_specs::convert::FromSpecImpl;

verus! {

/// Error from running a session.
#[derive(Debug, Clone)]
pub enum SessionError {
    Cancelled,
    Other(String),
}

impl From<SessionError> for FileChooserError {
    fn from(e: SessionError) -> (r: FileChooserError) {
        match e {
            SessionError::Cancelled => FileChooserError::Cancelled,
            SessionError::Other(msg) => FileChooserError::Other(msg),
        }
    }
}

impl FromSpecImpl<SessionError> for FileChooserError {
    open spec fn obeys_from_spec() -> bool {
        true
    }

    open spec fn from_spec(e: SessionError) -> FileChooserError {
        match e {
            SessionError::Cancelled => FileChooserError::Cancelled,
            SessionError::Other(msg) => FileChooserError::Other(msg),
        }
    }
}

impl From<SessionError> for ScreenshotError {
    fn from(e: SessionError) -> (r: ScreenshotError) {
        match e {
            SessionError::Cancelled => ScreenshotError::Cancelled,
            SessionError::Other(msg) => ScreenshotError::Other(msg),
        }
    }
}

impl FromSpecImpl<SessionError> for ScreenshotError {
    open spec fn obeys_from_spec() -> bool {
        true
    }

    open spec fn from_spec(e: SessionError) -> ScreenshotError {
        match e {
            SessionError::Cancelled => ScreenshotError::Cancelled,
            SessionError::Other(msg) => ScreenshotError::Other(msg),
        }
    }
}

/// Validate and transform a submission.
pub fn validate(
    portal: &str,
    operation: &str,
    entries: &[String],
    options: &PortalContext,
    probes: &Probes,
) -> (r: Result<Vec<String>, String>)
    ensures
        match validated(portal@, operation@, views(entries@), *options, *probes) {
            Ok(out) => r matches Ok(v) && views(v@) == out,
            Err(msg) => r matches Err(e) && e@ == msg,
        },
{
    crate::portal::validate(portal, operation, entries, options, probes)
}

/// An error with a message that starts with `head`.
fn other_error(head: &str, detail: &str) -> (e: SessionError)
    ensures
        e matches SessionError::Other(m) && m@ == head@ + detail@,
{
    let mut msg = to_chars(head);
    push_str(&mut msg, detail);
    SessionError::Other(from_chars(msg.as_slice()))
}

/// Whether `r` is what validated entries are worth to the caller: the
/// entries, or an error whose message starts with `head`.
pub open spec fn pipeline_result(
    checked: Result<Seq<Seq<char>>, Seq<char>>,
    head: Seq<char>,
    r: Result<Vec<String>, SessionError>,
) -> bool {
    match checked {
        Ok(out) => r matches Ok(v) && views(v@) == out,
        Err(msg) => r matches Err(SessionError::Other(m)) && m@ == head + msg,
    }
}

/// What a queued submission is worth to a portal request that finds it: a
/// cancellation if it holds no entry, else its entries after validation.
pub fn queued_submission_result(
    portal: &str,
    operation: &str,
    entries: &[String],
    options: &PortalContext,
    probes: &Probes,
) -> (r: Result<Vec<String>, SessionError>)
    ensures
        entries@.len() == 0 ==> r matches Err(SessionError::Cancelled),
        entries@.len() > 0 ==> pipeline_result(
            validated(portal@, operation@, views(entries@), *options, *probes),
            "queued submission invalid: "@,
            r,
        ),
{
    if entries.len() == 0 {
        return Err(SessionError::Cancelled);
    }
    match validate(portal, operation, entries, options, probes) {
        Ok(v) => Ok(v),
        Err(e) => Err(other_error("queued submission invalid: ", e.as_str())),
    }
}

/// What the end of a session is worth to the portal request that started
/// it: a failure of the session is an error, a cancellation a cancellation,
/// and entries are what the validator makes of them.
pub fn run_session(
    portal: &str,
    operation: &str,
    result: Result<SessionResult, String>,
    options: &PortalContext,
    probes: &Probes,
) -> (r: Result<Vec<String>, SessionError>)
    ensures
        match result {
            Err(e) => r matches Err(SessionError::Other(m)) && m@ == "session failed: "@ + e@,
            Ok(SessionResult::Cancelled) => r matches Err(SessionError::Cancelled),
            Ok(SessionResult::Success { entries }) => pipeline_result(
                validated(portal@, operation@, views(entries@), *options, *probes),
                "submission invalid: "@,
                r,
            ),
        },
{
    match result {
        Err(e) => Err(other_error("session failed: ", e.as_str())),
        Ok(SessionResult::Cancelled) => Err(SessionError::Cancelled),
        Ok(SessionResult::Success { entries }) => {
            match validate(portal, operation, entries.as_slice(), options, probes) {
                Ok(v) => Ok(v),
                Err(e) => Err(other_error("submission invalid: ", e.as_str())),
            }
        },
    }
}

/// The error for a session that could not be created.
pub fn create_failed(detail: &str) -> (e: SessionError)
    ensures
        e matches SessionError::Other(m) && m@ == "failed to create session: "@ + detail@,
{
    other_error("failed to create session: ", detail)
}

/// The error for a terminal that could not be started.
pub fn spawn_failed(detail: &str) -> (e: SessionError)
    ensures
        e matches SessionError::Other(m) && m@ == "failed to spawn: "@ + detail@,
{
    other_error("failed to spawn: ", detail)
}

} // verus!

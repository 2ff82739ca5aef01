//! Unified IPC protocol with extensible request/response types.
//!
//! The session socket speaks `SessionRequest` / `SessionResponse`, the daemon
//! socket `DaemonRequest` / `DaemonResponse`. The base variants are the same
//! for both, so that a session's answer can be handed on as the daemon's.

use crate::ipc::file_chooser::SessionOptions;
use crate::ipc::queue::{QueuedCommand, Submission};
use crate::portal_type::PortalType;
use vstd::prelude::*;
use vstd::std_specs::convert::FromSpecImpl;

verus! {

/// An extension that adds nothing. Its field is private and nothing makes a
/// value of it, so `Extended` of it never occurs.
#[derive(Debug, Clone)]
pub struct NoExtension {
    never: bool,
}

/// Request with extensible variants.
#[derive(Debug, Clone)]
pub enum Request<Ext> {
    /// Add items to selection (URIs/paths).
    Select(Vec<String>),
    /// Remove items from selection.
    Deselect(Vec<String>),
    /// Clear all selection.
    Clear,
    /// Submit/confirm and close session.
    Submit,
    /// Cancel and close session.
    Cancel,
    /// Get current session options.
    GetOptions,
    /// Get current selection.
    GetSelection,
    /// Put the selection back to what the session started with.
    Reset,
    /// Extended commands.
    Extended(Ext),
}

/// Response with extensible variants.
#[derive(Debug, Clone)]
pub enum Response<Ext> {
    /// Operation completed successfully.
    Okay,
    /// Current selection.
    Selection(Vec<String>),
    /// Session options.
    Options(SessionOptions),
    /// Error occurred.
    Error(String),
    /// Extended responses.
    Extended(Ext),
}

/// Daemon-specific request extensions.
#[derive(Debug, Clone)]
pub enum DaemonExtension {
    /// List all active sessions.
    ListSessions,
    /// Get info about a specific session.
    GetSession(String),
    /// Add command to pending queue.
    QueuePush(QueuedCommand),
    /// Bundle pending into submission.
    QueueSubmit {
        /// Target portal type (None = any).
        portal: Option<PortalType>,
    },
    /// Clear pending commands.
    QueueClearPending,
    /// Clear all (pending + submissions).
    QueueClearAll,
    /// Get queue status.
    QueueStatus,
}

/// Daemon-specific response extensions.
#[derive(Debug, Clone)]
pub enum DaemonResponseExtension {
    /// List of active sessions.
    Sessions(Vec<SessionInfo>),
    /// Single session info.
    Session(SessionInfo),
    /// Queue status.
    QueueStatus(QueueStatusInfo),
}

/// Information about a session.
#[derive(Debug, Clone)]
pub struct SessionInfo {
    /// Unique session identifier.
    pub id: String,
    /// Portal type.
    pub portal: PortalType,
    /// Session title (from portal options).
    pub title: Option<String>,
    /// Unix timestamp when session was created.
    pub created: u64,
    /// Path to session socket (for direct CLI connection).
    pub socket_path: String,
}

/// Queue status information.
#[derive(Debug, Clone)]
pub struct QueueStatusInfo {
    /// Number of pending commands.
    pub pending_count: usize,
    /// Pending commands.
    pub pending: Vec<QueuedCommand>,
    /// Number of submissions waiting.
    pub submissions_count: usize,
    /// Submissions waiting.
    pub submissions: Vec<Submission>,
}

/// Session socket request type (no extensions).
pub type SessionRequest = Request<NoExtension>;

/// Session socket response type (no extensions).
pub type SessionResponse = Response<NoExtension>;

/// Daemon socket request type (with extensions).
pub type DaemonRequest = Request<DaemonExtension>;

/// Daemon socket response type (with extensions).
pub type DaemonResponse = Response<DaemonResponseExtension>;

/// The daemon request that says what a session request says.
pub open spec fn lifted_request(req: Request<NoExtension>) -> Request<DaemonExtension> {
    match req {
        Request::Select(v) => Request::Select(v),
        Request::Deselect(v) => Request::Deselect(v),
        Request::Clear => Request::Clear,
        Request::Submit => Request::Submit,
        Request::Cancel => Request::Cancel,
        Request::GetOptions => Request::GetOptions,
        Request::GetSelection => Request::GetSelection,
        Request::Reset => Request::Reset,
        Request::Extended(_) => Request::Clear,
    }
}

/// The daemon response that says what a session response says.
pub open spec fn lifted_response(resp: Response<NoExtension>) -> Response<DaemonResponseExtension> {
    match resp {
        Response::Okay => Response::Okay,
        Response::Selection(v) => Response::Selection(v),
        Response::Options(o) => Response::Options(o),
        Response::Error(e) => Response::Error(e),
        Response::Extended(_) => Response::Okay,
    }
}

impl From<Request<NoExtension>> for Request<DaemonExtension> {
    fn from(req: Request<NoExtension>) -> (r: Request<DaemonExtension>) {
        match req {
            Request::Select(v) => Request::Select(v),
            Request::Deselect(v) => Request::Deselect(v),
            Request::Clear => Request::Clear,
            Request::Submit => Request::Submit,
            Request::Cancel => Request::Cancel,
            Request::GetOptions => Request::GetOptions,
            Request::GetSelection => Request::GetSelection,
            Request::Reset => Request::Reset,
            // No value of `NoExtension` exists, so this arm is never taken.
            Request::Extended(_) => Request::Clear,
        }
    }
}

impl FromSpecImpl<Request<NoExtension>> for Request<DaemonExtension> {
    open spec fn obeys_from_spec() -> bool {
        true
    }

    open spec fn from_spec(req: Request<NoExtension>) -> Request<DaemonExtension> {
        lifted_request(req)
    }
}

impl From<Response<NoExtension>> for Response<DaemonResponseExtension> {
    fn from(resp: Response<NoExtension>) -> (r: Response<DaemonResponseExtension>) {
        match resp {
            Response::Okay => Response::Okay,
            Response::Selection(v) => Response::Selection(v),
            Response::Options(o) => Response::Options(o),
            Response::Error(e) => Response::Error(e),
            // No value of `NoExtension` exists, so this arm is never taken.
            Response::Extended(_) => Response::Okay,
        }
    }
}

impl FromSpecImpl<Response<NoExtension>> for Response<DaemonResponseExtension> {
    open spec fn obeys_from_spec() -> bool {
        true
    }

    open spec fn from_spec(resp: Response<NoExtension>) -> Response<DaemonResponseExtension> {
        lifted_response(resp)
    }
}

} // verus!

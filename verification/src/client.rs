//! The client side of the control socket: which request a command sends, and
//! what the answer means.

use crate::codec::IpcError;
use crate::paths::{base_path, daemon_socket_path};
use crate::portal::file_chooser::join_path;
use crate::protocol::{Request, RequestView, Response, SessionInfo};
use crate::text::{from_chars, push_str, to_chars};
use crate::types::file_chooser::opt_str;
use vstd::prelude::*;

verus! {

/// Errors from the daemon client.
#[derive(Debug, Clone)]
pub enum ClientError {
    /// The socket could not be reached.
    Connection(String),
    /// The exchange failed.
    Codec(IpcError),
    /// The daemon answered with an error.
    Server(String),
    /// The daemon answered what nobody asked.
    UnexpectedResponse,
}

impl ClientError {
    /// The message shown for the error.
    pub open spec fn text(self) -> Seq<char> {
        match self {
            ClientError::Connection(m) => "connection failed: "@ + m@,
            ClientError::Codec(e) => "IPC error: "@ + e.text(),
            ClientError::Server(m) => m@,
            ClientError::UnexpectedResponse => "unexpected response from daemon"@,
        }
    }

    /// The message shown for the error.
    pub fn to_string(&self) -> (out: String)
        ensures
            out@ == self.text(),
    {
        let mut out: Vec<char> = Vec::new();
        match self {
            ClientError::Connection(m) => {
                push_str(&mut out, "connection failed: ");
                push_str(&mut out, m.as_str());
            },
            ClientError::Codec(e) => {
                push_str(&mut out, "IPC error: ");
                let inner = e.to_string();
                push_str(&mut out, inner.as_str());
            },
            ClientError::Server(m) => {
                push_str(&mut out, m.as_str());
            },
            ClientError::UnexpectedResponse => {
                push_str(&mut out, "unexpected response from daemon");
            },
        }
        from_chars(out.as_slice())
    }
}

/// Client for communicating with the daemon control socket.
#[derive(Debug, Clone)]
pub struct DaemonClient {
    pub socket_path: String,
}

/// An owned copy of an optional string.
fn owned(id: Option<&str>) -> (out: Option<String>)
    ensures
        crate::protocol::opt_view(out) == opt_str(id),
{
    match id {
        Some(s) => Some(s.to_owned()),
        None => None,
    }
}

impl DaemonClient {
    /// Create a client using the default socket path of the user.
    pub fn new(uid: u32) -> (c: DaemonClient)
        ensures
            c.socket_path@ == join_path(base_path(uid), "daemon.sock"@),
    {
        DaemonClient { socket_path: daemon_socket_path(uid) }
    }

    /// Submit a session or pending entries: the request to send.
    pub fn submit(&self, session_id: Option<&str>) -> (req: Request)
        ensures
            req@ == (RequestView::Submit { session_id: opt_str(session_id) }),
    {
        Request::Submit { session_id: owned(session_id) }
    }

    /// Cancel a session or clear pending entries: the request to send.
    pub fn cancel(&self, session_id: Option<&str>) -> (req: Request)
        ensures
            req@ == (RequestView::Cancel { session_id: opt_str(session_id) }),
    {
        Request::Cancel { session_id: owned(session_id) }
    }

    /// Validate submission against portal constraints: the request to send.
    pub fn verify(&self, session_id: Option<&str>) -> (req: Request)
        ensures
            req@ == (RequestView::Verify { session_id: opt_str(session_id) }),
    {
        Request::Verify { session_id: owned(session_id) }
    }

    /// Reset submission to initial state: the request to send.
    pub fn reset(&self, session_id: Option<&str>) -> (req: Request)
        ensures
            req@ == (RequestView::Reset { session_id: opt_str(session_id) }),
    {
        Request::Reset { session_id: owned(session_id) }
    }

    /// List all active sessions: the request to send.
    pub fn list(&self) -> (req: Request)
        ensures
            req@ == RequestView::List,
    {
        Request::List
    }

    /// What the answer to submit, cancel, verify or reset means: `ok` is
    /// success, an error of the daemon is that error, and a list of sessions
    /// is not an answer.
    pub fn finish(reply: Result<Response, ClientError>) -> (r: Result<(), ClientError>)
        ensures
            match reply {
                Ok(Response::Okay) => r is Ok,
                Ok(Response::Error(e)) => r == Err::<(), ClientError>(ClientError::Server(e)),
                Ok(Response::Sessions(_)) => r == Err::<(), ClientError>(
                    ClientError::UnexpectedResponse,
                ),
                Err(e) => r == Err::<(), ClientError>(e),
            },
    {
        match reply {
            Ok(Response::Okay) => Ok(()),
            Ok(Response::Error(e)) => Err(ClientError::Server(e)),
            Ok(Response::Sessions(_)) => Err(ClientError::UnexpectedResponse),
            Err(e) => Err(e),
        }
    }

    /// What the answer to list means: the sessions; a bare `ok` is the empty
    /// list.
    pub fn finish_list(reply: Result<Response, ClientError>) -> (r: Result<
        Vec<SessionInfo>,
        ClientError,
    >)
        ensures
            match reply {
                Ok(Response::Sessions(s)) => r == Ok::<Vec<SessionInfo>, ClientError>(s),
                Ok(Response::Okay) => r matches Ok(v) && v@.len() == 0,
                Ok(Response::Error(e)) => r == Err::<Vec<SessionInfo>, ClientError>(
                    ClientError::Server(e),
                ),
                Err(e) => r == Err::<Vec<SessionInfo>, ClientError>(e),
            },
    {
        match reply {
            Ok(Response::Sessions(sessions)) => Ok(sessions),
            Ok(Response::Okay) => Ok(Vec::new()),
            Ok(Response::Error(e)) => Err(ClientError::Server(e)),
            Err(e) => Err(e),
        }
    }

    /// The error for a socket that could not be reached. Where nobody
    /// listens (`nobody_listens`: the connection was refused, or the socket
    /// is not there) the message asks whether the daemon runs; else it is
    /// the system's own.
    pub fn connection_error(&self, nobody_listens: bool, detail: &str) -> (e: ClientError)
        ensures
            e matches ClientError::Connection(m) && m@ == if nobody_listens {
                "cannot connect to daemon socket ("@ + self.socket_path@
                    + "): is porttyd running?"@
            } else {
                detail@
            },
    {
        if nobody_listens {
            let mut msg = to_chars("cannot connect to daemon socket (");
            push_str(&mut msg, self.socket_path.as_str());
            push_str(&mut msg, "): is porttyd running?");
            ClientError::Connection(from_chars(msg.as_slice()))
        } else {
            ClientError::Connection(detail.to_owned())
        }
    }
}

} // verus!

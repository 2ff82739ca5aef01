//! The daemon's control side: the registry of active sessions, and what each
//! control request leads to.

use crate::ipc::protocol::{
    DaemonExtension, DaemonResponseExtension, QueueStatusInfo, Request as IpcRequest,
    Response as IpcResponse,
};
use crate::ipc::protocol::{NoExtension, SessionInfo as IpcSessionInfo};
use crate::ipc::queue::{
    command_views, copy_command, copy_commands, serves, CommandView, QueuedCommand, Submission,
    SubmissionQueue,
};
use crate::portal::file_chooser::{join, join_path};
use crate::ipc::context::PortalContext;
use crate::portal::{copy_strings, validate, validated, Probes};
use crate::portal_type::PortalType;
use crate::protocol::{opt_view, Request, Response, SessionInfo, SessionInfoView};
use crate::text::{chars_lt, from_chars, lex_lt, push_str, str_eq, to_chars, views};
use vstd::prelude::*;

verus! {

/// Error type for daemon socket operations.
#[derive(Debug, Clone)]
pub enum DaemonError {
    /// IPC protocol error.
    Ipc(String),
    /// Failed to connect to session socket.
    SessionConnect(String),
    /// Session returned an error response.
    SessionError(String),
    /// Unexpected response from session.
    UnexpectedResponse,
}

impl DaemonError {
    /// The message shown for the error.
    pub open spec fn text(self) -> Seq<char> {
        match self {
            DaemonError::Ipc(e) => "IPC error: "@ + e@,
            DaemonError::SessionConnect(e) => "session connection failed: "@ + e@,
            DaemonError::SessionError(e) => "session error: "@ + e@,
            DaemonError::UnexpectedResponse => "unexpected response from session"@,
        }
    }

    /// The message shown for the error.
    pub fn to_string(&self) -> (out: String)
        ensures
            out@ == self.text(),
    {
        let mut out: Vec<char> = Vec::new();
        match self {
            DaemonError::Ipc(e) => {
                push_str(&mut out, "IPC error: ");
                push_str(&mut out, e.as_str());
            },
            DaemonError::SessionConnect(e) => {
                push_str(&mut out, "session connection failed: ");
                push_str(&mut out, e.as_str());
            },
            DaemonError::SessionError(e) => {
                push_str(&mut out, "session error: ");
                push_str(&mut out, e.as_str());
            },
            DaemonError::UnexpectedResponse => {
                push_str(&mut out, "unexpected response from session");
            },
        }
        from_chars(out.as_slice())
    }
}

/// Metadata about a registered session.
///
/// Stored in the [`SessionRegistry`] for session lookup and management.
#[derive(Debug, Clone)]
pub struct RegisteredSession {
    /// Unique session identifier.
    pub id: String,
    /// Type of portal.
    pub portal: PortalType,
    /// Operation name (e.g. "open-file").
    pub operation: String,
    /// Human-readable title from portal request.
    pub title: Option<String>,
    /// Unix timestamp when session was created.
    pub created: u64,
    /// Path to the session's workspace directory.
    pub dir: String,
    /// The entries the session was born with.
    pub initial_entries: Vec<String>,
}

impl RegisteredSession {
    /// What the control protocol tells about the session.
    pub open spec fn info(self) -> SessionInfoView {
        SessionInfoView {
            id: self.id@,
            portal: self.portal.name(),
            operation: self.operation@,
            title: opt_view(self.title),
            created: self.created,
            dir: self.dir@,
        }
    }

    /// What the control protocol tells about the session.
    pub fn to_info(&self) -> (out: SessionInfo)
        ensures
            out@ == self.info(),
    {
        SessionInfo {
            id: self.id.clone(),
            portal: self.portal.to_string(),
            operation: self.operation.clone(),
            title: match &self.title {
                Some(t) => Some(t.clone()),
                None => None,
            },
            created: self.created,
            dir: self.dir.clone(),
        }
    }

    /// Whether the session was created before `other`; of two created in
    /// the same second, the one whose identifier comes first.
    pub open spec fn precedes(self, other: RegisteredSession) -> bool {
        self.created < other.created || (self.created == other.created && lex_lt(
            self.id@,
            other.id@,
        ))
    }
}

/// Whether no two records have the same identifier.
pub open spec fn ids_unique(s: Seq<RegisteredSession>) -> bool {
    forall|i: int, j: int| 0 <= i < j < s.len() ==> (#[trigger] s[i]).id@ != (#[trigger] s[j]).id@
}

/// The position of the record with the identifier `id`, or the number of
/// records if there is none.
pub open spec fn position(s: Seq<RegisteredSession>, id: Seq<char>) -> int
    decreases s.len(),
{
    if s.len() == 0 {
        0
    } else if s[0].id@ == id {
        0
    } else {
        1 + position(s.drop_first(), id)
    }
}

/// `position` is the first place that holds `id`, or the length.
pub proof fn lemma_position(s: Seq<RegisteredSession>, id: Seq<char>)
    ensures
        0 <= position(s, id) <= s.len(),
        forall|j: int| 0 <= j < position(s, id) ==> (#[trigger] s[j]).id@ != id,
        position(s, id) < s.len() ==> s[position(s, id)].id@ == id,
    decreases s.len(),
{
    if s.len() > 0 && s[0].id@ != id {
        lemma_position(s.drop_first(), id);
        assert forall|j: int| 0 <= j < position(s, id) implies (#[trigger] s[j]).id@ != id by {
            if j > 0 {
                assert(s[j] == s.drop_first()[j - 1]);
            }
        }
    }
}

/// A place that is first to hold `id` (or the length, if none does) is
/// `position`.
pub proof fn lemma_position_is(s: Seq<RegisteredSession>, id: Seq<char>, k: int)
    requires
        0 <= k <= s.len(),
        forall|j: int| 0 <= j < k ==> (#[trigger] s[j]).id@ != id,
        k < s.len() ==> s[k].id@ == id,
    ensures
        position(s, id) == k,
{
    lemma_position(s, id);
    let p = position(s, id);
    if p < k {
        assert(s[p].id@ == id);
    } else if k < p {
        assert(s[k].id@ == id);
    }
}

/// The position of the session that was created first; of those created in
/// the same second, the one whose identifier comes first.
pub open spec fn earliest(s: Seq<RegisteredSession>) -> int
    decreases s.len(),
{
    if s.len() <= 1 {
        0
    } else {
        let k = earliest(s.drop_last());
        if s.last().precedes(s[k]) {
            s.len() - 1
        } else {
            k
        }
    }
}

/// The earliest session is one of the sessions, and none precedes it.
pub proof fn law_earliest_is_first(s: Seq<RegisteredSession>, j: int)
    requires
        0 <= j < s.len(),
    ensures
        0 <= earliest(s) < s.len(),
        !s[j].precedes(s[earliest(s)]),
    decreases s.len(),
{
    if s.len() > 1 {
        let t = s.drop_last();
        let k = earliest(t);
        law_earliest_is_first(t, 0);
        assert(t[k] == s[k]);
        if j < s.len() - 1 {
            law_earliest_is_first(t, j);
            assert(t[j] == s[j]);
            if s.last().precedes(s[k]) {
                lemma_precedes_chain(s.last(), s[k], s[j]);
            }
        } else {
            lemma_precedes_irreflexive(s.last());
        }
    } else {
        lemma_precedes_irreflexive(s[0]);
    }
}

/// No text comes before itself.
pub proof fn lemma_lex_irreflexive(a: Seq<char>)
    ensures
        !lex_lt(a, a),
    decreases a.len(),
{
    if a.len() > 0 {
        lemma_lex_irreflexive(a.drop_first());
    }
}

/// If `a` comes before `b` and `c` does not come before `b`... then `c` does
/// not come before `a`.
pub proof fn lemma_lex_chain(a: Seq<char>, b: Seq<char>, c: Seq<char>)
    requires
        lex_lt(a, b),
        !lex_lt(c, b),
    ensures
        !lex_lt(c, a),
    decreases a.len(),
{
    if a.len() > 0 && b.len() > 0 && c.len() > 0 {
        if a[0] == b[0] && c[0] == b[0] {
            lemma_lex_chain(a.drop_first(), b.drop_first(), c.drop_first());
        }
    }
}

/// No session precedes itself.
pub proof fn lemma_precedes_irreflexive(a: RegisteredSession)
    ensures
        !a.precedes(a),
{
    lemma_lex_irreflexive(a.id@);
}

/// If `a` precedes `b` and `c` does not precede `b`, then `c` does not
/// precede `a`.
pub proof fn lemma_precedes_chain(a: RegisteredSession, b: RegisteredSession, c: RegisteredSession)
    requires
        a.precedes(b),
        !c.precedes(b),
    ensures
        !c.precedes(a),
{
    if a.created == b.created && c.created == b.created {
        lemma_lex_chain(a.id@, b.id@, c.id@);
    }
}

/// Registry of active portal sessions.
///
/// Holds the record of every session that runs, in the order in which they
/// were registered. Used by the daemon to route control requests to the right
/// session and to list the sessions. No two records have the same identifier.
#[derive(Debug)]
pub struct SessionRegistry {
    sessions: Vec<RegisteredSession>,
}

impl View for SessionRegistry {
    type V = Seq<RegisteredSession>;

    closed spec fn view(&self) -> Seq<RegisteredSession> {
        self.sessions@
    }
}

impl SessionRegistry {
    #[verifier::type_invariant]
    spec fn unique(self) -> bool {
        ids_unique(self.sessions@)
    }

    /// A registry without sessions.
    pub fn new() -> (r: SessionRegistry)
        ensures
            r@.len() == 0,
    {
        SessionRegistry { sessions: Vec::new() }
    }

    /// The place of the record with the identifier `id`.
    fn index_of(&self, id: &str) -> (k: usize)
        ensures
            k == position(self@, id@),
            k <= self@.len(),
    {
        let mut i: usize = 0;
        while i < self.sessions.len()
            invariant
                i <= self.sessions.len(),
                forall|j: int| 0 <= j < i ==> (#[trigger] self.sessions@[j]).id@ != id@,
            decreases self.sessions.len() - i,
        {
            if str_eq(self.sessions[i].id.as_str(), id) {
                proof {
                    lemma_position_is(self.sessions@, id@, i as int);
                }
                return i;
            }
            i = i + 1;
        }
        proof {
            lemma_position_is(self.sessions@, id@, i as int);
        }
        i
    }

    /// Adds a record; a record with the same identifier is replaced.
    pub fn register(&mut self, session: RegisteredSession)
        ensures
            ids_unique(final(self)@),
            position(old(self)@, session.id@) < old(self)@.len() ==> final(self)@ == old(
                self,
            )@.update(position(old(self)@, session.id@), session),
            position(old(self)@, session.id@) >= old(self)@.len() ==> final(self)@ == old(
                self,
            )@.push(session),
    {
        proof {
            use_type_invariant(&*self);
            lemma_position(self.sessions@, session.id@);
        }
        let k = self.index_of(session.id.as_str());
        if k < self.sessions.len() {
            proof {
                let next = self.sessions@.update(k as int, session);
                assert forall|i: int, j: int| 0 <= i < j < next.len() implies (#[trigger] next[i]).id@
                    != (#[trigger] next[j]).id@ by {
                    assert(next[i].id@ == self.sessions@[i].id@);
                    assert(next[j].id@ == self.sessions@[j].id@);
                }
            }
            let mut list: Vec<RegisteredSession> = Vec::new();
            std::mem::swap(&mut self.sessions, &mut list);
            list.set(k, session);
            self.sessions = list;
        } else {
            proof {
                let next = self.sessions@.push(session);
                assert forall|i: int, j: int| 0 <= i < j < next.len() implies (#[trigger] next[i]).id@
                    != (#[trigger] next[j]).id@ by {
                    if j < self.sessions@.len() {
                        assert(next[i] == self.sessions@[i]);
                        assert(next[j] == self.sessions@[j]);
                    } else {
                        assert(next[i] == self.sessions@[i]);
                    }
                }
            }
            let mut list: Vec<RegisteredSession> = Vec::new();
            std::mem::swap(&mut self.sessions, &mut list);
            list.push(session);
            self.sessions = list;
        }
    }

    /// Takes out the record with the identifier `id`, if there is one. After
    /// that no record has this identifier.
    pub fn unregister(&mut self, id: &str)
        ensures
            ids_unique(final(self)@),
            position(old(self)@, id@) < old(self)@.len() ==> final(self)@ == old(self)@.remove(
                position(old(self)@, id@),
            ),
            position(old(self)@, id@) >= old(self)@.len() ==> final(self)@ == old(self)@,
            position(final(self)@, id@) == final(self)@.len(),
    {
        proof {
            use_type_invariant(&*self);
            lemma_position(self.sessions@, id@);
        }
        let k = self.index_of(id);
        if k < self.sessions.len() {
            proof {
                let before = self.sessions@;
                let next = before.remove(k as int);
                assert forall|i: int, j: int| 0 <= i < j < next.len() implies (#[trigger] next[i]).id@
                    != (#[trigger] next[j]).id@ by {
                    let a = if i < k { i } else { i + 1 };
                    let b = if j < k { j } else { j + 1 };
                    assert(next[i] == before[a]);
                    assert(next[j] == before[b]);
                }
                assert forall|j: int| 0 <= j < next.len() implies (#[trigger] next[j]).id@ != id@ by {
                    let b = if j < k { j } else { j + 1 };
                    assert(next[j] == before[b]);
                    if b > k {
                        assert(before[k as int].id@ != before[b].id@);
                    }
                }
                lemma_position_is(next, id@, next.len() as int);
            }
            let mut list: Vec<RegisteredSession> = Vec::new();
            std::mem::swap(&mut self.sessions, &mut list);
            list.remove(k);
            self.sessions = list;
        }
    }

    /// The record with the identifier `id`.
    pub fn get(&self, id: &str) -> (r: Option<&RegisteredSession>)
        ensures
            position(self@, id@) < self@.len() ==> r == Some(&self@[position(self@, id@)]),
            position(self@, id@) >= self@.len() ==> r is None,
    {
        let k = self.index_of(id);
        if k < self.sessions.len() {
            Some(&self.sessions[k])
        } else {
            None
        }
    }

    /// The records, in the order in which they were registered.
    pub fn iter(&self) -> (out: &[RegisteredSession])
        ensures
            out@ == self@,
            ids_unique(out@),
    {
        proof {
            use_type_invariant(self);
        }
        self.sessions.as_slice()
    }

    /// The number of sessions.
    pub fn len(&self) -> (n: usize)
        ensures
            n == self@.len(),
    {
        self.sessions.len()
    }

    /// Whether no session is registered.
    pub fn is_empty(&self) -> (b: bool)
        ensures
            b == (self@.len() == 0),
    {
        self.sessions.len() == 0
    }

    /// The session that was created first, if there is any.
    pub fn first_created(&self) -> (r: Option<&RegisteredSession>)
        ensures
            self@.len() == 0 ==> r is None,
            self@.len() > 0 ==> r == Some(&self@[earliest(self@)]),
    {
        if self.sessions.len() == 0 {
            return None;
        }
        let mut best: usize = 0;
        let mut i: usize = 1;
        proof {
            assert(self.sessions@.take(1).len() == 1);
        }
        while i < self.sessions.len()
            invariant
                1 <= i <= self.sessions.len(),
                best < i,
                best == earliest(self.sessions@.take(i as int)),
            decreases self.sessions.len() - i,
        {
            let a = &self.sessions[i];
            let b = &self.sessions[best];
            let a_id = to_chars(a.id.as_str());
            let b_id = to_chars(b.id.as_str());
            let before = a.created < b.created || (a.created == b.created && chars_lt(
                a_id.as_slice(),
                b_id.as_slice(),
            ));
            proof {
                let now = self.sessions@.take(i + 1);
                assert(now.drop_last() =~= self.sessions@.take(i as int));
                assert(now.last() == self.sessions@[i as int]);
                assert(now[best as int] == self.sessions@[best as int]);
            }
            if before {
                best = i;
            }
            i = i + 1;
        }
        assert(self.sessions@.take(self.sessions.len() as int) =~= self.sessions@);
        Some(&self.sessions[best])
    }

    /// What the control protocol tells about each session.
    pub fn infos(&self) -> (out: Vec<SessionInfo>)
        ensures
            out@.len() == self@.len(),
            forall|i: int| 0 <= i < out@.len() ==> (#[trigger] out@[i])@ == self@[i].info(),
    {
        let mut out: Vec<SessionInfo> = Vec::new();
        let mut i: usize = 0;
        while i < self.sessions.len()
            invariant
                i <= self.sessions.len(),
                out@.len() == i,
                forall|j: int| 0 <= j < i ==> (#[trigger] out@[j])@ == self.sessions@[j].info(),
            decreases self.sessions.len() - i,
        {
            out.push(self.sessions[i].to_info());
            i = i + 1;
        }
        out
    }
}

impl Default for SessionRegistry {
    fn default() -> (r: SessionRegistry)
        ensures
            r@.len() == 0,
    {
        SessionRegistry::new()
    }
}

/// Shared daemon state.
///
/// The state that the portal handlers and the control socket share.
#[derive(Debug)]
pub struct DaemonState {
    /// Registry of active portal sessions.
    pub sessions: SessionRegistry,
    /// Queue of pending commands and submissions.
    pub queue: SubmissionQueue,
}

impl DaemonState {
    /// Create a new daemon state with empty session registry and queue.
    pub fn new() -> (s: DaemonState)
        ensures
            s.sessions@.len() == 0,
            s.queue.pending@.len() == 0,
            s.queue.submissions@.len() == 0,
    {
        DaemonState { sessions: SessionRegistry::new(), queue: SubmissionQueue::new() }
    }
}

impl Default for DaemonState {
    fn default() -> (s: DaemonState)
        ensures
            s.sessions@.len() == 0,
            s.queue.pending@.len() == 0,
            s.queue.submissions@.len() == 0,
    {
        DaemonState::new()
    }
}

/// What the daemon does for a control request.
#[derive(Debug, Clone)]
pub enum Plan {
    /// Append the pending entries to the session's submission, then tell the
    /// session to submit; answer `ok`.
    Submit { id: String, dir: String },
    /// Tell the session to cancel; answer `ok`.
    Cancel { id: String },
    /// Freeze the pending entries into a queued submission for any portal and
    /// empty the pending file; answer `ok`.
    QueuePending,
    /// Empty the pending file; answer `ok`.
    ClearPending,
    /// Read the session's submission and options and validate them; answer
    /// `ok` or the error.
    Verify { id: String, dir: String, portal: PortalType, operation: String },
    /// Rewrite the session's submission to these entries; answer `ok`.
    Reset { id: String, dir: String, entries: Vec<String> },
    /// Answer right away.
    Respond(Response),
}

/// The session that a request is for.
pub enum Target {
    /// The session at this place of the registry.
    Found(int),
    /// The request names a session that is not registered.
    Unknown(Seq<char>),
    /// The request names none, and none is registered.
    Nothing,
}

/// The session that a request is for: the one it names, else the one that
/// was created first.
pub open spec fn target(sessions: Seq<RegisteredSession>, id: Option<Seq<char>>) -> Target {
    match id {
        Some(id) => if position(sessions, id) < sessions.len() {
            Target::Found(position(sessions, id))
        } else {
            Target::Unknown(id)
        },
        None => if sessions.len() == 0 {
            Target::Nothing
        } else {
            Target::Found(earliest(sessions))
        },
    }
}

/// Whether `plan` is an answer with the error `msg`.
pub open spec fn is_error(plan: Plan, msg: Seq<char>) -> bool {
    plan matches Plan::Respond(Response::Error(m)) && m@ == msg
}

/// Whether `plan` is what the request `req` leads to, given the registered
/// sessions and whether the pending file is empty.
///
/// A request that names an unknown session is answered with an error. With a
/// session: submit drains and submits, cancel cancels, verify validates, reset
/// rewrites to the initial entries. Without one: submit queues the pending
/// entries (an error if there are none), cancel clears them, verify and reset
/// are errors. List answers with the sessions.
pub open spec fn planned(
    req: Request,
    sessions: Seq<RegisteredSession>,
    pending_empty: bool,
    plan: Plan,
) -> bool {
    match req {
        Request::List => plan matches Plan::Respond(Response::Sessions(v)) && v@.len()
            == sessions.len() && forall|i: int|
            0 <= i < v@.len() ==> (#[trigger] v@[i])@ == sessions[i].info(),
        Request::Submit { session_id } => match target(sessions, opt_view(session_id)) {
            Target::Found(k) => plan matches Plan::Submit { id, dir } && id@ == sessions[k].id@
                && dir@ == sessions[k].dir@,
            Target::Unknown(id) => is_error(plan, "Session not found: "@ + id),
            Target::Nothing => if pending_empty {
                is_error(plan, "No pending entries"@)
            } else {
                plan is QueuePending
            },
        },
        Request::Cancel { session_id } => match target(sessions, opt_view(session_id)) {
            Target::Found(k) => plan matches Plan::Cancel { id } && id@ == sessions[k].id@,
            Target::Unknown(id) => is_error(plan, "Session not found: "@ + id),
            Target::Nothing => plan is ClearPending,
        },
        Request::Verify { session_id } => match target(sessions, opt_view(session_id)) {
            Target::Found(k) => plan matches Plan::Verify { id, dir, portal, operation } && id@
                == sessions[k].id@ && dir@ == sessions[k].dir@ && portal == sessions[k].portal
                && operation@ == sessions[k].operation@,
            Target::Unknown(id) => is_error(plan, "Session not found: "@ + id),
            Target::Nothing => is_error(plan, "No active session to verify"@),
        },
        Request::Reset { session_id } => match target(sessions, opt_view(session_id)) {
            Target::Found(k) => plan matches Plan::Reset { id, dir, entries } && id@
                == sessions[k].id@ && dir@ == sessions[k].dir@ && views(entries@) == views(
                sessions[k].initial_entries@,
            ),
            Target::Unknown(id) => is_error(plan, "Session not found: "@ + id),
            Target::Nothing => is_error(plan, "No active session to reset"@),
        },
    }
}

/// The answer that a named session is not registered.
fn not_found(id: &str) -> (plan: Plan)
    ensures
        is_error(plan, "Session not found: "@ + id@),
{
    let mut msg = to_chars("Session not found: ");
    push_str(&mut msg, id);
    Plan::Respond(Response::Error(from_chars(msg.as_slice())))
}

/// The session that a request is for.
fn find_target<'a>(registry: &'a SessionRegistry, id: &Option<String>) -> (r: Option<
    &'a RegisteredSession,
>)
    ensures
        match target(registry@, opt_view(*id)) {
            Target::Found(k) => r == Some(&registry@[k]),
            _ => r is None,
        },
{
    match id {
        Some(id) => registry.get(id.as_str()),
        None => registry.first_created(),
    }
}

/// Route a control request: tells what the daemon has to do for it.
pub fn handle_request(
    req: &Request,
    registry: &SessionRegistry,
    pending_empty: bool,
) -> (plan: Plan)
    ensures
        planned(*req, registry@, pending_empty, plan),
{
    match req {
        Request::List => Plan::Respond(Response::Sessions(registry.infos())),
        Request::Submit { session_id } => match find_target(registry, session_id) {
            Some(s) => Plan::Submit { id: s.id.clone(), dir: s.dir.clone() },
            None => match session_id {
                Some(id) => not_found(id.as_str()),
                None => {
                    if pending_empty {
                        Plan::Respond(Response::Error("No pending entries".to_owned()))
                    } else {
                        Plan::QueuePending
                    }
                },
            },
        },
        Request::Cancel { session_id } => match find_target(registry, session_id) {
            Some(s) => Plan::Cancel { id: s.id.clone() },
            None => match session_id {
                Some(id) => not_found(id.as_str()),
                None => Plan::ClearPending,
            },
        },
        Request::Verify { session_id } => match find_target(registry, session_id) {
            Some(s) => Plan::Verify {
                id: s.id.clone(),
                dir: s.dir.clone(),
                portal: s.portal,
                operation: s.operation.clone(),
            },
            None => match session_id {
                Some(id) => not_found(id.as_str()),
                None => Plan::Respond(Response::Error("No active session to verify".to_owned())),
            },
        },
        Request::Reset { session_id } => match find_target(registry, session_id) {
            Some(s) => Plan::Reset {
                id: s.id.clone(),
                dir: s.dir.clone(),
                entries: copy_strings(s.initial_entries.as_slice()),
            },
            None => match session_id {
                Some(id) => not_found(id.as_str()),
                None => Plan::Respond(Response::Error("No active session to reset".to_owned())),
            },
        },
    }
}

/// Once a session is unregistered, a request that names it finds no session:
/// nothing that is done after a session has ended reaches it.
pub proof fn law_unregistered_is_unknown(sessions: Seq<RegisteredSession>, id: Seq<char>)
    requires
        position(sessions, id) == sessions.len(),
    ensures
        target(sessions, Some(id)) == Target::Unknown(id),
{
}

/// Whether `out` tells of the session `s` what the session protocol tells:
/// identifier, portal, title, creation time, and as socket the file `sock`
/// of its directory.
pub open spec fn tells_of(out: IpcSessionInfo, s: RegisteredSession) -> bool {
    &&& out.id@ == s.id@
    &&& out.portal == s.portal
    &&& opt_view(out.title) == opt_view(s.title)
    &&& out.created == s.created
    &&& out.socket_path@ == join_path(s.dir@, "sock"@)
}

impl RegisteredSession {
    /// What the session protocol tells about the session.
    pub fn to_ipc_info(&self) -> (out: IpcSessionInfo)
        ensures
            tells_of(out, *self),
    {
        IpcSessionInfo {
            id: self.id.clone(),
            portal: self.portal,
            title: match &self.title {
                Some(t) => Some(t.clone()),
                None => None,
            },
            created: self.created,
            socket_path: join(self.dir.as_str(), "sock"),
        }
    }
}

/// The place of the first session that a submission for `portal` serves, or
/// the number of sessions if there is none.
pub open spec fn first_session_for(
    sessions: Seq<RegisteredSession>,
    portal: Option<PortalType>,
) -> int
    decreases sessions.len(),
{
    if sessions.len() == 0 {
        0
    } else if serves(portal, sessions[0].portal) {
        0
    } else {
        1 + first_session_for(sessions.drop_first(), portal)
    }
}

/// A place that is first to serve (or the length, if none does) is
/// `first_session_for`.
pub proof fn lemma_first_session_for(
    sessions: Seq<RegisteredSession>,
    portal: Option<PortalType>,
    k: int,
)
    requires
        0 <= k <= sessions.len(),
        forall|j: int| 0 <= j < k ==> !serves(portal, (#[trigger] sessions[j]).portal),
        k < sessions.len() ==> serves(portal, sessions[k].portal),
    ensures
        first_session_for(sessions, portal) == k,
    decreases sessions.len(),
{
    if k > 0 {
        let t = sessions.drop_first();
        assert(!serves(portal, sessions[0].portal));
        assert forall|j: int| 0 <= j < k - 1 implies !serves(portal, (#[trigger] t[j]).portal) by {
            assert(t[j] == sessions[j + 1]);
        }
        lemma_first_session_for(t, portal, k - 1);
    }
}

/// What the daemon does for an extended request.
#[derive(Debug, Clone)]
pub enum ExtensionStep {
    /// Answer right away.
    Respond(IpcResponse<DaemonResponseExtension>),
    /// Apply the commands to the session behind `socket_path` and submit it;
    /// answer `ok`. If that fails, put the commands back and queue them.
    Apply {
        session_id: String,
        socket_path: String,
        commands: Vec<QueuedCommand>,
        portal: Option<PortalType>,
    },
}

/// Whether `step` answers with the error `msg`.
pub open spec fn answers_error(step: ExtensionStep, msg: Seq<char>) -> bool {
    step matches ExtensionStep::Respond(IpcResponse::Error(m)) && m@ == msg
}

/// Whether `step` and the state `after` are what the extended request `ext`
/// leads to from the state `before`.
pub open spec fn extension_handled(
    ext: DaemonExtension,
    before: DaemonState,
    after: DaemonState,
    step: ExtensionStep,
) -> bool {
    let sessions = before.sessions@;
    &&& after.sessions@ == sessions
    &&& match ext {
        DaemonExtension::ListSessions => {
            &&& after.queue == before.queue
            &&& step matches ExtensionStep::Respond(
                IpcResponse::Extended(DaemonResponseExtension::Sessions(v)),
            )
            &&& v@.len() == sessions.len()
            &&& forall|i: int| 0 <= i < v@.len() ==> tells_of(#[trigger] v@[i], sessions[i])
        },
        DaemonExtension::GetSession(id) => {
            &&& after.queue == before.queue
            &&& if position(sessions, id@) < sessions.len() {
                &&& step matches ExtensionStep::Respond(
                    IpcResponse::Extended(DaemonResponseExtension::Session(info)),
                )
                &&& tells_of(info, sessions[position(sessions, id@)])
            } else {
                answers_error(step, "Session not found: "@ + id@)
            }
        },
        DaemonExtension::QueuePush(cmd) => {
            &&& after.queue.pending@ == before.queue.pending@.push(cmd)
            &&& after.queue.submissions@ == before.queue.submissions@
            &&& step matches ExtensionStep::Respond(IpcResponse::Okay)
        },
        DaemonExtension::QueueSubmit { portal } => {
            if before.queue.pending@.len() == 0 {
                &&& after.queue == before.queue
                &&& answers_error(step, "No pending entries"@)
            } else if first_session_for(sessions, portal) < sessions.len() {
                let k = first_session_for(sessions, portal);
                &&& after.queue.pending@.len() == 0
                &&& after.queue.submissions@ == before.queue.submissions@
                &&& step matches ExtensionStep::Apply { session_id, socket_path, commands, portal: p }
                &&& session_id@ == sessions[k].id@
                &&& socket_path@ == join_path(sessions[k].dir@, "sock"@)
                &&& commands@ == before.queue.pending@
                &&& p == portal
            } else {
                &&& after.queue.pending@.len() == 0
                &&& after.queue.submissions@.len() == before.queue.submissions@.len() + 1
                &&& after.queue.submissions@.drop_last() == before.queue.submissions@
                &&& after.queue.submissions@.last().commands@ == before.queue.pending@
                &&& after.queue.submissions@.last().portal == portal
                &&& step matches ExtensionStep::Respond(IpcResponse::Okay)
            }
        },
        DaemonExtension::QueueClearPending => {
            &&& after.queue.pending@.len() == 0
            &&& after.queue.submissions@ == before.queue.submissions@
            &&& step matches ExtensionStep::Respond(IpcResponse::Okay)
        },
        DaemonExtension::QueueClearAll => {
            &&& after.queue.pending@.len() == 0
            &&& after.queue.submissions@.len() == 0
            &&& step matches ExtensionStep::Respond(IpcResponse::Okay)
        },
        DaemonExtension::QueueStatus => {
            &&& after.queue == before.queue
            &&& step matches ExtensionStep::Respond(
                IpcResponse::Extended(DaemonResponseExtension::QueueStatus(status)),
            )
            &&& status.pending_count == before.queue.pending@.len()
            &&& command_views(status.pending@) == command_views(before.queue.pending@)
            &&& status.submissions_count == before.queue.submissions@.len()
            &&& status.submissions@.len() == before.queue.submissions@.len()
            &&& forall|i: int|
                0 <= i < status.submissions@.len() ==> (#[trigger] status.submissions@[i]).created
                    == before.queue.submissions@[i].created && status.submissions@[i].portal
                    == before.queue.submissions@[i].portal && command_views(
                    status.submissions@[i].commands@,
                ) == command_views(before.queue.submissions@[i].commands@)
        },
    }
}

/// The answer that a named session is not registered.
fn session_not_found(id: &str) -> (step: ExtensionStep)
    ensures
        answers_error(step, "Session not found: "@ + id@),
{
    let mut msg = to_chars("Session not found: ");
    push_str(&mut msg, id);
    ExtensionStep::Respond(IpcResponse::Error(from_chars(msg.as_slice())))
}

/// The first session that a submission for `portal` serves.
fn find_session_for(registry: &SessionRegistry, portal: Option<PortalType>) -> (k: usize)
    ensures
        k == first_session_for(registry@, portal),
        k <= registry@.len(),
{
    let list = registry.iter();
    let mut i: usize = 0;
    while i < list.len()
        invariant
            i <= list.len(),
            list@ == registry@,
            forall|j: int| 0 <= j < i ==> !serves(portal, (#[trigger] list@[j]).portal),
        decreases list.len() - i,
    {
        let hit = match portal {
            None => true,
            Some(p) => p == list[i].portal,
        };
        if hit {
            proof {
                lemma_first_session_for(list@, portal, i as int);
            }
            return i;
        }
        i = i + 1;
    }
    proof {
        lemma_first_session_for(list@, portal, i as int);
    }
    i
}

/// A copy of the waiting submissions.
fn copy_submissions(subs: &[Submission]) -> (out: Vec<Submission>)
    ensures
        out@.len() == subs@.len(),
        forall|i: int|
            0 <= i < out@.len() ==> (#[trigger] out@[i]).created == subs@[i].created && out@[i].portal
                == subs@[i].portal && command_views(out@[i].commands@) == command_views(
                subs@[i].commands@,
            ),
{
    let mut out: Vec<Submission> = Vec::new();
    let mut i: usize = 0;
    while i < subs.len()
        invariant
            i <= subs.len(),
            out@.len() == i,
            forall|j: int|
                0 <= j < i ==> (#[trigger] out@[j]).created == subs@[j].created && out@[j].portal
                    == subs@[j].portal && command_views(out@[j].commands@) == command_views(
                    subs@[j].commands@,
                ),
        decreases subs.len() - i,
    {
        out.push(
            Submission {
                commands: copy_commands(subs[i].commands.as_slice()),
                created: subs[i].created,
                portal: subs[i].portal,
            },
        );
        i = i + 1;
    }
    out
}

/// Handle daemon-specific extension commands.
pub fn handle_daemon_extension(
    ext: DaemonExtension,
    state: &mut DaemonState,
) -> (step: ExtensionStep)
    ensures
        extension_handled(ext, *old(state), *final(state), step),
{
    match ext {
        DaemonExtension::ListSessions => {
            let list = state.sessions.iter();
            let mut out: Vec<IpcSessionInfo> = Vec::new();
            let mut i: usize = 0;
            while i < list.len()
                invariant
                    i <= list.len(),
                    out@.len() == i,
                    forall|j: int| 0 <= j < i ==> tells_of(#[trigger] out@[j], list@[j]),
                decreases list.len() - i,
            {
                out.push(list[i].to_ipc_info());
                i = i + 1;
            }
            ExtensionStep::Respond(IpcResponse::Extended(DaemonResponseExtension::Sessions(out)))
        },
        DaemonExtension::GetSession(id) => {
            proof {
                lemma_position(state.sessions@, id@);
            }
            match state.sessions.get(id.as_str()) {
                Some(s) => ExtensionStep::Respond(
                    IpcResponse::Extended(DaemonResponseExtension::Session(s.to_ipc_info())),
                ),
                None => session_not_found(id.as_str()),
            }
        },
        DaemonExtension::QueuePush(cmd) => {
            state.queue.push_command(cmd);
            ExtensionStep::Respond(IpcResponse::Okay)
        },
        DaemonExtension::QueueSubmit { portal } => {
            if state.queue.pending.len() == 0 {
                return ExtensionStep::Respond(
                    IpcResponse::Error("No pending entries".to_owned()),
                );
            }
            let k = find_session_for(&state.sessions, portal);
            if k < state.sessions.len() {
                let list = state.sessions.iter();
                let session_id = list[k].id.clone();
                let socket_path = join(list[k].dir.as_str(), "sock");
                let mut commands: Vec<QueuedCommand> = Vec::new();
                std::mem::swap(&mut state.queue.pending, &mut commands);
                ExtensionStep::Apply { session_id, socket_path, commands, portal }
            } else {
                state.queue.submit(portal);
                ExtensionStep::Respond(IpcResponse::Okay)
            }
        },
        DaemonExtension::QueueClearPending => {
            state.queue.clear_pending();
            ExtensionStep::Respond(IpcResponse::Okay)
        },
        DaemonExtension::QueueClearAll => {
            state.queue.clear_all();
            ExtensionStep::Respond(IpcResponse::Okay)
        },
        DaemonExtension::QueueStatus => {
            let status = QueueStatusInfo {
                pending_count: state.queue.pending.len(),
                pending: copy_commands(state.queue.pending.as_slice()),
                submissions_count: state.queue.submissions.len(),
                submissions: copy_submissions(state.queue.submissions.as_slice()),
            };
            ExtensionStep::Respond(
                IpcResponse::Extended(DaemonResponseExtension::QueueStatus(status)),
            )
        },
    }
}

/// After commands could not be applied to a session: they are pending again
/// and at once frozen into a submission for `portal`, so that the next
/// session takes them.
pub fn requeue_failed(
    state: &mut DaemonState,
    commands: Vec<QueuedCommand>,
    portal: Option<PortalType>,
)
    ensures
        final(state).sessions@ == old(state).sessions@,
        commands@.len() == 0 ==> final(state).queue.pending@.len() == 0,
        commands@.len() == 0 ==> final(state).queue.submissions@ == old(state).queue.submissions@,
        commands@.len() > 0 ==> {
            &&& final(state).queue.pending@.len() == 0
            &&& final(state).queue.submissions@.len() == old(state).queue.submissions@.len() + 1
            &&& final(state).queue.submissions@.drop_last() == old(state).queue.submissions@
            &&& final(state).queue.submissions@.last().commands@ == commands@
            &&& final(state).queue.submissions@.last().portal == portal
        },
{
    state.queue.pending = commands;
    state.queue.submit(portal);
}

/// One move of applying queued commands to a session.
#[derive(Debug, Clone)]
pub enum ApplyStep {
    /// Send this request and come back with the answer.
    Send(IpcRequest<NoExtension>),
    /// All commands and the submit were accepted.
    Done,
    /// The session refused, or answered what nobody asked.
    Failed(DaemonError),
}

/// The session request that carries a queued command.
pub open spec fn carries(req: IpcRequest<NoExtension>, cmd: CommandView) -> bool {
    match cmd {
        CommandView::Select(items) => req matches IpcRequest::Select(v) && views(v@) == items,
        CommandView::Deselect(items) => req matches IpcRequest::Deselect(v) && views(v@) == items,
        CommandView::Clear => req is Clear,
    }
}

/// Whether `step` is the next move when `answered` requests were answered
/// and `last` is the answer to the latest of them. Each command is sent in
/// turn, then a submit; an error answer, or any answer but `ok`, ends the run.
pub open spec fn apply_step_ok(
    commands: Seq<CommandView>,
    answered: int,
    last: Option<IpcResponse<NoExtension>>,
    step: ApplyStep,
) -> bool {
    match last {
        Some(IpcResponse::Error(e)) => step matches ApplyStep::Failed(DaemonError::SessionError(m))
            && m@ == e@,
        Some(IpcResponse::Okay) | None => if answered < commands.len() {
            step matches ApplyStep::Send(req) && carries(req, commands[answered])
        } else if answered == commands.len() {
            step matches ApplyStep::Send(IpcRequest::Submit)
        } else {
            step is Done
        },
        Some(_) => step matches ApplyStep::Failed(DaemonError::UnexpectedResponse),
    }
}

/// Apply queued commands to a session and submit: the next move, given how
/// many requests were answered so far and the latest answer.
pub fn apply_to_session(
    commands: &[QueuedCommand],
    answered: usize,
    last: Option<&IpcResponse<NoExtension>>,
) -> (step: ApplyStep)
    ensures
        apply_step_ok(
            command_views(commands@),
            answered as int,
            match last {
                Some(r) => Some(*r),
                None => None,
            },
            step,
        ),
{
    match last {
        Some(IpcResponse::Error(e)) => {
            return ApplyStep::Failed(DaemonError::SessionError(e.clone()));
        },
        Some(IpcResponse::Okay) => {},
        None => {},
        Some(_) => {
            return ApplyStep::Failed(DaemonError::UnexpectedResponse);
        },
    }
    if answered < commands.len() {
        let req = match copy_command(&commands[answered]) {
            QueuedCommand::Select(v) => IpcRequest::Select(v),
            QueuedCommand::Deselect(v) => IpcRequest::Deselect(v),
            QueuedCommand::Clear => IpcRequest::Clear,
        };
        ApplyStep::Send(req)
    } else if answered == commands.len() {
        ApplyStep::Send(IpcRequest::Submit)
    } else {
        ApplyStep::Done
    }
}

/// The answer to a request to verify a session: `ok` exactly when the
/// validator accepts the session's entries, else the error with the
/// validator's message. Nothing is changed.
pub fn verify_session(
    portal: &str,
    operation: &str,
    entries: &[String],
    options: &PortalContext,
    probes: &Probes,
) -> (r: Response)
    ensures
        match validated(portal@, operation@, views(entries@), *options, *probes) {
            Ok(_) => r is Okay,
            Err(msg) => r matches Response::Error(e) && e@ == msg,
        },
{
    match validate(portal, operation, entries, options, probes) {
        Ok(_) => Response::Okay,
        Err(e) => Response::Error(e),
    }
}

} // verus!

//! The control-socket protocol: plain text, one message per line.
//!
//! A request is a single line: `submit [id]`, `cancel [id]`, `verify [id]`,
//! `reset [id]` or `list`. A response is zero or more session lines of six
//! tab-separated fields each, closed by a line `ok` or `error: <message>`.

use crate::number::{decimal, parse_u64, parse_u64_spec, u64_to_decimal};
use crate::text::{
    find, find_from, from_chars, is_space, is_str, lemma_find_unique, lemma_leading_space,
    lemma_trailing_space, push_all, push_str, slice_copy, split, split_chars, to_chars, trim,
    trimmed, vec_views,
};
use vstd::prelude::*;

verus! {

/// Request sent to the daemon socket.
#[derive(Debug, Clone, PartialEq)]
pub enum Request {
    /// Submit/confirm a session or pending entries.
    Submit { session_id: Option<String> },
    /// Cancel a session or clear pending entries.
    Cancel { session_id: Option<String> },
    /// Validate submission against portal constraints.
    Verify { session_id: Option<String> },
    /// Reset submission to initial state.
    Reset { session_id: Option<String> },
    /// List all active sessions.
    List,
}

/// Response from the daemon socket.
#[derive(Debug, Clone, PartialEq)]
pub enum Response {
    /// Operation completed successfully.
    Okay,
    /// Error occurred.
    Error(String),
    /// List of active sessions.
    Sessions(Vec<SessionInfo>),
}

/// Information about a session.
#[derive(Debug, Clone, PartialEq)]
pub struct SessionInfo {
    /// Unique session identifier.
    pub id: String,
    /// Portal name (e.g. "file-chooser", "screenshot").
    pub portal: String,
    /// Operation name (e.g. "open-file", "screenshot").
    pub operation: String,
    /// Session title (from portal options).
    pub title: Option<String>,
    /// Unix timestamp when session was created.
    pub created: u64,
    /// Path to session directory.
    pub dir: String,
}

/// The characters of an optional string.
pub open spec fn opt_view(o: Option<String>) -> Option<Seq<char>> {
    match o {
        Some(s) => Some(s@),
        None => None,
    }
}

/// What a `Request` says.
pub enum RequestView {
    Submit { session_id: Option<Seq<char>> },
    Cancel { session_id: Option<Seq<char>> },
    Verify { session_id: Option<Seq<char>> },
    Reset { session_id: Option<Seq<char>> },
    List,
}

impl View for Request {
    type V = RequestView;

    open spec fn view(&self) -> RequestView {
        match *self {
            Request::Submit { session_id } => RequestView::Submit {
                session_id: opt_view(session_id),
            },
            Request::Cancel { session_id } => RequestView::Cancel {
                session_id: opt_view(session_id),
            },
            Request::Verify { session_id } => RequestView::Verify {
                session_id: opt_view(session_id),
            },
            Request::Reset { session_id } => RequestView::Reset { session_id: opt_view(session_id) },
            Request::List => RequestView::List,
        }
    }
}

/// What a `SessionInfo` says.
pub struct SessionInfoView {
    pub id: Seq<char>,
    pub portal: Seq<char>,
    pub operation: Seq<char>,
    pub title: Option<Seq<char>>,
    pub created: u64,
    pub dir: Seq<char>,
}

impl View for SessionInfo {
    type V = SessionInfoView;

    open spec fn view(&self) -> SessionInfoView {
        SessionInfoView {
            id: self.id@,
            portal: self.portal@,
            operation: self.operation@,
            title: opt_view(self.title),
            created: self.created,
            dir: self.dir@,
        }
    }
}

/// The views of a list of session records.
pub open spec fn info_views(v: Seq<SessionInfo>) -> Seq<SessionInfoView> {
    Seq::new(v.len(), |i: int| v[i]@)
}

/// What a `Response` says.
pub enum ResponseView {
    Okay,
    Error(Seq<char>),
    Sessions(Seq<SessionInfoView>),
}

impl View for Response {
    type V = ResponseView;

    open spec fn view(&self) -> ResponseView {
        match *self {
            Response::Okay => ResponseView::Okay,
            Response::Error(msg) => ResponseView::Error(msg@),
            Response::Sessions(v) => ResponseView::Sessions(info_views(v@)),
        }
    }
}

/// A request line: the verb, then a space and the identifier if there is one,
/// then a line feed.
pub open spec fn request_line(verb: Seq<char>, session_id: Option<Seq<char>>) -> Seq<char> {
    match session_id {
        Some(id) => verb + seq![' '] + id + seq!['\n'],
        None => verb + seq!['\n'],
    }
}

impl RequestView {
    /// The line that carries the request.
    pub open spec fn encode(self) -> Seq<char> {
        match self {
            RequestView::Submit { session_id } => request_line("submit"@, session_id),
            RequestView::Cancel { session_id } => request_line("cancel"@, session_id),
            RequestView::Verify { session_id } => request_line("verify"@, session_id),
            RequestView::Reset { session_id } => request_line("reset"@, session_id),
            RequestView::List => "list\n"@,
        }
    }
}

/// The request that a line carries: white space around the line is dropped,
/// the verb ends at the first space, and all that follows that space is the
/// identifier. An unknown verb gives the message `unknown command: <verb>`.
pub open spec fn decode_request(line: Seq<char>) -> Result<RequestView, Seq<char>> {
    let t = trimmed(line);
    let k = find(t, ' ');
    let cmd = if 0 <= k < t.len() {
        t.take(k)
    } else {
        t
    };
    let session_id = if 0 <= k < t.len() {
        Some(t.skip(k + 1))
    } else {
        None
    };
    if cmd == "submit"@ {
        Ok(RequestView::Submit { session_id })
    } else if cmd == "cancel"@ {
        Ok(RequestView::Cancel { session_id })
    } else if cmd == "verify"@ {
        Ok(RequestView::Verify { session_id })
    } else if cmd == "reset"@ {
        Ok(RequestView::Reset { session_id })
    } else if cmd == "list"@ {
        Ok(RequestView::List)
    } else {
        Err("unknown command: "@ + cmd)
    }
}

/// Writes one request line into `out`.
fn push_request_line(out: &mut Vec<char>, verb: &str, session_id: &Option<String>)
    ensures
        final(out)@ == old(out)@ + request_line(verb@, opt_view(*session_id)),
{
    push_str(out, verb);
    match session_id {
        Some(id) => {
            out.push(' ');
            push_str(out, id.as_str());
            out.push('\n');
            assert(out@ =~= old(out)@ + (verb@ + seq![' '] + id@ + seq!['\n']));
        },
        None => {
            out.push('\n');
            assert(out@ =~= old(out)@ + (verb@ + seq!['\n']));
        },
    }
}

/// The identifier that follows the verb, if any.
fn session_arg(t: &[char], k: usize) -> (r: Option<String>)
    requires
        k <= t.len(),
    ensures
        opt_view(r) == if k < t.len() {
            Some(t@.skip(k + 1))
        } else {
            None::<Seq<char>>
        },
{
    if k < t.len() {
        let rest = slice_copy(t, k + 1, t.len());
        assert(t@.subrange(k + 1, t.len() as int) =~= t@.skip(k + 1));
        Some(from_chars(rest.as_slice()))
    } else {
        None
    }
}

impl Request {
    /// Encode request as a single newline-terminated line.
    pub fn encode(&self) -> (out: String)
        ensures
            out@ == self@.encode(),
    {
        let mut out: Vec<char> = Vec::new();
        match self {
            Request::Submit { session_id } => push_request_line(&mut out, "submit", session_id),
            Request::Cancel { session_id } => push_request_line(&mut out, "cancel", session_id),
            Request::Verify { session_id } => push_request_line(&mut out, "verify", session_id),
            Request::Reset { session_id } => push_request_line(&mut out, "reset", session_id),
            Request::List => push_str(&mut out, "list\n"),
        }
        assert(out@ =~= self@.encode());
        from_chars(out.as_slice())
    }

    /// Decode request from a line.
    pub fn decode(line: &str) -> (r: Result<Request, String>)
        ensures
            match decode_request(line@) {
                Ok(v) => r matches Ok(req) && req@ == v,
                Err(m) => r matches Err(e) && e@ == m,
            },
    {
        let raw = to_chars(line);
        let t = trim(raw.as_slice());
        let k = find_from(t.as_slice(), ' ', 0);
        assert(t@.skip(0) =~= t@);
        let cmd = slice_copy(t.as_slice(), 0, k);
        proof {
            assert(t@.subrange(0, k as int) =~= t@.take(k as int));
            if k >= t.len() {
                assert(t@.take(k as int) =~= t@);
            }
        }
        if is_str(cmd.as_slice(), "submit") {
            Ok(Request::Submit { session_id: session_arg(t.as_slice(), k) })
        } else if is_str(cmd.as_slice(), "cancel") {
            Ok(Request::Cancel { session_id: session_arg(t.as_slice(), k) })
        } else if is_str(cmd.as_slice(), "verify") {
            Ok(Request::Verify { session_id: session_arg(t.as_slice(), k) })
        } else if is_str(cmd.as_slice(), "reset") {
            Ok(Request::Reset { session_id: session_arg(t.as_slice(), k) })
        } else if is_str(cmd.as_slice(), "list") {
            Ok(Request::List)
        } else {
            let mut msg: Vec<char> = Vec::new();
            push_str(&mut msg, "unknown command: ");
            push_all(&mut msg, cmd.as_slice());
            assert(msg@ =~= "unknown command: "@ + cmd@);
            Err(from_chars(msg.as_slice()))
        }
    }
}

/// Whether an identifier survives a request line: it is not empty, holds
/// no white space at either end, and where the verb has to be told from it
/// nothing is lost.
pub open spec fn plain_id(id: Seq<char>) -> bool {
    id.len() > 0 && !is_space(id[0]) && !is_space(id.last())
}

/// A verb of the protocol: lower-case letters only.
pub open spec fn is_verb(verb: Seq<char>) -> bool {
    verb.len() > 0 && forall|i: int| 0 <= i < verb.len() ==> 'a' <= #[trigger] verb[i] <= 'z'
}

/// The line of a verb and an identifier, trimmed, splits into the two at its
/// first space.
pub proof fn lemma_request_line_parts(verb: Seq<char>, id: Seq<char>)
    requires
        is_verb(verb),
        plain_id(id),
    ensures
        ({
            let t = trimmed(request_line(verb, Some(id)));
            &&& t == verb + seq![' '] + id
            &&& find(t, ' ') == verb.len()
            &&& t.take(verb.len() as int) == verb
            &&& t.skip(verb.len() as int + 1) == id
        }),
{
    let line = request_line(verb, Some(id));
    let body = verb + seq![' '] + id;
    assert(line =~= body + seq!['\n']);
    assert(line[0] == verb[0]);
    assert(!is_space(line[0]));
    lemma_leading_space(line, 0);
    assert(line.skip(0) =~= line);
    assert(line[line.len() - 1] == '\n');
    assert(line[line.len() - 2] == id.last());
    lemma_trailing_space(line, 1);
    assert(line.take(line.len() - 1) =~= body);
    assert forall|j: int| 0 <= j < verb.len() implies body[j] != ' ' by {
        assert(body[j] == verb[j]);
    }
    assert(body[verb.len() as int] == ' ');
    lemma_find_unique(body, ' ', verb.len() as int);
    assert(body.take(verb.len() as int) =~= verb);
    assert(body.skip(verb.len() as int + 1) =~= id);
}

/// The line of a verb alone, trimmed, is the verb, and holds no space.
pub proof fn lemma_request_line_bare(verb: Seq<char>)
    requires
        is_verb(verb),
    ensures
        trimmed(request_line(verb, None)) == verb,
        find(verb, ' ') == verb.len(),
{
    let line = request_line(verb, None);
    assert(line[0] == verb[0]);
    lemma_leading_space(line, 0);
    assert(line.skip(0) =~= line);
    assert(line[line.len() - 1] == '\n');
    assert(line[line.len() - 2] == verb.last());
    lemma_trailing_space(line, 1);
    assert(line.take(line.len() - 1) =~= verb);
    lemma_find_unique(verb, ' ', verb.len() as int);
}

/// The five verbs are verbs, and differ from one another.
pub proof fn lemma_verbs()
    ensures
        is_verb("submit"@),
        is_verb("cancel"@),
        is_verb("verify"@),
        is_verb("reset"@),
        is_verb("list"@),
        "submit"@ != "cancel"@,
        "submit"@ != "verify"@,
        "submit"@ != "reset"@,
        "submit"@ != "list"@,
        "cancel"@ != "verify"@,
        "cancel"@ != "reset"@,
        "cancel"@ != "list"@,
        "verify"@ != "reset"@,
        "verify"@ != "list"@,
        "reset"@ != "list"@,
{
    reveal_strlit("submit");
    reveal_strlit("cancel");
    reveal_strlit("verify");
    reveal_strlit("reset");
    reveal_strlit("list");
    assert("submit"@[0] != "cancel"@[0]);
    assert("submit"@[0] != "verify"@[0]);
    assert("cancel"@[0] != "verify"@[0]);
    assert("submit"@.len() != "reset"@.len());
    assert("submit"@.len() != "list"@.len());
    assert("cancel"@.len() != "reset"@.len());
    assert("cancel"@.len() != "list"@.len());
    assert("verify"@.len() != "reset"@.len());
    assert("verify"@.len() != "list"@.len());
    assert("reset"@.len() != "list"@.len());
}

/// Whether the identifier of a request, if it has one, survives a request
/// line.
pub open spec fn plain_request(r: RequestView) -> bool {
    match r {
        RequestView::Submit { session_id: Some(id) } => plain_id(id),
        RequestView::Cancel { session_id: Some(id) } => plain_id(id),
        RequestView::Verify { session_id: Some(id) } => plain_id(id),
        RequestView::Reset { session_id: Some(id) } => plain_id(id),
        _ => true,
    }
}

/// A request that is encoded and decoded is the same request, as long as its
/// identifier, if it has one, is not empty and has no white space at either
/// end.
pub proof fn law_request_round_trip(r: RequestView)
    requires
        plain_request(r),
    ensures
        decode_request(r.encode()) == Ok::<RequestView, Seq<char>>(r),
{
    lemma_verbs();
    match r {
        RequestView::Submit { session_id } => lemma_round_trip_verb("submit"@, session_id),
        RequestView::Cancel { session_id } => lemma_round_trip_verb("cancel"@, session_id),
        RequestView::Verify { session_id } => lemma_round_trip_verb("verify"@, session_id),
        RequestView::Reset { session_id } => lemma_round_trip_verb("reset"@, session_id),
        RequestView::List => {
            reveal_strlit("list");
            reveal_strlit("list\n");
            assert("list\n"@ =~= request_line("list"@, None));
            lemma_request_line_bare("list"@);
            assert("list"@.take("list"@.len() as int) =~= "list"@);
        },
    }
}

/// What `decode_request` sees in the line of a verb and an optional
/// identifier: the verb before the first space, and the identifier after it.
pub proof fn lemma_round_trip_verb(verb: Seq<char>, session_id: Option<Seq<char>>)
    requires
        is_verb(verb),
        session_id matches Some(id) ==> plain_id(id),
    ensures
        ({
            let t = trimmed(request_line(verb, session_id));
            let k = find(t, ' ');
            &&& (if 0 <= k < t.len() {
                t.take(k)
            } else {
                t
            }) == verb
            &&& (if 0 <= k < t.len() {
                Some(t.skip(k + 1))
            } else {
                None
            }) == session_id
        }),
{
    match session_id {
        Some(id) => {
            lemma_request_line_parts(verb, id);
        },
        None => {
            lemma_request_line_bare(verb);
        },
    }
}

/// Whether `c` would break a field or a line of the protocol.
pub open spec fn breaks_field(c: char) -> bool {
    c == '\t' || c == '\n' || c == '\r'
}

/// `s` with every tab, line feed and carriage return replaced by a space.
pub open spec fn sanitized(s: Seq<char>) -> Seq<char> {
    Seq::new(
        s.len(),
        |i: int|
            if breaks_field(s[i]) {
                ' '
            } else {
                s[i]
            },
    )
}

/// Whether `s` holds no tab, line feed or carriage return.
pub open spec fn is_clean(s: Seq<char>) -> bool {
    forall|i: int| 0 <= i < s.len() ==> !breaks_field(#[trigger] s[i])
}

/// Appends `s` to `out` with tabs and line breaks replaced by spaces.
fn push_sanitized(out: &mut Vec<char>, s: &str)
    ensures
        final(out)@ == old(out)@ + sanitized(s@),
{
    let v = to_chars(s);
    let mut i: usize = 0;
    while i < v.len()
        invariant
            i <= v.len(),
            v@ == s@,
            out@ == old(out)@ + sanitized(s@).take(i as int),
        decreases v.len() - i,
    {
        let c = v[i];
        if c == '\t' || c == '\n' || c == '\r' {
            out.push(' ');
        } else {
            out.push(c);
        }
        i = i + 1;
        assert(out@ =~= old(out)@ + sanitized(s@).take(i as int));
    }
    assert(sanitized(s@).take(v.len() as int) =~= sanitized(s@));
}

/// Sanitize a field for the tab-separated text protocol.
/// Replaces tabs and newlines with spaces to prevent protocol injection.
pub fn sanitize_field(s: &str) -> (out: String)
    ensures
        out@ == sanitized(s@),
        is_clean(out@),
{
    let mut out: Vec<char> = Vec::new();
    push_sanitized(&mut out, s);
    assert(out@ =~= sanitized(s@));
    from_chars(out.as_slice())
}

/// The title field of a session line: the title, or nothing.
pub open spec fn title_field(title: Option<Seq<char>>) -> Seq<char> {
    match title {
        Some(t) => t,
        None => Seq::empty(),
    }
}

impl SessionInfoView {
    /// The line that carries the record: six sanitized fields, tab-separated,
    /// closed by a line feed.
    pub open spec fn encode_line(self) -> Seq<char> {
        sanitized(self.id) + seq!['\t'] + sanitized(self.portal) + seq!['\t'] + sanitized(
            self.operation,
        ) + seq!['\t'] + decimal(self.created as nat) + seq!['\t'] + sanitized(self.dir) + seq![
            '\t',
        ] + sanitized(title_field(self.title)) + seq!['\n']
    }
}

/// The session lines of `sessions`, one after the other.
pub open spec fn session_lines(sessions: Seq<SessionInfoView>) -> Seq<char>
    decreases sessions.len(),
{
    if sessions.len() == 0 {
        Seq::empty()
    } else {
        session_lines(sessions.drop_last()) + sessions.last().encode_line()
    }
}

impl ResponseView {
    /// The text that carries the response.
    pub open spec fn encode(self) -> Seq<char> {
        match self {
            ResponseView::Okay => "ok\n"@,
            ResponseView::Error(msg) => "error: "@ + sanitized(msg) + seq!['\n'],
            ResponseView::Sessions(sessions) => session_lines(sessions) + "ok\n"@,
        }
    }
}

/// Appends the line of one session record to `out`.
fn push_session_line(out: &mut Vec<char>, s: &SessionInfo)
    ensures
        final(out)@ == old(out)@ + s@.encode_line(),
{
    push_sanitized(out, s.id.as_str());
    out.push('\t');
    push_sanitized(out, s.portal.as_str());
    out.push('\t');
    push_sanitized(out, s.operation.as_str());
    out.push('\t');
    let created = u64_to_decimal(s.created);
    push_all(out, created.as_slice());
    out.push('\t');
    push_sanitized(out, s.dir.as_str());
    out.push('\t');
    match &s.title {
        Some(t) => push_sanitized(out, t.as_str()),
        None => {
            assert(sanitized(Seq::<char>::empty()) =~= Seq::<char>::empty());
        },
    }
    out.push('\n');
    assert(out@ =~= old(out)@ + s@.encode_line());
}

impl Response {
    /// Encode response as one or more lines.
    pub fn encode(&self) -> (out: String)
        ensures
            out@ == self@.encode(),
    {
        let mut out: Vec<char> = Vec::new();
        match self {
            Response::Okay => {
                push_str(&mut out, "ok\n");
            },
            Response::Error(msg) => {
                push_str(&mut out, "error: ");
                push_sanitized(&mut out, msg.as_str());
                out.push('\n');
            },
            Response::Sessions(sessions) => {
                let mut i: usize = 0;
                while i < sessions.len()
                    invariant
                        i <= sessions.len(),
                        out@ == session_lines(info_views(sessions@).take(i as int)),
                    decreases sessions.len() - i,
                {
                    push_session_line(&mut out, &sessions[i]);
                    i = i + 1;
                    proof {
                        let all = info_views(sessions@);
                        assert(all.take(i as int).drop_last() =~= all.take(i - 1));
                        assert(all.take(i as int).last() == sessions@[i - 1]@);
                    }
                }
                assert(info_views(sessions@).take(sessions.len() as int) =~= info_views(
                    sessions@,
                ));
                push_str(&mut out, "ok\n");
            },
        }
        assert(out@ =~= self@.encode());
        from_chars(out.as_slice())
    }
}

/// The record that a session line carries. Fewer than five fields, or a
/// fourth field that is no unsigned number, give a message; a sixth field that
/// is missing or empty gives no title.
pub open spec fn decode_session_line(line: Seq<char>) -> Result<SessionInfoView, Seq<char>> {
    let parts = split(line, '\t');
    if parts.len() < 5 {
        Err("expected at least 5 tab-separated fields, got "@ + decimal(parts.len()))
    } else {
        match parse_u64_spec(parts[3]) {
            Err(e) => Err("invalid created timestamp: "@ + e.message_spec()),
            Ok(created) => Ok(
                SessionInfoView {
                    id: parts[0],
                    portal: parts[1],
                    operation: parts[2],
                    title: if parts.len() > 5 && parts[5].len() > 0 {
                        Some(parts[5])
                    } else {
                        None
                    },
                    created,
                    dir: parts[4],
                },
            ),
        }
    }
}

/// Decodes the characters of one session line.
pub fn decode_session_chars(line: &[char]) -> (r: Result<SessionInfo, String>)
    ensures
        match decode_session_line(line@) {
            Ok(v) => r matches Ok(info) && info@ == v,
            Err(m) => r matches Err(e) && e@ == m,
        },
{
    let parts = split_chars(line, '\t');
    assert(vec_views(parts@).len() == parts@.len());
    if parts.len() < 5 {
        let mut msg: Vec<char> = Vec::new();
        push_str(&mut msg, "expected at least 5 tab-separated fields, got ");
        let n = u64_to_decimal(parts.len() as u64);
        push_all(&mut msg, n.as_slice());
        assert(msg@ =~= "expected at least 5 tab-separated fields, got "@ + decimal(
            parts@.len(),
        ));
        return Err(from_chars(msg.as_slice()));
    }
    assert(forall|i: int| 0 <= i < parts@.len() ==> vec_views(parts@)[i] == parts@[i]@);
    let created = match parse_u64(parts[3].as_slice()) {
        Ok(n) => n,
        Err(e) => {
            let mut msg: Vec<char> = Vec::new();
            push_str(&mut msg, "invalid created timestamp: ");
            push_str(&mut msg, e.message());
            assert(msg@ =~= "invalid created timestamp: "@ + e.message_spec());
            return Err(from_chars(msg.as_slice()));
        },
    };
    let title = if parts.len() > 5 && parts[5].len() > 0 {
        Some(from_chars(parts[5].as_slice()))
    } else {
        None
    };
    Ok(
        SessionInfo {
            id: from_chars(parts[0].as_slice()),
            portal: from_chars(parts[1].as_slice()),
            operation: from_chars(parts[2].as_slice()),
            title,
            created,
            dir: from_chars(parts[4].as_slice()),
        },
    )
}

impl SessionInfo {
    /// Parse a tab-separated session info line.
    pub fn decode_line(line: &str) -> (r: Result<SessionInfo, String>)
        ensures
            match decode_session_line(line@) {
                Ok(v) => r matches Ok(info) && info@ == v,
                Err(m) => r matches Err(e) && e@ == m,
            },
    {
        let chars = to_chars(line);
        decode_session_chars(chars.as_slice())
    }
}

} // verus!

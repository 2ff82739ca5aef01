//! The command-line tool, as far as it decides: which request a command
//! sends, how a path becomes a URI, and what is printed for an answer.

use crate::codec::IpcError;
use crate::files::nonempty;
use crate::ipc::protocol::{
    DaemonExtension, DaemonResponseExtension, NoExtension, Request, Response, SessionInfo,
};
use crate::ipc::queue::QueuedCommand;
use crate::number::{decimal, hex_upper, hex_value, u64_to_decimal};
use crate::portal::file_chooser::{is_absolute, join, join_path};
use crate::portal_type::PortalType;
use crate::protocol::opt_view;
use crate::text::{from_chars, has_prefix, push_all, push_str, starts_with_str, to_chars, views};
use vstd::prelude::*;
use vstd::utf8::encode_utf8;

verus! {

/// CLI error type.
#[derive(Debug, Clone)]
pub enum CliError {
    Connection(String),
    Ipc(IpcError),
    Session(String),
    InvalidPath(String),
    InvalidPortal(String),
}

impl CliError {
    /// The message shown for the error.
    pub open spec fn text(self) -> Seq<char> {
        match self {
            CliError::Connection(m) => "connection failed: "@ + m@,
            CliError::Ipc(e) => "IPC error: "@ + e.text(),
            CliError::Session(m) => m@,
            CliError::InvalidPath(m) => "invalid path: "@ + m@,
            CliError::InvalidPortal(m) => "invalid portal type: "@ + m@,
        }
    }

    /// The message shown for the error.
    pub fn to_string(&self) -> (out: String)
        ensures
            out@ == self.text(),
    {
        let mut out: Vec<char> = Vec::new();
        match self {
            CliError::Connection(m) => {
                push_str(&mut out, "connection failed: ");
                push_str(&mut out, m.as_str());
            },
            CliError::Ipc(e) => {
                push_str(&mut out, "IPC error: ");
                let inner = e.to_string();
                push_str(&mut out, inner.as_str());
            },
            CliError::Session(m) => {
                push_str(&mut out, m.as_str());
            },
            CliError::InvalidPath(m) => {
                push_str(&mut out, "invalid path: ");
                push_str(&mut out, m.as_str());
            },
            CliError::InvalidPortal(m) => {
                push_str(&mut out, "invalid portal type: ");
                push_str(&mut out, m.as_str());
            },
        }
        from_chars(out.as_slice())
    }
}

/// What the tool is asked to do.
#[derive(Debug, Clone)]
pub enum Command {
    /// Add files/items to selection.
    Select { items: Vec<String>, stdin: bool },
    /// Remove files/items from selection.
    Deselect { items: Vec<String> },
    /// Clear all selection.
    Clear,
    /// Submit/confirm the selection.
    Submit { portal: Option<String> },
    /// Reset selection to initial defaults.
    Reset,
    /// Cancel the operation.
    Cancel,
}

/// Execution context.
#[derive(Debug, Clone)]
pub enum Context {
    /// Inside a terminal session - talk directly to session socket.
    Session { socket_path: String },
    /// Outside - talk to daemon.
    Daemon,
}

/// The context that the environment tells: inside a session its socket is
/// named, outside nothing is.
pub fn detect_context(session_socket: Option<&str>) -> (c: Context)
    ensures
        match session_socket {
            Some(s) => c matches Context::Session { socket_path } && socket_path@ == s@,
            None => c is Daemon,
        },
{
    match session_socket {
        Some(s) => Context::Session { socket_path: s.to_owned() },
        None => Context::Daemon,
    }
}

/// Get daemon socket path.
pub fn daemon_socket_path(uid: u32) -> (out: String)
    ensures
        out@ == "/tmp/portty/"@ + decimal(uid as nat) + "/daemon.sock"@,
{
    let mut out = to_chars("/tmp/portty/");
    let digits = u64_to_decimal(uid as u64);
    push_all(&mut out, digits.as_slice());
    push_str(&mut out, "/daemon.sock");
    from_chars(out.as_slice())
}

/// Whether a byte is written as `%` and two digits in a `file://` URI: the
/// controls, the space, `"`, `#`, `<`, `>`, `?`, `` ` ``, `{`, `}`, and every
/// byte that is not ASCII.
pub open spec fn needs_escape(b: u8) -> bool {
    b < 0x20 || b >= 0x7f || b == 0x20 || b == 0x22 || b == 0x23 || b == 0x3c || b == 0x3e || b
        == 0x3f || b == 0x60 || b == 0x7b || b == 0x7d
}

/// How one byte stands in a URI: as itself, or as `%` and its two
/// upper-case hexadecimal digits.
pub open spec fn encoded_byte(b: u8) -> Seq<char> {
    if needs_escape(b) {
        seq!['%', hex_upper((b / 16) as nat), hex_upper((b % 16) as nat)]
    } else {
        seq![b as char]
    }
}

/// The percent-encoding of a byte string.
pub open spec fn percent_encoded(bytes: Seq<u8>) -> Seq<char>
    decreases bytes.len(),
{
    if bytes.len() == 0 {
        Seq::empty()
    } else {
        percent_encoded(bytes.drop_last()) + encoded_byte(bytes.last())
    }
}

/// The byte string that a percent-encoded text stands for: `%` and two
/// hexadecimal digits are one byte, any other character is its own byte.
pub open spec fn percent_decoded(text: Seq<char>) -> Seq<u8>
    decreases text.len(),
{
    if text.len() == 0 {
        Seq::empty()
    } else if text[0] == '%' && text.len() >= 3 && hex_value(text[1]) is Some && hex_value(
        text[2],
    ) is Some {
        seq![(hex_value(text[1])->0 * 16 + hex_value(text[2])->0) as u8] + percent_decoded(
            text.skip(3),
        )
    } else {
        seq![text[0] as u8] + percent_decoded(text.skip(1))
    }
}

/// The encoding of a byte and then more bytes is the encoding of the byte,
/// then that of the others.
pub proof fn lemma_encoded_front(b: u8, rest: Seq<u8>)
    ensures
        percent_encoded(seq![b] + rest) == encoded_byte(b) + percent_encoded(rest),
    decreases rest.len(),
{
    let all = seq![b] + rest;
    if rest.len() == 0 {
        assert(all.drop_last() =~= Seq::<u8>::empty());
        assert(all.last() == b);
        assert(percent_encoded(all.drop_last()) =~= Seq::<char>::empty());
        assert(percent_encoded(rest) =~= Seq::<char>::empty());
        assert(percent_encoded(all) =~= encoded_byte(b) + percent_encoded(rest));
    } else {
        assert(all.drop_last() =~= seq![b] + rest.drop_last());
        assert(all.last() == rest.last());
        lemma_encoded_front(b, rest.drop_last());
        assert(percent_encoded(all) =~= encoded_byte(b) + percent_encoded(rest));
    }
}

/// An upper-case hexadecimal digit reads back as its value.
pub proof fn lemma_hex_upper_value(d: nat)
    requires
        d < 16,
    ensures
        hex_value(hex_upper(d)) == Some(d),
        hex_upper(d) != '%',
{
}

/// Encoding a path for a `file://` URI and decoding it gives back the path,
/// byte for byte, for every path that holds no `%`.
pub proof fn law_percent_round_trip(bytes: Seq<u8>)
    requires
        forall|i: int| 0 <= i < bytes.len() ==> #[trigger] bytes[i] != 0x25,
    ensures
        percent_decoded(percent_encoded(bytes)) == bytes,
    decreases bytes.len(),
{
    if bytes.len() > 0 {
        let b = bytes[0];
        let rest = bytes.drop_first();
        assert(bytes =~= seq![b] + rest);
        lemma_encoded_front(b, rest);
        assert forall|i: int| 0 <= i < rest.len() implies #[trigger] rest[i] != 0x25 by {
            assert(rest[i] == bytes[i + 1]);
        }
        law_percent_round_trip(rest);
        let text = percent_encoded(bytes);
        let tail = percent_encoded(rest);
        if needs_escape(b) {
            lemma_hex_upper_value((b / 16) as nat);
            lemma_hex_upper_value((b % 16) as nat);
            assert(text[0] == '%');
            assert(text[1] == hex_upper((b / 16) as nat));
            assert(text[2] == hex_upper((b % 16) as nat));
            assert(text.skip(3) =~= tail);
            assert(((b / 16) * 16 + b % 16) as u8 == b);
        } else {
            assert(text[0] == b as char);
            assert(text[0] != '%');
            assert(text.skip(1) =~= tail);
            assert((b as char) as u8 == b);
        }
        assert(percent_decoded(text) =~= seq![b] + rest);
    } else {
        assert(percent_encoded(bytes) =~= Seq::<char>::empty());
    }
}

/// `percent_encoding::percent_encode_byte` gives the escape of a byte: `%`
/// and the two upper-case hexadecimal digits of its value.
pub assume_specification[ percent_encoding::percent_encode_byte ](byte: u8) -> (out: &'static str)
    ensures
        out@ == seq!['%', hex_upper((byte / 16) as nat), hex_upper((byte % 16) as nat)],
;

/// Whether a byte is written as `%` and two digits.
fn escapes(b: u8) -> (r: bool)
    ensures
        r == needs_escape(b),
{
    b < 0x20 || b >= 0x7f || b == 0x20 || b == 0x22 || b == 0x23 || b == 0x3c || b == 0x3e || b
        == 0x3f || b == 0x60 || b == 0x7b || b == 0x7d
}

/// Appends the percent-encoding of `bytes` to `out`.
pub fn push_percent_encoded(out: &mut Vec<char>, bytes: &[u8])
    ensures
        final(out)@ == old(out)@ + percent_encoded(bytes@),
{
    let mut i: usize = 0;
    proof {
        assert(bytes@.take(0) =~= Seq::<u8>::empty());
        assert(out@ =~= old(out)@ + percent_encoded(bytes@.take(0)));
    }
    while i < bytes.len()
        invariant
            i <= bytes.len(),
            out@ == old(out)@ + percent_encoded(bytes@.take(i as int)),
        decreases bytes.len() - i,
    {
        let b = bytes[i];
        let ghost before = out@;
        if escapes(b) {
            push_str(out, percent_encoding::percent_encode_byte(b));
        } else {
            out.push(b as char);
        }
        proof {
            let now = bytes@.take(i + 1);
            assert(now.drop_last() =~= bytes@.take(i as int));
            assert(now.last() == b);
            assert(out@ =~= before + encoded_byte(b));
            assert(out@ =~= old(out)@ + percent_encoded(now));
        }
        i = i + 1;
    }
    assert(bytes@.take(bytes.len() as int) =~= bytes@);
}

/// Whether an argument is a URI already: it starts with `file://`,
/// `http://` or `https://`.
pub open spec fn is_uri(arg: Seq<char>) -> bool {
    has_prefix(arg, "file://"@) || has_prefix(arg, "http://"@) || has_prefix(arg, "https://"@)
}

/// The `file://` URI of a path: its UTF-8 bytes, percent-encoded.
pub open spec fn path_uri(path: Seq<char>) -> Seq<char> {
    "file://"@ + percent_encoded(encode_utf8(path))
}

/// The URI that an argument stands for: itself if it is a URI; else the URI
/// of the path, which is taken from the working directory `cwd` if it is
/// relative. Without a working directory a relative path has no URI.
pub open spec fn uri_of(arg: Seq<char>, cwd: Option<Seq<char>>) -> Option<Seq<char>> {
    if is_uri(arg) {
        Some(arg)
    } else if is_absolute(arg) {
        Some(path_uri(arg))
    } else {
        match cwd {
            Some(dir) => Some(path_uri(join_path(dir, arg))),
            None => None,
        }
    }
}

/// What is said of a relative path when there is no working directory:
/// that it could not be had, and why.
pub open spec fn no_dir_text(cwd: Result<&str, &str>) -> Seq<char> {
    match cwd {
        Ok(_) => Seq::empty(),
        Err(why) => "failed to get current directory: "@ + why@,
    }
}

/// Convert path to file:// URI. `cwd` is the working directory, or why it
/// could not be had.
pub fn to_uri(arg: &str, cwd: Result<&str, &str>) -> (r: Result<String, CliError>)
    ensures
        match uri_of(arg@, given_dir(cwd)) {
            Some(uri) => r matches Ok(u) && u@ == uri,
            None => r matches Err(CliError::InvalidPath(m)) && m@ == no_dir_text(cwd),
        },
{
    let chars = to_chars(arg);
    if starts_with_str(chars.as_slice(), "file://") || starts_with_str(
        chars.as_slice(),
        "http://",
    ) || starts_with_str(chars.as_slice(), "https://") {
        return Ok(arg.to_owned());
    }
    let path = if chars.len() > 0 && chars[0] == '/' {
        arg.to_owned()
    } else {
        match cwd {
            Ok(dir) => join(dir, arg),
            Err(why) => {
                let mut msg = to_chars("failed to get current directory: ");
                push_str(&mut msg, why);
                return Err(CliError::InvalidPath(from_chars(msg.as_slice())));
            },
        }
    };
    let mut out = to_chars("file://");
    push_percent_encoded(&mut out, path.as_str().as_bytes());
    Ok(from_chars(out.as_slice()))
}

/// The URIs of all items, or the error of the first that has none.
pub open spec fn uris_of(items: Seq<Seq<char>>, cwd: Option<Seq<char>>) -> Option<Seq<Seq<char>>>
    decreases items.len(),
{
    if items.len() == 0 {
        Some(Seq::empty())
    } else {
        match (uris_of(items.drop_last(), cwd), uri_of(items.last(), cwd)) {
            (Some(head), Some(last)) => Some(head.push(last)),
            _ => None,
        }
    }
}

/// The items that a command names: the non-empty lines of standard input
/// if `stdin` is set, else the items on the command line.
pub open spec fn named_items(items: Seq<Seq<char>>, stdin: bool, lines: Seq<Seq<char>>) -> Seq<
    Seq<char>,
> {
    if stdin {
        nonempty(lines)
    } else {
        items
    }
}

/// The lines that are not empty, in order.
fn nonempty_lines(lines: &[String]) -> (out: Vec<String>)
    ensures
        views(out@) == nonempty(views(lines@)),
{
    let mut out: Vec<String> = Vec::new();
    let mut i: usize = 0;
    proof {
        reveal(Seq::filter);
        assert(views(lines@).take(0) =~= Seq::<Seq<char>>::empty());
        assert(views(out@) =~= nonempty(views(lines@).take(0)));
    }
    while i < lines.len()
        invariant
            i <= lines.len(),
            views(out@) == nonempty(views(lines@).take(i as int)),
        decreases lines.len() - i,
    {
        let ghost before = views(out@);
        proof {
            reveal(Seq::filter);
            let now = views(lines@).take(i + 1);
            assert(now.drop_last() =~= views(lines@).take(i as int));
            assert(now.last() == lines@[i as int]@);
        }
        if lines[i].as_str().unicode_len() > 0 {
            out.push(lines[i].clone());
            proof {
                assert(views(out@) =~= before.push(lines@[i as int]@));
            }
        }
        i = i + 1;
    }
    assert(views(lines@).take(lines.len() as int) =~= views(lines@));
    out
}

/// Parse items to URIs. The items are those on the command line, or with
/// `stdin` the non-empty ones among `lines`, the lines of standard input.
pub fn parse_items(items: &[String], stdin: bool, lines: &[String], cwd: Result<&str, &str>) -> (r:
    Result<Vec<String>, CliError>)
    ensures
        match uris_of(named_items(views(items@), stdin, views(lines@)), given_dir(cwd)) {
            Some(uris) => r matches Ok(v) && views(v@) == uris,
            None => r matches Err(CliError::InvalidPath(m)) && m@ == no_dir_text(cwd),
        },
{
    if stdin {
        let named = nonempty_lines(lines);
        convert_items(named.as_slice(), cwd)
    } else {
        convert_items(items, cwd)
    }
}

/// The URIs of all items, or the error of the first that has none.
fn convert_items(items: &[String], cwd: Result<&str, &str>) -> (r: Result<Vec<String>, CliError>)
    ensures
        match uris_of(views(items@), given_dir(cwd)) {
            Some(uris) => r matches Ok(v) && views(v@) == uris,
            None => r matches Err(CliError::InvalidPath(m)) && m@ == no_dir_text(cwd),
        },
{
    let ghost dir: Option<Seq<char>> = given_dir(cwd);
    let mut out: Vec<String> = Vec::new();
    let mut i: usize = 0;
    proof {
        assert(views(items@).take(0) =~= Seq::<Seq<char>>::empty());
        assert(views(out@) =~= Seq::<Seq<char>>::empty());
    }
    while i < items.len()
        invariant
            i <= items.len(),
            dir == given_dir(cwd),
            uris_of(views(items@).take(i as int), dir) == Some(views(out@)),
        decreases items.len() - i,
    {
        let ghost before = views(out@);
        proof {
            let now = views(items@).take(i + 1);
            assert(now.drop_last() =~= views(items@).take(i as int));
            assert(now.last() == items@[i as int]@);
        }
        match to_uri(items[i].as_str(), cwd) {
            Ok(u) => {
                out.push(u);
                proof {
                    assert(views(out@) =~= before.push(u@));
                }
            },
            Err(e) => {
                proof {
                    lemma_uris_none(views(items@), dir, i as int);
                }
                return Err(e);
            },
        }
        i = i + 1;
    }
    assert(views(items@).take(items.len() as int) =~= views(items@));
    Ok(out)
}

/// Once one item has no URI, the items as a whole have none.
pub proof fn lemma_uris_none(items: Seq<Seq<char>>, cwd: Option<Seq<char>>, i: int)
    requires
        0 <= i < items.len(),
        uri_of(items[i], cwd) is None,
    ensures
        uris_of(items, cwd) is None,
    decreases items.len(),
{
    if i < items.len() - 1 {
        lemma_uris_none(items.drop_last(), cwd, i);
    }
}

/// What the tool prints, and how it ends.
#[derive(Debug, Clone)]
pub struct Output {
    /// The exit code: 0 for success, 1 for any error.
    pub code: u8,
    /// The lines for standard output.
    pub stdout: Vec<String>,
    /// The lines for standard error.
    pub stderr: Vec<String>,
}

/// Whether `o` is the output of a failure: the one line on standard error,
/// exit code 1.
pub open spec fn is_failure(o: Output, line: Seq<char>) -> bool {
    o.code == 1 && o.stdout@.len() == 0 && views(o.stderr@) == seq![line]
}

/// The output of a failure: one line on standard error, exit code 1.
pub fn failure(head: &str, detail: &str) -> (o: Output)
    ensures
        is_failure(o, head@ + detail@),
{
    let mut line = to_chars(head);
    push_str(&mut line, detail);
    let mut stderr: Vec<String> = Vec::new();
    stderr.push(from_chars(line.as_slice()));
    assert(views(stderr@) =~= seq![head@ + detail@]);
    Output { code: 1, stdout: Vec::new(), stderr }
}

/// The output for an answer of a kind that was not asked for.
fn unexpected() -> (o: Output)
    ensures
        is_failure(o, "Unexpected response"@),
{
    let o = failure("Unexpected response", "");
    proof {
        reveal_strlit("");
        assert("Unexpected response"@ + ""@ =~= "Unexpected response"@);
    }
    o
}

/// The output for an exchange that failed: the error's message.
fn failed(e: &CliError) -> (o: Output)
    ensures
        is_failure(o, e.text()),
{
    let text = e.to_string();
    let o = failure("", text.as_str());
    proof {
        reveal_strlit("");
        assert(""@ + text@ =~= text@);
    }
    o
}

/// The output for items that have no URI.
fn refused(e: &CliError) -> (o: Output)
    ensures
        is_failure(o, "Error: "@ + e.text()),
{
    let text = e.to_string();
    failure("Error: ", text.as_str())
}

/// The output of a success: the lines on standard output, exit code 0.
pub fn success(lines: Vec<String>) -> (o: Output)
    ensures
        o.code == 0,
        o.stdout == lines,
        o.stderr@.len() == 0,
{
    Output { code: 0, stdout: lines, stderr: Vec::new() }
}

/// The line that lists a session: its identifier, its portal in brackets,
/// its title.
pub open spec fn session_line(indent: Seq<char>, s: SessionInfo) -> Seq<char> {
    indent + s.id@ + " ["@ + s.portal.name() + "] "@ + match s.title {
        Some(t) => t@,
        None => Seq::empty(),
    }
}

/// The line that lists a session.
pub fn session_text(indent: &str, s: &SessionInfo) -> (out: String)
    ensures
        out@ == session_line(indent@, *s),
{
    let mut line = to_chars(indent);
    push_str(&mut line, s.id.as_str());
    push_str(&mut line, " [");
    push_str(&mut line, s.portal.as_str());
    push_str(&mut line, "] ");
    match &s.title {
        Some(t) => push_str(&mut line, t.as_str()),
        None => {
            assert(line@ + Seq::<char>::empty() =~= line@);
        },
    }
    from_chars(line.as_slice())
}

/// The lines that list sessions.
pub open spec fn session_lines(indent: Seq<char>, sessions: Seq<SessionInfo>) -> Seq<Seq<char>> {
    Seq::new(sessions.len(), |i: int| session_line(indent, sessions[i]))
}

/// The lines that list sessions.
fn list_sessions(indent: &str, sessions: &[SessionInfo]) -> (out: Vec<String>)
    ensures
        views(out@) == session_lines(indent@, sessions@),
{
    let mut out: Vec<String> = Vec::new();
    let mut i: usize = 0;
    while i < sessions.len()
        invariant
            i <= sessions.len(),
            out@.len() == i,
            forall|j: int| 0 <= j < i ==> (#[trigger] out@[j])@ == session_line(
                indent@,
                sessions@[j],
            ),
        decreases sessions.len() - i,
    {
        out.push(session_text(indent, &sessions[i]));
        i = i + 1;
    }
    assert(views(out@) =~= session_lines(indent@, sessions@));
    out
}

/// List active sessions: what is printed for the daemon's answer.
pub fn cmd_list(reply: Result<Response<DaemonResponseExtension>, CliError>) -> (o: Output)
    ensures
        match reply {
            Ok(Response::Extended(DaemonResponseExtension::Sessions(sessions))) => o.code == 0
                && o.stderr@.len() == 0 && views(o.stdout@) == if sessions@.len() == 0 {
                seq!["No active sessions"@]
            } else {
                session_lines(Seq::empty(), sessions@)
            },
            Ok(Response::Error(e)) => is_failure(o, "Error: "@ + e@),
            Ok(_) => is_failure(o, "Unexpected response"@),
            Err(e) => is_failure(o, e.text()),
        },
{
    match reply {
        Ok(Response::Extended(DaemonResponseExtension::Sessions(sessions))) => {
            if sessions.len() == 0 {
                let mut lines: Vec<String> = Vec::new();
                lines.push("No active sessions".to_owned());
                assert(views(lines@) =~= seq!["No active sessions"@]);
                success(lines)
            } else {
                let lines = list_sessions("", sessions.as_slice());
                proof {
                    reveal_strlit("");
                    assert(""@ =~= Seq::<char>::empty());
                }
                success(lines)
            }
        },
        Ok(Response::Error(e)) => failure("Error: ", e.as_str()),
        Ok(_) => unexpected(),
        Err(e) => failed(&e),
    }
}

/// The number and the dot in front of a command, if it has a number.
pub open spec fn numbering(num: nat) -> Seq<char> {
    if num > 0 {
        decimal(num) + ". "@
    } else {
        Seq::empty()
    }
}

/// The lines that name the items of a command: the indent, two spaces, the
/// item.
pub open spec fn item_lines(indent: Seq<char>, items: Seq<Seq<char>>) -> Seq<Seq<char>> {
    Seq::new(items.len(), |i: int| indent + "  "@ + items[i])
}

/// The lines that show a queued command: a head line that names the
/// command, numbered if `num` is not zero, and for select and deselect one
/// line per item.
pub open spec fn command_lines(num: nat, cmd: QueuedCommand, indent: Seq<char>) -> Seq<Seq<char>> {
    match cmd {
        QueuedCommand::Select(items) => seq![
            indent + numbering(num) + "select "@ + decimal(items@.len()) + " item(s)"@,
        ] + item_lines(indent, views(items@)),
        QueuedCommand::Deselect(items) => seq![
            indent + numbering(num) + "deselect "@ + decimal(items@.len()) + " item(s)"@,
        ] + item_lines(indent, views(items@)),
        QueuedCommand::Clear => seq![indent + numbering(num) + "clear"@],
    }
}

/// The lines that show a queued command.
pub fn print_command(num: usize, cmd: &QueuedCommand, indent: &str) -> (out: Vec<String>)
    ensures
        views(out@) == command_lines(num as nat, *cmd, indent@),
{
    let mut head = to_chars(indent);
    let ghost start = head@;
    if num > 0 {
        let n = u64_to_decimal(num as u64);
        push_all(&mut head, n.as_slice());
        push_str(&mut head, ". ");
        assert(head@ =~= start + numbering(num as nat));
    } else {
        assert(head@ =~= start + numbering(num as nat));
    }
    let ghost numbered = head@;
    let mut out: Vec<String> = Vec::new();
    match cmd {
        QueuedCommand::Select(items) => {
            push_str(&mut head, "select ");
            let n = u64_to_decimal(items.len() as u64);
            push_all(&mut head, n.as_slice());
            push_str(&mut head, " item(s)");
            assert(head@ =~= indent@ + numbering(num as nat) + "select "@ + decimal(
                items@.len(),
            ) + " item(s)"@);
            out.push(from_chars(head.as_slice()));
            assert(views(out@) =~= seq![head@]);
            push_items(&mut out, indent, items.as_slice());
            assert(views(out@) =~= command_lines(num as nat, *cmd, indent@));
        },
        QueuedCommand::Deselect(items) => {
            push_str(&mut head, "deselect ");
            let n = u64_to_decimal(items.len() as u64);
            push_all(&mut head, n.as_slice());
            push_str(&mut head, " item(s)");
            assert(head@ =~= indent@ + numbering(num as nat) + "deselect "@ + decimal(
                items@.len(),
            ) + " item(s)"@);
            out.push(from_chars(head.as_slice()));
            assert(views(out@) =~= seq![head@]);
            push_items(&mut out, indent, items.as_slice());
            assert(views(out@) =~= command_lines(num as nat, *cmd, indent@));
        },
        QueuedCommand::Clear => {
            push_str(&mut head, "clear");
            out.push(from_chars(head.as_slice()));
            assert(views(out@) =~= command_lines(num as nat, *cmd, indent@));
        },
    }
    out
}

/// Appends one line per item: the indent, two spaces, the item.
fn push_items(out: &mut Vec<String>, indent: &str, items: &[String])
    ensures
        views(final(out)@) == views(old(out)@) + item_lines(indent@, views(items@)),
{
    let mut i: usize = 0;
    proof {
        assert(views(out@) =~= views(old(out)@) + item_lines(indent@, views(items@)).take(0));
    }
    while i < items.len()
        invariant
            i <= items.len(),
            views(out@) == views(old(out)@) + item_lines(indent@, views(items@)).take(i as int),
        decreases items.len() - i,
    {
        let ghost before = views(out@);
        let mut line = to_chars(indent);
        push_str(&mut line, "  ");
        push_str(&mut line, items[i].as_str());
        out.push(from_chars(line.as_slice()));
        proof {
            let all = item_lines(indent@, views(items@));
            assert(line@ =~= indent@ + "  "@ + items@[i as int]@);
            assert(views(out@) =~= before.push(line@));
            assert(all.take(i + 1) =~= all.take(i as int).push(all[i as int]));
        }
        i = i + 1;
    }
    assert(item_lines(indent@, views(items@)).take(items.len() as int) =~= item_lines(
        indent@,
        views(items@),
    ));
}

/// The request that asks for a session: the one named, or the list of all.
pub fn get_session(session_id: Option<String>) -> (req: Request<DaemonExtension>)
    ensures
        match session_id {
            Some(id) => req == Request::Extended(DaemonExtension::GetSession(id)),
            None => req == Request::<DaemonExtension>::Extended(DaemonExtension::ListSessions),
        },
{
    match session_id {
        Some(id) => Request::Extended(DaemonExtension::GetSession(id)),
        None => Request::Extended(DaemonExtension::ListSessions),
    }
}

/// Whether `r` is what the answer to a question after sessions leads to:
/// the session and nothing to print, or the error and what is printed
/// before it. Asked by identifier, only a single session answers the
/// question; asked for the list, only a list does, and it must hold exactly
/// one session. An error answer is passed on; any other answer was not
/// expected.
pub open spec fn session_picked(
    by_id: bool,
    reply: Response<DaemonResponseExtension>,
    r: (Result<SessionInfo, CliError>, Vec<String>),
) -> bool {
    match reply {
        Response::Extended(DaemonResponseExtension::Session(info)) => if by_id {
            r.0 == Ok::<SessionInfo, CliError>(info) && r.1@.len() == 0
        } else {
            is_session_error(r.0, "unexpected response"@) && r.1@.len() == 0
        },
        Response::Extended(DaemonResponseExtension::Sessions(sessions)) => if by_id {
            is_session_error(r.0, "unexpected response"@) && r.1@.len() == 0
        } else if sessions@.len() == 0 {
            is_session_error(r.0, "no active sessions"@) && r.1@.len() == 0
        } else if sessions@.len() == 1 {
            r.0 matches Ok(info) && info.id@ == sessions@[0].id@ && info.portal
                == sessions@[0].portal && opt_view(info.title) == opt_view(sessions@[0].title)
                && info.created == sessions@[0].created && info.socket_path@
                == sessions@[0].socket_path@ && r.1@.len() == 0
        } else {
            is_session_error(r.0, "multiple sessions active"@) && views(r.1@) == seq![
                "Multiple sessions active, choose with --session:"@,
            ] + session_lines("  "@, sessions@)
        },
        Response::Error(e) => r.0 == Err::<SessionInfo, CliError>(CliError::Session(e))
            && r.1@.len() == 0,
        _ => is_session_error(r.0, "unexpected response"@) && r.1@.len() == 0,
    }
}

/// Whether `r` is the session error with the message `text`.
pub open spec fn is_session_error(r: Result<SessionInfo, CliError>, text: Seq<char>) -> bool {
    r matches Err(CliError::Session(m)) && m@ == text
}

/// The session that the daemon's answer names, or why there is none, with
/// the lines to print on standard error. `by_id` tells whether the session
/// was asked for by its identifier or the list of sessions was asked for.
pub fn pick_session(by_id: bool, reply: Response<DaemonResponseExtension>) -> (r: (
    Result<SessionInfo, CliError>,
    Vec<String>,
))
    ensures
        session_picked(by_id, reply, r),
{
    match reply {
        Response::Extended(DaemonResponseExtension::Session(info)) => {
            if by_id {
                (Ok(info), Vec::new())
            } else {
                (Err(CliError::Session("unexpected response".to_owned())), Vec::new())
            }
        },
        Response::Extended(DaemonResponseExtension::Sessions(sessions)) => {
            if by_id {
                (Err(CliError::Session("unexpected response".to_owned())), Vec::new())
            } else if sessions.len() == 0 {
                (Err(CliError::Session("no active sessions".to_owned())), Vec::new())
            } else if sessions.len() == 1 {
                let s = &sessions[0];
                (
                    Ok(
                        SessionInfo {
                            id: s.id.clone(),
                            portal: s.portal,
                            title: match &s.title {
                                Some(t) => Some(t.clone()),
                                None => None,
                            },
                            created: s.created,
                            socket_path: s.socket_path.clone(),
                        },
                    ),
                    Vec::new(),
                )
            } else {
                let mut lines: Vec<String> = Vec::new();
                lines.push("Multiple sessions active, choose with --session:".to_owned());
                let mut listed = list_sessions("  ", sessions.as_slice());
                let ghost shown = views(listed@);
                lines.append(&mut listed);
                assert(views(lines@) =~= seq![
                    "Multiple sessions active, choose with --session:"@,
                ] + shown);
                (Err(CliError::Session("multiple sessions active".to_owned())), lines)
            }
        },
        Response::Error(e) => (Err(CliError::Session(e)), Vec::new()),
        _ => (Err(CliError::Session("unexpected response".to_owned())), Vec::new()),
    }
}

/// The working directory that the tool was given, if it was given one.
pub open spec fn given_dir(cwd: Result<&str, &str>) -> Option<Seq<char>> {
    match cwd {
        Ok(d) => Some(d@),
        Err(_) => None,
    }
}

/// Whether `r` is the session request for the command `cmd`: select with
/// items selects their URIs, select without shows the selection; deselect
/// deselects; the others map one to one. Items without a URI are an error.
pub open spec fn session_request_for(
    cmd: Command,
    lines: Seq<Seq<char>>,
    cwd: Result<&str, &str>,
    r: Result<Request<NoExtension>, CliError>,
) -> bool {
    match cmd {
        Command::Select { items, stdin } => match uris_of(
            named_items(views(items@), stdin, lines),
            given_dir(cwd),
        ) {
            Some(uris) => if uris.len() == 0 {
                r matches Ok(Request::GetSelection)
            } else {
                r matches Ok(Request::Select(v)) && views(v@) == uris
            },
            None => r matches Err(CliError::InvalidPath(m)) && m@ == no_dir_text(cwd),
        },
        Command::Deselect { items } => match uris_of(views(items@), given_dir(cwd)) {
            Some(uris) => r matches Ok(Request::Deselect(v)) && views(v@) == uris,
            None => r matches Err(CliError::InvalidPath(m)) && m@ == no_dir_text(cwd),
        },
        Command::Clear => r matches Ok(Request::Clear),
        Command::Reset => r matches Ok(Request::Reset),
        Command::Submit { portal } => r matches Ok(Request::Submit),
        Command::Cancel => r matches Ok(Request::Cancel),
    }
}

/// The session request for a command, inside a session. `lines` are the
/// lines of standard input, which a select reads when it is told to.
pub fn run_session_command(cmd: &Command, lines: &[String], cwd: Result<&str, &str>) -> (r: Result<
    Request<NoExtension>,
    CliError,
>)
    ensures
        session_request_for(*cmd, views(lines@), cwd, r),
{
    match cmd {
        Command::Select { items, stdin } => {
            match parse_items(items.as_slice(), *stdin, lines, cwd) {
                Ok(uris) => {
                    assert(views(uris@).len() == uris@.len());
                    if uris.len() == 0 {
                        Ok(Request::GetSelection)
                    } else {
                        Ok(Request::Select(uris))
                    }
                },
                Err(e) => Err(e),
            }
        },
        Command::Deselect { items } => {
            match parse_items(items.as_slice(), false, lines, cwd) {
                Ok(uris) => Ok(Request::Deselect(uris)),
                Err(e) => Err(e),
            }
        },
        Command::Clear => Ok(Request::Clear),
        Command::Reset => Ok(Request::Reset),
        Command::Submit { portal } => Ok(Request::Submit),
        Command::Cancel => Ok(Request::Cancel),
    }
}

/// What is printed for a session's answer: the selection line by line, the
/// title and flags of the options, or the error.
pub fn session_output(reply: Result<Response<NoExtension>, CliError>) -> (o: Output)
    ensures
        match reply {
            Ok(Response::Okay) => o.code == 0 && o.stdout@.len() == 0 && o.stderr@.len() == 0,
            Ok(Response::Selection(uris)) => o.code == 0 && o.stdout == uris,
            Ok(Response::Options(opts)) => o.code == 0 && views(o.stdout@) == seq![
                "Title: "@ + opts.title@,
                "Multiple: "@ + crate::text::bool_text(
                    opts.mode matches crate::ipc::file_chooser::SelectionMode::Pick {
                        multiple: true,
                        ..
                    },
                ),
                "Directory: "@ + crate::text::bool_text(
                    opts.mode matches crate::ipc::file_chooser::SelectionMode::Pick {
                        directory: true,
                        ..
                    },
                ),
            ],
            Ok(Response::Error(e)) => is_failure(o, "Error: "@ + e@),
            Ok(Response::Extended(_)) => is_failure(o, "Unexpected response"@),
            Err(e) => is_failure(o, e.text()),
        },
{
    match reply {
        Ok(Response::Okay) => success(Vec::new()),
        Ok(Response::Selection(uris)) => success(uris),
        Ok(Response::Options(opts)) => {
            let mut lines: Vec<String> = Vec::new();
            let mut title = to_chars("Title: ");
            push_str(&mut title, opts.title.as_str());
            lines.push(from_chars(title.as_slice()));
            let (multiple, directory) = match opts.mode {
                crate::ipc::file_chooser::SelectionMode::Pick { multiple, directory } => (
                    multiple,
                    directory,
                ),
                _ => (false, false),
            };
            let mut m = to_chars("Multiple: ");
            push_str(&mut m, crate::text::bool_string(multiple).as_str());
            lines.push(from_chars(m.as_slice()));
            let mut d = to_chars("Directory: ");
            push_str(&mut d, crate::text::bool_string(directory).as_str());
            lines.push(from_chars(d.as_slice()));
            assert(views(lines@) =~= seq![title@, m@, d@]);
            success(lines)
        },
        Ok(Response::Error(e)) => failure("Error: ", e.as_str()),
        Ok(Response::Extended(_)) => unexpected(),
        Err(e) => failed(&e),
    }
}

/// What the tool does for a command outside a session.
#[derive(Debug, Clone)]
pub enum DaemonAction {
    /// Send the request to the daemon; on `ok` print the message.
    Send { request: Request<DaemonExtension>, done: String },
    /// Show the selection of the active session.
    ShowSelection,
    /// Stop with this output.
    Fail(Output),
}

/// The message printed once the daemon accepted a submit.
pub open spec fn submitted_text(portal: Option<PortalType>) -> Seq<char> {
    "Submitted for ["@ + match portal {
        Some(p) => p.name(),
        None => "any"@,
    } + "]"@
}

/// Whether `a` is what the tool does for the command `cmd` outside a
/// session. Select and deselect queue the URIs of their items, select
/// without items shows the selection of the active session, clear queues a
/// clear, reset asks the session to reset, submit freezes the queue for a
/// portal or any, cancel clears what is pending. Items without a URI and an
/// unknown portal stop the tool.
pub open spec fn daemon_action_for(
    cmd: Command,
    lines: Seq<Seq<char>>,
    cwd: Result<&str, &str>,
    a: DaemonAction,
) -> bool {
    match cmd {
        Command::Select { items, stdin } => match uris_of(
            named_items(views(items@), stdin, lines),
            given_dir(cwd),
        ) {
            Some(uris) => if uris.len() == 0 {
                a is ShowSelection
            } else {
                a matches DaemonAction::Send {
                    request: Request::Extended(DaemonExtension::QueuePush(QueuedCommand::Select(v))),
                    done,
                } && views(v@) == uris && done@ == "Queued select"@
            },
            None => a matches DaemonAction::Fail(o) && is_failure(
                o,
                "Error: invalid path: "@ + no_dir_text(cwd),
            ),
        },
        Command::Deselect { items } => match uris_of(views(items@), given_dir(cwd)) {
            Some(uris) => a matches DaemonAction::Send {
                request: Request::Extended(DaemonExtension::QueuePush(QueuedCommand::Deselect(v))),
                done,
            } && views(v@) == uris && done@ == "Queued deselect"@,
            None => a matches DaemonAction::Fail(o) && is_failure(
                o,
                "Error: invalid path: "@ + no_dir_text(cwd),
            ),
        },
        Command::Clear => a matches DaemonAction::Send {
            request: Request::Extended(DaemonExtension::QueuePush(QueuedCommand::Clear)),
            done,
        } && done@ == "Queued clear"@,
        Command::Reset => a matches DaemonAction::Send { request: Request::Reset, done } && done@
            == "Reset to defaults"@,
        Command::Submit { portal } => match portal {
            None => a matches DaemonAction::Send {
                request: Request::Extended(DaemonExtension::QueueSubmit { portal: None }),
                done,
            } && done@ == submitted_text(None),
            Some(name) => if name@ == "file-chooser"@ || name@ == "screenshot"@ {
                a matches DaemonAction::Send {
                    request: Request::Extended(DaemonExtension::QueueSubmit { portal: Some(p) }),
                    done,
                } && p.name() == name@ && done@ == submitted_text(Some(p))
            } else {
                a matches DaemonAction::Fail(o) && is_failure(
                    o,
                    "Error: invalid portal type: unknown portal type: "@ + name@,
                )
            },
        },
        Command::Cancel => a matches DaemonAction::Send {
            request: Request::Extended(DaemonExtension::QueueClearPending),
            done,
        } && done@ == "Cleared pending commands"@,
    }
}

/// The line that reports an invalid path, put together.
proof fn lemma_invalid_path_line(m: Seq<char>)
    ensures
        "Error: "@ + ("invalid path: "@ + m) == "Error: invalid path: "@ + m,
{
    reveal_strlit("Error: ");
    reveal_strlit("invalid path: ");
    reveal_strlit("Error: invalid path: ");
    assert("Error: "@ + "invalid path: "@ =~= "Error: invalid path: "@);
    assert("Error: "@ + ("invalid path: "@ + m) =~= ("Error: "@ + "invalid path: "@) + m);
}

/// Run command via daemon (queue mode, outside terminal): what is to be
/// done.
pub fn run_daemon_command(cmd: &Command, lines: &[String], cwd: Result<&str, &str>) -> (a:
    DaemonAction)
    ensures
        daemon_action_for(*cmd, views(lines@), cwd, a),
{
    match cmd {
        Command::Select { items, stdin } => {
            match parse_items(items.as_slice(), *stdin, lines, cwd) {
                Ok(uris) => {
                    assert(views(uris@).len() == uris@.len());
                    if uris.len() == 0 {
                        DaemonAction::ShowSelection
                    } else {
                        DaemonAction::Send {
                            request: Request::Extended(
                                DaemonExtension::QueuePush(QueuedCommand::Select(uris)),
                            ),
                            done: "Queued select".to_owned(),
                        }
                    }
                },
                Err(e) => {
                    proof {
                        lemma_invalid_path_line(no_dir_text(cwd));
                    }
                    DaemonAction::Fail(refused(&e))
                },
            }
        },
        Command::Deselect { items } => {
            match parse_items(items.as_slice(), false, lines, cwd) {
                Ok(uris) => DaemonAction::Send {
                    request: Request::Extended(
                        DaemonExtension::QueuePush(QueuedCommand::Deselect(uris)),
                    ),
                    done: "Queued deselect".to_owned(),
                },
                Err(e) => {
                    proof {
                        lemma_invalid_path_line(no_dir_text(cwd));
                    }
                    DaemonAction::Fail(refused(&e))
                },
            }
        },
        Command::Clear => DaemonAction::Send {
            request: Request::Extended(DaemonExtension::QueuePush(QueuedCommand::Clear)),
            done: "Queued clear".to_owned(),
        },
        Command::Reset => DaemonAction::Send {
            request: Request::Reset,
            done: "Reset to defaults".to_owned(),
        },
        Command::Submit { portal } => {
            let portal_type = match portal {
                Some(name) => match PortalType::parse(name.as_str()) {
                    Ok(p) => Some(p),
                    Err(e) => {
                        let wrapped = CliError::InvalidPortal(e.to_string());
                        let text = wrapped.to_string();
                        let out = failure("Error: ", text.as_str());
                        proof {
                            reveal_strlit("Error: ");
                            reveal_strlit("invalid portal type: ");
                            reveal_strlit("unknown portal type: ");
                            reveal_strlit("Error: invalid portal type: unknown portal type: ");
                            assert(text@ =~= "invalid portal type: "@ + ("unknown portal type: "@
                                + name@));
                            assert("Error: "@ + text@
                                =~= "Error: invalid portal type: unknown portal type: "@ + name@);
                        }
                        return DaemonAction::Fail(out);
                    },
                },
                None => None,
            };
            let mut done = to_chars("Submitted for [");
            match portal_type {
                Some(p) => push_str(&mut done, p.as_str()),
                None => push_str(&mut done, "any"),
            }
            push_str(&mut done, "]");
            DaemonAction::Send {
                request: Request::Extended(DaemonExtension::QueueSubmit { portal: portal_type }),
                done: from_chars(done.as_slice()),
            }
        },
        Command::Cancel => DaemonAction::Send {
            request: Request::Extended(DaemonExtension::QueueClearPending),
            done: "Cleared pending commands".to_owned(),
        },
    }
}

/// What is printed for the daemon's answer to a request of
/// `run_daemon_command`: the message on `ok`, else the error.
pub fn daemon_output(done: &str, reply: Result<Response<DaemonResponseExtension>, CliError>) -> (o:
    Output)
    ensures
        match reply {
            Ok(Response::Okay) => o.code == 0 && views(o.stdout@) == seq![done@]
                && o.stderr@.len() == 0,
            Ok(Response::Error(e)) => is_failure(o, "Error: "@ + e@),
            Ok(_) => is_failure(o, "Unexpected response"@),
            Err(e) => is_failure(o, e.text()),
        },
{
    match reply {
        Ok(Response::Okay) => {
            let mut lines: Vec<String> = Vec::new();
            lines.push(done.to_owned());
            assert(views(lines@) =~= seq![done@]);
            success(lines)
        },
        Ok(Response::Error(e)) => failure("Error: ", e.as_str()),
        Ok(_) => unexpected(),
        Err(e) => failed(&e),
    }
}

/// The lines of a run of commands, each numbered from one if `numbered`.
pub open spec fn commands_lines(cmds: Seq<QueuedCommand>, numbered: bool, indent: Seq<char>) -> Seq<
    Seq<char>,
>
    decreases cmds.len(),
{
    if cmds.len() == 0 {
        Seq::empty()
    } else {
        commands_lines(cmds.drop_last(), numbered, indent) + command_lines(
            if numbered {
                cmds.len()
            } else {
                0
            },
            cmds.last(),
            indent,
        )
    }
}

/// The head line of a waiting submission: its number, the portal it is for
/// in brackets, and how many commands it holds.
pub open spec fn submission_head(num: nat, sub: crate::ipc::queue::Submission) -> Seq<char> {
    "  "@ + decimal(num) + ". ["@ + match sub.portal {
        Some(p) => p.name(),
        None => "any"@,
    } + "] "@ + decimal(sub.commands@.len()) + " command(s)"@
}

/// The lines of the waiting submissions: for each its head line and its
/// commands.
pub open spec fn submissions_lines(subs: Seq<crate::ipc::queue::Submission>) -> Seq<Seq<char>>
    decreases subs.len(),
{
    if subs.len() == 0 {
        Seq::empty()
    } else {
        submissions_lines(subs.drop_last()) + seq![submission_head(subs.len(), subs.last())]
            + commands_lines(subs.last().commands@, false, "       "@)
    }
}

/// What is shown of the queue: `Queue is empty`, or the pending commands
/// under their head line and the waiting submissions under theirs, each part
/// only if it holds anything.
pub open spec fn queue_lines(status: crate::ipc::protocol::QueueStatusInfo) -> Seq<Seq<char>> {
    if status.pending@.len() == 0 && status.submissions@.len() == 0 {
        seq!["Queue is empty"@]
    } else {
        (if status.pending@.len() > 0 {
            seq!["Pending commands ("@ + decimal(status.pending_count as nat) + "):"@]
                + commands_lines(status.pending@, true, "  "@)
        } else {
            Seq::empty()
        }) + (if status.submissions@.len() > 0 {
            seq!["Submissions ("@ + decimal(status.submissions_count as nat) + "):"@]
                + submissions_lines(status.submissions@)
        } else {
            Seq::empty()
        })
    }
}

/// Appends the lines of a run of commands.
fn push_commands(out: &mut Vec<String>, cmds: &[QueuedCommand], numbered: bool, indent: &str)
    ensures
        views(final(out)@) == views(old(out)@) + commands_lines(cmds@, numbered, indent@),
{
    let mut i: usize = 0;
    proof {
        assert(cmds@.take(0) =~= Seq::<QueuedCommand>::empty());
        assert(views(out@) =~= views(old(out)@) + commands_lines(cmds@.take(0), numbered, indent@));
    }
    while i < cmds.len()
        invariant
            i <= cmds.len(),
            views(out@) == views(old(out)@) + commands_lines(
                cmds@.take(i as int),
                numbered,
                indent@,
            ),
        decreases cmds.len() - i,
    {
        let ghost before = views(out@);
        let num: usize = if numbered {
            i + 1
        } else {
            0
        };
        let mut shown = print_command(num, &cmds[i], indent);
        let ghost lines = views(shown@);
        out.append(&mut shown);
        proof {
            let now = cmds@.take(i + 1);
            assert(now.drop_last() =~= cmds@.take(i as int));
            assert(now.last() == cmds@[i as int]);
            assert(views(out@) =~= before + lines);
            assert(views(out@) =~= views(old(out)@) + commands_lines(now, numbered, indent@));
        }
        i = i + 1;
    }
    assert(cmds@.take(cmds.len() as int) =~= cmds@);
}

/// Show queued commands and submissions: what is printed for the daemon's
/// answer.
pub fn cmd_show_queue(reply: Result<Response<DaemonResponseExtension>, CliError>) -> (o: Output)
    ensures
        match reply {
            Ok(Response::Extended(DaemonResponseExtension::QueueStatus(status))) => o.code == 0
                && o.stderr@.len() == 0 && views(o.stdout@) == queue_lines(status),
            Ok(Response::Error(e)) => is_failure(o, "Error: "@ + e@),
            Ok(_) => is_failure(o, "Unexpected response"@),
            Err(e) => is_failure(o, e.text()),
        },
{
    match reply {
        Ok(Response::Extended(DaemonResponseExtension::QueueStatus(status))) => {
            let mut lines: Vec<String> = Vec::new();
            if status.pending.len() == 0 && status.submissions.len() == 0 {
                lines.push("Queue is empty".to_owned());
                assert(views(lines@) =~= seq!["Queue is empty"@]);
                return success(lines);
            }
            assert(views(lines@) =~= Seq::<Seq<char>>::empty());
            if status.pending.len() > 0 {
                let mut head = to_chars("Pending commands (");
                let n = u64_to_decimal(status.pending_count as u64);
                push_all(&mut head, n.as_slice());
                push_str(&mut head, "):");
                lines.push(from_chars(head.as_slice()));
                assert(views(lines@) =~= seq![head@]);
                push_commands(&mut lines, status.pending.as_slice(), true, "  ");
            }
            let ghost first = views(lines@);
            if status.submissions.len() > 0 {
                let mut head = to_chars("Submissions (");
                let n = u64_to_decimal(status.submissions_count as u64);
                push_all(&mut head, n.as_slice());
                push_str(&mut head, "):");
                lines.push(from_chars(head.as_slice()));
                assert(views(lines@) =~= first + seq![head@]);
                let ghost start = views(lines@);
                let mut i: usize = 0;
                proof {
                    assert(status.submissions@.take(0) =~= Seq::<
                        crate::ipc::queue::Submission,
                    >::empty());
                    assert(views(lines@) =~= start + submissions_lines(
                        status.submissions@.take(0),
                    ));
                }
                while i < status.submissions.len()
                    invariant
                        i <= status.submissions.len(),
                        views(lines@) == start + submissions_lines(
                            status.submissions@.take(i as int),
                        ),
                    decreases status.submissions.len() - i,
                {
                    let ghost before = views(lines@);
                    let sub = &status.submissions[i];
                    let mut line = to_chars("  ");
                    let n = u64_to_decimal((i + 1) as u64);
                    push_all(&mut line, n.as_slice());
                    push_str(&mut line, ". [");
                    match sub.portal {
                        Some(p) => push_str(&mut line, p.as_str()),
                        None => push_str(&mut line, "any"),
                    }
                    push_str(&mut line, "] ");
                    let c = u64_to_decimal(sub.commands.len() as u64);
                    push_all(&mut line, c.as_slice());
                    push_str(&mut line, " command(s)");
                    proof {
                        assert(line@ =~= submission_head((i + 1) as nat, *sub));
                    }
                    lines.push(from_chars(line.as_slice()));
                    proof {
                        assert(views(lines@) =~= before + seq![line@]);
                    }
                    push_commands(&mut lines, sub.commands.as_slice(), false, "       ");
                    proof {
                        let now = status.submissions@.take(i + 1);
                        assert(now.drop_last() =~= status.submissions@.take(i as int));
                        assert(now.last() == *sub);
                        assert(views(lines@) =~= start + submissions_lines(now));
                    }
                    i = i + 1;
                }
                assert(status.submissions@.take(status.submissions.len() as int)
                    =~= status.submissions@);
            } else {
                assert(first + Seq::<Seq<char>>::empty() =~= first);
            }
            assert(views(lines@) =~= queue_lines(status));
            success(lines)
        },
        Ok(Response::Error(e)) => failure("Error: ", e.as_str()),
        Ok(_) => unexpected(),
        Err(e) => failed(&e),
    }
}

/// Run command based on context: the session request inside a session, the
/// daemon's action outside.
pub enum Routed {
    /// Send this to the session's socket at the path.
    ToSession(String, Request<NoExtension>),
    /// Outside a session: do this.
    ToDaemon(DaemonAction),
    /// Stop with this output.
    Fail(Output),
}

/// Run command based on context. `lines` are the lines of standard input.
pub fn run_command(ctx: &Context, cmd: &Command, lines: &[String], cwd: Result<&str, &str>) -> (r:
    Routed)
    ensures
        match *ctx {
            Context::Daemon => r matches Routed::ToDaemon(a) && daemon_action_for(
                *cmd,
                views(lines@),
                cwd,
                a,
            ),
            Context::Session { socket_path } => match r {
                Routed::ToSession(path, req) => path@ == socket_path@ && session_request_for(
                    *cmd,
                    views(lines@),
                    cwd,
                    Ok(req),
                ),
                Routed::Fail(o) => exists|e: CliError|
                    session_request_for(*cmd, views(lines@), cwd, Err(e)) && is_failure(
                        o,
                        "Error: "@ + e.text(),
                    ),
                Routed::ToDaemon(_) => false,
            },
        },
{
    match ctx {
        Context::Session { socket_path } => match run_session_command(cmd, lines, cwd) {
            Ok(req) => Routed::ToSession(socket_path.clone(), req),
            Err(e) => Routed::Fail(refused(&e)),
        },
        Context::Daemon => Routed::ToDaemon(run_daemon_command(cmd, lines, cwd)),
    }
}

} // verus!

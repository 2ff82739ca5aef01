//! The session engine, as far as it decides: identifiers, the files of a
//! workspace, the command line and environment of the terminal, and what a
//! session's end is worth.

use crate::daemon::config::bin_views;
use crate::files::{append_lines, entries_of, read_lines, rendered, write_lines};
use crate::ipc::protocol::{NoExtension, Request as IpcRequest, Response as IpcResponse};
use crate::ipc::queue::{
    apply_command, apply_commands, command_views, law_selection_unique, law_selection_unique_all,
    selection_after, selection_after_all, CommandView, QueuedCommand,
};
use crate::ipc::file_chooser::SessionOptions;
use crate::number::{
    decimal, hex, lemma_hex_digits, lemma_hex_injective, u128_to_hex, u64_to_decimal,
};
use crate::portal::copy_strings;
use crate::portal::file_chooser::{join, join_path};
use crate::text::{
    chars_eq, chars_lt, find, find_from, from_chars, is_str, lex_lt, push_all, push_str,
    slice_copy, split_words, str_eq, to_chars, vec_views, views, words,
};
use crate::types::file_chooser::opt_str;
use vstd::prelude::*;

verus! {

/// The shims that every session gets, as name and sub-command of the
/// command-line tool: `sel`, `desel`, `reset`, `submit`, `cancel`, `info`.
pub open spec fn default_shims() -> Seq<(Seq<char>, Seq<char>)> {
    seq![
        ("sel"@, "edit"@),
        ("desel"@, "edit --remove"@),
        ("reset"@, "edit --reset"@),
        ("submit"@, "submit"@),
        ("cancel"@, "cancel"@),
        ("info"@, "info"@),
    ]
}

/// Default command shims of a session, as (shim name, sub-command) pairs.
pub fn default_commands(portal: &str) -> (out: Vec<(String, String)>)
    ensures
        bin_views(out@) == default_shims(),
{
    let mut out: Vec<(String, String)> = Vec::new();
    out.push(("sel".to_owned(), "edit".to_owned()));
    out.push(("desel".to_owned(), "edit --remove".to_owned()));
    out.push(("reset".to_owned(), "edit --reset".to_owned()));
    out.push(("submit".to_owned(), "submit".to_owned()));
    out.push(("cancel".to_owned(), "cancel".to_owned()));
    out.push(("info".to_owned(), "info".to_owned()));
    assert(bin_views(out@) =~= default_shims());
    out
}

/// The time in nanoseconds since the Unix epoch, as `SystemTime::now` gives
/// it; before the epoch it is zero. Nothing is promised of the value.
#[verifier::external_body]
fn unix_nanos() -> u128 {
    std::time::SystemTime::now()
        .duration_since(std::time::UNIX_EPOCH)
        .unwrap_or_default()
        .as_nanos()
}

/// Unique session identifier.
#[derive(Debug, Clone, PartialEq, Eq, Hash)]
pub struct SessionId(pub String);

/// The identifier made of a time and a count: both in hexadecimal, a dash
/// between them.
pub open spec fn id_text(nanos: nat, counter: nat) -> Seq<char> {
    hex(nanos) + seq!['-'] + hex(counter)
}

/// Identifiers made with different counts differ, whatever the times.
pub proof fn law_ids_differ(nanos_a: nat, counter_a: nat, nanos_b: nat, counter_b: nat)
    requires
        counter_a != counter_b,
    ensures
        id_text(nanos_a, counter_a) != id_text(nanos_b, counter_b),
{
    let a = id_text(nanos_a, counter_a);
    let b = id_text(nanos_b, counter_b);
    let ta = hex(counter_a);
    let tb = hex(counter_b);
    lemma_hex_digits(counter_a);
    lemma_hex_digits(counter_b);
    if a == b {
        assert(a.len() == hex(nanos_a).len() + 1 + ta.len());
        assert(b.len() == hex(nanos_b).len() + 1 + tb.len());
        if ta.len() == tb.len() {
            assert(a.skip(a.len() - ta.len()) =~= ta);
            assert(b.skip(b.len() - tb.len()) =~= tb);
            lemma_hex_injective(counter_a, counter_b);
        } else if ta.len() < tb.len() {
            let k = a.len() - ta.len() - 1;
            assert(a[k] == '-');
            assert(b[k] == tb[k - hex(nanos_b).len() - 1]);
        } else {
            let k = b.len() - tb.len() - 1;
            assert(b[k] == '-');
            assert(a[k] == ta[k - hex(nanos_a).len() - 1]);
        }
    }
}

/// The source of a daemon's session identifiers. It counts the identifiers
/// it has made and puts the count into each, so no two of them are alike.
#[derive(Debug)]
pub struct SessionIds {
    made: u64,
}

impl SessionIds {
    /// How many identifiers were made.
    pub closed spec fn count(self) -> nat {
        self.made as nat
    }

    /// A source that has made no identifier yet.
    pub fn new() -> (s: SessionIds)
        ensures
            s.count() == 0,
    {
        SessionIds { made: 0 }
    }

    /// The next identifier: made of the current time and of the count of
    /// those made before, so it differs from each of them. Once the count
    /// cannot grow there is none, and nothing changes.
    pub fn fresh(&mut self) -> (r: Option<SessionId>)
        ensures
            r is Some <==> old(self).count() < u64::MAX,
            r matches Some(id) ==> final(self).count() == old(self).count() + 1 && exists|
                nanos: nat,
            |
                id.0@ == id_text(nanos, old(self).count()),
            r is None ==> final(self).count() == old(self).count(),
    {
        if self.made == u64::MAX {
            return None;
        }
        let id = SessionId::new(self.made);
        self.made = self.made + 1;
        Some(id)
    }
}

impl SessionId {
    /// The identifier for a time and a count.
    pub fn from_parts(nanos: u128, counter: u64) -> (id: SessionId)
        ensures
            id.0@ == id_text(nanos as nat, counter as nat),
    {
        let mut out = u128_to_hex(nanos);
        out.push('-');
        let c = u128_to_hex(counter as u128);
        push_all(&mut out, c.as_slice());
        SessionId(from_chars(out.as_slice()))
    }

    /// Create a new session ID from the current time and `counter`; with a
    /// counter that never repeats, neither does the identifier
    /// (`law_ids_differ`).
    pub fn new(counter: u64) -> (id: SessionId)
        ensures
            exists|nanos: nat| id.0@ == id_text(nanos, counter as nat),
    {
        let nanos = unix_nanos();
        let id = SessionId::from_parts(nanos, counter);
        assert(id.0@ == id_text(nanos as nat, counter as nat));
        id
    }

    /// Get the session ID as a string slice.
    pub fn as_str(&self) -> (out: &str)
        ensures
            out@ == self.0@,
    {
        self.0.as_str()
    }
}

/// Get directory for a specific session.
pub fn session_dir(base: &str, id: &SessionId) -> (out: String)
    ensures
        out@ == join_path(base@, id.0@),
{
    join(base, id.as_str())
}

/// One file of a session's workspace.
#[derive(Debug, Clone)]
pub struct WorkspaceFile {
    /// Where the file stands, from the workspace directory.
    pub path: String,
    /// What the file holds.
    pub content: String,
    /// Whether the file is a program (mode 0755).
    pub executable: bool,
}

/// What a `WorkspaceFile` says.
pub struct WorkspaceFileView {
    pub path: Seq<char>,
    pub content: Seq<char>,
    pub executable: bool,
}

impl View for WorkspaceFile {
    type V = WorkspaceFileView;

    open spec fn view(&self) -> WorkspaceFileView {
        WorkspaceFileView { path: self.path@, content: self.content@, executable: self.executable }
    }
}

/// What a list of workspace files says.
pub open spec fn file_views(v: Seq<WorkspaceFile>) -> Seq<WorkspaceFileView> {
    Seq::new(v.len(), |i: int| v[i]@)
}

/// Whether a shim of the name `name` is among `bins`.
pub open spec fn has_bin(bins: Seq<(Seq<char>, Seq<char>)>, name: Seq<char>) -> bool {
    exists|i: int| 0 <= i < bins.len() && (#[trigger] bins[i]).0 == name
}

/// The shim that starts the command-line tool with a sub-command.
pub open spec fn default_shim_file(shim: (Seq<char>, Seq<char>)) -> WorkspaceFileView {
    WorkspaceFileView {
        path: "bin/"@ + shim.0,
        content: "#!/bin/sh\nexec portty "@ + shim.1 + " \"$@\"\n"@,
        executable: true,
    }
}

/// The shim that runs a configured command.
pub open spec fn custom_shim_file(shim: (Seq<char>, Seq<char>)) -> WorkspaceFileView {
    WorkspaceFileView {
        path: "bin/"@ + shim.0,
        content: "#!/bin/sh\n"@ + shim.1 + "\n"@,
        executable: true,
    }
}

/// The default shims that no custom shim replaces, in their order.
pub open spec fn kept_defaults(
    defaults: Seq<(Seq<char>, Seq<char>)>,
    custom: Seq<(Seq<char>, Seq<char>)>,
) -> Seq<
    WorkspaceFileView,
>
    decreases defaults.len(),
{
    if defaults.len() == 0 {
        Seq::empty()
    } else if has_bin(custom, defaults.last().0) {
        kept_defaults(defaults.drop_last(), custom)
    } else {
        kept_defaults(defaults.drop_last(), custom).push(default_shim_file(defaults.last()))
    }
}

/// The custom shims, in their order.
pub open spec fn custom_files(custom: Seq<(Seq<char>, Seq<char>)>) -> Seq<WorkspaceFileView> {
    Seq::new(custom.len(), |i: int| custom_shim_file(custom[i]))
}

/// The files of a new workspace: `portal` with the portal and the operation
/// on two lines, `options.json` with the options as given, `submission`
/// with the initial entries, then the default shims that are not replaced,
/// then the custom shims.
pub open spec fn workspace(
    portal: Seq<char>,
    operation: Seq<char>,
    options_json: Seq<char>,
    entries: Seq<Seq<char>>,
    custom: Seq<(Seq<char>, Seq<char>)>,
) -> Seq<WorkspaceFileView> {
    seq![
        WorkspaceFileView {
            path: "portal"@,
            content: portal + seq!['\n'] + operation,
            executable: false,
        },
        WorkspaceFileView { path: "options.json"@, content: options_json, executable: false },
        WorkspaceFileView { path: "submission"@, content: rendered(entries), executable: false },
    ] + kept_defaults(default_shims(), custom) + custom_files(custom)
}

/// Every default shim that no custom shim replaces is among the kept ones.
pub proof fn lemma_kept_defaults_has(
    defaults: Seq<(Seq<char>, Seq<char>)>,
    custom: Seq<(Seq<char>, Seq<char>)>,
    i: int,
)
    requires
        0 <= i < defaults.len(),
        !has_bin(custom, defaults[i].0),
    ensures
        kept_defaults(defaults, custom).contains(default_shim_file(defaults[i])),
    decreases defaults.len(),
{
    let rest = kept_defaults(defaults.drop_last(), custom);
    if i == defaults.len() - 1 {
        let all = rest.push(default_shim_file(defaults.last()));
        assert(all[all.len() - 1] == default_shim_file(defaults[i]));
    } else {
        lemma_kept_defaults_has(defaults.drop_last(), custom, i);
        let f = default_shim_file(defaults[i]);
        let k = choose|k: int| 0 <= k < rest.len() && rest[k] == f;
        if !has_bin(custom, defaults.last().0) {
            assert(rest.push(default_shim_file(defaults.last()))[k] == f);
        }
    }
}

/// The workspace of a session holds `portal`, `options.json` and
/// `submission`, and every default shim that no custom shim replaces.
pub proof fn law_workspace_complete(
    portal: Seq<char>,
    operation: Seq<char>,
    options_json: Seq<char>,
    entries: Seq<Seq<char>>,
    custom: Seq<(Seq<char>, Seq<char>)>,
    i: int,
)
    requires
        0 <= i < default_shims().len(),
        !has_bin(custom, default_shims()[i].0),
    ensures
        ({
            let w = workspace(portal, operation, options_json, entries, custom);
            &&& w.len() >= 3
            &&& w[0].path == "portal"@ && w[0].content == portal + seq!['\n'] + operation
            &&& w[1].path == "options.json"@ && w[1].content == options_json
            &&& w[2].path == "submission"@ && w[2].content == rendered(entries)
            &&& w.contains(default_shim_file(default_shims()[i]))
        }),
{
    let w = workspace(portal, operation, options_json, entries, custom);
    let kept = kept_defaults(default_shims(), custom);
    lemma_kept_defaults_has(default_shims(), custom, i);
    let f = default_shim_file(default_shims()[i]);
    let k = choose|k: int| 0 <= k < kept.len() && kept[k] == f;
    assert(w[3 + k] == f);
}

/// Whether a shim named `name` is among `bins`.
fn bins_have(bins: &[(String, String)], name: &str) -> (r: bool)
    ensures
        r == has_bin(bin_views(bins@), name@),
{
    let mut i: usize = 0;
    while i < bins.len()
        invariant
            i <= bins.len(),
            forall|j: int| 0 <= j < i ==> (#[trigger] bin_views(bins@)[j]).0 != name@,
        decreases bins.len() - i,
    {
        if str_eq(bins[i].0.as_str(), name) {
            assert(bin_views(bins@)[i as int].0 == name@);
            return true;
        }
        i = i + 1;
    }
    false
}

/// A shim file.
fn shim_file(name: &str, head: &str, body: &str, tail: &str) -> (f: WorkspaceFile)
    ensures
        f@ == (WorkspaceFileView {
            path: "bin/"@ + name@,
            content: head@ + body@ + tail@,
            executable: true,
        }),
{
    let mut path = to_chars("bin/");
    push_str(&mut path, name);
    let mut content = to_chars(head);
    push_str(&mut content, body);
    push_str(&mut content, tail);
    WorkspaceFile {
        path: from_chars(path.as_slice()),
        content: from_chars(content.as_slice()),
        executable: true,
    }
}

/// The files that make up the workspace of a new session.
pub fn workspace_files(
    portal: &str,
    operation: &str,
    options_json: &str,
    entries: &[String],
    custom_bins: &[(String, String)],
) -> (out: Vec<WorkspaceFile>)
    ensures
        file_views(out@) == workspace(
            portal@,
            operation@,
            options_json@,
            views(entries@),
            bin_views(custom_bins@),
        ),
{
    let mut out: Vec<WorkspaceFile> = Vec::new();
    let mut tag = to_chars(portal);
    tag.push('\n');
    push_str(&mut tag, operation);
    out.push(
        WorkspaceFile {
            path: "portal".to_owned(),
            content: from_chars(tag.as_slice()),
            executable: false,
        },
    );
    out.push(
        WorkspaceFile {
            path: "options.json".to_owned(),
            content: options_json.to_owned(),
            executable: false,
        },
    );
    out.push(
        WorkspaceFile {
            path: "submission".to_owned(),
            content: write_lines(entries),
            executable: false,
        },
    );
    let ghost head = file_views(out@);
    let ghost custom = bin_views(custom_bins@);
    proof {
        assert(tag@ =~= portal@ + seq!['\n'] + operation@);
        assert(head =~= seq![
            WorkspaceFileView {
                path: "portal"@,
                content: portal@ + seq!['\n'] + operation@,
                executable: false,
            },
            WorkspaceFileView { path: "options.json"@, content: options_json@, executable: false },
            WorkspaceFileView {
                path: "submission"@,
                content: rendered(views(entries@)),
                executable: false,
            },
        ]);
    }
    let defaults = default_commands(portal);
    let mut i: usize = 0;
    proof {
        assert(bin_views(defaults@).take(0) =~= Seq::<(Seq<char>, Seq<char>)>::empty());
        assert(file_views(out@) =~= head + kept_defaults(bin_views(defaults@).take(0), custom));
    }
    while i < defaults.len()
        invariant
            i <= defaults.len(),
            custom == bin_views(custom_bins@),
            file_views(out@) == head + kept_defaults(bin_views(defaults@).take(i as int), custom),
        decreases defaults.len() - i,
    {
        let ghost before = file_views(out@);
        proof {
            let now = bin_views(defaults@).take(i + 1);
            assert(now.drop_last() =~= bin_views(defaults@).take(i as int));
            assert(now.last() == (defaults@[i as int].0@, defaults@[i as int].1@));
        }
        if !bins_have(custom_bins, defaults[i].0.as_str()) {
            let f = shim_file(
                defaults[i].0.as_str(),
                "#!/bin/sh\nexec portty ",
                defaults[i].1.as_str(),
                " \"$@\"\n",
            );
            out.push(f);
            proof {
                assert(file_views(out@) =~= before.push(
                    default_shim_file((defaults@[i as int].0@, defaults@[i as int].1@)),
                ));
            }
        }
        i = i + 1;
    }
    assert(bin_views(defaults@).take(defaults.len() as int) =~= bin_views(defaults@));
    let ghost mid = file_views(out@);
    let mut j: usize = 0;
    proof {
        assert(file_views(out@) =~= mid + custom_files(custom).take(0));
    }
    while j < custom_bins.len()
        invariant
            j <= custom_bins.len(),
            custom == bin_views(custom_bins@),
            file_views(out@) == mid + custom_files(custom).take(j as int),
        decreases custom_bins.len() - j,
    {
        let ghost before = file_views(out@);
        let f = shim_file(custom_bins[j].0.as_str(), "#!/bin/sh\n", custom_bins[j].1.as_str(), "\n");
        out.push(f);
        proof {
            assert(custom_files(custom).take(j + 1) =~= custom_files(custom).take(j as int).push(
                custom_shim_file(custom[j as int]),
            ));
            assert(file_views(out@) =~= before.push(custom_shim_file(custom[j as int])));
        }
        j = j + 1;
    }
    assert(custom_files(custom).take(custom_bins.len() as int) =~= custom_files(custom));
    out
}

/// The program and the arguments of a command line: its words. The line is
/// not a shell line: no quoting, no globs.
pub open spec fn command_line(line: Seq<char>) -> Option<(Seq<char>, Seq<Seq<char>>)> {
    let w = words(line);
    if w.len() == 0 {
        None
    } else {
        Some((w[0], w.drop_first()))
    }
}

/// Splits the configured command line into the program and its arguments; a
/// line without words is refused.
pub fn parse_exec(line: &str) -> (r: Result<(String, Vec<String>), String>)
    ensures
        match command_line(line@) {
            Some(c) => r matches Ok(p) && p.0@ == c.0 && views(p.1@) == c.1,
            None => r matches Err(e) && e@ == "empty exec command"@,
        },
{
    let chars = to_chars(line);
    let parts = split_words(chars.as_slice());
    assert(vec_views(parts@).len() == parts@.len());
    if parts.len() == 0 {
        return Err("empty exec command".to_owned());
    }
    assert(forall|i: int| 0 <= i < parts@.len() ==> vec_views(parts@)[i] == parts@[i]@);
    let program = from_chars(parts[0].as_slice());
    let mut args: Vec<String> = Vec::new();
    let mut i: usize = 1;
    while i < parts.len()
        invariant
            1 <= i <= parts.len(),
            args@.len() == i - 1,
            forall|j: int| 0 <= j < i - 1 ==> (#[trigger] args@[j])@ == parts@[j + 1]@,
        decreases parts.len() - i,
    {
        args.push(from_chars(parts[i].as_slice()));
        i = i + 1;
    }
    assert(views(args@) =~= vec_views(parts@).drop_first());
    Ok((program, args))
}

/// The variables that a session adds to the environment of its terminal:
/// the session, its directory, portal and operation, and a `PATH` that
/// starts with the session's `bin` directory.
pub open spec fn session_vars(
    id: Seq<char>,
    dir: Seq<char>,
    portal: Seq<char>,
    operation: Seq<char>,
    path: Option<Seq<char>>,
) -> Seq<(Seq<char>, Seq<char>)> {
    seq![
        ("PORTTY_SESSION"@, id),
        ("PORTTY_DIR"@, dir),
        ("PORTTY_PORTAL"@, portal),
        ("PORTTY_OPERATION"@, operation),
        (
            "PATH"@,
            match path {
                Some(p) => join_path(dir, "bin"@) + seq![':'] + p,
                None => join_path(dir, "bin"@),
            },
        ),
    ]
}

/// The environment overlay of a session's terminal; `path` is the `PATH` of
/// the daemon, if it has one.
pub fn session_env(id: &str, dir: &str, portal: &str, operation: &str, path: Option<&str>) -> (out:
    Vec<(String, String)>)
    ensures
        bin_views(out@) == session_vars(id@, dir@, portal@, operation@, opt_str(path)),
{
    let mut out: Vec<(String, String)> = Vec::new();
    out.push(("PORTTY_SESSION".to_owned(), id.to_owned()));
    out.push(("PORTTY_DIR".to_owned(), dir.to_owned()));
    out.push(("PORTTY_PORTAL".to_owned(), portal.to_owned()));
    out.push(("PORTTY_OPERATION".to_owned(), operation.to_owned()));
    let bin = join(dir, "bin");
    let value = match path {
        Some(p) => {
            let mut v = to_chars(bin.as_str());
            v.push(':');
            push_str(&mut v, p);
            assert(v@ =~= bin@ + seq![':'] + p@);
            from_chars(v.as_slice())
        },
        None => bin,
    };
    out.push(("PATH".to_owned(), value));
    assert(bin_views(out@) =~= session_vars(id@, dir@, portal@, operation@, opt_str(path)));
    out
}

/// What wakes a running session.
#[derive(Debug, Clone, Copy, PartialEq, Eq, Structural)]
pub enum Signal {
    /// Somebody confirmed the submission.
    Submit,
    /// Somebody cancelled.
    Cancel,
    /// The terminal ended by itself.
    ChildExited,
    /// Nobody is left who could send a signal.
    Disconnected,
}

impl Signal {
    /// Whether the session has to kill and reap its terminal: on submit and
    /// cancel, where the terminal may still run.
    pub open spec fn kills_child(self) -> bool {
        self == Signal::Submit || self == Signal::Cancel
    }

    /// Whether the session takes what is in the submission file: on submit
    /// and when the terminal ended by itself.
    pub open spec fn takes_submission(self) -> bool {
        self == Signal::Submit || self == Signal::ChildExited
    }

    /// Whether the session has to kill and reap its terminal.
    pub fn must_kill(&self) -> (b: bool)
        ensures
            b == self.kills_child(),
    {
        match self {
            Signal::Submit => true,
            Signal::Cancel => true,
            Signal::ChildExited => false,
            Signal::Disconnected => false,
        }
    }
}

/// Result from a session.
#[derive(Debug, Clone)]
pub enum SessionResult {
    Success { entries: Vec<String> },
    Cancelled,
}

/// What a session's end is worth: the entries of its submission file if the
/// signal takes the submission and there is any entry, else a cancellation.
pub open spec fn result_of(signal: Signal, content: Seq<char>) -> Option<Seq<Seq<char>>> {
    if signal.takes_submission() && entries_of(content).len() > 0 {
        Some(entries_of(content))
    } else {
        None
    }
}

/// Decides the outcome of a session from the signal that ended it and the
/// text of its submission file. An empty submission is a cancellation.
pub fn outcome(signal: Signal, content: &str) -> (r: SessionResult)
    ensures
        match result_of(signal, content@) {
            Some(entries) => r matches SessionResult::Success { entries: e } && views(e@)
                == entries,
            None => r is Cancelled,
        },
        entries_of(content@).len() == 0 ==> r is Cancelled,
        signal == Signal::Cancel || signal == Signal::Disconnected ==> r is Cancelled,
{
    match signal {
        Signal::Cancel => SessionResult::Cancelled,
        Signal::Disconnected => SessionResult::Cancelled,
        _ => {
            let entries = read_lines(content);
            assert(views(entries@).len() == entries@.len());
            if entries.len() == 0 {
                SessionResult::Cancelled
            } else {
                SessionResult::Success { entries }
            }
        },
    }
}

/// The selection and the flags of a session that keeps its selection in
/// memory.
#[derive(Debug, Clone)]
pub struct SelectionState {
    /// The options of the session.
    pub options: SessionOptions,
    /// What was selected when the session started.
    pub initial: Vec<String>,
    /// What is selected, in the order in which it came.
    pub selection: Vec<String>,
    /// Whether a cancel was asked for.
    pub cancelled: bool,
    /// Whether a submit was asked for.
    pub submitted: bool,
}

/// The command that a request stands for, if it changes the selection.
pub open spec fn request_command(req: IpcRequest<NoExtension>) -> Option<CommandView> {
    match req {
        IpcRequest::Select(v) => Some(CommandView::Select(views(v@))),
        IpcRequest::Deselect(v) => Some(CommandView::Deselect(views(v@))),
        IpcRequest::Clear => Some(CommandView::Clear),
        _ => None,
    }
}

impl SelectionState {
    /// Whether nothing occurs twice: neither in what is selected nor in what
    /// was selected at the start.
    pub open spec fn unique(self) -> bool {
        views(self.selection@).no_duplicates() && views(self.initial@).no_duplicates()
    }

    /// A session with nothing selected.
    pub fn new(options: SessionOptions) -> (s: SelectionState)
        ensures
            s.unique(),
            s.options == options,
            s.initial@.len() == 0,
            s.selection@.len() == 0,
            !s.cancelled,
            !s.submitted,
    {
        SelectionState {
            options,
            initial: Vec::new(),
            selection: Vec::new(),
            cancelled: false,
            submitted: false,
        }
    }

    /// Apply pending commands to pre-populate the selection.
    pub fn apply_pending(&mut self, commands: Vec<QueuedCommand>)
        ensures
            views(final(self).selection@) == selection_after_all(
                views(old(self).selection@),
                command_views(commands@),
            ),
            final(self).cancelled == old(self).cancelled,
            final(self).submitted == old(self).submitted,
            final(self).options == old(self).options,
            final(self).initial == old(self).initial,
            old(self).unique() ==> final(self).unique(),
    {
        proof {
            if self.unique() {
                law_selection_unique_all(views(self.selection@), command_views(commands@));
            }
        }
        let mut current: Vec<String> = Vec::new();
        std::mem::swap(&mut self.selection, &mut current);
        self.selection = apply_commands(current, commands.as_slice());
    }

    /// Answers one request: select, deselect, clear and reset change the
    /// selection, submit and cancel raise their flag, the two queries answer
    /// with the selection or the options.
    pub fn handle_request(
        &mut self,
        req: IpcRequest<NoExtension>,
    ) -> (resp: IpcResponse<NoExtension>)
        ensures
            old(self).unique() ==> final(self).unique(),
            final(self).options == old(self).options,
            final(self).initial == old(self).initial,
            match request_command(req) {
                Some(cmd) => views(final(self).selection@) == selection_after(
                    views(old(self).selection@),
                    cmd,
                ) && resp is Okay,
                None => if req is Reset {
                    views(final(self).selection@) == views(old(self).initial@) && resp is Okay
                } else {
                    final(self).selection@ == old(self).selection@
                },
            },
            final(self).submitted == (old(self).submitted || req is Submit),
            final(self).cancelled == (old(self).cancelled || req is Cancel),
            req is Submit || req is Cancel ==> resp is Okay,
            req is GetSelection ==> (resp matches IpcResponse::Selection(v) && views(v@) == views(
                old(self).selection@,
            )),
            req is GetOptions ==> (resp matches IpcResponse::Options(o) && o@ == old(
                self,
            ).options@),
            req is Extended ==> (resp matches IpcResponse::Error(m) && m@
                == "unsupported request"@),
    {
        proof {
            if self.unique() {
                match request_command(req) {
                    Some(cmd) => law_selection_unique(views(self.selection@), cmd),
                    None => {},
                }
            }
        }
        match req {
            IpcRequest::GetOptions => IpcResponse::Options(self.options.duplicate()),
            IpcRequest::GetSelection => IpcResponse::Selection(
                copy_strings(self.selection.as_slice()),
            ),
            IpcRequest::Select(uris) => {
                let mut current: Vec<String> = Vec::new();
                std::mem::swap(&mut self.selection, &mut current);
                self.selection = apply_command(current, &QueuedCommand::Select(uris));
                IpcResponse::Okay
            },
            IpcRequest::Deselect(uris) => {
                let mut current: Vec<String> = Vec::new();
                std::mem::swap(&mut self.selection, &mut current);
                self.selection = apply_command(current, &QueuedCommand::Deselect(uris));
                IpcResponse::Okay
            },
            IpcRequest::Clear => {
                self.selection = Vec::new();
                assert(views(self.selection@) =~= Seq::<Seq<char>>::empty());
                IpcResponse::Okay
            },
            IpcRequest::Reset => {
                self.selection = copy_strings(self.initial.as_slice());
                IpcResponse::Okay
            },
            IpcRequest::Submit => {
                self.submitted = true;
                IpcResponse::Okay
            },
            IpcRequest::Cancel => {
                self.cancelled = true;
                IpcResponse::Okay
            },
            IpcRequest::Extended(_) => IpcResponse::Error("unsupported request".to_owned()),
        }
    }

    /// Whether a session without a terminal is done: once a submit or a
    /// cancel was asked for.
    pub fn headless_done(&self) -> (b: bool)
        ensures
            b == (self.submitted || self.cancelled),
    {
        self.submitted || self.cancelled
    }

    /// What the session is worth when it ends: cancelled if a cancel was
    /// asked for, the selection if a submit was asked for and anything is
    /// selected, else cancelled.
    pub fn finish(self) -> (r: SessionResult)
        ensures
            self.cancelled || !self.submitted || self.selection@.len() == 0 ==> r is Cancelled,
            !self.cancelled && self.submitted && self.selection@.len() > 0 ==> r
                == (SessionResult::Success { entries: self.selection }),
    {
        if self.cancelled {
            SessionResult::Cancelled
        } else if self.submitted && self.selection.len() > 0 {
            SessionResult::Success { entries: self.selection }
        } else {
            SessionResult::Cancelled
        }
    }
}

/// What draining the pending entries into a session comes to.
#[derive(Debug, Clone)]
pub struct Drained {
    /// The new text of the session's submission file.
    pub submission: String,
    /// How many entries were moved.
    pub count: usize,
}

/// Drain pending to session: the pending entries are appended to the
/// session's submission. The pending file is emptied only once the
/// submission was written.
pub fn drain_pending_to(pending: &str, submission: &str) -> (r: Drained)
    ensures
        r.submission@ == submission@ + rendered(entries_of(pending@)),
        r.count == entries_of(pending@).len(),
{
    let entries = read_lines(pending);
    assert(views(entries@).len() == entries@.len());
    Drained { submission: append_lines(submission, entries.as_slice()), count: entries.len() }
}

/// Whether the pending file is emptied after a drain: only if the append to
/// the submission succeeded.
pub fn truncate_pending_after(append_succeeded: bool) -> (b: bool)
    ensures
        b == append_succeeded,
{
    append_succeeded
}

/// The name of the directory of a queued submission: its creation time in
/// milliseconds, a dash, and the portal it is for or `any`.
pub open spec fn queue_name(created_ms: u64, portal: Option<Seq<char>>) -> Seq<char> {
    decimal(created_ms as nat) + seq!['-'] + match portal {
        Some(p) => p,
        None => "any"@,
    }
}

/// The name of the directory for a submission queued at `created_ms`.
pub fn queue_dir_name(created_ms: u64, portal: Option<&str>) -> (out: String)
    ensures
        out@ == queue_name(created_ms, opt_str(portal)),
{
    let mut out = u64_to_decimal(created_ms);
    out.push('-');
    match portal {
        Some(p) => push_str(&mut out, p),
        None => push_str(&mut out, "any"),
    }
    from_chars(out.as_slice())
}

/// Whether the queued submission in the directory `name` serves `portal`:
/// what follows the first dash of the name is the portal, or `any`.
pub open spec fn queued_for(name: Seq<char>, portal: Seq<char>) -> bool {
    let k = find(name, '-');
    0 <= k < name.len() && (name.skip(k + 1) == portal || name.skip(k + 1) == "any"@)
}

/// The place of the queued submission that a session of `portal` takes: of
/// those that serve the portal, the one whose name comes first; -1 if none
/// serves.
pub open spec fn first_queued(names: Seq<Seq<char>>, portal: Seq<char>) -> int
    decreases names.len(),
{
    if names.len() == 0 {
        -1
    } else {
        let k = first_queued(names.drop_last(), portal);
        if !queued_for(names.last(), portal) {
            k
        } else if k < 0 || lex_lt(names.last(), names[k]) {
            names.len() - 1
        } else {
            k
        }
    }
}

/// Whether a directory name serves a portal.
fn name_serves(name: &[char], portal: &[char]) -> (r: bool)
    ensures
        r == queued_for(name@, portal@),
{
    let k = find_from(name, '-', 0);
    assert(name@.skip(0) =~= name@);
    if k >= name.len() {
        return false;
    }
    let rest = slice_copy(name, k + 1, name.len());
    assert(name@.subrange(k + 1, name.len() as int) =~= name@.skip(k + 1));
    chars_eq(rest.as_slice(), portal) || is_str(rest.as_slice(), "any")
}

/// Pop queued submission matching portal: tells which of the directories
/// under `submissions/` a new session of `portal` consumes.
pub fn pop_queued_submission(names: &[String], portal: &str) -> (r: Option<usize>)
    ensures
        first_queued(views(names@), portal@) < 0 ==> r is None,
        first_queued(views(names@), portal@) >= 0 ==> r == Some(
            first_queued(views(names@), portal@) as usize,
        ),
        r matches Some(k) ==> k < names@.len(),
{
    let p = to_chars(portal);
    let mut best: Option<usize> = None;
    let mut i: usize = 0;
    proof {
        assert(views(names@).take(0) =~= Seq::<Seq<char>>::empty());
    }
    while i < names.len()
        invariant
            i <= names.len(),
            p@ == portal@,
            match best {
                Some(k) => k < i && k == first_queued(views(names@).take(i as int), portal@),
                None => first_queued(views(names@).take(i as int), portal@) < 0,
            },
        decreases names.len() - i,
    {
        let name = to_chars(names[i].as_str());
        proof {
            let now = views(names@).take(i + 1);
            assert(now.drop_last() =~= views(names@).take(i as int));
            assert(now.last() == names@[i as int]@);
        }
        if name_serves(name.as_slice(), p.as_slice()) {
            match best {
                Some(k) => {
                    let other = to_chars(names[k].as_str());
                    assert(views(names@).take(i + 1)[k as int] == names@[k as int]@);
                    if chars_lt(name.as_slice(), other.as_slice()) {
                        best = Some(i);
                    }
                },
                None => {
                    best = Some(i);
                },
            }
        }
        i = i + 1;
    }
    assert(views(names@).take(names.len() as int) =~= views(names@));
    best
}

} // verus!

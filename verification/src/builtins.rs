//! The built-in session commands, as far as they decide: what a shim's
//! arguments ask for, and how a path becomes a URI.

use crate::ipc::protocol::{NoExtension, Request, Response};
use crate::portal::file_chooser::{
    join, join_path, Filter, FilterPattern, SelectionMode, SessionOptions,
};
use crate::files::nonempty;
use crate::text::{
    bool_string, bool_text, chars_eq, from_chars, is_str, joined, push_joined, push_str, slice_copy,
    to_chars, views,
};
use vstd::prelude::*;

verus! {

/// Get socket path from the environment: the session's socket, or why there
/// is none.
pub fn socket_path(env: Option<&str>) -> (r: Result<String, String>)
    ensures
        match env {
            Some(p) => r matches Ok(s) && s@ == p@,
            None => r matches Err(m) && m@
                == "PORTTY_SOCK not set - are you running inside a portty session?"@,
        },
{
    match env {
        Some(p) => Ok(p.to_owned()),
        None => Err("PORTTY_SOCK not set - are you running inside a portty session?".to_owned()),
    }
}

/// Whether `pat` occurs in `s`.
pub open spec fn has_part(s: Seq<char>, pat: Seq<char>) -> bool {
    exists|i: int| 0 <= i && i + pat.len() <= s.len() && #[trigger] s.subrange(
        i,
        i + pat.len() as int,
    ) == pat
}

/// Whether `pat` occurs in `s`.
pub fn contains_part(s: &[char], pat: &[char]) -> (r: bool)
    ensures
        r == has_part(s@, pat@),
{
    if pat.len() > s.len() {
        return false;
    }
    let last = s.len() - pat.len();
    let mut i: usize = 0;
    loop
        invariant
            pat.len() <= s.len(),
            last == s.len() - pat.len(),
            i <= last,
            forall|j: int| 0 <= j < i ==> #[trigger] s@.subrange(j, j + pat@.len() as int) != pat@,
        decreases last - i,
    {
        let part = slice_copy(s, i, i + pat.len());
        if chars_eq(part.as_slice(), pat) {
            return true;
        }
        if i >= last {
            return false;
        }
        i = i + 1;
    }
}

/// The URI of an argument: the argument itself if it names a scheme (it
/// holds `://`), else `file://` and the path, taken from `cwd` if it is
/// relative.
pub open spec fn uri_of(arg: Seq<char>, cwd: Seq<char>) -> Seq<char> {
    if has_part(arg, "://"@) {
        arg
    } else {
        "file://"@ + join_path(cwd, arg)
    }
}

/// Convert a path or URI to a file:// URI.
pub fn to_uri(arg: &str, cwd: &str) -> (out: String)
    ensures
        out@ == uri_of(arg@, cwd@),
{
    let chars = to_chars(arg);
    let mark = to_chars("://");
    if contains_part(chars.as_slice(), mark.as_slice()) {
        return arg.to_owned();
    }
    let path = join(cwd, arg);
    let mut out = to_chars("file://");
    push_str(&mut out, path.as_str());
    from_chars(out.as_slice())
}

/// A command of the file-chooser shims.
#[derive(Debug, Clone, Copy, PartialEq, Eq, Structural)]
pub enum BuiltinCommand {
    Select,
    Submit,
    Cancel,
}

/// The command that a shim names, or the message for one that is unknown.
pub fn dispatch(command: &str) -> (r: Result<BuiltinCommand, String>)
    ensures
        command@ == "select"@ ==> r == Ok::<BuiltinCommand, String>(BuiltinCommand::Select),
        command@ == "submit"@ ==> r == Ok::<BuiltinCommand, String>(BuiltinCommand::Submit),
        command@ == "cancel"@ ==> r == Ok::<BuiltinCommand, String>(BuiltinCommand::Cancel),
        command@ != "select"@ && command@ != "submit"@ && command@ != "cancel"@ ==> (r matches Err(
            m,
        ) && m@ == "Unknown file_chooser command: "@ + command@),
{
    proof {
        reveal_strlit("select");
        reveal_strlit("submit");
        reveal_strlit("cancel");
        assert("select"@[1] != "submit"@[1]);
        assert("select"@[0] != "cancel"@[0]);
        assert("submit"@[0] != "cancel"@[0]);
    }
    let c = to_chars(command);
    if is_str(c.as_slice(), "select") {
        Ok(BuiltinCommand::Select)
    } else if is_str(c.as_slice(), "submit") {
        Ok(BuiltinCommand::Submit)
    } else if is_str(c.as_slice(), "cancel") {
        Ok(BuiltinCommand::Cancel)
    } else {
        let mut msg = to_chars("Unknown file_chooser command: ");
        push_str(&mut msg, command);
        Err(from_chars(msg.as_slice()))
    }
}

/// The arguments of the `select` shim.
#[derive(Debug, Clone)]
pub struct SelectArgs {
    /// Show session options (filters, title, etc.).
    pub options: bool,
    /// Clear all selection.
    pub clear: bool,
    /// Remove files from selection (instead of adding).
    pub deselect: bool,
    /// Read files from stdin (one per line).
    pub stdin: bool,
    /// Files to select.
    pub files: Vec<String>,
}

/// The URIs of all files.
pub open spec fn uris_of(files: Seq<Seq<char>>, cwd: Seq<char>) -> Seq<Seq<char>> {
    Seq::new(files.len(), |i: int| uri_of(files[i], cwd))
}

/// The request that the `select` shim sends: the options if they are asked
/// for, else a clear if that is asked for; else the selection if no file is
/// named, else a select or a deselect of the files' URIs. `lines` are the
/// lines of standard input, which stand in for the files when `stdin` is
/// set; empty lines do not count.
pub fn cmd_select(args: &SelectArgs, lines: &[String], cwd: &str) -> (req: Request<NoExtension>)
    ensures
        args.options ==> req is GetOptions,
        !args.options && args.clear ==> req is Clear,
        !args.options && !args.clear ==> ({
            let named = if args.stdin {
                nonempty(views(lines@))
            } else {
                views(args.files@)
            };
            if named.len() == 0 {
                req is GetSelection
            } else if args.deselect {
                req matches Request::Deselect(v) && views(v@) == uris_of(named, cwd@)
            } else {
                req matches Request::Select(v) && views(v@) == uris_of(named, cwd@)
            }
        }),
{
    if args.options {
        return Request::GetOptions;
    }
    if args.clear {
        return Request::Clear;
    }
    let mut uris: Vec<String> = Vec::new();
    if args.stdin {
        let mut i: usize = 0;
        proof {
            reveal(Seq::filter);
            assert(views(lines@).take(0) =~= Seq::<Seq<char>>::empty());
            assert(views(uris@) =~= uris_of(nonempty(views(lines@).take(0)), cwd@));
        }
        while i < lines.len()
            invariant
                i <= lines.len(),
                views(uris@) == uris_of(nonempty(views(lines@).take(i as int)), cwd@),
            decreases lines.len() - i,
        {
            let ghost before = views(uris@);
            let ghost seen = nonempty(views(lines@).take(i as int));
            proof {
                reveal(Seq::filter);
                let now = views(lines@).take(i + 1);
                assert(now.drop_last() =~= views(lines@).take(i as int));
                assert(now.last() == lines@[i as int]@);
            }
            if lines[i].as_str().unicode_len() > 0 {
                uris.push(to_uri(lines[i].as_str(), cwd));
                proof {
                    assert(views(uris@) =~= before.push(uri_of(lines@[i as int]@, cwd@)));
                    assert(uris_of(seen.push(lines@[i as int]@), cwd@) =~= uris_of(seen, cwd@).push(
                        uri_of(lines@[i as int]@, cwd@),
                    ));
                }
            }
            i = i + 1;
        }
        assert(views(lines@).take(lines.len() as int) =~= views(lines@));
        assert(views(uris@).len() == uris@.len());
    } else {
        let mut i: usize = 0;
        while i < args.files.len()
            invariant
                i <= args.files.len(),
                uris@.len() == i,
                forall|j: int| 0 <= j < i ==> (#[trigger] uris@[j])@ == uri_of(
                    args.files@[j]@,
                    cwd@,
                ),
            decreases args.files.len() - i,
        {
            uris.push(to_uri(args.files[i].as_str(), cwd));
            i = i + 1;
        }
        assert(views(uris@) =~= uris_of(views(args.files@), cwd@));
        assert(views(uris@).len() == uris@.len());
    }
    if uris.len() == 0 {
        Request::GetSelection
    } else if args.deselect {
        Request::Deselect(uris)
    } else {
        Request::Select(uris)
    }
}

/// What the shim prints of the selection it asked for, and its exit code:
/// the selection line by line, with 1 if it is empty and 0 if not; 1 and a
/// complaint for any other answer or for none.
pub fn show_selection(reply: Result<Response<NoExtension>, String>) -> (r: (u8, Vec<String>))
    ensures
        match reply {
            Ok(Response::Selection(uris)) => r.1 == uris && r.0 == (if uris@.len() == 0 {
                1u8
            } else {
                0u8
            }),
            Ok(_) => r.0 == 1 && views(r.1@) == seq!["Unexpected response"@],
            Err(e) => r.0 == 1 && views(r.1@) == seq!["Failed to get selection: "@ + e@],
        },
{
    match reply {
        Ok(Response::Selection(uris)) => {
            if uris.len() == 0 {
                (1, uris)
            } else {
                (0, uris)
            }
        },
        Ok(_) => {
            let out = one_line("Unexpected response", "");
            proof {
                reveal_strlit("");
                assert("Unexpected response"@ + ""@ =~= "Unexpected response"@);
            }
            (1, out)
        },
        Err(e) => (1, one_line("Failed to get selection: ", e.as_str())),
    }
}

/// What the shim says, and its exit code, after it asked the session to
/// select or deselect.
pub fn select_answer(reply: Result<Response<NoExtension>, String>) -> (r: (u8, Vec<String>))
    ensures
        acknowledged(reply, "Failed to send request: "@, r),
{
    acknowledge(reply, "Failed to send request: ")
}

/// The text `head` and then `detail`.
fn line_of(head: &str, detail: &str) -> (out: String)
    ensures
        out@ == head@ + detail@,
{
    let mut line = to_chars(head);
    push_str(&mut line, detail);
    from_chars(line.as_slice())
}

/// One line: `head` and then `detail`.
fn one_line(head: &str, detail: &str) -> (out: Vec<String>)
    ensures
        views(out@) == seq![head@ + detail@],
{
    let mut out: Vec<String> = Vec::new();
    out.push(line_of(head, detail));
    assert(views(out@) =~= seq![head@ + detail@]);
    out
}

/// What a shim says of an answer that should be a plain `ok`, and its exit
/// code: nothing and 0 for `ok`; 1 and the error the session gave, or that
/// the answer was not expected, or `failed` and why no answer came.
pub open spec fn acknowledged(
    reply: Result<Response<NoExtension>, String>,
    failed: Seq<char>,
    r: (u8, Vec<String>),
) -> bool {
    match reply {
        Ok(Response::Okay) => r.0 == 0 && r.1@.len() == 0,
        Ok(Response::Error(e)) => r.0 == 1 && views(r.1@) == seq!["Error: "@ + e@],
        Ok(_) => r.0 == 1 && views(r.1@) == seq!["Unexpected response"@],
        Err(e) => r.0 == 1 && views(r.1@) == seq![failed + e@],
    }
}

/// What a shim says of an answer that should be a plain `ok`.
fn acknowledge(reply: Result<Response<NoExtension>, String>, failed: &str) -> (r: (u8, Vec<String>))
    ensures
        acknowledged(reply, failed@, r),
{
    match reply {
        Ok(Response::Okay) => (0, Vec::new()),
        Ok(Response::Error(e)) => (1, one_line("Error: ", e.as_str())),
        Ok(_) => {
            let out = one_line("Unexpected response", "");
            proof {
                reveal_strlit("");
                assert("Unexpected response"@ + ""@ =~= "Unexpected response"@);
            }
            (1, out)
        },
        Err(e) => (1, one_line(failed, e.as_str())),
    }
}

/// What the shim says, and its exit code, after it asked the session to
/// clear the selection.
pub fn clear_selection(reply: Result<Response<NoExtension>, String>) -> (r: (u8, Vec<String>))
    ensures
        acknowledged(reply, "Failed to clear selection: "@, r),
{
    acknowledge(reply, "Failed to clear selection: ")
}

/// What the shim says, and its exit code, after it asked the session to
/// submit.
pub fn cmd_submit(reply: Result<Response<NoExtension>, String>) -> (r: (u8, Vec<String>))
    ensures
        acknowledged(reply, "Failed to submit: "@, r),
{
    acknowledge(reply, "Failed to submit: ")
}

/// What the shim says, and its exit code, after it asked the session to
/// cancel.
pub fn cmd_cancel(reply: Result<Response<NoExtension>, String>) -> (r: (u8, Vec<String>))
    ensures
        acknowledged(reply, "Failed to cancel: "@, r),
{
    acknowledge(reply, "Failed to cancel: ")
}

/// The texts of the patterns of a filter.
pub open spec fn pattern_texts(patterns: Seq<FilterPattern>) -> Seq<Seq<char>> {
    Seq::new(patterns.len(), |i: int| patterns[i].text())
}

/// The line that shows a filter: its name, and its patterns in brackets
/// with commas between them.
pub open spec fn filter_line(f: Filter) -> Seq<char> {
    "  "@ + f.name@ + ": ["@ + joined(pattern_texts(f.patterns@), ", "@) + "]"@
}

/// The lines that show the filters.
pub open spec fn filter_lines(filters: Seq<Filter>) -> Seq<Seq<char>> {
    Seq::new(filters.len(), |i: int| filter_line(filters[i]))
}

/// The lines that show the options of a session: the title, whether several
/// entries and whether directories may be picked, whether something is
/// saved; then the suggested name of a single save, the current folder and
/// the filters, each only if there is one.
pub open spec fn options_lines(o: SessionOptions) -> Seq<Seq<char>> {
    seq![
        "Title: "@ + o.title@,
        "Multiple: "@ + bool_text(o.mode matches SelectionMode::Pick { multiple: true, .. }),
        "Directory: "@ + bool_text(o.mode matches SelectionMode::Pick { directory: true, .. }),
        "Save mode: "@ + bool_text(!(o.mode is Pick)),
    ] + (if o.mode is Save && o.candidates@.len() > 0 {
        seq!["Current name: "@ + o.candidates@[0]@]
    } else {
        Seq::empty()
    }) + (match o.current_folder {
        Some(folder) => seq!["Current folder: "@ + folder@],
        None => Seq::empty(),
    }) + (if o.filters@.len() > 0 {
        seq!["Filters:"@] + filter_lines(o.filters@)
    } else {
        Seq::empty()
    })
}

/// The line that shows a filter.
fn filter_text(f: &Filter) -> (out: String)
    ensures
        out@ == filter_line(*f),
{
    let mut texts: Vec<String> = Vec::new();
    let mut i: usize = 0;
    while i < f.patterns.len()
        invariant
            i <= f.patterns.len(),
            texts@.len() == i,
            forall|j: int| 0 <= j < i ==> (#[trigger] texts@[j])@ == f.patterns@[j].text(),
        decreases f.patterns.len() - i,
    {
        texts.push(f.patterns[i].to_string());
        i = i + 1;
    }
    assert(views(texts@) =~= pattern_texts(f.patterns@));
    let mut line = to_chars("  ");
    push_str(&mut line, f.name.as_str());
    push_str(&mut line, ": [");
    push_joined(&mut line, texts.as_slice(), ", ");
    push_str(&mut line, "]");
    from_chars(line.as_slice())
}

/// The lines that show the options of a session.
pub fn option_lines(o: &SessionOptions) -> (out: Vec<String>)
    ensures
        views(out@) == options_lines(*o),
{
    let (multiple, directory, save) = match o.mode {
        SelectionMode::Pick { multiple, directory } => (multiple, directory, false),
        _ => (false, false, true),
    };
    let mut out: Vec<String> = Vec::new();
    out.push(line_of("Title: ", o.title.as_str()));
    out.push(line_of("Multiple: ", bool_string(multiple).as_str()));
    out.push(line_of("Directory: ", bool_string(directory).as_str()));
    out.push(line_of("Save mode: ", bool_string(save).as_str()));
    let ghost head = views(out@);
    assert(head =~= seq![
        "Title: "@ + o.title@,
        "Multiple: "@ + bool_text(multiple),
        "Directory: "@ + bool_text(directory),
        "Save mode: "@ + bool_text(save),
    ]);
    let is_save = match o.mode {
        SelectionMode::Save => true,
        _ => false,
    };
    if is_save && o.candidates.len() > 0 {
        out.push(line_of("Current name: ", o.candidates[0].as_str()));
    }
    let ghost named = views(out@);
    assert(named =~= head + (if o.mode is Save && o.candidates@.len() > 0 {
        seq!["Current name: "@ + o.candidates@[0]@]
    } else {
        Seq::empty()
    }));
    match &o.current_folder {
        Some(folder) => {
            out.push(line_of("Current folder: ", folder.as_str()));
        },
        None => {},
    }
    let ghost placed = views(out@);
    assert(placed =~= named + (match o.current_folder {
        Some(folder) => seq!["Current folder: "@ + folder@],
        None => Seq::empty(),
    }));
    if o.filters.len() > 0 {
        out.push("Filters:".to_owned());
        let ghost start = views(out@);
        assert(start =~= placed + seq!["Filters:"@]);
        let mut i: usize = 0;
        while i < o.filters.len()
            invariant
                i <= o.filters.len(),
                views(out@) == start + filter_lines(o.filters@).take(i as int),
            decreases o.filters.len() - i,
        {
            let ghost before = views(out@);
            let text = filter_text(&o.filters[i]);
            out.push(text);
            proof {
                assert(views(out@) =~= before.push(filter_line(o.filters@[i as int])));
                assert(filter_lines(o.filters@).take(i + 1) =~= filter_lines(o.filters@).take(
                    i as int,
                ).push(filter_line(o.filters@[i as int])));
            }
            i = i + 1;
        }
        assert(filter_lines(o.filters@).take(o.filters.len() as int) =~= filter_lines(o.filters@));
        assert(views(out@) =~= placed + (seq!["Filters:"@] + filter_lines(o.filters@)));
    } else {
        assert(views(out@) =~= placed + Seq::<Seq<char>>::empty());
    }
    out
}

/// What the shim prints of the session's options, and its exit code: the
/// lines of the options and 0; 1 and a complaint for any other answer or
/// for none.
pub fn show_session_options(reply: Result<Response<NoExtension>, String>) -> (r: (
    u8,
    Vec<String>,
))
    ensures
        match reply {
            Ok(Response::Options(o)) => r.0 == 0 && views(r.1@) == options_lines(o),
            Ok(_) => r.0 == 1 && views(r.1@) == seq!["Unexpected response"@],
            Err(e) => r.0 == 1 && views(r.1@) == seq!["Failed to get options: "@ + e@],
        },
{
    match reply {
        Ok(Response::Options(o)) => (0, option_lines(&o)),
        Ok(_) => {
            let out = one_line("Unexpected response", "");
            proof {
                reveal_strlit("");
                assert("Unexpected response"@ + ""@ =~= "Unexpected response"@);
            }
            (1, out)
        },
        Err(e) => (1, one_line("Failed to get options: ", e.as_str())),
    }
}

} // verus!

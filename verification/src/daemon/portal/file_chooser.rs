//! The file-chooser handler: session options for each request, and the reply
//! for each end of a session.

use crate::daemon::config::Config;
use crate::ipc::file_chooser::{Filter, FilterPattern, SelectionMode, SessionOptions};
use crate::ipc::queue::{apply_commands, command_views, selection_after_all, Submission};
use crate::portal::file_chooser::{join, join_path, pick_folder, picked, PathKind};
use crate::protocol::opt_view;
use crate::text::{from_chars, push_str, strip_prefix_or_same, to_chars, views, without_prefix};
use crate::types::file_chooser::{
    opt_bytes, pattern_of, FileChooserError, FileChooserResult, FileFilter,
    FilterPattern as PortalFilterPattern, OpenFileOptions, SaveFileOptions, SaveFilesOptions,
};
use std::sync::Arc;
use vstd::prelude::*;

verus! {

/// File chooser handler that serves requests through terminal sessions.
pub struct TtyFileChooser<S> {
    pub config: Arc<Config>,
    pub state: S,
}

impl<S> TtyFileChooser<S> {
    pub fn new(config: Arc<Config>, state: S) -> (h: TtyFileChooser<S>)
        ensures
            h.config == config,
            h.state == state,
    {
        TtyFileChooser { config, state }
    }
}

/// The text of a byte string, as `String::from_utf8_lossy` gives it: the
/// bytes decoded as UTF-8, each malformed part replaced by U+FFFD.
pub uninterp spec fn lossy_text(bytes: Seq<u8>) -> Seq<char>;

/// `String::from_utf8_lossy` on `bytes`, as an owned string.
#[verifier::external_body]
fn lossy_string(bytes: &[u8]) -> (out: String)
    ensures
        out@ == lossy_text(bytes@),
{
    String::from_utf8_lossy(bytes).into_owned()
}

/// The folder of a request, as text.
pub open spec fn folder_text(folder: Option<Seq<u8>>) -> Option<Seq<char>> {
    match folder {
        Some(b) => Some(lossy_text(b)),
        None => None,
    }
}

/// The folder of a request, as text.
fn folder_string(folder: Option<&[u8]>) -> (out: Option<String>)
    ensures
        opt_view(out) == folder_text(
            match folder {
                Some(b) => Some(b@),
                None => None,
            },
        ),
{
    match folder {
        Some(b) => Some(lossy_string(b)),
        None => None,
    }
}

/// The session pattern that a portal pattern stands for.
pub open spec fn converted_pattern(p: (u32, Seq<char>), out: FilterPattern) -> bool {
    if p.0 == 0 {
        out matches FilterPattern::Glob(s) && s@ == p.1
    } else {
        out matches FilterPattern::MimeType(s) && s@ == p.1
    }
}

/// Whether `out` is the session filter for the portal filter `f`: the same
/// name, and pattern for pattern the same kind and text.
pub open spec fn converted_filter(f: FileFilter, out: Filter) -> bool {
    &&& out.name@ == f@.name
    &&& out.patterns@.len() == f@.patterns.len()
    &&& forall|i: int|
        0 <= i < out.patterns@.len() ==> converted_pattern(
            f@.patterns[i],
            #[trigger] out.patterns@[i],
        )
}

/// Convert portal filters to session filters.
pub fn convert_filters(filters: &[FileFilter]) -> (out: Vec<Filter>)
    ensures
        out@.len() == filters@.len(),
        forall|i: int| 0 <= i < out@.len() ==> converted_filter(filters@[i], #[trigger] out@[i]),
{
    let mut out: Vec<Filter> = Vec::new();
    let mut i: usize = 0;
    while i < filters.len()
        invariant
            i <= filters.len(),
            out@.len() == i,
            forall|j: int| 0 <= j < i ==> converted_filter(filters@[j], #[trigger] out@[j]),
        decreases filters.len() - i,
    {
        let f = &filters[i];
        let pats = f.patterns();
        let mut patterns: Vec<FilterPattern> = Vec::new();
        let mut k: usize = 0;
        while k < pats.len()
            invariant
                k <= pats.len(),
                pats@.len() == f@.patterns.len(),
                forall|j: int| 0 <= j < pats@.len() ==> (#[trigger] pats@[j])@ == pattern_of(
                    f@.patterns[j],
                ),
                patterns@.len() == k,
                forall|j: int|
                    0 <= j < k ==> converted_pattern(f@.patterns[j], #[trigger] patterns@[j]),
            decreases pats.len() - k,
        {
            assert(pats@[k as int]@ == pattern_of(f@.patterns[k as int]));
            match &pats[k] {
                PortalFilterPattern::Glob(s) => {
                    patterns.push(FilterPattern::Glob((*s).to_owned()));
                },
                PortalFilterPattern::MimeType(s) => {
                    patterns.push(FilterPattern::MimeType((*s).to_owned()));
                },
            }
            k = k + 1;
        }
        out.push(Filter { name: f.name().to_owned(), patterns });
        i = i + 1;
    }
    out
}

/// The session options for an OpenFile request.
pub fn open_file(title: String, options: &OpenFileOptions) -> (o: SessionOptions)
    ensures
        o.title == title,
        o.mode == (SelectionMode::Pick {
            multiple: options.multiple == Some(true),
            directory: options.directory == Some(true),
        }),
        opt_view(o.current_folder) == folder_text(opt_bytes(options.current_folder)),
        o.candidates@.len() == 0,
        o.filters@.len() == options.filters@.len(),
        forall|i: int|
            0 <= i < o.filters@.len() ==> converted_filter(
                options.filters@[i],
                #[trigger] o.filters@[i],
            ),
        o.current_filter is None,
{
    let multiple = match options.multiple() {
        Some(b) => b,
        None => false,
    };
    let directory = match options.directory() {
        Some(b) => b,
        None => false,
    };
    SessionOptions {
        title,
        mode: SelectionMode::Pick { multiple, directory },
        current_folder: folder_string(options.current_folder()),
        candidates: Vec::new(),
        filters: convert_filters(options.filters()),
        current_filter: None,
    }
}

/// The session options for a SaveFile request: the suggested name, if there
/// is one, is the only candidate.
pub fn save_file(title: String, options: &SaveFileOptions) -> (o: SessionOptions)
    ensures
        o.title == title,
        o.mode == SelectionMode::Save,
        opt_view(o.current_folder) == folder_text(opt_bytes(options.current_folder)),
        views(o.candidates@) == match opt_view(options.current_name) {
            Some(n) => seq![n],
            None => Seq::<Seq<char>>::empty(),
        },
        o.filters@.len() == options.filters@.len(),
        forall|i: int|
            0 <= i < o.filters@.len() ==> converted_filter(
                options.filters@[i],
                #[trigger] o.filters@[i],
            ),
        o.current_filter is None,
{
    let mut candidates: Vec<String> = Vec::new();
    match options.current_name() {
        Some(n) => {
            candidates.push(n.to_owned());
            assert(views(candidates@) =~= seq![n@]);
        },
        None => {
            assert(views(candidates@) =~= Seq::<Seq<char>>::empty());
        },
    }
    SessionOptions {
        title,
        mode: SelectionMode::Save,
        current_folder: folder_string(options.current_folder()),
        candidates,
        filters: convert_filters(options.filters()),
        current_filter: None,
    }
}

/// A file name of the wire without the zero byte that may close it.
pub open spec fn without_nul(bytes: Seq<u8>) -> Seq<u8> {
    if bytes.len() > 0 && bytes.last() == 0 {
        bytes.drop_last()
    } else {
        bytes
    }
}

/// The candidate names of a SaveFiles request.
pub open spec fn file_names(files: Seq<Vec<u8>>) -> Seq<Seq<char>> {
    Seq::new(files.len(), |i: int| lossy_text(without_nul(files[i]@)))
}

/// The session options for a SaveFiles request: the file names are the
/// candidates.
pub fn save_files(title: String, options: &SaveFilesOptions) -> (o: SessionOptions)
    ensures
        o.title == title,
        o.mode == SelectionMode::SaveMultiple,
        opt_view(o.current_folder) == folder_text(opt_bytes(options.current_folder)),
        views(o.candidates@) == file_names(options.files@),
        o.filters@.len() == 0,
        o.current_filter is None,
{
    let files = options.files();
    let mut candidates: Vec<String> = Vec::new();
    let mut i: usize = 0;
    while i < files.len()
        invariant
            i <= files.len(),
            files@ == options.files@,
            candidates@.len() == i,
            forall|j: int| 0 <= j < i ==> (#[trigger] candidates@[j])@ == lossy_text(
                without_nul(files@[j]@),
            ),
        decreases files.len() - i,
    {
        let f = &files[i];
        let n = f.len();
        let name = if n > 0 && f[n - 1] == 0 {
            let head = vstd::slice::slice_subrange(f.as_slice(), 0, n - 1);
            assert(head@ =~= f@.drop_last());
            lossy_string(head)
        } else {
            lossy_string(f.as_slice())
        };
        candidates.push(name);
        i = i + 1;
    }
    assert(views(candidates@) =~= file_names(options.files@));
    SessionOptions {
        title,
        mode: SelectionMode::SaveMultiple,
        current_folder: folder_string(options.current_folder()),
        candidates,
        filters: Vec::new(),
        current_filter: None,
    }
}

/// The URIs for SaveFiles: each file name inside the selected folder, as
/// `file://` and the path.
pub open spec fn save_files_uris(folder: Seq<char>, files: Seq<Seq<char>>) -> Seq<Seq<char>> {
    Seq::new(files.len(), |i: int| "file://"@ + join_path(folder, files[i]))
}

/// Build URIs for SaveFiles by appending filenames to the selected folder.
/// The folder is what the first selected entry names without its `file://`,
/// or the directory that holds it when `kind` says that a file stands
/// there. Nothing selected gives nothing.
pub fn build_save_files_uris(selected: &[String], files: &[String], kind: PathKind) -> (out: Vec<
    String,
>)
    ensures
        selected@.len() == 0 ==> out@.len() == 0,
        selected@.len() > 0 ==> views(out@) == save_files_uris(
            picked(without_prefix(selected@[0]@, "file://"@), kind),
            views(files@),
        ),
{
    let mut out: Vec<String> = Vec::new();
    if selected.len() == 0 {
        return out;
    }
    let first = to_chars(selected[0].as_str());
    let folder_chars = strip_prefix_or_same(first.as_slice(), "file://");
    let folder = pick_folder(from_chars(folder_chars.as_slice()), kind);
    let mut i: usize = 0;
    while i < files.len()
        invariant
            i <= files.len(),
            out@.len() == i,
            forall|j: int| 0 <= j < i ==> (#[trigger] out@[j])@ == "file://"@ + join_path(
                folder@,
                files@[j]@,
            ),
        decreases files.len() - i,
    {
        let full = join(folder.as_str(), files[i].as_str());
        let mut uri = to_chars("file://");
        push_str(&mut uri, full.as_str());
        out.push(from_chars(uri.as_slice()));
        i = i + 1;
    }
    assert(views(out@) =~= save_files_uris(folder@, views(files@)));
    out
}

/// What a queued submission is worth to a request that finds it: the
/// selection that its commands leave, or a cancellation if they leave none.
pub fn queued_result(submission: &Submission) -> (r: Result<FileChooserResult, FileChooserError>)
    ensures
        ({
            let selection = selection_after_all(
                Seq::<Seq<char>>::empty(),
                command_views(submission.commands@),
            );
            if selection.len() == 0 {
                r matches Err(FileChooserError::Cancelled)
            } else {
                r matches Ok(res) && res@.just(selection)
            }
        }),
{
    let start: Vec<String> = Vec::new();
    assert(views(start@) =~= Seq::<Seq<char>>::empty());
    let selection = apply_commands(start, submission.commands.as_slice());
    assert(views(selection@).len() == selection@.len());
    if selection.len() == 0 {
        Err(FileChooserError::Cancelled)
    } else {
        let res = FileChooserResult::new().uris(selection);
        assert(Seq::<Seq<char>>::empty() + views(selection@) =~= views(selection@));
        Ok(res)
    }
}

/// The reply for the end of a session: the entries, a cancellation, or the
/// error that the session ran into.
pub fn session_reply(
    result: Result<Vec<String>, crate::daemon::portal::SessionError>,
) -> (r: Result<
    FileChooserResult,
    FileChooserError,
>)
    ensures
        match result {
            Ok(entries) => r matches Ok(res) && res@.just(views(entries@)),
            Err(crate::daemon::portal::SessionError::Cancelled) => r matches Err(
                FileChooserError::Cancelled,
            ),
            Err(crate::daemon::portal::SessionError::Other(msg)) => r matches Err(
                FileChooserError::Other(m),
            ) && m == msg,
        },
{
    match result {
        Ok(entries) => {
            let res = FileChooserResult::new().uris(entries);
            assert(Seq::<Seq<char>>::empty() + views(entries@) =~= views(entries@));
            Ok(res)
        },
        Err(crate::daemon::portal::SessionError::Cancelled) => Err(FileChooserError::Cancelled),
        Err(crate::daemon::portal::SessionError::Other(msg)) => Err(FileChooserError::Other(msg)),
    }
}

} // verus!

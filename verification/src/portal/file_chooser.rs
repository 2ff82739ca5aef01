//! File-chooser submissions: arity per operation, and entries resolved to
//! `file://` URIs.

use crate::files::{append_lines, rendered, write_lines};
use crate::number::{decimal, u64_to_decimal};
use crate::portal::AddResult;
use crate::protocol::opt_view;
use crate::text::{
    from_chars, has_prefix, is_str, push_all, push_str, starts_with_str, strip_prefix_or_same,
    to_chars, views, without_prefix,
};
use crate::types::file_chooser::opt_str;
use vstd::prelude::*;

verus! {

/// How the file chooser session operates.
#[derive(Debug, Clone, Copy, PartialEq, Eq, Structural)]
pub enum SelectionMode {
    /// Browse and pick files/directories.
    Pick { multiple: bool, directory: bool },
    /// Save a single file (suggest one filename).
    Save,
    /// Save multiple files (app provides filenames, user picks folder).
    SaveMultiple,
}

impl SelectionMode {
    /// The name shown to people.
    pub open spec fn label(self) -> Seq<char> {
        match self {
            SelectionMode::Pick { multiple: false, directory: false } => "Pick"@,
            SelectionMode::Pick { multiple: true, directory: false } => "Pick (multiple)"@,
            SelectionMode::Pick { multiple: false, directory: true } => "Pick (directory)"@,
            SelectionMode::Pick { multiple: true, directory: true } => "Pick (multiple, directory)"@,
            SelectionMode::Save => "Save"@,
            SelectionMode::SaveMultiple => "SaveMultiple"@,
        }
    }

    /// The name shown to people.
    pub fn to_string(&self) -> (out: String)
        ensures
            out@ == self.label(),
    {
        match self {
            SelectionMode::Pick { multiple: false, directory: false } => "Pick".to_owned(),
            SelectionMode::Pick { multiple: true, directory: false } => "Pick (multiple)".to_owned(),
            SelectionMode::Pick { multiple: false, directory: true } => "Pick (directory)".to_owned(),
            SelectionMode::Pick { multiple: true, directory: true } => "Pick (multiple, directory)".to_owned(),
            SelectionMode::Save => "Save".to_owned(),
            SelectionMode::SaveMultiple => "SaveMultiple".to_owned(),
        }
    }

    /// Whether exactly one file or directory is to be picked.
    pub open spec fn single_pick(self) -> bool {
        self matches SelectionMode::Pick { multiple: false, .. }
    }

    /// Whether entries add up: only when several may be picked.
    pub open spec fn appends(self) -> bool {
        self matches SelectionMode::Pick { multiple: true, .. }
    }
}

impl Default for SelectionMode {
    fn default() -> (m: SelectionMode)
        ensures
            m == (SelectionMode::Pick { multiple: false, directory: false }),
    {
        SelectionMode::Pick { multiple: false, directory: false }
    }
}

/// Filter pattern type.
#[derive(Debug, Clone)]
pub enum FilterPattern {
    Glob(String),
    MimeType(String),
}

impl FilterPattern {
    /// The pattern as shown to people: its kind, a dash, its text.
    pub open spec fn text(self) -> Seq<char> {
        match self {
            FilterPattern::Glob(s) => "Glob - "@ + s@,
            FilterPattern::MimeType(s) => "Mime - "@ + s@,
        }
    }

    /// The pattern as shown to people.
    pub fn to_string(&self) -> (out: String)
        ensures
            out@ == self.text(),
    {
        let mut out: Vec<char> = Vec::new();
        match self {
            FilterPattern::Glob(s) => {
                push_str(&mut out, "Glob - ");
                push_str(&mut out, s.as_str());
            },
            FilterPattern::MimeType(s) => {
                push_str(&mut out, "Mime - ");
                push_str(&mut out, s.as_str());
            },
        }
        from_chars(out.as_slice())
    }
}

/// File filter.
#[derive(Debug, Clone)]
pub struct Filter {
    pub name: String,
    pub patterns: Vec<FilterPattern>,
}

/// Session options for file chooser.
#[derive(Debug, Clone)]
pub struct SessionOptions {
    /// Dialog title.
    pub title: String,
    /// Selection mode.
    pub mode: SelectionMode,
    /// Current folder path.
    pub current_folder: Option<String>,
    /// Candidate filenames: suggested name for Save, file list for
    /// SaveMultiple, empty for Pick.
    pub candidates: Vec<String>,
    /// File filters.
    pub filters: Vec<Filter>,
    /// Currently active filter index.
    pub current_filter: Option<usize>,
}

/// What a pattern says: whether it is a glob, and its text.
pub open spec fn pattern_parts(p: FilterPattern) -> (bool, Seq<char>) {
    match p {
        FilterPattern::Glob(s) => (true, s@),
        FilterPattern::MimeType(s) => (false, s@),
    }
}

/// What a filter says: its name, and what its patterns say.
pub open spec fn filter_parts(f: Filter) -> (Seq<char>, Seq<(bool, Seq<char>)>) {
    (f.name@, Seq::new(f.patterns@.len(), |i: int| pattern_parts(f.patterns@[i])))
}

/// What session options say.
pub struct SessionOptionsView {
    pub title: Seq<char>,
    pub mode: SelectionMode,
    pub current_folder: Option<Seq<char>>,
    pub candidates: Seq<Seq<char>>,
    pub filters: Seq<(Seq<char>, Seq<(bool, Seq<char>)>)>,
    pub current_filter: Option<usize>,
}

impl View for SessionOptions {
    type V = SessionOptionsView;

    open spec fn view(&self) -> SessionOptionsView {
        SessionOptionsView {
            title: self.title@,
            mode: self.mode,
            current_folder: opt_view(self.current_folder),
            candidates: views(self.candidates@),
            filters: Seq::new(self.filters@.len(), |i: int| filter_parts(self.filters@[i])),
            current_filter: self.current_filter,
        }
    }
}

/// A copy of a filter.
fn copy_filter(f: &Filter) -> (out: Filter)
    ensures
        filter_parts(out) == filter_parts(*f),
{
    let mut patterns: Vec<FilterPattern> = Vec::new();
    let mut i: usize = 0;
    while i < f.patterns.len()
        invariant
            i <= f.patterns.len(),
            patterns@.len() == i,
            forall|j: int|
                0 <= j < i ==> pattern_parts(#[trigger] patterns@[j]) == pattern_parts(
                    f.patterns@[j],
                ),
        decreases f.patterns.len() - i,
    {
        match &f.patterns[i] {
            FilterPattern::Glob(s) => patterns.push(FilterPattern::Glob(s.clone())),
            FilterPattern::MimeType(s) => patterns.push(FilterPattern::MimeType(s.clone())),
        }
        i = i + 1;
    }
    let out = Filter { name: f.name.clone(), patterns };
    assert(filter_parts(out).1 =~= filter_parts(*f).1);
    out
}

impl SessionOptions {
    /// A copy of the options.
    pub fn duplicate(&self) -> (out: SessionOptions)
        ensures
            out@ == self@,
    {
        let mut candidates: Vec<String> = Vec::new();
        let mut i: usize = 0;
        while i < self.candidates.len()
            invariant
                i <= self.candidates.len(),
                candidates@.len() == i,
                forall|j: int| 0 <= j < i ==> (#[trigger] candidates@[j])@ == self.candidates@[j]@,
            decreases self.candidates.len() - i,
        {
            candidates.push(self.candidates[i].clone());
            i = i + 1;
        }
        let mut filters: Vec<Filter> = Vec::new();
        let mut k: usize = 0;
        while k < self.filters.len()
            invariant
                k <= self.filters.len(),
                filters@.len() == k,
                forall|j: int|
                    0 <= j < k ==> filter_parts(#[trigger] filters@[j]) == filter_parts(
                        self.filters@[j],
                    ),
            decreases self.filters.len() - k,
        {
            filters.push(copy_filter(&self.filters[k]));
            k = k + 1;
        }
        let out = SessionOptions {
            title: self.title.clone(),
            mode: self.mode,
            current_folder: match &self.current_folder {
                Some(f) => Some(f.clone()),
                None => None,
            },
            candidates,
            filters,
            current_filter: self.current_filter,
        };
        assert(out@.candidates =~= self@.candidates);
        assert(out@.filters =~= self@.filters);
        out
    }
}

impl Default for SessionOptions {
    fn default() -> (o: SessionOptions)
        ensures
            o.title@.len() == 0,
            o.mode == (SelectionMode::Pick { multiple: false, directory: false }),
            o.current_folder is None,
            o.candidates@.len() == 0,
            o.filters@.len() == 0,
            o.current_filter is None,
    {
        SessionOptions {
            title: String::new(),
            mode: SelectionMode::Pick { multiple: false, directory: false },
            current_folder: None,
            candidates: Vec::new(),
            filters: Vec::new(),
            current_filter: None,
        }
    }
}

/// What stands on disk at a path.
#[derive(Debug, Clone, Copy, PartialEq, Eq, Structural)]
pub enum PathKind {
    /// A regular file.
    File,
    /// A directory.
    Directory,
    /// Nothing, or something else.
    Other,
}

/// Whether a path starts at the root.
pub open spec fn is_absolute(p: Seq<char>) -> bool {
    p.len() > 0 && p[0] == '/'
}

/// `p` taken from the directory `base`: `p` itself when it is absolute, else
/// `base`, a slash unless `base` is empty or ends in one, and `p`.
pub open spec fn join_path(base: Seq<char>, p: Seq<char>) -> Seq<char> {
    if is_absolute(p) {
        p
    } else if base.len() > 0 && base.last() != '/' {
        base + seq!['/'] + p
    } else {
        base + p
    }
}

/// The path that an entry names: a leading `file://` is dropped, and a
/// relative path is taken from `folder` where there is one.
pub open spec fn resolved(entry: Seq<char>, folder: Option<Seq<char>>) -> Seq<char> {
    let p = without_prefix(entry, "file://"@);
    if is_absolute(p) {
        p
    } else {
        match folder {
            Some(f) => join_path(f, p),
            None => p,
        }
    }
}

/// The text of the `file` URL that stands for an absolute path: `file://`,
/// then each component of the path after a slash, percent-encoded.
pub uninterp spec fn file_url_text(path: Seq<char>) -> Seq<char>;

/// The directory that holds `path`, as `Path::parent` gives it: the path
/// without its last component, or nothing for the root and the empty path.
pub uninterp spec fn parent_text(path: Seq<char>) -> Option<Seq<char>>;

/// `Url::from_file_path` on `path`, as text. It accepts exactly the absolute
/// paths; the URL it builds starts with `file://` and a slash for the root.
#[verifier::external_body]
fn file_url_from_path(path: &str) -> (r: Option<String>)
    ensures
        r is Some <==> is_absolute(path@),
        r matches Some(u) ==> u@ == file_url_text(path@) && has_prefix(u@, "file:///"@),
{
    url::Url::from_file_path(path).ok().map(String::from)
}

/// `Path::parent` on `path`, as text.
#[verifier::external_body]
fn path_parent(path: &str) -> (r: Option<String>)
    ensures
        opt_view(r) == parent_text(path@),
{
    std::path::Path::new(path).parent().map(|p| p.display().to_string())
}

/// The URI for a path: the `file` URL of an absolute path; for any other,
/// `file://` and the path as it is.
pub open spec fn file_uri(path: Seq<char>) -> Seq<char> {
    if is_absolute(path) {
        file_url_text(path)
    } else {
        "file://"@ + path
    }
}

/// The URI that an entry resolves to.
pub open spec fn entry_uri(entry: Seq<char>, folder: Option<Seq<char>>) -> Seq<char> {
    file_uri(resolved(entry, folder))
}

/// Joins a path to a directory.
pub fn join(base: &str, p: &str) -> (out: String)
    ensures
        out@ == join_path(base@, p@),
{
    let pc = to_chars(p);
    if pc.len() > 0 && pc[0] == '/' {
        return from_chars(pc.as_slice());
    }
    let mut out = to_chars(base);
    if out.len() > 0 && out[out.len() - 1] != '/' {
        out.push('/');
    }
    push_all(&mut out, pc.as_slice());
    from_chars(out.as_slice())
}

/// Resolve an entry string to an absolute path, using current_folder for
/// relative paths.
pub fn resolve_path(entry: &str, current_folder: Option<&str>) -> (out: String)
    ensures
        out@ == resolved(entry@, opt_str(current_folder)),
{
    let e = to_chars(entry);
    let p = strip_prefix_or_same(e.as_slice(), "file://");
    let path = from_chars(p.as_slice());
    if p.len() > 0 && p[0] == '/' {
        path
    } else {
        match current_folder {
            Some(folder) => join(folder, path.as_str()),
            None => path,
        }
    }
}

/// Convert a path to a file:// URI with proper percent-encoding.
pub fn path_to_file_uri(path: &str) -> (out: String)
    ensures
        out@ == file_uri(path@),
        has_prefix(out@, "file://"@),
        is_absolute(path@) ==> has_prefix(out@, "file:///"@),
{
    proof {
        reveal_strlit("file://");
        reveal_strlit("file:///");
    }
    match file_url_from_path(path) {
        Some(u) => {
            assert(u@.take(7) =~= u@.take(8).take(7));
            assert("file:///"@.take(7) =~= "file://"@);
            u
        },
        None => {
            let mut out = to_chars("file://");
            push_str(&mut out, path);
            assert(out@.take(7) =~= "file://"@);
            from_chars(out.as_slice())
        },
    }
}

/// Resolve an entry to a file:// URI, resolving relative paths against
/// current_folder.
pub fn resolve_to_uri(entry: &str, current_folder: Option<&str>) -> (out: String)
    ensures
        out@ == entry_uri(entry@, opt_str(current_folder)),
        has_prefix(out@, "file://"@),
        is_absolute(resolved(entry@, opt_str(current_folder))) ==> has_prefix(out@, "file:///"@),
{
    let path = resolve_path(entry, current_folder);
    path_to_file_uri(path.as_str())
}

/// The path of a save-file entry: when the entry names a directory and a
/// candidate name is given and not empty, the candidate inside that
/// directory; else the entry itself.
pub open spec fn save_file_path(
    entry: Seq<char>,
    folder: Option<Seq<char>>,
    candidate: Option<Seq<char>>,
    kind: PathKind,
) -> Seq<char> {
    let selected = resolved(entry, folder);
    match candidate {
        Some(name) => if name.len() > 0 && kind == PathKind::Directory {
            join_path(selected, name)
        } else {
            selected
        },
        None => selected,
    }
}

/// The URI of a save-file entry: that of its path.
pub open spec fn save_file_uri(
    entry: Seq<char>,
    folder: Option<Seq<char>>,
    candidate: Option<Seq<char>>,
    kind: PathKind,
) -> Seq<char> {
    file_uri(save_file_path(entry, folder, candidate, kind))
}

/// Resolve a save-file entry to a file:// URI.
///
/// If the selected path is a directory and a candidate filename exists,
/// append that filename to produce the final target file path. `kind` says
/// what stands on disk at the resolved entry.
pub fn resolve_save_file_to_uri(
    entry: &str,
    current_folder: Option<&str>,
    candidate_name: Option<&str>,
    kind: PathKind,
) -> (out: String)
    ensures
        out@ == save_file_uri(entry@, opt_str(current_folder), opt_str(candidate_name), kind),
        has_prefix(out@, "file://"@),
        is_absolute(
            save_file_path(entry@, opt_str(current_folder), opt_str(candidate_name), kind),
        ) ==> has_prefix(out@, "file:///"@),
{
    let selected = resolve_path(entry, current_folder);
    match candidate_name {
        Some(name) => {
            if name.unicode_len() > 0 && kind == PathKind::Directory {
                let target = join(selected.as_str(), name);
                return path_to_file_uri(target.as_str());
            }
        },
        None => {},
    }
    path_to_file_uri(selected.as_str())
}

/// The URIs of all entries.
pub open spec fn entry_uris(entries: Seq<Seq<char>>, folder: Option<Seq<char>>) -> Seq<Seq<char>> {
    Seq::new(entries.len(), |i: int| entry_uri(entries[i], folder))
}

/// The folder that a path picks: the path itself, or the directory that
/// holds it when a file stands there.
pub open spec fn picked(path: Seq<char>, kind: PathKind) -> Seq<char> {
    if kind == PathKind::File {
        match parent_text(path) {
            Some(p) => p,
            None => path,
        }
    } else {
        path
    }
}

/// The folder that a save-files submission picked: the first entry, or the
/// directory that holds it when it names a file.
pub open spec fn picked_folder(entry: Seq<char>, folder: Option<Seq<char>>, kind: PathKind) -> Seq<
    char,
> {
    picked(resolved(entry, folder), kind)
}

/// The folder that a path picks, given what stands on disk at the path.
pub fn pick_folder(path: String, kind: PathKind) -> (out: String)
    ensures
        out@ == picked(path@, kind),
{
    if kind == PathKind::File {
        match path_parent(path.as_str()) {
            Some(p) => p,
            None => path,
        }
    } else {
        path
    }
}

/// One URI per candidate name, each inside `folder`.
pub open spec fn candidate_uris(folder: Seq<char>, names: Seq<Seq<char>>) -> Seq<Seq<char>> {
    Seq::new(names.len(), |i: int| file_uri(join_path(folder, names[i])))
}

/// The first candidate name, if any.
pub open spec fn first_candidate(names: Seq<Seq<char>>) -> Option<Seq<char>> {
    if names.len() > 0 {
        Some(names[0])
    } else {
        None
    }
}

/// The paths that an accepted submission stands for, one for each URI that
/// the validator gives: the target of a save-file; for save-files with
/// candidate names, each name inside the picked folder; else each entry,
/// resolved.
pub open spec fn accepted_paths(
    operation: Seq<char>,
    entries: Seq<Seq<char>>,
    folder: Option<Seq<char>>,
    candidates: Seq<Seq<char>>,
    kind: PathKind,
) -> Seq<Seq<char>> {
    if operation == "save-file"@ {
        seq![save_file_path(entries[0], folder, first_candidate(candidates), kind)]
    } else if operation == "save-files"@ && candidates.len() > 0 {
        Seq::new(
            candidates.len(),
            |i: int| join_path(picked_folder(entries[0], folder, kind), candidates[i]),
        )
    } else {
        Seq::new(entries.len(), |i: int| resolved(entries[i], folder))
    }
}

/// Whether `uris` are the URIs of `paths`, one for one, and each URI of an
/// absolute path starts with `file:///`.
pub open spec fn rooted(uris: Seq<Seq<char>>, paths: Seq<Seq<char>>) -> bool {
    &&& uris.len() == paths.len()
    &&& forall|i: int|
        0 <= i < uris.len() ==> #[trigger] uris[i] == file_uri(paths[i]) && (is_absolute(paths[i])
            ==> has_prefix(uris[i], "file:///"@))
}

/// An entry resolves to an absolute path when it names one, or when it is
/// taken from a folder that is absolute.
pub proof fn law_resolved_is_absolute(entry: Seq<char>, folder: Option<Seq<char>>)
    requires
        is_absolute(without_prefix(entry, "file://"@)) || (folder matches Some(f) && is_absolute(f)),
    ensures
        is_absolute(resolved(entry, folder)),
{
}

/// What a file-chooser submission is worth.
///
/// No entry is an error. `save-file` takes one entry; `open-file` takes one
/// unless several may be picked. With candidates, `save-files` gives one URI
/// per candidate inside the picked folder; everything else gives one URI per
/// entry. `kind` says what stands on disk at the first entry.
pub open spec fn validated(
    operation: Seq<char>,
    entries: Seq<Seq<char>>,
    mode: SelectionMode,
    folder: Option<Seq<char>>,
    candidates: Seq<Seq<char>>,
    kind: PathKind,
) -> Result<Seq<Seq<char>>, Seq<char>> {
    if entries.len() == 0 {
        Err("No entries in submission"@)
    } else if operation == "save-file"@ {
        if entries.len() > 1 {
            Err("Save mode expects 1 entry, got "@ + decimal(entries.len()))
        } else {
            Ok(seq![save_file_uri(entries[0], folder, first_candidate(candidates), kind)])
        }
    } else if operation == "save-files"@ {
        if candidates.len() == 0 {
            Ok(entry_uris(entries, folder))
        } else {
            Ok(candidate_uris(picked_folder(entries[0], folder, kind), candidates))
        }
    } else if operation == "open-file"@ && mode.single_pick() && entries.len() > 1 {
        Err("Single-pick mode expects 1 entry, got "@ + decimal(entries.len()))
    } else {
        Ok(entry_uris(entries, folder))
    }
}

/// Whether every one of `uris` starts with `file://`.
pub open spec fn all_file_uris(uris: Seq<Seq<char>>) -> bool {
    forall|i: int| 0 <= i < uris.len() ==> has_prefix(#[trigger] uris[i], "file://"@)
}

/// The message for a submission with too many entries.
fn arity_error(head: &str, n: usize) -> (out: String)
    ensures
        out@ == head@ + decimal(n as nat),
{
    let mut msg = to_chars(head);
    let digits = u64_to_decimal(n as u64);
    push_all(&mut msg, digits.as_slice());
    from_chars(msg.as_slice())
}

/// The borrowed current folder.
fn folder_of(options: &SessionOptions) -> (out: Option<&str>)
    ensures
        opt_str(out) == opt_view(options.current_folder),
{
    match &options.current_folder {
        Some(f) => Some(f.as_str()),
        None => None,
    }
}

/// One URI per entry.
fn uris_of_entries(entries: &[String], folder: Option<&str>) -> (out: Vec<String>)
    ensures
        views(out@) == entry_uris(views(entries@), opt_str(folder)),
        all_file_uris(views(out@)),
        rooted(
            views(out@),
            Seq::new(views(entries@).len(), |i: int| resolved(views(entries@)[i], opt_str(folder))),
        ),
{
    let mut out: Vec<String> = Vec::new();
    let mut i: usize = 0;
    while i < entries.len()
        invariant
            i <= entries.len(),
            out@.len() == i,
            forall|j: int|
                0 <= j < i ==> (#[trigger] out@[j])@ == entry_uri(entries@[j]@, opt_str(folder)),
            forall|j: int| 0 <= j < i ==> has_prefix((#[trigger] out@[j])@, "file://"@),
            forall|j: int|
                0 <= j < i && is_absolute(resolved(entries@[j]@, opt_str(folder))) ==> has_prefix(
                    (#[trigger] out@[j])@,
                    "file:///"@,
                ),
        decreases entries.len() - i,
    {
        out.push(resolve_to_uri(entries[i].as_str(), folder));
        i = i + 1;
    }
    assert(views(out@) =~= entry_uris(views(entries@), opt_str(folder)));
    out
}

/// One URI per candidate, inside `folder`.
fn uris_of_candidates(folder: &str, names: &[String]) -> (out: Vec<String>)
    ensures
        views(out@) == candidate_uris(folder@, views(names@)),
        all_file_uris(views(out@)),
        rooted(
            views(out@),
            Seq::new(views(names@).len(), |i: int| join_path(folder@, views(names@)[i])),
        ),
{
    let mut out: Vec<String> = Vec::new();
    let mut i: usize = 0;
    while i < names.len()
        invariant
            i <= names.len(),
            out@.len() == i,
            forall|j: int|
                0 <= j < i ==> (#[trigger] out@[j])@ == file_uri(join_path(folder@, names@[j]@)),
            forall|j: int| 0 <= j < i ==> has_prefix((#[trigger] out@[j])@, "file://"@),
            forall|j: int|
                0 <= j < i && is_absolute(join_path(folder@, names@[j]@)) ==> has_prefix(
                    (#[trigger] out@[j])@,
                    "file:///"@,
                ),
        decreases names.len() - i,
    {
        let target = join(folder, names[i].as_str());
        out.push(path_to_file_uri(target.as_str()));
        i = i + 1;
    }
    assert(views(out@) =~= candidate_uris(folder@, views(names@)));
    out
}

/// Validate and transform file chooser submission entries into file:// URIs.
///
/// Resolves relative paths against `current_folder` from options. For
/// save-files with candidates, builds URIs from selected folder + candidate
/// filenames. `kind` says what stands on disk at the resolved first entry.
pub fn validate(
    operation: &str,
    entries: &[String],
    options: &SessionOptions,
    kind: PathKind,
) -> (r:
    Result<Vec<String>, String>)
    ensures
        match validated(
            operation@,
            views(entries@),
            options.mode,
            opt_view(options.current_folder),
            views(options.candidates@),
            kind,
        ) {
            Ok(uris) => r matches Ok(out) && views(out@) == uris && all_file_uris(uris) && rooted(
                uris,
                accepted_paths(
                    operation@,
                    views(entries@),
                    opt_view(options.current_folder),
                    views(options.candidates@),
                    kind,
                ),
            ),
            Err(msg) => r matches Err(e) && e@ == msg,
        },
{
    if entries.len() == 0 {
        return Err("No entries in submission".to_owned());
    }
    let folder = folder_of(options);
    let op = to_chars(operation);
    if is_str(op.as_slice(), "save-file") {
        if entries.len() > 1 {
            return Err(arity_error("Save mode expects 1 entry, got ", entries.len()));
        }
        let candidate = if options.candidates.len() > 0 {
            Some(options.candidates[0].as_str())
        } else {
            None
        };
        let uri = resolve_save_file_to_uri(entries[0].as_str(), folder, candidate, kind);
        let mut out: Vec<String> = Vec::new();
        out.push(uri);
        assert(views(out@) =~= seq![uri@]);
        assert(views(entries@)[0] == entries@[0]@);
        assert(views(options.candidates@).len() == options.candidates@.len());
        return Ok(out);
    }
    if is_str(op.as_slice(), "save-files") {
        if options.candidates.len() == 0 {
            return Ok(uris_of_entries(entries, folder));
        }
        let first = resolve_path(entries[0].as_str(), folder);
        let target = pick_folder(first, kind);
        assert(views(entries@)[0] == entries@[0]@);
        return Ok(uris_of_candidates(target.as_str(), options.candidates.as_slice()));
    }
    if is_str(op.as_slice(), "open-file") {
        match options.mode {
            SelectionMode::Pick { multiple, .. } => {
                if !multiple && entries.len() > 1 {
                    return Err(
                        arity_error("Single-pick mode expects 1 entry, got ", entries.len()),
                    );
                }
            },
            _ => {},
        }
    }
    Ok(uris_of_entries(entries, folder))
}

/// An entry made independent of the working directory: a relative path is
/// taken from `cwd`, with its `file://` kept in front; absolute entries, and
/// all entries when there is no `cwd`, stay as they are.
pub open spec fn absolute_entry(entry: Seq<char>, cwd: Option<Seq<char>>) -> Seq<char> {
    let path = without_prefix(entry, "file://"@);
    if is_absolute(path) {
        entry
    } else {
        match cwd {
            Some(dir) => if has_prefix(entry, "file://"@) {
                "file://"@ + join_path(dir, path)
            } else {
                join_path(dir, path)
            },
            None => entry,
        }
    }
}

/// All entries made independent of the working directory.
pub open spec fn absolute_entries(entries: Seq<Seq<char>>, cwd: Option<Seq<char>>) -> Seq<
    Seq<char>,
> {
    Seq::new(entries.len(), |i: int| absolute_entry(entries[i], cwd))
}

/// Resolve relative paths against the working directory so entries are stable
/// regardless of later directory changes. Entries that are already absolute
/// pass through unchanged.
pub fn resolve_entries_to_absolute(entries: &[String], cwd: Option<&str>) -> (out: Vec<String>)
    ensures
        views(out@) == absolute_entries(views(entries@), opt_str(cwd)),
{
    let mut out: Vec<String> = Vec::new();
    let mut i: usize = 0;
    while i < entries.len()
        invariant
            i <= entries.len(),
            out@.len() == i,
            forall|j: int| 0 <= j < i ==> (#[trigger] out@[j])@ == absolute_entry(entries@[j]@, opt_str(cwd)),
        decreases entries.len() - i,
    {
        let e = to_chars(entries[i].as_str());
        let had_prefix = starts_with_str(e.as_slice(), "file://");
        let p = strip_prefix_or_same(e.as_slice(), "file://");
        if p.len() > 0 && p[0] == '/' {
            out.push(entries[i].clone());
        } else {
            match cwd {
                Some(dir) => {
                    let path = from_chars(p.as_slice());
                    let joined = join(dir, path.as_str());
                    if had_prefix {
                        let mut full = to_chars("file://");
                        push_str(&mut full, joined.as_str());
                        out.push(from_chars(full.as_slice()));
                    } else {
                        out.push(joined);
                    }
                },
                None => {
                    out.push(entries[i].clone());
                },
            }
        }
        i = i + 1;
    }
    assert(views(out@) =~= absolute_entries(views(entries@), opt_str(cwd)));
    out
}

/// The text of the submission file once `entries` were added: appended to
/// what is there when several may be picked, else put in its place.
pub open spec fn content_after_add(
    content: Seq<char>,
    entries: Seq<Seq<char>>,
    mode: SelectionMode,
) -> Seq<char> {
    if mode.appends() {
        content + rendered(entries)
    } else {
        rendered(entries)
    }
}

/// Smart add entries: respects single/multi-select constraints.
///
/// The entries are stored as they were given; relative ones are resolved
/// when the submission is validated. In multi-pick mode, appends entries. In
/// all other modes (single-pick, save, save-multiple), replaces the
/// submission. Gives what was done and the new text of the submission file.
pub fn add_entries(content: &str, entries: &[String], options: &SessionOptions) -> (r: (
    AddResult,
    String,
))
    ensures
        r.1@ == content_after_add(content@, views(entries@), options.mode),
        r.0 == if options.mode.appends() {
            AddResult::Appended(entries@.len() as usize)
        } else {
            AddResult::Replaced
        },
{
    let is_multi = match options.mode {
        SelectionMode::Pick { multiple: true, .. } => true,
        _ => false,
    };
    if is_multi {
        (AddResult::Appended(entries.len()), append_lines(content, entries))
    } else {
        (AddResult::Replaced, write_lines(entries))
    }
}

} // verus!

//! The file-chooser portal: filters, choices, request options and the reply.

use crate::protocol::opt_view;
use crate::text::views;
use vstd::prelude::*;
use vstd::std_specs::convert::FromSpecImpl;

verus! {

/// The views of a list of typed strings.
pub open spec fn tagged_views(v: Seq<(u32, String)>) -> Seq<(u32, Seq<char>)> {
    Seq::new(v.len(), |i: int| (v[i].0, v[i].1@))
}

/// The views of a list of string pairs.
pub open spec fn pair_views(v: Seq<(String, String)>) -> Seq<(Seq<char>, Seq<char>)> {
    Seq::new(v.len(), |i: int| (v[i].0@, v[i].1@))
}

/// The view of an optional list of string pairs.
pub open spec fn opt_pair_views(o: Option<Vec<(String, String)>>) -> Option<
    Seq<(Seq<char>, Seq<char>)>,
> {
    match o {
        Some(v) => Some(pair_views(v@)),
        None => None,
    }
}

/// The view of an optional byte string.
pub open spec fn opt_bytes(o: Option<Vec<u8>>) -> Option<Seq<u8>> {
    match o {
        Some(v) => Some(v@),
        None => None,
    }
}

/// The view of an optional borrowed string.
pub open spec fn opt_str(o: Option<&str>) -> Option<Seq<char>> {
    match o {
        Some(s) => Some(s@),
        None => None,
    }
}

/// The view of an optional borrowed byte string.
pub open spec fn opt_slice(o: Option<&[u8]>) -> Option<Seq<u8>> {
    match o {
        Some(s) => Some(s@),
        None => None,
    }
}

/// File filter: (name, patterns).
/// Wire signature: (sa(us)).
/// Example: ("Images", [(0, "*.png"), (1, "image/png")]).
/// Pattern type: 0 = glob, 1 = mime type.
#[derive(Debug, Clone)]
pub struct FileFilter(String, Vec<(u32, String)>);

/// What a `FileFilter` holds.
pub struct FileFilterView {
    pub name: Seq<char>,
    pub patterns: Seq<(u32, Seq<char>)>,
}

impl View for FileFilter {
    type V = FileFilterView;

    closed spec fn view(&self) -> FileFilterView {
        FileFilterView { name: self.0@, patterns: tagged_views(self.1@) }
    }
}

/// One pattern of a filter.
#[derive(Debug, Clone)]
pub enum FilterPattern<'a> {
    Glob(&'a str),
    MimeType(&'a str),
}

/// What a `FilterPattern` holds.
pub enum FilterPatternView {
    Glob(Seq<char>),
    MimeType(Seq<char>),
}

impl<'a> View for FilterPattern<'a> {
    type V = FilterPatternView;

    open spec fn view(&self) -> FilterPatternView {
        match *self {
            FilterPattern::Glob(s) => FilterPatternView::Glob(s@),
            FilterPattern::MimeType(s) => FilterPatternView::MimeType(s@),
        }
    }
}

/// The pattern that a typed string stands for: type 0 is a glob, any other a
/// mime type.
pub open spec fn pattern_of(p: (u32, Seq<char>)) -> FilterPatternView {
    if p.0 == 0 {
        FilterPatternView::Glob(p.1)
    } else {
        FilterPatternView::MimeType(p.1)
    }
}

impl FileFilter {
    /// A filter with a name and no patterns.
    pub fn new(name: &str) -> (f: FileFilter)
        ensures
            f@.name == name@,
            f@.patterns.len() == 0,
    {
        FileFilter(name.to_owned(), Vec::new())
    }

    /// Adds a glob pattern.
    pub fn glob(self, pattern: &str) -> (f: FileFilter)
        ensures
            f@.name == self@.name,
            f@.patterns == self@.patterns.push((0u32, pattern@)),
    {
        let mut f = self;
        f.1.push((0, pattern.to_owned()));
        assert(tagged_views(f.1@) =~= tagged_views(self.1@).push((0u32, pattern@)));
        f
    }

    /// Adds a mime-type pattern.
    pub fn mime_type(self, mime: &str) -> (f: FileFilter)
        ensures
            f@.name == self@.name,
            f@.patterns == self@.patterns.push((1u32, mime@)),
    {
        let mut f = self;
        f.1.push((1, mime.to_owned()));
        assert(tagged_views(f.1@) =~= tagged_views(self.1@).push((1u32, mime@)));
        f
    }

    /// The name of the filter.
    pub fn name(&self) -> (out: &str)
        ensures
            out@ == self@.name,
    {
        self.0.as_str()
    }

    /// The patterns of the filter, in order.
    pub fn patterns(&self) -> (out: Vec<FilterPattern<'_>>)
        ensures
            out@.len() == self@.patterns.len(),
            forall|i: int| 0 <= i < out@.len() ==> (#[trigger] out@[i])@ == pattern_of(
                self@.patterns[i],
            ),
    {
        let mut out: Vec<FilterPattern<'_>> = Vec::new();
        let mut i: usize = 0;
        while i < self.1.len()
            invariant
                i <= self.1.len(),
                out@.len() == i,
                forall|j: int| 0 <= j < i ==> (#[trigger] out@[j])@ == pattern_of(
                    tagged_views(self.1@)[j],
                ),
            decreases self.1.len() - i,
        {
            let p = &self.1[i];
            if p.0 == 0 {
                out.push(FilterPattern::Glob(p.1.as_str()));
            } else {
                out.push(FilterPattern::MimeType(p.1.as_str()));
            }
            i = i + 1;
        }
        out
    }
}

/// Choice option for dialogs.
/// Wire signature: (ssa(ss)s):
/// (id, label, [(option_id, option_label), ...], default_option_id).
#[derive(Debug, Clone)]
pub struct Choice(String, String, Vec<(String, String)>, String);

/// What a `Choice` holds.
pub struct ChoiceView {
    pub id: Seq<char>,
    pub label: Seq<char>,
    pub options: Seq<(Seq<char>, Seq<char>)>,
    pub default_option: Seq<char>,
}

impl View for Choice {
    type V = ChoiceView;

    closed spec fn view(&self) -> ChoiceView {
        ChoiceView {
            id: self.0@,
            label: self.1@,
            options: pair_views(self.2@),
            default_option: self.3@,
        }
    }
}

impl Choice {
    /// A choice with no options and an empty default.
    pub fn new(id: &str, label: &str) -> (c: Choice)
        ensures
            c@.id == id@,
            c@.label == label@,
            c@.options.len() == 0,
            c@.default_option.len() == 0,
    {
        Choice(id.to_owned(), label.to_owned(), Vec::new(), String::new())
    }

    /// Adds an option.
    pub fn option(self, id: &str, label: &str) -> (c: Choice)
        ensures
            c@.id == self@.id,
            c@.label == self@.label,
            c@.default_option == self@.default_option,
            c@.options == self@.options.push((id@, label@)),
    {
        let mut c = self;
        c.2.push((id.to_owned(), label.to_owned()));
        assert(pair_views(c.2@) =~= pair_views(self.2@).push((id@, label@)));
        c
    }

    /// Sets the default option.
    pub fn default(self, id: &str) -> (c: Choice)
        ensures
            c@.id == self@.id,
            c@.label == self@.label,
            c@.options == self@.options,
            c@.default_option == id@,
    {
        let mut c = self;
        c.3 = id.to_owned();
        c
    }

    /// The identifier of the choice.
    pub fn id(&self) -> (out: &str)
        ensures
            out@ == self@.id,
    {
        self.0.as_str()
    }

    /// The label of the choice.
    pub fn label(&self) -> (out: &str)
        ensures
            out@ == self@.label,
    {
        self.1.as_str()
    }

    /// The options of the choice.
    pub fn options(&self) -> (out: &[(String, String)])
        ensures
            pair_views(out@) == self@.options,
    {
        self.2.as_slice()
    }

    /// The default option.
    pub fn default_option(&self) -> (out: &str)
        ensures
            out@ == self@.default_option,
    {
        self.3.as_str()
    }
}

/// The borrowed form of an optional string.
fn opt_as_str(o: &Option<String>) -> (out: Option<&str>)
    ensures
        opt_str(out) == opt_view(*o),
{
    match o {
        Some(s) => Some(s.as_str()),
        None => None,
    }
}

/// The borrowed form of an optional byte string.
fn opt_as_bytes(o: &Option<Vec<u8>>) -> (out: Option<&[u8]>)
    ensures
        opt_slice(out) == opt_bytes(*o),
{
    match o {
        Some(v) => Some(v.as_slice()),
        None => None,
    }
}

/// Options for OpenFile request.
#[derive(Debug, Clone)]
pub struct OpenFileOptions {
    pub accept_label: Option<String>,
    pub modal: Option<bool>,
    pub multiple: Option<bool>,
    pub directory: Option<bool>,
    pub filters: Vec<FileFilter>,
    pub current_filter: Option<FileFilter>,
    pub choices: Vec<Choice>,
    pub current_folder: Option<Vec<u8>>,
}

impl OpenFileOptions {
    pub fn accept_label(&self) -> (out: Option<&str>)
        ensures
            opt_str(out) == opt_view(self.accept_label),
    {
        opt_as_str(&self.accept_label)
    }

    pub fn modal(&self) -> (out: Option<bool>)
        ensures
            out == self.modal,
    {
        self.modal
    }

    pub fn multiple(&self) -> (out: Option<bool>)
        ensures
            out == self.multiple,
    {
        self.multiple
    }

    pub fn directory(&self) -> (out: Option<bool>)
        ensures
            out == self.directory,
    {
        self.directory
    }

    /// The filters; none when the request named none.
    pub fn filters(&self) -> (out: &[FileFilter])
        ensures
            out@ == self.filters@,
    {
        self.filters.as_slice()
    }

    pub fn current_filter(&self) -> (out: Option<&FileFilter>)
        ensures
            out is Some <==> self.current_filter is Some,
            out matches Some(f) ==> self.current_filter == Some(*f),
    {
        self.current_filter.as_ref()
    }

    /// The choices; none when the request named none.
    pub fn choices(&self) -> (out: &[Choice])
        ensures
            out@ == self.choices@,
    {
        self.choices.as_slice()
    }

    pub fn current_folder(&self) -> (out: Option<&[u8]>)
        ensures
            opt_slice(out) == opt_bytes(self.current_folder),
    {
        opt_as_bytes(&self.current_folder)
    }
}

impl Default for OpenFileOptions {
    fn default() -> (o: OpenFileOptions)
        ensures
            o.accept_label is None,
            o.modal is None,
            o.multiple is None,
            o.directory is None,
            o.filters@.len() == 0,
            o.current_filter is None,
            o.choices@.len() == 0,
            o.current_folder is None,
    {
        OpenFileOptions {
            accept_label: None,
            modal: None,
            multiple: None,
            directory: None,
            filters: Vec::new(),
            current_filter: None,
            choices: Vec::new(),
            current_folder: None,
        }
    }
}

/// Options for SaveFile request.
#[derive(Debug, Clone)]
pub struct SaveFileOptions {
    pub accept_label: Option<String>,
    pub modal: Option<bool>,
    pub filters: Vec<FileFilter>,
    pub current_filter: Option<FileFilter>,
    pub choices: Vec<Choice>,
    pub current_name: Option<String>,
    pub current_folder: Option<Vec<u8>>,
    pub current_file: Option<Vec<u8>>,
}

impl SaveFileOptions {
    pub fn accept_label(&self) -> (out: Option<&str>)
        ensures
            opt_str(out) == opt_view(self.accept_label),
    {
        opt_as_str(&self.accept_label)
    }

    pub fn modal(&self) -> (out: Option<bool>)
        ensures
            out == self.modal,
    {
        self.modal
    }

    /// The filters; none when the request named none.
    pub fn filters(&self) -> (out: &[FileFilter])
        ensures
            out@ == self.filters@,
    {
        self.filters.as_slice()
    }

    pub fn current_filter(&self) -> (out: Option<&FileFilter>)
        ensures
            out is Some <==> self.current_filter is Some,
            out matches Some(f) ==> self.current_filter == Some(*f),
    {
        self.current_filter.as_ref()
    }

    /// The choices; none when the request named none.
    pub fn choices(&self) -> (out: &[Choice])
        ensures
            out@ == self.choices@,
    {
        self.choices.as_slice()
    }

    pub fn current_name(&self) -> (out: Option<&str>)
        ensures
            opt_str(out) == opt_view(self.current_name),
    {
        opt_as_str(&self.current_name)
    }

    pub fn current_folder(&self) -> (out: Option<&[u8]>)
        ensures
            opt_slice(out) == opt_bytes(self.current_folder),
    {
        opt_as_bytes(&self.current_folder)
    }

    pub fn current_file(&self) -> (out: Option<&[u8]>)
        ensures
            opt_slice(out) == opt_bytes(self.current_file),
    {
        opt_as_bytes(&self.current_file)
    }
}

impl Default for SaveFileOptions {
    fn default() -> (o: SaveFileOptions)
        ensures
            o.accept_label is None,
            o.modal is None,
            o.filters@.len() == 0,
            o.current_filter is None,
            o.choices@.len() == 0,
            o.current_name is None,
            o.current_folder is None,
            o.current_file is None,
    {
        SaveFileOptions {
            accept_label: None,
            modal: None,
            filters: Vec::new(),
            current_filter: None,
            choices: Vec::new(),
            current_name: None,
            current_folder: None,
            current_file: None,
        }
    }
}

/// Options for SaveFiles request.
#[derive(Debug, Clone)]
pub struct SaveFilesOptions {
    pub accept_label: Option<String>,
    pub modal: Option<bool>,
    pub choices: Vec<Choice>,
    pub current_folder: Option<Vec<u8>>,
    pub files: Vec<Vec<u8>>,
}

impl SaveFilesOptions {
    pub fn accept_label(&self) -> (out: Option<&str>)
        ensures
            opt_str(out) == opt_view(self.accept_label),
    {
        opt_as_str(&self.accept_label)
    }

    pub fn modal(&self) -> (out: Option<bool>)
        ensures
            out == self.modal,
    {
        self.modal
    }

    /// The choices; none when the request named none.
    pub fn choices(&self) -> (out: &[Choice])
        ensures
            out@ == self.choices@,
    {
        self.choices.as_slice()
    }

    pub fn current_folder(&self) -> (out: Option<&[u8]>)
        ensures
            opt_slice(out) == opt_bytes(self.current_folder),
    {
        opt_as_bytes(&self.current_folder)
    }

    /// The file names; none when the request named none.
    pub fn files(&self) -> (out: &[Vec<u8>])
        ensures
            out@ == self.files@,
    {
        self.files.as_slice()
    }
}

impl Default for SaveFilesOptions {
    fn default() -> (o: SaveFilesOptions)
        ensures
            o.accept_label is None,
            o.modal is None,
            o.choices@.len() == 0,
            o.current_folder is None,
            o.files@.len() == 0,
    {
        SaveFilesOptions {
            accept_label: None,
            modal: None,
            choices: Vec::new(),
            current_folder: None,
            files: Vec::new(),
        }
    }
}

/// Response codes from portal.
#[derive(Debug, Clone, Copy, PartialEq, Eq, Structural)]
pub enum ResponseCode {
    Success,
    Cancelled,
    Other,
}

impl ResponseCode {
    /// The number that stands for the code on the wire.
    pub open spec fn number(self) -> u32 {
        match self {
            ResponseCode::Success => 0,
            ResponseCode::Cancelled => 1,
            ResponseCode::Other => 2,
        }
    }

    /// The code that a number on the wire stands for: anything past 1 is
    /// `Other`.
    pub open spec fn of_number(v: u32) -> ResponseCode {
        if v == 0 {
            ResponseCode::Success
        } else if v == 1 {
            ResponseCode::Cancelled
        } else {
            ResponseCode::Other
        }
    }
}

impl From<u32> for ResponseCode {
    fn from(v: u32) -> (r: ResponseCode) {
        if v == 0 {
            ResponseCode::Success
        } else if v == 1 {
            ResponseCode::Cancelled
        } else {
            ResponseCode::Other
        }
    }
}

impl FromSpecImpl<u32> for ResponseCode {
    open spec fn obeys_from_spec() -> bool {
        true
    }

    open spec fn from_spec(v: u32) -> ResponseCode {
        ResponseCode::of_number(v)
    }
}

impl From<ResponseCode> for u32 {
    fn from(v: ResponseCode) -> (r: u32) {
        match v {
            ResponseCode::Success => 0,
            ResponseCode::Cancelled => 1,
            ResponseCode::Other => 2,
        }
    }
}

impl FromSpecImpl<ResponseCode> for u32 {
    open spec fn obeys_from_spec() -> bool {
        true
    }

    open spec fn from_spec(v: ResponseCode) -> u32 {
        v.number()
    }
}

/// A code survives the trip over the wire.
pub proof fn law_response_code_round_trip(code: ResponseCode)
    ensures
        ResponseCode::of_number(code.number()) == code,
{
}

/// Result from file chooser operations.
#[derive(Debug, Clone)]
pub struct FileChooserResult {
    uris: Vec<String>,
    choices: Option<Vec<(String, String)>>,
    current_filter: Option<FileFilter>,
    writable: Option<bool>,
}

/// What a `FileChooserResult` holds.
pub struct FileChooserResultView {
    pub uris: Seq<Seq<char>>,
    pub choices: Option<Seq<(Seq<char>, Seq<char>)>>,
    pub current_filter: Option<FileFilter>,
    pub writable: Option<bool>,
}

impl FileChooserResultView {
    /// Whether the result holds these URIs and nothing else.
    pub open spec fn just(self, uris: Seq<Seq<char>>) -> bool {
        self.uris == uris && self.choices is None && self.current_filter is None
            && self.writable is None
    }
}

impl View for FileChooserResult {
    type V = FileChooserResultView;

    closed spec fn view(&self) -> FileChooserResultView {
        FileChooserResultView {
            uris: views(self.uris@),
            choices: opt_pair_views(self.choices),
            current_filter: self.current_filter,
            writable: self.writable,
        }
    }
}

impl FileChooserResult {
    /// An empty result.
    pub fn new() -> (r: FileChooserResult)
        ensures
            r@.uris.len() == 0,
            r@.choices is None,
            r@.current_filter is None,
            r@.writable is None,
    {
        FileChooserResult { uris: Vec::new(), choices: None, current_filter: None, writable: None }
    }

    /// Adds one URI.
    pub fn uri(self, uri: &str) -> (r: FileChooserResult)
        ensures
            r@.uris == self@.uris.push(uri@),
            r@.choices == self@.choices,
            r@.current_filter == self@.current_filter,
            r@.writable == self@.writable,
    {
        let mut r = self;
        r.uris.push(uri.to_owned());
        assert(views(r.uris@) =~= views(self.uris@).push(uri@));
        r
    }

    /// Adds URIs, in their order.
    pub fn uris(self, uris: Vec<String>) -> (r: FileChooserResult)
        ensures
            r@.uris == self@.uris + views(uris@),
            r@.choices == self@.choices,
            r@.current_filter == self@.current_filter,
            r@.writable == self@.writable,
    {
        let mut r = self;
        let mut more = uris;
        r.uris.append(&mut more);
        assert(views(r.uris@) =~= views(self.uris@) + views(uris@));
        r
    }

    /// Records the value picked for a choice.
    pub fn choice(self, id: &str, value: &str) -> (r: FileChooserResult)
        ensures
            r@.uris == self@.uris,
            r@.current_filter == self@.current_filter,
            r@.writable == self@.writable,
            r@.choices == Some(
                match self@.choices {
                    Some(c) => c.push((id@, value@)),
                    None => seq![(id@, value@)],
                },
            ),
    {
        let mut r = self;
        let mut list: Vec<(String, String)> = match r.choices.take() {
            Some(v) => v,
            None => Vec::new(),
        };
        let ghost before = pair_views(list@);
        list.push((id.to_owned(), value.to_owned()));
        assert(pair_views(list@) =~= before.push((id@, value@)));
        assert(Seq::<(Seq<char>, Seq<char>)>::empty().push((id@, value@)) =~= seq![(id@, value@)]);
        r.choices = Some(list);
        r
    }

    /// Sets the filter that was active.
    pub fn current_filter(self, filter: FileFilter) -> (r: FileChooserResult)
        ensures
            r@.uris == self@.uris,
            r@.choices == self@.choices,
            r@.current_filter == Some(filter),
            r@.writable == self@.writable,
    {
        let mut r = self;
        r.current_filter = Some(filter);
        r
    }

    /// Says whether the files may be written.
    pub fn writable(self, writable: bool) -> (r: FileChooserResult)
        ensures
            r@.uris == self@.uris,
            r@.choices == self@.choices,
            r@.current_filter == self@.current_filter,
            r@.writable == Some(writable),
    {
        let mut r = self;
        r.writable = Some(writable);
        r
    }

    /// The URIs of the result.
    pub fn into_uris(self) -> (out: Vec<String>)
        ensures
            views(out@) == self@.uris,
    {
        self.uris
    }
}

impl Default for FileChooserResult {
    fn default() -> (r: FileChooserResult)
        ensures
            r@.uris.len() == 0,
            r@.choices is None,
            r@.current_filter is None,
            r@.writable is None,
    {
        FileChooserResult::new()
    }
}

/// Error type for FileChooser operations.
#[derive(Debug, Clone)]
pub enum FileChooserError {
    Cancelled,
    Other(String),
}

/// The code and, for a failure, the message that answer a request: success
/// carries the result, cancellation an empty result, any other error its text.
pub enum Reply {
    /// Answer with this code and result.
    Answer(ResponseCode, FileChooserResult),
    /// Fail the call with this message.
    Failed(String),
}

/// What the bus layer sends back for the outcome of a handler; `aborted` says
/// that the caller closed the request before the handler ended.
pub fn reply_for(outcome: Result<FileChooserResult, FileChooserError>, aborted: bool) -> (r: Reply)
    ensures
        aborted ==> (r matches Reply::Answer(code, res) && code == ResponseCode::Cancelled
            && res@.just(Seq::empty())),
        !aborted ==> (match outcome {
            Ok(result) => r == Reply::Answer(ResponseCode::Success, result),
            Err(FileChooserError::Cancelled) => (r matches Reply::Answer(code, res) && code
                == ResponseCode::Cancelled && res@.just(Seq::empty())),
            Err(FileChooserError::Other(msg)) => r == Reply::Failed(msg),
        }),
{
    let none = FileChooserResult::new();
    assert(none@.uris =~= Seq::<Seq<char>>::empty());
    if aborted {
        return Reply::Answer(ResponseCode::Cancelled, none);
    }
    match outcome {
        Ok(result) => Reply::Answer(ResponseCode::Success, result),
        Err(FileChooserError::Cancelled) => Reply::Answer(ResponseCode::Cancelled, none),
        Err(FileChooserError::Other(msg)) => Reply::Failed(msg),
    }
}

/// The FileChooser portal implementation wrapper.
///
/// Wraps a handler so that the bus layer can expose it.
pub struct FileChooserPortal<H> {
    pub handler: H,
}

impl<H> FileChooserPortal<H> {
    pub fn new(handler: H) -> (p: FileChooserPortal<H>)
        ensures
            p.handler == handler,
    {
        FileChooserPortal { handler }
    }
}

} // verus!

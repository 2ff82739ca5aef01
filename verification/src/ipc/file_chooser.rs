//! File-chooser session options as the session's environment shows them.

pub use crate::portal::file_chooser::{Filter, FilterPattern, SelectionMode, SessionOptions};
use crate::text::{
    bool_string, bool_text, from_chars, joined, push_joined, push_str, to_chars, views,
};
use vstd::prelude::*;

verus! {

/// The names and values of a list of variables.
pub open spec fn env_views(v: Seq<(String, String)>) -> Seq<(Seq<char>, Seq<char>)> {
    Seq::new(v.len(), |i: int| (v[i].0@, v[i].1@))
}

/// The texts of a list of patterns.
pub open spec fn pattern_texts(patterns: Seq<FilterPattern>) -> Seq<Seq<char>> {
    Seq::new(patterns.len(), |i: int| patterns[i].text())
}

/// A filter on one line: its name, a colon, its patterns separated by
/// commas.
pub open spec fn filter_line(f: Filter) -> Seq<char> {
    f.name@ + ": "@ + joined(pattern_texts(f.patterns@), ", "@)
}

/// The lines of a list of filters.
pub open spec fn filter_lines(filters: Seq<Filter>) -> Seq<Seq<char>> {
    Seq::new(filters.len(), |i: int| filter_line(filters[i]))
}

/// The word that stands for a mode.
pub open spec fn mode_word(mode: SelectionMode) -> Seq<char> {
    match mode {
        SelectionMode::Pick { .. } => "Pick"@,
        SelectionMode::Save => "Save"@,
        SelectionMode::SaveMultiple => "SaveMultiple"@,
    }
}

/// One variable, if `present`.
pub open spec fn maybe(present: bool, name: Seq<char>, value: Seq<char>) -> Seq<
    (Seq<char>, Seq<char>),
> {
    if present {
        seq![(name, value)]
    } else {
        Seq::empty()
    }
}

/// The variables that describe file-chooser options: title, mode, whether
/// several may be picked, whether directories are picked; then the folder,
/// the candidates one per line and the filters one per line, each only where
/// there is any.
pub open spec fn options_env(o: SessionOptions) -> Seq<(Seq<char>, Seq<char>)> {
    let multiple = o.mode matches SelectionMode::Pick { multiple: true, .. };
    let directory = o.mode matches SelectionMode::Pick { directory: true, .. };
    seq![
        ("PORTTY_TITLE"@, o.title@),
        ("PORTTY_MODE"@, mode_word(o.mode)),
        ("PORTTY_MULTIPLE"@, bool_text(multiple)),
        ("PORTTY_DIRECTORY"@, bool_text(directory)),
    ] + maybe(
        o.current_folder is Some,
        "PORTTY_FOLDER"@,
        match o.current_folder {
            Some(f) => f@,
            None => Seq::empty(),
        },
    ) + maybe(
        o.candidates@.len() > 0,
        "PORTTY_CANDIDATES"@,
        joined(views(o.candidates@), "\n"@),
    ) + maybe(
        o.filters@.len() > 0,
        "PORTTY_FILTERS"@,
        joined(filter_lines(o.filters@), "\n"@),
    )
}

/// One filter on a line.
fn filter_text(f: &Filter) -> (out: String)
    ensures
        out@ == filter_line(*f),
{
    let mut texts: Vec<String> = Vec::new();
    let mut i: usize = 0;
    while i < f.patterns.len()
        invariant
            i <= f.patterns.len(),
            texts@.len() == i,
            forall|j: int| 0 <= j < i ==> (#[trigger] texts@[j])@ == f.patterns@[j].text(),
        decreases f.patterns.len() - i,
    {
        texts.push(f.patterns[i].to_string());
        i = i + 1;
    }
    assert(views(texts@) =~= pattern_texts(f.patterns@));
    let mut out = to_chars(f.name.as_str());
    push_str(&mut out, ": ");
    push_joined(&mut out, texts.as_slice(), ", ");
    from_chars(out.as_slice())
}

impl SessionOptions {
    /// The environment variables that describe the options.
    pub fn env(&self) -> (out: Vec<(String, String)>)
        ensures
            env_views(out@) == options_env(*self),
    {
        let (mode_str, multiple, directory) = match self.mode {
            SelectionMode::Pick { multiple, directory } => ("Pick", multiple, directory),
            SelectionMode::Save => ("Save", false, false),
            SelectionMode::SaveMultiple => ("SaveMultiple", false, false),
        };
        let mut out: Vec<(String, String)> = Vec::new();
        out.push(("PORTTY_TITLE".to_owned(), self.title.clone()));
        out.push(("PORTTY_MODE".to_owned(), mode_str.to_owned()));
        out.push(("PORTTY_MULTIPLE".to_owned(), bool_string(multiple)));
        out.push(("PORTTY_DIRECTORY".to_owned(), bool_string(directory)));
        let ghost base = env_views(out@);
        assert(base =~= seq![
            ("PORTTY_TITLE"@, self.title@),
            ("PORTTY_MODE"@, mode_word(self.mode)),
            ("PORTTY_MULTIPLE"@, bool_text(multiple)),
            ("PORTTY_DIRECTORY"@, bool_text(directory)),
        ]);
        match &self.current_folder {
            Some(folder) => {
                out.push(("PORTTY_FOLDER".to_owned(), folder.clone()));
                assert(env_views(out@) =~= base + seq![("PORTTY_FOLDER"@, folder@)]);
            },
            None => {
                assert(env_views(out@) =~= base + Seq::<(Seq<char>, Seq<char>)>::empty());
            },
        }
        let ghost with_folder = env_views(out@);
        if self.candidates.len() > 0 {
            let mut text: Vec<char> = Vec::new();
            push_joined(&mut text, self.candidates.as_slice(), "\n");
            assert(text@ =~= joined(views(self.candidates@), "\n"@));
            out.push(("PORTTY_CANDIDATES".to_owned(), from_chars(text.as_slice())));
            assert(env_views(out@) =~= with_folder + seq![
                ("PORTTY_CANDIDATES"@, joined(views(self.candidates@), "\n"@)),
            ]);
        } else {
            assert(env_views(out@) =~= with_folder + Seq::<(Seq<char>, Seq<char>)>::empty());
        }
        let ghost with_candidates = env_views(out@);
        if self.filters.len() > 0 {
            let mut lines: Vec<String> = Vec::new();
            let mut i: usize = 0;
            while i < self.filters.len()
                invariant
                    i <= self.filters.len(),
                    lines@.len() == i,
                    forall|j: int| 0 <= j < i ==> (#[trigger] lines@[j])@ == filter_line(
                        self.filters@[j],
                    ),
                decreases self.filters.len() - i,
            {
                lines.push(filter_text(&self.filters[i]));
                i = i + 1;
            }
            assert(views(lines@) =~= filter_lines(self.filters@));
            let mut text: Vec<char> = Vec::new();
            push_joined(&mut text, lines.as_slice(), "\n");
            assert(text@ =~= joined(filter_lines(self.filters@), "\n"@));
            out.push(("PORTTY_FILTERS".to_owned(), from_chars(text.as_slice())));
            assert(env_views(out@) =~= with_candidates + seq![
                ("PORTTY_FILTERS"@, joined(filter_lines(self.filters@), "\n"@)),
            ]);
        } else {
            assert(env_views(out@) =~= with_candidates + Seq::<(Seq<char>, Seq<char>)>::empty());
        }
        out
    }
}

} // verus!

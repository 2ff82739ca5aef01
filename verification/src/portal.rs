//! The submission pipeline: what the entries of a submission must look like
//! for each portal, and what they are turned into.

pub mod file_chooser;
pub mod screenshot;

use crate::files::{append_lines, entries_of, read_lines, rendered};
use crate::ipc::context::PortalContext;
use crate::portal::file_chooser::PathKind;
use crate::text::{is_str, to_chars, views};
use crate::types::file_chooser::opt_str;
use vstd::prelude::*;

verus! {

/// Result of adding entries to a submission.
#[derive(Debug, Clone, Copy, PartialEq, Eq, Structural)]
pub enum AddResult {
    /// Multi-select: appended N entries.
    Appended(usize),
    /// Single-select: replaced existing entry.
    Replaced,
}

/// What validation has to be told about the world outside the submission.
#[derive(Debug, Clone, Copy)]
pub struct Probes {
    /// What stands on disk at the path that the first entry resolves to.
    pub first_entry: PathKind,
    /// Whether the three words of a color given as fractions are numbers
    /// from 0 to 1.
    pub fractions_ok: bool,
}

/// Session context for portal-aware operations.
///
/// Knows the portal and the operation of a session, and applies the edit
/// behavior (replace or append) and the validation that go with them.
#[derive(Debug, Clone)]
pub struct SessionContext {
    pub portal: String,
    pub operation: String,
    pub session_dir: String,
}

/// What a submission is worth, whatever its portal: the file-chooser and
/// screenshot rules for those portals, and the entries as they are for any
/// other. File-chooser entries need file-chooser options.
pub open spec fn validated(
    portal: Seq<char>,
    operation: Seq<char>,
    entries: Seq<Seq<char>>,
    options: PortalContext,
    probes: Probes,
) -> Result<Seq<Seq<char>>, Seq<char>> {
    if portal == "file-chooser"@ {
        match options {
            PortalContext::FileChooser(o) => file_chooser::validated(
                operation,
                entries,
                o.mode,
                crate::protocol::opt_view(o.current_folder),
                views(o.candidates@),
                probes.first_entry,
            ),
            PortalContext::Screenshot(_) => Err(
                "invalid options: expected file-chooser options"@,
            ),
        }
    } else if portal == "screenshot"@ {
        screenshot::validated(operation, entries, probes.fractions_ok)
    } else {
        Ok(entries)
    }
}

/// Whether the URIs that the validator gave for a file chooser are those of
/// the paths that the submission stands for, each URI of an absolute path
/// starting with `file:///`. Of other portals this says nothing.
pub open spec fn rooted_uris(
    portal: Seq<char>,
    operation: Seq<char>,
    entries: Seq<Seq<char>>,
    options: PortalContext,
    probes: Probes,
    out: Seq<Seq<char>>,
) -> bool {
    portal == "file-chooser"@ ==> match options {
        PortalContext::FileChooser(o) => file_chooser::rooted(
            out,
            file_chooser::accepted_paths(
                operation,
                entries,
                crate::protocol::opt_view(o.current_folder),
                views(o.candidates@),
                probes.first_entry,
            ),
        ),
        PortalContext::Screenshot(_) => true,
    }
}

/// A copy of a list of strings.
pub fn copy_strings(list: &[String]) -> (out: Vec<String>)
    ensures
        views(out@) == views(list@),
{
    let mut out: Vec<String> = Vec::new();
    let mut i: usize = 0;
    while i < list.len()
        invariant
            i <= list.len(),
            out@.len() == i,
            forall|j: int| 0 <= j < i ==> (#[trigger] out@[j])@ == list@[j]@,
        decreases list.len() - i,
    {
        out.push(list[i].clone());
        i = i + 1;
    }
    assert(views(out@) =~= views(list@));
    out
}

/// Validate and transform a submission.
///
/// Dispatches to per-portal validate functions that both check constraints
/// and transform entries to their final form (e.g. resolving relative paths
/// to URIs).
pub fn validate(
    portal: &str,
    operation: &str,
    entries: &[String],
    options: &PortalContext,
    probes: &Probes,
) -> (r: Result<Vec<String>, String>)
    ensures
        match validated(portal@, operation@, views(entries@), *options, *probes) {
            Ok(out) => r matches Ok(v) && views(v@) == out && rooted_uris(
                portal@,
                operation@,
                views(entries@),
                *options,
                *probes,
                out,
            ),
            Err(msg) => r matches Err(e) && e@ == msg,
        },
{
    let p = to_chars(portal);
    if is_str(p.as_slice(), "file-chooser") {
        match options {
            PortalContext::FileChooser(o) => file_chooser::validate(
                operation,
                entries,
                o,
                probes.first_entry,
            ),
            PortalContext::Screenshot(_) => Err(
                "invalid options: expected file-chooser options".to_owned(),
            ),
        }
    } else if is_str(p.as_slice(), "screenshot") {
        screenshot::validate(operation, entries, probes.fractions_ok)
    } else {
        Ok(copy_strings(entries))
    }
}

/// The first line of a text, without its line end; `unknown` if the text is
/// empty.
pub open spec fn line_or_unknown(lines: Seq<Seq<char>>, i: int) -> Seq<char> {
    if 0 <= i < lines.len() {
        lines[i]
    } else {
        "unknown"@
    }
}

/// What adding `entries` does: it appends where several may be picked in a
/// file chooser and for portals without rules of their own; else it
/// replaces.
pub open spec fn add_result(
    portal: Seq<char>,
    entries: Seq<Seq<char>>,
    options: PortalContext,
) -> AddResult {
    if portal == "file-chooser"@ {
        match options {
            PortalContext::FileChooser(o) => if o.mode.appends() {
                AddResult::Appended(entries.len() as usize)
            } else {
                AddResult::Replaced
            },
            PortalContext::Screenshot(_) => AddResult::Replaced,
        }
    } else if portal == "screenshot"@ {
        AddResult::Replaced
    } else {
        AddResult::Appended(entries.len() as usize)
    }
}

/// The text of the submission file once `entries` were added.
pub open spec fn content_after_add(
    portal: Seq<char>,
    content: Seq<char>,
    entries: Seq<Seq<char>>,
    options: PortalContext,
) -> Result<Seq<char>, Seq<char>> {
    if portal == "file-chooser"@ {
        match options {
            PortalContext::FileChooser(o) => Ok(
                file_chooser::content_after_add(content, entries, o.mode),
            ),
            PortalContext::Screenshot(_) => Err(
                "invalid options: expected file-chooser options"@,
            ),
        }
    } else if portal == "screenshot"@ {
        Ok(rendered(entries))
    } else {
        Ok(content + rendered(entries))
    }
}

impl SessionContext {
    /// The context of the session in `dir`. The portal and the operation
    /// are those that the environment names, if it names both; else the
    /// first two lines of the session's `portal` file, `unknown` standing
    /// for a line that is not there. Without either there is no context.
    pub fn from_session_dir(
        dir: &str,
        env: Option<(&str, &str)>,
        portal_file: Option<&str>,
    ) -> (r: Option<SessionContext>)
        ensures
            match env {
                Some(e) => r matches Some(c) && c.portal@ == e.0@ && c.operation@ == e.1@
                    && c.session_dir@ == dir@,
                None => match portal_file {
                    Some(text) => r matches Some(c) && c.portal@ == line_or_unknown(
                        crate::files::lines_of(text@),
                        0,
                    ) && c.operation@ == line_or_unknown(crate::files::lines_of(text@), 1)
                        && c.session_dir@ == dir@,
                    None => r is None,
                },
            },
    {
        match env {
            Some(e) => Some(
                SessionContext {
                    portal: e.0.to_owned(),
                    operation: e.1.to_owned(),
                    session_dir: dir.to_owned(),
                },
            ),
            None => match portal_file {
                Some(text) => {
                    let lines = crate::files::all_lines(text);
                    let portal = if lines.len() > 0 {
                        lines[0].clone()
                    } else {
                        "unknown".to_owned()
                    };
                    let operation = if lines.len() > 1 {
                        lines[1].clone()
                    } else {
                        "unknown".to_owned()
                    };
                    assert(views(lines@).len() == lines@.len());
                    assert(forall|i: int| 0 <= i < lines@.len() ==> views(lines@)[i] == lines@[i]@);
                    Some(SessionContext { portal, operation, session_dir: dir.to_owned() })
                },
                None => None,
            },
        }
    }

    /// Portal-aware add: auto-detects single-select -> replace. Gives what
    /// was done and the new text of the submission file.
    pub fn add_entries(
        &self,
        content: &str,
        entries: &[String],
        options: &PortalContext,
    ) -> (r: Result<(AddResult, String), String>)
        ensures
            match content_after_add(self.portal@, content@, views(entries@), *options) {
                Ok(text) => r matches Ok(done) && done.1@ == text && done.0 == add_result(
                    self.portal@,
                    views(entries@),
                    *options,
                ),
                Err(msg) => r matches Err(e) && e@ == msg,
            },
    {
        let p = to_chars(self.portal.as_str());
        if is_str(p.as_slice(), "file-chooser") {
            match options {
                PortalContext::FileChooser(o) => {
                    assert(views(entries@).len() == entries@.len());
                    Ok(file_chooser::add_entries(content, entries, o))
                },
                PortalContext::Screenshot(_) => Err(
                    "invalid options: expected file-chooser options".to_owned(),
                ),
            }
        } else if is_str(p.as_slice(), "screenshot") {
            Ok(screenshot::add_entries(entries))
        } else {
            assert(views(entries@).len() == entries@.len());
            Ok((AddResult::Appended(entries.len()), append_lines(content, entries)))
        }
    }

    /// Validate current submission against portal constraints; `content` is
    /// the text of the submission file.
    pub fn validate(&self, content: &str, options: &PortalContext, probes: &Probes) -> (r: Result<
        Vec<String>,
        String,
    >)
        ensures
            match validated(self.portal@, self.operation@, entries_of(content@), *options, *probes) {
                Ok(out) => r matches Ok(v) && views(v@) == out && rooted_uris(
                    self.portal@,
                    self.operation@,
                    entries_of(content@),
                    *options,
                    *probes,
                    out,
                ),
                Err(msg) => r matches Err(e) && e@ == msg,
            },
    {
        let entries = read_lines(content);
        validate(
            self.portal.as_str(),
            self.operation.as_str(),
            entries.as_slice(),
            options,
            probes,
        )
    }

    /// Path to the submission file.
    pub fn submission_path(&self) -> (out: String)
        ensures
            out@ == file_chooser::join_path(self.session_dir@, "submission"@),
    {
        file_chooser::join(self.session_dir.as_str(), "submission")
    }
}

} // verus!

//! Edits to a submission file, and what a reader sees after them.
//!
//! A submission is a line file. The command-line tool adds entries, removes
//! entries, clears the file or resets it to the entries the session was born
//! with; the session reads the file once, when it ends.

use crate::files::{
    append_lines, clean_lines, entries_of, kept, lemma_filter_all, lemma_filter_none,
    lemma_clean_add, lemma_clean_empty, lemma_kept_clean, lemma_nonempty_add, lemma_nonempty_clean,
    lemma_entries_concat, lemma_entries_fixed, lemma_read_back, lemma_rendered_add, nonempty,
    not_in, remove_lines, rendered, whole_lines, write_lines,
};
use crate::text::views;
use vstd::prelude::*;

verus! {

/// One change to a submission file.
#[derive(Debug, Clone)]
pub enum Edit {
    /// Append the entries.
    Add(Vec<String>),
    /// Take out every entry that is among these.
    Remove(Vec<String>),
    /// Leave the file empty.
    Clear,
    /// Put back the entries the session started with.
    Reset,
}

/// What an `Edit` says.
pub enum EditView {
    Add(Seq<Seq<char>>),
    Remove(Seq<Seq<char>>),
    Clear,
    Reset,
}

impl View for Edit {
    type V = EditView;

    open spec fn view(&self) -> EditView {
        match *self {
            Edit::Add(xs) => EditView::Add(views(xs@)),
            Edit::Remove(xs) => EditView::Remove(views(xs@)),
            Edit::Clear => EditView::Clear,
            Edit::Reset => EditView::Reset,
        }
    }
}

impl Edit {
    /// The edit that the flags of the command line ask for: a reset before
    /// anything else, then a clear, then the removal of the items; without a
    /// flag the items are added.
    pub fn chosen(reset: bool, clear: bool, remove: bool, items: Vec<String>) -> (e: Edit)
        ensures
            e@ == if reset {
                EditView::Reset
            } else if clear {
                EditView::Clear
            } else if remove {
                EditView::Remove(views(items@))
            } else {
                EditView::Add(views(items@))
            },
    {
        if reset {
            Edit::Reset
        } else if clear {
            Edit::Clear
        } else if remove {
            Edit::Remove(items)
        } else {
            Edit::Add(items)
        }
    }
}

impl EditView {
    /// Whether the lines that the edit carries are clean.
    pub open spec fn clean(self) -> bool {
        match self {
            EditView::Add(xs) => clean_lines(xs),
            EditView::Remove(xs) => true,
            EditView::Clear => true,
            EditView::Reset => true,
        }
    }
}

/// The text of the file after one edit.
pub open spec fn content_after(content: Seq<char>, initial: Seq<Seq<char>>, edit: EditView) -> Seq<
    char,
> {
    match edit {
        EditView::Add(xs) => content + rendered(xs),
        EditView::Remove(xs) => rendered(kept(entries_of(content), xs)),
        EditView::Clear => Seq::empty(),
        EditView::Reset => rendered(initial),
    }
}

/// The lines that the file holds after one edit, when it held `lines` before.
pub open spec fn lines_after(lines: Seq<Seq<char>>, initial: Seq<Seq<char>>, edit: EditView) -> Seq<
    Seq<char>,
> {
    match edit {
        EditView::Add(xs) => lines + xs,
        EditView::Remove(xs) => kept(nonempty(lines), xs),
        EditView::Clear => Seq::empty(),
        EditView::Reset => initial,
    }
}

/// The text of the file after a run of edits, first to last.
pub open spec fn content_after_all(
    content: Seq<char>,
    initial: Seq<Seq<char>>,
    edits: Seq<EditView>,
) -> Seq<char>
    decreases edits.len(),
{
    if edits.len() == 0 {
        content
    } else {
        content_after(content_after_all(content, initial, edits.drop_last()), initial, edits.last())
    }
}

/// The lines that the file holds after a run of edits, first to last.
pub open spec fn lines_after_all(
    lines: Seq<Seq<char>>,
    initial: Seq<Seq<char>>,
    edits: Seq<EditView>,
) -> Seq<Seq<char>>
    decreases edits.len(),
{
    if edits.len() == 0 {
        lines
    } else {
        lines_after(lines_after_all(lines, initial, edits.drop_last()), initial, edits.last())
    }
}

/// Applies one edit to the text of a submission file.
pub fn apply_edit(content: &str, initial: &[String], edit: &Edit) -> (out: String)
    ensures
        out@ == content_after(content@, views(initial@), edit@),
{
    match edit {
        Edit::Add(xs) => append_lines(content, xs.as_slice()),
        Edit::Remove(xs) => remove_lines(content, xs.as_slice()),
        Edit::Clear => String::new(),
        Edit::Reset => write_lines(initial),
    }
}

/// One edit to a file written by the store leaves a file written by the
/// store: its text is that of the lines the edit produced, and those lines
/// are clean.
pub proof fn lemma_edit_step(lines: Seq<Seq<char>>, initial: Seq<Seq<char>>, edit: EditView)
    requires
        clean_lines(lines),
        clean_lines(initial),
        edit.clean(),
    ensures
        content_after(rendered(lines), initial, edit) == rendered(lines_after(lines, initial, edit)),
        clean_lines(lines_after(lines, initial, edit)),
{
    match edit {
        EditView::Add(xs) => {
            lemma_rendered_add(lines, xs);
            lemma_clean_add(lines, xs);
        },
        EditView::Remove(xs) => {
            lemma_read_back(lines);
            lemma_nonempty_clean(lines);
            lemma_kept_clean(nonempty(lines), xs);
        },
        EditView::Clear => {
            lemma_clean_empty();
        },
        EditView::Reset => {},
    }
}

/// After any run of adds, removes, clears and resets on a submission file,
/// reading the file yields exactly the non-empty lines that the last edit
/// left in it.
pub proof fn law_read_after_edits(
    lines: Seq<Seq<char>>,
    initial: Seq<Seq<char>>,
    edits: Seq<EditView>,
)
    requires
        clean_lines(lines),
        clean_lines(initial),
        forall|i: int| 0 <= i < edits.len() ==> (#[trigger] edits[i]).clean(),
    ensures
        content_after_all(rendered(lines), initial, edits) == rendered(
            lines_after_all(lines, initial, edits),
        ),
        clean_lines(lines_after_all(lines, initial, edits)),
        entries_of(content_after_all(rendered(lines), initial, edits)) == nonempty(
            lines_after_all(lines, initial, edits),
        ),
    decreases edits.len(),
{
    if edits.len() == 0 {
        lemma_read_back(lines);
    } else {
        let head = edits.drop_last();
        assert forall|i: int| 0 <= i < head.len() implies (#[trigger] head[i]).clean() by {
            assert(head[i] == edits[i]);
        }
        law_read_after_edits(lines, initial, head);
        let mid = lines_after_all(lines, initial, head);
        assert(edits.last() == edits[edits.len() - 1]);
        lemma_edit_step(mid, initial, edits.last());
        lemma_read_back(lines_after(mid, initial, edits.last()));
    }
}

/// Whether no line of `lines` is among `xs`.
#[verifier::opaque]
pub open spec fn none_among(lines: Seq<Seq<char>>, xs: Seq<Seq<char>>) -> bool {
    forall|i: int| 0 <= i < lines.len() ==> !xs.contains(#[trigger] lines[i])
}

/// Whether every line of `lines` is among `xs`.
#[verifier::opaque]
pub open spec fn all_among(lines: Seq<Seq<char>>, xs: Seq<Seq<char>>) -> bool {
    forall|i: int| 0 <= i < lines.len() ==> xs.contains(#[trigger] lines[i])
}

/// Entries of which none is in `xs` all stay when `xs` is removed.
pub proof fn lemma_kept_all(a: Seq<Seq<char>>, xs: Seq<Seq<char>>)
    requires
        none_among(a, xs),
    ensures
        kept(a, xs) == a,
{
    reveal(none_among);
    assert forall|i: int| 0 <= i < a.len() implies (not_in(xs))(#[trigger] a[i]) by {
        assert(!xs.contains(a[i]));
    }
    lemma_filter_all(a, not_in(xs));
}

/// Entries that are all in `xs` all go when `xs` is removed.
pub proof fn lemma_kept_none(b: Seq<Seq<char>>, xs: Seq<Seq<char>>)
    requires
        all_among(b, xs),
    ensures
        kept(b, xs) == Seq::<Seq<char>>::empty(),
{
    reveal(all_among);
    assert forall|i: int| 0 <= i < b.len() implies !(not_in(xs))(#[trigger] b[i]) by {
        assert(xs.contains(b[i]));
    }
    lemma_filter_none(b, not_in(xs));
}

/// The entries among lines of which none is in `xs`: none of them is in `xs`.
pub proof fn lemma_nonempty_none_among(lines: Seq<Seq<char>>, xs: Seq<Seq<char>>)
    requires
        none_among(lines, xs),
    ensures
        none_among(nonempty(lines), xs),
{
    reveal(none_among);
    let a = nonempty(lines);
    assert forall|i: int| 0 <= i < a.len() implies !xs.contains(#[trigger] a[i]) by {
        lines.lemma_filter_contains_rev(crate::files::is_entry(), a[i]);
        let j = choose|j: int| 0 <= j < lines.len() && lines[j] == a[i];
        assert(!xs.contains(lines[j]));
    }
}

/// The entries among `xs` are all in `xs`.
pub proof fn lemma_nonempty_all_among(xs: Seq<Seq<char>>)
    ensures
        all_among(nonempty(xs), xs),
{
    reveal(all_among);
    let b = nonempty(xs);
    assert forall|i: int| 0 <= i < b.len() implies xs.contains(#[trigger] b[i]) by {
        xs.lemma_filter_contains_rev(crate::files::is_entry(), b[i]);
    }
}

/// Removing `xs` from the entries of `lines` followed by `xs` leaves the
/// entries of `lines`, when none of them is among `xs`.
pub proof fn lemma_kept_after_add(lines: Seq<Seq<char>>, xs: Seq<Seq<char>>)
    requires
        none_among(lines, xs),
    ensures
        kept(nonempty(lines + xs), xs) == nonempty(lines),
{
    let a = nonempty(lines);
    let b = nonempty(xs);
    lemma_nonempty_add(lines, xs);
    lemma_nonempty_none_among(lines, xs);
    lemma_kept_all(a, xs);
    lemma_nonempty_all_among(xs);
    lemma_kept_none(b, xs);
    Seq::filter_distributes_over_add(a, b, not_in(xs));
    assert(a + Seq::<Seq<char>>::empty() =~= a);
}

/// After clean entries were added to a file of clean lines, the file holds
/// the entries of both, in that order.
pub proof fn lemma_entries_after_add(
    lines: Seq<Seq<char>>,
    initial: Seq<Seq<char>>,
    xs: Seq<Seq<char>>,
)
    requires
        clean_lines(lines),
        clean_lines(xs),
    ensures
        entries_of(content_after(rendered(lines), initial, EditView::Add(xs))) == nonempty(
            lines + xs,
        ),
{
    lemma_rendered_add(lines, xs);
    lemma_clean_add(lines, xs);
    lemma_read_back(lines + xs);
}

/// Writing what is left of the entries of `lines` and `xs` once `xs` is
/// removed gives a file that holds the entries of `lines`, when none of them
/// is among `xs`.
pub proof fn lemma_entries_after_remove(lines: Seq<Seq<char>>, xs: Seq<Seq<char>>)
    requires
        clean_lines(lines),
        none_among(lines, xs),
    ensures
        entries_of(rendered(kept(nonempty(lines + xs), xs))) == nonempty(lines),
{
    lemma_kept_after_add(lines, xs);
    lemma_nonempty_clean(lines);
    lemma_read_back(nonempty(lines));
}

/// Adding entries and then removing the same entries leaves the entries of
/// the file as they were, in their order, provided none of the added entries
/// was in the file before.
pub proof fn law_add_then_remove(lines: Seq<Seq<char>>, initial: Seq<Seq<char>>, xs: Seq<Seq<char>>)
    requires
        clean_lines(lines),
        clean_lines(xs),
        none_among(lines, xs),
    ensures
        entries_of(
            content_after(
                content_after(rendered(lines), initial, EditView::Add(xs)),
                initial,
                EditView::Remove(xs),
            ),
        ) == entries_of(rendered(lines)),
{
    lemma_entries_after_add(lines, initial, xs);
    lemma_entries_after_remove(lines, xs);
    lemma_read_back(lines);
}

/// Removing `xs` from entries of which none is among `xs`, followed by the
/// entries among `xs`, leaves the former.
pub proof fn lemma_kept_sum(e: Seq<Seq<char>>, xs: Seq<Seq<char>>)
    requires
        none_among(e, xs),
    ensures
        kept(e + nonempty(xs), xs) == e,
{
    let b = nonempty(xs);
    lemma_kept_all(e, xs);
    lemma_nonempty_all_among(xs);
    lemma_kept_none(b, xs);
    Seq::filter_distributes_over_add(e, b, not_in(xs));
    assert(e + Seq::<Seq<char>>::empty() =~= e);
}

/// Adding entries to any file of whole lines and then removing the same
/// entries leaves the entries of the file as they were, in their order,
/// provided none of the added entries was in the file before and the
/// entries of the file are such as can be written back.
pub proof fn law_add_then_remove_in_any_file(
    content: Seq<char>,
    initial: Seq<Seq<char>>,
    xs: Seq<Seq<char>>,
)
    requires
        whole_lines(content),
        clean_lines(entries_of(content)),
        clean_lines(xs),
        none_among(entries_of(content), xs),
    ensures
        entries_of(
            content_after(
                content_after(content, initial, EditView::Add(xs)),
                initial,
                EditView::Remove(xs),
            ),
        ) == entries_of(content),
{
    lemma_entries_concat(content, xs);
    lemma_kept_sum(entries_of(content), xs);
    lemma_entries_fixed(content);
}

/// Resetting twice leaves the file as resetting once does.
pub proof fn law_reset_twice(content: Seq<char>, initial: Seq<Seq<char>>)
    ensures
        content_after(
            content_after(content, initial, EditView::Reset),
            initial,
            EditView::Reset,
        ) == content_after(content, initial, EditView::Reset),
{
}

} // verus!

//! The line-file store: entry lists kept as text, one entry per line.
//!
//! Sessions and the command-line tool share state through files of this one
//! shape. The functions here work on the text of such a file; whoever holds
//! the path reads the text, calls them, and writes the result back.

use crate::text::{
    find, find_from, from_chars, lemma_find, lemma_find_unique, push_str, slice_copy, to_chars,
    views,
};
use vstd::prelude::*;

verus! {

/// `l` without one closing carriage return, if it has one.
pub open spec fn strip_cr(l: Seq<char>) -> Seq<char> {
    if l.len() > 0 && l.last() == '\r' {
        l.drop_last()
    } else {
        l
    }
}

/// The lines of a text. A line ends at a line feed; a carriage return right
/// before that line feed is not part of the line. Text after the last line
/// feed is a line of its own unless it is empty.
pub open spec fn lines_of(s: Seq<char>) -> Seq<Seq<char>>
    decreases s.len(),
{
    if s.len() == 0 {
        Seq::empty()
    } else {
        let k = find(s, '\n');
        if 0 <= k < s.len() {
            seq![strip_cr(s.take(k))] + lines_of(s.skip(k + 1))
        } else {
            seq![s]
        }
    }
}

/// The test that keeps the lines that are not empty.
pub open spec fn is_entry() -> spec_fn(Seq<char>) -> bool {
    |l: Seq<char>| l.len() > 0
}

/// The entries among `lines`: those that are not empty.
pub open spec fn nonempty(lines: Seq<Seq<char>>) -> Seq<Seq<char>> {
    lines.filter(is_entry())
}

/// The entries that a file with the text `content` holds.
pub open spec fn entries_of(content: Seq<char>) -> Seq<Seq<char>> {
    nonempty(lines_of(content))
}

/// The text of a file that holds `lines`: each followed by a line feed.
pub open spec fn rendered(lines: Seq<Seq<char>>) -> Seq<char>
    decreases lines.len(),
{
    if lines.len() == 0 {
        Seq::empty()
    } else {
        rendered(lines.drop_last()) + lines.last() + seq!['\n']
    }
}

/// The test that keeps what is not in `removal`.
pub open spec fn not_in(removal: Seq<Seq<char>>) -> spec_fn(Seq<char>) -> bool {
    |e: Seq<char>| !removal.contains(e)
}

/// `entries` without those that occur in `removal`; the rest keep their order.
pub open spec fn kept(entries: Seq<Seq<char>>, removal: Seq<Seq<char>>) -> Seq<Seq<char>> {
    entries.filter(not_in(removal))
}

/// A line that survives being written and read back: it holds no line feed
/// and does not end in a carriage return.
pub open spec fn clean_line(l: Seq<char>) -> bool {
    find(l, '\n') >= l.len() && (l.len() == 0 || l.last() != '\r')
}

/// Whether every line of `lines` is clean.
#[verifier::opaque]
pub open spec fn clean_lines(lines: Seq<Seq<char>>) -> bool {
    forall|i: int| 0 <= i < lines.len() ==> clean_line(#[trigger] lines[i])
}

/// Filtering a single line keeps it or drops it.
pub proof fn lemma_nonempty_one(l: Seq<char>)
    ensures
        nonempty(seq![l]) == if l.len() > 0 {
            seq![l]
        } else {
            Seq::<Seq<char>>::empty()
        },
{
    reveal(Seq::filter);
    let one = seq![l];
    assert(one.drop_last() =~= Seq::<Seq<char>>::empty());
    assert(one.drop_last().filter(is_entry()) =~= Seq::<Seq<char>>::empty());
    assert(one.last() == l);
    if l.len() > 0 {
        assert(one.filter(is_entry()) =~= seq![l]);
    }
}

/// The entries of two lists, one after the other.
pub proof fn lemma_nonempty_add(a: Seq<Seq<char>>, b: Seq<Seq<char>>)
    ensures
        nonempty(a + b) == nonempty(a) + nonempty(b),
{
    Seq::filter_distributes_over_add(a, b, is_entry());
}

/// The text of two lists is the text of the first, then that of the second.
pub proof fn lemma_rendered_add(a: Seq<Seq<char>>, b: Seq<Seq<char>>)
    ensures
        rendered(a + b) == rendered(a) + rendered(b),
    decreases b.len(),
{
    if b.len() == 0 {
        assert(a + b =~= a);
        assert(rendered(a) + rendered(b) =~= rendered(a));
    } else {
        assert((a + b).drop_last() =~= a + b.drop_last());
        assert((a + b).last() == b.last());
        lemma_rendered_add(a, b.drop_last());
        assert(rendered(a + b) =~= rendered(a) + rendered(b));
    }
}

/// The text of one line.
pub proof fn lemma_rendered_one(l: Seq<char>)
    ensures
        rendered(seq![l]) == l + seq!['\n'],
{
    let one = seq![l];
    assert(one.drop_last() =~= Seq::<Seq<char>>::empty());
    assert(rendered(one.drop_last()) =~= Seq::<char>::empty());
    assert(rendered(one) =~= l + seq!['\n']);
}

/// Reading a text that starts with a clean line and its line feed gives that
/// line, then the lines of the rest.
pub proof fn lemma_lines_first(l: Seq<char>, rest: Seq<char>)
    requires
        clean_line(l),
    ensures
        lines_of(l + seq!['\n'] + rest) == seq![l] + lines_of(rest),
{
    let s = l + seq!['\n'] + rest;
    lemma_find(l, '\n');
    assert forall|j: int| 0 <= j < l.len() implies s[j] != '\n' by {
        assert(s[j] == l[j]);
    }
    assert(s[l.len() as int] == '\n');
    lemma_find_unique(s, '\n', l.len() as int);
    assert(s.take(l.len() as int) =~= l);
    assert(s.skip(l.len() as int + 1) =~= rest);
}

/// Whether a text is made of whole lines: it is empty or ends in a line
/// feed.
pub open spec fn whole_lines(s: Seq<char>) -> bool {
    s.len() == 0 || s.last() == '\n'
}

/// The lines of a text of whole lines followed by more text are the lines of
/// the one and then the lines of the other.
pub proof fn lemma_lines_concat(a: Seq<char>, b: Seq<char>)
    requires
        whole_lines(a),
    ensures
        lines_of(a + b) == lines_of(a) + lines_of(b),
    decreases a.len(),
{
    if a.len() == 0 {
        assert(a + b =~= b);
        assert(lines_of(a) + lines_of(b) =~= lines_of(b));
    } else {
        lemma_find(a, '\n');
        let k = find(a, '\n');
        if k >= a.len() {
            assert(a[a.len() - 1] != '\n');
        }
        let s = a + b;
        assert forall|j: int| 0 <= j < k implies s[j] != '\n' by {
            assert(s[j] == a[j]);
        }
        assert(s[k] == a[k]);
        lemma_find_unique(s, '\n', k);
        assert(s.take(k) =~= a.take(k));
        let rest = a.skip(k + 1);
        assert(s.skip(k + 1) =~= rest + b);
        if rest.len() > 0 {
            assert(rest.last() == a.last());
        }
        lemma_lines_concat(rest, b);
        assert(lines_of(s) == seq![strip_cr(s.take(k))] + lines_of(s.skip(k + 1)));
        assert(lines_of(a) == seq![strip_cr(a.take(k))] + lines_of(rest));
        assert(lines_of(s) =~= lines_of(a) + lines_of(b));
    }
}

/// Written lines read back: the entries of the text of clean lines are those
/// lines, less the empty ones.
pub proof fn lemma_read_back(lines: Seq<Seq<char>>)
    requires
        clean_lines(lines),
    ensures
        entries_of(rendered(lines)) == nonempty(lines),
    decreases lines.len(),
{
    reveal(clean_lines);
    if lines.len() == 0 {
        assert(lines_of(rendered(lines)) =~= lines);
    } else {
        let first = lines[0];
        let rest = lines.drop_first();
        assert(lines =~= seq![first] + rest);
        lemma_rendered_add(seq![first], rest);
        lemma_rendered_one(first);
        assert(clean_line(first));
        assert forall|i: int| 0 <= i < rest.len() implies clean_line(#[trigger] rest[i]) by {
            assert(rest[i] == lines[i + 1]);
        }
        lemma_lines_first(first, rendered(rest));
        lemma_read_back(rest);
        lemma_nonempty_add(seq![first], lines_of(rendered(rest)));
        lemma_nonempty_add(seq![first], rest);
    }
}

/// What is kept of clean lines is clean.
pub proof fn lemma_kept_clean(entries: Seq<Seq<char>>, removal: Seq<Seq<char>>)
    requires
        clean_lines(entries),
    ensures
        clean_lines(kept(entries, removal)),
{
    reveal(clean_lines);
    let out = kept(entries, removal);
    assert forall|i: int| 0 <= i < out.len() implies clean_line(#[trigger] out[i]) by {
        entries.lemma_filter_contains_rev(not_in(removal), out[i]);
        let j = choose|j: int| 0 <= j < entries.len() && entries[j] == out[i];
        assert(clean_line(entries[j]));
    }
}

/// The entries among clean lines are clean.
pub proof fn lemma_nonempty_clean(lines: Seq<Seq<char>>)
    requires
        clean_lines(lines),
    ensures
        clean_lines(nonempty(lines)),
        nonempty(nonempty(lines)) == nonempty(lines),
{
    reveal(clean_lines);
    let out = nonempty(lines);
    assert forall|i: int| 0 <= i < out.len() implies clean_line(#[trigger] out[i]) by {
        lines.lemma_filter_contains_rev(is_entry(), out[i]);
        let j = choose|j: int| 0 <= j < lines.len() && lines[j] == out[i];
        assert(clean_line(lines[j]));
    }
    assert forall|i: int| 0 <= i < out.len() implies (is_entry())(#[trigger] out[i]) by {
        lines.lemma_filter_pred(is_entry(), i);
    }
    lemma_filter_all(out, is_entry());
}

/// Clean lines after clean lines are clean lines.
pub proof fn lemma_clean_add(a: Seq<Seq<char>>, b: Seq<Seq<char>>)
    requires
        clean_lines(a),
        clean_lines(b),
    ensures
        clean_lines(a + b),
{
    reveal(clean_lines);
    assert forall|i: int| 0 <= i < (a + b).len() implies clean_line(#[trigger] (a + b)[i]) by {
        if i < a.len() {
            assert((a + b)[i] == a[i]);
        } else {
            assert((a + b)[i] == b[i - a.len()]);
        }
    }
}

/// No lines at all are clean lines.
pub proof fn lemma_clean_empty()
    ensures
        clean_lines(Seq::<Seq<char>>::empty()),
{
    reveal(clean_lines);
}

/// A filter that every element passes changes nothing.
pub proof fn lemma_filter_all(s: Seq<Seq<char>>, p: spec_fn(Seq<char>) -> bool)
    requires
        forall|i: int| 0 <= i < s.len() ==> p(#[trigger] s[i]),
    ensures
        s.filter(p) == s,
    decreases s.len(),
{
    reveal(Seq::filter);
    if s.len() > 0 {
        let t = s.drop_last();
        assert forall|i: int| 0 <= i < t.len() implies p(#[trigger] t[i]) by {
            assert(t[i] == s[i]);
        }
        lemma_filter_all(t, p);
        assert(p(s.last()));
        assert(s.filter(p) =~= s);
    }
}

/// A filter that no element of `s` passes leaves nothing.
pub proof fn lemma_filter_none(s: Seq<Seq<char>>, p: spec_fn(Seq<char>) -> bool)
    requires
        forall|i: int| 0 <= i < s.len() ==> !p(#[trigger] s[i]),
    ensures
        s.filter(p) == Seq::<Seq<char>>::empty(),
    decreases s.len(),
{
    reveal(Seq::filter);
    if s.len() > 0 {
        let t = s.drop_last();
        assert forall|i: int| 0 <= i < t.len() implies !p(#[trigger] t[i]) by {
            assert(t[i] == s[i]);
        }
        lemma_filter_none(t, p);
        assert(!p(s.last()));
    }
}

/// Read the entries of a file: its non-empty lines.
pub fn read_lines(content: &str) -> (out: Vec<String>)
    ensures
        views(out@) == entries_of(content@),
{
    let s = to_chars(content);
    let mut out: Vec<String> = Vec::new();
    let mut start: usize = 0;
    proof {
        assert(s@.skip(0) =~= s@);
        assert(views(out@) + entries_of(s@) =~= entries_of(s@));
    }
    loop
        invariant_except_break
            s@ == content@,
            start <= s.len(),
            entries_of(s@) == views(out@) + entries_of(s@.skip(start as int)),
        ensures
            s@ == content@,
            views(out@) == entries_of(s@),
        decreases s.len() - start,
    {
        let ghost rest = s@.skip(start as int);
        let ghost before = views(out@);
        if start >= s.len() {
            proof {
                assert(lines_of(rest) =~= Seq::<Seq<char>>::empty());
                reveal(Seq::filter);
                assert(before + entries_of(rest) =~= before);
            }
            break;
        }
        let k = find_from(s.as_slice(), '\n', start);
        if k >= s.len() {
            // The last line has no line feed: it is kept whole.
            let line = slice_copy(s.as_slice(), start, s.len());
            proof {
                assert(s@.subrange(start as int, s.len() as int) =~= rest);
                assert(lines_of(rest) == seq![rest]);
                lemma_nonempty_one(rest);
            }
            out.push(from_chars(line.as_slice()));
            proof {
                assert(views(out@) =~= before + seq![rest]);
            }
            break;
        }
        let end: usize = if k > start && s[k - 1] == '\r' {
            k - 1
        } else {
            k
        };
        let line = slice_copy(s.as_slice(), start, end);
        proof {
            let raw = rest.take(k - start);
            assert(raw =~= s@.subrange(start as int, k as int));
            assert(strip_cr(raw) =~= s@.subrange(start as int, end as int));
            assert(rest.skip(k - start + 1) =~= s@.skip(k + 1));
            assert(lines_of(rest) == seq![strip_cr(raw)] + lines_of(s@.skip(k + 1)));
            lemma_nonempty_add(seq![strip_cr(raw)], lines_of(s@.skip(k + 1)));
            lemma_nonempty_one(strip_cr(raw));
        }
        if line.len() > 0 {
            out.push(from_chars(line.as_slice()));
            proof {
                assert(views(out@) =~= before + seq![line@]);
            }
        }
        proof {
            assert(entries_of(s@) =~= views(out@) + entries_of(s@.skip(k + 1)));
        }
        start = k + 1;
    }
    out
}

/// The lines of a text, empty ones included.
pub fn all_lines(content: &str) -> (out: Vec<String>)
    ensures
        views(out@) == lines_of(content@),
{
    let s = to_chars(content);
    let mut out: Vec<String> = Vec::new();
    let mut start: usize = 0;
    proof {
        assert(s@.skip(0) =~= s@);
        assert(views(out@) + lines_of(s@) =~= lines_of(s@));
    }
    loop
        invariant_except_break
            s@ == content@,
            start <= s.len(),
            lines_of(s@) == views(out@) + lines_of(s@.skip(start as int)),
        ensures
            s@ == content@,
            views(out@) == lines_of(s@),
        decreases s.len() - start,
    {
        let ghost rest = s@.skip(start as int);
        let ghost before = views(out@);
        if start >= s.len() {
            proof {
                assert(lines_of(rest) =~= Seq::<Seq<char>>::empty());
                assert(before + lines_of(rest) =~= before);
            }
            break;
        }
        let k = find_from(s.as_slice(), '\n', start);
        if k >= s.len() {
            let line = slice_copy(s.as_slice(), start, s.len());
            proof {
                assert(s@.subrange(start as int, s.len() as int) =~= rest);
                assert(lines_of(rest) == seq![rest]);
            }
            out.push(from_chars(line.as_slice()));
            proof {
                assert(views(out@) =~= before + seq![rest]);
            }
            break;
        }
        let end: usize = if k > start && s[k - 1] == '\r' {
            k - 1
        } else {
            k
        };
        let line = slice_copy(s.as_slice(), start, end);
        proof {
            let raw = rest.take(k - start);
            assert(raw =~= s@.subrange(start as int, k as int));
            assert(strip_cr(raw) =~= s@.subrange(start as int, end as int));
            assert(rest.skip(k - start + 1) =~= s@.skip(k + 1));
            assert(lines_of(rest) == seq![strip_cr(raw)] + lines_of(s@.skip(k + 1)));
        }
        out.push(from_chars(line.as_slice()));
        proof {
            assert(views(out@) =~= before + seq![line@]);
            assert(lines_of(s@) =~= views(out@) + lines_of(s@.skip(k + 1)));
        }
        start = k + 1;
    }
    out
}

/// Appends the text of `lines` to `out`.
fn push_rendered(out: &mut Vec<char>, lines: &[String])
    ensures
        final(out)@ == old(out)@ + rendered(views(lines@)),
{
    let mut i: usize = 0;
    proof {
        assert(views(lines@).take(0) =~= Seq::<Seq<char>>::empty());
        assert(out@ =~= old(out)@ + rendered(views(lines@).take(0)));
    }
    while i < lines.len()
        invariant
            i <= lines.len(),
            out@ == old(out)@ + rendered(views(lines@).take(i as int)),
        decreases lines.len() - i,
    {
        push_str(out, lines[i].as_str());
        out.push('\n');
        i = i + 1;
        proof {
            let all = views(lines@);
            assert(all.take(i as int).drop_last() =~= all.take(i - 1));
            assert(all.take(i as int).last() == lines@[i - 1]@);
            assert(out@ =~= old(out)@ + rendered(all.take(i as int)));
        }
    }
    assert(views(lines@).take(lines.len() as int) =~= views(lines@));
}

/// The text of a file that holds `lines`, one per line; no line, empty text.
pub fn write_lines(lines: &[String]) -> (content: String)
    ensures
        content@ == rendered(views(lines@)),
{
    let mut out: Vec<char> = Vec::new();
    push_rendered(&mut out, lines);
    assert(out@ =~= rendered(views(lines@)));
    from_chars(out.as_slice())
}

/// The text of a file with the text `content` after `lines` were appended.
pub fn append_lines(content: &str, lines: &[String]) -> (out: String)
    ensures
        out@ == content@ + rendered(views(lines@)),
{
    let mut out = to_chars(content);
    push_rendered(&mut out, lines);
    from_chars(out.as_slice())
}

/// Whether `list` holds a string equal to `item`.
pub fn contains_string(list: &[String], item: &String) -> (r: bool)
    ensures
        r == views(list@).contains(item@),
{
    let mut i: usize = 0;
    while i < list.len()
        invariant
            i <= list.len(),
            forall|j: int| 0 <= j < i ==> views(list@)[j] != item@,
        decreases list.len() - i,
    {
        if list[i] == *item {
            assert(views(list@)[i as int] == item@);
            return true;
        }
        i = i + 1;
    }
    false
}

/// The entries of `existing` that are not in `to_remove`, in their order.
pub fn without_removed(existing: Vec<String>, to_remove: &[String]) -> (out: Vec<String>)
    ensures
        views(out@) == kept(views(existing@), views(to_remove@)),
{
    let ghost all = views(existing@);
    let ghost p = not_in(views(to_remove@));
    let mut out: Vec<String> = Vec::new();
    let mut i: usize = 0;
    proof {
        reveal(Seq::filter);
        assert(all.take(0) =~= Seq::<Seq<char>>::empty());
        assert(views(out@) =~= all.take(0).filter(p));
    }
    while i < existing.len()
        invariant
            i <= existing.len(),
            all == views(existing@),
            p == not_in(views(to_remove@)),
            views(out@) == all.take(i as int).filter(p),
        decreases existing.len() - i,
    {
        let ghost before = views(out@);
        let keep = !contains_string(to_remove, &existing[i]);
        proof {
            reveal(Seq::filter);
            assert(all.take(i + 1).drop_last() =~= all.take(i as int));
            assert(all.take(i + 1).last() == existing@[i as int]@);
        }
        if keep {
            out.push(existing[i].clone());
            proof {
                assert(views(out@) =~= before.push(existing@[i as int]@));
            }
        }
        i = i + 1;
    }
    assert(all.take(existing.len() as int) =~= all);
    out
}

/// The text of a file with the text `content` after the entries in
/// `to_remove` were taken out: what is left is written anew.
pub fn remove_lines(content: &str, to_remove: &[String]) -> (out: String)
    ensures
        out@ == rendered(kept(entries_of(content@), views(to_remove@))),
{
    let existing = read_lines(content);
    let remaining = without_removed(existing, to_remove);
    write_lines(remaining.as_slice())
}

/// The entries of a text of whole lines to which clean lines were written
/// are the entries of the text and then those of the lines.
pub proof fn lemma_entries_concat(a: Seq<char>, xs: Seq<Seq<char>>)
    requires
        whole_lines(a),
        clean_lines(xs),
    ensures
        entries_of(a + rendered(xs)) == entries_of(a) + nonempty(xs),
{
    lemma_lines_concat(a, rendered(xs));
    lemma_nonempty_add(lines_of(a), lines_of(rendered(xs)));
    lemma_read_back(xs);
}

/// Among entries there is nothing but entries.
pub proof fn lemma_nonempty_twice(lines: Seq<Seq<char>>)
    ensures
        nonempty(nonempty(lines)) == nonempty(lines),
{
    let e = nonempty(lines);
    assert forall|i: int| 0 <= i < e.len() implies (is_entry())(#[trigger] e[i]) by {
        lines.lemma_filter_pred(is_entry(), i);
    }
    lemma_filter_all(e, is_entry());
}

/// Entries that can be written back read back as themselves.
pub proof fn lemma_entries_fixed(content: Seq<char>)
    requires
        clean_lines(entries_of(content)),
    ensures
        entries_of(rendered(entries_of(content))) == entries_of(content),
{
    lemma_read_back(entries_of(content));
    lemma_nonempty_twice(lines_of(content));
}

} // verus!

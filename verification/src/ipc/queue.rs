//! Submission queue types.
//!
//! The queue is owned by the daemon: commands issued while no session is
//! active pile up as pending, a submit freezes them into a submission, and the
//! next session of a matching portal takes the oldest one.

use crate::files::{contains_string, kept, not_in, without_removed};
use crate::portal::copy_strings;
use crate::portal_type::PortalType;
use crate::text::views;
use vstd::prelude::*;

verus! {

/// A command that can be queued.
#[derive(Debug, Clone)]
pub enum QueuedCommand {
    Select(Vec<String>),
    Deselect(Vec<String>),
    Clear,
}

/// A complete submission ready to be applied to a session.
#[derive(Debug, Clone)]
pub struct Submission {
    /// Commands to execute.
    pub commands: Vec<QueuedCommand>,
    /// Unix timestamp when created.
    pub created: u64,
    /// Target portal type (None = any).
    pub portal: Option<PortalType>,
}

/// The submission queue (owned by daemon).
#[derive(Debug, Clone)]
pub struct SubmissionQueue {
    /// Pending commands not yet submitted.
    pub pending: Vec<QueuedCommand>,
    /// Completed submissions waiting for sessions.
    pub submissions: Vec<Submission>,
}

/// Whether a submission made for `target` serves a session of `portal`.
pub open spec fn serves(target: Option<PortalType>, portal: PortalType) -> bool {
    match target {
        None => true,
        Some(p) => p == portal,
    }
}

/// The position of the oldest submission that serves `portal`, or the length
/// of the queue if none does.
pub open spec fn first_serving(subs: Seq<Submission>, portal: PortalType) -> int
    decreases subs.len(),
{
    if subs.len() == 0 {
        0
    } else if serves(subs[0].portal, portal) {
        0
    } else {
        1 + first_serving(subs.drop_first(), portal)
    }
}

/// `first_serving` is the least position that serves, or the length.
pub proof fn lemma_first_serving(subs: Seq<Submission>, portal: PortalType, k: int)
    requires
        0 <= k <= subs.len(),
        forall|j: int| 0 <= j < k ==> !serves(#[trigger] subs[j].portal, portal),
        k < subs.len() ==> serves(subs[k].portal, portal),
    ensures
        first_serving(subs, portal) == k,
    decreases subs.len(),
{
    if k > 0 {
        let t = subs.drop_first();
        assert(!serves(subs[0].portal, portal));
        assert forall|j: int| 0 <= j < k - 1 implies !serves(#[trigger] t[j].portal, portal) by {
            assert(t[j] == subs[j + 1]);
        }
        lemma_first_serving(t, portal, k - 1);
    }
}

/// The time, in whole seconds since the Unix epoch, as `SystemTime::now`
/// gives it; before the epoch it is zero. Nothing is promised of the value.
#[verifier::external_body]
fn unix_seconds() -> u64 {
    std::time::SystemTime::now().duration_since(std::time::UNIX_EPOCH).unwrap_or_default().as_secs()
}

impl SubmissionQueue {
    /// An empty queue.
    pub fn new() -> (q: SubmissionQueue)
        ensures
            q.pending@.len() == 0,
            q.submissions@.len() == 0,
    {
        SubmissionQueue { pending: Vec::new(), submissions: Vec::new() }
    }

    /// Add a command to pending.
    pub fn push_command(&mut self, cmd: QueuedCommand)
        ensures
            final(self).pending@ == old(self).pending@.push(cmd),
            final(self).submissions@ == old(self).submissions@,
    {
        self.pending.push(cmd);
    }

    /// Freezes the pending commands into a submission stamped `created`.
    /// With nothing pending the queue stays as it is.
    pub fn submit_at(&mut self, portal: Option<PortalType>, created: u64)
        ensures
            old(self).pending@.len() == 0 ==> *final(self) == *old(self),
            old(self).pending@.len() > 0 ==> {
                &&& final(self).pending@.len() == 0
                &&& final(self).submissions@.len() == old(self).submissions@.len() + 1
                &&& final(self).submissions@.drop_last() == old(self).submissions@
                &&& final(self).submissions@.last().commands@ == old(self).pending@
                &&& final(self).submissions@.last().created == created
                &&& final(self).submissions@.last().portal == portal
            },
    {
        if self.pending.len() == 0 {
            return ;
        }
        let mut commands: Vec<QueuedCommand> = Vec::new();
        std::mem::swap(&mut self.pending, &mut commands);
        self.submissions.push(Submission { commands, created, portal });
        assert(self.submissions@.drop_last() =~= old(self).submissions@);
    }

    /// Create a submission from pending commands, stamped with the current
    /// time. With nothing pending the queue stays as it is.
    pub fn submit(&mut self, portal: Option<PortalType>)
        ensures
            old(self).pending@.len() == 0 ==> *final(self) == *old(self),
            old(self).pending@.len() > 0 ==> {
                &&& final(self).pending@.len() == 0
                &&& final(self).submissions@.len() == old(self).submissions@.len() + 1
                &&& final(self).submissions@.drop_last() == old(self).submissions@
                &&& final(self).submissions@.last().commands@ == old(self).pending@
                &&& final(self).submissions@.last().portal == portal
            },
    {
        if self.pending.len() == 0 {
            return ;
        }
        let created = unix_seconds();
        self.submit_at(portal, created);
    }

    /// Pop a submission matching the given portal type: the oldest one made
    /// for that portal or for any.
    pub fn pop_for_portal(&mut self, portal: PortalType) -> (r: Option<Submission>)
        ensures
            final(self).pending@ == old(self).pending@,
            first_serving(old(self).submissions@, portal) >= old(self).submissions@.len() ==> r
                is None && final(self).submissions@ == old(self).submissions@,
            first_serving(old(self).submissions@, portal) < old(self).submissions@.len() ==> {
                let k = first_serving(old(self).submissions@, portal);
                &&& r == Some(old(self).submissions@[k])
                &&& final(self).submissions@ == old(self).submissions@.remove(k)
            },
    {
        let mut i: usize = 0;
        while i < self.submissions.len()
            invariant
                i <= self.submissions.len(),
                *self == *old(self),
                forall|j: int| 0 <= j < i ==> !serves(#[trigger] self.submissions@[j].portal, portal),
            decreases self.submissions.len() - i,
        {
            let hit = match self.submissions[i].portal {
                None => true,
                Some(p) => p == portal,
            };
            if hit {
                proof {
                    lemma_first_serving(self.submissions@, portal, i as int);
                }
                return Some(self.submissions.remove(i));
            }
            i = i + 1;
        }
        proof {
            lemma_first_serving(self.submissions@, portal, i as int);
        }
        None
    }

    /// Clear pending commands.
    pub fn clear_pending(&mut self)
        ensures
            final(self).pending@.len() == 0,
            final(self).submissions@ == old(self).submissions@,
    {
        self.pending.clear();
    }

    /// Clear everything.
    pub fn clear_all(&mut self)
        ensures
            final(self).pending@.len() == 0,
            final(self).submissions@.len() == 0,
    {
        self.pending.clear();
        self.submissions.clear();
    }
}

impl Default for SubmissionQueue {
    fn default() -> (q: SubmissionQueue)
        ensures
            q.pending@.len() == 0,
            q.submissions@.len() == 0,
    {
        SubmissionQueue::new()
    }
}

/// What a queued command says.
pub enum CommandView {
    Select(Seq<Seq<char>>),
    Deselect(Seq<Seq<char>>),
    Clear,
}

impl View for QueuedCommand {
    type V = CommandView;

    open spec fn view(&self) -> CommandView {
        match *self {
            QueuedCommand::Select(v) => CommandView::Select(views(v@)),
            QueuedCommand::Deselect(v) => CommandView::Deselect(views(v@)),
            QueuedCommand::Clear => CommandView::Clear,
        }
    }
}

/// What a list of queued commands says.
pub open spec fn command_views(v: Seq<QueuedCommand>) -> Seq<CommandView> {
    Seq::new(v.len(), |i: int| v[i]@)
}

/// `selection` and then those of `items` that it does not hold yet, each
/// once, in their order.
pub open spec fn with_new(selection: Seq<Seq<char>>, items: Seq<Seq<char>>) -> Seq<Seq<char>>
    decreases items.len(),
{
    if items.len() == 0 {
        selection
    } else {
        let s = with_new(selection, items.drop_last());
        if s.contains(items.last()) {
            s
        } else {
            s.push(items.last())
        }
    }
}

/// The selection after one command: select adds what is new, deselect takes
/// out what it names, clear leaves nothing.
pub open spec fn selection_after(selection: Seq<Seq<char>>, cmd: CommandView) -> Seq<Seq<char>> {
    match cmd {
        CommandView::Select(items) => with_new(selection, items),
        CommandView::Deselect(items) => kept(selection, items),
        CommandView::Clear => Seq::empty(),
    }
}

/// The selection after a run of commands, first to last.
pub open spec fn selection_after_all(selection: Seq<Seq<char>>, cmds: Seq<CommandView>) -> Seq<
    Seq<char>,
>
    decreases cmds.len(),
{
    if cmds.len() == 0 {
        selection
    } else {
        selection_after(selection_after_all(selection, cmds.drop_last()), cmds.last())
    }
}

/// Pushing what a sequence does not hold keeps it free of repeats.
pub proof fn lemma_push_unique(s: Seq<Seq<char>>, x: Seq<char>)
    requires
        s.no_duplicates(),
        !s.contains(x),
    ensures
        s.push(x).no_duplicates(),
{
    let t = s.push(x);
    assert forall|i: int, j: int| 0 <= i < t.len() && 0 <= j < t.len() && i != j implies t[i]
        != t[j] by {
        if i < s.len() && j < s.len() {
            assert(s[i] != s[j]);
        } else if i < s.len() {
            assert(s.contains(s[i]));
        } else {
            assert(s.contains(s[j]));
        }
    }
}

/// Adding what is new to a selection without repeats leaves it without
/// repeats.
pub proof fn lemma_with_new_unique(selection: Seq<Seq<char>>, items: Seq<Seq<char>>)
    requires
        selection.no_duplicates(),
    ensures
        with_new(selection, items).no_duplicates(),
    decreases items.len(),
{
    if items.len() > 0 {
        lemma_with_new_unique(selection, items.drop_last());
        let s = with_new(selection, items.drop_last());
        if !s.contains(items.last()) {
            lemma_push_unique(s, items.last());
        }
    }
}

/// Taking entries out of a selection without repeats leaves it without
/// repeats, and brings in nothing that was not there.
pub proof fn lemma_kept_unique(selection: Seq<Seq<char>>, items: Seq<Seq<char>>)
    requires
        selection.no_duplicates(),
    ensures
        kept(selection, items).no_duplicates(),
        forall|x: Seq<char>| kept(selection, items).contains(x) ==> selection.contains(x),
    decreases selection.len(),
{
    reveal(Seq::filter);
    if selection.len() > 0 {
        let head = selection.drop_last();
        let last = selection.last();
        assert forall|i: int, j: int| 0 <= i < head.len() && 0 <= j < head.len() && i
            != j implies head[i] != head[j] by {
            assert(selection[i] != selection[j]);
        }
        lemma_kept_unique(head, items);
        let sub = kept(head, items);
        assert forall|x: Seq<char>| sub.contains(x) implies selection.contains(x) by {
            assert(head.contains(x));
            let i = choose|i: int| 0 <= i < head.len() && head[i] == x;
            assert(selection[i] == x);
        }
        if not_in(items)(last) {
            assert(kept(selection, items) == sub.push(last));
            if sub.contains(last) {
                assert(head.contains(last));
                let i = choose|i: int| 0 <= i < head.len() && head[i] == last;
                assert(selection[i] == selection[selection.len() - 1]);
            }
            lemma_push_unique(sub, last);
            assert forall|x: Seq<char>| sub.push(last).contains(x) implies selection.contains(
                x,
            ) by {
                let i = choose|i: int| 0 <= i < sub.push(last).len() && sub.push(last)[i] == x;
                if i < sub.len() {
                    assert(sub.contains(x));
                } else {
                    assert(selection[selection.len() - 1] == x);
                }
            }
        } else {
            assert(kept(selection, items) == sub);
        }
    }
}

/// Nothing occurs twice in a selection: no command brings a repeat into a
/// selection that had none.
pub proof fn law_selection_unique(selection: Seq<Seq<char>>, cmd: CommandView)
    requires
        selection.no_duplicates(),
    ensures
        selection_after(selection, cmd).no_duplicates(),
{
    match cmd {
        CommandView::Select(items) => lemma_with_new_unique(selection, items),
        CommandView::Deselect(items) => lemma_kept_unique(selection, items),
        CommandView::Clear => {},
    }
}

/// Nothing occurs twice in a selection after any run of commands.
pub proof fn law_selection_unique_all(selection: Seq<Seq<char>>, cmds: Seq<CommandView>)
    requires
        selection.no_duplicates(),
    ensures
        selection_after_all(selection, cmds).no_duplicates(),
    decreases cmds.len(),
{
    if cmds.len() > 0 {
        law_selection_unique_all(selection, cmds.drop_last());
        law_selection_unique(selection_after_all(selection, cmds.drop_last()), cmds.last());
    }
}

/// A copy of a command.
pub fn copy_command(cmd: &QueuedCommand) -> (out: QueuedCommand)
    ensures
        out@ == cmd@,
{
    match cmd {
        QueuedCommand::Select(v) => QueuedCommand::Select(copy_strings(v.as_slice())),
        QueuedCommand::Deselect(v) => QueuedCommand::Deselect(copy_strings(v.as_slice())),
        QueuedCommand::Clear => QueuedCommand::Clear,
    }
}

/// A copy of a list of commands.
pub fn copy_commands(cmds: &[QueuedCommand]) -> (out: Vec<QueuedCommand>)
    ensures
        command_views(out@) == command_views(cmds@),
{
    let mut out: Vec<QueuedCommand> = Vec::new();
    let mut i: usize = 0;
    while i < cmds.len()
        invariant
            i <= cmds.len(),
            out@.len() == i,
            forall|j: int| 0 <= j < i ==> (#[trigger] out@[j])@ == cmds@[j]@,
        decreases cmds.len() - i,
    {
        out.push(copy_command(&cmds[i]));
        i = i + 1;
    }
    assert(command_views(out@) =~= command_views(cmds@));
    out
}

/// Adds to `selection` those of `items` that it does not hold yet.
pub fn select_new(selection: Vec<String>, items: &[String]) -> (out: Vec<String>)
    ensures
        views(out@) == with_new(views(selection@), views(items@)),
{
    let mut out = selection;
    let mut i: usize = 0;
    proof {
        assert(views(items@).take(0) =~= Seq::<Seq<char>>::empty());
    }
    while i < items.len()
        invariant
            i <= items.len(),
            views(out@) == with_new(views(selection@), views(items@).take(i as int)),
        decreases items.len() - i,
    {
        let ghost before = views(out@);
        proof {
            let now = views(items@).take(i + 1);
            assert(now.drop_last() =~= views(items@).take(i as int));
            assert(now.last() == items@[i as int]@);
        }
        if !contains_string(out.as_slice(), &items[i]) {
            out.push(items[i].clone());
            proof {
                assert(views(out@) =~= before.push(items@[i as int]@));
            }
        }
        i = i + 1;
    }
    assert(views(items@).take(items.len() as int) =~= views(items@));
    out
}

/// Applies one command to a selection.
pub fn apply_command(selection: Vec<String>, cmd: &QueuedCommand) -> (out: Vec<String>)
    ensures
        views(out@) == selection_after(views(selection@), cmd@),
{
    match cmd {
        QueuedCommand::Select(items) => select_new(selection, items.as_slice()),
        QueuedCommand::Deselect(items) => without_removed(selection, items.as_slice()),
        QueuedCommand::Clear => {
            let out: Vec<String> = Vec::new();
            assert(views(out@) =~= Seq::<Seq<char>>::empty());
            out
        },
    }
}

/// Applies a run of commands to a selection, first to last.
pub fn apply_commands(selection: Vec<String>, cmds: &[QueuedCommand]) -> (out: Vec<String>)
    ensures
        views(out@) == selection_after_all(views(selection@), command_views(cmds@)),
{
    let mut out = selection;
    let mut i: usize = 0;
    proof {
        assert(command_views(cmds@).take(0) =~= Seq::<CommandView>::empty());
    }
    while i < cmds.len()
        invariant
            i <= cmds.len(),
            views(out@) == selection_after_all(
                views(selection@),
                command_views(cmds@).take(i as int),
            ),
        decreases cmds.len() - i,
    {
        proof {
            let now = command_views(cmds@).take(i + 1);
            assert(now.drop_last() =~= command_views(cmds@).take(i as int));
            assert(now.last() == cmds@[i as int]@);
        }
        out = apply_command(out, &cmds[i]);
        i = i + 1;
    }
    assert(command_views(cmds@).take(cmds.len() as int) =~= command_views(cmds@));
    out
}

} // verus!

//! Configuration: which program serves an operation, and which command shims
//! its sessions get.
//!
//! Every level of the file (root, portal, operation) may name a program and a
//! table of shims. The program of the innermost level that names one is used;
//! the tables of all three levels are merged, inner entries winning.

use crate::portal_type::lemma_portal_names_differ;
use crate::protocol::opt_view;
use crate::text::is_str;
use crate::text::to_chars;
use crate::types::file_chooser::opt_str;
use vstd::prelude::*;

verus! {

/// Portal configuration - extensible via generic parameter.
#[derive(Debug, Clone)]
pub struct PortalConfig<Ext> {
    /// Command to execute for this portal.
    pub program: Option<String>,
    /// Custom bin shims for this portal, as name and command; where a name
    /// occurs twice the later entry counts.
    pub bin: Vec<(String, String)>,
    /// Extension fields.
    pub ext: Ext,
}

/// A level without extension fields.
#[derive(Debug, Clone, Copy)]
pub struct NoExt;

/// File chooser operation types.
#[derive(Debug, Clone, Copy, PartialEq, Eq, Structural)]
pub enum FileChooserOp {
    OpenFile,
    SaveFile,
    SaveFiles,
}

impl FileChooserOp {
    /// The token that names the operation in requests, files and the
    /// environment.
    pub open spec fn token(self) -> Seq<char> {
        match self {
            FileChooserOp::OpenFile => "open-file"@,
            FileChooserOp::SaveFile => "save-file"@,
            FileChooserOp::SaveFiles => "save-files"@,
        }
    }

    /// The name shown to people.
    pub open spec fn label(self) -> Seq<char> {
        match self {
            FileChooserOp::OpenFile => "Open File"@,
            FileChooserOp::SaveFile => "Save File"@,
            FileChooserOp::SaveFiles => "Save Files"@,
        }
    }

    /// The operation that a token names, if it names one.
    pub open spec fn of_token(operation: Seq<char>) -> Option<FileChooserOp> {
        if operation == "open-file"@ {
            Some(FileChooserOp::OpenFile)
        } else if operation == "save-file"@ {
            Some(FileChooserOp::SaveFile)
        } else if operation == "save-files"@ {
            Some(FileChooserOp::SaveFiles)
        } else {
            None
        }
    }

    /// The token that names the operation.
    pub fn as_str(&self) -> (out: &'static str)
        ensures
            out@ == self.token(),
    {
        match self {
            FileChooserOp::OpenFile => "open-file",
            FileChooserOp::SaveFile => "save-file",
            FileChooserOp::SaveFiles => "save-files",
        }
    }

    /// The name shown to people.
    pub fn display_name(&self) -> (out: &'static str)
        ensures
            out@ == self.label(),
    {
        match self {
            FileChooserOp::OpenFile => "Open File",
            FileChooserOp::SaveFile => "Save File",
            FileChooserOp::SaveFiles => "Save Files",
        }
    }

    /// The operation that a token of the protocol names.
    pub fn from_token(operation: &str) -> (r: Option<FileChooserOp>)
        ensures
            r == FileChooserOp::of_token(operation@),
    {
        proof {
            reveal_strlit("open-file");
            reveal_strlit("save-file");
            reveal_strlit("save-files");
            assert("open-file"@[0] != "save-file"@[0]);
            assert("open-file"@[0] != "save-files"@[0]);
            assert("save-file"@.len() != "save-files"@.len());
        }
        let chars = to_chars(operation);
        if is_str(chars.as_slice(), "open-file") {
            Some(FileChooserOp::OpenFile)
        } else if is_str(chars.as_slice(), "save-file") {
            Some(FileChooserOp::SaveFile)
        } else if is_str(chars.as_slice(), "save-files") {
            Some(FileChooserOp::SaveFiles)
        } else {
            None
        }
    }
}

/// File chooser extension - sub-operation configs.
#[derive(Debug, Clone)]
pub struct FileChooserExt {
    pub open_file: Option<PortalConfig<NoExt>>,
    pub save_file: Option<PortalConfig<NoExt>>,
    pub save_files: Option<PortalConfig<NoExt>>,
}

/// Screenshot operation types.
#[derive(Debug, Clone, Copy, PartialEq, Eq, Structural)]
pub enum ScreenshotOp {
    Screenshot,
    PickColor,
}

impl ScreenshotOp {
    /// The token that names the operation in requests, files and the
    /// environment.
    pub open spec fn token(self) -> Seq<char> {
        match self {
            ScreenshotOp::Screenshot => "screenshot"@,
            ScreenshotOp::PickColor => "pick-color"@,
        }
    }

    /// The name shown to people.
    pub open spec fn label(self) -> Seq<char> {
        match self {
            ScreenshotOp::Screenshot => "Screenshot"@,
            ScreenshotOp::PickColor => "Pick Color"@,
        }
    }

    /// The operation that a token names, if it names one.
    pub open spec fn of_token(operation: Seq<char>) -> Option<ScreenshotOp> {
        if operation == "screenshot"@ {
            Some(ScreenshotOp::Screenshot)
        } else if operation == "pick-color"@ {
            Some(ScreenshotOp::PickColor)
        } else {
            None
        }
    }

    /// The token that names the operation.
    pub fn as_str(&self) -> (out: &'static str)
        ensures
            out@ == self.token(),
    {
        match self {
            ScreenshotOp::Screenshot => "screenshot",
            ScreenshotOp::PickColor => "pick-color",
        }
    }

    /// The name shown to people.
    pub fn display_name(&self) -> (out: &'static str)
        ensures
            out@ == self.label(),
    {
        match self {
            ScreenshotOp::Screenshot => "Screenshot",
            ScreenshotOp::PickColor => "Pick Color",
        }
    }

    /// The operation that a token of the protocol names.
    pub fn from_token(operation: &str) -> (r: Option<ScreenshotOp>)
        ensures
            r == ScreenshotOp::of_token(operation@),
    {
        proof {
            reveal_strlit("screenshot");
            reveal_strlit("pick-color");
            assert("screenshot"@[0] != "pick-color"@[0]);
        }
        let chars = to_chars(operation);
        if is_str(chars.as_slice(), "screenshot") {
            Some(ScreenshotOp::Screenshot)
        } else if is_str(chars.as_slice(), "pick-color") {
            Some(ScreenshotOp::PickColor)
        } else {
            None
        }
    }
}

/// Screenshot extension - sub-operation configs.
#[derive(Debug, Clone)]
pub struct ScreenshotExt {
    pub screenshot: Option<PortalConfig<NoExt>>,
    pub pick_color: Option<PortalConfig<NoExt>>,
}

/// Root extension - all portal configs.
#[derive(Debug, Clone)]
pub struct RootExt {
    pub file_chooser: Option<PortalConfig<FileChooserExt>>,
    pub screenshot: Option<PortalConfig<ScreenshotExt>>,
}

/// Main configuration - just a PortalConfig with RootExt.
pub type Config = PortalConfig<RootExt>;

/// The program named at a level, if the level exists and names one.
pub open spec fn level_exec<E>(level: Option<PortalConfig<E>>) -> Option<Seq<char>> {
    match level {
        Some(c) => opt_view(c.program),
        None => None,
    }
}

/// The shims of a level; none where the level does not exist.
pub open spec fn level_bin<E>(level: Option<PortalConfig<E>>) -> Seq<(String, String)> {
    match level {
        Some(c) => c.bin@,
        None => Seq::empty(),
    }
}

/// The first of three that is there.
pub open spec fn first_of(
    a: Option<Seq<char>>,
    b: Option<Seq<char>>,
    c: Option<Seq<char>>,
) -> Option<
    Seq<char>,
> {
    if a is Some {
        a
    } else if b is Some {
        b
    } else {
        c
    }
}

/// The program in force: the innermost one named, unless it is empty.
pub open spec fn effective_exec(
    op: Option<Seq<char>>,
    portal: Option<Seq<char>>,
    root: Option<Seq<char>>,
) -> Option<Seq<char>> {
    match first_of(op, portal, root) {
        Some(e) => if e.len() > 0 {
            Some(e)
        } else {
            None
        },
        None => None,
    }
}

/// The table that a list of shims stands for: for each name, the command of
/// its last entry.
pub open spec fn bin_map(v: Seq<(String, String)>) -> Map<Seq<char>, Seq<char>>
    decreases v.len(),
{
    if v.len() == 0 {
        Map::empty()
    } else {
        bin_map(v.drop_last()).insert(v.last().0@, v.last().1@)
    }
}

/// The table of two lists, one after the other, is the table of the first
/// overlaid with the table of the second.
pub proof fn law_bin_merge(a: Seq<(String, String)>, b: Seq<(String, String)>)
    ensures
        bin_map(a + b) == bin_map(a).union_prefer_right(bin_map(b)),
    decreases b.len(),
{
    if b.len() == 0 {
        assert(a + b =~= a);
        assert(bin_map(a).union_prefer_right(bin_map(b)) =~= bin_map(a));
    } else {
        assert((a + b).drop_last() =~= a + b.drop_last());
        assert((a + b).last() == b.last());
        law_bin_merge(a, b.drop_last());
        assert(bin_map(a + b) =~= bin_map(a).union_prefer_right(bin_map(b)));
    }
}

/// The borrowed program of a level.
fn exec_of<E>(level: &Option<PortalConfig<E>>) -> (out: Option<&str>)
    ensures
        opt_str(out) == level_exec(*level),
{
    match level {
        Some(c) => match &c.program {
            Some(e) => Some(e.as_str()),
            None => None,
        },
        None => None,
    }
}

/// Picks the program in force among those of the three levels.
fn pick_exec<'a>(op: Option<&'a str>, portal: Option<&'a str>, root: Option<&'a str>) -> (out:
    Option<&'a str>)
    ensures
        opt_str(out) == effective_exec(opt_str(op), opt_str(portal), opt_str(root)),
{
    let first = if op.is_some() {
        op
    } else if portal.is_some() {
        portal
    } else {
        root
    };
    match first {
        Some(e) => {
            if e.unicode_len() > 0 {
                Some(e)
            } else {
                None
            }
        },
        None => None,
    }
}

/// Appends copies of the shims of `more` to `out`.
fn push_bins(out: &mut Vec<(String, String)>, more: &Vec<(String, String)>)
    ensures
        bin_views(final(out)@) == bin_views(old(out)@) + bin_views(more@),
{
    let mut i: usize = 0;
    proof {
        assert(bin_views(more@).take(0) =~= Seq::<(Seq<char>, Seq<char>)>::empty());
        assert(bin_views(out@) =~= bin_views(old(out)@) + bin_views(more@).take(0));
    }
    while i < more.len()
        invariant
            i <= more.len(),
            bin_views(out@) == bin_views(old(out)@) + bin_views(more@).take(i as int),
        decreases more.len() - i,
    {
        let ghost before = bin_views(out@);
        out.push((more[i].0.clone(), more[i].1.clone()));
        proof {
            assert(bin_views(out@) =~= before.push((more@[i as int].0@, more@[i as int].1@)));
            assert(bin_views(more@).take(i + 1) =~= bin_views(more@).take(i as int).push(
                (more@[i as int].0@, more@[i as int].1@),
            ));
        }
        i = i + 1;
    }
    assert(bin_views(more@).take(more.len() as int) =~= bin_views(more@));
}

/// The names and commands of a list of shims.
pub open spec fn bin_views(v: Seq<(String, String)>) -> Seq<(Seq<char>, Seq<char>)> {
    Seq::new(v.len(), |i: int| (v[i].0@, v[i].1@))
}

/// The shims of three levels, outermost first.
fn merged_bins<E1, E2>(
    root: &Vec<(String, String)>,
    portal: &Option<PortalConfig<E1>>,
    op: Option<&Option<PortalConfig<E2>>>,
) -> (out: Vec<(String, String)>)
    ensures
        bin_views(out@) == bin_views(root@) + bin_views(level_bin(*portal)) + bin_views(
            match op {
                Some(o) => level_bin(*o),
                None => Seq::empty(),
            },
        ),
{
    let mut out: Vec<(String, String)> = Vec::new();
    push_bins(&mut out, root);
    assert(bin_views(out@) =~= bin_views(root@));
    match portal {
        Some(p) => {
            push_bins(&mut out, &p.bin);
        },
        None => {
            assert(bin_views(out@) + bin_views(Seq::<(String, String)>::empty()) =~= bin_views(
                out@,
            ));
        },
    }
    let ghost mid = bin_views(out@);
    match op {
        Some(Some(o)) => {
            push_bins(&mut out, &o.bin);
        },
        _ => {
            assert(mid + bin_views(Seq::<(String, String)>::empty()) =~= mid);
        },
    }
    out
}

impl PortalConfig<RootExt> {
    /// The level of a file-chooser operation, where the portal has one.
    pub open spec fn file_chooser_level(self, op: FileChooserOp) -> Option<PortalConfig<NoExt>> {
        match self.ext.file_chooser {
            Some(fc) => match op {
                FileChooserOp::OpenFile => fc.ext.open_file,
                FileChooserOp::SaveFile => fc.ext.save_file,
                FileChooserOp::SaveFiles => fc.ext.save_files,
            },
            None => None,
        }
    }

    /// The level of a screenshot operation, where the portal has one.
    pub open spec fn screenshot_level(self, op: ScreenshotOp) -> Option<PortalConfig<NoExt>> {
        match self.ext.screenshot {
            Some(sc) => match op {
                ScreenshotOp::Screenshot => sc.ext.screenshot,
                ScreenshotOp::PickColor => sc.ext.pick_color,
            },
            None => None,
        }
    }

    /// Get effective exec for file-chooser operation.
    /// Priority: operation-specific, then file-chooser, then root default.
    pub fn file_chooser_exec(&self, op: FileChooserOp) -> (out: Option<&str>)
        ensures
            opt_str(out) == effective_exec(
                level_exec(self.file_chooser_level(op)),
                level_exec(self.ext.file_chooser),
                opt_view(self.program),
            ),
    {
        let op_exec = match &self.ext.file_chooser {
            Some(fc) => match op {
                FileChooserOp::OpenFile => exec_of(&fc.ext.open_file),
                FileChooserOp::SaveFile => exec_of(&fc.ext.save_file),
                FileChooserOp::SaveFiles => exec_of(&fc.ext.save_files),
            },
            None => None,
        };
        let fc_exec = exec_of(&self.ext.file_chooser);
        let root = match &self.program {
            Some(e) => Some(e.as_str()),
            None => None,
        };
        pick_exec(op_exec, fc_exec, root)
    }

    /// Get effective bin shims for file-chooser operation: those of the root,
    /// then of the portal, then of the operation.
    pub fn file_chooser_bin(&self, op: FileChooserOp) -> (out: Vec<(String, String)>)
        ensures
            bin_views(out@) == bin_views(self.bin@) + bin_views(level_bin(self.ext.file_chooser))
                + bin_views(level_bin(self.file_chooser_level(op))),
    {
        match &self.ext.file_chooser {
            Some(fc) => {
                let level = match op {
                    FileChooserOp::OpenFile => &fc.ext.open_file,
                    FileChooserOp::SaveFile => &fc.ext.save_file,
                    FileChooserOp::SaveFiles => &fc.ext.save_files,
                };
                merged_bins(&self.bin, &self.ext.file_chooser, Some(level))
            },
            None => merged_bins::<FileChooserExt, NoExt>(&self.bin, &self.ext.file_chooser, None),
        }
    }

    /// Get effective exec for screenshot operation.
    /// Priority: operation-specific, then screenshot, then root default.
    pub fn screenshot_exec(&self, op: ScreenshotOp) -> (out: Option<&str>)
        ensures
            opt_str(out) == effective_exec(
                level_exec(self.screenshot_level(op)),
                level_exec(self.ext.screenshot),
                opt_view(self.program),
            ),
    {
        let op_exec = match &self.ext.screenshot {
            Some(sc) => match op {
                ScreenshotOp::Screenshot => exec_of(&sc.ext.screenshot),
                ScreenshotOp::PickColor => exec_of(&sc.ext.pick_color),
            },
            None => None,
        };
        let sc_exec = exec_of(&self.ext.screenshot);
        let root = match &self.program {
            Some(e) => Some(e.as_str()),
            None => None,
        };
        pick_exec(op_exec, sc_exec, root)
    }

    /// Get effective bin shims for screenshot operation: those of the root,
    /// then of the portal, then of the operation.
    pub fn screenshot_bin(&self, op: ScreenshotOp) -> (out: Vec<(String, String)>)
        ensures
            bin_views(out@) == bin_views(self.bin@) + bin_views(level_bin(self.ext.screenshot))
                + bin_views(level_bin(self.screenshot_level(op))),
    {
        match &self.ext.screenshot {
            Some(sc) => {
                let level = match op {
                    ScreenshotOp::Screenshot => &sc.ext.screenshot,
                    ScreenshotOp::PickColor => &sc.ext.pick_color,
                };
                merged_bins(&self.bin, &self.ext.screenshot, Some(level))
            },
            None => merged_bins::<ScreenshotExt, NoExt>(&self.bin, &self.ext.screenshot, None),
        }
    }

    /// The program in force for an operation of a portal, both given by
    /// their tokens: resolved through the levels where the tokens name an
    /// operation of a portal, else the root's own program.
    pub open spec fn program_for(self, portal: Seq<char>, operation: Seq<char>) -> Option<
        Seq<char>,
    > {
        if portal == "file-chooser"@ && FileChooserOp::of_token(operation) is Some {
            effective_exec(
                level_exec(self.file_chooser_level(FileChooserOp::of_token(operation)->0)),
                level_exec(self.ext.file_chooser),
                opt_view(self.program),
            )
        } else if portal == "screenshot"@ && ScreenshotOp::of_token(operation) is Some {
            effective_exec(
                level_exec(self.screenshot_level(ScreenshotOp::of_token(operation)->0)),
                level_exec(self.ext.screenshot),
                opt_view(self.program),
            )
        } else {
            effective_exec(None, None, opt_view(self.program))
        }
    }

    /// The shims in force for an operation of a portal, both given by their
    /// tokens: those of the root, then of the portal, then of the operation
    /// where the tokens name them; else those of the root alone.
    pub open spec fn shims_for(self, portal: Seq<char>, operation: Seq<char>) -> Seq<
        (Seq<char>, Seq<char>),
    > {
        if portal == "file-chooser"@ && FileChooserOp::of_token(operation) is Some {
            bin_views(self.bin@) + bin_views(level_bin(self.ext.file_chooser)) + bin_views(
                level_bin(self.file_chooser_level(FileChooserOp::of_token(operation)->0)),
            )
        } else if portal == "screenshot"@ && ScreenshotOp::of_token(operation) is Some {
            bin_views(self.bin@) + bin_views(level_bin(self.ext.screenshot)) + bin_views(
                level_bin(self.screenshot_level(ScreenshotOp::of_token(operation)->0)),
            )
        } else {
            bin_views(self.bin@)
        }
    }

    /// The program and the shims in force for an operation of a portal.
    pub fn resolve(&self, portal: &str, operation: &str) -> (out: (
        Option<String>,
        Vec<(String, String)>,
    ))
        ensures
            opt_view(out.0) == self.program_for(portal@, operation@),
            bin_views(out.1@) == self.shims_for(portal@, operation@),
    {
        proof {
            lemma_portal_names_differ();
        }
        let name = to_chars(portal);
        if is_str(name.as_slice(), "file-chooser") {
            match FileChooserOp::from_token(operation) {
                Some(op) => {
                    return (owned(self.file_chooser_exec(op)), self.file_chooser_bin(op));
                },
                None => {},
            }
        } else if is_str(name.as_slice(), "screenshot") {
            match ScreenshotOp::from_token(operation) {
                Some(op) => {
                    return (owned(self.screenshot_exec(op)), self.screenshot_bin(op));
                },
                None => {},
            }
        }
        let root = match &self.program {
            Some(e) => Some(e.as_str()),
            None => None,
        };
        let bin = merged_bins::<FileChooserExt, NoExt>(&self.bin, &None, None);
        proof {
            let none = Seq::<(Seq<char>, Seq<char>)>::empty();
            assert(bin_views(Seq::<(String, String)>::empty()) =~= none);
            assert(bin_views(self.bin@) + none + none =~= bin_views(self.bin@));
        }
        (owned(pick_exec(None, None, root)), bin)
    }

    /// A configuration that names nothing but the root program.
    pub fn with_exec(program: Option<String>) -> (c: PortalConfig<RootExt>)
        ensures
            c.program == program,
            c.bin@.len() == 0,
            c.ext.file_chooser is None,
            c.ext.screenshot is None,
    {
        PortalConfig {
            program,
            bin: Vec::new(),
            ext: RootExt { file_chooser: None, screenshot: None },
        }
    }
}

impl Default for PortalConfig<RootExt> {
    /// The configuration that names nothing.
    fn default() -> (c: PortalConfig<RootExt>)
        ensures
            c.program is None,
            c.bin@.len() == 0,
            c.ext.file_chooser is None,
            c.ext.screenshot is None,
    {
        PortalConfig::with_exec(None)
    }
}

/// An owned copy of an optional text.
fn owned(s: Option<&str>) -> (out: Option<String>)
    ensures
        opt_view(out) == opt_str(s),
{
    match s {
        Some(x) => Some(x.to_owned()),
        None => None,
    }
}

/// The token of an operation names that operation and no other.
pub proof fn law_operation_tokens(f: FileChooserOp, s: ScreenshotOp)
    ensures
        FileChooserOp::of_token(f.token()) == Some(f),
        ScreenshotOp::of_token(s.token()) == Some(s),
{
    reveal_strlit("open-file");
    reveal_strlit("save-file");
    reveal_strlit("save-files");
    reveal_strlit("screenshot");
    reveal_strlit("pick-color");
    assert("open-file"@[0] != "save-file"@[0]);
    assert("open-file"@[0] != "save-files"@[0]);
    assert("save-file"@.len() != "save-files"@.len());
    assert("screenshot"@[0] != "pick-color"@[0]);
}

} // verus!

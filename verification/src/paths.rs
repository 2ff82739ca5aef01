//! Where things live: the per-user base directory and what stands in it.

use crate::number::{decimal, u64_to_decimal};
use crate::portal::file_chooser::{join, join_path};
use crate::text::{from_chars, push_all, push_str, to_chars};
use vstd::prelude::*;

verus! {

/// The base directory of a user: `/tmp/portty/<uid>`.
pub open spec fn base_path(uid: u32) -> Seq<char> {
    "/tmp/portty/"@ + decimal(uid as nat)
}

/// Get the base directory for sessions (/tmp/portty/<uid>/).
pub fn base_dir(uid: u32) -> (out: String)
    ensures
        out@ == base_path(uid),
{
    let mut out = to_chars("/tmp/portty/");
    let digits = u64_to_decimal(uid as u64);
    push_all(&mut out, digits.as_slice());
    from_chars(out.as_slice())
}

/// Get the daemon socket path.
pub fn daemon_socket_path(uid: u32) -> (out: String)
    ensures
        out@ == join_path(base_path(uid), "daemon.sock"@),
{
    join(base_dir(uid).as_str(), "daemon.sock")
}

/// Get the pending directory.
pub fn pending_dir(uid: u32) -> (out: String)
    ensures
        out@ == join_path(base_path(uid), "pending"@),
{
    join(base_dir(uid).as_str(), "pending")
}

/// Get the submissions directory.
pub fn submissions_dir(uid: u32) -> (out: String)
    ensures
        out@ == join_path(base_path(uid), "submissions"@),
{
    join(base_dir(uid).as_str(), "submissions")
}

/// Get the daemon control FIFO path.
pub fn daemon_ctl_path(uid: u32) -> (out: String)
    ensures
        out@ == join_path(base_path(uid), "daemon.ctl"@),
{
    join(base_dir(uid).as_str(), "daemon.ctl")
}

/// What is to be done about the base directory once it exists.
#[derive(Debug, Clone)]
pub enum BaseDirCheck {
    /// Owner and mode are right.
    Ready,
    /// The owner is right, the mode is not: set it to 0700.
    FixMode,
    /// Somebody else owns the directory: refuse to go on.
    Refuse(String),
}

/// The message for a base directory that somebody else owns.
pub open spec fn foreign_owner_text(base: Seq<char>, owner: u32, me: u32) -> Seq<char> {
    "base directory "@ + base + " is owned by uid "@ + decimal(owner as nat) + ", expected "@
        + decimal(me as nat)
}

/// Whether the permission bits of `mode` are exactly 0700.
pub open spec fn mode_is_private(mode: u32) -> bool {
    mode & 0o777 == 0o700
}

/// Whether `r` is the verdict on a base directory with this owner and mode,
/// for the user `me`: refused with the message if somebody else owns it,
/// ready if its mode is private, else in need of its mode being set.
pub open spec fn base_dir_verdict(
    base: Seq<char>,
    owner: u32,
    me: u32,
    mode: u32,
    r: BaseDirCheck,
) -> bool {
    if owner != me {
        r matches BaseDirCheck::Refuse(m) && m@ == foreign_owner_text(base, owner, me)
    } else if mode_is_private(mode) {
        r is Ready
    } else {
        r is FixMode
    }
}

/// Ensure the base directory has correct ownership and permissions (0o700):
/// given who owns it and its mode, tells whether it may be used, needs its
/// mode set, or must be refused because it is owned by another user.
pub fn ensure_base_dir(base: &str, owner_uid: u32, my_uid: u32, mode: u32) -> (r: BaseDirCheck)
    ensures
        base_dir_verdict(base@, owner_uid, my_uid, mode, r),
{
    if owner_uid != my_uid {
        let mut msg = to_chars("base directory ");
        push_str(&mut msg, base);
        push_str(&mut msg, " is owned by uid ");
        let o = u64_to_decimal(owner_uid as u64);
        push_all(&mut msg, o.as_slice());
        push_str(&mut msg, ", expected ");
        let m = u64_to_decimal(my_uid as u64);
        push_all(&mut msg, m.as_slice());
        return BaseDirCheck::Refuse(from_chars(msg.as_slice()));
    }
    if mode & 0o777 != 0o700 {
        BaseDirCheck::FixMode
    } else {
        BaseDirCheck::Ready
    }
}

/// One step of the daemon's start.
#[derive(Debug, Clone, Copy, PartialEq, Eq, Structural)]
pub enum StartupStep {
    /// Set the mode of the base directory to 0700.
    SetPrivateMode,
    /// Remove a stale control socket and bind a new one.
    BindSocket,
    /// Remove a stale control FIFO and make a new one with mode 0600.
    MakeFifo,
    /// Start the listeners and publish the portals.
    Serve,
}

/// The steps of the daemon's start after the check of the base directory:
/// none if the directory is refused; else, the mode set right first where
/// it is not, then the socket, the FIFO and the service.
pub open spec fn startup_steps(check: BaseDirCheck) -> Seq<StartupStep> {
    match check {
        BaseDirCheck::Refuse(_) => Seq::empty(),
        BaseDirCheck::FixMode => seq![
            StartupStep::SetPrivateMode,
            StartupStep::BindSocket,
            StartupStep::MakeFifo,
            StartupStep::Serve,
        ],
        BaseDirCheck::Ready => seq![
            StartupStep::BindSocket,
            StartupStep::MakeFifo,
            StartupStep::Serve,
        ],
    }
}

/// The steps of the daemon's start after the check of the base directory.
pub fn startup_plan(check: &BaseDirCheck) -> (out: Vec<StartupStep>)
    ensures
        out@ == startup_steps(*check),
{
    let mut out: Vec<StartupStep> = Vec::new();
    match check {
        BaseDirCheck::Refuse(_) => {},
        BaseDirCheck::FixMode => {
            out.push(StartupStep::SetPrivateMode);
            out.push(StartupStep::BindSocket);
            out.push(StartupStep::MakeFifo);
            out.push(StartupStep::Serve);
        },
        BaseDirCheck::Ready => {
            out.push(StartupStep::BindSocket);
            out.push(StartupStep::MakeFifo);
            out.push(StartupStep::Serve);
        },
    }
    assert(out@ =~= startup_steps(*check));
    out
}

/// No socket is bound unless the caller owns the base directory, and by
/// the time one is bound the mode of the directory is 0700: it was so, or
/// setting it is an earlier step.
pub proof fn law_private_before_bind(
    base: Seq<char>,
    owner_uid: u32,
    my_uid: u32,
    mode: u32,
    check: BaseDirCheck,
    i: int,
)
    requires
        base_dir_verdict(base, owner_uid, my_uid, mode, check),
        0 <= i < startup_steps(check).len(),
        startup_steps(check)[i] == StartupStep::BindSocket,
    ensures
        owner_uid == my_uid,
        mode_is_private(mode) || (exists|j: int|
            0 <= j < i && startup_steps(check)[j] == StartupStep::SetPrivateMode),
{
    if !mode_is_private(mode) {
        assert(startup_steps(check)[0] == StartupStep::SetPrivateMode);
    }
}

} // verus!

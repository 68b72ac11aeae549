//! Error kinds and the SUID precondition: operations report a distinguishable
//! error instead of printing and exiting, so a host program chooses its own
//! reporting.

use vstd::prelude::*;

verus! {

/// The operation a failing syscall belongs to, for diagnostics.
#[derive(Clone, Copy, Debug, PartialEq, Eq, Structural)]
pub enum OpKind {
    MkDir,
    Unshare,
    Mount,
    CreateFile,
    Symlink,
    Chroot,
    Chdir,
    SetUid,
}

impl OpKind {
    /// The operation's name, the first half of a `<name>: <error>` diagnostic.
    pub fn name(&self) -> (r: &'static str)
        ensures
            *self == OpKind::MkDir ==> r@ == "mkdir"@,
            *self == OpKind::Unshare ==> r@ == "unshare"@,
            *self == OpKind::Mount ==> r@ == "mount"@,
            *self == OpKind::CreateFile ==> r@ == "create"@,
            *self == OpKind::Symlink ==> r@ == "symlink"@,
            *self == OpKind::Chroot ==> r@ == "chroot"@,
            *self == OpKind::Chdir ==> r@ == "chdir"@,
            *self == OpKind::SetUid ==> r@ == "setuid"@,
    {
        match self {
            OpKind::MkDir => "mkdir",
            OpKind::Unshare => "unshare",
            OpKind::Mount => "mount",
            OpKind::CreateFile => "create",
            OpKind::Symlink => "symlink",
            OpKind::Chroot => "chroot",
            OpKind::Chdir => "chdir",
            OpKind::SetUid => "setuid",
        }
    }
}

/// What can go wrong: the SUID precondition unmet, a failing syscall
/// (carrying the operation and the OS errno), or a missing SHELL variable
/// when no command was supplied.
#[derive(Clone, Copy, Debug, PartialEq, Eq, Structural)]
pub enum Error {
    Privilege,
    Syscall { op: OpKind, errno: i32 },
    MissingShell,
}

/// The process identity captured once at entry, instead of being re-queried
/// ambiently by each step.
#[derive(Clone, Copy, Debug, PartialEq, Eq, Structural)]
pub struct Identity {
    /// Real user id of the invoking user.
    pub real: u32,
    /// Effective user id the process runs with.
    pub effective: u32,
}

/// The SUID invocation pattern: superuser effective identity while the real
/// identity differs.
pub open spec fn spec_suid_ok(id: Identity) -> bool {
    id.effective == 0 && id.real != id.effective
}

/// Accepts exactly the SUID invocation pattern; anything else is a
/// `Privilege` error.
pub fn check_privilege(id: Identity) -> (r: Result<(), Error>)
    ensures
        r is Ok <==> spec_suid_ok(id),
        r is Err ==> r == Err::<(), Error>(Error::Privilege),
{
    if id.effective == 0 && id.real != id.effective {
        Ok(())
    } else {
        Err(Error::Privilege)
    }
}

} // verus!

//! Trusted wrappers around the syscalls the jail needs. Each wrapper makes
//! one outside call and converts its error to a raw errno; nothing is claimed
//! of the kernel state it changes, so every caller states what it did over
//! its own ghost record of the call.

use vstd::prelude::*;

verus! {

/// Relies on nix::sched::unshare with CLONE_NEWNS: gives the calling process
/// a private copy of its mount namespace.
#[verifier::external_body]
pub(crate) fn unshare_mount_ns() -> (r: Result<(), i32>)
{
    match nix::sched::unshare(nix::sched::CloneFlags::CLONE_NEWNS) {
        Ok(()) => Ok(()),
        Err(e) => Err(e as i32),
    }
}

/// Relies on nix::mount::mount: the mount(2) syscall with the arguments
/// passed through verbatim; the raw flag bits are handed on unchanged.
#[verifier::external_body]
pub(crate) fn mount_call(
    source: Option<&str>,
    target: &str,
    fstype: Option<&str>,
    flags: u64,
    data: Option<&str>,
) -> (r: Result<(), i32>)
{
    match nix::mount::mount(
        source,
        target,
        fstype,
        nix::mount::MsFlags::from_bits_retain(flags),
        data,
    ) {
        Ok(()) => Ok(()),
        Err(e) => Err(e as i32),
    }
}

/// Relies on nix::unistd::mkdir: creates one directory, mode 0755, failing
/// with EEXIST where it already exists.
#[verifier::external_body]
pub(crate) fn mkdir_once(path: &str) -> (r: Result<(), i32>)
{
    match nix::unistd::mkdir(path, nix::sys::stat::Mode::from_bits_truncate(0o755)) {
        Ok(()) => Ok(()),
        Err(e) => Err(e as i32),
    }
}

/// Relies on nix::fcntl::open with O_WRONLY|O_CREAT|O_TRUNC, mode 0644:
/// creates (or truncates) one regular file; the returned descriptor is
/// dropped, which closes it.
#[verifier::external_body]
pub(crate) fn create_file(path: &str) -> (r: Result<(), i32>)
{
    let oflag = nix::fcntl::OFlag::O_WRONLY
        | nix::fcntl::OFlag::O_CREAT
        | nix::fcntl::OFlag::O_TRUNC;
    match nix::fcntl::open(path, oflag, nix::sys::stat::Mode::from_bits_truncate(0o644)) {
        Ok(_fd) => Ok(()),
        Err(e) => Err(e as i32),
    }
}

/// Relies on nix::unistd::symlinkat with AT_FDCWD: creates a symbolic link
/// at `link` whose content is `target`.
#[verifier::external_body]
pub(crate) fn symlink_call(target: &str, link: &str) -> (r: Result<(), i32>)
{
    match nix::unistd::symlinkat(target, nix::fcntl::AT_FDCWD, link) {
        Ok(()) => Ok(()),
        Err(e) => Err(e as i32),
    }
}

/// Relies on nix::unistd::chroot: moves the process's filesystem root.
#[verifier::external_body]
pub(crate) fn chroot_call(path: &str) -> (r: Result<(), i32>)
{
    match nix::unistd::chroot(path) {
        Ok(()) => Ok(()),
        Err(e) => Err(e as i32),
    }
}

/// Relies on nix::unistd::chdir: moves the process's working directory.
#[verifier::external_body]
pub(crate) fn chdir_call(path: &str) -> (r: Result<(), i32>)
{
    match nix::unistd::chdir(path) {
        Ok(()) => Ok(()),
        Err(e) => Err(e as i32),
    }
}

/// Relies on nix::unistd::setuid: sets real and effective user id to `uid`;
/// for a process with superuser effective identity this drops both,
/// irreversibly.
#[verifier::external_body]
pub(crate) fn setuid_call(uid: u32) -> (r: Result<(), i32>)
{
    match nix::unistd::setuid(nix::unistd::Uid::from_raw(uid)) {
        Ok(()) => Ok(()),
        Err(e) => Err(e as i32),
    }
}

} // verus!

//! The jail itself: namespace isolation and overlay bootstrap, typed and
//! bind mount dispatch, device-tree seeding, and the chroot / privilege-drop
//! hand-off. Every syscall the jail performs is recorded in a ghost log, and
//! each step's contract pins down exactly which calls it makes and in what
//! order; the construction phases make out-of-order invocation unprovable at
//! the API boundary.

use vstd::prelude::*;
use vstd::string::*;

use crate::command::{resolve_command, ResolvedCommand};
use crate::errors::{Error, OpKind};
use crate::mount::{mount_flags, spec_effective_flags, MountSpec, MS_BIND, MS_PRIVATE, MS_REC};
use crate::paths::{path_join, resolve, spec_join, spec_resolve};
use crate::sys;

verus! {

/// `mkdir` errno for a directory that already exists; recursive creation
/// treats it as success.
pub const EEXIST: i32 = 17;

/// Construction phases, in order. A phase only advances once the syscalls
/// that justify it have returned success.
pub enum Phase {
    /// Directories may exist; no namespace or mount work done yet.
    Fresh,
    /// The mount namespace is private and the overlay is mounted at the jail
    /// root; optional mounts may now target paths under it.
    Mounted,
    /// The process is chrooted into the jail and privilege is dropped; only
    /// the exec hand-off remains.
    Entered,
}

/// One recorded syscall, with the concrete arguments it was given.
pub enum Op {
    MkDirAll { path: Seq<char> },
    Unshare,
    Mount {
        source: Option<Seq<char>>,
        target: Seq<char>,
        fstype: Option<Seq<char>>,
        flags: u64,
        data: Option<Seq<char>>,
    },
    CreateFile { path: Seq<char> },
    Symlink { target: Seq<char>, link: Seq<char> },
    Chroot { path: Seq<char> },
    Chdir { path: Seq<char> },
    SetUid { uid: u32 },
}

/// The mount op a planner request produces: target routed through the
/// resolver, flags through the shape's flag handling.
pub open spec fn spec_mount_op(jail: Seq<char>, ms: MountSpec, target: Seq<char>, flags: u64) -> Op {
    Op::Mount {
        source: Some(ms.spec_source()),
        target: spec_resolve(jail, target),
        fstype: ms.spec_fstype(),
        flags: spec_effective_flags(&ms, flags),
        data: ms.spec_data(),
    }
}

/// A typed filesystem mount (a pseudo-filesystem), no extra flags.
pub open spec fn spec_typed_op(
    jail: Seq<char>,
    desc: Seq<char>,
    target: Seq<char>,
    fstype: Seq<char>,
) -> Op {
    Op::Mount {
        source: Some(desc),
        target: spec_resolve(jail, target),
        fstype: Some(fstype),
        flags: 0,
        data: None,
    }
}

/// A bind mount of a host path onto a virtual target: always carries the
/// forced recursive-bind flags.
pub open spec fn spec_bind_op(jail: Seq<char>, source: Seq<char>, target: Seq<char>) -> Op {
    Op::Mount {
        source: Some(source),
        target: spec_resolve(jail, target),
        fstype: None,
        flags: MS_BIND | MS_REC,
        data: None,
    }
}

/// The overlay mount's data argument: lower layer the host root, upper layer
/// the jail root, scratch directory the work directory.
pub open spec fn spec_overlay_data(jail: Seq<char>, work: Seq<char>) -> Seq<char> {
    "lowerdir=/,upperdir="@ + jail + ",workdir="@ + work
}

/// What bootstrap does, in contractual order: create the jail and work
/// directories, isolate the mount namespace, re-mark the root mount private
/// and recursive, then mount the overlay at the jail root.
pub open spec fn spec_init_ops(base: Seq<char>) -> Seq<Op> {
    seq![
        Op::MkDirAll { path: spec_join(base, "jail"@) },
        Op::MkDirAll { path: spec_join(base, "work"@) },
        Op::Unshare,
        Op::Mount {
            source: None,
            target: "/"@,
            fstype: None,
            flags: MS_REC | MS_PRIVATE,
            data: None,
        },
        Op::Mount {
            source: Some("island"@),
            target: spec_resolve(spec_join(base, "jail"@), "/"@),
            fstype: Some("overlay"@),
            flags: 0,
            data: Some(
                spec_overlay_data(spec_join(base, "jail"@), spec_join(base, "work"@)),
            ),
        },
    ]
}

/// Bootstrap's contractual order, spelled out: the jail and work
/// directories are created before any mount is attempted; the namespace is
/// isolated and the root mount re-marked private and recursive before the
/// overlay; and the overlay's last step merges the host root (lower layer)
/// with the jail root (upper layer), scratch space in the work directory,
/// mounted at the jail root.
pub proof fn lemma_init_ops_order(base: Seq<char>)
    ensures
        spec_init_ops(base).len() == 5,
        spec_init_ops(base)[0] == (Op::MkDirAll { path: spec_join(base, "jail"@) }),
        spec_init_ops(base)[1] == (Op::MkDirAll { path: spec_join(base, "work"@) }),
        spec_init_ops(base)[2] == Op::Unshare,
        spec_init_ops(base)[3] == (Op::Mount {
            source: None,
            target: "/"@,
            fstype: None,
            flags: MS_REC | MS_PRIVATE,
            data: None,
        }),
        spec_init_ops(base)[4] == (Op::Mount {
            source: Some("island"@),
            target: spec_resolve(spec_join(base, "jail"@), "/"@),
            fstype: Some("overlay"@),
            flags: 0,
            data: Some(spec_overlay_data(spec_join(base, "jail"@), spec_join(base, "work"@))),
        }),
{
}

/// The two ops a device node costs: create the empty file inside the jail,
/// then bind-mount the host's real device onto it.
pub open spec fn spec_dev_node_ops(jail: Seq<char>, name: Seq<char>) -> Seq<Op> {
    seq![
        Op::CreateFile { path: spec_resolve(jail, "/dev/"@ + name) },
        spec_bind_op(jail, "/dev/"@ + name, "/dev/"@ + name),
    ]
}

/// A fixed symlink inside the jail's device tree.
pub open spec fn spec_symlink_op(jail: Seq<char>, target: Seq<char>, link: Seq<char>) -> Op {
    Op::Symlink { target: target, link: spec_resolve(jail, link) }
}

/// What device seeding does, in contractual order: a fresh memory-backed
/// /dev first (so everything after lands on the new mount), pts and shm with
/// their filesystems, the seven host device nodes, the six fixed symlinks.
pub open spec fn spec_dev_ops(jail: Seq<char>) -> Seq<Op> {
    seq![
        spec_typed_op(jail, "tmpfs"@, "/dev"@, "tmpfs"@),
        Op::MkDirAll { path: spec_resolve(jail, "/dev/pts"@) },
        spec_typed_op(jail, "devpts"@, "/dev/pts"@, "devpts"@),
        Op::MkDirAll { path: spec_resolve(jail, "/dev/shm"@) },
        spec_typed_op(jail, "tmpfs"@, "/dev/shm"@, "tmpfs"@),
    ] + spec_dev_node_ops(jail, "full"@) + spec_dev_node_ops(jail, "zero"@) + spec_dev_node_ops(
        jail,
        "null"@,
    ) + spec_dev_node_ops(jail, "random"@) + spec_dev_node_ops(jail, "urandom"@)
        + spec_dev_node_ops(jail, "tty"@) + spec_dev_node_ops(jail, "console"@) + seq![
        spec_symlink_op(jail, "/proc/self/fd"@, "/dev/fd"@),
        spec_symlink_op(jail, "/proc/self/fd/0"@, "/dev/stdin"@),
        spec_symlink_op(jail, "/proc/self/fd/1"@, "/dev/stdout"@),
        spec_symlink_op(jail, "/proc/self/fd/2"@, "/dev/stderr"@),
        spec_symlink_op(jail, "pts/ptmx"@, "/dev/ptmx"@),
        spec_symlink_op(jail, "/proc/kcore"@, "/dev/core"@),
    ]
}

/// The fixed set of device names seeded under /dev.
pub open spec fn spec_dev_node_names() -> Set<Seq<char>> {
    set!["full"@, "zero"@, "null"@, "random"@, "urandom"@, "tty"@, "console"@]
}

/// Device seeding covers the whole documented tree: the fresh memory-backed
/// /dev mount comes first, so every later step lands on the new mount; for
/// each name in the fixed device set the plan holds the creation of the
/// empty file under the jail's /dev and the bind mount of the host's real
/// device onto the same virtual path; and each of the six symlinks appears
/// with its documented target.
pub proof fn lemma_dev_ops_cover_nodes(jail: Seq<char>)
    ensures
        spec_dev_ops(jail)[0] == spec_typed_op(jail, "tmpfs"@, "/dev"@, "tmpfs"@),
        forall|name: Seq<char>| #[trigger]
            spec_dev_node_names().contains(name) ==> spec_dev_ops(jail).contains(
                Op::CreateFile { path: spec_resolve(jail, "/dev/"@ + name) },
            ) && spec_dev_ops(jail).contains(spec_bind_op(jail, "/dev/"@ + name, "/dev/"@ + name)),
        spec_dev_ops(jail).contains(spec_symlink_op(jail, "/proc/self/fd"@, "/dev/fd"@)),
        spec_dev_ops(jail).contains(spec_symlink_op(jail, "/proc/self/fd/0"@, "/dev/stdin"@)),
        spec_dev_ops(jail).contains(spec_symlink_op(jail, "/proc/self/fd/1"@, "/dev/stdout"@)),
        spec_dev_ops(jail).contains(spec_symlink_op(jail, "/proc/self/fd/2"@, "/dev/stderr"@)),
        spec_dev_ops(jail).contains(spec_symlink_op(jail, "pts/ptmx"@, "/dev/ptmx"@)),
        spec_dev_ops(jail).contains(spec_symlink_op(jail, "/proc/kcore"@, "/dev/core"@)),
{
    let ops = spec_dev_ops(jail);
    assert forall|name: Seq<char>| #[trigger]
        spec_dev_node_names().contains(name) implies ops.contains(
        Op::CreateFile { path: spec_resolve(jail, "/dev/"@ + name) },
    ) && ops.contains(spec_bind_op(jail, "/dev/"@ + name, "/dev/"@ + name)) by {
        if name == "full"@ {
            assert(ops[5] == Op::CreateFile { path: spec_resolve(jail, "/dev/"@ + name) });
            assert(ops[6] == spec_bind_op(jail, "/dev/"@ + name, "/dev/"@ + name));
        } else if name == "zero"@ {
            assert(ops[7] == Op::CreateFile { path: spec_resolve(jail, "/dev/"@ + name) });
            assert(ops[8] == spec_bind_op(jail, "/dev/"@ + name, "/dev/"@ + name));
        } else if name == "null"@ {
            assert(ops[9] == Op::CreateFile { path: spec_resolve(jail, "/dev/"@ + name) });
            assert(ops[10] == spec_bind_op(jail, "/dev/"@ + name, "/dev/"@ + name));
        } else if name == "random"@ {
            assert(ops[11] == Op::CreateFile { path: spec_resolve(jail, "/dev/"@ + name) });
            assert(ops[12] == spec_bind_op(jail, "/dev/"@ + name, "/dev/"@ + name));
        } else if name == "urandom"@ {
            assert(ops[13] == Op::CreateFile { path: spec_resolve(jail, "/dev/"@ + name) });
            assert(ops[14] == spec_bind_op(jail, "/dev/"@ + name, "/dev/"@ + name));
        } else if name == "tty"@ {
            assert(ops[15] == Op::CreateFile { path: spec_resolve(jail, "/dev/"@ + name) });
            assert(ops[16] == spec_bind_op(jail, "/dev/"@ + name, "/dev/"@ + name));
        } else {
            assert(name == "console"@);
            assert(ops[17] == Op::CreateFile { path: spec_resolve(jail, "/dev/"@ + name) });
            assert(ops[18] == spec_bind_op(jail, "/dev/"@ + name, "/dev/"@ + name));
        }
    }
    assert(ops[19] == spec_symlink_op(jail, "/proc/self/fd"@, "/dev/fd"@));
    assert(ops[20] == spec_symlink_op(jail, "/proc/self/fd/0"@, "/dev/stdin"@));
    assert(ops[21] == spec_symlink_op(jail, "/proc/self/fd/1"@, "/dev/stdout"@));
    assert(ops[22] == spec_symlink_op(jail, "/proc/self/fd/2"@, "/dev/stderr"@));
    assert(ops[23] == spec_symlink_op(jail, "pts/ptmx"@, "/dev/ptmx"@));
    assert(ops[24] == spec_symlink_op(jail, "/proc/kcore"@, "/dev/core"@));
}

/// What entering the jail does, in contractual order: chroot to the jail
/// root, move to the new root's "/", then drop both identities to the
/// invoking user — strictly after the chroot.
pub open spec fn spec_enter_ops(jail: Seq<char>, uid: u32) -> Seq<Op> {
    seq![
        Op::Chroot { path: spec_resolve(jail, "/"@) },
        Op::Chdir { path: "/"@ },
        Op::SetUid { uid: uid },
    ]
}

/// Creates a directory and every missing parent; a directory that already
/// exists is not an error.
pub fn create_dir_all(path: &str) -> (r: Result<(), i32>)
    ensures
        r is Err ==> r.unwrap_err() != EEXIST,
{
    let n = path.unicode_len();
    let mut i: usize = 1;
    while i < n
        invariant
            1 <= i,
            n == path@.len(),
        decreases n - i,
    {
        if path.get_char(i) == '/' {
            let prefix = path.substring_char(0, i);
            match sys::mkdir_once(prefix) {
                Ok(()) => (),
                Err(e) => {
                    if e != EEXIST {
                        return Err(e);
                    }
                },
            }
        }
        i = i + 1;
    }
    match sys::mkdir_once(path) {
        Ok(()) => Ok(()),
        Err(e) => {
            if e == EEXIST {
                Ok(())
            } else {
                Err(e)
            }
        },
    }
}

/// The jail: its base directory, its root (the overlay's upper layer and
/// eventual chroot target), the phase reached, and the log of syscalls
/// performed so far.
pub struct Island {
    base: String,
    jail: String,
    phase: Ghost<Phase>,
    ops: Ghost<Seq<Op>>,
}

impl Island {
    /// The base directory the jail was created for.
    pub closed spec fn base_path(&self) -> Seq<char> {
        self.base@
    }

    /// The construction phase reached so far.
    pub closed spec fn phase_spec(&self) -> Phase {
        self.phase@
    }

    /// The log of syscalls performed so far, in order.
    pub closed spec fn log(&self) -> Seq<Op> {
        self.ops@
    }

    /// The jail root: `base/jail`.
    pub closed spec fn jail_path(&self) -> Seq<char> {
        self.jail@
    }

    /// The jail root is the `jail` child of the base directory.
    pub open spec fn wf(&self) -> bool {
        self.jail_path() == spec_join(self.base_path(), "jail"@)
    }

    /// A jail for `base_dir`, with nothing done yet.
    pub fn new(base_dir: &str) -> (r: Island)
        ensures
            r.wf(),
            r.base_path() == base_dir@,
            r.phase_spec() == Phase::Fresh,
            r.log() == Seq::<Op>::empty(),
    {
        Island {
            base: String::from_str(base_dir),
            jail: path_join(base_dir, "jail"),
            phase: Ghost(Phase::Fresh),
            ops: Ghost(Seq::empty()),
        }
    }

    /// Where a guest-rooted virtual path lands under the jail root.
    pub fn inner_path(&self, sub_path: &str) -> (r: String)
        ensures
            r@ == spec_resolve(self.jail_path(), sub_path@),
    {
        resolve(self.jail.as_str(), sub_path)
    }

    /// Dispatches one legal mount request: the target is routed through the
    /// path resolver, the flags through the shape's flag handling, and the
    /// syscall's three argument shapes follow the three variants. Used by
    /// bootstrap for the overlay and by the public planner entry points.
    fn mount_at(&mut self, ms: &MountSpec, target: &str, flags: u64) -> (r: Result<(), Error>)
        requires
            old(self).wf(),
        ensures
            final(self).wf(),
            final(self).base_path() == old(self).base_path(),
            final(self).phase_spec() == old(self).phase_spec(),
            r is Ok ==> final(self).log() == old(self).log() + seq![
                spec_mount_op(old(self).jail_path(), *ms, target@, flags),
            ],
            r is Err ==> final(self).log() == old(self).log() && (r matches Err(
                Error::Syscall { op: OpKind::Mount, .. },
            )),
    {
        let concrete = self.inner_path(target);
        let eflags = mount_flags(ms, flags);
        let call = match ms {
            MountSpec::Overlay { source, fstype, data } => sys::mount_call(
                Some(source.as_str()),
                concrete.as_str(),
                Some(fstype.as_str()),
                eflags,
                Some(data.as_str()),
            ),
            MountSpec::Typed { source, fstype } => sys::mount_call(
                Some(source.as_str()),
                concrete.as_str(),
                Some(fstype.as_str()),
                eflags,
                None,
            ),
            MountSpec::Bind { source } => sys::mount_call(
                Some(source.as_str()),
                concrete.as_str(),
                None,
                eflags,
                None,
            ),
        };
        match call {
            Ok(()) => {
                self.ops = Ghost(
                    self.ops@.push(spec_mount_op(self.jail@, *ms, target@, flags)),
                );
                assert(self.ops@ =~= old(self).log() + seq![
                    spec_mount_op(old(self).jail_path(), *ms, target@, flags),
                ]);
                Ok(())
            },
            Err(e) => Err(Error::Syscall { op: OpKind::Mount, errno: e }),
        }
    }

    /// Bootstrap: creates the jail and work directories (idempotently),
    /// isolates the mount namespace, re-marks the root mount private and
    /// recursive, and mounts the overlay at the jail root. Order is
    /// contractual; the first failure is returned at once and the phase does
    /// not advance.
    pub fn init(&mut self) -> (r: Result<(), Error>)
        requires
            old(self).wf(),
            old(self).phase_spec() == Phase::Fresh,
        ensures
            final(self).wf(),
            final(self).base_path() == old(self).base_path(),
            r is Ok ==> final(self).phase_spec() == Phase::Mounted && final(self).log() == old(
                self,
            ).log() + spec_init_ops(old(self).base_path()),
            r is Err ==> final(self).phase_spec() == Phase::Fresh && (r matches Err(
                Error::Syscall { .. },
            )),
    {
        let work = path_join(self.base.as_str(), "work");
        match create_dir_all(self.jail.as_str()) {
            Ok(()) => (),
            Err(e) => {
                return Err(Error::Syscall { op: OpKind::MkDir, errno: e });
            },
        }
        self.ops = Ghost(self.ops@.push(Op::MkDirAll { path: self.jail@ }));
        match create_dir_all(work.as_str()) {
            Ok(()) => (),
            Err(e) => {
                return Err(Error::Syscall { op: OpKind::MkDir, errno: e });
            },
        }
        self.ops = Ghost(self.ops@.push(Op::MkDirAll { path: work@ }));
        match sys::unshare_mount_ns() {
            Ok(()) => (),
            Err(e) => {
                return Err(Error::Syscall { op: OpKind::Unshare, errno: e });
            },
        }
        self.ops = Ghost(self.ops@.push(Op::Unshare));
        match sys::mount_call(None, "/", None, MS_REC | MS_PRIVATE, None) {
            Ok(()) => (),
            Err(e) => {
                return Err(Error::Syscall { op: OpKind::Mount, errno: e });
            },
        }
        self.ops = Ghost(
            self.ops@.push(
                Op::Mount {
                    source: None,
                    target: "/"@,
                    fstype: None,
                    flags: MS_REC | MS_PRIVATE,
                    data: None,
                },
            ),
        );
        let data = String::from_str("lowerdir=/,upperdir=").concat(self.jail.as_str()).concat(
            ",workdir=",
        ).concat(work.as_str());
        let overlay = MountSpec::Overlay {
            source: String::from_str("island"),
            fstype: String::from_str("overlay"),
            data,
        };
        match self.mount_at(&overlay, "/", 0) {
            Ok(()) => (),
            Err(e) => {
                return Err(e);
            },
        }
        self.phase = Ghost(Phase::Mounted);
        assert(self.ops@ =~= old(self).log() + spec_init_ops(old(self).base_path()));
        Ok(())
    }

    /// Mounts one legal request with the planner running: overlay and typed
    /// shapes pass their flags through verbatim, the bind shape gains the
    /// forced recursive-bind flags.
    pub fn mount(&mut self, ms: &MountSpec, target: &str, flags: u64) -> (r: Result<(), Error>)
        requires
            old(self).wf(),
            old(self).phase_spec() == Phase::Mounted,
        ensures
            final(self).wf(),
            final(self).base_path() == old(self).base_path(),
            final(self).phase_spec() == Phase::Mounted,
            r is Ok ==> final(self).log() == old(self).log() + seq![
                spec_mount_op(old(self).jail_path(), *ms, target@, flags),
            ],
            r is Err ==> final(self).log() == old(self).log() && (r matches Err(
                Error::Syscall { op: OpKind::Mount, .. },
            )),
    {
        self.mount_at(ms, target, flags)
    }

    /// Mounts a typed filesystem (label `desc`, type `fstype`) at a virtual
    /// target.
    pub fn mount_fs(&mut self, desc: &str, target: &str, fstype: &str) -> (r: Result<(), Error>)
        requires
            old(self).wf(),
            old(self).phase_spec() == Phase::Mounted,
        ensures
            final(self).wf(),
            final(self).base_path() == old(self).base_path(),
            final(self).phase_spec() == Phase::Mounted,
            r is Ok ==> final(self).log() == old(self).log() + seq![
                spec_typed_op(old(self).jail_path(), desc@, target@, fstype@),
            ],
            r is Err ==> final(self).log() == old(self).log() && (r matches Err(
                Error::Syscall { op: OpKind::Mount, .. },
            )),
    {
        let ms = MountSpec::Typed { source: String::from_str(desc), fstype: String::from_str(fstype) };
        let r = self.mount(&ms, target, 0);
        proof {
            if r is Ok {
                assert(final(self).log() =~= old(self).log() + seq![
                    spec_typed_op(old(self).jail_path(), desc@, target@, fstype@),
                ]);
            }
        }
        r
    }

    /// Bind-mounts a host path onto a virtual target, recursively.
    pub fn mount_bind(&mut self, source: &str, target: &str) -> (r: Result<(), Error>)
        requires
            old(self).wf(),
            old(self).phase_spec() == Phase::Mounted,
        ensures
            final(self).wf(),
            final(self).base_path() == old(self).base_path(),
            final(self).phase_spec() == Phase::Mounted,
            r is Ok ==> final(self).log() == old(self).log() + seq![
                spec_bind_op(old(self).jail_path(), source@, target@),
            ],
            r is Err ==> final(self).log() == old(self).log() && (r matches Err(
                Error::Syscall { op: OpKind::Mount, .. },
            )),
    {
        let ms = MountSpec::Bind { source: String::from_str(source) };
        let r = self.mount(&ms, target, 0);
        proof {
            if r is Ok {
                assert(0u64 | 0x1000u64 | 0x4000u64 == 0x1000u64 | 0x4000u64) by (bit_vector);
                assert(spec_mount_op(old(self).jail_path(), ms, target@, 0) == spec_bind_op(
                    old(self).jail_path(),
                    source@,
                    target@,
                ));
                assert(final(self).log() =~= old(self).log() + seq![
                    spec_bind_op(old(self).jail_path(), source@, target@),
                ]);
            }
        }
        r
    }

    /// Seeds one device node: creates the empty file under the jail's /dev,
    /// then bind-mounts the host's real device onto it.
    fn seed_node(&mut self, name: &str) -> (r: Result<(), Error>)
        requires
            old(self).wf(),
            old(self).phase_spec() == Phase::Mounted,
        ensures
            final(self).wf(),
            final(self).base_path() == old(self).base_path(),
            final(self).phase_spec() == Phase::Mounted,
            r is Ok ==> final(self).log() == old(self).log() + spec_dev_node_ops(
                old(self).jail_path(),
                name@,
            ),
            r is Err ==> (r matches Err(Error::Syscall { .. })),
    {
        let vpath = String::from_str("/dev/").concat(name);
        let concrete = self.inner_path(vpath.as_str());
        match sys::create_file(concrete.as_str()) {
            Ok(()) => (),
            Err(e) => {
                return Err(Error::Syscall { op: OpKind::CreateFile, errno: e });
            },
        }
        self.ops = Ghost(self.ops@.push(Op::CreateFile { path: concrete@ }));
        match self.mount_bind(vpath.as_str(), vpath.as_str()) {
            Ok(()) => (),
            Err(e) => {
                return Err(e);
            },
        }
        assert(self.ops@ =~= old(self).log() + spec_dev_node_ops(old(self).jail_path(), name@));
        Ok(())
    }

    /// Creates one fixed symlink at a virtual path inside the jail.
    fn seed_link(&mut self, target: &str, link: &str) -> (r: Result<(), Error>)
        requires
            old(self).wf(),
            old(self).phase_spec() == Phase::Mounted,
        ensures
            final(self).wf(),
            final(self).base_path() == old(self).base_path(),
            final(self).phase_spec() == Phase::Mounted,
            r is Ok ==> final(self).log() == old(self).log() + seq![
                spec_symlink_op(old(self).jail_path(), target@, link@),
            ],
            r is Err ==> final(self).log() == old(self).log() && (r matches Err(
                Error::Syscall { op: OpKind::Symlink, .. },
            )),
    {
        let concrete = self.inner_path(link);
        match sys::symlink_call(target, concrete.as_str()) {
            Ok(()) => (),
            Err(e) => {
                return Err(Error::Syscall { op: OpKind::Symlink, errno: e });
            },
        }
        self.ops = Ghost(self.ops@.push(Op::Symlink { target: target@, link: concrete@ }));
        assert(self.ops@ =~= old(self).log() + seq![
            spec_symlink_op(old(self).jail_path(), target@, link@),
        ]);
        Ok(())
    }

    /// Creates a directory under the jail at a virtual path, with parents.
    fn seed_dir(&mut self, vpath: &str) -> (r: Result<(), Error>)
        requires
            old(self).wf(),
            old(self).phase_spec() == Phase::Mounted,
        ensures
            final(self).wf(),
            final(self).base_path() == old(self).base_path(),
            final(self).phase_spec() == Phase::Mounted,
            r is Ok ==> final(self).log() == old(self).log() + seq![
                Op::MkDirAll { path: spec_resolve(old(self).jail_path(), vpath@) },
            ],
            r is Err ==> final(self).log() == old(self).log() && (r matches Err(
                Error::Syscall { op: OpKind::MkDir, .. },
            )),
    {
        let concrete = self.inner_path(vpath);
        match create_dir_all(concrete.as_str()) {
            Ok(()) => (),
            Err(e) => {
                return Err(Error::Syscall { op: OpKind::MkDir, errno: e });
            },
        }
        self.ops = Ghost(self.ops@.push(Op::MkDirAll { path: concrete@ }));
        assert(self.ops@ =~= old(self).log() + seq![
            Op::MkDirAll { path: spec_resolve(old(self).jail_path(), vpath@) },
        ]);
        Ok(())
    }

    /// Seeds the minimal device tree, in contractual order: a fresh
    /// memory-backed /dev (everything after lands on the new mount, not the
    /// overlay beneath it), pts and shm with their filesystems, the seven
    /// host device nodes, the six fixed symlinks.
    pub fn mount_dev(&mut self) -> (r: Result<(), Error>)
        requires
            old(self).wf(),
            old(self).phase_spec() == Phase::Mounted,
        ensures
            final(self).wf(),
            final(self).base_path() == old(self).base_path(),
            final(self).phase_spec() == Phase::Mounted,
            r is Ok ==> final(self).log() == old(self).log() + spec_dev_ops(old(self).jail_path()),
            r is Err ==> (r matches Err(Error::Syscall { .. })),
    {
        match self.mount_fs("tmpfs", "/dev", "tmpfs") {
            Ok(()) => (),
            Err(e) => {
                return Err(e);
            },
        }
        match self.seed_dir("/dev/pts") {
            Ok(()) => (),
            Err(e) => {
                return Err(e);
            },
        }
        match self.mount_fs("devpts", "/dev/pts", "devpts") {
            Ok(()) => (),
            Err(e) => {
                return Err(e);
            },
        }
        match self.seed_dir("/dev/shm") {
            Ok(()) => (),
            Err(e) => {
                return Err(e);
            },
        }
        match self.mount_fs("tmpfs", "/dev/shm", "tmpfs") {
            Ok(()) => (),
            Err(e) => {
                return Err(e);
            },
        }
        match self.seed_node("full") {
            Ok(()) => (),
            Err(e) => {
                return Err(e);
            },
        }
        match self.seed_node("zero") {
            Ok(()) => (),
            Err(e) => {
                return Err(e);
            },
        }
        match self.seed_node("null") {
            Ok(()) => (),
            Err(e) => {
                return Err(e);
            },
        }
        match self.seed_node("random") {
            Ok(()) => (),
            Err(e) => {
                return Err(e);
            },
        }
        match self.seed_node("urandom") {
            Ok(()) => (),
            Err(e) => {
                return Err(e);
            },
        }
        match self.seed_node("tty") {
            Ok(()) => (),
            Err(e) => {
                return Err(e);
            },
        }
        match self.seed_node("console") {
            Ok(()) => (),
            Err(e) => {
                return Err(e);
            },
        }
        match self.seed_link("/proc/self/fd", "/dev/fd") {
            Ok(()) => (),
            Err(e) => {
                return Err(e);
            },
        }
        match self.seed_link("/proc/self/fd/0", "/dev/stdin") {
            Ok(()) => (),
            Err(e) => {
                return Err(e);
            },
        }
        match self.seed_link("/proc/self/fd/1", "/dev/stdout") {
            Ok(()) => (),
            Err(e) => {
                return Err(e);
            },
        }
        match self.seed_link("/proc/self/fd/2", "/dev/stderr") {
            Ok(()) => (),
            Err(e) => {
                return Err(e);
            },
        }
        match self.seed_link("pts/ptmx", "/dev/ptmx") {
            Ok(()) => (),
            Err(e) => {
                return Err(e);
            },
        }
        match self.seed_link("/proc/kcore", "/dev/core") {
            Ok(()) => (),
            Err(e) => {
                return Err(e);
            },
        }
        assert(self.ops@ =~= old(self).log() + spec_dev_ops(old(self).jail_path()));
        Ok(())
    }

    /// Enters the jail and resolves the command: chroot to the jail root,
    /// move to the new "/", drop both identities to `uid` (strictly after
    /// the chroot, irreversibly), then pick the executable and argument
    /// vector. The caller performs the actual process-image replacement; a
    /// missing shell with no command means an error and nothing to exec.
    pub fn finalize(
        &mut self,
        uid: u32,
        command: &Vec<String>,
        shell: &Option<String>,
    ) -> (r: Result<ResolvedCommand, Error>)
        requires
            old(self).wf(),
            old(self).phase_spec() == Phase::Mounted,
        ensures
            final(self).wf(),
            final(self).base_path() == old(self).base_path(),
            r is Ok || r == Err::<ResolvedCommand, Error>(Error::MissingShell) ==> final(self).phase_spec()
                == Phase::Entered && final(self).log() == old(self).log() + spec_enter_ops(
                old(self).jail_path(),
                uid,
            ),
            (r matches Err(Error::Syscall { .. })) ==> final(self).phase_spec() == Phase::Mounted,
            r is Ok ==> {
                let rc = r.unwrap();
                &&& (command@.len() > 0 ==> rc.file@ == command@[0]@ && rc.argv.deep_view()
                    == command.deep_view() && rc.search_path)
                &&& (command@.len() == 0 ==> shell is Some && rc.file@ == shell.unwrap()@
                    && rc.argv.deep_view() == seq![shell.unwrap()@] && !rc.search_path)
            },
            !(r matches Err(Error::Syscall { .. })) ==> (r == Err::<ResolvedCommand, Error>(
                Error::MissingShell,
            ) <==> command@.len() == 0 && shell is None),
            r is Err ==> (r matches Err(Error::Syscall { .. })) || r == Err::<
                ResolvedCommand,
                Error,
            >(Error::MissingShell),
    {
        let root = self.inner_path("/");
        match sys::chroot_call(root.as_str()) {
            Ok(()) => (),
            Err(e) => {
                return Err(Error::Syscall { op: OpKind::Chroot, errno: e });
            },
        }
        self.ops = Ghost(self.ops@.push(Op::Chroot { path: root@ }));
        match sys::chdir_call("/") {
            Ok(()) => (),
            Err(e) => {
                return Err(Error::Syscall { op: OpKind::Chdir, errno: e });
            },
        }
        self.ops = Ghost(self.ops@.push(Op::Chdir { path: "/"@ }));
        match sys::setuid_call(uid) {
            Ok(()) => (),
            Err(e) => {
                return Err(Error::Syscall { op: OpKind::SetUid, errno: e });
            },
        }
        self.ops = Ghost(self.ops@.push(Op::SetUid { uid }));
        self.phase = Ghost(Phase::Entered);
        assert(self.ops@ =~= old(self).log() + spec_enter_ops(old(self).jail_path(), uid));
        resolve_command(command, shell)
    }
}

} // verus!

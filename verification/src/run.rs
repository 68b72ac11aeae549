//! The whole run, in order: privilege check, bootstrap, the optional mounts,
//! device seeding, enter, command resolution. The caller only performs the
//! final process-image replacement.

use vstd::prelude::*;

use crate::argparse::Args;
use crate::command::ResolvedCommand;
use crate::errors::{check_privilege, spec_suid_ok, Error, Identity};
use crate::jail::{
    spec_bind_op, spec_dev_ops, spec_enter_ops, spec_init_ops, spec_typed_op, Island, Op, Phase,
};
use crate::paths::spec_join;

verus! {

/// One extra memory-backed mount at a virtual target.
pub open spec fn spec_tmpfs_op(jail: Seq<char>, target: Seq<char>) -> Op {
    spec_typed_op(jail, "tmpfs"@, target, "tmpfs"@)
}

/// The extra memory-backed mounts, one per requested target, in order.
pub open spec fn spec_tmpfs_ops(jail: Seq<char>, targets: Seq<Seq<char>>) -> Seq<Op> {
    targets.map_values(|t: Seq<char>| spec_tmpfs_op(jail, t))
}

/// The host bind mounts, one per (source, destination) pair, in order.
pub open spec fn spec_bind_ops(jail: Seq<char>, binds: Seq<(String, String)>) -> Seq<Op> {
    binds.map_values(|p: (String, String)| spec_bind_op(jail, p.0@, p.1@))
}

/// The optional mounts a configuration asks for, in order: proc, sys, the
/// device tree, the extra memory-backed mounts, the host bind mounts.
pub open spec fn spec_option_ops(jail: Seq<char>, args: Args) -> Seq<Op> {
    (if args.procfs {
        seq![spec_typed_op(jail, "proc"@, "/proc"@, "proc"@)]
    } else {
        Seq::<Op>::empty()
    }) + (if args.sysfs {
        seq![spec_typed_op(jail, "sysfs"@, "/sys"@, "sysfs"@)]
    } else {
        Seq::<Op>::empty()
    }) + (if args.dev {
        spec_dev_ops(jail)
    } else {
        Seq::<Op>::empty()
    }) + spec_tmpfs_ops(jail, args.tmpfs.deep_view()) + spec_bind_ops(jail, args.bind@)
}

/// Everything a successful run does to the system, in order.
pub open spec fn spec_plan(base: Seq<char>, args: Args, uid: u32) -> Seq<Op> {
    spec_init_ops(base) + spec_option_ops(spec_join(base, "jail"@), args) + spec_enter_ops(
        spec_join(base, "jail"@),
        uid,
    )
}

proof fn lemma_take_map_values<A, B>(s: Seq<A>, f: spec_fn(A) -> B, i: int)
    requires
        0 <= i < s.len(),
    ensures
        s.take(i + 1).map_values(f) =~= s.take(i).map_values(f).push(f(s[i])),
{
}

/// Builds the jail and resolves the command whose image is to replace the
/// process. The privilege check comes first: without the SUID pattern
/// nothing at all is attempted. On success — and on the missing-shell error,
/// which only arises once everything else is done — the log holds exactly
/// the plan for this configuration.
#[verifier::rlimit(100)]
#[verifier::loop_isolation(false)]
pub fn isolate(island: &mut Island, args: &Args, id: Identity, shell: &Option<String>) -> (r:
    Result<ResolvedCommand, Error>)
    requires
        old(island).wf(),
        old(island).phase_spec() == Phase::Fresh,
    ensures
        final(island).wf(),
        final(island).base_path() == old(island).base_path(),
        !spec_suid_ok(id) ==> r == Err::<ResolvedCommand, Error>(Error::Privilege)
            && *final(island) == *old(island),
        spec_suid_ok(id) ==> r != Err::<ResolvedCommand, Error>(Error::Privilege),
        r is Ok || r == Err::<ResolvedCommand, Error>(Error::MissingShell)
            ==> final(island).phase_spec() == Phase::Entered
            && final(island).log() == old(island).log() + spec_plan(
            old(island).base_path(),
            *args,
            id.real,
        ),
        r is Ok ==> {
            let rc = r.unwrap();
            &&& (args.command@.len() > 0 ==> rc.file@ == args.command@[0]@ && rc.argv.deep_view()
                == args.command.deep_view() && rc.search_path)
            &&& (args.command@.len() == 0 ==> shell is Some && rc.file@ == shell.unwrap()@
                && rc.argv.deep_view() == seq![shell.unwrap()@] && !rc.search_path)
        },
        r == Err::<ResolvedCommand, Error>(Error::MissingShell) ==> args.command@.len() == 0
            && shell is None,
{
    match check_privilege(id) {
        Ok(()) => (),
        Err(e) => {
            return Err(e);
        },
    }
    let ghost base = old(island).base_path();
    let ghost jailg = spec_join(base, "jail"@);
    match island.init() {
        Ok(()) => (),
        Err(e) => {
            return Err(e);
        },
    }
    let ghost log_init = island.log();
    if args.procfs {
        match island.mount_fs("proc", "/proc", "proc") {
            Ok(()) => (),
            Err(e) => {
                return Err(e);
            },
        }
    }
    let ghost p_ops = if args.procfs {
        seq![spec_typed_op(jailg, "proc"@, "/proc"@, "proc"@)]
    } else {
        Seq::<Op>::empty()
    };
    assert(island.log() =~= log_init + p_ops);
    if args.sysfs {
        match island.mount_fs("sysfs", "/sys", "sysfs") {
            Ok(()) => (),
            Err(e) => {
                return Err(e);
            },
        }
    }
    let ghost s_ops = if args.sysfs {
        seq![spec_typed_op(jailg, "sysfs"@, "/sys"@, "sysfs"@)]
    } else {
        Seq::<Op>::empty()
    };
    assert(island.log() =~= log_init + p_ops + s_ops);
    if args.dev {
        match island.mount_dev() {
            Ok(()) => (),
            Err(e) => {
                return Err(e);
            },
        }
    }
    let ghost d_ops = if args.dev {
        spec_dev_ops(jailg)
    } else {
        Seq::<Op>::empty()
    };
    assert(island.log() =~= log_init + p_ops + s_ops + d_ops);
    let ghost log_d = island.log();
    let mut i: usize = 0;
    while i < args.tmpfs.len()
        invariant
            island.wf(),
            island.phase_spec() == Phase::Mounted,
            island.base_path() == base,
            i <= args.tmpfs@.len(),
            island.log() == log_d + spec_tmpfs_ops(jailg, args.tmpfs.deep_view().take(i as int)),
        decreases args.tmpfs@.len() - i,
    {
        match island.mount_fs("tmpfs", args.tmpfs[i].as_str(), "tmpfs") {
            Ok(()) => (),
            Err(e) => {
                return Err(e);
            },
        }
        proof {
            lemma_take_map_values(
                args.tmpfs.deep_view(),
                |t: Seq<char>| spec_tmpfs_op(jailg, t),
                i as int,
            );
            assert(args.tmpfs.deep_view()[i as int] == args.tmpfs@[i as int]@);
            assert(island.log() =~= log_d + spec_tmpfs_ops(
                jailg,
                args.tmpfs.deep_view().take(i + 1),
            ));
        }
        i = i + 1;
    }
    assert(args.tmpfs.deep_view().take(args.tmpfs@.len() as int) =~= args.tmpfs.deep_view());
    let ghost log_t = island.log();
    let mut k: usize = 0;
    while k < args.bind.len()
        invariant
            island.wf(),
            island.phase_spec() == Phase::Mounted,
            island.base_path() == base,
            k <= args.bind@.len(),
            island.log() == log_t + spec_bind_ops(jailg, args.bind@.take(k as int)),
        decreases args.bind@.len() - k,
    {
        match island.mount_bind(args.bind[k].0.as_str(), args.bind[k].1.as_str()) {
            Ok(()) => (),
            Err(e) => {
                return Err(e);
            },
        }
        proof {
            lemma_take_map_values(
                args.bind@,
                |p: (String, String)| spec_bind_op(jailg, p.0@, p.1@),
                k as int,
            );
            assert(island.log() =~= log_t + spec_bind_ops(jailg, args.bind@.take(k + 1)));
        }
        k = k + 1;
    }
    assert(args.bind@.take(args.bind@.len() as int) =~= args.bind@);
    let r = island.finalize(id.real, &args.command, shell);
    proof {
        if r is Ok || r == Err::<ResolvedCommand, Error>(Error::MissingShell) {
            assert(island.log() =~= old(island).log() + spec_plan(base, *args, id.real));
        }
    }
    r
}

/// End to end: with the three optional filesystems requested and no extra
/// memory-backed or bind mounts, a run's work is exactly bootstrap, the proc
/// mount, the sys mount, the device seeding, then chroot, chdir and the
/// privilege drop — in that order and nothing else.
pub proof fn lemma_end_to_end_plan(base: Seq<char>, args: Args, uid: u32)
    requires
        args.procfs,
        args.sysfs,
        args.dev,
        args.tmpfs@.len() == 0,
        args.bind@.len() == 0,
    ensures
        spec_plan(base, args, uid) =~= spec_init_ops(base) + seq![
            spec_typed_op(spec_join(base, "jail"@), "proc"@, "/proc"@, "proc"@),
            spec_typed_op(spec_join(base, "jail"@), "sysfs"@, "/sys"@, "sysfs"@),
        ] + spec_dev_ops(spec_join(base, "jail"@)) + spec_enter_ops(spec_join(base, "jail"@), uid),
{
    assert(args.tmpfs.deep_view() =~= Seq::<Seq<char>>::empty());
    assert(spec_tmpfs_ops(spec_join(base, "jail"@), args.tmpfs.deep_view()) =~= Seq::<
        Op,
    >::empty());
    assert(spec_bind_ops(spec_join(base, "jail"@), args.bind@) =~= Seq::<Op>::empty());
}

} // verus!

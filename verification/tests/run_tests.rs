use island::argparse::Args;
use island::command::resolve_command;
use island::errors::{check_privilege, Error, Identity, OpKind};
use island::jail::{create_dir_all, Island};
use island::run::isolate;

fn empty_args(workdir: &str) -> Args {
    Args {
        workdir: String::from(workdir),
        procfs: false,
        sysfs: false,
        dev: false,
        tmpfs: vec![],
        bind: vec![],
        command: vec![],
    }
}

#[test]
fn no_command_and_no_shell_is_an_error() {
    match resolve_command(&vec![], &None) {
        Err(Error::MissingShell) => (),
        _ => panic!("expected the missing-shell error"),
    }
}

#[test]
fn no_command_with_shell_runs_the_shell_bare() {
    let rc = match resolve_command(&vec![], &Some(String::from("/bin/sh"))) {
        Ok(rc) => rc,
        Err(_) => panic!("expected a resolved command"),
    };
    assert_eq!(rc.file, "/bin/sh");
    assert_eq!(rc.argv, vec![String::from("/bin/sh")]);
    assert!(!rc.search_path);
}

#[test]
fn explicit_command_is_taken_as_it_stands() {
    let cmd = vec![String::from("/bin/echo"), String::from("hi")];
    let rc = match resolve_command(&cmd, &Some(String::from("/bin/sh"))) {
        Ok(rc) => rc,
        Err(_) => panic!("expected a resolved command"),
    };
    assert_eq!(rc.file, "/bin/echo");
    assert_eq!(rc.argv, cmd);
    assert!(rc.search_path);
}

#[test]
fn privilege_check_accepts_only_the_suid_pattern() {
    assert!(check_privilege(Identity { real: 1000, effective: 0 }).is_ok());
    assert_eq!(check_privilege(Identity { real: 0, effective: 0 }), Err(Error::Privilege));
    assert_eq!(check_privilege(Identity { real: 1000, effective: 1000 }), Err(Error::Privilege));
    assert_eq!(check_privilege(Identity { real: 0, effective: 1000 }), Err(Error::Privilege));
}

#[test]
fn unprivileged_run_mutates_nothing() {
    let base = "/tmp/island_test_untouched_base";
    let mut isl = Island::new(base);
    let args = empty_args(base);
    match isolate(&mut isl, &args, Identity { real: 1000, effective: 1000 }, &None) {
        Err(Error::Privilege) => (),
        _ => panic!("expected the privilege error"),
    }
    assert!(nix::sys::stat::stat(base).is_err());
}

#[test]
fn bootstrap_reports_the_failing_directory_creation() {
    let mut isl = Island::new("/dev/null/sub");
    match isl.init() {
        Err(Error::Syscall { op: OpKind::MkDir, errno }) => {
            assert_eq!(errno, 20);
        },
        _ => panic!("expected a mkdir syscall error"),
    }
}

#[test]
fn create_dir_all_is_recursive_and_idempotent() {
    let p = "/tmp/island_test_cda/a/b";
    assert!(create_dir_all(p).is_ok());
    let st = nix::sys::stat::stat(p).expect("directory should exist");
    assert!(nix::sys::stat::SFlag::from_bits_truncate(st.st_mode).contains(
        nix::sys::stat::SFlag::S_IFDIR
    ));
    assert!(create_dir_all(p).is_ok());
}

#[test]
fn create_dir_all_reports_other_errors() {
    match create_dir_all("/dev/null/sub") {
        Err(errno) => assert_eq!(errno, 20),
        Ok(()) => panic!("expected an error under a non-directory"),
    }
}

#[test]
fn op_kind_names_match_their_operations() {
    assert_eq!(OpKind::MkDir.name(), "mkdir");
    assert_eq!(OpKind::Unshare.name(), "unshare");
    assert_eq!(OpKind::Mount.name(), "mount");
    assert_eq!(OpKind::CreateFile.name(), "create");
    assert_eq!(OpKind::Symlink.name(), "symlink");
    assert_eq!(OpKind::Chroot.name(), "chroot");
    assert_eq!(OpKind::Chdir.name(), "chdir");
    assert_eq!(OpKind::SetUid.name(), "setuid");
}

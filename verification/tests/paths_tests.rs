use island::jail::Island;
use island::mount::{mount_flags, MountSpec, MS_BIND, MS_REC};
use island::paths::{path_join, resolve};

#[test]
fn path_join_inserts_one_separator() {
    assert_eq!(path_join("/tmp/x", "jail"), "/tmp/x/jail");
    assert_eq!(path_join("", "jail"), "/jail");
}

#[test]
fn resolve_strips_exactly_one_leading_separator() {
    assert_eq!(resolve("/tmp/x/jail", "/proc"), "/tmp/x/jail/proc");
    assert_eq!(resolve("/tmp/x/jail", "proc"), "/tmp/x/jail/proc");
    assert_eq!(resolve("/tmp/x/jail", "//x"), "/tmp/x/jail//x");
}

#[test]
fn inner_path_agrees_for_both_separator_variants() {
    let isl = Island::new("/tmp/x");
    assert_eq!(isl.inner_path("/proc"), "/tmp/x/jail/proc");
    assert_eq!(isl.inner_path("proc"), "/tmp/x/jail/proc");
}

#[test]
fn inner_path_of_root_is_the_jail_root() {
    let isl = Island::new("/tmp/x");
    assert_eq!(isl.inner_path("/"), "/tmp/x/jail/");
}

#[test]
fn bind_shape_always_gains_recursive_bind_flags() {
    let bind = MountSpec::Bind { source: String::from("/host/path") };
    assert_eq!(mount_flags(&bind, 0), MS_BIND | MS_REC);
    assert_eq!(mount_flags(&bind, 0x1), 0x1 | MS_BIND | MS_REC);
}

#[test]
fn typed_and_overlay_shapes_pass_flags_verbatim() {
    let typed = MountSpec::Typed { source: String::from("proc"), fstype: String::from("proc") };
    assert_eq!(mount_flags(&typed, 0), 0);
    assert_eq!(mount_flags(&typed, 42), 42);
    let overlay = MountSpec::Overlay {
        source: String::from("island"),
        fstype: String::from("overlay"),
        data: String::from("lowerdir=/,upperdir=/tmp/x/jail,workdir=/tmp/x/work"),
    };
    assert_eq!(mount_flags(&overlay, 7), 7);
}

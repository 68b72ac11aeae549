//! The switches and arguments the jail is built from, as plain values. The
//! command-line layer that fills them in, with its help text and the
//! home-directory shorthand, lives outside the library.

use vstd::prelude::*;

verus! {

/// One run's configuration.
pub struct Args {
    /// Base directory holding the jail's writable layer and scratch space.
    pub workdir: String,
    /// Mount a fresh process-info filesystem at /proc.
    pub procfs: bool,
    /// Mount a fresh kernel-info filesystem at /sys.
    pub sysfs: bool,
    /// Seed a minimal device tree at /dev.
    pub dev: bool,
    /// Extra memory-backed mounts, by virtual target path.
    pub tmpfs: Vec<String>,
    /// Host bind mounts, as (source, destination) pairs.
    pub bind: Vec<(String, String)>,
    /// Executable and arguments; empty means the login shell.
    pub command: Vec<String>,
}

} // verus!

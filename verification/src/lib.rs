//! Builds an ephemeral filesystem jail for a single process tree: an overlay
//! over the host root inside a private mount namespace, optional pseudo
//! filesystems and bind mounts, a minimal device tree, then chroot, privilege
//! drop and hand-off to a user command.

pub mod argparse;
pub mod command;
pub mod errors;
pub mod jail;
pub mod mount;
pub mod paths;
pub mod run;
mod sys;

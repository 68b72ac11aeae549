//! The three legal shapes of the mount primitive, as a closed variant so the
//! meaningless fourth combination of `(fstype, data)` is unrepresentable, and
//! the flag handling of each shape.

use vstd::prelude::*;

verus! {

/// Recursively apply the operation to the whole subtree below the source.
pub const MS_REC: u64 = 0x4000;
/// Make a mount private: no propagation into or out of it.
pub const MS_PRIVATE: u64 = 0x40000;
/// Make an existing path visible at a second location.
pub const MS_BIND: u64 = 0x1000;

/// A legal mount request. `fstype` and `data` are either both present
/// (a data-bearing mount, used only for the overlay step), only `fstype`
/// present (a typed filesystem), or both absent (a bind mount); the
/// `(fstype absent, data present)` combination has no meaning and no variant.
pub enum MountSpec {
    Overlay { source: String, fstype: String, data: String },
    Typed { source: String, fstype: String },
    Bind { source: String },
}

impl MountSpec {
    /// What is handed to the syscall as the source argument.
    pub open spec fn spec_source(&self) -> Seq<char> {
        match self {
            MountSpec::Overlay { source, .. } => source@,
            MountSpec::Typed { source, .. } => source@,
            MountSpec::Bind { source } => source@,
        }
    }

    /// What is handed to the syscall as the filesystem type, if anything.
    pub open spec fn spec_fstype(&self) -> Option<Seq<char>> {
        match self {
            MountSpec::Overlay { fstype, .. } => Some(fstype@),
            MountSpec::Typed { fstype, .. } => Some(fstype@),
            MountSpec::Bind { .. } => None,
        }
    }

    /// What is handed to the syscall as filesystem-specific data, if anything.
    pub open spec fn spec_data(&self) -> Option<Seq<char>> {
        match self {
            MountSpec::Overlay { data, .. } => Some(data@),
            MountSpec::Typed { .. } => None,
            MountSpec::Bind { .. } => None,
        }
    }
}

/// The flags actually handed to the syscall: passed through verbatim for the
/// overlay and typed shapes, merged with the forced recursive-bind
/// combination for the bind shape, whatever the caller requested.
pub open spec fn spec_effective_flags(spec: &MountSpec, flags: u64) -> u64 {
    match spec {
        MountSpec::Bind { .. } => flags | MS_BIND | MS_REC,
        _ => flags,
    }
}

/// Computes the flags handed to the syscall for a request.
pub fn mount_flags(spec: &MountSpec, flags: u64) -> (r: u64)
    ensures
        r == spec_effective_flags(spec, flags),
{
    match spec {
        MountSpec::Bind { .. } => flags | MS_BIND | MS_REC,
        _ => flags,
    }
}

/// Forced bind flags are applied exactly when both `fstype` and `data` are
/// absent: the bind shape always carries the recursive-bind combination, even
/// if unrequested, and the data-bearing (overlay) and typed shapes never gain
/// a flag the caller did not pass.
pub proof fn lemma_forced_bind_flags(spec: MountSpec, flags: u64)
    ensures
        spec is Bind ==> spec_effective_flags(&spec, flags) & (MS_BIND | MS_REC) == (MS_BIND
            | MS_REC),
        !(spec is Bind) <==> spec.spec_fstype() is Some,
        spec.spec_fstype() is Some ==> spec_effective_flags(&spec, flags) == flags,
{
    if spec is Bind {
        assert((flags | 0x1000u64 | 0x4000u64) & (0x1000u64 | 0x4000u64) == (0x1000u64
            | 0x4000u64)) by (bit_vector);
    }
}

} // verus!

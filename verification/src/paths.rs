//! Translation of guest-rooted virtual paths to concrete paths under the
//! jail's writable root: strip exactly one leading separator, then join.

use vstd::prelude::*;
use vstd::string::*;

verus! {

/// The concrete path `base/sub`: `base`, one separator, `sub`.
pub open spec fn spec_join(base: Seq<char>, sub: Seq<char>) -> Seq<char> {
    base + "/"@ + sub
}

/// A virtual path with its single leading separator (if any) removed.
pub open spec fn spec_strip_root(vp: Seq<char>) -> Seq<char> {
    if vp.len() > 0 && vp[0] == '/' {
        vp.subrange(1, vp.len() as int)
    } else {
        vp
    }
}

/// Where a guest-rooted virtual path lands under the jail root.
pub open spec fn spec_resolve(root: Seq<char>, vp: Seq<char>) -> Seq<char> {
    spec_join(root, spec_strip_root(vp))
}

/// Joins two paths with a single separator between them.
pub fn path_join(base: &str, sub: &str) -> (r: String)
    ensures
        r@ == spec_join(base@, sub@),
{
    String::from_str(base).concat("/").concat(sub)
}

/// Translates a virtual path to the concrete path under `root`.
///
/// No normalization is attempted: `..` and `.` components pass through, so
/// callers must hand in validated paths only.
pub fn resolve(root: &str, vp: &str) -> (r: String)
    ensures
        r@ == spec_resolve(root@, vp@),
{
    let n = vp.unicode_len();
    if n > 0 && vp.get_char(0) == '/' {
        let stripped = vp.substring_char(1, n);
        path_join(root, stripped)
    } else {
        path_join(root, vp)
    }
}

/// A virtual path means the same with or without its single leading
/// separator: for any `vp` that does not itself start with a separator,
/// resolving `"/" + vp` and resolving `vp` both land on `root/vp`.
pub proof fn lemma_resolve_strips_one_separator(root: Seq<char>, vp: Seq<char>)
    requires
        vp.len() == 0 || vp[0] != '/',
    ensures
        spec_resolve(root, "/"@ + vp) == spec_resolve(root, vp),
        spec_resolve(root, vp) == spec_join(root, vp),
{
    reveal_strlit("/");
    assert(("/"@ + vp)[0] == '/');
    assert(("/"@ + vp).subrange(1, ("/"@ + vp).len() as int) =~= vp);
}

} // verus!

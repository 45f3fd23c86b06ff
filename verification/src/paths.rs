//! String-only path arithmetic: joining an installation root with the
//! relative targets that package layouts carry.  Discovery never touches the
//! filesystem, so paths are plain strings here.

use vstd::prelude::*;

verus! {

/// Joining a base path with a relative component: a single '/' separates the
/// two unless the base already ends in one.  Components are taken as
/// relative; an empty base yields the component itself.
pub open spec fn joined(base: Seq<char>, rel: Seq<char>) -> Seq<char> {
    if base.len() == 0 {
        rel
    } else if base.last() == '/' {
        base + rel
    } else {
        base + seq!['/'] + rel
    }
}

/// Where a layout target resolves under an installation root: always under
/// the root's `usr` tree.
pub open spec fn usr_path(root: Seq<char>, target: Seq<char>) -> Seq<char> {
    joined(joined(root, "usr"@), target)
}

/// Joins a base path and a relative component.
pub fn path_join(base: &str, rel: &str) -> (r: String)
    ensures
        r@ == joined(base@, rel@),
{
    let n = base.unicode_len();
    if n == 0 {
        return String::from_str(rel);
    }
    let mut s = String::from_str(base);
    if base.get_char(n - 1) != '/' {
        s.append("/");
        proof {
            reveal_strlit("/");
            assert(s@ =~= base@ + seq!['/']);
        }
    }
    s.append(rel);
    s
}

/// Resolves a layout target to its absolute path under the root's `usr`
/// tree.
pub fn resolve_usr(root: &str, target: &str) -> (r: String)
    ensures
        r@ == usr_path(root@, target@),
{
    let base = path_join(root, "usr");
    path_join(base.as_str(), target)
}

} // verus!

//! Asset discovery: scanning a package layout list for files matching
//! boot-relevant path patterns, rooted at an installation root.
//!
//! Discovery is pure and read-only over the layout list — path resolution is
//! string-only, the filesystem is never touched — and deterministic: the
//! result order is the layout iteration order.  It only considers the layout
//! list it is given (the current transaction's manifest), so resyncing from
//! scratch needs a fresh scan, not an incremental diff.

use vstd::prelude::*;

use crate::paths::{resolve_usr, usr_path};
use crate::pattern::{tokens_match, Pattern, Token};
use crate::state::PackageId;

verus! {

/// The filesystem root being operated on, owned by the caller and never
/// mutated here.
#[derive(Debug, Clone)]
pub struct Installation {
    pub root: String,
}

/// One filesystem entry shipped by an installed package, with its target
/// path relative to the root's `usr` tree.
#[derive(Debug, Clone)]
pub enum LayoutEntry {
    /// A regular file: content reference and relative target path.
    Regular { content: u128, target: String },
    /// A symbolic link: link source and relative target path.
    Symlink { source: String, target: String },
    /// Any other entry kind; never boot-relevant.
    Other,
}

/// One row of a package's file manifest.
#[derive(Debug, Clone)]
pub struct Layout {
    pub entry: LayoutEntry,
}

/// A discovered kernel candidate: the resolved absolute path together with
/// the index of the layout row it came from.  An owned index rather than a
/// borrow, so the result does not tie itself to the input's storage.
#[derive(Debug, Clone)]
pub struct KernelCandidate {
    pub path: String,
    pub layout_index: usize,
}

/// The relative target of a layout row ('Other' rows have none).
pub open spec fn entry_target(l: Layout) -> Seq<char> {
    match l.entry {
        LayoutEntry::Regular { content, target } => target@,
        LayoutEntry::Symlink { source, target } => target@,
        LayoutEntry::Other => Seq::<char>::empty(),
    }
}

/// Whether a layout row is a kernel candidate under the pattern: regular
/// files and symlinks whose target matches.
pub open spec fn kernel_relevant(pat: Seq<Token>, l: Layout) -> bool {
    match l.entry {
        LayoutEntry::Regular { content, target } => tokens_match(pat, target@),
        LayoutEntry::Symlink { source, target } => tokens_match(pat, target@),
        LayoutEntry::Other => false,
    }
}

/// Whether a layout row is a boot-loader asset under the pattern: regular
/// files only.
pub open spec fn boot_relevant(pat: Seq<Token>, l: Layout) -> bool {
    match l.entry {
        LayoutEntry::Regular { content, target } => tokens_match(pat, target@),
        _ => false,
    }
}

/// The model of one kernel candidate: resolved path and source row index.
pub open spec fn cand_model(k: KernelCandidate) -> (Seq<char>, int) {
    (k.path@, k.layout_index as int)
}

/// The model of a candidate list.
pub open spec fn cands_model(v: Seq<KernelCandidate>) -> Seq<(Seq<char>, int)> {
    v.map_values(|k: KernelCandidate| cand_model(k))
}

/// The model of a path list.
pub open spec fn paths_model(v: Seq<String>) -> Seq<Seq<char>> {
    v.map_values(|p: String| p@)
}

/// The kernel candidates among the first `n` layout rows, in row order.
pub open spec fn kernel_candidates_spec(
    root: Seq<char>,
    pat: Seq<Token>,
    layouts: Seq<(PackageId, Layout)>,
    n: int,
) -> Seq<(Seq<char>, int)>
    decreases n,
{
    if n <= 0 {
        Seq::<(Seq<char>, int)>::empty()
    } else {
        let prev = kernel_candidates_spec(root, pat, layouts, n - 1);
        if kernel_relevant(pat, layouts[n - 1].1) {
            prev.push((usr_path(root, entry_target(layouts[n - 1].1)), n - 1))
        } else {
            prev
        }
    }
}

/// The boot-loader asset paths among the first `n` layout rows, in row
/// order.
pub open spec fn boot_assets_spec(
    root: Seq<char>,
    pat: Seq<Token>,
    layouts: Seq<(PackageId, Layout)>,
    n: int,
) -> Seq<Seq<char>>
    decreases n,
{
    if n <= 0 {
        Seq::<Seq<char>>::empty()
    } else {
        let prev = boot_assets_spec(root, pat, layouts, n - 1);
        if boot_relevant(pat, layouts[n - 1].1) {
            prev.push(usr_path(root, entry_target(layouts[n - 1].1)))
        } else {
            prev
        }
    }
}

/// From the state's file manifest, the kernel candidates: regular files and
/// symlinks whose relative target matches the pattern, each resolved under
/// `root/usr` and paired with its source row.
pub fn kernel_files_from_state(
    install: &Installation,
    layouts: &Vec<(PackageId, Layout)>,
    pattern: &Pattern,
) -> (r: Vec<KernelCandidate>)
    ensures
        cands_model(r@) == kernel_candidates_spec(
            install.root@,
            pattern@,
            layouts@,
            layouts@.len() as int,
        ),
{
    let mut r: Vec<KernelCandidate> = Vec::new();
    let n = layouts.len();
    let mut i: usize = 0;
    while i < n
        invariant
            i <= n,
            n == layouts@.len(),
            cands_model(r@) == kernel_candidates_spec(install.root@, pattern@, layouts@, i as int),
        decreases n - i,
    {
        let ghost r0 = r@;
        let matched: bool = match &layouts[i].1.entry {
            LayoutEntry::Regular { content, target } => pattern.match_path(target.as_str()),
            LayoutEntry::Symlink { source, target } => pattern.match_path(target.as_str()),
            LayoutEntry::Other => false,
        };
        proof {
            assert(matched == kernel_relevant(pattern@, layouts@[i as int].1));
        }
        if matched {
            let target: &String = match &layouts[i].1.entry {
                LayoutEntry::Regular { content, target } => target,
                LayoutEntry::Symlink { source, target } => target,
                LayoutEntry::Other => &layouts[i].0 .0,
            };
            proof {
                assert(target@ == entry_target(layouts@[i as int].1));
            }
            let path = resolve_usr(install.root.as_str(), target.as_str());
            r.push(KernelCandidate { path, layout_index: i });
            proof {
                assert(cands_model(r@) =~= cands_model(r0).push(cand_model(r@[r0.len() as int])));
            }
        }
        i += 1;
    }
    r
}

/// From the state's file manifest, the boot-loader asset paths: regular
/// files whose relative target matches the pattern, resolved under
/// `root/usr`.
pub fn boot_files_from_state(
    install: &Installation,
    layouts: &Vec<(PackageId, Layout)>,
    pattern: &Pattern,
) -> (r: Vec<String>)
    ensures
        paths_model(r@) == boot_assets_spec(
            install.root@,
            pattern@,
            layouts@,
            layouts@.len() as int,
        ),
{
    let mut r: Vec<String> = Vec::new();
    let n = layouts.len();
    let mut i: usize = 0;
    while i < n
        invariant
            i <= n,
            n == layouts@.len(),
            paths_model(r@) == boot_assets_spec(install.root@, pattern@, layouts@, i as int),
        decreases n - i,
    {
        let ghost r0 = r@;
        if let LayoutEntry::Regular { content, target } = &layouts[i].1.entry {
            if pattern.match_path(target.as_str()) {
                let path = resolve_usr(install.root.as_str(), target.as_str());
                r.push(path);
                proof {
                    assert(paths_model(r@) =~= paths_model(r0).push(r@[r0.len() as int]@));
                }
            }
        }
        i += 1;
    }
    r
}

/// Discovery is deterministic: the same root, pattern and layout list always
/// model the same candidate set, in the same order.
pub proof fn lemma_discovery_deterministic(
    root: Seq<char>,
    pat: Seq<Token>,
    layouts: Seq<(PackageId, Layout)>,
    r1: Seq<(Seq<char>, int)>,
    r2: Seq<(Seq<char>, int)>,
)
    requires
        r1 == kernel_candidates_spec(root, pat, layouts, layouts.len() as int),
        r2 == kernel_candidates_spec(root, pat, layouts, layouts.len() as int),
    ensures
        r1 == r2,
{
}

} // verus!

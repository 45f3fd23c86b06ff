//! The pure decision kernel of license-file discovery: which file names
//! look like license texts.  Corpus walking, file reading and fuzzy scoring
//! stay with the caller; the classification of a (already lowercased) file
//! name is plain string logic and lives here.

use vstd::prelude::*;

verus! {

/// The needle occurs in the haystack starting at position `i`.
pub open spec fn is_substring_at(hay: Seq<char>, needle: Seq<char>, i: int) -> bool {
    &&& 0 <= i
    &&& i + needle.len() <= hay.len()
    &&& hay.subrange(i, i + needle.len()) == needle
}

/// The needle occurs somewhere in the haystack.
pub open spec fn contains_sub(hay: Seq<char>, needle: Seq<char>) -> bool {
    exists|i: int| is_substring_at(hay, needle, i)
}

fn matches_at(hay: &Vec<char>, needle: &Vec<char>, i: usize) -> (r: bool)
    requires
        i + needle@.len() <= hay@.len(),
    ensures
        r == is_substring_at(hay@, needle@, i as int),
{
    let m = needle.len();
    let hn = hay.len();
    let mut j: usize = 0;
    while j < m
        invariant
            j <= m,
            m == needle@.len(),
            hn == hay@.len(),
            i + m <= hay@.len(),
            forall|k: int| 0 <= k < j ==> hay@[i + k] == needle@[k],
        decreases m - j,
    {
        if hay[i + j] != needle[j] {
            proof {
                assert(hay@.subrange(i as int, i + m) != needle@) by {
                    assert(hay@.subrange(i as int, i + m)[j as int] == hay@[i + j]);
                }
            }
            return false;
        }
        j += 1;
    }
    proof {
        assert(hay@.subrange(i as int, i + m) =~= needle@);
    }
    true
}

/// Whether `needle` occurs anywhere in `hay`, by characters.
pub fn contains_substring(hay: &str, needle: &str) -> (r: bool)
    ensures
        r == contains_sub(hay@, needle@),
{
    let hs = crate::pattern::str_chars(hay);
    let ns = crate::pattern::str_chars(needle);
    let n = hs.len();
    let m = ns.len();
    if m > n {
        proof {
            assert(forall|i: int| !is_substring_at(hay@, needle@, i));
        }
        return false;
    }
    if m == 0 {
        proof {
            assert(is_substring_at(hay@, needle@, 0)) by {
                assert(hay@.subrange(0, 0) =~= needle@);
            }
        }
        return true;
    }
    let mut i: usize = 0;
    while i <= n - m
        invariant
            1 <= m <= n,
            n == hs@.len() == hay@.len(),
            m == ns@.len() == needle@.len(),
            hs@ == hay@,
            ns@ == needle@,
            i <= n - m + 1,
            forall|k: int| 0 <= k < i ==> !is_substring_at(hay@, needle@, k),
        decreases n - m + 1 - i,
    {
        if matches_at(&hs, &ns, i) {
            return true;
        }
        i += 1;
    }
    proof {
        assert(forall|k: int| is_substring_at(hay@, needle@, k) ==> 0 <= k <= n - m);
    }
    false
}

/// Whether a lowercased file name looks like a license text: the discovery
/// walk keeps files whose names mention copying or a license.
pub fn is_license_file_name(lower_name: &str) -> (r: bool)
    ensures
        r == (contains_sub(lower_name@, "copying"@) || contains_sub(lower_name@, "license"@)
            || contains_sub(lower_name@, "licence"@)),
{
    contains_substring(lower_name, "copying") || contains_substring(lower_name, "license")
        || contains_substring(lower_name, "licence")
}

} // verus!

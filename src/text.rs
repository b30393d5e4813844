//! Small string helpers shared by the other modules.
use vstd::prelude::*;
use vstd::string::StrSliceExecFns;

verus! {

/// A path text that names an absolute location on a Unix-style filesystem.
pub open spec fn is_rooted(p: Seq<char>) -> bool {
    p.len() > 0 && p[0] == '/'
}

/// Character-wise equality of two strings.
pub fn str_eq(a: &str, b: &str) -> (r: bool)
    ensures
        r == (a@ == b@),
{
    let n = a.unicode_len();
    if n != b.unicode_len() {
        return false;
    }
    let mut i: usize = 0;
    while i < n
        invariant
            n == a@.len(),
            n == b@.len(),
            i <= n,
            forall|j: int| 0 <= j < i ==> a@[j] == b@[j],
        decreases n - i,
    {
        if a.get_char(i) != b.get_char(i) {
            return false;
        }
        i = i + 1;
    }
    assert(a@ =~= b@);
    true
}

/// Whether the path text starts at the filesystem root.
pub fn rooted(p: &str) -> (r: bool)
    ensures
        r == is_rooted(p@),
{
    p.unicode_len() > 0 && p.get_char(0) == '/'
}

} // verus!

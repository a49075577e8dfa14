//! Small verified helpers for working with `&str` character by character.

use vstd::prelude::*;
use vstd::string::StrSliceExecFns;

verus! {

/// `s` begins with `p`.
pub open spec fn spec_starts_with(s: Seq<char>, p: Seq<char>) -> bool {
    s.len() >= p.len() && s.subrange(0, p.len() as int) == p
}

/// `i` is the position of the one and only occurrence of `c` in `s`.
pub open spec fn spec_only_index_of(s: Seq<char>, c: char, i: int) -> bool {
    &&& 0 <= i < s.len()
    &&& s[i] == c
    &&& forall|j: int| 0 <= j < s.len() && j != i ==> s[j] != c
}

/// `c` occurs exactly once in `s`.
pub open spec fn spec_has_unique(s: Seq<char>, c: char) -> bool {
    exists|i: int| spec_only_index_of(s, c, i)
}

/// Character-for-character equality of two string slices.
pub fn str_eq(a: &str, b: &str) -> (r: bool)
    ensures
        r == (a@ == b@),
{
    let an = a.unicode_len();
    let bn = b.unicode_len();
    if an != bn {
        return false;
    }
    let mut i: usize = 0;
    while i < an
        invariant
            an == a@.len(),
            an == b@.len(),
            i <= an,
            forall|j: int| 0 <= j < i ==> a@[j] == b@[j],
        decreases an - i,
    {
        if a.get_char(i) != b.get_char(i) {
            return false;
        }
        i += 1;
    }
    proof {
        assert(a@ =~= b@);
    }
    true
}

/// Whether `s` begins with `p`.
pub fn str_starts_with(s: &str, p: &str) -> (r: bool)
    ensures
        r == spec_starts_with(s@, p@),
{
    let sn = s.unicode_len();
    let pn = p.unicode_len();
    if pn > sn {
        return false;
    }
    let mut i: usize = 0;
    while i < pn
        invariant
            sn == s@.len(),
            pn == p@.len(),
            pn <= sn,
            i <= pn,
            forall|j: int| 0 <= j < i ==> s@[j] == p@[j],
        decreases pn - i,
    {
        if s.get_char(i) != p.get_char(i) {
            proof {
                assert(s@.subrange(0, p@.len() as int)[i as int] == s@[i as int]);
            }
            return false;
        }
        i += 1;
    }
    proof {
        assert(s@.subrange(0, p@.len() as int) =~= p@);
    }
    true
}

/// The position of the sole occurrence of `c` in `s`, or `None` when `c`
/// occurs never or more than once.
pub fn find_unique_char(s: &str, c: char) -> (r: Option<usize>)
    ensures
        r matches Some(i) ==> spec_only_index_of(s@, c, i as int),
        r is Some <==> spec_has_unique(s@, c),
{
    let n = s.unicode_len();
    let mut first: Option<usize> = None;
    let mut i: usize = 0;
    while i < n
        invariant
            n == s@.len(),
            i <= n,
            match first {
                Some(f) => {
                    &&& f < i
                    &&& s@[f as int] == c
                    &&& forall|j: int| 0 <= j < i && j != f ==> s@[j] != c
                },
                None => forall|j: int| 0 <= j < i ==> s@[j] != c,
            },
        decreases n - i,
    {
        if s.get_char(i) == c {
            match first {
                None => {
                    first = Some(i);
                },
                Some(f) => {
                    // a second occurrence: no position can be the only one
                    proof {
                        assert forall|m: int| !spec_only_index_of(s@, c, m) by {
                            if spec_only_index_of(s@, c, m) {
                                if m == f as int {
                                    assert(s@[i as int] != c);
                                } else {
                                    assert(s@[f as int] != c);
                                }
                            }
                        }
                    }
                    return None;
                },
            }
        }
        i += 1;
    }
    match first {
        Some(f) => {
            proof {
                assert(spec_only_index_of(s@, c, f as int));
            }
            Some(f)
        },
        None => {
            proof {
                assert forall|m: int| !spec_only_index_of(s@, c, m) by {
                    if 0 <= m < s@.len() {
                        assert(s@[m] != c);
                    }
                }
            }
            None
        },
    }
}

} // verus!

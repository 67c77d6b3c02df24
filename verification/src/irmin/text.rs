//! Verified character-level string operations: equality, substring
//! containment, and occurrence at an offset.

use vstd::prelude::*;
use vstd::string::StrSliceExecFns;

verus! {

/// `needle` occurs in `hay` starting at position `i`.
pub open spec fn occurs_at(hay: Seq<char>, needle: Seq<char>, i: int) -> bool {
    &&& 0 <= i
    &&& i + needle.len() <= hay.len()
    &&& hay.subrange(i, i + needle.len()) == needle
}

/// `needle` occurs somewhere in `hay`.
pub open spec fn contains_seq(hay: Seq<char>, needle: Seq<char>) -> bool {
    exists|i: int| occurs_at(hay, needle, i)
}

/// Whether `needle` sits in `hay` at offset `off`.
pub fn occurs_here(hay: &str, needle: &str, off: usize) -> (r: bool)
    requires
        off as int + needle@.len() <= hay@.len(),
        hay@.len() <= usize::MAX as int,
    ensures
        r == occurs_at(hay@, needle@, off as int),
{
    let nl = needle.unicode_len();
    let mut j: usize = 0;
    while j < nl
        invariant
            nl as int == needle@.len(),
            off as int + needle@.len() <= hay@.len(),
            hay@.len() <= usize::MAX as int,
            j <= nl,
            forall|k: int| 0 <= k < j as int ==> hay@[off as int + k] == needle@[k],
        decreases nl - j,
    {
        if hay.get_char(off + j) != needle.get_char(j) {
            proof {
                let sub = hay@.subrange(off as int, off as int + needle@.len());
                assert(sub[j as int] == hay@[off as int + j as int]);
            }
            return false;
        }
        j += 1;
    }
    proof {
        assert(hay@.subrange(off as int, off as int + needle@.len()) =~= needle@);
    }
    true
}

/// Whether `hay` contains `needle`.
pub fn contains_str(hay: &str, needle: &str) -> (r: bool)
    ensures
        r == contains_seq(hay@, needle@),
{
    let hl = hay.unicode_len();
    let nl = needle.unicode_len();
    if nl > hl {
        proof {
            assert forall|i: int| !occurs_at(hay@, needle@, i) by {}
        }
        return false;
    }
    if nl == 0 {
        proof {
            assert(hay@.subrange(0, 0) =~= needle@);
            assert(occurs_at(hay@, needle@, 0));
        }
        return true;
    }
    let mut i: usize = 0;
    while i <= hl - nl
        invariant
            hl as int == hay@.len(),
            nl as int == needle@.len(),
            1 <= nl <= hl,
            i as int <= hl as int - nl as int + 1,
            forall|k: int| 0 <= k < i as int ==> !occurs_at(hay@, needle@, k),
        decreases hl - nl - i + 1,
    {
        if occurs_here(hay, needle, i) {
            return true;
        }
        i += 1;
    }
    proof {
        assert forall|k: int| !occurs_at(hay@, needle@, k) by {
            if 0 <= k <= hl - nl {
                assert(!occurs_at(hay@, needle@, k));
            }
        }
    }
    false
}

/// Whether two strings hold the same characters.
pub fn str_eq_content(a: &str, b: &str) -> (r: bool)
    ensures
        r == (a@ == b@),
{
    let al = a.unicode_len();
    let bl = b.unicode_len();
    if al != bl {
        return false;
    }
    let r = occurs_here(a, b, 0);
    proof {
        assert(a@.subrange(0, a@.len() as int) =~= a@);
    }
    r
}

} // verus!

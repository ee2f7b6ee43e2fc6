//! Plain substring search over strings, with an exact first-occurrence
//! specification. The manifest parser and the icon-file selection are built
//! on these functions.

use vstd::prelude::*;
use vstd::string::*;

verus! {

/// The pattern `pat` occurs in `s` starting at position `i`.
pub open spec fn occurs_at(s: Seq<char>, pat: Seq<char>, i: int) -> bool {
    &&& 0 <= i
    &&& i + pat.len() <= s.len()
    &&& s.subrange(i, i + pat.len() as int) == pat
}

/// The position of the first occurrence of `pat` in `s` at or after `from`,
/// or `None` when there is none.
pub open spec fn find_from_spec(s: Seq<char>, pat: Seq<char>, from: int) -> Option<int>
    decreases s.len() + 1 - from,
{
    if from < 0 {
        find_from_spec(s, pat, 0)
    } else if from + pat.len() > s.len() {
        None
    } else if s.subrange(from, from + pat.len() as int) == pat {
        Some(from)
    } else {
        find_from_spec(s, pat, from + 1)
    }
}

/// What `find_from_spec` returns is the first occurrence at or after `from`:
/// a hit occurs there and nothing matches earlier, and a miss means nothing
/// matches anywhere at or after `from`.
pub proof fn lemma_find_from_spec(s: Seq<char>, pat: Seq<char>, from: int)
    requires
        0 <= from,
    ensures
        find_from_spec(s, pat, from) matches Some(i) ==> {
            &&& from <= i
            &&& occurs_at(s, pat, i)
            &&& forall|j: int| from <= j < i ==> !occurs_at(s, pat, j)
        },
        find_from_spec(s, pat, from) is None ==> forall|j: int|
            from <= j ==> !occurs_at(s, pat, j),
    decreases s.len() + 1 - from,
{
    if from + pat.len() > s.len() {
        assert(forall|j: int| from <= j ==> !occurs_at(s, pat, j));
    } else if s.subrange(from, from + pat.len() as int) == pat {
    } else {
        lemma_find_from_spec(s, pat, from + 1);
        assert(!occurs_at(s, pat, from));
    }
}

/// Whether `pat` occurs in `hay` at exactly position `i`.
fn check_occurs_at(hay: &str, pat: &str, i: usize) -> (b: bool)
    requires
        i + pat@.len() <= hay@.len(),
    ensures
        b == occurs_at(hay@, pat@, i as int),
{
    let hlen = hay.unicode_len();
    let plen = pat.unicode_len();
    let mut j: usize = 0;
    while j < plen
        invariant
            j <= plen,
            plen == pat@.len(),
            hlen == hay@.len(),
            i + plen <= hlen,
            forall|k: int| 0 <= k < j ==> hay@[i + k] == pat@[k],
        decreases plen - j,
    {
        let hc = hay.get_char(i + j);
        let pc = pat.get_char(j);
        if hc != pc {
            proof {
                let sub = hay@.subrange(i as int, i + plen as int);
                assert(sub[j as int] == hay@[i + j]);
                assert(!occurs_at(hay@, pat@, i as int));
            }
            return false;
        }
        j += 1;
    }
    proof {
        assert(hay@.subrange(i as int, i + plen as int) =~= pat@);
    }
    true
}

/// The position of the first occurrence of `pat` in `hay` at or after
/// `from`, or `None` when `pat` does not occur there.
pub fn find_from(hay: &str, pat: &str, from: usize) -> (r: Option<usize>)
    ensures
        r matches Some(i) ==> find_from_spec(hay@, pat@, from as int) == Some(i as int),
        r is None ==> find_from_spec(hay@, pat@, from as int) is None,
{
    let hlen = hay.unicode_len();
    let plen = pat.unicode_len();
    if plen > hlen || from > hlen - plen {
        return None;
    }
    if plen == 0 {
        proof {
            assert(hay@.subrange(from as int, from as int) =~= pat@);
        }
        return Some(from);
    }
    let mut i = from;
    while i <= hlen - plen
        invariant
            from <= i,
            i <= hlen - plen + 1,
            0 < plen <= hlen,
            hlen == hay@.len(),
            plen == pat@.len(),
            find_from_spec(hay@, pat@, from as int) == find_from_spec(hay@, pat@, i as int),
        decreases hlen - plen + 1 - i,
    {
        if check_occurs_at(hay, pat, i) {
            return Some(i);
        }
        i += 1;
    }
    None
}

/// `s` begins with `pre`.
pub open spec fn starts_with_spec(s: Seq<char>, pre: Seq<char>) -> bool {
    occurs_at(s, pre, 0)
}

/// Whether `s` begins with `pre`.
pub fn starts_with(s: &str, pre: &str) -> (b: bool)
    ensures
        b == starts_with_spec(s@, pre@),
{
    let slen = s.unicode_len();
    let plen = pre.unicode_len();
    if plen > slen {
        return false;
    }
    check_occurs_at(s, pre, 0)
}

/// `s` ends with `suf`.
pub open spec fn ends_with_spec(s: Seq<char>, suf: Seq<char>) -> bool {
    s.len() >= suf.len() && occurs_at(s, suf, s.len() - suf.len())
}

/// Whether `s` ends with `suf`.
pub fn ends_with(s: &str, suf: &str) -> (b: bool)
    ensures
        b == ends_with_spec(s@, suf@),
{
    let slen = s.unicode_len();
    let flen = suf.unicode_len();
    if flen > slen {
        return false;
    }
    check_occurs_at(s, suf, slen - flen)
}

} // verus!

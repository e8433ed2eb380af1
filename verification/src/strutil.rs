use vstd::prelude::*;

verus! {

/// `needle` occurs somewhere in `hay` as a contiguous run of characters.
pub open spec fn contains_sub(hay: Seq<char>, needle: Seq<char>) -> bool {
    exists|i: int|
        0 <= i && i + needle.len() <= hay.len() && #[trigger] hay.subrange(i, i + needle.len())
            == needle
}

/// The characters of `hay` starting at position `i` begin with `needle`.
fn matches_at(hay: &str, i: usize, needle: &str) -> (r: bool)
    requires
        i + needle@.len() <= hay@.len(),
    ensures
        r == (hay@.subrange(i as int, i + needle@.len()) == needle@),
{
    let n = hay.unicode_len();
    let m = needle.unicode_len();
    let mut k: usize = 0;
    while k < m
        invariant
            n == hay@.len(),
            m == needle@.len(),
            i + m <= n,
            0 <= k <= m,
            forall|k0: int| 0 <= k0 < k ==> hay@[i + k0] == needle@[k0],
        decreases m - k,
    {
        let hc = hay.get_char(i + k);
        let nc = needle.get_char(k);
        if hc != nc {
            proof {
                let s = hay@.subrange(i as int, i + needle@.len());
                assert(s[k as int] == hay@[i + k]);
            }
            return false;
        }
        k += 1;
    }
    proof {
        assert(hay@.subrange(i as int, i + needle@.len()) =~= needle@);
    }
    true
}

/// Substring search: decides `contains_sub` for character sequences, the
/// matching rule the cache applies to filenames.
pub fn contains_str(hay: &str, needle: &str) -> (r: bool)
    ensures
        r == contains_sub(hay@, needle@),
{
    let n = hay.unicode_len();
    let m = needle.unicode_len();
    if m > n {
        return false;
    }
    if m == 0 {
        proof {
            assert(hay@.subrange(0, 0 + needle@.len() as int) =~= needle@);
        }
        return true;
    }
    let mut i: usize = 0;
    while i <= n - m
        invariant
            n == hay@.len(),
            m == needle@.len(),
            0 < m <= n,
            0 <= i <= n - m + 1,
            forall|i0: int|
                0 <= i0 < i ==> #[trigger] hay@.subrange(i0, i0 + needle@.len()) != needle@,
        decreases n - m - i + 1,
    {
        if matches_at(hay, i, needle) {
            proof {
                assert(hay@.subrange(i as int, i + needle@.len()) == needle@);
            }
            return true;
        }
        i += 1;
    }
    false
}

/// Character-for-character equality of two string slices.
pub fn str_eq(a: &str, b: &str) -> (r: bool)
    ensures
        r == (a@ == b@),
{
    let n = a.unicode_len();
    let m = b.unicode_len();
    if n != m {
        return false;
    }
    let r = matches_at(a, 0, b);
    proof {
        assert(a@.subrange(0, 0 + b@.len() as int) =~= a@);
    }
    r
}

} // verus!

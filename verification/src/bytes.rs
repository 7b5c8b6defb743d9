//! Small byte-slice helpers shared by the parsers.

use vstd::prelude::*;

verus! {

/// Compares two byte slices for equality of their contents.
pub fn bytes_eq(a: &[u8], b: &[u8]) -> (r: bool)
    ensures
        r == (a@ == b@),
{
    if a.len() != b.len() {
        proof {
            assert(a@.len() != b@.len());
        }
        return false;
    }
    let mut i: usize = 0;
    while i < a.len()
        invariant
            i <= a.len(),
            a.len() == b.len(),
            forall|j: int| 0 <= j < i ==> a@[j] == b@[j],
        decreases a.len() - i,
    {
        if a[i] != b[i] {
            return false;
        }
        i = i + 1;
    }
    proof {
        assert(a@ =~= b@);
    }
    true
}

/// Copies a byte slice into a fresh vector.
pub fn copy_bytes(a: &[u8]) -> (r: Vec<u8>)
    ensures
        r@ == a@,
{
    let mut out: Vec<u8> = Vec::new();
    let mut i: usize = 0;
    while i < a.len()
        invariant
            i <= a.len(),
            out@ =~= a@.take(i as int),
        decreases a.len() - i,
    {
        out.push(a[i]);
        i = i + 1;
    }
    proof {
        assert(out@ =~= a@);
    }
    out
}

/// Appends all of `s` to `out`.
pub fn append_bytes(out: &mut Vec<u8>, s: &[u8])
    ensures
        final(out)@ == old(out)@ + s@,
{
    let mut i: usize = 0;
    while i < s.len()
        invariant
            i <= s.len(),
            out@ =~= old(out)@ + s@.take(i as int),
        decreases s.len() - i,
    {
        out.push(s[i]);
        proof {
            assert(out@ =~= old(out)@ + s@.take(i + 1));
        }
        i = i + 1;
    }
    proof {
        assert(out@ =~= old(out)@ + s@);
    }
}

/// Copies the byte range `[a, b)` of a slice into a fresh vector.
pub fn copy_range(s: &[u8], a: usize, b: usize) -> (r: Vec<u8>)
    requires
        a <= b <= s@.len(),
    ensures
        r@ == s@.subrange(a as int, b as int),
{
    let mut out: Vec<u8> = Vec::new();
    let mut i: usize = a;
    while i < b
        invariant
            a <= i <= b <= s@.len(),
            out@ =~= s@.subrange(a as int, i as int),
        decreases b - i,
    {
        out.push(s[i]);
        proof {
            assert(out@ =~= s@.subrange(a as int, i + 1));
        }
        i = i + 1;
    }
    out
}

/// The index of the first occurrence of `d` in `s`, or `s.len()` if absent.
pub open spec fn first_delim(s: Seq<u8>, d: u8) -> int
    decreases s.len(),
{
    if s.len() == 0 {
        0
    } else if s[0] == d {
        0
    } else {
        1 + first_delim(s.skip(1), d)
    }
}

/// `first_delim` points at the first occurrence of `d`, or at the end.
pub proof fn lemma_first_delim(s: Seq<u8>, d: u8)
    ensures
        0 <= first_delim(s, d) <= s.len(),
        first_delim(s, d) < s.len() ==> s[first_delim(s, d)] == d,
        forall|j: int| 0 <= j < first_delim(s, d) ==> s[j] != d,
    decreases s.len(),
{
    if s.len() == 0 {
    } else if s[0] == d {
    } else {
        lemma_first_delim(s.skip(1), d);
        assert forall|j: int| 0 <= j < first_delim(s, d) implies s[j] != d by {
            if j > 0 {
                assert(s.skip(1)[j - 1] == s[j]);
            }
        }
    }
}

/// Any index with no `d` before it, and `d` at it or the end of `s`, is
/// `first_delim`.
pub proof fn lemma_first_delim_is(s: Seq<u8>, d: u8, k: int)
    requires
        0 <= k <= s.len(),
        forall|j: int| 0 <= j < k ==> s[j] != d,
        k < s.len() ==> s[k] == d,
    ensures
        first_delim(s, d) == k,
    decreases s.len(),
{
    if s.len() == 0 {
    } else if s[0] == d {
    } else {
        assert(k != 0);
        assert forall|j: int| 0 <= j < k - 1 implies s.skip(1)[j] != d by {
            assert(s.skip(1)[j] == s[j + 1]);
        }
        if k - 1 < s.skip(1).len() {
            assert(s.skip(1)[k - 1] == s[k]);
        }
        lemma_first_delim_is(s.skip(1), d, k - 1);
    }
}

/// Finds the first index at or after `from` holding `d`, or `s.len()`.
pub fn scan_delim(s: &[u8], from: usize, d: u8) -> (r: usize)
    requires
        from <= s@.len(),
    ensures
        from <= r <= s@.len(),
        r - from == first_delim(s@.skip(from as int), d),
{
    let mut i: usize = from;
    while i < s.len()
        invariant
            from <= i <= s@.len(),
            forall|j: int| from <= j < i ==> s@[j] != d,
        decreases s.len() - i,
    {
        if s[i] == d {
            proof {
                assert forall|j: int| 0 <= j < i - from implies s@.skip(from as int)[j] != d by {
                    assert(s@.skip(from as int)[j] == s@[j + from]);
                }
                assert(s@.skip(from as int)[i - from] == s@[i as int]);
                lemma_first_delim_is(s@.skip(from as int), d, i - from);
            }
            return i;
        }
        i = i + 1;
    }
    proof {
        assert forall|j: int| 0 <= j < i - from implies s@.skip(from as int)[j] != d by {
            assert(s@.skip(from as int)[j] == s@[j + from]);
        }
        lemma_first_delim_is(s@.skip(from as int), d, i - from);
    }
    i
}

} // verus!

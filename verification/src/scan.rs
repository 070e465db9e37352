//! Verified byte-sequence scanning primitives: equality, prefix tests,
//! substring search, and locating a delimiter byte.  The trigger predicates,
//! the request parsers, and the risk model are all built on these.

use vstd::prelude::*;

verus! {

/// The needle `n` occurs in the haystack `h` starting at index `i`.
pub open spec fn occurs_at(h: Seq<u8>, n: Seq<u8>, i: int) -> bool {
    0 <= i && i + n.len() <= h.len() && h.subrange(i, i + n.len() as int) == n
}

/// The needle `n` occurs somewhere in the haystack `h`.
pub open spec fn contains_seq(h: Seq<u8>, n: Seq<u8>) -> bool {
    exists|i: int| occurs_at(h, n, i)
}

/// Byte-for-byte equality of two slices.
pub fn eq_bytes(a: &[u8], b: &[u8]) -> (r: bool)
    ensures
        r == (a@ == b@),
{
    if a.len() != b.len() {
        return false;
    }
    let n = a.len();
    let mut i: usize = 0;
    while i < n
        invariant
            n == a@.len() == b@.len(),
            i <= n,
            forall|j: int| 0 <= j < i ==> a@[j] == b@[j],
        decreases n - i,
    {
        if a[i] != b[i] {
            return false;
        }
        i += 1;
    }
    proof {
        assert(a@ =~= b@);
    }
    true
}

/// Does `n` occur in `h` at position `i`?
fn matches_at(h: &[u8], n: &[u8], i: usize) -> (r: bool)
    requires
        i + n@.len() <= h@.len(),
    ensures
        r == occurs_at(h@, n@, i as int),
{
    let len = n.len();
    let hlen = h.len();
    let mut j: usize = 0;
    while j < len
        invariant
            len == n@.len(),
            hlen == h@.len(),
            i + len <= hlen,
            j <= len,
            forall|k: int| 0 <= k < j ==> h@[i + k] == n@[k],
        decreases len - j,
    {
        if h[i + j] != n[j] {
            proof {
                assert(h@.subrange(i as int, i + n@.len() as int)[j as int] != n@[j as int]);
            }
            return false;
        }
        j += 1;
    }
    proof {
        assert(h@.subrange(i as int, i + n@.len() as int) =~= n@);
    }
    true
}

/// Does the haystack start with the given prefix?
pub fn starts_with_bytes(h: &[u8], p: &[u8]) -> (r: bool)
    ensures
        r == occurs_at(h@, p@, 0),
{
    if p.len() > h.len() {
        return false;
    }
    matches_at(h, p, 0)
}

/// Substring search: does `n` occur anywhere in `h`?
pub fn contains_bytes(h: &[u8], n: &[u8]) -> (r: bool)
    ensures
        r == contains_seq(h@, n@),
{
    if n.len() > h.len() {
        proof {
            assert(forall|i: int| !occurs_at(h@, n@, i));
        }
        return false;
    }
    if n.len() == 0 {
        proof {
            assert(h@.subrange(0, 0) =~= n@);
            assert(occurs_at(h@, n@, 0));
        }
        return true;
    }
    let last = h.len() - n.len();
    let mut i: usize = 0;
    while i <= last
        invariant
            1 <= n@.len() <= h@.len(),
            last == h@.len() - n@.len(),
            last < usize::MAX,
            i <= last + 1,
            forall|k: int| 0 <= k < i ==> !occurs_at(h@, n@, k),
        decreases last + 1 - i,
    {
        if matches_at(h, n, i) {
            return true;
        }
        i += 1;
    }
    proof {
        assert(forall|k: int| !occurs_at(h@, n@, k));
    }
    false
}

/// The first index at or after `from` holding the byte `b`.
pub open spec fn first_index_of(s: Seq<u8>, b: u8, from: int) -> Option<int>
    decreases s.len() - from,
{
    if from < 0 || from >= s.len() {
        None
    } else if s[from] == b {
        Some(from)
    } else {
        first_index_of(s, b, from + 1)
    }
}

/// `first_index_of` returns exactly the first hit.
pub proof fn lemma_first_index_of_hit(s: Seq<u8>, b: u8, from: int, i: int)
    requires
        0 <= from <= i < s.len(),
        s[i] == b,
        forall|j: int| from <= j < i ==> s[j] != b,
    ensures
        first_index_of(s, b, from) == Some(i),
    decreases i - from,
{
    if from < i {
        lemma_first_index_of_hit(s, b, from + 1, i);
    }
}

/// When no byte from `from` on is `b`, `first_index_of` returns nothing.
pub proof fn lemma_first_index_of_miss(s: Seq<u8>, b: u8, from: int)
    requires
        forall|j: int| from <= j < s.len() ==> s[j] != b,
    ensures
        first_index_of(s, b, from) is None,
    decreases s.len() - from,
{
    if 0 <= from && from < s.len() {
        lemma_first_index_of_miss(s, b, from + 1);
    }
}

/// Find the first occurrence of the byte `b` in `h` at or after `from`.
pub fn find_byte_from(h: &[u8], b: u8, from: usize) -> (r: Option<usize>)
    ensures
        match r {
            Some(i) => first_index_of(h@, b, from as int) == Some(i as int) && from <= i
                < h@.len() && h@[i as int] == b && forall|j: int| from <= j < i ==> h@[j] != b,
            None => first_index_of(h@, b, from as int) is None,
        },
{
    let n = h.len();
    let mut i: usize = from;
    while i < n
        invariant
            n == h@.len(),
            from <= i,
            i <= n || from > n,
            forall|j: int| from <= j < i ==> h@[j] != b,
        decreases n - i,
    {
        if h[i] == b {
            proof {
                lemma_first_index_of_hit(h@, b, from as int, i as int);
            }
            return Some(i);
        }
        i += 1;
    }
    proof {
        lemma_first_index_of_miss(h@, b, from as int);
    }
    None
}

/// Copy the byte range `[a, b)` of a slice into an owned vector.
pub fn copy_range(h: &[u8], a: usize, b: usize) -> (v: Vec<u8>)
    requires
        a <= b <= h@.len(),
    ensures
        v@ == h@.subrange(a as int, b as int),
{
    let mut v: Vec<u8> = Vec::new();
    let mut i: usize = a;
    while i < b
        invariant
            a <= i <= b <= h@.len(),
            v@ =~= h@.subrange(a as int, i as int),
        decreases b - i,
    {
        v.push(h[i]);
        i += 1;
    }
    proof {
        assert(v@ =~= h@.subrange(a as int, b as int));
    }
    v
}

} // verus!

//! Left-to-right byte scanning: the specification of a first occurrence and
//! the accelerated search that the decoder runs.

use vstd::prelude::*;

verus! {

/// Index of the first occurrence of `b` in `s` at or after `from`, if any.
pub open spec fn find_from(s: Seq<u8>, b: u8, from: int) -> Option<int>
    decreases s.len() - from,
{
    if from < 0 || from >= s.len() {
        None
    } else if s[from] == b {
        Some(from)
    } else {
        find_from(s, b, from + 1)
    }
}

/// What `find_from` returns, spelled out: the hit is in range, matches, and
/// nothing before it does; a miss means no byte in range matches.
pub proof fn lemma_find_from_spec(s: Seq<u8>, b: u8, from: int)
    requires
        0 <= from <= s.len(),
    ensures
        match find_from(s, b, from) {
            Some(i) => {
                &&& from <= i < s.len()
                &&& s[i] == b
                &&& forall|j: int| from <= j < i ==> s[j] != b
            },
            None => forall|j: int| from <= j < s.len() ==> s[j] != b,
        },
    decreases s.len() - from,
{
    if from < s.len() && s[from] != b {
        lemma_find_from_spec(s, b, from + 1);
    }
}

/// The converse: a matching byte with no earlier match pins `find_from` down.
pub proof fn lemma_find_from_of_first(s: Seq<u8>, b: u8, from: int, i: int)
    requires
        0 <= from <= i < s.len(),
        s[i] == b,
        forall|j: int| from <= j < i ==> s[j] != b,
    ensures
        find_from(s, b, from) == Some(i),
    decreases i - from,
{
    if from < i {
        lemma_find_from_of_first(s, b, from + 1, i);
    }
}

/// A range without the byte makes `find_from` miss.
pub proof fn lemma_find_from_none(s: Seq<u8>, b: u8, from: int)
    requires
        0 <= from <= s.len(),
        forall|j: int| from <= j < s.len() ==> s[j] != b,
    ensures
        find_from(s, b, from) is None,
    decreases s.len() - from,
{
    if from < s.len() {
        lemma_find_from_none(s, b, from + 1);
    }
}

/// Whether two byte strings hold the same bytes.
pub fn bytes_eq(a: &[u8], b: &[u8]) -> (r: bool)
    ensures
        r == (a@ == b@),
{
    if a.len() != b.len() {
        return false;
    }
    let n = a.len();
    let mut i: usize = 0;
    while i < n
        invariant
            n == a@.len() == b@.len(),
            0 <= i <= n,
            forall|j: int| 0 <= j < i ==> a@[j] == b@[j],
        decreases n - i,
    {
        if a[i] != b[i] {
            return false;
        }
        i = i + 1;
    }
    proof {
        assert(a@ =~= b@);
    }
    true
}

/// Relies on `memchr::memchr`: it returns the index of the first occurrence
/// of `needle` in `haystack`, or `None` when the byte does not occur.
pub assume_specification [ memchr::memchr ](needle: u8, haystack: &[u8]) -> (r: Option<
    usize,
>)
    ensures
        match r {
            Some(i) => {
                &&& i < haystack@.len()
                &&& haystack@[i as int] == needle
                &&& forall|j: int| 0 <= j < i ==> haystack@[j] != needle
            },
            None => forall|j: int| 0 <= j < haystack@.len() ==> haystack@[j] != needle,
        },
;

/// Find the first occurrence of `b` in `buf` at or after `from`.
pub fn find_byte_from(buf: &[u8], b: u8, from: usize) -> (r: Option<usize>)
    requires
        from <= buf@.len(),
    ensures
        match r {
            Some(i) => from <= i < buf@.len() && find_from(buf@, b, from as int) == Some(
                i as int,
            ),
            None => find_from(buf@, b, from as int) is None,
        },
{
    let sub = vstd::slice::slice_subrange(buf, from, buf.len());
    match memchr::memchr(b, sub) {
        Some(rel) => {
            proof {
                assert(buf@[from + rel] == b);
                assert(forall|j: int|
                    from <= j < from + rel ==> buf@[j] == sub@[j - from] && buf@[j] != b);
                lemma_find_from_of_first(buf@, b, from as int, from + rel);
            }
            Some(from + rel)
        },
        None => {
            proof {
                assert(forall|j: int|
                    from <= j < buf@.len() ==> buf@[j] == sub@[j - from] && buf@[j] != b);
                lemma_find_from_none(buf@, b, from as int);
            }
            None
        },
    }
}

} // verus!

//! The flat offset table: each entry is `(tag, value_start, value_end)`,
//! byte offsets into the decoded buffer, kept in wire order.

use vstd::prelude::*;

verus! {

/// Every entry's value range lies inside a buffer of length `buf_len`.
pub open spec fn table_wf(entries: Seq<(u32, u32, u32)>, buf_len: int) -> bool {
    forall|k: int|
        0 <= k < entries.len() ==> (#[trigger] entries[k]).1 <= entries[k].2
            && entries[k].2 < buf_len
}

/// Index of the first entry with the given tag at or after `from`, if any.
pub open spec fn first_tag_from(entries: Seq<(u32, u32, u32)>, tag: u32, from: int) -> Option<
    int,
>
    decreases entries.len() - from,
{
    if from < 0 || from >= entries.len() {
        None
    } else if entries[from].0 == tag {
        Some(from)
    } else {
        first_tag_from(entries, tag, from + 1)
    }
}

/// What `first_tag_from` returns, spelled out.
pub proof fn lemma_first_tag_from_spec(entries: Seq<(u32, u32, u32)>, tag: u32, from: int)
    requires
        0 <= from <= entries.len(),
    ensures
        match first_tag_from(entries, tag, from) {
            Some(i) => {
                &&& from <= i < entries.len()
                &&& entries[i].0 == tag
                &&& forall|j: int| from <= j < i ==> (#[trigger] entries[j]).0 != tag
            },
            None => forall|j: int| from <= j < entries.len() ==> (#[trigger] entries[j]).0 != tag,
        },
    decreases entries.len() - from,
{
    if from < entries.len() && entries[from].0 != tag {
        lemma_first_tag_from_spec(entries, tag, from + 1);
    }
}

/// The converse: a matching entry with no earlier match pins the result down.
pub proof fn lemma_first_tag_from_of_first(
    entries: Seq<(u32, u32, u32)>,
    tag: u32,
    from: int,
    i: int,
)
    requires
        0 <= from <= i < entries.len(),
        entries[i].0 == tag,
        forall|j: int| from <= j < i ==> (#[trigger] entries[j]).0 != tag,
    ensures
        first_tag_from(entries, tag, from) == Some(i),
    decreases i - from,
{
    if from < i {
        lemma_first_tag_from_of_first(entries, tag, from + 1, i);
    }
}

/// A range without the tag makes the search miss.
pub proof fn lemma_first_tag_from_none(entries: Seq<(u32, u32, u32)>, tag: u32, from: int)
    requires
        0 <= from <= entries.len(),
        forall|j: int| from <= j < entries.len() ==> (#[trigger] entries[j]).0 != tag,
    ensures
        first_tag_from(entries, tag, from) is None,
    decreases entries.len() - from,
{
    if from < entries.len() {
        lemma_first_tag_from_none(entries, tag, from + 1);
    }
}

/// Scan for the position of the first entry with the given tag at or after
/// `from`.
pub(crate) fn first_pos_from(offsets: &[(u32, u32, u32)], tag: u32, from: usize) -> (r: Option<
    usize,
>)
    requires
        from <= offsets@.len(),
    ensures
        match r {
            Some(i) => from <= i < offsets@.len() && first_tag_from(offsets@, tag, from as int)
                == Some(i as int),
            None => first_tag_from(offsets@, tag, from as int) is None,
        },
{
    let n = offsets.len();
    let mut k: usize = from;
    while k < n
        invariant
            from <= k <= n,
            n == offsets@.len(),
            forall|j: int| from <= j < k ==> (#[trigger] offsets@[j]).0 != tag,
        decreases n - k,
    {
        if vstd::slice::slice_index_get(offsets, k).0 == tag {
            proof {
                lemma_first_tag_from_of_first(offsets@, tag, from as int, k as int);
            }
            return Some(k);
        }
        k = k + 1;
    }
    proof {
        lemma_first_tag_from_none(offsets@, tag, from as int);
    }
    None
}

} // verus!

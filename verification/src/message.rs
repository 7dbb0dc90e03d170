//! A decoded message: a read view over one offset table and the buffer it
//! points into, with positional access, lazily indexed lookup by tag, and
//! the two wire-integrity validators.

use vstd::prelude::*;
use crate::body_length::{parse_body_length, spec_parse_body_length};
use crate::checksum::{compute_checksum, parse_checksum, spec_checksum, spec_parse_checksum};
use crate::decoder::{lemma_decode_entries, spec_decode};
use crate::error::FixError;
use crate::field::Field;
use crate::table::{first_tag_from, lemma_first_tag_from_none, lemma_first_tag_from_of_first};
use crate::tag;

verus! {

/// Strict lexicographic order on (tag, wire position) pairs.
pub open spec fn idx_lt(a: (u32, usize), b: (u32, usize)) -> bool {
    a.0 < b.0 || (a.0 == b.0 && a.1 < b.1)
}

/// The sorted lookup index over an offset table: as long as the table, sound
/// (every pair names an entry with that tag), complete (every entry position
/// appears), and strictly ascending in (tag, position) order.
pub open spec fn index_ok(s: Seq<(u32, usize)>, entries: Seq<(u32, u32, u32)>) -> bool {
    &&& s.len() == entries.len()
    &&& forall|k: int|
        0 <= k < s.len() ==> (#[trigger] s[k]).1 < entries.len() && s[k].0 == entries[s[
            k
        ].1 as int].0
    &&& forall|i: int| 0 <= i < entries.len() ==> s.contains(((#[trigger] entries[i]).0, i as usize))
    &&& forall|k1: int, k2: int| 0 <= k1 < k2 < s.len() ==> idx_lt(#[trigger] s[k1], #[trigger] s[k2])
}

/// Whether `idx_lt(a, b)` holds, computed.
fn pair_lt(a: (u32, usize), b: (u32, usize)) -> (r: bool)
    ensures
        r == idx_lt(a, b),
{
    a.0 < b.0 || (a.0 == b.0 && a.1 < b.1)
}

/// Build the sorted lookup index over `entries`: one (tag, position) pair
/// per entry, sorted by tag and, among equal tags, by position.
fn build_index(entries: &[(u32, u32, u32)]) -> (r: Vec<(u32, usize)>)
    ensures
        index_ok(r@, entries@),
{
    let n = entries.len();
    let mut v: Vec<(u32, usize)> = Vec::new();
    let mut i: usize = 0;
    while i < n
        invariant
            n == entries@.len(),
            0 <= i <= n,
            v@.len() == i,
            forall|k: int|
                0 <= k < v@.len() ==> (#[trigger] v@[k]).1 < i && v@[k].0 == entries@[v@[
                    k
                ].1 as int].0,
            forall|j: int| 0 <= j < i ==> v@.contains(((#[trigger] entries@[j]).0, j as usize)),
            forall|k1: int, k2: int|
                0 <= k1 < k2 < v@.len() ==> idx_lt(#[trigger] v@[k1], #[trigger] v@[k2]),
        decreases n - i,
    {
        let pair = (entries[i].0, i);
        let mut p: usize = 0;
        while p < v.len() && !pair_lt(pair, v[p])
            invariant
                0 <= p <= v@.len(),
                forall|k: int| 0 <= k < p ==> !idx_lt(pair, #[trigger] v@[k]),
            decreases v@.len() - p,
        {
            p = p + 1;
        }
        let ghost before = v@;
        proof {
            // Everything before the insertion point is strictly below the
            // new pair: positions already present are below i, so no pair
            // equals it, and the order is total.
            assert forall|k: int| 0 <= k < p implies idx_lt(before[k], pair) by {
                assert(before[k].1 < i);
                assert(!idx_lt(pair, before[k]));
            }
            before.insert_ensures(p as int, pair);
        }
        v.insert(p, pair);
        proof {
            let after = v@;
            assert forall|j: int| 0 <= j < i + 1 implies after.contains(
                ((#[trigger] entries@[j]).0, j as usize),
            ) by {
                if j == i {
                    assert(after[p as int] == pair);
                } else {
                    let pj = (entries@[j].0, j as usize);
                    let q = choose|q: int| 0 <= q < before.len() && before[q] == pj;
                    if q < p {
                        assert(after[q] == pj);
                    } else {
                        assert(after[q + 1] == pj);
                    }
                }
            }
            assert forall|k1: int, k2: int| 0 <= k1 < k2 < after.len() implies idx_lt(
                #[trigger] after[k1],
                #[trigger] after[k2],
            ) by {
                if p < before.len() {
                    assert(idx_lt(pair, before[p as int]));
                }
            }
        }
        i = i + 1;
    }
    v
}

/// A decoded message.
///
/// Zero-copy: field values are sub-slices of the input buffer. The sorted
/// tag index behind [`Message::find`] is built on the first call and cached;
/// if `find` is never called, no sort ever happens.
#[derive(Debug)]
pub struct Message<'a> {
    /// The raw bytes of the complete message as received.
    buf: &'a [u8],
    /// One `(tag, value_start, value_end)` entry per field, in wire order,
    /// borrowed from the decoder that produced this message.
    offsets: &'a [(u32, u32, u32)],
    /// Sorted (tag, position) pairs for logarithmic lookup, built by the
    /// first `find` call and never rebuilt.
    sorted: Option<Vec<(u32, usize)>>,
}

impl<'a> Message<'a> {
    /// The raw bytes of the underlying buffer.
    pub closed spec fn buf_bytes(self) -> Seq<u8> {
        self.buf@
    }

    /// The offset table: one `(tag, value_start, value_end)` entry per field.
    pub closed spec fn entries(self) -> Seq<(u32, u32, u32)> {
        self.offsets@
    }

    /// Whether the sorted lookup index has been built yet.
    pub closed spec fn index_built(self) -> bool {
        self.sorted is Some
    }

    /// A message is well formed when its table is what decoding its buffer
    /// yields, and the lookup index, if built, matches the table.
    pub closed spec fn wf(self) -> bool {
        &&& self.buf@.len() <= u32::MAX
        &&& spec_decode(self.buf@) == Ok::<Seq<(u32, u32, u32)>, FixError>(self.offsets@)
        &&& match self.sorted {
            Some(v) => index_ok(v@, self.offsets@),
            None => true,
        }
    }

    /// The value bytes of the field at position `k`.
    pub open spec fn value_bytes(self, k: int) -> Seq<u8> {
        self.buf_bytes().subrange(self.entries()[k].1 as int, self.entries()[k].2 as int)
    }

    /// The fields of the message, as (tag, value bytes) pairs in wire order.
    pub open spec fn field_seq(self) -> Seq<(u32, Seq<u8>)> {
        Seq::new(self.entries().len(), |k: int| (self.entries()[k].0, self.value_bytes(k)))
    }

    /// What well-formedness tells a caller: the table is exactly what
    /// decoding the buffer yields, and the buffer's length fits the
    /// offsets' width.
    pub proof fn lemma_wf_decode(self)
        requires
            self.wf(),
        ensures
            self.buf_bytes().len() <= u32::MAX,
            spec_decode(self.buf_bytes()) == Ok::<Seq<(u32, u32, u32)>, FixError>(self.entries()),
    {
    }

    /// A well-formed message's entries all point inside its buffer.
    pub proof fn lemma_entry_bounds(self)
        requires
            self.wf(),
        ensures
            forall|k: int|
                0 <= k < self.entries().len() ==> 2 <= (#[trigger] self.entries()[k]).1
                    && self.entries()[k].1 <= self.entries()[k].2 && self.entries()[k].2
                    < self.buf_bytes().len(),
    {
        lemma_decode_entries(self.buf@, 0, self.offsets@);
    }

    /// Wrap a freshly decoded table. The lookup index starts out absent.
    pub(crate) fn new(buf: &'a [u8], offsets: &'a [(u32, u32, u32)]) -> (r: Message<'a>)
        requires
            buf@.len() <= u32::MAX,
            spec_decode(buf@) == Ok::<Seq<(u32, u32, u32)>, FixError>(offsets@),
        ensures
            r.buf_bytes() == buf@,
            r.entries() == offsets@,
            r.wf(),
            !r.index_built(),
    {
        Message { buf, offsets, sorted: None }
    }

    /// Number of fields in the message.
    pub fn len(&self) -> (r: usize)
        ensures
            r == self.entries().len(),
    {
        self.offsets.len()
    }

    /// Whether the message holds no fields at all.
    pub fn is_empty(&self) -> (r: bool)
        ensures
            r == (self.entries().len() == 0),
    {
        self.offsets.len() == 0
    }

    /// The field at position `index`, materialized from its stored offsets.
    pub fn field(&self, index: usize) -> (r: Field<'a>)
        requires
            self.wf(),
            index < self.entries().len(),
        ensures
            r.tag == self.entries()[index as int].0,
            r.value@ == self.value_bytes(index as int),
    {
        proof {
            self.lemma_entry_bounds();
        }
        let (t, start, end) = *vstd::slice::slice_index_get(self.offsets, index);
        Field { tag: t, value: vstd::slice::slice_subrange(self.buf, start as usize, end as usize) }
    }

    /// All fields of the message, in wire order.
    pub fn fields(&self) -> (r: Vec<Field<'a>>)
        requires
            self.wf(),
        ensures
            r@.len() == self.entries().len(),
            forall|k: int|
                0 <= k < r@.len() ==> (#[trigger] r@[k]).tag == self.entries()[k].0
                    && r@[k].value@ == self.value_bytes(k),
    {
        let n = self.offsets.len();
        let mut out: Vec<Field<'a>> = Vec::new();
        let mut k: usize = 0;
        while k < n
            invariant
                self.wf(),
                n == self.entries().len(),
                0 <= k <= n,
                out@.len() == k,
                forall|j: int|
                    0 <= j < k ==> (#[trigger] out@[j]).tag == self.entries()[j].0
                        && out@[j].value@ == self.value_bytes(j),
            decreases n - k,
        {
            out.push(self.field(k));
            k = k + 1;
        }
        out
    }

    /// The value of the version-identifier field (the first field with tag
    /// [`tag::BEGIN_STRING`]), or `None` when the message has none.
    pub fn fix_version(&self) -> (r: Option<&'a [u8]>)
        requires
            self.wf(),
        ensures
            match r {
                Some(v) => first_tag_from(self.entries(), tag::BEGIN_STRING, 0) is Some
                    && v@ == self.value_bytes(
                    first_tag_from(self.entries(), tag::BEGIN_STRING, 0)->Some_0,
                ),
                None => first_tag_from(self.entries(), tag::BEGIN_STRING, 0) is None,
            },
    {
        self.first_value(tag::BEGIN_STRING)
    }

    /// The value of the first field with the given tag, by linear scan.
    pub(crate) fn first_value(&self, t: u32) -> (r: Option<&'a [u8]>)
        requires
            self.wf(),
        ensures
            match r {
                Some(v) => first_tag_from(self.entries(), t, 0) is Some && v@ == self.value_bytes(
                    first_tag_from(self.entries(), t, 0)->Some_0,
                ),
                None => first_tag_from(self.entries(), t, 0) is None,
            },
    {
        proof {
            self.lemma_entry_bounds();
            assert forall|k: int| 0 <= k < self.offsets@.len() implies (#[trigger] self.offsets@[
                k
            ]).1 <= self.offsets@[k].2 && self.offsets@[k].2 < self.buf@.len() by {
                assert(self.entries()[k] == self.offsets@[k]);
            }
        }
        match find_first_in(self.buf, self.offsets, t) {
            Some(f) => Some(f.value),
            None => None,
        }
    }

    /// The first field with the given tag, or `None` when the tag is absent.
    ///
    /// The first call builds the sorted index (and caches it for the life of
    /// the message); every later call binary-searches it. The result is the
    /// same first-in-wire-order field either way, however many calls came
    /// before.
    pub fn find(&mut self, tag: u32) -> (r: Option<Field<'a>>)
        requires
            old(self).wf(),
        ensures
            final(self).wf(),
            final(self).buf_bytes() == old(self).buf_bytes(),
            final(self).entries() == old(self).entries(),
            final(self).index_built(),
            match r {
                Some(f) => first_tag_from(old(self).entries(), tag, 0) is Some && f.tag == tag
                    && f.value@ == old(self).value_bytes(
                    first_tag_from(old(self).entries(), tag, 0)->Some_0,
                ),
                None => first_tag_from(old(self).entries(), tag, 0) is None,
            },
    {
        if self.sorted.is_none() {
            self.sorted = Some(build_index(self.offsets));
        }
        let sorted = self.sorted.as_ref().unwrap();
        let ghost s = sorted@;
        let ghost es = self.offsets@;
        let mut lo: usize = 0;
        let mut hi: usize = sorted.len();
        while lo < hi
            invariant
                index_ok(s, es),
                s == sorted@,
                0 <= lo <= hi <= s.len(),
                forall|k: int| 0 <= k < lo ==> (#[trigger] s[k]).0 < tag,
                forall|k: int| hi <= k < s.len() ==> (#[trigger] s[k]).0 >= tag,
            decreases hi - lo,
        {
            let mid = lo + (hi - lo) / 2;
            if sorted[mid].0 < tag {
                proof {
                    assert forall|k: int| 0 <= k < mid + 1 implies (#[trigger] s[k]).0 < tag by {
                        if k < mid {
                            assert(idx_lt(s[k], s[mid as int]));
                        }
                    }
                }
                lo = mid + 1;
            } else {
                proof {
                    assert forall|k: int| mid <= k < s.len() implies (#[trigger] s[k]).0 >= tag by {
                        if k > mid {
                            assert(idx_lt(s[mid as int], s[k]));
                        }
                    }
                }
                hi = mid;
            }
        }
        if lo < sorted.len() && sorted[lo].0 == tag {
            let m = sorted[lo].1;
            proof {
                assert((#[trigger] s[lo as int]).1 < es.len() && s[lo as int].0 == es[s[
                    lo as int
                ].1 as int].0);
                assert forall|j: int| 0 <= j < m implies (#[trigger] es[j]).0 != tag by {
                    if es[j].0 == tag {
                        let pj = (tag, j as usize);
                        assert(s.contains(pj));
                        let q = choose|q: int| 0 <= q < s.len() && s[q] == pj;
                        if q < lo {
                            assert(s[q].0 < tag);
                        } else if q > lo {
                            assert(idx_lt(s[lo as int], s[q]));
                        }
                    }
                }
                lemma_first_tag_from_of_first(es, tag, 0, m as int);
                self.lemma_entry_bounds();
                assert(self.entries()[m as int].1 <= self.entries()[m as int].2 < self.buf@.len());
            }
            let (t, start, end) = *vstd::slice::slice_index_get(self.offsets, m);
            Some(
                Field {
                    tag: t,
                    value: vstd::slice::slice_subrange(self.buf, start as usize, end as usize),
                },
            )
        } else {
            proof {
                assert forall|j: int| 0 <= j < es.len() implies (#[trigger] es[j]).0 != tag by {
                    if es[j].0 == tag {
                        let pj = (tag, j as usize);
                        assert(s.contains(pj));
                        let q = choose|q: int| 0 <= q < s.len() && s[q] == pj;
                        if q < lo {
                            assert(s[q].0 < tag);
                        } else if q > lo {
                            assert(idx_lt(s[lo as int], s[q]));
                        }
                    }
                }
                lemma_first_tag_from_none(es, tag, 0);
            }
            None
        }
    }

    /// The instances of the repeating group that `gs` describes, as a lazy
    /// iterator. When the count tag is absent, or its value parses to 0 (an
    /// invalid decimal counts as 0 — never an error), the iterator yields
    /// nothing.
    pub fn groups(&self, gs: &crate::group::GroupSpec) -> (it: crate::group::GroupIter<'a>)
        requires
            self.wf(),
        ensures
            crate::group::groups_iter_ok(it, self.buf_bytes(), self.entries(), *gs),
    {
        proof {
            self.lemma_entry_bounds();
            assert forall|k: int| 0 <= k < self.offsets@.len() implies (#[trigger] self.offsets@[
                k
            ]).1 <= self.offsets@[k].2 && self.offsets@[k].2 < self.buf@.len() by {
                assert(self.entries()[k] == self.offsets@[k]);
            }
        }
        crate::group::make_group_iter(self.buf, self.offsets, gs)
    }

    /// Whether the message's version-identifier field selects the newer,
    /// superset group dictionary.
    pub open spec fn version_is_fix44(self) -> bool {
        match first_tag_from(self.entries(), tag::BEGIN_STRING, 0) {
            Some(i) => self.value_bytes(i) == crate::field::fix44_label(),
            None => false,
        }
    }

    /// Every repeating group present in this message: one (schema, instance
    /// iterator) pair per dictionary schema whose count tag occurs with a
    /// non-zero declared count, in dictionary order — not in the order the
    /// fields appear. The dictionary is picked by the version-identifier
    /// field: the newer superset one for its newer value, the legacy one
    /// otherwise.
    pub fn all_groups(&self) -> (r: Vec<(crate::group::GroupSpec, crate::group::GroupIter<'a>)>)
        requires
            self.wf(),
        ensures
            ({
                let dict = if self.version_is_fix44() {
                    crate::group::fix44_pairs()
                } else {
                    crate::group::fix42_pairs()
                };
                let sel = crate::group::selected_pairs(self.buf_bytes(), self.entries(), dict);
                &&& r@.len() == sel.len()
                &&& forall|k: int|
                    0 <= k < r@.len() ==> ((#[trigger] r@[k]).0.count_tag, r@[k].0.delimiter_tag)
                        == sel[k] && crate::group::groups_iter_ok(
                        r@[k].1,
                        self.buf_bytes(),
                        self.entries(),
                        r@[k].0,
                    )
            }),
    {
        let ghost bb = self.buf_bytes();
        let ghost es = self.entries();
        let version_bytes = crate::field::fix44_version_bytes();
        let is44 = match self.fix_version() {
            Some(v) => crate::scan::bytes_eq(v, version_bytes.as_slice()),
            None => false,
        };
        proof {
            assert(is44 == self.version_is_fix44());
        }
        let dict = if is44 {
            crate::group::fix44_groups()
        } else {
            crate::group::fix42_groups()
        };
        let ghost pairs = if is44 {
            crate::group::fix44_pairs()
        } else {
            crate::group::fix42_pairs()
        };
        let mut out: Vec<(crate::group::GroupSpec, crate::group::GroupIter<'a>)> = Vec::new();
        let n = dict.len();
        let mut k: usize = 0;
        while k < n
            invariant
                self.wf(),
                bb == self.buf_bytes(),
                es == self.entries(),
                crate::group::dict_matches(dict@, pairs),
                n == dict@.len(),
                0 <= k <= n,
                out@.len() == crate::group::selected_pairs(bb, es, pairs.take(k as int)).len(),
                forall|j: int|
                    0 <= j < out@.len() ==> ((#[trigger] out@[j]).0.count_tag,
                    out@[j].0.delimiter_tag) == crate::group::selected_pairs(
                        bb,
                        es,
                        pairs.take(k as int),
                    )[j] && crate::group::groups_iter_ok(out@[j].1, bb, es, out@[j].0),
            decreases n - k,
        {
            let gs = dict[k];
            let present = match crate::table::first_pos_from(self.offsets, gs.count_tag, 0) {
                Some(i) => {
                    proof {
                        self.lemma_entry_bounds();
                        assert(self.entries()[i as int].1 <= self.entries()[i as int].2
                            < self.buf@.len());
                    }
                    let (_, start, end) = *vstd::slice::slice_index_get(self.offsets, i);
                    let count = crate::group::parse_count(
                        vstd::slice::slice_subrange(self.buf, start as usize, end as usize),
                    );
                    count != 0
                },
                None => false,
            };
            let ghost sel_before = crate::group::selected_pairs(bb, es, pairs.take(k as int));
            proof {
                assert(present == crate::group::group_present(bb, es, pairs[k as int].0));
                assert(pairs.take(k + 1).drop_last() =~= pairs.take(k as int));
                assert(pairs.take(k + 1).last() == pairs[k as int]);
            }
            if present {
                let it = self.groups(&gs);
                out.push((gs, it));
            }
            k = k + 1;
        }
        proof {
            assert(pairs.take(k as int) =~= pairs);
        }
        out
    }

    /// Where the last field's own tag bytes begin in the buffer: right after
    /// the second-to-last field's terminator, or at the very start when the
    /// last field is the only one.
    pub open spec fn checksum_tag_start(self) -> int {
        let es = self.entries();
        let n = es.len() as int;
        if n >= 2 {
            es[n - 2].2 + 1
        } else {
            0
        }
    }

    /// Structural and numeric validity of the length-declaration field, as
    /// [`Message::validate_body_length`] checks it.
    pub open spec fn body_length_ok(self) -> bool {
        let es = self.entries();
        let n = es.len() as int;
        &&& n >= 3
        &&& es[1].0 == tag::BODY_LENGTH
        &&& es[n - 1].0 == tag::CHECK_SUM
        &&& spec_parse_body_length(self.value_bytes(1)) is Some
        &&& {
            let declared = spec_parse_body_length(self.value_bytes(1))->Some_0;
            let body_start = es[1].2 + 1;
            let cks_tag_start = self.checksum_tag_start();
            let computed: int = if cks_tag_start >= body_start {
                cks_tag_start - body_start
            } else {
                0
            };
            computed == declared
        }
    }

    /// Validate the length-declaration field.
    ///
    /// The message must have at least 3 fields, the length field at position
    /// 1 and the checksum field last. The actual body — every byte strictly
    /// between the end of the length field and the start of the checksum
    /// field's tag bytes — must measure exactly the declared decimal value.
    /// Any structural deviation or mismatch fails with `InvalidBodyLength`.
    pub fn validate_body_length(&self) -> (r: Result<(), FixError>)
        requires
            self.wf(),
        ensures
            r == if self.body_length_ok() {
                Ok::<(), FixError>(())
            } else {
                Err::<(), FixError>(FixError::InvalidBodyLength)
            },
    {
        let n = self.offsets.len();
        if n < 3 {
            return Err(FixError::InvalidBodyLength);
        }
        proof {
            self.lemma_entry_bounds();
        }
        proof {
            assert(self.entries()[1].1 <= self.entries()[1].2 < self.buf@.len());
            assert(self.entries()[n - 2].1 <= self.entries()[n - 2].2 < self.buf@.len());
            assert(self.entries()[n - 1].1 <= self.entries()[n - 1].2 < self.buf@.len());
        }
        let (tag9, _, len_value_end) = *vstd::slice::slice_index_get(self.offsets, 1);
        if tag9 != tag::BODY_LENGTH {
            return Err(FixError::InvalidBodyLength);
        }
        let (tag10, _, _) = *vstd::slice::slice_index_get(self.offsets, n - 1);
        if tag10 != tag::CHECK_SUM {
            return Err(FixError::InvalidBodyLength);
        }
        let (_, len_value_start, _) = *vstd::slice::slice_index_get(self.offsets, 1);
        let declared = match parse_body_length(
            vstd::slice::slice_subrange(self.buf, len_value_start as usize, len_value_end as usize),
        ) {
            Some(d) => d,
            None => {
                return Err(FixError::InvalidBodyLength);
            },
        };
        let (_, _, prev_end) = *vstd::slice::slice_index_get(self.offsets, n - 2);
        let body_start = len_value_end as usize + 1;
        let cks_tag_start = prev_end as usize + 1;
        let computed = if cks_tag_start >= body_start {
            cks_tag_start - body_start
        } else {
            0
        };
        if computed == declared {
            Ok(())
        } else {
            Err(FixError::InvalidBodyLength)
        }
    }

    /// Structural and numeric validity of the checksum field, as
    /// [`Message::validate_checksum`] checks it.
    pub open spec fn checksum_ok(self) -> bool {
        let es = self.entries();
        let n = es.len() as int;
        &&& n >= 1
        &&& es[n - 1].0 == tag::CHECK_SUM
        &&& spec_parse_checksum(self.value_bytes(n - 1)) is Some
        &&& spec_checksum(self.buf_bytes().take(self.checksum_tag_start()))
            == spec_parse_checksum(self.value_bytes(n - 1))->Some_0
    }

    /// Validate the checksum field.
    ///
    /// The checksum field must be the last field. The modulo-256 sum of
    /// every raw byte from the start of the buffer up to (excluding) the
    /// checksum field's own tag prefix must equal the declared 0–255 decimal
    /// value. Any structural deviation or mismatch fails with
    /// `InvalidCheckSum`.
    pub fn validate_checksum(&self) -> (r: Result<(), FixError>)
        requires
            self.wf(),
        ensures
            r == if self.checksum_ok() {
                Ok::<(), FixError>(())
            } else {
                Err::<(), FixError>(FixError::InvalidCheckSum)
            },
    {
        let n = self.offsets.len();
        if n == 0 {
            return Err(FixError::InvalidCheckSum);
        }
        proof {
            self.lemma_entry_bounds();
        }
        proof {
            assert(self.entries()[n - 1].1 <= self.entries()[n - 1].2 < self.buf@.len());
        }
        let (tag10, cks_value_start, cks_value_end) = *vstd::slice::slice_index_get(
            self.offsets,
            n - 1,
        );
        if tag10 != tag::CHECK_SUM {
            return Err(FixError::InvalidCheckSum);
        }
        let declared = match parse_checksum(
            vstd::slice::slice_subrange(self.buf, cks_value_start as usize, cks_value_end as usize),
        ) {
            Some(d) => d,
            None => {
                return Err(FixError::InvalidCheckSum);
            },
        };
        let cks_tag_start = if n >= 2 {
            proof {
                assert(self.entries()[n - 2].1 <= self.entries()[n - 2].2 < self.buf@.len());
            }
            let (_, _, prev_end) = *vstd::slice::slice_index_get(self.offsets, n - 2);
            prev_end as usize + 1
        } else {
            0
        };
        let computed = compute_checksum(vstd::slice::slice_subrange(self.buf, 0, cks_tag_start));
        proof {
            assert(self.buf@.subrange(0, cks_tag_start as int) =~= self.buf@.take(
                self.checksum_tag_start(),
            ));
        }
        if computed == declared {
            Ok(())
        } else {
            Err(FixError::InvalidCheckSum)
        }
    }
}

/// A manual scan over (tag, value) fields in wire order: the first field
/// whose tag matches, or `None`.
pub open spec fn scan_fields(fields: Seq<(u32, Seq<u8>)>, t: u32) -> Option<(u32, Seq<u8>)>
    decreases fields.len(),
{
    if fields.len() == 0 {
        None
    } else if fields[0].0 == t {
        Some(fields[0])
    } else {
        scan_fields(fields.drop_first(), t)
    }
}

proof fn lemma_scan_fields_from(msg: Message, t: u32, from: int)
    requires
        0 <= from <= msg.entries().len(),
    ensures
        match first_tag_from(msg.entries(), t, from) {
            Some(i) => scan_fields(msg.field_seq().skip(from), t) == Some(
                (t, msg.value_bytes(i)),
            ),
            None => scan_fields(msg.field_seq().skip(from), t) is None,
        },
    decreases msg.entries().len() - from,
{
    let fs = msg.field_seq();
    if from < msg.entries().len() {
        assert(fs.skip(from)[0] == fs[from]);
        assert(fs.skip(from).drop_first() =~= fs.skip(from + 1));
        if msg.entries()[from].0 != t {
            lemma_scan_fields_from(msg, t, from + 1);
        }
    }
}

/// Looking a tag up through the sorted index agrees with a manual scan of
/// the fields in wire order, for every tag — and, since the result is a
/// function of the table and buffer alone, independently of how many
/// lookups came before.
pub proof fn lemma_find_agrees_with_scan(msg: Message, t: u32)
    ensures
        match first_tag_from(msg.entries(), t, 0) {
            Some(i) => scan_fields(msg.field_seq(), t) == Some((t, msg.value_bytes(i))),
            None => scan_fields(msg.field_seq(), t) is None,
        },
{
    lemma_scan_fields_from(msg, t, 0);
    assert(msg.field_seq().skip(0) =~= msg.field_seq());
}

/// The length validator rejects a message whose length field is out of its
/// mandated position — or whose checksum field is — even if the declared
/// value is numerically correct: fewer than 3 fields, a second field other
/// than the length declaration, or a last field other than the checksum
/// all fail, whatever the values.
pub proof fn lemma_body_length_needs_position(msg: Message)
    requires
        msg.entries().len() < 3 || msg.entries()[1].0 != tag::BODY_LENGTH || msg.entries()[
            msg.entries().len() - 1
        ].0 != tag::CHECK_SUM,
    ensures
        !msg.body_length_ok(),
{
}

/// The checksum validator rejects a message whose checksum field is not the
/// last field, even if the declared value is numerically correct.
pub proof fn lemma_checksum_needs_position(msg: Message)
    requires
        msg.entries().len() == 0 || msg.entries()[msg.entries().len() - 1].0 != tag::CHECK_SUM,
    ensures
        !msg.checksum_ok(),
{
}

/// Linear scan for the first entry with the given tag, materializing its
/// field. This is how a group instance looks fields up; the message's own
/// [`Message::find`] goes through the sorted index instead.
pub(crate) fn find_first_in<'a>(
    buf: &'a [u8],
    offsets: &'a [(u32, u32, u32)],
    tag: u32,
) -> (r: Option<Field<'a>>)
    requires
        crate::table::table_wf(offsets@, buf@.len() as int),
    ensures
        match r {
            Some(f) => first_tag_from(offsets@, tag, 0) is Some && f.tag == tag && f.value@
                == buf@.subrange(
                offsets@[first_tag_from(offsets@, tag, 0)->Some_0].1 as int,
                offsets@[first_tag_from(offsets@, tag, 0)->Some_0].2 as int,
            ),
            None => first_tag_from(offsets@, tag, 0) is None,
        },
{
    let n = offsets.len();
    let mut k: usize = 0;
    while k < n
        invariant
            crate::table::table_wf(offsets@, buf@.len() as int),
            n == offsets@.len(),
            0 <= k <= n,
            forall|j: int| 0 <= j < k ==> (#[trigger] offsets@[j]).0 != tag,
        decreases n - k,
    {
        let (t, start, end) = *vstd::slice::slice_index_get(offsets, k);
        if t == tag {
            proof {
                lemma_first_tag_from_of_first(offsets@, tag, 0, k as int);
            }
            return Some(
                Field { tag: t, value: vstd::slice::slice_subrange(buf, start as usize, end as usize) },
            );
        }
        k = k + 1;
    }
    proof {
        lemma_first_tag_from_none(offsets@, tag, 0);
    }
    None
}

} // verus!

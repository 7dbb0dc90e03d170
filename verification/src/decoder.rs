//! The decoder: scans a raw byte buffer left to right into a flat table of
//! `(tag, value_start, value_end)` offsets.

use vstd::prelude::*;
use crate::digits::dec_value;
use crate::error::FixError;
use crate::field::{FIELD_KEY_VALUE_SEPARATOR, FIELD_SEPARATOR};
use crate::message::Message;
use crate::scan::{find_byte_from, find_from, lemma_find_from_none, lemma_find_from_of_first,
    lemma_find_from_spec};
use crate::storage::{offset_entries, OffsetTable};
use crate::tag::{parse_tag, valid_tag_bytes};

verus! {

/// The table that decoding `buf` from byte position `pos` onwards yields:
/// for each field in turn, the first key/value separator delimits the tag,
/// which must be a non-empty run of decimal digits fitting 32 bits, and the
/// first terminator after the separator delimits the value. A missing
/// separator or terminator fails with `IncompleteMessage`, a malformed tag
/// with `InvalidTag`; a position at or past the end yields the empty table.
pub open spec fn spec_decode_from(buf: Seq<u8>, pos: int) -> Result<
    Seq<(u32, u32, u32)>,
    FixError,
>
    decreases buf.len() - pos,
    via spec_decode_from_dec
{
    if pos < 0 || pos >= buf.len() {
        Ok(Seq::empty())
    } else {
        match find_from(buf, FIELD_KEY_VALUE_SEPARATOR, pos) {
            None => Err(FixError::IncompleteMessage),
            Some(eq) => {
                if !valid_tag_bytes(buf.subrange(pos, eq)) {
                    Err(FixError::InvalidTag)
                } else {
                    match find_from(buf, FIELD_SEPARATOR, eq + 1) {
                        None => Err(FixError::IncompleteMessage),
                        Some(soh) => {
                            match spec_decode_from(buf, soh + 1) {
                                Ok(rest) => Ok(
                                    seq![
                                        (
                                            dec_value(buf.subrange(pos, eq)) as u32,
                                            (eq + 1) as u32,
                                            soh as u32,
                                        ),
                                    ] + rest,
                                ),
                                Err(e) => Err(e),
                            }
                        },
                    }
                }
            },
        }
    }
}

#[via_fn]
proof fn spec_decode_from_dec(buf: Seq<u8>, pos: int) {
    if 0 <= pos < buf.len() {
        lemma_find_from_spec(buf, FIELD_KEY_VALUE_SEPARATOR, pos);
        if let Some(eq) = find_from(buf, FIELD_KEY_VALUE_SEPARATOR, pos) {
            lemma_find_from_spec(buf, FIELD_SEPARATOR, eq + 1);
        }
    }
}

/// The table that decoding the whole of `buf` yields, or the error.
pub open spec fn spec_decode(buf: Seq<u8>) -> Result<Seq<(u32, u32, u32)>, FixError> {
    spec_decode_from(buf, 0)
}

/// Every entry of a successful decode points at a value range inside the
/// buffer, past at least one tag digit and the separator.
pub proof fn lemma_decode_entries(buf: Seq<u8>, pos: int, entries: Seq<(u32, u32, u32)>)
    requires
        0 <= pos,
        buf.len() <= u32::MAX,
        spec_decode_from(buf, pos) == Ok::<Seq<(u32, u32, u32)>, FixError>(entries),
    ensures
        forall|k: int|
            0 <= k < entries.len() ==> pos + 2 <= (#[trigger] entries[k]).1
                && entries[k].1 <= entries[k].2 && entries[k].2 < buf.len(),
    decreases buf.len() - pos,
{
    if pos < buf.len() {
        lemma_find_from_spec(buf, FIELD_KEY_VALUE_SEPARATOR, pos);
        if let Some(eq) = find_from(buf, FIELD_KEY_VALUE_SEPARATOR, pos) {
            lemma_find_from_spec(buf, FIELD_SEPARATOR, eq + 1);
            if let Some(soh) = find_from(buf, FIELD_SEPARATOR, eq + 1) {
                if let Ok(rest) = spec_decode_from(buf, soh + 1) {
                    lemma_decode_entries(buf, soh + 1, rest);
                    assert(forall|k: int| 1 <= k < entries.len() ==> entries[k] == rest[k - 1]);
                }
            }
        }
    }
}

/// Where the field at position `k` begins in the buffer: at `pos` for the
/// first field, and right after the previous field's terminator otherwise.
pub open spec fn field_start(pos: int, entries: Seq<(u32, u32, u32)>, k: int) -> int {
    if k == 0 {
        pos
    } else {
        entries[k - 1].2 + 1
    }
}

/// The byte markers of one decoded field: a non-empty digit run worth the
/// entry's tag fills the gap from the field's start to the key/value
/// separator, and the value ends at a terminator.
pub open spec fn entry_marked(buf: Seq<u8>, pos: int, entries: Seq<(u32, u32, u32)>, k: int) -> bool {
    let ts = field_start(pos, entries, k);
    let e = entries[k];
    &&& 0 <= ts < e.1 - 1
    &&& crate::digits::all_digits(buf.subrange(ts, e.1 - 1))
    &&& dec_value(buf.subrange(ts, e.1 - 1)) == e.0
    &&& buf[e.1 - 1] == FIELD_KEY_VALUE_SEPARATOR
    &&& buf[e.2 as int] == FIELD_SEPARATOR
}

/// A successful decode pins the buffer's shape down: every field shows its
/// tag digits, separator and terminator at the recorded offsets, fields are
/// adjacent, and the last terminator is the buffer's last byte.
pub proof fn lemma_decode_markers(buf: Seq<u8>, pos: int, entries: Seq<(u32, u32, u32)>)
    requires
        0 <= pos,
        buf.len() <= u32::MAX,
        spec_decode_from(buf, pos) == Ok::<Seq<(u32, u32, u32)>, FixError>(entries),
    ensures
        entries.len() == 0 ==> pos >= buf.len(),
        entries.len() > 0 ==> entries[entries.len() - 1].2 == buf.len() - 1,
        forall|k: int| 0 <= k < entries.len() ==> entry_marked(buf, pos, entries, k),
    decreases buf.len() - pos,
{
    if pos < buf.len() {
        lemma_find_from_spec(buf, FIELD_KEY_VALUE_SEPARATOR, pos);
        if let Some(eq) = find_from(buf, FIELD_KEY_VALUE_SEPARATOR, pos) {
            lemma_find_from_spec(buf, FIELD_SEPARATOR, eq + 1);
            if let Some(soh) = find_from(buf, FIELD_SEPARATOR, eq + 1) {
                if let Ok(rest) = spec_decode_from(buf, soh + 1) {
                    lemma_decode_markers(buf, soh + 1, rest);
                    lemma_decode_entries(buf, soh + 1, rest);
                    crate::digits::lemma_dec_value_nonneg(buf.subrange(pos, eq));
                    assert(entry_marked(buf, pos, entries, 0));
                    assert forall|k: int| 1 <= k < entries.len() implies entry_marked(
                        buf,
                        pos,
                        entries,
                        k,
                    ) by {
                        assert(entries[k] == rest[k - 1]);
                        assert(entry_marked(buf, soh + 1, rest, k - 1));
                        if k == 1 {
                            assert(field_start(pos, entries, 1) == soh + 1);
                        } else {
                            assert(entries[k - 1] == rest[k - 2]);
                            assert(field_start(pos, entries, k) == field_start(
                                soh + 1,
                                rest,
                                k - 1,
                            ));
                        }
                    }
                    if rest.len() == 0 {
                        assert(entries[entries.len() - 1] == entries[0]);
                        assert(soh == buf.len() - 1) by {
                            if soh + 1 < buf.len() {
                                assert(spec_decode_from(buf, soh + 1) != Ok::<
                                    Seq<(u32, u32, u32)>,
                                    FixError,
                                >(Seq::empty()));
                            }
                        }
                    } else {
                        assert(entries[entries.len() - 1] == rest[rest.len() - 1]);
                    }
                }
            }
        }
    }
}

/// A decoded value can never contain the terminator byte: the value ends at
/// the first terminator found after its separator.
pub proof fn lemma_decode_values_terminator_free(
    buf: Seq<u8>,
    pos: int,
    entries: Seq<(u32, u32, u32)>,
)
    requires
        0 <= pos,
        buf.len() <= u32::MAX,
        spec_decode_from(buf, pos) == Ok::<Seq<(u32, u32, u32)>, FixError>(entries),
    ensures
        forall|k: int, j: int|
            0 <= k < entries.len() && (#[trigger] entries[k]).1 <= j < entries[k].2 ==> #[trigger]
                buf[j] != FIELD_SEPARATOR,
    decreases buf.len() - pos,
{
    if pos < buf.len() {
        lemma_find_from_spec(buf, FIELD_KEY_VALUE_SEPARATOR, pos);
        if let Some(eq) = find_from(buf, FIELD_KEY_VALUE_SEPARATOR, pos) {
            lemma_find_from_spec(buf, FIELD_SEPARATOR, eq + 1);
            if let Some(soh) = find_from(buf, FIELD_SEPARATOR, eq + 1) {
                if let Ok(rest) = spec_decode_from(buf, soh + 1) {
                    lemma_decode_values_terminator_free(buf, soh + 1, rest);
                    assert(forall|k: int| 1 <= k < entries.len() ==> entries[k] == rest[k - 1]);
                }
            }
        }
    }
}

/// Decoding steps over one well-formed block at the current position: a
/// digit-run tag worth at most `u32::MAX`, the separator, a terminator-free
/// value, and the terminator; then it continues past the block.
pub proof fn lemma_decode_block(w: Seq<u8>, p: int, t: Seq<u8>, v: Seq<u8>)
    requires
        0 <= p,
        valid_tag_bytes(t),
        forall|j: int| 0 <= j < v.len() ==> (#[trigger] v[j]) != FIELD_SEPARATOR,
        p + t.len() + v.len() + 2 <= w.len(),
        w.subrange(p, p + t.len() + v.len() + 2) == t + seq![FIELD_KEY_VALUE_SEPARATOR] + v
            + seq![FIELD_SEPARATOR],
    ensures
        ({
            let eq = p + t.len() as int;
            let soh = eq + 1 + v.len() as int;
            spec_decode_from(w, p) == match spec_decode_from(w, soh + 1) {
                Ok(rest) => Ok::<Seq<(u32, u32, u32)>, FixError>(
                    seq![(dec_value(t) as u32, (eq + 1) as u32, soh as u32)] + rest,
                ),
                Err(e) => Err::<Seq<(u32, u32, u32)>, FixError>(e),
            }
        }),
{
    let block = t + seq![FIELD_KEY_VALUE_SEPARATOR] + v + seq![FIELD_SEPARATOR];
    let eq = p + t.len() as int;
    let soh = eq + 1 + v.len() as int;
    assert forall|j: int| p <= j < p + block.len() implies #[trigger] w[j] == block[j - p] by {
        assert(w.subrange(p, p + t.len() + v.len() + 2)[j - p] == w[j]);
    }
    assert forall|j: int| p <= j < eq implies #[trigger] w[j] != FIELD_KEY_VALUE_SEPARATOR by {
        assert(w[j] == block[j - p]);
        assert(block[j - p] == t[j - p]);
        assert(crate::digits::is_digit(t[j - p]));
    }
    assert(w[eq] == block[eq - p] && block[eq - p] == FIELD_KEY_VALUE_SEPARATOR);
    lemma_find_from_of_first(w, FIELD_KEY_VALUE_SEPARATOR, p, eq);
    assert(w.subrange(p, eq) =~= t);
    assert forall|j: int| eq + 1 <= j < soh implies #[trigger] w[j] != FIELD_SEPARATOR by {
        assert(w[j] == block[j - p]);
        assert(block[j - p] == v[j - eq - 1]);
    }
    assert(w[soh] == block[soh - p] && block[soh - p] == FIELD_SEPARATOR);
    lemma_find_from_of_first(w, FIELD_SEPARATOR, eq + 1, soh);
}

/// Decoding a buffer extended past an already well-decoded prefix yields
/// the prefix's entries first, then whatever decoding continues to from the
/// boundary.
pub proof fn lemma_decode_extend(
    buf: Seq<u8>,
    pos: int,
    entries: Seq<(u32, u32, u32)>,
    tail: Seq<u8>,
)
    requires
        0 <= pos <= buf.len(),
        spec_decode_from(buf, pos) == Ok::<Seq<(u32, u32, u32)>, FixError>(entries),
    ensures
        spec_decode_from(buf + tail, pos) == match spec_decode_from(
            buf + tail,
            buf.len() as int,
        ) {
            Ok(more) => Ok::<Seq<(u32, u32, u32)>, FixError>(entries + more),
            Err(e) => Err::<Seq<(u32, u32, u32)>, FixError>(e),
        },
    decreases buf.len() - pos,
{
    let w = buf + tail;
    if pos == buf.len() {
        assert(entries.len() == 0);
        if let Ok(more) = spec_decode_from(w, buf.len() as int) {
            assert(entries + more =~= more);
        }
    } else {
        lemma_find_from_spec(buf, FIELD_KEY_VALUE_SEPARATOR, pos);
        if let Some(eq) = find_from(buf, FIELD_KEY_VALUE_SEPARATOR, pos) {
            assert(forall|j: int| pos <= j < eq ==> w[j] == buf[j]);
            assert(w[eq] == buf[eq]);
            lemma_find_from_of_first(w, FIELD_KEY_VALUE_SEPARATOR, pos, eq);
            assert(w.subrange(pos, eq) =~= buf.subrange(pos, eq));
            lemma_find_from_spec(buf, FIELD_SEPARATOR, eq + 1);
            if let Some(soh) = find_from(buf, FIELD_SEPARATOR, eq + 1) {
                assert(forall|j: int| eq + 1 <= j < soh ==> w[j] == buf[j]);
                assert(w[soh] == buf[soh]);
                lemma_find_from_of_first(w, FIELD_SEPARATOR, eq + 1, soh);
                if let Ok(rest) = spec_decode_from(buf, soh + 1) {
                    lemma_decode_extend(buf, soh + 1, rest, tail);
                    let entry = (
                        dec_value(buf.subrange(pos, eq)) as u32,
                        (eq + 1) as u32,
                        soh as u32,
                    );
                    assert(entries == seq![entry] + rest);
                    if let Ok(more) = spec_decode_from(w, buf.len() as int) {
                        assert((seq![entry] + rest) + more =~= seq![entry] + (rest + more));
                    }
                }
            }
        }
    }
}

/// A buffer cut off in the middle of a field's tag — what follows the last
/// complete field holds no key/value separator — always fails with
/// `IncompleteMessage`, never any other error kind.
pub proof fn lemma_truncated_tag_incomplete(buf: Seq<u8>, frag: Seq<u8>)
    requires
        spec_decode(buf) is Ok,
        frag.len() > 0,
        forall|j: int| 0 <= j < frag.len() ==> (#[trigger] frag[j]) != FIELD_KEY_VALUE_SEPARATOR,
    ensures
        spec_decode(buf + frag) == Err::<Seq<(u32, u32, u32)>, FixError>(
            FixError::IncompleteMessage,
        ),
{
    let w = buf + frag;
    lemma_decode_extend(buf, 0, spec_decode(buf)->Ok_0, frag);
    assert(forall|j: int|
        buf.len() <= j < w.len() ==> (#[trigger] w[j]) == frag[j - buf.len()]
            && w[j] != FIELD_KEY_VALUE_SEPARATOR);
    lemma_find_from_none(w, FIELD_KEY_VALUE_SEPARATOR, buf.len() as int);
}

/// A buffer cut off in the middle of a field's value — the final fragment
/// is a well-formed tag, the separator, and value bytes whose terminator
/// has not arrived yet — always fails with `IncompleteMessage`, never any
/// other error kind.
pub proof fn lemma_truncated_value_incomplete(buf: Seq<u8>, t: Seq<u8>, v: Seq<u8>)
    requires
        spec_decode(buf) is Ok,
        valid_tag_bytes(t),
        forall|j: int| 0 <= j < v.len() ==> (#[trigger] v[j]) != FIELD_SEPARATOR,
    ensures
        spec_decode(buf + (t + seq![FIELD_KEY_VALUE_SEPARATOR] + v)) == Err::<
            Seq<(u32, u32, u32)>,
            FixError,
        >(FixError::IncompleteMessage),
{
    let frag = t + seq![FIELD_KEY_VALUE_SEPARATOR] + v;
    let w = buf + frag;
    lemma_decode_extend(buf, 0, spec_decode(buf)->Ok_0, frag);
    let eq = buf.len() as int + t.len() as int;
    assert(forall|j: int|
        buf.len() <= j < eq ==> (#[trigger] w[j]) == t[j - buf.len()] && crate::digits::is_digit(
            w[j],
        ));
    assert(w[eq as int] == FIELD_KEY_VALUE_SEPARATOR);
    lemma_find_from_of_first(w, FIELD_KEY_VALUE_SEPARATOR, buf.len() as int, eq as int);
    assert(w.subrange(buf.len() as int, eq as int) =~= t);
    assert(forall|j: int|
        eq + 1 <= j < w.len() ==> (#[trigger] w[j]) == v[j - eq - 1] && w[j] != FIELD_SEPARATOR);
    lemma_find_from_none(w, FIELD_SEPARATOR, eq + 1);
}

/// The tag boundary of a single field on its own: a tag whose digits are
/// worth at most `u32::MAX` decodes successfully, whatever the value; one
/// worth more fails with `InvalidTag`.
pub proof fn lemma_tag_boundary(t: Seq<u8>, v: Seq<u8>)
    requires
        t.len() > 0,
        crate::digits::all_digits(t),
        forall|j: int| 0 <= j < v.len() ==> (#[trigger] v[j]) != FIELD_SEPARATOR,
        t.len() + v.len() + 2 <= u32::MAX,
    ensures
        ({
            let buf = t + seq![FIELD_KEY_VALUE_SEPARATOR] + v + seq![FIELD_SEPARATOR];
            if dec_value(t) <= u32::MAX {
                spec_decode(buf) == Ok::<Seq<(u32, u32, u32)>, FixError>(
                    seq![
                        (
                            dec_value(t) as u32,
                            (t.len() + 1) as u32,
                            (t.len() + 1 + v.len()) as u32,
                        ),
                    ],
                )
            } else {
                spec_decode(buf) == Err::<Seq<(u32, u32, u32)>, FixError>(FixError::InvalidTag)
            }
        }),
{
    let buf = t + seq![FIELD_KEY_VALUE_SEPARATOR] + v + seq![FIELD_SEPARATOR];
    let eq = t.len() as int;
    let soh = t.len() as int + 1 + v.len() as int;
    assert(forall|j: int|
        0 <= j < eq ==> (#[trigger] buf[j]) == t[j] && crate::digits::is_digit(buf[j]));
    assert(buf[eq] == FIELD_KEY_VALUE_SEPARATOR);
    lemma_find_from_of_first(buf, FIELD_KEY_VALUE_SEPARATOR, 0, eq);
    assert(buf.subrange(0, eq) =~= t);
    if dec_value(t) <= u32::MAX {
        assert(forall|j: int|
            eq + 1 <= j < soh ==> (#[trigger] buf[j]) == v[j - eq - 1] && buf[j]
                != FIELD_SEPARATOR);
        assert(buf[soh as int] == FIELD_SEPARATOR);
        lemma_find_from_of_first(buf, FIELD_SEPARATOR, eq + 1, soh as int);
        assert(spec_decode_from(buf, soh + 1) == Ok::<Seq<(u32, u32, u32)>, FixError>(
            Seq::empty(),
        ));
        let entry = (dec_value(t) as u32, (t.len() + 1) as u32, (t.len() + 1 + v.len()) as u32);
        assert(seq![entry] + Seq::<(u32, u32, u32)>::empty() =~= seq![entry]);
    }
}

/// A reusable decoder.
///
/// Owns a growable offset table that is cleared — capacity retained, never
/// freed — at the start of every [`Decoder::decode`] call, so steady-state
/// decoding allocates nothing once the table has grown to fit.
pub struct Decoder {
    offsets: OffsetTable,
}

impl Decoder {
    /// The offset entries the internal table currently holds.
    pub closed spec fn view(&self) -> Seq<(u32, u32, u32)> {
        offset_entries(self.offsets)
    }

    /// Create a new decoder with the default inline table capacity.
    pub fn new() -> (r: Decoder)
        ensures
            r@ == Seq::<(u32, u32, u32)>::empty(),
    {
        Decoder { offsets: OffsetTable::new() }
    }

    /// Create a new decoder whose table has room for `capacity` fields.
    pub fn with_capacity(capacity: usize) -> (r: Decoder)
        ensures
            r@ == Seq::<(u32, u32, u32)>::empty(),
    {
        Decoder { offsets: OffsetTable::with_capacity(capacity) }
    }

    /// Decode a raw byte buffer into a [`Message`].
    ///
    /// Clears and reuses the internal offset table. The returned message
    /// borrows both the table and `buf`; drop it before decoding again with
    /// the same decoder.
    ///
    /// Fails with `IncompleteMessage` when a field lacks its key/value
    /// separator or its terminator (buffer more bytes and retry), and with
    /// `InvalidTag` when a tag is empty, holds a non-digit byte, or
    /// overflows 32 bits. A decode failure never leaves a partial table
    /// visible: the error carries no message at all.
    pub fn decode<'a>(&'a mut self, buf: &'a [u8]) -> (r: Result<Message<'a>, FixError>)
        requires
            buf@.len() <= u32::MAX,
        ensures
            match r {
                Ok(msg) => {
                    &&& spec_decode(buf@) == Ok::<Seq<(u32, u32, u32)>, FixError>(msg.entries())
                    &&& msg.buf_bytes() == buf@
                    &&& msg.wf()
                    &&& !msg.index_built()
                },
                Err(e) => spec_decode(buf@) == Err::<Seq<(u32, u32, u32)>, FixError>(e),
            },
    {
        self.offsets.clear();
        let ghost all = buf@;
        let mut pos: usize = 0;
        while pos < buf.len()
            invariant
                all == buf@,
                all.len() <= u32::MAX,
                0 <= pos <= all.len(),
                match spec_decode_from(all, pos as int) {
                    Ok(rest) => spec_decode(all) == Ok::<Seq<(u32, u32, u32)>, FixError>(
                        offset_entries(self.offsets) + rest,
                    ),
                    Err(e) => spec_decode(all) == Err::<Seq<(u32, u32, u32)>, FixError>(e),
                },
            decreases all.len() - pos,
        {
            let eq = match find_byte_from(buf, FIELD_KEY_VALUE_SEPARATOR, pos) {
                Some(eq) => eq,
                None => {
                    return Err(FixError::IncompleteMessage);
                },
            };
            let tag_bytes = vstd::slice::slice_subrange(buf, pos, eq);
            let tag = match parse_tag(tag_bytes) {
                Ok(t) => t,
                Err(e) => {
                    assert(e == FixError::InvalidTag);
                    return Err(e);
                },
            };
            let soh = match find_byte_from(buf, FIELD_SEPARATOR, eq + 1) {
                Some(soh) => soh,
                None => {
                    return Err(FixError::IncompleteMessage);
                },
            };
            let ghost entry = (tag, (eq + 1) as u32, soh as u32);
            let ghost before = offset_entries(self.offsets);
            self.offsets.push((tag, (eq + 1) as u32, soh as u32));
            proof {
                if let Ok(rest2) = spec_decode_from(all, soh + 1) {
                    assert(spec_decode_from(all, pos as int) == Ok::<
                        Seq<(u32, u32, u32)>,
                        FixError,
                    >(seq![entry] + rest2));
                    assert(before + (seq![entry] + rest2) =~= before.push(entry) + rest2);
                }
            }
            pos = soh + 1;
        }
        proof {
            assert(spec_decode_from(all, pos as int) == Ok::<Seq<(u32, u32, u32)>, FixError>(
                Seq::empty(),
            ));
            assert(offset_entries(self.offsets) + Seq::<(u32, u32, u32)>::empty()
                =~= offset_entries(self.offsets));
        }
        let entries = self.offsets.as_slice();
        Ok(Message::new(buf, entries))
    }
}

impl Default for Decoder {
    /// Same as [`Decoder::new`].
    fn default() -> (r: Decoder)
        ensures
            r@ == Seq::<(u32, u32, u32)>::empty(),
    {
        Decoder::new()
    }
}

} // verus!

//! Round-trip laws: how the wire image a message was decoded from relates
//! to the wire image that encoding it emits.

use vstd::prelude::*;
use crate::checksum::{lemma_checksum_range, spec_checksum};
use crate::decoder::{entry_marked, field_start, lemma_decode_block, lemma_decode_entries,
    lemma_decode_markers, lemma_decode_values_terminator_free, spec_decode_from};
use crate::digits::{dec_value, lemma_spec_digits_value, lemma_trim_no_ws, spec_digits};
use crate::encoder::{checksum3, field_block, spec_body, spec_checksum_field, spec_encoded,
    spec_length_field, spec_version};
use crate::error::FixError;
use crate::field::FIELD_SEPARATOR;
use crate::message::Message;
use crate::table::lemma_first_tag_from_of_first;
use crate::tag;

verus! {

/// A message in canonical transmitted form: the version field first, the
/// length declaration second, the checksum field last and nowhere else;
/// every tag written as its canonical decimal digits; and both integrity
/// values correct and canonically rendered — the length as plain digits of
/// the body's byte count, the checksum as three zero-padded digits of the
/// modulo-256 sum of everything before its own tag bytes.
pub open spec fn wire_canonical(m: Message) -> bool {
    let es = m.entries();
    let buf = m.buf_bytes();
    let n = es.len() as int;
    &&& n >= 3
    &&& es[0].0 == tag::BEGIN_STRING
    &&& es[1].0 == tag::BODY_LENGTH
    &&& es[n - 1].0 == tag::CHECK_SUM
    &&& forall|k: int|
        2 <= k < n - 1 ==> (#[trigger] es[k]).0 != tag::BEGIN_STRING && es[k].0
            != tag::BODY_LENGTH && es[k].0 != tag::CHECK_SUM
    &&& forall|k: int|
        0 <= k < n ==> buf.subrange(field_start(0, es, k), (#[trigger] es[k]).1 - 1)
            == spec_digits(es[k].0 as int)
    &&& m.value_bytes(1) == spec_digits(es[n - 2].2 + 1 - (es[1].2 + 1))
    &&& m.value_bytes(n - 1) == checksum3(spec_checksum(buf.take(es[n - 2].2 + 1)))
}

/// One decoded field of a canonical message occupies exactly its own wire
/// block: canonical tag digits, separator, value, terminator.
#[verifier::rlimit(100)]
proof fn lemma_field_block_image(m: Message, j: int)
    requires
        m.wf(),
        wire_canonical(m),
        0 <= j < m.entries().len(),
    ensures
        field_block(m.entries()[j].0, m.value_bytes(j)) == m.buf_bytes().subrange(
            field_start(0, m.entries(), j),
            m.entries()[j].2 + 1,
        ),
        field_start(0, m.entries(), j) < m.entries()[j].1 - 1,
        m.entries()[j].1 <= m.entries()[j].2 < m.buf_bytes().len(),
{
    let es = m.entries();
    let buf = m.buf_bytes();
    let fs = field_start(0, es, j);
    m.lemma_wf_decode();
    lemma_decode_markers(buf, 0, es);
    lemma_decode_entries(buf, 0, es);
    assert(entry_marked(buf, 0, es, j));
    assert(buf.subrange(fs, es[j].1 - 1) == spec_digits(es[j].0 as int));
    assert(field_block(es[j].0, m.value_bytes(j)) =~= buf.subrange(fs, es[j].2 + 1)) by {
        assert(buf[es[j].1 - 1] == 61);
        assert(buf[es[j].2 as int] == 1);
    }
}

/// The body image: the body bytes that encoding emits for the first `k`
/// fields are exactly the buffer bytes between the end of the length field
/// and the start of field `k`.
#[verifier::rlimit(100)]
proof fn lemma_body_image(m: Message, k: int)
    requires
        m.wf(),
        wire_canonical(m),
        2 <= k <= m.entries().len() - 1,
    ensures
        spec_body(m.field_seq().take(k)) == m.buf_bytes().subrange(
            m.entries()[1].2 + 1,
            field_start(0, m.entries(), k),
        ),
        m.entries()[1].2 + 1 <= field_start(0, m.entries(), k) <= m.buf_bytes().len(),
    decreases k,
{
    let es = m.entries();
    let buf = m.buf_bytes();
    let fields = m.field_seq();
    m.lemma_wf_decode();
    lemma_decode_markers(buf, 0, es);
    lemma_decode_entries(buf, 0, es);
    if k == 2 {
        assert(fields.take(2).drop_last() =~= fields.take(1));
        assert(fields.take(1).drop_last() =~= fields.take(0));
        assert(fields.take(2).last() == fields[1] && fields[1].0 == tag::BODY_LENGTH);
        assert(fields.take(1).last() == fields[0] && fields[0].0 == tag::BEGIN_STRING);
        assert(spec_body(fields.take(0)) =~= Seq::<u8>::empty());
        assert(spec_body(fields.take(1)) =~= Seq::<u8>::empty());
        assert(spec_body(fields.take(2)) =~= Seq::<u8>::empty());
        assert(buf.subrange(es[1].2 + 1, es[1].2 + 1) =~= Seq::<u8>::empty());
        assert(entry_marked(buf, 0, es, 2));
    } else {
        lemma_body_image(m, k - 1);
        let j = k - 1;
        let fs = field_start(0, es, j);
        assert(fields.take(k).drop_last() =~= fields.take(j));
        assert(fields.take(k).last() == fields[j]);
        assert(fields[j] == (es[j].0, m.value_bytes(j)));
        assert(spec_body(fields.take(k)) == spec_body(fields.take(j)) + field_block(
            es[j].0,
            m.value_bytes(j),
        ));
        lemma_field_block_image(m, j);
        assert(buf.subrange(es[1].2 + 1, fs) + buf.subrange(fs, es[j].2 + 1) =~= buf.subrange(
            es[1].2 + 1,
            es[j].2 + 1,
        ));
        assert(field_start(0, es, k) == es[j].2 + 1);
    }
}

/// Round trip: encoding a message decoded from a canonical wire image, with
/// both integrity fields auto-computed (the default), reproduces that image
/// byte for byte.
#[verifier::rlimit(100)]
pub proof fn lemma_round_trip(m: Message)
    requires
        m.wf(),
        wire_canonical(m),
    ensures
        spec_encoded(m, false, false) == m.buf_bytes(),
{
    let es = m.entries();
    let buf = m.buf_bytes();
    let fields = m.field_seq();
    let n = es.len() as int;
    m.lemma_wf_decode();
    lemma_decode_markers(buf, 0, es);
    lemma_decode_entries(buf, 0, es);
    assert(spec_digits(8) =~= seq![56u8]);
    assert(spec_digits(9) =~= seq![57u8]);
    assert(spec_digits(10) =~= seq![49u8, 48u8]) by {
        assert(spec_digits(1) =~= seq![49u8]);
        assert(spec_digits(10) == spec_digits(1).push(48u8));
    }

    // The version value is the first field's.
    lemma_first_tag_from_of_first(es, tag::BEGIN_STRING, 0, 0);
    assert(spec_version(m) == m.value_bytes(0));

    // The head is the buffer up to the end of the version field.
    assert(entry_marked(buf, 0, es, 0));
    assert(buf.subrange(0, es[0].1 - 1) == spec_digits(8));
    assert(es[0].1 == 2) by {
        assert(buf.subrange(0, es[0].1 - 1).len() == spec_digits(8).len());
    }
    let head = seq![56u8, 61u8] + spec_version(m) + seq![1u8];
    assert(head =~= buf.take(es[0].2 + 1)) by {
        assert(buf[0] == buf.subrange(0, 1)[0]);
        assert(buf.subrange(0, 1) == spec_digits(8));
        assert(buf[es[0].1 - 1] == 61);
        assert(buf[es[0].2 as int] == 1);
    }

    // The length field is the buffer between the version and body.
    assert(entry_marked(buf, 0, es, 1));
    let fs1 = es[0].2 + 1;
    assert(field_start(0, es, 1) == fs1);
    assert(buf.subrange(fs1, es[1].1 - 1) == spec_digits(9));
    assert(es[1].1 == fs1 + 2) by {
        assert(buf.subrange(fs1, es[1].1 - 1).len() == 1);
    }

    // The body is the buffer between the length field and the checksum
    // field's tag bytes.
    assert(entry_marked(buf, 0, es, n - 1));
    let fsn = field_start(0, es, n - 1);
    assert(fsn == es[n - 2].2 + 1);
    assert(buf.subrange(fsn, es[n - 1].1 - 1) == spec_digits(10));
    assert(es[n - 1].1 == fsn + 3) by {
        assert(buf.subrange(fsn, es[n - 1].1 - 1).len() == 2);
    }
    lemma_body_image(m, n - 1);
    let body = spec_body(fields);
    assert(fields.take(n) =~= fields);
    assert(fields.take(n).drop_last() =~= fields.take(n - 1));
    assert(fields.take(n).last() == fields[n - 1]);
    assert(fields[n - 1].0 == tag::CHECK_SUM);
    assert(body == spec_body(fields.take(n - 1)));
    assert(body == buf.subrange(es[1].2 + 1, fsn));
    assert(body.len() == fsn - (es[1].2 + 1));

    // Assemble the prefix before the checksum field.
    let lenf = spec_length_field(m, false, body.len() as int);
    assert(lenf =~= buf.subrange(fs1, es[1].2 + 1)) by {
        assert(m.value_bytes(1) == spec_digits(body.len() as int));
        assert(buf[fs1] == buf.subrange(fs1, es[1].1 - 1)[0]);
        assert(buf[es[1].1 - 1] == 61);
        assert(buf[es[1].2 as int] == 1);
    }
    let pre = head + lenf + body;
    assert(pre =~= buf.take(fsn));

    // The checksum field closes the buffer.
    let cksf = spec_checksum_field(m, false, pre);
    assert(es[n - 1].2 == buf.len() - 1);
    assert(cksf =~= buf.subrange(fsn, buf.len() as int)) by {
        assert(m.value_bytes(n - 1) == checksum3(spec_checksum(buf.take(fsn))));
        assert(buf[fsn] == buf.subrange(fsn, es[n - 1].1 - 1)[0]);
        assert(buf[fsn + 1] == buf.subrange(fsn, es[n - 1].1 - 1)[1]);
        assert(buf[es[n - 1].1 - 1] == 61);
        assert(buf[es[n - 1].2 as int] == 1);
    }
    assert(spec_encoded(m, false, false) == pre + cksf);
    assert(pre + cksf =~= buf);
}

/// The wire bytes of a run of (tag, value) fields, one block each, in
/// order.
pub open spec fn blocks_bytes(fs: Seq<(u32, Seq<u8>)>) -> Seq<u8>
    decreases fs.len(),
{
    if fs.len() == 0 {
        Seq::empty()
    } else {
        field_block(fs.first().0, fs.first().1) + blocks_bytes(fs.drop_first())
    }
}

/// The offset entries that decoding such a run placed at position `p`
/// yields.
pub open spec fn blocks_entries(fs: Seq<(u32, Seq<u8>)>, p: int) -> Seq<(u32, u32, u32)>
    decreases fs.len(),
{
    if fs.len() == 0 {
        Seq::empty()
    } else {
        let dl = spec_digits(fs.first().0 as int).len() as int;
        let l = field_block(fs.first().0, fs.first().1).len() as int;
        seq![(fs.first().0, (p + dl + 1) as u32, (p + l - 1) as u32)] + blocks_entries(
            fs.drop_first(),
            p + l,
        )
    }
}

proof fn lemma_blocks_bytes_push(fs: Seq<(u32, Seq<u8>)>, f: (u32, Seq<u8>))
    ensures
        blocks_bytes(fs.push(f)) == blocks_bytes(fs) + field_block(f.0, f.1),
    decreases fs.len(),
{
    if fs.len() == 0 {
        assert(fs.push(f).first() == f);
        assert(fs.push(f).drop_first() =~= Seq::<(u32, Seq<u8>)>::empty());
        assert(blocks_bytes(Seq::<(u32, Seq<u8>)>::empty()) == Seq::<u8>::empty());
        assert(blocks_bytes(fs.push(f)) == field_block(f.0, f.1) + Seq::<u8>::empty());
        assert(blocks_bytes(fs.push(f)) =~= blocks_bytes(fs) + field_block(f.0, f.1));
    } else {
        assert(fs.push(f).first() == fs.first());
        assert(fs.push(f).drop_first() =~= fs.drop_first().push(f));
        lemma_blocks_bytes_push(fs.drop_first(), f);
        assert(field_block(fs.first().0, fs.first().1) + (blocks_bytes(fs.drop_first())
            + field_block(f.0, f.1)) =~= (field_block(fs.first().0, fs.first().1) + blocks_bytes(
            fs.drop_first(),
        )) + field_block(f.0, f.1));
    }
}

proof fn lemma_blocks_bytes_concat(a: Seq<(u32, Seq<u8>)>, b: Seq<(u32, Seq<u8>)>)
    ensures
        blocks_bytes(a + b) == blocks_bytes(a) + blocks_bytes(b),
    decreases a.len(),
{
    if a.len() == 0 {
        assert(a + b =~= b);
        assert(blocks_bytes(a) + blocks_bytes(b) =~= blocks_bytes(b));
    } else {
        assert((a + b).first() == a.first());
        assert((a + b).drop_first() =~= a.drop_first() + b);
        lemma_blocks_bytes_concat(a.drop_first(), b);
        assert(field_block(a.first().0, a.first().1) + (blocks_bytes(a.drop_first())
            + blocks_bytes(b)) =~= (field_block(a.first().0, a.first().1) + blocks_bytes(
            a.drop_first(),
        )) + blocks_bytes(b));
    }
}

/// The body fields of a message: every field except version, length and
/// checksum, in order.
pub open spec fn body_fields(fs: Seq<(u32, Seq<u8>)>) -> Seq<(u32, Seq<u8>)>
    decreases fs.len(),
{
    if fs.len() == 0 {
        Seq::empty()
    } else {
        let rest = body_fields(fs.drop_last());
        if fs.last().0 == tag::BEGIN_STRING || fs.last().0 == tag::BODY_LENGTH || fs.last().0
            == tag::CHECK_SUM {
            rest
        } else {
            rest.push(fs.last())
        }
    }
}

proof fn lemma_spec_body_blocks(fs: Seq<(u32, Seq<u8>)>)
    ensures
        spec_body(fs) == blocks_bytes(body_fields(fs)),
    decreases fs.len(),
{
    if fs.len() == 0 {
        assert(spec_body(fs) =~= blocks_bytes(body_fields(fs)));
    } else {
        lemma_spec_body_blocks(fs.drop_last());
        if !(fs.last().0 == tag::BEGIN_STRING || fs.last().0 == tag::BODY_LENGTH || fs.last().0
            == tag::CHECK_SUM) {
            lemma_blocks_bytes_push(body_fields(fs.drop_last()), fs.last());
        } else {
            assert(spec_body(fs) =~= spec_body(fs.drop_last()));
        }
    }
}

proof fn lemma_body_fields_props(fs: Seq<(u32, Seq<u8>)>)
    ensures
        forall|j: int|
            0 <= j < body_fields(fs).len() ==> (#[trigger] body_fields(fs)[j]).0
                != tag::BEGIN_STRING && body_fields(fs)[j].0 != tag::BODY_LENGTH && body_fields(
                fs,
            )[j].0 != tag::CHECK_SUM && exists|i: int|
                0 <= i < fs.len() && body_fields(fs)[j] == fs[i],
    decreases fs.len(),
{
    if fs.len() > 0 {
        lemma_body_fields_props(fs.drop_last());
        let bf = body_fields(fs);
        let rest = body_fields(fs.drop_last());
        assert forall|j: int|
            0 <= j < bf.len() implies (#[trigger] bf[j]).0 != tag::BEGIN_STRING && bf[j].0
            != tag::BODY_LENGTH && bf[j].0 != tag::CHECK_SUM && exists|i: int|
            0 <= i < fs.len() && bf[j] == fs[i] by {
            if j < rest.len() {
                assert(bf[j] == rest[j]);
                let i = choose|i: int| 0 <= i < fs.drop_last().len() && rest[j] == fs.drop_last()[
                    i
                ];
                assert(fs.drop_last()[i] == fs[i]);
                assert(0 <= i < fs.len() && bf[j] == fs[i]);
            } else {
                assert(bf[j] == fs.last());
                assert(0 <= fs.len() - 1 < fs.len() && bf[j] == fs[fs.len() - 1]);
            }
        }
    }
}

/// What one decoded block of such a run looks like: the entry carries the
/// block's tag, the buffer shows the tag's canonical digits right before
/// the separator, the value bytes verbatim, and the blocks are adjacent.
pub open spec fn block_entry_ok(w: Seq<u8>, p: int, fs: Seq<(u32, Seq<u8>)>, k: int) -> bool {
    let es = blocks_entries(fs, p);
    &&& es[k].0 == fs[k].0
    &&& field_start(p, es, k) == p + blocks_bytes(fs.take(k)).len()
    &&& w.subrange(field_start(p, es, k), es[k].1 - 1) == spec_digits(fs[k].0 as int)
    &&& w.subrange(es[k].1 as int, es[k].2 as int) == fs[k].1
}

/// Decoding a run of well-formed blocks yields one entry per block, in
/// order, each at its block's position.
#[verifier::rlimit(100)]
proof fn lemma_decode_blocks(w: Seq<u8>, p: int, fs: Seq<(u32, Seq<u8>)>)
    requires
        0 <= p <= w.len(),
        w.len() <= u32::MAX,
        w.subrange(p, w.len() as int) == blocks_bytes(fs),
        forall|i: int, j: int|
            0 <= i < fs.len() && 0 <= j < fs[i].1.len() ==> #[trigger] fs[i].1[j]
                != FIELD_SEPARATOR,
    ensures
        spec_decode_from(w, p) == Ok::<Seq<(u32, u32, u32)>, FixError>(blocks_entries(fs, p)),
        blocks_entries(fs, p).len() == fs.len(),
        forall|k: int| 0 <= k < fs.len() ==> block_entry_ok(w, p, fs, k),
    decreases fs.len(),
{
    let es = blocks_entries(fs, p);
    if fs.len() == 0 {
        assert(w.subrange(p, w.len() as int).len() == 0);
        assert(p == w.len());
    } else {
        let f0 = fs.first();
        let t = spec_digits(f0.0 as int);
        let v = f0.1;
        lemma_spec_digits_value(f0.0 as int);
        let block = field_block(f0.0, v);
        let l = block.len() as int;
        assert(l == t.len() + v.len() + 2);
        assert(blocks_bytes(fs) == block + blocks_bytes(fs.drop_first()));
        assert(w.subrange(p, w.len() as int).len() == w.len() - p);
        assert(w.len() - p == l + blocks_bytes(fs.drop_first()).len());
        assert forall|i: int| 0 <= i < l implies #[trigger] block[i] == w[p + i] by {
            assert(w.subrange(p, w.len() as int)[i] == w[p + i]);
            assert(blocks_bytes(fs)[i] == block[i]);
        }
        assert(w.subrange(p, p + l) =~= t + seq![61u8] + v + seq![1u8]) by {
            assert(block =~= t + seq![61u8] + v + seq![1u8]);
        }
        assert(forall|j: int| 0 <= j < v.len() ==> fs[0].1[j] != FIELD_SEPARATOR);
        assert(v == fs[0].1);
        lemma_decode_block(w, p, t, v);
        let rest = fs.drop_first();
        assert(w.subrange(p + l, w.len() as int) =~= blocks_bytes(rest)) by {
            assert(forall|i: int|
                0 <= i < w.len() - p - l ==> #[trigger] w.subrange(p + l, w.len() as int)[i]
                    == w.subrange(p, w.len() as int)[l + i]);
        }
        assert(forall|i: int, j: int|
            0 <= i < rest.len() && 0 <= j < rest[i].1.len() ==> #[trigger] rest[i].1[j]
                != FIELD_SEPARATOR) by {
            assert(forall|i: int| 0 <= i < rest.len() ==> rest[i] == fs[i + 1]);
        }
        lemma_decode_blocks(w, p + l, rest);
        let rest_es = blocks_entries(rest, p + l);
        let entry0 = (f0.0, (p + t.len() + 1) as u32, (p + l - 1) as u32);
        assert(es == seq![entry0] + rest_es);
        assert(spec_decode_from(w, p) == Ok::<Seq<(u32, u32, u32)>, FixError>(es)) by {
            assert(dec_value(t) == f0.0);
        }
        assert forall|k: int| 0 <= k < fs.len() implies block_entry_ok(w, p, fs, k) by {
            if k == 0 {
                assert(es[0] == entry0);
                assert(es[0].1 == p + t.len() + 1);
                assert(es[0].2 == p + l - 1);
                assert(field_start(p, es, 0) == p);
                assert(fs.take(0) =~= Seq::<(u32, Seq<u8>)>::empty());
                assert(blocks_bytes(fs.take(0)).len() == 0);
                assert(w.subrange(p, p + t.len() as int) =~= t) by {
                    assert(forall|i: int| 0 <= i < t.len() ==> #[trigger] w[p + i] == block[i]);
                }
                assert forall|i: int|
                    0 <= i < v.len() implies #[trigger] w.subrange(
                    es[0].1 as int,
                    es[0].2 as int,
                )[i] == v[i] by {
                    assert(w.subrange(es[0].1 as int, es[0].2 as int)[i] == w[p + t.len() + 1 + i]);
                    assert(block[t.len() + 1 + i] == w[p + (t.len() + 1 + i)]);
                    assert(block[t.len() + 1 + i] == v[i]);
                }
                assert(w.subrange(es[0].1 as int, es[0].2 as int).len() == v.len());
                assert(w.subrange(es[0].1 as int, es[0].2 as int) =~= v);
            } else {
                assert(block_entry_ok(w, p + l, rest, k - 1));
                assert(es[k] == rest_es[k - 1]);
                assert(rest[k - 1] == fs[k]);
                if k == 1 {
                    assert(field_start(p, es, 1) == es[0].2 + 1);
                    assert(es[0].2 + 1 == p + l);
                    assert(field_start(p + l, rest_es, 0) == p + l);
                } else {
                    assert(es[k - 1] == rest_es[k - 2]);
                    assert(field_start(p, es, k) == field_start(p + l, rest_es, k - 1));
                }
                assert(blocks_bytes(fs.take(k)).len() == l + blocks_bytes(
                    rest.take(k - 1),
                ).len()) by {
                    assert(fs.take(k).first() == f0);
                    assert(fs.take(k).drop_first() =~= rest.take(k - 1));
                    lemma_blocks_bytes_concat(seq![f0], rest.take(k - 1));
                    assert(fs.take(k) =~= seq![f0] + rest.take(k - 1));
                    assert(blocks_bytes(seq![f0]) =~= block) by {
                        assert(seq![f0].first() == f0);
                        assert(seq![f0].drop_first() =~= Seq::<(u32, Seq<u8>)>::empty());
                        assert(blocks_bytes(Seq::<(u32, Seq<u8>)>::empty()) == Seq::<u8>::empty());
                        assert(blocks_bytes(seq![f0]) == field_block(f0.0, f0.1) + Seq::<
                            u8,
                        >::empty());
                    }
                }
            }
        }
    }
}

/// A rendered checksum is three digits worth exactly the value rendered.
proof fn lemma_checksum3_props(c: int)
    requires
        0 <= c < 256,
    ensures
        checksum3(c).len() == 3,
        crate::digits::all_digits(checksum3(c)),
        dec_value(checksum3(c)) == c,
{
    let ck = checksum3(c);
    assert(c / 100 <= 2 && c / 100 >= 0);
    assert(0 <= (c / 10) % 10 <= 9);
    assert(0 <= c % 10 <= 9);
    assert(ck[0] == (48 + c / 100) as u8);
    assert(ck[1] == (48 + (c / 10) % 10) as u8);
    assert(ck[2] == (48 + c % 10) as u8);
    assert(ck.drop_last() =~= seq![ck[0], ck[1]]);
    assert(ck.drop_last().drop_last() =~= seq![ck[0]]);
    assert(seq![ck[0]].drop_last() =~= Seq::<u8>::empty());
    assert(dec_value(Seq::<u8>::empty()) == 0);
    assert(seq![ck[0]].last() == ck[0]);
    assert(dec_value(seq![ck[0]]) == c / 100);
    assert(dec_value(seq![ck[0], ck[1]]) == (c / 100) * 10 + (c / 10) % 10);
    assert(dec_value(ck) == ((c / 100) * 10 + (c / 10) % 10) * 10 + c % 10);
    assert(((c / 100) * 10 + (c / 10) % 10) * 10 + c % 10 == c) by (nonlinear_arith)
        requires
            0 <= c < 256,
    ;
}

/// Idempotent re-encode: the output of encoding with both integrity fields
/// auto-computed (the default) is itself canonical. A message decoded from
/// it carries internally valid length and checksum fields — whatever the
/// first message declared — and encoding it again yields the identical
/// bytes.
#[verifier::rlimit(100)]
pub proof fn lemma_reencode_idempotent(m1: Message, m2: Message)
    requires
        m1.wf(),
        m2.wf(),
        m2.buf_bytes() == spec_encoded(m1, false, false),
    ensures
        spec_encoded(m2, false, false) == spec_encoded(m1, false, false),
        m2.body_length_ok(),
        m2.checksum_ok(),
{
    let out = spec_encoded(m1, false, false);
    let fields1 = m1.field_seq();
    let body = spec_body(fields1);
    let ver = spec_version(m1);
    let ld = spec_digits(body.len() as int);
    let head = seq![56u8, 61u8] + ver + seq![1u8];
    let lenf = spec_length_field(m1, false, body.len() as int);
    let pre = head + lenf + body;
    let c = spec_checksum(pre);
    let ck = checksum3(c);
    let cksf = spec_checksum_field(m1, false, pre);
    let bf = body_fields(fields1);
    let e8 = (tag::BEGIN_STRING, ver);
    let e9 = (tag::BODY_LENGTH, ld);
    let e10 = (tag::CHECK_SUM, ck);
    let fs_out = seq![e8, e9] + bf + seq![e10];
    let n = fs_out.len() as int;
    lemma_checksum_range(pre);
    lemma_checksum3_props(c);
    lemma_spec_digits_value(body.len() as int);
    lemma_spec_body_blocks(fields1);
    lemma_body_fields_props(fields1);
    m1.lemma_wf_decode();
    lemma_decode_entries(m1.buf_bytes(), 0, m1.entries());
    lemma_decode_values_terminator_free(m1.buf_bytes(), 0, m1.entries());
    assert(spec_digits(8) =~= seq![56u8]);
    assert(spec_digits(9) =~= seq![57u8]);
    assert(spec_digits(10) =~= seq![49u8, 48u8]) by {
        assert(spec_digits(1) =~= seq![49u8]);
        assert(spec_digits(10) == spec_digits(1).push(48u8));
    }

    // The output is a run of blocks: version, length, body fields, checksum.
    assert(blocks_bytes(seq![e10]) =~= field_block(tag::CHECK_SUM, ck)) by {
        assert(seq![e10].first() == e10);
        assert(seq![e10].drop_first() =~= Seq::<(u32, Seq<u8>)>::empty());
        assert(blocks_bytes(Seq::<(u32, Seq<u8>)>::empty()) == Seq::<u8>::empty());
    }
    assert(blocks_bytes(seq![e8, e9]) =~= field_block(tag::BEGIN_STRING, ver) + field_block(
        tag::BODY_LENGTH,
        ld,
    )) by {
        assert(seq![e8, e9].first() == e8);
        assert(seq![e8, e9].drop_first() =~= seq![e9]);
        assert(blocks_bytes(seq![e9]) == field_block(tag::BODY_LENGTH, ld) + blocks_bytes(
            Seq::<(u32, Seq<u8>)>::empty(),
        )) by {
            assert(seq![e9].first() == e9);
            assert(seq![e9].drop_first() =~= Seq::<(u32, Seq<u8>)>::empty());
        }
        assert(blocks_bytes(Seq::<(u32, Seq<u8>)>::empty()) == Seq::<u8>::empty());
    }
    lemma_blocks_bytes_concat(seq![e8, e9], bf);
    lemma_blocks_bytes_concat(seq![e8, e9] + bf, seq![e10]);
    assert(field_block(tag::BEGIN_STRING, ver) =~= head);
    assert(field_block(tag::BODY_LENGTH, ld) =~= lenf);
    assert(field_block(tag::CHECK_SUM, ck) =~= cksf);
    assert(out =~= blocks_bytes(fs_out));

    // No value in the run holds a terminator byte.
    assert forall|i: int, j: int|
        0 <= i < fs_out.len() && 0 <= j < fs_out[i].1.len() implies #[trigger] fs_out[i].1[j]
        != FIELD_SEPARATOR by {
        if i == 0 {
            assert(fs_out[0] == e8);
            match crate::table::first_tag_from(m1.entries(), tag::BEGIN_STRING, 0) {
                Some(ix) => {
                    crate::table::lemma_first_tag_from_spec(m1.entries(), tag::BEGIN_STRING, 0);
                    assert(ver == m1.value_bytes(ix));
                    assert(ver[j] == m1.buf_bytes()[m1.entries()[ix].1 + j]);
                    assert(m1.buf_bytes()[m1.entries()[ix].1 + j] != FIELD_SEPARATOR);
                },
                None => {
                    assert(ver == crate::field::fix44_label());
                    assert(ver[j] != FIELD_SEPARATOR);
                },
            }
        } else if i == 1 {
            assert(fs_out[1] == e9);
            assert(crate::digits::is_digit(ld[j]));
        } else if i == n - 1 {
            assert(fs_out[n - 1] == e10);
            assert(crate::digits::is_digit(ck[j]));
        } else {
            assert(fs_out[i] == bf[i - 2]);
            let w = choose|w: int| 0 <= w < fields1.len() && bf[i - 2] == fields1[w];
            assert(fields1[w] == (m1.entries()[w].0, m1.value_bytes(w)));
            assert(fs_out[i].1[j] == m1.buf_bytes()[m1.entries()[w].1 + j]);
            assert(m1.buf_bytes()[m1.entries()[w].1 + j] != FIELD_SEPARATOR);
        }
    }

    // The decoded table of the output is one entry per block.
    m2.lemma_wf_decode();
    assert(out.subrange(0, out.len() as int) =~= blocks_bytes(fs_out));
    lemma_decode_blocks(out, 0, fs_out);
    let es2 = m2.entries();
    assert(es2 == blocks_entries(fs_out, 0));
    assert(es2.len() == n);
    lemma_decode_entries(out, 0, es2);
    lemma_decode_markers(out, 0, es2);

    // Canonical form of the output.
    assert(fs_out[0] == e8 && fs_out[1] == e9 && fs_out[n - 1] == e10);
    assert(block_entry_ok(out, 0, fs_out, 0));
    assert(block_entry_ok(out, 0, fs_out, 1));
    assert(block_entry_ok(out, 0, fs_out, 2));
    assert(block_entry_ok(out, 0, fs_out, n - 1));
    assert(es2[0].0 == tag::BEGIN_STRING && es2[1].0 == tag::BODY_LENGTH && es2[n - 1].0
        == tag::CHECK_SUM);
    assert forall|k: int|
        2 <= k < n - 1 implies (#[trigger] es2[k]).0 != tag::BEGIN_STRING && es2[k].0
        != tag::BODY_LENGTH && es2[k].0 != tag::CHECK_SUM by {
        assert(block_entry_ok(out, 0, fs_out, k));
        assert(fs_out[k] == bf[k - 2]);
    }
    assert(fs_out.take(2) =~= seq![e8, e9]);
    assert(fs_out.take(n - 1) =~= seq![e8, e9] + bf);
    assert(es2[1].2 + 1 == field_start(0, es2, 2));
    assert(field_start(0, es2, 2) == blocks_bytes(fs_out.take(2)).len());
    assert(blocks_bytes(fs_out.take(2)) == head + lenf);
    let fsn = field_start(0, es2, n - 1);
    assert(fsn == blocks_bytes(fs_out.take(n - 1)).len());
    assert(blocks_bytes(fs_out.take(n - 1)) == (head + lenf) + body);
    assert(fsn == pre.len());
    assert(out.subrange(fsn, es2[n - 1].1 - 1) == spec_digits(10));
    assert(entry_marked(out, 0, es2, n - 1));
    assert(es2[n - 1].1 == fsn + 3) by {
        assert(out.subrange(fsn, es2[n - 1].1 - 1).len() == 2);
    }
    assert(m2.value_bytes(1) == ld) by {
        assert(block_entry_ok(out, 0, fs_out, 1));
    }
    assert(m2.value_bytes(n - 1) == ck) by {
        assert(block_entry_ok(out, 0, fs_out, n - 1));
    }
    assert(fsn == es2[n - 2].2 + 1);
    assert(fsn - (es2[1].2 + 1) == body.len());
    assert(out.take(fsn) =~= pre);
    assert(wire_canonical(m2)) by {
        assert forall|k: int|
            0 <= k < n implies out.subrange(field_start(0, es2, k), (#[trigger] es2[k]).1 - 1)
            == spec_digits(es2[k].0 as int) by {
            assert(block_entry_ok(out, 0, fs_out, k));
        }
    }
    lemma_round_trip(m2);

    // The freshly computed integrity fields validate.
    lemma_trim_no_ws(ld);
    lemma_trim_no_ws(ck);
    assert(body.len() <= out.len());
    assert(m2.body_length_ok()) by {
        assert(crate::body_length::spec_parse_body_length(ld) == Some(body.len() as usize));
    }
    assert(m2.checksum_ok()) by {
        assert(crate::checksum::spec_parse_checksum(ck) == Some(c as u8));
        assert(m2.checksum_tag_start() == fsn);
        assert(spec_checksum(out.take(fsn)) == c);
    }
}

} // verus!

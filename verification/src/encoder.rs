//! The encoder: renders a message's fields back to wire bytes. The version
//! field comes first (a fixed default when the message has none), then the
//! length-declaration field, the body, and the checksum field. Length and
//! checksum are freshly computed by default; either can be switched to
//! verbatim pass-through of the message's own value — intentionally even a
//! wrong one — or omitted when the message has none.

use vstd::prelude::*;
use crate::checksum::{compute_checksum, lemma_checksum_range, spec_checksum};
use crate::digits::{push_decimal, spec_digits};
use crate::error::FixError;
use crate::field::fix44_label;
use crate::message::Message;
use crate::storage::{byte_entries, ByteBuf};
use crate::table::first_tag_from;
use crate::tag;

verus! {

/// The wire rendering of one field: the tag's canonical decimal digits, the
/// key/value separator, the raw value bytes, and the terminator.
pub open spec fn field_block(t: u32, v: Seq<u8>) -> Seq<u8> {
    spec_digits(t as int) + seq![61u8] + v + seq![1u8]
}

/// The body bytes: every field except the version, length and checksum
/// fields, each rendered as its wire block, in the message's field order.
pub open spec fn spec_body(fields: Seq<(u32, Seq<u8>)>) -> Seq<u8>
    decreases fields.len(),
{
    if fields.len() == 0 {
        Seq::empty()
    } else {
        spec_body(fields.drop_last()) + (if fields.last().0 == tag::BEGIN_STRING
            || fields.last().0 == tag::BODY_LENGTH || fields.last().0 == tag::CHECK_SUM {
            Seq::empty()
        } else {
            field_block(fields.last().0, fields.last().1)
        })
    }
}

/// The version value the output starts with: the message's own
/// version-identifier field, or the fixed default when it has none.
pub open spec fn spec_version(msg: Message) -> Seq<u8> {
    match first_tag_from(msg.entries(), tag::BEGIN_STRING, 0) {
        Some(i) => msg.value_bytes(i),
        None => fix44_label(),
    }
}

/// The length-declaration field of the output: freshly computed from the
/// body's byte count by default; with auto-calculation disabled, the
/// message's own value verbatim, or nothing when the message has none.
pub open spec fn spec_length_field(msg: Message, disabled: bool, body_len: int) -> Seq<u8> {
    if !disabled {
        seq![57u8, 61u8] + spec_digits(body_len) + seq![1u8]
    } else {
        match first_tag_from(msg.entries(), tag::BODY_LENGTH, 0) {
            Some(i) => seq![57u8, 61u8] + msg.value_bytes(i) + seq![1u8],
            None => Seq::empty(),
        }
    }
}

/// A checksum value rendered as exactly three zero-padded decimal digits.
pub open spec fn checksum3(c: int) -> Seq<u8> {
    seq![(48 + c / 100) as u8, (48 + (c / 10) % 10) as u8, (48 + c % 10) as u8]
}

/// The checksum field of the output: freshly computed over every byte
/// written so far by default; with auto-calculation disabled, the message's
/// own value verbatim, or nothing when the message has none.
pub open spec fn spec_checksum_field(msg: Message, disabled: bool, prefix: Seq<u8>) -> Seq<u8> {
    if !disabled {
        seq![49u8, 48u8, 61u8] + checksum3(spec_checksum(prefix)) + seq![1u8]
    } else {
        match first_tag_from(msg.entries(), tag::CHECK_SUM, 0) {
            Some(i) => seq![49u8, 48u8, 61u8] + msg.value_bytes(i) + seq![1u8],
            None => Seq::empty(),
        }
    }
}

/// The complete wire image that encoding `msg` emits, given the two
/// auto-calculation switches.
pub open spec fn spec_encoded(msg: Message, len_disabled: bool, cks_disabled: bool) -> Seq<u8> {
    let head = seq![56u8, 61u8] + spec_version(msg) + seq![1u8];
    let body = spec_body(msg.field_seq());
    let pre = head + spec_length_field(msg, len_disabled, body.len() as int) + body;
    pre + spec_checksum_field(msg, cks_disabled, pre)
}

/// A reusable encoder.
///
/// Owns a growable body scratch buffer that is cleared — capacity retained,
/// never freed — at the start of every [`Encoder::encode`] call.
pub struct Encoder {
    body: ByteBuf,
    /// When set, the length field is not computed; the message's own value
    /// is passed through verbatim, or omitted when absent.
    disable_auto_calculate_body_length: bool,
    /// When set, the checksum field is not computed; the message's own value
    /// is passed through verbatim, or omitted when absent.
    disable_auto_calculate_checksum: bool,
}

impl Encoder {
    /// Whether length-field auto-calculation is switched off.
    pub closed spec fn body_length_disabled(self) -> bool {
        self.disable_auto_calculate_body_length
    }

    /// Whether checksum-field auto-calculation is switched off.
    pub closed spec fn checksum_disabled(self) -> bool {
        self.disable_auto_calculate_checksum
    }

    /// Create a new encoder with the default inline body-buffer capacity.
    /// Both integrity fields start out auto-computed.
    pub fn new() -> (r: Encoder)
        ensures
            !r.body_length_disabled(),
            !r.checksum_disabled(),
    {
        Encoder {
            body: ByteBuf::new(),
            disable_auto_calculate_body_length: false,
            disable_auto_calculate_checksum: false,
        }
    }

    /// Create a new encoder whose body buffer has room for `capacity` bytes.
    pub fn with_capacity(capacity: usize) -> (r: Encoder)
        ensures
            !r.body_length_disabled(),
            !r.checksum_disabled(),
    {
        Encoder {
            body: ByteBuf::with_capacity(capacity),
            disable_auto_calculate_body_length: false,
            disable_auto_calculate_checksum: false,
        }
    }

    /// Switch length-field auto-calculation off (`true`) or back on
    /// (`false`, the default). While off, the message's own length value is
    /// written as-is when present — even a wrong one — and omitted when
    /// absent.
    pub fn disable_auto_calculate_body_length(&mut self, disable: bool)
        ensures
            final(self).body_length_disabled() == disable,
            final(self).checksum_disabled() == old(self).checksum_disabled(),
    {
        self.disable_auto_calculate_body_length = disable;
    }

    /// Switch checksum-field auto-calculation off (`true`) or back on
    /// (`false`, the default). While off, the message's own checksum value
    /// is written as-is when present — even a wrong one — and omitted when
    /// absent.
    pub fn disable_auto_calculate_checksum(&mut self, disable: bool)
        ensures
            final(self).checksum_disabled() == disable,
            final(self).body_length_disabled() == old(self).body_length_disabled(),
    {
        self.disable_auto_calculate_checksum = disable;
    }

    /// Encode `msg` as a complete wire message into `out`, which is cleared
    /// first. The output is the version field, the length field, the body
    /// (every field but version, length and checksum, in the message's
    /// order), and the checksum field, with the two integrity fields
    /// computed or passed through as the switches direct.
    #[verifier::rlimit(100)]
    pub fn encode(&mut self, msg: &Message<'_>, out: &mut Vec<u8>) -> (r: Result<(), FixError>)
        requires
            msg.wf(),
        ensures
            r is Ok,
            final(out)@ == spec_encoded(
                *msg,
                old(self).body_length_disabled(),
                old(self).checksum_disabled(),
            ),
            final(self).body_length_disabled() == old(self).body_length_disabled(),
            final(self).checksum_disabled() == old(self).checksum_disabled(),
    {
        let ghost fields = msg.field_seq();
        // Build the body into the reusable scratch buffer.
        self.body.clear();
        let n = msg.len();
        let mut k: usize = 0;
        while k < n
            invariant
                msg.wf(),
                fields == msg.field_seq(),
                n == fields.len(),
                0 <= k <= n,
                byte_entries(self.body) == spec_body(fields.take(k as int)),
                self.disable_auto_calculate_body_length == old(
                    self,
                ).disable_auto_calculate_body_length,
                self.disable_auto_calculate_checksum == old(self).disable_auto_calculate_checksum,
            decreases n - k,
        {
            let f = msg.field(k);
            proof {
                assert(fields[k as int] == (msg.entries()[k as int].0, msg.value_bytes(k as int)));
                assert(fields.take(k + 1).drop_last() =~= fields.take(k as int));
                assert(fields.take(k + 1).last() == fields[k as int]);
            }
            if f.tag != tag::BEGIN_STRING && f.tag != tag::BODY_LENGTH && f.tag != tag::CHECK_SUM {
                let ghost before = byte_entries(self.body);
                let mut digits: Vec<u8> = Vec::new();
                push_decimal(&mut digits, f.tag as u64);
                self.body.extend_from_slice(digits.as_slice());
                self.body.push(61);
                self.body.extend_from_slice(f.value);
                self.body.push(1);
                proof {
                    assert(byte_entries(self.body) =~= before + field_block(
                        fields[k as int].0,
                        fields[k as int].1,
                    ));
                    assert(byte_entries(self.body) =~= spec_body(fields.take(k + 1)));
                }
            } else {
                proof {
                    assert(byte_entries(self.body) =~= spec_body(fields.take(k + 1)));
                }
            }
            k = k + 1;
        }
        proof {
            assert(fields.take(n as int) =~= fields);
        }
        let ghost body_seq = spec_body(fields);
        let body_len = self.body.len();

        // Assemble the output: version, length field, body, checksum field.
        out.clear();
        out.push(56);
        out.push(61);
        match msg.fix_version() {
            Some(v) => out.extend_from_slice(v),
            None => {
                let dv = crate::field::fix44_version_bytes();
                out.extend_from_slice(dv.as_slice());
            },
        }
        out.push(1);
        let ghost head = seq![56u8, 61u8] + spec_version(*msg) + seq![1u8];
        proof {
            assert(out@ =~= head);
        }

        if !self.disable_auto_calculate_body_length {
            out.push(57);
            out.push(61);
            push_decimal(out, body_len as u64);
            out.push(1);
        } else {
            match msg.first_value(tag::BODY_LENGTH) {
                Some(v) => {
                    out.push(57);
                    out.push(61);
                    out.extend_from_slice(v);
                    out.push(1);
                },
                None => {},
            }
        }
        let ghost len_field = spec_length_field(
            *msg,
            self.disable_auto_calculate_body_length,
            body_seq.len() as int,
        );
        proof {
            assert(out@ =~= head + len_field);
        }

        out.extend_from_slice(self.body.as_slice());
        let ghost pre = head + len_field + body_seq;
        proof {
            assert(out@ =~= pre);
        }

        if !self.disable_auto_calculate_checksum {
            let c = compute_checksum(out.as_slice());
            proof {
                lemma_checksum_range(pre);
            }
            out.push(49);
            out.push(48);
            out.push(61);
            out.push(48 + c / 100);
            out.push(48 + (c / 10) % 10);
            out.push(48 + c % 10);
            out.push(1);
        } else {
            match msg.first_value(tag::CHECK_SUM) {
                Some(v) => {
                    out.push(49);
                    out.push(48);
                    out.push(61);
                    out.extend_from_slice(v);
                    out.push(1);
                },
                None => {},
            }
        }
        proof {
            assert(out@ =~= pre + spec_checksum_field(
                *msg,
                self.disable_auto_calculate_checksum,
                pre,
            ));
        }
        Ok(())
    }
}

} // verus!

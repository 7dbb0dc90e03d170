//! The modulo-256 checksum over raw bytes, and parsing of a declared
//! checksum value.

use vstd::prelude::*;
use crate::digits::{all_digits, dec_value, parse_bounded, spec_trim, trim_ascii};

verus! {

/// Sum of every byte of `s`, reduced modulo 256.
pub open spec fn spec_checksum(s: Seq<u8>) -> int
    decreases s.len(),
{
    if s.len() == 0 {
        0
    } else {
        (spec_checksum(s.drop_last()) + s.last()) % 256
    }
}

/// The checksum of any byte string lies in `0..256`.
pub proof fn lemma_checksum_range(s: Seq<u8>)
    ensures
        0 <= spec_checksum(s) < 256,
    decreases s.len(),
{
    if s.len() > 0 {
        lemma_checksum_range(s.drop_last());
    }
}

/// The declared checksum value a tag-10 field carries, if it is well formed:
/// its bytes, with ASCII whitespace trimmed, must be a non-empty digit run
/// worth at most 255.
pub open spec fn spec_parse_checksum(s: Seq<u8>) -> Option<u8> {
    let t = spec_trim(s);
    if t.len() > 0 && all_digits(t) && dec_value(t) <= 255 {
        Some(dec_value(t) as u8)
    } else {
        None
    }
}

/// Compute the checksum over `bytes`: the sum of every byte value, mod 256.
pub fn compute_checksum(bytes: &[u8]) -> (r: u8)
    ensures
        r == spec_checksum(bytes@),
{
    let ghost s = bytes@;
    let mut acc: u8 = 0;
    let mut i: usize = 0;
    proof {
        assert(s.take(0) =~= Seq::<u8>::empty());
    }
    while i < bytes.len()
        invariant
            s == bytes@,
            0 <= i <= s.len(),
            acc == spec_checksum(s.take(i as int)),
        decreases s.len() - i,
    {
        proof {
            assert(s.take(i + 1).drop_last() =~= s.take(i as int));
            lemma_checksum_range(s.take(i as int));
        }
        acc = ((acc as u16 + bytes[i] as u16) % 256) as u8;
        i = i + 1;
    }
    proof {
        assert(s.take(i as int) =~= s);
    }
    acc
}

/// Parse the declared decimal checksum value of a tag-10 field.
///
/// The value must be a decimal integer in 0..=255 after trimming ASCII
/// whitespace; anything else yields `None`.
pub fn parse_checksum(value: &[u8]) -> (r: Option<u8>)
    ensures
        r == spec_parse_checksum(value@),
{
    let t = trim_ascii(value);
    match parse_bounded(t, 255) {
        Some(v) => Some(v as u8),
        None => None,
    }
}

} // verus!

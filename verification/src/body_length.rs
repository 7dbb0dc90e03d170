//! Parsing of a declared body-length value.

use vstd::prelude::*;
use crate::digits::{all_digits, dec_value, parse_bounded, spec_trim, trim_ascii};

verus! {

/// The declared body length a tag-9 field carries, if it is well formed: its
/// bytes, with ASCII whitespace trimmed, must be a non-empty digit run whose
/// value fits in `usize`.
pub open spec fn spec_parse_body_length(s: Seq<u8>) -> Option<usize> {
    let t = spec_trim(s);
    if t.len() > 0 && all_digits(t) && dec_value(t) <= usize::MAX {
        Some(dec_value(t) as usize)
    } else {
        None
    }
}

/// Parse the declared decimal body-length value of a tag-9 field.
///
/// The value must be a decimal integer after trimming ASCII whitespace;
/// anything else yields `None`.
pub fn parse_body_length(value: &[u8]) -> (r: Option<usize>)
    ensures
        r == spec_parse_body_length(value@),
{
    let t = trim_ascii(value);
    match parse_bounded(t, usize::MAX as u64) {
        Some(v) => Some(v as usize),
        None => None,
    }
}

} // verus!

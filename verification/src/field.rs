use vstd::prelude::*;

verus! {

/// The single control byte that terminates every field on the wire (SOH).
pub const FIELD_SEPARATOR: u8 = 1;

/// Printable stand-in for the terminator, for text-based display only.
pub const FIELD_SEPARATOR_DISPLAY: char = '|';

/// The byte that separates a field's tag from its value (`=`).
pub const FIELD_KEY_VALUE_SEPARATOR: u8 = 61;

/// A transient, materialized view of one field: its numeric tag and its raw
/// value bytes, borrowed from the decoded buffer.
#[derive(Debug)]
pub struct Field<'a> {
    pub tag: u32,
    pub value: &'a [u8],
}

/// The version-identifier value that selects the newer, superset group
/// dictionary: the ASCII bytes of `FIX.4.4`.
pub open spec fn fix44_label() -> Seq<u8> {
    seq![70u8, 73u8, 88u8, 46u8, 52u8, 46u8, 52u8]
}

/// The ASCII bytes of `FIX.4.4`, materialized.
pub fn fix44_version_bytes() -> (r: Vec<u8>)
    ensures
        r@ == fix44_label(),
{
    let mut v: Vec<u8> = Vec::new();
    v.push(70);
    v.push(73);
    v.push(88);
    v.push(46);
    v.push(52);
    v.push(46);
    v.push(52);
    proof {
        assert(v@ =~= fix44_label());
    }
    v
}

} // verus!

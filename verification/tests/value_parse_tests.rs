use fix_codec::body_length::parse_body_length;
use fix_codec::checksum::{compute_checksum, parse_checksum};

// -----------------------------------------------------------------------
// compute_checksum
// -----------------------------------------------------------------------

#[test]
fn compute_single_byte() {
    assert_eq!(compute_checksum(b"A"), b'A'); // 65
}

#[test]
fn compute_wraps_at_256() {
    // 200 + 100 = 300 → 300 % 256 = 44
    assert_eq!(compute_checksum(&[200u8, 100u8]), 44);
}

#[test]
fn compute_empty_is_zero() {
    assert_eq!(compute_checksum(b""), 0);
}

// -----------------------------------------------------------------------
// parse_checksum
// -----------------------------------------------------------------------

#[test]
fn checksum_parse_valid() {
    assert_eq!(parse_checksum(b"000"), Some(0));
    assert_eq!(parse_checksum(b"128"), Some(128));
    assert_eq!(parse_checksum(b"255"), Some(255));
}

#[test]
fn parse_out_of_range() {
    assert_eq!(parse_checksum(b"256"), None);
    assert_eq!(parse_checksum(b"999"), None);
}

#[test]
fn checksum_parse_non_numeric() {
    assert_eq!(parse_checksum(b"abc"), None);
    assert_eq!(parse_checksum(b""), None);
}

// -----------------------------------------------------------------------
// parse_body_length
// -----------------------------------------------------------------------

#[test]
fn body_length_parse_valid() {
    assert_eq!(parse_body_length(b"0"), Some(0));
    assert_eq!(parse_body_length(b"42"), Some(42));
    assert_eq!(parse_body_length(b"1024"), Some(1024));
}

#[test]
fn body_length_parse_non_numeric() {
    assert_eq!(parse_body_length(b"abc"), None);
    assert_eq!(parse_body_length(b""), None);
}

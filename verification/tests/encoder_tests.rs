use fix_codec::decoder::Decoder;
use fix_codec::encoder::Encoder;

#[test]
fn encode_single_body_field() {
    let raw = b"8=FIX.4.2\x019=5\x0135=D\x0110=181\x01";
    let mut dec = Decoder::new();
    let msg = dec.decode(raw).unwrap();
    let mut enc = Encoder::new();
    let mut out = Vec::new();
    enc.encode(&msg, &mut out).unwrap();
    assert_eq!(out.as_slice(), raw.as_ref());
}

#[test]
fn encode_validates_body_length_and_checksum() {
    let raw = b"8=FIX.4.2\x019=5\x0135=D\x0110=181\x01";
    let mut dec = Decoder::new();
    let msg = dec.decode(raw).unwrap();
    let mut enc = Encoder::new();
    let mut out = Vec::new();
    enc.encode(&msg, &mut out).unwrap();
    let mut dec2 = Decoder::new();
    let msg2 = dec2.decode(&out).unwrap();
    assert!(msg2.validate_body_length().is_ok());
    assert!(msg2.validate_checksum().is_ok());
}

#[test]
fn encode_multiple_body_fields() {
    let raw = b"8=FIX.4.2\x019=20\x0135=D\x0149=SENDER\x0156=TARGET\x0110=100\x01";
    let mut dec = Decoder::new();
    let msg = dec.decode(raw).unwrap();
    let mut enc = Encoder::new();
    let mut out = Vec::new();
    enc.encode(&msg, &mut out).unwrap();
    let mut dec2 = Decoder::new();
    let msg2 = dec2.decode(&out).unwrap();
    assert!(msg2.validate_body_length().is_ok());
    assert!(msg2.validate_checksum().is_ok());
}

#[test]
fn encode_missing_tag8_defaults_to_fix44() {
    let raw = b"35=D\x01";
    let mut dec = Decoder::new();
    let msg = dec.decode(raw).unwrap();
    let mut enc = Encoder::new();
    let mut out = Vec::new();
    enc.encode(&msg, &mut out).unwrap();
    assert!(out.starts_with(b"8=FIX.4.4\x01"));
    let mut dec2 = Decoder::new();
    let msg2 = dec2.decode(&out).unwrap();
    assert!(msg2.validate_body_length().is_ok());
    assert!(msg2.validate_checksum().is_ok());
}

#[test]
fn encode_clears_existing_out_buffer() {
    let raw = b"8=FIX.4.2\x019=5\x0135=D\x0110=181\x01";
    let mut dec = Decoder::new();
    let msg = dec.decode(raw).unwrap();
    let mut enc = Encoder::new();
    let mut out = b"stale_data".to_vec();
    enc.encode(&msg, &mut out).unwrap();
    assert!(!out.starts_with(b"stale_data"));
    assert!(out.starts_with(b"8="));
}

#[test]
fn encode_reuse_encode_twice() {
    // Encoder reuse: body buffer capacity is preserved across calls.
    let raw1 = b"8=FIX.4.2\x019=5\x0135=D\x0110=181\x01";
    let raw2 = b"8=FIX.4.2\x019=20\x0135=D\x0149=SENDER\x0156=TARGET\x0110=100\x01";
    let mut dec = Decoder::new();
    let mut enc = Encoder::new();
    let mut out = Vec::new();

    let msg1 = dec.decode(raw1).unwrap();
    enc.encode(&msg1, &mut out).unwrap();
    let encoded1 = out.clone();

    let msg2 = dec.decode(raw2).unwrap();
    enc.encode(&msg2, &mut out).unwrap();

    // First result was correct.
    let mut dec2 = Decoder::new();
    let m1 = dec2.decode(&encoded1).unwrap();
    assert!(m1.validate_body_length().is_ok());
    assert!(m1.validate_checksum().is_ok());

    // Second result is correct.
    let m2 = dec2.decode(&out).unwrap();
    assert!(m2.validate_body_length().is_ok());
    assert!(m2.validate_checksum().is_ok());
}

#[test]
fn encode_disable_auto_body_length_uses_message_value() {
    // Tag 9 value from the message is preserved when auto-calculation is
    // disabled.
    let raw = b"8=FIX.4.2\x019=5\x0135=D\x0110=181\x01";
    let mut dec = Decoder::new();
    let msg = dec.decode(raw).unwrap();
    let mut enc = Encoder::new();
    enc.disable_auto_calculate_body_length(true);
    let mut out = Vec::new();
    enc.encode(&msg, &mut out).unwrap();
    // "9=5\x01" should appear verbatim from the message.
    assert!(out.windows(4).any(|w| w == b"9=5\x01"));
}

#[test]
fn encode_disable_auto_body_length_omits_tag9_when_absent() {
    // When tag 9 is absent from the message and auto-calculation is
    // disabled, tag 9 should not appear in the output at all.
    let raw = b"35=D\x01";
    let mut dec = Decoder::new();
    let msg = dec.decode(raw).unwrap();
    let mut enc = Encoder::new();
    enc.disable_auto_calculate_body_length(true);
    let mut out = Vec::new();
    enc.encode(&msg, &mut out).unwrap();
    assert!(!out.windows(2).any(|w| w == b"9="));
}

#[test]
fn encode_disable_auto_checksum_uses_message_value() {
    // Tag 10 value from the message is preserved when auto-calculation is
    // disabled.
    let raw = b"8=FIX.4.2\x019=5\x0135=D\x0110=181\x01";
    let mut dec = Decoder::new();
    let msg = dec.decode(raw).unwrap();
    let mut enc = Encoder::new();
    enc.disable_auto_calculate_checksum(true);
    let mut out = Vec::new();
    enc.encode(&msg, &mut out).unwrap();
    // "10=181\x01" should appear verbatim from the message.
    assert!(out.windows(7).any(|w| w == b"10=181\x01"));
}

#[test]
fn encode_disable_auto_checksum_omits_tag10_when_absent() {
    // When tag 10 is absent from the message and auto-calculation is
    // disabled, tag 10 should not appear in the output at all.
    let raw = b"35=D\x01";
    let mut dec = Decoder::new();
    let msg = dec.decode(raw).unwrap();
    let mut enc = Encoder::new();
    enc.disable_auto_calculate_checksum(true);
    let mut out = Vec::new();
    enc.encode(&msg, &mut out).unwrap();
    assert!(!out.windows(3).any(|w| w == b"10="));
}

#[test]
fn encode_disable_both_preserves_original_bytes() {
    // With both switches set, the output round-trips the original wire
    // bytes.
    let raw = b"8=FIX.4.2\x019=5\x0135=D\x0110=181\x01";
    let mut dec = Decoder::new();
    let msg = dec.decode(raw).unwrap();
    let mut enc = Encoder::new();
    enc.disable_auto_calculate_body_length(true);
    enc.disable_auto_calculate_checksum(true);
    let mut out = Vec::new();
    enc.encode(&msg, &mut out).unwrap();
    assert_eq!(out.as_slice(), raw.as_ref());
}

#[test]
fn encode_disable_body_length_re_enable_auto_calculates_correctly() {
    // Toggling disable back to false restores auto-computation.
    let raw = b"8=FIX.4.2\x019=5\x0135=D\x0110=181\x01";
    let mut dec = Decoder::new();
    let msg = dec.decode(raw).unwrap();
    let mut enc = Encoder::new();
    enc.disable_auto_calculate_body_length(true);
    enc.disable_auto_calculate_body_length(false);
    let mut out = Vec::new();
    enc.encode(&msg, &mut out).unwrap();
    let mut dec2 = Decoder::new();
    let msg2 = dec2.decode(&out).unwrap();
    assert!(msg2.validate_body_length().is_ok());
}

#[test]
fn encode_disable_checksum_re_enable_auto_calculates_correctly() {
    // Toggling disable back to false restores auto-computation.
    let raw = b"8=FIX.4.2\x019=5\x0135=D\x0110=181\x01";
    let mut dec = Decoder::new();
    let msg = dec.decode(raw).unwrap();
    let mut enc = Encoder::new();
    enc.disable_auto_calculate_checksum(true);
    enc.disable_auto_calculate_checksum(false);
    let mut out = Vec::new();
    enc.encode(&msg, &mut out).unwrap();
    let mut dec2 = Decoder::new();
    let msg2 = dec2.decode(&out).unwrap();
    assert!(msg2.validate_checksum().is_ok());
}

#[test]
fn encode_disable_body_length_passes_wrong_value_verbatim() {
    // When auto-calculation is disabled, a wrong tag 9 value is written
    // as-is and validate_body_length should fail on the output.
    let raw = b"8=FIX.4.2\x019=999\x0135=D\x0110=181\x01";
    let mut dec = Decoder::new();
    let msg = dec.decode(raw).unwrap();
    let mut enc = Encoder::new();
    enc.disable_auto_calculate_body_length(true);
    let mut out = Vec::new();
    enc.encode(&msg, &mut out).unwrap();
    assert!(out.windows(6).any(|w| w == b"9=999\x01"));
    let mut dec2 = Decoder::new();
    let msg2 = dec2.decode(&out).unwrap();
    assert!(msg2.validate_body_length().is_err());
}

#[test]
fn encode_disable_checksum_passes_wrong_value_verbatim() {
    // When auto-calculation is disabled, a wrong tag 10 value is written
    // as-is and validate_checksum should fail on the output.
    let raw = b"8=FIX.4.2\x019=5\x0135=D\x0110=000\x01";
    let mut dec = Decoder::new();
    let msg = dec.decode(raw).unwrap();
    let mut enc = Encoder::new();
    enc.disable_auto_calculate_checksum(true);
    let mut out = Vec::new();
    enc.encode(&msg, &mut out).unwrap();
    assert!(out.windows(7).any(|w| w == b"10=000\x01"));
    let mut dec2 = Decoder::new();
    let msg2 = dec2.decode(&out).unwrap();
    assert!(msg2.validate_checksum().is_err());
}

#[test]
fn encode_auto_body_length_ignores_wrong_value_in_message() {
    // Auto-computation overwrites a wrong tag 9 in the message; output
    // validates.
    let raw = b"8=FIX.4.2\x019=999\x0135=D\x0110=181\x01";
    let mut dec = Decoder::new();
    let msg = dec.decode(raw).unwrap();
    let mut enc = Encoder::new();
    // disable switch is false by default — auto-compute should kick in.
    let mut out = Vec::new();
    enc.encode(&msg, &mut out).unwrap();
    let mut dec2 = Decoder::new();
    let msg2 = dec2.decode(&out).unwrap();
    assert!(msg2.validate_body_length().is_ok());
}

#[test]
fn encode_auto_checksum_ignores_wrong_value_in_message() {
    // Auto-computation overwrites a wrong tag 10 in the message; output
    // validates.
    let raw = b"8=FIX.4.2\x019=5\x0135=D\x0110=000\x01";
    let mut dec = Decoder::new();
    let msg = dec.decode(raw).unwrap();
    let mut enc = Encoder::new();
    // disable switch is false by default — auto-compute should kick in.
    let mut out = Vec::new();
    enc.encode(&msg, &mut out).unwrap();
    let mut dec2 = Decoder::new();
    let msg2 = dec2.decode(&out).unwrap();
    assert!(msg2.validate_checksum().is_ok());
}

#[test]
fn encode_disable_body_length_only_does_not_affect_checksum() {
    // Disabling length auto-calc leaves the checksum auto-computed
    // correctly.
    let raw = b"8=FIX.4.2\x019=5\x0135=D\x0110=181\x01";
    let mut dec = Decoder::new();
    let msg = dec.decode(raw).unwrap();
    let mut enc = Encoder::new();
    enc.disable_auto_calculate_body_length(true);
    let mut out = Vec::new();
    enc.encode(&msg, &mut out).unwrap();
    // tag 9 came from the message verbatim
    assert!(out.windows(4).any(|w| w == b"9=5\x01"));
    // tag 10 was auto-computed over the actual output bytes
    let mut dec2 = Decoder::new();
    let msg2 = dec2.decode(&out).unwrap();
    assert!(msg2.validate_checksum().is_ok());
}

#[test]
fn encode_disable_checksum_only_does_not_affect_body_length() {
    // Disabling checksum auto-calc leaves the length auto-computed
    // correctly.
    let raw = b"8=FIX.4.2\x019=5\x0135=D\x0110=181\x01";
    let mut dec = Decoder::new();
    let msg = dec.decode(raw).unwrap();
    let mut enc = Encoder::new();
    enc.disable_auto_calculate_checksum(true);
    let mut out = Vec::new();
    enc.encode(&msg, &mut out).unwrap();
    // tag 10 came from the message verbatim
    assert!(out.windows(7).any(|w| w == b"10=181\x01"));
    // tag 9 was auto-computed correctly
    let mut dec2 = Decoder::new();
    let msg2 = dec2.decode(&out).unwrap();
    assert!(msg2.validate_body_length().is_ok());
}

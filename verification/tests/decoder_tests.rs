use fix_codec::decoder::Decoder;
use fix_codec::error::FixError;
use fix_codec::group;
use fix_codec::group::{Group, GroupIter};
use fix_codec::tag;

fn collect_groups<'a>(mut it: GroupIter<'a>) -> Vec<Group<'a>> {
    let mut out = Vec::new();
    while let Some(g) = it.next() {
        out.push(g);
    }
    out
}

// -------------------------------------------------------------------------
// Happy path
// -------------------------------------------------------------------------

#[test]
fn happy_empty_buffer() {
    let mut dec = Decoder::new();
    let msg = dec.decode(b"").unwrap();
    assert_eq!(msg.len(), 0);
    assert!(msg.is_empty());
}

#[test]
fn happy_single_field() {
    let mut dec = Decoder::new();
    let msg = dec.decode(b"8=FIX.4.2\x01").unwrap();
    assert_eq!(msg.len(), 1);
    let f = msg.field(0);
    assert_eq!(f.tag, 8);
    assert_eq!(f.value, b"FIX.4.2");
}

#[test]
fn happy_multiple_fields() {
    let mut dec = Decoder::new();
    let msg = dec.decode(b"8=FIX.4.2\x0135=D\x0149=SENDER\x01").unwrap();
    assert_eq!(msg.len(), 3);
    let f0 = msg.field(0);
    assert_eq!(f0.tag, 8);
    assert_eq!(f0.value, b"FIX.4.2");
    let f1 = msg.field(1);
    assert_eq!(f1.tag, 35);
    assert_eq!(f1.value, b"D");
    let f2 = msg.field(2);
    assert_eq!(f2.tag, 49);
    assert_eq!(f2.value, b"SENDER");
}

#[test]
fn happy_empty_value() {
    // A field whose value is an empty byte slice: "35=\x01"
    let mut dec = Decoder::new();
    let msg = dec.decode(b"35=\x01").unwrap();
    assert_eq!(msg.len(), 1);
    let f = msg.field(0);
    assert_eq!(f.tag, 35);
    assert_eq!(f.value, b"");
}

#[test]
fn happy_value_containing_equals() {
    // '=' inside a value must not confuse the next field's tag scan
    // because the scan for '=' starts at the start of the next tag.
    let mut dec = Decoder::new();
    let msg = dec.decode(b"58=price=100\x0135=D\x01").unwrap();
    assert_eq!(msg.len(), 2);
    assert_eq!(msg.field(0).tag, 58);
    assert_eq!(msg.field(0).value, b"price=100");
    assert_eq!(msg.field(1).tag, 35);
    assert_eq!(msg.field(1).value, b"D");
}

#[test]
fn happy_binary_value() {
    // Values may contain arbitrary bytes (e.g. RawData tag 96)
    let mut dec = Decoder::new();
    let msg = dec.decode(b"95=3\x0196=\x02\x03\x04\x01").unwrap();
    assert_eq!(msg.len(), 2);
    assert_eq!(msg.field(1).tag, 96);
    assert_eq!(msg.field(1).value, &[0x02u8, 0x03, 0x04]);
}

#[test]
fn happy_exactly_32_fields() {
    // 32 fields = the table's inline capacity boundary, no heap spill
    let mut dec = Decoder::new();
    let mut buf = Vec::new();
    for i in 1u32..=32 {
        buf.extend_from_slice(format!("{}=v\x01", i).as_bytes());
    }
    let msg = dec.decode(&buf).unwrap();
    assert_eq!(msg.len(), 32);
    for i in 0..32 {
        assert_eq!(msg.field(i).tag, (i + 1) as u32);
        assert_eq!(msg.field(i).value, b"v");
    }
}

#[test]
fn happy_33_fields_spills_to_heap() {
    // 33 fields forces the table past inline capacity — must still be correct
    let mut dec = Decoder::new();
    let mut buf = Vec::new();
    for i in 1u32..=33 {
        buf.extend_from_slice(format!("{}=v\x01", i).as_bytes());
    }
    let msg = dec.decode(&buf).unwrap();
    assert_eq!(msg.len(), 33);
    assert_eq!(msg.field(32).tag, 33);
}

// -------------------------------------------------------------------------
// Decoder reuse
// -------------------------------------------------------------------------

#[test]
fn reuse_decode_twice() {
    let mut dec = Decoder::new();
    {
        let msg = dec.decode(b"8=FIX.4.2\x01").unwrap();
        assert_eq!(msg.field(0).tag, 8);
    } // msg dropped, borrow released
    let msg2 = dec.decode(b"35=D\x01").unwrap();
    assert_eq!(msg2.field(0).tag, 35);
    assert_eq!(msg2.field(0).value, b"D");
}

#[test]
fn reuse_large_then_small() {
    // After a 33-field msg causes heap spill, a 1-field msg still works
    let mut dec = Decoder::new();
    let mut big_buf = Vec::new();
    for i in 1u32..=33 {
        big_buf.extend_from_slice(format!("{}=v\x01", i).as_bytes());
    }
    {
        let msg = dec.decode(&big_buf).unwrap();
        assert_eq!(msg.len(), 33);
    }
    let msg2 = dec.decode(b"8=FIX.4.2\x01").unwrap();
    assert_eq!(msg2.len(), 1);
    assert_eq!(msg2.field(0).tag, 8);
}

#[test]
fn reuse_many_iterations_stable() {
    let mut dec = Decoder::new();
    let buf = b"8=FIX.4.2\x0135=D\x0149=SENDER\x01";
    for _ in 0..1_000 {
        let msg = dec.decode(buf).unwrap();
        assert_eq!(msg.len(), 3);
        assert_eq!(msg.field(0).tag, 8);
    }
}

// -------------------------------------------------------------------------
// IncompleteMessage (partial stream reads)
// -------------------------------------------------------------------------

#[test]
fn incomplete_tag_only_no_equals() {
    let mut dec = Decoder::new();
    assert!(matches!(
        dec.decode(b"8").unwrap_err(),
        FixError::IncompleteMessage
    ));
}

#[test]
fn incomplete_tag_equals_value_no_soh() {
    let mut dec = Decoder::new();
    assert!(matches!(
        dec.decode(b"8=FIX.4.2").unwrap_err(),
        FixError::IncompleteMessage
    ));
}

#[test]
fn incomplete_first_field_ok_second_tag_no_equals() {
    let mut dec = Decoder::new();
    assert!(matches!(
        dec.decode(b"8=FIX.4.2\x0135").unwrap_err(),
        FixError::IncompleteMessage
    ));
}

#[test]
fn incomplete_second_field_value_no_soh() {
    let mut dec = Decoder::new();
    assert!(matches!(
        dec.decode(b"8=FIX.4.2\x0135=D").unwrap_err(),
        FixError::IncompleteMessage
    ));
}

#[test]
fn incomplete_only_soh_byte() {
    // b"\x01" — terminator at position 0, no '=' found before the end
    let mut dec = Decoder::new();
    assert!(matches!(
        dec.decode(b"\x01").unwrap_err(),
        FixError::IncompleteMessage
    ));
}

// -------------------------------------------------------------------------
// InvalidTag errors
// -------------------------------------------------------------------------

#[test]
fn invalid_tag_empty_tag_leading_equals() {
    // buf starts with '=' → tag slice is empty → InvalidTag
    let mut dec = Decoder::new();
    assert!(matches!(
        dec.decode(b"=val\x01").unwrap_err(),
        FixError::InvalidTag
    ));
}

#[test]
fn invalid_tag_non_digit_byte() {
    let mut dec = Decoder::new();
    assert!(matches!(
        dec.decode(b"8X=val\x01").unwrap_err(),
        FixError::InvalidTag
    ));
}

#[test]
fn invalid_tag_overflow_ten_nines() {
    // 9999999999 is past the 32-bit range
    let mut dec = Decoder::new();
    assert!(matches!(
        dec.decode(b"9999999999=val\x01").unwrap_err(),
        FixError::InvalidTag
    ));
}

#[test]
fn invalid_tag_one_past_u32_max() {
    // 4294967296 is one past the largest 32-bit tag
    let mut dec = Decoder::new();
    assert!(matches!(
        dec.decode(b"4294967296=val\x01").unwrap_err(),
        FixError::InvalidTag
    ));
}

#[test]
fn invalid_tag_leading_space() {
    let mut dec = Decoder::new();
    assert!(matches!(
        dec.decode(b" 8=val\x01").unwrap_err(),
        FixError::InvalidTag
    ));
}

#[test]
fn invalid_tag_trailing_space() {
    let mut dec = Decoder::new();
    assert!(matches!(
        dec.decode(b"8 =val\x01").unwrap_err(),
        FixError::InvalidTag
    ));
}

// -------------------------------------------------------------------------
// Edge cases in value scanning
// -------------------------------------------------------------------------

#[test]
fn edge_single_byte_value() {
    let mut dec = Decoder::new();
    let msg = dec.decode(b"8=X\x01").unwrap();
    assert_eq!(msg.field(0).value, b"X");
}

#[test]
fn edge_value_starts_with_soh() {
    // "8=\x01val\x01" — the terminator right after '=' ends the value, so
    // value = b"" and the scan resumes at 'v'. "val" then has no '='.
    let mut dec = Decoder::new();
    let err = dec.decode(b"8=\x01val\x01").unwrap_err();
    assert!(matches!(err, FixError::IncompleteMessage));
}

#[test]
fn edge_value_then_bare_soh() {
    // "8=A\x01B\x01" — first field ok (tag=8, value="A"),
    // then "B\x01" has no '='.
    let mut dec = Decoder::new();
    let err = dec.decode(b"8=A\x01B\x01").unwrap_err();
    assert!(matches!(err, FixError::IncompleteMessage));
}

#[test]
fn edge_back_to_back_soh() {
    // "8=\x01\x01" — first field: value=b"", scan resumes at the second
    // terminator, which has no '=' before the end.
    let mut dec = Decoder::new();
    let err = dec.decode(b"8=\x01\x01").unwrap_err();
    assert!(matches!(err, FixError::IncompleteMessage));
}

#[test]
fn edge_tag_zero() {
    // Tag 0 is not a meaningful tag but the decoder does no semantic
    // validation — it parses it as tag=0.
    let mut dec = Decoder::new();
    let msg = dec.decode(b"0=val\x01").unwrap();
    assert_eq!(msg.field(0).tag, 0);
    assert_eq!(msg.field(0).value, b"val");
}

#[test]
fn edge_tag_u32_max() {
    // 4294967295 is the largest 32-bit tag — within range, should succeed.
    let mut dec = Decoder::new();
    let msg = dec.decode(b"4294967295=val\x01").unwrap();
    assert_eq!(msg.field(0).tag, u32::MAX);
    assert_eq!(msg.field(0).value, b"val");
}

// -------------------------------------------------------------------------
// Position advancement correctness
// -------------------------------------------------------------------------

#[test]
fn pos_long_value_next_field_correct() {
    // First value is 1000 bytes; verify second field parses correctly.
    let mut dec = Decoder::new();
    let long_val = vec![b'A'; 1000];
    let mut buf = Vec::new();
    buf.extend_from_slice(b"96=");
    buf.extend_from_slice(&long_val);
    buf.push(0x01);
    buf.extend_from_slice(b"35=D\x01");
    let msg = dec.decode(&buf).unwrap();
    assert_eq!(msg.len(), 2);
    assert_eq!(msg.field(0).tag, 96);
    assert_eq!(msg.field(0).value.len(), 1000);
    assert_eq!(msg.field(1).tag, 35);
    assert_eq!(msg.field(1).value, b"D");
}

#[test]
fn pos_equals_in_first_value_does_not_confuse_second_tag_scan() {
    // The '=' inside the first value must not be picked up as the
    // delimiter for the second field's tag.
    let mut dec = Decoder::new();
    let msg = dec.decode(b"58=a=b=c\x0135=D\x01").unwrap();
    assert_eq!(msg.len(), 2);
    assert_eq!(msg.field(0).tag, 58);
    assert_eq!(msg.field(0).value, b"a=b=c");
    assert_eq!(msg.field(1).tag, 35);
    assert_eq!(msg.field(1).value, b"D");
}

#[test]
fn pos_message_ending_exactly_at_soh() {
    // Last byte is the terminator; the scan ends exactly at the end.
    let mut dec = Decoder::new();
    let msg = dec.decode(b"8=FIX.4.2\x0135=D\x01").unwrap();
    assert_eq!(msg.len(), 2);
    assert_eq!(msg.field(1).value, b"D");
}

// -------------------------------------------------------------------------
// with_capacity constructor
// -------------------------------------------------------------------------

#[test]
fn with_capacity_exact_fit() {
    let mut dec = Decoder::with_capacity(4);
    let msg = dec
        .decode(b"8=FIX.4.2\x0135=D\x0149=A\x0156=B\x01")
        .unwrap();
    assert_eq!(msg.len(), 4);
    assert_eq!(msg.field(3).tag, 56);
    assert_eq!(msg.field(3).value, b"B");
}

#[test]
fn with_capacity_one_spills_to_heap() {
    // Pre-allocate 1, decode 33 fields — the table must spill correctly.
    let mut dec = Decoder::with_capacity(1);
    let mut buf = Vec::new();
    for i in 1u32..=33 {
        buf.extend_from_slice(format!("{}=v\x01", i).as_bytes());
    }
    let msg = dec.decode(&buf).unwrap();
    assert_eq!(msg.len(), 33);
    assert_eq!(msg.field(32).tag, 33);
}

// -------------------------------------------------------------------------
// Repeating groups (successful decode + group navigation)
// -------------------------------------------------------------------------

#[test]
fn group_single_misc_fee() {
    // Allocation message with one MiscFee instance: NO_MISC_FEES=1 followed
    // by MiscFeeAmt / MiscFeeCurr / MiscFeeType.
    let mut dec = Decoder::new();
    let msg = dec
        .decode(b"8=FIX.4.2\x019=50\x0135=J\x01136=1\x01137=10.50\x01138=USD\x01139=4\x01")
        .unwrap();
    assert_eq!(msg.len(), 7);

    let fees = collect_groups(msg.groups(&group::misc_fees()));
    assert_eq!(fees.len(), 1);
    assert_eq!(fees[0].find(tag::MISC_FEE_AMT).unwrap().value, b"10.50");
    assert_eq!(fees[0].find(tag::MISC_FEE_CURR).unwrap().value, b"USD");
    assert_eq!(fees[0].find(tag::MISC_FEE_TYPE).unwrap().value, b"4");
}

#[test]
fn group_multiple_misc_fees() {
    // Two MiscFee instances — delimiter tag (137) reappearance splits them.
    let mut dec = Decoder::new();
    let msg = dec
        .decode(
            b"35=J\x01136=2\x01137=5.00\x01138=USD\x01139=1\x01137=2.50\x01138=EUR\x01139=2\x01",
        )
        .unwrap();
    assert_eq!(msg.len(), 8);

    let fees = collect_groups(msg.groups(&group::misc_fees()));
    assert_eq!(fees.len(), 2);

    assert_eq!(fees[0].find(tag::MISC_FEE_AMT).unwrap().value, b"5.00");
    assert_eq!(fees[0].find(tag::MISC_FEE_CURR).unwrap().value, b"USD");
    assert_eq!(fees[0].find(tag::MISC_FEE_TYPE).unwrap().value, b"1");

    assert_eq!(fees[1].find(tag::MISC_FEE_AMT).unwrap().value, b"2.50");
    assert_eq!(fees[1].find(tag::MISC_FEE_CURR).unwrap().value, b"EUR");
    assert_eq!(fees[1].find(tag::MISC_FEE_TYPE).unwrap().value, b"2");
}

#[test]
fn group_md_entries_bid_and_offer() {
    // Market-data snapshot with two MDEntry instances (bid + offer).
    // NO_MD_ENTRIES=268, delimiter=MDEntryType=269.
    let mut dec = Decoder::new();
    let msg = dec
        .decode(
            b"35=W\x0149=SENDER\x0156=TARGET\x01268=2\x01\
            269=0\x01270=99.50\x01271=1000\x01\
            269=1\x01270=99.75\x01271=500\x01",
        )
        .unwrap();
    assert_eq!(msg.len(), 10);

    let entries = collect_groups(msg.groups(&group::md_entries()));
    assert_eq!(entries.len(), 2);

    // Bid (MDEntryType=0)
    assert_eq!(entries[0].find(tag::MD_ENTRY_TYPE).unwrap().value, b"0");
    assert_eq!(entries[0].find(tag::MD_ENTRY_PX).unwrap().value, b"99.50");
    assert_eq!(entries[0].find(tag::MD_ENTRY_SIZE).unwrap().value, b"1000");

    // Offer (MDEntryType=1)
    assert_eq!(entries[1].find(tag::MD_ENTRY_TYPE).unwrap().value, b"1");
    assert_eq!(entries[1].find(tag::MD_ENTRY_PX).unwrap().value, b"99.75");
    assert_eq!(entries[1].find(tag::MD_ENTRY_SIZE).unwrap().value, b"500");
}

#[test]
fn group_routing_ids_two_routes() {
    // Header with NO_ROUTING_IDS=2; RoutingType=216 is the delimiter.
    let mut dec = Decoder::new();
    let msg = dec
        .decode(b"35=D\x01215=2\x01216=1\x01217=ROUTE_A\x01216=2\x01217=ROUTE_B\x01")
        .unwrap();
    assert_eq!(msg.len(), 6);

    let routes = collect_groups(msg.groups(&group::routing_ids()));
    assert_eq!(routes.len(), 2);
    assert_eq!(routes[0].find(tag::ROUTING_TYPE).unwrap().value, b"1");
    assert_eq!(routes[0].find(tag::ROUTING_ID).unwrap().value, b"ROUTE_A");
    assert_eq!(routes[1].find(tag::ROUTING_TYPE).unwrap().value, b"2");
    assert_eq!(routes[1].find(tag::ROUTING_ID).unwrap().value, b"ROUTE_B");
}

#[test]
fn group_count_zero_yields_no_instances() {
    // NO_MISC_FEES=0 — the iterator must yield nothing even though the
    // count tag is present.
    let mut dec = Decoder::new();
    let msg = dec.decode(b"35=J\x01136=0\x0158=no fees\x01").unwrap();
    assert_eq!(msg.len(), 3);
    assert_eq!(collect_groups(msg.groups(&group::misc_fees())).len(), 0);
}

#[test]
fn group_count_tag_absent_yields_no_instances() {
    // Message has no NO_MISC_FEES tag at all.
    let mut dec = Decoder::new();
    let msg = dec.decode(b"8=FIX.4.2\x0135=D\x0149=SENDER\x01").unwrap();
    assert_eq!(collect_groups(msg.groups(&group::misc_fees())).len(), 0);
}

#[test]
fn group_fields_after_group_still_accessible() {
    // Fields that follow a group in the flat message must remain accessible
    // via field() / find() as usual.
    let mut dec = Decoder::new();
    let mut msg = dec
        .decode(b"35=J\x01136=1\x01137=3.00\x01138=USD\x01139=1\x0110=200\x01")
        .unwrap();
    assert_eq!(msg.len(), 6);

    // Group navigation works.
    let fee = msg.groups(&group::misc_fees()).next().unwrap();
    assert_eq!(fee.find(tag::MISC_FEE_AMT).unwrap().value, b"3.00");

    // The checksum field after the group is accessible normally.
    assert_eq!(msg.find(tag::CHECK_SUM).unwrap().value, b"200");
}

// -------------------------------------------------------------------------
// all_groups()
// -------------------------------------------------------------------------

#[test]
fn all_groups_empty_message_yields_nothing() {
    // No fields at all — no groups present.
    let mut dec = Decoder::new();
    let msg = dec.decode(b"").unwrap();
    assert_eq!(msg.all_groups().len(), 0);
}

#[test]
fn all_groups_no_group_tags_yields_nothing() {
    // Plain message with no count tags.
    let mut dec = Decoder::new();
    let msg = dec.decode(b"8=FIX.4.2\x0135=D\x0149=SENDER\x01").unwrap();
    assert_eq!(msg.all_groups().len(), 0);
}

#[test]
fn all_groups_single_group_present() {
    // Message contains only NO_MISC_FEES — all_groups must yield exactly
    // one entry.
    let mut dec = Decoder::new();
    let msg = dec
        .decode(b"35=J\x01136=1\x01137=7.00\x01138=USD\x01139=2\x01")
        .unwrap();

    let mut all = msg.all_groups();
    assert_eq!(all.len(), 1);
    let (spec, mut instances) = all.remove(0);
    assert_eq!(spec.count_tag, tag::NO_MISC_FEES);

    let g = instances.next().unwrap();
    assert_eq!(g.find(tag::MISC_FEE_AMT).unwrap().value, b"7.00");
    assert_eq!(g.find(tag::MISC_FEE_CURR).unwrap().value, b"USD");
}

#[test]
fn all_groups_two_different_groups_present() {
    // Message contains both NO_MISC_FEES and NO_ROUTING_IDS.
    let mut dec = Decoder::new();
    let msg = dec
        .decode(
            b"35=D\x01215=2\x01216=1\x01217=ROUTE_A\x01216=2\x01217=ROUTE_B\x01\
              136=1\x01137=1.00\x01138=USD\x01139=3\x01",
        )
        .unwrap();

    let found: Vec<u32> = msg
        .all_groups()
        .into_iter()
        .map(|(spec, _)| spec.count_tag)
        .collect();
    // Both group count tags must appear, in dictionary order.
    assert!(found.contains(&tag::NO_MISC_FEES));
    assert!(found.contains(&tag::NO_ROUTING_IDS));
    assert_eq!(found.len(), 2);
}

#[test]
fn all_groups_count_zero_skipped() {
    // NO_MISC_FEES=0 must not appear in all_groups output.
    let mut dec = Decoder::new();
    let msg = dec.decode(b"35=J\x01136=0\x01").unwrap();
    assert_eq!(msg.all_groups().len(), 0);
}

#[test]
fn all_groups_instances_are_correct() {
    // Instances returned through all_groups() have the right field values.
    let mut dec = Decoder::new();
    let msg = dec
        .decode(b"35=W\x01268=2\x01269=0\x01270=50.00\x01269=1\x01270=50.25\x01")
        .unwrap();

    let mut all = msg.all_groups();
    assert_eq!(all.len(), 1);
    let (spec, instances) = all.remove(0);
    assert_eq!(spec.count_tag, tag::NO_MD_ENTRIES);

    let entries = collect_groups(instances);
    assert_eq!(entries.len(), 2);
    assert_eq!(entries[0].find(tag::MD_ENTRY_TYPE).unwrap().value, b"0");
    assert_eq!(entries[0].find(tag::MD_ENTRY_PX).unwrap().value, b"50.00");
    assert_eq!(entries[1].find(tag::MD_ENTRY_TYPE).unwrap().value, b"1");
    assert_eq!(entries[1].find(tag::MD_ENTRY_PX).unwrap().value, b"50.25");
}

// -------------------------------------------------------------------------
// validate_body_length() and validate_checksum()
// -------------------------------------------------------------------------
//
// All expected checksums and body lengths are pre-computed with:
//   sum(bytes before "10=") % 256  and  len(bytes between "9=…\x01" and "10=")

#[test]
fn validate_body_length_correct() {
    // "8=FIX.4.2\x019=5\x0135=D\x0110=181\x01"
    // Body = "35=D\x01" = 5 bytes. Declared 9=5. Should pass.
    let mut dec = Decoder::new();
    let msg = dec
        .decode(b"8=FIX.4.2\x019=5\x0135=D\x0110=181\x01")
        .unwrap();
    assert!(msg.validate_body_length().is_ok());
}

#[test]
fn validate_body_length_wrong_value() {
    // Declared 9=99 but actual body is 5 bytes. Should fail.
    let mut dec = Decoder::new();
    let msg = dec
        .decode(b"8=FIX.4.2\x019=99\x0135=D\x0110=000\x01")
        .unwrap();
    assert!(matches!(
        msg.validate_body_length().unwrap_err(),
        FixError::InvalidBodyLength
    ));
}

#[test]
fn validate_body_length_multi_field_body() {
    // "8=FIX.4.2\x019=25\x0135=D\x0149=SENDER\x0156=TARGET\x0110=195\x01"
    // Body = "35=D\x0149=SENDER\x0156=TARGET\x01" = 25 bytes. Declared 9=25.
    let mut dec = Decoder::new();
    let msg = dec
        .decode(b"8=FIX.4.2\x019=25\x0135=D\x0149=SENDER\x0156=TARGET\x0110=195\x01")
        .unwrap();
    assert!(msg.validate_body_length().is_ok());
}

#[test]
fn validate_body_length_tag9_missing() {
    // Message with fewer than 3 fields — no room for all three framing
    // fields.
    let mut dec = Decoder::new();
    let msg = dec.decode(b"8=FIX.4.2\x0135=D\x01").unwrap();
    assert!(matches!(
        msg.validate_body_length().unwrap_err(),
        FixError::InvalidBodyLength
    ));
}

#[test]
fn validate_body_length_tag9_not_second_field() {
    // Tag 9 is not in position 1 — invalid message structure.
    let mut dec = Decoder::new();
    let msg = dec
        .decode(b"8=FIX.4.2\x0135=D\x019=5\x0110=000\x01")
        .unwrap();
    assert!(matches!(
        msg.validate_body_length().unwrap_err(),
        FixError::InvalidBodyLength
    ));
}

#[test]
fn validate_body_length_tag10_not_last_field() {
    // Tag 10 is not the last field — invalid message structure.
    let mut dec = Decoder::new();
    let msg = dec
        .decode(b"8=FIX.4.2\x019=5\x0110=000\x0135=D\x01")
        .unwrap();
    assert!(matches!(
        msg.validate_body_length().unwrap_err(),
        FixError::InvalidBodyLength
    ));
}

#[test]
fn validate_checksum_correct() {
    // "8=FIX.4.2\x019=5\x0135=D\x0110=181\x01"
    // sum("8=FIX.4.2\x019=5\x0135=D\x01") % 256 = 181
    let mut dec = Decoder::new();
    let msg = dec
        .decode(b"8=FIX.4.2\x019=5\x0135=D\x0110=181\x01")
        .unwrap();
    assert!(msg.validate_checksum().is_ok());
}

#[test]
fn validate_checksum_wrong_value() {
    // Correct message bytes but checksum declared as 000 instead of 181.
    let mut dec = Decoder::new();
    let msg = dec
        .decode(b"8=FIX.4.2\x019=5\x0135=D\x0110=000\x01")
        .unwrap();
    assert!(matches!(
        msg.validate_checksum().unwrap_err(),
        FixError::InvalidCheckSum
    ));
}

#[test]
fn validate_checksum_multi_field_body() {
    // "8=FIX.4.2\x019=25\x0135=D\x0149=SENDER\x0156=TARGET\x0110=195\x01"
    // sum of bytes before "10=" = 195
    let mut dec = Decoder::new();
    let msg = dec
        .decode(b"8=FIX.4.2\x019=25\x0135=D\x0149=SENDER\x0156=TARGET\x0110=195\x01")
        .unwrap();
    assert!(msg.validate_checksum().is_ok());
}

#[test]
fn validate_checksum_tag10_missing() {
    // No tag 10 as last field — should fail.
    let mut dec = Decoder::new();
    let msg = dec.decode(b"8=FIX.4.2\x0135=D\x01").unwrap();
    assert!(matches!(
        msg.validate_checksum().unwrap_err(),
        FixError::InvalidCheckSum
    ));
}

#[test]
fn validate_checksum_tag10_not_last_field() {
    // Tag 10 is not the last field — invalid structure.
    let mut dec = Decoder::new();
    let msg = dec.decode(b"8=FIX.4.2\x0110=181\x0135=D\x01").unwrap();
    assert!(matches!(
        msg.validate_checksum().unwrap_err(),
        FixError::InvalidCheckSum
    ));
}

#[test]
fn validate_both_correct_together() {
    // Both validations pass on the same well-formed message.
    let mut dec = Decoder::new();
    let msg = dec
        .decode(b"8=FIX.4.2\x019=25\x0135=D\x0149=SENDER\x0156=TARGET\x0110=195\x01")
        .unwrap();
    assert!(msg.validate_body_length().is_ok());
    assert!(msg.validate_checksum().is_ok());
}

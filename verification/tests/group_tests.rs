use fix_codec::decoder::Decoder;
use fix_codec::group;
use fix_codec::group::{parse_count, Group, GroupIter};
use fix_codec::tag;
use fix_codec::tag::Tag;

// Helper: build a raw wire byte string from "tag=value|..." notation using
// '|' as the terminator.
fn fix(s: &str) -> Vec<u8> {
    s.bytes().map(|b| if b == b'|' { 0x01 } else { b }).collect()
}

fn collect_groups<'a>(mut it: GroupIter<'a>) -> Vec<Group<'a>> {
    let mut out = Vec::new();
    while let Some(g) = it.next() {
        out.push(g);
    }
    out
}

// -----------------------------------------------------------------------
// parse_count
// -----------------------------------------------------------------------

#[test]
fn parse_count_normal() {
    assert_eq!(parse_count(b"3"), 3);
    assert_eq!(parse_count(b"10"), 10);
    assert_eq!(parse_count(b"0"), 0);
}

#[test]
fn parse_count_invalid_returns_zero() {
    assert_eq!(parse_count(b""), 0);
    assert_eq!(parse_count(b"abc"), 0);
    assert_eq!(parse_count(b"1a"), 0);
}

// -----------------------------------------------------------------------
// GroupIter — single group, one instance
// -----------------------------------------------------------------------

#[test]
fn single_group_single_instance() {
    // NO_MISC_FEES=1 | MiscFeeAmt=10.5 | MiscFeeCurr=USD | MiscFeeType=1
    let raw = fix("136=1|137=10.5|138=USD|139=1|");
    let mut dec = Decoder::new();
    let msg = dec.decode(&raw).unwrap();

    let mut iter = msg.groups(&group::misc_fees());
    let g = iter.next().expect("expected one instance");
    assert_eq!(g.len(), 3);
    assert_eq!(g.field(0).tag, tag::MISC_FEE_AMT);
    assert_eq!(g.field(0).value, b"10.5");
    assert_eq!(g.field(1).tag, tag::MISC_FEE_CURR);
    assert_eq!(g.field(1).value, b"USD");
    assert_eq!(g.field(2).tag, tag::MISC_FEE_TYPE);
    assert_eq!(g.field(2).value, b"1");
    assert!(iter.next().is_none());
}

// -----------------------------------------------------------------------
// GroupIter — single group, multiple instances
// -----------------------------------------------------------------------

#[test]
fn single_group_two_instances() {
    // NO_MISC_FEES=2 | instance1 | instance2
    let raw = fix("136=2|137=10.5|138=USD|139=1|137=5.0|138=EUR|139=2|");
    let mut dec = Decoder::new();
    let msg = dec.decode(&raw).unwrap();

    let instances = collect_groups(msg.groups(&group::misc_fees()));
    assert_eq!(instances.len(), 2);

    let g1 = &instances[0];
    assert_eq!(g1.find(tag::MISC_FEE_AMT).unwrap().value, b"10.5");
    assert_eq!(g1.find(tag::MISC_FEE_CURR).unwrap().value, b"USD");

    let g2 = &instances[1];
    assert_eq!(g2.find(tag::MISC_FEE_AMT).unwrap().value, b"5.0");
    assert_eq!(g2.find(tag::MISC_FEE_CURR).unwrap().value, b"EUR");
}

// -----------------------------------------------------------------------
// GroupIter — count=0 produces empty iterator
// -----------------------------------------------------------------------

#[test]
fn group_count_zero_empty_iter() {
    let raw = fix("136=0|35=D|");
    let mut dec = Decoder::new();
    let msg = dec.decode(&raw).unwrap();

    let mut iter = msg.groups(&group::misc_fees());
    assert!(iter.next().is_none());
}

// -----------------------------------------------------------------------
// GroupIter — count tag absent produces empty iterator
// -----------------------------------------------------------------------

#[test]
fn group_count_tag_absent_empty_iter() {
    let raw = fix("35=D|49=SENDER|56=TARGET|");
    let mut dec = Decoder::new();
    let msg = dec.decode(&raw).unwrap();

    let mut iter = msg.groups(&group::misc_fees());
    assert!(iter.next().is_none());
}

// -----------------------------------------------------------------------
// GroupIter — fields() and find() on a Group
// -----------------------------------------------------------------------

#[test]
fn group_fields_iter() {
    let raw = fix("136=1|137=9.99|138=GBP|139=3|");
    let mut dec = Decoder::new();
    let msg = dec.decode(&raw).unwrap();

    let g = msg.groups(&group::misc_fees()).next().unwrap();
    let tags: Vec<Tag> = g.fields().into_iter().map(|f| f.tag).collect();
    assert_eq!(
        tags,
        vec![tag::MISC_FEE_AMT, tag::MISC_FEE_CURR, tag::MISC_FEE_TYPE]
    );
}

#[test]
fn group_find_present_and_absent() {
    let raw = fix("136=1|137=9.99|138=GBP|");
    let mut dec = Decoder::new();
    let msg = dec.decode(&raw).unwrap();

    let g = msg.groups(&group::misc_fees()).next().unwrap();
    assert!(g.find(tag::MISC_FEE_AMT).is_some());
    assert!(g.find(tag::MISC_FEE_TYPE).is_none()); // not present in this instance
}

// -----------------------------------------------------------------------
// GroupIter — size_hint
// -----------------------------------------------------------------------

#[test]
fn group_iter_size_hint() {
    let raw = fix("136=3|137=1.0|137=2.0|137=3.0|");
    let mut dec = Decoder::new();
    let msg = dec.decode(&raw).unwrap();

    let mut iter = msg.groups(&group::misc_fees());
    assert_eq!(iter.size_hint(), (3, Some(3)));
    iter.next();
    assert_eq!(iter.size_hint(), (2, Some(2)));
    iter.next();
    assert_eq!(iter.size_hint(), (1, Some(1)));
    iter.next();
    assert_eq!(iter.size_hint(), (0, Some(0)));
}

// -----------------------------------------------------------------------
// Market-data entries — the most common use case
// -----------------------------------------------------------------------

#[test]
fn md_entries_two_instances() {
    // MDReqID + NO_MD_ENTRIES=2 + 2 entries each with type/px/size
    let raw = fix("262=REQ1|268=2|269=0|270=100.50|271=500|269=1|270=100.75|271=300|");
    let mut dec = Decoder::new();
    let msg = dec.decode(&raw).unwrap();

    let entries = collect_groups(msg.groups(&group::md_entries()));
    assert_eq!(entries.len(), 2);

    let bid = &entries[0];
    assert_eq!(bid.find(tag::MD_ENTRY_TYPE).unwrap().value, b"0");
    assert_eq!(bid.find(tag::MD_ENTRY_PX).unwrap().value, b"100.50");
    assert_eq!(bid.find(tag::MD_ENTRY_SIZE).unwrap().value, b"500");

    let offer = &entries[1];
    assert_eq!(offer.find(tag::MD_ENTRY_TYPE).unwrap().value, b"1");
    assert_eq!(offer.find(tag::MD_ENTRY_PX).unwrap().value, b"100.75");
    assert_eq!(offer.find(tag::MD_ENTRY_SIZE).unwrap().value, b"300");
}

// -----------------------------------------------------------------------
// Multiple different groups in the same message
// -----------------------------------------------------------------------

#[test]
fn multiple_group_types_in_message() {
    // A message with both NO_MISC_FEES and NO_ROUTING_IDS
    let raw = fix("35=D|136=1|137=1.50|138=USD|139=4|215=2|216=1|217=ROUTE_A|216=2|217=ROUTE_B|");
    let mut dec = Decoder::new();
    let msg = dec.decode(&raw).unwrap();

    // MiscFees group
    let fees = collect_groups(msg.groups(&group::misc_fees()));
    assert_eq!(fees.len(), 1);
    assert_eq!(fees[0].find(tag::MISC_FEE_AMT).unwrap().value, b"1.50");

    // RoutingIDs group
    let routes = collect_groups(msg.groups(&group::routing_ids()));
    assert_eq!(routes.len(), 2);
    assert_eq!(routes[0].find(tag::ROUTING_TYPE).unwrap().value, b"1");
    assert_eq!(routes[0].find(tag::ROUTING_ID).unwrap().value, b"ROUTE_A");
    assert_eq!(routes[1].find(tag::ROUTING_TYPE).unwrap().value, b"2");
    assert_eq!(routes[1].find(tag::ROUTING_ID).unwrap().value, b"ROUTE_B");
}

// -----------------------------------------------------------------------
// Group is_empty / len
// -----------------------------------------------------------------------

#[test]
fn group_is_empty_false_for_non_empty() {
    let raw = fix("136=1|137=1.0|");
    let mut dec = Decoder::new();
    let msg = dec.decode(&raw).unwrap();
    let g = msg.groups(&group::misc_fees()).next().unwrap();
    assert!(!g.is_empty());
    assert_eq!(g.len(), 1);
}

// -----------------------------------------------------------------------
// Nested groups — Group::groups()
// -----------------------------------------------------------------------

#[test]
fn nested_group_single_parent_single_child() {
    // SIDES=1, one side with NO_CONT_AMTS=1
    let raw = fix("552=1|54=1|37=ORD1|518=1|519=1|520=100.00|521=USD|");
    let mut dec = Decoder::new();
    let msg = dec.decode(&raw).unwrap();

    let side = msg.groups(&group::sides()).next().expect("expected one side");
    assert_eq!(side.find(tag::SIDE).unwrap().value, b"1");
    assert_eq!(side.find(tag::ORDER_ID).unwrap().value, b"ORD1");

    let mut nested = side.groups(&group::cont_amts());
    let ca = nested.next().expect("expected one ContAmt instance");
    assert!(nested.next().is_none());
    assert_eq!(ca.find(tag::CONT_AMT_TYPE).unwrap().value, b"1");
    assert_eq!(ca.find(tag::CONT_AMT_VALUE).unwrap().value, b"100.00");
    assert_eq!(ca.find(tag::CONT_AMT_CURR).unwrap().value, b"USD");
}

#[test]
fn nested_group_single_parent_multiple_children() {
    // SIDES=1, one side with NO_CONT_AMTS=2
    let raw = fix("552=1|54=1|518=2|519=1|520=100.00|521=USD|519=2|520=50.00|521=EUR|");
    let mut dec = Decoder::new();
    let msg = dec.decode(&raw).unwrap();

    let side = msg.groups(&group::sides()).next().unwrap();
    let cont_amts = collect_groups(side.groups(&group::cont_amts()));
    assert_eq!(cont_amts.len(), 2);
    assert_eq!(cont_amts[0].find(tag::CONT_AMT_TYPE).unwrap().value, b"1");
    assert_eq!(
        cont_amts[0].find(tag::CONT_AMT_VALUE).unwrap().value,
        b"100.00"
    );
    assert_eq!(cont_amts[0].find(tag::CONT_AMT_CURR).unwrap().value, b"USD");
    assert_eq!(cont_amts[1].find(tag::CONT_AMT_TYPE).unwrap().value, b"2");
    assert_eq!(
        cont_amts[1].find(tag::CONT_AMT_VALUE).unwrap().value,
        b"50.00"
    );
    assert_eq!(cont_amts[1].find(tag::CONT_AMT_CURR).unwrap().value, b"EUR");
}

#[test]
fn nested_group_multiple_parents_each_with_children() {
    // SIDES=2: side1 has 1 ContAmt, side2 has 2 — critical boundary test
    let raw = fix(
        "552=2|\
         54=1|518=1|519=1|520=100.00|521=USD|\
         54=2|518=2|519=1|520=5.00|521=EUR|519=2|520=3.00|521=GBP|",
    );
    let mut dec = Decoder::new();
    let msg = dec.decode(&raw).unwrap();

    let sides = collect_groups(msg.groups(&group::sides()));
    assert_eq!(sides.len(), 2);

    let side1_cas = collect_groups(sides[0].groups(&group::cont_amts()));
    assert_eq!(side1_cas.len(), 1);
    assert_eq!(
        side1_cas[0].find(tag::CONT_AMT_VALUE).unwrap().value,
        b"100.00"
    );
    assert_eq!(side1_cas[0].find(tag::CONT_AMT_CURR).unwrap().value, b"USD");

    let side2_cas = collect_groups(sides[1].groups(&group::cont_amts()));
    assert_eq!(side2_cas.len(), 2);
    assert_eq!(
        side2_cas[0].find(tag::CONT_AMT_VALUE).unwrap().value,
        b"5.00"
    );
    assert_eq!(side2_cas[0].find(tag::CONT_AMT_CURR).unwrap().value, b"EUR");
    assert_eq!(
        side2_cas[1].find(tag::CONT_AMT_VALUE).unwrap().value,
        b"3.00"
    );
    assert_eq!(side2_cas[1].find(tag::CONT_AMT_CURR).unwrap().value, b"GBP");
}

#[test]
fn nested_group_two_different_nested_groups_in_same_parent() {
    // SIDES=1, one side with NO_CONT_AMTS=1 and NO_MISC_FEES=1
    let raw = fix("552=1|54=1|518=1|519=1|520=100.00|521=USD|136=1|137=10.00|138=EUR|139=1|");
    let mut dec = Decoder::new();
    let msg = dec.decode(&raw).unwrap();

    let side = msg.groups(&group::sides()).next().unwrap();

    let cont_amts = collect_groups(side.groups(&group::cont_amts()));
    assert_eq!(cont_amts.len(), 1);
    assert_eq!(
        cont_amts[0].find(tag::CONT_AMT_VALUE).unwrap().value,
        b"100.00"
    );
    assert_eq!(cont_amts[0].find(tag::CONT_AMT_CURR).unwrap().value, b"USD");

    let misc_fees = collect_groups(side.groups(&group::misc_fees()));
    assert_eq!(misc_fees.len(), 1);
    assert_eq!(misc_fees[0].find(tag::MISC_FEE_AMT).unwrap().value, b"10.00");
    assert_eq!(misc_fees[0].find(tag::MISC_FEE_CURR).unwrap().value, b"EUR");
    assert_eq!(misc_fees[0].find(tag::MISC_FEE_TYPE).unwrap().value, b"1");
}

#[test]
fn nested_group_count_tag_absent_yields_empty() {
    // SIDES=1, one side with no NO_CONT_AMTS tag at all
    let raw = fix("552=1|54=1|37=ORD1|");
    let mut dec = Decoder::new();
    let msg = dec.decode(&raw).unwrap();

    let side = msg.groups(&group::sides()).next().unwrap();
    assert!(side.groups(&group::cont_amts()).next().is_none());
}

#[test]
fn nested_group_count_zero_yields_empty() {
    // SIDES=1, one side with NO_CONT_AMTS=0
    let raw = fix("552=1|54=1|37=ORD1|518=0|");
    let mut dec = Decoder::new();
    let msg = dec.decode(&raw).unwrap();

    let side = msg.groups(&group::sides()).next().unwrap();
    assert!(side.groups(&group::cont_amts()).next().is_none());
}

#[test]
fn nested_group_iter_size_hint() {
    // SIDES=1, one side with NO_CONT_AMTS=3
    let raw = fix("552=1|54=1|518=3|519=1|520=10.00|519=2|520=20.00|519=3|520=30.00|");
    let mut dec = Decoder::new();
    let msg = dec.decode(&raw).unwrap();

    let side = msg.groups(&group::sides()).next().unwrap();
    let mut nested = side.groups(&group::cont_amts());
    assert_eq!(nested.size_hint(), (3, Some(3)));
    nested.next();
    assert_eq!(nested.size_hint(), (2, Some(2)));
    nested.next();
    assert_eq!(nested.size_hint(), (1, Some(1)));
    nested.next();
    assert_eq!(nested.size_hint(), (0, Some(0)));
    assert!(nested.next().is_none());
}

//! The flat namespace of numeric tag identifiers, and tag parsing.
//!
//! The constants are reference data from the protocol dictionaries; the
//! codec's own logic only relies on [`BEGIN_STRING`], [`BODY_LENGTH`] and
//! [`CHECK_SUM`], plus the count and delimiter tags named by each
//! [`crate::group::GroupSpec`].

use vstd::prelude::*;
use crate::digits::{all_digits, dec_value, parse_bounded};
use crate::error::FixError;

verus! {

/// A field's numeric identifier on the wire.
pub type Tag = u32;

pub const ACCOUNT: Tag = 1;
pub const BEGIN_STRING: Tag = 8;
pub const BODY_LENGTH: Tag = 9;
pub const CHECK_SUM: Tag = 10;
pub const CL_ORD_ID: Tag = 11;
pub const COMMISSION: Tag = 12;
pub const COMM_TYPE: Tag = 13;
pub const CURRENCY: Tag = 15;
pub const EXEC_ID: Tag = 17;
pub const EXEC_INST: Tag = 18;
pub const HANDL_INST: Tag = 21;
pub const ID_SOURCE: Tag = 22;
pub const IOI_ID: Tag = 23;
pub const LAST_CAPACITY: Tag = 29;
pub const LAST_PX: Tag = 31;
pub const LAST_SHARES: Tag = 32;
pub const ORDER_ID: Tag = 37;
pub const ORDER_QTY: Tag = 38;
pub const ORD_TYPE: Tag = 40;
pub const PRICE: Tag = 44;
pub const RELATD_SYM: Tag = 46;
pub const RULE80A: Tag = 47;
pub const SECURITY_ID: Tag = 48;
pub const SIDE: Tag = 54;
pub const SYMBOL: Tag = 55;
pub const TEXT: Tag = 58;
pub const TIME_IN_FORCE: Tag = 59;
pub const TRANSACT_TIME: Tag = 60;
pub const VALID_UNTIL_TIME: Tag = 62;
pub const SETTLMNT_TYP: Tag = 63;
pub const FUT_SETT_DATE: Tag = 64;
pub const SYMBOL_SFX: Tag = 65;
pub const LIST_ID: Tag = 66;
pub const LIST_SEQ_NO: Tag = 67;
pub const ALLOC_ID: Tag = 70;
pub const NO_ORDERS: Tag = 73;
pub const OPEN_CLOSE: Tag = 77;
pub const POSITION_EFFECT: Tag = 77;
pub const NO_ALLOCS: Tag = 78;
pub const ALLOC_ACCOUNT: Tag = 79;
pub const ALLOC_SHARES: Tag = 80;
pub const PROCESS_CODE: Tag = 81;
pub const NO_RPTS: Tag = 82;
pub const RPT_SEQ: Tag = 83;
pub const NO_DLVY_INST: Tag = 85;
pub const DLVY_INST: Tag = 86;
pub const STOP_PX: Tag = 99;
pub const EX_DESTINATION: Tag = 100;
pub const IOI_QUALIFIER: Tag = 104;
pub const WAVE_NO: Tag = 105;
pub const ISSUER: Tag = 106;
pub const SECURITY_DESC: Tag = 107;
pub const MIN_QTY: Tag = 110;
pub const MAX_FLOOR: Tag = 111;
pub const LOCATE_REQD: Tag = 114;
pub const NET_MONEY: Tag = 118;
pub const SETTL_CURR_AMT: Tag = 119;
pub const SETTL_CURRENCY: Tag = 120;
pub const FOREX_REQ: Tag = 121;
pub const NO_EXECS: Tag = 124;
pub const EXPIRE_TIME: Tag = 126;
pub const BID_PX: Tag = 132;
pub const OFFER_PX: Tag = 133;
pub const BID_SIZE: Tag = 134;
pub const OFFER_SIZE: Tag = 135;
pub const NO_MISC_FEES: Tag = 136;
pub const MISC_FEE_AMT: Tag = 137;
pub const MISC_FEE_CURR: Tag = 138;
pub const MISC_FEE_TYPE: Tag = 139;
pub const NO_RELATED_SYM: Tag = 146;
pub const CASH_ORDER_QTY: Tag = 152;
pub const SETTL_CURR_FX_RATE: Tag = 155;
pub const SETTL_CURR_FX_RATE_CALC: Tag = 156;
pub const NUM_DAYS_INTEREST: Tag = 157;
pub const ACCRUED_INTEREST_RATE: Tag = 158;
pub const ACCRUED_INTEREST_AMT: Tag = 159;
pub const SETTL_INST_MODE: Tag = 160;
pub const SETTL_INST_ID: Tag = 162;
pub const SETTL_INST_TRANS_TYPE: Tag = 163;
pub const SETTL_INST_SOURCE: Tag = 165;
pub const SECURITY_TYPE: Tag = 167;
pub const EFFECTIVE_TIME: Tag = 168;
pub const BID_SPOT_RATE: Tag = 188;
pub const BID_FORWARD_POINTS: Tag = 189;
pub const OFFER_SPOT_RATE: Tag = 190;
pub const OFFER_FORWARD_POINTS: Tag = 191;
pub const SECONDARY_ORDER_ID: Tag = 198;
pub const NO_IOI_QUALIFIERS: Tag = 199;
pub const MATURITY_MONTH_YEAR: Tag = 200;
pub const PUT_OR_CALL: Tag = 201;
pub const STRIKE_PRICE: Tag = 202;
pub const COVERED_OR_UNCOVERED: Tag = 203;
pub const CUSTOMER_OR_FIRM: Tag = 204;
pub const MATURITY_DAY: Tag = 205;
pub const OPT_ATTRIBUTE: Tag = 206;
pub const SECURITY_EXCHANGE: Tag = 207;
pub const MAX_SHOW: Tag = 210;
pub const PEG_DIFFERENCE: Tag = 211;
pub const SETTL_INST_REF_ID: Tag = 214;
pub const NO_ROUTING_IDS: Tag = 215;
pub const ROUTING_TYPE: Tag = 216;
pub const ROUTING_ID: Tag = 217;
pub const COUPON_RATE: Tag = 223;
pub const CONTRACT_MULTIPLIER: Tag = 231;
pub const UNDERLYING_COUPON_PAYMENT_DATE: Tag = 241;
pub const UNDERLYING_ISSUE_DATE: Tag = 242;
pub const UNDERLYING_REPO_COLLATERAL_SECURITY_TYPE: Tag = 243;
pub const UNDERLYING_REPURCHASE_TERM: Tag = 244;
pub const UNDERLYING_REPURCHASE_RATE: Tag = 245;
pub const UNDERLYING_FACTOR: Tag = 246;
pub const UNDERLYING_REDEMPTION_DATE: Tag = 247;
pub const UNDERLYING_CREDIT_RATING: Tag = 256;
pub const NO_MD_ENTRY_TYPES: Tag = 267;
pub const NO_MD_ENTRIES: Tag = 268;
pub const MD_ENTRY_TYPE: Tag = 269;
pub const MD_ENTRY_PX: Tag = 270;
pub const MD_ENTRY_SIZE: Tag = 271;
pub const MD_ENTRY_DATE: Tag = 272;
pub const MD_ENTRY_TIME: Tag = 273;
pub const TICK_DIRECTION: Tag = 274;
pub const MD_MKT: Tag = 275;
pub const QUOTE_CONDITION: Tag = 276;
pub const TRADE_CONDITION: Tag = 277;
pub const MD_ENTRY_ID: Tag = 278;
pub const MD_UPDATE_ACTION: Tag = 279;
pub const MD_ENTRY_REF_ID: Tag = 280;
pub const MD_ENTRY_ORIGINATOR: Tag = 282;
pub const LOCATION_ID: Tag = 283;
pub const DESK_ID: Tag = 284;
pub const OPEN_CLOSE_SETTLE_FLAG: Tag = 286;
pub const SELLER_DAYS: Tag = 287;
pub const MD_ENTRY_BUYER: Tag = 288;
pub const MD_ENTRY_SELLER: Tag = 289;
pub const MD_ENTRY_POSITION_NO: Tag = 290;
pub const FINANCIAL_STATUS: Tag = 291;
pub const CORPORATE_ACTION: Tag = 292;
pub const NO_QUOTE_ENTRIES: Tag = 295;
pub const NO_QUOTE_SETS: Tag = 296;
pub const QUOTE_ENTRY_ID: Tag = 299;
pub const QUOTE_SET_ID: Tag = 302;
pub const TOT_QUOTE_ENTRIES: Tag = 304;
pub const UNDERLYING_ID_SOURCE: Tag = 305;
pub const UNDERLYING_ISSUER: Tag = 306;
pub const UNDERLYING_SECURITY_DESC: Tag = 307;
pub const UNDERLYING_SECURITY_EXCHANGE: Tag = 308;
pub const UNDERLYING_SECURITY_ID: Tag = 309;
pub const UNDERLYING_SECURITY_TYPE: Tag = 310;
pub const UNDERLYING_SYMBOL: Tag = 311;
pub const UNDERLYING_SYMBOL_SFX: Tag = 312;
pub const UNDERLYING_MATURITY_MONTH_YEAR: Tag = 313;
pub const UNDERLYING_MATURITY_DAY: Tag = 314;
pub const UNDERLYING_PUT_OR_CALL: Tag = 315;
pub const UNDERLYING_STRIKE_PRICE: Tag = 316;
pub const UNDERLYING_OPT_ATTRIBUTE: Tag = 317;
pub const UNDERLYING_CURRENCY: Tag = 318;
pub const TRADING_SESSION_ID: Tag = 336;
pub const CONTRA_TRADER: Tag = 337;
pub const ENCODED_TEXT_LEN: Tag = 354;
pub const ENCODED_TEXT: Tag = 355;
pub const ENCODED_UNDERLYING_ISSUER_LEN: Tag = 362;
pub const ENCODED_UNDERLYING_ISSUER: Tag = 363;
pub const ENCODED_UNDERLYING_SECURITY_DESC_LEN: Tag = 364;
pub const ENCODED_UNDERLYING_SECURITY_DESC: Tag = 365;
pub const QUOTE_SET_VALID_UNTIL_TIME: Tag = 367;
pub const QUOTE_ENTRY_REJECT_REASON: Tag = 368;
pub const REF_MSG_TYPE: Tag = 372;
pub const CONTRA_BROKER: Tag = 375;
pub const COMPLIANCE_ID: Tag = 376;
pub const SOLICITED_FLAG: Tag = 377;
pub const GROSS_TRADE_AMT: Tag = 381;
pub const NO_CONTRA_BROKERS: Tag = 382;
pub const NO_MSG_TYPES: Tag = 384;
pub const MSG_DIRECTION: Tag = 385;
pub const NO_TRADING_SESSIONS: Tag = 386;
pub const DISCRETION_INST: Tag = 388;
pub const DISCRETION_OFFSET: Tag = 389;
pub const NO_BID_DESCRIPTORS: Tag = 398;
pub const BID_DESCRIPTOR_TYPE: Tag = 399;
pub const BID_DESCRIPTOR: Tag = 400;
pub const SIDE_VALUE_IND: Tag = 401;
pub const LIQUIDITY_PCT_LOW: Tag = 402;
pub const LIQUIDITY_PCT_HIGH: Tag = 403;
pub const LIQUIDITY_VALUE: Tag = 404;
pub const EFP_TRACKING_ERROR: Tag = 405;
pub const FAIR_VALUE: Tag = 406;
pub const OUTSIDE_INDEX_PCT: Tag = 407;
pub const VALUE_OF_FUTURES: Tag = 408;
pub const LIQUIDITY_IND_TYPE: Tag = 409;
pub const WT_AVERAGE_LIQUIDITY: Tag = 410;
pub const EXCHANGE_FOR_PHYSICAL: Tag = 411;
pub const OUT_MAIN_CNTRY_U_INDEX: Tag = 412;
pub const CROSS_PERCENT: Tag = 413;
pub const PROG_RPT_REQS: Tag = 414;
pub const PROG_PERIOD_INTERVAL: Tag = 415;
pub const INC_TAX_IND: Tag = 416;
pub const NUM_BIDDERS: Tag = 417;
pub const TRADE_TYPE: Tag = 418;
pub const BASIS_PX_TYPE: Tag = 419;
pub const NO_BID_COMPONENTS: Tag = 420;
pub const COUNTRY: Tag = 421;
pub const PRICE_TYPE: Tag = 423;
pub const NO_STRIKES: Tag = 428;
pub const UNDERLYING_COUPON_RATE: Tag = 435;
pub const UNDERLYING_CONTRACT_MULTIPLIER: Tag = 436;
pub const CONTRA_TRADE_QTY: Tag = 437;
pub const CONTRA_TRADE_TIME: Tag = 438;
pub const CLEARING_FIRM: Tag = 439;
pub const CLEARING_ACCOUNT: Tag = 440;
pub const LIQUIDITY_NUM_SECURITIES: Tag = 441;
pub const PARTY_ID_SOURCE: Tag = 447;
pub const PARTY_ID: Tag = 448;
pub const PARTY_ROLE: Tag = 452;
pub const NO_PARTY_IDS: Tag = 453;
pub const NO_SECURITY_ALT_ID: Tag = 454;
pub const SECURITY_ALT_ID: Tag = 455;
pub const SECURITY_ALT_ID_SOURCE: Tag = 456;
pub const NO_UNDERLYING_SECURITY_ALT_ID: Tag = 457;
pub const UNDERLYING_SECURITY_ALT_ID: Tag = 458;
pub const UNDERLYING_SECURITY_ALT_ID_SOURCE: Tag = 459;
pub const PRODUCT: Tag = 460;
pub const CFI_CODE: Tag = 461;
pub const UNDERLYING_PRODUCT: Tag = 462;
pub const UNDERLYING_CFI_CODE: Tag = 463;
pub const INDIVIDUAL_ALLOC_ID: Tag = 467;
pub const NO_REGIST_DTLS: Tag = 473;
pub const MAILING_DTLS: Tag = 474;
pub const INVESTOR_COUNTRY_OF_RESIDENCE: Tag = 475;
pub const DISTRIB_PAYMENT_METHOD: Tag = 477;
pub const CASH_DISTRIB_CURR: Tag = 478;
pub const COMM_CURRENCY: Tag = 479;
pub const MAILING_INST: Tag = 482;
pub const TRANS_BKD_TIME: Tag = 483;
pub const FUND_RENEW_WAIV: Tag = 497;
pub const CASH_DISTRIB_AGENT_NAME: Tag = 498;
pub const CASH_DISTRIB_AGENT_CODE: Tag = 499;
pub const CASH_DISTRIB_AGENT_ACCT_NUMBER: Tag = 500;
pub const CASH_DISTRIB_PAY_REF: Tag = 501;
pub const CASH_DISTRIB_AGENT_ACCT_NAME: Tag = 502;
pub const REGIST_DTLS: Tag = 509;
pub const NO_DISTRIB_INSTS: Tag = 510;
pub const REGIST_EMAIL: Tag = 511;
pub const DISTRIB_PERCENTAGE: Tag = 512;
pub const REGIST_ID: Tag = 513;
pub const REGIST_TRANS_TYPE: Tag = 514;
pub const NO_CONT_AMTS: Tag = 518;
pub const CONT_AMT_TYPE: Tag = 519;
pub const CONT_AMT_VALUE: Tag = 520;
pub const CONT_AMT_CURR: Tag = 521;
pub const OWNER_TYPE: Tag = 522;
pub const PARTY_SUB_ID: Tag = 523;
pub const NESTED_PARTY_ID: Tag = 524;
pub const NESTED_PARTY_ID_SOURCE: Tag = 525;
pub const SECONDARY_CL_ORD_ID: Tag = 526;
pub const ORDER_CAPACITY: Tag = 528;
pub const ORDER_RESTRICTIONS: Tag = 529;
pub const NO_AFFECTED_ORDERS: Tag = 534;
pub const AFFECTED_ORDER_ID: Tag = 535;
pub const AFFECTED_SECONDARY_ORDER_ID: Tag = 536;
pub const NESTED_PARTY_ROLE: Tag = 538;
pub const NO_NESTED_PARTY_IDS: Tag = 539;
pub const UNDERLYING_MATURITY_DATE: Tag = 542;
pub const NESTED_PARTY_SUB_ID: Tag = 545;
pub const NO_SIDES: Tag = 552;
pub const NO_LEGS: Tag = 555;
pub const LEG_CURRENCY: Tag = 556;
pub const NO_SECURITY_TYPES: Tag = 558;
pub const LEG_POSITION_EFFECT: Tag = 564;
pub const LEG_COVERED_OR_UNCOVERED: Tag = 565;
pub const LEG_PRICE: Tag = 566;
pub const TRADE_REPORT_ID: Tag = 571;
pub const ODD_LOT: Tag = 575;
pub const NO_CLEARING_INSTRUCTIONS: Tag = 576;
pub const CLEARING_INSTRUCTION: Tag = 577;
pub const TRADE_INPUT_SOURCE: Tag = 578;
pub const TRADE_INPUT_DEVICE: Tag = 579;
pub const ACCOUNT_TYPE: Tag = 581;
pub const CUST_ORDER_CAPACITY: Tag = 582;
pub const LEG_SETTL_TYPE: Tag = 587;
pub const LEG_SETTL_DATE: Tag = 588;
pub const PREALLOC_METHOD: Tag = 591;
pub const UNDERLYING_COUNTRY_OF_ISSUE: Tag = 592;
pub const UNDERLYING_STATE_OR_PROVINCE_OF_ISSUE: Tag = 593;
pub const UNDERLYING_LOCALE_OF_ISSUE: Tag = 594;
pub const UNDERLYING_INSTR_REGISTRY: Tag = 595;
pub const LEG_COUNTRY_OF_ISSUE: Tag = 596;
pub const LEG_STATE_OR_PROVINCE_OF_ISSUE: Tag = 597;
pub const LEG_LOCALE_OF_ISSUE: Tag = 598;
pub const LEG_INSTR_REGISTRY: Tag = 599;
pub const LEG_SYMBOL: Tag = 600;
pub const LEG_SYMBOL_SFX: Tag = 601;
pub const LEG_SECURITY_ID: Tag = 602;
pub const LEG_SECURITY_ID_SOURCE: Tag = 603;
pub const NO_LEG_SECURITY_ALT_ID: Tag = 604;
pub const LEG_SECURITY_ALT_ID: Tag = 605;
pub const LEG_SECURITY_ALT_ID_SOURCE: Tag = 606;
pub const LEG_PRODUCT: Tag = 607;
pub const LEG_CFI_CODE: Tag = 608;
pub const LEG_SECURITY_TYPE: Tag = 609;
pub const LEG_MATURITY_MONTH_YEAR: Tag = 610;
pub const LEG_MATURITY_DATE: Tag = 611;
pub const LEG_STRIKE_PRICE: Tag = 612;
pub const LEG_OPT_ATTRIBUTE: Tag = 613;
pub const LEG_CONTRACT_MULTIPLIER: Tag = 614;
pub const LEG_COUPON_RATE: Tag = 615;
pub const LEG_SECURITY_EXCHANGE: Tag = 616;
pub const LEG_ISSUER: Tag = 617;
pub const ENCODED_LEG_ISSUER_LEN: Tag = 618;
pub const ENCODED_LEG_ISSUER: Tag = 619;
pub const LEG_SECURITY_DESC: Tag = 620;
pub const ENCODED_LEG_SECURITY_DESC_LEN: Tag = 621;
pub const ENCODED_LEG_SECURITY_DESC: Tag = 622;
pub const LEG_RATIO_QTY: Tag = 623;
pub const LEG_SIDE: Tag = 624;
pub const TRADING_SESSION_SUB_ID: Tag = 625;
pub const NO_HOPS: Tag = 627;
pub const HOP_COMP_ID: Tag = 628;
pub const HOP_SENDING_TIME: Tag = 629;
pub const HOP_REF_ID: Tag = 630;
pub const CLEARING_FEE_INDICATOR: Tag = 635;
pub const LEG_LAST_PX: Tag = 637;
pub const UNDERLYING_LAST_PX: Tag = 651;
pub const UNDERLYING_LAST_QTY: Tag = 652;
pub const LEG_REF_ID: Tag = 654;
pub const ACCT_ID_SOURCE: Tag = 660;
pub const ALLOC_ACCT_ID_SOURCE: Tag = 661;
pub const NO_LEG_ALLOCS: Tag = 670;
pub const LEG_ALLOC_ACCOUNT: Tag = 671;
pub const LEG_INDIVIDUAL_ALLOC_ID: Tag = 672;
pub const LEG_ALLOC_QTY: Tag = 673;
pub const LEG_ALLOC_ACCT_ID_SOURCE: Tag = 674;
pub const LEG_SETTL_CURRENCY: Tag = 675;
pub const NO_LEG_STIPULATIONS: Tag = 683;
pub const LEG_QTY: Tag = 687;
pub const LEG_STIPULATION_TYPE: Tag = 688;
pub const LEG_STIPULATION_VALUE: Tag = 689;
pub const LEG_SWAP_TYPE: Tag = 690;
pub const QUOTE_QUALIFIER: Tag = 695;
pub const NO_POSITIONS: Tag = 702;
pub const POS_TYPE: Tag = 703;
pub const LONG_QTY: Tag = 704;
pub const SHORT_QTY: Tag = 705;
pub const POS_QTY_STATUS: Tag = 706;
pub const POS_AMT_TYPE: Tag = 707;
pub const POS_AMT: Tag = 708;
pub const NO_UNDERLYINGS: Tag = 711;
pub const UNDERLYING_SETTL_PRICE: Tag = 732;
pub const UNDERLYING_SETTL_PRICE_TYPE: Tag = 733;
pub const NO_QUOTE_QUALIFIERS: Tag = 735;
pub const ALLOC_SETTL_CURRENCY: Tag = 736;
pub const INTEREST_AT_MATURITY: Tag = 738;
pub const LEG_DATED_DATE: Tag = 739;
pub const LEG_POOL: Tag = 740;
pub const SIDE_MULTI_LEG_REPORTING_TYPE: Tag = 752;
pub const NO_POS_AMT: Tag = 753;
pub const NO_NESTED2_PARTY_IDS: Tag = 756;
pub const NESTED2_PARTY_ID: Tag = 757;
pub const NESTED2_PARTY_ID_SOURCE: Tag = 758;
pub const NESTED2_PARTY_ROLE: Tag = 759;
pub const NESTED2_PARTY_SUB_ID: Tag = 760;
pub const UNDERLYING_SECURITY_SUB_TYPE: Tag = 763;
pub const NO_TRD_REG_TIMESTAMPS: Tag = 768;
pub const TRD_REG_TIMESTAMP: Tag = 769;
pub const TRD_REG_TIMESTAMP_TYPE: Tag = 770;
pub const TRD_REG_TIMESTAMP_ORIGIN: Tag = 771;
pub const NO_SETTL_INST: Tag = 778;
pub const NO_SETTL_PARTY_IDS: Tag = 781;
pub const SETTL_PARTY_ID: Tag = 782;
pub const SETTL_PARTY_ID_SOURCE: Tag = 783;
pub const SETTL_PARTY_ROLE: Tag = 784;
pub const SETTL_PARTY_SUB_ID: Tag = 785;
pub const SETTL_PARTY_SUB_ID_TYPE: Tag = 786;
pub const NO_PARTY_SUB_IDS: Tag = 802;
pub const PARTY_SUB_ID_TYPE: Tag = 803;
pub const NO_NESTED_PARTY_SUB_IDS: Tag = 804;
pub const NESTED_PARTY_SUB_ID_TYPE: Tag = 805;
pub const NO_NESTED2_PARTY_SUB_IDS: Tag = 806;
pub const NESTED2_PARTY_SUB_ID_TYPE: Tag = 807;
pub const NO_ALT_MD_SOURCE: Tag = 816;
pub const ALT_MD_SOURCE_ID: Tag = 817;
pub const SECONDARY_TRADE_REPORT_ID: Tag = 818;
pub const ORDER_INPUT_DEVICE: Tag = 821;
pub const EXCHANGE_RULE: Tag = 825;
pub const TRADE_ALLOC_INDICATOR: Tag = 826;
pub const NO_CAPACITIES: Tag = 862;
pub const ORDER_CAPACITY_QTY: Tag = 863;
pub const NO_EVENTS: Tag = 864;
pub const EVENT_TYPE: Tag = 865;
pub const EVENT_DATE: Tag = 866;
pub const EVENT_PX: Tag = 867;
pub const EVENT_TEXT: Tag = 868;
pub const NO_INSTR_ATTRIB: Tag = 870;
pub const INSTR_ATTRIB_TYPE: Tag = 871;
pub const INSTR_ATTRIB_VALUE: Tag = 872;
pub const UNDERLYING_CP_PROGRAM: Tag = 877;
pub const UNDERLYING_CP_REG_TYPE: Tag = 878;
pub const UNDERLYING_QTY: Tag = 879;
pub const UNDERLYING_DIRTY_PRICE: Tag = 882;
pub const UNDERLYING_END_PRICE: Tag = 883;
pub const UNDERLYING_START_VALUE: Tag = 884;
pub const UNDERLYING_CURRENT_VALUE: Tag = 885;
pub const UNDERLYING_END_VALUE: Tag = 886;
pub const NO_UNDERLYING_STIPS: Tag = 887;
pub const UNDERLYING_STIP_TYPE: Tag = 888;
pub const UNDERLYING_STIP_VALUE: Tag = 889;
pub const MISC_FEE_BASIS: Tag = 891;
pub const COLL_INQUIRY_QUALIFIER: Tag = 896;
pub const NO_TRADES: Tag = 897;
pub const END_ACCRUED_INTEREST_AMT: Tag = 920;
pub const START_CASH: Tag = 921;
pub const END_CASH: Tag = 922;
pub const STATUS_VALUE: Tag = 928;
pub const STATUS_TEXT: Tag = 929;
pub const REF_COMP_ID: Tag = 930;
pub const REF_SUB_ID: Tag = 931;
pub const NO_COMP_IDS: Tag = 936;
pub const NO_COLL_INQUIRY_QUALIFIER: Tag = 938;
pub const UNDERLYING_STRIKE_CURRENCY: Tag = 941;
pub const NO_NESTED3_PARTY_IDS: Tag = 948;
pub const NESTED3_PARTY_ID: Tag = 949;
pub const NESTED3_PARTY_ID_SOURCE: Tag = 950;
pub const NESTED3_PARTY_ROLE: Tag = 951;
pub const NESTED3_PARTY_SUB_ID: Tag = 953;
pub const NESTED3_PARTY_SUB_ID_TYPE: Tag = 954;
pub const LEG_CONTRACT_SETTL_MONTH: Tag = 955;
pub const LEG_INTEREST_ACCRUAL_DATE: Tag = 956;

/// Whether a digit string is a well-formed tag: non-empty, all ASCII decimal
/// digits, and worth at most `u32::MAX`.
pub open spec fn valid_tag_bytes(s: Seq<u8>) -> bool {
    s.len() > 0 && all_digits(s) && dec_value(s) <= u32::MAX
}

/// Parse a tag: a non-empty run of ASCII decimal digits whose value fits in
/// 32 bits. Anything else — an empty run, a non-digit byte, or numeric
/// overflow — fails with `InvalidTag`.
pub fn parse_tag(bytes: &[u8]) -> (r: Result<Tag, FixError>)
    ensures
        match r {
            Ok(t) => valid_tag_bytes(bytes@) && dec_value(bytes@) == t,
            Err(e) => e is InvalidTag && !valid_tag_bytes(bytes@),
        },
{
    match parse_bounded(bytes, 0xFFFF_FFFFu64) {
        Some(v) => Ok(v as u32),
        None => Err(FixError::InvalidTag),
    }
}

} // verus!

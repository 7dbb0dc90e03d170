//! The repeating-group engine: a schema names a count tag and a delimiter
//! tag; the engine segments the entries after the count tag into instances,
//! each opened by an occurrence of the delimiter tag, and yields them one by
//! one, capped by the declared count. A group instance exposes the same view
//! operations as a message, restricted to its own bounded sub-range, so
//! nesting can never read a sibling's fields.

use vstd::prelude::*;
use crate::digits::all_digits;
use crate::field::Field;
use crate::message::find_first_in;
use crate::table::{first_tag_from, first_pos_from, lemma_first_tag_from_spec, table_wf};
use crate::tag;
use crate::tag::Tag;

verus! {

/// Describes one repeating group of the protocol dictionary.
///
/// - `count_tag`: the tag that precedes the group and carries the declared
///   instance count.
/// - `delimiter_tag`: the first tag of every instance; its reappearance
///   signals a new instance.
/// - `member_tags`: all tags that may appear inside an instance, the
///   delimiter tag among them. Reference data only: the engine itself reads
///   just the count and delimiter tags.
#[derive(Clone, Copy)]
pub struct GroupSpec {
    pub count_tag: Tag,
    pub delimiter_tag: Tag,
    pub member_tags: &'static [Tag],
}

/// NO_ALLOCS (78) — AllocAccount is the delimiter tag.
pub fn allocs() -> (r: GroupSpec)
    ensures
        r.count_tag == tag::NO_ALLOCS,
        r.delimiter_tag == tag::ALLOC_ACCOUNT,
{
    GroupSpec {
        count_tag: tag::NO_ALLOCS,
        delimiter_tag: tag::ALLOC_ACCOUNT,
        member_tags: &[tag::ALLOC_ACCOUNT, tag::ALLOC_SHARES, tag::PROCESS_CODE],
    }
}

/// NO_ORDERS (73) — ClOrdID is the delimiter tag.
pub fn orders() -> (r: GroupSpec)
    ensures
        r.count_tag == tag::NO_ORDERS,
        r.delimiter_tag == tag::CL_ORD_ID,
{
    GroupSpec {
        count_tag: tag::NO_ORDERS,
        delimiter_tag: tag::CL_ORD_ID,
        member_tags: &[
            tag::CL_ORD_ID,
            tag::LIST_SEQ_NO,
            tag::WAVE_NO,
            tag::ACCOUNT,
            tag::SETTLMNT_TYP,
            tag::FUT_SETT_DATE,
            tag::HANDL_INST,
            tag::EXEC_INST,
            tag::MIN_QTY,
            tag::MAX_FLOOR,
            tag::EX_DESTINATION,
            tag::OPEN_CLOSE,
            tag::COVERED_OR_UNCOVERED,
            tag::CUSTOMER_OR_FIRM,
            tag::MAX_SHOW,
            tag::PRICE,
            tag::STOP_PX,
            tag::PEG_DIFFERENCE,
            tag::DISCRETION_INST,
            tag::DISCRETION_OFFSET,
            tag::CURRENCY,
            tag::COMPLIANCE_ID,
            tag::SOLICITED_FLAG,
            tag::IOI_ID,
            tag::TIME_IN_FORCE,
            tag::EXPIRE_TIME,
            tag::COMMISSION,
            tag::RULE80A,
            tag::FOREX_REQ,
            tag::SETTL_CURRENCY,
            tag::ORDER_QTY,
            tag::CASH_ORDER_QTY,
            tag::ORD_TYPE,
            tag::SIDE,
            tag::LOCATE_REQD,
            tag::TRANSACT_TIME,
            tag::SYMBOL,
            tag::SYMBOL_SFX,
            tag::SECURITY_ID,
            tag::ID_SOURCE,
            tag::SECURITY_TYPE,
            tag::MATURITY_MONTH_YEAR,
            tag::MATURITY_DAY,
            tag::PUT_OR_CALL,
            tag::STRIKE_PRICE,
            tag::OPT_ATTRIBUTE,
            tag::CONTRACT_MULTIPLIER,
            tag::COUPON_RATE,
            tag::SECURITY_EXCHANGE,
            tag::ISSUER,
            tag::SECURITY_DESC,
            tag::TEXT,
        ],
    }
}

/// NO_RPTS (82) — RptSeq is the delimiter tag.
pub fn rpts() -> (r: GroupSpec)
    ensures
        r.count_tag == tag::NO_RPTS,
        r.delimiter_tag == tag::RPT_SEQ,
{
    GroupSpec {
        count_tag: tag::NO_RPTS,
        delimiter_tag: tag::RPT_SEQ,
        member_tags: &[tag::RPT_SEQ],
    }
}

/// NO_DLVY_INST (85) — DlvyInst is the delimiter tag.
pub fn dlvy_inst() -> (r: GroupSpec)
    ensures
        r.count_tag == tag::NO_DLVY_INST,
        r.delimiter_tag == tag::DLVY_INST,
{
    GroupSpec {
        count_tag: tag::NO_DLVY_INST,
        delimiter_tag: tag::DLVY_INST,
        member_tags: &[tag::DLVY_INST],
    }
}

/// NO_EXECS (124) — ExecID is the delimiter tag.
pub fn execs() -> (r: GroupSpec)
    ensures
        r.count_tag == tag::NO_EXECS,
        r.delimiter_tag == tag::EXEC_ID,
{
    GroupSpec {
        count_tag: tag::NO_EXECS,
        delimiter_tag: tag::EXEC_ID,
        member_tags: &[tag::EXEC_ID, tag::LAST_SHARES, tag::LAST_PX, tag::LAST_CAPACITY],
    }
}

/// NO_MISC_FEES (136) — MiscFeeAmt is the delimiter tag.
pub fn misc_fees() -> (r: GroupSpec)
    ensures
        r.count_tag == tag::NO_MISC_FEES,
        r.delimiter_tag == tag::MISC_FEE_AMT,
{
    GroupSpec {
        count_tag: tag::NO_MISC_FEES,
        delimiter_tag: tag::MISC_FEE_AMT,
        member_tags: &[tag::MISC_FEE_AMT, tag::MISC_FEE_CURR, tag::MISC_FEE_TYPE],
    }
}

/// NO_ROUTING_IDS (215) — RoutingType is the delimiter tag.
pub fn routing_ids() -> (r: GroupSpec)
    ensures
        r.count_tag == tag::NO_ROUTING_IDS,
        r.delimiter_tag == tag::ROUTING_TYPE,
{
    GroupSpec {
        count_tag: tag::NO_ROUTING_IDS,
        delimiter_tag: tag::ROUTING_TYPE,
        member_tags: &[tag::ROUTING_TYPE, tag::ROUTING_ID],
    }
}

/// NO_RELATED_SYM (146) — RelatdSym is the delimiter tag.
pub fn related_sym() -> (r: GroupSpec)
    ensures
        r.count_tag == tag::NO_RELATED_SYM,
        r.delimiter_tag == tag::RELATD_SYM,
{
    GroupSpec {
        count_tag: tag::NO_RELATED_SYM,
        delimiter_tag: tag::RELATD_SYM,
        member_tags: &[
            tag::RELATD_SYM,
            tag::SYMBOL_SFX,
            tag::SECURITY_ID,
            tag::ID_SOURCE,
            tag::SECURITY_TYPE,
            tag::MATURITY_MONTH_YEAR,
            tag::MATURITY_DAY,
            tag::PUT_OR_CALL,
            tag::STRIKE_PRICE,
            tag::OPT_ATTRIBUTE,
            tag::CONTRACT_MULTIPLIER,
            tag::COUPON_RATE,
            tag::SECURITY_EXCHANGE,
            tag::ISSUER,
            tag::SECURITY_DESC,
        ],
    }
}

/// NO_IOI_QUALIFIERS (199) — IOIQualifier is the delimiter tag.
pub fn ioi_qualifiers() -> (r: GroupSpec)
    ensures
        r.count_tag == tag::NO_IOI_QUALIFIERS,
        r.delimiter_tag == tag::IOI_QUALIFIER,
{
    GroupSpec {
        count_tag: tag::NO_IOI_QUALIFIERS,
        delimiter_tag: tag::IOI_QUALIFIER,
        member_tags: &[tag::IOI_QUALIFIER],
    }
}

/// NO_MD_ENTRY_TYPES (267) — MDEntryType is the delimiter tag.
pub fn md_entry_types() -> (r: GroupSpec)
    ensures
        r.count_tag == tag::NO_MD_ENTRY_TYPES,
        r.delimiter_tag == tag::MD_ENTRY_TYPE,
{
    GroupSpec {
        count_tag: tag::NO_MD_ENTRY_TYPES,
        delimiter_tag: tag::MD_ENTRY_TYPE,
        member_tags: &[tag::MD_ENTRY_TYPE],
    }
}

/// NO_MD_ENTRIES (268) — MDEntryType is the delimiter tag.
pub fn md_entries() -> (r: GroupSpec)
    ensures
        r.count_tag == tag::NO_MD_ENTRIES,
        r.delimiter_tag == tag::MD_ENTRY_TYPE,
{
    GroupSpec {
        count_tag: tag::NO_MD_ENTRIES,
        delimiter_tag: tag::MD_ENTRY_TYPE,
        member_tags: &[
            tag::MD_ENTRY_TYPE,
            tag::MD_ENTRY_PX,
            tag::MD_ENTRY_SIZE,
            tag::MD_ENTRY_DATE,
            tag::MD_ENTRY_TIME,
            tag::TICK_DIRECTION,
            tag::MD_MKT,
            tag::QUOTE_CONDITION,
            tag::TRADE_CONDITION,
            tag::MD_ENTRY_ID,
            tag::MD_UPDATE_ACTION,
            tag::MD_ENTRY_REF_ID,
            tag::MD_ENTRY_ORIGINATOR,
            tag::LOCATION_ID,
            tag::DESK_ID,
            tag::OPEN_CLOSE_SETTLE_FLAG,
            tag::SELLER_DAYS,
            tag::MD_ENTRY_BUYER,
            tag::MD_ENTRY_SELLER,
            tag::MD_ENTRY_POSITION_NO,
            tag::FINANCIAL_STATUS,
            tag::CORPORATE_ACTION,
        ],
    }
}

/// NO_QUOTE_ENTRIES (295) — QuoteEntryID is the delimiter tag.
pub fn quote_entries() -> (r: GroupSpec)
    ensures
        r.count_tag == tag::NO_QUOTE_ENTRIES,
        r.delimiter_tag == tag::QUOTE_ENTRY_ID,
{
    GroupSpec {
        count_tag: tag::NO_QUOTE_ENTRIES,
        delimiter_tag: tag::QUOTE_ENTRY_ID,
        member_tags: &[
            tag::QUOTE_ENTRY_ID,
            tag::SYMBOL,
            tag::SYMBOL_SFX,
            tag::SECURITY_ID,
            tag::ID_SOURCE,
            tag::SECURITY_TYPE,
            tag::MATURITY_MONTH_YEAR,
            tag::MATURITY_DAY,
            tag::PUT_OR_CALL,
            tag::STRIKE_PRICE,
            tag::OPT_ATTRIBUTE,
            tag::CONTRACT_MULTIPLIER,
            tag::COUPON_RATE,
            tag::SECURITY_EXCHANGE,
            tag::ISSUER,
            tag::SECURITY_DESC,
            tag::BID_PX,
            tag::OFFER_PX,
            tag::BID_SIZE,
            tag::OFFER_SIZE,
            tag::VALID_UNTIL_TIME,
            tag::BID_SPOT_RATE,
            tag::OFFER_SPOT_RATE,
            tag::BID_FORWARD_POINTS,
            tag::OFFER_FORWARD_POINTS,
            tag::TRANSACT_TIME,
            tag::TRADING_SESSION_ID,
            tag::QUOTE_ENTRY_REJECT_REASON,
        ],
    }
}

/// NO_QUOTE_SETS (296) — QuoteSetID is the delimiter tag.
pub fn quote_sets() -> (r: GroupSpec)
    ensures
        r.count_tag == tag::NO_QUOTE_SETS,
        r.delimiter_tag == tag::QUOTE_SET_ID,
{
    GroupSpec {
        count_tag: tag::NO_QUOTE_SETS,
        delimiter_tag: tag::QUOTE_SET_ID,
        member_tags: &[
            tag::QUOTE_SET_ID,
            tag::UNDERLYING_SYMBOL,
            tag::UNDERLYING_SYMBOL_SFX,
            tag::UNDERLYING_SECURITY_ID,
            tag::UNDERLYING_ID_SOURCE,
            tag::UNDERLYING_SECURITY_TYPE,
            tag::UNDERLYING_MATURITY_MONTH_YEAR,
            tag::UNDERLYING_MATURITY_DAY,
            tag::UNDERLYING_PUT_OR_CALL,
            tag::UNDERLYING_STRIKE_PRICE,
            tag::UNDERLYING_OPT_ATTRIBUTE,
            tag::UNDERLYING_CURRENCY,
            tag::QUOTE_SET_VALID_UNTIL_TIME,
            tag::TOT_QUOTE_ENTRIES,
            tag::NO_QUOTE_ENTRIES,
        ],
    }
}

/// NO_CONTRA_BROKERS (382) — ContraBroker is the delimiter tag.
pub fn contra_brokers() -> (r: GroupSpec)
    ensures
        r.count_tag == tag::NO_CONTRA_BROKERS,
        r.delimiter_tag == tag::CONTRA_BROKER,
{
    GroupSpec {
        count_tag: tag::NO_CONTRA_BROKERS,
        delimiter_tag: tag::CONTRA_BROKER,
        member_tags: &[
            tag::CONTRA_BROKER,
            tag::CONTRA_TRADER,
            tag::CONTRA_TRADE_QTY,
            tag::CONTRA_TRADE_TIME,
        ],
    }
}

/// NO_MSG_TYPES (384) — RefMsgType is the delimiter tag.
pub fn msg_types() -> (r: GroupSpec)
    ensures
        r.count_tag == tag::NO_MSG_TYPES,
        r.delimiter_tag == tag::REF_MSG_TYPE,
{
    GroupSpec {
        count_tag: tag::NO_MSG_TYPES,
        delimiter_tag: tag::REF_MSG_TYPE,
        member_tags: &[tag::REF_MSG_TYPE, tag::MSG_DIRECTION],
    }
}

/// NO_TRADING_SESSIONS (386) — TradingSessionID is the delimiter tag.
pub fn trading_sessions() -> (r: GroupSpec)
    ensures
        r.count_tag == tag::NO_TRADING_SESSIONS,
        r.delimiter_tag == tag::TRADING_SESSION_ID,
{
    GroupSpec {
        count_tag: tag::NO_TRADING_SESSIONS,
        delimiter_tag: tag::TRADING_SESSION_ID,
        member_tags: &[tag::TRADING_SESSION_ID],
    }
}

/// NO_BID_DESCRIPTORS (398) — BidDescriptorType is the delimiter tag.
pub fn bid_descriptors() -> (r: GroupSpec)
    ensures
        r.count_tag == tag::NO_BID_DESCRIPTORS,
        r.delimiter_tag == tag::BID_DESCRIPTOR_TYPE,
{
    GroupSpec {
        count_tag: tag::NO_BID_DESCRIPTORS,
        delimiter_tag: tag::BID_DESCRIPTOR_TYPE,
        member_tags: &[
            tag::BID_DESCRIPTOR_TYPE,
            tag::BID_DESCRIPTOR,
            tag::SIDE_VALUE_IND,
            tag::LIQUIDITY_VALUE,
            tag::LIQUIDITY_NUM_SECURITIES,
            tag::LIQUIDITY_PCT_LOW,
            tag::LIQUIDITY_PCT_HIGH,
            tag::EFP_TRACKING_ERROR,
            tag::FAIR_VALUE,
            tag::OUTSIDE_INDEX_PCT,
            tag::VALUE_OF_FUTURES,
        ],
    }
}

/// NO_BID_COMPONENTS (420) — ClearingFirm is the delimiter tag.
pub fn bid_components() -> (r: GroupSpec)
    ensures
        r.count_tag == tag::NO_BID_COMPONENTS,
        r.delimiter_tag == tag::CLEARING_FIRM,
{
    GroupSpec {
        count_tag: tag::NO_BID_COMPONENTS,
        delimiter_tag: tag::CLEARING_FIRM,
        member_tags: &[
            tag::CLEARING_FIRM,
            tag::CLEARING_ACCOUNT,
            tag::LIQUIDITY_IND_TYPE,
            tag::WT_AVERAGE_LIQUIDITY,
            tag::EXCHANGE_FOR_PHYSICAL,
            tag::OUT_MAIN_CNTRY_U_INDEX,
            tag::CROSS_PERCENT,
            tag::PROG_RPT_REQS,
            tag::PROG_PERIOD_INTERVAL,
            tag::INC_TAX_IND,
            tag::NUM_BIDDERS,
            tag::TRADE_TYPE,
            tag::BASIS_PX_TYPE,
            tag::COUNTRY,
            tag::SIDE,
            tag::PRICE,
            tag::PRICE_TYPE,
            tag::FAIR_VALUE,
        ],
    }
}

/// NO_STRIKES (428) — Symbol is the delimiter tag.
pub fn strikes() -> (r: GroupSpec)
    ensures
        r.count_tag == tag::NO_STRIKES,
        r.delimiter_tag == tag::SYMBOL,
{
    GroupSpec {
        count_tag: tag::NO_STRIKES,
        delimiter_tag: tag::SYMBOL,
        member_tags: &[
            tag::SYMBOL,
            tag::SYMBOL_SFX,
            tag::SECURITY_ID,
            tag::ID_SOURCE,
            tag::SECURITY_TYPE,
            tag::MATURITY_MONTH_YEAR,
            tag::MATURITY_DAY,
            tag::PUT_OR_CALL,
            tag::STRIKE_PRICE,
            tag::OPT_ATTRIBUTE,
            tag::CONTRACT_MULTIPLIER,
            tag::COUPON_RATE,
            tag::SECURITY_EXCHANGE,
            tag::ISSUER,
            tag::SECURITY_DESC,
        ],
    }
}

/// NO_PARTY_IDS (453) — PartyID is the delimiter tag.
pub fn party_ids() -> (r: GroupSpec)
    ensures
        r.count_tag == tag::NO_PARTY_IDS,
        r.delimiter_tag == tag::PARTY_ID,
{
    GroupSpec {
        count_tag: tag::NO_PARTY_IDS,
        delimiter_tag: tag::PARTY_ID,
        member_tags: &[tag::PARTY_ID, tag::PARTY_ID_SOURCE, tag::PARTY_ROLE, tag::PARTY_SUB_ID],
    }
}

/// NO_SECURITY_ALT_ID (454) — SecurityAltID is the delimiter tag.
pub fn security_alt_ids() -> (r: GroupSpec)
    ensures
        r.count_tag == tag::NO_SECURITY_ALT_ID,
        r.delimiter_tag == tag::SECURITY_ALT_ID,
{
    GroupSpec {
        count_tag: tag::NO_SECURITY_ALT_ID,
        delimiter_tag: tag::SECURITY_ALT_ID,
        member_tags: &[tag::SECURITY_ALT_ID, tag::SECURITY_ALT_ID_SOURCE],
    }
}

/// NO_UNDERLYING_SECURITY_ALT_ID (457) — UnderlyingSecurityAltID is the
/// delimiter tag.
pub fn underlying_security_alt_ids() -> (r: GroupSpec)
    ensures
        r.count_tag == tag::NO_UNDERLYING_SECURITY_ALT_ID,
        r.delimiter_tag == tag::UNDERLYING_SECURITY_ALT_ID,
{
    GroupSpec {
        count_tag: tag::NO_UNDERLYING_SECURITY_ALT_ID,
        delimiter_tag: tag::UNDERLYING_SECURITY_ALT_ID,
        member_tags: &[tag::UNDERLYING_SECURITY_ALT_ID, tag::UNDERLYING_SECURITY_ALT_ID_SOURCE],
    }
}

/// NO_REGIST_DTLS (473) — MailingDtls is the delimiter tag.
pub fn regist_dtls() -> (r: GroupSpec)
    ensures
        r.count_tag == tag::NO_REGIST_DTLS,
        r.delimiter_tag == tag::MAILING_DTLS,
{
    GroupSpec {
        count_tag: tag::NO_REGIST_DTLS,
        delimiter_tag: tag::MAILING_DTLS,
        member_tags: &[
            tag::MAILING_DTLS,
            tag::INVESTOR_COUNTRY_OF_RESIDENCE,
            tag::MAILING_INST,
            tag::REGIST_DTLS,
            tag::REGIST_EMAIL,
            tag::DISTRIB_PERCENTAGE,
            tag::REGIST_ID,
            tag::REGIST_TRANS_TYPE,
            tag::OWNER_TYPE,
            tag::NO_DISTRIB_INSTS,
            tag::DISTRIB_PAYMENT_METHOD,
            tag::CASH_DISTRIB_CURR,
            tag::CASH_DISTRIB_AGENT_NAME,
            tag::CASH_DISTRIB_AGENT_CODE,
            tag::CASH_DISTRIB_AGENT_ACCT_NUMBER,
            tag::CASH_DISTRIB_PAY_REF,
            tag::CASH_DISTRIB_AGENT_ACCT_NAME,
        ],
    }
}

/// NO_DISTRIB_INSTS (510) — DistribPaymentMethod is the delimiter tag.
pub fn distrib_insts() -> (r: GroupSpec)
    ensures
        r.count_tag == tag::NO_DISTRIB_INSTS,
        r.delimiter_tag == tag::DISTRIB_PAYMENT_METHOD,
{
    GroupSpec {
        count_tag: tag::NO_DISTRIB_INSTS,
        delimiter_tag: tag::DISTRIB_PAYMENT_METHOD,
        member_tags: &[
            tag::DISTRIB_PAYMENT_METHOD,
            tag::DISTRIB_PERCENTAGE,
            tag::CASH_DISTRIB_CURR,
            tag::CASH_DISTRIB_AGENT_NAME,
            tag::CASH_DISTRIB_AGENT_CODE,
            tag::CASH_DISTRIB_AGENT_ACCT_NUMBER,
            tag::CASH_DISTRIB_PAY_REF,
            tag::CASH_DISTRIB_AGENT_ACCT_NAME,
        ],
    }
}

/// NO_CONT_AMTS (518) — ContAmtType is the delimiter tag.
pub fn cont_amts() -> (r: GroupSpec)
    ensures
        r.count_tag == tag::NO_CONT_AMTS,
        r.delimiter_tag == tag::CONT_AMT_TYPE,
{
    GroupSpec {
        count_tag: tag::NO_CONT_AMTS,
        delimiter_tag: tag::CONT_AMT_TYPE,
        member_tags: &[tag::CONT_AMT_TYPE, tag::CONT_AMT_VALUE, tag::CONT_AMT_CURR],
    }
}

/// NO_NESTED_PARTY_IDS (539) — NestedPartyID is the delimiter tag.
pub fn nested_party_ids() -> (r: GroupSpec)
    ensures
        r.count_tag == tag::NO_NESTED_PARTY_IDS,
        r.delimiter_tag == tag::NESTED_PARTY_ID,
{
    GroupSpec {
        count_tag: tag::NO_NESTED_PARTY_IDS,
        delimiter_tag: tag::NESTED_PARTY_ID,
        member_tags: &[
            tag::NESTED_PARTY_ID,
            tag::NESTED_PARTY_ID_SOURCE,
            tag::NESTED_PARTY_ROLE,
            tag::NESTED_PARTY_SUB_ID,
        ],
    }
}

/// NO_SIDES (552) — Side is the delimiter tag.
pub fn sides() -> (r: GroupSpec)
    ensures
        r.count_tag == tag::NO_SIDES,
        r.delimiter_tag == tag::SIDE,
{
    GroupSpec {
        count_tag: tag::NO_SIDES,
        delimiter_tag: tag::SIDE,
        member_tags: &[
            tag::SIDE,
            tag::ORDER_ID,
            tag::SECONDARY_ORDER_ID,
            tag::CL_ORD_ID,
            tag::SECONDARY_CL_ORD_ID,
            tag::LIST_ID,
            tag::ACCOUNT,
            tag::ACCT_ID_SOURCE,
            tag::ACCOUNT_TYPE,
            tag::PROCESS_CODE,
            tag::ODD_LOT,
            tag::NO_CLEARING_INSTRUCTIONS,
            tag::CLEARING_INSTRUCTION,
            tag::CLEARING_FEE_INDICATOR,
            tag::TRADE_INPUT_SOURCE,
            tag::TRADE_INPUT_DEVICE,
            tag::ORDER_INPUT_DEVICE,
            tag::CURRENCY,
            tag::COMPLIANCE_ID,
            tag::SOLICITED_FLAG,
            tag::ORDER_CAPACITY,
            tag::ORDER_RESTRICTIONS,
            tag::CUST_ORDER_CAPACITY,
            tag::ORD_TYPE,
            tag::EXEC_INST,
            tag::TRANS_BKD_TIME,
            tag::TRADING_SESSION_ID,
            tag::TRADING_SESSION_SUB_ID,
            tag::COMMISSION,
            tag::COMM_TYPE,
            tag::COMM_CURRENCY,
            tag::FUND_RENEW_WAIV,
            tag::GROSS_TRADE_AMT,
            tag::NUM_DAYS_INTEREST,
            tag::EX_DESTINATION,
            tag::ACCRUED_INTEREST_RATE,
            tag::ACCRUED_INTEREST_AMT,
            tag::INTEREST_AT_MATURITY,
            tag::END_ACCRUED_INTEREST_AMT,
            tag::START_CASH,
            tag::END_CASH,
            tag::NET_MONEY,
            tag::SETTL_CURR_AMT,
            tag::SETTL_CURRENCY,
            tag::SETTL_CURR_FX_RATE,
            tag::SETTL_CURR_FX_RATE_CALC,
            tag::POSITION_EFFECT,
            tag::TEXT,
            tag::ENCODED_TEXT_LEN,
            tag::ENCODED_TEXT,
            tag::SIDE_MULTI_LEG_REPORTING_TYPE,
            tag::NO_CONT_AMTS,
            tag::CONT_AMT_TYPE,
            tag::CONT_AMT_VALUE,
            tag::CONT_AMT_CURR,
            tag::NO_MISC_FEES,
            tag::MISC_FEE_AMT,
            tag::MISC_FEE_CURR,
            tag::MISC_FEE_TYPE,
            tag::MISC_FEE_BASIS,
            tag::EXCHANGE_RULE,
            tag::TRADE_ALLOC_INDICATOR,
            tag::PREALLOC_METHOD,
            tag::ALLOC_ID,
            tag::NO_ALLOCS,
            tag::ALLOC_ACCOUNT,
            tag::ALLOC_ACCT_ID_SOURCE,
            tag::ALLOC_SETTL_CURRENCY,
            tag::INDIVIDUAL_ALLOC_ID,
            tag::ALLOC_SHARES,
        ],
    }
}

/// NO_SECURITY_TYPES (558) — SecurityType is the delimiter tag.
pub fn security_types() -> (r: GroupSpec)
    ensures
        r.count_tag == tag::NO_SECURITY_TYPES,
        r.delimiter_tag == tag::SECURITY_TYPE,
{
    GroupSpec {
        count_tag: tag::NO_SECURITY_TYPES,
        delimiter_tag: tag::SECURITY_TYPE,
        member_tags: &[tag::SECURITY_TYPE, tag::PRODUCT, tag::CFI_CODE],
    }
}

/// NO_AFFECTED_ORDERS (534) — AffectedOrderID is the delimiter tag.
pub fn affected_orders() -> (r: GroupSpec)
    ensures
        r.count_tag == tag::NO_AFFECTED_ORDERS,
        r.delimiter_tag == tag::AFFECTED_ORDER_ID,
{
    GroupSpec {
        count_tag: tag::NO_AFFECTED_ORDERS,
        delimiter_tag: tag::AFFECTED_ORDER_ID,
        member_tags: &[tag::AFFECTED_ORDER_ID, tag::AFFECTED_SECONDARY_ORDER_ID],
    }
}

/// NO_LEGS (555) — LegSymbol is the delimiter tag.
pub fn legs() -> (r: GroupSpec)
    ensures
        r.count_tag == tag::NO_LEGS,
        r.delimiter_tag == tag::LEG_SYMBOL,
{
    GroupSpec {
        count_tag: tag::NO_LEGS,
        delimiter_tag: tag::LEG_SYMBOL,
        member_tags: &[
            tag::LEG_SYMBOL,
            tag::LEG_SYMBOL_SFX,
            tag::LEG_SECURITY_ID,
            tag::LEG_SECURITY_ID_SOURCE,
            tag::NO_LEG_SECURITY_ALT_ID,
            tag::LEG_SECURITY_ALT_ID,
            tag::LEG_SECURITY_ALT_ID_SOURCE,
            tag::LEG_PRODUCT,
            tag::LEG_CFI_CODE,
            tag::LEG_SECURITY_TYPE,
            tag::LEG_MATURITY_MONTH_YEAR,
            tag::LEG_MATURITY_DATE,
            tag::LEG_STRIKE_PRICE,
            tag::LEG_OPT_ATTRIBUTE,
            tag::LEG_CONTRACT_MULTIPLIER,
            tag::LEG_COUPON_RATE,
            tag::LEG_SECURITY_EXCHANGE,
            tag::LEG_ISSUER,
            tag::ENCODED_LEG_ISSUER_LEN,
            tag::ENCODED_LEG_ISSUER,
            tag::LEG_SECURITY_DESC,
            tag::ENCODED_LEG_SECURITY_DESC_LEN,
            tag::ENCODED_LEG_SECURITY_DESC,
            tag::LEG_RATIO_QTY,
            tag::LEG_SIDE,
            tag::LEG_CURRENCY,
            tag::LEG_COUNTRY_OF_ISSUE,
            tag::LEG_STATE_OR_PROVINCE_OF_ISSUE,
            tag::LEG_LOCALE_OF_ISSUE,
            tag::LEG_INSTR_REGISTRY,
            tag::LEG_DATED_DATE,
            tag::LEG_POOL,
            tag::LEG_CONTRACT_SETTL_MONTH,
            tag::LEG_INTEREST_ACCRUAL_DATE,
            tag::LEG_QTY,
            tag::LEG_SWAP_TYPE,
            tag::NO_LEG_STIPULATIONS,
            tag::LEG_STIPULATION_TYPE,
            tag::LEG_STIPULATION_VALUE,
            tag::LEG_POSITION_EFFECT,
            tag::LEG_COVERED_OR_UNCOVERED,
            tag::LEG_PRICE,
            tag::LEG_SETTL_TYPE,
            tag::LEG_SETTL_DATE,
            tag::LEG_LAST_PX,
            tag::LEG_REF_ID,
        ],
    }
}

/// NO_UNDERLYINGS (711) — UnderlyingSymbol is the delimiter tag.
pub fn underlyings() -> (r: GroupSpec)
    ensures
        r.count_tag == tag::NO_UNDERLYINGS,
        r.delimiter_tag == tag::UNDERLYING_SYMBOL,
{
    GroupSpec {
        count_tag: tag::NO_UNDERLYINGS,
        delimiter_tag: tag::UNDERLYING_SYMBOL,
        member_tags: &[
            tag::UNDERLYING_SYMBOL,
            tag::UNDERLYING_SYMBOL_SFX,
            tag::UNDERLYING_SECURITY_ID,
            tag::UNDERLYING_ID_SOURCE,
            tag::UNDERLYING_SECURITY_TYPE,
            tag::UNDERLYING_MATURITY_MONTH_YEAR,
            tag::UNDERLYING_MATURITY_DATE,
            tag::UNDERLYING_PUT_OR_CALL,
            tag::UNDERLYING_STRIKE_PRICE,
            tag::UNDERLYING_OPT_ATTRIBUTE,
            tag::UNDERLYING_CONTRACT_MULTIPLIER,
            tag::UNDERLYING_COUPON_RATE,
            tag::UNDERLYING_SECURITY_EXCHANGE,
            tag::UNDERLYING_ISSUER,
            tag::ENCODED_UNDERLYING_ISSUER_LEN,
            tag::ENCODED_UNDERLYING_ISSUER,
            tag::UNDERLYING_SECURITY_DESC,
            tag::ENCODED_UNDERLYING_SECURITY_DESC_LEN,
            tag::ENCODED_UNDERLYING_SECURITY_DESC,
            tag::UNDERLYING_COUPON_PAYMENT_DATE,
            tag::UNDERLYING_ISSUE_DATE,
            tag::UNDERLYING_REPO_COLLATERAL_SECURITY_TYPE,
            tag::UNDERLYING_REPURCHASE_TERM,
            tag::UNDERLYING_REPURCHASE_RATE,
            tag::UNDERLYING_FACTOR,
            tag::UNDERLYING_CREDIT_RATING,
            tag::UNDERLYING_INSTR_REGISTRY,
            tag::UNDERLYING_COUNTRY_OF_ISSUE,
            tag::UNDERLYING_STATE_OR_PROVINCE_OF_ISSUE,
            tag::UNDERLYING_LOCALE_OF_ISSUE,
            tag::UNDERLYING_REDEMPTION_DATE,
            tag::UNDERLYING_STRIKE_CURRENCY,
            tag::UNDERLYING_SECURITY_SUB_TYPE,
            tag::UNDERLYING_PRODUCT,
            tag::UNDERLYING_CFI_CODE,
            tag::UNDERLYING_CP_PROGRAM,
            tag::UNDERLYING_CP_REG_TYPE,
            tag::UNDERLYING_LAST_PX,
            tag::UNDERLYING_LAST_QTY,
            tag::UNDERLYING_QTY,
            tag::UNDERLYING_SETTL_PRICE,
            tag::UNDERLYING_SETTL_PRICE_TYPE,
            tag::UNDERLYING_DIRTY_PRICE,
            tag::UNDERLYING_END_PRICE,
            tag::UNDERLYING_START_VALUE,
            tag::UNDERLYING_CURRENT_VALUE,
            tag::UNDERLYING_END_VALUE,
            tag::NO_UNDERLYING_SECURITY_ALT_ID,
            tag::UNDERLYING_SECURITY_ALT_ID,
            tag::UNDERLYING_SECURITY_ALT_ID_SOURCE,
            tag::UNDERLYING_STIP_TYPE,
            tag::UNDERLYING_STIP_VALUE,
        ],
    }
}

/// NO_POSITIONS (702) — PosType is the delimiter tag.
pub fn positions() -> (r: GroupSpec)
    ensures
        r.count_tag == tag::NO_POSITIONS,
        r.delimiter_tag == tag::POS_TYPE,
{
    GroupSpec {
        count_tag: tag::NO_POSITIONS,
        delimiter_tag: tag::POS_TYPE,
        member_tags: &[tag::POS_TYPE, tag::LONG_QTY, tag::SHORT_QTY, tag::POS_QTY_STATUS],
    }
}

/// NO_QUOTE_QUALIFIERS (735) — QuoteQualifier is the delimiter tag.
pub fn quote_qualifiers() -> (r: GroupSpec)
    ensures
        r.count_tag == tag::NO_QUOTE_QUALIFIERS,
        r.delimiter_tag == tag::QUOTE_QUALIFIER,
{
    GroupSpec {
        count_tag: tag::NO_QUOTE_QUALIFIERS,
        delimiter_tag: tag::QUOTE_QUALIFIER,
        member_tags: &[tag::QUOTE_QUALIFIER],
    }
}

/// NO_POS_AMT (753) — PosAmtType is the delimiter tag.
pub fn pos_amts() -> (r: GroupSpec)
    ensures
        r.count_tag == tag::NO_POS_AMT,
        r.delimiter_tag == tag::POS_AMT_TYPE,
{
    GroupSpec {
        count_tag: tag::NO_POS_AMT,
        delimiter_tag: tag::POS_AMT_TYPE,
        member_tags: &[tag::POS_AMT_TYPE, tag::POS_AMT],
    }
}

/// NO_NESTED2_PARTY_IDS (756) — Nested2PartyID is the delimiter tag.
pub fn nested2_party_ids() -> (r: GroupSpec)
    ensures
        r.count_tag == tag::NO_NESTED2_PARTY_IDS,
        r.delimiter_tag == tag::NESTED2_PARTY_ID,
{
    GroupSpec {
        count_tag: tag::NO_NESTED2_PARTY_IDS,
        delimiter_tag: tag::NESTED2_PARTY_ID,
        member_tags: &[
            tag::NESTED2_PARTY_ID,
            tag::NESTED2_PARTY_ID_SOURCE,
            tag::NESTED2_PARTY_ROLE,
            tag::NESTED2_PARTY_SUB_ID,
        ],
    }
}

/// NO_TRD_REG_TIMESTAMPS (768) — TrdRegTimestamp is the delimiter tag.
pub fn trd_reg_timestamps() -> (r: GroupSpec)
    ensures
        r.count_tag == tag::NO_TRD_REG_TIMESTAMPS,
        r.delimiter_tag == tag::TRD_REG_TIMESTAMP,
{
    GroupSpec {
        count_tag: tag::NO_TRD_REG_TIMESTAMPS,
        delimiter_tag: tag::TRD_REG_TIMESTAMP,
        member_tags: &[
            tag::TRD_REG_TIMESTAMP,
            tag::TRD_REG_TIMESTAMP_TYPE,
            tag::TRD_REG_TIMESTAMP_ORIGIN,
        ],
    }
}

/// NO_SETTL_INST (778) — SettlInstID is the delimiter tag.
pub fn settl_inst() -> (r: GroupSpec)
    ensures
        r.count_tag == tag::NO_SETTL_INST,
        r.delimiter_tag == tag::SETTL_INST_ID,
{
    GroupSpec {
        count_tag: tag::NO_SETTL_INST,
        delimiter_tag: tag::SETTL_INST_ID,
        member_tags: &[
            tag::SETTL_INST_ID,
            tag::SETTL_INST_TRANS_TYPE,
            tag::SETTL_INST_REF_ID,
            tag::SETTL_INST_MODE,
            tag::SETTL_INST_SOURCE,
            tag::SECURITY_ID,
            tag::SIDE,
            tag::TRANSACT_TIME,
            tag::EFFECTIVE_TIME,
        ],
    }
}

/// NO_SETTL_PARTY_IDS (781) — SettlPartyID is the delimiter tag.
pub fn settl_party_ids() -> (r: GroupSpec)
    ensures
        r.count_tag == tag::NO_SETTL_PARTY_IDS,
        r.delimiter_tag == tag::SETTL_PARTY_ID,
{
    GroupSpec {
        count_tag: tag::NO_SETTL_PARTY_IDS,
        delimiter_tag: tag::SETTL_PARTY_ID,
        member_tags: &[
            tag::SETTL_PARTY_ID,
            tag::SETTL_PARTY_ID_SOURCE,
            tag::SETTL_PARTY_ROLE,
            tag::SETTL_PARTY_SUB_ID,
            tag::SETTL_PARTY_SUB_ID_TYPE,
        ],
    }
}

/// NO_PARTY_SUB_IDS (802) — PartySubID is the delimiter tag.
pub fn party_sub_ids() -> (r: GroupSpec)
    ensures
        r.count_tag == tag::NO_PARTY_SUB_IDS,
        r.delimiter_tag == tag::PARTY_SUB_ID,
{
    GroupSpec {
        count_tag: tag::NO_PARTY_SUB_IDS,
        delimiter_tag: tag::PARTY_SUB_ID,
        member_tags: &[tag::PARTY_SUB_ID, tag::PARTY_SUB_ID_TYPE],
    }
}

/// NO_NESTED_PARTY_SUB_IDS (804) — NestedPartySubID is the delimiter tag.
pub fn nested_party_sub_ids() -> (r: GroupSpec)
    ensures
        r.count_tag == tag::NO_NESTED_PARTY_SUB_IDS,
        r.delimiter_tag == tag::NESTED_PARTY_SUB_ID,
{
    GroupSpec {
        count_tag: tag::NO_NESTED_PARTY_SUB_IDS,
        delimiter_tag: tag::NESTED_PARTY_SUB_ID,
        member_tags: &[tag::NESTED_PARTY_SUB_ID, tag::NESTED_PARTY_SUB_ID_TYPE],
    }
}

/// NO_NESTED2_PARTY_SUB_IDS (806) — Nested2PartySubID is the delimiter tag.
pub fn nested2_party_sub_ids() -> (r: GroupSpec)
    ensures
        r.count_tag == tag::NO_NESTED2_PARTY_SUB_IDS,
        r.delimiter_tag == tag::NESTED2_PARTY_SUB_ID,
{
    GroupSpec {
        count_tag: tag::NO_NESTED2_PARTY_SUB_IDS,
        delimiter_tag: tag::NESTED2_PARTY_SUB_ID,
        member_tags: &[tag::NESTED2_PARTY_SUB_ID, tag::NESTED2_PARTY_SUB_ID_TYPE],
    }
}

/// NO_ALT_MD_SOURCE (816) — AltMDSourceID is the delimiter tag.
pub fn alt_md_sources() -> (r: GroupSpec)
    ensures
        r.count_tag == tag::NO_ALT_MD_SOURCE,
        r.delimiter_tag == tag::ALT_MD_SOURCE_ID,
{
    GroupSpec {
        count_tag: tag::NO_ALT_MD_SOURCE,
        delimiter_tag: tag::ALT_MD_SOURCE_ID,
        member_tags: &[tag::ALT_MD_SOURCE_ID],
    }
}

/// NO_CAPACITIES (862) — OrderCapacity is the delimiter tag.
pub fn capacities() -> (r: GroupSpec)
    ensures
        r.count_tag == tag::NO_CAPACITIES,
        r.delimiter_tag == tag::ORDER_CAPACITY,
{
    GroupSpec {
        count_tag: tag::NO_CAPACITIES,
        delimiter_tag: tag::ORDER_CAPACITY,
        member_tags: &[tag::ORDER_CAPACITY, tag::ORDER_CAPACITY_QTY],
    }
}

/// NO_EVENTS (864) — EventType is the delimiter tag.
pub fn events() -> (r: GroupSpec)
    ensures
        r.count_tag == tag::NO_EVENTS,
        r.delimiter_tag == tag::EVENT_TYPE,
{
    GroupSpec {
        count_tag: tag::NO_EVENTS,
        delimiter_tag: tag::EVENT_TYPE,
        member_tags: &[tag::EVENT_TYPE, tag::EVENT_DATE, tag::EVENT_PX, tag::EVENT_TEXT],
    }
}

/// NO_INSTR_ATTRIB (870) — InstrAttribType is the delimiter tag.
pub fn instr_attrib() -> (r: GroupSpec)
    ensures
        r.count_tag == tag::NO_INSTR_ATTRIB,
        r.delimiter_tag == tag::INSTR_ATTRIB_TYPE,
{
    GroupSpec {
        count_tag: tag::NO_INSTR_ATTRIB,
        delimiter_tag: tag::INSTR_ATTRIB_TYPE,
        member_tags: &[tag::INSTR_ATTRIB_TYPE, tag::INSTR_ATTRIB_VALUE],
    }
}

/// NO_UNDERLYING_STIPS (887) — UnderlyingStipType is the delimiter tag.
pub fn underlying_stips() -> (r: GroupSpec)
    ensures
        r.count_tag == tag::NO_UNDERLYING_STIPS,
        r.delimiter_tag == tag::UNDERLYING_STIP_TYPE,
{
    GroupSpec {
        count_tag: tag::NO_UNDERLYING_STIPS,
        delimiter_tag: tag::UNDERLYING_STIP_TYPE,
        member_tags: &[tag::UNDERLYING_STIP_TYPE, tag::UNDERLYING_STIP_VALUE],
    }
}

/// NO_TRADES (897) — TradeReportID is the delimiter tag.
pub fn trades() -> (r: GroupSpec)
    ensures
        r.count_tag == tag::NO_TRADES,
        r.delimiter_tag == tag::TRADE_REPORT_ID,
{
    GroupSpec {
        count_tag: tag::NO_TRADES,
        delimiter_tag: tag::TRADE_REPORT_ID,
        member_tags: &[tag::TRADE_REPORT_ID, tag::SECONDARY_TRADE_REPORT_ID],
    }
}

/// NO_COMP_IDS (936) — RefCompID is the delimiter tag.
pub fn comp_ids() -> (r: GroupSpec)
    ensures
        r.count_tag == tag::NO_COMP_IDS,
        r.delimiter_tag == tag::REF_COMP_ID,
{
    GroupSpec {
        count_tag: tag::NO_COMP_IDS,
        delimiter_tag: tag::REF_COMP_ID,
        member_tags: &[tag::REF_COMP_ID, tag::REF_SUB_ID, tag::STATUS_VALUE, tag::STATUS_TEXT],
    }
}

/// NO_COLL_INQUIRY_QUALIFIER (938) — CollInquiryQualifier is the delimiter
/// tag.
pub fn coll_inquiry_qualifiers() -> (r: GroupSpec)
    ensures
        r.count_tag == tag::NO_COLL_INQUIRY_QUALIFIER,
        r.delimiter_tag == tag::COLL_INQUIRY_QUALIFIER,
{
    GroupSpec {
        count_tag: tag::NO_COLL_INQUIRY_QUALIFIER,
        delimiter_tag: tag::COLL_INQUIRY_QUALIFIER,
        member_tags: &[tag::COLL_INQUIRY_QUALIFIER],
    }
}

/// NO_NESTED3_PARTY_IDS (948) — Nested3PartyID is the delimiter tag.
pub fn nested3_party_ids() -> (r: GroupSpec)
    ensures
        r.count_tag == tag::NO_NESTED3_PARTY_IDS,
        r.delimiter_tag == tag::NESTED3_PARTY_ID,
{
    GroupSpec {
        count_tag: tag::NO_NESTED3_PARTY_IDS,
        delimiter_tag: tag::NESTED3_PARTY_ID,
        member_tags: &[
            tag::NESTED3_PARTY_ID,
            tag::NESTED3_PARTY_ID_SOURCE,
            tag::NESTED3_PARTY_ROLE,
            tag::NESTED3_PARTY_SUB_ID,
            tag::NESTED3_PARTY_SUB_ID_TYPE,
        ],
    }
}

/// NO_LEG_SECURITY_ALT_ID (604) — LegSecurityAltID is the delimiter tag.
pub fn leg_security_alt_ids() -> (r: GroupSpec)
    ensures
        r.count_tag == tag::NO_LEG_SECURITY_ALT_ID,
        r.delimiter_tag == tag::LEG_SECURITY_ALT_ID,
{
    GroupSpec {
        count_tag: tag::NO_LEG_SECURITY_ALT_ID,
        delimiter_tag: tag::LEG_SECURITY_ALT_ID,
        member_tags: &[tag::LEG_SECURITY_ALT_ID, tag::LEG_SECURITY_ALT_ID_SOURCE],
    }
}

/// NO_LEG_STIPULATIONS (683) — LegStipulationType is the delimiter tag.
pub fn leg_stipulations() -> (r: GroupSpec)
    ensures
        r.count_tag == tag::NO_LEG_STIPULATIONS,
        r.delimiter_tag == tag::LEG_STIPULATION_TYPE,
{
    GroupSpec {
        count_tag: tag::NO_LEG_STIPULATIONS,
        delimiter_tag: tag::LEG_STIPULATION_TYPE,
        member_tags: &[tag::LEG_STIPULATION_TYPE, tag::LEG_STIPULATION_VALUE],
    }
}

/// NO_LEG_ALLOCS (670) — LegAllocAccount is the delimiter tag.
pub fn leg_allocs() -> (r: GroupSpec)
    ensures
        r.count_tag == tag::NO_LEG_ALLOCS,
        r.delimiter_tag == tag::LEG_ALLOC_ACCOUNT,
{
    GroupSpec {
        count_tag: tag::NO_LEG_ALLOCS,
        delimiter_tag: tag::LEG_ALLOC_ACCOUNT,
        member_tags: &[
            tag::LEG_ALLOC_ACCOUNT,
            tag::LEG_INDIVIDUAL_ALLOC_ID,
            tag::LEG_ALLOC_QTY,
            tag::LEG_ALLOC_ACCT_ID_SOURCE,
            tag::LEG_SETTL_CURRENCY,
        ],
    }
}

/// NO_HOPS (627) — HopCompID is the delimiter tag.
pub fn hops() -> (r: GroupSpec)
    ensures
        r.count_tag == tag::NO_HOPS,
        r.delimiter_tag == tag::HOP_COMP_ID,
{
    GroupSpec {
        count_tag: tag::NO_HOPS,
        delimiter_tag: tag::HOP_COMP_ID,
        member_tags: &[tag::HOP_COMP_ID, tag::HOP_SENDING_TIME, tag::HOP_REF_ID],
    }
}

/// NO_CLEARING_INSTRUCTIONS (576) — ClearingInstruction is the delimiter
/// tag.
pub fn clearing_instructions() -> (r: GroupSpec)
    ensures
        r.count_tag == tag::NO_CLEARING_INSTRUCTIONS,
        r.delimiter_tag == tag::CLEARING_INSTRUCTION,
{
    GroupSpec {
        count_tag: tag::NO_CLEARING_INSTRUCTIONS,
        delimiter_tag: tag::CLEARING_INSTRUCTION,
        member_tags: &[tag::CLEARING_INSTRUCTION],
    }
}

/// The (count tag, delimiter tag) pairs of the legacy dictionary, in
/// dictionary order.
pub open spec fn fix42_pairs() -> Seq<(u32, u32)> {
    seq![
        (tag::NO_ALLOCS, tag::ALLOC_ACCOUNT),
        (tag::NO_ORDERS, tag::CL_ORD_ID),
        (tag::NO_RPTS, tag::RPT_SEQ),
        (tag::NO_DLVY_INST, tag::DLVY_INST),
        (tag::NO_EXECS, tag::EXEC_ID),
        (tag::NO_MISC_FEES, tag::MISC_FEE_AMT),
        (tag::NO_RELATED_SYM, tag::RELATD_SYM),
        (tag::NO_IOI_QUALIFIERS, tag::IOI_QUALIFIER),
        (tag::NO_ROUTING_IDS, tag::ROUTING_TYPE),
        (tag::NO_MD_ENTRY_TYPES, tag::MD_ENTRY_TYPE),
        (tag::NO_MD_ENTRIES, tag::MD_ENTRY_TYPE),
        (tag::NO_QUOTE_ENTRIES, tag::QUOTE_ENTRY_ID),
        (tag::NO_QUOTE_SETS, tag::QUOTE_SET_ID),
        (tag::NO_CONTRA_BROKERS, tag::CONTRA_BROKER),
        (tag::NO_MSG_TYPES, tag::REF_MSG_TYPE),
        (tag::NO_TRADING_SESSIONS, tag::TRADING_SESSION_ID),
        (tag::NO_BID_DESCRIPTORS, tag::BID_DESCRIPTOR_TYPE),
        (tag::NO_BID_COMPONENTS, tag::CLEARING_FIRM),
        (tag::NO_STRIKES, tag::SYMBOL),
    ]
}

/// The (count tag, delimiter tag) pairs of the newer, superset dictionary:
/// the legacy pairs followed by the later additions, in dictionary order.
pub open spec fn fix44_pairs() -> Seq<(u32, u32)> {
    fix42_pairs() + seq![
        (tag::NO_PARTY_IDS, tag::PARTY_ID),
        (tag::NO_SECURITY_ALT_ID, tag::SECURITY_ALT_ID),
        (tag::NO_UNDERLYING_SECURITY_ALT_ID, tag::UNDERLYING_SECURITY_ALT_ID),
        (tag::NO_REGIST_DTLS, tag::MAILING_DTLS),
        (tag::NO_DISTRIB_INSTS, tag::DISTRIB_PAYMENT_METHOD),
        (tag::NO_CONT_AMTS, tag::CONT_AMT_TYPE),
        (tag::NO_NESTED_PARTY_IDS, tag::NESTED_PARTY_ID),
        (tag::NO_SIDES, tag::SIDE),
        (tag::NO_SECURITY_TYPES, tag::SECURITY_TYPE),
        (tag::NO_AFFECTED_ORDERS, tag::AFFECTED_ORDER_ID),
        (tag::NO_LEGS, tag::LEG_SYMBOL),
        (tag::NO_UNDERLYINGS, tag::UNDERLYING_SYMBOL),
        (tag::NO_POSITIONS, tag::POS_TYPE),
        (tag::NO_QUOTE_QUALIFIERS, tag::QUOTE_QUALIFIER),
        (tag::NO_POS_AMT, tag::POS_AMT_TYPE),
        (tag::NO_NESTED2_PARTY_IDS, tag::NESTED2_PARTY_ID),
        (tag::NO_TRD_REG_TIMESTAMPS, tag::TRD_REG_TIMESTAMP),
        (tag::NO_SETTL_INST, tag::SETTL_INST_ID),
        (tag::NO_SETTL_PARTY_IDS, tag::SETTL_PARTY_ID),
        (tag::NO_PARTY_SUB_IDS, tag::PARTY_SUB_ID),
        (tag::NO_NESTED_PARTY_SUB_IDS, tag::NESTED_PARTY_SUB_ID),
        (tag::NO_NESTED2_PARTY_SUB_IDS, tag::NESTED2_PARTY_SUB_ID),
        (tag::NO_ALT_MD_SOURCE, tag::ALT_MD_SOURCE_ID),
        (tag::NO_CAPACITIES, tag::ORDER_CAPACITY),
        (tag::NO_EVENTS, tag::EVENT_TYPE),
        (tag::NO_INSTR_ATTRIB, tag::INSTR_ATTRIB_TYPE),
        (tag::NO_UNDERLYING_STIPS, tag::UNDERLYING_STIP_TYPE),
        (tag::NO_TRADES, tag::TRADE_REPORT_ID),
        (tag::NO_COMP_IDS, tag::REF_COMP_ID),
        (tag::NO_COLL_INQUIRY_QUALIFIER, tag::COLL_INQUIRY_QUALIFIER),
        (tag::NO_NESTED3_PARTY_IDS, tag::NESTED3_PARTY_ID),
        (tag::NO_LEG_SECURITY_ALT_ID, tag::LEG_SECURITY_ALT_ID),
        (tag::NO_LEG_STIPULATIONS, tag::LEG_STIPULATION_TYPE),
        (tag::NO_LEG_ALLOCS, tag::LEG_ALLOC_ACCOUNT),
        (tag::NO_HOPS, tag::HOP_COMP_ID),
        (tag::NO_CLEARING_INSTRUCTIONS, tag::CLEARING_INSTRUCTION),
    ]
}

/// Each schema of `d` carries the (count tag, delimiter tag) pair that `ps`
/// lists at the same position.
pub open spec fn dict_matches(d: Seq<GroupSpec>, ps: Seq<(u32, u32)>) -> bool {
    &&& d.len() == ps.len()
    &&& forall|k: int|
        0 <= k < d.len() ==> ((#[trigger] d[k]).count_tag, d[k].delimiter_tag) == ps[k]
}

/// All built-in legacy-dictionary group schemas, in dictionary order.
#[verifier::rlimit(60)]
pub fn fix42_groups() -> (r: Vec<GroupSpec>)
    ensures
        dict_matches(r@, fix42_pairs()),
{
    let mut v: Vec<GroupSpec> = Vec::new();
    v.push(allocs());
    v.push(orders());
    v.push(rpts());
    v.push(dlvy_inst());
    v.push(execs());
    v.push(misc_fees());
    v.push(related_sym());
    v.push(ioi_qualifiers());
    v.push(routing_ids());
    v.push(md_entry_types());
    v.push(md_entries());
    v.push(quote_entries());
    v.push(quote_sets());
    v.push(contra_brokers());
    v.push(msg_types());
    v.push(trading_sessions());
    v.push(bid_descriptors());
    v.push(bid_components());
    v.push(strikes());
    v
}

/// All built-in group schemas of the newer dictionary — a superset of
/// [`fix42_groups`], covering every repeating group that can appear in a
/// newer-version message — in dictionary order.
#[verifier::rlimit(100)]
pub fn fix44_groups() -> (r: Vec<GroupSpec>)
    ensures
        dict_matches(r@, fix44_pairs()),
{
    let mut v = fix42_groups();
    v.push(party_ids());
    v.push(security_alt_ids());
    v.push(underlying_security_alt_ids());
    v.push(regist_dtls());
    v.push(distrib_insts());
    v.push(cont_amts());
    v.push(nested_party_ids());
    v.push(sides());
    v.push(security_types());
    v.push(affected_orders());
    v.push(legs());
    v.push(underlyings());
    v.push(positions());
    v.push(quote_qualifiers());
    v.push(pos_amts());
    v.push(nested2_party_ids());
    v.push(trd_reg_timestamps());
    v.push(settl_inst());
    v.push(settl_party_ids());
    v.push(party_sub_ids());
    v.push(nested_party_sub_ids());
    v.push(nested2_party_sub_ids());
    v.push(alt_md_sources());
    v.push(capacities());
    v.push(events());
    v.push(instr_attrib());
    v.push(underlying_stips());
    v.push(trades());
    v.push(comp_ids());
    v.push(coll_inquiry_qualifiers());
    v.push(nested3_party_ids());
    v.push(leg_security_alt_ids());
    v.push(leg_stipulations());
    v.push(leg_allocs());
    v.push(hops());
    v.push(clearing_instructions());
    v
}

/// Whether the message region holds the group's count tag with a non-zero
/// declared count: only then does [`crate::message::Message::all_groups`]
/// list the group.
pub open spec fn group_present(buf: Seq<u8>, entries: Seq<(u32, u32, u32)>, count_tag: u32) -> bool {
    match first_tag_from(entries, count_tag, 0) {
        Some(i) => spec_parse_count(buf.subrange(entries[i].1 as int, entries[i].2 as int)) != 0,
        None => false,
    }
}

/// The (count tag, delimiter tag) pairs of `ps` whose group is present with
/// a non-zero count, in the order `ps` lists them.
pub open spec fn selected_pairs(buf: Seq<u8>, entries: Seq<(u32, u32, u32)>, ps: Seq<(u32, u32)>) -> Seq<
    (u32, u32),
>
    decreases ps.len(),
{
    if ps.len() == 0 {
        Seq::empty()
    } else {
        let rest = selected_pairs(buf, entries, ps.drop_last());
        if group_present(buf, entries, ps.last().0) {
            rest.push(ps.last())
        } else {
            rest
        }
    }
}

/// The value the count field declares: the digits read left to right with
/// wrapping arithmetic, or 0 as soon as any byte is not a digit. An invalid
/// count is never an error; it simply yields nothing.
pub open spec fn wrapped_count(s: Seq<u8>) -> usize
    decreases s.len(),
{
    if s.len() == 0 {
        0usize
    } else {
        vstd::wrapping::usize_specs::wrapping_add(
            vstd::wrapping::usize_specs::wrapping_mul(wrapped_count(s.drop_last()), 10),
            (s.last() - 48) as usize,
        )
    }
}

/// See [`wrapped_count`]: the declared count, or 0 on any non-digit byte.
pub open spec fn spec_parse_count(s: Seq<u8>) -> usize {
    if all_digits(s) {
        wrapped_count(s)
    } else {
        0
    }
}

/// Parse a decimal count value from raw bytes. Returns 0 on any non-digit
/// byte; overflowing values wrap.
pub fn parse_count(bytes: &[u8]) -> (r: usize)
    ensures
        r == spec_parse_count(bytes@),
{
    let ghost s = bytes@;
    let mut n: usize = 0;
    let mut i: usize = 0;
    while i < bytes.len()
        invariant
            s == bytes@,
            0 <= i <= s.len(),
            all_digits(s.take(i as int)),
            n == wrapped_count(s.take(i as int)),
        decreases s.len() - i,
    {
        let b = bytes[i];
        if b < 48 || b > 57 {
            assert(!crate::digits::is_digit(s[i as int]));
            return 0;
        }
        proof {
            assert(s.take(i + 1).drop_last() =~= s.take(i as int));
        }
        n = n.wrapping_mul(10).wrapping_add((b - 48) as usize);
        i = i + 1;
    }
    proof {
        assert(s.take(i as int) =~= s);
    }
    n
}

/// The instance decomposition: each instance starts at an occurrence of the
/// delimiter tag (entries before the first occurrence belong to no
/// instance) and runs up to (but excluding) the next occurrence, or to the
/// end of the region if none remains; at most `count` instances are taken,
/// and a region without a delimiter occurrence left ends the sequence.
pub open spec fn segment(entries: Seq<(u32, u32, u32)>, delim: u32, count: nat) -> Seq<
    Seq<(u32, u32, u32)>,
>
    decreases count,
{
    if count == 0 || entries.len() == 0 {
        Seq::empty()
    } else {
        match first_tag_from(entries, delim, 0) {
            None => Seq::empty(),
            Some(s) => {
                let end = match first_tag_from(entries, delim, s + 1) {
                    Some(i) => i,
                    None => entries.len() as int,
                };
                seq![entries.subrange(s, end)] + segment(
                    entries.skip(end),
                    delim,
                    (count - 1) as nat,
                )
            },
        }
    }
}

/// Number of entries of `entries` bearing tag `t`.
pub open spec fn tag_count(entries: Seq<(u32, u32, u32)>, t: u32) -> nat
    decreases entries.len(),
{
    if entries.len() == 0 {
        0
    } else {
        tag_count(entries.drop_first(), t) + (if entries[0].0 == t {
            1nat
        } else {
            0nat
        })
    }
}

proof fn lemma_tag_count_split(s: Seq<(u32, u32, u32)>, t: u32, e: int)
    requires
        0 <= e <= s.len(),
    ensures
        tag_count(s, t) == tag_count(s.take(e), t) + tag_count(s.skip(e), t),
    decreases e,
{
    if e == 0 {
        assert(s.take(0) =~= Seq::<(u32, u32, u32)>::empty());
        assert(s.skip(0) =~= s);
    } else {
        lemma_tag_count_split(s.drop_first(), t, e - 1);
        assert(s.take(e).drop_first() =~= s.drop_first().take(e - 1));
        assert(s.skip(e) =~= s.drop_first().skip(e - 1));
        assert(s.take(e)[0] == s[0]);
    }
}

proof fn lemma_tag_count_zero(s: Seq<(u32, u32, u32)>, t: u32)
    requires
        forall|j: int| 0 <= j < s.len() ==> (#[trigger] s[j]).0 != t,
    ensures
        tag_count(s, t) == 0,
    decreases s.len(),
{
    if s.len() > 0 {
        assert(forall|j: int| 0 <= j < s.drop_first().len() ==> (#[trigger] s.drop_first()[j]).0
            != t);
        lemma_tag_count_zero(s.drop_first(), t);
    }
}

/// A region's count field absent, or declaring zero, yields no instances:
/// an iterator built for such a group has nothing pending.
pub proof fn lemma_zero_or_absent_count_yields_nothing<'a>(
    it: GroupIter<'a>,
    buf: Seq<u8>,
    entries: Seq<(u32, u32, u32)>,
    gs: GroupSpec,
)
    requires
        groups_iter_ok(it, buf, entries, gs),
        match first_tag_from(entries, gs.count_tag, 0) {
            Some(i) => spec_parse_count(buf.subrange(entries[i].1 as int, entries[i].2 as int))
                == 0,
            None => true,
        },
    ensures
        it.pending().len() == 0,
{
}

/// A region that holds exactly `count` well-formed delimiter-bounded
/// instances — it opens with the delimiter tag, which occurs `count` times
/// in all — segments into exactly `count` instances whose concatenation is
/// the whole region, fields in wire order, each instance opened by its own
/// delimiter entry.
pub proof fn lemma_segment_exact(entries: Seq<(u32, u32, u32)>, delim: u32, count: nat)
    requires
        count > 0,
        entries.len() > 0,
        entries[0].0 == delim,
        tag_count(entries, delim) == count,
    ensures
        segment(entries, delim, count).len() == count,
        segment(entries, delim, count).flatten() == entries,
        forall|i: int|
            0 <= i < count ==> (#[trigger] segment(entries, delim, count)[i]).len() > 0 && segment(
                entries,
                delim,
                count,
            )[i][0].0 == delim,
    decreases count,
{
    assert(first_tag_from(entries, delim, 0) == Some(0int));
    lemma_first_tag_from_spec(entries, delim, 1);
    let seg = segment(entries, delim, count);
    match first_tag_from(entries, delim, 1) {
        None => {
            // The whole region is the single instance.
            assert(forall|j: int| 0 <= j < entries.skip(1).len() ==> (#[trigger] entries.skip(
                1,
            )[j]).0 != delim);
            lemma_tag_count_zero(entries.skip(1), delim);
            lemma_tag_count_split(entries, delim, 1);
            assert(tag_count(entries.take(1), delim) == 1) by {
                assert(entries.take(1).drop_first() =~= Seq::<(u32, u32, u32)>::empty());
                assert(entries.take(1)[0] == entries[0]);
            }
            assert(count == 1);
            assert(seg == seq![entries.subrange(0, entries.len() as int)] + segment(
                entries.skip(entries.len() as int),
                delim,
                0,
            ));
            assert(entries.subrange(0, entries.len() as int) =~= entries);
            assert(seg.len() == 1);
            assert(seg.flatten() =~= entries) by {
                assert(seg.first() == entries);
                assert(seg.drop_first() =~= Seq::<Seq<(u32, u32, u32)>>::empty());
                assert(seg.drop_first().flatten() =~= Seq::<(u32, u32, u32)>::empty());
            }
        },
        Some(end) => {
            let head = entries.take(end);
            let rest = entries.skip(end);
            assert(entries.subrange(0, end) =~= head);
            lemma_tag_count_split(entries, delim, end);
            assert(tag_count(head, delim) == 1) by {
                lemma_tag_count_split(head, delim, 1);
                assert(head.take(1).drop_first() =~= Seq::<(u32, u32, u32)>::empty());
                assert(head.take(1)[0] == entries[0]);
                assert(forall|j: int| 0 <= j < head.skip(1).len() ==> (#[trigger] head.skip(
                    1,
                )[j]).0 != delim);
                lemma_tag_count_zero(head.skip(1), delim);
            }
            assert(tag_count(rest, delim) == count - 1);
            assert(rest.len() > 0 && rest[0].0 == delim);
            if count == 1 {
                // One delimiter at the head and another at `end` would make
                // two, so a declared count of one cannot reach this arm.
                assert(false);
            }
            lemma_segment_exact(rest, delim, (count - 1) as nat);
            let seg_rest = segment(rest, delim, (count - 1) as nat);
            assert(seg == seq![head] + seg_rest);
            assert(seg.flatten() =~= entries) by {
                assert(seg.first() == head);
                assert(seg.drop_first() =~= seg_rest);
                assert(seg.flatten() == head + seg_rest.flatten());
                assert(head + rest =~= entries);
            }
            assert(forall|i: int| 1 <= i < count ==> seg[i] == seg_rest[i - 1]);
        },
    }
}

/// Every instance the engine yields is a contiguous sub-range of the region
/// it was segmented from. A nested iteration under one parent instance is
/// segmented from that instance's own bounded sub-range, so it can never
/// yield fields belonging to a sibling instance, whose entries lie outside
/// it.
pub proof fn lemma_segment_within(entries: Seq<(u32, u32, u32)>, delim: u32, count: nat, i: int)
    requires
        0 <= i < segment(entries, delim, count).len(),
    ensures
        exists|lo: int, hi: int|
            0 <= lo <= hi <= entries.len() && segment(entries, delim, count)[i]
                == entries.subrange(lo, hi),
    decreases count,
{
    let seg = segment(entries, delim, count);
    lemma_first_tag_from_spec(entries, delim, 0);
    if let Some(s) = first_tag_from(entries, delim, 0) {
        lemma_first_tag_from_spec(entries, delim, s + 1);
        let end = match first_tag_from(entries, delim, s + 1) {
            Some(e) => e,
            None => entries.len() as int,
        };
        if i == 0 {
            assert(seg[0] == entries.subrange(s, end));
            assert(0 <= s <= end <= entries.len() && seg[0] == entries.subrange(s, end));
        } else {
            let rest = entries.skip(end);
            lemma_segment_within(rest, delim, (count - 1) as nat, i - 1);
            let (lo, hi) = choose|lo: int, hi: int|
                0 <= lo <= hi <= rest.len() && segment(rest, delim, (count - 1) as nat)[i - 1]
                    == rest.subrange(lo, hi);
            assert(rest.subrange(lo, hi) =~= entries.subrange(lo + end, hi + end));
            assert(seg[i] == segment(rest, delim, (count - 1) as nat)[i - 1]);
            assert(0 <= lo + end <= hi + end <= entries.len() && seg[i] == entries.subrange(
                lo + end,
                hi + end,
            ));
        }
    }
}

/// A zero-copy view over one repeating-group instance: a contiguous
/// sub-range of the parent's offset entries plus the same buffer.
#[derive(Debug, Clone, Copy)]
pub struct Group<'a> {
    pub(crate) buf: &'a [u8],
    pub(crate) offsets: &'a [(u32, u32, u32)],
}

/// Iterator over the instances of one repeating group, produced by
/// [`crate::message::Message::groups`] or [`Group::groups`].
pub struct GroupIter<'a> {
    pub(crate) buf: &'a [u8],
    /// The entries after the count-tag entry that are still to be segmented.
    pub(crate) remaining: &'a [(u32, u32, u32)],
    pub(crate) delimiter_tag: Tag,
    /// The declared instance count.
    pub(crate) count: usize,
    /// How many instances have been yielded so far.
    pub(crate) emitted: usize,
}

impl<'a> GroupIter<'a> {
    /// The raw bytes of the underlying buffer.
    pub closed spec fn buf_bytes(self) -> Seq<u8> {
        self.buf@
    }

    /// The entries still to be segmented.
    pub closed spec fn remaining_entries(self) -> Seq<(u32, u32, u32)> {
        self.remaining@
    }

    /// The delimiter tag that opens each instance.
    pub closed spec fn delim(self) -> u32 {
        self.delimiter_tag
    }

    /// The declared instance count.
    pub closed spec fn declared_count(self) -> usize {
        self.count
    }

    /// How many instances have been yielded so far.
    pub closed spec fn emitted_count(self) -> usize {
        self.emitted
    }

    /// The iterator never over-emits, and its entries point into the buffer.
    pub closed spec fn wf(self) -> bool {
        &&& self.emitted <= self.count
        &&& table_wf(self.remaining@, self.buf@.len() as int)
    }

    /// The instances this iterator will still yield, in order.
    pub open spec fn pending(self) -> Seq<Seq<(u32, u32, u32)>> {
        segment(
            self.remaining_entries(),
            self.delim(),
            (self.declared_count() - self.emitted_count()) as nat,
        )
    }

    /// Yield the next instance: the entries from the next occurrence of the
    /// delimiter tag up to (but excluding) the occurrence after it, or to
    /// the end of the region if none remains. Emission stops at whichever
    /// comes first: the declared count, or exhaustion of the region — a
    /// region without a delimiter occurrence left yields nothing.
    pub fn next(&mut self) -> (r: Option<Group<'a>>)
        requires
            old(self).wf(),
        ensures
            final(self).wf(),
            final(self).buf_bytes() == old(self).buf_bytes(),
            final(self).delim() == old(self).delim(),
            final(self).declared_count() == old(self).declared_count(),
            match r {
                None => old(self).pending().len() == 0 && *final(self) == *old(self),
                Some(g) => {
                    &&& old(self).pending().len() > 0
                    &&& g.wf()
                    &&& g.buf_bytes() == old(self).buf_bytes()
                    &&& g.entries() == old(self).pending()[0]
                    &&& final(self).pending() == old(self).pending().skip(1)
                    &&& final(self).emitted_count() == old(self).emitted_count() + 1
                },
            },
    {
        if self.emitted >= self.count || self.remaining.len() == 0 {
            return None;
        }
        let ghost rem = self.remaining@;
        let ghost c = (self.count - self.emitted) as nat;
        let n = self.remaining.len();
        let s = match first_pos_from(self.remaining, self.delimiter_tag, 0) {
            Some(s) => s,
            None => {
                return None;
            },
        };
        let end = match first_pos_from(self.remaining, self.delimiter_tag, s + 1) {
            Some(i) => i,
            None => n,
        };
        let instance = vstd::slice::slice_subrange(self.remaining, s, end);
        let rest = vstd::slice::slice_subrange(self.remaining, end, n);
        self.remaining = rest;
        self.emitted = self.emitted + 1;
        proof {
            let ghost end_s = match first_tag_from(rem, self.delimiter_tag, s + 1) {
                Some(i) => i,
                None => rem.len() as int,
            };
            assert(end as int == end_s);
            assert(instance@ =~= rem.subrange(s as int, end_s));
            assert(rest@ =~= rem.skip(end_s));
            assert(segment(rem, self.delimiter_tag, c) == seq![rem.subrange(s as int, end_s)]
                + segment(rem.skip(end_s), self.delimiter_tag, (c - 1) as nat));
            assert((seq![rem.subrange(s as int, end_s)] + segment(
                rem.skip(end_s),
                self.delimiter_tag,
                (c - 1) as nat,
            )).skip(1) =~= segment(rem.skip(end_s), self.delimiter_tag, (c - 1) as nat));
        }
        Some(Group { buf: self.buf, offsets: instance })
    }

    /// How many instances remain by the declared count: the lower and upper
    /// bound handed to callers that size buffers ahead of iteration.
    pub fn size_hint(&self) -> (r: (usize, Option<usize>))
        ensures
            r.0 == if self.declared_count() >= self.emitted_count() {
                self.declared_count() - self.emitted_count()
            } else {
                0
            },
            r.1 == Some(r.0),
    {
        let left = if self.count >= self.emitted {
            self.count - self.emitted
        } else {
            0
        };
        (left, Some(left))
    }
}

/// The iterator that segmenting `entries` against `gs` yields, as
/// [`crate::message::Message::groups`] and [`Group::groups`] return it: no
/// instances emitted yet, and the candidate region is everything after the
/// count-tag entry — or nothing when the count tag is absent.
pub open spec fn groups_iter_ok<'a>(
    it: GroupIter<'a>,
    buf: Seq<u8>,
    entries: Seq<(u32, u32, u32)>,
    gs: GroupSpec,
) -> bool {
    &&& it.wf()
    &&& it.buf_bytes() == buf
    &&& it.delim() == gs.delimiter_tag
    &&& it.emitted_count() == 0
    &&& match first_tag_from(entries, gs.count_tag, 0) {
        None => it.declared_count() == 0 && it.remaining_entries().len() == 0,
        Some(i) => it.declared_count() == spec_parse_count(
            buf.subrange(entries[i].1 as int, entries[i].2 as int),
        ) && it.remaining_entries() == entries.skip(i + 1),
    }
}

/// Build the group iterator for `gs` over a field range: locate the count
/// tag, parse its value (absent or invalid counts as 0 and yields nothing),
/// and bound the candidate region to everything after it.
pub(crate) fn make_group_iter<'a>(
    buf: &'a [u8],
    offsets: &'a [(u32, u32, u32)],
    gs: &GroupSpec,
) -> (it: GroupIter<'a>)
    requires
        table_wf(offsets@, buf@.len() as int),
    ensures
        groups_iter_ok(it, buf@, offsets@, *gs),
{
    match first_pos_from(offsets, gs.count_tag, 0) {
        None => {
            let empty = vstd::slice::slice_subrange(offsets, 0, 0);
            proof {
                assert(empty@ =~= Seq::<(u32, u32, u32)>::empty());
            }
            GroupIter {
                buf,
                remaining: empty,
                delimiter_tag: gs.delimiter_tag,
                count: 0,
                emitted: 0,
            }
        },
        Some(i) => {
            proof {
                assert((#[trigger] offsets@[i as int]).1 <= offsets@[i as int].2 < buf@.len());
            }
            let n = offsets.len();
            let (_, start, end) = *vstd::slice::slice_index_get(offsets, i);
            let count = parse_count(
                vstd::slice::slice_subrange(buf, start as usize, end as usize),
            );
            let after = vstd::slice::slice_subrange(offsets, i + 1, n);
            proof {
                assert(after@ =~= offsets@.skip(i + 1));
            }
            GroupIter {
                buf,
                remaining: after,
                delimiter_tag: gs.delimiter_tag,
                count,
                emitted: 0,
            }
        },
    }
}

impl<'a> Group<'a> {
    /// The raw bytes of the underlying buffer.
    pub closed spec fn buf_bytes(self) -> Seq<u8> {
        self.buf@
    }

    /// This instance's offset entries, in wire order.
    pub closed spec fn entries(self) -> Seq<(u32, u32, u32)> {
        self.offsets@
    }

    /// Every entry points at a value range inside the buffer.
    pub closed spec fn wf(self) -> bool {
        table_wf(self.offsets@, self.buf@.len() as int)
    }

    /// The value bytes of the field at position `k` of this instance.
    pub open spec fn value_bytes(self, k: int) -> Seq<u8> {
        self.buf_bytes().subrange(self.entries()[k].1 as int, self.entries()[k].2 as int)
    }

    /// Number of fields in this group instance.
    pub fn len(&self) -> (r: usize)
        ensures
            r == self.entries().len(),
    {
        self.offsets.len()
    }

    /// Whether this group instance holds no fields.
    pub fn is_empty(&self) -> (r: bool)
        ensures
            r == (self.entries().len() == 0),
    {
        self.offsets.len() == 0
    }

    /// The field at position `index` of this instance.
    pub fn field(&self, index: usize) -> (r: Field<'a>)
        requires
            self.wf(),
            index < self.entries().len(),
        ensures
            r.tag == self.entries()[index as int].0,
            r.value@ == self.value_bytes(index as int),
    {
        let (t, start, end) = *vstd::slice::slice_index_get(self.offsets, index);
        Field { tag: t, value: vstd::slice::slice_subrange(self.buf, start as usize, end as usize) }
    }

    /// All fields of this instance, in wire order.
    pub fn fields(&self) -> (r: Vec<Field<'a>>)
        requires
            self.wf(),
        ensures
            r@.len() == self.entries().len(),
            forall|k: int|
                0 <= k < r@.len() ==> (#[trigger] r@[k]).tag == self.entries()[k].0
                    && r@[k].value@ == self.value_bytes(k),
    {
        let n = self.offsets.len();
        let mut out: Vec<Field<'a>> = Vec::new();
        let mut k: usize = 0;
        while k < n
            invariant
                self.wf(),
                n == self.entries().len(),
                0 <= k <= n,
                out@.len() == k,
                forall|j: int|
                    0 <= j < k ==> (#[trigger] out@[j]).tag == self.entries()[j].0
                        && out@[j].value@ == self.value_bytes(j),
            decreases n - k,
        {
            out.push(self.field(k));
            k = k + 1;
        }
        out
    }

    /// The first field of this instance with the given tag, or `None`.
    /// Always a linear scan: group instances are small, so no secondary
    /// index is kept.
    pub fn find(&self, tag: u32) -> (r: Option<Field<'a>>)
        requires
            self.wf(),
        ensures
            match r {
                Some(f) => first_tag_from(self.entries(), tag, 0) is Some && f.tag == tag
                    && f.value@ == self.value_bytes(first_tag_from(self.entries(), tag, 0)->Some_0),
                None => first_tag_from(self.entries(), tag, 0) is None,
            },
    {
        find_first_in(self.buf, self.offsets, tag)
    }

    /// The instances of a repeating group nested inside this instance.
    /// The identical algorithm as on a whole message, restricted to this
    /// instance's own bounded sub-range: a nested lookup can never read
    /// fields belonging to a sibling instance of the enclosing group.
    pub fn groups(&self, gs: &GroupSpec) -> (it: GroupIter<'a>)
        requires
            self.wf(),
        ensures
            groups_iter_ok(it, self.buf_bytes(), self.entries(), *gs),
    {
        make_group_iter(self.buf, self.offsets, gs)
    }
}

} // verus!

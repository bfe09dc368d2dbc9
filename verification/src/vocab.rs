//! The enumerated wire domains: one closed vocabulary per domain, each
//! usable through [`OpenEnum`](crate::open_enum::OpenEnum) so that unknown
//! future wire values decode to the fallback instead of failing.

use vstd::prelude::*;

use crate::open_enum::WireEnum;
use crate::text::str_eq;

verus! {

/// The advertising channel of a campaign.
#[allow(non_camel_case_types)]
#[derive(Clone, Copy, Debug, PartialEq, Eq, Structural)]
pub enum CampaignAdChannelType {
    SEARCH,
    DISPLAY,
}

impl WireEnum for CampaignAdChannelType {
    open spec fn wire(self) -> Seq<char> {
        match self {
            CampaignAdChannelType::SEARCH => "SEARCH"@,
            CampaignAdChannelType::DISPLAY => "DISPLAY"@,
        }
    }

    proof fn wire_injective(a: Self, b: Self) {
        reveal_strlit("SEARCH");
        reveal_strlit("DISPLAY");
        match a {
            CampaignAdChannelType::SEARCH => {
                assert(a.wire() == "SEARCH"@);
                match b {
                    CampaignAdChannelType::SEARCH => {
                        assert(b.wire() == "SEARCH"@);
                    },
                    CampaignAdChannelType::DISPLAY => {
                        assert(b.wire() == "DISPLAY"@);
                        assert("SEARCH"@.len() != "DISPLAY"@.len());
                    },
                }
            },
            CampaignAdChannelType::DISPLAY => {
                assert(a.wire() == "DISPLAY"@);
                match b {
                    CampaignAdChannelType::SEARCH => {
                        assert(b.wire() == "SEARCH"@);
                        assert("DISPLAY"@.len() != "SEARCH"@.len());
                    },
                    CampaignAdChannelType::DISPLAY => {
                        assert(b.wire() == "DISPLAY"@);
                    },
                }
            },
        }
    }

    fn match_wire(s: &str) -> (r: Option<Self>) {
        if str_eq(s, "SEARCH") {
            Some(CampaignAdChannelType::SEARCH)
        } else if str_eq(s, "DISPLAY") {
            Some(CampaignAdChannelType::DISPLAY)
        } else {
            None
        }
    }

    fn wire_str(&self) -> (r: &'static str) {
        match self {
            CampaignAdChannelType::SEARCH => "SEARCH",
            CampaignAdChannelType::DISPLAY => "DISPLAY",
        }
    }

    fn same(&self, other: &Self) -> (r: bool) {
        self == other
    }
}

/// The display status of a campaign.
#[allow(non_camel_case_types)]
#[derive(Clone, Copy, Debug, PartialEq, Eq, Structural)]
pub enum CampaignDisplayStatus {
    RUNNING,
    ON_HOLD,
    PAUSED,
    DELETED,
}

impl WireEnum for CampaignDisplayStatus {
    open spec fn wire(self) -> Seq<char> {
        match self {
            CampaignDisplayStatus::RUNNING => "RUNNING"@,
            CampaignDisplayStatus::ON_HOLD => "ON_HOLD"@,
            CampaignDisplayStatus::PAUSED => "PAUSED"@,
            CampaignDisplayStatus::DELETED => "DELETED"@,
        }
    }

    proof fn wire_injective(a: Self, b: Self) {
        reveal_strlit("RUNNING");
        reveal_strlit("ON_HOLD");
        reveal_strlit("PAUSED");
        reveal_strlit("DELETED");
        match a {
            CampaignDisplayStatus::RUNNING => {
                assert(a.wire() == "RUNNING"@);
                match b {
                    CampaignDisplayStatus::RUNNING => {
                        assert(b.wire() == "RUNNING"@);
                    },
                    CampaignDisplayStatus::ON_HOLD => {
                        assert(b.wire() == "ON_HOLD"@);
                        assert("RUNNING"@[0] != "ON_HOLD"@[0]);
                    },
                    CampaignDisplayStatus::PAUSED => {
                        assert(b.wire() == "PAUSED"@);
                        assert("RUNNING"@.len() != "PAUSED"@.len());
                    },
                    CampaignDisplayStatus::DELETED => {
                        assert(b.wire() == "DELETED"@);
                        assert("RUNNING"@[0] != "DELETED"@[0]);
                    },
                }
            },
            CampaignDisplayStatus::ON_HOLD => {
                assert(a.wire() == "ON_HOLD"@);
                match b {
                    CampaignDisplayStatus::RUNNING => {
                        assert(b.wire() == "RUNNING"@);
                        assert("ON_HOLD"@[0] != "RUNNING"@[0]);
                    },
                    CampaignDisplayStatus::ON_HOLD => {
                        assert(b.wire() == "ON_HOLD"@);
                    },
                    CampaignDisplayStatus::PAUSED => {
                        assert(b.wire() == "PAUSED"@);
                        assert("ON_HOLD"@.len() != "PAUSED"@.len());
                    },
                    CampaignDisplayStatus::DELETED => {
                        assert(b.wire() == "DELETED"@);
                        assert("ON_HOLD"@[0] != "DELETED"@[0]);
                    },
                }
            },
            CampaignDisplayStatus::PAUSED => {
                assert(a.wire() == "PAUSED"@);
                match b {
                    CampaignDisplayStatus::RUNNING => {
                        assert(b.wire() == "RUNNING"@);
                        assert("PAUSED"@.len() != "RUNNING"@.len());
                    },
                    CampaignDisplayStatus::ON_HOLD => {
                        assert(b.wire() == "ON_HOLD"@);
                        assert("PAUSED"@.len() != "ON_HOLD"@.len());
                    },
                    CampaignDisplayStatus::PAUSED => {
                        assert(b.wire() == "PAUSED"@);
                    },
                    CampaignDisplayStatus::DELETED => {
                        assert(b.wire() == "DELETED"@);
                        assert("PAUSED"@.len() != "DELETED"@.len());
                    },
                }
            },
            CampaignDisplayStatus::DELETED => {
                assert(a.wire() == "DELETED"@);
                match b {
                    CampaignDisplayStatus::RUNNING => {
                        assert(b.wire() == "RUNNING"@);
                        assert("DELETED"@[0] != "RUNNING"@[0]);
                    },
                    CampaignDisplayStatus::ON_HOLD => {
                        assert(b.wire() == "ON_HOLD"@);
                        assert("DELETED"@[0] != "ON_HOLD"@[0]);
                    },
                    CampaignDisplayStatus::PAUSED => {
                        assert(b.wire() == "PAUSED"@);
                        assert("DELETED"@.len() != "PAUSED"@.len());
                    },
                    CampaignDisplayStatus::DELETED => {
                        assert(b.wire() == "DELETED"@);
                    },
                }
            },
        }
    }

    fn match_wire(s: &str) -> (r: Option<Self>) {
        if str_eq(s, "RUNNING") {
            Some(CampaignDisplayStatus::RUNNING)
        } else if str_eq(s, "ON_HOLD") {
            Some(CampaignDisplayStatus::ON_HOLD)
        } else if str_eq(s, "PAUSED") {
            Some(CampaignDisplayStatus::PAUSED)
        } else if str_eq(s, "DELETED") {
            Some(CampaignDisplayStatus::DELETED)
        } else {
            None
        }
    }

    fn wire_str(&self) -> (r: &'static str) {
        match self {
            CampaignDisplayStatus::RUNNING => "RUNNING",
            CampaignDisplayStatus::ON_HOLD => "ON_HOLD",
            CampaignDisplayStatus::PAUSED => "PAUSED",
            CampaignDisplayStatus::DELETED => "DELETED",
        }
    }

    fn same(&self, other: &Self) -> (r: bool) {
        self == other
    }
}

/// Why a campaign is not serving.
#[allow(non_camel_case_types)]
#[derive(Clone, Copy, Debug, PartialEq, Eq, Structural)]
pub enum CampaignServingStateReason {
    NO_PAYMENT_METHOD_ON_FILE,
    MISSING_BO_OR_INVOICING_FIELDS,
    PAUSED_BY_USER,
    DELETED_BY_USER,
    CAMPAIGN_END_DATE_REACHED,
    CAMPAIGN_START_DATE_IN_FUTURE,
    DAILY_CAP_EXHAUSTED,
    TOTAL_BUDGET_EXHAUSTED,
    CREDIT_CARD_DECLINED,
    APP_NOT_ELIGIBLE,
    APP_NOT_ELIGIBLE_SEARCHADS,
    APP_NOT_PUBLISHED_YET,
    BO_START_DATE_IN_FUTURE,
    BO_END_DATE_REACHED,
    BO_EXHAUSTED,
    ORG_PAYMENT_TYPE_CHANGED,
    ORG_SUSPENDED_POLICY_VIOLATION,
    ORG_SUSPENDED_FRAUD,
    ORG_CHARGE_BACK_DISPUTED,
    PAUSED_BY_SYSTEM,
    LOC_EXHAUSTED,
    TAX_VERIFICATION_PENDING,
    SAPIN_LAW_AGENT_UNKNOWN,
    SAPIN_LAW_FRENCH_BIZ_UNKNOWN,
    SAPIN_LAW_FRENCH_BIZ,
    NO_ELIGIBLE_COUNTRIES,
    AD_GROUP_MISSING,
}

impl WireEnum for CampaignServingStateReason {
    open spec fn wire(self) -> Seq<char> {
        match self {
            CampaignServingStateReason::NO_PAYMENT_METHOD_ON_FILE => "NO_PAYMENT_METHOD_ON_FILE"@,
            CampaignServingStateReason::MISSING_BO_OR_INVOICING_FIELDS => "MISSING_BO_OR_INVOICING_FIELDS"@,
            CampaignServingStateReason::PAUSED_BY_USER => "PAUSED_BY_USER"@,
            CampaignServingStateReason::DELETED_BY_USER => "DELETED_BY_USER"@,
            CampaignServingStateReason::CAMPAIGN_END_DATE_REACHED => "CAMPAIGN_END_DATE_REACHED"@,
            CampaignServingStateReason::CAMPAIGN_START_DATE_IN_FUTURE => "CAMPAIGN_START_DATE_IN_FUTURE"@,
            CampaignServingStateReason::DAILY_CAP_EXHAUSTED => "DAILY_CAP_EXHAUSTED"@,
            CampaignServingStateReason::TOTAL_BUDGET_EXHAUSTED => "TOTAL_BUDGET_EXHAUSTED"@,
            CampaignServingStateReason::CREDIT_CARD_DECLINED => "CREDIT_CARD_DECLINED"@,
            CampaignServingStateReason::APP_NOT_ELIGIBLE => "APP_NOT_ELIGIBLE"@,
            CampaignServingStateReason::APP_NOT_ELIGIBLE_SEARCHADS => "APP_NOT_ELIGIBLE_SEARCHADS"@,
            CampaignServingStateReason::APP_NOT_PUBLISHED_YET => "APP_NOT_PUBLISHED_YET"@,
            CampaignServingStateReason::BO_START_DATE_IN_FUTURE => "BO_START_DATE_IN_FUTURE"@,
            CampaignServingStateReason::BO_END_DATE_REACHED => "BO_END_DATE_REACHED"@,
            CampaignServingStateReason::BO_EXHAUSTED => "BO_EXHAUSTED"@,
            CampaignServingStateReason::ORG_PAYMENT_TYPE_CHANGED => "ORG_PAYMENT_TYPE_CHANGED"@,
            CampaignServingStateReason::ORG_SUSPENDED_POLICY_VIOLATION => "ORG_SUSPENDED_POLICY_VIOLATION"@,
            CampaignServingStateReason::ORG_SUSPENDED_FRAUD => "ORG_SUSPENDED_FRAUD"@,
            CampaignServingStateReason::ORG_CHARGE_BACK_DISPUTED => "ORG_CHARGE_BACK_DISPUTED"@,
            CampaignServingStateReason::PAUSED_BY_SYSTEM => "PAUSED_BY_SYSTEM"@,
            CampaignServingStateReason::LOC_EXHAUSTED => "LOC_EXHAUSTED"@,
            CampaignServingStateReason::TAX_VERIFICATION_PENDING => "TAX_VERIFICATION_PENDING"@,
            CampaignServingStateReason::SAPIN_LAW_AGENT_UNKNOWN => "SAPIN_LAW_AGENT_UNKNOWN"@,
            CampaignServingStateReason::SAPIN_LAW_FRENCH_BIZ_UNKNOWN => "SAPIN_LAW_FRENCH_BIZ_UNKNOWN"@,
            CampaignServingStateReason::SAPIN_LAW_FRENCH_BIZ => "SAPIN_LAW_FRENCH_BIZ"@,
            CampaignServingStateReason::NO_ELIGIBLE_COUNTRIES => "NO_ELIGIBLE_COUNTRIES"@,
            CampaignServingStateReason::AD_GROUP_MISSING => "AD_GROUP_MISSING"@,
        }
    }

    proof fn wire_injective(a: Self, b: Self) {
        reveal_strlit("NO_PAYMENT_METHOD_ON_FILE");
        reveal_strlit("MISSING_BO_OR_INVOICING_FIELDS");
        reveal_strlit("PAUSED_BY_USER");
        reveal_strlit("DELETED_BY_USER");
        reveal_strlit("CAMPAIGN_END_DATE_REACHED");
        reveal_strlit("CAMPAIGN_START_DATE_IN_FUTURE");
        reveal_strlit("DAILY_CAP_EXHAUSTED");
        reveal_strlit("TOTAL_BUDGET_EXHAUSTED");
        reveal_strlit("CREDIT_CARD_DECLINED");
        reveal_strlit("APP_NOT_ELIGIBLE");
        reveal_strlit("APP_NOT_ELIGIBLE_SEARCHADS");
        reveal_strlit("APP_NOT_PUBLISHED_YET");
        reveal_strlit("BO_START_DATE_IN_FUTURE");
        reveal_strlit("BO_END_DATE_REACHED");
        reveal_strlit("BO_EXHAUSTED");
        reveal_strlit("ORG_PAYMENT_TYPE_CHANGED");
        reveal_strlit("ORG_SUSPENDED_POLICY_VIOLATION");
        reveal_strlit("ORG_SUSPENDED_FRAUD");
        reveal_strlit("ORG_CHARGE_BACK_DISPUTED");
        reveal_strlit("PAUSED_BY_SYSTEM");
        reveal_strlit("LOC_EXHAUSTED");
        reveal_strlit("TAX_VERIFICATION_PENDING");
        reveal_strlit("SAPIN_LAW_AGENT_UNKNOWN");
        reveal_strlit("SAPIN_LAW_FRENCH_BIZ_UNKNOWN");
        reveal_strlit("SAPIN_LAW_FRENCH_BIZ");
        reveal_strlit("NO_ELIGIBLE_COUNTRIES");
        reveal_strlit("AD_GROUP_MISSING");
        match a {
            CampaignServingStateReason::NO_PAYMENT_METHOD_ON_FILE => {
                assert(a.wire() == "NO_PAYMENT_METHOD_ON_FILE"@);
                match b {
                    CampaignServingStateReason::NO_PAYMENT_METHOD_ON_FILE => {
                        assert(b.wire() == "NO_PAYMENT_METHOD_ON_FILE"@);
                    },
                    CampaignServingStateReason::MISSING_BO_OR_INVOICING_FIELDS => {
                        assert(b.wire() == "MISSING_BO_OR_INVOICING_FIELDS"@);
                        assert("NO_PAYMENT_METHOD_ON_FILE"@.len() != "MISSING_BO_OR_INVOICING_FIELDS"@.len());
                    },
                    CampaignServingStateReason::PAUSED_BY_USER => {
                        assert(b.wire() == "PAUSED_BY_USER"@);
                        assert("NO_PAYMENT_METHOD_ON_FILE"@.len() != "PAUSED_BY_USER"@.len());
                    },
                    CampaignServingStateReason::DELETED_BY_USER => {
                        assert(b.wire() == "DELETED_BY_USER"@);
                        assert("NO_PAYMENT_METHOD_ON_FILE"@.len() != "DELETED_BY_USER"@.len());
                    },
                    CampaignServingStateReason::CAMPAIGN_END_DATE_REACHED => {
                        assert(b.wire() == "CAMPAIGN_END_DATE_REACHED"@);
                        assert("NO_PAYMENT_METHOD_ON_FILE"@[0] != "CAMPAIGN_END_DATE_REACHED"@[0]);
                    },
                    CampaignServingStateReason::CAMPAIGN_START_DATE_IN_FUTURE => {
                        assert(b.wire() == "CAMPAIGN_START_DATE_IN_FUTURE"@);
                        assert("NO_PAYMENT_METHOD_ON_FILE"@.len() != "CAMPAIGN_START_DATE_IN_FUTURE"@.len());
                    },
                    CampaignServingStateReason::DAILY_CAP_EXHAUSTED => {
                        assert(b.wire() == "DAILY_CAP_EXHAUSTED"@);
                        assert("NO_PAYMENT_METHOD_ON_FILE"@.len() != "DAILY_CAP_EXHAUSTED"@.len());
                    },
                    CampaignServingStateReason::TOTAL_BUDGET_EXHAUSTED => {
                        assert(b.wire() == "TOTAL_BUDGET_EXHAUSTED"@);
                        assert("NO_PAYMENT_METHOD_ON_FILE"@.len() != "TOTAL_BUDGET_EXHAUSTED"@.len());
                    },
                    CampaignServingStateReason::CREDIT_CARD_DECLINED => {
                        assert(b.wire() == "CREDIT_CARD_DECLINED"@);
                        assert("NO_PAYMENT_METHOD_ON_FILE"@.len() != "CREDIT_CARD_DECLINED"@.len());
                    },
                    CampaignServingStateReason::APP_NOT_ELIGIBLE => {
                        assert(b.wire() == "APP_NOT_ELIGIBLE"@);
                        assert("NO_PAYMENT_METHOD_ON_FILE"@.len() != "APP_NOT_ELIGIBLE"@.len());
                    },
                    CampaignServingStateReason::APP_NOT_ELIGIBLE_SEARCHADS => {
                        assert(b.wire() == "APP_NOT_ELIGIBLE_SEARCHADS"@);
                        assert("NO_PAYMENT_METHOD_ON_FILE"@.len() != "APP_NOT_ELIGIBLE_SEARCHADS"@.len());
                    },
                    CampaignServingStateReason::APP_NOT_PUBLISHED_YET => {
                        assert(b.wire() == "APP_NOT_PUBLISHED_YET"@);
                        assert("NO_PAYMENT_METHOD_ON_FILE"@.len() != "APP_NOT_PUBLISHED_YET"@.len());
                    },
                    CampaignServingStateReason::BO_START_DATE_IN_FUTURE => {
                        assert(b.wire() == "BO_START_DATE_IN_FUTURE"@);
                        assert("NO_PAYMENT_METHOD_ON_FILE"@.len() != "BO_START_DATE_IN_FUTURE"@.len());
                    },
                    CampaignServingStateReason::BO_END_DATE_REACHED => {
                        assert(b.wire() == "BO_END_DATE_REACHED"@);
                        assert("NO_PAYMENT_METHOD_ON_FILE"@.len() != "BO_END_DATE_REACHED"@.len());
                    },
                    CampaignServingStateReason::BO_EXHAUSTED => {
                        assert(b.wire() == "BO_EXHAUSTED"@);
                        assert("NO_PAYMENT_METHOD_ON_FILE"@.len() != "BO_EXHAUSTED"@.len());
                    },
                    CampaignServingStateReason::ORG_PAYMENT_TYPE_CHANGED => {
                        assert(b.wire() == "ORG_PAYMENT_TYPE_CHANGED"@);
                        assert("NO_PAYMENT_METHOD_ON_FILE"@.len() != "ORG_PAYMENT_TYPE_CHANGED"@.len());
                    },
                    CampaignServingStateReason::ORG_SUSPENDED_POLICY_VIOLATION => {
                        assert(b.wire() == "ORG_SUSPENDED_POLICY_VIOLATION"@);
                        assert("NO_PAYMENT_METHOD_ON_FILE"@.len() != "ORG_SUSPENDED_POLICY_VIOLATION"@.len());
                    },
                    CampaignServingStateReason::ORG_SUSPENDED_FRAUD => {
                        assert(b.wire() == "ORG_SUSPENDED_FRAUD"@);
                        assert("NO_PAYMENT_METHOD_ON_FILE"@.len() != "ORG_SUSPENDED_FRAUD"@.len());
                    },
                    CampaignServingStateReason::ORG_CHARGE_BACK_DISPUTED => {
                        assert(b.wire() == "ORG_CHARGE_BACK_DISPUTED"@);
                        assert("NO_PAYMENT_METHOD_ON_FILE"@.len() != "ORG_CHARGE_BACK_DISPUTED"@.len());
                    },
                    CampaignServingStateReason::PAUSED_BY_SYSTEM => {
                        assert(b.wire() == "PAUSED_BY_SYSTEM"@);
                        assert("NO_PAYMENT_METHOD_ON_FILE"@.len() != "PAUSED_BY_SYSTEM"@.len());
                    },
                    CampaignServingStateReason::LOC_EXHAUSTED => {
                        assert(b.wire() == "LOC_EXHAUSTED"@);
                        assert("NO_PAYMENT_METHOD_ON_FILE"@.len() != "LOC_EXHAUSTED"@.len());
                    },
                    CampaignServingStateReason::TAX_VERIFICATION_PENDING => {
                        assert(b.wire() == "TAX_VERIFICATION_PENDING"@);
                        assert("NO_PAYMENT_METHOD_ON_FILE"@.len() != "TAX_VERIFICATION_PENDING"@.len());
                    },
                    CampaignServingStateReason::SAPIN_LAW_AGENT_UNKNOWN => {
                        assert(b.wire() == "SAPIN_LAW_AGENT_UNKNOWN"@);
                        assert("NO_PAYMENT_METHOD_ON_FILE"@.len() != "SAPIN_LAW_AGENT_UNKNOWN"@.len());
                    },
                    CampaignServingStateReason::SAPIN_LAW_FRENCH_BIZ_UNKNOWN => {
                        assert(b.wire() == "SAPIN_LAW_FRENCH_BIZ_UNKNOWN"@);
                        assert("NO_PAYMENT_METHOD_ON_FILE"@.len() != "SAPIN_LAW_FRENCH_BIZ_UNKNOWN"@.len());
                    },
                    CampaignServingStateReason::SAPIN_LAW_FRENCH_BIZ => {
                        assert(b.wire() == "SAPIN_LAW_FRENCH_BIZ"@);
                        assert("NO_PAYMENT_METHOD_ON_FILE"@.len() != "SAPIN_LAW_FRENCH_BIZ"@.len());
                    },
                    CampaignServingStateReason::NO_ELIGIBLE_COUNTRIES => {
                        assert(b.wire() == "NO_ELIGIBLE_COUNTRIES"@);
                        assert("NO_PAYMENT_METHOD_ON_FILE"@.len() != "NO_ELIGIBLE_COUNTRIES"@.len());
                    },
                    CampaignServingStateReason::AD_GROUP_MISSING => {
                        assert(b.wire() == "AD_GROUP_MISSING"@);
                        assert("NO_PAYMENT_METHOD_ON_FILE"@.len() != "AD_GROUP_MISSING"@.len());
                    },
                }
            },
            CampaignServingStateReason::MISSING_BO_OR_INVOICING_FIELDS => {
                assert(a.wire() == "MISSING_BO_OR_INVOICING_FIELDS"@);
                match b {
                    CampaignServingStateReason::NO_PAYMENT_METHOD_ON_FILE => {
                        assert(b.wire() == "NO_PAYMENT_METHOD_ON_FILE"@);
                        assert("MISSING_BO_OR_INVOICING_FIELDS"@.len() != "NO_PAYMENT_METHOD_ON_FILE"@.len());
                    },
                    CampaignServingStateReason::MISSING_BO_OR_INVOICING_FIELDS => {
                        assert(b.wire() == "MISSING_BO_OR_INVOICING_FIELDS"@);
                    },
                    CampaignServingStateReason::PAUSED_BY_USER => {
                        assert(b.wire() == "PAUSED_BY_USER"@);
                        assert("MISSING_BO_OR_INVOICING_FIELDS"@.len() != "PAUSED_BY_USER"@.len());
                    },
                    CampaignServingStateReason::DELETED_BY_USER => {
                        assert(b.wire() == "DELETED_BY_USER"@);
                        assert("MISSING_BO_OR_INVOICING_FIELDS"@.len() != "DELETED_BY_USER"@.len());
                    },
                    CampaignServingStateReason::CAMPAIGN_END_DATE_REACHED => {
                        assert(b.wire() == "CAMPAIGN_END_DATE_REACHED"@);
                        assert("MISSING_BO_OR_INVOICING_FIELDS"@.len() != "CAMPAIGN_END_DATE_REACHED"@.len());
                    },
                    CampaignServingStateReason::CAMPAIGN_START_DATE_IN_FUTURE => {
                        assert(b.wire() == "CAMPAIGN_START_DATE_IN_FUTURE"@);
                        assert("MISSING_BO_OR_INVOICING_FIELDS"@.len() != "CAMPAIGN_START_DATE_IN_FUTURE"@.len());
                    },
                    CampaignServingStateReason::DAILY_CAP_EXHAUSTED => {
                        assert(b.wire() == "DAILY_CAP_EXHAUSTED"@);
                        assert("MISSING_BO_OR_INVOICING_FIELDS"@.len() != "DAILY_CAP_EXHAUSTED"@.len());
                    },
                    CampaignServingStateReason::TOTAL_BUDGET_EXHAUSTED => {
                        assert(b.wire() == "TOTAL_BUDGET_EXHAUSTED"@);
                        assert("MISSING_BO_OR_INVOICING_FIELDS"@.len() != "TOTAL_BUDGET_EXHAUSTED"@.len());
                    },
                    CampaignServingStateReason::CREDIT_CARD_DECLINED => {
                        assert(b.wire() == "CREDIT_CARD_DECLINED"@);
                        assert("MISSING_BO_OR_INVOICING_FIELDS"@.len() != "CREDIT_CARD_DECLINED"@.len());
                    },
                    CampaignServingStateReason::APP_NOT_ELIGIBLE => {
                        assert(b.wire() == "APP_NOT_ELIGIBLE"@);
                        assert("MISSING_BO_OR_INVOICING_FIELDS"@.len() != "APP_NOT_ELIGIBLE"@.len());
                    },
                    CampaignServingStateReason::APP_NOT_ELIGIBLE_SEARCHADS => {
                        assert(b.wire() == "APP_NOT_ELIGIBLE_SEARCHADS"@);
                        assert("MISSING_BO_OR_INVOICING_FIELDS"@.len() != "APP_NOT_ELIGIBLE_SEARCHADS"@.len());
                    },
                    CampaignServingStateReason::APP_NOT_PUBLISHED_YET => {
                        assert(b.wire() == "APP_NOT_PUBLISHED_YET"@);
                        assert("MISSING_BO_OR_INVOICING_FIELDS"@.len() != "APP_NOT_PUBLISHED_YET"@.len());
                    },
                    CampaignServingStateReason::BO_START_DATE_IN_FUTURE => {
                        assert(b.wire() == "BO_START_DATE_IN_FUTURE"@);
                        assert("MISSING_BO_OR_INVOICING_FIELDS"@.len() != "BO_START_DATE_IN_FUTURE"@.len());
                    },
                    CampaignServingStateReason::BO_END_DATE_REACHED => {
                        assert(b.wire() == "BO_END_DATE_REACHED"@);
                        assert("MISSING_BO_OR_INVOICING_FIELDS"@.len() != "BO_END_DATE_REACHED"@.len());
                    },
                    CampaignServingStateReason::BO_EXHAUSTED => {
                        assert(b.wire() == "BO_EXHAUSTED"@);
                        assert("MISSING_BO_OR_INVOICING_FIELDS"@.len() != "BO_EXHAUSTED"@.len());
                    },
                    CampaignServingStateReason::ORG_PAYMENT_TYPE_CHANGED => {
                        assert(b.wire() == "ORG_PAYMENT_TYPE_CHANGED"@);
                        assert("MISSING_BO_OR_INVOICING_FIELDS"@.len() != "ORG_PAYMENT_TYPE_CHANGED"@.len());
                    },
                    CampaignServingStateReason::ORG_SUSPENDED_POLICY_VIOLATION => {
                        assert(b.wire() == "ORG_SUSPENDED_POLICY_VIOLATION"@);
                        assert("MISSING_BO_OR_INVOICING_FIELDS"@[0] != "ORG_SUSPENDED_POLICY_VIOLATION"@[0]);
                    },
                    CampaignServingStateReason::ORG_SUSPENDED_FRAUD => {
                        assert(b.wire() == "ORG_SUSPENDED_FRAUD"@);
                        assert("MISSING_BO_OR_INVOICING_FIELDS"@.len() != "ORG_SUSPENDED_FRAUD"@.len());
                    },
                    CampaignServingStateReason::ORG_CHARGE_BACK_DISPUTED => {
                        assert(b.wire() == "ORG_CHARGE_BACK_DISPUTED"@);
                        assert("MISSING_BO_OR_INVOICING_FIELDS"@.len() != "ORG_CHARGE_BACK_DISPUTED"@.len());
                    },
                    CampaignServingStateReason::PAUSED_BY_SYSTEM => {
                        assert(b.wire() == "PAUSED_BY_SYSTEM"@);
                        assert("MISSING_BO_OR_INVOICING_FIELDS"@.len() != "PAUSED_BY_SYSTEM"@.len());
                    },
                    CampaignServingStateReason::LOC_EXHAUSTED => {
                        assert(b.wire() == "LOC_EXHAUSTED"@);
                        assert("MISSING_BO_OR_INVOICING_FIELDS"@.len() != "LOC_EXHAUSTED"@.len());
                    },
                    CampaignServingStateReason::TAX_VERIFICATION_PENDING => {
                        assert(b.wire() == "TAX_VERIFICATION_PENDING"@);
                        assert("MISSING_BO_OR_INVOICING_FIELDS"@.len() != "TAX_VERIFICATION_PENDING"@.len());
                    },
                    CampaignServingStateReason::SAPIN_LAW_AGENT_UNKNOWN => {
                        assert(b.wire() == "SAPIN_LAW_AGENT_UNKNOWN"@);
                        assert("MISSING_BO_OR_INVOICING_FIELDS"@.len() != "SAPIN_LAW_AGENT_UNKNOWN"@.len());
                    },
                    CampaignServingStateReason::SAPIN_LAW_FRENCH_BIZ_UNKNOWN => {
                        assert(b.wire() == "SAPIN_LAW_FRENCH_BIZ_UNKNOWN"@);
                        assert("MISSING_BO_OR_INVOICING_FIELDS"@.len() != "SAPIN_LAW_FRENCH_BIZ_UNKNOWN"@.len());
                    },
                    CampaignServingStateReason::SAPIN_LAW_FRENCH_BIZ => {
                        assert(b.wire() == "SAPIN_LAW_FRENCH_BIZ"@);
                        assert("MISSING_BO_OR_INVOICING_FIELDS"@.len() != "SAPIN_LAW_FRENCH_BIZ"@.len());
                    },
                    CampaignServingStateReason::NO_ELIGIBLE_COUNTRIES => {
                        assert(b.wire() == "NO_ELIGIBLE_COUNTRIES"@);
                        assert("MISSING_BO_OR_INVOICING_FIELDS"@.len() != "NO_ELIGIBLE_COUNTRIES"@.len());
                    },
                    CampaignServingStateReason::AD_GROUP_MISSING => {
                        assert(b.wire() == "AD_GROUP_MISSING"@);
                        assert("MISSING_BO_OR_INVOICING_FIELDS"@.len() != "AD_GROUP_MISSING"@.len());
                    },
                }
            },
            CampaignServingStateReason::PAUSED_BY_USER => {
                assert(a.wire() == "PAUSED_BY_USER"@);
                match b {
                    CampaignServingStateReason::NO_PAYMENT_METHOD_ON_FILE => {
                        assert(b.wire() == "NO_PAYMENT_METHOD_ON_FILE"@);
                        assert("PAUSED_BY_USER"@.len() != "NO_PAYMENT_METHOD_ON_FILE"@.len());
                    },
                    CampaignServingStateReason::MISSING_BO_OR_INVOICING_FIELDS => {
                        assert(b.wire() == "MISSING_BO_OR_INVOICING_FIELDS"@);
                        assert("PAUSED_BY_USER"@.len() != "MISSING_BO_OR_INVOICING_FIELDS"@.len());
                    },
                    CampaignServingStateReason::PAUSED_BY_USER => {
                        assert(b.wire() == "PAUSED_BY_USER"@);
                    },
                    CampaignServingStateReason::DELETED_BY_USER => {
                        assert(b.wire() == "DELETED_BY_USER"@);
                        assert("PAUSED_BY_USER"@.len() != "DELETED_BY_USER"@.len());
                    },
                    CampaignServingStateReason::CAMPAIGN_END_DATE_REACHED => {
                        assert(b.wire() == "CAMPAIGN_END_DATE_REACHED"@);
                        assert("PAUSED_BY_USER"@.len() != "CAMPAIGN_END_DATE_REACHED"@.len());
                    },
                    CampaignServingStateReason::CAMPAIGN_START_DATE_IN_FUTURE => {
                        assert(b.wire() == "CAMPAIGN_START_DATE_IN_FUTURE"@);
                        assert("PAUSED_BY_USER"@.len() != "CAMPAIGN_START_DATE_IN_FUTURE"@.len());
                    },
                    CampaignServingStateReason::DAILY_CAP_EXHAUSTED => {
                        assert(b.wire() == "DAILY_CAP_EXHAUSTED"@);
                        assert("PAUSED_BY_USER"@.len() != "DAILY_CAP_EXHAUSTED"@.len());
                    },
                    CampaignServingStateReason::TOTAL_BUDGET_EXHAUSTED => {
                        assert(b.wire() == "TOTAL_BUDGET_EXHAUSTED"@);
                        assert("PAUSED_BY_USER"@.len() != "TOTAL_BUDGET_EXHAUSTED"@.len());
                    },
                    CampaignServingStateReason::CREDIT_CARD_DECLINED => {
                        assert(b.wire() == "CREDIT_CARD_DECLINED"@);
                        assert("PAUSED_BY_USER"@.len() != "CREDIT_CARD_DECLINED"@.len());
                    },
                    CampaignServingStateReason::APP_NOT_ELIGIBLE => {
                        assert(b.wire() == "APP_NOT_ELIGIBLE"@);
                        assert("PAUSED_BY_USER"@.len() != "APP_NOT_ELIGIBLE"@.len());
                    },
                    CampaignServingStateReason::APP_NOT_ELIGIBLE_SEARCHADS => {
                        assert(b.wire() == "APP_NOT_ELIGIBLE_SEARCHADS"@);
                        assert("PAUSED_BY_USER"@.len() != "APP_NOT_ELIGIBLE_SEARCHADS"@.len());
                    },
                    CampaignServingStateReason::APP_NOT_PUBLISHED_YET => {
                        assert(b.wire() == "APP_NOT_PUBLISHED_YET"@);
                        assert("PAUSED_BY_USER"@.len() != "APP_NOT_PUBLISHED_YET"@.len());
                    },
                    CampaignServingStateReason::BO_START_DATE_IN_FUTURE => {
                        assert(b.wire() == "BO_START_DATE_IN_FUTURE"@);
                        assert("PAUSED_BY_USER"@.len() != "BO_START_DATE_IN_FUTURE"@.len());
                    },
                    CampaignServingStateReason::BO_END_DATE_REACHED => {
                        assert(b.wire() == "BO_END_DATE_REACHED"@);
                        assert("PAUSED_BY_USER"@.len() != "BO_END_DATE_REACHED"@.len());
                    },
                    CampaignServingStateReason::BO_EXHAUSTED => {
                        assert(b.wire() == "BO_EXHAUSTED"@);
                        assert("PAUSED_BY_USER"@.len() != "BO_EXHAUSTED"@.len());
                    },
                    CampaignServingStateReason::ORG_PAYMENT_TYPE_CHANGED => {
                        assert(b.wire() == "ORG_PAYMENT_TYPE_CHANGED"@);
                        assert("PAUSED_BY_USER"@.len() != "ORG_PAYMENT_TYPE_CHANGED"@.len());
                    },
                    CampaignServingStateReason::ORG_SUSPENDED_POLICY_VIOLATION => {
                        assert(b.wire() == "ORG_SUSPENDED_POLICY_VIOLATION"@);
                        assert("PAUSED_BY_USER"@.len() != "ORG_SUSPENDED_POLICY_VIOLATION"@.len());
                    },
                    CampaignServingStateReason::ORG_SUSPENDED_FRAUD => {
                        assert(b.wire() == "ORG_SUSPENDED_FRAUD"@);
                        assert("PAUSED_BY_USER"@.len() != "ORG_SUSPENDED_FRAUD"@.len());
                    },
                    CampaignServingStateReason::ORG_CHARGE_BACK_DISPUTED => {
                        assert(b.wire() == "ORG_CHARGE_BACK_DISPUTED"@);
                        assert("PAUSED_BY_USER"@.len() != "ORG_CHARGE_BACK_DISPUTED"@.len());
                    },
                    CampaignServingStateReason::PAUSED_BY_SYSTEM => {
                        assert(b.wire() == "PAUSED_BY_SYSTEM"@);
                        assert("PAUSED_BY_USER"@.len() != "PAUSED_BY_SYSTEM"@.len());
                    },
                    CampaignServingStateReason::LOC_EXHAUSTED => {
                        assert(b.wire() == "LOC_EXHAUSTED"@);
                        assert("PAUSED_BY_USER"@.len() != "LOC_EXHAUSTED"@.len());
                    },
                    CampaignServingStateReason::TAX_VERIFICATION_PENDING => {
                        assert(b.wire() == "TAX_VERIFICATION_PENDING"@);
                        assert("PAUSED_BY_USER"@.len() != "TAX_VERIFICATION_PENDING"@.len());
                    },
                    CampaignServingStateReason::SAPIN_LAW_AGENT_UNKNOWN => {
                        assert(b.wire() == "SAPIN_LAW_AGENT_UNKNOWN"@);
                        assert("PAUSED_BY_USER"@.len() != "SAPIN_LAW_AGENT_UNKNOWN"@.len());
                    },
                    CampaignServingStateReason::SAPIN_LAW_FRENCH_BIZ_UNKNOWN => {
                        assert(b.wire() == "SAPIN_LAW_FRENCH_BIZ_UNKNOWN"@);
                        assert("PAUSED_BY_USER"@.len() != "SAPIN_LAW_FRENCH_BIZ_UNKNOWN"@.len());
                    },
                    CampaignServingStateReason::SAPIN_LAW_FRENCH_BIZ => {
                        assert(b.wire() == "SAPIN_LAW_FRENCH_BIZ"@);
                        assert("PAUSED_BY_USER"@.len() != "SAPIN_LAW_FRENCH_BIZ"@.len());
                    },
                    CampaignServingStateReason::NO_ELIGIBLE_COUNTRIES => {
                        assert(b.wire() == "NO_ELIGIBLE_COUNTRIES"@);
                        assert("PAUSED_BY_USER"@.len() != "NO_ELIGIBLE_COUNTRIES"@.len());
                    },
                    CampaignServingStateReason::AD_GROUP_MISSING => {
                        assert(b.wire() == "AD_GROUP_MISSING"@);
                        assert("PAUSED_BY_USER"@.len() != "AD_GROUP_MISSING"@.len());
                    },
                }
            },
            CampaignServingStateReason::DELETED_BY_USER => {
                assert(a.wire() == "DELETED_BY_USER"@);
                match b {
                    CampaignServingStateReason::NO_PAYMENT_METHOD_ON_FILE => {
                        assert(b.wire() == "NO_PAYMENT_METHOD_ON_FILE"@);
                        assert("DELETED_BY_USER"@.len() != "NO_PAYMENT_METHOD_ON_FILE"@.len());
                    },
                    CampaignServingStateReason::MISSING_BO_OR_INVOICING_FIELDS => {
                        assert(b.wire() == "MISSING_BO_OR_INVOICING_FIELDS"@);
                        assert("DELETED_BY_USER"@.len() != "MISSING_BO_OR_INVOICING_FIELDS"@.len());
                    },
                    CampaignServingStateReason::PAUSED_BY_USER => {
                        assert(b.wire() == "PAUSED_BY_USER"@);
                        assert("DELETED_BY_USER"@.len() != "PAUSED_BY_USER"@.len());
                    },
                    CampaignServingStateReason::DELETED_BY_USER => {
                        assert(b.wire() == "DELETED_BY_USER"@);
                    },
                    CampaignServingStateReason::CAMPAIGN_END_DATE_REACHED => {
                        assert(b.wire() == "CAMPAIGN_END_DATE_REACHED"@);
                        assert("DELETED_BY_USER"@.len() != "CAMPAIGN_END_DATE_REACHED"@.len());
                    },
                    CampaignServingStateReason::CAMPAIGN_START_DATE_IN_FUTURE => {
                        assert(b.wire() == "CAMPAIGN_START_DATE_IN_FUTURE"@);
                        assert("DELETED_BY_USER"@.len() != "CAMPAIGN_START_DATE_IN_FUTURE"@.len());
                    },
                    CampaignServingStateReason::DAILY_CAP_EXHAUSTED => {
                        assert(b.wire() == "DAILY_CAP_EXHAUSTED"@);
                        assert("DELETED_BY_USER"@.len() != "DAILY_CAP_EXHAUSTED"@.len());
                    },
                    CampaignServingStateReason::TOTAL_BUDGET_EXHAUSTED => {
                        assert(b.wire() == "TOTAL_BUDGET_EXHAUSTED"@);
                        assert("DELETED_BY_USER"@.len() != "TOTAL_BUDGET_EXHAUSTED"@.len());
                    },
                    CampaignServingStateReason::CREDIT_CARD_DECLINED => {
                        assert(b.wire() == "CREDIT_CARD_DECLINED"@);
                        assert("DELETED_BY_USER"@.len() != "CREDIT_CARD_DECLINED"@.len());
                    },
                    CampaignServingStateReason::APP_NOT_ELIGIBLE => {
                        assert(b.wire() == "APP_NOT_ELIGIBLE"@);
                        assert("DELETED_BY_USER"@.len() != "APP_NOT_ELIGIBLE"@.len());
                    },
                    CampaignServingStateReason::APP_NOT_ELIGIBLE_SEARCHADS => {
                        assert(b.wire() == "APP_NOT_ELIGIBLE_SEARCHADS"@);
                        assert("DELETED_BY_USER"@.len() != "APP_NOT_ELIGIBLE_SEARCHADS"@.len());
                    },
                    CampaignServingStateReason::APP_NOT_PUBLISHED_YET => {
                        assert(b.wire() == "APP_NOT_PUBLISHED_YET"@);
                        assert("DELETED_BY_USER"@.len() != "APP_NOT_PUBLISHED_YET"@.len());
                    },
                    CampaignServingStateReason::BO_START_DATE_IN_FUTURE => {
                        assert(b.wire() == "BO_START_DATE_IN_FUTURE"@);
                        assert("DELETED_BY_USER"@.len() != "BO_START_DATE_IN_FUTURE"@.len());
                    },
                    CampaignServingStateReason::BO_END_DATE_REACHED => {
                        assert(b.wire() == "BO_END_DATE_REACHED"@);
                        assert("DELETED_BY_USER"@.len() != "BO_END_DATE_REACHED"@.len());
                    },
                    CampaignServingStateReason::BO_EXHAUSTED => {
                        assert(b.wire() == "BO_EXHAUSTED"@);
                        assert("DELETED_BY_USER"@.len() != "BO_EXHAUSTED"@.len());
                    },
                    CampaignServingStateReason::ORG_PAYMENT_TYPE_CHANGED => {
                        assert(b.wire() == "ORG_PAYMENT_TYPE_CHANGED"@);
                        assert("DELETED_BY_USER"@.len() != "ORG_PAYMENT_TYPE_CHANGED"@.len());
                    },
                    CampaignServingStateReason::ORG_SUSPENDED_POLICY_VIOLATION => {
                        assert(b.wire() == "ORG_SUSPENDED_POLICY_VIOLATION"@);
                        assert("DELETED_BY_USER"@.len() != "ORG_SUSPENDED_POLICY_VIOLATION"@.len());
                    },
                    CampaignServingStateReason::ORG_SUSPENDED_FRAUD => {
                        assert(b.wire() == "ORG_SUSPENDED_FRAUD"@);
                        assert("DELETED_BY_USER"@.len() != "ORG_SUSPENDED_FRAUD"@.len());
                    },
                    CampaignServingStateReason::ORG_CHARGE_BACK_DISPUTED => {
                        assert(b.wire() == "ORG_CHARGE_BACK_DISPUTED"@);
                        assert("DELETED_BY_USER"@.len() != "ORG_CHARGE_BACK_DISPUTED"@.len());
                    },
                    CampaignServingStateReason::PAUSED_BY_SYSTEM => {
                        assert(b.wire() == "PAUSED_BY_SYSTEM"@);
                        assert("DELETED_BY_USER"@.len() != "PAUSED_BY_SYSTEM"@.len());
                    },
                    CampaignServingStateReason::LOC_EXHAUSTED => {
                        assert(b.wire() == "LOC_EXHAUSTED"@);
                        assert("DELETED_BY_USER"@.len() != "LOC_EXHAUSTED"@.len());
                    },
                    CampaignServingStateReason::TAX_VERIFICATION_PENDING => {
                        assert(b.wire() == "TAX_VERIFICATION_PENDING"@);
                        assert("DELETED_BY_USER"@.len() != "TAX_VERIFICATION_PENDING"@.len());
                    },
                    CampaignServingStateReason::SAPIN_LAW_AGENT_UNKNOWN => {
                        assert(b.wire() == "SAPIN_LAW_AGENT_UNKNOWN"@);
                        assert("DELETED_BY_USER"@.len() != "SAPIN_LAW_AGENT_UNKNOWN"@.len());
                    },
                    CampaignServingStateReason::SAPIN_LAW_FRENCH_BIZ_UNKNOWN => {
                        assert(b.wire() == "SAPIN_LAW_FRENCH_BIZ_UNKNOWN"@);
                        assert("DELETED_BY_USER"@.len() != "SAPIN_LAW_FRENCH_BIZ_UNKNOWN"@.len());
                    },
                    CampaignServingStateReason::SAPIN_LAW_FRENCH_BIZ => {
                        assert(b.wire() == "SAPIN_LAW_FRENCH_BIZ"@);
                        assert("DELETED_BY_USER"@.len() != "SAPIN_LAW_FRENCH_BIZ"@.len());
                    },
                    CampaignServingStateReason::NO_ELIGIBLE_COUNTRIES => {
                        assert(b.wire() == "NO_ELIGIBLE_COUNTRIES"@);
                        assert("DELETED_BY_USER"@.len() != "NO_ELIGIBLE_COUNTRIES"@.len());
                    },
                    CampaignServingStateReason::AD_GROUP_MISSING => {
                        assert(b.wire() == "AD_GROUP_MISSING"@);
                        assert("DELETED_BY_USER"@.len() != "AD_GROUP_MISSING"@.len());
                    },
                }
            },
            CampaignServingStateReason::CAMPAIGN_END_DATE_REACHED => {
                assert(a.wire() == "CAMPAIGN_END_DATE_REACHED"@);
                match b {
                    CampaignServingStateReason::NO_PAYMENT_METHOD_ON_FILE => {
                        assert(b.wire() == "NO_PAYMENT_METHOD_ON_FILE"@);
                        assert("CAMPAIGN_END_DATE_REACHED"@[0] != "NO_PAYMENT_METHOD_ON_FILE"@[0]);
                    },
                    CampaignServingStateReason::MISSING_BO_OR_INVOICING_FIELDS => {
                        assert(b.wire() == "MISSING_BO_OR_INVOICING_FIELDS"@);
                        assert("CAMPAIGN_END_DATE_REACHED"@.len() != "MISSING_BO_OR_INVOICING_FIELDS"@.len());
                    },
                    CampaignServingStateReason::PAUSED_BY_USER => {
                        assert(b.wire() == "PAUSED_BY_USER"@);
                        assert("CAMPAIGN_END_DATE_REACHED"@.len() != "PAUSED_BY_USER"@.len());
                    },
                    CampaignServingStateReason::DELETED_BY_USER => {
                        assert(b.wire() == "DELETED_BY_USER"@);
                        assert("CAMPAIGN_END_DATE_REACHED"@.len() != "DELETED_BY_USER"@.len());
                    },
                    CampaignServingStateReason::CAMPAIGN_END_DATE_REACHED => {
                        assert(b.wire() == "CAMPAIGN_END_DATE_REACHED"@);
                    },
                    CampaignServingStateReason::CAMPAIGN_START_DATE_IN_FUTURE => {
                        assert(b.wire() == "CAMPAIGN_START_DATE_IN_FUTURE"@);
                        assert("CAMPAIGN_END_DATE_REACHED"@.len() != "CAMPAIGN_START_DATE_IN_FUTURE"@.len());
                    },
                    CampaignServingStateReason::DAILY_CAP_EXHAUSTED => {
                        assert(b.wire() == "DAILY_CAP_EXHAUSTED"@);
                        assert("CAMPAIGN_END_DATE_REACHED"@.len() != "DAILY_CAP_EXHAUSTED"@.len());
                    },
                    CampaignServingStateReason::TOTAL_BUDGET_EXHAUSTED => {
                        assert(b.wire() == "TOTAL_BUDGET_EXHAUSTED"@);
                        assert("CAMPAIGN_END_DATE_REACHED"@.len() != "TOTAL_BUDGET_EXHAUSTED"@.len());
                    },
                    CampaignServingStateReason::CREDIT_CARD_DECLINED => {
                        assert(b.wire() == "CREDIT_CARD_DECLINED"@);
                        assert("CAMPAIGN_END_DATE_REACHED"@.len() != "CREDIT_CARD_DECLINED"@.len());
                    },
                    CampaignServingStateReason::APP_NOT_ELIGIBLE => {
                        assert(b.wire() == "APP_NOT_ELIGIBLE"@);
                        assert("CAMPAIGN_END_DATE_REACHED"@.len() != "APP_NOT_ELIGIBLE"@.len());
                    },
                    CampaignServingStateReason::APP_NOT_ELIGIBLE_SEARCHADS => {
                        assert(b.wire() == "APP_NOT_ELIGIBLE_SEARCHADS"@);
                        assert("CAMPAIGN_END_DATE_REACHED"@.len() != "APP_NOT_ELIGIBLE_SEARCHADS"@.len());
                    },
                    CampaignServingStateReason::APP_NOT_PUBLISHED_YET => {
                        assert(b.wire() == "APP_NOT_PUBLISHED_YET"@);
                        assert("CAMPAIGN_END_DATE_REACHED"@.len() != "APP_NOT_PUBLISHED_YET"@.len());
                    },
                    CampaignServingStateReason::BO_START_DATE_IN_FUTURE => {
                        assert(b.wire() == "BO_START_DATE_IN_FUTURE"@);
                        assert("CAMPAIGN_END_DATE_REACHED"@.len() != "BO_START_DATE_IN_FUTURE"@.len());
                    },
                    CampaignServingStateReason::BO_END_DATE_REACHED => {
                        assert(b.wire() == "BO_END_DATE_REACHED"@);
                        assert("CAMPAIGN_END_DATE_REACHED"@.len() != "BO_END_DATE_REACHED"@.len());
                    },
                    CampaignServingStateReason::BO_EXHAUSTED => {
                        assert(b.wire() == "BO_EXHAUSTED"@);
                        assert("CAMPAIGN_END_DATE_REACHED"@.len() != "BO_EXHAUSTED"@.len());
                    },
                    CampaignServingStateReason::ORG_PAYMENT_TYPE_CHANGED => {
                        assert(b.wire() == "ORG_PAYMENT_TYPE_CHANGED"@);
                        assert("CAMPAIGN_END_DATE_REACHED"@.len() != "ORG_PAYMENT_TYPE_CHANGED"@.len());
                    },
                    CampaignServingStateReason::ORG_SUSPENDED_POLICY_VIOLATION => {
                        assert(b.wire() == "ORG_SUSPENDED_POLICY_VIOLATION"@);
                        assert("CAMPAIGN_END_DATE_REACHED"@.len() != "ORG_SUSPENDED_POLICY_VIOLATION"@.len());
                    },
                    CampaignServingStateReason::ORG_SUSPENDED_FRAUD => {
                        assert(b.wire() == "ORG_SUSPENDED_FRAUD"@);
                        assert("CAMPAIGN_END_DATE_REACHED"@.len() != "ORG_SUSPENDED_FRAUD"@.len());
                    },
                    CampaignServingStateReason::ORG_CHARGE_BACK_DISPUTED => {
                        assert(b.wire() == "ORG_CHARGE_BACK_DISPUTED"@);
                        assert("CAMPAIGN_END_DATE_REACHED"@.len() != "ORG_CHARGE_BACK_DISPUTED"@.len());
                    },
                    CampaignServingStateReason::PAUSED_BY_SYSTEM => {
                        assert(b.wire() == "PAUSED_BY_SYSTEM"@);
                        assert("CAMPAIGN_END_DATE_REACHED"@.len() != "PAUSED_BY_SYSTEM"@.len());
                    },
                    CampaignServingStateReason::LOC_EXHAUSTED => {
                        assert(b.wire() == "LOC_EXHAUSTED"@);
                        assert("CAMPAIGN_END_DATE_REACHED"@.len() != "LOC_EXHAUSTED"@.len());
                    },
                    CampaignServingStateReason::TAX_VERIFICATION_PENDING => {
                        assert(b.wire() == "TAX_VERIFICATION_PENDING"@);
                        assert("CAMPAIGN_END_DATE_REACHED"@.len() != "TAX_VERIFICATION_PENDING"@.len());
                    },
                    CampaignServingStateReason::SAPIN_LAW_AGENT_UNKNOWN => {
                        assert(b.wire() == "SAPIN_LAW_AGENT_UNKNOWN"@);
                        assert("CAMPAIGN_END_DATE_REACHED"@.len() != "SAPIN_LAW_AGENT_UNKNOWN"@.len());
                    },
                    CampaignServingStateReason::SAPIN_LAW_FRENCH_BIZ_UNKNOWN => {
                        assert(b.wire() == "SAPIN_LAW_FRENCH_BIZ_UNKNOWN"@);
                        assert("CAMPAIGN_END_DATE_REACHED"@.len() != "SAPIN_LAW_FRENCH_BIZ_UNKNOWN"@.len());
                    },
                    CampaignServingStateReason::SAPIN_LAW_FRENCH_BIZ => {
                        assert(b.wire() == "SAPIN_LAW_FRENCH_BIZ"@);
                        assert("CAMPAIGN_END_DATE_REACHED"@.len() != "SAPIN_LAW_FRENCH_BIZ"@.len());
                    },
                    CampaignServingStateReason::NO_ELIGIBLE_COUNTRIES => {
                        assert(b.wire() == "NO_ELIGIBLE_COUNTRIES"@);
                        assert("CAMPAIGN_END_DATE_REACHED"@.len() != "NO_ELIGIBLE_COUNTRIES"@.len());
                    },
                    CampaignServingStateReason::AD_GROUP_MISSING => {
                        assert(b.wire() == "AD_GROUP_MISSING"@);
                        assert("CAMPAIGN_END_DATE_REACHED"@.len() != "AD_GROUP_MISSING"@.len());
                    },
                }
            },
            CampaignServingStateReason::CAMPAIGN_START_DATE_IN_FUTURE => {
                assert(a.wire() == "CAMPAIGN_START_DATE_IN_FUTURE"@);
                match b {
                    CampaignServingStateReason::NO_PAYMENT_METHOD_ON_FILE => {
                        assert(b.wire() == "NO_PAYMENT_METHOD_ON_FILE"@);
                        assert("CAMPAIGN_START_DATE_IN_FUTURE"@.len() != "NO_PAYMENT_METHOD_ON_FILE"@.len());
                    },
                    CampaignServingStateReason::MISSING_BO_OR_INVOICING_FIELDS => {
                        assert(b.wire() == "MISSING_BO_OR_INVOICING_FIELDS"@);
                        assert("CAMPAIGN_START_DATE_IN_FUTURE"@.len() != "MISSING_BO_OR_INVOICING_FIELDS"@.len());
                    },
                    CampaignServingStateReason::PAUSED_BY_USER => {
                        assert(b.wire() == "PAUSED_BY_USER"@);
                        assert("CAMPAIGN_START_DATE_IN_FUTURE"@.len() != "PAUSED_BY_USER"@.len());
                    },
                    CampaignServingStateReason::DELETED_BY_USER => {
                        assert(b.wire() == "DELETED_BY_USER"@);
                        assert("CAMPAIGN_START_DATE_IN_FUTURE"@.len() != "DELETED_BY_USER"@.len());
                    },
                    CampaignServingStateReason::CAMPAIGN_END_DATE_REACHED => {
                        assert(b.wire() == "CAMPAIGN_END_DATE_REACHED"@);
                        assert("CAMPAIGN_START_DATE_IN_FUTURE"@.len() != "CAMPAIGN_END_DATE_REACHED"@.len());
                    },
                    CampaignServingStateReason::CAMPAIGN_START_DATE_IN_FUTURE => {
                        assert(b.wire() == "CAMPAIGN_START_DATE_IN_FUTURE"@);
                    },
                    CampaignServingStateReason::DAILY_CAP_EXHAUSTED => {
                        assert(b.wire() == "DAILY_CAP_EXHAUSTED"@);
                        assert("CAMPAIGN_START_DATE_IN_FUTURE"@.len() != "DAILY_CAP_EXHAUSTED"@.len());
                    },
                    CampaignServingStateReason::TOTAL_BUDGET_EXHAUSTED => {
                        assert(b.wire() == "TOTAL_BUDGET_EXHAUSTED"@);
                        assert("CAMPAIGN_START_DATE_IN_FUTURE"@.len() != "TOTAL_BUDGET_EXHAUSTED"@.len());
                    },
                    CampaignServingStateReason::CREDIT_CARD_DECLINED => {
                        assert(b.wire() == "CREDIT_CARD_DECLINED"@);
                        assert("CAMPAIGN_START_DATE_IN_FUTURE"@.len() != "CREDIT_CARD_DECLINED"@.len());
                    },
                    CampaignServingStateReason::APP_NOT_ELIGIBLE => {
                        assert(b.wire() == "APP_NOT_ELIGIBLE"@);
                        assert("CAMPAIGN_START_DATE_IN_FUTURE"@.len() != "APP_NOT_ELIGIBLE"@.len());
                    },
                    CampaignServingStateReason::APP_NOT_ELIGIBLE_SEARCHADS => {
                        assert(b.wire() == "APP_NOT_ELIGIBLE_SEARCHADS"@);
                        assert("CAMPAIGN_START_DATE_IN_FUTURE"@.len() != "APP_NOT_ELIGIBLE_SEARCHADS"@.len());
                    },
                    CampaignServingStateReason::APP_NOT_PUBLISHED_YET => {
                        assert(b.wire() == "APP_NOT_PUBLISHED_YET"@);
                        assert("CAMPAIGN_START_DATE_IN_FUTURE"@.len() != "APP_NOT_PUBLISHED_YET"@.len());
                    },
                    CampaignServingStateReason::BO_START_DATE_IN_FUTURE => {
                        assert(b.wire() == "BO_START_DATE_IN_FUTURE"@);
                        assert("CAMPAIGN_START_DATE_IN_FUTURE"@.len() != "BO_START_DATE_IN_FUTURE"@.len());
                    },
                    CampaignServingStateReason::BO_END_DATE_REACHED => {
                        assert(b.wire() == "BO_END_DATE_REACHED"@);
                        assert("CAMPAIGN_START_DATE_IN_FUTURE"@.len() != "BO_END_DATE_REACHED"@.len());
                    },
                    CampaignServingStateReason::BO_EXHAUSTED => {
                        assert(b.wire() == "BO_EXHAUSTED"@);
                        assert("CAMPAIGN_START_DATE_IN_FUTURE"@.len() != "BO_EXHAUSTED"@.len());
                    },
                    CampaignServingStateReason::ORG_PAYMENT_TYPE_CHANGED => {
                        assert(b.wire() == "ORG_PAYMENT_TYPE_CHANGED"@);
                        assert("CAMPAIGN_START_DATE_IN_FUTURE"@.len() != "ORG_PAYMENT_TYPE_CHANGED"@.len());
                    },
                    CampaignServingStateReason::ORG_SUSPENDED_POLICY_VIOLATION => {
                        assert(b.wire() == "ORG_SUSPENDED_POLICY_VIOLATION"@);
                        assert("CAMPAIGN_START_DATE_IN_FUTURE"@.len() != "ORG_SUSPENDED_POLICY_VIOLATION"@.len());
                    },
                    CampaignServingStateReason::ORG_SUSPENDED_FRAUD => {
                        assert(b.wire() == "ORG_SUSPENDED_FRAUD"@);
                        assert("CAMPAIGN_START_DATE_IN_FUTURE"@.len() != "ORG_SUSPENDED_FRAUD"@.len());
                    },
                    CampaignServingStateReason::ORG_CHARGE_BACK_DISPUTED => {
                        assert(b.wire() == "ORG_CHARGE_BACK_DISPUTED"@);
                        assert("CAMPAIGN_START_DATE_IN_FUTURE"@.len() != "ORG_CHARGE_BACK_DISPUTED"@.len());
                    },
                    CampaignServingStateReason::PAUSED_BY_SYSTEM => {
                        assert(b.wire() == "PAUSED_BY_SYSTEM"@);
                        assert("CAMPAIGN_START_DATE_IN_FUTURE"@.len() != "PAUSED_BY_SYSTEM"@.len());
                    },
                    CampaignServingStateReason::LOC_EXHAUSTED => {
                        assert(b.wire() == "LOC_EXHAUSTED"@);
                        assert("CAMPAIGN_START_DATE_IN_FUTURE"@.len() != "LOC_EXHAUSTED"@.len());
                    },
                    CampaignServingStateReason::TAX_VERIFICATION_PENDING => {
                        assert(b.wire() == "TAX_VERIFICATION_PENDING"@);
                        assert("CAMPAIGN_START_DATE_IN_FUTURE"@.len() != "TAX_VERIFICATION_PENDING"@.len());
                    },
                    CampaignServingStateReason::SAPIN_LAW_AGENT_UNKNOWN => {
                        assert(b.wire() == "SAPIN_LAW_AGENT_UNKNOWN"@);
                        assert("CAMPAIGN_START_DATE_IN_FUTURE"@.len() != "SAPIN_LAW_AGENT_UNKNOWN"@.len());
                    },
                    CampaignServingStateReason::SAPIN_LAW_FRENCH_BIZ_UNKNOWN => {
                        assert(b.wire() == "SAPIN_LAW_FRENCH_BIZ_UNKNOWN"@);
                        assert("CAMPAIGN_START_DATE_IN_FUTURE"@.len() != "SAPIN_LAW_FRENCH_BIZ_UNKNOWN"@.len());
                    },
                    CampaignServingStateReason::SAPIN_LAW_FRENCH_BIZ => {
                        assert(b.wire() == "SAPIN_LAW_FRENCH_BIZ"@);
                        assert("CAMPAIGN_START_DATE_IN_FUTURE"@.len() != "SAPIN_LAW_FRENCH_BIZ"@.len());
                    },
                    CampaignServingStateReason::NO_ELIGIBLE_COUNTRIES => {
                        assert(b.wire() == "NO_ELIGIBLE_COUNTRIES"@);
                        assert("CAMPAIGN_START_DATE_IN_FUTURE"@.len() != "NO_ELIGIBLE_COUNTRIES"@.len());
                    },
                    CampaignServingStateReason::AD_GROUP_MISSING => {
                        assert(b.wire() == "AD_GROUP_MISSING"@);
                        assert("CAMPAIGN_START_DATE_IN_FUTURE"@.len() != "AD_GROUP_MISSING"@.len());
                    },
                }
            },
            CampaignServingStateReason::DAILY_CAP_EXHAUSTED => {
                assert(a.wire() == "DAILY_CAP_EXHAUSTED"@);
                match b {
                    CampaignServingStateReason::NO_PAYMENT_METHOD_ON_FILE => {
                        assert(b.wire() == "NO_PAYMENT_METHOD_ON_FILE"@);
                        assert("DAILY_CAP_EXHAUSTED"@.len() != "NO_PAYMENT_METHOD_ON_FILE"@.len());
                    },
                    CampaignServingStateReason::MISSING_BO_OR_INVOICING_FIELDS => {
                        assert(b.wire() == "MISSING_BO_OR_INVOICING_FIELDS"@);
                        assert("DAILY_CAP_EXHAUSTED"@.len() != "MISSING_BO_OR_INVOICING_FIELDS"@.len());
                    },
                    CampaignServingStateReason::PAUSED_BY_USER => {
                        assert(b.wire() == "PAUSED_BY_USER"@);
                        assert("DAILY_CAP_EXHAUSTED"@.len() != "PAUSED_BY_USER"@.len());
                    },
                    CampaignServingStateReason::DELETED_BY_USER => {
                        assert(b.wire() == "DELETED_BY_USER"@);
                        assert("DAILY_CAP_EXHAUSTED"@.len() != "DELETED_BY_USER"@.len());
                    },
                    CampaignServingStateReason::CAMPAIGN_END_DATE_REACHED => {
                        assert(b.wire() == "CAMPAIGN_END_DATE_REACHED"@);
                        assert("DAILY_CAP_EXHAUSTED"@.len() != "CAMPAIGN_END_DATE_REACHED"@.len());
                    },
                    CampaignServingStateReason::CAMPAIGN_START_DATE_IN_FUTURE => {
                        assert(b.wire() == "CAMPAIGN_START_DATE_IN_FUTURE"@);
                        assert("DAILY_CAP_EXHAUSTED"@.len() != "CAMPAIGN_START_DATE_IN_FUTURE"@.len());
                    },
                    CampaignServingStateReason::DAILY_CAP_EXHAUSTED => {
                        assert(b.wire() == "DAILY_CAP_EXHAUSTED"@);
                    },
                    CampaignServingStateReason::TOTAL_BUDGET_EXHAUSTED => {
                        assert(b.wire() == "TOTAL_BUDGET_EXHAUSTED"@);
                        assert("DAILY_CAP_EXHAUSTED"@.len() != "TOTAL_BUDGET_EXHAUSTED"@.len());
                    },
                    CampaignServingStateReason::CREDIT_CARD_DECLINED => {
                        assert(b.wire() == "CREDIT_CARD_DECLINED"@);
                        assert("DAILY_CAP_EXHAUSTED"@.len() != "CREDIT_CARD_DECLINED"@.len());
                    },
                    CampaignServingStateReason::APP_NOT_ELIGIBLE => {
                        assert(b.wire() == "APP_NOT_ELIGIBLE"@);
                        assert("DAILY_CAP_EXHAUSTED"@.len() != "APP_NOT_ELIGIBLE"@.len());
                    },
                    CampaignServingStateReason::APP_NOT_ELIGIBLE_SEARCHADS => {
                        assert(b.wire() == "APP_NOT_ELIGIBLE_SEARCHADS"@);
                        assert("DAILY_CAP_EXHAUSTED"@.len() != "APP_NOT_ELIGIBLE_SEARCHADS"@.len());
                    },
                    CampaignServingStateReason::APP_NOT_PUBLISHED_YET => {
                        assert(b.wire() == "APP_NOT_PUBLISHED_YET"@);
                        assert("DAILY_CAP_EXHAUSTED"@.len() != "APP_NOT_PUBLISHED_YET"@.len());
                    },
                    CampaignServingStateReason::BO_START_DATE_IN_FUTURE => {
                        assert(b.wire() == "BO_START_DATE_IN_FUTURE"@);
                        assert("DAILY_CAP_EXHAUSTED"@.len() != "BO_START_DATE_IN_FUTURE"@.len());
                    },
                    CampaignServingStateReason::BO_END_DATE_REACHED => {
                        assert(b.wire() == "BO_END_DATE_REACHED"@);
                        assert("DAILY_CAP_EXHAUSTED"@[0] != "BO_END_DATE_REACHED"@[0]);
                    },
                    CampaignServingStateReason::BO_EXHAUSTED => {
                        assert(b.wire() == "BO_EXHAUSTED"@);
                        assert("DAILY_CAP_EXHAUSTED"@.len() != "BO_EXHAUSTED"@.len());
                    },
                    CampaignServingStateReason::ORG_PAYMENT_TYPE_CHANGED => {
                        assert(b.wire() == "ORG_PAYMENT_TYPE_CHANGED"@);
                        assert("DAILY_CAP_EXHAUSTED"@.len() != "ORG_PAYMENT_TYPE_CHANGED"@.len());
                    },
                    CampaignServingStateReason::ORG_SUSPENDED_POLICY_VIOLATION => {
                        assert(b.wire() == "ORG_SUSPENDED_POLICY_VIOLATION"@);
                        assert("DAILY_CAP_EXHAUSTED"@.len() != "ORG_SUSPENDED_POLICY_VIOLATION"@.len());
                    },
                    CampaignServingStateReason::ORG_SUSPENDED_FRAUD => {
                        assert(b.wire() == "ORG_SUSPENDED_FRAUD"@);
                        assert("DAILY_CAP_EXHAUSTED"@[0] != "ORG_SUSPENDED_FRAUD"@[0]);
                    },
                    CampaignServingStateReason::ORG_CHARGE_BACK_DISPUTED => {
                        assert(b.wire() == "ORG_CHARGE_BACK_DISPUTED"@);
                        assert("DAILY_CAP_EXHAUSTED"@.len() != "ORG_CHARGE_BACK_DISPUTED"@.len());
                    },
                    CampaignServingStateReason::PAUSED_BY_SYSTEM => {
                        assert(b.wire() == "PAUSED_BY_SYSTEM"@);
                        assert("DAILY_CAP_EXHAUSTED"@.len() != "PAUSED_BY_SYSTEM"@.len());
                    },
                    CampaignServingStateReason::LOC_EXHAUSTED => {
                        assert(b.wire() == "LOC_EXHAUSTED"@);
                        assert("DAILY_CAP_EXHAUSTED"@.len() != "LOC_EXHAUSTED"@.len());
                    },
                    CampaignServingStateReason::TAX_VERIFICATION_PENDING => {
                        assert(b.wire() == "TAX_VERIFICATION_PENDING"@);
                        assert("DAILY_CAP_EXHAUSTED"@.len() != "TAX_VERIFICATION_PENDING"@.len());
                    },
                    CampaignServingStateReason::SAPIN_LAW_AGENT_UNKNOWN => {
                        assert(b.wire() == "SAPIN_LAW_AGENT_UNKNOWN"@);
                        assert("DAILY_CAP_EXHAUSTED"@.len() != "SAPIN_LAW_AGENT_UNKNOWN"@.len());
                    },
                    CampaignServingStateReason::SAPIN_LAW_FRENCH_BIZ_UNKNOWN => {
                        assert(b.wire() == "SAPIN_LAW_FRENCH_BIZ_UNKNOWN"@);
                        assert("DAILY_CAP_EXHAUSTED"@.len() != "SAPIN_LAW_FRENCH_BIZ_UNKNOWN"@.len());
                    },
                    CampaignServingStateReason::SAPIN_LAW_FRENCH_BIZ => {
                        assert(b.wire() == "SAPIN_LAW_FRENCH_BIZ"@);
                        assert("DAILY_CAP_EXHAUSTED"@.len() != "SAPIN_LAW_FRENCH_BIZ"@.len());
                    },
                    CampaignServingStateReason::NO_ELIGIBLE_COUNTRIES => {
                        assert(b.wire() == "NO_ELIGIBLE_COUNTRIES"@);
                        assert("DAILY_CAP_EXHAUSTED"@.len() != "NO_ELIGIBLE_COUNTRIES"@.len());
                    },
                    CampaignServingStateReason::AD_GROUP_MISSING => {
                        assert(b.wire() == "AD_GROUP_MISSING"@);
                        assert("DAILY_CAP_EXHAUSTED"@.len() != "AD_GROUP_MISSING"@.len());
                    },
                }
            },
            CampaignServingStateReason::TOTAL_BUDGET_EXHAUSTED => {
                assert(a.wire() == "TOTAL_BUDGET_EXHAUSTED"@);
                match b {
                    CampaignServingStateReason::NO_PAYMENT_METHOD_ON_FILE => {
                        assert(b.wire() == "NO_PAYMENT_METHOD_ON_FILE"@);
                        assert("TOTAL_BUDGET_EXHAUSTED"@.len() != "NO_PAYMENT_METHOD_ON_FILE"@.len());
                    },
                    CampaignServingStateReason::MISSING_BO_OR_INVOICING_FIELDS => {
                        assert(b.wire() == "MISSING_BO_OR_INVOICING_FIELDS"@);
                        assert("TOTAL_BUDGET_EXHAUSTED"@.len() != "MISSING_BO_OR_INVOICING_FIELDS"@.len());
                    },
                    CampaignServingStateReason::PAUSED_BY_USER => {
                        assert(b.wire() == "PAUSED_BY_USER"@);
                        assert("TOTAL_BUDGET_EXHAUSTED"@.len() != "PAUSED_BY_USER"@.len());
                    },
                    CampaignServingStateReason::DELETED_BY_USER => {
                        assert(b.wire() == "DELETED_BY_USER"@);
                        assert("TOTAL_BUDGET_EXHAUSTED"@.len() != "DELETED_BY_USER"@.len());
                    },
                    CampaignServingStateReason::CAMPAIGN_END_DATE_REACHED => {
                        assert(b.wire() == "CAMPAIGN_END_DATE_REACHED"@);
                        assert("TOTAL_BUDGET_EXHAUSTED"@.len() != "CAMPAIGN_END_DATE_REACHED"@.len());
                    },
                    CampaignServingStateReason::CAMPAIGN_START_DATE_IN_FUTURE => {
                        assert(b.wire() == "CAMPAIGN_START_DATE_IN_FUTURE"@);
                        assert("TOTAL_BUDGET_EXHAUSTED"@.len() != "CAMPAIGN_START_DATE_IN_FUTURE"@.len());
                    },
                    CampaignServingStateReason::DAILY_CAP_EXHAUSTED => {
                        assert(b.wire() == "DAILY_CAP_EXHAUSTED"@);
                        assert("TOTAL_BUDGET_EXHAUSTED"@.len() != "DAILY_CAP_EXHAUSTED"@.len());
                    },
                    CampaignServingStateReason::TOTAL_BUDGET_EXHAUSTED => {
                        assert(b.wire() == "TOTAL_BUDGET_EXHAUSTED"@);
                    },
                    CampaignServingStateReason::CREDIT_CARD_DECLINED => {
                        assert(b.wire() == "CREDIT_CARD_DECLINED"@);
                        assert("TOTAL_BUDGET_EXHAUSTED"@.len() != "CREDIT_CARD_DECLINED"@.len());
                    },
                    CampaignServingStateReason::APP_NOT_ELIGIBLE => {
                        assert(b.wire() == "APP_NOT_ELIGIBLE"@);
                        assert("TOTAL_BUDGET_EXHAUSTED"@.len() != "APP_NOT_ELIGIBLE"@.len());
                    },
                    CampaignServingStateReason::APP_NOT_ELIGIBLE_SEARCHADS => {
                        assert(b.wire() == "APP_NOT_ELIGIBLE_SEARCHADS"@);
                        assert("TOTAL_BUDGET_EXHAUSTED"@.len() != "APP_NOT_ELIGIBLE_SEARCHADS"@.len());
                    },
                    CampaignServingStateReason::APP_NOT_PUBLISHED_YET => {
                        assert(b.wire() == "APP_NOT_PUBLISHED_YET"@);
                        assert("TOTAL_BUDGET_EXHAUSTED"@.len() != "APP_NOT_PUBLISHED_YET"@.len());
                    },
                    CampaignServingStateReason::BO_START_DATE_IN_FUTURE => {
                        assert(b.wire() == "BO_START_DATE_IN_FUTURE"@);
                        assert("TOTAL_BUDGET_EXHAUSTED"@.len() != "BO_START_DATE_IN_FUTURE"@.len());
                    },
                    CampaignServingStateReason::BO_END_DATE_REACHED => {
                        assert(b.wire() == "BO_END_DATE_REACHED"@);
                        assert("TOTAL_BUDGET_EXHAUSTED"@.len() != "BO_END_DATE_REACHED"@.len());
                    },
                    CampaignServingStateReason::BO_EXHAUSTED => {
                        assert(b.wire() == "BO_EXHAUSTED"@);
                        assert("TOTAL_BUDGET_EXHAUSTED"@.len() != "BO_EXHAUSTED"@.len());
                    },
                    CampaignServingStateReason::ORG_PAYMENT_TYPE_CHANGED => {
                        assert(b.wire() == "ORG_PAYMENT_TYPE_CHANGED"@);
                        assert("TOTAL_BUDGET_EXHAUSTED"@.len() != "ORG_PAYMENT_TYPE_CHANGED"@.len());
                    },
                    CampaignServingStateReason::ORG_SUSPENDED_POLICY_VIOLATION => {
                        assert(b.wire() == "ORG_SUSPENDED_POLICY_VIOLATION"@);
                        assert("TOTAL_BUDGET_EXHAUSTED"@.len() != "ORG_SUSPENDED_POLICY_VIOLATION"@.len());
                    },
                    CampaignServingStateReason::ORG_SUSPENDED_FRAUD => {
                        assert(b.wire() == "ORG_SUSPENDED_FRAUD"@);
                        assert("TOTAL_BUDGET_EXHAUSTED"@.len() != "ORG_SUSPENDED_FRAUD"@.len());
                    },
                    CampaignServingStateReason::ORG_CHARGE_BACK_DISPUTED => {
                        assert(b.wire() == "ORG_CHARGE_BACK_DISPUTED"@);
                        assert("TOTAL_BUDGET_EXHAUSTED"@.len() != "ORG_CHARGE_BACK_DISPUTED"@.len());
                    },
                    CampaignServingStateReason::PAUSED_BY_SYSTEM => {
                        assert(b.wire() == "PAUSED_BY_SYSTEM"@);
                        assert("TOTAL_BUDGET_EXHAUSTED"@.len() != "PAUSED_BY_SYSTEM"@.len());
                    },
                    CampaignServingStateReason::LOC_EXHAUSTED => {
                        assert(b.wire() == "LOC_EXHAUSTED"@);
                        assert("TOTAL_BUDGET_EXHAUSTED"@.len() != "LOC_EXHAUSTED"@.len());
                    },
                    CampaignServingStateReason::TAX_VERIFICATION_PENDING => {
                        assert(b.wire() == "TAX_VERIFICATION_PENDING"@);
                        assert("TOTAL_BUDGET_EXHAUSTED"@.len() != "TAX_VERIFICATION_PENDING"@.len());
                    },
                    CampaignServingStateReason::SAPIN_LAW_AGENT_UNKNOWN => {
                        assert(b.wire() == "SAPIN_LAW_AGENT_UNKNOWN"@);
                        assert("TOTAL_BUDGET_EXHAUSTED"@.len() != "SAPIN_LAW_AGENT_UNKNOWN"@.len());
                    },
                    CampaignServingStateReason::SAPIN_LAW_FRENCH_BIZ_UNKNOWN => {
                        assert(b.wire() == "SAPIN_LAW_FRENCH_BIZ_UNKNOWN"@);
                        assert("TOTAL_BUDGET_EXHAUSTED"@.len() != "SAPIN_LAW_FRENCH_BIZ_UNKNOWN"@.len());
                    },
                    CampaignServingStateReason::SAPIN_LAW_FRENCH_BIZ => {
                        assert(b.wire() == "SAPIN_LAW_FRENCH_BIZ"@);
                        assert("TOTAL_BUDGET_EXHAUSTED"@.len() != "SAPIN_LAW_FRENCH_BIZ"@.len());
                    },
                    CampaignServingStateReason::NO_ELIGIBLE_COUNTRIES => {
                        assert(b.wire() == "NO_ELIGIBLE_COUNTRIES"@);
                        assert("TOTAL_BUDGET_EXHAUSTED"@.len() != "NO_ELIGIBLE_COUNTRIES"@.len());
                    },
                    CampaignServingStateReason::AD_GROUP_MISSING => {
                        assert(b.wire() == "AD_GROUP_MISSING"@);
                        assert("TOTAL_BUDGET_EXHAUSTED"@.len() != "AD_GROUP_MISSING"@.len());
                    },
                }
            },
            CampaignServingStateReason::CREDIT_CARD_DECLINED => {
                assert(a.wire() == "CREDIT_CARD_DECLINED"@);
                match b {
                    CampaignServingStateReason::NO_PAYMENT_METHOD_ON_FILE => {
                        assert(b.wire() == "NO_PAYMENT_METHOD_ON_FILE"@);
                        assert("CREDIT_CARD_DECLINED"@.len() != "NO_PAYMENT_METHOD_ON_FILE"@.len());
                    },
                    CampaignServingStateReason::MISSING_BO_OR_INVOICING_FIELDS => {
                        assert(b.wire() == "MISSING_BO_OR_INVOICING_FIELDS"@);
                        assert("CREDIT_CARD_DECLINED"@.len() != "MISSING_BO_OR_INVOICING_FIELDS"@.len());
                    },
                    CampaignServingStateReason::PAUSED_BY_USER => {
                        assert(b.wire() == "PAUSED_BY_USER"@);
                        assert("CREDIT_CARD_DECLINED"@.len() != "PAUSED_BY_USER"@.len());
                    },
                    CampaignServingStateReason::DELETED_BY_USER => {
                        assert(b.wire() == "DELETED_BY_USER"@);
                        assert("CREDIT_CARD_DECLINED"@.len() != "DELETED_BY_USER"@.len());
                    },
                    CampaignServingStateReason::CAMPAIGN_END_DATE_REACHED => {
                        assert(b.wire() == "CAMPAIGN_END_DATE_REACHED"@);
                        assert("CREDIT_CARD_DECLINED"@.len() != "CAMPAIGN_END_DATE_REACHED"@.len());
                    },
                    CampaignServingStateReason::CAMPAIGN_START_DATE_IN_FUTURE => {
                        assert(b.wire() == "CAMPAIGN_START_DATE_IN_FUTURE"@);
                        assert("CREDIT_CARD_DECLINED"@.len() != "CAMPAIGN_START_DATE_IN_FUTURE"@.len());
                    },
                    CampaignServingStateReason::DAILY_CAP_EXHAUSTED => {
                        assert(b.wire() == "DAILY_CAP_EXHAUSTED"@);
                        assert("CREDIT_CARD_DECLINED"@.len() != "DAILY_CAP_EXHAUSTED"@.len());
                    },
                    CampaignServingStateReason::TOTAL_BUDGET_EXHAUSTED => {
                        assert(b.wire() == "TOTAL_BUDGET_EXHAUSTED"@);
                        assert("CREDIT_CARD_DECLINED"@.len() != "TOTAL_BUDGET_EXHAUSTED"@.len());
                    },
                    CampaignServingStateReason::CREDIT_CARD_DECLINED => {
                        assert(b.wire() == "CREDIT_CARD_DECLINED"@);
                    },
                    CampaignServingStateReason::APP_NOT_ELIGIBLE => {
                        assert(b.wire() == "APP_NOT_ELIGIBLE"@);
                        assert("CREDIT_CARD_DECLINED"@.len() != "APP_NOT_ELIGIBLE"@.len());
                    },
                    CampaignServingStateReason::APP_NOT_ELIGIBLE_SEARCHADS => {
                        assert(b.wire() == "APP_NOT_ELIGIBLE_SEARCHADS"@);
                        assert("CREDIT_CARD_DECLINED"@.len() != "APP_NOT_ELIGIBLE_SEARCHADS"@.len());
                    },
                    CampaignServingStateReason::APP_NOT_PUBLISHED_YET => {
                        assert(b.wire() == "APP_NOT_PUBLISHED_YET"@);
                        assert("CREDIT_CARD_DECLINED"@.len() != "APP_NOT_PUBLISHED_YET"@.len());
                    },
                    CampaignServingStateReason::BO_START_DATE_IN_FUTURE => {
                        assert(b.wire() == "BO_START_DATE_IN_FUTURE"@);
                        assert("CREDIT_CARD_DECLINED"@.len() != "BO_START_DATE_IN_FUTURE"@.len());
                    },
                    CampaignServingStateReason::BO_END_DATE_REACHED => {
                        assert(b.wire() == "BO_END_DATE_REACHED"@);
                        assert("CREDIT_CARD_DECLINED"@.len() != "BO_END_DATE_REACHED"@.len());
                    },
                    CampaignServingStateReason::BO_EXHAUSTED => {
                        assert(b.wire() == "BO_EXHAUSTED"@);
                        assert("CREDIT_CARD_DECLINED"@.len() != "BO_EXHAUSTED"@.len());
                    },
                    CampaignServingStateReason::ORG_PAYMENT_TYPE_CHANGED => {
                        assert(b.wire() == "ORG_PAYMENT_TYPE_CHANGED"@);
                        assert("CREDIT_CARD_DECLINED"@.len() != "ORG_PAYMENT_TYPE_CHANGED"@.len());
                    },
                    CampaignServingStateReason::ORG_SUSPENDED_POLICY_VIOLATION => {
                        assert(b.wire() == "ORG_SUSPENDED_POLICY_VIOLATION"@);
                        assert("CREDIT_CARD_DECLINED"@.len() != "ORG_SUSPENDED_POLICY_VIOLATION"@.len());
                    },
                    CampaignServingStateReason::ORG_SUSPENDED_FRAUD => {
                        assert(b.wire() == "ORG_SUSPENDED_FRAUD"@);
                        assert("CREDIT_CARD_DECLINED"@.len() != "ORG_SUSPENDED_FRAUD"@.len());
                    },
                    CampaignServingStateReason::ORG_CHARGE_BACK_DISPUTED => {
                        assert(b.wire() == "ORG_CHARGE_BACK_DISPUTED"@);
                        assert("CREDIT_CARD_DECLINED"@.len() != "ORG_CHARGE_BACK_DISPUTED"@.len());
                    },
                    CampaignServingStateReason::PAUSED_BY_SYSTEM => {
                        assert(b.wire() == "PAUSED_BY_SYSTEM"@);
                        assert("CREDIT_CARD_DECLINED"@.len() != "PAUSED_BY_SYSTEM"@.len());
                    },
                    CampaignServingStateReason::LOC_EXHAUSTED => {
                        assert(b.wire() == "LOC_EXHAUSTED"@);
                        assert("CREDIT_CARD_DECLINED"@.len() != "LOC_EXHAUSTED"@.len());
                    },
                    CampaignServingStateReason::TAX_VERIFICATION_PENDING => {
                        assert(b.wire() == "TAX_VERIFICATION_PENDING"@);
                        assert("CREDIT_CARD_DECLINED"@.len() != "TAX_VERIFICATION_PENDING"@.len());
                    },
                    CampaignServingStateReason::SAPIN_LAW_AGENT_UNKNOWN => {
                        assert(b.wire() == "SAPIN_LAW_AGENT_UNKNOWN"@);
                        assert("CREDIT_CARD_DECLINED"@.len() != "SAPIN_LAW_AGENT_UNKNOWN"@.len());
                    },
                    CampaignServingStateReason::SAPIN_LAW_FRENCH_BIZ_UNKNOWN => {
                        assert(b.wire() == "SAPIN_LAW_FRENCH_BIZ_UNKNOWN"@);
                        assert("CREDIT_CARD_DECLINED"@.len() != "SAPIN_LAW_FRENCH_BIZ_UNKNOWN"@.len());
                    },
                    CampaignServingStateReason::SAPIN_LAW_FRENCH_BIZ => {
                        assert(b.wire() == "SAPIN_LAW_FRENCH_BIZ"@);
                        assert("CREDIT_CARD_DECLINED"@[0] != "SAPIN_LAW_FRENCH_BIZ"@[0]);
                    },
                    CampaignServingStateReason::NO_ELIGIBLE_COUNTRIES => {
                        assert(b.wire() == "NO_ELIGIBLE_COUNTRIES"@);
                        assert("CREDIT_CARD_DECLINED"@.len() != "NO_ELIGIBLE_COUNTRIES"@.len());
                    },
                    CampaignServingStateReason::AD_GROUP_MISSING => {
                        assert(b.wire() == "AD_GROUP_MISSING"@);
                        assert("CREDIT_CARD_DECLINED"@.len() != "AD_GROUP_MISSING"@.len());
                    },
                }
            },
            CampaignServingStateReason::APP_NOT_ELIGIBLE => {
                assert(a.wire() == "APP_NOT_ELIGIBLE"@);
                match b {
                    CampaignServingStateReason::NO_PAYMENT_METHOD_ON_FILE => {
                        assert(b.wire() == "NO_PAYMENT_METHOD_ON_FILE"@);
                        assert("APP_NOT_ELIGIBLE"@.len() != "NO_PAYMENT_METHOD_ON_FILE"@.len());
                    },
                    CampaignServingStateReason::MISSING_BO_OR_INVOICING_FIELDS => {
                        assert(b.wire() == "MISSING_BO_OR_INVOICING_FIELDS"@);
                        assert("APP_NOT_ELIGIBLE"@.len() != "MISSING_BO_OR_INVOICING_FIELDS"@.len());
                    },
                    CampaignServingStateReason::PAUSED_BY_USER => {
                        assert(b.wire() == "PAUSED_BY_USER"@);
                        assert("APP_NOT_ELIGIBLE"@.len() != "PAUSED_BY_USER"@.len());
                    },
                    CampaignServingStateReason::DELETED_BY_USER => {
                        assert(b.wire() == "DELETED_BY_USER"@);
                        assert("APP_NOT_ELIGIBLE"@.len() != "DELETED_BY_USER"@.len());
                    },
                    CampaignServingStateReason::CAMPAIGN_END_DATE_REACHED => {
                        assert(b.wire() == "CAMPAIGN_END_DATE_REACHED"@);
                        assert("APP_NOT_ELIGIBLE"@.len() != "CAMPAIGN_END_DATE_REACHED"@.len());
                    },
                    CampaignServingStateReason::CAMPAIGN_START_DATE_IN_FUTURE => {
                        assert(b.wire() == "CAMPAIGN_START_DATE_IN_FUTURE"@);
                        assert("APP_NOT_ELIGIBLE"@.len() != "CAMPAIGN_START_DATE_IN_FUTURE"@.len());
                    },
                    CampaignServingStateReason::DAILY_CAP_EXHAUSTED => {
                        assert(b.wire() == "DAILY_CAP_EXHAUSTED"@);
                        assert("APP_NOT_ELIGIBLE"@.len() != "DAILY_CAP_EXHAUSTED"@.len());
                    },
                    CampaignServingStateReason::TOTAL_BUDGET_EXHAUSTED => {
                        assert(b.wire() == "TOTAL_BUDGET_EXHAUSTED"@);
                        assert("APP_NOT_ELIGIBLE"@.len() != "TOTAL_BUDGET_EXHAUSTED"@.len());
                    },
                    CampaignServingStateReason::CREDIT_CARD_DECLINED => {
                        assert(b.wire() == "CREDIT_CARD_DECLINED"@);
                        assert("APP_NOT_ELIGIBLE"@.len() != "CREDIT_CARD_DECLINED"@.len());
                    },
                    CampaignServingStateReason::APP_NOT_ELIGIBLE => {
                        assert(b.wire() == "APP_NOT_ELIGIBLE"@);
                    },
                    CampaignServingStateReason::APP_NOT_ELIGIBLE_SEARCHADS => {
                        assert(b.wire() == "APP_NOT_ELIGIBLE_SEARCHADS"@);
                        assert("APP_NOT_ELIGIBLE"@.len() != "APP_NOT_ELIGIBLE_SEARCHADS"@.len());
                    },
                    CampaignServingStateReason::APP_NOT_PUBLISHED_YET => {
                        assert(b.wire() == "APP_NOT_PUBLISHED_YET"@);
                        assert("APP_NOT_ELIGIBLE"@.len() != "APP_NOT_PUBLISHED_YET"@.len());
                    },
                    CampaignServingStateReason::BO_START_DATE_IN_FUTURE => {
                        assert(b.wire() == "BO_START_DATE_IN_FUTURE"@);
                        assert("APP_NOT_ELIGIBLE"@.len() != "BO_START_DATE_IN_FUTURE"@.len());
                    },
                    CampaignServingStateReason::BO_END_DATE_REACHED => {
                        assert(b.wire() == "BO_END_DATE_REACHED"@);
                        assert("APP_NOT_ELIGIBLE"@.len() != "BO_END_DATE_REACHED"@.len());
                    },
                    CampaignServingStateReason::BO_EXHAUSTED => {
                        assert(b.wire() == "BO_EXHAUSTED"@);
                        assert("APP_NOT_ELIGIBLE"@.len() != "BO_EXHAUSTED"@.len());
                    },
                    CampaignServingStateReason::ORG_PAYMENT_TYPE_CHANGED => {
                        assert(b.wire() == "ORG_PAYMENT_TYPE_CHANGED"@);
                        assert("APP_NOT_ELIGIBLE"@.len() != "ORG_PAYMENT_TYPE_CHANGED"@.len());
                    },
                    CampaignServingStateReason::ORG_SUSPENDED_POLICY_VIOLATION => {
                        assert(b.wire() == "ORG_SUSPENDED_POLICY_VIOLATION"@);
                        assert("APP_NOT_ELIGIBLE"@.len() != "ORG_SUSPENDED_POLICY_VIOLATION"@.len());
                    },
                    CampaignServingStateReason::ORG_SUSPENDED_FRAUD => {
                        assert(b.wire() == "ORG_SUSPENDED_FRAUD"@);
                        assert("APP_NOT_ELIGIBLE"@.len() != "ORG_SUSPENDED_FRAUD"@.len());
                    },
                    CampaignServingStateReason::ORG_CHARGE_BACK_DISPUTED => {
                        assert(b.wire() == "ORG_CHARGE_BACK_DISPUTED"@);
                        assert("APP_NOT_ELIGIBLE"@.len() != "ORG_CHARGE_BACK_DISPUTED"@.len());
                    },
                    CampaignServingStateReason::PAUSED_BY_SYSTEM => {
                        assert(b.wire() == "PAUSED_BY_SYSTEM"@);
                        assert("APP_NOT_ELIGIBLE"@[0] != "PAUSED_BY_SYSTEM"@[0]);
                    },
                    CampaignServingStateReason::LOC_EXHAUSTED => {
                        assert(b.wire() == "LOC_EXHAUSTED"@);
                        assert("APP_NOT_ELIGIBLE"@.len() != "LOC_EXHAUSTED"@.len());
                    },
                    CampaignServingStateReason::TAX_VERIFICATION_PENDING => {
                        assert(b.wire() == "TAX_VERIFICATION_PENDING"@);
                        assert("APP_NOT_ELIGIBLE"@.len() != "TAX_VERIFICATION_PENDING"@.len());
                    },
                    CampaignServingStateReason::SAPIN_LAW_AGENT_UNKNOWN => {
                        assert(b.wire() == "SAPIN_LAW_AGENT_UNKNOWN"@);
                        assert("APP_NOT_ELIGIBLE"@.len() != "SAPIN_LAW_AGENT_UNKNOWN"@.len());
                    },
                    CampaignServingStateReason::SAPIN_LAW_FRENCH_BIZ_UNKNOWN => {
                        assert(b.wire() == "SAPIN_LAW_FRENCH_BIZ_UNKNOWN"@);
                        assert("APP_NOT_ELIGIBLE"@.len() != "SAPIN_LAW_FRENCH_BIZ_UNKNOWN"@.len());
                    },
                    CampaignServingStateReason::SAPIN_LAW_FRENCH_BIZ => {
                        assert(b.wire() == "SAPIN_LAW_FRENCH_BIZ"@);
                        assert("APP_NOT_ELIGIBLE"@.len() != "SAPIN_LAW_FRENCH_BIZ"@.len());
                    },
                    CampaignServingStateReason::NO_ELIGIBLE_COUNTRIES => {
                        assert(b.wire() == "NO_ELIGIBLE_COUNTRIES"@);
                        assert("APP_NOT_ELIGIBLE"@.len() != "NO_ELIGIBLE_COUNTRIES"@.len());
                    },
                    CampaignServingStateReason::AD_GROUP_MISSING => {
                        assert(b.wire() == "AD_GROUP_MISSING"@);
                        assert("APP_NOT_ELIGIBLE"@[1] != "AD_GROUP_MISSING"@[1]);
                    },
                }
            },
            CampaignServingStateReason::APP_NOT_ELIGIBLE_SEARCHADS => {
                assert(a.wire() == "APP_NOT_ELIGIBLE_SEARCHADS"@);
                match b {
                    CampaignServingStateReason::NO_PAYMENT_METHOD_ON_FILE => {
                        assert(b.wire() == "NO_PAYMENT_METHOD_ON_FILE"@);
                        assert("APP_NOT_ELIGIBLE_SEARCHADS"@.len() != "NO_PAYMENT_METHOD_ON_FILE"@.len());
                    },
                    CampaignServingStateReason::MISSING_BO_OR_INVOICING_FIELDS => {
                        assert(b.wire() == "MISSING_BO_OR_INVOICING_FIELDS"@);
                        assert("APP_NOT_ELIGIBLE_SEARCHADS"@.len() != "MISSING_BO_OR_INVOICING_FIELDS"@.len());
                    },
                    CampaignServingStateReason::PAUSED_BY_USER => {
                        assert(b.wire() == "PAUSED_BY_USER"@);
                        assert("APP_NOT_ELIGIBLE_SEARCHADS"@.len() != "PAUSED_BY_USER"@.len());
                    },
                    CampaignServingStateReason::DELETED_BY_USER => {
                        assert(b.wire() == "DELETED_BY_USER"@);
                        assert("APP_NOT_ELIGIBLE_SEARCHADS"@.len() != "DELETED_BY_USER"@.len());
                    },
                    CampaignServingStateReason::CAMPAIGN_END_DATE_REACHED => {
                        assert(b.wire() == "CAMPAIGN_END_DATE_REACHED"@);
                        assert("APP_NOT_ELIGIBLE_SEARCHADS"@.len() != "CAMPAIGN_END_DATE_REACHED"@.len());
                    },
                    CampaignServingStateReason::CAMPAIGN_START_DATE_IN_FUTURE => {
                        assert(b.wire() == "CAMPAIGN_START_DATE_IN_FUTURE"@);
                        assert("APP_NOT_ELIGIBLE_SEARCHADS"@.len() != "CAMPAIGN_START_DATE_IN_FUTURE"@.len());
                    },
                    CampaignServingStateReason::DAILY_CAP_EXHAUSTED => {
                        assert(b.wire() == "DAILY_CAP_EXHAUSTED"@);
                        assert("APP_NOT_ELIGIBLE_SEARCHADS"@.len() != "DAILY_CAP_EXHAUSTED"@.len());
                    },
                    CampaignServingStateReason::TOTAL_BUDGET_EXHAUSTED => {
                        assert(b.wire() == "TOTAL_BUDGET_EXHAUSTED"@);
                        assert("APP_NOT_ELIGIBLE_SEARCHADS"@.len() != "TOTAL_BUDGET_EXHAUSTED"@.len());
                    },
                    CampaignServingStateReason::CREDIT_CARD_DECLINED => {
                        assert(b.wire() == "CREDIT_CARD_DECLINED"@);
                        assert("APP_NOT_ELIGIBLE_SEARCHADS"@.len() != "CREDIT_CARD_DECLINED"@.len());
                    },
                    CampaignServingStateReason::APP_NOT_ELIGIBLE => {
                        assert(b.wire() == "APP_NOT_ELIGIBLE"@);
                        assert("APP_NOT_ELIGIBLE_SEARCHADS"@.len() != "APP_NOT_ELIGIBLE"@.len());
                    },
                    CampaignServingStateReason::APP_NOT_ELIGIBLE_SEARCHADS => {
                        assert(b.wire() == "APP_NOT_ELIGIBLE_SEARCHADS"@);
                    },
                    CampaignServingStateReason::APP_NOT_PUBLISHED_YET => {
                        assert(b.wire() == "APP_NOT_PUBLISHED_YET"@);
                        assert("APP_NOT_ELIGIBLE_SEARCHADS"@.len() != "APP_NOT_PUBLISHED_YET"@.len());
                    },
                    CampaignServingStateReason::BO_START_DATE_IN_FUTURE => {
                        assert(b.wire() == "BO_START_DATE_IN_FUTURE"@);
                        assert("APP_NOT_ELIGIBLE_SEARCHADS"@.len() != "BO_START_DATE_IN_FUTURE"@.len());
                    },
                    CampaignServingStateReason::BO_END_DATE_REACHED => {
                        assert(b.wire() == "BO_END_DATE_REACHED"@);
                        assert("APP_NOT_ELIGIBLE_SEARCHADS"@.len() != "BO_END_DATE_REACHED"@.len());
                    },
                    CampaignServingStateReason::BO_EXHAUSTED => {
                        assert(b.wire() == "BO_EXHAUSTED"@);
                        assert("APP_NOT_ELIGIBLE_SEARCHADS"@.len() != "BO_EXHAUSTED"@.len());
                    },
                    CampaignServingStateReason::ORG_PAYMENT_TYPE_CHANGED => {
                        assert(b.wire() == "ORG_PAYMENT_TYPE_CHANGED"@);
                        assert("APP_NOT_ELIGIBLE_SEARCHADS"@.len() != "ORG_PAYMENT_TYPE_CHANGED"@.len());
                    },
                    CampaignServingStateReason::ORG_SUSPENDED_POLICY_VIOLATION => {
                        assert(b.wire() == "ORG_SUSPENDED_POLICY_VIOLATION"@);
                        assert("APP_NOT_ELIGIBLE_SEARCHADS"@.len() != "ORG_SUSPENDED_POLICY_VIOLATION"@.len());
                    },
                    CampaignServingStateReason::ORG_SUSPENDED_FRAUD => {
                        assert(b.wire() == "ORG_SUSPENDED_FRAUD"@);
                        assert("APP_NOT_ELIGIBLE_SEARCHADS"@.len() != "ORG_SUSPENDED_FRAUD"@.len());
                    },
                    CampaignServingStateReason::ORG_CHARGE_BACK_DISPUTED => {
                        assert(b.wire() == "ORG_CHARGE_BACK_DISPUTED"@);
                        assert("APP_NOT_ELIGIBLE_SEARCHADS"@.len() != "ORG_CHARGE_BACK_DISPUTED"@.len());
                    },
                    CampaignServingStateReason::PAUSED_BY_SYSTEM => {
                        assert(b.wire() == "PAUSED_BY_SYSTEM"@);
                        assert("APP_NOT_ELIGIBLE_SEARCHADS"@.len() != "PAUSED_BY_SYSTEM"@.len());
                    },
                    CampaignServingStateReason::LOC_EXHAUSTED => {
                        assert(b.wire() == "LOC_EXHAUSTED"@);
                        assert("APP_NOT_ELIGIBLE_SEARCHADS"@.len() != "LOC_EXHAUSTED"@.len());
                    },
                    CampaignServingStateReason::TAX_VERIFICATION_PENDING => {
                        assert(b.wire() == "TAX_VERIFICATION_PENDING"@);
                        assert("APP_NOT_ELIGIBLE_SEARCHADS"@.len() != "TAX_VERIFICATION_PENDING"@.len());
                    },
                    CampaignServingStateReason::SAPIN_LAW_AGENT_UNKNOWN => {
                        assert(b.wire() == "SAPIN_LAW_AGENT_UNKNOWN"@);
                        assert("APP_NOT_ELIGIBLE_SEARCHADS"@.len() != "SAPIN_LAW_AGENT_UNKNOWN"@.len());
                    },
                    CampaignServingStateReason::SAPIN_LAW_FRENCH_BIZ_UNKNOWN => {
                        assert(b.wire() == "SAPIN_LAW_FRENCH_BIZ_UNKNOWN"@);
                        assert("APP_NOT_ELIGIBLE_SEARCHADS"@.len() != "SAPIN_LAW_FRENCH_BIZ_UNKNOWN"@.len());
                    },
                    CampaignServingStateReason::SAPIN_LAW_FRENCH_BIZ => {
                        assert(b.wire() == "SAPIN_LAW_FRENCH_BIZ"@);
                        assert("APP_NOT_ELIGIBLE_SEARCHADS"@.len() != "SAPIN_LAW_FRENCH_BIZ"@.len());
                    },
                    CampaignServingStateReason::NO_ELIGIBLE_COUNTRIES => {
                        assert(b.wire() == "NO_ELIGIBLE_COUNTRIES"@);
                        assert("APP_NOT_ELIGIBLE_SEARCHADS"@.len() != "NO_ELIGIBLE_COUNTRIES"@.len());
                    },
                    CampaignServingStateReason::AD_GROUP_MISSING => {
                        assert(b.wire() == "AD_GROUP_MISSING"@);
                        assert("APP_NOT_ELIGIBLE_SEARCHADS"@.len() != "AD_GROUP_MISSING"@.len());
                    },
                }
            },
            CampaignServingStateReason::APP_NOT_PUBLISHED_YET => {
                assert(a.wire() == "APP_NOT_PUBLISHED_YET"@);
                match b {
                    CampaignServingStateReason::NO_PAYMENT_METHOD_ON_FILE => {
                        assert(b.wire() == "NO_PAYMENT_METHOD_ON_FILE"@);
                        assert("APP_NOT_PUBLISHED_YET"@.len() != "NO_PAYMENT_METHOD_ON_FILE"@.len());
                    },
                    CampaignServingStateReason::MISSING_BO_OR_INVOICING_FIELDS => {
                        assert(b.wire() == "MISSING_BO_OR_INVOICING_FIELDS"@);
                        assert("APP_NOT_PUBLISHED_YET"@.len() != "MISSING_BO_OR_INVOICING_FIELDS"@.len());
                    },
                    CampaignServingStateReason::PAUSED_BY_USER => {
                        assert(b.wire() == "PAUSED_BY_USER"@);
                        assert("APP_NOT_PUBLISHED_YET"@.len() != "PAUSED_BY_USER"@.len());
                    },
                    CampaignServingStateReason::DELETED_BY_USER => {
                        assert(b.wire() == "DELETED_BY_USER"@);
                        assert("APP_NOT_PUBLISHED_YET"@.len() != "DELETED_BY_USER"@.len());
                    },
                    CampaignServingStateReason::CAMPAIGN_END_DATE_REACHED => {
                        assert(b.wire() == "CAMPAIGN_END_DATE_REACHED"@);
                        assert("APP_NOT_PUBLISHED_YET"@.len() != "CAMPAIGN_END_DATE_REACHED"@.len());
                    },
                    CampaignServingStateReason::CAMPAIGN_START_DATE_IN_FUTURE => {
                        assert(b.wire() == "CAMPAIGN_START_DATE_IN_FUTURE"@);
                        assert("APP_NOT_PUBLISHED_YET"@.len() != "CAMPAIGN_START_DATE_IN_FUTURE"@.len());
                    },
                    CampaignServingStateReason::DAILY_CAP_EXHAUSTED => {
                        assert(b.wire() == "DAILY_CAP_EXHAUSTED"@);
                        assert("APP_NOT_PUBLISHED_YET"@.len() != "DAILY_CAP_EXHAUSTED"@.len());
                    },
                    CampaignServingStateReason::TOTAL_BUDGET_EXHAUSTED => {
                        assert(b.wire() == "TOTAL_BUDGET_EXHAUSTED"@);
                        assert("APP_NOT_PUBLISHED_YET"@.len() != "TOTAL_BUDGET_EXHAUSTED"@.len());
                    },
                    CampaignServingStateReason::CREDIT_CARD_DECLINED => {
                        assert(b.wire() == "CREDIT_CARD_DECLINED"@);
                        assert("APP_NOT_PUBLISHED_YET"@.len() != "CREDIT_CARD_DECLINED"@.len());
                    },
                    CampaignServingStateReason::APP_NOT_ELIGIBLE => {
                        assert(b.wire() == "APP_NOT_ELIGIBLE"@);
                        assert("APP_NOT_PUBLISHED_YET"@.len() != "APP_NOT_ELIGIBLE"@.len());
                    },
                    CampaignServingStateReason::APP_NOT_ELIGIBLE_SEARCHADS => {
                        assert(b.wire() == "APP_NOT_ELIGIBLE_SEARCHADS"@);
                        assert("APP_NOT_PUBLISHED_YET"@.len() != "APP_NOT_ELIGIBLE_SEARCHADS"@.len());
                    },
                    CampaignServingStateReason::APP_NOT_PUBLISHED_YET => {
                        assert(b.wire() == "APP_NOT_PUBLISHED_YET"@);
                    },
                    CampaignServingStateReason::BO_START_DATE_IN_FUTURE => {
                        assert(b.wire() == "BO_START_DATE_IN_FUTURE"@);
                        assert("APP_NOT_PUBLISHED_YET"@.len() != "BO_START_DATE_IN_FUTURE"@.len());
                    },
                    CampaignServingStateReason::BO_END_DATE_REACHED => {
                        assert(b.wire() == "BO_END_DATE_REACHED"@);
                        assert("APP_NOT_PUBLISHED_YET"@.len() != "BO_END_DATE_REACHED"@.len());
                    },
                    CampaignServingStateReason::BO_EXHAUSTED => {
                        assert(b.wire() == "BO_EXHAUSTED"@);
                        assert("APP_NOT_PUBLISHED_YET"@.len() != "BO_EXHAUSTED"@.len());
                    },
                    CampaignServingStateReason::ORG_PAYMENT_TYPE_CHANGED => {
                        assert(b.wire() == "ORG_PAYMENT_TYPE_CHANGED"@);
                        assert("APP_NOT_PUBLISHED_YET"@.len() != "ORG_PAYMENT_TYPE_CHANGED"@.len());
                    },
                    CampaignServingStateReason::ORG_SUSPENDED_POLICY_VIOLATION => {
                        assert(b.wire() == "ORG_SUSPENDED_POLICY_VIOLATION"@);
                        assert("APP_NOT_PUBLISHED_YET"@.len() != "ORG_SUSPENDED_POLICY_VIOLATION"@.len());
                    },
                    CampaignServingStateReason::ORG_SUSPENDED_FRAUD => {
                        assert(b.wire() == "ORG_SUSPENDED_FRAUD"@);
                        assert("APP_NOT_PUBLISHED_YET"@.len() != "ORG_SUSPENDED_FRAUD"@.len());
                    },
                    CampaignServingStateReason::ORG_CHARGE_BACK_DISPUTED => {
                        assert(b.wire() == "ORG_CHARGE_BACK_DISPUTED"@);
                        assert("APP_NOT_PUBLISHED_YET"@.len() != "ORG_CHARGE_BACK_DISPUTED"@.len());
                    },
                    CampaignServingStateReason::PAUSED_BY_SYSTEM => {
                        assert(b.wire() == "PAUSED_BY_SYSTEM"@);
                        assert("APP_NOT_PUBLISHED_YET"@.len() != "PAUSED_BY_SYSTEM"@.len());
                    },
                    CampaignServingStateReason::LOC_EXHAUSTED => {
                        assert(b.wire() == "LOC_EXHAUSTED"@);
                        assert("APP_NOT_PUBLISHED_YET"@.len() != "LOC_EXHAUSTED"@.len());
                    },
                    CampaignServingStateReason::TAX_VERIFICATION_PENDING => {
                        assert(b.wire() == "TAX_VERIFICATION_PENDING"@);
                        assert("APP_NOT_PUBLISHED_YET"@.len() != "TAX_VERIFICATION_PENDING"@.len());
                    },
                    CampaignServingStateReason::SAPIN_LAW_AGENT_UNKNOWN => {
                        assert(b.wire() == "SAPIN_LAW_AGENT_UNKNOWN"@);
                        assert("APP_NOT_PUBLISHED_YET"@.len() != "SAPIN_LAW_AGENT_UNKNOWN"@.len());
                    },
                    CampaignServingStateReason::SAPIN_LAW_FRENCH_BIZ_UNKNOWN => {
                        assert(b.wire() == "SAPIN_LAW_FRENCH_BIZ_UNKNOWN"@);
                        assert("APP_NOT_PUBLISHED_YET"@.len() != "SAPIN_LAW_FRENCH_BIZ_UNKNOWN"@.len());
                    },
                    CampaignServingStateReason::SAPIN_LAW_FRENCH_BIZ => {
                        assert(b.wire() == "SAPIN_LAW_FRENCH_BIZ"@);
                        assert("APP_NOT_PUBLISHED_YET"@.len() != "SAPIN_LAW_FRENCH_BIZ"@.len());
                    },
                    CampaignServingStateReason::NO_ELIGIBLE_COUNTRIES => {
                        assert(b.wire() == "NO_ELIGIBLE_COUNTRIES"@);
                        assert("APP_NOT_PUBLISHED_YET"@[0] != "NO_ELIGIBLE_COUNTRIES"@[0]);
                    },
                    CampaignServingStateReason::AD_GROUP_MISSING => {
                        assert(b.wire() == "AD_GROUP_MISSING"@);
                        assert("APP_NOT_PUBLISHED_YET"@.len() != "AD_GROUP_MISSING"@.len());
                    },
                }
            },
            CampaignServingStateReason::BO_START_DATE_IN_FUTURE => {
                assert(a.wire() == "BO_START_DATE_IN_FUTURE"@);
                match b {
                    CampaignServingStateReason::NO_PAYMENT_METHOD_ON_FILE => {
                        assert(b.wire() == "NO_PAYMENT_METHOD_ON_FILE"@);
                        assert("BO_START_DATE_IN_FUTURE"@.len() != "NO_PAYMENT_METHOD_ON_FILE"@.len());
                    },
                    CampaignServingStateReason::MISSING_BO_OR_INVOICING_FIELDS => {
                        assert(b.wire() == "MISSING_BO_OR_INVOICING_FIELDS"@);
                        assert("BO_START_DATE_IN_FUTURE"@.len() != "MISSING_BO_OR_INVOICING_FIELDS"@.len());
                    },
                    CampaignServingStateReason::PAUSED_BY_USER => {
                        assert(b.wire() == "PAUSED_BY_USER"@);
                        assert("BO_START_DATE_IN_FUTURE"@.len() != "PAUSED_BY_USER"@.len());
                    },
                    CampaignServingStateReason::DELETED_BY_USER => {
                        assert(b.wire() == "DELETED_BY_USER"@);
                        assert("BO_START_DATE_IN_FUTURE"@.len() != "DELETED_BY_USER"@.len());
                    },
                    CampaignServingStateReason::CAMPAIGN_END_DATE_REACHED => {
                        assert(b.wire() == "CAMPAIGN_END_DATE_REACHED"@);
                        assert("BO_START_DATE_IN_FUTURE"@.len() != "CAMPAIGN_END_DATE_REACHED"@.len());
                    },
                    CampaignServingStateReason::CAMPAIGN_START_DATE_IN_FUTURE => {
                        assert(b.wire() == "CAMPAIGN_START_DATE_IN_FUTURE"@);
                        assert("BO_START_DATE_IN_FUTURE"@.len() != "CAMPAIGN_START_DATE_IN_FUTURE"@.len());
                    },
                    CampaignServingStateReason::DAILY_CAP_EXHAUSTED => {
                        assert(b.wire() == "DAILY_CAP_EXHAUSTED"@);
                        assert("BO_START_DATE_IN_FUTURE"@.len() != "DAILY_CAP_EXHAUSTED"@.len());
                    },
                    CampaignServingStateReason::TOTAL_BUDGET_EXHAUSTED => {
                        assert(b.wire() == "TOTAL_BUDGET_EXHAUSTED"@);
                        assert("BO_START_DATE_IN_FUTURE"@.len() != "TOTAL_BUDGET_EXHAUSTED"@.len());
                    },
                    CampaignServingStateReason::CREDIT_CARD_DECLINED => {
                        assert(b.wire() == "CREDIT_CARD_DECLINED"@);
                        assert("BO_START_DATE_IN_FUTURE"@.len() != "CREDIT_CARD_DECLINED"@.len());
                    },
                    CampaignServingStateReason::APP_NOT_ELIGIBLE => {
                        assert(b.wire() == "APP_NOT_ELIGIBLE"@);
                        assert("BO_START_DATE_IN_FUTURE"@.len() != "APP_NOT_ELIGIBLE"@.len());
                    },
                    CampaignServingStateReason::APP_NOT_ELIGIBLE_SEARCHADS => {
                        assert(b.wire() == "APP_NOT_ELIGIBLE_SEARCHADS"@);
                        assert("BO_START_DATE_IN_FUTURE"@.len() != "APP_NOT_ELIGIBLE_SEARCHADS"@.len());
                    },
                    CampaignServingStateReason::APP_NOT_PUBLISHED_YET => {
                        assert(b.wire() == "APP_NOT_PUBLISHED_YET"@);
                        assert("BO_START_DATE_IN_FUTURE"@.len() != "APP_NOT_PUBLISHED_YET"@.len());
                    },
                    CampaignServingStateReason::BO_START_DATE_IN_FUTURE => {
                        assert(b.wire() == "BO_START_DATE_IN_FUTURE"@);
                    },
                    CampaignServingStateReason::BO_END_DATE_REACHED => {
                        assert(b.wire() == "BO_END_DATE_REACHED"@);
                        assert("BO_START_DATE_IN_FUTURE"@.len() != "BO_END_DATE_REACHED"@.len());
                    },
                    CampaignServingStateReason::BO_EXHAUSTED => {
                        assert(b.wire() == "BO_EXHAUSTED"@);
                        assert("BO_START_DATE_IN_FUTURE"@.len() != "BO_EXHAUSTED"@.len());
                    },
                    CampaignServingStateReason::ORG_PAYMENT_TYPE_CHANGED => {
                        assert(b.wire() == "ORG_PAYMENT_TYPE_CHANGED"@);
                        assert("BO_START_DATE_IN_FUTURE"@.len() != "ORG_PAYMENT_TYPE_CHANGED"@.len());
                    },
                    CampaignServingStateReason::ORG_SUSPENDED_POLICY_VIOLATION => {
                        assert(b.wire() == "ORG_SUSPENDED_POLICY_VIOLATION"@);
                        assert("BO_START_DATE_IN_FUTURE"@.len() != "ORG_SUSPENDED_POLICY_VIOLATION"@.len());
                    },
                    CampaignServingStateReason::ORG_SUSPENDED_FRAUD => {
                        assert(b.wire() == "ORG_SUSPENDED_FRAUD"@);
                        assert("BO_START_DATE_IN_FUTURE"@.len() != "ORG_SUSPENDED_FRAUD"@.len());
                    },
                    CampaignServingStateReason::ORG_CHARGE_BACK_DISPUTED => {
                        assert(b.wire() == "ORG_CHARGE_BACK_DISPUTED"@);
                        assert("BO_START_DATE_IN_FUTURE"@.len() != "ORG_CHARGE_BACK_DISPUTED"@.len());
                    },
                    CampaignServingStateReason::PAUSED_BY_SYSTEM => {
                        assert(b.wire() == "PAUSED_BY_SYSTEM"@);
                        assert("BO_START_DATE_IN_FUTURE"@.len() != "PAUSED_BY_SYSTEM"@.len());
                    },
                    CampaignServingStateReason::LOC_EXHAUSTED => {
                        assert(b.wire() == "LOC_EXHAUSTED"@);
                        assert("BO_START_DATE_IN_FUTURE"@.len() != "LOC_EXHAUSTED"@.len());
                    },
                    CampaignServingStateReason::TAX_VERIFICATION_PENDING => {
                        assert(b.wire() == "TAX_VERIFICATION_PENDING"@);
                        assert("BO_START_DATE_IN_FUTURE"@.len() != "TAX_VERIFICATION_PENDING"@.len());
                    },
                    CampaignServingStateReason::SAPIN_LAW_AGENT_UNKNOWN => {
                        assert(b.wire() == "SAPIN_LAW_AGENT_UNKNOWN"@);
                        assert("BO_START_DATE_IN_FUTURE"@[0] != "SAPIN_LAW_AGENT_UNKNOWN"@[0]);
                    },
                    CampaignServingStateReason::SAPIN_LAW_FRENCH_BIZ_UNKNOWN => {
                        assert(b.wire() == "SAPIN_LAW_FRENCH_BIZ_UNKNOWN"@);
                        assert("BO_START_DATE_IN_FUTURE"@.len() != "SAPIN_LAW_FRENCH_BIZ_UNKNOWN"@.len());
                    },
                    CampaignServingStateReason::SAPIN_LAW_FRENCH_BIZ => {
                        assert(b.wire() == "SAPIN_LAW_FRENCH_BIZ"@);
                        assert("BO_START_DATE_IN_FUTURE"@.len() != "SAPIN_LAW_FRENCH_BIZ"@.len());
                    },
                    CampaignServingStateReason::NO_ELIGIBLE_COUNTRIES => {
                        assert(b.wire() == "NO_ELIGIBLE_COUNTRIES"@);
                        assert("BO_START_DATE_IN_FUTURE"@.len() != "NO_ELIGIBLE_COUNTRIES"@.len());
                    },
                    CampaignServingStateReason::AD_GROUP_MISSING => {
                        assert(b.wire() == "AD_GROUP_MISSING"@);
                        assert("BO_START_DATE_IN_FUTURE"@.len() != "AD_GROUP_MISSING"@.len());
                    },
                }
            },
            CampaignServingStateReason::BO_END_DATE_REACHED => {
                assert(a.wire() == "BO_END_DATE_REACHED"@);
                match b {
                    CampaignServingStateReason::NO_PAYMENT_METHOD_ON_FILE => {
                        assert(b.wire() == "NO_PAYMENT_METHOD_ON_FILE"@);
                        assert("BO_END_DATE_REACHED"@.len() != "NO_PAYMENT_METHOD_ON_FILE"@.len());
                    },
                    CampaignServingStateReason::MISSING_BO_OR_INVOICING_FIELDS => {
                        assert(b.wire() == "MISSING_BO_OR_INVOICING_FIELDS"@);
                        assert("BO_END_DATE_REACHED"@.len() != "MISSING_BO_OR_INVOICING_FIELDS"@.len());
                    },
                    CampaignServingStateReason::PAUSED_BY_USER => {
                        assert(b.wire() == "PAUSED_BY_USER"@);
                        assert("BO_END_DATE_REACHED"@.len() != "PAUSED_BY_USER"@.len());
                    },
                    CampaignServingStateReason::DELETED_BY_USER => {
                        assert(b.wire() == "DELETED_BY_USER"@);
                        assert("BO_END_DATE_REACHED"@.len() != "DELETED_BY_USER"@.len());
                    },
                    CampaignServingStateReason::CAMPAIGN_END_DATE_REACHED => {
                        assert(b.wire() == "CAMPAIGN_END_DATE_REACHED"@);
                        assert("BO_END_DATE_REACHED"@.len() != "CAMPAIGN_END_DATE_REACHED"@.len());
                    },
                    CampaignServingStateReason::CAMPAIGN_START_DATE_IN_FUTURE => {
                        assert(b.wire() == "CAMPAIGN_START_DATE_IN_FUTURE"@);
                        assert("BO_END_DATE_REACHED"@.len() != "CAMPAIGN_START_DATE_IN_FUTURE"@.len());
                    },
                    CampaignServingStateReason::DAILY_CAP_EXHAUSTED => {
                        assert(b.wire() == "DAILY_CAP_EXHAUSTED"@);
                        assert("BO_END_DATE_REACHED"@[0] != "DAILY_CAP_EXHAUSTED"@[0]);
                    },
                    CampaignServingStateReason::TOTAL_BUDGET_EXHAUSTED => {
                        assert(b.wire() == "TOTAL_BUDGET_EXHAUSTED"@);
                        assert("BO_END_DATE_REACHED"@.len() != "TOTAL_BUDGET_EXHAUSTED"@.len());
                    },
                    CampaignServingStateReason::CREDIT_CARD_DECLINED => {
                        assert(b.wire() == "CREDIT_CARD_DECLINED"@);
                        assert("BO_END_DATE_REACHED"@.len() != "CREDIT_CARD_DECLINED"@.len());
                    },
                    CampaignServingStateReason::APP_NOT_ELIGIBLE => {
                        assert(b.wire() == "APP_NOT_ELIGIBLE"@);
                        assert("BO_END_DATE_REACHED"@.len() != "APP_NOT_ELIGIBLE"@.len());
                    },
                    CampaignServingStateReason::APP_NOT_ELIGIBLE_SEARCHADS => {
                        assert(b.wire() == "APP_NOT_ELIGIBLE_SEARCHADS"@);
                        assert("BO_END_DATE_REACHED"@.len() != "APP_NOT_ELIGIBLE_SEARCHADS"@.len());
                    },
                    CampaignServingStateReason::APP_NOT_PUBLISHED_YET => {
                        assert(b.wire() == "APP_NOT_PUBLISHED_YET"@);
                        assert("BO_END_DATE_REACHED"@.len() != "APP_NOT_PUBLISHED_YET"@.len());
                    },
                    CampaignServingStateReason::BO_START_DATE_IN_FUTURE => {
                        assert(b.wire() == "BO_START_DATE_IN_FUTURE"@);
                        assert("BO_END_DATE_REACHED"@.len() != "BO_START_DATE_IN_FUTURE"@.len());
                    },
                    CampaignServingStateReason::BO_END_DATE_REACHED => {
                        assert(b.wire() == "BO_END_DATE_REACHED"@);
                    },
                    CampaignServingStateReason::BO_EXHAUSTED => {
                        assert(b.wire() == "BO_EXHAUSTED"@);
                        assert("BO_END_DATE_REACHED"@.len() != "BO_EXHAUSTED"@.len());
                    },
                    CampaignServingStateReason::ORG_PAYMENT_TYPE_CHANGED => {
                        assert(b.wire() == "ORG_PAYMENT_TYPE_CHANGED"@);
                        assert("BO_END_DATE_REACHED"@.len() != "ORG_PAYMENT_TYPE_CHANGED"@.len());
                    },
                    CampaignServingStateReason::ORG_SUSPENDED_POLICY_VIOLATION => {
                        assert(b.wire() == "ORG_SUSPENDED_POLICY_VIOLATION"@);
                        assert("BO_END_DATE_REACHED"@.len() != "ORG_SUSPENDED_POLICY_VIOLATION"@.len());
                    },
                    CampaignServingStateReason::ORG_SUSPENDED_FRAUD => {
                        assert(b.wire() == "ORG_SUSPENDED_FRAUD"@);
                        assert("BO_END_DATE_REACHED"@[0] != "ORG_SUSPENDED_FRAUD"@[0]);
                    },
                    CampaignServingStateReason::ORG_CHARGE_BACK_DISPUTED => {
                        assert(b.wire() == "ORG_CHARGE_BACK_DISPUTED"@);
                        assert("BO_END_DATE_REACHED"@.len() != "ORG_CHARGE_BACK_DISPUTED"@.len());
                    },
                    CampaignServingStateReason::PAUSED_BY_SYSTEM => {
                        assert(b.wire() == "PAUSED_BY_SYSTEM"@);
                        assert("BO_END_DATE_REACHED"@.len() != "PAUSED_BY_SYSTEM"@.len());
                    },
                    CampaignServingStateReason::LOC_EXHAUSTED => {
                        assert(b.wire() == "LOC_EXHAUSTED"@);
                        assert("BO_END_DATE_REACHED"@.len() != "LOC_EXHAUSTED"@.len());
                    },
                    CampaignServingStateReason::TAX_VERIFICATION_PENDING => {
                        assert(b.wire() == "TAX_VERIFICATION_PENDING"@);
                        assert("BO_END_DATE_REACHED"@.len() != "TAX_VERIFICATION_PENDING"@.len());
                    },
                    CampaignServingStateReason::SAPIN_LAW_AGENT_UNKNOWN => {
                        assert(b.wire() == "SAPIN_LAW_AGENT_UNKNOWN"@);
                        assert("BO_END_DATE_REACHED"@.len() != "SAPIN_LAW_AGENT_UNKNOWN"@.len());
                    },
                    CampaignServingStateReason::SAPIN_LAW_FRENCH_BIZ_UNKNOWN => {
                        assert(b.wire() == "SAPIN_LAW_FRENCH_BIZ_UNKNOWN"@);
                        assert("BO_END_DATE_REACHED"@.len() != "SAPIN_LAW_FRENCH_BIZ_UNKNOWN"@.len());
                    },
                    CampaignServingStateReason::SAPIN_LAW_FRENCH_BIZ => {
                        assert(b.wire() == "SAPIN_LAW_FRENCH_BIZ"@);
                        assert("BO_END_DATE_REACHED"@.len() != "SAPIN_LAW_FRENCH_BIZ"@.len());
                    },
                    CampaignServingStateReason::NO_ELIGIBLE_COUNTRIES => {
                        assert(b.wire() == "NO_ELIGIBLE_COUNTRIES"@);
                        assert("BO_END_DATE_REACHED"@.len() != "NO_ELIGIBLE_COUNTRIES"@.len());
                    },
                    CampaignServingStateReason::AD_GROUP_MISSING => {
                        assert(b.wire() == "AD_GROUP_MISSING"@);
                        assert("BO_END_DATE_REACHED"@.len() != "AD_GROUP_MISSING"@.len());
                    },
                }
            },
            CampaignServingStateReason::BO_EXHAUSTED => {
                assert(a.wire() == "BO_EXHAUSTED"@);
                match b {
                    CampaignServingStateReason::NO_PAYMENT_METHOD_ON_FILE => {
                        assert(b.wire() == "NO_PAYMENT_METHOD_ON_FILE"@);
                        assert("BO_EXHAUSTED"@.len() != "NO_PAYMENT_METHOD_ON_FILE"@.len());
                    },
                    CampaignServingStateReason::MISSING_BO_OR_INVOICING_FIELDS => {
                        assert(b.wire() == "MISSING_BO_OR_INVOICING_FIELDS"@);
                        assert("BO_EXHAUSTED"@.len() != "MISSING_BO_OR_INVOICING_FIELDS"@.len());
                    },
                    CampaignServingStateReason::PAUSED_BY_USER => {
                        assert(b.wire() == "PAUSED_BY_USER"@);
                        assert("BO_EXHAUSTED"@.len() != "PAUSED_BY_USER"@.len());
                    },
                    CampaignServingStateReason::DELETED_BY_USER => {
                        assert(b.wire() == "DELETED_BY_USER"@);
                        assert("BO_EXHAUSTED"@.len() != "DELETED_BY_USER"@.len());
                    },
                    CampaignServingStateReason::CAMPAIGN_END_DATE_REACHED => {
                        assert(b.wire() == "CAMPAIGN_END_DATE_REACHED"@);
                        assert("BO_EXHAUSTED"@.len() != "CAMPAIGN_END_DATE_REACHED"@.len());
                    },
                    CampaignServingStateReason::CAMPAIGN_START_DATE_IN_FUTURE => {
                        assert(b.wire() == "CAMPAIGN_START_DATE_IN_FUTURE"@);
                        assert("BO_EXHAUSTED"@.len() != "CAMPAIGN_START_DATE_IN_FUTURE"@.len());
                    },
                    CampaignServingStateReason::DAILY_CAP_EXHAUSTED => {
                        assert(b.wire() == "DAILY_CAP_EXHAUSTED"@);
                        assert("BO_EXHAUSTED"@.len() != "DAILY_CAP_EXHAUSTED"@.len());
                    },
                    CampaignServingStateReason::TOTAL_BUDGET_EXHAUSTED => {
                        assert(b.wire() == "TOTAL_BUDGET_EXHAUSTED"@);
                        assert("BO_EXHAUSTED"@.len() != "TOTAL_BUDGET_EXHAUSTED"@.len());
                    },
                    CampaignServingStateReason::CREDIT_CARD_DECLINED => {
                        assert(b.wire() == "CREDIT_CARD_DECLINED"@);
                        assert("BO_EXHAUSTED"@.len() != "CREDIT_CARD_DECLINED"@.len());
                    },
                    CampaignServingStateReason::APP_NOT_ELIGIBLE => {
                        assert(b.wire() == "APP_NOT_ELIGIBLE"@);
                        assert("BO_EXHAUSTED"@.len() != "APP_NOT_ELIGIBLE"@.len());
                    },
                    CampaignServingStateReason::APP_NOT_ELIGIBLE_SEARCHADS => {
                        assert(b.wire() == "APP_NOT_ELIGIBLE_SEARCHADS"@);
                        assert("BO_EXHAUSTED"@.len() != "APP_NOT_ELIGIBLE_SEARCHADS"@.len());
                    },
                    CampaignServingStateReason::APP_NOT_PUBLISHED_YET => {
                        assert(b.wire() == "APP_NOT_PUBLISHED_YET"@);
                        assert("BO_EXHAUSTED"@.len() != "APP_NOT_PUBLISHED_YET"@.len());
                    },
                    CampaignServingStateReason::BO_START_DATE_IN_FUTURE => {
                        assert(b.wire() == "BO_START_DATE_IN_FUTURE"@);
                        assert("BO_EXHAUSTED"@.len() != "BO_START_DATE_IN_FUTURE"@.len());
                    },
                    CampaignServingStateReason::BO_END_DATE_REACHED => {
                        assert(b.wire() == "BO_END_DATE_REACHED"@);
                        assert("BO_EXHAUSTED"@.len() != "BO_END_DATE_REACHED"@.len());
                    },
                    CampaignServingStateReason::BO_EXHAUSTED => {
                        assert(b.wire() == "BO_EXHAUSTED"@);
                    },
                    CampaignServingStateReason::ORG_PAYMENT_TYPE_CHANGED => {
                        assert(b.wire() == "ORG_PAYMENT_TYPE_CHANGED"@);
                        assert("BO_EXHAUSTED"@.len() != "ORG_PAYMENT_TYPE_CHANGED"@.len());
                    },
                    CampaignServingStateReason::ORG_SUSPENDED_POLICY_VIOLATION => {
                        assert(b.wire() == "ORG_SUSPENDED_POLICY_VIOLATION"@);
                        assert("BO_EXHAUSTED"@.len() != "ORG_SUSPENDED_POLICY_VIOLATION"@.len());
                    },
                    CampaignServingStateReason::ORG_SUSPENDED_FRAUD => {
                        assert(b.wire() == "ORG_SUSPENDED_FRAUD"@);
                        assert("BO_EXHAUSTED"@.len() != "ORG_SUSPENDED_FRAUD"@.len());
                    },
                    CampaignServingStateReason::ORG_CHARGE_BACK_DISPUTED => {
                        assert(b.wire() == "ORG_CHARGE_BACK_DISPUTED"@);
                        assert("BO_EXHAUSTED"@.len() != "ORG_CHARGE_BACK_DISPUTED"@.len());
                    },
                    CampaignServingStateReason::PAUSED_BY_SYSTEM => {
                        assert(b.wire() == "PAUSED_BY_SYSTEM"@);
                        assert("BO_EXHAUSTED"@.len() != "PAUSED_BY_SYSTEM"@.len());
                    },
                    CampaignServingStateReason::LOC_EXHAUSTED => {
                        assert(b.wire() == "LOC_EXHAUSTED"@);
                        assert("BO_EXHAUSTED"@.len() != "LOC_EXHAUSTED"@.len());
                    },
                    CampaignServingStateReason::TAX_VERIFICATION_PENDING => {
                        assert(b.wire() == "TAX_VERIFICATION_PENDING"@);
                        assert("BO_EXHAUSTED"@.len() != "TAX_VERIFICATION_PENDING"@.len());
                    },
                    CampaignServingStateReason::SAPIN_LAW_AGENT_UNKNOWN => {
                        assert(b.wire() == "SAPIN_LAW_AGENT_UNKNOWN"@);
                        assert("BO_EXHAUSTED"@.len() != "SAPIN_LAW_AGENT_UNKNOWN"@.len());
                    },
                    CampaignServingStateReason::SAPIN_LAW_FRENCH_BIZ_UNKNOWN => {
                        assert(b.wire() == "SAPIN_LAW_FRENCH_BIZ_UNKNOWN"@);
                        assert("BO_EXHAUSTED"@.len() != "SAPIN_LAW_FRENCH_BIZ_UNKNOWN"@.len());
                    },
                    CampaignServingStateReason::SAPIN_LAW_FRENCH_BIZ => {
                        assert(b.wire() == "SAPIN_LAW_FRENCH_BIZ"@);
                        assert("BO_EXHAUSTED"@.len() != "SAPIN_LAW_FRENCH_BIZ"@.len());
                    },
                    CampaignServingStateReason::NO_ELIGIBLE_COUNTRIES => {
                        assert(b.wire() == "NO_ELIGIBLE_COUNTRIES"@);
                        assert("BO_EXHAUSTED"@.len() != "NO_ELIGIBLE_COUNTRIES"@.len());
                    },
                    CampaignServingStateReason::AD_GROUP_MISSING => {
                        assert(b.wire() == "AD_GROUP_MISSING"@);
                        assert("BO_EXHAUSTED"@.len() != "AD_GROUP_MISSING"@.len());
                    },
                }
            },
            CampaignServingStateReason::ORG_PAYMENT_TYPE_CHANGED => {
                assert(a.wire() == "ORG_PAYMENT_TYPE_CHANGED"@);
                match b {
                    CampaignServingStateReason::NO_PAYMENT_METHOD_ON_FILE => {
                        assert(b.wire() == "NO_PAYMENT_METHOD_ON_FILE"@);
                        assert("ORG_PAYMENT_TYPE_CHANGED"@.len() != "NO_PAYMENT_METHOD_ON_FILE"@.len());
                    },
                    CampaignServingStateReason::MISSING_BO_OR_INVOICING_FIELDS => {
                        assert(b.wire() == "MISSING_BO_OR_INVOICING_FIELDS"@);
                        assert("ORG_PAYMENT_TYPE_CHANGED"@.len() != "MISSING_BO_OR_INVOICING_FIELDS"@.len());
                    },
                    CampaignServingStateReason::PAUSED_BY_USER => {
                        assert(b.wire() == "PAUSED_BY_USER"@);
                        assert("ORG_PAYMENT_TYPE_CHANGED"@.len() != "PAUSED_BY_USER"@.len());
                    },
                    CampaignServingStateReason::DELETED_BY_USER => {
                        assert(b.wire() == "DELETED_BY_USER"@);
                        assert("ORG_PAYMENT_TYPE_CHANGED"@.len() != "DELETED_BY_USER"@.len());
                    },
                    CampaignServingStateReason::CAMPAIGN_END_DATE_REACHED => {
                        assert(b.wire() == "CAMPAIGN_END_DATE_REACHED"@);
                        assert("ORG_PAYMENT_TYPE_CHANGED"@.len() != "CAMPAIGN_END_DATE_REACHED"@.len());
                    },
                    CampaignServingStateReason::CAMPAIGN_START_DATE_IN_FUTURE => {
                        assert(b.wire() == "CAMPAIGN_START_DATE_IN_FUTURE"@);
                        assert("ORG_PAYMENT_TYPE_CHANGED"@.len() != "CAMPAIGN_START_DATE_IN_FUTURE"@.len());
                    },
                    CampaignServingStateReason::DAILY_CAP_EXHAUSTED => {
                        assert(b.wire() == "DAILY_CAP_EXHAUSTED"@);
                        assert("ORG_PAYMENT_TYPE_CHANGED"@.len() != "DAILY_CAP_EXHAUSTED"@.len());
                    },
                    CampaignServingStateReason::TOTAL_BUDGET_EXHAUSTED => {
                        assert(b.wire() == "TOTAL_BUDGET_EXHAUSTED"@);
                        assert("ORG_PAYMENT_TYPE_CHANGED"@.len() != "TOTAL_BUDGET_EXHAUSTED"@.len());
                    },
                    CampaignServingStateReason::CREDIT_CARD_DECLINED => {
                        assert(b.wire() == "CREDIT_CARD_DECLINED"@);
                        assert("ORG_PAYMENT_TYPE_CHANGED"@.len() != "CREDIT_CARD_DECLINED"@.len());
                    },
                    CampaignServingStateReason::APP_NOT_ELIGIBLE => {
                        assert(b.wire() == "APP_NOT_ELIGIBLE"@);
                        assert("ORG_PAYMENT_TYPE_CHANGED"@.len() != "APP_NOT_ELIGIBLE"@.len());
                    },
                    CampaignServingStateReason::APP_NOT_ELIGIBLE_SEARCHADS => {
                        assert(b.wire() == "APP_NOT_ELIGIBLE_SEARCHADS"@);
                        assert("ORG_PAYMENT_TYPE_CHANGED"@.len() != "APP_NOT_ELIGIBLE_SEARCHADS"@.len());
                    },
                    CampaignServingStateReason::APP_NOT_PUBLISHED_YET => {
                        assert(b.wire() == "APP_NOT_PUBLISHED_YET"@);
                        assert("ORG_PAYMENT_TYPE_CHANGED"@.len() != "APP_NOT_PUBLISHED_YET"@.len());
                    },
                    CampaignServingStateReason::BO_START_DATE_IN_FUTURE => {
                        assert(b.wire() == "BO_START_DATE_IN_FUTURE"@);
                        assert("ORG_PAYMENT_TYPE_CHANGED"@.len() != "BO_START_DATE_IN_FUTURE"@.len());
                    },
                    CampaignServingStateReason::BO_END_DATE_REACHED => {
                        assert(b.wire() == "BO_END_DATE_REACHED"@);
                        assert("ORG_PAYMENT_TYPE_CHANGED"@.len() != "BO_END_DATE_REACHED"@.len());
                    },
                    CampaignServingStateReason::BO_EXHAUSTED => {
                        assert(b.wire() == "BO_EXHAUSTED"@);
                        assert("ORG_PAYMENT_TYPE_CHANGED"@.len() != "BO_EXHAUSTED"@.len());
                    },
                    CampaignServingStateReason::ORG_PAYMENT_TYPE_CHANGED => {
                        assert(b.wire() == "ORG_PAYMENT_TYPE_CHANGED"@);
                    },
                    CampaignServingStateReason::ORG_SUSPENDED_POLICY_VIOLATION => {
                        assert(b.wire() == "ORG_SUSPENDED_POLICY_VIOLATION"@);
                        assert("ORG_PAYMENT_TYPE_CHANGED"@.len() != "ORG_SUSPENDED_POLICY_VIOLATION"@.len());
                    },
                    CampaignServingStateReason::ORG_SUSPENDED_FRAUD => {
                        assert(b.wire() == "ORG_SUSPENDED_FRAUD"@);
                        assert("ORG_PAYMENT_TYPE_CHANGED"@.len() != "ORG_SUSPENDED_FRAUD"@.len());
                    },
                    CampaignServingStateReason::ORG_CHARGE_BACK_DISPUTED => {
                        assert(b.wire() == "ORG_CHARGE_BACK_DISPUTED"@);
                        assert("ORG_PAYMENT_TYPE_CHANGED"@[4] != "ORG_CHARGE_BACK_DISPUTED"@[4]);
                    },
                    CampaignServingStateReason::PAUSED_BY_SYSTEM => {
                        assert(b.wire() == "PAUSED_BY_SYSTEM"@);
                        assert("ORG_PAYMENT_TYPE_CHANGED"@.len() != "PAUSED_BY_SYSTEM"@.len());
                    },
                    CampaignServingStateReason::LOC_EXHAUSTED => {
                        assert(b.wire() == "LOC_EXHAUSTED"@);
                        assert("ORG_PAYMENT_TYPE_CHANGED"@.len() != "LOC_EXHAUSTED"@.len());
                    },
                    CampaignServingStateReason::TAX_VERIFICATION_PENDING => {
                        assert(b.wire() == "TAX_VERIFICATION_PENDING"@);
                        assert("ORG_PAYMENT_TYPE_CHANGED"@[0] != "TAX_VERIFICATION_PENDING"@[0]);
                    },
                    CampaignServingStateReason::SAPIN_LAW_AGENT_UNKNOWN => {
                        assert(b.wire() == "SAPIN_LAW_AGENT_UNKNOWN"@);
                        assert("ORG_PAYMENT_TYPE_CHANGED"@.len() != "SAPIN_LAW_AGENT_UNKNOWN"@.len());
                    },
                    CampaignServingStateReason::SAPIN_LAW_FRENCH_BIZ_UNKNOWN => {
                        assert(b.wire() == "SAPIN_LAW_FRENCH_BIZ_UNKNOWN"@);
                        assert("ORG_PAYMENT_TYPE_CHANGED"@.len() != "SAPIN_LAW_FRENCH_BIZ_UNKNOWN"@.len());
                    },
                    CampaignServingStateReason::SAPIN_LAW_FRENCH_BIZ => {
                        assert(b.wire() == "SAPIN_LAW_FRENCH_BIZ"@);
                        assert("ORG_PAYMENT_TYPE_CHANGED"@.len() != "SAPIN_LAW_FRENCH_BIZ"@.len());
                    },
                    CampaignServingStateReason::NO_ELIGIBLE_COUNTRIES => {
                        assert(b.wire() == "NO_ELIGIBLE_COUNTRIES"@);
                        assert("ORG_PAYMENT_TYPE_CHANGED"@.len() != "NO_ELIGIBLE_COUNTRIES"@.len());
                    },
                    CampaignServingStateReason::AD_GROUP_MISSING => {
                        assert(b.wire() == "AD_GROUP_MISSING"@);
                        assert("ORG_PAYMENT_TYPE_CHANGED"@.len() != "AD_GROUP_MISSING"@.len());
                    },
                }
            },
            CampaignServingStateReason::ORG_SUSPENDED_POLICY_VIOLATION => {
                assert(a.wire() == "ORG_SUSPENDED_POLICY_VIOLATION"@);
                match b {
                    CampaignServingStateReason::NO_PAYMENT_METHOD_ON_FILE => {
                        assert(b.wire() == "NO_PAYMENT_METHOD_ON_FILE"@);
                        assert("ORG_SUSPENDED_POLICY_VIOLATION"@.len() != "NO_PAYMENT_METHOD_ON_FILE"@.len());
                    },
                    CampaignServingStateReason::MISSING_BO_OR_INVOICING_FIELDS => {
                        assert(b.wire() == "MISSING_BO_OR_INVOICING_FIELDS"@);
                        assert("ORG_SUSPENDED_POLICY_VIOLATION"@[0] != "MISSING_BO_OR_INVOICING_FIELDS"@[0]);
                    },
                    CampaignServingStateReason::PAUSED_BY_USER => {
                        assert(b.wire() == "PAUSED_BY_USER"@);
                        assert("ORG_SUSPENDED_POLICY_VIOLATION"@.len() != "PAUSED_BY_USER"@.len());
                    },
                    CampaignServingStateReason::DELETED_BY_USER => {
                        assert(b.wire() == "DELETED_BY_USER"@);
                        assert("ORG_SUSPENDED_POLICY_VIOLATION"@.len() != "DELETED_BY_USER"@.len());
                    },
                    CampaignServingStateReason::CAMPAIGN_END_DATE_REACHED => {
                        assert(b.wire() == "CAMPAIGN_END_DATE_REACHED"@);
                        assert("ORG_SUSPENDED_POLICY_VIOLATION"@.len() != "CAMPAIGN_END_DATE_REACHED"@.len());
                    },
                    CampaignServingStateReason::CAMPAIGN_START_DATE_IN_FUTURE => {
                        assert(b.wire() == "CAMPAIGN_START_DATE_IN_FUTURE"@);
                        assert("ORG_SUSPENDED_POLICY_VIOLATION"@.len() != "CAMPAIGN_START_DATE_IN_FUTURE"@.len());
                    },
                    CampaignServingStateReason::DAILY_CAP_EXHAUSTED => {
                        assert(b.wire() == "DAILY_CAP_EXHAUSTED"@);
                        assert("ORG_SUSPENDED_POLICY_VIOLATION"@.len() != "DAILY_CAP_EXHAUSTED"@.len());
                    },
                    CampaignServingStateReason::TOTAL_BUDGET_EXHAUSTED => {
                        assert(b.wire() == "TOTAL_BUDGET_EXHAUSTED"@);
                        assert("ORG_SUSPENDED_POLICY_VIOLATION"@.len() != "TOTAL_BUDGET_EXHAUSTED"@.len());
                    },
                    CampaignServingStateReason::CREDIT_CARD_DECLINED => {
                        assert(b.wire() == "CREDIT_CARD_DECLINED"@);
                        assert("ORG_SUSPENDED_POLICY_VIOLATION"@.len() != "CREDIT_CARD_DECLINED"@.len());
                    },
                    CampaignServingStateReason::APP_NOT_ELIGIBLE => {
                        assert(b.wire() == "APP_NOT_ELIGIBLE"@);
                        assert("ORG_SUSPENDED_POLICY_VIOLATION"@.len() != "APP_NOT_ELIGIBLE"@.len());
                    },
                    CampaignServingStateReason::APP_NOT_ELIGIBLE_SEARCHADS => {
                        assert(b.wire() == "APP_NOT_ELIGIBLE_SEARCHADS"@);
                        assert("ORG_SUSPENDED_POLICY_VIOLATION"@.len() != "APP_NOT_ELIGIBLE_SEARCHADS"@.len());
                    },
                    CampaignServingStateReason::APP_NOT_PUBLISHED_YET => {
                        assert(b.wire() == "APP_NOT_PUBLISHED_YET"@);
                        assert("ORG_SUSPENDED_POLICY_VIOLATION"@.len() != "APP_NOT_PUBLISHED_YET"@.len());
                    },
                    CampaignServingStateReason::BO_START_DATE_IN_FUTURE => {
                        assert(b.wire() == "BO_START_DATE_IN_FUTURE"@);
                        assert("ORG_SUSPENDED_POLICY_VIOLATION"@.len() != "BO_START_DATE_IN_FUTURE"@.len());
                    },
                    CampaignServingStateReason::BO_END_DATE_REACHED => {
                        assert(b.wire() == "BO_END_DATE_REACHED"@);
                        assert("ORG_SUSPENDED_POLICY_VIOLATION"@.len() != "BO_END_DATE_REACHED"@.len());
                    },
                    CampaignServingStateReason::BO_EXHAUSTED => {
                        assert(b.wire() == "BO_EXHAUSTED"@);
                        assert("ORG_SUSPENDED_POLICY_VIOLATION"@.len() != "BO_EXHAUSTED"@.len());
                    },
                    CampaignServingStateReason::ORG_PAYMENT_TYPE_CHANGED => {
                        assert(b.wire() == "ORG_PAYMENT_TYPE_CHANGED"@);
                        assert("ORG_SUSPENDED_POLICY_VIOLATION"@.len() != "ORG_PAYMENT_TYPE_CHANGED"@.len());
                    },
                    CampaignServingStateReason::ORG_SUSPENDED_POLICY_VIOLATION => {
                        assert(b.wire() == "ORG_SUSPENDED_POLICY_VIOLATION"@);
                    },
                    CampaignServingStateReason::ORG_SUSPENDED_FRAUD => {
                        assert(b.wire() == "ORG_SUSPENDED_FRAUD"@);
                        assert("ORG_SUSPENDED_POLICY_VIOLATION"@.len() != "ORG_SUSPENDED_FRAUD"@.len());
                    },
                    CampaignServingStateReason::ORG_CHARGE_BACK_DISPUTED => {
                        assert(b.wire() == "ORG_CHARGE_BACK_DISPUTED"@);
                        assert("ORG_SUSPENDED_POLICY_VIOLATION"@.len() != "ORG_CHARGE_BACK_DISPUTED"@.len());
                    },
                    CampaignServingStateReason::PAUSED_BY_SYSTEM => {
                        assert(b.wire() == "PAUSED_BY_SYSTEM"@);
                        assert("ORG_SUSPENDED_POLICY_VIOLATION"@.len() != "PAUSED_BY_SYSTEM"@.len());
                    },
                    CampaignServingStateReason::LOC_EXHAUSTED => {
                        assert(b.wire() == "LOC_EXHAUSTED"@);
                        assert("ORG_SUSPENDED_POLICY_VIOLATION"@.len() != "LOC_EXHAUSTED"@.len());
                    },
                    CampaignServingStateReason::TAX_VERIFICATION_PENDING => {
                        assert(b.wire() == "TAX_VERIFICATION_PENDING"@);
                        assert("ORG_SUSPENDED_POLICY_VIOLATION"@.len() != "TAX_VERIFICATION_PENDING"@.len());
                    },
                    CampaignServingStateReason::SAPIN_LAW_AGENT_UNKNOWN => {
                        assert(b.wire() == "SAPIN_LAW_AGENT_UNKNOWN"@);
                        assert("ORG_SUSPENDED_POLICY_VIOLATION"@.len() != "SAPIN_LAW_AGENT_UNKNOWN"@.len());
                    },
                    CampaignServingStateReason::SAPIN_LAW_FRENCH_BIZ_UNKNOWN => {
                        assert(b.wire() == "SAPIN_LAW_FRENCH_BIZ_UNKNOWN"@);
                        assert("ORG_SUSPENDED_POLICY_VIOLATION"@.len() != "SAPIN_LAW_FRENCH_BIZ_UNKNOWN"@.len());
                    },
                    CampaignServingStateReason::SAPIN_LAW_FRENCH_BIZ => {
                        assert(b.wire() == "SAPIN_LAW_FRENCH_BIZ"@);
                        assert("ORG_SUSPENDED_POLICY_VIOLATION"@.len() != "SAPIN_LAW_FRENCH_BIZ"@.len());
                    },
                    CampaignServingStateReason::NO_ELIGIBLE_COUNTRIES => {
                        assert(b.wire() == "NO_ELIGIBLE_COUNTRIES"@);
                        assert("ORG_SUSPENDED_POLICY_VIOLATION"@.len() != "NO_ELIGIBLE_COUNTRIES"@.len());
                    },
                    CampaignServingStateReason::AD_GROUP_MISSING => {
                        assert(b.wire() == "AD_GROUP_MISSING"@);
                        assert("ORG_SUSPENDED_POLICY_VIOLATION"@.len() != "AD_GROUP_MISSING"@.len());
                    },
                }
            },
            CampaignServingStateReason::ORG_SUSPENDED_FRAUD => {
                assert(a.wire() == "ORG_SUSPENDED_FRAUD"@);
                match b {
                    CampaignServingStateReason::NO_PAYMENT_METHOD_ON_FILE => {
                        assert(b.wire() == "NO_PAYMENT_METHOD_ON_FILE"@);
                        assert("ORG_SUSPENDED_FRAUD"@.len() != "NO_PAYMENT_METHOD_ON_FILE"@.len());
                    },
                    CampaignServingStateReason::MISSING_BO_OR_INVOICING_FIELDS => {
                        assert(b.wire() == "MISSING_BO_OR_INVOICING_FIELDS"@);
                        assert("ORG_SUSPENDED_FRAUD"@.len() != "MISSING_BO_OR_INVOICING_FIELDS"@.len());
                    },
                    CampaignServingStateReason::PAUSED_BY_USER => {
                        assert(b.wire() == "PAUSED_BY_USER"@);
                        assert("ORG_SUSPENDED_FRAUD"@.len() != "PAUSED_BY_USER"@.len());
                    },
                    CampaignServingStateReason::DELETED_BY_USER => {
                        assert(b.wire() == "DELETED_BY_USER"@);
                        assert("ORG_SUSPENDED_FRAUD"@.len() != "DELETED_BY_USER"@.len());
                    },
                    CampaignServingStateReason::CAMPAIGN_END_DATE_REACHED => {
                        assert(b.wire() == "CAMPAIGN_END_DATE_REACHED"@);
                        assert("ORG_SUSPENDED_FRAUD"@.len() != "CAMPAIGN_END_DATE_REACHED"@.len());
                    },
                    CampaignServingStateReason::CAMPAIGN_START_DATE_IN_FUTURE => {
                        assert(b.wire() == "CAMPAIGN_START_DATE_IN_FUTURE"@);
                        assert("ORG_SUSPENDED_FRAUD"@.len() != "CAMPAIGN_START_DATE_IN_FUTURE"@.len());
                    },
                    CampaignServingStateReason::DAILY_CAP_EXHAUSTED => {
                        assert(b.wire() == "DAILY_CAP_EXHAUSTED"@);
                        assert("ORG_SUSPENDED_FRAUD"@[0] != "DAILY_CAP_EXHAUSTED"@[0]);
                    },
                    CampaignServingStateReason::TOTAL_BUDGET_EXHAUSTED => {
                        assert(b.wire() == "TOTAL_BUDGET_EXHAUSTED"@);
                        assert("ORG_SUSPENDED_FRAUD"@.len() != "TOTAL_BUDGET_EXHAUSTED"@.len());
                    },
                    CampaignServingStateReason::CREDIT_CARD_DECLINED => {
                        assert(b.wire() == "CREDIT_CARD_DECLINED"@);
                        assert("ORG_SUSPENDED_FRAUD"@.len() != "CREDIT_CARD_DECLINED"@.len());
                    },
                    CampaignServingStateReason::APP_NOT_ELIGIBLE => {
                        assert(b.wire() == "APP_NOT_ELIGIBLE"@);
                        assert("ORG_SUSPENDED_FRAUD"@.len() != "APP_NOT_ELIGIBLE"@.len());
                    },
                    CampaignServingStateReason::APP_NOT_ELIGIBLE_SEARCHADS => {
                        assert(b.wire() == "APP_NOT_ELIGIBLE_SEARCHADS"@);
                        assert("ORG_SUSPENDED_FRAUD"@.len() != "APP_NOT_ELIGIBLE_SEARCHADS"@.len());
                    },
                    CampaignServingStateReason::APP_NOT_PUBLISHED_YET => {
                        assert(b.wire() == "APP_NOT_PUBLISHED_YET"@);
                        assert("ORG_SUSPENDED_FRAUD"@.len() != "APP_NOT_PUBLISHED_YET"@.len());
                    },
                    CampaignServingStateReason::BO_START_DATE_IN_FUTURE => {
                        assert(b.wire() == "BO_START_DATE_IN_FUTURE"@);
                        assert("ORG_SUSPENDED_FRAUD"@.len() != "BO_START_DATE_IN_FUTURE"@.len());
                    },
                    CampaignServingStateReason::BO_END_DATE_REACHED => {
                        assert(b.wire() == "BO_END_DATE_REACHED"@);
                        assert("ORG_SUSPENDED_FRAUD"@[0] != "BO_END_DATE_REACHED"@[0]);
                    },
                    CampaignServingStateReason::BO_EXHAUSTED => {
                        assert(b.wire() == "BO_EXHAUSTED"@);
                        assert("ORG_SUSPENDED_FRAUD"@.len() != "BO_EXHAUSTED"@.len());
                    },
                    CampaignServingStateReason::ORG_PAYMENT_TYPE_CHANGED => {
                        assert(b.wire() == "ORG_PAYMENT_TYPE_CHANGED"@);
                        assert("ORG_SUSPENDED_FRAUD"@.len() != "ORG_PAYMENT_TYPE_CHANGED"@.len());
                    },
                    CampaignServingStateReason::ORG_SUSPENDED_POLICY_VIOLATION => {
                        assert(b.wire() == "ORG_SUSPENDED_POLICY_VIOLATION"@);
                        assert("ORG_SUSPENDED_FRAUD"@.len() != "ORG_SUSPENDED_POLICY_VIOLATION"@.len());
                    },
                    CampaignServingStateReason::ORG_SUSPENDED_FRAUD => {
                        assert(b.wire() == "ORG_SUSPENDED_FRAUD"@);
                    },
                    CampaignServingStateReason::ORG_CHARGE_BACK_DISPUTED => {
                        assert(b.wire() == "ORG_CHARGE_BACK_DISPUTED"@);
                        assert("ORG_SUSPENDED_FRAUD"@.len() != "ORG_CHARGE_BACK_DISPUTED"@.len());
                    },
                    CampaignServingStateReason::PAUSED_BY_SYSTEM => {
                        assert(b.wire() == "PAUSED_BY_SYSTEM"@);
                        assert("ORG_SUSPENDED_FRAUD"@.len() != "PAUSED_BY_SYSTEM"@.len());
                    },
                    CampaignServingStateReason::LOC_EXHAUSTED => {
                        assert(b.wire() == "LOC_EXHAUSTED"@);
                        assert("ORG_SUSPENDED_FRAUD"@.len() != "LOC_EXHAUSTED"@.len());
                    },
                    CampaignServingStateReason::TAX_VERIFICATION_PENDING => {
                        assert(b.wire() == "TAX_VERIFICATION_PENDING"@);
                        assert("ORG_SUSPENDED_FRAUD"@.len() != "TAX_VERIFICATION_PENDING"@.len());
                    },
                    CampaignServingStateReason::SAPIN_LAW_AGENT_UNKNOWN => {
                        assert(b.wire() == "SAPIN_LAW_AGENT_UNKNOWN"@);
                        assert("ORG_SUSPENDED_FRAUD"@.len() != "SAPIN_LAW_AGENT_UNKNOWN"@.len());
                    },
                    CampaignServingStateReason::SAPIN_LAW_FRENCH_BIZ_UNKNOWN => {
                        assert(b.wire() == "SAPIN_LAW_FRENCH_BIZ_UNKNOWN"@);
                        assert("ORG_SUSPENDED_FRAUD"@.len() != "SAPIN_LAW_FRENCH_BIZ_UNKNOWN"@.len());
                    },
                    CampaignServingStateReason::SAPIN_LAW_FRENCH_BIZ => {
                        assert(b.wire() == "SAPIN_LAW_FRENCH_BIZ"@);
                        assert("ORG_SUSPENDED_FRAUD"@.len() != "SAPIN_LAW_FRENCH_BIZ"@.len());
                    },
                    CampaignServingStateReason::NO_ELIGIBLE_COUNTRIES => {
                        assert(b.wire() == "NO_ELIGIBLE_COUNTRIES"@);
                        assert("ORG_SUSPENDED_FRAUD"@.len() != "NO_ELIGIBLE_COUNTRIES"@.len());
                    },
                    CampaignServingStateReason::AD_GROUP_MISSING => {
                        assert(b.wire() == "AD_GROUP_MISSING"@);
                        assert("ORG_SUSPENDED_FRAUD"@.len() != "AD_GROUP_MISSING"@.len());
                    },
                }
            },
            CampaignServingStateReason::ORG_CHARGE_BACK_DISPUTED => {
                assert(a.wire() == "ORG_CHARGE_BACK_DISPUTED"@);
                match b {
                    CampaignServingStateReason::NO_PAYMENT_METHOD_ON_FILE => {
                        assert(b.wire() == "NO_PAYMENT_METHOD_ON_FILE"@);
                        assert("ORG_CHARGE_BACK_DISPUTED"@.len() != "NO_PAYMENT_METHOD_ON_FILE"@.len());
                    },
                    CampaignServingStateReason::MISSING_BO_OR_INVOICING_FIELDS => {
                        assert(b.wire() == "MISSING_BO_OR_INVOICING_FIELDS"@);
                        assert("ORG_CHARGE_BACK_DISPUTED"@.len() != "MISSING_BO_OR_INVOICING_FIELDS"@.len());
                    },
                    CampaignServingStateReason::PAUSED_BY_USER => {
                        assert(b.wire() == "PAUSED_BY_USER"@);
                        assert("ORG_CHARGE_BACK_DISPUTED"@.len() != "PAUSED_BY_USER"@.len());
                    },
                    CampaignServingStateReason::DELETED_BY_USER => {
                        assert(b.wire() == "DELETED_BY_USER"@);
                        assert("ORG_CHARGE_BACK_DISPUTED"@.len() != "DELETED_BY_USER"@.len());
                    },
                    CampaignServingStateReason::CAMPAIGN_END_DATE_REACHED => {
                        assert(b.wire() == "CAMPAIGN_END_DATE_REACHED"@);
                        assert("ORG_CHARGE_BACK_DISPUTED"@.len() != "CAMPAIGN_END_DATE_REACHED"@.len());
                    },
                    CampaignServingStateReason::CAMPAIGN_START_DATE_IN_FUTURE => {
                        assert(b.wire() == "CAMPAIGN_START_DATE_IN_FUTURE"@);
                        assert("ORG_CHARGE_BACK_DISPUTED"@.len() != "CAMPAIGN_START_DATE_IN_FUTURE"@.len());
                    },
                    CampaignServingStateReason::DAILY_CAP_EXHAUSTED => {
                        assert(b.wire() == "DAILY_CAP_EXHAUSTED"@);
                        assert("ORG_CHARGE_BACK_DISPUTED"@.len() != "DAILY_CAP_EXHAUSTED"@.len());
                    },
                    CampaignServingStateReason::TOTAL_BUDGET_EXHAUSTED => {
                        assert(b.wire() == "TOTAL_BUDGET_EXHAUSTED"@);
                        assert("ORG_CHARGE_BACK_DISPUTED"@.len() != "TOTAL_BUDGET_EXHAUSTED"@.len());
                    },
                    CampaignServingStateReason::CREDIT_CARD_DECLINED => {
                        assert(b.wire() == "CREDIT_CARD_DECLINED"@);
                        assert("ORG_CHARGE_BACK_DISPUTED"@.len() != "CREDIT_CARD_DECLINED"@.len());
                    },
                    CampaignServingStateReason::APP_NOT_ELIGIBLE => {
                        assert(b.wire() == "APP_NOT_ELIGIBLE"@);
                        assert("ORG_CHARGE_BACK_DISPUTED"@.len() != "APP_NOT_ELIGIBLE"@.len());
                    },
                    CampaignServingStateReason::APP_NOT_ELIGIBLE_SEARCHADS => {
                        assert(b.wire() == "APP_NOT_ELIGIBLE_SEARCHADS"@);
                        assert("ORG_CHARGE_BACK_DISPUTED"@.len() != "APP_NOT_ELIGIBLE_SEARCHADS"@.len());
                    },
                    CampaignServingStateReason::APP_NOT_PUBLISHED_YET => {
                        assert(b.wire() == "APP_NOT_PUBLISHED_YET"@);
                        assert("ORG_CHARGE_BACK_DISPUTED"@.len() != "APP_NOT_PUBLISHED_YET"@.len());
                    },
                    CampaignServingStateReason::BO_START_DATE_IN_FUTURE => {
                        assert(b.wire() == "BO_START_DATE_IN_FUTURE"@);
                        assert("ORG_CHARGE_BACK_DISPUTED"@.len() != "BO_START_DATE_IN_FUTURE"@.len());
                    },
                    CampaignServingStateReason::BO_END_DATE_REACHED => {
                        assert(b.wire() == "BO_END_DATE_REACHED"@);
                        assert("ORG_CHARGE_BACK_DISPUTED"@.len() != "BO_END_DATE_REACHED"@.len());
                    },
                    CampaignServingStateReason::BO_EXHAUSTED => {
                        assert(b.wire() == "BO_EXHAUSTED"@);
                        assert("ORG_CHARGE_BACK_DISPUTED"@.len() != "BO_EXHAUSTED"@.len());
                    },
                    CampaignServingStateReason::ORG_PAYMENT_TYPE_CHANGED => {
                        assert(b.wire() == "ORG_PAYMENT_TYPE_CHANGED"@);
                        assert("ORG_CHARGE_BACK_DISPUTED"@[4] != "ORG_PAYMENT_TYPE_CHANGED"@[4]);
                    },
                    CampaignServingStateReason::ORG_SUSPENDED_POLICY_VIOLATION => {
                        assert(b.wire() == "ORG_SUSPENDED_POLICY_VIOLATION"@);
                        assert("ORG_CHARGE_BACK_DISPUTED"@.len() != "ORG_SUSPENDED_POLICY_VIOLATION"@.len());
                    },
                    CampaignServingStateReason::ORG_SUSPENDED_FRAUD => {
                        assert(b.wire() == "ORG_SUSPENDED_FRAUD"@);
                        assert("ORG_CHARGE_BACK_DISPUTED"@.len() != "ORG_SUSPENDED_FRAUD"@.len());
                    },
                    CampaignServingStateReason::ORG_CHARGE_BACK_DISPUTED => {
                        assert(b.wire() == "ORG_CHARGE_BACK_DISPUTED"@);
                    },
                    CampaignServingStateReason::PAUSED_BY_SYSTEM => {
                        assert(b.wire() == "PAUSED_BY_SYSTEM"@);
                        assert("ORG_CHARGE_BACK_DISPUTED"@.len() != "PAUSED_BY_SYSTEM"@.len());
                    },
                    CampaignServingStateReason::LOC_EXHAUSTED => {
                        assert(b.wire() == "LOC_EXHAUSTED"@);
                        assert("ORG_CHARGE_BACK_DISPUTED"@.len() != "LOC_EXHAUSTED"@.len());
                    },
                    CampaignServingStateReason::TAX_VERIFICATION_PENDING => {
                        assert(b.wire() == "TAX_VERIFICATION_PENDING"@);
                        assert("ORG_CHARGE_BACK_DISPUTED"@[0] != "TAX_VERIFICATION_PENDING"@[0]);
                    },
                    CampaignServingStateReason::SAPIN_LAW_AGENT_UNKNOWN => {
                        assert(b.wire() == "SAPIN_LAW_AGENT_UNKNOWN"@);
                        assert("ORG_CHARGE_BACK_DISPUTED"@.len() != "SAPIN_LAW_AGENT_UNKNOWN"@.len());
                    },
                    CampaignServingStateReason::SAPIN_LAW_FRENCH_BIZ_UNKNOWN => {
                        assert(b.wire() == "SAPIN_LAW_FRENCH_BIZ_UNKNOWN"@);
                        assert("ORG_CHARGE_BACK_DISPUTED"@.len() != "SAPIN_LAW_FRENCH_BIZ_UNKNOWN"@.len());
                    },
                    CampaignServingStateReason::SAPIN_LAW_FRENCH_BIZ => {
                        assert(b.wire() == "SAPIN_LAW_FRENCH_BIZ"@);
                        assert("ORG_CHARGE_BACK_DISPUTED"@.len() != "SAPIN_LAW_FRENCH_BIZ"@.len());
                    },
                    CampaignServingStateReason::NO_ELIGIBLE_COUNTRIES => {
                        assert(b.wire() == "NO_ELIGIBLE_COUNTRIES"@);
                        assert("ORG_CHARGE_BACK_DISPUTED"@.len() != "NO_ELIGIBLE_COUNTRIES"@.len());
                    },
                    CampaignServingStateReason::AD_GROUP_MISSING => {
                        assert(b.wire() == "AD_GROUP_MISSING"@);
                        assert("ORG_CHARGE_BACK_DISPUTED"@.len() != "AD_GROUP_MISSING"@.len());
                    },
                }
            },
            CampaignServingStateReason::PAUSED_BY_SYSTEM => {
                assert(a.wire() == "PAUSED_BY_SYSTEM"@);
                match b {
                    CampaignServingStateReason::NO_PAYMENT_METHOD_ON_FILE => {
                        assert(b.wire() == "NO_PAYMENT_METHOD_ON_FILE"@);
                        assert("PAUSED_BY_SYSTEM"@.len() != "NO_PAYMENT_METHOD_ON_FILE"@.len());
                    },
                    CampaignServingStateReason::MISSING_BO_OR_INVOICING_FIELDS => {
                        assert(b.wire() == "MISSING_BO_OR_INVOICING_FIELDS"@);
                        assert("PAUSED_BY_SYSTEM"@.len() != "MISSING_BO_OR_INVOICING_FIELDS"@.len());
                    },
                    CampaignServingStateReason::PAUSED_BY_USER => {
                        assert(b.wire() == "PAUSED_BY_USER"@);
                        assert("PAUSED_BY_SYSTEM"@.len() != "PAUSED_BY_USER"@.len());
                    },
                    CampaignServingStateReason::DELETED_BY_USER => {
                        assert(b.wire() == "DELETED_BY_USER"@);
                        assert("PAUSED_BY_SYSTEM"@.len() != "DELETED_BY_USER"@.len());
                    },
                    CampaignServingStateReason::CAMPAIGN_END_DATE_REACHED => {
                        assert(b.wire() == "CAMPAIGN_END_DATE_REACHED"@);
                        assert("PAUSED_BY_SYSTEM"@.len() != "CAMPAIGN_END_DATE_REACHED"@.len());
                    },
                    CampaignServingStateReason::CAMPAIGN_START_DATE_IN_FUTURE => {
                        assert(b.wire() == "CAMPAIGN_START_DATE_IN_FUTURE"@);
                        assert("PAUSED_BY_SYSTEM"@.len() != "CAMPAIGN_START_DATE_IN_FUTURE"@.len());
                    },
                    CampaignServingStateReason::DAILY_CAP_EXHAUSTED => {
                        assert(b.wire() == "DAILY_CAP_EXHAUSTED"@);
                        assert("PAUSED_BY_SYSTEM"@.len() != "DAILY_CAP_EXHAUSTED"@.len());
                    },
                    CampaignServingStateReason::TOTAL_BUDGET_EXHAUSTED => {
                        assert(b.wire() == "TOTAL_BUDGET_EXHAUSTED"@);
                        assert("PAUSED_BY_SYSTEM"@.len() != "TOTAL_BUDGET_EXHAUSTED"@.len());
                    },
                    CampaignServingStateReason::CREDIT_CARD_DECLINED => {
                        assert(b.wire() == "CREDIT_CARD_DECLINED"@);
                        assert("PAUSED_BY_SYSTEM"@.len() != "CREDIT_CARD_DECLINED"@.len());
                    },
                    CampaignServingStateReason::APP_NOT_ELIGIBLE => {
                        assert(b.wire() == "APP_NOT_ELIGIBLE"@);
                        assert("PAUSED_BY_SYSTEM"@[0] != "APP_NOT_ELIGIBLE"@[0]);
                    },
                    CampaignServingStateReason::APP_NOT_ELIGIBLE_SEARCHADS => {
                        assert(b.wire() == "APP_NOT_ELIGIBLE_SEARCHADS"@);
                        assert("PAUSED_BY_SYSTEM"@.len() != "APP_NOT_ELIGIBLE_SEARCHADS"@.len());
                    },
                    CampaignServingStateReason::APP_NOT_PUBLISHED_YET => {
                        assert(b.wire() == "APP_NOT_PUBLISHED_YET"@);
                        assert("PAUSED_BY_SYSTEM"@.len() != "APP_NOT_PUBLISHED_YET"@.len());
                    },
                    CampaignServingStateReason::BO_START_DATE_IN_FUTURE => {
                        assert(b.wire() == "BO_START_DATE_IN_FUTURE"@);
                        assert("PAUSED_BY_SYSTEM"@.len() != "BO_START_DATE_IN_FUTURE"@.len());
                    },
                    CampaignServingStateReason::BO_END_DATE_REACHED => {
                        assert(b.wire() == "BO_END_DATE_REACHED"@);
                        assert("PAUSED_BY_SYSTEM"@.len() != "BO_END_DATE_REACHED"@.len());
                    },
                    CampaignServingStateReason::BO_EXHAUSTED => {
                        assert(b.wire() == "BO_EXHAUSTED"@);
                        assert("PAUSED_BY_SYSTEM"@.len() != "BO_EXHAUSTED"@.len());
                    },
                    CampaignServingStateReason::ORG_PAYMENT_TYPE_CHANGED => {
                        assert(b.wire() == "ORG_PAYMENT_TYPE_CHANGED"@);
                        assert("PAUSED_BY_SYSTEM"@.len() != "ORG_PAYMENT_TYPE_CHANGED"@.len());
                    },
                    CampaignServingStateReason::ORG_SUSPENDED_POLICY_VIOLATION => {
                        assert(b.wire() == "ORG_SUSPENDED_POLICY_VIOLATION"@);
                        assert("PAUSED_BY_SYSTEM"@.len() != "ORG_SUSPENDED_POLICY_VIOLATION"@.len());
                    },
                    CampaignServingStateReason::ORG_SUSPENDED_FRAUD => {
                        assert(b.wire() == "ORG_SUSPENDED_FRAUD"@);
                        assert("PAUSED_BY_SYSTEM"@.len() != "ORG_SUSPENDED_FRAUD"@.len());
                    },
                    CampaignServingStateReason::ORG_CHARGE_BACK_DISPUTED => {
                        assert(b.wire() == "ORG_CHARGE_BACK_DISPUTED"@);
                        assert("PAUSED_BY_SYSTEM"@.len() != "ORG_CHARGE_BACK_DISPUTED"@.len());
                    },
                    CampaignServingStateReason::PAUSED_BY_SYSTEM => {
                        assert(b.wire() == "PAUSED_BY_SYSTEM"@);
                    },
                    CampaignServingStateReason::LOC_EXHAUSTED => {
                        assert(b.wire() == "LOC_EXHAUSTED"@);
                        assert("PAUSED_BY_SYSTEM"@.len() != "LOC_EXHAUSTED"@.len());
                    },
                    CampaignServingStateReason::TAX_VERIFICATION_PENDING => {
                        assert(b.wire() == "TAX_VERIFICATION_PENDING"@);
                        assert("PAUSED_BY_SYSTEM"@.len() != "TAX_VERIFICATION_PENDING"@.len());
                    },
                    CampaignServingStateReason::SAPIN_LAW_AGENT_UNKNOWN => {
                        assert(b.wire() == "SAPIN_LAW_AGENT_UNKNOWN"@);
                        assert("PAUSED_BY_SYSTEM"@.len() != "SAPIN_LAW_AGENT_UNKNOWN"@.len());
                    },
                    CampaignServingStateReason::SAPIN_LAW_FRENCH_BIZ_UNKNOWN => {
                        assert(b.wire() == "SAPIN_LAW_FRENCH_BIZ_UNKNOWN"@);
                        assert("PAUSED_BY_SYSTEM"@.len() != "SAPIN_LAW_FRENCH_BIZ_UNKNOWN"@.len());
                    },
                    CampaignServingStateReason::SAPIN_LAW_FRENCH_BIZ => {
                        assert(b.wire() == "SAPIN_LAW_FRENCH_BIZ"@);
                        assert("PAUSED_BY_SYSTEM"@.len() != "SAPIN_LAW_FRENCH_BIZ"@.len());
                    },
                    CampaignServingStateReason::NO_ELIGIBLE_COUNTRIES => {
                        assert(b.wire() == "NO_ELIGIBLE_COUNTRIES"@);
                        assert("PAUSED_BY_SYSTEM"@.len() != "NO_ELIGIBLE_COUNTRIES"@.len());
                    },
                    CampaignServingStateReason::AD_GROUP_MISSING => {
                        assert(b.wire() == "AD_GROUP_MISSING"@);
                        assert("PAUSED_BY_SYSTEM"@[0] != "AD_GROUP_MISSING"@[0]);
                    },
                }
            },
            CampaignServingStateReason::LOC_EXHAUSTED => {
                assert(a.wire() == "LOC_EXHAUSTED"@);
                match b {
                    CampaignServingStateReason::NO_PAYMENT_METHOD_ON_FILE => {
                        assert(b.wire() == "NO_PAYMENT_METHOD_ON_FILE"@);
                        assert("LOC_EXHAUSTED"@.len() != "NO_PAYMENT_METHOD_ON_FILE"@.len());
                    },
                    CampaignServingStateReason::MISSING_BO_OR_INVOICING_FIELDS => {
                        assert(b.wire() == "MISSING_BO_OR_INVOICING_FIELDS"@);
                        assert("LOC_EXHAUSTED"@.len() != "MISSING_BO_OR_INVOICING_FIELDS"@.len());
                    },
                    CampaignServingStateReason::PAUSED_BY_USER => {
                        assert(b.wire() == "PAUSED_BY_USER"@);
                        assert("LOC_EXHAUSTED"@.len() != "PAUSED_BY_USER"@.len());
                    },
                    CampaignServingStateReason::DELETED_BY_USER => {
                        assert(b.wire() == "DELETED_BY_USER"@);
                        assert("LOC_EXHAUSTED"@.len() != "DELETED_BY_USER"@.len());
                    },
                    CampaignServingStateReason::CAMPAIGN_END_DATE_REACHED => {
                        assert(b.wire() == "CAMPAIGN_END_DATE_REACHED"@);
                        assert("LOC_EXHAUSTED"@.len() != "CAMPAIGN_END_DATE_REACHED"@.len());
                    },
                    CampaignServingStateReason::CAMPAIGN_START_DATE_IN_FUTURE => {
                        assert(b.wire() == "CAMPAIGN_START_DATE_IN_FUTURE"@);
                        assert("LOC_EXHAUSTED"@.len() != "CAMPAIGN_START_DATE_IN_FUTURE"@.len());
                    },
                    CampaignServingStateReason::DAILY_CAP_EXHAUSTED => {
                        assert(b.wire() == "DAILY_CAP_EXHAUSTED"@);
                        assert("LOC_EXHAUSTED"@.len() != "DAILY_CAP_EXHAUSTED"@.len());
                    },
                    CampaignServingStateReason::TOTAL_BUDGET_EXHAUSTED => {
                        assert(b.wire() == "TOTAL_BUDGET_EXHAUSTED"@);
                        assert("LOC_EXHAUSTED"@.len() != "TOTAL_BUDGET_EXHAUSTED"@.len());
                    },
                    CampaignServingStateReason::CREDIT_CARD_DECLINED => {
                        assert(b.wire() == "CREDIT_CARD_DECLINED"@);
                        assert("LOC_EXHAUSTED"@.len() != "CREDIT_CARD_DECLINED"@.len());
                    },
                    CampaignServingStateReason::APP_NOT_ELIGIBLE => {
                        assert(b.wire() == "APP_NOT_ELIGIBLE"@);
                        assert("LOC_EXHAUSTED"@.len() != "APP_NOT_ELIGIBLE"@.len());
                    },
                    CampaignServingStateReason::APP_NOT_ELIGIBLE_SEARCHADS => {
                        assert(b.wire() == "APP_NOT_ELIGIBLE_SEARCHADS"@);
                        assert("LOC_EXHAUSTED"@.len() != "APP_NOT_ELIGIBLE_SEARCHADS"@.len());
                    },
                    CampaignServingStateReason::APP_NOT_PUBLISHED_YET => {
                        assert(b.wire() == "APP_NOT_PUBLISHED_YET"@);
                        assert("LOC_EXHAUSTED"@.len() != "APP_NOT_PUBLISHED_YET"@.len());
                    },
                    CampaignServingStateReason::BO_START_DATE_IN_FUTURE => {
                        assert(b.wire() == "BO_START_DATE_IN_FUTURE"@);
                        assert("LOC_EXHAUSTED"@.len() != "BO_START_DATE_IN_FUTURE"@.len());
                    },
                    CampaignServingStateReason::BO_END_DATE_REACHED => {
                        assert(b.wire() == "BO_END_DATE_REACHED"@);
                        assert("LOC_EXHAUSTED"@.len() != "BO_END_DATE_REACHED"@.len());
                    },
                    CampaignServingStateReason::BO_EXHAUSTED => {
                        assert(b.wire() == "BO_EXHAUSTED"@);
                        assert("LOC_EXHAUSTED"@.len() != "BO_EXHAUSTED"@.len());
                    },
                    CampaignServingStateReason::ORG_PAYMENT_TYPE_CHANGED => {
                        assert(b.wire() == "ORG_PAYMENT_TYPE_CHANGED"@);
                        assert("LOC_EXHAUSTED"@.len() != "ORG_PAYMENT_TYPE_CHANGED"@.len());
                    },
                    CampaignServingStateReason::ORG_SUSPENDED_POLICY_VIOLATION => {
                        assert(b.wire() == "ORG_SUSPENDED_POLICY_VIOLATION"@);
                        assert("LOC_EXHAUSTED"@.len() != "ORG_SUSPENDED_POLICY_VIOLATION"@.len());
                    },
                    CampaignServingStateReason::ORG_SUSPENDED_FRAUD => {
                        assert(b.wire() == "ORG_SUSPENDED_FRAUD"@);
                        assert("LOC_EXHAUSTED"@.len() != "ORG_SUSPENDED_FRAUD"@.len());
                    },
                    CampaignServingStateReason::ORG_CHARGE_BACK_DISPUTED => {
                        assert(b.wire() == "ORG_CHARGE_BACK_DISPUTED"@);
                        assert("LOC_EXHAUSTED"@.len() != "ORG_CHARGE_BACK_DISPUTED"@.len());
                    },
                    CampaignServingStateReason::PAUSED_BY_SYSTEM => {
                        assert(b.wire() == "PAUSED_BY_SYSTEM"@);
                        assert("LOC_EXHAUSTED"@.len() != "PAUSED_BY_SYSTEM"@.len());
                    },
                    CampaignServingStateReason::LOC_EXHAUSTED => {
                        assert(b.wire() == "LOC_EXHAUSTED"@);
                    },
                    CampaignServingStateReason::TAX_VERIFICATION_PENDING => {
                        assert(b.wire() == "TAX_VERIFICATION_PENDING"@);
                        assert("LOC_EXHAUSTED"@.len() != "TAX_VERIFICATION_PENDING"@.len());
                    },
                    CampaignServingStateReason::SAPIN_LAW_AGENT_UNKNOWN => {
                        assert(b.wire() == "SAPIN_LAW_AGENT_UNKNOWN"@);
                        assert("LOC_EXHAUSTED"@.len() != "SAPIN_LAW_AGENT_UNKNOWN"@.len());
                    },
                    CampaignServingStateReason::SAPIN_LAW_FRENCH_BIZ_UNKNOWN => {
                        assert(b.wire() == "SAPIN_LAW_FRENCH_BIZ_UNKNOWN"@);
                        assert("LOC_EXHAUSTED"@.len() != "SAPIN_LAW_FRENCH_BIZ_UNKNOWN"@.len());
                    },
                    CampaignServingStateReason::SAPIN_LAW_FRENCH_BIZ => {
                        assert(b.wire() == "SAPIN_LAW_FRENCH_BIZ"@);
                        assert("LOC_EXHAUSTED"@.len() != "SAPIN_LAW_FRENCH_BIZ"@.len());
                    },
                    CampaignServingStateReason::NO_ELIGIBLE_COUNTRIES => {
                        assert(b.wire() == "NO_ELIGIBLE_COUNTRIES"@);
                        assert("LOC_EXHAUSTED"@.len() != "NO_ELIGIBLE_COUNTRIES"@.len());
                    },
                    CampaignServingStateReason::AD_GROUP_MISSING => {
                        assert(b.wire() == "AD_GROUP_MISSING"@);
                        assert("LOC_EXHAUSTED"@.len() != "AD_GROUP_MISSING"@.len());
                    },
                }
            },
            CampaignServingStateReason::TAX_VERIFICATION_PENDING => {
                assert(a.wire() == "TAX_VERIFICATION_PENDING"@);
                match b {
                    CampaignServingStateReason::NO_PAYMENT_METHOD_ON_FILE => {
                        assert(b.wire() == "NO_PAYMENT_METHOD_ON_FILE"@);
                        assert("TAX_VERIFICATION_PENDING"@.len() != "NO_PAYMENT_METHOD_ON_FILE"@.len());
                    },
                    CampaignServingStateReason::MISSING_BO_OR_INVOICING_FIELDS => {
                        assert(b.wire() == "MISSING_BO_OR_INVOICING_FIELDS"@);
                        assert("TAX_VERIFICATION_PENDING"@.len() != "MISSING_BO_OR_INVOICING_FIELDS"@.len());
                    },
                    CampaignServingStateReason::PAUSED_BY_USER => {
                        assert(b.wire() == "PAUSED_BY_USER"@);
                        assert("TAX_VERIFICATION_PENDING"@.len() != "PAUSED_BY_USER"@.len());
                    },
                    CampaignServingStateReason::DELETED_BY_USER => {
                        assert(b.wire() == "DELETED_BY_USER"@);
                        assert("TAX_VERIFICATION_PENDING"@.len() != "DELETED_BY_USER"@.len());
                    },
                    CampaignServingStateReason::CAMPAIGN_END_DATE_REACHED => {
                        assert(b.wire() == "CAMPAIGN_END_DATE_REACHED"@);
                        assert("TAX_VERIFICATION_PENDING"@.len() != "CAMPAIGN_END_DATE_REACHED"@.len());
                    },
                    CampaignServingStateReason::CAMPAIGN_START_DATE_IN_FUTURE => {
                        assert(b.wire() == "CAMPAIGN_START_DATE_IN_FUTURE"@);
                        assert("TAX_VERIFICATION_PENDING"@.len() != "CAMPAIGN_START_DATE_IN_FUTURE"@.len());
                    },
                    CampaignServingStateReason::DAILY_CAP_EXHAUSTED => {
                        assert(b.wire() == "DAILY_CAP_EXHAUSTED"@);
                        assert("TAX_VERIFICATION_PENDING"@.len() != "DAILY_CAP_EXHAUSTED"@.len());
                    },
                    CampaignServingStateReason::TOTAL_BUDGET_EXHAUSTED => {
                        assert(b.wire() == "TOTAL_BUDGET_EXHAUSTED"@);
                        assert("TAX_VERIFICATION_PENDING"@.len() != "TOTAL_BUDGET_EXHAUSTED"@.len());
                    },
                    CampaignServingStateReason::CREDIT_CARD_DECLINED => {
                        assert(b.wire() == "CREDIT_CARD_DECLINED"@);
                        assert("TAX_VERIFICATION_PENDING"@.len() != "CREDIT_CARD_DECLINED"@.len());
                    },
                    CampaignServingStateReason::APP_NOT_ELIGIBLE => {
                        assert(b.wire() == "APP_NOT_ELIGIBLE"@);
                        assert("TAX_VERIFICATION_PENDING"@.len() != "APP_NOT_ELIGIBLE"@.len());
                    },
                    CampaignServingStateReason::APP_NOT_ELIGIBLE_SEARCHADS => {
                        assert(b.wire() == "APP_NOT_ELIGIBLE_SEARCHADS"@);
                        assert("TAX_VERIFICATION_PENDING"@.len() != "APP_NOT_ELIGIBLE_SEARCHADS"@.len());
                    },
                    CampaignServingStateReason::APP_NOT_PUBLISHED_YET => {
                        assert(b.wire() == "APP_NOT_PUBLISHED_YET"@);
                        assert("TAX_VERIFICATION_PENDING"@.len() != "APP_NOT_PUBLISHED_YET"@.len());
                    },
                    CampaignServingStateReason::BO_START_DATE_IN_FUTURE => {
                        assert(b.wire() == "BO_START_DATE_IN_FUTURE"@);
                        assert("TAX_VERIFICATION_PENDING"@.len() != "BO_START_DATE_IN_FUTURE"@.len());
                    },
                    CampaignServingStateReason::BO_END_DATE_REACHED => {
                        assert(b.wire() == "BO_END_DATE_REACHED"@);
                        assert("TAX_VERIFICATION_PENDING"@.len() != "BO_END_DATE_REACHED"@.len());
                    },
                    CampaignServingStateReason::BO_EXHAUSTED => {
                        assert(b.wire() == "BO_EXHAUSTED"@);
                        assert("TAX_VERIFICATION_PENDING"@.len() != "BO_EXHAUSTED"@.len());
                    },
                    CampaignServingStateReason::ORG_PAYMENT_TYPE_CHANGED => {
                        assert(b.wire() == "ORG_PAYMENT_TYPE_CHANGED"@);
                        assert("TAX_VERIFICATION_PENDING"@[0] != "ORG_PAYMENT_TYPE_CHANGED"@[0]);
                    },
                    CampaignServingStateReason::ORG_SUSPENDED_POLICY_VIOLATION => {
                        assert(b.wire() == "ORG_SUSPENDED_POLICY_VIOLATION"@);
                        assert("TAX_VERIFICATION_PENDING"@.len() != "ORG_SUSPENDED_POLICY_VIOLATION"@.len());
                    },
                    CampaignServingStateReason::ORG_SUSPENDED_FRAUD => {
                        assert(b.wire() == "ORG_SUSPENDED_FRAUD"@);
                        assert("TAX_VERIFICATION_PENDING"@.len() != "ORG_SUSPENDED_FRAUD"@.len());
                    },
                    CampaignServingStateReason::ORG_CHARGE_BACK_DISPUTED => {
                        assert(b.wire() == "ORG_CHARGE_BACK_DISPUTED"@);
                        assert("TAX_VERIFICATION_PENDING"@[0] != "ORG_CHARGE_BACK_DISPUTED"@[0]);
                    },
                    CampaignServingStateReason::PAUSED_BY_SYSTEM => {
                        assert(b.wire() == "PAUSED_BY_SYSTEM"@);
                        assert("TAX_VERIFICATION_PENDING"@.len() != "PAUSED_BY_SYSTEM"@.len());
                    },
                    CampaignServingStateReason::LOC_EXHAUSTED => {
                        assert(b.wire() == "LOC_EXHAUSTED"@);
                        assert("TAX_VERIFICATION_PENDING"@.len() != "LOC_EXHAUSTED"@.len());
                    },
                    CampaignServingStateReason::TAX_VERIFICATION_PENDING => {
                        assert(b.wire() == "TAX_VERIFICATION_PENDING"@);
                    },
                    CampaignServingStateReason::SAPIN_LAW_AGENT_UNKNOWN => {
                        assert(b.wire() == "SAPIN_LAW_AGENT_UNKNOWN"@);
                        assert("TAX_VERIFICATION_PENDING"@.len() != "SAPIN_LAW_AGENT_UNKNOWN"@.len());
                    },
                    CampaignServingStateReason::SAPIN_LAW_FRENCH_BIZ_UNKNOWN => {
                        assert(b.wire() == "SAPIN_LAW_FRENCH_BIZ_UNKNOWN"@);
                        assert("TAX_VERIFICATION_PENDING"@.len() != "SAPIN_LAW_FRENCH_BIZ_UNKNOWN"@.len());
                    },
                    CampaignServingStateReason::SAPIN_LAW_FRENCH_BIZ => {
                        assert(b.wire() == "SAPIN_LAW_FRENCH_BIZ"@);
                        assert("TAX_VERIFICATION_PENDING"@.len() != "SAPIN_LAW_FRENCH_BIZ"@.len());
                    },
                    CampaignServingStateReason::NO_ELIGIBLE_COUNTRIES => {
                        assert(b.wire() == "NO_ELIGIBLE_COUNTRIES"@);
                        assert("TAX_VERIFICATION_PENDING"@.len() != "NO_ELIGIBLE_COUNTRIES"@.len());
                    },
                    CampaignServingStateReason::AD_GROUP_MISSING => {
                        assert(b.wire() == "AD_GROUP_MISSING"@);
                        assert("TAX_VERIFICATION_PENDING"@.len() != "AD_GROUP_MISSING"@.len());
                    },
                }
            },
            CampaignServingStateReason::SAPIN_LAW_AGENT_UNKNOWN => {
                assert(a.wire() == "SAPIN_LAW_AGENT_UNKNOWN"@);
                match b {
                    CampaignServingStateReason::NO_PAYMENT_METHOD_ON_FILE => {
                        assert(b.wire() == "NO_PAYMENT_METHOD_ON_FILE"@);
                        assert("SAPIN_LAW_AGENT_UNKNOWN"@.len() != "NO_PAYMENT_METHOD_ON_FILE"@.len());
                    },
                    CampaignServingStateReason::MISSING_BO_OR_INVOICING_FIELDS => {
                        assert(b.wire() == "MISSING_BO_OR_INVOICING_FIELDS"@);
                        assert("SAPIN_LAW_AGENT_UNKNOWN"@.len() != "MISSING_BO_OR_INVOICING_FIELDS"@.len());
                    },
                    CampaignServingStateReason::PAUSED_BY_USER => {
                        assert(b.wire() == "PAUSED_BY_USER"@);
                        assert("SAPIN_LAW_AGENT_UNKNOWN"@.len() != "PAUSED_BY_USER"@.len());
                    },
                    CampaignServingStateReason::DELETED_BY_USER => {
                        assert(b.wire() == "DELETED_BY_USER"@);
                        assert("SAPIN_LAW_AGENT_UNKNOWN"@.len() != "DELETED_BY_USER"@.len());
                    },
                    CampaignServingStateReason::CAMPAIGN_END_DATE_REACHED => {
                        assert(b.wire() == "CAMPAIGN_END_DATE_REACHED"@);
                        assert("SAPIN_LAW_AGENT_UNKNOWN"@.len() != "CAMPAIGN_END_DATE_REACHED"@.len());
                    },
                    CampaignServingStateReason::CAMPAIGN_START_DATE_IN_FUTURE => {
                        assert(b.wire() == "CAMPAIGN_START_DATE_IN_FUTURE"@);
                        assert("SAPIN_LAW_AGENT_UNKNOWN"@.len() != "CAMPAIGN_START_DATE_IN_FUTURE"@.len());
                    },
                    CampaignServingStateReason::DAILY_CAP_EXHAUSTED => {
                        assert(b.wire() == "DAILY_CAP_EXHAUSTED"@);
                        assert("SAPIN_LAW_AGENT_UNKNOWN"@.len() != "DAILY_CAP_EXHAUSTED"@.len());
                    },
                    CampaignServingStateReason::TOTAL_BUDGET_EXHAUSTED => {
                        assert(b.wire() == "TOTAL_BUDGET_EXHAUSTED"@);
                        assert("SAPIN_LAW_AGENT_UNKNOWN"@.len() != "TOTAL_BUDGET_EXHAUSTED"@.len());
                    },
                    CampaignServingStateReason::CREDIT_CARD_DECLINED => {
                        assert(b.wire() == "CREDIT_CARD_DECLINED"@);
                        assert("SAPIN_LAW_AGENT_UNKNOWN"@.len() != "CREDIT_CARD_DECLINED"@.len());
                    },
                    CampaignServingStateReason::APP_NOT_ELIGIBLE => {
                        assert(b.wire() == "APP_NOT_ELIGIBLE"@);
                        assert("SAPIN_LAW_AGENT_UNKNOWN"@.len() != "APP_NOT_ELIGIBLE"@.len());
                    },
                    CampaignServingStateReason::APP_NOT_ELIGIBLE_SEARCHADS => {
                        assert(b.wire() == "APP_NOT_ELIGIBLE_SEARCHADS"@);
                        assert("SAPIN_LAW_AGENT_UNKNOWN"@.len() != "APP_NOT_ELIGIBLE_SEARCHADS"@.len());
                    },
                    CampaignServingStateReason::APP_NOT_PUBLISHED_YET => {
                        assert(b.wire() == "APP_NOT_PUBLISHED_YET"@);
                        assert("SAPIN_LAW_AGENT_UNKNOWN"@.len() != "APP_NOT_PUBLISHED_YET"@.len());
                    },
                    CampaignServingStateReason::BO_START_DATE_IN_FUTURE => {
                        assert(b.wire() == "BO_START_DATE_IN_FUTURE"@);
                        assert("SAPIN_LAW_AGENT_UNKNOWN"@[0] != "BO_START_DATE_IN_FUTURE"@[0]);
                    },
                    CampaignServingStateReason::BO_END_DATE_REACHED => {
                        assert(b.wire() == "BO_END_DATE_REACHED"@);
                        assert("SAPIN_LAW_AGENT_UNKNOWN"@.len() != "BO_END_DATE_REACHED"@.len());
                    },
                    CampaignServingStateReason::BO_EXHAUSTED => {
                        assert(b.wire() == "BO_EXHAUSTED"@);
                        assert("SAPIN_LAW_AGENT_UNKNOWN"@.len() != "BO_EXHAUSTED"@.len());
                    },
                    CampaignServingStateReason::ORG_PAYMENT_TYPE_CHANGED => {
                        assert(b.wire() == "ORG_PAYMENT_TYPE_CHANGED"@);
                        assert("SAPIN_LAW_AGENT_UNKNOWN"@.len() != "ORG_PAYMENT_TYPE_CHANGED"@.len());
                    },
                    CampaignServingStateReason::ORG_SUSPENDED_POLICY_VIOLATION => {
                        assert(b.wire() == "ORG_SUSPENDED_POLICY_VIOLATION"@);
                        assert("SAPIN_LAW_AGENT_UNKNOWN"@.len() != "ORG_SUSPENDED_POLICY_VIOLATION"@.len());
                    },
                    CampaignServingStateReason::ORG_SUSPENDED_FRAUD => {
                        assert(b.wire() == "ORG_SUSPENDED_FRAUD"@);
                        assert("SAPIN_LAW_AGENT_UNKNOWN"@.len() != "ORG_SUSPENDED_FRAUD"@.len());
                    },
                    CampaignServingStateReason::ORG_CHARGE_BACK_DISPUTED => {
                        assert(b.wire() == "ORG_CHARGE_BACK_DISPUTED"@);
                        assert("SAPIN_LAW_AGENT_UNKNOWN"@.len() != "ORG_CHARGE_BACK_DISPUTED"@.len());
                    },
                    CampaignServingStateReason::PAUSED_BY_SYSTEM => {
                        assert(b.wire() == "PAUSED_BY_SYSTEM"@);
                        assert("SAPIN_LAW_AGENT_UNKNOWN"@.len() != "PAUSED_BY_SYSTEM"@.len());
                    },
                    CampaignServingStateReason::LOC_EXHAUSTED => {
                        assert(b.wire() == "LOC_EXHAUSTED"@);
                        assert("SAPIN_LAW_AGENT_UNKNOWN"@.len() != "LOC_EXHAUSTED"@.len());
                    },
                    CampaignServingStateReason::TAX_VERIFICATION_PENDING => {
                        assert(b.wire() == "TAX_VERIFICATION_PENDING"@);
                        assert("SAPIN_LAW_AGENT_UNKNOWN"@.len() != "TAX_VERIFICATION_PENDING"@.len());
                    },
                    CampaignServingStateReason::SAPIN_LAW_AGENT_UNKNOWN => {
                        assert(b.wire() == "SAPIN_LAW_AGENT_UNKNOWN"@);
                    },
                    CampaignServingStateReason::SAPIN_LAW_FRENCH_BIZ_UNKNOWN => {
                        assert(b.wire() == "SAPIN_LAW_FRENCH_BIZ_UNKNOWN"@);
                        assert("SAPIN_LAW_AGENT_UNKNOWN"@.len() != "SAPIN_LAW_FRENCH_BIZ_UNKNOWN"@.len());
                    },
                    CampaignServingStateReason::SAPIN_LAW_FRENCH_BIZ => {
                        assert(b.wire() == "SAPIN_LAW_FRENCH_BIZ"@);
                        assert("SAPIN_LAW_AGENT_UNKNOWN"@.len() != "SAPIN_LAW_FRENCH_BIZ"@.len());
                    },
                    CampaignServingStateReason::NO_ELIGIBLE_COUNTRIES => {
                        assert(b.wire() == "NO_ELIGIBLE_COUNTRIES"@);
                        assert("SAPIN_LAW_AGENT_UNKNOWN"@.len() != "NO_ELIGIBLE_COUNTRIES"@.len());
                    },
                    CampaignServingStateReason::AD_GROUP_MISSING => {
                        assert(b.wire() == "AD_GROUP_MISSING"@);
                        assert("SAPIN_LAW_AGENT_UNKNOWN"@.len() != "AD_GROUP_MISSING"@.len());
                    },
                }
            },
            CampaignServingStateReason::SAPIN_LAW_FRENCH_BIZ_UNKNOWN => {
                assert(a.wire() == "SAPIN_LAW_FRENCH_BIZ_UNKNOWN"@);
                match b {
                    CampaignServingStateReason::NO_PAYMENT_METHOD_ON_FILE => {
                        assert(b.wire() == "NO_PAYMENT_METHOD_ON_FILE"@);
                        assert("SAPIN_LAW_FRENCH_BIZ_UNKNOWN"@.len() != "NO_PAYMENT_METHOD_ON_FILE"@.len());
                    },
                    CampaignServingStateReason::MISSING_BO_OR_INVOICING_FIELDS => {
                        assert(b.wire() == "MISSING_BO_OR_INVOICING_FIELDS"@);
                        assert("SAPIN_LAW_FRENCH_BIZ_UNKNOWN"@.len() != "MISSING_BO_OR_INVOICING_FIELDS"@.len());
                    },
                    CampaignServingStateReason::PAUSED_BY_USER => {
                        assert(b.wire() == "PAUSED_BY_USER"@);
                        assert("SAPIN_LAW_FRENCH_BIZ_UNKNOWN"@.len() != "PAUSED_BY_USER"@.len());
                    },
                    CampaignServingStateReason::DELETED_BY_USER => {
                        assert(b.wire() == "DELETED_BY_USER"@);
                        assert("SAPIN_LAW_FRENCH_BIZ_UNKNOWN"@.len() != "DELETED_BY_USER"@.len());
                    },
                    CampaignServingStateReason::CAMPAIGN_END_DATE_REACHED => {
                        assert(b.wire() == "CAMPAIGN_END_DATE_REACHED"@);
                        assert("SAPIN_LAW_FRENCH_BIZ_UNKNOWN"@.len() != "CAMPAIGN_END_DATE_REACHED"@.len());
                    },
                    CampaignServingStateReason::CAMPAIGN_START_DATE_IN_FUTURE => {
                        assert(b.wire() == "CAMPAIGN_START_DATE_IN_FUTURE"@);
                        assert("SAPIN_LAW_FRENCH_BIZ_UNKNOWN"@.len() != "CAMPAIGN_START_DATE_IN_FUTURE"@.len());
                    },
                    CampaignServingStateReason::DAILY_CAP_EXHAUSTED => {
                        assert(b.wire() == "DAILY_CAP_EXHAUSTED"@);
                        assert("SAPIN_LAW_FRENCH_BIZ_UNKNOWN"@.len() != "DAILY_CAP_EXHAUSTED"@.len());
                    },
                    CampaignServingStateReason::TOTAL_BUDGET_EXHAUSTED => {
                        assert(b.wire() == "TOTAL_BUDGET_EXHAUSTED"@);
                        assert("SAPIN_LAW_FRENCH_BIZ_UNKNOWN"@.len() != "TOTAL_BUDGET_EXHAUSTED"@.len());
                    },
                    CampaignServingStateReason::CREDIT_CARD_DECLINED => {
                        assert(b.wire() == "CREDIT_CARD_DECLINED"@);
                        assert("SAPIN_LAW_FRENCH_BIZ_UNKNOWN"@.len() != "CREDIT_CARD_DECLINED"@.len());
                    },
                    CampaignServingStateReason::APP_NOT_ELIGIBLE => {
                        assert(b.wire() == "APP_NOT_ELIGIBLE"@);
                        assert("SAPIN_LAW_FRENCH_BIZ_UNKNOWN"@.len() != "APP_NOT_ELIGIBLE"@.len());
                    },
                    CampaignServingStateReason::APP_NOT_ELIGIBLE_SEARCHADS => {
                        assert(b.wire() == "APP_NOT_ELIGIBLE_SEARCHADS"@);
                        assert("SAPIN_LAW_FRENCH_BIZ_UNKNOWN"@.len() != "APP_NOT_ELIGIBLE_SEARCHADS"@.len());
                    },
                    CampaignServingStateReason::APP_NOT_PUBLISHED_YET => {
                        assert(b.wire() == "APP_NOT_PUBLISHED_YET"@);
                        assert("SAPIN_LAW_FRENCH_BIZ_UNKNOWN"@.len() != "APP_NOT_PUBLISHED_YET"@.len());
                    },
                    CampaignServingStateReason::BO_START_DATE_IN_FUTURE => {
                        assert(b.wire() == "BO_START_DATE_IN_FUTURE"@);
                        assert("SAPIN_LAW_FRENCH_BIZ_UNKNOWN"@.len() != "BO_START_DATE_IN_FUTURE"@.len());
                    },
                    CampaignServingStateReason::BO_END_DATE_REACHED => {
                        assert(b.wire() == "BO_END_DATE_REACHED"@);
                        assert("SAPIN_LAW_FRENCH_BIZ_UNKNOWN"@.len() != "BO_END_DATE_REACHED"@.len());
                    },
                    CampaignServingStateReason::BO_EXHAUSTED => {
                        assert(b.wire() == "BO_EXHAUSTED"@);
                        assert("SAPIN_LAW_FRENCH_BIZ_UNKNOWN"@.len() != "BO_EXHAUSTED"@.len());
                    },
                    CampaignServingStateReason::ORG_PAYMENT_TYPE_CHANGED => {
                        assert(b.wire() == "ORG_PAYMENT_TYPE_CHANGED"@);
                        assert("SAPIN_LAW_FRENCH_BIZ_UNKNOWN"@.len() != "ORG_PAYMENT_TYPE_CHANGED"@.len());
                    },
                    CampaignServingStateReason::ORG_SUSPENDED_POLICY_VIOLATION => {
                        assert(b.wire() == "ORG_SUSPENDED_POLICY_VIOLATION"@);
                        assert("SAPIN_LAW_FRENCH_BIZ_UNKNOWN"@.len() != "ORG_SUSPENDED_POLICY_VIOLATION"@.len());
                    },
                    CampaignServingStateReason::ORG_SUSPENDED_FRAUD => {
                        assert(b.wire() == "ORG_SUSPENDED_FRAUD"@);
                        assert("SAPIN_LAW_FRENCH_BIZ_UNKNOWN"@.len() != "ORG_SUSPENDED_FRAUD"@.len());
                    },
                    CampaignServingStateReason::ORG_CHARGE_BACK_DISPUTED => {
                        assert(b.wire() == "ORG_CHARGE_BACK_DISPUTED"@);
                        assert("SAPIN_LAW_FRENCH_BIZ_UNKNOWN"@.len() != "ORG_CHARGE_BACK_DISPUTED"@.len());
                    },
                    CampaignServingStateReason::PAUSED_BY_SYSTEM => {
                        assert(b.wire() == "PAUSED_BY_SYSTEM"@);
                        assert("SAPIN_LAW_FRENCH_BIZ_UNKNOWN"@.len() != "PAUSED_BY_SYSTEM"@.len());
                    },
                    CampaignServingStateReason::LOC_EXHAUSTED => {
                        assert(b.wire() == "LOC_EXHAUSTED"@);
                        assert("SAPIN_LAW_FRENCH_BIZ_UNKNOWN"@.len() != "LOC_EXHAUSTED"@.len());
                    },
                    CampaignServingStateReason::TAX_VERIFICATION_PENDING => {
                        assert(b.wire() == "TAX_VERIFICATION_PENDING"@);
                        assert("SAPIN_LAW_FRENCH_BIZ_UNKNOWN"@.len() != "TAX_VERIFICATION_PENDING"@.len());
                    },
                    CampaignServingStateReason::SAPIN_LAW_AGENT_UNKNOWN => {
                        assert(b.wire() == "SAPIN_LAW_AGENT_UNKNOWN"@);
                        assert("SAPIN_LAW_FRENCH_BIZ_UNKNOWN"@.len() != "SAPIN_LAW_AGENT_UNKNOWN"@.len());
                    },
                    CampaignServingStateReason::SAPIN_LAW_FRENCH_BIZ_UNKNOWN => {
                        assert(b.wire() == "SAPIN_LAW_FRENCH_BIZ_UNKNOWN"@);
                    },
                    CampaignServingStateReason::SAPIN_LAW_FRENCH_BIZ => {
                        assert(b.wire() == "SAPIN_LAW_FRENCH_BIZ"@);
                        assert("SAPIN_LAW_FRENCH_BIZ_UNKNOWN"@.len() != "SAPIN_LAW_FRENCH_BIZ"@.len());
                    },
                    CampaignServingStateReason::NO_ELIGIBLE_COUNTRIES => {
                        assert(b.wire() == "NO_ELIGIBLE_COUNTRIES"@);
                        assert("SAPIN_LAW_FRENCH_BIZ_UNKNOWN"@.len() != "NO_ELIGIBLE_COUNTRIES"@.len());
                    },
                    CampaignServingStateReason::AD_GROUP_MISSING => {
                        assert(b.wire() == "AD_GROUP_MISSING"@);
                        assert("SAPIN_LAW_FRENCH_BIZ_UNKNOWN"@.len() != "AD_GROUP_MISSING"@.len());
                    },
                }
            },
            CampaignServingStateReason::SAPIN_LAW_FRENCH_BIZ => {
                assert(a.wire() == "SAPIN_LAW_FRENCH_BIZ"@);
                match b {
                    CampaignServingStateReason::NO_PAYMENT_METHOD_ON_FILE => {
                        assert(b.wire() == "NO_PAYMENT_METHOD_ON_FILE"@);
                        assert("SAPIN_LAW_FRENCH_BIZ"@.len() != "NO_PAYMENT_METHOD_ON_FILE"@.len());
                    },
                    CampaignServingStateReason::MISSING_BO_OR_INVOICING_FIELDS => {
                        assert(b.wire() == "MISSING_BO_OR_INVOICING_FIELDS"@);
                        assert("SAPIN_LAW_FRENCH_BIZ"@.len() != "MISSING_BO_OR_INVOICING_FIELDS"@.len());
                    },
                    CampaignServingStateReason::PAUSED_BY_USER => {
                        assert(b.wire() == "PAUSED_BY_USER"@);
                        assert("SAPIN_LAW_FRENCH_BIZ"@.len() != "PAUSED_BY_USER"@.len());
                    },
                    CampaignServingStateReason::DELETED_BY_USER => {
                        assert(b.wire() == "DELETED_BY_USER"@);
                        assert("SAPIN_LAW_FRENCH_BIZ"@.len() != "DELETED_BY_USER"@.len());
                    },
                    CampaignServingStateReason::CAMPAIGN_END_DATE_REACHED => {
                        assert(b.wire() == "CAMPAIGN_END_DATE_REACHED"@);
                        assert("SAPIN_LAW_FRENCH_BIZ"@.len() != "CAMPAIGN_END_DATE_REACHED"@.len());
                    },
                    CampaignServingStateReason::CAMPAIGN_START_DATE_IN_FUTURE => {
                        assert(b.wire() == "CAMPAIGN_START_DATE_IN_FUTURE"@);
                        assert("SAPIN_LAW_FRENCH_BIZ"@.len() != "CAMPAIGN_START_DATE_IN_FUTURE"@.len());
                    },
                    CampaignServingStateReason::DAILY_CAP_EXHAUSTED => {
                        assert(b.wire() == "DAILY_CAP_EXHAUSTED"@);
                        assert("SAPIN_LAW_FRENCH_BIZ"@.len() != "DAILY_CAP_EXHAUSTED"@.len());
                    },
                    CampaignServingStateReason::TOTAL_BUDGET_EXHAUSTED => {
                        assert(b.wire() == "TOTAL_BUDGET_EXHAUSTED"@);
                        assert("SAPIN_LAW_FRENCH_BIZ"@.len() != "TOTAL_BUDGET_EXHAUSTED"@.len());
                    },
                    CampaignServingStateReason::CREDIT_CARD_DECLINED => {
                        assert(b.wire() == "CREDIT_CARD_DECLINED"@);
                        assert("SAPIN_LAW_FRENCH_BIZ"@[0] != "CREDIT_CARD_DECLINED"@[0]);
                    },
                    CampaignServingStateReason::APP_NOT_ELIGIBLE => {
                        assert(b.wire() == "APP_NOT_ELIGIBLE"@);
                        assert("SAPIN_LAW_FRENCH_BIZ"@.len() != "APP_NOT_ELIGIBLE"@.len());
                    },
                    CampaignServingStateReason::APP_NOT_ELIGIBLE_SEARCHADS => {
                        assert(b.wire() == "APP_NOT_ELIGIBLE_SEARCHADS"@);
                        assert("SAPIN_LAW_FRENCH_BIZ"@.len() != "APP_NOT_ELIGIBLE_SEARCHADS"@.len());
                    },
                    CampaignServingStateReason::APP_NOT_PUBLISHED_YET => {
                        assert(b.wire() == "APP_NOT_PUBLISHED_YET"@);
                        assert("SAPIN_LAW_FRENCH_BIZ"@.len() != "APP_NOT_PUBLISHED_YET"@.len());
                    },
                    CampaignServingStateReason::BO_START_DATE_IN_FUTURE => {
                        assert(b.wire() == "BO_START_DATE_IN_FUTURE"@);
                        assert("SAPIN_LAW_FRENCH_BIZ"@.len() != "BO_START_DATE_IN_FUTURE"@.len());
                    },
                    CampaignServingStateReason::BO_END_DATE_REACHED => {
                        assert(b.wire() == "BO_END_DATE_REACHED"@);
                        assert("SAPIN_LAW_FRENCH_BIZ"@.len() != "BO_END_DATE_REACHED"@.len());
                    },
                    CampaignServingStateReason::BO_EXHAUSTED => {
                        assert(b.wire() == "BO_EXHAUSTED"@);
                        assert("SAPIN_LAW_FRENCH_BIZ"@.len() != "BO_EXHAUSTED"@.len());
                    },
                    CampaignServingStateReason::ORG_PAYMENT_TYPE_CHANGED => {
                        assert(b.wire() == "ORG_PAYMENT_TYPE_CHANGED"@);
                        assert("SAPIN_LAW_FRENCH_BIZ"@.len() != "ORG_PAYMENT_TYPE_CHANGED"@.len());
                    },
                    CampaignServingStateReason::ORG_SUSPENDED_POLICY_VIOLATION => {
                        assert(b.wire() == "ORG_SUSPENDED_POLICY_VIOLATION"@);
                        assert("SAPIN_LAW_FRENCH_BIZ"@.len() != "ORG_SUSPENDED_POLICY_VIOLATION"@.len());
                    },
                    CampaignServingStateReason::ORG_SUSPENDED_FRAUD => {
                        assert(b.wire() == "ORG_SUSPENDED_FRAUD"@);
                        assert("SAPIN_LAW_FRENCH_BIZ"@.len() != "ORG_SUSPENDED_FRAUD"@.len());
                    },
                    CampaignServingStateReason::ORG_CHARGE_BACK_DISPUTED => {
                        assert(b.wire() == "ORG_CHARGE_BACK_DISPUTED"@);
                        assert("SAPIN_LAW_FRENCH_BIZ"@.len() != "ORG_CHARGE_BACK_DISPUTED"@.len());
                    },
                    CampaignServingStateReason::PAUSED_BY_SYSTEM => {
                        assert(b.wire() == "PAUSED_BY_SYSTEM"@);
                        assert("SAPIN_LAW_FRENCH_BIZ"@.len() != "PAUSED_BY_SYSTEM"@.len());
                    },
                    CampaignServingStateReason::LOC_EXHAUSTED => {
                        assert(b.wire() == "LOC_EXHAUSTED"@);
                        assert("SAPIN_LAW_FRENCH_BIZ"@.len() != "LOC_EXHAUSTED"@.len());
                    },
                    CampaignServingStateReason::TAX_VERIFICATION_PENDING => {
                        assert(b.wire() == "TAX_VERIFICATION_PENDING"@);
                        assert("SAPIN_LAW_FRENCH_BIZ"@.len() != "TAX_VERIFICATION_PENDING"@.len());
                    },
                    CampaignServingStateReason::SAPIN_LAW_AGENT_UNKNOWN => {
                        assert(b.wire() == "SAPIN_LAW_AGENT_UNKNOWN"@);
                        assert("SAPIN_LAW_FRENCH_BIZ"@.len() != "SAPIN_LAW_AGENT_UNKNOWN"@.len());
                    },
                    CampaignServingStateReason::SAPIN_LAW_FRENCH_BIZ_UNKNOWN => {
                        assert(b.wire() == "SAPIN_LAW_FRENCH_BIZ_UNKNOWN"@);
                        assert("SAPIN_LAW_FRENCH_BIZ"@.len() != "SAPIN_LAW_FRENCH_BIZ_UNKNOWN"@.len());
                    },
                    CampaignServingStateReason::SAPIN_LAW_FRENCH_BIZ => {
                        assert(b.wire() == "SAPIN_LAW_FRENCH_BIZ"@);
                    },
                    CampaignServingStateReason::NO_ELIGIBLE_COUNTRIES => {
                        assert(b.wire() == "NO_ELIGIBLE_COUNTRIES"@);
                        assert("SAPIN_LAW_FRENCH_BIZ"@.len() != "NO_ELIGIBLE_COUNTRIES"@.len());
                    },
                    CampaignServingStateReason::AD_GROUP_MISSING => {
                        assert(b.wire() == "AD_GROUP_MISSING"@);
                        assert("SAPIN_LAW_FRENCH_BIZ"@.len() != "AD_GROUP_MISSING"@.len());
                    },
                }
            },
            CampaignServingStateReason::NO_ELIGIBLE_COUNTRIES => {
                assert(a.wire() == "NO_ELIGIBLE_COUNTRIES"@);
                match b {
                    CampaignServingStateReason::NO_PAYMENT_METHOD_ON_FILE => {
                        assert(b.wire() == "NO_PAYMENT_METHOD_ON_FILE"@);
                        assert("NO_ELIGIBLE_COUNTRIES"@.len() != "NO_PAYMENT_METHOD_ON_FILE"@.len());
                    },
                    CampaignServingStateReason::MISSING_BO_OR_INVOICING_FIELDS => {
                        assert(b.wire() == "MISSING_BO_OR_INVOICING_FIELDS"@);
                        assert("NO_ELIGIBLE_COUNTRIES"@.len() != "MISSING_BO_OR_INVOICING_FIELDS"@.len());
                    },
                    CampaignServingStateReason::PAUSED_BY_USER => {
                        assert(b.wire() == "PAUSED_BY_USER"@);
                        assert("NO_ELIGIBLE_COUNTRIES"@.len() != "PAUSED_BY_USER"@.len());
                    },
                    CampaignServingStateReason::DELETED_BY_USER => {
                        assert(b.wire() == "DELETED_BY_USER"@);
                        assert("NO_ELIGIBLE_COUNTRIES"@.len() != "DELETED_BY_USER"@.len());
                    },
                    CampaignServingStateReason::CAMPAIGN_END_DATE_REACHED => {
                        assert(b.wire() == "CAMPAIGN_END_DATE_REACHED"@);
                        assert("NO_ELIGIBLE_COUNTRIES"@.len() != "CAMPAIGN_END_DATE_REACHED"@.len());
                    },
                    CampaignServingStateReason::CAMPAIGN_START_DATE_IN_FUTURE => {
                        assert(b.wire() == "CAMPAIGN_START_DATE_IN_FUTURE"@);
                        assert("NO_ELIGIBLE_COUNTRIES"@.len() != "CAMPAIGN_START_DATE_IN_FUTURE"@.len());
                    },
                    CampaignServingStateReason::DAILY_CAP_EXHAUSTED => {
                        assert(b.wire() == "DAILY_CAP_EXHAUSTED"@);
                        assert("NO_ELIGIBLE_COUNTRIES"@.len() != "DAILY_CAP_EXHAUSTED"@.len());
                    },
                    CampaignServingStateReason::TOTAL_BUDGET_EXHAUSTED => {
                        assert(b.wire() == "TOTAL_BUDGET_EXHAUSTED"@);
                        assert("NO_ELIGIBLE_COUNTRIES"@.len() != "TOTAL_BUDGET_EXHAUSTED"@.len());
                    },
                    CampaignServingStateReason::CREDIT_CARD_DECLINED => {
                        assert(b.wire() == "CREDIT_CARD_DECLINED"@);
                        assert("NO_ELIGIBLE_COUNTRIES"@.len() != "CREDIT_CARD_DECLINED"@.len());
                    },
                    CampaignServingStateReason::APP_NOT_ELIGIBLE => {
                        assert(b.wire() == "APP_NOT_ELIGIBLE"@);
                        assert("NO_ELIGIBLE_COUNTRIES"@.len() != "APP_NOT_ELIGIBLE"@.len());
                    },
                    CampaignServingStateReason::APP_NOT_ELIGIBLE_SEARCHADS => {
                        assert(b.wire() == "APP_NOT_ELIGIBLE_SEARCHADS"@);
                        assert("NO_ELIGIBLE_COUNTRIES"@.len() != "APP_NOT_ELIGIBLE_SEARCHADS"@.len());
                    },
                    CampaignServingStateReason::APP_NOT_PUBLISHED_YET => {
                        assert(b.wire() == "APP_NOT_PUBLISHED_YET"@);
                        assert("NO_ELIGIBLE_COUNTRIES"@[0] != "APP_NOT_PUBLISHED_YET"@[0]);
                    },
                    CampaignServingStateReason::BO_START_DATE_IN_FUTURE => {
                        assert(b.wire() == "BO_START_DATE_IN_FUTURE"@);
                        assert("NO_ELIGIBLE_COUNTRIES"@.len() != "BO_START_DATE_IN_FUTURE"@.len());
                    },
                    CampaignServingStateReason::BO_END_DATE_REACHED => {
                        assert(b.wire() == "BO_END_DATE_REACHED"@);
                        assert("NO_ELIGIBLE_COUNTRIES"@.len() != "BO_END_DATE_REACHED"@.len());
                    },
                    CampaignServingStateReason::BO_EXHAUSTED => {
                        assert(b.wire() == "BO_EXHAUSTED"@);
                        assert("NO_ELIGIBLE_COUNTRIES"@.len() != "BO_EXHAUSTED"@.len());
                    },
                    CampaignServingStateReason::ORG_PAYMENT_TYPE_CHANGED => {
                        assert(b.wire() == "ORG_PAYMENT_TYPE_CHANGED"@);
                        assert("NO_ELIGIBLE_COUNTRIES"@.len() != "ORG_PAYMENT_TYPE_CHANGED"@.len());
                    },
                    CampaignServingStateReason::ORG_SUSPENDED_POLICY_VIOLATION => {
                        assert(b.wire() == "ORG_SUSPENDED_POLICY_VIOLATION"@);
                        assert("NO_ELIGIBLE_COUNTRIES"@.len() != "ORG_SUSPENDED_POLICY_VIOLATION"@.len());
                    },
                    CampaignServingStateReason::ORG_SUSPENDED_FRAUD => {
                        assert(b.wire() == "ORG_SUSPENDED_FRAUD"@);
                        assert("NO_ELIGIBLE_COUNTRIES"@.len() != "ORG_SUSPENDED_FRAUD"@.len());
                    },
                    CampaignServingStateReason::ORG_CHARGE_BACK_DISPUTED => {
                        assert(b.wire() == "ORG_CHARGE_BACK_DISPUTED"@);
                        assert("NO_ELIGIBLE_COUNTRIES"@.len() != "ORG_CHARGE_BACK_DISPUTED"@.len());
                    },
                    CampaignServingStateReason::PAUSED_BY_SYSTEM => {
                        assert(b.wire() == "PAUSED_BY_SYSTEM"@);
                        assert("NO_ELIGIBLE_COUNTRIES"@.len() != "PAUSED_BY_SYSTEM"@.len());
                    },
                    CampaignServingStateReason::LOC_EXHAUSTED => {
                        assert(b.wire() == "LOC_EXHAUSTED"@);
                        assert("NO_ELIGIBLE_COUNTRIES"@.len() != "LOC_EXHAUSTED"@.len());
                    },
                    CampaignServingStateReason::TAX_VERIFICATION_PENDING => {
                        assert(b.wire() == "TAX_VERIFICATION_PENDING"@);
                        assert("NO_ELIGIBLE_COUNTRIES"@.len() != "TAX_VERIFICATION_PENDING"@.len());
                    },
                    CampaignServingStateReason::SAPIN_LAW_AGENT_UNKNOWN => {
                        assert(b.wire() == "SAPIN_LAW_AGENT_UNKNOWN"@);
                        assert("NO_ELIGIBLE_COUNTRIES"@.len() != "SAPIN_LAW_AGENT_UNKNOWN"@.len());
                    },
                    CampaignServingStateReason::SAPIN_LAW_FRENCH_BIZ_UNKNOWN => {
                        assert(b.wire() == "SAPIN_LAW_FRENCH_BIZ_UNKNOWN"@);
                        assert("NO_ELIGIBLE_COUNTRIES"@.len() != "SAPIN_LAW_FRENCH_BIZ_UNKNOWN"@.len());
                    },
                    CampaignServingStateReason::SAPIN_LAW_FRENCH_BIZ => {
                        assert(b.wire() == "SAPIN_LAW_FRENCH_BIZ"@);
                        assert("NO_ELIGIBLE_COUNTRIES"@.len() != "SAPIN_LAW_FRENCH_BIZ"@.len());
                    },
                    CampaignServingStateReason::NO_ELIGIBLE_COUNTRIES => {
                        assert(b.wire() == "NO_ELIGIBLE_COUNTRIES"@);
                    },
                    CampaignServingStateReason::AD_GROUP_MISSING => {
                        assert(b.wire() == "AD_GROUP_MISSING"@);
                        assert("NO_ELIGIBLE_COUNTRIES"@.len() != "AD_GROUP_MISSING"@.len());
                    },
                }
            },
            CampaignServingStateReason::AD_GROUP_MISSING => {
                assert(a.wire() == "AD_GROUP_MISSING"@);
                match b {
                    CampaignServingStateReason::NO_PAYMENT_METHOD_ON_FILE => {
                        assert(b.wire() == "NO_PAYMENT_METHOD_ON_FILE"@);
                        assert("AD_GROUP_MISSING"@.len() != "NO_PAYMENT_METHOD_ON_FILE"@.len());
                    },
                    CampaignServingStateReason::MISSING_BO_OR_INVOICING_FIELDS => {
                        assert(b.wire() == "MISSING_BO_OR_INVOICING_FIELDS"@);
                        assert("AD_GROUP_MISSING"@.len() != "MISSING_BO_OR_INVOICING_FIELDS"@.len());
                    },
                    CampaignServingStateReason::PAUSED_BY_USER => {
                        assert(b.wire() == "PAUSED_BY_USER"@);
                        assert("AD_GROUP_MISSING"@.len() != "PAUSED_BY_USER"@.len());
                    },
                    CampaignServingStateReason::DELETED_BY_USER => {
                        assert(b.wire() == "DELETED_BY_USER"@);
                        assert("AD_GROUP_MISSING"@.len() != "DELETED_BY_USER"@.len());
                    },
                    CampaignServingStateReason::CAMPAIGN_END_DATE_REACHED => {
                        assert(b.wire() == "CAMPAIGN_END_DATE_REACHED"@);
                        assert("AD_GROUP_MISSING"@.len() != "CAMPAIGN_END_DATE_REACHED"@.len());
                    },
                    CampaignServingStateReason::CAMPAIGN_START_DATE_IN_FUTURE => {
                        assert(b.wire() == "CAMPAIGN_START_DATE_IN_FUTURE"@);
                        assert("AD_GROUP_MISSING"@.len() != "CAMPAIGN_START_DATE_IN_FUTURE"@.len());
                    },
                    CampaignServingStateReason::DAILY_CAP_EXHAUSTED => {
                        assert(b.wire() == "DAILY_CAP_EXHAUSTED"@);
                        assert("AD_GROUP_MISSING"@.len() != "DAILY_CAP_EXHAUSTED"@.len());
                    },
                    CampaignServingStateReason::TOTAL_BUDGET_EXHAUSTED => {
                        assert(b.wire() == "TOTAL_BUDGET_EXHAUSTED"@);
                        assert("AD_GROUP_MISSING"@.len() != "TOTAL_BUDGET_EXHAUSTED"@.len());
                    },
                    CampaignServingStateReason::CREDIT_CARD_DECLINED => {
                        assert(b.wire() == "CREDIT_CARD_DECLINED"@);
                        assert("AD_GROUP_MISSING"@.len() != "CREDIT_CARD_DECLINED"@.len());
                    },
                    CampaignServingStateReason::APP_NOT_ELIGIBLE => {
                        assert(b.wire() == "APP_NOT_ELIGIBLE"@);
                        assert("AD_GROUP_MISSING"@[1] != "APP_NOT_ELIGIBLE"@[1]);
                    },
                    CampaignServingStateReason::APP_NOT_ELIGIBLE_SEARCHADS => {
                        assert(b.wire() == "APP_NOT_ELIGIBLE_SEARCHADS"@);
                        assert("AD_GROUP_MISSING"@.len() != "APP_NOT_ELIGIBLE_SEARCHADS"@.len());
                    },
                    CampaignServingStateReason::APP_NOT_PUBLISHED_YET => {
                        assert(b.wire() == "APP_NOT_PUBLISHED_YET"@);
                        assert("AD_GROUP_MISSING"@.len() != "APP_NOT_PUBLISHED_YET"@.len());
                    },
                    CampaignServingStateReason::BO_START_DATE_IN_FUTURE => {
                        assert(b.wire() == "BO_START_DATE_IN_FUTURE"@);
                        assert("AD_GROUP_MISSING"@.len() != "BO_START_DATE_IN_FUTURE"@.len());
                    },
                    CampaignServingStateReason::BO_END_DATE_REACHED => {
                        assert(b.wire() == "BO_END_DATE_REACHED"@);
                        assert("AD_GROUP_MISSING"@.len() != "BO_END_DATE_REACHED"@.len());
                    },
                    CampaignServingStateReason::BO_EXHAUSTED => {
                        assert(b.wire() == "BO_EXHAUSTED"@);
                        assert("AD_GROUP_MISSING"@.len() != "BO_EXHAUSTED"@.len());
                    },
                    CampaignServingStateReason::ORG_PAYMENT_TYPE_CHANGED => {
                        assert(b.wire() == "ORG_PAYMENT_TYPE_CHANGED"@);
                        assert("AD_GROUP_MISSING"@.len() != "ORG_PAYMENT_TYPE_CHANGED"@.len());
                    },
                    CampaignServingStateReason::ORG_SUSPENDED_POLICY_VIOLATION => {
                        assert(b.wire() == "ORG_SUSPENDED_POLICY_VIOLATION"@);
                        assert("AD_GROUP_MISSING"@.len() != "ORG_SUSPENDED_POLICY_VIOLATION"@.len());
                    },
                    CampaignServingStateReason::ORG_SUSPENDED_FRAUD => {
                        assert(b.wire() == "ORG_SUSPENDED_FRAUD"@);
                        assert("AD_GROUP_MISSING"@.len() != "ORG_SUSPENDED_FRAUD"@.len());
                    },
                    CampaignServingStateReason::ORG_CHARGE_BACK_DISPUTED => {
                        assert(b.wire() == "ORG_CHARGE_BACK_DISPUTED"@);
                        assert("AD_GROUP_MISSING"@.len() != "ORG_CHARGE_BACK_DISPUTED"@.len());
                    },
                    CampaignServingStateReason::PAUSED_BY_SYSTEM => {
                        assert(b.wire() == "PAUSED_BY_SYSTEM"@);
                        assert("AD_GROUP_MISSING"@[0] != "PAUSED_BY_SYSTEM"@[0]);
                    },
                    CampaignServingStateReason::LOC_EXHAUSTED => {
                        assert(b.wire() == "LOC_EXHAUSTED"@);
                        assert("AD_GROUP_MISSING"@.len() != "LOC_EXHAUSTED"@.len());
                    },
                    CampaignServingStateReason::TAX_VERIFICATION_PENDING => {
                        assert(b.wire() == "TAX_VERIFICATION_PENDING"@);
                        assert("AD_GROUP_MISSING"@.len() != "TAX_VERIFICATION_PENDING"@.len());
                    },
                    CampaignServingStateReason::SAPIN_LAW_AGENT_UNKNOWN => {
                        assert(b.wire() == "SAPIN_LAW_AGENT_UNKNOWN"@);
                        assert("AD_GROUP_MISSING"@.len() != "SAPIN_LAW_AGENT_UNKNOWN"@.len());
                    },
                    CampaignServingStateReason::SAPIN_LAW_FRENCH_BIZ_UNKNOWN => {
                        assert(b.wire() == "SAPIN_LAW_FRENCH_BIZ_UNKNOWN"@);
                        assert("AD_GROUP_MISSING"@.len() != "SAPIN_LAW_FRENCH_BIZ_UNKNOWN"@.len());
                    },
                    CampaignServingStateReason::SAPIN_LAW_FRENCH_BIZ => {
                        assert(b.wire() == "SAPIN_LAW_FRENCH_BIZ"@);
                        assert("AD_GROUP_MISSING"@.len() != "SAPIN_LAW_FRENCH_BIZ"@.len());
                    },
                    CampaignServingStateReason::NO_ELIGIBLE_COUNTRIES => {
                        assert(b.wire() == "NO_ELIGIBLE_COUNTRIES"@);
                        assert("AD_GROUP_MISSING"@.len() != "NO_ELIGIBLE_COUNTRIES"@.len());
                    },
                    CampaignServingStateReason::AD_GROUP_MISSING => {
                        assert(b.wire() == "AD_GROUP_MISSING"@);
                    },
                }
            },
        }
    }

    fn match_wire(s: &str) -> (r: Option<Self>) {
        if str_eq(s, "NO_PAYMENT_METHOD_ON_FILE") {
            Some(CampaignServingStateReason::NO_PAYMENT_METHOD_ON_FILE)
        } else if str_eq(s, "MISSING_BO_OR_INVOICING_FIELDS") {
            Some(CampaignServingStateReason::MISSING_BO_OR_INVOICING_FIELDS)
        } else if str_eq(s, "PAUSED_BY_USER") {
            Some(CampaignServingStateReason::PAUSED_BY_USER)
        } else if str_eq(s, "DELETED_BY_USER") {
            Some(CampaignServingStateReason::DELETED_BY_USER)
        } else if str_eq(s, "CAMPAIGN_END_DATE_REACHED") {
            Some(CampaignServingStateReason::CAMPAIGN_END_DATE_REACHED)
        } else if str_eq(s, "CAMPAIGN_START_DATE_IN_FUTURE") {
            Some(CampaignServingStateReason::CAMPAIGN_START_DATE_IN_FUTURE)
        } else if str_eq(s, "DAILY_CAP_EXHAUSTED") {
            Some(CampaignServingStateReason::DAILY_CAP_EXHAUSTED)
        } else if str_eq(s, "TOTAL_BUDGET_EXHAUSTED") {
            Some(CampaignServingStateReason::TOTAL_BUDGET_EXHAUSTED)
        } else if str_eq(s, "CREDIT_CARD_DECLINED") {
            Some(CampaignServingStateReason::CREDIT_CARD_DECLINED)
        } else if str_eq(s, "APP_NOT_ELIGIBLE") {
            Some(CampaignServingStateReason::APP_NOT_ELIGIBLE)
        } else if str_eq(s, "APP_NOT_ELIGIBLE_SEARCHADS") {
            Some(CampaignServingStateReason::APP_NOT_ELIGIBLE_SEARCHADS)
        } else if str_eq(s, "APP_NOT_PUBLISHED_YET") {
            Some(CampaignServingStateReason::APP_NOT_PUBLISHED_YET)
        } else if str_eq(s, "BO_START_DATE_IN_FUTURE") {
            Some(CampaignServingStateReason::BO_START_DATE_IN_FUTURE)
        } else if str_eq(s, "BO_END_DATE_REACHED") {
            Some(CampaignServingStateReason::BO_END_DATE_REACHED)
        } else if str_eq(s, "BO_EXHAUSTED") {
            Some(CampaignServingStateReason::BO_EXHAUSTED)
        } else if str_eq(s, "ORG_PAYMENT_TYPE_CHANGED") {
            Some(CampaignServingStateReason::ORG_PAYMENT_TYPE_CHANGED)
        } else if str_eq(s, "ORG_SUSPENDED_POLICY_VIOLATION") {
            Some(CampaignServingStateReason::ORG_SUSPENDED_POLICY_VIOLATION)
        } else if str_eq(s, "ORG_SUSPENDED_FRAUD") {
            Some(CampaignServingStateReason::ORG_SUSPENDED_FRAUD)
        } else if str_eq(s, "ORG_CHARGE_BACK_DISPUTED") {
            Some(CampaignServingStateReason::ORG_CHARGE_BACK_DISPUTED)
        } else if str_eq(s, "PAUSED_BY_SYSTEM") {
            Some(CampaignServingStateReason::PAUSED_BY_SYSTEM)
        } else if str_eq(s, "LOC_EXHAUSTED") {
            Some(CampaignServingStateReason::LOC_EXHAUSTED)
        } else if str_eq(s, "TAX_VERIFICATION_PENDING") {
            Some(CampaignServingStateReason::TAX_VERIFICATION_PENDING)
        } else if str_eq(s, "SAPIN_LAW_AGENT_UNKNOWN") {
            Some(CampaignServingStateReason::SAPIN_LAW_AGENT_UNKNOWN)
        } else if str_eq(s, "SAPIN_LAW_FRENCH_BIZ_UNKNOWN") {
            Some(CampaignServingStateReason::SAPIN_LAW_FRENCH_BIZ_UNKNOWN)
        } else if str_eq(s, "SAPIN_LAW_FRENCH_BIZ") {
            Some(CampaignServingStateReason::SAPIN_LAW_FRENCH_BIZ)
        } else if str_eq(s, "NO_ELIGIBLE_COUNTRIES") {
            Some(CampaignServingStateReason::NO_ELIGIBLE_COUNTRIES)
        } else if str_eq(s, "AD_GROUP_MISSING") {
            Some(CampaignServingStateReason::AD_GROUP_MISSING)
        } else {
            None
        }
    }

    fn wire_str(&self) -> (r: &'static str) {
        match self {
            CampaignServingStateReason::NO_PAYMENT_METHOD_ON_FILE => "NO_PAYMENT_METHOD_ON_FILE",
            CampaignServingStateReason::MISSING_BO_OR_INVOICING_FIELDS => "MISSING_BO_OR_INVOICING_FIELDS",
            CampaignServingStateReason::PAUSED_BY_USER => "PAUSED_BY_USER",
            CampaignServingStateReason::DELETED_BY_USER => "DELETED_BY_USER",
            CampaignServingStateReason::CAMPAIGN_END_DATE_REACHED => "CAMPAIGN_END_DATE_REACHED",
            CampaignServingStateReason::CAMPAIGN_START_DATE_IN_FUTURE => "CAMPAIGN_START_DATE_IN_FUTURE",
            CampaignServingStateReason::DAILY_CAP_EXHAUSTED => "DAILY_CAP_EXHAUSTED",
            CampaignServingStateReason::TOTAL_BUDGET_EXHAUSTED => "TOTAL_BUDGET_EXHAUSTED",
            CampaignServingStateReason::CREDIT_CARD_DECLINED => "CREDIT_CARD_DECLINED",
            CampaignServingStateReason::APP_NOT_ELIGIBLE => "APP_NOT_ELIGIBLE",
            CampaignServingStateReason::APP_NOT_ELIGIBLE_SEARCHADS => "APP_NOT_ELIGIBLE_SEARCHADS",
            CampaignServingStateReason::APP_NOT_PUBLISHED_YET => "APP_NOT_PUBLISHED_YET",
            CampaignServingStateReason::BO_START_DATE_IN_FUTURE => "BO_START_DATE_IN_FUTURE",
            CampaignServingStateReason::BO_END_DATE_REACHED => "BO_END_DATE_REACHED",
            CampaignServingStateReason::BO_EXHAUSTED => "BO_EXHAUSTED",
            CampaignServingStateReason::ORG_PAYMENT_TYPE_CHANGED => "ORG_PAYMENT_TYPE_CHANGED",
            CampaignServingStateReason::ORG_SUSPENDED_POLICY_VIOLATION => "ORG_SUSPENDED_POLICY_VIOLATION",
            CampaignServingStateReason::ORG_SUSPENDED_FRAUD => "ORG_SUSPENDED_FRAUD",
            CampaignServingStateReason::ORG_CHARGE_BACK_DISPUTED => "ORG_CHARGE_BACK_DISPUTED",
            CampaignServingStateReason::PAUSED_BY_SYSTEM => "PAUSED_BY_SYSTEM",
            CampaignServingStateReason::LOC_EXHAUSTED => "LOC_EXHAUSTED",
            CampaignServingStateReason::TAX_VERIFICATION_PENDING => "TAX_VERIFICATION_PENDING",
            CampaignServingStateReason::SAPIN_LAW_AGENT_UNKNOWN => "SAPIN_LAW_AGENT_UNKNOWN",
            CampaignServingStateReason::SAPIN_LAW_FRENCH_BIZ_UNKNOWN => "SAPIN_LAW_FRENCH_BIZ_UNKNOWN",
            CampaignServingStateReason::SAPIN_LAW_FRENCH_BIZ => "SAPIN_LAW_FRENCH_BIZ",
            CampaignServingStateReason::NO_ELIGIBLE_COUNTRIES => "NO_ELIGIBLE_COUNTRIES",
            CampaignServingStateReason::AD_GROUP_MISSING => "AD_GROUP_MISSING",
        }
    }

    fn same(&self, other: &Self) -> (r: bool) {
        self == other
    }
}

/// Whether a campaign is currently serving.
#[allow(non_camel_case_types)]
#[derive(Clone, Copy, Debug, PartialEq, Eq, Structural)]
pub enum CampaignServingStatus {
    RUNNING,
    NOT_RUNNING,
}

impl WireEnum for CampaignServingStatus {
    open spec fn wire(self) -> Seq<char> {
        match self {
            CampaignServingStatus::RUNNING => "RUNNING"@,
            CampaignServingStatus::NOT_RUNNING => "NOT_RUNNING"@,
        }
    }

    proof fn wire_injective(a: Self, b: Self) {
        reveal_strlit("RUNNING");
        reveal_strlit("NOT_RUNNING");
        match a {
            CampaignServingStatus::RUNNING => {
                assert(a.wire() == "RUNNING"@);
                match b {
                    CampaignServingStatus::RUNNING => {
                        assert(b.wire() == "RUNNING"@);
                    },
                    CampaignServingStatus::NOT_RUNNING => {
                        assert(b.wire() == "NOT_RUNNING"@);
                        assert("RUNNING"@.len() != "NOT_RUNNING"@.len());
                    },
                }
            },
            CampaignServingStatus::NOT_RUNNING => {
                assert(a.wire() == "NOT_RUNNING"@);
                match b {
                    CampaignServingStatus::RUNNING => {
                        assert(b.wire() == "RUNNING"@);
                        assert("NOT_RUNNING"@.len() != "RUNNING"@.len());
                    },
                    CampaignServingStatus::NOT_RUNNING => {
                        assert(b.wire() == "NOT_RUNNING"@);
                    },
                }
            },
        }
    }

    fn match_wire(s: &str) -> (r: Option<Self>) {
        if str_eq(s, "RUNNING") {
            Some(CampaignServingStatus::RUNNING)
        } else if str_eq(s, "NOT_RUNNING") {
            Some(CampaignServingStatus::NOT_RUNNING)
        } else {
            None
        }
    }

    fn wire_str(&self) -> (r: &'static str) {
        match self {
            CampaignServingStatus::RUNNING => "RUNNING",
            CampaignServingStatus::NOT_RUNNING => "NOT_RUNNING",
        }
    }

    fn same(&self, other: &Self) -> (r: bool) {
        self == other
    }
}

/// The user-controlled status of a campaign.
#[allow(non_camel_case_types)]
#[derive(Clone, Copy, Debug, PartialEq, Eq, Structural)]
pub enum CampaignStatus {
    ENABLED,
    PAUSED,
}

impl WireEnum for CampaignStatus {
    open spec fn wire(self) -> Seq<char> {
        match self {
            CampaignStatus::ENABLED => "ENABLED"@,
            CampaignStatus::PAUSED => "PAUSED"@,
        }
    }

    proof fn wire_injective(a: Self, b: Self) {
        reveal_strlit("ENABLED");
        reveal_strlit("PAUSED");
        match a {
            CampaignStatus::ENABLED => {
                assert(a.wire() == "ENABLED"@);
                match b {
                    CampaignStatus::ENABLED => {
                        assert(b.wire() == "ENABLED"@);
                    },
                    CampaignStatus::PAUSED => {
                        assert(b.wire() == "PAUSED"@);
                        assert("ENABLED"@.len() != "PAUSED"@.len());
                    },
                }
            },
            CampaignStatus::PAUSED => {
                assert(a.wire() == "PAUSED"@);
                match b {
                    CampaignStatus::ENABLED => {
                        assert(b.wire() == "ENABLED"@);
                        assert("PAUSED"@.len() != "ENABLED"@.len());
                    },
                    CampaignStatus::PAUSED => {
                        assert(b.wire() == "PAUSED"@);
                    },
                }
            },
        }
    }

    fn match_wire(s: &str) -> (r: Option<Self>) {
        if str_eq(s, "ENABLED") {
            Some(CampaignStatus::ENABLED)
        } else if str_eq(s, "PAUSED") {
            Some(CampaignStatus::PAUSED)
        } else {
            None
        }
    }

    fn wire_str(&self) -> (r: &'static str) {
        match self {
            CampaignStatus::ENABLED => "ENABLED",
            CampaignStatus::PAUSED => "PAUSED",
        }
    }

    fn same(&self, other: &Self) -> (r: bool) {
        self == other
    }
}

/// Where a campaign's ads can appear.
#[allow(non_camel_case_types)]
#[derive(Clone, Copy, Debug, PartialEq, Eq, Structural)]
pub enum CampaignSupplySource {
    APPSTORE_SEARCH_RESULTS,
    NEWS,
    STOCKS,
}

impl WireEnum for CampaignSupplySource {
    open spec fn wire(self) -> Seq<char> {
        match self {
            CampaignSupplySource::APPSTORE_SEARCH_RESULTS => "APPSTORE_SEARCH_RESULTS"@,
            CampaignSupplySource::NEWS => "NEWS"@,
            CampaignSupplySource::STOCKS => "STOCKS"@,
        }
    }

    proof fn wire_injective(a: Self, b: Self) {
        reveal_strlit("APPSTORE_SEARCH_RESULTS");
        reveal_strlit("NEWS");
        reveal_strlit("STOCKS");
        match a {
            CampaignSupplySource::APPSTORE_SEARCH_RESULTS => {
                assert(a.wire() == "APPSTORE_SEARCH_RESULTS"@);
                match b {
                    CampaignSupplySource::APPSTORE_SEARCH_RESULTS => {
                        assert(b.wire() == "APPSTORE_SEARCH_RESULTS"@);
                    },
                    CampaignSupplySource::NEWS => {
                        assert(b.wire() == "NEWS"@);
                        assert("APPSTORE_SEARCH_RESULTS"@.len() != "NEWS"@.len());
                    },
                    CampaignSupplySource::STOCKS => {
                        assert(b.wire() == "STOCKS"@);
                        assert("APPSTORE_SEARCH_RESULTS"@.len() != "STOCKS"@.len());
                    },
                }
            },
            CampaignSupplySource::NEWS => {
                assert(a.wire() == "NEWS"@);
                match b {
                    CampaignSupplySource::APPSTORE_SEARCH_RESULTS => {
                        assert(b.wire() == "APPSTORE_SEARCH_RESULTS"@);
                        assert("NEWS"@.len() != "APPSTORE_SEARCH_RESULTS"@.len());
                    },
                    CampaignSupplySource::NEWS => {
                        assert(b.wire() == "NEWS"@);
                    },
                    CampaignSupplySource::STOCKS => {
                        assert(b.wire() == "STOCKS"@);
                        assert("NEWS"@.len() != "STOCKS"@.len());
                    },
                }
            },
            CampaignSupplySource::STOCKS => {
                assert(a.wire() == "STOCKS"@);
                match b {
                    CampaignSupplySource::APPSTORE_SEARCH_RESULTS => {
                        assert(b.wire() == "APPSTORE_SEARCH_RESULTS"@);
                        assert("STOCKS"@.len() != "APPSTORE_SEARCH_RESULTS"@.len());
                    },
                    CampaignSupplySource::NEWS => {
                        assert(b.wire() == "NEWS"@);
                        assert("STOCKS"@.len() != "NEWS"@.len());
                    },
                    CampaignSupplySource::STOCKS => {
                        assert(b.wire() == "STOCKS"@);
                    },
                }
            },
        }
    }

    fn match_wire(s: &str) -> (r: Option<Self>) {
        if str_eq(s, "APPSTORE_SEARCH_RESULTS") {
            Some(CampaignSupplySource::APPSTORE_SEARCH_RESULTS)
        } else if str_eq(s, "NEWS") {
            Some(CampaignSupplySource::NEWS)
        } else if str_eq(s, "STOCKS") {
            Some(CampaignSupplySource::STOCKS)
        } else {
            None
        }
    }

    fn wire_str(&self) -> (r: &'static str) {
        match self {
            CampaignSupplySource::APPSTORE_SEARCH_RESULTS => "APPSTORE_SEARCH_RESULTS",
            CampaignSupplySource::NEWS => "NEWS",
            CampaignSupplySource::STOCKS => "STOCKS",
        }
    }

    fn same(&self, other: &Self) -> (r: bool) {
        self == other
    }
}

/// How a reported search term was matched.
#[allow(non_camel_case_types)]
#[derive(Clone, Copy, Debug, PartialEq, Eq, Structural)]
pub enum SearchTermSource {
    AUTO,
    TARGETED,
}

impl WireEnum for SearchTermSource {
    open spec fn wire(self) -> Seq<char> {
        match self {
            SearchTermSource::AUTO => "AUTO"@,
            SearchTermSource::TARGETED => "TARGETED"@,
        }
    }

    proof fn wire_injective(a: Self, b: Self) {
        reveal_strlit("AUTO");
        reveal_strlit("TARGETED");
        match a {
            SearchTermSource::AUTO => {
                assert(a.wire() == "AUTO"@);
                match b {
                    SearchTermSource::AUTO => {
                        assert(b.wire() == "AUTO"@);
                    },
                    SearchTermSource::TARGETED => {
                        assert(b.wire() == "TARGETED"@);
                        assert("AUTO"@.len() != "TARGETED"@.len());
                    },
                }
            },
            SearchTermSource::TARGETED => {
                assert(a.wire() == "TARGETED"@);
                match b {
                    SearchTermSource::AUTO => {
                        assert(b.wire() == "AUTO"@);
                        assert("TARGETED"@.len() != "AUTO"@.len());
                    },
                    SearchTermSource::TARGETED => {
                        assert(b.wire() == "TARGETED"@);
                    },
                }
            },
        }
    }

    fn match_wire(s: &str) -> (r: Option<Self>) {
        if str_eq(s, "AUTO") {
            Some(SearchTermSource::AUTO)
        } else if str_eq(s, "TARGETED") {
            Some(SearchTermSource::TARGETED)
        } else {
            None
        }
    }

    fn wire_str(&self) -> (r: &'static str) {
        match self {
            SearchTermSource::AUTO => "AUTO",
            SearchTermSource::TARGETED => "TARGETED",
        }
    }

    fn same(&self, other: &Self) -> (r: bool) {
        self == other
    }
}

/// The match type of a reported search term.
#[allow(non_camel_case_types)]
#[derive(Clone, Copy, Debug, PartialEq, Eq, Structural)]
pub enum ReportingSearchTermMatchType {
    AUTO,
    EXACT,
    BROAD,
}

impl WireEnum for ReportingSearchTermMatchType {
    open spec fn wire(self) -> Seq<char> {
        match self {
            ReportingSearchTermMatchType::AUTO => "AUTO"@,
            ReportingSearchTermMatchType::EXACT => "EXACT"@,
            ReportingSearchTermMatchType::BROAD => "BROAD"@,
        }
    }

    proof fn wire_injective(a: Self, b: Self) {
        reveal_strlit("AUTO");
        reveal_strlit("EXACT");
        reveal_strlit("BROAD");
        match a {
            ReportingSearchTermMatchType::AUTO => {
                assert(a.wire() == "AUTO"@);
                match b {
                    ReportingSearchTermMatchType::AUTO => {
                        assert(b.wire() == "AUTO"@);
                    },
                    ReportingSearchTermMatchType::EXACT => {
                        assert(b.wire() == "EXACT"@);
                        assert("AUTO"@.len() != "EXACT"@.len());
                    },
                    ReportingSearchTermMatchType::BROAD => {
                        assert(b.wire() == "BROAD"@);
                        assert("AUTO"@.len() != "BROAD"@.len());
                    },
                }
            },
            ReportingSearchTermMatchType::EXACT => {
                assert(a.wire() == "EXACT"@);
                match b {
                    ReportingSearchTermMatchType::AUTO => {
                        assert(b.wire() == "AUTO"@);
                        assert("EXACT"@.len() != "AUTO"@.len());
                    },
                    ReportingSearchTermMatchType::EXACT => {
                        assert(b.wire() == "EXACT"@);
                    },
                    ReportingSearchTermMatchType::BROAD => {
                        assert(b.wire() == "BROAD"@);
                        assert("EXACT"@[0] != "BROAD"@[0]);
                    },
                }
            },
            ReportingSearchTermMatchType::BROAD => {
                assert(a.wire() == "BROAD"@);
                match b {
                    ReportingSearchTermMatchType::AUTO => {
                        assert(b.wire() == "AUTO"@);
                        assert("BROAD"@.len() != "AUTO"@.len());
                    },
                    ReportingSearchTermMatchType::EXACT => {
                        assert(b.wire() == "EXACT"@);
                        assert("BROAD"@[0] != "EXACT"@[0]);
                    },
                    ReportingSearchTermMatchType::BROAD => {
                        assert(b.wire() == "BROAD"@);
                    },
                }
            },
        }
    }

    fn match_wire(s: &str) -> (r: Option<Self>) {
        if str_eq(s, "AUTO") {
            Some(ReportingSearchTermMatchType::AUTO)
        } else if str_eq(s, "EXACT") {
            Some(ReportingSearchTermMatchType::EXACT)
        } else if str_eq(s, "BROAD") {
            Some(ReportingSearchTermMatchType::BROAD)
        } else {
            None
        }
    }

    fn wire_str(&self) -> (r: &'static str) {
        match self {
            ReportingSearchTermMatchType::AUTO => "AUTO",
            ReportingSearchTermMatchType::EXACT => "EXACT",
            ReportingSearchTermMatchType::BROAD => "BROAD",
        }
    }

    fn same(&self, other: &Self) -> (r: bool) {
        self == other
    }
}

/// The payment model of the ordering organization.
#[allow(non_camel_case_types)]
#[derive(Clone, Copy, Debug, PartialEq, Eq, Structural)]
pub enum PaymentModel {
    PAYG,
    LOC,
}

impl WireEnum for PaymentModel {
    open spec fn wire(self) -> Seq<char> {
        match self {
            PaymentModel::PAYG => "PAYG"@,
            PaymentModel::LOC => "LOC"@,
        }
    }

    proof fn wire_injective(a: Self, b: Self) {
        reveal_strlit("PAYG");
        reveal_strlit("LOC");
        match a {
            PaymentModel::PAYG => {
                assert(a.wire() == "PAYG"@);
                match b {
                    PaymentModel::PAYG => {
                        assert(b.wire() == "PAYG"@);
                    },
                    PaymentModel::LOC => {
                        assert(b.wire() == "LOC"@);
                        assert("PAYG"@.len() != "LOC"@.len());
                    },
                }
            },
            PaymentModel::LOC => {
                assert(a.wire() == "LOC"@);
                match b {
                    PaymentModel::PAYG => {
                        assert(b.wire() == "PAYG"@);
                        assert("LOC"@.len() != "PAYG"@.len());
                    },
                    PaymentModel::LOC => {
                        assert(b.wire() == "LOC"@);
                    },
                }
            },
        }
    }

    fn match_wire(s: &str) -> (r: Option<Self>) {
        if str_eq(s, "PAYG") {
            Some(PaymentModel::PAYG)
        } else if str_eq(s, "LOC") {
            Some(PaymentModel::LOC)
        } else {
            None
        }
    }

    fn wire_str(&self) -> (r: &'static str) {
        match self {
            PaymentModel::PAYG => "PAYG",
            PaymentModel::LOC => "LOC",
        }
    }

    fn same(&self, other: &Self) -> (r: bool) {
        self == other
    }
}

} // verus!

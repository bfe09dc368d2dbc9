//! The aggregate domain records, assembled by walking each record's
//! declared field set over a parsed wire document. Field wire names are
//! fixed static renamings of the domain names; the first failure aborts
//! the walk and is reported with its dotted path.

use vstd::prelude::*;

use crate::error::{mismatch_err, mismatch_x, missing_err, missing_x, nest_x, nested_err, DecodeError, ErrorV};
use crate::fields::{
    arr_enum_field, arr_enum_field_err, arr_enum_field_ok, arr_str_field, arr_str_field_err,
    arr_str_field_ok, arr_u64_field, arr_u64_field_err, arr_u64_field_ok, bool_field,
    bool_field_err, bool_field_val, enum_field, opt_arr_enum_field,
    opt_arr_enum_field_err, opt_arr_enum_field_ok, opt_str_field, opt_str_field_err,
    opt_str_field_val, opt_ts_field, opt_ts_field_err, opt_ts_field_val, opt_u64_field,
    opt_u64_field_err, opt_u64_field_val, seq_str_err, str_field, str_field_err, str_field_val,
    strs_of, strs_ok, ts_field, ts_field_err, ts_field_val, u64_field, u64_field_err,
    u64_field_val,
};
use crate::open_enum::{decodes_to, OpenEnum};
use crate::timestamp::Timestamp;
use crate::value::{get_field, obj_get, Kind, Value};
use crate::vocab::{
    CampaignAdChannelType, CampaignDisplayStatus, CampaignServingStateReason,
    CampaignServingStatus, CampaignStatus, CampaignSupplySource, PaymentModel,
    ReportingSearchTermMatchType, SearchTermSource,
};

verus! {

/// An amount of money: a decimal amount as wire text, and a currency code.
#[derive(Debug)]
pub struct Money {
    pub amount: String,
    pub currency: String,
}

/// The first error, if any, in the declared fields of a Money.
pub open spec fn money_err(o: Seq<(String, Value)>) -> Option<ErrorV> {
    if str_field_err(o, "amount"@) is Some {
        str_field_err(o, "amount"@)
    } else if str_field_err(o, "currency"@) is Some {
        str_field_err(o, "currency"@)
    } else {
        None
    }
}

/// Every declared field of the Money equals its decoded wire value.
pub open spec fn money_ok(o: Seq<(String, Value)>, r: Money) -> bool {
    &&& r.amount@ == str_field_val(o, "amount"@)
    &&& r.currency@ == str_field_val(o, "currency"@)
}

impl Money {
    /// Assemble a Money from the entries of a wire object.
    pub fn from_entries(entries: &Vec<(String, Value)>) -> (r: Result<Money, DecodeError>)
        ensures
            match r {
                Ok(m) => money_err(entries@) is None && money_ok(entries@, m),
                Err(e) => money_err(entries@) == Some(e@),
            },
    {
        let amount = match str_field(entries, "amount") {
            Ok(v) => v,
            Err(e) => {
                return Err(e);
            },
        };
        let currency = match str_field(entries, "currency") {
            Ok(v) => v,
            Err(e) => {
                return Err(e);
            },
        };
        Ok(Money { amount, currency })
    }
}

/// Invoicing details of a line-of-credit payment model.
#[derive(Debug)]
pub struct LOCInvoiceDetails {
    pub client_name: String,
    pub order_number: String,
    pub buyer_name: String,
    pub buyer_email: String,
}

/// The first error, if any, in the declared fields of a LOCInvoiceDetails.
pub open spec fn loc_err(o: Seq<(String, Value)>) -> Option<ErrorV> {
    if str_field_err(o, "clientName"@) is Some {
        str_field_err(o, "clientName"@)
    } else if str_field_err(o, "orderNumber"@) is Some {
        str_field_err(o, "orderNumber"@)
    } else if str_field_err(o, "buyerName"@) is Some {
        str_field_err(o, "buyerName"@)
    } else if str_field_err(o, "buyerEmail"@) is Some {
        str_field_err(o, "buyerEmail"@)
    } else {
        None
    }
}

/// Every declared field of the LOCInvoiceDetails equals its decoded wire value.
pub open spec fn loc_ok(o: Seq<(String, Value)>, r: LOCInvoiceDetails) -> bool {
    &&& r.client_name@ == str_field_val(o, "clientName"@)
    &&& r.order_number@ == str_field_val(o, "orderNumber"@)
    &&& r.buyer_name@ == str_field_val(o, "buyerName"@)
    &&& r.buyer_email@ == str_field_val(o, "buyerEmail"@)
}

impl LOCInvoiceDetails {
    /// Assemble a LOCInvoiceDetails from the entries of a wire object.
    pub fn from_entries(entries: &Vec<(String, Value)>) -> (r: Result<LOCInvoiceDetails, DecodeError>)
        ensures
            match r {
                Ok(m) => loc_err(entries@) is None && loc_ok(entries@, m),
                Err(e) => loc_err(entries@) == Some(e@),
            },
    {
        let client_name = match str_field(entries, "clientName") {
            Ok(v) => v,
            Err(e) => {
                return Err(e);
            },
        };
        let order_number = match str_field(entries, "orderNumber") {
            Ok(v) => v,
            Err(e) => {
                return Err(e);
            },
        };
        let buyer_name = match str_field(entries, "buyerName") {
            Ok(v) => v,
            Err(e) => {
                return Err(e);
            },
        };
        let buyer_email = match str_field(entries, "buyerEmail") {
            Ok(v) => v,
            Err(e) => {
                return Err(e);
            },
        };
        Ok(LOCInvoiceDetails { client_name, order_number, buyer_name, buyer_email })
    }
}

/// The error, if any, of a required nested Money field; an inner
/// failure is wrapped with this field's name.
pub open spec fn money_field_err(o: Seq<(String, Value)>, name: Seq<char>) -> Option<ErrorV> {
    match obj_get(o, name) {
        Option::None => Some(missing_err(name)),
        Option::Some(v) => match v {
            Value::Obj(m) => match money_err(m@) {
                Some(c) => Some(nested_err(name, c)),
                None => None,
            },
            _ => Some(mismatch_err(name, Kind::Obj, v.kind())),
        },
    }
}

/// The decoded Money matches the nested wire object.
pub open spec fn money_field_ok(o: Seq<(String, Value)>, name: Seq<char>, r: Money) -> bool {
    obj_get(o, name) matches Some(Value::Obj(m)) && money_ok(m@, r)
}

/// Decode a required nested Money field.
pub fn money_field(entries: &Vec<(String, Value)>, name: &str) -> (r: Result<Money, DecodeError>)
    ensures
        match r {
            Ok(m) => money_field_err(entries@, name@) is None && money_field_ok(entries@, name@, m),
            Err(e) => money_field_err(entries@, name@) == Some(e@),
        },
{
    match get_field(entries, name) {
        None => Err(missing_x(name)),
        Some(v) => match v {
            Value::Obj(m) => match Money::from_entries(m) {
                Ok(r) => Ok(r),
                Err(e) => Err(nest_x(name, e)),
            },
            _ => Err(mismatch_x(name, Kind::Obj, v.kind_x())),
        },
    }
}

/// The error, if any, of an optional nested Money field: absent and
/// null wire values are no error.
pub open spec fn opt_money_field_err(o: Seq<(String, Value)>, name: Seq<char>) -> Option<ErrorV> {
    match obj_get(o, name) {
        Option::None => None,
        Option::Some(v) => match v {
            Value::Null => None,
            Value::Obj(m) => match money_err(m@) {
                Some(c) => Some(nested_err(name, c)),
                None => None,
            },
            _ => Some(mismatch_err(name, Kind::Obj, v.kind())),
        },
    }
}

/// The decoded optional Money matches the wire field: absent or null
/// decodes to no value.
pub open spec fn opt_money_field_ok(o: Seq<(String, Value)>, name: Seq<char>, r: Option<Money>) -> bool {
    match obj_get(o, name) {
        Option::None => r is None,
        Option::Some(v) => match v {
            Value::Null => r is None,
            Value::Obj(m) => r matches Some(x) && money_ok(m@, x),
            _ => true,
        },
    }
}

/// Decode an optional nested Money field.
pub fn opt_money_field(entries: &Vec<(String, Value)>, name: &str) -> (r: Result<Option<Money>, DecodeError>)
    ensures
        match r {
            Ok(m) => opt_money_field_err(entries@, name@) is None && opt_money_field_ok(entries@, name@, m),
            Err(e) => opt_money_field_err(entries@, name@) == Some(e@),
        },
{
    match get_field(entries, name) {
        None => Ok(None),
        Some(v) => match v {
            Value::Null => Ok(None),
            Value::Obj(m) => match Money::from_entries(m) {
                Ok(r) => Ok(Some(r)),
                Err(e) => Err(nest_x(name, e)),
            },
            _ => Err(mismatch_x(name, Kind::Obj, v.kind_x())),
        },
    }
}

/// The error, if any, of a required nested LOCInvoiceDetails field; an inner
/// failure is wrapped with this field's name.
pub open spec fn loc_field_err(o: Seq<(String, Value)>, name: Seq<char>) -> Option<ErrorV> {
    match obj_get(o, name) {
        Option::None => Some(missing_err(name)),
        Option::Some(v) => match v {
            Value::Obj(m) => match loc_err(m@) {
                Some(c) => Some(nested_err(name, c)),
                None => None,
            },
            _ => Some(mismatch_err(name, Kind::Obj, v.kind())),
        },
    }
}

/// The decoded LOCInvoiceDetails matches the nested wire object.
pub open spec fn loc_field_ok(o: Seq<(String, Value)>, name: Seq<char>, r: LOCInvoiceDetails) -> bool {
    obj_get(o, name) matches Some(Value::Obj(m)) && loc_ok(m@, r)
}

/// Decode a required nested LOCInvoiceDetails field.
pub fn loc_field(entries: &Vec<(String, Value)>, name: &str) -> (r: Result<LOCInvoiceDetails, DecodeError>)
    ensures
        match r {
            Ok(m) => loc_field_err(entries@, name@) is None && loc_field_ok(entries@, name@, m),
            Err(e) => loc_field_err(entries@, name@) == Some(e@),
        },
{
    match get_field(entries, name) {
        None => Err(missing_x(name)),
        Some(v) => match v {
            Value::Obj(m) => match LOCInvoiceDetails::from_entries(m) {
                Ok(r) => Ok(r),
                Err(e) => Err(nest_x(name, e)),
            },
            _ => Err(mismatch_x(name, Kind::Obj, v.kind_x())),
        },
    }
}


/// The per-country serving-state reasons of a campaign: country codes
/// mapped to lists of reason strings, in wire order.
#[derive(Debug)]
pub struct CampaignCountryOrRegionServingStateReasons {
    pub entries: Vec<(String, Vec<String>)>,
}

/// The first entry, if any, whose value is not an array of strings.
pub open spec fn reasons_err(o: Seq<(String, Value)>) -> Option<ErrorV>
    decreases o.len(),
{
    if o.len() == 0 {
        None
    } else {
        match o[0].1 {
            Value::Arr(items) => match seq_str_err(items@, o[0].0@) {
                Some(e) => Some(e),
                None => reasons_err(o.drop_first()),
            },
            _ => Some(mismatch_err(o[0].0@, Kind::Arr, o[0].1.kind())),
        }
    }
}

/// One decoded country entry matches one wire entry: same country code,
/// and the wire value is an array holding exactly the decoded strings.
pub open spec fn reasons_entry_ok(e: (String, Value), d: (String, Vec<String>)) -> bool {
    d.0@ == e.0@ && (e.1 matches Value::Arr(items) && strs_ok(items@, d.1@))
}

/// The decoded country entries are exactly the wire object's entries.
pub open spec fn reasons_ok(
    o: Seq<(String, Value)>,
    r: CampaignCountryOrRegionServingStateReasons,
) -> bool {
    r.entries@.len() == o.len() && (forall|i: int|
        0 <= i < o.len() ==> #[trigger] reasons_entry_ok(o[i], r.entries@[i]))
}

impl CampaignCountryOrRegionServingStateReasons {
    /// Assemble the per-country reasons from the entries of a wire object.
    pub fn from_entries(entries: &Vec<(String, Value)>) -> (r: Result<
        CampaignCountryOrRegionServingStateReasons,
        DecodeError,
    >)
        ensures
            match r {
                Ok(m) => reasons_err(entries@) is None && reasons_ok(entries@, m),
                Err(e) => reasons_err(entries@) == Some(e@),
            },
    {
        let mut out: Vec<(String, Vec<String>)> = Vec::new();
        let mut i: usize = 0;
        proof {
            assert(entries@.skip(0) =~= entries@);
        }
        while i < entries.len()
            invariant
                i <= entries@.len(),
                out@.len() == i,
                forall|j: int| 0 <= j < i ==> #[trigger] reasons_entry_ok(entries@[j], out@[j]),
                reasons_err(entries@) == reasons_err(entries@.skip(i as int)),
            decreases entries@.len() - i,
        {
            proof {
                assert(entries@.skip(i as int)[0] == entries@[i as int]);
            }
            match &entries[i].1 {
                Value::Arr(items) => match strs_of(items, entries[i].0.as_str()) {
                    Ok(ss) => {
                        out.push((entries[i].0.clone(), ss));
                    },
                    Err(e) => {
                        return Err(e);
                    },
                },
                v => {
                    return Err(mismatch_x(entries[i].0.as_str(), Kind::Arr, v.kind_x()));
                },
            }
            proof {
                assert(entries@.skip(i as int).drop_first() =~= entries@.skip(i as int + 1));
            }
            i += 1;
        }
        proof {
            assert(entries@.skip(i as int).len() == 0);
        }
        Ok(CampaignCountryOrRegionServingStateReasons { entries: out })
    }
}



/// The error, if any, of the required per-country reasons field; an
/// inner failure is wrapped with this field's name.
pub open spec fn reasons_field_err(o: Seq<(String, Value)>, name: Seq<char>) -> Option<ErrorV> {
    match obj_get(o, name) {
        Option::None => Some(missing_err(name)),
        Option::Some(v) => match v {
            Value::Obj(m) => match reasons_err(m@) {
                Some(c) => Some(nested_err(name, c)),
                None => None,
            },
            _ => Some(mismatch_err(name, Kind::Obj, v.kind())),
        },
    }
}

/// The decoded per-country reasons match the nested wire object.
pub open spec fn reasons_field_ok(
    o: Seq<(String, Value)>,
    name: Seq<char>,
    r: CampaignCountryOrRegionServingStateReasons,
) -> bool {
    obj_get(o, name) matches Some(Value::Obj(m)) && reasons_ok(m@, r)
}

/// Decode the required per-country reasons field.
pub fn reasons_field(entries: &Vec<(String, Value)>, name: &str) -> (r: Result<
    CampaignCountryOrRegionServingStateReasons,
    DecodeError,
>)
    ensures
        match r {
            Ok(m) => reasons_field_err(entries@, name@) is None && reasons_field_ok(
                entries@,
                name@,
                m,
            ),
            Err(e) => reasons_field_err(entries@, name@) == Some(e@),
        },
{
    match get_field(entries, name) {
        None => Err(missing_x(name)),
        Some(v) => match v {
            Value::Obj(m) => match CampaignCountryOrRegionServingStateReasons::from_entries(m) {
                Ok(r) => Ok(r),
                Err(e) => Err(nest_x(name, e)),
            },
            _ => Err(mismatch_x(name, Kind::Obj, v.kind_x())),
        },
    }
}


/// The suggested bid range for a keyword.
#[derive(Debug)]
pub struct KeywordBidRecommendation {
    pub bid_max: Money,
    pub bid_min: Money,
}

/// The first error, if any, in the declared fields of a
/// KeywordBidRecommendation.
pub open spec fn kbr_err(o: Seq<(String, Value)>) -> Option<ErrorV> {
    if money_field_err(o, "bidMax"@) is Some {
        money_field_err(o, "bidMax"@)
    } else if money_field_err(o, "bidMin"@) is Some {
        money_field_err(o, "bidMin"@)
    } else {
        None
    }
}

/// Every declared field of the KeywordBidRecommendation equals its
/// decoded wire value.
pub open spec fn kbr_ok(o: Seq<(String, Value)>, r: KeywordBidRecommendation) -> bool {
    &&& money_field_ok(o, "bidMax"@, r.bid_max)
    &&& money_field_ok(o, "bidMin"@, r.bid_min)
}

impl KeywordBidRecommendation {
    /// Assemble a KeywordBidRecommendation from the entries of a wire
    /// object.
    pub fn from_entries(entries: &Vec<(String, Value)>) -> (r: Result<
        KeywordBidRecommendation,
        DecodeError,
    >)
        ensures
            match r {
                Ok(m) => kbr_err(entries@) is None && kbr_ok(entries@, m),
                Err(e) => kbr_err(entries@) == Some(e@),
            },
    {
        let bid_max = match money_field(entries, "bidMax") {
            Ok(v) => v,
            Err(e) => {
                return Err(e);
            },
        };
        let bid_min = match money_field(entries, "bidMin") {
            Ok(v) => v,
            Err(e) => {
                return Err(e);
            },
        };
        Ok(KeywordBidRecommendation { bid_max, bid_min })
    }
}

/// The error, if any, of a required nested KeywordBidRecommendation
/// field; an inner failure is wrapped with this field's name.
pub open spec fn kbr_field_err(o: Seq<(String, Value)>, name: Seq<char>) -> Option<ErrorV> {
    match obj_get(o, name) {
        Option::None => Some(missing_err(name)),
        Option::Some(v) => match v {
            Value::Obj(m) => match kbr_err(m@) {
                Some(c) => Some(nested_err(name, c)),
                None => None,
            },
            _ => Some(mismatch_err(name, Kind::Obj, v.kind())),
        },
    }
}

/// The decoded KeywordBidRecommendation matches the nested wire object.
pub open spec fn kbr_field_ok(
    o: Seq<(String, Value)>,
    name: Seq<char>,
    r: KeywordBidRecommendation,
) -> bool {
    obj_get(o, name) matches Some(Value::Obj(m)) && kbr_ok(m@, r)
}

/// Decode a required nested KeywordBidRecommendation field.
pub fn kbr_field(entries: &Vec<(String, Value)>, name: &str) -> (r: Result<
    KeywordBidRecommendation,
    DecodeError,
>)
    ensures
        match r {
            Ok(m) => kbr_field_err(entries@, name@) is None && kbr_field_ok(entries@, name@, m),
            Err(e) => kbr_field_err(entries@, name@) == Some(e@),
        },
{
    match get_field(entries, name) {
        None => Err(missing_x(name)),
        Some(v) => match v {
            Value::Obj(m) => match KeywordBidRecommendation::from_entries(m) {
                Ok(r) => Ok(r),
                Err(e) => Err(nest_x(name, e)),
            },
            _ => Err(mismatch_x(name, Kind::Obj, v.kind_x())),
        },
    }
}

/// A campaign: the flagship aggregate record, decoded from one wire
/// document.
#[derive(Debug)]
pub struct Campaign {
    pub ad_channel_type: OpenEnum<CampaignAdChannelType>,
    pub adam_id: u64,
    pub budget_amount: Money,
    pub budget_orders: Vec<u64>,
    pub countries_or_regions: Vec<String>,
    pub country_or_region_serving_state_reasons: CampaignCountryOrRegionServingStateReasons,
    pub daily_budget_amount: Option<Money>,
    pub deleted: bool,
    pub display_status: OpenEnum<CampaignDisplayStatus>,
    pub end_time: Option<Timestamp>,
    pub id: u64,
    pub loc_invoice_details: LOCInvoiceDetails,
    pub modification_time: Timestamp,
    pub name: String,
    pub org_id: u64,
    pub payment_model: OpenEnum<PaymentModel>,
    pub serving_state_reasons: Option<Vec<OpenEnum<CampaignServingStateReason>>>,
    pub serving_status: OpenEnum<CampaignServingStatus>,
    pub status: OpenEnum<CampaignStatus>,
    pub start_time: Timestamp,
    pub supply_sources: Vec<OpenEnum<CampaignSupplySource>>,
}

/// The first error, if any, met walking the declared fields of a
/// Campaign, in declared order.
pub open spec fn campaign_fields_err(o: Seq<(String, Value)>) -> Option<ErrorV> {
    if str_field_err(o, "adChannelType"@) is Some {
        str_field_err(o, "adChannelType"@)
    } else if u64_field_err(o, "adamId"@) is Some {
        u64_field_err(o, "adamId"@)
    } else if money_field_err(o, "budgetAmount"@) is Some {
        money_field_err(o, "budgetAmount"@)
    } else if arr_u64_field_err(o, "budgetOrders"@) is Some {
        arr_u64_field_err(o, "budgetOrders"@)
    } else if arr_str_field_err(o, "countriesOrRegions"@) is Some {
        arr_str_field_err(o, "countriesOrRegions"@)
    } else if reasons_field_err(o, "countryOrRegionServingStateReasons"@) is Some {
        reasons_field_err(o, "countryOrRegionServingStateReasons"@)
    } else if opt_money_field_err(o, "dailyBudgetAmount"@) is Some {
        opt_money_field_err(o, "dailyBudgetAmount"@)
    } else if bool_field_err(o, "deleted"@) is Some {
        bool_field_err(o, "deleted"@)
    } else if str_field_err(o, "displayStatus"@) is Some {
        str_field_err(o, "displayStatus"@)
    } else if opt_ts_field_err(o, "endTime"@) is Some {
        opt_ts_field_err(o, "endTime"@)
    } else if u64_field_err(o, "id"@) is Some {
        u64_field_err(o, "id"@)
    } else if loc_field_err(o, "locInvoiceDetails"@) is Some {
        loc_field_err(o, "locInvoiceDetails"@)
    } else if ts_field_err(o, "modificationTime"@) is Some {
        ts_field_err(o, "modificationTime"@)
    } else if str_field_err(o, "name"@) is Some {
        str_field_err(o, "name"@)
    } else if u64_field_err(o, "orgId"@) is Some {
        u64_field_err(o, "orgId"@)
    } else if str_field_err(o, "paymentModel"@) is Some {
        str_field_err(o, "paymentModel"@)
    } else if opt_arr_enum_field_err(o, "servingStateReasons"@) is Some {
        opt_arr_enum_field_err(o, "servingStateReasons"@)
    } else if str_field_err(o, "servingStatus"@) is Some {
        str_field_err(o, "servingStatus"@)
    } else if str_field_err(o, "status"@) is Some {
        str_field_err(o, "status"@)
    } else if ts_field_err(o, "startTime"@) is Some {
        ts_field_err(o, "startTime"@)
    } else if arr_enum_field_err(o, "supplySources"@) is Some {
        arr_enum_field_err(o, "supplySources"@)
    } else {
        None
    }
}

/// Every declared field of the Campaign equals its decoded wire value.
pub open spec fn campaign_fields_ok(o: Seq<(String, Value)>, c: Campaign) -> bool {
    &&& decodes_to::<CampaignAdChannelType>(str_field_val(o, "adChannelType"@), c.ad_channel_type@)
    &&& c.adam_id == u64_field_val(o, "adamId"@)
    &&& money_field_ok(o, "budgetAmount"@, c.budget_amount)
    &&& arr_u64_field_ok(o, "budgetOrders"@, c.budget_orders@)
    &&& arr_str_field_ok(o, "countriesOrRegions"@, c.countries_or_regions@)
    &&& reasons_field_ok(o, "countryOrRegionServingStateReasons"@, c.country_or_region_serving_state_reasons)
    &&& opt_money_field_ok(o, "dailyBudgetAmount"@, c.daily_budget_amount)
    &&& c.deleted == bool_field_val(o, "deleted"@)
    &&& decodes_to::<CampaignDisplayStatus>(str_field_val(o, "displayStatus"@), c.display_status@)
    &&& c.end_time == opt_ts_field_val(o, "endTime"@)
    &&& c.id == u64_field_val(o, "id"@)
    &&& loc_field_ok(o, "locInvoiceDetails"@, c.loc_invoice_details)
    &&& c.modification_time == ts_field_val(o, "modificationTime"@)
    &&& c.name@ == str_field_val(o, "name"@)
    &&& c.org_id == u64_field_val(o, "orgId"@)
    &&& decodes_to::<PaymentModel>(str_field_val(o, "paymentModel"@), c.payment_model@)
    &&& opt_arr_enum_field_ok::<CampaignServingStateReason>(o, "servingStateReasons"@, c.serving_state_reasons)
    &&& decodes_to::<CampaignServingStatus>(str_field_val(o, "servingStatus"@), c.serving_status@)
    &&& decodes_to::<CampaignStatus>(str_field_val(o, "status"@), c.status@)
    &&& c.start_time == ts_field_val(o, "startTime"@)
    &&& arr_enum_field_ok::<CampaignSupplySource>(o, "supplySources"@, c.supply_sources@)
}

/// The first error, if any, of decoding a Campaign from a wire document.
pub open spec fn campaign_err(doc: Value) -> Option<ErrorV> {
    match doc {
        Value::Obj(m) => campaign_fields_err(m@),
        _ => Some(mismatch_err(""@, Kind::Obj, doc.kind())),
    }
}

/// The decoded Campaign matches the wire document field for field.
pub open spec fn campaign_ok(doc: Value, c: Campaign) -> bool {
    doc matches Value::Obj(m) && campaign_fields_ok(m@, c)
}

impl Campaign {
    /// Decode one wire document into a Campaign: every declared field is
    /// looked up under its fixed wire name and decoded as declared; the
    /// first failure aborts the decode and is returned with its path.
    #[verifier::rlimit(80)]
    pub fn decode(doc: &Value) -> (r: Result<Campaign, DecodeError>)
        ensures
            match r {
                Ok(c) => campaign_err(*doc) is None && campaign_ok(*doc, c),
                Err(e) => campaign_err(*doc) == Some(e@),
            },
    {
        let entries = match doc {
            Value::Obj(m) => m,
            _ => {
                return Err(mismatch_x("", Kind::Obj, doc.kind_x()));
            },
        };
        let ad_channel_type = match enum_field::<CampaignAdChannelType>(entries, "adChannelType") {
            Ok(v) => v,
            Err(e) => {
                return Err(e);
            },
        };
        let adam_id = match u64_field(entries, "adamId") {
            Ok(v) => v,
            Err(e) => {
                return Err(e);
            },
        };
        let budget_amount = match money_field(entries, "budgetAmount") {
            Ok(v) => v,
            Err(e) => {
                return Err(e);
            },
        };
        let budget_orders = match arr_u64_field(entries, "budgetOrders") {
            Ok(v) => v,
            Err(e) => {
                return Err(e);
            },
        };
        let countries_or_regions = match arr_str_field(entries, "countriesOrRegions") {
            Ok(v) => v,
            Err(e) => {
                return Err(e);
            },
        };
        let country_or_region_serving_state_reasons = match reasons_field(entries, "countryOrRegionServingStateReasons") {
            Ok(v) => v,
            Err(e) => {
                return Err(e);
            },
        };
        let daily_budget_amount = match opt_money_field(entries, "dailyBudgetAmount") {
            Ok(v) => v,
            Err(e) => {
                return Err(e);
            },
        };
        let deleted = match bool_field(entries, "deleted") {
            Ok(v) => v,
            Err(e) => {
                return Err(e);
            },
        };
        let display_status = match enum_field::<CampaignDisplayStatus>(entries, "displayStatus") {
            Ok(v) => v,
            Err(e) => {
                return Err(e);
            },
        };
        let end_time = match opt_ts_field(entries, "endTime") {
            Ok(v) => v,
            Err(e) => {
                return Err(e);
            },
        };
        let id = match u64_field(entries, "id") {
            Ok(v) => v,
            Err(e) => {
                return Err(e);
            },
        };
        let loc_invoice_details = match loc_field(entries, "locInvoiceDetails") {
            Ok(v) => v,
            Err(e) => {
                return Err(e);
            },
        };
        let modification_time = match ts_field(entries, "modificationTime") {
            Ok(v) => v,
            Err(e) => {
                return Err(e);
            },
        };
        let name = match str_field(entries, "name") {
            Ok(v) => v,
            Err(e) => {
                return Err(e);
            },
        };
        let org_id = match u64_field(entries, "orgId") {
            Ok(v) => v,
            Err(e) => {
                return Err(e);
            },
        };
        let payment_model = match enum_field::<PaymentModel>(entries, "paymentModel") {
            Ok(v) => v,
            Err(e) => {
                return Err(e);
            },
        };
        let serving_state_reasons = match opt_arr_enum_field::<CampaignServingStateReason>(entries, "servingStateReasons") {
            Ok(v) => v,
            Err(e) => {
                return Err(e);
            },
        };
        let serving_status = match enum_field::<CampaignServingStatus>(entries, "servingStatus") {
            Ok(v) => v,
            Err(e) => {
                return Err(e);
            },
        };
        let status = match enum_field::<CampaignStatus>(entries, "status") {
            Ok(v) => v,
            Err(e) => {
                return Err(e);
            },
        };
        let start_time = match ts_field(entries, "startTime") {
            Ok(v) => v,
            Err(e) => {
                return Err(e);
            },
        };
        let supply_sources = match arr_enum_field::<CampaignSupplySource>(entries, "supplySources") {
            Ok(v) => v,
            Err(e) => {
                return Err(e);
            },
        };
        Ok(Campaign {
            ad_channel_type,
            adam_id,
            budget_amount,
            budget_orders,
            countries_or_regions,
            country_or_region_serving_state_reasons,
            daily_budget_amount,
            deleted,
            display_status,
            end_time,
            id,
            loc_invoice_details,
            modification_time,
            name,
            org_id,
            payment_model,
            serving_state_reasons,
            serving_status,
            status,
            start_time,
            supply_sources,
        })
    }
}

/// Keyword insights: the suggested bid range for a keyword.
#[derive(Debug)]
pub struct KeywordInsights {
    pub bid_recommendation: KeywordBidRecommendation,
}

/// The first error, if any, met walking the declared fields of a
/// KeywordInsights, in declared order.
pub open spec fn keyword_insights_fields_err(o: Seq<(String, Value)>) -> Option<ErrorV> {
    if kbr_field_err(o, "bidRecommendation"@) is Some {
        kbr_field_err(o, "bidRecommendation"@)
    } else {
        None
    }
}

/// Every declared field of the KeywordInsights equals its decoded wire value.
pub open spec fn keyword_insights_fields_ok(o: Seq<(String, Value)>, c: KeywordInsights) -> bool {
    &&& kbr_field_ok(o, "bidRecommendation"@, c.bid_recommendation)
}

/// The first error, if any, of decoding a KeywordInsights from a wire document.
pub open spec fn keyword_insights_err(doc: Value) -> Option<ErrorV> {
    match doc {
        Value::Obj(m) => keyword_insights_fields_err(m@),
        _ => Some(mismatch_err(""@, Kind::Obj, doc.kind())),
    }
}

/// The decoded KeywordInsights matches the wire document field for field.
pub open spec fn keyword_insights_ok(doc: Value, c: KeywordInsights) -> bool {
    doc matches Value::Obj(m) && keyword_insights_fields_ok(m@, c)
}

impl KeywordInsights {
    /// Decode one wire document into a KeywordInsights: every declared field is
    /// looked up under its fixed wire name and decoded as declared; the
    /// first failure aborts the decode and is returned with its path.
    pub fn decode(doc: &Value) -> (r: Result<KeywordInsights, DecodeError>)
        ensures
            match r {
                Ok(c) => keyword_insights_err(*doc) is None && keyword_insights_ok(*doc, c),
                Err(e) => keyword_insights_err(*doc) == Some(e@),
            },
    {
        let entries = match doc {
            Value::Obj(m) => m,
            _ => {
                return Err(mismatch_x("", Kind::Obj, doc.kind_x()));
            },
        };
        let bid_recommendation = match kbr_field(entries, "bidRecommendation") {
            Ok(v) => v,
            Err(e) => {
                return Err(e);
            },
        };
        Ok(KeywordInsights {
            bid_recommendation,
        })
    }
}

/// One reported search term with its ad-group context.
#[derive(Debug)]
pub struct ReportingSearchTerm {
    pub search_term_text: Option<String>,
    pub search_term_source: OpenEnum<SearchTermSource>,
    pub keyword_id: Option<u64>,
    pub keyword: String,
    pub match_type: OpenEnum<ReportingSearchTermMatchType>,
    pub ad_group_id: u64,
    pub ad_group_name: String,
    pub country_or_region: String,
}

/// The first error, if any, met walking the declared fields of a
/// ReportingSearchTerm, in declared order.
pub open spec fn search_term_fields_err(o: Seq<(String, Value)>) -> Option<ErrorV> {
    if opt_str_field_err(o, "searchTermText"@) is Some {
        opt_str_field_err(o, "searchTermText"@)
    } else if str_field_err(o, "searchTermSource"@) is Some {
        str_field_err(o, "searchTermSource"@)
    } else if opt_u64_field_err(o, "keywordId"@) is Some {
        opt_u64_field_err(o, "keywordId"@)
    } else if str_field_err(o, "keyword"@) is Some {
        str_field_err(o, "keyword"@)
    } else if str_field_err(o, "matchType"@) is Some {
        str_field_err(o, "matchType"@)
    } else if u64_field_err(o, "adGroupId"@) is Some {
        u64_field_err(o, "adGroupId"@)
    } else if str_field_err(o, "adGroupName"@) is Some {
        str_field_err(o, "adGroupName"@)
    } else if str_field_err(o, "countryOrRegion"@) is Some {
        str_field_err(o, "countryOrRegion"@)
    } else {
        None
    }
}

/// Every declared field of the ReportingSearchTerm equals its decoded wire value.
pub open spec fn search_term_fields_ok(o: Seq<(String, Value)>, c: ReportingSearchTerm) -> bool {
    &&& (match c.search_term_text {
        Some(s) => opt_str_field_val(o, "searchTermText"@) == Some(s@),
        None => opt_str_field_val(o, "searchTermText"@) is None,
    })
    &&& decodes_to::<SearchTermSource>(str_field_val(o, "searchTermSource"@), c.search_term_source@)
    &&& c.keyword_id == opt_u64_field_val(o, "keywordId"@)
    &&& c.keyword@ == str_field_val(o, "keyword"@)
    &&& decodes_to::<ReportingSearchTermMatchType>(str_field_val(o, "matchType"@), c.match_type@)
    &&& c.ad_group_id == u64_field_val(o, "adGroupId"@)
    &&& c.ad_group_name@ == str_field_val(o, "adGroupName"@)
    &&& c.country_or_region@ == str_field_val(o, "countryOrRegion"@)
}

/// The first error, if any, of decoding a ReportingSearchTerm from a wire document.
pub open spec fn search_term_err(doc: Value) -> Option<ErrorV> {
    match doc {
        Value::Obj(m) => search_term_fields_err(m@),
        _ => Some(mismatch_err(""@, Kind::Obj, doc.kind())),
    }
}

/// The decoded ReportingSearchTerm matches the wire document field for field.
pub open spec fn search_term_ok(doc: Value, c: ReportingSearchTerm) -> bool {
    doc matches Value::Obj(m) && search_term_fields_ok(m@, c)
}

impl ReportingSearchTerm {
    /// Decode one wire document into a ReportingSearchTerm: every declared field is
    /// looked up under its fixed wire name and decoded as declared; the
    /// first failure aborts the decode and is returned with its path.
    #[verifier::rlimit(40)]
    pub fn decode(doc: &Value) -> (r: Result<ReportingSearchTerm, DecodeError>)
        ensures
            match r {
                Ok(c) => search_term_err(*doc) is None && search_term_ok(*doc, c),
                Err(e) => search_term_err(*doc) == Some(e@),
            },
    {
        let entries = match doc {
            Value::Obj(m) => m,
            _ => {
                return Err(mismatch_x("", Kind::Obj, doc.kind_x()));
            },
        };
        let search_term_text = match opt_str_field(entries, "searchTermText") {
            Ok(v) => v,
            Err(e) => {
                return Err(e);
            },
        };
        let search_term_source = match enum_field::<SearchTermSource>(entries, "searchTermSource") {
            Ok(v) => v,
            Err(e) => {
                return Err(e);
            },
        };
        let keyword_id = match opt_u64_field(entries, "keywordId") {
            Ok(v) => v,
            Err(e) => {
                return Err(e);
            },
        };
        let keyword = match str_field(entries, "keyword") {
            Ok(v) => v,
            Err(e) => {
                return Err(e);
            },
        };
        let match_type = match enum_field::<ReportingSearchTermMatchType>(entries, "matchType") {
            Ok(v) => v,
            Err(e) => {
                return Err(e);
            },
        };
        let ad_group_id = match u64_field(entries, "adGroupId") {
            Ok(v) => v,
            Err(e) => {
                return Err(e);
            },
        };
        let ad_group_name = match str_field(entries, "adGroupName") {
            Ok(v) => v,
            Err(e) => {
                return Err(e);
            },
        };
        let country_or_region = match str_field(entries, "countryOrRegion") {
            Ok(v) => v,
            Err(e) => {
                return Err(e);
            },
        };
        Ok(ReportingSearchTerm {
            search_term_text,
            search_term_source,
            keyword_id,
            keyword,
            match_type,
            ad_group_id,
            ad_group_name,
            country_or_region,
        })
    }
}

} // verus!

//! Record assembly: the campaign scenario documents, error attribution,
//! and the other aggregate records.

use search_ads_codec::error::DecodeError;
use search_ads_codec::open_enum::OpenEnum;
use search_ads_codec::records::{Campaign, KeywordInsights, ReportingSearchTerm};
use search_ads_codec::timestamp::Timestamp;
use search_ads_codec::value::{Kind, Value};
use search_ads_codec::vocab::{
    CampaignAdChannelType, CampaignServingStateReason, CampaignServingStatus, CampaignStatus,
    PaymentModel, ReportingSearchTermMatchType, SearchTermSource,
};

fn s(text: &str) -> Value {
    Value::Str(text.to_string())
}

fn entry(name: &str, v: Value) -> (String, Value) {
    (name.to_string(), v)
}

fn money(amount: &str, currency: &str) -> Value {
    Value::Obj(vec![entry("amount", s(amount)), entry("currency", s(currency))])
}

fn campaign_doc() -> Vec<(String, Value)> {
    vec![
        entry("adChannelType", s("SEARCH")),
        entry("adamId", Value::Num(1234567890)),
        entry("budgetAmount", money("5000", "USD")),
        entry("budgetOrders", Value::Arr(vec![Value::Num(11), Value::Num(22)])),
        entry("countriesOrRegions", Value::Arr(vec![s("US"), s("GB")])),
        entry(
            "countryOrRegionServingStateReasons",
            Value::Obj(vec![entry(
                "US",
                Value::Arr(vec![s("APP_NOT_ELIGIBLE")]),
            )]),
        ),
        entry("dailyBudgetAmount", Value::Null),
        entry("deleted", Value::Bool(false)),
        entry("displayStatus", s("RUNNING")),
        entry("endTime", Value::Null),
        entry("id", Value::Num(42)),
        entry(
            "locInvoiceDetails",
            Value::Obj(vec![
                entry("clientName", s("Client")),
                entry("orderNumber", s("PO-1")),
                entry("buyerName", s("Buyer")),
                entry("buyerEmail", s("buyer@example.com")),
            ]),
        ),
        entry("modificationTime", s("2021-06-02T10:20:30.400")),
        entry("name", s("summer push")),
        entry("orgId", Value::Num(7)),
        entry("paymentModel", s("PAYG")),
        entry("servingStateReasons", Value::Null),
        entry("servingStatus", s("RUNNING")),
        entry("status", s("ENABLED")),
        entry("startTime", s("2021-06-01T00:00:00.000")),
        entry("supplySources", Value::Arr(vec![s("APPSTORE_SEARCH_RESULTS")])),
    ]
}

#[test]
fn campaign_scenario_decodes() {
    let c = Campaign::decode(&Value::Obj(campaign_doc())).unwrap();
    assert_eq!(c.ad_channel_type, OpenEnum::Known(CampaignAdChannelType::SEARCH));
    assert_eq!(c.serving_status, OpenEnum::Known(CampaignServingStatus::RUNNING));
    assert_eq!(c.end_time, None);
    assert_eq!(
        c.start_time,
        Timestamp { year: 2021, month: 6, day: 1, hour: 0, minute: 0, second: 0, millisecond: 0 }
    );
    assert_eq!(c.status, OpenEnum::Known(CampaignStatus::ENABLED));
    assert_eq!(c.payment_model, OpenEnum::Known(PaymentModel::PAYG));
    assert_eq!(c.adam_id, 1234567890);
    assert_eq!(c.id, 42);
    assert_eq!(c.deleted, false);
    assert_eq!(c.name, "summer push");
    assert_eq!(c.budget_orders, vec![11, 22]);
    assert_eq!(c.countries_or_regions, vec!["US".to_string(), "GB".to_string()]);
    assert_eq!(c.budget_amount.amount, "5000");
    assert_eq!(c.budget_amount.currency, "USD");
    assert_eq!(c.daily_budget_amount.is_none(), true);
    assert_eq!(c.serving_state_reasons.is_none(), true);
    assert_eq!(c.supply_sources.len(), 1);
    assert_eq!(
        c.modification_time,
        Timestamp {
            year: 2021,
            month: 6,
            day: 2,
            hour: 10,
            minute: 20,
            second: 30,
            millisecond: 400,
        }
    );
    assert_eq!(c.country_or_region_serving_state_reasons.entries.len(), 1);
    assert_eq!(c.country_or_region_serving_state_reasons.entries[0].0, "US");
    assert_eq!(
        c.country_or_region_serving_state_reasons.entries[0].1,
        vec!["APP_NOT_ELIGIBLE".to_string()]
    );
    assert_eq!(c.loc_invoice_details.buyer_email, "buyer@example.com");
}

#[test]
fn campaign_unknown_channel_still_decodes() {
    let mut doc = campaign_doc();
    doc[0] = entry("adChannelType", s("VIDEO"));
    let c = Campaign::decode(&Value::Obj(doc)).unwrap();
    assert_eq!(c.ad_channel_type, OpenEnum::Unrecognized("VIDEO".to_string()));
    assert_eq!(c.serving_status, OpenEnum::Known(CampaignServingStatus::RUNNING));
}

#[test]
fn campaign_missing_id_is_reported() {
    let doc: Vec<(String, Value)> =
        campaign_doc().into_iter().filter(|(k, _)| k != "id").collect();
    let e = Campaign::decode(&Value::Obj(doc)).unwrap_err();
    match e {
        DecodeError::MissingField(f) => assert_eq!(f, "id"),
        other => panic!("unexpected error: {:?}", other),
    }
}

#[test]
fn campaign_id_type_mismatch_is_reported() {
    let doc: Vec<(String, Value)> = campaign_doc()
        .into_iter()
        .map(|(k, v)| if k == "id" { (k, s("not-a-number")) } else { (k, v) })
        .collect();
    let e = Campaign::decode(&Value::Obj(doc)).unwrap_err();
    match e {
        DecodeError::TypeMismatch { field, expected, actual } => {
            assert_eq!(field, "id");
            assert_eq!(expected, Kind::Num);
            assert_eq!(actual, Kind::Str);
        },
        other => panic!("unexpected error: {:?}", other),
    }
}

#[test]
fn campaign_malformed_timestamp_names_field_and_raw() {
    let doc: Vec<(String, Value)> = campaign_doc()
        .into_iter()
        .map(|(k, v)| if k == "startTime" { (k, s("2021-13-01T00:00:00.000")) } else { (k, v) })
        .collect();
    let e = Campaign::decode(&Value::Obj(doc)).unwrap_err();
    match e {
        DecodeError::MalformedTimestamp { field, raw } => {
            assert_eq!(field, "startTime");
            assert_eq!(raw, "2021-13-01T00:00:00.000");
        },
        other => panic!("unexpected error: {:?}", other),
    }
}

#[test]
fn nested_error_carries_enclosing_field() {
    let doc: Vec<(String, Value)> = campaign_doc()
        .into_iter()
        .map(|(k, v)| {
            if k == "locInvoiceDetails" {
                (
                    k,
                    Value::Obj(vec![
                        entry("clientName", s("Client")),
                        entry("orderNumber", s("PO-1")),
                        entry("buyerName", s("Buyer")),
                    ]),
                )
            } else {
                (k, v)
            }
        })
        .collect();
    let e = Campaign::decode(&Value::Obj(doc)).unwrap_err();
    match e {
        DecodeError::Nested { field, cause } => {
            assert_eq!(field, "locInvoiceDetails");
            match *cause {
                DecodeError::MissingField(f) => assert_eq!(f, "buyerEmail"),
                other => panic!("unexpected cause: {:?}", other),
            }
        },
        other => panic!("unexpected error: {:?}", other),
    }
}

#[test]
fn non_object_document_is_rejected() {
    let e = Campaign::decode(&s("nope")).unwrap_err();
    assert!(matches!(e, DecodeError::TypeMismatch { expected: Kind::Obj, .. }));
}

#[test]
fn keyword_insights_decodes() {
    let doc = Value::Obj(vec![entry(
        "bidRecommendation",
        Value::Obj(vec![
            entry("bidMax", money("2.50", "USD")),
            entry("bidMin", money("0.10", "USD")),
        ]),
    )]);
    let k = KeywordInsights::decode(&doc).unwrap();
    assert_eq!(k.bid_recommendation.bid_max.amount, "2.50");
    assert_eq!(k.bid_recommendation.bid_min.amount, "0.10");
}

#[test]
fn reporting_search_term_decodes() {
    let doc = Value::Obj(vec![
        entry("searchTermText", s("running shoes")),
        entry("searchTermSource", s("AUTO")),
        entry("keywordId", Value::Null),
        entry("keyword", s("shoes")),
        entry("matchType", s("BROAD")),
        entry("adGroupId", Value::Num(99)),
        entry("adGroupName", s("group")),
        entry("countryOrRegion", s("US")),
    ]);
    let r = ReportingSearchTerm::decode(&doc).unwrap();
    assert_eq!(r.search_term_text, Some("running shoes".to_string()));
    assert_eq!(r.search_term_source, OpenEnum::Known(SearchTermSource::AUTO));
    assert_eq!(r.keyword_id, None);
    assert_eq!(r.keyword, "shoes");
    assert_eq!(r.match_type, OpenEnum::Known(ReportingSearchTermMatchType::BROAD));
    assert_eq!(r.ad_group_id, 99);
    assert_eq!(r.ad_group_name, "group");
    assert_eq!(r.country_or_region, "US");
}

#[test]
fn duplicate_wire_names_first_wins() {
    let mut doc = campaign_doc();
    doc.push(entry("id", Value::Num(7)));
    let c = Campaign::decode(&Value::Obj(doc)).unwrap();
    assert_eq!(c.id, 42);
}

#[test]
fn empty_arrays_decode_to_empty_sequences() {
    let doc: Vec<(String, Value)> = campaign_doc()
        .into_iter()
        .map(|(k, v)| {
            if k == "budgetOrders" || k == "countriesOrRegions" || k == "supplySources" {
                (k, Value::Arr(vec![]))
            } else {
                (k, v)
            }
        })
        .collect();
    let c = Campaign::decode(&Value::Obj(doc)).unwrap();
    assert_eq!(c.budget_orders.len(), 0);
    assert_eq!(c.countries_or_regions.len(), 0);
    assert_eq!(c.supply_sources.len(), 0);
}

#[test]
fn array_element_of_wrong_kind_is_reported() {
    let doc: Vec<(String, Value)> = campaign_doc()
        .into_iter()
        .map(|(k, v)| {
            if k == "budgetOrders" {
                (k, Value::Arr(vec![Value::Num(11), s("twelve")]))
            } else {
                (k, v)
            }
        })
        .collect();
    let e = Campaign::decode(&Value::Obj(doc)).unwrap_err();
    match e {
        DecodeError::TypeMismatch { field, expected, actual } => {
            assert_eq!(field, "budgetOrders");
            assert_eq!(expected, Kind::Num);
            assert_eq!(actual, Kind::Str);
        },
        other => panic!("unexpected error: {:?}", other),
    }
}

#[test]
fn unknown_payment_model_still_decodes() {
    let doc: Vec<(String, Value)> = campaign_doc()
        .into_iter()
        .map(|(k, v)| if k == "paymentModel" { (k, s("PREPAID")) } else { (k, v) })
        .collect();
    let c = Campaign::decode(&Value::Obj(doc)).unwrap();
    assert_eq!(c.payment_model, OpenEnum::Unrecognized("PREPAID".to_string()));
}

#[test]
fn present_serving_state_reasons_decode() {
    let doc: Vec<(String, Value)> = campaign_doc()
        .into_iter()
        .map(|(k, v)| {
            if k == "servingStateReasons" {
                (k, Value::Arr(vec![s("PAUSED_BY_USER"), s("SOME_NEW_REASON")]))
            } else {
                (k, v)
            }
        })
        .collect();
    let c = Campaign::decode(&Value::Obj(doc)).unwrap();
    let rs = c.serving_state_reasons.unwrap();
    assert_eq!(rs[0], OpenEnum::Known(CampaignServingStateReason::PAUSED_BY_USER));
    assert_eq!(rs[1], OpenEnum::Unrecognized("SOME_NEW_REASON".to_string()));
}

//! The open-enum codec: totality, exact matching, and round trips.

use search_ads_codec::open_enum::OpenEnum;
use search_ads_codec::vocab::{
    CampaignAdChannelType, CampaignServingStatus, CampaignStatus, CampaignSupplySource,
    PaymentModel, SearchTermSource,
};

#[test]
fn decode_known_variant() {
    let v = OpenEnum::<CampaignAdChannelType>::decode("SEARCH");
    assert_eq!(v, OpenEnum::Known(CampaignAdChannelType::SEARCH));
    let v = OpenEnum::<CampaignAdChannelType>::decode("DISPLAY");
    assert_eq!(v, OpenEnum::Known(CampaignAdChannelType::DISPLAY));
}

#[test]
fn decode_unknown_preserves_text() {
    let v = OpenEnum::<CampaignAdChannelType>::decode("VIDEO");
    assert_eq!(v, OpenEnum::Unrecognized("VIDEO".to_string()));
    // matching is exact and case-sensitive
    let v = OpenEnum::<CampaignAdChannelType>::decode("search");
    assert_eq!(v, OpenEnum::Unrecognized("search".to_string()));
    let v = OpenEnum::<CampaignAdChannelType>::decode("");
    assert_eq!(v, OpenEnum::Unrecognized(String::new()));
}

#[test]
fn encode_known_gives_declared_name() {
    let v = OpenEnum::Known(CampaignSupplySource::APPSTORE_SEARCH_RESULTS);
    assert_eq!(v.encode(), "APPSTORE_SEARCH_RESULTS");
    let v = OpenEnum::Known(PaymentModel::PAYG);
    assert_eq!(v.encode(), "PAYG");
}

#[test]
fn encode_unrecognized_is_verbatim() {
    let v = OpenEnum::<CampaignStatus>::Unrecognized("SOMETHING_NEW".to_string());
    assert_eq!(v.encode(), "SOMETHING_NEW");
}

#[test]
fn round_trip_known() {
    let v = OpenEnum::Known(CampaignServingStatus::NOT_RUNNING);
    let wire = v.encode();
    assert_eq!(OpenEnum::<CampaignServingStatus>::decode(&wire), v);
}

#[test]
fn round_trip_unrecognized() {
    let v = OpenEnum::<SearchTermSource>::Unrecognized("MANUAL".to_string());
    let wire = v.encode();
    assert_eq!(OpenEnum::<SearchTermSource>::decode(&wire), v);
}

#[test]
fn every_declared_vocabulary_decodes_its_names() {
    for name in ["RUNNING", "ON_HOLD", "PAUSED", "DELETED"] {
        let v = OpenEnum::<search_ads_codec::vocab::CampaignDisplayStatus>::decode(name);
        assert!(matches!(v, OpenEnum::Known(_)));
        assert_eq!(v.encode(), name);
    }
    for name in ["NO_PAYMENT_METHOD_ON_FILE", "PAUSED_BY_USER", "AD_GROUP_MISSING"] {
        let v = OpenEnum::<search_ads_codec::vocab::CampaignServingStateReason>::decode(name);
        assert!(matches!(v, OpenEnum::Known(_)));
        assert_eq!(v.encode(), name);
    }
}

//! The fixed-format timestamp codec: round trips, exact padding, and
//! rejection of anything that is not the pattern.

use chrono::{Datelike, Timelike};

use search_ads_codec::timestamp::{encode_optional, Timestamp};

fn ts(
    year: u16,
    month: u8,
    day: u8,
    hour: u8,
    minute: u8,
    second: u8,
    millisecond: u16,
) -> Timestamp {
    Timestamp { year, month, day, hour, minute, second, millisecond }
}

#[test]
fn decode_conforming_text() {
    let t = Timestamp::decode("2021-06-01T00:00:00.000").unwrap();
    assert_eq!(t, ts(2021, 6, 1, 0, 0, 0, 0));
    let t = Timestamp::decode("1999-12-31T23:59:59.999").unwrap();
    assert_eq!(t, ts(1999, 12, 31, 23, 59, 59, 999));
}

#[test]
fn encode_is_zero_padded_and_exact() {
    assert_eq!(ts(2021, 6, 1, 0, 0, 0, 0).encode(), "2021-06-01T00:00:00.000");
    assert_eq!(ts(7, 1, 2, 3, 4, 5, 6).encode(), "0007-01-02T03:04:05.006");
}

#[test]
fn round_trip_decode_of_encode() {
    let cases = [
        ts(2021, 6, 1, 0, 0, 0, 0),
        ts(2020, 2, 29, 12, 34, 56, 789),
        ts(0, 1, 1, 0, 0, 0, 0),
        ts(9999, 12, 31, 23, 59, 59, 999),
    ];
    for t in cases {
        assert_eq!(Timestamp::decode(&t.encode()), Some(t));
    }
}

#[test]
fn round_trip_encode_of_decode() {
    for s in ["2021-06-01T00:00:00.000", "2024-02-29T08:15:30.250"] {
        let t = Timestamp::decode(s).unwrap();
        assert_eq!(t.encode(), s);
    }
}

#[test]
fn rejects_invalid_month() {
    assert_eq!(Timestamp::decode("2021-13-01T00:00:00.000"), None);
}

#[test]
fn rejects_wrong_separator() {
    assert_eq!(Timestamp::decode("2021-06-01 00:00:00.000"), None);
}

#[test]
fn rejects_missing_fraction() {
    assert_eq!(Timestamp::decode("2021-06-01T00:00:00"), None);
}

#[test]
fn rejects_calendar_invalid_days() {
    assert_eq!(Timestamp::decode("2021-02-29T00:00:00.000"), None);
    assert_eq!(Timestamp::decode("2100-02-29T00:00:00.000"), None);
    assert_eq!(Timestamp::decode("2000-02-29T00:00:00.000").is_some(), true);
    assert_eq!(Timestamp::decode("2021-04-31T00:00:00.000"), None);
    assert_eq!(Timestamp::decode("2021-06-00T00:00:00.000"), None);
}

#[test]
fn rejects_zone_and_junk() {
    assert_eq!(Timestamp::decode("2021-06-01T00:00:00.000Z"), None);
    assert_eq!(Timestamp::decode("2021-06-01T00:00:0a.000"), None);
    assert_eq!(Timestamp::decode(""), None);
}

#[test]
fn optional_encoding_uses_absent_marker() {
    assert_eq!(encode_optional(&None), None);
    assert_eq!(
        encode_optional(&Some(ts(2021, 6, 1, 0, 0, 0, 0))),
        Some("2021-06-01T00:00:00.000".to_string())
    );
}

#[test]
fn agrees_with_general_purpose_parser() {
    let s = "2021-06-01T12:34:56.789";
    let ours = Timestamp::decode(s).unwrap();
    let theirs =
        chrono::NaiveDateTime::parse_from_str(s, "%Y-%m-%dT%H:%M:%S%.3f").unwrap();
    assert_eq!(ours.year as i32, theirs.year());
    assert_eq!(ours.month as u32, theirs.month());
    assert_eq!(ours.day as u32, theirs.day());
    assert_eq!(ours.hour as u32, theirs.hour());
    assert_eq!(ours.minute as u32, theirs.minute());
    assert_eq!(ours.second as u32, theirs.second());
    assert_eq!(ours.millisecond as u32, theirs.nanosecond() / 1_000_000);
    assert_eq!(ours.encode(), theirs.format("%Y-%m-%dT%H:%M:%S%.3f").to_string());
}

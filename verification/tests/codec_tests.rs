use chrono::TimeZone;
use lava_top::date::{encode_date, encode_rfc3339, parse_date, parse_rfc3339, PlainDate, UtcTimestamp};
use lava_top::models::common::{
    ContractStatusDto, CurrencyDto, InvoiceStatus, Periodicity, Uuid,
};
use lava_top::models::webhook::WebhookEventType;

fn ts(y: u32, mo: u32, d: u32, h: u32, mi: u32, s: u32) -> UtcTimestamp {
    UtcTimestamp {
        date: PlainDate {
            year: y,
            month: mo,
            day: d,
        },
        hour: h,
        minute: mi,
        second: s,
    }
}

#[test]
fn date_encoding_matches_chrono() {
    let d = PlainDate {
        year: 2024,
        month: 3,
        day: 7,
    };
    let ours = encode_date(&d);
    let theirs = chrono::NaiveDate::from_ymd_opt(2024, 3, 7)
        .unwrap()
        .format("%Y-%m-%d")
        .to_string();
    assert_eq!(ours, theirs);
    assert_eq!(ours, "2024-03-07");
}

#[test]
fn timestamp_encoding_matches_chrono() {
    let t = ts(2024, 1, 2, 3, 4, 5);
    let ours = encode_rfc3339(&t);
    let theirs = chrono::Utc
        .with_ymd_and_hms(2024, 1, 2, 3, 4, 5)
        .unwrap()
        .to_rfc3339();
    assert_eq!(ours, theirs);
    assert_eq!(ours, "2024-01-02T03:04:05+00:00");
}

#[test]
fn date_round_trip_on_values() {
    let d = PlainDate {
        year: 1999,
        month: 12,
        day: 31,
    };
    assert_eq!(parse_date(&encode_date(&d)), Some(d));
    let t = ts(2030, 6, 15, 23, 59, 59);
    assert_eq!(parse_rfc3339(&encode_rfc3339(&t)), Some(t));
}

#[test]
fn timestamp_accepts_zulu_suffix() {
    assert_eq!(parse_rfc3339("2024-01-01T00:00:00Z"), Some(ts(2024, 1, 1, 0, 0, 0)));
    assert_eq!(parse_rfc3339("2024-01-01T00:00:00+00:00"), Some(ts(2024, 1, 1, 0, 0, 0)));
}

#[test]
fn timestamp_tolerates_fractional_seconds() {
    assert_eq!(
        parse_rfc3339("2024-01-01T00:00:01.123Z"),
        Some(ts(2024, 1, 1, 0, 0, 1))
    );
    assert_eq!(
        parse_rfc3339("2024-01-01T00:00:01.5+00:00"),
        Some(ts(2024, 1, 1, 0, 0, 1))
    );
    assert_eq!(parse_rfc3339("2024-01-01T00:00:01.Z"), None);
    assert_eq!(parse_rfc3339("2024-01-01T00:00:01.12x34Z"), None);
}

#[test]
fn bad_dates_are_rejected() {
    assert_eq!(parse_date("2024-02-30"), None);
    assert_eq!(parse_date("2023-02-29"), None);
    assert_eq!(parse_date("2024-13-01"), None);
    assert_eq!(parse_date("2024-2-01"), None);
    assert_eq!(parse_rfc3339("2024-01-01T24:00:00Z"), None);
    assert_eq!(parse_rfc3339("2024-01-01 00:00:00Z"), None);
}

#[test]
fn leap_day_is_accepted() {
    assert_eq!(
        parse_date("2024-02-29"),
        Some(PlainDate {
            year: 2024,
            month: 2,
            day: 29
        })
    );
    assert_eq!(parse_date("2000-02-29").is_some(), true);
    assert_eq!(parse_date("1900-02-29"), None);
}

#[test]
fn uuid_acceptance_matches_the_uuid_crate() {
    let good = "0193CF5F-8A94-7B39-9A2E-2F3C4D5E6F70";
    let bad = "0193cf5f-8a94-7b39-9a2e-2f3c4d5e6f7";
    assert!(uuid::Uuid::parse_str(good).is_ok());
    let u = Uuid::parse(good).unwrap();
    assert_eq!(u.text, good);
    assert!(uuid::Uuid::parse_str(bad).is_err());
    assert!(Uuid::parse(bad).is_none());
    assert!(Uuid::parse("0193cf5f8a947b399a2e2f3c4d5e6f70").is_none());
}

#[test]
fn closed_enums_reject_unknown_wire_values() {
    assert_eq!(CurrencyDto::from_wire("RUB"), Some(CurrencyDto::Rub));
    assert_eq!(CurrencyDto::from_wire("GBP"), None);
    assert_eq!(Periodicity::from_wire("PERIOD90_DAYS"), Some(Periodicity::Period90Days));
    assert_eq!(Periodicity::from_wire("period90_days"), None);
}

#[test]
fn open_enums_fall_back_to_unknown() {
    assert_eq!(InvoiceStatus::from_wire("IN_PROGRESS"), InvoiceStatus::InProgress);
    assert_eq!(InvoiceStatus::from_wire("BRAND_NEW_STATE"), InvoiceStatus::Unknown);
    assert_eq!(
        ContractStatusDto::from_wire("subscription-active"),
        ContractStatusDto::SubscriptionActive
    );
    assert_eq!(ContractStatusDto::from_wire("whatever"), ContractStatusDto::Unknown);
    assert_eq!(
        WebhookEventType::from_wire("subscription_cancelled"),
        WebhookEventType::SubscriptionCancelled
    );
    assert_eq!(WebhookEventType::from_wire("mystery"), WebhookEventType::Unknown);
}

#[test]
fn contract_status_spells_its_wire_name() {
    assert_eq!(
        ContractStatusDto::InProgress.to_snake_case_string().unwrap(),
        "in-progress"
    );
    assert_eq!(
        ContractStatusDto::SubscriptionExpired.to_snake_case_string().unwrap(),
        "subscription-expired"
    );
}

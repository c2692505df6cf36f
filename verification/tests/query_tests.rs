use lava_top::date::{PlainDate, UtcTimestamp};
use lava_top::error::LavaTopError;
use lava_top::models::common::{ContractStatusDto, CurrencyDto, InvoiceStatus};
use lava_top::models::feed::GetFeedParams;
use lava_top::models::invoice::ListInvoicesParams;
use lava_top::models::report::{ListPartnerProductSalesParams, ListPartnerSalesParams};

fn keys(pairs: &[(String, String)]) -> Vec<&str> {
    pairs.iter().map(|(k, _)| k.as_str()).collect()
}

#[test]
fn unset_fields_never_reach_the_query_string() {
    let p = ListInvoicesParams {
        page: Some(2),
        ..Default::default()
    };
    let pairs = p.to_query_pairs().unwrap();
    assert_eq!(pairs, vec![("page".to_string(), "2".to_string())]);
    assert!(!keys(&pairs).contains(&"beginDate"));
    assert!(!keys(&pairs).contains(&"size"));
    assert!(!keys(&pairs).contains(&"currencies"));
}

#[test]
fn empty_params_give_an_empty_query() {
    let pairs = ListInvoicesParams::default().to_query_pairs().unwrap();
    assert!(pairs.is_empty());
    let pairs = GetFeedParams::default().to_query_pairs();
    assert!(pairs.is_empty());
    let pairs = ListPartnerSalesParams::default().to_query_pairs();
    assert!(pairs.is_empty());
}

#[test]
fn dates_serialize_in_their_two_wire_forms() {
    let p = ListInvoicesParams {
        begin_date: Some(UtcTimestamp {
            date: PlainDate {
                year: 2024,
                month: 1,
                day: 2,
            },
            hour: 3,
            minute: 4,
            second: 5,
        }),
        ..Default::default()
    };
    let pairs = p.to_query_pairs().unwrap();
    assert_eq!(
        pairs,
        vec![("beginDate".to_string(), "2024-01-02T03:04:05+00:00".to_string())]
    );

    let q = ListPartnerProductSalesParams {
        from_date: Some(PlainDate {
            year: 2023,
            month: 11,
            day: 30,
        }),
        ..Default::default()
    };
    let pairs = q.to_query_pairs().unwrap();
    assert_eq!(
        pairs,
        vec![("fromDate".to_string(), "2023-11-30".to_string())]
    );
}

#[test]
fn impossible_dates_fail_with_invalid_query_param() {
    let p = ListInvoicesParams {
        begin_date: Some(UtcTimestamp {
            date: PlainDate {
                year: 2024,
                month: 13,
                day: 1,
            },
            hour: 0,
            minute: 0,
            second: 0,
        }),
        ..Default::default()
    };
    assert!(matches!(
        p.to_query_pairs(),
        Err(LavaTopError::InvalidQueryParam(_))
    ));

    let q = ListPartnerProductSalesParams {
        to_date: Some(PlainDate {
            year: 2023,
            month: 2,
            day: 29,
        }),
        ..Default::default()
    };
    assert!(matches!(
        q.to_query_pairs(),
        Err(LavaTopError::InvalidQueryParam(_))
    ));
}

#[test]
fn list_fields_repeat_their_key_in_order() {
    let p = ListInvoicesParams {
        currencies: Some(vec![CurrencyDto::Rub, CurrencyDto::Eur]),
        invoice_statuses: Some(vec![InvoiceStatus::New]),
        size: Some(50),
        ..Default::default()
    };
    let pairs = p.to_query_pairs().unwrap();
    assert_eq!(
        pairs,
        vec![
            ("currencies".to_string(), "RUB".to_string()),
            ("currencies".to_string(), "EUR".to_string()),
            ("invoiceStatuses".to_string(), "NEW".to_string()),
            ("size".to_string(), "50".to_string()),
        ]
    );
}

#[test]
fn negative_paging_values_keep_their_sign() {
    let p = ListPartnerSalesParams {
        page: Some(-1),
        size: Some(0),
    };
    let pairs = p.to_query_pairs();
    assert_eq!(
        pairs,
        vec![
            ("page".to_string(), "-1".to_string()),
            ("size".to_string(), "0".to_string()),
        ]
    );
}

#[test]
fn report_filters_spell_their_wire_names() {
    let p = ListPartnerProductSalesParams {
        currency: Some(CurrencyDto::Usd),
        status: Some(ContractStatusDto::SubscriptionCancelled),
        search: Some("course".to_string()),
        ..Default::default()
    };
    let pairs = p.to_query_pairs().unwrap();
    assert_eq!(
        pairs,
        vec![
            ("currency".to_string(), "USD".to_string()),
            ("status".to_string(), "subscription-cancelled".to_string()),
            ("search".to_string(), "course".to_string()),
        ]
    );
}

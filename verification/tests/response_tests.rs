use lava_top::client::{
    cancel_subscription_response, create_invoice_response, get_invoice_by_id_response,
    list_products_v2_response, success_json,
};
use lava_top::date::{PlainDate, UtcTimestamp};
use lava_top::error::LavaTopError;
use lava_top::http::HttpResponse;
use lava_top::json::{JsonValue, WireNumber};
use lava_top::models::common::{ContractStatusDto, CurrencyDto, InvoiceStatus, InvoiceType};

fn resp(status: u16, body: &str) -> HttpResponse {
    HttpResponse {
        status,
        body: Some(body.to_string()),
    }
}

#[test]
fn cancel_empty_success_succeeds() {
    let r = cancel_subscription_response(HttpResponse {
        status: 204,
        body: None,
    });
    assert!(r.is_ok());
}

#[test]
fn cancel_unexpected_success_status_still_succeeds() {
    let r = cancel_subscription_response(resp(200, ""));
    assert!(r.is_ok());
}

#[test]
fn cancel_not_found_carries_status_details_and_raw_body() {
    let body = "{\"error\":\"not_found\",\"timestamp\":\"2024-01-01T00:00:00Z\"}";
    let r = cancel_subscription_response(resp(404, body));
    match r {
        Err(LavaTopError::ApiError {
            status,
            details,
            raw_body,
        }) => {
            assert_eq!(status, 404);
            assert_eq!(raw_body.as_deref(), Some(body));
            let d = details.expect("the body parses as the structured error shape");
            assert_eq!(d.error.as_deref(), Some("not_found"));
            assert_eq!(d.details, None);
            assert_eq!(
                d.timestamp,
                Some(UtcTimestamp {
                    date: PlainDate {
                        year: 2024,
                        month: 1,
                        day: 1
                    },
                    hour: 0,
                    minute: 0,
                    second: 0,
                })
            );
        }
        other => panic!("expected an ApiError, got {:?}", other),
    }
}

#[test]
fn failure_with_unparsable_body_keeps_the_raw_text() {
    let r = create_invoice_response(resp(500, "upstream exploded"));
    match r {
        Err(LavaTopError::ApiError {
            status,
            details,
            raw_body,
        }) => {
            assert_eq!(status, 500);
            assert_eq!(details, None);
            assert_eq!(raw_body.as_deref(), Some("upstream exploded"));
        }
        other => panic!("expected an ApiError, got {:?}", other),
    }
}

#[test]
fn failure_with_wrongly_typed_error_field_keeps_the_raw_text() {
    let body = "{\"error\":123}";
    let r = create_invoice_response(resp(400, body));
    match r {
        Err(LavaTopError::ApiError {
            status,
            details,
            raw_body,
        }) => {
            assert_eq!(status, 400);
            assert_eq!(details, None);
            assert_eq!(raw_body.as_deref(), Some(body));
        }
        other => panic!("expected an ApiError, got {:?}", other),
    }
}

#[test]
fn success_json_hands_back_the_parsed_tree() {
    let r = success_json(resp(200, "{\"a\":1,\"b\":\"x\",\"c\":[true,null],\"d\":1.5}"));
    let expected = JsonValue::Obj(vec![
        ("a".to_string(), JsonValue::Int(1)),
        ("b".to_string(), JsonValue::Str("x".to_string())),
        (
            "c".to_string(),
            JsonValue::Arr(vec![JsonValue::Bool(true), JsonValue::Null]),
        ),
        ("d".to_string(), JsonValue::Flt("1.5".to_string())),
    ]);
    assert_eq!(r.unwrap(), expected);
}

#[test]
fn success_with_invalid_json_is_a_serialization_error() {
    let r = create_invoice_response(resp(200, "not json"));
    assert!(matches!(r, Err(LavaTopError::Serialization(_))));
}

#[test]
fn success_with_mismatched_shape_is_a_serialization_error() {
    let r = create_invoice_response(resp(200, "{\"status\":\"new\"}"));
    assert!(matches!(r, Err(LavaTopError::Serialization(_))));
}

#[test]
fn matching_success_body_decodes_fully() {
    let body = "{\"id\":\"0193cf5f-8a94-7b39-9a2e-2f3c4d5e6f70\",\"status\":\"in-progress\",\
                \"amountTotal\":{\"currency\":\"RUB\",\"amount\":150.5},\
                \"paymentUrl\":\"https://pay.example.com/w/1\"}";
    let p = create_invoice_response(resp(201, body)).unwrap();
    assert_eq!(p.id.text, "0193cf5f-8a94-7b39-9a2e-2f3c4d5e6f70");
    assert_eq!(p.status, ContractStatusDto::InProgress);
    assert_eq!(p.amount_total.currency, CurrencyDto::Rub);
    assert_eq!(p.amount_total.amount, WireNumber::Literal("150.5".to_string()));
    assert_eq!(p.payment_url.as_deref(), Some("https://pay.example.com/w/1"));
}

#[test]
fn unknown_invoice_status_decodes_to_the_fallback() {
    let body = "{\"id\":\"0193cf5f-8a94-7b39-9a2e-2f3c4d5e6f70\",\"type\":\"ONE_TIME\",\
                \"datetime\":\"2024-05-06T07:08:09Z\",\"status\":\"FRESH_WIRE_STATUS\"}";
    let inv = get_invoice_by_id_response(resp(200, body)).unwrap();
    assert_eq!(inv.status, InvoiceStatus::Unknown);
    assert_eq!(inv.invoice_type, InvoiceType::OneTime);
    assert_eq!(inv.datetime.date.day, 6);
    assert!(inv.receipt.is_none());
    assert!(inv.client_utm.is_none());
}

#[test]
fn invalid_invoice_type_fails_the_whole_record() {
    let body = "{\"id\":\"0193cf5f-8a94-7b39-9a2e-2f3c4d5e6f70\",\"type\":\"SOMETHING\",\
                \"datetime\":\"2024-05-06T07:08:09Z\",\"status\":\"NEW\"}";
    let r = get_invoice_by_id_response(resp(200, body));
    assert!(matches!(r, Err(LavaTopError::Serialization(_))));
}

#[test]
fn cursor_page_with_null_next_page_reports_no_further_page() {
    let p = list_products_v2_response(resp(200, "{\"items\":[],\"nextPage\":null}")).unwrap();
    assert!(!p.has_next_page());
    assert!(p.items.is_empty());
}

#[test]
fn cursor_page_with_next_page_reports_a_further_page() {
    let body = "{\"items\":[],\"nextPage\":\"https://gate.lava.top/api/v2/products?page=2\"}";
    let p = list_products_v2_response(resp(200, body)).unwrap();
    assert!(p.has_next_page());
    assert_eq!(
        p.next_page.as_deref(),
        Some("https://gate.lava.top/api/v2/products?page=2")
    );
}

#[test]
fn feed_data_prefers_the_product_shape() {
    let body = "{\"items\":[{\"type\":\"PRODUCT\",\"data\":{\"id\":\
                \"0193cf5f-8a94-7b39-9a2e-2f3c4d5e6f70\",\"type\":\"COURSE\",\"prices\":[]}}],\
                \"nextPage\":null}";
    let p = list_products_v2_response(resp(200, body)).unwrap();
    assert_eq!(p.items.len(), 1);
    match &p.items[0].data {
        lava_top::models::product::FeedData::Product(prod) => {
            assert_eq!(prod.offers.len(), 0);
        }
        other => panic!("the product shape must win, got {:?}", other),
    }
}


#[test]
fn full_invoice_record_decodes_every_nested_shape() {
    let body = "{\"id\":\"0193cf5f-8a94-7b39-9a2e-2f3c4d5e6f70\",\"type\":\"RECURRING\",\
                \"datetime\":\"2024-05-06T07:08:09Z\",\"status\":\"COMPLETED\",\
                \"receipt\":{\"amount\":10,\"currency\":\"USD\",\"fee\":0.3},\
                \"buyer\":{\"email\":\"b@example.com\",\"cardMask\":\"**42\"},\
                \"product\":{\"name\":\"Course\",\"offer\":\"Monthly\"},\
                \"parentInvoice\":{\"id\":\"1193cf5f-8a94-7b39-9a2e-2f3c4d5e6f70\"},\
                \"subscriptionStatus\":\"ACTIVE\",\
                \"subscriptionDetails\":{\"expiredAt\":\"2024-06-06T07:08:09Z\",\
                \"terminatedAt\":null},\
                \"clientUtm\":{\"utm_source\":\"ads\"}}";
    let inv = get_invoice_by_id_response(resp(200, body)).unwrap();
    assert_eq!(inv.invoice_type, InvoiceType::Recurring);
    assert_eq!(inv.status, InvoiceStatus::Completed);
    let receipt = inv.receipt.unwrap();
    assert_eq!(receipt.amount, WireNumber::Int(10));
    assert_eq!(receipt.currency, CurrencyDto::Usd);
    assert_eq!(receipt.fee, Some(WireNumber::Literal("0.3".to_string())));
    assert_eq!(inv.buyer.unwrap().card_mask.as_deref(), Some("**42"));
    assert_eq!(inv.product.unwrap().offer.as_deref(), Some("Monthly"));
    assert_eq!(
        inv.parent_invoice.unwrap().id.text,
        "1193cf5f-8a94-7b39-9a2e-2f3c4d5e6f70"
    );
    assert_eq!(
        inv.subscription_status,
        Some(lava_top::models::common::SubscriptionStatus::Active)
    );
    let details = inv.subscription_details.unwrap();
    assert_eq!(details.expired_at.unwrap().date.month, 6);
    assert_eq!(details.terminated_at, None);
    assert_eq!(details.cancelled_at, None);
    assert_eq!(inv.client_utm.unwrap().utm_source.as_deref(), Some("ads"));
}

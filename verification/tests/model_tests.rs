use lava_top::client::{
    get_donate_link_response, get_feed_response, list_partner_sales_response, LavaTopClient,
};
use lava_top::error::LavaTopError;
use lava_top::http::HttpResponse;
use lava_top::json::{JsonValue, WireNumber};
use lava_top::models::common::{ContractStatusDto, ClientUtmDto, CurrencyDto, Periodicity, Uuid};
use lava_top::models::invoice::InvoiceRequestDto;
use lava_top::models::product::{ProductUpdateRequest, UpdateOfferRequest, UpdatePriceRequest};
use lava_top::models::webhook::{parse_webhook, WebhookEventType};

#[test]
fn full_invoice_request_encodes_in_declaration_order() {
    let c = LavaTopClient::new("key".to_string(), None).unwrap();
    let request = InvoiceRequestDto {
        email: "b@example.com".to_string(),
        offer_id: Uuid::parse("0193cf5f-8a94-7b39-9a2e-2f3c4d5e6f70").unwrap(),
        periodicity: Some(Periodicity::Monthly),
        currency: CurrencyDto::Eur,
        payment_method: None,
        buyer_language: None,
        client_utm: Some(ClientUtmDto {
            utm_source: Some("ads".to_string()),
            utm_medium: None,
            utm_campaign: None,
            utm_term: None,
            utm_content: Some("banner".to_string()),
        }),
    };
    let req = c.create_invoice_v1_request(&request).unwrap();
    let expected = JsonValue::Obj(vec![
        ("email".to_string(), JsonValue::Str("b@example.com".to_string())),
        (
            "offerId".to_string(),
            JsonValue::Str("0193cf5f-8a94-7b39-9a2e-2f3c4d5e6f70".to_string()),
        ),
        ("periodicity".to_string(), JsonValue::Str("MONTHLY".to_string())),
        ("currency".to_string(), JsonValue::Str("EUR".to_string())),
        (
            "clientUtm".to_string(),
            JsonValue::Obj(vec![
                ("utm_source".to_string(), JsonValue::Str("ads".to_string())),
                ("utm_content".to_string(), JsonValue::Str("banner".to_string())),
            ]),
        ),
    ]);
    assert_eq!(req.body.unwrap(), expected);
}

#[test]
fn product_update_encodes_offers_and_prices() {
    let c = LavaTopClient::new("key".to_string(), None).unwrap();
    let id = Uuid::parse("0193cf5f-8a94-7b39-9a2e-2f3c4d5e6f70").unwrap();
    let request = ProductUpdateRequest {
        offers: Some(vec![UpdateOfferRequest {
            id: id.clone(),
            prices: Some(vec![UpdatePriceRequest {
                amount: WireNumber::Literal("19.99".to_string()),
                currency: CurrencyDto::Usd,
            }]),
            name: Some("New name".to_string()),
            description: None,
        }]),
    };
    let req = c.update_product_request(&id, &request).unwrap();
    assert_eq!(
        req.url,
        "https://gate.lava.top/api/v2/products/0193cf5f-8a94-7b39-9a2e-2f3c4d5e6f70"
    );
    let expected = JsonValue::Obj(vec![(
        "offers".to_string(),
        JsonValue::Arr(vec![JsonValue::Obj(vec![
            (
                "id".to_string(),
                JsonValue::Str("0193cf5f-8a94-7b39-9a2e-2f3c4d5e6f70".to_string()),
            ),
            (
                "prices".to_string(),
                JsonValue::Arr(vec![JsonValue::Obj(vec![
                    ("amount".to_string(), JsonValue::Flt("19.99".to_string())),
                    ("currency".to_string(), JsonValue::Str("USD".to_string())),
                ])]),
            ),
            ("name".to_string(), JsonValue::Str("New name".to_string())),
        ])]),
    )]);
    assert_eq!(req.body.unwrap(), expected);
}

#[test]
fn webhook_envelope_decodes_with_fallback_status() {
    let text = "{\"eventType\":\"payment_success\",\
                \"product\":{\"id\":\"0193cf5f-8a94-7b39-9a2e-2f3c4d5e6f70\",\"title\":\"Course\"},\
                \"contractId\":\"1193cf5f-8a94-7b39-9a2e-2f3c4d5e6f70\",\
                \"buyer\":{\"email\":\"b@example.com\"},\
                \"amount\":100,\"currency\":\"RUB\",\"status\":\"shiny-new\",\
                \"timestamp\":\"2024-01-01T00:00:00Z\"}";
    let log = parse_webhook(text).unwrap();
    assert_eq!(log.event_type, WebhookEventType::PaymentSuccess);
    assert_eq!(log.product.unwrap().title.as_deref(), Some("Course"));
    assert_eq!(log.contract_id.text, "1193cf5f-8a94-7b39-9a2e-2f3c4d5e6f70");
    assert_eq!(log.parent_contract_id, None);
    assert_eq!(log.amount, Some(WireNumber::Int(100)));
    assert_eq!(log.currency, Some(CurrencyDto::Rub));
    assert_eq!(log.status, Some(ContractStatusDto::Unknown));
    assert!(log.cancelled_at.is_none());
}

#[test]
fn webhook_with_bad_contract_id_fails() {
    let text = "{\"eventType\":\"payment_success\",\"contractId\":\"nope\"}";
    assert!(parse_webhook(text).is_none());
}

#[test]
fn partner_sales_page_decodes() {
    let body = "{\"items\":[{\"productId\":\"0193cf5f-8a94-7b39-9a2e-2f3c4d5e6f70\",\
                \"title\":\"Course\",\"sales\":[{\"currency\":\"RUB\",\"count\":3,\
                \"amountTotal\":450.5}]}],\"total\":1,\"page\":1,\"size\":10,\"totalPages\":1}";
    let p = list_partner_sales_response(HttpResponse {
        status: 200,
        body: Some(body.to_string()),
    })
    .unwrap();
    assert_eq!(p.total_pages, 1);
    assert_eq!(p.items.len(), 1);
    assert_eq!(p.items[0].sales[0].count, 3);
    assert_eq!(
        p.items[0].sales[0].amount_total,
        WireNumber::Literal("450.5".to_string())
    );
}

#[test]
fn v1_feed_page_decodes_with_defaulted_lists() {
    let body = "{\"items\":[{\"type\":\"PRODUCT\",\"data\":{\"id\":\
                \"0193cf5f-8a94-7b39-9a2e-2f3c4d5e6f70\",\"type\":\"BOOK\",\"offers\":[\
                {\"id\":\"1193cf5f-8a94-7b39-9a2e-2f3c4d5e6f70\",\"prices\":[\
                {\"currency\":\"RUB\"}]}]}}],\"page\":1,\"size\":10,\"total\":1}";
    let p = get_feed_response(HttpResponse {
        status: 200,
        body: Some(body.to_string()),
    })
    .unwrap();
    assert_eq!(p.total, Some(1));
    let item = &p.items[0];
    let data = item.data.as_ref().unwrap();
    assert_eq!(data.offers.len(), 1);
    assert!(data.offers[0].available_posts.is_empty());
    assert!(data.offers[0].reasons.is_empty());
    assert_eq!(data.offers[0].prices[0].currency, CurrencyDto::Rub);
    assert_eq!(data.offers[0].prices[0].amount, None);
}

#[test]
fn donate_link_must_be_a_url() {
    let ok = get_donate_link_response(HttpResponse {
        status: 200,
        body: Some("{\"url\":\"https://lava.top/me\"}".to_string()),
    })
    .unwrap();
    assert_eq!(ok.url, "https://lava.top/me");
    let bad = get_donate_link_response(HttpResponse {
        status: 200,
        body: Some("{\"url\":\"not a url\"}".to_string()),
    });
    assert!(matches!(bad, Err(LavaTopError::Serialization(_))));
}

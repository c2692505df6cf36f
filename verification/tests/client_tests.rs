use lava_top::client::{LavaTopClient, REQUEST_TIMEOUT_SECS};
use lava_top::error::LavaTopError;
use lava_top::http::HttpMethod;
use lava_top::json::JsonValue;
use lava_top::models::common::{CurrencyDto, Uuid};
use lava_top::models::invoice::InvoiceRequestDto;
use lava_top::models::subscription::CancelSubscriptionParams;

fn header_value<'a>(headers: &'a [(String, String)], name: &str) -> Option<&'a str> {
    headers
        .iter()
        .find(|(k, _)| k == name)
        .map(|(_, v)| v.as_str())
}

#[test]
fn empty_api_key_is_rejected() {
    let r = LavaTopClient::new(String::new(), None);
    match r {
        Err(e) => {
            assert!(matches!(e, LavaTopError::MissingParameter(_)));
            assert_eq!(e.tag(), "missing_parameter");
        }
        Ok(_) => panic!("an empty API key must be rejected"),
    }
}

#[test]
fn whitespace_api_key_is_rejected() {
    let r = LavaTopClient::new(" \t\n\u{a0} ".to_string(), None);
    assert!(matches!(r, Err(LavaTopError::MissingParameter(_))));
}

#[test]
fn blank_api_key_is_rejected_with_base_override() {
    let r = LavaTopClient::new("   ".to_string(), Some("https://example.com/".to_string()));
    assert!(matches!(r, Err(LavaTopError::MissingParameter(_))));
}

#[test]
fn client_defaults_base_url_and_timeout() {
    let c = LavaTopClient::new("key".to_string(), None).unwrap();
    assert_eq!(c.base_url, "https://gate.lava.top/");
    assert_eq!(c.timeout_secs, REQUEST_TIMEOUT_SECS);
    assert_eq!(c.timeout_secs, 30);
}

#[test]
fn set_base_url_replaces_only_the_base() {
    let mut c = LavaTopClient::new("key".to_string(), None).unwrap();
    c.set_base_url("https://example.net/".to_string());
    assert_eq!(c.base_url, "https://example.net/");
    assert_eq!(c.api_key, "key");
}

#[test]
fn build_url_joins_against_base() {
    let c = LavaTopClient::new("key".to_string(), None).unwrap();
    let u = c.build_url("/api/v1/feed").unwrap();
    let expected = url::Url::parse("https://gate.lava.top/")
        .unwrap()
        .join("api/v1/feed")
        .unwrap();
    assert_eq!(u, expected.as_str());
    assert_eq!(u, "https://gate.lava.top/api/v1/feed");
}

#[test]
fn build_url_rejects_unparsable_base() {
    let c = LavaTopClient::new("key".to_string(), Some("not a url".to_string())).unwrap();
    let r = c.build_url("/api/v1/feed");
    assert!(matches!(r, Err(LavaTopError::UrlParse(_))));
}

#[test]
fn api_key_with_illegal_header_character_fails_request_building() {
    let c = LavaTopClient::new("bad\nkey".to_string(), None).unwrap();
    let r = c.get_donate_link_request();
    assert!(matches!(r, Err(LavaTopError::InvalidHeaderValue(_))));
}

#[test]
fn request_without_body_has_no_content_type() {
    let c = LavaTopClient::new("key".to_string(), None).unwrap();
    let req = c.get_donate_link_request().unwrap();
    assert_eq!(req.method, HttpMethod::Get);
    assert_eq!(req.url, "https://gate.lava.top/api/v1/donate");
    assert_eq!(header_value(&req.headers, "Content-Type"), None);
    assert_eq!(header_value(&req.headers, "Accept"), Some("application/json"));
    assert_eq!(header_value(&req.headers, "X-Api-Key"), Some("key"));
    assert!(req.body.is_none());
    assert!(req.query.is_empty());
}

#[test]
fn request_with_body_carries_content_type_and_encoded_body() {
    let c = LavaTopClient::new("key".to_string(), None).unwrap();
    let request = InvoiceRequestDto {
        email: "buyer@example.com".to_string(),
        offer_id: Uuid::parse("0193cf5f-8a94-7b39-9a2e-2f3c4d5e6f70").unwrap(),
        periodicity: None,
        currency: CurrencyDto::Rub,
        payment_method: None,
        buyer_language: None,
        client_utm: None,
    };
    let req = c.create_invoice_v2_request(&request).unwrap();
    assert_eq!(req.method, HttpMethod::Post);
    assert_eq!(req.url, "https://gate.lava.top/api/v2/invoice");
    assert_eq!(
        header_value(&req.headers, "Content-Type"),
        Some("application/json")
    );
    let body = req.body.expect("a purchase request must carry a body");
    let expected = JsonValue::Obj(vec![
        (
            "email".to_string(),
            JsonValue::Str("buyer@example.com".to_string()),
        ),
        (
            "offerId".to_string(),
            JsonValue::Str("0193cf5f-8a94-7b39-9a2e-2f3c4d5e6f70".to_string()),
        ),
        ("currency".to_string(), JsonValue::Str("RUB".to_string())),
    ]);
    assert_eq!(body, expected);
}

#[test]
fn invoice_path_embeds_the_identifier() {
    let c = LavaTopClient::new("key".to_string(), None).unwrap();
    let id = Uuid::parse("0193cf5f-8a94-7b39-9a2e-2f3c4d5e6f70").unwrap();
    let req = c.get_invoice_by_id_request(&id).unwrap();
    assert_eq!(
        req.url,
        "https://gate.lava.top/api/v1/invoices/0193cf5f-8a94-7b39-9a2e-2f3c4d5e6f70"
    );
}

#[test]
fn cancel_request_sends_both_query_parameters() {
    let c = LavaTopClient::new("key".to_string(), None).unwrap();
    let params = CancelSubscriptionParams {
        contract_id: Uuid::parse("0193cf5f-8a94-7b39-9a2e-2f3c4d5e6f70").unwrap(),
        email: "buyer@example.com".to_string(),
    };
    let req = c.cancel_subscription_request(&params).unwrap();
    assert_eq!(req.method, HttpMethod::Delete);
    assert_eq!(
        req.query,
        vec![
            (
                "contractId".to_string(),
                "0193cf5f-8a94-7b39-9a2e-2f3c4d5e6f70".to_string()
            ),
            ("email".to_string(), "buyer@example.com".to_string()),
        ]
    );
}

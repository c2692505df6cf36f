//! The webhook event envelope. The library defines the shape and its
//! decoder for the embedding application; it neither receives nor
//! routes webhooks itself.

use vstd::prelude::*;
use crate::strutil::str_eq;
use crate::json::{
    JsonValue, WireNumber, spec_req_str, req_str, spec_opt_str, opt_str, spec_field, field,
    spec_opt_num, opt_num, spec_parse_json, parse_json,
};
use crate::models::common::{
    CurrencyDto, ContractStatusDto, ClientUtmDto, Uuid, spec_req_uuid, req_uuid, spec_opt_uuid,
    opt_uuid, spec_opt_ts, opt_ts, spec_opt_utm, opt_utm,
};
use crate::date::UtcTimestamp;

verus! {

/// The kind of a webhook event; unrecognized wire values fall back to
/// `Unknown`.
#[derive(Debug, Clone, Copy, PartialEq, Eq, Hash, Structural)]
pub enum WebhookEventType {
    PaymentSuccess,
    PaymentFailed,
    SubscriptionRecurringPaymentSuccess,
    SubscriptionRecurringPaymentFailed,
    SubscriptionCancelled,
    Unknown,
}

impl WebhookEventType {
    /// The wire spelling of each variant.
    pub open spec fn spec_wire_name(self) -> Seq<char> {
        match self {
            WebhookEventType::PaymentSuccess => "payment_success"@,
            WebhookEventType::PaymentFailed => "payment_failed"@,
            WebhookEventType::SubscriptionRecurringPaymentSuccess => "subscription_recurring_payment_success"@,
            WebhookEventType::SubscriptionRecurringPaymentFailed => "subscription_recurring_payment_failed"@,
            WebhookEventType::SubscriptionCancelled => "subscription_cancelled"@,
            WebhookEventType::Unknown => "unknown"@,
        }
    }

    pub fn wire_name(&self) -> (r: String)
        ensures
            r@ == self.spec_wire_name(),
    {
        match self {
            WebhookEventType::PaymentSuccess => "payment_success".to_owned(),
            WebhookEventType::PaymentFailed => "payment_failed".to_owned(),
            WebhookEventType::SubscriptionRecurringPaymentSuccess => "subscription_recurring_payment_success".to_owned(),
            WebhookEventType::SubscriptionRecurringPaymentFailed => "subscription_recurring_payment_failed".to_owned(),
            WebhookEventType::SubscriptionCancelled => "subscription_cancelled".to_owned(),
            WebhookEventType::Unknown => "unknown".to_owned(),
        }
    }

    /// The variant a wire string denotes; any unrecognized string
    /// falls back to `Unknown`, so decoding never fails.
    pub open spec fn spec_from_wire(s: Seq<char>) -> WebhookEventType {
        if s == "payment_success"@ {
            WebhookEventType::PaymentSuccess
        } else if s == "payment_failed"@ {
            WebhookEventType::PaymentFailed
        } else if s == "subscription_recurring_payment_success"@ {
            WebhookEventType::SubscriptionRecurringPaymentSuccess
        } else if s == "subscription_recurring_payment_failed"@ {
            WebhookEventType::SubscriptionRecurringPaymentFailed
        } else if s == "subscription_cancelled"@ {
            WebhookEventType::SubscriptionCancelled
        } else {
            WebhookEventType::Unknown
        }
    }

    pub fn from_wire(s: &str) -> (r: WebhookEventType)
        ensures
            r == WebhookEventType::spec_from_wire(s@),
    {
        if str_eq(s, "payment_success") {
            WebhookEventType::PaymentSuccess
        } else if str_eq(s, "payment_failed") {
            WebhookEventType::PaymentFailed
        } else if str_eq(s, "subscription_recurring_payment_success") {
            WebhookEventType::SubscriptionRecurringPaymentSuccess
        } else if str_eq(s, "subscription_recurring_payment_failed") {
            WebhookEventType::SubscriptionRecurringPaymentFailed
        } else if str_eq(s, "subscription_cancelled") {
            WebhookEventType::SubscriptionCancelled
        } else {
            WebhookEventType::Unknown
        }
    }
}

/// The product an event concerns.
#[derive(Debug, Clone, PartialEq, Eq)]
pub struct WebhookProduct {
    pub id: Uuid,
    pub title: Option<String>,
}

pub open spec fn spec_decode_webhook_product(v: JsonValue) -> Option<WebhookProduct> {
    if !(v is Obj) {
        None
    } else {
        match spec_req_uuid(v, "id"@) {
            None => None,
            Some(id) => match spec_opt_str(v, "title"@) {
                None => None,
                Some(title) => Some(WebhookProduct { id, title }),
            },
        }
    }
}

pub fn decode_webhook_product(v: &JsonValue) -> (r: Option<WebhookProduct>)
    ensures
        r == spec_decode_webhook_product(*v),
{
    match v {
        JsonValue::Obj(_) => {},
        _ => {
            return None;
        },
    }
    let id = match req_uuid(v, "id") {
        Some(x) => x,
        None => {
            return None;
        },
    };
    let title = match opt_str(v, "title") {
        Some(x) => x,
        None => {
            return None;
        },
    };
    Some(WebhookProduct { id, title })
}

/// The buyer an event concerns.
#[derive(Debug, Clone, PartialEq, Eq)]
pub struct WebhookBuyer {
    pub email: String,
}

pub open spec fn spec_decode_webhook_buyer(v: JsonValue) -> Option<WebhookBuyer> {
    if !(v is Obj) {
        None
    } else {
        match spec_req_str(v, "email"@) {
            Some(e) => Some(WebhookBuyer { email: e }),
            None => None,
        }
    }
}

pub fn decode_webhook_buyer(v: &JsonValue) -> (r: Option<WebhookBuyer>)
    ensures
        r == spec_decode_webhook_buyer(*v),
{
    match v {
        JsonValue::Obj(_) => {},
        _ => {
            return None;
        },
    }
    match req_str(v, "email") {
        Some(e) => Some(WebhookBuyer { email: e }),
        None => None,
    }
}

/// A purchase or subscription event. Only `eventType` and `contractId`
/// are required; cancellation events and payment events carry different
/// optional fields.
#[derive(Debug, Clone, PartialEq, Eq)]
pub struct PurchaseWebhookLog {
    pub event_type: WebhookEventType,
    pub product: Option<WebhookProduct>,
    pub contract_id: Uuid,
    pub parent_contract_id: Option<Uuid>,
    pub buyer: Option<WebhookBuyer>,
    pub amount: Option<WireNumber>,
    pub currency: Option<CurrencyDto>,
    pub status: Option<ContractStatusDto>,
    pub timestamp: Option<UtcTimestamp>,
    pub client_utm: Option<ClientUtmDto>,
    pub error_message: Option<String>,
    pub cancelled_at: Option<UtcTimestamp>,
    pub will_expire_at: Option<UtcTimestamp>,
}

pub open spec fn spec_decode_webhook_log(v: JsonValue) -> Option<PurchaseWebhookLog> {
    if !(v is Obj) {
        None
    } else {
        match spec_req_str(v, "eventType"@) {
            None => None,
            Some(et) => match (match spec_field(v, "product"@) {
                None => Some(None),
                Some(JsonValue::Null) => Some(None),
                Some(x) => match spec_decode_webhook_product(x) {
                    Some(p) => Some(Some(p)),
                    None => None,
                },
            }) {
                None => None,
                Some(product) => match spec_req_uuid(v, "contractId"@) {
                    None => None,
                    Some(cid) => match spec_opt_uuid(v, "parentContractId"@) {
                        None => None,
                        Some(pcid) => match (match spec_field(v, "buyer"@) {
                            None => Some(None),
                            Some(JsonValue::Null) => Some(None),
                            Some(x) => match spec_decode_webhook_buyer(x) {
                                Some(b) => Some(Some(b)),
                                None => None,
                            },
                        }) {
                            None => None,
                            Some(buyer) => match spec_opt_num(v, "amount"@) {
                                None => None,
                                Some(amount) => match (match spec_opt_str(v, "currency"@) {
                                    None => None,
                                    Some(None) => Some(None),
                                    Some(Some(c)) => match CurrencyDto::spec_from_wire(c@) {
                                        Some(cur) => Some(Some(cur)),
                                        None => None,
                                    },
                                }) {
                                    None => None,
                                    Some(currency) => match (match spec_opt_str(v, "status"@) {
                                        None => None,
                                        Some(None) => Some(None),
                                        Some(Some(st)) => Some(
                                            Some(ContractStatusDto::spec_from_wire(st@)),
                                        ),
                                    }) {
                                        None => None,
                                        Some(status) => match spec_opt_ts(v, "timestamp"@) {
                                            None => None,
                                            Some(ts) => match spec_opt_utm(v, "clientUtm"@) {
                                                None => None,
                                                Some(utm) => match spec_opt_str(
                                                    v,
                                                    "errorMessage"@,
                                                ) {
                                                    None => None,
                                                    Some(em) => match spec_opt_ts(
                                                        v,
                                                        "cancelledAt"@,
                                                    ) {
                                                        None => None,
                                                        Some(ca) => match spec_opt_ts(
                                                            v,
                                                            "willExpireAt"@,
                                                        ) {
                                                            None => None,
                                                            Some(wea) => Some(
                                                                PurchaseWebhookLog {
                                                                    event_type: WebhookEventType::spec_from_wire(
                                                                        et@,
                                                                    ),
                                                                    product,
                                                                    contract_id: cid,
                                                                    parent_contract_id: pcid,
                                                                    buyer,
                                                                    amount,
                                                                    currency,
                                                                    status,
                                                                    timestamp: ts,
                                                                    client_utm: utm,
                                                                    error_message: em,
                                                                    cancelled_at: ca,
                                                                    will_expire_at: wea,
                                                                },
                                                            ),
                                                        },
                                                    },
                                                },
                                            },
                                        },
                                    },
                                },
                            },
                        },
                    },
                },
            },
        }
    }
}

/// Decodes a webhook event envelope.
pub fn decode_webhook_log(v: &JsonValue) -> (r: Option<PurchaseWebhookLog>)
    ensures
        r == spec_decode_webhook_log(*v),
{
    match v {
        JsonValue::Obj(_) => {},
        _ => {
            return None;
        },
    }
    let et = match req_str(v, "eventType") {
        Some(x) => x,
        None => {
            return None;
        },
    };
    let product = match field(v, "product") {
        None => None,
        Some(JsonValue::Null) => None,
        Some(x) => match decode_webhook_product(x) {
            Some(p) => Some(p),
            None => {
                return None;
            },
        },
    };
    let cid = match req_uuid(v, "contractId") {
        Some(x) => x,
        None => {
            return None;
        },
    };
    let pcid = match opt_uuid(v, "parentContractId") {
        Some(x) => x,
        None => {
            return None;
        },
    };
    let buyer = match field(v, "buyer") {
        None => None,
        Some(JsonValue::Null) => None,
        Some(x) => match decode_webhook_buyer(x) {
            Some(b) => Some(b),
            None => {
                return None;
            },
        },
    };
    let amount = match opt_num(v, "amount") {
        Some(x) => x,
        None => {
            return None;
        },
    };
    let currency = match opt_str(v, "currency") {
        None => {
            return None;
        },
        Some(None) => None,
        Some(Some(c)) => match CurrencyDto::from_wire(c.as_str()) {
            Some(cur) => Some(cur),
            None => {
                return None;
            },
        },
    };
    let status = match opt_str(v, "status") {
        None => {
            return None;
        },
        Some(None) => None,
        Some(Some(st)) => Some(ContractStatusDto::from_wire(st.as_str())),
    };
    let ts = match opt_ts(v, "timestamp") {
        Some(x) => x,
        None => {
            return None;
        },
    };
    let utm = match opt_utm(v, "clientUtm") {
        Some(x) => x,
        None => {
            return None;
        },
    };
    let em = match opt_str(v, "errorMessage") {
        Some(x) => x,
        None => {
            return None;
        },
    };
    let ca = match opt_ts(v, "cancelledAt") {
        Some(x) => x,
        None => {
            return None;
        },
    };
    let wea = match opt_ts(v, "willExpireAt") {
        Some(x) => x,
        None => {
            return None;
        },
    };
    Some(
        PurchaseWebhookLog {
            event_type: WebhookEventType::from_wire(et.as_str()),
            product,
            contract_id: cid,
            parent_contract_id: pcid,
            buyer,
            amount,
            currency,
            status,
            timestamp: ts,
            client_utm: utm,
            error_message: em,
            cancelled_at: ca,
            will_expire_at: wea,
        },
    )
}

/// What a webhook payload's text decodes to: the parsed JSON run
/// through the envelope decoder, or nothing when the text is not valid
/// JSON or the envelope does not match.
pub open spec fn spec_parse_webhook(s: Seq<char>) -> Option<PurchaseWebhookLog> {
    match spec_parse_json(s) {
        Some(v) => spec_decode_webhook_log(v),
        None => None,
    }
}

/// Decodes a webhook payload straight from its text.
pub fn parse_webhook(text: &str) -> (r: Option<PurchaseWebhookLog>)
    ensures
        r == spec_parse_webhook(text@),
{
    match parse_json(text) {
        Some(v) => decode_webhook_log(&v),
        None => None,
    }
}

/// Each wire spelling denotes its own variant: decoding an encoded
/// name yields the variant back.
pub proof fn lemma_webhook_event_type_wire_round_trip(v: WebhookEventType)
    ensures
        WebhookEventType::spec_from_wire(v.spec_wire_name()) == v,
{
    reveal_strlit("payment_success");
    reveal_strlit("payment_failed");
    reveal_strlit("subscription_recurring_payment_success");
    reveal_strlit("subscription_recurring_payment_failed");
    reveal_strlit("subscription_cancelled");
    reveal_strlit("unknown");
    assert("payment_success"@.len() == 15);
    assert("payment_failed"@.len() == 14);
    assert("subscription_recurring_payment_success"@.len() == 38);
    assert("subscription_recurring_payment_failed"@.len() == 37);
    assert("subscription_cancelled"@.len() == 22);
    assert("unknown"@.len() == 7);
}

} // verus!

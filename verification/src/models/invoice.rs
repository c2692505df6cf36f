//! Invoices: the purchase request body, the contract record shapes the
//! service returns, and the list-query parameters.

use vstd::prelude::*;
use crate::json::{
    JsonValue, JsonModel, WireNumber, spec_field, field, spec_req_str, req_str, spec_opt_str,
    opt_str, spec_req_i64, req_i64, spec_req_num, req_num, spec_opt_num, opt_num,
    spec_json_matches, spec_entries_match, lemma_entries_match_push,
};
use crate::models::common::{
    CurrencyDto, LanguageDto, PaymentMethod, Periodicity, ContractStatusDto, InvoiceStatus,
    InvoiceType, SubscriptionStatus, ClientUtmDto, AmountTotalDto, Uuid, spec_req_uuid, req_uuid,
    spec_req_ts, req_ts, spec_opt_ts, opt_ts, spec_opt_url, opt_url, spec_decode_amount_total,
    decode_amount_total, spec_opt_utm, opt_utm, spec_utm_entries, encode_client_utm,
};
use crate::date::{UtcTimestamp, spec_rfc3339_chars, encode_rfc3339};
use crate::error::LavaTopError;
use crate::strutil::{spec_i64_dec, i64_to_string};
use crate::http::{
    spec_pairs_match, lemma_pairs_match_push, lemma_pairs_match_concat, spec_entries_have_key,
    lemma_no_entry_key, lemma_no_entry_key_concat,
};

verus! {

// --- The purchase request ---

/// What a purchase request carries. `email` and `offer_id` are always
/// sent; every other field is omitted from the body when unset.
#[derive(Debug, Clone, PartialEq, Eq)]
pub struct InvoiceRequestDto {
    /// The buyer's email.
    pub email: String,
    /// The price offer being bought.
    pub offer_id: Uuid,
    /// Billing cadence, for subscription offers.
    pub periodicity: Option<Periodicity>,
    /// Settlement currency.
    pub currency: CurrencyDto,
    /// Payment provider; the service picks a default per currency when
    /// unset.
    pub payment_method: Option<PaymentMethod>,
    /// Notification language; the service defaults it when unset.
    pub buyer_language: Option<LanguageDto>,
    /// Attribution tags.
    pub client_utm: Option<ClientUtmDto>,
}

/// The body members of an encoded purchase request, under their wire
/// names, in declaration order, with unset optional fields omitted.
pub open spec fn spec_invoice_request_entries(d: InvoiceRequestDto) -> Seq<(Seq<char>, JsonModel)> {
    seq![("email"@, JsonModel::Str(d.email@)), ("offerId"@, JsonModel::Str(d.offer_id.text@))]
        + (if d.periodicity is Some {
        seq![("periodicity"@, JsonModel::Str(d.periodicity->0.spec_wire_name()))]
    } else {
        seq![]
    }) + seq![("currency"@, JsonModel::Str(d.currency.spec_wire_name()))] + (
    if d.payment_method is Some {
        seq![("paymentMethod"@, JsonModel::Str(d.payment_method->0.spec_wire_name()))]
    } else {
        seq![]
    }) + (if d.buyer_language is Some {
        seq![("buyerLanguage"@, JsonModel::Str(d.buyer_language->0.spec_wire_name()))]
    } else {
        seq![]
    }) + (if d.client_utm is Some {
        seq![("clientUtm"@, JsonModel::Obj(spec_utm_entries(d.client_utm->0)))]
    } else {
        seq![]
    })
}

/// Encodes a purchase request as its JSON body.
pub fn encode_invoice_request(d: &InvoiceRequestDto) -> (r: JsonValue)
    ensures
        spec_json_matches(r, JsonModel::Obj(spec_invoice_request_entries(*d))),
{
    let mut pairs: Vec<(String, JsonValue)> = Vec::new();
    let ghost mut es: Seq<(Seq<char>, JsonModel)> = Seq::empty();
    assert(spec_entries_match(pairs@, es));
    let p = ("email".to_owned(), JsonValue::Str(d.email.clone()));
    proof {
        lemma_entries_match_push(pairs@, es, p, ("email"@, JsonModel::Str(d.email@)));
        es = es.push(("email"@, JsonModel::Str(d.email@)));
    }
    pairs.push(p);
    let p = ("offerId".to_owned(), JsonValue::Str(d.offer_id.text.clone()));
    proof {
        lemma_entries_match_push(pairs@, es, p, ("offerId"@, JsonModel::Str(d.offer_id.text@)));
        es = es.push(("offerId"@, JsonModel::Str(d.offer_id.text@)));
    }
    pairs.push(p);
    if let Some(x) = &d.periodicity {
        let p = ("periodicity".to_owned(), JsonValue::Str(x.wire_name()));
        proof {
            lemma_entries_match_push(
                pairs@,
                es,
                p,
                ("periodicity"@, JsonModel::Str(x.spec_wire_name())),
            );
            es = es.push(("periodicity"@, JsonModel::Str(x.spec_wire_name())));
        }
        pairs.push(p);
    }
    let p = ("currency".to_owned(), JsonValue::Str(d.currency.wire_name()));
    proof {
        lemma_entries_match_push(
            pairs@,
            es,
            p,
            ("currency"@, JsonModel::Str(d.currency.spec_wire_name())),
        );
        es = es.push(("currency"@, JsonModel::Str(d.currency.spec_wire_name())));
    }
    pairs.push(p);
    if let Some(x) = &d.payment_method {
        let p = ("paymentMethod".to_owned(), JsonValue::Str(x.wire_name()));
        proof {
            lemma_entries_match_push(
                pairs@,
                es,
                p,
                ("paymentMethod"@, JsonModel::Str(x.spec_wire_name())),
            );
            es = es.push(("paymentMethod"@, JsonModel::Str(x.spec_wire_name())));
        }
        pairs.push(p);
    }
    if let Some(x) = &d.buyer_language {
        let p = ("buyerLanguage".to_owned(), JsonValue::Str(x.wire_name()));
        proof {
            lemma_entries_match_push(
                pairs@,
                es,
                p,
                ("buyerLanguage"@, JsonModel::Str(x.spec_wire_name())),
            );
            es = es.push(("buyerLanguage"@, JsonModel::Str(x.spec_wire_name())));
        }
        pairs.push(p);
    }
    if let Some(x) = &d.client_utm {
        let p = ("clientUtm".to_owned(), encode_client_utm(x));
        proof {
            lemma_entries_match_push(
                pairs@,
                es,
                p,
                ("clientUtm"@, JsonModel::Obj(spec_utm_entries(*x))),
            );
            es = es.push(("clientUtm"@, JsonModel::Obj(spec_utm_entries(*x))));
        }
        pairs.push(p);
    }
    proof {
        assert(es =~= spec_invoice_request_entries(*d));
    }
    JsonValue::Obj(pairs)
}

// --- Response shapes ---

/// The answer to creating an invoice: the contract, its status, the
/// total, and the payment-widget URL when the product is not free.
#[derive(Debug, Clone, PartialEq, Eq)]
pub struct InvoicePaymentParamsResponse {
    pub id: Uuid,
    pub status: ContractStatusDto,
    pub amount_total: AmountTotalDto,
    pub payment_url: Option<String>,
}

pub open spec fn spec_decode_invoice_payment_params(v: JsonValue) -> Option<
    InvoicePaymentParamsResponse,
> {
    if !(v is Obj) {
        None
    } else {
        match spec_req_uuid(v, "id"@) {
            None => None,
            Some(id) => match spec_req_str(v, "status"@) {
                None => None,
                Some(st) => match spec_field(v, "amountTotal"@) {
                    None => None,
                    Some(at) => match spec_decode_amount_total(at) {
                        None => None,
                        Some(total) => match spec_opt_url(v, "paymentUrl"@) {
                            None => None,
                            Some(pu) => Some(
                                InvoicePaymentParamsResponse {
                                    id,
                                    status: ContractStatusDto::spec_from_wire(st@),
                                    amount_total: total,
                                    payment_url: pu,
                                },
                            ),
                        },
                    },
                },
            },
        }
    }
}

/// Decodes the invoice-creation answer.
pub fn decode_invoice_payment_params(v: &JsonValue) -> (r: Option<InvoicePaymentParamsResponse>)
    ensures
        r == spec_decode_invoice_payment_params(*v),
        r matches Some(x) ==> x.id.wf(),
{
    match v {
        JsonValue::Obj(_) => {},
        _ => {
            return None;
        },
    }
    let id = match req_uuid(v, "id") {
        Some(x) => x,
        None => {
            return None;
        },
    };
    let st = match req_str(v, "status") {
        Some(x) => x,
        None => {
            return None;
        },
    };
    let at = match field(v, "amountTotal") {
        Some(x) => x,
        None => {
            return None;
        },
    };
    let total = match decode_amount_total(at) {
        Some(x) => x,
        None => {
            return None;
        },
    };
    let pu = match opt_url(v, "paymentUrl") {
        Some(x) => x,
        None => {
            return None;
        },
    };
    Some(
        InvoicePaymentParamsResponse {
            id,
            status: ContractStatusDto::from_wire(st.as_str()),
            amount_total: total,
            payment_url: pu,
        },
    )
}

/// A receipt: the paid amount, its currency, and the optional fee.
#[derive(Debug, Clone, PartialEq, Eq)]
pub struct InvoiceReceiptResponse {
    pub amount: WireNumber,
    pub currency: CurrencyDto,
    pub fee: Option<WireNumber>,
}

pub open spec fn spec_decode_receipt(v: JsonValue) -> Option<InvoiceReceiptResponse> {
    if !(v is Obj) {
        None
    } else {
        match spec_req_num(v, "amount"@) {
            None => None,
            Some(am) => match spec_req_str(v, "currency"@) {
                None => None,
                Some(c) => match CurrencyDto::spec_from_wire(c@) {
                    None => None,
                    Some(cur) => match spec_opt_num(v, "fee"@) {
                        None => None,
                        Some(fee) => Some(
                            InvoiceReceiptResponse { amount: am, currency: cur, fee },
                        ),
                    },
                },
            },
        }
    }
}

pub fn decode_receipt(v: &JsonValue) -> (r: Option<InvoiceReceiptResponse>)
    ensures
        r == spec_decode_receipt(*v),
{
    match v {
        JsonValue::Obj(_) => {},
        _ => {
            return None;
        },
    }
    let am = match req_num(v, "amount") {
        Some(x) => x,
        None => {
            return None;
        },
    };
    let c = match req_str(v, "currency") {
        Some(x) => x,
        None => {
            return None;
        },
    };
    let cur = match CurrencyDto::from_wire(c.as_str()) {
        Some(x) => x,
        None => {
            return None;
        },
    };
    let fee = match opt_num(v, "fee") {
        Some(x) => x,
        None => {
            return None;
        },
    };
    Some(InvoiceReceiptResponse { amount: am, currency: cur, fee })
}

/// The buyer of a contract.
#[derive(Debug, Clone, PartialEq, Eq)]
pub struct InvoiceBuyerResponse {
    pub email: String,
    pub card_mask: Option<String>,
}

pub open spec fn spec_decode_invoice_buyer(v: JsonValue) -> Option<InvoiceBuyerResponse> {
    if !(v is Obj) {
        None
    } else {
        match spec_req_str(v, "email"@) {
            None => None,
            Some(e) => match spec_opt_str(v, "cardMask"@) {
                None => None,
                Some(cm) => Some(InvoiceBuyerResponse { email: e, card_mask: cm }),
            },
        }
    }
}

pub fn decode_invoice_buyer(v: &JsonValue) -> (r: Option<InvoiceBuyerResponse>)
    ensures
        r == spec_decode_invoice_buyer(*v),
{
    match v {
        JsonValue::Obj(_) => {},
        _ => {
            return None;
        },
    }
    let e = match req_str(v, "email") {
        Some(x) => x,
        None => {
            return None;
        },
    };
    let cm = match opt_str(v, "cardMask") {
        Some(x) => x,
        None => {
            return None;
        },
    };
    Some(InvoiceBuyerResponse { email: e, card_mask: cm })
}

/// The product a contract was bought under.
#[derive(Debug, Clone, PartialEq, Eq)]
pub struct InvoiceProductResponse {
    pub name: Option<String>,
    pub offer: Option<String>,
}

pub open spec fn spec_decode_invoice_product(v: JsonValue) -> Option<InvoiceProductResponse> {
    if !(v is Obj) {
        None
    } else {
        match spec_opt_str(v, "name"@) {
            None => None,
            Some(n) => match spec_opt_str(v, "offer"@) {
                None => None,
                Some(o) => Some(InvoiceProductResponse { name: n, offer: o }),
            },
        }
    }
}

pub fn decode_invoice_product(v: &JsonValue) -> (r: Option<InvoiceProductResponse>)
    ensures
        r == spec_decode_invoice_product(*v),
{
    match v {
        JsonValue::Obj(_) => {},
        _ => {
            return None;
        },
    }
    let n = match opt_str(v, "name") {
        Some(x) => x,
        None => {
            return None;
        },
    };
    let o = match opt_str(v, "offer") {
        Some(x) => x,
        None => {
            return None;
        },
    };
    Some(InvoiceProductResponse { name: n, offer: o })
}

/// The link to a parent contract, for recurring charges.
#[derive(Debug, Clone, PartialEq, Eq)]
pub struct InvoiceParentInvoiceResponse {
    pub id: Uuid,
}

pub open spec fn spec_decode_parent_invoice(v: JsonValue) -> Option<InvoiceParentInvoiceResponse> {
    if !(v is Obj) {
        None
    } else {
        match spec_req_uuid(v, "id"@) {
            Some(id) => Some(InvoiceParentInvoiceResponse { id }),
            None => None,
        }
    }
}

pub fn decode_parent_invoice(v: &JsonValue) -> (r: Option<InvoiceParentInvoiceResponse>)
    ensures
        r == spec_decode_parent_invoice(*v),
{
    match v {
        JsonValue::Obj(_) => {},
        _ => {
            return None;
        },
    }
    match req_uuid(v, "id") {
        Some(id) => Some(InvoiceParentInvoiceResponse { id }),
        None => None,
    }
}

/// The lifecycle dates of a subscription.
#[derive(Debug, Clone, PartialEq, Eq)]
pub struct InvoiceSubscriptionDetails {
    pub expired_at: Option<UtcTimestamp>,
    pub terminated_at: Option<UtcTimestamp>,
    pub cancelled_at: Option<UtcTimestamp>,
}

pub open spec fn spec_decode_subscription_details(v: JsonValue) -> Option<
    InvoiceSubscriptionDetails,
> {
    if !(v is Obj) {
        None
    } else {
        match spec_opt_ts(v, "expiredAt"@) {
            None => None,
            Some(ex) => match spec_opt_ts(v, "terminatedAt"@) {
                None => None,
                Some(te) => match spec_opt_ts(v, "cancelledAt"@) {
                    None => None,
                    Some(ca) => Some(
                        InvoiceSubscriptionDetails {
                            expired_at: ex,
                            terminated_at: te,
                            cancelled_at: ca,
                        },
                    ),
                },
            },
        }
    }
}

pub fn decode_subscription_details(v: &JsonValue) -> (r: Option<InvoiceSubscriptionDetails>)
    ensures
        r == spec_decode_subscription_details(*v),
{
    match v {
        JsonValue::Obj(_) => {},
        _ => {
            return None;
        },
    }
    let ex = match opt_ts(v, "expiredAt") {
        Some(x) => x,
        None => {
            return None;
        },
    };
    let te = match opt_ts(v, "terminatedAt") {
        Some(x) => x,
        None => {
            return None;
        },
    };
    let ca = match opt_ts(v, "cancelledAt") {
        Some(x) => x,
        None => {
            return None;
        },
    };
    Some(InvoiceSubscriptionDetails { expired_at: ex, terminated_at: te, cancelled_at: ca })
}

/// The full contract record. `status` is always present, and an
/// unrecognized wire status decodes to its `Unknown` fallback rather
/// than failing the record.
#[derive(Debug, Clone, PartialEq, Eq)]
pub struct InvoiceResponseV2 {
    pub id: Uuid,
    pub invoice_type: InvoiceType,
    /// When the contract was executed; its creation time when unset.
    pub datetime: UtcTimestamp,
    pub status: InvoiceStatus,
    pub receipt: Option<InvoiceReceiptResponse>,
    pub buyer: Option<InvoiceBuyerResponse>,
    pub product: Option<InvoiceProductResponse>,
    pub parent_invoice: Option<InvoiceParentInvoiceResponse>,
    pub subscription_status: Option<SubscriptionStatus>,
    pub subscription_details: Option<InvoiceSubscriptionDetails>,
    pub client_utm: Option<ClientUtmDto>,
}

pub open spec fn spec_decode_invoice_v2(v: JsonValue) -> Option<InvoiceResponseV2> {
    if !(v is Obj) {
        None
    } else {
        match spec_req_uuid(v, "id"@) {
            None => None,
            Some(id) => match spec_req_str(v, "type"@) {
                None => None,
                Some(ty) => match InvoiceType::spec_from_wire(ty@) {
                    None => None,
                    Some(it) => match spec_req_ts(v, "datetime"@) {
                        None => None,
                        Some(dt) => match spec_req_str(v, "status"@) {
                            None => None,
                            Some(st) => match (match spec_field(v, "receipt"@) {
                                None => Some(None),
                                Some(JsonValue::Null) => Some(None),
                                Some(x) => match spec_decode_receipt(x) {
                                    Some(rc) => Some(Some(rc)),
                                    None => None,
                                },
                            }) {
                                None => None,
                                Some(receipt) => match (match spec_field(v, "buyer"@) {
                                    None => Some(None),
                                    Some(JsonValue::Null) => Some(None),
                                    Some(x) => match spec_decode_invoice_buyer(x) {
                                        Some(b) => Some(Some(b)),
                                        None => None,
                                    },
                                }) {
                                    None => None,
                                    Some(buyer) => match (match spec_field(v, "product"@) {
                                        None => Some(None),
                                        Some(JsonValue::Null) => Some(None),
                                        Some(x) => match spec_decode_invoice_product(x) {
                                            Some(p) => Some(Some(p)),
                                            None => None,
                                        },
                                    }) {
                                        None => None,
                                        Some(product) => match (match spec_field(
                                            v,
                                            "parentInvoice"@,
                                        ) {
                                            None => Some(None),
                                            Some(JsonValue::Null) => Some(None),
                                            Some(x) => match spec_decode_parent_invoice(x) {
                                                Some(p) => Some(Some(p)),
                                                None => None,
                                            },
                                        }) {
                                            None => None,
                                            Some(parent) => match (match spec_opt_str(
                                                v,
                                                "subscriptionStatus"@,
                                            ) {
                                                None => None,
                                                Some(None) => Some(None),
                                                Some(Some(ss)) => match SubscriptionStatus::spec_from_wire(
                                                    ss@,
                                                ) {
                                                    Some(s) => Some(Some(s)),
                                                    None => None,
                                                },
                                            }) {
                                                None => None,
                                                Some(substatus) => match (match spec_field(
                                                    v,
                                                    "subscriptionDetails"@,
                                                ) {
                                                    None => Some(None),
                                                    Some(JsonValue::Null) => Some(None),
                                                    Some(x) => match spec_decode_subscription_details(
                                                        x,
                                                    ) {
                                                        Some(d) => Some(Some(d)),
                                                        None => None,
                                                    },
                                                }) {
                                                    None => None,
                                                    Some(subdetails) => match spec_opt_utm(
                                                        v,
                                                        "clientUtm"@,
                                                    ) {
                                                        None => None,
                                                        Some(utm) => Some(
                                                            InvoiceResponseV2 {
                                                                id,
                                                                invoice_type: it,
                                                                datetime: dt,
                                                                status: InvoiceStatus::spec_from_wire(
                                                                    st@,
                                                                ),
                                                                receipt,
                                                                buyer,
                                                                product,
                                                                parent_invoice: parent,
                                                                subscription_status: substatus,
                                                                subscription_details: subdetails,
                                                                client_utm: utm,
                                                            },
                                                        ),
                                                    },
                                                },
                                            },
                                        },
                                    },
                                },
                            },
                        },
                    },
                },
            },
        }
    }
}

/// Decodes one full contract record.
pub fn decode_invoice_v2(v: &JsonValue) -> (r: Option<InvoiceResponseV2>)
    ensures
        r == spec_decode_invoice_v2(*v),
{
    match v {
        JsonValue::Obj(_) => {},
        _ => {
            return None;
        },
    }
    let id = match req_uuid(v, "id") {
        Some(x) => x,
        None => {
            return None;
        },
    };
    let ty = match req_str(v, "type") {
        Some(x) => x,
        None => {
            return None;
        },
    };
    let it = match InvoiceType::from_wire(ty.as_str()) {
        Some(x) => x,
        None => {
            return None;
        },
    };
    let dt = match req_ts(v, "datetime") {
        Some(x) => x,
        None => {
            return None;
        },
    };
    let st = match req_str(v, "status") {
        Some(x) => x,
        None => {
            return None;
        },
    };
    let receipt = match field(v, "receipt") {
        None => None,
        Some(JsonValue::Null) => None,
        Some(x) => match decode_receipt(x) {
            Some(rc) => Some(rc),
            None => {
                return None;
            },
        },
    };
    let buyer = match field(v, "buyer") {
        None => None,
        Some(JsonValue::Null) => None,
        Some(x) => match decode_invoice_buyer(x) {
            Some(b) => Some(b),
            None => {
                return None;
            },
        },
    };
    let product = match field(v, "product") {
        None => None,
        Some(JsonValue::Null) => None,
        Some(x) => match decode_invoice_product(x) {
            Some(p) => Some(p),
            None => {
                return None;
            },
        },
    };
    let parent = match field(v, "parentInvoice") {
        None => None,
        Some(JsonValue::Null) => None,
        Some(x) => match decode_parent_invoice(x) {
            Some(p) => Some(p),
            None => {
                return None;
            },
        },
    };
    let substatus = match opt_str(v, "subscriptionStatus") {
        None => {
            return None;
        },
        Some(None) => None,
        Some(Some(ss)) => match SubscriptionStatus::from_wire(ss.as_str()) {
            Some(s) => Some(s),
            None => {
                return None;
            },
        },
    };
    let subdetails = match field(v, "subscriptionDetails") {
        None => None,
        Some(JsonValue::Null) => None,
        Some(x) => match decode_subscription_details(x) {
            Some(d) => Some(d),
            None => {
                return None;
            },
        },
    };
    let utm = match opt_utm(v, "clientUtm") {
        Some(x) => x,
        None => {
            return None;
        },
    };
    Some(
        InvoiceResponseV2 {
            id,
            invoice_type: it,
            datetime: dt,
            status: InvoiceStatus::from_wire(st.as_str()),
            receipt,
            buyer,
            product,
            parent_invoice: parent,
            subscription_status: substatus,
            subscription_details: subdetails,
            client_utm: utm,
        },
    )
}

/// How a list of contract records decodes: every element must decode.
pub open spec fn spec_decode_invoice_items(xs: Seq<JsonValue>) -> Option<Seq<InvoiceResponseV2>> {
    if forall|i: int| 0 <= i < xs.len() ==> spec_decode_invoice_v2(#[trigger] xs[i]) is Some {
        Some(Seq::new(xs.len(), |i: int| spec_decode_invoice_v2(xs[i])->0))
    } else {
        None
    }
}

pub fn decode_invoice_items(xs: &Vec<JsonValue>) -> (r: Option<Vec<InvoiceResponseV2>>)
    ensures
        match r {
            Some(out) => spec_decode_invoice_items(xs@) == Some(out@),
            None => spec_decode_invoice_items(xs@) is None,
        },
{
    let mut out: Vec<InvoiceResponseV2> = Vec::new();
    let n = xs.len();
    let mut i: usize = 0;
    while i < n
        invariant
            n == xs@.len(),
            0 <= i <= n,
            out@.len() == i,
            forall|j: int|
                0 <= j < i ==> spec_decode_invoice_v2(#[trigger] xs@[j]) == Some(out@[j]),
        decreases n - i,
    {
        match decode_invoice_v2(&xs[i]) {
            Some(d) => out.push(d),
            None => {
                return None;
            },
        }
        i = i + 1;
    }
    proof {
        assert(out@ =~= Seq::new(xs@.len(), |i: int| spec_decode_invoice_v2(xs@[i])->0));
    }
    Some(out)
}

/// A page of contract records.
#[derive(Debug, PartialEq, Eq)]
pub struct InvoicePageResponse {
    pub items: Vec<InvoiceResponseV2>,
    pub page: i64,
    pub size: i64,
    pub total: i64,
}

pub open spec fn spec_decode_invoice_page(v: JsonValue) -> Option<(Seq<InvoiceResponseV2>, i64, i64, i64)> {
    if !(v is Obj) {
        None
    } else {
        match spec_field(v, "items"@) {
            Some(JsonValue::Arr(xs)) => match spec_decode_invoice_items(xs@) {
                None => None,
                Some(items) => match spec_req_i64(v, "page"@) {
                    None => None,
                    Some(page) => match spec_req_i64(v, "size"@) {
                        None => None,
                        Some(size) => match spec_req_i64(v, "total"@) {
                            None => None,
                            Some(total) => Some((items, page, size, total)),
                        },
                    },
                },
            },
            _ => None,
        }
    }
}

/// Decodes a page of contract records.
pub fn decode_invoice_page(v: &JsonValue) -> (r: Option<InvoicePageResponse>)
    ensures
        match r {
            Some(p) => spec_decode_invoice_page(*v) == Some((p.items@, p.page, p.size, p.total)),
            None => spec_decode_invoice_page(*v) is None,
        },
{
    match v {
        JsonValue::Obj(_) => {},
        _ => {
            return None;
        },
    }
    let items = match field(v, "items") {
        Some(JsonValue::Arr(xs)) => match decode_invoice_items(xs) {
            Some(out) => out,
            None => {
                return None;
            },
        },
        _ => {
            return None;
        },
    };
    let page = match req_i64(v, "page") {
        Some(x) => x,
        None => {
            return None;
        },
    };
    let size = match req_i64(v, "size") {
        Some(x) => x,
        None => {
            return None;
        },
    };
    let total = match req_i64(v, "total") {
        Some(x) => x,
        None => {
            return None;
        },
    };
    Some(InvoicePageResponse { items, page, size, total })
}

// --- List-query parameters ---

/// Filters for listing contracts. Every field is optional, and an unset
/// field contributes nothing to the query string.
#[derive(Debug, Clone, PartialEq, Eq)]
pub struct ListInvoicesParams {
    pub begin_date: Option<UtcTimestamp>,
    pub end_date: Option<UtcTimestamp>,
    pub buyer_email: Option<String>,
    pub currencies: Option<Vec<CurrencyDto>>,
    pub last4_card_digits: Option<String>,
    pub product_name: Option<String>,
    pub invoice_types: Option<Vec<InvoiceType>>,
    pub invoice_statuses: Option<Vec<InvoiceStatus>>,
    pub page: Option<i64>,
    pub size: Option<i64>,
}

impl core::default::Default for ListInvoicesParams {
    fn default() -> (r: Self)
        ensures
            r == (ListInvoicesParams {
                begin_date: None,
                end_date: None,
                buyer_email: None,
                currencies: None,
                last4_card_digits: None,
                product_name: None,
                invoice_types: None,
                invoice_statuses: None,
                page: None,
                size: None,
            }),
    {
        ListInvoicesParams {
            begin_date: None,
            end_date: None,
            buyer_email: None,
            currencies: None,
            last4_card_digits: None,
            product_name: None,
            invoice_types: None,
            invoice_statuses: None,
            page: None,
            size: None,
        }
    }
}

impl ListInvoicesParams {
    /// The date filters denote real instants.
    pub open spec fn spec_dates_wf(self) -> bool {
        &&& (self.begin_date matches Some(t) ==> t.wf())
        &&& (self.end_date matches Some(t) ==> t.wf())
    }

    /// The date and buyer filters among the query entries.
    pub open spec fn spec_entries_dates(self) -> Seq<(Seq<char>, Seq<char>)> {
        (if self.begin_date is Some {
            seq![("beginDate"@, spec_rfc3339_chars(self.begin_date->0))]
        } else {
            seq![]
        }) + (if self.end_date is Some {
            seq![("endDate"@, spec_rfc3339_chars(self.end_date->0))]
        } else {
            seq![]
        }) + (if self.buyer_email is Some {
            seq![("buyerEmail"@, self.buyer_email->0@)]
        } else {
            seq![]
        })
    }

    /// The card, product and currency filters among the query entries.
    pub open spec fn spec_entries_card_product(self) -> Seq<(Seq<char>, Seq<char>)> {
        (match self.currencies {
            Some(cs) => cs@.map_values(|c: CurrencyDto| ("currencies"@, c.spec_wire_name())),
            None => seq![],
        }) + (if self.last4_card_digits is Some {
            seq![("last4CardDigits"@, self.last4_card_digits->0@)]
        } else {
            seq![]
        }) + (if self.product_name is Some {
            seq![("productName"@, self.product_name->0@)]
        } else {
            seq![]
        })
    }

    /// The type and status filters among the query entries.
    pub open spec fn spec_entries_kinds(self) -> Seq<(Seq<char>, Seq<char>)> {
        (match self.invoice_types {
            Some(ts) => ts@.map_values(|x: InvoiceType| ("invoiceTypes"@, x.spec_wire_name())),
            None => seq![],
        }) + (match self.invoice_statuses {
            Some(ss) => ss@.map_values(
                |x: InvoiceStatus| ("invoiceStatuses"@, x.spec_wire_name()),
            ),
            None => seq![],
        })
    }

    /// The paging filters among the query entries.
    pub open spec fn spec_entries_paging(self) -> Seq<(Seq<char>, Seq<char>)> {
        (if self.page is Some {
            seq![("page"@, spec_i64_dec(self.page->0 as int))]
        } else {
            seq![]
        }) + (if self.size is Some {
            seq![("size"@, spec_i64_dec(self.size->0 as int))]
        } else {
            seq![]
        })
    }

    /// The query entries the filters serialize to, under their wire
    /// names, in declaration order; a list field contributes one entry
    /// per element under the same key.
    pub open spec fn spec_query_entries(self) -> Seq<(Seq<char>, Seq<char>)> {
        self.spec_entries_dates() + self.spec_entries_card_product() + self.spec_entries_kinds()
            + self.spec_entries_paging()
    }

    fn query_pairs_dates(&self) -> (r: Vec<(String, String)>)
        requires
            self.spec_dates_wf(),
        ensures
            spec_pairs_match(r@, self.spec_entries_dates()),
    {
        let mut ps: Vec<(String, String)> = Vec::new();
        let ghost mut es: Seq<(Seq<char>, Seq<char>)> = Seq::empty();
        assert(spec_pairs_match(ps@, es));
        if let Some(t) = &self.begin_date {
            let p = ("beginDate".to_owned(), encode_rfc3339(t));
            proof {
                lemma_pairs_match_push(ps@, es, p, ("beginDate"@, spec_rfc3339_chars(*t)));
                es = es.push(("beginDate"@, spec_rfc3339_chars(*t)));
            }
            ps.push(p);
        }
        if let Some(t) = &self.end_date {
            let p = ("endDate".to_owned(), encode_rfc3339(t));
            proof {
                lemma_pairs_match_push(ps@, es, p, ("endDate"@, spec_rfc3339_chars(*t)));
                es = es.push(("endDate"@, spec_rfc3339_chars(*t)));
            }
            ps.push(p);
        }
        if let Some(x) = &self.buyer_email {
            let p = ("buyerEmail".to_owned(), x.clone());
            proof {
                lemma_pairs_match_push(ps@, es, p, ("buyerEmail"@, x@));
                es = es.push(("buyerEmail"@, x@));
            }
            ps.push(p);
        }
        proof {
            assert(es =~= self.spec_entries_dates());
        }
        ps
    }

    fn query_pairs_card_product(&self) -> (r: Vec<(String, String)>)
        ensures
            spec_pairs_match(r@, self.spec_entries_card_product()),
    {
        let mut ps: Vec<(String, String)> = Vec::new();
        let ghost mut es: Seq<(Seq<char>, Seq<char>)> = Seq::empty();
        assert(spec_pairs_match(ps@, es));
        if let Some(cs) = &self.currencies {
            let ghost es0 = es;
            let n = cs.len();
            let mut i: usize = 0;
            while i < n
                invariant
                    n == cs@.len(),
                    0 <= i <= n,
                    spec_pairs_match(ps@, es),
                    es == es0 + cs@.subrange(0, i as int).map_values(
                        |c: CurrencyDto| ("currencies"@, c.spec_wire_name()),
                    ),
                decreases n - i,
            {
                let c = &cs[i];
                let p = ("currencies".to_owned(), c.wire_name());
                proof {
                    lemma_pairs_match_push(ps@, es, p, ("currencies"@, c.spec_wire_name()));
                    es = es.push(("currencies"@, c.spec_wire_name()));
                    assert(es =~= es0 + cs@.subrange(0, i + 1).map_values(
                        |c: CurrencyDto| ("currencies"@, c.spec_wire_name()),
                    ));
                }
                ps.push(p);
                i = i + 1;
            }
            proof {
                assert(cs@.subrange(0, n as int) =~= cs@);
            }
        }
        if let Some(x) = &self.last4_card_digits {
            let p = ("last4CardDigits".to_owned(), x.clone());
            proof {
                lemma_pairs_match_push(ps@, es, p, ("last4CardDigits"@, x@));
                es = es.push(("last4CardDigits"@, x@));
            }
            ps.push(p);
        }
        if let Some(x) = &self.product_name {
            let p = ("productName".to_owned(), x.clone());
            proof {
                lemma_pairs_match_push(ps@, es, p, ("productName"@, x@));
                es = es.push(("productName"@, x@));
            }
            ps.push(p);
        }
        proof {
            assert(es =~= self.spec_entries_card_product());
        }
        ps
    }

    fn query_pairs_kinds(&self) -> (r: Vec<(String, String)>)
        ensures
            spec_pairs_match(r@, self.spec_entries_kinds()),
    {
        let mut ps: Vec<(String, String)> = Vec::new();
        let ghost mut es: Seq<(Seq<char>, Seq<char>)> = Seq::empty();
        assert(spec_pairs_match(ps@, es));
        if let Some(ts) = &self.invoice_types {
            let ghost es0 = es;
            let n = ts.len();
            let mut i: usize = 0;
            while i < n
                invariant
                    n == ts@.len(),
                    0 <= i <= n,
                    spec_pairs_match(ps@, es),
                    es == es0 + ts@.subrange(0, i as int).map_values(
                        |x: InvoiceType| ("invoiceTypes"@, x.spec_wire_name()),
                    ),
                decreases n - i,
            {
                let c = &ts[i];
                let p = ("invoiceTypes".to_owned(), c.wire_name());
                proof {
                    lemma_pairs_match_push(ps@, es, p, ("invoiceTypes"@, c.spec_wire_name()));
                    es = es.push(("invoiceTypes"@, c.spec_wire_name()));
                    assert(es =~= es0 + ts@.subrange(0, i + 1).map_values(
                        |x: InvoiceType| ("invoiceTypes"@, x.spec_wire_name()),
                    ));
                }
                ps.push(p);
                i = i + 1;
            }
            proof {
                assert(ts@.subrange(0, n as int) =~= ts@);
            }
        }
        if let Some(ss) = &self.invoice_statuses {
            let ghost es0 = es;
            let n = ss.len();
            let mut i: usize = 0;
            while i < n
                invariant
                    n == ss@.len(),
                    0 <= i <= n,
                    spec_pairs_match(ps@, es),
                    es == es0 + ss@.subrange(0, i as int).map_values(
                        |x: InvoiceStatus| ("invoiceStatuses"@, x.spec_wire_name()),
                    ),
                decreases n - i,
            {
                let c = &ss[i];
                let p = ("invoiceStatuses".to_owned(), c.wire_name());
                proof {
                    lemma_pairs_match_push(ps@, es, p, ("invoiceStatuses"@, c.spec_wire_name()));
                    es = es.push(("invoiceStatuses"@, c.spec_wire_name()));
                    assert(es =~= es0 + ss@.subrange(0, i + 1).map_values(
                        |x: InvoiceStatus| ("invoiceStatuses"@, x.spec_wire_name()),
                    ));
                }
                ps.push(p);
                i = i + 1;
            }
            proof {
                assert(ss@.subrange(0, n as int) =~= ss@);
            }
        }
        proof {
            assert(es =~= self.spec_entries_kinds());
        }
        ps
    }

    fn query_pairs_paging(&self) -> (r: Vec<(String, String)>)
        ensures
            spec_pairs_match(r@, self.spec_entries_paging()),
    {
        let mut ps: Vec<(String, String)> = Vec::new();
        let ghost mut es: Seq<(Seq<char>, Seq<char>)> = Seq::empty();
        assert(spec_pairs_match(ps@, es));
        if let Some(x) = &self.page {
            let p = ("page".to_owned(), i64_to_string(*x));
            proof {
                lemma_pairs_match_push(ps@, es, p, ("page"@, spec_i64_dec(*x as int)));
                es = es.push(("page"@, spec_i64_dec(*x as int)));
            }
            ps.push(p);
        }
        if let Some(x) = &self.size {
            let p = ("size".to_owned(), i64_to_string(*x));
            proof {
                lemma_pairs_match_push(ps@, es, p, ("size"@, spec_i64_dec(*x as int)));
                es = es.push(("size"@, spec_i64_dec(*x as int)));
            }
            ps.push(p);
        }
        proof {
            assert(es =~= self.spec_entries_paging());
        }
        ps
    }

    /// Serializes the filters into query pairs; fails with
    /// `InvalidQueryParam` exactly when a date filter denotes no real
    /// instant.
    pub fn to_query_pairs(&self) -> (r: Result<Vec<(String, String)>, LavaTopError>)
        ensures
            match r {
                Ok(ps) => self.spec_dates_wf() && spec_pairs_match(ps@, self.spec_query_entries()),
                Err(e) => e is InvalidQueryParam && !self.spec_dates_wf(),
            },
    {
        if let Some(t) = &self.begin_date {
            if !t.check_wf() {
                return Err(
                    LavaTopError::InvalidQueryParam(
                        "the begin date denotes no real instant".to_owned(),
                    ),
                );
            }
        }
        if let Some(t) = &self.end_date {
            if !t.check_wf() {
                return Err(
                    LavaTopError::InvalidQueryParam(
                        "the end date denotes no real instant".to_owned(),
                    ),
                );
            }
        }
        let mut ps = self.query_pairs_dates();
        let mut more = self.query_pairs_card_product();
        proof {
            lemma_pairs_match_concat(
                ps@,
                self.spec_entries_dates(),
                more@,
                self.spec_entries_card_product(),
            );
        }
        ps.append(&mut more);
        let mut more = self.query_pairs_kinds();
        proof {
            lemma_pairs_match_concat(
                ps@,
                self.spec_entries_dates() + self.spec_entries_card_product(),
                more@,
                self.spec_entries_kinds(),
            );
        }
        ps.append(&mut more);
        let mut more = self.query_pairs_paging();
        proof {
            lemma_pairs_match_concat(
                ps@,
                self.spec_entries_dates() + self.spec_entries_card_product()
                    + self.spec_entries_kinds(),
                more@,
                self.spec_entries_paging(),
            );
        }
        ps.append(&mut more);
        Ok(ps)
    }
}

#[verifier::rlimit(100)]
proof fn lemma_no_begin_date_key(p: ListInvoicesParams)
    requires
        p.begin_date is None,
    ensures
        !spec_entries_have_key(p.spec_query_entries(), "beginDate"@),
{
    reveal_strlit("beginDate");
    reveal_strlit("endDate");
    reveal_strlit("buyerEmail");
    reveal_strlit("currencies");
    reveal_strlit("last4CardDigits");
    reveal_strlit("productName");
    reveal_strlit("invoiceTypes");
    reveal_strlit("invoiceStatuses");
    reveal_strlit("page");
    reveal_strlit("size");
    assert("beginDate"@.len() == 9);
    assert("endDate"@.len() == 7);
    assert("buyerEmail"@.len() == 10);
    assert("currencies"@.len() == 10);
    assert("last4CardDigits"@.len() == 15);
    assert("productName"@.len() == 11);
    assert("invoiceTypes"@.len() == 12);
    assert("invoiceStatuses"@.len() == 15);
    assert("page"@.len() == 4);
    assert("size"@.len() == 4);
    assert("buyerEmail"@[0] != "currencies"@[0]);
    assert("last4CardDigits"@[0] != "invoiceStatuses"@[0]);
    assert("page"@[0] != "size"@[0]);
    let e1 = p.spec_entries_dates();
    let e2 = p.spec_entries_card_product();
    let e3 = p.spec_entries_kinds();
    let e4 = p.spec_entries_paging();
    assert forall|j: int| 0 <= j < e1.len() implies (#[trigger] e1[j]).0 != "beginDate"@ by {
        assert(e1[j].0 == "endDate"@ || e1[j].0 == "buyerEmail"@);
    }
    lemma_no_entry_key(e1, "beginDate"@);
    assert forall|j: int| 0 <= j < e2.len() implies (#[trigger] e2[j]).0 != "beginDate"@ by {
        assert(e2[j].0 == "currencies"@ || e2[j].0 == "last4CardDigits"@ || e2[j].0 == "productName"@);
    }
    lemma_no_entry_key(e2, "beginDate"@);
    assert forall|j: int| 0 <= j < e3.len() implies (#[trigger] e3[j]).0 != "beginDate"@ by {
        assert(e3[j].0 == "invoiceTypes"@ || e3[j].0 == "invoiceStatuses"@);
    }
    lemma_no_entry_key(e3, "beginDate"@);
    assert forall|j: int| 0 <= j < e4.len() implies (#[trigger] e4[j]).0 != "beginDate"@ by {
        assert(e4[j].0 == "page"@ || e4[j].0 == "size"@);
    }
    lemma_no_entry_key(e4, "beginDate"@);
    lemma_no_entry_key_concat(e1, e2, "beginDate"@);
    lemma_no_entry_key_concat(e1 + e2, e3, "beginDate"@);
    lemma_no_entry_key_concat(e1 + e2 + e3, e4, "beginDate"@);
}

#[verifier::rlimit(100)]
proof fn lemma_no_end_date_key(p: ListInvoicesParams)
    requires
        p.end_date is None,
    ensures
        !spec_entries_have_key(p.spec_query_entries(), "endDate"@),
{
    reveal_strlit("beginDate");
    reveal_strlit("endDate");
    reveal_strlit("buyerEmail");
    reveal_strlit("currencies");
    reveal_strlit("last4CardDigits");
    reveal_strlit("productName");
    reveal_strlit("invoiceTypes");
    reveal_strlit("invoiceStatuses");
    reveal_strlit("page");
    reveal_strlit("size");
    assert("beginDate"@.len() == 9);
    assert("endDate"@.len() == 7);
    assert("buyerEmail"@.len() == 10);
    assert("currencies"@.len() == 10);
    assert("last4CardDigits"@.len() == 15);
    assert("productName"@.len() == 11);
    assert("invoiceTypes"@.len() == 12);
    assert("invoiceStatuses"@.len() == 15);
    assert("page"@.len() == 4);
    assert("size"@.len() == 4);
    assert("buyerEmail"@[0] != "currencies"@[0]);
    assert("last4CardDigits"@[0] != "invoiceStatuses"@[0]);
    assert("page"@[0] != "size"@[0]);
    let e1 = p.spec_entries_dates();
    let e2 = p.spec_entries_card_product();
    let e3 = p.spec_entries_kinds();
    let e4 = p.spec_entries_paging();
    assert forall|j: int| 0 <= j < e1.len() implies (#[trigger] e1[j]).0 != "endDate"@ by {
        assert(e1[j].0 == "beginDate"@ || e1[j].0 == "buyerEmail"@);
    }
    lemma_no_entry_key(e1, "endDate"@);
    assert forall|j: int| 0 <= j < e2.len() implies (#[trigger] e2[j]).0 != "endDate"@ by {
        assert(e2[j].0 == "currencies"@ || e2[j].0 == "last4CardDigits"@ || e2[j].0 == "productName"@);
    }
    lemma_no_entry_key(e2, "endDate"@);
    assert forall|j: int| 0 <= j < e3.len() implies (#[trigger] e3[j]).0 != "endDate"@ by {
        assert(e3[j].0 == "invoiceTypes"@ || e3[j].0 == "invoiceStatuses"@);
    }
    lemma_no_entry_key(e3, "endDate"@);
    assert forall|j: int| 0 <= j < e4.len() implies (#[trigger] e4[j]).0 != "endDate"@ by {
        assert(e4[j].0 == "page"@ || e4[j].0 == "size"@);
    }
    lemma_no_entry_key(e4, "endDate"@);
    lemma_no_entry_key_concat(e1, e2, "endDate"@);
    lemma_no_entry_key_concat(e1 + e2, e3, "endDate"@);
    lemma_no_entry_key_concat(e1 + e2 + e3, e4, "endDate"@);
}

#[verifier::rlimit(100)]
proof fn lemma_no_buyer_email_key(p: ListInvoicesParams)
    requires
        p.buyer_email is None,
    ensures
        !spec_entries_have_key(p.spec_query_entries(), "buyerEmail"@),
{
    reveal_strlit("beginDate");
    reveal_strlit("endDate");
    reveal_strlit("buyerEmail");
    reveal_strlit("currencies");
    reveal_strlit("last4CardDigits");
    reveal_strlit("productName");
    reveal_strlit("invoiceTypes");
    reveal_strlit("invoiceStatuses");
    reveal_strlit("page");
    reveal_strlit("size");
    assert("beginDate"@.len() == 9);
    assert("endDate"@.len() == 7);
    assert("buyerEmail"@.len() == 10);
    assert("currencies"@.len() == 10);
    assert("last4CardDigits"@.len() == 15);
    assert("productName"@.len() == 11);
    assert("invoiceTypes"@.len() == 12);
    assert("invoiceStatuses"@.len() == 15);
    assert("page"@.len() == 4);
    assert("size"@.len() == 4);
    assert("buyerEmail"@[0] != "currencies"@[0]);
    assert("last4CardDigits"@[0] != "invoiceStatuses"@[0]);
    assert("page"@[0] != "size"@[0]);
    let e1 = p.spec_entries_dates();
    let e2 = p.spec_entries_card_product();
    let e3 = p.spec_entries_kinds();
    let e4 = p.spec_entries_paging();
    assert forall|j: int| 0 <= j < e1.len() implies (#[trigger] e1[j]).0 != "buyerEmail"@ by {
        assert(e1[j].0 == "beginDate"@ || e1[j].0 == "endDate"@);
    }
    lemma_no_entry_key(e1, "buyerEmail"@);
    assert forall|j: int| 0 <= j < e2.len() implies (#[trigger] e2[j]).0 != "buyerEmail"@ by {
        assert(e2[j].0 == "currencies"@ || e2[j].0 == "last4CardDigits"@ || e2[j].0 == "productName"@);
    }
    lemma_no_entry_key(e2, "buyerEmail"@);
    assert forall|j: int| 0 <= j < e3.len() implies (#[trigger] e3[j]).0 != "buyerEmail"@ by {
        assert(e3[j].0 == "invoiceTypes"@ || e3[j].0 == "invoiceStatuses"@);
    }
    lemma_no_entry_key(e3, "buyerEmail"@);
    assert forall|j: int| 0 <= j < e4.len() implies (#[trigger] e4[j]).0 != "buyerEmail"@ by {
        assert(e4[j].0 == "page"@ || e4[j].0 == "size"@);
    }
    lemma_no_entry_key(e4, "buyerEmail"@);
    lemma_no_entry_key_concat(e1, e2, "buyerEmail"@);
    lemma_no_entry_key_concat(e1 + e2, e3, "buyerEmail"@);
    lemma_no_entry_key_concat(e1 + e2 + e3, e4, "buyerEmail"@);
}

#[verifier::rlimit(100)]
proof fn lemma_no_currencies_key(p: ListInvoicesParams)
    requires
        p.currencies is None,
    ensures
        !spec_entries_have_key(p.spec_query_entries(), "currencies"@),
{
    reveal_strlit("beginDate");
    reveal_strlit("endDate");
    reveal_strlit("buyerEmail");
    reveal_strlit("currencies");
    reveal_strlit("last4CardDigits");
    reveal_strlit("productName");
    reveal_strlit("invoiceTypes");
    reveal_strlit("invoiceStatuses");
    reveal_strlit("page");
    reveal_strlit("size");
    assert("beginDate"@.len() == 9);
    assert("endDate"@.len() == 7);
    assert("buyerEmail"@.len() == 10);
    assert("currencies"@.len() == 10);
    assert("last4CardDigits"@.len() == 15);
    assert("productName"@.len() == 11);
    assert("invoiceTypes"@.len() == 12);
    assert("invoiceStatuses"@.len() == 15);
    assert("page"@.len() == 4);
    assert("size"@.len() == 4);
    assert("buyerEmail"@[0] != "currencies"@[0]);
    assert("last4CardDigits"@[0] != "invoiceStatuses"@[0]);
    assert("page"@[0] != "size"@[0]);
    let e1 = p.spec_entries_dates();
    let e2 = p.spec_entries_card_product();
    let e3 = p.spec_entries_kinds();
    let e4 = p.spec_entries_paging();
    assert forall|j: int| 0 <= j < e1.len() implies (#[trigger] e1[j]).0 != "currencies"@ by {
        assert(e1[j].0 == "beginDate"@ || e1[j].0 == "endDate"@ || e1[j].0 == "buyerEmail"@);
    }
    lemma_no_entry_key(e1, "currencies"@);
    assert forall|j: int| 0 <= j < e2.len() implies (#[trigger] e2[j]).0 != "currencies"@ by {
        assert(e2[j].0 == "last4CardDigits"@ || e2[j].0 == "productName"@);
    }
    lemma_no_entry_key(e2, "currencies"@);
    assert forall|j: int| 0 <= j < e3.len() implies (#[trigger] e3[j]).0 != "currencies"@ by {
        assert(e3[j].0 == "invoiceTypes"@ || e3[j].0 == "invoiceStatuses"@);
    }
    lemma_no_entry_key(e3, "currencies"@);
    assert forall|j: int| 0 <= j < e4.len() implies (#[trigger] e4[j]).0 != "currencies"@ by {
        assert(e4[j].0 == "page"@ || e4[j].0 == "size"@);
    }
    lemma_no_entry_key(e4, "currencies"@);
    lemma_no_entry_key_concat(e1, e2, "currencies"@);
    lemma_no_entry_key_concat(e1 + e2, e3, "currencies"@);
    lemma_no_entry_key_concat(e1 + e2 + e3, e4, "currencies"@);
}

#[verifier::rlimit(100)]
proof fn lemma_no_last4_card_digits_key(p: ListInvoicesParams)
    requires
        p.last4_card_digits is None,
    ensures
        !spec_entries_have_key(p.spec_query_entries(), "last4CardDigits"@),
{
    reveal_strlit("beginDate");
    reveal_strlit("endDate");
    reveal_strlit("buyerEmail");
    reveal_strlit("currencies");
    reveal_strlit("last4CardDigits");
    reveal_strlit("productName");
    reveal_strlit("invoiceTypes");
    reveal_strlit("invoiceStatuses");
    reveal_strlit("page");
    reveal_strlit("size");
    assert("beginDate"@.len() == 9);
    assert("endDate"@.len() == 7);
    assert("buyerEmail"@.len() == 10);
    assert("currencies"@.len() == 10);
    assert("last4CardDigits"@.len() == 15);
    assert("productName"@.len() == 11);
    assert("invoiceTypes"@.len() == 12);
    assert("invoiceStatuses"@.len() == 15);
    assert("page"@.len() == 4);
    assert("size"@.len() == 4);
    assert("buyerEmail"@[0] != "currencies"@[0]);
    assert("last4CardDigits"@[0] != "invoiceStatuses"@[0]);
    assert("page"@[0] != "size"@[0]);
    let e1 = p.spec_entries_dates();
    let e2 = p.spec_entries_card_product();
    let e3 = p.spec_entries_kinds();
    let e4 = p.spec_entries_paging();
    assert forall|j: int| 0 <= j < e1.len() implies (#[trigger] e1[j]).0 != "last4CardDigits"@ by {
        assert(e1[j].0 == "beginDate"@ || e1[j].0 == "endDate"@ || e1[j].0 == "buyerEmail"@);
    }
    lemma_no_entry_key(e1, "last4CardDigits"@);
    assert forall|j: int| 0 <= j < e2.len() implies (#[trigger] e2[j]).0 != "last4CardDigits"@ by {
        assert(e2[j].0 == "currencies"@ || e2[j].0 == "productName"@);
    }
    lemma_no_entry_key(e2, "last4CardDigits"@);
    assert forall|j: int| 0 <= j < e3.len() implies (#[trigger] e3[j]).0 != "last4CardDigits"@ by {
        assert(e3[j].0 == "invoiceTypes"@ || e3[j].0 == "invoiceStatuses"@);
    }
    lemma_no_entry_key(e3, "last4CardDigits"@);
    assert forall|j: int| 0 <= j < e4.len() implies (#[trigger] e4[j]).0 != "last4CardDigits"@ by {
        assert(e4[j].0 == "page"@ || e4[j].0 == "size"@);
    }
    lemma_no_entry_key(e4, "last4CardDigits"@);
    lemma_no_entry_key_concat(e1, e2, "last4CardDigits"@);
    lemma_no_entry_key_concat(e1 + e2, e3, "last4CardDigits"@);
    lemma_no_entry_key_concat(e1 + e2 + e3, e4, "last4CardDigits"@);
}

#[verifier::rlimit(100)]
proof fn lemma_no_product_name_key(p: ListInvoicesParams)
    requires
        p.product_name is None,
    ensures
        !spec_entries_have_key(p.spec_query_entries(), "productName"@),
{
    reveal_strlit("beginDate");
    reveal_strlit("endDate");
    reveal_strlit("buyerEmail");
    reveal_strlit("currencies");
    reveal_strlit("last4CardDigits");
    reveal_strlit("productName");
    reveal_strlit("invoiceTypes");
    reveal_strlit("invoiceStatuses");
    reveal_strlit("page");
    reveal_strlit("size");
    assert("beginDate"@.len() == 9);
    assert("endDate"@.len() == 7);
    assert("buyerEmail"@.len() == 10);
    assert("currencies"@.len() == 10);
    assert("last4CardDigits"@.len() == 15);
    assert("productName"@.len() == 11);
    assert("invoiceTypes"@.len() == 12);
    assert("invoiceStatuses"@.len() == 15);
    assert("page"@.len() == 4);
    assert("size"@.len() == 4);
    assert("buyerEmail"@[0] != "currencies"@[0]);
    assert("last4CardDigits"@[0] != "invoiceStatuses"@[0]);
    assert("page"@[0] != "size"@[0]);
    let e1 = p.spec_entries_dates();
    let e2 = p.spec_entries_card_product();
    let e3 = p.spec_entries_kinds();
    let e4 = p.spec_entries_paging();
    assert forall|j: int| 0 <= j < e1.len() implies (#[trigger] e1[j]).0 != "productName"@ by {
        assert(e1[j].0 == "beginDate"@ || e1[j].0 == "endDate"@ || e1[j].0 == "buyerEmail"@);
    }
    lemma_no_entry_key(e1, "productName"@);
    assert forall|j: int| 0 <= j < e2.len() implies (#[trigger] e2[j]).0 != "productName"@ by {
        assert(e2[j].0 == "currencies"@ || e2[j].0 == "last4CardDigits"@);
    }
    lemma_no_entry_key(e2, "productName"@);
    assert forall|j: int| 0 <= j < e3.len() implies (#[trigger] e3[j]).0 != "productName"@ by {
        assert(e3[j].0 == "invoiceTypes"@ || e3[j].0 == "invoiceStatuses"@);
    }
    lemma_no_entry_key(e3, "productName"@);
    assert forall|j: int| 0 <= j < e4.len() implies (#[trigger] e4[j]).0 != "productName"@ by {
        assert(e4[j].0 == "page"@ || e4[j].0 == "size"@);
    }
    lemma_no_entry_key(e4, "productName"@);
    lemma_no_entry_key_concat(e1, e2, "productName"@);
    lemma_no_entry_key_concat(e1 + e2, e3, "productName"@);
    lemma_no_entry_key_concat(e1 + e2 + e3, e4, "productName"@);
}

#[verifier::rlimit(100)]
proof fn lemma_no_invoice_types_key(p: ListInvoicesParams)
    requires
        p.invoice_types is None,
    ensures
        !spec_entries_have_key(p.spec_query_entries(), "invoiceTypes"@),
{
    reveal_strlit("beginDate");
    reveal_strlit("endDate");
    reveal_strlit("buyerEmail");
    reveal_strlit("currencies");
    reveal_strlit("last4CardDigits");
    reveal_strlit("productName");
    reveal_strlit("invoiceTypes");
    reveal_strlit("invoiceStatuses");
    reveal_strlit("page");
    reveal_strlit("size");
    assert("beginDate"@.len() == 9);
    assert("endDate"@.len() == 7);
    assert("buyerEmail"@.len() == 10);
    assert("currencies"@.len() == 10);
    assert("last4CardDigits"@.len() == 15);
    assert("productName"@.len() == 11);
    assert("invoiceTypes"@.len() == 12);
    assert("invoiceStatuses"@.len() == 15);
    assert("page"@.len() == 4);
    assert("size"@.len() == 4);
    assert("buyerEmail"@[0] != "currencies"@[0]);
    assert("last4CardDigits"@[0] != "invoiceStatuses"@[0]);
    assert("page"@[0] != "size"@[0]);
    let e1 = p.spec_entries_dates();
    let e2 = p.spec_entries_card_product();
    let e3 = p.spec_entries_kinds();
    let e4 = p.spec_entries_paging();
    assert forall|j: int| 0 <= j < e1.len() implies (#[trigger] e1[j]).0 != "invoiceTypes"@ by {
        assert(e1[j].0 == "beginDate"@ || e1[j].0 == "endDate"@ || e1[j].0 == "buyerEmail"@);
    }
    lemma_no_entry_key(e1, "invoiceTypes"@);
    assert forall|j: int| 0 <= j < e2.len() implies (#[trigger] e2[j]).0 != "invoiceTypes"@ by {
        assert(e2[j].0 == "currencies"@ || e2[j].0 == "last4CardDigits"@ || e2[j].0 == "productName"@);
    }
    lemma_no_entry_key(e2, "invoiceTypes"@);
    assert forall|j: int| 0 <= j < e3.len() implies (#[trigger] e3[j]).0 != "invoiceTypes"@ by {
        assert(e3[j].0 == "invoiceStatuses"@);
    }
    lemma_no_entry_key(e3, "invoiceTypes"@);
    assert forall|j: int| 0 <= j < e4.len() implies (#[trigger] e4[j]).0 != "invoiceTypes"@ by {
        assert(e4[j].0 == "page"@ || e4[j].0 == "size"@);
    }
    lemma_no_entry_key(e4, "invoiceTypes"@);
    lemma_no_entry_key_concat(e1, e2, "invoiceTypes"@);
    lemma_no_entry_key_concat(e1 + e2, e3, "invoiceTypes"@);
    lemma_no_entry_key_concat(e1 + e2 + e3, e4, "invoiceTypes"@);
}

#[verifier::rlimit(100)]
proof fn lemma_no_invoice_statuses_key(p: ListInvoicesParams)
    requires
        p.invoice_statuses is None,
    ensures
        !spec_entries_have_key(p.spec_query_entries(), "invoiceStatuses"@),
{
    reveal_strlit("beginDate");
    reveal_strlit("endDate");
    reveal_strlit("buyerEmail");
    reveal_strlit("currencies");
    reveal_strlit("last4CardDigits");
    reveal_strlit("productName");
    reveal_strlit("invoiceTypes");
    reveal_strlit("invoiceStatuses");
    reveal_strlit("page");
    reveal_strlit("size");
    assert("beginDate"@.len() == 9);
    assert("endDate"@.len() == 7);
    assert("buyerEmail"@.len() == 10);
    assert("currencies"@.len() == 10);
    assert("last4CardDigits"@.len() == 15);
    assert("productName"@.len() == 11);
    assert("invoiceTypes"@.len() == 12);
    assert("invoiceStatuses"@.len() == 15);
    assert("page"@.len() == 4);
    assert("size"@.len() == 4);
    assert("buyerEmail"@[0] != "currencies"@[0]);
    assert("last4CardDigits"@[0] != "invoiceStatuses"@[0]);
    assert("page"@[0] != "size"@[0]);
    let e1 = p.spec_entries_dates();
    let e2 = p.spec_entries_card_product();
    let e3 = p.spec_entries_kinds();
    let e4 = p.spec_entries_paging();
    assert forall|j: int| 0 <= j < e1.len() implies (#[trigger] e1[j]).0 != "invoiceStatuses"@ by {
        assert(e1[j].0 == "beginDate"@ || e1[j].0 == "endDate"@ || e1[j].0 == "buyerEmail"@);
    }
    lemma_no_entry_key(e1, "invoiceStatuses"@);
    assert forall|j: int| 0 <= j < e2.len() implies (#[trigger] e2[j]).0 != "invoiceStatuses"@ by {
        assert(e2[j].0 == "currencies"@ || e2[j].0 == "last4CardDigits"@ || e2[j].0 == "productName"@);
    }
    lemma_no_entry_key(e2, "invoiceStatuses"@);
    assert forall|j: int| 0 <= j < e3.len() implies (#[trigger] e3[j]).0 != "invoiceStatuses"@ by {
        assert(e3[j].0 == "invoiceTypes"@);
    }
    lemma_no_entry_key(e3, "invoiceStatuses"@);
    assert forall|j: int| 0 <= j < e4.len() implies (#[trigger] e4[j]).0 != "invoiceStatuses"@ by {
        assert(e4[j].0 == "page"@ || e4[j].0 == "size"@);
    }
    lemma_no_entry_key(e4, "invoiceStatuses"@);
    lemma_no_entry_key_concat(e1, e2, "invoiceStatuses"@);
    lemma_no_entry_key_concat(e1 + e2, e3, "invoiceStatuses"@);
    lemma_no_entry_key_concat(e1 + e2 + e3, e4, "invoiceStatuses"@);
}

#[verifier::rlimit(100)]
proof fn lemma_no_page_key(p: ListInvoicesParams)
    requires
        p.page is None,
    ensures
        !spec_entries_have_key(p.spec_query_entries(), "page"@),
{
    reveal_strlit("beginDate");
    reveal_strlit("endDate");
    reveal_strlit("buyerEmail");
    reveal_strlit("currencies");
    reveal_strlit("last4CardDigits");
    reveal_strlit("productName");
    reveal_strlit("invoiceTypes");
    reveal_strlit("invoiceStatuses");
    reveal_strlit("page");
    reveal_strlit("size");
    assert("beginDate"@.len() == 9);
    assert("endDate"@.len() == 7);
    assert("buyerEmail"@.len() == 10);
    assert("currencies"@.len() == 10);
    assert("last4CardDigits"@.len() == 15);
    assert("productName"@.len() == 11);
    assert("invoiceTypes"@.len() == 12);
    assert("invoiceStatuses"@.len() == 15);
    assert("page"@.len() == 4);
    assert("size"@.len() == 4);
    assert("buyerEmail"@[0] != "currencies"@[0]);
    assert("last4CardDigits"@[0] != "invoiceStatuses"@[0]);
    assert("page"@[0] != "size"@[0]);
    let e1 = p.spec_entries_dates();
    let e2 = p.spec_entries_card_product();
    let e3 = p.spec_entries_kinds();
    let e4 = p.spec_entries_paging();
    assert forall|j: int| 0 <= j < e1.len() implies (#[trigger] e1[j]).0 != "page"@ by {
        assert(e1[j].0 == "beginDate"@ || e1[j].0 == "endDate"@ || e1[j].0 == "buyerEmail"@);
    }
    lemma_no_entry_key(e1, "page"@);
    assert forall|j: int| 0 <= j < e2.len() implies (#[trigger] e2[j]).0 != "page"@ by {
        assert(e2[j].0 == "currencies"@ || e2[j].0 == "last4CardDigits"@ || e2[j].0 == "productName"@);
    }
    lemma_no_entry_key(e2, "page"@);
    assert forall|j: int| 0 <= j < e3.len() implies (#[trigger] e3[j]).0 != "page"@ by {
        assert(e3[j].0 == "invoiceTypes"@ || e3[j].0 == "invoiceStatuses"@);
    }
    lemma_no_entry_key(e3, "page"@);
    assert forall|j: int| 0 <= j < e4.len() implies (#[trigger] e4[j]).0 != "page"@ by {
        assert(e4[j].0 == "size"@);
    }
    lemma_no_entry_key(e4, "page"@);
    lemma_no_entry_key_concat(e1, e2, "page"@);
    lemma_no_entry_key_concat(e1 + e2, e3, "page"@);
    lemma_no_entry_key_concat(e1 + e2 + e3, e4, "page"@);
}

#[verifier::rlimit(100)]
proof fn lemma_no_size_key(p: ListInvoicesParams)
    requires
        p.size is None,
    ensures
        !spec_entries_have_key(p.spec_query_entries(), "size"@),
{
    reveal_strlit("beginDate");
    reveal_strlit("endDate");
    reveal_strlit("buyerEmail");
    reveal_strlit("currencies");
    reveal_strlit("last4CardDigits");
    reveal_strlit("productName");
    reveal_strlit("invoiceTypes");
    reveal_strlit("invoiceStatuses");
    reveal_strlit("page");
    reveal_strlit("size");
    assert("beginDate"@.len() == 9);
    assert("endDate"@.len() == 7);
    assert("buyerEmail"@.len() == 10);
    assert("currencies"@.len() == 10);
    assert("last4CardDigits"@.len() == 15);
    assert("productName"@.len() == 11);
    assert("invoiceTypes"@.len() == 12);
    assert("invoiceStatuses"@.len() == 15);
    assert("page"@.len() == 4);
    assert("size"@.len() == 4);
    assert("buyerEmail"@[0] != "currencies"@[0]);
    assert("last4CardDigits"@[0] != "invoiceStatuses"@[0]);
    assert("page"@[0] != "size"@[0]);
    let e1 = p.spec_entries_dates();
    let e2 = p.spec_entries_card_product();
    let e3 = p.spec_entries_kinds();
    let e4 = p.spec_entries_paging();
    assert forall|j: int| 0 <= j < e1.len() implies (#[trigger] e1[j]).0 != "size"@ by {
        assert(e1[j].0 == "beginDate"@ || e1[j].0 == "endDate"@ || e1[j].0 == "buyerEmail"@);
    }
    lemma_no_entry_key(e1, "size"@);
    assert forall|j: int| 0 <= j < e2.len() implies (#[trigger] e2[j]).0 != "size"@ by {
        assert(e2[j].0 == "currencies"@ || e2[j].0 == "last4CardDigits"@ || e2[j].0 == "productName"@);
    }
    lemma_no_entry_key(e2, "size"@);
    assert forall|j: int| 0 <= j < e3.len() implies (#[trigger] e3[j]).0 != "size"@ by {
        assert(e3[j].0 == "invoiceTypes"@ || e3[j].0 == "invoiceStatuses"@);
    }
    lemma_no_entry_key(e3, "size"@);
    assert forall|j: int| 0 <= j < e4.len() implies (#[trigger] e4[j]).0 != "size"@ by {
        assert(e4[j].0 == "page"@);
    }
    lemma_no_entry_key(e4, "size"@);
    lemma_no_entry_key_concat(e1, e2, "size"@);
    lemma_no_entry_key_concat(e1 + e2, e3, "size"@);
    lemma_no_entry_key_concat(e1 + e2 + e3, e4, "size"@);
}

/// An unset filter contributes nothing: its key never occurs among
/// the serialized query entries.
pub proof fn lemma_list_invoices_omits_unset(p: ListInvoicesParams)
    ensures
        p.begin_date is None ==> !spec_entries_have_key(p.spec_query_entries(), "beginDate"@),
        p.end_date is None ==> !spec_entries_have_key(p.spec_query_entries(), "endDate"@),
        p.buyer_email is None ==> !spec_entries_have_key(p.spec_query_entries(), "buyerEmail"@),
        p.currencies is None ==> !spec_entries_have_key(p.spec_query_entries(), "currencies"@),
        p.last4_card_digits is None ==> !spec_entries_have_key(p.spec_query_entries(), "last4CardDigits"@),
        p.product_name is None ==> !spec_entries_have_key(p.spec_query_entries(), "productName"@),
        p.invoice_types is None ==> !spec_entries_have_key(p.spec_query_entries(), "invoiceTypes"@),
        p.invoice_statuses is None ==> !spec_entries_have_key(p.spec_query_entries(), "invoiceStatuses"@),
        p.page is None ==> !spec_entries_have_key(p.spec_query_entries(), "page"@),
        p.size is None ==> !spec_entries_have_key(p.spec_query_entries(), "size"@),
{
    if p.begin_date is None {
        lemma_no_begin_date_key(p);
    }
    if p.end_date is None {
        lemma_no_end_date_key(p);
    }
    if p.buyer_email is None {
        lemma_no_buyer_email_key(p);
    }
    if p.currencies is None {
        lemma_no_currencies_key(p);
    }
    if p.last4_card_digits is None {
        lemma_no_last4_card_digits_key(p);
    }
    if p.product_name is None {
        lemma_no_product_name_key(p);
    }
    if p.invoice_types is None {
        lemma_no_invoice_types_key(p);
    }
    if p.invoice_statuses is None {
        lemma_no_invoice_statuses_key(p);
    }
    if p.page is None {
        lemma_no_page_key(p);
    }
    if p.size is None {
        lemma_no_size_key(p);
    }
}

} // verus!

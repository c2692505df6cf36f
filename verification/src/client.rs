//! The client: configuration, endpoint resolution, request construction
//! and response classification. Every operation goes through
//! `build_request` on the way out and `success_json` on the way back.

use vstd::prelude::*;
use vstd::string::StrSliceExecFns;
use vstd::string::StringExecFns;
use crate::strutil::{spec_is_blank, is_blank, spec_is_header_value, is_header_value};
use crate::json::{JsonValue, spec_parse_json, parse_json};
use crate::error::{LavaTopError, ApiErrorDetails, spec_decode_error_details, decode_error_details};
use crate::http::{
    HttpMethod, HttpRequest, HttpResponse, spec_header_lookup, lemma_header_lookup_skip,
    spec_pairs_match,
};
use crate::json::{JsonModel, spec_json_matches};
use crate::models::common::{PagedResponseV2, Uuid};
use crate::models::donate::{DonateResponse, decode_donate, spec_decode_donate};
use crate::models::feed::{
    FeedItem, FeedPageResponse, GetFeedParams, decode_feed_page, spec_decode_feed_page,
};
use crate::models::invoice::{
    InvoiceRequestDto, InvoicePaymentParamsResponse, InvoiceResponseV2, InvoicePageResponse,
    ListInvoicesParams, encode_invoice_request, spec_invoice_request_entries,
    decode_invoice_payment_params, spec_decode_invoice_payment_params, decode_invoice_v2,
    spec_decode_invoice_v2, decode_invoice_page, spec_decode_invoice_page,
};
use crate::models::product::{
    ProductUpdateRequest, ProductItemResponse, FeedItemCombined, ListProductsParams,
    encode_product_update, spec_product_update_entries, decode_product_item,
    spec_decode_product_item, decode_products_page, spec_decode_products_page,
};
use crate::models::report::{
    ListPartnerSalesParams, ListPartnerProductSalesParams, PartnerSalesPageResponse,
    PartnerProductDto, PartnerSaleDetailsDto, PartnerProductSalesPageResponse,
    decode_partner_sales_page, spec_decode_partner_sales_page, decode_product_sales_page,
    spec_decode_product_sales_page,
};
use crate::models::subscription::CancelSubscriptionParams;

verus! {

/// The fixed per-request timeout the transport is configured with, in
/// seconds; it is not configurable per call.
pub const REQUEST_TIMEOUT_SECS: u64 = 30;

/// The base URL used when the caller overrides none.
pub open spec fn spec_default_base_url() -> Seq<char> {
    "https://gate.lava.top/"@
}

pub fn default_base_url() -> (r: String)
    ensures
        r@ == spec_default_base_url(),
{
    "https://gate.lava.top/".to_owned()
}

/// What the outside URL resolver yields for a path joined against a
/// base: `None` exactly when the base does not parse as an absolute URL
/// or the join is rejected.
pub uninterp spec fn spec_url_join(base: Seq<char>, path: Seq<char>) -> Option<Seq<char>>;

/// Relies on url::Url::parse and url::Url::join: resolves `path`
/// against `base`; the outcome depends on the two strings alone.
#[verifier::external_body]
fn url_join(base: &str, path: &str) -> (r: Option<String>)
    ensures
        match r {
            Some(u) => spec_url_join(base@, path@) == Some(u@),
            None => spec_url_join(base@, path@) is None,
        },
{
    match url::Url::parse(base) {
        Ok(b) => match b.join(path) {
            Ok(u) => Some(u.as_str().to_string()),
            Err(_) => None,
        },
        Err(_) => None,
    }
}

/// The string with its leading slashes removed.
pub open spec fn spec_trim_slashes(s: Seq<char>) -> Seq<char>
    decreases s.len(),
{
    if s.len() > 0 && s[0] == '/' {
        spec_trim_slashes(s.drop_first())
    } else {
        s
    }
}

proof fn lemma_trim_skip(s: Seq<char>, i: int)
    requires
        0 <= i <= s.len(),
        forall|j: int| 0 <= j < i ==> s[j] == '/',
    ensures
        spec_trim_slashes(s) == spec_trim_slashes(s.skip(i)),
    decreases i,
{
    if i > 0 {
        assert(s.drop_first() =~= s.skip(1));
        lemma_trim_skip(s.skip(1), i - 1);
        assert(s.skip(1).skip(i - 1) =~= s.skip(i));
    } else {
        assert(s.skip(0) =~= s);
    }
}

fn count_leading_slashes(s: &str) -> (i: usize)
    ensures
        0 <= i <= s@.len(),
        forall|j: int| 0 <= j < i ==> s@[j] == '/',
        i < s@.len() ==> s@[i as int] != '/',
{
    let n = s.unicode_len();
    let mut i: usize = 0;
    while i < n
        invariant
            n == s@.len(),
            0 <= i <= n,
            forall|j: int| 0 <= j < i ==> s@[j] == '/',
        decreases n - i,
    {
        if s.get_char(i) != '/' {
            return i;
        }
        i = i + 1;
    }
    i
}

fn trim_leading_slashes(s: &str) -> (r: &str)
    ensures
        r@ == spec_trim_slashes(s@),
{
    let n = s.unicode_len();
    let i = count_leading_slashes(s);
    proof {
        lemma_trim_skip(s@, i as int);
        if i < n {
            assert(spec_trim_slashes(s@.skip(i as int)) == s@.skip(i as int));
        } else {
            assert(s@.skip(i as int) =~= Seq::<char>::empty());
        }
    }
    let r = s.substring_char(i, n);
    proof {
        assert(r@ =~= s@.skip(i as int));
    }
    r
}

/// The configured transport endpoint: an API key, a base URL and the
/// fixed request timeout. The key is never blank once construction
/// succeeds.
#[derive(Debug, Clone, PartialEq, Eq)]
pub struct LavaTopClient {
    pub api_key: String,
    pub base_url: String,
    pub timeout_secs: u64,
}

impl LavaTopClient {
    /// Configures a client. Fails exactly when the API key is empty or
    /// all whitespace; a missing base URL falls back to the default,
    /// and the transport timeout is fixed at construction.
    pub fn new(api_key: String, base_url: Option<String>) -> (r: Result<LavaTopClient, LavaTopError>)
        ensures
            spec_is_blank(api_key@) <==> (r matches Err(e) && e is MissingParameter),
            !spec_is_blank(api_key@) ==> (r matches Ok(c) && c.api_key == api_key
                && c.timeout_secs == REQUEST_TIMEOUT_SECS && (match base_url {
                Some(u) => c.base_url == u,
                None => c.base_url@ == spec_default_base_url(),
            })),
    {
        let base = match base_url {
            Some(u) => u,
            None => default_base_url(),
        };
        if is_blank(api_key.as_str()) {
            return Err(
                LavaTopError::MissingParameter(
                    "the API key must not be empty or all whitespace".to_owned(),
                ),
            );
        }
        Ok(LavaTopClient { api_key, base_url: base, timeout_secs: REQUEST_TIMEOUT_SECS })
    }

    /// Replaces the base URL; later requests resolve against the new
    /// one, and nothing else changes.
    pub fn set_base_url(&mut self, url: String)
        ensures
            final(self).base_url == url,
            final(self).api_key == old(self).api_key,
            final(self).timeout_secs == old(self).timeout_secs,
    {
        self.base_url = url;
    }

    /// Resolves an endpoint path against the base URL; fails with
    /// `UrlParse` exactly when the resolver rejects the pair.
    pub fn build_url(&self, endpoint: &str) -> (r: Result<String, LavaTopError>)
        ensures
            match r {
                Ok(u) => spec_url_join(self.base_url@, spec_trim_slashes(endpoint@)) == Some(u@),
                Err(e) => e is UrlParse && spec_url_join(
                    self.base_url@,
                    spec_trim_slashes(endpoint@),
                ) is None,
            },
    {
        let path = trim_leading_slashes(endpoint);
        match url_join(self.base_url.as_str(), path) {
            Some(u) => Ok(u),
            None => Err(
                LavaTopError::UrlParse(
                    "the endpoint path cannot be joined to the base URL".to_owned(),
                ),
            ),
        }
    }

    /// Builds the outbound request: resolves the URL, validates the API
    /// key as a header value, attaches the query and body as given, and
    /// sets `Accept` and the API-key header always, `Content-Type`
    /// exactly when a body is attached.
    pub fn build_request(
        &self,
        method: HttpMethod,
        endpoint: &str,
        query: Option<Vec<(String, String)>>,
        body: Option<JsonValue>,
    ) -> (r: Result<HttpRequest, LavaTopError>)
        ensures
            match r {
                Ok(req) => {
                    &&& spec_url_join(self.base_url@, spec_trim_slashes(endpoint@)) == Some(
                        req.url@,
                    )
                    &&& spec_is_header_value(self.api_key@)
                    &&& req.method == method
                    &&& (match query {
                        Some(q) => req.query == q,
                        None => req.query@.len() == 0,
                    })
                    &&& req.body == body
                    &&& spec_header_lookup(req.headers@, "Accept"@) == Some("application/json"@)
                    &&& spec_header_lookup(req.headers@, "X-Api-Key"@) == Some(self.api_key@)
                    &&& (req.body is Some ==> spec_header_lookup(req.headers@, "Content-Type"@)
                        == Some("application/json"@))
                    &&& (req.body is None ==> spec_header_lookup(
                        req.headers@,
                        "Content-Type"@,
                    ) is None)
                },
                Err(e) => {
                    ||| (e is UrlParse && spec_url_join(
                        self.base_url@,
                        spec_trim_slashes(endpoint@),
                    ) is None)
                    ||| (e is InvalidHeaderValue && spec_url_join(
                        self.base_url@,
                        spec_trim_slashes(endpoint@),
                    ) is Some && !spec_is_header_value(self.api_key@))
                },
            },
    {
        let url = match self.build_url(endpoint) {
            Ok(u) => u,
            Err(e) => {
                return Err(e);
            },
        };
        if !is_header_value(self.api_key.as_str()) {
            return Err(
                LavaTopError::InvalidHeaderValue(
                    "the API key holds a character illegal in a header value".to_owned(),
                ),
            );
        }
        let mut headers: Vec<(String, String)> = Vec::new();
        if body.is_some() {
            headers.push(("Content-Type".to_owned(), "application/json".to_owned()));
        }
        headers.push(("Accept".to_owned(), "application/json".to_owned()));
        headers.push(("X-Api-Key".to_owned(), self.api_key.clone()));
        proof {
            reveal_strlit("Content-Type");
            reveal_strlit("Accept");
            reveal_strlit("X-Api-Key");
            assert("Content-Type"@.len() == 12);
            assert("Accept"@.len() == 6);
            assert("X-Api-Key"@.len() == 9);
            let hs = headers@;
            if body is Some {
                assert(hs.len() == 3);
                assert(hs[0].0@ == "Content-Type"@);
                assert(hs[1].0@ == "Accept"@);
                assert(hs[2].0@ == "X-Api-Key"@);
                assert(hs[0].0@ != "Accept"@);
                assert(hs[0].0@ != "X-Api-Key"@);
                assert(hs[1].0@ != "X-Api-Key"@);
                assert(spec_header_lookup(hs, "Content-Type"@) == Some("application/json"@));
                lemma_header_lookup_skip(hs, "Accept"@, 1);
                assert(hs.subrange(1, 3)[0] == hs[1]);
                assert(spec_header_lookup(hs.subrange(1, 3), "Accept"@) == Some(
                    "application/json"@,
                ));
                lemma_header_lookup_skip(hs, "X-Api-Key"@, 2);
                assert(hs.subrange(2, 3)[0] == hs[2]);
                assert(spec_header_lookup(hs.subrange(2, 3), "X-Api-Key"@) == Some(
                    self.api_key@,
                ));
            } else {
                assert(hs.len() == 2);
                assert(hs[0].0@ == "Accept"@);
                assert(hs[1].0@ == "X-Api-Key"@);
                assert(hs[0].0@ != "X-Api-Key"@);
                assert(hs[0].0@ != "Content-Type"@);
                assert(hs[1].0@ != "Content-Type"@);
                assert(spec_header_lookup(hs, "Accept"@) == Some("application/json"@));
                lemma_header_lookup_skip(hs, "X-Api-Key"@, 1);
                assert(hs.subrange(1, 2)[0] == hs[1]);
                assert(spec_header_lookup(hs.subrange(1, 2), "X-Api-Key"@) == Some(
                    self.api_key@,
                ));
                lemma_header_lookup_skip(hs, "Content-Type"@, 2);
                assert(hs.subrange(2, 2).len() == 0);
                assert(spec_header_lookup(hs.subrange(2, 2), "Content-Type"@) is None);
            }
        }
        let query_vec = match query {
            Some(q) => q,
            None => Vec::new(),
        };
        Ok(HttpRequest { method, url, headers, query: query_vec, body })
    }
}

/// The decoded failure payload of a body, when there is one and it
/// parses: the raw text is always kept beside it.
pub open spec fn spec_error_details_of_body(body: Option<String>) -> Option<ApiErrorDetails> {
    match body {
        Some(text) => match spec_parse_json(text@) {
            Some(v) => spec_decode_error_details(v),
            None => None,
        },
        None => None,
    }
}

/// Normalizes a failure response into `ApiError`: the exact status, the
/// structured payload when the body parses as one, and the raw body
/// whenever it was readable.
pub fn api_error_from(status: u16, raw_body: Option<String>) -> (r: LavaTopError)
    ensures
        r == (LavaTopError::ApiError {
            status,
            details: spec_error_details_of_body(raw_body),
            raw_body,
        }),
{
    let details = match &raw_body {
        Some(text) => match parse_json(text.as_str()) {
            Some(v) => decode_error_details(v),
            None => None,
        },
        None => None,
    };
    LavaTopError::ApiError { status, details, raw_body }
}

/// The parsed JSON of a success body, when the status is a success, the
/// body was readable and the text parses.
pub open spec fn spec_success_json(resp: HttpResponse) -> Option<JsonValue> {
    if crate::spec_is_success_status(resp.status) {
        match resp.body {
            Some(text) => spec_parse_json(text@),
            None => None,
        }
    } else {
        None
    }
}

/// Classifies a response: a non-success status becomes `ApiError` with
/// that status, the decoded payload and the raw body; a success status
/// yields the parsed JSON body, or `Serialization` when the body is
/// unreadable or not JSON.
pub fn success_json(resp: HttpResponse) -> (r: Result<JsonValue, LavaTopError>)
    ensures
        !crate::spec_is_success_status(resp.status) ==> (r matches Err(e) && e
            == (LavaTopError::ApiError {
            status: resp.status,
            details: spec_error_details_of_body(resp.body),
            raw_body: resp.body,
        })),
        crate::spec_is_success_status(resp.status) ==> (match spec_success_json(resp) {
            Some(v) => r == Ok::<JsonValue, LavaTopError>(v),
            None => r matches Err(e) && e is Serialization,
        }),
{
    if !crate::is_success_status(resp.status) {
        return Err(api_error_from(resp.status, resp.body));
    }
    match resp.body {
        Some(text) => match parse_json(text.as_str()) {
            Some(v) => Ok(v),
            None => Err(
                LavaTopError::Serialization("the response body is not valid JSON".to_owned()),
            ),
        },
        None => Err(
            LavaTopError::Serialization("the response carried no readable body".to_owned()),
        ),
    }
}

/// Ends a cancellation call: any success status is success (the
/// documented one is the empty-success status), and any other status is
/// normalized into `ApiError` like every failure.
pub fn cancel_subscription_response(resp: HttpResponse) -> (r: Result<(), LavaTopError>)
    ensures
        crate::spec_is_success_status(resp.status) <==> r is Ok,
        !crate::spec_is_success_status(resp.status) ==> (r matches Err(e) && e
            == (LavaTopError::ApiError {
            status: resp.status,
            details: spec_error_details_of_body(resp.body),
            raw_body: resp.body,
        })),
{
    if crate::is_success_status(resp.status) {
        Ok(())
    } else {
        Err(api_error_from(resp.status, resp.body))
    }
}

/// What every successfully built request looks like: the URL resolved
/// against the base, the query spelled by the given entries, a body
/// present exactly when the operation sends one, and the standing
/// headers; and how building fails when it does.
pub open spec fn spec_request_ok(
    c: LavaTopClient,
    method: HttpMethod,
    endpoint: Seq<char>,
    qents: Seq<(Seq<char>, Seq<char>)>,
    has_body: bool,
    r: Result<HttpRequest, LavaTopError>,
) -> bool {
    match r {
        Ok(req) => {
            &&& spec_url_join(c.base_url@, spec_trim_slashes(endpoint)) == Some(req.url@)
            &&& spec_is_header_value(c.api_key@)
            &&& req.method == method
            &&& spec_pairs_match(req.query@, qents)
            &&& (req.body is Some <==> has_body)
            &&& spec_header_lookup(req.headers@, "Accept"@) == Some("application/json"@)
            &&& spec_header_lookup(req.headers@, "X-Api-Key"@) == Some(c.api_key@)
            &&& (has_body ==> spec_header_lookup(req.headers@, "Content-Type"@) == Some(
                "application/json"@,
            ))
            &&& (!has_body ==> spec_header_lookup(req.headers@, "Content-Type"@) is None)
        },
        Err(e) => {
            ||| (e is UrlParse && spec_url_join(c.base_url@, spec_trim_slashes(endpoint)) is None)
            ||| (e is InvalidHeaderValue && spec_url_join(
                c.base_url@,
                spec_trim_slashes(endpoint),
            ) is Some && !spec_is_header_value(c.api_key@))
        },
    }
}

impl LavaTopClient {
    /// Builds the request for the superseded v1 feed listing.
    pub fn get_feed_request(&self, params: Option<&GetFeedParams>) -> (r: Result<
        HttpRequest,
        LavaTopError,
    >)
        ensures
            spec_request_ok(
                *self,
                HttpMethod::Get,
                "/api/v1/feed"@,
                match params {
                    Some(p) => p.spec_query_entries(),
                    None => Seq::empty(),
                },
                false,
                r,
            ),
    {
        let query = match params {
            Some(p) => Some(p.to_query_pairs()),
            None => None,
        };
        self.build_request(HttpMethod::Get, "/api/v1/feed", query, None)
    }

    /// Builds the superseded v1 purchase request.
    pub fn create_invoice_v1_request(&self, request: &InvoiceRequestDto) -> (r: Result<
        HttpRequest,
        LavaTopError,
    >)
        ensures
            spec_request_ok(*self, HttpMethod::Post, "/api/v1/invoice"@, Seq::empty(), true, r),
            r matches Ok(req) ==> (req.body matches Some(b) && spec_json_matches(
                b,
                JsonModel::Obj(spec_invoice_request_entries(*request)),
            )),
    {
        let body = encode_invoice_request(request);
        self.build_request(HttpMethod::Post, "/api/v1/invoice", None, Some(body))
    }

    /// Builds the v2 purchase request.
    pub fn create_invoice_v2_request(&self, request: &InvoiceRequestDto) -> (r: Result<
        HttpRequest,
        LavaTopError,
    >)
        ensures
            spec_request_ok(*self, HttpMethod::Post, "/api/v2/invoice"@, Seq::empty(), true, r),
            r matches Ok(req) ==> (req.body matches Some(b) && spec_json_matches(
                b,
                JsonModel::Obj(spec_invoice_request_entries(*request)),
            )),
    {
        let body = encode_invoice_request(request);
        self.build_request(HttpMethod::Post, "/api/v2/invoice", None, Some(body))
    }

    /// Builds the request listing the key's contracts.
    pub fn list_invoices_request(&self, params: Option<&ListInvoicesParams>) -> (r: Result<
        HttpRequest,
        LavaTopError,
    >)
        ensures
            (match params {
                Some(p) => p.spec_dates_wf(),
                None => true,
            }) ==> spec_request_ok(
                *self,
                HttpMethod::Get,
                "/api/v1/invoices"@,
                match params {
                    Some(p) => p.spec_query_entries(),
                    None => Seq::empty(),
                },
                false,
                r,
            ),
            !(match params {
                Some(p) => p.spec_dates_wf(),
                None => true,
            }) ==> (r matches Err(e) && e is InvalidQueryParam),
    {
        let query = match params {
            Some(p) => match p.to_query_pairs() {
                Ok(q) => Some(q),
                Err(e) => {
                    return Err(e);
                },
            },
            None => None,
        };
        self.build_request(HttpMethod::Get, "/api/v1/invoices", query, None)
    }

    /// Builds the request fetching one contract by identifier.
    pub fn get_invoice_by_id_request(&self, invoice_id: &Uuid) -> (r: Result<
        HttpRequest,
        LavaTopError,
    >)
        ensures
            spec_request_ok(
                *self,
                HttpMethod::Get,
                "/api/v1/invoices/"@ + invoice_id.text@,
                Seq::empty(),
                false,
                r,
            ),
    {
        let mut endpoint = "/api/v1/invoices/".to_owned();
        endpoint.append(invoice_id.as_str());
        self.build_request(HttpMethod::Get, endpoint.as_str(), None, None)
    }

    /// Builds the request for the general partner sales report.
    pub fn list_partner_sales_request(&self, params: Option<&ListPartnerSalesParams>) -> (r:
        Result<HttpRequest, LavaTopError>)
        ensures
            spec_request_ok(
                *self,
                HttpMethod::Get,
                "/api/v1/sales/"@,
                match params {
                    Some(p) => p.spec_query_entries(),
                    None => Seq::empty(),
                },
                false,
                r,
            ),
    {
        let query = match params {
            Some(p) => Some(p.to_query_pairs()),
            None => None,
        };
        self.build_request(HttpMethod::Get, "/api/v1/sales/", query, None)
    }

    /// Builds the request for the per-product partner sales report.
    pub fn list_partner_product_sales_request(
        &self,
        product_id: &Uuid,
        params: Option<&ListPartnerProductSalesParams>,
    ) -> (r: Result<HttpRequest, LavaTopError>)
        ensures
            (match params {
                Some(p) => p.spec_dates_wf(),
                None => true,
            }) ==> spec_request_ok(
                *self,
                HttpMethod::Get,
                "/api/v1/sales/"@ + product_id.text@,
                match params {
                    Some(p) => p.spec_query_entries(),
                    None => Seq::empty(),
                },
                false,
                r,
            ),
            !(match params {
                Some(p) => p.spec_dates_wf(),
                None => true,
            }) ==> (r matches Err(e) && e is InvalidQueryParam),
    {
        let query = match params {
            Some(p) => match p.to_query_pairs() {
                Ok(q) => Some(q),
                Err(e) => {
                    return Err(e);
                },
            },
            None => None,
        };
        let mut endpoint = "/api/v1/sales/".to_owned();
        endpoint.append(product_id.as_str());
        self.build_request(HttpMethod::Get, endpoint.as_str(), query, None)
    }

    /// Builds the cancellation request; its two parameters always ride
    /// in the query string.
    pub fn cancel_subscription_request(&self, params: &CancelSubscriptionParams) -> (r: Result<
        HttpRequest,
        LavaTopError,
    >)
        ensures
            spec_request_ok(
                *self,
                HttpMethod::Delete,
                "/api/v1/subscriptions"@,
                params.spec_query_entries(),
                false,
                r,
            ),
    {
        let query = params.to_query_pairs();
        self.build_request(HttpMethod::Delete, "/api/v1/subscriptions", Some(query), None)
    }

    /// Builds the v2 product listing request.
    pub fn list_products_v2_request(&self, params: Option<&ListProductsParams>) -> (r: Result<
        HttpRequest,
        LavaTopError,
    >)
        ensures
            (match params {
                Some(p) => p.spec_dates_wf(),
                None => true,
            }) ==> spec_request_ok(
                *self,
                HttpMethod::Get,
                "/api/v2/products"@,
                match params {
                    Some(p) => p.spec_query_entries(),
                    None => Seq::empty(),
                },
                false,
                r,
            ),
            !(match params {
                Some(p) => p.spec_dates_wf(),
                None => true,
            }) ==> (r matches Err(e) && e is InvalidQueryParam),
    {
        let query = match params {
            Some(p) => match p.to_query_pairs() {
                Ok(q) => Some(q),
                Err(e) => {
                    return Err(e);
                },
            },
            None => None,
        };
        self.build_request(HttpMethod::Get, "/api/v2/products", query, None)
    }

    /// Builds the product update request.
    pub fn update_product_request(&self, product_id: &Uuid, request: &ProductUpdateRequest) -> (r:
        Result<HttpRequest, LavaTopError>)
        ensures
            spec_request_ok(
                *self,
                HttpMethod::Patch,
                "/api/v2/products/"@ + product_id.text@,
                Seq::empty(),
                true,
                r,
            ),
            r matches Ok(req) ==> (req.body matches Some(b) && spec_json_matches(
                b,
                JsonModel::Obj(spec_product_update_entries(*request)),
            )),
    {
        let body = encode_product_update(request);
        let mut endpoint = "/api/v2/products/".to_owned();
        endpoint.append(product_id.as_str());
        self.build_request(HttpMethod::Patch, endpoint.as_str(), None, Some(body))
    }

    /// Builds the donation-link request.
    pub fn get_donate_link_request(&self) -> (r: Result<HttpRequest, LavaTopError>)
        ensures
            spec_request_ok(*self, HttpMethod::Get, "/api/v1/donate"@, Seq::empty(), false, r),
    {
        self.build_request(HttpMethod::Get, "/api/v1/donate", None, None)
    }
}

fn shape_error() -> (r: LavaTopError)
    ensures
        r is Serialization,
{
    LavaTopError::Serialization("the response body does not match the declared shape".to_owned())
}

/// Ends a v1 feed call.
pub fn get_feed_response(resp: HttpResponse) -> (r: Result<FeedPageResponse, LavaTopError>)
    ensures
        !crate::spec_is_success_status(resp.status) ==> (r matches Err(e) && e
            == (LavaTopError::ApiError {
            status: resp.status,
            details: spec_error_details_of_body(resp.body),
            raw_body: resp.body,
        })),
        crate::spec_is_success_status(resp.status) ==> (match spec_success_json(resp) {
            Some(v) => match spec_decode_feed_page(v) {
                Some(d) => r matches Ok(p) && d == (
                    p.items@.map_values(|x: FeedItem| x@),
                    p.page,
                    p.size,
                    p.total,
                ),
                None => r matches Err(e) && e is Serialization,
            },
            None => r matches Err(e) && e is Serialization,
        }),
{
    let v = match success_json(resp) {
        Ok(v) => v,
        Err(e) => {
            return Err(e);
        },
    };
    match decode_feed_page(&v) {
        Some(p) => Ok(p),
        None => Err(shape_error()),
    }
}

/// Ends an invoice-creation call, v1 or v2: both versions answer with
/// the same payment-parameters shape.
pub fn create_invoice_response(resp: HttpResponse) -> (r: Result<
    InvoicePaymentParamsResponse,
    LavaTopError,
>)
    ensures
        !crate::spec_is_success_status(resp.status) ==> (r matches Err(e) && e
            == (LavaTopError::ApiError {
            status: resp.status,
            details: spec_error_details_of_body(resp.body),
            raw_body: resp.body,
        })),
        crate::spec_is_success_status(resp.status) ==> (match spec_success_json(resp) {
            Some(v) => match spec_decode_invoice_payment_params(v) {
                Some(d) => r == Ok::<InvoicePaymentParamsResponse, LavaTopError>(d),
                None => r matches Err(e) && e is Serialization,
            },
            None => r matches Err(e) && e is Serialization,
        }),
{
    let v = match success_json(resp) {
        Ok(v) => v,
        Err(e) => {
            return Err(e);
        },
    };
    match decode_invoice_payment_params(&v) {
        Some(p) => Ok(p),
        None => Err(shape_error()),
    }
}

/// Ends a contract-list call.
pub fn list_invoices_response(resp: HttpResponse) -> (r: Result<InvoicePageResponse, LavaTopError>)
    ensures
        !crate::spec_is_success_status(resp.status) ==> (r matches Err(e) && e
            == (LavaTopError::ApiError {
            status: resp.status,
            details: spec_error_details_of_body(resp.body),
            raw_body: resp.body,
        })),
        crate::spec_is_success_status(resp.status) ==> (match spec_success_json(resp) {
            Some(v) => match spec_decode_invoice_page(v) {
                Some(d) => r matches Ok(p) && d == (p.items@, p.page, p.size, p.total),
                None => r matches Err(e) && e is Serialization,
            },
            None => r matches Err(e) && e is Serialization,
        }),
{
    let v = match success_json(resp) {
        Ok(v) => v,
        Err(e) => {
            return Err(e);
        },
    };
    match decode_invoice_page(&v) {
        Some(p) => Ok(p),
        None => Err(shape_error()),
    }
}

/// Ends a single-contract call.
pub fn get_invoice_by_id_response(resp: HttpResponse) -> (r: Result<
    InvoiceResponseV2,
    LavaTopError,
>)
    ensures
        !crate::spec_is_success_status(resp.status) ==> (r matches Err(e) && e
            == (LavaTopError::ApiError {
            status: resp.status,
            details: spec_error_details_of_body(resp.body),
            raw_body: resp.body,
        })),
        crate::spec_is_success_status(resp.status) ==> (match spec_success_json(resp) {
            Some(v) => match spec_decode_invoice_v2(v) {
                Some(d) => r == Ok::<InvoiceResponseV2, LavaTopError>(d),
                None => r matches Err(e) && e is Serialization,
            },
            None => r matches Err(e) && e is Serialization,
        }),
{
    let v = match success_json(resp) {
        Ok(v) => v,
        Err(e) => {
            return Err(e);
        },
    };
    match decode_invoice_v2(&v) {
        Some(p) => Ok(p),
        None => Err(shape_error()),
    }
}

/// Ends a general sales-report call.
pub fn list_partner_sales_response(resp: HttpResponse) -> (r: Result<
    PartnerSalesPageResponse,
    LavaTopError,
>)
    ensures
        !crate::spec_is_success_status(resp.status) ==> (r matches Err(e) && e
            == (LavaTopError::ApiError {
            status: resp.status,
            details: spec_error_details_of_body(resp.body),
            raw_body: resp.body,
        })),
        crate::spec_is_success_status(resp.status) ==> (match spec_success_json(resp) {
            Some(v) => match spec_decode_partner_sales_page(v) {
                Some(d) => r matches Ok(p) && d == (
                    p.items@.map_values(|x: PartnerProductDto| x@),
                    p.total,
                    p.page,
                    p.size,
                    p.total_pages,
                ),
                None => r matches Err(e) && e is Serialization,
            },
            None => r matches Err(e) && e is Serialization,
        }),
{
    let v = match success_json(resp) {
        Ok(v) => v,
        Err(e) => {
            return Err(e);
        },
    };
    match decode_partner_sales_page(&v) {
        Some(p) => Ok(p),
        None => Err(shape_error()),
    }
}

/// Ends a per-product sales-report call.
pub fn list_partner_product_sales_response(resp: HttpResponse) -> (r: Result<
    PartnerProductSalesPageResponse,
    LavaTopError,
>)
    ensures
        !crate::spec_is_success_status(resp.status) ==> (r matches Err(e) && e
            == (LavaTopError::ApiError {
            status: resp.status,
            details: spec_error_details_of_body(resp.body),
            raw_body: resp.body,
        })),
        crate::spec_is_success_status(resp.status) ==> (match spec_success_json(resp) {
            Some(v) => match spec_decode_product_sales_page(v) {
                Some(d) => r matches Ok(p) && d == (
                    p.items@,
                    p.total,
                    p.page,
                    p.size,
                    p.total_pages,
                ),
                None => r matches Err(e) && e is Serialization,
            },
            None => r matches Err(e) && e is Serialization,
        }),
{
    let v = match success_json(resp) {
        Ok(v) => v,
        Err(e) => {
            return Err(e);
        },
    };
    match decode_product_sales_page(&v) {
        Some(p) => Ok(p),
        None => Err(shape_error()),
    }
}

/// Ends a v2 product-list call.
pub fn list_products_v2_response(resp: HttpResponse) -> (r: Result<
    PagedResponseV2<FeedItemCombined>,
    LavaTopError,
>)
    ensures
        !crate::spec_is_success_status(resp.status) ==> (r matches Err(e) && e
            == (LavaTopError::ApiError {
            status: resp.status,
            details: spec_error_details_of_body(resp.body),
            raw_body: resp.body,
        })),
        crate::spec_is_success_status(resp.status) ==> (match spec_success_json(resp) {
            Some(v) => match spec_decode_products_page(v) {
                Some(d) => r matches Ok(p) && d == (
                    p.items@.map_values(|x: FeedItemCombined| x@),
                    p.next_page,
                ),
                None => r matches Err(e) && e is Serialization,
            },
            None => r matches Err(e) && e is Serialization,
        }),
{
    let v = match success_json(resp) {
        Ok(v) => v,
        Err(e) => {
            return Err(e);
        },
    };
    match decode_products_page(&v) {
        Some(p) => Ok(p),
        None => Err(shape_error()),
    }
}

/// Ends a product-update call.
pub fn update_product_response(resp: HttpResponse) -> (r: Result<ProductItemResponse, LavaTopError>)
    ensures
        !crate::spec_is_success_status(resp.status) ==> (r matches Err(e) && e
            == (LavaTopError::ApiError {
            status: resp.status,
            details: spec_error_details_of_body(resp.body),
            raw_body: resp.body,
        })),
        crate::spec_is_success_status(resp.status) ==> (match spec_success_json(resp) {
            Some(v) => match spec_decode_product_item(v) {
                Some(d) => r matches Ok(p) && d == p@,
                None => r matches Err(e) && e is Serialization,
            },
            None => r matches Err(e) && e is Serialization,
        }),
{
    let v = match success_json(resp) {
        Ok(v) => v,
        Err(e) => {
            return Err(e);
        },
    };
    match decode_product_item(&v) {
        Some(p) => Ok(p),
        None => Err(shape_error()),
    }
}

/// Ends a donation-link call.
pub fn get_donate_link_response(resp: HttpResponse) -> (r: Result<DonateResponse, LavaTopError>)
    ensures
        !crate::spec_is_success_status(resp.status) ==> (r matches Err(e) && e
            == (LavaTopError::ApiError {
            status: resp.status,
            details: spec_error_details_of_body(resp.body),
            raw_body: resp.body,
        })),
        crate::spec_is_success_status(resp.status) ==> (match spec_success_json(resp) {
            Some(v) => match spec_decode_donate(v) {
                Some(d) => r == Ok::<DonateResponse, LavaTopError>(d),
                None => r matches Err(e) && e is Serialization,
            },
            None => r matches Err(e) && e is Serialization,
        }),
{
    let v = match success_json(resp) {
        Ok(v) => v,
        Err(e) => {
            return Err(e);
        },
    };
    match decode_donate(&v) {
        Some(p) => Ok(p),
        None => Err(shape_error()),
    }
}

} // verus!

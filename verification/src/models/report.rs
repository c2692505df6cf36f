//! Partner sales reports: per-currency totals, per-product groupings,
//! per-contract detail rows, their pages, and the report queries.

use vstd::prelude::*;
use crate::json::{
    JsonValue, WireNumber, spec_field, field, spec_req_str, req_str, spec_opt_str, opt_str,
    spec_req_i64, req_i64, spec_req_num, req_num,
};
use crate::models::common::{
    CurrencyDto, ContractStatusDto, AmountTotalDto, BuyerDto, Uuid, spec_req_uuid, req_uuid,
    spec_opt_ts, opt_ts, spec_decode_amount_total, decode_amount_total, spec_decode_buyer,
    decode_buyer,
};
use crate::date::{UtcTimestamp, PlainDate, spec_date_chars, encode_date};
use crate::error::LavaTopError;
use crate::strutil::{spec_i64_dec, i64_to_string};
use crate::http::{
    spec_pairs_match, lemma_pairs_match_push, lemma_pairs_match_concat, spec_entries_have_key,
    lemma_no_entry_key, lemma_no_entry_key_concat,
};

verus! {

/// Sales of one product in one currency.
#[derive(Debug, Clone, PartialEq, Eq)]
pub struct PartnerSaleDto {
    pub currency: CurrencyDto,
    /// How many units were sold.
    pub count: i64,
    /// The total in this currency.
    pub amount_total: WireNumber,
}

pub open spec fn spec_decode_partner_sale(v: JsonValue) -> Option<PartnerSaleDto> {
    if !(v is Obj) {
        None
    } else {
        match spec_req_str(v, "currency"@) {
            None => None,
            Some(c) => match CurrencyDto::spec_from_wire(c@) {
                None => None,
                Some(cur) => match spec_req_i64(v, "count"@) {
                    None => None,
                    Some(count) => match spec_req_num(v, "amountTotal"@) {
                        None => None,
                        Some(at) => Some(
                            PartnerSaleDto { currency: cur, count, amount_total: at },
                        ),
                    },
                },
            },
        }
    }
}

pub fn decode_partner_sale(v: &JsonValue) -> (r: Option<PartnerSaleDto>)
    ensures
        r == spec_decode_partner_sale(*v),
{
    match v {
        JsonValue::Obj(_) => {},
        _ => {
            return None;
        },
    }
    let c = match req_str(v, "currency") {
        Some(x) => x,
        None => {
            return None;
        },
    };
    let cur = match CurrencyDto::from_wire(c.as_str()) {
        Some(x) => x,
        None => {
            return None;
        },
    };
    let count = match req_i64(v, "count") {
        Some(x) => x,
        None => {
            return None;
        },
    };
    let at = match req_num(v, "amountTotal") {
        Some(x) => x,
        None => {
            return None;
        },
    };
    Some(PartnerSaleDto { currency: cur, count, amount_total: at })
}

/// A partner's sales grouped under one product.
#[derive(Debug, Clone, PartialEq, Eq)]
pub struct PartnerProductDto {
    pub product_id: Uuid,
    pub title: Option<String>,
    pub status: Option<String>,
    /// Per-currency sales; absent on the wire when empty.
    pub sales: Vec<PartnerSaleDto>,
}

/// The mathematical content of one product grouping.
pub struct PartnerProductDtoView {
    pub product_id: Uuid,
    pub title: Option<String>,
    pub status: Option<String>,
    pub sales: Seq<PartnerSaleDto>,
}

impl View for PartnerProductDto {
    type V = PartnerProductDtoView;

    open spec fn view(&self) -> PartnerProductDtoView {
        PartnerProductDtoView {
            product_id: self.product_id,
            title: self.title,
            status: self.status,
            sales: self.sales@,
        }
    }
}

pub open spec fn spec_decode_partner_sales(xs: Seq<JsonValue>) -> Option<Seq<PartnerSaleDto>> {
    if forall|i: int| 0 <= i < xs.len() ==> spec_decode_partner_sale(#[trigger] xs[i]) is Some {
        Some(Seq::new(xs.len(), |i: int| spec_decode_partner_sale(xs[i])->0))
    } else {
        None
    }
}

pub fn decode_partner_sales(xs: &Vec<JsonValue>) -> (r: Option<Vec<PartnerSaleDto>>)
    ensures
        match r {
            Some(out) => spec_decode_partner_sales(xs@) == Some(out@),
            None => spec_decode_partner_sales(xs@) is None,
        },
{
    let mut out: Vec<PartnerSaleDto> = Vec::new();
    let n = xs.len();
    let mut i: usize = 0;
    while i < n
        invariant
            n == xs@.len(),
            0 <= i <= n,
            out@.len() == i,
            forall|j: int|
                0 <= j < i ==> spec_decode_partner_sale(#[trigger] xs@[j]) == Some(out@[j]),
        decreases n - i,
    {
        match decode_partner_sale(&xs[i]) {
            Some(d) => out.push(d),
            None => {
                return None;
            },
        }
        i = i + 1;
    }
    proof {
        assert(out@ =~= Seq::new(xs@.len(), |i: int| spec_decode_partner_sale(xs@[i])->0));
    }
    Some(out)
}

pub open spec fn spec_decode_partner_product(v: JsonValue) -> Option<PartnerProductDtoView> {
    if !(v is Obj) {
        None
    } else {
        match spec_req_uuid(v, "productId"@) {
            None => None,
            Some(pid) => match spec_opt_str(v, "title"@) {
                None => None,
                Some(title) => match spec_opt_str(v, "status"@) {
                    None => None,
                    Some(status) => match (match spec_field(v, "sales"@) {
                        None => Some(Seq::<PartnerSaleDto>::empty()),
                        Some(JsonValue::Arr(xs)) => spec_decode_partner_sales(xs@),
                        Some(_) => None,
                    }) {
                        None => None,
                        Some(sales) => Some(
                            PartnerProductDtoView { product_id: pid, title, status, sales },
                        ),
                    },
                },
            },
        }
    }
}

pub fn decode_partner_product(v: &JsonValue) -> (r: Option<PartnerProductDto>)
    ensures
        match r {
            Some(p) => spec_decode_partner_product(*v) == Some(p@),
            None => spec_decode_partner_product(*v) is None,
        },
{
    match v {
        JsonValue::Obj(_) => {},
        _ => {
            return None;
        },
    }
    let pid = match req_uuid(v, "productId") {
        Some(x) => x,
        None => {
            return None;
        },
    };
    let title = match opt_str(v, "title") {
        Some(x) => x,
        None => {
            return None;
        },
    };
    let status = match opt_str(v, "status") {
        Some(x) => x,
        None => {
            return None;
        },
    };
    let sales = match field(v, "sales") {
        None => Vec::new(),
        Some(JsonValue::Arr(xs)) => match decode_partner_sales(xs) {
            Some(s) => s,
            None => {
                return None;
            },
        },
        Some(_) => {
            return None;
        },
    };
    Some(PartnerProductDto { product_id: pid, title, status, sales })
}

/// One sale of one product, in detail.
#[derive(Debug, Clone, PartialEq, Eq)]
pub struct PartnerSaleDetailsDto {
    pub id: Uuid,
    pub created_at: Option<UtcTimestamp>,
    pub status: Option<ContractStatusDto>,
    pub amount_total: Option<AmountTotalDto>,
    pub buyer: Option<BuyerDto>,
}

pub open spec fn spec_decode_sale_details(v: JsonValue) -> Option<PartnerSaleDetailsDto> {
    if !(v is Obj) {
        None
    } else {
        match spec_req_uuid(v, "id"@) {
            None => None,
            Some(id) => match spec_opt_ts(v, "createdAt"@) {
                None => None,
                Some(ca) => match (match spec_opt_str(v, "status"@) {
                    None => None,
                    Some(None) => Some(None),
                    Some(Some(st)) => Some(Some(ContractStatusDto::spec_from_wire(st@))),
                }) {
                    None => None,
                    Some(status) => match (match spec_field(v, "amountTotal"@) {
                        None => Some(None),
                        Some(JsonValue::Null) => Some(None),
                        Some(x) => match spec_decode_amount_total(x) {
                            Some(at) => Some(Some(at)),
                            None => None,
                        },
                    }) {
                        None => None,
                        Some(at) => match (match spec_field(v, "buyer"@) {
                            None => Some(None),
                            Some(JsonValue::Null) => Some(None),
                            Some(x) => match spec_decode_buyer(x) {
                                Some(b) => Some(Some(b)),
                                None => None,
                            },
                        }) {
                            None => None,
                            Some(buyer) => Some(
                                PartnerSaleDetailsDto {
                                    id,
                                    created_at: ca,
                                    status,
                                    amount_total: at,
                                    buyer,
                                },
                            ),
                        },
                    },
                },
            },
        }
    }
}

pub fn decode_sale_details(v: &JsonValue) -> (r: Option<PartnerSaleDetailsDto>)
    ensures
        r == spec_decode_sale_details(*v),
{
    match v {
        JsonValue::Obj(_) => {},
        _ => {
            return None;
        },
    }
    let id = match req_uuid(v, "id") {
        Some(x) => x,
        None => {
            return None;
        },
    };
    let ca = match opt_ts(v, "createdAt") {
        Some(x) => x,
        None => {
            return None;
        },
    };
    let status = match opt_str(v, "status") {
        None => {
            return None;
        },
        Some(None) => None,
        Some(Some(st)) => Some(ContractStatusDto::from_wire(st.as_str())),
    };
    let at = match field(v, "amountTotal") {
        None => None,
        Some(JsonValue::Null) => None,
        Some(x) => match decode_amount_total(x) {
            Some(a) => Some(a),
            None => {
                return None;
            },
        },
    };
    let buyer = match field(v, "buyer") {
        None => None,
        Some(JsonValue::Null) => None,
        Some(x) => match decode_buyer(x) {
            Some(b) => Some(b),
            None => {
                return None;
            },
        },
    };
    Some(PartnerSaleDetailsDto { id, created_at: ca, status, amount_total: at, buyer })
}

/// A page of per-product sales groupings.
#[derive(Debug, PartialEq, Eq)]
pub struct PartnerSalesPageResponse {
    pub items: Vec<PartnerProductDto>,
    pub total: i64,
    pub page: i64,
    pub size: i64,
    pub total_pages: i64,
}

pub open spec fn spec_decode_partner_products(xs: Seq<JsonValue>) -> Option<
    Seq<PartnerProductDtoView>,
> {
    if forall|i: int| 0 <= i < xs.len() ==> spec_decode_partner_product(#[trigger] xs[i]) is Some {
        Some(Seq::new(xs.len(), |i: int| spec_decode_partner_product(xs[i])->0))
    } else {
        None
    }
}

pub open spec fn spec_decode_partner_sales_page(v: JsonValue) -> Option<
    (Seq<PartnerProductDtoView>, i64, i64, i64, i64),
> {
    if !(v is Obj) {
        None
    } else {
        match spec_field(v, "items"@) {
            Some(JsonValue::Arr(xs)) => match spec_decode_partner_products(xs@) {
                None => None,
                Some(items) => match spec_req_i64(v, "total"@) {
                    None => None,
                    Some(total) => match spec_req_i64(v, "page"@) {
                        None => None,
                        Some(page) => match spec_req_i64(v, "size"@) {
                            None => None,
                            Some(size) => match spec_req_i64(v, "totalPages"@) {
                                None => None,
                                Some(tp) => Some((items, total, page, size, tp)),
                            },
                        },
                    },
                },
            },
            _ => None,
        }
    }
}

/// Decodes a page of per-product sales groupings.
pub fn decode_partner_sales_page(v: &JsonValue) -> (r: Option<PartnerSalesPageResponse>)
    ensures
        match r {
            Some(p) => spec_decode_partner_sales_page(*v) == Some(
                (
                    p.items@.map_values(|x: PartnerProductDto| x@),
                    p.total,
                    p.page,
                    p.size,
                    p.total_pages,
                ),
            ),
            None => spec_decode_partner_sales_page(*v) is None,
        },
{
    match v {
        JsonValue::Obj(_) => {},
        _ => {
            return None;
        },
    }
    let items = match field(v, "items") {
        Some(JsonValue::Arr(xs)) => {
            let mut out: Vec<PartnerProductDto> = Vec::new();
            let n = xs.len();
            let mut i: usize = 0;
            while i < n
                invariant
                    *v is Obj,
                    spec_field(*v, "items"@) == Some(JsonValue::Arr(*xs)),
                    n == xs@.len(),
                    0 <= i <= n,
                    out@.len() == i,
                    forall|j: int|
                        0 <= j < i ==> spec_decode_partner_product(#[trigger] xs@[j]) == Some(
                            out@[j]@,
                        ),
                decreases n - i,
            {
                match decode_partner_product(&xs[i]) {
                    Some(d) => out.push(d),
                    None => {
                        return None;
                    },
                }
                i = i + 1;
            }
            proof {
                assert(out@.map_values(|x: PartnerProductDto| x@) =~= Seq::new(
                    xs@.len(),
                    |i: int| spec_decode_partner_product(xs@[i])->0,
                ));
            }
            out
        },
        _ => {
            return None;
        },
    };
    let total = match req_i64(v, "total") {
        Some(x) => x,
        None => {
            return None;
        },
    };
    let page = match req_i64(v, "page") {
        Some(x) => x,
        None => {
            return None;
        },
    };
    let size = match req_i64(v, "size") {
        Some(x) => x,
        None => {
            return None;
        },
    };
    let tp = match req_i64(v, "totalPages") {
        Some(x) => x,
        None => {
            return None;
        },
    };
    Some(PartnerSalesPageResponse { items, total, page, size, total_pages: tp })
}

/// A page of detail rows for one product.
#[derive(Debug, PartialEq, Eq)]
pub struct PartnerProductSalesPageResponse {
    pub items: Vec<PartnerSaleDetailsDto>,
    pub total: i64,
    pub page: i64,
    pub size: i64,
    pub total_pages: i64,
}

pub open spec fn spec_decode_sale_details_items(xs: Seq<JsonValue>) -> Option<
    Seq<PartnerSaleDetailsDto>,
> {
    if forall|i: int| 0 <= i < xs.len() ==> spec_decode_sale_details(#[trigger] xs[i]) is Some {
        Some(Seq::new(xs.len(), |i: int| spec_decode_sale_details(xs[i])->0))
    } else {
        None
    }
}

pub open spec fn spec_decode_product_sales_page(v: JsonValue) -> Option<
    (Seq<PartnerSaleDetailsDto>, i64, i64, i64, i64),
> {
    if !(v is Obj) {
        None
    } else {
        match spec_field(v, "items"@) {
            Some(JsonValue::Arr(xs)) => match spec_decode_sale_details_items(xs@) {
                None => None,
                Some(items) => match spec_req_i64(v, "total"@) {
                    None => None,
                    Some(total) => match spec_req_i64(v, "page"@) {
                        None => None,
                        Some(page) => match spec_req_i64(v, "size"@) {
                            None => None,
                            Some(size) => match spec_req_i64(v, "totalPages"@) {
                                None => None,
                                Some(tp) => Some((items, total, page, size, tp)),
                            },
                        },
                    },
                },
            },
            _ => None,
        }
    }
}

/// Decodes a page of detail rows.
pub fn decode_product_sales_page(v: &JsonValue) -> (r: Option<PartnerProductSalesPageResponse>)
    ensures
        match r {
            Some(p) => spec_decode_product_sales_page(*v) == Some(
                (p.items@, p.total, p.page, p.size, p.total_pages),
            ),
            None => spec_decode_product_sales_page(*v) is None,
        },
{
    match v {
        JsonValue::Obj(_) => {},
        _ => {
            return None;
        },
    }
    let items = match field(v, "items") {
        Some(JsonValue::Arr(xs)) => {
            let mut out: Vec<PartnerSaleDetailsDto> = Vec::new();
            let n = xs.len();
            let mut i: usize = 0;
            while i < n
                invariant
                    *v is Obj,
                    spec_field(*v, "items"@) == Some(JsonValue::Arr(*xs)),
                    n == xs@.len(),
                    0 <= i <= n,
                    out@.len() == i,
                    forall|j: int|
                        0 <= j < i ==> spec_decode_sale_details(#[trigger] xs@[j]) == Some(
                            out@[j],
                        ),
                decreases n - i,
            {
                match decode_sale_details(&xs[i]) {
                    Some(d) => out.push(d),
                    None => {
                        return None;
                    },
                }
                i = i + 1;
            }
            proof {
                assert(out@ =~= Seq::new(
                    xs@.len(),
                    |i: int| spec_decode_sale_details(xs@[i])->0,
                ));
            }
            out
        },
        _ => {
            return None;
        },
    };
    let total = match req_i64(v, "total") {
        Some(x) => x,
        None => {
            return None;
        },
    };
    let page = match req_i64(v, "page") {
        Some(x) => x,
        None => {
            return None;
        },
    };
    let size = match req_i64(v, "size") {
        Some(x) => x,
        None => {
            return None;
        },
    };
    let tp = match req_i64(v, "totalPages") {
        Some(x) => x,
        None => {
            return None;
        },
    };
    Some(PartnerProductSalesPageResponse { items, total, page, size, total_pages: tp })
}

// --- Query parameters ---

/// Paging for the general sales report.
#[derive(Debug, Clone, PartialEq, Eq)]
pub struct ListPartnerSalesParams {
    pub page: Option<i64>,
    pub size: Option<i64>,
}

impl core::default::Default for ListPartnerSalesParams {
    fn default() -> (r: Self)
        ensures
            r == (ListPartnerSalesParams { page: None, size: None }),
    {
        ListPartnerSalesParams { page: None, size: None }
    }
}

impl ListPartnerSalesParams {
    /// The query entries the paging serializes to.
    pub open spec fn spec_query_entries(self) -> Seq<(Seq<char>, Seq<char>)> {
        (if self.page is Some {
            seq![("page"@, spec_i64_dec(self.page->0 as int))]
        } else {
            seq![]
        }) + (if self.size is Some {
            seq![("size"@, spec_i64_dec(self.size->0 as int))]
        } else {
            seq![]
        })
    }

    /// Serializes the paging into query pairs; nothing here can fail.
    pub fn to_query_pairs(&self) -> (r: Vec<(String, String)>)
        ensures
            spec_pairs_match(r@, self.spec_query_entries()),
    {
        let mut ps: Vec<(String, String)> = Vec::new();
        let ghost mut es: Seq<(Seq<char>, Seq<char>)> = Seq::empty();
        assert(spec_pairs_match(ps@, es));
        if let Some(x) = &self.page {
            let p = ("page".to_owned(), i64_to_string(*x));
            proof {
                lemma_pairs_match_push(ps@, es, p, ("page"@, spec_i64_dec(*x as int)));
                es = es.push(("page"@, spec_i64_dec(*x as int)));
            }
            ps.push(p);
        }
        if let Some(x) = &self.size {
            let p = ("size".to_owned(), i64_to_string(*x));
            proof {
                lemma_pairs_match_push(ps@, es, p, ("size"@, spec_i64_dec(*x as int)));
                es = es.push(("size"@, spec_i64_dec(*x as int)));
            }
            ps.push(p);
        }
        proof {
            assert(es =~= self.spec_query_entries());
        }
        ps
    }
}

/// Filters for the per-product sales report. Every field is optional,
/// and an unset field contributes nothing to the query string.
#[derive(Debug, Clone, PartialEq, Eq)]
pub struct ListPartnerProductSalesParams {
    pub page: Option<i64>,
    pub size: Option<i64>,
    /// Start of the sales period, sent as `YYYY-MM-DD`.
    pub from_date: Option<PlainDate>,
    /// End of the sales period, sent as `YYYY-MM-DD`.
    pub to_date: Option<PlainDate>,
    pub currency: Option<CurrencyDto>,
    pub status: Option<ContractStatusDto>,
    pub search: Option<String>,
}

impl core::default::Default for ListPartnerProductSalesParams {
    fn default() -> (r: Self)
        ensures
            r == (ListPartnerProductSalesParams {
                page: None,
                size: None,
                from_date: None,
                to_date: None,
                currency: None,
                status: None,
                search: None,
            }),
    {
        ListPartnerProductSalesParams {
            page: None,
            size: None,
            from_date: None,
            to_date: None,
            currency: None,
            status: None,
            search: None,
        }
    }
}

impl ListPartnerProductSalesParams {
    /// The date filters denote real calendar dates.
    pub open spec fn spec_dates_wf(self) -> bool {
        &&& (self.from_date matches Some(d) ==> d.wf())
        &&& (self.to_date matches Some(d) ==> d.wf())
    }

    /// The paging and period filters among the query entries.
    pub open spec fn spec_entries_paging(self) -> Seq<(Seq<char>, Seq<char>)> {
        (if self.page is Some {
            seq![("page"@, spec_i64_dec(self.page->0 as int))]
        } else {
            seq![]
        }) + (if self.size is Some {
            seq![("size"@, spec_i64_dec(self.size->0 as int))]
        } else {
            seq![]
        }) + (if self.from_date is Some {
            seq![("fromDate"@, spec_date_chars(self.from_date->0))]
        } else {
            seq![]
        }) + (if self.to_date is Some {
            seq![("toDate"@, spec_date_chars(self.to_date->0))]
        } else {
            seq![]
        })
    }

    /// The remaining filters among the query entries.
    pub open spec fn spec_entries_filters(self) -> Seq<(Seq<char>, Seq<char>)> {
        (if self.currency is Some {
            seq![("currency"@, self.currency->0.spec_wire_name())]
        } else {
            seq![]
        }) + (if self.status is Some {
            seq![("status"@, self.status->0.spec_wire_name())]
        } else {
            seq![]
        }) + (if self.search is Some {
            seq![("search"@, self.search->0@)]
        } else {
            seq![]
        })
    }

    /// The query entries the filters serialize to, under their wire
    /// names, in declaration order.
    pub open spec fn spec_query_entries(self) -> Seq<(Seq<char>, Seq<char>)> {
        self.spec_entries_paging() + self.spec_entries_filters()
    }

    fn query_pairs_paging(&self) -> (r: Vec<(String, String)>)
        requires
            self.spec_dates_wf(),
        ensures
            spec_pairs_match(r@, self.spec_entries_paging()),
    {
        let mut ps: Vec<(String, String)> = Vec::new();
        let ghost mut es: Seq<(Seq<char>, Seq<char>)> = Seq::empty();
        assert(spec_pairs_match(ps@, es));
        if let Some(x) = &self.page {
            let p = ("page".to_owned(), i64_to_string(*x));
            proof {
                lemma_pairs_match_push(ps@, es, p, ("page"@, spec_i64_dec(*x as int)));
                es = es.push(("page"@, spec_i64_dec(*x as int)));
            }
            ps.push(p);
        }
        if let Some(x) = &self.size {
            let p = ("size".to_owned(), i64_to_string(*x));
            proof {
                lemma_pairs_match_push(ps@, es, p, ("size"@, spec_i64_dec(*x as int)));
                es = es.push(("size"@, spec_i64_dec(*x as int)));
            }
            ps.push(p);
        }
        if let Some(d) = &self.from_date {
            let p = ("fromDate".to_owned(), encode_date(d));
            proof {
                lemma_pairs_match_push(ps@, es, p, ("fromDate"@, spec_date_chars(*d)));
                es = es.push(("fromDate"@, spec_date_chars(*d)));
            }
            ps.push(p);
        }
        if let Some(d) = &self.to_date {
            let p = ("toDate".to_owned(), encode_date(d));
            proof {
                lemma_pairs_match_push(ps@, es, p, ("toDate"@, spec_date_chars(*d)));
                es = es.push(("toDate"@, spec_date_chars(*d)));
            }
            ps.push(p);
        }
        proof {
            assert(es =~= self.spec_entries_paging());
        }
        ps
    }

    fn query_pairs_filters(&self) -> (r: Vec<(String, String)>)
        ensures
            spec_pairs_match(r@, self.spec_entries_filters()),
    {
        let mut ps: Vec<(String, String)> = Vec::new();
        let ghost mut es: Seq<(Seq<char>, Seq<char>)> = Seq::empty();
        assert(spec_pairs_match(ps@, es));
        if let Some(x) = &self.currency {
            let p = ("currency".to_owned(), x.wire_name());
            proof {
                lemma_pairs_match_push(ps@, es, p, ("currency"@, x.spec_wire_name()));
                es = es.push(("currency"@, x.spec_wire_name()));
            }
            ps.push(p);
        }
        if let Some(x) = &self.status {
            let p = ("status".to_owned(), x.wire_name());
            proof {
                lemma_pairs_match_push(ps@, es, p, ("status"@, x.spec_wire_name()));
                es = es.push(("status"@, x.spec_wire_name()));
            }
            ps.push(p);
        }
        if let Some(x) = &self.search {
            let p = ("search".to_owned(), x.clone());
            proof {
                lemma_pairs_match_push(ps@, es, p, ("search"@, x@));
                es = es.push(("search"@, x@));
            }
            ps.push(p);
        }
        proof {
            assert(es =~= self.spec_entries_filters());
        }
        ps
    }

    /// Serializes the filters into query pairs; fails with
    /// `InvalidQueryParam` exactly when a date filter denotes no real
    /// calendar date.
    pub fn to_query_pairs(&self) -> (r: Result<Vec<(String, String)>, LavaTopError>)
        ensures
            match r {
                Ok(ps) => self.spec_dates_wf() && spec_pairs_match(ps@, self.spec_query_entries()),
                Err(e) => e is InvalidQueryParam && !self.spec_dates_wf(),
            },
    {
        if let Some(d) = &self.from_date {
            if !d.check_wf() {
                return Err(
                    LavaTopError::InvalidQueryParam(
                        "the period start denotes no real calendar date".to_owned(),
                    ),
                );
            }
        }
        if let Some(d) = &self.to_date {
            if !d.check_wf() {
                return Err(
                    LavaTopError::InvalidQueryParam(
                        "the period end denotes no real calendar date".to_owned(),
                    ),
                );
            }
        }
        let mut ps = self.query_pairs_paging();
        let mut more = self.query_pairs_filters();
        proof {
            lemma_pairs_match_concat(
                ps@,
                self.spec_entries_paging(),
                more@,
                self.spec_entries_filters(),
            );
        }
        ps.append(&mut more);
        Ok(ps)
    }
}

/// An unset filter contributes nothing: its key never occurs among
/// the serialized query entries.
#[verifier::rlimit(100)]
pub proof fn lemma_partner_sales_omits_unset(p: ListPartnerSalesParams)
    ensures
        p.page is None ==> !spec_entries_have_key(p.spec_query_entries(), "page"@),
        p.size is None ==> !spec_entries_have_key(p.spec_query_entries(), "size"@),
{
    reveal_strlit("page");
    reveal_strlit("size");
    assert("page"@.len() == 4);
    assert("size"@.len() == 4);
    assert("page"@[0] != "size"@[0]);
    let es = p.spec_query_entries();
    if p.page is None {
        assert forall|j: int| 0 <= j < es.len() implies (#[trigger] es[j]).0 != "page"@ by {
            assert(es[j].0 == "size"@);
        }
        lemma_no_entry_key(es, "page"@);
    }
    if p.size is None {
        assert forall|j: int| 0 <= j < es.len() implies (#[trigger] es[j]).0 != "size"@ by {
            assert(es[j].0 == "page"@);
        }
        lemma_no_entry_key(es, "size"@);
    }
}

/// An unset filter contributes nothing: its key never occurs among
/// the serialized query entries.
#[verifier::rlimit(100)]
pub proof fn lemma_product_sales_omits_unset(p: ListPartnerProductSalesParams)
    ensures
        p.page is None ==> !spec_entries_have_key(p.spec_query_entries(), "page"@),
        p.size is None ==> !spec_entries_have_key(p.spec_query_entries(), "size"@),
        p.from_date is None ==> !spec_entries_have_key(p.spec_query_entries(), "fromDate"@),
        p.to_date is None ==> !spec_entries_have_key(p.spec_query_entries(), "toDate"@),
        p.currency is None ==> !spec_entries_have_key(p.spec_query_entries(), "currency"@),
        p.status is None ==> !spec_entries_have_key(p.spec_query_entries(), "status"@),
        p.search is None ==> !spec_entries_have_key(p.spec_query_entries(), "search"@),
{
    reveal_strlit("page");
    reveal_strlit("size");
    reveal_strlit("fromDate");
    reveal_strlit("toDate");
    reveal_strlit("currency");
    reveal_strlit("status");
    reveal_strlit("search");
    assert("page"@.len() == 4);
    assert("size"@.len() == 4);
    assert("fromDate"@.len() == 8);
    assert("toDate"@.len() == 6);
    assert("currency"@.len() == 8);
    assert("status"@.len() == 6);
    assert("search"@.len() == 6);
    assert("page"@[0] != "size"@[0]);
    assert("fromDate"@[0] != "toDate"@[0]);
    assert("status"@[1] != "search"@[1]);
    let e1 = p.spec_entries_paging();
    let e2 = p.spec_entries_filters();
    if p.page is None {
        assert forall|j: int| 0 <= j < e1.len() implies (#[trigger] e1[j]).0 != "page"@ by {
            assert(e1[j].0 == "size"@ || e1[j].0 == "fromDate"@ || e1[j].0 == "toDate"@);
        }
        lemma_no_entry_key(e1, "page"@);
        assert forall|j: int| 0 <= j < e2.len() implies (#[trigger] e2[j]).0 != "page"@ by {
            assert(e2[j].0 == "currency"@ || e2[j].0 == "status"@ || e2[j].0 == "search"@);
        }
        lemma_no_entry_key(e2, "page"@);
        lemma_no_entry_key_concat(e1, e2, "page"@);
    }
    if p.size is None {
        assert forall|j: int| 0 <= j < e1.len() implies (#[trigger] e1[j]).0 != "size"@ by {
            assert(e1[j].0 == "page"@ || e1[j].0 == "fromDate"@ || e1[j].0 == "toDate"@);
        }
        lemma_no_entry_key(e1, "size"@);
        assert forall|j: int| 0 <= j < e2.len() implies (#[trigger] e2[j]).0 != "size"@ by {
            assert(e2[j].0 == "currency"@ || e2[j].0 == "status"@ || e2[j].0 == "search"@);
        }
        lemma_no_entry_key(e2, "size"@);
        lemma_no_entry_key_concat(e1, e2, "size"@);
    }
    if p.from_date is None {
        assert forall|j: int| 0 <= j < e1.len() implies (#[trigger] e1[j]).0 != "fromDate"@ by {
            assert(e1[j].0 == "page"@ || e1[j].0 == "size"@ || e1[j].0 == "toDate"@);
        }
        lemma_no_entry_key(e1, "fromDate"@);
        assert forall|j: int| 0 <= j < e2.len() implies (#[trigger] e2[j]).0 != "fromDate"@ by {
            assert(e2[j].0 == "currency"@ || e2[j].0 == "status"@ || e2[j].0 == "search"@);
        }
        lemma_no_entry_key(e2, "fromDate"@);
        lemma_no_entry_key_concat(e1, e2, "fromDate"@);
    }
    if p.to_date is None {
        assert forall|j: int| 0 <= j < e1.len() implies (#[trigger] e1[j]).0 != "toDate"@ by {
            assert(e1[j].0 == "page"@ || e1[j].0 == "size"@ || e1[j].0 == "fromDate"@);
        }
        lemma_no_entry_key(e1, "toDate"@);
        assert forall|j: int| 0 <= j < e2.len() implies (#[trigger] e2[j]).0 != "toDate"@ by {
            assert(e2[j].0 == "currency"@ || e2[j].0 == "status"@ || e2[j].0 == "search"@);
        }
        lemma_no_entry_key(e2, "toDate"@);
        lemma_no_entry_key_concat(e1, e2, "toDate"@);
    }
    if p.currency is None {
        assert forall|j: int| 0 <= j < e1.len() implies (#[trigger] e1[j]).0 != "currency"@ by {
            assert(e1[j].0 == "page"@ || e1[j].0 == "size"@ || e1[j].0 == "fromDate"@ || e1[j].0 == "toDate"@);
        }
        lemma_no_entry_key(e1, "currency"@);
        assert forall|j: int| 0 <= j < e2.len() implies (#[trigger] e2[j]).0 != "currency"@ by {
            assert(e2[j].0 == "status"@ || e2[j].0 == "search"@);
        }
        lemma_no_entry_key(e2, "currency"@);
        lemma_no_entry_key_concat(e1, e2, "currency"@);
    }
    if p.status is None {
        assert forall|j: int| 0 <= j < e1.len() implies (#[trigger] e1[j]).0 != "status"@ by {
            assert(e1[j].0 == "page"@ || e1[j].0 == "size"@ || e1[j].0 == "fromDate"@ || e1[j].0 == "toDate"@);
        }
        lemma_no_entry_key(e1, "status"@);
        assert forall|j: int| 0 <= j < e2.len() implies (#[trigger] e2[j]).0 != "status"@ by {
            assert(e2[j].0 == "currency"@ || e2[j].0 == "search"@);
        }
        lemma_no_entry_key(e2, "status"@);
        lemma_no_entry_key_concat(e1, e2, "status"@);
    }
    if p.search is None {
        assert forall|j: int| 0 <= j < e1.len() implies (#[trigger] e1[j]).0 != "search"@ by {
            assert(e1[j].0 == "page"@ || e1[j].0 == "size"@ || e1[j].0 == "fromDate"@ || e1[j].0 == "toDate"@);
        }
        lemma_no_entry_key(e1, "search"@);
        assert forall|j: int| 0 <= j < e2.len() implies (#[trigger] e2[j]).0 != "search"@ by {
            assert(e2[j].0 == "currency"@ || e2[j].0 == "status"@);
        }
        lemma_no_entry_key(e2, "search"@);
        lemma_no_entry_key_concat(e1, e2, "search"@);
    }
}

} // verus!

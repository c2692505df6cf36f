//! The superseded v1 feed: its offer and product shapes, page shape and
//! query parameters. Kept beside the v2 listing because the two return
//! different shapes.

use vstd::prelude::*;
use crate::json::{
    JsonValue, spec_field, field, spec_req_str, req_str, spec_opt_str, opt_str, spec_opt_i64,
    opt_i64, spec_opt_bool, opt_bool,
};
use crate::models::common::{
    PriceDto, Status, ModerationStatus, ProductType, FeedItemType, DeleteNotAllowedReason, Uuid,
    spec_req_uuid, req_uuid, spec_opt_uuid, opt_uuid, spec_opt_ts, opt_ts, spec_is_uuid_text,
};
use crate::models::product::{RecurrentDto, spec_decode_prices, decode_prices};
use crate::date::UtcTimestamp;
use crate::strutil::{spec_i64_dec, i64_to_string};
use crate::http::{spec_pairs_match, lemma_pairs_match_push, spec_entries_have_key, lemma_no_entry_key};

verus! {

/// An offer as the v1 feed lists it.
#[derive(Debug, Clone, PartialEq, Eq)]
pub struct OfferDto {
    pub id: Uuid,
    pub name: Option<String>,
    pub description: Option<String>,
    pub prices: Vec<PriceDto>,
    /// Superseded by the periodicity inside each price.
    pub recurrent: Option<RecurrentDto>,
    /// Posts unlocked by buying this offer; absent on the wire when
    /// empty.
    pub available_posts: Vec<Uuid>,
    pub can_be_deleted: Option<bool>,
    /// Why the offer cannot be deleted; absent on the wire when empty.
    pub reasons: Vec<DeleteNotAllowedReason>,
}

/// The mathematical content of a v1 offer.
pub struct OfferDtoView {
    pub id: Uuid,
    pub name: Option<String>,
    pub description: Option<String>,
    pub prices: Seq<PriceDto>,
    pub recurrent: Option<RecurrentDto>,
    pub available_posts: Seq<Uuid>,
    pub can_be_deleted: Option<bool>,
    pub reasons: Seq<DeleteNotAllowedReason>,
}

impl View for OfferDto {
    type V = OfferDtoView;

    open spec fn view(&self) -> OfferDtoView {
        OfferDtoView {
            id: self.id,
            name: self.name,
            description: self.description,
            prices: self.prices@,
            recurrent: self.recurrent,
            available_posts: self.available_posts@,
            can_be_deleted: self.can_be_deleted,
            reasons: self.reasons@,
        }
    }
}

/// How a list of UUID strings decodes: every element must be a string
/// in canonical form.
pub open spec fn spec_decode_uuid_list(xs: Seq<JsonValue>) -> Option<Seq<Uuid>> {
    if forall|i: int|
        0 <= i < xs.len() ==> ((#[trigger] xs[i]) matches JsonValue::Str(s) && spec_is_uuid_text(
            s@,
        )) {
        Some(Seq::new(xs.len(), |i: int| Uuid { text: xs[i]->Str_0 }))
    } else {
        None
    }
}

pub fn decode_uuid_list(xs: &Vec<JsonValue>) -> (r: Option<Vec<Uuid>>)
    ensures
        match r {
            Some(out) => spec_decode_uuid_list(xs@) == Some(out@),
            None => spec_decode_uuid_list(xs@) is None,
        },
{
    let mut out: Vec<Uuid> = Vec::new();
    let n = xs.len();
    let mut i: usize = 0;
    while i < n
        invariant
            n == xs@.len(),
            0 <= i <= n,
            out@.len() == i,
            forall|j: int|
                0 <= j < i ==> ((#[trigger] xs@[j]) matches JsonValue::Str(s)
                    && spec_is_uuid_text(s@) && out@[j] == (Uuid { text: xs@[j]->Str_0 })),
        decreases n - i,
    {
        match &xs[i] {
            JsonValue::Str(s) => match Uuid::parse(s.as_str()) {
                Some(_) => out.push(Uuid { text: s.clone() }),
                None => {
                    return None;
                },
            },
            _ => {
                return None;
            },
        }
        i = i + 1;
    }
    proof {
        assert(out@ =~= Seq::new(xs@.len(), |i: int| Uuid { text: xs@[i]->Str_0 }));
    }
    Some(out)
}

/// How a list of deletion reasons decodes: every element must be a
/// known reason string.
pub open spec fn spec_decode_reasons(xs: Seq<JsonValue>) -> Option<Seq<DeleteNotAllowedReason>> {
    if forall|i: int|
        0 <= i < xs.len() ==> ((#[trigger] xs[i]) matches JsonValue::Str(s)
            && DeleteNotAllowedReason::spec_from_wire(s@) is Some) {
        Some(Seq::new(xs.len(), |i: int| DeleteNotAllowedReason::spec_from_wire(xs[i]->Str_0@)->0))
    } else {
        None
    }
}

pub fn decode_reasons(xs: &Vec<JsonValue>) -> (r: Option<Vec<DeleteNotAllowedReason>>)
    ensures
        match r {
            Some(out) => spec_decode_reasons(xs@) == Some(out@),
            None => spec_decode_reasons(xs@) is None,
        },
{
    let mut out: Vec<DeleteNotAllowedReason> = Vec::new();
    let n = xs.len();
    let mut i: usize = 0;
    while i < n
        invariant
            n == xs@.len(),
            0 <= i <= n,
            out@.len() == i,
            forall|j: int|
                0 <= j < i ==> ((#[trigger] xs@[j]) matches JsonValue::Str(s)
                    && DeleteNotAllowedReason::spec_from_wire(s@) == Some(out@[j])),
        decreases n - i,
    {
        match &xs[i] {
            JsonValue::Str(s) => match DeleteNotAllowedReason::from_wire(s.as_str()) {
                Some(x) => out.push(x),
                None => {
                    return None;
                },
            },
            _ => {
                return None;
            },
        }
        i = i + 1;
    }
    proof {
        assert(out@ =~= Seq::new(
            xs@.len(),
            |i: int| DeleteNotAllowedReason::spec_from_wire(xs@[i]->Str_0@)->0,
        ));
    }
    Some(out)
}

pub open spec fn spec_decode_offer_dto(v: JsonValue) -> Option<OfferDtoView> {
    if !(v is Obj) {
        None
    } else {
        match spec_req_uuid(v, "id"@) {
            None => None,
            Some(id) => match spec_opt_str(v, "name"@) {
                None => None,
                Some(name) => match spec_opt_str(v, "description"@) {
                    None => None,
                    Some(desc) => match spec_field(v, "prices"@) {
                        Some(JsonValue::Arr(xs)) => match spec_decode_prices(xs@) {
                            None => None,
                            Some(prices) => match (match spec_opt_str(v, "recurrent"@) {
                                None => None,
                                Some(None) => Some(None),
                                Some(Some(rc)) => match RecurrentDto::spec_from_wire(rc@) {
                                    Some(x) => Some(Some(x)),
                                    None => None,
                                },
                            }) {
                                None => None,
                                Some(rec) => match (match spec_field(v, "availablePosts"@) {
                                    None => Some(Seq::<Uuid>::empty()),
                                    Some(JsonValue::Arr(ps)) => spec_decode_uuid_list(ps@),
                                    Some(_) => None,
                                }) {
                                    None => None,
                                    Some(posts) => match spec_opt_bool(v, "canBeDeleted"@) {
                                        None => None,
                                        Some(cbd) => match (match spec_field(v, "reasons"@) {
                                            None => Some(Seq::<DeleteNotAllowedReason>::empty()),
                                            Some(JsonValue::Arr(rs)) => spec_decode_reasons(rs@),
                                            Some(_) => None,
                                        }) {
                                            None => None,
                                            Some(reasons) => Some(
                                                OfferDtoView {
                                                    id,
                                                    name,
                                                    description: desc,
                                                    prices,
                                                    recurrent: rec,
                                                    available_posts: posts,
                                                    can_be_deleted: cbd,
                                                    reasons,
                                                },
                                            ),
                                        },
                                    },
                                },
                            },
                        },
                        _ => None,
                    },
                },
            },
        }
    }
}

pub fn decode_offer_dto(v: &JsonValue) -> (r: Option<OfferDto>)
    ensures
        match r {
            Some(o) => spec_decode_offer_dto(*v) == Some(o@),
            None => spec_decode_offer_dto(*v) is None,
        },
{
    match v {
        JsonValue::Obj(_) => {},
        _ => {
            return None;
        },
    }
    let id = match req_uuid(v, "id") {
        Some(x) => x,
        None => {
            return None;
        },
    };
    let name = match opt_str(v, "name") {
        Some(x) => x,
        None => {
            return None;
        },
    };
    let desc = match opt_str(v, "description") {
        Some(x) => x,
        None => {
            return None;
        },
    };
    let prices = match field(v, "prices") {
        Some(JsonValue::Arr(xs)) => match decode_prices(xs) {
            Some(ps) => ps,
            None => {
                return None;
            },
        },
        _ => {
            return None;
        },
    };
    let rec = match opt_str(v, "recurrent") {
        None => {
            return None;
        },
        Some(None) => None,
        Some(Some(rc)) => match RecurrentDto::from_wire(rc.as_str()) {
            Some(x) => Some(x),
            None => {
                return None;
            },
        },
    };
    let posts = match field(v, "availablePosts") {
        None => Vec::new(),
        Some(JsonValue::Arr(ps)) => match decode_uuid_list(ps) {
            Some(u) => u,
            None => {
                return None;
            },
        },
        Some(_) => {
            return None;
        },
    };
    let cbd = match opt_bool(v, "canBeDeleted") {
        Some(x) => x,
        None => {
            return None;
        },
    };
    let reasons = match field(v, "reasons") {
        None => Vec::new(),
        Some(JsonValue::Arr(rs)) => match decode_reasons(rs) {
            Some(u) => u,
            None => {
                return None;
            },
        },
        Some(_) => {
            return None;
        },
    };
    let o = OfferDto {
        id,
        name,
        description: desc,
        prices,
        recurrent: rec,
        available_posts: posts,
        can_be_deleted: cbd,
        reasons,
    };
    Some(o)
}

/// A product as the v1 feed lists it.
#[derive(Debug, Clone, PartialEq, Eq)]
pub struct ProductItemDto {
    pub id: Uuid,
    pub account_id: Option<Uuid>,
    pub title: Option<String>,
    pub updated_at: Option<UtcTimestamp>,
    pub status: Option<Status>,
    pub moderation_status: Option<ModerationStatus>,
    pub product_type: ProductType,
    /// Absent on the wire when the product has no offers.
    pub offers: Vec<OfferDto>,
}

/// The mathematical content of a v1 product.
pub struct ProductItemDtoView {
    pub id: Uuid,
    pub account_id: Option<Uuid>,
    pub title: Option<String>,
    pub updated_at: Option<UtcTimestamp>,
    pub status: Option<Status>,
    pub moderation_status: Option<ModerationStatus>,
    pub product_type: ProductType,
    pub offers: Seq<OfferDtoView>,
}

impl View for ProductItemDto {
    type V = ProductItemDtoView;

    open spec fn view(&self) -> ProductItemDtoView {
        ProductItemDtoView {
            id: self.id,
            account_id: self.account_id,
            title: self.title,
            updated_at: self.updated_at,
            status: self.status,
            moderation_status: self.moderation_status,
            product_type: self.product_type,
            offers: self.offers@.map_values(|o: OfferDto| o@),
        }
    }
}

pub open spec fn spec_decode_offer_dtos(xs: Seq<JsonValue>) -> Option<Seq<OfferDtoView>> {
    if forall|i: int| 0 <= i < xs.len() ==> spec_decode_offer_dto(#[trigger] xs[i]) is Some {
        Some(Seq::new(xs.len(), |i: int| spec_decode_offer_dto(xs[i])->0))
    } else {
        None
    }
}

pub fn decode_offer_dtos(xs: &Vec<JsonValue>) -> (r: Option<Vec<OfferDto>>)
    ensures
        match r {
            Some(out) => spec_decode_offer_dtos(xs@) == Some(out@.map_values(|o: OfferDto| o@)),
            None => spec_decode_offer_dtos(xs@) is None,
        },
{
    let mut out: Vec<OfferDto> = Vec::new();
    let n = xs.len();
    let mut i: usize = 0;
    while i < n
        invariant
            n == xs@.len(),
            0 <= i <= n,
            out@.len() == i,
            forall|j: int|
                0 <= j < i ==> spec_decode_offer_dto(#[trigger] xs@[j]) == Some(out@[j]@),
        decreases n - i,
    {
        match decode_offer_dto(&xs[i]) {
            Some(d) => out.push(d),
            None => {
                return None;
            },
        }
        i = i + 1;
    }
    proof {
        assert(out@.map_values(|o: OfferDto| o@) =~= Seq::new(
            xs@.len(),
            |i: int| spec_decode_offer_dto(xs@[i])->0,
        ));
    }
    Some(out)
}

pub open spec fn spec_decode_product_dto(v: JsonValue) -> Option<ProductItemDtoView> {
    if !(v is Obj) {
        None
    } else {
        match spec_req_uuid(v, "id"@) {
            None => None,
            Some(id) => match spec_opt_uuid(v, "accountId"@) {
                None => None,
                Some(aid) => match spec_opt_str(v, "title"@) {
                    None => None,
                    Some(title) => match spec_opt_ts(v, "updatedAt"@) {
                        None => None,
                        Some(ua) => match (match spec_opt_str(v, "status"@) {
                            None => None,
                            Some(None) => Some(None),
                            Some(Some(st)) => Some(Some(Status::spec_from_wire(st@))),
                        }) {
                            None => None,
                            Some(status) => match (match spec_opt_str(v, "moderationStatus"@) {
                                None => None,
                                Some(None) => Some(None),
                                Some(Some(ms)) => Some(
                                    Some(ModerationStatus::spec_from_wire(ms@)),
                                ),
                            }) {
                                None => None,
                                Some(mstatus) => match spec_req_str(v, "type"@) {
                                    None => None,
                                    Some(ty) => match ProductType::spec_from_wire(ty@) {
                                        None => None,
                                        Some(pt) => match (match spec_field(v, "offers"@) {
                                            None => Some(Seq::<OfferDtoView>::empty()),
                                            Some(JsonValue::Arr(xs)) => spec_decode_offer_dtos(
                                                xs@,
                                            ),
                                            Some(_) => None,
                                        }) {
                                            None => None,
                                            Some(offers) => Some(
                                                ProductItemDtoView {
                                                    id,
                                                    account_id: aid,
                                                    title,
                                                    updated_at: ua,
                                                    status,
                                                    moderation_status: mstatus,
                                                    product_type: pt,
                                                    offers,
                                                },
                                            ),
                                        },
                                    },
                                },
                            },
                        },
                    },
                },
            },
        }
    }
}

pub fn decode_product_dto(v: &JsonValue) -> (r: Option<ProductItemDto>)
    ensures
        match r {
            Some(p) => spec_decode_product_dto(*v) == Some(p@),
            None => spec_decode_product_dto(*v) is None,
        },
{
    match v {
        JsonValue::Obj(_) => {},
        _ => {
            return None;
        },
    }
    let id = match req_uuid(v, "id") {
        Some(x) => x,
        None => {
            return None;
        },
    };
    let aid = match opt_uuid(v, "accountId") {
        Some(x) => x,
        None => {
            return None;
        },
    };
    let title = match opt_str(v, "title") {
        Some(x) => x,
        None => {
            return None;
        },
    };
    let ua = match opt_ts(v, "updatedAt") {
        Some(x) => x,
        None => {
            return None;
        },
    };
    let status = match opt_str(v, "status") {
        None => {
            return None;
        },
        Some(None) => None,
        Some(Some(st)) => Some(Status::from_wire(st.as_str())),
    };
    let mstatus = match opt_str(v, "moderationStatus") {
        None => {
            return None;
        },
        Some(None) => None,
        Some(Some(ms)) => Some(ModerationStatus::from_wire(ms.as_str())),
    };
    let ty = match req_str(v, "type") {
        Some(x) => x,
        None => {
            return None;
        },
    };
    let pt = match ProductType::from_wire(ty.as_str()) {
        Some(x) => x,
        None => {
            return None;
        },
    };
    let offers = match field(v, "offers") {
        None => Vec::new(),
        Some(JsonValue::Arr(xs)) => match decode_offer_dtos(xs) {
            Some(os) => os,
            None => {
                return None;
            },
        },
        Some(_) => {
            return None;
        },
    };
    let p = ProductItemDto {
        id,
        account_id: aid,
        title,
        updated_at: ua,
        status,
        moderation_status: mstatus,
        product_type: pt,
        offers,
    };
    proof {
        assert(Seq::<OfferDto>::empty().map_values(|o: OfferDto| o@)
            =~= Seq::<OfferDtoView>::empty());
    }
    Some(p)
}

/// One v1 feed entry: its kind, and its product payload when present.
#[derive(Debug, Clone, PartialEq, Eq)]
pub struct FeedItem {
    pub item_type: FeedItemType,
    pub data: Option<ProductItemDto>,
}

/// The mathematical content of one v1 feed entry.
pub struct FeedItemView {
    pub item_type: FeedItemType,
    pub data: Option<ProductItemDtoView>,
}

impl View for FeedItem {
    type V = FeedItemView;

    open spec fn view(&self) -> FeedItemView {
        FeedItemView {
            item_type: self.item_type,
            data: match self.data {
                Some(p) => Some(p@),
                None => None,
            },
        }
    }
}

pub open spec fn spec_decode_feed_item(v: JsonValue) -> Option<FeedItemView> {
    if !(v is Obj) {
        None
    } else {
        match spec_req_str(v, "type"@) {
            None => None,
            Some(ty) => match FeedItemType::spec_from_wire(ty@) {
                None => None,
                Some(it) => match (match spec_field(v, "data"@) {
                    None => Some(None),
                    Some(JsonValue::Null) => Some(None),
                    Some(x) => match spec_decode_product_dto(x) {
                        Some(p) => Some(Some(p)),
                        None => None,
                    },
                }) {
                    None => None,
                    Some(data) => Some(FeedItemView { item_type: it, data }),
                },
            },
        }
    }
}

pub fn decode_feed_item(v: &JsonValue) -> (r: Option<FeedItem>)
    ensures
        match r {
            Some(x) => spec_decode_feed_item(*v) == Some(x@),
            None => spec_decode_feed_item(*v) is None,
        },
{
    match v {
        JsonValue::Obj(_) => {},
        _ => {
            return None;
        },
    }
    let ty = match req_str(v, "type") {
        Some(x) => x,
        None => {
            return None;
        },
    };
    let it = match FeedItemType::from_wire(ty.as_str()) {
        Some(x) => x,
        None => {
            return None;
        },
    };
    let data = match field(v, "data") {
        None => None,
        Some(JsonValue::Null) => None,
        Some(x) => match decode_product_dto(x) {
            Some(p) => Some(p),
            None => {
                return None;
            },
        },
    };
    Some(FeedItem { item_type: it, data })
}

/// The v1 feed page: entries and optional offset-paging counters.
#[derive(Debug, PartialEq, Eq)]
pub struct FeedPageResponse {
    pub items: Vec<FeedItem>,
    pub page: Option<i64>,
    pub size: Option<i64>,
    pub total: Option<i64>,
}

pub open spec fn spec_decode_v1_feed_items(xs: Seq<JsonValue>) -> Option<Seq<FeedItemView>> {
    if forall|i: int| 0 <= i < xs.len() ==> spec_decode_feed_item(#[trigger] xs[i]) is Some {
        Some(Seq::new(xs.len(), |i: int| spec_decode_feed_item(xs[i])->0))
    } else {
        None
    }
}

pub open spec fn spec_decode_feed_page(v: JsonValue) -> Option<
    (Seq<FeedItemView>, Option<i64>, Option<i64>, Option<i64>),
> {
    if !(v is Obj) {
        None
    } else {
        match spec_field(v, "items"@) {
            Some(JsonValue::Arr(xs)) => match spec_decode_v1_feed_items(xs@) {
                None => None,
                Some(items) => match spec_opt_i64(v, "page"@) {
                    None => None,
                    Some(page) => match spec_opt_i64(v, "size"@) {
                        None => None,
                        Some(size) => match spec_opt_i64(v, "total"@) {
                            None => None,
                            Some(total) => Some((items, page, size, total)),
                        },
                    },
                },
            },
            _ => None,
        }
    }
}

/// Decodes a v1 feed page.
pub fn decode_feed_page(v: &JsonValue) -> (r: Option<FeedPageResponse>)
    ensures
        match r {
            Some(p) => spec_decode_feed_page(*v) == Some(
                (p.items@.map_values(|x: FeedItem| x@), p.page, p.size, p.total),
            ),
            None => spec_decode_feed_page(*v) is None,
        },
{
    match v {
        JsonValue::Obj(_) => {},
        _ => {
            return None;
        },
    }
    let items = match field(v, "items") {
        Some(JsonValue::Arr(xs)) => {
            let mut out: Vec<FeedItem> = Vec::new();
            let n = xs.len();
            let mut i: usize = 0;
            while i < n
                invariant
                    *v is Obj,
                    spec_field(*v, "items"@) == Some(JsonValue::Arr(*xs)),
                    n == xs@.len(),
                    0 <= i <= n,
                    out@.len() == i,
                    forall|j: int|
                        0 <= j < i ==> spec_decode_feed_item(#[trigger] xs@[j]) == Some(
                            out@[j]@,
                        ),
                decreases n - i,
            {
                match decode_feed_item(&xs[i]) {
                    Some(d) => out.push(d),
                    None => {
                        return None;
                    },
                }
                i = i + 1;
            }
            proof {
                assert(out@.map_values(|x: FeedItem| x@) =~= Seq::new(
                    xs@.len(),
                    |i: int| spec_decode_feed_item(xs@[i])->0,
                ));
            }
            out
        },
        _ => {
            return None;
        },
    };
    let page = match opt_i64(v, "page") {
        Some(x) => x,
        None => {
            return None;
        },
    };
    let size = match opt_i64(v, "size") {
        Some(x) => x,
        None => {
            return None;
        },
    };
    let total = match opt_i64(v, "total") {
        Some(x) => x,
        None => {
            return None;
        },
    };
    Some(FeedPageResponse { items, page, size, total })
}

// --- Query parameters ---

/// Filters for the v1 feed. Every field is optional, and an unset
/// field contributes nothing to the query string.
#[derive(Debug, Clone, PartialEq, Eq)]
pub struct GetFeedParams {
    pub content_categories: Option<FeedItemType>,
    pub product_types: Option<ProductType>,
    pub page: Option<i64>,
    pub size: Option<i64>,
}

impl core::default::Default for GetFeedParams {
    fn default() -> (r: Self)
        ensures
            r == (GetFeedParams {
                content_categories: None,
                product_types: None,
                page: None,
                size: None,
            }),
    {
        GetFeedParams { content_categories: None, product_types: None, page: None, size: None }
    }
}

impl GetFeedParams {
    /// The query entries the filters serialize to, under their wire
    /// names, in declaration order.
    pub open spec fn spec_query_entries(self) -> Seq<(Seq<char>, Seq<char>)> {
        (if self.content_categories is Some {
            seq![("contentCategories"@, self.content_categories->0.spec_wire_name())]
        } else {
            seq![]
        }) + (if self.product_types is Some {
            seq![("productTypes"@, self.product_types->0.spec_wire_name())]
        } else {
            seq![]
        }) + (if self.page is Some {
            seq![("page"@, spec_i64_dec(self.page->0 as int))]
        } else {
            seq![]
        }) + (if self.size is Some {
            seq![("size"@, spec_i64_dec(self.size->0 as int))]
        } else {
            seq![]
        })
    }

    /// Serializes the filters into query pairs; nothing here can fail.
    pub fn to_query_pairs(&self) -> (r: Vec<(String, String)>)
        ensures
            spec_pairs_match(r@, self.spec_query_entries()),
    {
        let mut ps: Vec<(String, String)> = Vec::new();
        let ghost mut es: Seq<(Seq<char>, Seq<char>)> = Seq::empty();
        assert(spec_pairs_match(ps@, es));
        if let Some(x) = &self.content_categories {
            let p = ("contentCategories".to_owned(), x.wire_name());
            proof {
                lemma_pairs_match_push(ps@, es, p, ("contentCategories"@, x.spec_wire_name()));
                es = es.push(("contentCategories"@, x.spec_wire_name()));
            }
            ps.push(p);
        }
        if let Some(x) = &self.product_types {
            let p = ("productTypes".to_owned(), x.wire_name());
            proof {
                lemma_pairs_match_push(ps@, es, p, ("productTypes"@, x.spec_wire_name()));
                es = es.push(("productTypes"@, x.spec_wire_name()));
            }
            ps.push(p);
        }
        if let Some(x) = &self.page {
            let p = ("page".to_owned(), i64_to_string(*x));
            proof {
                lemma_pairs_match_push(ps@, es, p, ("page"@, spec_i64_dec(*x as int)));
                es = es.push(("page"@, spec_i64_dec(*x as int)));
            }
            ps.push(p);
        }
        if let Some(x) = &self.size {
            let p = ("size".to_owned(), i64_to_string(*x));
            proof {
                lemma_pairs_match_push(ps@, es, p, ("size"@, spec_i64_dec(*x as int)));
                es = es.push(("size"@, spec_i64_dec(*x as int)));
            }
            ps.push(p);
        }
        proof {
            assert(es =~= self.spec_query_entries());
        }
        ps
    }
}

/// An unset filter contributes nothing: its key never occurs among
/// the serialized query entries.
#[verifier::rlimit(100)]
pub proof fn lemma_get_feed_omits_unset(p: GetFeedParams)
    ensures
        p.content_categories is None ==> !spec_entries_have_key(p.spec_query_entries(), "contentCategories"@),
        p.product_types is None ==> !spec_entries_have_key(p.spec_query_entries(), "productTypes"@),
        p.page is None ==> !spec_entries_have_key(p.spec_query_entries(), "page"@),
        p.size is None ==> !spec_entries_have_key(p.spec_query_entries(), "size"@),
{
    reveal_strlit("contentCategories");
    reveal_strlit("productTypes");
    reveal_strlit("page");
    reveal_strlit("size");
    assert("contentCategories"@.len() == 17);
    assert("productTypes"@.len() == 12);
    assert("page"@.len() == 4);
    assert("size"@.len() == 4);
    assert("page"@[0] != "size"@[0]);
    let es = p.spec_query_entries();
    if p.content_categories is None {
        assert forall|j: int| 0 <= j < es.len() implies (#[trigger] es[j]).0 != "contentCategories"@ by {
            assert(es[j].0 == "productTypes"@ || es[j].0 == "page"@ || es[j].0 == "size"@);
        }
        lemma_no_entry_key(es, "contentCategories"@);
    }
    if p.product_types is None {
        assert forall|j: int| 0 <= j < es.len() implies (#[trigger] es[j]).0 != "productTypes"@ by {
            assert(es[j].0 == "contentCategories"@ || es[j].0 == "page"@ || es[j].0 == "size"@);
        }
        lemma_no_entry_key(es, "productTypes"@);
    }
    if p.page is None {
        assert forall|j: int| 0 <= j < es.len() implies (#[trigger] es[j]).0 != "page"@ by {
            assert(es[j].0 == "contentCategories"@ || es[j].0 == "productTypes"@ || es[j].0 == "size"@);
        }
        lemma_no_entry_key(es, "page"@);
    }
    if p.size is None {
        assert forall|j: int| 0 <= j < es.len() implies (#[trigger] es[j]).0 != "size"@ by {
            assert(es[j].0 == "contentCategories"@ || es[j].0 == "productTypes"@ || es[j].0 == "page"@);
        }
        lemma_no_entry_key(es, "size"@);
    }
}

} // verus!

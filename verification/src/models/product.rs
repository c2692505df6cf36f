//! Products: the update request bodies, the v2 product and post shapes,
//! the untagged feed entry, and the list-query parameters.

use vstd::prelude::*;
use crate::json::{
    JsonValue, JsonModel, WireNumber, spec_field, field, spec_req_str, req_str, spec_opt_str,
    opt_str, spec_req_num, req_num, spec_opt_bool, opt_bool, spec_json_matches, spec_num_model,
    num_to_json, spec_entries_match, lemma_entries_match_push,
};
use crate::models::common::{
    CurrencyDto, Periodicity, FeedItemType, ProductType, PostType, FeedVisibility, PriceDto,
    PagedResponseV2, Uuid, spec_req_uuid, req_uuid, spec_opt_ts, opt_ts, spec_opt_url, opt_url,
    spec_decode_price, decode_price,
};
use crate::date::{UtcTimestamp, spec_rfc3339_chars, encode_rfc3339};
use crate::error::LavaTopError;
use crate::strutil::{spec_bool_str, bool_to_string, str_eq};
use crate::http::{spec_pairs_match, lemma_pairs_match_push, spec_entries_have_key, lemma_no_entry_key};

verus! {

// --- Update requests ---

/// A new price for an offer.
#[derive(Debug, Clone, PartialEq, Eq)]
pub struct UpdatePriceRequest {
    pub amount: WireNumber,
    pub currency: CurrencyDto,
}

pub open spec fn spec_update_price_model(p: UpdatePriceRequest) -> JsonModel {
    JsonModel::Obj(
        seq![
            ("amount"@, spec_num_model(p.amount)),
            ("currency"@, JsonModel::Str(p.currency.spec_wire_name())),
        ],
    )
}

/// Encodes one new price.
pub fn encode_update_price(p: &UpdatePriceRequest) -> (r: JsonValue)
    ensures
        spec_json_matches(r, spec_update_price_model(*p)),
{
    let mut pairs: Vec<(String, JsonValue)> = Vec::new();
    let ghost mut es: Seq<(Seq<char>, JsonModel)> = Seq::empty();
    assert(spec_entries_match(pairs@, es));
    let q = ("amount".to_owned(), num_to_json(&p.amount));
    proof {
        lemma_entries_match_push(pairs@, es, q, ("amount"@, spec_num_model(p.amount)));
        es = es.push(("amount"@, spec_num_model(p.amount)));
    }
    pairs.push(q);
    let q = ("currency".to_owned(), JsonValue::Str(p.currency.wire_name()));
    proof {
        lemma_entries_match_push(
            pairs@,
            es,
            q,
            ("currency"@, JsonModel::Str(p.currency.spec_wire_name())),
        );
        es = es.push(("currency"@, JsonModel::Str(p.currency.spec_wire_name())));
    }
    pairs.push(q);
    proof {
        assert(es =~= seq![
            ("amount"@, spec_num_model(p.amount)),
            ("currency"@, JsonModel::Str(p.currency.spec_wire_name())),
        ]);
    }
    JsonValue::Obj(pairs)
}

/// Changes to one offer; unset fields are omitted from the body.
#[derive(Debug, Clone, PartialEq, Eq)]
pub struct UpdateOfferRequest {
    pub id: Uuid,
    pub prices: Option<Vec<UpdatePriceRequest>>,
    pub name: Option<String>,
    pub description: Option<String>,
}

pub open spec fn spec_update_offer_entries(o: UpdateOfferRequest) -> Seq<(Seq<char>, JsonModel)> {
    seq![("id"@, JsonModel::Str(o.id.text@))] + (match o.prices {
        Some(ps) => seq![
            ("prices"@, JsonModel::Arr(ps@.map_values(|p: UpdatePriceRequest| spec_update_price_model(p)))),
        ],
        None => seq![],
    }) + (if o.name is Some {
        seq![("name"@, JsonModel::Str(o.name->0@))]
    } else {
        seq![]
    }) + (if o.description is Some {
        seq![("description"@, JsonModel::Str(o.description->0@))]
    } else {
        seq![]
    })
}

pub open spec fn spec_update_offer_model(o: UpdateOfferRequest) -> JsonModel {
    JsonModel::Obj(spec_update_offer_entries(o))
}

/// Encodes the changes to one offer.
pub fn encode_update_offer(o: &UpdateOfferRequest) -> (r: JsonValue)
    ensures
        spec_json_matches(r, spec_update_offer_model(*o)),
{
    let mut pairs: Vec<(String, JsonValue)> = Vec::new();
    let ghost mut es: Seq<(Seq<char>, JsonModel)> = Seq::empty();
    assert(spec_entries_match(pairs@, es));
    let q = ("id".to_owned(), JsonValue::Str(o.id.text.clone()));
    proof {
        lemma_entries_match_push(pairs@, es, q, ("id"@, JsonModel::Str(o.id.text@)));
        es = es.push(("id"@, JsonModel::Str(o.id.text@)));
    }
    pairs.push(q);
    if let Some(ps) = &o.prices {
        let mut items: Vec<JsonValue> = Vec::new();
        let ghost models = ps@.map_values(|p: UpdatePriceRequest| spec_update_price_model(p));
        let n = ps.len();
        let mut i: usize = 0;
        while i < n
            invariant
                n == ps@.len(),
                0 <= i <= n,
                models == ps@.map_values(|p: UpdatePriceRequest| spec_update_price_model(p)),
                items@.len() == i,
                forall|j: int|
                    0 <= j < i ==> spec_json_matches(#[trigger] items@[j], models[j]),
            decreases n - i,
        {
            items.push(encode_update_price(&ps[i]));
            i = i + 1;
        }
        let q = ("prices".to_owned(), JsonValue::Arr(items));
        proof {
            assert(spec_json_matches(q.1, JsonModel::Arr(models)));
            lemma_entries_match_push(pairs@, es, q, ("prices"@, JsonModel::Arr(models)));
            es = es.push(("prices"@, JsonModel::Arr(models)));
        }
        pairs.push(q);
    }
    if let Some(x) = &o.name {
        let q = ("name".to_owned(), JsonValue::Str(x.clone()));
        proof {
            lemma_entries_match_push(pairs@, es, q, ("name"@, JsonModel::Str(x@)));
            es = es.push(("name"@, JsonModel::Str(x@)));
        }
        pairs.push(q);
    }
    if let Some(x) = &o.description {
        let q = ("description".to_owned(), JsonValue::Str(x.clone()));
        proof {
            lemma_entries_match_push(pairs@, es, q, ("description"@, JsonModel::Str(x@)));
            es = es.push(("description"@, JsonModel::Str(x@)));
        }
        pairs.push(q);
    }
    proof {
        assert(es =~= spec_update_offer_entries(*o));
    }
    JsonValue::Obj(pairs)
}

/// A product update: the offers to change, omitted entirely when unset.
#[derive(Debug, Clone, PartialEq, Eq)]
pub struct ProductUpdateRequest {
    pub offers: Option<Vec<UpdateOfferRequest>>,
}

pub open spec fn spec_product_update_entries(r: ProductUpdateRequest) -> Seq<
    (Seq<char>, JsonModel),
> {
    match r.offers {
        Some(os) => seq![
            ("offers"@, JsonModel::Arr(os@.map_values(|o: UpdateOfferRequest| spec_update_offer_model(o)))),
        ],
        None => seq![],
    }
}

/// Encodes a product update as its JSON body.
pub fn encode_product_update(r: &ProductUpdateRequest) -> (v: JsonValue)
    ensures
        spec_json_matches(v, JsonModel::Obj(spec_product_update_entries(*r))),
{
    let mut pairs: Vec<(String, JsonValue)> = Vec::new();
    let ghost mut es: Seq<(Seq<char>, JsonModel)> = Seq::empty();
    assert(spec_entries_match(pairs@, es));
    if let Some(os) = &r.offers {
        let mut items: Vec<JsonValue> = Vec::new();
        let ghost models = os@.map_values(|o: UpdateOfferRequest| spec_update_offer_model(o));
        let n = os.len();
        let mut i: usize = 0;
        while i < n
            invariant
                n == os@.len(),
                0 <= i <= n,
                models == os@.map_values(|o: UpdateOfferRequest| spec_update_offer_model(o)),
                items@.len() == i,
                forall|j: int|
                    0 <= j < i ==> spec_json_matches(#[trigger] items@[j], models[j]),
            decreases n - i,
        {
            items.push(encode_update_offer(&os[i]));
            i = i + 1;
        }
        let q = ("offers".to_owned(), JsonValue::Arr(items));
        proof {
            assert(spec_json_matches(q.1, JsonModel::Arr(models)));
            lemma_entries_match_push(pairs@, es, q, ("offers"@, JsonModel::Arr(models)));
            es = es.push(("offers"@, JsonModel::Arr(models)));
        }
        pairs.push(q);
    }
    proof {
        assert(es =~= spec_product_update_entries(*r));
    }
    JsonValue::Obj(pairs)
}

// --- Response shapes ---

/// The superseded repeat-payment marker.
#[derive(Debug, Clone, Copy, PartialEq, Eq, Hash, Structural)]
pub enum RecurrentDto {
    Monthly,
}

impl RecurrentDto {
    pub open spec fn spec_wire_name(self) -> Seq<char> {
        "monthly"@
    }

    pub fn wire_name(&self) -> (r: String)
        ensures
            r@ == self.spec_wire_name(),
    {
        "monthly".to_owned()
    }

    /// The variant a wire string denotes; an unrecognized string is
    /// rejected, this vocabulary being closed.
    pub open spec fn spec_from_wire(s: Seq<char>) -> Option<RecurrentDto> {
        if s == "monthly"@ {
            Some(RecurrentDto::Monthly)
        } else {
            None
        }
    }

    pub fn from_wire(s: &str) -> (r: Option<RecurrentDto>)
        ensures
            r == RecurrentDto::spec_from_wire(s@),
    {
        if str_eq(s, "monthly") {
            Some(RecurrentDto::Monthly)
        } else {
            None
        }
    }
}

/// A purchasable offer of a product.
#[derive(Debug, Clone, PartialEq, Eq)]
pub struct OfferResponse {
    pub id: Uuid,
    pub name: Option<String>,
    pub description: Option<String>,
    pub prices: Vec<PriceDto>,
    pub recurrent: Option<RecurrentDto>,
}

/// The mathematical content of an offer: the same fields with the price
/// list as a sequence.
pub struct OfferResponseView {
    pub id: Uuid,
    pub name: Option<String>,
    pub description: Option<String>,
    pub prices: Seq<PriceDto>,
    pub recurrent: Option<RecurrentDto>,
}

impl View for OfferResponse {
    type V = OfferResponseView;

    open spec fn view(&self) -> OfferResponseView {
        OfferResponseView {
            id: self.id,
            name: self.name,
            description: self.description,
            prices: self.prices@,
            recurrent: self.recurrent,
        }
    }
}

/// How a list of prices decodes: every element must decode.
pub open spec fn spec_decode_prices(xs: Seq<JsonValue>) -> Option<Seq<PriceDto>> {
    if forall|i: int| 0 <= i < xs.len() ==> spec_decode_price(#[trigger] xs[i]) is Some {
        Some(Seq::new(xs.len(), |i: int| spec_decode_price(xs[i])->0))
    } else {
        None
    }
}

pub fn decode_prices(xs: &Vec<JsonValue>) -> (r: Option<Vec<PriceDto>>)
    ensures
        match r {
            Some(out) => spec_decode_prices(xs@) == Some(out@),
            None => spec_decode_prices(xs@) is None,
        },
{
    let mut out: Vec<PriceDto> = Vec::new();
    let n = xs.len();
    let mut i: usize = 0;
    while i < n
        invariant
            n == xs@.len(),
            0 <= i <= n,
            out@.len() == i,
            forall|j: int| 0 <= j < i ==> spec_decode_price(#[trigger] xs@[j]) == Some(out@[j]),
        decreases n - i,
    {
        match decode_price(&xs[i]) {
            Some(d) => out.push(d),
            None => {
                return None;
            },
        }
        i = i + 1;
    }
    proof {
        assert(out@ =~= Seq::new(xs@.len(), |i: int| spec_decode_price(xs@[i])->0));
    }
    Some(out)
}

pub open spec fn spec_decode_offer_response(v: JsonValue) -> Option<OfferResponseView> {
    if !(v is Obj) {
        None
    } else {
        match spec_req_uuid(v, "id"@) {
            None => None,
            Some(id) => match spec_opt_str(v, "name"@) {
                None => None,
                Some(name) => match spec_opt_str(v, "description"@) {
                    None => None,
                    Some(desc) => match spec_field(v, "prices"@) {
                        Some(JsonValue::Arr(xs)) => match spec_decode_prices(xs@) {
                            None => None,
                            Some(prices) => match (match spec_opt_str(v, "recurrent"@) {
                                None => None,
                                Some(None) => Some(None),
                                Some(Some(rc)) => match RecurrentDto::spec_from_wire(rc@) {
                                    Some(x) => Some(Some(x)),
                                    None => None,
                                },
                            }) {
                                None => None,
                                Some(rec) => Some(
                                    OfferResponseView {
                                        id,
                                        name,
                                        description: desc,
                                        prices,
                                        recurrent: rec,
                                    },
                                ),
                            },
                        },
                        _ => None,
                    },
                },
            },
        }
    }
}

pub fn decode_offer_response(v: &JsonValue) -> (r: Option<OfferResponse>)
    ensures
        match r {
            Some(o) => spec_decode_offer_response(*v) == Some(o@),
            None => spec_decode_offer_response(*v) is None,
        },
{
    match v {
        JsonValue::Obj(_) => {},
        _ => {
            return None;
        },
    }
    let id = match req_uuid(v, "id") {
        Some(x) => x,
        None => {
            return None;
        },
    };
    let name = match opt_str(v, "name") {
        Some(x) => x,
        None => {
            return None;
        },
    };
    let desc = match opt_str(v, "description") {
        Some(x) => x,
        None => {
            return None;
        },
    };
    let prices = match field(v, "prices") {
        Some(JsonValue::Arr(xs)) => match decode_prices(xs) {
            Some(ps) => ps,
            None => {
                return None;
            },
        },
        _ => {
            return None;
        },
    };
    let rec = match opt_str(v, "recurrent") {
        None => {
            return None;
        },
        Some(None) => None,
        Some(Some(rc)) => match RecurrentDto::from_wire(rc.as_str()) {
            Some(x) => Some(x),
            None => {
                return None;
            },
        },
    };
    Some(OfferResponse { id, name, description: desc, prices, recurrent: rec })
}

/// A product as listed.
#[derive(Debug, Clone, PartialEq, Eq)]
pub struct ProductItemResponse {
    pub id: Uuid,
    pub title: Option<String>,
    pub description: Option<String>,
    pub product_type: ProductType,
    /// Absent on the wire when the product has no offers.
    pub offers: Vec<OfferResponse>,
}

/// The mathematical content of a listed product.
pub struct ProductItemResponseView {
    pub id: Uuid,
    pub title: Option<String>,
    pub description: Option<String>,
    pub product_type: ProductType,
    pub offers: Seq<OfferResponseView>,
}

impl View for ProductItemResponse {
    type V = ProductItemResponseView;

    open spec fn view(&self) -> ProductItemResponseView {
        ProductItemResponseView {
            id: self.id,
            title: self.title,
            description: self.description,
            product_type: self.product_type,
            offers: self.offers@.map_values(|o: OfferResponse| o@),
        }
    }
}

pub open spec fn spec_decode_offers(xs: Seq<JsonValue>) -> Option<Seq<OfferResponseView>> {
    if forall|i: int| 0 <= i < xs.len() ==> spec_decode_offer_response(#[trigger] xs[i]) is Some {
        Some(Seq::new(xs.len(), |i: int| spec_decode_offer_response(xs[i])->0))
    } else {
        None
    }
}

pub fn decode_offers(xs: &Vec<JsonValue>) -> (r: Option<Vec<OfferResponse>>)
    ensures
        match r {
            Some(out) => spec_decode_offers(xs@) == Some(
                out@.map_values(|o: OfferResponse| o@),
            ),
            None => spec_decode_offers(xs@) is None,
        },
{
    let mut out: Vec<OfferResponse> = Vec::new();
    let n = xs.len();
    let mut i: usize = 0;
    while i < n
        invariant
            n == xs@.len(),
            0 <= i <= n,
            out@.len() == i,
            forall|j: int|
                0 <= j < i ==> spec_decode_offer_response(#[trigger] xs@[j]) == Some(out@[j]@),
        decreases n - i,
    {
        match decode_offer_response(&xs[i]) {
            Some(d) => out.push(d),
            None => {
                return None;
            },
        }
        i = i + 1;
    }
    proof {
        assert(out@.map_values(|o: OfferResponse| o@) =~= Seq::new(
            xs@.len(),
            |i: int| spec_decode_offer_response(xs@[i])->0,
        ));
    }
    Some(out)
}

pub open spec fn spec_decode_product_item(v: JsonValue) -> Option<ProductItemResponseView> {
    if !(v is Obj) {
        None
    } else {
        match spec_req_uuid(v, "id"@) {
            None => None,
            Some(id) => match spec_opt_str(v, "title"@) {
                None => None,
                Some(title) => match spec_opt_str(v, "description"@) {
                    None => None,
                    Some(desc) => match spec_req_str(v, "type"@) {
                        None => None,
                        Some(ty) => match ProductType::spec_from_wire(ty@) {
                            None => None,
                            Some(pt) => match spec_field(v, "offers"@) {
                                None => Some(
                                    ProductItemResponseView {
                                        id,
                                        title,
                                        description: desc,
                                        product_type: pt,
                                        offers: Seq::empty(),
                                    },
                                ),
                                Some(JsonValue::Arr(xs)) => match spec_decode_offers(xs@) {
                                    None => None,
                                    Some(offers) => Some(
                                        ProductItemResponseView {
                                            id,
                                            title,
                                            description: desc,
                                            product_type: pt,
                                            offers,
                                        },
                                    ),
                                },
                                Some(_) => None,
                            },
                        },
                    },
                },
            },
        }
    }
}

pub fn decode_product_item(v: &JsonValue) -> (r: Option<ProductItemResponse>)
    ensures
        match r {
            Some(p) => spec_decode_product_item(*v) == Some(p@),
            None => spec_decode_product_item(*v) is None,
        },
{
    match v {
        JsonValue::Obj(_) => {},
        _ => {
            return None;
        },
    }
    let id = match req_uuid(v, "id") {
        Some(x) => x,
        None => {
            return None;
        },
    };
    let title = match opt_str(v, "title") {
        Some(x) => x,
        None => {
            return None;
        },
    };
    let desc = match opt_str(v, "description") {
        Some(x) => x,
        None => {
            return None;
        },
    };
    let ty = match req_str(v, "type") {
        Some(x) => x,
        None => {
            return None;
        },
    };
    let pt = match ProductType::from_wire(ty.as_str()) {
        Some(x) => x,
        None => {
            return None;
        },
    };
    let offers = match field(v, "offers") {
        None => Vec::new(),
        Some(JsonValue::Arr(xs)) => match decode_offers(xs) {
            Some(os) => os,
            None => {
                return None;
            },
        },
        Some(_) => {
            return None;
        },
    };
    let p = ProductItemResponse { id, title, description: desc, product_type: pt, offers };
    proof {
        assert(Seq::<OfferResponse>::empty().map_values(|o: OfferResponse| o@)
            =~= Seq::<OfferResponseView>::empty());
    }
    Some(p)
}

/// A post as listed.
#[derive(Debug, Clone, PartialEq, Eq)]
pub struct PostItemResponse {
    pub id: Uuid,
    pub title: Option<String>,
    pub description: Option<String>,
    pub body: Option<String>,
    pub post_type: PostType,
    pub created_at: Option<UtcTimestamp>,
    pub updated_at: Option<UtcTimestamp>,
    pub published_at: Option<UtcTimestamp>,
}

pub open spec fn spec_decode_post_item(v: JsonValue) -> Option<PostItemResponse> {
    if !(v is Obj) {
        None
    } else {
        match spec_req_uuid(v, "id"@) {
            None => None,
            Some(id) => match spec_opt_str(v, "title"@) {
                None => None,
                Some(title) => match spec_opt_str(v, "description"@) {
                    None => None,
                    Some(desc) => match spec_opt_str(v, "body"@) {
                        None => None,
                        Some(body) => match spec_req_str(v, "type"@) {
                            None => None,
                            Some(ty) => match PostType::spec_from_wire(ty@) {
                                None => None,
                                Some(pt) => match spec_opt_ts(v, "createdAt"@) {
                                    None => None,
                                    Some(ca) => match spec_opt_ts(v, "updatedAt"@) {
                                        None => None,
                                        Some(ua) => match spec_opt_ts(v, "publishedAt"@) {
                                            None => None,
                                            Some(pa) => Some(
                                                PostItemResponse {
                                                    id,
                                                    title,
                                                    description: desc,
                                                    body,
                                                    post_type: pt,
                                                    created_at: ca,
                                                    updated_at: ua,
                                                    published_at: pa,
                                                },
                                            ),
                                        },
                                    },
                                },
                            },
                        },
                    },
                },
            },
        }
    }
}

pub fn decode_post_item(v: &JsonValue) -> (r: Option<PostItemResponse>)
    ensures
        r == spec_decode_post_item(*v),
{
    match v {
        JsonValue::Obj(_) => {},
        _ => {
            return None;
        },
    }
    let id = match req_uuid(v, "id") {
        Some(x) => x,
        None => {
            return None;
        },
    };
    let title = match opt_str(v, "title") {
        Some(x) => x,
        None => {
            return None;
        },
    };
    let desc = match opt_str(v, "description") {
        Some(x) => x,
        None => {
            return None;
        },
    };
    let body = match opt_str(v, "body") {
        Some(x) => x,
        None => {
            return None;
        },
    };
    let ty = match req_str(v, "type") {
        Some(x) => x,
        None => {
            return None;
        },
    };
    let pt = match PostType::from_wire(ty.as_str()) {
        Some(x) => x,
        None => {
            return None;
        },
    };
    let ca = match opt_ts(v, "createdAt") {
        Some(x) => x,
        None => {
            return None;
        },
    };
    let ua = match opt_ts(v, "updatedAt") {
        Some(x) => x,
        None => {
            return None;
        },
    };
    let pa = match opt_ts(v, "publishedAt") {
        Some(x) => x,
        None => {
            return None;
        },
    };
    Some(
        PostItemResponse {
            id,
            title,
            description: desc,
            body,
            post_type: pt,
            created_at: ca,
            updated_at: ua,
            published_at: pa,
        },
    )
}

/// A feed entry's payload: a product or a post. The wire gives no tag,
/// so decoding tries the product shape first and the post shape second,
/// in that fixed order.
#[derive(Debug, Clone, PartialEq, Eq)]
pub enum FeedData {
    Product(ProductItemResponse),
    Post(PostItemResponse),
}

/// The mathematical content of a feed entry's payload.
pub enum FeedDataView {
    Product(ProductItemResponseView),
    Post(PostItemResponse),
}

impl View for FeedData {
    type V = FeedDataView;

    open spec fn view(&self) -> FeedDataView {
        match self {
            FeedData::Product(p) => FeedDataView::Product(p@),
            FeedData::Post(p) => FeedDataView::Post(*p),
        }
    }
}

pub open spec fn spec_decode_feed_data(v: JsonValue) -> Option<FeedDataView> {
    match spec_decode_product_item(v) {
        Some(p) => Some(FeedDataView::Product(p)),
        None => match spec_decode_post_item(v) {
            Some(p) => Some(FeedDataView::Post(p)),
            None => None,
        },
    }
}

/// Decodes a feed payload, trying the product shape before the post
/// shape.
pub fn decode_feed_data(v: &JsonValue) -> (r: Option<FeedData>)
    ensures
        match r {
            Some(d) => spec_decode_feed_data(*v) == Some(d@),
            None => spec_decode_feed_data(*v) is None,
        },
{
    match decode_product_item(v) {
        Some(p) => Some(FeedData::Product(p)),
        None => match decode_post_item(v) {
            Some(p) => Some(FeedData::Post(p)),
            None => None,
        },
    }
}

/// One feed entry: its kind and its payload.
#[derive(Debug, Clone, PartialEq, Eq)]
pub struct FeedItemCombined {
    pub item_type: FeedItemType,
    pub data: FeedData,
}

/// The mathematical content of one feed entry.
pub struct FeedItemCombinedView {
    pub item_type: FeedItemType,
    pub data: FeedDataView,
}

impl View for FeedItemCombined {
    type V = FeedItemCombinedView;

    open spec fn view(&self) -> FeedItemCombinedView {
        FeedItemCombinedView { item_type: self.item_type, data: self.data@ }
    }
}

pub open spec fn spec_decode_feed_item_combined(v: JsonValue) -> Option<FeedItemCombinedView> {
    if !(v is Obj) {
        None
    } else {
        match spec_req_str(v, "type"@) {
            None => None,
            Some(ty) => match FeedItemType::spec_from_wire(ty@) {
                None => None,
                Some(it) => match spec_field(v, "data"@) {
                    None => None,
                    Some(d) => match spec_decode_feed_data(d) {
                        None => None,
                        Some(data) => Some(FeedItemCombinedView { item_type: it, data }),
                    },
                },
            },
        }
    }
}

pub fn decode_feed_item_combined(v: &JsonValue) -> (r: Option<FeedItemCombined>)
    ensures
        match r {
            Some(x) => spec_decode_feed_item_combined(*v) == Some(x@),
            None => spec_decode_feed_item_combined(*v) is None,
        },
{
    match v {
        JsonValue::Obj(_) => {},
        _ => {
            return None;
        },
    }
    let ty = match req_str(v, "type") {
        Some(x) => x,
        None => {
            return None;
        },
    };
    let it = match FeedItemType::from_wire(ty.as_str()) {
        Some(x) => x,
        None => {
            return None;
        },
    };
    let d = match field(v, "data") {
        Some(x) => x,
        None => {
            return None;
        },
    };
    let data = match decode_feed_data(d) {
        Some(x) => x,
        None => {
            return None;
        },
    };
    Some(FeedItemCombined { item_type: it, data })
}

pub open spec fn spec_decode_feed_items(xs: Seq<JsonValue>) -> Option<Seq<FeedItemCombinedView>> {
    if forall|i: int|
        0 <= i < xs.len() ==> spec_decode_feed_item_combined(#[trigger] xs[i]) is Some {
        Some(Seq::new(xs.len(), |i: int| spec_decode_feed_item_combined(xs[i])->0))
    } else {
        None
    }
}

pub fn decode_feed_items(xs: &Vec<JsonValue>) -> (r: Option<Vec<FeedItemCombined>>)
    ensures
        match r {
            Some(out) => spec_decode_feed_items(xs@) == Some(
                out@.map_values(|x: FeedItemCombined| x@),
            ),
            None => spec_decode_feed_items(xs@) is None,
        },
{
    let mut out: Vec<FeedItemCombined> = Vec::new();
    let n = xs.len();
    let mut i: usize = 0;
    while i < n
        invariant
            n == xs@.len(),
            0 <= i <= n,
            out@.len() == i,
            forall|j: int|
                0 <= j < i ==> spec_decode_feed_item_combined(#[trigger] xs@[j]) == Some(
                    out@[j]@,
                ),
        decreases n - i,
    {
        match decode_feed_item_combined(&xs[i]) {
            Some(d) => out.push(d),
            None => {
                return None;
            },
        }
        i = i + 1;
    }
    proof {
        assert(out@.map_values(|x: FeedItemCombined| x@) =~= Seq::new(
            xs@.len(),
            |i: int| spec_decode_feed_item_combined(xs@[i])->0,
        ));
    }
    Some(out)
}

/// How a v2 product page decodes: the entries, and the `nextPage` URL
/// that is absent exactly when no further page is available.
pub open spec fn spec_decode_products_page(v: JsonValue) -> Option<
    (Seq<FeedItemCombinedView>, Option<String>),
> {
    if !(v is Obj) {
        None
    } else {
        match spec_field(v, "items"@) {
            Some(JsonValue::Arr(xs)) => match spec_decode_feed_items(xs@) {
                None => None,
                Some(items) => match spec_opt_url(v, "nextPage"@) {
                    None => None,
                    Some(np) => Some((items, np)),
                },
            },
            _ => None,
        }
    }
}

/// Decodes a v2 product page.
pub fn decode_products_page(v: &JsonValue) -> (r: Option<PagedResponseV2<FeedItemCombined>>)
    ensures
        match r {
            Some(p) => spec_decode_products_page(*v) == Some(
                (p.items@.map_values(|x: FeedItemCombined| x@), p.next_page),
            ),
            None => spec_decode_products_page(*v) is None,
        },
{
    match v {
        JsonValue::Obj(_) => {},
        _ => {
            return None;
        },
    }
    let items = match field(v, "items") {
        Some(JsonValue::Arr(xs)) => match decode_feed_items(xs) {
            Some(out) => out,
            None => {
                return None;
            },
        },
        _ => {
            return None;
        },
    };
    let np = match opt_url(v, "nextPage") {
        Some(x) => x,
        None => {
            return None;
        },
    };
    Some(PagedResponseV2 { items, next_page: np })
}

// --- List-query parameters ---

/// Filters for listing products. Every field is optional, and an unset
/// field contributes nothing to the query string.
#[derive(Debug, Clone, PartialEq, Eq)]
pub struct ListProductsParams {
    pub before_created_at: Option<UtcTimestamp>,
    pub content_categories: Option<FeedItemType>,
    pub product_types: Option<ProductType>,
    pub feed_visibility: Option<FeedVisibility>,
    pub show_all_subscription_periods: Option<bool>,
}

impl core::default::Default for ListProductsParams {
    fn default() -> (r: Self)
        ensures
            r == (ListProductsParams {
                before_created_at: None,
                content_categories: None,
                product_types: None,
                feed_visibility: None,
                show_all_subscription_periods: None,
            }),
    {
        ListProductsParams {
            before_created_at: None,
            content_categories: None,
            product_types: None,
            feed_visibility: None,
            show_all_subscription_periods: None,
        }
    }
}

impl ListProductsParams {
    /// The date filter denotes a real instant.
    pub open spec fn spec_dates_wf(self) -> bool {
        self.before_created_at matches Some(t) ==> t.wf()
    }

    /// The query entries the filters serialize to, under their wire
    /// names, in declaration order.
    pub open spec fn spec_query_entries(self) -> Seq<(Seq<char>, Seq<char>)> {
        (if self.before_created_at is Some {
            seq![("beforeCreatedAt"@, spec_rfc3339_chars(self.before_created_at->0))]
        } else {
            seq![]
        }) + (if self.content_categories is Some {
            seq![("contentCategories"@, self.content_categories->0.spec_wire_name())]
        } else {
            seq![]
        }) + (if self.product_types is Some {
            seq![("productTypes"@, self.product_types->0.spec_wire_name())]
        } else {
            seq![]
        }) + (if self.feed_visibility is Some {
            seq![("feedVisibility"@, self.feed_visibility->0.spec_wire_name())]
        } else {
            seq![]
        }) + (if self.show_all_subscription_periods is Some {
            seq![
                ("showAllSubscriptionPeriods"@, spec_bool_str(self.show_all_subscription_periods->0)),
            ]
        } else {
            seq![]
        })
    }

    /// Serializes the filters into query pairs; fails with
    /// `InvalidQueryParam` exactly when the date filter denotes no real
    /// instant.
    #[verifier::rlimit(60)]
    pub fn to_query_pairs(&self) -> (r: Result<Vec<(String, String)>, LavaTopError>)
        ensures
            match r {
                Ok(ps) => self.spec_dates_wf() && spec_pairs_match(ps@, self.spec_query_entries()),
                Err(e) => e is InvalidQueryParam && !self.spec_dates_wf(),
            },
    {
        if let Some(t) = &self.before_created_at {
            if !t.check_wf() {
                return Err(
                    LavaTopError::InvalidQueryParam(
                        "the creation-date filter denotes no real instant".to_owned(),
                    ),
                );
            }
        }
        let mut ps: Vec<(String, String)> = Vec::new();
        let ghost mut es: Seq<(Seq<char>, Seq<char>)> = Seq::empty();
        assert(spec_pairs_match(ps@, es));
        if let Some(t) = &self.before_created_at {
            let p = ("beforeCreatedAt".to_owned(), encode_rfc3339(t));
            proof {
                lemma_pairs_match_push(ps@, es, p, ("beforeCreatedAt"@, spec_rfc3339_chars(*t)));
                es = es.push(("beforeCreatedAt"@, spec_rfc3339_chars(*t)));
            }
            ps.push(p);
        }
        if let Some(x) = &self.content_categories {
            let p = ("contentCategories".to_owned(), x.wire_name());
            proof {
                lemma_pairs_match_push(ps@, es, p, ("contentCategories"@, x.spec_wire_name()));
                es = es.push(("contentCategories"@, x.spec_wire_name()));
            }
            ps.push(p);
        }
        if let Some(x) = &self.product_types {
            let p = ("productTypes".to_owned(), x.wire_name());
            proof {
                lemma_pairs_match_push(ps@, es, p, ("productTypes"@, x.spec_wire_name()));
                es = es.push(("productTypes"@, x.spec_wire_name()));
            }
            ps.push(p);
        }
        if let Some(x) = &self.feed_visibility {
            let p = ("feedVisibility".to_owned(), x.wire_name());
            proof {
                lemma_pairs_match_push(ps@, es, p, ("feedVisibility"@, x.spec_wire_name()));
                es = es.push(("feedVisibility"@, x.spec_wire_name()));
            }
            ps.push(p);
        }
        if let Some(x) = &self.show_all_subscription_periods {
            let p = ("showAllSubscriptionPeriods".to_owned(), bool_to_string(*x));
            proof {
                lemma_pairs_match_push(ps@, es, p, ("showAllSubscriptionPeriods"@, spec_bool_str(*x)));
                es = es.push(("showAllSubscriptionPeriods"@, spec_bool_str(*x)));
            }
            ps.push(p);
        }
        proof {
            assert(es =~= self.spec_query_entries());
        }
        Ok(ps)
    }
}
/// An unset filter contributes nothing: its key never occurs among
/// the serialized query entries.
#[verifier::rlimit(100)]
pub proof fn lemma_list_products_omits_unset(p: ListProductsParams)
    ensures
        p.before_created_at is None ==> !spec_entries_have_key(p.spec_query_entries(), "beforeCreatedAt"@),
        p.content_categories is None ==> !spec_entries_have_key(p.spec_query_entries(), "contentCategories"@),
        p.product_types is None ==> !spec_entries_have_key(p.spec_query_entries(), "productTypes"@),
        p.feed_visibility is None ==> !spec_entries_have_key(p.spec_query_entries(), "feedVisibility"@),
        p.show_all_subscription_periods is None ==> !spec_entries_have_key(p.spec_query_entries(), "showAllSubscriptionPeriods"@),
{
    reveal_strlit("beforeCreatedAt");
    reveal_strlit("contentCategories");
    reveal_strlit("productTypes");
    reveal_strlit("feedVisibility");
    reveal_strlit("showAllSubscriptionPeriods");
    assert("beforeCreatedAt"@.len() == 15);
    assert("contentCategories"@.len() == 17);
    assert("productTypes"@.len() == 12);
    assert("feedVisibility"@.len() == 14);
    assert("showAllSubscriptionPeriods"@.len() == 26);

    let es = p.spec_query_entries();
    if p.before_created_at is None {
        assert forall|j: int| 0 <= j < es.len() implies (#[trigger] es[j]).0 != "beforeCreatedAt"@ by {
            assert(es[j].0 == "contentCategories"@ || es[j].0 == "productTypes"@ || es[j].0 == "feedVisibility"@ || es[j].0 == "showAllSubscriptionPeriods"@);
        }
        lemma_no_entry_key(es, "beforeCreatedAt"@);
    }
    if p.content_categories is None {
        assert forall|j: int| 0 <= j < es.len() implies (#[trigger] es[j]).0 != "contentCategories"@ by {
            assert(es[j].0 == "beforeCreatedAt"@ || es[j].0 == "productTypes"@ || es[j].0 == "feedVisibility"@ || es[j].0 == "showAllSubscriptionPeriods"@);
        }
        lemma_no_entry_key(es, "contentCategories"@);
    }
    if p.product_types is None {
        assert forall|j: int| 0 <= j < es.len() implies (#[trigger] es[j]).0 != "productTypes"@ by {
            assert(es[j].0 == "beforeCreatedAt"@ || es[j].0 == "contentCategories"@ || es[j].0 == "feedVisibility"@ || es[j].0 == "showAllSubscriptionPeriods"@);
        }
        lemma_no_entry_key(es, "productTypes"@);
    }
    if p.feed_visibility is None {
        assert forall|j: int| 0 <= j < es.len() implies (#[trigger] es[j]).0 != "feedVisibility"@ by {
            assert(es[j].0 == "beforeCreatedAt"@ || es[j].0 == "contentCategories"@ || es[j].0 == "productTypes"@ || es[j].0 == "showAllSubscriptionPeriods"@);
        }
        lemma_no_entry_key(es, "feedVisibility"@);
    }
    if p.show_all_subscription_periods is None {
        assert forall|j: int| 0 <= j < es.len() implies (#[trigger] es[j]).0 != "showAllSubscriptionPeriods"@ by {
            assert(es[j].0 == "beforeCreatedAt"@ || es[j].0 == "contentCategories"@ || es[j].0 == "productTypes"@ || es[j].0 == "feedVisibility"@);
        }
        lemma_no_entry_key(es, "showAllSubscriptionPeriods"@);
    }
}

/// The single wire spelling denotes the single variant.
pub proof fn lemma_recurrent_dto_wire_round_trip(v: RecurrentDto)
    ensures
        RecurrentDto::spec_from_wire(v.spec_wire_name()) == Some(v),
{
}

} // verus!

//! The donation link of an account.

use vstd::prelude::*;
use crate::json::JsonValue;
use crate::models::common::{spec_req_url, req_url};

verus! {

/// The answer to asking for the donation link: the page URL.
#[derive(Debug, Clone, PartialEq, Eq)]
pub struct DonateResponse {
    pub url: String,
}

/// How the donation answer decodes: a required `url` member accepted by
/// the URL parser.
pub open spec fn spec_decode_donate(v: JsonValue) -> Option<DonateResponse> {
    if !(v is Obj) {
        None
    } else {
        match spec_req_url(v, "url"@) {
            Some(u) => Some(DonateResponse { url: u }),
            None => None,
        }
    }
}

pub fn decode_donate(v: &JsonValue) -> (r: Option<DonateResponse>)
    ensures
        r == spec_decode_donate(*v),
{
    match v {
        JsonValue::Obj(_) => {},
        _ => {
            return None;
        },
    }
    match req_url(v, "url") {
        Some(u) => Some(DonateResponse { url: u }),
        None => None,
    }
}

} // verus!

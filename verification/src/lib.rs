//! Typed client library for the Lava Top payment-gateway HTTP API.
//!
//! The library holds the request/response marshalling layer: it builds
//! outbound requests (method, URL, headers, query string, JSON body),
//! classifies responses by status, decodes success bodies into typed
//! values and normalizes failures into one tagged error type. The
//! network transport itself lives outside the library.

use vstd::prelude::*;

pub mod client;
pub mod date;
pub mod error;
pub mod http;
pub mod json;
pub mod models;
pub mod strutil;

verus! {

/// A response status is a success exactly when it lies in the 2xx range.
pub open spec fn spec_is_success_status(status: u16) -> bool {
    200 <= status <= 299
}

/// Classifies an HTTP status code: 2xx is success, anything else failure.
pub fn is_success_status(status: u16) -> (r: bool)
    ensures
        r == spec_is_success_status(status),
{
    200 <= status && status <= 299
}

} // verus!

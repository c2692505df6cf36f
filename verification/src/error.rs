//! The one tagged error type every call surfaces, and the structured
//! failure payload the service attaches to non-success responses.

use vstd::prelude::*;
use crate::json::{JsonValue, spec_field, spec_opt_str, opt_str, extract_field};
use crate::date::UtcTimestamp;
use crate::models::common::{spec_opt_ts, opt_ts};

verus! {

/// The structured error payload of a failure response. Every field is
/// best-effort: the payload is used only when it parses.
#[derive(Debug, PartialEq, Eq)]
pub struct ApiErrorDetails {
    pub error: Option<String>,
    /// An arbitrary JSON blob with further detail.
    pub details: Option<JsonValue>,
    pub timestamp: Option<UtcTimestamp>,
}

/// Everything that can go wrong with a call, as one tagged type.
#[derive(Debug, PartialEq, Eq)]
pub enum LavaTopError {
    /// A transport-level failure: connection, TLS, timeout, or reading
    /// the response body.
    Network(String),
    /// A local JSON failure, including a success response whose body
    /// does not match the declared shape.
    Serialization(String),
    /// The endpoint path could not be joined to the base URL.
    UrlParse(String),
    /// The API key is not usable as an HTTP header value.
    InvalidHeaderValue(String),
    /// A non-success response from the service: the status, the decoded
    /// payload when it parsed, and the raw body when it was readable.
    ApiError { status: u16, details: Option<ApiErrorDetails>, raw_body: Option<String> },
    /// A required field was absent where the operation expected it.
    MissingField(String),
    /// A query parameter could not be represented.
    InvalidQueryParam(String),
    /// A required call argument was not supplied.
    MissingParameter(String),
}

impl LavaTopError {
    /// A short tag naming the variant, for display by callers.
    pub fn tag(&self) -> (r: &'static str)
        ensures
            self is Network ==> r@ == "network"@,
            self is Serialization ==> r@ == "serialization"@,
            self is UrlParse ==> r@ == "url_parse"@,
            self is InvalidHeaderValue ==> r@ == "invalid_header_value"@,
            self is ApiError ==> r@ == "api_error"@,
            self is MissingField ==> r@ == "missing_field"@,
            self is InvalidQueryParam ==> r@ == "invalid_query_param"@,
            self is MissingParameter ==> r@ == "missing_parameter"@,
    {
        match self {
            LavaTopError::Network(_) => "network",
            LavaTopError::Serialization(_) => "serialization",
            LavaTopError::UrlParse(_) => "url_parse",
            LavaTopError::InvalidHeaderValue(_) => "invalid_header_value",
            LavaTopError::ApiError { .. } => "api_error",
            LavaTopError::MissingField(_) => "missing_field",
            LavaTopError::InvalidQueryParam(_) => "invalid_query_param",
            LavaTopError::MissingParameter(_) => "missing_parameter",
        }
    }
}

/// How a failure body decodes into `ApiErrorDetails`: the value must be
/// an object; `error` an optional string, `timestamp` an optional
/// RFC 3339 string, and `details` any JSON member, kept as it stands.
pub open spec fn spec_decode_error_details(v: JsonValue) -> Option<ApiErrorDetails> {
    if !(v is Obj) {
        None
    } else {
        match spec_opt_str(v, "error"@) {
            None => None,
            Some(err) => match spec_opt_ts(v, "timestamp"@) {
                None => None,
                Some(ts) => Some(
                    ApiErrorDetails {
                        error: err,
                        details: match spec_field(v, "details"@) {
                            None => None,
                            Some(JsonValue::Null) => None,
                            Some(x) => Some(x),
                        },
                        timestamp: ts,
                    },
                ),
            },
        }
    }
}

/// Decodes the structured error payload out of a parsed failure body.
pub fn decode_error_details(v: JsonValue) -> (r: Option<ApiErrorDetails>)
    ensures
        r == spec_decode_error_details(v),
{
    match &v {
        JsonValue::Obj(_) => {},
        _ => {
            return None;
        },
    }
    let err = match opt_str(&v, "error") {
        Some(x) => x,
        None => {
            return None;
        },
    };
    let ts = match opt_ts(&v, "timestamp") {
        Some(x) => x,
        None => {
            return None;
        },
    };
    let det = match extract_field(v, "details") {
        None => None,
        Some(JsonValue::Null) => None,
        Some(x) => Some(x),
    };
    Some(ApiErrorDetails { error: err, details: det, timestamp: ts })
}

} // verus!

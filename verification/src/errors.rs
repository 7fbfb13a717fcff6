//! The client-facing error envelope of the JSON interface: a detail that is
//! either one message or a per-field map, plus the origin of the failure.

use vstd::prelude::*;
use std::collections::HashMap;

verus! {

/// The detail of an error response: one message, or a map from field name
/// to message for validation failures.
#[derive(Debug, Clone)]
pub enum ApiErrorDetail {
    Text(String),
    FieldMap(HashMap<String, String>),
}

impl Default for ApiErrorDetail {
    fn default() -> (r: Self)
        ensures
            r matches ApiErrorDetail::Text(s) && s@ == Seq::<char>::empty(),
    {
        ApiErrorDetail::Text(String::new())
    }
}

/// The error envelope handed back to the client.
#[derive(Debug)]
pub struct ApiErrorShape {
    pub detail: ApiErrorDetail,
    pub origin: Option<String>,
}

impl Default for ApiErrorShape {
    fn default() -> (r: Self)
        ensures
            r.detail matches ApiErrorDetail::Text(s) && s@ == Seq::<char>::empty(),
            r.origin is None,
    {
        ApiErrorShape { detail: ApiErrorDetail::Text(String::new()), origin: None }
    }
}

impl From<String> for ApiErrorShape {
    fn from(detail: String) -> (r: Self) {
        ApiErrorShape { detail: ApiErrorDetail::Text(detail), origin: None }
    }
}

impl vstd::std_specs::convert::FromSpecImpl<String> for ApiErrorShape {
    open spec fn obeys_from_spec() -> bool {
        true
    }

    open spec fn from_spec(detail: String) -> Self {
        ApiErrorShape { detail: ApiErrorDetail::Text(detail), origin: None }
    }
}

impl From<HashMap<String, String>> for ApiErrorShape {
    fn from(fields: HashMap<String, String>) -> (r: Self) {
        ApiErrorShape { detail: ApiErrorDetail::FieldMap(fields), origin: None }
    }
}

impl vstd::std_specs::convert::FromSpecImpl<HashMap<String, String>> for ApiErrorShape {
    open spec fn obeys_from_spec() -> bool {
        true
    }

    open spec fn from_spec(fields: HashMap<String, String>) -> Self {
        ApiErrorShape { detail: ApiErrorDetail::FieldMap(fields), origin: None }
    }
}

} // verus!
